//! Sandbox policy granted to the child's file-system and command operations.

use vstd::prelude::*;

verus! {

/// Sandbox policy for model-generated commands.
#[derive(Debug, Clone, Copy, PartialEq, Eq, Structural)]
pub enum SandboxPolicy {
    /// Read-only access (safe for exploration).
    ReadOnly,
    /// Write access within the workspace (modify files).
    WorkspaceWrite,
    /// Full system access (dangerous).
    DangerFullAccess,
}

impl SandboxPolicy {
    /// The command-line spelling of the policy, handed to the child process.
    pub fn as_str(&self) -> (r: &str)
        ensures
            r@ == self.spec_str(),
    {
        match self {
            SandboxPolicy::ReadOnly => "read-only",
            SandboxPolicy::WorkspaceWrite => "workspace-write",
            SandboxPolicy::DangerFullAccess => "danger-full-access",
        }
    }

    /// The policy's spelling as a character sequence.
    pub open spec fn spec_str(self) -> Seq<char> {
        match self {
            SandboxPolicy::ReadOnly => "read-only"@,
            SandboxPolicy::WorkspaceWrite => "workspace-write"@,
            SandboxPolicy::DangerFullAccess => "danger-full-access"@,
        }
    }
}

impl Default for SandboxPolicy {
    /// The default policy is the safest one.
    fn default() -> (r: Self)
        ensures
            r == SandboxPolicy::ReadOnly,
    {
        SandboxPolicy::ReadOnly
    }
}

} // verus!
