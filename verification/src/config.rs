//! Request normalization: timeout resolution and environment-derived
//! security defaults.
//!
//! The executable around the library reads environment variables once at the
//! edge and hands their raw values in; everything decided from them — the
//! resolved timeout, the boolean switches, the warnings they produce — is
//! computed and specified here.

use vstd::prelude::*;
use vstd::string::StringExecFns;
use crate::text::{
    matches_ci, parse_u64_str, spec_dec, spec_matches_ci, spec_parse_u64, spec_trim, trim_str,
    u64_to_string,
};

verus! {

/// Timeout applied when none is requested and the environment names none.
pub const DEFAULT_TIMEOUT_SECS: u64 = 600;

/// Hard ceiling on any timeout, requested or environment-derived.
pub const MAX_TIMEOUT_SECS: u64 = 3600;

/// An environment variable's state as observed at process start.
pub enum EnvValue {
    /// The variable is not set.
    Missing,
    /// The variable is set but its value is not valid Unicode.
    NotUnicode,
    /// The variable is set to this value.
    Present(String),
}

/// Resolved default timeout together with the warning its resolution raised.
pub struct DefaultTimeoutResult {
    pub value: u64,
    pub warning: Option<String>,
}

/// The timeout a present environment value resolves to: trimmed, parsed as a
/// decimal; empty, zero or unparsable values fall back to the default, and
/// values above the ceiling are capped.
pub open spec fn spec_timeout_of_value(s: Seq<char>) -> u64 {
    let t = spec_trim(s);
    if t.len() == 0 {
        DEFAULT_TIMEOUT_SECS
    } else {
        match spec_parse_u64(t) {
            Some(x) => if x == 0 {
                DEFAULT_TIMEOUT_SECS
            } else if x > MAX_TIMEOUT_SECS {
                MAX_TIMEOUT_SECS
            } else {
                x
            },
            None => DEFAULT_TIMEOUT_SECS,
        }
    }
}

/// The default timeout the environment resolves to.
pub open spec fn spec_default_timeout_value(v: &EnvValue) -> u64 {
    match v {
        EnvValue::Missing => DEFAULT_TIMEOUT_SECS,
        EnvValue::NotUnicode => DEFAULT_TIMEOUT_SECS,
        EnvValue::Present(s) => spec_timeout_of_value(s@),
    }
}

/// The warning that resolving the default timeout raises, if any.
pub open spec fn spec_default_timeout_warning(v: &EnvValue) -> Option<Seq<char>> {
    match v {
        EnvValue::Missing => None,
        EnvValue::NotUnicode => Some(
            "CODEX_DEFAULT_TIMEOUT contains invalid UTF-8; using default of 600 seconds"@,
        ),
        EnvValue::Present(s) => {
            let t = spec_trim(s@);
            if t.len() == 0 {
                None
            } else {
                match spec_parse_u64(t) {
                    Some(x) => if x == 0 {
                        Some("CODEX_DEFAULT_TIMEOUT=0 is invalid; using default of 600 seconds"@)
                    } else if x > MAX_TIMEOUT_SECS {
                        Some(
                            "CODEX_DEFAULT_TIMEOUT="@ + spec_dec(x as nat)
                                + " exceeds maximum of 3600 seconds; capping to maximum"@,
                        )
                    } else {
                        None
                    },
                    None => Some(
                        "CODEX_DEFAULT_TIMEOUT='"@ + t
                            + "' is not a valid number; using default of 600 seconds"@,
                    ),
                }
            }
        },
    }
}

/// Resolves the default timeout from the `CODEX_DEFAULT_TIMEOUT` environment
/// value: a missing, empty, invalid or zero value yields the built-in
/// default, a value above the ceiling is capped, and every irregularity is
/// reported as a warning.  The result always lies in `[1, MAX_TIMEOUT_SECS]`.
pub fn default_timeout_from_env(v: &EnvValue) -> (r: DefaultTimeoutResult)
    ensures
        r.value == spec_default_timeout_value(v),
        r.warning.deep_view() == spec_default_timeout_warning(v),
        1 <= r.value <= MAX_TIMEOUT_SECS,
{
    match v {
        EnvValue::Missing => DefaultTimeoutResult { value: DEFAULT_TIMEOUT_SECS, warning: None },
        EnvValue::NotUnicode => DefaultTimeoutResult {
            value: DEFAULT_TIMEOUT_SECS,
            warning: Some(
                String::from_str(
                    "CODEX_DEFAULT_TIMEOUT contains invalid UTF-8; using default of 600 seconds",
                ),
            ),
        },
        EnvValue::Present(s) => {
            let t = trim_str(s.as_str());
            if t.is_empty() {
                return DefaultTimeoutResult { value: DEFAULT_TIMEOUT_SECS, warning: None };
            }
            match parse_u64_str(t) {
                Some(x) => {
                    if x == 0 {
                        DefaultTimeoutResult {
                            value: DEFAULT_TIMEOUT_SECS,
                            warning: Some(
                                String::from_str(
                                    "CODEX_DEFAULT_TIMEOUT=0 is invalid; using default of 600 seconds",
                                ),
                            ),
                        }
                    } else if x > MAX_TIMEOUT_SECS {
                        let mut w = String::from_str("CODEX_DEFAULT_TIMEOUT=");
                        w.append(u64_to_string(x).as_str());
                        w.append(" exceeds maximum of 3600 seconds; capping to maximum");
                        DefaultTimeoutResult { value: MAX_TIMEOUT_SECS, warning: Some(w) }
                    } else {
                        DefaultTimeoutResult { value: x, warning: None }
                    }
                },
                None => {
                    let mut w = String::from_str("CODEX_DEFAULT_TIMEOUT='");
                    w.append(t);
                    w.append("' is not a valid number; using default of 600 seconds");
                    DefaultTimeoutResult { value: DEFAULT_TIMEOUT_SECS, warning: Some(w) }
                },
            }
        },
    }
}

/// Whether the trimmed value spells one of the accepted "enabled" tokens.
pub open spec fn spec_bool_token_true(t: Seq<char>) -> bool {
    ||| spec_matches_ci(t, "1"@)
    ||| spec_matches_ci(t, "true"@)
    ||| spec_matches_ci(t, "yes"@)
    ||| spec_matches_ci(t, "y"@)
    ||| spec_matches_ci(t, "on"@)
    ||| spec_matches_ci(t, "t"@)
    ||| spec_matches_ci(t, "enable"@)
    ||| spec_matches_ci(t, "enabled"@)
}

/// Whether the trimmed value spells one of the accepted "disabled" tokens.
pub open spec fn spec_bool_token_false(t: Seq<char>) -> bool {
    ||| spec_matches_ci(t, "0"@)
    ||| spec_matches_ci(t, "false"@)
    ||| spec_matches_ci(t, "no"@)
    ||| spec_matches_ci(t, "n"@)
    ||| spec_matches_ci(t, "off"@)
    ||| spec_matches_ci(t, "f"@)
    ||| spec_matches_ci(t, "disable"@)
    ||| spec_matches_ci(t, "disabled"@)
}

/// The boolean an environment value parses to, if any.
pub open spec fn spec_env_bool(v: &EnvValue) -> Option<bool> {
    match v {
        EnvValue::Present(s) => {
            let t = spec_trim(s@);
            if spec_bool_token_true(t) {
                Some(true)
            } else if spec_bool_token_false(t) {
                Some(false)
            } else {
                None
            }
        },
        _ => None,
    }
}

/// Whether an environment value is set to something that is neither empty
/// nor a recognized boolean token, which deserves a warning.
pub open spec fn spec_env_bool_unrecognized(v: &EnvValue) -> bool {
    match v {
        EnvValue::Present(s) => {
            let t = spec_trim(s@);
            t.len() != 0 && !spec_bool_token_true(t) && !spec_bool_token_false(t)
        },
        _ => false,
    }
}

/// The warning an unrecognized boolean value produces.
pub open spec fn spec_env_bool_warning(key: Seq<char>, v: &EnvValue) -> Seq<char> {
    match v {
        EnvValue::Present(s) => "Environment variable "@ + key
            + " has unrecognized boolean value '"@ + s@ + "'; defaulting to disabled."@,
        _ => Seq::<char>::empty(),
    }
}

/// Parses a boolean switch from an environment value: accepted spellings are
/// numeric and textual yes/no tokens in any ASCII case; an empty, missing or
/// non-Unicode value yields nothing; anything else yields nothing and pushes
/// a warning naming the variable and the value.
pub fn parse_env_bool(key: &str, v: &EnvValue, warnings: &mut Vec<String>) -> (r: Option<bool>)
    ensures
        r == spec_env_bool(v),
        spec_env_bool_unrecognized(v) ==> final(warnings).deep_view() == old(
            warnings,
        ).deep_view().push(spec_env_bool_warning(key@, v)),
        !spec_env_bool_unrecognized(v) ==> final(warnings)@ == old(warnings)@,
{
    match v {
        EnvValue::Present(s) => {
            let t = trim_str(s.as_str());
            if matches_ci(t, "1") || matches_ci(t, "true") || matches_ci(t, "yes") || matches_ci(
                t,
                "y",
            ) || matches_ci(t, "on") || matches_ci(t, "t") || matches_ci(t, "enable")
                || matches_ci(t, "enabled") {
                Some(true)
            } else if matches_ci(t, "0") || matches_ci(t, "false") || matches_ci(t, "no")
                || matches_ci(t, "n") || matches_ci(t, "off") || matches_ci(t, "f") || matches_ci(
                t,
                "disable",
            ) || matches_ci(t, "disabled") {
                Some(false)
            } else if t.is_empty() {
                None
            } else {
                let mut w = String::from_str("Environment variable ");
                w.append(key);
                w.append(" has unrecognized boolean value '");
                w.append(s.as_str());
                w.append("'; defaulting to disabled.");
                warnings.push(w);
                proof {
                    assert(warnings.deep_view() =~= old(warnings).deep_view().push(
                        spec_env_bool_warning(key@, v),
                    ));
                }
                None
            }
        },
        _ => None,
    }
}

/// Server-side security switches, all off unless the environment enables
/// them.
pub struct SecurityConfig {
    /// Allow the dangerous full-access sandbox mode.
    pub allow_danger_full_access: bool,
    /// Allow yolo mode, which bypasses approvals.
    pub allow_yolo: bool,
    /// Allow skipping the git repository check.
    pub allow_skip_git_check: bool,
}

/// Builds the security configuration from the three parsed switches: a
/// switch is on exactly when its environment value parsed to an explicit yes.
pub fn get_security_config(
    danger: Option<bool>,
    yolo: Option<bool>,
    skip_git: Option<bool>,
) -> (r: SecurityConfig)
    ensures
        r.allow_danger_full_access == (danger == Some(true)),
        r.allow_yolo == (yolo == Some(true)),
        r.allow_skip_git_check == (skip_git == Some(true)),
{
    SecurityConfig {
        allow_danger_full_access: match danger {
            Some(b) => b,
            None => false,
        },
        allow_yolo: match yolo {
            Some(b) => b,
            None => false,
        },
        allow_skip_git_check: match skip_git {
            Some(b) => b,
            None => false,
        },
    }
}

/// The warnings the timeout normalization appends, in order.
pub open spec fn spec_timeout_warnings(requested: Option<u64>, env: &EnvValue) -> Seq<Seq<char>> {
    let env_warnings = match spec_default_timeout_warning(env) {
        Some(w) => seq![w],
        None => Seq::<Seq<char>>::empty(),
    };
    match requested {
        None => env_warnings,
        Some(t) => if t == 0 {
            seq![
                "Timeout of 0 seconds is invalid; using default of "@
                    + spec_dec(spec_default_timeout_value(env) as nat) + " seconds"@,
            ] + env_warnings
        } else if t > MAX_TIMEOUT_SECS {
            seq![
                "Timeout of "@ + spec_dec(t as nat)
                    + " seconds exceeds maximum of 3600 seconds; capping to maximum"@,
            ]
        } else {
            Seq::<Seq<char>>::empty()
        },
    }
}

/// The timeout a request resolves to.
pub open spec fn spec_normalize_timeout(requested: Option<u64>, env: &EnvValue) -> u64 {
    match requested {
        None => spec_default_timeout_value(env),
        Some(t) => if t == 0 {
            spec_default_timeout_value(env)
        } else if t > MAX_TIMEOUT_SECS {
            MAX_TIMEOUT_SECS
        } else {
            t
        },
    }
}

/// Resolves the timeout of one request: an unset or zero timeout falls back
/// to the environment-derived default, a timeout above the ceiling is
/// capped, and each adjustment appends a warning.  The result always lies in
/// `[1, MAX_TIMEOUT_SECS]`.
pub fn normalize_timeout(requested: Option<u64>, env: &EnvValue, warnings: &mut Vec<String>) -> (r:
    u64)
    ensures
        r == spec_normalize_timeout(requested, env),
        1 <= r <= MAX_TIMEOUT_SECS,
        final(warnings).deep_view() == old(warnings).deep_view() + spec_timeout_warnings(
            requested,
            env,
        ),
{
    match requested {
        None => {
            let d = default_timeout_from_env(env);
            match d.warning {
                Some(w) => {
                    warnings.push(w);
                },
                None => {},
            }
            proof {
                assert(warnings.deep_view() =~= old(warnings).deep_view()
                    + spec_timeout_warnings(requested, env));
            }
            d.value
        },
        Some(t) => {
            if t == 0 {
                let d = default_timeout_from_env(env);
                let mut m = String::from_str("Timeout of 0 seconds is invalid; using default of ");
                m.append(u64_to_string(d.value).as_str());
                m.append(" seconds");
                warnings.push(m);
                match d.warning {
                    Some(w) => {
                        warnings.push(w);
                    },
                    None => {},
                }
                proof {
                    assert(warnings.deep_view() =~= old(warnings).deep_view()
                        + spec_timeout_warnings(requested, env));
                }
                d.value
            } else if t > MAX_TIMEOUT_SECS {
                let mut m = String::from_str("Timeout of ");
                m.append(u64_to_string(t).as_str());
                m.append(" seconds exceeds maximum of 3600 seconds; capping to maximum");
                warnings.push(m);
                proof {
                    assert(warnings.deep_view() =~= old(warnings).deep_view()
                        + spec_timeout_warnings(requested, env));
                }
                MAX_TIMEOUT_SECS
            } else {
                proof {
                    assert(warnings.deep_view() =~= old(warnings).deep_view()
                        + spec_timeout_warnings(requested, env));
                }
                t
            }
        },
    }
}

} // verus!
