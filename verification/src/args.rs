//! The child's command line, built from a normalized request.
//!
//! The child is invoked with a subcommand requesting non-interactive
//! execution, the sandbox policy, the working directory, structured output,
//! the optional attachments and overrides, a resume sub-invocation when a
//! session is resumed, and the prompt as the final positional argument.

use vstd::prelude::*;
use vstd::string::StringExecFns;
use crate::options::Options;
use crate::text::{spec_dec, u64_to_string};

verus! {

/// The argument pair every attached image contributes, in order.
pub open spec fn spec_image_args(images: Seq<Seq<char>>) -> Seq<Seq<char>>
    decreases images.len(),
{
    if images.len() == 0 {
        Seq::<Seq<char>>::empty()
    } else {
        spec_image_args(images.drop_last()) + seq!["--image"@, images.last()]
    }
}

/// The full argument list handed to the child for one request.
pub open spec fn spec_codex_args(opts: &Options) -> Seq<Seq<char>> {
    seq!["exec"@, "--sandbox"@, opts.sandbox.spec_str(), "--cd"@, opts.working_dir@, "--json"@]
        + spec_image_args(opts.image_paths.deep_view()) + (match opts.model {
        Some(m) => seq!["--model"@, m@],
        None => Seq::<Seq<char>>::empty(),
    }) + (match opts.profile {
        Some(p) => seq!["--profile"@, p@],
        None => Seq::<Seq<char>>::empty(),
    }) + (if opts.yolo {
        seq!["--yolo"@]
    } else {
        Seq::<Seq<char>>::empty()
    }) + (if opts.skip_git_repo_check {
        seq!["--skip-git-repo-check"@]
    } else {
        Seq::<Seq<char>>::empty()
    }) + (if opts.return_all_messages {
        seq!["--return-all-messages"@] + (match opts.return_all_messages_limit {
            Some(l) => seq!["--return-all-messages-limit"@, spec_dec(l as nat)],
            None => Seq::<Seq<char>>::empty(),
        })
    } else {
        Seq::<Seq<char>>::empty()
    }) + (match opts.session_id {
        Some(sid) => seq!["resume"@, sid@],
        None => Seq::<Seq<char>>::empty(),
    }) + seq!["--"@, opts.prompt@]
}

proof fn lemma_image_args_push(images: Seq<Seq<char>>, i: int)
    requires
        0 <= i < images.len(),
    ensures
        spec_image_args(images.take(i + 1)) == spec_image_args(images.take(i)) + seq![
            "--image"@,
            images[i],
        ],
{
    assert(images.take(i + 1).drop_last() =~= images.take(i));
    assert(images.take(i + 1).last() == images[i]);
}

/// Builds the child's argument list for one request.
#[verifier::loop_isolation(false)]
#[verifier::rlimit(100)]
pub fn build_codex_args(opts: &Options) -> (r: Vec<String>)
    ensures
        r.deep_view() == spec_codex_args(opts),
{
    let mut args: Vec<String> = Vec::new();
    args.push(String::from_str("exec"));
    args.push(String::from_str("--sandbox"));
    args.push(String::from_str(opts.sandbox.as_str()));
    args.push(String::from_str("--cd"));
    args.push(opts.working_dir.clone());
    args.push(String::from_str("--json"));
    let ghost g0 = seq![
        "exec"@,
        "--sandbox"@,
        opts.sandbox.spec_str(),
        "--cd"@,
        opts.working_dir@,
        "--json"@,
    ];
    proof {
        assert(args.deep_view() =~~= g0);
    }
    let n: usize = opts.image_paths.len();
    let mut i: usize = 0;
    proof {
        assert(args.deep_view() =~= g0 + spec_image_args(
            opts.image_paths.deep_view().take(0),
        ));
    }
    while i < n
        invariant
            0 <= i <= n,
            args.deep_view() == g0 + spec_image_args(opts.image_paths.deep_view().take(i as int)),
        decreases n - i,
    {
        let ghost dv0 = args.deep_view();
        args.push(String::from_str("--image"));
        args.push(opts.image_paths[i].clone());
        proof {
            let imgs = opts.image_paths.deep_view();
            lemma_image_args_push(imgs, i as int);
            assert(args.deep_view() =~~= dv0.push("--image"@).push(imgs[i as int]));
            assert(g0 + spec_image_args(imgs.take(i + 1)) =~~= dv0.push("--image"@).push(
                imgs[i as int],
            ));
        }
        i = i + 1;
    }
    let ghost g1 = g0 + spec_image_args(opts.image_paths.deep_view());
    proof {
        assert(opts.image_paths.deep_view().take(n as int) =~= opts.image_paths.deep_view());
    }
    match &opts.model {
        Some(m) => {
            args.push(String::from_str("--model"));
            args.push(m.clone());
        },
        None => {},
    }
    let ghost g2 = g1 + (match &opts.model {
        Some(m) => seq!["--model"@, m@],
        None => Seq::<Seq<char>>::empty(),
    });
    proof {
        assert(args.deep_view() =~~= g2);
    }
    match &opts.profile {
        Some(p) => {
            args.push(String::from_str("--profile"));
            args.push(p.clone());
        },
        None => {},
    }
    let ghost g3 = g2 + (match &opts.profile {
        Some(p) => seq!["--profile"@, p@],
        None => Seq::<Seq<char>>::empty(),
    });
    proof {
        assert(args.deep_view() =~~= g3);
    }
    if opts.yolo {
        args.push(String::from_str("--yolo"));
    }
    let ghost g4 = g3 + (if opts.yolo {
        seq!["--yolo"@]
    } else {
        Seq::<Seq<char>>::empty()
    });
    proof {
        assert(args.deep_view() =~~= g4);
    }
    if opts.skip_git_repo_check {
        args.push(String::from_str("--skip-git-repo-check"));
    }
    let ghost g5 = g4 + (if opts.skip_git_repo_check {
        seq!["--skip-git-repo-check"@]
    } else {
        Seq::<Seq<char>>::empty()
    });
    proof {
        assert(args.deep_view() =~~= g5);
    }
    if opts.return_all_messages {
        args.push(String::from_str("--return-all-messages"));
        match opts.return_all_messages_limit {
            Some(l) => {
                args.push(String::from_str("--return-all-messages-limit"));
                args.push(u64_to_string(l as u64));
            },
            None => {},
        }
    }
    let ghost g6 = g5 + (if opts.return_all_messages {
        seq!["--return-all-messages"@] + (match opts.return_all_messages_limit {
            Some(l) => seq!["--return-all-messages-limit"@, spec_dec(l as nat)],
            None => Seq::<Seq<char>>::empty(),
        })
    } else {
        Seq::<Seq<char>>::empty()
    });
    proof {
        assert(args.deep_view() =~~= g6);
    }
    match &opts.session_id {
        Some(sid) => {
            args.push(String::from_str("resume"));
            args.push(sid.clone());
        },
        None => {},
    }
    let ghost g7 = g6 + (match &opts.session_id {
        Some(sid) => seq!["resume"@, sid@],
        None => Seq::<Seq<char>>::empty(),
    });
    proof {
        assert(args.deep_view() =~~= g7);
    }
    args.push(String::from_str("--"));
    args.push(opts.prompt.clone());
    proof {
        assert(args.deep_view() =~~= spec_codex_args(opts));
    }
    args
}

} // verus!
