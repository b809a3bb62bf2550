//! Command-line decisions taken before any work is done.

use vstd::prelude::*;
use crate::text::same_text;

verus! {

/// Whether `t` is one of the flags that ask for the usage line.
pub open spec fn is_help_flag(t: Seq<char>) -> bool {
    t == "-h"@ || t == "--help"@
}

/// The usage line is printed, and nothing else done, when no request is given
/// or when any token asks for help.
pub open spec fn usage_requested(args: Seq<Seq<char>>) -> bool {
    args.len() == 0 || exists|i: int| 0 <= i < args.len() && is_help_flag(#[trigger] args[i])
}

/// Tokens after the program's own name, with the subcommand word removed.
pub open spec fn request_tokens_of(args: Seq<Seq<char>>) -> Seq<Seq<char>> {
    let kept = args.filter(|t: Seq<char>| t != "vendor-one"@);
    if kept.len() == 0 {
        kept
    } else {
        kept.drop_first()
    }
}

/// The one-line usage message.
pub fn usage() -> (r: String)
    ensures
        r@ == "Usage: cargo vendor-one package1[@version1] [package2[@version2] ...]"@,
{
    String::from_str("Usage: cargo vendor-one package1[@version1] [package2[@version2] ...]")
}

fn is_help_token(t: &String) -> (r: bool)
    ensures
        r == is_help_flag(t@),
{
    let a = same_text(t.as_str(), "-h");
    let b = same_text(t.as_str(), "--help");
    a || b
}

/// True exactly when `args` is empty or holds a help flag anywhere.
pub fn wants_usage(args: &Vec<String>) -> (r: bool)
    ensures
        r == usage_requested(args@.map_values(|s: String| s@)),
{
    let ghost views = args@.map_values(|s: String| s@);
    if args.len() == 0 {
        return true;
    }
    let mut i: usize = 0;
    while i < args.len()
        invariant
            0 <= i <= args.len(),
            views == args@.map_values(|s: String| s@),
            forall|j: int| 0 <= j < i ==> !is_help_flag(#[trigger] views[j]),
        decreases args.len() - i,
    {
        if is_help_token(&args[i]) {
            assert(is_help_flag(views[i as int]));
            return true;
        }
        i = i + 1;
    }
    false
}

/// Drops every token that is the subcommand word, then the program's name.
pub fn request_tokens(args: &Vec<String>) -> (r: Vec<String>)
    ensures
        r@.map_values(|s: String| s@) == request_tokens_of(args@.map_values(|s: String| s@)),
{
    let ghost views = args@.map_values(|s: String| s@);
    let mut kept: Vec<String> = Vec::new();
    let mut i: usize = 0;
    while i < args.len()
        invariant
            0 <= i <= args.len(),
            views == args@.map_values(|s: String| s@),
            kept@.map_values(|s: String| s@) == views.subrange(0, i as int).filter(
                |t: Seq<char>| t != "vendor-one"@,
            ),
        decreases args.len() - i,
    {
        proof {
            reveal(Seq::filter);
            assert(views.subrange(0, i + 1).drop_last() == views.subrange(0, i as int));
        }
        let is_sub = same_text(args[i].as_str(), "vendor-one");
        if !is_sub {
            kept.push(args[i].clone());
        }
        proof {
            assert(kept@.map_values(|s: String| s@) == views.subrange(0, i + 1).filter(
                |t: Seq<char>| t != "vendor-one"@,
            ));
        }
        i = i + 1;
    }
    proof {
        assert(views.subrange(0, args.len() as int) == views);
    }
    if kept.len() > 0 {
        kept.remove(0);
    }
    kept
}

} // verus!
