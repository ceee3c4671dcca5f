//! The compute half of the single-repository sizing boundary.
//!
//! Cloning a repository and running the sizing tool on the clone stay
//! outside this library; what the library owns is the argument list of each
//! of those commands.

use vstd::prelude::*;

use crate::enums::OutputFormat;

verus! {

/// The argument list of a bare clone of `nwo` (the slash-joined owner and
/// repository name) into `directory`.
pub open spec fn clone_argument_seq(nwo: Seq<char>, directory: Seq<char>) -> Seq<Seq<char>> {
    seq!["repo"@, "clone"@, nwo, directory, "--"@, "--bare"@]
}

/// Builds the argument list of the command that clones `nwo` bare into
/// `directory`.
pub fn gh_clone_arguments(nwo: &str, directory: &str) -> (args: Vec<String>)
    ensures
        args.deep_view() == clone_argument_seq(nwo@, directory@),
{
    let mut args: Vec<String> = Vec::new();
    args.push(String::from_str("repo"));
    args.push(String::from_str("clone"));
    args.push(String::from_str(nwo));
    args.push(String::from_str(directory));
    args.push(String::from_str("--"));
    args.push(String::from_str("--bare"));
    proof {
        assert(args.deep_view() =~= clone_argument_seq(nwo@, directory@));
    }
    args
}

/// The argument list of a sizing run inside a cloned repository: always
/// verbose, with a JSON flag exactly when the output format is JSON.
pub open spec fn sizer_argument_seq(format: OutputFormat) -> Seq<Seq<char>> {
    match format {
        OutputFormat::Text => seq!["--verbose"@],
        OutputFormat::Json => seq!["--verbose"@, "--json"@],
    }
}

/// Builds the argument list of the sizing command for `format`.
pub fn git_sizer_arguments(format: OutputFormat) -> (args: Vec<String>)
    ensures
        args.deep_view() == sizer_argument_seq(format),
{
    let mut args: Vec<String> = Vec::new();
    args.push(String::from_str("--verbose"));
    if format == OutputFormat::Json {
        args.push(String::from_str("--json"));
        proof {
            assert(args.deep_view() =~= sizer_argument_seq(format));
        }
        args
    } else {
        proof {
            assert(args.deep_view() =~= sizer_argument_seq(format));
        }
        args
    }
}

} // verus!
