//! Where the tool is installed when it has to be fetched.

use vstd::prelude::*;
use vstd::string::*;

verus! {

/// Whether `text` ends with `tail`.
pub open spec fn ends_with(text: Seq<char>, tail: Seq<char>) -> bool {
    text.len() >= tail.len() && text.subrange(text.len() - tail.len(), text.len() as int) == tail
}

/// Calls `shellexpand::tilde` on `text`. The function replaces a leading `~`
/// by the home directory of the user where the `~` ends the text or a `/`
/// follows it and a home directory is known, and hands the text back
/// unchanged otherwise. Which of the two happens depends on the process's
/// surroundings, so the contract states only what holds either way: the
/// result is the text itself, or the text began with `~` and the result ends
/// with what followed it.
#[verifier::external_body]
fn expand_home(text: &str) -> (r: String)
    ensures
        r@ == text@ || (text@.len() > 0 && text@[0] == '~' && ends_with(r@, text@.skip(1))),
{
    shellexpand::tilde(text).into_owned()
}

/// The directory under which the tool is installed: `micromamba` in the
/// user's home directory. Where no home directory is known the unexpanded
/// `~/micromamba` is returned.
pub fn mamba_root() -> (r: String)
    ensures
        r@ == "~/micromamba"@ || ends_with(r@, "/micromamba"@),
{
    let r = expand_home("~/micromamba");
    proof {
        reveal_strlit("~/micromamba");
        reveal_strlit("/micromamba");
        assert("~/micromamba"@.skip(1) =~= "/micromamba"@);
    }
    r
}

/// The place of the binary below an install root.
pub open spec fn fallback_binary_text(root: Seq<char>) -> Seq<char> {
    root + "/bin/micromamba"@
}

/// The path at which the binary is expected once it has been installed
/// under `root`.
pub fn fallback_binary(root: &str) -> (r: String)
    ensures
        r@ == fallback_binary_text(root@),
{
    root.to_owned().concat("/bin/micromamba")
}

/// The name under which the binary is searched for.
pub fn tool_name() -> (r: String)
    ensures
        r@ == "micromamba"@,
{
    "micromamba".to_owned()
}

/// The arguments that make the tool list its environments in a
/// machine-readable form: `env list --json`.
pub fn list_arguments() -> (r: Vec<String>)
    ensures
        r@.len() == 3,
        r@[0]@ == "env"@,
        r@[1]@ == "list"@,
        r@[2]@ == "--json"@,
{
    let mut args: Vec<String> = Vec::new();
    args.push("env".to_owned());
    args.push("list".to_owned());
    args.push("--json".to_owned());
    args
}

/// The arguments that make the tool create the default environment:
/// `create -n base`.
pub fn create_arguments() -> (r: Vec<String>)
    ensures
        r@.len() == 3,
        r@[0]@ == "create"@,
        r@[1]@ == "-n"@,
        r@[2]@ == "base"@,
{
    let mut args: Vec<String> = Vec::new();
    args.push("create".to_owned());
    args.push("-n".to_owned());
    args.push("base".to_owned());
    args
}

} // verus!
