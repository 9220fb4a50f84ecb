//! What to do with the path to list, once its existence has been probed.
use vstd::prelude::*;

use owo_colors::OwoColorize;

verus! {

/// The path listed when none is given: the current directory.
pub const DEFAULT_PATH: &'static str = ".";

/// Text in a terminal foreground colour: the colour's escape code, the text,
/// and the code that restores the default foreground.
pub open spec fn colored(code: Seq<char>, s: Seq<char>) -> Seq<char> {
    "\x1b["@ + code + "m"@ + s + "\x1b[39m"@
}

/// Relies on owo_colors' `OwoColorize::red` and its `Display`: the text
/// between `ESC[31m` and `ESC[39m`.
#[verifier::external_body]
fn paint_red(s: &str) -> (r: String)
    ensures
        r@ == colored("31"@, s@),
{
    s.red().to_string()
}

/// Relies on owo_colors' `OwoColorize::yellow` and its `Display`: the text
/// between `ESC[33m` and `ESC[39m`.
#[verifier::external_body]
fn paint_yellow(s: &str) -> (r: String)
    ensures
        r@ == colored("33"@, s@),
{
    s.yellow().to_string()
}

/// Whether to list the path, or the message to print instead.
#[derive(Debug)]
pub enum PathOutcome {
    List,
    Notice(String),
}

pub open spec fn missing_notice() -> Seq<char> {
    colored("31"@, "Path does not exist"@)
}

pub open spec fn probe_failed_notice() -> Seq<char> {
    colored("33"@, "Error reading directory (missing permissions?)"@)
}

/// Decides from the existence probe: `Some(true)` lists the path;
/// `Some(false)` gives the missing-path notice in red; `None`, a failed
/// probe, gives the permissions notice in yellow.
pub fn path_outcome(probe: Option<bool>) -> (r: PathOutcome)
    ensures
        probe == Some(true) <==> r is List,
        probe == Some(false) ==> (r matches PathOutcome::Notice(m) && m@ == missing_notice()),
        probe is None ==> (r matches PathOutcome::Notice(m) && m@ == probe_failed_notice()),
{
    match probe {
        Some(true) => PathOutcome::List,
        Some(false) => PathOutcome::Notice(paint_red("Path does not exist")),
        None => PathOutcome::Notice(paint_yellow("Error reading directory (missing permissions?)")),
    }
}

} // verus!
