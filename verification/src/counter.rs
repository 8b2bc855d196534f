//! The decisions around a file-count script: how it is run, and what its
//! run amounts to.

use crate::text::{chars_of, outcome_text, trim, trimmed};
use vstd::prelude::*;
use vstd::string::*;

verus! {

/// How a script is run.
#[derive(Clone, Copy, Debug, PartialEq, Eq)]
pub enum ScriptKind {
    /// By PowerShell, which only Windows has.
    PowerShell,
    /// By itself, as a program in the directory it stands in.
    Shell,
}

/// Whether a file name ends in `.ps1`.
pub open spec fn ends_in_ps1(name: Seq<char>) -> bool {
    &&& name.len() >= 4
    &&& name[name.len() - 4] == '.'
    &&& name[name.len() - 3] == 'p'
    &&& name[name.len() - 2] == 's'
    &&& name[name.len() - 1] == '1'
}

/// How the script in a file of this name is run.
pub open spec fn kind_of(name: Seq<char>) -> ScriptKind {
    if ends_in_ps1(name) {
        ScriptKind::PowerShell
    } else {
        ScriptKind::Shell
    }
}

/// The command that runs a shell script from the directory it stands in.
pub open spec fn shell_command_of(name: Seq<char>) -> Seq<char> {
    "./"@ + name
}

/// What a run of the script amounts to: on success what it printed,
/// without the white space around it; else what it wrote as errors.
pub open spec fn report_of(success: bool, stdout: Seq<char>, stderr: Seq<char>) -> Result<
    Seq<char>,
    Seq<char>,
> {
    if success {
        Ok(trimmed(stdout))
    } else {
        Err("Failed to count files: "@ + stderr)
    }
}

/// How the script in a file of this name is run.
pub fn script_kind(name: &str) -> (kind: ScriptKind)
    ensures
        kind == kind_of(name@),
{
    let cs = chars_of(name);
    let n = cs.len();
    if n >= 4 && cs[n - 4] == '.' && cs[n - 3] == 'p' && cs[n - 2] == 's' && cs[n - 1] == '1' {
        ScriptKind::PowerShell
    } else {
        ScriptKind::Shell
    }
}

/// The command that runs a shell script from the directory it stands in.
pub fn shell_command(name: &str) -> (command: String)
    ensures
        command@ == shell_command_of(name@),
{
    let mut command = String::from_str("./");
    command.append(name);
    command
}

/// What a run of the script amounts to, from how it ended and what it
/// wrote.
pub fn count_report(success: bool, stdout: &str, stderr: &str) -> (report: Result<String, String>)
    ensures
        outcome_text(report) == report_of(success, stdout@, stderr@),
{
    if success {
        Ok(trim(stdout))
    } else {
        let mut message = String::from_str("Failed to count files: ");
        message.append(stderr);
        Err(message)
    }
}

} // verus!
