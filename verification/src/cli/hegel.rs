//! Running a command of the workflow tool in every project: which commands
//! may be run so, and how the runs are summed up.

use vstd::prelude::*;
use vstd::string::*;
use crate::text::{decimal, decimal_digits, join_text, same_text};

verus! {

/// Whether a command is interactive and so cannot be run across all
/// projects: `top` and `reflect` are.
pub open spec fn disallowed(command: Seq<char>) -> bool {
    command == "top"@ || command == "reflect"@
}

/// Whether a command cannot be run across all projects.
pub fn is_disallowed(command: &str) -> (r: bool)
    ensures
        r == disallowed(command@),
{
    same_text(command, "top") || same_text(command, "reflect")
}

/// Why the arguments cannot be run, if they cannot: there is no command, or
/// the command is interactive.
pub open spec fn refusal_of(args: Seq<String>) -> Option<Seq<char>> {
    if args.len() == 0 {
        Some("No hegel command specified. Usage: hegel-pm hegel <command> [args...]"@)
    } else if disallowed(args[0]@) {
        Some(
            "Command 'hegel "@ + args[0]@
                + "' cannot be run across all projects (interactive/TUI command)\n\nDisallowed commands: top, reflect"@,
        )
    } else {
        None
    }
}

/// Checks the arguments of a run across all projects, before anything is
/// run.
pub fn run(args: &Vec<String>) -> (r: Result<(), String>)
    ensures
        match refusal_of(args@) {
            Some(text) => r is Err && r->Err_0@ == text,
            None => r is Ok,
        },
{
    if args.len() == 0 {
        return Err(
            String::from_str("No hegel command specified. Usage: hegel-pm hegel <command> [args...]"),
        );
    }
    if is_disallowed(args[0].as_str()) {
        let mut s = String::from_str("Command 'hegel ");
        s.append(args[0].as_str());
        s.append(
            "' cannot be run across all projects (interactive/TUI command)\n\nDisallowed commands: top, reflect",
        );
        return Err(s);
    }
    Ok(())
}

/// How a run across all projects ends: with an error that counts the
/// failures as soon as one project failed.
pub fn conclude(failure_count: usize) -> (r: Result<(), String>)
    ensures
        failure_count == 0 ==> r is Ok,
        failure_count > 0 ==> r is Err && r->Err_0@ == decimal_digits(failure_count as nat)
            + " project(s) failed"@,
{
    if failure_count > 0 {
        let digits = decimal(failure_count as u128);
        Err(join_text(digits.as_str(), " project(s) failed"))
    } else {
        Ok(())
    }
}

} // verus!
