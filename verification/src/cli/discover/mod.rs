//! The `discover` commands.

pub mod all;
pub mod format;
pub mod list;
pub mod show;

use vstd::prelude::*;
use vstd::string::*;
use crate::cli::DiscoverCommand;
use crate::text::same_text;

verus! {

/// Whether the table of all projects can be sorted by a column of that
/// name. The load time is a column only when benchmarking.
pub open spec fn is_sort_column(column: Seq<char>, benchmark: bool) -> bool {
    ||| column == "name"@
    ||| column == "path"@
    ||| column == "size"@
    ||| column == "last-activity"@
    ||| column == "tokens"@
    ||| column == "events"@
    ||| column == "phases"@
    ||| (benchmark && column == "load-time"@)
}

/// The text that refuses a sort column.
pub open spec fn invalid_column_text(column: Seq<char>, benchmark: bool) -> Seq<char> {
    "Invalid sort column '"@ + column + "'\n\nValid columns: "@ + if benchmark {
        "name, path, size, last-activity, tokens, events, phases, load-time"@
    } else {
        "name, path, size, last-activity, tokens, events, phases"@
    }
}

/// Checks the name of a sort column.
pub fn validate_sort_column(column: &str, benchmark: bool) -> (r: Result<(), String>)
    ensures
        is_sort_column(column@, benchmark) ==> r is Ok,
        !is_sort_column(column@, benchmark) ==> r is Err && r->Err_0@ == invalid_column_text(
            column@,
            benchmark,
        ),
{
    if same_text(column, "name") || same_text(column, "path") || same_text(column, "size")
        || same_text(column, "last-activity") || same_text(column, "tokens") || same_text(
        column,
        "events",
    ) || same_text(column, "phases") || (benchmark && same_text(column, "load-time")) {
        return Ok(());
    }
    let mut s = String::from_str("Invalid sort column '");
    s.append(column);
    s.append("'\n\nValid columns: ");
    if benchmark {
        s.append("name, path, size, last-activity, tokens, events, phases, load-time");
    } else {
        s.append("name, path, size, last-activity, tokens, events, phases");
    }
    Err(s)
}

/// What a `discover` command comes to.
#[derive(Debug, Clone, PartialEq, Eq)]
pub struct DiscoverPlan {
    /// Whether the disk is scanned afresh, past the cache.
    pub force_refresh: bool,
    /// Whether the output says that the cache was used.
    pub cache_used: bool,
    /// Whether the output is JSON.
    pub json: bool,
    /// What is shown.
    pub subcommand: DiscoverCommand,
}

/// Plans a `discover` command: the projects are read past the cache where
/// that was asked for, and the sort column of the table is checked before
/// anything is read.
pub fn run(subcommand: DiscoverCommand, json: bool, no_cache: bool) -> (r: Result<
    DiscoverPlan,
    String,
>)
    ensures
        match subcommand {
            DiscoverCommand::All { sort_by, benchmark } if !is_sort_column(sort_by@, benchmark) => r
                is Err && r->Err_0@ == invalid_column_text(sort_by@, benchmark),
            _ => r == Ok::<DiscoverPlan, String>(
                DiscoverPlan { force_refresh: no_cache, cache_used: !no_cache, json, subcommand },
            ),
        },
{
    match &subcommand {
        DiscoverCommand::All { sort_by, benchmark } => {
            match validate_sort_column(sort_by.as_str(), *benchmark) {
                Err(e) => {
                    return Err(e);
                },
                Ok(_) => {},
            }
        },
        _ => {},
    }
    Ok(DiscoverPlan { force_refresh: no_cache, cache_used: !no_cache, json, subcommand })
}

} // verus!
