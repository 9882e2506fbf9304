//! The timetable command: resolve a group key, look it up, answer with a link.
use vstd::prelude::*;
use crate::link::{get_link, link_text};
use crate::resolve::{resolve_key, resolved_key, ResolveError};
use crate::table::{lookup_of, GroupTable};
use crate::text::without_quotes;

verus! {

/// The answer when the resolved key has no entry in the table.
pub const UNKNOWN_GROUP_REPLY: &'static str = "Unknown group :(";

/// The answer for the table entry found, if any, in `year` and ISO `week`.
pub open spec fn reply_text(entry: Option<Seq<char>>, year: int, week: int) -> Seq<char> {
    match entry {
        Some(id) => link_text(without_quotes(id), year, week),
        None => UNKNOWN_GROUP_REPLY@,
    }
}

/// The answer for a resolved group key: its timetable link, or an apology
/// when the table has no entry at the upper-cased key.
pub fn reply_for_key(table: &GroupTable, key: &str, year: i32, week: u32) -> (r: String)
    ensures
        r@ == reply_text(lookup_of(table@, key@), year as int, week as int),
{
    match table.lookup(key) {
        Some(id) => get_link(id.as_str(), year, week),
        None => String::from_str(UNKNOWN_GROUP_REPLY),
    }
}

/// Answers the timetable command sent with `tokens` by a user with the role
/// names `roles`, for the calendar `year` and ISO `week`.
pub fn edt(
    table: &GroupTable,
    tokens: &Vec<String>,
    roles: &Vec<String>,
    year: i32,
    week: u32,
) -> (r: Result<String, ResolveError>)
    ensures
        match resolved_key(tokens@, roles@) {
            Some(k) => r matches Ok(s) && s@ == reply_text(lookup_of(table@, k), year as int, week as int),
            None => r == Err::<String, ResolveError>(ResolveError::RoleLookupFailed),
        },
{
    match resolve_key(tokens, roles) {
        Ok(key) => Ok(reply_for_key(table, key.as_str(), year, week)),
        Err(e) => Err(e),
    }
}

} // verus!
