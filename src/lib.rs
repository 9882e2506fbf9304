//! Group resolution and timetable links for a class-schedule chat command.
//!
//! A command carries up to two free-text tokens, or none, in which case the
//! invoking user's role names are scanned. Either way a group key comes out,
//! which is upper-cased and looked up in a table loaded from a JSON object.
//! The identifier found there is turned into a timetable URL for a given
//! calendar year and ISO week.
pub mod text;
pub mod resolve;
pub mod link;
pub mod table;
pub mod command;
