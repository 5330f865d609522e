//! Egress diagnostics: every log is one JSON object per line, written by
//! the caller to the external sink.
//!
//! `get_json` follows the wire discipline of the egress protocol: the
//! candidate line is built textually, then round-tripped through the JSON
//! parser; a message that does not survive the round trip degrades to an
//! empty object rather than corrupting the egress stream.

use vstd::prelude::*;
use crate::json::{json_src, json_text, parse_json, dump_value};

verus! {

/// The candidate log line before validation.
pub open spec fn log_payload(level: Seq<char>, message: Seq<char>) -> Seq<char> {
    "{\""@ + level + "\": \""@ + message + "\"}"@
}

/// The log line actually emitted: the re-serialized object when the
/// candidate parses, the empty object otherwise.
pub open spec fn log_line(level: Seq<char>, message: Seq<char>) -> Seq<char> {
    match json_src(log_payload(level, message)) {
        Some(j) => json_text(j),
        None => "{}"@,
    }
}

/// Builds the JSON log lines of the egress protocol. The `active` field
/// says whether debug messages are emitted at all.
#[derive(Copy, Clone)]
pub struct ConsolePrinter {
    pub active: bool,
}

impl ConsolePrinter {
    pub fn new(active: bool) -> (r: Self)
        ensures
            r.active == active,
    {
        Self { active }
    }

    /// One validated log line of the given level.
    pub fn get_json(&self, message: &str, level: &str) -> (r: String)
        ensures
            r@ == log_line(level@, message@),
    {
        let mut payload = String::from_str("{\"");
        payload.append(level);
        payload.append("\": \"");
        payload.append(message);
        payload.append("\"}");
        match parse_json(payload.as_str()) {
            Some(v) => dump_value(&v),
            None => String::from_str("{}"),
        }
    }

    /// The debug line to emit, or `None` when debug output is off.
    pub fn debug(&self, message: &str) -> (r: Option<String>)
        ensures
            match r {
                Some(line) => self.active && line@ == log_line("debug"@, message@),
                None => !self.active,
            },
    {
        if self.active {
            Some(self.get_json(message, "debug"))
        } else {
            None
        }
    }

    /// The info line to emit.
    pub fn info(&self, message: &str) -> (r: String)
        ensures
            r@ == log_line("info"@, message@),
    {
        self.get_json(message, "info")
    }

    /// The error line to emit.
    pub fn error(&self, message: &str) -> (r: String)
        ensures
            r@ == log_line("error"@, message@),
    {
        self.get_json(message, "error")
    }
}

} // verus!
