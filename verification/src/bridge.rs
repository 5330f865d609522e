//! The bridge protocol codec: the closed vocabulary of the text commands a
//! surface sends on its bidirectional channel.
//!
//! Every inbound string decodes to exactly one command; anything outside
//! the vocabulary is `Unrecognized` and is ignored downstream.

use vstd::prelude::*;
use crate::strutil::{spec_starts_with, starts_with_lit, str_eq, tail_from};

verus! {

/// One decoded inbound command.
pub enum BridgeCommand {
    /// `#PYWRY_RESULT:<payload>` — a job result is ready.
    Result(String),
    /// `data:<...>` — one chunk of a blob transfer, kept whole.
    Chunk(String),
    /// `#EOF` — the running blob transfer is complete.
    Eof,
    /// `#OPEN_FILE:<path>` — ask the host to open a file natively.
    OpenFile(String),
    /// `#DEVTOOLS` — ask for the devtools panel.
    DevTools,
    /// Anything else: ignored.
    Unrecognized,
}

/// The decoded form of one inbound string.
pub enum BridgeModel {
    Result(Seq<char>),
    Chunk(Seq<char>),
    Eof,
    OpenFile(Seq<char>),
    DevTools,
    Unrecognized,
}

impl View for BridgeCommand {
    type V = BridgeModel;

    open spec fn view(&self) -> BridgeModel {
        match self {
            BridgeCommand::Result(s) => BridgeModel::Result(s@),
            BridgeCommand::Chunk(s) => BridgeModel::Chunk(s@),
            BridgeCommand::Eof => BridgeModel::Eof,
            BridgeCommand::OpenFile(s) => BridgeModel::OpenFile(s@),
            BridgeCommand::DevTools => BridgeModel::DevTools,
            BridgeCommand::Unrecognized => BridgeModel::Unrecognized,
        }
    }
}

/// The grammar of the inbound channel, checked prefix by prefix in wire
/// order.
pub open spec fn spec_bridge_command(s: Seq<char>) -> BridgeModel {
    if spec_starts_with(s, "#PYWRY_RESULT:"@) {
        BridgeModel::Result(s.subrange("#PYWRY_RESULT:"@.len() as int, s.len() as int))
    } else if spec_starts_with(s, "data:"@) {
        BridgeModel::Chunk(s)
    } else if s == "#EOF"@ {
        BridgeModel::Eof
    } else if spec_starts_with(s, "#OPEN_FILE:"@) {
        BridgeModel::OpenFile(s.subrange("#OPEN_FILE:"@.len() as int, s.len() as int))
    } else if s == "#DEVTOOLS"@ {
        BridgeModel::DevTools
    } else {
        BridgeModel::Unrecognized
    }
}

/// Decodes one inbound string into its command.
pub fn parse_bridge_message(s: &str) -> (r: BridgeCommand)
    ensures
        r@ == spec_bridge_command(s@),
{
    if starts_with_lit(s, "#PYWRY_RESULT:") {
        proof {
            reveal_strlit("#PYWRY_RESULT:");
        }
        BridgeCommand::Result(tail_from(s, 14))
    } else if starts_with_lit(s, "data:") {
        BridgeCommand::Chunk(String::from_str(s))
    } else if str_eq(s, "#EOF") {
        BridgeCommand::Eof
    } else if starts_with_lit(s, "#OPEN_FILE:") {
        proof {
            reveal_strlit("#OPEN_FILE:");
        }
        BridgeCommand::OpenFile(tail_from(s, 11))
    } else if str_eq(s, "#DEVTOOLS") {
        BridgeCommand::DevTools
    } else {
        BridgeCommand::Unrecognized
    }
}

} // verus!
