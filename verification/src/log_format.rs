//! The format in which the hosting process writes its log.

use vstd::prelude::*;

verus! {

/// How log events are written out.
#[derive(Debug, Clone, PartialEq, Copy)]
pub enum LogFormat {
    /// Lines of text, for a reader at a terminal.
    Text,
    /// One JSON document for each event, for a collector.
    Json,
}

} // verus!
