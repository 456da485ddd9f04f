//! Per-event computation for the session driver.
//!
//! The driver around this library handles one editor event at a time: it
//! reads the file, invokes the external compiler, and hands the resulting
//! plain values to this module. For a diagnostics event the computation is
//! `diagnostics::translate_all` over the compiler's diagnostics list; for a
//! hover request it is `hover_reply` below. Each event is answered from a
//! freshly built index; nothing is kept across events.

use vstd::prelude::*;

use crate::index::{ResolvedProgram, SourceIndex, lookup_spec, program_entries};
use crate::position::{SourcePosition, offset_at, position_to_offset};

verus! {

/// The reply to a hover request: the text to show, and the zero-width
/// range at the requested position.
pub struct HoverReply {
    pub contents: String,
    pub start: SourcePosition,
    pub end: SourcePosition,
}

/// Computes the reply to one hover request: builds the span index from the
/// resolved program, converts the requested line/column to an offset over
/// the file's text, and answers with the description of the first entry
/// containing that offset (or the fixed fallback text), at a zero-width
/// range at the requested position.
pub fn hover_reply(text: &str, program: &ResolvedProgram, line: usize, column: usize) -> (r:
    HoverReply)
    ensures
        r.contents@ == lookup_spec(
            program_entries(*program),
            offset_at(text@, line as int, column as int),
        ),
        r.start == (SourcePosition { line, column }),
        r.end == r.start,
{
    let index = SourceIndex::build(program);
    let offset = position_to_offset(text, line, column);
    let contents = index.lookup(offset);
    HoverReply {
        contents,
        start: SourcePosition { line, column },
        end: SourcePosition { line, column },
    }
}

} // verus!
