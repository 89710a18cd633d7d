//! The microphone in the status bar.

use crate::text::{chars_of, contains, includes};
use crate::types::{Block, Response};
use vstd::prelude::*;

verus! {

/// The block for an input that is muted, or is not.
pub open spec fn shown(muted: bool) -> Block {
    if muted {
        Block { class: "muted"@, text: ""@ }
    } else {
        Block { class: "not-muted"@, text: "\u{ef}\u{201e}\u{b0}"@ }
    }
}

/// A line of the audio server's event stream tells of a change to an input
/// device.
pub open spec fn tells_change(line: Seq<char>) -> bool {
    includes(line, "Event 'change' on source"@)
}

/// The block for an input that is muted, or is not.
pub fn output(muted: bool) -> (r: Response<'static>)
    ensures
        r@ == shown(muted),
{
    let mut text = "\u{ef}\u{201e}\u{b0}";
    let mut class = "not-muted";
    if muted {
        text = "";
        class = "muted";
    }
    Response { class, text }
}

/// Whether a line of the audio server's event stream is a reason to look at
/// the input again.
pub fn is_change(line: &str) -> (r: bool)
    ensures
        r == tells_change(line@),
{
    let chars = chars_of(line);
    let pattern = chars_of("Event 'change' on source");
    assert(chars@.subrange(0, chars@.len() as int) == chars@);
    contains(chars.as_slice(), 0, chars.len(), pattern.as_slice())
}

} // verus!
