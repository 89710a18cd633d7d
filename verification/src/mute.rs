//! The loudspeaker in the status bar.

use crate::text::{chars_of, contains, includes};
use crate::types::{Block, Response};
use vstd::prelude::*;

verus! {

/// The block for an output that is muted, or is not.
pub open spec fn shown(muted: bool) -> Block {
    if muted {
        Block { class: "muted"@, text: "\u{f075f}"@ }
    } else {
        Block { class: "not-muted"@, text: ""@ }
    }
}

/// A line of the audio server's event stream tells of a change to an output
/// device.
pub open spec fn tells_change(line: Seq<char>) -> bool {
    includes(line, "Event 'change' on sink"@)
}

/// The block for an output that is muted, or is not.
pub fn output(muted: bool) -> (r: Response<'static>)
    ensures
        r@ == shown(muted),
{
    let mut text = "";
    let mut class = "not-muted";
    if muted {
        text = "\u{f075f}";
        class = "muted";
    }
    Response { class, text }
}

/// Whether a line of the audio server's event stream is a reason to look at
/// the output again.
pub fn is_change(line: &str) -> (r: bool)
    ensures
        r == tells_change(line@),
{
    let chars = chars_of(line);
    let pattern = chars_of("Event 'change' on sink");
    assert(chars@.subrange(0, chars@.len() as int) == chars@);
    contains(chars.as_slice(), 0, chars.len(), pattern.as_slice())
}

} // verus!
