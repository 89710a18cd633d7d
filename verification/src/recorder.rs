//! The screen recorder in the status bar: whether a recording runs, and for
//! how long.
//!
//! The store that remembers the recording, the clock and the recording
//! program are the caller's part.

use crate::number::{decimal, digits, push_digits, push_two_wide, two_wide};
use crate::text::{chars_of, trim, trimmed};
use crate::types::{Block, Label};
use vstd::prelude::*;
use vstd::string::StringExecFns;

verus! {

/// What the helper was called for.
#[derive(Debug, Clone, Copy, PartialEq, Eq, Structural)]
pub enum Mode {
    /// Stop the recording that runs.
    Stop,
    /// Show the state of the recording, again and again.
    Listen,
    /// Start a recording.
    Record,
}

/// The mode that the switches of the command line ask for: stopping comes
/// before listening, and recording is what is left.
pub open spec fn mode_of(stop: bool, listen: bool) -> Mode {
    if stop {
        Mode::Stop
    } else if listen {
        Mode::Listen
    } else {
        Mode::Record
    }
}

/// `secs` divided by sixty, rounded towards zero.
pub open spec fn minutes(secs: int) -> int {
    if secs >= 0 {
        secs / 60
    } else {
        -((-secs) / 60)
    }
}

/// The text for a recording that has run for `secs` seconds: the minutes,
/// and after a colon the seconds less the minutes, each at least two wide.
pub open spec fn clock(secs: int) -> Seq<char> {
    "\u{eba7}   "@ + two_wide(decimal(minutes(secs))) + seq![':'] + two_wide(
        decimal(secs - minutes(secs)),
    )
}

/// The block for a recording that has run for some seconds, or for none
/// that runs.
pub open spec fn shown(secs: Option<i64>) -> Block {
    match secs {
        Some(secs) => Block { class: "recording"@, text: clock(secs as int) },
        None => Block { class: "not-recording"@, text: Seq::empty() },
    }
}

/// The file that a recording started at `secs` goes to in directory `dir`.
pub open spec fn video_file(dir: Seq<char>, secs: nat) -> Seq<char> {
    dir + seq!['/'] + digits(secs) + ".mp4"@
}

/// The mode that the switches of the command line ask for.
pub fn mode(stop: bool, listen: bool) -> (r: Mode)
    ensures
        r == mode_of(stop, listen),
{
    if stop {
        Mode::Stop
    } else if listen {
        Mode::Listen
    } else {
        Mode::Record
    }
}

/// The seconds from `start` to `now`, both counted from the epoch; `None`
/// where they do not fit.
pub fn elapsed(now: u64, start: i64) -> (r: Option<i64>)
    ensures
        match r {
            Some(secs) => secs == now - start,
            None => !(i64::MIN <= now - start <= i64::MAX),
        },
{
    let difference: i128 = now as i128 - start as i128;
    if difference < i64::MIN as i128 || difference > i64::MAX as i128 {
        None
    } else {
        Some(difference as i64)
    }
}

/// The block for a recording that has run for some seconds, or for none
/// that runs.
pub fn output(secs: Option<i64>) -> (r: Label)
    ensures
        r@ == shown(secs),
{
    let mut text = String::new();
    let mut class = "not-recording";
    if let Some(secs) = secs {
        let mins: i64 = if secs >= 0 {
            secs / 60
        } else {
            (-((-(secs as i128)) / 60)) as i64
        };
        proof {
            reveal_strlit(":");
        }
        text.append("\u{eba7}   ");
        push_two_wide(&mut text, mins);
        text.append(":");
        push_two_wide(&mut text, secs - mins);
        class = "recording";
        assert(text@ =~= clock(secs as int));
    }
    Label { class, text }
}

/// Whether the selection tool gave a region: its answer holds more than
/// white space.
pub fn has_region(answer: &str) -> (r: bool)
    ensures
        r == (trimmed(answer@).len() >= 1),
{
    let chars = chars_of(answer);
    assert(chars@.subrange(0, chars@.len() as int) == chars@);
    let (a, b) = trim(chars.as_slice(), 0, chars.len());
    b - a >= 1
}

/// The file that a recording started at `secs` goes to in directory `dir`.
pub fn video_path(dir: &str, secs: u64) -> (path: String)
    ensures
        path@ == video_file(dir@, secs as nat),
{
    let mut path = dir.to_owned();
    proof {
        reveal_strlit("/");
    }
    path.append("/");
    push_digits(&mut path, secs);
    path.append(".mp4");
    assert(path@ =~= video_file(dir@, secs as nat));
    path
}

} // verus!
