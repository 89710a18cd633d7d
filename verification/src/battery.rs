//! The battery in the status bar: the power it gives off, or how full it
//! is, read from the text of the kernel's two files.
//!
//! Reading the files is the caller's part, and so is the wording of a power
//! in watts.

use crate::number::{decimal, parse_i64, push_decimal, to_i64};
use crate::text::{chars_of, trim, trimmed};
use crate::types::{Block, Response};
use vstd::prelude::*;
use vstd::string::{StrSliceExecFns, StringExecFns};

verus! {

/// What the helper shows.
#[derive(Debug, Clone, Copy, PartialEq, Eq, Structural)]
pub enum Mode {
    Power,
    Capacity,
}

/// The mode that the two switches of the command line ask for: power where
/// neither is given, and none where both are.
pub open spec fn mode_of(power: bool, capacity: bool) -> Option<Mode> {
    if power && capacity {
        None
    } else if capacity {
        Some(Mode::Capacity)
    } else {
        Some(Mode::Power)
    }
}

/// The number in a file of the kernel: the 64-bit integer that the content
/// denotes once the white space around it is taken away.
pub open spec fn number_of(content: Seq<char>) -> Option<i64> {
    parse_i64(trimmed(content))
}

/// The power that the file tells, in microwatts. It is negative while the
/// battery gives power off, and only then is there something to show.
pub open spec fn power_of(content: Seq<char>) -> Result<Option<i64>, ()> {
    match number_of(content) {
        Some(v) => if v >= 0 {
            Ok(None)
        } else {
            Ok(Some(v))
        },
        None => Err(()),
    }
}

/// The capacity that the file tells, as a percentage in words.
pub open spec fn capacity_of(content: Seq<char>) -> Result<Seq<char>, ()> {
    match number_of(content) {
        Some(v) => Ok(decimal(v as int) + seq!['%']),
        None => Err(()),
    }
}

/// The block for a reading of the power, worded by the caller.
pub open spec fn power_shown(reading: Result<Option<Seq<char>>, ()>) -> Block {
    match reading {
        Ok(Some(text)) => Block { class: "power"@, text },
        Ok(None) => Block { class: "power-idle"@, text: " "@ },
        Err(_) => Block { class: "power-err"@, text: "ERR"@ },
    }
}

/// The block for a reading of the capacity.
pub open spec fn capacity_shown(reading: Result<Seq<char>, ()>) -> Block {
    match reading {
        Ok(text) => Block { class: "battery"@, text },
        Err(_) => Block { class: "battery-err"@, text: "ERR"@ },
    }
}

/// The mode that the two switches of the command line ask for.
pub fn mode(power: bool, capacity: bool) -> (r: Option<Mode>)
    ensures
        r == mode_of(power, capacity),
{
    if power && capacity {
        return None;
    }
    let mode_power = if !power && !capacity {
        true
    } else {
        power
    };
    if mode_power {
        Some(Mode::Power)
    } else {
        Some(Mode::Capacity)
    }
}

/// The number in a file of the kernel.
fn read_number(content: &str) -> (r: Option<i64>)
    ensures
        r == number_of(content@),
{
    let chars = chars_of(content);
    assert(chars@.subrange(0, chars@.len() as int) == chars@);
    let (a, b) = trim(chars.as_slice(), 0, chars.len());
    to_i64(content.substring_char(a, b))
}

/// The power that the content of the file tells.
pub fn read_power(content: &str) -> (r: Result<Option<i64>, ()>)
    ensures
        r == power_of(content@),
{
    match read_number(content) {
        Some(val) => {
            if val >= 0 {
                return Ok(None);
            }
            Ok(Some(val))
        },
        None => Err(()),
    }
}

/// The capacity that the content of the file tells.
pub fn read_capacity(content: &str) -> (r: Result<String, ()>)
    ensures
        match r {
            Ok(text) => capacity_of(content@) == Ok::<Seq<char>, ()>(text@),
            Err(_) => capacity_of(content@) is Err,
        },
{
    match read_number(content) {
        Some(val) => {
            let mut text = String::new();
            push_decimal(&mut text, val);
            proof {
                reveal_strlit("%");
            }
            text.append("%");
            assert(text@ =~= decimal(val as int) + seq!['%']);
            Ok(text)
        },
        None => Err(()),
    }
}

/// The block with this text and class.
pub fn output<'a>(text: &'a str, class: &'a str) -> (r: Response<'a>)
    ensures
        r@ == (Block { class: class@, text: text@ }),
{
    Response { class, text }
}

/// The block for a reading of the power, worded by the caller.
pub fn power_output<'a>(reading: &'a Result<Option<String>, ()>) -> (r: Response<'a>)
    ensures
        r@ == power_shown(
            match reading {
                Ok(Some(text)) => Ok(Some(text@)),
                Ok(None) => Ok(None),
                Err(_) => Err(()),
            },
        ),
{
    match reading {
        Ok(Some(text)) => output(text.as_str(), "power"),
        Ok(None) => output(" ", "power-idle"),
        Err(_) => output("ERR", "power-err"),
    }
}

/// The block for a reading of the capacity.
pub fn capacity_output<'a>(reading: &'a Result<String, ()>) -> (r: Response<'a>)
    ensures
        r@ == capacity_shown(
            match reading {
                Ok(text) => Ok(text@),
                Err(_) => Err(()),
            },
        ),
{
    match reading {
        Ok(text) => output(text.as_str(), "battery"),
        Err(_) => output("ERR", "battery-err"),
    }
}

} // verus!
