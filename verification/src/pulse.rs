//! What the audio server reports, read from the text of its two reports:
//! the listing of its devices, and its summary, which names the default
//! ones.
//!
//! Running the reporting command is the caller's part. The functions here
//! take the text that came back.

use crate::text::{
    chars_of, contains, find_last_token, has_prefix, includes, is_space, last_token, lines_of,
    split_lines, starts_with, trim, trim_end, trimmed,
};
use vstd::prelude::*;
use vstd::string::StrSliceExecFns;

verus! {

/// An input device of the audio server.
#[derive(Debug, Clone, PartialEq, Eq)]
pub struct Source {
    pub name: String,
    pub mute: bool,
}

/// An output device of the audio server.
#[derive(Debug, Clone, PartialEq, Eq)]
pub struct Sink {
    pub name: String,
    pub mute: bool,
}

/// Why a report could not be used.
#[derive(Debug, Clone, Copy, PartialEq, Eq, Structural)]
pub enum PulseError {
    /// The summary names no default device of the kind asked for.
    NoDefault,
}

impl PulseError {
    /// The error in words.
    pub fn message(&self) -> (text: &'static str)
        ensures
            text@ == "No default source found"@,
    {
        "No default source found"
    }
}

/// A device as the contracts see it.
pub ghost struct Entry {
    pub name: Seq<char>,
    pub mute: bool,
}

impl View for Source {
    type V = Entry;

    open spec fn view(&self) -> Entry {
        Entry { name: self.name@, mute: self.mute }
    }
}

impl View for Sink {
    type V = Entry;

    open spec fn view(&self) -> Entry {
        Entry { name: self.name@, mute: self.mute }
    }
}

/// Where a reading of the listing stands: the name last seen, and the
/// devices found so far.
pub ghost struct Scan {
    pub name: Seq<char>,
    pub entries: Seq<Entry>,
}

/// One line of the listing, read in state `before`. The line counts without
/// the white space around it. One that begins with `Name: ` gives the name
/// for the devices that follow: its last word. One that begins with `Mute: `
/// completes a device, muted if the line holds `Mute: yes`.
pub open spec fn scan_line(before: Scan, raw: Seq<char>) -> Scan {
    let line = trimmed(raw);
    let name = if has_prefix(line, "Name: "@) {
        match last_token(line) {
            Some(word) => word,
            None => before.name,
        }
    } else {
        before.name
    };
    let entries = if has_prefix(line, "Mute: "@) {
        before.entries.push(Entry { name, mute: includes(line, "Mute: yes"@) })
    } else {
        before.entries
    };
    Scan { name, entries }
}

/// The state after reading `lines` in order, starting with no name.
pub open spec fn scan(lines: Seq<Seq<char>>) -> Scan
    decreases lines.len(),
{
    if lines.len() == 0 {
        Scan { name: Seq::empty(), entries: Seq::empty() }
    } else {
        scan_line(scan(lines.drop_last()), lines.last())
    }
}

/// The devices that a listing describes, in its order.
pub open spec fn listing(text: Seq<char>) -> Seq<Entry> {
    scan(lines_of(text)).entries
}

/// The last word of the first of `lines` that begins with `key`.
pub open spec fn default_of(lines: Seq<Seq<char>>, key: Seq<char>) -> Option<Seq<char>>
    decreases lines.len(),
{
    if lines.len() == 0 {
        None
    } else if has_prefix(lines.first(), key) {
        last_token(lines.first())
    } else {
        default_of(lines.drop_first(), key)
    }
}

/// Whether the first of `entries` with this name is muted. A device that
/// the listing does not hold counts as muted.
pub open spec fn muted_of(entries: Seq<Entry>, name: Seq<char>) -> bool
    decreases entries.len(),
{
    if entries.len() == 0 {
        true
    } else if entries.first().name == name {
        entries.first().mute
    } else {
        muted_of(entries.drop_first(), name)
    }
}

/// What the two reports say of the default device that `key` asks for.
pub open spec fn default_muted(info: Seq<char>, key: Seq<char>, list: Seq<char>) -> Result<
    bool,
    PulseError,
> {
    match default_of(lines_of(info), key) {
        Some(name) => Ok(muted_of(listing(list), name)),
        None => Err(PulseError::NoDefault),
    }
}

/// Trimming from the right stops at the last character that is no white
/// space.
pub proof fn lemma_trim_end_keeps(s: Seq<char>, i: int)
    requires
        0 <= i < s.len(),
        !is_space(s[i]),
    ensures
        trim_end(s).len() > i,
    decreases s.len(),
{
    if is_space(s.last()) {
        lemma_trim_end_keeps(s.drop_last(), i);
    }
}

/// A line that begins with a key has a last word, provided that the key
/// itself begins with a character that is no white space. So the name line
/// of a listing always gives a name, and a default line of a summary always
/// names a device.
pub proof fn lemma_keyed_line_has_word(line: Seq<char>, key: Seq<char>)
    requires
        key.len() > 0,
        !is_space(key[0]),
        has_prefix(line, key),
    ensures
        last_token(line) is Some,
{
    assert(line.subrange(0, key.len() as int)[0] == key[0]);
    lemma_trim_end_keeps(line, 0);
}

/// A summary names a default device exactly when one of its lines begins
/// with the key, provided that the key itself begins with a character that
/// is no white space.
pub proof fn lemma_default_found(lines: Seq<Seq<char>>, key: Seq<char>)
    requires
        key.len() > 0,
        !is_space(key[0]),
    ensures
        default_of(lines, key) is Some <==> exists|i: int|
            0 <= i < lines.len() && has_prefix(#[trigger] lines[i], key),
    decreases lines.len(),
{
    if lines.len() > 0 {
        let first = lines.first();
        if has_prefix(first, key) {
            lemma_keyed_line_has_word(first, key);
            assert(has_prefix(lines[0], key));
        } else {
            let rest = lines.drop_first();
            lemma_default_found(rest, key);
            if default_of(rest, key) is Some {
                let i = choose|i: int| 0 <= i < rest.len() && has_prefix(#[trigger] rest[i], key);
                assert(has_prefix(lines[i + 1], key));
            }
            if exists|i: int| 0 <= i < lines.len() && has_prefix(#[trigger] lines[i], key) {
                let i = choose|i: int| 0 <= i < lines.len() && has_prefix(#[trigger] lines[i], key);
                assert(has_prefix(rest[i - 1], key));
            }
        }
    }
}

/// The devices of a listing as pairs of name and mute flag.
fn read_listing(text: &str) -> (found: Vec<(String, bool)>)
    ensures
        found@.len() == listing(text@).len(),
        forall|i: int|
            0 <= i < found@.len() ==> {
                &&& (#[trigger] found@[i]).0@ == listing(text@)[i].name
                &&& found@[i].1 == listing(text@)[i].mute
            },
{
    let buffer = chars_of(text);
    let chars = buffer.as_slice();
    let spans = split_lines(chars);
    let name_key = chars_of("Name: ");
    let mute_key = chars_of("Mute: ");
    let muted_key = chars_of("Mute: yes");
    let ghost lines = lines_of(text@);
    let mut name = String::new();
    let mut found: Vec<(String, bool)> = Vec::new();
    assert(lines.take(0) == Seq::<Seq<char>>::empty());
    for i in 0..spans.len()
        invariant
            chars@ == text@,
            lines == lines_of(text@),
            spans@.len() == lines.len(),
            forall|j: int|
                0 <= j < spans@.len() ==> {
                    &&& (#[trigger] spans@[j]).0 <= spans@[j].1 <= chars@.len()
                    &&& chars@.subrange(spans@[j].0 as int, spans@[j].1 as int) == lines[j]
                },
            name_key@ == "Name: "@,
            mute_key@ == "Mute: "@,
            muted_key@ == "Mute: yes"@,
            scan(lines.take(i as int)).name == name@,
            scan(lines.take(i as int)).entries.len() == found@.len(),
            forall|j: int|
                0 <= j < found@.len() ==> {
                    &&& (#[trigger] found@[j]).0@ == scan(lines.take(i as int)).entries[j].name
                    &&& found@[j].1 == scan(lines.take(i as int)).entries[j].mute
                },
    {
        let (from, to) = spans[i];
        let (a, b) = trim(chars, from, to);
        proof {
            assert(lines.take(i + 1).drop_last() == lines.take(i as int));
            assert(lines.take(i + 1).last() == lines[i as int]);
        }
        if starts_with(chars, a, b, name_key.as_slice()) {
            match find_last_token(chars, a, b) {
                Some((x, y)) => {
                    name = text.substring_char(x, y).to_owned();
                },
                None => {},
            }
        }
        if starts_with(chars, a, b, mute_key.as_slice()) {
            let mute = contains(chars, a, b, muted_key.as_slice());
            found.push((name.clone(), mute));
        }
    }
    assert(lines.take(spans@.len() as int) == lines);
    found
}

/// The output devices that a listing describes, in its order.
pub fn list_sinks(text: &str) -> (sinks: Vec<Sink>)
    ensures
        sinks@.len() == listing(text@).len(),
        forall|i: int| 0 <= i < sinks@.len() ==> (#[trigger] sinks@[i])@ == listing(text@)[i],
{
    let found = read_listing(text);
    let mut sinks: Vec<Sink> = Vec::new();
    for i in 0..found.len()
        invariant
            found@.len() == listing(text@).len(),
            forall|j: int|
                0 <= j < found@.len() ==> {
                    &&& (#[trigger] found@[j]).0@ == listing(text@)[j].name
                    &&& found@[j].1 == listing(text@)[j].mute
                },
            sinks@.len() == i,
            forall|j: int| 0 <= j < i ==> (#[trigger] sinks@[j])@ == listing(text@)[j],
    {
        sinks.push(Sink { name: found[i].0.clone(), mute: found[i].1 });
    }
    sinks
}

/// The input devices that a listing describes, in its order.
pub fn list_sources(text: &str) -> (sources: Vec<Source>)
    ensures
        sources@.len() == listing(text@).len(),
        forall|i: int|
            0 <= i < sources@.len() ==> (#[trigger] sources@[i])@ == listing(text@)[i],
{
    let found = read_listing(text);
    let mut sources: Vec<Source> = Vec::new();
    for i in 0..found.len()
        invariant
            found@.len() == listing(text@).len(),
            forall|j: int|
                0 <= j < found@.len() ==> {
                    &&& (#[trigger] found@[j]).0@ == listing(text@)[j].name
                    &&& found@[j].1 == listing(text@)[j].mute
                },
            sources@.len() == i,
            forall|j: int| 0 <= j < i ==> (#[trigger] sources@[j])@ == listing(text@)[j],
    {
        sources.push(Source { name: found[i].0.clone(), mute: found[i].1 });
    }
    sources
}

/// The default device that a summary names on its first line that begins
/// with `key`.
fn find_default(info: &str, key: &str) -> (r: Result<String, PulseError>)
    ensures
        match r {
            Ok(name) => default_of(lines_of(info@), key@) == Some(name@),
            Err(e) => e == PulseError::NoDefault && default_of(lines_of(info@), key@) is None,
        },
{
    let buffer = chars_of(info);
    let chars = buffer.as_slice();
    let spans = split_lines(chars);
    let pattern = chars_of(key);
    let ghost lines = lines_of(info@);
    assert(lines.skip(0) == lines);
    for i in 0..spans.len()
        invariant
            chars@ == info@,
            lines == lines_of(info@),
            pattern@ == key@,
            spans@.len() == lines.len(),
            forall|j: int|
                0 <= j < spans@.len() ==> {
                    &&& (#[trigger] spans@[j]).0 <= spans@[j].1 <= chars@.len()
                    &&& chars@.subrange(spans@[j].0 as int, spans@[j].1 as int) == lines[j]
                },
            default_of(lines, key@) == default_of(lines.skip(i as int), key@),
    {
        let (from, to) = spans[i];
        proof {
            assert(lines.skip(i as int).first() == lines[i as int]);
            assert(lines.skip(i as int).drop_first() == lines.skip(i + 1));
        }
        if starts_with(chars, from, to, pattern.as_slice()) {
            return match find_last_token(chars, from, to) {
                Some((x, y)) => Ok(info.substring_char(x, y).to_owned()),
                None => Err(PulseError::NoDefault),
            };
        }
    }
    Err(PulseError::NoDefault)
}

/// The default output device that a summary names.
pub fn default_sink(info: &str) -> (r: Result<String, PulseError>)
    ensures
        match r {
            Ok(name) => default_of(lines_of(info@), "Default Sink:"@) == Some(name@),
            Err(e) => e == PulseError::NoDefault && default_of(
                lines_of(info@),
                "Default Sink:"@,
            ) is None,
        },
{
    find_default(info, "Default Sink:")
}

/// The default input device that a summary names.
pub fn default_source(info: &str) -> (r: Result<String, PulseError>)
    ensures
        match r {
            Ok(name) => default_of(lines_of(info@), "Default Source:"@) == Some(name@),
            Err(e) => e == PulseError::NoDefault && default_of(
                lines_of(info@),
                "Default Source:"@,
            ) is None,
        },
{
    find_default(info, "Default Source:")
}

/// Whether the device called `name` is muted according to `found`.
fn lookup_muted(found: &Vec<(String, bool)>, name: &String, Ghost(entries): Ghost<Seq<Entry>>) -> (r:
    bool)
    requires
        found@.len() == entries.len(),
        forall|i: int|
            0 <= i < found@.len() ==> {
                &&& (#[trigger] found@[i]).0@ == entries[i].name
                &&& found@[i].1 == entries[i].mute
            },
    ensures
        r == muted_of(entries, name@),
{
    assert(entries.skip(0) == entries);
    for i in 0..found.len()
        invariant
            found@.len() == entries.len(),
            forall|j: int|
                0 <= j < found@.len() ==> {
                    &&& (#[trigger] found@[j]).0@ == entries[j].name
                    &&& found@[j].1 == entries[j].mute
                },
            muted_of(entries, name@) == muted_of(entries.skip(i as int), name@),
    {
        proof {
            assert(entries.skip(i as int).first() == entries[i as int]);
            assert(entries.skip(i as int).drop_first() == entries.skip(i + 1));
        }
        if found[i].0 == *name {
            return found[i].1;
        }
    }
    true
}

/// Whether the default output device is muted: `info` is the server's
/// summary, `list` its listing of output devices.
pub fn is_output_muted(info: &str, list: &str) -> (r: Result<bool, PulseError>)
    ensures
        r == default_muted(info@, "Default Sink:"@, list@),
{
    match default_sink(info) {
        Ok(name) => {
            let found = read_listing(list);
            Ok(lookup_muted(&found, &name, Ghost(listing(list@))))
        },
        Err(e) => Err(e),
    }
}

/// Whether the default input device is muted: `info` is the server's
/// summary, `list` its listing of input devices.
pub fn is_input_muted(info: &str, list: &str) -> (r: Result<bool, PulseError>)
    ensures
        r == default_muted(info@, "Default Source:"@, list@),
{
    match default_source(info) {
        Ok(name) => {
            let found = read_listing(list);
            Ok(lookup_muted(&found, &name, Ghost(listing(list@))))
        },
        Err(e) => Err(e),
    }
}

} // verus!
