//! The smart bulb in the status bar: its main light and its background
//! light.

use crate::text::same_text;
use crate::types::{Block, Response};
use vstd::prelude::*;

verus! {

/// The port on which a bulb listens.
pub const PORT: u16 = 55443;

/// The saturation of a color that the helper sets, in percent.
pub const SATURATION: u8 = 100;

/// One thing to do with the bulb.
#[derive(Debug, Clone, Copy, PartialEq, Eq, Structural)]
pub enum Action {
    /// Toggle the main light.
    Toggle,
    /// Toggle the background light.
    ToggleBackground,
    /// Give the background light this hue, at full saturation.
    Color(u16),
    /// Show the state of the bulb, again and again.
    Listen,
}

/// What the switches of the command line ask for, in the order in which it
/// is done: the toggles, then the color, and listening last, since it does
/// not end.
pub open spec fn plan_of(toggle: bool, toggle_bg: bool, color: Option<u16>, listen: bool) -> Seq<
    Action,
> {
    let first = if toggle {
        seq![Action::Toggle]
    } else {
        Seq::empty()
    };
    let second = if toggle_bg {
        first.push(Action::ToggleBackground)
    } else {
        first
    };
    let third = match color {
        Some(hue) => second.push(Action::Color(hue)),
        None => second,
    };
    if listen {
        third.push(Action::Listen)
    } else {
        third
    }
}

/// What one look at the bulb brought.
#[derive(Debug, Clone, PartialEq, Eq)]
pub enum Reading {
    /// No connection to the bulb.
    Unreachable,
    /// The bulb did not answer in time.
    TimedOut,
    /// The bulb answered with an error.
    Refused,
    /// The bulb answered without properties.
    Nothing,
    /// The properties that came back, in the order in which they were asked
    /// for: the power of the main light, then that of the background light.
    Properties(Vec<String>),
}

/// A reading as the contracts see it.
pub ghost enum ReadingView {
    Unreachable,
    TimedOut,
    Refused,
    Nothing,
    Properties(Seq<Seq<char>>),
}

/// Some properties as the contracts see them.
pub open spec fn properties_view(properties: Seq<String>) -> Seq<Seq<char>> {
    properties.map_values(|p: String| p@)
}

impl View for Reading {
    type V = ReadingView;

    open spec fn view(&self) -> ReadingView {
        match self {
            Reading::Unreachable => ReadingView::Unreachable,
            Reading::TimedOut => ReadingView::TimedOut,
            Reading::Refused => ReadingView::Refused,
            Reading::Nothing => ReadingView::Nothing,
            Reading::Properties(properties) => ReadingView::Properties(
                properties_view(properties@),
            ),
        }
    }
}

/// The block for a bulb, given which of its lights are on. The main light
/// counts before the background light.
pub open spec fn shown(main: bool, bg: bool) -> Block {
    if main {
        Block { class: "bulb-on"@, text: "\u{ea61}"@ }
    } else if bg {
        Block { class: "bulb-bg-on"@, text: "\u{f1a50}"@ }
    } else {
        Block { class: "bulb-off"@, text: "\u{f0e4f}"@ }
    }
}

/// How many properties a reading asks for: the power of the main light and
/// that of the background light.
pub const ASKED: usize = 2;

/// What to show after a reading. Properties show as they say where there
/// are as many as were asked for: the first tells of the main light, the
/// second of the background light, and a light is on where its property is
/// `on`. Every other reading shows the bulb as off: one that failed, in
/// whatever way, and one with another number of properties, which is never
/// cut or filled up to fit.
pub open spec fn report_of(reading: ReadingView) -> Option<Block> {
    match reading {
        ReadingView::Properties(properties) => if properties.len() == ASKED {
            Some(shown(properties[0] == "on"@, properties[1] == "on"@))
        } else {
            Some(shown(false, false))
        },
        ReadingView::Unreachable => Some(shown(false, false)),
        ReadingView::TimedOut => Some(shown(false, false)),
        ReadingView::Refused => Some(shown(false, false)),
        ReadingView::Nothing => Some(shown(false, false)),
    }
}

/// What the switches of the command line ask for, in the order in which it
/// is done.
pub fn plan(toggle: bool, toggle_bg: bool, color: Option<u16>, listen: bool) -> (actions: Vec<
    Action,
>)
    ensures
        actions@ == plan_of(toggle, toggle_bg, color, listen),
{
    let mut actions: Vec<Action> = Vec::new();
    if toggle {
        actions.push(Action::Toggle);
    }
    if toggle_bg {
        actions.push(Action::ToggleBackground);
    }
    if let Some(hue) = color {
        actions.push(Action::Color(hue));
    }
    if listen {
        actions.push(Action::Listen);
    }
    actions
}

/// The block for a bulb, given which of its lights are on.
pub fn output(main: bool, bg: bool) -> (r: Response<'static>)
    ensures
        r@ == shown(main, bg),
{
    let mut text = "\u{f0e4f}";
    let mut class = "bulb-off";
    if bg {
        text = "\u{f1a50}";
        class = "bulb-bg-on";
    }
    if main {
        text = "\u{ea61}";
        class = "bulb-on";
    }
    Response { class, text }
}

/// What to show after a reading. There is always something to show.
pub fn report(reading: &Reading) -> (r: Option<Response<'static>>)
    ensures
        match r {
            Some(response) => report_of(reading@) == Some(response@),
            None => report_of(reading@) is None,
        },
        r is Some,
{
    match reading {
        Reading::Properties(properties) => {
            if properties.len() != ASKED {
                return Some(output(false, false));
            }
            let main = same_text(properties[0].as_str(), "on");
            let bg = same_text(properties[1].as_str(), "on");
            Some(output(main, bg))
        },
        Reading::Unreachable => Some(output(false, false)),
        Reading::TimedOut => Some(output(false, false)),
        Reading::Refused => Some(output(false, false)),
        Reading::Nothing => Some(output(false, false)),
    }
}

} // verus!
