//! What every helper hands to the status bar.

use vstd::prelude::*;

verus! {

/// One block of the status bar: its style class and its text.
#[derive(Debug, Clone, Copy, PartialEq, Eq)]
pub struct Response<'a> {
    pub class: &'a str,
    pub text: &'a str,
}

/// A block as the contracts see it.
pub ghost struct Block {
    pub class: Seq<char>,
    pub text: Seq<char>,
}

impl<'a> View for Response<'a> {
    type V = Block;

    open spec fn view(&self) -> Block {
        Block { class: self.class@, text: self.text@ }
    }
}

/// A block whose text was made for the occasion.
#[derive(Debug, Clone, PartialEq, Eq)]
pub struct Label {
    pub class: &'static str,
    pub text: String,
}

impl View for Label {
    type V = Block;

    open spec fn view(&self) -> Block {
        Block { class: self.class@, text: self.text@ }
    }
}

impl Label {
    /// The label as a block to hand on.
    pub fn response(&self) -> (r: Response<'_>)
        ensures
            r@ == self@,
    {
        Response { class: self.class, text: self.text.as_str() }
    }
}

} // verus!
