//! Replies of the prediction service.
//!
//! A reply is a list of parts to be written one after the other. A part is
//! either text or a number that the caller still has to evaluate and print:
//! the library fixes which number stands where and in which style.

use vstd::prelude::*;

verus! {

/// One part of a reply.
#[derive(Debug, PartialEq, Eq)]
pub enum Part {
    /// Text, written as it is.
    Text(String),
    /// A length, converted to binary64 and written in the default style for
    /// such numbers (no fraction for a whole number).
    Length(usize),
    /// The binary64 number with these bits, written with four digits after
    /// the decimal point.
    Multiplier(u64),
    /// The binary64 product of `length`, converted to binary64, and the number
    /// with the bits `multiplier`, written with four digits after the decimal
    /// point.
    Product { length: usize, multiplier: u64 },
}

/// What a part says, with its text as a sequence of characters.
pub ghost enum PartView {
    Text(Seq<char>),
    Length(usize),
    Multiplier(u64),
    Product { length: usize, multiplier: u64 },
}

impl View for Part {
    type V = PartView;

    open spec fn view(&self) -> PartView {
        match *self {
            Part::Text(text) => PartView::Text(text@),
            Part::Length(length) => PartView::Length(length),
            Part::Multiplier(bits) => PartView::Multiplier(bits),
            Part::Product { length, multiplier } => PartView::Product { length, multiplier },
        }
    }
}

/// A reply: its parts in the order in which they are written.
#[derive(Debug, PartialEq, Eq)]
pub struct Reply {
    pub parts: Vec<Part>,
}

impl View for Reply {
    type V = Seq<PartView>;

    open spec fn view(&self) -> Seq<PartView> {
        Seq::new(self.parts@.len(), |i: int| self.parts@[i]@)
    }
}

} // verus!
