//! Errors of the library.

use vstd::prelude::*;

verus! {

#[derive(Clone, Debug)]
pub enum WDQSErr {
    /// A general failure, described in words.
    String(String),
    /// A line of input that does not parse; the line is skipped.
    ParserError(String),
    /// A row that does not fit the layout of its table.
    Schema(String),
}

impl WDQSErr {
    /// The description of this error.
    pub open spec fn message_spec(&self) -> Seq<char> {
        match self {
            WDQSErr::String(s) => s@,
            WDQSErr::ParserError(s) => s@,
            WDQSErr::Schema(s) => s@,
        }
    }

    /// The description of this error.
    pub fn message(&self) -> (r: String)
        ensures
            r@ == self.message_spec(),
    {
        match self {
            WDQSErr::String(s) => s.clone(),
            WDQSErr::ParserError(s) => s.clone(),
            WDQSErr::Schema(s) => s.clone(),
        }
    }
}

} // verus!
