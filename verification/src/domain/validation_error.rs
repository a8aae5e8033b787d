//! Why a piece of untrusted input was turned away.

use vstd::prelude::*;

verus! {

/// The rule that a rejected input broke.
#[derive(Clone, Copy, Debug, PartialEq, Eq, Structural)]
pub enum Reason {
    /// The name is empty or holds nothing but whitespace.
    Empty,
    /// The name is longer than 256 graphemes.
    TooLong,
    /// The name holds a character that names may not contain.
    ForbiddenCharacters,
    /// The text is not an email address.
    InvalidSyntax,
}

/// A rejection of untrusted input, with its reason.
#[derive(Clone, Copy, Debug, PartialEq, Eq, Structural)]
pub struct ValidationError {
    pub reason: Reason,
}

/// The text that stands for each reason.
pub open spec fn reason_text(reason: Reason) -> Seq<char> {
    match reason {
        Reason::Empty => "empty"@,
        Reason::TooLong => "too_long"@,
        Reason::ForbiddenCharacters => "forbidden_characters"@,
        Reason::InvalidSyntax => "invalid_syntax"@,
    }
}

impl Reason {
    /// The reason as text: `empty`, `too_long`, `forbidden_characters` or
    /// `invalid_syntax`.
    pub fn as_str(&self) -> (text: &'static str)
        ensures
            text@ == reason_text(*self),
    {
        match self {
            Reason::Empty => "empty",
            Reason::TooLong => "too_long",
            Reason::ForbiddenCharacters => "forbidden_characters",
            Reason::InvalidSyntax => "invalid_syntax",
        }
    }
}

impl ValidationError {
    /// A rejection for the given reason.
    pub fn new(reason: Reason) -> (error: ValidationError)
        ensures
            error.reason == reason,
    {
        ValidationError { reason }
    }

    /// The text of the rejection, as it is reported to the client.
    pub fn message(&self) -> (text: String)
        ensures
            text@ == reason_text(self.reason),
    {
        self.reason.as_str().to_owned()
    }
}

} // verus!
