//! Subscriber names.
//!
//! A name is kept exactly as it was typed. It is accepted when it is not
//! blank, holds none of the characters `/ ( ) " < > \ { }` and is at most
//! [`MAX_NAME_GRAPHEMES`] graphemes long.

use vstd::prelude::*;
use unicode_segmentation::UnicodeSegmentation;
use crate::domain::validation_error::{Reason, ValidationError};

verus! {

/// The longest name that is accepted, in graphemes.
pub const MAX_NAME_GRAPHEMES: usize = 256;

/// Whether `c` is Unicode whitespace.
pub open spec fn is_whitespace(c: char) -> bool {
    ||| c == ' '
    ||| '\u{9}' <= c <= '\u{d}'
    ||| c == '\u{85}'
    ||| c == '\u{a0}'
    ||| c == '\u{1680}'
    ||| '\u{2000}' <= c <= '\u{200a}'
    ||| c == '\u{2028}'
    ||| c == '\u{2029}'
    ||| c == '\u{202f}'
    ||| c == '\u{205f}'
    ||| c == '\u{3000}'
}

/// Whether `c` is one of `/ ( ) " < > \ { }`.
pub open spec fn is_forbidden(c: char) -> bool {
    ||| c == '/'
    ||| c == '('
    ||| c == ')'
    ||| c == '"'
    ||| c == '<'
    ||| c == '>'
    ||| c == '\\'
    ||| c == '{'
    ||| c == '}'
}

/// Whether nothing but whitespace stands in `s`; the empty text is blank.
pub open spec fn is_blank(s: Seq<char>) -> bool {
    forall|i: int| 0 <= i < s.len() ==> is_whitespace(#[trigger] s[i])
}

/// Whether a forbidden character stands anywhere in `s`.
pub open spec fn has_forbidden(s: Seq<char>) -> bool {
    exists|i: int| 0 <= i < s.len() && is_forbidden(#[trigger] s[i])
}

/// The number of extended grapheme clusters that `s` is made of, as Unicode
/// Standard Annex 29 divides a text.
pub uninterp spec fn grapheme_count(s: Seq<char>) -> nat;

/// The first rule that a name `s` of `graphemes` graphemes breaks, if any.
/// Blankness is looked at first, then the characters, then the length.
pub open spec fn name_defect(s: Seq<char>, graphemes: nat) -> Option<Reason> {
    if is_blank(s) {
        Some(Reason::Empty)
    } else if has_forbidden(s) {
        Some(Reason::ForbiddenCharacters)
    } else if graphemes > MAX_NAME_GRAPHEMES {
        Some(Reason::TooLong)
    } else {
        None
    }
}

/// Whether `s` is acceptable as a subscriber's name.
pub open spec fn is_valid_name(s: Seq<char>) -> bool {
    name_defect(s, grapheme_count(s)) is None
}

/// Counts the graphemes of `s` with
/// `unicode_segmentation::UnicodeSegmentation::graphemes`, in its extended
/// mode. The count is taken on trust to be the number that Annex 29 gives
/// for the text; nothing more is claimed of it.
#[verifier::external_body]
fn count_graphemes(s: &str) -> (count: usize)
    ensures
        count == grapheme_count(s@),
{
    UnicodeSegmentation::graphemes(s, true).count()
}

fn whitespace(c: char) -> (yes: bool)
    ensures
        yes == is_whitespace(c),
{
    c == ' ' || ('\u{9}' <= c && c <= '\u{d}') || c == '\u{85}' || c == '\u{a0}' || c == '\u{1680}'
        || ('\u{2000}' <= c && c <= '\u{200a}') || c == '\u{2028}' || c == '\u{2029}' || c
        == '\u{202f}' || c == '\u{205f}' || c == '\u{3000}'
}

fn forbidden(c: char) -> (yes: bool)
    ensures
        yes == is_forbidden(c),
{
    c == '/' || c == '(' || c == ')' || c == '"' || c == '<' || c == '>' || c == '\\' || c == '{'
        || c == '}'
}

fn blank(s: &str) -> (yes: bool)
    ensures
        yes == is_blank(s@),
{
    let mut all: bool = true;
    for c in it: s.chars()
        invariant
            it.seq() == s@,
            all == (forall|i: int| 0 <= i < it.index() ==> is_whitespace(#[trigger] s@[i])),
    {
        all = all && whitespace(c);
    }
    all
}

fn any_forbidden(s: &str) -> (yes: bool)
    ensures
        yes == has_forbidden(s@),
{
    let mut found: bool = false;
    for c in it: s.chars()
        invariant
            it.seq() == s@,
            found == (exists|i: int| 0 <= i < it.index() && is_forbidden(#[trigger] s@[i])),
    {
        found = found || forbidden(c);
    }
    found
}

/// A text with a forbidden character is not blank: no forbidden character
/// is whitespace.
pub proof fn lemma_forbidden_is_not_blank(s: Seq<char>)
    ensures
        has_forbidden(s) ==> !is_blank(s),
{
    if has_forbidden(s) {
        let i = choose|i: int| 0 <= i < s.len() && is_forbidden(#[trigger] s[i]);
        assert(!is_whitespace(s[i]));
    }
}

/// Judges a name of which the number of graphemes is already known.
///
/// Returns the error for the first rule that the name breaks, and `Ok` when
/// it breaks none.
pub fn check_name(s: &str, graphemes: usize) -> (verdict: Result<(), ValidationError>)
    ensures
        match name_defect(s@, graphemes as nat) {
            Some(reason) => verdict == Err::<(), ValidationError>(ValidationError { reason }),
            None => verdict is Ok,
        },
{
    if blank(s) {
        Err(ValidationError::new(Reason::Empty))
    } else if any_forbidden(s) {
        Err(ValidationError::new(Reason::ForbiddenCharacters))
    } else if graphemes > MAX_NAME_GRAPHEMES {
        Err(ValidationError::new(Reason::TooLong))
    } else {
        Ok(())
    }
}

/// The name of a subscriber: a text that passed [`SubscriberName::parse`].
#[derive(Debug)]
pub struct SubscriberName {
    value: String,
}

impl View for SubscriberName {
    type V = Seq<char>;

    closed spec fn view(&self) -> Seq<char> {
        self.value@
    }
}

impl SubscriberName {
    /// Every name is valid.
    #[verifier::type_invariant]
    pub open spec fn well_formed(self) -> bool {
        is_valid_name(self@)
    }

    /// The name that holds the text `s`, for use in contracts.
    pub closed spec fn holding(s: String) -> SubscriberName {
        SubscriberName { value: s }
    }

    /// Accepts `s` as a name, or says which rule it breaks.
    ///
    /// A blank text is rejected as empty, and a text with a forbidden
    /// character for that character, whatever else holds of them. A text of
    /// more than 256 graphemes that is neither is rejected as too long. Any
    /// other text is accepted, and the name holds it unchanged: nothing is
    /// trimmed.
    pub fn parse(s: String) -> (parsed: Result<SubscriberName, ValidationError>)
        ensures
            match name_defect(s@, grapheme_count(s@)) {
                Some(reason) => parsed == Err::<SubscriberName, ValidationError>(
                    ValidationError { reason },
                ),
                None => parsed == Ok::<SubscriberName, ValidationError>(Self::holding(s))
                    && parsed->Ok_0@ == s@,
            },
            is_blank(s@) ==> parsed == Err::<SubscriberName, ValidationError>(
                ValidationError { reason: Reason::Empty },
            ),
            has_forbidden(s@) ==> parsed == Err::<SubscriberName, ValidationError>(
                ValidationError { reason: Reason::ForbiddenCharacters },
            ),
            !is_blank(s@) && !has_forbidden(s@) && grapheme_count(s@) > MAX_NAME_GRAPHEMES
                ==> parsed == Err::<SubscriberName, ValidationError>(
                ValidationError { reason: Reason::TooLong },
            ),
    {
        proof {
            lemma_forbidden_is_not_blank(s@);
        }
        let graphemes: usize = count_graphemes(s.as_str());
        match check_name(s.as_str(), graphemes) {
            Ok(()) => Ok(SubscriberName { value: s }),
            Err(error) => Err(error),
        }
    }

    /// The name as text. It is always a valid name.
    pub fn as_ref(&self) -> (text: &str)
        ensures
            text@ == self@,
            is_valid_name(text@),
    {
        proof {
            use_type_invariant(self);
        }
        self.value.as_str()
    }
}

} // verus!
