//! Subscriber email addresses.
//!
//! An address is kept exactly as it was typed. It is accepted when it has
//! the shape `local-part@domain`, with a dot in the domain, and passes the
//! syntax check of the `validator` crate.

use vstd::prelude::*;
use crate::domain::validation_error::{Reason, ValidationError};

verus! {

/// Whether the last `@` of `s` stands at position `at`.
pub open spec fn is_last_at(s: Seq<char>, at: int) -> bool {
    &&& 0 <= at < s.len()
    &&& s[at] == '@'
    &&& forall|k: int| at < k < s.len() ==> #[trigger] s[k] != '@'
}

/// Whether `s` reads `local-part@domain`: something stands before its last
/// `@`, and a dot stands somewhere after it.
pub open spec fn has_mailbox_shape(s: Seq<char>) -> bool {
    exists|at: int, dot: int|
        #![trigger s[at], s[dot]]
        0 < at < dot < s.len() && is_last_at(s, at) && s[dot] == '.'
}

/// What `validator::validate_email` answers for the text `s`.
pub uninterp spec fn standard_email_syntax(s: Seq<char>) -> bool;

/// Whether `s` is acceptable as a subscriber's email address.
pub open spec fn is_valid_email(s: Seq<char>) -> bool {
    has_mailbox_shape(s) && standard_email_syntax(s)
}

/// Asks `validator::validate_email` whether `s` is an email address. The
/// answer is taken on trust to depend on the text alone; nothing more is
/// claimed of it.
#[verifier::external_body]
fn standard_check(s: &str) -> (ok: bool)
    ensures
        ok == standard_email_syntax(s@),
{
    validator::validate_email(s)
}

fn mailbox_shaped(s: &str) -> (yes: bool)
    ensures
        yes == has_mailbox_shape(s@),
{
    let mut at_seen: bool = false;
    let mut local_part: bool = false;
    let mut dot_after: bool = false;
    let mut at_start: bool = true;
    let ghost mut last: int = -1;
    let ghost mut dot: int = -1;
    for c in it: s.chars()
        invariant
            it.seq() == s@,
            at_start == (it.index() == 0),
            -1 <= last < it.index(),
            at_seen == (last >= 0),
            local_part == (last > 0),
            last >= 0 ==> s@[last] == '@',
            forall|k: int| last < k < it.index() ==> #[trigger] s@[k] != '@',
            dot_after ==> last >= 0 && last < dot < it.index() && s@[dot] == '.',
            !dot_after && last >= 0 ==> forall|k: int|
                last < k < it.index() ==> #[trigger] s@[k] != '.',
    {
        if c == '@' {
            at_seen = true;
            local_part = !at_start;
            dot_after = false;
            proof {
                last = it.index() as int;
            }
        } else if c == '.' && at_seen {
            dot_after = true;
            proof {
                dot = it.index() as int;
            }
        }
        at_start = false;
    }
    let yes = at_seen && local_part && dot_after;
    proof {
        if yes {
            assert(is_last_at(s@, last));
            assert(s@[dot] == '.');
        }
        if has_mailbox_shape(s@) {
            let (a, d) = choose|a: int, d: int|
                #![trigger s@[a], s@[d]]
                0 < a < d < s@.len() && is_last_at(s@, a) && s@[d] == '.';
            assert(a == last) by {
                if a < last {
                    assert(s@[last] == '@');
                }
                if last < a {
                    assert(s@[a] == '@');
                }
            }
            assert(s@[d] == '.');
        }
    }
    yes
}

/// Judges an address of which the answer of the standard check is already
/// known.
///
/// Returns `Ok` when the standard check passed and the address has the
/// shape `local-part@domain` with a dot in the domain, and the error
/// otherwise.
pub fn check_email(s: &str, standard: bool) -> (verdict: Result<(), ValidationError>)
    ensures
        verdict is Ok <==> standard && has_mailbox_shape(s@),
        verdict is Err ==> verdict->Err_0 == (ValidationError { reason: Reason::InvalidSyntax }),
{
    if standard && mailbox_shaped(s) {
        Ok(())
    } else {
        Err(ValidationError::new(Reason::InvalidSyntax))
    }
}

/// The email address of a subscriber: a text that passed
/// [`SubscriberEmail::parse`].
#[derive(Debug)]
pub struct SubscriberEmail {
    value: String,
}

impl View for SubscriberEmail {
    type V = Seq<char>;

    closed spec fn view(&self) -> Seq<char> {
        self.value@
    }
}

impl SubscriberEmail {
    /// Every address is valid.
    #[verifier::type_invariant]
    pub open spec fn well_formed(self) -> bool {
        is_valid_email(self@)
    }

    /// The address that holds the text `s`, for use in contracts.
    pub closed spec fn holding(s: String) -> SubscriberEmail {
        SubscriberEmail { value: s }
    }

    /// Accepts `s` as an email address, or rejects it for its syntax.
    ///
    /// The accepted address holds `s` unchanged.
    pub fn parse(s: String) -> (parsed: Result<SubscriberEmail, ValidationError>)
        ensures
            is_valid_email(s@) ==> parsed == Ok::<SubscriberEmail, ValidationError>(
                Self::holding(s),
            ) && parsed->Ok_0@ == s@,
            !is_valid_email(s@) ==> parsed == Err::<SubscriberEmail, ValidationError>(
                ValidationError { reason: Reason::InvalidSyntax },
            ),
    {
        let standard: bool = standard_check(s.as_str());
        match check_email(s.as_str(), standard) {
            Ok(()) => Ok(SubscriberEmail { value: s }),
            Err(error) => Err(error),
        }
    }

    /// The address as text. It is always a valid address.
    pub fn as_ref(&self) -> (text: &str)
        ensures
            text@ == self@,
            is_valid_email(text@),
    {
        proof {
            use_type_invariant(self);
        }
        self.value.as_str()
    }
}

} // verus!
