use vstd::prelude::*;

use crate::text::{is_blank, str_is_blank};

verus! {

/// Errors reported by request validation.
#[derive(Debug)]
pub enum TwilioError {
    /// The request breaks a documented Twilio constraint and was not sent.
    InvalidRequest(String),
}

/// The message an `InvalidRequest` carries, as characters.
pub open spec fn invalid_request_message(e: TwilioError) -> Seq<char> {
    match e {
        TwilioError::InvalidRequest(m) => m@,
    }
}

/// The outcome of a validation, as the text of the first violated rule.
pub open spec fn check_outcome(r: Result<(), TwilioError>, violation: Option<Seq<char>>) -> bool {
    match violation {
        None => r is Ok,
        Some(m) => r is Err && invalid_request_message(r->Err_0) == m,
    }
}

/// Build an `InvalidRequest` error from a message.
pub fn invalid(message: &str) -> (e: TwilioError)
    ensures
        invalid_request_message(e) == message@,
{
    TwilioError::InvalidRequest(message.to_string())
}

/// The error text `"{field} must not be empty"`.
pub open spec fn must_not_be_empty(field: Seq<char>) -> Seq<char> {
    field + " must not be empty"@
}

/// Build the error `"{field} must not be empty"`.
pub fn empty_field_error(field: &str) -> (e: TwilioError)
    ensures
        invalid_request_message(e) == must_not_be_empty(field@),
{
    let mut m = field.to_string();
    m.append(" must not be empty");
    TwilioError::InvalidRequest(m)
}

/// Reject a blank value of `field`.
pub fn require_nonempty(field: &str, value: &str) -> (r: Result<(), TwilioError>)
    ensures
        check_outcome(
            r,
            if is_blank(value@) {
                Some(must_not_be_empty(field@))
            } else {
                None
            },
        ),
{
    if str_is_blank(value) {
        Err(empty_field_error(field))
    } else {
        Ok(())
    }
}

/// The text of a rule that a blank value breaks.
pub open spec fn blank_rule(s: Seq<char>, message: Seq<char>) -> Option<Seq<char>> {
    if is_blank(s) {
        Some(message)
    } else {
        None
    }
}

/// The text of a rule that a count outside `min..=max` breaks.
pub open spec fn count_rule(n: nat, min: nat, max: nat, message: Seq<char>) -> Option<Seq<char>> {
    if min <= n <= max {
        None
    } else {
        Some(message)
    }
}

/// The first broken rule of two checked in order.
pub open spec fn first_of(a: Option<Seq<char>>, b: Option<Seq<char>>) -> Option<Seq<char>> {
    if a is Some {
        a
    } else {
        b
    }
}

/// The first broken rule of a sequence of checks taken in order.
pub open spec fn first_some(s: Seq<Option<Seq<char>>>) -> Option<Seq<char>>
    decreases s.len(),
{
    if s.len() == 0 {
        None
    } else if s[0] is Some {
        s[0]
    } else {
        first_some(s.drop_first())
    }
}

/// Checks that pass can be skipped when looking for the first broken rule.
pub proof fn lemma_first_some_skip(s: Seq<Option<Seq<char>>>, i: int)
    requires
        0 <= i <= s.len(),
        forall|j: int| 0 <= j < i ==> s[j] is None,
    ensures
        first_some(s) == first_some(s.skip(i)),
        i < s.len() && s[i] is Some ==> first_some(s) == s[i],
        i == s.len() ==> first_some(s) is None,
    decreases i,
{
    if i > 0 {
        lemma_first_some_skip(s.drop_first(), i - 1);
        assert(s.drop_first().skip(i - 1) =~= s.skip(i));
    } else {
        assert(s.skip(0) =~= s);
    }
    if i < s.len() && s[i] is Some {
        assert(s.skip(i)[0] == s[i]);
    }
}

/// Reject a blank text with `message`.
pub fn require(value: &str, message: &str) -> (r: Result<(), TwilioError>)
    ensures
        check_outcome(r, blank_rule(value@, message@)),
{
    if str_is_blank(value) {
        Err(invalid(message))
    } else {
        Ok(())
    }
}

/// Reject a count outside `min..=max` with `message`.
pub fn require_count(n: usize, min: usize, max: usize, message: &str) -> (r: Result<(), TwilioError>)
    ensures
        check_outcome(r, count_rule(n as nat, min as nat, max as nat, message@)),
{
    if min <= n && n <= max {
        Ok(())
    } else {
        Err(invalid(message))
    }
}


/// A sequence of checks passes exactly when each check passes.
pub proof fn lemma_first_some_none(s: Seq<Option<Seq<char>>>)
    ensures
        first_some(s) is None <==> forall|j: int| 0 <= j < s.len() ==> (#[trigger] s[j]) is None,
    decreases s.len(),
{
    if s.len() > 0 {
        lemma_first_some_none(s.drop_first());
        if first_some(s) is None {
            assert forall|j: int| 0 <= j < s.len() implies (#[trigger] s[j]) is None by {
                if j > 0 {
                    assert(s.drop_first()[j - 1] == s[j]);
                }
            }
        }
        if forall|j: int| 0 <= j < s.len() ==> (#[trigger] s[j]) is None {
            assert(s[0] is None);
            assert forall|j: int| 0 <= j < s.drop_first().len() implies (#[trigger] s.drop_first()[j]) is None by {
                assert(s.drop_first()[j] == s[j + 1]);
            }
        }
    }
}

} // verus!
