use vstd::prelude::*;

use crate::error::{check_outcome, invalid_request_message, TwilioError};
use crate::external::{calendar_date_exists, is_calendar_date};
use crate::form::{params_view, push_str, str_param, FormParam, ParamSeq};

use crate::debug_text::{
    debug_opt_bool, debug_opt_i64, debug_opt_str, debug_opt_str_list, debug_opt_timestamp, debug_struct_text,
    opt_bool_debug, opt_i64_debug, opt_str_debug, opt_str_list_debug, opt_timestamp_debug, redacted, redacted_text,
    DebugStructText,
};
verus! {

/// An ASCII decimal digit.
pub open spec fn is_digit(c: char) -> bool {
    '0' <= c && c <= '9'
}

/// Every character of a text is a decimal digit.
pub open spec fn all_digits(s: Seq<char>) -> bool {
    forall|i: int| 0 <= i < s.len() ==> #[trigger] is_digit(s[i])
}

/// The number that a text of decimal digits writes.
pub open spec fn digits_value(s: Seq<char>) -> int
    decreases s.len(),
{
    if s.len() == 0 {
        0
    } else {
        10 * digits_value(s.drop_last()) + (s.last() as int - '0' as int)
    }
}

/// A `YYYY-MM-DD` date: ten characters, `-` at the fifth and eighth, every
/// other character an ASCII digit, and an existing calendar date.
pub open spec fn is_yyyy_mm_dd(s: Seq<char>) -> bool {
    &&& s.len() == 10
    &&& s[4] == '-'
    &&& s[7] == '-'
    &&& all_digits(s.subrange(0, 4))
    &&& all_digits(s.subrange(5, 7))
    &&& all_digits(s.subrange(8, 10))
    &&& is_calendar_date(
        digits_value(s.subrange(0, 4)),
        digits_value(s.subrange(5, 7)),
        digits_value(s.subrange(8, 10)),
    )
}

/// The upper bound of a number written with `k` digits, for `k <= 4`.
pub open spec fn digits_bound(k: int) -> int {
    if k <= 0 {
        1
    } else if k == 1 {
        10
    } else if k == 2 {
        100
    } else if k == 3 {
        1000
    } else {
        10000
    }
}

/// Read the field of `len` decimal digits at `start`.
fn parse_field(s: &str, start: usize, len: usize) -> (r: Option<u32>)
    requires
        start + len <= s@.len(),
        1 <= len <= 4,
    ensures
        all_digits(s@.subrange(start as int, start + len)) ==> r == Some(
            digits_value(s@.subrange(start as int, start + len)) as u32,
        ) && 0 <= digits_value(s@.subrange(start as int, start + len)) < digits_bound(len as int),
        !all_digits(s@.subrange(start as int, start + len)) ==> r is None,
{
    let n = s.unicode_len();
    assert(start + len <= n);
    let end = start + len;
    let mut value: u32 = 0;
    let mut i: usize = start;
    while i < end
        invariant
            end == start + len,
            end <= s@.len(),
            len <= 4,
            start <= i <= end,
            all_digits(s@.subrange(start as int, i as int)),
            value == digits_value(s@.subrange(start as int, i as int)),
            0 <= value < digits_bound(i - start),
        decreases end - i,
    {
        let c = s.get_char(i);
        if !('0' <= c && c <= '9') {
            proof {
                assert(!is_digit(s@.subrange(start as int, end as int)[i - start]));
            }
            return None;
        }
        let d = (c as u32) - ('0' as u32);
        proof {
            let u = s@.subrange(start as int, i + 1);
            assert(u.drop_last() =~= s@.subrange(start as int, i as int));
            assert(u.last() == c);
            assert forall|j: int| 0 <= j < u.len() implies #[trigger] is_digit(u[j]) by {
                if j < u.len() - 1 {
                    assert(u[j] == s@.subrange(start as int, i as int)[j]);
                }
            }
        }
        value = value * 10 + d;
        i = i + 1;
    }
    Some(value)
}

/// The error text `"{name} must be a valid YYYY-MM-DD date"`.
pub open spec fn invalid_date_message(name: Seq<char>) -> Seq<char> {
    name + " must be a valid YYYY-MM-DD date"@
}

/// Build the error `"{name} must be a valid YYYY-MM-DD date"`.
fn invalid_date(name: &str) -> (e: TwilioError)
    ensures
        invalid_request_message(e) == invalid_date_message(name@),
{
    let mut m = name.to_string();
    m.append(" must be a valid YYYY-MM-DD date");
    TwilioError::InvalidRequest(m)
}

/// Check that the value of `name` is a `YYYY-MM-DD` date that exists.
pub fn validate_yyyy_mm_dd(name: &str, value: &str) -> (r: Result<(), TwilioError>)
    ensures
        check_outcome(
            r,
            if is_yyyy_mm_dd(value@) {
                None
            } else {
                Some(invalid_date_message(name@))
            },
        ),
{
    if value.unicode_len() != 10 || value.get_char(4) != '-' || value.get_char(7) != '-' {
        return Err(invalid_date(name));
    }
    let year = parse_field(value, 0, 4);
    let month = parse_field(value, 5, 2);
    let day = parse_field(value, 8, 2);
    match (year, month, day) {
        (Some(y), Some(m), Some(d)) => {
            if calendar_date_exists(y as i32, m as u8, d as u8) {
                Ok(())
            } else {
                Err(invalid_date(name))
            }
        },
        _ => Err(invalid_date(name)),
    }
}

/// Query parameters for `GET /Deactivations`.
#[derive(Clone, Copy)]
pub struct FetchDeactivationsRequest<'a> {
    pub date: &'a str,
}

impl<'a> FetchDeactivationsRequest<'a> {
    /// Create a Deactivations request for a `YYYY-MM-DD` date.
    pub fn new(date: &'a str) -> (r: Self)
        ensures
            r.date == date,
    {
        FetchDeactivationsRequest { date }
    }

    /// The first documented rule this request breaks, as its error text.
    pub open spec fn violation(&self) -> Option<Seq<char>> {
        if is_yyyy_mm_dd(self.date@) {
            None
        } else {
            Some(invalid_date_message("Date"@))
        }
    }

    /// Check that the date is a `YYYY-MM-DD` date that exists.
    pub fn validate(&self) -> (r: Result<(), TwilioError>)
        ensures
            check_outcome(r, self.violation()),
    {
        validate_yyyy_mm_dd("Date", self.date)
    }

    /// The query parameters of this request.
    pub open spec fn spec_query_pairs(&self) -> ParamSeq {
        str_param("Date"@, Some(self.date@))
    }

    /// Encode this request as query parameters.
    pub fn query_pairs(&self) -> (params: Vec<FormParam>)
        ensures
            params_view(params@) == self.spec_query_pairs(),
    {
        let mut params = Vec::new();
        push_str(&mut params, "Date", Some(self.date));
        assert(params_view(params@) =~= self.spec_query_pairs());
        params
    }
}


/// Signed redirect URL for a carrier deactivation report.
#[derive(Clone)]
pub struct TwilioDeactivation {
    pub redirect_to: Option<String>,
}

impl TwilioDeactivation {
    /// The fields of this record's debug text, in order, with the fields
    /// that identify an account, a person or a business hidden.
    pub open spec fn spec_debug_fields(&self) -> Seq<(Seq<char>, Seq<char>)> {
        seq![
            ("redirect_to"@, redacted_text(self.redirect_to is Some)),
        ]
    }

    /// The debug text of this record, with the fields that identify an
    /// account, a person or a business hidden as `[REDACTED]`.
    pub open spec fn spec_debug_text(&self) -> Seq<char> {
        debug_struct_text("TwilioDeactivation"@, self.spec_debug_fields())
    }

    /// Write the debug text of this record.
    pub fn debug_text(&self) -> (s: String)
        ensures
            s@ == self.spec_debug_text(),
    {
        let mut d = DebugStructText::new("TwilioDeactivation");
        d.field("redirect_to", redacted(self.redirect_to.is_some()));
        assert(d.fields@ =~= self.spec_debug_fields());
        d.finish()
    }
}

/// A deactivation report link as the response writes it.
pub struct WireDeactivation {
    pub redirect_to: Option<String>,
}

/// How `into_deactivation` reads each field of its response.
pub open spec fn deactivation_from(w: WireDeactivation, t: TwilioDeactivation) -> bool {
    &&& t.redirect_to == w.redirect_to
}

impl WireDeactivation {
    /// The report link this response describes.
    pub fn into_deactivation(self) -> (t: TwilioDeactivation)
        ensures
            deactivation_from(self, t),
    {
        TwilioDeactivation {
            redirect_to: self.redirect_to,
        }
    }
}

} // verus!
