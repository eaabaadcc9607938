use std::collections::BTreeMap;

use rust_decimal::Decimal;
use vstd::prelude::*;

use crate::error::{check_outcome, first_of, invalid, invalid_request_message, TwilioError};
use crate::form::{page_size_violation, params_view, push_str, str_param, validate_page_size, FormParam, ParamSeq};
use crate::services::{push_v1_page_query, v1_page_pairs};
use crate::external::{decimal_reading, parse_decimal};
use crate::text::{
    is_blank, is_some_blank, keep_nonempty, non_empty, nonempty_strings, nonempty_text, opt_is_blank,
    opt_string_view, opt_view, str_is_blank, trim, trim_bounds,
};

verus! {

/// Query parameters for `GET /Messaging/Countries`.
#[derive(Clone, Copy)]
pub struct ListPricingMessagingCountriesRequest<'a> {
    pub page_size: Option<u32>,
    pub page: Option<u32>,
    pub page_token: Option<&'a str>,
}

impl<'a> ListPricingMessagingCountriesRequest<'a> {
    /// Create an empty Pricing Messaging Countries list request.
    pub fn new() -> (r: Self)
        ensures
            r.page_size is None,
            r.page is None,
            r.page_token is None,
    {
        ListPricingMessagingCountriesRequest { page_size: None, page: None, page_token: None }
    }

    /// Set `PageSize`.
    pub fn page_size(self, value: u32) -> (r: Self)
        ensures
            r == (ListPricingMessagingCountriesRequest { page_size: Some(value), ..self }),
    {
        ListPricingMessagingCountriesRequest { page_size: Some(value), ..self }
    }

    /// Set `Page`.
    pub fn page(self, value: u32) -> (r: Self)
        ensures
            r == (ListPricingMessagingCountriesRequest { page: Some(value), ..self }),
    {
        ListPricingMessagingCountriesRequest { page: Some(value), ..self }
    }

    /// Set `PageToken`.
    pub fn page_token(self, value: &'a str) -> (r: Self)
        ensures
            r == (ListPricingMessagingCountriesRequest { page_token: Some(value), ..self }),
    {
        ListPricingMessagingCountriesRequest { page_token: Some(value), ..self }
    }

    /// The first documented rule this request breaks, as its error text.
    pub open spec fn violation(&self) -> Option<Seq<char>> {
        first_of(
            page_size_violation(self.page_size),
            if is_some_blank(opt_view(self.page_token)) {
                Some("PageToken must not be empty"@)
            } else {
                None
            },
        )
    }

    /// Check the page size and that a page token is not blank.
    pub fn validate(&self) -> (r: Result<(), TwilioError>)
        ensures
            check_outcome(r, self.violation()),
    {
        validate_page_size(self.page_size)?;
        if opt_is_blank(self.page_token) {
            return Err(invalid("PageToken must not be empty"));
        }
        Ok(())
    }

    /// The query parameters of this request, in the order they are sent.
    pub open spec fn spec_query_pairs(&self) -> ParamSeq {
        v1_page_pairs(self.page_size, self.page, self.page_token)
    }

    /// Encode this request as query parameters.
    pub fn query_pairs(&self) -> (params: Vec<FormParam>)
        ensures
            params_view(params@) == self.spec_query_pairs(),
    {
        let mut params = Vec::new();
        push_v1_page_query(&mut params, self.page_size, self.page, self.page_token);
        params
    }
}

/// Query parameters for fetching the origin-based price of a number.
#[derive(Clone, Copy)]
pub struct FetchPricingOriginBasedNumberRequest<'a> {
    pub origination_number: Option<&'a str>,
}

impl<'a> FetchPricingOriginBasedNumberRequest<'a> {
    pub fn new() -> (r: Self)
        ensures
            r.origination_number is None,
    {
        FetchPricingOriginBasedNumberRequest { origination_number: None }
    }

    pub fn origination_number(self, value: &'a str) -> (r: Self)
        ensures
            r.origination_number == Some(value),
    {
        FetchPricingOriginBasedNumberRequest { origination_number: Some(value) }
    }

    /// The first documented rule this request breaks, as its error text.
    pub open spec fn violation(&self) -> Option<Seq<char>> {
        if is_some_blank(opt_view(self.origination_number)) {
            Some("OriginationNumber must not be empty"@)
        } else {
            None
        }
    }

    /// Check that an origination number is not blank.
    pub fn validate(&self) -> (r: Result<(), TwilioError>)
        ensures
            check_outcome(r, self.violation()),
    {
        if opt_is_blank(self.origination_number) {
            return Err(invalid("OriginationNumber must not be empty"));
        }
        Ok(())
    }

    /// The query parameters of this request.
    pub open spec fn spec_query_pairs(&self) -> ParamSeq {
        str_param("OriginationNumber"@, opt_view(self.origination_number))
    }

    /// Encode this request as query parameters.
    pub fn query_pairs(&self) -> (params: Vec<FormParam>)
        ensures
            params_view(params@) == self.spec_query_pairs(),
    {
        let mut params = Vec::new();
        push_str(&mut params, "OriginationNumber", self.origination_number);
        assert(params_view(params@) =~= self.spec_query_pairs());
        params
    }
}

/// An ASCII letter.
pub open spec fn is_ascii_letter(c: char) -> bool {
    ('a' <= c && c <= 'z') || ('A' <= c && c <= 'Z')
}

/// The ASCII upper case of a character; other characters are unchanged.
pub open spec fn ascii_upper(c: char) -> char {
    if 'a' <= c && c <= 'z' {
        ((c as u32) - 32) as char
    } else {
        c
    }
}

/// The country code a text names: its trimmed form, when that is exactly two
/// ASCII letters, in upper case. Two bytes that are ASCII letters are exactly
/// two characters that are, so the byte and character readings agree.
pub open spec fn iso_country_code(s: Seq<char>) -> Option<Seq<char>> {
    let t = trim(s);
    if t.len() == 2 && is_ascii_letter(t[0]) && is_ascii_letter(t[1]) {
        Some(seq![ascii_upper(t[0]), ascii_upper(t[1])])
    } else {
        None
    }
}

/// The upper-case text of one ASCII letter.
fn upper_letter(c: char) -> (s: &'static str)
    requires
        is_ascii_letter(c),
    ensures
        s@ == seq![ascii_upper(c)],
{
    match c {
        'a' | 'A' => {
            proof {
                reveal_strlit("A");
            }
            "A"
        },
        'b' | 'B' => {
            proof {
                reveal_strlit("B");
            }
            "B"
        },
        'c' | 'C' => {
            proof {
                reveal_strlit("C");
            }
            "C"
        },
        'd' | 'D' => {
            proof {
                reveal_strlit("D");
            }
            "D"
        },
        'e' | 'E' => {
            proof {
                reveal_strlit("E");
            }
            "E"
        },
        'f' | 'F' => {
            proof {
                reveal_strlit("F");
            }
            "F"
        },
        'g' | 'G' => {
            proof {
                reveal_strlit("G");
            }
            "G"
        },
        'h' | 'H' => {
            proof {
                reveal_strlit("H");
            }
            "H"
        },
        'i' | 'I' => {
            proof {
                reveal_strlit("I");
            }
            "I"
        },
        'j' | 'J' => {
            proof {
                reveal_strlit("J");
            }
            "J"
        },
        'k' | 'K' => {
            proof {
                reveal_strlit("K");
            }
            "K"
        },
        'l' | 'L' => {
            proof {
                reveal_strlit("L");
            }
            "L"
        },
        'm' | 'M' => {
            proof {
                reveal_strlit("M");
            }
            "M"
        },
        'n' | 'N' => {
            proof {
                reveal_strlit("N");
            }
            "N"
        },
        'o' | 'O' => {
            proof {
                reveal_strlit("O");
            }
            "O"
        },
        'p' | 'P' => {
            proof {
                reveal_strlit("P");
            }
            "P"
        },
        'q' | 'Q' => {
            proof {
                reveal_strlit("Q");
            }
            "Q"
        },
        'r' | 'R' => {
            proof {
                reveal_strlit("R");
            }
            "R"
        },
        's' | 'S' => {
            proof {
                reveal_strlit("S");
            }
            "S"
        },
        't' | 'T' => {
            proof {
                reveal_strlit("T");
            }
            "T"
        },
        'u' | 'U' => {
            proof {
                reveal_strlit("U");
            }
            "U"
        },
        'v' | 'V' => {
            proof {
                reveal_strlit("V");
            }
            "V"
        },
        'w' | 'W' => {
            proof {
                reveal_strlit("W");
            }
            "W"
        },
        'x' | 'X' => {
            proof {
                reveal_strlit("X");
            }
            "X"
        },
        'y' | 'Y' => {
            proof {
                reveal_strlit("Y");
            }
            "Y"
        },
        'z' | 'Z' => {
            proof {
                reveal_strlit("Z");
            }
            "Z"
        },
        _ => {
            proof {
                reveal_strlit("Z");
            }
            "Z"
        },
    }
}

/// Normalize a country code to two upper-case ASCII letters, after trimming
/// whitespace; anything else is refused.
pub fn normalize_iso_country(value: &str) -> (r: Result<String, TwilioError>)
    ensures
        iso_country_code(value@) matches Some(code) ==> (r matches Ok(s) && s@ == code),
        iso_country_code(value@) is None ==> (r matches Err(e) && invalid_request_message(e)
            == "IsoCountry must be a two-letter ASCII country code"@),
{
    let (start, end) = trim_bounds(value);
    if end - start != 2 {
        return Err(invalid("IsoCountry must be a two-letter ASCII country code"));
    }
    let a = value.get_char(start);
    let b = value.get_char(start + 1);
    let a_ok = ('a' <= a && a <= 'z') || ('A' <= a && a <= 'Z');
    let b_ok = ('a' <= b && b <= 'z') || ('A' <= b && b <= 'Z');
    if !a_ok || !b_ok {
        return Err(invalid("IsoCountry must be a two-letter ASCII country code"));
    }
    let mut code = upper_letter(a).to_string();
    code.append(upper_letter(b));
    assert(code@ =~= seq![ascii_upper(a), ascii_upper(b)]);
    Ok(code)
}



/// One SMS price of a carrier.
#[derive(Clone)]
pub struct TwilioSmsPrice {
    pub base_price: Option<Decimal>,
    pub current_price: Option<Decimal>,
    pub number_type: Option<String>,
}

/// An SMS price as the response writes it.
pub struct WireSmsPrice {
    pub base_price: Option<Decimal>,
    pub current_price: Option<Decimal>,
    pub number_type: Option<String>,
}

/// How `into_price` reads each field of its response.
pub open spec fn sms_price_from(w: WireSmsPrice, t: TwilioSmsPrice) -> bool {
    &&& t.base_price == w.base_price
    &&& t.current_price == w.current_price
    &&& opt_string_view(t.number_type) == nonempty_text(opt_string_view(w.number_type))
}

impl WireSmsPrice {
    /// The price this response describes.
    pub fn into_price(self) -> (t: TwilioSmsPrice)
        ensures
            sms_price_from(self, t),
    {
        TwilioSmsPrice {
            base_price: self.base_price,
            current_price: self.current_price,
            number_type: non_empty(self.number_type),
        }
    }
}

/// Read each SMS price of a response, in order.
fn sms_prices(ws: Vec<WireSmsPrice>) -> (r: Vec<TwilioSmsPrice>)
    ensures
        r@.len() == ws@.len(),
        forall|i: int| 0 <= i < r@.len() ==> sms_price_from(ws@[i], #[trigger] r@[i]),
{
    let ghost all = ws@;
    let mut rest = ws;
    let mut out: Vec<TwilioSmsPrice> = Vec::new();
    while rest.len() > 0
        invariant
            all.len() == out@.len() + rest@.len(),
            rest@ == all.skip(out@.len() as int),
            forall|i: int| 0 <= i < out@.len() ==> sms_price_from(all[i], #[trigger] out@[i]),
        decreases rest@.len(),
    {
        let ghost k = out@.len() as int;
        let w = rest.remove(0);
        assert(w == all[k]);
        out.push(w.into_price());
        assert(rest@ =~= all.skip(k + 1));
    }
    out
}

/// The price of receiving an SMS on a number type.
#[derive(Clone)]
pub struct TwilioInboundSmsPrice {
    pub base_price: Option<Decimal>,
    pub current_price: Option<Decimal>,
    pub number_type: Option<String>,
}

/// An inbound SMS price as the response writes it.
pub struct WireInboundSmsPrice {
    pub base_price: Option<Decimal>,
    pub current_price: Option<Decimal>,
    pub number_type: Option<String>,
}

/// How `into_price` reads each field of its response.
pub open spec fn inbound_sms_price_from(w: WireInboundSmsPrice, t: TwilioInboundSmsPrice) -> bool {
    &&& t.base_price == w.base_price
    &&& t.current_price == w.current_price
    &&& opt_string_view(t.number_type) == nonempty_text(opt_string_view(w.number_type))
}

impl WireInboundSmsPrice {
    /// The price this response describes.
    pub fn into_price(self) -> (t: TwilioInboundSmsPrice)
        ensures
            inbound_sms_price_from(self, t),
    {
        TwilioInboundSmsPrice {
            base_price: self.base_price,
            current_price: self.current_price,
            number_type: non_empty(self.number_type),
        }
    }
}

/// Read each inbound SMS price of a response, in order.
fn inbound_sms_prices(ws: Vec<WireInboundSmsPrice>) -> (r: Vec<TwilioInboundSmsPrice>)
    ensures
        r@.len() == ws@.len(),
        forall|i: int| 0 <= i < r@.len() ==> inbound_sms_price_from(ws@[i], #[trigger] r@[i]),
{
    let ghost all = ws@;
    let mut rest = ws;
    let mut out: Vec<TwilioInboundSmsPrice> = Vec::new();
    while rest.len() > 0
        invariant
            all.len() == out@.len() + rest@.len(),
            rest@ == all.skip(out@.len() as int),
            forall|i: int| 0 <= i < out@.len() ==> inbound_sms_price_from(all[i], #[trigger] out@[i]),
        decreases rest@.len(),
    {
        let ghost k = out@.len() as int;
        let w = rest.remove(0);
        assert(w == all[k]);
        out.push(w.into_price());
        assert(rest@ =~= all.skip(k + 1));
    }
    out
}

/// The prices of sending SMS through one carrier.
#[derive(Clone)]
pub struct TwilioOutboundSmsPrice {
    pub carrier: Option<String>,
    pub mcc: Option<String>,
    pub mnc: Option<String>,
    pub prices: Vec<TwilioSmsPrice>,
}

/// An outbound SMS price as the response writes it.
pub struct WireOutboundSmsPrice {
    pub carrier: Option<String>,
    pub mcc: Option<String>,
    pub mnc: Option<String>,
    pub prices: Vec<WireSmsPrice>,
}

/// How `into_price` reads each field of its response.
pub open spec fn outbound_sms_price_from(w: WireOutboundSmsPrice, t: TwilioOutboundSmsPrice) -> bool {
    &&& opt_string_view(t.carrier) == nonempty_text(opt_string_view(w.carrier))
    &&& opt_string_view(t.mcc) == nonempty_text(opt_string_view(w.mcc))
    &&& opt_string_view(t.mnc) == nonempty_text(opt_string_view(w.mnc))
    &&& t.prices@.len() == w.prices@.len()
    &&& forall|i: int| 0 <= i < t.prices@.len() ==> sms_price_from(w.prices@[i], #[trigger] t.prices@[i])
}

impl WireOutboundSmsPrice {
    /// The carrier prices this response describes.
    pub fn into_price(self) -> (t: TwilioOutboundSmsPrice)
        ensures
            outbound_sms_price_from(self, t),
    {
        TwilioOutboundSmsPrice {
            carrier: non_empty(self.carrier),
            mcc: non_empty(self.mcc),
            mnc: non_empty(self.mnc),
            prices: sms_prices(self.prices),
        }
    }
}

/// Read each carrier's SMS prices of a response, in order.
fn outbound_sms_prices(ws: Vec<WireOutboundSmsPrice>) -> (r: Vec<TwilioOutboundSmsPrice>)
    ensures
        r@.len() == ws@.len(),
        forall|i: int| 0 <= i < r@.len() ==> outbound_sms_price_from(ws@[i], #[trigger] r@[i]),
{
    let ghost all = ws@;
    let mut rest = ws;
    let mut out: Vec<TwilioOutboundSmsPrice> = Vec::new();
    while rest.len() > 0
        invariant
            all.len() == out@.len() + rest@.len(),
            rest@ == all.skip(out@.len() as int),
            forall|i: int| 0 <= i < out@.len() ==> outbound_sms_price_from(all[i], #[trigger] out@[i]),
        decreases rest@.len(),
    {
        let ghost k = out@.len() as int;
        let w = rest.remove(0);
        assert(w == all[k]);
        out.push(w.into_price());
        assert(rest@ =~= all.skip(k + 1));
    }
    out
}

/// Pricing for one Messaging country.
#[derive(Clone)]
pub struct TwilioPricingMessagingCountry {
    pub country: Option<String>,
    pub iso_country: Option<String>,
    pub outbound_sms_prices: Vec<TwilioOutboundSmsPrice>,
    pub inbound_sms_prices: Vec<TwilioInboundSmsPrice>,
    pub price_unit: Option<String>,
    pub url: Option<String>,
}

/// Messaging country pricing as the response writes it.
pub struct WirePricingMessagingCountry {
    pub country: Option<String>,
    pub iso_country: Option<String>,
    pub outbound_sms_prices: Vec<WireOutboundSmsPrice>,
    pub inbound_sms_prices: Vec<WireInboundSmsPrice>,
    pub price_unit: Option<String>,
    pub url: Option<String>,
}

/// How `into_country` reads each field of its response.
pub open spec fn messaging_country_from(w: WirePricingMessagingCountry, t: TwilioPricingMessagingCountry) -> bool {
    &&& opt_string_view(t.country) == nonempty_text(opt_string_view(w.country))
    &&& opt_string_view(t.iso_country) == nonempty_text(opt_string_view(w.iso_country))
    &&& t.outbound_sms_prices@.len() == w.outbound_sms_prices@.len()
    &&& forall|i: int| 0 <= i < t.outbound_sms_prices@.len() ==> outbound_sms_price_from(w.outbound_sms_prices@[i], #[trigger] t.outbound_sms_prices@[i])
    &&& t.inbound_sms_prices@.len() == w.inbound_sms_prices@.len()
    &&& forall|i: int| 0 <= i < t.inbound_sms_prices@.len() ==> inbound_sms_price_from(w.inbound_sms_prices@[i], #[trigger] t.inbound_sms_prices@[i])
    &&& opt_string_view(t.price_unit) == nonempty_text(opt_string_view(w.price_unit))
    &&& opt_string_view(t.url) == nonempty_text(opt_string_view(w.url))
}

impl WirePricingMessagingCountry {
    /// The country pricing this response describes.
    pub fn into_country(self) -> (t: TwilioPricingMessagingCountry)
        ensures
            messaging_country_from(self, t),
    {
        TwilioPricingMessagingCountry {
            country: non_empty(self.country),
            iso_country: non_empty(self.iso_country),
            outbound_sms_prices: outbound_sms_prices(self.outbound_sms_prices),
            inbound_sms_prices: inbound_sms_prices(self.inbound_sms_prices),
            price_unit: non_empty(self.price_unit),
            url: non_empty(self.url),
        }
    }
}

/// The price of a phone number type.
#[derive(Clone)]
pub struct TwilioPhoneNumberPrice {
    pub base_price: Option<Decimal>,
    pub current_price: Option<Decimal>,
    pub number_type: Option<String>,
}

/// A phone number price as the response writes it.
pub struct WirePhoneNumberPrice {
    pub base_price: Option<Decimal>,
    pub current_price: Option<Decimal>,
    pub number_type: Option<String>,
}

/// How `into_price` reads each field of its response.
pub open spec fn phone_number_price_from(w: WirePhoneNumberPrice, t: TwilioPhoneNumberPrice) -> bool {
    &&& t.base_price == w.base_price
    &&& t.current_price == w.current_price
    &&& opt_string_view(t.number_type) == nonempty_text(opt_string_view(w.number_type))
}

impl WirePhoneNumberPrice {
    /// The price this response describes.
    pub fn into_price(self) -> (t: TwilioPhoneNumberPrice)
        ensures
            phone_number_price_from(self, t),
    {
        TwilioPhoneNumberPrice {
            base_price: self.base_price,
            current_price: self.current_price,
            number_type: non_empty(self.number_type),
        }
    }
}

/// Read each phone number price of a response, in order.
fn phone_number_prices(ws: Vec<WirePhoneNumberPrice>) -> (r: Vec<TwilioPhoneNumberPrice>)
    ensures
        r@.len() == ws@.len(),
        forall|i: int| 0 <= i < r@.len() ==> phone_number_price_from(ws@[i], #[trigger] r@[i]),
{
    let ghost all = ws@;
    let mut rest = ws;
    let mut out: Vec<TwilioPhoneNumberPrice> = Vec::new();
    while rest.len() > 0
        invariant
            all.len() == out@.len() + rest@.len(),
            rest@ == all.skip(out@.len() as int),
            forall|i: int| 0 <= i < out@.len() ==> phone_number_price_from(all[i], #[trigger] out@[i]),
        decreases rest@.len(),
    {
        let ghost k = out@.len() as int;
        let w = rest.remove(0);
        assert(w == all[k]);
        out.push(w.into_price());
        assert(rest@ =~= all.skip(k + 1));
    }
    out
}

/// Phone number pricing for one country.
#[derive(Clone)]
pub struct TwilioPricingPhoneNumberCountry {
    pub country: Option<String>,
    pub iso_country: Option<String>,
    pub phone_number_prices: Vec<TwilioPhoneNumberPrice>,
    pub price_unit: Option<String>,
    pub url: Option<String>,
}

/// Phone number country pricing as the response writes it.
pub struct WirePricingPhoneNumberCountry {
    pub country: Option<String>,
    pub iso_country: Option<String>,
    pub phone_number_prices: Vec<WirePhoneNumberPrice>,
    pub price_unit: Option<String>,
    pub url: Option<String>,
}

/// How `into_country` reads each field of its response.
pub open spec fn phone_number_country_from(w: WirePricingPhoneNumberCountry, t: TwilioPricingPhoneNumberCountry) -> bool {
    &&& opt_string_view(t.country) == nonempty_text(opt_string_view(w.country))
    &&& opt_string_view(t.iso_country) == nonempty_text(opt_string_view(w.iso_country))
    &&& t.phone_number_prices@.len() == w.phone_number_prices@.len()
    &&& forall|i: int| 0 <= i < t.phone_number_prices@.len() ==> phone_number_price_from(w.phone_number_prices@[i], #[trigger] t.phone_number_prices@[i])
    &&& opt_string_view(t.price_unit) == nonempty_text(opt_string_view(w.price_unit))
    &&& opt_string_view(t.url) == nonempty_text(opt_string_view(w.url))
}

impl WirePricingPhoneNumberCountry {
    /// The country pricing this response describes.
    pub fn into_country(self) -> (t: TwilioPricingPhoneNumberCountry)
        ensures
            phone_number_country_from(self, t),
    {
        TwilioPricingPhoneNumberCountry {
            country: non_empty(self.country),
            iso_country: non_empty(self.iso_country),
            phone_number_prices: phone_number_prices(self.phone_number_prices),
            price_unit: non_empty(self.price_unit),
            url: non_empty(self.url),
        }
    }
}

/// The price of calls to a set of number prefixes.
#[derive(Clone)]
pub struct TwilioVoicePrefixPrice {
    pub prefixes: Vec<String>,
    pub base_price: Option<Decimal>,
    pub current_price: Option<Decimal>,
    pub friendly_name: Option<String>,
}

/// A prefix price as the response writes it.
pub struct WireVoicePrefixPrice {
    pub prefixes: Vec<String>,
    pub base_price: Option<Decimal>,
    pub current_price: Option<Decimal>,
    pub friendly_name: Option<String>,
}

/// How `into_price` reads each field of its response.
pub open spec fn voice_prefix_price_from(w: WireVoicePrefixPrice, t: TwilioVoicePrefixPrice) -> bool {
    &&& t.prefixes@ == nonempty_strings(w.prefixes@)
    &&& t.base_price == w.base_price
    &&& t.current_price == w.current_price
    &&& opt_string_view(t.friendly_name) == nonempty_text(opt_string_view(w.friendly_name))
}

impl WireVoicePrefixPrice {
    /// The prefix price this response describes; empty prefixes are dropped.
    pub fn into_price(self) -> (t: TwilioVoicePrefixPrice)
        ensures
            voice_prefix_price_from(self, t),
    {
        TwilioVoicePrefixPrice {
            prefixes: keep_nonempty(self.prefixes),
            base_price: self.base_price,
            current_price: self.current_price,
            friendly_name: non_empty(self.friendly_name),
        }
    }
}

/// Read each prefix price of a response, in order.
fn voice_prefix_prices(ws: Vec<WireVoicePrefixPrice>) -> (r: Vec<TwilioVoicePrefixPrice>)
    ensures
        r@.len() == ws@.len(),
        forall|i: int| 0 <= i < r@.len() ==> voice_prefix_price_from(ws@[i], #[trigger] r@[i]),
{
    let ghost all = ws@;
    let mut rest = ws;
    let mut out: Vec<TwilioVoicePrefixPrice> = Vec::new();
    while rest.len() > 0
        invariant
            all.len() == out@.len() + rest@.len(),
            rest@ == all.skip(out@.len() as int),
            forall|i: int| 0 <= i < out@.len() ==> voice_prefix_price_from(all[i], #[trigger] out@[i]),
        decreases rest@.len(),
    {
        let ghost k = out@.len() as int;
        let w = rest.remove(0);
        assert(w == all[k]);
        out.push(w.into_price());
        assert(rest@ =~= all.skip(k + 1));
    }
    out
}

/// The price of receiving a call on a number type.
#[derive(Clone)]
pub struct TwilioInboundCallPrice {
    pub base_price: Option<Decimal>,
    pub current_price: Option<Decimal>,
    pub number_type: Option<String>,
}

/// An inbound call price as the response writes it.
pub struct WireInboundCallPrice {
    pub base_price: Option<Decimal>,
    pub current_price: Option<Decimal>,
    pub number_type: Option<String>,
}

/// How `into_price` reads each field of its response.
pub open spec fn inbound_call_price_from(w: WireInboundCallPrice, t: TwilioInboundCallPrice) -> bool {
    &&& t.base_price == w.base_price
    &&& t.current_price == w.current_price
    &&& opt_string_view(t.number_type) == nonempty_text(opt_string_view(w.number_type))
}

impl WireInboundCallPrice {
    /// The price this response describes.
    pub fn into_price(self) -> (t: TwilioInboundCallPrice)
        ensures
            inbound_call_price_from(self, t),
    {
        TwilioInboundCallPrice {
            base_price: self.base_price,
            current_price: self.current_price,
            number_type: non_empty(self.number_type),
        }
    }
}

/// Read each inbound call price of a response, in order.
fn inbound_call_prices(ws: Vec<WireInboundCallPrice>) -> (r: Vec<TwilioInboundCallPrice>)
    ensures
        r@.len() == ws@.len(),
        forall|i: int| 0 <= i < r@.len() ==> inbound_call_price_from(ws@[i], #[trigger] r@[i]),
{
    let ghost all = ws@;
    let mut rest = ws;
    let mut out: Vec<TwilioInboundCallPrice> = Vec::new();
    while rest.len() > 0
        invariant
            all.len() == out@.len() + rest@.len(),
            rest@ == all.skip(out@.len() as int),
            forall|i: int| 0 <= i < out@.len() ==> inbound_call_price_from(all[i], #[trigger] out@[i]),
        decreases rest@.len(),
    {
        let ghost k = out@.len() as int;
        let w = rest.remove(0);
        assert(w == all[k]);
        out.push(w.into_price());
        assert(rest@ =~= all.skip(k + 1));
    }
    out
}

/// The price of calls between origination and destination prefixes.
#[derive(Clone)]
pub struct TwilioOriginBasedPrefixPrice {
    pub origination_prefixes: Vec<String>,
    pub destination_prefixes: Vec<String>,
    pub base_price: Option<Decimal>,
    pub current_price: Option<Decimal>,
    pub friendly_name: Option<String>,
}

/// An origin-based prefix price as the response writes it.
pub struct WireOriginBasedPrefixPrice {
    pub origination_prefixes: Vec<String>,
    pub destination_prefixes: Vec<String>,
    pub base_price: Option<Decimal>,
    pub current_price: Option<Decimal>,
    pub friendly_name: Option<String>,
}

/// How `into_price` reads each field of its response.
pub open spec fn origin_prefix_price_from(w: WireOriginBasedPrefixPrice, t: TwilioOriginBasedPrefixPrice) -> bool {
    &&& t.origination_prefixes@ == nonempty_strings(w.origination_prefixes@)
    &&& t.destination_prefixes@ == nonempty_strings(w.destination_prefixes@)
    &&& t.base_price == w.base_price
    &&& t.current_price == w.current_price
    &&& opt_string_view(t.friendly_name) == nonempty_text(opt_string_view(w.friendly_name))
}

impl WireOriginBasedPrefixPrice {
    /// The prefix price this response describes; empty prefixes are dropped.
    pub fn into_price(self) -> (t: TwilioOriginBasedPrefixPrice)
        ensures
            origin_prefix_price_from(self, t),
    {
        TwilioOriginBasedPrefixPrice {
            origination_prefixes: keep_nonempty(self.origination_prefixes),
            destination_prefixes: keep_nonempty(self.destination_prefixes),
            base_price: self.base_price,
            current_price: self.current_price,
            friendly_name: non_empty(self.friendly_name),
        }
    }
}

/// Read each origin-based prefix price of a response, in order.
fn origin_prefix_prices(ws: Vec<WireOriginBasedPrefixPrice>) -> (r: Vec<TwilioOriginBasedPrefixPrice>)
    ensures
        r@.len() == ws@.len(),
        forall|i: int| 0 <= i < r@.len() ==> origin_prefix_price_from(ws@[i], #[trigger] r@[i]),
{
    let ghost all = ws@;
    let mut rest = ws;
    let mut out: Vec<TwilioOriginBasedPrefixPrice> = Vec::new();
    while rest.len() > 0
        invariant
            all.len() == out@.len() + rest@.len(),
            rest@ == all.skip(out@.len() as int),
            forall|i: int| 0 <= i < out@.len() ==> origin_prefix_price_from(all[i], #[trigger] out@[i]),
        decreases rest@.len(),
    {
        let ghost k = out@.len() as int;
        let w = rest.remove(0);
        assert(w == all[k]);
        out.push(w.into_price());
        assert(rest@ =~= all.skip(k + 1));
    }
    out
}

/// The price of an outbound call from origination prefixes.
#[derive(Clone)]
pub struct TwilioOriginBasedOutboundCallPrice {
    pub origination_prefixes: Vec<String>,
    pub base_price: Option<Decimal>,
    pub current_price: Option<Decimal>,
}

/// An origin-based call price as the response writes it.
pub struct WireOriginBasedOutboundCallPrice {
    pub origination_prefixes: Vec<String>,
    pub base_price: Option<Decimal>,
    pub current_price: Option<Decimal>,
}

/// How `into_price` reads each field of its response.
pub open spec fn origin_call_price_from(w: WireOriginBasedOutboundCallPrice, t: TwilioOriginBasedOutboundCallPrice) -> bool {
    &&& t.origination_prefixes@ == nonempty_strings(w.origination_prefixes@)
    &&& t.base_price == w.base_price
    &&& t.current_price == w.current_price
}

impl WireOriginBasedOutboundCallPrice {
    /// The call price this response describes; empty prefixes are dropped.
    pub fn into_price(self) -> (t: TwilioOriginBasedOutboundCallPrice)
        ensures
            origin_call_price_from(self, t),
    {
        TwilioOriginBasedOutboundCallPrice {
            origination_prefixes: keep_nonempty(self.origination_prefixes),
            base_price: self.base_price,
            current_price: self.current_price,
        }
    }
}

/// Read each origin-based call price of a response, in order.
fn origin_call_prices(ws: Vec<WireOriginBasedOutboundCallPrice>) -> (r: Vec<TwilioOriginBasedOutboundCallPrice>)
    ensures
        r@.len() == ws@.len(),
        forall|i: int| 0 <= i < r@.len() ==> origin_call_price_from(ws@[i], #[trigger] r@[i]),
{
    let ghost all = ws@;
    let mut rest = ws;
    let mut out: Vec<TwilioOriginBasedOutboundCallPrice> = Vec::new();
    while rest.len() > 0
        invariant
            all.len() == out@.len() + rest@.len(),
            rest@ == all.skip(out@.len() as int),
            forall|i: int| 0 <= i < out@.len() ==> origin_call_price_from(all[i], #[trigger] out@[i]),
        decreases rest@.len(),
    {
        let ghost k = out@.len() as int;
        let w = rest.remove(0);
        assert(w == all[k]);
        out.push(w.into_price());
        assert(rest@ =~= all.skip(k + 1));
    }
    out
}

/// Voice pricing for one country.
#[derive(Clone)]
pub struct TwilioPricingVoiceCountry {
    pub country: Option<String>,
    pub iso_country: Option<String>,
    pub outbound_prefix_prices: Vec<TwilioVoicePrefixPrice>,
    pub inbound_call_prices: Vec<TwilioInboundCallPrice>,
    pub price_unit: Option<String>,
    pub url: Option<String>,
}

/// Voice country pricing as the response writes it.
pub struct WirePricingVoiceCountry {
    pub country: Option<String>,
    pub iso_country: Option<String>,
    pub outbound_prefix_prices: Vec<WireVoicePrefixPrice>,
    pub inbound_call_prices: Vec<WireInboundCallPrice>,
    pub price_unit: Option<String>,
    pub url: Option<String>,
}

/// How `into_country` reads each field of its response.
pub open spec fn voice_country_from(w: WirePricingVoiceCountry, t: TwilioPricingVoiceCountry) -> bool {
    &&& opt_string_view(t.country) == nonempty_text(opt_string_view(w.country))
    &&& opt_string_view(t.iso_country) == nonempty_text(opt_string_view(w.iso_country))
    &&& t.outbound_prefix_prices@.len() == w.outbound_prefix_prices@.len()
    &&& forall|i: int| 0 <= i < t.outbound_prefix_prices@.len() ==> voice_prefix_price_from(w.outbound_prefix_prices@[i], #[trigger] t.outbound_prefix_prices@[i])
    &&& t.inbound_call_prices@.len() == w.inbound_call_prices@.len()
    &&& forall|i: int| 0 <= i < t.inbound_call_prices@.len() ==> inbound_call_price_from(w.inbound_call_prices@[i], #[trigger] t.inbound_call_prices@[i])
    &&& opt_string_view(t.price_unit) == nonempty_text(opt_string_view(w.price_unit))
    &&& opt_string_view(t.url) == nonempty_text(opt_string_view(w.url))
}

impl WirePricingVoiceCountry {
    /// The country pricing this response describes.
    pub fn into_country(self) -> (t: TwilioPricingVoiceCountry)
        ensures
            voice_country_from(self, t),
    {
        TwilioPricingVoiceCountry {
            country: non_empty(self.country),
            iso_country: non_empty(self.iso_country),
            outbound_prefix_prices: voice_prefix_prices(self.outbound_prefix_prices),
            inbound_call_prices: inbound_call_prices(self.inbound_call_prices),
            price_unit: non_empty(self.price_unit),
            url: non_empty(self.url),
        }
    }
}

/// Origin-based voice pricing for one country.
#[derive(Clone)]
pub struct TwilioPricingOriginBasedVoiceCountry {
    pub country: Option<String>,
    pub iso_country: Option<String>,
    pub outbound_prefix_prices: Vec<TwilioOriginBasedPrefixPrice>,
    pub inbound_call_prices: Vec<TwilioInboundCallPrice>,
    pub price_unit: Option<String>,
    pub url: Option<String>,
}

/// Origin-based voice country pricing as the response writes it.
pub struct WirePricingOriginBasedVoiceCountry {
    pub country: Option<String>,
    pub iso_country: Option<String>,
    pub outbound_prefix_prices: Vec<WireOriginBasedPrefixPrice>,
    pub inbound_call_prices: Vec<WireInboundCallPrice>,
    pub price_unit: Option<String>,
    pub url: Option<String>,
}

/// How `into_country` reads each field of its response.
pub open spec fn origin_voice_country_from(w: WirePricingOriginBasedVoiceCountry, t: TwilioPricingOriginBasedVoiceCountry) -> bool {
    &&& opt_string_view(t.country) == nonempty_text(opt_string_view(w.country))
    &&& opt_string_view(t.iso_country) == nonempty_text(opt_string_view(w.iso_country))
    &&& t.outbound_prefix_prices@.len() == w.outbound_prefix_prices@.len()
    &&& forall|i: int| 0 <= i < t.outbound_prefix_prices@.len() ==> origin_prefix_price_from(w.outbound_prefix_prices@[i], #[trigger] t.outbound_prefix_prices@[i])
    &&& t.inbound_call_prices@.len() == w.inbound_call_prices@.len()
    &&& forall|i: int| 0 <= i < t.inbound_call_prices@.len() ==> inbound_call_price_from(w.inbound_call_prices@[i], #[trigger] t.inbound_call_prices@[i])
    &&& opt_string_view(t.price_unit) == nonempty_text(opt_string_view(w.price_unit))
    &&& opt_string_view(t.url) == nonempty_text(opt_string_view(w.url))
}

impl WirePricingOriginBasedVoiceCountry {
    /// The country pricing this response describes.
    pub fn into_country(self) -> (t: TwilioPricingOriginBasedVoiceCountry)
        ensures
            origin_voice_country_from(self, t),
    {
        TwilioPricingOriginBasedVoiceCountry {
            country: non_empty(self.country),
            iso_country: non_empty(self.iso_country),
            outbound_prefix_prices: origin_prefix_prices(self.outbound_prefix_prices),
            inbound_call_prices: inbound_call_prices(self.inbound_call_prices),
            price_unit: non_empty(self.price_unit),
            url: non_empty(self.url),
        }
    }
}

/// Elastic SIP Trunking pricing for one country.
#[derive(Clone)]
pub struct TwilioPricingTrunkingCountry {
    pub country: Option<String>,
    pub iso_country: Option<String>,
    pub terminating_prefix_prices: Vec<TwilioOriginBasedPrefixPrice>,
    pub originating_call_prices: Vec<TwilioInboundCallPrice>,
    pub price_unit: Option<String>,
    pub url: Option<String>,
}

/// Trunking country pricing as the response writes it.
pub struct WirePricingTrunkingCountry {
    pub country: Option<String>,
    pub iso_country: Option<String>,
    pub terminating_prefix_prices: Vec<WireOriginBasedPrefixPrice>,
    pub originating_call_prices: Vec<WireInboundCallPrice>,
    pub price_unit: Option<String>,
    pub url: Option<String>,
}

/// How `into_country` reads each field of its response.
pub open spec fn trunking_country_from(w: WirePricingTrunkingCountry, t: TwilioPricingTrunkingCountry) -> bool {
    &&& opt_string_view(t.country) == nonempty_text(opt_string_view(w.country))
    &&& opt_string_view(t.iso_country) == nonempty_text(opt_string_view(w.iso_country))
    &&& t.terminating_prefix_prices@.len() == w.terminating_prefix_prices@.len()
    &&& forall|i: int| 0 <= i < t.terminating_prefix_prices@.len() ==> origin_prefix_price_from(w.terminating_prefix_prices@[i], #[trigger] t.terminating_prefix_prices@[i])
    &&& t.originating_call_prices@.len() == w.originating_call_prices@.len()
    &&& forall|i: int| 0 <= i < t.originating_call_prices@.len() ==> inbound_call_price_from(w.originating_call_prices@[i], #[trigger] t.originating_call_prices@[i])
    &&& opt_string_view(t.price_unit) == nonempty_text(opt_string_view(w.price_unit))
    &&& opt_string_view(t.url) == nonempty_text(opt_string_view(w.url))
}

impl WirePricingTrunkingCountry {
    /// The country pricing this response describes.
    pub fn into_country(self) -> (t: TwilioPricingTrunkingCountry)
        ensures
            trunking_country_from(self, t),
    {
        TwilioPricingTrunkingCountry {
            country: non_empty(self.country),
            iso_country: non_empty(self.iso_country),
            terminating_prefix_prices: origin_prefix_prices(self.terminating_prefix_prices),
            originating_call_prices: inbound_call_prices(self.originating_call_prices),
            price_unit: non_empty(self.price_unit),
            url: non_empty(self.url),
        }
    }
}

/// Origin-based voice pricing for one destination number.
#[derive(Clone)]
pub struct TwilioPricingOriginBasedVoiceNumber {
    pub destination_number: Option<String>,
    pub origination_number: Option<String>,
    pub country: Option<String>,
    pub iso_country: Option<String>,
    pub outbound_call_prices: Vec<TwilioOriginBasedOutboundCallPrice>,
    pub inbound_call_price: Option<TwilioInboundCallPrice>,
    pub price_unit: Option<String>,
    pub url: Option<String>,
}

/// Origin-based number pricing as the response writes it.
pub struct WirePricingOriginBasedVoiceNumber {
    pub destination_number: Option<String>,
    pub origination_number: Option<String>,
    pub country: Option<String>,
    pub iso_country: Option<String>,
    pub outbound_call_prices: Vec<WireOriginBasedOutboundCallPrice>,
    pub inbound_call_price: Option<WireInboundCallPrice>,
    pub price_unit: Option<String>,
    pub url: Option<String>,
}

/// How `into_number` reads each field of its response.
pub open spec fn origin_voice_number_from(w: WirePricingOriginBasedVoiceNumber, t: TwilioPricingOriginBasedVoiceNumber) -> bool {
    &&& opt_string_view(t.destination_number) == nonempty_text(opt_string_view(w.destination_number))
    &&& opt_string_view(t.origination_number) == nonempty_text(opt_string_view(w.origination_number))
    &&& opt_string_view(t.country) == nonempty_text(opt_string_view(w.country))
    &&& opt_string_view(t.iso_country) == nonempty_text(opt_string_view(w.iso_country))
    &&& t.outbound_call_prices@.len() == w.outbound_call_prices@.len()
    &&& forall|i: int| 0 <= i < t.outbound_call_prices@.len() ==> origin_call_price_from(w.outbound_call_prices@[i], #[trigger] t.outbound_call_prices@[i])
    &&& match (w.inbound_call_price, t.inbound_call_price) {
        (Some(a), Some(b)) => inbound_call_price_from(a, b),
        (None, None) => true,
        _ => false,
    }
    &&& opt_string_view(t.price_unit) == nonempty_text(opt_string_view(w.price_unit))
    &&& opt_string_view(t.url) == nonempty_text(opt_string_view(w.url))
}

impl WirePricingOriginBasedVoiceNumber {
    /// The number pricing this response describes.
    pub fn into_number(self) -> (t: TwilioPricingOriginBasedVoiceNumber)
        ensures
            origin_voice_number_from(self, t),
    {
        TwilioPricingOriginBasedVoiceNumber {
            destination_number: non_empty(self.destination_number),
            origination_number: non_empty(self.origination_number),
            country: non_empty(self.country),
            iso_country: non_empty(self.iso_country),
            outbound_call_prices: origin_call_prices(self.outbound_call_prices),
            inbound_call_price: match self.inbound_call_price {
                Some(v) => Some(v.into_price()),
                None => None,
            },
            price_unit: non_empty(self.price_unit),
            url: non_empty(self.url),
        }
    }
}

/// Elastic SIP Trunking pricing for one destination number.
#[derive(Clone)]
pub struct TwilioPricingTrunkingNumber {
    pub destination_number: Option<String>,
    pub origination_number: Option<String>,
    pub country: Option<String>,
    pub iso_country: Option<String>,
    pub terminating_prefix_prices: Vec<TwilioOriginBasedPrefixPrice>,
    pub originating_call_price: Option<TwilioInboundCallPrice>,
    pub price_unit: Option<String>,
    pub url: Option<String>,
}

/// Trunking number pricing as the response writes it.
pub struct WirePricingTrunkingNumber {
    pub destination_number: Option<String>,
    pub origination_number: Option<String>,
    pub country: Option<String>,
    pub iso_country: Option<String>,
    pub terminating_prefix_prices: Vec<WireOriginBasedPrefixPrice>,
    pub originating_call_price: Option<WireInboundCallPrice>,
    pub price_unit: Option<String>,
    pub url: Option<String>,
}

/// How `into_number` reads each field of its response.
pub open spec fn trunking_number_from(w: WirePricingTrunkingNumber, t: TwilioPricingTrunkingNumber) -> bool {
    &&& opt_string_view(t.destination_number) == nonempty_text(opt_string_view(w.destination_number))
    &&& opt_string_view(t.origination_number) == nonempty_text(opt_string_view(w.origination_number))
    &&& opt_string_view(t.country) == nonempty_text(opt_string_view(w.country))
    &&& opt_string_view(t.iso_country) == nonempty_text(opt_string_view(w.iso_country))
    &&& t.terminating_prefix_prices@.len() == w.terminating_prefix_prices@.len()
    &&& forall|i: int| 0 <= i < t.terminating_prefix_prices@.len() ==> origin_prefix_price_from(w.terminating_prefix_prices@[i], #[trigger] t.terminating_prefix_prices@[i])
    &&& match (w.originating_call_price, t.originating_call_price) {
        (Some(a), Some(b)) => inbound_call_price_from(a, b),
        (None, None) => true,
        _ => false,
    }
    &&& opt_string_view(t.price_unit) == nonempty_text(opt_string_view(w.price_unit))
    &&& opt_string_view(t.url) == nonempty_text(opt_string_view(w.url))
}

impl WirePricingTrunkingNumber {
    /// The number pricing this response describes.
    pub fn into_number(self) -> (t: TwilioPricingTrunkingNumber)
        ensures
            trunking_number_from(self, t),
    {
        TwilioPricingTrunkingNumber {
            destination_number: non_empty(self.destination_number),
            origination_number: non_empty(self.origination_number),
            country: non_empty(self.country),
            iso_country: non_empty(self.iso_country),
            terminating_prefix_prices: origin_prefix_prices(self.terminating_prefix_prices),
            originating_call_price: match self.originating_call_price {
                Some(v) => Some(v.into_price()),
                None => None,
            },
            price_unit: non_empty(self.price_unit),
            url: non_empty(self.url),
        }
    }
}

/// An optional decimal as a price field writes it: a blank text is no
/// price, any other text is read by `rust_decimal`.
pub fn read_decimal(text: Option<&str>) -> (r: Result<Option<Decimal>, rust_decimal::Error>)
    ensures
        match text {
            None => r matches Ok(None),
            Some(s) => if is_blank(s@) {
                r matches Ok(None)
            } else {
                r == match decimal_reading(s@) {
                    Ok(d) => Ok::<Option<Decimal>, rust_decimal::Error>(Some(d)),
                    Err(e) => Err(e),
                }
            },
        },
{
    match text {
        None => Ok(None),
        Some(s) => if str_is_blank(s) {
            Ok(None)
        } else {
            match parse_decimal(s) {
                Ok(d) => Ok(Some(d)),
                Err(e) => Err(e),
            }
        },
    }
}


/// The Pricing v1 Messaging root resource.
#[derive(Clone)]
pub struct TwilioPricingMessaging {
    pub name: Option<String>,
    pub url: Option<String>,
    pub links: Option<BTreeMap<String, String>>,
}

/// The Messaging root resource as the response writes it.
pub struct WirePricingMessaging {
    pub name: Option<String>,
    pub url: Option<String>,
    pub links: Option<BTreeMap<String, String>>,
}

impl WirePricingMessaging {
    /// The root resource this response describes; empty texts and an empty
    /// link map count as absent.
    pub fn into_pricing_messaging(self) -> (r: TwilioPricingMessaging)
        ensures
            opt_string_view(r.name) == nonempty_text(opt_string_view(self.name)),
            opt_string_view(r.url) == nonempty_text(opt_string_view(self.url)),
            r.links == match self.links {
                Some(l) => if l@.is_empty() {
                    None
                } else {
                    Some(l)
                },
                None => None,
            },
    {
        let links = match self.links {
            Some(l) => if l.is_empty() {
                None
            } else {
                Some(l)
            },
            None => None,
        };
        TwilioPricingMessaging { name: non_empty(self.name), url: non_empty(self.url), links }
    }
}

/// A summary item from `GET /Messaging/Countries`.
#[derive(Clone)]
pub struct TwilioPricingMessagingCountrySummary {
    pub country: Option<String>,
    pub iso_country: Option<String>,
    pub url: Option<String>,
}

/// A Messaging country summary as the response writes it.
pub struct WirePricingMessagingCountrySummary {
    pub country: Option<String>,
    pub iso_country: Option<String>,
    pub url: Option<String>,
}

/// How `into_summary` reads each field of its response.
pub open spec fn messaging_country_summary_from(w: WirePricingMessagingCountrySummary, t: TwilioPricingMessagingCountrySummary) -> bool {
    &&& opt_string_view(t.country) == nonempty_text(opt_string_view(w.country))
    &&& opt_string_view(t.iso_country) == nonempty_text(opt_string_view(w.iso_country))
    &&& opt_string_view(t.url) == nonempty_text(opt_string_view(w.url))
}

impl WirePricingMessagingCountrySummary {
    /// The summary this response describes; empty texts count as absent.
    pub fn into_summary(self) -> (t: TwilioPricingMessagingCountrySummary)
        ensures
            messaging_country_summary_from(self, t),
    {
        TwilioPricingMessagingCountrySummary {
            country: non_empty(self.country),
            iso_country: non_empty(self.iso_country),
            url: non_empty(self.url),
        }
    }
}

/// A summary item from a Pricing v1 or v2 countries list.
#[derive(Clone)]
pub struct TwilioPricingCountrySummary {
    pub country: Option<String>,
    pub iso_country: Option<String>,
    pub url: Option<String>,
}

/// A country summary as the response writes it.
pub struct WirePricingCountrySummary {
    pub country: Option<String>,
    pub iso_country: Option<String>,
    pub url: Option<String>,
}

/// How `into_summary` reads each field of its response.
pub open spec fn country_summary_from(w: WirePricingCountrySummary, t: TwilioPricingCountrySummary) -> bool {
    &&& opt_string_view(t.country) == nonempty_text(opt_string_view(w.country))
    &&& opt_string_view(t.iso_country) == nonempty_text(opt_string_view(w.iso_country))
    &&& opt_string_view(t.url) == nonempty_text(opt_string_view(w.url))
}

impl WirePricingCountrySummary {
    /// The summary this response describes; empty texts count as absent.
    pub fn into_summary(self) -> (t: TwilioPricingCountrySummary)
        ensures
            country_summary_from(self, t),
    {
        TwilioPricingCountrySummary {
            country: non_empty(self.country),
            iso_country: non_empty(self.iso_country),
            url: non_empty(self.url),
        }
    }
}

} // verus!
