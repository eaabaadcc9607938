use vstd::prelude::*;

use crate::error::{check_outcome, invalid, TwilioError};
use crate::form::{
    enum_view, page_size_violation, params_view, push_enum, push_str, str_param,
    validate_page_size, FormParam, ParamSeq,
};
use crate::services::{push_string_setting, push_v1_page_query, setting_view, v1_page_pairs, HttpMethod, StringSetting};
use crate::text::{non_empty, nonempty_text, opt_string_view, opt_view};
use crate::timestamps::{parse_rfc2822, rfc2822_value};

use crate::debug_text::{
    debug_opt_bool, debug_opt_i64, debug_opt_str, debug_opt_str_list, debug_opt_timestamp, debug_struct_text,
    opt_bool_debug, opt_i64_debug, opt_str_debug, opt_str_list_debug, opt_timestamp_debug, redacted, redacted_text,
    DebugStructText,
};
verus! {

/// Query parameters for `GET /SMS/ShortCodes.json`.
#[derive(Clone, Copy)]
pub struct ListAccountShortCodesRequest<'a> {
    pub friendly_name: Option<&'a str>,
    pub short_code: Option<&'a str>,
    pub page_size: Option<u32>,
    pub page: Option<u32>,
    pub page_token: Option<&'a str>,
}

impl<'a> ListAccountShortCodesRequest<'a> {
    pub fn new() -> (r: Self)
        ensures
            r.friendly_name is None,
            r.short_code is None,
            r.page_size is None,
            r.page is None,
            r.page_token is None,
    {
        ListAccountShortCodesRequest { friendly_name: None, short_code: None, page_size: None, page: None, page_token: None }
    }

    pub fn friendly_name(self, value: &'a str) -> (r: Self)
        ensures
            r == (ListAccountShortCodesRequest { friendly_name: Some(value), ..self }),
    {
        ListAccountShortCodesRequest { friendly_name: Some(value), ..self }
    }

    pub fn short_code(self, value: &'a str) -> (r: Self)
        ensures
            r == (ListAccountShortCodesRequest { short_code: Some(value), ..self }),
    {
        ListAccountShortCodesRequest { short_code: Some(value), ..self }
    }

    pub fn page_size(self, value: u32) -> (r: Self)
        ensures
            r == (ListAccountShortCodesRequest { page_size: Some(value), ..self }),
    {
        ListAccountShortCodesRequest { page_size: Some(value), ..self }
    }

    pub fn page(self, value: u32) -> (r: Self)
        ensures
            r == (ListAccountShortCodesRequest { page: Some(value), ..self }),
    {
        ListAccountShortCodesRequest { page: Some(value), ..self }
    }

    pub fn page_token(self, value: &'a str) -> (r: Self)
        ensures
            r == (ListAccountShortCodesRequest { page_token: Some(value), ..self }),
    {
        ListAccountShortCodesRequest { page_token: Some(value), ..self }
    }

    /// The first documented rule this request breaks, as its error text.
    pub open spec fn violation(&self) -> Option<Seq<char>> {
        page_size_violation(self.page_size)
    }

    /// Check the documented rules on this request.
    pub fn validate(&self) -> (r: Result<(), TwilioError>)
        ensures
            check_outcome(r, self.violation()),
    {
        validate_page_size(self.page_size)
    }

    /// The query parameters of this request, in the order they are sent.
    pub open spec fn spec_query_pairs(&self) -> ParamSeq {
        str_param("FriendlyName"@, opt_view(self.friendly_name)) + str_param("ShortCode"@, opt_view(self.short_code))
            + v1_page_pairs(self.page_size, self.page, self.page_token)
    }

    /// Encode this request as query parameters.
    pub fn query_pairs(&self) -> (params: Vec<FormParam>)
        ensures
            params_view(params@) == self.spec_query_pairs(),
    {
        let mut params = Vec::new();
        push_str(&mut params, "FriendlyName", self.friendly_name);
        push_str(&mut params, "ShortCode", self.short_code);
        push_v1_page_query(&mut params, self.page_size, self.page, self.page_token);
        assert(params_view(params@) =~= self.spec_query_pairs());
        params
    }
}

/// The writable settings of an account short code; each is sent only when set.
#[derive(Clone, Copy)]
pub struct AccountShortCodeFields<'a> {
    pub friendly_name: Option<&'a str>,
    pub api_version: Option<&'a str>,
    pub sms_url: Option<StringSetting<'a>>,
    pub sms_method: Option<HttpMethod>,
    pub sms_fallback_url: Option<StringSetting<'a>>,
    pub sms_fallback_method: Option<HttpMethod>,
}

impl<'a> AccountShortCodeFields<'a> {
    /// No setting is chosen.
    pub open spec fn none_set(self) -> bool {
        self.friendly_name is None && self.api_version is None && self.sms_url is None
            && self.sms_method is None && self.sms_fallback_url is None
            && self.sms_fallback_method is None
    }

    /// The form parameters of these settings, in the order they are sent.
    pub open spec fn spec_form_params(self) -> ParamSeq {
        str_param("FriendlyName"@, opt_view(self.friendly_name)) + str_param("ApiVersion"@, opt_view(self.api_version))
            + str_param("SmsUrl"@, setting_view(self.sms_url)) + str_param("SmsMethod"@, enum_view(self.sms_method))
            + str_param("SmsFallbackUrl"@, setting_view(self.sms_fallback_url))
            + str_param("SmsFallbackMethod"@, enum_view(self.sms_fallback_method))
    }

    /// Encode these settings as form parameters.
    pub fn form_params(self) -> (params: Vec<FormParam>)
        ensures
            params_view(params@) == self.spec_form_params(),
    {
        let mut params = Vec::new();
        push_str(&mut params, "FriendlyName", self.friendly_name);
        push_str(&mut params, "ApiVersion", self.api_version);
        push_string_setting(&mut params, "SmsUrl", self.sms_url);
        push_enum(&mut params, "SmsMethod", self.sms_method);
        push_string_setting(&mut params, "SmsFallbackUrl", self.sms_fallback_url);
        push_enum(&mut params, "SmsFallbackMethod", self.sms_fallback_method);
        assert(params_view(params@) =~= self.spec_form_params());
        params
    }
}

/// Request body for `POST /SMS/ShortCodes/{Sid}.json`.
#[derive(Clone, Copy)]
pub struct UpdateAccountShortCodeRequest<'a> {
    pub fields: AccountShortCodeFields<'a>,
}

impl<'a> UpdateAccountShortCodeRequest<'a> {
    /// An update that changes nothing yet.
    pub fn new() -> (r: Self)
        ensures
            r.fields.friendly_name is None,
            r.fields.api_version is None,
            r.fields.sms_url is None,
            r.fields.sms_method is None,
            r.fields.sms_fallback_url is None,
            r.fields.sms_fallback_method is None,
    {
        UpdateAccountShortCodeRequest {
            fields: AccountShortCodeFields {
                friendly_name: None,
                api_version: None,
                sms_url: None,
                sms_method: None,
                sms_fallback_url: None,
                sms_fallback_method: None,
            },
        }
    }

    pub fn friendly_name(self, value: &'a str) -> (r: Self)
        ensures
            r == (UpdateAccountShortCodeRequest { fields: AccountShortCodeFields { friendly_name: Some(value), ..self.fields } }),
    {
        UpdateAccountShortCodeRequest { fields: AccountShortCodeFields { friendly_name: Some(value), ..self.fields } }
    }

    pub fn api_version(self, value: &'a str) -> (r: Self)
        ensures
            r == (UpdateAccountShortCodeRequest { fields: AccountShortCodeFields { api_version: Some(value), ..self.fields } }),
    {
        UpdateAccountShortCodeRequest { fields: AccountShortCodeFields { api_version: Some(value), ..self.fields } }
    }

    pub fn sms_url(self, value: &'a str) -> (r: Self)
        ensures
            r == (UpdateAccountShortCodeRequest { fields: AccountShortCodeFields { sms_url: Some(StringSetting::Value(value)), ..self.fields } }),
    {
        UpdateAccountShortCodeRequest { fields: AccountShortCodeFields { sms_url: Some(StringSetting::Value(value)), ..self.fields } }
    }

    pub fn clear_sms_url(self) -> (r: Self)
        ensures
            r == (UpdateAccountShortCodeRequest { fields: AccountShortCodeFields { sms_url: Some(StringSetting::Clear), ..self.fields } }),
    {
        UpdateAccountShortCodeRequest { fields: AccountShortCodeFields { sms_url: Some(StringSetting::Clear), ..self.fields } }
    }

    pub fn sms_method(self, value: HttpMethod) -> (r: Self)
        ensures
            r == (UpdateAccountShortCodeRequest { fields: AccountShortCodeFields { sms_method: Some(value), ..self.fields } }),
    {
        UpdateAccountShortCodeRequest { fields: AccountShortCodeFields { sms_method: Some(value), ..self.fields } }
    }

    pub fn sms_fallback_url(self, value: &'a str) -> (r: Self)
        ensures
            r == (UpdateAccountShortCodeRequest { fields: AccountShortCodeFields { sms_fallback_url: Some(StringSetting::Value(value)), ..self.fields } }),
    {
        UpdateAccountShortCodeRequest { fields: AccountShortCodeFields { sms_fallback_url: Some(StringSetting::Value(value)), ..self.fields } }
    }

    pub fn clear_sms_fallback_url(self) -> (r: Self)
        ensures
            r == (UpdateAccountShortCodeRequest { fields: AccountShortCodeFields { sms_fallback_url: Some(StringSetting::Clear), ..self.fields } }),
    {
        UpdateAccountShortCodeRequest { fields: AccountShortCodeFields { sms_fallback_url: Some(StringSetting::Clear), ..self.fields } }
    }

    pub fn sms_fallback_method(self, value: HttpMethod) -> (r: Self)
        ensures
            r == (UpdateAccountShortCodeRequest { fields: AccountShortCodeFields { sms_fallback_method: Some(value), ..self.fields } }),
    {
        UpdateAccountShortCodeRequest { fields: AccountShortCodeFields { sms_fallback_method: Some(value), ..self.fields } }
    }

    /// The first documented rule this request breaks, as its error text.
    pub open spec fn violation(&self) -> Option<Seq<char>> {
        if self.fields.spec_form_params().len() == 0 {
            Some("short code update requires at least one field"@)
        } else {
            None
        }
    }

    /// Check that the update changes at least one setting.
    pub fn validate(&self) -> (r: Result<(), TwilioError>)
        ensures
            check_outcome(r, self.violation()),
    {
        let params = self.fields.form_params();
        if params.len() == 0 {
            return Err(invalid("short code update requires at least one field"));
        }
        Ok(())
    }

    /// The form parameters of this request, in the order they are sent.
    pub open spec fn spec_form_params(&self) -> ParamSeq {
        self.fields.spec_form_params()
    }

    /// Encode this request as form parameters.
    pub fn form_params(&self) -> (params: Vec<FormParam>)
        ensures
            params_view(params@) == self.spec_form_params(),
    {
        self.fields.form_params()
    }
}


/// A legacy account-level `ShortCode`.
#[derive(Clone)]
pub struct TwilioAccountShortCode {
    pub account_sid: Option<String>,
    pub api_version: Option<String>,
    pub date_created: Option<time::OffsetDateTime>,
    pub date_updated: Option<time::OffsetDateTime>,
    pub friendly_name: Option<String>,
    pub short_code: Option<String>,
    pub sid: Option<String>,
    pub sms_fallback_method: Option<String>,
    pub sms_fallback_url: Option<String>,
    pub sms_method: Option<String>,
    pub sms_url: Option<String>,
    pub uri: Option<String>,
}

impl TwilioAccountShortCode {
    /// The fields of this record's debug text, in order, with the fields
    /// that identify an account, a person or a business hidden.
    pub open spec fn spec_debug_fields(&self) -> Seq<(Seq<char>, Seq<char>)> {
        seq![
            ("account_sid"@, redacted_text(self.account_sid is Some)),
            ("api_version"@, opt_str_debug(self.api_version)),
            ("date_created"@, opt_timestamp_debug(self.date_created)),
            ("date_updated"@, opt_timestamp_debug(self.date_updated)),
            ("friendly_name"@, redacted_text(self.friendly_name is Some)),
            ("short_code"@, redacted_text(self.short_code is Some)),
            ("sid"@, redacted_text(self.sid is Some)),
            ("sms_fallback_method"@, opt_str_debug(self.sms_fallback_method)),
            ("sms_fallback_url"@, redacted_text(self.sms_fallback_url is Some)),
            ("sms_method"@, opt_str_debug(self.sms_method)),
            ("sms_url"@, redacted_text(self.sms_url is Some)),
            ("uri"@, redacted_text(self.uri is Some)),
        ]
    }

    /// The debug text of this record, with the fields that identify an
    /// account, a person or a business hidden as `[REDACTED]`.
    pub open spec fn spec_debug_text(&self) -> Seq<char> {
        debug_struct_text("TwilioAccountShortCode"@, self.spec_debug_fields())
    }

    /// Write the debug text of this record.
    pub fn debug_text(&self) -> (s: String)
        ensures
            s@ == self.spec_debug_text(),
    {
        let mut d = DebugStructText::new("TwilioAccountShortCode");
        d.field("account_sid", redacted(self.account_sid.is_some()));
        let v = debug_opt_str(&self.api_version);
        d.field("api_version", v.as_str());
        let v = debug_opt_timestamp(&self.date_created);
        d.field("date_created", v.as_str());
        let v = debug_opt_timestamp(&self.date_updated);
        d.field("date_updated", v.as_str());
        d.field("friendly_name", redacted(self.friendly_name.is_some()));
        d.field("short_code", redacted(self.short_code.is_some()));
        d.field("sid", redacted(self.sid.is_some()));
        let v = debug_opt_str(&self.sms_fallback_method);
        d.field("sms_fallback_method", v.as_str());
        d.field("sms_fallback_url", redacted(self.sms_fallback_url.is_some()));
        let v = debug_opt_str(&self.sms_method);
        d.field("sms_method", v.as_str());
        d.field("sms_url", redacted(self.sms_url.is_some()));
        d.field("uri", redacted(self.uri.is_some()));
        assert(d.fields@ =~= self.spec_debug_fields());
        d.finish()
    }
}

/// A legacy `ShortCode` as the response writes it, timestamps as text.
pub struct WireAccountShortCode {
    pub account_sid: Option<String>,
    pub api_version: Option<String>,
    pub date_created: Option<String>,
    pub date_updated: Option<String>,
    pub friendly_name: Option<String>,
    pub short_code: Option<String>,
    pub sid: Option<String>,
    pub sms_fallback_method: Option<String>,
    pub sms_fallback_url: Option<String>,
    pub sms_method: Option<String>,
    pub sms_url: Option<String>,
    pub uri: Option<String>,
}

/// AccountShortCode read from its response: each field as the response conversion leaves it.
pub open spec fn account_short_code_from(w: WireAccountShortCode, t: TwilioAccountShortCode) -> bool {
    &&& t.account_sid == w.account_sid
    &&& t.api_version == w.api_version
    &&& (t.date_created == rfc2822_value(w.date_created))
    &&& (t.date_updated == rfc2822_value(w.date_updated))
    &&& t.friendly_name == w.friendly_name
    &&& t.short_code == w.short_code
    &&& t.sid == w.sid
    &&& t.sms_fallback_method == w.sms_fallback_method
    &&& t.sms_fallback_url == w.sms_fallback_url
    &&& t.sms_method == w.sms_method
    &&& t.sms_url == w.sms_url
    &&& t.uri == w.uri
}

impl WireAccountShortCode {
    /// The `ShortCode` this response describes.
    pub fn into_short_code(self) -> (t: TwilioAccountShortCode)
        ensures
            account_short_code_from(self, t),
    {
        TwilioAccountShortCode {
            account_sid: self.account_sid,
            api_version: self.api_version,
            date_created: parse_rfc2822(self.date_created),
            date_updated: parse_rfc2822(self.date_updated),
            friendly_name: self.friendly_name,
            short_code: self.short_code,
            sid: self.sid,
            sms_fallback_method: self.sms_fallback_method,
            sms_fallback_url: self.sms_fallback_url,
            sms_method: self.sms_method,
            sms_url: self.sms_url,
            uri: self.uri,
        }
    }
}

/// One page of legacy account-level `ShortCodes`.
#[derive(Clone)]
pub struct TwilioAccountShortCodePage {
    pub short_codes: Vec<TwilioAccountShortCode>,
    pub next_page_uri: Option<String>,
    pub first_page_uri: Option<String>,
    pub previous_page_uri: Option<String>,
    pub uri: Option<String>,
    pub page: Option<i64>,
    pub page_size: Option<i64>,
    pub start: Option<i64>,
    pub end: Option<i64>,
}

/// A page of `ShortCodes` as the response writes it.
pub struct WireAccountShortCodePage {
    pub short_codes: Vec<WireAccountShortCode>,
    pub next_page_uri: Option<String>,
    pub first_page_uri: Option<String>,
    pub previous_page_uri: Option<String>,
    pub uri: Option<String>,
    pub page: Option<i64>,
    pub page_size: Option<i64>,
    pub start: Option<i64>,
    pub end: Option<i64>,
}

impl WireAccountShortCodePage {
    /// The page this response describes: each item read in order, empty links dropped.
    pub fn into_page(self) -> (p: TwilioAccountShortCodePage)
        ensures
            p.short_codes@.len() == self.short_codes@.len(),
            forall|i: int| 0 <= i < p.short_codes@.len() ==> account_short_code_from(self.short_codes@[i], #[trigger] p.short_codes@[i]),
            opt_string_view(p.next_page_uri) == nonempty_text(opt_string_view(self.next_page_uri)),
            opt_string_view(p.first_page_uri) == nonempty_text(opt_string_view(self.first_page_uri)),
            opt_string_view(p.previous_page_uri) == nonempty_text(opt_string_view(self.previous_page_uri)),
            opt_string_view(p.uri) == nonempty_text(opt_string_view(self.uri)),
            p.page == self.page,
            p.page_size == self.page_size,
            p.start == self.start,
            p.end == self.end,
    {
        let ghost ws = self.short_codes@;
        let mut rest = self.short_codes;
        let mut items: Vec<TwilioAccountShortCode> = Vec::new();
        while rest.len() > 0
            invariant
                ws.len() == items@.len() + rest@.len(),
                rest@ == ws.skip(items@.len() as int),
                forall|i: int| 0 <= i < items@.len() ==> account_short_code_from(ws[i], #[trigger] items@[i]),
            decreases rest@.len(),
        {
            let ghost k = items@.len() as int;
            let w = rest.remove(0);
            assert(w == ws[k]);
            items.push(w.into_short_code());
            assert(rest@ =~= ws.skip(k + 1));
        }
        TwilioAccountShortCodePage {
            short_codes: items,
            next_page_uri: non_empty(self.next_page_uri),
            first_page_uri: non_empty(self.first_page_uri),
            previous_page_uri: non_empty(self.previous_page_uri),
            uri: non_empty(self.uri),
            page: self.page,
            page_size: self.page_size,
            start: self.start,
            end: self.end,
        }
    }
}

/// The `ShortCodes` of a page and the link to the next one, as the paginator takes them.
pub fn split_account_short_code_page(page: TwilioAccountShortCodePage) -> (r: (Vec<TwilioAccountShortCode>, Option<String>))
    ensures
        r.0@ == page.short_codes@,
        r.1 == page.next_page_uri,
{
    (page.short_codes, page.next_page_uri)
}

} // verus!
