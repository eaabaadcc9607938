use vstd::prelude::*;

use crate::error::{check_outcome, empty_field_error, invalid, must_not_be_empty, TwilioError};
use crate::form::{bool_param, params_view, push_bool, push_str, str_param, FormParam, ParamSeq};
use crate::services::validate_required;
use crate::text::{
    has_text, is_blank, is_some_blank, non_empty, nonempty_text, opt_has_text, opt_is_blank,
    opt_string_view, opt_view,
};
use crate::timestamps::{iso8601_value, parse_iso8601};

use crate::debug_text::{
    debug_opt_bool, debug_opt_i64, debug_opt_str, debug_opt_str_list, debug_opt_timestamp, debug_struct_text,
    opt_bool_debug, opt_i64_debug, opt_str_debug, opt_str_list_debug, opt_timestamp_debug, redacted, redacted_text,
    some_text, DebugStructText,
};
verus! {

/// Request body for replacing the TLS certificate of a Link Shortening domain.
#[derive(Clone, Copy)]
pub struct UpdateLinkShorteningDomainCertificateRequest<'a> {
    pub tls_cert: &'a str,
}

impl<'a> UpdateLinkShorteningDomainCertificateRequest<'a> {
    pub fn new(tls_cert: &'a str) -> (r: Self)
        ensures
            r.tls_cert == tls_cert,
    {
        UpdateLinkShorteningDomainCertificateRequest { tls_cert }
    }

    /// The first documented rule this request breaks, as its error text.
    pub open spec fn violation(&self) -> Option<Seq<char>> {
        if is_blank(self.tls_cert@) {
            Some(must_not_be_empty("TlsCert"@))
        } else {
            None
        }
    }

    /// Check that the certificate is not blank.
    pub fn validate(&self) -> (r: Result<(), TwilioError>)
        ensures
            check_outcome(r, self.violation()),
    {
        validate_required("TlsCert", self.tls_cert)
    }

    /// The form parameters of this request.
    pub open spec fn spec_form_params(&self) -> ParamSeq {
        str_param("TlsCert"@, Some(self.tls_cert@))
    }

    /// Encode this request as form parameters.
    pub fn form_params(&self) -> (params: Vec<FormParam>)
        ensures
            params_view(params@) == self.spec_form_params(),
    {
        let mut params = Vec::new();
        push_str(&mut params, "TlsCert", Some(self.tls_cert));
        assert(params_view(params@) =~= self.spec_form_params());
        params
    }
}

/// Reject a value of `name` that is present but blank.
pub fn validate_optional_non_empty(name: &str, value: Option<&str>) -> (r: Result<(), TwilioError>)
    ensures
        check_outcome(
            r,
            if is_some_blank(opt_view(value)) {
                Some(must_not_be_empty(name@))
            } else {
                None
            },
        ),
{
    if opt_is_blank(value) {
        return Err(empty_field_error(name));
    }
    Ok(())
}

/// Request body for updating the callback configuration of a Link Shortening domain.
#[derive(Clone, Copy)]
pub struct UpdateLinkShorteningDomainConfigRequest<'a> {
    pub callback_url: Option<&'a str>,
    pub fallback_url: Option<&'a str>,
    pub continue_on_failure: Option<bool>,
    pub disable_https: Option<bool>,
}

impl<'a> UpdateLinkShorteningDomainConfigRequest<'a> {
    /// A configuration update that changes nothing yet.
    pub fn new() -> (r: Self)
        ensures
            r.callback_url is None,
            r.fallback_url is None,
            r.continue_on_failure is None,
            r.disable_https is None,
    {
        UpdateLinkShorteningDomainConfigRequest {
            callback_url: None,
            fallback_url: None,
            continue_on_failure: None,
            disable_https: None,
        }
    }

    pub fn callback_url(self, value: &'a str) -> (r: Self)
        ensures
            r == (UpdateLinkShorteningDomainConfigRequest { callback_url: Some(value), ..self }),
    {
        UpdateLinkShorteningDomainConfigRequest { callback_url: Some(value), ..self }
    }

    pub fn fallback_url(self, value: &'a str) -> (r: Self)
        ensures
            r == (UpdateLinkShorteningDomainConfigRequest { fallback_url: Some(value), ..self }),
    {
        UpdateLinkShorteningDomainConfigRequest { fallback_url: Some(value), ..self }
    }

    pub fn continue_on_failure(self, value: bool) -> (r: Self)
        ensures
            r == (UpdateLinkShorteningDomainConfigRequest { continue_on_failure: Some(value), ..self }),
    {
        UpdateLinkShorteningDomainConfigRequest { continue_on_failure: Some(value), ..self }
    }

    pub fn disable_https(self, value: bool) -> (r: Self)
        ensures
            r == (UpdateLinkShorteningDomainConfigRequest { disable_https: Some(value), ..self }),
    {
        UpdateLinkShorteningDomainConfigRequest { disable_https: Some(value), ..self }
    }

    /// The first documented rule this request breaks, as its error text.
    pub open spec fn violation(&self) -> Option<Seq<char>> {
        if !has_text(opt_view(self.callback_url)) && !has_text(opt_view(self.fallback_url))
            && self.continue_on_failure is None && self.disable_https is None {
            Some("at least one Link Shortening domain config field must be set"@)
        } else if is_some_blank(opt_view(self.callback_url)) {
            Some(must_not_be_empty("CallbackUrl"@))
        } else if is_some_blank(opt_view(self.fallback_url)) {
            Some(must_not_be_empty("FallbackUrl"@))
        } else {
            None
        }
    }

    /// Check that the update sets a field and that no URL is blank.
    pub fn validate(&self) -> (r: Result<(), TwilioError>)
        ensures
            check_outcome(r, self.violation()),
    {
        if !opt_has_text(self.callback_url) && !opt_has_text(self.fallback_url)
            && self.continue_on_failure.is_none() && self.disable_https.is_none() {
            return Err(invalid("at least one Link Shortening domain config field must be set"));
        }
        validate_optional_non_empty("CallbackUrl", self.callback_url)?;
        validate_optional_non_empty("FallbackUrl", self.fallback_url)
    }

    /// The form parameters of this request, in the order they are sent.
    pub open spec fn spec_form_params(&self) -> ParamSeq {
        str_param("CallbackUrl"@, opt_view(self.callback_url)) + str_param(
            "FallbackUrl"@,
            opt_view(self.fallback_url),
        ) + bool_param("ContinueOnFailure"@, self.continue_on_failure) + bool_param(
            "DisableHttps"@,
            self.disable_https,
        )
    }

    /// Encode this request as form parameters.
    pub fn form_params(&self) -> (params: Vec<FormParam>)
        ensures
            params_view(params@) == self.spec_form_params(),
    {
        let mut params = Vec::new();
        push_str(&mut params, "CallbackUrl", self.callback_url);
        push_str(&mut params, "FallbackUrl", self.fallback_url);
        push_bool(&mut params, "ContinueOnFailure", self.continue_on_failure);
        push_bool(&mut params, "DisableHttps", self.disable_https);
        assert(params_view(params@) =~= self.spec_form_params());
        params
    }
}

/// The validation state of a certificate being issued for a domain.
#[derive(Clone)]
pub struct TwilioCertificateValidationStatus {
    pub date_expires: Option<time::OffsetDateTime>,
    pub status: Option<String>,
}

impl TwilioCertificateValidationStatus {
    /// The fields of this record's debug text, in order; none is hidden.
    pub open spec fn spec_debug_fields(&self) -> Seq<(Seq<char>, Seq<char>)> {
        seq![
            ("date_expires"@, opt_timestamp_debug(self.date_expires)),
            ("status"@, opt_str_debug(self.status)),
        ]
    }

    /// The debug text of this record, as `derive(Debug)` writes it.
    pub open spec fn spec_debug_text(&self) -> Seq<char> {
        debug_struct_text("TwilioCertificateValidationStatus"@, self.spec_debug_fields())
    }

    /// Write the debug text of this record.
    pub fn debug_text(&self) -> (s: String)
        ensures
            s@ == self.spec_debug_text(),
    {
        let mut d = DebugStructText::new("TwilioCertificateValidationStatus");
        let v = debug_opt_timestamp(&self.date_expires);
        d.field("date_expires", v.as_str());
        let v = debug_opt_str(&self.status);
        d.field("status", v.as_str());
        assert(d.fields@ =~= self.spec_debug_fields());
        d.finish()
    }
}

/// A certificate validation state as the response writes it.
pub struct WireCertificateValidationStatus {
    pub date_expires: Option<String>,
    pub status: Option<String>,
}

/// CertificateValidationStatus read from its response: each field as the response conversion leaves it.
pub open spec fn certificate_status_from(w: WireCertificateValidationStatus, t: TwilioCertificateValidationStatus) -> bool {
    &&& (t.date_expires == iso8601_value(w.date_expires))
    &&& opt_string_view(t.status) == nonempty_text(opt_string_view(w.status))
}

impl WireCertificateValidationStatus {
    /// The validation state this response describes.
    pub fn into_status(self) -> (t: TwilioCertificateValidationStatus)
        ensures
            certificate_status_from(self, t),
    {
        TwilioCertificateValidationStatus {
            date_expires: parse_iso8601(self.date_expires),
            status: non_empty(self.status),
        }
    }
}

/// The TLS certificate of a Link Shortening domain.
#[derive(Clone)]
pub struct TwilioLinkShorteningDomainCertificate {
    pub domain_sid: Option<String>,
    pub certificate_sid: Option<String>,
    pub domain_name: Option<String>,
    pub date_created: Option<time::OffsetDateTime>,
    pub date_updated: Option<time::OffsetDateTime>,
    pub date_expires: Option<time::OffsetDateTime>,
    pub managed: Option<bool>,
    pub requesting: Option<bool>,
    pub cert_in_validation: Option<TwilioCertificateValidationStatus>,
    pub url: Option<String>,
}

/// The debug text of an optional certificate validation state.
pub open spec fn opt_validation_debug(v: Option<TwilioCertificateValidationStatus>) -> Seq<char> {
    match v {
        Some(c) => some_text(c.spec_debug_text()),
        None => "None"@,
    }
}

/// The debug text of an optional certificate validation state.
fn debug_opt_validation(v: &Option<TwilioCertificateValidationStatus>) -> (s: String)
    ensures
        s@ == opt_validation_debug(*v),
{
    match v {
        Some(c) => {
            let mut s = "Some(".to_string();
            s.append(c.debug_text().as_str());
            s.append(")");
            s
        },
        None => "None".to_string(),
    }
}

impl TwilioLinkShorteningDomainCertificate {
    /// The fields of this record's debug text, in order, with the fields
    /// that identify an account, a person or a business hidden.
    pub open spec fn spec_debug_fields(&self) -> Seq<(Seq<char>, Seq<char>)> {
        seq![
            ("domain_sid"@, redacted_text(self.domain_sid is Some)),
            ("certificate_sid"@, redacted_text(self.certificate_sid is Some)),
            ("domain_name"@, redacted_text(self.domain_name is Some)),
            ("date_created"@, opt_timestamp_debug(self.date_created)),
            ("date_updated"@, opt_timestamp_debug(self.date_updated)),
            ("date_expires"@, opt_timestamp_debug(self.date_expires)),
            ("managed"@, opt_bool_debug(self.managed)),
            ("requesting"@, opt_bool_debug(self.requesting)),
            ("cert_in_validation"@, opt_validation_debug(self.cert_in_validation)),
            ("url"@, redacted_text(self.url is Some)),
        ]
    }

    /// The debug text of this record, with the fields that identify an
    /// account, a person or a business hidden as `[REDACTED]`.
    pub open spec fn spec_debug_text(&self) -> Seq<char> {
        debug_struct_text("TwilioLinkShorteningDomainCertificate"@, self.spec_debug_fields())
    }

    /// Write the debug text of this record.
    pub fn debug_text(&self) -> (s: String)
        ensures
            s@ == self.spec_debug_text(),
    {
        let mut d = DebugStructText::new("TwilioLinkShorteningDomainCertificate");
        d.field("domain_sid", redacted(self.domain_sid.is_some()));
        d.field("certificate_sid", redacted(self.certificate_sid.is_some()));
        d.field("domain_name", redacted(self.domain_name.is_some()));
        let v = debug_opt_timestamp(&self.date_created);
        d.field("date_created", v.as_str());
        let v = debug_opt_timestamp(&self.date_updated);
        d.field("date_updated", v.as_str());
        let v = debug_opt_timestamp(&self.date_expires);
        d.field("date_expires", v.as_str());
        let v = debug_opt_bool(self.managed);
        d.field("managed", v.as_str());
        let v = debug_opt_bool(self.requesting);
        d.field("requesting", v.as_str());
        let v = debug_opt_validation(&self.cert_in_validation);
        d.field("cert_in_validation", v.as_str());
        d.field("url", redacted(self.url.is_some()));
        assert(d.fields@ =~= self.spec_debug_fields());
        d.finish()
    }
}

/// A domain certificate as the response writes it.
pub struct WireDomainCertificate {
    pub domain_sid: Option<String>,
    pub certificate_sid: Option<String>,
    pub domain_name: Option<String>,
    pub date_created: Option<String>,
    pub date_updated: Option<String>,
    pub date_expires: Option<String>,
    pub managed: Option<bool>,
    pub requesting: Option<bool>,
    pub cert_in_validation: Option<WireCertificateValidationStatus>,
    pub url: Option<String>,
}

/// LinkShorteningDomainCertificate read from its response: each field as the response conversion leaves it.
pub open spec fn domain_certificate_from(w: WireDomainCertificate, t: TwilioLinkShorteningDomainCertificate) -> bool {
    &&& opt_string_view(t.domain_sid) == nonempty_text(opt_string_view(w.domain_sid))
    &&& opt_string_view(t.certificate_sid) == nonempty_text(opt_string_view(w.certificate_sid))
    &&& opt_string_view(t.domain_name) == nonempty_text(opt_string_view(w.domain_name))
    &&& (t.date_created == iso8601_value(w.date_created))
    &&& (t.date_updated == iso8601_value(w.date_updated))
    &&& (t.date_expires == iso8601_value(w.date_expires))
    &&& t.managed == w.managed
    &&& t.requesting == w.requesting
    &&& match (w.cert_in_validation, t.cert_in_validation) {
            (Some(a), Some(b)) => certificate_status_from(a, b),
            (None, None) => true,
            _ => false,
        }
    &&& opt_string_view(t.url) == nonempty_text(opt_string_view(w.url))
}

impl WireDomainCertificate {
    /// The domain certificate this response describes.
    pub fn into_certificate(self) -> (t: TwilioLinkShorteningDomainCertificate)
        ensures
            domain_certificate_from(self, t),
    {
        TwilioLinkShorteningDomainCertificate {
            domain_sid: non_empty(self.domain_sid),
            certificate_sid: non_empty(self.certificate_sid),
            domain_name: non_empty(self.domain_name),
            date_created: parse_iso8601(self.date_created),
            date_updated: parse_iso8601(self.date_updated),
            date_expires: parse_iso8601(self.date_expires),
            managed: self.managed,
            requesting: self.requesting,
            cert_in_validation: match self.cert_in_validation {
                Some(v) => Some(v.into_status()),
                None => None,
            },
            url: non_empty(self.url),
        }
    }
}

/// The callback configuration of a Link Shortening domain.
#[derive(Clone)]
pub struct TwilioLinkShorteningDomainConfig {
    pub domain_sid: Option<String>,
    pub config_sid: Option<String>,
    pub messaging_service_sid: Option<String>,
    pub callback_url: Option<String>,
    pub fallback_url: Option<String>,
    pub continue_on_failure: Option<bool>,
    pub disable_https: Option<bool>,
    pub date_created: Option<time::OffsetDateTime>,
    pub date_updated: Option<time::OffsetDateTime>,
    pub url: Option<String>,
}

impl TwilioLinkShorteningDomainConfig {
    /// The fields of this record's debug text, in order, with the fields
    /// that identify an account, a person or a business hidden.
    pub open spec fn spec_debug_fields(&self) -> Seq<(Seq<char>, Seq<char>)> {
        seq![
            ("domain_sid"@, redacted_text(self.domain_sid is Some)),
            ("config_sid"@, redacted_text(self.config_sid is Some)),
            ("messaging_service_sid"@, redacted_text(self.messaging_service_sid is Some)),
            ("callback_url"@, redacted_text(self.callback_url is Some)),
            ("fallback_url"@, redacted_text(self.fallback_url is Some)),
            ("continue_on_failure"@, opt_bool_debug(self.continue_on_failure)),
            ("disable_https"@, opt_bool_debug(self.disable_https)),
            ("date_created"@, opt_timestamp_debug(self.date_created)),
            ("date_updated"@, opt_timestamp_debug(self.date_updated)),
            ("url"@, redacted_text(self.url is Some)),
        ]
    }

    /// The debug text of this record, with the fields that identify an
    /// account, a person or a business hidden as `[REDACTED]`.
    pub open spec fn spec_debug_text(&self) -> Seq<char> {
        debug_struct_text("TwilioLinkShorteningDomainConfig"@, self.spec_debug_fields())
    }

    /// Write the debug text of this record.
    pub fn debug_text(&self) -> (s: String)
        ensures
            s@ == self.spec_debug_text(),
    {
        let mut d = DebugStructText::new("TwilioLinkShorteningDomainConfig");
        d.field("domain_sid", redacted(self.domain_sid.is_some()));
        d.field("config_sid", redacted(self.config_sid.is_some()));
        d.field("messaging_service_sid", redacted(self.messaging_service_sid.is_some()));
        d.field("callback_url", redacted(self.callback_url.is_some()));
        d.field("fallback_url", redacted(self.fallback_url.is_some()));
        let v = debug_opt_bool(self.continue_on_failure);
        d.field("continue_on_failure", v.as_str());
        let v = debug_opt_bool(self.disable_https);
        d.field("disable_https", v.as_str());
        let v = debug_opt_timestamp(&self.date_created);
        d.field("date_created", v.as_str());
        let v = debug_opt_timestamp(&self.date_updated);
        d.field("date_updated", v.as_str());
        d.field("url", redacted(self.url.is_some()));
        assert(d.fields@ =~= self.spec_debug_fields());
        d.finish()
    }
}

/// A domain configuration as the response writes it.
pub struct WireDomainConfig {
    pub domain_sid: Option<String>,
    pub config_sid: Option<String>,
    pub messaging_service_sid: Option<String>,
    pub callback_url: Option<String>,
    pub fallback_url: Option<String>,
    pub continue_on_failure: Option<bool>,
    pub disable_https: Option<bool>,
    pub date_created: Option<String>,
    pub date_updated: Option<String>,
    pub url: Option<String>,
}

/// LinkShorteningDomainConfig read from its response: each field as the response conversion leaves it.
pub open spec fn domain_config_from(w: WireDomainConfig, t: TwilioLinkShorteningDomainConfig) -> bool {
    &&& opt_string_view(t.domain_sid) == nonempty_text(opt_string_view(w.domain_sid))
    &&& opt_string_view(t.config_sid) == nonempty_text(opt_string_view(w.config_sid))
    &&& opt_string_view(t.messaging_service_sid) == nonempty_text(opt_string_view(w.messaging_service_sid))
    &&& opt_string_view(t.callback_url) == nonempty_text(opt_string_view(w.callback_url))
    &&& opt_string_view(t.fallback_url) == nonempty_text(opt_string_view(w.fallback_url))
    &&& t.continue_on_failure == w.continue_on_failure
    &&& t.disable_https == w.disable_https
    &&& (t.date_created == iso8601_value(w.date_created))
    &&& (t.date_updated == iso8601_value(w.date_updated))
    &&& opt_string_view(t.url) == nonempty_text(opt_string_view(w.url))
}

impl WireDomainConfig {
    /// The domain configuration this response describes.
    pub fn into_config(self) -> (t: TwilioLinkShorteningDomainConfig)
        ensures
            domain_config_from(self, t),
    {
        TwilioLinkShorteningDomainConfig {
            domain_sid: non_empty(self.domain_sid),
            config_sid: non_empty(self.config_sid),
            messaging_service_sid: non_empty(self.messaging_service_sid),
            callback_url: non_empty(self.callback_url),
            fallback_url: non_empty(self.fallback_url),
            continue_on_failure: self.continue_on_failure,
            disable_https: self.disable_https,
            date_created: parse_iso8601(self.date_created),
            date_updated: parse_iso8601(self.date_updated),
            url: non_empty(self.url),
        }
    }
}


/// The result of validating the DNS records of a Link Shortening domain.
#[derive(Clone)]
pub struct TwilioLinkShorteningDnsValidation {
    pub domain_sid: Option<String>,
    pub is_valid: Option<bool>,
    pub reason: Option<String>,
    pub url: Option<String>,
}

impl TwilioLinkShorteningDnsValidation {
    /// The fields of this record's debug text, in order, with the fields
    /// that identify an account, a person or a business hidden.
    pub open spec fn spec_debug_fields(&self) -> Seq<(Seq<char>, Seq<char>)> {
        seq![
            ("domain_sid"@, redacted_text(self.domain_sid is Some)),
            ("is_valid"@, opt_bool_debug(self.is_valid)),
            ("reason"@, redacted_text(self.reason is Some)),
            ("url"@, redacted_text(self.url is Some)),
        ]
    }

    /// The debug text of this record, with the fields that identify an
    /// account, a person or a business hidden as `[REDACTED]`.
    pub open spec fn spec_debug_text(&self) -> Seq<char> {
        debug_struct_text("TwilioLinkShorteningDnsValidation"@, self.spec_debug_fields())
    }

    /// Write the debug text of this record.
    pub fn debug_text(&self) -> (s: String)
        ensures
            s@ == self.spec_debug_text(),
    {
        let mut d = DebugStructText::new("TwilioLinkShorteningDnsValidation");
        d.field("domain_sid", redacted(self.domain_sid.is_some()));
        let v = debug_opt_bool(self.is_valid);
        d.field("is_valid", v.as_str());
        d.field("reason", redacted(self.reason.is_some()));
        d.field("url", redacted(self.url.is_some()));
        assert(d.fields@ =~= self.spec_debug_fields());
        d.finish()
    }
}

/// A DNS validation result as the response writes it.
pub struct WireDnsValidation {
    pub domain_sid: Option<String>,
    pub is_valid: Option<bool>,
    pub reason: Option<String>,
    pub url: Option<String>,
}

/// How `into_validation` reads each field of its response.
pub open spec fn dns_validation_from(w: WireDnsValidation, t: TwilioLinkShorteningDnsValidation) -> bool {
    &&& opt_string_view(t.domain_sid) == nonempty_text(opt_string_view(w.domain_sid))
    &&& t.is_valid == w.is_valid
    &&& opt_string_view(t.reason) == nonempty_text(opt_string_view(w.reason))
    &&& opt_string_view(t.url) == nonempty_text(opt_string_view(w.url))
}

impl WireDnsValidation {
    /// The DNS validation this response describes; empty texts count as absent.
    pub fn into_validation(self) -> (t: TwilioLinkShorteningDnsValidation)
        ensures
            dns_validation_from(self, t),
    {
        TwilioLinkShorteningDnsValidation {
            domain_sid: non_empty(self.domain_sid),
            is_valid: self.is_valid,
            reason: non_empty(self.reason),
            url: non_empty(self.url),
        }
    }
}

/// The association of a Link Shortening domain with a Messaging Service.
#[derive(Clone)]
pub struct TwilioLinkShorteningMessagingService {
    pub domain_sid: Option<String>,
    pub messaging_service_sid: Option<String>,
    pub url: Option<String>,
}

impl TwilioLinkShorteningMessagingService {
    /// The fields of this record's debug text, in order, with the fields
    /// that identify an account, a person or a business hidden.
    pub open spec fn spec_debug_fields(&self) -> Seq<(Seq<char>, Seq<char>)> {
        seq![
            ("domain_sid"@, redacted_text(self.domain_sid is Some)),
            ("messaging_service_sid"@, redacted_text(self.messaging_service_sid is Some)),
            ("url"@, redacted_text(self.url is Some)),
        ]
    }

    /// The debug text of this record, with the fields that identify an
    /// account, a person or a business hidden as `[REDACTED]`.
    pub open spec fn spec_debug_text(&self) -> Seq<char> {
        debug_struct_text("TwilioLinkShorteningMessagingService"@, self.spec_debug_fields())
    }

    /// Write the debug text of this record.
    pub fn debug_text(&self) -> (s: String)
        ensures
            s@ == self.spec_debug_text(),
    {
        let mut d = DebugStructText::new("TwilioLinkShorteningMessagingService");
        d.field("domain_sid", redacted(self.domain_sid.is_some()));
        d.field("messaging_service_sid", redacted(self.messaging_service_sid.is_some()));
        d.field("url", redacted(self.url.is_some()));
        assert(d.fields@ =~= self.spec_debug_fields());
        d.finish()
    }
}

/// A domain association as the response writes it.
pub struct WireMessagingServiceAssociation {
    pub domain_sid: Option<String>,
    pub messaging_service_sid: Option<String>,
    pub url: Option<String>,
}

/// How `into_association` reads each field of its response.
pub open spec fn messaging_service_association_from(w: WireMessagingServiceAssociation, t: TwilioLinkShorteningMessagingService) -> bool {
    &&& opt_string_view(t.domain_sid) == nonempty_text(opt_string_view(w.domain_sid))
    &&& opt_string_view(t.messaging_service_sid) == nonempty_text(opt_string_view(w.messaging_service_sid))
    &&& opt_string_view(t.url) == nonempty_text(opt_string_view(w.url))
}

impl WireMessagingServiceAssociation {
    /// The association this response describes; empty texts count as absent.
    pub fn into_association(self) -> (t: TwilioLinkShorteningMessagingService)
        ensures
            messaging_service_association_from(self, t),
    {
        TwilioLinkShorteningMessagingService {
            domain_sid: non_empty(self.domain_sid),
            messaging_service_sid: non_empty(self.messaging_service_sid),
            url: non_empty(self.url),
        }
    }
}

} // verus!
