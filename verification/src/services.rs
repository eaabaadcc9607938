use std::collections::BTreeMap;

use vstd::prelude::*;

use crate::error::{check_outcome, invalid, must_not_be_empty, require_nonempty, TwilioError};
use crate::form::{
    bool_param, enum_view, page_size_violation, params_view, push_bool, push_enum, push_str,
    push_u32, str_param, u32_param, validate_page_size, FormEnum, FormParam, ParamSeq,
};
use crate::text::{has_text, is_blank, opt_has_text, opt_view, str_is_blank};
use crate::timestamps::{iso8601_value, parse_iso8601};

use crate::debug_text::{
    debug_opt_bool, debug_opt_i64, debug_opt_str, debug_opt_str_list, debug_opt_timestamp, debug_struct_text,
    opt_bool_debug, opt_i64_debug, opt_str_debug, opt_str_list_debug, opt_timestamp_debug, redacted, redacted_text,
    DebugStructText,
};
verus! {

/// Longest `FriendlyName` of a Messaging Service, in characters.
pub const SERVICE_FRIENDLY_NAME_MAX_CHARS: usize = 64;

/// Smallest `ValidityPeriod` of a Messaging Service, in seconds.
pub const SERVICE_VALIDITY_PERIOD_MIN_SECONDS: u32 = 1;

/// Largest `ValidityPeriod` of a Messaging Service, in seconds.
pub const SERVICE_VALIDITY_PERIOD_MAX_SECONDS: u32 = 36000;

/// HTTP method values accepted by Messaging Service webhook fields.
#[derive(Clone, Copy, Debug, PartialEq, Eq)]
pub enum HttpMethod {
    Get,
    Post,
}

impl FormEnum for HttpMethod {
    open spec fn spec_form_value(self) -> Seq<char> {
        match self {
            HttpMethod::Get => "GET"@,
            HttpMethod::Post => "POST"@,
        }
    }

    fn form_value(self) -> (s: &'static str) {
        match self {
            HttpMethod::Get => "GET",
            HttpMethod::Post => "POST",
        }
    }
}

/// Values accepted by the `ScanMessageContent` Service setting.
#[derive(Clone, Copy, Debug, PartialEq, Eq)]
pub enum ScanMessageContent {
    Inherit,
    Enable,
    Disable,
}

impl FormEnum for ScanMessageContent {
    open spec fn spec_form_value(self) -> Seq<char> {
        match self {
            ScanMessageContent::Inherit => "inherit"@,
            ScanMessageContent::Enable => "enable"@,
            ScanMessageContent::Disable => "disable"@,
        }
    }

    fn form_value(self) -> (s: &'static str) {
        match self {
            ScanMessageContent::Inherit => "inherit",
            ScanMessageContent::Enable => "enable",
            ScanMessageContent::Disable => "disable",
        }
    }
}

/// Documented Messaging Service use cases.
#[derive(Clone, Copy, Debug, PartialEq, Eq)]
pub enum ServiceUsecase {
    Notifications,
    Marketing,
    Verification,
    Discussion,
    Poll,
    Undeclared,
}

impl FormEnum for ServiceUsecase {
    open spec fn spec_form_value(self) -> Seq<char> {
        match self {
            ServiceUsecase::Notifications => "notifications"@,
            ServiceUsecase::Marketing => "marketing"@,
            ServiceUsecase::Verification => "verification"@,
            ServiceUsecase::Discussion => "discussion"@,
            ServiceUsecase::Poll => "poll"@,
            ServiceUsecase::Undeclared => "undeclared"@,
        }
    }

    fn form_value(self) -> (s: &'static str) {
        match self {
            ServiceUsecase::Notifications => "notifications",
            ServiceUsecase::Marketing => "marketing",
            ServiceUsecase::Verification => "verification",
            ServiceUsecase::Discussion => "discussion",
            ServiceUsecase::Poll => "poll",
            ServiceUsecase::Undeclared => "undeclared",
        }
    }
}

/// A webhook text field that is either set to a value or cleared.
#[derive(Clone, Copy)]
pub enum StringSetting<'a> {
    Value(&'a str),
    Clear,
}

/// The text a setting is sent as: its value, or the empty text when cleared.
pub open spec fn setting_view(v: Option<StringSetting>) -> Option<Seq<char>> {
    match v {
        Some(StringSetting::Value(s)) => Some(s@),
        Some(StringSetting::Clear) => Some(seq![]),
        None => None,
    }
}

/// Append the parameter of an optional setting; a cleared one is sent empty.
pub fn push_string_setting(params: &mut Vec<FormParam>, key: &str, value: Option<StringSetting>)
    ensures
        params_view(final(params)@) == params_view(old(params)@) + str_param(
            key@,
            setting_view(value),
        ),
{
    match value {
        Some(StringSetting::Value(v)) => push_str(params, key, Some(v)),
        Some(StringSetting::Clear) => {
            push_str(params, key, Some(""));
            proof {
                reveal_strlit("");
                assert(""@ =~= Seq::<char>::empty());
                assert(str_param(key@, Some(""@)) =~= str_param(key@, setting_view(value)));
            }
        },
        None => {
            assert(params_view(params@) =~= params_view(params@) + str_param(key@, setting_view(value)));
        },
    }
}

/// The writable settings of a Messaging Service; each is sent only when set.
#[derive(Clone, Copy)]
pub struct ServiceFields<'a> {
    pub friendly_name: Option<&'a str>,
    pub inbound_request_url: Option<StringSetting<'a>>,
    pub inbound_method: Option<HttpMethod>,
    pub fallback_url: Option<StringSetting<'a>>,
    pub fallback_method: Option<HttpMethod>,
    pub status_callback: Option<StringSetting<'a>>,
    pub sticky_sender: Option<bool>,
    pub mms_converter: Option<bool>,
    pub smart_encoding: Option<bool>,
    pub scan_message_content: Option<ScanMessageContent>,
    pub fallback_to_long_code: Option<bool>,
    pub area_code_geomatch: Option<bool>,
    pub synchronous_validation: Option<bool>,
    pub validity_period: Option<u32>,
    pub usecase: Option<ServiceUsecase>,
    pub use_inbound_webhook_on_number: Option<bool>,
}

impl<'a> ServiceFields<'a> {
    /// No setting chosen.
    pub fn empty() -> (r: Self)
        ensures
            r.none_set(),
    {
        ServiceFields {
            friendly_name: None,
            inbound_request_url: None,
            inbound_method: None,
            fallback_url: None,
            fallback_method: None,
            status_callback: None,
            sticky_sender: None,
            mms_converter: None,
            smart_encoding: None,
            scan_message_content: None,
            fallback_to_long_code: None,
            area_code_geomatch: None,
            synchronous_validation: None,
            validity_period: None,
            usecase: None,
            use_inbound_webhook_on_number: None,
        }
    }

    /// No setting is chosen.
    pub open spec fn none_set(self) -> bool {
        self.friendly_name is None
            && self.inbound_request_url is None
            && self.inbound_method is None
            && self.fallback_url is None
            && self.fallback_method is None
            && self.status_callback is None
            && self.sticky_sender is None
            && self.mms_converter is None
            && self.smart_encoding is None
            && self.scan_message_content is None
            && self.fallback_to_long_code is None
            && self.area_code_geomatch is None
            && self.synchronous_validation is None
            && self.validity_period is None
            && self.usecase is None
            && self.use_inbound_webhook_on_number is None
    }

    /// The form parameters of these settings, in the order they are sent.
    pub open spec fn spec_form_params(self) -> ParamSeq {
        str_param("FriendlyName"@, opt_view(self.friendly_name))
            + str_param("InboundRequestUrl"@, setting_view(self.inbound_request_url))
            + str_param("InboundMethod"@, enum_view(self.inbound_method))
            + str_param("FallbackUrl"@, setting_view(self.fallback_url))
            + str_param("FallbackMethod"@, enum_view(self.fallback_method))
            + str_param("StatusCallback"@, setting_view(self.status_callback))
            + bool_param("StickySender"@, self.sticky_sender)
            + bool_param("MmsConverter"@, self.mms_converter)
            + bool_param("SmartEncoding"@, self.smart_encoding)
            + str_param("ScanMessageContent"@, enum_view(self.scan_message_content))
            + bool_param("FallbackToLongCode"@, self.fallback_to_long_code)
            + bool_param("AreaCodeGeomatch"@, self.area_code_geomatch)
            + bool_param("SynchronousValidation"@, self.synchronous_validation)
            + u32_param("ValidityPeriod"@, self.validity_period)
            + str_param("Usecase"@, enum_view(self.usecase))
            + bool_param("UseInboundWebhookOnNumber"@, self.use_inbound_webhook_on_number)
    }

    /// Encode these settings as form parameters.
    pub fn form_params(self) -> (params: Vec<FormParam>)
        ensures
            params_view(params@) == self.spec_form_params(),
    {
        let mut params = Vec::new();
        push_str(&mut params, "FriendlyName", self.friendly_name);
        push_string_setting(&mut params, "InboundRequestUrl", self.inbound_request_url);
        push_enum(&mut params, "InboundMethod", self.inbound_method);
        push_string_setting(&mut params, "FallbackUrl", self.fallback_url);
        push_enum(&mut params, "FallbackMethod", self.fallback_method);
        push_string_setting(&mut params, "StatusCallback", self.status_callback);
        push_bool(&mut params, "StickySender", self.sticky_sender);
        push_bool(&mut params, "MmsConverter", self.mms_converter);
        push_bool(&mut params, "SmartEncoding", self.smart_encoding);
        push_enum(&mut params, "ScanMessageContent", self.scan_message_content);
        push_bool(&mut params, "FallbackToLongCode", self.fallback_to_long_code);
        push_bool(&mut params, "AreaCodeGeomatch", self.area_code_geomatch);
        push_bool(&mut params, "SynchronousValidation", self.synchronous_validation);
        push_u32(&mut params, "ValidityPeriod", self.validity_period);
        push_enum(&mut params, "Usecase", self.usecase);
        push_bool(&mut params, "UseInboundWebhookOnNumber", self.use_inbound_webhook_on_number);
        assert(params_view(params@) =~= self.spec_form_params());
        params
    }

    /// Whether no setting would be sent.
    pub fn is_empty(self) -> (b: bool)
        ensures
            b == (self.spec_form_params().len() == 0),
    {
        let params = self.form_params();
        params.len() == 0
    }

    /// The first documented limit these settings break, as its error text.
    pub open spec fn limits_violation(self) -> Option<Seq<char>> {
        if self.friendly_name matches Some(f) && is_blank(f@) {
            Some("FriendlyName must not be empty"@)
        } else if self.friendly_name matches Some(f) && f@.len() > 64 {
            Some("FriendlyName must be at most 64 characters"@)
        } else if self.validity_period matches Some(v) && !(1 <= v <= 36000) {
            Some("ValidityPeriod must be in 1..=36000"@)
        } else {
            None
        }
    }

    /// Check the documented limits on a Service's name and validity period.
    pub fn validate_documented_limits(self) -> (r: Result<(), TwilioError>)
        ensures
            check_outcome(r, self.limits_violation()),
    {
        if let Some(name) = self.friendly_name {
            if str_is_blank(name) {
                return Err(invalid("FriendlyName must not be empty"));
            }
            if name.unicode_len() > SERVICE_FRIENDLY_NAME_MAX_CHARS {
                return Err(invalid("FriendlyName must be at most 64 characters"));
            }
        }
        if let Some(v) = self.validity_period {
            if !(SERVICE_VALIDITY_PERIOD_MIN_SECONDS <= v && v <= SERVICE_VALIDITY_PERIOD_MAX_SECONDS) {
                return Err(invalid("ValidityPeriod must be in 1..=36000"));
            }
        }
        Ok(())
    }
}

/// Settings send nothing exactly when none is chosen.
pub proof fn lemma_service_fields_empty(f: ServiceFields)
    ensures
        f.spec_form_params().len() == 0 <==> f.none_set(),
{
}

/// Request body for `POST /Services`.
#[derive(Clone, Copy)]
pub struct CreateServiceRequest<'a> {
    pub fields: ServiceFields<'a>,
}

impl<'a> CreateServiceRequest<'a> {
    /// A new Service named `friendly_name`, with no other setting chosen.
    pub fn new(friendly_name: &'a str) -> (r: Self)
        ensures
            r.fields == (ServiceFields { friendly_name: Some(friendly_name), ..r.fields }),
            (ServiceFields { friendly_name: None, ..r.fields }).none_set(),
    {
        CreateServiceRequest { fields: ServiceFields { friendly_name: Some(friendly_name), ..ServiceFields::empty() } }
    }

    pub fn friendly_name(self, value: &'a str) -> (r: Self)
        ensures
            r == (CreateServiceRequest { fields: ServiceFields { friendly_name: Some(value), ..self.fields } }),
    {
        CreateServiceRequest { fields: ServiceFields { friendly_name: Some(value), ..self.fields } }
    }

    pub fn inbound_request_url(self, value: &'a str) -> (r: Self)
        ensures
            r == (CreateServiceRequest { fields: ServiceFields { inbound_request_url: Some(StringSetting::Value(value)), ..self.fields } }),
    {
        CreateServiceRequest { fields: ServiceFields { inbound_request_url: Some(StringSetting::Value(value)), ..self.fields } }
    }

    pub fn clear_inbound_request_url(self) -> (r: Self)
        ensures
            r == (CreateServiceRequest { fields: ServiceFields { inbound_request_url: Some(StringSetting::Clear), ..self.fields } }),
    {
        CreateServiceRequest { fields: ServiceFields { inbound_request_url: Some(StringSetting::Clear), ..self.fields } }
    }

    pub fn inbound_method(self, value: HttpMethod) -> (r: Self)
        ensures
            r == (CreateServiceRequest { fields: ServiceFields { inbound_method: Some(value), ..self.fields } }),
    {
        CreateServiceRequest { fields: ServiceFields { inbound_method: Some(value), ..self.fields } }
    }

    pub fn fallback_url(self, value: &'a str) -> (r: Self)
        ensures
            r == (CreateServiceRequest { fields: ServiceFields { fallback_url: Some(StringSetting::Value(value)), ..self.fields } }),
    {
        CreateServiceRequest { fields: ServiceFields { fallback_url: Some(StringSetting::Value(value)), ..self.fields } }
    }

    pub fn clear_fallback_url(self) -> (r: Self)
        ensures
            r == (CreateServiceRequest { fields: ServiceFields { fallback_url: Some(StringSetting::Clear), ..self.fields } }),
    {
        CreateServiceRequest { fields: ServiceFields { fallback_url: Some(StringSetting::Clear), ..self.fields } }
    }

    pub fn fallback_method(self, value: HttpMethod) -> (r: Self)
        ensures
            r == (CreateServiceRequest { fields: ServiceFields { fallback_method: Some(value), ..self.fields } }),
    {
        CreateServiceRequest { fields: ServiceFields { fallback_method: Some(value), ..self.fields } }
    }

    pub fn status_callback(self, value: &'a str) -> (r: Self)
        ensures
            r == (CreateServiceRequest { fields: ServiceFields { status_callback: Some(StringSetting::Value(value)), ..self.fields } }),
    {
        CreateServiceRequest { fields: ServiceFields { status_callback: Some(StringSetting::Value(value)), ..self.fields } }
    }

    pub fn clear_status_callback(self) -> (r: Self)
        ensures
            r == (CreateServiceRequest { fields: ServiceFields { status_callback: Some(StringSetting::Clear), ..self.fields } }),
    {
        CreateServiceRequest { fields: ServiceFields { status_callback: Some(StringSetting::Clear), ..self.fields } }
    }

    pub fn sticky_sender(self, value: bool) -> (r: Self)
        ensures
            r == (CreateServiceRequest { fields: ServiceFields { sticky_sender: Some(value), ..self.fields } }),
    {
        CreateServiceRequest { fields: ServiceFields { sticky_sender: Some(value), ..self.fields } }
    }

    pub fn mms_converter(self, value: bool) -> (r: Self)
        ensures
            r == (CreateServiceRequest { fields: ServiceFields { mms_converter: Some(value), ..self.fields } }),
    {
        CreateServiceRequest { fields: ServiceFields { mms_converter: Some(value), ..self.fields } }
    }

    pub fn smart_encoding(self, value: bool) -> (r: Self)
        ensures
            r == (CreateServiceRequest { fields: ServiceFields { smart_encoding: Some(value), ..self.fields } }),
    {
        CreateServiceRequest { fields: ServiceFields { smart_encoding: Some(value), ..self.fields } }
    }

    pub fn scan_message_content(self, value: ScanMessageContent) -> (r: Self)
        ensures
            r == (CreateServiceRequest { fields: ServiceFields { scan_message_content: Some(value), ..self.fields } }),
    {
        CreateServiceRequest { fields: ServiceFields { scan_message_content: Some(value), ..self.fields } }
    }

    pub fn fallback_to_long_code(self, value: bool) -> (r: Self)
        ensures
            r == (CreateServiceRequest { fields: ServiceFields { fallback_to_long_code: Some(value), ..self.fields } }),
    {
        CreateServiceRequest { fields: ServiceFields { fallback_to_long_code: Some(value), ..self.fields } }
    }

    pub fn area_code_geomatch(self, value: bool) -> (r: Self)
        ensures
            r == (CreateServiceRequest { fields: ServiceFields { area_code_geomatch: Some(value), ..self.fields } }),
    {
        CreateServiceRequest { fields: ServiceFields { area_code_geomatch: Some(value), ..self.fields } }
    }

    pub fn synchronous_validation(self, value: bool) -> (r: Self)
        ensures
            r == (CreateServiceRequest { fields: ServiceFields { synchronous_validation: Some(value), ..self.fields } }),
    {
        CreateServiceRequest { fields: ServiceFields { synchronous_validation: Some(value), ..self.fields } }
    }

    pub fn validity_period(self, value: u32) -> (r: Self)
        ensures
            r == (CreateServiceRequest { fields: ServiceFields { validity_period: Some(value), ..self.fields } }),
    {
        CreateServiceRequest { fields: ServiceFields { validity_period: Some(value), ..self.fields } }
    }

    pub fn usecase(self, value: ServiceUsecase) -> (r: Self)
        ensures
            r == (CreateServiceRequest { fields: ServiceFields { usecase: Some(value), ..self.fields } }),
    {
        CreateServiceRequest { fields: ServiceFields { usecase: Some(value), ..self.fields } }
    }

    pub fn use_inbound_webhook_on_number(self, value: bool) -> (r: Self)
        ensures
            r == (CreateServiceRequest { fields: ServiceFields { use_inbound_webhook_on_number: Some(value), ..self.fields } }),
    {
        CreateServiceRequest { fields: ServiceFields { use_inbound_webhook_on_number: Some(value), ..self.fields } }
    }

    /// The first documented rule this request breaks, as its error text.
    pub open spec fn violation(&self) -> Option<Seq<char>> {
        if !has_text(opt_view(self.fields.friendly_name)) {
            Some("FriendlyName must not be empty"@)
        } else {
            self.fields.limits_violation()
        }
    }

    /// Check the documented rules on a new Service.
    pub fn validate(&self) -> (r: Result<(), TwilioError>)
        ensures
            check_outcome(r, self.violation()),
    {
        if !opt_has_text(self.fields.friendly_name) {
            return Err(invalid("FriendlyName must not be empty"));
        }
        self.fields.validate_documented_limits()
    }

    /// The form parameters of this request, in the order they are sent.
    pub open spec fn spec_form_params(&self) -> ParamSeq {
        self.fields.spec_form_params()
    }

    /// Encode this request as form parameters.
    pub fn form_params(&self) -> (params: Vec<FormParam>)
        ensures
            params_view(params@) == self.spec_form_params(),
    {
        self.fields.form_params()
    }
}

/// Request body for `POST /Services/{Sid}`.
#[derive(Clone, Copy)]
pub struct UpdateServiceRequest<'a> {
    pub fields: ServiceFields<'a>,
}

impl<'a> UpdateServiceRequest<'a> {
    /// An update that changes nothing yet.
    pub fn new() -> (r: Self)
        ensures
            r.fields.none_set(),
    {
        UpdateServiceRequest { fields: ServiceFields::empty() }
    }

    pub fn friendly_name(self, value: &'a str) -> (r: Self)
        ensures
            r == (UpdateServiceRequest { fields: ServiceFields { friendly_name: Some(value), ..self.fields } }),
    {
        UpdateServiceRequest { fields: ServiceFields { friendly_name: Some(value), ..self.fields } }
    }

    pub fn inbound_request_url(self, value: &'a str) -> (r: Self)
        ensures
            r == (UpdateServiceRequest { fields: ServiceFields { inbound_request_url: Some(StringSetting::Value(value)), ..self.fields } }),
    {
        UpdateServiceRequest { fields: ServiceFields { inbound_request_url: Some(StringSetting::Value(value)), ..self.fields } }
    }

    pub fn clear_inbound_request_url(self) -> (r: Self)
        ensures
            r == (UpdateServiceRequest { fields: ServiceFields { inbound_request_url: Some(StringSetting::Clear), ..self.fields } }),
    {
        UpdateServiceRequest { fields: ServiceFields { inbound_request_url: Some(StringSetting::Clear), ..self.fields } }
    }

    pub fn inbound_method(self, value: HttpMethod) -> (r: Self)
        ensures
            r == (UpdateServiceRequest { fields: ServiceFields { inbound_method: Some(value), ..self.fields } }),
    {
        UpdateServiceRequest { fields: ServiceFields { inbound_method: Some(value), ..self.fields } }
    }

    pub fn fallback_url(self, value: &'a str) -> (r: Self)
        ensures
            r == (UpdateServiceRequest { fields: ServiceFields { fallback_url: Some(StringSetting::Value(value)), ..self.fields } }),
    {
        UpdateServiceRequest { fields: ServiceFields { fallback_url: Some(StringSetting::Value(value)), ..self.fields } }
    }

    pub fn clear_fallback_url(self) -> (r: Self)
        ensures
            r == (UpdateServiceRequest { fields: ServiceFields { fallback_url: Some(StringSetting::Clear), ..self.fields } }),
    {
        UpdateServiceRequest { fields: ServiceFields { fallback_url: Some(StringSetting::Clear), ..self.fields } }
    }

    pub fn fallback_method(self, value: HttpMethod) -> (r: Self)
        ensures
            r == (UpdateServiceRequest { fields: ServiceFields { fallback_method: Some(value), ..self.fields } }),
    {
        UpdateServiceRequest { fields: ServiceFields { fallback_method: Some(value), ..self.fields } }
    }

    pub fn status_callback(self, value: &'a str) -> (r: Self)
        ensures
            r == (UpdateServiceRequest { fields: ServiceFields { status_callback: Some(StringSetting::Value(value)), ..self.fields } }),
    {
        UpdateServiceRequest { fields: ServiceFields { status_callback: Some(StringSetting::Value(value)), ..self.fields } }
    }

    pub fn clear_status_callback(self) -> (r: Self)
        ensures
            r == (UpdateServiceRequest { fields: ServiceFields { status_callback: Some(StringSetting::Clear), ..self.fields } }),
    {
        UpdateServiceRequest { fields: ServiceFields { status_callback: Some(StringSetting::Clear), ..self.fields } }
    }

    pub fn sticky_sender(self, value: bool) -> (r: Self)
        ensures
            r == (UpdateServiceRequest { fields: ServiceFields { sticky_sender: Some(value), ..self.fields } }),
    {
        UpdateServiceRequest { fields: ServiceFields { sticky_sender: Some(value), ..self.fields } }
    }

    pub fn mms_converter(self, value: bool) -> (r: Self)
        ensures
            r == (UpdateServiceRequest { fields: ServiceFields { mms_converter: Some(value), ..self.fields } }),
    {
        UpdateServiceRequest { fields: ServiceFields { mms_converter: Some(value), ..self.fields } }
    }

    pub fn smart_encoding(self, value: bool) -> (r: Self)
        ensures
            r == (UpdateServiceRequest { fields: ServiceFields { smart_encoding: Some(value), ..self.fields } }),
    {
        UpdateServiceRequest { fields: ServiceFields { smart_encoding: Some(value), ..self.fields } }
    }

    pub fn scan_message_content(self, value: ScanMessageContent) -> (r: Self)
        ensures
            r == (UpdateServiceRequest { fields: ServiceFields { scan_message_content: Some(value), ..self.fields } }),
    {
        UpdateServiceRequest { fields: ServiceFields { scan_message_content: Some(value), ..self.fields } }
    }

    pub fn fallback_to_long_code(self, value: bool) -> (r: Self)
        ensures
            r == (UpdateServiceRequest { fields: ServiceFields { fallback_to_long_code: Some(value), ..self.fields } }),
    {
        UpdateServiceRequest { fields: ServiceFields { fallback_to_long_code: Some(value), ..self.fields } }
    }

    pub fn area_code_geomatch(self, value: bool) -> (r: Self)
        ensures
            r == (UpdateServiceRequest { fields: ServiceFields { area_code_geomatch: Some(value), ..self.fields } }),
    {
        UpdateServiceRequest { fields: ServiceFields { area_code_geomatch: Some(value), ..self.fields } }
    }

    pub fn synchronous_validation(self, value: bool) -> (r: Self)
        ensures
            r == (UpdateServiceRequest { fields: ServiceFields { synchronous_validation: Some(value), ..self.fields } }),
    {
        UpdateServiceRequest { fields: ServiceFields { synchronous_validation: Some(value), ..self.fields } }
    }

    pub fn validity_period(self, value: u32) -> (r: Self)
        ensures
            r == (UpdateServiceRequest { fields: ServiceFields { validity_period: Some(value), ..self.fields } }),
    {
        UpdateServiceRequest { fields: ServiceFields { validity_period: Some(value), ..self.fields } }
    }

    pub fn usecase(self, value: ServiceUsecase) -> (r: Self)
        ensures
            r == (UpdateServiceRequest { fields: ServiceFields { usecase: Some(value), ..self.fields } }),
    {
        UpdateServiceRequest { fields: ServiceFields { usecase: Some(value), ..self.fields } }
    }

    pub fn use_inbound_webhook_on_number(self, value: bool) -> (r: Self)
        ensures
            r == (UpdateServiceRequest { fields: ServiceFields { use_inbound_webhook_on_number: Some(value), ..self.fields } }),
    {
        UpdateServiceRequest { fields: ServiceFields { use_inbound_webhook_on_number: Some(value), ..self.fields } }
    }

    /// The first documented rule this request breaks, as its error text.
    pub open spec fn violation(&self) -> Option<Seq<char>> {
        if self.fields.spec_form_params().len() == 0 {
            Some("service update requires at least one field"@)
        } else {
            self.fields.limits_violation()
        }
    }

    /// Check the documented rules on a Service update.
    pub fn validate(&self) -> (r: Result<(), TwilioError>)
        ensures
            check_outcome(r, self.violation()),
    {
        if self.fields.is_empty() {
            return Err(invalid("service update requires at least one field"));
        }
        self.fields.validate_documented_limits()
    }

    /// The form parameters of this request, in the order they are sent.
    pub open spec fn spec_form_params(&self) -> ParamSeq {
        self.fields.spec_form_params()
    }

    /// Encode this request as form parameters.
    pub fn form_params(&self) -> (params: Vec<FormParam>)
        ensures
            params_view(params@) == self.spec_form_params(),
    {
        self.fields.form_params()
    }
}

/// The query parameters of a v1 page request, in the order they are sent.
pub open spec fn v1_page_pairs(page_size: Option<u32>, page: Option<u32>, page_token: Option<&str>) -> ParamSeq {
    u32_param("PageSize"@, page_size) + u32_param("Page"@, page) + str_param("PageToken"@, opt_view(page_token))
}

/// Append the query parameters of a v1 page request.
pub fn push_v1_page_query(
    params: &mut Vec<FormParam>,
    page_size: Option<u32>,
    page: Option<u32>,
    page_token: Option<&str>,
)
    ensures
        params_view(final(params)@) == params_view(old(params)@) + v1_page_pairs(page_size, page, page_token),
{
    push_u32(params, "PageSize", page_size);
    push_u32(params, "Page", page);
    push_str(params, "PageToken", page_token);
    assert(params_view(final(params)@) =~= params_view(old(params)@) + v1_page_pairs(page_size, page, page_token));
}

/// Query parameters for `GET /Services`.
#[derive(Clone, Copy)]
pub struct ListServicesRequest<'a> {
    pub page_size: Option<u32>,
    pub page: Option<u32>,
    pub page_token: Option<&'a str>,
}

impl<'a> ListServicesRequest<'a> {
    pub fn new() -> (r: Self)
        ensures
            r.page_size is None,
            r.page is None,
            r.page_token is None,
    {
        ListServicesRequest { page_size: None, page: None, page_token: None }
    }

    pub fn page_size(self, value: u32) -> (r: Self)
        ensures
            r == (ListServicesRequest { page_size: Some(value), ..self }),
    {
        ListServicesRequest { page_size: Some(value), ..self }
    }

    pub fn page(self, value: u32) -> (r: Self)
        ensures
            r == (ListServicesRequest { page: Some(value), ..self }),
    {
        ListServicesRequest { page: Some(value), ..self }
    }

    pub fn page_token(self, value: &'a str) -> (r: Self)
        ensures
            r == (ListServicesRequest { page_token: Some(value), ..self }),
    {
        ListServicesRequest { page_token: Some(value), ..self }
    }

    /// The first documented rule this request breaks, as its error text.
    pub open spec fn violation(&self) -> Option<Seq<char>> {
        page_size_violation(self.page_size)
    }

    /// Check the documented rules on this request.
    pub fn validate(&self) -> (r: Result<(), TwilioError>)
        ensures
            check_outcome(r, self.violation()),
    {
        validate_page_size(self.page_size)
    }

    /// The query parameters of this request, in the order they are sent.
    pub open spec fn spec_query_pairs(&self) -> ParamSeq {
        v1_page_pairs(self.page_size, self.page, self.page_token)
    }

    /// Encode this request as query parameters.
    pub fn query_pairs(&self) -> (params: Vec<FormParam>)
        ensures
            params_view(params@) == self.spec_query_pairs(),
    {
        let mut params = Vec::new();
        push_v1_page_query(&mut params, self.page_size, self.page, self.page_token);
        assert(params_view(params@) =~= self.spec_query_pairs());
        params
    }
}

/// Query parameters for common Service subresource list endpoints.
#[derive(Clone, Copy)]
pub struct ListServiceSubresourcesRequest<'a> {
    pub page_size: Option<u32>,
    pub page: Option<u32>,
    pub page_token: Option<&'a str>,
}

impl<'a> ListServiceSubresourcesRequest<'a> {
    pub fn new() -> (r: Self)
        ensures
            r.page_size is None,
            r.page is None,
            r.page_token is None,
    {
        ListServiceSubresourcesRequest { page_size: None, page: None, page_token: None }
    }

    pub fn page_size(self, value: u32) -> (r: Self)
        ensures
            r == (ListServiceSubresourcesRequest { page_size: Some(value), ..self }),
    {
        ListServiceSubresourcesRequest { page_size: Some(value), ..self }
    }

    pub fn page(self, value: u32) -> (r: Self)
        ensures
            r == (ListServiceSubresourcesRequest { page: Some(value), ..self }),
    {
        ListServiceSubresourcesRequest { page: Some(value), ..self }
    }

    pub fn page_token(self, value: &'a str) -> (r: Self)
        ensures
            r == (ListServiceSubresourcesRequest { page_token: Some(value), ..self }),
    {
        ListServiceSubresourcesRequest { page_token: Some(value), ..self }
    }

    /// The first documented rule this request breaks, as its error text.
    pub open spec fn violation(&self) -> Option<Seq<char>> {
        page_size_violation(self.page_size)
    }

    /// Check the documented rules on this request.
    pub fn validate(&self) -> (r: Result<(), TwilioError>)
        ensures
            check_outcome(r, self.violation()),
    {
        validate_page_size(self.page_size)
    }

    /// The query parameters of this request, in the order they are sent.
    pub open spec fn spec_query_pairs(&self) -> ParamSeq {
        v1_page_pairs(self.page_size, self.page, self.page_token)
    }

    /// Encode this request as query parameters.
    pub fn query_pairs(&self) -> (params: Vec<FormParam>)
        ensures
            params_view(params@) == self.spec_query_pairs(),
    {
        let mut params = Vec::new();
        push_v1_page_query(&mut params, self.page_size, self.page, self.page_token);
        assert(params_view(params@) =~= self.spec_query_pairs());
        params
    }
}

/// Query parameters for `GET /Services/{ServiceSid}/DestinationAlphaSenders`.
#[derive(Clone, Copy)]
pub struct ListDestinationAlphaSendersRequest<'a> {
    pub iso_country_code: Option<&'a str>,
    pub page_size: Option<u32>,
    pub page: Option<u32>,
    pub page_token: Option<&'a str>,
}

impl<'a> ListDestinationAlphaSendersRequest<'a> {
    pub fn new() -> (r: Self)
        ensures
            r.iso_country_code is None,
            r.page_size is None,
            r.page is None,
            r.page_token is None,
    {
        ListDestinationAlphaSendersRequest { iso_country_code: None, page_size: None, page: None, page_token: None }
    }

    pub fn iso_country_code(self, value: &'a str) -> (r: Self)
        ensures
            r == (ListDestinationAlphaSendersRequest { iso_country_code: Some(value), ..self }),
    {
        ListDestinationAlphaSendersRequest { iso_country_code: Some(value), ..self }
    }

    pub fn page_size(self, value: u32) -> (r: Self)
        ensures
            r == (ListDestinationAlphaSendersRequest { page_size: Some(value), ..self }),
    {
        ListDestinationAlphaSendersRequest { page_size: Some(value), ..self }
    }

    pub fn page(self, value: u32) -> (r: Self)
        ensures
            r == (ListDestinationAlphaSendersRequest { page: Some(value), ..self }),
    {
        ListDestinationAlphaSendersRequest { page: Some(value), ..self }
    }

    pub fn page_token(self, value: &'a str) -> (r: Self)
        ensures
            r == (ListDestinationAlphaSendersRequest { page_token: Some(value), ..self }),
    {
        ListDestinationAlphaSendersRequest { page_token: Some(value), ..self }
    }

    /// The first documented rule this request breaks, as its error text.
    pub open spec fn violation(&self) -> Option<Seq<char>> {
        page_size_violation(self.page_size)
    }

    /// Check the documented rules on this request.
    pub fn validate(&self) -> (r: Result<(), TwilioError>)
        ensures
            check_outcome(r, self.violation()),
    {
        validate_page_size(self.page_size)
    }

    /// The query parameters of this request, in the order they are sent.
    pub open spec fn spec_query_pairs(&self) -> ParamSeq {
        str_param("IsoCountryCode"@, opt_view(self.iso_country_code)) + v1_page_pairs(self.page_size, self.page, self.page_token)
    }

    /// Encode this request as query parameters.
    pub fn query_pairs(&self) -> (params: Vec<FormParam>)
        ensures
            params_view(params@) == self.spec_query_pairs(),
    {
        let mut params = Vec::new();
        push_str(&mut params, "IsoCountryCode", self.iso_country_code);
        push_v1_page_query(&mut params, self.page_size, self.page, self.page_token);
        assert(params_view(params@) =~= self.spec_query_pairs());
        params
    }
}

/// Reject a blank required value of `name`.
pub fn validate_required(name: &str, value: &str) -> (r: Result<(), TwilioError>)
    ensures
        check_outcome(
            r,
            if is_blank(value@) {
                Some(must_not_be_empty(name@))
            } else {
                None
            },
        ),
{
    require_nonempty(name, value)
}

/// Request body for adding a phone number to a Messaging Service.
#[derive(Clone, Copy)]
pub struct CreateServicePhoneNumberRequest<'a> {
    pub phone_number_sid: &'a str,
}

impl<'a> CreateServicePhoneNumberRequest<'a> {
    pub fn new(phone_number_sid: &'a str) -> (r: Self)
        ensures
            r.phone_number_sid == phone_number_sid,
    {
        CreateServicePhoneNumberRequest { phone_number_sid }
    }

    /// The first documented rule this request breaks, as its error text.
    pub open spec fn violation(&self) -> Option<Seq<char>> {
        if is_blank(self.phone_number_sid@) {
            Some(must_not_be_empty("PhoneNumberSid"@))
        } else {
            None
        }
    }

    /// Check that the `PhoneNumberSid` is not blank.
    pub fn validate(&self) -> (r: Result<(), TwilioError>)
        ensures
            check_outcome(r, self.violation()),
    {
        validate_required("PhoneNumberSid", self.phone_number_sid)
    }

    /// The form parameters of this request.
    pub open spec fn spec_form_params(&self) -> ParamSeq {
        str_param("PhoneNumberSid"@, Some(self.phone_number_sid@))
    }

    /// Encode this request as form parameters.
    pub fn form_params(&self) -> (params: Vec<FormParam>)
        ensures
            params_view(params@) == self.spec_form_params(),
    {
        let mut params = Vec::new();
        push_str(&mut params, "PhoneNumberSid", Some(self.phone_number_sid));
        assert(params_view(params@) =~= self.spec_form_params());
        params
    }
}

/// Request body for adding a short code to a Messaging Service.
#[derive(Clone, Copy)]
pub struct CreateServiceShortCodeRequest<'a> {
    pub short_code_sid: &'a str,
}

impl<'a> CreateServiceShortCodeRequest<'a> {
    pub fn new(short_code_sid: &'a str) -> (r: Self)
        ensures
            r.short_code_sid == short_code_sid,
    {
        CreateServiceShortCodeRequest { short_code_sid }
    }

    /// The first documented rule this request breaks, as its error text.
    pub open spec fn violation(&self) -> Option<Seq<char>> {
        if is_blank(self.short_code_sid@) {
            Some(must_not_be_empty("ShortCodeSid"@))
        } else {
            None
        }
    }

    /// Check that the `ShortCodeSid` is not blank.
    pub fn validate(&self) -> (r: Result<(), TwilioError>)
        ensures
            check_outcome(r, self.violation()),
    {
        validate_required("ShortCodeSid", self.short_code_sid)
    }

    /// The form parameters of this request.
    pub open spec fn spec_form_params(&self) -> ParamSeq {
        str_param("ShortCodeSid"@, Some(self.short_code_sid@))
    }

    /// Encode this request as form parameters.
    pub fn form_params(&self) -> (params: Vec<FormParam>)
        ensures
            params_view(params@) == self.spec_form_params(),
    {
        let mut params = Vec::new();
        push_str(&mut params, "ShortCodeSid", Some(self.short_code_sid));
        assert(params_view(params@) =~= self.spec_form_params());
        params
    }
}

/// Request body for adding an alphanumeric sender to a Messaging Service.
#[derive(Clone, Copy)]
pub struct CreateAlphaSenderRequest<'a> {
    pub alpha_sender: &'a str,
}

impl<'a> CreateAlphaSenderRequest<'a> {
    pub fn new(alpha_sender: &'a str) -> (r: Self)
        ensures
            r.alpha_sender == alpha_sender,
    {
        CreateAlphaSenderRequest { alpha_sender }
    }

    /// The first documented rule this request breaks, as its error text.
    pub open spec fn violation(&self) -> Option<Seq<char>> {
        if is_blank(self.alpha_sender@) {
            Some(must_not_be_empty("AlphaSender"@))
        } else {
            None
        }
    }

    /// Check that the `AlphaSender` is not blank.
    pub fn validate(&self) -> (r: Result<(), TwilioError>)
        ensures
            check_outcome(r, self.violation()),
    {
        validate_required("AlphaSender", self.alpha_sender)
    }

    /// The form parameters of this request.
    pub open spec fn spec_form_params(&self) -> ParamSeq {
        str_param("AlphaSender"@, Some(self.alpha_sender@))
    }

    /// Encode this request as form parameters.
    pub fn form_params(&self) -> (params: Vec<FormParam>)
        ensures
            params_view(params@) == self.spec_form_params(),
    {
        let mut params = Vec::new();
        push_str(&mut params, "AlphaSender", Some(self.alpha_sender));
        assert(params_view(params@) =~= self.spec_form_params());
        params
    }
}

/// Request body for adding a channel sender to a Messaging Service.
#[derive(Clone, Copy)]
pub struct CreateChannelSenderRequest<'a> {
    pub sid: &'a str,
}

impl<'a> CreateChannelSenderRequest<'a> {
    pub fn new(sid: &'a str) -> (r: Self)
        ensures
            r.sid == sid,
    {
        CreateChannelSenderRequest { sid }
    }

    /// The first documented rule this request breaks, as its error text.
    pub open spec fn violation(&self) -> Option<Seq<char>> {
        if is_blank(self.sid@) {
            Some(must_not_be_empty("Sid"@))
        } else {
            None
        }
    }

    /// Check that the `Sid` is not blank.
    pub fn validate(&self) -> (r: Result<(), TwilioError>)
        ensures
            check_outcome(r, self.violation()),
    {
        validate_required("Sid", self.sid)
    }

    /// The form parameters of this request.
    pub open spec fn spec_form_params(&self) -> ParamSeq {
        str_param("Sid"@, Some(self.sid@))
    }

    /// Encode this request as form parameters.
    pub fn form_params(&self) -> (params: Vec<FormParam>)
        ensures
            params_view(params@) == self.spec_form_params(),
    {
        let mut params = Vec::new();
        push_str(&mut params, "Sid", Some(self.sid));
        assert(params_view(params@) =~= self.spec_form_params());
        params
    }
}

/// Request body for adding a destination alphanumeric sender to a Messaging Service.
#[derive(Clone, Copy)]
pub struct CreateDestinationAlphaSenderRequest<'a> {
    pub alpha_sender: &'a str,
    pub iso_country_code: Option<&'a str>,
}

impl<'a> CreateDestinationAlphaSenderRequest<'a> {
    pub fn new(alpha_sender: &'a str) -> (r: Self)
        ensures
            r.alpha_sender == alpha_sender,
            r.iso_country_code is None,
    {
        CreateDestinationAlphaSenderRequest { alpha_sender, iso_country_code: None }
    }

    pub fn iso_country_code(self, value: &'a str) -> (r: Self)
        ensures
            r == (CreateDestinationAlphaSenderRequest { iso_country_code: Some(value), ..self }),
    {
        CreateDestinationAlphaSenderRequest { iso_country_code: Some(value), ..self }
    }

    /// The first documented rule this request breaks, as its error text.
    pub open spec fn violation(&self) -> Option<Seq<char>> {
        if is_blank(self.alpha_sender@) {
            Some(must_not_be_empty("AlphaSender"@))
        } else {
            None
        }
    }

    /// Check that the `AlphaSender` is not blank.
    pub fn validate(&self) -> (r: Result<(), TwilioError>)
        ensures
            check_outcome(r, self.violation()),
    {
        validate_required("AlphaSender", self.alpha_sender)
    }

    /// The form parameters of this request, in the order they are sent.
    pub open spec fn spec_form_params(&self) -> ParamSeq {
        str_param("AlphaSender"@, Some(self.alpha_sender@)) + str_param("IsoCountryCode"@, opt_view(self.iso_country_code))
    }

    /// Encode this request as form parameters.
    pub fn form_params(&self) -> (params: Vec<FormParam>)
        ensures
            params_view(params@) == self.spec_form_params(),
    {
        let mut params = Vec::new();
        push_str(&mut params, "AlphaSender", Some(self.alpha_sender));
        push_str(&mut params, "IsoCountryCode", self.iso_country_code);
        assert(params_view(params@) =~= self.spec_form_params());
        params
    }
}


/// A Twilio Messaging Service.
#[derive(Clone)]
pub struct TwilioService {
    pub account_sid: Option<String>,
    pub friendly_name: Option<String>,
    pub sid: Option<String>,
    pub date_created: Option<time::OffsetDateTime>,
    pub date_updated: Option<time::OffsetDateTime>,
    pub sticky_sender: Option<bool>,
    pub mms_converter: Option<bool>,
    pub smart_encoding: Option<bool>,
    pub fallback_to_long_code: Option<bool>,
    pub scan_message_content: Option<String>,
    pub synchronous_validation: Option<bool>,
    pub area_code_geomatch: Option<bool>,
    pub validity_period: Option<i64>,
    pub inbound_request_url: Option<String>,
    pub inbound_method: Option<String>,
    pub fallback_url: Option<String>,
    pub fallback_method: Option<String>,
    pub status_callback: Option<String>,
    pub usecase: Option<String>,
    pub us_app_to_person_registered: Option<bool>,
    pub use_inbound_webhook_on_number: Option<bool>,
    pub links: Option<BTreeMap<String, String>>,
    pub url: Option<String>,
}

impl TwilioService {
    /// The fields of this record's debug text, in order, with the fields
    /// that identify an account, a person or a business hidden.
    pub open spec fn spec_debug_fields(&self) -> Seq<(Seq<char>, Seq<char>)> {
        seq![
            ("account_sid"@, redacted_text(self.account_sid is Some)),
            ("friendly_name"@, redacted_text(self.friendly_name is Some)),
            ("sid"@, redacted_text(self.sid is Some)),
            ("date_created"@, opt_timestamp_debug(self.date_created)),
            ("date_updated"@, opt_timestamp_debug(self.date_updated)),
            ("sticky_sender"@, opt_bool_debug(self.sticky_sender)),
            ("mms_converter"@, opt_bool_debug(self.mms_converter)),
            ("smart_encoding"@, opt_bool_debug(self.smart_encoding)),
            ("fallback_to_long_code"@, opt_bool_debug(self.fallback_to_long_code)),
            ("scan_message_content"@, opt_str_debug(self.scan_message_content)),
            ("synchronous_validation"@, opt_bool_debug(self.synchronous_validation)),
            ("area_code_geomatch"@, opt_bool_debug(self.area_code_geomatch)),
            ("validity_period"@, opt_i64_debug(self.validity_period)),
            ("inbound_request_url"@, redacted_text(self.inbound_request_url is Some)),
            ("inbound_method"@, opt_str_debug(self.inbound_method)),
            ("fallback_url"@, redacted_text(self.fallback_url is Some)),
            ("fallback_method"@, opt_str_debug(self.fallback_method)),
            ("status_callback"@, redacted_text(self.status_callback is Some)),
            ("usecase"@, opt_str_debug(self.usecase)),
            ("us_app_to_person_registered"@, opt_bool_debug(self.us_app_to_person_registered)),
            ("use_inbound_webhook_on_number"@, opt_bool_debug(self.use_inbound_webhook_on_number)),
            ("links"@, redacted_text(self.links is Some)),
            ("url"@, redacted_text(self.url is Some)),
        ]
    }

    /// The debug text of this record, with the fields that identify an
    /// account, a person or a business hidden as `[REDACTED]`.
    pub open spec fn spec_debug_text(&self) -> Seq<char> {
        debug_struct_text("TwilioService"@, self.spec_debug_fields())
    }

    /// Write the debug text of this record.
    pub fn debug_text(&self) -> (s: String)
        ensures
            s@ == self.spec_debug_text(),
    {
        let mut d = DebugStructText::new("TwilioService");
        d.field("account_sid", redacted(self.account_sid.is_some()));
        d.field("friendly_name", redacted(self.friendly_name.is_some()));
        d.field("sid", redacted(self.sid.is_some()));
        let v = debug_opt_timestamp(&self.date_created);
        d.field("date_created", v.as_str());
        let v = debug_opt_timestamp(&self.date_updated);
        d.field("date_updated", v.as_str());
        let v = debug_opt_bool(self.sticky_sender);
        d.field("sticky_sender", v.as_str());
        let v = debug_opt_bool(self.mms_converter);
        d.field("mms_converter", v.as_str());
        let v = debug_opt_bool(self.smart_encoding);
        d.field("smart_encoding", v.as_str());
        let v = debug_opt_bool(self.fallback_to_long_code);
        d.field("fallback_to_long_code", v.as_str());
        let v = debug_opt_str(&self.scan_message_content);
        d.field("scan_message_content", v.as_str());
        let v = debug_opt_bool(self.synchronous_validation);
        d.field("synchronous_validation", v.as_str());
        let v = debug_opt_bool(self.area_code_geomatch);
        d.field("area_code_geomatch", v.as_str());
        let v = debug_opt_i64(self.validity_period);
        d.field("validity_period", v.as_str());
        d.field("inbound_request_url", redacted(self.inbound_request_url.is_some()));
        let v = debug_opt_str(&self.inbound_method);
        d.field("inbound_method", v.as_str());
        d.field("fallback_url", redacted(self.fallback_url.is_some()));
        let v = debug_opt_str(&self.fallback_method);
        d.field("fallback_method", v.as_str());
        d.field("status_callback", redacted(self.status_callback.is_some()));
        let v = debug_opt_str(&self.usecase);
        d.field("usecase", v.as_str());
        let v = debug_opt_bool(self.us_app_to_person_registered);
        d.field("us_app_to_person_registered", v.as_str());
        let v = debug_opt_bool(self.use_inbound_webhook_on_number);
        d.field("use_inbound_webhook_on_number", v.as_str());
        d.field("links", redacted(self.links.is_some()));
        d.field("url", redacted(self.url.is_some()));
        assert(d.fields@ =~= self.spec_debug_fields());
        d.finish()
    }
}

/// A Messaging Service as the response writes it, timestamps as text.
pub struct WireService {
    pub account_sid: Option<String>,
    pub friendly_name: Option<String>,
    pub sid: Option<String>,
    pub date_created: Option<String>,
    pub date_updated: Option<String>,
    pub sticky_sender: Option<bool>,
    pub mms_converter: Option<bool>,
    pub smart_encoding: Option<bool>,
    pub fallback_to_long_code: Option<bool>,
    pub scan_message_content: Option<String>,
    pub synchronous_validation: Option<bool>,
    pub area_code_geomatch: Option<bool>,
    pub validity_period: Option<i64>,
    pub inbound_request_url: Option<String>,
    pub inbound_method: Option<String>,
    pub fallback_url: Option<String>,
    pub fallback_method: Option<String>,
    pub status_callback: Option<String>,
    pub usecase: Option<String>,
    pub us_app_to_person_registered: Option<bool>,
    pub use_inbound_webhook_on_number: Option<bool>,
    pub links: Option<BTreeMap<String, String>>,
    pub url: Option<String>,
}

/// Service read from its response: each field as the response conversion leaves it.
pub open spec fn service_from(w: WireService, t: TwilioService) -> bool {
    &&& t.account_sid == w.account_sid
    &&& t.friendly_name == w.friendly_name
    &&& t.sid == w.sid
    &&& (t.date_created == iso8601_value(w.date_created))
    &&& (t.date_updated == iso8601_value(w.date_updated))
    &&& t.sticky_sender == w.sticky_sender
    &&& t.mms_converter == w.mms_converter
    &&& t.smart_encoding == w.smart_encoding
    &&& t.fallback_to_long_code == w.fallback_to_long_code
    &&& t.scan_message_content == w.scan_message_content
    &&& t.synchronous_validation == w.synchronous_validation
    &&& t.area_code_geomatch == w.area_code_geomatch
    &&& t.validity_period == w.validity_period
    &&& t.inbound_request_url == w.inbound_request_url
    &&& t.inbound_method == w.inbound_method
    &&& t.fallback_url == w.fallback_url
    &&& t.fallback_method == w.fallback_method
    &&& t.status_callback == w.status_callback
    &&& t.usecase == w.usecase
    &&& t.us_app_to_person_registered == w.us_app_to_person_registered
    &&& t.use_inbound_webhook_on_number == w.use_inbound_webhook_on_number
    &&& t.links == w.links
    &&& t.url == w.url
}

impl WireService {
    /// The Messaging Service this response describes.
    pub fn into_service(self) -> (t: TwilioService)
        ensures
            service_from(self, t),
    {
        TwilioService {
            account_sid: self.account_sid,
            friendly_name: self.friendly_name,
            sid: self.sid,
            date_created: parse_iso8601(self.date_created),
            date_updated: parse_iso8601(self.date_updated),
            sticky_sender: self.sticky_sender,
            mms_converter: self.mms_converter,
            smart_encoding: self.smart_encoding,
            fallback_to_long_code: self.fallback_to_long_code,
            scan_message_content: self.scan_message_content,
            synchronous_validation: self.synchronous_validation,
            area_code_geomatch: self.area_code_geomatch,
            validity_period: self.validity_period,
            inbound_request_url: self.inbound_request_url,
            inbound_method: self.inbound_method,
            fallback_url: self.fallback_url,
            fallback_method: self.fallback_method,
            status_callback: self.status_callback,
            usecase: self.usecase,
            us_app_to_person_registered: self.us_app_to_person_registered,
            use_inbound_webhook_on_number: self.use_inbound_webhook_on_number,
            links: self.links,
            url: self.url,
        }
    }
}

/// A phone number in a Messaging Service's sender pool.
#[derive(Clone)]
pub struct TwilioServicePhoneNumber {
    pub account_sid: Option<String>,
    pub service_sid: Option<String>,
    pub sid: Option<String>,
    pub date_created: Option<time::OffsetDateTime>,
    pub date_updated: Option<time::OffsetDateTime>,
    pub phone_number: Option<String>,
    pub country_code: Option<String>,
    pub capabilities: Option<Vec<String>>,
    pub url: Option<String>,
}

impl TwilioServicePhoneNumber {
    /// The fields of this record's debug text, in order, with the fields
    /// that identify an account, a person or a business hidden.
    pub open spec fn spec_debug_fields(&self) -> Seq<(Seq<char>, Seq<char>)> {
        seq![
            ("account_sid"@, redacted_text(self.account_sid is Some)),
            ("service_sid"@, redacted_text(self.service_sid is Some)),
            ("sid"@, redacted_text(self.sid is Some)),
            ("date_created"@, opt_timestamp_debug(self.date_created)),
            ("date_updated"@, opt_timestamp_debug(self.date_updated)),
            ("phone_number"@, redacted_text(self.phone_number is Some)),
            ("country_code"@, opt_str_debug(self.country_code)),
            ("capabilities"@, opt_str_list_debug(self.capabilities)),
            ("url"@, redacted_text(self.url is Some)),
        ]
    }

    /// The debug text of this record, with the fields that identify an
    /// account, a person or a business hidden as `[REDACTED]`.
    pub open spec fn spec_debug_text(&self) -> Seq<char> {
        debug_struct_text("TwilioServicePhoneNumber"@, self.spec_debug_fields())
    }

    /// Write the debug text of this record.
    pub fn debug_text(&self) -> (s: String)
        ensures
            s@ == self.spec_debug_text(),
    {
        let mut d = DebugStructText::new("TwilioServicePhoneNumber");
        d.field("account_sid", redacted(self.account_sid.is_some()));
        d.field("service_sid", redacted(self.service_sid.is_some()));
        d.field("sid", redacted(self.sid.is_some()));
        let v = debug_opt_timestamp(&self.date_created);
        d.field("date_created", v.as_str());
        let v = debug_opt_timestamp(&self.date_updated);
        d.field("date_updated", v.as_str());
        d.field("phone_number", redacted(self.phone_number.is_some()));
        let v = debug_opt_str(&self.country_code);
        d.field("country_code", v.as_str());
        let v = debug_opt_str_list(&self.capabilities);
        d.field("capabilities", v.as_str());
        d.field("url", redacted(self.url.is_some()));
        assert(d.fields@ =~= self.spec_debug_fields());
        d.finish()
    }
}

/// A sender-pool phone number as the response writes it.
pub struct WireServicePhoneNumber {
    pub account_sid: Option<String>,
    pub service_sid: Option<String>,
    pub sid: Option<String>,
    pub date_created: Option<String>,
    pub date_updated: Option<String>,
    pub phone_number: Option<String>,
    pub country_code: Option<String>,
    pub capabilities: Option<Vec<String>>,
    pub url: Option<String>,
}

/// ServicePhoneNumber read from its response: each field as the response conversion leaves it.
pub open spec fn service_phone_number_from(w: WireServicePhoneNumber, t: TwilioServicePhoneNumber) -> bool {
    &&& t.account_sid == w.account_sid
    &&& t.service_sid == w.service_sid
    &&& t.sid == w.sid
    &&& (t.date_created == iso8601_value(w.date_created))
    &&& (t.date_updated == iso8601_value(w.date_updated))
    &&& t.phone_number == w.phone_number
    &&& t.country_code == w.country_code
    &&& t.capabilities == w.capabilities
    &&& t.url == w.url
}

impl WireServicePhoneNumber {
    /// The sender-pool phone number this response describes.
    pub fn into_phone_number(self) -> (t: TwilioServicePhoneNumber)
        ensures
            service_phone_number_from(self, t),
    {
        TwilioServicePhoneNumber {
            account_sid: self.account_sid,
            service_sid: self.service_sid,
            sid: self.sid,
            date_created: parse_iso8601(self.date_created),
            date_updated: parse_iso8601(self.date_updated),
            phone_number: self.phone_number,
            country_code: self.country_code,
            capabilities: self.capabilities,
            url: self.url,
        }
    }
}

/// A short code in a Messaging Service's sender pool.
#[derive(Clone)]
pub struct TwilioServiceShortCode {
    pub account_sid: Option<String>,
    pub service_sid: Option<String>,
    pub sid: Option<String>,
    pub date_created: Option<time::OffsetDateTime>,
    pub date_updated: Option<time::OffsetDateTime>,
    pub short_code: Option<String>,
    pub country_code: Option<String>,
    pub capabilities: Option<Vec<String>>,
    pub url: Option<String>,
}

impl TwilioServiceShortCode {
    /// The fields of this record's debug text, in order, with the fields
    /// that identify an account, a person or a business hidden.
    pub open spec fn spec_debug_fields(&self) -> Seq<(Seq<char>, Seq<char>)> {
        seq![
            ("account_sid"@, redacted_text(self.account_sid is Some)),
            ("service_sid"@, redacted_text(self.service_sid is Some)),
            ("sid"@, redacted_text(self.sid is Some)),
            ("date_created"@, opt_timestamp_debug(self.date_created)),
            ("date_updated"@, opt_timestamp_debug(self.date_updated)),
            ("short_code"@, redacted_text(self.short_code is Some)),
            ("country_code"@, opt_str_debug(self.country_code)),
            ("capabilities"@, opt_str_list_debug(self.capabilities)),
            ("url"@, redacted_text(self.url is Some)),
        ]
    }

    /// The debug text of this record, with the fields that identify an
    /// account, a person or a business hidden as `[REDACTED]`.
    pub open spec fn spec_debug_text(&self) -> Seq<char> {
        debug_struct_text("TwilioServiceShortCode"@, self.spec_debug_fields())
    }

    /// Write the debug text of this record.
    pub fn debug_text(&self) -> (s: String)
        ensures
            s@ == self.spec_debug_text(),
    {
        let mut d = DebugStructText::new("TwilioServiceShortCode");
        d.field("account_sid", redacted(self.account_sid.is_some()));
        d.field("service_sid", redacted(self.service_sid.is_some()));
        d.field("sid", redacted(self.sid.is_some()));
        let v = debug_opt_timestamp(&self.date_created);
        d.field("date_created", v.as_str());
        let v = debug_opt_timestamp(&self.date_updated);
        d.field("date_updated", v.as_str());
        d.field("short_code", redacted(self.short_code.is_some()));
        let v = debug_opt_str(&self.country_code);
        d.field("country_code", v.as_str());
        let v = debug_opt_str_list(&self.capabilities);
        d.field("capabilities", v.as_str());
        d.field("url", redacted(self.url.is_some()));
        assert(d.fields@ =~= self.spec_debug_fields());
        d.finish()
    }
}

/// A sender-pool short code as the response writes it.
pub struct WireServiceShortCode {
    pub account_sid: Option<String>,
    pub service_sid: Option<String>,
    pub sid: Option<String>,
    pub date_created: Option<String>,
    pub date_updated: Option<String>,
    pub short_code: Option<String>,
    pub country_code: Option<String>,
    pub capabilities: Option<Vec<String>>,
    pub url: Option<String>,
}

/// ServiceShortCode read from its response: each field as the response conversion leaves it.
pub open spec fn service_short_code_from(w: WireServiceShortCode, t: TwilioServiceShortCode) -> bool {
    &&& t.account_sid == w.account_sid
    &&& t.service_sid == w.service_sid
    &&& t.sid == w.sid
    &&& (t.date_created == iso8601_value(w.date_created))
    &&& (t.date_updated == iso8601_value(w.date_updated))
    &&& t.short_code == w.short_code
    &&& t.country_code == w.country_code
    &&& t.capabilities == w.capabilities
    &&& t.url == w.url
}

impl WireServiceShortCode {
    /// The sender-pool short code this response describes.
    pub fn into_short_code(self) -> (t: TwilioServiceShortCode)
        ensures
            service_short_code_from(self, t),
    {
        TwilioServiceShortCode {
            account_sid: self.account_sid,
            service_sid: self.service_sid,
            sid: self.sid,
            date_created: parse_iso8601(self.date_created),
            date_updated: parse_iso8601(self.date_updated),
            short_code: self.short_code,
            country_code: self.country_code,
            capabilities: self.capabilities,
            url: self.url,
        }
    }
}

/// An alphanumeric sender of a Messaging Service.
#[derive(Clone)]
pub struct TwilioAlphaSender {
    pub account_sid: Option<String>,
    pub service_sid: Option<String>,
    pub sid: Option<String>,
    pub date_created: Option<time::OffsetDateTime>,
    pub date_updated: Option<time::OffsetDateTime>,
    pub alpha_sender: Option<String>,
    pub capabilities: Option<Vec<String>>,
    pub url: Option<String>,
}

impl TwilioAlphaSender {
    /// The fields of this record's debug text, in order, with the fields
    /// that identify an account, a person or a business hidden.
    pub open spec fn spec_debug_fields(&self) -> Seq<(Seq<char>, Seq<char>)> {
        seq![
            ("account_sid"@, redacted_text(self.account_sid is Some)),
            ("service_sid"@, redacted_text(self.service_sid is Some)),
            ("sid"@, redacted_text(self.sid is Some)),
            ("date_created"@, opt_timestamp_debug(self.date_created)),
            ("date_updated"@, opt_timestamp_debug(self.date_updated)),
            ("alpha_sender"@, redacted_text(self.alpha_sender is Some)),
            ("capabilities"@, opt_str_list_debug(self.capabilities)),
            ("url"@, redacted_text(self.url is Some)),
        ]
    }

    /// The debug text of this record, with the fields that identify an
    /// account, a person or a business hidden as `[REDACTED]`.
    pub open spec fn spec_debug_text(&self) -> Seq<char> {
        debug_struct_text("TwilioAlphaSender"@, self.spec_debug_fields())
    }

    /// Write the debug text of this record.
    pub fn debug_text(&self) -> (s: String)
        ensures
            s@ == self.spec_debug_text(),
    {
        let mut d = DebugStructText::new("TwilioAlphaSender");
        d.field("account_sid", redacted(self.account_sid.is_some()));
        d.field("service_sid", redacted(self.service_sid.is_some()));
        d.field("sid", redacted(self.sid.is_some()));
        let v = debug_opt_timestamp(&self.date_created);
        d.field("date_created", v.as_str());
        let v = debug_opt_timestamp(&self.date_updated);
        d.field("date_updated", v.as_str());
        d.field("alpha_sender", redacted(self.alpha_sender.is_some()));
        let v = debug_opt_str_list(&self.capabilities);
        d.field("capabilities", v.as_str());
        d.field("url", redacted(self.url.is_some()));
        assert(d.fields@ =~= self.spec_debug_fields());
        d.finish()
    }
}

/// An alphanumeric sender as the response writes it.
pub struct WireAlphaSender {
    pub account_sid: Option<String>,
    pub service_sid: Option<String>,
    pub sid: Option<String>,
    pub date_created: Option<String>,
    pub date_updated: Option<String>,
    pub alpha_sender: Option<String>,
    pub capabilities: Option<Vec<String>>,
    pub url: Option<String>,
}

/// AlphaSender read from its response: each field as the response conversion leaves it.
pub open spec fn alpha_sender_from(w: WireAlphaSender, t: TwilioAlphaSender) -> bool {
    &&& t.account_sid == w.account_sid
    &&& t.service_sid == w.service_sid
    &&& t.sid == w.sid
    &&& (t.date_created == iso8601_value(w.date_created))
    &&& (t.date_updated == iso8601_value(w.date_updated))
    &&& t.alpha_sender == w.alpha_sender
    &&& t.capabilities == w.capabilities
    &&& t.url == w.url
}

impl WireAlphaSender {
    /// The alphanumeric sender this response describes.
    pub fn into_alpha_sender(self) -> (t: TwilioAlphaSender)
        ensures
            alpha_sender_from(self, t),
    {
        TwilioAlphaSender {
            account_sid: self.account_sid,
            service_sid: self.service_sid,
            sid: self.sid,
            date_created: parse_iso8601(self.date_created),
            date_updated: parse_iso8601(self.date_updated),
            alpha_sender: self.alpha_sender,
            capabilities: self.capabilities,
            url: self.url,
        }
    }
}

/// A channel sender of a Messaging Service.
#[derive(Clone)]
pub struct TwilioChannelSender {
    pub account_sid: Option<String>,
    pub messaging_service_sid: Option<String>,
    pub sid: Option<String>,
    pub sender: Option<String>,
    pub sender_type: Option<String>,
    pub country_code: Option<String>,
    pub date_created: Option<time::OffsetDateTime>,
    pub date_updated: Option<time::OffsetDateTime>,
    pub url: Option<String>,
}

impl TwilioChannelSender {
    /// The fields of this record's debug text, in order, with the fields
    /// that identify an account, a person or a business hidden.
    pub open spec fn spec_debug_fields(&self) -> Seq<(Seq<char>, Seq<char>)> {
        seq![
            ("account_sid"@, redacted_text(self.account_sid is Some)),
            ("messaging_service_sid"@, redacted_text(self.messaging_service_sid is Some)),
            ("sid"@, redacted_text(self.sid is Some)),
            ("sender"@, redacted_text(self.sender is Some)),
            ("sender_type"@, opt_str_debug(self.sender_type)),
            ("country_code"@, opt_str_debug(self.country_code)),
            ("date_created"@, opt_timestamp_debug(self.date_created)),
            ("date_updated"@, opt_timestamp_debug(self.date_updated)),
            ("url"@, redacted_text(self.url is Some)),
        ]
    }

    /// The debug text of this record, with the fields that identify an
    /// account, a person or a business hidden as `[REDACTED]`.
    pub open spec fn spec_debug_text(&self) -> Seq<char> {
        debug_struct_text("TwilioChannelSender"@, self.spec_debug_fields())
    }

    /// Write the debug text of this record.
    pub fn debug_text(&self) -> (s: String)
        ensures
            s@ == self.spec_debug_text(),
    {
        let mut d = DebugStructText::new("TwilioChannelSender");
        d.field("account_sid", redacted(self.account_sid.is_some()));
        d.field("messaging_service_sid", redacted(self.messaging_service_sid.is_some()));
        d.field("sid", redacted(self.sid.is_some()));
        d.field("sender", redacted(self.sender.is_some()));
        let v = debug_opt_str(&self.sender_type);
        d.field("sender_type", v.as_str());
        let v = debug_opt_str(&self.country_code);
        d.field("country_code", v.as_str());
        let v = debug_opt_timestamp(&self.date_created);
        d.field("date_created", v.as_str());
        let v = debug_opt_timestamp(&self.date_updated);
        d.field("date_updated", v.as_str());
        d.field("url", redacted(self.url.is_some()));
        assert(d.fields@ =~= self.spec_debug_fields());
        d.finish()
    }
}

/// A channel sender as the response writes it.
pub struct WireChannelSender {
    pub account_sid: Option<String>,
    pub messaging_service_sid: Option<String>,
    pub sid: Option<String>,
    pub sender: Option<String>,
    pub sender_type: Option<String>,
    pub country_code: Option<String>,
    pub date_created: Option<String>,
    pub date_updated: Option<String>,
    pub url: Option<String>,
}

/// ChannelSender read from its response: each field as the response conversion leaves it.
pub open spec fn channel_sender_from(w: WireChannelSender, t: TwilioChannelSender) -> bool {
    &&& t.account_sid == w.account_sid
    &&& t.messaging_service_sid == w.messaging_service_sid
    &&& t.sid == w.sid
    &&& t.sender == w.sender
    &&& t.sender_type == w.sender_type
    &&& t.country_code == w.country_code
    &&& (t.date_created == iso8601_value(w.date_created))
    &&& (t.date_updated == iso8601_value(w.date_updated))
    &&& t.url == w.url
}

impl WireChannelSender {
    /// The channel sender this response describes.
    pub fn into_channel_sender(self) -> (t: TwilioChannelSender)
        ensures
            channel_sender_from(self, t),
    {
        TwilioChannelSender {
            account_sid: self.account_sid,
            messaging_service_sid: self.messaging_service_sid,
            sid: self.sid,
            sender: self.sender,
            sender_type: self.sender_type,
            country_code: self.country_code,
            date_created: parse_iso8601(self.date_created),
            date_updated: parse_iso8601(self.date_updated),
            url: self.url,
        }
    }
}

/// A destination alphanumeric sender of a Messaging Service.
#[derive(Clone)]
pub struct TwilioDestinationAlphaSender {
    pub sid: Option<String>,
    pub account_sid: Option<String>,
    pub service_sid: Option<String>,
    pub date_created: Option<time::OffsetDateTime>,
    pub date_updated: Option<time::OffsetDateTime>,
    pub alpha_sender: Option<String>,
    pub capabilities: Option<Vec<String>>,
    pub url: Option<String>,
    pub iso_country_code: Option<String>,
}

impl TwilioDestinationAlphaSender {
    /// The fields of this record's debug text, in order, with the fields
    /// that identify an account, a person or a business hidden.
    pub open spec fn spec_debug_fields(&self) -> Seq<(Seq<char>, Seq<char>)> {
        seq![
            ("sid"@, redacted_text(self.sid is Some)),
            ("account_sid"@, redacted_text(self.account_sid is Some)),
            ("service_sid"@, redacted_text(self.service_sid is Some)),
            ("date_created"@, opt_timestamp_debug(self.date_created)),
            ("date_updated"@, opt_timestamp_debug(self.date_updated)),
            ("alpha_sender"@, redacted_text(self.alpha_sender is Some)),
            ("capabilities"@, opt_str_list_debug(self.capabilities)),
            ("url"@, redacted_text(self.url is Some)),
            ("iso_country_code"@, opt_str_debug(self.iso_country_code)),
        ]
    }

    /// The debug text of this record, with the fields that identify an
    /// account, a person or a business hidden as `[REDACTED]`.
    pub open spec fn spec_debug_text(&self) -> Seq<char> {
        debug_struct_text("TwilioDestinationAlphaSender"@, self.spec_debug_fields())
    }

    /// Write the debug text of this record.
    pub fn debug_text(&self) -> (s: String)
        ensures
            s@ == self.spec_debug_text(),
    {
        let mut d = DebugStructText::new("TwilioDestinationAlphaSender");
        d.field("sid", redacted(self.sid.is_some()));
        d.field("account_sid", redacted(self.account_sid.is_some()));
        d.field("service_sid", redacted(self.service_sid.is_some()));
        let v = debug_opt_timestamp(&self.date_created);
        d.field("date_created", v.as_str());
        let v = debug_opt_timestamp(&self.date_updated);
        d.field("date_updated", v.as_str());
        d.field("alpha_sender", redacted(self.alpha_sender.is_some()));
        let v = debug_opt_str_list(&self.capabilities);
        d.field("capabilities", v.as_str());
        d.field("url", redacted(self.url.is_some()));
        let v = debug_opt_str(&self.iso_country_code);
        d.field("iso_country_code", v.as_str());
        assert(d.fields@ =~= self.spec_debug_fields());
        d.finish()
    }
}

/// A destination alphanumeric sender as the response writes it.
pub struct WireDestinationAlphaSender {
    pub sid: Option<String>,
    pub account_sid: Option<String>,
    pub service_sid: Option<String>,
    pub date_created: Option<String>,
    pub date_updated: Option<String>,
    pub alpha_sender: Option<String>,
    pub capabilities: Option<Vec<String>>,
    pub url: Option<String>,
    pub iso_country_code: Option<String>,
}

/// DestinationAlphaSender read from its response: each field as the response conversion leaves it.
pub open spec fn destination_alpha_sender_from(w: WireDestinationAlphaSender, t: TwilioDestinationAlphaSender) -> bool {
    &&& t.sid == w.sid
    &&& t.account_sid == w.account_sid
    &&& t.service_sid == w.service_sid
    &&& (t.date_created == iso8601_value(w.date_created))
    &&& (t.date_updated == iso8601_value(w.date_updated))
    &&& t.alpha_sender == w.alpha_sender
    &&& t.capabilities == w.capabilities
    &&& t.url == w.url
    &&& t.iso_country_code == w.iso_country_code
}

impl WireDestinationAlphaSender {
    /// The destination alphanumeric sender this response describes.
    pub fn into_destination_alpha_sender(self) -> (t: TwilioDestinationAlphaSender)
        ensures
            destination_alpha_sender_from(self, t),
    {
        TwilioDestinationAlphaSender {
            sid: self.sid,
            account_sid: self.account_sid,
            service_sid: self.service_sid,
            date_created: parse_iso8601(self.date_created),
            date_updated: parse_iso8601(self.date_updated),
            alpha_sender: self.alpha_sender,
            capabilities: self.capabilities,
            url: self.url,
            iso_country_code: self.iso_country_code,
        }
    }
}

} // verus!
