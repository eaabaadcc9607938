use std::collections::BTreeMap;

use vstd::prelude::*;

use crate::error::{check_outcome, invalid, TwilioError};
use crate::form::{
    bool_param, enum_view, list_params, page_size_violation, params_view, push_bool, push_enum,
    push_list, push_str, push_u32, str_param, u32_param, validate_page_size, FormEnum, FormParam,
    ParamSeq,
};
use crate::text::{
    has_text, is_blank, non_empty, nonempty_text, opt_has_text, opt_string_view, opt_view, str_is_blank,
};
use crate::timestamps::{parse_rfc2822, rfc2822_value};

use crate::debug_text::{
    debug_opt_bool, debug_opt_i64, debug_opt_str, debug_opt_str_list, debug_opt_timestamp, debug_struct_text,
    opt_bool_debug, opt_i64_debug, opt_str_debug, opt_str_list_debug, opt_timestamp_debug, redacted, redacted_text,
    DebugStructText,
};
verus! {

/// Largest Body Twilio accepts, in characters.
pub const MESSAGE_BODY_MAX_CHARS: usize = 1600;

/// Smallest ValidityPeriod Twilio accepts, in seconds.
pub const MESSAGE_VALIDITY_PERIOD_MIN_SECONDS: u32 = 1;

/// Largest ValidityPeriod Twilio accepts, in seconds.
pub const MESSAGE_VALIDITY_PERIOD_MAX_SECONDS: u32 = 36000;

/// Whether Twilio should retain or discard message content after processing.
#[derive(Clone, Copy, Debug, PartialEq, Eq)]
pub enum ContentRetention {
    Retain,
    Discard,
}

impl FormEnum for ContentRetention {
    open spec fn spec_form_value(self) -> Seq<char> {
        match self {
            ContentRetention::Retain => "retain"@,
            ContentRetention::Discard => "discard"@,
        }
    }

    fn form_value(self) -> (s: &'static str) {
        match self {
            ContentRetention::Retain => "retain",
            ContentRetention::Discard => "discard",
        }
    }
}

/// Whether Twilio should retain or obfuscate message addresses after processing.
#[derive(Clone, Copy, Debug, PartialEq, Eq)]
pub enum AddressRetention {
    Retain,
    Obfuscate,
}

impl FormEnum for AddressRetention {
    open spec fn spec_form_value(self) -> Seq<char> {
        match self {
            AddressRetention::Retain => "retain"@,
            AddressRetention::Obfuscate => "obfuscate"@,
        }
    }

    fn form_value(self) -> (s: &'static str) {
        match self {
            AddressRetention::Retain => "retain",
            AddressRetention::Obfuscate => "obfuscate",
        }
    }
}

/// Twilio traffic classification for messages that support it.
#[derive(Clone, Copy, Debug, PartialEq, Eq)]
pub enum TrafficType {
    Free,
}

impl FormEnum for TrafficType {
    open spec fn spec_form_value(self) -> Seq<char> {
        "free"@
    }

    fn form_value(self) -> (s: &'static str) {
        "free"
    }
}

/// Scheduling mode for scheduled messages.
#[derive(Clone, Copy, Debug, PartialEq, Eq)]
pub enum ScheduleType {
    Fixed,
}

impl FormEnum for ScheduleType {
    open spec fn spec_form_value(self) -> Seq<char> {
        "fixed"@
    }

    fn form_value(self) -> (s: &'static str) {
        "fixed"
    }
}

/// Whether Twilio's risk check should run for this message.
#[derive(Clone, Copy, Debug, PartialEq, Eq)]
pub enum RiskCheck {
    Enable,
    Disable,
}

impl FormEnum for RiskCheck {
    open spec fn spec_form_value(self) -> Seq<char> {
        match self {
            RiskCheck::Enable => "enable"@,
            RiskCheck::Disable => "disable"@,
        }
    }

    fn form_value(self) -> (s: &'static str) {
        match self {
            RiskCheck::Enable => "enable",
            RiskCheck::Disable => "disable",
        }
    }
}

/// Status values a Message update request may send.
#[derive(Clone, Copy, Debug, PartialEq, Eq)]
pub enum UpdateMessageStatus {
    Canceled,
}

impl FormEnum for UpdateMessageStatus {
    open spec fn spec_form_value(self) -> Seq<char> {
        "canceled"@
    }

    fn form_value(self) -> (s: &'static str) {
        "canceled"
    }
}

/// Feedback outcome values accepted by the Message Feedback endpoint.
#[derive(Clone, Copy, Debug, PartialEq, Eq)]
pub enum MessageFeedbackOutcome {
    Confirmed,
    Unconfirmed,
}

impl FormEnum for MessageFeedbackOutcome {
    open spec fn spec_form_value(self) -> Seq<char> {
        match self {
            MessageFeedbackOutcome::Confirmed => "confirmed"@,
            MessageFeedbackOutcome::Unconfirmed => "unconfirmed"@,
        }
    }

    fn form_value(self) -> (s: &'static str) {
        match self {
            MessageFeedbackOutcome::Confirmed => "confirmed",
            MessageFeedbackOutcome::Unconfirmed => "unconfirmed",
        }
    }
}

/// Some value of a list is blank.
pub open spec fn any_blank(vs: Seq<&str>) -> bool {
    exists|i: int| 0 <= i < vs.len() && #[trigger] is_blank(vs[i]@)
}

/// Whether some value of a list is blank.
pub fn list_has_blank(values: &[&str]) -> (b: bool)
    ensures
        b == any_blank(values@),
{
    let n = values.len();
    let mut i: usize = 0;
    while i < n
        invariant
            n == values@.len(),
            i <= n,
            forall|j: int| 0 <= j < i ==> !#[trigger] is_blank(values@[j]@),
        decreases n - i,
    {
        if str_is_blank(values[i]) {
            return true;
        }
        i = i + 1;
    }
    false
}

/// Request body for `POST /Messages.json`.
pub struct CreateMessageRequest<'a> {
    pub to: &'a str,
    pub from: Option<&'a str>,
    pub messaging_service_sid: Option<&'a str>,
    pub body: Option<&'a str>,
    pub media_urls: &'a [&'a str],
    pub content_sid: Option<&'a str>,
    pub status_callback: Option<&'a str>,
    pub application_sid: Option<&'a str>,
    pub provide_feedback: Option<bool>,
    pub attempt: Option<u32>,
    pub validity_period: Option<u32>,
    pub content_retention: Option<ContentRetention>,
    pub address_retention: Option<AddressRetention>,
    pub smart_encoded: Option<bool>,
    pub persistent_actions: &'a [&'a str],
    pub traffic_type: Option<TrafficType>,
    pub shorten_urls: Option<bool>,
    pub schedule_type: Option<ScheduleType>,
    pub send_at: Option<&'a str>,
    pub send_as_mms: Option<bool>,
    pub content_variables_json: Option<&'a str>,
    pub risk_check: Option<RiskCheck>,
    pub fallback_from: Option<&'a str>,
    pub tags_json: Option<&'a str>,
}

impl<'a> CreateMessageRequest<'a> {
    /// A request to `to` with every optional field unset.
    pub fn new(to: &'a str) -> (r: Self)
        ensures
            r.to == to,
            r.from is None,
            r.messaging_service_sid is None,
            r.body is None,
            r.media_urls@.len() == 0,
            r.content_sid is None,
            r.status_callback is None,
            r.application_sid is None,
            r.provide_feedback is None,
            r.attempt is None,
            r.validity_period is None,
            r.content_retention is None,
            r.address_retention is None,
            r.smart_encoded is None,
            r.persistent_actions@.len() == 0,
            r.traffic_type is None,
            r.shorten_urls is None,
            r.schedule_type is None,
            r.send_at is None,
            r.send_as_mms is None,
            r.content_variables_json is None,
            r.risk_check is None,
            r.fallback_from is None,
            r.tags_json is None,
    {
        CreateMessageRequest {
            to,
            from: None,
            messaging_service_sid: None,
            body: None,
            media_urls: &[],
            content_sid: None,
            status_callback: None,
            application_sid: None,
            provide_feedback: None,
            attempt: None,
            validity_period: None,
            content_retention: None,
            address_retention: None,
            smart_encoded: None,
            persistent_actions: &[],
            traffic_type: None,
            shorten_urls: None,
            schedule_type: None,
            send_at: None,
            send_as_mms: None,
            content_variables_json: None,
            risk_check: None,
            fallback_from: None,
            tags_json: None,
        }
    }

    pub fn from(self, value: &'a str) -> (r: Self)
        ensures
            r == (CreateMessageRequest { from: Some(value), ..self }),
    {
        CreateMessageRequest { from: Some(value), ..self }
    }

    pub fn messaging_service_sid(self, value: &'a str) -> (r: Self)
        ensures
            r == (CreateMessageRequest { messaging_service_sid: Some(value), ..self }),
    {
        CreateMessageRequest { messaging_service_sid: Some(value), ..self }
    }
    pub fn body(self, value: &'a str) -> (r: Self)
        ensures
            r == (CreateMessageRequest { body: Some(value), ..self }),
    {
        CreateMessageRequest { body: Some(value), ..self }
    }
    pub fn media_urls(self, value: &'a [&'a str]) -> (r: Self)
        ensures
            r == (CreateMessageRequest { media_urls: value, ..self }),
    {
        CreateMessageRequest { media_urls: value, ..self }
    }
    pub fn content_sid(self, value: &'a str) -> (r: Self)
        ensures
            r == (CreateMessageRequest { content_sid: Some(value), ..self }),
    {
        CreateMessageRequest { content_sid: Some(value), ..self }
    }
    pub fn status_callback(self, value: &'a str) -> (r: Self)
        ensures
            r == (CreateMessageRequest { status_callback: Some(value), ..self }),
    {
        CreateMessageRequest { status_callback: Some(value), ..self }
    }
    pub fn application_sid(self, value: &'a str) -> (r: Self)
        ensures
            r == (CreateMessageRequest { application_sid: Some(value), ..self }),
    {
        CreateMessageRequest { application_sid: Some(value), ..self }
    }
    pub fn provide_feedback(self, value: bool) -> (r: Self)
        ensures
            r == (CreateMessageRequest { provide_feedback: Some(value), ..self }),
    {
        CreateMessageRequest { provide_feedback: Some(value), ..self }
    }
    pub fn attempt(self, value: u32) -> (r: Self)
        ensures
            r == (CreateMessageRequest { attempt: Some(value), ..self }),
    {
        CreateMessageRequest { attempt: Some(value), ..self }
    }
    pub fn validity_period(self, value: u32) -> (r: Self)
        ensures
            r == (CreateMessageRequest { validity_period: Some(value), ..self }),
    {
        CreateMessageRequest { validity_period: Some(value), ..self }
    }
    pub fn content_retention(self, value: ContentRetention) -> (r: Self)
        ensures
            r == (CreateMessageRequest { content_retention: Some(value), ..self }),
    {
        CreateMessageRequest { content_retention: Some(value), ..self }
    }
    pub fn address_retention(self, value: AddressRetention) -> (r: Self)
        ensures
            r == (CreateMessageRequest { address_retention: Some(value), ..self }),
    {
        CreateMessageRequest { address_retention: Some(value), ..self }
    }
    pub fn smart_encoded(self, value: bool) -> (r: Self)
        ensures
            r == (CreateMessageRequest { smart_encoded: Some(value), ..self }),
    {
        CreateMessageRequest { smart_encoded: Some(value), ..self }
    }
    pub fn persistent_actions(self, value: &'a [&'a str]) -> (r: Self)
        ensures
            r == (CreateMessageRequest { persistent_actions: value, ..self }),
    {
        CreateMessageRequest { persistent_actions: value, ..self }
    }
    pub fn traffic_type(self, value: TrafficType) -> (r: Self)
        ensures
            r == (CreateMessageRequest { traffic_type: Some(value), ..self }),
    {
        CreateMessageRequest { traffic_type: Some(value), ..self }
    }
    pub fn shorten_urls(self, value: bool) -> (r: Self)
        ensures
            r == (CreateMessageRequest { shorten_urls: Some(value), ..self }),
    {
        CreateMessageRequest { shorten_urls: Some(value), ..self }
    }
    pub fn schedule_type(self, value: ScheduleType) -> (r: Self)
        ensures
            r == (CreateMessageRequest { schedule_type: Some(value), ..self }),
    {
        CreateMessageRequest { schedule_type: Some(value), ..self }
    }
    pub fn send_at(self, value: &'a str) -> (r: Self)
        ensures
            r == (CreateMessageRequest { send_at: Some(value), ..self }),
    {
        CreateMessageRequest { send_at: Some(value), ..self }
    }
    pub fn send_as_mms(self, value: bool) -> (r: Self)
        ensures
            r == (CreateMessageRequest { send_as_mms: Some(value), ..self }),
    {
        CreateMessageRequest { send_as_mms: Some(value), ..self }
    }
    pub fn content_variables_json(self, value: &'a str) -> (r: Self)
        ensures
            r == (CreateMessageRequest { content_variables_json: Some(value), ..self }),
    {
        CreateMessageRequest { content_variables_json: Some(value), ..self }
    }
    pub fn risk_check(self, value: RiskCheck) -> (r: Self)
        ensures
            r == (CreateMessageRequest { risk_check: Some(value), ..self }),
    {
        CreateMessageRequest { risk_check: Some(value), ..self }
    }
    pub fn fallback_from(self, value: &'a str) -> (r: Self)
        ensures
            r == (CreateMessageRequest { fallback_from: Some(value), ..self }),
    {
        CreateMessageRequest { fallback_from: Some(value), ..self }
    }
    pub fn tags_json(self, value: &'a str) -> (r: Self)
        ensures
            r == (CreateMessageRequest { tags_json: Some(value), ..self }),
    {
        CreateMessageRequest { tags_json: Some(value), ..self }
    }
    /// The first documented rule this request breaks, as its error text.
    pub open spec fn violation(&self) -> Option<Seq<char>> {
        if is_blank(self.to@) {
            Some("To must not be empty"@)
        } else if !has_text(opt_view(self.from)) && !has_text(opt_view(self.messaging_service_sid)) {
            Some("either From or MessagingServiceSid is required"@)
        } else if any_blank(self.media_urls@) {
            Some("MediaUrl values must not be empty"@)
        } else if !has_text(opt_view(self.body)) && self.media_urls@.len() == 0 && !has_text(
            opt_view(self.content_sid),
        ) {
            Some("at least one of Body, MediaUrl, or ContentSid is required"@)
        } else if self.media_urls@.len() > 10 {
            Some("MediaUrl can include at most 10 values"@)
        } else if self.body matches Some(b) && b@.len() > 1600 {
            Some("Body must be at most 1600 characters"@)
        } else if self.validity_period matches Some(v) && !(1 <= v <= 36000) {
            Some("ValidityPeriod must be in 1..=36000"@)
        } else if self.shorten_urls == Some(true) && !has_text(opt_view(self.messaging_service_sid)) {
            Some("ShortenUrls requires MessagingServiceSid"@)
        } else if self.content_variables_json is Some && !has_text(opt_view(self.content_sid)) {
            Some("ContentVariables requires ContentSid"@)
        } else {
            None
        }
    }

    /// Check the documented rules on a new Message.
    pub fn validate(&self) -> (r: Result<(), TwilioError>)
        ensures
            check_outcome(r, self.violation()),
    {
        if str_is_blank(self.to) {
            return Err(invalid("To must not be empty"));
        }
        if !opt_has_text(self.from) && !opt_has_text(self.messaging_service_sid) {
            return Err(invalid("either From or MessagingServiceSid is required"));
        }
        if list_has_blank(self.media_urls) {
            return Err(invalid("MediaUrl values must not be empty"));
        }
        if !opt_has_text(self.body) && self.media_urls.len() == 0 && !opt_has_text(
            self.content_sid,
        ) {
            return Err(invalid("at least one of Body, MediaUrl, or ContentSid is required"));
        }
        if self.media_urls.len() > 10 {
            return Err(invalid("MediaUrl can include at most 10 values"));
        }
        if let Some(body) = self.body {
            if body.unicode_len() > MESSAGE_BODY_MAX_CHARS {
                return Err(invalid("Body must be at most 1600 characters"));
            }
        }
        if let Some(v) = self.validity_period {
            if !(MESSAGE_VALIDITY_PERIOD_MIN_SECONDS <= v && v <= MESSAGE_VALIDITY_PERIOD_MAX_SECONDS) {
                return Err(invalid("ValidityPeriod must be in 1..=36000"));
            }
        }
        if let Some(true) = self.shorten_urls {
            if !opt_has_text(self.messaging_service_sid) {
                return Err(invalid("ShortenUrls requires MessagingServiceSid"));
            }
        }
        if self.content_variables_json.is_some() && !opt_has_text(self.content_sid) {
            return Err(invalid("ContentVariables requires ContentSid"));
        }
        Ok(())
    }

    /// The form parameters of this request, in the order they are sent.
    pub open spec fn spec_form_params(&self) -> ParamSeq {
        str_param("To"@, Some(self.to@)) + str_param("From"@, opt_view(self.from)) + str_param(
            "MessagingServiceSid"@,
            opt_view(self.messaging_service_sid),
        ) + str_param("Body"@, opt_view(self.body)) + list_params("MediaUrl"@, self.media_urls@)
            + str_param("ContentSid"@, opt_view(self.content_sid)) + str_param(
            "StatusCallback"@,
            opt_view(self.status_callback),
        ) + str_param("ApplicationSid"@, opt_view(self.application_sid)) + bool_param(
            "ProvideFeedback"@,
            self.provide_feedback,
        ) + u32_param("Attempt"@, self.attempt) + u32_param(
            "ValidityPeriod"@,
            self.validity_period,
        ) + str_param("ContentRetention"@, enum_view(self.content_retention)) + str_param(
            "AddressRetention"@,
            enum_view(self.address_retention),
        ) + bool_param("SmartEncoded"@, self.smart_encoded) + list_params(
            "PersistentAction"@,
            self.persistent_actions@,
        ) + str_param("TrafficType"@, enum_view(self.traffic_type)) + bool_param(
            "ShortenUrls"@,
            self.shorten_urls,
        ) + str_param("ScheduleType"@, enum_view(self.schedule_type)) + str_param(
            "SendAt"@,
            opt_view(self.send_at),
        ) + bool_param("SendAsMms"@, self.send_as_mms) + str_param(
            "ContentVariables"@,
            opt_view(self.content_variables_json),
        ) + str_param("RiskCheck"@, enum_view(self.risk_check)) + str_param(
            "FallbackFrom"@,
            opt_view(self.fallback_from),
        ) + str_param("Tags"@, opt_view(self.tags_json))
    }

    /// Encode this request as form parameters.
    pub fn form_params(&self) -> (params: Vec<FormParam>)
        ensures
            params_view(params@) == self.spec_form_params(),
    {
        let mut params = Vec::new();
        push_str(&mut params, "To", Some(self.to));
        push_str(&mut params, "From", self.from);
        push_str(&mut params, "MessagingServiceSid", self.messaging_service_sid);
        push_str(&mut params, "Body", self.body);
        push_list(&mut params, "MediaUrl", self.media_urls);
        push_str(&mut params, "ContentSid", self.content_sid);
        push_str(&mut params, "StatusCallback", self.status_callback);
        push_str(&mut params, "ApplicationSid", self.application_sid);
        push_bool(&mut params, "ProvideFeedback", self.provide_feedback);
        push_u32(&mut params, "Attempt", self.attempt);
        push_u32(&mut params, "ValidityPeriod", self.validity_period);
        push_enum(&mut params, "ContentRetention", self.content_retention);
        push_enum(&mut params, "AddressRetention", self.address_retention);
        push_bool(&mut params, "SmartEncoded", self.smart_encoded);
        push_list(&mut params, "PersistentAction", self.persistent_actions);
        push_enum(&mut params, "TrafficType", self.traffic_type);
        push_bool(&mut params, "ShortenUrls", self.shorten_urls);
        push_enum(&mut params, "ScheduleType", self.schedule_type);
        push_str(&mut params, "SendAt", self.send_at);
        push_bool(&mut params, "SendAsMms", self.send_as_mms);
        push_str(&mut params, "ContentVariables", self.content_variables_json);
        push_enum(&mut params, "RiskCheck", self.risk_check);
        push_str(&mut params, "FallbackFrom", self.fallback_from);
        push_str(&mut params, "Tags", self.tags_json);
        assert(params_view(params@) =~= self.spec_form_params());
        params
    }
}

/// Query parameters for the first page of `GET /Messages.json`.
#[derive(Clone, Copy)]
pub struct ListMessagesRequest<'a> {
    pub to: Option<&'a str>,
    pub from: Option<&'a str>,
    pub date_sent: Option<&'a str>,
    pub date_sent_before: Option<&'a str>,
    pub date_sent_after: Option<&'a str>,
    pub page_size: Option<u32>,
    pub page: Option<u32>,
    pub page_token: Option<&'a str>,
}

impl<'a> ListMessagesRequest<'a> {
    /// A request with every filter unset.
    pub fn new() -> (r: Self)
        ensures
            r.to is None,
            r.from is None,
            r.date_sent is None,
            r.date_sent_before is None,
            r.date_sent_after is None,
            r.page_size is None,
            r.page is None,
            r.page_token is None,
    {
        ListMessagesRequest { to: None, from: None, date_sent: None, date_sent_before: None, date_sent_after: None, page_size: None, page: None, page_token: None }
    }

    pub fn to(self, value: &'a str) -> (r: Self)
        ensures
            r == (ListMessagesRequest { to: Some(value), ..self }),
    {
        ListMessagesRequest { to: Some(value), ..self }
    }

    pub fn from(self, value: &'a str) -> (r: Self)
        ensures
            r == (ListMessagesRequest { from: Some(value), ..self }),
    {
        ListMessagesRequest { from: Some(value), ..self }
    }

    pub fn date_sent(self, value: &'a str) -> (r: Self)
        ensures
            r == (ListMessagesRequest { date_sent: Some(value), ..self }),
    {
        ListMessagesRequest { date_sent: Some(value), ..self }
    }

    pub fn date_sent_before(self, value: &'a str) -> (r: Self)
        ensures
            r == (ListMessagesRequest { date_sent_before: Some(value), ..self }),
    {
        ListMessagesRequest { date_sent_before: Some(value), ..self }
    }

    pub fn date_sent_after(self, value: &'a str) -> (r: Self)
        ensures
            r == (ListMessagesRequest { date_sent_after: Some(value), ..self }),
    {
        ListMessagesRequest { date_sent_after: Some(value), ..self }
    }

    pub fn page_size(self, value: u32) -> (r: Self)
        ensures
            r == (ListMessagesRequest { page_size: Some(value), ..self }),
    {
        ListMessagesRequest { page_size: Some(value), ..self }
    }

    pub fn page(self, value: u32) -> (r: Self)
        ensures
            r == (ListMessagesRequest { page: Some(value), ..self }),
    {
        ListMessagesRequest { page: Some(value), ..self }
    }

    pub fn page_token(self, value: &'a str) -> (r: Self)
        ensures
            r == (ListMessagesRequest { page_token: Some(value), ..self }),
    {
        ListMessagesRequest { page_token: Some(value), ..self }
    }

    /// The first documented rule this request breaks, as its error text.
    pub open spec fn violation(&self) -> Option<Seq<char>> {
        page_size_violation(self.page_size)
    }

    /// Check the documented rules on this request.
    pub fn validate(&self) -> (r: Result<(), TwilioError>)
        ensures
            check_outcome(r, self.violation()),
    {
        validate_page_size(self.page_size)
    }

    /// The query parameters of this request, in the order they are sent.
    pub open spec fn spec_query_pairs(&self) -> ParamSeq {
        str_param("To"@, opt_view(self.to)) + str_param("From"@, opt_view(self.from)) + str_param("DateSent"@, opt_view(self.date_sent)) + str_param("DateSent<"@, opt_view(self.date_sent_before)) + str_param("DateSent>"@, opt_view(self.date_sent_after)) + u32_param("PageSize"@, self.page_size) + u32_param("Page"@, self.page) + str_param("PageToken"@, opt_view(self.page_token))
    }

    /// Encode this request as query parameters.
    pub fn query_pairs(&self) -> (params: Vec<FormParam>)
        ensures
            params_view(params@) == self.spec_query_pairs(),
    {
        let mut params = Vec::new();
        push_str(&mut params, "To", self.to);
        push_str(&mut params, "From", self.from);
        push_str(&mut params, "DateSent", self.date_sent);
        push_str(&mut params, "DateSent<", self.date_sent_before);
        push_str(&mut params, "DateSent>", self.date_sent_after);
        push_u32(&mut params, "PageSize", self.page_size);
        push_u32(&mut params, "Page", self.page);
        push_str(&mut params, "PageToken", self.page_token);
        assert(params_view(params@) =~= self.spec_query_pairs());
        params
    }
}

/// Request body for updating a Message.
#[derive(Clone, Copy)]
pub struct UpdateMessageRequest<'a> {
    pub body: Option<&'a str>,
    pub status: Option<UpdateMessageStatus>,
}

impl<'a> UpdateMessageRequest<'a> {
    /// An update that changes nothing yet.
    pub fn new() -> (r: Self)
        ensures
            r.body is None,
            r.status is None,
    {
        UpdateMessageRequest { body: None, status: None }
    }

    pub fn body(self, value: &'a str) -> (r: Self)
        ensures
            r == (UpdateMessageRequest { body: Some(value), ..self }),
    {
        UpdateMessageRequest { body: Some(value), ..self }
    }
    pub fn status(self, value: UpdateMessageStatus) -> (r: Self)
        ensures
            r == (UpdateMessageRequest { status: Some(value), ..self }),
    {
        UpdateMessageRequest { status: Some(value), ..self }
    }
    /// An update that redacts the Body: it sends an empty Body.
    pub fn redact_body() -> (r: Self)
        ensures
            r.body matches Some(b) && b@ == Seq::<char>::empty(),
            r.status is None,
    {
        proof {
            reveal_strlit("");
        }
        UpdateMessageRequest { body: Some(""), status: None }
    }

    /// An update that cancels a scheduled Message.
    pub fn cancel() -> (r: Self)
        ensures
            r.body is None,
            r.status == Some(UpdateMessageStatus::Canceled),
    {
        UpdateMessageRequest { body: None, status: Some(UpdateMessageStatus::Canceled) }
    }

    /// The first documented rule this request breaks, as its error text.
    pub open spec fn violation(&self) -> Option<Seq<char>> {
        if self.body is None && self.status is None {
            Some("update requires Body or Status"@)
        } else if self.body matches Some(b) && b@.len() != 0 {
            Some("Body must be empty when updating a Message"@)
        } else {
            None
        }
    }

    /// Check the documented rules on a Message update: Twilio only accepts
    /// an empty Body, which redacts the Message.
    pub fn validate(&self) -> (r: Result<(), TwilioError>)
        ensures
            check_outcome(r, self.violation()),
    {
        if self.body.is_none() && self.status.is_none() {
            return Err(invalid("update requires Body or Status"));
        }
        if let Some(body) = self.body {
            if !body.is_empty() {
                return Err(invalid("Body must be empty when updating a Message"));
            }
        }
        Ok(())
    }

    /// The form parameters of this request, in the order they are sent.
    pub open spec fn spec_form_params(&self) -> ParamSeq {
        str_param("Body"@, opt_view(self.body)) + str_param("Status"@, enum_view(self.status))
    }

    /// Encode this request as form parameters.
    pub fn form_params(&self) -> (params: Vec<FormParam>)
        ensures
            params_view(params@) == self.spec_form_params(),
    {
        let mut params = Vec::new();
        push_str(&mut params, "Body", self.body);
        push_enum(&mut params, "Status", self.status);
        assert(params_view(params@) =~= self.spec_form_params());
        params
    }
}

/// Request for `POST /Messages/{MessageSid}/Feedback.json`.
#[derive(Clone, Copy, Debug, PartialEq, Eq)]
pub struct CreateMessageFeedbackRequest {
    pub outcome: MessageFeedbackOutcome,
}

impl CreateMessageFeedbackRequest {
    /// Feedback with the given outcome.
    pub fn new(outcome: MessageFeedbackOutcome) -> (r: Self)
        ensures
            r.outcome == outcome,
    {
        CreateMessageFeedbackRequest { outcome }
    }

    /// The form parameters of this request.
    pub open spec fn spec_form_params(&self) -> ParamSeq {
        seq![("Outcome"@, self.outcome.spec_form_value())]
    }

    /// Encode this request as form parameters.
    pub fn form_params(&self) -> (params: Vec<FormParam>)
        ensures
            params_view(params@) == self.spec_form_params(),
    {
        let mut params = Vec::new();
        push_enum(&mut params, "Outcome", Some(self.outcome));
        assert(params_view(params@) =~= self.spec_form_params());
        params
    }
}

/// Query parameters for the first page of a Message's Media list.
#[derive(Clone, Copy)]
pub struct ListMediaRequest<'a> {
    pub date_created: Option<&'a str>,
    pub date_created_before: Option<&'a str>,
    pub date_created_after: Option<&'a str>,
    pub page_size: Option<u32>,
    pub page: Option<u32>,
    pub page_token: Option<&'a str>,
}

impl<'a> ListMediaRequest<'a> {
    /// A request with every filter unset.
    pub fn new() -> (r: Self)
        ensures
            r.date_created is None,
            r.date_created_before is None,
            r.date_created_after is None,
            r.page_size is None,
            r.page is None,
            r.page_token is None,
    {
        ListMediaRequest { date_created: None, date_created_before: None, date_created_after: None, page_size: None, page: None, page_token: None }
    }

    pub fn date_created(self, value: &'a str) -> (r: Self)
        ensures
            r == (ListMediaRequest { date_created: Some(value), ..self }),
    {
        ListMediaRequest { date_created: Some(value), ..self }
    }

    pub fn date_created_before(self, value: &'a str) -> (r: Self)
        ensures
            r == (ListMediaRequest { date_created_before: Some(value), ..self }),
    {
        ListMediaRequest { date_created_before: Some(value), ..self }
    }

    pub fn date_created_after(self, value: &'a str) -> (r: Self)
        ensures
            r == (ListMediaRequest { date_created_after: Some(value), ..self }),
    {
        ListMediaRequest { date_created_after: Some(value), ..self }
    }

    pub fn page_size(self, value: u32) -> (r: Self)
        ensures
            r == (ListMediaRequest { page_size: Some(value), ..self }),
    {
        ListMediaRequest { page_size: Some(value), ..self }
    }

    pub fn page(self, value: u32) -> (r: Self)
        ensures
            r == (ListMediaRequest { page: Some(value), ..self }),
    {
        ListMediaRequest { page: Some(value), ..self }
    }

    pub fn page_token(self, value: &'a str) -> (r: Self)
        ensures
            r == (ListMediaRequest { page_token: Some(value), ..self }),
    {
        ListMediaRequest { page_token: Some(value), ..self }
    }

    /// The first documented rule this request breaks, as its error text.
    pub open spec fn violation(&self) -> Option<Seq<char>> {
        page_size_violation(self.page_size)
    }

    /// Check the documented rules on this request.
    pub fn validate(&self) -> (r: Result<(), TwilioError>)
        ensures
            check_outcome(r, self.violation()),
    {
        validate_page_size(self.page_size)
    }

    /// The query parameters of this request, in the order they are sent.
    pub open spec fn spec_query_pairs(&self) -> ParamSeq {
        str_param("DateCreated"@, opt_view(self.date_created)) + str_param("DateCreated<"@, opt_view(self.date_created_before)) + str_param("DateCreated>"@, opt_view(self.date_created_after)) + u32_param("PageSize"@, self.page_size) + u32_param("Page"@, self.page) + str_param("PageToken"@, opt_view(self.page_token))
    }

    /// Encode this request as query parameters.
    pub fn query_pairs(&self) -> (params: Vec<FormParam>)
        ensures
            params_view(params@) == self.spec_query_pairs(),
    {
        let mut params = Vec::new();
        push_str(&mut params, "DateCreated", self.date_created);
        push_str(&mut params, "DateCreated<", self.date_created_before);
        push_str(&mut params, "DateCreated>", self.date_created_after);
        push_u32(&mut params, "PageSize", self.page_size);
        push_u32(&mut params, "Page", self.page);
        push_str(&mut params, "PageToken", self.page_token);
        assert(params_view(params@) =~= self.spec_query_pairs());
        params
    }
}


/// A Message resource.
#[derive(Clone)]
pub struct TwilioMessage {
    pub body: Option<String>,
    pub num_segments: Option<String>,
    pub direction: Option<String>,
    pub from: Option<String>,
    pub to: Option<String>,
    pub date_updated: Option<time::OffsetDateTime>,
    pub price: Option<String>,
    pub error_message: Option<String>,
    pub uri: Option<String>,
    pub account_sid: Option<String>,
    pub num_media: Option<String>,
    pub status: Option<String>,
    pub messaging_service_sid: Option<String>,
    pub sid: Option<String>,
    pub date_sent: Option<time::OffsetDateTime>,
    pub date_created: Option<time::OffsetDateTime>,
    pub error_code: Option<i64>,
    pub price_unit: Option<String>,
    pub api_version: Option<String>,
    pub subresource_uris: Option<BTreeMap<String, String>>,
}

impl TwilioMessage {
    /// The fields of this record's debug text, in order, with the fields
    /// that identify an account, a person or a business hidden.
    pub open spec fn spec_debug_fields(&self) -> Seq<(Seq<char>, Seq<char>)> {
        seq![
            ("body"@, redacted_text(self.body is Some)),
            ("num_segments"@, opt_str_debug(self.num_segments)),
            ("direction"@, opt_str_debug(self.direction)),
            ("from"@, redacted_text(self.from is Some)),
            ("to"@, redacted_text(self.to is Some)),
            ("date_updated"@, opt_timestamp_debug(self.date_updated)),
            ("price"@, opt_str_debug(self.price)),
            ("error_message"@, opt_str_debug(self.error_message)),
            ("uri"@, redacted_text(self.uri is Some)),
            ("account_sid"@, redacted_text(self.account_sid is Some)),
            ("num_media"@, opt_str_debug(self.num_media)),
            ("status"@, opt_str_debug(self.status)),
            ("messaging_service_sid"@, redacted_text(self.messaging_service_sid is Some)),
            ("sid"@, redacted_text(self.sid is Some)),
            ("date_sent"@, opt_timestamp_debug(self.date_sent)),
            ("date_created"@, opt_timestamp_debug(self.date_created)),
            ("error_code"@, opt_i64_debug(self.error_code)),
            ("price_unit"@, opt_str_debug(self.price_unit)),
            ("api_version"@, opt_str_debug(self.api_version)),
            ("subresource_uris"@, redacted_text(self.subresource_uris is Some)),
        ]
    }

    /// The debug text of this record, with the fields that identify an
    /// account, a person or a business hidden as `[REDACTED]`.
    pub open spec fn spec_debug_text(&self) -> Seq<char> {
        debug_struct_text("TwilioMessage"@, self.spec_debug_fields())
    }

    /// Write the debug text of this record.
    pub fn debug_text(&self) -> (s: String)
        ensures
            s@ == self.spec_debug_text(),
    {
        let mut d = DebugStructText::new("TwilioMessage");
        d.field("body", redacted(self.body.is_some()));
        let v = debug_opt_str(&self.num_segments);
        d.field("num_segments", v.as_str());
        let v = debug_opt_str(&self.direction);
        d.field("direction", v.as_str());
        d.field("from", redacted(self.from.is_some()));
        d.field("to", redacted(self.to.is_some()));
        let v = debug_opt_timestamp(&self.date_updated);
        d.field("date_updated", v.as_str());
        let v = debug_opt_str(&self.price);
        d.field("price", v.as_str());
        let v = debug_opt_str(&self.error_message);
        d.field("error_message", v.as_str());
        d.field("uri", redacted(self.uri.is_some()));
        d.field("account_sid", redacted(self.account_sid.is_some()));
        let v = debug_opt_str(&self.num_media);
        d.field("num_media", v.as_str());
        let v = debug_opt_str(&self.status);
        d.field("status", v.as_str());
        d.field("messaging_service_sid", redacted(self.messaging_service_sid.is_some()));
        d.field("sid", redacted(self.sid.is_some()));
        let v = debug_opt_timestamp(&self.date_sent);
        d.field("date_sent", v.as_str());
        let v = debug_opt_timestamp(&self.date_created);
        d.field("date_created", v.as_str());
        let v = debug_opt_i64(self.error_code);
        d.field("error_code", v.as_str());
        let v = debug_opt_str(&self.price_unit);
        d.field("price_unit", v.as_str());
        let v = debug_opt_str(&self.api_version);
        d.field("api_version", v.as_str());
        d.field("subresource_uris", redacted(self.subresource_uris.is_some()));
        assert(d.fields@ =~= self.spec_debug_fields());
        d.finish()
    }
}

/// A Message resource as the response writes it, timestamps as text.
#[derive(Clone)]
pub struct WireMessage {
    pub body: Option<String>,
    pub num_segments: Option<String>,
    pub direction: Option<String>,
    pub from: Option<String>,
    pub to: Option<String>,
    pub date_updated: Option<String>,
    pub price: Option<String>,
    pub error_message: Option<String>,
    pub uri: Option<String>,
    pub account_sid: Option<String>,
    pub num_media: Option<String>,
    pub status: Option<String>,
    pub messaging_service_sid: Option<String>,
    pub sid: Option<String>,
    pub date_sent: Option<String>,
    pub date_created: Option<String>,
    pub error_code: Option<i64>,
    pub price_unit: Option<String>,
    pub api_version: Option<String>,
    pub subresource_uris: Option<BTreeMap<String, String>>,
}

/// A Message read from its response: each field kept, each timestamp present when its text reads as one.
pub open spec fn message_from(w: WireMessage, t: TwilioMessage) -> bool {
    t.body == w.body
        && t.num_segments == w.num_segments
        && t.direction == w.direction
        && t.from == w.from
        && t.to == w.to
        && (t.date_updated == rfc2822_value(w.date_updated))
        && t.price == w.price
        && t.error_message == w.error_message
        && t.uri == w.uri
        && t.account_sid == w.account_sid
        && t.num_media == w.num_media
        && t.status == w.status
        && t.messaging_service_sid == w.messaging_service_sid
        && t.sid == w.sid
        && (t.date_sent == rfc2822_value(w.date_sent))
        && (t.date_created == rfc2822_value(w.date_created))
        && t.error_code == w.error_code
        && t.price_unit == w.price_unit
        && t.api_version == w.api_version
        && t.subresource_uris == w.subresource_uris
}

impl WireMessage {
    /// The Message this response describes.
    pub fn into_message(self) -> (t: TwilioMessage)
        ensures
            message_from(self, t),
    {
        TwilioMessage {
            body: self.body,
            num_segments: self.num_segments,
            direction: self.direction,
            from: self.from,
            to: self.to,
            date_updated: parse_rfc2822(self.date_updated),
            price: self.price,
            error_message: self.error_message,
            uri: self.uri,
            account_sid: self.account_sid,
            num_media: self.num_media,
            status: self.status,
            messaging_service_sid: self.messaging_service_sid,
            sid: self.sid,
            date_sent: parse_rfc2822(self.date_sent),
            date_created: parse_rfc2822(self.date_created),
            error_code: self.error_code,
            price_unit: self.price_unit,
            api_version: self.api_version,
            subresource_uris: self.subresource_uris,
        }
    }
}

/// Metadata for one Media resource attached to a Message.
#[derive(Clone)]
pub struct TwilioMedia {
    pub account_sid: Option<String>,
    pub content_type: Option<String>,
    pub date_created: Option<time::OffsetDateTime>,
    pub date_updated: Option<time::OffsetDateTime>,
    pub parent_sid: Option<String>,
    pub sid: Option<String>,
    pub uri: Option<String>,
}

impl TwilioMedia {
    /// The fields of this record's debug text, in order, with the fields
    /// that identify an account, a person or a business hidden.
    pub open spec fn spec_debug_fields(&self) -> Seq<(Seq<char>, Seq<char>)> {
        seq![
            ("account_sid"@, redacted_text(self.account_sid is Some)),
            ("content_type"@, opt_str_debug(self.content_type)),
            ("date_created"@, opt_timestamp_debug(self.date_created)),
            ("date_updated"@, opt_timestamp_debug(self.date_updated)),
            ("parent_sid"@, redacted_text(self.parent_sid is Some)),
            ("sid"@, redacted_text(self.sid is Some)),
            ("uri"@, redacted_text(self.uri is Some)),
        ]
    }

    /// The debug text of this record, with the fields that identify an
    /// account, a person or a business hidden as `[REDACTED]`.
    pub open spec fn spec_debug_text(&self) -> Seq<char> {
        debug_struct_text("TwilioMedia"@, self.spec_debug_fields())
    }

    /// Write the debug text of this record.
    pub fn debug_text(&self) -> (s: String)
        ensures
            s@ == self.spec_debug_text(),
    {
        let mut d = DebugStructText::new("TwilioMedia");
        d.field("account_sid", redacted(self.account_sid.is_some()));
        let v = debug_opt_str(&self.content_type);
        d.field("content_type", v.as_str());
        let v = debug_opt_timestamp(&self.date_created);
        d.field("date_created", v.as_str());
        let v = debug_opt_timestamp(&self.date_updated);
        d.field("date_updated", v.as_str());
        d.field("parent_sid", redacted(self.parent_sid.is_some()));
        d.field("sid", redacted(self.sid.is_some()));
        d.field("uri", redacted(self.uri.is_some()));
        assert(d.fields@ =~= self.spec_debug_fields());
        d.finish()
    }
}

/// Media metadata as the response writes it, timestamps as text.
#[derive(Clone)]
pub struct WireMedia {
    pub account_sid: Option<String>,
    pub content_type: Option<String>,
    pub date_created: Option<String>,
    pub date_updated: Option<String>,
    pub parent_sid: Option<String>,
    pub sid: Option<String>,
    pub uri: Option<String>,
}

/// Media metadata read from its response.
pub open spec fn media_from(w: WireMedia, t: TwilioMedia) -> bool {
    t.account_sid == w.account_sid
        && t.content_type == w.content_type
        && (t.date_created == rfc2822_value(w.date_created))
        && (t.date_updated == rfc2822_value(w.date_updated))
        && t.parent_sid == w.parent_sid
        && t.sid == w.sid
        && t.uri == w.uri
}

impl WireMedia {
    /// The Media metadata this response describes.
    pub fn into_media(self) -> (t: TwilioMedia)
        ensures
            media_from(self, t),
    {
        TwilioMedia {
            account_sid: self.account_sid,
            content_type: self.content_type,
            date_created: parse_rfc2822(self.date_created),
            date_updated: parse_rfc2822(self.date_updated),
            parent_sid: self.parent_sid,
            sid: self.sid,
            uri: self.uri,
        }
    }
}

/// Message Feedback resource returned after reporting delivery feedback.
#[derive(Clone)]
pub struct TwilioMessageFeedback {
    pub account_sid: Option<String>,
    pub message_sid: Option<String>,
    pub outcome: Option<String>,
    pub date_created: Option<time::OffsetDateTime>,
    pub date_updated: Option<time::OffsetDateTime>,
    pub uri: Option<String>,
}

impl TwilioMessageFeedback {
    /// The fields of this record's debug text, in order, with the fields
    /// that identify an account, a person or a business hidden.
    pub open spec fn spec_debug_fields(&self) -> Seq<(Seq<char>, Seq<char>)> {
        seq![
            ("account_sid"@, redacted_text(self.account_sid is Some)),
            ("message_sid"@, redacted_text(self.message_sid is Some)),
            ("outcome"@, opt_str_debug(self.outcome)),
            ("date_created"@, opt_timestamp_debug(self.date_created)),
            ("date_updated"@, opt_timestamp_debug(self.date_updated)),
            ("uri"@, redacted_text(self.uri is Some)),
        ]
    }

    /// The debug text of this record, with the fields that identify an
    /// account, a person or a business hidden as `[REDACTED]`.
    pub open spec fn spec_debug_text(&self) -> Seq<char> {
        debug_struct_text("TwilioMessageFeedback"@, self.spec_debug_fields())
    }

    /// Write the debug text of this record.
    pub fn debug_text(&self) -> (s: String)
        ensures
            s@ == self.spec_debug_text(),
    {
        let mut d = DebugStructText::new("TwilioMessageFeedback");
        d.field("account_sid", redacted(self.account_sid.is_some()));
        d.field("message_sid", redacted(self.message_sid.is_some()));
        let v = debug_opt_str(&self.outcome);
        d.field("outcome", v.as_str());
        let v = debug_opt_timestamp(&self.date_created);
        d.field("date_created", v.as_str());
        let v = debug_opt_timestamp(&self.date_updated);
        d.field("date_updated", v.as_str());
        d.field("uri", redacted(self.uri.is_some()));
        assert(d.fields@ =~= self.spec_debug_fields());
        d.finish()
    }
}

/// Message Feedback as the response writes it, timestamps as text.
#[derive(Clone)]
pub struct WireMessageFeedback {
    pub account_sid: Option<String>,
    pub message_sid: Option<String>,
    pub outcome: Option<String>,
    pub date_created: Option<String>,
    pub date_updated: Option<String>,
    pub uri: Option<String>,
}

/// Message Feedback read from its response.
pub open spec fn feedback_from(w: WireMessageFeedback, t: TwilioMessageFeedback) -> bool {
    t.account_sid == w.account_sid
        && t.message_sid == w.message_sid
        && t.outcome == w.outcome
        && (t.date_created == rfc2822_value(w.date_created))
        && (t.date_updated == rfc2822_value(w.date_updated))
        && t.uri == w.uri
}

impl WireMessageFeedback {
    /// The Message Feedback this response describes.
    pub fn into_feedback(self) -> (t: TwilioMessageFeedback)
        ensures
            feedback_from(self, t),
    {
        TwilioMessageFeedback {
            account_sid: self.account_sid,
            message_sid: self.message_sid,
            outcome: self.outcome,
            date_created: parse_rfc2822(self.date_created),
            date_updated: parse_rfc2822(self.date_updated),
            uri: self.uri,
        }
    }
}

/// One page of Message resources plus Twilio's pagination metadata.
#[derive(Clone)]
pub struct TwilioMessagePage {
    pub messages: Vec<TwilioMessage>,
    pub next_page_uri: Option<String>,
    pub first_page_uri: Option<String>,
    pub previous_page_uri: Option<String>,
    pub uri: Option<String>,
    pub page: Option<i64>,
    pub page_size: Option<i64>,
    pub start: Option<i64>,
    pub end: Option<i64>,
}

/// A page of Messages as the response writes it.
pub struct WireMessagePage {
    pub messages: Vec<WireMessage>,
    pub next_page_uri: Option<String>,
    pub first_page_uri: Option<String>,
    pub previous_page_uri: Option<String>,
    pub uri: Option<String>,
    pub page: Option<i64>,
    pub page_size: Option<i64>,
    pub start: Option<i64>,
    pub end: Option<i64>,
}

impl WireMessagePage {
    /// The page this response describes: each item read in order, empty links dropped.
    pub fn into_page(self) -> (p: TwilioMessagePage)
        ensures
            p.messages@.len() == self.messages@.len(),
            forall|i: int| 0 <= i < p.messages@.len() ==> message_from(self.messages@[i], #[trigger] p.messages@[i]),
            opt_string_view(p.next_page_uri) == nonempty_text(opt_string_view(self.next_page_uri)),
            opt_string_view(p.first_page_uri) == nonempty_text(opt_string_view(self.first_page_uri)),
            opt_string_view(p.previous_page_uri) == nonempty_text(opt_string_view(self.previous_page_uri)),
            opt_string_view(p.uri) == nonempty_text(opt_string_view(self.uri)),
            p.page == self.page,
            p.page_size == self.page_size,
            p.start == self.start,
            p.end == self.end,
    {
        let ghost ws = self.messages@;
        let mut rest = self.messages;
        let mut items: Vec<TwilioMessage> = Vec::new();
        while rest.len() > 0
            invariant
                ws.len() == items@.len() + rest@.len(),
                rest@ == ws.skip(items@.len() as int),
                forall|i: int| 0 <= i < items@.len() ==> message_from(ws[i], #[trigger] items@[i]),
            decreases rest@.len(),
        {
            let ghost k = items@.len() as int;
            let w = rest.remove(0);
            assert(w == ws[k]);
            items.push(w.into_message());
            assert(rest@ =~= ws.skip(k + 1));
        }
        TwilioMessagePage {
            messages: items,
            next_page_uri: non_empty(self.next_page_uri),
            first_page_uri: non_empty(self.first_page_uri),
            previous_page_uri: non_empty(self.previous_page_uri),
            uri: non_empty(self.uri),
            page: self.page,
            page_size: self.page_size,
            start: self.start,
            end: self.end,
        }
    }
}

/// One page of Message Media metadata plus Twilio's pagination metadata.
#[derive(Clone)]
pub struct TwilioMediaPage {
    pub media: Vec<TwilioMedia>,
    pub next_page_uri: Option<String>,
    pub first_page_uri: Option<String>,
    pub previous_page_uri: Option<String>,
    pub uri: Option<String>,
    pub page: Option<i64>,
    pub page_size: Option<i64>,
    pub start: Option<i64>,
    pub end: Option<i64>,
}

/// A page of Media metadata as the response writes it.
pub struct WireMediaPage {
    pub media_list: Vec<WireMedia>,
    pub next_page_uri: Option<String>,
    pub first_page_uri: Option<String>,
    pub previous_page_uri: Option<String>,
    pub uri: Option<String>,
    pub page: Option<i64>,
    pub page_size: Option<i64>,
    pub start: Option<i64>,
    pub end: Option<i64>,
}

impl WireMediaPage {
    /// The page this response describes: each item read in order, empty links dropped.
    pub fn into_page(self) -> (p: TwilioMediaPage)
        ensures
            p.media@.len() == self.media_list@.len(),
            forall|i: int| 0 <= i < p.media@.len() ==> media_from(self.media_list@[i], #[trigger] p.media@[i]),
            opt_string_view(p.next_page_uri) == nonempty_text(opt_string_view(self.next_page_uri)),
            opt_string_view(p.first_page_uri) == nonempty_text(opt_string_view(self.first_page_uri)),
            opt_string_view(p.previous_page_uri) == nonempty_text(opt_string_view(self.previous_page_uri)),
            opt_string_view(p.uri) == nonempty_text(opt_string_view(self.uri)),
            p.page == self.page,
            p.page_size == self.page_size,
            p.start == self.start,
            p.end == self.end,
    {
        let ghost ws = self.media_list@;
        let mut rest = self.media_list;
        let mut items: Vec<TwilioMedia> = Vec::new();
        while rest.len() > 0
            invariant
                ws.len() == items@.len() + rest@.len(),
                rest@ == ws.skip(items@.len() as int),
                forall|i: int| 0 <= i < items@.len() ==> media_from(ws[i], #[trigger] items@[i]),
            decreases rest@.len(),
        {
            let ghost k = items@.len() as int;
            let w = rest.remove(0);
            assert(w == ws[k]);
            items.push(w.into_media());
            assert(rest@ =~= ws.skip(k + 1));
        }
        TwilioMediaPage {
            media: items,
            next_page_uri: non_empty(self.next_page_uri),
            first_page_uri: non_empty(self.first_page_uri),
            previous_page_uri: non_empty(self.previous_page_uri),
            uri: non_empty(self.uri),
            page: self.page,
            page_size: self.page_size,
            start: self.start,
            end: self.end,
        }
    }
}

/// The Messages of a page and the link to the next one, as the paginator takes them.
pub fn split_message_page(page: TwilioMessagePage) -> (r: (Vec<TwilioMessage>, Option<String>))
    ensures
        r.0@ == page.messages@,
        r.1 == page.next_page_uri,
{
    (page.messages, page.next_page_uri)
}

/// The Media of a page and the link to the next one, as the paginator takes them.
pub fn split_media_page(page: TwilioMediaPage) -> (r: (Vec<TwilioMedia>, Option<String>))
    ensures
        r.0@ == page.media@,
        r.1 == page.next_page_uri,
{
    (page.media, page.next_page_uri)
}

} // verus!
