use twilio2::error::TwilioError;
use twilio2::form::{encode_params, FormParam};
use twilio2::messages::{
    AddressRetention, ContentRetention, CreateMessageFeedbackRequest, CreateMessageRequest,
    ListMediaRequest, ListMessagesRequest, MessageFeedbackOutcome, RiskCheck, ScheduleType,
    TrafficType, UpdateMessageRequest,
};

fn pairs(params: Vec<FormParam>) -> Vec<(String, String)> {
    params.into_iter().map(|p| (p.name, p.value)).collect()
}

fn owned(v: &[(&str, &str)]) -> Vec<(String, String)> {
    v.iter().map(|(a, b)| (a.to_string(), b.to_string())).collect()
}

fn message(r: Result<(), TwilioError>) -> String {
    match r {
        Ok(()) => panic!("expected an error"),
        Err(TwilioError::InvalidRequest(m)) => m,
    }
}

#[test]
fn create_message_sends_fields_in_order() {
    let r = CreateMessageRequest::new("+15551234567").from("+15557654321").body("hello");
    assert!(r.validate().is_ok());
    assert_eq!(
        pairs(r.form_params()),
        owned(&[("To", "+15551234567"), ("From", "+15557654321"), ("Body", "hello")])
    );
}

#[test]
fn create_message_body_is_form_encoded() {
    let r = CreateMessageRequest::new("+15551234567").from("+15557654321").body("hello world&more");
    assert_eq!(
        encode_params(&r.form_params()),
        "To=%2B15551234567&From=%2B15557654321&Body=hello+world%26more"
    );
}

#[test]
fn create_message_sends_every_field() {
    let media = ["https://a.example/1.png", "https://a.example/2.png"];
    let actions = ["mailto:test@example.com"];
    let r = CreateMessageRequest::new("+1")
        .messaging_service_sid("MG1")
        .media_urls(&media)
        .content_sid("HX1")
        .status_callback("https://cb.example")
        .application_sid("AP1")
        .provide_feedback(true)
        .attempt(2)
        .validity_period(60)
        .content_retention(ContentRetention::Discard)
        .address_retention(AddressRetention::Obfuscate)
        .smart_encoded(false)
        .persistent_actions(&actions)
        .traffic_type(TrafficType::Free)
        .shorten_urls(true)
        .schedule_type(ScheduleType::Fixed)
        .send_at("2030-01-01T00:00:00Z")
        .send_as_mms(true)
        .content_variables_json("{\"1\":\"x\"}")
        .risk_check(RiskCheck::Disable)
        .fallback_from("+2")
        .tags_json("{}");
    assert!(r.validate().is_ok());
    assert_eq!(
        pairs(r.form_params()),
        owned(&[
            ("To", "+1"),
            ("MessagingServiceSid", "MG1"),
            ("MediaUrl", "https://a.example/1.png"),
            ("MediaUrl", "https://a.example/2.png"),
            ("ContentSid", "HX1"),
            ("StatusCallback", "https://cb.example"),
            ("ApplicationSid", "AP1"),
            ("ProvideFeedback", "true"),
            ("Attempt", "2"),
            ("ValidityPeriod", "60"),
            ("ContentRetention", "discard"),
            ("AddressRetention", "obfuscate"),
            ("SmartEncoded", "false"),
            ("PersistentAction", "mailto:test@example.com"),
            ("TrafficType", "free"),
            ("ShortenUrls", "true"),
            ("ScheduleType", "fixed"),
            ("SendAt", "2030-01-01T00:00:00Z"),
            ("SendAsMms", "true"),
            ("ContentVariables", "{\"1\":\"x\"}"),
            ("RiskCheck", "disable"),
            ("FallbackFrom", "+2"),
            ("Tags", "{}"),
        ])
    );
}

#[test]
fn create_message_rejects_blank_to() {
    let r = CreateMessageRequest::new("  ").from("+1").body("x");
    assert_eq!(message(r.validate()), "To must not be empty");
}

#[test]
fn create_message_requires_a_sender() {
    let r = CreateMessageRequest::new("+1").from(" ").body("x");
    assert_eq!(message(r.validate()), "either From or MessagingServiceSid is required");
}

#[test]
fn create_message_rejects_blank_media_url() {
    let media = ["https://a.example/1.png", " "];
    let r = CreateMessageRequest::new("+1").from("+2").media_urls(&media);
    assert_eq!(message(r.validate()), "MediaUrl values must not be empty");
}

#[test]
fn create_message_requires_content() {
    let r = CreateMessageRequest::new("+1").from("+2").body("");
    assert_eq!(
        message(r.validate()),
        "at least one of Body, MediaUrl, or ContentSid is required"
    );
}

#[test]
fn create_message_accepts_ten_media_urls_not_eleven() {
    let ten = ["u"; 10];
    let eleven = ["u"; 11];
    assert!(CreateMessageRequest::new("+1").from("+2").media_urls(&ten).validate().is_ok());
    assert_eq!(
        message(CreateMessageRequest::new("+1").from("+2").media_urls(&eleven).validate()),
        "MediaUrl can include at most 10 values"
    );
}

#[test]
fn create_message_body_limit_counts_characters() {
    let ok = "é".repeat(1600);
    let long = "a".repeat(1601);
    assert!(CreateMessageRequest::new("+1").from("+2").body(&ok).validate().is_ok());
    assert_eq!(
        message(CreateMessageRequest::new("+1").from("+2").body(&long).validate()),
        "Body must be at most 1600 characters"
    );
}

#[test]
fn create_message_validity_period_bounds() {
    let base = || CreateMessageRequest::new("+1").from("+2").body("x");
    assert!(base().validity_period(1).validate().is_ok());
    assert!(base().validity_period(36000).validate().is_ok());
    assert_eq!(message(base().validity_period(0).validate()), "ValidityPeriod must be in 1..=36000");
    assert_eq!(
        message(base().validity_period(36001).validate()),
        "ValidityPeriod must be in 1..=36000"
    );
}

#[test]
fn create_message_shorten_urls_needs_service() {
    let r = CreateMessageRequest::new("+1").from("+2").body("x").shorten_urls(true);
    assert_eq!(message(r.validate()), "ShortenUrls requires MessagingServiceSid");
    let r = CreateMessageRequest::new("+1").from("+2").body("x").shorten_urls(false);
    assert!(r.validate().is_ok());
}

#[test]
fn create_message_content_variables_need_content_sid() {
    let r = CreateMessageRequest::new("+1").from("+2").body("x").content_variables_json("{}");
    assert_eq!(message(r.validate()), "ContentVariables requires ContentSid");
}

#[test]
fn list_messages_query_uses_date_operators() {
    let r = ListMessagesRequest::new()
        .to("+1")
        .from("+2")
        .date_sent_before("2024-01-02")
        .date_sent_after("2024-01-01")
        .page_size(20)
        .page(1)
        .page_token("PT1");
    assert!(r.validate().is_ok());
    let params = r.query_pairs();
    assert_eq!(
        encode_params(&params),
        "To=%2B1&From=%2B2&DateSent%3C=2024-01-02&DateSent%3E=2024-01-01&PageSize=20&Page=1&PageToken=PT1"
    );
}

#[test]
fn list_messages_page_size_bounds() {
    assert!(ListMessagesRequest::new().page_size(1).validate().is_ok());
    assert!(ListMessagesRequest::new().page_size(1000).validate().is_ok());
    assert_eq!(
        message(ListMessagesRequest::new().page_size(0).validate()),
        "PageSize must be between 1 and 1000"
    );
    assert_eq!(
        message(ListMessagesRequest::new().page_size(1001).validate()),
        "PageSize must be between 1 and 1000"
    );
}

#[test]
fn update_message_needs_body_or_status() {
    assert_eq!(message(UpdateMessageRequest::new().validate()), "update requires Body or Status");
    assert_eq!(
        message(UpdateMessageRequest::new().body("new text").validate()),
        "Body must be empty when updating a Message"
    );
}

#[test]
fn update_message_redact_and_cancel() {
    let redact = UpdateMessageRequest::redact_body();
    assert!(redact.validate().is_ok());
    assert_eq!(pairs(redact.form_params()), owned(&[("Body", "")]));
    assert_eq!(encode_params(&redact.form_params()), "Body=");
    let cancel = UpdateMessageRequest::cancel();
    assert!(cancel.validate().is_ok());
    assert_eq!(pairs(cancel.form_params()), owned(&[("Status", "canceled")]));
}

#[test]
fn feedback_sends_outcome() {
    let r = CreateMessageFeedbackRequest::new(MessageFeedbackOutcome::Unconfirmed);
    assert_eq!(pairs(r.form_params()), owned(&[("Outcome", "unconfirmed")]));
}

#[test]
fn list_media_query_and_page_size() {
    let r = ListMediaRequest::new().date_created("2024-01-01").page_size(5);
    assert!(r.validate().is_ok());
    assert_eq!(encode_params(&r.query_pairs()), "DateCreated=2024-01-01&PageSize=5");
    assert_eq!(
        message(ListMediaRequest::new().page_size(2000).validate()),
        "PageSize must be between 1 and 1000"
    );
}

fn wire_message(sid: &str, date_created: Option<&str>) -> twilio2::messages::WireMessage {
    twilio2::messages::WireMessage {
        body: Some("hi".to_string()),
        num_segments: Some("1".to_string()),
        direction: Some("outbound-api".to_string()),
        from: Some("+2".to_string()),
        to: Some("+1".to_string()),
        date_updated: Some("not a date".to_string()),
        price: None,
        error_message: None,
        uri: None,
        account_sid: Some("AC1".to_string()),
        num_media: Some("0".to_string()),
        status: Some("queued".to_string()),
        messaging_service_sid: None,
        sid: Some(sid.to_string()),
        date_sent: None,
        date_created: date_created.map(str::to_string),
        error_code: Some(30007),
        price_unit: Some("USD".to_string()),
        api_version: Some("2010-04-01".to_string()),
        subresource_uris: None,
    }
}

#[test]
fn message_response_reads_rfc2822_timestamps() {
    let m = wire_message("SM1", Some("Mon, 01 Jan 2024 00:00:00 +0000")).into_message();
    assert_eq!(m.date_created.map(|d| d.unix_timestamp()), Some(1_704_067_200));
    assert!(m.date_updated.is_none());
    assert!(m.date_sent.is_none());
    assert_eq!(m.sid.as_deref(), Some("SM1"));
    assert_eq!(m.error_code, Some(30007));
    let m = wire_message("SM2", Some("2024-01-01T00:00:00Z")).into_message();
    assert!(m.date_created.is_none());
}

#[test]
fn message_page_keeps_order_and_drops_empty_links() {
    let page = twilio2::messages::WireMessagePage {
        messages: vec![wire_message("SM1", None), wire_message("SM2", None)],
        next_page_uri: Some(String::new()),
        first_page_uri: Some("/2010-04-01/Accounts/AC1/Messages.json?Page=0".to_string()),
        previous_page_uri: None,
        uri: Some(String::new()),
        page: Some(0),
        page_size: Some(50),
        start: Some(0),
        end: Some(1),
    }
    .into_page();
    let sids: Vec<Option<String>> = page.messages.iter().map(|m| m.sid.clone()).collect();
    assert_eq!(sids, vec![Some("SM1".to_string()), Some("SM2".to_string())]);
    assert_eq!(page.next_page_uri, None);
    assert_eq!(page.uri, None);
    assert!(page.first_page_uri.is_some());
    assert_eq!(page.page_size, Some(50));
    let (items, next) = twilio2::messages::split_message_page(page);
    assert_eq!(items.len(), 2);
    assert_eq!(next, None);
}

#[test]
fn media_and_feedback_responses() {
    let media = twilio2::messages::WireMedia {
        account_sid: Some("AC1".to_string()),
        content_type: Some("image/png".to_string()),
        date_created: Some("Tue, 02 Jan 2024 10:00:00 +0000".to_string()),
        date_updated: None,
        parent_sid: Some("SM1".to_string()),
        sid: Some("ME1".to_string()),
        uri: None,
    }
    .into_media();
    assert_eq!(media.date_created.map(|d| d.unix_timestamp()), Some(1_704_189_600));
    assert_eq!(media.content_type.as_deref(), Some("image/png"));
    let page = twilio2::messages::WireMediaPage {
        media_list: vec![],
        next_page_uri: Some("/next".to_string()),
        first_page_uri: None,
        previous_page_uri: None,
        uri: None,
        page: None,
        page_size: None,
        start: None,
        end: None,
    }
    .into_page();
    let (items, next) = twilio2::messages::split_media_page(page);
    assert!(items.is_empty());
    assert_eq!(next.as_deref(), Some("/next"));
    let feedback = twilio2::messages::WireMessageFeedback {
        account_sid: None,
        message_sid: Some("SM1".to_string()),
        outcome: Some("confirmed".to_string()),
        date_created: Some("garbage".to_string()),
        date_updated: None,
        uri: None,
    }
    .into_feedback();
    assert!(feedback.date_created.is_none());
    assert_eq!(feedback.outcome.as_deref(), Some("confirmed"));
}
