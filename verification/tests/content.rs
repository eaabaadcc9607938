use twilio2::content::collection::{ContentPayload, ContentTypes};
use twilio2::content::models::{
    ContentSearchRequest, CreateContentRequest, DeleteContentRequest, ListContentRequest,
    SubmitWhatsAppApprovalRequest, UpdateContentRequest, WhatsAppTemplateCategory,
};
use twilio2::content::types::{ContentMedia, ContentText};
use twilio2::error::TwilioError;
use twilio2::form::encode_params;

fn message(r: Result<(), TwilioError>) -> String {
    match r {
        Ok(()) => panic!("expected an error"),
        Err(TwilioError::InvalidRequest(m)) => m,
    }
}

#[test]
fn stored_payload_reads_back() {
    let types = ContentTypes::new().text(ContentText::new("hello"));
    assert_eq!(types.get_text().map(|t| t.body.as_str()), Some("hello"));
    assert!(types.get_media().is_none());
    assert!(matches!(types.get("twilio/text"), Some(ContentPayload::Text(_))));
    assert!(types.get("twilio/media").is_none());
    assert!(!types.is_empty());
    assert!(ContentTypes::new().is_empty());
}

#[test]
fn entries_are_kept_in_name_order() {
    let types = ContentTypes::new()
        .text(ContentText::new("hello"))
        .media(ContentMedia::new(vec!["https://m.example/1.png".to_string()]));
    let names: Vec<&str> = types.entries().iter().map(|e| e.name.as_str()).collect();
    assert_eq!(names, vec!["twilio/media", "twilio/text"]);
}

#[test]
fn storing_again_replaces() {
    let types = ContentTypes::new().text(ContentText::new("first")).text(ContentText::new("second"));
    assert_eq!(types.entries().len(), 1);
    assert_eq!(types.get_text().map(|t| t.body.as_str()), Some("second"));
}

#[test]
fn custom_types_are_checked() {
    let types = ContentTypes::new().text(ContentText::new("hi"));
    match types.custom(" ", serde_json::Value::Null) {
        Err(TwilioError::InvalidRequest(m)) => assert_eq!(m, "content type name must not be empty"),
        Ok(_) => panic!("blank name accepted"),
    }
    let types = ContentTypes::new().text(ContentText::new("hi"));
    match types.custom("twilio/media", serde_json::Value::Null) {
        Err(TwilioError::InvalidRequest(m)) => assert_eq!(m, "content type name is reserved or duplicated"),
        Ok(_) => panic!("builtin name accepted"),
    }
    let types = ContentTypes::new().custom("acme/banner", serde_json::Value::Bool(true)).unwrap();
    match types.custom("acme/banner", serde_json::Value::Null) {
        Err(TwilioError::InvalidRequest(m)) => assert_eq!(m, "content type name is reserved or duplicated"),
        Ok(_) => panic!("duplicate accepted"),
    }
}

#[test]
fn types_are_validated_in_name_order() {
    assert_eq!(message(ContentTypes::new().validate()), "Types must not be empty");
    let types = ContentTypes::new().text(ContentText::new(" ")).media(ContentMedia::new(vec![]));
    assert_eq!(message(types.validate()), "media must contain 1 to 10 URLs");
    let types = ContentTypes::new().text(ContentText::new(" "));
    assert_eq!(message(types.validate()), "text body must not be empty");
    let ok = ContentTypes::new().text(ContentText::new("hi"));
    assert!(ok.validate().is_ok());
}

#[test]
fn create_content_rules() {
    let r = CreateContentRequest::new(" ", ContentTypes::new().text(ContentText::new("hi")));
    assert_eq!(message(r.validate()), "Language must not be empty");
    let r = CreateContentRequest::new("en", ContentTypes::new().text(ContentText::new("hi"))).friendly_name(" ");
    assert_eq!(message(r.validate()), "FriendlyName must not be empty");
    let r = CreateContentRequest::new("en", ContentTypes::new());
    assert_eq!(message(r.validate()), "Types must not be empty");
    let r = CreateContentRequest::new("en", ContentTypes::new().text(ContentText::new("hi"))).variable(" ", "x");
    assert_eq!(message(r.validate()), "variable names must not be empty");
    let r = CreateContentRequest::new("en", ContentTypes::new().text(ContentText::new("hi")))
        .variable("1", "a")
        .variable("1", "b");
    assert!(r.validate().is_ok());
    assert_eq!(r.variables.last().map(|(k, v)| (k.as_str(), v.as_str())), Some(("1", "b")));
}

#[test]
fn update_content_rules() {
    assert_eq!(message(UpdateContentRequest::new(ContentTypes::new()).validate()), "Types must not be empty");
    let r = UpdateContentRequest::new(ContentTypes::new().text(ContentText::new("hi")))
        .variables(vec![("".to_string(), "x".to_string())]);
    assert_eq!(message(r.validate()), "variable names must not be empty");
    assert!(UpdateContentRequest::new(ContentTypes::new().text(ContentText::new("hi"))).validate().is_ok());
}

#[test]
fn whatsapp_approval_names() {
    let ok = SubmitWhatsAppApprovalRequest::new("order_update_2", WhatsAppTemplateCategory::Utility);
    assert!(ok.validate().is_ok());
    assert_eq!(WhatsAppTemplateCategory::Authentication.wire_name(), "AUTHENTICATION");
    for bad in ["", "Order", "order-update", "ordér"] {
        let r = SubmitWhatsAppApprovalRequest::new(bad, WhatsAppTemplateCategory::Marketing);
        assert_eq!(
            message(r.validate()),
            "WhatsApp approval name must contain only lowercase ASCII letters, digits, and underscores"
        );
    }
    assert_eq!(DeleteContentRequest::new().delete_in_waba(true).delete_in_waba, Some(true));
}

#[test]
fn content_list_requests() {
    let r = ListContentRequest::new().page_size(30).page_token("tok");
    assert!(r.validate().is_ok());
    assert_eq!(encode_params(&r.pairs()), "PageSize=30&PageToken=tok");
    assert_eq!(message(ListContentRequest::new().page_token(" ").validate()), "PageToken must not be empty");
    let d = ListContentRequest::new().with_default_page_size();
    assert_eq!(d.page_size, Some(50));
    assert_eq!(ListContentRequest::new().page_size(7).with_default_page_size().page_size, Some(7));
}

#[test]
fn content_search_rules() {
    let r = ContentSearchRequest::new().language("en").channel_eligibility("whatsapp:approved").content("hi there");
    assert!(r.validate().is_ok());
    assert_eq!(
        encode_params(&r.pairs()),
        "Language=en&ChannelEligibility=whatsapp%3Aapproved&Content=hi+there"
    );
    assert_eq!(
        message(ContentSearchRequest::new().channel_eligibility("whatsapp").validate()),
        "ChannelEligibility must use the channel:status format"
    );
    assert_eq!(
        message(ContentSearchRequest::new().channel_eligibility(":approved").validate()),
        "ChannelEligibility must use the channel:status format"
    );
    assert_eq!(message(ContentSearchRequest::new().language(" ").validate()), "Language must not be empty");
    let words = vec!["w"; 31].join(" ");
    assert_eq!(
        message(ContentSearchRequest::new().content(&words).validate()),
        "Content must not exceed 1024 characters or 30 words"
    );
    assert_eq!(
        message(ContentSearchRequest::new().date_created_after("yesterday").validate()),
        "DateCreatedAfter must be an ISO-8601 or RFC-2822 timestamp"
    );
    assert!(ContentSearchRequest::new().date_created_after("2024-01-01T00:00:00Z").validate().is_ok());
    assert!(ContentSearchRequest::new().date_created_before("Mon, 01 Jan 2024 00:00:00 +0000").validate().is_ok());
}

#[test]
fn content_sids() {
    use_sid("HX0123456789abcdefABCDEF0123456789", true);
    use_sid("HX0123456789abcdefABCDEF012345678", false);
    use_sid("HX0123456789abcdefABCDEF012345678g", false);
    use_sid("MX0123456789abcdefABCDEF0123456789", false);
    use_sid("", false);
}

fn use_sid(sid: &str, ok: bool) {
    match twilio2::content::models::validate_content_sid(sid) {
        Ok(()) => assert!(ok, "{sid}"),
        Err(TwilioError::InvalidRequest(m)) => {
            assert!(!ok, "{sid}");
            assert_eq!(m, "ContentSid must be an HX SID");
        }
    }
}

fn wire_content(date: Option<&str>) -> twilio2::content::models::WireContent {
    let mut extra = std::collections::BTreeMap::new();
    extra.insert("approval_requests_hint".to_string(), serde_json::Value::Bool(true));
    twilio2::content::models::WireContent {
        sid: Some("HX0123456789abcdef0123456789abcdef".to_string()),
        account_sid: None,
        friendly_name: Some("greeting".to_string()),
        language: Some("en".to_string()),
        variables: None,
        types: None,
        url: None,
        links: None,
        date_created: date.map(str::to_string),
        date_updated: Some("Mon, 01 Jan 2024 00:00:00 +0000".to_string()),
        extra,
    }
}

#[test]
fn content_response_reads_either_timestamp_form() {
    let c = wire_content(Some("2024-01-01T00:00:00Z")).into_content();
    assert_eq!(c.date_created.map(|d| d.unix_timestamp()), Some(1_704_067_200));
    assert_eq!(c.date_updated.map(|d| d.unix_timestamp()), Some(1_704_067_200));
    assert!(c.variables.is_empty());
    assert!(c.types.raw().is_empty());
    assert_eq!(c.extra.len(), 1);
    assert!(wire_content(Some("later")).into_content().date_created.is_none());
}

#[test]
fn content_and_approvals_moves_extra_members() {
    let item = twilio2::content::models::WireContentAndApprovals {
        content: wire_content(None),
        approval_requests: std::collections::BTreeMap::new(),
    }
    .into_item();
    assert!(item.content.extra.is_empty());
    assert_eq!(item.extra.len(), 1);
    assert_eq!(item.content.friendly_name.as_deref(), Some("greeting"));
}

#[test]
fn location_payload_rules() {
    let unreadable = ContentTypes::new().location(serde_json::Value::Null, false, false);
    assert_eq!(message(unreadable.validate()), "invalid twilio/location payload");
    let far = ContentTypes::new().location(serde_json::Value::Null, true, false);
    assert_eq!(message(far.validate()), "location coordinates are out of range");
    assert!(ContentTypes::new().location(serde_json::Value::Null, true, true).validate().is_ok());
}

#[test]
fn whatsapp_approval_json_body() {
    let r = SubmitWhatsAppApprovalRequest::new("order_update", WhatsAppTemplateCategory::Authentication);
    assert_eq!(r.json_body(), "{\"name\":\"order_update\",\"category\":\"AUTHENTICATION\"}");
    let q = SubmitWhatsAppApprovalRequest::new("a\"b", WhatsAppTemplateCategory::Utility);
    assert_eq!(q.json_body(), "{\"name\":\"a\\\"b\",\"category\":\"UTILITY\"}");
}
