use twilio2::content::collection::ContentTypes;
use twilio2::content::types::{ContentMedia, ContentText};
use twilio2::error::TwilioError;
use twilio2::form::{encode_params, FormParam};
use twilio2::messaging_features::{BulkContactsRequest, ContactItem};
use twilio2::pricing::normalize_iso_country;
use twilio2::services::UpdateServiceRequest;
use twilio2::short_codes::UpdateAccountShortCodeRequest;
use twilio2::tollfree_verifications::UpdateTollfreeVerificationRequest;

fn param(name: &str, value: &str) -> FormParam {
    FormParam { name: name.to_string(), value: value.to_string() }
}

#[test]
fn updates_with_one_field_are_not_empty() {
    assert!(UpdateServiceRequest::new().smart_encoding(true).validate().is_ok());
    assert!(UpdateServiceRequest::new().validate().is_err());
    assert!(UpdateAccountShortCodeRequest::new().api_version("2010-04-01").validate().is_ok());
    assert!(UpdateAccountShortCodeRequest::new().validate().is_err());
    assert!(UpdateTollfreeVerificationRequest::new().vetting_id("V").validate().is_ok());
    assert!(UpdateTollfreeVerificationRequest::new().validate().is_err());
}

#[test]
fn form_text_of_joined_lists() {
    let a = vec![param("To", "+1"), param("Body", "a b")];
    let b = vec![param("MediaUrl", "https://x.example/?q=1&r=2")];
    let mut ab = Vec::new();
    ab.push(param("To", "+1"));
    ab.push(param("Body", "a b"));
    ab.push(param("MediaUrl", "https://x.example/?q=1&r=2"));
    assert_eq!(encode_params(&ab), format!("{}&{}", encode_params(&a), encode_params(&b)));
    assert_eq!(encode_params(&ab), "To=%2B1&Body=a+b&MediaUrl=https%3A%2F%2Fx.example%2F%3Fq%3D1%26r%3D2");
    assert_eq!(encode_params(&Vec::new()), "");
}

#[test]
fn normalized_country_codes_are_stable() {
    let once = normalize_iso_country("  de\n").unwrap();
    let twice = normalize_iso_country(&once).unwrap();
    assert_eq!(once, "DE");
    assert_eq!(twice, once);
}

#[test]
fn bulk_validity_is_count_and_items() {
    let good = ContactItem::new("c", "r", "US", "1");
    let bad = ContactItem::new("c", "r", "US", "");
    assert!(BulkContactsRequest::new().item(good).item(good).validate().is_ok());
    assert!(BulkContactsRequest::new().item(good).item(bad).validate().is_err());
    assert!(good.validate().is_ok());
    match bad.validate() {
        Err(TwilioError::InvalidRequest(m)) => assert_eq!(m, "zip_code must not be empty"),
        Ok(()) => panic!("blank zip accepted"),
    }
}

#[test]
fn content_types_do_not_depend_on_order() {
    let a = ContentTypes::new()
        .text(ContentText::new("t"))
        .media(ContentMedia::new(vec!["https://m.example/a.png".to_string()]));
    let b = ContentTypes::new()
        .media(ContentMedia::new(vec!["https://m.example/a.png".to_string()]))
        .text(ContentText::new("t"));
    let names_a: Vec<&str> = a.entries().iter().map(|e| e.name.as_str()).collect();
    let names_b: Vec<&str> = b.entries().iter().map(|e| e.name.as_str()).collect();
    assert_eq!(names_a, names_b);
    assert_eq!(a.get_text().map(|t| t.body.clone()), b.get_text().map(|t| t.body.clone()));
}

#[test]
fn service_debug_text_ignores_hidden_values() {
    let a = twilio2::services::WireService {
        account_sid: Some("AC1".to_string()),
        friendly_name: Some("alerts".to_string()),
        sid: Some("MG1".to_string()),
        date_created: None,
        date_updated: None,
        sticky_sender: None,
        mms_converter: None,
        smart_encoding: None,
        fallback_to_long_code: None,
        scan_message_content: None,
        synchronous_validation: None,
        area_code_geomatch: None,
        validity_period: None,
        inbound_request_url: Some("https://a.example".to_string()),
        inbound_method: None,
        fallback_url: None,
        fallback_method: None,
        status_callback: None,
        usecase: None,
        us_app_to_person_registered: None,
        use_inbound_webhook_on_number: None,
        links: None,
        url: None,
    }
    .into_service();
    let mut b = a.clone();
    b.account_sid = Some("AC2".to_string());
    b.friendly_name = Some("other".to_string());
    b.inbound_request_url = Some("https://b.example".to_string());
    assert_eq!(a.debug_text(), b.debug_text());
}
