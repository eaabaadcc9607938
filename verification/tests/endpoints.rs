use std::collections::BTreeMap;

use twilio2::deactivations::{validate_yyyy_mm_dd, FetchDeactivationsRequest, WireDeactivation};
use twilio2::error::TwilioError;
use twilio2::form::{encode_params, FormParam};
use twilio2::link_shortening::{
    UpdateLinkShorteningDomainCertificateRequest, UpdateLinkShorteningDomainConfigRequest, WireDnsValidation,
    WireMessagingServiceAssociation,
};
use twilio2::messaging_features::{
    BulkConsentsRequest, BulkContactsRequest, ConsentItem, ConsentSource, ConsentStatus, ContactItem,
    SafeListNumberRequest,
};
use twilio2::pricing::{
    normalize_iso_country, read_decimal, WireInboundSmsPrice, WireOriginBasedPrefixPrice, WireOutboundSmsPrice,
    WirePricingMessagingCountry, WireSmsPrice, WireVoicePrefixPrice, FetchPricingOriginBasedNumberRequest, ListPricingMessagingCountriesRequest,
    WirePricingCountrySummary, WirePricingMessaging, WirePricingMessagingCountrySummary,
};
use twilio2::typing_indicators::{
    CreateMessagingV2TypingIndicatorRequest, CreateMessagingV3TypingIndicatorRequest, TypingEvent,
    WireTypingIndicator,
};

fn pairs(params: Vec<FormParam>) -> Vec<(String, String)> {
    params.into_iter().map(|p| (p.name, p.value)).collect()
}

fn owned(v: &[(&str, &str)]) -> Vec<(String, String)> {
    v.iter().map(|(a, b)| (a.to_string(), b.to_string())).collect()
}

fn message(r: Result<(), TwilioError>) -> String {
    match r {
        Ok(()) => panic!("expected an error"),
        Err(TwilioError::InvalidRequest(m)) => m,
    }
}

#[test]
fn domain_config_requires_a_field() {
    assert_eq!(
        message(UpdateLinkShorteningDomainConfigRequest::new().validate()),
        "at least one Link Shortening domain config field must be set"
    );
    assert_eq!(
        message(UpdateLinkShorteningDomainConfigRequest::new().callback_url(" ").validate()),
        "at least one Link Shortening domain config field must be set"
    );
    assert_eq!(
        message(
            UpdateLinkShorteningDomainConfigRequest::new()
                .callback_url(" ")
                .continue_on_failure(true)
                .validate()
        ),
        "CallbackUrl must not be empty"
    );
    assert_eq!(
        message(
            UpdateLinkShorteningDomainConfigRequest::new()
                .callback_url("https://cb.example")
                .fallback_url("")
                .validate()
        ),
        "FallbackUrl must not be empty"
    );
}

#[test]
fn domain_config_params() {
    let r = UpdateLinkShorteningDomainConfigRequest::new()
        .disable_https(false)
        .fallback_url("https://fb.example")
        .callback_url("https://cb.example")
        .continue_on_failure(true);
    assert!(r.validate().is_ok());
    assert_eq!(
        pairs(r.form_params()),
        owned(&[
            ("CallbackUrl", "https://cb.example"),
            ("FallbackUrl", "https://fb.example"),
            ("ContinueOnFailure", "true"),
            ("DisableHttps", "false"),
        ])
    );
}

#[test]
fn domain_certificate_request() {
    assert_eq!(
        message(UpdateLinkShorteningDomainCertificateRequest::new(" \n").validate()),
        "TlsCert must not be empty"
    );
    let r = UpdateLinkShorteningDomainCertificateRequest::new("-----BEGIN CERTIFICATE-----");
    assert!(r.validate().is_ok());
    assert_eq!(pairs(r.form_params()), owned(&[("TlsCert", "-----BEGIN CERTIFICATE-----")]));
}

#[test]
fn link_shortening_responses_drop_empty_texts() {
    let v = WireDnsValidation {
        domain_sid: Some(String::new()),
        is_valid: Some(true),
        reason: None,
        url: Some("https://v.example".to_string()),
    }
    .into_validation();
    assert_eq!(v.domain_sid, None);
    assert_eq!(v.is_valid, Some(true));
    assert_eq!(v.reason, None);
    assert_eq!(v.url.as_deref(), Some("https://v.example"));
    let m = WireMessagingServiceAssociation {
        domain_sid: Some("DN1".to_string()),
        messaging_service_sid: Some(String::new()),
        url: None,
    }
    .into_association();
    assert_eq!(m.domain_sid.as_deref(), Some("DN1"));
    assert_eq!(m.messaging_service_sid, None);
}

#[test]
fn typing_indicator_v2_params() {
    let r = CreateMessagingV2TypingIndicatorRequest::whatsapp("WA1");
    assert!(r.validate().is_ok());
    assert_eq!(pairs(r.form_params()), owned(&[("channel", "whatsapp"), ("messageId", "WA1")]));
    assert_eq!(
        message(CreateMessagingV2TypingIndicatorRequest::whatsapp(" ").validate()),
        "messageId must not be empty"
    );
}

#[test]
fn typing_indicator_v3_json() {
    assert_eq!(
        CreateMessagingV3TypingIndicatorRequest::whatsapp("WA\"1").json_body(),
        "{\"channel\":\"WHATSAPP\",\"messageId\":\"WA\\\"1\"}"
    );
    assert_eq!(
        CreateMessagingV3TypingIndicatorRequest::apple("a", "b").event(TypingEvent::Start).json_body(),
        "{\"channel\":\"APPLE\",\"from\":\"a\",\"to\":\"b\",\"event\":\"START\"}"
    );
    assert_eq!(
        CreateMessagingV3TypingIndicatorRequest::rcs("a", "b").json_body(),
        "{\"channel\":\"RCS\",\"from\":\"a\",\"to\":\"b\"}"
    );
    assert_eq!(
        CreateMessagingV3TypingIndicatorRequest::whatsapp("W").event(TypingEvent::End).json_body(),
        "{\"channel\":\"WHATSAPP\",\"messageId\":\"W\"}"
    );
    assert_eq!(
        CreateMessagingV3TypingIndicatorRequest::rcs("a", "b").event(TypingEvent::End).json_body(),
        "{\"channel\":\"RCS\",\"from\":\"a\",\"to\":\"b\",\"event\":\"END\"}"
    );
}

#[test]
fn typing_indicator_v3_validation() {
    assert_eq!(
        message(CreateMessagingV3TypingIndicatorRequest::apple(" ", "b").validate()),
        "from must not be empty"
    );
    assert_eq!(
        message(CreateMessagingV3TypingIndicatorRequest::rcs("a", "").validate()),
        "to must not be empty"
    );
    assert_eq!(
        message(CreateMessagingV3TypingIndicatorRequest::whatsapp("").validate()),
        "messageId must not be empty"
    );
    assert!(CreateMessagingV3TypingIndicatorRequest::apple("a", "b").validate().is_ok());
    assert_eq!(WireTypingIndicator { success: Some(true) }.into_indicator().success, Some(true));
}

#[test]
fn contact_items_are_sent_as_json() {
    let r = BulkContactsRequest::new().item(ContactItem::new("c1", "r1", "US", "94105"));
    assert!(r.validate().is_ok());
    assert_eq!(
        pairs(r.form_params()),
        owned(&[(
            "Items",
            "{\"contact_id\":\"c1\",\"correlation_id\":\"r1\",\"country_iso_code\":\"US\",\"zip_code\":\"94105\"}"
        )])
    );
}

#[test]
fn bulk_contacts_count_and_item_rules() {
    assert_eq!(message(BulkContactsRequest::new().validate()), "Items must contain at least one item");
    let item = ContactItem::new("c", "r", "US", "1");
    let many: Vec<ContactItem> = (0..26).map(|_| item).collect();
    assert_eq!(
        message(BulkContactsRequest::new().items(many).validate()),
        "Items must contain at most 25 items"
    );
    let max: Vec<ContactItem> = (0..25).map(|_| item).collect();
    assert!(BulkContactsRequest::new().items(max).validate().is_ok());
    let r = BulkContactsRequest::new().item(item).item(ContactItem::new("c", "r", "US", " "));
    assert_eq!(message(r.validate()), "zip_code must not be empty");
    let r = BulkContactsRequest::new().item(ContactItem::new("c", "", "", ""));
    assert_eq!(message(r.validate()), "correlation_id must not be empty");
}

#[test]
fn consent_items_are_sent_as_json() {
    let item = ConsentItem::new("c1", "r1", "+15550001111", ConsentStatus::OptIn, ConsentSource::OptInMessage)
        .date_of_consent("2024-01-01T00:00:00Z");
    let other = ConsentItem::new("c2", "r2", "s", ConsentStatus::Custom("paused"), ConsentSource::Others);
    let r = BulkConsentsRequest::new().items(vec![item, other]);
    assert!(r.validate().is_ok());
    assert_eq!(
        pairs(r.form_params()),
        owned(&[
            (
                "Items",
                "{\"contact_id\":\"c1\",\"correlation_id\":\"r1\",\"sender_id\":\"+15550001111\",\"status\":\"opt-in\",\"source\":\"opt-in-message\",\"date_of_consent\":\"2024-01-01T00:00:00Z\"}"
            ),
            (
                "Items",
                "{\"contact_id\":\"c2\",\"correlation_id\":\"r2\",\"sender_id\":\"s\",\"status\":\"paused\",\"source\":\"others\"}"
            ),
        ])
    );
}

#[test]
fn consent_item_rules() {
    let blank_status = ConsentItem::new("c", "r", "s", ConsentStatus::Custom(" "), ConsentSource::Website);
    assert_eq!(message(BulkConsentsRequest::new().item(blank_status).validate()), "status must not be empty");
    let blank_source = ConsentItem::new("c", "r", "s", ConsentStatus::OptOut, ConsentSource::Custom(""));
    assert_eq!(message(BulkConsentsRequest::new().item(blank_source).validate()), "source must not be empty");
    let blank_date = ConsentItem::new("c", "r", "s", ConsentStatus::OptOut, ConsentSource::Offline)
        .date_of_consent(" ");
    assert_eq!(
        message(BulkConsentsRequest::new().item(blank_date).validate()),
        "date_of_consent must not be empty"
    );
    assert_eq!(message(BulkConsentsRequest::new().validate()), "Items must contain at least one item");
}

#[test]
fn safe_list_number_request() {
    assert_eq!(message(SafeListNumberRequest::new("").validate()), "PhoneNumber must not be empty");
    let r = SafeListNumberRequest::new("+15551234567");
    assert_eq!(encode_params(&r.query_pairs()), "PhoneNumber=%2B15551234567");
    assert_eq!(pairs(r.form_params()), owned(&[("PhoneNumber", "+15551234567")]));
}

#[test]
fn iso_country_is_trimmed_and_upper_cased() {
    assert_eq!(normalize_iso_country(" us ").unwrap(), "US");
    assert_eq!(normalize_iso_country("Gb").unwrap(), "GB");
    assert_eq!(normalize_iso_country("\u{3000}fr\t").unwrap(), "FR");
    for bad in ["usa", "u1", "", "  ", "é", "u s"] {
        match normalize_iso_country(bad) {
            Err(TwilioError::InvalidRequest(m)) => {
                assert_eq!(m, "IsoCountry must be a two-letter ASCII country code")
            }
            Ok(v) => panic!("accepted {bad:?} as {v}"),
        }
    }
}

#[test]
fn pricing_requests() {
    let r = ListPricingMessagingCountriesRequest::new().page_size(10).page_token("PT");
    assert!(r.validate().is_ok());
    assert_eq!(encode_params(&r.query_pairs()), "PageSize=10&PageToken=PT");
    assert_eq!(
        message(ListPricingMessagingCountriesRequest::new().page_token(" ").validate()),
        "PageToken must not be empty"
    );
    assert_eq!(
        message(ListPricingMessagingCountriesRequest::new().page_size(0).page_token(" ").validate()),
        "PageSize must be between 1 and 1000"
    );
    assert_eq!(
        message(FetchPricingOriginBasedNumberRequest::new().origination_number("").validate()),
        "OriginationNumber must not be empty"
    );
    let r = FetchPricingOriginBasedNumberRequest::new().origination_number("+15551234567");
    assert!(r.validate().is_ok());
    assert_eq!(encode_params(&r.query_pairs()), "OriginationNumber=%2B15551234567");
    assert!(FetchPricingOriginBasedNumberRequest::new().query_pairs().is_empty());
}

#[test]
fn pricing_responses_drop_empty_values() {
    let m = WirePricingMessaging { name: Some(String::new()), url: None, links: Some(BTreeMap::new()) }.into_pricing_messaging();
    assert_eq!(m.name, None);
    assert!(m.links.is_none());
    let mut links = BTreeMap::new();
    links.insert("countries".to_string(), "https://pricing.example/v1/Messaging/Countries".to_string());
    let m = WirePricingMessaging { name: Some("Messaging".to_string()), url: None, links: Some(links) }.into_pricing_messaging();
    assert_eq!(m.links.map(|l| l.len()), Some(1));
    let s = WirePricingMessagingCountrySummary { country: Some("Peru".to_string()), iso_country: Some(String::new()), url: None }.into_summary();
    assert_eq!(s.country.as_deref(), Some("Peru"));
    assert_eq!(s.iso_country, None);
    let s = WirePricingCountrySummary { country: None, iso_country: Some("PE".to_string()), url: Some(String::new()) }.into_summary();
    assert_eq!(s.iso_country.as_deref(), Some("PE"));
    assert_eq!(s.url, None);
}

#[test]
fn deactivation_dates() {
    for good in ["2024-02-29", "2024-04-30", "0001-01-01", "9999-12-31"] {
        assert!(FetchDeactivationsRequest::new(good).validate().is_ok(), "{good}");
    }
    for bad in [
        "2023-02-29", "2024-13-01", "2024-00-10", "2024-04-31", "2024-1-01", "2024/01/01", "2024-01-001",
        "20240-1-01", "2024-01--1", "２０２４-01-01", "", "2024-01-00", "+-24-01-01", "2024-01-0a",
        "+024-01-01", "+202-01-01", "2024-+4-10", "2024-+1-01", "2024-01-+9",
    ] {
        assert_eq!(
            message(FetchDeactivationsRequest::new(bad).validate()),
            "Date must be a valid YYYY-MM-DD date",
            "{bad}"
        );
    }
    assert_eq!(message(validate_yyyy_mm_dd("Day", "x")), "Day must be a valid YYYY-MM-DD date");
    assert_eq!(encode_params(&FetchDeactivationsRequest::new("2024-02-29").query_pairs()), "Date=2024-02-29");
    assert_eq!(
        WireDeactivation { redirect_to: Some("https://r.example".to_string()) }.into_deactivation().redirect_to.as_deref(),
        Some("https://r.example")
    );
}

#[test]
fn price_texts_are_read_as_decimals() {
    assert!(matches!(read_decimal(None), Ok(None)));
    assert!(matches!(read_decimal(Some("  ")), Ok(None)));
    assert_eq!(read_decimal(Some("0.0075")).unwrap().map(|d| d.to_string()), Some("0.0075".to_string()));
    assert_eq!(read_decimal(Some("-1.5")).unwrap().map(|d| d.to_string()), Some("-1.5".to_string()));
    assert!(read_decimal(Some("abc")).is_err());
}

#[test]
fn prefix_prices_drop_empty_prefixes() {
    let p = WireVoicePrefixPrice {
        prefixes: vec!["1".to_string(), String::new(), "1201".to_string()],
        base_price: None,
        current_price: None,
        friendly_name: Some(String::new()),
    }
    .into_price();
    assert_eq!(p.prefixes, vec!["1".to_string(), "1201".to_string()]);
    assert_eq!(p.friendly_name, None);
    let p = WireOriginBasedPrefixPrice {
        origination_prefixes: vec![String::new()],
        destination_prefixes: vec!["44".to_string()],
        base_price: None,
        current_price: None,
        friendly_name: Some("UK".to_string()),
    }
    .into_price();
    assert!(p.origination_prefixes.is_empty());
    assert_eq!(p.destination_prefixes, vec!["44".to_string()]);
}

#[test]
fn messaging_country_pricing_is_read_in_order() {
    let c = WirePricingMessagingCountry {
        country: Some("United States".to_string()),
        iso_country: Some("US".to_string()),
        outbound_sms_prices: vec![
            WireOutboundSmsPrice {
                carrier: Some("A".to_string()),
                mcc: Some(String::new()),
                mnc: None,
                prices: vec![WireSmsPrice { base_price: None, current_price: None, number_type: Some("local".to_string()) }],
            },
            WireOutboundSmsPrice { carrier: Some("B".to_string()), mcc: None, mnc: None, prices: vec![] },
        ],
        inbound_sms_prices: vec![WireInboundSmsPrice { base_price: None, current_price: None, number_type: Some(String::new()) }],
        price_unit: Some("USD".to_string()),
        url: None,
    }
    .into_country();
    let carriers: Vec<Option<String>> = c.outbound_sms_prices.iter().map(|p| p.carrier.clone()).collect();
    assert_eq!(carriers, vec![Some("A".to_string()), Some("B".to_string())]);
    assert_eq!(c.outbound_sms_prices[0].mcc, None);
    assert_eq!(c.outbound_sms_prices[0].prices[0].number_type.as_deref(), Some("local"));
    assert_eq!(c.inbound_sms_prices[0].number_type, None);
    assert_eq!(c.price_unit.as_deref(), Some("USD"));
}
