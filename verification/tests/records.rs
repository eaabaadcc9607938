use twilio2::link_shortening::{WireCertificateValidationStatus, WireDomainCertificate, WireDomainConfig};
use twilio2::services::{WireAlphaSender, WireService};
use twilio2::short_codes::{split_account_short_code_page, WireAccountShortCode, WireAccountShortCodePage};
use twilio2::deactivations::WireDeactivation;

fn service(date_created: Option<&str>) -> WireService {
    WireService {
        account_sid: Some("AC1".to_string()),
        friendly_name: Some("alerts".to_string()),
        sid: Some("MG1".to_string()),
        date_created: date_created.map(str::to_string),
        date_updated: Some("Mon, 01 Jan 2024 00:00:00 +0000".to_string()),
        sticky_sender: Some(true),
        mms_converter: None,
        smart_encoding: Some(false),
        fallback_to_long_code: None,
        scan_message_content: Some("inherit".to_string()),
        synchronous_validation: None,
        area_code_geomatch: None,
        validity_period: Some(14400),
        inbound_request_url: None,
        inbound_method: Some("POST".to_string()),
        fallback_url: None,
        fallback_method: None,
        status_callback: None,
        usecase: Some("notifications".to_string()),
        us_app_to_person_registered: Some(false),
        use_inbound_webhook_on_number: None,
        links: None,
        url: Some("https://messaging.twilio.com/v1/Services/MG1".to_string()),
    }
}

#[test]
fn service_response_reads_iso8601_timestamps() {
    let s = service(Some("2024-01-01T00:00:00Z")).into_service();
    assert_eq!(s.date_created.map(|d| d.unix_timestamp()), Some(1_704_067_200));
    assert!(s.date_updated.is_none());
    assert_eq!(s.validity_period, Some(14400));
    assert_eq!(s.usecase.as_deref(), Some("notifications"));
    assert!(service(None).into_service().date_created.is_none());
}

#[test]
fn alpha_sender_response() {
    let a = WireAlphaSender {
        account_sid: None,
        service_sid: Some("MG1".to_string()),
        sid: Some("AI1".to_string()),
        date_created: Some("2024-02-29T12:00:00Z".to_string()),
        date_updated: None,
        alpha_sender: Some("ACME".to_string()),
        capabilities: Some(vec!["SMS".to_string()]),
        url: None,
    }
    .into_alpha_sender();
    assert_eq!(a.date_created.map(|d| d.unix_timestamp()), Some(1_709_208_000));
    assert_eq!(a.capabilities, Some(vec!["SMS".to_string()]));
}

#[test]
fn short_code_page_response() {
    let code = WireAccountShortCode {
        account_sid: None,
        api_version: Some("2010-04-01".to_string()),
        date_created: Some("Mon, 01 Jan 2024 00:00:00 +0000".to_string()),
        date_updated: None,
        friendly_name: None,
        short_code: Some("12345".to_string()),
        sid: Some("SC1".to_string()),
        sms_fallback_method: None,
        sms_fallback_url: None,
        sms_method: None,
        sms_url: None,
        uri: None,
    };
    let page = WireAccountShortCodePage {
        short_codes: vec![code],
        next_page_uri: Some("/2010-04-01/Accounts/AC1/SMS/ShortCodes.json?Page=1".to_string()),
        first_page_uri: Some(String::new()),
        previous_page_uri: None,
        uri: None,
        page: Some(0),
        page_size: Some(1),
        start: Some(0),
        end: Some(0),
    }
    .into_page();
    assert_eq!(page.first_page_uri, None);
    assert_eq!(page.short_codes[0].date_created.map(|d| d.unix_timestamp()), Some(1_704_067_200));
    let (codes, next) = split_account_short_code_page(page);
    assert_eq!(codes[0].short_code.as_deref(), Some("12345"));
    assert!(next.is_some());
}

#[test]
fn domain_certificate_and_config_responses() {
    let cert = WireDomainCertificate {
        domain_sid: Some("DN1".to_string()),
        certificate_sid: Some(String::new()),
        domain_name: Some("l.example".to_string()),
        date_created: None,
        date_updated: None,
        date_expires: Some("2025-01-01T00:00:00Z".to_string()),
        managed: Some(true),
        requesting: Some(false),
        cert_in_validation: Some(WireCertificateValidationStatus {
            date_expires: Some("soon".to_string()),
            status: Some(String::new()),
        }),
        url: Some(String::new()),
    }
    .into_certificate();
    assert_eq!(cert.certificate_sid, None);
    assert_eq!(cert.url, None);
    assert!(cert.date_expires.is_some());
    let status = cert.cert_in_validation.expect("validation state kept");
    assert!(status.date_expires.is_none());
    assert_eq!(status.status, None);
    let config = WireDomainConfig {
        domain_sid: Some("DN1".to_string()),
        config_sid: None,
        messaging_service_sid: Some("MG1".to_string()),
        callback_url: Some(String::new()),
        fallback_url: Some("https://fb.example".to_string()),
        continue_on_failure: Some(true),
        disable_https: None,
        date_created: None,
        date_updated: None,
        url: None,
    }
    .into_config();
    assert_eq!(config.callback_url, None);
    assert_eq!(config.fallback_url.as_deref(), Some("https://fb.example"));
    assert_eq!(config.continue_on_failure, Some(true));
}

#[test]
fn service_debug_text_hides_identifiers() {
    let mut s = service(Some("2024-01-01T00:00:00Z")).into_service();
    s.usecase = Some("a\"b".to_string());
    s.validity_period = Some(-5);
    let created = s.date_created.unwrap();
    let expected = format!(
        "TwilioService {{ account_sid: Some([REDACTED]), friendly_name: Some([REDACTED]), sid: Some([REDACTED]), \
         date_created: Some({created:?}), date_updated: None, sticky_sender: Some(true), mms_converter: None, \
         smart_encoding: Some(false), fallback_to_long_code: None, scan_message_content: Some(\"inherit\"), \
         synchronous_validation: None, area_code_geomatch: None, validity_period: Some(-5), \
         inbound_request_url: None, inbound_method: Some(\"POST\"), fallback_url: None, fallback_method: None, \
         status_callback: None, usecase: Some(\"a\\\"b\"), us_app_to_person_registered: Some(false), \
         use_inbound_webhook_on_number: None, links: None, url: Some([REDACTED]) }}"
    );
    let text = s.debug_text();
    assert_eq!(text, expected);
    assert!(!text.contains("AC1") && !text.contains("alerts") && !text.contains("MG1"));
}

#[test]
fn message_debug_text_hides_body_and_numbers() {
    let m = twilio2::messages::TwilioMessage {
        body: Some("secret body".to_string()),
        num_segments: Some("1".to_string()),
        direction: None,
        from: Some("+15550001111".to_string()),
        to: None,
        date_updated: None,
        price: None,
        error_message: None,
        uri: None,
        account_sid: None,
        num_media: None,
        status: Some("sent".to_string()),
        messaging_service_sid: None,
        sid: Some("SM1".to_string()),
        date_sent: None,
        date_created: None,
        error_code: Some(30007),
        price_unit: None,
        api_version: None,
        subresource_uris: Some(std::collections::BTreeMap::new()),
    };
    assert_eq!(
        m.debug_text(),
        "TwilioMessage { body: Some([REDACTED]), num_segments: Some(\"1\"), direction: None, from: Some([REDACTED]), \
         to: None, date_updated: None, price: None, error_message: None, uri: None, account_sid: None, num_media: None, \
         status: Some(\"sent\"), messaging_service_sid: None, sid: Some([REDACTED]), date_sent: None, date_created: None, \
         error_code: Some(30007), price_unit: None, api_version: None, subresource_uris: Some([REDACTED]) }"
    );
}

#[test]
fn deactivation_debug_text_hides_redirect() {
    let d = WireDeactivation { redirect_to: Some("https://r.example/secret".to_string()) }.into_deactivation();
    assert_eq!(d.debug_text(), "TwilioDeactivation { redirect_to: Some([REDACTED]) }");
    let e = WireDeactivation { redirect_to: None }.into_deactivation();
    assert_eq!(e.debug_text(), "TwilioDeactivation { redirect_to: None }");
}

#[test]
fn service_phone_number_debug_text_lists_capabilities() {
    let p = twilio2::services::TwilioServicePhoneNumber {
        account_sid: Some("AC1".to_string()),
        service_sid: None,
        sid: None,
        date_created: None,
        date_updated: None,
        phone_number: Some("+15550001111".to_string()),
        country_code: Some("US".to_string()),
        capabilities: Some(vec!["SMS".to_string(), "MMS".to_string()]),
        url: None,
    };
    assert_eq!(
        p.debug_text(),
        "TwilioServicePhoneNumber { account_sid: Some([REDACTED]), service_sid: None, sid: None, date_created: None, \
         date_updated: None, phone_number: Some([REDACTED]), country_code: Some(\"US\"), \
         capabilities: Some([\"SMS\", \"MMS\"]), url: None }"
    );
    let q = twilio2::services::TwilioServicePhoneNumber { capabilities: Some(vec![]), ..p };
    assert!(q.debug_text().contains("capabilities: Some([])"));
}

#[test]
fn certificate_debug_text_nests_validation() {
    let c = twilio2::link_shortening::TwilioLinkShorteningDomainCertificate {
        domain_sid: Some("DN1".to_string()),
        certificate_sid: None,
        domain_name: Some("links.example".to_string()),
        date_created: None,
        date_updated: None,
        date_expires: None,
        managed: Some(true),
        requesting: None,
        cert_in_validation: Some(twilio2::link_shortening::TwilioCertificateValidationStatus {
            date_expires: None,
            status: Some("pending".to_string()),
        }),
        url: None,
    };
    assert_eq!(
        c.debug_text(),
        "TwilioLinkShorteningDomainCertificate { domain_sid: Some([REDACTED]), certificate_sid: None, \
         domain_name: Some([REDACTED]), date_created: None, date_updated: None, date_expires: None, \
         managed: Some(true), requesting: None, cert_in_validation: Some(TwilioCertificateValidationStatus { \
         date_expires: None, status: Some(\"pending\") }), url: None }"
    );
}
