use twilio2::error::TwilioError;
use twilio2::form::{encode_params, FormParam};
use twilio2::services::{
    CreateAlphaSenderRequest, CreateChannelSenderRequest, CreateDestinationAlphaSenderRequest,
    CreateServicePhoneNumberRequest, CreateServiceRequest, CreateServiceShortCodeRequest, HttpMethod,
    ListDestinationAlphaSendersRequest, ListServiceSubresourcesRequest, ListServicesRequest,
    ScanMessageContent, ServiceUsecase, UpdateServiceRequest,
};
use twilio2::short_codes::{ListAccountShortCodesRequest, UpdateAccountShortCodeRequest};

fn pairs(params: Vec<FormParam>) -> Vec<(String, String)> {
    params.into_iter().map(|p| (p.name, p.value)).collect()
}

fn owned(v: &[(&str, &str)]) -> Vec<(String, String)> {
    v.iter().map(|(a, b)| (a.to_string(), b.to_string())).collect()
}

fn message(r: Result<(), TwilioError>) -> String {
    match r {
        Ok(()) => panic!("expected an error"),
        Err(TwilioError::InvalidRequest(m)) => m,
    }
}

#[test]
fn create_service_sends_settings_in_order() {
    let r = CreateServiceRequest::new("alerts")
        .usecase(ServiceUsecase::Notifications)
        .inbound_method(HttpMethod::Post)
        .inbound_request_url("https://example.com/inbound")
        .sticky_sender(true)
        .scan_message_content(ScanMessageContent::Inherit)
        .validity_period(600);
    assert!(r.validate().is_ok());
    assert_eq!(
        pairs(r.form_params()),
        owned(&[
            ("FriendlyName", "alerts"),
            ("InboundRequestUrl", "https://example.com/inbound"),
            ("InboundMethod", "POST"),
            ("StickySender", "true"),
            ("ScanMessageContent", "inherit"),
            ("ValidityPeriod", "600"),
            ("Usecase", "notifications"),
        ])
    );
}

#[test]
fn create_service_name_rules() {
    assert_eq!(message(CreateServiceRequest::new(" ").validate()), "FriendlyName must not be empty");
    let long = "n".repeat(65);
    assert_eq!(
        message(CreateServiceRequest::new(&long).validate()),
        "FriendlyName must be at most 64 characters"
    );
    let max = "ü".repeat(64);
    assert!(CreateServiceRequest::new(&max).validate().is_ok());
}

#[test]
fn create_service_validity_period_bounds() {
    assert_eq!(
        message(CreateServiceRequest::new("a").validity_period(0).validate()),
        "ValidityPeriod must be in 1..=36000"
    );
    assert_eq!(
        message(CreateServiceRequest::new("a").validity_period(36001).validate()),
        "ValidityPeriod must be in 1..=36000"
    );
    assert!(CreateServiceRequest::new("a").validity_period(36000).validate().is_ok());
}

#[test]
fn cleared_webhooks_are_sent_empty() {
    let r = UpdateServiceRequest::new()
        .clear_inbound_request_url()
        .fallback_url("https://f.example")
        .clear_status_callback()
        .fallback_method(HttpMethod::Get);
    assert!(r.validate().is_ok());
    assert_eq!(
        pairs(r.form_params()),
        owned(&[
            ("InboundRequestUrl", ""),
            ("FallbackUrl", "https://f.example"),
            ("FallbackMethod", "GET"),
            ("StatusCallback", ""),
        ])
    );
    let cleared = UpdateServiceRequest::new().fallback_url("x").clear_fallback_url();
    assert_eq!(pairs(cleared.form_params()), owned(&[("FallbackUrl", "")]));
}

#[test]
fn update_service_requires_a_field() {
    assert_eq!(
        message(UpdateServiceRequest::new().validate()),
        "service update requires at least one field"
    );
    assert!(UpdateServiceRequest::new().mms_converter(false).validate().is_ok());
    assert!(UpdateServiceRequest::new().clear_status_callback().validate().is_ok());
    assert_eq!(
        message(UpdateServiceRequest::new().friendly_name("").validate()),
        "FriendlyName must not be empty"
    );
}

#[test]
fn update_service_sends_all_flags() {
    let r = UpdateServiceRequest::new()
        .smart_encoding(true)
        .fallback_to_long_code(false)
        .area_code_geomatch(true)
        .synchronous_validation(false)
        .use_inbound_webhook_on_number(true)
        .status_callback("https://s.example");
    assert_eq!(
        pairs(r.form_params()),
        owned(&[
            ("StatusCallback", "https://s.example"),
            ("SmartEncoding", "true"),
            ("FallbackToLongCode", "false"),
            ("AreaCodeGeomatch", "true"),
            ("SynchronousValidation", "false"),
            ("UseInboundWebhookOnNumber", "true"),
        ])
    );
}

#[test]
fn list_services_query() {
    let r = ListServicesRequest::new().page_size(50).page(2).page_token("PA");
    assert!(r.validate().is_ok());
    assert_eq!(encode_params(&r.query_pairs()), "PageSize=50&Page=2&PageToken=PA");
    assert_eq!(
        message(ListServicesRequest::new().page_size(0).validate()),
        "PageSize must be between 1 and 1000"
    );
    assert_eq!(encode_params(&ListServiceSubresourcesRequest::new().page(3).query_pairs()), "Page=3");
}

#[test]
fn list_destination_alpha_senders_query() {
    let r = ListDestinationAlphaSendersRequest::new().iso_country_code("GB").page_size(10);
    assert_eq!(encode_params(&r.query_pairs()), "IsoCountryCode=GB&PageSize=10");
}

#[test]
fn sender_requests_require_their_value() {
    assert_eq!(
        message(CreateServicePhoneNumberRequest::new(" ").validate()),
        "PhoneNumberSid must not be empty"
    );
    assert_eq!(
        message(CreateServiceShortCodeRequest::new("").validate()),
        "ShortCodeSid must not be empty"
    );
    assert_eq!(message(CreateAlphaSenderRequest::new("\t").validate()), "AlphaSender must not be empty");
    assert_eq!(message(CreateChannelSenderRequest::new("").validate()), "Sid must not be empty");
    assert_eq!(
        pairs(CreateServicePhoneNumberRequest::new("PN1").form_params()),
        owned(&[("PhoneNumberSid", "PN1")])
    );
    assert_eq!(
        pairs(CreateChannelSenderRequest::new("XE1").form_params()),
        owned(&[("Sid", "XE1")])
    );
}

#[test]
fn destination_alpha_sender_params() {
    let r = CreateDestinationAlphaSenderRequest::new("ACME").iso_country_code("FR");
    assert!(r.validate().is_ok());
    assert_eq!(
        pairs(r.form_params()),
        owned(&[("AlphaSender", "ACME"), ("IsoCountryCode", "FR")])
    );
    assert_eq!(
        message(CreateDestinationAlphaSenderRequest::new(" ").validate()),
        "AlphaSender must not be empty"
    );
}

#[test]
fn short_code_update_requires_a_field() {
    assert_eq!(
        message(UpdateAccountShortCodeRequest::new().validate()),
        "short code update requires at least one field"
    );
    let r = UpdateAccountShortCodeRequest::new()
        .friendly_name("promo")
        .api_version("2010-04-01")
        .clear_sms_url()
        .sms_method(HttpMethod::Post)
        .sms_fallback_url("https://fb.example")
        .sms_fallback_method(HttpMethod::Get);
    assert!(r.validate().is_ok());
    assert_eq!(
        pairs(r.form_params()),
        owned(&[
            ("FriendlyName", "promo"),
            ("ApiVersion", "2010-04-01"),
            ("SmsUrl", ""),
            ("SmsMethod", "POST"),
            ("SmsFallbackUrl", "https://fb.example"),
            ("SmsFallbackMethod", "GET"),
        ])
    );
    assert!(UpdateAccountShortCodeRequest::new().clear_sms_fallback_url().validate().is_ok());
}

#[test]
fn short_code_list_query() {
    let r = ListAccountShortCodesRequest::new().friendly_name("a b").short_code("12345").page_size(5);
    assert!(r.validate().is_ok());
    assert_eq!(encode_params(&r.query_pairs()), "FriendlyName=a+b&ShortCode=12345&PageSize=5");
    assert_eq!(
        message(ListAccountShortCodesRequest::new().page_size(1001).validate()),
        "PageSize must be between 1 and 1000"
    );
}
