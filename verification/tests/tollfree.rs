use twilio2::error::TwilioError;
use twilio2::form::{encode_params, FormParam};
use twilio2::tollfree_verifications::{
    CreateTollfreeVerificationRequest, ListTollfreeVerificationsRequest, TollfreeBusinessRegistrationAuthority,
    TollfreeBusinessType, TollfreeMessageVolume, TollfreeOptInType, TollfreeUseCaseCategory,
    TollfreeVerificationStatus, TollfreeVettingProvider, UpdateTollfreeVerificationRequest,
};

fn pairs(params: Vec<FormParam>) -> Vec<(String, String)> {
    params.into_iter().map(|p| (p.name, p.value)).collect()
}

fn owned(v: &[(&str, &str)]) -> Vec<(String, String)> {
    v.iter().map(|(a, b)| (a.to_string(), b.to_string())).collect()
}

fn message(r: Result<(), TwilioError>) -> String {
    match r {
        Ok(()) => panic!("expected an error"),
        Err(TwilioError::InvalidRequest(m)) => m,
    }
}

const CATEGORIES: [TollfreeUseCaseCategory<'static>; 2] =
    [TollfreeUseCaseCategory::TwoFactorAuthentication, TollfreeUseCaseCategory::Raw("NEW_CATEGORY")];
const IMAGES: [&str; 1] = ["https://img.example/optin.png"];

fn complete() -> CreateTollfreeVerificationRequest<'static> {
    CreateTollfreeVerificationRequest::new()
        .business_name("Acme")
        .business_website("https://acme.example")
        .notification_email("ops@acme.example")
        .use_case_categories(&CATEGORIES)
        .use_case_summary("One-time codes")
        .production_message_sample("Your code is 123456")
        .opt_in_image_urls(&IMAGES)
        .opt_in_type(TollfreeOptInType::WebForm)
        .message_volume(TollfreeMessageVolume::Thousand)
        .tollfree_phone_number_sid("PN1")
}

#[test]
fn create_tollfree_sends_documented_order() {
    let r = complete().age_gated_content(false).external_reference_id("ext-1");
    assert!(r.validate().is_ok());
    assert_eq!(
        pairs(r.form_params()),
        owned(&[
            ("BusinessName", "Acme"),
            ("BusinessWebsite", "https://acme.example"),
            ("NotificationEmail", "ops@acme.example"),
            ("UseCaseCategories", "TWO_FACTOR_AUTHENTICATION"),
            ("UseCaseCategories", "NEW_CATEGORY"),
            ("UseCaseSummary", "One-time codes"),
            ("ProductionMessageSample", "Your code is 123456"),
            ("OptInImageUrls", "https://img.example/optin.png"),
            ("OptInType", "WEB_FORM"),
            ("MessageVolume", "1,000"),
            ("TollfreePhoneNumberSid", "PN1"),
            ("ExternalReferenceId", "ext-1"),
            ("AgeGatedContent", "false"),
        ])
    );
}

#[test]
fn create_tollfree_volume_is_form_encoded() {
    let r = CreateTollfreeVerificationRequest::new().message_volume(TollfreeMessageVolume::TenMillionPlus);
    assert_eq!(encode_params(&r.form_params()), "MessageVolume=10%2C000%2C000%2B");
}

#[test]
fn create_tollfree_required_fields_in_order() {
    assert_eq!(message(CreateTollfreeVerificationRequest::new().validate()), "BusinessName must not be empty");
    assert_eq!(
        message(complete().use_case_categories(&[]).validate()),
        "UseCaseCategories must not be empty"
    );
    assert_eq!(message(complete().opt_in_image_urls(&[]).validate()), "OptInImageUrls must not be empty");
    assert_eq!(
        message(complete().opt_in_type(TollfreeOptInType::Raw(" ")).validate()),
        "OptInType must not be empty"
    );
    let mut no_opt_in = complete();
    no_opt_in.fields.opt_in_type = None;
    assert_eq!(message(no_opt_in.validate()), "OptInType must not be empty");
    let mut no_volume = complete();
    no_volume.fields.message_volume = None;
    assert_eq!(message(no_volume.validate()), "MessageVolume must not be empty");
    assert_eq!(
        message(complete().tollfree_phone_number_sid(" ").validate()),
        "TollfreePhoneNumberSid must not be empty"
    );
}

#[test]
fn create_tollfree_common_rules() {
    let blank_category = [TollfreeUseCaseCategory::Raw("")];
    assert_eq!(
        message(complete().use_case_categories(&blank_category).validate()),
        "UseCaseCategories values must not be empty"
    );
    let blank_image = ["ok", " "];
    assert_eq!(
        message(complete().opt_in_image_urls(&blank_image).validate()),
        "OptInImageUrls values must not be empty"
    );
    let keywords = ["START", ""];
    assert_eq!(
        message(complete().opt_in_keywords(&keywords).validate()),
        "OptInKeywords values must not be empty"
    );
    assert_eq!(
        message(complete().business_type(TollfreeBusinessType::Raw(" ")).validate()),
        "BusinessType must not be empty"
    );
    assert_eq!(
        message(
            complete()
                .business_registration_authority(TollfreeBusinessRegistrationAuthority::Raw(""))
                .validate()
        ),
        "BusinessRegistrationAuthority must not be empty"
    );
    assert_eq!(
        message(complete().vetting_provider(TollfreeVettingProvider::Raw("\t")).validate()),
        "VettingProvider must not be empty"
    );
}

#[test]
fn update_tollfree_requires_a_field() {
    assert_eq!(
        message(UpdateTollfreeVerificationRequest::new().validate()),
        "toll-free verification update requires at least one field"
    );
    let r = UpdateTollfreeVerificationRequest::new()
        .edit_reason("fix address")
        .business_registration_authority(TollfreeBusinessRegistrationAuthority::UstIdNr)
        .business_type(TollfreeBusinessType::NonProfit)
        .vetting_provider(TollfreeVettingProvider::CampaignVerify)
        .vetting_id("V1");
    assert!(r.validate().is_ok());
    assert_eq!(
        pairs(r.form_params()),
        owned(&[
            ("EditReason", "fix address"),
            ("BusinessRegistrationAuthority", "USt-IdNr"),
            ("BusinessType", "NON_PROFIT"),
            ("VettingProvider", "CAMPAIGN_VERIFY"),
            ("VettingId", "V1"),
        ])
    );
}

#[test]
fn list_tollfree_query() {
    let sids = ["BU1", "BU2"];
    let r = ListTollfreeVerificationsRequest::new()
        .tollfree_phone_number_sid("PN1")
        .status(TollfreeVerificationStatus::TwilioApproved)
        .external_reference_id("x")
        .include_sub_accounts(true)
        .trust_product_sids(&sids)
        .page_size(20);
    assert!(r.validate().is_ok());
    assert_eq!(
        encode_params(&r.query_pairs()),
        "TollfreePhoneNumberSid=PN1&Status=TWILIO_APPROVED&ExternalReferenceId=x&IncludeSubAccounts=true&TrustProductSid=BU1&TrustProductSid=BU2&PageSize=20"
    );
}

#[test]
fn list_tollfree_rules() {
    assert_eq!(
        message(ListTollfreeVerificationsRequest::new().page_size(0).validate()),
        "PageSize must be between 1 and 1000"
    );
    assert_eq!(
        message(ListTollfreeVerificationsRequest::new().status(TollfreeVerificationStatus::Raw(" ")).validate()),
        "Status must not be empty"
    );
    let sids = [""];
    assert_eq!(
        message(ListTollfreeVerificationsRequest::new().trust_product_sids(&sids).validate()),
        "TrustProductSid values must not be empty"
    );
}

#[test]
fn tollfree_verification_debug_text_hides_business_details() {
    let v = twilio2::tollfree_verifications::TwilioTollfreeVerification {
        sid: Some("VA1".to_string()),
        account_sid: None,
        customer_profile_sid: None,
        trust_product_sid: None,
        regulated_item_sid: None,
        date_created: None,
        date_updated: None,
        business_name: Some("Acme".to_string()),
        business_street_address: None,
        business_street_address2: None,
        business_city: None,
        business_state_province_region: None,
        business_postal_code: None,
        business_country: None,
        business_website: None,
        business_contact_first_name: None,
        business_contact_last_name: None,
        business_contact_email: None,
        business_contact_phone: None,
        notification_email: None,
        use_case_categories: None,
        use_case_summary: None,
        production_message_sample: None,
        opt_in_image_urls: None,
        opt_in_type: None,
        message_volume: None,
        additional_information: None,
        tollfree_phone_number_sid: None,
        tollfree_phone_number: None,
        status: Some("TWILIO_APPROVED".to_string()),
        rejection_reason: None,
        error_code: Some(30500),
        edit_expiration: None,
        edit_allowed: Some(false),
        rejection_reasons: Some(serde_json::Value::Null),
        resource_links: None,
        url: None,
        external_reference_id: None,
        business_registration_number: None,
        business_registration_authority: None,
        business_registration_country: None,
        business_type: None,
        business_registration_phone_number: None,
        doing_business_as: None,
        age_gated_content: None,
        help_message_sample: None,
        opt_in_confirmation_message: None,
        opt_in_keywords: Some(vec!["START".to_string()]),
        privacy_policy_url: None,
        terms_and_conditions_url: None,
        vetting_id: None,
        vetting_id_expiration: None,
        vetting_provider: None,
    };
    let text = v.debug_text();
    assert_eq!(text, "TwilioTollfreeVerification { sid: Some([REDACTED]), account_sid: None, customer_profile_sid: None, trust_product_sid: None, regulated_item_sid: None, date_created: None, date_updated: None, business_name: Some([REDACTED]), business_street_address: None, business_street_address2: None, business_city: None, business_state_province_region: None, business_postal_code: None, business_country: None, business_website: None, business_contact_first_name: None, business_contact_last_name: None, business_contact_email: None, business_contact_phone: None, notification_email: None, use_case_categories: None, use_case_summary: None, production_message_sample: None, opt_in_image_urls: None, opt_in_type: None, message_volume: None, additional_information: None, tollfree_phone_number_sid: None, tollfree_phone_number: None, status: Some(\"TWILIO_APPROVED\"), rejection_reason: None, error_code: Some(30500), edit_expiration: None, edit_allowed: Some(false), rejection_reasons: Some([REDACTED]), resource_links: None, url: None, external_reference_id: None, business_registration_number: None, business_registration_authority: None, business_registration_country: None, business_type: None, business_registration_phone_number: None, doing_business_as: None, age_gated_content: None, help_message_sample: None, opt_in_confirmation_message: None, opt_in_keywords: Some([REDACTED]), privacy_policy_url: None, terms_and_conditions_url: None, vetting_id: None, vetting_id_expiration: None, vetting_provider: None }");
    assert!(!text.contains("Acme") && !text.contains("VA1") && !text.contains("START"));
}
