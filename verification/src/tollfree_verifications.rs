use std::collections::BTreeMap;

use vstd::prelude::*;

use crate::error::{check_outcome, first_of, invalid, must_not_be_empty, TwilioError};
use crate::form::{
    bool_param, list_params, page_size_violation, params_view, push_bool, push_list, push_pair,
    push_str, str_param, validate_page_size, FormParam, ParamSeq,
};
use crate::messages::{any_blank, list_has_blank};
use crate::services::{push_v1_page_query, v1_page_pairs};
use crate::text::{has_text, is_blank, opt_has_text, opt_view, str_is_blank};
use crate::timestamps::{iso8601_value, parse_iso8601};

use crate::debug_text::{
    debug_opt_bool, debug_opt_i64, debug_opt_str, debug_opt_timestamp, debug_struct_text, opt_bool_debug,
    opt_i64_debug, opt_str_debug, opt_timestamp_debug, redacted, redacted_text, DebugStructText,
};
verus! {

/// A request value that is either one of Twilio's documented values or a raw text.
pub trait TollfreeFormValue<'a>: Copy {
    /// The text this value is sent as.
    spec fn spec_form_value(self) -> Seq<char>;

    /// The text this value is sent as.
    fn form_value(self) -> (s: &'a str)
        ensures
            s@ == self.spec_form_value(),
    ;
}

/// Toll-free Verification use-case category request values.
#[derive(Clone, Copy, Debug, PartialEq, Eq)]
pub enum TollfreeUseCaseCategory<'a> {
    TwoFactorAuthentication,
    AccountNotifications,
    CustomerCare,
    CharityNonprofit,
    DeliveryNotifications,
    FraudAlertMessaging,
    Events,
    HigherEducation,
    K12,
    Marketing,
    Mixed,
    PollingAndVotingNonPolitical,
    PoliticalElectionCampaigns,
    PublicServiceAnnouncement,
    SecurityAlert,
    Raw(&'a str),
}

impl<'a> TollfreeFormValue<'a> for TollfreeUseCaseCategory<'a> {
    open spec fn spec_form_value(self) -> Seq<char> {
        match self {
            TollfreeUseCaseCategory::TwoFactorAuthentication => "TWO_FACTOR_AUTHENTICATION"@,
            TollfreeUseCaseCategory::AccountNotifications => "ACCOUNT_NOTIFICATIONS"@,
            TollfreeUseCaseCategory::CustomerCare => "CUSTOMER_CARE"@,
            TollfreeUseCaseCategory::CharityNonprofit => "CHARITY_NONPROFIT"@,
            TollfreeUseCaseCategory::DeliveryNotifications => "DELIVERY_NOTIFICATIONS"@,
            TollfreeUseCaseCategory::FraudAlertMessaging => "FRAUD_ALERT_MESSAGING"@,
            TollfreeUseCaseCategory::Events => "EVENTS"@,
            TollfreeUseCaseCategory::HigherEducation => "HIGHER_EDUCATION"@,
            TollfreeUseCaseCategory::K12 => "K12"@,
            TollfreeUseCaseCategory::Marketing => "MARKETING"@,
            TollfreeUseCaseCategory::Mixed => "MIXED"@,
            TollfreeUseCaseCategory::PollingAndVotingNonPolitical => "POLLING_AND_VOTING_NON_POLITICAL"@,
            TollfreeUseCaseCategory::PoliticalElectionCampaigns => "POLITICAL_ELECTION_CAMPAIGNS"@,
            TollfreeUseCaseCategory::PublicServiceAnnouncement => "PUBLIC_SERVICE_ANNOUNCEMENT"@,
            TollfreeUseCaseCategory::SecurityAlert => "SECURITY_ALERT"@,
            TollfreeUseCaseCategory::Raw(value) => value@,
        }
    }

    fn form_value(self) -> (s: &'a str) {
        match self {
            TollfreeUseCaseCategory::TwoFactorAuthentication => "TWO_FACTOR_AUTHENTICATION",
            TollfreeUseCaseCategory::AccountNotifications => "ACCOUNT_NOTIFICATIONS",
            TollfreeUseCaseCategory::CustomerCare => "CUSTOMER_CARE",
            TollfreeUseCaseCategory::CharityNonprofit => "CHARITY_NONPROFIT",
            TollfreeUseCaseCategory::DeliveryNotifications => "DELIVERY_NOTIFICATIONS",
            TollfreeUseCaseCategory::FraudAlertMessaging => "FRAUD_ALERT_MESSAGING",
            TollfreeUseCaseCategory::Events => "EVENTS",
            TollfreeUseCaseCategory::HigherEducation => "HIGHER_EDUCATION",
            TollfreeUseCaseCategory::K12 => "K12",
            TollfreeUseCaseCategory::Marketing => "MARKETING",
            TollfreeUseCaseCategory::Mixed => "MIXED",
            TollfreeUseCaseCategory::PollingAndVotingNonPolitical => "POLLING_AND_VOTING_NON_POLITICAL",
            TollfreeUseCaseCategory::PoliticalElectionCampaigns => "POLITICAL_ELECTION_CAMPAIGNS",
            TollfreeUseCaseCategory::PublicServiceAnnouncement => "PUBLIC_SERVICE_ANNOUNCEMENT",
            TollfreeUseCaseCategory::SecurityAlert => "SECURITY_ALERT",
            TollfreeUseCaseCategory::Raw(value) => value,
        }
    }
}

/// Toll-free Verification opt-in type request values.
#[derive(Clone, Copy, Debug, PartialEq, Eq)]
pub enum TollfreeOptInType<'a> {
    Verbal,
    WebForm,
    PaperForm,
    ViaText,
    MobileQrCode,
    Import,
    ImportPleaseReplace,
    Raw(&'a str),
}

impl<'a> TollfreeFormValue<'a> for TollfreeOptInType<'a> {
    open spec fn spec_form_value(self) -> Seq<char> {
        match self {
            TollfreeOptInType::Verbal => "VERBAL"@,
            TollfreeOptInType::WebForm => "WEB_FORM"@,
            TollfreeOptInType::PaperForm => "PAPER_FORM"@,
            TollfreeOptInType::ViaText => "VIA_TEXT"@,
            TollfreeOptInType::MobileQrCode => "MOBILE_QR_CODE"@,
            TollfreeOptInType::Import => "IMPORT"@,
            TollfreeOptInType::ImportPleaseReplace => "IMPORT_PLEASE_REPLACE"@,
            TollfreeOptInType::Raw(value) => value@,
        }
    }

    fn form_value(self) -> (s: &'a str) {
        match self {
            TollfreeOptInType::Verbal => "VERBAL",
            TollfreeOptInType::WebForm => "WEB_FORM",
            TollfreeOptInType::PaperForm => "PAPER_FORM",
            TollfreeOptInType::ViaText => "VIA_TEXT",
            TollfreeOptInType::MobileQrCode => "MOBILE_QR_CODE",
            TollfreeOptInType::Import => "IMPORT",
            TollfreeOptInType::ImportPleaseReplace => "IMPORT_PLEASE_REPLACE",
            TollfreeOptInType::Raw(value) => value,
        }
    }
}

/// Toll-free Verification monthly message volume request values.
#[derive(Clone, Copy, Debug, PartialEq, Eq)]
pub enum TollfreeMessageVolume<'a> {
    Ten,
    Hundred,
    Thousand,
    TenThousand,
    HundredThousand,
    TwoHundredFiftyThousand,
    FiveHundredThousand,
    SevenHundredFiftyThousand,
    OneMillion,
    FiveMillion,
    TenMillionPlus,
    Raw(&'a str),
}

impl<'a> TollfreeFormValue<'a> for TollfreeMessageVolume<'a> {
    open spec fn spec_form_value(self) -> Seq<char> {
        match self {
            TollfreeMessageVolume::Ten => "10"@,
            TollfreeMessageVolume::Hundred => "100"@,
            TollfreeMessageVolume::Thousand => "1,000"@,
            TollfreeMessageVolume::TenThousand => "10,000"@,
            TollfreeMessageVolume::HundredThousand => "100,000"@,
            TollfreeMessageVolume::TwoHundredFiftyThousand => "250,000"@,
            TollfreeMessageVolume::FiveHundredThousand => "500,000"@,
            TollfreeMessageVolume::SevenHundredFiftyThousand => "750,000"@,
            TollfreeMessageVolume::OneMillion => "1,000,000"@,
            TollfreeMessageVolume::FiveMillion => "5,000,000"@,
            TollfreeMessageVolume::TenMillionPlus => "10,000,000+"@,
            TollfreeMessageVolume::Raw(value) => value@,
        }
    }

    fn form_value(self) -> (s: &'a str) {
        match self {
            TollfreeMessageVolume::Ten => "10",
            TollfreeMessageVolume::Hundred => "100",
            TollfreeMessageVolume::Thousand => "1,000",
            TollfreeMessageVolume::TenThousand => "10,000",
            TollfreeMessageVolume::HundredThousand => "100,000",
            TollfreeMessageVolume::TwoHundredFiftyThousand => "250,000",
            TollfreeMessageVolume::FiveHundredThousand => "500,000",
            TollfreeMessageVolume::SevenHundredFiftyThousand => "750,000",
            TollfreeMessageVolume::OneMillion => "1,000,000",
            TollfreeMessageVolume::FiveMillion => "5,000,000",
            TollfreeMessageVolume::TenMillionPlus => "10,000,000+",
            TollfreeMessageVolume::Raw(value) => value,
        }
    }
}

/// Toll-free Verification list status request values.
#[derive(Clone, Copy, Debug, PartialEq, Eq)]
pub enum TollfreeVerificationStatus<'a> {
    PendingReview,
    InReview,
    TwilioApproved,
    TwilioRejected,
    Raw(&'a str),
}

impl<'a> TollfreeFormValue<'a> for TollfreeVerificationStatus<'a> {
    open spec fn spec_form_value(self) -> Seq<char> {
        match self {
            TollfreeVerificationStatus::PendingReview => "PENDING_REVIEW"@,
            TollfreeVerificationStatus::InReview => "IN_REVIEW"@,
            TollfreeVerificationStatus::TwilioApproved => "TWILIO_APPROVED"@,
            TollfreeVerificationStatus::TwilioRejected => "TWILIO_REJECTED"@,
            TollfreeVerificationStatus::Raw(value) => value@,
        }
    }

    fn form_value(self) -> (s: &'a str) {
        match self {
            TollfreeVerificationStatus::PendingReview => "PENDING_REVIEW",
            TollfreeVerificationStatus::InReview => "IN_REVIEW",
            TollfreeVerificationStatus::TwilioApproved => "TWILIO_APPROVED",
            TollfreeVerificationStatus::TwilioRejected => "TWILIO_REJECTED",
            TollfreeVerificationStatus::Raw(value) => value,
        }
    }
}

/// Business registration authority request values.
#[derive(Clone, Copy, Debug, PartialEq, Eq)]
pub enum TollfreeBusinessRegistrationAuthority<'a> {
    Ein,
    Cbn,
    Crn,
    ProvincialNumber,
    Vat,
    Acn,
    Abn,
    Brn,
    Siren,
    Siret,
    Nzbn,
    UstIdNr,
    Cif,
    Nif,
    Cnpj,
    Uid,
    Neq,
    Other,
    Raw(&'a str),
}

impl<'a> TollfreeFormValue<'a> for TollfreeBusinessRegistrationAuthority<'a> {
    open spec fn spec_form_value(self) -> Seq<char> {
        match self {
            TollfreeBusinessRegistrationAuthority::Ein => "EIN"@,
            TollfreeBusinessRegistrationAuthority::Cbn => "CBN"@,
            TollfreeBusinessRegistrationAuthority::Crn => "CRN"@,
            TollfreeBusinessRegistrationAuthority::ProvincialNumber => "PROVINCIAL_NUMBER"@,
            TollfreeBusinessRegistrationAuthority::Vat => "VAT"@,
            TollfreeBusinessRegistrationAuthority::Acn => "ACN"@,
            TollfreeBusinessRegistrationAuthority::Abn => "ABN"@,
            TollfreeBusinessRegistrationAuthority::Brn => "BRN"@,
            TollfreeBusinessRegistrationAuthority::Siren => "SIREN"@,
            TollfreeBusinessRegistrationAuthority::Siret => "SIRET"@,
            TollfreeBusinessRegistrationAuthority::Nzbn => "NZBN"@,
            TollfreeBusinessRegistrationAuthority::UstIdNr => "USt-IdNr"@,
            TollfreeBusinessRegistrationAuthority::Cif => "CIF"@,
            TollfreeBusinessRegistrationAuthority::Nif => "NIF"@,
            TollfreeBusinessRegistrationAuthority::Cnpj => "CNPJ"@,
            TollfreeBusinessRegistrationAuthority::Uid => "UID"@,
            TollfreeBusinessRegistrationAuthority::Neq => "NEQ"@,
            TollfreeBusinessRegistrationAuthority::Other => "OTHER"@,
            TollfreeBusinessRegistrationAuthority::Raw(value) => value@,
        }
    }

    fn form_value(self) -> (s: &'a str) {
        match self {
            TollfreeBusinessRegistrationAuthority::Ein => "EIN",
            TollfreeBusinessRegistrationAuthority::Cbn => "CBN",
            TollfreeBusinessRegistrationAuthority::Crn => "CRN",
            TollfreeBusinessRegistrationAuthority::ProvincialNumber => "PROVINCIAL_NUMBER",
            TollfreeBusinessRegistrationAuthority::Vat => "VAT",
            TollfreeBusinessRegistrationAuthority::Acn => "ACN",
            TollfreeBusinessRegistrationAuthority::Abn => "ABN",
            TollfreeBusinessRegistrationAuthority::Brn => "BRN",
            TollfreeBusinessRegistrationAuthority::Siren => "SIREN",
            TollfreeBusinessRegistrationAuthority::Siret => "SIRET",
            TollfreeBusinessRegistrationAuthority::Nzbn => "NZBN",
            TollfreeBusinessRegistrationAuthority::UstIdNr => "USt-IdNr",
            TollfreeBusinessRegistrationAuthority::Cif => "CIF",
            TollfreeBusinessRegistrationAuthority::Nif => "NIF",
            TollfreeBusinessRegistrationAuthority::Cnpj => "CNPJ",
            TollfreeBusinessRegistrationAuthority::Uid => "UID",
            TollfreeBusinessRegistrationAuthority::Neq => "NEQ",
            TollfreeBusinessRegistrationAuthority::Other => "OTHER",
            TollfreeBusinessRegistrationAuthority::Raw(value) => value,
        }
    }
}

/// Business type request values.
#[derive(Clone, Copy, Debug, PartialEq, Eq)]
pub enum TollfreeBusinessType<'a> {
    PrivateProfit,
    PublicProfit,
    SoleProprietor,
    NonProfit,
    Government,
    Raw(&'a str),
}

impl<'a> TollfreeFormValue<'a> for TollfreeBusinessType<'a> {
    open spec fn spec_form_value(self) -> Seq<char> {
        match self {
            TollfreeBusinessType::PrivateProfit => "PRIVATE_PROFIT"@,
            TollfreeBusinessType::PublicProfit => "PUBLIC_PROFIT"@,
            TollfreeBusinessType::SoleProprietor => "SOLE_PROPRIETOR"@,
            TollfreeBusinessType::NonProfit => "NON_PROFIT"@,
            TollfreeBusinessType::Government => "GOVERNMENT"@,
            TollfreeBusinessType::Raw(value) => value@,
        }
    }

    fn form_value(self) -> (s: &'a str) {
        match self {
            TollfreeBusinessType::PrivateProfit => "PRIVATE_PROFIT",
            TollfreeBusinessType::PublicProfit => "PUBLIC_PROFIT",
            TollfreeBusinessType::SoleProprietor => "SOLE_PROPRIETOR",
            TollfreeBusinessType::NonProfit => "NON_PROFIT",
            TollfreeBusinessType::Government => "GOVERNMENT",
            TollfreeBusinessType::Raw(value) => value,
        }
    }
}

/// Political vetting provider request values.
#[derive(Clone, Copy, Debug, PartialEq, Eq)]
pub enum TollfreeVettingProvider<'a> {
    CampaignVerify,
    Raw(&'a str),
}

impl<'a> TollfreeFormValue<'a> for TollfreeVettingProvider<'a> {
    open spec fn spec_form_value(self) -> Seq<char> {
        match self {
            TollfreeVettingProvider::CampaignVerify => "CAMPAIGN_VERIFY"@,
            TollfreeVettingProvider::Raw(value) => value@,
        }
    }

    fn form_value(self) -> (s: &'a str) {
        match self {
            TollfreeVettingProvider::CampaignVerify => "CAMPAIGN_VERIFY",
            TollfreeVettingProvider::Raw(value) => value,
        }
    }
}

/// The text of an optional request value.
pub open spec fn tfv_view<'a, T: TollfreeFormValue<'a>>(v: Option<T>) -> Option<Seq<char>> {
    match v {
        Some(t) => Some(t.spec_form_value()),
        None => None,
    }
}

/// The parameters that a repeated request value contributes, one per value.
pub open spec fn tfv_list_params<'a, T: TollfreeFormValue<'a>>(key: Seq<char>, vs: Seq<T>) -> ParamSeq {
    vs.map_values(|t: T| (key, t.spec_form_value()))
}

/// Append the parameter of an optional request value.
pub fn push_tfv_enum<'a, T: TollfreeFormValue<'a>>(params: &mut Vec<FormParam>, key: &str, value: Option<T>)
    ensures
        params_view(final(params)@) == params_view(old(params)@) + str_param(key@, tfv_view(value)),
{
    if let Some(v) = value {
        push_pair(params, key, v.form_value());
    }
    assert(params_view(final(params)@) =~= params_view(old(params)@) + str_param(key@, tfv_view(value)));
}

/// Append one parameter per value of a repeated request value.
pub fn push_tfv_list<'a, T: TollfreeFormValue<'a>>(params: &mut Vec<FormParam>, key: &str, values: &[T])
    ensures
        params_view(final(params)@) == params_view(old(params)@) + tfv_list_params(key@, values@),
{
    let ghost start = params_view(params@);
    let n = values.len();
    let mut i: usize = 0;
    while i < n
        invariant
            n == values@.len(),
            i <= n,
            params_view(params@) == start + tfv_list_params(key@, values@.take(i as int)),
        decreases n - i,
    {
        push_pair(params, key, values[i].form_value());
        assert(tfv_list_params(key@, values@.take(i + 1)) =~= tfv_list_params(
            key@,
            values@.take(i as int),
        ).push((key@, values@[i as int].spec_form_value())));
        i = i + 1;
    }
    assert(values@.take(n as int) =~= values@);
}

/// The rule that a present request value named `name` is not blank.
pub open spec fn optional_enum_rule<'a, T: TollfreeFormValue<'a>>(name: Seq<char>, v: Option<T>) -> Option<Seq<char>> {
    if v matches Some(t) && is_blank(t.spec_form_value()) {
        Some(must_not_be_empty(name))
    } else {
        None
    }
}

/// Reject a present request value named `name` that is blank.
pub fn validate_optional_enum<'a, T: TollfreeFormValue<'a>>(name: &str, value: Option<T>) -> (r: Result<(), TwilioError>)
    ensures
        check_outcome(r, optional_enum_rule(name@, value)),
{
    if let Some(v) = value {
        if str_is_blank(v.form_value()) {
            return Err(crate::error::empty_field_error(name));
        }
    }
    Ok(())
}

/// Some value of a repeated request value is blank.
pub open spec fn any_blank_value<'a, T: TollfreeFormValue<'a>>(vs: Seq<T>) -> bool {
    exists|i: int| 0 <= i < vs.len() && is_blank(#[trigger] vs[i].spec_form_value())
}

/// The error text `"{name} values must not be empty"`.
pub open spec fn values_must_not_be_empty(name: Seq<char>) -> Seq<char> {
    name + " values must not be empty"@
}

/// Build the error `"{name} values must not be empty"`.
fn values_error(name: &str) -> (e: TwilioError)
    ensures
        crate::error::invalid_request_message(e) == values_must_not_be_empty(name@),
{
    let mut m = name.to_string();
    m.append(" values must not be empty");
    TwilioError::InvalidRequest(m)
}

/// Reject a repeated request value named `name` with a blank value.
pub fn validate_enum_slice<'a, T: TollfreeFormValue<'a>>(name: &str, values: &[T]) -> (r: Result<(), TwilioError>)
    ensures
        check_outcome(
            r,
            if any_blank_value(values@) {
                Some(values_must_not_be_empty(name@))
            } else {
                None
            },
        ),
{
    let n = values.len();
    let mut i: usize = 0;
    while i < n
        invariant
            n == values@.len(),
            i <= n,
            forall|j: int| 0 <= j < i ==> !is_blank(#[trigger] values@[j].spec_form_value()),
        decreases n - i,
    {
        if str_is_blank(values[i].form_value()) {
            return Err(values_error(name));
        }
        i = i + 1;
    }
    Ok(())
}

/// Reject a repeated text named `name` with a blank value.
pub fn validate_str_slice(name: &str, values: &[&str]) -> (r: Result<(), TwilioError>)
    ensures
        check_outcome(
            r,
            if any_blank(values@) {
                Some(values_must_not_be_empty(name@))
            } else {
                None
            },
        ),
{
    if list_has_blank(values) {
        return Err(values_error(name));
    }
    Ok(())
}

/// The rule that the text named `name` is present and not blank.
pub open spec fn required_rule(name: Seq<char>, v: Option<&str>) -> Option<Seq<char>> {
    if has_text(opt_view(v)) {
        None
    } else {
        Some(must_not_be_empty(name))
    }
}

/// Reject a text named `name` that is absent or blank.
pub fn validate_required_text(name: &str, value: Option<&str>) -> (r: Result<(), TwilioError>)
    ensures
        check_outcome(r, required_rule(name@, value)),
{
    if !opt_has_text(value) {
        return Err(crate::error::empty_field_error(name));
    }
    Ok(())
}

/// The fields of a Toll-free Verification; each is sent only when set.
#[derive(Clone, Copy)]
pub struct TollfreeVerificationFields<'a> {
    pub business_name: Option<&'a str>,
    pub business_website: Option<&'a str>,
    pub notification_email: Option<&'a str>,
    pub use_case_categories: &'a [TollfreeUseCaseCategory<'a>],
    pub use_case_summary: Option<&'a str>,
    pub production_message_sample: Option<&'a str>,
    pub opt_in_image_urls: &'a [&'a str],
    pub opt_in_type: Option<TollfreeOptInType<'a>>,
    pub message_volume: Option<TollfreeMessageVolume<'a>>,
    pub tollfree_phone_number_sid: Option<&'a str>,
    pub customer_profile_sid: Option<&'a str>,
    pub business_street_address: Option<&'a str>,
    pub business_street_address2: Option<&'a str>,
    pub business_city: Option<&'a str>,
    pub business_state_province_region: Option<&'a str>,
    pub business_postal_code: Option<&'a str>,
    pub business_country: Option<&'a str>,
    pub additional_information: Option<&'a str>,
    pub business_contact_first_name: Option<&'a str>,
    pub business_contact_last_name: Option<&'a str>,
    pub business_contact_email: Option<&'a str>,
    pub business_contact_phone: Option<&'a str>,
    pub external_reference_id: Option<&'a str>,
    pub edit_reason: Option<&'a str>,
    pub business_registration_number: Option<&'a str>,
    pub business_registration_authority: Option<TollfreeBusinessRegistrationAuthority<'a>>,
    pub business_registration_country: Option<&'a str>,
    pub business_type: Option<TollfreeBusinessType<'a>>,
    pub business_registration_phone_number: Option<&'a str>,
    pub doing_business_as: Option<&'a str>,
    pub opt_in_confirmation_message: Option<&'a str>,
    pub help_message_sample: Option<&'a str>,
    pub privacy_policy_url: Option<&'a str>,
    pub terms_and_conditions_url: Option<&'a str>,
    pub age_gated_content: Option<bool>,
    pub opt_in_keywords: &'a [&'a str],
    pub vetting_provider: Option<TollfreeVettingProvider<'a>>,
    pub vetting_id: Option<&'a str>,
}

impl<'a> TollfreeVerificationFields<'a> {
    /// No field chosen.
    pub fn empty() -> (r: Self)
        ensures
            r.none_set(),
    {
        TollfreeVerificationFields {
            business_name: None,
            business_website: None,
            notification_email: None,
            use_case_categories: &[],
            use_case_summary: None,
            production_message_sample: None,
            opt_in_image_urls: &[],
            opt_in_type: None,
            message_volume: None,
            tollfree_phone_number_sid: None,
            customer_profile_sid: None,
            business_street_address: None,
            business_street_address2: None,
            business_city: None,
            business_state_province_region: None,
            business_postal_code: None,
            business_country: None,
            additional_information: None,
            business_contact_first_name: None,
            business_contact_last_name: None,
            business_contact_email: None,
            business_contact_phone: None,
            external_reference_id: None,
            edit_reason: None,
            business_registration_number: None,
            business_registration_authority: None,
            business_registration_country: None,
            business_type: None,
            business_registration_phone_number: None,
            doing_business_as: None,
            opt_in_confirmation_message: None,
            help_message_sample: None,
            privacy_policy_url: None,
            terms_and_conditions_url: None,
            age_gated_content: None,
            opt_in_keywords: &[],
            vetting_provider: None,
            vetting_id: None,
        }
    }

    /// No field is chosen.
    pub open spec fn none_set(self) -> bool {
        self.business_name is None
            && self.business_website is None
            && self.notification_email is None
            && self.use_case_categories@.len() == 0
            && self.use_case_summary is None
            && self.production_message_sample is None
            && self.opt_in_image_urls@.len() == 0
            && self.opt_in_type is None
            && self.message_volume is None
            && self.tollfree_phone_number_sid is None
            && self.customer_profile_sid is None
            && self.business_street_address is None
            && self.business_street_address2 is None
            && self.business_city is None
            && self.business_state_province_region is None
            && self.business_postal_code is None
            && self.business_country is None
            && self.additional_information is None
            && self.business_contact_first_name is None
            && self.business_contact_last_name is None
            && self.business_contact_email is None
            && self.business_contact_phone is None
            && self.external_reference_id is None
            && self.edit_reason is None
            && self.business_registration_number is None
            && self.business_registration_authority is None
            && self.business_registration_country is None
            && self.business_type is None
            && self.business_registration_phone_number is None
            && self.doing_business_as is None
            && self.opt_in_confirmation_message is None
            && self.help_message_sample is None
            && self.privacy_policy_url is None
            && self.terms_and_conditions_url is None
            && self.age_gated_content is None
            && self.opt_in_keywords@.len() == 0
            && self.vetting_provider is None
            && self.vetting_id is None
    }

    /// The form parameters of these fields, in Twilio's documented order.
    pub open spec fn spec_form_params(self) -> ParamSeq {
        str_param("BusinessName"@, opt_view(self.business_name))
            + str_param("BusinessWebsite"@, opt_view(self.business_website))
            + str_param("NotificationEmail"@, opt_view(self.notification_email))
            + tfv_list_params("UseCaseCategories"@, self.use_case_categories@)
            + str_param("UseCaseSummary"@, opt_view(self.use_case_summary))
            + str_param("ProductionMessageSample"@, opt_view(self.production_message_sample))
            + list_params("OptInImageUrls"@, self.opt_in_image_urls@)
            + str_param("OptInType"@, tfv_view(self.opt_in_type))
            + str_param("MessageVolume"@, tfv_view(self.message_volume))
            + str_param("TollfreePhoneNumberSid"@, opt_view(self.tollfree_phone_number_sid))
            + str_param("CustomerProfileSid"@, opt_view(self.customer_profile_sid))
            + str_param("BusinessStreetAddress"@, opt_view(self.business_street_address))
            + str_param("BusinessStreetAddress2"@, opt_view(self.business_street_address2))
            + str_param("BusinessCity"@, opt_view(self.business_city))
            + str_param("BusinessStateProvinceRegion"@, opt_view(self.business_state_province_region))
            + str_param("BusinessPostalCode"@, opt_view(self.business_postal_code))
            + str_param("BusinessCountry"@, opt_view(self.business_country))
            + str_param("AdditionalInformation"@, opt_view(self.additional_information))
            + str_param("BusinessContactFirstName"@, opt_view(self.business_contact_first_name))
            + str_param("BusinessContactLastName"@, opt_view(self.business_contact_last_name))
            + str_param("BusinessContactEmail"@, opt_view(self.business_contact_email))
            + str_param("BusinessContactPhone"@, opt_view(self.business_contact_phone))
            + str_param("ExternalReferenceId"@, opt_view(self.external_reference_id))
            + str_param("EditReason"@, opt_view(self.edit_reason))
            + str_param("BusinessRegistrationNumber"@, opt_view(self.business_registration_number))
            + str_param("BusinessRegistrationAuthority"@, tfv_view(self.business_registration_authority))
            + str_param("BusinessRegistrationCountry"@, opt_view(self.business_registration_country))
            + str_param("BusinessType"@, tfv_view(self.business_type))
            + str_param("BusinessRegistrationPhoneNumber"@, opt_view(self.business_registration_phone_number))
            + str_param("DoingBusinessAs"@, opt_view(self.doing_business_as))
            + str_param("OptInConfirmationMessage"@, opt_view(self.opt_in_confirmation_message))
            + str_param("HelpMessageSample"@, opt_view(self.help_message_sample))
            + str_param("PrivacyPolicyUrl"@, opt_view(self.privacy_policy_url))
            + str_param("TermsAndConditionsUrl"@, opt_view(self.terms_and_conditions_url))
            + bool_param("AgeGatedContent"@, self.age_gated_content)
            + list_params("OptInKeywords"@, self.opt_in_keywords@)
            + str_param("VettingProvider"@, tfv_view(self.vetting_provider))
            + str_param("VettingId"@, opt_view(self.vetting_id))
    }

    /// Encode these fields as form parameters.
    pub fn form_params(self) -> (params: Vec<FormParam>)
        ensures
            params_view(params@) == self.spec_form_params(),
    {
        let mut params = Vec::new();
        push_str(&mut params, "BusinessName", self.business_name);
        push_str(&mut params, "BusinessWebsite", self.business_website);
        push_str(&mut params, "NotificationEmail", self.notification_email);
        push_tfv_list(&mut params, "UseCaseCategories", self.use_case_categories);
        push_str(&mut params, "UseCaseSummary", self.use_case_summary);
        push_str(&mut params, "ProductionMessageSample", self.production_message_sample);
        push_list(&mut params, "OptInImageUrls", self.opt_in_image_urls);
        push_tfv_enum(&mut params, "OptInType", self.opt_in_type);
        push_tfv_enum(&mut params, "MessageVolume", self.message_volume);
        push_str(&mut params, "TollfreePhoneNumberSid", self.tollfree_phone_number_sid);
        push_str(&mut params, "CustomerProfileSid", self.customer_profile_sid);
        push_str(&mut params, "BusinessStreetAddress", self.business_street_address);
        push_str(&mut params, "BusinessStreetAddress2", self.business_street_address2);
        push_str(&mut params, "BusinessCity", self.business_city);
        push_str(&mut params, "BusinessStateProvinceRegion", self.business_state_province_region);
        push_str(&mut params, "BusinessPostalCode", self.business_postal_code);
        push_str(&mut params, "BusinessCountry", self.business_country);
        push_str(&mut params, "AdditionalInformation", self.additional_information);
        push_str(&mut params, "BusinessContactFirstName", self.business_contact_first_name);
        push_str(&mut params, "BusinessContactLastName", self.business_contact_last_name);
        push_str(&mut params, "BusinessContactEmail", self.business_contact_email);
        push_str(&mut params, "BusinessContactPhone", self.business_contact_phone);
        push_str(&mut params, "ExternalReferenceId", self.external_reference_id);
        push_str(&mut params, "EditReason", self.edit_reason);
        push_str(&mut params, "BusinessRegistrationNumber", self.business_registration_number);
        push_tfv_enum(&mut params, "BusinessRegistrationAuthority", self.business_registration_authority);
        push_str(&mut params, "BusinessRegistrationCountry", self.business_registration_country);
        push_tfv_enum(&mut params, "BusinessType", self.business_type);
        push_str(&mut params, "BusinessRegistrationPhoneNumber", self.business_registration_phone_number);
        push_str(&mut params, "DoingBusinessAs", self.doing_business_as);
        push_str(&mut params, "OptInConfirmationMessage", self.opt_in_confirmation_message);
        push_str(&mut params, "HelpMessageSample", self.help_message_sample);
        push_str(&mut params, "PrivacyPolicyUrl", self.privacy_policy_url);
        push_str(&mut params, "TermsAndConditionsUrl", self.terms_and_conditions_url);
        push_bool(&mut params, "AgeGatedContent", self.age_gated_content);
        push_list(&mut params, "OptInKeywords", self.opt_in_keywords);
        push_tfv_enum(&mut params, "VettingProvider", self.vetting_provider);
        push_str(&mut params, "VettingId", self.vetting_id);
        assert(params_view(params@) =~= self.spec_form_params());
        params
    }

    /// The first rule on repeated and enumerated values these fields break.
    pub open spec fn common_violation(self) -> Option<Seq<char>> {
        first_of(
            if any_blank_value(self.use_case_categories@) { Some(values_must_not_be_empty("UseCaseCategories"@)) } else { None },
            first_of(
            if any_blank(self.opt_in_image_urls@) { Some(values_must_not_be_empty("OptInImageUrls"@)) } else { None },
            first_of(
            if any_blank(self.opt_in_keywords@) { Some(values_must_not_be_empty("OptInKeywords"@)) } else { None },
            first_of(
            optional_enum_rule("OptInType"@, self.opt_in_type),
            first_of(
            optional_enum_rule("MessageVolume"@, self.message_volume),
            first_of(
            optional_enum_rule("BusinessRegistrationAuthority"@, self.business_registration_authority),
            first_of(
            optional_enum_rule("BusinessType"@, self.business_type),
            optional_enum_rule("VettingProvider"@, self.vetting_provider)
        )
        )
        )
        )
        )
        )
        )
    }

    /// Check that no repeated or enumerated value is blank.
    pub fn validate_common(self) -> (r: Result<(), TwilioError>)
        ensures
            check_outcome(r, self.common_violation()),
    {
        validate_enum_slice("UseCaseCategories", self.use_case_categories)?;
        validate_str_slice("OptInImageUrls", self.opt_in_image_urls)?;
        validate_str_slice("OptInKeywords", self.opt_in_keywords)?;
        validate_optional_enum("OptInType", self.opt_in_type)?;
        validate_optional_enum("MessageVolume", self.message_volume)?;
        validate_optional_enum("BusinessRegistrationAuthority", self.business_registration_authority)?;
        validate_optional_enum("BusinessType", self.business_type)?;
        validate_optional_enum("VettingProvider", self.vetting_provider)
    }
}

/// Fields send nothing exactly when none is chosen.
pub proof fn lemma_tollfree_fields_empty(f: TollfreeVerificationFields)
    ensures
        f.spec_form_params().len() == 0 <==> f.none_set(),
{
}

/// Request body for `POST /Tollfree/Verifications`.
#[derive(Clone, Copy)]
pub struct CreateTollfreeVerificationRequest<'a> {
    pub fields: TollfreeVerificationFields<'a>,
}

impl<'a> CreateTollfreeVerificationRequest<'a> {
    /// A verification with no field chosen yet.
    pub fn new() -> (r: Self)
        ensures
            r.fields.none_set(),
    {
        CreateTollfreeVerificationRequest { fields: TollfreeVerificationFields::empty() }
    }

    pub fn business_name(self, value: &'a str) -> (r: Self)
        ensures
            r == (CreateTollfreeVerificationRequest { fields: TollfreeVerificationFields { business_name: Some(value), ..self.fields } }),
    {
        CreateTollfreeVerificationRequest { fields: TollfreeVerificationFields { business_name: Some(value), ..self.fields } }
    }

    pub fn business_website(self, value: &'a str) -> (r: Self)
        ensures
            r == (CreateTollfreeVerificationRequest { fields: TollfreeVerificationFields { business_website: Some(value), ..self.fields } }),
    {
        CreateTollfreeVerificationRequest { fields: TollfreeVerificationFields { business_website: Some(value), ..self.fields } }
    }

    pub fn notification_email(self, value: &'a str) -> (r: Self)
        ensures
            r == (CreateTollfreeVerificationRequest { fields: TollfreeVerificationFields { notification_email: Some(value), ..self.fields } }),
    {
        CreateTollfreeVerificationRequest { fields: TollfreeVerificationFields { notification_email: Some(value), ..self.fields } }
    }

    pub fn use_case_categories(self, value: &'a [TollfreeUseCaseCategory<'a>]) -> (r: Self)
        ensures
            r == (CreateTollfreeVerificationRequest { fields: TollfreeVerificationFields { use_case_categories: value, ..self.fields } }),
    {
        CreateTollfreeVerificationRequest { fields: TollfreeVerificationFields { use_case_categories: value, ..self.fields } }
    }

    pub fn use_case_summary(self, value: &'a str) -> (r: Self)
        ensures
            r == (CreateTollfreeVerificationRequest { fields: TollfreeVerificationFields { use_case_summary: Some(value), ..self.fields } }),
    {
        CreateTollfreeVerificationRequest { fields: TollfreeVerificationFields { use_case_summary: Some(value), ..self.fields } }
    }

    pub fn production_message_sample(self, value: &'a str) -> (r: Self)
        ensures
            r == (CreateTollfreeVerificationRequest { fields: TollfreeVerificationFields { production_message_sample: Some(value), ..self.fields } }),
    {
        CreateTollfreeVerificationRequest { fields: TollfreeVerificationFields { production_message_sample: Some(value), ..self.fields } }
    }

    pub fn opt_in_image_urls(self, value: &'a [&'a str]) -> (r: Self)
        ensures
            r == (CreateTollfreeVerificationRequest { fields: TollfreeVerificationFields { opt_in_image_urls: value, ..self.fields } }),
    {
        CreateTollfreeVerificationRequest { fields: TollfreeVerificationFields { opt_in_image_urls: value, ..self.fields } }
    }

    pub fn opt_in_type(self, value: TollfreeOptInType<'a>) -> (r: Self)
        ensures
            r == (CreateTollfreeVerificationRequest { fields: TollfreeVerificationFields { opt_in_type: Some(value), ..self.fields } }),
    {
        CreateTollfreeVerificationRequest { fields: TollfreeVerificationFields { opt_in_type: Some(value), ..self.fields } }
    }

    pub fn message_volume(self, value: TollfreeMessageVolume<'a>) -> (r: Self)
        ensures
            r == (CreateTollfreeVerificationRequest { fields: TollfreeVerificationFields { message_volume: Some(value), ..self.fields } }),
    {
        CreateTollfreeVerificationRequest { fields: TollfreeVerificationFields { message_volume: Some(value), ..self.fields } }
    }

    pub fn business_street_address(self, value: &'a str) -> (r: Self)
        ensures
            r == (CreateTollfreeVerificationRequest { fields: TollfreeVerificationFields { business_street_address: Some(value), ..self.fields } }),
    {
        CreateTollfreeVerificationRequest { fields: TollfreeVerificationFields { business_street_address: Some(value), ..self.fields } }
    }

    pub fn business_street_address2(self, value: &'a str) -> (r: Self)
        ensures
            r == (CreateTollfreeVerificationRequest { fields: TollfreeVerificationFields { business_street_address2: Some(value), ..self.fields } }),
    {
        CreateTollfreeVerificationRequest { fields: TollfreeVerificationFields { business_street_address2: Some(value), ..self.fields } }
    }

    pub fn business_city(self, value: &'a str) -> (r: Self)
        ensures
            r == (CreateTollfreeVerificationRequest { fields: TollfreeVerificationFields { business_city: Some(value), ..self.fields } }),
    {
        CreateTollfreeVerificationRequest { fields: TollfreeVerificationFields { business_city: Some(value), ..self.fields } }
    }

    pub fn business_state_province_region(self, value: &'a str) -> (r: Self)
        ensures
            r == (CreateTollfreeVerificationRequest { fields: TollfreeVerificationFields { business_state_province_region: Some(value), ..self.fields } }),
    {
        CreateTollfreeVerificationRequest { fields: TollfreeVerificationFields { business_state_province_region: Some(value), ..self.fields } }
    }

    pub fn business_postal_code(self, value: &'a str) -> (r: Self)
        ensures
            r == (CreateTollfreeVerificationRequest { fields: TollfreeVerificationFields { business_postal_code: Some(value), ..self.fields } }),
    {
        CreateTollfreeVerificationRequest { fields: TollfreeVerificationFields { business_postal_code: Some(value), ..self.fields } }
    }

    pub fn business_country(self, value: &'a str) -> (r: Self)
        ensures
            r == (CreateTollfreeVerificationRequest { fields: TollfreeVerificationFields { business_country: Some(value), ..self.fields } }),
    {
        CreateTollfreeVerificationRequest { fields: TollfreeVerificationFields { business_country: Some(value), ..self.fields } }
    }

    pub fn additional_information(self, value: &'a str) -> (r: Self)
        ensures
            r == (CreateTollfreeVerificationRequest { fields: TollfreeVerificationFields { additional_information: Some(value), ..self.fields } }),
    {
        CreateTollfreeVerificationRequest { fields: TollfreeVerificationFields { additional_information: Some(value), ..self.fields } }
    }

    pub fn business_contact_first_name(self, value: &'a str) -> (r: Self)
        ensures
            r == (CreateTollfreeVerificationRequest { fields: TollfreeVerificationFields { business_contact_first_name: Some(value), ..self.fields } }),
    {
        CreateTollfreeVerificationRequest { fields: TollfreeVerificationFields { business_contact_first_name: Some(value), ..self.fields } }
    }

    pub fn business_contact_last_name(self, value: &'a str) -> (r: Self)
        ensures
            r == (CreateTollfreeVerificationRequest { fields: TollfreeVerificationFields { business_contact_last_name: Some(value), ..self.fields } }),
    {
        CreateTollfreeVerificationRequest { fields: TollfreeVerificationFields { business_contact_last_name: Some(value), ..self.fields } }
    }

    pub fn business_contact_email(self, value: &'a str) -> (r: Self)
        ensures
            r == (CreateTollfreeVerificationRequest { fields: TollfreeVerificationFields { business_contact_email: Some(value), ..self.fields } }),
    {
        CreateTollfreeVerificationRequest { fields: TollfreeVerificationFields { business_contact_email: Some(value), ..self.fields } }
    }

    pub fn business_contact_phone(self, value: &'a str) -> (r: Self)
        ensures
            r == (CreateTollfreeVerificationRequest { fields: TollfreeVerificationFields { business_contact_phone: Some(value), ..self.fields } }),
    {
        CreateTollfreeVerificationRequest { fields: TollfreeVerificationFields { business_contact_phone: Some(value), ..self.fields } }
    }

    pub fn business_registration_number(self, value: &'a str) -> (r: Self)
        ensures
            r == (CreateTollfreeVerificationRequest { fields: TollfreeVerificationFields { business_registration_number: Some(value), ..self.fields } }),
    {
        CreateTollfreeVerificationRequest { fields: TollfreeVerificationFields { business_registration_number: Some(value), ..self.fields } }
    }

    pub fn business_registration_authority(self, value: TollfreeBusinessRegistrationAuthority<'a>) -> (r: Self)
        ensures
            r == (CreateTollfreeVerificationRequest { fields: TollfreeVerificationFields { business_registration_authority: Some(value), ..self.fields } }),
    {
        CreateTollfreeVerificationRequest { fields: TollfreeVerificationFields { business_registration_authority: Some(value), ..self.fields } }
    }

    pub fn business_registration_country(self, value: &'a str) -> (r: Self)
        ensures
            r == (CreateTollfreeVerificationRequest { fields: TollfreeVerificationFields { business_registration_country: Some(value), ..self.fields } }),
    {
        CreateTollfreeVerificationRequest { fields: TollfreeVerificationFields { business_registration_country: Some(value), ..self.fields } }
    }

    pub fn business_type(self, value: TollfreeBusinessType<'a>) -> (r: Self)
        ensures
            r == (CreateTollfreeVerificationRequest { fields: TollfreeVerificationFields { business_type: Some(value), ..self.fields } }),
    {
        CreateTollfreeVerificationRequest { fields: TollfreeVerificationFields { business_type: Some(value), ..self.fields } }
    }

    pub fn business_registration_phone_number(self, value: &'a str) -> (r: Self)
        ensures
            r == (CreateTollfreeVerificationRequest { fields: TollfreeVerificationFields { business_registration_phone_number: Some(value), ..self.fields } }),
    {
        CreateTollfreeVerificationRequest { fields: TollfreeVerificationFields { business_registration_phone_number: Some(value), ..self.fields } }
    }

    pub fn doing_business_as(self, value: &'a str) -> (r: Self)
        ensures
            r == (CreateTollfreeVerificationRequest { fields: TollfreeVerificationFields { doing_business_as: Some(value), ..self.fields } }),
    {
        CreateTollfreeVerificationRequest { fields: TollfreeVerificationFields { doing_business_as: Some(value), ..self.fields } }
    }

    pub fn opt_in_confirmation_message(self, value: &'a str) -> (r: Self)
        ensures
            r == (CreateTollfreeVerificationRequest { fields: TollfreeVerificationFields { opt_in_confirmation_message: Some(value), ..self.fields } }),
    {
        CreateTollfreeVerificationRequest { fields: TollfreeVerificationFields { opt_in_confirmation_message: Some(value), ..self.fields } }
    }

    pub fn help_message_sample(self, value: &'a str) -> (r: Self)
        ensures
            r == (CreateTollfreeVerificationRequest { fields: TollfreeVerificationFields { help_message_sample: Some(value), ..self.fields } }),
    {
        CreateTollfreeVerificationRequest { fields: TollfreeVerificationFields { help_message_sample: Some(value), ..self.fields } }
    }

    pub fn privacy_policy_url(self, value: &'a str) -> (r: Self)
        ensures
            r == (CreateTollfreeVerificationRequest { fields: TollfreeVerificationFields { privacy_policy_url: Some(value), ..self.fields } }),
    {
        CreateTollfreeVerificationRequest { fields: TollfreeVerificationFields { privacy_policy_url: Some(value), ..self.fields } }
    }

    pub fn terms_and_conditions_url(self, value: &'a str) -> (r: Self)
        ensures
            r == (CreateTollfreeVerificationRequest { fields: TollfreeVerificationFields { terms_and_conditions_url: Some(value), ..self.fields } }),
    {
        CreateTollfreeVerificationRequest { fields: TollfreeVerificationFields { terms_and_conditions_url: Some(value), ..self.fields } }
    }

    pub fn age_gated_content(self, value: bool) -> (r: Self)
        ensures
            r == (CreateTollfreeVerificationRequest { fields: TollfreeVerificationFields { age_gated_content: Some(value), ..self.fields } }),
    {
        CreateTollfreeVerificationRequest { fields: TollfreeVerificationFields { age_gated_content: Some(value), ..self.fields } }
    }

    pub fn opt_in_keywords(self, value: &'a [&'a str]) -> (r: Self)
        ensures
            r == (CreateTollfreeVerificationRequest { fields: TollfreeVerificationFields { opt_in_keywords: value, ..self.fields } }),
    {
        CreateTollfreeVerificationRequest { fields: TollfreeVerificationFields { opt_in_keywords: value, ..self.fields } }
    }

    pub fn vetting_provider(self, value: TollfreeVettingProvider<'a>) -> (r: Self)
        ensures
            r == (CreateTollfreeVerificationRequest { fields: TollfreeVerificationFields { vetting_provider: Some(value), ..self.fields } }),
    {
        CreateTollfreeVerificationRequest { fields: TollfreeVerificationFields { vetting_provider: Some(value), ..self.fields } }
    }

    pub fn vetting_id(self, value: &'a str) -> (r: Self)
        ensures
            r == (CreateTollfreeVerificationRequest { fields: TollfreeVerificationFields { vetting_id: Some(value), ..self.fields } }),
    {
        CreateTollfreeVerificationRequest { fields: TollfreeVerificationFields { vetting_id: Some(value), ..self.fields } }
    }

    pub fn tollfree_phone_number_sid(self, value: &'a str) -> (r: Self)
        ensures
            r == (CreateTollfreeVerificationRequest { fields: TollfreeVerificationFields { tollfree_phone_number_sid: Some(value), ..self.fields } }),
    {
        CreateTollfreeVerificationRequest { fields: TollfreeVerificationFields { tollfree_phone_number_sid: Some(value), ..self.fields } }
    }

    pub fn customer_profile_sid(self, value: &'a str) -> (r: Self)
        ensures
            r == (CreateTollfreeVerificationRequest { fields: TollfreeVerificationFields { customer_profile_sid: Some(value), ..self.fields } }),
    {
        CreateTollfreeVerificationRequest { fields: TollfreeVerificationFields { customer_profile_sid: Some(value), ..self.fields } }
    }

    pub fn external_reference_id(self, value: &'a str) -> (r: Self)
        ensures
            r == (CreateTollfreeVerificationRequest { fields: TollfreeVerificationFields { external_reference_id: Some(value), ..self.fields } }),
    {
        CreateTollfreeVerificationRequest { fields: TollfreeVerificationFields { external_reference_id: Some(value), ..self.fields } }
    }

    /// The first documented rule this request breaks, as its error text.
    pub open spec fn violation(&self) -> Option<Seq<char>> {
        first_of(
            required_rule("BusinessName"@, self.fields.business_name),
            first_of(
            required_rule("BusinessWebsite"@, self.fields.business_website),
            first_of(
            required_rule("NotificationEmail"@, self.fields.notification_email),
            first_of(
            if self.fields.use_case_categories@.len() == 0 { Some("UseCaseCategories must not be empty"@) } else { None },
            first_of(
            required_rule("UseCaseSummary"@, self.fields.use_case_summary),
            first_of(
            required_rule("ProductionMessageSample"@, self.fields.production_message_sample),
            first_of(
            if self.fields.opt_in_image_urls@.len() == 0 { Some("OptInImageUrls must not be empty"@) } else { None },
            first_of(
            optional_enum_rule("OptInType"@, self.fields.opt_in_type),
            first_of(
            if self.fields.opt_in_type is None { Some("OptInType must not be empty"@) } else { None },
            first_of(
            optional_enum_rule("MessageVolume"@, self.fields.message_volume),
            first_of(
            if self.fields.message_volume is None { Some("MessageVolume must not be empty"@) } else { None },
            first_of(
            required_rule("TollfreePhoneNumberSid"@, self.fields.tollfree_phone_number_sid),
            self.fields.common_violation()
        )
        )
        )
        )
        )
        )
        )
        )
        )
        )
        )
        )
    }

    /// Check the documented rules on a new Toll-free Verification.
    pub fn validate(&self) -> (r: Result<(), TwilioError>)
        ensures
            check_outcome(r, self.violation()),
    {
        validate_required_text("BusinessName", self.fields.business_name)?;
        validate_required_text("BusinessWebsite", self.fields.business_website)?;
        validate_required_text("NotificationEmail", self.fields.notification_email)?;
        if self.fields.use_case_categories.len() == 0 {
            return Err(invalid("UseCaseCategories must not be empty"));
        }
        validate_required_text("UseCaseSummary", self.fields.use_case_summary)?;
        validate_required_text("ProductionMessageSample", self.fields.production_message_sample)?;
        if self.fields.opt_in_image_urls.len() == 0 {
            return Err(invalid("OptInImageUrls must not be empty"));
        }
        validate_optional_enum("OptInType", self.fields.opt_in_type)?;
        if self.fields.opt_in_type.is_none() {
            return Err(invalid("OptInType must not be empty"));
        }
        validate_optional_enum("MessageVolume", self.fields.message_volume)?;
        if self.fields.message_volume.is_none() {
            return Err(invalid("MessageVolume must not be empty"));
        }
        validate_required_text("TollfreePhoneNumberSid", self.fields.tollfree_phone_number_sid)?;
        self.fields.validate_common()
    }

    /// The form parameters of this request, in Twilio's documented order.
    pub open spec fn spec_form_params(&self) -> ParamSeq {
        self.fields.spec_form_params()
    }

    /// Encode this request as form parameters.
    pub fn form_params(&self) -> (params: Vec<FormParam>)
        ensures
            params_view(params@) == self.spec_form_params(),
    {
        self.fields.form_params()
    }
}

/// Request body for `POST /Tollfree/Verifications/{Sid}`.
#[derive(Clone, Copy)]
pub struct UpdateTollfreeVerificationRequest<'a> {
    pub fields: TollfreeVerificationFields<'a>,
}

impl<'a> UpdateTollfreeVerificationRequest<'a> {
    /// An update that changes nothing yet.
    pub fn new() -> (r: Self)
        ensures
            r.fields.none_set(),
    {
        UpdateTollfreeVerificationRequest { fields: TollfreeVerificationFields::empty() }
    }

    pub fn business_name(self, value: &'a str) -> (r: Self)
        ensures
            r == (UpdateTollfreeVerificationRequest { fields: TollfreeVerificationFields { business_name: Some(value), ..self.fields } }),
    {
        UpdateTollfreeVerificationRequest { fields: TollfreeVerificationFields { business_name: Some(value), ..self.fields } }
    }

    pub fn business_website(self, value: &'a str) -> (r: Self)
        ensures
            r == (UpdateTollfreeVerificationRequest { fields: TollfreeVerificationFields { business_website: Some(value), ..self.fields } }),
    {
        UpdateTollfreeVerificationRequest { fields: TollfreeVerificationFields { business_website: Some(value), ..self.fields } }
    }

    pub fn notification_email(self, value: &'a str) -> (r: Self)
        ensures
            r == (UpdateTollfreeVerificationRequest { fields: TollfreeVerificationFields { notification_email: Some(value), ..self.fields } }),
    {
        UpdateTollfreeVerificationRequest { fields: TollfreeVerificationFields { notification_email: Some(value), ..self.fields } }
    }

    pub fn use_case_categories(self, value: &'a [TollfreeUseCaseCategory<'a>]) -> (r: Self)
        ensures
            r == (UpdateTollfreeVerificationRequest { fields: TollfreeVerificationFields { use_case_categories: value, ..self.fields } }),
    {
        UpdateTollfreeVerificationRequest { fields: TollfreeVerificationFields { use_case_categories: value, ..self.fields } }
    }

    pub fn use_case_summary(self, value: &'a str) -> (r: Self)
        ensures
            r == (UpdateTollfreeVerificationRequest { fields: TollfreeVerificationFields { use_case_summary: Some(value), ..self.fields } }),
    {
        UpdateTollfreeVerificationRequest { fields: TollfreeVerificationFields { use_case_summary: Some(value), ..self.fields } }
    }

    pub fn production_message_sample(self, value: &'a str) -> (r: Self)
        ensures
            r == (UpdateTollfreeVerificationRequest { fields: TollfreeVerificationFields { production_message_sample: Some(value), ..self.fields } }),
    {
        UpdateTollfreeVerificationRequest { fields: TollfreeVerificationFields { production_message_sample: Some(value), ..self.fields } }
    }

    pub fn opt_in_image_urls(self, value: &'a [&'a str]) -> (r: Self)
        ensures
            r == (UpdateTollfreeVerificationRequest { fields: TollfreeVerificationFields { opt_in_image_urls: value, ..self.fields } }),
    {
        UpdateTollfreeVerificationRequest { fields: TollfreeVerificationFields { opt_in_image_urls: value, ..self.fields } }
    }

    pub fn opt_in_type(self, value: TollfreeOptInType<'a>) -> (r: Self)
        ensures
            r == (UpdateTollfreeVerificationRequest { fields: TollfreeVerificationFields { opt_in_type: Some(value), ..self.fields } }),
    {
        UpdateTollfreeVerificationRequest { fields: TollfreeVerificationFields { opt_in_type: Some(value), ..self.fields } }
    }

    pub fn message_volume(self, value: TollfreeMessageVolume<'a>) -> (r: Self)
        ensures
            r == (UpdateTollfreeVerificationRequest { fields: TollfreeVerificationFields { message_volume: Some(value), ..self.fields } }),
    {
        UpdateTollfreeVerificationRequest { fields: TollfreeVerificationFields { message_volume: Some(value), ..self.fields } }
    }

    pub fn business_street_address(self, value: &'a str) -> (r: Self)
        ensures
            r == (UpdateTollfreeVerificationRequest { fields: TollfreeVerificationFields { business_street_address: Some(value), ..self.fields } }),
    {
        UpdateTollfreeVerificationRequest { fields: TollfreeVerificationFields { business_street_address: Some(value), ..self.fields } }
    }

    pub fn business_street_address2(self, value: &'a str) -> (r: Self)
        ensures
            r == (UpdateTollfreeVerificationRequest { fields: TollfreeVerificationFields { business_street_address2: Some(value), ..self.fields } }),
    {
        UpdateTollfreeVerificationRequest { fields: TollfreeVerificationFields { business_street_address2: Some(value), ..self.fields } }
    }

    pub fn business_city(self, value: &'a str) -> (r: Self)
        ensures
            r == (UpdateTollfreeVerificationRequest { fields: TollfreeVerificationFields { business_city: Some(value), ..self.fields } }),
    {
        UpdateTollfreeVerificationRequest { fields: TollfreeVerificationFields { business_city: Some(value), ..self.fields } }
    }

    pub fn business_state_province_region(self, value: &'a str) -> (r: Self)
        ensures
            r == (UpdateTollfreeVerificationRequest { fields: TollfreeVerificationFields { business_state_province_region: Some(value), ..self.fields } }),
    {
        UpdateTollfreeVerificationRequest { fields: TollfreeVerificationFields { business_state_province_region: Some(value), ..self.fields } }
    }

    pub fn business_postal_code(self, value: &'a str) -> (r: Self)
        ensures
            r == (UpdateTollfreeVerificationRequest { fields: TollfreeVerificationFields { business_postal_code: Some(value), ..self.fields } }),
    {
        UpdateTollfreeVerificationRequest { fields: TollfreeVerificationFields { business_postal_code: Some(value), ..self.fields } }
    }

    pub fn business_country(self, value: &'a str) -> (r: Self)
        ensures
            r == (UpdateTollfreeVerificationRequest { fields: TollfreeVerificationFields { business_country: Some(value), ..self.fields } }),
    {
        UpdateTollfreeVerificationRequest { fields: TollfreeVerificationFields { business_country: Some(value), ..self.fields } }
    }

    pub fn additional_information(self, value: &'a str) -> (r: Self)
        ensures
            r == (UpdateTollfreeVerificationRequest { fields: TollfreeVerificationFields { additional_information: Some(value), ..self.fields } }),
    {
        UpdateTollfreeVerificationRequest { fields: TollfreeVerificationFields { additional_information: Some(value), ..self.fields } }
    }

    pub fn business_contact_first_name(self, value: &'a str) -> (r: Self)
        ensures
            r == (UpdateTollfreeVerificationRequest { fields: TollfreeVerificationFields { business_contact_first_name: Some(value), ..self.fields } }),
    {
        UpdateTollfreeVerificationRequest { fields: TollfreeVerificationFields { business_contact_first_name: Some(value), ..self.fields } }
    }

    pub fn business_contact_last_name(self, value: &'a str) -> (r: Self)
        ensures
            r == (UpdateTollfreeVerificationRequest { fields: TollfreeVerificationFields { business_contact_last_name: Some(value), ..self.fields } }),
    {
        UpdateTollfreeVerificationRequest { fields: TollfreeVerificationFields { business_contact_last_name: Some(value), ..self.fields } }
    }

    pub fn business_contact_email(self, value: &'a str) -> (r: Self)
        ensures
            r == (UpdateTollfreeVerificationRequest { fields: TollfreeVerificationFields { business_contact_email: Some(value), ..self.fields } }),
    {
        UpdateTollfreeVerificationRequest { fields: TollfreeVerificationFields { business_contact_email: Some(value), ..self.fields } }
    }

    pub fn business_contact_phone(self, value: &'a str) -> (r: Self)
        ensures
            r == (UpdateTollfreeVerificationRequest { fields: TollfreeVerificationFields { business_contact_phone: Some(value), ..self.fields } }),
    {
        UpdateTollfreeVerificationRequest { fields: TollfreeVerificationFields { business_contact_phone: Some(value), ..self.fields } }
    }

    pub fn business_registration_number(self, value: &'a str) -> (r: Self)
        ensures
            r == (UpdateTollfreeVerificationRequest { fields: TollfreeVerificationFields { business_registration_number: Some(value), ..self.fields } }),
    {
        UpdateTollfreeVerificationRequest { fields: TollfreeVerificationFields { business_registration_number: Some(value), ..self.fields } }
    }

    pub fn business_registration_authority(self, value: TollfreeBusinessRegistrationAuthority<'a>) -> (r: Self)
        ensures
            r == (UpdateTollfreeVerificationRequest { fields: TollfreeVerificationFields { business_registration_authority: Some(value), ..self.fields } }),
    {
        UpdateTollfreeVerificationRequest { fields: TollfreeVerificationFields { business_registration_authority: Some(value), ..self.fields } }
    }

    pub fn business_registration_country(self, value: &'a str) -> (r: Self)
        ensures
            r == (UpdateTollfreeVerificationRequest { fields: TollfreeVerificationFields { business_registration_country: Some(value), ..self.fields } }),
    {
        UpdateTollfreeVerificationRequest { fields: TollfreeVerificationFields { business_registration_country: Some(value), ..self.fields } }
    }

    pub fn business_type(self, value: TollfreeBusinessType<'a>) -> (r: Self)
        ensures
            r == (UpdateTollfreeVerificationRequest { fields: TollfreeVerificationFields { business_type: Some(value), ..self.fields } }),
    {
        UpdateTollfreeVerificationRequest { fields: TollfreeVerificationFields { business_type: Some(value), ..self.fields } }
    }

    pub fn business_registration_phone_number(self, value: &'a str) -> (r: Self)
        ensures
            r == (UpdateTollfreeVerificationRequest { fields: TollfreeVerificationFields { business_registration_phone_number: Some(value), ..self.fields } }),
    {
        UpdateTollfreeVerificationRequest { fields: TollfreeVerificationFields { business_registration_phone_number: Some(value), ..self.fields } }
    }

    pub fn doing_business_as(self, value: &'a str) -> (r: Self)
        ensures
            r == (UpdateTollfreeVerificationRequest { fields: TollfreeVerificationFields { doing_business_as: Some(value), ..self.fields } }),
    {
        UpdateTollfreeVerificationRequest { fields: TollfreeVerificationFields { doing_business_as: Some(value), ..self.fields } }
    }

    pub fn opt_in_confirmation_message(self, value: &'a str) -> (r: Self)
        ensures
            r == (UpdateTollfreeVerificationRequest { fields: TollfreeVerificationFields { opt_in_confirmation_message: Some(value), ..self.fields } }),
    {
        UpdateTollfreeVerificationRequest { fields: TollfreeVerificationFields { opt_in_confirmation_message: Some(value), ..self.fields } }
    }

    pub fn help_message_sample(self, value: &'a str) -> (r: Self)
        ensures
            r == (UpdateTollfreeVerificationRequest { fields: TollfreeVerificationFields { help_message_sample: Some(value), ..self.fields } }),
    {
        UpdateTollfreeVerificationRequest { fields: TollfreeVerificationFields { help_message_sample: Some(value), ..self.fields } }
    }

    pub fn privacy_policy_url(self, value: &'a str) -> (r: Self)
        ensures
            r == (UpdateTollfreeVerificationRequest { fields: TollfreeVerificationFields { privacy_policy_url: Some(value), ..self.fields } }),
    {
        UpdateTollfreeVerificationRequest { fields: TollfreeVerificationFields { privacy_policy_url: Some(value), ..self.fields } }
    }

    pub fn terms_and_conditions_url(self, value: &'a str) -> (r: Self)
        ensures
            r == (UpdateTollfreeVerificationRequest { fields: TollfreeVerificationFields { terms_and_conditions_url: Some(value), ..self.fields } }),
    {
        UpdateTollfreeVerificationRequest { fields: TollfreeVerificationFields { terms_and_conditions_url: Some(value), ..self.fields } }
    }

    pub fn age_gated_content(self, value: bool) -> (r: Self)
        ensures
            r == (UpdateTollfreeVerificationRequest { fields: TollfreeVerificationFields { age_gated_content: Some(value), ..self.fields } }),
    {
        UpdateTollfreeVerificationRequest { fields: TollfreeVerificationFields { age_gated_content: Some(value), ..self.fields } }
    }

    pub fn opt_in_keywords(self, value: &'a [&'a str]) -> (r: Self)
        ensures
            r == (UpdateTollfreeVerificationRequest { fields: TollfreeVerificationFields { opt_in_keywords: value, ..self.fields } }),
    {
        UpdateTollfreeVerificationRequest { fields: TollfreeVerificationFields { opt_in_keywords: value, ..self.fields } }
    }

    pub fn vetting_provider(self, value: TollfreeVettingProvider<'a>) -> (r: Self)
        ensures
            r == (UpdateTollfreeVerificationRequest { fields: TollfreeVerificationFields { vetting_provider: Some(value), ..self.fields } }),
    {
        UpdateTollfreeVerificationRequest { fields: TollfreeVerificationFields { vetting_provider: Some(value), ..self.fields } }
    }

    pub fn vetting_id(self, value: &'a str) -> (r: Self)
        ensures
            r == (UpdateTollfreeVerificationRequest { fields: TollfreeVerificationFields { vetting_id: Some(value), ..self.fields } }),
    {
        UpdateTollfreeVerificationRequest { fields: TollfreeVerificationFields { vetting_id: Some(value), ..self.fields } }
    }

    pub fn edit_reason(self, value: &'a str) -> (r: Self)
        ensures
            r == (UpdateTollfreeVerificationRequest { fields: TollfreeVerificationFields { edit_reason: Some(value), ..self.fields } }),
    {
        UpdateTollfreeVerificationRequest { fields: TollfreeVerificationFields { edit_reason: Some(value), ..self.fields } }
    }

    /// The first documented rule this request breaks, as its error text.
    pub open spec fn violation(&self) -> Option<Seq<char>> {
        if self.fields.spec_form_params().len() == 0 {
            Some("toll-free verification update requires at least one field"@)
        } else {
            self.fields.common_violation()
        }
    }

    /// Check that the update sets a field and that no value is blank.
    pub fn validate(&self) -> (r: Result<(), TwilioError>)
        ensures
            check_outcome(r, self.violation()),
    {
        let params = self.fields.form_params();
        if params.len() == 0 {
            return Err(invalid("toll-free verification update requires at least one field"));
        }
        self.fields.validate_common()
    }

    /// The form parameters of this request, in Twilio's documented order.
    pub open spec fn spec_form_params(&self) -> ParamSeq {
        self.fields.spec_form_params()
    }

    /// Encode this request as form parameters.
    pub fn form_params(&self) -> (params: Vec<FormParam>)
        ensures
            params_view(params@) == self.spec_form_params(),
    {
        self.fields.form_params()
    }
}

/// Query parameters for `GET /Tollfree/Verifications`.
#[derive(Clone, Copy)]
pub struct ListTollfreeVerificationsRequest<'a> {
    pub tollfree_phone_number_sid: Option<&'a str>,
    pub status: Option<TollfreeVerificationStatus<'a>>,
    pub external_reference_id: Option<&'a str>,
    pub include_sub_accounts: Option<bool>,
    pub trust_product_sids: &'a [&'a str],
    pub page_size: Option<u32>,
    pub page: Option<u32>,
    pub page_token: Option<&'a str>,
}

impl<'a> ListTollfreeVerificationsRequest<'a> {
    pub fn new() -> (r: Self)
        ensures
            r.tollfree_phone_number_sid is None,
            r.status is None,
            r.external_reference_id is None,
            r.include_sub_accounts is None,
            r.trust_product_sids@.len() == 0,
            r.page_size is None,
            r.page is None,
            r.page_token is None,
    {
        ListTollfreeVerificationsRequest {
            tollfree_phone_number_sid: None,
            status: None,
            external_reference_id: None,
            include_sub_accounts: None,
            trust_product_sids: &[],
            page_size: None,
            page: None,
            page_token: None,
        }
    }

    pub fn tollfree_phone_number_sid(self, value: &'a str) -> (r: Self)
        ensures
            r == (ListTollfreeVerificationsRequest { tollfree_phone_number_sid: Some(value), ..self }),
    {
        ListTollfreeVerificationsRequest { tollfree_phone_number_sid: Some(value), ..self }
    }

    pub fn status(self, value: TollfreeVerificationStatus<'a>) -> (r: Self)
        ensures
            r == (ListTollfreeVerificationsRequest { status: Some(value), ..self }),
    {
        ListTollfreeVerificationsRequest { status: Some(value), ..self }
    }

    pub fn external_reference_id(self, value: &'a str) -> (r: Self)
        ensures
            r == (ListTollfreeVerificationsRequest { external_reference_id: Some(value), ..self }),
    {
        ListTollfreeVerificationsRequest { external_reference_id: Some(value), ..self }
    }

    pub fn include_sub_accounts(self, value: bool) -> (r: Self)
        ensures
            r == (ListTollfreeVerificationsRequest { include_sub_accounts: Some(value), ..self }),
    {
        ListTollfreeVerificationsRequest { include_sub_accounts: Some(value), ..self }
    }

    pub fn trust_product_sids(self, value: &'a [&'a str]) -> (r: Self)
        ensures
            r == (ListTollfreeVerificationsRequest { trust_product_sids: value, ..self }),
    {
        ListTollfreeVerificationsRequest { trust_product_sids: value, ..self }
    }

    pub fn page_size(self, value: u32) -> (r: Self)
        ensures
            r == (ListTollfreeVerificationsRequest { page_size: Some(value), ..self }),
    {
        ListTollfreeVerificationsRequest { page_size: Some(value), ..self }
    }

    pub fn page(self, value: u32) -> (r: Self)
        ensures
            r == (ListTollfreeVerificationsRequest { page: Some(value), ..self }),
    {
        ListTollfreeVerificationsRequest { page: Some(value), ..self }
    }

    pub fn page_token(self, value: &'a str) -> (r: Self)
        ensures
            r == (ListTollfreeVerificationsRequest { page_token: Some(value), ..self }),
    {
        ListTollfreeVerificationsRequest { page_token: Some(value), ..self }
    }

    /// The first documented rule this request breaks, as its error text.
    pub open spec fn violation(&self) -> Option<Seq<char>> {
        first_of(
            page_size_violation(self.page_size),
            first_of(
                optional_enum_rule("Status"@, self.status),
                if any_blank(self.trust_product_sids@) {
                    Some(values_must_not_be_empty("TrustProductSid"@))
                } else {
                    None
                },
            ),
        )
    }

    /// Check the page size, the status and the trust product sids.
    pub fn validate(&self) -> (r: Result<(), TwilioError>)
        ensures
            check_outcome(r, self.violation()),
    {
        validate_page_size(self.page_size)?;
        validate_optional_enum("Status", self.status)?;
        validate_str_slice("TrustProductSid", self.trust_product_sids)
    }

    /// The query parameters of this request, in the order they are sent.
    pub open spec fn spec_query_pairs(&self) -> ParamSeq {
        str_param("TollfreePhoneNumberSid"@, opt_view(self.tollfree_phone_number_sid)) + str_param(
            "Status"@,
            tfv_view(self.status),
        ) + str_param("ExternalReferenceId"@, opt_view(self.external_reference_id)) + bool_param(
            "IncludeSubAccounts"@,
            self.include_sub_accounts,
        ) + list_params("TrustProductSid"@, self.trust_product_sids@) + v1_page_pairs(
            self.page_size,
            self.page,
            self.page_token,
        )
    }

    /// Encode this request as query parameters.
    pub fn query_pairs(&self) -> (params: Vec<FormParam>)
        ensures
            params_view(params@) == self.spec_query_pairs(),
    {
        let mut params = Vec::new();
        push_str(&mut params, "TollfreePhoneNumberSid", self.tollfree_phone_number_sid);
        push_tfv_enum(&mut params, "Status", self.status);
        push_str(&mut params, "ExternalReferenceId", self.external_reference_id);
        push_bool(&mut params, "IncludeSubAccounts", self.include_sub_accounts);
        push_list(&mut params, "TrustProductSid", self.trust_product_sids);
        push_v1_page_query(&mut params, self.page_size, self.page, self.page_token);
        assert(params_view(params@) =~= self.spec_query_pairs());
        params
    }
}


/// A Toll-free Verification.
#[derive(Clone)]
pub struct TwilioTollfreeVerification {
    pub sid: Option<String>,
    pub account_sid: Option<String>,
    pub customer_profile_sid: Option<String>,
    pub trust_product_sid: Option<String>,
    pub regulated_item_sid: Option<String>,
    pub date_created: Option<time::OffsetDateTime>,
    pub date_updated: Option<time::OffsetDateTime>,
    pub business_name: Option<String>,
    pub business_street_address: Option<String>,
    pub business_street_address2: Option<String>,
    pub business_city: Option<String>,
    pub business_state_province_region: Option<String>,
    pub business_postal_code: Option<String>,
    pub business_country: Option<String>,
    pub business_website: Option<String>,
    pub business_contact_first_name: Option<String>,
    pub business_contact_last_name: Option<String>,
    pub business_contact_email: Option<String>,
    pub business_contact_phone: Option<String>,
    pub notification_email: Option<String>,
    pub use_case_categories: Option<Vec<String>>,
    pub use_case_summary: Option<String>,
    pub production_message_sample: Option<String>,
    pub opt_in_image_urls: Option<Vec<String>>,
    pub opt_in_type: Option<String>,
    pub message_volume: Option<String>,
    pub additional_information: Option<String>,
    pub tollfree_phone_number_sid: Option<String>,
    pub tollfree_phone_number: Option<String>,
    pub status: Option<String>,
    pub rejection_reason: Option<String>,
    pub error_code: Option<i64>,
    pub edit_expiration: Option<time::OffsetDateTime>,
    pub edit_allowed: Option<bool>,
    pub rejection_reasons: Option<serde_json::Value>,
    pub resource_links: Option<BTreeMap<String, String>>,
    pub url: Option<String>,
    pub external_reference_id: Option<String>,
    pub business_registration_number: Option<String>,
    pub business_registration_authority: Option<String>,
    pub business_registration_country: Option<String>,
    pub business_type: Option<String>,
    pub business_registration_phone_number: Option<String>,
    pub doing_business_as: Option<String>,
    pub age_gated_content: Option<bool>,
    pub help_message_sample: Option<String>,
    pub opt_in_confirmation_message: Option<String>,
    pub opt_in_keywords: Option<Vec<String>>,
    pub privacy_policy_url: Option<String>,
    pub terms_and_conditions_url: Option<String>,
    pub vetting_id: Option<String>,
    pub vetting_id_expiration: Option<time::OffsetDateTime>,
    pub vetting_provider: Option<String>,
}

impl TwilioTollfreeVerification {
    /// Fields sid to business_street_address of this record's debug text.
    pub open spec fn debug_fields_part_0(&self) -> Seq<(Seq<char>, Seq<char>)> {
        seq![
            ("sid"@, redacted_text(self.sid is Some)),
            ("account_sid"@, redacted_text(self.account_sid is Some)),
            ("customer_profile_sid"@, redacted_text(self.customer_profile_sid is Some)),
            ("trust_product_sid"@, redacted_text(self.trust_product_sid is Some)),
            ("regulated_item_sid"@, redacted_text(self.regulated_item_sid is Some)),
            ("date_created"@, opt_timestamp_debug(self.date_created)),
            ("date_updated"@, opt_timestamp_debug(self.date_updated)),
            ("business_name"@, redacted_text(self.business_name is Some)),
            ("business_street_address"@, redacted_text(self.business_street_address is Some)),
        ]
    }

    /// Fields business_street_address2 to business_contact_email of this record's debug text.
    pub open spec fn debug_fields_part_1(&self) -> Seq<(Seq<char>, Seq<char>)> {
        seq![
            ("business_street_address2"@, redacted_text(self.business_street_address2 is Some)),
            ("business_city"@, redacted_text(self.business_city is Some)),
            ("business_state_province_region"@, redacted_text(self.business_state_province_region is Some)),
            ("business_postal_code"@, redacted_text(self.business_postal_code is Some)),
            ("business_country"@, redacted_text(self.business_country is Some)),
            ("business_website"@, redacted_text(self.business_website is Some)),
            ("business_contact_first_name"@, redacted_text(self.business_contact_first_name is Some)),
            ("business_contact_last_name"@, redacted_text(self.business_contact_last_name is Some)),
            ("business_contact_email"@, redacted_text(self.business_contact_email is Some)),
        ]
    }

    /// Fields business_contact_phone to additional_information of this record's debug text.
    pub open spec fn debug_fields_part_2(&self) -> Seq<(Seq<char>, Seq<char>)> {
        seq![
            ("business_contact_phone"@, redacted_text(self.business_contact_phone is Some)),
            ("notification_email"@, redacted_text(self.notification_email is Some)),
            ("use_case_categories"@, redacted_text(self.use_case_categories is Some)),
            ("use_case_summary"@, redacted_text(self.use_case_summary is Some)),
            ("production_message_sample"@, redacted_text(self.production_message_sample is Some)),
            ("opt_in_image_urls"@, redacted_text(self.opt_in_image_urls is Some)),
            ("opt_in_type"@, opt_str_debug(self.opt_in_type)),
            ("message_volume"@, opt_str_debug(self.message_volume)),
            ("additional_information"@, redacted_text(self.additional_information is Some)),
        ]
    }

    /// Fields tollfree_phone_number_sid to resource_links of this record's debug text.
    pub open spec fn debug_fields_part_3(&self) -> Seq<(Seq<char>, Seq<char>)> {
        seq![
            ("tollfree_phone_number_sid"@, redacted_text(self.tollfree_phone_number_sid is Some)),
            ("tollfree_phone_number"@, redacted_text(self.tollfree_phone_number is Some)),
            ("status"@, opt_str_debug(self.status)),
            ("rejection_reason"@, redacted_text(self.rejection_reason is Some)),
            ("error_code"@, opt_i64_debug(self.error_code)),
            ("edit_expiration"@, opt_timestamp_debug(self.edit_expiration)),
            ("edit_allowed"@, opt_bool_debug(self.edit_allowed)),
            ("rejection_reasons"@, redacted_text(self.rejection_reasons is Some)),
            ("resource_links"@, redacted_text(self.resource_links is Some)),
        ]
    }

    /// Fields url to age_gated_content of this record's debug text.
    pub open spec fn debug_fields_part_4(&self) -> Seq<(Seq<char>, Seq<char>)> {
        seq![
            ("url"@, redacted_text(self.url is Some)),
            ("external_reference_id"@, redacted_text(self.external_reference_id is Some)),
            ("business_registration_number"@, redacted_text(self.business_registration_number is Some)),
            ("business_registration_authority"@, opt_str_debug(self.business_registration_authority)),
            ("business_registration_country"@, redacted_text(self.business_registration_country is Some)),
            ("business_type"@, opt_str_debug(self.business_type)),
            ("business_registration_phone_number"@, redacted_text(self.business_registration_phone_number is Some)),
            ("doing_business_as"@, redacted_text(self.doing_business_as is Some)),
            ("age_gated_content"@, opt_bool_debug(self.age_gated_content)),
        ]
    }

    /// Fields help_message_sample to vetting_provider of this record's debug text.
    pub open spec fn debug_fields_part_5(&self) -> Seq<(Seq<char>, Seq<char>)> {
        seq![
            ("help_message_sample"@, redacted_text(self.help_message_sample is Some)),
            ("opt_in_confirmation_message"@, redacted_text(self.opt_in_confirmation_message is Some)),
            ("opt_in_keywords"@, redacted_text(self.opt_in_keywords is Some)),
            ("privacy_policy_url"@, redacted_text(self.privacy_policy_url is Some)),
            ("terms_and_conditions_url"@, redacted_text(self.terms_and_conditions_url is Some)),
            ("vetting_id"@, redacted_text(self.vetting_id is Some)),
            ("vetting_id_expiration"@, opt_timestamp_debug(self.vetting_id_expiration)),
            ("vetting_provider"@, opt_str_debug(self.vetting_provider)),
        ]
    }

    /// The fields of this record's debug text, in order, with the fields
    /// that identify an account, a person or a business hidden.
    pub open spec fn spec_debug_fields(&self) -> Seq<(Seq<char>, Seq<char>)> {
        self.debug_fields_part_0() + self.debug_fields_part_1() + self.debug_fields_part_2() + self.debug_fields_part_3() + self.debug_fields_part_4() + self.debug_fields_part_5()
    }

    /// The debug text of this record, with the fields that identify an
    /// account, a person or a business hidden as `[REDACTED]`.
    pub open spec fn spec_debug_text(&self) -> Seq<char> {
        debug_struct_text("TwilioTollfreeVerification"@, self.spec_debug_fields())
    }

    fn write_debug_part_0(&self, d: &mut DebugStructText)
        requires
            old(d).wf(),
        ensures
            final(d).wf(),
            final(d).name@ == old(d).name@,
            final(d).fields@ == old(d).fields@ + self.debug_fields_part_0(),
    {
        let ghost f0 = d.fields@;
        d.field("sid", redacted(self.sid.is_some()));
        d.field("account_sid", redacted(self.account_sid.is_some()));
        d.field("customer_profile_sid", redacted(self.customer_profile_sid.is_some()));
        d.field("trust_product_sid", redacted(self.trust_product_sid.is_some()));
        d.field("regulated_item_sid", redacted(self.regulated_item_sid.is_some()));
        let v = debug_opt_timestamp(&self.date_created);
        d.field("date_created", v.as_str());
        let v = debug_opt_timestamp(&self.date_updated);
        d.field("date_updated", v.as_str());
        d.field("business_name", redacted(self.business_name.is_some()));
        d.field("business_street_address", redacted(self.business_street_address.is_some()));
        assert(d.fields@ =~= f0 + self.debug_fields_part_0());
    }

    fn write_debug_part_1(&self, d: &mut DebugStructText)
        requires
            old(d).wf(),
        ensures
            final(d).wf(),
            final(d).name@ == old(d).name@,
            final(d).fields@ == old(d).fields@ + self.debug_fields_part_1(),
    {
        let ghost f0 = d.fields@;
        d.field("business_street_address2", redacted(self.business_street_address2.is_some()));
        d.field("business_city", redacted(self.business_city.is_some()));
        d.field("business_state_province_region", redacted(self.business_state_province_region.is_some()));
        d.field("business_postal_code", redacted(self.business_postal_code.is_some()));
        d.field("business_country", redacted(self.business_country.is_some()));
        d.field("business_website", redacted(self.business_website.is_some()));
        d.field("business_contact_first_name", redacted(self.business_contact_first_name.is_some()));
        d.field("business_contact_last_name", redacted(self.business_contact_last_name.is_some()));
        d.field("business_contact_email", redacted(self.business_contact_email.is_some()));
        assert(d.fields@ =~= f0 + self.debug_fields_part_1());
    }

    fn write_debug_part_2(&self, d: &mut DebugStructText)
        requires
            old(d).wf(),
        ensures
            final(d).wf(),
            final(d).name@ == old(d).name@,
            final(d).fields@ == old(d).fields@ + self.debug_fields_part_2(),
    {
        let ghost f0 = d.fields@;
        d.field("business_contact_phone", redacted(self.business_contact_phone.is_some()));
        d.field("notification_email", redacted(self.notification_email.is_some()));
        d.field("use_case_categories", redacted(self.use_case_categories.is_some()));
        d.field("use_case_summary", redacted(self.use_case_summary.is_some()));
        d.field("production_message_sample", redacted(self.production_message_sample.is_some()));
        d.field("opt_in_image_urls", redacted(self.opt_in_image_urls.is_some()));
        let v = debug_opt_str(&self.opt_in_type);
        d.field("opt_in_type", v.as_str());
        let v = debug_opt_str(&self.message_volume);
        d.field("message_volume", v.as_str());
        d.field("additional_information", redacted(self.additional_information.is_some()));
        assert(d.fields@ =~= f0 + self.debug_fields_part_2());
    }

    fn write_debug_part_3(&self, d: &mut DebugStructText)
        requires
            old(d).wf(),
        ensures
            final(d).wf(),
            final(d).name@ == old(d).name@,
            final(d).fields@ == old(d).fields@ + self.debug_fields_part_3(),
    {
        let ghost f0 = d.fields@;
        d.field("tollfree_phone_number_sid", redacted(self.tollfree_phone_number_sid.is_some()));
        d.field("tollfree_phone_number", redacted(self.tollfree_phone_number.is_some()));
        let v = debug_opt_str(&self.status);
        d.field("status", v.as_str());
        d.field("rejection_reason", redacted(self.rejection_reason.is_some()));
        let v = debug_opt_i64(self.error_code);
        d.field("error_code", v.as_str());
        let v = debug_opt_timestamp(&self.edit_expiration);
        d.field("edit_expiration", v.as_str());
        let v = debug_opt_bool(self.edit_allowed);
        d.field("edit_allowed", v.as_str());
        d.field("rejection_reasons", redacted(self.rejection_reasons.is_some()));
        d.field("resource_links", redacted(self.resource_links.is_some()));
        assert(d.fields@ =~= f0 + self.debug_fields_part_3());
    }

    fn write_debug_part_4(&self, d: &mut DebugStructText)
        requires
            old(d).wf(),
        ensures
            final(d).wf(),
            final(d).name@ == old(d).name@,
            final(d).fields@ == old(d).fields@ + self.debug_fields_part_4(),
    {
        let ghost f0 = d.fields@;
        d.field("url", redacted(self.url.is_some()));
        d.field("external_reference_id", redacted(self.external_reference_id.is_some()));
        d.field("business_registration_number", redacted(self.business_registration_number.is_some()));
        let v = debug_opt_str(&self.business_registration_authority);
        d.field("business_registration_authority", v.as_str());
        d.field("business_registration_country", redacted(self.business_registration_country.is_some()));
        let v = debug_opt_str(&self.business_type);
        d.field("business_type", v.as_str());
        d.field("business_registration_phone_number", redacted(self.business_registration_phone_number.is_some()));
        d.field("doing_business_as", redacted(self.doing_business_as.is_some()));
        let v = debug_opt_bool(self.age_gated_content);
        d.field("age_gated_content", v.as_str());
        assert(d.fields@ =~= f0 + self.debug_fields_part_4());
    }

    fn write_debug_part_5(&self, d: &mut DebugStructText)
        requires
            old(d).wf(),
        ensures
            final(d).wf(),
            final(d).name@ == old(d).name@,
            final(d).fields@ == old(d).fields@ + self.debug_fields_part_5(),
    {
        let ghost f0 = d.fields@;
        d.field("help_message_sample", redacted(self.help_message_sample.is_some()));
        d.field("opt_in_confirmation_message", redacted(self.opt_in_confirmation_message.is_some()));
        d.field("opt_in_keywords", redacted(self.opt_in_keywords.is_some()));
        d.field("privacy_policy_url", redacted(self.privacy_policy_url.is_some()));
        d.field("terms_and_conditions_url", redacted(self.terms_and_conditions_url.is_some()));
        d.field("vetting_id", redacted(self.vetting_id.is_some()));
        let v = debug_opt_timestamp(&self.vetting_id_expiration);
        d.field("vetting_id_expiration", v.as_str());
        let v = debug_opt_str(&self.vetting_provider);
        d.field("vetting_provider", v.as_str());
        assert(d.fields@ =~= f0 + self.debug_fields_part_5());
    }

    /// Write the debug text of this record.
    pub fn debug_text(&self) -> (s: String)
        ensures
            s@ == self.spec_debug_text(),
    {
        let mut d = DebugStructText::new("TwilioTollfreeVerification");
        self.write_debug_part_0(&mut d);
        self.write_debug_part_1(&mut d);
        self.write_debug_part_2(&mut d);
        self.write_debug_part_3(&mut d);
        self.write_debug_part_4(&mut d);
        self.write_debug_part_5(&mut d);
        assert(d.fields@ =~= self.spec_debug_fields());
        d.finish()
    }
}

/// A Toll-free Verification as the response writes it, timestamps as text.
pub struct WireTollfreeVerification {
    pub sid: Option<String>,
    pub account_sid: Option<String>,
    pub customer_profile_sid: Option<String>,
    pub trust_product_sid: Option<String>,
    pub regulated_item_sid: Option<String>,
    pub date_created: Option<String>,
    pub date_updated: Option<String>,
    pub business_name: Option<String>,
    pub business_street_address: Option<String>,
    pub business_street_address2: Option<String>,
    pub business_city: Option<String>,
    pub business_state_province_region: Option<String>,
    pub business_postal_code: Option<String>,
    pub business_country: Option<String>,
    pub business_website: Option<String>,
    pub business_contact_first_name: Option<String>,
    pub business_contact_last_name: Option<String>,
    pub business_contact_email: Option<String>,
    pub business_contact_phone: Option<String>,
    pub notification_email: Option<String>,
    pub use_case_categories: Option<Vec<String>>,
    pub use_case_summary: Option<String>,
    pub production_message_sample: Option<String>,
    pub opt_in_image_urls: Option<Vec<String>>,
    pub opt_in_type: Option<String>,
    pub message_volume: Option<String>,
    pub additional_information: Option<String>,
    pub tollfree_phone_number_sid: Option<String>,
    pub tollfree_phone_number: Option<String>,
    pub status: Option<String>,
    pub rejection_reason: Option<String>,
    pub error_code: Option<i64>,
    pub edit_expiration: Option<String>,
    pub edit_allowed: Option<bool>,
    pub rejection_reasons: Option<serde_json::Value>,
    pub resource_links: Option<BTreeMap<String, String>>,
    pub url: Option<String>,
    pub external_reference_id: Option<String>,
    pub business_registration_number: Option<String>,
    pub business_registration_authority: Option<String>,
    pub business_registration_country: Option<String>,
    pub business_type: Option<String>,
    pub business_registration_phone_number: Option<String>,
    pub doing_business_as: Option<String>,
    pub age_gated_content: Option<bool>,
    pub help_message_sample: Option<String>,
    pub opt_in_confirmation_message: Option<String>,
    pub opt_in_keywords: Option<Vec<String>>,
    pub privacy_policy_url: Option<String>,
    pub terms_and_conditions_url: Option<String>,
    pub vetting_id: Option<String>,
    pub vetting_id_expiration: Option<String>,
    pub vetting_provider: Option<String>,
}

/// TollfreeVerification read from its response: each field as the response conversion leaves it.
pub open spec fn tollfree_verification_from(w: WireTollfreeVerification, t: TwilioTollfreeVerification) -> bool {
    &&& t.sid == w.sid
    &&& t.account_sid == w.account_sid
    &&& t.customer_profile_sid == w.customer_profile_sid
    &&& t.trust_product_sid == w.trust_product_sid
    &&& t.regulated_item_sid == w.regulated_item_sid
    &&& (t.date_created == iso8601_value(w.date_created))
    &&& (t.date_updated == iso8601_value(w.date_updated))
    &&& t.business_name == w.business_name
    &&& t.business_street_address == w.business_street_address
    &&& t.business_street_address2 == w.business_street_address2
    &&& t.business_city == w.business_city
    &&& t.business_state_province_region == w.business_state_province_region
    &&& t.business_postal_code == w.business_postal_code
    &&& t.business_country == w.business_country
    &&& t.business_website == w.business_website
    &&& t.business_contact_first_name == w.business_contact_first_name
    &&& t.business_contact_last_name == w.business_contact_last_name
    &&& t.business_contact_email == w.business_contact_email
    &&& t.business_contact_phone == w.business_contact_phone
    &&& t.notification_email == w.notification_email
    &&& t.use_case_categories == w.use_case_categories
    &&& t.use_case_summary == w.use_case_summary
    &&& t.production_message_sample == w.production_message_sample
    &&& t.opt_in_image_urls == w.opt_in_image_urls
    &&& t.opt_in_type == w.opt_in_type
    &&& t.message_volume == w.message_volume
    &&& t.additional_information == w.additional_information
    &&& t.tollfree_phone_number_sid == w.tollfree_phone_number_sid
    &&& t.tollfree_phone_number == w.tollfree_phone_number
    &&& t.status == w.status
    &&& t.rejection_reason == w.rejection_reason
    &&& t.error_code == w.error_code
    &&& (t.edit_expiration == iso8601_value(w.edit_expiration))
    &&& t.edit_allowed == w.edit_allowed
    &&& t.rejection_reasons == w.rejection_reasons
    &&& t.resource_links == w.resource_links
    &&& t.url == w.url
    &&& t.external_reference_id == w.external_reference_id
    &&& t.business_registration_number == w.business_registration_number
    &&& t.business_registration_authority == w.business_registration_authority
    &&& t.business_registration_country == w.business_registration_country
    &&& t.business_type == w.business_type
    &&& t.business_registration_phone_number == w.business_registration_phone_number
    &&& t.doing_business_as == w.doing_business_as
    &&& t.age_gated_content == w.age_gated_content
    &&& t.help_message_sample == w.help_message_sample
    &&& t.opt_in_confirmation_message == w.opt_in_confirmation_message
    &&& t.opt_in_keywords == w.opt_in_keywords
    &&& t.privacy_policy_url == w.privacy_policy_url
    &&& t.terms_and_conditions_url == w.terms_and_conditions_url
    &&& t.vetting_id == w.vetting_id
    &&& (t.vetting_id_expiration == iso8601_value(w.vetting_id_expiration))
    &&& t.vetting_provider == w.vetting_provider
}

impl WireTollfreeVerification {
    /// The Toll-free Verification this response describes.
    pub fn into_verification(self) -> (t: TwilioTollfreeVerification)
        ensures
            tollfree_verification_from(self, t),
    {
        TwilioTollfreeVerification {
            sid: self.sid,
            account_sid: self.account_sid,
            customer_profile_sid: self.customer_profile_sid,
            trust_product_sid: self.trust_product_sid,
            regulated_item_sid: self.regulated_item_sid,
            date_created: parse_iso8601(self.date_created),
            date_updated: parse_iso8601(self.date_updated),
            business_name: self.business_name,
            business_street_address: self.business_street_address,
            business_street_address2: self.business_street_address2,
            business_city: self.business_city,
            business_state_province_region: self.business_state_province_region,
            business_postal_code: self.business_postal_code,
            business_country: self.business_country,
            business_website: self.business_website,
            business_contact_first_name: self.business_contact_first_name,
            business_contact_last_name: self.business_contact_last_name,
            business_contact_email: self.business_contact_email,
            business_contact_phone: self.business_contact_phone,
            notification_email: self.notification_email,
            use_case_categories: self.use_case_categories,
            use_case_summary: self.use_case_summary,
            production_message_sample: self.production_message_sample,
            opt_in_image_urls: self.opt_in_image_urls,
            opt_in_type: self.opt_in_type,
            message_volume: self.message_volume,
            additional_information: self.additional_information,
            tollfree_phone_number_sid: self.tollfree_phone_number_sid,
            tollfree_phone_number: self.tollfree_phone_number,
            status: self.status,
            rejection_reason: self.rejection_reason,
            error_code: self.error_code,
            edit_expiration: parse_iso8601(self.edit_expiration),
            edit_allowed: self.edit_allowed,
            rejection_reasons: self.rejection_reasons,
            resource_links: self.resource_links,
            url: self.url,
            external_reference_id: self.external_reference_id,
            business_registration_number: self.business_registration_number,
            business_registration_authority: self.business_registration_authority,
            business_registration_country: self.business_registration_country,
            business_type: self.business_type,
            business_registration_phone_number: self.business_registration_phone_number,
            doing_business_as: self.doing_business_as,
            age_gated_content: self.age_gated_content,
            help_message_sample: self.help_message_sample,
            opt_in_confirmation_message: self.opt_in_confirmation_message,
            opt_in_keywords: self.opt_in_keywords,
            privacy_policy_url: self.privacy_policy_url,
            terms_and_conditions_url: self.terms_and_conditions_url,
            vetting_id: self.vetting_id,
            vetting_id_expiration: parse_iso8601(self.vetting_id_expiration),
            vetting_provider: self.vetting_provider,
        }
    }
}

} // verus!
