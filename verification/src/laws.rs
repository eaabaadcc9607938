use vstd::prelude::*;

use crate::content::collection::{
    has_violating_key, is_first_violating_key, types_violation, ContentPayload,
};
use crate::content::types::{ContentCallToAction, ContentListPicker, ContentMedia, ContentQuickReply, ContentText};
use crate::content::models::variables_map;
use crate::error::{first_some, lemma_first_some_none};
use crate::external::form_encoded;
use crate::form::{encoded_pairs, ParamSeq};
use crate::messaging_features::{contact_rules, consent_rules, BulkConsentsRequest, BulkContactsRequest};
use crate::pricing::{ascii_upper, is_ascii_letter, iso_country_code};
use crate::messages::{message_from, CreateMessageRequest, TwilioMessage, WireMessage};
use crate::messaging_features::{ConsentSource, ConsentStatus};
use crate::services::{ServiceFields, TwilioService, UpdateServiceRequest};
use crate::short_codes::{AccountShortCodeFields, UpdateAccountShortCodeRequest};
use crate::text::{has_text, is_blank, is_space, lemma_lex_lt_properties, lemma_trim_end_at, lemma_trim_start_at, trim, trim_end, trim_start};
use crate::tollfree_verifications::{
    CreateTollfreeVerificationRequest,
    TollfreeVerificationFields, TwilioTollfreeVerification, UpdateTollfreeVerificationRequest,
};
use crate::typing_indicators::{kind_with_event, MessagingV3TypingIndicatorKind, TypingEvent};

verus! {

/// A Messaging Service update is refused as empty exactly when it sets no field.
pub proof fn law_service_update_requires_a_field(fields: ServiceFields)
    ensures
        (UpdateServiceRequest { fields }).violation() == Some("service update requires at least one field"@)
            <==> fields.none_set(),
{
    if !fields.none_set() {
        assert(fields.spec_form_params().len() > 0);
        let target = "service update requires at least one field"@;
        let v = fields.limits_violation();
        if v is Some {
            reveal_strlit("service update requires at least one field");
            reveal_strlit("FriendlyName must not be empty");
            reveal_strlit("FriendlyName must be at most 64 characters");
            reveal_strlit("ValidityPeriod must be in 1..=36000");
            assert(target[0] == 's');
            assert(v->0[0] != 's');
        }
    }
}

/// A short code update is refused exactly when it sets no field.
pub proof fn law_short_code_update_requires_a_field(fields: AccountShortCodeFields)
    ensures
        (UpdateAccountShortCodeRequest { fields }).violation() is Some <==> fields.none_set(),
{
}

/// A Toll-free Verification update is refused as empty exactly when it sets no field.
pub proof fn law_tollfree_update_requires_a_field(fields: TollfreeVerificationFields)
    ensures
        fields.none_set() ==> (UpdateTollfreeVerificationRequest { fields }).violation() == Some(
            "toll-free verification update requires at least one field"@,
        ),
        !fields.none_set() ==> (UpdateTollfreeVerificationRequest { fields }).violation()
            == fields.common_violation(),
{
}

/// The form text of two parameter lists sent one after the other is the text
/// of each, joined by `&`.
pub proof fn law_encoded_pairs_concat(a: ParamSeq, b: ParamSeq)
    requires
        a.len() > 0,
        b.len() > 0,
    ensures
        encoded_pairs(a + b) == encoded_pairs(a) + seq!['&'] + encoded_pairs(b),
    decreases b.len(),
{
    let ab = a + b;
    assert(ab.last() == b.last());
    if b.len() == 1 {
        assert(ab.drop_last() =~= a);
        assert(b.drop_last().len() == 0);
        assert(encoded_pairs(b.drop_last()) =~= Seq::<char>::empty());
        assert(encoded_pairs(b) =~= form_encoded(b.last().0) + seq!['='] + form_encoded(b.last().1));
        assert(encoded_pairs(ab) =~= encoded_pairs(a) + seq!['&'] + encoded_pairs(b));
    } else {
        law_encoded_pairs_concat(a, b.drop_last());
        assert(ab.drop_last() =~= a + b.drop_last());
        assert(encoded_pairs(ab) =~= encoded_pairs(a) + seq!['&'] + encoded_pairs(b));
    }
}

/// Leading whitespace removed leaves a text that starts with no whitespace.
proof fn lemma_trim_start_shape(s: Seq<char>)
    ensures
        trim_start(s).len() == 0 || !is_space(trim_start(s)[0]),
    decreases s.len(),
{
    if s.len() > 0 && is_space(s[0]) {
        lemma_trim_start_shape(s.drop_first());
    }
}

/// Trailing whitespace removed leaves a prefix that ends with no whitespace.
proof fn lemma_trim_end_shape(s: Seq<char>)
    ensures
        trim_end(s).len() <= s.len(),
        trim_end(s) == s.subrange(0, trim_end(s).len() as int),
        trim_end(s).len() == 0 || !is_space(trim_end(s).last()),
    decreases s.len(),
{
    if s.len() > 0 && is_space(s.last()) {
        lemma_trim_end_shape(s.drop_last());
        assert(s.drop_last().subrange(0, trim_end(s).len() as int) =~= s.subrange(
            0,
            trim_end(s).len() as int,
        ));
    } else {
        assert(s.subrange(0, s.len() as int) =~= s);
    }
}

/// Trimming a trimmed text changes nothing.
pub proof fn law_trim_idempotent(s: Seq<char>)
    ensures
        trim(trim(s)) == trim(s),
{
    let u = trim_start(s);
    let t = trim_end(u);
    lemma_trim_start_shape(s);
    lemma_trim_end_shape(u);
    if t.len() > 0 {
        assert(t[0] == u[0]);
        assert(trim_start(t) == t);
        assert(trim_end(t) == t);
    }
}

/// A normalized country code normalizes to itself.
pub proof fn law_iso_country_code_idempotent(s: Seq<char>)
    requires
        iso_country_code(s) is Some,
    ensures
        iso_country_code(iso_country_code(s)->0) == iso_country_code(s),
{
    let c = iso_country_code(s)->0;
    let t = trim(s);
    assert(is_ascii_letter(ascii_upper(t[0])) && is_ascii_letter(ascii_upper(t[1])));
    assert(!is_space(c[0]) && !is_space(c[1]));
    lemma_trim_start_at(c, 0);
    assert(c.subrange(0, 2) =~= c);
    lemma_trim_end_at(c, 2);
    assert(trim(c) == c);
}

/// A bulk contacts upload passes exactly when it has 1 to 25 contacts and each passes.
pub proof fn law_bulk_contacts_valid(r: BulkContactsRequest)
    ensures
        r.violation() is None <==> 1 <= r.items@.len() <= 25 && forall|i: int|
            0 <= i < r.items@.len() ==> (#[trigger] r.items@[i]).violation() is None,
{
    let rules = contact_rules(r.items@);
    lemma_first_some_none(rules);
    if forall|i: int| 0 <= i < r.items@.len() ==> (#[trigger] r.items@[i]).violation() is None {
        assert forall|j: int| 0 <= j < rules.len() implies (#[trigger] rules[j]) is None by {
            assert(rules[j] == r.items@[j].violation());
        }
    }
    if first_some(rules) is None {
        assert forall|i: int| 0 <= i < r.items@.len() implies (#[trigger] r.items@[i]).violation() is None by {
            assert(rules[i] == r.items@[i].violation());
        }
    }
}

/// A bulk consents upload passes exactly when it has 1 to 25 records and each passes.
pub proof fn law_bulk_consents_valid(r: BulkConsentsRequest)
    ensures
        r.violation() is None <==> 1 <= r.items@.len() <= 25 && forall|i: int|
            0 <= i < r.items@.len() ==> (#[trigger] r.items@[i]).violation() is None,
{
    let rules = consent_rules(r.items@);
    lemma_first_some_none(rules);
    if forall|i: int| 0 <= i < r.items@.len() ==> (#[trigger] r.items@[i]).violation() is None {
        assert forall|j: int| 0 <= j < rules.len() implies (#[trigger] rules[j]) is None by {
            assert(rules[j] == r.items@[j].violation());
        }
    }
    if first_some(rules) is None {
        assert forall|i: int| 0 <= i < r.items@.len() implies (#[trigger] r.items@[i]).violation() is None by {
            assert(rules[i] == r.items@[i].violation());
        }
    }
}

/// A payload stored under a name is what that name then reads, and every
/// other name reads what it read before.
pub proof fn law_content_types_read_after_write(
    m: Map<Seq<char>, ContentPayload>,
    k: Seq<char>,
    p: ContentPayload,
    other: Seq<char>,
)
    requires
        other != k,
    ensures
        m.insert(k, p).get(k) == Some(p),
        m.insert(k, p).get(other) == m.get(other),
{
}

/// Payloads stored under different names do not depend on the order they were stored in.
pub proof fn law_content_types_order_free(
    m: Map<Seq<char>, ContentPayload>,
    k1: Seq<char>,
    p1: ContentPayload,
    k2: Seq<char>,
    p2: ContentPayload,
)
    requires
        k1 != k2,
    ensures
        m.insert(k1, p1).insert(k2, p2) == m.insert(k2, p2).insert(k1, p1),
{
    assert(m.insert(k1, p1).insert(k2, p2) =~= m.insert(k2, p2).insert(k1, p1));
}

/// A payload stored again under a name replaces the earlier one.
pub proof fn law_content_types_last_wins(
    m: Map<Seq<char>, ContentPayload>,
    k: Seq<char>,
    p1: ContentPayload,
    p2: ContentPayload,
)
    ensures
        m.insert(k, p1).insert(k, p2) == m.insert(k, p2),
{
    assert(m.insert(k, p1).insert(k, p2) =~= m.insert(k, p2));
}

/// A template variable set twice keeps the later value.
pub proof fn law_content_variable_last_wins(vs: Seq<(String, String)>, k: String, v1: String, v2: String)
    ensures
        variables_map(vs.push((k, v1)).push((k, v2))) == variables_map(vs.push((k, v2))),
{
    let a = vs.push((k, v1));
    let b = a.push((k, v2));
    let c = vs.push((k, v2));
    assert(b.drop_last() =~= a);
    assert(b.last() == (k, v2));
    assert(a.drop_last() =~= vs);
    assert(a.last() == (k, v1));
    assert(c.drop_last() =~= vs);
    assert(c.last() == (k, v2));
    assert(variables_map(b) == variables_map(a).insert(k@, v2@));
    assert(variables_map(a) == variables_map(vs).insert(k@, v1@));
    assert(variables_map(c) == variables_map(vs).insert(k@, v2@));
    assert(variables_map(vs).insert(k@, v1@).insert(k@, v2@) =~= variables_map(vs).insert(k@, v2@));
}

/// Setting a typing indicator's event twice is the same as setting only the later one.
pub proof fn law_typing_event_last_wins(kind: MessagingV3TypingIndicatorKind, a: TypingEvent, b: TypingEvent)
    ensures
        kind_with_event(kind_with_event(kind, a), b) == kind_with_event(kind, b),
{
}


/// Two Messaging Services that differ only in the values of their hidden fields, not in
/// which of them are set, have the same debug text: no hidden value reaches it.
pub proof fn law_service_debug_hides_identifiers(a: TwilioService, b: TwilioService)
    requires
        (a.account_sid is Some) == (b.account_sid is Some),
        (a.friendly_name is Some) == (b.friendly_name is Some),
        (a.sid is Some) == (b.sid is Some),
        a.date_created == b.date_created,
        a.date_updated == b.date_updated,
        a.sticky_sender == b.sticky_sender,
        a.mms_converter == b.mms_converter,
        a.smart_encoding == b.smart_encoding,
        a.fallback_to_long_code == b.fallback_to_long_code,
        a.scan_message_content == b.scan_message_content,
        a.synchronous_validation == b.synchronous_validation,
        a.area_code_geomatch == b.area_code_geomatch,
        a.validity_period == b.validity_period,
        (a.inbound_request_url is Some) == (b.inbound_request_url is Some),
        a.inbound_method == b.inbound_method,
        (a.fallback_url is Some) == (b.fallback_url is Some),
        a.fallback_method == b.fallback_method,
        (a.status_callback is Some) == (b.status_callback is Some),
        a.usecase == b.usecase,
        a.us_app_to_person_registered == b.us_app_to_person_registered,
        a.use_inbound_webhook_on_number == b.use_inbound_webhook_on_number,
        (a.links is Some) == (b.links is Some),
        (a.url is Some) == (b.url is Some),
    ensures
        a.spec_debug_text() == b.spec_debug_text(),
{
    assert(a.spec_debug_fields() =~= b.spec_debug_fields());
}

/// Two Messages that differ only in the values of their hidden fields, not in
/// which of them are set, have the same debug text: no hidden value reaches it.
pub proof fn law_message_debug_hides_identifiers(a: TwilioMessage, b: TwilioMessage)
    requires
        (a.body is Some) == (b.body is Some),
        a.num_segments == b.num_segments,
        a.direction == b.direction,
        (a.from is Some) == (b.from is Some),
        (a.to is Some) == (b.to is Some),
        a.date_updated == b.date_updated,
        a.price == b.price,
        a.error_message == b.error_message,
        (a.uri is Some) == (b.uri is Some),
        (a.account_sid is Some) == (b.account_sid is Some),
        a.num_media == b.num_media,
        a.status == b.status,
        (a.messaging_service_sid is Some) == (b.messaging_service_sid is Some),
        (a.sid is Some) == (b.sid is Some),
        a.date_sent == b.date_sent,
        a.date_created == b.date_created,
        a.error_code == b.error_code,
        a.price_unit == b.price_unit,
        a.api_version == b.api_version,
        (a.subresource_uris is Some) == (b.subresource_uris is Some),
    ensures
        a.spec_debug_text() == b.spec_debug_text(),
{
    assert(a.spec_debug_fields() =~= b.spec_debug_fields());
}

/// Two Toll-free Verifications that differ only in the values of their hidden fields, not in
/// which of them are set, have the same debug text: no hidden value reaches it.
pub proof fn law_tollfree_debug_hides_identifiers(a: TwilioTollfreeVerification, b: TwilioTollfreeVerification)
    requires
        (a.sid is Some) == (b.sid is Some),
        (a.account_sid is Some) == (b.account_sid is Some),
        (a.customer_profile_sid is Some) == (b.customer_profile_sid is Some),
        (a.trust_product_sid is Some) == (b.trust_product_sid is Some),
        (a.regulated_item_sid is Some) == (b.regulated_item_sid is Some),
        a.date_created == b.date_created,
        a.date_updated == b.date_updated,
        (a.business_name is Some) == (b.business_name is Some),
        (a.business_street_address is Some) == (b.business_street_address is Some),
        (a.business_street_address2 is Some) == (b.business_street_address2 is Some),
        (a.business_city is Some) == (b.business_city is Some),
        (a.business_state_province_region is Some) == (b.business_state_province_region is Some),
        (a.business_postal_code is Some) == (b.business_postal_code is Some),
        (a.business_country is Some) == (b.business_country is Some),
        (a.business_website is Some) == (b.business_website is Some),
        (a.business_contact_first_name is Some) == (b.business_contact_first_name is Some),
        (a.business_contact_last_name is Some) == (b.business_contact_last_name is Some),
        (a.business_contact_email is Some) == (b.business_contact_email is Some),
        (a.business_contact_phone is Some) == (b.business_contact_phone is Some),
        (a.notification_email is Some) == (b.notification_email is Some),
        (a.use_case_categories is Some) == (b.use_case_categories is Some),
        (a.use_case_summary is Some) == (b.use_case_summary is Some),
        (a.production_message_sample is Some) == (b.production_message_sample is Some),
        (a.opt_in_image_urls is Some) == (b.opt_in_image_urls is Some),
        a.opt_in_type == b.opt_in_type,
        a.message_volume == b.message_volume,
        (a.additional_information is Some) == (b.additional_information is Some),
        (a.tollfree_phone_number_sid is Some) == (b.tollfree_phone_number_sid is Some),
        (a.tollfree_phone_number is Some) == (b.tollfree_phone_number is Some),
        a.status == b.status,
        (a.rejection_reason is Some) == (b.rejection_reason is Some),
        a.error_code == b.error_code,
        a.edit_expiration == b.edit_expiration,
        a.edit_allowed == b.edit_allowed,
        (a.rejection_reasons is Some) == (b.rejection_reasons is Some),
        (a.resource_links is Some) == (b.resource_links is Some),
        (a.url is Some) == (b.url is Some),
        (a.external_reference_id is Some) == (b.external_reference_id is Some),
        (a.business_registration_number is Some) == (b.business_registration_number is Some),
        a.business_registration_authority == b.business_registration_authority,
        (a.business_registration_country is Some) == (b.business_registration_country is Some),
        a.business_type == b.business_type,
        (a.business_registration_phone_number is Some) == (b.business_registration_phone_number is Some),
        (a.doing_business_as is Some) == (b.doing_business_as is Some),
        a.age_gated_content == b.age_gated_content,
        (a.help_message_sample is Some) == (b.help_message_sample is Some),
        (a.opt_in_confirmation_message is Some) == (b.opt_in_confirmation_message is Some),
        (a.opt_in_keywords is Some) == (b.opt_in_keywords is Some),
        (a.privacy_policy_url is Some) == (b.privacy_policy_url is Some),
        (a.terms_and_conditions_url is Some) == (b.terms_and_conditions_url is Some),
        (a.vetting_id is Some) == (b.vetting_id is Some),
        a.vetting_id_expiration == b.vetting_id_expiration,
        a.vetting_provider == b.vetting_provider,
    ensures
        a.spec_debug_text() == b.spec_debug_text(),
{
    assert(a.debug_fields_part_0() == b.debug_fields_part_0()) by {
        assert(a.debug_fields_part_0() =~= b.debug_fields_part_0());
    }
    assert(a.debug_fields_part_1() == b.debug_fields_part_1()) by {
        assert(a.debug_fields_part_1() =~= b.debug_fields_part_1());
    }
    assert(a.debug_fields_part_2() == b.debug_fields_part_2()) by {
        assert(a.debug_fields_part_2() =~= b.debug_fields_part_2());
    }
    assert(a.debug_fields_part_3() == b.debug_fields_part_3()) by {
        assert(a.debug_fields_part_3() =~= b.debug_fields_part_3());
    }
    assert(a.debug_fields_part_4() == b.debug_fields_part_4()) by {
        assert(a.debug_fields_part_4() =~= b.debug_fields_part_4());
    }
    assert(a.debug_fields_part_5() == b.debug_fields_part_5()) by {
        assert(a.debug_fields_part_5() =~= b.debug_fields_part_5());
    }
    assert(a.spec_debug_fields() == b.spec_debug_fields());
}


/// A set of Content payloads holding one payload breaks exactly the rule
/// that payload breaks.
pub proof fn lemma_single_payload_violation(k: Seq<char>, p: ContentPayload)
    ensures
        types_violation(Map::<Seq<char>, ContentPayload>::empty().insert(k, p)) == p.violation(),
{
    let m = Map::<Seq<char>, ContentPayload>::empty().insert(k, p);
    assert(m.contains_key(k));
    assert(!(m =~= Map::empty()));
    if p.violation() is Some {
        lemma_lex_lt_properties();
        assert(is_first_violating_key(m, k));
        assert(has_violating_key(m));
        let c = choose|c: Seq<char>| is_first_violating_key(m, c);
        assert(m.contains_key(c));
        assert(c == k);
    } else {
        if has_violating_key(m) {
            let c = choose|c: Seq<char>| m.contains_key(c) && (#[trigger] m[c]).violation() is Some;
            assert(c == k);
        }
    }
}

/// A `twilio/quick-reply` payload passes validation exactly when it has 1 to
/// 10 actions, on its own and as the only payload of a template; otherwise
/// it is refused with "quick reply must contain 1 to 10 actions".
pub proof fn law_quick_reply_holds_one_to_ten_actions(q: ContentQuickReply)
    ensures
        q.violation() is None <==> 1 <= q.actions@.len() <= 10,
        !(1 <= q.actions@.len() <= 10) ==> q.violation() == Some("quick reply must contain 1 to 10 actions"@),
        types_violation(
            Map::<Seq<char>, ContentPayload>::empty().insert("twilio/quick-reply"@, ContentPayload::QuickReply(q)),
        ) is None <==> 1 <= q.actions@.len() <= 10,
{
    lemma_single_payload_violation("twilio/quick-reply"@, ContentPayload::QuickReply(q));
}

/// A new Toll-free Verification is refused when its ProductionMessageSample
/// is absent or blank, with that field's error when every required field
/// checked before it is given; it passes only when the sample has text.
pub proof fn law_tollfree_create_requires_message_sample(r: CreateTollfreeVerificationRequest)
    ensures
        r.violation() is None ==> has_text(
            match r.fields.production_message_sample {
                Some(s) => Some(s@),
                None => None,
            },
        ),
        (r.fields.business_name matches Some(s) && !is_blank(s@)) && (r.fields.business_website matches Some(
            s,
        ) && !is_blank(s@)) && (r.fields.notification_email matches Some(s) && !is_blank(s@))
            && r.fields.use_case_categories@.len() > 0 && (r.fields.use_case_summary matches Some(s)
            && !is_blank(s@)) && (r.fields.production_message_sample matches Some(s) ==> is_blank(s@))
            ==> r.violation() == Some("ProductionMessageSample must not be empty"@),
{
    reveal_strlit("ProductionMessageSample");
    reveal_strlit(" must not be empty");
    reveal_strlit("ProductionMessageSample must not be empty");
    assert("ProductionMessageSample"@ + " must not be empty"@ =~= "ProductionMessageSample must not be empty"@);
}

/// A message to a non-blank To from a non-blank sender, whose only content
/// is a non-blank ContentSid (no Body, no MediaUrl) and that sets no limit
/// option, passes validation; and no message passes without some content.
pub proof fn law_message_content_sid_is_enough(r: CreateMessageRequest)
    ensures
        !is_blank(r.to@) && (r.from matches Some(f) && !is_blank(f@)) && r.body is None
            && r.media_urls@.len() == 0 && (r.content_sid matches Some(c) && !is_blank(c@))
            && r.validity_period is None && r.shorten_urls is None && r.content_variables_json is None
            ==> r.violation() is None,
        r.violation() is None ==> ((r.body matches Some(b) && !is_blank(b@)) || r.media_urls@.len() > 0
            || (r.content_sid matches Some(c) && !is_blank(c@))),
{
}

/// A Message read from a response keeps the response's texts unchanged in
/// the same fields: its `from` is the response's `from`, its `to` the
/// response's `to`, and so on.
pub proof fn law_message_keeps_response_texts(w: WireMessage, t: TwilioMessage)
    requires
        message_from(w, t),
    ensures
        t.from == w.from,
        t.to == w.to,
        t.body == w.body,
        t.sid == w.sid,
        t.account_sid == w.account_sid,
        t.messaging_service_sid == w.messaging_service_sid,
        t.status == w.status,
        t.direction == w.direction,
        t.error_code == w.error_code,
{
}

/// The consent statuses are sent as `opt-in`, `opt-out`, and a custom
/// status as its own text; opting in and opting out are sent differently.
pub proof fn law_consent_status_texts(v: &str)
    ensures
        ConsentStatus::OptIn.spec_form_value() == "opt-in"@,
        ConsentStatus::OptOut.spec_form_value() == "opt-out"@,
        ConsentStatus::Custom(v).spec_form_value() == v@,
        ConsentStatus::OptIn.spec_form_value() != ConsentStatus::OptOut.spec_form_value(),
{
    reveal_strlit("opt-in");
    reveal_strlit("opt-out");
    assert(ConsentStatus::OptIn.spec_form_value()[4] != ConsentStatus::OptOut.spec_form_value()[4]);
}


/// The simple Content payloads pass exactly on their documented counts: a
/// text needs a non-blank body, media 1 to 10 URLs, a list picker 1 to 10
/// items, a call to action 1 to 10 actions.
pub proof fn law_content_payload_counts(
    t: ContentText,
    m: ContentMedia,
    l: ContentListPicker,
    c: ContentCallToAction,
)
    ensures
        t.violation() is None <==> !is_blank(t.body@),
        m.violation() is None <==> 1 <= m.media@.len() <= 10,
        l.violation() is None <==> 1 <= l.items@.len() <= 10,
        c.violation() is None <==> 1 <= c.actions@.len() <= 10,
{
}

/// A new Toll-free Verification passes only with every required field:
/// BusinessName, BusinessWebsite, NotificationEmail, UseCaseSummary,
/// ProductionMessageSample and TollfreePhoneNumberSid with text, at least
/// one use case category and opt-in image URL, and an OptInType and a
/// MessageVolume.
pub proof fn law_tollfree_create_requires_fields(r: CreateTollfreeVerificationRequest)
    ensures
        r.violation() is None ==> {
            &&& r.fields.business_name matches Some(s) && !is_blank(s@)
            &&& r.fields.business_website matches Some(s) && !is_blank(s@)
            &&& r.fields.notification_email matches Some(s) && !is_blank(s@)
            &&& r.fields.use_case_summary matches Some(s) && !is_blank(s@)
            &&& r.fields.production_message_sample matches Some(s) && !is_blank(s@)
            &&& r.fields.tollfree_phone_number_sid matches Some(s) && !is_blank(s@)
            &&& r.fields.use_case_categories@.len() > 0
            &&& r.fields.opt_in_image_urls@.len() > 0
            &&& r.fields.opt_in_type is Some
            &&& r.fields.message_volume is Some
        },
{
}

/// A message passes only with a non-blank To, a sender (From or
/// MessagingServiceSid), at most 10 media URLs none of them blank, a Body
/// of at most 1600 characters, a ValidityPeriod in 1..=36000 seconds,
/// ShortenUrls only with a MessagingServiceSid, and ContentVariables only
/// with a ContentSid.
pub proof fn law_message_limits(r: CreateMessageRequest)
    ensures
        r.violation() is None ==> {
            &&& !is_blank(r.to@)
            &&& (r.from matches Some(f) && !is_blank(f@)) || (r.messaging_service_sid matches Some(m)
                && !is_blank(m@))
            &&& r.media_urls@.len() <= 10
            &&& forall|i: int| 0 <= i < r.media_urls@.len() ==> !is_blank((#[trigger] r.media_urls@[i])@)
            &&& (r.body matches Some(b) ==> b@.len() <= 1600)
            &&& (r.validity_period matches Some(v) ==> 1 <= v <= 36000)
            &&& (r.shorten_urls == Some(true) ==> (r.messaging_service_sid matches Some(m) && !is_blank(m@)))
            &&& (r.content_variables_json is Some ==> (r.content_sid matches Some(c) && !is_blank(c@)))
        },
{
    if r.violation() is None {
        assert forall|i: int| 0 <= i < r.media_urls@.len() implies !is_blank((#[trigger] r.media_urls@[i])@) by {
        }
    }
}

/// The consent sources are sent as their documented texts, and a custom
/// source as its own text.
pub proof fn law_consent_source_texts(v: &str)
    ensures
        ConsentSource::Website.spec_form_value() == "website"@,
        ConsentSource::Offline.spec_form_value() == "offline"@,
        ConsentSource::OptInMessage.spec_form_value() == "opt-in-message"@,
        ConsentSource::OptOutMessage.spec_form_value() == "opt-out-message"@,
        ConsentSource::Others.spec_form_value() == "others"@,
        ConsentSource::Custom(v).spec_form_value() == v@,
{
}

} // verus!
