use vstd::prelude::*;

use crate::error::{check_outcome, first_some, lemma_first_some_skip, must_not_be_empty, TwilioError};
use crate::external::{json_string, json_string_literal};
use crate::form::{params_view, push_pair, push_str, str_param, FormParam, ParamSeq};
use crate::services::validate_required;
use crate::text::is_blank;

use crate::debug_text::{
    debug_opt_bool, debug_opt_i64, debug_opt_str, debug_opt_str_list, debug_opt_timestamp, debug_struct_text,
    opt_bool_debug, opt_i64_debug, opt_str_debug, opt_str_list_debug, opt_timestamp_debug, redacted, redacted_text,
    DebugStructText,
};
verus! {

/// Most items one bulk request may carry.
pub const BULK_MAX_ITEMS: usize = 25;

/// The JSON member `"name":"value"` with the value quoted as a JSON string.
pub open spec fn json_member(name: Seq<char>, value: Seq<char>) -> Seq<char> {
    json_string_literal(name) + ":"@ + json_string_literal(value)
}

/// Append the JSON member `"name":"value"` to `out`.
fn append_member(out: &mut String, name: &str, value: &str)
    ensures
        final(out)@ == old(out)@ + json_member(name@, value@),
{
    out.append(json_string(name).as_str());
    out.append(":");
    out.append(json_string(value).as_str());
}

/// The first broken rule of the required texts `(name, value)`, in order.
pub open spec fn required_rule(name: Seq<char>, value: Seq<char>) -> Option<Seq<char>> {
    if is_blank(value) {
        Some(must_not_be_empty(name))
    } else {
        None
    }
}

/// One contact of a bulk contacts upload.
#[derive(Clone, Copy)]
pub struct ContactItem<'a> {
    pub contact_id: &'a str,
    pub correlation_id: &'a str,
    pub country_iso_code: &'a str,
    pub zip_code: &'a str,
}

impl<'a> ContactItem<'a> {
    pub fn new(contact_id: &'a str, correlation_id: &'a str, country_iso_code: &'a str, zip_code: &'a str) -> (r: Self)
        ensures
            r == (ContactItem { contact_id, correlation_id, country_iso_code, zip_code }),
    {
        ContactItem { contact_id, correlation_id, country_iso_code, zip_code }
    }

    /// The first documented rule this contact breaks, as its error text.
    pub open spec fn violation(self) -> Option<Seq<char>> {
        first_some(
            seq![
                required_rule("contact_id"@, self.contact_id@),
                required_rule("correlation_id"@, self.correlation_id@),
                required_rule("country_iso_code"@, self.country_iso_code@),
                required_rule("zip_code"@, self.zip_code@),
            ],
        )
    }

    /// Check that no field of the contact is blank.
    pub fn validate(self) -> (r: Result<(), TwilioError>)
        ensures
            check_outcome(r, self.violation()),
    {
        proof {
            reveal_with_fuel(first_some, 5);
        }
        validate_required("contact_id", self.contact_id)?;
        validate_required("correlation_id", self.correlation_id)?;
        validate_required("country_iso_code", self.country_iso_code)?;
        validate_required("zip_code", self.zip_code)
    }

    /// The JSON object this contact is sent as, its fields in declaration order.
    pub open spec fn spec_json(self) -> Seq<char> {
        "{"@ + json_member("contact_id"@, self.contact_id@) + ","@ + json_member(
            "correlation_id"@,
            self.correlation_id@,
        ) + ","@ + json_member("country_iso_code"@, self.country_iso_code@) + ","@ + json_member(
            "zip_code"@,
            self.zip_code@,
        ) + "}"@
    }

    /// Serialize this contact as a JSON object.
    pub fn to_json(self) -> (s: String)
        ensures
            s@ == self.spec_json(),
    {
        let mut s = "{".to_string();
        append_member(&mut s, "contact_id", self.contact_id);
        s.append(",");
        append_member(&mut s, "correlation_id", self.correlation_id);
        s.append(",");
        append_member(&mut s, "country_iso_code", self.country_iso_code);
        s.append(",");
        append_member(&mut s, "zip_code", self.zip_code);
        s.append("}");
        s
    }
}

/// The rule on the number of items of a bulk request named `name`.
pub open spec fn bulk_count_violation(name: Seq<char>, len: nat) -> Option<Seq<char>> {
    if len == 0 {
        Some(name + " must contain at least one item"@)
    } else if len > 25 {
        Some(name + " must contain at most 25 items"@)
    } else {
        None
    }
}

/// Check that a bulk request named `name` has between 1 and 25 items.
pub fn validate_bulk_items(name: &str, len: usize) -> (r: Result<(), TwilioError>)
    ensures
        check_outcome(r, bulk_count_violation(name@, len as nat)),
{
    if len == 0 {
        let mut m = name.to_string();
        m.append(" must contain at least one item");
        return Err(TwilioError::InvalidRequest(m));
    }
    if len > BULK_MAX_ITEMS {
        let mut m = name.to_string();
        m.append(" must contain at most 25 items");
        return Err(TwilioError::InvalidRequest(m));
    }
    Ok(())
}

/// The rules of each contact, in order.
pub open spec fn contact_rules(items: Seq<ContactItem>) -> Seq<Option<Seq<char>>> {
    items.map_values(|c: ContactItem| c.violation())
}

/// The `Items` parameters of a bulk request: one JSON object per item, in order.
pub open spec fn json_items(texts: Seq<Seq<char>>) -> ParamSeq {
    texts.map_values(|t: Seq<char>| ("Items"@, t))
}

/// A bulk upload of contacts.
#[derive(Clone)]
pub struct BulkContactsRequest<'a> {
    pub items: Vec<ContactItem<'a>>,
}

impl<'a> BulkContactsRequest<'a> {
    /// A bulk upload with no contact yet.
    pub fn new() -> (r: Self)
        ensures
            r.items@.len() == 0,
    {
        BulkContactsRequest { items: Vec::new() }
    }

    /// Add one contact at the end.
    pub fn item(self, item: ContactItem<'a>) -> (r: Self)
        ensures
            r.items@ == self.items@.push(item),
    {
        let mut s = self;
        s.items.push(item);
        s
    }

    /// Add several contacts at the end, in order.
    pub fn items(self, items: Vec<ContactItem<'a>>) -> (r: Self)
        ensures
            r.items@ == self.items@ + items@,
    {
        let mut s = self;
        let mut items = items;
        s.items.append(&mut items);
        s
    }

    /// The first documented rule this request breaks, as its error text.
    pub open spec fn violation(&self) -> Option<Seq<char>> {
        if bulk_count_violation("Items"@, self.items@.len()) is Some {
            bulk_count_violation("Items"@, self.items@.len())
        } else {
            first_some(contact_rules(self.items@))
        }
    }

    /// Check the number of contacts, then each contact in order.
    pub fn validate(&self) -> (r: Result<(), TwilioError>)
        ensures
            check_outcome(r, self.violation()),
    {
        validate_bulk_items("Items", self.items.len())?;
        let ghost rules = contact_rules(self.items@);
        let n = self.items.len();
        let mut i: usize = 0;
        while i < n
            invariant
                n == self.items@.len(),
                rules == contact_rules(self.items@),
                self.violation() == first_some(rules),
                i <= n,
                forall|j: int| 0 <= j < i ==> (#[trigger] rules[j]) is None,
            decreases n - i,
        {
            let r = self.items[i].validate();
            if r.is_err() {
                proof {
                    assert(rules[i as int] == self.items@[i as int].violation());
                    lemma_first_some_skip(rules, i as int);
                }
                return r;
            }
            i = i + 1;
        }
        proof {
            lemma_first_some_skip(rules, n as int);
        }
        Ok(())
    }

    /// The form parameters of this request: each contact as JSON under `Items`.
    pub open spec fn spec_form_params(&self) -> ParamSeq {
        json_items(self.items@.map_values(|c: ContactItem| c.spec_json()))
    }

    /// Encode this request as form parameters.
    pub fn form_params(&self) -> (params: Vec<FormParam>)
        ensures
            params_view(params@) == self.spec_form_params(),
    {
        let ghost texts = self.items@.map_values(|c: ContactItem| c.spec_json());
        let mut params = Vec::new();
        let n = self.items.len();
        let mut i: usize = 0;
        while i < n
            invariant
                n == self.items@.len(),
                texts == self.items@.map_values(|c: ContactItem| c.spec_json()),
                i <= n,
                params_view(params@) == json_items(texts.take(i as int)),
            decreases n - i,
        {
            let text = self.items[i].to_json();
            push_pair(&mut params, "Items", text.as_str());
            assert(json_items(texts.take(i + 1)) =~= json_items(texts.take(i as int)).push(
                ("Items"@, texts[i as int]),
            ));
            i = i + 1;
        }
        assert(texts.take(n as int) =~= texts);
        params
    }
}

/// The consent state reported for a contact.
#[derive(Clone, Copy, Debug, PartialEq, Eq)]
pub enum ConsentStatus<'a> {
    OptIn,
    OptOut,
    Custom(&'a str),
}

impl<'a> ConsentStatus<'a> {
    /// The text this status is sent as.
    pub open spec fn spec_form_value(self) -> Seq<char> {
        match self {
            ConsentStatus::OptIn => "opt-in"@,
            ConsentStatus::OptOut => "opt-out"@,
            ConsentStatus::Custom(v) => v@,
        }
    }

    /// The text this status is sent as.
    pub fn form_value(self) -> (s: &'a str)
        ensures
            s@ == self.spec_form_value(),
    {
        match self {
            ConsentStatus::OptIn => "opt-in",
            ConsentStatus::OptOut => "opt-out",
            ConsentStatus::Custom(v) => v,
        }
    }
}

/// Where a contact's consent was collected.
#[derive(Clone, Copy, Debug, PartialEq, Eq)]
pub enum ConsentSource<'a> {
    Website,
    Offline,
    OptInMessage,
    OptOutMessage,
    Others,
    Custom(&'a str),
}

impl<'a> ConsentSource<'a> {
    /// The text this source is sent as.
    pub open spec fn spec_form_value(self) -> Seq<char> {
        match self {
            ConsentSource::Website => "website"@,
            ConsentSource::Offline => "offline"@,
            ConsentSource::OptInMessage => "opt-in-message"@,
            ConsentSource::OptOutMessage => "opt-out-message"@,
            ConsentSource::Others => "others"@,
            ConsentSource::Custom(v) => v@,
        }
    }

    /// The text this source is sent as.
    pub fn form_value(self) -> (s: &'a str)
        ensures
            s@ == self.spec_form_value(),
    {
        match self {
            ConsentSource::Website => "website",
            ConsentSource::Offline => "offline",
            ConsentSource::OptInMessage => "opt-in-message",
            ConsentSource::OptOutMessage => "opt-out-message",
            ConsentSource::Others => "others",
            ConsentSource::Custom(v) => v,
        }
    }
}

/// One consent record of a bulk consents upload.
#[derive(Clone, Copy)]
pub struct ConsentItem<'a> {
    pub contact_id: &'a str,
    pub correlation_id: &'a str,
    pub sender_id: &'a str,
    pub status: ConsentStatus<'a>,
    pub source: ConsentSource<'a>,
    pub date_of_consent: Option<&'a str>,
}

impl<'a> ConsentItem<'a> {
    pub fn new(
        contact_id: &'a str,
        correlation_id: &'a str,
        sender_id: &'a str,
        status: ConsentStatus<'a>,
        source: ConsentSource<'a>,
    ) -> (r: Self)
        ensures
            r == (ConsentItem { contact_id, correlation_id, sender_id, status, source, date_of_consent: None }),
    {
        ConsentItem { contact_id, correlation_id, sender_id, status, source, date_of_consent: None }
    }

    pub fn date_of_consent(self, value: &'a str) -> (r: Self)
        ensures
            r == (ConsentItem { date_of_consent: Some(value), ..self }),
    {
        ConsentItem { date_of_consent: Some(value), ..self }
    }

    /// The first documented rule this record breaks, as its error text.
    pub open spec fn violation(self) -> Option<Seq<char>> {
        first_some(
            seq![
                required_rule("contact_id"@, self.contact_id@),
                required_rule("correlation_id"@, self.correlation_id@),
                required_rule("sender_id"@, self.sender_id@),
                required_rule("status"@, self.status.spec_form_value()),
                required_rule("source"@, self.source.spec_form_value()),
                match self.date_of_consent {
                    Some(d) => required_rule("date_of_consent"@, d@),
                    None => None,
                },
            ],
        )
    }

    /// Check that no field of the record is blank.
    pub fn validate(self) -> (r: Result<(), TwilioError>)
        ensures
            check_outcome(r, self.violation()),
    {
        proof {
            reveal_with_fuel(first_some, 7);
        }
        validate_required("contact_id", self.contact_id)?;
        validate_required("correlation_id", self.correlation_id)?;
        validate_required("sender_id", self.sender_id)?;
        validate_required("status", self.status.form_value())?;
        validate_required("source", self.source.form_value())?;
        if let Some(d) = self.date_of_consent {
            validate_required("date_of_consent", d)?;
        }
        Ok(())
    }

    /// The JSON object this record is sent as; the date is left out when unset.
    pub open spec fn spec_json(self) -> Seq<char> {
        "{"@ + json_member("contact_id"@, self.contact_id@) + ","@ + json_member(
            "correlation_id"@,
            self.correlation_id@,
        ) + ","@ + json_member("sender_id"@, self.sender_id@) + ","@ + json_member(
            "status"@,
            self.status.spec_form_value(),
        ) + ","@ + json_member("source"@, self.source.spec_form_value()) + match self.date_of_consent {
            Some(d) => ","@ + json_member("date_of_consent"@, d@),
            None => seq![],
        } + "}"@
    }

    /// Serialize this record as a JSON object.
    pub fn to_json(self) -> (s: String)
        ensures
            s@ == self.spec_json(),
    {
        let mut s = "{".to_string();
        append_member(&mut s, "contact_id", self.contact_id);
        s.append(",");
        append_member(&mut s, "correlation_id", self.correlation_id);
        s.append(",");
        append_member(&mut s, "sender_id", self.sender_id);
        s.append(",");
        append_member(&mut s, "status", self.status.form_value());
        s.append(",");
        append_member(&mut s, "source", self.source.form_value());
        let ghost before = s@;
        if let Some(d) = self.date_of_consent {
            s.append(",");
            append_member(&mut s, "date_of_consent", d);
        }
        assert(s@ =~= before + match self.date_of_consent {
            Some(d) => ","@ + json_member("date_of_consent"@, d@),
            None => seq![],
        });
        s.append("}");
        s
    }
}

/// The rules of each consent record, in order.
pub open spec fn consent_rules(items: Seq<ConsentItem>) -> Seq<Option<Seq<char>>> {
    items.map_values(|c: ConsentItem| c.violation())
}

/// A bulk upload of consent records.
#[derive(Clone)]
pub struct BulkConsentsRequest<'a> {
    pub items: Vec<ConsentItem<'a>>,
}

impl<'a> BulkConsentsRequest<'a> {
    /// A bulk upload with no record yet.
    pub fn new() -> (r: Self)
        ensures
            r.items@.len() == 0,
    {
        BulkConsentsRequest { items: Vec::new() }
    }

    /// Add one record at the end.
    pub fn item(self, item: ConsentItem<'a>) -> (r: Self)
        ensures
            r.items@ == self.items@.push(item),
    {
        let mut s = self;
        s.items.push(item);
        s
    }

    /// Add several records at the end, in order.
    pub fn items(self, items: Vec<ConsentItem<'a>>) -> (r: Self)
        ensures
            r.items@ == self.items@ + items@,
    {
        let mut s = self;
        let mut items = items;
        s.items.append(&mut items);
        s
    }

    /// The first documented rule this request breaks, as its error text.
    pub open spec fn violation(&self) -> Option<Seq<char>> {
        if bulk_count_violation("Items"@, self.items@.len()) is Some {
            bulk_count_violation("Items"@, self.items@.len())
        } else {
            first_some(consent_rules(self.items@))
        }
    }

    /// Check the number of records, then each record in order.
    pub fn validate(&self) -> (r: Result<(), TwilioError>)
        ensures
            check_outcome(r, self.violation()),
    {
        validate_bulk_items("Items", self.items.len())?;
        let ghost rules = consent_rules(self.items@);
        let n = self.items.len();
        let mut i: usize = 0;
        while i < n
            invariant
                n == self.items@.len(),
                rules == consent_rules(self.items@),
                self.violation() == first_some(rules),
                i <= n,
                forall|j: int| 0 <= j < i ==> (#[trigger] rules[j]) is None,
            decreases n - i,
        {
            let r = self.items[i].validate();
            if r.is_err() {
                proof {
                    assert(rules[i as int] == self.items@[i as int].violation());
                    lemma_first_some_skip(rules, i as int);
                }
                return r;
            }
            i = i + 1;
        }
        proof {
            lemma_first_some_skip(rules, n as int);
        }
        Ok(())
    }

    /// The form parameters of this request: each record as JSON under `Items`.
    pub open spec fn spec_form_params(&self) -> ParamSeq {
        json_items(self.items@.map_values(|c: ConsentItem| c.spec_json()))
    }

    /// Encode this request as form parameters.
    pub fn form_params(&self) -> (params: Vec<FormParam>)
        ensures
            params_view(params@) == self.spec_form_params(),
    {
        let ghost texts = self.items@.map_values(|c: ConsentItem| c.spec_json());
        let mut params = Vec::new();
        let n = self.items.len();
        let mut i: usize = 0;
        while i < n
            invariant
                n == self.items@.len(),
                texts == self.items@.map_values(|c: ConsentItem| c.spec_json()),
                i <= n,
                params_view(params@) == json_items(texts.take(i as int)),
            decreases n - i,
        {
            let text = self.items[i].to_json();
            push_pair(&mut params, "Items", text.as_str());
            assert(json_items(texts.take(i + 1)) =~= json_items(texts.take(i as int)).push(
                ("Items"@, texts[i as int]),
            ));
            i = i + 1;
        }
        assert(texts.take(n as int) =~= texts);
        params
    }
}

/// A phone number to add to, check against, or remove from the Global Safe List.
#[derive(Clone, Copy)]
pub struct SafeListNumberRequest<'a> {
    pub phone_number: &'a str,
}

impl<'a> SafeListNumberRequest<'a> {
    pub fn new(phone_number: &'a str) -> (r: Self)
        ensures
            r.phone_number == phone_number,
    {
        SafeListNumberRequest { phone_number }
    }

    /// The first documented rule this request breaks, as its error text.
    pub open spec fn violation(&self) -> Option<Seq<char>> {
        required_rule("PhoneNumber"@, self.phone_number@)
    }

    /// Check that the phone number is not blank.
    pub fn validate(&self) -> (r: Result<(), TwilioError>)
        ensures
            check_outcome(r, self.violation()),
    {
        validate_required("PhoneNumber", self.phone_number)
    }

    /// The parameters of this request, as form body or as query.
    pub open spec fn spec_form_params(&self) -> ParamSeq {
        str_param("PhoneNumber"@, Some(self.phone_number@))
    }

    /// Encode this request as form parameters.
    pub fn form_params(&self) -> (params: Vec<FormParam>)
        ensures
            params_view(params@) == self.spec_form_params(),
    {
        let mut params = Vec::new();
        push_str(&mut params, "PhoneNumber", Some(self.phone_number));
        assert(params_view(params@) =~= self.spec_form_params());
        params
    }

    /// Encode this request as query parameters; they are its form parameters.
    pub fn query_pairs(&self) -> (params: Vec<FormParam>)
        ensures
            params_view(params@) == self.spec_form_params(),
    {
        self.form_params()
    }
}

/// The outcome of one contact of a bulk contacts upload.
#[derive(Clone)]
pub struct TwilioBulkContactResult {
    pub contact_id: Option<String>,
    pub correlation_id: Option<String>,
    pub country_iso_code: Option<String>,
    pub zip_code: Option<String>,
    pub error_code: Option<i64>,
    pub error_messages: Vec<String>,
}

/// The reply to a bulk contacts upload.
#[derive(Clone)]
pub struct TwilioBulkContactsResponse {
    pub items: Vec<TwilioBulkContactResult>,
}

/// The outcome of one record of a bulk consents upload.
#[derive(Clone)]
pub struct TwilioBulkConsentResult {
    pub contact_id: Option<String>,
    pub correlation_id: Option<String>,
    pub sender_id: Option<String>,
    pub status: Option<String>,
    pub source: Option<String>,
    pub date_of_consent: Option<String>,
    pub error_code: Option<i64>,
    pub error_messages: Vec<String>,
}

/// The reply to a bulk consents upload.
#[derive(Clone)]
pub struct TwilioBulkConsentsResponse {
    pub items: Vec<TwilioBulkConsentResult>,
}

/// A number on the Global Safe List.
#[derive(Clone)]
pub struct TwilioSafeListNumber {
    pub sid: Option<String>,
    pub phone_number: Option<String>,
}

impl TwilioSafeListNumber {
    /// The fields of this record's debug text, in order, with the fields
    /// that identify an account, a person or a business hidden.
    pub open spec fn spec_debug_fields(&self) -> Seq<(Seq<char>, Seq<char>)> {
        seq![
            ("sid"@, redacted_text(self.sid is Some)),
            ("phone_number"@, redacted_text(self.phone_number is Some)),
        ]
    }

    /// The debug text of this record, with the fields that identify an
    /// account, a person or a business hidden as `[REDACTED]`.
    pub open spec fn spec_debug_text(&self) -> Seq<char> {
        debug_struct_text("TwilioSafeListNumber"@, self.spec_debug_fields())
    }

    /// Write the debug text of this record.
    pub fn debug_text(&self) -> (s: String)
        ensures
            s@ == self.spec_debug_text(),
    {
        let mut d = DebugStructText::new("TwilioSafeListNumber");
        d.field("sid", redacted(self.sid.is_some()));
        d.field("phone_number", redacted(self.phone_number.is_some()));
        assert(d.fields@ =~= self.spec_debug_fields());
        d.finish()
    }
}

} // verus!
