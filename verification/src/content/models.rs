use vstd::prelude::*;

use super::collection::{types_violation, ContentTypes};
use crate::error::{check_outcome, invalid, must_not_be_empty, require_nonempty, TwilioError};
use crate::external::{
    json_string, json_string_literal,
    iso8601_reading, parse_iso8601_text, parse_rfc2822_text, parses_as_iso8601, parses_as_rfc2822,
    rfc2822_reading,
};
use crate::form::{
    page_size_violation, params_view, push_opt_string, push_str, push_string_list, push_u32, str_param,
    string_list_params, u32_param, validate_page_size, FormParam, ParamSeq,
};
use crate::text::{count_words, is_blank, opt_string_view, str_is_blank, word_count};
use std::collections::BTreeMap;

verus! {

/// A text that `time` reads as an ISO 8601 or an RFC 2822 timestamp.
pub open spec fn is_timestamp(s: Seq<char>) -> bool {
    parses_as_iso8601(s) || parses_as_rfc2822(s)
}

/// The error text for a value of `field` that is no timestamp.
pub open spec fn bad_timestamp(field: Seq<char>) -> Seq<char> {
    field + " must be an ISO-8601 or RFC-2822 timestamp"@
}

/// Reject a value of `field` that is neither an ISO 8601 nor an RFC 2822 timestamp.
pub fn validate_date(field: &str, value: &str) -> (r: Result<(), TwilioError>)
    ensures
        check_outcome(
            r,
            if is_timestamp(value@) {
                None
            } else {
                Some(bad_timestamp(field@))
            },
        ),
{
    if parse_iso8601_text(value).is_none() && parse_rfc2822_text(value).is_none() {
        let mut m = field.to_string();
        m.append(" must be an ISO-8601 or RFC-2822 timestamp");
        return Err(TwilioError::InvalidRequest(m));
    }
    Ok(())
}

/// Common v1 Content list parameters.
#[derive(Clone)]
pub struct ListContentRequest {
    pub page_size: Option<u32>,
    pub page_token: Option<String>,
}

impl ListContentRequest {
    pub fn new() -> (r: Self)
        ensures
            r.page_size is None,
            r.page_token is None,
    {
        ListContentRequest { page_size: None, page_token: None }
    }

    pub fn page_size(self, value: u32) -> (r: Self)
        ensures
            r == (ListContentRequest { page_size: Some(value), ..self }),
    {
        ListContentRequest { page_size: Some(value), ..self }
    }

    pub fn page_token(self, value: &str) -> (r: Self)
        ensures
            r.page_token matches Some(t) && t@ == value@,
            r.page_size == self.page_size,
    {
        ListContentRequest { page_token: Some(value.to_string()), ..self }
    }

    /// The first documented rule this request breaks, as its error text.
    pub open spec fn violation(&self) -> Option<Seq<char>> {
        if page_size_violation(self.page_size) is Some {
            page_size_violation(self.page_size)
        } else if self.page_token matches Some(t) && is_blank(t@) {
            Some("PageToken must not be empty"@)
        } else {
            None
        }
    }

    /// Check the documented rules on this request.
    pub fn validate(&self) -> (r: Result<(), TwilioError>)
        ensures
            check_outcome(r, self.violation()),
    {
        validate_page_size(self.page_size)?;
        if let Some(t) = &self.page_token {
            if str_is_blank(t.as_str()) {
                return Err(invalid("PageToken must not be empty"));
            }
        }
        Ok(())
    }

    /// The query parameters of this request, in the order they are sent.
    pub open spec fn spec_pairs(&self) -> ParamSeq {
        u32_param("PageSize"@, self.page_size) + str_param(
            "PageToken"@,
            opt_string_view(self.page_token),
        )
    }

    /// Encode this request as query parameters.
    pub fn pairs(&self) -> (params: Vec<FormParam>)
        ensures
            params_view(params@) == self.spec_pairs(),
    {
        let mut params = Vec::new();
        push_u32(&mut params, "PageSize", self.page_size);
        match &self.page_token {
            Some(t) => push_str(&mut params, "PageToken", Some(t.as_str())),
            None => push_str(&mut params, "PageToken", None),
        }
        assert(params_view(params@) =~= self.spec_pairs());
        params
    }

    /// This request, with a page size of 50 when none was chosen.
    pub fn with_default_page_size(self) -> (r: Self)
        ensures
            r.page_size == (if self.page_size is None {
                Some(50u32)
            } else {
                self.page_size
            }),
            r.page_token == self.page_token,
    {
        if self.page_size.is_none() {
            ListContentRequest { page_size: Some(50), ..self }
        } else {
            self
        }
    }
}


/// Some value of a list of owned texts is blank.
pub open spec fn any_string_blank(vs: Seq<String>) -> bool {
    exists|i: int| 0 <= i < vs.len() && #[trigger] is_blank(vs[i]@)
}

/// Whether some value of a list of owned texts is blank.
pub fn strings_have_blank(values: &Vec<String>) -> (b: bool)
    ensures
        b == any_string_blank(values@),
{
    let n = values.len();
    let mut i: usize = 0;
    while i < n
        invariant
            n == values@.len(),
            i <= n,
            forall|j: int| 0 <= j < i ==> !#[trigger] is_blank(values@[j]@),
        decreases n - i,
    {
        if str_is_blank(values[i].as_str()) {
            return true;
        }
        i = i + 1;
    }
    false
}

/// A text that `split_once(':')` cuts into a non-empty channel before its
/// first colon and a non-empty status after it.
pub open spec fn is_channel_status(s: Seq<char>) -> bool {
    exists|i: int|
        0 < i < s.len() - 1 && s[i] == ':' && forall|j: int| 0 <= j < i ==> #[trigger] s[j] != ':'
}

/// Whether a text has the `channel:status` shape.
pub fn channel_status_shape(s: &str) -> (b: bool)
    ensures
        b == is_channel_status(s@),
{
    let n = s.unicode_len();
    let mut i: usize = 0;
    while i < n
        invariant
            n == s@.len(),
            i <= n,
            forall|j: int| 0 <= j < i ==> #[trigger] s@[j] != ':',
        decreases n - i,
    {
        if s.get_char(i) == ':' {
            let ok = i > 0 && i + 1 < n;
            proof {
                if !ok {
                    assert forall|k: int| !(0 < k < s@.len() - 1 && s@[k] == ':' && forall|j: int|
                        0 <= j < k ==> #[trigger] s@[j] != ':') by {
                        if 0 < k < s@.len() - 1 && s@[k] == ':' {
                            if k > i {
                                assert(s@[i as int] == ':');
                            }
                        }
                    }
                }
            }
            return ok;
        }
        i = i + 1;
    }
    false
}

/// Some value of a list lacks the `channel:status` shape.
pub open spec fn any_not_channel_status(vs: Seq<String>) -> bool {
    exists|i: int| 0 <= i < vs.len() && !#[trigger] is_channel_status(vs[i]@)
}

fn strings_have_bad_channel_status(values: &Vec<String>) -> (b: bool)
    ensures
        b == any_not_channel_status(values@),
{
    let n = values.len();
    let mut i: usize = 0;
    while i < n
        invariant
            n == values@.len(),
            i <= n,
            forall|j: int| 0 <= j < i ==> #[trigger] is_channel_status(values@[j]@),
        decreases n - i,
    {
        if !channel_status_shape(values[i].as_str()) {
            return true;
        }
        i = i + 1;
    }
    false
}

/// An optional owned text that is present and blank.
pub open spec fn some_blank(v: Option<String>) -> bool {
    v matches Some(s) && is_blank(s@)
}

fn opt_string_is_blank(v: &Option<String>) -> (b: bool)
    ensures
        b == some_blank(*v),
{
    match v {
        Some(s) => str_is_blank(s.as_str()),
        None => false,
    }
}

/// An optional text longer than `max_chars` characters or `max_words` words.
pub open spec fn too_long(v: Option<String>, max_chars: nat, max_words: nat) -> bool {
    v matches Some(s) && (s@.len() > max_chars || word_count(s@) > max_words)
}

fn opt_string_too_long(v: &Option<String>, max_chars: usize, max_words: usize) -> (b: bool)
    ensures
        b == too_long(*v, max_chars as nat, max_words as nat),
{
    match v {
        Some(s) => s.as_str().unicode_len() > max_chars || count_words(s.as_str()) > max_words,
        None => false,
    }
}

/// Filters accepted by the Content v2 search endpoints.
#[derive(Clone)]
pub struct ContentSearchRequest {
    pub languages: Vec<String>,
    pub content_types: Vec<String>,
    pub channel_eligibilities: Vec<String>,
    pub content: Option<String>,
    pub content_name: Option<String>,
    pub sort_by_date: Option<String>,
    pub sort_by_content_name: Option<String>,
    pub date_created_before: Option<String>,
    pub date_created_after: Option<String>,
    pub page_size: Option<u32>,
    pub page_token: Option<String>,
}

impl ContentSearchRequest {
    pub fn new() -> (r: Self)
        ensures
            r.languages@.len() == 0,
            r.content_types@.len() == 0,
            r.channel_eligibilities@.len() == 0,
            r.content is None,
            r.content_name is None,
            r.sort_by_date is None,
            r.sort_by_content_name is None,
            r.date_created_before is None,
            r.date_created_after is None,
            r.page_size is None,
            r.page_token is None,
    {
        ContentSearchRequest {
            languages: Vec::new(),
            content_types: Vec::new(),
            channel_eligibilities: Vec::new(),
            content: None,
            content_name: None,
            sort_by_date: None,
            sort_by_content_name: None,
            date_created_before: None,
            date_created_after: None,
            page_size: None,
            page_token: None,
        }
    }
    pub fn language(self, value: &str) -> (r: Self)
        ensures
            r.languages@.len() == self.languages@.len() + 1,
            r.languages@.drop_last() == self.languages@,
            r.languages@.last()@ == value@,
            r == (ContentSearchRequest { languages: r.languages, ..self }),
    {
        let mut s = self;
        s.languages.push(value.to_string());
        s
    }
    pub fn content_type(self, value: &str) -> (r: Self)
        ensures
            r.content_types@.len() == self.content_types@.len() + 1,
            r.content_types@.drop_last() == self.content_types@,
            r.content_types@.last()@ == value@,
            r == (ContentSearchRequest { content_types: r.content_types, ..self }),
    {
        let mut s = self;
        s.content_types.push(value.to_string());
        s
    }
    pub fn channel_eligibility(self, value: &str) -> (r: Self)
        ensures
            r.channel_eligibilities@.len() == self.channel_eligibilities@.len() + 1,
            r.channel_eligibilities@.drop_last() == self.channel_eligibilities@,
            r.channel_eligibilities@.last()@ == value@,
            r == (ContentSearchRequest { channel_eligibilities: r.channel_eligibilities, ..self }),
    {
        let mut s = self;
        s.channel_eligibilities.push(value.to_string());
        s
    }
    pub fn content(self, value: &str) -> (r: Self)
        ensures
            r.content matches Some(v) && v@ == value@,
            r == (ContentSearchRequest { content: r.content, ..self }),
    {
        ContentSearchRequest { content: Some(value.to_string()), ..self }
    }
    pub fn content_name(self, value: &str) -> (r: Self)
        ensures
            r.content_name matches Some(v) && v@ == value@,
            r == (ContentSearchRequest { content_name: r.content_name, ..self }),
    {
        ContentSearchRequest { content_name: Some(value.to_string()), ..self }
    }
    pub fn sort_by_date(self, value: &str) -> (r: Self)
        ensures
            r.sort_by_date matches Some(v) && v@ == value@,
            r == (ContentSearchRequest { sort_by_date: r.sort_by_date, ..self }),
    {
        ContentSearchRequest { sort_by_date: Some(value.to_string()), ..self }
    }
    pub fn sort_by_content_name(self, value: &str) -> (r: Self)
        ensures
            r.sort_by_content_name matches Some(v) && v@ == value@,
            r == (ContentSearchRequest { sort_by_content_name: r.sort_by_content_name, ..self }),
    {
        ContentSearchRequest { sort_by_content_name: Some(value.to_string()), ..self }
    }
    pub fn date_created_before(self, value: &str) -> (r: Self)
        ensures
            r.date_created_before matches Some(v) && v@ == value@,
            r == (ContentSearchRequest { date_created_before: r.date_created_before, ..self }),
    {
        ContentSearchRequest { date_created_before: Some(value.to_string()), ..self }
    }
    pub fn date_created_after(self, value: &str) -> (r: Self)
        ensures
            r.date_created_after matches Some(v) && v@ == value@,
            r == (ContentSearchRequest { date_created_after: r.date_created_after, ..self }),
    {
        ContentSearchRequest { date_created_after: Some(value.to_string()), ..self }
    }
    pub fn page_token(self, value: &str) -> (r: Self)
        ensures
            r.page_token matches Some(v) && v@ == value@,
            r == (ContentSearchRequest { page_token: r.page_token, ..self }),
    {
        ContentSearchRequest { page_token: Some(value.to_string()), ..self }
    }
    pub fn page_size(self, value: u32) -> (r: Self)
        ensures
            r == (ContentSearchRequest { page_size: Some(value), ..self }),
    {
        ContentSearchRequest { page_size: Some(value), ..self }
    }

    /// The first documented rule this request breaks, as its error text.
    pub open spec fn violation(&self) -> Option<Seq<char>> {
        if page_size_violation(self.page_size) is Some {
            page_size_violation(self.page_size)
        } else if any_string_blank(self.languages@) {
            Some("Language must not be empty"@)
        } else if any_string_blank(self.content_types@) {
            Some("ContentType must not be empty"@)
        } else if any_string_blank(self.channel_eligibilities@) {
            Some("ChannelEligibility must not be empty"@)
        } else if any_not_channel_status(self.channel_eligibilities@) {
            Some("ChannelEligibility must use the channel:status format"@)
        } else if some_blank(self.content) {
            Some("Content must not be empty"@)
        } else if some_blank(self.content_name) {
            Some("ContentName must not be empty"@)
        } else if some_blank(self.sort_by_date) {
            Some("SortByDate must not be empty"@)
        } else if some_blank(self.sort_by_content_name) {
            Some("SortByContentName must not be empty"@)
        } else if some_blank(self.page_token) {
            Some("PageToken must not be empty"@)
        } else if self.date_created_before matches Some(d) && !is_timestamp(d@) {
            Some(bad_timestamp("DateCreatedBefore"@))
        } else if self.date_created_after matches Some(d) && !is_timestamp(d@) {
            Some(bad_timestamp("DateCreatedAfter"@))
        } else if too_long(self.content, 1024, 30) {
            Some("Content must not exceed 1024 characters or 30 words"@)
        } else if too_long(self.content_name, 450, 30) {
            Some("ContentName must not exceed 450 characters or 30 words"@)
        } else {
            None
        }
    }

    /// Check the documented rules on a Content search.
    pub fn validate(&self) -> (r: Result<(), TwilioError>)
        ensures
            check_outcome(r, self.violation()),
    {
        validate_page_size(self.page_size)?;
        if strings_have_blank(&self.languages) {
            return Err(invalid("Language must not be empty"));
        }
        if strings_have_blank(&self.content_types) {
            return Err(invalid("ContentType must not be empty"));
        }
        if strings_have_blank(&self.channel_eligibilities) {
            return Err(invalid("ChannelEligibility must not be empty"));
        }
        if strings_have_bad_channel_status(&self.channel_eligibilities) {
            return Err(invalid("ChannelEligibility must use the channel:status format"));
        }
        if opt_string_is_blank(&self.content) {
            return Err(invalid("Content must not be empty"));
        }
        if opt_string_is_blank(&self.content_name) {
            return Err(invalid("ContentName must not be empty"));
        }
        if opt_string_is_blank(&self.sort_by_date) {
            return Err(invalid("SortByDate must not be empty"));
        }
        if opt_string_is_blank(&self.sort_by_content_name) {
            return Err(invalid("SortByContentName must not be empty"));
        }
        if opt_string_is_blank(&self.page_token) {
            return Err(invalid("PageToken must not be empty"));
        }
        if let Some(d) = &self.date_created_before {
            validate_date("DateCreatedBefore", d.as_str())?;
        }
        if let Some(d) = &self.date_created_after {
            validate_date("DateCreatedAfter", d.as_str())?;
        }
        if opt_string_too_long(&self.content, 1024, 30) {
            return Err(invalid("Content must not exceed 1024 characters or 30 words"));
        }
        if opt_string_too_long(&self.content_name, 450, 30) {
            return Err(invalid("ContentName must not exceed 450 characters or 30 words"));
        }
        Ok(())
    }

    /// The query parameters of this request, in the order they are sent.
    pub open spec fn spec_pairs(&self) -> ParamSeq {
        string_list_params("Language"@, self.languages@) + string_list_params(
            "ContentType"@,
            self.content_types@,
        ) + string_list_params("ChannelEligibility"@, self.channel_eligibilities@) + str_param(
            "Content"@,
            opt_string_view(self.content),
        ) + str_param("ContentName"@, opt_string_view(self.content_name)) + str_param(
            "SortByDate"@,
            opt_string_view(self.sort_by_date),
        ) + str_param("SortByContentName"@, opt_string_view(self.sort_by_content_name))
            + str_param("DateCreatedBefore"@, opt_string_view(self.date_created_before))
            + str_param("DateCreatedAfter"@, opt_string_view(self.date_created_after))
            + u32_param("PageSize"@, self.page_size) + str_param(
            "PageToken"@,
            opt_string_view(self.page_token),
        )
    }

    /// Encode this request as query parameters.
    pub fn pairs(&self) -> (params: Vec<FormParam>)
        ensures
            params_view(params@) == self.spec_pairs(),
    {
        let mut params = Vec::new();
        push_string_list(&mut params, "Language", &self.languages);
        push_string_list(&mut params, "ContentType", &self.content_types);
        push_string_list(&mut params, "ChannelEligibility", &self.channel_eligibilities);
        push_opt_string(&mut params, "Content", &self.content);
        push_opt_string(&mut params, "ContentName", &self.content_name);
        push_opt_string(&mut params, "SortByDate", &self.sort_by_date);
        push_opt_string(&mut params, "SortByContentName", &self.sort_by_content_name);
        push_opt_string(&mut params, "DateCreatedBefore", &self.date_created_before);
        push_opt_string(&mut params, "DateCreatedAfter", &self.date_created_after);
        push_u32(&mut params, "PageSize", self.page_size);
        push_opt_string(&mut params, "PageToken", &self.page_token);
        assert(params_view(params@) =~= self.spec_pairs());
        params
    }

    /// This request, with a page size of 50 when none was chosen.
    pub fn with_default_page_size(self) -> (r: Self)
        ensures
            r == (ContentSearchRequest {
                page_size: if self.page_size is None {
                    Some(50u32)
                } else {
                    self.page_size
                },
                ..self
            }),
    {
        if self.page_size.is_none() {
            ContentSearchRequest { page_size: Some(50), ..self }
        } else {
            self
        }
    }
}


/// `WhatsApp` template category accepted by approval submission.
#[derive(Clone, Copy, Debug, PartialEq, Eq)]
pub enum WhatsAppTemplateCategory {
    Utility,
    Marketing,
    Authentication,
}

impl WhatsAppTemplateCategory {
    /// The text this category is sent as.
    pub open spec fn spec_wire_name(self) -> Seq<char> {
        match self {
            WhatsAppTemplateCategory::Utility => "UTILITY"@,
            WhatsAppTemplateCategory::Marketing => "MARKETING"@,
            WhatsAppTemplateCategory::Authentication => "AUTHENTICATION"@,
        }
    }

    /// The text this category is sent as.
    pub fn wire_name(self) -> (s: &'static str)
        ensures
            s@ == self.spec_wire_name(),
    {
        match self {
            WhatsAppTemplateCategory::Utility => "UTILITY",
            WhatsAppTemplateCategory::Marketing => "MARKETING",
            WhatsAppTemplateCategory::Authentication => "AUTHENTICATION",
        }
    }
}

/// A character allowed in a `WhatsApp` template name.
pub open spec fn is_template_name_char(c: char) -> bool {
    ('a' <= c && c <= 'z') || ('0' <= c && c <= '9') || c == '_'
}

/// A `WhatsApp` template name: non-empty, of lower-case ASCII letters,
/// digits and underscores. A non-ASCII character is refused as its UTF-8
/// bytes are.
pub open spec fn is_template_name(s: Seq<char>) -> bool {
    s.len() > 0 && forall|i: int| 0 <= i < s.len() ==> #[trigger] is_template_name_char(s[i])
}

/// A request to submit a Content template for `WhatsApp` approval.
#[derive(Clone)]
pub struct SubmitWhatsAppApprovalRequest {
    pub name: String,
    pub category: WhatsAppTemplateCategory,
}

impl SubmitWhatsAppApprovalRequest {
    pub fn new(name: &str, category: WhatsAppTemplateCategory) -> (r: Self)
        ensures
            r.name@ == name@,
            r.category == category,
    {
        SubmitWhatsAppApprovalRequest { name: name.to_string(), category }
    }

    /// The first documented rule this request breaks, as its error text.
    pub open spec fn violation(&self) -> Option<Seq<char>> {
        if is_template_name(self.name@) {
            None
        } else {
            Some("WhatsApp approval name must contain only lowercase ASCII letters, digits, and underscores"@)
        }
    }

    /// Check the documented rules on the template name.
    pub fn validate(&self) -> (r: Result<(), TwilioError>)
        ensures
            check_outcome(r, self.violation()),
    {
        let s = self.name.as_str();
        let n = s.unicode_len();
        let mut ok = n > 0;
        let mut i: usize = 0;
        while i < n && ok
            invariant
                n == s@.len(),
                s@ == self.name@,
                i <= n,
                ok ==> n > 0,
                ok ==> forall|j: int| 0 <= j < i ==> #[trigger] is_template_name_char(s@[j]),
                !ok ==> !is_template_name(s@),
            decreases n - i,
        {
            let c = s.get_char(i);
            if !(('a' <= c && c <= 'z') || ('0' <= c && c <= '9') || c == '_') {
                assert(!is_template_name_char(s@[i as int]));
                ok = false;
            }
            i = i + 1;
        }
        if !ok {
            return Err(
                invalid(
                    "WhatsApp approval name must contain only lowercase ASCII letters, digits, and underscores",
                ),
            );
        }
        Ok(())
    }

    /// The JSON body of this request: the name, then the category.
    pub open spec fn spec_json_body(&self) -> Seq<char> {
        "{\"name\":"@ + json_string_literal(self.name@) + ",\"category\":"@ + json_string_literal(
            self.category.spec_wire_name(),
        ) + "}"@
    }

    /// Serialize this request as its JSON body.
    pub fn json_body(&self) -> (s: String)
        ensures
            s@ == self.spec_json_body(),
    {
        let mut s = "{\"name\":".to_string();
        s.append(json_string(self.name.as_str()).as_str());
        s.append(",\"category\":");
        s.append(json_string(self.category.wire_name()).as_str());
        s.append("}");
        s
    }
}

/// Options of a Content template deletion.
#[derive(Clone, Copy, Debug)]
pub struct DeleteContentRequest {
    pub delete_in_waba: Option<bool>,
}

impl DeleteContentRequest {
    pub fn new() -> (r: Self)
        ensures
            r.delete_in_waba is None,
    {
        DeleteContentRequest { delete_in_waba: None }
    }

    pub fn delete_in_waba(self, value: bool) -> (r: Self)
        ensures
            r.delete_in_waba == Some(value),
    {
        DeleteContentRequest { delete_in_waba: Some(value) }
    }
}

/// The map a list of variable pairs defines; a later pair overrides an earlier one.
pub open spec fn variables_map(vs: Seq<(String, String)>) -> Map<Seq<char>, Seq<char>>
    decreases vs.len(),
{
    if vs.len() == 0 {
        Map::empty()
    } else {
        variables_map(vs.drop_last()).insert(vs.last().0@, vs.last().1@)
    }
}

/// Some variable name is blank.
pub open spec fn any_blank_variable(vs: Seq<(String, String)>) -> bool {
    exists|k: Seq<char>| variables_map(vs).contains_key(k) && #[trigger] is_blank(k)
}

/// The variable names of a list of pairs are those of its map.
pub proof fn lemma_variables_map_keys(vs: Seq<(String, String)>)
    ensures
        forall|k: Seq<char>|
            variables_map(vs).contains_key(k) <==> exists|i: int|
                0 <= i < vs.len() && #[trigger] vs[i].0@ == k,
    decreases vs.len(),
{
    if vs.len() > 0 {
        let rest = vs.drop_last();
        let last = vs.len() - 1;
        lemma_variables_map_keys(rest);
        assert forall|k: Seq<char>|
            variables_map(vs).contains_key(k) <==> exists|i: int|
                0 <= i < vs.len() && #[trigger] vs[i].0@ == k by {
            if exists|i: int| 0 <= i < vs.len() && #[trigger] vs[i].0@ == k {
                let i = choose|i: int| 0 <= i < vs.len() && #[trigger] vs[i].0@ == k;
                if i < last {
                    assert(rest[i] == vs[i]);
                    assert(rest[i].0@ == k);
                    assert(variables_map(rest).contains_key(k));
                }
            }
            if variables_map(vs).contains_key(k) {
                if k == vs[last].0@ {
                    assert(vs[last].0@ == k);
                } else {
                    assert(variables_map(rest).contains_key(k));
                    let i = choose|i: int| 0 <= i < rest.len() && #[trigger] rest[i].0@ == k;
                    assert(rest[i] == vs[i]);
                    assert(vs[i].0@ == k);
                }
            }
        }
    }
}

/// Whether some variable name is blank.
pub fn has_blank_variable(vs: &Vec<(String, String)>) -> (b: bool)
    ensures
        b == any_blank_variable(vs@),
{
    let n = vs.len();
    let mut i: usize = 0;
    while i < n
        invariant
            n == vs@.len(),
            i <= n,
            forall|j: int| 0 <= j < i ==> !#[trigger] is_blank(vs@[j].0@),
        decreases n - i,
    {
        if str_is_blank(vs[i].0.as_str()) {
            proof {
                lemma_variables_map_keys(vs@);
                assert(vs@[i as int].0@ == vs@[i as int].0@);
            }
            assert(variables_map(vs@).contains_key(vs@[i as int].0@));
            return true;
        }
        i = i + 1;
    }
    proof {
        lemma_variables_map_keys(vs@);
        assert forall|k: Seq<char>| variables_map(vs@).contains_key(k) implies !#[trigger] is_blank(k) by {
            let j = choose|j: int| 0 <= j < vs@.len() && #[trigger] vs@[j].0@ == k;
        }
    }
    false
}

/// An optional owned text that is present and blank.
fn friendly_name_blank(v: &Option<String>) -> (b: bool)
    ensures
        b == some_blank(*v),
{
    opt_string_is_blank(v)
}

/// A request to create a Content template.
pub struct CreateContentRequest {
    pub language: String,
    pub types: ContentTypes,
    pub friendly_name: Option<String>,
    pub variables: Vec<(String, String)>,
}

impl CreateContentRequest {
    pub fn new(language: &str, types: ContentTypes) -> (r: Self)
        ensures
            r.language@ == language@,
            r.types == types,
            r.friendly_name is None,
            r.variables@.len() == 0,
    {
        CreateContentRequest { language: language.to_string(), types, friendly_name: None, variables: Vec::new() }
    }

    pub fn friendly_name(self, value: &str) -> (r: Self)
        ensures
            r.friendly_name matches Some(f) && f@ == value@,
            r == (CreateContentRequest { friendly_name: r.friendly_name, ..self }),
    {
        CreateContentRequest { friendly_name: Some(value.to_string()), ..self }
    }

    /// Set one template variable, overriding an earlier value of the same name.
    pub fn variable(self, key: &str, value: &str) -> (r: Self)
        ensures
            variables_map(r.variables@) == variables_map(self.variables@).insert(key@, value@),
            r == (CreateContentRequest { variables: r.variables, ..self }),
    {
        let mut s = self;
        s.variables.push((key.to_string(), value.to_string()));
        assert(s.variables@.drop_last() =~= self.variables@);
        s
    }

    /// Set several template variables, in order.
    pub fn variables(self, values: Vec<(String, String)>) -> (r: Self)
        ensures
            r.variables@ == self.variables@ + values@,
            r == (CreateContentRequest { variables: r.variables, ..self }),
    {
        let mut s = self;
        let mut values = values;
        s.variables.append(&mut values);
        s
    }

    /// The first documented rule this request breaks, as its error text.
    pub open spec fn violation(&self) -> Option<Seq<char>> {
        if is_blank(self.language@) {
            Some(must_not_be_empty("Language"@))
        } else if some_blank(self.friendly_name) {
            Some("FriendlyName must not be empty"@)
        } else if self.types.view() =~= Map::empty() {
            Some("Types must not be empty"@)
        } else if any_blank_variable(self.variables@) {
            Some("variable names must not be empty"@)
        } else {
            types_violation(self.types.view())
        }
    }

    /// Check the documented rules on a new Content template.
    pub fn validate(&self) -> (r: Result<(), TwilioError>)
        ensures
            check_outcome(r, self.violation()),
    {
        require_nonempty("Language", self.language.as_str())?;
        if friendly_name_blank(&self.friendly_name) {
            return Err(invalid("FriendlyName must not be empty"));
        }
        if self.types.is_empty() {
            return Err(invalid("Types must not be empty"));
        }
        if has_blank_variable(&self.variables) {
            return Err(invalid("variable names must not be empty"));
        }
        self.types.validate()
    }
}

/// A request to replace the mutable fields of a Content template. A
/// template's language cannot change after creation.
pub struct UpdateContentRequest {
    pub types: ContentTypes,
    pub friendly_name: Option<String>,
    pub variables: Option<Vec<(String, String)>>,
}

impl UpdateContentRequest {
    pub fn new(types: ContentTypes) -> (r: Self)
        ensures
            r.types == types,
            r.friendly_name is None,
            r.variables is None,
    {
        UpdateContentRequest { types, friendly_name: None, variables: None }
    }

    pub fn friendly_name(self, value: &str) -> (r: Self)
        ensures
            r.friendly_name matches Some(f) && f@ == value@,
            r == (UpdateContentRequest { friendly_name: r.friendly_name, ..self }),
    {
        UpdateContentRequest { friendly_name: Some(value.to_string()), ..self }
    }

    /// Replace the template variables.
    pub fn variables(self, values: Vec<(String, String)>) -> (r: Self)
        ensures
            r == (UpdateContentRequest { variables: Some(values), ..self }),
    {
        UpdateContentRequest { variables: Some(values), ..self }
    }

    /// The first documented rule this request breaks, as its error text.
    pub open spec fn violation(&self) -> Option<Seq<char>> {
        if self.types.view() =~= Map::empty() {
            Some("Types must not be empty"@)
        } else if some_blank(self.friendly_name) {
            Some("FriendlyName must not be empty"@)
        } else if self.variables matches Some(vs) && any_blank_variable(vs@) {
            Some("variable names must not be empty"@)
        } else {
            types_violation(self.types.view())
        }
    }

    /// Check the documented rules on a Content template update.
    pub fn validate(&self) -> (r: Result<(), TwilioError>)
        ensures
            check_outcome(r, self.violation()),
    {
        if self.types.is_empty() {
            return Err(invalid("Types must not be empty"));
        }
        if friendly_name_blank(&self.friendly_name) {
            return Err(invalid("FriendlyName must not be empty"));
        }
        if let Some(vs) = &self.variables {
            if has_blank_variable(vs) {
                return Err(invalid("variable names must not be empty"));
            }
        }
        self.types.validate()
    }
}

/// An ASCII hexadecimal digit.
pub open spec fn is_hex_digit(c: char) -> bool {
    ('0' <= c && c <= '9') || ('a' <= c && c <= 'f') || ('A' <= c && c <= 'F')
}

/// A Content SID: `HX` followed by 32 hexadecimal digits. Thirty-four
/// bytes of that shape are exactly thirty-four such characters.
pub open spec fn is_content_sid(s: Seq<char>) -> bool {
    &&& s.len() == 34
    &&& s[0] == 'H'
    &&& s[1] == 'X'
    &&& forall|i: int| 2 <= i < 34 ==> #[trigger] is_hex_digit(s[i])
}

/// Check that a text is a Content SID.
pub fn validate_content_sid(value: &str) -> (r: Result<(), TwilioError>)
    ensures
        check_outcome(
            r,
            if is_content_sid(value@) {
                None
            } else {
                Some("ContentSid must be an HX SID"@)
            },
        ),
{
    let n = value.unicode_len();
    if n != 34 || value.get_char(0) != 'H' || value.get_char(1) != 'X' {
        return Err(invalid("ContentSid must be an HX SID"));
    }
    let mut i: usize = 2;
    while i < n
        invariant
            n == value@.len(),
            n == 34,
            2 <= i <= n,
            forall|j: int| 2 <= j < i ==> #[trigger] is_hex_digit(value@[j]),
        decreases n - i,
    {
        let c = value.get_char(i);
        if !(('0' <= c && c <= '9') || ('a' <= c && c <= 'f') || ('A' <= c && c <= 'F')) {
            assert(!is_hex_digit(value@[i as int]));
            return Err(invalid("ContentSid must be an HX SID"));
        }
        i = i + 1;
    }
    Ok(())
}



/// A response timestamp of Content: what `time` reads from its text as an
/// ISO 8601 timestamp or, failing that, as an RFC 2822 timestamp; none when
/// it is absent or neither reads it.
pub open spec fn content_timestamp_value(v: Option<String>) -> Option<time::OffsetDateTime> {
    match v {
        Some(s) => match iso8601_reading(s@) {
            Some(t) => Some(t),
            None => rfc2822_reading(s@),
        },
        None => None,
    }
}

/// Read a Content response timestamp, ISO 8601 first and RFC 2822 second.
pub fn parse_timestamp(value: Option<String>) -> (r: Option<time::OffsetDateTime>)
    ensures
        r == content_timestamp_value(value),
{
    match value {
        Some(s) => match parse_iso8601_text(s.as_str()) {
            Some(t) => Some(t),
            None => parse_rfc2822_text(s.as_str()),
        },
        None => None,
    }
}

/// The Content type payloads of a response, by type name, as JSON.
#[derive(Clone)]
pub struct TwilioContentTypes(pub BTreeMap<String, serde_json::Value>);

impl TwilioContentTypes {
    /// The payloads, by type name.
    pub fn raw(&self) -> (r: &BTreeMap<String, serde_json::Value>)
        ensures
            *r == self.0,
    {
        &self.0
    }
}

/// A map that is the one given, or empty when none was given.
pub open spec fn map_or_empty<V>(m: Option<BTreeMap<String, V>>) -> Map<String, V> {
    match m {
        Some(x) => x@,
        None => Map::empty(),
    }
}

/// The map given, or an empty one.
fn unwrap_map<V>(m: Option<BTreeMap<String, V>>) -> (r: BTreeMap<String, V>)
    ensures
        r@ == map_or_empty(m),
{
    match m {
        Some(x) => x,
        None => BTreeMap::new(),
    }
}

/// The payload map given, or an empty one.
fn unwrap_types(t: Option<TwilioContentTypes>) -> (r: TwilioContentTypes)
    ensures
        r.0@ == match t {
            Some(x) => x.0@,
            None => Map::<String, serde_json::Value>::empty(),
        },
{
    match t {
        Some(x) => x,
        None => TwilioContentTypes(BTreeMap::new()),
    }
}

/// A Content template returned by Twilio.
#[derive(Clone)]
pub struct TwilioContent {
    pub sid: Option<String>,
    pub account_sid: Option<String>,
    pub friendly_name: Option<String>,
    pub language: Option<String>,
    pub variables: BTreeMap<String, String>,
    pub types: TwilioContentTypes,
    pub url: Option<String>,
    pub links: BTreeMap<String, String>,
    pub date_created: Option<time::OffsetDateTime>,
    pub date_updated: Option<time::OffsetDateTime>,
    pub extra: BTreeMap<String, serde_json::Value>,
}

/// A Content template as the response writes it: absent maps, timestamps as
/// text, and the members this crate does not name kept in `extra`.
pub struct WireContent {
    pub sid: Option<String>,
    pub account_sid: Option<String>,
    pub friendly_name: Option<String>,
    pub language: Option<String>,
    pub variables: Option<BTreeMap<String, String>>,
    pub types: Option<TwilioContentTypes>,
    pub url: Option<String>,
    pub links: Option<BTreeMap<String, String>>,
    pub date_created: Option<String>,
    pub date_updated: Option<String>,
    pub extra: BTreeMap<String, serde_json::Value>,
}

/// How `into_content` reads each field of its response.
pub open spec fn content_from(w: WireContent, t: TwilioContent) -> bool {
    &&& t.sid == w.sid
    &&& t.account_sid == w.account_sid
    &&& t.friendly_name == w.friendly_name
    &&& t.language == w.language
    &&& t.variables@ == map_or_empty(w.variables)
    &&& t.types.0@ == match w.types {
        Some(x) => x.0@,
        None => Map::<String, serde_json::Value>::empty(),
    }
    &&& t.url == w.url
    &&& t.links@ == map_or_empty(w.links)
    &&& (t.date_created == content_timestamp_value(w.date_created))
    &&& (t.date_updated == content_timestamp_value(w.date_updated))
    &&& t.extra == w.extra
}

impl WireContent {
    /// The Content template this response describes; absent maps read as empty.
    pub fn into_content(self) -> (t: TwilioContent)
        ensures
            content_from(self, t),
    {
        TwilioContent {
            sid: self.sid,
            account_sid: self.account_sid,
            friendly_name: self.friendly_name,
            language: self.language,
            variables: unwrap_map(self.variables),
            types: unwrap_types(self.types),
            url: self.url,
            links: unwrap_map(self.links),
            date_created: parse_timestamp(self.date_created),
            date_updated: parse_timestamp(self.date_updated),
            extra: self.extra,
        }
    }
}

/// `WhatsApp` approval details. String fields are deliberately forward-compatible.
#[derive(Clone)]
pub struct TwilioWhatsAppApproval {
    pub category: Option<String>,
    pub status: Option<String>,
    pub rejection_reason: Option<String>,
    pub name: Option<String>,
    pub content_type: Option<String>,
    pub extra: BTreeMap<String, serde_json::Value>,
}

/// Content template with its channel approval data.
#[derive(Clone)]
pub struct TwilioContentAndApprovals {
    pub content: TwilioContent,
    pub approval_requests: BTreeMap<String, TwilioWhatsAppApproval>,
    pub extra: BTreeMap<String, serde_json::Value>,
}

/// A Content template with its approval data as the response writes it.
pub struct WireContentAndApprovals {
    pub content: WireContent,
    pub approval_requests: BTreeMap<String, TwilioWhatsAppApproval>,
}

impl WireContentAndApprovals {
    /// The template and approvals this response describes: the members this
    /// crate does not name move from the template to the item.
    pub fn into_item(self) -> (t: TwilioContentAndApprovals)
        ensures
            content_from(self.content, TwilioContent { extra: t.extra, ..t.content }),
            t.content.extra@ == Map::<String, serde_json::Value>::empty(),
            t.approval_requests == self.approval_requests,
    {
        let mut content = self.content.into_content();
        let mut extra = BTreeMap::new();
        std::mem::swap(&mut extra, &mut content.extra);
        TwilioContentAndApprovals { content, approval_requests: self.approval_requests, extra }
    }
}

/// A mapping from a legacy `WhatsApp` template to Content.
#[derive(Clone)]
pub struct TwilioLegacyContent {
    pub sid: Option<String>,
    pub account_sid: Option<String>,
    pub friendly_name: Option<String>,
    pub language: Option<String>,
    pub variables: BTreeMap<String, String>,
    pub types: TwilioContentTypes,
    pub legacy_template_name: Option<String>,
    pub legacy_body: Option<String>,
    pub url: Option<String>,
    pub date_created: Option<time::OffsetDateTime>,
    pub date_updated: Option<time::OffsetDateTime>,
    pub extra: BTreeMap<String, serde_json::Value>,
}

/// A legacy template mapping as the response writes it.
pub struct WireLegacyContent {
    pub sid: Option<String>,
    pub account_sid: Option<String>,
    pub friendly_name: Option<String>,
    pub language: Option<String>,
    pub variables: Option<BTreeMap<String, String>>,
    pub types: Option<TwilioContentTypes>,
    pub legacy_template_name: Option<String>,
    pub legacy_body: Option<String>,
    pub url: Option<String>,
    pub date_created: Option<String>,
    pub date_updated: Option<String>,
    pub extra: BTreeMap<String, serde_json::Value>,
}

/// How `into_content` reads each field of a legacy mapping.
pub open spec fn legacy_content_from(w: WireLegacyContent, t: TwilioLegacyContent) -> bool {
    &&& t.sid == w.sid
    &&& t.account_sid == w.account_sid
    &&& t.friendly_name == w.friendly_name
    &&& t.language == w.language
    &&& t.variables@ == map_or_empty(w.variables)
    &&& t.types.0@ == match w.types {
        Some(x) => x.0@,
        None => Map::<String, serde_json::Value>::empty(),
    }
    &&& t.legacy_template_name == w.legacy_template_name
    &&& t.legacy_body == w.legacy_body
    &&& t.url == w.url
    &&& (t.date_created == content_timestamp_value(w.date_created))
    &&& (t.date_updated == content_timestamp_value(w.date_updated))
    &&& t.extra == w.extra
}

impl WireLegacyContent {
    /// The legacy mapping this response describes; absent maps read as empty.
    pub fn into_content(self) -> (t: TwilioLegacyContent)
        ensures
            legacy_content_from(self, t),
    {
        TwilioLegacyContent {
            sid: self.sid,
            account_sid: self.account_sid,
            friendly_name: self.friendly_name,
            language: self.language,
            variables: unwrap_map(self.variables),
            types: unwrap_types(self.types),
            legacy_template_name: self.legacy_template_name,
            legacy_body: self.legacy_body,
            url: self.url,
            date_created: parse_timestamp(self.date_created),
            date_updated: parse_timestamp(self.date_updated),
            extra: self.extra,
        }
    }
}

/// The approval state of a Content template.
#[derive(Clone)]
pub struct TwilioContentApprovalStatus {
    pub sid: Option<String>,
    pub account_sid: Option<String>,
    pub whatsapp: Option<TwilioWhatsAppApproval>,
    pub url: Option<String>,
    pub extra: BTreeMap<String, serde_json::Value>,
}

} // verus!
