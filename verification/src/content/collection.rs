use vstd::prelude::*;

use crate::error::{blank_rule, first_of, require};
use super::types::{
    ContentCallToAction, ContentCard, ContentCarousel, ContentFlows, ContentListPicker,
    ContentMedia, ContentPay, ContentQuickReply, ContentSchedule, ContentText,
    WhatsappAuthentication, WhatsappCard, WhatsappFlows,
};
use crate::error::{check_outcome, invalid, TwilioError};
use crate::text::{
    is_blank, lemma_lex_lt_properties, lex_lt, str_equal, str_is_blank, str_less,
};

verus! {

/// One typed Content payload, stored under its Content type name.
pub enum ContentPayload {
    Text(ContentText),
    Media(ContentMedia),
    /// A `twilio/location` payload: its JSON, whether that JSON reads back
    /// as a location (a non-finite coordinate is written as `null` and does
    /// not), and whether its coordinates lie in `-90..=90` and `-180..=180`.
    Location { raw: serde_json::Value, readable: bool, coordinates_in_range: bool },
    ListPicker(ContentListPicker),
    CallToAction(ContentCallToAction),
    QuickReply(ContentQuickReply),
    Card(ContentCard),
    Carousel(ContentCarousel),
    /// A `twilio/catalog` payload: its JSON, and what its rules read of it.
    Catalog { raw: serde_json::Value, body: String, item_count: usize, has_dynamic_items: bool },
    Pay(ContentPay),
    Flows(ContentFlows),
    Schedule(ContentSchedule),
    WhatsappCard(WhatsappCard),
    WhatsappAuthentication(WhatsappAuthentication),
    WhatsappFlows(WhatsappFlows),
    /// A Content type this crate does not model, kept as JSON.
    Custom(serde_json::Value),
}

impl ContentPayload {
    /// The first documented rule this payload breaks, as its error text.
    pub open spec fn violation(&self) -> Option<Seq<char>> {
        match self {
            ContentPayload::Text(v) => v.violation(),
            ContentPayload::Media(v) => v.violation(),
            ContentPayload::Location { readable, coordinates_in_range, .. } => if !*readable {
                Some("invalid twilio/location payload"@)
            } else if *coordinates_in_range {
                None
            } else {
                Some("location coordinates are out of range"@)
            },
            ContentPayload::ListPicker(v) => v.violation(),
            ContentPayload::CallToAction(v) => v.violation(),
            ContentPayload::QuickReply(v) => v.violation(),
            ContentPayload::Card(v) => v.violation(),
            ContentPayload::Carousel(v) => v.violation(),
            ContentPayload::Catalog { body, item_count, has_dynamic_items, .. } => first_of(
                blank_rule(body@, "catalog body must not be empty"@),
                if *item_count == 0 && !*has_dynamic_items {
                    Some("catalog must contain static or dynamic items"@)
                } else {
                    None
                },
            ),
            ContentPayload::Pay(v) => v.violation(),
            ContentPayload::Flows(v) => v.violation(),
            ContentPayload::Schedule(v) => v.violation(),
            ContentPayload::WhatsappCard(v) => v.violation(),
            ContentPayload::WhatsappAuthentication(v) => v.violation(),
            ContentPayload::WhatsappFlows(v) => v.violation(),
            ContentPayload::Custom(_) => None,
        }
    }

    /// Check the documented rules of this payload's Content type.
    pub fn validate(&self) -> (r: Result<(), TwilioError>)
        ensures
            check_outcome(r, self.violation()),
    {
        match self {
            ContentPayload::Text(v) => v.validate(),
            ContentPayload::Media(v) => v.validate(),
            ContentPayload::Location { readable, coordinates_in_range, .. } => {
                if !*readable {
                    Err(invalid("invalid twilio/location payload"))
                } else if *coordinates_in_range {
                    Ok(())
                } else {
                    Err(invalid("location coordinates are out of range"))
                }
            },
            ContentPayload::ListPicker(v) => v.validate(),
            ContentPayload::CallToAction(v) => v.validate(),
            ContentPayload::QuickReply(v) => v.validate(),
            ContentPayload::Card(v) => v.validate(),
            ContentPayload::Carousel(v) => v.validate(),
            ContentPayload::Catalog { body, item_count, has_dynamic_items, .. } => {
                require(body.as_str(), "catalog body must not be empty")?;
                if *item_count == 0 && !*has_dynamic_items {
                    return Err(invalid("catalog must contain static or dynamic items"));
                }
                Ok(())
            },
            ContentPayload::Pay(v) => v.validate(),
            ContentPayload::Flows(v) => v.validate(),
            ContentPayload::Schedule(v) => v.validate(),
            ContentPayload::WhatsappCard(v) => v.validate(),
            ContentPayload::WhatsappAuthentication(v) => v.validate(),
            ContentPayload::WhatsappFlows(v) => v.validate(),
            ContentPayload::Custom(_) => Ok(()),
        }
    }
}

/// A Content type name and its payload.
pub struct ContentTypeEntry {
    pub name: String,
    pub payload: ContentPayload,
}

/// The names of a list of entries strictly increase.
pub open spec fn sorted_names(es: Seq<ContentTypeEntry>) -> bool {
    forall|i: int, j: int| 0 <= i < j < es.len() ==> lex_lt(#[trigger] es[i].name@, #[trigger] es[j].name@)
}

/// The map from name to payload that a list of entries holds.
pub open spec fn entries_map(es: Seq<ContentTypeEntry>) -> Map<Seq<char>, ContentPayload>
    decreases es.len(),
{
    if es.len() == 0 {
        Map::empty()
    } else {
        entries_map(es.drop_last()).insert(es.last().name@, es.last().payload)
    }
}

/// A sorted list of entries maps each of its names, and nothing else, to
/// the payload stored beside it.
pub proof fn lemma_entries_map(es: Seq<ContentTypeEntry>)
    requires
        sorted_names(es),
    ensures
        forall|k: Seq<char>|
            entries_map(es).contains_key(k) <==> exists|i: int|
                0 <= i < es.len() && #[trigger] es[i].name@ == k,
        forall|i: int|
            0 <= i < es.len() ==> entries_map(es)[#[trigger] es[i].name@] == es[i].payload,
    decreases es.len(),
{
    lemma_lex_lt_properties();
    if es.len() > 0 {
        let init = es.drop_last();
        assert(sorted_names(init));
        lemma_entries_map(init);
        let last = es.last();
        assert forall|k: Seq<char>|
            entries_map(es).contains_key(k) <==> exists|i: int|
                0 <= i < es.len() && #[trigger] es[i].name@ == k by {
            if entries_map(es).contains_key(k) {
                if k == last.name@ {
                    assert(es[es.len() - 1].name@ == k);
                } else {
                    let i = choose|i: int| 0 <= i < init.len() && #[trigger] init[i].name@ == k;
                    assert(es[i].name@ == k);
                }
            }
            if exists|i: int| 0 <= i < es.len() && #[trigger] es[i].name@ == k {
                let i = choose|i: int| 0 <= i < es.len() && #[trigger] es[i].name@ == k;
                if i < es.len() - 1 {
                    assert(init[i].name@ == k);
                }
            }
        }
        assert forall|i: int| 0 <= i < es.len() implies entries_map(es)[#[trigger] es[i].name@]
            == es[i].payload by {
            if i < es.len() - 1 {
                assert(lex_lt(es[i].name@, es[es.len() - 1].name@));
                assert(es[i].name@ != last.name@);
                assert(init[i] == es[i]);
            }
        }
    }
}

/// Some key maps to a payload that breaks a rule.
pub open spec fn has_violating_key(m: Map<Seq<char>, ContentPayload>) -> bool {
    exists|k: Seq<char>| m.contains_key(k) && (#[trigger] m[k]).violation() is Some
}

/// `k` is the first key, in name order, whose payload breaks a rule.
pub open spec fn is_first_violating_key(m: Map<Seq<char>, ContentPayload>, k: Seq<char>) -> bool {
    &&& m.contains_key(k)
    &&& m[k].violation() is Some
    &&& forall|k2: Seq<char>|
        m.contains_key(k2) && lex_lt(k2, k) ==> (#[trigger] m[k2]).violation() is None
}

/// The first documented rule a set of Content payloads breaks: none may be
/// empty, and otherwise the rule broken by the payload of the first name,
/// in name order, whose payload breaks one.
pub open spec fn types_violation(m: Map<Seq<char>, ContentPayload>) -> Option<Seq<char>> {
    if m =~= Map::empty() {
        Some("Types must not be empty"@)
    } else if has_violating_key(m) {
        m[choose|k: Seq<char>| is_first_violating_key(m, k)].violation()
    } else {
        None
    }
}

/// The Content type names that `custom` refuses because a typed setter owns them.
pub open spec fn is_builtin_type_name(name: Seq<char>) -> bool {
    ||| name == "twilio/text"@
    ||| name == "twilio/media"@
    ||| name == "twilio/location"@
    ||| name == "twilio/list-picker"@
    ||| name == "twilio/call-to-action"@
    ||| name == "twilio/quick-reply"@
    ||| name == "twilio/card"@
    ||| name == "twilio/carousel"@
    ||| name == "twilio/catalog"@
    ||| name == "twilio/pay"@
    ||| name == "twilio/flows"@
    ||| name == "twilio/schedule"@
    ||| name == "whatsapp/card"@
    ||| name == "whatsapp/authentication"@
    ||| name == "whatsapp/flows"@
}

/// Whether a name belongs to a typed setter.
pub fn builtin_type_name(name: &str) -> (b: bool)
    ensures
        b == is_builtin_type_name(name@),
{
    str_equal(name, "twilio/text") || str_equal(name, "twilio/media") || str_equal(
        name,
        "twilio/location",
    ) || str_equal(name, "twilio/list-picker") || str_equal(name, "twilio/call-to-action")
        || str_equal(name, "twilio/quick-reply") || str_equal(name, "twilio/card") || str_equal(
        name,
        "twilio/carousel",
    ) || str_equal(name, "twilio/catalog") || str_equal(name, "twilio/pay") || str_equal(
        name,
        "twilio/flows",
    ) || str_equal(name, "twilio/schedule") || str_equal(name, "whatsapp/card") || str_equal(
        name,
        "whatsapp/authentication",
    ) || str_equal(name, "whatsapp/flows")
}

/// The first position whose name does not sort before `name`.
fn find_position(es: &Vec<ContentTypeEntry>, name: &str) -> (p: usize)
    ensures
        p <= es@.len(),
        forall|j: int| 0 <= j < p ==> lex_lt(#[trigger] es@[j].name@, name@),
        p < es@.len() ==> !lex_lt(es@[p as int].name@, name@),
{
    let n = es.len();
    let mut p: usize = 0;
    while p < n
        invariant
            n == es@.len(),
            p <= n,
            forall|j: int| 0 <= j < p ==> lex_lt(#[trigger] es@[j].name@, name@),
        decreases n - p,
    {
        if !str_less(es[p].name.as_str(), name) {
            return p;
        }
        p = p + 1;
    }
    p
}

/// Content type payloads keyed by Content type name, kept in name order.
pub struct ContentTypes {
    entries: Vec<ContentTypeEntry>,
}

impl ContentTypes {
    #[verifier::type_invariant]
    spec fn well_formed(&self) -> bool {
        sorted_names(self.entries@)
    }

    /// The payloads, by Content type name.
    pub closed spec fn view(&self) -> Map<Seq<char>, ContentPayload> {
        entries_map(self.entries@)
    }

    /// No payloads yet.
    pub fn new() -> (r: Self)
        ensures
            r.view() == Map::<Seq<char>, ContentPayload>::empty(),
    {
        ContentTypes { entries: Vec::new() }
    }

    /// Store `payload` under `name`, replacing what was stored there.
    pub fn put(self, name: String, payload: ContentPayload) -> (r: Self)
        ensures
            r.view() == self.view().insert(name@, payload),
    {
        proof {
            use_type_invariant(&self);
            lemma_lex_lt_properties();
        }
        let ghost old_es = self.entries@;
        let mut es = self.entries;
        let p = find_position(&es, name.as_str());
        let ghost key = name@;
        let entry = ContentTypeEntry { name, payload };
        proof {
            lemma_entries_map(old_es);
        }
        if p < es.len() && str_equal(es[p].name.as_str(), entry.name.as_str()) {
            es.set(p, entry);
            let ghost new_es = es@;
            assert(new_es == old_es.update(p as int, entry));
            assert(sorted_names(new_es)) by {
                assert forall|i: int, j: int| 0 <= i < j < new_es.len() implies lex_lt(
                    #[trigger] new_es[i].name@,
                    #[trigger] new_es[j].name@,
                ) by {
                    assert(new_es[i].name@ == old_es[i].name@);
                    assert(new_es[j].name@ == old_es[j].name@);
                }
            }
            proof {
                lemma_entries_map(new_es);
                assert forall|k: Seq<char>| #[trigger]
                    entries_map(new_es).contains_key(k) == entries_map(old_es).insert(
                        key,
                        payload,
                    ).contains_key(k) by {
                    if exists|i: int| 0 <= i < new_es.len() && #[trigger] new_es[i].name@ == k {
                        let i = choose|i: int| 0 <= i < new_es.len() && #[trigger] new_es[i].name@ == k;
                        assert(old_es[i].name@ == k);
                    }
                    if exists|i: int| 0 <= i < old_es.len() && #[trigger] old_es[i].name@ == k {
                        let i = choose|i: int| 0 <= i < old_es.len() && #[trigger] old_es[i].name@ == k;
                        assert(new_es[i].name@ == k);
                    }
                }
                assert forall|k: Seq<char>| #[trigger] entries_map(new_es).contains_key(k) implies
                    entries_map(new_es)[k] == entries_map(old_es).insert(key, payload)[k] by {
                    let i = choose|i: int| 0 <= i < new_es.len() && #[trigger] new_es[i].name@ == k;
                    if i != p {
                        assert(new_es[i] == old_es[i]);
                    }
                }
                assert(entries_map(new_es) =~= entries_map(old_es).insert(key, payload));
            }
            ContentTypes { entries: es }
        } else {
            proof {
                if p < old_es.len() {
                    assert(old_es[p as int].name@ != key);
                    assert(lex_lt(key, old_es[p as int].name@));
                }
            }
            es.insert(p, entry);
            let ghost new_es = es@;
            assert(new_es == old_es.insert(p as int, entry));
            assert(sorted_names(new_es)) by {
                assert forall|i: int, j: int| 0 <= i < j < new_es.len() implies lex_lt(
                    #[trigger] new_es[i].name@,
                    #[trigger] new_es[j].name@,
                ) by {
                    if j < p {
                        assert(new_es[i] == old_es[i] && new_es[j] == old_es[j]);
                    } else if j == p {
                        assert(new_es[i] == old_es[i]);
                    } else if i == p {
                        assert(new_es[j] == old_es[j - 1]);
                        assert(lex_lt(key, old_es[p as int].name@));
                        if j - 1 > p {
                            assert(lex_lt(old_es[p as int].name@, old_es[j - 1].name@));
                        }
                    } else if i < p {
                        assert(new_es[i] == old_es[i] && new_es[j] == old_es[j - 1]);
                        if i < j - 1 {
                            assert(lex_lt(old_es[i].name@, old_es[j - 1].name@));
                        }
                        assert(lex_lt(old_es[i].name@, key));
                        if i == j - 1 {
                            assert(lex_lt(key, old_es[p as int].name@));
                        }
                    } else {
                        assert(new_es[i] == old_es[i - 1] && new_es[j] == old_es[j - 1]);
                    }
                }
            }
            proof {
                lemma_entries_map(new_es);
                assert forall|k: Seq<char>| #[trigger]
                    entries_map(new_es).contains_key(k) == entries_map(old_es).insert(
                        key,
                        payload,
                    ).contains_key(k) by {
                    if exists|i: int| 0 <= i < new_es.len() && #[trigger] new_es[i].name@ == k {
                        let i = choose|i: int| 0 <= i < new_es.len() && #[trigger] new_es[i].name@ == k;
                        if i < p {
                            assert(old_es[i].name@ == k);
                        } else if i > p {
                            assert(old_es[i - 1].name@ == k);
                        }
                    }
                    if exists|i: int| 0 <= i < old_es.len() && #[trigger] old_es[i].name@ == k {
                        let i = choose|i: int| 0 <= i < old_es.len() && #[trigger] old_es[i].name@ == k;
                        if i < p {
                            assert(new_es[i].name@ == k);
                        } else {
                            assert(new_es[i + 1].name@ == k);
                        }
                    }
                    if k == key {
                        assert(new_es[p as int].name@ == k);
                    }
                }
                assert forall|k: Seq<char>| #[trigger] entries_map(new_es).contains_key(k) implies
                    entries_map(new_es)[k] == entries_map(old_es).insert(key, payload)[k] by {
                    let i = choose|i: int| 0 <= i < new_es.len() && #[trigger] new_es[i].name@ == k;
                    if i < p {
                        assert(new_es[i] == old_es[i]);
                        assert(lex_lt(k, key));
                    } else if i > p {
                        assert(new_es[i] == old_es[i - 1]);
                        assert(lex_lt(key, k));
                    }
                }
                assert(entries_map(new_es) =~= entries_map(old_es).insert(key, payload));
            }
            ContentTypes { entries: es }
        }
    }

    /// Store a `twilio/text` payload, replacing any stored before.
    pub fn text(self, value: ContentText) -> (r: Self)
        ensures
            r.view() == self.view().insert("twilio/text"@, ContentPayload::Text(value)),
    {
        self.put("twilio/text".to_string(), ContentPayload::Text(value))
    }

    /// The stored `twilio/text` payload, if any.
    pub fn get_text(&self) -> (r: Option<&ContentText>)
        ensures
            r matches Some(v) ==> self.view().get("twilio/text"@) == Some(ContentPayload::Text(*v)),
            r is None ==> !(self.view().get("twilio/text"@) matches Some(ContentPayload::Text(_))),
    {
        match self.get("twilio/text") {
            Some(ContentPayload::Text(v)) => Some(v),
            _ => None,
        }
    }

    /// Store a `twilio/media` payload, replacing any stored before.
    pub fn media(self, value: ContentMedia) -> (r: Self)
        ensures
            r.view() == self.view().insert("twilio/media"@, ContentPayload::Media(value)),
    {
        self.put("twilio/media".to_string(), ContentPayload::Media(value))
    }

    /// The stored `twilio/media` payload, if any.
    pub fn get_media(&self) -> (r: Option<&ContentMedia>)
        ensures
            r matches Some(v) ==> self.view().get("twilio/media"@) == Some(ContentPayload::Media(*v)),
            r is None ==> !(self.view().get("twilio/media"@) matches Some(ContentPayload::Media(_))),
    {
        match self.get("twilio/media") {
            Some(ContentPayload::Media(v)) => Some(v),
            _ => None,
        }
    }

    /// Store a `twilio/list-picker` payload, replacing any stored before.
    pub fn list_picker(self, value: ContentListPicker) -> (r: Self)
        ensures
            r.view() == self.view().insert("twilio/list-picker"@, ContentPayload::ListPicker(value)),
    {
        self.put("twilio/list-picker".to_string(), ContentPayload::ListPicker(value))
    }

    /// The stored `twilio/list-picker` payload, if any.
    pub fn get_list_picker(&self) -> (r: Option<&ContentListPicker>)
        ensures
            r matches Some(v) ==> self.view().get("twilio/list-picker"@) == Some(ContentPayload::ListPicker(*v)),
            r is None ==> !(self.view().get("twilio/list-picker"@) matches Some(ContentPayload::ListPicker(_))),
    {
        match self.get("twilio/list-picker") {
            Some(ContentPayload::ListPicker(v)) => Some(v),
            _ => None,
        }
    }

    /// Store a `twilio/call-to-action` payload, replacing any stored before.
    pub fn call_to_action(self, value: ContentCallToAction) -> (r: Self)
        ensures
            r.view() == self.view().insert("twilio/call-to-action"@, ContentPayload::CallToAction(value)),
    {
        self.put("twilio/call-to-action".to_string(), ContentPayload::CallToAction(value))
    }

    /// The stored `twilio/call-to-action` payload, if any.
    pub fn get_call_to_action(&self) -> (r: Option<&ContentCallToAction>)
        ensures
            r matches Some(v) ==> self.view().get("twilio/call-to-action"@) == Some(ContentPayload::CallToAction(*v)),
            r is None ==> !(self.view().get("twilio/call-to-action"@) matches Some(ContentPayload::CallToAction(_))),
    {
        match self.get("twilio/call-to-action") {
            Some(ContentPayload::CallToAction(v)) => Some(v),
            _ => None,
        }
    }

    /// Store a `twilio/quick-reply` payload, replacing any stored before.
    pub fn quick_reply(self, value: ContentQuickReply) -> (r: Self)
        ensures
            r.view() == self.view().insert("twilio/quick-reply"@, ContentPayload::QuickReply(value)),
    {
        self.put("twilio/quick-reply".to_string(), ContentPayload::QuickReply(value))
    }

    /// The stored `twilio/quick-reply` payload, if any.
    pub fn get_quick_reply(&self) -> (r: Option<&ContentQuickReply>)
        ensures
            r matches Some(v) ==> self.view().get("twilio/quick-reply"@) == Some(ContentPayload::QuickReply(*v)),
            r is None ==> !(self.view().get("twilio/quick-reply"@) matches Some(ContentPayload::QuickReply(_))),
    {
        match self.get("twilio/quick-reply") {
            Some(ContentPayload::QuickReply(v)) => Some(v),
            _ => None,
        }
    }

    /// Store a `twilio/card` payload, replacing any stored before.
    pub fn card(self, value: ContentCard) -> (r: Self)
        ensures
            r.view() == self.view().insert("twilio/card"@, ContentPayload::Card(value)),
    {
        self.put("twilio/card".to_string(), ContentPayload::Card(value))
    }

    /// The stored `twilio/card` payload, if any.
    pub fn get_card(&self) -> (r: Option<&ContentCard>)
        ensures
            r matches Some(v) ==> self.view().get("twilio/card"@) == Some(ContentPayload::Card(*v)),
            r is None ==> !(self.view().get("twilio/card"@) matches Some(ContentPayload::Card(_))),
    {
        match self.get("twilio/card") {
            Some(ContentPayload::Card(v)) => Some(v),
            _ => None,
        }
    }

    /// Store a `twilio/carousel` payload, replacing any stored before.
    pub fn carousel(self, value: ContentCarousel) -> (r: Self)
        ensures
            r.view() == self.view().insert("twilio/carousel"@, ContentPayload::Carousel(value)),
    {
        self.put("twilio/carousel".to_string(), ContentPayload::Carousel(value))
    }

    /// The stored `twilio/carousel` payload, if any.
    pub fn get_carousel(&self) -> (r: Option<&ContentCarousel>)
        ensures
            r matches Some(v) ==> self.view().get("twilio/carousel"@) == Some(ContentPayload::Carousel(*v)),
            r is None ==> !(self.view().get("twilio/carousel"@) matches Some(ContentPayload::Carousel(_))),
    {
        match self.get("twilio/carousel") {
            Some(ContentPayload::Carousel(v)) => Some(v),
            _ => None,
        }
    }

    /// Store a `twilio/pay` payload, replacing any stored before.
    pub fn pay(self, value: ContentPay) -> (r: Self)
        ensures
            r.view() == self.view().insert("twilio/pay"@, ContentPayload::Pay(value)),
    {
        self.put("twilio/pay".to_string(), ContentPayload::Pay(value))
    }

    /// The stored `twilio/pay` payload, if any.
    pub fn get_pay(&self) -> (r: Option<&ContentPay>)
        ensures
            r matches Some(v) ==> self.view().get("twilio/pay"@) == Some(ContentPayload::Pay(*v)),
            r is None ==> !(self.view().get("twilio/pay"@) matches Some(ContentPayload::Pay(_))),
    {
        match self.get("twilio/pay") {
            Some(ContentPayload::Pay(v)) => Some(v),
            _ => None,
        }
    }

    /// Store a `twilio/flows` payload, replacing any stored before.
    pub fn flows(self, value: ContentFlows) -> (r: Self)
        ensures
            r.view() == self.view().insert("twilio/flows"@, ContentPayload::Flows(value)),
    {
        self.put("twilio/flows".to_string(), ContentPayload::Flows(value))
    }

    /// The stored `twilio/flows` payload, if any.
    pub fn get_flows(&self) -> (r: Option<&ContentFlows>)
        ensures
            r matches Some(v) ==> self.view().get("twilio/flows"@) == Some(ContentPayload::Flows(*v)),
            r is None ==> !(self.view().get("twilio/flows"@) matches Some(ContentPayload::Flows(_))),
    {
        match self.get("twilio/flows") {
            Some(ContentPayload::Flows(v)) => Some(v),
            _ => None,
        }
    }

    /// Store a `twilio/schedule` payload, replacing any stored before.
    pub fn schedule(self, value: ContentSchedule) -> (r: Self)
        ensures
            r.view() == self.view().insert("twilio/schedule"@, ContentPayload::Schedule(value)),
    {
        self.put("twilio/schedule".to_string(), ContentPayload::Schedule(value))
    }

    /// The stored `twilio/schedule` payload, if any.
    pub fn get_schedule(&self) -> (r: Option<&ContentSchedule>)
        ensures
            r matches Some(v) ==> self.view().get("twilio/schedule"@) == Some(ContentPayload::Schedule(*v)),
            r is None ==> !(self.view().get("twilio/schedule"@) matches Some(ContentPayload::Schedule(_))),
    {
        match self.get("twilio/schedule") {
            Some(ContentPayload::Schedule(v)) => Some(v),
            _ => None,
        }
    }

    /// Store a `whatsapp/card` payload, replacing any stored before.
    pub fn whatsapp_card(self, value: WhatsappCard) -> (r: Self)
        ensures
            r.view() == self.view().insert("whatsapp/card"@, ContentPayload::WhatsappCard(value)),
    {
        self.put("whatsapp/card".to_string(), ContentPayload::WhatsappCard(value))
    }

    /// The stored `whatsapp/card` payload, if any.
    pub fn get_whatsapp_card(&self) -> (r: Option<&WhatsappCard>)
        ensures
            r matches Some(v) ==> self.view().get("whatsapp/card"@) == Some(ContentPayload::WhatsappCard(*v)),
            r is None ==> !(self.view().get("whatsapp/card"@) matches Some(ContentPayload::WhatsappCard(_))),
    {
        match self.get("whatsapp/card") {
            Some(ContentPayload::WhatsappCard(v)) => Some(v),
            _ => None,
        }
    }

    /// Store a `whatsapp/authentication` payload, replacing any stored before.
    pub fn whatsapp_authentication(self, value: WhatsappAuthentication) -> (r: Self)
        ensures
            r.view() == self.view().insert("whatsapp/authentication"@, ContentPayload::WhatsappAuthentication(value)),
    {
        self.put("whatsapp/authentication".to_string(), ContentPayload::WhatsappAuthentication(value))
    }

    /// The stored `whatsapp/authentication` payload, if any.
    pub fn get_whatsapp_authentication(&self) -> (r: Option<&WhatsappAuthentication>)
        ensures
            r matches Some(v) ==> self.view().get("whatsapp/authentication"@) == Some(ContentPayload::WhatsappAuthentication(*v)),
            r is None ==> !(self.view().get("whatsapp/authentication"@) matches Some(ContentPayload::WhatsappAuthentication(_))),
    {
        match self.get("whatsapp/authentication") {
            Some(ContentPayload::WhatsappAuthentication(v)) => Some(v),
            _ => None,
        }
    }

    /// Store a `whatsapp/flows` payload, replacing any stored before.
    pub fn whatsapp_flows(self, value: WhatsappFlows) -> (r: Self)
        ensures
            r.view() == self.view().insert("whatsapp/flows"@, ContentPayload::WhatsappFlows(value)),
    {
        self.put("whatsapp/flows".to_string(), ContentPayload::WhatsappFlows(value))
    }

    /// The stored `whatsapp/flows` payload, if any.
    pub fn get_whatsapp_flows(&self) -> (r: Option<&WhatsappFlows>)
        ensures
            r matches Some(v) ==> self.view().get("whatsapp/flows"@) == Some(ContentPayload::WhatsappFlows(*v)),
            r is None ==> !(self.view().get("whatsapp/flows"@) matches Some(ContentPayload::WhatsappFlows(_))),
    {
        match self.get("whatsapp/flows") {
            Some(ContentPayload::WhatsappFlows(v)) => Some(v),
            _ => None,
        }
    }

    /// Store a `twilio/location` payload given as JSON, with whether that
    /// JSON reads back as a location and whether its coordinates are within
    /// `-90..=90` and `-180..=180`.
    pub fn location(self, raw: serde_json::Value, readable: bool, coordinates_in_range: bool) -> (r: Self)
        ensures
            r.view() == self.view().insert(
                "twilio/location"@,
                ContentPayload::Location { raw, readable, coordinates_in_range },
            ),
    {
        self.put("twilio/location".to_string(), ContentPayload::Location { raw, readable, coordinates_in_range })
    }

    /// Store a `twilio/catalog` payload given as JSON, with its body, its
    /// number of static items, and whether it names dynamic items.
    pub fn catalog(
        self,
        raw: serde_json::Value,
        body: &str,
        item_count: usize,
        has_dynamic_items: bool,
    ) -> (r: Self)
        ensures
            r.view().dom() == self.view().dom().insert("twilio/catalog"@),
            r.view().remove("twilio/catalog"@) == self.view().remove("twilio/catalog"@),
            r.view()["twilio/catalog"@] matches ContentPayload::Catalog {
                raw: x,
                body: b,
                item_count: n,
                has_dynamic_items: d,
            } && x == raw && b@ == body@ && n == item_count && d == has_dynamic_items,
    {
        let payload = ContentPayload::Catalog {
            raw,
            body: body.to_string(),
            item_count,
            has_dynamic_items,
        };
        let r = self.put("twilio/catalog".to_string(), payload);
        assert(r.view().remove("twilio/catalog"@) =~= self.view().remove("twilio/catalog"@));
        r
    }

    /// Store an unmodeled Content type as JSON. Refused for a blank name, a
    /// name that a typed setter owns, and a name already stored.
    pub fn custom(self, name: &str, value: serde_json::Value) -> (r: Result<Self, TwilioError>)
        ensures
            is_blank(name@) ==> r is Err && crate::error::invalid_request_message(r->Err_0)
                == "content type name must not be empty"@,
            !is_blank(name@) && (is_builtin_type_name(name@) || self.view().contains_key(name@))
                ==> r is Err && crate::error::invalid_request_message(r->Err_0)
                == "content type name is reserved or duplicated"@,
            !is_blank(name@) && !is_builtin_type_name(name@) && !self.view().contains_key(name@)
                ==> (r matches Ok(t) && t.view() == self.view().insert(
                name@,
                ContentPayload::Custom(value),
            )),
    {
        if str_is_blank(name) {
            return Err(invalid("content type name must not be empty"));
        }
        if builtin_type_name(name) || self.get(name).is_some() {
            return Err(invalid("content type name is reserved or duplicated"));
        }
        Ok(self.put(name.to_string(), ContentPayload::Custom(value)))
    }

    /// The payload stored under `name`, if any.
    pub fn get(&self, name: &str) -> (r: Option<&ContentPayload>)
        ensures
            r matches Some(v) ==> self.view().get(name@) == Some(*v),
            r is None ==> !self.view().contains_key(name@),
    {
        proof {
            use_type_invariant(self);
            lemma_entries_map(self.entries@);
            lemma_lex_lt_properties();
        }
        let p = find_position(&self.entries, name);
        if p < self.entries.len() && str_equal(self.entries[p].name.as_str(), name) {
            Some(&self.entries[p].payload)
        } else {
            proof {
                if self.view().contains_key(name@) {
                    let i = choose|i: int| 0 <= i < self.entries@.len() && #[trigger] self.entries@[i].name@ == name@;
                    if i < p {
                        assert(lex_lt(name@, name@));
                    } else if i > p {
                        assert(lex_lt(self.entries@[p as int].name@, name@));
                    }
                }
            }
            None
        }
    }

    /// Whether no payload has been stored.
    pub fn is_empty(&self) -> (b: bool)
        ensures
            b == (self.view() =~= Map::<Seq<char>, ContentPayload>::empty()),
    {
        proof {
            use_type_invariant(self);
            lemma_entries_map(self.entries@);
        }
        if self.entries.len() == 0 {
            assert(self.view() =~= Map::<Seq<char>, ContentPayload>::empty());
            true
        } else {
            assert(self.view().contains_key(self.entries@[0].name@));
            false
        }
    }

    /// The stored entries, in name order.
    pub fn entries(&self) -> (s: &[ContentTypeEntry])
        ensures
            sorted_names(s@),
            entries_map(s@) == self.view(),
    {
        proof {
            use_type_invariant(self);
        }
        self.entries.as_slice()
    }

    /// Check the documented structure of each payload before sending.
    pub fn validate(&self) -> (r: Result<(), TwilioError>)
        ensures
            check_outcome(r, types_violation(self.view())),
    {
        proof {
            use_type_invariant(self);
            lemma_entries_map(self.entries@);
            lemma_lex_lt_properties();
        }
        let ghost es = self.entries@;
        let ghost m = self.view();
        let n = self.entries.len();
        if n == 0 {
            assert(m =~= Map::<Seq<char>, ContentPayload>::empty());
            return Err(invalid("Types must not be empty"));
        }
        assert(m.contains_key(es[0].name@));
        let mut i: usize = 0;
        while i < n
            invariant
                n == es.len(),
                es == self.entries@,
                sorted_names(es),
                m == entries_map(es),
                i <= n,
                forall|j: int| 0 <= j < i ==> (#[trigger] es[j]).payload.violation() is None,
            decreases n - i,
        {
            let r = self.entries[i].payload.validate();
            if r.is_err() {
                proof {
                    lemma_entries_map(es);
                    lemma_lex_lt_properties();
                    let k = es[i as int].name@;
                    assert(is_first_violating_key(m, k)) by {
                        assert forall|k2: Seq<char>|
                            m.contains_key(k2) && lex_lt(k2, k) implies (#[trigger] m[k2]).violation() is None by {
                            let j = choose|j: int| 0 <= j < es.len() && #[trigger] es[j].name@ == k2;
                            if j >= i {
                                if j > i {
                                    assert(lex_lt(k, k2));
                                }
                            }
                        }
                    }
                    assert(has_violating_key(m));
                    let c = choose|k: Seq<char>| is_first_violating_key(m, k);
                    assert(is_first_violating_key(m, c));
                    if c != k {
                        if lex_lt(c, k) {
                        } else {
                            assert(lex_lt(k, c));
                        }
                    }
                }
                return r;
            }
            i = i + 1;
        }
        proof {
            assert(!(m =~= Map::<Seq<char>, ContentPayload>::empty()));
            assert forall|k: Seq<char>| m.contains_key(k) implies (#[trigger] m[k]).violation() is None by {
                let j = choose|j: int| 0 <= j < es.len() && #[trigger] es[j].name@ == k;
            }
        }
        Ok(())
    }

}

} // verus!
