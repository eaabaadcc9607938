use vstd::prelude::*;

use super::types::{
    ContentCallToAction, ContentCard, ContentCarousel, ContentCarouselCard, ContentFlowComponent, ContentFlowPage,
    ContentFlows, ContentListPicker, ContentMedia, ContentPay, ContentQuickReply, ContentSchedule,
    ContentText, WhatsappAuthentication, WhatsappCard, WhatsappFlows,
};
use crate::error::{
    blank_rule, check_outcome, count_rule, first_of, first_some, invalid, lemma_first_some_skip, require,
    require_count, TwilioError,
};
use crate::text::{is_blank, str_equal, str_is_blank};

verus! {

impl ContentFlowComponent {
    /// The first documented rule this component breaks, as its error text.
    pub open spec fn violation(&self) -> Option<Seq<char>> {
        match self {
            ContentFlowComponent::ShortText { label, text, .. }
            | ContentFlowComponent::LongText { label, text, .. } => first_of(
                blank_rule(label@, "flow input label must not be empty"@),
                blank_rule(text@, "flow input helper text must not be empty"@),
            ),
            ContentFlowComponent::SingleSelect { label, text, options }
            | ContentFlowComponent::MultiSelect { label, text, options } => first_of(
                blank_rule(label@, "flow select label must not be empty"@),
                first_of(
                    blank_rule(text@, "flow select helper text must not be empty"@),
                    count_rule(
                        options.0@.len(),
                        1,
                        usize::MAX as nat,
                        "flow select options must not be empty"@,
                    ),
                ),
            ),
            ContentFlowComponent::DatePicker { label, min_date, max_date, unavailable_dates, .. } =>
            first_of(
                blank_rule(label@, "flow date picker label must not be empty"@),
                first_of(
                    blank_rule(min_date@, "flow minimum date must not be empty"@),
                    first_of(
                        blank_rule(max_date@, "flow maximum date must not be empty"@),
                        blank_rule(unavailable_dates@, "flow unavailable dates must not be empty"@),
                    ),
                ),
            ),
            ContentFlowComponent::List { label, options } => first_of(
                blank_rule(label@, "flow list label must not be empty"@),
                count_rule(options.0@.len(), 1, usize::MAX as nat, "flow list options must not be empty"@),
            ),
            ContentFlowComponent::TextHeading { text }
            | ContentFlowComponent::TextSubheading { text }
            | ContentFlowComponent::TextCaption { text }
            | ContentFlowComponent::TextBody { text } => blank_rule(
                text@,
                "flow text component must not be empty"@,
            ),
            ContentFlowComponent::RichText { text_list } => count_rule(
                text_list@.len(),
                1,
                usize::MAX as nat,
                "flow rich text list must not be empty"@,
            ),
            ContentFlowComponent::Media { url } => blank_rule(url@, "flow media URL must not be empty"@),
            ContentFlowComponent::Footer { label } => blank_rule(
                label@,
                "flow footer label must not be empty"@,
            ),
        }
    }

    /// Check the documented rules on one Flow component.
    pub fn validate(&self) -> (r: Result<(), TwilioError>)
        ensures
            check_outcome(r, self.violation()),
    {
        match self {
            ContentFlowComponent::ShortText { label, text, .. }
            | ContentFlowComponent::LongText { label, text, .. } => {
                require(label.as_str(), "flow input label must not be empty")?;
                require(text.as_str(), "flow input helper text must not be empty")
            },
            ContentFlowComponent::SingleSelect { label, text, options }
            | ContentFlowComponent::MultiSelect { label, text, options } => {
                require(label.as_str(), "flow select label must not be empty")?;
                require(text.as_str(), "flow select helper text must not be empty")?;
                require_count(
                    options.options().len(),
                    1,
                    usize::MAX,
                    "flow select options must not be empty",
                )
            },
            ContentFlowComponent::DatePicker { label, min_date, max_date, unavailable_dates, .. } => {
                require(label.as_str(), "flow date picker label must not be empty")?;
                require(min_date.as_str(), "flow minimum date must not be empty")?;
                require(max_date.as_str(), "flow maximum date must not be empty")?;
                require(unavailable_dates.as_str(), "flow unavailable dates must not be empty")
            },
            ContentFlowComponent::List { label, options } => {
                require(label.as_str(), "flow list label must not be empty")?;
                require_count(
                    options.options().len(),
                    1,
                    usize::MAX,
                    "flow list options must not be empty",
                )
            },
            ContentFlowComponent::TextHeading { text }
            | ContentFlowComponent::TextSubheading { text }
            | ContentFlowComponent::TextCaption { text }
            | ContentFlowComponent::TextBody { text } => {
                require(text.as_str(), "flow text component must not be empty")
            },
            ContentFlowComponent::RichText { text_list } => {
                require_count(text_list.len(), 1, usize::MAX, "flow rich text list must not be empty")
            },
            ContentFlowComponent::Media { url } => {
                require(url.as_str(), "flow media URL must not be empty")
            },
            ContentFlowComponent::Footer { label } => {
                require(label.as_str(), "flow footer label must not be empty")
            },
        }
    }
}


/// The first broken rule among a list of components, in order.
pub open spec fn components_violation(cs: Seq<ContentFlowComponent>) -> Option<Seq<char>> {
    first_some(cs.map_values(|c: ContentFlowComponent| c.violation()))
}

/// Check the documented rules on each component of a list, in order.
pub fn validate_components(cs: &Vec<ContentFlowComponent>) -> (r: Result<(), TwilioError>)
    ensures
        check_outcome(r, components_violation(cs@)),
{
    let ghost m = cs@.map_values(|c: ContentFlowComponent| c.violation());
    let n = cs.len();
    let mut i: usize = 0;
    while i < n
        invariant
            n == cs@.len(),
            m == cs@.map_values(|c: ContentFlowComponent| c.violation()),
            i <= n,
            forall|j: int| 0 <= j < i ==> #[trigger] m[j] is None,
        decreases n - i,
    {
        let r = cs[i].validate();
        if r.is_err() {
            proof {
                lemma_first_some_skip(m, i as int);
            }
            return r;
        }
        i = i + 1;
    }
    proof {
        lemma_first_some_skip(m, n as int);
    }
    Ok(())
}

impl ContentFlowPage {
    /// The first documented rule this Flow page breaks, as its error text.
    pub open spec fn violation(&self) -> Option<Seq<char>> {
        first_of(
            blank_rule(self.id@, "flow page id must not be empty"@),
            first_of(
                if (vstd::utf8::encode_utf8(self.id@).len() as usize) > 20 {
                    Some("flow page id must not exceed 20 characters"@)
                } else {
                    None
                },
                first_of(
                    count_rule(
                        self.layout@.len(),
                        1,
                        usize::MAX as nat,
                        "flow page layout must not be empty"@,
                    ),
                    components_violation(self.layout@),
                ),
            ),
        )
    }

    /// Check the documented rules on one Flow page.
    pub fn validate(&self) -> (r: Result<(), TwilioError>)
        ensures
            check_outcome(r, self.violation()),
    {
        require(self.id.as_str(), "flow page id must not be empty")?;
        if self.id.as_str().len() > 20 {
            return Err(invalid("flow page id must not exceed 20 characters"));
        }
        require_count(self.layout.len(), 1, usize::MAX, "flow page layout must not be empty")?;
        validate_components(&self.layout)
    }
}

/// The first broken rule among a list of Flow pages, in order.
pub open spec fn pages_violation(ps: Seq<ContentFlowPage>) -> Option<Seq<char>> {
    first_some(ps.map_values(|p: ContentFlowPage| p.violation()))
}

/// Check the documented rules on each Flow page of a list, in order.
pub fn validate_pages(ps: &Vec<ContentFlowPage>) -> (r: Result<(), TwilioError>)
    ensures
        check_outcome(r, pages_violation(ps@)),
{
    let ghost m = ps@.map_values(|p: ContentFlowPage| p.violation());
    let n = ps.len();
    let mut i: usize = 0;
    while i < n
        invariant
            n == ps@.len(),
            m == ps@.map_values(|p: ContentFlowPage| p.violation()),
            i <= n,
            forall|j: int| 0 <= j < i ==> #[trigger] m[j] is None,
        decreases n - i,
    {
        let r = ps[i].validate();
        if r.is_err() {
            proof {
                lemma_first_some_skip(m, i as int);
            }
            return r;
        }
        i = i + 1;
    }
    proof {
        lemma_first_some_skip(m, n as int);
    }
    Ok(())
}

/// The rule on the actions of one carousel card.
pub open spec fn carousel_card_violation(card: ContentCarouselCard) -> Option<Seq<char>> {
    count_rule(card.actions@.len(), 1, 2, "carousel card must contain 1 or 2 actions"@)
}

impl ContentText {
    /// The first documented rule this payload breaks, as its error text.
    pub open spec fn violation(&self) -> Option<Seq<char>> {
        blank_rule(self.body@, "text body must not be empty"@)
    }

    /// Check the documented rules on a `twilio/text` payload.
    pub fn validate(&self) -> (r: Result<(), TwilioError>)
        ensures
            check_outcome(r, self.violation()),
    {
        require(self.body.as_str(), "text body must not be empty")
    }
}

impl ContentMedia {
    /// The first documented rule this payload breaks, as its error text.
    pub open spec fn violation(&self) -> Option<Seq<char>> {
        count_rule(self.media@.len(), 1, 10, "media must contain 1 to 10 URLs"@)
    }

    /// Check the documented rules on a `twilio/media` payload.
    pub fn validate(&self) -> (r: Result<(), TwilioError>)
        ensures
            check_outcome(r, self.violation()),
    {
        require_count(self.media.len(), 1, 10, "media must contain 1 to 10 URLs")
    }
}

impl ContentListPicker {
    /// The first documented rule this payload breaks, as its error text.
    pub open spec fn violation(&self) -> Option<Seq<char>> {
        count_rule(self.items@.len(), 1, 10, "list picker must contain 1 to 10 items"@)
    }

    /// Check the documented rules on a `twilio/list-picker` payload.
    pub fn validate(&self) -> (r: Result<(), TwilioError>)
        ensures
            check_outcome(r, self.violation()),
    {
        require_count(self.items.len(), 1, 10, "list picker must contain 1 to 10 items")
    }
}

impl ContentCallToAction {
    /// The first documented rule this payload breaks, as its error text.
    pub open spec fn violation(&self) -> Option<Seq<char>> {
        count_rule(self.actions@.len(), 1, 10, "call to action must contain at least one action"@)
    }

    /// Check the documented rules on a `twilio/call-to-action` payload.
    pub fn validate(&self) -> (r: Result<(), TwilioError>)
        ensures
            check_outcome(r, self.violation()),
    {
        require_count(self.actions.len(), 1, 10, "call to action must contain at least one action")
    }
}

impl ContentQuickReply {
    /// The first documented rule this payload breaks, as its error text.
    pub open spec fn violation(&self) -> Option<Seq<char>> {
        count_rule(self.actions@.len(), 1, 10, "quick reply must contain 1 to 10 actions"@)
    }

    /// Check the documented rules on a `twilio/quick-reply` payload.
    pub fn validate(&self) -> (r: Result<(), TwilioError>)
        ensures
            check_outcome(r, self.violation()),
    {
        require_count(self.actions.len(), 1, 10, "quick reply must contain 1 to 10 actions")
    }
}

/// An optional text that is absent or blank.
pub open spec fn absent_or_blank(v: Option<String>) -> bool {
    match v {
        Some(s) => is_blank(s@),
        None => true,
    }
}

fn opt_string_absent_or_blank(v: &Option<String>) -> (b: bool)
    ensures
        b == absent_or_blank(*v),
{
    match v {
        Some(s) => str_is_blank(s.as_str()),
        None => true,
    }
}

impl ContentCard {
    /// The first documented rule this payload breaks, as its error text.
    pub open spec fn violation(&self) -> Option<Seq<char>> {
        if absent_or_blank(self.title) && absent_or_blank(self.body) {
            Some("card must contain a title or body"@)
        } else if (self.title is None || self.body is None) && self.subtitle is None
            && self.media@.len() == 0 && self.actions@.len() == 0 {
            Some("card must contain at least one field in addition to title or body"@)
        } else {
            None
        }
    }

    /// Check the documented rules on a `twilio/card` payload.
    pub fn validate(&self) -> (r: Result<(), TwilioError>)
        ensures
            check_outcome(r, self.violation()),
    {
        if opt_string_absent_or_blank(&self.title) && opt_string_absent_or_blank(&self.body) {
            return Err(invalid("card must contain a title or body"));
        }
        if (self.title.is_none() || self.body.is_none()) && self.subtitle.is_none()
            && self.media.len() == 0 && self.actions.len() == 0 {
            return Err(invalid("card must contain at least one field in addition to title or body"));
        }
        Ok(())
    }
}

impl ContentCarousel {
    /// The first documented rule this payload breaks, as its error text.
    pub open spec fn violation(&self) -> Option<Seq<char>> {
        first_of(
            count_rule(self.cards@.len(), 2, 10, "carousel must contain 2 to 10 cards"@),
            first_some(self.cards@.map_values(|c: ContentCarouselCard| carousel_card_violation(c))),
        )
    }

    /// Check the documented rules on a `twilio/carousel` payload.
    pub fn validate(&self) -> (r: Result<(), TwilioError>)
        ensures
            check_outcome(r, self.violation()),
    {
        require_count(self.cards.len(), 2, 10, "carousel must contain 2 to 10 cards")?;
        let ghost m = self.cards@.map_values(|c: ContentCarouselCard| carousel_card_violation(c));
        let n = self.cards.len();
        let mut i: usize = 0;
        while i < n
            invariant
                n == self.cards@.len(),
                2 <= n <= 10,
                m == self.cards@.map_values(|c: ContentCarouselCard| carousel_card_violation(c)),
                i <= n,
                forall|j: int| 0 <= j < i ==> #[trigger] m[j] is None,
            decreases n - i,
        {
            let r = require_count(
                self.cards[i].actions.len(),
                1,
                2,
                "carousel card must contain 1 or 2 actions",
            );
            assert(m[i as int] == carousel_card_violation(self.cards@[i as int]));
            if r.is_err() {
                proof {
                    lemma_first_some_skip(m, i as int);
                }
                return r;
            }
            i = i + 1;
        }
        proof {
            lemma_first_some_skip(m, n as int);
        }
        Ok(())
    }
}

impl ContentPay {
    /// The first documented rule this payload breaks, as its error text.
    pub open spec fn violation(&self) -> Option<Seq<char>> {
        first_of(
            blank_rule(self.payment_id@, "payment id must not be empty"@),
            first_of(
                blank_rule(self.body@, "payment body must not be empty"@),
                first_of(
                    blank_rule(self.merchant_name@, "merchant name must not be empty"@),
                    first_of(
                        blank_rule(self.items@, "payment items must not be empty"@),
                        if self.country_code@ != "BR"@ || self.currency_code@ != "BRL"@ {
                            Some("twilio/pay requires BR and BRL"@)
                        } else {
                            None
                        },
                    ),
                ),
            ),
        )
    }

    /// Check the documented rules on a `twilio/pay` payload.
    pub fn validate(&self) -> (r: Result<(), TwilioError>)
        ensures
            check_outcome(r, self.violation()),
    {
        require(self.payment_id.as_str(), "payment id must not be empty")?;
        require(self.body.as_str(), "payment body must not be empty")?;
        require(self.merchant_name.as_str(), "merchant name must not be empty")?;
        require(self.items.as_str(), "payment items must not be empty")?;
        if !str_equal(self.country_code.as_str(), "BR") || !str_equal(
            self.currency_code.as_str(),
            "BRL",
        ) {
            return Err(invalid("twilio/pay requires BR and BRL"));
        }
        Ok(())
    }
}

impl ContentFlows {
    /// The first documented rule this payload breaks, as its error text.
    pub open spec fn violation(&self) -> Option<Seq<char>> {
        first_of(
            count_rule(self.pages@.len(), 1, 10, "flow must contain 1 to 10 pages"@),
            pages_violation(self.pages@),
        )
    }

    /// Check the documented rules on a `twilio/flows` payload.
    pub fn validate(&self) -> (r: Result<(), TwilioError>)
        ensures
            check_outcome(r, self.violation()),
    {
        require_count(self.pages.len(), 1, 10, "flow must contain 1 to 10 pages")?;
        validate_pages(&self.pages)
    }
}

impl WhatsappAuthentication {
    /// The first documented rule this payload breaks, as its error text.
    pub open spec fn violation(&self) -> Option<Seq<char>> {
        first_of(
            count_rule(self.actions@.len(), 1, 1, "authentication must contain exactly one action"@),
            if self.code_expiration_minutes matches Some(m) && !(1 <= m <= 90) {
                Some("authentication expiration must be 1 to 90 minutes"@)
            } else {
                None
            },
        )
    }

    /// Check the documented rules on a `whatsapp/authentication` payload.
    pub fn validate(&self) -> (r: Result<(), TwilioError>)
        ensures
            check_outcome(r, self.violation()),
    {
        require_count(self.actions.len(), 1, 1, "authentication must contain exactly one action")?;
        if let Some(m) = self.code_expiration_minutes {
            if !(1 <= m && m <= 90) {
                return Err(invalid("authentication expiration must be 1 to 90 minutes"));
            }
        }
        Ok(())
    }
}

impl ContentSchedule {
    /// The first documented rule this payload breaks, as its error text.
    pub open spec fn violation(&self) -> Option<Seq<char>> {
        first_of(
            blank_rule(self.id@, "schedule id must not be empty"@),
            first_of(
                blank_rule(self.title@, "schedule title must not be empty"@),
                blank_rule(self.time_slots@, "schedule time slots must not be empty"@),
            ),
        )
    }

    /// Check the documented rules on a `twilio/schedule` payload.
    pub fn validate(&self) -> (r: Result<(), TwilioError>)
        ensures
            check_outcome(r, self.violation()),
    {
        require(self.id.as_str(), "schedule id must not be empty")?;
        require(self.title.as_str(), "schedule title must not be empty")?;
        require(self.time_slots.as_str(), "schedule time slots must not be empty")
    }
}

impl WhatsappCard {
    /// The first documented rule this payload breaks, as its error text.
    pub open spec fn violation(&self) -> Option<Seq<char>> {
        first_of(
            blank_rule(self.body@, "WhatsApp card body must not be empty"@),
            first_of(
                count_rule(self.actions@.len(), 1, 10, "WhatsApp card must contain 1 to 10 actions"@),
                if self.header_text is Some && self.media@.len() != 0 {
                    Some("WhatsApp card cannot contain both header text and media"@)
                } else {
                    None
                },
            ),
        )
    }

    /// Check the documented rules on a `whatsapp/card` payload.
    pub fn validate(&self) -> (r: Result<(), TwilioError>)
        ensures
            check_outcome(r, self.violation()),
    {
        require(self.body.as_str(), "WhatsApp card body must not be empty")?;
        require_count(self.actions.len(), 1, 10, "WhatsApp card must contain 1 to 10 actions")?;
        if self.header_text.is_some() && self.media.len() != 0 {
            return Err(invalid("WhatsApp card cannot contain both header text and media"));
        }
        Ok(())
    }
}

impl WhatsappFlows {
    /// The first documented rule this payload breaks, as its error text.
    pub open spec fn violation(&self) -> Option<Seq<char>> {
        first_of(
            blank_rule(self.body@, "WhatsApp flow body must not be empty"@),
            first_of(
                blank_rule(self.button_text@, "WhatsApp flow button text must not be empty"@),
                blank_rule(self.flow_id@, "WhatsApp flow id must not be empty"@),
            ),
        )
    }

    /// Check the documented rules on a `whatsapp/flows` payload.
    pub fn validate(&self) -> (r: Result<(), TwilioError>)
        ensures
            check_outcome(r, self.violation()),
    {
        require(self.body.as_str(), "WhatsApp flow body must not be empty")?;
        require(self.button_text.as_str(), "WhatsApp flow button text must not be empty")?;
        require(self.flow_id.as_str(), "WhatsApp flow id must not be empty")
    }
}

} // verus!
