use vstd::prelude::*;

verus! {

/// A `twilio/text` payload.
#[derive(Clone)]
pub struct ContentText {
    pub body: String,
}

impl ContentText {
    pub fn new(body: &str) -> (r: Self)
        ensures
            r.body@ == body@,
    {
        ContentText { body: body.to_string() }
    }
}

/// A `twilio/media` payload.
#[derive(Clone)]
pub struct ContentMedia {
    pub body: Option<String>,
    pub media: Vec<String>,
}

impl ContentMedia {
    pub fn new(media: Vec<String>) -> (r: Self)
        ensures
            r.body is None,
            r.media == media,
    {
        ContentMedia { body: None, media }
    }

    pub fn body(self, value: &str) -> (r: Self)
        ensures
            r.body matches Some(v) && v@ == value@,
            r == (ContentMedia { body: r.body, ..self }),
    {
        ContentMedia { body: Some(value.to_string()), ..self }
    }

}

/// One row in a `twilio/list-picker` payload.
#[derive(Clone)]
pub struct ContentListItem {
    pub id: String,
    pub item: String,
    pub description: String,
}

impl ContentListItem {
    pub fn new(id: &str, item: &str, description: &str) -> (r: Self)
        ensures
            r.id@ == id@,
            r.item@ == item@,
            r.description@ == description@,
    {
        ContentListItem { id: id.to_string(), item: item.to_string(), description: description.to_string() }
    }
}

/// A `twilio/list-picker` payload.
#[derive(Clone)]
pub struct ContentListPicker {
    pub body: String,
    pub button: String,
    pub items: Vec<ContentListItem>,
}

impl ContentListPicker {
    pub fn new(body: &str, button: &str) -> (r: Self)
        ensures
            r.body@ == body@,
            r.button@ == button@,
            r.items@.len() == 0,
    {
        ContentListPicker { body: body.to_string(), button: button.to_string(), items: Vec::new() }
    }

    pub fn item(self, value: ContentListItem) -> (r: Self)
        ensures
            r.items@ == self.items@.push(value),
            r == (ContentListPicker { items: r.items, ..self }),
    {
        let mut s = self;
        s.items.push(value);
        s
    }

}

/// A call-to-action button; each variant carries only the fields its kind allows.
#[derive(Clone)]
pub enum ContentCallToActionAction {
    Url { title: String, url: String },
    Phone { title: String, phone: String },
    CopyCode { title: String, code: String },
    VoiceCall { title: String, phone: String },
    VoiceCallRequest { title: String, id: String },
}

impl ContentCallToActionAction {
    pub fn url(title: &str, url: &str) -> (r: Self)
        ensures
            r matches ContentCallToActionAction::Url { title: t, url: u } && t@ == title@ && u@ == url@,
    {
        ContentCallToActionAction::Url { title: title.to_string(), url: url.to_string() }
    }

    pub fn phone(title: &str, phone: &str) -> (r: Self)
        ensures
            r matches ContentCallToActionAction::Phone { title: t, phone: p } && t@ == title@ && p@ == phone@,
    {
        ContentCallToActionAction::Phone { title: title.to_string(), phone: phone.to_string() }
    }

    pub fn copy_code(title: &str, code: &str) -> (r: Self)
        ensures
            r matches ContentCallToActionAction::CopyCode { title: t, code: c } && t@ == title@ && c@ == code@,
    {
        ContentCallToActionAction::CopyCode { title: title.to_string(), code: code.to_string() }
    }
}

/// A `twilio/call-to-action` payload.
#[derive(Clone)]
pub struct ContentCallToAction {
    pub body: String,
    pub actions: Vec<ContentCallToActionAction>,
}

impl ContentCallToAction {
    pub fn new(body: &str) -> (r: Self)
        ensures
            r.body@ == body@,
            r.actions@.len() == 0,
    {
        ContentCallToAction { body: body.to_string(), actions: Vec::new() }
    }

    pub fn action(self, value: ContentCallToActionAction) -> (r: Self)
        ensures
            r.actions@ == self.actions@.push(value),
            r == (ContentCallToAction { actions: r.actions, ..self }),
    {
        let mut s = self;
        s.actions.push(value);
        s
    }

}

/// A quick-reply button; its type is always `QUICK_REPLY`.
#[derive(Clone)]
pub struct ContentQuickReplyAction {
    pub action_type: String,
    pub title: String,
    pub id: Option<String>,
}

impl ContentQuickReplyAction {
    pub fn new(title: &str) -> (r: Self)
        ensures
            r.action_type@ == "QUICK_REPLY"@,
            r.title@ == title@,
            r.id is None,
    {
        ContentQuickReplyAction { action_type: "QUICK_REPLY".to_string(), title: title.to_string(), id: None }
    }

    pub fn id(self, value: &str) -> (r: Self)
        ensures
            r.id matches Some(v) && v@ == value@,
            r == (ContentQuickReplyAction { id: r.id, ..self }),
    {
        ContentQuickReplyAction { id: Some(value.to_string()), ..self }
    }

}

/// A `twilio/quick-reply` payload.
#[derive(Clone)]
pub struct ContentQuickReply {
    pub body: String,
    pub actions: Vec<ContentQuickReplyAction>,
}

impl ContentQuickReply {
    pub fn new(body: &str) -> (r: Self)
        ensures
            r.body@ == body@,
            r.actions@.len() == 0,
    {
        ContentQuickReply { body: body.to_string(), actions: Vec::new() }
    }

    pub fn action(self, value: ContentQuickReplyAction) -> (r: Self)
        ensures
            r.actions@ == self.actions@.push(value),
            r == (ContentQuickReply { actions: r.actions, ..self }),
    {
        let mut s = self;
        s.actions.push(value);
        s
    }

}

/// Size of a URL action's in-app web view.
#[derive(Clone, Copy, Debug, PartialEq, Eq)]
pub enum ContentWebviewSize {
    Tall,
    Full,
    Half,
    NoWebview,
}

/// An action valid on `twilio/card` and `whatsapp/card`.
#[derive(Clone)]
pub enum ContentCardAction {
    Url { title: String, url: String, webview_size: Option<ContentWebviewSize> },
    Phone { title: String, phone: String },
    QuickReply { title: String, id: String },
    CopyCode { title: String, code: String },
    VoiceCall { title: String, phone: String },
}

impl ContentCardAction {
    pub fn url(title: &str, url: &str) -> (r: Self)
        ensures
            r matches ContentCardAction::Url { title: t, url: u, webview_size: w } && t@ == title@ && u@
                == url@ && w is None,
    {
        ContentCardAction::Url { title: title.to_string(), url: url.to_string(), webview_size: None }
    }

    pub fn phone(title: &str, phone: &str) -> (r: Self)
        ensures
            r matches ContentCardAction::Phone { title: t, phone: p } && t@ == title@ && p@ == phone@,
    {
        ContentCardAction::Phone { title: title.to_string(), phone: phone.to_string() }
    }

    pub fn quick_reply(title: &str, id: &str) -> (r: Self)
        ensures
            r matches ContentCardAction::QuickReply { title: t, id: i } && t@ == title@ && i@ == id@,
    {
        ContentCardAction::QuickReply { title: title.to_string(), id: id.to_string() }
    }
}

/// Layout of a `twilio/card`.
#[derive(Clone, Copy, Debug, PartialEq, Eq)]
pub enum ContentCardOrientation {
    Horizontal,
    Vertical,
}

/// Alignment of a thumbnail in a horizontal RCS card.
#[derive(Clone, Copy, Debug, PartialEq, Eq)]
pub enum ContentCardThumbnailAlignment {
    Left,
    Right,
}

/// Height of an RCS card.
#[derive(Clone, Copy, Debug, PartialEq, Eq)]
pub enum ContentCardHeight {
    Short,
    Medium,
    Tall,
}

/// A `twilio/card` payload.
#[derive(Clone)]
pub struct ContentCard {
    pub title: Option<String>,
    pub body: Option<String>,
    pub subtitle: Option<String>,
    pub orientation: Option<ContentCardOrientation>,
    pub thumbnail_image_alignment: Option<ContentCardThumbnailAlignment>,
    pub height: Option<ContentCardHeight>,
    pub media: Vec<String>,
    pub actions: Vec<ContentCardAction>,
}

impl ContentCard {
    /// An empty card.
    pub fn new() -> (r: Self)
        ensures
            r.title is None,
            r.body is None,
            r.subtitle is None,
            r.orientation is None,
            r.thumbnail_image_alignment is None,
            r.height is None,
            r.media@.len() == 0,
            r.actions@.len() == 0,
    {
        ContentCard {
            title: None,
            body: None,
            subtitle: None,
            orientation: None,
            thumbnail_image_alignment: None,
            height: None,
            media: Vec::new(),
            actions: Vec::new(),
        }
    }

    /// A card using the documented body-only alternative.
    pub fn body_only(body: &str) -> (r: Self)
        ensures
            r.title is None,
            r.body matches Some(b) && b@ == body@,
            r.subtitle is None,
            r.orientation is None,
            r.thumbnail_image_alignment is None,
            r.height is None,
            r.media@.len() == 0,
            r.actions@.len() == 0,
    {
        ContentCard { body: Some(body.to_string()), ..ContentCard::new() }
    }

    pub fn title(self, value: &str) -> (r: Self)
        ensures
            r.title matches Some(v) && v@ == value@,
            r == (ContentCard { title: r.title, ..self }),
    {
        ContentCard { title: Some(value.to_string()), ..self }
    }

    pub fn body(self, value: &str) -> (r: Self)
        ensures
            r.body matches Some(v) && v@ == value@,
            r == (ContentCard { body: r.body, ..self }),
    {
        ContentCard { body: Some(value.to_string()), ..self }
    }

    pub fn subtitle(self, value: &str) -> (r: Self)
        ensures
            r.subtitle matches Some(v) && v@ == value@,
            r == (ContentCard { subtitle: r.subtitle, ..self }),
    {
        ContentCard { subtitle: Some(value.to_string()), ..self }
    }

    pub fn orientation(self, value: ContentCardOrientation) -> (r: Self)
        ensures
            r == (ContentCard { orientation: Some(value), ..self }),
    {
        ContentCard { orientation: Some(value), ..self }
    }

    pub fn thumbnail_image_alignment(self, value: ContentCardThumbnailAlignment) -> (r: Self)
        ensures
            r == (ContentCard { thumbnail_image_alignment: Some(value), ..self }),
    {
        ContentCard { thumbnail_image_alignment: Some(value), ..self }
    }

    pub fn height(self, value: ContentCardHeight) -> (r: Self)
        ensures
            r == (ContentCard { height: Some(value), ..self }),
    {
        ContentCard { height: Some(value), ..self }
    }

    pub fn media(self, value: &str) -> (r: Self)
        ensures
            r.media@.len() == self.media@.len() + 1,
            r.media@.drop_last() == self.media@,
            r.media@.last()@ == value@,
            r == (ContentCard { media: r.media, ..self }),
    {
        let mut s = self;
        s.media.push(value.to_string());
        s
    }

    pub fn action(self, value: ContentCardAction) -> (r: Self)
        ensures
            r.actions@ == self.actions@.push(value),
            r == (ContentCard { actions: r.actions, ..self }),
    {
        let mut s = self;
        s.actions.push(value);
        s
    }

}

/// A `whatsapp/card` payload.
#[derive(Clone)]
pub struct WhatsappCard {
    pub body: String,
    pub footer: Option<String>,
    pub header_text: Option<String>,
    pub media: Vec<String>,
    pub actions: Vec<ContentCardAction>,
}

impl WhatsappCard {
    pub fn new(body: &str) -> (r: Self)
        ensures
            r.body@ == body@,
            r.footer is None,
            r.header_text is None,
            r.media@.len() == 0,
            r.actions@.len() == 0,
    {
        WhatsappCard { body: body.to_string(), footer: None, header_text: None, media: Vec::new(), actions: Vec::new() }
    }

    pub fn footer(self, value: &str) -> (r: Self)
        ensures
            r.footer matches Some(v) && v@ == value@,
            r == (WhatsappCard { footer: r.footer, ..self }),
    {
        WhatsappCard { footer: Some(value.to_string()), ..self }
    }

    pub fn header_text(self, value: &str) -> (r: Self)
        ensures
            r.header_text matches Some(v) && v@ == value@,
            r == (WhatsappCard { header_text: r.header_text, ..self }),
    {
        WhatsappCard { header_text: Some(value.to_string()), ..self }
    }

    pub fn media(self, value: &str) -> (r: Self)
        ensures
            r.media@.len() == self.media@.len() + 1,
            r.media@.drop_last() == self.media@,
            r.media@.last()@ == value@,
            r == (WhatsappCard { media: r.media, ..self }),
    {
        let mut s = self;
        s.media.push(value.to_string());
        s
    }

    pub fn action(self, value: ContentCardAction) -> (r: Self)
        ensures
            r.actions@ == self.actions@.push(value),
            r == (WhatsappCard { actions: r.actions, ..self }),
    {
        let mut s = self;
        s.actions.push(value);
        s
    }

}

/// An action valid on a carousel card.
#[derive(Clone)]
pub enum ContentCarouselAction {
    Url { title: String, url: String },
    Phone { title: String, phone: String },
    QuickReply { title: String, id: String },
}

/// One card in a carousel.
#[derive(Clone)]
pub struct ContentCarouselCard {
    pub body: String,
    pub media: String,
    pub actions: Vec<ContentCarouselAction>,
    pub title: Option<String>,
}

impl ContentCarouselCard {
    pub fn new(body: &str, media: &str) -> (r: Self)
        ensures
            r.body@ == body@,
            r.media@ == media@,
            r.actions@.len() == 0,
            r.title is None,
    {
        ContentCarouselCard { body: body.to_string(), media: media.to_string(), actions: Vec::new(), title: None }
    }

    pub fn title(self, value: &str) -> (r: Self)
        ensures
            r.title matches Some(v) && v@ == value@,
            r == (ContentCarouselCard { title: r.title, ..self }),
    {
        ContentCarouselCard { title: Some(value.to_string()), ..self }
    }

    pub fn action(self, value: ContentCarouselAction) -> (r: Self)
        ensures
            r.actions@ == self.actions@.push(value),
            r == (ContentCarouselCard { actions: r.actions, ..self }),
    {
        let mut s = self;
        s.actions.push(value);
        s
    }

}

/// A `twilio/carousel` payload.
#[derive(Clone)]
pub struct ContentCarousel {
    pub body: String,
    pub cards: Vec<ContentCarouselCard>,
}

impl ContentCarousel {
    pub fn new(body: &str) -> (r: Self)
        ensures
            r.body@ == body@,
            r.cards@.len() == 0,
    {
        ContentCarousel { body: body.to_string(), cards: Vec::new() }
    }

    pub fn card(self, value: ContentCarouselCard) -> (r: Self)
        ensures
            r.cards@ == self.cards@.push(value),
            r == (ContentCarousel { cards: r.cards, ..self }),
    {
        let mut s = self;
        s.cards.push(value);
        s
    }

}

/// Pix key kind.
#[derive(Clone, Copy, Debug, PartialEq, Eq)]
pub enum ContentPixKeyType {
    Cpf,
    Cnpj,
    Email,
    Phone,
    Evp,
}

/// Pix order status.
#[derive(Clone, Copy, Debug, PartialEq, Eq)]
pub enum ContentPixStatus {
    Pending,
    Processing,
    PartiallyShipped,
    Shipped,
    Completed,
    Canceled,
}

/// Pix details for a payment message.
#[derive(Clone)]
pub enum ContentPix {
    OrderDetails { code: String, key_type: ContentPixKeyType, key: String },
    OrderStatus { status: ContentPixStatus },
}

/// A `twilio/pay` payload; Pix payments are in Brazil and in reais.
#[derive(Clone)]
pub struct ContentPay {
    pub payment_id: String,
    pub body: String,
    pub merchant_name: String,
    pub country_code: String,
    pub currency_code: String,
    pub items: String,
    pub order_expiration: String,
    pub order_expiration_description: String,
    pub subtotal_amount: String,
    pub total_amount: String,
    pub pix: ContentPix,
}

impl ContentPay {
    pub fn new(
        payment_id: &str,
        body: &str,
        merchant_name: &str,
        items: &str,
        order_expiration: &str,
        order_expiration_description: &str,
        subtotal_amount: &str,
        total_amount: &str,
        pix: ContentPix,
    ) -> (r: Self)
        ensures
            r.payment_id@ == payment_id@,
            r.body@ == body@,
            r.merchant_name@ == merchant_name@,
            r.country_code@ == "BR"@,
            r.currency_code@ == "BRL"@,
            r.items@ == items@,
            r.order_expiration@ == order_expiration@,
            r.order_expiration_description@ == order_expiration_description@,
            r.subtotal_amount@ == subtotal_amount@,
            r.total_amount@ == total_amount@,
            r.pix == pix,
    {
        ContentPay {
            payment_id: payment_id.to_string(),
            body: body.to_string(),
            merchant_name: merchant_name.to_string(),
            country_code: "BR".to_string(),
            currency_code: "BRL".to_string(),
            items: items.to_string(),
            order_expiration: order_expiration.to_string(),
            order_expiration_description: order_expiration_description.to_string(),
            subtotal_amount: subtotal_amount.to_string(),
            total_amount: total_amount.to_string(),
            pix,
        }
    }
}

/// Category of a Twilio-hosted Flow.
#[derive(Clone, Copy, Debug, PartialEq, Eq)]
pub enum ContentFlowType {
    SignUp,
    SignIn,
    AppointmentBooking,
    LeadGeneration,
    ContactUs,
    CustomerSupport,
    Survey,
    Other,
}

/// Input keyboard for a Flow text field.
#[derive(Clone, Copy, Debug, PartialEq, Eq)]
pub enum ContentFlowInputType {
    Text,
    Number,
    Email,
    Password,
    Passcode,
    Phone,
}

/// A selectable Flow option.
#[derive(Clone)]
pub struct ContentFlowOption {
    pub id: String,
    pub title: String,
    pub description: Option<String>,
}

impl ContentFlowOption {
    pub fn new(id: &str, title: &str) -> (r: Self)
        ensures
            r.id@ == id@,
            r.title@ == title@,
            r.description is None,
    {
        ContentFlowOption { id: id.to_string(), title: title.to_string(), description: None }
    }
}

/// A Flow option list; Twilio receives it as a JSON-encoded string.
#[derive(Clone)]
pub struct ContentFlowOptions(pub Vec<ContentFlowOption>);

impl ContentFlowOptions {
    pub fn new(options: Vec<ContentFlowOption>) -> (r: Self)
        ensures
            r.0 == options,
    {
        ContentFlowOptions(options)
    }

    pub fn options(&self) -> (s: &[ContentFlowOption])
        ensures
            s@ == self.0@,
    {
        self.0.as_slice()
    }
}

/// A component in a Twilio-hosted Flow page.
#[derive(Clone)]
pub enum ContentFlowComponent {
    ShortText { label: String, text: String, required: bool, input_type: Option<ContentFlowInputType> },
    LongText { label: String, text: String, required: bool },
    SingleSelect { label: String, text: String, options: ContentFlowOptions },
    MultiSelect { label: String, text: String, options: ContentFlowOptions },
    DatePicker {
        label: String,
        min_date: String,
        max_date: String,
        unavailable_dates: String,
        name: Option<String>,
    },
    List { label: String, options: ContentFlowOptions },
    TextHeading { text: String },
    TextSubheading { text: String },
    TextCaption { text: String },
    TextBody { text: String },
    RichText { text_list: Vec<String> },
    Media { url: String },
    Footer { label: String },
}

/// One page of a Twilio-hosted Flow.
#[derive(Clone)]
pub struct ContentFlowPage {
    pub id: String,
    pub layout: Vec<ContentFlowComponent>,
    pub title: Option<String>,
    pub subtitle: Option<String>,
    pub next_page_id: Option<String>,
}

impl ContentFlowPage {
    pub fn new(id: &str) -> (r: Self)
        ensures
            r.id@ == id@,
            r.layout@.len() == 0,
            r.title is None,
            r.subtitle is None,
            r.next_page_id is None,
    {
        ContentFlowPage { id: id.to_string(), layout: Vec::new(), title: None, subtitle: None, next_page_id: None }
    }

    pub fn component(self, value: ContentFlowComponent) -> (r: Self)
        ensures
            r.layout@ == self.layout@.push(value),
            r == (ContentFlowPage { layout: r.layout, ..self }),
    {
        let mut s = self;
        s.layout.push(value);
        s
    }

    pub fn title(self, value: &str) -> (r: Self)
        ensures
            r.title matches Some(v) && v@ == value@,
            r == (ContentFlowPage { title: r.title, ..self }),
    {
        ContentFlowPage { title: Some(value.to_string()), ..self }
    }

}

/// A `twilio/flows` payload.
#[derive(Clone)]
pub struct ContentFlows {
    pub body: String,
    pub button_text: String,
    pub flow_type: ContentFlowType,
    pub pages: Vec<ContentFlowPage>,
    pub subtitle: Option<String>,
    pub media_url: Option<String>,
}

impl ContentFlows {
    pub fn new(body: &str, button_text: &str, flow_type: ContentFlowType) -> (r: Self)
        ensures
            r.body@ == body@,
            r.button_text@ == button_text@,
            r.flow_type == flow_type,
            r.pages@.len() == 0,
            r.subtitle is None,
            r.media_url is None,
    {
        ContentFlows {
            body: body.to_string(),
            button_text: button_text.to_string(),
            flow_type,
            pages: Vec::new(),
            subtitle: None,
            media_url: None,
        }
    }

    pub fn page(self, value: ContentFlowPage) -> (r: Self)
        ensures
            r.pages@ == self.pages@.push(value),
            r == (ContentFlows { pages: r.pages, ..self }),
    {
        let mut s = self;
        s.pages.push(value);
        s
    }

    pub fn subtitle(self, value: &str) -> (r: Self)
        ensures
            r.subtitle matches Some(v) && v@ == value@,
            r == (ContentFlows { subtitle: r.subtitle, ..self }),
    {
        ContentFlows { subtitle: Some(value.to_string()), ..self }
    }

    pub fn media_url(self, value: &str) -> (r: Self)
        ensures
            r.media_url matches Some(v) && v@ == value@,
            r == (ContentFlows { media_url: r.media_url, ..self }),
    {
        ContentFlows { media_url: Some(value.to_string()), ..self }
    }

}

/// A `twilio/schedule` payload.
#[derive(Clone)]
pub struct ContentSchedule {
    pub id: String,
    pub title: String,
    pub time_slots: String,
}

impl ContentSchedule {
    pub fn new(id: &str, title: &str, time_slots: &str) -> (r: Self)
        ensures
            r.id@ == id@,
            r.title@ == title@,
            r.time_slots@ == time_slots@,
    {
        ContentSchedule { id: id.to_string(), title: title.to_string(), time_slots: time_slots.to_string() }
    }
}

/// The sole `WhatsApp` authentication action; its type is always `COPY_CODE`.
#[derive(Clone)]
pub struct WhatsappAuthenticationAction {
    pub action_type: String,
    pub copy_code_text: String,
}

impl WhatsappAuthenticationAction {
    pub fn new(copy_code_text: &str) -> (r: Self)
        ensures
            r.action_type@ == "COPY_CODE"@,
            r.copy_code_text@ == copy_code_text@,
    {
        WhatsappAuthenticationAction { action_type: "COPY_CODE".to_string(), copy_code_text: copy_code_text.to_string() }
    }
}

/// A `whatsapp/authentication` payload.
#[derive(Clone)]
pub struct WhatsappAuthentication {
    pub actions: Vec<WhatsappAuthenticationAction>,
    pub add_security_recommendation: Option<bool>,
    pub code_expiration_minutes: Option<u16>,
}

impl WhatsappAuthentication {
    pub fn new(action: WhatsappAuthenticationAction) -> (r: Self)
        ensures
            r.actions@ == seq![action],
            r.add_security_recommendation is None,
            r.code_expiration_minutes is None,
    {
        let mut actions = Vec::new();
        actions.push(action);
        WhatsappAuthentication { actions, add_security_recommendation: None, code_expiration_minutes: None }
    }

    pub fn add_security_recommendation(self, value: bool) -> (r: Self)
        ensures
            r == (WhatsappAuthentication { add_security_recommendation: Some(value), ..self }),
    {
        WhatsappAuthentication { add_security_recommendation: Some(value), ..self }
    }

    pub fn code_expiration_minutes(self, value: u16) -> (r: Self)
        ensures
            r == (WhatsappAuthentication { code_expiration_minutes: Some(value), ..self }),
    {
        WhatsappAuthentication { code_expiration_minutes: Some(value), ..self }
    }

}

/// A `whatsapp/flows` payload referencing a Meta-hosted Flow.
#[derive(Clone)]
pub struct WhatsappFlows {
    pub body: String,
    pub button_text: String,
    pub flow_id: String,
    pub subtitle: Option<String>,
    pub media_url: Option<String>,
    pub flow_token: Option<String>,
    pub flow_first_page_id: Option<String>,
    pub is_flow_first_page_endpoint: Option<bool>,
}

impl WhatsappFlows {
    pub fn new(body: &str, button_text: &str, flow_id: &str) -> (r: Self)
        ensures
            r.body@ == body@,
            r.button_text@ == button_text@,
            r.flow_id@ == flow_id@,
            r.subtitle is None,
            r.media_url is None,
            r.flow_token is None,
            r.flow_first_page_id is None,
            r.is_flow_first_page_endpoint is None,
    {
        WhatsappFlows {
            body: body.to_string(),
            button_text: button_text.to_string(),
            flow_id: flow_id.to_string(),
            subtitle: None,
            media_url: None,
            flow_token: None,
            flow_first_page_id: None,
            is_flow_first_page_endpoint: None,
        }
    }

    pub fn subtitle(self, value: &str) -> (r: Self)
        ensures
            r.subtitle matches Some(v) && v@ == value@,
            r == (WhatsappFlows { subtitle: r.subtitle, ..self }),
    {
        WhatsappFlows { subtitle: Some(value.to_string()), ..self }
    }

    pub fn media_url(self, value: &str) -> (r: Self)
        ensures
            r.media_url matches Some(v) && v@ == value@,
            r == (WhatsappFlows { media_url: r.media_url, ..self }),
    {
        WhatsappFlows { media_url: Some(value.to_string()), ..self }
    }

    pub fn flow_token(self, value: &str) -> (r: Self)
        ensures
            r.flow_token matches Some(v) && v@ == value@,
            r == (WhatsappFlows { flow_token: r.flow_token, ..self }),
    {
        WhatsappFlows { flow_token: Some(value.to_string()), ..self }
    }

    pub fn first_page_id(self, value: &str) -> (r: Self)
        ensures
            r.flow_first_page_id matches Some(v) && v@ == value@,
            r == (WhatsappFlows { flow_first_page_id: r.flow_first_page_id, ..self }),
    {
        WhatsappFlows { flow_first_page_id: Some(value.to_string()), ..self }
    }

    pub fn first_page_endpoint(self, value: bool) -> (r: Self)
        ensures
            r == (WhatsappFlows { is_flow_first_page_endpoint: Some(value), ..self }),
    {
        WhatsappFlows { is_flow_first_page_endpoint: Some(value), ..self }
    }

}

} // verus!
