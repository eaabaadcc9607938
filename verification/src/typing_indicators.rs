use vstd::prelude::*;

use crate::error::{check_outcome, must_not_be_empty, TwilioError};
use crate::external::{json_string, json_string_literal};
use crate::form::{params_view, push_str, str_param, FormParam, ParamSeq};
use crate::services::validate_required;
use crate::text::is_blank;

verus! {

/// Request body for a v2 typing indicator, which only `WhatsApp` supports.
#[derive(Clone, Copy)]
pub struct CreateMessagingV2TypingIndicatorRequest<'a> {
    pub message_id: &'a str,
}

impl<'a> CreateMessagingV2TypingIndicatorRequest<'a> {
    /// A typing indicator for the `WhatsApp` message `message_id`.
    pub fn whatsapp(message_id: &'a str) -> (r: Self)
        ensures
            r.message_id == message_id,
    {
        CreateMessagingV2TypingIndicatorRequest { message_id }
    }

    /// The first documented rule this request breaks, as its error text.
    pub open spec fn violation(&self) -> Option<Seq<char>> {
        if is_blank(self.message_id@) {
            Some(must_not_be_empty("messageId"@))
        } else {
            None
        }
    }

    /// Check that the message id is not blank.
    pub fn validate(&self) -> (r: Result<(), TwilioError>)
        ensures
            check_outcome(r, self.violation()),
    {
        validate_required("messageId", self.message_id)
    }

    /// The form parameters of this request, in the order they are sent.
    pub open spec fn spec_form_params(&self) -> ParamSeq {
        str_param("channel"@, Some("whatsapp"@)) + str_param("messageId"@, Some(self.message_id@))
    }

    /// Encode this request as form parameters.
    pub fn form_params(&self) -> (params: Vec<FormParam>)
        ensures
            params_view(params@) == self.spec_form_params(),
    {
        let mut params = Vec::new();
        push_str(&mut params, "channel", Some("whatsapp"));
        push_str(&mut params, "messageId", Some(self.message_id));
        assert(params_view(params@) =~= self.spec_form_params());
        params
    }
}

/// Typing-indicator event accepted by Apple and RCS channels.
#[derive(Clone, Copy, Debug, PartialEq, Eq)]
pub enum TypingEvent {
    Start,
    End,
}

impl TypingEvent {
    /// The text this event is sent as.
    pub open spec fn spec_wire_name(self) -> Seq<char> {
        match self {
            TypingEvent::Start => "START"@,
            TypingEvent::End => "END"@,
        }
    }

    /// The text this event is sent as.
    pub fn wire_name(self) -> (s: &'static str)
        ensures
            s@ == self.spec_wire_name(),
    {
        match self {
            TypingEvent::Start => "START",
            TypingEvent::End => "END",
        }
    }
}

/// The channel of a v3 typing indicator and the addresses it needs.
#[derive(Clone, Copy)]
pub enum MessagingV3TypingIndicatorKind<'a> {
    WhatsApp { message_id: &'a str },
    Apple { from: &'a str, to: &'a str, event: Option<TypingEvent> },
    Rcs { from: &'a str, to: &'a str, event: Option<TypingEvent> },
}

/// An indicator with its event set: Apple and RCS indicators take the event,
/// a `WhatsApp` one has none and stays as it is.
pub open spec fn kind_with_event<'a>(kind: MessagingV3TypingIndicatorKind<'a>, e: TypingEvent) -> MessagingV3TypingIndicatorKind<'a> {
    match kind {
        MessagingV3TypingIndicatorKind::WhatsApp { .. } => kind,
        MessagingV3TypingIndicatorKind::Apple { from, to, .. } => MessagingV3TypingIndicatorKind::Apple {
            from,
            to,
            event: Some(e),
        },
        MessagingV3TypingIndicatorKind::Rcs { from, to, .. } => MessagingV3TypingIndicatorKind::Rcs {
            from,
            to,
            event: Some(e),
        },
    }
}

/// The JSON member `,"event":"..."` of an optional event, or nothing.
pub open spec fn event_member(event: Option<TypingEvent>) -> Seq<char> {
    match event {
        Some(e) => ",\"event\":"@ + json_string_literal(e.spec_wire_name()),
        None => seq![],
    }
}

/// The JSON object `{"channel":..,"from":..,"to":..[,"event":..]}`.
pub open spec fn addressed_json(channel: Seq<char>, from: Seq<char>, to: Seq<char>, event: Option<TypingEvent>) -> Seq<char> {
    "{\"channel\":"@ + json_string_literal(channel) + ",\"from\":"@ + json_string_literal(from)
        + ",\"to\":"@ + json_string_literal(to) + event_member(event) + "}"@
}

/// Request body for a v3 typing indicator, sent as a JSON object.
#[derive(Clone, Copy)]
pub struct CreateMessagingV3TypingIndicatorRequest<'a> {
    pub kind: MessagingV3TypingIndicatorKind<'a>,
}

impl<'a> CreateMessagingV3TypingIndicatorRequest<'a> {
    /// A typing indicator for the `WhatsApp` message `message_id`.
    pub fn whatsapp(message_id: &'a str) -> (r: Self)
        ensures
            r.kind == (MessagingV3TypingIndicatorKind::WhatsApp { message_id }),
    {
        CreateMessagingV3TypingIndicatorRequest { kind: MessagingV3TypingIndicatorKind::WhatsApp { message_id } }
    }

    /// An Apple Messages for Business typing indicator from `from` to `to`.
    pub fn apple(from: &'a str, to: &'a str) -> (r: Self)
        ensures
            r.kind == (MessagingV3TypingIndicatorKind::Apple { from, to, event: None }),
    {
        CreateMessagingV3TypingIndicatorRequest { kind: MessagingV3TypingIndicatorKind::Apple { from, to, event: None } }
    }

    /// An RCS typing indicator from `from` to `to`.
    pub fn rcs(from: &'a str, to: &'a str) -> (r: Self)
        ensures
            r.kind == (MessagingV3TypingIndicatorKind::Rcs { from, to, event: None }),
    {
        CreateMessagingV3TypingIndicatorRequest { kind: MessagingV3TypingIndicatorKind::Rcs { from, to, event: None } }
    }

    /// Set the event of an Apple or RCS indicator; a `WhatsApp` one has none
    /// and is returned unchanged.
    pub fn event(self, value: TypingEvent) -> (r: Self)
        ensures
            r.kind == kind_with_event(self.kind, value),
    {
        match self.kind {
            MessagingV3TypingIndicatorKind::WhatsApp { .. } => self,
            MessagingV3TypingIndicatorKind::Apple { from, to, .. } => CreateMessagingV3TypingIndicatorRequest {
                kind: MessagingV3TypingIndicatorKind::Apple { from, to, event: Some(value) },
            },
            MessagingV3TypingIndicatorKind::Rcs { from, to, .. } => CreateMessagingV3TypingIndicatorRequest {
                kind: MessagingV3TypingIndicatorKind::Rcs { from, to, event: Some(value) },
            },
        }
    }

    /// The first documented rule this request breaks, as its error text.
    pub open spec fn violation(&self) -> Option<Seq<char>> {
        match self.kind {
            MessagingV3TypingIndicatorKind::WhatsApp { message_id } => if is_blank(message_id@) {
                Some(must_not_be_empty("messageId"@))
            } else {
                None
            },
            MessagingV3TypingIndicatorKind::Apple { from, to, .. }
            | MessagingV3TypingIndicatorKind::Rcs { from, to, .. } => if is_blank(from@) {
                Some(must_not_be_empty("from"@))
            } else if is_blank(to@) {
                Some(must_not_be_empty("to"@))
            } else {
                None
            },
        }
    }

    /// Check that the addresses the channel needs are not blank.
    pub fn validate(&self) -> (r: Result<(), TwilioError>)
        ensures
            check_outcome(r, self.violation()),
    {
        match self.kind {
            MessagingV3TypingIndicatorKind::WhatsApp { message_id } => validate_required("messageId", message_id),
            MessagingV3TypingIndicatorKind::Apple { from, to, .. } => {
                validate_required("from", from)?;
                validate_required("to", to)
            },
            MessagingV3TypingIndicatorKind::Rcs { from, to, .. } => {
                validate_required("from", from)?;
                validate_required("to", to)
            },
        }
    }

    /// The JSON body of this request: the channel first, then the
    /// addresses, then the event when one is set.
    pub open spec fn spec_json_body(&self) -> Seq<char> {
        match self.kind {
            MessagingV3TypingIndicatorKind::WhatsApp { message_id } => "{\"channel\":"@ + json_string_literal(
                "WHATSAPP"@,
            ) + ",\"messageId\":"@ + json_string_literal(message_id@) + "}"@,
            MessagingV3TypingIndicatorKind::Apple { from, to, event } => addressed_json("APPLE"@, from@, to@, event),
            MessagingV3TypingIndicatorKind::Rcs { from, to, event } => addressed_json("RCS"@, from@, to@, event),
        }
    }

    /// Serialize this request as its JSON body.
    pub fn json_body(&self) -> (s: String)
        ensures
            s@ == self.spec_json_body(),
    {
        match self.kind {
            MessagingV3TypingIndicatorKind::WhatsApp { message_id } => {
                let mut s = "{\"channel\":".to_string();
                s.append(json_string("WHATSAPP").as_str());
                s.append(",\"messageId\":");
                s.append(json_string(message_id).as_str());
                s.append("}");
                s
            },
            MessagingV3TypingIndicatorKind::Apple { from, to, event } => addressed_json_text("APPLE", from, to, event),
            MessagingV3TypingIndicatorKind::Rcs { from, to, event } => addressed_json_text("RCS", from, to, event),
        }
    }
}

/// Serialize an addressed typing indicator as JSON.
fn addressed_json_text(channel: &str, from: &str, to: &str, event: Option<TypingEvent>) -> (s: String)
    ensures
        s@ == addressed_json(channel@, from@, to@, event),
{
    let mut s = "{\"channel\":".to_string();
    s.append(json_string(channel).as_str());
    s.append(",\"from\":");
    s.append(json_string(from).as_str());
    s.append(",\"to\":");
    s.append(json_string(to).as_str());
    let ghost before = s@;
    if let Some(e) = event {
        s.append(",\"event\":");
        s.append(json_string(e.wire_name()).as_str());
    }
    assert(s@ =~= before + event_member(event));
    s.append("}");
    s
}


/// The reply to a typing indicator request.
#[derive(Clone, Debug)]
pub struct TwilioTypingIndicator {
    pub success: Option<bool>,
}

/// A typing indicator reply as the response writes it.
pub struct WireTypingIndicator {
    pub success: Option<bool>,
}

/// How `into_indicator` reads each field of its response.
pub open spec fn typing_indicator_from(w: WireTypingIndicator, t: TwilioTypingIndicator) -> bool {
    &&& t.success == w.success
}

impl WireTypingIndicator {
    /// The reply this response describes.
    pub fn into_indicator(self) -> (t: TwilioTypingIndicator)
        ensures
            typing_indicator_from(self, t),
    {
        TwilioTypingIndicator {
            success: self.success,
        }
    }
}

} // verus!
