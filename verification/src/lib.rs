//! Request building and validation for Twilio Programmable Messaging.
//!
//! This crate holds the verified core of a Twilio Messaging client: the
//! request builders, their documented validation rules, and the encoding of
//! each request into the form or query parameters that Twilio expects.

pub mod error;
pub mod external;
pub mod text;
pub mod debug_text;
pub mod form;
pub mod timestamps;
pub mod messages;
pub mod services;
pub mod short_codes;
pub mod link_shortening;
pub mod typing_indicators;
pub mod messaging_features;
pub mod tollfree_verifications;
pub mod pricing;
pub mod deactivations;
pub mod laws;
pub mod content;
