//! Multi-channel outbound notification dispatcher.
//!
//! A notification (sender, recipient, subject, body, channel tag) is routed
//! to one of several channel adapters: SMTP email, an SMS gateway with a
//! request-signing scheme, and two webhook-based IM platforms (Feishu and
//! Dingding), each with its own signature scheme and message-body shapes.
//! This crate holds the dispatch and adapter logic: payload negotiation,
//! canonicalization and signing, routing and error mapping. The network
//! transports themselves live outside the crate.

pub mod channels;
pub mod config;
pub mod dingding;
pub mod dispatch;
pub mod error;
pub mod feishu;
pub mod jsonio;
pub mod models;
pub mod normalize;
pub mod payload;
pub mod signing;
pub mod sms;
pub mod strutil;
