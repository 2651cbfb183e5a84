//! Plain data carried through the service: the inbound follower event and
//! the message each provider is sent.

use vstd::prelude::*;

verus! {

/// The account that triggered an event.
#[derive(Clone, Debug, PartialEq, Eq)]
pub struct Sender {
    pub login: String,
    pub avatar_url: String,
    pub html_url: String,
}

/// An inbound webhook event. `action` alone decides whether it is
/// announced.
#[derive(Clone, Debug, PartialEq, Eq)]
pub struct FollowerEvent {
    pub action: String,
    pub sender: Sender,
}

/// Text part of a WhatsApp message.
#[derive(Clone, Debug, PartialEq, Eq)]
pub struct WhatsAppText {
    pub body: String,
}

/// Message submitted to the WhatsApp API.
#[derive(Clone, Debug, PartialEq, Eq)]
pub struct WhatsAppMessage {
    pub messaging_product: String,
    pub to: String,
    pub msg_type: String,
    pub text: WhatsAppText,
}

/// Message submitted to the Telegram bot API.
#[derive(Clone, Debug, PartialEq, Eq)]
pub struct TelegramMessage {
    pub chat_id: String,
    pub text: String,
    pub parse_mode: String,
}

/// Message posted to a Discord webhook.
#[derive(Clone, Debug, PartialEq, Eq)]
pub struct DiscordMessage {
    pub content: String,
    pub username: String,
    pub avatar_url: Option<String>,
}

/// Message posted to a Slack webhook.
#[derive(Clone, Debug, PartialEq, Eq)]
pub struct SlackMessage {
    pub text: String,
}

/// Message handed to the mail relay.
#[derive(Clone, Debug, PartialEq, Eq)]
pub struct EmailMessage {
    pub from: String,
    pub to: String,
    pub subject: String,
    pub body: String,
}

} // verus!
