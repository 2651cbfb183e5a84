//! The Telegram channel: what is submitted for one notification.

use vstd::prelude::*;
use vstd::string::*;
use crate::config::Config;
use crate::models::TelegramMessage;

verus! {

/// Bot credentials and chat of the Telegram channel.
#[derive(Clone, Debug, PartialEq, Eq)]
pub struct TelegramService {
    pub bot_token: String,
    pub chat_id: String,
}

/// The text of a Telegram notification: the title in Markdown emphasis,
/// then the message on the next line.
pub open spec fn telegram_text(title: Seq<char>, message: Seq<char>) -> Seq<char> {
    "*"@ + title + "*\n"@ + message
}

/// The bot API address for sending a message with `bot_token`.
pub open spec fn telegram_url(bot_token: Seq<char>) -> Seq<char> {
    "https://api.telegram.org/bot"@ + bot_token + "/sendMessage"@
}

impl TelegramService {
    pub fn new(bot_token: String, chat_id: String) -> (service: Self)
        ensures
            service.bot_token == bot_token,
            service.chat_id == chat_id,
    {
        TelegramService { bot_token, chat_id }
    }

    /// The channel that `config` asks for, if it configures Telegram.
    pub fn from_config(config: &Config) -> (service: Option<Self>)
        ensures
            service is Some <==> config.telegram_config is Some,
            service is Some ==> {
                &&& service->Some_0.bot_token == config.telegram_config->Some_0.bot_token
                &&& service->Some_0.chat_id == config.telegram_config->Some_0.chat_id
            },
    {
        match &config.telegram_config {
            Some(telegram) => Some(
                TelegramService::new(telegram.bot_token.clone(), telegram.chat_id.clone()),
            ),
            None => None,
        }
    }

    /// The address the message is posted to.
    pub fn endpoint(&self) -> (url: String)
        ensures
            url@ == telegram_url(self.bot_token@),
    {
        let mut url = String::from_str("https://api.telegram.org/bot");
        url.append(self.bot_token.as_str());
        url.append("/sendMessage");
        url
    }

    /// The message submitted for one notification, in Markdown, to the
    /// configured chat.
    pub fn message(&self, title: &str, message: &str) -> (payload: TelegramMessage)
        ensures
            payload.chat_id@ == self.chat_id@,
            payload.text@ == telegram_text(title@, message@),
            payload.parse_mode@ == "Markdown"@,
    {
        let mut text = String::from_str("*");
        text.append(title);
        text.append("*\n");
        text.append(message);
        TelegramMessage {
            chat_id: self.chat_id.clone(),
            text,
            parse_mode: String::from_str("Markdown"),
        }
    }
}

} // verus!
