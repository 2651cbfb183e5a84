//! The WhatsApp channel: what is submitted for one notification.

use vstd::prelude::*;
use vstd::string::*;
use crate::config::Config;
use crate::models::{WhatsAppMessage, WhatsAppText};

verus! {

/// Where WhatsApp messages are submitted.
pub const WHATSAPP_ENDPOINT: &'static str =
    "https://graph.facebook.com/v13.0/YOUR_PHONE_NUMBER_ID/messages";

/// Credentials and recipient of the WhatsApp channel.
#[derive(Clone, Debug, PartialEq, Eq)]
pub struct WhatsAppService {
    pub api_key: String,
    pub phone_number: String,
}

/// The text of a WhatsApp notification: title and message on two lines.
pub open spec fn whatsapp_body(title: Seq<char>, message: Seq<char>) -> Seq<char> {
    title + "\n"@ + message
}

impl WhatsAppService {
    pub fn new(api_key: String, phone_number: String) -> (service: Self)
        ensures
            service.api_key == api_key,
            service.phone_number == phone_number,
    {
        WhatsAppService { api_key, phone_number }
    }

    /// The channel that `config` asks for, if it configures WhatsApp.
    pub fn from_config(config: &Config) -> (service: Option<Self>)
        ensures
            service is Some <==> config.whatsapp_config is Some,
            service is Some ==> {
                &&& service->Some_0.api_key == config.whatsapp_config->Some_0.api_key
                &&& service->Some_0.phone_number == config.whatsapp_config->Some_0.phone_number
            },
    {
        match &config.whatsapp_config {
            Some(whatsapp) => Some(
                WhatsAppService::new(whatsapp.api_key.clone(), whatsapp.phone_number.clone()),
            ),
            None => None,
        }
    }

    /// The address the message is posted to.
    pub fn endpoint(&self) -> (url: &'static str)
        ensures
            url@ == WHATSAPP_ENDPOINT@,
    {
        WHATSAPP_ENDPOINT
    }

    /// The message submitted for one notification: a text message to the
    /// configured number.
    pub fn message(&self, title: &str, message: &str) -> (payload: WhatsAppMessage)
        ensures
            payload.messaging_product@ == "whatsapp"@,
            payload.to@ == self.phone_number@,
            payload.msg_type@ == "text"@,
            payload.text.body@ == whatsapp_body(title@, message@),
    {
        let mut body = String::from_str(title);
        body.append("\n");
        body.append(message);
        WhatsAppMessage {
            messaging_product: String::from_str("whatsapp"),
            to: self.phone_number.clone(),
            msg_type: String::from_str("text"),
            text: WhatsAppText { body },
        }
    }
}

} // verus!
