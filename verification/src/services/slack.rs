//! The Slack channel: what is posted for one notification.

use vstd::prelude::*;
use vstd::string::*;
use crate::config::Config;
use crate::models::SlackMessage;

verus! {

/// Webhook of the Slack channel.
#[derive(Clone, Debug, PartialEq, Eq)]
pub struct SlackService {
    pub webhook_url: String,
}

/// The text of a Slack notification: the title in bold, then the message
/// on the next line.
pub open spec fn slack_text(title: Seq<char>, message: Seq<char>) -> Seq<char> {
    "*"@ + title + "*\n"@ + message
}

impl SlackService {
    pub fn new(webhook_url: String) -> (service: Self)
        ensures
            service.webhook_url == webhook_url,
    {
        SlackService { webhook_url }
    }

    /// The channel that `config` asks for, if it configures Slack.
    pub fn from_config(config: &Config) -> (service: Option<Self>)
        ensures
            service is Some <==> config.slack_config is Some,
            service is Some ==> service->Some_0.webhook_url
                == config.slack_config->Some_0.webhook_url,
    {
        match &config.slack_config {
            Some(slack) => Some(SlackService::new(slack.webhook_url.clone())),
            None => None,
        }
    }

    /// The address the message is posted to.
    pub fn endpoint(&self) -> (url: &str)
        ensures
            url@ == self.webhook_url@,
    {
        self.webhook_url.as_str()
    }

    /// The message posted for one notification.
    pub fn message(&self, title: &str, message: &str) -> (payload: SlackMessage)
        ensures
            payload.text@ == slack_text(title@, message@),
    {
        let mut text = String::from_str("*");
        text.append(title);
        text.append("*\n");
        text.append(message);
        SlackMessage { text }
    }
}

} // verus!
