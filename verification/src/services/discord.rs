//! The Discord channel: what is posted for one notification.

use vstd::prelude::*;
use vstd::string::*;
use crate::config::Config;
use crate::models::DiscordMessage;

verus! {

/// The name under which notifications appear in Discord.
pub const DISCORD_USERNAME: &'static str = "GitHub Follower Bot";

/// The avatar shown next to notifications in Discord.
pub const DISCORD_AVATAR_URL: &'static str =
    "https://github.githubassets.com/images/modules/logos_page/GitHub-Mark.png";

/// Webhook of the Discord channel.
#[derive(Clone, Debug, PartialEq, Eq)]
pub struct DiscordService {
    pub webhook_url: String,
}

/// The content of a Discord notification: the title in bold, then the
/// message on the next line.
pub open spec fn discord_content(title: Seq<char>, message: Seq<char>) -> Seq<char> {
    "**"@ + title + "**\n"@ + message
}

impl DiscordService {
    pub fn new(webhook_url: String) -> (service: Self)
        ensures
            service.webhook_url == webhook_url,
    {
        DiscordService { webhook_url }
    }

    /// The channel that `config` asks for, if it configures Discord.
    pub fn from_config(config: &Config) -> (service: Option<Self>)
        ensures
            service is Some <==> config.discord_config is Some,
            service is Some ==> service->Some_0.webhook_url
                == config.discord_config->Some_0.webhook_url,
    {
        match &config.discord_config {
            Some(discord) => Some(DiscordService::new(discord.webhook_url.clone())),
            None => None,
        }
    }

    /// The address the message is posted to.
    pub fn endpoint(&self) -> (url: &str)
        ensures
            url@ == self.webhook_url@,
    {
        self.webhook_url.as_str()
    }

    /// The message posted for one notification.
    pub fn message(&self, title: &str, message: &str) -> (payload: DiscordMessage)
        ensures
            payload.content@ == discord_content(title@, message@),
            payload.username@ == DISCORD_USERNAME@,
            payload.avatar_url is Some,
            payload.avatar_url->Some_0@ == DISCORD_AVATAR_URL@,
    {
        let mut content = String::from_str("**");
        content.append(title);
        content.append("**\n");
        content.append(message);
        DiscordMessage {
            content,
            username: String::from_str(DISCORD_USERNAME),
            avatar_url: Some(String::from_str(DISCORD_AVATAR_URL)),
        }
    }
}

} // verus!
