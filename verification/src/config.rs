//! Service configuration, assembled from looked-up settings. A provider is
//! configured only when every one of its settings is present.

use vstd::prelude::*;
use vstd::string::*;

verus! {

/// The port served when none is set.
pub const DEFAULT_PORT: &'static str = "8080";

/// Settings of the mail relay channel.
#[derive(Clone, Debug, PartialEq, Eq)]
pub struct EmailConfig {
    pub smtp_server: String,
    pub smtp_username: String,
    pub smtp_password: String,
    pub from_email: String,
    pub to_email: String,
}

/// Settings of the Telegram channel.
#[derive(Clone, Debug, PartialEq, Eq)]
pub struct TelegramConfig {
    pub bot_token: String,
    pub chat_id: String,
}

/// Settings of the Discord channel.
#[derive(Clone, Debug, PartialEq, Eq)]
pub struct DiscordConfig {
    pub webhook_url: String,
    pub bot_token: String,
}

/// Settings of the Slack channel.
#[derive(Clone, Debug, PartialEq, Eq)]
pub struct SlackConfig {
    pub webhook_url: String,
    pub channel: String,
    pub bot_token: String,
}

/// Settings of the WhatsApp channel.
#[derive(Clone, Debug, PartialEq, Eq)]
pub struct WhatsAppConfig {
    pub api_key: String,
    pub phone_number: String,
}

/// The settings as they were looked up, one field per variable; `None`
/// where a variable is not set.
#[derive(Clone, Debug, PartialEq, Eq)]
pub struct Environment {
    pub port: Option<String>,
    pub github_webhook_secret: Option<String>,
    pub whatsapp_api_key: Option<String>,
    pub whatsapp_phone_number: Option<String>,
    pub telegram_bot_token: Option<String>,
    pub telegram_chat_id: Option<String>,
    pub discord_webhook_url: Option<String>,
    pub discord_bot_token: Option<String>,
    pub slack_webhook_url: Option<String>,
    pub slack_channel: Option<String>,
    pub slack_bot_token: Option<String>,
    pub smtp_server: Option<String>,
    pub smtp_username: Option<String>,
    pub smtp_password: Option<String>,
    pub from_email: Option<String>,
    pub to_email: Option<String>,
}

/// The whole configuration of the service.
#[derive(Clone, Debug, PartialEq, Eq)]
pub struct Config {
    pub port: String,
    pub webhook_secret: Option<String>,
    pub whatsapp_config: Option<WhatsAppConfig>,
    pub telegram_config: Option<TelegramConfig>,
    pub discord_config: Option<DiscordConfig>,
    pub slack_config: Option<SlackConfig>,
    pub email_config: Option<EmailConfig>,
}

/// Telegram is configured when both of its settings are present.
pub open spec fn telegram_config_of(bot_token: Option<String>, chat_id: Option<String>) -> Option<
    TelegramConfig,
> {
    match (bot_token, chat_id) {
        (Some(bot_token), Some(chat_id)) => Some(TelegramConfig { bot_token, chat_id }),
        _ => None,
    }
}

/// WhatsApp is configured when both of its settings are present.
pub open spec fn whatsapp_config_of(api_key: Option<String>, phone_number: Option<String>) -> Option<
    WhatsAppConfig,
> {
    match (api_key, phone_number) {
        (Some(api_key), Some(phone_number)) => Some(WhatsAppConfig { api_key, phone_number }),
        _ => None,
    }
}

/// Discord is configured when both of its settings are present.
pub open spec fn discord_config_of(webhook_url: Option<String>, bot_token: Option<String>) -> Option<
    DiscordConfig,
> {
    match (webhook_url, bot_token) {
        (Some(webhook_url), Some(bot_token)) => Some(DiscordConfig { webhook_url, bot_token }),
        _ => None,
    }
}

/// Slack is configured when all three of its settings are present.
pub open spec fn slack_config_of(
    webhook_url: Option<String>,
    channel: Option<String>,
    bot_token: Option<String>,
) -> Option<SlackConfig> {
    match (webhook_url, channel, bot_token) {
        (Some(webhook_url), Some(channel), Some(bot_token)) => Some(
            SlackConfig { webhook_url, channel, bot_token },
        ),
        _ => None,
    }
}

/// The mail relay is configured when all five of its settings are present.
pub open spec fn email_config_of(
    smtp_server: Option<String>,
    smtp_username: Option<String>,
    smtp_password: Option<String>,
    from_email: Option<String>,
    to_email: Option<String>,
) -> Option<EmailConfig> {
    match (smtp_server, smtp_username, smtp_password, from_email, to_email) {
        (
            Some(smtp_server),
            Some(smtp_username),
            Some(smtp_password),
            Some(from_email),
            Some(to_email),
        ) => Some(EmailConfig { smtp_server, smtp_username, smtp_password, from_email, to_email }),
        _ => None,
    }
}

impl Config {
    /// The configuration that a set of looked-up settings amounts to.
    pub open spec fn assembled(env: Environment, config: Config) -> bool {
        &&& config.port@ == match env.port {
            Some(port) => port@,
            None => DEFAULT_PORT@,
        }
        &&& config.webhook_secret == env.github_webhook_secret
        &&& config.whatsapp_config == whatsapp_config_of(
            env.whatsapp_api_key,
            env.whatsapp_phone_number,
        )
        &&& config.telegram_config == telegram_config_of(
            env.telegram_bot_token,
            env.telegram_chat_id,
        )
        &&& config.discord_config == discord_config_of(
            env.discord_webhook_url,
            env.discord_bot_token,
        )
        &&& config.slack_config == slack_config_of(
            env.slack_webhook_url,
            env.slack_channel,
            env.slack_bot_token,
        )
        &&& config.email_config == email_config_of(
            env.smtp_server,
            env.smtp_username,
            env.smtp_password,
            env.from_email,
            env.to_email,
        )
    }

    /// Assembles the configuration: the port falls back to
    /// [`DEFAULT_PORT`], the secret is taken as found, and each provider is
    /// configured exactly when all of its settings are present.
    pub fn new(env: Environment) -> (config: Config)
        ensures
            Config::assembled(env, config),
    {
        let port = match env.port {
            Some(port) => port,
            None => String::from_str(DEFAULT_PORT),
        };
        Config {
            port,
            webhook_secret: env.github_webhook_secret,
            whatsapp_config: Self::load_whatsapp_config(
                env.whatsapp_api_key,
                env.whatsapp_phone_number,
            ),
            telegram_config: Self::load_telegram_config(
                env.telegram_bot_token,
                env.telegram_chat_id,
            ),
            discord_config: Self::load_discord_config(
                env.discord_webhook_url,
                env.discord_bot_token,
            ),
            slack_config: Self::load_slack_config(
                env.slack_webhook_url,
                env.slack_channel,
                env.slack_bot_token,
            ),
            email_config: Self::load_email_config(
                env.smtp_server,
                env.smtp_username,
                env.smtp_password,
                env.from_email,
                env.to_email,
            ),
        }
    }

    /// Pairs the Telegram settings.
    pub fn load_telegram_config(bot_token: Option<String>, chat_id: Option<String>) -> (config:
        Option<TelegramConfig>)
        ensures
            config == telegram_config_of(bot_token, chat_id),
    {
        match (bot_token, chat_id) {
            (Some(bot_token), Some(chat_id)) => Some(TelegramConfig { bot_token, chat_id }),
            _ => None,
        }
    }

    /// Pairs the WhatsApp settings.
    pub fn load_whatsapp_config(api_key: Option<String>, phone_number: Option<String>) -> (config:
        Option<WhatsAppConfig>)
        ensures
            config == whatsapp_config_of(api_key, phone_number),
    {
        match (api_key, phone_number) {
            (Some(api_key), Some(phone_number)) => Some(WhatsAppConfig { api_key, phone_number }),
            _ => None,
        }
    }

    /// Pairs the Discord settings.
    pub fn load_discord_config(webhook_url: Option<String>, bot_token: Option<String>) -> (config:
        Option<DiscordConfig>)
        ensures
            config == discord_config_of(webhook_url, bot_token),
    {
        match (webhook_url, bot_token) {
            (Some(webhook_url), Some(bot_token)) => Some(DiscordConfig { webhook_url, bot_token }),
            _ => None,
        }
    }

    /// Joins the Slack settings.
    pub fn load_slack_config(
        webhook_url: Option<String>,
        channel: Option<String>,
        bot_token: Option<String>,
    ) -> (config: Option<SlackConfig>)
        ensures
            config == slack_config_of(webhook_url, channel, bot_token),
    {
        match (webhook_url, channel, bot_token) {
            (Some(webhook_url), Some(channel), Some(bot_token)) => Some(
                SlackConfig { webhook_url, channel, bot_token },
            ),
            _ => None,
        }
    }

    /// Joins the mail relay settings.
    pub fn load_email_config(
        smtp_server: Option<String>,
        smtp_username: Option<String>,
        smtp_password: Option<String>,
        from_email: Option<String>,
        to_email: Option<String>,
    ) -> (config: Option<EmailConfig>)
        ensures
            config == email_config_of(smtp_server, smtp_username, smtp_password, from_email, to_email),
    {
        match (smtp_server, smtp_username, smtp_password, from_email, to_email) {
            (
                Some(smtp_server),
                Some(smtp_username),
                Some(smtp_password),
                Some(from_email),
                Some(to_email),
            ) => Some(
                EmailConfig { smtp_server, smtp_username, smtp_password, from_email, to_email },
            ),
            _ => None,
        }
    }
}

} // verus!
