use std::cell::RefCell;
use std::rc::Rc;

use github_notification_service::config::{
    Config, DiscordConfig, EmailConfig, SlackConfig, TelegramConfig, WhatsAppConfig,
};
use github_notification_service::services::discord::{
    DiscordService, DISCORD_AVATAR_URL, DISCORD_USERNAME,
};
use github_notification_service::services::email::EmailService;
use github_notification_service::services::outcome::{
    aggregate, failure_summary, outcome_of, AggregateError, AggregateOutcome, DispatchOutcome,
};
use github_notification_service::services::slack::SlackService;
use github_notification_service::services::telegram::TelegramService;
use github_notification_service::services::whatsapp::{WhatsAppService, WHATSAPP_ENDPOINT};
use github_notification_service::services::{
    dispatch, http_delivery, NotificationManager, NotificationService, ProviderKind, SendError,
};

type Log = Rc<RefCell<Vec<(String, String, String)>>>;

struct Probe {
    name: &'static str,
    fails: bool,
    log: Log,
}

impl NotificationService for Probe {
    fn send(&self, title: &str, message: &str) -> Result<(), SendError> {
        self.log.borrow_mut().push((self.name.to_string(), title.to_string(), message.to_string()));
        if self.fails {
            Err(SendError { cause: format!("{} is down", self.name) })
        } else {
            Ok(())
        }
    }
}

const KINDS: [ProviderKind; 5] = [
    ProviderKind::WhatsApp,
    ProviderKind::Telegram,
    ProviderKind::Discord,
    ProviderKind::Slack,
    ProviderKind::Email,
];

const NAMES: [&str; 5] = ["whatsapp", "telegram", "discord", "slack", "email"];

/// A manager whose slot `i` is configured when bit `i` of `present` is set
/// and fails when bit `i` of `failing` is set.
fn manager(present: u32, failing: u32, log: &Log) -> NotificationManager<Probe> {
    let probe = |i: usize| {
        if present & (1 << i) != 0 {
            Some(Probe { name: NAMES[i], fails: failing & (1 << i) != 0, log: log.clone() })
        } else {
            None
        }
    };
    NotificationManager::new(
        Some("secret".to_string()),
        probe(0),
        probe(1),
        probe(2),
        probe(3),
        probe(4),
    )
}

fn failed(text: &str) -> DispatchOutcome {
    DispatchOutcome::Failed(text.to_string())
}

#[test]
fn partial_failure_is_success_for_every_configuration() {
    for present in 0u32..32 {
        for failing in 0u32..32 {
            if failing & !present != 0 {
                continue;
            }
            let n = present.count_ones();
            let f = failing.count_ones();
            if !(0 < f && f < n) {
                continue;
            }
            let log: Log = Rc::new(RefCell::new(Vec::new()));
            let manager = manager(present, failing, &log);
            assert_eq!(manager.notify_all("t", "m"), Ok(()));
            assert_eq!(log.borrow().len(), n as usize);
        }
    }
}

#[test]
fn total_failure_reports_one_error_per_channel() {
    for present in 1u32..32 {
        let log: Log = Rc::new(RefCell::new(Vec::new()));
        let manager = manager(present, present, &log);
        let n = present.count_ones() as usize;
        let error = manager.notify_all("t", "m").unwrap_err();
        assert_eq!(error.errors.len(), n);
        assert_eq!(log.borrow().len(), n);
    }
}

#[test]
fn all_delivered_is_success_for_every_configuration() {
    for present in 0u32..32 {
        let log: Log = Rc::new(RefCell::new(Vec::new()));
        let manager = manager(present, 0, &log);
        assert_eq!(manager.notify_all("t", "m"), Ok(()));
        assert_eq!(log.borrow().len(), present.count_ones() as usize);
    }
}

#[test]
fn no_channels_is_success_without_any_send() {
    let log: Log = Rc::new(RefCell::new(Vec::new()));
    let manager = manager(0, 0, &log);
    assert_eq!(manager.notify_all("title", "message"), Ok(()));
    assert!(log.borrow().is_empty());
    assert!(manager.configured_kinds().is_empty());
}

#[test]
fn total_failure_names_each_provider_in_order() {
    let log: Log = Rc::new(RefCell::new(Vec::new()));
    let manager = manager(0b11111, 0b11111, &log);
    let error = manager.notify_all("t", "m").unwrap_err();
    assert_eq!(
        error.errors,
        vec![
            "WhatsApp: whatsapp is down".to_string(),
            "Telegram: telegram is down".to_string(),
            "Discord: discord is down".to_string(),
            "Slack: slack is down".to_string(),
            "Email: email is down".to_string(),
        ]
    );
    assert_eq!(
        error.message(),
        "Some notifications failed: WhatsApp: whatsapp is down, Telegram: telegram is down, \
         Discord: discord is down, Slack: slack is down, Email: email is down"
    );
}

#[test]
fn every_channel_is_attempted_once_with_title_and_message() {
    let log: Log = Rc::new(RefCell::new(Vec::new()));
    let manager = manager(0b10110, 0b00010, &log);
    assert_eq!(manager.notify_all("the title", "the message"), Ok(()));
    let calls = log.borrow();
    let who: Vec<&str> = calls.iter().map(|call| call.0.as_str()).collect();
    assert_eq!(who, vec!["telegram", "discord", "email"]);
    for call in calls.iter() {
        assert_eq!(call.1, "the title");
        assert_eq!(call.2, "the message");
    }
}

#[test]
fn single_failing_channel_is_total_failure() {
    let log: Log = Rc::new(RefCell::new(Vec::new()));
    let manager = manager(0b01000, 0b01000, &log);
    let error = manager.notify_all("t", "m").unwrap_err();
    assert_eq!(error.errors, vec!["Slack: slack is down".to_string()]);
    assert_eq!(error.message(), "Some notifications failed: Slack: slack is down");
}

#[test]
fn manager_reports_its_channels_and_secret() {
    let log: Log = Rc::new(RefCell::new(Vec::new()));
    let manager = manager(0b01001, 0, &log);
    assert_eq!(manager.configured_kinds(), vec![ProviderKind::WhatsApp, ProviderKind::Slack]);
    assert_eq!(manager.webhook_secret(), "secret");
    for (i, kind) in KINDS.iter().enumerate() {
        let expected = if i == 0 || i == 3 { Some(NAMES[i]) } else { None };
        assert_eq!(manager.get(*kind).map(|probe| probe.name), expected);
    }
    let bare: NotificationManager<Probe> =
        NotificationManager::new(None, None, None, None, None, None);
    assert_eq!(bare.webhook_secret(), "");
}

#[test]
fn dispatch_tags_a_failure_with_the_provider() {
    let log: Log = Rc::new(RefCell::new(Vec::new()));
    let down = Probe { name: "relay", fails: true, log: log.clone() };
    let up = Probe { name: "relay", fails: false, log: log.clone() };
    assert_eq!(dispatch(ProviderKind::Email, &down, "t", "m"), failed("Email: relay is down"));
    assert_eq!(dispatch(ProviderKind::Email, &up, "t", "m"), DispatchOutcome::Delivered);
    assert_eq!(log.borrow().len(), 2);
}

#[test]
fn outcome_of_tags_each_provider() {
    let error = || Err(SendError { cause: "boom".to_string() });
    assert_eq!(outcome_of(ProviderKind::WhatsApp, error()), failed("WhatsApp: boom"));
    assert_eq!(outcome_of(ProviderKind::Telegram, error()), failed("Telegram: boom"));
    assert_eq!(outcome_of(ProviderKind::Discord, error()), failed("Discord: boom"));
    assert_eq!(outcome_of(ProviderKind::Slack, error()), failed("Slack: boom"));
    assert_eq!(outcome_of(ProviderKind::Email, error()), failed("Email: boom"));
    assert_eq!(outcome_of(ProviderKind::Slack, Ok(())), DispatchOutcome::Delivered);
    assert_eq!(ProviderKind::WhatsApp.name(), "WhatsApp");
}

#[test]
fn aggregate_follows_the_policy() {
    assert_eq!(aggregate(&vec![]), AggregateOutcome::AllSucceeded);
    assert_eq!(aggregate(&vec![DispatchOutcome::Delivered]), AggregateOutcome::AllSucceeded);
    assert_eq!(
        aggregate(&vec![DispatchOutcome::Delivered, DispatchOutcome::Delivered]),
        AggregateOutcome::AllSucceeded
    );
    assert_eq!(
        aggregate(&vec![failed("a")]),
        AggregateOutcome::AllFailed(vec!["a".to_string()])
    );
    assert_eq!(
        aggregate(&vec![failed("a"), failed("b")]),
        AggregateOutcome::AllFailed(vec!["a".to_string(), "b".to_string()])
    );
    assert_eq!(
        aggregate(&vec![failed("a"), DispatchOutcome::Delivered, failed("b")]),
        AggregateOutcome::PartialFailure(vec!["a".to_string(), "b".to_string()])
    );
    assert_eq!(
        aggregate(&vec![DispatchOutcome::Delivered, failed("b")]),
        AggregateOutcome::PartialFailure(vec!["b".to_string()])
    );
}

#[test]
fn only_total_failure_becomes_an_error() {
    assert_eq!(AggregateOutcome::AllSucceeded.into_result(), Ok(()));
    assert_eq!(AggregateOutcome::PartialFailure(vec!["a".to_string()]).into_result(), Ok(()));
    assert_eq!(
        AggregateOutcome::AllFailed(vec!["a".to_string(), "b".to_string()]).into_result(),
        Err(AggregateError { errors: vec!["a".to_string(), "b".to_string()] })
    );
}

#[test]
fn warning_is_raised_whenever_something_failed() {
    assert_eq!(AggregateOutcome::AllSucceeded.warning(), None);
    assert_eq!(
        AggregateOutcome::PartialFailure(vec!["Slack: x".to_string()]).warning(),
        Some("Some notifications failed: Slack: x".to_string())
    );
    assert_eq!(
        AggregateOutcome::AllFailed(vec!["Slack: x".to_string(), "Email: y".to_string()])
            .warning(),
        Some("Some notifications failed: Slack: x, Email: y".to_string())
    );
}

#[test]
fn failure_summary_joins_with_comma_and_space() {
    assert_eq!(failure_summary(&vec![]), "Some notifications failed: ");
    assert_eq!(failure_summary(&vec!["a".to_string()]), "Some notifications failed: a");
    assert_eq!(
        failure_summary(&vec!["a".to_string(), "".to_string(), "c".to_string()]),
        "Some notifications failed: a, , c"
    );
}

#[test]
fn http_delivery_classifies_answers() {
    assert_eq!(http_delivery(ProviderKind::Discord, Some(200)), Ok(()));
    assert_eq!(http_delivery(ProviderKind::Discord, Some(204)), Ok(()));
    assert_eq!(http_delivery(ProviderKind::Discord, Some(299)), Ok(()));
    for code in [0u16, 100, 199, 300, 301, 400, 404, 500, 503, 65535] {
        assert_eq!(
            http_delivery(ProviderKind::Discord, Some(code)),
            Err(SendError { cause: "Discord API error".to_string() })
        );
    }
    assert_eq!(
        http_delivery(ProviderKind::Slack, Some(500)),
        Err(SendError { cause: "Slack API error".to_string() })
    );
    assert_eq!(
        http_delivery(ProviderKind::Telegram, None),
        Err(SendError { cause: "Failed to send Telegram message".to_string() })
    );
    assert_eq!(
        http_delivery(ProviderKind::WhatsApp, None),
        Err(SendError { cause: "Failed to send WhatsApp message".to_string() })
    );
}

#[test]
fn whatsapp_message_is_plain_text_to_the_number() {
    let service = WhatsAppService::new("key".to_string(), "+100".to_string());
    let payload = service.message("Title", "Body");
    assert_eq!(payload.messaging_product, "whatsapp");
    assert_eq!(payload.to, "+100");
    assert_eq!(payload.msg_type, "text");
    assert_eq!(payload.text.body, "Title\nBody");
    assert_eq!(service.endpoint(), WHATSAPP_ENDPOINT);
    assert_eq!(
        service.endpoint(),
        "https://graph.facebook.com/v13.0/YOUR_PHONE_NUMBER_ID/messages"
    );
}

#[test]
fn telegram_message_is_markdown_to_the_chat() {
    let service = TelegramService::new("123:abc".to_string(), "42".to_string());
    let payload = service.message("Title", "Body");
    assert_eq!(payload.chat_id, "42");
    assert_eq!(payload.text, "*Title*\nBody");
    assert_eq!(payload.parse_mode, "Markdown");
    assert_eq!(service.endpoint(), "https://api.telegram.org/bot123:abc/sendMessage");
}

#[test]
fn discord_message_has_bold_title_and_bot_identity() {
    let service = DiscordService::new("https://discord.example/hook".to_string());
    let payload = service.message("Title", "Body");
    assert_eq!(payload.content, "**Title**\nBody");
    assert_eq!(payload.username, "GitHub Follower Bot");
    assert_eq!(payload.username, DISCORD_USERNAME);
    assert_eq!(
        payload.avatar_url,
        Some(
            "https://github.githubassets.com/images/modules/logos_page/GitHub-Mark.png"
                .to_string()
        )
    );
    assert_eq!(payload.avatar_url.as_deref(), Some(DISCORD_AVATAR_URL));
    assert_eq!(service.endpoint(), "https://discord.example/hook");
}

#[test]
fn slack_message_has_bold_title() {
    let service = SlackService::new("https://slack.example/hook".to_string());
    assert_eq!(service.message("Title", "Body").text, "*Title*\nBody");
    assert_eq!(service.message("", "").text, "**\n");
    assert_eq!(service.endpoint(), "https://slack.example/hook");
}

#[test]
fn email_message_uses_title_as_subject() {
    let service = EmailService::new(
        "smtp.example".to_string(),
        "user".to_string(),
        "pass".to_string(),
        "from@example.com".to_string(),
        "to@example.com".to_string(),
    );
    let mail = service.message("Title", "Body");
    assert_eq!(mail.from, "from@example.com");
    assert_eq!(mail.to, "to@example.com");
    assert_eq!(mail.subject, "Title");
    assert_eq!(mail.body, "Body");
}

#[test]
fn services_follow_the_configuration() {
    let mut config = Config {
        port: "8080".to_string(),
        webhook_secret: None,
        whatsapp_config: None,
        telegram_config: None,
        discord_config: None,
        slack_config: None,
        email_config: None,
    };
    assert_eq!(WhatsAppService::from_config(&config), None);
    assert_eq!(TelegramService::from_config(&config), None);
    assert_eq!(DiscordService::from_config(&config), None);
    assert_eq!(SlackService::from_config(&config), None);
    assert_eq!(EmailService::from_config(&config), None);
    config.whatsapp_config =
        Some(WhatsAppConfig { api_key: "k".to_string(), phone_number: "p".to_string() });
    config.telegram_config =
        Some(TelegramConfig { bot_token: "t".to_string(), chat_id: "c".to_string() });
    config.discord_config =
        Some(DiscordConfig { webhook_url: "d".to_string(), bot_token: "x".to_string() });
    config.slack_config = Some(SlackConfig {
        webhook_url: "s".to_string(),
        channel: "#c".to_string(),
        bot_token: "y".to_string(),
    });
    config.email_config = Some(EmailConfig {
        smtp_server: "m".to_string(),
        smtp_username: "u".to_string(),
        smtp_password: "w".to_string(),
        from_email: "f".to_string(),
        to_email: "o".to_string(),
    });
    assert_eq!(
        WhatsAppService::from_config(&config),
        Some(WhatsAppService { api_key: "k".to_string(), phone_number: "p".to_string() })
    );
    assert_eq!(
        TelegramService::from_config(&config),
        Some(TelegramService { bot_token: "t".to_string(), chat_id: "c".to_string() })
    );
    assert_eq!(
        DiscordService::from_config(&config),
        Some(DiscordService { webhook_url: "d".to_string() })
    );
    assert_eq!(
        SlackService::from_config(&config),
        Some(SlackService { webhook_url: "s".to_string() })
    );
    assert_eq!(
        EmailService::from_config(&config),
        Some(EmailService {
            smtp_server: "m".to_string(),
            smtp_username: "u".to_string(),
            smtp_password: "w".to_string(),
            from_email: "f".to_string(),
            to_email: "o".to_string(),
        })
    );
}

struct Answering {
    answer: Result<(), &'static str>,
    log: Log,
}

impl NotificationService for Answering {
    fn send(&self, title: &str, message: &str) -> Result<(), SendError> {
        self.log.borrow_mut().push(("answering".to_string(), title.to_string(), message.to_string()));
        match self.answer {
            Ok(()) => Ok(()),
            Err(cause) => Err(SendError { cause: cause.to_string() }),
        }
    }
}

#[test]
fn telegram_and_slack_failing_give_the_exact_text() {
    let log: Log = Rc::new(RefCell::new(Vec::new()));
    let manager = NotificationManager::new(
        Some("secret".to_string()),
        None,
        Some(Answering { answer: Err("a"), log: log.clone() }),
        None,
        Some(Answering { answer: Err("b"), log: log.clone() }),
        None,
    );
    let error = manager.notify_all("t", "m").unwrap_err();
    assert_eq!(error.errors, vec!["Telegram: a".to_string(), "Slack: b".to_string()]);
    assert_eq!(error.message(), "Some notifications failed: Telegram: a, Slack: b");
    assert_eq!(log.borrow().len(), 2);
}

#[test]
fn each_error_is_its_own_channels_cause() {
    let log: Log = Rc::new(RefCell::new(Vec::new()));
    let manager = NotificationManager::new(
        None,
        Some(Answering { answer: Err("one"), log: log.clone() }),
        Some(Answering { answer: Err("two"), log: log.clone() }),
        Some(Answering { answer: Err("three"), log: log.clone() }),
        Some(Answering { answer: Err("four"), log: log.clone() }),
        Some(Answering { answer: Err("five"), log: log.clone() }),
    );
    let error = manager.notify_all("t", "m").unwrap_err();
    assert_eq!(
        error.errors,
        vec![
            "WhatsApp: one".to_string(),
            "Telegram: two".to_string(),
            "Discord: three".to_string(),
            "Slack: four".to_string(),
            "Email: five".to_string(),
        ]
    );
}

#[test]
fn verdict_depends_only_on_how_many_fail() {
    for first in 0u32..32 {
        for second in 0u32..32 {
            if first.count_ones() != second.count_ones() {
                continue;
            }
            for first_failing in 0u32..32 {
                if first_failing & !first != 0 {
                    continue;
                }
                for second_failing in 0u32..32 {
                    if second_failing & !second != 0
                        || second_failing.count_ones() != first_failing.count_ones()
                    {
                        continue;
                    }
                    let log: Log = Rc::new(RefCell::new(Vec::new()));
                    let one = manager(first, first_failing, &log).notify_all("t", "m");
                    let two = manager(second, second_failing, &log).notify_all("t", "m");
                    assert_eq!(one.is_err(), two.is_err());
                    let all_fail = first != 0 && first_failing == first;
                    assert_eq!(one.is_err(), all_fail);
                }
            }
        }
    }
}

#[test]
fn a_failing_first_channel_does_not_stop_the_others() {
    let log: Log = Rc::new(RefCell::new(Vec::new()));
    let manager = manager(0b11111, 0b00001, &log);
    assert_eq!(manager.notify_all("the title", "the message"), Ok(()));
    let calls = log.borrow();
    let who: Vec<&str> = calls.iter().map(|call| call.0.as_str()).collect();
    assert_eq!(who, vec!["whatsapp", "telegram", "discord", "slack", "email"]);
    for call in calls.iter() {
        assert_eq!((call.1.as_str(), call.2.as_str()), ("the title", "the message"));
    }
}
