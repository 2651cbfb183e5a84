//! The mail channel: what is handed to the relay for one notification.

use vstd::prelude::*;
use vstd::string::*;
use crate::config::Config;
use crate::models::EmailMessage;

verus! {

/// Relay, credentials and addresses of the mail channel.
#[derive(Clone, Debug, PartialEq, Eq)]
pub struct EmailService {
    pub smtp_server: String,
    pub smtp_username: String,
    pub smtp_password: String,
    pub from_email: String,
    pub to_email: String,
}

impl EmailService {
    pub fn new(
        smtp_server: String,
        smtp_username: String,
        smtp_password: String,
        from_email: String,
        to_email: String,
    ) -> (service: Self)
        ensures
            service.smtp_server == smtp_server,
            service.smtp_username == smtp_username,
            service.smtp_password == smtp_password,
            service.from_email == from_email,
            service.to_email == to_email,
    {
        EmailService { smtp_server, smtp_username, smtp_password, from_email, to_email }
    }

    /// The channel that `config` asks for, if it configures the relay.
    pub fn from_config(config: &Config) -> (service: Option<Self>)
        ensures
            service is Some <==> config.email_config is Some,
            service is Some ==> {
                &&& service->Some_0.smtp_server == config.email_config->Some_0.smtp_server
                &&& service->Some_0.smtp_username == config.email_config->Some_0.smtp_username
                &&& service->Some_0.smtp_password == config.email_config->Some_0.smtp_password
                &&& service->Some_0.from_email == config.email_config->Some_0.from_email
                &&& service->Some_0.to_email == config.email_config->Some_0.to_email
            },
    {
        match &config.email_config {
            Some(email) => Some(
                EmailService::new(
                    email.smtp_server.clone(),
                    email.smtp_username.clone(),
                    email.smtp_password.clone(),
                    email.from_email.clone(),
                    email.to_email.clone(),
                ),
            ),
            None => None,
        }
    }

    /// The mail sent for one notification: from and to the configured
    /// addresses, the title as subject, the message as body.
    pub fn message(&self, title: &str, message: &str) -> (mail: EmailMessage)
        ensures
            mail.from@ == self.from_email@,
            mail.to@ == self.to_email@,
            mail.subject@ == title@,
            mail.body@ == message@,
    {
        EmailMessage {
            from: self.from_email.clone(),
            to: self.to_email.clone(),
            subject: String::from_str(title),
            body: String::from_str(message),
        }
    }
}

} // verus!
