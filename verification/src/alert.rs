//! The one message that this service sends: no energy at midday.

use vstd::prelude::*;
use vstd::string::*;

use crate::config::{Config, ConfigView};

verus! {

/// Where alerts are posted.
pub open spec fn alert_url_text() -> Seq<char> {
    "https://api.pushover.net/1/messages.json"@
}

/// What every alert says.
pub open spec fn alert_message_text() -> Seq<char> {
    "No energy measured on the solar panels"@
}

/// One alert to post: the address and the three form fields.
#[derive(Debug, PartialEq)]
pub struct AlertRequest {
    pub url: String,
    /// Form field `token`.
    pub token: String,
    /// Form field `user`.
    pub user: String,
    /// Form field `message`.
    pub message: String,
}

/// What an alert is, mathematically.
pub struct AlertView {
    pub url: Seq<char>,
    pub token: Seq<char>,
    pub user: Seq<char>,
    pub message: Seq<char>,
}

impl View for AlertRequest {
    type V = AlertView;

    open spec fn view(&self) -> AlertView {
        AlertView { url: self.url@, token: self.token@, user: self.user@, message: self.message@ }
    }
}

/// The alert that a service with the settings `config` posts.
pub open spec fn alert_for(config: ConfigView) -> AlertView {
    AlertView {
        url: alert_url_text(),
        token: config.notifier_token,
        user: config.notifier_user,
        message: alert_message_text(),
    }
}

/// Builds the alert for the recipient and key in `config`.
pub fn alert_request(config: &Config) -> (alert: AlertRequest)
    ensures
        alert@ == alert_for(config@),
{
    AlertRequest {
        url: String::from_str("https://api.pushover.net/1/messages.json"),
        token: config.notifier_token.clone(),
        user: config.notifier_user.clone(),
        message: String::from_str("No energy measured on the solar panels"),
    }
}

} // verus!
