//! The settings that the service needs before it may serve a request.

use vstd::prelude::*;

verus! {

/// The four settings, all present.
#[derive(Debug, PartialEq)]
pub struct Config {
    /// Identifier of the monitored site.
    pub site_id: String,
    /// Key for the monitoring service.
    pub telemetry_api_key: String,
    /// Recipient of alerts at the messaging service.
    pub notifier_user: String,
    /// Key for the messaging service.
    pub notifier_token: String,
}

/// What a configuration is, mathematically.
pub struct ConfigView {
    pub site_id: Seq<char>,
    pub telemetry_api_key: Seq<char>,
    pub notifier_user: Seq<char>,
    pub notifier_token: Seq<char>,
}

impl View for Config {
    type V = ConfigView;

    open spec fn view(&self) -> ConfigView {
        ConfigView {
            site_id: self.site_id@,
            telemetry_api_key: self.telemetry_api_key@,
            notifier_user: self.notifier_user@,
            notifier_token: self.notifier_token@,
        }
    }
}

/// The setting that is missing.
#[derive(Clone, Copy, Debug, PartialEq, Eq)]
pub enum ConfigError {
    MissingSiteId,
    MissingTelemetryApiKey,
    MissingNotifierUser,
    MissingNotifierToken,
}

/// The first setting that is absent, in the order site identifier,
/// monitoring key, alert recipient, messaging key.
pub open spec fn first_missing(
    site_id: Option<String>,
    telemetry_api_key: Option<String>,
    notifier_user: Option<String>,
    notifier_token: Option<String>,
) -> Option<ConfigError> {
    if site_id is None {
        Some(ConfigError::MissingSiteId)
    } else if telemetry_api_key is None {
        Some(ConfigError::MissingTelemetryApiKey)
    } else if notifier_user is None {
        Some(ConfigError::MissingNotifierUser)
    } else if notifier_token is None {
        Some(ConfigError::MissingNotifierToken)
    } else {
        None
    }
}

impl Config {
    /// Builds the configuration from the settings as they were found. It
    /// succeeds exactly when all four are present, and otherwise names the
    /// first that is missing.
    pub fn from_values(
        site_id: Option<String>,
        telemetry_api_key: Option<String>,
        notifier_user: Option<String>,
        notifier_token: Option<String>,
    ) -> (out: Result<Config, ConfigError>)
        ensures
            match first_missing(site_id, telemetry_api_key, notifier_user, notifier_token) {
                Some(missing) => out == Err::<Config, ConfigError>(missing),
                None => out == Ok::<Config, ConfigError>(
                    Config {
                        site_id: site_id->0,
                        telemetry_api_key: telemetry_api_key->0,
                        notifier_user: notifier_user->0,
                        notifier_token: notifier_token->0,
                    },
                ),
            },
    {
        let site_id = match site_id {
            Some(value) => value,
            None => return Err(ConfigError::MissingSiteId),
        };
        let telemetry_api_key = match telemetry_api_key {
            Some(value) => value,
            None => return Err(ConfigError::MissingTelemetryApiKey),
        };
        let notifier_user = match notifier_user {
            Some(value) => value,
            None => return Err(ConfigError::MissingNotifierUser),
        };
        let notifier_token = match notifier_token {
            Some(value) => value,
            None => return Err(ConfigError::MissingNotifierToken),
        };
        Ok(Config { site_id, telemetry_api_key, notifier_user, notifier_token })
    }
}

} // verus!
