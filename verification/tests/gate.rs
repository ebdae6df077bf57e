use energy_proxy::alert::{alert_request, AlertRequest};
use energy_proxy::config::Config;
use energy_proxy::gate::{midday_is_zero, DailyCheckGate, GateState, CHECK_HOUR, RESET_HOUR};
use energy_proxy::series::{EnergySample, EnergySeries, Reading};
use energy_proxy::time::Timestamp;

fn config() -> Config {
    Config {
        site_id: "4711".to_string(),
        telemetry_api_key: "solar-key".to_string(),
        notifier_user: "user-1".to_string(),
        notifier_token: "token-1".to_string(),
    }
}

fn sample(timestamp: &str, value: Option<f32>) -> EnergySample {
    EnergySample {
        timestamp: timestamp.to_string(),
        value: value.map(|v| Reading { bits: v.to_bits() }),
    }
}

fn series(samples: Vec<EnergySample>) -> EnergySeries {
    EnergySeries { time_unit: "QUARTER_OF_AN_HOUR".to_string(), unit: "Wh".to_string(), samples }
}

fn dark_day() -> EnergySeries {
    series(vec![
        sample("2024-05-01T11:45:00+02:00", Some(4.0)),
        sample("2024-05-01T12:00:00+02:00", Some(0.0)),
        sample("2024-05-01T12:15:00+02:00", None),
    ])
}

fn expected_alert() -> AlertRequest {
    AlertRequest {
        url: "https://api.pushover.net/1/messages.json".to_string(),
        token: "token-1".to_string(),
        user: "user-1".to_string(),
        message: "No energy measured on the solar panels".to_string(),
    }
}

#[test]
fn hours_of_check_and_reset() {
    assert_eq!(CHECK_HOUR, 12);
    assert_eq!(RESET_HOUR, 0);
}

#[test]
fn new_gate_is_pending() {
    assert_eq!(DailyCheckGate::new().state(), GateState::Pending);
}

#[test]
fn hour_sequence_over_two_days() {
    let hours = [11u32, 12, 12, 13, 0, 0, 12];
    let before = [
        GateState::Pending,
        GateState::Pending,
        GateState::Checked,
        GateState::Checked,
        GateState::Checked,
        GateState::Pending,
        GateState::Pending,
    ];
    let after = [
        GateState::Pending,
        GateState::Checked,
        GateState::Checked,
        GateState::Checked,
        GateState::Pending,
        GateState::Pending,
        GateState::Checked,
    ];
    let alerts = [false, true, false, false, false, false, true];
    let mut gate = DailyCheckGate::new();
    for i in 0..hours.len() {
        assert_eq!(gate.state(), before[i]);
        let alert = gate.check_at_hour(hours[i], &dark_day(), &config());
        assert_eq!(gate.state(), after[i]);
        assert_eq!(alert.is_some(), alerts[i]);
    }
}

#[test]
fn one_alert_between_two_midnights() {
    let mut gate = DailyCheckGate::new();
    let mut alerts = 0;
    for hour in [1u32, 12, 12, 12, 13, 23, 12, 5, 12] {
        if gate.check_at_hour(hour, &dark_day(), &config()).is_some() {
            alerts += 1;
        }
    }
    assert_eq!(alerts, 1);
    assert_eq!(gate.state(), GateState::Checked);
}

#[test]
fn zero_at_midday_raises_the_alert_once() {
    let mut gate = DailyCheckGate::new();
    assert_eq!(gate.check_at_hour(12, &dark_day(), &config()), Some(expected_alert()));
    assert_eq!(gate.state(), GateState::Checked);
    assert_eq!(gate.check_at_hour(12, &dark_day(), &config()), None);
    assert_eq!(gate.state(), GateState::Checked);
}

#[test]
fn negative_zero_at_midday_raises_the_alert() {
    let mut gate = DailyCheckGate::new();
    let day = series(vec![sample("2024-05-01T12:00:00+02:00", Some(-0.0))]);
    assert_eq!(gate.check_at_hour(12, &day, &config()), Some(expected_alert()));
}

#[test]
fn absent_value_at_midday_raises_nothing_but_checks() {
    let mut gate = DailyCheckGate::new();
    let day = series(vec![sample("2024-05-01T12:00:00+02:00", None)]);
    assert_eq!(gate.check_at_hour(12, &day, &config()), None);
    assert_eq!(gate.state(), GateState::Checked);
}

#[test]
fn nonzero_value_at_midday_raises_nothing_but_checks() {
    let mut gate = DailyCheckGate::new();
    let day = series(vec![sample("2024-05-01T12:00:00+02:00", Some(0.25))]);
    assert_eq!(gate.check_at_hour(12, &day, &config()), None);
    assert_eq!(gate.state(), GateState::Checked);
}

#[test]
fn missing_midday_sample_raises_nothing_but_checks() {
    let mut gate = DailyCheckGate::new();
    let day = series(vec![
        sample("2024-05-01T11:45:00+02:00", Some(0.0)),
        sample("2024-05-01T12:15:00+02:00", Some(0.0)),
    ]);
    assert_eq!(gate.check_at_hour(12, &day, &config()), None);
    assert_eq!(gate.state(), GateState::Checked);
    let mut gate = DailyCheckGate::new();
    assert_eq!(gate.check_at_hour(12, &EnergySeries::empty(), &config()), None);
    assert_eq!(gate.state(), GateState::Checked);
}

#[test]
fn timestamp_that_was_not_normalized_is_no_midday_sample() {
    let mut gate = DailyCheckGate::new();
    let day = series(vec![sample("2024-05-01 12:00:00", Some(0.0))]);
    assert_eq!(gate.check_at_hour(12, &day, &config()), None);
}

#[test]
fn first_midday_sample_decides() {
    let nonzero_first = series(vec![
        sample("2024-05-01T12:00:00+02:00", Some(7.0)),
        sample("2024-05-02T12:00:00+02:00", Some(0.0)),
    ]);
    assert!(!midday_is_zero(&nonzero_first));
    let absent_first = series(vec![
        sample("2024-05-01T12:00:00+02:00", None),
        sample("2024-05-02T12:00:00+02:00", Some(0.0)),
    ]);
    assert!(!midday_is_zero(&absent_first));
    let zero_first = series(vec![
        sample("2024-05-01T00:00:00+02:00", Some(1.0)),
        sample("2024-05-01T12:00:00+02:00", Some(0.0)),
        sample("2024-05-02T12:00:00+02:00", Some(9.0)),
    ]);
    assert!(midday_is_zero(&zero_first));
}

#[test]
fn zero_outside_the_check_hour_raises_nothing() {
    for hour in 0u32..30 {
        if hour == 12 {
            continue;
        }
        let mut gate = DailyCheckGate::new();
        assert_eq!(gate.check_at_hour(hour, &dark_day(), &config()), None);
        assert_eq!(gate.state(), GateState::Pending);
    }
}

#[test]
fn checked_gate_resets_in_hour_zero_only() {
    for hour in 0u32..30 {
        let mut gate = DailyCheckGate::new();
        gate.check_at_hour(12, &dark_day(), &config());
        assert_eq!(gate.state(), GateState::Checked);
        assert_eq!(gate.check_at_hour(hour, &dark_day(), &config()), None);
        let expected = if hour == 0 { GateState::Pending } else { GateState::Checked };
        assert_eq!(gate.state(), expected);
    }
}

#[test]
fn skipped_reset_keeps_the_gate_checked_the_next_day() {
    let mut gate = DailyCheckGate::new();
    assert!(gate.check_at_hour(12, &dark_day(), &config()).is_some());
    assert!(gate.check_at_hour(23, &dark_day(), &config()).is_none());
    assert!(gate.check_at_hour(1, &dark_day(), &config()).is_none());
    assert!(gate.check_at_hour(12, &dark_day(), &config()).is_none());
    assert_eq!(gate.state(), GateState::Checked);
}

#[test]
fn maybe_check_reads_the_hour_of_the_instant() {
    let noon = Timestamp { secs: 1_714_564_800, nanos: 0 };
    let before_noon = Timestamp { secs: 1_714_564_799, nanos: 0 };
    let midnight = Timestamp { secs: 1_714_608_000, nanos: 0 };
    let mut gate = DailyCheckGate::new();
    assert_eq!(gate.maybe_check(&before_noon, &dark_day(), &config()), None);
    assert_eq!(gate.state(), GateState::Pending);
    assert_eq!(gate.maybe_check(&noon, &dark_day(), &config()), Some(expected_alert()));
    assert_eq!(gate.state(), GateState::Checked);
    assert_eq!(gate.maybe_check(&noon, &dark_day(), &config()), None);
    assert_eq!(gate.maybe_check(&midnight, &dark_day(), &config()), None);
    assert_eq!(gate.state(), GateState::Pending);
}

#[test]
fn alert_carries_recipient_key_and_message() {
    assert_eq!(alert_request(&config()), expected_alert());
    let other = Config {
        site_id: String::new(),
        telemetry_api_key: String::new(),
        notifier_user: "someone".to_string(),
        notifier_token: "secret".to_string(),
    };
    let alert = alert_request(&other);
    assert_eq!(alert.user, "someone");
    assert_eq!(alert.token, "secret");
    assert_eq!(alert.message, "No energy measured on the solar panels");
    assert_eq!(alert.url, "https://api.pushover.net/1/messages.json");
}
