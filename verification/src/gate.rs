//! The daily check: once a day, in the hour of noon, look whether the
//! panels delivered anything at midday, and raise an alert if they did not.
//!
//! The latch has no clock of its own. It is asked on every request, with the
//! hour at which the request arrived, and moves only in two hours of the
//! day: in hour 12 from pending to checked, in hour 0 back to pending. A day
//! on which no request arrives in hour 12 has no check, and a day on which
//! none arrives in hour 0 has no reset.

use vstd::prelude::*;

use crate::alert::{alert_for, alert_request, AlertRequest};
use crate::config::{Config, ConfigView};
use crate::series::{
    normalized_series, normalized_timestamp, EnergySeries, SampleView, SeriesView,
};
use crate::text::ends_with;
use crate::time::Timestamp;

verus! {

/// The hour of the day in which the check runs.
pub const CHECK_HOUR: u32 = 12;

/// The hour of the day in which the latch opens again.
pub const RESET_HOUR: u32 = 0;

/// How the normalized timestamp of the midday sample ends.
pub open spec fn midday_suffix() -> Seq<char> {
    "12:00:00+02:00"@
}

/// Whether the check of the day is still to come.
#[derive(Clone, Copy, Debug, PartialEq, Eq, Structural)]
pub enum GateState {
    /// Not checked yet today.
    Pending,
    /// Checked today.
    Checked,
}

/// The state of the daily check.
#[derive(Debug)]
pub struct DailyCheckGate {
    state: GateState,
}

/// Whether a timestamp is that of a midday sample.
pub open spec fn is_midday(timestamp: Seq<char>) -> bool {
    midday_suffix().is_suffix_of(timestamp)
}

/// Whether the sample at `i` is the first midday sample of `samples`.
pub open spec fn is_first_midday(samples: Seq<SampleView>, i: int) -> bool {
    &&& 0 <= i < samples.len()
    &&& is_midday(samples[i].timestamp)
    &&& forall|j: int| 0 <= j < i ==> !is_midday((#[trigger] samples[j]).timestamp)
}

/// Whether the series reports that nothing was produced at midday: its first
/// midday sample has a reading, and the reading is zero.
pub open spec fn midday_output_is_zero(series: SeriesView) -> bool {
    exists|i: int|
        #![trigger series.samples[i]]
        {
            &&& is_first_midday(series.samples, i)
            &&& series.samples[i].value matches Some(reading)
            &&& reading.is_zero()
        }
}

/// The state after a request in the hour `hour`.
pub open spec fn next_state(state: GateState, hour: int) -> GateState {
    match state {
        GateState::Pending => if hour == CHECK_HOUR {
            GateState::Checked
        } else {
            GateState::Pending
        },
        GateState::Checked => if hour == RESET_HOUR {
            GateState::Pending
        } else {
            GateState::Checked
        },
    }
}

/// Whether a request in the hour `hour` runs the check of the day.
pub open spec fn check_runs(state: GateState, hour: int) -> bool {
    state == GateState::Pending && hour == CHECK_HOUR
}

/// Whether a request in the hour `hour`, answered with `series`, raises the
/// alert.
pub open spec fn alert_due(state: GateState, hour: int, series: SeriesView) -> bool {
    check_runs(state, hour) && midday_output_is_zero(series)
}

/// Whether the first midday sample of the series has a reading of zero.
pub fn midday_is_zero(series: &EnergySeries) -> (zero: bool)
    ensures
        zero == midday_output_is_zero(series@),
{
    let mut i: usize = 0;
    while i < series.samples.len()
        invariant
            i <= series.samples.len(),
            forall|j: int| 0 <= j < i ==> !is_midday((#[trigger] series@.samples[j]).timestamp),
        decreases series.samples.len() - i,
    {
        if ends_with(series.samples[i].timestamp.as_str(), "12:00:00+02:00") {
            assert(is_first_midday(series@.samples, i as int));
            let zero = match series.samples[i].value {
                Some(reading) => reading.reads_zero(),
                None => false,
            };
            assert forall|k: int| is_first_midday(series@.samples, k) implies k == i by {
                if k < i {
                    assert(!is_midday(series@.samples[k].timestamp));
                }
                if k > i {
                    assert(!is_midday(series@.samples[i as int].timestamp));
                }
            }
            return zero;
        }
        i += 1;
    }
    false
}

impl View for DailyCheckGate {
    type V = GateState;

    closed spec fn view(&self) -> GateState {
        self.state
    }
}

impl DailyCheckGate {
    /// A latch whose check is still to come.
    pub fn new() -> (gate: DailyCheckGate)
        ensures
            gate@ == GateState::Pending,
    {
        DailyCheckGate { state: GateState::Pending }
    }

    /// The current state.
    pub fn state(&self) -> (state: GateState)
        ensures
            state == self@,
    {
        self.state
    }

    /// Takes in a request that arrived in the hour `hour` of the day and was
    /// answered with `series`. The latch moves as `next_state` says. The
    /// result is the alert to send, present exactly when this request ran
    /// the check of the day and the series reports no output at midday. The
    /// state has moved whether or not the alert can then be delivered.
    pub fn check_at_hour(&mut self, hour: u32, series: &EnergySeries, config: &Config) -> (alert:
        Option<AlertRequest>)
        ensures
            final(self)@ == next_state(old(self)@, hour as int),
            alert is Some == alert_due(old(self)@, hour as int, series@),
            alert matches Some(request) ==> request@ == alert_for(config@),
    {
        match self.state {
            GateState::Pending => {
                if hour == CHECK_HOUR {
                    self.state = GateState::Checked;
                    if midday_is_zero(series) {
                        return Some(alert_request(config));
                    }
                }
                None
            },
            GateState::Checked => {
                if hour == RESET_HOUR {
                    self.state = GateState::Pending;
                }
                None
            },
        }
    }

    /// Takes in a request that arrived at `now`: `check_at_hour` with the
    /// hour of the UTC day in which `now` falls.
    pub fn maybe_check(&mut self, now: &Timestamp, series: &EnergySeries, config: &Config) -> (alert:
        Option<AlertRequest>)
        requires
            now.wf(),
        ensures
            final(self)@ == next_state(old(self)@, now.hour()),
            alert is Some == alert_due(old(self)@, now.hour(), series@),
            alert matches Some(request) ==> request@ == alert_for(config@),
    {
        self.check_at_hour(now.utc_hour(), series, config)
    }
}

/// The state after a run of requests that arrived in the hours `hours`, one
/// after the other.
pub open spec fn state_after(start: GateState, hours: Seq<int>) -> GateState
    decreases hours.len(),
{
    if hours.len() == 0 {
        start
    } else {
        next_state(state_after(start, hours.drop_last()), hours.last())
    }
}

/// How many requests of a run ran the check of the day.
pub open spec fn checks_in(start: GateState, hours: Seq<int>) -> nat
    decreases hours.len(),
{
    if hours.len() == 0 {
        0
    } else {
        let earlier = checks_in(start, hours.drop_last());
        if check_runs(state_after(start, hours.drop_last()), hours.last()) {
            earlier + 1
        } else {
            earlier
        }
    }
}

/// The latch moves in two ways only: from pending to checked on a request in
/// hour 12, and from checked to pending on a request in hour 0. The alert is
/// raised only by a request that moves the latch from pending to checked, so
/// never by a request that finds it checked.
pub proof fn law_gate_moves(state: GateState, hour: int, series: SeriesView)
    ensures
        next_state(state, hour) != state ==> (state == GateState::Pending && hour == CHECK_HOUR)
            || (state == GateState::Checked && hour == RESET_HOUR),
        alert_due(state, hour, series) ==> state == GateState::Pending && next_state(state, hour)
            == GateState::Checked,
        state == GateState::Checked ==> !alert_due(state, hour, series),
{
}

/// Between two midnights the check runs at most once: in a run of requests
/// of which none arrived in hour 0, at most one ran the check, and none did
/// if the state was checked at the start.
pub proof fn law_one_check_per_day(start: GateState, hours: Seq<int>)
    requires
        forall|i: int| 0 <= i < hours.len() ==> hours[i] != RESET_HOUR,
    ensures
        checks_in(start, hours) <= 1,
        start == GateState::Checked ==> checks_in(start, hours) == 0,
        checks_in(start, hours) == 1 || start == GateState::Checked ==> state_after(start, hours)
            == GateState::Checked,
    decreases hours.len(),
{
    if hours.len() > 0 {
        let earlier = hours.drop_last();
        assert forall|i: int| 0 <= i < earlier.len() implies earlier[i] != RESET_HOUR by {
            assert(earlier[i] == hours[i]);
        }
        law_one_check_per_day(start, earlier);
        assert(hours.last() == hours[hours.len() - 1]);
    }
}

/// A pending latch asked in hour 12 raises the alert if the first midday
/// sample of the series reads zero, whatever the samples after it hold.
pub proof fn law_alert_on_zero_midday(series: SeriesView, i: int)
    requires
        0 <= i < series.samples.len(),
        is_midday(series.samples[i].timestamp),
        forall|j: int| 0 <= j < i ==> !is_midday((#[trigger] series.samples[j]).timestamp),
        series.samples[i].value matches Some(reading) && reading.is_zero(),
    ensures
        alert_due(GateState::Pending, CHECK_HOUR as int, series),
{
    assert(is_first_midday(series.samples, i));
}

/// No alert is raised for a series without a midday sample, nor for one
/// whose first midday sample has no reading or a reading other than zero.
pub proof fn law_no_alert_otherwise(state: GateState, hour: int, series: SeriesView)
    requires
        (forall|j: int|
            0 <= j < series.samples.len() ==> !is_midday((#[trigger] series.samples[j]).timestamp))
            || (exists|i: int|
            #![trigger series.samples[i]]
            is_first_midday(series.samples, i) && !(series.samples[i].value matches Some(reading)
                && reading.is_zero())),
    ensures
        !alert_due(state, hour, series),
{
    if midday_output_is_zero(series) {
        let k = choose|k: int|
            #![trigger series.samples[k]]
            is_first_midday(series.samples, k) && (series.samples[k].value matches Some(reading)
                && reading.is_zero());
        assert(is_midday(series.samples[k].timestamp));
        if exists|i: int|
            #![trigger series.samples[i]]
            is_first_midday(series.samples, i) && !(series.samples[i].value matches Some(reading)
                && reading.is_zero()) {
            let i = choose|i: int|
                #![trigger series.samples[i]]
                is_first_midday(series.samples, i) && !(series.samples[i].value matches Some(
                    reading,
                ) && reading.is_zero());
            if i < k {
                assert(!is_midday(series.samples[i].timestamp));
            }
            if k < i {
                assert(!is_midday(series.samples[k].timestamp));
            }
            assert(i == k);
        }
    }
}

/// How the service stamps the midday sample, before normalization.
pub open spec fn raw_midday_suffix() -> Seq<char> {
    "12:00:00"@
}

/// Normalization and the daily check agree on which sample is the midday
/// sample: a normalized timestamp is that of a midday sample exactly when the
/// service stamped it with the time `12:00:00`.
pub proof fn law_midday_after_normalization(raw: Seq<char>)
    ensures
        is_midday(normalized_timestamp(raw)) == raw_midday_suffix().is_suffix_of(raw),
{
    reveal_strlit("12:00:00");
    reveal_strlit("+02:00");
    reveal_strlit("12:00:00+02:00");
    let out = normalized_timestamp(raw);
    let n = raw.len() as int;
    assert(out.len() == n + 6);
    assert forall|k: int| 8 <= k < 14 implies out[n - 8 + k] == #[trigger] midday_suffix()[k] by {
        assert(out[n - 8 + k] == "+02:00"@[k - 8]);
    }
    if is_midday(out) {
        let tail = out.subrange(out.len() - 14, out.len() as int);
        assert(tail == midday_suffix());
        assert(n >= 8);
        assert forall|k: int| 0 <= k < 8 implies raw[n - 8 + k] == raw_midday_suffix()[k] by {
            assert(tail[k] == out[n - 8 + k]);
            assert(tail[k] == midday_suffix()[k]);
        }
        assert(raw.subrange(n - 8, n) =~= raw_midday_suffix());
    }
    if raw_midday_suffix().is_suffix_of(raw) {
        let tail = raw.subrange(n - 8, n);
        assert(tail == raw_midday_suffix());
        assert forall|k: int| 0 <= k < 14 implies out[n - 8 + k] == midday_suffix()[k] by {
            if k < 8 {
                assert(tail[k] == raw[n - 8 + k]);
                assert(tail[k] == raw_midday_suffix()[k]);
            }
        }
        assert(out.subrange(out.len() - 14, out.len() as int) =~= midday_suffix());
    }
}

/// From the service to the alert: if the first sample that the service
/// stamped `12:00:00` reads zero, then a pending check asked in hour 12 about
/// the normalized series raises the alert.
pub proof fn law_dark_noon_alerts(raw: SeriesView, i: int)
    requires
        0 <= i < raw.samples.len(),
        raw_midday_suffix().is_suffix_of(raw.samples[i].timestamp),
        forall|j: int|
            0 <= j < i ==> !raw_midday_suffix().is_suffix_of((#[trigger] raw.samples[j]).timestamp),
        raw.samples[i].value matches Some(reading) && reading.is_zero(),
    ensures
        alert_due(GateState::Pending, CHECK_HOUR as int, normalized_series(raw)),
{
    let series = normalized_series(raw);
    assert forall|j: int| 0 <= j <= i implies is_midday((#[trigger] series.samples[j]).timestamp)
        == (j == i) by {
        law_midday_after_normalization(raw.samples[j].timestamp);
    }
    law_alert_on_zero_midday(series, i);
}

} // verus!
