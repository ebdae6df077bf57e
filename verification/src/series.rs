//! The energy series: one day of production samples, and the rewriting of
//! their timestamps into ISO-8601 form with a fixed offset.

use vstd::prelude::*;

use crate::text::chars_of;

verus! {

/// The offset suffix that every normalized timestamp carries.
pub open spec fn offset_suffix() -> Seq<char> {
    "+02:00"@
}

/// One measured amount of energy, kept as the bit pattern of the
/// single-precision number in which the monitoring service reports it.
#[derive(Clone, Copy, Debug, PartialEq, Eq)]
pub struct Reading {
    pub bits: u32,
}

impl Reading {
    /// A reading is zero when it is positive or negative zero: all bits
    /// clear, or the sign bit alone set.
    pub open spec fn is_zero(&self) -> bool {
        self.bits == 0 || self.bits == 0x8000_0000
    }

    /// Whether the reading is zero.
    pub fn reads_zero(&self) -> (b: bool)
        ensures
            b == self.is_zero(),
    {
        self.bits == 0 || self.bits == 0x8000_0000
    }
}

/// What a sample is, mathematically.
pub struct SampleView {
    pub timestamp: Seq<char>,
    pub value: Option<Reading>,
}

/// What a series is, mathematically.
pub struct SeriesView {
    pub time_unit: Seq<char>,
    pub unit: Seq<char>,
    pub samples: Seq<SampleView>,
}

/// One slot of the day. `value` is absent when the service has no reading
/// for the slot.
#[derive(Debug, PartialEq)]
pub struct EnergySample {
    pub timestamp: String,
    pub value: Option<Reading>,
}

/// The samples of one day in the order in which the service sent them.
#[derive(Debug, PartialEq)]
pub struct EnergySeries {
    pub time_unit: String,
    pub unit: String,
    pub samples: Vec<EnergySample>,
}

impl View for EnergySample {
    type V = SampleView;

    open spec fn view(&self) -> SampleView {
        SampleView { timestamp: self.timestamp@, value: self.value }
    }
}

impl View for EnergySeries {
    type V = SeriesView;

    open spec fn view(&self) -> SeriesView {
        SeriesView {
            time_unit: self.time_unit@,
            unit: self.unit@,
            samples: self.samples@.map_values(|s: EnergySample| s@),
        }
    }
}

impl Clone for EnergySample {
    fn clone(&self) -> (out: Self)
        ensures
            out@ == self@,
    {
        EnergySample { timestamp: self.timestamp.clone(), value: self.value }
    }
}

impl Clone for EnergySeries {
    fn clone(&self) -> (out: Self)
        ensures
            out@ == self@,
    {
        let mut samples: Vec<EnergySample> = Vec::new();
        let mut i: usize = 0;
        while i < self.samples.len()
            invariant
                i <= self.samples.len(),
                samples@.len() == i,
                forall|k: int| 0 <= k < i ==> (#[trigger] samples@[k])@ == self.samples@[k]@,
            decreases self.samples.len() - i,
        {
            samples.push(self.samples[i].clone());
            i += 1;
        }
        let out = EnergySeries {
            time_unit: self.time_unit.clone(),
            unit: self.unit.clone(),
            samples,
        };
        assert(out@.samples =~= self@.samples);
        out
    }
}

/// The normalized form of a timestamp: every space becomes `T`, and the
/// offset suffix is appended.
pub open spec fn normalized_timestamp(raw: Seq<char>) -> Seq<char> {
    raw.map_values(|c: char| if c == ' ' { 'T' } else { c }) + offset_suffix()
}

/// A sample with its timestamp normalized and its value untouched.
pub open spec fn normalized_sample(raw: SampleView) -> SampleView {
    SampleView { timestamp: normalized_timestamp(raw.timestamp), value: raw.value }
}

/// A series with each sample normalized on its own, in the same order.
pub open spec fn normalized_series(raw: SeriesView) -> SeriesView {
    SeriesView {
        time_unit: raw.time_unit,
        unit: raw.unit,
        samples: raw.samples.map_values(|s: SampleView| normalized_sample(s)),
    }
}

/// Whether a timestamp has the normalized form: it ends with the offset
/// suffix and holds no space.
pub open spec fn is_normalized_timestamp(timestamp: Seq<char>) -> bool {
    offset_suffix().is_suffix_of(timestamp) && !timestamp.contains(' ')
}

/// Whether every timestamp of a series has the normalized form.
pub open spec fn is_normalized_series(series: SeriesView) -> bool {
    forall|i: int|
        0 <= i < series.samples.len() ==> is_normalized_timestamp(
            (#[trigger] series.samples[i]).timestamp,
        )
}

/// Rewrites a timestamp as the service sends it (`2024-05-01 12:00:00`)
/// into ISO-8601 form with the fixed offset (`2024-05-01T12:00:00+02:00`).
pub fn normalize_timestamp(raw: &str) -> (out: String)
    ensures
        out@ == normalized_timestamp(raw@),
{
    let chars = chars_of(raw);
    let ghost mapped = raw@.map_values(|c: char| if c == ' ' { 'T' } else { c });
    let mut out = String::new();
    let mut i: usize = 0;
    while i < chars.len()
        invariant
            i <= chars.len(),
            chars@ == raw@,
            mapped == raw@.map_values(|c: char| if c == ' ' { 'T' } else { c }),
            out@ == mapped.take(i as int),
        decreases chars.len() - i,
    {
        let c = chars[i];
        if c == ' ' {
            out.push('T');
        } else {
            out.push(c);
        }
        i += 1;
        assert(mapped.take(i as int) =~= mapped.take(i - 1).push(mapped[i - 1]));
    }
    assert(mapped.take(chars.len() as int) =~= mapped);
    out.push('+');
    out.push('0');
    out.push('2');
    out.push(':');
    out.push('0');
    out.push('0');
    proof {
        reveal_strlit("+02:00");
        assert(offset_suffix() =~= seq!['+', '0', '2', ':', '0', '0']);
        assert(out@ =~= mapped + offset_suffix());
    }
    out
}

/// Normalizes the timestamp of one sample.
pub fn normalize_sample(raw: &EnergySample) -> (out: EnergySample)
    ensures
        out@ == normalized_sample(raw@),
{
    EnergySample { timestamp: normalize_timestamp(raw.timestamp.as_str()), value: raw.value }
}

/// Normalizes every sample of a series, keeping their order.
pub fn normalize_series(raw: &EnergySeries) -> (out: EnergySeries)
    ensures
        out@ == normalized_series(raw@),
{
    let mut samples: Vec<EnergySample> = Vec::new();
    let mut i: usize = 0;
    while i < raw.samples.len()
        invariant
            i <= raw.samples.len(),
            samples@.len() == i,
            forall|k: int|
                0 <= k < i ==> (#[trigger] samples@[k])@ == normalized_sample(raw.samples@[k]@),
        decreases raw.samples.len() - i,
    {
        samples.push(normalize_sample(&raw.samples[i]));
        i += 1;
    }
    let out = EnergySeries {
        time_unit: raw.time_unit.clone(),
        unit: raw.unit.clone(),
        samples,
    };
    assert(out@.samples =~= normalized_series(raw@).samples);
    out
}

/// Normalizing a timestamp lengthens it by the six characters of the offset
/// suffix, changes spaces to `T` and nothing else, and gives a timestamp of
/// the normalized form.
pub proof fn law_normalized_timestamp_shape(raw: Seq<char>)
    ensures
        normalized_timestamp(raw).len() == raw.len() + 6,
        forall|i: int|
            0 <= i < raw.len() ==> #[trigger] normalized_timestamp(raw)[i] == if raw[i] == ' ' {
                'T'
            } else {
                raw[i]
            },
        normalized_timestamp(raw).skip(raw.len() as int) == offset_suffix(),
        is_normalized_timestamp(normalized_timestamp(raw)),
{
    reveal_strlit("+02:00");
    let out = normalized_timestamp(raw);
    assert(offset_suffix().len() == 6);
    assert(out.skip(raw.len() as int) =~= offset_suffix());
    assert(out.subrange(out.len() - 6, out.len() as int) =~= offset_suffix());
    assert forall|i: int| 0 <= i < out.len() implies out[i] != ' ' by {
        if i >= raw.len() {
            assert(out[i] == offset_suffix()[i - raw.len()]);
        }
    }
}

/// Normalizing a series keeps its units, the number of its samples and their
/// order; the sample at each place is the normalized form of the sample that
/// stood there, whatever the other samples are. The result is a normalized
/// series.
pub proof fn law_normalization_is_samplewise(raw: SeriesView)
    ensures
        normalized_series(raw).time_unit == raw.time_unit,
        normalized_series(raw).unit == raw.unit,
        normalized_series(raw).samples.len() == raw.samples.len(),
        forall|i: int|
            0 <= i < raw.samples.len() ==> #[trigger] normalized_series(raw).samples[i]
                == normalized_sample(raw.samples[i]),
        is_normalized_series(normalized_series(raw)),
{
    assert forall|i: int| 0 <= i < raw.samples.len() implies is_normalized_timestamp(
        (#[trigger] normalized_series(raw).samples[i]).timestamp,
    ) by {
        law_normalized_timestamp_shape(raw.samples[i].timestamp);
    }
}

/// The series that a cache holds before anything was fetched: no units and
/// no samples.
pub open spec fn empty_series() -> SeriesView {
    SeriesView { time_unit: Seq::empty(), unit: Seq::empty(), samples: Seq::empty() }
}

impl EnergySeries {
    /// The series without units and without samples.
    pub fn empty() -> (out: EnergySeries)
        ensures
            out@ == empty_series(),
    {
        let out = EnergySeries { time_unit: String::new(), unit: String::new(), samples: Vec::new() };
        assert(out@.samples =~= Seq::<SampleView>::empty());
        out
    }
}

} // verus!
