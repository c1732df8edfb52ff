use vstd::prelude::*;

verus! {

/// The probability one. Probabilities and thresholds are whole numbers of
/// millionths: `500_000` is one half.
pub const PROBABILITY_ONE: u32 = 1_000_000;

/// The sample rates that the scoring sessions accept.
#[derive(Debug, Clone, Copy, PartialEq, Eq, Structural)]
pub enum SampleRate {
    EightKHz,
    SixteenKHz,
}

impl SampleRate {
    /// Samples per second.
    pub open spec fn hz(self) -> int {
        match self {
            SampleRate::EightKHz => 8000,
            SampleRate::SixteenKHz => 16000,
        }
    }

    /// The rate with `value` samples per second, if there is one.
    pub open spec fn of_hz(value: int) -> Option<SampleRate> {
        if value == 8000 {
            Some(SampleRate::EightKHz)
        } else if value == 16000 {
            Some(SampleRate::SixteenKHz)
        } else {
            None
        }
    }

    /// Looks a rate up by its number of samples per second. Any number other
    /// than 8000 and 16000 is unsupported and gives `None`.
    pub fn from_hz(value: usize) -> (rate: Option<SampleRate>)
        ensures
            rate == Self::of_hz(value as int),
    {
        if value == 8000 {
            Some(SampleRate::EightKHz)
        } else if value == 16000 {
            Some(SampleRate::SixteenKHz)
        } else {
            None
        }
    }
}

impl From<SampleRate> for i64 {
    fn from(value: SampleRate) -> (hz: i64) {
        match value {
            SampleRate::EightKHz => 8000,
            SampleRate::SixteenKHz => 16000,
        }
    }
}

impl vstd::std_specs::convert::FromSpecImpl<SampleRate> for i64 {
    open spec fn obeys_from_spec() -> bool {
        true
    }

    open spec fn from_spec(value: SampleRate) -> i64 {
        value.hz() as i64
    }
}

impl From<SampleRate> for usize {
    fn from(value: SampleRate) -> (hz: usize) {
        match value {
            SampleRate::EightKHz => 8000,
            SampleRate::SixteenKHz => 16000,
        }
    }
}

impl vstd::std_specs::convert::FromSpecImpl<SampleRate> for usize {
    open spec fn obeys_from_spec() -> bool {
        true
    }

    open spec fn from_spec(value: SampleRate) -> usize {
        value.hz() as usize
    }
}

/// What a caller configures. Durations are whole milliseconds, the threshold
/// is a probability in millionths, and `sample_rate` is in samples per second.
#[derive(Debug, Clone, Copy)]
pub struct VadParams {
    /// Length of one scored frame, in milliseconds.
    pub frame_size: usize,
    /// A frame whose probability is above this counts as speech.
    pub threshold: u32,
    /// How long the silence after a speech must last before the speech is closed.
    pub min_silence_duration_ms: usize,
    /// Padding that callers may put around a reported speech. The segmenter
    /// only takes it off the longest speech length; it never moves a boundary.
    pub speech_pad_ms: usize,
    /// A speech that is closed by silence is reported only if it is longer than this.
    pub min_speech_duration_ms: usize,
    /// The longest speech before a split is forced; `None` puts no limit on it.
    pub max_speech_duration_ms: Option<usize>,
    pub sample_rate: usize,
}

impl VadParams {
    /// The configuration that `default()` returns.
    pub open spec fn standard() -> VadParams {
        VadParams {
            frame_size: 64,
            threshold: 500_000,
            min_silence_duration_ms: 0,
            speech_pad_ms: 64,
            min_speech_duration_ms: 64,
            max_speech_duration_ms: None,
            sample_rate: 16000,
        }
    }
}

impl Default for VadParams {
    fn default() -> (params: VadParams)
        ensures
            params == VadParams::standard(),
    {
        VadParams {
            frame_size: 64,
            threshold: 500_000,
            min_silence_duration_ms: 0,
            speech_pad_ms: 64,
            min_speech_duration_ms: 64,
            max_speech_duration_ms: None,
            sample_rate: 16000,
        }
    }
}

/// A stretch of the stream between two sample positions.
pub struct SampleSpan {
    pub start: int,
    pub end: int,
}

/// A stretch of time: it lasts from `start / sample_rate` seconds to
/// `end / sample_rate` seconds.
pub struct TimeSpan {
    pub start: int,
    pub end: int,
    pub sample_rate: int,
}

/// Whether sample `a` of a stream at `rate_a` samples per second and sample
/// `b` of a stream at `rate_b` fall on the same instant: `a / rate_a` and
/// `b / rate_b` are the same number of seconds.
pub open spec fn same_instant(a: int, rate_a: int, b: int, rate_b: int) -> bool {
    a * rate_b == b * rate_a
}

impl SampleSpan {
    /// The stretch of time that these samples cover at `sample_rate` samples per second.
    pub open spec fn at_rate(self, sample_rate: int) -> TimeSpan {
        TimeSpan { start: self.start, end: self.end, sample_rate }
    }
}

impl TimeSpan {
    /// Whether `self` ends at the very instant at which `next` starts.
    pub open spec fn meets(self, next: TimeSpan) -> bool {
        same_instant(self.end, self.sample_rate, next.start, next.sample_rate)
    }
}

/// Start and end of a speech, counted in samples.
#[derive(Debug, Default, Clone, Copy)]
pub struct FrameStamp {
    pub start: i64,
    pub end: i64,
}

impl View for FrameStamp {
    type V = SampleSpan;

    open spec fn view(&self) -> SampleSpan {
        SampleSpan { start: self.start as int, end: self.end as int }
    }
}

impl FrameStamp {
    /// Puts the stamp on the time axis of a stream with `sample_rate` samples per second.
    pub fn to_timestamp(&self, sample_rate: usize) -> (stamp: TimeStamp)
        ensures
            stamp@ == self@.at_rate(sample_rate as int),
    {
        TimeStamp { start: self.start, end: self.end, sample_rate }
    }
}

/// Start and end of a speech in time. Both are exact: the speech starts
/// `start / sample_rate` seconds into the stream and ends at `end / sample_rate`.
#[derive(Debug, Default, Clone, Copy)]
pub struct TimeStamp {
    pub start: i64,
    pub end: i64,
    pub sample_rate: usize,
}

impl View for TimeStamp {
    type V = TimeSpan;

    open spec fn view(&self) -> TimeSpan {
        TimeSpan { start: self.start as int, end: self.end as int, sample_rate: self.sample_rate as int }
    }
}

/// The stretches of time that a list of stamps stands for.
pub open spec fn time_spans(stamps: Seq<TimeStamp>) -> Seq<TimeSpan> {
    Seq::new(stamps.len(), |i: int| stamps[i]@)
}

/// Two samples of one stream fall on the same instant only if they are the same sample.
pub proof fn lemma_same_instant_same_sample(a: int, b: int, sample_rate: int)
    requires
        sample_rate > 0,
    ensures
        same_instant(a, sample_rate, b, sample_rate) <==> a == b,
{
    assert(a * sample_rate == b * sample_rate <==> a == b) by (nonlinear_arith)
        requires
            sample_rate > 0,
    ;
}

} // verus!
