use vstd::prelude::*;

use crate::utils::FrameStamp;
use crate::utils::SampleSpan;
use crate::utils::TimeSpan;
use crate::utils::TimeStamp;
use crate::utils::VadParams;
use crate::utils::time_spans;

verus! {

/// How far below the threshold a probability must fall before a frame counts
/// as silence, in millionths.
pub const HYSTERESIS: u32 = 150_000;

/// The silence, in milliseconds, after which the end of a speech is
/// remembered as a place to split a speech that has grown too long.
pub const SPLIT_SILENCE_MS: usize = 98;

impl VadParams {
    /// Samples in one millisecond.
    pub open spec fn sr_per_ms(self) -> int {
        self.sample_rate as int / 1000
    }

    /// Samples in one frame.
    pub open spec fn frame_size_samples(self) -> int {
        self.frame_size * self.sr_per_ms()
    }

    pub open spec fn min_speech_samples(self) -> int {
        self.sr_per_ms() * self.min_speech_duration_ms
    }

    pub open spec fn speech_pad_samples(self) -> int {
        self.sr_per_ms() * self.speech_pad_ms
    }

    pub open spec fn min_silence_samples(self) -> int {
        self.sr_per_ms() * self.min_silence_duration_ms
    }

    pub open spec fn split_silence_samples(self) -> int {
        self.sr_per_ms() * SPLIT_SILENCE_MS
    }

    /// The most samples a speech may hold before a split is forced: the
    /// samples of the longest duration, less one frame and the padding on
    /// both sides. A speech holds a whole number of samples, so it is above
    /// the exact limit just when it is above the limit rounded down.
    pub open spec fn max_speech_samples(self) -> Option<int> {
        match self.max_speech_duration_ms {
            None => None,
            Some(ms) => Some(
                self.sample_rate * ms / 1000 - self.frame_size_samples() - 2
                    * self.speech_pad_samples(),
            ),
        }
    }

    /// Whether every derived length fits the integer type that holds it.
    pub open spec fn derivable(self) -> bool {
        &&& self.frame_size_samples() <= usize::MAX
        &&& self.min_speech_samples() <= usize::MAX
        &&& self.speech_pad_samples() <= usize::MAX
        &&& self.min_silence_samples() <= usize::MAX
        &&& match self.max_speech_samples() {
            None => true,
            Some(limit) => i64::MIN <= limit <= i64::MAX,
        }
    }
}

/// The frames of a stream: the first `frame_size_samples` samples, the
/// next as many, and so on. Samples at the end that do not fill a frame
/// belong to none.
pub open spec fn frames_of(samples: Seq<i16>, frame_size_samples: int) -> Seq<Seq<i16>> {
    Seq::new(
        (samples.len() as int / frame_size_samples) as nat,
        |i: int| samples.subrange(i * frame_size_samples, (i + 1) * frame_size_samples),
    )
}

/// The configuration together with the lengths, in samples, that follow from it.
#[derive(Debug, Clone, Copy)]
pub struct Params {
    pub frame_size: usize,
    pub threshold: u32,
    pub min_silence_duration_ms: usize,
    pub speech_pad_ms: usize,
    pub min_speech_duration_ms: usize,
    pub max_speech_duration_ms: Option<usize>,
    pub sample_rate: usize,
    pub sr_per_ms: usize,
    pub frame_size_samples: usize,
    pub min_speech_samples: usize,
    pub speech_pad_samples: usize,
    pub max_speech_samples: Option<i64>,
    pub min_silence_samples: usize,
    pub min_silence_samples_at_max_speech: usize,
}

impl Params {
    /// The configuration that these parameters carry along.
    pub open spec fn config(self) -> VadParams {
        VadParams {
            frame_size: self.frame_size,
            threshold: self.threshold,
            min_silence_duration_ms: self.min_silence_duration_ms,
            speech_pad_ms: self.speech_pad_ms,
            min_speech_duration_ms: self.min_speech_duration_ms,
            max_speech_duration_ms: self.max_speech_duration_ms,
            sample_rate: self.sample_rate,
        }
    }

    /// Whether these are the parameters that follow from `value`.
    pub open spec fn derived_from(self, value: VadParams) -> bool {
        &&& self.config() == value
        &&& self.sr_per_ms == value.sr_per_ms()
        &&& self.frame_size_samples == value.frame_size_samples()
        &&& self.min_speech_samples == value.min_speech_samples()
        &&& self.speech_pad_samples == value.speech_pad_samples()
        &&& match self.max_speech_samples {
            None => value.max_speech_samples() is None,
            Some(limit) => value.max_speech_samples() == Some(limit as int),
        }
        &&& self.min_silence_samples == value.min_silence_samples()
        &&& self.min_silence_samples_at_max_speech == value.split_silence_samples()
    }

    /// Derives the lengths in samples, or gives `None` if one of them does
    /// not fit its integer type.
    pub fn checked_from(value: VadParams) -> (derived: Option<Params>)
        ensures
            derived is Some <==> value.derivable(),
            derived matches Some(params) ==> params.derived_from(value),
    {
        let sr_per_ms: usize = value.sample_rate / 1000;
        let frame_size_samples: usize = match value.frame_size.checked_mul(sr_per_ms) {
            Some(samples) => samples,
            None => {
                return None;
            },
        };
        let min_speech_samples: usize = match sr_per_ms.checked_mul(value.min_speech_duration_ms) {
            Some(samples) => samples,
            None => {
                return None;
            },
        };
        let speech_pad_samples: usize = match sr_per_ms.checked_mul(value.speech_pad_ms) {
            Some(samples) => samples,
            None => {
                return None;
            },
        };
        let min_silence_samples: usize = match sr_per_ms.checked_mul(value.min_silence_duration_ms) {
            Some(samples) => samples,
            None => {
                return None;
            },
        };
        let max_speech_samples: Option<i64> = match value.max_speech_duration_ms {
            None => None,
            Some(ms) => {
                assert(value.sample_rate * ms <= u128::MAX) by (nonlinear_arith)
                    requires
                        value.sample_rate <= u64::MAX,
                        ms <= u64::MAX,
                ;
                let in_thousandths: u128 = (value.sample_rate as u128) * (ms as u128);
                let whole: u128 = in_thousandths / 1000;
                let limit: i128 = whole as i128 - frame_size_samples as i128 - 2 * (
                speech_pad_samples as i128);
                if limit < i64::MIN as i128 || limit > i64::MAX as i128 {
                    return None;
                }
                Some(limit as i64)
            },
        };
        let min_silence_samples_at_max_speech: usize = sr_per_ms * SPLIT_SILENCE_MS;
        Some(
            Params {
                frame_size: value.frame_size,
                threshold: value.threshold,
                min_silence_duration_ms: value.min_silence_duration_ms,
                speech_pad_ms: value.speech_pad_ms,
                min_speech_duration_ms: value.min_speech_duration_ms,
                max_speech_duration_ms: value.max_speech_duration_ms,
                sample_rate: value.sample_rate,
                sr_per_ms,
                frame_size_samples,
                min_speech_samples,
                speech_pad_samples,
                max_speech_samples,
                min_silence_samples,
                min_silence_samples_at_max_speech,
            },
        )
    }

    /// Derives the lengths in samples from a configuration.
    pub fn from(value: VadParams) -> (params: Params)
        requires
            value.derivable(),
        ensures
            params.derived_from(value),
            params.frame_size_samples == value.frame_size * (value.sample_rate / 1000),
    {
        Params::checked_from(value).unwrap()
    }

    /// A frame with this probability is speech.
    pub open spec fn is_speech(self, speech_prob: u32) -> bool {
        speech_prob > self.threshold
    }

    /// A frame with this probability is silence: it lies more than the
    /// hysteresis below the threshold.
    pub open spec fn is_silence(self, speech_prob: u32) -> bool {
        speech_prob + HYSTERESIS < self.threshold
    }

    /// A speech that holds `length` samples is longer than a speech may be.
    pub open spec fn is_too_long(self, length: int) -> bool {
        match self.max_speech_samples {
            None => false,
            Some(limit) => length > limit,
        }
    }

    /// How many frames a stream of `total_samples` samples has.
    pub fn frame_count(&self, total_samples: usize) -> (count: usize)
        requires
            self.frame_size_samples > 0,
        ensures
            count == total_samples as int / self.frame_size_samples as int,
            count * self.frame_size_samples <= total_samples,
    {
        let count: usize = total_samples / self.frame_size_samples;
        assert(count * self.frame_size_samples <= total_samples) by (nonlinear_arith)
            requires
                count == total_samples as int / self.frame_size_samples as int,
                self.frame_size_samples > 0,
        ;
        count
    }

    /// The frame number `index` of a stream, counted from zero.
    pub fn frame<'a>(&self, samples: &'a [i16], index: usize) -> (frame: &'a [i16])
        requires
            self.frame_size_samples > 0,
            index < samples.len() as int / self.frame_size_samples as int,
        ensures
            frame@ == frames_of(samples@, self.frame_size_samples as int)[index as int],
            frame.len() == self.frame_size_samples,
    {
        assert((index + 1) * self.frame_size_samples <= samples.len() && index
            * self.frame_size_samples + self.frame_size_samples == (index + 1)
            * self.frame_size_samples && 0 <= index * self.frame_size_samples)
            by (nonlinear_arith)
            requires
                self.frame_size_samples > 0,
                0 <= index < samples.len() as int / self.frame_size_samples as int,
        ;
        let start: usize = index * self.frame_size_samples;
        vstd::slice::slice_subrange(samples, start, start + self.frame_size_samples)
    }
}

/// `a - b`, or zero where `b` is the larger.
pub open spec fn minus_or_zero(a: int, b: int) -> int {
    if a >= b {
        a - b
    } else {
        0
    }
}

/// What the segmenter knows in the middle of a stream. A marker that is zero
/// is not set.
pub struct StateView {
    /// Samples seen so far: the end of the frame that was scored last.
    pub current_sample: int,
    /// Where the silence began that may end the speech in progress.
    pub temp_end: int,
    /// Where speech resumed after the silence bookmarked in `prev_end`.
    pub next_start: int,
    /// The start of a silence long enough to split at, should the speech grow too long.
    pub prev_end: int,
    /// Whether a speech is in progress.
    pub triggered: bool,
    /// The speech in progress.
    pub current_speech: SampleSpan,
    /// The speeches reported so far, in the order in which they were closed.
    pub speeches: Seq<TimeSpan>,
    pub sample_rate: int,
}

impl StateView {
    /// The state before the first frame of a stream.
    pub open spec fn fresh(sample_rate: int) -> StateView {
        StateView {
            current_sample: 0,
            temp_end: 0,
            next_start: 0,
            prev_end: 0,
            triggered: false,
            current_speech: SampleSpan { start: 0, end: 0 },
            speeches: Seq::empty(),
            sample_rate,
        }
    }

    pub open spec fn with_speech_start(self, start: int) -> StateView {
        StateView { current_speech: SampleSpan { start, end: self.current_speech.end }, ..self }
    }

    pub open spec fn with_speech_end(self, end: int) -> StateView {
        StateView { current_speech: SampleSpan { start: self.current_speech.start, end }, ..self }
    }

    /// Reports the speech in progress and leaves an empty one in its place.
    pub open spec fn take_speech(self) -> StateView {
        StateView {
            speeches: self.speeches.push(self.current_speech.at_rate(self.sample_rate)),
            current_speech: SampleSpan { start: 0, end: 0 },
            ..self
        }
    }

    /// Clears the three markers.
    pub open spec fn reset_temporary_states(self) -> StateView {
        StateView { prev_end: 0, next_start: 0, temp_end: 0, ..self }
    }

    /// A speech frame, `frame` samples long, has just been counted. A silence
    /// that was being timed is called off; if a split point was bookmarked
    /// and speech had not resumed after it, speech resumes with this frame. A
    /// speech begins with this frame unless one is in progress.
    pub open spec fn handle_speech_start(self, frame: int) -> StateView {
        let resumed = if self.temp_end != 0 {
            StateView {
                temp_end: 0,
                next_start: if self.next_start < self.prev_end {
                    minus_or_zero(self.current_sample, frame)
                } else {
                    self.next_start
                },
                ..self
            }
        } else {
            self
        };
        if !resumed.triggered {
            StateView { triggered: true, ..resumed }.with_speech_start(self.current_sample - frame)
        } else {
            resumed
        }
    }

    /// The speech in progress has grown too long. It is cut at the
    /// bookmarked silence, or at the current sample if there is no bookmark.
    /// After a cut at a bookmark the speech goes on from where it resumed, if
    /// it did resume.
    pub open spec fn handle_max_speech_duration(self) -> StateView {
        if self.prev_end > 0 {
            let taken = self.with_speech_end(self.prev_end).take_speech();
            let after = if self.next_start < self.prev_end {
                StateView { triggered: false, ..taken }
            } else {
                taken.with_speech_start(self.next_start)
            };
            after.reset_temporary_states()
        } else {
            let taken = self.with_speech_end(self.current_sample).take_speech();
            StateView { triggered: false, ..taken }.reset_temporary_states()
        }
    }

    /// A silent frame has just been counted while a speech is in progress.
    /// The silence is timed from its first frame. Once it has lasted longer
    /// than the split silence its start is bookmarked. Once it has lasted the
    /// minimum silence the speech ends where the silence began: a speech
    /// longer than the minimum is reported, a shorter one stays in progress
    /// with its markers as they are.
    pub open spec fn handle_speech_end(self, params: Params) -> StateView {
        let timed = if self.temp_end == 0 {
            StateView { temp_end: self.current_sample, ..self }
        } else {
            self
        };
        let silence = minus_or_zero(timed.current_sample, timed.temp_end);
        let marked = if silence > params.min_silence_samples_at_max_speech {
            StateView { prev_end: timed.temp_end, ..timed }
        } else {
            timed
        };
        if silence >= params.min_silence_samples {
            let ended = marked.with_speech_end(marked.temp_end);
            if ended.current_speech.end - ended.current_speech.start > params.min_speech_samples {
                StateView { triggered: false, ..ended.take_speech().reset_temporary_states() }
            } else {
                ended
            }
        } else {
            marked
        }
    }

    /// One frame: the frame is counted, then the first of three rules that
    /// applies is followed. A speech frame starts or continues a speech. In a
    /// speech that has grown too long, any other frame forces a split. In a
    /// speech that has not, a silent frame works towards its end. A frame
    /// that is neither speech nor silence changes nothing else.
    pub open spec fn update(self, params: Params, speech_prob: u32) -> StateView {
        let counted = StateView {
            current_sample: self.current_sample + params.frame_size_samples,
            ..self
        };
        if params.is_speech(speech_prob) {
            counted.handle_speech_start(params.frame_size_samples as int)
        } else if counted.triggered && params.is_too_long(
            counted.current_sample - counted.current_speech.start,
        ) {
            counted.handle_max_speech_duration()
        } else if counted.triggered && params.is_silence(speech_prob) {
            counted.handle_speech_end(params)
        } else {
            counted
        }
    }

    /// The end of the stream, `last_sample` samples long: a speech in
    /// progress that starts after sample zero is reported as lasting to the end.
    pub open spec fn check_for_last_speech(self, last_sample: int) -> StateView {
        if self.current_speech.start > 0 {
            StateView {
                triggered: false,
                ..self.with_speech_end(last_sample).take_speech().reset_temporary_states()
            }
        } else {
            self
        }
    }

    /// The state after the frames with the probabilities `probs`, one after another.
    pub open spec fn run(self, params: Params, probs: Seq<u32>) -> StateView
        decreases probs.len(),
    {
        if probs.len() == 0 {
            self
        } else {
            self.run(params, probs.drop_last()).update(params, probs.last())
        }
    }
}

/// The speeches in a stream of `total_samples` samples at `params.sample_rate`
/// whose frames were scored with `probs`, before speeches that touch are joined.
pub open spec fn speeches_of(params: Params, probs: Seq<u32>, total_samples: int) -> Seq<TimeSpan> {
    StateView::fresh(params.sample_rate as int).run(params, probs).check_for_last_speech(
        total_samples,
    ).speeches
}

/// The segmenter's state in the middle of a stream.
#[derive(Debug, Default)]
pub struct State {
    current_sample: usize,
    temp_end: usize,
    next_start: usize,
    prev_end: usize,
    triggered: bool,
    current_speech: FrameStamp,
    speeches: Vec<TimeStamp>,
    sample_rate: usize,
}

impl View for State {
    type V = StateView;

    closed spec fn view(&self) -> StateView {
        StateView {
            current_sample: self.current_sample as int,
            temp_end: self.temp_end as int,
            next_start: self.next_start as int,
            prev_end: self.prev_end as int,
            triggered: self.triggered,
            current_speech: self.current_speech@,
            speeches: time_spans(self.speeches@),
            sample_rate: self.sample_rate as int,
        }
    }
}

impl State {
    /// Whether the sample counter and the markers can also be held as signed
    /// sample positions.
    pub closed spec fn wf(&self) -> bool {
        &&& self.current_sample <= isize::MAX
        &&& self.temp_end <= isize::MAX
        &&& self.next_start <= isize::MAX
        &&& self.prev_end <= isize::MAX
    }

    pub fn new(sample_rate: usize) -> (state: State)
        ensures
            state.wf(),
            state@ == StateView::fresh(sample_rate as int),
    {
        let state = State {
            current_sample: 0,
            temp_end: 0,
            next_start: 0,
            prev_end: 0,
            triggered: false,
            current_speech: FrameStamp { start: 0, end: 0 },
            speeches: Vec::new(),
            sample_rate,
        };
        assert(time_spans(state.speeches@) =~= Seq::empty());
        state
    }

    /// Samples seen so far.
    pub fn current_sample(&self) -> (samples: usize)
        ensures
            samples == self@.current_sample,
    {
        self.current_sample
    }

    /// Where the silence began that may end the speech in progress; zero if none is timed.
    pub fn temp_end(&self) -> (marker: usize)
        ensures
            marker == self@.temp_end,
    {
        self.temp_end
    }

    /// Where speech resumed after the bookmarked silence; zero if it did not.
    pub fn next_start(&self) -> (marker: usize)
        ensures
            marker == self@.next_start,
    {
        self.next_start
    }

    /// The bookmarked start of a silence to split at; zero if there is none.
    pub fn prev_end(&self) -> (marker: usize)
        ensures
            marker == self@.prev_end,
    {
        self.prev_end
    }

    /// Whether a speech is in progress.
    pub fn triggered(&self) -> (speaking: bool)
        ensures
            speaking == self@.triggered,
    {
        self.triggered
    }

    /// The speech in progress.
    pub fn current_speech(&self) -> (speech: FrameStamp)
        ensures
            speech@ == self@.current_speech,
    {
        self.current_speech
    }

    /// The speeches reported so far, as they were closed.
    pub fn speeches(&self) -> (reported: &Vec<TimeStamp>)
        ensures
            time_spans(reported@) == self@.speeches,
    {
        &self.speeches
    }

    pub fn sample_rate(&self) -> (rate: usize)
        ensures
            rate == self@.sample_rate,
    {
        self.sample_rate
    }

    /// Takes one frame's probability into account.
    pub fn update(&mut self, params: &Params, speech_prob: u32)
        requires
            old(self).wf(),
            old(self)@.current_sample + params.frame_size_samples <= isize::MAX,
        ensures
            final(self).wf(),
            final(self)@ == old(self)@.update(*params, speech_prob),
    {
        self.current_sample += params.frame_size_samples;

        if speech_prob > params.threshold {
            self.handle_speech_start(params);
            return ;
        }
        if self.triggered && self.is_max_speech_duration_exceeded(params) {
            self.handle_max_speech_duration();
            return ;
        }
        if self.triggered && (speech_prob as u64) + (HYSTERESIS as u64) < params.threshold as u64 {
            self.handle_speech_end(params);
        }
    }

    pub fn handle_speech_start(&mut self, params: &Params)
        requires
            old(self).wf(),
            params.frame_size_samples <= isize::MAX,
        ensures
            final(self).wf(),
            final(self)@ == old(self)@.handle_speech_start(params.frame_size_samples as int),
    {
        if self.temp_end != 0 {
            self.temp_end = 0;
            if self.next_start < self.prev_end {
                self.next_start = self.current_sample.saturating_sub(params.frame_size_samples);
            }
        }
        if !self.triggered {
            self.triggered = true;
            self.current_speech.start = self.current_sample as i64 - params.frame_size_samples as i64;
        }
    }

    /// Whether the speech in progress holds more samples than a speech may.
    pub fn is_max_speech_duration_exceeded(&self, params: &Params) -> (exceeded: bool)
        ensures
            exceeded == params.is_too_long(self@.current_sample - self@.current_speech.start),
    {
        match params.max_speech_samples {
            None => false,
            Some(limit) => self.current_sample as i128 - self.current_speech.start as i128
                > limit as i128,
        }
    }

    pub fn handle_max_speech_duration(&mut self)
        requires
            old(self).wf(),
        ensures
            final(self).wf(),
            final(self)@ == old(self)@.handle_max_speech_duration(),
    {
        if self.prev_end > 0 {
            self.current_speech.end = self.prev_end as i64;
            self.take_speech();
            if self.next_start < self.prev_end {
                self.triggered = false;
            } else {
                self.current_speech.start = self.next_start as i64;
            }
        } else {
            self.current_speech.end = self.current_sample as i64;
            self.take_speech();
            self.triggered = false;
        }
        self.reset_temporary_states();
    }

    pub fn handle_speech_end(&mut self, params: &Params)
        requires
            old(self).wf(),
        ensures
            final(self).wf(),
            final(self)@ == old(self)@.handle_speech_end(*params),
    {
        if self.temp_end == 0 {
            self.temp_end = self.current_sample;
        }
        if self.current_sample.saturating_sub(self.temp_end)
            > params.min_silence_samples_at_max_speech {
            self.prev_end = self.temp_end;
        }
        if self.current_sample.saturating_sub(self.temp_end) >= params.min_silence_samples {
            self.current_speech.end = self.temp_end as i64;
            let length: i128 = self.current_speech.end as i128 - self.current_speech.start as i128;
            if length > params.min_speech_samples as i128 {
                self.take_speech();
                self.reset_temporary_states();
                self.triggered = false;
            }
        }
    }

    pub fn reset_temporary_states(&mut self)
        requires
            old(self).wf(),
        ensures
            final(self).wf(),
            final(self)@ == old(self)@.reset_temporary_states(),
    {
        self.prev_end = 0;
        self.next_start = 0;
        self.temp_end = 0;
    }

    pub fn take_speech(&mut self)
        requires
            old(self).wf(),
        ensures
            final(self).wf(),
            final(self)@ == old(self)@.take_speech(),
    {
        let stamp = self.current_speech.to_timestamp(self.sample_rate);
        self.current_speech = FrameStamp { start: 0, end: 0 };
        self.speeches.push(stamp);
        assert(time_spans(self.speeches@) =~= time_spans(old(self).speeches@).push(stamp@));
    }

    /// Closes the stream after `last_sample` samples.
    pub fn check_for_last_speech(&mut self, last_sample: usize)
        requires
            old(self).wf(),
            last_sample <= isize::MAX,
        ensures
            final(self).wf(),
            final(self)@ == old(self)@.check_for_last_speech(last_sample as int),
    {
        if self.current_speech.start > 0 {
            self.current_speech.end = last_sample as i64;
            self.take_speech();
            self.prev_end = 0;
            self.next_start = 0;
            self.temp_end = 0;
            self.triggered = false;
        }
    }
}

impl TimeSpan {
    /// The stretch from the start of `self` to the end of `next`.
    pub open spec fn joined_with(self, next: TimeSpan) -> TimeSpan {
        TimeSpan { end: next.end, ..self }
    }
}

/// Joins speeches that touch. The speeches are taken in order; one that
/// starts at the very instant at which the speech before it ends, as joined
/// so far, is joined to it, and any other is kept as a speech of its own.
pub open spec fn merge_adjacent(speeches: Seq<TimeSpan>) -> Seq<TimeSpan>
    decreases speeches.len(),
{
    if speeches.len() == 0 {
        Seq::empty()
    } else {
        let merged = merge_adjacent(speeches.drop_last());
        let speech = speeches.last();
        if merged.len() > 0 && merged.last().meets(speech) {
            merged.drop_last().push(merged.last().joined_with(speech))
        } else {
            merged.push(speech)
        }
    }
}

/// The speech intervals of a stream of `total_samples` samples whose frames
/// were scored with `probs`.
pub open spec fn speech_intervals(params: Params, probs: Seq<u32>, total_samples: int) -> Seq<
    TimeSpan,
> {
    merge_adjacent(speeches_of(params, probs, total_samples))
}

/// A frame moves the sample counter on by one frame length, whatever its
/// probability, and leaves the sample rate alone.
pub proof fn lemma_update_counts_frame(state: StateView, params: Params, speech_prob: u32)
    ensures
        state.update(params, speech_prob).current_sample == state.current_sample
            + params.frame_size_samples,
        state.update(params, speech_prob).sample_rate == state.sample_rate,
{
}

/// Every frame of a stream moves the sample counter on by one frame length.
pub proof fn lemma_run_counts_frames(state: StateView, params: Params, probs: Seq<u32>)
    ensures
        state.run(params, probs).current_sample == state.current_sample + probs.len()
            * params.frame_size_samples,
        state.run(params, probs).sample_rate == state.sample_rate,
    decreases probs.len(),
{
    if probs.len() > 0 {
        lemma_run_counts_frames(state, params, probs.drop_last());
        lemma_update_counts_frame(state.run(params, probs.drop_last()), params, probs.last());
        assert(probs.len() * params.frame_size_samples == probs.drop_last().len()
            * params.frame_size_samples + params.frame_size_samples) by (nonlinear_arith)
            requires
                probs.drop_last().len() == probs.len() - 1,
        ;
    } else {
        assert(probs.len() * params.frame_size_samples == 0) by (nonlinear_arith)
            requires
                probs.len() == 0,
        ;
    }
}

/// Whether `stamp` ends at the very instant at which `next` starts.
pub fn meets(stamp: &TimeStamp, next: &TimeStamp) -> (touching: bool)
    ensures
        touching == stamp@.meets(next@),
{
    assert(-0x8000_0000_0000_0000 * 0xffff_ffff_ffff_ffff <= stamp.end * next.sample_rate
        <= 0x7fff_ffff_ffff_ffff * 0xffff_ffff_ffff_ffff) by (nonlinear_arith)
        requires
            -0x8000_0000_0000_0000 <= stamp.end <= 0x7fff_ffff_ffff_ffff,
            0 <= next.sample_rate <= 0xffff_ffff_ffff_ffff,
    ;
    assert(-0x8000_0000_0000_0000 * 0xffff_ffff_ffff_ffff <= next.start * stamp.sample_rate
        <= 0x7fff_ffff_ffff_ffff * 0xffff_ffff_ffff_ffff) by (nonlinear_arith)
        requires
            -0x8000_0000_0000_0000 <= next.start <= 0x7fff_ffff_ffff_ffff,
            0 <= stamp.sample_rate <= 0xffff_ffff_ffff_ffff,
    ;
    (stamp.end as i128) * (next.sample_rate as i128) == (next.start as i128) * (
    stamp.sample_rate as i128)
}

/// One reusable segmenter. It stands for one scoring session, which it names
/// by the session's number, and works on one stream at a time.
#[derive(Debug)]
pub struct VadIter {
    session: usize,
    params: Params,
    state: State,
}

pub struct VadIterView {
    pub session: int,
    pub params: Params,
    pub state: StateView,
}

impl View for VadIter {
    type V = VadIterView;

    closed spec fn view(&self) -> VadIterView {
        VadIterView { session: self.session as int, params: self.params, state: self.state@ }
    }
}

impl VadIter {
    pub closed spec fn wf(&self) -> bool {
        self.state.wf()
    }

    /// A segmenter for the scoring session number `session`.
    pub fn new(session: usize, params: VadParams) -> (vad: VadIter)
        requires
            params.derivable(),
        ensures
            vad.wf(),
            vad@.session == session,
            vad@.params.derived_from(params),
            vad@.state == StateView::fresh(params.sample_rate as int),
    {
        VadIter { session, state: State::new(params.sample_rate), params: Params::from(params) }
    }

    /// The number of the scoring session that this segmenter stands for.
    pub fn session(&self) -> (session: usize)
        ensures
            session == self@.session,
    {
        self.session
    }

    pub fn params(&self) -> (params: Params)
        ensures
            params == self@.params,
    {
        self.params
    }

    /// The state that the stream processed last has left behind.
    pub fn state(&self) -> (state: &State)
        ensures
            state@ == self@.state,
            self.wf() ==> state.wf(),
    {
        &self.state
    }

    /// Segments one stream of `total_samples` samples from the probabilities
    /// of its frames. Whatever an earlier stream left behind is forgotten first.
    pub fn process(&mut self, probs: &[u32], total_samples: usize)
        requires
            old(self).wf(),
            probs.len() * old(self)@.params.frame_size_samples <= isize::MAX,
            total_samples <= isize::MAX,
        ensures
            final(self).wf(),
            final(self)@.session == old(self)@.session,
            final(self)@.params == old(self)@.params,
            final(self)@.state == StateView::fresh(old(self)@.params.sample_rate as int).run(
                old(self)@.params,
                probs@,
            ).check_for_last_speech(total_samples as int),
            final(self)@.state.speeches == speeches_of(
                old(self)@.params,
                probs@,
                total_samples as int,
            ),
    {
        self.reset_states();
        let ghost fresh = StateView::fresh(self.params.sample_rate as int);
        let mut done: usize = 0;
        while done < probs.len()
            invariant
                self.state.wf(),
                self.params == old(self).params,
                self.session == old(self).session,
                done <= probs.len(),
                probs.len() * self.params.frame_size_samples <= isize::MAX,
                fresh == StateView::fresh(self.params.sample_rate as int),
                self.state@ == fresh.run(self.params, probs@.take(done as int)),
            decreases probs.len() - done,
        {
            proof {
                lemma_run_counts_frames(fresh, self.params, probs@.take(done as int));
                assert((done + 1) * self.params.frame_size_samples <= probs.len()
                    * self.params.frame_size_samples) by (nonlinear_arith)
                    requires
                        done + 1 <= probs.len(),
                        self.params.frame_size_samples >= 0,
                ;
                assert((done + 1) * self.params.frame_size_samples == done
                    * self.params.frame_size_samples + self.params.frame_size_samples)
                    by (nonlinear_arith);
                assert(probs@.take(done + 1).drop_last() =~= probs@.take(done as int));
            }
            self.state.update(&self.params, probs[done]);
            done += 1;
        }
        assert(probs@.take(done as int) =~= probs@);
        self.state.check_for_last_speech(total_samples);
    }

    /// The speeches of the stream that was processed last, with speeches
    /// that touch joined into one.
    pub fn speeches(&self) -> (merged: Vec<TimeStamp>)
        ensures
            time_spans(merged@) == merge_adjacent(self@.state.speeches),
    {
        let mut merged: Vec<TimeStamp> = Vec::new();
        let mut taken: usize = 0;
        while taken < self.state.speeches.len()
            invariant
                taken <= self.state.speeches.len(),
                time_spans(merged@) == merge_adjacent(
                    time_spans(self.state.speeches@.take(taken as int)),
                ),
            decreases self.state.speeches.len() - taken,
        {
            let speech = self.state.speeches[taken];
            let ghost before = time_spans(self.state.speeches@.take(taken as int));
            let ghost now = time_spans(self.state.speeches@.take(taken + 1));
            assert(now.drop_last() =~= before);
            let last_index: usize = merged.len();
            if last_index > 0 && meets(&merged[last_index - 1], &speech) {
                let last = merged[last_index - 1];
                merged.set(
                    last_index - 1,
                    TimeStamp { start: last.start, end: speech.end, sample_rate: last.sample_rate },
                );
            } else {
                merged.push(speech);
            }
            taken += 1;
        }
        assert(self.state.speeches@.take(taken as int) =~= self.state.speeches@);
        merged
    }

    /// Forgets the stream that was processed last.
    pub fn reset_states(&mut self)
        ensures
            final(self).wf(),
            final(self)@.session == old(self)@.session,
            final(self)@.params == old(self)@.params,
            final(self)@.state == StateView::fresh(old(self)@.params.sample_rate as int),
    {
        self.state = State::new(self.params.sample_rate);
    }
}

} // verus!
