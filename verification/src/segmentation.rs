//! What holds of the segmenter on whole streams.

use vstd::prelude::*;

use crate::utils::TimeSpan;
use crate::utils::lemma_same_instant_same_sample;
use crate::vad_iter::merge_adjacent;
use crate::vad_iter::speech_intervals;
use crate::vad_iter::speeches_of;
use crate::vad_iter::Params;
use crate::vad_iter::StateView;

verus! {

impl StateView {
    /// Between speeches: no speech is in progress and no marker is set.
    pub open spec fn is_idle(self) -> bool {
        &&& !self.triggered
        &&& self.temp_end == 0
        &&& self.next_start == 0
        &&& self.prev_end == 0
        &&& self.current_speech.start == 0
        &&& self.current_speech.end == 0
    }

    /// In a speech that began at `start` and that no silence has interrupted yet.
    pub open spec fn is_speaking_since(self, start: int) -> bool {
        &&& self.triggered
        &&& self.temp_end == 0
        &&& self.current_speech.start == start
    }
}

/// Whether no frame of the stream is speech.
pub open spec fn no_speech(params: Params, probs: Seq<u32>) -> bool {
    forall|i: int| 0 <= i < probs.len() ==> !params.is_speech(#[trigger] probs[i])
}

/// Whether every frame of the stream is speech.
pub open spec fn all_speech(params: Params, probs: Seq<u32>) -> bool {
    forall|i: int| 0 <= i < probs.len() ==> params.is_speech(#[trigger] probs[i])
}

/// Running a stream is running its first part and then the rest.
pub proof fn lemma_run_concat(state: StateView, params: Params, first: Seq<u32>, rest: Seq<u32>)
    ensures
        state.run(params, first + rest) == state.run(params, first).run(params, rest),
    decreases rest.len(),
{
    if rest.len() > 0 {
        lemma_run_concat(state, params, first, rest.drop_last());
        assert((first + rest).drop_last() =~= first + rest.drop_last());
    }
}

/// Frames that are not speech leave an idle segmenter idle and report nothing.
pub proof fn lemma_idle_stays_idle(state: StateView, params: Params, probs: Seq<u32>)
    requires
        state.is_idle(),
        no_speech(params, probs),
    ensures
        state.run(params, probs).is_idle(),
        state.run(params, probs).speeches == state.speeches,
    decreases probs.len(),
{
    if probs.len() > 0 {
        lemma_idle_stays_idle(state, params, probs.drop_last());
    }
}

/// A stream none of whose frames is above the threshold has no speech.
pub proof fn lemma_no_speech_frame_no_speech(params: Params, probs: Seq<u32>, total_samples: int)
    requires
        no_speech(params, probs),
    ensures
        speeches_of(params, probs, total_samples) == Seq::<TimeSpan>::empty(),
        speech_intervals(params, probs, total_samples) == Seq::<TimeSpan>::empty(),
{
    lemma_idle_stays_idle(StateView::fresh(params.sample_rate as int), params, probs);
}

/// Speech frames change nothing in a speech that no silence has interrupted,
/// but for the sample counter.
pub proof fn lemma_speech_goes_on(state: StateView, params: Params, probs: Seq<u32>, start: int)
    requires
        state.is_speaking_since(start),
        all_speech(params, probs),
    ensures
        state.run(params, probs).is_speaking_since(start),
        state.run(params, probs).speeches == state.speeches,
    decreases probs.len(),
{
    if probs.len() > 0 {
        lemma_speech_goes_on(state, params, probs.drop_last(), start);
    }
}

/// A speech that begins with the very first frame of a stream and is never
/// interrupted is not reported: it starts at sample zero, and the end of the
/// stream closes only a speech that starts later.
pub proof fn lemma_speech_from_first_frame_is_lost(
    params: Params,
    probs: Seq<u32>,
    total_samples: int,
)
    requires
        all_speech(params, probs),
    ensures
        speeches_of(params, probs, total_samples) == Seq::<TimeSpan>::empty(),
        speech_intervals(params, probs, total_samples) == Seq::<TimeSpan>::empty(),
{
    let fresh = StateView::fresh(params.sample_rate as int);
    if probs.len() > 0 {
        let first = probs.take(1);
        let rest = probs.skip(1);
        assert(probs =~= first + rest);
        lemma_run_concat(fresh, params, first, rest);
        assert(fresh.run(params, first.drop_last()) == fresh);
        lemma_speech_goes_on(fresh.run(params, first), params, rest, 0);
    }
}

/// A stream that has no speech frame at first and nothing but speech frames
/// from then on has exactly one speech, which lasts from the first speech
/// frame to the end of the stream.
pub proof fn lemma_speech_to_the_end(
    params: Params,
    lead: Seq<u32>,
    speech: Seq<u32>,
    total_samples: int,
)
    requires
        params.frame_size_samples > 0,
        lead.len() > 0,
        speech.len() > 0,
        no_speech(params, lead),
        all_speech(params, speech),
    ensures
        speech_intervals(params, lead + speech, total_samples) == seq![
            TimeSpan {
                start: lead.len() * params.frame_size_samples,
                end: total_samples,
                sample_rate: params.sample_rate as int,
            },
        ],
{
    let fresh = StateView::fresh(params.sample_rate as int);
    let start = lead.len() * params.frame_size_samples;
    assert(start > 0) by (nonlinear_arith)
        requires
            start == lead.len() * params.frame_size_samples,
            lead.len() > 0,
            params.frame_size_samples > 0,
    ;
    let first = speech.take(1);
    let rest = speech.skip(1);
    assert(lead + speech =~= (lead + first) + rest);
    lemma_run_concat(fresh, params, lead + first, rest);
    lemma_run_concat(fresh, params, lead, first);
    lemma_idle_stays_idle(fresh, params, lead);
    crate::vad_iter::lemma_run_counts_frames(fresh, params, lead);
    let idle = fresh.run(params, lead);
    assert(idle.run(params, first.drop_last()) == idle);
    let begun = idle.run(params, first);
    lemma_speech_goes_on(begun, params, rest, start);
    crate::vad_iter::lemma_run_counts_frames(begun, params, rest);
    let speeches = speeches_of(params, lead + speech, total_samples);
    assert(merge_adjacent(speeches.drop_last()) =~= Seq::<TimeSpan>::empty());
}

/// In a speech that has grown too long, a frame that is not speech closes
/// a speech. It starts where the speech in progress started, and it ends
/// at the bookmarked silence, or with the frame if no silence is
/// bookmarked. A speech stays in progress only after a cut at a bookmark
/// behind which speech had resumed.
pub proof fn lemma_too_long_speech_is_split(state: StateView, params: Params, speech_prob: u32)
    requires
        state.triggered,
        !params.is_speech(speech_prob),
        params.is_too_long(
            state.current_sample + params.frame_size_samples - state.current_speech.start,
        ),
    ensures
        state.update(params, speech_prob).speeches == state.speeches.push(
            TimeSpan {
                start: state.current_speech.start,
                end: if state.prev_end > 0 {
                    state.prev_end
                } else {
                    state.current_sample + params.frame_size_samples
                },
                sample_rate: state.sample_rate,
            },
        ),
        state.update(params, speech_prob).triggered <==> state.prev_end > 0 && state.next_start
            >= state.prev_end,
        state.update(params, speech_prob).triggered ==> state.update(
            params,
            speech_prob,
        ).current_speech.start == state.next_start,
{
}

/// Two speeches become one if the first ends at the very instant at which
/// the second starts; otherwise both stay as they are.
pub proof fn lemma_merge_two(first: TimeSpan, second: TimeSpan)
    ensures
        first.meets(second) ==> merge_adjacent(seq![first, second]) == seq![
            first.joined_with(second),
        ],
        !first.meets(second) ==> merge_adjacent(seq![first, second]) == seq![first, second],
{
    let one = seq![first, second].drop_last();
    assert(merge_adjacent(one.drop_last()) =~= Seq::<TimeSpan>::empty());
    assert(merge_adjacent(one) =~= seq![first]);
}

/// Two speeches of one stream are joined just when the first ends with the
/// sample with which the second starts: a gap of a single sample keeps them apart.
pub proof fn lemma_merge_two_of_one_stream(first: TimeSpan, second: TimeSpan)
    requires
        first.sample_rate > 0,
        first.sample_rate == second.sample_rate,
    ensures
        first.end == second.start ==> merge_adjacent(seq![first, second]) == seq![
            TimeSpan { start: first.start, end: second.end, sample_rate: first.sample_rate },
        ],
        first.end != second.start ==> merge_adjacent(seq![first, second]) == seq![first, second],
{
    lemma_same_instant_same_sample(first.end, second.start, first.sample_rate);
    lemma_merge_two(first, second);
}

/// Whether no speech of the list ends at the instant at which the next one starts.
pub open spec fn none_touching(speeches: Seq<TimeSpan>) -> bool {
    forall|i: int| 0 <= i < speeches.len() - 1 ==> !(#[trigger] speeches[i]).meets(speeches[i + 1])
}

/// After joining, no two neighbours touch any more.
pub proof fn lemma_merged_none_touching(speeches: Seq<TimeSpan>)
    ensures
        none_touching(merge_adjacent(speeches)),
        speeches.len() > 0 ==> merge_adjacent(speeches).len() > 0,
        merge_adjacent(speeches).len() <= speeches.len(),
    decreases speeches.len(),
{
    if speeches.len() > 0 {
        lemma_merged_none_touching(speeches.drop_last());
    }
}

/// Joining changes nothing in a list in which no two neighbours touch.
pub proof fn lemma_merge_keeps_apart(speeches: Seq<TimeSpan>)
    requires
        none_touching(speeches),
    ensures
        merge_adjacent(speeches) == speeches,
    decreases speeches.len(),
{
    if speeches.len() > 0 {
        lemma_merge_keeps_apart(speeches.drop_last());
    }
}

/// Joining a second time changes nothing.
pub proof fn lemma_merge_twice(speeches: Seq<TimeSpan>)
    ensures
        merge_adjacent(merge_adjacent(speeches)) == merge_adjacent(speeches),
{
    lemma_merged_none_touching(speeches);
    lemma_merge_keeps_apart(merge_adjacent(speeches));
}

/// Whether the speeches come one after another inside the first `limit`
/// samples: each starts before it ends, none starts before the one in front
/// of it has ended, and all lie on the time axis of `sample_rate`.
pub open spec fn in_order(speeches: Seq<TimeSpan>, limit: int, sample_rate: int) -> bool {
    &&& forall|i: int|
        0 <= i < speeches.len() ==> {
            &&& 0 <= (#[trigger] speeches[i]).start < speeches[i].end <= limit
            &&& speeches[i].sample_rate == sample_rate
        }
    &&& forall|i: int|
        0 <= i < speeches.len() - 1 ==> (#[trigger] speeches[i]).end <= speeches[i + 1].start
}

/// Where the last of the speeches ends; zero if there is none.
pub open spec fn last_end(speeches: Seq<TimeSpan>) -> int {
    if speeches.len() > 0 {
        speeches.last().end
    } else {
        0
    }
}

impl StateView {
    /// What holds of the state after any number of frames, each `frame`
    /// samples long. The speeches reported so far are in order and lie
    /// behind the sample counter. Outside a speech no marker is set. In a
    /// speech, the speech starts after everything reported and at least a
    /// frame ago, and a marker that is set lies inside the speech.
    pub open spec fn in_step(self, frame: int) -> bool {
        &&& 0 <= self.current_sample
        &&& in_order(self.speeches, self.current_sample, self.sample_rate)
        &&& if self.triggered {
            &&& last_end(self.speeches) <= self.current_speech.start <= self.current_sample - frame
            &&& self.temp_end == 0 || self.current_speech.start < self.temp_end
                <= self.current_sample
            &&& self.prev_end == 0 || self.current_speech.start < self.prev_end
                <= self.current_sample
            &&& self.next_start == 0 || 0 < self.next_start <= self.current_sample - frame
        } else {
            self.is_idle()
        }
    }
}

/// If the speeches before the last are in order and the last one follows
/// them, all of them are in order.
proof fn lemma_in_order_push(earlier: Seq<TimeSpan>, speech: TimeSpan, limit: int, rate: int)
    requires
        in_order(earlier, limit, rate),
        last_end(earlier) <= speech.start,
        0 <= speech.start < speech.end <= limit,
        speech.sample_rate == rate,
    ensures
        in_order(earlier.push(speech), limit, rate),
        last_end(earlier.push(speech)) == speech.end,
{
}

/// Speeches that are in order inside some samples are in order inside more.
proof fn lemma_in_order_wider(speeches: Seq<TimeSpan>, limit: int, wider: int, rate: int)
    requires
        in_order(speeches, limit, rate),
        limit <= wider,
    ensures
        in_order(speeches, wider, rate),
{
}

/// One frame keeps the state in step.
pub proof fn lemma_update_in_step(state: StateView, params: Params, speech_prob: u32)
    requires
        params.frame_size_samples > 0,
        state.in_step(params.frame_size_samples as int),
    ensures
        state.update(params, speech_prob).in_step(params.frame_size_samples as int),
{
    let frame = params.frame_size_samples as int;
    let counted = StateView { current_sample: state.current_sample + frame, ..state };
    let next = state.update(params, speech_prob);
    lemma_in_order_wider(state.speeches, state.current_sample, counted.current_sample, state.sample_rate);
    if next.speeches != state.speeches {
        // The frame has reported one speech; it follows the speeches before it.
        lemma_in_order_push(
            state.speeches,
            next.speeches.last(),
            counted.current_sample,
            state.sample_rate,
        );
    }
}

/// Any number of frames keeps the state in step.
pub proof fn lemma_run_in_step(state: StateView, params: Params, probs: Seq<u32>)
    requires
        params.frame_size_samples > 0,
        state.in_step(params.frame_size_samples as int),
    ensures
        state.run(params, probs).in_step(params.frame_size_samples as int),
    decreases probs.len(),
{
    if probs.len() > 0 {
        lemma_run_in_step(state, params, probs.drop_last());
        lemma_update_in_step(state.run(params, probs.drop_last()), params, probs.last());
    }
}

/// The speeches of a stream come one after another, each with a start
/// before its end, and none reaches beyond the end of the stream. This
/// holds of every stream that is at least as long as its frames together.
pub proof fn lemma_speeches_in_order(params: Params, probs: Seq<u32>, total_samples: int)
    requires
        params.frame_size_samples > 0,
        probs.len() * params.frame_size_samples <= total_samples,
    ensures
        in_order(speeches_of(params, probs, total_samples), total_samples, params.sample_rate as int),
{
    let fresh = StateView::fresh(params.sample_rate as int);
    lemma_run_in_step(fresh, params, probs);
    crate::vad_iter::lemma_run_counts_frames(fresh, params, probs);
    let open = fresh.run(params, probs);
    lemma_in_order_wider(open.speeches, open.current_sample, total_samples, open.sample_rate);
    if open.current_speech.start > 0 {
        let span = TimeSpan {
            start: open.current_speech.start,
            end: total_samples,
            sample_rate: open.sample_rate,
        };
        lemma_in_order_push(open.speeches, span, total_samples, open.sample_rate);
    }
}

/// The end of a stream leaves no speech open but one that began with the
/// very first sample: any other speech in progress is reported, and the
/// segmenter is idle afterwards.
pub proof fn lemma_end_of_stream_closes_speech(
    params: Params,
    probs: Seq<u32>,
    total_samples: int,
)
    requires
        params.frame_size_samples > 0,
    ensures
        ({
            let open = StateView::fresh(params.sample_rate as int).run(params, probs);
            let closed = open.check_for_last_speech(total_samples);
            &&& open.triggered && open.current_speech.start > 0 ==> closed.speeches
                == open.speeches.push(
                TimeSpan {
                    start: open.current_speech.start,
                    end: total_samples,
                    sample_rate: params.sample_rate as int,
                },
            )
            &&& closed.is_idle() || (closed == open && open.triggered && open.current_speech.start
                == 0)
        }),
{
    let fresh = StateView::fresh(params.sample_rate as int);
    lemma_run_in_step(fresh, params, probs);
    crate::vad_iter::lemma_run_counts_frames(fresh, params, probs);
}

/// Joining speeches that are in order leaves them in order, and the last
/// still ends where it did.
pub proof fn lemma_merge_in_order(speeches: Seq<TimeSpan>, limit: int, rate: int)
    requires
        in_order(speeches, limit, rate),
    ensures
        in_order(merge_adjacent(speeches), limit, rate),
        last_end(merge_adjacent(speeches)) == last_end(speeches),
    decreases speeches.len(),
{
    if speeches.len() > 0 {
        let earlier = speeches.drop_last();
        let speech = speeches.last();
        lemma_merge_in_order(earlier, limit, rate);
        let merged = merge_adjacent(earlier);
        if merged.len() > 0 && merged.last().meets(speech) {
            let kept = merged.drop_last();
            let joined = merged.last().joined_with(speech);
            lemma_in_order_push(kept, joined, limit, rate);
        } else {
            lemma_in_order_push(merged, speech, limit, rate);
        }
    }
}

/// Whether there is a gap between each speech and the next.
pub open spec fn apart(speeches: Seq<TimeSpan>) -> bool {
    forall|i: int| 0 <= i < speeches.len() - 1 ==> (#[trigger] speeches[i]).end < speeches[i
        + 1].start
}

/// The speech intervals of a stream come one after another with a gap
/// between each and the next, each starts before it ends, and none reaches
/// beyond the end of the stream. This holds of every stream that is at
/// least as long as its frames together.
pub proof fn lemma_speech_intervals_apart(params: Params, probs: Seq<u32>, total_samples: int)
    requires
        params.frame_size_samples > 0,
        probs.len() * params.frame_size_samples <= total_samples,
    ensures
        in_order(
            speech_intervals(params, probs, total_samples),
            total_samples,
            params.sample_rate as int,
        ),
        apart(speech_intervals(params, probs, total_samples)),
{
    let rate = params.sample_rate as int;
    let speeches = speeches_of(params, probs, total_samples);
    let merged = speech_intervals(params, probs, total_samples);
    lemma_speeches_in_order(params, probs, total_samples);
    lemma_merge_in_order(speeches, total_samples, rate);
    lemma_merged_none_touching(speeches);
    assert forall|i: int| 0 <= i < merged.len() - 1 implies (#[trigger] merged[i]).end < merged[i
        + 1].start by {
        if rate > 0 {
            lemma_same_instant_same_sample(merged[i].end, merged[i + 1].start, rate);
        } else {
            assert(merged[i].end * 0 == merged[i + 1].start * 0) by (nonlinear_arith);
        }
    }
}

impl StateView {
    /// In a speech, a silence that is being timed and a silence that is
    /// bookmarked began before the speech had grown too long.
    pub open spec fn marks_in_time(self, params: Params) -> bool {
        self.triggered ==> {
            &&& self.temp_end == 0 || !params.is_too_long(
                self.temp_end - self.current_speech.start,
            )
            &&& self.prev_end == 0 || !params.is_too_long(
                self.prev_end - self.current_speech.start,
            )
        }
    }
}

/// One frame keeps the markers in time.
pub proof fn lemma_update_marks_in_time(state: StateView, params: Params, speech_prob: u32)
    requires
        params.frame_size_samples > 0,
        state.in_step(params.frame_size_samples as int),
        state.marks_in_time(params),
    ensures
        state.update(params, speech_prob).marks_in_time(params),
{
}

/// Any number of frames keeps the markers in time.
pub proof fn lemma_run_marks_in_time(state: StateView, params: Params, probs: Seq<u32>)
    requires
        params.frame_size_samples > 0,
        state.in_step(params.frame_size_samples as int),
        state.marks_in_time(params),
    ensures
        state.run(params, probs).marks_in_time(params),
    decreases probs.len(),
{
    if probs.len() > 0 {
        lemma_run_in_step(state, params, probs.drop_last());
        lemma_run_marks_in_time(state, params, probs.drop_last());
        lemma_update_marks_in_time(state.run(params, probs.drop_last()), params, probs.last());
    }
}

/// A frame reports at most one speech. The speech that a frame reports in
/// the course of a stream is too long only where it was cut for being too
/// long and no silence was bookmarked to cut it at: a speech that silence
/// has ended, and a speech cut at a bookmarked silence, hold no more
/// samples than a speech may.
pub proof fn lemma_only_a_cut_without_bookmark_is_too_long(
    params: Params,
    probs: Seq<u32>,
    speech_prob: u32,
)
    requires
        params.frame_size_samples > 0,
    ensures
        ({
            let before = StateView::fresh(params.sample_rate as int).run(params, probs);
            let after = before.update(params, speech_prob);
            let cut_without_bookmark = before.triggered && !params.is_speech(speech_prob)
                && params.is_too_long(
                before.current_sample + params.frame_size_samples - before.current_speech.start,
            ) && before.prev_end == 0;
            &&& after.speeches == before.speeches || after.speeches.drop_last() == before.speeches
            &&& after.speeches != before.speeches ==> (params.is_too_long(
                after.speeches.last().end - after.speeches.last().start,
            ) <==> cut_without_bookmark)
        }),
{
    let fresh = StateView::fresh(params.sample_rate as int);
    lemma_run_in_step(fresh, params, probs);
    lemma_run_marks_in_time(fresh, params, probs);
}

} // verus!
