use vstd::prelude::*;
use vstd::string::StringExecFns;

use crate::error::VadError;
use crate::utils::SampleRate;
use crate::utils::TimeSpan;
use crate::utils::TimeStamp;
use crate::utils::VadParams;
use crate::utils::time_spans;
use crate::vad_iter::speech_intervals;
use crate::vad_iter::Params;
use crate::vad_iter::StateView;
use crate::vad_iter::VadIter;
use crate::vad_iter::VadIterView;

verus! {

/// Hands out the numbers of the scoring sessions in turn: 0, 1, and so on
/// up to the last, and then from 0 again.
pub struct SessionCycle {
    count: usize,
    next: usize,
    handed_out: Ghost<nat>,
}

pub struct SessionCycleView {
    /// How many sessions there are.
    pub count: int,
    /// How many numbers have been handed out so far.
    pub handed_out: nat,
}

impl View for SessionCycle {
    type V = SessionCycleView;

    closed spec fn view(&self) -> SessionCycleView {
        SessionCycleView { count: self.count as int, handed_out: self.handed_out@ }
    }
}

impl SessionCycle {
    pub closed spec fn wf(&self) -> bool {
        &&& self.count >= 1
        &&& self.next == self.handed_out@ % (self.count as nat)
    }

    pub fn new(count: usize) -> (cycle: SessionCycle)
        requires
            count >= 1,
        ensures
            cycle.wf(),
            cycle@ == (SessionCycleView { count: count as int, handed_out: 0 }),
    {
        SessionCycle { count, next: 0, handed_out: Ghost(0) }
    }

    /// How many sessions there are.
    pub fn count(&self) -> (count: usize)
        ensures
            count == self@.count,
    {
        self.count
    }

    /// The number of the next session in turn.
    pub fn next(&mut self) -> (session: usize)
        requires
            old(self).wf(),
        ensures
            final(self).wf(),
            session == old(self)@.handed_out % (old(self)@.count as nat),
            final(self)@ == (SessionCycleView {
                handed_out: old(self)@.handed_out + 1,
                ..old(self)@
            }),
    {
        let session: usize = self.next;
        proof {
            let n = self.count as int;
            let k = self.handed_out@ as int;
            assert((k + 1) % n == if k % n + 1 == n {
                0
            } else {
                k % n + 1
            }) by (nonlinear_arith)
                requires
                    n >= 1,
                    k >= 0,
            ;
        }
        self.next = if self.next + 1 == self.count {
            0
        } else {
            self.next + 1
        };
        self.handed_out = Ghost((self.handed_out@ + 1) as nat);
        session
    }
}

/// A pool of segmenters over a fixed number of scoring sessions. A caller
/// pulls a segmenter for one stream and attaches it again afterwards, so
/// that a segmenter works for one caller at a time. The pool grows when it
/// is empty: a new segmenter is made for the session that is next in turn.
pub struct Recognizer {
    vad_iter_pool: Vec<VadIter>,
    sessions: SessionCycle,
    vad_params: VadParams,
    params: Params,
}

pub struct RecognizerView {
    /// The segmenters that wait in the pool. The last one is pulled first.
    pub idle: Seq<VadIterView>,
    /// How many scoring sessions there are.
    pub sessions_num: int,
    /// How many segmenters have been made so far.
    pub created: nat,
    /// The parameters of every segmenter of this pool.
    pub params: Params,
}

impl RecognizerView {
    /// Whether the segmenter was made by this pool.
    pub open spec fn owns(self, vad: VadIterView) -> bool {
        &&& 0 <= vad.session < self.sessions_num
        &&& vad.params == self.params
    }

    /// Whether there is a session and every segmenter in the pool was made by the pool.
    pub open spec fn well_formed(self) -> bool {
        &&& self.sessions_num >= 1
        &&& forall|i: int| 0 <= i < self.idle.len() ==> self.owns(#[trigger] self.idle[i])
    }

    /// The segmenter that the pool makes next.
    pub open spec fn made_next(self) -> VadIterView {
        VadIterView {
            session: (self.created % (self.sessions_num as nat)) as int,
            params: self.params,
            state: StateView::fresh(self.params.sample_rate as int),
        }
    }

    /// Takes a segmenter out of the pool: the one that was attached last, or
    /// a new one if the pool is empty.
    pub open spec fn pull(self) -> (RecognizerView, VadIterView) {
        if self.idle.len() > 0 {
            (RecognizerView { idle: self.idle.drop_last(), ..self }, self.idle.last())
        } else {
            (RecognizerView { created: self.created + 1, ..self }, self.made_next())
        }
    }

    /// Puts a segmenter into the pool.
    pub open spec fn attach(self, vad: VadIterView) -> RecognizerView {
        RecognizerView { idle: self.idle.push(vad), ..self }
    }

    /// One whole call: a segmenter is pulled, segments the stream and is
    /// attached again. Gives the pool after the call and the speech intervals.
    pub open spec fn process(self, probs: Seq<u32>, total_samples: int) -> (
        RecognizerView,
        Seq<TimeSpan>,
    ) {
        let (pulled, vad) = self.pull();
        let used = VadIterView {
            state: StateView::fresh(vad.params.sample_rate as int).run(
                vad.params,
                probs,
            ).check_for_last_speech(total_samples),
            ..vad
        };
        (pulled.attach(used), speech_intervals(vad.params, probs, total_samples))
    }
}

impl View for Recognizer {
    type V = RecognizerView;

    closed spec fn view(&self) -> RecognizerView {
        RecognizerView {
            idle: Seq::new(self.vad_iter_pool@.len(), |i: int| self.vad_iter_pool@[i]@),
            sessions_num: self.sessions@.count,
            created: self.sessions@.handed_out,
            params: self.params,
        }
    }
}

impl Recognizer {
    pub closed spec fn wf(&self) -> bool {
        &&& self.sessions.wf()
        &&& self.vad_params.derivable()
        &&& self.params.derived_from(self.vad_params)
        &&& self@.well_formed()
        &&& forall|i: int| 0 <= i < self.vad_iter_pool@.len() ==> (#[trigger] self.vad_iter_pool@[i]).wf()
    }

    /// A pool over `sessions_num` scoring sessions, with no segmenter in it
    /// yet. A sample rate other than 8000 and 16000 is refused.
    pub fn new(vad_params: VadParams, sessions_num: u8) -> (made: Result<Recognizer, VadError>)
        requires
            sessions_num >= 1,
            SampleRate::of_hz(vad_params.sample_rate as int) is Some ==> vad_params.derivable(),
        ensures
            match made {
                Ok(recognizer) => {
                    &&& SampleRate::of_hz(vad_params.sample_rate as int) is Some
                    &&& recognizer.wf()
                    &&& recognizer@.idle == Seq::<VadIterView>::empty()
                    &&& recognizer@.sessions_num == sessions_num
                    &&& recognizer@.created == 0
                    &&& recognizer@.params.derived_from(vad_params)
                },
                Err(error) => {
                    &&& SampleRate::of_hz(vad_params.sample_rate as int) is None
                    &&& error matches VadError::VadError(details)
                    &&& details@ == "Unsupported sample rate"@
                },
            },
    {
        if SampleRate::from_hz(vad_params.sample_rate).is_none() {
            return Err(VadError::VadError(String::from_str("Unsupported sample rate")));
        }
        let recognizer = Recognizer {
            vad_iter_pool: Vec::new(),
            sessions: SessionCycle::new(sessions_num as usize),
            vad_params,
            params: Params::from(vad_params),
        };
        Ok(recognizer)
    }

    /// How many scoring sessions there are.
    pub fn sessions_num(&self) -> (count: usize)
        ensures
            count == self@.sessions_num,
    {
        self.sessions.count()
    }

    /// How many segmenters wait in the pool.
    pub fn idle_count(&self) -> (count: usize)
        ensures
            count == self@.idle.len(),
    {
        self.vad_iter_pool.len()
    }

    /// The parameters of every segmenter of this pool.
    pub fn params(&self) -> (params: Params)
        ensures
            params == self@.params,
    {
        self.params
    }

    /// Takes a segmenter out of the pool for one stream.
    pub fn pull(&mut self) -> (vad: VadIter)
        requires
            old(self).wf(),
        ensures
            final(self).wf(),
            vad.wf(),
            (final(self)@, vad@) == old(self)@.pull(),
            final(self)@.owns(vad@),
    {
        match self.vad_iter_pool.pop() {
            Some(vad) => {
                assert(self@.idle =~= old(self)@.idle.drop_last());
                vad
            },
            None => {
                let session: usize = self.sessions.next();
                let vad = VadIter::new(session, self.vad_params);
                proof {
                    let count = old(self)@.sessions_num as nat;
                    let created = old(self)@.created;
                    assert(created % count < count) by (nonlinear_arith)
                        requires
                            count >= 1,
                    ;
                }
                vad
            },
        }
    }

    /// Puts a segmenter that was pulled from this pool back into it.
    pub fn attach(&mut self, vad: VadIter)
        requires
            old(self).wf(),
            vad.wf(),
            old(self)@.owns(vad@),
        ensures
            final(self).wf(),
            final(self)@ == old(self)@.attach(vad@),
    {
        self.vad_iter_pool.push(vad);
        assert(self@.idle =~= old(self)@.idle.push(vad@));
    }

    /// The speech intervals of one stream of `total_samples` samples, from
    /// the probabilities of its frames.
    pub fn process(&mut self, probs: &[u32], total_samples: usize) -> (speeches: Vec<TimeStamp>)
        requires
            old(self).wf(),
            probs.len() * old(self)@.params.frame_size_samples <= isize::MAX,
            total_samples <= isize::MAX,
        ensures
            final(self).wf(),
            (final(self)@, time_spans(speeches@)) == old(self)@.process(
                probs@,
                total_samples as int,
            ),
            time_spans(speeches@) == speech_intervals(
                old(self)@.params,
                probs@,
                total_samples as int,
            ),
    {
        let mut vad = self.pull();
        vad.process(probs, total_samples);
        let speeches = vad.speeches();
        self.attach(vad);
        speeches
    }
}

impl RecognizerView {
    /// Pulls `count` segmenters one after another and attaches none. Gives
    /// the pool afterwards and the segmenters in the order in which they came.
    pub open spec fn pull_many(self, count: nat) -> (RecognizerView, Seq<VadIterView>)
        decreases count,
    {
        if count == 0 {
            (self, Seq::empty())
        } else {
            let (pool, pulled) = self.pull_many((count - 1) as nat);
            let (left, vad) = pool.pull();
            (left, pulled.push(vad))
        }
    }
}

/// A stream gets the same speech intervals whenever a pool processes it:
/// they follow from the pool's parameters and the stream alone, so that a
/// second call with the same stream gives what the first gave.
pub proof fn lemma_process_repeats(pool: RecognizerView, probs: Seq<u32>, total_samples: int)
    requires
        pool.well_formed(),
    ensures
        pool.process(probs, total_samples).0.well_formed(),
        pool.process(probs, total_samples).1 == speech_intervals(pool.params, probs, total_samples),
        pool.process(probs, total_samples).0.process(probs, total_samples).1 == pool.process(
            probs,
            total_samples,
        ).1,
{
    // A segmenter that the pool makes is its own, whatever its session.
    assert((pool.created % (pool.sessions_num as nat)) < pool.sessions_num) by (nonlinear_arith)
        requires
            pool.sessions_num >= 1,
    ;
}

/// Segmenters pulled one after another from an empty pool take the sessions
/// in turn, and each comes with the pool's parameters and a fresh state.
pub proof fn lemma_pulls_take_turns(pool: RecognizerView, count: nat)
    requires
        pool.sessions_num >= 1,
        pool.idle.len() == 0,
    ensures
        pool.pull_many(count).0 == (RecognizerView { created: pool.created + count, ..pool }),
        pool.pull_many(count).1.len() == count,
        forall|i: int|
            0 <= i < count ==> (#[trigger] pool.pull_many(count).1[i]) == (VadIterView {
                session: ((pool.created + i) % pool.sessions_num) as int,
                params: pool.params,
                state: StateView::fresh(pool.params.sample_rate as int),
            }),
    decreases count,
{
    if count > 0 {
        lemma_pulls_take_turns(pool, (count - 1) as nat);
    }
}

/// As long as no more segmenters are out than there are sessions, no two
/// of them share a session: segmenters pulled from a new pool one after
/// another, none attached in between, stand for sessions that all differ.
pub proof fn lemma_pulls_share_no_session(pool: RecognizerView, count: nat)
    requires
        pool.sessions_num >= 1,
        pool.idle.len() == 0,
        pool.created == 0,
        count <= pool.sessions_num,
    ensures
        forall|i: int, j: int|
            0 <= i < j < count ==> (#[trigger] pool.pull_many(count).1[i]).session != (
            #[trigger] pool.pull_many(count).1[j]).session,
{
    lemma_pulls_take_turns(pool, count);
    let all = pool.pull_many(count).1;
    assert forall|i: int, j: int| 0 <= i < j < count implies (#[trigger] all[i]).session != (
    #[trigger] all[j]).session by {
        assert(i % pool.sessions_num == i && j % pool.sessions_num == j) by (nonlinear_arith)
            requires
                0 <= i < j < pool.sessions_num,
        ;
    }
}

} // verus!
