use vstd::prelude::*;
use vstd::string::StringExecFns;

use crate::error::VadServiceError;
use crate::recognizer::Recognizer;
use crate::recognizer::RecognizerView;
use crate::settings::VadSettings;
use crate::utils::TimeSpan;
use crate::utils::TimeStamp;
use crate::utils::time_spans;
use crate::vad_iter::VadIter;
use crate::vad_iter::VadIterView;

verus! {

/// Detection for both sample rates: one pool of segmenters for streams at
/// 8000 samples per second and one for streams at 16000.
pub struct VadService {
    recognizer_8k: Recognizer,
    recognizer_16k: Recognizer,
}

pub struct VadServiceView {
    pub recognizer_8k: RecognizerView,
    pub recognizer_16k: RecognizerView,
}

impl VadServiceView {
    /// Whether the service takes streams at `sample_rate`.
    pub open spec fn takes(sample_rate: int) -> bool {
        sample_rate == 8000 || sample_rate == 16000
    }

    /// The pool for streams at `sample_rate`, which is 8000 or 16000.
    pub open spec fn pool(self, sample_rate: int) -> RecognizerView {
        if sample_rate == 8000 {
            self.recognizer_8k
        } else {
            self.recognizer_16k
        }
    }

    /// The service with `pool` in the place of its pool for streams at `sample_rate`.
    pub open spec fn with_pool(self, sample_rate: int, pool: RecognizerView) -> VadServiceView {
        if sample_rate == 8000 {
            VadServiceView { recognizer_8k: pool, ..self }
        } else {
            VadServiceView { recognizer_16k: pool, ..self }
        }
    }
}

impl View for VadService {
    type V = VadServiceView;

    closed spec fn view(&self) -> VadServiceView {
        VadServiceView { recognizer_8k: self.recognizer_8k@, recognizer_16k: self.recognizer_16k@ }
    }
}

impl VadService {
    pub closed spec fn wf(&self) -> bool {
        &&& self.recognizer_8k.wf()
        &&& self.recognizer_16k.wf()
        &&& self.recognizer_8k@.params.sample_rate == 8000
        &&& self.recognizer_16k@.params.sample_rate == 16000
    }

    /// A service with two empty pools, each over `settings.sessions_num`
    /// scoring sessions and each configured from `settings` for its sample rate.
    pub fn new(settings: &VadSettings) -> (made: Result<VadService, VadServiceError>)
        requires
            settings.sessions_num >= 1,
            settings.params_at(8000).derivable(),
            settings.params_at(16000).derivable(),
        ensures
            made matches Ok(service) && {
                &&& service.wf()
                &&& service@.recognizer_8k.idle == Seq::<VadIterView>::empty()
                &&& service@.recognizer_8k.sessions_num == settings.sessions_num
                &&& service@.recognizer_8k.created == 0
                &&& service@.recognizer_8k.params.derived_from(settings.params_at(8000))
                &&& service@.recognizer_16k.idle == Seq::<VadIterView>::empty()
                &&& service@.recognizer_16k.sessions_num == settings.sessions_num
                &&& service@.recognizer_16k.created == 0
                &&& service@.recognizer_16k.params.derived_from(settings.params_at(16000))
            },
    {
        let vad_params_8k = settings.vad_params(8000);
        let vad_params_16k = settings.vad_params(16000);
        let recognizer_8k = match Recognizer::new(vad_params_8k, settings.sessions_num) {
            Ok(recognizer) => recognizer,
            Err(error) => {
                return Err(VadServiceError::VadError(error));
            },
        };
        let recognizer_16k = match Recognizer::new(vad_params_16k, settings.sessions_num) {
            Ok(recognizer) => recognizer,
            Err(error) => {
                return Err(VadServiceError::VadError(error));
            },
        };
        Ok(VadService { recognizer_8k, recognizer_16k })
    }

    /// Takes a segmenter for one stream at `sample_rate` out of its pool.
    /// Any rate other than 8000 and 16000 is refused.
    pub fn pull(&mut self, sample_rate: u32) -> (pulled: Result<VadIter, VadServiceError>)
        requires
            old(self).wf(),
        ensures
            final(self).wf(),
            match pulled {
                Ok(vad) => {
                    &&& VadServiceView::takes(sample_rate as int)
                    &&& vad.wf()
                    &&& vad@.params.sample_rate == sample_rate
                    &&& final(self)@.pool(sample_rate as int).owns(vad@)
                    &&& (final(self)@.pool(sample_rate as int), vad@) == old(self)@.pool(
                        sample_rate as int,
                    ).pull()
                    &&& final(self)@ == old(self)@.with_pool(
                        sample_rate as int,
                        final(self)@.pool(sample_rate as int),
                    )
                },
                Err(error) => {
                    &&& !VadServiceView::takes(sample_rate as int)
                    &&& error matches VadServiceError::InvalidAudio(details)
                    &&& details@ == "Unsupported sample rate"@
                    &&& final(self)@ == old(self)@
                },
            },
    {
        if sample_rate == 8000 {
            Ok(self.recognizer_8k.pull())
        } else if sample_rate == 16000 {
            Ok(self.recognizer_16k.pull())
        } else {
            Err(VadServiceError::InvalidAudio(String::from_str("Unsupported sample rate")))
        }
    }

    /// Puts a segmenter that was pulled from this service back into its pool.
    pub fn attach(&mut self, vad: VadIter)
        requires
            old(self).wf(),
            vad.wf(),
            VadServiceView::takes(vad@.params.sample_rate as int),
            old(self)@.pool(vad@.params.sample_rate as int).owns(vad@),
        ensures
            final(self).wf(),
            final(self)@ == old(self)@.with_pool(
                vad@.params.sample_rate as int,
                old(self)@.pool(vad@.params.sample_rate as int).attach(vad@),
            ),
    {
        if vad.params().sample_rate == 8000 {
            self.recognizer_8k.attach(vad);
        } else {
            self.recognizer_16k.attach(vad);
        }
    }

    /// The speech intervals of one stream of `total_samples` samples at
    /// `sample_rate`, from the probabilities of its frames. Any rate other
    /// than 8000 and 16000 is refused.
    pub fn recognize(&mut self, probs: &[u32], total_samples: usize, sample_rate: u32) -> (found:
        Result<Vec<TimeStamp>, VadServiceError>)
        requires
            old(self).wf(),
            total_samples <= isize::MAX,
            VadServiceView::takes(sample_rate as int) ==> probs.len() * old(self)@.pool(
                sample_rate as int,
            ).params.frame_size_samples <= isize::MAX,
        ensures
            final(self).wf(),
            match found {
                Ok(speeches) => {
                    &&& VadServiceView::takes(sample_rate as int)
                    &&& (final(self)@.pool(sample_rate as int), time_spans(speeches@)) == old(
                        self,
                    )@.pool(sample_rate as int).process(probs@, total_samples as int)
                    &&& final(self)@ == old(self)@.with_pool(
                        sample_rate as int,
                        final(self)@.pool(sample_rate as int),
                    )
                },
                Err(error) => {
                    &&& !VadServiceView::takes(sample_rate as int)
                    &&& error matches VadServiceError::InvalidAudio(details)
                    &&& details@ == "Unsupported sample rate"@
                    &&& final(self)@ == old(self)@
                },
            },
    {
        if sample_rate == 8000 {
            Ok(self.recognizer_8k.process(probs, total_samples))
        } else if sample_rate == 16000 {
            Ok(self.recognizer_16k.process(probs, total_samples))
        } else {
            Err(VadServiceError::InvalidAudio(String::from_str("Unsupported sample rate")))
        }
    }
}

} // verus!
