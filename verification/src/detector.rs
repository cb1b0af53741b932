use vstd::prelude::*;
use crate::config::{canonical_mode, frame_len_ok, is_supported_rate, legal_frame_len,
    mode_from_code, supported_rate};
use crate::engine::{decision_of_engine, engine_classify, engine_new, engine_reset,
    engine_set_mode, engine_set_rate, spec_decision};
use crate::errors::VadError;

verus! {

/// A stateful voice activity detector.
///
/// It owns its configuration (sample rate in Hz and aggressiveness mode
/// code) and the underlying engine's adaptive per-sub-band statistics, which
/// every successful classification updates in place. A detector is a
/// single-owner value: dropping it releases the engine immediately.
pub struct Detector {
    /// The underlying engine; opaque, carrying the adaptive statistics.
    pub engine: webrtc_vad::Vad,
    /// The configured sample rate in Hz; always one of the supported rates.
    pub sample_rate: i32,
    /// The configured aggressiveness mode; always a canonical code 0..=3.
    pub mode: i32,
}

impl Detector {
    /// The configuration invariant every detector keeps: a supported sample
    /// rate and a canonical mode code.
    pub open spec fn wf(self) -> bool {
        supported_rate(self.sample_rate as int) && 0 <= self.mode <= 3
    }

    /// Creates a detector for the given sample rate and mode code.
    ///
    /// An unsupported sample rate is a configuration error. An unrecognized
    /// mode code is not an error: it falls back to the default (quality)
    /// mode, a deliberate backward-compatibility policy.
    pub fn create(sample_rate: i32, mode_code: i32) -> (r: Result<Detector, VadError>)
        ensures
            supported_rate(sample_rate as int) <==> r is Ok,
            !supported_rate(sample_rate as int) <==> r == Err::<Detector, VadError>(
                VadError::ConfigError),
            r matches Ok(d) ==> d.sample_rate == sample_rate
                && d.mode as int == canonical_mode(mode_code as int)
                && d.wf(),
    {
        if !is_supported_rate(sample_rate) {
            return Err(VadError::ConfigError);
        }
        let mode = mode_from_code(mode_code);
        let engine = engine_new(sample_rate, mode);
        Ok(Detector { engine, sample_rate, mode })
    }

    /// Reconfigures the aggressiveness mode without resetting the adaptive
    /// statistics accumulated so far. An unrecognized code falls back to the
    /// default (quality) mode.
    pub fn set_mode(&mut self, mode_code: i32)
        requires
            old(self).wf(),
        ensures
            final(self).sample_rate == old(self).sample_rate,
            final(self).mode as int == canonical_mode(mode_code as int),
            final(self).wf(),
    {
        let mode = mode_from_code(mode_code);
        engine_set_mode(&mut self.engine, mode);
        self.mode = mode;
    }

    /// Reconfigures the sample rate. An unsupported rate is a configuration
    /// error and leaves the detector untouched. A successful change resets
    /// the adaptive statistics: they are accumulated per rate and carrying
    /// them across a rate change would be meaningless.
    pub fn set_sample_rate(&mut self, sample_rate: i32) -> (r: Result<(), VadError>)
        requires
            old(self).wf(),
        ensures
            supported_rate(sample_rate as int) <==> r is Ok,
            r is Ok ==> final(self).sample_rate == sample_rate
                && final(self).mode == old(self).mode
                && final(self).wf(),
            !supported_rate(sample_rate as int) ==> r == Err::<(), VadError>(
                VadError::ConfigError) && *final(self) == *old(self),
    {
        if !is_supported_rate(sample_rate) {
            return Err(VadError::ConfigError);
        }
        self.sample_rate = sample_rate;
        self.reset();
        Ok(())
    }

    /// Reinitializes the adaptive statistics to their defaults while keeping
    /// the configured sample rate and mode; equivalent to destroying the
    /// detector and recreating it with the same configuration.
    pub fn reset(&mut self)
        requires
            old(self).wf(),
        ensures
            final(self).sample_rate == old(self).sample_rate,
            final(self).mode == old(self).mode,
            final(self).wf(),
    {
        engine_reset(&mut self.engine);
        engine_set_rate(&mut self.engine, self.sample_rate);
        engine_set_mode(&mut self.engine, self.mode);
    }

    /// Classifies one frame of signed 16-bit PCM samples as voice-bearing
    /// (`Ok(true)`) or not (`Ok(false)`).
    ///
    /// A frame whose length is not 10, 20 or 30 ms worth of samples at the
    /// configured rate is rejected with a frame error and the detector is
    /// left exactly as it was. A legal frame updates the adaptive statistics
    /// whichever way the decision goes; if the engine fails to produce a
    /// decision, that is reported as a classification error, distinguishable
    /// from a valid non-voice result.
    pub fn classify(&mut self, frame: &Vec<i16>) -> (r: Result<bool, VadError>)
        requires
            old(self).wf(),
        ensures
            final(self).sample_rate == old(self).sample_rate,
            final(self).mode == old(self).mode,
            final(self).wf(),
            !legal_frame_len(old(self).sample_rate as int, frame@.len() as int)
                <==> r == Err::<bool, VadError>(VadError::FrameError),
            r == Err::<bool, VadError>(VadError::FrameError) ==> *final(self) == *old(self),
            legal_frame_len(old(self).sample_rate as int, frame@.len() as int)
                ==> (r is Ok || r == Err::<bool, VadError>(VadError::ClassificationError)),
    {
        if !frame_len_ok(self.sample_rate, frame.len()) {
            return Err(VadError::FrameError);
        }
        let engine_result = engine_classify(&mut self.engine, frame);
        decision_of_engine(engine_result)
    }
}

} // verus!
