use vstd::prelude::*;
use crate::config::supported_rate;
use crate::errors::VadError;

verus! {

#[verifier::external_type_specification]
#[verifier::external_body]
pub struct ExVad(webrtc_vad::Vad);

/// Relies on webrtc_vad::Vad::new_with_rate_and_mode: creates an engine
/// configured for the given rate and mode. It panics only on a memory
/// allocation failure, never for these arguments.
#[verifier::external_body]
pub(crate) fn engine_new(rate: i32, mode: i32) -> webrtc_vad::Vad
    requires
        supported_rate(rate as int),
        0 <= mode <= 3,
{
    let vad_rate = webrtc_vad::SampleRate::try_from(rate)
        .unwrap_or(webrtc_vad::SampleRate::Rate8kHz);
    let vad_mode = match mode {
        1 => webrtc_vad::VadMode::LowBitrate,
        2 => webrtc_vad::VadMode::Aggressive,
        3 => webrtc_vad::VadMode::VeryAggressive,
        _ => webrtc_vad::VadMode::Quality,
    };
    webrtc_vad::Vad::new_with_rate_and_mode(vad_rate, vad_mode)
}

/// Relies on webrtc_vad::Vad::reset: clears all adaptive state and resets
/// the engine's rate and mode to their defaults (8000 Hz, quality).
#[verifier::external_body]
pub(crate) fn engine_reset(vad: &mut webrtc_vad::Vad) {
    vad.reset();
}

/// Relies on webrtc_vad::Vad::set_sample_rate: reconfigures the engine's
/// input rate, keeping adaptive state. It asserts success, which the engine
/// guarantees for the four supported rates.
#[verifier::external_body]
pub(crate) fn engine_set_rate(vad: &mut webrtc_vad::Vad, rate: i32)
    requires
        supported_rate(rate as int),
{
    let vad_rate = webrtc_vad::SampleRate::try_from(rate)
        .unwrap_or(webrtc_vad::SampleRate::Rate8kHz);
    vad.set_sample_rate(vad_rate);
}

/// Relies on webrtc_vad::Vad::set_mode: re-derives the engine's thresholds
/// for the new aggressiveness level, keeping adaptive state. It asserts
/// success, which the engine guarantees for modes 0 through 3.
#[verifier::external_body]
pub(crate) fn engine_set_mode(vad: &mut webrtc_vad::Vad, mode: i32)
    requires
        0 <= mode <= 3,
{
    let vad_mode = match mode {
        1 => webrtc_vad::VadMode::LowBitrate,
        2 => webrtc_vad::VadMode::Aggressive,
        3 => webrtc_vad::VadMode::VeryAggressive,
        _ => webrtc_vad::VadMode::Quality,
    };
    vad.set_mode(vad_mode);
}

/// Relies on webrtc_vad::Vad::is_voice_segment: classifies one frame,
/// updating the engine's adaptive state; Ok(true) is active voice, Ok(false)
/// non-voice, Err(()) an invalid frame length. It indexes the first sample,
/// so the frame must not be empty.
#[verifier::external_body]
pub(crate) fn engine_classify(vad: &mut webrtc_vad::Vad, frame: &Vec<i16>) -> Result<bool, ()>
    requires
        frame@.len() >= 1,
{
    vad.is_voice_segment(frame.as_slice())
}

/// What the detector reports for each outcome of the engine's decision:
/// a decision passes through unchanged, an engine failure becomes a
/// classification error, never a silent non-voice default.
pub open spec fn spec_decision(engine_result: Result<bool, ()>) -> Result<bool, VadError> {
    match engine_result {
        Ok(b) => Ok(b),
        Err(_) => Err(VadError::ClassificationError),
    }
}

/// Maps one engine outcome onto the detector's result, as
/// [`spec_decision`] states.
pub fn decision_of_engine(engine_result: Result<bool, ()>) -> (r: Result<bool, VadError>)
    ensures
        r == spec_decision(engine_result),
{
    match engine_result {
        Ok(b) => Ok(b),
        Err(_) => Err(VadError::ClassificationError),
    }
}

} // verus!
