use vstd::prelude::*;

verus! {

/// The sample rates the engine supports, in Hz.
pub open spec fn supported_rate(rate: int) -> bool {
    rate == 8000 || rate == 16000 || rate == 32000 || rate == 48000
}

/// Runtime check matching [`supported_rate`].
pub fn is_supported_rate(rate: i32) -> (r: bool)
    ensures
        r == supported_rate(rate as int),
{
    rate == 8000 || rate == 16000 || rate == 32000 || rate == 48000
}

/// Aggressiveness mode codes understood by the engine. Any other code
/// silently falls back to the default (quality) mode.
pub open spec fn canonical_mode(code: int) -> int {
    if code == 1 || code == 2 || code == 3 {
        code
    } else {
        0
    }
}

/// Maps an arbitrary mode code onto the engine's four modes, falling back
/// to the default (quality, code 0) for unrecognized codes.
pub fn mode_from_code(code: i32) -> (m: i32)
    ensures
        m as int == canonical_mode(code as int),
        0 <= m <= 3,
{
    if code == 1 || code == 2 || code == 3 {
        code
    } else {
        0
    }
}

/// A frame is legal when it holds exactly 10, 20 or 30 ms worth of samples
/// at the given sample rate.
pub open spec fn legal_frame_len(rate: int, len: int) -> bool {
    len == rate / 100 || len == rate / 50 || len == 3 * (rate / 100)
}

/// Runtime check matching [`legal_frame_len`] for a supported rate.
pub fn frame_len_ok(rate: i32, len: usize) -> (r: bool)
    requires
        supported_rate(rate as int),
    ensures
        r == legal_frame_len(rate as int, len as int),
{
    let ten_ms: usize = (rate / 100) as usize;
    len == ten_ms || len == 2 * ten_ms || len == 3 * ten_ms
}

} // verus!
