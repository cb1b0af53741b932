use vstd::prelude::*;

verus! {

/// Everything that can go wrong when driving a detector.
///
/// Each failure is instance-scoped and reported synchronously to the caller;
/// none is retried and none aborts the process.
#[derive(Clone, Copy, Debug, PartialEq, Eq, Structural)]
pub enum VadError {
    /// An unsupported sample rate was given at construction or
    /// reconfiguration time.
    ConfigError,
    /// A frame's length does not match a legal duration (10, 20 or 30 ms)
    /// at the configured sample rate.
    FrameError,
    /// An operation was invoked on a destroyed or never-created instance.
    StateError,
    /// The underlying engine failed to produce a decision.
    ClassificationError,
}

impl VadError {
    /// A short description of the failure, for error reporting at the
    /// host boundary.
    pub fn describe(&self) -> (r: &'static str)
        ensures
            self is ConfigError ==> r@ == "unsupported sample rate"@,
            self is FrameError ==> r@ == "invalid frame length"@,
            self is StateError ==> r@ == "detector instance is destroyed"@,
            self is ClassificationError ==> r@ == "failed to calculate VAD"@,
    {
        match self {
            VadError::ConfigError => "unsupported sample rate",
            VadError::FrameError => "invalid frame length",
            VadError::StateError => "detector instance is destroyed",
            VadError::ClassificationError => "failed to calculate VAD",
        }
    }
}

} // verus!
