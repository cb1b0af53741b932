use vstd::prelude::*;

verus! {

/// An exception to be surfaced to the managed host: a class name in the
/// host's binary-name form and a human-readable message.
pub struct JavaException {
    pub class: String,
    pub message: String,
}

impl JavaException {
    /// Builds the detector's exception: the fixed detector exception class
    /// carrying the given message.
    pub fn new_vad(message: String) -> (e: JavaException)
        ensures
            e.class@ == "com/plasmoverse/vad/VadException"@,
            e.message@ == message@,
    {
        JavaException { class: "com/plasmoverse/vad/VadException".to_string(), message }
    }
}

} // verus!
