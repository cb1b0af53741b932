use vstd::prelude::*;
use crate::config::{canonical_mode, legal_frame_len, supported_rate};
use crate::detector::Detector;
use crate::errors::VadError;

verus! {

/// Owns every detector on behalf of a host that can only hold plain
/// integers. A successful `create` stores a detector in a fresh slot and
/// hands back the slot index as an opaque handle; `close` empties the slot
/// and never reuses it, so a destroyed handle is dead forever and every
/// later operation on it fails with a state error instead of touching
/// freed memory.
pub struct DetectorRegistry {
    /// One slot per handle ever issued; `None` once the handle is closed.
    pub slots: Vec<Option<Detector>>,
}

impl DetectorRegistry {
    /// Every detector still stored satisfies the detector invariant.
    pub open spec fn wf(self) -> bool {
        forall|i: int|
            0 <= i < self.slots@.len() ==> ((#[trigger] self.slots@[i]) matches Some(d)
                ==> d.wf())
    }

    /// A handle is live when it was issued and not yet closed.
    pub open spec fn live(self, h: int) -> bool {
        0 <= h < self.slots@.len() && self.slots@[h] is Some
    }

    /// The detector a live handle designates.
    pub open spec fn detector_at(self, h: int) -> Detector {
        self.slots@[h]->Some_0
    }

    /// Slots other than `h` are exactly as they were.
    pub open spec fn others_unchanged(pre: Self, post: Self, h: int) -> bool {
        post.slots@.len() == pre.slots@.len() && forall|i: int|
            0 <= i < pre.slots@.len() && i != h ==> post.slots@[i] == pre.slots@[i]
    }

    /// Destruction is terminal. Every operation on a live handle leaves the
    /// other slots exactly as they were, so a handle that is dead before
    /// such an operation is still dead after it: no operation on one handle
    /// ever revives another.
    pub proof fn lemma_dead_handle_stays_dead(pre: Self, post: Self, dead: int, touched: int)
        requires
            !pre.live(dead),
            Self::others_unchanged(pre, post, touched),
            dead != touched,
        ensures
            !post.live(dead),
    {
    }

    /// A fresh handle never collides with a dead one: `create` issues the
    /// next never-used slot index and leaves every existing slot as it was,
    /// so a handle that was dead before a `create` is still dead after it.
    pub proof fn lemma_create_revives_nothing(pre: Self, post: Self, dead: int, fresh: int)
        requires
            !pre.live(dead),
            fresh == pre.slots@.len(),
            post.slots@.len() == pre.slots@.len() + 1,
            forall|i: int| 0 <= i < pre.slots@.len() ==> post.slots@[i] == pre.slots@[i],
        ensures
            dead != fresh ==> !post.live(dead),
    {
    }

    /// An empty registry: no handle has ever been issued.
    pub fn new() -> (r: DetectorRegistry)
        ensures
            r.slots@.len() == 0,
            r.wf(),
    {
        DetectorRegistry { slots: Vec::new() }
    }

    /// Creates a detector and issues a fresh handle for it.
    ///
    /// An unsupported sample rate is a configuration error and leaves the
    /// registry untouched; an unrecognized mode code falls back to the
    /// default (quality) mode. Existing handles are never disturbed.
    pub fn create(&mut self, sample_rate: i32, mode_code: i32) -> (r: Result<usize, VadError>)
        requires
            old(self).wf(),
        ensures
            final(self).wf(),
            supported_rate(sample_rate as int) <==> r is Ok,
            !supported_rate(sample_rate as int) ==> r == Err::<usize, VadError>(
                VadError::ConfigError) && final(self).slots@ =~= old(self).slots@,
            r matches Ok(h) ==> h as int == old(self).slots@.len()
                && final(self).slots@.len() == old(self).slots@.len() + 1
                && (forall|i: int|
                0 <= i < old(self).slots@.len() ==> final(self).slots@[i] == old(self).slots@[i])
                && final(self).live(h as int)
                && final(self).detector_at(h as int).sample_rate == sample_rate
                && final(self).detector_at(h as int).mode as int == canonical_mode(
                mode_code as int),
    {
        match Detector::create(sample_rate, mode_code) {
            Ok(d) => {
                let h = self.slots.len();
                self.slots.push(Some(d));
                Ok(h)
            },
            Err(e) => Err(e),
        }
    }

    /// Destroys the detector behind a handle, releasing it immediately.
    ///
    /// The slot is emptied and never reused: closing an already-closed or
    /// never-issued handle is a state error, not a silent no-op.
    pub fn close(&mut self, handle: usize) -> (r: Result<(), VadError>)
        requires
            old(self).wf(),
        ensures
            final(self).wf(),
            old(self).live(handle as int) <==> r is Ok,
            r is Ok ==> final(self).slots@ =~= old(self).slots@.update(handle as int, None),
            r is Ok ==> !final(self).live(handle as int),
            !old(self).live(handle as int) ==> r == Err::<(), VadError>(VadError::StateError)
                && final(self).slots@ =~= old(self).slots@,
    {
        if handle >= self.slots.len() {
            return Err(VadError::StateError);
        }
        let slot = &mut self.slots[handle];
        if slot.is_some() {
            *slot = None;
            Ok(())
        } else {
            Err(VadError::StateError)
        }
    }

    /// Classifies one frame with the detector behind a live handle; see
    /// [`Detector::classify`] for the decision contract.
    ///
    /// A dead handle is a state error and nothing is read or written; a
    /// frame of illegal length is a frame error and the detector keeps its
    /// state untouched.
    pub fn classify(&mut self, handle: usize, frame: &Vec<i16>) -> (r: Result<bool, VadError>)
        requires
            old(self).wf(),
        ensures
            final(self).wf(),
            !old(self).live(handle as int) ==> r == Err::<bool, VadError>(VadError::StateError)
                && final(self).slots@ =~= old(self).slots@,
            old(self).live(handle as int) ==> Self::others_unchanged(*old(self), *final(self),
                handle as int) && final(self).live(handle as int)
                && final(self).detector_at(handle as int).sample_rate == old(self).detector_at(
                handle as int).sample_rate
                && final(self).detector_at(handle as int).mode == old(self).detector_at(
                handle as int).mode,
            old(self).live(handle as int) ==> (!legal_frame_len(old(self).detector_at(
                handle as int).sample_rate as int, frame@.len() as int) <==> r == Err::<
                bool,
                VadError,
            >(VadError::FrameError)),
            old(self).live(handle as int) && r == Err::<bool, VadError>(VadError::FrameError)
                ==> final(self).slots@ =~= old(self).slots@,
            old(self).live(handle as int) && legal_frame_len(old(self).detector_at(
                handle as int).sample_rate as int, frame@.len() as int) ==> (r is Ok || r
                == Err::<bool, VadError>(VadError::ClassificationError)),
    {
        if handle >= self.slots.len() {
            return Err(VadError::StateError);
        }
        match &mut self.slots[handle] {
            Some(d) => d.classify(frame),
            None => Err(VadError::StateError),
        }
    }

    /// Reinitializes the adaptive statistics of the detector behind a live
    /// handle, keeping its configuration; a dead handle is a state error.
    pub fn reset(&mut self, handle: usize) -> (r: Result<(), VadError>)
        requires
            old(self).wf(),
        ensures
            final(self).wf(),
            old(self).live(handle as int) <==> r is Ok,
            !old(self).live(handle as int) ==> r == Err::<(), VadError>(VadError::StateError)
                && final(self).slots@ =~= old(self).slots@,
            old(self).live(handle as int) ==> Self::others_unchanged(*old(self), *final(self),
                handle as int) && final(self).live(handle as int)
                && final(self).detector_at(handle as int).sample_rate == old(self).detector_at(
                handle as int).sample_rate
                && final(self).detector_at(handle as int).mode == old(self).detector_at(
                handle as int).mode,
    {
        if handle >= self.slots.len() {
            return Err(VadError::StateError);
        }
        match &mut self.slots[handle] {
            Some(d) => {
                d.reset();
                Ok(())
            },
            None => Err(VadError::StateError),
        }
    }

    /// Reconfigures the aggressiveness mode of the detector behind a live
    /// handle, keeping its adaptive statistics; an unrecognized code falls
    /// back to the default (quality) mode. A dead handle is a state error.
    pub fn set_mode(&mut self, handle: usize, mode_code: i32) -> (r: Result<(), VadError>)
        requires
            old(self).wf(),
        ensures
            final(self).wf(),
            old(self).live(handle as int) <==> r is Ok,
            !old(self).live(handle as int) ==> r == Err::<(), VadError>(VadError::StateError)
                && final(self).slots@ =~= old(self).slots@,
            old(self).live(handle as int) ==> Self::others_unchanged(*old(self), *final(self),
                handle as int) && final(self).live(handle as int)
                && final(self).detector_at(handle as int).sample_rate == old(self).detector_at(
                handle as int).sample_rate
                && final(self).detector_at(handle as int).mode as int == canonical_mode(
                mode_code as int),
    {
        if handle >= self.slots.len() {
            return Err(VadError::StateError);
        }
        match &mut self.slots[handle] {
            Some(d) => {
                d.set_mode(mode_code);
                Ok(())
            },
            None => Err(VadError::StateError),
        }
    }

    /// Reconfigures the sample rate of the detector behind a live handle.
    ///
    /// A dead handle is a state error; an unsupported rate is a
    /// configuration error and the detector keeps its state untouched. A
    /// successful change resets the adaptive statistics.
    pub fn set_sample_rate(&mut self, handle: usize, sample_rate: i32) -> (r: Result<
        (),
        VadError,
    >)
        requires
            old(self).wf(),
        ensures
            final(self).wf(),
            !old(self).live(handle as int) ==> r == Err::<(), VadError>(VadError::StateError)
                && final(self).slots@ =~= old(self).slots@,
            old(self).live(handle as int) ==> (r is Ok <==> supported_rate(sample_rate as int)),
            old(self).live(handle as int) && !supported_rate(sample_rate as int) ==> r == Err::<
                (),
                VadError,
            >(VadError::ConfigError) && final(self).slots@ =~= old(self).slots@,
            old(self).live(handle as int) && supported_rate(sample_rate as int)
                ==> Self::others_unchanged(*old(self), *final(self), handle as int)
                && final(self).live(handle as int)
                && final(self).detector_at(handle as int).sample_rate == sample_rate
                && final(self).detector_at(handle as int).mode == old(self).detector_at(
                handle as int).mode,
    {
        if handle >= self.slots.len() {
            return Err(VadError::StateError);
        }
        match &mut self.slots[handle] {
            Some(d) => d.set_sample_rate(sample_rate),
            None => Err(VadError::StateError),
        }
    }
}

} // verus!
