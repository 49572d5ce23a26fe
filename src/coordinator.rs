//! The per-frame driver: watches for the alignment tone until it is heard
//! once, then keeps the ring sliding and hands each frame's upload out.
use vstd::prelude::*;
use crate::detector::{lemma_detector_window, lemma_silence_never_matches, tones_match, Detector};
use crate::ring::{newest, CaptureRing, FillMode};
use crate::upload::{le_bytes, plan_upload, UploadPlan};

verus! {

/// Whether the session has aligned to the start signal.
#[derive(Clone, Copy, Debug, PartialEq, Eq, Structural)]
pub enum SyncState {
    /// No start signal heard yet.
    Waiting,
    /// The start signal was heard; final for the session.
    Locked,
}

/// The state after a frame in state `s` whose detection result was `fired`.
pub open spec fn next_state(s: SyncState, fired: bool) -> SyncState {
    if s == SyncState::Waiting && fired {
        SyncState::Locked
    } else {
        s
    }
}

/// The state after frames with detection results `fired`, starting in `s`.
pub open spec fn state_after(s: SyncState, fired: Seq<bool>) -> SyncState
    decreases fired.len(),
{
    if fired.len() == 0 {
        s
    } else {
        next_state(state_after(s, fired.drop_last()), fired.last())
    }
}

/// How many frames of such a run move from `Waiting` to `Locked`.
pub open spec fn lock_count(s: SyncState, fired: Seq<bool>) -> nat
    decreases fired.len(),
{
    if fired.len() == 0 {
        0
    } else {
        let before = state_after(s, fired.drop_last());
        lock_count(s, fired.drop_last()) + if before == SyncState::Waiting && fired.last() {
            1nat
        } else {
            0nat
        }
    }
}

/// A session locks at most once, whatever the detector reports, and never
/// once it has locked.
pub proof fn lemma_lock_at_most_once(s: SyncState, fired: Seq<bool>)
    ensures
        lock_count(s, fired) <= 1,
        s == SyncState::Locked ==> lock_count(s, fired) == 0,
        lock_count(s, fired) == 1 ==> state_after(s, fired) == SyncState::Locked,
        lock_count(s, fired) == 0 ==> state_after(s, fired) == s,
    decreases fired.len(),
{
    if fired.len() > 0 {
        lemma_lock_at_most_once(s, fired.drop_last());
    }
}

/// Once locked, no spectrum fires again: the lock, and its one clear of the
/// ring, happen at most once per session.
pub proof fn lemma_locked_never_fires(d: &FrameDriver, spectrum: Option<Seq<u64>>)
    requires
        d.state_spec() == SyncState::Locked,
    ensures
        !d.fires(spectrum),
{
}

/// Silence never locks: a frame with no window, or with a window whose
/// spectrum is all zeros, does not fire a fingerprint that asks for a
/// positive magnitude somewhere.
pub proof fn lemma_silence_keeps_waiting(d: &FrameDriver, mags: Seq<u64>)
    requires
        d.wf(),
        forall|i: int| 0 <= i < mags.len() ==> mags[i] == 0,
        exists|i: int|
            0 <= i < d.detector_spec().tones_spec().len() && (#[trigger] d.detector_spec().tones_spec()[i]).min_magnitude > 0,
    ensures
        !d.fires(None),
        !d.fires(Some(mags)),
{
    let det = d.detector_spec();
    lemma_detector_window(&det);
    if mags.len() == det.window_spec() {
        lemma_silence_never_matches(det.tones_spec(), det.window_spec(), det.rate_spec(), mags);
    }
}

/// What one frame produced.
pub struct FrameOutput {
    /// The start signal was heard in this frame; the ring was cleared.
    pub locked_now: bool,
    /// The copy of the ring's contents into the storage buffer.
    pub upload: UploadPlan,
}

/// The frame driver: a detector and the session's state.
pub struct FrameDriver {
    state: SyncState,
    detector: Detector,
}

impl FrameDriver {
    pub closed spec fn state_spec(&self) -> SyncState {
        self.state
    }

    pub closed spec fn detector_spec(&self) -> Detector {
        self.detector
    }

    pub closed spec fn wf(&self) -> bool {
        self.detector.wf()
    }

    /// The ring's fill mode follows the session: dropping while waiting,
    /// overwriting once locked.
    pub open spec fn in_step(&self, ring: &CaptureRing) -> bool {
        (self.state_spec() == SyncState::Waiting) == (ring.fill_mode() == FillMode::DropWhenFull)
    }

    /// Whether a frame in this state, given `spectrum`, hears the start
    /// signal.
    pub open spec fn fires(&self, spectrum: Option<Seq<u64>>) -> bool {
        &&& self.state_spec() == SyncState::Waiting
        &&& spectrum matches Some(m)
        &&& m.len() == self.detector_spec().window_spec()
        &&& tones_match(
            self.detector_spec().tones_spec(),
            self.detector_spec().window_spec(),
            self.detector_spec().rate_spec(),
            m,
        )
    }

    /// A driver that has not yet heard the start signal.
    pub fn new(detector: Detector) -> (r: FrameDriver)
        requires
            detector.wf(),
        ensures
            r.wf(),
            r.state_spec() == SyncState::Waiting,
            r.detector_spec() == detector,
    {
        FrameDriver { state: SyncState::Waiting, detector }
    }

    pub fn state(&self) -> (r: SyncState)
        ensures
            r == self.state_spec(),
    {
        self.state
    }

    pub fn detector(&self) -> (r: &Detector)
        ensures
            *r == self.detector_spec(),
    {
        &self.detector
    }

    /// The samples whose spectrum the next frame needs: the newest window's
    /// worth, while waiting and once the ring holds that many.
    pub fn detection_window(&self, ring: &CaptureRing) -> (r: Option<Vec<u32>>)
        ensures
            r is Some <==> (self.state_spec() == SyncState::Waiting && ring@.len()
                >= self.detector_spec().window_spec()),
            r matches Some(v) ==> v@ == newest(ring@, self.detector_spec().window_spec()),
    {
        match self.state {
            SyncState::Waiting => ring.tail(self.detector.window_len()),
            SyncState::Locked => None,
        }
    }

    /// One frame. `spectrum` holds the rounded-down magnitudes of the
    /// detection window's transform, or `None` when there was no window.
    /// Hearing the start signal clears the ring once and switches it to
    /// overwriting; then the ring's contents are planned for upload.
    pub fn frame(&mut self, ring: &mut CaptureRing, spectrum: Option<&Vec<u64>>) -> (r: FrameOutput)
        requires
            old(self).wf(),
            old(ring).wf(),
            4 * old(ring).cap() <= u64::MAX,
        ensures
            final(self).wf(),
            final(ring).wf(),
            final(self).detector_spec() == old(self).detector_spec(),
            final(ring).cap() == old(ring).cap(),
            r.locked_now == old(self).fires(
                match spectrum {
                    Some(m) => Some(m@),
                    None => None,
                },
            ),
            final(self).state_spec() == next_state(old(self).state_spec(), r.locked_now),
            r.locked_now ==> final(ring)@ == Seq::<u32>::empty() && final(ring).fill_mode()
                == FillMode::OverwriteOldest,
            !r.locked_now ==> final(ring)@ == old(ring)@ && final(ring).fill_mode() == old(
                ring,
            ).fill_mode(),
            old(self).in_step(&*old(ring)) ==> final(self).in_step(&*final(ring)),
            r.upload.bytes@ == le_bytes(final(ring)@),
            r.upload.copy_size == 4 * final(ring)@.len(),
    {
        let mut locked_now = false;
        if self.state == SyncState::Waiting {
            if let Some(m) = spectrum {
                if m.len() == self.detector.window_len() && self.detector.tones_present(m) {
                    ring.clear();
                    ring.enter_overwrite_mode();
                    self.state = SyncState::Locked;
                    locked_now = true;
                }
            }
        }
        let snapshot = ring.snapshot();
        proof {
            crate::ring::lemma_len_within_capacity(&*ring);
        }
        let planned = plan_upload(&snapshot, ring.capacity());
        match planned {
            Ok(upload) => FrameOutput { locked_now, upload },
            Err(_) => {
                proof {
                    assert(false);
                }
                FrameOutput { locked_now, upload: UploadPlan { bytes: Vec::new(), copy_size: 0 } }
            },
        }
    }
}

} // verus!
