//! Suppression of origin spikes in the tracking input.
//!
//! When a tracker loses the face it often reports a neutral pose for a few
//! frames. The stabilizer keeps showing the last good frame while such
//! spikes arrive, but for at most [`MAX_HOLD_FRAMES`] frames in a row, so
//! the output never freezes. Whether a frame is a spike is judged by the
//! caller against [`TrackingFrameStabilizer::last_good`]; the stabilizer
//! holds frames of any copyable type.
use vstd::prelude::*;

verus! {

/// The most consecutive frames held back before input is accepted again.
pub const MAX_HOLD_FRAMES: u32 = 5;

/// The spike filter's state.
#[derive(Debug)]
pub struct TrackingFrameStabilizer<F> {
    enabled: bool,
    last_good: Option<F>,
    hold_count: u32,
    max_hold_frames: u32,
}

impl<F> TrackingFrameStabilizer<F> {
    #[verifier::type_invariant]
    spec fn wf(self) -> bool {
        &&& self.max_hold_frames == MAX_HOLD_FRAMES
        &&& self.hold_count <= self.max_hold_frames
        &&& self.last_good is None ==> self.hold_count == 0
    }

    pub closed spec fn spec_enabled(self) -> bool {
        self.enabled
    }

    pub closed spec fn spec_last_good(self) -> Option<F> {
        self.last_good
    }

    /// Consecutive frames held back so far.
    pub closed spec fn spec_hold_count(self) -> u32 {
        self.hold_count
    }

}

impl<F: Copy> TrackingFrameStabilizer<F> {
    /// A stabilizer with no frame seen yet.
    pub fn new(enabled: bool) -> (s: Self)
        ensures
            s.spec_enabled() == enabled,
            s.spec_last_good() is None,
            s.spec_hold_count() == 0,
    {
        TrackingFrameStabilizer { enabled, last_good: None, hold_count: 0, max_hold_frames: MAX_HOLD_FRAMES }
    }

    /// Switches the filter; switching it off also forgets the last frame.
    pub fn set_enabled(&mut self, enabled: bool)
        ensures
            final(self).spec_enabled() == enabled,
            enabled ==> final(self).spec_last_good() == old(self).spec_last_good()
                && final(self).spec_hold_count() == old(self).spec_hold_count(),
            !enabled ==> final(self).spec_last_good() is None && final(self).spec_hold_count() == 0,
    {
        proof {
            use_type_invariant(&*self);
        }
        self.enabled = enabled;
        if !enabled {
            self.reset();
        }
    }

    pub fn is_enabled(&self) -> (b: bool)
        ensures
            b == self.spec_enabled(),
    {
        self.enabled
    }

    /// The last frame let through, against which the next frame is judged.
    pub fn last_good(&self) -> (f: Option<F>)
        ensures
            f == self.spec_last_good(),
    {
        self.last_good
    }

    /// Forgets the last frame.
    pub fn reset(&mut self)
        ensures
            final(self).spec_enabled() == old(self).spec_enabled(),
            final(self).spec_last_good() is None,
            final(self).spec_hold_count() == 0,
    {
        proof {
            use_type_invariant(&*self);
        }
        self.hold_count = 0;
        self.last_good = None;
    }

    /// Filters one frame; `spike` tells whether it looks like an origin
    /// spike compared with [`Self::last_good`]. Returns the frame itself,
    /// or the last good frame while a spike is held back.
    pub fn update(&mut self, frame: F, spike: bool) -> (out: F)
        ensures
            final(self).spec_enabled() == old(self).spec_enabled(),
            (out, final(self).spec_last_good(), final(self).spec_hold_count()) == stabilize(
                old(self).spec_enabled(),
                old(self).spec_last_good(),
                old(self).spec_hold_count(),
                frame,
                spike,
            ),
            old(self).spec_hold_count() <= MAX_HOLD_FRAMES,
    {
        proof {
            use_type_invariant(&*self);
        }
        if !self.enabled {
            return frame;
        }
        let last = match self.last_good {
            None => {
                self.last_good = Some(frame);
                return frame;
            },
            Some(last) => last,
        };
        if self.hold_count >= self.max_hold_frames {
            self.last_good = Some(frame);
            self.hold_count = 0;
            return frame;
        }
        if spike {
            self.hold_count = self.hold_count + 1;
            return last;
        }
        self.last_good = Some(frame);
        self.hold_count = 0;
        frame
    }
}

/// One step of the filter: the frame shown, the new last good frame and
/// the new count of held frames. A disabled filter lets everything through
/// and keeps its state; the first frame is always let through; a spike is
/// held back (the last good frame is shown) unless the limit of held frames
/// was reached; any other frame is let through and becomes the last good
/// one.
pub open spec fn stabilize<F>(enabled: bool, last: Option<F>, hold: u32, frame: F, spike: bool) -> (
    F,
    Option<F>,
    u32,
) {
    if !enabled {
        (frame, last, hold)
    } else {
        match last {
            None => (frame, Some(frame), 0),
            Some(l) => if hold < MAX_HOLD_FRAMES && spike {
                (l, Some(l), (hold + 1) as u32)
            } else {
                (frame, Some(frame), 0)
            },
        }
    }
}

/// The output never freezes: once the limit of held frames is reached,
/// the next frame is shown whatever it is.
pub proof fn law_stabilizer_never_freezes<F>(last: Option<F>, frame: F, spike: bool)
    ensures
        stabilize(true, last, MAX_HOLD_FRAMES, frame, spike).0 == frame,
{
}

/// The count of held frames never exceeds the limit, and a frame that is
/// not a spike is always shown.
pub proof fn law_hold_is_bounded<F>(enabled: bool, last: Option<F>, hold: u32, frame: F, spike: bool)
    requires
        hold <= MAX_HOLD_FRAMES,
    ensures
        stabilize(enabled, last, hold, frame, spike).2 <= MAX_HOLD_FRAMES,
        !spike ==> stabilize(enabled, last, hold, frame, spike).0 == frame,
{
}


/// The frames shown, the last good frame and the held count after feeding
/// `frames` (with their spike flags) one by one.
pub open spec fn stabilize_run<F>(
    enabled: bool,
    last: Option<F>,
    hold: u32,
    frames: Seq<F>,
    spikes: Seq<bool>,
) -> (Seq<F>, Option<F>, u32)
    decreases frames.len(),
{
    if frames.len() == 0 || spikes.len() == 0 {
        (Seq::empty(), last, hold)
    } else {
        let step = stabilize(enabled, last, hold, frames[0], spikes[0]);
        let rest = stabilize_run(enabled, step.1, step.2, frames.drop_first(), spikes.drop_first());
        (seq![step.0] + rest.0, rest.1, rest.2)
    }
}

/// A frame that is not a spike is shown, becomes the last good frame and
/// starts the count of held frames afresh.
pub proof fn law_good_frame_resets_hold<F>(last: Option<F>, hold: u32, frame: F)
    ensures
        stabilize(true, last, hold, frame, false) == (frame, Some(frame), 0u32),
{
}

proof fn lemma_spikes_hold_good_frame<F>(good: F, hold: u32, frames: Seq<F>, n: nat)
    requires
        hold + n <= MAX_HOLD_FRAMES,
        frames.len() == n,
    ensures
        stabilize_run(true, Some(good), hold, frames, Seq::new(n, |i: int| true)).0 == Seq::new(
            n,
            |i: int| good,
        ),
    decreases n,
{
    let spikes = Seq::new(n, |i: int| true);
    if n > 0 {
        assert(spikes.drop_first() =~= Seq::new((n - 1) as nat, |i: int| true));
        lemma_spikes_hold_good_frame(good, (hold + 1) as u32, frames.drop_first(), (n - 1) as nat);
        assert(seq![good] + Seq::new((n - 1) as nat, |i: int| good) =~= Seq::new(n, |i: int| good));
    } else {
        assert(Seq::<F>::empty() =~= Seq::new(n, |i: int| good));
    }
}

/// After a good frame, up to the limit of spikes in a row are all held
/// back: each of them shows that good frame, whatever the earlier count of
/// held frames was.
pub proof fn law_spikes_after_good_frame_are_held<F>(
    last: Option<F>,
    hold: u32,
    good: F,
    spike_frames: Seq<F>,
)
    requires
        spike_frames.len() <= MAX_HOLD_FRAMES,
    ensures
        stabilize_run(
            true,
            last,
            hold,
            seq![good] + spike_frames,
            seq![false] + Seq::new(spike_frames.len(), |i: int| true),
        ).0 == Seq::new(spike_frames.len() + 1, |i: int| good),
{
    let n = spike_frames.len();
    let frames = seq![good] + spike_frames;
    let spikes = seq![false] + Seq::new(n, |i: int| true);
    assert(frames[0] == good);
    assert(spikes[0] == false);
    assert(frames.drop_first() =~= spike_frames);
    assert(spikes.drop_first() =~= Seq::new(n, |i: int| true));
    lemma_spikes_hold_good_frame(good, 0, spike_frames, n);
    assert(seq![good] + Seq::new(n, |i: int| good) =~= Seq::new(n + 1, |i: int| good));
}

/// A disabled filter shows every frame and keeps its state; an enabled one
/// shows the first frame it sees and keeps it as the last good frame.
pub proof fn law_disabled_and_first_frames_pass<F>(last: Option<F>, hold: u32, frame: F, spike: bool)
    ensures
        stabilize(false, last, hold, frame, spike) == (frame, last, hold),
        stabilize(true, None::<F>, hold, frame, spike) == (frame, Some(frame), 0u32),
{
}
} // verus!
