//! The four-direction keyboard backend: each axis is a hysteresis state
//! machine (negative, neutral, positive) whose transitions become key
//! presses and releases.
//!
//! How an axis value compares with the press and release thresholds is
//! handed in as an `AxisReading`; the state machine and the key events are
//! decided here.
use vstd::prelude::*;

verus! {

pub const VK_A: u16 = 0x41;

pub const VK_D: u16 = 0x44;

pub const VK_W: u16 = 0x57;

pub const VK_S: u16 = 0x53;

/// Where one axis currently rests.
#[derive(Debug, Clone, Copy, PartialEq, Eq, Structural)]
pub enum AxisState {
    Negative,
    Neutral,
    Positive,
}

#[derive(Debug, Clone, Copy, PartialEq, Eq, Structural)]
pub enum KeyEventKind {
    Down,
    Up,
}

#[derive(Debug, Clone, Copy, PartialEq, Eq, Structural)]
pub struct KeyEvent {
    pub virtual_key: u16,
    pub kind: KeyEventKind,
}

/// The keys for the four directions.
#[derive(Debug, Clone, Copy, PartialEq, Eq, Structural)]
pub struct Keybinds {
    pub left: u16,
    pub right: u16,
    pub up: u16,
    pub down: u16,
}

impl Default for Keybinds {
    fn default() -> (r: Self)
        ensures
            r == (Keybinds { left: VK_A, right: VK_D, up: VK_W, down: VK_S }),
    {
        Keybinds { left: VK_A, right: VK_D, up: VK_W, down: VK_S }
    }
}

/// How an axis value `v` compares with the press threshold `p` and the
/// release threshold `r`.
#[derive(Debug, Clone, Copy, PartialEq, Eq, Structural)]
pub struct AxisReading {
    /// `v <= -p`
    pub at_or_below_negative_press: bool,
    /// `v >= p`
    pub at_or_above_press: bool,
    /// `v >= -r`
    pub at_or_above_negative_release: bool,
    /// `v <= r`
    pub at_or_below_release: bool,
}

/// The hysteresis step: a held direction is released only once the value
/// comes back within the release threshold; from neutral, a direction is
/// entered only beyond the press threshold.
pub open spec fn spec_next_state(reading: AxisReading, current: AxisState) -> AxisState {
    match current {
        AxisState::Negative => if reading.at_or_above_negative_release {
            AxisState::Neutral
        } else {
            AxisState::Negative
        },
        AxisState::Positive => if reading.at_or_below_release {
            AxisState::Neutral
        } else {
            AxisState::Positive
        },
        AxisState::Neutral => if reading.at_or_below_negative_press {
            AxisState::Negative
        } else if reading.at_or_above_press {
            AxisState::Positive
        } else {
            AxisState::Neutral
        },
    }
}

/// The key events of one axis moving from `previous` to `next`: releases
/// first, then presses.
pub open spec fn transition_event_seq(
    previous: AxisState,
    next: AxisState,
    negative_key: u16,
    positive_key: u16,
) -> Seq<KeyEvent> {
    let up_neg = if previous == AxisState::Negative && next != AxisState::Negative {
        seq![KeyEvent { virtual_key: negative_key, kind: KeyEventKind::Up }]
    } else {
        Seq::empty()
    };
    let up_pos = if previous == AxisState::Positive && next != AxisState::Positive {
        seq![KeyEvent { virtual_key: positive_key, kind: KeyEventKind::Up }]
    } else {
        Seq::empty()
    };
    let down_neg = if next == AxisState::Negative && previous != AxisState::Negative {
        seq![KeyEvent { virtual_key: negative_key, kind: KeyEventKind::Down }]
    } else {
        Seq::empty()
    };
    let down_pos = if next == AxisState::Positive && previous != AxisState::Positive {
        seq![KeyEvent { virtual_key: positive_key, kind: KeyEventKind::Down }]
    } else {
        Seq::empty()
    };
    up_neg + up_pos + down_neg + down_pos
}

/// The keys held down while an axis rests in `state`.
pub open spec fn held_keys(state: AxisState, negative_key: u16, positive_key: u16) -> Set<u16> {
    match state {
        AxisState::Negative => set![negative_key],
        AxisState::Positive => set![positive_key],
        AxisState::Neutral => Set::empty(),
    }
}

/// The set of held keys after a sequence of key events.
pub open spec fn apply_key_events(held: Set<u16>, events: Seq<KeyEvent>) -> Set<u16>
    decreases events.len(),
{
    if events.len() == 0 {
        held
    } else {
        let e = events[0];
        let next = match e.kind {
            KeyEventKind::Down => held.insert(e.virtual_key),
            KeyEventKind::Up => held.remove(e.virtual_key),
        };
        apply_key_events(next, events.drop_first())
    }
}

/// The hysteresis step of one axis.
pub fn next_state(reading: AxisReading, current: AxisState) -> (next: AxisState)
    ensures
        next == spec_next_state(reading, current),
{
    match current {
        AxisState::Negative => {
            if reading.at_or_above_negative_release {
                AxisState::Neutral
            } else {
                AxisState::Negative
            }
        },
        AxisState::Positive => {
            if reading.at_or_below_release {
                AxisState::Neutral
            } else {
                AxisState::Positive
            }
        },
        AxisState::Neutral => {
            if reading.at_or_below_negative_press {
                AxisState::Negative
            } else if reading.at_or_above_press {
                AxisState::Positive
            } else {
                AxisState::Neutral
            }
        },
    }
}

/// The key events of one axis transition, in the first slots of a pair
/// (unused slots are `None`).
pub fn transition_events(
    previous: AxisState,
    next: AxisState,
    negative_key: u16,
    positive_key: u16,
) -> (events: [Option<KeyEvent>; 2])
    ensures
        ({
            let s = transition_event_seq(previous, next, negative_key, positive_key);
            &&& s.len() <= 2
            &&& forall|i: int| 0 <= i < 2 ==> #[trigger] events@[i] == if i < s.len() {
                Some(s[i])
            } else {
                None
            }
        }),
{
    let ghost s = transition_event_seq(previous, next, negative_key, positive_key);
    let mut events: [Option<KeyEvent>; 2] = [None, None];
    if previous == AxisState::Negative && next != AxisState::Negative {
        events[0] = Some(KeyEvent { virtual_key: negative_key, kind: KeyEventKind::Up });
        if next == AxisState::Positive {
            events[1] = Some(KeyEvent { virtual_key: positive_key, kind: KeyEventKind::Down });
        }
    } else if previous == AxisState::Positive && next != AxisState::Positive {
        events[0] = Some(KeyEvent { virtual_key: positive_key, kind: KeyEventKind::Up });
        if next == AxisState::Negative {
            events[1] = Some(KeyEvent { virtual_key: negative_key, kind: KeyEventKind::Down });
        }
    } else if next == AxisState::Negative && previous != AxisState::Negative {
        events[0] = Some(KeyEvent { virtual_key: negative_key, kind: KeyEventKind::Down });
    } else if next == AxisState::Positive && previous != AxisState::Positive {
        events[0] = Some(KeyEvent { virtual_key: positive_key, kind: KeyEventKind::Down });
    }
    proof {
        reveal_with_fuel(transition_event_seq, 1);
    }
    events
}

/// Appends the key events of one axis transition to `events`.
pub fn collect_events_for_axis(
    events: &mut Vec<KeyEvent>,
    previous: AxisState,
    next: AxisState,
    negative_key: u16,
    positive_key: u16,
)
    ensures
        final(events)@ == old(events)@ + transition_event_seq(
            previous,
            next,
            negative_key,
            positive_key,
        ),
{
    let pair = transition_events(previous, next, negative_key, positive_key);
    let ghost s = transition_event_seq(previous, next, negative_key, positive_key);
    let ghost start = events@;
    if let Some(e) = pair[0] {
        events.push(e);
    }
    if let Some(e) = pair[1] {
        events.push(e);
    }
    proof {
        assert(pair@[0] == if 0 < s.len() { Some(s[0]) } else { None::<KeyEvent> });
        assert(pair@[1] == if 1 < s.len() { Some(s[1]) } else { None::<KeyEvent> });
        if s.len() == 0 {
            assert(events@ =~= start + s);
        } else if s.len() == 1 {
            assert(events@ =~= start + s);
        } else {
            assert(events@ =~= start + s);
        }
    }
}

/// The keyboard backend's own state: the enable flag, each axis's state and
/// the keybinds.
pub struct KeyboardBackend {
    pub enabled: bool,
    pub x_state: AxisState,
    pub y_state: AxisState,
    pub keybinds: Keybinds,
}

impl Default for KeyboardBackend {
    fn default() -> (r: Self)
        ensures
            r.enabled,
            r.x_state == AxisState::Neutral,
            r.y_state == AxisState::Neutral,
            r.keybinds == (Keybinds { left: VK_A, right: VK_D, up: VK_W, down: VK_S }),
    {
        KeyboardBackend {
            enabled: true,
            x_state: AxisState::Neutral,
            y_state: AxisState::Neutral,
            keybinds: Keybinds::default(),
        }
    }
}

impl KeyboardBackend {
    /// The key events that release whatever both axes hold.
    pub open spec fn spec_release_events(&self) -> Seq<KeyEvent> {
        transition_event_seq(self.x_state, AxisState::Neutral, self.keybinds.left, self.keybinds.right)
            + transition_event_seq(
            self.y_state,
            AxisState::Neutral,
            self.keybinds.up,
            self.keybinds.down,
        )
    }

    /// The axis states after a frame: the hysteresis step while the frame is
    /// active, neutral otherwise.
    pub open spec fn spec_frame_states(
        &self,
        active: bool,
        yaw: AxisReading,
        pitch: AxisReading,
    ) -> (AxisState, AxisState) {
        if active {
            (spec_next_state(yaw, self.x_state), spec_next_state(pitch, self.y_state))
        } else {
            (AxisState::Neutral, AxisState::Neutral)
        }
    }

    pub fn collect_release_events(&self) -> (events: Vec<KeyEvent>)
        ensures
            events@ == self.spec_release_events(),
    {
        let mut events: Vec<KeyEvent> = Vec::new();
        collect_events_for_axis(
            &mut events,
            self.x_state,
            AxisState::Neutral,
            self.keybinds.left,
            self.keybinds.right,
        );
        collect_events_for_axis(
            &mut events,
            self.y_state,
            AxisState::Neutral,
            self.keybinds.up,
            self.keybinds.down,
        );
        assert(events@ =~= self.spec_release_events());
        events
    }

    /// The next axis states for a frame and the key events that lead there:
    /// yaw drives left/right, pitch drives up/down.
    pub fn collect_frame_events(&self, active: bool, yaw: AxisReading, pitch: AxisReading) -> (r: (
        AxisState,
        AxisState,
        Vec<KeyEvent>,
    ))
        ensures
            (r.0, r.1) == self.spec_frame_states(active, yaw, pitch),
            r.2@ == transition_event_seq(self.x_state, r.0, self.keybinds.left, self.keybinds.right)
                + transition_event_seq(self.y_state, r.1, self.keybinds.up, self.keybinds.down),
    {
        let mut events: Vec<KeyEvent> = Vec::new();
        let next_x = if active {
            next_state(yaw, self.x_state)
        } else {
            AxisState::Neutral
        };
        let next_y = if active {
            next_state(pitch, self.y_state)
        } else {
            AxisState::Neutral
        };
        collect_events_for_axis(&mut events, self.x_state, next_x, self.keybinds.left, self.keybinds.right);
        collect_events_for_axis(&mut events, self.y_state, next_y, self.keybinds.up, self.keybinds.down);
        assert(events@ =~= transition_event_seq(
            self.x_state,
            next_x,
            self.keybinds.left,
            self.keybinds.right,
        ) + transition_event_seq(self.y_state, next_y, self.keybinds.up, self.keybinds.down));
        (next_x, next_y, events)
    }

    /// The key events to send for one frame and the axis states to adopt
    /// once they were sent: a disabled backend releases everything.
    pub fn plan_apply(&self, active: bool, yaw: AxisReading, pitch: AxisReading) -> (r: (
        AxisState,
        AxisState,
        Vec<KeyEvent>,
    ))
        ensures
            !self.enabled ==> r.0 == AxisState::Neutral && r.1 == AxisState::Neutral && r.2@
                == self.spec_release_events(),
            self.enabled ==> (r.0, r.1) == self.spec_frame_states(active, yaw, pitch) && r.2@
                == transition_event_seq(self.x_state, r.0, self.keybinds.left, self.keybinds.right)
                + transition_event_seq(self.y_state, r.1, self.keybinds.up, self.keybinds.down),
    {
        if !self.enabled {
            let events = self.collect_release_events();
            return (AxisState::Neutral, AxisState::Neutral, events);
        }
        self.collect_frame_events(active, yaw, pitch)
    }

    /// Adopts the axis states planned by `plan_apply` once its events were sent.
    pub fn commit_states(&mut self, x_state: AxisState, y_state: AxisState)
        ensures
            final(self).x_state == x_state,
            final(self).y_state == y_state,
            final(self).enabled == old(self).enabled,
            final(self).keybinds == old(self).keybinds,
    {
        self.x_state = x_state;
        self.y_state = y_state;
    }

    pub fn set_enabled(&mut self, enabled: bool)
        ensures
            final(self).enabled == enabled,
            final(self).x_state == old(self).x_state,
            final(self).y_state == old(self).y_state,
            final(self).keybinds == old(self).keybinds,
    {
        self.enabled = enabled;
    }

    pub fn is_enabled(&self) -> (b: bool)
        ensures
            b == self.enabled,
    {
        self.enabled
    }
}

/// The key events of an axis transition keep the held keys in step with the
/// axis state: starting from the keys held in `previous`, the events leave
/// exactly the keys held in `next` (for two distinct keys).
pub proof fn law_events_track_held_keys(
    previous: AxisState,
    next: AxisState,
    negative_key: u16,
    positive_key: u16,
)
    requires
        negative_key != positive_key,
    ensures
        apply_key_events(
            held_keys(previous, negative_key, positive_key),
            transition_event_seq(previous, next, negative_key, positive_key),
        ) == held_keys(next, negative_key, positive_key),
{
    let s = transition_event_seq(previous, next, negative_key, positive_key);
    reveal_with_fuel(apply_key_events, 3);
    let h = held_keys(previous, negative_key, positive_key);
    if s.len() >= 1 {
        let e0 = s[0];
        let h1 = match e0.kind {
            KeyEventKind::Down => h.insert(e0.virtual_key),
            KeyEventKind::Up => h.remove(e0.virtual_key),
        };
        if s.len() == 2 {
            let e1 = s[1];
            let h2 = match e1.kind {
                KeyEventKind::Down => h1.insert(e1.virtual_key),
                KeyEventKind::Up => h1.remove(e1.virtual_key),
            };
            assert(s.drop_first().drop_first() =~= Seq::<KeyEvent>::empty());
            assert(h2 =~= held_keys(next, negative_key, positive_key));
        } else {
            assert(s.drop_first() =~= Seq::<KeyEvent>::empty());
            assert(h1 =~= held_keys(next, negative_key, positive_key));
        }
    }
}

/// A neutral reading (within both thresholds) moves no axis out of
/// neutral, and an axis already neutral produces no key events for it.
pub proof fn law_neutral_reading_is_quiet(reading: AxisReading, negative_key: u16, positive_key: u16)
    requires
        !reading.at_or_below_negative_press,
        !reading.at_or_above_press,
    ensures
        spec_next_state(reading, AxisState::Neutral) == AxisState::Neutral,
        transition_event_seq(AxisState::Neutral, AxisState::Neutral, negative_key, positive_key).len()
            == 0,
{
}


/// Hysteresis of one axis, for every reading: a held direction is kept
/// while the value stays beyond the release threshold and is let go (back
/// to neutral, never straight to the opposite direction) once it comes
/// within it; from neutral a direction is entered only beyond its press
/// threshold. While a direction is kept, no key event is produced, so a
/// held key does not flicker.
pub proof fn law_hysteresis_keeps_held_direction(
    reading: AxisReading,
    negative_key: u16,
    positive_key: u16,
)
    ensures
        !reading.at_or_below_release ==> spec_next_state(reading, AxisState::Positive)
            == AxisState::Positive,
        reading.at_or_below_release ==> spec_next_state(reading, AxisState::Positive)
            == AxisState::Neutral,
        !reading.at_or_above_negative_release ==> spec_next_state(reading, AxisState::Negative)
            == AxisState::Negative,
        reading.at_or_above_negative_release ==> spec_next_state(reading, AxisState::Negative)
            == AxisState::Neutral,
        spec_next_state(reading, AxisState::Neutral) == AxisState::Positive
            ==> reading.at_or_above_press,
        spec_next_state(reading, AxisState::Neutral) == AxisState::Negative
            ==> reading.at_or_below_negative_press,
        reading.at_or_below_negative_press ==> spec_next_state(reading, AxisState::Neutral)
            == AxisState::Negative,
        !reading.at_or_below_negative_press && reading.at_or_above_press ==> spec_next_state(
            reading,
            AxisState::Neutral,
        ) == AxisState::Positive,
        !reading.at_or_below_release ==> transition_event_seq(
            AxisState::Positive,
            spec_next_state(reading, AxisState::Positive),
            negative_key,
            positive_key,
        ).len() == 0,
        !reading.at_or_above_negative_release ==> transition_event_seq(
            AxisState::Negative,
            spec_next_state(reading, AxisState::Negative),
            negative_key,
            positive_key,
        ).len() == 0,
{
}
} // verus!
