//! Directional input: which of the four movement keys are currently held.

use vstd::prelude::*;

verus! {

/// A key identifier as delivered by the host's input events. Keys that do
/// not stand for one of the four directions arrive as `Other` and are
/// ignored: input noise must neither panic nor disturb the held flags.
#[derive(Clone, Copy, Debug, PartialEq, Eq, Structural)]
pub enum KeyCode {
    Up,
    Down,
    Left,
    Right,
    Other,
}

/// Which of the four directional inputs are currently held down.
///
/// The flags are independent: opposite directions may be held at once
/// (diagonal or cancelling holds are legal), and resolving such overlaps is
/// the consumer's concern, not enforced here.
#[derive(Clone, Copy, Debug, PartialEq, Eq, Structural)]
pub struct Direction {
    pub up: bool,
    pub down: bool,
    pub left: bool,
    pub right: bool,
}

/// The state of the flags after one press (`down == true`) or release
/// (`down == false`) event: the named flag takes the event's value, every
/// other flag keeps its own, and a non-directional key changes nothing.
pub open spec fn spec_update_from_keycode(d: Direction, key: KeyCode, down: bool) -> Direction {
    match key {
        KeyCode::Up => Direction { up: down, ..d },
        KeyCode::Down => Direction { down: down, ..d },
        KeyCode::Left => Direction { left: down, ..d },
        KeyCode::Right => Direction { right: down, ..d },
        KeyCode::Other => d,
    }
}

/// The flag of `d` that `key` names; `false` for a non-directional key.
pub open spec fn held_flag(d: Direction, key: KeyCode) -> bool {
    match key {
        KeyCode::Up => d.up,
        KeyCode::Down => d.down,
        KeyCode::Left => d.left,
        KeyCode::Right => d.right,
        KeyCode::Other => false,
    }
}

/// The flags after a whole sequence of press/release events, applied in
/// order to the starting state `d`.
pub open spec fn apply_events(d: Direction, events: Seq<(KeyCode, bool)>) -> Direction
    decreases events.len(),
{
    if events.len() == 0 {
        d
    } else {
        spec_update_from_keycode(
            apply_events(d, events.drop_last()),
            events.last().0,
            events.last().1,
        )
    }
}

impl Default for Direction {
    /// A fresh entity holds no direction: all four flags start released.
    fn default() -> (d: Direction)
        ensures
            d == (Direction { up: false, down: false, left: false, right: false }),
    {
        Direction { up: false, down: false, left: false, right: false }
    }
}

impl Direction {
    /// Records one key transition: sets the named flag to `down`, leaves the
    /// rest alone. Non-directional keys are a harmless no-op, as is a release
    /// for a direction that is not currently held.
    pub fn update_from_keycode(&mut self, key: KeyCode, down: bool)
        ensures
            *final(self) == spec_update_from_keycode(*old(self), key, down),
    {
        match key {
            KeyCode::Up => self.up = down,
            KeyCode::Down => self.down = down,
            KeyCode::Left => self.left = down,
            KeyCode::Right => self.right = down,
            KeyCode::Other => (),
        }
    }
}

/// After any sequence of events, a directional flag equals the value carried
/// by the most recent event for that direction: `events[j]` names the flag's
/// direction and no later event does, so the flag holds `events[j].1`.
pub proof fn lemma_flag_reflects_last_event(d: Direction, events: Seq<(KeyCode, bool)>, j: int)
    requires
        0 <= j < events.len(),
        events[j].0 != KeyCode::Other,
        forall|i: int| j < i < events.len() ==> (#[trigger] events[i]).0 != events[j].0,
    ensures
        held_flag(apply_events(d, events), events[j].0) == events[j].1,
    decreases events.len(),
{
    if j == events.len() - 1 {
        assert(events.last() == events[j]);
    } else {
        let prefix = events.drop_last();
        assert(prefix[j] == events[j]);
        assert(forall|i: int| j < i < prefix.len() ==> (#[trigger] prefix[i]).0 != prefix[j].0) by {
            assert(forall|i: int| j < i < prefix.len() ==> #[trigger] prefix[i] == events[i]);
        }
        lemma_flag_reflects_last_event(d, prefix, j);
        assert(events.last() == events[events.len() - 1]);
    }
}

/// A directional flag that no event in the sequence names keeps the value it
/// had in the starting state.
pub proof fn lemma_flag_unchanged_without_events(
    d: Direction,
    events: Seq<(KeyCode, bool)>,
    key: KeyCode,
)
    requires
        key != KeyCode::Other,
        forall|i: int| 0 <= i < events.len() ==> (#[trigger] events[i]).0 != key,
    ensures
        held_flag(apply_events(d, events), key) == held_flag(d, key),
    decreases events.len(),
{
    if events.len() > 0 {
        let prefix = events.drop_last();
        assert(forall|i: int| 0 <= i < prefix.len() ==> (#[trigger] prefix[i]).0 != key) by {
            assert(forall|i: int| 0 <= i < prefix.len() ==> #[trigger] prefix[i] == events[i]);
        }
        lemma_flag_unchanged_without_events(d, prefix, key);
        assert(events.last() == events[events.len() - 1]);
    }
}

/// Repeating an identical event changes nothing: one press or release is as
/// good as two.
pub proof fn lemma_update_idempotent(d: Direction, key: KeyCode, down: bool)
    ensures
        spec_update_from_keycode(spec_update_from_keycode(d, key, down), key, down)
            == spec_update_from_keycode(d, key, down),
{
}

} // verus!
