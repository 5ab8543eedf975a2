use vstd::prelude::*;

use super::ecodes;
use super::{GPIOEvent, PhysicalButton, RawInputEvent};

verus! {

/// The last known state (pressed or not) of each physical button, in the
/// order MIDDLE, LEFT, RIGHT, POWER, WAKEUP.
pub struct GPIOState {
    states: [bool; 5],
}

impl View for GPIOState {
    type V = Seq<bool>;

    closed spec fn view(&self) -> Seq<bool> {
        self.states@
    }
}

/// The slot of `button` in the state.
pub open spec fn button_slot(button: PhysicalButton) -> int {
    match button {
        PhysicalButton::MIDDLE => 0,
        PhysicalButton::LEFT => 1,
        PhysicalButton::RIGHT => 2,
        PhysicalButton::POWER => 3,
        PhysicalButton::WAKEUP => 4,
    }
}

/// The button that reports the key `code`, if any does.
pub open spec fn button_for_code(code: u16) -> Option<PhysicalButton> {
    if code == ecodes::KEY_HOME {
        Some(PhysicalButton::MIDDLE)
    } else if code == ecodes::KEY_LEFT {
        Some(PhysicalButton::LEFT)
    } else if code == ecodes::KEY_RIGHT {
        Some(PhysicalButton::RIGHT)
    } else if code == ecodes::KEY_POWER {
        Some(PhysicalButton::POWER)
    } else if code == ecodes::KEY_WAKEUP {
        Some(PhysicalButton::WAKEUP)
    } else {
        None
    }
}

/// What `decode` returns for `ev`.
pub open spec fn spec_decode_event(ev: RawInputEvent) -> Option<GPIOEvent> {
    if ev.event_type == ecodes::EV_KEY {
        match button_for_code(ev.code) {
            Some(button) => Some(
                if ev.value != 0 {
                    GPIOEvent::Press { button }
                } else {
                    GPIOEvent::Unpress { button }
                },
            ),
            None => None,
        }
    } else {
        None
    }
}

/// The button states after `ev`.
pub open spec fn spec_decode_state(old: Seq<bool>, ev: RawInputEvent) -> Seq<bool> {
    if ev.event_type == ecodes::EV_KEY {
        match button_for_code(ev.code) {
            Some(button) => old.update(button_slot(button), ev.value != 0),
            None => old,
        }
    } else {
        old
    }
}

impl GPIOState {
    /// The state holds one entry per button.
    pub proof fn lemma_view_len(&self)
        ensures
            self@.len() == 5,
    {
    }

    pub open spec fn spec_initial() -> Seq<bool> {
        seq![false, false, false, false, false]
    }

    /// Whether `button` was last seen pressed.
    pub fn is_pressed(&self, button: PhysicalButton) -> (b: bool)
        ensures
            b == self@[button_slot(button)],
    {
        match button {
            PhysicalButton::MIDDLE => self.states[0],
            PhysicalButton::LEFT => self.states[1],
            PhysicalButton::RIGHT => self.states[2],
            PhysicalButton::POWER => self.states[3],
            PhysicalButton::WAKEUP => self.states[4],
        }
    }
}

impl Default for GPIOState {
    /// All buttons released.
    fn default() -> (s: GPIOState)
        ensures
            s@ == GPIOState::spec_initial(),
    {
        let s = GPIOState { states: [false, false, false, false, false] };
        proof {
            assert(s@ =~= GPIOState::spec_initial());
        }
        s
    }
}

/// Decodes one event of the physical buttons: a key event of a known button
/// records its new state and reports a press or a release; sync events and
/// anything else report nothing.
pub fn decode(ev: &RawInputEvent, state: &mut GPIOState) -> (r: Option<GPIOEvent>)
    ensures
        r == spec_decode_event(*ev),
        final(state)@ == spec_decode_state(old(state)@, *ev),
        final(state)@.len() == 5,
{
    proof {
        assert(state.states@.len() == 5);
    }
    if ev.event_type == ecodes::EV_SYN {
        // safely ignored: sync event
        None
    } else if ev.event_type == ecodes::EV_KEY {
        let pressed = ev.value != 0;
        let p = if ev.code == ecodes::KEY_HOME {
            state.states[0] = pressed;
            PhysicalButton::MIDDLE
        } else if ev.code == ecodes::KEY_LEFT {
            state.states[1] = pressed;
            PhysicalButton::LEFT
        } else if ev.code == ecodes::KEY_RIGHT {
            state.states[2] = pressed;
            PhysicalButton::RIGHT
        } else if ev.code == ecodes::KEY_POWER {
            state.states[3] = pressed;
            PhysicalButton::POWER
        } else if ev.code == ecodes::KEY_WAKEUP {
            state.states[4] = pressed;
            PhysicalButton::WAKEUP
        } else {
            return None;
        };
        let event = if pressed {
            GPIOEvent::Press { button: p }
        } else {
            GPIOEvent::Unpress { button: p }
        };
        Some(event)
    } else {
        // Shouldn't happen
        None
    }
}

/// After a key event of a known button, the state records exactly whether
/// that button is held, and the event reported agrees with it.
pub proof fn lemma_decode_records_button(old: Seq<bool>, ev: RawInputEvent, button: PhysicalButton)
    requires
        old.len() == 5,
        ev.event_type == ecodes::EV_KEY,
        button_for_code(ev.code) == Some(button),
    ensures
        spec_decode_state(old, ev)[button_slot(button)] == (ev.value != 0),
        spec_decode_event(ev) == Some(
            if spec_decode_state(old, ev)[button_slot(button)] {
                GPIOEvent::Press { button }
            } else {
                GPIOEvent::Unpress { button }
            },
        ),
        forall|i: int|
            0 <= i < 5 && i != button_slot(button) ==> spec_decode_state(old, ev)[i] == old[i],
{
}

/// Each key is reported as its button: KEY_HOME as MIDDLE, KEY_LEFT as LEFT,
/// KEY_RIGHT as RIGHT, KEY_POWER as POWER, KEY_WAKEUP as WAKEUP; a non-zero
/// value is a press, zero a release; and the state then reads that button as
/// held exactly when it was pressed.
pub proof fn lemma_keys_name_buttons(old: Seq<bool>, ev: RawInputEvent)
    requires
        old.len() == 5,
        ev.event_type == ecodes::EV_KEY,
        ev.code == ecodes::KEY_HOME || ev.code == ecodes::KEY_LEFT || ev.code == ecodes::KEY_RIGHT
            || ev.code == ecodes::KEY_POWER || ev.code == ecodes::KEY_WAKEUP,
    ensures
        ({
            let button = if ev.code == ecodes::KEY_HOME {
                PhysicalButton::MIDDLE
            } else if ev.code == ecodes::KEY_LEFT {
                PhysicalButton::LEFT
            } else if ev.code == ecodes::KEY_RIGHT {
                PhysicalButton::RIGHT
            } else if ev.code == ecodes::KEY_POWER {
                PhysicalButton::POWER
            } else {
                PhysicalButton::WAKEUP
            };
            &&& spec_decode_event(ev) == Some(
                if ev.value != 0 {
                    GPIOEvent::Press { button }
                } else {
                    GPIOEvent::Unpress { button }
                },
            )
            &&& spec_decode_state(old, ev)[button_slot(button)] == (ev.value != 0)
        }),
{
}

} // verus!
