use vstd::prelude::*;
use vstd::string::*;

use crate::input::ecodes;
use crate::input::RawInputEvent;

verus! {

/// The three buttons on the front of the tablet.
#[derive(Clone, Copy, Debug, PartialEq, Eq, Structural)]
pub enum PhysicalButton {
    LEFT,
    MIDDLE,
    RIGHT,
}

/// Reports a button once each time it goes down or up: a repeated report
/// of the state it is already in is swallowed.
pub struct PhysicalButtonHandler {
    pub name: String,
    pub states: [bool; 3],
}

/// The button of a key code, and its slot in the state (LEFT, MIDDLE, RIGHT).
pub open spec fn button_of(code: u16) -> Option<(PhysicalButton, int)> {
    if code == ecodes::KEY_HOME {
        Some((PhysicalButton::MIDDLE, 1))
    } else if code == ecodes::KEY_LEFT {
        Some((PhysicalButton::LEFT, 0))
    } else if code == ecodes::KEY_RIGHT {
        Some((PhysicalButton::RIGHT, 2))
    } else {
        None
    }
}

/// What the handler reports for `ev` when the buttons were in `states`.
pub open spec fn spec_on_event(states: Seq<bool>, ev: RawInputEvent) -> Option<(PhysicalButton, u16)> {
    if ev.event_type == ecodes::EV_KEY {
        match button_of(ev.code) {
            Some((button, slot)) => if (ev.value != 0) != states[slot] {
                Some((button, ev.value as u16))
            } else {
                None
            },
            None => None,
        }
    } else {
        None
    }
}

/// The button states after `ev`.
pub open spec fn spec_states_after(states: Seq<bool>, ev: RawInputEvent) -> Seq<bool> {
    if ev.event_type == ecodes::EV_KEY {
        match button_of(ev.code) {
            Some((button, slot)) => states.update(slot, ev.value != 0),
            None => states,
        }
    } else {
        states
    }
}

impl View for PhysicalButtonHandler {
    type V = Seq<bool>;

    /// Whether LEFT, MIDDLE and RIGHT were last seen down.
    open spec fn view(&self) -> Seq<bool> {
        self.states@
    }
}

impl PhysicalButtonHandler {
    /// A handler named "GPIO" that has seen no button down.
    pub fn get_instance() -> (h: PhysicalButtonHandler)
        ensures
            h.name@ == "GPIO"@,
            h@ == seq![false, false, false],
    {
        let h = PhysicalButtonHandler {
            name: String::from_str("GPIO"),
            states: [false, false, false],
        };
        assert(h@ =~= seq![false, false, false]);
        h
    }

    /// Called once the device is open; takes note of its name.
    pub fn on_init(&mut self, name: String)
        ensures
            final(self).name@ == name@,
            final(self)@ == old(self)@,
    {
        self.name = name;
    }

    /// Takes one event of the buttons; answers the button and the value to
    /// report when a button changed its state.
    pub fn on_event(&mut self, ev: &RawInputEvent) -> (r: Option<(PhysicalButton, u16)>)
        ensures
            r == spec_on_event(old(self)@, *ev),
            final(self)@ == spec_states_after(old(self)@, *ev),
            final(self)@.len() == 3,
            final(self).name == old(self).name,
    {
        proof {
            assert(self.states@.len() == 3);
        }
        if ev.event_type != ecodes::EV_KEY {
            // sync events are safely ignored; anything else shouldn't happen
            return None;
        }
        let pressed = ev.value != 0;
        let (p, before_state) = if ev.code == ecodes::KEY_HOME {
            let ret = (PhysicalButton::MIDDLE, self.states[1]);
            self.states[1] = pressed;
            ret
        } else if ev.code == ecodes::KEY_LEFT {
            let ret = (PhysicalButton::LEFT, self.states[0]);
            self.states[0] = pressed;
            ret
        } else if ev.code == ecodes::KEY_RIGHT {
            let ret = (PhysicalButton::RIGHT, self.states[2]);
            self.states[2] = pressed;
            ret
        } else {
            return None;
        };
        // Edge trigger -- debouncing
        if pressed != before_state {
            Some((p, #[verifier::truncate] (ev.value as u16)))
        } else {
            None
        }
    }
}

/// The same key event twice in a row is reported at most once: the second
/// one finds the button already in the state it reports.
pub proof fn lemma_repeat_is_swallowed(states: Seq<bool>, ev: RawInputEvent)
    requires
        states.len() == 3,
    ensures
        spec_on_event(spec_states_after(states, ev), ev) is None,
{
}

/// A key event of a button is reported exactly when it changes the button's
/// state, and the state then records the new value.
pub proof fn lemma_report_iff_change(states: Seq<bool>, ev: RawInputEvent, button: PhysicalButton, slot: int)
    requires
        states.len() == 3,
        ev.event_type == ecodes::EV_KEY,
        button_of(ev.code) == Some((button, slot)),
    ensures
        spec_on_event(states, ev) is Some <==> spec_states_after(states, ev) != states,
        spec_states_after(states, ev)[slot] == (ev.value != 0),
{
    if spec_on_event(states, ev) is None {
        assert(spec_states_after(states, ev) =~= states);
    } else {
        assert(spec_states_after(states, ev)[slot] != states[slot]);
    }
}

/// A key pressed after it was released is reported as its button with the
/// value pressed, and released after it was pressed as its button with the
/// value 0: KEY_LEFT is LEFT, KEY_HOME is MIDDLE, KEY_RIGHT is RIGHT.
pub proof fn lemma_keys_name_buttons(states: Seq<bool>, ev: RawInputEvent)
    requires
        states.len() == 3,
        ev.event_type == ecodes::EV_KEY,
        ev.code == ecodes::KEY_LEFT || ev.code == ecodes::KEY_HOME || ev.code == ecodes::KEY_RIGHT,
    ensures
        ({
            let button = if ev.code == ecodes::KEY_LEFT {
                PhysicalButton::LEFT
            } else if ev.code == ecodes::KEY_HOME {
                PhysicalButton::MIDDLE
            } else {
                PhysicalButton::RIGHT
            };
            let up = RawInputEvent { value: 0, ..ev };
            let down = RawInputEvent { value: 1, ..ev };
            &&& spec_on_event(spec_states_after(states, up), down) == Some((button, 1u16))
            &&& spec_on_event(spec_states_after(states, down), up) == Some((button, 0u16))
        }),
{
}

} // verus!
