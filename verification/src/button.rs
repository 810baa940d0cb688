//! Button identities and edge framing.
//!
//! A `Button` watches the stabilised level of one debounced input and emits a
//! press or release exactly on logical transitions, never repeating while the
//! input is held.  Debouncing itself is done upstream (see `debounce`).

use vstd::prelude::*;
use crate::input::Value;

verus! {

/// Semantic source of a button event, independent of wiring.
#[derive(Copy, Clone, Debug, PartialEq, Eq, Structural)]
pub enum ButtonId {
    /// A slot on the currently shown page.
    Physical(usize),
    /// A button wired directly to a logical controller index.
    Controller(usize),
    PageUp,
    PageDown,
    /// A touch that hit no configured button area.
    NotAButton,
}

/// Which raw level counts as "pressed".
#[derive(Copy, Clone, Debug, PartialEq, Eq, Structural)]
pub enum Active {
    Low,
    High,
}

/// An edge of the logical button state.
#[derive(Copy, Clone, Debug, PartialEq, Eq, Structural)]
pub enum ButtonEvent {
    Press(ButtonId),
    Release(ButtonId),
}

/// Whether level `v` means "pressed" for a button active at `active`.
pub open spec fn spec_pressed(active: Active, v: Value) -> bool {
    (active == Active::Low && v == Value::Low) || (active == Active::High && v == Value::High)
}

/// Whether a newly observed level differs from the last recorded one.
pub open spec fn spec_level_changed(last: Option<Value>, v: Value) -> bool {
    match last {
        None => true,
        Some(l) => l != v,
    }
}

/// Edge detector over a debounced level stream.
pub struct Button {
    pub active: Active,
    pub id: ButtonId,
    /// Last level that produced an event; `None` until the first level arrives.
    pub value: Option<Value>,
}

impl Button {
    pub fn new(active: Active, id: ButtonId) -> (b: Button)
        ensures
            b.active == active,
            b.id == id,
            b.value is None,
    {
        Button { active, id, value: None }
    }

    /// Feed one stabilised level; an event comes out exactly on a transition.
    pub fn process_value(&mut self, v: Value) -> (ev: Option<ButtonEvent>)
        ensures
            final(self).active == old(self).active,
            final(self).id == old(self).id,
            spec_level_changed(old(self).value, v) ==> {
                &&& final(self).value == Some(v)
                &&& ev == Some(
                    if spec_pressed(old(self).active, v) {
                        ButtonEvent::Press(old(self).id)
                    } else {
                        ButtonEvent::Release(old(self).id)
                    },
                )
            },
            !spec_level_changed(old(self).value, v) ==> {
                &&& final(self).value == old(self).value
                &&& ev is None
            },
    {
        let pressed = match (self.active, v) {
            (Active::Low, Value::Low) => true,
            (Active::High, Value::High) => true,
            _ => false,
        };
        let has_changed = match (self.value, v) {
            (None, _) => true,
            (Some(Value::High), Value::Low) => true,
            (Some(Value::Low), Value::High) => true,
            (Some(_), _) => false,
        };
        if has_changed {
            self.value = Some(v);
            if pressed {
                Some(ButtonEvent::Press(self.id))
            } else {
                Some(ButtonEvent::Release(self.id))
            }
        } else {
            None
        }
    }
}

} // verus!
