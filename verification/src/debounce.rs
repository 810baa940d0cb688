//! Debouncing of a bouncy binary input.
//!
//! The debouncer lives in its own execution context next to the pin: raw edge
//! notifications and one-shot timer fires arrive over a private queue.  This
//! module holds the decision core as a pure state machine; the surrounding
//! context performs the timer arming and subscriber notification that each
//! step requests.
//!
//! On the first raw edge the new level is latched provisionally, subscribers
//! are notified at once and the debounce window is armed; further edges inside
//! the window are ignored.  When the window expires the raw level present at
//! expiry becomes the stable value, with a second notification only if it
//! differs from the provisional one.

use vstd::prelude::*;
use crate::input::Value;

verus! {

/// Debouncer state: whether the debounce window is pending, and the last
/// latched (notified) value, `None` until a first edge or read.
pub struct Debouncer {
    pub timer_set: bool,
    pub value: Option<Value>,
}

/// What one input step asks the surrounding context to do.
#[derive(Copy, Clone, PartialEq, Eq, Structural)]
pub struct DebounceActions {
    /// Level to pass to the subscriber, if any.
    pub notify: Option<Value>,
    /// Whether to (re-)arm the one-shot debounce timer.
    pub arm_timer: bool,
}

/// State after a raw edge with level `v` arrives.
pub open spec fn spec_input_next(d: Debouncer, v: Value) -> Debouncer {
    if !d.timer_set {
        Debouncer { timer_set: true, value: Some(v) }
    } else {
        d
    }
}

/// Actions requested for a raw edge with level `v`.
pub open spec fn spec_input_actions(d: Debouncer, v: Value) -> DebounceActions {
    if !d.timer_set {
        DebounceActions { notify: Some(v), arm_timer: true }
    } else {
        DebounceActions { notify: None, arm_timer: false }
    }
}

/// State after the debounce window expires while the raw level reads `raw`.
pub open spec fn spec_timer_next(d: Debouncer, raw: Option<Value>) -> Debouncer {
    Debouncer { timer_set: false, value: raw }
}

/// Notification requested when the window expires: only a correction, i.e.
/// only if the settled raw level differs from the provisionally latched one.
pub open spec fn spec_timer_notify(d: Debouncer, raw: Option<Value>) -> Option<Value> {
    if d.value != raw {
        raw
    } else {
        None
    }
}

impl Debouncer {
    pub fn new() -> (d: Debouncer)
        ensures
            !d.timer_set,
            d.value is None,
    {
        Debouncer { timer_set: false, value: None }
    }

    /// One raw edge.  Outside the window the level is latched and notified at
    /// once and the window is armed; inside the window the edge is ignored.
    pub fn process_input(&mut self, v: Value) -> (out: DebounceActions)
        ensures
            *final(self) == spec_input_next(*old(self), v),
            out == spec_input_actions(*old(self), v),
    {
        if !self.timer_set {
            self.value = Some(v);
            self.timer_set = true;
            DebounceActions { notify: Some(v), arm_timer: true }
        } else {
            DebounceActions { notify: None, arm_timer: false }
        }
    }

    /// The debounce window expired; `raw` is the level read at expiry.
    /// The raw level becomes the stable value; subscribers hear of it only if
    /// it contradicts the provisional notification.
    pub fn process_timer(&mut self, raw: Option<Value>) -> (notify: Option<Value>)
        ensures
            *final(self) == spec_timer_next(*old(self), raw),
            notify == spec_timer_notify(*old(self), raw),
    {
        let out = if self.value != raw {
            self.value = raw;
            raw
        } else {
            None
        };
        self.timer_set = false;
        out
    }

    /// Last stabilised value, falling back to an immediate raw read `raw`
    /// when nothing has ever stabilised.
    pub fn get_value(&self, raw: Option<Value>) -> (v: Option<Value>)
        ensures
            v == if self.value is Some { self.value } else { raw },
    {
        if self.value.is_some() {
            self.value
        } else {
            raw
        }
    }

    pub fn is_high(&self, raw: Option<Value>) -> (r: bool)
        ensures
            r == (self.get_value_spec(raw) == Some(Value::High)),
    {
        matches!(self.get_value(raw), Some(Value::High))
    }

    pub fn is_low(&self, raw: Option<Value>) -> (r: bool)
        ensures
            r == (self.get_value_spec(raw) == Some(Value::Low)),
    {
        matches!(self.get_value(raw), Some(Value::Low))
    }

    /// Specification twin of `get_value`.
    pub open spec fn get_value_spec(&self, raw: Option<Value>) -> Option<Value> {
        if self.value is Some {
            self.value
        } else {
            raw
        }
    }
}

/// State after a whole sequence of raw edges, oldest first.
pub open spec fn spec_burst_state(d: Debouncer, edges: Seq<Value>) -> Debouncer
    decreases edges.len(),
{
    if edges.len() == 0 {
        d
    } else {
        spec_burst_state(spec_input_next(d, edges[0]), edges.drop_first())
    }
}

/// While the debounce window is pending, a sequence of further edges leaves
/// the state as it is.
proof fn lemma_burst_state_fixed(d: Debouncer, edges: Seq<Value>)
    requires
        d.timer_set,
    ensures
        spec_burst_state(d, edges) == d,
    decreases edges.len(),
{
    if edges.len() > 0 {
        assert(spec_input_next(d, edges[0]) == d);
        lemma_burst_state_fixed(d, edges.drop_first());
    }
}

/// Debounce idempotence: a burst of raw edges inside one debounce window,
/// followed by the window expiring, produces exactly one stabilised
/// transition.  Only the first edge is notified during the burst; at expiry
/// the value settles to the raw level read then (with a correcting
/// notification only if that differs from the first edge), never to an
/// intermediate bounce.
pub proof fn lemma_debounce_burst(d0: Debouncer, edges: Seq<Value>, raw_at_expiry: Option<Value>)
    requires
        !d0.timer_set,
        edges.len() >= 1,
    ensures
        // the first edge is latched provisionally and notified
        spec_input_actions(d0, edges[0]).notify == Some(edges[0]),
        // every later edge in the burst is ignored entirely
        spec_burst_state(d0, edges) == (Debouncer { timer_set: true, value: Some(edges[0]) }),
        forall|i: int|
            1 <= i < edges.len() ==> spec_input_actions(
                spec_burst_state(d0, edges.take(i)),
                edges[i],
            ).notify is None,
        // at window expiry the pin settles to the raw value present then
        spec_timer_next(spec_burst_state(d0, edges), raw_at_expiry) == (Debouncer {
            timer_set: false,
            value: raw_at_expiry,
        }),
        // and a second notification happens only on a real correction
        spec_timer_notify(spec_burst_state(d0, edges), raw_at_expiry) == (
        if raw_at_expiry != Some(edges[0]) {
            raw_at_expiry
        } else {
            None
        }),
{
    let d1 = spec_input_next(d0, edges[0]);
    assert(d1 == Debouncer { timer_set: true, value: Some(edges[0]) });
    lemma_burst_state_fixed(d1, edges.drop_first());
    assert(spec_burst_state(d0, edges) == spec_burst_state(d1, edges.drop_first()));
    assert forall|i: int| 1 <= i < edges.len() implies spec_input_actions(
        spec_burst_state(d0, edges.take(i)),
        edges[i],
    ).notify is None by {
        assert(spec_burst_state(d0, edges.take(i)) == spec_burst_state(
            spec_input_next(d0, edges.take(i)[0]),
            edges.take(i).drop_first(),
        ));
        lemma_burst_state_fixed(d1, edges.take(i).drop_first());
        assert(spec_burst_state(d0, edges.take(i)) == d1);
    }
}

} // verus!
