//! Debouncing for capacitive touch inputs.
//!
//! Touch controllers can stop firing edge interrupts while contact is held,
//! so after the debounce window confirms a touch the machine does not wait
//! for a release edge: it polls the raw level at a fixed interval until the
//! level returns high, emits the release itself and goes back to `Inactive`.
//!
//! As with `debounce`, only the decision core lives here; the surrounding
//! context delivers raw-edge and timer events and carries out the requested
//! notifications and timer arming.

use vstd::prelude::*;
use crate::input::Value;

verus! {

/// Phase of the touch debouncer.
#[derive(Copy, Clone, Debug, PartialEq, Eq, Structural)]
pub enum TouchDebouncerState {
    /// Waiting for a touch edge.
    Inactive,
    /// A touch was latched; the debounce window is running.
    Debounce,
    /// The touch is confirmed; polling the raw level for the release.
    ActivePoll,
}

/// Which one-shot interval to arm next.
#[derive(Copy, Clone, Debug, PartialEq, Eq, Structural)]
pub enum TouchTimer {
    /// The debounce window.
    Debounce,
    /// The release-poll interval.
    Poll,
}

/// What one step asks the surrounding context to do.  A timer step can notify
/// twice: a correction when the window expires, then at once the release if
/// the raw level is already high.
#[derive(Copy, Clone, PartialEq, Eq, Structural)]
pub struct TouchActions {
    pub notify_first: Option<Value>,
    pub notify_second: Option<Value>,
    pub arm_timer: Option<TouchTimer>,
}

pub open spec fn spec_no_actions() -> TouchActions {
    TouchActions { notify_first: None, notify_second: None, arm_timer: None }
}

/// Touch debouncer state machine.
pub struct TouchDebouncer {
    pub state: TouchDebouncerState,
    /// Last notified (stabilised) value; `None` until one exists.
    pub value: Option<Value>,
    /// Last raw level seen by the edge handler.
    pub raw_value: Option<Value>,
}

/// State after a raw edge; `pin_low` is the raw level read when handling it.
pub open spec fn spec_touch_input_next(t: TouchDebouncer, pin_low: bool) -> TouchDebouncer {
    if pin_low {
        if t.state == TouchDebouncerState::Inactive {
            TouchDebouncer {
                state: TouchDebouncerState::Debounce,
                value: Some(Value::Low),
                raw_value: Some(Value::Low),
            }
        } else {
            TouchDebouncer { raw_value: Some(Value::Low), ..t }
        }
    } else {
        t
    }
}

/// Actions for a raw edge: a fresh touch is notified at once and the debounce
/// window armed; anything else is ignored.
pub open spec fn spec_touch_input_actions(t: TouchDebouncer, pin_low: bool) -> TouchActions {
    if pin_low && t.state == TouchDebouncerState::Inactive {
        TouchActions {
            notify_first: Some(Value::Low),
            notify_second: None,
            arm_timer: Some(TouchTimer::Debounce),
        }
    } else {
        spec_no_actions()
    }
}

/// State after a timer fires; `pin_high` is the raw level read then.
pub open spec fn spec_touch_timer_next(t: TouchDebouncer, pin_high: bool) -> TouchDebouncer {
    if t.state == TouchDebouncerState::Debounce {
        let settled = TouchDebouncer {
            state: TouchDebouncerState::ActivePoll,
            value: t.raw_value,
            raw_value: t.raw_value,
        };
        if pin_high {
            TouchDebouncer {
                state: TouchDebouncerState::Inactive,
                value: Some(Value::High),
                ..settled
            }
        } else {
            settled
        }
    } else if t.state == TouchDebouncerState::ActivePoll {
        if pin_high {
            TouchDebouncer { state: TouchDebouncerState::Inactive, value: Some(Value::High), ..t }
        } else {
            t
        }
    } else {
        t
    }
}

/// Actions for a timer fire: in `Debounce`, a correction if the settled raw
/// level differs from the provisional one, then the machine confirms the
/// touch; in `ActivePoll`, the release is emitted as soon as the raw level
/// reads high, otherwise the poll interval is re-armed.  A stale timer in
/// `Inactive` does nothing.
pub open spec fn spec_touch_timer_actions(t: TouchDebouncer, pin_high: bool) -> TouchActions {
    if t.state == TouchDebouncerState::Debounce {
        let correction: Option<Value> = if t.value != t.raw_value {
            t.raw_value
        } else {
            None
        };
        if pin_high {
            TouchActions {
                notify_first: correction,
                notify_second: Some(Value::High),
                arm_timer: None,
            }
        } else {
            TouchActions {
                notify_first: correction,
                notify_second: None,
                arm_timer: Some(TouchTimer::Poll),
            }
        }
    } else if t.state == TouchDebouncerState::ActivePoll {
        if pin_high {
            TouchActions { notify_first: Some(Value::High), notify_second: None, arm_timer: None }
        } else {
            TouchActions { notify_first: None, notify_second: None, arm_timer: Some(TouchTimer::Poll) }
        }
    } else {
        spec_no_actions()
    }
}

impl TouchDebouncer {
    pub fn new() -> (t: TouchDebouncer)
        ensures
            t.state == TouchDebouncerState::Inactive,
            t.value is None,
            t.raw_value is None,
    {
        TouchDebouncer { state: TouchDebouncerState::Inactive, value: None, raw_value: None }
    }

    /// One raw edge notification; `pin_low` is the level read while handling
    /// it (edge events for a high level are ignored).
    pub fn process_input(&mut self, pin_low: bool) -> (out: TouchActions)
        ensures
            *final(self) == spec_touch_input_next(*old(self), pin_low),
            out == spec_touch_input_actions(*old(self), pin_low),
    {
        if pin_low {
            let out = if matches!(self.state, TouchDebouncerState::Inactive) {
                self.value = Some(Value::Low);
                self.state = TouchDebouncerState::Debounce;
                TouchActions {
                    notify_first: Some(Value::Low),
                    notify_second: None,
                    arm_timer: Some(TouchTimer::Debounce),
                }
            } else {
                TouchActions { notify_first: None, notify_second: None, arm_timer: None }
            };
            self.raw_value = Some(Value::Low);
            out
        } else {
            TouchActions { notify_first: None, notify_second: None, arm_timer: None }
        }
    }

    /// One timer fire; `pin_high` is the raw level read while handling it.
    pub fn process_timer(&mut self, pin_high: bool) -> (out: TouchActions)
        ensures
            *final(self) == spec_touch_timer_next(*old(self), pin_high),
            out == spec_touch_timer_actions(*old(self), pin_high),
    {
        let mut notify_first: Option<Value> = None;
        let mut notify_second: Option<Value> = None;
        if matches!(self.state, TouchDebouncerState::Debounce) {
            if self.value != self.raw_value {
                self.value = self.raw_value;
                notify_first = self.raw_value;
            }
            self.state = TouchDebouncerState::ActivePoll;
            if pin_high {
                self.state = TouchDebouncerState::Inactive;
                self.value = Some(Value::High);
                notify_second = Some(Value::High);
            }
        } else if matches!(self.state, TouchDebouncerState::ActivePoll) {
            if pin_high {
                self.state = TouchDebouncerState::Inactive;
                self.value = Some(Value::High);
                notify_first = Some(Value::High);
            }
        }
        let arm_timer = if matches!(self.state, TouchDebouncerState::ActivePoll) {
            Some(TouchTimer::Poll)
        } else {
            None
        };
        TouchActions { notify_first, notify_second, arm_timer }
    }

    /// Last stabilised value, falling back to the raw read `raw` when nothing
    /// has ever stabilised.
    pub fn get_value(&self, raw: Option<Value>) -> (v: Option<Value>)
        ensures
            v == self.get_value_spec(raw),
    {
        if self.value.is_some() {
            self.value
        } else {
            raw
        }
    }

    /// Specification twin of `get_value`.
    pub open spec fn get_value_spec(&self, raw: Option<Value>) -> Option<Value> {
        if self.value is Some {
            self.value
        } else {
            raw
        }
    }

    pub fn is_high(&self, raw: Option<Value>) -> (r: bool)
        ensures
            r == (self.get_value_spec(raw) == Some(Value::High)),
    {
        matches!(self.get_value(raw), Some(Value::High))
    }

    pub fn is_low(&self, raw: Option<Value>) -> (r: bool)
        ensures
            r == (self.get_value_spec(raw) == Some(Value::Low)),
    {
        matches!(self.get_value(raw), Some(Value::Low))
    }
}

/// Touch debounce liveness, one step at a time: in `ActivePoll` a timer fire
/// with the raw level high emits the release and leaves the poll loop, and a
/// timer fire with the raw level still low keeps the poll timer armed.  Since
/// an armed one-shot timer fires, the machine can never sit in `ActivePoll`
/// with no timer pending: once the raw level returns high, the next poll
/// emits the release, so the release latency is bounded by the poll interval.
pub proof fn lemma_touch_poll_release(t: TouchDebouncer, pin_high: bool)
    requires
        t.state == TouchDebouncerState::ActivePoll,
    ensures
        pin_high ==> {
            &&& spec_touch_timer_next(t, pin_high).state == TouchDebouncerState::Inactive
            &&& spec_touch_timer_actions(t, pin_high).notify_first == Some(Value::High)
        },
        !pin_high ==> {
            &&& spec_touch_timer_next(t, pin_high).state == TouchDebouncerState::ActivePoll
            &&& spec_touch_timer_actions(t, pin_high).arm_timer == Some(TouchTimer::Poll)
        },
{
}

/// Every step that leaves the machine in `ActivePoll` also leaves the poll
/// timer armed, so the poll loop cannot stall: `ActivePoll` is only ever
/// entered or kept together with an armed timer.
pub proof fn lemma_touch_poll_keeps_timer(t: TouchDebouncer, pin_high: bool)
    ensures
        spec_touch_timer_next(t, pin_high).state == TouchDebouncerState::ActivePoll
            ==> spec_touch_timer_actions(t, pin_high).arm_timer == Some(TouchTimer::Poll),
{
}

/// State after a whole run of poll-timer fires, oldest first; each element
/// of `polls` is the raw level read at one fire.
pub open spec fn spec_poll_run(t: TouchDebouncer, polls: Seq<bool>) -> TouchDebouncer
    decreases polls.len(),
{
    if polls.len() == 0 {
        t
    } else {
        spec_poll_run(spec_touch_timer_next(t, polls[0]), polls.drop_first())
    }
}

/// A run of poll fires folds one step at a time from the back.
proof fn lemma_poll_run_snoc(t: TouchDebouncer, polls: Seq<bool>, p: bool)
    ensures
        spec_poll_run(t, polls.push(p)) == spec_touch_timer_next(spec_poll_run(t, polls), p),
    decreases polls.len(),
{
    if polls.len() == 0 {
        assert(polls.push(p)[0] == p);
        assert(polls.push(p).drop_first() =~= Seq::<bool>::empty());
        assert(spec_poll_run(t, polls.push(p)) == spec_poll_run(
            spec_touch_timer_next(t, p),
            Seq::<bool>::empty(),
        ));
        assert(spec_poll_run(spec_touch_timer_next(t, p), Seq::<bool>::empty())
            == spec_touch_timer_next(t, p));
    } else {
        assert(polls.push(p)[0] == polls[0]);
        assert(polls.push(p).drop_first() =~= polls.drop_first().push(p));
        assert(spec_poll_run(t, polls.push(p)) == spec_poll_run(
            spec_touch_timer_next(t, polls[0]),
            polls.drop_first().push(p),
        ));
        assert(spec_poll_run(t, polls) == spec_poll_run(
            spec_touch_timer_next(t, polls[0]),
            polls.drop_first(),
        ));
        lemma_poll_run_snoc(spec_touch_timer_next(t, polls[0]), polls.drop_first(), p);
    }
}

/// Poll fires that read the raw level low leave the machine exactly where
/// it is.
proof fn lemma_poll_run_low_fixed(t: TouchDebouncer, polls: Seq<bool>)
    requires
        t.state == TouchDebouncerState::ActivePoll,
        forall|j: int| 0 <= j < polls.len() ==> !polls[j],
    ensures
        spec_poll_run(t, polls) == t,
    decreases polls.len(),
{
    if polls.len() > 0 {
        assert(!polls[0]);
        assert(spec_touch_timer_next(t, polls[0]) == t);
        assert(forall|j: int|
            0 <= j < polls.drop_first().len() ==> !#[trigger] polls.drop_first()[j]);
        lemma_poll_run_low_fixed(t, polls.drop_first());
    }
}

/// Touch debounce liveness over a whole poll run: while every fire reads
/// the raw level low the machine stays in `ActivePoll` with the poll timer
/// re-armed at each fire, and the first fire that reads high emits the
/// release and returns the machine to `Inactive`.  Since an armed one-shot
/// timer fires, the release follows the raw level returning high within one
/// poll interval.
pub proof fn lemma_touch_poll_liveness(t: TouchDebouncer, polls: Seq<bool>, i: int)
    requires
        t.state == TouchDebouncerState::ActivePoll,
        0 <= i < polls.len(),
        polls[i],
        forall|j: int| 0 <= j < i ==> !polls[j],
    ensures
        forall|j: int|
            0 <= j <= i ==> #[trigger] spec_poll_run(t, polls.take(j)).state
                == TouchDebouncerState::ActivePoll,
        forall|j: int|
            0 <= j < i ==> spec_touch_timer_actions(
                #[trigger] spec_poll_run(t, polls.take(j)),
                polls[j],
            ).arm_timer == Some(TouchTimer::Poll),
        spec_touch_timer_actions(spec_poll_run(t, polls.take(i)), polls[i]).notify_first == Some(
            Value::High,
        ),
        spec_poll_run(t, polls.take(i + 1)).state == TouchDebouncerState::Inactive,
{
    assert forall|j: int| 0 <= j <= i implies #[trigger] spec_poll_run(t, polls.take(j)).state
        == TouchDebouncerState::ActivePoll by {
        assert(forall|k: int| 0 <= k < j ==> !#[trigger] polls.take(j)[k]);
        lemma_poll_run_low_fixed(t, polls.take(j));
    }
    assert forall|j: int| 0 <= j < i implies spec_touch_timer_actions(
        #[trigger] spec_poll_run(t, polls.take(j)),
        polls[j],
    ).arm_timer == Some(TouchTimer::Poll) by {
        lemma_poll_run_low_fixed(t, polls.take(j));
    }
    lemma_poll_run_low_fixed(t, polls.take(i));
    assert(polls.take(i + 1) =~= polls.take(i).push(polls[i]));
    lemma_poll_run_snoc(t, polls.take(i), polls[i]);
}

} // verus!
