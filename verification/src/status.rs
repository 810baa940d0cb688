//! The display-blanking policy state.
//!
//! `RequestedDisplayStatus` says what the world wants of the display: the
//! time of day, the forced-on override gated by the night controller, and
//! whether the activity timer is armed.  `ActualDisplayStatus` says what the
//! display currently does.  The policy in the event loop drives the actual
//! state towards the requested one.

use vstd::prelude::*;

verus! {

/// Day or night, as reported on the night topic.
#[derive(Copy, Clone, Debug, PartialEq, Eq, Structural)]
pub enum TimeOfDay {
    Day,
    Night,
}

/// What the display should be doing.
#[derive(Copy, Clone, Debug, PartialEq, Eq, Structural)]
pub struct RequestedDisplayStatus {
    pub time_of_day: TimeOfDay,
    /// Override from the designated night controller being on.
    pub forced_on: bool,
    /// Whether recent activity keeps the display lit at night.
    pub night_timer: bool,
}

/// What the display currently does.
#[derive(Copy, Clone, Debug, PartialEq, Eq, Structural)]
pub struct ActualDisplayStatus {
    /// Whether the one-shot blank timer is running.
    pub timer_on: bool,
    /// Whether the display is lit.
    pub display_on: bool,
}

/// Whether the blank timer should be running.
pub open spec fn spec_timer_required(r: RequestedDisplayStatus) -> bool {
    r.night_timer
}

/// Whether the display should be lit: by day always, by night only under
/// the forced-on override or while the activity timer is armed.
pub open spec fn spec_display_required(r: RequestedDisplayStatus) -> bool {
    r.time_of_day == TimeOfDay::Day || r.forced_on || r.night_timer
}

impl RequestedDisplayStatus {
    pub fn get_timer_required(&self) -> (r: bool)
        ensures
            r == spec_timer_required(*self),
    {
        self.night_timer
    }

    pub fn get_display_required(&self) -> (r: bool)
        ensures
            r == spec_display_required(*self),
    {
        matches!(self.time_of_day, TimeOfDay::Day) || self.forced_on || self.night_timer
    }

    pub fn turn_night_timer_on(&mut self)
        ensures
            *final(self) == (RequestedDisplayStatus { night_timer: true, ..*old(self) }),
    {
        self.night_timer = true;
    }

    pub fn turn_night_timer_off(&mut self)
        ensures
            *final(self) == (RequestedDisplayStatus { night_timer: false, ..*old(self) }),
    {
        self.night_timer = false;
    }
}

} // verus!
