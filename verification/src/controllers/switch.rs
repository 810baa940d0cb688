//! Controller for a plain on/off switch.
//!
//! A switch reports a single power string; the display state maps it
//! directly, and a press sends an explicit turn-on or turn-off action.

use vstd::prelude::*;

use crate::controllers::{
    spec_command_topic, spec_display_state_for_action, spec_state_topic, command_topic,
    get_display_state_for_action, state_topic, Action, Command, CommandView, CommonConfig,
    CommonConfigView, DisplayState, Icon, Subscription, SubscriptionView,
};
use crate::strutil::str_eq;

verus! {

broadcast use vstd::string::group_string_axioms;

/// Label of a power state message.
pub const SWITCH_LABEL_POWER: u32 = 0;

/// Configuration of a switch button.
pub struct SwitchConfig {
    pub c: CommonConfig,
}

/// Mathematical value of a [`SwitchConfig`].
pub struct SwitchConfigView {
    pub c: CommonConfigView,
}

impl View for SwitchConfig {
    type V = SwitchConfigView;

    open spec fn view(&self) -> SwitchConfigView {
        SwitchConfigView { c: self.c@ }
    }
}

impl Clone for SwitchConfig {
    fn clone(&self) -> (r: Self)
        ensures
            r@ == self@,
    {
        SwitchConfig { c: self.c.clone() }
    }
}

/// A switch controller: configuration plus the cached power fact.
pub struct SwitchController {
    config: SwitchConfig,
    power: Option<String>,
}

/// Mathematical value of a [`SwitchController`].
pub struct SwitchView {
    pub config: SwitchConfigView,
    pub power: Option<Seq<char>>,
}

impl View for SwitchController {
    type V = SwitchView;

    closed spec fn view(&self) -> SwitchView {
        SwitchView {
            config: self.config@,
            power: match self.power {
                Some(ref p) => Some(p@),
                None => None,
            },
        }
    }
}

/// The raw device state: on, off, hard-off, unknown, or an error for any
/// unrecognised power string.
pub open spec fn spec_switch_device_state(power: Option<Seq<char>>) -> DisplayState {
    match power {
        None => DisplayState::Unknown,
        Some(p) => if p == "HARD_OFF"@ {
            DisplayState::HardOff
        } else if p == "ON"@ {
            DisplayState::On
        } else if p == "OFF"@ {
            DisplayState::Off
        } else {
            DisplayState::Error
        },
    }
}

/// The switch decision table: the raw device state read through the
/// configured action.
pub open spec fn spec_switch_display_state(v: SwitchView) -> DisplayState {
    spec_display_state_for_action(spec_switch_device_state(v.power), v.config.c.action)
}

/// Facts after an inbound message: only the power label is recognised.
pub open spec fn spec_switch_process_message(v: SwitchView, label: u32, data: Seq<char>) -> SwitchView {
    if label == SWITCH_LABEL_POWER {
        SwitchView { power: Some(data), ..v }
    } else {
        v
    }
}

/// Facts after a broker disconnect.
pub open spec fn spec_switch_disconnected(v: SwitchView) -> SwitchView {
    SwitchView { power: None, ..v }
}

/// The press payload: an explicit action.
pub open spec fn spec_switch_press_message(turn_on: bool) -> Seq<char> {
    if turn_on {
        "{\"action\":\"turn_on\"}"@
    } else {
        "{\"action\":\"turn_off\"}"@
    }
}

/// Whether a press should ask for turn-on: always for a turn-on button,
/// never for a turn-off button, and for a toggle button exactly when the
/// slot does not currently read `On`.
pub open spec fn spec_switch_press_turn_on(v: SwitchView) -> bool {
    match v.config.c.action {
        Action::TurnOn => true,
        Action::TurnOff => false,
        Action::Toggle => spec_switch_display_state(v) != DisplayState::On,
    }
}

/// The single command a press produces.
pub open spec fn spec_switch_press_commands(v: SwitchView) -> Seq<CommandView> {
    seq![
        CommandView {
            topic: spec_command_topic(v.config.c.topic_substr),
            message: spec_switch_press_message(spec_switch_press_turn_on(v)),
        },
    ]
}

/// The one state topic a switch listens on.
pub open spec fn spec_switch_subscriptions(v: SwitchView) -> Seq<SubscriptionView> {
    seq![
        SubscriptionView {
            topic: spec_state_topic(v.config.c.topic_substr, "power"@),
            label: SWITCH_LABEL_POWER,
        },
    ]
}

impl SwitchController {
    pub fn new(config: &SwitchConfig) -> (c: Self)
        ensures
            c@ == (SwitchView { config: config@, power: None }),
    {
        Self { config: config.clone(), power: None }
    }

    pub fn get_subscriptions(&self) -> (r: Vec<Subscription>)
        ensures
            r.deep_view() == spec_switch_subscriptions(self@),
    {
        let mut result: Vec<Subscription> = Vec::new();
        result.push(
            Subscription {
                topic: state_topic(self.config.c.topic_substr.as_str(), "power"),
                label: SWITCH_LABEL_POWER,
            },
        );
        proof {
            assert(result.deep_view() =~= spec_switch_subscriptions(self@));
        }
        result
    }

    pub fn process_message(&mut self, label: u32, data: String)
        ensures
            final(self)@ == spec_switch_process_message(old(self)@, label, data@),
    {
        if label == SWITCH_LABEL_POWER {
            self.power = Some(data);
        }
    }

    pub fn process_disconnected(&mut self)
        ensures
            final(self)@ == spec_switch_disconnected(old(self)@),
    {
        self.power = None;
    }

    pub fn get_display_state(&self) -> (r: DisplayState)
        ensures
            r == spec_switch_display_state(self@),
    {
        let state = match &self.power {
            None => DisplayState::Unknown,
            Some(p) => {
                if str_eq(p.as_str(), "HARD_OFF") {
                    DisplayState::HardOff
                } else if str_eq(p.as_str(), "ON") {
                    DisplayState::On
                } else if str_eq(p.as_str(), "OFF") {
                    DisplayState::Off
                } else {
                    DisplayState::Error
                }
            },
        };
        get_display_state_for_action(state, &self.config.c.action)
    }

    pub fn get_press_commands(&self) -> (r: Vec<Command>)
        ensures
            r.deep_view() == spec_switch_press_commands(self@),
    {
        let turn_on = match self.config.c.action {
            Action::TurnOn => true,
            Action::TurnOff => false,
            Action::Toggle => {
                let display_state = self.get_display_state();
                !matches!(display_state, DisplayState::On)
            },
        };
        let message = if turn_on {
            String::from_str("{\"action\":\"turn_on\"}")
        } else {
            String::from_str("{\"action\":\"turn_off\"}")
        };
        let command = Command::new(command_topic(self.config.c.topic_substr.as_str()), message);
        let mut r: Vec<Command> = Vec::new();
        r.push(command);
        proof {
            assert(r.deep_view() =~= spec_switch_press_commands(self@));
        }
        r
    }

    pub fn get_icon(&self) -> (r: Icon)
        ensures
            r == self@.config.c.icon,
    {
        self.config.c.icon
    }

    pub fn get_name(&self) -> (r: String)
        ensures
            r@ == self@.config.c.name,
    {
        self.config.c.name.clone()
    }
}

/// Toggle consistency for a switch: under the toggle action, a press when
/// the slot reads `On` asks for turn-off, and once the broker echoes the
/// new power state back the slot reads `Off` — and the other way round.
pub proof fn lemma_switch_toggle_inverts(v: SwitchView)
    requires
        v.config.c.action == Action::Toggle,
    ensures
        spec_switch_display_state(v) == DisplayState::On ==> {
            &&& spec_switch_press_commands(v)[0].message == spec_switch_press_message(false)
            &&& spec_switch_display_state(
                spec_switch_process_message(v, SWITCH_LABEL_POWER, "OFF"@),
            ) == DisplayState::Off
        },
        spec_switch_display_state(v) != DisplayState::On ==> {
            &&& spec_switch_press_commands(v)[0].message == spec_switch_press_message(true)
            &&& spec_switch_display_state(
                spec_switch_process_message(v, SWITCH_LABEL_POWER, "ON"@),
            ) == DisplayState::On
        },
{
    reveal_strlit("ON");
    reveal_strlit("OFF");
    reveal_strlit("HARD_OFF");
    assert("ON"@.len() == 2);
    assert("OFF"@.len() == 3);
    assert("HARD_OFF"@.len() == 8);
    assert("ON"@ != "HARD_OFF"@);
    assert("OFF"@ != "HARD_OFF"@);
    assert("OFF"@ != "ON"@);
}

} // verus!
