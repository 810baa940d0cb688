//! Controller for a scene-based light.
//!
//! A light reports three facts: a power string, the list of active scenes and
//! the list of active suppressing priorities.  The button targets one scene
//! at a configured priority; its display state says whether that scene is the
//! one running.

use vstd::prelude::*;

use crate::controllers::{
    spec_command_topic, spec_state_topic, command_topic, state_topic, Action, Command, CommandView,
    CommonConfig, CommonConfigView, DisplayState, Subscription, SubscriptionView,
};
use crate::controllers::Icon;
use crate::json::{
    json_escape, json_priority_list, json_string_list, parse_priority_list, parse_string_list,
    push_dec_i32, push_escaped, spec_dec_int,
};
use crate::strutil::{contains_i32, contains_str, str_eq};

verus! {

broadcast use vstd::string::group_string_axioms;

/// Label of a power state message.
pub const LIGHT_LABEL_POWER: u32 = 0;

/// Label of an active-scenes message.
pub const LIGHT_LABEL_SCENES: u32 = 1;

/// Label of an active-priorities message.
pub const LIGHT_LABEL_PRIORITIES: u32 = 2;

/// Configuration of a light button: the target scene and its priority.
pub struct LightConfig {
    pub c: CommonConfig,
    pub scene: String,
    pub priority: i32,
}

/// Mathematical value of a [`LightConfig`].
pub struct LightConfigView {
    pub c: CommonConfigView,
    pub scene: Seq<char>,
    pub priority: i32,
}

impl View for LightConfig {
    type V = LightConfigView;

    open spec fn view(&self) -> LightConfigView {
        LightConfigView { c: self.c@, scene: self.scene@, priority: self.priority }
    }
}

impl Clone for LightConfig {
    fn clone(&self) -> (r: Self)
        ensures
            r@ == self@,
    {
        LightConfig { c: self.c.clone(), scene: self.scene.clone(), priority: self.priority }
    }
}

/// A light controller: configuration plus cached broker facts, each `None`
/// until the first message arrives.
pub struct LightController {
    config: LightConfig,
    power: Option<String>,
    scenes: Option<Vec<String>>,
    priorities: Option<Vec<i32>>,
}

/// Mathematical value of a [`LightController`].
pub struct LightView {
    pub config: LightConfigView,
    pub power: Option<Seq<char>>,
    pub scenes: Option<Seq<Seq<char>>>,
    pub priorities: Option<Seq<i32>>,
}

impl View for LightController {
    type V = LightView;

    closed spec fn view(&self) -> LightView {
        LightView {
            config: self.config@,
            power: match self.power {
                Some(ref p) => Some(p@),
                None => None,
            },
            scenes: match self.scenes {
                Some(ref s) => Some(s.deep_view()),
                None => None,
            },
            priorities: match self.priorities {
                Some(ref p) => Some(p@),
                None => None,
            },
        }
    }
}

/// Whether the scene list is missing or empty.
pub open spec fn spec_scenes_empty(scenes: Option<Seq<Seq<char>>>) -> bool {
    match scenes {
        Some(s) => s.len() == 0,
        None => true,
    }
}

/// Display state for a turn-on (and toggle) button: the target scene present
/// in the active scenes reads `On`; other scenes active reads `OnOther`; an
/// empty scene list falls back to the bare power state.
pub open spec fn spec_light_state_turn_on(v: LightView) -> DisplayState {
    let empty = spec_scenes_empty(v.scenes);
    match v.power {
        None => DisplayState::Unknown,
        Some(p) => if p == "HARD_OFF"@ {
            DisplayState::HardOff
        } else if p == "ON"@ && empty {
            DisplayState::OnOther
        } else if p == "OFF"@ && empty {
            DisplayState::Off
        } else {
            match v.scenes {
                None => DisplayState::Unknown,
                Some(s) => if s.contains(v.config.scene) {
                    DisplayState::On
                } else if !empty {
                    DisplayState::OnOther
                } else {
                    DisplayState::Off
                },
            }
        },
    }
}

/// Display state for a turn-off button: membership of the configured
/// priority in the suppressing priorities decides, and the on/off sense is
/// inverted.
pub open spec fn spec_light_state_turn_off(v: LightView) -> DisplayState {
    let empty = spec_scenes_empty(v.scenes);
    match v.power {
        None => DisplayState::Unknown,
        Some(p) => if p == "HARD_OFF"@ {
            DisplayState::HardOff
        } else if p == "ON"@ && empty {
            DisplayState::Off
        } else if p == "OFF"@ && empty {
            DisplayState::On
        } else {
            match v.priorities {
                None => DisplayState::Unknown,
                Some(pr) => if pr.contains(v.config.priority) {
                    DisplayState::Off
                } else {
                    DisplayState::On
                },
            }
        },
    }
}

/// The light decision table, selected by the configured action.  A toggle
/// button mirrors the turn-on reading, so the slot shows the current state
/// and a press inverts it.
pub open spec fn spec_light_display_state(v: LightView) -> DisplayState {
    match v.config.c.action {
        Action::TurnOn => spec_light_state_turn_on(v),
        Action::TurnOff => spec_light_state_turn_off(v),
        Action::Toggle => spec_light_state_turn_on(v),
    }
}

/// Facts after an inbound message: the power label stores the payload as is;
/// scene and priority labels store the parsed list, or leave the fact alone
/// when the payload is not a well-formed list; other labels are ignored.
pub open spec fn spec_light_process_message(v: LightView, label: u32, data: Seq<char>) -> LightView {
    if label == LIGHT_LABEL_POWER {
        LightView { power: Some(data), ..v }
    } else if label == LIGHT_LABEL_SCENES {
        match json_string_list(data) {
            Some(s) => LightView { scenes: Some(s), ..v },
            None => v,
        }
    } else if label == LIGHT_LABEL_PRIORITIES {
        match json_priority_list(data) {
            Some(p) => LightView { priorities: Some(p), ..v },
            None => v,
        }
    } else {
        v
    }
}

/// Facts after a broker disconnect: all unknown.
pub open spec fn spec_light_disconnected(v: LightView) -> LightView {
    LightView { power: None, scenes: None, priorities: None, ..v }
}

/// The press payload: the target scene and priority, plus an explicit
/// turn-off action when the press should turn the scene off.
pub open spec fn spec_light_press_message(scene: Seq<char>, priority: i32, turn_off: bool) -> Seq<
    char,
> {
    "{\"scene\":\""@ + json_escape(scene) + "\",\"priority\":"@ + spec_dec_int(priority as int) + (
    if turn_off {
        ",\"action\":\"turn_off\""@
    } else {
        Seq::<char>::empty()
    }) + "}"@
}

/// Whether a press should ask for turn-off: always for a turn-off button,
/// and for a toggle button exactly when the slot currently reads `On`.
pub open spec fn spec_light_press_turn_off(v: LightView) -> bool {
    match v.config.c.action {
        Action::TurnOn => false,
        Action::TurnOff => true,
        Action::Toggle => spec_light_display_state(v) == DisplayState::On,
    }
}

/// The single command a press produces.
pub open spec fn spec_light_press_commands(v: LightView) -> Seq<CommandView> {
    seq![
        CommandView {
            topic: spec_command_topic(v.config.c.topic_substr),
            message: spec_light_press_message(
                v.config.scene,
                v.config.priority,
                spec_light_press_turn_off(v),
            ),
        },
    ]
}

/// The three state topics a light listens on.
pub open spec fn spec_light_subscriptions(v: LightView) -> Seq<SubscriptionView> {
    let substr = v.config.c.topic_substr;
    seq![
        SubscriptionView { topic: spec_state_topic(substr, "power"@), label: LIGHT_LABEL_POWER },
        SubscriptionView { topic: spec_state_topic(substr, "scenes"@), label: LIGHT_LABEL_SCENES },
        SubscriptionView {
            topic: spec_state_topic(substr, "priorities"@),
            label: LIGHT_LABEL_PRIORITIES,
        },
    ]
}

impl LightController {
    pub fn new(config: &LightConfig) -> (c: Self)
        ensures
            c@ == (LightView { config: config@, power: None, scenes: None, priorities: None }),
    {
        Self { config: config.clone(), power: None, scenes: None, priorities: None }
    }

    pub fn get_subscriptions(&self) -> (r: Vec<Subscription>)
        ensures
            r.deep_view() == spec_light_subscriptions(self@),
    {
        let substr = self.config.c.topic_substr.as_str();
        let mut result: Vec<Subscription> = Vec::new();
        result.push(Subscription { topic: state_topic(substr, "power"), label: LIGHT_LABEL_POWER });
        result.push(
            Subscription { topic: state_topic(substr, "scenes"), label: LIGHT_LABEL_SCENES },
        );
        result.push(
            Subscription {
                topic: state_topic(substr, "priorities"),
                label: LIGHT_LABEL_PRIORITIES,
            },
        );
        proof {
            assert(result.deep_view() =~= spec_light_subscriptions(self@));
        }
        result
    }

    pub fn process_message(&mut self, label: u32, data: String)
        ensures
            final(self)@ == spec_light_process_message(old(self)@, label, data@),
    {
        if label == LIGHT_LABEL_POWER {
            self.power = Some(data);
        } else if label == LIGHT_LABEL_SCENES {
            match parse_string_list(data.as_str()) {
                Some(scenes) => self.scenes = Some(scenes),
                None => {},
            }
        } else if label == LIGHT_LABEL_PRIORITIES {
            match parse_priority_list(data.as_str()) {
                Some(priorities) => self.priorities = Some(priorities),
                None => {},
            }
        }
    }

    pub fn process_disconnected(&mut self)
        ensures
            final(self)@ == spec_light_disconnected(old(self)@),
    {
        self.power = None;
        self.scenes = None;
        self.priorities = None;
    }

    pub fn get_display_state(&self) -> (r: DisplayState)
        ensures
            r == spec_light_display_state(self@),
    {
        match self.config.c.action {
            Action::TurnOn => get_display_state_turn_on(self),
            Action::TurnOff => get_display_state_turn_off(self),
            Action::Toggle => get_display_state_toggle(self),
        }
    }

    pub fn get_press_commands(&self) -> (r: Vec<Command>)
        ensures
            r.deep_view() == spec_light_press_commands(self@),
    {
        let turn_off = match self.config.c.action {
            Action::TurnOn => false,
            Action::TurnOff => true,
            Action::Toggle => {
                let display_state = self.get_display_state();
                matches!(display_state, DisplayState::On)
            },
        };
        let mut message = String::from_str("{\"scene\":\"");
        push_escaped(&mut message, self.config.scene.as_str());
        message.append("\",\"priority\":");
        push_dec_i32(&mut message, self.config.priority);
        if turn_off {
            message.append(",\"action\":\"turn_off\"");
        }
        message.append("}");
        proof {
            assert(message@ =~= spec_light_press_message(
                self@.config.scene,
                self@.config.priority,
                spec_light_press_turn_off(self@),
            ));
        }
        let command = Command::new(command_topic(self.config.c.topic_substr.as_str()), message);
        let mut r: Vec<Command> = Vec::new();
        r.push(command);
        proof {
            assert(r.deep_view() =~= spec_light_press_commands(self@));
        }
        r
    }

    pub fn get_icon(&self) -> (r: Icon)
        ensures
            r == self@.config.c.icon,
    {
        self.config.c.icon
    }

    pub fn get_name(&self) -> (r: String)
        ensures
            r@ == self@.config.c.name,
    {
        self.config.c.name.clone()
    }
}

/// Turn-on reading of the current facts.
pub fn get_display_state_turn_on(lb: &LightController) -> (r: DisplayState)
    ensures
        r == spec_light_state_turn_on(lb@),
{
    light_state_scene_based(lb)
}

/// Turn-off reading of the current facts.
pub fn get_display_state_turn_off(lb: &LightController) -> (r: DisplayState)
    ensures
        r == spec_light_state_turn_off(lb@),
{
    let scenes_empty = match &lb.scenes {
        Some(scenes) => scenes.len() == 0,
        None => true,
    };
    match &lb.power {
        None => DisplayState::Unknown,
        Some(p) => {
            if str_eq(p.as_str(), "HARD_OFF") {
                DisplayState::HardOff
            } else if str_eq(p.as_str(), "ON") && scenes_empty {
                DisplayState::Off
            } else if str_eq(p.as_str(), "OFF") && scenes_empty {
                DisplayState::On
            } else {
                match &lb.priorities {
                    None => DisplayState::Unknown,
                    Some(priorities) => {
                        if contains_i32(priorities, lb.config.priority) {
                            DisplayState::Off
                        } else {
                            DisplayState::On
                        }
                    },
                }
            }
        },
    }
}

/// Toggle reading of the current facts; mirrors the turn-on reading.
pub fn get_display_state_toggle(lb: &LightController) -> (r: DisplayState)
    ensures
        r == spec_light_state_turn_on(lb@),
{
    light_state_scene_based(lb)
}

fn light_state_scene_based(lb: &LightController) -> (r: DisplayState)
    ensures
        r == spec_light_state_turn_on(lb@),
{
    let scenes_empty = match &lb.scenes {
        Some(scenes) => scenes.len() == 0,
        None => true,
    };
    match &lb.power {
        None => DisplayState::Unknown,
        Some(p) => {
            if str_eq(p.as_str(), "HARD_OFF") {
                DisplayState::HardOff
            } else if str_eq(p.as_str(), "ON") && scenes_empty {
                DisplayState::OnOther
            } else if str_eq(p.as_str(), "OFF") && scenes_empty {
                DisplayState::Off
            } else {
                match &lb.scenes {
                    None => DisplayState::Unknown,
                    Some(scenes) => {
                        if contains_str(scenes, lb.config.scene.as_str()) {
                            DisplayState::On
                        } else if !scenes_empty {
                            DisplayState::OnOther
                        } else {
                            DisplayState::Off
                        }
                    },
                }
            }
        },
    }
}

/// The light decision table has no hidden inputs: two lights with the same
/// facts, action, target scene and priority read the same, whatever their
/// name, icon or topics.
pub proof fn lemma_light_display_state_deterministic(a: LightView, b: LightView)
    requires
        a.power == b.power,
        a.scenes == b.scenes,
        a.priorities == b.priorities,
        a.config.c.action == b.config.c.action,
        a.config.scene == b.config.scene,
        a.config.priority == b.config.priority,
    ensures
        spec_light_display_state(a) == spec_light_display_state(b),
{
}

/// Toggle consistency, turn-on direction: when a toggle light button does
/// not read `On`, the press command carries no turn-off action, and once the
/// broker reflects the activated scene back (power on, target scene in the
/// active list) the button reads `On`.
pub proof fn lemma_light_toggle_turns_on(v: LightView, reflected_scenes: Seq<Seq<char>>)
    requires
        v.config.c.action == Action::Toggle,
        spec_light_display_state(v) != DisplayState::On,
        reflected_scenes.contains(v.config.scene),
    ensures
        !spec_light_press_turn_off(v),
        spec_light_press_commands(v)[0].message == spec_light_press_message(
            v.config.scene,
            v.config.priority,
            false,
        ),
        spec_light_display_state(
            LightView { power: Some("ON"@), scenes: Some(reflected_scenes), ..v },
        ) == DisplayState::On,
{
    let after = LightView { power: Some("ON"@), scenes: Some(reflected_scenes), ..v };
    reveal_strlit("ON");
    reveal_strlit("HARD_OFF");
    assert(!spec_scenes_empty(after.scenes));
    assert("ON"@.len() == 2);
    assert("HARD_OFF"@.len() == 8);
    assert("ON"@ != "HARD_OFF"@);
}

} // verus!
