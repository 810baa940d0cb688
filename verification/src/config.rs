//! The static controller table and the constants around it.

use vstd::prelude::*;

use crate::controllers::{
    Action, CommonConfig, Controller, ControllerView, Icon,
};
use crate::controllers::lights::{LightConfig, LightController, LightView};
use crate::controllers::music::{MusicConfig, MusicController, MusicView};
use crate::controllers::switch::{SwitchConfig, SwitchController, SwitchView};

verus! {

/// How many controllers the static table defines.
pub const NUM_CONTROLLERS: usize = 6;

/// Index of the controller whose state gates the forced-display-on override.
pub const NIGHT_CONTROLLER: usize = 0;

/// Topic that reports whether it is night.
pub fn night_topic() -> (r: &'static str)
    ensures
        r@ == "state/Brian/Night/power"@,
{
    "state/Brian/Night/power"
}

/// Configuration for one controller of any kind.
pub enum ControllerConfig {
    Light(LightConfig),
    Switch(SwitchConfig),
    Music(MusicConfig),
}

/// Mathematical value of a [`ControllerConfig`].
pub enum ControllerConfigView {
    Light(<LightConfig as View>::V),
    Switch(<SwitchConfig as View>::V),
    Music(<MusicConfig as View>::V),
}

impl View for ControllerConfig {
    type V = ControllerConfigView;

    open spec fn view(&self) -> ControllerConfigView {
        match self {
            ControllerConfig::Light(c) => ControllerConfigView::Light(c@),
            ControllerConfig::Switch(c) => ControllerConfigView::Switch(c@),
            ControllerConfig::Music(c) => ControllerConfigView::Music(c@),
        }
    }
}

impl DeepView for ControllerConfig {
    type V = ControllerConfigView;

    open spec fn deep_view(&self) -> ControllerConfigView {
        self.view()
    }
}

/// The controller a configuration creates, with every fact unknown.
pub open spec fn spec_created_controller(v: ControllerConfigView) -> ControllerView {
    match v {
        ControllerConfigView::Light(c) => ControllerView::Light(
            LightView { config: c, power: None, scenes: None, priorities: None },
        ),
        ControllerConfigView::Switch(c) => ControllerView::Switch(
            SwitchView { config: c, power: None },
        ),
        ControllerConfigView::Music(c) => ControllerView::Music(
            MusicView { config: c, play_list: None },
        ),
    }
}

impl ControllerConfig {
    /// Builds the controller this configuration describes.
    pub fn create_controller(&self) -> (r: Controller)
        ensures
            r@ == spec_created_controller(self@),
    {
        match self {
            ControllerConfig::Light(c) => Controller::Light(LightController::new(c)),
            ControllerConfig::Switch(c) => Controller::Switch(SwitchController::new(c)),
            ControllerConfig::Music(c) => Controller::Music(MusicController::new(c)),
        }
    }
}

fn common(name: &str, topic_substr: &str, action: Action, icon: Icon) -> (r: CommonConfig)
    ensures
        r@.name == name@,
        r@.topic_substr == topic_substr@,
        r@.action == action,
        r@.icon == icon,
{
    CommonConfig {
        name: name.to_owned(),
        topic_substr: topic_substr.to_owned(),
        action,
        icon,
    }
}

/// The static controller table: two scenes of the bedroom light, the fan,
/// the passage light, the wake-up playlist and the TV switch, every button
/// a toggle.
pub fn get_controllers_config() -> (r: Vec<ControllerConfig>)
    ensures
        r@.len() == NUM_CONTROLLERS,
        r.deep_view()[NIGHT_CONTROLLER as int] matches ControllerConfigView::Light(c) && {
            &&& c.c.topic_substr == "Brian/Light"@
            &&& c.c.action == Action::Toggle
            &&& c.scene == "default"@
            &&& c.priority == 100i32
        },
        r.deep_view()[1] matches ControllerConfigView::Light(c) && {
            &&& c.c.topic_substr == "Brian/Light"@
            &&& c.scene == "auto"@
            &&& c.priority == 100i32
        },
        r.deep_view()[2] matches ControllerConfigView::Switch(c) && c.c.topic_substr
            == "Brian/Fan"@,
        r.deep_view()[3] matches ControllerConfigView::Light(c) && {
            &&& c.c.topic_substr == "Passage/Light"@
            &&& c.scene == "default"@
        },
        r.deep_view()[4] matches ControllerConfigView::Music(c) && {
            &&& c.c.topic_substr == "Brian/Robotica"@
            &&& c.play_list == "wake_up"@
        },
        r.deep_view()[5] matches ControllerConfigView::Switch(c) && c.c.topic_substr
            == "Dining/TvSwitch"@,
        forall|i: int|
            0 <= i < NUM_CONTROLLERS ==> #[trigger] spec_config_action(r.deep_view()[i])
                == Action::Toggle,
{
    let mut r: Vec<ControllerConfig> = Vec::new();
    r.push(
        ControllerConfig::Light(
            LightConfig {
                c: common("On", "Brian/Light", Action::Toggle, Icon::Light),
                scene: String::from_str("default"),
                priority: 100,
            },
        ),
    );
    r.push(
        ControllerConfig::Light(
            LightConfig {
                c: common("Auto", "Brian/Light", Action::Toggle, Icon::Light),
                scene: String::from_str("auto"),
                priority: 100,
            },
        ),
    );
    r.push(
        ControllerConfig::Switch(
            SwitchConfig { c: common("Brian Fan", "Brian/Fan", Action::Toggle, Icon::Fan) },
        ),
    );
    r.push(
        ControllerConfig::Light(
            LightConfig {
                c: common("Passage", "Passage/Light", Action::Toggle, Icon::Light),
                scene: String::from_str("default"),
                priority: 100,
            },
        ),
    );
    r.push(
        ControllerConfig::Music(
            MusicConfig {
                c: common("Brian Wake-Up", "Brian/Robotica", Action::Toggle, Icon::WakeUp),
                play_list: String::from_str("wake_up"),
            },
        ),
    );
    r.push(
        ControllerConfig::Switch(
            SwitchConfig { c: common("TV", "Dining/TvSwitch", Action::Toggle, Icon::TV) },
        ),
    );
    r
}

/// The action a configuration gives its button.
pub open spec fn spec_config_action(v: ControllerConfigView) -> Action {
    match v {
        ControllerConfigView::Light(c) => c.c.action,
        ControllerConfigView::Switch(c) => c.c.action,
        ControllerConfigView::Music(c) => c.c.action,
    }
}

} // verus!
