//! Per-device controllers: the bridge between broker-reported facts and a
//! button/display slot.
//!
//! A controller caches the facts the broker has reported for its device,
//! derives a [`DisplayState`] from them, and turns a button press into
//! outbound commands.  Three kinds exist — lights, switches and music
//! players — collected in the [`Controller`] sum type so the event loop can
//! dispatch exhaustively.

pub mod lights;
pub mod music;
pub mod switch;

use vstd::prelude::*;

use lights::{LightController, LightView};
use music::{MusicController, MusicView};
use switch::{SwitchController, SwitchView};

verus! {

/// An outbound broker command: destination topic and JSON payload.
pub struct Command {
    topic: String,
    message: String,
}

/// Mathematical value of a [`Command`].
pub struct CommandView {
    pub topic: Seq<char>,
    pub message: Seq<char>,
}

impl View for Command {
    type V = CommandView;

    closed spec fn view(&self) -> CommandView {
        CommandView { topic: self.topic@, message: self.message@ }
    }
}

impl DeepView for Command {
    type V = CommandView;

    open spec fn deep_view(&self) -> CommandView {
        self.view()
    }
}

impl Command {
    pub fn new(topic: String, message: String) -> (c: Command)
        ensures
            c@ == (CommandView { topic: topic@, message: message@ }),
    {
        Command { topic, message }
    }

    pub fn get_topic(&self) -> (r: &str)
        ensures
            r@ == self@.topic,
    {
        self.topic.as_str()
    }

    pub fn get_message(&self) -> (r: String)
        ensures
            r@ == self@.message,
    {
        self.message.clone()
    }
}

/// What a press of the button should do to the device.
#[derive(Clone, Copy, Debug, PartialEq, Eq, Structural)]
pub enum Action {
    TurnOn,
    TurnOff,
    Toggle,
}

/// A controller's interest in one broker topic, tagged with the label that
/// inbound messages on that topic will carry.
pub struct Subscription {
    pub topic: String,
    pub label: u32,
}

/// Mathematical value of a [`Subscription`].
pub struct SubscriptionView {
    pub topic: Seq<char>,
    pub label: u32,
}

impl View for Subscription {
    type V = SubscriptionView;

    open spec fn view(&self) -> SubscriptionView {
        SubscriptionView { topic: self.topic@, label: self.label }
    }
}

impl DeepView for Subscription {
    type V = SubscriptionView;

    open spec fn deep_view(&self) -> SubscriptionView {
        self.view()
    }
}

/// Status shown for a controller's slot.
#[derive(Clone, Copy, Debug, PartialEq, Eq, Structural)]
pub enum DisplayState {
    HardOff,
    Error,
    Unknown,
    On,
    Off,
    OnOther,
}

/// Visual category of a controller's slot.
#[derive(Clone, Copy, Debug, PartialEq, Eq, Structural)]
pub enum Icon {
    Light,
    Fan,
    WakeUp,
    TV,
}

/// Configuration shared by every controller kind.
pub struct CommonConfig {
    pub name: String,
    /// The `location/device` part of the device's topics.
    pub topic_substr: String,
    pub action: Action,
    pub icon: Icon,
}

/// Mathematical value of a [`CommonConfig`].
pub struct CommonConfigView {
    pub name: Seq<char>,
    pub topic_substr: Seq<char>,
    pub action: Action,
    pub icon: Icon,
}

impl View for CommonConfig {
    type V = CommonConfigView;

    open spec fn view(&self) -> CommonConfigView {
        CommonConfigView {
            name: self.name@,
            topic_substr: self.topic_substr@,
            action: self.action,
            icon: self.icon,
        }
    }
}

impl Clone for CommonConfig {
    fn clone(&self) -> (r: Self)
        ensures
            r@ == self@,
    {
        CommonConfig {
            name: self.name.clone(),
            topic_substr: self.topic_substr.clone(),
            action: self.action,
            icon: self.icon,
        }
    }
}

/// How a device state reads on a button configured with `action`: a button
/// that turns its device off shows the inverse of the device's state, while
/// turn-on and toggle buttons mirror it.
pub open spec fn spec_display_state_for_action(state: DisplayState, action: Action) -> DisplayState {
    match action {
        Action::TurnOn => state,
        Action::TurnOff => match state {
            DisplayState::HardOff => DisplayState::HardOff,
            DisplayState::Error => DisplayState::Error,
            DisplayState::Unknown => DisplayState::Unknown,
            DisplayState::On => DisplayState::Off,
            DisplayState::Off => DisplayState::On,
            DisplayState::OnOther => DisplayState::Off,
        },
        Action::Toggle => state,
    }
}

/// Executable twin of [`spec_display_state_for_action`].
pub fn get_display_state_for_action(state: DisplayState, action: &Action) -> (r: DisplayState)
    ensures
        r == spec_display_state_for_action(state, *action),
{
    match action {
        Action::TurnOn => state,
        Action::TurnOff => match state {
            DisplayState::HardOff => DisplayState::HardOff,
            DisplayState::Error => DisplayState::Error,
            DisplayState::Unknown => DisplayState::Unknown,
            DisplayState::On => DisplayState::Off,
            DisplayState::Off => DisplayState::On,
            DisplayState::OnOther => DisplayState::Off,
        },
        Action::Toggle => state,
    }
}

/// The state topic for one aspect (`power`, `scenes`, ...) of a device.
pub open spec fn spec_state_topic(substr: Seq<char>, suffix: Seq<char>) -> Seq<char> {
    "state/"@ + substr + "/"@ + suffix
}

/// The command topic of a device.
pub open spec fn spec_command_topic(substr: Seq<char>) -> Seq<char> {
    "command/"@ + substr
}

/// Builds `state/<substr>/<suffix>`.
pub fn state_topic(substr: &str, suffix: &str) -> (r: String)
    ensures
        r@ == spec_state_topic(substr@, suffix@),
{
    let mut r = String::from_str("state/");
    r.append(substr);
    r.append("/");
    r.append(suffix);
    proof {
        assert(r@ =~= spec_state_topic(substr@, suffix@));
    }
    r
}

/// Builds `command/<substr>`.
pub fn command_topic(substr: &str) -> (r: String)
    ensures
        r@ == spec_command_topic(substr@),
{
    let mut r = String::from_str("command/");
    r.append(substr);
    r
}

/// A controller of any kind.
pub enum Controller {
    Light(LightController),
    Switch(SwitchController),
    Music(MusicController),
}

/// Mathematical value of a [`Controller`].
pub enum ControllerView {
    Light(LightView),
    Switch(SwitchView),
    Music(MusicView),
}

impl View for Controller {
    type V = ControllerView;

    open spec fn view(&self) -> ControllerView {
        match self {
            Controller::Light(c) => ControllerView::Light(c@),
            Controller::Switch(c) => ControllerView::Switch(c@),
            Controller::Music(c) => ControllerView::Music(c@),
        }
    }
}

impl DeepView for Controller {
    type V = ControllerView;

    open spec fn deep_view(&self) -> ControllerView {
        self.view()
    }
}

/// Display state derived from the controller's cached facts.
pub open spec fn spec_display_state(v: ControllerView) -> DisplayState {
    match v {
        ControllerView::Light(l) => lights::spec_light_display_state(l),
        ControllerView::Switch(s) => switch::spec_switch_display_state(s),
        ControllerView::Music(m) => music::spec_music_display_state(m),
    }
}

/// Facts after an inbound message with `label` and payload `data`.
pub open spec fn spec_process_message(v: ControllerView, label: u32, data: Seq<char>) -> ControllerView {
    match v {
        ControllerView::Light(l) => ControllerView::Light(
            lights::spec_light_process_message(l, label, data),
        ),
        ControllerView::Switch(s) => ControllerView::Switch(
            switch::spec_switch_process_message(s, label, data),
        ),
        ControllerView::Music(m) => ControllerView::Music(
            music::spec_music_process_message(m, label, data),
        ),
    }
}

/// Facts after the broker connection is lost: everything unknown.
pub open spec fn spec_disconnected(v: ControllerView) -> ControllerView {
    match v {
        ControllerView::Light(l) => ControllerView::Light(lights::spec_light_disconnected(l)),
        ControllerView::Switch(s) => ControllerView::Switch(switch::spec_switch_disconnected(s)),
        ControllerView::Music(m) => ControllerView::Music(music::spec_music_disconnected(m)),
    }
}

/// Commands produced by a press.
pub open spec fn spec_press_commands(v: ControllerView) -> Seq<CommandView> {
    match v {
        ControllerView::Light(l) => lights::spec_light_press_commands(l),
        ControllerView::Switch(s) => switch::spec_switch_press_commands(s),
        ControllerView::Music(m) => music::spec_music_press_commands(m),
    }
}

/// The controller's fixed subscription list.
pub open spec fn spec_subscriptions(v: ControllerView) -> Seq<SubscriptionView> {
    match v {
        ControllerView::Light(l) => lights::spec_light_subscriptions(l),
        ControllerView::Switch(s) => switch::spec_switch_subscriptions(s),
        ControllerView::Music(m) => music::spec_music_subscriptions(m),
    }
}

/// The shared part of the controller's configuration.
pub open spec fn spec_common(v: ControllerView) -> CommonConfigView {
    match v {
        ControllerView::Light(l) => l.config.c,
        ControllerView::Switch(s) => s.config.c,
        ControllerView::Music(m) => m.config.c,
    }
}

impl Controller {
    /// The fixed list of (topic, label) pairs this controller needs.
    pub fn get_subscriptions(&self) -> (r: Vec<Subscription>)
        ensures
            r.deep_view() == spec_subscriptions(self@),
    {
        match self {
            Controller::Light(c) => c.get_subscriptions(),
            Controller::Switch(c) => c.get_subscriptions(),
            Controller::Music(c) => c.get_subscriptions(),
        }
    }

    /// Updates the fact identified by `label`; unrecognised labels and
    /// malformed list payloads leave the facts unchanged.
    pub fn process_message(&mut self, label: u32, data: String)
        ensures
            final(self)@ == spec_process_message(old(self)@, label, data@),
    {
        match self {
            Controller::Light(c) => c.process_message(label, data),
            Controller::Switch(c) => c.process_message(label, data),
            Controller::Music(c) => c.process_message(label, data),
        }
    }

    /// Resets every cached fact to unknown.
    pub fn process_disconnected(&mut self)
        ensures
            final(self)@ == spec_disconnected(old(self)@),
    {
        match self {
            Controller::Light(c) => c.process_disconnected(),
            Controller::Switch(c) => c.process_disconnected(),
            Controller::Music(c) => c.process_disconnected(),
        }
    }

    /// Display state derived from the current facts.
    pub fn get_display_state(&self) -> (r: DisplayState)
        ensures
            r == spec_display_state(self@),
    {
        match self {
            Controller::Light(c) => c.get_display_state(),
            Controller::Switch(c) => c.get_display_state(),
            Controller::Music(c) => c.get_display_state(),
        }
    }

    /// Commands to publish for a press of this controller's button.
    pub fn get_press_commands(&self) -> (r: Vec<Command>)
        ensures
            r.deep_view() == spec_press_commands(self@),
    {
        match self {
            Controller::Light(c) => c.get_press_commands(),
            Controller::Switch(c) => c.get_press_commands(),
            Controller::Music(c) => c.get_press_commands(),
        }
    }

    pub fn get_icon(&self) -> (r: Icon)
        ensures
            r == spec_common(self@).icon,
    {
        match self {
            Controller::Light(c) => c.get_icon(),
            Controller::Switch(c) => c.get_icon(),
            Controller::Music(c) => c.get_icon(),
        }
    }

    pub fn get_name(&self) -> (r: String)
        ensures
            r@ == spec_common(self@).name,
    {
        match self {
            Controller::Light(c) => c.get_name(),
            Controller::Switch(c) => c.get_name(),
            Controller::Music(c) => c.get_name(),
        }
    }
}

/// Disconnect resets: whatever the facts were, after a disconnect every
/// controller reads `Unknown`.
pub proof fn lemma_disconnect_resets(v: ControllerView)
    ensures
        spec_display_state(spec_disconnected(v)) == DisplayState::Unknown,
{
}

} // verus!
