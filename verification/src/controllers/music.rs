//! Controller for a music player.
//!
//! The player reports the currently playing list as a string; the button
//! targets one playlist.  An unrecognised playlist value reads `OnOther`:
//! something else is playing.

use vstd::prelude::*;

use crate::controllers::{
    spec_command_topic, spec_display_state_for_action, spec_state_topic, command_topic,
    get_display_state_for_action, state_topic, Action, Command, CommandView, CommonConfig,
    CommonConfigView, DisplayState, Icon, Subscription, SubscriptionView,
};
use crate::json::{json_escape, push_escaped};
use crate::strutil::str_eq;

verus! {

broadcast use vstd::string::group_string_axioms;

/// Label of a play-list state message.
pub const MUSIC_LABEL_PLAY_LIST: u32 = 0;

/// Configuration of a music button: the target playlist.
pub struct MusicConfig {
    pub c: CommonConfig,
    pub play_list: String,
}

/// Mathematical value of a [`MusicConfig`].
pub struct MusicConfigView {
    pub c: CommonConfigView,
    pub play_list: Seq<char>,
}

impl View for MusicConfig {
    type V = MusicConfigView;

    open spec fn view(&self) -> MusicConfigView {
        MusicConfigView { c: self.c@, play_list: self.play_list@ }
    }
}

impl Clone for MusicConfig {
    fn clone(&self) -> (r: Self)
        ensures
            r@ == self@,
    {
        MusicConfig { c: self.c.clone(), play_list: self.play_list.clone() }
    }
}

/// A music controller: configuration plus the cached playlist fact.
pub struct MusicController {
    config: MusicConfig,
    play_list: Option<String>,
}

/// Mathematical value of a [`MusicController`].
pub struct MusicView {
    pub config: MusicConfigView,
    pub play_list: Option<Seq<char>>,
}

impl View for MusicController {
    type V = MusicView;

    closed spec fn view(&self) -> MusicView {
        MusicView {
            config: self.config@,
            play_list: match self.play_list {
                Some(ref p) => Some(p@),
                None => None,
            },
        }
    }
}

/// The raw player state relative to the target playlist.
pub open spec fn spec_music_device_state(play_list: Option<Seq<char>>, target: Seq<char>) -> DisplayState {
    match play_list {
        None => DisplayState::Unknown,
        Some(p) => if p == "ERROR"@ {
            DisplayState::Error
        } else if p == "STOP"@ {
            DisplayState::Off
        } else if p == target {
            DisplayState::On
        } else {
            DisplayState::OnOther
        },
    }
}

/// The music decision table: the raw player state read through the
/// configured action.
pub open spec fn spec_music_display_state(v: MusicView) -> DisplayState {
    spec_display_state_for_action(
        spec_music_device_state(v.play_list, v.config.play_list),
        v.config.c.action,
    )
}

/// Facts after an inbound message: only the play-list label is recognised.
pub open spec fn spec_music_process_message(v: MusicView, label: u32, data: Seq<char>) -> MusicView {
    if label == MUSIC_LABEL_PLAY_LIST {
        MusicView { play_list: Some(data), ..v }
    } else {
        v
    }
}

/// Facts after a broker disconnect.
pub open spec fn spec_music_disconnected(v: MusicView) -> MusicView {
    MusicView { play_list: None, ..v }
}

/// The press payload: start the target playlist, or stop playback.
pub open spec fn spec_music_press_message(play_list: Seq<char>, play: bool) -> Seq<char> {
    if play {
        "{\"music\":{\"play_list\":\""@ + json_escape(play_list) + "\"}}"@
    } else {
        "{\"music\":{\"stop\":true}}"@
    }
}

/// Whether a press should start playback: always for a turn-on button,
/// never for a turn-off button, and for a toggle button exactly when the
/// slot does not currently read `On`.
pub open spec fn spec_music_press_play(v: MusicView) -> bool {
    match v.config.c.action {
        Action::TurnOn => true,
        Action::TurnOff => false,
        Action::Toggle => spec_music_display_state(v) != DisplayState::On,
    }
}

/// The single command a press produces.
pub open spec fn spec_music_press_commands(v: MusicView) -> Seq<CommandView> {
    seq![
        CommandView {
            topic: spec_command_topic(v.config.c.topic_substr),
            message: spec_music_press_message(v.config.play_list, spec_music_press_play(v)),
        },
    ]
}

/// The one state topic a music player listens on.
pub open spec fn spec_music_subscriptions(v: MusicView) -> Seq<SubscriptionView> {
    seq![
        SubscriptionView {
            topic: spec_state_topic(v.config.c.topic_substr, "play_list"@),
            label: MUSIC_LABEL_PLAY_LIST,
        },
    ]
}

impl MusicController {
    pub fn new(config: &MusicConfig) -> (c: Self)
        ensures
            c@ == (MusicView { config: config@, play_list: None }),
    {
        Self { config: config.clone(), play_list: None }
    }

    pub fn get_subscriptions(&self) -> (r: Vec<Subscription>)
        ensures
            r.deep_view() == spec_music_subscriptions(self@),
    {
        let mut result: Vec<Subscription> = Vec::new();
        result.push(
            Subscription {
                topic: state_topic(self.config.c.topic_substr.as_str(), "play_list"),
                label: MUSIC_LABEL_PLAY_LIST,
            },
        );
        proof {
            assert(result.deep_view() =~= spec_music_subscriptions(self@));
        }
        result
    }

    pub fn process_message(&mut self, label: u32, data: String)
        ensures
            final(self)@ == spec_music_process_message(old(self)@, label, data@),
    {
        if label == MUSIC_LABEL_PLAY_LIST {
            self.play_list = Some(data);
        }
    }

    pub fn process_disconnected(&mut self)
        ensures
            final(self)@ == spec_music_disconnected(old(self)@),
    {
        self.play_list = None;
    }

    pub fn get_display_state(&self) -> (r: DisplayState)
        ensures
            r == spec_music_display_state(self@),
    {
        let state = match &self.play_list {
            None => DisplayState::Unknown,
            Some(p) => {
                if str_eq(p.as_str(), "ERROR") {
                    DisplayState::Error
                } else if str_eq(p.as_str(), "STOP") {
                    DisplayState::Off
                } else if str_eq(p.as_str(), self.config.play_list.as_str()) {
                    DisplayState::On
                } else {
                    DisplayState::OnOther
                }
            },
        };
        get_display_state_for_action(state, &self.config.c.action)
    }

    pub fn get_press_commands(&self) -> (r: Vec<Command>)
        ensures
            r.deep_view() == spec_music_press_commands(self@),
    {
        let play = match self.config.c.action {
            Action::TurnOn => true,
            Action::TurnOff => false,
            Action::Toggle => {
                let display_state = self.get_display_state();
                !matches!(display_state, DisplayState::On)
            },
        };
        let message = if play {
            let mut m = String::from_str("{\"music\":{\"play_list\":\"");
            push_escaped(&mut m, self.config.play_list.as_str());
            m.append("\"}}");
            proof {
                assert(m@ =~= spec_music_press_message(self@.config.play_list, true));
            }
            m
        } else {
            String::from_str("{\"music\":{\"stop\":true}}")
        };
        let command = Command::new(command_topic(self.config.c.topic_substr.as_str()), message);
        let mut r: Vec<Command> = Vec::new();
        r.push(command);
        proof {
            assert(r.deep_view() =~= spec_music_press_commands(self@));
        }
        r
    }

    pub fn get_icon(&self) -> (r: Icon)
        ensures
            r == self@.config.c.icon,
    {
        self.config.c.icon
    }

    pub fn get_name(&self) -> (r: String)
        ensures
            r@ == self@.config.c.name,
    {
        self.config.c.name.clone()
    }
}

/// Toggle consistency for a music player whose target playlist is a real
/// playlist name (not the reserved `STOP` or `ERROR` values): a press when
/// the slot reads `On` asks for stop, after which the echoed `STOP` state
/// reads `Off`; a press when it does not read `On` starts the target
/// playlist, after which the echoed playlist reads `On`.
pub proof fn lemma_music_toggle_inverts(v: MusicView)
    requires
        v.config.c.action == Action::Toggle,
        v.config.play_list != "STOP"@,
        v.config.play_list != "ERROR"@,
    ensures
        spec_music_display_state(v) == DisplayState::On ==> {
            &&& spec_music_press_commands(v)[0].message == spec_music_press_message(
                v.config.play_list,
                false,
            )
            &&& spec_music_display_state(
                spec_music_process_message(v, MUSIC_LABEL_PLAY_LIST, "STOP"@),
            ) == DisplayState::Off
        },
        spec_music_display_state(v) != DisplayState::On ==> {
            &&& spec_music_press_commands(v)[0].message == spec_music_press_message(
                v.config.play_list,
                true,
            )
            &&& spec_music_display_state(
                spec_music_process_message(v, MUSIC_LABEL_PLAY_LIST, v.config.play_list),
            ) == DisplayState::On
        },
{
    reveal_strlit("STOP");
    reveal_strlit("ERROR");
    assert("STOP"@.len() == 4);
    assert("ERROR"@.len() == 5);
    assert("STOP"@ != "ERROR"@);
}

} // verus!
