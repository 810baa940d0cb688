use remote_core::controllers::lights::{LightConfig, LightController};
use remote_core::controllers::music::{MusicConfig, MusicController};
use remote_core::controllers::switch::{SwitchConfig, SwitchController};
use remote_core::controllers::{
    get_display_state_for_action, Action, CommonConfig, Controller, DisplayState, Icon,
};

fn common(action: Action) -> CommonConfig {
    CommonConfig {
        name: "Auto".to_string(),
        topic_substr: "Brian/Light".to_string(),
        action,
        icon: Icon::Light,
    }
}

fn light(action: Action, scene: &str, priority: i32) -> LightController {
    LightController::new(&LightConfig {
        c: common(action),
        scene: scene.to_string(),
        priority,
    })
}

fn switch(action: Action) -> SwitchController {
    SwitchController::new(&SwitchConfig {
        c: CommonConfig {
            name: "Brian Fan".to_string(),
            topic_substr: "Brian/Fan".to_string(),
            action,
            icon: Icon::Fan,
        },
    })
}

fn music(action: Action, play_list: &str) -> MusicController {
    MusicController::new(&MusicConfig {
        c: CommonConfig {
            name: "Brian Wake-Up".to_string(),
            topic_substr: "Brian/Robotica".to_string(),
            action,
            icon: Icon::WakeUp,
        },
        play_list: play_list.to_string(),
    })
}

#[test]
fn light_state_unknown_without_power() {
    let lb = light(Action::Toggle, "auto", 100);
    assert_eq!(lb.get_display_state(), DisplayState::Unknown);
}

#[test]
fn light_decision_table_toggle() {
    // power unknown -> Unknown, whatever the scenes say
    let mut lb = light(Action::Toggle, "auto", 100);
    lb.process_message(1, "[\"auto\"]".to_string());
    assert_eq!(lb.get_display_state(), DisplayState::Unknown);

    // HARD_OFF wins over everything
    lb.process_message(0, "HARD_OFF".to_string());
    assert_eq!(lb.get_display_state(), DisplayState::HardOff);

    // target scene present -> On
    lb.process_message(0, "ON".to_string());
    assert_eq!(lb.get_display_state(), DisplayState::On);

    // other scenes active -> OnOther
    lb.process_message(1, "[\"movie\"]".to_string());
    assert_eq!(lb.get_display_state(), DisplayState::OnOther);

    // empty scene list falls back to the bare power state
    lb.process_message(1, "[]".to_string());
    assert_eq!(lb.get_display_state(), DisplayState::OnOther);
    lb.process_message(0, "OFF".to_string());
    assert_eq!(lb.get_display_state(), DisplayState::Off);

    // power neither ON/OFF/HARD_OFF with empty scenes -> Off
    lb.process_message(0, "weird".to_string());
    assert_eq!(lb.get_display_state(), DisplayState::Off);
}

#[test]
fn light_no_scenes_fact_and_odd_power_is_unknown() {
    let mut lb = light(Action::Toggle, "auto", 100);
    lb.process_message(0, "weird".to_string());
    assert_eq!(lb.get_display_state(), DisplayState::Unknown);
}

#[test]
fn light_turn_off_uses_priorities() {
    let mut lb = light(Action::TurnOff, "auto", 100);
    lb.process_message(0, "ON".to_string());
    lb.process_message(1, "[\"auto\"]".to_string());
    // priorities unknown -> Unknown
    assert_eq!(lb.get_display_state(), DisplayState::Unknown);
    // priority present -> Off (already suppressed for this button)
    lb.process_message(2, "[100,90]".to_string());
    assert_eq!(lb.get_display_state(), DisplayState::Off);
    // priority absent -> On
    lb.process_message(2, "[90]".to_string());
    assert_eq!(lb.get_display_state(), DisplayState::On);
    // empty scenes with power ON inverts to Off
    lb.process_message(1, "[]".to_string());
    assert_eq!(lb.get_display_state(), DisplayState::Off);
    lb.process_message(0, "OFF".to_string());
    assert_eq!(lb.get_display_state(), DisplayState::On);
}

#[test]
fn light_malformed_scene_list_is_ignored() {
    let mut lb = light(Action::Toggle, "auto", 100);
    lb.process_message(0, "ON".to_string());
    lb.process_message(1, "[\"auto\"]".to_string());
    assert_eq!(lb.get_display_state(), DisplayState::On);
    lb.process_message(1, "this is not json".to_string());
    assert_eq!(lb.get_display_state(), DisplayState::On);
    lb.process_message(2, "[\"not\",\"numbers\"]".to_string());
    assert_eq!(lb.get_display_state(), DisplayState::On);
}

#[test]
fn light_unknown_label_is_ignored() {
    let mut lb = light(Action::Toggle, "auto", 100);
    lb.process_message(0, "ON".to_string());
    lb.process_message(1, "[\"auto\"]".to_string());
    lb.process_message(9, "OFF".to_string());
    assert_eq!(lb.get_display_state(), DisplayState::On);
}

#[test]
fn light_subscriptions_cover_three_topics() {
    let lb = light(Action::Toggle, "auto", 100);
    let subs = lb.get_subscriptions();
    assert_eq!(subs.len(), 3);
    assert_eq!(subs[0].topic, "state/Brian/Light/power");
    assert_eq!(subs[0].label, 0);
    assert_eq!(subs[1].topic, "state/Brian/Light/scenes");
    assert_eq!(subs[1].label, 1);
    assert_eq!(subs[2].topic, "state/Brian/Light/priorities");
    assert_eq!(subs[2].label, 2);
}

#[test]
fn light_press_scenario_toggle_on_scene() {
    // the concrete toggle scenario: scene auto at priority 100, power ON,
    // scenes ["auto"] -> On; press asks for turn_off; the scene list being
    // cleared (power still ON) falls back to OnOther
    let mut lb = light(Action::Toggle, "auto", 100);
    lb.process_message(0, "ON".to_string());
    lb.process_message(1, "[\"auto\"]".to_string());
    assert_eq!(lb.get_display_state(), DisplayState::On);

    let commands = lb.get_press_commands();
    assert_eq!(commands.len(), 1);
    assert_eq!(commands[0].get_topic(), "command/Brian/Light");
    assert_eq!(
        commands[0].get_message(),
        "{\"scene\":\"auto\",\"priority\":100,\"action\":\"turn_off\"}"
    );

    lb.process_message(1, "[]".to_string());
    assert_eq!(lb.get_display_state(), DisplayState::OnOther);
}

#[test]
fn light_press_turn_on_has_no_action() {
    let mut lb = light(Action::Toggle, "auto", 100);
    lb.process_message(0, "OFF".to_string());
    lb.process_message(1, "[]".to_string());
    assert_eq!(lb.get_display_state(), DisplayState::Off);
    let commands = lb.get_press_commands();
    assert_eq!(commands.len(), 1);
    assert_eq!(commands[0].get_message(), "{\"scene\":\"auto\",\"priority\":100}");
}

#[test]
fn light_press_message_escapes_and_negative_priority() {
    let lb = light(Action::TurnOff, "a\"b\\c", -17);
    let commands = lb.get_press_commands();
    assert_eq!(
        commands[0].get_message(),
        "{\"scene\":\"a\\\"b\\\\c\",\"priority\":-17,\"action\":\"turn_off\"}"
    );
}

#[test]
fn light_disconnect_resets_to_unknown() {
    let mut lb = light(Action::Toggle, "auto", 100);
    lb.process_message(0, "ON".to_string());
    lb.process_message(1, "[\"auto\"]".to_string());
    assert_eq!(lb.get_display_state(), DisplayState::On);
    lb.process_disconnected();
    assert_eq!(lb.get_display_state(), DisplayState::Unknown);
}

#[test]
fn switch_decision_table() {
    let mut sw = switch(Action::Toggle);
    assert_eq!(sw.get_display_state(), DisplayState::Unknown);
    sw.process_message(0, "ON".to_string());
    assert_eq!(sw.get_display_state(), DisplayState::On);
    sw.process_message(0, "OFF".to_string());
    assert_eq!(sw.get_display_state(), DisplayState::Off);
    sw.process_message(0, "HARD_OFF".to_string());
    assert_eq!(sw.get_display_state(), DisplayState::HardOff);
    sw.process_message(0, "gibberish".to_string());
    assert_eq!(sw.get_display_state(), DisplayState::Error);
}

#[test]
fn switch_turn_off_button_inverts() {
    let mut sw = switch(Action::TurnOff);
    sw.process_message(0, "ON".to_string());
    assert_eq!(sw.get_display_state(), DisplayState::Off);
    sw.process_message(0, "OFF".to_string());
    assert_eq!(sw.get_display_state(), DisplayState::On);
}

#[test]
fn switch_toggle_round_trip() {
    // toggle consistency on the switch: press commands invert the state
    // they were computed from once the broker echoes the new power state
    let mut sw = switch(Action::Toggle);
    sw.process_message(0, "ON".to_string());
    let commands = sw.get_press_commands();
    assert_eq!(commands.len(), 1);
    assert_eq!(commands[0].get_topic(), "command/Brian/Fan");
    assert_eq!(commands[0].get_message(), "{\"action\":\"turn_off\"}");
    sw.process_message(0, "OFF".to_string());
    assert_eq!(sw.get_display_state(), DisplayState::Off);

    let commands = sw.get_press_commands();
    assert_eq!(commands[0].get_message(), "{\"action\":\"turn_on\"}");
    sw.process_message(0, "ON".to_string());
    assert_eq!(sw.get_display_state(), DisplayState::On);
}

#[test]
fn switch_subscriptions() {
    let sw = switch(Action::Toggle);
    let subs = sw.get_subscriptions();
    assert_eq!(subs.len(), 1);
    assert_eq!(subs[0].topic, "state/Brian/Fan/power");
    assert_eq!(subs[0].label, 0);
}

#[test]
fn music_decision_table() {
    let mut mu = music(Action::Toggle, "wake_up");
    assert_eq!(mu.get_display_state(), DisplayState::Unknown);
    mu.process_message(0, "ERROR".to_string());
    assert_eq!(mu.get_display_state(), DisplayState::Error);
    mu.process_message(0, "STOP".to_string());
    assert_eq!(mu.get_display_state(), DisplayState::Off);
    mu.process_message(0, "wake_up".to_string());
    assert_eq!(mu.get_display_state(), DisplayState::On);
    mu.process_message(0, "party".to_string());
    assert_eq!(mu.get_display_state(), DisplayState::OnOther);
}

#[test]
fn music_toggle_round_trip() {
    let mut mu = music(Action::Toggle, "wake_up");
    mu.process_message(0, "wake_up".to_string());
    let commands = mu.get_press_commands();
    assert_eq!(commands.len(), 1);
    assert_eq!(commands[0].get_topic(), "command/Brian/Robotica");
    assert_eq!(commands[0].get_message(), "{\"music\":{\"stop\":true}}");
    mu.process_message(0, "STOP".to_string());
    assert_eq!(mu.get_display_state(), DisplayState::Off);

    let commands = mu.get_press_commands();
    assert_eq!(
        commands[0].get_message(),
        "{\"music\":{\"play_list\":\"wake_up\"}}"
    );
    mu.process_message(0, "wake_up".to_string());
    assert_eq!(mu.get_display_state(), DisplayState::On);
}

#[test]
fn music_disconnect_resets() {
    let mut mu = music(Action::Toggle, "wake_up");
    mu.process_message(0, "wake_up".to_string());
    mu.process_disconnected();
    assert_eq!(mu.get_display_state(), DisplayState::Unknown);
}

#[test]
fn display_state_for_action_table() {
    let all = [
        DisplayState::HardOff,
        DisplayState::Error,
        DisplayState::Unknown,
        DisplayState::On,
        DisplayState::Off,
        DisplayState::OnOther,
    ];
    for s in all {
        assert_eq!(get_display_state_for_action(s, &Action::TurnOn), s);
        assert_eq!(get_display_state_for_action(s, &Action::Toggle), s);
    }
    assert_eq!(
        get_display_state_for_action(DisplayState::On, &Action::TurnOff),
        DisplayState::Off
    );
    assert_eq!(
        get_display_state_for_action(DisplayState::Off, &Action::TurnOff),
        DisplayState::On
    );
    assert_eq!(
        get_display_state_for_action(DisplayState::OnOther, &Action::TurnOff),
        DisplayState::Off
    );
    assert_eq!(
        get_display_state_for_action(DisplayState::HardOff, &Action::TurnOff),
        DisplayState::HardOff
    );
    assert_eq!(
        get_display_state_for_action(DisplayState::Error, &Action::TurnOff),
        DisplayState::Error
    );
    assert_eq!(
        get_display_state_for_action(DisplayState::Unknown, &Action::TurnOff),
        DisplayState::Unknown
    );
}

#[test]
fn controller_enum_dispatch() {
    let mut c = Controller::Light(light(Action::Toggle, "auto", 100));
    assert!(matches!(c.get_icon(), Icon::Light));
    assert_eq!(c.get_name(), "Auto");
    c.process_message(0, "ON".to_string());
    c.process_message(1, "[\"auto\"]".to_string());
    assert_eq!(c.get_display_state(), DisplayState::On);
    let subs = c.get_subscriptions();
    assert_eq!(subs.len(), 3);
    c.process_disconnected();
    assert_eq!(c.get_display_state(), DisplayState::Unknown);
}
