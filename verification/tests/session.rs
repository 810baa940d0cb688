use remote_core::button::ButtonId;
use remote_core::config::{get_controllers_config, night_topic, NIGHT_CONTROLLER, NUM_CONTROLLERS};
use remote_core::controllers::switch::{SwitchConfig, SwitchController};
use remote_core::controllers::{Action, CommonConfig, Controller, DisplayState, Icon};
use remote_core::display::DisplayCommand;
use remote_core::event_loop::{do_blank, LoopState, Output, TimerOp};
use remote_core::ident::get_unique_id;
use remote_core::messages::{Label, Message};
use remote_core::mqtt::Subscriptions;
use remote_core::status::{ActualDisplayStatus, RequestedDisplayStatus, TimeOfDay};

fn switch_controller(name: &str, substr: &str) -> Controller {
    Controller::Switch(SwitchController::new(&SwitchConfig {
        c: CommonConfig {
            name: name.to_string(),
            topic_substr: substr.to_string(),
            action: Action::Toggle,
            icon: Icon::Fan,
        },
    }))
}

fn three_switch_session() -> LoopState {
    let controllers = vec![
        switch_controller("A", "Room/A"),
        switch_controller("B", "Room/B"),
        switch_controller("C", "Room/C"),
    ];
    LoopState::new(controllers)
}

fn describe(o: &Output) -> String {
    match o {
        Output::Display(DisplayCommand::Started) => "started".to_string(),
        Output::Display(DisplayCommand::DisplayState(state, _icon, slot, name)) => {
            format!("slot{}={:?}:{}", slot, state, name)
        }
        Output::Display(DisplayCommand::DisplayNone(slot)) => format!("none{}", slot),
        Output::Display(DisplayCommand::BlankAll) => "blank".to_string(),
        Output::Display(DisplayCommand::UnBlankAll) => "unblank".to_string(),
        Output::Display(DisplayCommand::ShowPage(p)) => format!("page{}", p),
        Output::Display(DisplayCommand::ButtonPressed(slot)) => format!("pressed{}", slot),
        Output::Display(DisplayCommand::ButtonReleased(slot)) => format!("released{}", slot),
        Output::Publish(c) => format!("publish {} {}", c.get_topic(), c.get_message()),
        Output::Timer(TimerOp::Start) => "timer-start".to_string(),
        Output::Timer(TimerOp::Cancel) => "timer-cancel".to_string(),
    }
}

fn describe_all(outs: &[Output]) -> Vec<String> {
    outs.iter().map(describe).collect()
}

#[test]
fn startup_refreshes_first_page() {
    let mut s = three_switch_session();
    let out = s.startup();
    // day time, display already lit: no blanking commands, only the two
    // slots of page zero and the page announcement
    assert_eq!(
        describe_all(&out),
        vec!["slot0=Unknown:A", "slot1=Unknown:B", "page0"]
    );
}

#[test]
fn disconnect_marks_every_visible_slot_unknown() {
    // broker disconnects mid-session with three controllers on two pages:
    // every controller reads Unknown and every slot of the visible page is
    // redrawn as such
    let mut s = three_switch_session();
    s.startup();
    for id in 0..3usize {
        let _ = s.handle_event(Message::MqttReceived(
            format!("state/Room/{}/power", id),
            "ON".to_string(),
            Label::Button(id, 0),
        ));
        assert_eq!(s.controller_display_state(id), DisplayState::On);
    }

    let out = s.handle_event(Message::MqttDisconnect);
    for id in 0..3usize {
        assert_eq!(s.controller_display_state(id), DisplayState::Unknown);
    }
    assert_eq!(describe_all(&out), vec!["slot0=Unknown:A", "slot1=Unknown:B"]);
}

#[test]
fn controller_message_updates_visible_slot() {
    let mut s = three_switch_session();
    s.startup();
    // controller 1 sits on the visible page: its slot is redrawn
    let out = s.handle_event(Message::MqttReceived(
        "state/Room/B/power".to_string(),
        "ON".to_string(),
        Label::Button(1, 0),
    ));
    // controller 1 is not the night controller, but forced-on only reacts
    // to the night controller; here only the slot update appears
    assert_eq!(describe_all(&out), vec!["slot1=On:B"]);

    // same state again: no visible change, nothing sent
    let out = s.handle_event(Message::MqttReceived(
        "state/Room/B/power".to_string(),
        "ON".to_string(),
        Label::Button(1, 0),
    ));
    assert_eq!(describe_all(&out), Vec::<String>::new());

    // controller 2 sits on page one, which is not shown: no display update
    let out = s.handle_event(Message::MqttReceived(
        "state/Room/C/power".to_string(),
        "ON".to_string(),
        Label::Button(2, 0),
    ));
    assert_eq!(describe_all(&out), Vec::<String>::new());
    assert_eq!(s.controller_display_state(2), DisplayState::On);
}

#[test]
fn unknown_controller_index_is_dropped() {
    let mut s = three_switch_session();
    s.startup();
    let out = s.handle_event(Message::MqttReceived(
        "state/Room/Z/power".to_string(),
        "ON".to_string(),
        Label::Button(9, 0),
    ));
    assert!(out.is_empty());
}

#[test]
fn night_message_blanks_and_press_wakes() {
    let mut s = three_switch_session();
    s.startup();

    // night falls: the display is no longer required and blanks
    let out = s.handle_event(Message::MqttReceived(
        night_topic().to_string(),
        "ON".to_string(),
        Label::NightStatus,
    ));
    assert_eq!(describe_all(&out), vec!["blank"]);

    // a press on a dark display publishes nothing but wakes the display
    // and arms the blank timer
    let out = s.handle_event(Message::ButtonPress(ButtonId::Physical(0)));
    assert_eq!(describe_all(&out), vec!["timer-start", "unblank"]);

    // the release keeps the timer running
    let out = s.handle_event(Message::ButtonRelease(ButtonId::Physical(0)));
    assert_eq!(describe_all(&out), vec!["released0", "timer-start"]);

    // the blank timer fires: the timer disarms and the display goes dark
    let out = s.handle_event(Message::BlankDisplays);
    assert_eq!(describe_all(&out), vec!["timer-cancel", "blank"]);

    // day returns: the display lights again with no timer involved
    let out = s.handle_event(Message::MqttReceived(
        night_topic().to_string(),
        "OFF".to_string(),
        Label::NightStatus,
    ));
    assert_eq!(describe_all(&out), vec!["unblank"]);
}

#[test]
fn unrecognised_night_payload_changes_nothing() {
    let mut s = three_switch_session();
    s.startup();
    let out = s.handle_event(Message::MqttReceived(
        night_topic().to_string(),
        "DUSK".to_string(),
        Label::NightStatus,
    ));
    assert!(out.is_empty());
}

#[test]
fn physical_press_publishes_for_visible_slot() {
    let mut s = three_switch_session();
    s.startup();
    let _ = s.handle_event(Message::MqttReceived(
        "state/Room/A/power".to_string(),
        "ON".to_string(),
        Label::Button(0, 0),
    ));
    let out = s.handle_event(Message::ButtonPress(ButtonId::Physical(0)));
    assert_eq!(
        describe_all(&out),
        vec![
            "publish command/Room/A {\"action\":\"turn_off\"}",
            "pressed0",
            "timer-start"
        ]
    );
}

#[test]
fn physical_press_on_empty_slot_still_highlights() {
    let mut s = three_switch_session();
    s.startup();
    // page one shows controller 2 in slot zero and nothing in slot one
    let _ = s.handle_event(Message::ButtonPress(ButtonId::PageUp));
    let out = s.handle_event(Message::ButtonPress(ButtonId::Physical(1)));
    // slot one of page one holds no controller: nothing published, but the
    // slot is still marked pressed and activity registered
    assert_eq!(describe_all(&out), vec!["pressed1", "timer-start"]);
}

#[test]
fn controller_press_skips_page_gating() {
    let mut s = three_switch_session();
    s.startup();
    // controller 2 is on the hidden page: it still publishes, but no
    // pressed highlight appears
    let out = s.handle_event(Message::ButtonPress(ButtonId::Controller(2)));
    assert_eq!(
        describe_all(&out),
        vec![
            "publish command/Room/C {\"action\":\"turn_on\"}",
            "timer-start"
        ]
    );
    // its release likewise skips the highlight
    let out = s.handle_event(Message::ButtonRelease(ButtonId::Controller(2)));
    assert_eq!(describe_all(&out), vec!["timer-start"]);
    // a controller on the visible page gets the highlight
    let out = s.handle_event(Message::ButtonPress(ButtonId::Controller(1)));
    assert_eq!(
        describe_all(&out),
        vec![
            "publish command/Room/B {\"action\":\"turn_on\"}",
            "pressed1",
            "timer-start"
        ]
    );
}

#[test]
fn page_navigation_clamps_and_refreshes() {
    let mut s = three_switch_session();
    s.startup();
    assert_eq!(s.get_page_num(), 0);

    let out = s.handle_event(Message::ButtonPress(ButtonId::PageUp));
    assert_eq!(s.get_page_num(), 1);
    assert_eq!(
        describe_all(&out),
        vec!["page1", "slot0=Unknown:C", "none1", "timer-start"]
    );

    // already on the last page: page up stays put but still refreshes
    let out = s.handle_event(Message::ButtonPress(ButtonId::PageUp));
    assert_eq!(s.get_page_num(), 1);
    assert_eq!(
        describe_all(&out),
        vec!["page1", "slot0=Unknown:C", "none1", "timer-start"]
    );

    let out = s.handle_event(Message::ButtonPress(ButtonId::PageDown));
    assert_eq!(s.get_page_num(), 0);
    assert_eq!(
        describe_all(&out),
        vec!["page0", "slot0=Unknown:A", "slot1=Unknown:B", "timer-start"]
    );

    // already on the first page: page down stays put
    let out = s.handle_event(Message::ButtonPress(ButtonId::PageDown));
    assert_eq!(s.get_page_num(), 0);
    assert_eq!(
        describe_all(&out),
        vec!["page0", "slot0=Unknown:A", "slot1=Unknown:B", "timer-start"]
    );
}

#[test]
fn night_controller_forces_display_on() {
    let mut s = three_switch_session();
    s.startup();
    // night: display blanks
    let _ = s.handle_event(Message::MqttReceived(
        night_topic().to_string(),
        "ON".to_string(),
        Label::NightStatus,
    ));
    // the night controller turns on: the display is forced back on
    let out = s.handle_event(Message::MqttReceived(
        "state/Room/A/power".to_string(),
        "ON".to_string(),
        Label::Button(NIGHT_CONTROLLER, 0),
    ));
    assert_eq!(describe_all(&out), vec!["unblank", "slot0=On:A"]);

    // it turns off again: the display blanks
    let out = s.handle_event(Message::MqttReceived(
        "state/Room/A/power".to_string(),
        "OFF".to_string(),
        Label::Button(NIGHT_CONTROLLER, 0),
    ));
    assert_eq!(describe_all(&out), vec!["blank", "slot0=Off:A"]);
}

#[test]
fn connect_event_is_a_no_op() {
    let mut s = three_switch_session();
    s.startup();
    let out = s.handle_event(Message::MqttConnect);
    assert!(out.is_empty());
}

#[test]
fn do_blank_is_idempotent() {
    // one evaluation reaches a fixed point: a second one with the same
    // request issues nothing further
    let req = RequestedDisplayStatus {
        time_of_day: TimeOfDay::Night,
        forced_on: false,
        night_timer: true,
    };
    let mut status = ActualDisplayStatus { timer_on: false, display_on: false };
    let mut out: Vec<Output> = Vec::new();
    do_blank(&req, &mut status, false, &mut out);
    assert_eq!(describe_all(&out), vec!["timer-start", "unblank"]);
    assert!(status.timer_on);
    assert!(status.display_on);

    let mut out2: Vec<Output> = Vec::new();
    do_blank(&req, &mut status, false, &mut out2);
    assert!(out2.is_empty());
}

#[test]
fn subscriptions_group_and_route() {
    let mut subs = Subscriptions::new();
    subs.add("state/Room/A/power", Label::Button(0, 0));
    subs.add("state/Room/B/power", Label::Button(1, 0));
    subs.add("state/Room/A/power", Label::Button(7, 2));
    subs.add(night_topic(), Label::NightStatus);

    let labels = subs.get_labels("state/Room/A/power");
    assert_eq!(labels, vec![Label::Button(0, 0), Label::Button(7, 2)]);
    assert_eq!(subs.get_labels("state/Room/Z/power"), Vec::<Label>::new());

    let msgs = subs.route("state/Room/A/power", "ON");
    assert_eq!(msgs.len(), 2);
    for (k, m) in msgs.iter().enumerate() {
        match m {
            Message::MqttReceived(topic, data, label) => {
                assert_eq!(topic, "state/Room/A/power");
                assert_eq!(data, "ON");
                if k == 0 {
                    assert_eq!(*label, Label::Button(0, 0));
                } else {
                    assert_eq!(*label, Label::Button(7, 2));
                }
            }
            _ => panic!("route produced a non-broker message"),
        }
    }
    assert!(subs.route("state/Room/Z/power", "ON").is_empty());
}

#[test]
fn static_config_builds_six_toggles() {
    let configs = get_controllers_config();
    assert_eq!(configs.len(), NUM_CONTROLLERS);
    let controllers: Vec<Controller> = configs.iter().map(|c| c.create_controller()).collect();
    let names: Vec<String> = controllers.iter().map(|c| c.get_name()).collect();
    assert_eq!(names, vec!["On", "Auto", "Brian Fan", "Passage", "Brian Wake-Up", "TV"]);
    for c in &controllers {
        assert_eq!(c.get_display_state(), DisplayState::Unknown);
    }
    let subs = controllers[1].get_subscriptions();
    assert_eq!(subs[0].topic, "state/Brian/Light/power");

    // the full table drives a six-controller, three-page session
    let mut s = LoopState::new(controllers);
    let out = s.startup();
    assert_eq!(
        describe_all(&out),
        vec!["slot0=Unknown:On", "slot1=Unknown:Auto", "page0"]
    );
    assert_eq!(night_topic(), "state/Brian/Night/power");
}

#[test]
fn unique_id_is_prefixed_lowercase_hex() {
    let mac: Vec<u8> = vec![0x00, 0x1a, 0x2b, 0x3c, 0xf0, 0x0d];
    assert_eq!(get_unique_id(&mac), "robotica-remote-rust_001a2b3cf00d");
    assert_eq!(get_unique_id(&Vec::new()), "robotica-remote-rust_");
}
