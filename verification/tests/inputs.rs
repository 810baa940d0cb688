use remote_core::button::{Active, Button, ButtonEvent, ButtonId};
use remote_core::debounce::Debouncer;
use remote_core::input::Value;
use remote_core::paging::{
    controller_to_page_id, get_controller_range_for_page, get_num_pages, page_to_controller_id,
    NUM_CONTROLLERS_PER_PAGE,
};
use remote_core::touch_debounce::{TouchDebouncer, TouchDebouncerState, TouchTimer};
use remote_core::touchscreen::{
    get_button_for_point, touch_transition, touched_button, translate, ButtonArea, TouchPoint,
};
use remote_core::controllers::switch::{SwitchConfig, SwitchController};
use remote_core::controllers::{Action, CommonConfig, Controller, Icon};
use remote_core::event_loop::get_controllers_per_page;
use remote_core::registry::Registry;

#[test]
fn debounce_burst_collapses_to_one_transition() {
    // a burst of edges inside one window: only the first edge is notified,
    // and the level present at window expiry wins
    let mut d = Debouncer::new();
    let first = d.process_input(Value::High);
    assert_eq!(first.notify, Some(Value::High));
    assert!(first.arm_timer);

    for v in [Value::Low, Value::High, Value::Low] {
        let a = d.process_input(v);
        assert_eq!(a.notify, None);
        assert!(!a.arm_timer);
    }

    // the raw level at expiry differs from the provisional one: corrected
    let corrected = d.process_timer(Some(Value::Low));
    assert_eq!(corrected, Some(Value::Low));
    assert_eq!(d.get_value(None), Some(Value::Low));

    // a second burst that settles where it started emits no correction
    let a = d.process_input(Value::High);
    assert_eq!(a.notify, Some(Value::High));
    let again = d.process_timer(Some(Value::High));
    assert_eq!(again, None);
    assert_eq!(d.get_value(None), Some(Value::High));
}

#[test]
fn debounce_get_value_falls_back_to_raw() {
    let d = Debouncer::new();
    assert_eq!(d.get_value(Some(Value::High)), Some(Value::High));
    assert_eq!(d.get_value(None), None);
    assert!(d.is_high(Some(Value::High)));
    assert!(!d.is_low(Some(Value::High)));
}

#[test]
fn touch_debounce_poll_until_release() {
    let mut t = TouchDebouncer::new();
    // touch edge: notified at once, debounce window armed
    let a = t.process_input(true);
    assert_eq!(a.notify_first, Some(Value::Low));
    assert_eq!(a.arm_timer, Some(TouchTimer::Debounce));
    assert_eq!(t.state, TouchDebouncerState::Debounce);

    // edges while debouncing are ignored
    let a = t.process_input(true);
    assert_eq!(a.notify_first, None);
    assert_eq!(a.arm_timer, None);

    // window expires with the finger still down: enter the poll loop
    let a = t.process_timer(false);
    assert_eq!(a.notify_first, None);
    assert_eq!(a.notify_second, None);
    assert_eq!(a.arm_timer, Some(TouchTimer::Poll));
    assert_eq!(t.state, TouchDebouncerState::ActivePoll);

    // polls while held keep the poll timer armed: never stuck without one
    let a = t.process_timer(false);
    assert_eq!(a.arm_timer, Some(TouchTimer::Poll));
    assert_eq!(t.state, TouchDebouncerState::ActivePoll);

    // the raw level returns high: the release is emitted and the machine
    // goes back to idle
    let a = t.process_timer(true);
    assert_eq!(a.notify_first, Some(Value::High));
    assert_eq!(a.arm_timer, None);
    assert_eq!(t.state, TouchDebouncerState::Inactive);
    assert_eq!(t.get_value(None), Some(Value::High));
}

#[test]
fn touch_debounce_release_already_high_at_window_expiry() {
    let mut t = TouchDebouncer::new();
    t.process_input(true);
    let a = t.process_timer(true);
    assert_eq!(a.notify_second, Some(Value::High));
    assert_eq!(a.arm_timer, None);
    assert_eq!(t.state, TouchDebouncerState::Inactive);
}

#[test]
fn touch_debounce_ignores_high_edges() {
    let mut t = TouchDebouncer::new();
    let a = t.process_input(false);
    assert_eq!(a.notify_first, None);
    assert_eq!(a.arm_timer, None);
    assert_eq!(t.state, TouchDebouncerState::Inactive);
}

#[test]
fn button_emits_on_transitions_only() {
    let mut b = Button::new(Active::Low, ButtonId::Physical(1));
    assert_eq!(
        b.process_value(Value::Low),
        Some(ButtonEvent::Press(ButtonId::Physical(1)))
    );
    assert_eq!(b.process_value(Value::Low), None);
    assert_eq!(
        b.process_value(Value::High),
        Some(ButtonEvent::Release(ButtonId::Physical(1)))
    );
    assert_eq!(b.process_value(Value::High), None);
}

#[test]
fn button_active_high_sense() {
    let mut b = Button::new(Active::High, ButtonId::PageUp);
    assert_eq!(
        b.process_value(Value::High),
        Some(ButtonEvent::Press(ButtonId::PageUp))
    );
    assert_eq!(
        b.process_value(Value::Low),
        Some(ButtonEvent::Release(ButtonId::PageUp))
    );
}

#[test]
fn page_slot_bijection_holds_for_small_indices() {
    for i in 0..32usize {
        let (page, slot) = controller_to_page_id(i);
        assert_eq!(page, i / NUM_CONTROLLERS_PER_PAGE);
        assert_eq!(slot, i % NUM_CONTROLLERS_PER_PAGE);
        assert_eq!(page_to_controller_id(page, slot), i);
    }
}

#[test]
fn num_pages_rounds_up() {
    assert_eq!(get_num_pages(0), 0);
    assert_eq!(get_num_pages(1), 1);
    assert_eq!(get_num_pages(2), 1);
    assert_eq!(get_num_pages(3), 2);
    assert_eq!(get_num_pages(6), 3);
    assert_eq!(get_num_pages(7), 4);
}

#[test]
fn controller_range_for_page() {
    assert_eq!(get_controller_range_for_page(0), (0, 2));
    assert_eq!(get_controller_range_for_page(3), (6, 8));
}

#[test]
fn translate_rotates_panel_points() {
    let p = translate(TouchPoint { x: 20, y: 150 });
    assert_eq!(p.x, 150);
    assert_eq!(p.y, 300);
    let clamped = translate(TouchPoint { x: 400, y: 5 });
    assert_eq!(clamped.x, 5);
    assert_eq!(clamped.y, 0);
}

#[test]
fn button_hit_test_picks_first_match() {
    let areas = vec![
        ButtonArea { left: 0, top: 0, width: 100, height: 100, id: ButtonId::Physical(0) },
        ButtonArea { left: 100, top: 0, width: 100, height: 100, id: ButtonId::Physical(1) },
    ];
    assert_eq!(
        get_button_for_point(&areas, TouchPoint { x: 10, y: 10 }),
        Some(ButtonId::Physical(0))
    );
    assert_eq!(
        get_button_for_point(&areas, TouchPoint { x: 150, y: 50 }),
        Some(ButtonId::Physical(1))
    );
    // the last row and column of an area are excluded by the strict test
    assert_eq!(get_button_for_point(&areas, TouchPoint { x: 99, y: 10 }), None);
    assert_eq!(get_button_for_point(&areas, TouchPoint { x: 210, y: 10 }), None);
}

#[test]
fn touched_button_marks_misses() {
    let areas = vec![ButtonArea {
        left: 0,
        top: 0,
        width: 100,
        height: 100,
        id: ButtonId::Controller(3),
    }];
    // panel point (310, 10) lands at display (10, 10)
    assert_eq!(
        touched_button(&areas, Some(TouchPoint { x: 310, y: 10 })),
        Some(ButtonId::Controller(3))
    );
    // panel point far away lands outside every area
    assert_eq!(
        touched_button(&areas, Some(TouchPoint { x: 10, y: 300 })),
        Some(ButtonId::NotAButton)
    );
    assert_eq!(touched_button(&areas, None), None);
}

#[test]
fn touch_transitions_frame_presses_and_releases() {
    let a = ButtonId::Physical(0);
    let b = ButtonId::Physical(1);
    assert_eq!(touch_transition(None, None), (None, None));
    assert_eq!(touch_transition(None, Some(a)), (None, Some(a)));
    assert_eq!(touch_transition(Some(a), None), (Some(a), None));
    assert_eq!(touch_transition(Some(a), Some(a)), (None, None));
    assert_eq!(touch_transition(Some(a), Some(b)), (Some(a), Some(b)));
}

#[test]
fn controllers_per_page_pads_with_none() {
    let make = |name: &str| {
        Controller::Switch(SwitchController::new(&SwitchConfig {
            c: CommonConfig {
                name: name.to_string(),
                topic_substr: format!("Room/{}", name),
                action: Action::Toggle,
                icon: Icon::Fan,
            },
        }))
    };
    let controllers = vec![make("A"), make("B"), make("C")];

    let page0 = get_controllers_per_page(&controllers, 0);
    assert_eq!(page0.len(), NUM_CONTROLLERS_PER_PAGE);
    assert_eq!(page0[0].map(|c| c.get_name()), Some("A".to_string()));
    assert_eq!(page0[1].map(|c| c.get_name()), Some("B".to_string()));

    let page1 = get_controllers_per_page(&controllers, 1);
    assert_eq!(page1[0].map(|c| c.get_name()), Some("C".to_string()));
    assert!(page1[1].is_none());

    let page2 = get_controllers_per_page(&controllers, 2);
    assert!(page2[0].is_none());
    assert!(page2[1].is_none());
}

#[test]
fn registry_slots_are_write_once() {
    let mut reg: Registry<String> = Registry::new(4);
    assert_eq!(reg.capacity(), 4);
    assert!(!reg.is_registered(2));
    assert!(reg.get(2).is_none());

    assert!(reg.register(2, "first".to_string()));
    assert!(reg.is_registered(2));
    assert_eq!(reg.get(2).map(|s| s.as_str()), Some("first"));

    // a taken slot is refused, and keeps what it had
    assert!(!reg.register(2, "second".to_string()));
    assert_eq!(reg.get(2).map(|s| s.as_str()), Some("first"));

    // an index past the capacity is refused
    assert!(!reg.register(9, "third".to_string()));
    assert!(reg.get(9).is_none());

    // the other slots are untouched
    assert!(!reg.is_registered(0));
    assert!(!reg.is_registered(3));
}
