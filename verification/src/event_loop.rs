//! The main event loop's decision core.
//!
//! The loop owns all mutable session state: the controller list, the current
//! page and the blanking policy state.  Each event is folded into that state
//! by a pure transition, and everything the loop wants of the outside world —
//! display commands, broker publishes, timer arming — comes back as a list of
//! [`Output`] values that the surrounding context carries out in order.

use vstd::prelude::*;

use crate::config::NIGHT_CONTROLLER;
use crate::button::ButtonId;
use crate::controllers::{
    spec_common, spec_disconnected, spec_display_state, spec_press_commands, spec_process_message,
    Command, CommandView, Controller, ControllerView, DisplayState,
};
use crate::display::{DisplayCommand, DisplayCommandView};
use crate::messages::{Label, Message, MessageView};
use crate::paging::{
    controller_to_page_id, spec_num_pages, spec_page_of, spec_slot_of, NUM_CONTROLLERS_PER_PAGE,
};
use crate::status::{
    spec_display_required, spec_timer_required, ActualDisplayStatus, RequestedDisplayStatus,
    TimeOfDay,
};
use crate::strutil::str_eq;

verus! {

/// Operations on the one-shot blank timer.
#[derive(Copy, Clone, Debug, PartialEq, Eq, Structural)]
pub enum TimerOp {
    /// Cancel any pending fire and arm the blank interval afresh.
    Start,
    /// Cancel any pending fire.
    Cancel,
}

/// One thing the loop asks the outside world to do.
pub enum Output {
    Display(DisplayCommand),
    /// Publish the command's payload to its topic, unretained.
    Publish(Command),
    Timer(TimerOp),
}

/// Mathematical value of an [`Output`].
pub enum OutputView {
    Display(DisplayCommandView),
    Publish(CommandView),
    Timer(TimerOp),
}

impl View for Output {
    type V = OutputView;

    open spec fn view(&self) -> OutputView {
        match self {
            Output::Display(c) => OutputView::Display(c@),
            Output::Publish(c) => OutputView::Publish(c@),
            Output::Timer(t) => OutputView::Timer(*t),
        }
    }
}

impl DeepView for Output {
    type V = OutputView;

    open spec fn deep_view(&self) -> OutputView {
        self.view()
    }
}

/// Appends one output, tracked at the view level.
fn push_out(out: &mut Vec<Output>, o: Output)
    ensures
        final(out).deep_view() == old(out).deep_view().push(o@),
{
    let ghost prev = out@;
    let ghost prev_dv = out.deep_view();
    out.push(o);
    proof {
        assert(out@ == prev.push(o));
        assert(prev_dv.len() == prev.len());
        assert(out.deep_view() =~= prev_dv.push(o@));
    }
}

/// The actual display status that one policy evaluation steers towards: the
/// timer runs exactly when required, the display is lit exactly when
/// required.
pub open spec fn spec_do_blank_status(
    req: RequestedDisplayStatus,
    st: ActualDisplayStatus,
) -> ActualDisplayStatus {
    ActualDisplayStatus { timer_on: spec_timer_required(req), display_on: spec_display_required(req) }
}

/// The commands one policy evaluation issues: at most one timer operation
/// and one blank or unblank, each only on a transition (or, for the timer,
/// on an explicit reset request).
pub open spec fn spec_do_blank_out(
    req: RequestedDisplayStatus,
    st: ActualDisplayStatus,
    force_timer_reset: bool,
) -> Seq<OutputView> {
    let timer_out: Seq<OutputView> = if spec_timer_required(req) {
        if !st.timer_on || force_timer_reset {
            seq![OutputView::Timer(TimerOp::Start)]
        } else {
            Seq::empty()
        }
    } else if st.timer_on {
        seq![OutputView::Timer(TimerOp::Cancel)]
    } else {
        Seq::empty()
    };
    let display_out: Seq<OutputView> = if spec_display_required(req) && !st.display_on {
        seq![OutputView::Display(DisplayCommandView::UnBlankAll)]
    } else if !spec_display_required(req) && st.display_on {
        seq![OutputView::Display(DisplayCommandView::BlankAll)]
    } else {
        Seq::empty()
    };
    timer_out + display_out
}

/// One evaluation of the blanking policy: drives `status` to the state the
/// request demands and emits the commands for every transition made.
pub fn do_blank(
    requested_display_status: &RequestedDisplayStatus,
    status: &mut ActualDisplayStatus,
    force_timer_reset: bool,
    out: &mut Vec<Output>,
)
    ensures
        *final(status) == spec_do_blank_status(*requested_display_status, *old(status)),
        final(out).deep_view() == old(out).deep_view() + spec_do_blank_out(
            *requested_display_status,
            *old(status),
            force_timer_reset,
        ),
{
    let ghost base = out.deep_view();
    let timer_required = requested_display_status.get_timer_required();
    let display_required = requested_display_status.get_display_required();

    if timer_required {
        if !status.timer_on || force_timer_reset {
            push_out(out, Output::Timer(TimerOp::Start));
        }
        status.timer_on = true;
    } else {
        if status.timer_on {
            push_out(out, Output::Timer(TimerOp::Cancel));
        }
        status.timer_on = false;
    }

    if display_required && !status.display_on {
        status.display_on = true;
        push_out(out, Output::Display(DisplayCommand::UnBlankAll));
    } else if !display_required && status.display_on {
        status.display_on = false;
        push_out(out, Output::Display(DisplayCommand::BlankAll));
    }

    proof {
        assert(out.deep_view() =~= base + spec_do_blank_out(
            *requested_display_status,
            *old(status),
            force_timer_reset,
        ));
    }
}

/// Blanking policy idempotence: one evaluation reaches a fixed point, so an
/// immediately repeated evaluation (without a forced timer reset) issues no
/// further command and changes nothing.
pub proof fn lemma_do_blank_idempotent(
    req: RequestedDisplayStatus,
    st: ActualDisplayStatus,
    force_timer_reset: bool,
)
    ensures
        spec_do_blank_status(req, spec_do_blank_status(req, st)) == spec_do_blank_status(req, st),
        spec_do_blank_out(req, spec_do_blank_status(req, st), false) == Seq::<OutputView>::empty(),
{
    assert(spec_do_blank_out(req, spec_do_blank_status(req, st), false) =~= Seq::<
        OutputView,
    >::empty());
}

/// The display command that shows controller `c` in a slot, given the state
/// to show.
pub open spec fn spec_slot_command(
    c: ControllerView,
    id_in_page: usize,
    state: DisplayState,
) -> DisplayCommandView {
    DisplayCommandView::DisplayState(state, spec_common(c).icon, id_in_page, spec_common(c).name)
}

/// Emits the display update for one controller's slot.
pub fn update_display(
    out: &mut Vec<Output>,
    id_in_page: usize,
    controller: &Controller,
    state: DisplayState,
)
    ensures
        final(out).deep_view() == old(out).deep_view().push(
            OutputView::Display(spec_slot_command(controller@, id_in_page, state)),
        ),
{
    let icon = controller.get_icon();
    let name = controller.get_name();
    let message = DisplayCommand::DisplayState(state, icon, id_in_page, name);
    push_out(out, Output::Display(message));
}

/// The full refresh of one page: a state command for every slot holding a
/// controller, and a none command for every slot past the end of the list.
pub open spec fn spec_update_displays_out(cs: Seq<ControllerView>, page: int) -> Seq<OutputView> {
    Seq::new(
        NUM_CONTROLLERS_PER_PAGE as nat,
        |slot: int|
            {
                let idx = page * (NUM_CONTROLLERS_PER_PAGE as int) + slot;
                if 0 <= idx < cs.len() {
                    OutputView::Display(
                        spec_slot_command(cs[idx], slot as usize, spec_display_state(cs[idx])),
                    )
                } else {
                    OutputView::Display(DisplayCommandView::DisplayNone(slot as usize))
                }
            },
    )
}

/// Emits the full refresh of the given page.
pub fn update_displays(out: &mut Vec<Output>, controllers: &Vec<Controller>, page_num: usize)
    requires
        page_num * NUM_CONTROLLERS_PER_PAGE + NUM_CONTROLLERS_PER_PAGE <= usize::MAX,
    ensures
        final(out).deep_view() == old(out).deep_view() + spec_update_displays_out(
            controllers.deep_view(),
            page_num as int,
        ),
{
    let ghost base = out.deep_view();
    let ghost want = spec_update_displays_out(controllers.deep_view(), page_num as int);
    let mut slot: usize = 0;
    while slot < NUM_CONTROLLERS_PER_PAGE
        invariant
            slot <= NUM_CONTROLLERS_PER_PAGE,
            page_num * NUM_CONTROLLERS_PER_PAGE + NUM_CONTROLLERS_PER_PAGE <= usize::MAX,
            want == spec_update_displays_out(controllers.deep_view(), page_num as int),
            out.deep_view() == base + want.take(slot as int),
        decreases NUM_CONTROLLERS_PER_PAGE - slot,
    {
        let idx = page_num * NUM_CONTROLLERS_PER_PAGE + slot;
        if idx < controllers.len() {
            let controller = &controllers[idx];
            let state = controller.get_display_state();
            proof {
                assert(controllers.deep_view()[idx as int] == controller.deep_view());
            }
            update_display(out, slot, controller, state);
        } else {
            push_out(out, Output::Display(DisplayCommand::DisplayNone(slot)));
        }
        slot += 1;
        proof {
            assert(out.deep_view() =~= base + want.take(slot as int));
        }
    }
    proof {
        assert(out.deep_view() =~= base + want);
    }
}

/// The controllers of one page, slot by slot: a reference for every slot
/// that holds one, nothing for slots past the end of the list.
pub fn get_controllers_per_page<'a>(controllers: &'a Vec<Controller>, page: usize) -> (r: Vec<
    Option<&'a Controller>,
>)
    requires
        page * NUM_CONTROLLERS_PER_PAGE + NUM_CONTROLLERS_PER_PAGE <= usize::MAX,
    ensures
        r@.len() == NUM_CONTROLLERS_PER_PAGE,
        forall|k: int|
            0 <= k < NUM_CONTROLLERS_PER_PAGE ==> if page * NUM_CONTROLLERS_PER_PAGE + k
                < controllers@.len() {
                #[trigger] r@[k] matches Some(c) && c == &controllers@[
                    page * NUM_CONTROLLERS_PER_PAGE + k
                ]
            } else {
                r@[k] is None
            },
{
    let mut r: Vec<Option<&'a Controller>> = Vec::new();
    let mut slot: usize = 0;
    while slot < NUM_CONTROLLERS_PER_PAGE
        invariant
            slot <= NUM_CONTROLLERS_PER_PAGE,
            page * NUM_CONTROLLERS_PER_PAGE + NUM_CONTROLLERS_PER_PAGE <= usize::MAX,
            r@.len() == slot,
            forall|k: int|
                0 <= k < slot ==> if page * NUM_CONTROLLERS_PER_PAGE + k < controllers@.len() {
                    #[trigger] r@[k] matches Some(c) && c == &controllers@[
                        page * NUM_CONTROLLERS_PER_PAGE + k
                    ]
                } else {
                    r@[k] is None
                },
        decreases NUM_CONTROLLERS_PER_PAGE - slot,
    {
        let idx = page * NUM_CONTROLLERS_PER_PAGE + slot;
        if idx < controllers.len() {
            r.push(Some(&controllers[idx]));
        } else {
            r.push(None);
        }
        slot += 1;
    }
    r
}

/// The publishes a press of controller `id` causes: the controller's press
/// commands in order, or nothing at all for an index with no controller.
pub open spec fn spec_button_press_out(cs: Seq<ControllerView>, id: int) -> Seq<OutputView> {
    if 0 <= id < cs.len() {
        spec_press_commands(cs[id]).map_values(|c: CommandView| OutputView::Publish(c))
    } else {
        Seq::empty()
    }
}

/// Emits the publishes for a press of controller `id`; an index with no
/// controller is dropped.
pub fn button_press(out: &mut Vec<Output>, controllers: &Vec<Controller>, id: usize)
    ensures
        final(out).deep_view() == old(out).deep_view() + spec_button_press_out(
            controllers.deep_view(),
            id as int,
        ),
{
    let ghost base = out.deep_view();
    let ghost want = spec_button_press_out(controllers.deep_view(), id as int);
    if id < controllers.len() {
        let mut commands = controllers[id].get_press_commands();
        let ghost cmds = commands.deep_view();
        proof {
            assert(controllers.deep_view()[id as int] == controllers@[id as int].deep_view());
            assert(want =~= cmds.map_values(|c: CommandView| OutputView::Publish(c)));
        }
        let mut k: usize = 0;
        while commands.len() > 0
            invariant
                cmds.len() <= usize::MAX,
                k + commands.len() == cmds.len(),
                commands.deep_view() =~= cmds.skip(k as int),
                want == cmds.map_values(|c: CommandView| OutputView::Publish(c)),
                out.deep_view() == base + want.take(k as int),
            decreases commands.len(),
        {
            let ghost pre_vec = commands@;
            let ghost pre_cmds = commands.deep_view();
            let command = commands.remove(0);
            proof {
                assert(pre_cmds.len() == pre_vec.len());
                assert(commands@ =~= pre_vec.remove(0));
                assert(command.deep_view() == pre_cmds[0]);
                assert(pre_cmds[0] == cmds[k as int]);
                assert forall|j: int|
                    0 <= j < commands.deep_view().len() implies #[trigger] commands.deep_view()[j]
                    == cmds.skip(k as int + 1)[j] by {
                    assert(commands.deep_view()[j] == commands@[j].deep_view());
                    assert(commands@[j] == pre_vec[j + 1]);
                    assert(pre_cmds[j + 1] == pre_vec[j + 1].deep_view());
                    assert(pre_cmds[j + 1] == cmds.skip(k as int)[j + 1]);
                }
                assert(commands.deep_view() =~= cmds.skip(k as int + 1));
            }
            push_out(out, Output::Publish(command));
            k += 1;
            proof {
                assert(want[k - 1] == OutputView::Publish(cmds[k - 1]));
                assert(out.deep_view() =~= base + want.take(k as int));
            }
        }
        proof {
            assert(out.deep_view() =~= base + want);
        }
    } else {
        proof {
            assert(out.deep_view() =~= base + want);
        }
    }
}

/// Everything the loop owns, as one mathematical value.
#[verifier::ext_equal]
pub struct LoopView {
    pub controllers: Seq<ControllerView>,
    pub requested_display_status: RequestedDisplayStatus,
    pub status: ActualDisplayStatus,
    pub page_num: usize,
    pub last_page: usize,
}

/// Everything the loop owns: the controller list, the blanking policy state
/// and the visible page.
pub struct LoopState {
    controllers: Vec<Controller>,
    requested_display_status: RequestedDisplayStatus,
    status: ActualDisplayStatus,
    page_num: usize,
    last_page: usize,
}

impl View for LoopState {
    type V = LoopView;

    closed spec fn view(&self) -> LoopView {
        LoopView {
            controllers: self.controllers.deep_view(),
            requested_display_status: self.requested_display_status,
            status: self.status,
            page_num: self.page_num,
            last_page: self.last_page,
        }
    }
}

/// Well-formedness of the loop state: at least one controller, room for the
/// page arithmetic, and the page fields consistent with the list length.
pub open spec fn spec_loop_wf(s: LoopView) -> bool {
    &&& 1 <= s.controllers.len()
    &&& s.controllers.len() < usize::MAX
    &&& s.last_page as int == spec_num_pages(s.controllers.len() as int) - 1
    &&& s.page_num <= s.last_page
}

/// A well-formed loop state has room for the slot arithmetic of its pages.
pub proof fn lemma_wf_page_bound(s: LoopView, page: int)
    requires
        spec_loop_wf(s),
        0 <= page <= s.last_page,
    ensures
        page * (NUM_CONTROLLERS_PER_PAGE as int) + (NUM_CONTROLLERS_PER_PAGE as int)
            <= s.controllers.len() + 1 <= usize::MAX,
{
    let p = NUM_CONTROLLERS_PER_PAGE as int;
    let len = s.controllers.len() as int;
    vstd::arithmetic::div_mod::lemma_fundamental_div_mod(len, p);
    assert(s.last_page as int * p + p <= len + 1);
    assert(page * p <= s.last_page as int * p) by (nonlinear_arith)
        requires 0 <= page <= s.last_page as int, p >= 0,;
}

/// What the time-of-day becomes on a night-status payload: `ON` means
/// night, `OFF` means day, anything else is ignored.
pub open spec fn spec_time_of_day(old_tod: TimeOfDay, data: Seq<char>) -> TimeOfDay {
    if data == "ON"@ {
        TimeOfDay::Night
    } else if data == "OFF"@ {
        TimeOfDay::Day
    } else {
        old_tod
    }
}

/// Transition for a night-status message: update the time of day and
/// re-evaluate the blanking policy without forcing a timer reset.
pub open spec fn spec_handle_night(s: LoopView, data: Seq<char>) -> (LoopView, Seq<OutputView>) {
    let req = RequestedDisplayStatus {
        time_of_day: spec_time_of_day(s.requested_display_status.time_of_day, data),
        ..s.requested_display_status
    };
    (
        LoopView {
            requested_display_status: req,
            status: spec_do_blank_status(req, s.status),
            ..s
        },
        spec_do_blank_out(req, s.status, false),
    )
}

/// What the forced-on flag becomes when the night controller's state
/// changes: on and on-other force the display on, off and hard-off release
/// it, error and unknown leave it alone.
pub open spec fn spec_forced_on(old_forced: bool, state: DisplayState) -> bool {
    match state {
        DisplayState::On => true,
        DisplayState::OnOther => true,
        DisplayState::Off => false,
        DisplayState::HardOff => false,
        DisplayState::Error => old_forced,
        DisplayState::Unknown => old_forced,
    }
}

/// Transition for a controller-labelled broker message: update that
/// controller's fact; if it is the night controller, refresh the forced-on
/// flag and the blanking policy; if its display state changed and its page
/// is visible, refresh its slot.  A label naming no controller is dropped.
pub open spec fn spec_handle_controller_message(
    s: LoopView,
    id: int,
    sid: u32,
    data: Seq<char>,
) -> (LoopView, Seq<OutputView>) {
    if 0 <= id < s.controllers.len() {
        let old_state = spec_display_state(s.controllers[id]);
        let new_c = spec_process_message(s.controllers[id], sid, data);
        let new_state = spec_display_state(new_c);
        let night = id == NIGHT_CONTROLLER as int;
        let req = if night {
            RequestedDisplayStatus {
                forced_on: spec_forced_on(s.requested_display_status.forced_on, new_state),
                ..s.requested_display_status
            }
        } else {
            s.requested_display_status
        };
        let st = if night {
            spec_do_blank_status(req, s.status)
        } else {
            s.status
        };
        let out1 = if night {
            spec_do_blank_out(req, s.status, false)
        } else {
            Seq::<OutputView>::empty()
        };
        let out2: Seq<OutputView> = if s.page_num as int == spec_page_of(id) && old_state
            != new_state {
            seq![
                OutputView::Display(
                    spec_slot_command(new_c, spec_slot_of(id) as usize, new_state),
                ),
            ]
        } else {
            Seq::empty()
        };
        (
            LoopView {
                controllers: s.controllers.update(id, new_c),
                requested_display_status: req,
                status: st,
                ..s
            },
            out1 + out2,
        )
    } else {
        (s, Seq::empty())
    }
}

/// Transition for a broker disconnect: every controller forgets its facts
/// and the whole visible page is refreshed (showing every slot unknown).
pub open spec fn spec_handle_disconnect(s: LoopView) -> (LoopView, Seq<OutputView>) {
    let cs = s.controllers.map_values(|c: ControllerView| spec_disconnected(c));
    (
        LoopView { controllers: cs, ..s },
        spec_update_displays_out(cs, s.page_num as int),
    )
}

/// The activity tail shared by every button event: the night timer is armed
/// and the blanking policy re-evaluated with a forced timer reset, after the
/// event's own outputs.
pub open spec fn spec_activity(s: LoopView, pre: Seq<OutputView>) -> (LoopView, Seq<OutputView>) {
    let req = RequestedDisplayStatus { night_timer: true, ..s.requested_display_status };
    (
        LoopView {
            requested_display_status: req,
            status: spec_do_blank_status(req, s.status),
            ..s
        },
        pre + spec_do_blank_out(req, s.status, true),
    )
}

/// Transition for a press of a physical slot button: only a lit display
/// accepts it, mapping the slot through the current page to a controller
/// and marking the slot pressed; activity is registered either way.
pub open spec fn spec_handle_press_physical(s: LoopView, slot: int) -> (LoopView, Seq<OutputView>) {
    let pre: Seq<OutputView> = if s.status.display_on {
        spec_button_press_out(
            s.controllers,
            s.page_num as int * (NUM_CONTROLLERS_PER_PAGE as int) + slot,
        ) + seq![OutputView::Display(DisplayCommandView::ButtonPressed(slot as usize))]
    } else {
        Seq::empty()
    };
    spec_activity(s, pre)
}

/// Transition for a press of a controller-wired button: publishes without
/// any display-on or page gating, marking the slot pressed only if the
/// controller's page is visible.
pub open spec fn spec_handle_press_controller(s: LoopView, id: int) -> (LoopView, Seq<OutputView>) {
    let pre = spec_button_press_out(s.controllers, id) + (
    if spec_page_of(id) == s.page_num as int {
        seq![OutputView::Display(DisplayCommandView::ButtonPressed(spec_slot_of(id) as usize))]
    } else {
        Seq::<OutputView>::empty()
    });
    spec_activity(s, pre)
}

/// The page shown after a page-up or page-down press, clamped to the valid
/// range.
pub open spec fn spec_next_page(s: LoopView, up: bool) -> usize {
    if up {
        if s.page_num < s.last_page {
            (s.page_num + 1) as usize
        } else {
            s.last_page
        }
    } else {
        if s.page_num > 0 {
            (s.page_num - 1) as usize
        } else {
            0
        }
    }
}

/// Transition for a page navigation press: clamp the page, announce it,
/// refresh every slot of it, register activity.
pub open spec fn spec_handle_page(s: LoopView, up: bool) -> (LoopView, Seq<OutputView>) {
    let page = spec_next_page(s, up);
    let s1 = LoopView { page_num: page, ..s };
    let pre = seq![OutputView::Display(DisplayCommandView::ShowPage(page))]
        + spec_update_displays_out(s.controllers, page as int);
    spec_activity(s1, pre)
}

/// Transition for a release of a physical slot button: the slot is marked
/// released unconditionally, and activity registered.
pub open spec fn spec_handle_release_physical(s: LoopView, slot: int) -> (LoopView, Seq<OutputView>) {
    spec_activity(
        s,
        seq![OutputView::Display(DisplayCommandView::ButtonReleased(slot as usize))],
    )
}

/// Transition for a release of a controller-wired button: the slot is
/// marked released if the controller's page is visible, and activity
/// registered.
pub open spec fn spec_handle_release_controller(s: LoopView, id: int) -> (LoopView, Seq<OutputView>) {
    spec_activity(
        s,
        if spec_page_of(id) == s.page_num as int {
            seq![OutputView::Display(DisplayCommandView::ButtonReleased(spec_slot_of(id) as usize))]
        } else {
            Seq::<OutputView>::empty()
        },
    )
}

/// Transition for the blank timer firing: the night timer disarms, and the
/// blanking policy runs (this is what darkens the display after the idle
/// window).
pub open spec fn spec_handle_blank_timer(s: LoopView) -> (LoopView, Seq<OutputView>) {
    let req = RequestedDisplayStatus { night_timer: false, ..s.requested_display_status };
    (
        LoopView {
            requested_display_status: req,
            status: spec_do_blank_status(req, s.status),
            ..s
        },
        spec_do_blank_out(req, s.status, true),
    )
}

/// The whole loop body as a pure function: the state after one event, and
/// the outputs it issues, in order.
pub open spec fn spec_handle(s: LoopView, m: MessageView) -> (LoopView, Seq<OutputView>) {
    match m {
        MessageView::MqttConnect => (s, Seq::empty()),
        MessageView::MqttDisconnect => spec_handle_disconnect(s),
        MessageView::MqttReceived(_topic, data, label) => match label {
            Label::NightStatus => spec_handle_night(s, data),
            Label::Button(id, sid) => spec_handle_controller_message(s, id as int, sid, data),
            Label::LightStatus => (s, Seq::empty()),
        },
        MessageView::ButtonPress(id) => match id {
            ButtonId::Physical(slot) => spec_handle_press_physical(s, slot as int),
            ButtonId::Controller(cid) => spec_handle_press_controller(s, cid as int),
            ButtonId::PageUp => spec_handle_page(s, true),
            ButtonId::PageDown => spec_handle_page(s, false),
            ButtonId::NotAButton => spec_activity(s, Seq::empty()),
        },
        MessageView::ButtonRelease(id) => match id {
            ButtonId::Physical(slot) => spec_handle_release_physical(s, slot as int),
            ButtonId::Controller(cid) => spec_handle_release_controller(s, cid as int),
            ButtonId::PageUp => spec_activity(s, Seq::empty()),
            ButtonId::PageDown => spec_activity(s, Seq::empty()),
            ButtonId::NotAButton => spec_activity(s, Seq::empty()),
        },
        MessageView::BlankDisplays => spec_handle_blank_timer(s),
    }
}

/// One event never changes how many controllers exist, and never moves the
/// page outside its range: well-formedness is an invariant of the loop.
pub proof fn lemma_handle_preserves_wf(s: LoopView, m: MessageView)
    requires
        spec_loop_wf(s),
    ensures
        spec_loop_wf(spec_handle(s, m).0),
{
}

/// Disconnect resets, at the loop level: after a broker disconnect every
/// controller in the loop reads `Unknown`.
pub proof fn lemma_disconnect_all_unknown(s: LoopView)
    ensures
        forall|i: int|
            0 <= i < s.controllers.len() ==> spec_display_state(
                #[trigger] spec_handle(s, MessageView::MqttDisconnect).0.controllers[i],
            ) == DisplayState::Unknown,
{
    let cs = spec_handle(s, MessageView::MqttDisconnect).0.controllers;
    assert forall|i: int| 0 <= i < s.controllers.len() implies spec_display_state(
        #[trigger] cs[i],
    ) == DisplayState::Unknown by {
        assert(cs[i] == spec_disconnected(s.controllers[i]));
        crate::controllers::lemma_disconnect_resets(s.controllers[i]);
    }
}

impl LoopState {
    /// A fresh session: day time, nothing forced, timer off, display lit,
    /// first page shown.
    pub fn new(controllers: Vec<Controller>) -> (s: Self)
        requires
            controllers.len() >= 1,
            controllers.len() < usize::MAX,
        ensures
            s@ == (LoopView {
                controllers: controllers.deep_view(),
                requested_display_status: RequestedDisplayStatus {
                    time_of_day: TimeOfDay::Day,
                    forced_on: false,
                    night_timer: false,
                },
                status: ActualDisplayStatus { timer_on: false, display_on: true },
                page_num: 0,
                last_page: (spec_num_pages(controllers.len() as int) - 1) as usize,
            }),
            spec_loop_wf(s@),
    {
        proof {
            vstd::arithmetic::div_mod::lemma_fundamental_div_mod(
                controllers.len() as int,
                NUM_CONTROLLERS_PER_PAGE as int,
            );
        }
        let num_pages = crate::paging::get_num_pages(controllers.len());
        let last_page = num_pages - 1;
        let s = LoopState {
            controllers,
            requested_display_status: RequestedDisplayStatus {
                time_of_day: TimeOfDay::Day,
                forced_on: false,
                night_timer: false,
            },
            status: ActualDisplayStatus { timer_on: false, display_on: true },
            page_num: 0,
            last_page,
        };
        s
    }

    /// The session's opening sequence: one policy evaluation, a full
    /// refresh of the first page, and the page announcement.
    pub fn startup(&mut self) -> (out: Vec<Output>)
        requires
            spec_loop_wf(old(self)@),
        ensures
            spec_loop_wf(final(self)@),
            final(self)@ == (LoopView {
                status: spec_do_blank_status(
                    old(self)@.requested_display_status,
                    old(self)@.status,
                ),
                ..old(self)@
            }),
            out.deep_view() == spec_do_blank_out(
                old(self)@.requested_display_status,
                old(self)@.status,
                false,
            ) + spec_update_displays_out(old(self)@.controllers, old(self)@.page_num as int)
                + seq![OutputView::Display(DisplayCommandView::ShowPage(old(self)@.page_num))],
    {
        let mut out: Vec<Output> = Vec::new();
        proof {
            assert(out.deep_view() =~= Seq::<OutputView>::empty());
            lemma_wf_page_bound(old(self)@, old(self)@.page_num as int);
        }
        do_blank(&self.requested_display_status, &mut self.status, false, &mut out);
        update_displays(&mut out, &self.controllers, self.page_num);
        push_out(&mut out, Output::Display(DisplayCommand::ShowPage(self.page_num)));
        proof {
            assert(final(self)@ =~= LoopView {
                status: spec_do_blank_status(
                    old(self)@.requested_display_status,
                    old(self)@.status,
                ),
                ..old(self)@
            });
            assert(out.deep_view() =~= spec_do_blank_out(
                old(self)@.requested_display_status,
                old(self)@.status,
                false,
            ) + spec_update_displays_out(old(self)@.controllers, old(self)@.page_num as int)
                + seq![OutputView::Display(DisplayCommandView::ShowPage(old(self)@.page_num))]);
        }
        out
    }

    /// How many controllers the session has.
    pub fn num_controllers(&self) -> (r: usize)
        ensures
            r == self@.controllers.len(),
    {
        self.controllers.len()
    }

    /// The display state a controller currently reads.
    pub fn controller_display_state(&self, id: usize) -> (r: DisplayState)
        requires
            id < self@.controllers.len(),
        ensures
            r == spec_display_state(self@.controllers[id as int]),
    {
        self.controllers[id].get_display_state()
    }

    /// The page currently shown.
    pub fn get_page_num(&self) -> (r: usize)
        ensures
            r == self@.page_num,
    {
        self.page_num
    }

    /// Arms the night timer and re-evaluates the blanking policy with a
    /// forced timer reset: the shared tail of every button event.
    fn register_activity(&mut self, out: &mut Vec<Output>)
        ensures
            final(self)@ == spec_activity(old(self)@, Seq::empty()).0,
            final(out).deep_view() == old(out).deep_view() + spec_activity(
                old(self)@,
                Seq::empty(),
            ).1,
    {
        self.requested_display_status.turn_night_timer_on();
        do_blank(&self.requested_display_status, &mut self.status, true, out);
        proof {
            assert(final(self)@ =~= spec_activity(old(self)@, Seq::<OutputView>::empty()).0);
            assert(out.deep_view() =~= old(out).deep_view() + spec_activity(
                old(self)@,
                Seq::<OutputView>::empty(),
            ).1);
        }
    }

    /// Folds one event into the session state and returns the outputs it
    /// issues, in order.
    pub fn handle_event(&mut self, msg: Message) -> (out: Vec<Output>)
        requires
            spec_loop_wf(old(self)@),
        ensures
            spec_loop_wf(final(self)@),
            final(self)@ == spec_handle(old(self)@, msg@).0,
            out.deep_view() == spec_handle(old(self)@, msg@).1,
    {
        let ghost mv = msg@;
        let ghost pre = self@;
        let mut out: Vec<Output> = Vec::new();
        proof {
            assert(out.deep_view() =~= Seq::<OutputView>::empty());
        }
        match msg {
            Message::MqttConnect => {
                proof {
                    assert(self@ =~= spec_handle(pre, mv).0);
                }
            },
            Message::MqttDisconnect => {
                self.handle_disconnect(&mut out);
            },
            Message::MqttReceived(_topic, data, label) => {
                match label {
                    Label::NightStatus => {
                        self.handle_night(data, &mut out);
                    },
                    Label::Button(id, sid) => {
                        self.handle_controller_message(id, sid, data, &mut out);
                    },
                    Label::LightStatus => {
                        proof {
                            assert(self@ =~= spec_handle(pre, mv).0);
                        }
                    },
                }
            },
            Message::ButtonPress(ButtonId::Physical(slot)) => {
                self.handle_press_physical(slot, &mut out);
            },
            Message::ButtonPress(ButtonId::Controller(id)) => {
                self.handle_press_controller(id, &mut out);
            },
            Message::ButtonPress(ButtonId::PageUp) => {
                self.handle_page(true, &mut out);
            },
            Message::ButtonPress(ButtonId::PageDown) => {
                self.handle_page(false, &mut out);
            },
            Message::ButtonPress(ButtonId::NotAButton) => {
                self.register_activity(&mut out);
            },
            Message::ButtonRelease(ButtonId::Physical(slot)) => {
                push_out(&mut out, Output::Display(DisplayCommand::ButtonReleased(slot)));
                self.register_activity(&mut out);
                proof {
                    assert(out.deep_view() =~= spec_handle(pre, mv).1);
                }
            },
            Message::ButtonRelease(ButtonId::Controller(id)) => {
                self.handle_release_controller(id, &mut out);
            },
            Message::ButtonRelease(ButtonId::PageUp) => {
                self.register_activity(&mut out);
            },
            Message::ButtonRelease(ButtonId::PageDown) => {
                self.register_activity(&mut out);
            },
            Message::ButtonRelease(ButtonId::NotAButton) => {
                self.register_activity(&mut out);
            },
            Message::BlankDisplays => {
                self.requested_display_status.turn_night_timer_off();
                do_blank(&self.requested_display_status, &mut self.status, true, &mut out);
                proof {
                    assert(self@ =~= spec_handle(pre, mv).0);
                    assert(out.deep_view() =~= spec_handle(pre, mv).1);
                }
            },
        }
        out
    }

    /// Night-status message: see [`spec_handle_night`].
    fn handle_night(&mut self, data: String, out: &mut Vec<Output>)
        ensures
            final(self)@ == spec_handle_night(old(self)@, data@).0,
            final(out).deep_view() == old(out).deep_view() + spec_handle_night(
                old(self)@,
                data@,
            ).1,
    {
        if str_eq(data.as_str(), "ON") {
            self.requested_display_status.time_of_day = TimeOfDay::Night;
        } else if str_eq(data.as_str(), "OFF") {
            self.requested_display_status.time_of_day = TimeOfDay::Day;
        }
        do_blank(&self.requested_display_status, &mut self.status, false, out);
        proof {
            assert(final(self)@ =~= spec_handle_night(old(self)@, data@).0);
        }
    }

    /// Controller-labelled broker message: see
    /// [`spec_handle_controller_message`].
    fn handle_controller_message(&mut self, id: usize, sid: u32, data: String, out: &mut Vec<Output>)
        requires
            spec_loop_wf(old(self)@),
        ensures
            final(self)@ == spec_handle_controller_message(old(self)@, id as int, sid, data@).0,
            final(out).deep_view() == old(out).deep_view() + spec_handle_controller_message(
                old(self)@,
                id as int,
                sid,
                data@,
            ).1,
    {
        let ghost pre = self@;
        let ghost dv = data@;
        if id >= self.controllers.len() {
            proof {
                assert(final(out).deep_view() =~= old(out).deep_view() + Seq::<
                    OutputView,
                >::empty());
            }
            return ;
        }
        let ghost pre_vec = self.controllers@;
        let mut c = self.controllers.remove(id);
        let old_state = c.get_display_state();
        c.process_message(sid, data);
        let state = c.get_display_state();
        let ghost cv = c@;
        if id == NIGHT_CONTROLLER {
            match state {
                DisplayState::Off => self.requested_display_status.forced_on = false,
                DisplayState::HardOff => self.requested_display_status.forced_on = false,
                DisplayState::On => self.requested_display_status.forced_on = true,
                DisplayState::OnOther => self.requested_display_status.forced_on = true,
                DisplayState::Error => {},
                DisplayState::Unknown => {},
            }
            do_blank(&self.requested_display_status, &mut self.status, false, out);
        }
        let page_slot = controller_to_page_id(id);
        if self.page_num == page_slot.0 && old_state != state {
            update_display(out, page_slot.1, &c, state);
        }
        self.controllers.insert(id, c);
        proof {
            assert(self.controllers@ =~= pre_vec.update(id as int, self.controllers@[id as int]));
            assert forall|j: int|
                0 <= j < self@.controllers.len() implies #[trigger] self@.controllers[j]
                == pre.controllers.update(id as int, cv)[j] by {
                assert(self@.controllers[j] == self.controllers@[j].deep_view());
            }
            assert(self@.controllers =~= pre.controllers.update(id as int, cv));
            assert(cv == spec_process_message(pre.controllers[id as int], sid, dv));
            assert(final(self)@ =~= spec_handle_controller_message(pre, id as int, sid, dv).0);
            assert(final(out).deep_view() =~= old(out).deep_view()
                + spec_handle_controller_message(pre, id as int, sid, dv).1);
        }
    }

    /// Broker disconnect: see [`spec_handle_disconnect`].
    fn handle_disconnect(&mut self, out: &mut Vec<Output>)
        requires
            spec_loop_wf(old(self)@),
        ensures
            final(self)@ == spec_handle_disconnect(old(self)@).0,
            final(out).deep_view() == old(out).deep_view() + spec_handle_disconnect(old(self)@).1,
    {
        let ghost pre = self@;
        let mut i: usize = 0;
        while i < self.controllers.len()
            invariant
                i <= self.controllers.len(),
                self@.controllers.len() == pre.controllers.len(),
                self@.requested_display_status == pre.requested_display_status,
                self@.status == pre.status,
                self@.page_num == pre.page_num,
                self@.last_page == pre.last_page,
                forall|j: int|
                    0 <= j < i ==> #[trigger] self@.controllers[j] == spec_disconnected(
                        pre.controllers[j],
                    ),
                forall|j: int|
                    i <= j < pre.controllers.len() ==> #[trigger] self@.controllers[j]
                        == pre.controllers[j],
            decreases self.controllers.len() - i,
        {
            let ghost pre_vec = self.controllers@;
            let ghost pre_cs = self@.controllers;
            proof {
                assert(pre_cs[i as int] == pre_vec[i as int].deep_view());
            }
            let mut c = self.controllers.remove(i);
            proof {
                assert(c.deep_view() == pre.controllers[i as int]);
            }
            c.process_disconnected();
            let ghost cv = c@;
            self.controllers.insert(i, c);
            proof {
                assert(self.controllers@ =~= pre_vec.update(
                    i as int,
                    self.controllers@[i as int],
                ));
                assert(cv == spec_disconnected(pre.controllers[i as int]));
                assert forall|j: int|
                    0 <= j < pre_cs.len() implies #[trigger] self@.controllers[j] == (
                if j == i as int {
                    cv
                } else {
                    pre_cs[j]
                }) by {
                    assert(self@.controllers[j] == self.controllers@[j].deep_view());
                    if j != i as int {
                        assert(self.controllers@[j] == pre_vec[j]);
                        assert(pre_cs[j] == pre_vec[j].deep_view());
                    }
                }
            }
            i += 1;
        }
        proof {
            assert(self@.controllers =~= pre.controllers.map_values(
                |c: ControllerView| spec_disconnected(c),
            ));
            assert(final(self)@ =~= spec_handle_disconnect(pre).0);
            lemma_wf_page_bound(pre, pre.page_num as int);
        }
        update_displays(out, &self.controllers, self.page_num);
        proof {
            assert(final(out).deep_view() =~= old(out).deep_view() + spec_handle_disconnect(
                pre,
            ).1);
        }
    }

    /// Physical slot press: see [`spec_handle_press_physical`].
    fn handle_press_physical(&mut self, slot: usize, out: &mut Vec<Output>)
        requires
            spec_loop_wf(old(self)@),
        ensures
            final(self)@ == spec_handle_press_physical(old(self)@, slot as int).0,
            final(out).deep_view() == old(out).deep_view() + spec_handle_press_physical(
                old(self)@,
                slot as int,
            ).1,
    {
        let ghost pre = self@;
        if self.status.display_on {
            proof {
                lemma_wf_page_bound(pre, pre.page_num as int);
            }
            let base = self.page_num * NUM_CONTROLLERS_PER_PAGE;
            if slot <= usize::MAX - base {
                let id = base + slot;
                button_press(out, &self.controllers, id);
            } else {
                proof {
                    assert(pre.page_num as int * (NUM_CONTROLLERS_PER_PAGE as int) + slot as int
                        > usize::MAX);
                    assert(spec_button_press_out(
                        pre.controllers,
                        pre.page_num as int * (NUM_CONTROLLERS_PER_PAGE as int) + slot as int,
                    ) =~= Seq::<OutputView>::empty());
                }
            }
            push_out(out, Output::Display(DisplayCommand::ButtonPressed(slot)));
        }
        self.register_activity(out);
        proof {
            assert(final(out).deep_view() =~= old(out).deep_view() + spec_handle_press_physical(
                pre,
                slot as int,
            ).1);
        }
    }

    /// Controller-wired press: see [`spec_handle_press_controller`].
    fn handle_press_controller(&mut self, id: usize, out: &mut Vec<Output>)
        requires
            spec_loop_wf(old(self)@),
        ensures
            final(self)@ == spec_handle_press_controller(old(self)@, id as int).0,
            final(out).deep_view() == old(out).deep_view() + spec_handle_press_controller(
                old(self)@,
                id as int,
            ).1,
    {
        let ghost pre = self@;
        button_press(out, &self.controllers, id);
        let page_slot = controller_to_page_id(id);
        if page_slot.0 == self.page_num {
            push_out(out, Output::Display(DisplayCommand::ButtonPressed(page_slot.1)));
        }
        self.register_activity(out);
        proof {
            assert(final(out).deep_view() =~= old(out).deep_view() + spec_handle_press_controller(
                pre,
                id as int,
            ).1);
        }
    }

    /// Page navigation press: see [`spec_handle_page`].
    fn handle_page(&mut self, up: bool, out: &mut Vec<Output>)
        requires
            spec_loop_wf(old(self)@),
        ensures
            final(self)@ == spec_handle_page(old(self)@, up).0,
            final(out).deep_view() == old(out).deep_view() + spec_handle_page(old(self)@, up).1,
    {
        let ghost pre = self@;
        if up {
            if self.page_num < self.last_page {
                self.page_num = self.page_num + 1;
            }
        } else {
            if self.page_num > 0 {
                self.page_num = self.page_num - 1;
            }
        }
        proof {
            assert(self@.page_num == spec_next_page(pre, up));
            lemma_wf_page_bound(pre, self@.page_num as int);
        }
        push_out(out, Output::Display(DisplayCommand::ShowPage(self.page_num)));
        update_displays(out, &self.controllers, self.page_num);
        self.register_activity(out);
        proof {
            assert(final(self)@ =~= spec_handle_page(pre, up).0);
            assert(final(out).deep_view() =~= old(out).deep_view() + spec_handle_page(
                pre,
                up,
            ).1);
        }
    }

    /// Controller-wired release: see [`spec_handle_release_controller`].
    fn handle_release_controller(&mut self, id: usize, out: &mut Vec<Output>)
        ensures
            final(self)@ == spec_handle_release_controller(old(self)@, id as int).0,
            final(out).deep_view() == old(out).deep_view() + spec_handle_release_controller(
                old(self)@,
                id as int,
            ).1,
    {
        let ghost pre = self@;
        let page_slot = controller_to_page_id(id);
        if page_slot.0 == self.page_num {
            push_out(out, Output::Display(DisplayCommand::ButtonReleased(page_slot.1)));
        }
        self.register_activity(out);
        proof {
            assert(final(out).deep_view() =~= old(out).deep_view()
                + spec_handle_release_controller(pre, id as int).1);
        }
    }
}

} // verus!
