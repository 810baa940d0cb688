//! Commands sent to the display session.
//!
//! The core never draws; it tells the renderer what each slot shows, which
//! page is visible, and when to blank or unblank, and the renderer owns the
//! rest.

use vstd::prelude::*;

use crate::controllers::{DisplayState, Icon};

verus! {

/// One instruction to the display session.
pub enum DisplayCommand {
    /// The renderer has started.
    Started,
    /// Show `state` with `icon` and `name` in the given slot.
    DisplayState(DisplayState, Icon, usize, String),
    /// Show the given slot as holding no controller.
    DisplayNone(usize),
    BlankAll,
    UnBlankAll,
    ShowPage(usize),
    ButtonPressed(usize),
    ButtonReleased(usize),
}

/// Mathematical value of a [`DisplayCommand`].
pub enum DisplayCommandView {
    Started,
    DisplayState(DisplayState, Icon, usize, Seq<char>),
    DisplayNone(usize),
    BlankAll,
    UnBlankAll,
    ShowPage(usize),
    ButtonPressed(usize),
    ButtonReleased(usize),
}

impl View for DisplayCommand {
    type V = DisplayCommandView;

    open spec fn view(&self) -> DisplayCommandView {
        match self {
            DisplayCommand::Started => DisplayCommandView::Started,
            DisplayCommand::DisplayState(s, i, slot, name) => DisplayCommandView::DisplayState(
                *s,
                *i,
                *slot,
                name@,
            ),
            DisplayCommand::DisplayNone(slot) => DisplayCommandView::DisplayNone(*slot),
            DisplayCommand::BlankAll => DisplayCommandView::BlankAll,
            DisplayCommand::UnBlankAll => DisplayCommandView::UnBlankAll,
            DisplayCommand::ShowPage(p) => DisplayCommandView::ShowPage(*p),
            DisplayCommand::ButtonPressed(slot) => DisplayCommandView::ButtonPressed(*slot),
            DisplayCommand::ButtonReleased(slot) => DisplayCommandView::ButtonReleased(*slot),
        }
    }
}

impl DeepView for DisplayCommand {
    type V = DisplayCommandView;

    open spec fn deep_view(&self) -> DisplayCommandView {
        self.view()
    }
}

} // verus!
