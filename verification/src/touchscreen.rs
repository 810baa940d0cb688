//! Mapping touch-panel points to buttons.
//!
//! The touch panel reports points in its own portrait orientation; they are
//! rotated into display coordinates, hit-tested against the configured
//! button areas, and turned into press/release events by comparing what is
//! touched now with what was touched before.

use vstd::prelude::*;

use crate::button::ButtonId;

verus! {

/// A touch point in panel or display coordinates.
#[derive(Copy, Clone, Debug, PartialEq, Eq, Structural)]
pub struct TouchPoint {
    pub x: u16,
    pub y: u16,
}

/// One button's rectangle on the display, with the id it produces.
/// The rectangle spans `width` by `height` pixels from the top-left corner.
#[derive(Copy, Clone, Debug, PartialEq, Eq, Structural)]
pub struct ButtonArea {
    pub left: i32,
    pub top: i32,
    pub width: u32,
    pub height: u32,
    pub id: ButtonId,
}

/// Rotates a panel point into display coordinates: the panel's y runs along
/// the display's x, and the panel's x runs against the display's y on a
/// 320-pixel-high display (clamped at zero).
pub open spec fn spec_translate(p: TouchPoint) -> TouchPoint {
    TouchPoint { x: p.y, y: if p.x > 320 { 0u16 } else { (320 - p.x) as u16 } }
}

/// Executable twin of [`spec_translate`].
pub fn translate(p: TouchPoint) -> (r: TouchPoint)
    ensures
        r == spec_translate(p),
{
    TouchPoint { x: p.y, y: if p.x > 320 { 0 } else { 320 - p.x } }
}

/// Whether a point falls inside a button area.  The bottom-right corner is
/// the last pixel of the rectangle, and the test excludes it, mirroring a
/// hit test against an inclusive corner with a strict comparison.
pub open spec fn spec_area_contains(b: ButtonArea, p: TouchPoint) -> bool {
    &&& b.left <= (p.x as int)
    &&& (p.x as int) < b.left + b.width - 1
    &&& b.top <= (p.y as int)
    &&& (p.y as int) < b.top + b.height - 1
}

/// The first configured area containing the point, if any.
pub open spec fn spec_button_hit(areas: Seq<ButtonArea>, p: TouchPoint) -> Option<ButtonId> {
    if exists|i: int| 0 <= i < areas.len() && spec_area_contains(areas[i], p) {
        let i = choose|i: int|
            0 <= i < areas.len() && spec_area_contains(#[trigger] areas[i], p) && forall|j: int|
                0 <= j < i ==> !spec_area_contains(#[trigger] areas[j], p);
        Some(areas[i].id)
    } else {
        None
    }
}

/// Finds the first button area containing `p`.
pub fn get_button_for_point(areas: &Vec<ButtonArea>, p: TouchPoint) -> (r: Option<ButtonId>)
    ensures
        r == spec_button_hit(areas@, p),
{
    let mut i: usize = 0;
    while i < areas.len()
        invariant
            i <= areas.len(),
            forall|j: int| 0 <= j < i ==> !spec_area_contains(#[trigger] areas@[j], p),
        decreases areas.len() - i,
    {
        let b = areas[i];
        let x = p.x as i64;
        let y = p.y as i64;
        if b.left as i64 <= x && x < b.left as i64 + b.width as i64 - 1 && b.top as i64 <= y && y
            < b.top as i64 + b.height as i64 - 1 {
            proof {
                assert(spec_area_contains(areas@[i as int], p));
                let w = choose|w: int|
                    0 <= w < areas@.len() && spec_area_contains(#[trigger] areas@[w], p)
                        && forall|j: int| 0 <= j < w ==> !spec_area_contains(
                        #[trigger] areas@[j],
                        p,
                    );
                assert(spec_area_contains(areas@[i as int], p) && forall|j: int|
                    0 <= j < i as int ==> !spec_area_contains(#[trigger] areas@[j], p));
                if w != i as int {
                    if w < i as int {
                        assert(!spec_area_contains(areas@[w], p));
                    } else {
                        assert(!spec_area_contains(areas@[i as int], p));
                    }
                }
            }
            return Some(b.id);
        }
        i += 1;
    }
    None
}

/// What is touched now, as a button id: the hit area's id, a marker for a
/// touch outside every area, or nothing when nothing is touched.
pub open spec fn spec_touched_button(
    areas: Seq<ButtonArea>,
    p: Option<TouchPoint>,
) -> Option<ButtonId> {
    match p {
        None => None,
        Some(point) => match spec_button_hit(areas, spec_translate(point)) {
            Some(id) => Some(id),
            None => Some(ButtonId::NotAButton),
        },
    }
}

/// Maps one poll of the touch panel to the button it touches, if any.
pub fn touched_button(areas: &Vec<ButtonArea>, p: Option<TouchPoint>) -> (r: Option<ButtonId>)
    ensures
        r == spec_touched_button(areas@, p),
{
    match p {
        None => None,
        Some(point) => {
            let translated = translate(point);
            match get_button_for_point(areas, translated) {
                Some(id) => Some(id),
                None => Some(ButtonId::NotAButton),
            }
        },
    }
}

/// The release and press to emit when the touched button changes: nothing
/// while the same button (or none) stays touched, a release when a button is
/// left, a press when one is entered, and both on a direct change.
pub open spec fn spec_touch_transition(
    pressed: Option<ButtonId>,
    current: Option<ButtonId>,
) -> (Option<ButtonId>, Option<ButtonId>) {
    match (pressed, current) {
        (None, None) => (None, None),
        (None, Some(c)) => (None, Some(c)),
        (Some(p), None) => (Some(p), None),
        (Some(p), Some(c)) => if p == c {
            (None, None)
        } else {
            (Some(p), Some(c))
        },
    }
}

/// Executable twin of [`spec_touch_transition`]: returns (release, press).
pub fn touch_transition(pressed: Option<ButtonId>, current: Option<ButtonId>) -> (r: (
    Option<ButtonId>,
    Option<ButtonId>,
))
    ensures
        r == spec_touch_transition(pressed, current),
{
    match (pressed, current) {
        (None, None) => (None, None),
        (None, Some(c)) => (None, Some(c)),
        (Some(p), None) => (Some(p), None),
        (Some(p), Some(c)) => if p == c {
            (None, None)
        } else {
            (Some(p), Some(c))
        },
    }
}

} // verus!
