//! Mapping between the flat controller list and display pages.
//!
//! Controllers live in one ordered sequence; a fixed page size partitions it
//! into pages of slots.  Slots past the last controller on the final page
//! render as "none".

use vstd::prelude::*;
use vstd::arithmetic::div_mod::lemma_fundamental_div_mod;

verus! {

/// How many controller slots one display page holds.
pub const NUM_CONTROLLERS_PER_PAGE: usize = 2;

/// The page a controller index lives on.
pub open spec fn spec_page_of(controller_id: int) -> int {
    controller_id / (NUM_CONTROLLERS_PER_PAGE as int)
}

/// The slot inside its page a controller index lives at.
pub open spec fn spec_slot_of(controller_id: int) -> int {
    controller_id % (NUM_CONTROLLERS_PER_PAGE as int)
}

/// How many pages a list of `len` controllers fills: the last page may be
/// only partly filled.
pub open spec fn spec_num_pages(len: int) -> int {
    len / (NUM_CONTROLLERS_PER_PAGE as int) + if len % (NUM_CONTROLLERS_PER_PAGE as int) != 0 {
        1int
    } else {
        0int
    }
}

/// Splits a controller index into its page and slot.
pub fn controller_to_page_id(controller_id: usize) -> (r: (usize, usize))
    ensures
        r.0 == spec_page_of(controller_id as int),
        r.1 == spec_slot_of(controller_id as int),
{
    let page_num = controller_id / NUM_CONTROLLERS_PER_PAGE;
    let id_in_page = controller_id % NUM_CONTROLLERS_PER_PAGE;
    (page_num, id_in_page)
}

/// Rebuilds a controller index from a page and a slot.
pub fn page_to_controller_id(page_num: usize, id_in_page: usize) -> (r: usize)
    requires
        page_num * NUM_CONTROLLERS_PER_PAGE + id_in_page <= usize::MAX,
    ensures
        r == page_num * NUM_CONTROLLERS_PER_PAGE + id_in_page,
{
    page_num * NUM_CONTROLLERS_PER_PAGE + id_in_page
}

/// Page/slot bijection: splitting a controller index and rebuilding it gives
/// the index back, for every index.
pub proof fn lemma_page_slot_bijection(controller_id: int)
    requires
        controller_id >= 0,
    ensures
        spec_page_of(controller_id) * (NUM_CONTROLLERS_PER_PAGE as int) + spec_slot_of(
            controller_id,
        ) == controller_id,
        0 <= spec_slot_of(controller_id) < NUM_CONTROLLERS_PER_PAGE,
        0 <= spec_page_of(controller_id) <= controller_id,
{
    lemma_fundamental_div_mod(controller_id, NUM_CONTROLLERS_PER_PAGE as int);
}

/// First (inclusive) and one-past-last controller index of a page, ignoring
/// how many controllers exist.
pub fn get_controller_range_for_page(page: usize) -> (r: (usize, usize))
    requires
        page * NUM_CONTROLLERS_PER_PAGE + NUM_CONTROLLERS_PER_PAGE <= usize::MAX,
    ensures
        r.0 == page * NUM_CONTROLLERS_PER_PAGE,
        r.1 == page * NUM_CONTROLLERS_PER_PAGE + NUM_CONTROLLERS_PER_PAGE,
{
    let start = page * NUM_CONTROLLERS_PER_PAGE;
    let end = start + NUM_CONTROLLERS_PER_PAGE;
    (start, end)
}

/// How many pages `len` controllers fill.
pub fn get_num_pages(len: usize) -> (r: usize)
    ensures
        r == spec_num_pages(len as int),
{
    let num = NUM_CONTROLLERS_PER_PAGE;
    len / num + if len % num != 0 {
        1
    } else {
        0
    }
}

} // verus!
