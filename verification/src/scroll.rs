//! The selection/scroll manager: keeps the selected row inside the page
//! and the viewport around the selected row.

use vstd::prelude::*;

verus! {

/// The selected row clamped into a page of `page_length` rows.
pub open spec fn spec_clamped_selected(selected: int, page_length: int) -> int {
    if page_length == 0 {
        0
    } else if selected < page_length {
        selected
    } else {
        page_length - 1
    }
}

/// Where the viewport starts after the adjustment: it moves up to the
/// selected row when that row sits above it, down just far enough when
/// that row sits below its last line, and stays put otherwise.
pub open spec fn spec_adjusted_scroll(scroll: int, selected: int, page_height: int) -> int {
    if selected < scroll {
        selected
    } else if selected >= scroll + page_height {
        selected + 1 - page_height
    } else {
        scroll
    }
}

/// Clamp the selected row into the page, then move the viewport the
/// smallest distance that restores `scroll <= selected < scroll +
/// page_height`.  Answers whether anything moved, which is what decides a
/// repaint when the identifier set itself did not change.
pub fn adjust_scroll(
    scroll: &mut usize,
    selected: &mut usize,
    page_height: usize,
    page_length: usize,
) -> (moved: bool)
    requires
        page_height >= 1,
    ensures
        *final(selected) == spec_clamped_selected(*old(selected) as int, page_length as int),
        page_length == 0 ==> *final(scroll) == 0,
        page_length > 0 ==> *final(scroll) == spec_adjusted_scroll(
            *old(scroll) as int,
            *final(selected) as int,
            page_height as int,
        ),
        *final(scroll) <= *final(selected),
        *final(selected) < *final(scroll) + page_height,
        moved == (*final(scroll) != *old(scroll) || *final(selected) != *old(selected)),
{
    let old_scroll: usize = *scroll;
    let old_selected: usize = *selected;
    if page_length == 0 {
        *selected = 0;
        *scroll = 0;
    } else {
        if *selected >= page_length {
            *selected = page_length - 1;
        }
        if *selected < *scroll {
            *scroll = *selected;
        } else if *selected - *scroll >= page_height {
            *scroll = *selected - (page_height - 1);
        }
    }
    *scroll != old_scroll || *selected != old_selected
}

} // verus!
