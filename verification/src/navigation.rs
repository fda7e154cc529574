//! Cursor and scroll arithmetic shared by every list on screen: the menu
//! items, the selectors, the research dialog, the work and command pickers
//! and the two-column production picker.
use vstd::prelude::*;
use vstd::arithmetic::div_mod::{lemma_add_mod_noop, lemma_mod_add_multiples_vanish, lemma_mod_self_0, lemma_small_mod};

verus! {

/// The entry after `selected` in a cyclic list of `total` entries.
pub open spec fn next_index(selected: int, total: int) -> int {
    (selected + 1) % total
}

/// The entry before `selected` in a cyclic list of `total` entries.
pub open spec fn prev_index(selected: int, total: int) -> int {
    (selected + total - 1) % total
}

/// Step forward through a cyclic list, wrapping from the last entry to the
/// first.
pub fn advance(selected: usize, total: usize) -> (next: usize)
    requires
        total > 0,
    ensures
        next == next_index(selected as int, total as int),
        next < total,
{
    let at = selected % total;
    proof {
        lemma_add_mod_noop(selected as int, 1, total as int);
        if total == 1 {
            lemma_small_mod(0, 1);
        } else {
            lemma_small_mod(1, total as nat);
        }
        if at + 1 < total {
            lemma_small_mod((at + 1) as nat, total as nat);
        } else {
            lemma_mod_self_0(total as int);
        }
    }
    if at + 1 == total {
        0
    } else {
        at + 1
    }
}

/// Step backward through a cyclic list, wrapping from the first entry to the
/// last.
pub fn retreat(selected: usize, total: usize) -> (prev: usize)
    requires
        total > 0,
    ensures
        prev == prev_index(selected as int, total as int),
        prev < total,
{
    let at = selected % total;
    proof {
        lemma_add_mod_noop(selected as int, total - 1, total as int);
        lemma_small_mod((total - 1) as nat, total as nat);
        if at == 0 {
            lemma_small_mod((total - 1) as nat, total as nat);
        } else {
            lemma_mod_add_multiples_vanish(at - 1, total as int);
            lemma_small_mod((at - 1) as nat, total as nat);
        }
    }
    if at == 0 {
        total - 1
    } else {
        at - 1
    }
}

/// Stepping back undoes a step forward, for every entry of the list.
pub proof fn lemma_retreat_undoes_advance(selected: int, total: int)
    requires
        0 <= selected < total,
    ensures
        prev_index(next_index(selected, total), total) == selected,
{
    if selected + 1 == total {
        lemma_mod_self_0(total);
        lemma_small_mod((total - 1) as nat, total as nat);
    } else {
        lemma_small_mod((selected + 1) as nat, total as nat);
        lemma_small_mod(selected as nat, total as nat);
        lemma_mod_add_multiples_vanish(selected, total);
    }
}

/// Stepping forward undoes a step back, for every entry of the list.
pub proof fn lemma_advance_undoes_retreat(selected: int, total: int)
    requires
        0 <= selected < total,
    ensures
        next_index(prev_index(selected, total), total) == selected,
{
    if selected == 0 {
        lemma_small_mod((total - 1) as nat, total as nat);
        lemma_mod_self_0(total);
    } else {
        lemma_mod_add_multiples_vanish(selected - 1, total);
        lemma_small_mod((selected - 1) as nat, total as nat);
        lemma_small_mod(selected as nat, total as nat);
    }
}

/// How far a list of `len` rows can scroll when `visible` rows fit on screen.
pub open spec fn max_offset(len: int, visible: int) -> int {
    if len > visible {
        len - visible
    } else {
        0
    }
}

/// The first row a list drawn from `scroll` shows: the scroll offset, held
/// back so the last row never rises above the bottom of the window.
pub fn list_offset(scroll: usize, len: usize, visible: usize) -> (offset: usize)
    ensures
        offset == (if scroll < max_offset(len as int, visible as int) {
            scroll as int
        } else {
            max_offset(len as int, visible as int)
        }),
{
    let max_off = len.saturating_sub(visible);
    if scroll < max_off {
        scroll
    } else {
        max_off
    }
}

/// The smallest scroll offset that still shows row `cursor`.
pub open spec fn view_lo(cursor: int, visible: int) -> int {
    if cursor + 1 > visible {
        cursor + 1 - visible
    } else {
        0
    }
}

/// The largest scroll offset that still shows row `cursor` without scrolling
/// past the end of the list.
pub open spec fn view_hi(cursor: int, len: int, visible: int) -> int {
    if cursor < max_offset(len, visible) {
        cursor
    } else {
        max_offset(len, visible)
    }
}

/// `value` limited to the range `lo..=hi`.
pub open spec fn clamp_to(value: int, lo: int, hi: int) -> int {
    if value < lo {
        lo
    } else if value > hi {
        hi
    } else {
        value
    }
}

/// The scroll offset nearest to `scroll` that keeps row `cursor` of a
/// `len`-row list on screen when `visible` rows fit.
pub open spec fn scroll_showing(scroll: int, cursor: int, len: int, visible: int) -> int {
    clamp_to(scroll, view_lo(cursor, visible), view_hi(cursor, len, visible))
}

/// Move the scroll offset as little as possible so row `cursor` stays inside
/// the scrolled window.
pub fn keep_in_view(scroll: usize, cursor: usize, len: usize, visible: usize) -> (shown: usize)
    requires
        view_lo(cursor as int, visible as int) <= view_hi(cursor as int, len as int, visible as int),
        cursor < isize::MAX,
        visible <= isize::MAX,
    ensures
        shown == scroll_showing(scroll as int, cursor as int, len as int, visible as int),
{
    let max_off = if len > visible {
        len - visible
    } else {
        0
    };
    let lo = if cursor + 1 > visible {
        cursor + 1 - visible
    } else {
        0
    };
    let hi = if cursor < max_off {
        cursor
    } else {
        max_off
    };
    if scroll < lo {
        lo
    } else if scroll > hi {
        hi
    } else {
        scroll
    }
}

/// For a cursor on a row of the list and a window of at least one row, the
/// kept scroll offset exists, shows the cursor, never scrolls past the end of
/// the list, and leaves an offset that already showed the cursor unchanged.
pub proof fn lemma_keep_in_view_shows_cursor(scroll: int, cursor: int, len: int, visible: int)
    requires
        0 <= cursor < len,
        0 < visible,
        0 <= scroll,
    ensures
        view_lo(cursor, visible) <= view_hi(cursor, len, visible),
        ({
            let shown = scroll_showing(scroll, cursor, len, visible);
            &&& 0 <= shown <= cursor < shown + visible
            &&& shown <= max_offset(len, visible)
            &&& (view_lo(cursor, visible) <= scroll <= view_hi(cursor, len, visible) ==> shown
                == scroll)
        }),
{
}

/// Keeping the cursor in view twice is the same as doing it once.
pub proof fn lemma_keep_in_view_idempotent(scroll: int, cursor: int, len: int, visible: int)
    requires
        view_lo(cursor, visible) <= view_hi(cursor, len, visible),
    ensures
        scroll_showing(scroll_showing(scroll, cursor, len, visible), cursor, len, visible)
            == scroll_showing(scroll, cursor, len, visible),
{
}

/// A list cursor is on a row of the list, or at the top of an empty list.
pub open spec fn cursor_ok(cursor: int, len: int) -> bool {
    cursor < len || cursor == 0
}

/// The row a cursor lands on after one step up (`delta <= 0`) or down
/// (`delta > 0`) through a cyclic list; an empty list keeps the cursor.
pub open spec fn stepped(cursor: int, len: int, delta: int) -> int {
    if len == 0 {
        cursor
    } else if delta > 0 {
        next_index(cursor, len)
    } else {
        prev_index(cursor, len)
    }
}

/// Move a list cursor one row up or down, wrapping at both ends, and scroll
/// just enough to keep it on screen. An empty list leaves cursor and scroll
/// alone.
pub fn step_cursor(cursor: usize, scroll: usize, len: usize, delta: isize, visible: usize) -> (res: (
    usize,
    usize,
))
    requires
        cursor_ok(cursor as int, len as int),
        0 < visible <= isize::MAX,
        len < isize::MAX,
    ensures
        len == 0 ==> res == (cursor, scroll),
        len > 0 ==> res.0 == stepped(cursor as int, len as int, delta as int) && res.1
            == scroll_showing(scroll as int, res.0 as int, len as int, visible as int),
        cursor_ok(res.0 as int, len as int),
{
    if len == 0 {
        return (cursor, scroll);
    }
    let next = if delta > 0 {
        advance(cursor, len)
    } else {
        retreat(cursor, len)
    };
    proof {
        lemma_keep_in_view_shows_cursor(scroll as int, next as int, len as int, visible as int);
    }
    (next, keep_in_view(scroll, next, len, visible))
}

/// Jump a list cursor to row `choice` when the list has such a row, then
/// scroll just enough to keep the cursor on screen.
pub fn jump_cursor(cursor: usize, scroll: usize, len: usize, choice: usize, visible: usize) -> (res: (
    usize,
    usize,
))
    requires
        cursor_ok(cursor as int, len as int),
        0 < visible <= isize::MAX,
        len < isize::MAX,
    ensures
        res.0 == (if choice < len {
            choice
        } else {
            cursor
        }),
        res.1 == scroll_showing(scroll as int, res.0 as int, len as int, visible as int),
        cursor_ok(res.0 as int, len as int),
{
    let target = if choice < len {
        choice
    } else {
        cursor
    };
    (target, keep_in_view(scroll, target, len, visible))
}

/// Scroll a list by `delta` rows, never before its first row nor past the
/// point where its last row reaches the bottom of the window.
pub fn scroll_by(scroll: usize, len: usize, delta: isize, visible: usize) -> (shown: usize)
    requires
        scroll <= isize::MAX,
        len <= isize::MAX,
        isize::MIN <= scroll + delta <= isize::MAX,
    ensures
        shown == clamp_to(scroll + delta, 0, max_offset(len as int, visible as int)),
{
    let base = scroll as isize + delta;
    let max_off = if len > visible {
        len - visible
    } else {
        0
    };
    if base < 0 {
        0
    } else if base as usize > max_off {
        max_off
    } else {
        base as usize
    }
}

/// The two-column production picker's cursor: the focused list (0 units,
/// 1 improvements), the row within it, and the shared scroll offset.
#[derive(Clone, Copy, Debug, PartialEq, Eq, Structural)]
pub struct PickerCursor {
    pub column: usize,
    pub row: usize,
    pub scroll: usize,
}

/// The length of the list the picker cursor is focused on.
pub open spec fn column_len(column: int, units_len: int, improvements_len: int) -> int {
    if column == 0 {
        units_len
    } else {
        improvements_len
    }
}

/// The column the picker cursor focuses after a sideways step: right from
/// the units moves to a non-empty improvements list, left from the
/// improvements moves to a non-empty units list, anything else stays put.
pub open spec fn sideways(column: int, dx: int, units_len: int, improvements_len: int) -> int {
    if column == 0 && dx == 1 && improvements_len > 0 {
        1
    } else if column == 1 && dx == -1 && units_len > 0 {
        0
    } else {
        column
    }
}

/// The larger of two list lengths.
pub open spec fn longer(a: int, b: int) -> int {
    if a >= b {
        a
    } else {
        b
    }
}

/// Whether a picker move on these inputs stays inside machine integers.
pub open spec fn picker_move_fits(cursor: PickerCursor, dy: int, units_len: int, improvements_len: int) -> bool {
    let len = column_len(cursor.column as int, units_len, improvements_len);
    &&& cursor.row < isize::MAX
    &&& (dy > 0 ==> cursor.row < usize::MAX)
    &&& cursor.row + len <= usize::MAX
}

/// The picker cursor after a move of `dx` columns or `dy` rows.
pub open spec fn picker_moved(
    cursor: PickerCursor,
    dx: int,
    dy: int,
    units_len: int,
    improvements_len: int,
    visible: int,
) -> PickerCursor {
    let start_len = column_len(cursor.column as int, units_len, improvements_len);
    if dx == 0 && start_len == 0 {
        cursor
    } else {
        let column = if dx != 0 {
            sideways(cursor.column as int, dx, units_len, improvements_len)
        } else {
            cursor.column as int
        };
        let raw_row = if dx != 0 {
            cursor.row as int
        } else {
            stepped(cursor.row as int, start_len, dy)
        };
        let len = column_len(column, units_len, improvements_len);
        let row = if len == 0 {
            0
        } else if raw_row < len - 1 {
            raw_row
        } else {
            len - 1
        };
        let scroll = scroll_showing(cursor.scroll as int, row, longer(units_len, improvements_len), visible);
        PickerCursor { column: column as usize, row: row as usize, scroll: scroll as usize }
    }
}

/// Move the production picker's cursor: `dx` switches between the two
/// lists, `dy` walks the focused list (wrapping at both ends), and the shared
/// scroll follows so the cursor stays on screen.
#[verifier::rlimit(40)]
pub fn move_picker_cursor(
    cursor: PickerCursor,
    dx: isize,
    dy: isize,
    units_len: usize,
    improvements_len: usize,
    visible: usize,
) -> (moved: PickerCursor)
    requires
        0 < visible <= isize::MAX,
        units_len <= isize::MAX,
        improvements_len <= isize::MAX,
        picker_move_fits(cursor, dy as int, units_len as int, improvements_len as int),
    ensures
        moved == picker_moved(cursor, dx as int, dy as int, units_len as int, improvements_len as int, visible as int),
{
    let mut column = cursor.column;
    let mut row = cursor.row;
    if dx != 0 {
        if column == 0 && dx == 1 && improvements_len > 0 {
            column = 1;
        } else if column == 1 && dx == -1 && units_len > 0 {
            column = 0;
        }
    } else {
        let len = if column == 0 {
            units_len
        } else {
            improvements_len
        };
        if len == 0 {
            return cursor;
        }
        row = if dy > 0 {
            advance(row, len)
        } else {
            retreat(row, len)
        };
    }
    let len = if column == 0 {
        units_len
    } else {
        improvements_len
    };
    let last = if len > 0 {
        len - 1
    } else {
        0
    };
    if row > last {
        row = last;
    }
    let max_len = if units_len >= improvements_len {
        units_len
    } else {
        improvements_len
    };
    proof {
        if len > 0 {
            lemma_keep_in_view_shows_cursor(cursor.scroll as int, row as int, max_len as int, visible as int);
        }
    }
    assert(row < isize::MAX);
    let scroll = keep_in_view(cursor.scroll, row, max_len, visible);
    PickerCursor { column, row, scroll }
}

/// After any picker move the cursor sits on a row of its list (or at the top
/// of an empty one) and that row is on screen.
pub proof fn lemma_picker_cursor_stays_valid(
    cursor: PickerCursor,
    dx: int,
    dy: int,
    units_len: int,
    improvements_len: int,
    visible: int,
)
    requires
        0 < visible,
        0 <= units_len <= usize::MAX,
        0 <= improvements_len <= usize::MAX,
        cursor.row < column_len(cursor.column as int, units_len, improvements_len),
        cursor.scroll <= cursor.row < cursor.scroll + visible,
    ensures
        ({
            let moved = picker_moved(cursor, dx, dy, units_len, improvements_len, visible);
            let len = column_len(moved.column as int, units_len, improvements_len);
            &&& moved.row < len
            &&& moved.scroll <= moved.row < moved.scroll + visible
        }),
{
    let moved = picker_moved(cursor, dx, dy, units_len, improvements_len, visible);
    let start_len = column_len(cursor.column as int, units_len, improvements_len);
    if dx == 0 {
        if dy > 0 {
            assert(0 <= next_index(cursor.row as int, start_len) < start_len);
        } else {
            assert(0 <= prev_index(cursor.row as int, start_len) < start_len);
        }
    }
    let len = column_len(moved.column as int, units_len, improvements_len);
    assert(start_len > 0);
    assert(len > 0);
    lemma_keep_in_view_shows_cursor(cursor.scroll as int, moved.row as int, longer(units_len, improvements_len), visible);
}

/// With both lists non-empty, stepping right and then left returns the
/// cursor to the units list.
pub proof fn lemma_picker_right_then_left(cursor: PickerCursor, units_len: int, improvements_len: int, visible: int)
    requires
        cursor.column == 0,
        0 < units_len,
        0 < improvements_len,
        0 < visible,
    ensures
        picker_moved(picker_moved(cursor, 1, 0, units_len, improvements_len, visible), -1, 0, units_len, improvements_len, visible).column == 0,
        picker_moved(cursor, 1, 0, units_len, improvements_len, visible).column == 1,
{
}

} // verus!
