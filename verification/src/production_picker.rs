//! The panel floated over the city window that lists everything the city can
//! build: units on the left, improvements on the right, each sorted by cost
//! and then by name.
use vstd::prelude::*;

use crate::geometry::{
    bordered, button_at, button_rect, can_centre, centred, centred_rect, inner, inside_border,
    left_of, on_screen, sat_sub, within, Rect,
};
use crate::model::{target_cost, target_label, CityId, ProductionTarget};
use crate::pointer::{Pointer, PointerKind};
use crate::text::{
    decimal, decimal_string, lemma_lex_le_antisymmetric, lemma_lex_le_total,
    lemma_lex_le_transitive, lex_le, str_le,
};

verus! {

broadcast use vstd::seq_lib::to_multiset_insert;

/// The panel's ideal width before clamping to the window.
pub const PICKER_WIDTH: u16 = 52;

/// The panel's ideal height before clamping to the window.
pub const PICKER_HEIGHT: u16 = 20;

/// The panel never shrinks below this many cells either way.
pub const PICKER_MIN: u16 = 8;

/// The number of picker rows the panel shows at its ideal size.
pub const MAX_VISIBLE_ROWS: u16 = 14;

/// The width of each of the Cancel and Save buttons.
pub const BUTTON_WIDTH: u16 = 6;

/// The gap from the end of the Cancel button to the interior's right edge.
pub const CANCEL_GAP: u16 = 11;

/// The production picker: the city it belongs to, the cursor (column 0 for
/// units, 1 for improvements, and the row within that list) and the shared
/// scroll offset of the two lists.
#[derive(Clone, Copy, Debug, PartialEq, Eq, Structural)]
pub struct ProductionPicker {
    pub city_id: CityId,
    pub cursor_col: usize,
    pub cursor_row: usize,
    pub scroll: usize,
}

impl ProductionPicker {
    /// The picker over `city_id` with the cursor at `(cursor_col,
    /// cursor_row)` and the lists scrolled by `scroll` rows.
    pub fn new(city_id: CityId, cursor_col: usize, cursor_row: usize, scroll: usize) -> (picker:
        ProductionPicker)
        ensures
            picker == (ProductionPicker { city_id, cursor_col, cursor_row, scroll }),
    {
        ProductionPicker { city_id, cursor_col, cursor_row, scroll }
    }
}

/// The rectangle the picker panel occupies over `window`, centred across it.
pub fn picker_rect(window: Rect) -> (panel: Rect)
    requires
        can_centre(window, PICKER_WIDTH as int, PICKER_HEIGHT as int, PICKER_MIN as int),
    ensures
        panel == centred(window, PICKER_WIDTH as int, PICKER_HEIGHT as int, PICKER_MIN as int),
{
    centred_rect(window, PICKER_WIDTH, PICKER_HEIGHT, PICKER_MIN)
}

/// The rows shared by both lists: the header and the column titles sit above
/// them, the Cancel and Save buttons below.
pub open spec fn rows_area(panel: Rect) -> Rect {
    let interior = inside_border(panel);
    Rect {
        x: interior.x,
        y: (interior.y + 2) as u16,
        width: interior.width,
        height: sat_sub(interior.height as int, 4) as u16,
    }
}

/// The rows shared by both lists: the header and the column titles sit above
/// them, the Cancel and Save buttons below.
pub fn rows_rect(panel: Rect) -> (rows: Rect)
    requires
        bordered(panel),
        panel.y + 3 <= u16::MAX,
    ensures
        rows == rows_area(panel),
{
    let interior = inner(panel);
    Rect {
        x: interior.x,
        y: interior.y + 2,
        width: interior.width,
        height: interior.height.saturating_sub(4),
    }
}

/// The units list (left) and the improvements list (right): the rows split
/// in half with a one-cell rule between them.
pub open spec fn column_areas(panel: Rect) -> (Rect, Rect) {
    let rows = rows_area(panel);
    let half = rows.width / 2;
    (
        Rect { x: rows.x, y: rows.y, width: sat_sub(half as int, 1) as u16, height: rows.height },
        Rect {
            x: (rows.x + half + 1) as u16,
            y: rows.y,
            width: (rows.width - half - 1) as u16,
            height: rows.height,
        },
    )
}

/// The units list (left) and the improvements list (right): the rows split
/// in half with a one-cell rule between them.
pub fn column_rects(panel: Rect) -> (columns: (Rect, Rect))
    requires
        bordered(panel),
        panel.width >= 3,
        on_screen(panel),
        panel.y + 3 <= u16::MAX,
    ensures
        columns == column_areas(panel),
{
    let rows = rows_rect(panel);
    let half = rows.width / 2;
    let units = Rect { x: rows.x, y: rows.y, width: half.saturating_sub(1), height: rows.height };
    let improvements = Rect {
        x: rows.x + half + 1,
        y: rows.y,
        width: rows.width - half - 1,
        height: rows.height,
    };
    (units, improvements)
}

/// The two lists sit side by side inside the shared rows without touching.
pub proof fn lemma_columns_side_by_side(panel: Rect)
    requires
        bordered(panel),
        panel.width >= 3,
        on_screen(panel),
        panel.y + 3 <= u16::MAX,
    ensures
        left_of(column_areas(panel).0, column_areas(panel).1),
        within(column_areas(panel).0, rows_area(panel)),
        within(column_areas(panel).1, rows_area(panel)),
{
}

/// The Cancel button: six cells wide on the button row, seventeen cells in
/// from the interior's right edge.
pub fn cancel_button_rect(panel: Rect) -> (button: Rect)
    requires
        bordered(panel),
        panel.y + panel.height <= u16::MAX,
        inside_border(panel).right_edge() >= (BUTTON_WIDTH + CANCEL_GAP) as int,
    ensures
        button == button_at(panel, BUTTON_WIDTH as int, CANCEL_GAP as int),
        button.x == inside_border(panel).right_edge() - (BUTTON_WIDTH + CANCEL_GAP),
{
    button_rect(panel, BUTTON_WIDTH, CANCEL_GAP)
}

/// The Save button: six cells wide, flush with the interior's right edge.
pub fn save_button_rect(panel: Rect) -> (button: Rect)
    requires
        bordered(panel),
        panel.y + panel.height <= u16::MAX,
        inside_border(panel).right_edge() >= BUTTON_WIDTH as int,
    ensures
        button == button_at(panel, BUTTON_WIDTH as int, 0),
        button.x == inside_border(panel).right_edge() - BUTTON_WIDTH,
{
    button_rect(panel, BUTTON_WIDTH, 0)
}

/// On a panel wide enough for both, Cancel sits left of Save on the same row
/// and both lie inside the border.
pub proof fn lemma_picker_buttons_in_order(panel: Rect)
    requires
        bordered(panel),
        on_screen(panel),
        (BUTTON_WIDTH + CANCEL_GAP + 2) as int <= panel.width,
        3 <= panel.height,
    ensures
        left_of(
            button_at(panel, BUTTON_WIDTH as int, CANCEL_GAP as int),
            button_at(panel, BUTTON_WIDTH as int, 0),
        ),
        within(button_at(panel, BUTTON_WIDTH as int, CANCEL_GAP as int), inside_border(panel)),
        within(button_at(panel, BUTTON_WIDTH as int, 0), inside_border(panel)),
{
}

/// One row of a picker list: what it builds and its display name (the cost
/// is appended when the row is drawn).
#[derive(Clone, Debug)]
pub struct PickRow {
    pub target: ProductionTarget,
    pub label: String,
}

/// A row whose label is its target's display name.
pub open spec fn row_ok(row: PickRow) -> bool {
    row.label@ == target_label(row.target)
}

/// Every row's label is its target's display name.
pub open spec fn rows_ok(rows: Seq<PickRow>) -> bool {
    forall|i: int| 0 <= i < rows.len() ==> row_ok(#[trigger] rows[i])
}

/// What each row of a list builds, in order.
pub open spec fn targets(rows: Seq<PickRow>) -> Seq<ProductionTarget> {
    rows.map_values(|row: PickRow| row.target)
}

/// `a` sorts no later than `b`: it costs less, or costs the same and its
/// name comes first alphabetically.
pub open spec fn cost_then_name(a: ProductionTarget, b: ProductionTarget) -> bool {
    ||| target_cost(a) < target_cost(b)
    ||| target_cost(a) == target_cost(b) && lex_le(target_label(a), target_label(b))
}

/// A list in order of cost, then name.
pub open spec fn sorted_by_cost(list: Seq<ProductionTarget>) -> bool {
    forall|i: int, j: int| 0 <= i < j < list.len() ==> cost_then_name(#[trigger] list[i], #[trigger] list[j])
}

/// The unit targets among `choices`, in the order given.
pub open spec fn units_of(choices: Seq<ProductionTarget>) -> Seq<ProductionTarget>
    decreases choices.len(),
{
    if choices.len() == 0 {
        choices
    } else if choices.last() is Unit {
        units_of(choices.drop_last()).push(choices.last())
    } else {
        units_of(choices.drop_last())
    }
}

/// The improvement targets among `choices`, in the order given.
pub open spec fn improvements_of(choices: Seq<ProductionTarget>) -> Seq<ProductionTarget>
    decreases choices.len(),
{
    if choices.len() == 0 {
        choices
    } else if choices.last() is Improvement {
        improvements_of(choices.drop_last()).push(choices.last())
    } else {
        improvements_of(choices.drop_last())
    }
}

/// The cost-then-name order is transitive.
pub proof fn lemma_cost_then_name_transitive(a: ProductionTarget, b: ProductionTarget, c: ProductionTarget)
    requires
        cost_then_name(a, b),
        cost_then_name(b, c),
    ensures
        cost_then_name(a, c),
{
    if target_cost(a) == target_cost(b) && target_cost(b) == target_cost(c) {
        lemma_lex_le_transitive(target_label(a), target_label(b), target_label(c));
    }
}

/// Any two targets are ordered one way or the other.
pub proof fn lemma_cost_then_name_total(a: ProductionTarget, b: ProductionTarget)
    ensures
        cost_then_name(a, b) || cost_then_name(b, a),
{
    lemma_lex_le_total(target_label(a), target_label(b));
}

/// Two targets of the same kind ordered both ways are the same target: no two
/// units, nor two improvements, share a name.
pub proof fn lemma_cost_then_name_antisymmetric(a: ProductionTarget, b: ProductionTarget)
    requires
        cost_then_name(a, b),
        cost_then_name(b, a),
        (a is Unit) == (b is Unit),
    ensures
        a == b,
{
    lemma_lex_le_antisymmetric(target_label(a), target_label(b));
    reveal_strlit("Militia");
    reveal_strlit("Phalanx");
    reveal_strlit("Settler");
    reveal_strlit("Barracks");
    reveal_strlit("Marketplace");
    if a != b {
        assert(target_label(a)[0] != target_label(b)[0] || target_label(a).len()
            != target_label(b).len());
    }
}

/// Whether row `a` sorts no later than row `b`.
fn row_before(a: &PickRow, b: &PickRow) -> (before: bool)
    requires
        row_ok(*a),
        row_ok(*b),
    ensures
        before == cost_then_name(a.target, b.target),
{
    let cost_a = a.target.resource_cost();
    let cost_b = b.target.resource_cost();
    if cost_a != cost_b {
        cost_a < cost_b
    } else {
        str_le(a.label.as_str(), b.label.as_str())
    }
}

/// Insert `row` into a list kept in cost-then-name order, after any row that
/// sorts the same.
fn insert_sorted(rows: &mut Vec<PickRow>, row: PickRow)
    requires
        rows_ok(old(rows)@),
        sorted_by_cost(targets(old(rows)@)),
        row_ok(row),
    ensures
        rows_ok(final(rows)@),
        sorted_by_cost(targets(final(rows)@)),
        targets(final(rows)@).to_multiset() == targets(old(rows)@).to_multiset().insert(row.target),
{
    let mut pos = rows.len();
    while pos > 0 && !row_before(&rows[pos - 1], &row)
        invariant
            pos <= rows.len(),
            rows_ok(rows@),
            row_ok(row),
            forall|k: int| pos <= k < rows.len() ==> !cost_then_name(#[trigger] rows@[k].target, row.target),
        decreases pos,
    {
        pos = pos - 1;
    }
    proof {
        let old_targets = targets(rows@);
        assert forall|k: int| pos <= k < rows@.len() implies cost_then_name(row.target, #[trigger] old_targets[k]) by {
            lemma_cost_then_name_total(row.target, old_targets[k]);
        }
        if pos > 0 {
            assert forall|k: int| 0 <= k < pos implies cost_then_name(#[trigger] old_targets[k], row.target) by {
                if k < pos - 1 {
                    lemma_cost_then_name_transitive(old_targets[k], old_targets[pos - 1], row.target);
                }
            }
        }
    }
    let ghost before = rows@;
    let ghost target = row.target;
    rows.insert(pos, row);
    proof {
        assert(targets(rows@) =~= targets(before).insert(pos as int, target));
        let new_targets = targets(rows@);
        let old_targets = targets(before);
        assert forall|i: int, j: int| 0 <= i < j < new_targets.len() implies cost_then_name(
            #[trigger] new_targets[i],
            #[trigger] new_targets[j],
        ) by {
            if i < pos && j > pos {
                lemma_cost_then_name_transitive(old_targets[i], target, old_targets[j - 1]);
            }
        }
    }
}

/// Split the city's buildable targets into units and improvements, each
/// sorted by cost and then alphabetically by name.
pub fn pick_rows(choices: &Vec<ProductionTarget>) -> (rows: (Vec<PickRow>, Vec<PickRow>))
    ensures
        rows_ok(rows.0@),
        rows_ok(rows.1@),
        sorted_by_cost(targets(rows.0@)),
        sorted_by_cost(targets(rows.1@)),
        targets(rows.0@).to_multiset() == units_of(choices@).to_multiset(),
        targets(rows.1@).to_multiset() == improvements_of(choices@).to_multiset(),
{
    let mut units: Vec<PickRow> = Vec::new();
    let mut improvements: Vec<PickRow> = Vec::new();
    let mut i: usize = 0;
    proof {
        assert(choices@.take(0) =~= Seq::<ProductionTarget>::empty());
        assert(targets(units@) =~= Seq::<ProductionTarget>::empty());
    }
    while i < choices.len()
        invariant
            i <= choices.len(),
            rows_ok(units@),
            rows_ok(improvements@),
            sorted_by_cost(targets(units@)),
            sorted_by_cost(targets(improvements@)),
            targets(units@).to_multiset() == units_of(choices@.take(i as int)).to_multiset(),
            targets(improvements@).to_multiset() == improvements_of(choices@.take(i as int)).to_multiset(),
        decreases choices.len() - i,
    {
        let target = choices[i];
        let row = PickRow { target, label: String::from_str(target.label()) };
        proof {
            assert(choices@.take(i + 1).drop_last() =~= choices@.take(i as int));
            vstd::seq_lib::to_multiset_build(units_of(choices@.take(i as int)), target);
            vstd::seq_lib::to_multiset_build(improvements_of(choices@.take(i as int)), target);
        }
        match target {
            ProductionTarget::Unit(_) => insert_sorted(&mut units, row),
            ProductionTarget::Improvement(_) => insert_sorted(&mut improvements, row),
        }
        i = i + 1;
    }
    proof {
        assert(choices@.take(choices@.len() as int) =~= choices@);
    }
    (units, improvements)
}

/// Two lists in cost-then-name order holding the same targets of one kind
/// are the same list: the order leaves no choice.
pub proof fn lemma_sorted_lists_agree(a: Seq<ProductionTarget>, b: Seq<ProductionTarget>)
    requires
        sorted_by_cost(a),
        sorted_by_cost(b),
        a.to_multiset() == b.to_multiset(),
        forall|i: int| 0 <= i < a.len() ==> (#[trigger] a[i] is Unit) == (a[0] is Unit),
        forall|i: int| 0 <= i < b.len() ==> (#[trigger] b[i] is Unit) == (a[0] is Unit),
    ensures
        a == b,
    decreases a.len(),
{
    broadcast use vstd::seq_lib::group_to_multiset_ensures;

    assert(a.len() == a.to_multiset().len());
    assert(b.len() == b.to_multiset().len());
    if a.len() > 0 {
        let x = a[0];
        let y = b[0];
        assert(b.contains(y));
        assert(a.contains(x));
        vstd::seq_lib::to_multiset_contains(a, y);
        vstd::seq_lib::to_multiset_contains(b, y);
        vstd::seq_lib::to_multiset_contains(a, x);
        vstd::seq_lib::to_multiset_contains(b, x);
        lemma_cost_then_name_total(x, x);
        lemma_cost_then_name_total(y, y);
        let iy = choose|k: int| 0 <= k < a.len() && a[k] == y;
        let ix = choose|k: int| 0 <= k < b.len() && b[k] == x;
        if iy > 0 {
            assert(cost_then_name(a[0], a[iy]));
        }
        if ix > 0 {
            assert(cost_then_name(b[0], b[ix]));
        }
        lemma_cost_then_name_antisymmetric(x, y);
        assert(a.drop_first().to_multiset() == a.to_multiset().remove(x)) by {
            vstd::seq_lib::to_multiset_remove(a, 0);
            assert(a.remove(0) =~= a.drop_first());
        }
        assert(b.drop_first().to_multiset() == b.to_multiset().remove(y)) by {
            vstd::seq_lib::to_multiset_remove(b, 0);
            assert(b.remove(0) =~= b.drop_first());
        }
        if a.len() > 1 {
            assert(a.drop_first()[0] == a[1]);
        }
        lemma_sorted_lists_agree(a.drop_first(), b.drop_first());
        assert(a =~= seq![x] + a.drop_first());
        assert(b =~= seq![y] + b.drop_first());
    }
}

/// The longer of the two lists' lengths, for clamping scroll offsets.
pub fn list_len(rows: &(Vec<PickRow>, Vec<PickRow>)) -> (len: usize)
    ensures
        len == (if rows.0.len() >= rows.1.len() {
            rows.0.len()
        } else {
            rows.1.len()
        }),
{
    if rows.0.len() >= rows.1.len() {
        rows.0.len()
    } else {
        rows.1.len()
    }
}

/// The target at `(column, row)` of the picker lists, if there is one:
/// column 0 is the units list, any other column the improvements list.
pub fn target_at(rows: &(Vec<PickRow>, Vec<PickRow>), column: usize, row: usize) -> (target:
    Option<ProductionTarget>)
    ensures
        ({
            let list = if column == 0 {
                rows.0@
            } else {
                rows.1@
            };
            target == (if row < list.len() {
                Some(list[row as int].target)
            } else {
                None
            })
        }),
{
    let list = if column == 0 {
        &rows.0
    } else {
        &rows.1
    };
    if row < list.len() {
        Some(list[row].target)
    } else {
        None
    }
}

/// The text of a picker row: its name and, in brackets, its cost.
pub open spec fn row_text_of(row: PickRow) -> Seq<char> {
    row.label@ + " ("@ + decimal(target_cost(row.target) as nat) + ")"@
}

/// The text of a picker row: its name and, in brackets, its cost, as in
/// `Militia (10)`.
pub fn row_text(row: &PickRow) -> (text: String)
    ensures
        text@ == row_text_of(*row),
{
    let mut text = row.label.clone();
    text.append(" (");
    let cost = decimal_string(row.target.resource_cost() as u64);
    text.append(cost.as_str());
    text.append(")");
    text
}

/// What a mouse event does while the picker is open.
#[derive(Clone, Copy, Debug, PartialEq, Eq, Structural)]
pub enum PickerMouseAction {
    /// Scroll both lists to this offset.
    Scroll(usize),
    /// Close the picker without choosing.
    Close,
    /// Build what the cursor is on and close the picker.
    Save,
    /// Put the cursor on this row of this list (0 units, 1 improvements).
    Select(usize, usize),
    /// Swallow the event: clicks outside the picker never reach the map.
    Ignore,
}

/// The length of the list in `column` (0 units, otherwise improvements).
pub open spec fn list_in(column: int, units_len: int, improvements_len: int) -> int {
    if column == 0 {
        units_len
    } else {
        improvements_len
    }
}

/// What a mouse event does while the picker is open.
pub open spec fn picker_mouse_outcome(
    panel: Rect,
    event: Pointer,
    scroll: int,
    units_len: int,
    improvements_len: int,
    visible: int,
) -> PickerMouseAction {
    let longest = if units_len >= improvements_len {
        units_len
    } else {
        improvements_len
    };
    let (units_col, improvements_col) = column_areas(panel);
    let (x, y) = (event.column as int, event.row as int);
    match event.kind {
        PointerKind::ScrollUp => PickerMouseAction::Scroll(sat_sub(scroll, 1) as usize),
        PointerKind::ScrollDown => PickerMouseAction::Scroll(
            (if scroll + 1 <= sat_sub(longest, visible) {
                scroll + 1
            } else {
                sat_sub(longest, visible)
            }) as usize,
        ),
        PointerKind::LeftDown => if !event.placed() || !panel.holds(x, y) {
            PickerMouseAction::Ignore
        } else if button_at(panel, BUTTON_WIDTH as int, CANCEL_GAP as int).holds(x, y) {
            PickerMouseAction::Close
        } else if button_at(panel, BUTTON_WIDTH as int, 0).holds(x, y) {
            PickerMouseAction::Save
        } else if units_col.holds(x, y) || improvements_col.holds(x, y) {
            let column: int = if units_col.holds(x, y) {
                0
            } else {
                1
            };
            let row = sat_sub(y, units_col.y as int) + scroll;
            if row < list_in(column, units_len, improvements_len) {
                PickerMouseAction::Select(column as usize, row as usize)
            } else {
                PickerMouseAction::Ignore
            }
        } else {
            PickerMouseAction::Ignore
        },
        _ => PickerMouseAction::Ignore,
    }
}

/// On a picker wide enough for both buttons, a left press on the Save
/// button (and not on Cancel) saves, and the picker closes without saving
/// only on a left press on the Cancel button.
pub proof fn lemma_picker_buttons_act(
    panel: Rect,
    event: Pointer,
    scroll: int,
    units_len: int,
    improvements_len: int,
    visible: int,
)
    requires
        picker_panel_ok(panel),
        (BUTTON_WIDTH + CANCEL_GAP + 2) as int <= panel.width,
        3 <= panel.height,
    ensures
        event.kind == PointerKind::LeftDown && event.placed() && button_at(panel, BUTTON_WIDTH as int, 0).holds(
            event.column as int,
            event.row as int,
        ) && !button_at(panel, BUTTON_WIDTH as int, CANCEL_GAP as int).holds(event.column as int, event.row as int)
            ==> picker_mouse_outcome(panel, event, scroll, units_len, improvements_len, visible)
            == PickerMouseAction::Save,
        picker_mouse_outcome(panel, event, scroll, units_len, improvements_len, visible)
            == PickerMouseAction::Close ==> event.kind == PointerKind::LeftDown && event.placed() && button_at(
            panel,
            BUTTON_WIDTH as int,
            CANCEL_GAP as int,
        ).holds(event.column as int, event.row as int),
{
    lemma_picker_buttons_in_order(panel);
}

/// A picker panel the mouse handler can lay out: bordered, on screen, and
/// wide enough for its buttons.
pub open spec fn picker_panel_ok(panel: Rect) -> bool {
    &&& bordered(panel)
    &&& on_screen(panel)
    &&& panel.width >= 3
    &&& panel.y + 3 <= u16::MAX
    &&& inside_border(panel).right_edge() >= (BUTTON_WIDTH + CANCEL_GAP) as int
}

/// What a mouse event does while the picker is open: the wheel scrolls the
/// lists (never past the point where the longer one ends on screen), a left
/// press on Cancel or Save acts on that button, a press on a row of either
/// list moves the cursor there, and everything else is swallowed.
pub fn picker_mouse_action(
    panel: Rect,
    event: Pointer,
    scroll: usize,
    units_len: usize,
    improvements_len: usize,
    visible: usize,
) -> (action: PickerMouseAction)
    requires
        picker_panel_ok(panel),
        scroll < usize::MAX - u16::MAX,
    ensures
        action == picker_mouse_outcome(
            panel,
            event,
            scroll as int,
            units_len as int,
            improvements_len as int,
            visible as int,
        ),
{
    let longest = if units_len >= improvements_len {
        units_len
    } else {
        improvements_len
    };
    match event.kind {
        PointerKind::ScrollUp => {
            return PickerMouseAction::Scroll(scroll.saturating_sub(1));
        },
        PointerKind::ScrollDown => {
            let max_offset = longest.saturating_sub(visible);
            let next = if scroll + 1 <= max_offset {
                scroll + 1
            } else {
                max_offset
            };
            return PickerMouseAction::Scroll(next);
        },
        PointerKind::LeftDown => {},
        _ => {
            return PickerMouseAction::Ignore;
        },
    }
    if event.column == u16::MAX || event.row == u16::MAX {
        return PickerMouseAction::Ignore;
    }
    let position = crate::geometry::Position { x: event.column, y: event.row };
    if !panel.contains(position) {
        return PickerMouseAction::Ignore;
    }
    if cancel_button_rect(panel).contains(position) {
        return PickerMouseAction::Close;
    }
    if save_button_rect(panel).contains(position) {
        return PickerMouseAction::Save;
    }
    let (units_col, improvements_col) = column_rects(panel);
    let in_units = units_col.contains(position);
    if in_units || improvements_col.contains(position) {
        let column: usize = if in_units {
            0
        } else {
            1
        };
        let row = (event.row as usize).saturating_sub(units_col.y as usize) + scroll;
        let len = if column == 0 {
            units_len
        } else {
            improvements_len
        };
        if row < len {
            PickerMouseAction::Select(column, row)
        } else {
            PickerMouseAction::Ignore
        }
    } else {
        PickerMouseAction::Ignore
    }
}

/// The number of picker rows on screen: those of the last-drawn panel, or
/// `MAX_VISIBLE_ROWS` before the panel has been drawn.
pub fn picker_visible_rows(panel: Option<Rect>) -> (rows: usize)
    requires
        panel matches Some(p) ==> bordered(p) && p.y + 3 <= u16::MAX,
    ensures
        rows == (match panel {
            Some(p) => rows_area(p).height as usize,
            None => MAX_VISIBLE_ROWS as usize,
        }),
{
    match panel {
        Some(p) => rows_rect(p).height as usize,
        None => MAX_VISIBLE_ROWS as usize,
    }
}

} // verus!
