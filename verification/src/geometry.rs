//! Screen rectangles: terminal cells addressed by column and row.
use vstd::prelude::*;

verus! {

/// A terminal cell, by column and row.
#[derive(Clone, Copy, Debug, PartialEq, Eq, Structural)]
pub struct Position {
    pub x: u16,
    pub y: u16,
}

impl Position {
    /// The cell at column `x`, row `y`.
    pub fn new(x: u16, y: u16) -> (position: Position)
        ensures
            position.x == x,
            position.y == y,
    {
        Position { x, y }
    }
}

/// A rectangle of terminal cells: its top-left cell and its size.
#[derive(Clone, Copy, Debug, PartialEq, Eq, Structural)]
pub struct Rect {
    pub x: u16,
    pub y: u16,
    pub width: u16,
    pub height: u16,
}

/// `a + b`, held at `u16::MAX` instead of overflowing.
pub open spec fn sat_add(a: int, b: int) -> int {
    if a + b > u16::MAX {
        u16::MAX as int
    } else {
        a + b
    }
}

/// `a - b`, held at zero instead of going negative.
pub open spec fn sat_sub(a: int, b: int) -> int {
    if a > b {
        a - b
    } else {
        0
    }
}

impl Rect {
    /// The rectangle with top-left cell `(x, y)` and the given size.
    pub fn new(x: u16, y: u16, width: u16, height: u16) -> (rect: Rect)
        ensures
            rect == (Rect { x, y, width, height }),
    {
        Rect { x, y, width, height }
    }

    /// The column just past the rectangle's right edge.
    pub open spec fn right_edge(self) -> int {
        sat_add(self.x as int, self.width as int)
    }

    /// The row just below the rectangle's bottom edge.
    pub open spec fn bottom_edge(self) -> int {
        sat_add(self.y as int, self.height as int)
    }

    /// Whether the cell `(x, y)` lies inside the rectangle.
    pub open spec fn holds(self, x: int, y: int) -> bool {
        &&& self.x <= x < self.right_edge()
        &&& self.y <= y < self.bottom_edge()
    }

    /// The column just past the rectangle's right edge.
    pub fn right(self) -> (right: u16)
        ensures
            right == self.right_edge(),
    {
        self.x.saturating_add(self.width)
    }

    /// The row just below the rectangle's bottom edge.
    pub fn bottom(self) -> (bottom: u16)
        ensures
            bottom == self.bottom_edge(),
    {
        self.y.saturating_add(self.height)
    }

    /// Whether `position` lies inside the rectangle.
    pub fn contains(self, position: Position) -> (inside: bool)
        ensures
            inside == self.holds(position.x as int, position.y as int),
    {
        position.x >= self.x && position.x < self.right() && position.y >= self.y && position.y
            < self.bottom()
    }
}

/// Two rectangles share no cell.
pub open spec fn disjoint(a: Rect, b: Rect) -> bool {
    forall|x: int, y: int| !(#[trigger] a.holds(x, y) && #[trigger] b.holds(x, y))
}

/// Every cell of `inner` lies in `outer`.
pub open spec fn within(inner: Rect, outer: Rect) -> bool {
    &&& outer.x <= inner.x
    &&& outer.y <= inner.y
    &&& inner.x + inner.width <= outer.x + outer.width
    &&& inner.y + inner.height <= outer.y + outer.height
}

/// A rectangle that does not reach past the last screen column or row.
pub open spec fn on_screen(rect: Rect) -> bool {
    rect.x + rect.width <= u16::MAX && rect.y + rect.height <= u16::MAX
}

/// Side by side on one row: `a` ends before `b` begins.
pub open spec fn left_of(a: Rect, b: Rect) -> bool {
    a.y == b.y && a.x + a.width <= b.x
}

/// A rectangle left of another on the same row shares no cell with it.
pub proof fn lemma_left_of_disjoint(a: Rect, b: Rect)
    requires
        left_of(a, b),
    ensures
        disjoint(a, b),
{
}

/// The even size, at least `min` and at most `ideal`, of a panel that leaves
/// a one-cell margin in `available` cells when it can.
pub open spec fn fitted(ideal: int, available: int, min: int) -> int {
    let room = sat_sub(available, 2);
    let capped = if ideal < room {
        ideal
    } else {
        room
    };
    let sized = if capped < min {
        min
    } else {
        capped
    };
    sized - sized % 2
}

/// The panel of ideal size `ideal_w` by `ideal_h` (never smaller than `min`
/// in either direction) centred over `area`.
pub open spec fn centred(area: Rect, ideal_w: int, ideal_h: int, min: int) -> Rect {
    let width = fitted(ideal_w, area.width as int, min);
    let height = fitted(ideal_h, area.height as int, min);
    Rect {
        x: (area.x + (area.width - width) / 2) as u16,
        y: (area.y + (area.height - height) / 2) as u16,
        width: width as u16,
        height: height as u16,
    }
}

/// An area a centred panel fits in without any arithmetic leaving the
/// screen's coordinate range.
pub open spec fn can_centre(area: Rect, ideal_w: int, ideal_h: int, min: int) -> bool {
    let width = fitted(ideal_w, area.width as int, min);
    let height = fitted(ideal_h, area.height as int, min);
    &&& width <= area.width
    &&& height <= area.height
    &&& area.x + (area.width - width) / 2 <= u16::MAX
    &&& area.y + (area.height - height) / 2 <= u16::MAX
}

/// The even panel size for `available` cells: `ideal` when a one-cell
/// margin is left on each side, otherwise what room there is, never below
/// `min`.
pub fn fitted_size(ideal: u16, available: u16, min: u16) -> (size: u16)
    requires
        min <= u16::MAX - 1,
    ensures
        size == fitted(ideal as int, available as int, min as int),
{
    let room = available.saturating_sub(2);
    let capped = if ideal < room {
        ideal
    } else {
        room
    };
    let sized = if capped < min {
        min
    } else {
        capped
    };
    sized - sized % 2
}

/// The panel of ideal size `ideal_w` by `ideal_h` (never smaller than `min`)
/// centred over `area`.
pub fn centred_rect(area: Rect, ideal_w: u16, ideal_h: u16, min: u16) -> (panel: Rect)
    requires
        min <= u16::MAX - 1,
        can_centre(area, ideal_w as int, ideal_h as int, min as int),
    ensures
        panel == centred(area, ideal_w as int, ideal_h as int, min as int),
{
    let width = fitted_size(ideal_w, area.width, min);
    let height = fitted_size(ideal_h, area.height, min);
    Rect {
        x: area.x + (area.width - width) / 2,
        y: area.y + (area.height - height) / 2,
        width,
        height,
    }
}

/// A centred panel lies inside its area, has an even size no larger than its
/// ideal (when the area has room for it), and has equal margins left and
/// right up to one cell.
pub proof fn lemma_centred_fits(area: Rect, ideal_w: int, ideal_h: int, min: int)
    requires
        can_centre(area, ideal_w, ideal_h, min),
        0 <= min,
    ensures
        ({
            let panel = centred(area, ideal_w, ideal_h, min);
            &&& within(panel, area)
            &&& panel.width % 2 == 0
            &&& panel.height % 2 == 0
            &&& (min <= ideal_w && ideal_w + 2 <= area.width ==> panel.width == ideal_w - ideal_w % 2)
            &&& (min <= ideal_h && ideal_h + 2 <= area.height ==> panel.height == ideal_h - ideal_h % 2)
            &&& (area.x + area.width) - (panel.x + panel.width) - (panel.x - area.x) <= 1
            &&& (panel.x - area.x) <= (area.x + area.width) - (panel.x + panel.width)
        }),
{
}

/// The interior of a bordered panel, one cell in from each edge.
pub open spec fn inside_border(panel: Rect) -> Rect {
    Rect {
        x: (panel.x + 1) as u16,
        y: (panel.y + 1) as u16,
        width: (panel.width - 2) as u16,
        height: (panel.height - 2) as u16,
    }
}

/// A panel with room for a border: at least two cells each way, and not
/// touching the last screen column or row.
pub open spec fn bordered(panel: Rect) -> bool {
    &&& panel.width >= 2
    &&& panel.height >= 2
    &&& panel.x < u16::MAX
    &&& panel.y < u16::MAX
}

/// The interior of a bordered panel, one cell in from each edge.
pub fn inner(panel: Rect) -> (interior: Rect)
    requires
        bordered(panel),
    ensures
        interior == inside_border(panel),
{
    Rect { x: panel.x + 1, y: panel.y + 1, width: panel.width - 2, height: panel.height - 2 }
}

/// The row a panel's buttons sit on: one above its bottom border.
pub open spec fn button_row(panel: Rect) -> int {
    panel.y + panel.height - 2
}

/// The row a panel's buttons sit on: one above its bottom border.
pub fn buttons_y(panel: Rect) -> (row: u16)
    requires
        panel.height >= 2,
        panel.y + panel.height <= u16::MAX,
    ensures
        row == button_row(panel),
{
    panel.y + panel.height - 2
}

/// A one-row button `width` cells wide on the button row, ending
/// `trailing_gap` cells before the panel's interior right edge.
pub open spec fn button_at(panel: Rect, width: int, trailing_gap: int) -> Rect {
    let interior = inside_border(panel);
    Rect {
        x: sat_sub(interior.right_edge(), width + trailing_gap) as u16,
        y: button_row(panel) as u16,
        width: width as u16,
        height: 1,
    }
}

/// A one-row button `width` cells wide on the button row, ending
/// `trailing_gap` cells before the panel's interior right edge.
pub fn button_rect(panel: Rect, width: u16, trailing_gap: u16) -> (button: Rect)
    requires
        bordered(panel),
        panel.y + panel.height <= u16::MAX,
        width + trailing_gap <= u16::MAX,
    ensures
        button == button_at(panel, width as int, trailing_gap as int),
{
    let interior = inner(panel);
    Rect {
        x: interior.right().saturating_sub(width + trailing_gap),
        y: buttons_y(panel),
        width,
        height: 1,
    }
}

/// Buttons laid out right to left with gaps that account for the buttons to
/// their right sit side by side on the button row, inside the panel.
pub proof fn lemma_buttons_side_by_side(panel: Rect, left_w: int, right_w: int, gap: int)
    requires
        bordered(panel),
        on_screen(panel),
        0 <= gap,
        0 <= left_w,
        0 <= right_w,
        left_w + right_w + gap + 2 <= panel.width,
        3 <= panel.height,
        left_w + right_w + gap <= u16::MAX,
    ensures
        left_of(button_at(panel, left_w, right_w + gap), button_at(panel, right_w, gap)),
        within(button_at(panel, left_w, right_w + gap), inside_border(panel)),
        within(button_at(panel, right_w, gap), inside_border(panel)),
{
}

} // verus!
