//! The window shown when an advancement completes at the start of a turn: it
//! congratulates the civilization and lists what it may research next.
use vstd::prelude::*;

use crate::geometry::{
    bordered, button_row, buttons_y, can_centre, centred, centred_rect, inner, inside_border,
    sat_sub, within, Rect,
};
use crate::model::{advancement_name, civilization_name, Advancement, Civilization};
use crate::text::{decimal, decimal_string};
use crate::navigation::{
    clamp_to, cursor_ok, jump_cursor, max_offset, scroll_by, scroll_showing, step_cursor, stepped,
};
use crate::pointer::{Pointer, PointerKind};
use crate::setup::Key;

verus! {

/// The dialog's ideal width before clamping to the screen.
pub const IDEAL_WIDTH: u16 = 46;

/// The dialog's ideal height before clamping to the screen.
pub const IDEAL_HEIGHT: u16 = 16;

/// The OK button's width.
pub const OK_WIDTH: u16 = 4;

/// The rows below the top border before the list of advancements begins.
pub const HEADER_ROWS: u16 = 3;

/// How many list rows to assume before the dialog has been drawn.
pub const DEFAULT_VISIBLE_ROWS: usize = 8;

/// The research-completion window: the advancement just discovered, the
/// advancements on offer, and the cursor and scroll within that list.
#[derive(Clone, Debug)]
pub struct ResearchDialog {
    pub discovered: Advancement,
    pub choices: Vec<Advancement>,
    pub cursor: usize,
    pub scroll: usize,
}

impl ResearchDialog {
    /// The window for `discovered`, offering `choices`, with the cursor on
    /// row `cursor` and the list scrolled by `scroll` rows.
    pub fn new(discovered: Advancement, choices: Vec<Advancement>, cursor: usize, scroll: usize) -> (dialog:
        ResearchDialog)
        ensures
            dialog.discovered == discovered,
            dialog.choices@ == choices@,
            dialog.cursor == cursor,
            dialog.scroll == scroll,
    {
        ResearchDialog { discovered, choices, cursor, scroll }
    }

    /// The cursor is on one of the choices, or at the top of an empty list,
    /// and the list is shorter than the largest signed offset.
    pub open spec fn wf(&self) -> bool {
        &&& cursor_ok(self.cursor as int, self.choices.len() as int)
        &&& self.choices.len() < isize::MAX
    }

    /// Move the cursor `delta` rows (up when `delta <= 0`), wrapping at both
    /// ends, and scroll so it stays among the `visible` rows on screen.
    pub fn move_cursor(&mut self, delta: isize, visible: usize)
        requires
            old(self).wf(),
            0 < visible <= isize::MAX,
        ensures
            final(self).wf(),
            final(self).discovered == old(self).discovered,
            final(self).choices@ == old(self).choices@,
            old(self).choices.len() == 0 ==> final(self).cursor == old(self).cursor
                && final(self).scroll == old(self).scroll,
            old(self).choices.len() > 0 ==> final(self).cursor == stepped(
                old(self).cursor as int,
                old(self).choices.len() as int,
                delta as int,
            ) && final(self).scroll == scroll_showing(
                old(self).scroll as int,
                final(self).cursor as int,
                old(self).choices.len() as int,
                visible as int,
            ),
    {
        let (cursor, scroll) = step_cursor(self.cursor, self.scroll, self.choices.len(), delta, visible);
        self.cursor = cursor;
        self.scroll = scroll;
    }

    /// Put the cursor on row `choice` when there is such a row, and scroll so
    /// the cursor stays among the `visible` rows on screen.
    pub fn move_cursor_to(&mut self, choice: usize, visible: usize)
        requires
            old(self).wf(),
            0 < visible <= isize::MAX,
        ensures
            final(self).wf(),
            final(self).discovered == old(self).discovered,
            final(self).choices@ == old(self).choices@,
            final(self).cursor == (if choice < old(self).choices.len() {
                choice
            } else {
                old(self).cursor
            }),
            final(self).scroll == scroll_showing(
                old(self).scroll as int,
                final(self).cursor as int,
                old(self).choices.len() as int,
                visible as int,
            ),
    {
        let (cursor, scroll) = jump_cursor(self.cursor, self.scroll, self.choices.len(), choice, visible);
        self.cursor = cursor;
        self.scroll = scroll;
    }

    /// Scroll the list `delta` rows, never above its first row nor past the
    /// point where its last row reaches the bottom of the window.
    pub fn scroll_list(&mut self, delta: isize, visible: usize)
        requires
            old(self).wf(),
            old(self).scroll <= isize::MAX,
            isize::MIN <= old(self).scroll + delta <= isize::MAX,
        ensures
            final(self).wf(),
            final(self).discovered == old(self).discovered,
            final(self).choices@ == old(self).choices@,
            final(self).cursor == old(self).cursor,
            final(self).scroll == clamp_to(
                old(self).scroll + delta,
                0,
                max_offset(old(self).choices.len() as int, visible as int),
            ),
    {
        self.scroll = scroll_by(self.scroll, self.choices.len(), delta, visible);
    }

    /// The advancement under the cursor, if the list has one there.
    pub fn selected(&self) -> (choice: Option<Advancement>)
        ensures
            choice == (if self.cursor < self.choices.len() {
                Some(self.choices@[self.cursor as int])
            } else {
                None
            }),
    {
        if self.cursor < self.choices.len() {
            Some(self.choices[self.cursor])
        } else {
            None
        }
    }
}

/// What a key does while the research window is open.
#[derive(Clone, Copy, Debug, PartialEq, Eq, Structural)]
pub enum ResearchKeyAction {
    /// Move the cursor by this many rows.
    Move(isize),
    /// Research the advancement under the cursor and close the window.
    Confirm,
    /// The key does nothing here.
    Ignore,
}

/// What a key does while the research window is open: up or k moves the
/// cursor up, down or j moves it down, Enter or space confirms. Every other
/// key is swallowed.
pub fn research_key_action(key: Key) -> (action: ResearchKeyAction)
    ensures
        action == (match key {
            Key::Up | Key::Char('k') => ResearchKeyAction::Move(-1isize),
            Key::Down | Key::Char('j') => ResearchKeyAction::Move(1isize),
            Key::Enter | Key::Char(' ') => ResearchKeyAction::Confirm,
            _ => ResearchKeyAction::Ignore,
        }),
{
    match key {
        Key::Up | Key::Char('k') => ResearchKeyAction::Move(-1),
        Key::Down | Key::Char('j') => ResearchKeyAction::Move(1),
        Key::Enter | Key::Char(' ') => ResearchKeyAction::Confirm,
        _ => ResearchKeyAction::Ignore,
    }
}

/// The rectangle the dialog occupies over `area`, centred across it.
pub fn dialog_rect(area: Rect) -> (panel: Rect)
    requires
        can_centre(area, IDEAL_WIDTH as int, IDEAL_HEIGHT as int, 2),
    ensures
        panel == centred(area, IDEAL_WIDTH as int, IDEAL_HEIGHT as int, 2),
{
    centred_rect(area, IDEAL_WIDTH, IDEAL_HEIGHT, 2)
}

/// The OK button: right-aligned on the button row.
pub open spec fn ok_button(panel: Rect) -> Rect {
    Rect {
        x: (inside_border(panel).right_edge() - OK_WIDTH) as u16,
        y: button_row(panel) as u16,
        width: OK_WIDTH,
        height: 1,
    }
}

/// The rectangle of the OK button, right-aligned on the button row.
pub fn ok_button_rect(panel: Rect) -> (button: Rect)
    requires
        bordered(panel),
        panel.y + panel.height <= u16::MAX,
        inside_border(panel).right_edge() >= OK_WIDTH,
    ensures
        button == ok_button(panel),
{
    let interior = inner(panel);
    Rect { x: interior.right() - OK_WIDTH, y: buttons_y(panel), width: OK_WIDTH, height: 1 }
}

/// The rows holding the researchable advancements: below the header, above
/// the button row, one cell in from the border on each side.
pub open spec fn list_area(panel: Rect) -> Rect {
    let interior = inside_border(panel);
    let top = interior.y + HEADER_ROWS;
    Rect {
        x: (interior.x + 1) as u16,
        y: top as u16,
        width: sat_sub(interior.width as int, 2) as u16,
        height: sat_sub(button_row(panel), top) as u16,
    }
}

/// The rows region holding the researchable advancement list.
pub fn list_rect(panel: Rect) -> (rows: Rect)
    requires
        bordered(panel),
        panel.y + panel.height <= u16::MAX,
        panel.y + 1 + HEADER_ROWS <= u16::MAX,
        panel.x + 2 <= u16::MAX,
    ensures
        rows == list_area(panel),
{
    let interior = inner(panel);
    let top = interior.y + HEADER_ROWS;
    let height = buttons_y(panel).saturating_sub(top);
    Rect { x: interior.x + 1, y: top, width: interior.width.saturating_sub(2), height }
}

/// The number of list rows on screen: those of the last-drawn dialog, or a
/// default before the dialog has been drawn.
pub fn visible_rows(panel: Option<Rect>) -> (rows: usize)
    requires
        panel matches Some(p) ==> {
            &&& bordered(p)
            &&& p.y + p.height <= u16::MAX
            &&& p.y + 1 + HEADER_ROWS <= u16::MAX
            &&& p.x + 2 <= u16::MAX
        },
    ensures
        rows == (match panel {
            Some(p) => list_area(p).height as usize,
            None => DEFAULT_VISIBLE_ROWS,
        }),
{
    match panel {
        Some(p) => list_rect(p).height as usize,
        None => DEFAULT_VISIBLE_ROWS,
    }
}

/// On a dialog with room for its header, the advancement list ends where
/// the OK button's row begins, and the OK button lies inside the border.
pub proof fn lemma_list_sits_above_ok(panel: Rect)
    requires
        bordered(panel),
        panel.x + panel.width <= u16::MAX,
        panel.y + panel.height <= u16::MAX,
        (HEADER_ROWS + 3) as int <= panel.height,
        (OK_WIDTH + 2) as int <= panel.width,
    ensures
        list_area(panel).y + list_area(panel).height == ok_button(panel).y,
        within(ok_button(panel), inside_border(panel)),
        within(list_area(panel), inside_border(panel)),
{
}

/// What a mouse event does while the research window is open.
#[derive(Clone, Copy, Debug, PartialEq, Eq, Structural)]
pub enum ResearchMouseAction {
    /// Research the advancement under the cursor and close the window.
    Confirm,
    /// Put the cursor on this row of the list.
    Select(usize),
    /// Scroll the list by this many rows.
    Scroll(isize),
    /// The event does nothing here.
    Ignore,
}

/// A research window the mouse handler can lay out.
pub open spec fn research_panel_ok(panel: Rect) -> bool {
    &&& bordered(panel)
    &&& panel.y + panel.height <= u16::MAX
    &&& panel.y + 1 + HEADER_ROWS <= u16::MAX
    &&& panel.x + 2 <= u16::MAX
    &&& inside_border(panel).right_edge() >= OK_WIDTH
}

/// What a mouse event does while the research window is open: a left press
/// on OK confirms, on a row of the list moves the cursor there (when the
/// list has that row), and the wheel scrolls the list a row at a time.
pub fn research_mouse_action(panel: Rect, event: Pointer, scroll: usize, len: usize) -> (action:
    ResearchMouseAction)
    requires
        research_panel_ok(panel),
        scroll <= usize::MAX - u16::MAX,
    ensures
        action == (match event.kind {
            PointerKind::LeftDown => if !event.placed() {
                ResearchMouseAction::Ignore
            } else if ok_button(panel).holds(event.column as int, event.row as int) {
                ResearchMouseAction::Confirm
            } else if list_area(panel).holds(event.column as int, event.row as int) && sat_sub(
                event.row as int,
                list_area(panel).y as int,
            ) + scroll < len {
                ResearchMouseAction::Select(
                    (sat_sub(event.row as int, list_area(panel).y as int) + scroll) as usize,
                )
            } else {
                ResearchMouseAction::Ignore
            },
            PointerKind::ScrollUp => ResearchMouseAction::Scroll(-1isize),
            PointerKind::ScrollDown => ResearchMouseAction::Scroll(1isize),
            _ => ResearchMouseAction::Ignore,
        }),
{
    match event.kind {
        PointerKind::LeftDown => {
            if event.column == u16::MAX || event.row == u16::MAX {
                return ResearchMouseAction::Ignore;
            }
            let position = crate::geometry::Position { x: event.column, y: event.row };
            if ok_button_rect(panel).contains(position) {
                return ResearchMouseAction::Confirm;
            }
            let rows = list_rect(panel);
            if rows.contains(position) {
                let choice = (event.row as usize).saturating_sub(rows.y as usize) + scroll;
                if choice < len {
                    return ResearchMouseAction::Select(choice);
                }
            }
            ResearchMouseAction::Ignore
        },
        PointerKind::ScrollUp => ResearchMouseAction::Scroll(-1),
        PointerKind::ScrollDown => ResearchMouseAction::Scroll(1),
        _ => ResearchMouseAction::Ignore,
    }
}

/// The line announcing the discovery: `The English discover Alphabet!`.
pub fn discovery_line(civ: Civilization, discovered: Advancement) -> (line: String)
    ensures
        line@ == "The "@ + civilization_name(civ) + " discover "@ + advancement_name(discovered) + "!"@,
{
    let mut line = String::from_str("The ");
    line.append(civ.display_name());
    line.append(" discover ");
    line.append(discovered.name());
    line.append("!");
    line
}

/// A row of the list: the advancement and what it costs, as in
/// `Pottery (40)`.
pub fn choice_line(advancement: Advancement, cost: u32) -> (line: String)
    ensures
        line@ == advancement_name(advancement) + " ("@ + decimal(cost as nat) + ")"@,
{
    let mut line = String::from_str(advancement.name());
    line.append(" (");
    let digits = decimal_string(cost as u64);
    line.append(digits.as_str());
    line.append(")");
    line
}

} // verus!
