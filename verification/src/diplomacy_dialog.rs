//! The war-or-peace window, shown when a civilization is first met or when a
//! unit tries to enter foreign land while the two sides are at peace.
use vstd::prelude::*;

use crate::geometry::{
    bordered, button_at, button_rect, can_centre, centred, centred_rect, inside_border, left_of,
    on_screen, within, Rect,
};
use crate::model::{civilization_name, Civilization};
use crate::pointer::{Pointer, PointerKind};
use crate::setup::Key;

verus! {

/// The dialog's ideal width before clamping to the screen.
pub const IDEAL_WIDTH: u16 = 42;

/// The dialog's ideal height before clamping to the screen.
pub const IDEAL_HEIGHT: u16 = 9;

/// The WAR button's width: its label and a cell either side.
pub const WAR_WIDTH: u16 = 5;

/// The PEACE button's width: its label and a cell either side.
pub const PEACE_WIDTH: u16 = 7;

/// Why the war-or-peace window opened.
#[derive(Clone, Copy, Debug, PartialEq, Eq, Structural)]
pub enum DiplomacyOrigin {
    /// Two civilizations met for the first time.
    Contact,
    /// A unit tried to step onto a foreign tile while at peace.
    Movement,
}

/// The two answers the window may give.
#[derive(Clone, Copy, Debug, PartialEq, Eq, Structural)]
pub enum DiplomacyChoice {
    War,
    Peace,
}

/// A modal window asking whether to declare war or remain at peace.
#[derive(Clone, Copy, Debug, PartialEq, Eq, Structural)]
pub struct DiplomacyDialog {
    pub opponent: Civilization,
    pub origin: DiplomacyOrigin,
    pub choice: DiplomacyChoice,
}

impl DiplomacyDialog {
    /// The window about `opponent`, opened for `origin`, with `choice` under
    /// the cursor.
    pub fn new(opponent: Civilization, origin: DiplomacyOrigin, choice: DiplomacyChoice) -> (dialog:
        DiplomacyDialog)
        ensures
            dialog == (DiplomacyDialog { opponent, origin, choice }),
    {
        DiplomacyDialog { opponent, origin, choice }
    }
}

/// What a key does while the diplomacy window is open.
#[derive(Clone, Copy, Debug, PartialEq, Eq, Structural)]
pub enum DiplomacyKeyAction {
    /// Put the cursor on this answer.
    Choose(DiplomacyChoice),
    /// Act on the answer under the cursor.
    Confirm,
    /// Close the window without declaring war.
    Cancel,
    /// The key does nothing here.
    Ignore,
}

/// What a key does while the diplomacy window is open: left, up, h and k
/// point at WAR; right, down, l and j point at PEACE; Enter or space
/// confirms; Esc cancels.
pub fn diplomacy_key_action(key: Key) -> (action: DiplomacyKeyAction)
    ensures
        action == (match key {
            Key::Left | Key::Up | Key::Char('h') | Key::Char('k') => DiplomacyKeyAction::Choose(
                DiplomacyChoice::War,
            ),
            Key::Right | Key::Down | Key::Char('l') | Key::Char('j') => DiplomacyKeyAction::Choose(
                DiplomacyChoice::Peace,
            ),
            Key::Enter | Key::Char(' ') => DiplomacyKeyAction::Confirm,
            Key::Esc => DiplomacyKeyAction::Cancel,
            _ => DiplomacyKeyAction::Ignore,
        }),
{
    match key {
        Key::Left | Key::Up | Key::Char('h') | Key::Char('k') => DiplomacyKeyAction::Choose(
            DiplomacyChoice::War,
        ),
        Key::Right | Key::Down | Key::Char('l') | Key::Char('j') => DiplomacyKeyAction::Choose(
            DiplomacyChoice::Peace,
        ),
        Key::Enter | Key::Char(' ') => DiplomacyKeyAction::Confirm,
        Key::Esc => DiplomacyKeyAction::Cancel,
        _ => DiplomacyKeyAction::Ignore,
    }
}

/// The rectangle the dialog occupies over `area`, centred across it.
pub fn dialog_rect(area: Rect) -> (panel: Rect)
    requires
        can_centre(area, IDEAL_WIDTH as int, IDEAL_HEIGHT as int, 2),
    ensures
        panel == centred(area, IDEAL_WIDTH as int, IDEAL_HEIGHT as int, 2),
{
    centred_rect(area, IDEAL_WIDTH, IDEAL_HEIGHT, 2)
}

/// The rectangle of the PEACE button, right-aligned on the button row.
pub fn peace_button_rect(panel: Rect) -> (button: Rect)
    requires
        bordered(panel),
        panel.y + panel.height <= u16::MAX,
    ensures
        button == button_at(panel, PEACE_WIDTH as int, 1),
{
    button_rect(panel, PEACE_WIDTH, 1)
}

/// The rectangle of the WAR button, just left of PEACE.
pub fn war_button_rect(panel: Rect) -> (button: Rect)
    requires
        bordered(panel),
        panel.y + panel.height <= u16::MAX,
    ensures
        button == button_at(panel, WAR_WIDTH as int, (PEACE_WIDTH + 1) as int),
{
    button_rect(panel, WAR_WIDTH, PEACE_WIDTH + 1)
}

/// On a dialog wide enough for both, WAR sits just left of PEACE, the two
/// do not overlap, and both lie inside the border.
pub proof fn lemma_diplomacy_buttons_in_order(panel: Rect)
    requires
        bordered(panel),
        on_screen(panel),
        (WAR_WIDTH + PEACE_WIDTH + 3) as int <= panel.width,
        3 <= panel.height,
    ensures
        ({
            let war = button_at(panel, WAR_WIDTH as int, (PEACE_WIDTH + 1) as int);
            let peace = button_at(panel, PEACE_WIDTH as int, 1);
            &&& left_of(war, peace)
            &&& within(war, inside_border(panel))
            &&& within(peace, inside_border(panel))
        }),
{
}

/// The answer a left press on the window's buttons gives: WAR or PEACE,
/// or nothing elsewhere. Other mouse events do nothing.
pub fn diplomacy_mouse_choice(panel: Rect, event: Pointer) -> (choice: Option<DiplomacyChoice>)
    requires
        bordered(panel),
        panel.y + panel.height <= u16::MAX,
    ensures
        choice == (if event.kind != PointerKind::LeftDown || !event.placed() {
            None
        } else if button_at(panel, WAR_WIDTH as int, (PEACE_WIDTH + 1) as int).holds(
            event.column as int,
            event.row as int,
        ) {
            Some(DiplomacyChoice::War)
        } else if button_at(panel, PEACE_WIDTH as int, 1).holds(event.column as int, event.row as int) {
            Some(DiplomacyChoice::Peace)
        } else {
            None
        }),
{
    if event.kind != PointerKind::LeftDown || event.column == u16::MAX || event.row == u16::MAX {
        return None;
    }
    let position = crate::geometry::Position { x: event.column, y: event.row };
    if war_button_rect(panel).contains(position) {
        Some(DiplomacyChoice::War)
    } else if peace_button_rect(panel).contains(position) {
        Some(DiplomacyChoice::Peace)
    } else {
        None
    }
}

/// The window's two lines under its title: who was met and what may be
/// done, or whose land the unit may not enter and how to go on.
pub open spec fn message_of(opponent: Civilization, origin: DiplomacyOrigin) -> (Seq<char>, Seq<char>) {
    match origin {
        DiplomacyOrigin::Contact => (
            "The "@ + civilization_name(opponent) + " have been discovered!"@,
            "We may declare war or make peace with them."@,
        ),
        DiplomacyOrigin::Movement => (
            "Your unit may not enter "@ + civilization_name(opponent) + " land."@,
            "Declare war to attack, or remain at peace."@,
        ),
    }
}

/// The window's two lines under its title.
pub fn diplomacy_message(opponent: Civilization, origin: DiplomacyOrigin) -> (lines: (String, String))
    ensures
        lines.0@ == message_of(opponent, origin).0,
        lines.1@ == message_of(opponent, origin).1,
{
    match origin {
        DiplomacyOrigin::Contact => {
            let mut first = String::from_str("The ");
            first.append(opponent.display_name());
            first.append(" have been discovered!");
            (first, String::from_str("We may declare war or make peace with them."))
        },
        DiplomacyOrigin::Movement => {
            let mut first = String::from_str("Your unit may not enter ");
            first.append(opponent.display_name());
            first.append(" land.");
            (first, String::from_str("Declare war to attack, or remain at peace."))
        },
    }
}

} // verus!
