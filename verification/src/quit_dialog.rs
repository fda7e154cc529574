//! The window that asks what to do with the game when the player presses q:
//! continue playing, save first, or quit without saving.
use vstd::prelude::*;

use crate::geometry::{
    bordered, button_at, button_rect, can_centre, centred, centred_rect, inside_border, left_of,
    on_screen, within, Rect,
};
use crate::pointer::{Pointer, PointerKind};
use crate::setup::Key;

verus! {

/// The dialog's ideal width before clamping to the screen.
pub const IDEAL_WIDTH: u16 = 42;

/// The dialog's ideal height before clamping to the screen.
pub const IDEAL_HEIGHT: u16 = 9;

/// The CONTINUE button's width: its label and a cell either side.
pub const CONTINUE_WIDTH: u16 = 10;

/// The SAVE button's width: its label and a cell either side.
pub const SAVE_WIDTH: u16 = 6;

/// The QUIT button's width: its label and a cell either side.
pub const QUIT_WIDTH: u16 = 6;

/// The three answers the quit window may give.
#[derive(Clone, Copy, Debug, PartialEq, Eq, Structural)]
pub enum QuitChoice {
    Continue,
    Save,
    Quit,
}

impl QuitChoice {
    /// The answer to the right, wrapping from quit back to continue.
    pub open spec fn after(self) -> QuitChoice {
        match self {
            QuitChoice::Continue => QuitChoice::Save,
            QuitChoice::Save => QuitChoice::Quit,
            QuitChoice::Quit => QuitChoice::Continue,
        }
    }

    /// The answer to the left, wrapping from continue round to quit.
    pub open spec fn before(self) -> QuitChoice {
        match self {
            QuitChoice::Continue => QuitChoice::Quit,
            QuitChoice::Save => QuitChoice::Continue,
            QuitChoice::Quit => QuitChoice::Save,
        }
    }

    /// The answer to the right, wrapping from quit back to continue.
    pub fn next(self) -> (following: QuitChoice)
        ensures
            following == self.after(),
    {
        match self {
            QuitChoice::Continue => QuitChoice::Save,
            QuitChoice::Save => QuitChoice::Quit,
            QuitChoice::Quit => QuitChoice::Continue,
        }
    }

    /// The answer to the left, wrapping from continue round to quit.
    pub fn prev(self) -> (preceding: QuitChoice)
        ensures
            preceding == self.before(),
    {
        match self {
            QuitChoice::Continue => QuitChoice::Quit,
            QuitChoice::Save => QuitChoice::Continue,
            QuitChoice::Quit => QuitChoice::Save,
        }
    }
}

/// Moving right then left (or left then right) comes back to the same
/// answer, and three moves in one direction go all the way round.
pub proof fn lemma_quit_choice_cycles(choice: QuitChoice)
    ensures
        choice.after().before() == choice,
        choice.before().after() == choice,
        choice.after().after().after() == choice,
        choice.before().before().before() == choice,
{
}

/// A modal window asking what to do with the game when the player presses q.
#[derive(Clone, Copy, Debug, PartialEq, Eq, Structural)]
pub struct QuitDialog {
    pub choice: QuitChoice,
}

impl QuitDialog {
    /// The window with `choice` under the cursor.
    pub fn new(choice: QuitChoice) -> (dialog: QuitDialog)
        ensures
            dialog.choice == choice,
    {
        QuitDialog { choice }
    }
}

/// What a key does while the quit window is open.
#[derive(Clone, Copy, Debug, PartialEq, Eq, Structural)]
pub enum QuitKeyAction {
    /// Move the cursor one answer left.
    Previous,
    /// Move the cursor one answer right.
    Next,
    /// Act on the answer under the cursor.
    Confirm,
    /// Close the window and carry on playing.
    Close,
    /// The key does nothing here.
    Ignore,
}

/// What a key does while the quit window is open: left, up, h and k move the
/// cursor left; right, down, l and j move it right; Enter or space confirms;
/// Esc closes the window.
pub fn quit_key_action(key: Key) -> (action: QuitKeyAction)
    ensures
        action == (match key {
            Key::Left | Key::Up | Key::Char('h') | Key::Char('k') => QuitKeyAction::Previous,
            Key::Right | Key::Down | Key::Char('l') | Key::Char('j') => QuitKeyAction::Next,
            Key::Enter | Key::Char(' ') => QuitKeyAction::Confirm,
            Key::Esc => QuitKeyAction::Close,
            _ => QuitKeyAction::Ignore,
        }),
{
    match key {
        Key::Left | Key::Up | Key::Char('h') | Key::Char('k') => QuitKeyAction::Previous,
        Key::Right | Key::Down | Key::Char('l') | Key::Char('j') => QuitKeyAction::Next,
        Key::Enter | Key::Char(' ') => QuitKeyAction::Confirm,
        Key::Esc => QuitKeyAction::Close,
        _ => QuitKeyAction::Ignore,
    }
}

/// The rectangle the dialog occupies over `area`, centred across it.
pub fn dialog_rect(area: Rect) -> (panel: Rect)
    requires
        can_centre(area, IDEAL_WIDTH as int, IDEAL_HEIGHT as int, 2),
    ensures
        panel == centred(area, IDEAL_WIDTH as int, IDEAL_HEIGHT as int, 2),
{
    centred_rect(area, IDEAL_WIDTH, IDEAL_HEIGHT, 2)
}

/// The rectangle of the QUIT button, right-aligned on the button row.
pub fn quit_button_rect(panel: Rect) -> (button: Rect)
    requires
        bordered(panel),
        panel.y + panel.height <= u16::MAX,
    ensures
        button == button_at(panel, QUIT_WIDTH as int, 1),
{
    button_rect(panel, QUIT_WIDTH, 1)
}

/// The rectangle of the SAVE button, just left of QUIT.
pub fn save_button_rect(panel: Rect) -> (button: Rect)
    requires
        bordered(panel),
        panel.y + panel.height <= u16::MAX,
    ensures
        button == button_at(panel, SAVE_WIDTH as int, (QUIT_WIDTH + 1) as int),
{
    button_rect(panel, SAVE_WIDTH, QUIT_WIDTH + 1)
}

/// The rectangle of the CONTINUE button, just left of SAVE.
pub fn continue_button_rect(panel: Rect) -> (button: Rect)
    requires
        bordered(panel),
        panel.y + panel.height <= u16::MAX,
    ensures
        button == button_at(panel, CONTINUE_WIDTH as int, (QUIT_WIDTH + SAVE_WIDTH + 2) as int),
{
    button_rect(panel, CONTINUE_WIDTH, QUIT_WIDTH + SAVE_WIDTH + 2)
}

/// On a dialog wide enough for all three, the buttons sit left to right as
/// CONTINUE, SAVE, QUIT, without overlapping, inside the border.
pub proof fn lemma_quit_buttons_in_order(panel: Rect)
    requires
        bordered(panel),
        on_screen(panel),
        (CONTINUE_WIDTH + SAVE_WIDTH + QUIT_WIDTH + 4) as int <= panel.width,
        3 <= panel.height,
    ensures
        ({
            let continue_ = button_at(panel, CONTINUE_WIDTH as int, (QUIT_WIDTH + SAVE_WIDTH + 2) as int);
            let save = button_at(panel, SAVE_WIDTH as int, (QUIT_WIDTH + 1) as int);
            let quit = button_at(panel, QUIT_WIDTH as int, 1);
            &&& left_of(continue_, save)
            &&& left_of(save, quit)
            &&& within(continue_, inside_border(panel))
            &&& within(save, inside_border(panel))
            &&& within(quit, inside_border(panel))
        }),
{
}

/// The answer a left press on the window's buttons gives: CONTINUE, SAVE
/// or QUIT, or nothing elsewhere. Other mouse events do nothing.
pub fn quit_mouse_choice(panel: Rect, event: Pointer) -> (choice: Option<QuitChoice>)
    requires
        bordered(panel),
        panel.y + panel.height <= u16::MAX,
    ensures
        choice == (if event.kind != PointerKind::LeftDown || !event.placed() {
            None
        } else if button_at(panel, CONTINUE_WIDTH as int, (QUIT_WIDTH + SAVE_WIDTH + 2) as int).holds(
            event.column as int,
            event.row as int,
        ) {
            Some(QuitChoice::Continue)
        } else if button_at(panel, SAVE_WIDTH as int, (QUIT_WIDTH + 1) as int).holds(
            event.column as int,
            event.row as int,
        ) {
            Some(QuitChoice::Save)
        } else if button_at(panel, QUIT_WIDTH as int, 1).holds(event.column as int, event.row as int) {
            Some(QuitChoice::Quit)
        } else {
            None
        }),
{
    if event.kind != PointerKind::LeftDown || event.column == u16::MAX || event.row == u16::MAX {
        return None;
    }
    let position = crate::geometry::Position { x: event.column, y: event.row };
    if continue_button_rect(panel).contains(position) {
        Some(QuitChoice::Continue)
    } else if save_button_rect(panel).contains(position) {
        Some(QuitChoice::Save)
    } else if quit_button_rect(panel).contains(position) {
        Some(QuitChoice::Quit)
    } else {
        None
    }
}

/// What confirming an answer in the quit window leads to.
#[derive(Clone, Copy, Debug, PartialEq, Eq, Structural)]
pub enum QuitOutcome {
    /// Carry on playing.
    Resume,
    /// Open the save prompt on the default path.
    OpenSavePrompt,
    /// End the program.
    Exit,
}

/// What confirming `choice` leads to: continue resumes play, save opens the
/// save prompt, quit ends the program.
pub fn quit_outcome(choice: QuitChoice) -> (outcome: QuitOutcome)
    ensures
        outcome == (match choice {
            QuitChoice::Continue => QuitOutcome::Resume,
            QuitChoice::Save => QuitOutcome::OpenSavePrompt,
            QuitChoice::Quit => QuitOutcome::Exit,
        }),
{
    match choice {
        QuitChoice::Continue => QuitOutcome::Resume,
        QuitChoice::Save => QuitOutcome::OpenSavePrompt,
        QuitChoice::Quit => QuitOutcome::Exit,
    }
}

} // verus!
