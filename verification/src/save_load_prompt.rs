//! The text-entry window that asks for a path to save the game to (S during
//! play) or to load one from ("Load Saved Game" on the menu).
use vstd::prelude::*;

use crate::geometry::{can_centre, centred, centred_rect, sat_add, Rect};
use crate::setup::Key;
use crate::text::{cell_width, glyph_width};

verus! {

/// The dialog's ideal width before clamping to the screen.
pub const IDEAL_WIDTH: u16 = 60;

/// The dialog's ideal height before clamping to the screen.
pub const IDEAL_HEIGHT: u16 = 9;

/// What the prompt asks for.
#[derive(Clone, Copy, Debug, PartialEq, Eq, Structural)]
pub enum SaveLoadKind {
    Save,
    Load,
}

impl SaveLoadKind {
    /// The window's title.
    pub fn title(self) -> (title: &'static str)
        ensures
            title@ == (match self {
                SaveLoadKind::Save => "Save game"@,
                SaveLoadKind::Load => "Load game"@,
            }),
    {
        match self {
            SaveLoadKind::Save => "Save game",
            SaveLoadKind::Load => "Load game",
        }
    }

    /// The label in front of the typed path.
    pub fn prompt(self) -> (prompt: &'static str)
        ensures
            prompt@ == (match self {
                SaveLoadKind::Save => "Save to"@,
                SaveLoadKind::Load => "Load from"@,
            }),
    {
        match self {
            SaveLoadKind::Save => "Save to",
            SaveLoadKind::Load => "Load from",
        }
    }

    /// The line telling the player which keys act.
    pub fn hint(self) -> (hint: &'static str)
        ensures
            hint@ == (match self {
                SaveLoadKind::Save => "Enter saves  •  Esc cancels"@,
                SaveLoadKind::Load => "Enter loads  •  Esc cancels"@,
            }),
    {
        match self {
            SaveLoadKind::Save => "Enter saves  •  Esc cancels",
            SaveLoadKind::Load => "Enter loads  •  Esc cancels",
        }
    }
}

/// A modal text-entry prompt: what it asks for, the path typed so far, and
/// the error from the last attempt, if it failed.
#[derive(Clone, Debug)]
pub struct SaveLoadPrompt {
    pub kind: SaveLoadKind,
    pub input: String,
    pub error: Option<String>,
}

impl SaveLoadPrompt {
    /// The prompt asking for `kind`, showing `input` and `error`.
    pub fn new(kind: SaveLoadKind, input: String, error: Option<String>) -> (prompt: SaveLoadPrompt)
        ensures
            prompt.kind == kind,
            prompt.input@ == input@,
            prompt.error == error,
    {
        SaveLoadPrompt { kind, input, error }
    }
}

/// The rectangle the dialog occupies over `area`, centred across it.
pub fn dialog_rect(area: Rect) -> (panel: Rect)
    requires
        can_centre(area, IDEAL_WIDTH as int, IDEAL_HEIGHT as int, 2),
    ensures
        panel == centred(area, IDEAL_WIDTH as int, IDEAL_HEIGHT as int, 2),
{
    centred_rect(area, IDEAL_WIDTH, IDEAL_HEIGHT, 2)
}

/// How much of `text`, drawn from column `x`, fits before column `limit`:
/// the number of leading characters drawn and the column just past them,
/// where the block cursor goes.
pub open spec fn fitted_input(text: Seq<char>, x: int, limit: int) -> (int, int)
    decreases text.len(),
{
    if text.len() == 0 {
        (0, x)
    } else {
        let next = sat_add(x, glyph_width(text[0]));
        if next > limit {
            (0, x)
        } else {
            let rest = fitted_input(text.drop_first(), next, limit);
            (rest.0 + 1, rest.1)
        }
    }
}

/// How much of the typed path fits on the input line: drawn from column `x`,
/// characters are kept while they end no later than column `limit` (wide
/// glyphs take two cells). Returns how many characters are drawn and the
/// column just past them, where the block cursor goes.
pub fn fit_input(text: &str, x: u16, limit: u16) -> (fit: (usize, u16))
    ensures
        fit.0 as int == fitted_input(text@, x as int, limit as int).0,
        fit.1 as int == fitted_input(text@, x as int, limit as int).1,
{
    let len = text.unicode_len();
    let mut i: usize = 0;
    let mut cx: u16 = x;
    proof {
        assert(text@.skip(0) =~= text@);
    }
    while i < len
        invariant
            i <= len,
            len == text@.len(),
            fitted_input(text@, x as int, limit as int) == ({
                let rest = fitted_input(text@.skip(i as int), cx as int, limit as int);
                (rest.0 + i, rest.1)
            }),
        decreases len - i,
    {
        let width = cell_width(text.get_char(i));
        let next = cx.saturating_add(width);
        if next > limit {
            return (i, cx);
        }
        proof {
            assert(text@.skip(i as int).drop_first() =~= text@.skip(i + 1));
        }
        cx = next;
        i = i + 1;
    }
    (i, cx)
}

/// The longest path, in characters, the prompt accepts.
pub const MAX_INPUT_CHARS: usize = 200;

/// A control character: the C0 and C1 control codes and delete.
pub open spec fn is_control(c: char) -> bool {
    (c as int) <= 0x1f || (0x7f <= (c as int) && (c as int) <= 0x9f)
}

/// A white-space character: those with the Unicode White_Space property.
pub open spec fn is_white_space(c: char) -> bool {
    let v = c as int;
    ||| 0x09 <= v <= 0x0d
    ||| v == 0x20
    ||| v == 0x85
    ||| v == 0xa0
    ||| v == 0x1680
    ||| 0x2000 <= v <= 0x200a
    ||| v == 0x2028
    ||| v == 0x2029
    ||| v == 0x202f
    ||| v == 0x205f
    ||| v == 0x3000
}

/// Whether `c` is a white-space character.
fn white_space(c: char) -> (ws: bool)
    ensures
        ws == is_white_space(c),
{
    let v = c as u32;
    (0x09 <= v && v <= 0x0d) || v == 0x20 || v == 0x85 || v == 0xa0 || v == 0x1680 || (0x2000 <= v && v
        <= 0x200a) || v == 0x2028 || v == 0x2029 || v == 0x202f || v == 0x205f || v == 0x3000
}

/// `text` without the white space at either end.
pub open spec fn trimmed(text: Seq<char>) -> Seq<char>
    decreases text.len(),
{
    if text.len() == 0 {
        text
    } else if is_white_space(text[0]) {
        trimmed(text.drop_first())
    } else if is_white_space(text.last()) {
        trimmed(text.drop_last())
    } else {
        text
    }
}

/// `text` from position `from` with white space dropped from its end.
proof fn lemma_trim_from_end(text: Seq<char>, from: int, to: int)
    requires
        0 <= from < to <= text.len(),
        !is_white_space(text[from]),
        forall|k: int| to <= k < text.len() ==> is_white_space(#[trigger] text[k]),
        !is_white_space(text[to - 1]),
    ensures
        trimmed(text.subrange(from, text.len() as int)) == text.subrange(from, to),
    decreases text.len() - to,
{
    let rest = text.subrange(from, text.len() as int);
    if to < text.len() {
        assert(rest.drop_last() =~= text.drop_last().subrange(from, text.drop_last().len() as int));
        lemma_trim_from_end(text.drop_last(), from, to);
        assert(text.drop_last().subrange(from, to) =~= text.subrange(from, to));
    } else {
        assert(rest =~= text.subrange(from, to));
    }
}

/// The typed path without the white space at either end.
pub fn trim(text: &str) -> (path: String)
    ensures
        path@ == trimmed(text@),
{
    let len = text.unicode_len();
    let mut from: usize = 0;
    proof {
        assert(text@.subrange(0, len as int) =~= text@);
    }
    while from < len && white_space(text.get_char(from))
        invariant
            from <= len,
            len == text@.len(),
            trimmed(text@) == trimmed(text@.subrange(from as int, len as int)),
        decreases len - from,
    {
        proof {
            assert(text@.subrange(from as int, len as int).drop_first() =~= text@.subrange(from + 1, len as int));
        }
        from = from + 1;
    }
    if from == len {
        proof {
            assert(text@.subrange(from as int, len as int).len() == 0);
        }
        return String::new();
    }
    let mut to: usize = len;
    while to > from + 1 && white_space(text.get_char(to - 1))
        invariant
            from < to <= len,
            len == text@.len(),
            !is_white_space(text@[from as int]),
            forall|k: int| to <= k < len ==> is_white_space(#[trigger] text@[k]),
        decreases to,
    {
        to = to - 1;
    }
    proof {
        if to == from + 1 {
            assert(!is_white_space(text@[to - 1]));
        }
        assert(trimmed(text@.subrange(from as int, len as int)) == text@.subrange(from as int, len as int).subrange(0, (to - from) as int)) by {
            lemma_trim_from_end(text@, from as int, to as int);
            assert(text@.subrange(from as int, len as int).subrange(0, (to - from) as int) =~= text@.subrange(from as int, to as int));
            let rest = text@.subrange(from as int, len as int);
            assert(!is_white_space(rest[0]));
        }
        assert(text@.subrange(from as int, len as int).subrange(0, (to - from) as int) =~= text@.subrange(from as int, to as int));
    }
    String::from_str(text.substring_char(from, to))
}

/// Appends a character to a string: `String::push`, which adds the given
/// character to the end.
#[verifier::external_body]
fn push_char(text: &mut String, c: char)
    ensures
        final(text)@ == old(text)@.push(c),
{
    text.push(c);
}

/// Removes the last character of a string and returns it, or returns
/// `None` and leaves the string alone when it is empty.
fn pop_char(text: &mut String) -> (last: Option<char>)
    ensures
        old(text)@.len() == 0 ==> last is None && final(text)@ == old(text)@,
        old(text)@.len() > 0 ==> last == Some(old(text)@.last()) && final(text)@ == old(text)@.drop_last(),
{
    let len = text.as_str().unicode_len();
    if len == 0 {
        return None;
    }
    let last = text.as_str().get_char(len - 1);
    let rest = String::from_str(text.as_str().substring_char(0, len - 1));
    proof {
        assert(rest@ =~= old(text)@.drop_last());
    }
    *text = rest;
    Some(last)
}

/// What a key does while the prompt is open.
#[derive(Clone, Copy, Debug, PartialEq, Eq, Structural)]
pub enum PromptKey {
    /// The path was edited (or the key was taken as typing).
    Edited,
    /// Act on the typed path.
    Confirm,
    /// Close the prompt without acting.
    Close,
    /// The key does nothing here.
    Ignore,
}

/// What happens to the prompt when the path is confirmed.
#[derive(Clone, Debug)]
pub enum PromptOutcome {
    /// The path is empty: the prompt stays open with an error.
    Retry(SaveLoadPrompt),
    /// Save the game to this path.
    Save(String),
    /// Load the game from this path.
    Load(String),
}

impl SaveLoadPrompt {
    /// The prompt opened by S during play, on the default path
    /// `civterm.civ`, so a plain Enter saves without typing.
    pub fn for_save() -> (prompt: SaveLoadPrompt)
        ensures
            prompt.kind == SaveLoadKind::Save,
            prompt.input@ == "civterm.civ"@,
            prompt.error is None,
    {
        SaveLoadPrompt { kind: SaveLoadKind::Save, input: String::from_str("civterm.civ"), error: None }
    }

    /// The prompt opened by "Load Saved Game" on the menu, with nothing
    /// typed.
    pub fn for_load() -> (prompt: SaveLoadPrompt)
        ensures
            prompt.kind == SaveLoadKind::Load,
            prompt.input@.len() == 0,
            prompt.error is None,
    {
        SaveLoadPrompt { kind: SaveLoadKind::Load, input: String::new(), error: None }
    }

    /// A key while the prompt is open: a printable character typed without
    /// modifiers other than shift (`plain`) clears the error and joins the
    /// path while it has fewer than 200 characters; Backspace removes the
    /// last character; Enter confirms; Esc closes; anything else is
    /// ignored.
    pub fn handle_key(&mut self, key: Key, plain: bool) -> (action: PromptKey)
        requires
            old(self).input@.len() <= usize::MAX,
        ensures
            final(self).kind == old(self).kind,
            match key {
                Key::Char(c) => if !is_control(c) && plain {
                    &&& action == PromptKey::Edited
                    &&& final(self).error is None
                    &&& final(self).input@ == (if old(self).input@.len() < MAX_INPUT_CHARS {
                        old(self).input@.push(c)
                    } else {
                        old(self).input@
                    })
                } else {
                    action == PromptKey::Ignore && final(self).input@ == old(self).input@ && final(self).error
                        == old(self).error
                },
                Key::Backspace => {
                    &&& action == PromptKey::Edited
                    &&& final(self).error == old(self).error
                    &&& final(self).input@ == (if old(self).input@.len() > 0 {
                        old(self).input@.drop_last()
                    } else {
                        old(self).input@
                    })
                },
                Key::Enter => action == PromptKey::Confirm && final(self).input@ == old(self).input@
                    && final(self).error == old(self).error,
                Key::Esc => action == PromptKey::Close && final(self).input@ == old(self).input@
                    && final(self).error == old(self).error,
                _ => action == PromptKey::Ignore && final(self).input@ == old(self).input@ && final(self).error
                    == old(self).error,
            },
    {
        match key {
            Key::Char(c) => {
                let v = c as u32;
                let control = v <= 0x1f || (0x7f <= v && v <= 0x9f);
                if !control && plain {
                    self.error = None;
                    if self.input.as_str().unicode_len() < MAX_INPUT_CHARS {
                        push_char(&mut self.input, c);
                    }
                    PromptKey::Edited
                } else {
                    PromptKey::Ignore
                }
            },
            Key::Backspace => {
                let _ = pop_char(&mut self.input);
                PromptKey::Edited
            },
            Key::Enter => PromptKey::Confirm,
            Key::Esc => PromptKey::Close,
            _ => PromptKey::Ignore,
        }
    }

    /// Act on the typed path, trimmed of white space: an empty path keeps
    /// the prompt open with the error `Enter a path`; otherwise save to it
    /// or load from it, as the prompt asks.
    pub fn confirm(self) -> (outcome: PromptOutcome)
        ensures
            trimmed(self.input@).len() == 0 ==> (outcome matches PromptOutcome::Retry(p) && p.kind == self.kind
                && p.input@ == self.input@ && (p.error matches Some(e) && e@ == "Enter a path"@)),
            trimmed(self.input@).len() > 0 && self.kind == SaveLoadKind::Save ==> (outcome matches PromptOutcome::Save(
                path,
            ) && path@ == trimmed(self.input@)),
            trimmed(self.input@).len() > 0 && self.kind == SaveLoadKind::Load ==> (outcome matches PromptOutcome::Load(
                path,
            ) && path@ == trimmed(self.input@)),
    {
        let path = trim(self.input.as_str());
        if path.as_str().unicode_len() == 0 {
            return PromptOutcome::Retry(
                SaveLoadPrompt { kind: self.kind, input: self.input, error: Some(String::from_str("Enter a path")) },
            );
        }
        match self.kind {
            SaveLoadKind::Save => PromptOutcome::Save(path),
            SaveLoadKind::Load => PromptOutcome::Load(path),
        }
    }
}

/// The event recorded after a successful save.
pub fn saved_message(path: &str) -> (message: String)
    ensures
        message@ == "Game saved to "@ + path@,
{
    let mut message = String::from_str("Game saved to ");
    message.append(path);
    message
}

/// The event recorded after a successful load.
pub fn loaded_message(path: &str) -> (message: String)
    ensures
        message@ == "Loaded game from "@ + path@,
{
    let mut message = String::from_str("Loaded game from ");
    message.append(path);
    message
}

} // verus!
