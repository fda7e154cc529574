//! The screens before play: the splash, the civilization, competition and
//! difficulty selectors, the confirmation screen, and the help bar shown
//! during play.
use vstd::prelude::*;

use crate::geometry::{sat_add, sat_sub, Rect};
use crate::model::{civilization_name, difficulty_name, Civilization, Competition, Difficulty};
use crate::text::{decimal, decimal_string};
use vstd::string::StringSliceAdditionalSpecFns;

verus! {

/// How far the selector lists sit in from the screen's left edge.
pub const LIST_X_OFFSET: u16 = 6;

/// How far the selector lists sit below the screen's top edge.
pub const LIST_TOP: u16 = 4;

/// The width of the band that highlights the selected civilization.
pub const BAND_WIDTH: u16 = 20;

/// The gap between two commands on the help bar.
pub const HELP_GAP: usize = 3;

/// The civilization selector: the row under the cursor and the civilization
/// already chosen, if any.
#[derive(Clone, Copy, Debug, PartialEq, Eq, Structural)]
pub struct CivSelector {
    pub selected: usize,
    pub chosen: Option<Civilization>,
}

impl CivSelector {
    /// The selector with row `selected` under the cursor.
    pub fn new(selected: usize, chosen: Option<Civilization>) -> (selector: CivSelector)
        ensures
            selector == (CivSelector { selected, chosen }),
    {
        CivSelector { selected, chosen }
    }
}

/// The competition selector: the row under the cursor and the level already
/// chosen, if any.
#[derive(Clone, Copy, Debug, PartialEq, Eq, Structural)]
pub struct CompetitionSelector {
    pub selected: usize,
    pub chosen: Option<Competition>,
}

impl CompetitionSelector {
    /// The selector with row `selected` under the cursor.
    pub fn new(selected: usize, chosen: Option<Competition>) -> (selector: CompetitionSelector)
        ensures
            selector == (CompetitionSelector { selected, chosen }),
    {
        CompetitionSelector { selected, chosen }
    }
}

/// The difficulty selector: the row under the cursor and the level already
/// chosen, if any.
#[derive(Clone, Copy, Debug, PartialEq, Eq, Structural)]
pub struct DifficultySelector {
    pub selected: usize,
    pub chosen: Option<Difficulty>,
}

impl DifficultySelector {
    /// The selector with row `selected` under the cursor.
    pub fn new(selected: usize, chosen: Option<Difficulty>) -> (selector: DifficultySelector)
        ensures
            selector == (DifficultySelector { selected, chosen }),
    {
        DifficultySelector { selected, chosen }
    }
}

/// The confirmation screen that shows the three choices before the game
/// begins.
#[derive(Clone, Copy, Debug, PartialEq, Eq, Structural)]
pub struct StartConfirm {
    pub civilization: Civilization,
    pub competition: Competition,
    pub difficulty: Difficulty,
}

impl StartConfirm {
    /// The screen showing these choices.
    pub fn new(civilization: Civilization, competition: Competition, difficulty: Difficulty) -> (screen:
        StartConfirm)
        ensures
            screen == (StartConfirm { civilization, competition, difficulty }),
    {
        StartConfirm { civilization, competition, difficulty }
    }
}

/// The splash screen: a starfield and a globe with the game's name.
#[derive(Clone, Copy, Debug, PartialEq, Eq, Structural)]
pub struct SplashScreen {}

impl SplashScreen {
    /// The splash screen.
    pub fn new() -> (screen: SplashScreen)
        ensures
            screen == (SplashScreen {}),
    {
        SplashScreen {}
    }
}

/// The help bar during play: the command keystrokes and what they do.
#[derive(Clone, Debug)]
pub struct PlayingHelp {
    pub commands: Vec<(&'static str, &'static str)>,
}

impl PlayingHelp {
    /// The help bar listing `commands`.
    pub fn new(commands: Vec<(&'static str, &'static str)>) -> (help: PlayingHelp)
        ensures
            help.commands@ == commands@,
    {
        PlayingHelp { commands }
    }
}

/// The line describing a competition level.
pub fn competition_tagline(rivals: u8) -> (tagline: &'static str)
    ensures
        tagline@ == (if rivals == 1 {
            "One rival empire on the map"@
        } else if rivals == 2 {
            "Two rivals share the continents"@
        } else if rivals == 3 {
            "Three rivals vie for dominance"@
        } else if rivals == 4 {
            "Four rivals spread across the land"@
        } else if rivals == 5 {
            "Five rivals crowd the frontier"@
        } else if rivals == 6 {
            "Six rivals squeeze every corner"@
        } else if rivals == 7 {
            "Seven rivals, a crowded earth"@
        } else {
            "A world of rivals"@
        }),
{
    match rivals {
        1 => "One rival empire on the map",
        2 => "Two rivals share the continents",
        3 => "Three rivals vie for dominance",
        4 => "Four rivals spread across the land",
        5 => "Five rivals crowd the frontier",
        6 => "Six rivals squeeze every corner",
        7 => "Seven rivals, a crowded earth",
        _ => "A world of rivals",
    }
}

/// The line describing a difficulty level.
pub fn difficulty_tagline(difficulty: Difficulty) -> (tagline: &'static str)
    ensures
        tagline@ == (match difficulty {
            Difficulty::Easy => "Settled soil and gentle tribes"@,
            Difficulty::Normal => "The classic balance of empire"@,
            Difficulty::Hard => "Ruthless rivals at every step"@,
        }),
{
    match difficulty {
        Difficulty::Easy => "Settled soil and gentle tribes",
        Difficulty::Normal => "The classic balance of empire",
        Difficulty::Hard => "Ruthless rivals at every step",
    }
}

/// The row a list's cursor highlights: `selected`, held to the last of
/// `count` rows.
pub fn clamp_selection(selected: usize, count: usize) -> (row: usize)
    requires
        count >= 1,
    ensures
        row == (if selected < count - 1 {
            selected
        } else {
            (count - 1) as usize
        }),
{
    if selected < count - 1 {
        selected
    } else {
        count - 1
    }
}

/// Where a selector screen puts things: the centre column, the header row
/// (when it fits), the list's column and first row, and the footer row
/// (when there is one).
#[derive(Clone, Copy, Debug, PartialEq, Eq, Structural)]
pub struct SelectorFrame {
    pub centre_x: u16,
    pub header_y: Option<u16>,
    pub list_x: u16,
    pub list_top: u16,
    pub footer_y: Option<u16>,
}

/// Where a selector screen over `area` puts things.
pub open spec fn selector_frame_of(area: Rect) -> SelectorFrame {
    let bottom = area.bottom_edge();
    SelectorFrame {
        centre_x: (area.x + area.width / 2) as u16,
        header_y: if area.y + 1 < bottom {
            Some((area.y + 1) as u16)
        } else {
            None
        },
        list_x: (area.x + LIST_X_OFFSET) as u16,
        list_top: (area.y + LIST_TOP) as u16,
        footer_y: if sat_sub(bottom, 1) >= area.y {
            Some(sat_sub(bottom, 1) as u16)
        } else {
            None
        },
    }
}

/// Where a selector screen over `area` puts things: the header one row
/// below the top when that row is on screen, the list six columns in and
/// four rows down, and the key hints on the last row.
pub fn selector_frame(area: Rect) -> (frame: SelectorFrame)
    requires
        area.x + area.width / 2 <= u16::MAX,
        area.x + LIST_X_OFFSET <= u16::MAX,
        area.y + LIST_TOP <= u16::MAX,
    ensures
        frame == selector_frame_of(area),
{
    let bottom = area.bottom();
    let footer = bottom.saturating_sub(1);
    SelectorFrame {
        centre_x: area.x + area.width / 2,
        header_y: if area.y + 1 < bottom {
            Some(area.y + 1)
        } else {
            None
        },
        list_x: area.x + LIST_X_OFFSET,
        list_top: area.y + LIST_TOP,
        footer_y: if footer >= area.y {
            Some(footer)
        } else {
            None
        },
    }
}

/// A row of a selector's list as it is drawn: which entry, on which screen
/// row, and whether it carries the cursor's marker and highlight band.
#[derive(Clone, Copy, Debug, PartialEq, Eq, Structural)]
pub struct SelectorRow {
    pub index: usize,
    pub y: u16,
    pub selected: bool,
}

/// The rows a selector over `area` draws of a list of `count` entries with
/// the cursor on `selected`: the entries that fit above the bottom of the
/// area, one per row from the list's first row, the cursor held to the
/// last entry.
pub open spec fn selector_rows_of(area: Rect, selected: usize, count: usize) -> Seq<SelectorRow> {
    let top = selector_frame_of(area).list_top;
    let room = sat_sub(area.bottom_edge(), top as int);
    let shown = if count < room {
        count as int
    } else {
        room
    };
    let cursor = if selected < count - 1 {
        selected as int
    } else {
        count - 1
    };
    Seq::new(shown as nat, |i: int| SelectorRow { index: i as usize, y: (top + i) as u16, selected: i == cursor })
}

/// The rows a selector over `area` draws: see `selector_rows_of`.
pub fn selector_rows(area: Rect, selected: usize, count: usize) -> (rows: Vec<SelectorRow>)
    requires
        count >= 1,
        area.x + area.width / 2 <= u16::MAX,
        area.x + LIST_X_OFFSET <= u16::MAX,
        area.y + LIST_TOP <= u16::MAX,
    ensures
        rows@ == selector_rows_of(area, selected, count),
{
    let frame = selector_frame(area);
    let shown = visible_rows(area, frame.list_top, count);
    let cursor = clamp_selection(selected, count);
    let mut rows: Vec<SelectorRow> = Vec::new();
    let mut i: usize = 0;
    while i < shown
        invariant
            i <= shown,
            frame == selector_frame_of(area),
            shown == (if count < sat_sub(area.bottom_edge(), frame.list_top as int) {
                count as int
            } else {
                sat_sub(area.bottom_edge(), frame.list_top as int)
            }),
            cursor == (if selected < count - 1 {
                selected as int
            } else {
                count - 1
            }),
            count >= 1,
            rows@ == selector_rows_of(area, selected, count).subrange(0, i as int),
        decreases shown - i,
    {
        rows.push(SelectorRow { index: i, y: frame.list_top + i as u16, selected: i == cursor });
        i = i + 1;
        proof {
            assert(rows@ =~= selector_rows_of(area, selected, count).subrange(0, i as int));
        }
    }
    proof {
        assert(rows@ =~= selector_rows_of(area, selected, count));
    }
    rows
}

/// The column where text `len` cells long starts when centred on `centre`.
pub fn centred_start(centre: u16, len: u16) -> (start: u16)
    ensures
        start == sat_sub(centre as int, (len / 2) as int),
{
    centre.saturating_sub(len / 2)
}

/// How many of `count` list rows, from row `top`, are drawn above the
/// bottom of `area`.
pub fn visible_rows(area: Rect, top: u16, count: usize) -> (rows: usize)
    ensures
        rows == (if count < sat_sub(area.bottom_edge(), top as int) {
            count as int
        } else {
            sat_sub(area.bottom_edge(), top as int)
        }),
{
    let room = area.bottom().saturating_sub(top) as usize;
    if count < room {
        count
    } else {
        room
    }
}

/// The column where a highlight band from `start` covering `len` cells
/// ends, stopping at the screen's right edge `right`.
pub fn band_end(start: u16, len: u16, right: u16) -> (end: u16)
    ensures
        end == (if sat_add(start as int, len as int) < right {
            sat_add(start as int, len as int)
        } else {
            right as int
        }),
{
    let end = start.saturating_add(len);
    if end < right {
        end
    } else {
        right
    }
}

/// The civilization selector's divider column, five twelfths across, and
/// the column where the selected civilization's details begin, three past
/// it.
pub fn civ_columns(area: Rect) -> (columns: (u16, u16))
    requires
        area.width * 5 <= u16::MAX,
        area.x + area.width * 5 / 12 + 3 <= u16::MAX,
    ensures
        columns.0 == area.x + area.width * 5 / 12,
        columns.1 == columns.0 + 3,
{
    let divider = area.x + area.width * 5 / 12;
    (divider, divider + 3)
}

/// The note naming the civilization already chosen.
pub fn civ_chosen_note(civ: Civilization) -> (note: String)
    ensures
        note@ == "✦ ["@ + civilization_name(civ) + "] chosen"@,
{
    let mut note = String::from_str("✦ [");
    note.append(civ.display_name());
    note.append("] chosen");
    note
}

/// A number of rivals: `5 rivals`.
pub fn rivals_text(competition: Competition) -> (text: String)
    ensures
        text@ == decimal(competition.rival_count() as nat) + " rivals"@,
{
    let mut text = decimal_string(competition.rivals() as u64);
    text.append(" rivals");
    text
}

/// The note naming the competition level already chosen.
pub fn competition_chosen_note(competition: Competition) -> (note: String)
    ensures
        note@ == "✦ ["@ + decimal(competition.rival_count() as nat) + " rivals] selected"@,
{
    let mut note = String::from_str("✦ [");
    let number = decimal_string(competition.rivals() as u64);
    note.append(number.as_str());
    note.append(" rivals] selected");
    note
}

/// The note naming the difficulty already chosen.
pub fn difficulty_chosen_note(difficulty: Difficulty) -> (note: String)
    ensures
        note@ == "✦ ["@ + difficulty_name(difficulty) + "] selected"@,
{
    let mut note = String::from_str("✦ [");
    note.append(difficulty.display_name());
    note.append("] selected");
    note
}

/// Where the confirmation screen puts things: the centre column, the title
/// row (five rows above the middle), the column of the summary panel, and
/// the column where the chosen values start.
#[derive(Clone, Copy, Debug, PartialEq, Eq, Structural)]
pub struct ConfirmFrame {
    pub centre_x: u16,
    pub top: u16,
    pub panel_x: u16,
    pub value_x: u16,
}

/// Where the confirmation screen over `area` puts things, the summary panel
/// aligned with a subtitle `subtitle_len` cells long.
pub fn confirm_frame(area: Rect, subtitle_len: u16) -> (frame: ConfirmFrame)
    requires
        area.y + area.height / 2 >= 5,
        area.y + area.height / 2 + 8 <= u16::MAX,
        area.x + area.width / 2 + 16 <= u16::MAX,
    ensures
        frame.centre_x == area.x + area.width / 2,
        frame.top == area.y + area.height / 2 - 5,
        frame.panel_x == sat_sub(frame.centre_x as int, (subtitle_len / 2) as int),
        frame.value_x == frame.panel_x + 16,
{
    let centre_x = area.x + area.width / 2;
    let panel_x = centre_x.saturating_sub(subtitle_len / 2);
    ConfirmFrame { centre_x, top: area.y + area.height / 2 - 5, panel_x, value_x: panel_x + 16 }
}

/// Where the splash screen's globe has its top-left corner: centred on the
/// screen, as far as the screen allows.
pub fn globe_origin(area: Rect, globe_cols: u16, globe_rows: u16) -> (origin: (u16, u16))
    ensures
        origin.0 == sat_sub(sat_add(area.x as int, (area.width / 2) as int), (globe_cols / 2) as int),
        origin.1 == sat_sub(sat_add(area.y as int, (area.height / 2) as int), (globe_rows / 2) as int),
{
    (
        area.x.saturating_add(area.width / 2).saturating_sub(globe_cols / 2),
        area.y.saturating_add(area.height / 2).saturating_sub(globe_rows / 2),
    )
}

/// The starfield's hash of a screen cell.
pub open spec fn star_hash(x: u16, y: u16) -> u32 {
    let h0 = ((x as nat * 747_796_405nat + y as nat * 2_891_336_453nat) % 0x1_0000_0000nat) as u32;
    let h1 = h0 ^ (h0 >> 13u32);
    let h2 = ((h1 as nat * 1_274_126_177nat) % 0x1_0000_0000nat) as u32;
    h2 ^ (h2 >> 16u32)
}

/// The star drawn on a screen cell, if any: one cell in about six carries a
/// star, its glyph chosen by a hash of the cell.
pub open spec fn star_of(x: u16, y: u16) -> Option<char> {
    let h = star_hash(x, y) % 23;
    if h == 0 {
        Some('*')
    } else if h == 1 {
        Some('.')
    } else if h == 2 {
        Some('+')
    } else if h == 3 {
        Some(':')
    } else {
        None
    }
}

/// The star drawn on the splash screen's cell `(x, y)`, if any.
pub fn star_at(x: u16, y: u16) -> (star: Option<char>)
    ensures
        star == star_of(x, y),
{
    let a = (x as u32).wrapping_mul(747_796_405);
    let b = (y as u32).wrapping_mul(2_891_336_453);
    let mut h = a.wrapping_add(b);
    proof {
        let xa = x as nat * 747_796_405nat;
        let yb = y as nat * 2_891_336_453nat;
        assert(h as nat == (xa + yb) % 0x1_0000_0000nat) by (nonlinear_arith)
            requires
                a as nat == xa % 0x1_0000_0000nat,
                b as nat == yb % 0x1_0000_0000nat,
                h as nat == (a as nat + b as nat) % 0x1_0000_0000nat,
        ;
    }
    h = h ^ (h >> 13);
    h = h.wrapping_mul(1_274_126_177);
    h = h ^ (h >> 16);
    let r = h % 23;
    if r == 0 {
        Some('*')
    } else if r == 1 {
        Some('.')
    } else if r == 2 {
        Some('+')
    } else if r == 3 {
        Some(':')
    } else {
        None
    }
}

/// How the help bar packs commands `widths` cells wide into rows at most
/// `width` cells across, greedily from the left with a gap between each two
/// commands: each row as the position of its first command and the cells
/// it uses. A command wider than a whole row gets a row to itself.
pub open spec fn packed(widths: Seq<int>, width: int) -> Seq<(int, int)>
    decreases widths.len(),
{
    if widths.len() == 0 {
        Seq::empty()
    } else {
        let rows = packed(widths.drop_last(), width);
        let w = widths.last();
        if rows.len() > 0 {
            let used = rows.last().1;
            let with_gap = if used == 0 {
                w
            } else {
                used + HELP_GAP + w
            };
            if with_gap <= width {
                rows.update(rows.len() - 1, (rows.last().0, with_gap))
            } else {
                rows.push((widths.len() - 1, w))
            }
        } else {
            rows.push((widths.len() - 1, w))
        }
    }
}

/// The help bar's rows for commands `widths` cells wide on a bar `width`
/// cells across: the position of each row's first command and the cells
/// the row uses.
pub fn help_rows(widths: &Vec<usize>, width: u16) -> (rows: Vec<(usize, usize)>)
    requires
        forall|i: int| 0 <= i < widths.len() ==> widths@[i] <= u16::MAX,
    ensures
        rows@.map_values(|r: (usize, usize)| (r.0 as int, r.1 as int)) == packed(
            widths@.map_values(|w: usize| w as int),
            width as int,
        ),
{
    let ghost ws = widths@.map_values(|w: usize| w as int);
    let mut rows: Vec<(usize, usize)> = Vec::new();
    let mut i: usize = 0;
    proof {
        assert(ws.take(0) =~= Seq::<int>::empty());
    }
    while i < widths.len()
        invariant
            i <= widths.len(),
            ws == widths@.map_values(|w: usize| w as int),
            forall|k: int| 0 <= k < widths.len() ==> widths@[k] <= u16::MAX,
            rows@.map_values(|r: (usize, usize)| (r.0 as int, r.1 as int)) == packed(ws.take(i as int), width as int),
            forall|k: int| 0 <= k < rows.len() ==> (#[trigger] rows@[k]).1 <= u16::MAX,
        decreases widths.len() - i,
    {
        let w = widths[i];
        proof {
            assert(ws.take(i + 1).drop_last() =~= ws.take(i as int));
            assert(ws.take(i + 1).last() == w as int);
        }
        let ghost before = rows@;
        let n = rows.len();
        let mut placed = false;
        if n > 0 {
            let (first, used) = rows[n - 1];
            let with_gap = if used == 0 {
                w
            } else {
                used + HELP_GAP + w
            };
            if with_gap <= width as usize {
                rows.set(n - 1, (first, with_gap));
                placed = true;
            }
        }
        if !placed {
            rows.push((i, w));
        }
        i = i + 1;
        proof {
            assert(rows@.map_values(|r: (usize, usize)| (r.0 as int, r.1 as int)) =~= packed(
                ws.take(i as int),
                width as int,
            ));
        }
    }
    proof {
        assert(ws.take(i as int) =~= ws);
    }
    rows
}

/// Every row of the help bar fits the bar, except a row holding a single
/// command that is wider than the bar on its own; and the rows take the
/// commands in order, the first row starting with the first command.
pub proof fn lemma_help_rows_fit(widths: Seq<int>, width: int)
    requires
        forall|i: int| 0 <= i < widths.len() ==> widths[i] >= 1,
    ensures
        ({
            let rows = packed(widths, width);
            &&& forall|r: int| 0 <= r < rows.len() ==> {
                let next = if r + 1 < rows.len() {
                    rows[r + 1].0
                } else {
                    widths.len() as int
                };
                #[trigger] rows[r].1 <= width || next == rows[r].0 + 1
            }
            &&& forall|r: int| 0 <= r < rows.len() ==> 0 <= #[trigger] rows[r].0 < widths.len()
            &&& forall|r: int, s: int| 0 <= r < s < rows.len() ==> #[trigger] rows[r].0 < #[trigger] rows[s].0
            &&& (widths.len() > 0 ==> rows.len() > 0 && rows[0].0 == 0)
        }),
    decreases widths.len(),
{
    if widths.len() > 0 {
        lemma_help_rows_fit(widths.drop_last(), width);
        let rows = packed(widths.drop_last(), width);
        assert forall|i: int| 0 <= i < widths.drop_last().len() implies widths.drop_last()[i] >= 1 by {
            assert(widths.drop_last()[i] == widths[i]);
        }
    }
}

/// The column where a help-bar row using `total` cells starts: centred on
/// the bar.
pub fn help_row_start(area: Rect, total: usize) -> (start: u16)
    requires
        total <= u16::MAX,
        area.x + area.width <= u16::MAX,
    ensures
        start == area.x + sat_sub(area.width as int, total as int) / 2,
{
    area.x + area.width.saturating_sub(total as u16) / 2
}

/// The cells each command takes on the help bar: its keystroke, a space,
/// and its description.
pub fn help_widths(commands: &Vec<(&'static str, &'static str)>) -> (widths: Vec<usize>)
    requires
        forall|i: int| 0 <= i < commands.len() ==> (#[trigger] commands@[i]).0.spec_bytes().len() + 1
            + commands@[i].1.spec_bytes().len() <= u16::MAX,
    ensures
        widths@.len() == commands@.len(),
        forall|i: int| 0 <= i < commands.len() ==> #[trigger] widths@[i] == commands@[i].0.spec_bytes().len() + 1
            + commands@[i].1.spec_bytes().len(),
{
    let mut widths: Vec<usize> = Vec::new();
    let mut i: usize = 0;
    while i < commands.len()
        invariant
            i <= commands.len(),
            widths@.len() == i,
            forall|k: int| 0 <= k < commands.len() ==> (#[trigger] commands@[k]).0.spec_bytes().len() + 1
                + commands@[k].1.spec_bytes().len() <= u16::MAX,
            forall|k: int| 0 <= k < i ==> #[trigger] widths@[k] == commands@[k].0.spec_bytes().len() + 1
                + commands@[k].1.spec_bytes().len(),
        decreases commands.len() - i,
    {
        let (key, description) = commands[i];
        widths.push(key.len() + 1 + description.len());
        i = i + 1;
    }
    widths
}

} // verus!
