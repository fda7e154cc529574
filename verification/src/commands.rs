//! The decisions of play that sit between the keyboard and the game: which
//! keys do what, the help line of available commands, naming new cities,
//! cycling through units, where a move leads, and the recent-event log.
use vstd::prelude::*;

use crate::game_screen::{LEFT_COLUMN_WIDTH, TILE_WIDTH};
use crate::geometry::Rect;
use crate::map_view::{
    adjacency, adjacent_direction, camera_fits, camera_for, lemma_camera_settles, next_camera,
};
use crate::model::{
    city_name_list, civilization_name, Advancement, CityId, Civilization, Direction, Location, UnitClass, UnitId,
};
use crate::pointer::{Pointer, PointerKind};
use crate::quit_dialog::QuitChoice;
use crate::setup::Key;
use crate::text::{decimal, decimal_string};

verus! {

/// The number of most-recent event messages the log keeps.
pub const EVENT_LOG_SIZE: usize = 5;

/// The name a civilization gives the city it founds when it already has
/// `existing` cities: the next name on its list, then `City 21`, `City 22`
/// and so on once the list runs out.
pub open spec fn city_name_of(civ: Civilization, existing: nat) -> Seq<char> {
    if existing < city_name_list(civ).len() {
        city_name_list(civ)[existing as int]
    } else {
        "City "@ + decimal(existing + 1)
    }
}

/// The name for a civilization's next city, given how many cities it
/// already has. Cities are named in order of founding.
pub fn next_city_name(civ: Civilization, existing_cities: usize) -> (name: String)
    requires
        existing_cities < usize::MAX,
    ensures
        name@ == city_name_of(civ, existing_cities as nat),
{
    let names = civ.city_names();
    proof {
        assert(names@.len() == city_name_list(civ).len());
    }
    if existing_cities < names.len() {
        proof {
            assert(names@.map_values(|name: &str| name@)[existing_cities as int] == names@[existing_cities as int]@);
        }
        String::from_str(names[existing_cities])
    } else {
        let mut name = String::from_str("City ");
        let number = decimal_string((existing_cities + 1) as u64);
        name.append(number.as_str());
        name
    }
}

/// The name for the city a settler founds: the next name of its owner's
/// civilization given the cities the player has, or plain `City` when the
/// settler is no longer among the player's units (`owner` is `None`).
pub fn city_name_for(owner: Option<Civilization>, existing_cities: usize) -> (name: String)
    requires
        existing_cities < usize::MAX,
    ensures
        name@ == (match owner {
            Some(civ) => city_name_of(civ, existing_cities as nat),
            None => "City"@,
        }),
{
    match owner {
        Some(civ) => next_city_name(civ, existing_cities),
        None => String::from_str("City"),
    }
}

/// The command keystrokes the help bar lists: the unit commands while a
/// unit is selected (founding a city only for a settler), then the commands
/// that always apply.
pub open spec fn commands_of(selected: bool, can_found: bool) -> Seq<(Seq<char>, Seq<char>)> {
    let unit = if selected {
        seq![
            ("arrows"@, "move"@),
            ("u/k/h/m"@, "move"@),
            ("y/i/n/,"@, "diag"@),
            ("f"@, "fortify"@),
            ("s"@, "sentry"@),
            ("w"@, "work"@),
            ("c"@, "cancel"@),
        ] + (if can_found {
            seq![("v"@, "found"@)]
        } else {
            Seq::empty()
        })
    } else {
        Seq::empty()
    };
    unit + seq![
        ("tab"@, "next unit"@),
        ("space"@, "end turn"@),
        ("e"@, "events"@),
        ("?"@, "help"@),
        ("q"@, "quit"@),
    ]
}

/// The texts of keystroke-and-description pairs.
pub open spec fn command_texts(commands: Seq<(&'static str, &'static str)>) -> Seq<(Seq<char>, Seq<char>)> {
    commands.map_values(|c: (&'static str, &'static str)| (c.0@, c.1@))
}

/// The command keystrokes available in the current playing context.
pub fn playing_commands(selected: bool, can_found: bool) -> (commands: Vec<(&'static str, &'static str)>)
    ensures
        command_texts(commands@) == commands_of(selected, can_found),
{
    let mut commands: Vec<(&'static str, &'static str)> = Vec::new();
    if selected {
        commands.push(("arrows", "move"));
        commands.push(("u/k/h/m", "move"));
        commands.push(("y/i/n/,", "diag"));
        commands.push(("f", "fortify"));
        commands.push(("s", "sentry"));
        commands.push(("w", "work"));
        commands.push(("c", "cancel"));
        if can_found {
            commands.push(("v", "found"));
        }
    }
    commands.push(("tab", "next unit"));
    commands.push(("space", "end turn"));
    commands.push(("e", "events"));
    commands.push(("?", "help"));
    commands.push(("q", "quit"));
    proof {
        assert(command_texts(commands@) =~= commands_of(selected, can_found));
    }
    commands
}

/// Whether the selected unit can found a city: it is a settler. `selected`
/// is the class of the selected unit, or `None` when no unit of the player
/// is selected.
pub fn selected_can_found(selected: Option<UnitClass>) -> (can_found: bool)
    ensures
        can_found == (selected == Some(UnitClass::Settler)),
{
    match selected {
        Some(UnitClass::Settler) => true,
        _ => false,
    }
}

/// The position of the first unit with identity `id` in `units`, if any.
pub open spec fn first_index_of(units: Seq<UnitId>, id: UnitId) -> Option<int> {
    if exists|i: int| 0 <= i < units.len() && units[i] == id {
        Some(choose|i: int| 0 <= i < units.len() && units[i] == id && forall|j: int| 0 <= j < i ==> units[j] != id)
    } else {
        None
    }
}

/// Where in `units` the unit `id` first appears, if it does.
pub fn position_of(units: &Vec<UnitId>, id: UnitId) -> (index: Option<usize>)
    ensures
        match index {
            Some(i) => i < units.len() && units@[i as int] == id && forall|j: int| 0 <= j < i ==> units@[j] != id,
            None => forall|j: int| 0 <= j < units.len() ==> units@[j] != id,
        },
{
    let mut i: usize = 0;
    while i < units.len()
        invariant
            i <= units.len(),
            forall|j: int| 0 <= j < i ==> units@[j] != id,
        decreases units.len() - i,
    {
        if units[i].id == id.id {
            return Some(i);
        }
        i = i + 1;
    }
    None
}

/// The map coordinate of the selected unit among the player's units (each
/// with its location), for the focus panel and the camera; `None` when no
/// unit is selected or it is no longer among them.
pub fn focus_coordinate(selected: Option<UnitId>, units: &Vec<(UnitId, Location)>) -> (focus: Option<(usize, usize)>)
    ensures
        match selected {
            None => focus is None,
            Some(id) => match focus {
                Some(f) => exists|i: int|
                    0 <= i < units.len() && units@[i].0 == id && f == (units@[i].1.x as usize, units@[i].1.y as usize)
                        && forall|j: int| 0 <= j < i ==> units@[j].0 != id,
                None => forall|j: int| 0 <= j < units.len() ==> units@[j].0 != id,
            },
        },
{
    let id = match selected {
        Some(id) => id,
        None => return None,
    };
    let mut i: usize = 0;
    while i < units.len()
        invariant
            i <= units.len(),
            selected == Some(id),
            forall|j: int| 0 <= j < i ==> units@[j].0 != id,
        decreases units.len() - i,
    {
        let (unit, location) = units[i];
        if unit.id == id.id {
            return Some((location.x as usize, location.y as usize));
        }
        i = i + 1;
    }
    None
}

/// The unit selected after pressing Tab: the one after the current
/// selection in the player's list of units, wrapping to the first; the
/// first when nothing is selected; when the selected unit is no longer
/// listed, the search starts as if from the first, so the second is
/// selected (the first when it is the only one); nothing when the player
/// has no units.
pub open spec fn next_selection(units: Seq<UnitId>, current: Option<UnitId>) -> Option<UnitId> {
    if units.len() == 0 {
        None
    } else {
        let index = match current {
            Some(id) => match first_index_of(units, id) {
                Some(i) => (i + 1) % (units.len() as int),
                None => 1int % (units.len() as int),
            },
            None => 0,
        };
        Some(units[index])
    }
}

/// The unit selected after pressing Tab.
pub fn next_unit(units: &Vec<UnitId>, current: Option<UnitId>) -> (next: Option<UnitId>)
    ensures
        next == next_selection(units@, current),
{
    if units.len() == 0 {
        return None;
    }
    let index = match current {
        Some(id) => {
            let found = position_of(units, id);
            let at = match found {
                Some(i) => i,
                None => 0,
            };
            proof {
                match found {
                    Some(i) => {
                        let w = choose|k: int|
                            0 <= k < units@.len() && units@[k] == id && forall|j: int| 0 <= j < k ==> units@[j] != id;
                        assert(units@[i as int] == id);
                        if w < i {
                        } else if w > i {
                        }
                        assert(first_index_of(units@, id) == Some(i as int));
                    },
                    None => {
                        assert(first_index_of(units@, id) is None);
                    },
                }
            }
            (at + 1) % units.len()
        },
        None => 0,
    };
    Some(units[index])
}

/// Tab always lands on one of the player's units when there is one.
pub proof fn lemma_tab_stays_among_units(units: Seq<UnitId>, current: Option<UnitId>)
    requires
        units.len() > 0,
    ensures
        next_selection(units, current) matches Some(u) && units.contains(u),
{
    let n = units.len() as int;
    match current {
        Some(id) => match first_index_of(units, id) {
            Some(i) => {
                assert(0 <= (i + 1) % n < n);
            },
            None => {},
        },
        None => {},
    }
    let index = match current {
        Some(id) => match first_index_of(units, id) {
            Some(i) => (i + 1) % n,
            None => 1int % n,
        },
        None => 0,
    };
    assert(units[index] == next_selection(units, current)->0);
}

/// The tile a unit at `from` steps onto moving in `direction` on a map of
/// `map` tiles: columns wrap east to west; a step past the northern or
/// southern edge leads nowhere.
pub open spec fn step_target(from: Location, direction: Direction, map: (usize, usize)) -> Option<(int, int)> {
    let y = from.y + direction.dy();
    if 0 <= y < map.1 {
        Some(((from.x + direction.dx()) % (map.0 as int), y))
    } else {
        None
    }
}

/// The tile a move aims at, worked out before the move so a battle's flash
/// lands on the defended square.
pub fn step_destination(from: Location, direction: Direction, map: (usize, usize)) -> (to: Option<Location>)
    requires
        0 < map.0 <= u16::MAX,
        map.1 <= u16::MAX,
    ensures
        match to {
            Some(t) => step_target(from, direction, map) == Some((t.x as int, t.y as int)),
            None => step_target(from, direction, map) is None,
        },
{
    let (dx, dy) = direction.delta();
    let width = map.0 as i64;
    let raw_x = from.x as i64 + dx as i64;
    let r = raw_x % width;
    let x = if r < 0 {
        r + width
    } else {
        r
    };
    proof {
        crate::map_view::lemma_wrap_column(raw_x as int, 0, width as int);
    }
    let y = from.y as i64 + dy as i64;
    if y >= 0 && y < map.1 as i64 {
        Some(Location { x: x as u16, y: y as u16 })
    } else {
        None
    }
}

/// The log after recording `events`: the messages so far followed by the
/// new ones, keeping only the most recent `EVENT_LOG_SIZE`.
pub open spec fn recorded(log: Seq<Seq<char>>, events: Seq<Seq<char>>) -> Seq<Seq<char>> {
    let all = log + events;
    if all.len() > EVENT_LOG_SIZE {
        all.skip(all.len() - EVENT_LOG_SIZE)
    } else {
        all
    }
}

/// Record `events` in the log, keeping only the most recent few messages so
/// the log view stays small.
pub fn record_events(log: &mut Vec<String>, events: Vec<String>)
    ensures
        crate::city_window::texts(final(log)@) == recorded(
            crate::city_window::texts(old(log)@),
            crate::city_window::texts(events@),
        ),
{
    let ghost before = crate::city_window::texts(log@);
    let ghost incoming = crate::city_window::texts(events@);
    let mut all: Vec<String> = Vec::new();
    let mut i: usize = 0;
    while i < log.len()
        invariant
            i <= log.len(),
            all@.len() == i,
            forall|k: int| 0 <= k < i ==> (#[trigger] all@[k])@ == log@[k]@,
        decreases log.len() - i,
    {
        all.push(log[i].clone());
        i = i + 1;
    }
    let mut j: usize = 0;
    while j < events.len()
        invariant
            j <= events.len(),
            i == log.len(),
            all@.len() == i + j,
            forall|k: int| 0 <= k < i ==> (#[trigger] all@[k])@ == log@[k]@,
            forall|k: int| 0 <= k < j ==> (#[trigger] all@[i + k])@ == events@[k]@,
        decreases events.len() - j,
    {
        all.push(events[j].clone());
        j = j + 1;
    }
    let start = if all.len() > EVENT_LOG_SIZE {
        all.len() - EVENT_LOG_SIZE
    } else {
        0
    };
    let mut kept: Vec<String> = Vec::new();
    let mut k = start;
    while k < all.len()
        invariant
            start <= k <= all.len(),
            kept@.len() == k - start,
            forall|m: int| 0 <= m < k - start ==> (#[trigger] kept@[m])@ == all@[start + m]@,
        decreases all.len() - k,
    {
        kept.push(all[k].clone());
        k = k + 1;
    }
    proof {
        let whole = before + incoming;
        assert forall|m: int| 0 <= m < whole.len() implies all@[m]@ == whole[m] by {
            if m >= i {
                assert(all@[i + (m - i)]@ == events@[m - i]@);
            }
        }
        assert(crate::city_window::texts(kept@) =~= recorded(before, incoming));
    }
    *log = kept;
}

/// The log never holds more than `EVENT_LOG_SIZE` messages, and the newest
/// message recorded is always its last.
pub proof fn lemma_log_keeps_the_newest(log: Seq<Seq<char>>, events: Seq<Seq<char>>)
    requires
        events.len() > 0,
    ensures
        recorded(log, events).len() <= EVENT_LOG_SIZE,
        recorded(log, events).last() == events.last(),
{
}

/// What a key does during play.
#[derive(Clone, Copy, Debug, PartialEq, Eq, Structural)]
pub enum PlayAction {
    /// The research window is open: the key goes to it.
    ResearchKey,
    /// The war-or-peace window is open: the key goes to it.
    DiplomacyKey,
    /// Close the work picker without choosing.
    CloseWorkPicker,
    /// Give the work order under the work picker's cursor.
    SaveWorkPicker,
    /// Move the work picker's cursor by this many rows.
    MoveWorkCursor(isize),
    /// Close the production picker without choosing.
    CloseProductionPicker,
    /// Build what the production picker's cursor is on.
    SaveProduction,
    /// Move the production picker's cursor: across the lists, then down.
    MovePickerCursor(isize, isize),
    /// Go back to the menu.
    Menu,
    /// Keep the game and open the quit dialog with this choice selected.
    OpenQuitDialog(QuitChoice),
    /// Show or hide the help bar.
    ToggleHelp,
    /// Close the city window.
    CloseCity,
    /// Hide the help bar.
    HideHelp,
    /// Select the next unit.
    NextUnit,
    /// Move the selected unit one step.
    Move(Direction),
    /// End the turn.
    EndTurn,
    /// Found a city with the selected unit.
    FoundCity,
    /// Open the work picker for the selected unit.
    OpenWorkPicker,
    /// Cancel the selected unit's standing order.
    CancelOrder,
    /// Show or hide the event log.
    ToggleEvents,
    /// Re-centre the camera on the selected unit and follow it again.
    FollowUnit,
    /// The key does nothing.
    Nothing,
}

/// What is open over the map while playing, which decides who gets a key.
#[derive(Clone, Copy, Debug, PartialEq, Eq, Structural)]
pub struct PlayState {
    pub research_open: bool,
    pub diplomacy_open: bool,
    pub work_picker_open: bool,
    pub production_picker_open: bool,
    pub city_selected: bool,
    pub help_shown: bool,
}

/// A layer of the playing screen.
#[derive(Clone, Copy, Debug, PartialEq, Eq, Structural)]
pub enum ScreenLayer {
    /// The map pane and the information column.
    Board,
    /// The help bar of commands along the bottom.
    HelpBar,
    /// The city window, centred over everything.
    CityWindow,
    /// The production picker, over the city window.
    ProductionPicker,
    /// The research window.
    Research,
    /// The war-or-peace window.
    Diplomacy,
    /// The work picker of the selected unit.
    WorkPicker,
}

/// What the playing screen has to show: the help bar, a selected city of
/// the player's own, the production and work pickers, the research and
/// war-or-peace windows, and whether a unit is selected.
#[derive(Clone, Copy, Debug, PartialEq, Eq, Structural)]
pub struct ScreenState {
    pub help_shown: bool,
    pub own_city_selected: bool,
    pub production_picker_open: bool,
    pub research_open: bool,
    pub diplomacy_open: bool,
    pub work_picker_open: bool,
    pub unit_selected: bool,
}

/// `layer` alone when `shown`, otherwise nothing.
pub open spec fn layer_if(shown: bool, layer: ScreenLayer) -> Seq<ScreenLayer> {
    if shown {
        seq![layer]
    } else {
        Seq::empty()
    }
}

/// The layers of the playing screen, drawn from the bottom up, each later
/// one over the earlier: the map; the help bar when shown; the city window
/// when a city of the player's own is selected, with the production picker
/// over it when open; the research window; the war-or-peace window; and the
/// work picker when open with a unit selected.
pub open spec fn screen_layers_of(state: ScreenState) -> Seq<ScreenLayer> {
    seq![ScreenLayer::Board] + layer_if(state.help_shown, ScreenLayer::HelpBar) + layer_if(
        state.own_city_selected,
        ScreenLayer::CityWindow,
    ) + layer_if(state.own_city_selected && state.production_picker_open, ScreenLayer::ProductionPicker)
        + layer_if(state.research_open, ScreenLayer::Research) + layer_if(
        state.diplomacy_open,
        ScreenLayer::Diplomacy,
    ) + layer_if(state.work_picker_open && state.unit_selected, ScreenLayer::WorkPicker)
}

/// The layers of the playing screen, bottom first: see `screen_layers_of`.
pub fn screen_layers(state: ScreenState) -> (layers: Vec<ScreenLayer>)
    ensures
        layers@ == screen_layers_of(state),
{
    let mut layers: Vec<ScreenLayer> = Vec::new();
    layers.push(ScreenLayer::Board);
    if state.help_shown {
        layers.push(ScreenLayer::HelpBar);
    }
    if state.own_city_selected {
        layers.push(ScreenLayer::CityWindow);
        if state.production_picker_open {
            layers.push(ScreenLayer::ProductionPicker);
        }
    }
    if state.research_open {
        layers.push(ScreenLayer::Research);
    }
    if state.diplomacy_open {
        layers.push(ScreenLayer::Diplomacy);
    }
    if state.work_picker_open && state.unit_selected {
        layers.push(ScreenLayer::WorkPicker);
    }
    proof {
        assert(layers@ =~= screen_layers_of(state));
    }
    layers
}

/// The map is always the bottom layer, and the research window, when open,
/// is drawn over the city window of a selected city.
pub proof fn lemma_research_over_city_window(state: ScreenState)
    ensures
        screen_layers_of(state)[0] == ScreenLayer::Board,
        state.research_open && state.own_city_selected ==> exists|i: int, j: int|
            0 <= i < j < screen_layers_of(state).len() && #[trigger] screen_layers_of(state)[i]
                == ScreenLayer::CityWindow && #[trigger] screen_layers_of(state)[j] == ScreenLayer::Research,
{
    let layers = screen_layers_of(state);
    if state.research_open && state.own_city_selected {
        let i: int = if state.help_shown {
            2
        } else {
            1
        };
        let j: int = if state.production_picker_open {
            i + 2
        } else {
            i + 1
        };
        assert(layers[i] == ScreenLayer::CityWindow && layers[j] == ScreenLayer::Research);
    }
}

/// What a key does during play. An open window captures the keyboard: the
/// research window first, then the war-or-peace window, then the work
/// picker, then the production picker. Otherwise q keeps the game and asks
/// what to do, opening the quit dialog on Continue; ? or
/// F1 toggles help, Esc closes the city window, else the help, else goes
/// to the menu; Tab selects the next unit; the arrows and u/m/h/k move the
/// selected unit north, south, west and east, y/i/n/, diagonally; j
/// re-centres the camera on the selected unit and follows it again; space or
/// Enter ends the turn; v founds a city, w opens the work picker, c cancels
/// an order and e toggles the event log.
pub open spec fn play_action_of(state: PlayState, key: Key) -> PlayAction {
    if state.research_open {
        PlayAction::ResearchKey
    } else if state.diplomacy_open {
        PlayAction::DiplomacyKey
    } else if state.work_picker_open {
        match key {
            Key::Esc => PlayAction::CloseWorkPicker,
            Key::Enter => PlayAction::SaveWorkPicker,
            Key::Down | Key::Char('j') => PlayAction::MoveWorkCursor(1isize),
            Key::Up | Key::Char('k') => PlayAction::MoveWorkCursor(-1isize),
            _ => PlayAction::Nothing,
        }
    } else if state.production_picker_open {
        match key {
            Key::Esc => PlayAction::CloseProductionPicker,
            Key::Enter => PlayAction::SaveProduction,
            Key::Down | Key::Char('j') => PlayAction::MovePickerCursor(0isize, 1isize),
            Key::Up | Key::Char('k') => PlayAction::MovePickerCursor(0isize, -1isize),
            Key::Right | Key::Char('l') => PlayAction::MovePickerCursor(1isize, 0isize),
            Key::Left | Key::Char('h') => PlayAction::MovePickerCursor(-1isize, 0isize),
            _ => PlayAction::Nothing,
        }
    } else {
        match key {
            Key::Char('q') | Key::Char('Q') => PlayAction::OpenQuitDialog(QuitChoice::Continue),
            Key::Char('?') | Key::F(1) => PlayAction::ToggleHelp,
            Key::Esc => if state.city_selected {
                PlayAction::CloseCity
            } else if state.help_shown {
                PlayAction::HideHelp
            } else {
                PlayAction::Menu
            },
            Key::Tab => PlayAction::NextUnit,
            Key::Up | Key::Char('u') => PlayAction::Move(Direction::N),
            Key::Down | Key::Char('m') => PlayAction::Move(Direction::S),
            Key::Left | Key::Char('h') => PlayAction::Move(Direction::W),
            Key::Right | Key::Char('k') => PlayAction::Move(Direction::E),
            Key::Char('y') => PlayAction::Move(Direction::NW),
            Key::Char('i') => PlayAction::Move(Direction::NE),
            Key::Char('n') => PlayAction::Move(Direction::SW),
            Key::Char(',') => PlayAction::Move(Direction::SE),
            Key::Char('j') => PlayAction::FollowUnit,
            Key::Char(' ') | Key::Enter => PlayAction::EndTurn,
            Key::Char('v') => PlayAction::FoundCity,
            Key::Char('w') => PlayAction::OpenWorkPicker,
            Key::Char('c') => PlayAction::CancelOrder,
            Key::Char('e') => PlayAction::ToggleEvents,
            _ => PlayAction::Nothing,
        }
    }
}

/// What a key does during play; see `play_action_of`.
pub fn play_action(state: PlayState, key: Key) -> (action: PlayAction)
    ensures
        action == play_action_of(state, key),
{
    if state.research_open {
        return PlayAction::ResearchKey;
    }
    if state.diplomacy_open {
        return PlayAction::DiplomacyKey;
    }
    if state.work_picker_open {
        return match key {
            Key::Esc => PlayAction::CloseWorkPicker,
            Key::Enter => PlayAction::SaveWorkPicker,
            Key::Down | Key::Char('j') => PlayAction::MoveWorkCursor(1),
            Key::Up | Key::Char('k') => PlayAction::MoveWorkCursor(-1),
            _ => PlayAction::Nothing,
        };
    }
    if state.production_picker_open {
        return match key {
            Key::Esc => PlayAction::CloseProductionPicker,
            Key::Enter => PlayAction::SaveProduction,
            Key::Down | Key::Char('j') => PlayAction::MovePickerCursor(0, 1),
            Key::Up | Key::Char('k') => PlayAction::MovePickerCursor(0, -1),
            Key::Right | Key::Char('l') => PlayAction::MovePickerCursor(1, 0),
            Key::Left | Key::Char('h') => PlayAction::MovePickerCursor(-1, 0),
            _ => PlayAction::Nothing,
        };
    }
    match key {
        Key::Char('q') | Key::Char('Q') => PlayAction::OpenQuitDialog(QuitChoice::Continue),
        Key::Char('?') | Key::F(1) => PlayAction::ToggleHelp,
        Key::Esc => if state.city_selected {
            PlayAction::CloseCity
        } else if state.help_shown {
            PlayAction::HideHelp
        } else {
            PlayAction::Menu
        },
        Key::Tab => PlayAction::NextUnit,
        Key::Up | Key::Char('u') => PlayAction::Move(Direction::N),
        Key::Down | Key::Char('m') => PlayAction::Move(Direction::S),
        Key::Left | Key::Char('h') => PlayAction::Move(Direction::W),
        Key::Right | Key::Char('k') => PlayAction::Move(Direction::E),
        Key::Char('y') => PlayAction::Move(Direction::NW),
        Key::Char('i') => PlayAction::Move(Direction::NE),
        Key::Char('n') => PlayAction::Move(Direction::SW),
        Key::Char(',') => PlayAction::Move(Direction::SE),
        Key::Char('j') => PlayAction::FollowUnit,
        Key::Char(' ') | Key::Enter => PlayAction::EndTurn,
        Key::Char('v') => PlayAction::FoundCity,
        Key::Char('w') => PlayAction::OpenWorkPicker,
        Key::Char('c') => PlayAction::CancelOrder,
        Key::Char('e') => PlayAction::ToggleEvents,
        _ => PlayAction::Nothing,
    }
}

/// While a window is open over the map no key reaches the game: it never
/// moves a unit, ends the turn or leaves for the menu.
pub proof fn lemma_open_windows_capture_keys(state: PlayState, key: Key)
    requires
        state.research_open || state.diplomacy_open || state.work_picker_open || state.production_picker_open,
    ensures
        !(play_action_of(state, key) is Move),
        play_action_of(state, key) != PlayAction::EndTurn,
        play_action_of(state, key) != PlayAction::Menu,
{
}

/// What play shows around the game: where the camera looks and whether it
/// follows the selected unit, the help bar and event log, the selected city
/// and its window's scroll, the quit dialog's choice while it is open, and
/// whether play is still on screen rather than the menu.
#[derive(Clone, Copy, Debug, PartialEq, Eq)]
pub struct PlayView {
    pub camera: (usize, usize),
    pub camera_follow: bool,
    pub show_help: bool,
    pub show_events: bool,
    pub selected_city: Option<CityId>,
    pub city_window_scroll: usize,
    pub quit_dialog: Option<QuitChoice>,
    pub playing: bool,
}

/// The map pane's size in world tiles: each tile is `TILE_WIDTH` cells wide
/// and one row tall.
pub open spec fn pane_tiles(pane: Rect) -> (usize, usize) {
    ((pane.width / (TILE_WIDTH as u16)) as usize, pane.height as usize)
}

/// The camera that re-centring on `focus` gives, for the map pane drawn
/// last (unchanged before any pane has been drawn).
pub open spec fn followed_camera(
    focus: Option<(usize, usize)>,
    map: (usize, usize),
    pane: Option<Rect>,
    camera: (usize, usize),
) -> (usize, usize) {
    match pane {
        Some(p) => {
            let next = next_camera(focus, map, pane_tiles(p), camera);
            (next.0 as usize, next.1 as usize)
        },
        None => camera,
    }
}

/// What the camera update of `followed_camera` reads stays in range.
pub open spec fn follow_fits(
    focus: Option<(usize, usize)>,
    map: (usize, usize),
    pane: Option<Rect>,
    camera: (usize, usize),
) -> bool {
    pane matches Some(p) ==> camera_fits(focus, map, pane_tiles(p), camera)
}

/// How an action of play changes what is shown, given the selected unit's
/// tile `focus`, the map's size and the map pane drawn last: the quit dialog
/// opens on its choice; the menu replaces play; help and the event log
/// toggle; Esc hides help or closes the city window, its scroll back at the
/// top; and `FollowUnit` re-centres the camera on the selected unit and
/// turns following back on. Every other action changes the game, not the
/// view.
pub open spec fn view_after(
    view: PlayView,
    action: PlayAction,
    focus: Option<(usize, usize)>,
    map: (usize, usize),
    pane: Option<Rect>,
) -> PlayView {
    match action {
        PlayAction::OpenQuitDialog(choice) => PlayView { quit_dialog: Some(choice), ..view },
        PlayAction::Menu => PlayView { playing: false, ..view },
        PlayAction::ToggleHelp => PlayView { show_help: !view.show_help, ..view },
        PlayAction::HideHelp => PlayView { show_help: false, ..view },
        PlayAction::CloseCity => PlayView { selected_city: None, city_window_scroll: 0, ..view },
        PlayAction::ToggleEvents => PlayView { show_events: !view.show_events, ..view },
        PlayAction::FollowUnit => PlayView {
            camera: followed_camera(focus, map, pane, view.camera),
            camera_follow: true,
            ..view
        },
        _ => view,
    }
}

/// How an action of play changes what is shown: see `view_after`.
pub fn apply_view_action(
    view: PlayView,
    action: PlayAction,
    focus: Option<(usize, usize)>,
    map: (usize, usize),
    pane: Option<Rect>,
) -> (next: PlayView)
    requires
        action == PlayAction::FollowUnit ==> follow_fits(focus, map, pane, view.camera),
    ensures
        next == view_after(view, action, focus, map, pane),
{
    match action {
        PlayAction::OpenQuitDialog(choice) => PlayView { quit_dialog: Some(choice), ..view },
        PlayAction::Menu => PlayView { playing: false, ..view },
        PlayAction::ToggleHelp => PlayView { show_help: !view.show_help, ..view },
        PlayAction::HideHelp => PlayView { show_help: false, ..view },
        PlayAction::CloseCity => PlayView { selected_city: None, city_window_scroll: 0, ..view },
        PlayAction::ToggleEvents => PlayView { show_events: !view.show_events, ..view },
        PlayAction::FollowUnit => {
            let camera = match pane {
                Some(p) => {
                    let tiles = ((p.width / (TILE_WIDTH as u16)) as usize, p.height as usize);
                    camera_for(focus, map, tiles, view.camera)
                },
                None => view.camera,
            };
            PlayView { camera, camera_follow: true, ..view }
        },
        _ => view,
    }
}

/// Re-centring twice is re-centring once: a camera just placed on the
/// selected unit stays where it is, and the second re-centring reads values
/// in range whenever the first did.
pub proof fn lemma_follow_twice(
    view: PlayView,
    focus: Option<(usize, usize)>,
    map: (usize, usize),
    pane: Option<Rect>,
)
    requires
        map.0 > 0,
    ensures
        ({
            let once = view_after(view, PlayAction::FollowUnit, focus, map, pane);
            &&& view_after(once, PlayAction::FollowUnit, focus, map, pane) == once
            &&& follow_fits(focus, map, pane, view.camera) ==> follow_fits(focus, map, pane, once.camera)
        }),
{
    if let Some(p) = pane {
        lemma_camera_settles(focus, map, pane_tiles(p), view.camera);
    }
}

/// The first of the player's cities, given with their tiles, that stands
/// on tile `(x, y)`.
pub open spec fn own_city_at(cities: Seq<((usize, usize), CityId)>, x: int, y: int) -> Option<CityId>
    decreases cities.len(),
{
    if cities.len() == 0 {
        None
    } else if cities[0].0.0 == x && cities[0].0.1 == y {
        Some(cities[0].1)
    } else {
        own_city_at(cities.drop_first(), x, y)
    }
}

/// The view at the start of a new game: the camera at the map's top-left
/// corner and following the selected unit, no city selected and the city
/// window's scroll at the top; the help bar, the event log and the quit
/// dialog as they were.
pub open spec fn new_game_view(view: PlayView) -> PlayView {
    PlayView { camera: (0, 0), camera_follow: true, selected_city: None, city_window_scroll: 0, playing: true, ..view }
}

/// The view at the start of a new game: see `new_game_view`.
pub fn start_view(view: PlayView) -> (started: PlayView)
    ensures
        started == new_game_view(view),
{
    PlayView { camera: (0, 0), camera_follow: true, selected_city: None, city_window_scroll: 0, playing: true, ..view }
}

/// How a left press changes what is shown: the close button closes the city
/// window, its scroll back at the top; a press on the information column
/// clears the city selection; no other press changes the view.
pub open spec fn view_after_press(view: PlayView, press: PressAction) -> PlayView {
    match press {
        PressAction::CloseCity => PlayView { selected_city: None, city_window_scroll: 0, ..view },
        PressAction::ClearCity => PlayView { selected_city: None, ..view },
        _ => view,
    }
}

/// How a left press changes what is shown: see `view_after_press`.
pub fn apply_press(view: PlayView, press: PressAction) -> (next: PlayView)
    ensures
        next == view_after_press(view, press),
{
    match press {
        PressAction::CloseCity => PlayView { selected_city: None, city_window_scroll: 0, ..view },
        PressAction::ClearCity => PlayView { selected_city: None, ..view },
        _ => view,
    }
}

/// How a click on the map changes the city selection, given the player's
/// cities with their tiles: a click that moves the selected unit leaves it
/// alone; a click on a tile selects the player's city there, or clears the
/// selection when there is none; a click below the map clears it.
pub open spec fn selection_after_click(
    current: Option<CityId>,
    click: ClickAction,
    cities: Seq<((usize, usize), CityId)>,
) -> Option<CityId> {
    match click {
        ClickAction::Move(_) => current,
        ClickAction::SelectAt(x, y) => own_city_at(cities, x as int, y as int),
        ClickAction::Clear => None,
    }
}

/// The player's city on tile `(x, y)`: see `own_city_at`.
fn find_own_city(cities: &Vec<((usize, usize), CityId)>, x: usize, y: usize) -> (city: Option<CityId>)
    ensures
        city == own_city_at(cities@, x as int, y as int),
{
    let mut i: usize = 0;
    proof {
        assert(cities@.skip(0) =~= cities@);
    }
    while i < cities.len()
        invariant
            i <= cities.len(),
            own_city_at(cities@, x as int, y as int) == own_city_at(cities@.skip(i as int), x as int, y as int),
        decreases cities.len() - i,
    {
        let (tile, id) = cities[i];
        proof {
            assert(cities@.skip(i as int).drop_first() =~= cities@.skip(i + 1));
        }
        if tile.0 == x && tile.1 == y {
            return Some(id);
        }
        i = i + 1;
    }
    proof {
        assert(cities@.skip(i as int).len() == 0);
    }
    None
}

/// How a click on the map changes the view: see `selection_after_click`.
pub fn apply_click(view: PlayView, click: ClickAction, cities: &Vec<((usize, usize), CityId)>) -> (next: PlayView)
    ensures
        next == (PlayView { selected_city: selection_after_click(view.selected_city, click, cities@), ..view }),
{
    let selected = match click {
        ClickAction::Move(_) => view.selected_city,
        ClickAction::SelectAt(x, y) => find_own_city(cities, x, y),
        ClickAction::Clear => None,
    };
    PlayView { selected_city: selected, ..view }
}

/// With no window open, every movement key moves the selected unit the way
/// the key sits around the `j` home key: `u` up, `m` down, `h` left and `k`
/// right, `y` up-left, `i` up-right, `n` down-left and `,` down-right; the
/// arrow keys move the way they point.
pub proof fn lemma_movement_keys_follow_the_keyboard(state: PlayState)
    requires
        !state.research_open,
        !state.diplomacy_open,
        !state.work_picker_open,
        !state.production_picker_open,
    ensures
        play_action_of(state, Key::Char('u')) matches PlayAction::Move(d) && d.dx() == 0 && d.dy() == -1,
        play_action_of(state, Key::Char('m')) matches PlayAction::Move(d) && d.dx() == 0 && d.dy() == 1,
        play_action_of(state, Key::Char('h')) matches PlayAction::Move(d) && d.dx() == -1 && d.dy() == 0,
        play_action_of(state, Key::Char('k')) matches PlayAction::Move(d) && d.dx() == 1 && d.dy() == 0,
        play_action_of(state, Key::Char('y')) matches PlayAction::Move(d) && d.dx() == -1 && d.dy() == -1,
        play_action_of(state, Key::Char('i')) matches PlayAction::Move(d) && d.dx() == 1 && d.dy() == -1,
        play_action_of(state, Key::Char('n')) matches PlayAction::Move(d) && d.dx() == -1 && d.dy() == 1,
        play_action_of(state, Key::Char(',')) matches PlayAction::Move(d) && d.dx() == 1 && d.dy() == 1,
        play_action_of(state, Key::Up) matches PlayAction::Move(d) && d.dx() == 0 && d.dy() == -1,
        play_action_of(state, Key::Down) matches PlayAction::Move(d) && d.dx() == 0 && d.dy() == 1,
        play_action_of(state, Key::Left) matches PlayAction::Move(d) && d.dx() == -1 && d.dy() == 0,
        play_action_of(state, Key::Right) matches PlayAction::Move(d) && d.dx() == 1 && d.dy() == 0,
{
}

/// A click that selects on the map names the very tile under the pointer,
/// wrapped onto the map: its column is a map column, and it is the tile the
/// pointer lookup reports for the same pointer, camera and map.
pub proof fn lemma_click_selects_the_tile_under_the_pointer(
    column: u16,
    row: u16,
    camera: (usize, usize),
    map: (usize, usize),
    focus: Option<(usize, usize)>,
)
    requires
        column >= LEFT_COLUMN_WIDTH,
        0 < map.0,
    ensures
        click_action_of(column, row, camera, map, focus) matches ClickAction::SelectAt(x, y) ==> {
            &&& x < map.0
            &&& y < map.1
            &&& crate::map_view::pointer_tile((column, row), camera, map) == Some((x as int, y as int))
        },
{
}

/// Whether `needle` occurs in `hay` at position `at`.
pub open spec fn occurs_at(hay: Seq<char>, needle: Seq<char>, at: int) -> bool {
    0 <= at && at + needle.len() <= hay.len() && hay.subrange(at, at + needle.len()) == needle
}

/// Whether `needle` occurs anywhere in `hay`.
pub open spec fn occurs(hay: Seq<char>, needle: Seq<char>) -> bool {
    exists|at: int| occurs_at(hay, needle, at)
}

/// Whether `needle` occurs in `hay` at position `at`.
fn matches_at(hay: &str, needle: &str, at: usize) -> (found: bool)
    requires
        at + needle@.len() <= hay@.len(),
    ensures
        found == occurs_at(hay@, needle@, at as int),
{
    let n = needle.unicode_len();
    let h = hay.unicode_len();
    let mut k: usize = 0;
    while k < n
        invariant
            k <= n,
            n == needle@.len(),
            h == hay@.len(),
            at + n <= h,
            forall|m: int| 0 <= m < k ==> hay@[at + m] == needle@[m],
        decreases n - k,
    {
        if hay.get_char(at + k) != needle.get_char(k) {
            proof {
                assert(hay@.subrange(at as int, at + n)[k as int] != needle@[k as int]);
            }
            return false;
        }
        k = k + 1;
    }
    proof {
        assert(hay@.subrange(at as int, at + n) =~= needle@);
    }
    true
}

/// Whether `needle` occurs anywhere in `hay`.
pub fn contains_text(hay: &str, needle: &str) -> (found: bool)
    ensures
        found == occurs(hay@, needle@),
{
    let h = hay.unicode_len();
    let n = needle.unicode_len();
    if n > h {
        proof {
            assert forall|at: int| !occurs_at(hay@, needle@, at) by {}
        }
        return false;
    }
    let mut at: usize = 0;
    loop
        invariant
            h == hay@.len(),
            n == needle@.len(),
            n <= h,
            at <= h - n,
            forall|a: int| 0 <= a < at ==> !occurs_at(hay@, needle@, a),
        decreases h - n - at,
    {
        if matches_at(hay, needle, at) {
            return true;
        }
        if at == h - n {
            proof {
                assert forall|a: int| !occurs_at(hay@, needle@, a) by {
                    if 0 <= a <= at {
                    }
                }
            }
            return false;
        }
        at = at + 1;
    }
}

/// The civilization met in a first-contact message: `None` unless the
/// message says two civilizations `meet for the first time`; then the first
/// civilization, in the selector's order, other than the player's whose
/// name the message mentions.
pub open spec fn contacted(message: Seq<char>, human: Civilization) -> Option<Civilization> {
    if !occurs(message, " meet for the first time"@) {
        None
    } else {
        first_named(message, human, 0)
    }
}

/// The first civilization from position `from` of the selector's list,
/// other than `human`, whose name occurs in `message`.
pub open spec fn first_named(message: Seq<char>, human: Civilization, from: int) -> Option<Civilization>
    decreases 14 - from,
{
    if from < 0 || from >= 14 {
        None
    } else {
        let civ = crate::model::civilization_at(from)->0;
        if civ != human && occurs(message, civilization_name(civ)) {
            Some(civ)
        } else {
            first_named(message, human, from + 1)
        }
    }
}

/// The rival met in a first-contact message (`{Civ} and {Civ} meet for the
/// first time`). Only the player's moves bring about meetings, so one of
/// the two names is always the player's own.
pub fn contact_opponent(message: &str, human: Civilization) -> (opponent: Option<Civilization>)
    ensures
        opponent == contacted(message@, human),
{
    if !contains_text(message, " meet for the first time") {
        return None;
    }
    let mut i: usize = 0;
    while i < 14
        invariant
            i <= 14,
            occurs(message@, " meet for the first time"@),
            first_named(message@, human, 0) == first_named(message@, human, i as int),
        decreases 14 - i,
    {
        let civ = match Civilization::from_index(i) {
            Some(c) => c,
            None => {
                return None;
            },
        };
        if civ != human && contains_text(message, civ.display_name()) {
            return Some(civ);
        }
        i = i + 1;
    }
    None
}

/// Whether any of the messages contains `needle`.
pub open spec fn any_mentions(messages: Seq<Seq<char>>, needle: Seq<char>) -> bool {
    exists|i: int| 0 <= i < messages.len() && occurs(#[trigger] messages[i], needle)
}

/// Whether any of the messages contains `needle`.
fn mentions(messages: &Vec<String>, needle: &str) -> (found: bool)
    ensures
        found == any_mentions(crate::city_window::texts(messages@), needle@),
{
    let ghost views = crate::city_window::texts(messages@);
    let mut i: usize = 0;
    while i < messages.len()
        invariant
            i <= messages.len(),
            views == crate::city_window::texts(messages@),
            forall|k: int| 0 <= k < i ==> !occurs(#[trigger] views[k], needle@),
        decreases messages.len() - i,
    {
        if contains_text(messages[i].as_str(), needle) {
            proof {
                assert(occurs(views[i as int], needle@));
            }
            return true;
        }
        i = i + 1;
    }
    false
}

/// What the game answered a move with, as the interface reads it: whether
/// a battle was fought (the flash then goes on the destination), and
/// whether the move was refused because the tile belongs to a civilization
/// at peace (which offers war or peace).
#[derive(Clone, Copy, Debug, PartialEq, Eq, Structural)]
pub struct MoveReport {
    pub battle: bool,
    pub blocked_by_peace: bool,
}

/// What the game answered a move with: a message mentioning `attacks`
/// means a battle; one saying the unit `cannot move onto a tile occupied by
/// a civilization at peace` means the move was refused by a peace.
pub fn move_report(messages: &Vec<String>) -> (report: MoveReport)
    ensures
        report.battle == any_mentions(crate::city_window::texts(messages@), "attacks"@),
        report.blocked_by_peace == any_mentions(
            crate::city_window::texts(messages@),
            "cannot move onto a tile occupied by a civilization at peace"@,
        ),
{
    MoveReport {
        battle: mentions(messages, "attacks"),
        blocked_by_peace: mentions(messages, "cannot move onto a tile occupied by a civilization at peace"),
    }
}

/// The rival met in the first of the messages that reports a first contact.
pub open spec fn first_contact_of(messages: Seq<Seq<char>>, human: Civilization) -> Option<Civilization>
    decreases messages.len(),
{
    if messages.len() == 0 {
        None
    } else {
        match contacted(messages[0], human) {
            Some(civ) => Some(civ),
            None => first_contact_of(messages.drop_first(), human),
        }
    }
}

/// The rival met in the first of the messages that reports a first
/// contact, if any does.
pub fn first_contact(messages: &Vec<String>, human: Civilization) -> (opponent: Option<Civilization>)
    ensures
        opponent == first_contact_of(crate::city_window::texts(messages@), human),
{
    let ghost views = crate::city_window::texts(messages@);
    let mut i: usize = 0;
    proof {
        assert(views.skip(0) =~= views);
    }
    while i < messages.len()
        invariant
            i <= messages.len(),
            views == crate::city_window::texts(messages@),
            first_contact_of(views, human) == first_contact_of(views.skip(i as int), human),
        decreases messages.len() - i,
    {
        proof {
            assert(views.skip(i as int).drop_first() =~= views.skip(i + 1));
            assert(views.skip(i as int)[0] == messages@[i as int]@);
        }
        let found = contact_opponent(messages[i].as_str(), human);
        if found.is_some() {
            return found;
        }
        i = i + 1;
    }
    proof {
        assert(views.skip(i as int).len() == 0);
    }
    None
}

/// The advancement the player discovered during the turn just ended: the
/// first one beyond the `before` they knew, once play has come back round
/// to them (`wrapped`); none otherwise.
pub fn discovered_advancement(before: usize, after: &Vec<Advancement>, wrapped: bool) -> (discovered:
    Option<Advancement>)
    ensures
        discovered == (if wrapped && before < after.len() {
            Some(after@[before as int])
        } else {
            None
        }),
{
    if wrapped && before < after.len() {
        Some(after[before])
    } else {
        None
    }
}

/// What is open during play, which decides who gets a mouse event.
#[derive(Clone, Copy, Debug, PartialEq, Eq, Structural)]
pub struct MouseState {
    pub diplomacy_open: bool,
    pub research_open: bool,
    pub work_picker_open: bool,
    pub picker_open: bool,
    pub city_window_open: bool,
}

/// Where a mouse event during play goes.
#[derive(Clone, Copy, Debug, PartialEq, Eq, Structural)]
pub enum MouseRoute {
    /// To the war-or-peace window.
    Diplomacy,
    /// To the research window.
    Research,
    /// To the work picker.
    WorkPicker,
    /// To the production picker.
    Picker,
    /// Close the city window, and the production picker over it.
    CloseCity,
    /// Scroll the city window's improvements one row up.
    ScrollCityUp,
    /// Scroll the city window's improvements one row down.
    ScrollCityDown,
    /// A left press: begin a click or drag.
    Press,
    /// The pointer moved with the left button held.
    Drag,
    /// The left button came up.
    Release,
    /// The event does nothing.
    Nothing,
}

/// Where a mouse event during play goes: an open window captures it (the
/// war-or-peace window first, then the research window, the work picker
/// and the production picker, though a left press on the city window's
/// close button still closes the window under the production picker);
/// over an open city window the wheel scrolls its improvements; otherwise
/// left presses, drags and releases drive the click-or-drag gesture.
pub open spec fn mouse_route_of(state: MouseState, event: Pointer, close: Option<Rect>) -> MouseRoute {
    let kind = event.kind;
    if state.diplomacy_open {
        MouseRoute::Diplomacy
    } else if state.research_open {
        MouseRoute::Research
    } else if state.work_picker_open {
        MouseRoute::WorkPicker
    } else if state.picker_open {
        if kind == PointerKind::LeftDown && event.placed() && (close matches Some(c) && c.holds(
            event.column as int,
            event.row as int,
        )) {
            MouseRoute::CloseCity
        } else {
            MouseRoute::Picker
        }
    } else if state.city_window_open && kind == PointerKind::ScrollUp {
        MouseRoute::ScrollCityUp
    } else if state.city_window_open && kind == PointerKind::ScrollDown {
        MouseRoute::ScrollCityDown
    } else {
        match kind {
            PointerKind::LeftDown => MouseRoute::Press,
            PointerKind::LeftDrag => MouseRoute::Drag,
            PointerKind::LeftUp => MouseRoute::Release,
            _ => MouseRoute::Nothing,
        }
    }
}

/// Where a mouse event during play goes; see `mouse_route_of`. `close` is
/// the open city window's close button.
pub fn mouse_route(state: MouseState, event: Pointer, close: Option<Rect>) -> (route: MouseRoute)
    ensures
        route == mouse_route_of(state, event, close),
{
    let kind = event.kind;
    if state.diplomacy_open {
        MouseRoute::Diplomacy
    } else if state.research_open {
        MouseRoute::Research
    } else if state.work_picker_open {
        MouseRoute::WorkPicker
    } else if state.picker_open {
        let on_close = match close {
            Some(c) => event.column != u16::MAX && event.row != u16::MAX && c.contains(
                crate::geometry::Position { x: event.column, y: event.row },
            ),
            None => false,
        };
        if kind == PointerKind::LeftDown && on_close {
            MouseRoute::CloseCity
        } else {
            MouseRoute::Picker
        }
    } else if state.city_window_open && kind == PointerKind::ScrollUp {
        MouseRoute::ScrollCityUp
    } else if state.city_window_open && kind == PointerKind::ScrollDown {
        MouseRoute::ScrollCityDown
    } else {
        match kind {
            PointerKind::LeftDown => MouseRoute::Press,
            PointerKind::LeftDrag => MouseRoute::Drag,
            PointerKind::LeftUp => MouseRoute::Release,
            _ => MouseRoute::Nothing,
        }
    }
}

/// What a left press during play does.
#[derive(Clone, Copy, Debug, PartialEq, Eq, Structural)]
pub enum PressAction {
    /// Open the production picker over the city window.
    OpenPicker,
    /// Close the city window.
    CloseCity,
    /// The press lands on the city window and goes no further.
    Consumed,
    /// The press lands on the information column: clear the city selection.
    ClearCity,
    /// Begin a click-or-drag gesture on the map.
    StartGesture,
    /// Nothing.
    Nothing,
}

/// What a left press at `position` does: on an open city window, its
/// Change button opens the production picker, its close button closes it,
/// and anywhere else on it the press is consumed; on the information column
/// it clears the city selection; on the map pane it begins a gesture.
pub open spec fn press_action_of(
    position: Option<(u16, u16)>,
    window: Option<(Rect, Rect)>,
    change: Option<Rect>,
    pane: Option<Rect>,
) -> PressAction {
    match position {
        None => PressAction::Nothing,
        Some((x, y)) => if x == u16::MAX || y == u16::MAX {
            PressAction::Nothing
        } else if window is Some && (change matches Some(c) && c.holds(x as int, y as int)) {
            PressAction::OpenPicker
        } else if window matches Some((_, close)) && close.holds(x as int, y as int) {
            PressAction::CloseCity
        } else if window matches Some((w, _)) && w.holds(x as int, y as int) {
            PressAction::Consumed
        } else if x < LEFT_COLUMN_WIDTH {
            PressAction::ClearCity
        } else if pane matches Some(p) && p.holds(x as int, y as int) {
            PressAction::StartGesture
        } else {
            PressAction::Nothing
        },
    }
}

/// What a left press at `position` does; see `press_action_of`. `window`
/// is the open city window and its close button; `change` its Change
/// button; `pane` the map pane.
pub fn press_action(
    position: Option<(u16, u16)>,
    window: Option<(Rect, Rect)>,
    change: Option<Rect>,
    pane: Option<Rect>,
) -> (action: PressAction)
    ensures
        action == press_action_of(position, window, change, pane),
{
    let (x, y) = match position {
        None => return PressAction::Nothing,
        Some(p) => p,
    };
    if x == u16::MAX || y == u16::MAX {
        return PressAction::Nothing;
    }
    let at = crate::geometry::Position { x, y };
    match window {
        Some((w, close)) => {
            match change {
                Some(c) => {
                    if c.contains(at) {
                        return PressAction::OpenPicker;
                    }
                },
                None => {},
            }
            if close.contains(at) {
                return PressAction::CloseCity;
            }
            if w.contains(at) {
                return PressAction::Consumed;
            }
        },
        None => {},
    }
    if x < LEFT_COLUMN_WIDTH {
        return PressAction::ClearCity;
    }
    match pane {
        Some(p) => if p.contains(at) {
            PressAction::StartGesture
        } else {
            PressAction::Nothing
        },
        None => PressAction::Nothing,
    }
}

/// What a click on the map does.
#[derive(Clone, Copy, Debug, PartialEq, Eq, Structural)]
pub enum ClickAction {
    /// Move the selected unit one step this way.
    Move(Direction),
    /// Select the player's city on this world tile, or clear the selection
    /// when the player has none there.
    SelectAt(usize, usize),
    /// Clear the city selection.
    Clear,
}

/// The world tile under a click on the map pane at `(column, row)`.
pub open spec fn clicked_tile(column: u16, row: u16, camera: (usize, usize), map_w: int) -> (int, int) {
    ((camera.0 + (column - LEFT_COLUMN_WIDTH) / (TILE_WIDTH as int)) % map_w, camera.1 + row)
}

/// What a click on the map pane at `(column, row)` does: on the tile one
/// step from the focused unit it moves the unit there, as the keys would;
/// on any other tile of the map it selects the player's city there (or
/// clears the selection); below the map it clears the selection.
pub open spec fn click_action_of(
    column: u16,
    row: u16,
    camera: (usize, usize),
    map: (usize, usize),
    focus: Option<(usize, usize)>,
) -> ClickAction {
    let tile = clicked_tile(column, row, camera, map.0 as int);
    match focus {
        Some(f) if adjacency((f.0 as int, f.1 as int), tile, map.0 as int) is Some => ClickAction::Move(
            adjacency((f.0 as int, f.1 as int), tile, map.0 as int)->0,
        ),
        _ => if tile.1 < map.1 {
            ClickAction::SelectAt(tile.0 as usize, tile.1 as usize)
        } else {
            ClickAction::Clear
        },
    }
}

/// What a click on the map pane at `(column, row)` does; see
/// `click_action_of`.
pub fn click_action(
    column: u16,
    row: u16,
    camera: (usize, usize),
    map: (usize, usize),
    focus: Option<(usize, usize)>,
) -> (action: ClickAction)
    requires
        column >= LEFT_COLUMN_WIDTH,
        0 < map.0,
        camera.0 + u16::MAX <= usize::MAX,
        camera.1 + u16::MAX <= usize::MAX,
    ensures
        action == click_action_of(column, row, camera, map, focus),
{
    let tile_col = (column - LEFT_COLUMN_WIDTH) as usize / TILE_WIDTH;
    let world_x = (camera.0 + tile_col) % map.0;
    let world_y = camera.1 + row as usize;
    match focus {
        Some(f) => {
            match adjacent_direction(f, (world_x, world_y), map.0) {
                Some(d) => {
                    return ClickAction::Move(d);
                },
                None => {},
            }
        },
        None => {},
    }
    if world_y < map.1 {
        ClickAction::SelectAt(world_x, world_y)
    } else {
        ClickAction::Clear
    }
}

/// The tile hatched as the selected unit's move target: the tile under the
/// pointer when it is one step from the focused unit, and none while a
/// window floats over the map or the map is being dragged.
pub fn hover_target(
    covered: bool,
    pointer: Option<(u16, u16)>,
    camera: (usize, usize),
    map: (usize, usize),
    focus: Option<(usize, usize)>,
) -> (target: Option<(usize, usize)>)
    requires
        pointer matches Some(p) ==> crate::map_view::pointer_fits(p, camera, map),
    ensures
        target == (match pointer {
            Some(p) if !covered => match (crate::map_view::pointer_tile(p, camera, map), focus) {
                (Some(t), Some(f)) => if adjacency((f.0 as int, f.1 as int), t, map.0 as int) is Some {
                    Some((t.0 as usize, t.1 as usize))
                } else {
                    None
                },
                _ => None,
            },
            _ => None,
        }),
{
    if covered {
        return None;
    }
    match pointer {
        Some(p) => crate::map_view::hovered_adjacent_tile(p, camera, map, focus),
        None => None,
    }
}

} // verus!
