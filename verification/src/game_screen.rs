//! The playing screen: the information column, the map pane and the
//! animations drawn over it.
use vstd::prelude::*;

use crate::geometry::{sat_add, sat_sub, within, Rect};
use crate::city_window::{resource_label, resource_name, texts};
use crate::model::{
    advancement_name, civilization_name, unit_name, Advancement, CityId, Civilization, Location,
    SpecialResource, UnitClass, UnitId,
};
use crate::text::{decimal, decimal_string, digit_char, format_year, join, joined, year_text};

verus! {

/// Fixed width of the left-hand information column.
pub const LEFT_COLUMN_WIDTH: u16 = 36;

/// How many terminal columns one world tile spans.
pub const TILE_WIDTH: usize = 2;

/// Width of the event-log overlay when visible.
pub const EVENT_LOG_WIDTH: u16 = 44;

/// How long, in milliseconds, a battle's explosion stays on the defended
/// tile.
pub const BATTLE_FLASH_MS: u64 = 1000;

/// How long, in milliseconds, each half of a rival-move step lasts: first
/// on the tile the unit left, then on the tile it entered.
pub const RIVAL_MOVE_PHASE_MS: u64 = 300;

/// `now - start`, held at zero when the clock reads earlier than the start.
pub open spec fn elapsed(now: u64, start: u64) -> int {
    sat_sub(now as int, start as int)
}

/// A battle's flash on the defender's tile: the tile (already wrapped
/// horizontally) and the clock reading, in milliseconds, when combat was
/// resolved.
#[derive(Clone, Copy, Debug, PartialEq, Eq, Structural)]
pub struct BattleAnimation {
    pub location: Location,
    pub start: u64,
}

impl BattleAnimation {
    /// The flash for `location`, begun at clock reading `start`.
    pub fn new(location: Location, start: u64) -> (animation: BattleAnimation)
        ensures
            animation == (BattleAnimation { location, start }),
    {
        BattleAnimation { location, start }
    }

    /// Whether the explosion still shows at clock reading `now`.
    pub open spec fn showing(self, now: u64) -> bool {
        elapsed(now, self.start) < BATTLE_FLASH_MS
    }

    /// The explosion glyph at clock reading `now`, or `None` once the flash
    /// has run its full second.
    pub fn glyph(&self, now: u64) -> (glyph: Option<&'static str>)
        ensures
            glyph is Some <==> self.showing(now),
            glyph matches Some(g) ==> g@ == "💥"@,
    {
        let elapsed = now.saturating_sub(self.start);
        if elapsed < BATTLE_FLASH_MS {
            Some("💥")
        } else {
            None
        }
    }
}

/// The battle flash still running at clock reading `now`: none once it has
/// shown for its full second, so later frames no longer reserve the tile.
pub fn running_battle(animation: Option<BattleAnimation>, now: u64) -> (running: Option<BattleAnimation>)
    ensures
        running == (match animation {
            Some(a) => if a.showing(now) {
                Some(a)
            } else {
                None
            },
            None => None,
        }),
{
    match animation {
        Some(a) => if now.saturating_sub(a.start) >= BATTLE_FLASH_MS {
            None
        } else {
            Some(a)
        },
        None => None,
    }
}

/// One step a rival unit took during its turn: the unit and the tiles it
/// left and entered.
#[derive(Clone, Copy, Debug, PartialEq, Eq, Structural)]
pub struct RivalMoveFrame {
    pub unit_id: UnitId,
    pub from: Location,
    pub to: Location,
}

/// The rival moves of one round, replayed step after step from clock
/// reading `start` (milliseconds).
#[derive(Clone, Debug)]
pub struct RivalMoveAnimation {
    pub start: u64,
    pub frames: Vec<RivalMoveFrame>,
}

/// The milliseconds a rival-move step takes: its two halves.
pub open spec fn frame_ms() -> int {
    2 * RIVAL_MOVE_PHASE_MS
}

/// A millisecond count as the replay reads it: in 32 bits, wrapping.
pub open spec fn clock32(ms: int) -> int {
    ms % 0x1_0000_0000
}

impl RivalMoveAnimation {
    /// The replay of `frames`, begun at clock reading `start`.
    pub fn new(start: u64, frames: Vec<RivalMoveFrame>) -> (animation: RivalMoveAnimation)
        ensures
            animation.start == start,
            animation.frames@ == frames@,
    {
        RivalMoveAnimation { start, frames }
    }

    /// The step being replayed at clock reading `now`.
    pub open spec fn step_at(&self, now: u64) -> int {
        clock32(elapsed(now, self.start)) / frame_ms()
    }

    /// Whether the replay has run to its end at clock reading `now`: every
    /// step has had its full time.
    pub fn is_complete(&self, now: u64) -> (complete: bool)
        requires
            self.frames.len() * frame_ms() <= u32::MAX,
        ensures
            complete == (clock32(elapsed(now, self.start)) >= self.frames.len() * frame_ms()),
    {
        let elapsed = now.saturating_sub(self.start);
        let total = (self.frames.len() as u64) * (RIVAL_MOVE_PHASE_MS * 2);
        let clock = elapsed as u32;
        proof {
            assert(elapsed as u32 == elapsed % 0x1_0000_0000) by (bit_vector);
        }
        (clock as u64) >= total
    }

    /// The first step not yet played out at clock reading `now`, or the
    /// number of steps once all have.
    pub open spec fn first_unplayed(&self, now: u64) -> int {
        if self.step_at(now) < self.frames.len() {
            self.step_at(now)
        } else {
            self.frames.len() as int
        }
    }

    /// The units of the steps not yet played out at clock reading `now`, in
    /// replay order.
    pub open spec fn unplayed_units(&self, now: u64) -> Seq<UnitId> {
        self.frames@.skip(self.first_unplayed(now)).map_values(|frame: RivalMoveFrame| frame.unit_id)
    }

    /// The units lifted off their squares at clock reading `now`: those
    /// whose steps have not yet played out, in replay order.
    pub fn hidden_units(&self, now: u64) -> (hidden: Vec<UnitId>)
        ensures
            hidden@ == self.unplayed_units(now),
    {
        let elapsed = now.saturating_sub(self.start);
        let clock = elapsed as u32;
        proof {
            assert(elapsed as u32 == elapsed % 0x1_0000_0000) by (bit_vector);
        }
        let active = (clock / 600) as usize;
        let first = if active < self.frames.len() {
            active
        } else {
            self.frames.len()
        };
        let mut hidden: Vec<UnitId> = Vec::new();
        let mut i = first;
        while i < self.frames.len()
            invariant
                first <= i <= self.frames.len(),
                hidden@ == self.frames@.subrange(first as int, i as int).map_values(
                    |frame: RivalMoveFrame| frame.unit_id,
                ),
            decreases self.frames.len() - i,
        {
            hidden.push(self.frames[i].unit_id);
            i = i + 1;
            proof {
                assert(hidden@ =~= self.frames@.subrange(first as int, i as int).map_values(
                    |frame: RivalMoveFrame| frame.unit_id,
                ));
            }
        }
        proof {
            assert(self.frames@.subrange(first as int, i as int) =~= self.frames@.skip(first as int));
        }
        hidden
    }

    /// The step replaying at clock reading `now` and whether it is in its
    /// first half (the unit shown on the tile it left) rather than its
    /// second (on the tile it entered); `None` once every step has played.
    pub fn active_frame(&self, now: u64) -> (active: Option<(RivalMoveFrame, bool)>)
        ensures
            ({
                let clock = clock32(elapsed(now, self.start));
                let step = clock / frame_ms();
                active == (if step < self.frames.len() {
                    Some((self.frames@[step], clock % frame_ms() < RIVAL_MOVE_PHASE_MS))
                } else {
                    None
                })
            }),
    {
        let elapsed = now.saturating_sub(self.start);
        let clock = elapsed as u32;
        proof {
            assert(elapsed as u32 == elapsed % 0x1_0000_0000) by (bit_vector);
        }
        let frame: u32 = 600;
        let step = (clock / frame) as usize;
        if step < self.frames.len() {
            Some((self.frames[step], clock % frame < 300))
        } else {
            None
        }
    }
}

/// As the clock runs on, units only ever come back onto their squares:
/// the units still lifted later are the tail of those lifted earlier, for
/// as long as the time since the start fits the replay's 32-bit clock.
pub proof fn lemma_hidden_units_shrink(animation: RivalMoveAnimation, earlier: u64, later: u64)
    requires
        earlier <= later,
        elapsed(later, animation.start) < 0x1_0000_0000,
    ensures
        animation.first_unplayed(earlier) <= animation.first_unplayed(later),
        animation.unplayed_units(later) == animation.unplayed_units(earlier).skip(
            animation.first_unplayed(later) - animation.first_unplayed(earlier),
        ),
        forall|unit: UnitId| #[trigger]
            animation.unplayed_units(later).contains(unit) ==> animation.unplayed_units(earlier).contains(unit),
{
    let e1 = elapsed(earlier, animation.start);
    let e2 = elapsed(later, animation.start);
    vstd::arithmetic::div_mod::lemma_small_mod(e1 as nat, 0x1_0000_0000nat);
    vstd::arithmetic::div_mod::lemma_small_mod(e2 as nat, 0x1_0000_0000nat);
    vstd::arithmetic::div_mod::lemma_div_is_ordered(e1, e2, frame_ms());
    let f1 = animation.first_unplayed(earlier);
    let f2 = animation.first_unplayed(later);
    let units1 = animation.unplayed_units(earlier);
    let units2 = animation.unplayed_units(later);
    assert(units2 =~= units1.skip(f2 - f1));
    assert forall|unit: UnitId| #[trigger] units2.contains(unit) implies units1.contains(unit) by {
        let k = choose|k: int| 0 <= k < units2.len() && units2[k] == unit;
        assert(units1[k + (f2 - f1)] == unit);
    }
}

/// Once the replay is complete no unit is lifted off its square.
pub proof fn lemma_complete_replay_hides_nothing(animation: RivalMoveAnimation, now: u64)
    requires
        animation.frames.len() * frame_ms() <= u32::MAX,
        clock32(elapsed(now, animation.start)) >= animation.frames.len() * frame_ms(),
    ensures
        animation.unplayed_units(now).len() == 0,
{
    let len = animation.frames.len() as int;
    let clock = clock32(elapsed(now, animation.start));
    vstd::arithmetic::div_mod::lemma_div_is_ordered(len * frame_ms(), clock, frame_ms());
    vstd::arithmetic::div_mod::lemma_div_multiples_vanish(len, frame_ms());
    assert(len * frame_ms() == frame_ms() * len) by (nonlinear_arith);
    assert(animation.step_at(now) >= len);
}

/// A rival step's replay visits the tile the unit left for the first half
/// of its time and the tile it entered for the second, one step after the
/// other in order.
pub proof fn lemma_rival_steps_play_in_order(animation: RivalMoveAnimation, clock: int)
    requires
        0 <= clock,
        clock / frame_ms() < animation.frames.len(),
    ensures
        clock / frame_ms() * frame_ms() <= clock < (clock / frame_ms() + 1) * frame_ms(),
        (clock % frame_ms() < RIVAL_MOVE_PHASE_MS) <==> clock < clock / frame_ms() * frame_ms()
            + RIVAL_MOVE_PHASE_MS,
{
    let f = frame_ms();
    assert(clock == (clock / f) * f + clock % f && 0 <= clock % f < f) by (nonlinear_arith)
        requires
            f > 0,
    ;
    assert((clock / f + 1) * f == (clock / f) * f + f) by (nonlinear_arith);
}

/// The idle-unit flash is on for the first half of every second of the
/// clock, unless it is pinned off.
pub open spec fn flash_on(flash_enabled: bool, now: u64) -> bool {
    flash_enabled && now % 1000 < 500
}

/// The playing screen: what the map pane shows and where, and what the
/// information column describes. `now` is the clock in milliseconds that
/// times the flashes and replays; `events` the latest messages, oldest
/// first.
#[derive(Debug)]
pub struct GameScreen {
    pub focus: Option<(usize, usize)>,
    pub camera: (usize, usize),
    pub selected_unit: Option<UnitId>,
    pub selected_city: Option<CityId>,
    pub now: u64,
    pub flash_enabled: bool,
    pub show_events: bool,
    pub events: Vec<String>,
    pub hover_target: Option<(usize, usize)>,
    pub hovered_tile: Option<(usize, usize)>,
    pub battle_animation: Option<BattleAnimation>,
    pub rival_animation: Option<RivalMoveAnimation>,
}

impl GameScreen {
    /// The screen with the map's top-left world tile at `camera`, `focus`
    /// described in the information column, and the event log (showing
    /// `events`) toggled by `show_events`. No tile is hovered, no animation
    /// runs, and the idle-unit flash may animate.
    pub fn new(
        focus: Option<(usize, usize)>,
        camera: (usize, usize),
        selected_unit: Option<UnitId>,
        selected_city: Option<CityId>,
        now: u64,
        show_events: bool,
        events: Vec<String>,
        hover_target: Option<(usize, usize)>,
    ) -> (screen: GameScreen)
        ensures
            screen.focus == focus,
            screen.camera == camera,
            screen.selected_unit == selected_unit,
            screen.selected_city == selected_city,
            screen.now == now,
            screen.show_events == show_events,
            screen.events@ == events@,
            screen.hover_target == hover_target,
            screen.hovered_tile is None,
            screen.battle_animation is None,
            screen.rival_animation is None,
            screen.flash_enabled,
    {
        GameScreen {
            focus,
            camera,
            selected_unit,
            selected_city,
            now,
            flash_enabled: true,
            show_events,
            events,
            hover_target,
            hovered_tile: None,
            battle_animation: None,
            rival_animation: None,
        }
    }

    /// The same screen showing `animation` as the battle flash.
    pub fn with_battle_animation(self, animation: Option<BattleAnimation>) -> (screen: GameScreen)
        ensures
            screen == (GameScreen { battle_animation: animation, ..self }),
    {
        GameScreen { battle_animation: animation, ..self }
    }

    /// The same screen describing `tile` as the hovered tile.
    pub fn with_hovered_tile(self, tile: Option<(usize, usize)>) -> (screen: GameScreen)
        ensures
            screen == (GameScreen { hovered_tile: tile, ..self }),
    {
        GameScreen { hovered_tile: tile, ..self }
    }

    /// The same screen replaying `animation` over the map.
    pub fn with_rival_animation(self, animation: Option<RivalMoveAnimation>) -> (screen: GameScreen)
        ensures
            screen == (GameScreen { rival_animation: animation, ..self }),
    {
        GameScreen { rival_animation: animation, ..self }
    }

    /// The same screen with the idle-unit flash allowed (or pinned off).
    pub fn with_flash_enabled(self, enabled: bool) -> (screen: GameScreen)
        ensures
            screen == (GameScreen { flash_enabled: enabled, ..self }),
    {
        GameScreen { flash_enabled: enabled, ..self }
    }

    /// Whether the selected idle unit's tile shows its civilization's colour
    /// now: on for half a second, off for half a second, unless pinned off.
    pub fn flash_phase(&self) -> (on: bool)
        ensures
            on == flash_on(self.flash_enabled, self.now),
    {
        self.flash_enabled && self.now % 1000 < 500
    }
}

/// The flash blinks once a second: it shows at a reading exactly when it
/// is off half a second later, and a second later it is back as it was.
pub proof fn lemma_flash_blinks(now: u64)
    requires
        now + 1000 <= u64::MAX,
    ensures
        flash_on(true, (now + 1000) as u64) == flash_on(true, now),
        flash_on(true, now) ==> !flash_on(true, (now + 500) as u64),
        !flash_on(false, now),
{
}

/// The letter that stands for a unit class on the map: the first letter of
/// its name.
pub fn first_letter(class: UnitClass) -> (letter: char)
    ensures
        letter == crate::model::unit_name(class)[0],
{
    proof {
        reveal_strlit("Militia");
        reveal_strlit("Phalanx");
        reveal_strlit("Settler");
    }
    match class {
        UnitClass::Militia => 'M',
        UnitClass::Phalanx => 'P',
        UnitClass::Settler => 'S',
    }
}

/// The digit shown on a city's tile: its population, shown as 9 from ten
/// up.
pub fn population_digit(population: u32) -> (digit: char)
    ensures
        digit == crate::text::digit_char(if population >= 10 {
            9
        } else {
            population as int
        }),
{
    if population >= 10 {
        '9'
    } else if population == 0 {
        '0'
    } else if population == 1 {
        '1'
    } else if population == 2 {
        '2'
    } else if population == 3 {
        '3'
    } else if population == 4 {
        '4'
    } else if population == 5 {
        '5'
    } else if population == 6 {
        '6'
    } else if population == 7 {
        '7'
    } else if population == 8 {
        '8'
    } else {
        '9'
    }
}

/// The playing screen's regions: the information column on the left, cut
/// into the overview map, the player's statistics and the focus panel from
/// top to bottom, and the map pane to its right.
#[derive(Clone, Copy, Debug, PartialEq, Eq, Structural)]
pub struct ScreenLayout {
    pub left: Rect,
    pub right: Rect,
    pub minimap: Rect,
    pub stats: Rect,
    pub focus: Rect,
}

/// The playing screen's regions over `area`.
pub open spec fn screen_layout_of(area: Rect) -> ScreenLayout {
    let left_width = if LEFT_COLUMN_WIDTH < area.width {
        LEFT_COLUMN_WIDTH
    } else {
        area.width
    };
    let third = area.height / 3;
    let rest = area.height - third;
    let stats_height = sat_sub(rest / 2, 5);
    ScreenLayout {
        left: Rect { width: left_width, ..area },
        right: Rect {
            x: (area.x + LEFT_COLUMN_WIDTH) as u16,
            width: sat_sub(area.width as int, LEFT_COLUMN_WIDTH as int) as u16,
            ..area
        },
        minimap: Rect { x: area.x, y: area.y, width: left_width, height: third as u16 },
        stats: Rect { x: area.x, y: (area.y + third) as u16, width: left_width, height: stats_height as u16 },
        focus: Rect {
            x: area.x,
            y: (area.y + third + stats_height) as u16,
            width: left_width,
            height: (rest - stats_height) as u16,
        },
    }
}

/// The playing screen's regions over `area`: a left column
/// `LEFT_COLUMN_WIDTH` wide (or the whole width on a narrow screen) split
/// into the overview map (a third of the height), the statistics panel and
/// the focus panel, and the map pane beside it.
pub fn screen_layout(area: Rect) -> (layout: ScreenLayout)
    requires
        area.x + LEFT_COLUMN_WIDTH <= u16::MAX,
        area.y + area.height <= u16::MAX,
    ensures
        layout == screen_layout_of(area),
{
    let left_width = if LEFT_COLUMN_WIDTH < area.width {
        LEFT_COLUMN_WIDTH
    } else {
        area.width
    };
    let third = area.height / 3;
    let rest = area.height - third;
    let stats_height = (rest / 2).saturating_sub(5);
    ScreenLayout {
        left: Rect { x: area.x, y: area.y, width: left_width, height: area.height },
        right: Rect {
            x: area.x + LEFT_COLUMN_WIDTH,
            y: area.y,
            width: area.width.saturating_sub(LEFT_COLUMN_WIDTH),
            height: area.height,
        },
        minimap: Rect { x: area.x, y: area.y, width: left_width, height: third },
        stats: Rect { x: area.x, y: area.y + third, width: left_width, height: stats_height },
        focus: Rect {
            x: area.x,
            y: area.y + third + stats_height,
            width: left_width,
            height: rest - stats_height,
        },
    }
}

/// The information column's three panels stack exactly: each starts where
/// the one above ends, together they fill the column, and the map pane
/// begins where the column's full width ends.
pub proof fn lemma_left_column_is_filled(area: Rect)
    requires
        area.x + LEFT_COLUMN_WIDTH <= u16::MAX,
        area.y + area.height <= u16::MAX,
    ensures
        ({
            let l = screen_layout_of(area);
            &&& l.minimap.y == area.y
            &&& l.stats.y == l.minimap.y + l.minimap.height
            &&& l.focus.y == l.stats.y + l.stats.height
            &&& l.focus.y + l.focus.height == area.y + area.height
            &&& within(l.minimap, l.left)
            &&& within(l.stats, l.left)
            &&& within(l.focus, l.left)
            &&& l.right.x == area.x + LEFT_COLUMN_WIDTH
            &&& (area.width >= LEFT_COLUMN_WIDTH ==> l.left.width + l.right.width == area.width)
        }),
{
}

/// A city standing on a tile, as the map paints it.
#[derive(Clone, Debug)]
pub struct CityOnTile {
    pub name: String,
    pub population: u32,
    pub selected: bool,
}

/// What the map knows of one world tile when it paints it.
#[derive(Clone, Debug)]
pub struct TileFacts {
    /// The tile lies on the map (not below its southern edge).
    pub on_map: bool,
    /// The player has discovered the tile.
    pub explored: bool,
    /// The letter of the tile's terrain.
    pub terrain: char,
    /// The class of the first unit on the tile, if any.
    pub unit: Option<UnitClass>,
    /// The city on the tile, if any.
    pub city: Option<CityOnTile>,
    pub irrigated: bool,
    pub mined: bool,
    pub road: bool,
    /// The pointer hovers the tile as the selected unit's move target.
    pub hovered: bool,
    /// The idle-unit flash is in its on phase.
    pub flashing: bool,
    /// The selected unit stands here idle with moves left.
    pub selected_idle_here: bool,
}

/// The colour behind a painted tile.
#[derive(Clone, Copy, Debug, PartialEq, Eq, Structural)]
pub enum TileBackground {
    /// Below the map's southern edge.
    Void,
    /// Undiscovered.
    Fog,
    /// The terrain's own colour.
    Terrain,
    /// The colour of the civilization owning the city on the tile.
    CityOwner,
    /// The player's colour: the selected idle unit's flash.
    PlayerFlash,
}

/// How a tile is painted: the symbol in its first cell, the character in
/// its spare second cell (and whether that is an improvement watermark in
/// its own colour), the background, the emphasis, and the city name to
/// label beneath it.
#[derive(Clone, Debug)]
pub struct TileFace {
    pub symbol: char,
    pub spare: char,
    pub watermark: bool,
    pub background: TileBackground,
    pub bold: bool,
    pub underlined: bool,
    pub label: Option<String>,
}

/// The watermark of a tile's improvements, the most informative first:
/// irrigation, then a mine, then a road.
pub open spec fn improvement_mark(irrigated: bool, mined: bool, road: bool) -> Option<char> {
    if irrigated {
        Some('≈')
    } else if mined {
        Some('⛏')
    } else if road {
        Some('+')
    } else {
        None
    }
}

/// The symbol a tile shows before any hover hatching: nothing off the map
/// or in fog; on a discovered tile a city's population digit when no unit
/// stands there, otherwise the first unit's letter, otherwise the terrain.
pub open spec fn tile_symbol(f: TileFacts) -> char {
    if !f.on_map || !f.explored {
        ' '
    } else if f.unit is None && f.city is Some {
        digit_char(if f.city->0.population >= 10 {
            9
        } else {
            f.city->0.population as int
        })
    } else if f.unit is Some {
        unit_name(f.unit->0)[0]
    } else {
        f.terrain
    }
}

/// How the map paints a tile.
pub open spec fn tile_face_of(f: TileFacts) -> (char, char, bool, TileBackground, bool, bool, Option<Seq<char>>) {
    let mark = if f.on_map && f.explored {
        improvement_mark(f.irrigated, f.mined, f.road)
    } else {
        None
    };
    let symbol = if f.hovered {
        '▓'
    } else {
        tile_symbol(f)
    };
    let spare = if f.hovered {
        '▓'
    } else if mark is Some {
        mark->0
    } else {
        ' '
    };
    let shown = f.on_map && f.explored;
    let background = if !f.on_map {
        TileBackground::Void
    } else if f.flashing && f.selected_idle_here {
        TileBackground::PlayerFlash
    } else if shown && f.city is Some {
        TileBackground::CityOwner
    } else if f.explored {
        TileBackground::Terrain
    } else {
        TileBackground::Fog
    };
    let bold = shown && f.unit is Some;
    let underlined = shown && (f.unit is Some || (f.city is Some && f.city->0.selected));
    let label = if shown && f.city is Some {
        Some(f.city->0.name@)
    } else {
        None
    };
    (symbol, spare, !f.hovered && mark is Some, background, bold, underlined, label)
}

/// How the map paints one world tile: the symbol (population, unit letter
/// or terrain), the watermark of the tile's improvements in the spare
/// column, hover hatching over both, the background (the owning
/// civilization's colour on a city, the player's colour while the selected
/// idle unit flashes), bold underlining for a unit, underlining for the
/// selected city, and the city's name to label beneath the tile.
pub fn tile_face(f: &TileFacts) -> (face: TileFace)
    ensures
        ({
            let expect = tile_face_of(*f);
            &&& face.symbol == expect.0
            &&& face.spare == expect.1
            &&& face.watermark == expect.2
            &&& face.background == expect.3
            &&& face.bold == expect.4
            &&& face.underlined == expect.5
            &&& (face.label matches Some(l) ==> expect.6 == Some(l@))
            &&& (face.label is None ==> expect.6 is None)
        }),
{
    let shown = f.on_map && f.explored;
    let mark = if !shown {
        None
    } else if f.irrigated {
        Some('≈')
    } else if f.mined {
        Some('⛏')
    } else if f.road {
        Some('+')
    } else {
        None
    };
    let base = if !shown {
        ' '
    } else {
        match (&f.unit, &f.city) {
            (None, Some(city)) => population_digit(city.population),
            (Some(class), _) => first_letter(*class),
            (None, None) => f.terrain,
        }
    };
    let symbol = if f.hovered {
        '▓'
    } else {
        base
    };
    let spare = if f.hovered {
        '▓'
    } else {
        match mark {
            Some(m) => m,
            None => ' ',
        }
    };
    let background = if !f.on_map {
        TileBackground::Void
    } else if f.flashing && f.selected_idle_here {
        TileBackground::PlayerFlash
    } else if shown && f.city.is_some() {
        TileBackground::CityOwner
    } else if f.explored {
        TileBackground::Terrain
    } else {
        TileBackground::Fog
    };
    let selected_city = match &f.city {
        Some(city) => city.selected,
        None => false,
    };
    let label = if shown {
        match &f.city {
            Some(city) => Some(city.name.clone()),
            None => None,
        }
    } else {
        None
    };
    TileFace {
        symbol,
        spare,
        watermark: !f.hovered && mark.is_some(),
        background,
        bold: shown && f.unit.is_some(),
        underlined: shown && (f.unit.is_some() || selected_city),
        label,
    }
}

/// Whether the screen cell showing world tile `(src_x, src_y)` (the column
/// not yet wrapped) carries the battle explosion at clock reading `now`.
pub fn flash_here(animation: Option<BattleAnimation>, now: u64, src: (usize, usize), map_w: usize) -> (here: bool)
    requires
        map_w > 0,
    ensures
        here == (animation matches Some(a) && src.0 % map_w == a.location.x && src.1 == a.location.y
            && a.showing(now)),
{
    match animation {
        Some(a) => src.0 % map_w == a.location.x as usize && src.1 == a.location.y as usize
            && a.glyph(now).is_some(),
        None => false,
    }
}

/// The map-pane cell, in tiles from the pane's top-left, where a world tile
/// shows under `camera` on a pane `cols` tiles wide and `rows` tall; `None`
/// when it is off screen. Columns wrap east to west.
pub open spec fn screen_cell_of(tile: Location, camera: (usize, usize), map_w: int, cols: int, rows: int) -> Option<(int, int)> {
    let col = (tile.x + map_w - camera.0) % map_w;
    let row = tile.y - camera.1;
    if col < cols && 0 <= row < rows {
        Some((col, row))
    } else {
        None
    }
}

/// The map-pane cell, in tiles from the pane's top-left, where the unit a
/// rival step moves is drawn; `None` when that tile is off screen.
pub fn rival_screen_cell(tile: Location, camera: (usize, usize), map_w: usize, cols: usize, rows: usize) -> (cell:
    Option<(usize, usize)>)
    requires
        0 < map_w,
        camera.0 <= tile.x + map_w,
        tile.x + map_w <= usize::MAX,
        rows <= isize::MAX,
        camera.1 <= isize::MAX,
    ensures
        match cell {
            Some(c) => screen_cell_of(tile, camera, map_w as int, cols as int, rows as int) == Some(
                (c.0 as int, c.1 as int),
            ),
            None => screen_cell_of(tile, camera, map_w as int, cols as int, rows as int) is None,
        },
{
    let col = (tile.x as usize + map_w - camera.0) % map_w;
    let row = tile.y as isize - camera.1 as isize;
    if col < cols && 0 <= row && row < rows as isize {
        Some((col, row as usize))
    } else {
        None
    }
}

/// The column where a city's name label starts beneath its tile: centred on
/// the tile's second cell, by the name's length in bytes. Columns left of
/// the screen's edge are skipped when drawing.
pub fn city_label_start(tile_x: u16, name_len: usize) -> (start: i64)
    requires
        name_len <= i64::MAX,
    ensures
        start == tile_x + 1 - name_len / 2,
{
    tile_x as i64 + 1 - (name_len / 2) as i64
}

/// A city's name label on the map pane: the pane column of its first
/// character (left of the pane when negative), the pane row it is written
/// on, and its characters.
#[derive(Clone, Debug)]
pub struct MapLabel {
    pub start: i64,
    pub row: usize,
    pub text: Vec<char>,
}

/// The glyph of a battle's explosion.
pub const EXPLOSION: char = '💥';

/// The character the last of the first `n` labels that covers pane cell
/// `(x, y)` writes there, if any: labels are written in order, so a later
/// one wins.
pub open spec fn label_cover(labels: Seq<MapLabel>, n: nat, x: int, y: int) -> Option<char>
    decreases n,
{
    if n == 0 {
        None
    } else {
        let label = labels[n - 1];
        if label.row == y && label.start <= x < label.start + label.text@.len() {
            Some(label.text@[x - label.start])
        } else {
            label_cover(labels, (n - 1) as nat, x, y)
        }
    }
}

/// What the tile pass paints in pane cell `(x, y)`: the symbol of the tile
/// in the cell's left column, its spare character in the right one, and a
/// blank beyond the tiles given.
pub open spec fn tile_cell(tiles: Seq<Vec<(char, char)>>, x: int, y: int) -> char {
    if 0 <= y < tiles.len() && 0 <= x && x / 2 < tiles[y]@.len() {
        if x % 2 == 0 {
            tiles[y]@[x / 2].0
        } else {
            tiles[y]@[x / 2].1
        }
    } else {
        ' '
    }
}

/// The character shown in pane cell `(x, y)` once every layer of the map is
/// painted, the top layer winning: the unit letter of the rival replay in
/// its tile's left column; then the battle explosion in the defended tile's
/// left column with the right column blanked beneath it; then the city
/// labels, the later over the earlier; then the tiles. `flash` and `rival`
/// are in tiles from the pane's top-left.
pub open spec fn map_cell_of(
    tiles: Seq<Vec<(char, char)>>,
    labels: Seq<MapLabel>,
    flash: Option<(usize, usize)>,
    rival: Option<(usize, usize, char)>,
    x: int,
    y: int,
) -> char {
    let rival_here = rival matches Some(r) && x % 2 == 0 && x / 2 == r.0 && y == r.1;
    if rival_here {
        match rival {
            Some(r) => r.2,
            None => ' ',
        }
    } else if flash matches Some(f) && x / 2 == f.0 && y == f.1 {
        if x % 2 == 0 {
            EXPLOSION
        } else {
            ' '
        }
    } else if label_cover(labels, labels.len(), x, y) is Some {
        label_cover(labels, labels.len(), x, y)->0
    } else {
        tile_cell(tiles, x, y)
    }
}

/// The character in pane cell `(x, y)` of the map: see `map_cell_of`.
pub fn map_cell(
    tiles: &Vec<Vec<(char, char)>>,
    labels: &Vec<MapLabel>,
    flash: Option<(usize, usize)>,
    rival: Option<(usize, usize, char)>,
    x: usize,
    y: usize,
) -> (symbol: char)
    ensures
        symbol == map_cell_of(tiles@, labels@, flash, rival, x as int, y as int),
{
    if let Some((col, row, letter)) = rival {
        if x % 2 == 0 && x / 2 == col && y == row {
            return letter;
        }
    }
    if let Some((col, row)) = flash {
        if x / 2 == col && y == row {
            return if x % 2 == 0 {
                EXPLOSION
            } else {
                ' '
            };
        }
    }
    let mut i = labels.len();
    while i > 0
        invariant
            i <= labels.len(),
            label_cover(labels@, labels@.len(), x as int, y as int) == label_cover(labels@, i as nat, x as int, y as int),
            !(rival matches Some(r) && x % 2 == 0 && x / 2 == r.0 && y == r.1),
            !(flash matches Some(f) && x / 2 == f.0 && y == f.1),
        decreases i,
    {
        let label = &labels[i - 1];
        let offset = x as i128 - label.start as i128;
        if label.row == y && offset >= 0 && offset < label.text.len() as i128 {
            proof {
                assert(label_cover(labels@, i as nat, x as int, y as int) == Some(label.text@[offset as int]));
            }
            return label.text[offset as usize];
        }
        i = i - 1;
    }
    if y < tiles.len() && x / 2 < tiles[y].len() {
        let tile = tiles[y][x / 2];
        if x % 2 == 0 {
            tile.0
        } else {
            tile.1
        }
    } else {
        ' '
    }
}

/// The battle explosion sits on top of everything but the rival replay's
/// unit letter: wherever the tiles and labels are, the defended tile shows
/// the explosion in its left column and a blank in its right one, and every
/// other cell of the pane shows what it would without the explosion.
pub proof fn lemma_explosion_on_top(
    tiles: Seq<Vec<(char, char)>>,
    labels: Seq<MapLabel>,
    tile: (usize, usize),
    x: int,
    y: int,
)
    ensures
        map_cell_of(tiles, labels, Some(tile), None, 2 * tile.0, tile.1 as int) == EXPLOSION,
        map_cell_of(tiles, labels, Some(tile), None, 2 * tile.0 + 1, tile.1 as int) == ' ',
        !(x / 2 == tile.0 && y == tile.1) ==> map_cell_of(tiles, labels, Some(tile), None, x, y) == map_cell_of(
            tiles,
            labels,
            None,
            None,
            x,
            y,
        ),
{
}

/// The event log box over the map pane: in its top-right corner, up to
/// `EVENT_LOG_WIDTH` wide, with a row per message (one to five) between
/// its borders; `None` when the pane is too small to hold it.
pub open spec fn event_log_box_of(area: Rect, count: int) -> Option<Rect> {
    let shown = if count < 1 {
        1
    } else if count > 5 {
        5
    } else {
        count
    };
    let rows = shown + 2;
    let width = if area.width < EVENT_LOG_WIDTH {
        area.width as int
    } else {
        EVENT_LOG_WIDTH as int
    };
    if width < 4 || rows > area.height {
        None
    } else {
        Some(Rect { x: (area.right_edge() - width) as u16, y: area.y, width: width as u16, height: rows as u16 })
    }
}

/// The event log box over the map pane, for `count` recorded messages.
pub fn event_log_box(area: Rect, count: usize) -> (log: Option<Rect>)
    ensures
        log == event_log_box_of(area, count as int),
{
    let shown: u16 = if count < 1 {
        1
    } else if count > 5 {
        5
    } else {
        count as u16
    };
    let rows = shown + 2;
    let width = if area.width < EVENT_LOG_WIDTH {
        area.width
    } else {
        EVENT_LOG_WIDTH
    };
    if width < 4 || rows > area.height {
        None
    } else {
        Some(Rect { x: area.right() - width, y: area.y, width, height: rows })
    }
}

/// The event log's box lies in the map pane's top-right corner, flush with
/// its top and right edges.
pub proof fn lemma_event_log_in_corner(area: Rect, count: int)
    requires
        area.x + area.width <= u16::MAX,
        event_log_box_of(area, count) is Some,
    ensures
        ({
            let log = event_log_box_of(area, count)->0;
            &&& within(log, area)
            &&& log.y == area.y
            &&& log.x + log.width == area.x + area.width
        }),
{
}

/// The first `width` characters of `text`.
pub open spec fn clipped(text: Seq<char>, width: int) -> Seq<char> {
    if text.len() <= width {
        text
    } else {
        text.take(width)
    }
}

/// The first `width` characters of `text`.
pub fn clip(text: &str, width: usize) -> (clipped_text: String)
    ensures
        clipped_text@ == clipped(text@, width as int),
{
    let len = text.unicode_len();
    if len <= width {
        String::from_str(text)
    } else {
        let part = text.substring_char(0, width);
        proof {
            assert(text@.subrange(0, width as int) =~= text@.take(width as int));
        }
        String::from_str(part)
    }
}

/// The message rows of the event log: the five most recent messages, oldest
/// first, each clipped to the box's inner width; with none recorded yet, a
/// placeholder.
pub open spec fn event_log_lines_of(events: Seq<Seq<char>>, width: int) -> Seq<Seq<char>> {
    if events.len() == 0 {
        seq![clipped("(no events yet)"@, width)]
    } else {
        let start = if events.len() > 5 {
            events.len() - 5
        } else {
            0
        };
        events.skip(start).map_values(|message: Seq<char>| clipped(message, width))
    }
}

/// The message rows of the event log: the five most recent messages, oldest
/// first, each clipped to the box's inner width; with none recorded yet, a
/// placeholder.
pub fn event_log_lines(events: &Vec<String>, width: usize) -> (lines: Vec<String>)
    ensures
        crate::city_window::texts(lines@) == event_log_lines_of(crate::city_window::texts(events@), width as int),
{
    let mut lines: Vec<String> = Vec::new();
    if events.len() == 0 {
        lines.push(clip("(no events yet)", width));
        proof {
            assert(crate::city_window::texts(lines@) =~= event_log_lines_of(
                crate::city_window::texts(events@),
                width as int,
            ));
        }
        return lines;
    }
    let start = if events.len() > 5 {
        events.len() - 5
    } else {
        0
    };
    let mut i = start;
    while i < events.len()
        invariant
            start <= i <= events.len(),
            lines@.len() == i - start,
            forall|k: int| 0 <= k < i - start ==> (#[trigger] lines@[k])@ == clipped(events@[start + k]@, width as int),
        decreases events.len() - i,
    {
        lines.push(clip(events[i].as_str(), width));
        i = i + 1;
    }
    proof {
        assert(crate::city_window::texts(lines@) =~= event_log_lines_of(
            crate::city_window::texts(events@),
            width as int,
        ));
    }
    lines
}

/// `prefix` followed by `rest`.
fn prefixed(prefix: &str, rest: &str) -> (text: String)
    ensures
        text@ == prefix@ + rest@,
{
    let mut text = String::from_str(prefix);
    text.append(rest);
    text
}

/// `prefix` followed by `n` in decimal.
fn numbered(prefix: &str, n: u64) -> (text: String)
    ensures
        text@ == prefix@ + decimal(n as nat),
{
    let digits = decimal_string(n);
    prefixed(prefix, digits.as_str())
}

/// The statistics panel's first line: the player's civilization.
pub fn civilization_line(civ: Civilization) -> (line: String)
    ensures
        line@ == "Civilization: "@ + civilization_name(civ),
{
    prefixed("Civilization: ", civ.display_name())
}

/// The statistics panel's calendar line.
pub fn year_line(year: i32) -> (line: String)
    requires
        year > i32::MIN,
    ensures
        line@ == "Year: "@ + year_text(year as int),
{
    let year_text = format_year(year);
    prefixed("Year: ", year_text.as_str())
}

/// The statistics panel's treasury line.
pub fn gold_line(gold: u32) -> (line: String)
    ensures
        line@ == "Gold  "@ + decimal(gold as nat),
{
    numbered("Gold  ", gold as u64)
}

/// The statistics panel's research heading: the advancement being
/// researched, or `--` when none is.
pub fn research_label(target: Option<Advancement>) -> (line: String)
    ensures
        line@ == "Researching: "@ + (match target {
            Some(a) => advancement_name(a),
            None => "--"@,
        }),
{
    match target {
        Some(a) => prefixed("Researching: ", a.name()),
        None => prefixed("Researching: ", "--"),
    }
}

/// `count` copies of `ch`.
pub open spec fn repeated(ch: char, count: nat) -> Seq<char> {
    Seq::new(count, |i: int| ch)
}

/// The research progress bar: `filled` of its ten cells solid, the rest
/// shaded.
pub fn research_bar(filled: usize) -> (bar: String)
    requires
        filled <= 10,
    ensures
        bar@ == repeated('█', filled as nat) + repeated('░', (10 - filled) as nat),
{
    let mut bar = String::new();
    let mut i: usize = 0;
    proof {
        reveal_strlit("█");
        reveal_strlit("░");
    }
    while i < 10
        invariant
            i <= 10,
            filled <= 10,
            bar@ == (if i <= filled {
                repeated('█', i as nat)
            } else {
                repeated('█', filled as nat) + repeated('░', (i - filled) as nat)
            }),
        decreases 10 - i,
    {
        proof {
            reveal_strlit("█");
            reveal_strlit("░");
        }
        if i < filled {
            bar.append("█");
        } else {
            bar.append("░");
        }
        i = i + 1;
        proof {
            if i <= filled {
                assert(bar@ =~= repeated('█', i as nat));
            } else {
                assert(bar@ =~= repeated('█', filled as nat) + repeated('░', (i - filled) as nat));
            }
        }
    }
    bar
}

/// The research figures beside the bar: progress, cost and income per
/// turn, as in `12/40 +3`.
pub fn research_numbers(progress: u32, cost: u32, income: u32) -> (line: String)
    ensures
        line@ == decimal(progress as nat) + "/"@ + decimal(cost as nat) + " +"@ + decimal(income as nat),
{
    let mut line = decimal_string(progress as u64);
    line.append("/");
    let c = decimal_string(cost as u64);
    line.append(c.as_str());
    line.append(" +");
    let i = decimal_string(income as u64);
    line.append(i.as_str());
    line
}

/// The colour a line of the focus panel is drawn in.
#[derive(Clone, Copy, Debug, PartialEq, Eq, Structural)]
pub enum Tone {
    /// The accent gold, bold: headings.
    Accent,
    /// Dimmed: tile details.
    Dim,
    /// Warm gold: units.
    Gold,
    /// Green: work in progress and improvements under the pointer.
    Green,
}

/// A line of a panel: its row below the panel's top, its text and colour.
#[derive(Clone, Debug)]
pub struct PanelLine {
    pub row: u16,
    pub text: String,
    pub tone: Tone,
}

/// A terrain improvement a unit is building, as the focus panel shows it:
/// its name in lower case, the turns worked and the turns it takes.
#[derive(Clone, Debug)]
pub struct WorkInProgress {
    pub name: String,
    pub progress: u32,
    pub turns: u32,
}

/// The first unit on the focused tile.
#[derive(Clone, Debug)]
pub struct FocusUnit {
    pub class: UnitClass,
    pub moves: u32,
    pub work: Option<WorkInProgress>,
}

/// What a tile yields and carries: its terrain's name, food, shields and
/// trade, and its improvements.
#[derive(Clone, Debug)]
pub struct TileSummary {
    pub terrain: String,
    pub food: u32,
    pub shields: u32,
    pub trade: u32,
    pub irrigated: bool,
    pub mined: bool,
    pub road: bool,
}

/// The tile the focus panel describes: the first unit on it, if any, and
/// the tile itself.
#[derive(Clone, Debug)]
pub struct FocusTile {
    pub unit: Option<FocusUnit>,
    pub tile: TileSummary,
}

/// The tile under the pointer: where it is, whether the player has
/// discovered it, what it is, what moving onto it costs, its special
/// resource, the city on it (name and population) and every unit on it
/// (class and owner).
#[derive(Clone, Debug)]
pub struct HoverTile {
    pub x: usize,
    pub y: usize,
    pub explored: bool,
    pub tile: TileSummary,
    pub movement_cost: u32,
    pub resource: Option<SpecialResource>,
    pub city: Option<(String, u32)>,
    pub units: Vec<(UnitClass, Civilization)>,
}

/// A tile's improvements, the way the focus panel lists them:
/// `≈ irrigation, ⛏ mine, + road`, naming only those present.
pub open spec fn improvement_list(irrigated: bool, mined: bool, road: bool) -> Seq<char> {
    joined(
        (if irrigated {
            seq!["≈ irrigation"@]
        } else {
            Seq::empty()
        }) + (if mined {
            seq!["⛏ mine"@]
        } else {
            Seq::empty()
        }) + (if road {
            seq!["+ road"@]
        } else {
            Seq::empty()
        }),
        ", "@,
    )
}

/// A tile's improvements, the way the focus panel lists them.
pub fn improvement_text(irrigated: bool, mined: bool, road: bool) -> (text: String)
    ensures
        text@ == improvement_list(irrigated, mined, road),
{
    let mut parts: Vec<String> = Vec::new();
    if irrigated {
        parts.push(String::from_str("≈ irrigation"));
    }
    if mined {
        parts.push(String::from_str("⛏ mine"));
    }
    if road {
        parts.push(String::from_str("+ road"));
    }
    let text = join(&parts, ", ");
    proof {
        assert(parts@.map_values(|part: String| part@) =~= (if irrigated {
            seq!["≈ irrigation"@]
        } else {
            Seq::empty()
        }) + (if mined {
            seq!["⛏ mine"@]
        } else {
            Seq::empty()
        }) + (if road {
            seq!["+ road"@]
        } else {
            Seq::empty()
        }));
    }
    text
}

/// A tile's yields: `Food 2  Prod 1  Trade 0`.
pub open spec fn yields_text(t: TileSummary) -> Seq<char> {
    "Food "@ + decimal(t.food as nat) + "  Prod "@ + decimal(t.shields as nat) + "  Trade "@ + decimal(
        t.trade as nat,
    )
}

/// A tile's yields: `Food 2  Prod 1  Trade 0`.
fn yields_line(t: &TileSummary) -> (text: String)
    ensures
        text@ == yields_text(*t),
{
    let mut text = numbered("Food ", t.food as u64);
    let shields = numbered("  Prod ", t.shields as u64);
    text.append(shields.as_str());
    let trade = numbered("  Trade ", t.trade as u64);
    text.append(trade.as_str());
    text
}

/// Whether a tile has any improvement to list.
pub open spec fn improved(t: TileSummary) -> bool {
    t.irrigated || t.mined || t.road
}

/// The focus panel's lines about the unit on the focused tile, from row 2:
/// its class and moves left and what it is building, or a note that there
/// is no unit.
pub open spec fn focus_unit_lines(unit: Option<FocusUnit>) -> Seq<(int, Seq<char>, Tone)> {
    match unit {
        Some(u) => {
            let first = seq![(2int, "Unit: "@ + unit_name(u.class) + " mv "@ + decimal(u.moves as nat), Tone::Gold)];
            match u.work {
                Some(w) => first.push(
                    (
                        3int,
                        "Building "@ + w.name@ + " "@ + decimal(w.progress as nat) + " of "@ + decimal(
                            w.turns as nat,
                        ) + " turns"@,
                        Tone::Green,
                    ),
                ),
                None => first,
            }
        },
        None => seq![(2int, "(no unit here)"@, Tone::Dim)],
    }
}

/// The focus panel's lines about the focused tile, from row 2: the unit
/// there (and what it is building) or a note that there is none, the
/// terrain, the yields and the improvements. The second part is the row
/// after which the pointer's block begins.
pub open spec fn focus_block(focus: FocusTile) -> (Seq<(int, Seq<char>, Tone)>, int) {
    let unit_lines = focus_unit_lines(focus.unit);
    let row: int = 2 + unit_lines.len() as int;
    let tile_lines = seq![
        (row, "Terrain: "@ + focus.tile.terrain@, Tone::Dim),
        (row + 1, yields_text(focus.tile), Tone::Dim),
    ];
    if improved(focus.tile) {
        (
            unit_lines + tile_lines + seq![
                (
                    row + 2,
                    improvement_list(focus.tile.irrigated, focus.tile.mined, focus.tile.road),
                    Tone::Dim,
                ),
            ],
            row + 2,
        )
    } else {
        (unit_lines + tile_lines, row + 1)
    }
}

/// The name and owner of a unit on the hovered tile: `Militia (English)`.
pub open spec fn unit_entry(unit: (UnitClass, Civilization)) -> Seq<char> {
    unit_name(unit.0) + " ("@ + civilization_name(unit.1) + ")"@
}

/// The first two lines about the hovered tile, from row `top`: where it is
/// and its terrain, then what moving onto it costs and what it yields.
pub open spec fn hover_head(hover: HoverTile, top: int) -> Seq<(int, Seq<char>, Tone)> {
    seq![
        (
            top,
            "Hovering: "@ + hover.tile.terrain@ + " ("@ + decimal(hover.x as nat) + ", "@ + decimal(
                hover.y as nat,
            ) + ")"@,
            Tone::Accent,
        ),
        (top + 1, "Move "@ + decimal(hover.movement_cost as nat) + "   "@ + yields_text(hover.tile), Tone::Dim),
    ]
}

/// The hovered tile's improvements at row `row`, if it has any.
pub open spec fn hover_improvements(hover: HoverTile, row: int) -> Seq<(int, Seq<char>, Tone)> {
    if improved(hover.tile) {
        seq![(row, improvement_list(hover.tile.irrigated, hover.tile.mined, hover.tile.road), Tone::Green)]
    } else {
        Seq::empty()
    }
}

/// The hovered tile's special resource at row `row`, if it has one.
pub open spec fn hover_resource(hover: HoverTile, row: int) -> Seq<(int, Seq<char>, Tone)> {
    match hover.resource {
        Some(res) => seq![(row, "Resource: "@ + resource_name(res), Tone::Dim)],
        None => Seq::empty(),
    }
}

/// The city on the hovered tile at row `row`, if there is one.
pub open spec fn hover_city(hover: HoverTile, row: int) -> Seq<(int, Seq<char>, Tone)> {
    match hover.city {
        Some(c) => seq![(row, "City: "@ + c.0@ + " (pop "@ + decimal(c.1 as nat) + ")"@, Tone::Dim)],
        None => Seq::empty(),
    }
}

/// The units on the hovered tile at row `row`, or a note that there are
/// none.
pub open spec fn hover_units(hover: HoverTile, row: int) -> (int, Seq<char>, Tone) {
    if hover.units.len() == 0 {
        (row, "No units here"@, Tone::Dim)
    } else {
        (row, joined(hover.units@.map_values(|u: (UnitClass, Civilization)| unit_entry(u)), ", "@), Tone::Gold)
    }
}

/// The focus panel's block about the hovered tile, starting two rows below
/// `row`: where it is and its terrain, moving cost and yields, its
/// improvements, its special resource, the city on it, and the units on it
/// (or a note that there are none).
pub open spec fn hover_block(hover: HoverTile, row: int) -> Seq<(int, Seq<char>, Tone)> {
    let top: int = row + 2;
    let improvements = hover_improvements(hover, top + 2);
    let r1: int = top + 2 + improvements.len() as int;
    let resource = hover_resource(hover, r1);
    let r2: int = r1 + resource.len() as int;
    let city = hover_city(hover, r2);
    let r3: int = r2 + city.len() as int;
    hover_head(hover, top) + improvements + resource + city + seq![hover_units(hover, r3)]
}

/// The focus panel's lines, top to bottom.
pub open spec fn focus_lines_of(civ: Civilization, focus: Option<FocusTile>, hover: Option<HoverTile>) -> Seq<(int, Seq<char>, Tone)> {
    let header = seq![(0int, "In turn: "@ + civilization_name(civ), Tone::Accent)];
    let (body, row) = match focus {
        Some(f) => focus_block(f),
        None => (seq![(1int, "(move a unit to inspect it)"@, Tone::Dim)], 2int),
    };
    let hovered = match hover {
        Some(h) => if h.explored {
            hover_block(h, row)
        } else {
            Seq::empty()
        },
        None => Seq::empty(),
    };
    header + body + hovered
}

/// The rows, texts and tones of panel lines.
pub open spec fn line_views(lines: Seq<PanelLine>) -> Seq<(int, Seq<char>, Tone)> {
    lines.map_values(|line: PanelLine| (line.row as int, line.text@, line.tone))
}

/// Append a line at `row`.
fn push_line(lines: &mut Vec<PanelLine>, row: u16, text: String, tone: Tone)
    ensures
        line_views(final(lines)@) == line_views(old(lines)@).push((row as int, text@, tone)),
{
    lines.push(PanelLine { row, text, tone });
    proof {
        assert(line_views(final(lines)@) =~= line_views(old(lines)@).push((row as int, text@, tone)));
    }
}

/// The focus panel's lines about the focused tile, from row 2; returns the
/// row after which the pointer's block begins.
fn focus_block_lines(lines: &mut Vec<PanelLine>, focus: &FocusTile) -> (row: u16)
    ensures
        line_views(final(lines)@) == line_views(old(lines)@) + focus_block(*focus).0,
        row as int == focus_block(*focus).1,
        row <= 6,
{
    let ghost start = line_views(lines@);
    let mut row: u16 = 2;
    match &focus.unit {
        Some(u) => {
            let mut unit_line = prefixed("Unit: ", u.class.name());
            let moves = numbered(" mv ", u.moves as u64);
            unit_line.append(moves.as_str());
            proof {
                assert(unit_line@ =~= "Unit: "@ + unit_name(u.class) + " mv "@ + decimal(u.moves as nat));
            }
            push_line(lines, row, unit_line, Tone::Gold);
            row = row + 1;
            match &u.work {
                Some(w) => {
                    let mut text = prefixed("Building ", w.name.as_str());
                    let progress = numbered(" ", w.progress as u64);
                    text.append(progress.as_str());
                    let turns = numbered(" of ", w.turns as u64);
                    text.append(turns.as_str());
                    text.append(" turns");
                    proof {
                        assert(text@ =~= "Building "@ + w.name@ + " "@ + decimal(w.progress as nat) + " of "@
                            + decimal(w.turns as nat) + " turns"@);
                    }
                    push_line(lines, row, text, Tone::Green);
                    row = row + 1;
                },
                None => {},
            }
        },
        None => {
            push_line(lines, row, String::from_str("(no unit here)"), Tone::Dim);
            row = row + 1;
        },
    }
    proof {
        assert(line_views(lines@) =~= start + focus_unit_lines(focus.unit));
        assert(row as int == 2 + focus_unit_lines(focus.unit).len());
    }
    let ghost after_unit = line_views(lines@);
    push_line(lines, row, prefixed("Terrain: ", focus.tile.terrain.as_str()), Tone::Dim);
    row = row + 1;
    push_line(lines, row, yields_line(&focus.tile), Tone::Dim);
    if focus.tile.irrigated || focus.tile.mined || focus.tile.road {
        row = row + 1;
        push_line(
            lines,
            row,
            improvement_text(focus.tile.irrigated, focus.tile.mined, focus.tile.road),
            Tone::Dim,
        );
    }
    proof {
        assert(line_views(lines@) =~= start + focus_block(*focus).0);
    }
    row
}

/// The first two lines about the hovered tile, from row `top`.
fn hover_head_lines(lines: &mut Vec<PanelLine>, hover: &HoverTile, top: u16)
    requires
        top <= 8,
    ensures
        line_views(final(lines)@) == line_views(old(lines)@) + hover_head(*hover, top as int),
{
    let ghost start = line_views(lines@);
    let mut head = prefixed("Hovering: ", hover.tile.terrain.as_str());
    let x = numbered(" (", hover.x as u64);
    head.append(x.as_str());
    let y = numbered(", ", hover.y as u64);
    head.append(y.as_str());
    head.append(")");
    proof {
        assert(head@ =~= "Hovering: "@ + hover.tile.terrain@ + " ("@ + decimal(hover.x as nat) + ", "@
            + decimal(hover.y as nat) + ")"@);
    }
    push_line(lines, top, head, Tone::Accent);
    let mut moving = numbered("Move ", hover.movement_cost as u64);
    moving.append("   ");
    let yields = yields_line(&hover.tile);
    moving.append(yields.as_str());
    proof {
        assert(moving@ =~= "Move "@ + decimal(hover.movement_cost as nat) + "   "@ + yields_text(hover.tile));
    }
    push_line(lines, top + 1, moving, Tone::Dim);
    proof {
        assert(line_views(lines@) =~= start + hover_head(*hover, top as int));
    }
}

/// The line listing the units on the hovered tile, at row `row`.
fn hover_units_line(hover: &HoverTile, row: u16) -> (line: PanelLine)
    ensures
        (line.row as int, line.text@, line.tone) == hover_units(*hover, row as int),
{
    if hover.units.len() == 0 {
        return PanelLine { row, text: String::from_str("No units here"), tone: Tone::Dim };
    }
    let mut entries: Vec<String> = Vec::new();
    let mut i: usize = 0;
    while i < hover.units.len()
        invariant
            i <= hover.units.len(),
            entries@.len() == i,
            forall|k: int| 0 <= k < i ==> (#[trigger] entries@[k])@ == unit_entry(hover.units@[k]),
        decreases hover.units.len() - i,
    {
        let (class, owner) = hover.units[i];
        let mut entry = prefixed(class.name(), " (");
        entry.append(owner.display_name());
        entry.append(")");
        proof {
            assert(entry@ =~= unit_entry((class, owner)));
        }
        entries.push(entry);
        i = i + 1;
    }
    proof {
        assert(entries@.map_values(|part: String| part@) =~= hover.units@.map_values(
            |u: (UnitClass, Civilization)| unit_entry(u),
        ));
    }
    PanelLine { row, text: join(&entries, ", "), tone: Tone::Gold }
}

/// The hovered tile's optional lines, from row `row`: its improvements, its
/// special resource and the city on it; returns the row after them.
fn hover_detail_lines(lines: &mut Vec<PanelLine>, hover: &HoverTile, row: u16) -> (next: u16)
    requires
        row <= 10,
    ensures
        ({
            let improvements = hover_improvements(*hover, row as int);
            let r1: int = row + improvements.len() as int;
            let resource = hover_resource(*hover, r1);
            let r2: int = r1 + resource.len() as int;
            let city = hover_city(*hover, r2);
            &&& line_views(final(lines)@) == line_views(old(lines)@) + improvements + resource + city
            &&& next as int == r2 + city.len() as int
        }),
        next <= row + 3,
{
    let ghost start = line_views(lines@);
    let mut row = row;
    let ghost first = row as int;
    if hover.tile.irrigated || hover.tile.mined || hover.tile.road {
        push_line(
            lines,
            row,
            improvement_text(hover.tile.irrigated, hover.tile.mined, hover.tile.road),
            Tone::Green,
        );
        row = row + 1;
    }
    proof {
        assert(line_views(lines@) =~= start + hover_improvements(*hover, first));
    }
    let ghost g1 = line_views(lines@);
    let ghost r1 = row as int;
    match hover.resource {
        Some(res) => {
            push_line(lines, row, prefixed("Resource: ", resource_label(res)), Tone::Dim);
            row = row + 1;
        },
        None => {},
    }
    proof {
        assert(line_views(lines@) =~= g1 + hover_resource(*hover, r1));
    }
    let ghost g2 = line_views(lines@);
    let ghost r2 = row as int;
    match &hover.city {
        Some(c) => {
            let mut text = prefixed("City: ", c.0.as_str());
            let pop = numbered(" (pop ", c.1 as u64);
            text.append(pop.as_str());
            text.append(")");
            proof {
                assert(text@ =~= "City: "@ + c.0@ + " (pop "@ + decimal(c.1 as nat) + ")"@);
            }
            push_line(lines, row, text, Tone::Dim);
            row = row + 1;
        },
        None => {},
    }
    proof {
        assert(line_views(lines@) =~= g2 + hover_city(*hover, r2));
        assert(line_views(lines@) =~= start + hover_improvements(*hover, first) + hover_resource(*hover, r1)
            + hover_city(*hover, r2));
    }
    row
}

/// The focus panel's block about the hovered tile, starting two rows below
/// `base`.
fn hover_block_lines(lines: &mut Vec<PanelLine>, hover: &HoverTile, base: u16)
    requires
        base <= 6,
    ensures
        line_views(final(lines)@) == line_views(old(lines)@) + hover_block(*hover, base as int),
{
    let ghost start = line_views(lines@);
    let top = base + 2;
    hover_head_lines(lines, hover, top);
    let ghost g0 = line_views(lines@);
    let row = hover_detail_lines(lines, hover, top + 2);
    let ghost g1 = line_views(lines@);
    let units = hover_units_line(hover, row);
    push_line(lines, units.row, units.text, units.tone);
    proof {
        assert(line_views(lines@) =~= start + hover_block(*hover, base as int));
    }
}

/// The focus panel's lines, top to bottom, each with its row below the
/// panel's top: whose turn it is; for the focused tile, its unit (and what
/// the unit is building) or a note that there is none, its terrain, yields
/// and improvements, or, with nothing focused, a hint to move a unit; then,
/// when the pointer hovers a discovered tile, a block about that tile.
pub fn focus_lines(civ: Civilization, focus: &Option<FocusTile>, hover: &Option<HoverTile>) -> (lines: Vec<PanelLine>)
    ensures
        line_views(lines@) == focus_lines_of(civ, *focus, *hover),
{
    let mut lines: Vec<PanelLine> = Vec::new();
    push_line(&mut lines, 0, prefixed("In turn: ", civ.display_name()), Tone::Accent);
    let row = match focus {
        Some(f) => focus_block_lines(&mut lines, f),
        None => {
            push_line(&mut lines, 1, String::from_str("(move a unit to inspect it)"), Tone::Dim);
            2
        },
    };
    let ghost before_hover = line_views(lines@);
    match hover {
        Some(h) => {
            if h.explored {
                hover_block_lines(&mut lines, h, row);
            }
        },
        None => {},
    }
    proof {
        assert(line_views(lines@) =~= focus_lines_of(civ, *focus, *hover));
    }
    lines
}

} // verus!
