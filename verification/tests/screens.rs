use civterm::city_window::{
    close_button_rect, food_lines, improvement_names, population_header, production_lines, resource_icon,
    resource_lines, scrollbar_thumb, turns_to, window_rect, city_layout, CityIncome,
};
use civterm::game_screen::{
    city_label_start, flash_here, map_cell, MapLabel,
    event_log_box, event_log_lines, first_letter, focus_lines, population_digit, running_battle, screen_layout,
    tile_face, BattleAnimation, CityOnTile, FocusTile, FocusUnit, GameScreen, HoverTile, RivalMoveAnimation,
    RivalMoveFrame, TileBackground, TileFacts, TileSummary, Tone, LEFT_COLUMN_WIDTH,
};
use civterm::geometry::Rect;
use civterm::model::{CityImprovement, Civilization, Location, ProductionTarget, SpecialResource, UnitClass, UnitId};
use civterm::text::{cell_width, decimal_string, format_year, str_le, with_commas};

#[test]
fn years_are_formatted_with_a_bc_and_ad_boundary() {
    assert_eq!(format_year(-4000), "4000 BC");
    assert_eq!(format_year(-1), "1 BC");
    assert_eq!(format_year(0), "1 AD");
    assert_eq!(format_year(50), "50 AD");
}

#[test]
fn numbers_are_written_in_decimal_and_grouped_in_thousands() {
    assert_eq!(decimal_string(0), "0");
    assert_eq!(decimal_string(1907), "1907");
    assert_eq!(with_commas(0), "0");
    assert_eq!(with_commas(999), "999");
    assert_eq!(with_commas(1000), "1,000");
    assert_eq!(with_commas(30000), "30,000");
    assert_eq!(with_commas(1_002_003), "1,002,003");
    assert_eq!(with_commas(u32::MAX), "4,294,967,295");
}

#[test]
fn names_compare_as_strings_do() {
    assert!(str_le("Barracks", "Marketplace"));
    assert!(!str_le("Marketplace", "Barracks"));
    assert!(str_le("Phalanx", "Phalanx"));
    assert!(str_le("City", "City Walls"));
    assert!(!str_le("City Walls", "City"));
    assert!(str_le("", "a"));
}

#[test]
fn wide_glyphs_take_two_cells() {
    assert_eq!(cell_width('a'), 1);
    assert_eq!(cell_width('≈'), 1);
    assert_eq!(cell_width('🌾'), 2);
}

fn flash() -> BattleAnimation {
    BattleAnimation::new(Location::new(0, 0), 100)
}

#[test]
fn the_flash_glyph_lasts_for_the_whole_flash_duration() {
    let animation = flash();
    assert_eq!(animation.glyph(100), Some("💥"));
    assert_eq!(animation.glyph(599), Some("💥"));
    assert_eq!(animation.glyph(600), Some("💥"));
    assert_eq!(animation.glyph(1099), Some("💥"));
}

#[test]
fn the_flash_glyph_is_gone_once_a_full_second_has_passed() {
    let animation = flash();
    assert_eq!(animation.glyph(1100), None);
}

#[test]
fn an_expired_flash_is_dropped() {
    assert_eq!(running_battle(Some(flash()), 1099), Some(flash()));
    assert_eq!(running_battle(Some(flash()), 1100), None);
    assert_eq!(running_battle(None, 0), None);
}

fn replay() -> RivalMoveAnimation {
    let frame = |id: u32, x: u16| RivalMoveFrame {
        unit_id: UnitId::new(id),
        from: Location::new(x, 0),
        to: Location::new(x + 1, 0),
    };
    RivalMoveAnimation::new(1000, vec![frame(7, 1), frame(8, 5)])
}

#[test]
fn rival_moves_replay_step_by_step() {
    let animation = replay();
    assert_eq!(animation.active_frame(1000).map(|(f, first)| (f.unit_id, first)), Some((UnitId::new(7), true)));
    assert_eq!(animation.active_frame(1299).map(|(f, first)| (f.unit_id, first)), Some((UnitId::new(7), true)));
    assert_eq!(animation.active_frame(1300).map(|(f, first)| (f.unit_id, first)), Some((UnitId::new(7), false)));
    assert_eq!(animation.active_frame(1600).map(|(f, first)| (f.unit_id, first)), Some((UnitId::new(8), true)));
    assert_eq!(animation.active_frame(2200).map(|(f, _)| f.unit_id), None);
    assert_eq!(animation.hidden_units(1000), vec![UnitId::new(7), UnitId::new(8)]);
    assert_eq!(animation.hidden_units(1600), vec![UnitId::new(8)]);
    assert_eq!(animation.hidden_units(2200), Vec::<UnitId>::new());
    assert!(!animation.is_complete(2199));
    assert!(animation.is_complete(2200));
    // A clock reading before the start counts as the start.
    assert_eq!(animation.hidden_units(0), vec![UnitId::new(7), UnitId::new(8)]);
}

#[test]
fn the_idle_flash_blinks_each_second_and_can_be_pinned_off() {
    let at = |now: u64| GameScreen::new(None, (0, 0), None, None, now, false, Vec::new(), None);
    assert!(at(0).flash_phase());
    assert!(at(499).flash_phase());
    assert!(!at(500).flash_phase());
    assert!(at(1000).flash_phase());
    assert!(!at(0).with_flash_enabled(false).flash_phase());
}

#[test]
fn population_digits_and_unit_letters() {
    assert_eq!(population_digit(0), '0');
    assert_eq!(population_digit(3), '3');
    assert_eq!(population_digit(9), '9');
    assert_eq!(population_digit(42), '9');
    assert_eq!(first_letter(UnitClass::Militia), 'M');
    assert_eq!(first_letter(UnitClass::Settler), 'S');
}

/// A discovered ocean tile on the map, as the test view paints it, with
/// nothing on it.
fn ocean() -> TileFacts {
    TileFacts {
        on_map: true,
        explored: true,
        terrain: '~',
        unit: None,
        city: None,
        irrigated: false,
        mined: false,
        road: false,
        hovered: false,
        flashing: false,
        selected_idle_here: false,
    }
}

fn london() -> CityOnTile {
    CityOnTile { name: "London".to_string(), population: 1, selected: false }
}

/// A grassland tile that is irrigated and has a road.
fn improved() -> TileFacts {
    TileFacts { terrain: 'v', irrigated: true, road: true, ..ocean() }
}

#[test]
fn a_unit_on_a_city_tile_displays_ahead_of_the_population() {
    let facts = TileFacts { unit: Some(UnitClass::Militia), city: Some(london()), ..ocean() };
    let face = tile_face(&facts);
    assert_eq!(face.symbol, 'M');
    // The city still yields its name label even though a unit is shown.
    assert_eq!(face.label.as_deref(), Some("London"));
    assert!(face.bold && face.underlined);
    assert_eq!(face.background, TileBackground::CityOwner);
}

#[test]
fn an_irrigated_tile_shows_a_watermark_in_its_spare_column() {
    let face = tile_face(&improved());
    assert_eq!(face.symbol, 'v', "the terrain letter keeps the first column");
    assert_eq!(face.spare, '≈');
    // The marker keeps the tile's background so the tile still reads whole.
    assert!(face.watermark);
    assert_eq!(face.background, TileBackground::Terrain);
}

#[test]
fn an_irrigated_tile_with_a_road_shows_the_irrigation_watermark() {
    let face = tile_face(&improved());
    assert_eq!(face.label, None);
    assert_eq!(face.spare, '≈');
}

#[test]
fn a_mine_and_a_road_each_show_their_own_watermark() {
    let mined = TileFacts { terrain: 'h', mined: true, ..ocean() };
    assert_eq!(tile_face(&mined).spare, '⛏');
    let roaded = TileFacts { terrain: 'p', road: true, ..ocean() };
    assert_eq!(tile_face(&roaded).spare, '+');
}

#[test]
fn an_plain_tile_and_fog_draw_no_watermark() {
    assert_eq!(tile_face(&ocean()).spare, ' ');
    // Fog hides the improvement even though the tile owns one.
    let foggy = TileFacts { explored: false, ..improved() };
    let face = tile_face(&foggy);
    assert_eq!(face.spare, ' ');
    assert_eq!(face.symbol, ' ');
    assert_eq!(face.background, TileBackground::Fog);
}

#[test]
fn a_city_with_no_unit_shows_its_population() {
    let facts = TileFacts { city: Some(london()), ..ocean() };
    let face = tile_face(&facts);
    assert_eq!(face.symbol, '1');
    assert_eq!(face.label.as_deref(), Some("London"));
}

#[test]
fn hovering_hatches_the_whole_tile_and_the_selected_unit_flashes() {
    let hovered = TileFacts { hovered: true, ..improved() };
    let face = tile_face(&hovered);
    assert_eq!((face.symbol, face.spare, face.watermark), ('▓', '▓', false));
    let flashing = TileFacts { unit: Some(UnitClass::Settler), flashing: true, selected_idle_here: true, ..ocean() };
    assert_eq!(tile_face(&flashing).background, TileBackground::PlayerFlash);
    let below = TileFacts { on_map: false, ..ocean() };
    assert_eq!(tile_face(&below).background, TileBackground::Void);
    let selected_city = TileFacts { city: Some(CityOnTile { selected: true, ..london() }), ..ocean() };
    let face = tile_face(&selected_city);
    assert!(face.underlined && !face.bold);
}

#[test]
fn the_left_column_splits_into_three_panels() {
    let layout = screen_layout(Rect::new(0, 0, 120, 40));
    assert_eq!(layout.left, Rect::new(0, 0, LEFT_COLUMN_WIDTH, 40));
    assert_eq!(layout.right, Rect::new(LEFT_COLUMN_WIDTH, 0, 84, 40));
    assert_eq!(layout.minimap, Rect::new(0, 0, 36, 13));
    assert_eq!(layout.stats, Rect::new(0, 13, 36, 8));
    assert_eq!(layout.focus, Rect::new(0, 21, 36, 19));
}

#[test]
fn the_event_log_sits_in_the_top_right_corner() {
    let pane = Rect::new(36, 0, 84, 40);
    assert_eq!(event_log_box(pane, 0), Some(Rect::new(76, 0, 44, 3)));
    assert_eq!(event_log_box(pane, 2), Some(Rect::new(76, 0, 44, 4)));
    assert_eq!(event_log_box(pane, 9), Some(Rect::new(76, 0, 44, 7)));
    assert_eq!(event_log_box(Rect::new(0, 0, 3, 40), 1), None);
    assert_eq!(event_log_box(Rect::new(0, 0, 80, 4), 5), None);
    assert_eq!(event_log_lines(&Vec::new(), 42), vec!["(no events yet)".to_string()]);
    assert_eq!(event_log_lines(&Vec::new(), 5), vec!["(no e".to_string()]);
    let events: Vec<String> = (1..=7).map(|i| format!("event {i}")).collect();
    assert_eq!(event_log_lines(&events, 42), vec!["event 3", "event 4", "event 5", "event 6", "event 7"]);
}

fn grassland() -> TileSummary {
    TileSummary {
        terrain: "Grassland".to_string(),
        food: 2,
        shields: 0,
        trade: 0,
        irrigated: true,
        mined: false,
        road: true,
    }
}

#[test]
fn the_focus_panel_describes_the_unit_and_the_hovered_tile() {
    let focus = Some(FocusTile { unit: Some(FocusUnit { class: UnitClass::Settler, moves: 1, work: None }), tile: grassland() });
    let hover = Some(HoverTile {
        x: 4,
        y: 7,
        explored: true,
        tile: TileSummary { irrigated: false, road: false, ..grassland() },
        movement_cost: 1,
        resource: Some(SpecialResource::Horses),
        city: Some(("London".to_string(), 3)),
        units: vec![(UnitClass::Militia, Civilization::English), (UnitClass::Phalanx, Civilization::Zulu)],
    });
    let lines = focus_lines(Civilization::English, &focus, &hover);
    let shown: Vec<(u16, &str, Tone)> = lines.iter().map(|l| (l.row, l.text.as_str(), l.tone)).collect();
    assert_eq!(
        shown,
        vec![
            (0, "In turn: English", Tone::Accent),
            (2, "Unit: Settler mv 1", Tone::Gold),
            (3, "Terrain: Grassland", Tone::Dim),
            (4, "Food 2  Prod 0  Trade 0", Tone::Dim),
            (5, "≈ irrigation, + road", Tone::Dim),
            (7, "Hovering: Grassland (4, 7)", Tone::Accent),
            (8, "Move 1   Food 2  Prod 0  Trade 0", Tone::Dim),
            (9, "Resource: Horses", Tone::Dim),
            (10, "City: London (pop 3)", Tone::Dim),
            (11, "Militia (English), Phalanx (Zulu)", Tone::Gold),
        ]
    );
    let none = focus_lines(Civilization::Zulu, &None, &None);
    let shown: Vec<(u16, &str)> = none.iter().map(|l| (l.row, l.text.as_str())).collect();
    assert_eq!(shown, vec![(0, "In turn: Zulu"), (1, "(move a unit to inspect it)")]);
}

#[test]
fn city_window_is_centred_and_its_close_button_sits_top_right() {
    let window = window_rect(Rect::new(0, 0, 80, 40));
    assert_eq!(window, Rect::new(8, 5, 64, 30));
    assert_eq!(close_button_rect(window), Rect::new(64, 6, 7, 1));
}

#[test]
fn city_window_panels_fit_the_window() {
    let window = window_rect(Rect::new(0, 0, 80, 40));
    let layout = city_layout(window).unwrap();
    assert_eq!(layout.population, Rect::new(9, 6, 62, 2));
    assert_eq!(layout.middle, Rect::new(9, 9, 62, 12));
    assert_eq!(layout.grouped.width, 41);
    assert_eq!(layout.minimap, Rect::new(38, 11, 12, 7));
    assert_eq!(layout.bottom, Rect::new(9, 22, 62, 12));
    assert_eq!((layout.food.width, layout.units.x, layout.production.x), (20, 30, 51));
    assert!(city_layout(Rect::new(0, 0, 12, 12)).is_none());
}

#[test]
fn population_header_counts_ten_thousands() {
    assert_eq!(population_header("London", 3), "London (Pop: 30,000)");
}

#[test]
fn turns_round_up_and_never_come_without_income() {
    assert_eq!(turns_to(0, 0), Some(0));
    assert_eq!(turns_to(10, 0), None);
    assert_eq!(turns_to(10, 3), Some(4));
    assert_eq!(turns_to(9, 3), Some(3));
}

#[test]
fn the_food_panel_shows_the_surplus_with_its_sign() {
    assert_eq!(
        food_lines(4, 2, 5, 20),
        vec!["🌾 Stored   4", "🌾 Eaten    2", "🌾 Surplus  +3", "🌾 Turns    6"]
    );
    assert_eq!(food_lines(4, 6, 5, 20), vec!["🌾 Stored   4", "🌾 Eaten    6", "🌾 Surplus  -1"]);
}

#[test]
fn the_production_panel_shows_progress_toward_the_target() {
    assert_eq!(
        production_lines(ProductionTarget::Unit(UnitClass::Militia), 9, 3),
        vec!["🪖 Stored   9", "🪖 Cost     10", "🪖 Income   3", "🪖 Turns    1"]
    );
    assert_eq!(production_lines(ProductionTarget::Unit(UnitClass::Militia), 0, 0).len(), 3);
}

#[test]
fn the_resources_panel_lists_the_big_five_then_specials() {
    let income = CityIncome {
        food: 7,
        resources: 3,
        trade: 1,
        gold: 2,
        research: 4,
        special_resources: vec![SpecialResource::Gold],
    };
    let lines = resource_lines(&income);
    let texts: Vec<(char, &str)> = lines.iter().map(|(c, t)| (*c, t.as_str())).collect();
    assert_eq!(
        texts,
        vec![
            ('🌾', " Food      7"),
            ('🪖', " Shields   3"),
            ('🛒', " Trade     1"),
            ('💡', " Research  4"),
            ('🪎', " Gold      2"),
            ('🪙', " Gold"),
        ]
    );
    assert_eq!(resource_icon(SpecialResource::Oil), '⛽');
}

#[test]
fn improvements_are_listed_alphabetically() {
    let names = improvement_names(&vec![CityImprovement::Marketplace, CityImprovement::Barracks]);
    assert_eq!(names, vec!["Barracks", "Marketplace"]);
}

#[test]
fn the_scrollbar_thumb_stays_on_its_track() {
    assert_eq!(scrollbar_thumb(10, 10, 0), None);
    assert_eq!(scrollbar_thumb(10, 20, 0), Some((0, 5)));
    assert_eq!(scrollbar_thumb(10, 20, 10), Some((5, 5)));
    assert_eq!(scrollbar_thumb(4, 100, 96), Some((3, 1)));
}

/// The facts of an explored plains tile with nothing on it.
fn plains() -> TileFacts {
    TileFacts {
        on_map: true,
        explored: true,
        terrain: '.',
        unit: None,
        city: None,
        irrigated: false,
        mined: false,
        road: false,
        hovered: false,
        flashing: false,
        selected_idle_here: false,
    }
}

/// The map pane of a 120 by 40 screen over an 80-wide plains map with the
/// camera at the origin, a battle on tile (2, 2) begun at `start` and seen
/// at `now`, and a city on `city` if one is given: the pane's tiles, labels
/// and explosion tile.
fn battle_pane(
    now: u64,
    start: u64,
    city: Option<((usize, usize), &str)>,
) -> (Vec<Vec<(char, char)>>, Vec<MapLabel>, Option<(usize, usize)>) {
    let cols = (120 - LEFT_COLUMN_WIDTH as usize) / 2;
    let animation = Some(BattleAnimation::new(Location::new(2, 2), start));
    let mut tiles = Vec::new();
    let mut labels = Vec::new();
    let mut explosion = None;
    for row in 0..40usize {
        let mut line = Vec::new();
        for col in 0..cols {
            let mut facts = plains();
            if let Some(((cx, cy), name)) = city {
                if (col, row) == (cx, cy) {
                    facts.city = Some(CityOnTile { name: name.to_string(), population: 1, selected: false });
                }
            }
            let face = tile_face(&facts);
            line.push((face.symbol, face.spare));
            if let Some(name) = face.label {
                let start = city_label_start((col * 2) as u16, name.len());
                labels.push(MapLabel { start, row: row + 1, text: name.chars().collect() });
            }
            if flash_here(animation, now, (col, row), 80) {
                explosion = Some((col, row));
            }
        }
        tiles.push(line);
    }
    (tiles, labels, explosion)
}

#[test]
fn the_flash_shows_the_explosion_in_the_defended_tiles_left_column() {
    let (tiles, labels, explosion) = battle_pane(200, 0, None);
    let (left, row) = (4, 2);
    assert_eq!(map_cell(&tiles, &labels, explosion, None, left, row), '💥', "the explosion shows in the left column");
    assert_eq!(
        map_cell(&tiles, &labels, explosion, None, left + 1, row),
        ' ',
        "the right column is cleared while the explosion is showing"
    );
    assert_eq!(map_cell(&tiles, &labels, explosion, None, left + 2, row), '.', "the neighbouring tile is untouched");
    assert_eq!(map_cell(&tiles, &labels, explosion, None, left, row + 1), '.', "the tile below is untouched");
}

#[test]
fn the_flash_stays_on_the_defended_tile_in_the_second_half_second() {
    let (tiles, labels, explosion) = battle_pane(600, 0, None);
    let (left, row) = (4, 2);
    assert_eq!(
        map_cell(&tiles, &labels, explosion, None, left, row),
        '💥',
        "the explosion stays anchored on the defended tile"
    );
    assert_eq!(
        map_cell(&tiles, &labels, explosion, None, left + 1, row),
        ' ',
        "the right column is clear, so the wide glyph cannot spill east"
    );
    assert_eq!(map_cell(&tiles, &labels, explosion, None, left + 2, row), '.', "the tile to the east is untouched");
}

#[test]
fn the_flash_is_painted_on_top_of_city_labels() {
    let (tiles, labels, explosion) = battle_pane(200, 0, Some(((1, 1), "London")));
    let (left, row) = (4, 2);
    assert_eq!(map_cell(&tiles, &labels, explosion, None, left, row), '💥');
    assert_eq!(map_cell(&tiles, &labels, explosion, None, left + 1, row), ' ');
    assert_eq!(map_cell(&tiles, &labels, explosion, None, 0, row), 'L');
    assert_eq!(map_cell(&tiles, &labels, None, None, left, row), 'o');
}

#[test]
fn the_flash_disappears_and_the_tile_returns_to_normal() {
    let (tiles, labels, explosion) = battle_pane(1000, 0, None);
    let (left, row) = (4, 2);
    assert_eq!(
        map_cell(&tiles, &labels, explosion, None, left, row),
        '.',
        "once the flash ends the tile shows its plain terrain again"
    );
    assert_eq!(
        map_cell(&tiles, &labels, explosion, None, left + 1, row),
        ' ',
        "the spare column is blank again once the flash ends"
    );
}

#[test]
fn the_rival_replay_letter_sits_above_the_explosion() {
    let (tiles, labels, explosion) = battle_pane(200, 0, None);
    assert_eq!(map_cell(&tiles, &labels, explosion, Some((2, 2, 'M')), 4, 2), 'M');
    assert_eq!(map_cell(&tiles, &labels, explosion, Some((2, 2, 'M')), 5, 2), ' ');
}

#[test]
fn units_come_back_as_the_replay_plays_out() {
    let frame = |id: u32, x: u16| RivalMoveFrame {
        unit_id: UnitId::new(id),
        from: Location::new(x, 0),
        to: Location::new(x + 1, 0),
    };
    let replay = RivalMoveAnimation::new(1000, vec![frame(1, 0), frame(2, 3), frame(3, 6)]);
    assert_eq!(replay.hidden_units(1000), vec![UnitId::new(1), UnitId::new(2), UnitId::new(3)]);
    assert_eq!(replay.hidden_units(1599), vec![UnitId::new(1), UnitId::new(2), UnitId::new(3)]);
    assert_eq!(replay.hidden_units(1600), vec![UnitId::new(2), UnitId::new(3)]);
    assert_eq!(replay.hidden_units(2799), vec![UnitId::new(3)]);
    assert!(!replay.is_complete(2799));
    assert!(replay.is_complete(2800));
    assert_eq!(replay.hidden_units(2800), vec![]);
}

#[test]
fn year_4000_bc_is_formatted() {
    assert_eq!(format_year(-4000), "4000 BC");
    assert_eq!(format_year(50), "50 AD");
    // Year 0 is covered by `years_are_formatted_with_a_bc_and_ad_boundary`:
    // there is no year 0, so it reads as 1 AD.
}
