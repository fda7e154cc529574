use civterm::city_window::close_button_rect;
use civterm::commands::{
    city_name_for, click_action, contact_opponent, discovered_advancement, first_contact, focus_coordinate,
    mouse_route, move_report, next_city_name, next_unit, play_action, playing_commands, press_action,
    record_events, selected_can_found, step_destination, ClickAction, MouseRoute, MouseState, PlayAction,
    PlayState, PressAction, EVENT_LOG_SIZE, apply_view_action, apply_click, apply_press, start_view, PlayView, screen_layers, ScreenLayer, ScreenState,
};
use civterm::game_screen::{LEFT_COLUMN_WIDTH, TILE_WIDTH};
use civterm::map_view::{camera_for, Gesture};
use civterm::model::CityId;
use civterm::geometry::Rect;
use civterm::model::{Advancement, Civilization, Direction, Location, UnitClass, UnitId};
use civterm::pointer::{Pointer, PointerKind};
use civterm::quit_dialog::QuitChoice;
use civterm::production_picker::{picker_mouse_action, picker_rect, PickerMouseAction};
use civterm::setup::Key;

#[test]
fn app_names_fall_back_to_a_number_once_the_city_list_runs_out() {
    assert_eq!(next_city_name(Civilization::English, 20), "City 21");
    assert_eq!(next_city_name(Civilization::English, 42), "City 43");
}

#[test]
fn tests_names_fall_back_to_a_number_once_the_city_list_runs_out() {
    assert_eq!(next_city_name(Civilization::English, 20), "City 21");
    assert_eq!(next_city_name(Civilization::English, 42), "City 43");
}

#[test]
fn city_names_follow_the_civilizations_list() {
    assert_eq!(next_city_name(Civilization::English, 0), "London");
    assert_eq!(next_city_name(Civilization::English, 1), "York");
    assert_eq!(next_city_name(Civilization::English, 2), "Manchester");
    assert_eq!(next_city_name(Civilization::American, 1), "Boston");
    assert_eq!(next_city_name(Civilization::Zulu, 3), "Isandhlwana");
    assert_eq!(city_name_for(Some(Civilization::American), 0), "Washington");
    assert_eq!(city_name_for(None, 3), "City");
}

#[test]
fn app_play_commands_include_unit_actions_when_a_unit_is_focused() {
    let commands = playing_commands(true, false);
    assert!(commands.iter().any(|(k, _)| *k == "f"));
    assert!(commands.iter().any(|(k, _)| *k == "arrows"));
    assert!(commands.iter().any(|(k, _)| *k == "?"));
    assert!(commands.iter().any(|(k, _)| *k == "tab"));
}

#[test]
fn tests_play_commands_include_unit_actions_when_a_unit_is_focused() {
    let commands = playing_commands(true, false);
    assert!(commands.iter().any(|(k, _)| *k == "f"));
    assert!(commands.iter().any(|(k, _)| *k == "u/k/h/m"));
    assert!(commands.iter().any(|(k, _)| *k == "y/i/n/,"));
    assert!(commands.iter().any(|(k, _)| *k == "?"));
    assert!(commands.iter().any(|(k, _)| *k == "tab"));
}

fn found_city_check() {
    let commands = playing_commands(true, true);
    assert!(commands.iter().any(|(k, _)| *k == "v"));
    let commands = playing_commands(true, false);
    assert!(!commands.iter().any(|(k, _)| *k == "v"));
}

#[test]
fn app_found_city_only_shows_for_a_selected_settler() {
    found_city_check();
}

#[test]
fn tests_found_city_only_shows_for_a_selected_settler() {
    found_city_check();
}

fn navigation_check() {
    let commands = playing_commands(false, false);
    assert!(commands.iter().any(|(k, _)| *k == "tab"));
    assert!(!commands.iter().any(|(k, _)| *k == "f"));
}

#[test]
fn app_play_commands_offer_navigation_when_nothing_is_focused() {
    navigation_check();
}

#[test]
fn tests_play_commands_offer_navigation_when_nothing_is_focused() {
    navigation_check();
}

#[test]
fn only_a_settler_can_found() {
    assert!(selected_can_found(Some(UnitClass::Settler)));
    assert!(!selected_can_found(Some(UnitClass::Militia)));
    assert!(!selected_can_found(None));
}

#[test]
fn the_focus_follows_the_selected_unit() {
    let units = vec![(UnitId::new(3), Location::new(4, 5)), (UnitId::new(9), Location::new(7, 1))];
    assert_eq!(focus_coordinate(Some(UnitId::new(9)), &units), Some((7, 1)));
    assert_eq!(focus_coordinate(Some(UnitId::new(2)), &units), None);
    assert_eq!(focus_coordinate(None, &units), None);
}

#[test]
fn tab_cycles_through_the_players_units() {
    let units = vec![UnitId::new(3), UnitId::new(9), UnitId::new(12)];
    assert_eq!(next_unit(&units, None), Some(UnitId::new(3)));
    assert_eq!(next_unit(&units, Some(UnitId::new(3))), Some(UnitId::new(9)));
    assert_eq!(next_unit(&units, Some(UnitId::new(12))), Some(UnitId::new(3)));
    assert_eq!(next_unit(&units, Some(UnitId::new(99))), Some(UnitId::new(9)));
    assert_eq!(next_unit(&Vec::new(), Some(UnitId::new(3))), None);
}

#[test]
fn a_step_wraps_east_to_west_but_not_over_the_poles() {
    assert_eq!(step_destination(Location::new(0, 5), Direction::W, (80, 50)), Some(Location::new(79, 5)));
    assert_eq!(step_destination(Location::new(79, 5), Direction::NE, (80, 50)), Some(Location::new(0, 4)));
    assert_eq!(step_destination(Location::new(3, 0), Direction::N, (80, 50)), None);
    assert_eq!(step_destination(Location::new(3, 49), Direction::SE, (80, 50)), None);
}

#[test]
fn the_event_log_keeps_the_latest_five() {
    let mut log: Vec<String> = Vec::new();
    record_events(&mut log, vec!["a".to_string(), "b".to_string()]);
    assert_eq!(log, vec!["a", "b"]);
    record_events(&mut log, (1..=6).map(|i| i.to_string()).collect());
    assert_eq!(log.len(), EVENT_LOG_SIZE);
    assert_eq!(log, vec!["2", "3", "4", "5", "6"]);
    record_events(&mut log, Vec::new());
    assert_eq!(log, vec!["2", "3", "4", "5", "6"]);
}

#[test]
fn first_contact_names_the_rival() {
    assert_eq!(
        contact_opponent("English and Zulu meet for the first time", Civilization::English),
        Some(Civilization::Zulu)
    );
    assert_eq!(
        contact_opponent("Zulu and English meet for the first time", Civilization::English),
        Some(Civilization::Zulu)
    );
    assert_eq!(contact_opponent("Zulu attacks English", Civilization::English), None);
    let messages = vec!["London grows".to_string(), "Aztec and English meet for the first time".to_string()];
    assert_eq!(first_contact(&messages, Civilization::English), Some(Civilization::Aztec));
}

#[test]
fn move_reports_read_battles_and_peaceful_borders() {
    let report = move_report(&vec!["Militia attacks Phalanx".to_string()]);
    assert!(report.battle && !report.blocked_by_peace);
    let report =
        move_report(&vec!["Settler cannot move onto a tile occupied by a civilization at peace".to_string()]);
    assert!(!report.battle && report.blocked_by_peace);
}

#[test]
fn a_discovery_opens_research_once_play_wraps_round() {
    let known = vec![Advancement::Alphabet, Advancement::Pottery];
    assert_eq!(discovered_advancement(1, &known, true), Some(Advancement::Pottery));
    assert_eq!(discovered_advancement(1, &known, false), None);
    assert_eq!(discovered_advancement(2, &known, true), None);
}

fn playing() -> PlayState {
    PlayState {
        research_open: false,
        diplomacy_open: false,
        work_picker_open: false,
        production_picker_open: false,
        city_selected: false,
        help_shown: false,
    }
}

#[test]
fn play_keys_move_end_turns_and_leave() {
    assert_eq!(play_action(playing(), Key::Char('u')), PlayAction::Move(Direction::N));
    assert_eq!(play_action(playing(), Key::Char('k')), PlayAction::Move(Direction::E));
    assert_eq!(play_action(playing(), Key::Char('m')), PlayAction::Move(Direction::S));
    assert_eq!(play_action(playing(), Key::Char('h')), PlayAction::Move(Direction::W));
    assert_eq!(play_action(playing(), Key::Char(',')), PlayAction::Move(Direction::SE));
    assert_eq!(play_action(playing(), Key::Left), PlayAction::Move(Direction::W));
    assert_eq!(play_action(playing(), Key::Char(' ')), PlayAction::EndTurn);
    assert_eq!(play_action(playing(), Key::Char('Q')), PlayAction::OpenQuitDialog(QuitChoice::Continue));
    assert_eq!(play_action(playing(), Key::Esc), PlayAction::Menu);
    let city = PlayState { city_selected: true, ..playing() };
    assert_eq!(play_action(city, Key::Esc), PlayAction::CloseCity);
    let picker = PlayState { production_picker_open: true, ..city };
    assert_eq!(play_action(picker, Key::Char('k')), PlayAction::MovePickerCursor(0, -1));
    assert_eq!(play_action(picker, Key::Char(' ')), PlayAction::Nothing);
    let research = PlayState { research_open: true, ..playing() };
    assert_eq!(play_action(research, Key::Char('q')), PlayAction::ResearchKey);
}

/// The city window the mouse tests float over the map.
fn window() -> Rect {
    Rect::new(20, 5, 60, 30)
}

fn pane() -> Option<Rect> {
    Some(Rect::new(LEFT_COLUMN_WIDTH, 0, 200, 40))
}

fn left_press(column: u16, row: u16) -> Pointer {
    Pointer::new(PointerKind::LeftDown, column, row)
}

#[test]
fn tests_clicks_inside_the_window_are_consumed() {
    let win = window();
    let action = press_action(Some((win.x + 2, win.y + 2)), Some((win, close_button_rect(win))), None, pane());
    assert_eq!(action, PressAction::Consumed, "in-window click must not reach the map");
}

#[test]
fn tests_clicks_outside_the_window_reach_the_map() {
    let win = window();
    let row = 12;
    assert!(!win.contains(civterm::geometry::Position::new(4, row)));
    let action = press_action(Some((4, row)), Some((win, close_button_rect(win))), None, pane());
    assert_eq!(action, PressAction::ClearCity);
}

#[test]
fn tests_clicks_outside_the_picker_are_swallowed_while_it_is_open() {
    let panel = picker_rect(window());
    let state = MouseState {
        diplomacy_open: false,
        research_open: false,
        work_picker_open: false,
        picker_open: true,
        city_window_open: true,
    };
    let press = left_press(panel.x + 1, panel.y + 1);
    assert_eq!(mouse_route(state, press, Some(close_button_rect(window()))), MouseRoute::Picker);
    assert_eq!(
        picker_mouse_action(panel, press, 0, 3, 2, 14),
        PickerMouseAction::Ignore,
        "outside clicks must not reach the map"
    );
}

#[test]
fn clicking_close_while_the_picker_is_open_closes_the_window() {
    let win = window();
    let panel = picker_rect(win);
    let close = close_button_rect(win);
    assert!(
        !panel.contains(civterm::geometry::Position::new(close.x, close.y)),
        "the picker must not cover the close button"
    );
    let state = MouseState {
        diplomacy_open: false,
        research_open: false,
        work_picker_open: false,
        picker_open: true,
        city_window_open: true,
    };
    assert_eq!(
        mouse_route(state, left_press(close.x + 3, close.y), Some(close)),
        MouseRoute::CloseCity,
        "close must dismiss the city window while the picker is open"
    );
}

#[test]
fn a_click_next_to_the_unit_moves_it_and_elsewhere_picks_a_city() {
    let column = LEFT_COLUMN_WIDTH + 2 * 6;
    assert_eq!(click_action(column, 5, (0, 0), (80, 50), Some((5, 5))), ClickAction::Move(Direction::E));
    assert_eq!(click_action(column, 9, (0, 0), (80, 50), Some((5, 5))), ClickAction::SelectAt(6, 9));
    assert_eq!(click_action(column, 9, (0, 45), (80, 50), None), ClickAction::Clear);
}

#[test]
fn the_wheel_scrolls_the_city_window_and_presses_start_gestures() {
    let state = MouseState {
        diplomacy_open: false,
        research_open: false,
        work_picker_open: false,
        picker_open: false,
        city_window_open: true,
    };
    let wheel = Pointer::new(PointerKind::ScrollDown, 0, 0);
    assert_eq!(mouse_route(state, wheel, None), MouseRoute::ScrollCityDown);
    let closed = MouseState { city_window_open: false, ..state };
    assert_eq!(mouse_route(closed, wheel, None), MouseRoute::Nothing);
    assert_eq!(mouse_route(closed, left_press(50, 5), None), MouseRoute::Press);
    assert_eq!(press_action(Some((50, 5)), None, None, pane()), PressAction::StartGesture);
    assert_eq!(press_action(None, None, None, pane()), PressAction::Nothing);
}

#[test]
fn tests_city_names_are_allocated_in_order_of_founding() {
    assert_eq!(next_city_name(Civilization::English, 0), "London");
    assert_eq!(next_city_name(Civilization::English, 1), "York");
    assert_eq!(next_city_name(Civilization::English, 2), "Manchester");
    assert_eq!(next_city_name(Civilization::American, 1), "Boston");
    assert_eq!(next_city_name(Civilization::Zulu, 3), "Isandhlwana");
}

#[test]
fn app_city_names_are_allocated_in_order_of_founding() {
    assert_eq!(next_city_name(Civilization::English, 0), "London");
    assert_eq!(next_city_name(Civilization::English, 1), "York");
    assert_eq!(next_city_name(Civilization::English, 2), "Manchester");
    assert_eq!(next_city_name(Civilization::American, 1), "Boston");
    assert_eq!(next_city_name(Civilization::Zulu, 3), "Isandhlwana");
}

#[test]
fn q_from_the_game_keeps_the_game_and_asks_what_to_do() {
    let action = play_action(playing(), Key::Char('q'));
    assert_eq!(action, PlayAction::OpenQuitDialog(QuitChoice::Continue));
    assert_ne!(action, PlayAction::Menu);
}

#[test]
fn q_in_play_opens_the_quit_dialog_instead_of_leaving_the_game() {
    let action = play_action(playing(), Key::Char('q'));
    assert_eq!(action, PlayAction::OpenQuitDialog(QuitChoice::Continue));
    assert_ne!(action, PlayAction::Menu);
    let city = PlayState { city_selected: true, ..playing() };
    assert_eq!(play_action(city, Key::Char('Q')), PlayAction::OpenQuitDialog(QuitChoice::Continue));
}

#[test]
fn dialogs_are_drawn_over_the_city_window_and_the_map() {
    let everything = ScreenState {
        help_shown: true,
        own_city_selected: true,
        production_picker_open: true,
        research_open: true,
        diplomacy_open: true,
        work_picker_open: true,
        unit_selected: true,
    };
    assert_eq!(
        screen_layers(everything),
        vec![
            ScreenLayer::Board,
            ScreenLayer::HelpBar,
            ScreenLayer::CityWindow,
            ScreenLayer::ProductionPicker,
            ScreenLayer::Research,
            ScreenLayer::Diplomacy,
            ScreenLayer::WorkPicker,
        ]
    );
    let no_city = ScreenState { own_city_selected: false, unit_selected: false, help_shown: false, ..everything };
    assert_eq!(screen_layers(no_city), vec![ScreenLayer::Board, ScreenLayer::Research, ScreenLayer::Diplomacy]);
}

/// What play shows with the camera parked at (70, 40) and not following.
fn parked_view() -> PlayView {
    PlayView {
        camera: (70, 40),
        camera_follow: false,
        show_help: false,
        show_events: false,
        selected_city: None,
        city_window_scroll: 0,
        quit_dialog: None,
        playing: true,
    }
}

#[test]
fn j_centres_the_camera_on_the_selected_unit() {
    let action = play_action(playing(), Key::Char('j'));
    assert_eq!(action, PlayAction::FollowUnit);
    let settler = (5usize, 25usize);
    let pane = Rect::new(LEFT_COLUMN_WIDTH, 0, 200, 40);
    let view = apply_view_action(parked_view(), action, Some(settler), (80, 50), Some(pane));
    let expected = camera_for(Some(settler), (80, 50), (200 / TILE_WIDTH, 40), (70, 40));
    assert_eq!(view.camera, expected, "j re-centres the camera on the selected unit");
    assert!(view.camera_follow, "j resumes following the unit");
}

#[test]
fn the_home_row_keys_move_the_selected_unit_orthogonally() {
    for (key, direction) in [
        (Key::Char('u'), Direction::N),
        (Key::Char('k'), Direction::E),
        (Key::Char('m'), Direction::S),
        (Key::Char('h'), Direction::W),
    ] {
        assert_eq!(play_action(playing(), key), PlayAction::Move(direction));
    }
}

#[test]
fn following_twice_is_following_once() {
    let pane = Some(Rect::new(LEFT_COLUMN_WIDTH, 0, 200, 40));
    let once = apply_view_action(parked_view(), PlayAction::FollowUnit, Some((5, 25)), (80, 50), pane);
    let twice = apply_view_action(once, PlayAction::FollowUnit, Some((5, 25)), (80, 50), pane);
    assert_eq!(once, twice);
    let unseen = apply_view_action(parked_view(), PlayAction::FollowUnit, Some((5, 25)), (80, 50), None);
    assert_eq!(unseen.camera, (70, 40));
    assert!(unseen.camera_follow);
}

#[test]
fn esc_closes_the_city_window_and_resets_its_scroll() {
    let view = PlayView { selected_city: Some(CityId::new(1)), city_window_scroll: 4, show_help: true, ..parked_view() };
    let state = PlayState { city_selected: true, help_shown: true, ..playing() };
    let action = play_action(state, Key::Esc);
    assert_eq!(action, PlayAction::CloseCity);
    let closed = apply_view_action(view, action, None, (80, 50), None);
    assert_eq!(closed.selected_city, None);
    assert_eq!(closed.city_window_scroll, 0);
    assert!(closed.show_help);
    let action = play_action(PlayState { city_selected: false, ..state }, Key::Esc);
    assert_eq!(action, PlayAction::HideHelp);
    let hidden = apply_view_action(closed, action, None, (80, 50), None);
    assert!(!hidden.show_help);
    let action = play_action(PlayState { city_selected: false, help_shown: false, ..state }, Key::Esc);
    assert!(!apply_view_action(hidden, action, None, (80, 50), None).playing);
    let asked = apply_view_action(hidden, play_action(playing(), Key::Char('q')), None, (80, 50), None);
    assert_eq!(asked.quit_dialog, Some(QuitChoice::Continue));
    assert!(asked.playing);
}

/// The player's city on its tile, as the game lists the player's cities.
const CITY: (usize, usize) = (10, 12);

fn own_cities() -> Vec<((usize, usize), CityId)> {
    vec![(CITY, CityId::new(0))]
}

/// A left click at `(column, row)` during play with the camera at the map's
/// corner and the settler on the city's tile: the press, the release and
/// what the click does to the view.
fn left_click(view: PlayView, column: u16, row: u16) -> PlayView {
    let press = press_action(Some((column, row)), None, None, pane());
    let view = apply_press(view, press);
    if press != PressAction::StartGesture {
        return view;
    }
    let mut gesture = Gesture::new();
    assert!(gesture.press((column, row), pane()));
    match gesture.release() {
        Some((column, row)) => {
            let click = click_action(column, row, (0, 0), (80, 50), Some(CITY));
            apply_click(view, click, &own_cities())
        }
        None => view,
    }
}

/// The view of a game just begun.
fn new_game() -> PlayView {
    start_view(PlayView { playing: false, selected_city: Some(CityId::new(3)), ..parked_view() })
}

#[test]
fn tests_left_clicking_a_player_city_selects_it() {
    let view = left_click(new_game(), (LEFT_COLUMN_WIDTH as usize + CITY.0 * 2) as u16, CITY.1 as u16);
    assert_eq!(view.selected_city, Some(CityId::new(0)));
}

#[test]
fn tests_clicking_an_empty_tile_clears_the_selection() {
    let view = left_click(new_game(), (LEFT_COLUMN_WIDTH as usize + CITY.0 * 2) as u16, CITY.1 as u16);
    assert!(view.selected_city.is_some());
    let (ex, ey) = (0usize, 0usize);
    let view = left_click(view, (LEFT_COLUMN_WIDTH as usize + ex * 2) as u16, ey as u16);
    assert_eq!(view.selected_city, None);
}

#[test]
fn tests_clicking_the_left_column_clears_the_selection() {
    let view = left_click(new_game(), (LEFT_COLUMN_WIDTH as usize + CITY.0 * 2) as u16, CITY.1 as u16);
    assert!(view.selected_city.is_some());
    let view = left_click(view, 4, CITY.1 as u16);
    assert_eq!(view.selected_city, None);
}

#[test]
fn tests_a_new_game_starts_with_no_city_selected() {
    let view = new_game();
    assert_eq!(view.selected_city, None);
    assert_eq!(view.camera, (0, 0));
    assert!(view.camera_follow && view.playing);
}
