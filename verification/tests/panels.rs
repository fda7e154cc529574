use civterm::city_window::{city_window_plan, CityWindowPlan};
use civterm::diplomacy_dialog::{diplomacy_message, diplomacy_mouse_choice, DiplomacyChoice, DiplomacyOrigin};
use civterm::geometry::Rect;
use civterm::model::{Advancement, CityImprovement, Civilization, Competition, Difficulty, ProductionTarget, UnitClass};
use civterm::pointer::{Pointer, PointerKind};
use civterm::production_picker::{
    cancel_button_rect, column_rects, list_len, pick_rows, picker_rect, row_text, rows_rect, save_button_rect,
    target_at,
};
use civterm::quit_dialog::{quit_mouse_choice, quit_outcome, QuitChoice, QuitOutcome};
use civterm::research_dialog::{choice_line, discovery_line, research_mouse_action, ResearchMouseAction};
use civterm::save_load_prompt::{
    fit_input, loaded_message, saved_message, PromptKey, PromptOutcome, SaveLoadKind, SaveLoadPrompt,
};
use civterm::selectors::{
    civ_chosen_note, competition_chosen_note, competition_tagline, difficulty_chosen_note, difficulty_tagline,
    help_rows, help_widths, rivals_text, selector_frame, selector_rows, star_at, SelectorRow,
};
use civterm::setup::Key;

fn english_choices() -> Vec<ProductionTarget> {
    vec![
        ProductionTarget::Unit(UnitClass::Settler),
        ProductionTarget::Unit(UnitClass::Militia),
        ProductionTarget::Unit(UnitClass::Phalanx),
        ProductionTarget::Improvement(CityImprovement::Marketplace),
        ProductionTarget::Improvement(CityImprovement::Barracks),
    ]
}

#[test]
fn units_sorted_by_cost_then_name() {
    let (units, _) = pick_rows(&english_choices());
    let names: Vec<&str> = units.iter().map(|row| row.label.as_str()).collect();
    assert_eq!(names, vec!["Militia", "Phalanx", "Settler"]);
}

#[test]
fn improvements_sorted_by_cost_then_name() {
    let (_, improvements) = pick_rows(&english_choices());
    let names: Vec<&str> = improvements.iter().map(|row| row.label.as_str()).collect();
    assert_eq!(names, vec!["Barracks", "Marketplace"]);
}

#[test]
fn cost_order_ties_break_alphabetically() {
    let (units, _) = pick_rows(&english_choices());
    let costs: Vec<u32> = units.iter().map(|r| r.target.resource_cost()).collect();
    assert_eq!(costs, vec![10, 15, 60]);
}

#[test]
fn target_at_resolves_cursor_rows_in_both_lists() {
    let rows = pick_rows(&english_choices());
    assert_eq!(target_at(&rows, 0, 1), Some(ProductionTarget::Unit(UnitClass::Phalanx)));
    assert_eq!(target_at(&rows, 1, 0), Some(ProductionTarget::Improvement(CityImprovement::Barracks)));
    assert_eq!(target_at(&rows, 0, 20), None);
    assert_eq!(target_at(&rows, 1, 20), None);
    assert_eq!(list_len(&rows), 3);
}

#[test]
fn picker_rows_read_name_and_cost() {
    let (units, _) = pick_rows(&english_choices());
    assert_eq!(row_text(&units[0]), "Militia (10)");
}

#[test]
fn the_order_of_the_offer_does_not_change_the_lists() {
    let mut reversed = english_choices();
    reversed.reverse();
    let a = pick_rows(&english_choices());
    let b = pick_rows(&reversed);
    let targets = |rows: &Vec<civterm::production_picker::PickRow>| rows.iter().map(|r| r.target).collect::<Vec<_>>();
    assert_eq!(targets(&a.0), targets(&b.0));
    assert_eq!(targets(&a.1), targets(&b.1));
}

fn picker_panel() -> Rect {
    picker_rect(Rect::new(8, 5, 64, 30))
}

#[test]
fn cancel_and_save_sit_on_the_buttons_row() {
    let panel = picker_panel();
    let y = panel.y + panel.height - 2;
    assert_eq!(cancel_button_rect(panel).y, y);
    assert_eq!(save_button_rect(panel).y, y);
    assert!(save_button_rect(panel).x > cancel_button_rect(panel).right());
    let (units, improvements) = column_rects(panel);
    assert_eq!(units.y, rows_rect(panel).y);
    assert!(units.right() < improvements.x);
}

#[test]
fn picker_clicks_choose_rows_and_buttons() {
    let panel = picker_panel();
    let (units, improvements) = column_rects(panel);
    let press = |x: u16, y: u16| Pointer::new(PointerKind::LeftDown, x, y);
    assert_eq!(
        civterm::production_picker::picker_mouse_action(panel, press(units.x + 1, units.y + 2), 0, 3, 2, 14),
        civterm::production_picker::PickerMouseAction::Select(0, 2)
    );
    assert_eq!(
        civterm::production_picker::picker_mouse_action(panel, press(improvements.x + 1, improvements.y + 2), 0, 3, 2, 14),
        civterm::production_picker::PickerMouseAction::Ignore
    );
    let cancel = cancel_button_rect(panel);
    assert_eq!(
        civterm::production_picker::picker_mouse_action(panel, press(cancel.x, cancel.y), 0, 3, 2, 14),
        civterm::production_picker::PickerMouseAction::Close
    );
    let wheel = Pointer::new(PointerKind::ScrollDown, 0, 0);
    assert_eq!(
        civterm::production_picker::picker_mouse_action(panel, wheel, 0, 3, 2, 2),
        civterm::production_picker::PickerMouseAction::Scroll(1)
    );
    assert_eq!(
        civterm::production_picker::picker_mouse_action(panel, wheel, 1, 3, 2, 2),
        civterm::production_picker::PickerMouseAction::Scroll(1)
    );
}

#[test]
fn choice_cycles_forwards_and_backwards() {
    let mut choice = QuitChoice::Continue;
    assert_eq!(choice.next(), QuitChoice::Save);
    choice = choice.next();
    assert_eq!(choice, QuitChoice::Save);
    choice = choice.next();
    assert_eq!(choice, QuitChoice::Quit);
    choice = choice.next();
    assert_eq!(choice, QuitChoice::Continue);
    choice = choice.prev();
    assert_eq!(choice, QuitChoice::Quit);
    choice = choice.prev();
    assert_eq!(choice, QuitChoice::Save);
    choice = choice.prev();
    assert_eq!(choice, QuitChoice::Continue);
}

#[test]
fn quit_buttons_answer_clicks() {
    let panel = civterm::quit_dialog::dialog_rect(Rect::new(0, 0, 100, 40));
    let quit = civterm::quit_dialog::quit_button_rect(panel);
    let press = Pointer::new(PointerKind::LeftDown, quit.x, quit.y);
    assert_eq!(quit_mouse_choice(panel, press), Some(QuitChoice::Quit));
    let save = civterm::quit_dialog::save_button_rect(panel);
    assert_eq!(quit_mouse_choice(panel, Pointer::new(PointerKind::LeftDown, save.x, save.y)), Some(QuitChoice::Save));
    assert_eq!(quit_mouse_choice(panel, Pointer::new(PointerKind::ScrollUp, quit.x, quit.y)), None);
    assert_eq!(quit_outcome(QuitChoice::Save), QuitOutcome::OpenSavePrompt);
    assert_eq!(quit_outcome(QuitChoice::Quit), QuitOutcome::Exit);
}

#[test]
fn diplomacy_names_the_opponent_and_answers_clicks() {
    let (first, second) = diplomacy_message(Civilization::Zulu, DiplomacyOrigin::Contact);
    assert_eq!(first, "The Zulu have been discovered!");
    assert_eq!(second, "We may declare war or make peace with them.");
    let (first, _) = diplomacy_message(Civilization::Zulu, DiplomacyOrigin::Movement);
    assert_eq!(first, "Your unit may not enter Zulu land.");
    let panel = civterm::diplomacy_dialog::dialog_rect(Rect::new(0, 0, 100, 40));
    let war = civterm::diplomacy_dialog::war_button_rect(panel);
    assert_eq!(
        diplomacy_mouse_choice(panel, Pointer::new(PointerKind::LeftDown, war.x, war.y)),
        Some(DiplomacyChoice::War)
    );
    assert_eq!(diplomacy_mouse_choice(panel, Pointer::new(PointerKind::LeftDown, 0, 0)), None);
}

#[test]
fn research_clicks_pick_rows_and_confirm() {
    let panel = civterm::research_dialog::dialog_rect(Rect::new(0, 0, 100, 40));
    let list = civterm::research_dialog::list_rect(panel);
    let ok = civterm::research_dialog::ok_button_rect(panel);
    let press = |x: u16, y: u16| Pointer::new(PointerKind::LeftDown, x, y);
    assert_eq!(research_mouse_action(panel, press(list.x, list.y + 1), 2, 5), ResearchMouseAction::Select(3));
    assert_eq!(research_mouse_action(panel, press(list.x, list.y + 1), 2, 3), ResearchMouseAction::Ignore);
    assert_eq!(research_mouse_action(panel, press(ok.x, ok.y), 0, 3), ResearchMouseAction::Confirm);
    assert_eq!(
        research_mouse_action(panel, Pointer::new(PointerKind::ScrollUp, 0, 0), 0, 3),
        ResearchMouseAction::Scroll(-1)
    );
    assert_eq!(discovery_line(Civilization::English, Advancement::Alphabet), "The English discover Alphabet!");
    assert_eq!(choice_line(Advancement::Pottery, 40), "Pottery (40)");
}

#[test]
fn dialog_centres_the_save_prompt_in_the_area() {
    let panel = civterm::save_load_prompt::dialog_rect(Rect::new(0, 0, 100, 40));
    assert_eq!(panel.width, 60);
    assert_eq!(panel.height, 8);
    assert_eq!(panel.x, (100 - 60) / 2);
    assert_eq!(panel.y, (40 - 8) / 2);
}

#[test]
fn the_prompt_names_its_action() {
    assert_eq!(SaveLoadKind::Save.title(), "Save game");
    assert_eq!(SaveLoadKind::Save.prompt(), "Save to");
    assert_eq!(SaveLoadKind::Save.hint(), "Enter saves  •  Esc cancels");
    assert_eq!(SaveLoadKind::Load.title(), "Load game");
    assert_eq!(SaveLoadKind::Load.prompt(), "Load from");
    assert_eq!(SaveLoadKind::Load.hint(), "Enter loads  •  Esc cancels");
}

#[test]
fn typing_edits_the_path_and_enter_trims_it() {
    let mut prompt = SaveLoadPrompt::for_load();
    prompt.error = Some("boom".to_string());
    for c in "  /tmp/x.civ ".chars() {
        assert_eq!(prompt.handle_key(Key::Char(c), true), PromptKey::Edited);
    }
    assert_eq!(prompt.error, None);
    assert_eq!(prompt.handle_key(Key::Char('\u{7}'), true), PromptKey::Ignore);
    assert_eq!(prompt.handle_key(Key::Char('z'), false), PromptKey::Ignore);
    assert_eq!(prompt.handle_key(Key::Backspace, true), PromptKey::Edited);
    assert_eq!(prompt.input, "  /tmp/x.civ");
    assert_eq!(prompt.handle_key(Key::Enter, true), PromptKey::Confirm);
    match prompt.confirm() {
        PromptOutcome::Load(path) => assert_eq!(path, "/tmp/x.civ"),
        other => panic!("expected a load, got {other:?}"),
    }
    let blank = SaveLoadPrompt::new(SaveLoadKind::Save, " \t ".to_string(), None);
    match blank.confirm() {
        PromptOutcome::Retry(prompt) => assert_eq!(prompt.error.as_deref(), Some("Enter a path")),
        other => panic!("expected the prompt back, got {other:?}"),
    }
    assert_eq!(SaveLoadPrompt::for_save().input, "civterm.civ");
    assert_eq!(saved_message("a.civ"), "Game saved to a.civ");
    assert_eq!(loaded_message("a.civ"), "Loaded game from a.civ");
}

#[test]
fn the_path_stops_at_two_hundred_characters() {
    let mut prompt = SaveLoadPrompt::new(SaveLoadKind::Save, "x".repeat(200), None);
    prompt.handle_key(Key::Char('y'), true);
    assert_eq!(prompt.input.chars().count(), 200);
}

#[test]
fn the_typed_path_is_clipped_to_the_line() {
    assert_eq!(fit_input("abc", 10, 20), (3, 13));
    assert_eq!(fit_input("abcdef", 10, 13), (3, 13));
    assert_eq!(fit_input("a🌾b", 10, 12), (1, 11));
}

#[test]
fn selector_notes_and_taglines() {
    assert_eq!(civ_chosen_note(Civilization::Chinese), "✦ [Chinese] chosen");
    assert_eq!(competition_chosen_note(Competition::new(4)), "✦ [4 rivals] selected");
    assert_eq!(difficulty_chosen_note(Difficulty::Normal), "✦ [Normal] selected");
    assert_eq!(rivals_text(Competition::new(5)), "5 rivals");
    assert_eq!(competition_tagline(1), "One rival empire on the map");
    assert_eq!(competition_tagline(9), "A world of rivals");
    assert_eq!(difficulty_tagline(Difficulty::Hard), "Ruthless rivals at every step");
    let frame = selector_frame(Rect::new(0, 0, 100, 50));
    assert_eq!((frame.centre_x, frame.list_x, frame.list_top), (50, 6, 4));
    assert_eq!((frame.header_y, frame.footer_y), (Some(1), Some(49)));
}

#[test]
fn help_rows_wrap_when_full() {
    let commands = vec![("arrows", "move"), ("y/u/b/n", "diag"), ("tab", "next unit"), ("space", "end turn")];
    let widths = help_widths(&commands);
    assert_eq!(widths, vec![11, 12, 13, 14]);
    // 11 + 3 + 12 = 26 fits 40; 26 + 3 + 13 = 42 does not.
    assert_eq!(help_rows(&widths, 40), vec![(0, 26), (2, 30)]);
    assert_eq!(help_rows(&Vec::new(), 40), Vec::<(usize, usize)>::new());
    assert_eq!(help_rows(&vec![50], 40), vec![(0, 50)]);
}

#[test]
fn the_starfield_is_sparse() {
    let stars = (0..100u16).flat_map(|x| (0..60u16).map(move |y| (x, y))).filter(|&(x, y)| star_at(x, y).is_some()).count();
    assert!(stars > 0);
    assert!(stars < 100 * 60 / 2);
}

#[test]
fn the_city_window_shows_only_over_the_players_own_cities() {
    let area = Rect::new(0, 0, 80, 40);
    assert_eq!(city_window_plan(false, area), CityWindowPlan::Hidden);
    let window = civterm::city_window::window_rect(area);
    assert_eq!(window, Rect::new(8, 5, 64, 30));
    assert_eq!(
        city_window_plan(true, area),
        CityWindowPlan::Shown { window, panels: civterm::city_window::city_layout(window) }
    );
    assert!(civterm::city_window::city_layout(window).is_some());
    assert_eq!(city_window_plan(true, Rect::new(0, 0, 3, 40)), CityWindowPlan::Hidden);
    assert_eq!(
        city_window_plan(true, Rect::new(0, 0, 20, 10)),
        CityWindowPlan::Shown { window: Rect::new(1, 1, 18, 8), panels: None }
    );
}

#[test]
fn selector_lists_mark_the_clamped_cursor_row() {
    let rows = selector_rows(Rect::new(0, 0, 80, 40), 1, 3);
    assert_eq!(
        rows,
        vec![
            SelectorRow { index: 0, y: 4, selected: false },
            SelectorRow { index: 1, y: 5, selected: true },
            SelectorRow { index: 2, y: 6, selected: false },
        ]
    );
    let rows = selector_rows(Rect::new(0, 10, 80, 6), 9, 14);
    assert_eq!(rows.len(), 2);
    assert_eq!(rows[1], SelectorRow { index: 1, y: 15, selected: false });
    let rows = selector_rows(Rect::new(0, 0, 80, 40), 9, 3);
    assert!(rows[2].selected);
}
