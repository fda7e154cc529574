use civterm::game_screen::{LEFT_COLUMN_WIDTH, TILE_WIDTH};
use civterm::geometry::Rect;
use civterm::map_view::{adjacent_direction, camera_for, hovered_adjacent_tile, tile_under_pointer, Gesture};
use civterm::model::Direction;
use civterm::navigation::{advance, retreat};

fn check_adjacency() {
    assert_eq!(adjacent_direction((5, 5), (4, 5), 80), Some(Direction::W));
    assert_eq!(adjacent_direction((5, 5), (6, 5), 80), Some(Direction::E));
    assert_eq!(adjacent_direction((5, 5), (5, 6), 80), Some(Direction::S));
    assert_eq!(adjacent_direction((5, 5), (6, 4), 80), Some(Direction::NE));
    assert_eq!(adjacent_direction((5, 5), (4, 6), 80), Some(Direction::SW));
    assert_eq!(adjacent_direction((0, 5), (79, 5), 80), Some(Direction::W));
    assert_eq!(adjacent_direction((79, 5), (0, 5), 80), Some(Direction::E));
    assert_eq!(adjacent_direction((5, 5), (7, 5), 80), None);
    assert_eq!(adjacent_direction((5, 5), (5, 5), 80), None);
    assert_eq!(adjacent_direction((5, 5), (5, 3), 80), None);
}

#[test]
fn app_adjacent_direction_takes_the_horizontal_wrap_into_account() {
    check_adjacency();
}

#[test]
fn tests_adjacent_direction_takes_the_horizontal_wrap_into_account() {
    check_adjacency();
}

fn check_hovering() {
    // Camera at origin, unit at (5, 5). The pointer is over the tile one
    // square west of the unit.
    assert_eq!(
        hovered_adjacent_tile(
            ((LEFT_COLUMN_WIDTH as usize + 4 * TILE_WIDTH) as u16, 5),
            (0, 0),
            (80, 50),
            Some((5, 5)),
        ),
        Some((4, 5)),
    );
    assert_eq!(
        hovered_adjacent_tile(
            ((LEFT_COLUMN_WIDTH as usize + 6 * TILE_WIDTH) as u16, 4),
            (0, 0),
            (80, 50),
            Some((5, 5)),
        ),
        Some((6, 4)),
    );
    // The unit's own tile, a distant tile, the left column, the area below
    // the map, or no selected unit: no target.
    assert_eq!(
        hovered_adjacent_tile(
            ((LEFT_COLUMN_WIDTH as usize + 5 * TILE_WIDTH) as u16, 5),
            (0, 0),
            (80, 50),
            Some((5, 5)),
        ),
        None,
    );
    assert_eq!(
        hovered_adjacent_tile(
            ((LEFT_COLUMN_WIDTH as usize + 9 * TILE_WIDTH) as u16, 5),
            (0, 0),
            (80, 50),
            Some((5, 5)),
        ),
        None,
    );
    assert_eq!(hovered_adjacent_tile((4, 5), (0, 0), (80, 50), Some((5, 5))), None);
    assert_eq!(
        hovered_adjacent_tile(
            ((LEFT_COLUMN_WIDTH as usize + 4 * TILE_WIDTH) as u16, 60),
            (0, 0),
            (80, 50),
            Some((5, 5)),
        ),
        None,
    );
    assert_eq!(
        hovered_adjacent_tile(
            ((LEFT_COLUMN_WIDTH as usize + 4 * TILE_WIDTH) as u16, 5),
            (0, 0),
            (80, 50),
            None,
        ),
        None,
    );
}

#[test]
fn app_hovering_an_adjacent_tile_reports_the_move_target() {
    check_hovering();
}

#[test]
fn tests_hovering_an_adjacent_tile_reports_the_move_target() {
    check_hovering();
}

#[test]
fn tile_under_pointer_maps_the_pointer_to_the_world() {
    assert_eq!(tile_under_pointer((LEFT_COLUMN_WIDTH, 0), (4, 2), (80, 50)), Some((4, 2)));
    assert_eq!(
        tile_under_pointer((LEFT_COLUMN_WIDTH + 3 * TILE_WIDTH as u16, 5), (4, 2), (80, 50)),
        Some((7, 7))
    );
    assert_eq!(
        tile_under_pointer((LEFT_COLUMN_WIDTH + 78 * TILE_WIDTH as u16, 0), (0, 0), (80, 50)),
        Some((78, 0))
    );
    assert_eq!(
        tile_under_pointer((LEFT_COLUMN_WIDTH + 79 * TILE_WIDTH as u16, 0), (1, 0), (80, 50)),
        Some((0, 0))
    );
    assert_eq!(tile_under_pointer((4, 2), (0, 0), (80, 50)), None);
    assert_eq!(tile_under_pointer((LEFT_COLUMN_WIDTH + TILE_WIDTH as u16, 60), (0, 0), (80, 50)), None);
}

fn camera_centres() {
    assert_eq!(camera_for(Some((7, 9)), (20, 20), (10, 10), (0, 0)), (2, 4));
}

fn camera_stays() {
    assert_eq!(camera_for(Some((7, 7)), (20, 20), (10, 10), (2, 2)), (2, 2));
}

fn camera_recentres() {
    assert_eq!(camera_for(Some((2, 2)), (20, 20), (10, 10), (2, 2)), (17, 0));
}

fn camera_clamped() {
    assert_eq!(camera_for(Some((0, 0)), (20, 20), (10, 10), (5, 5)), (15, 0));
    assert_eq!(camera_for(Some((5, 5)), (10, 10), (40, 30), (0, 0)), (5, 0));
    assert_eq!(camera_for(Some((0, 19)), (20, 20), (10, 10), (0, 0)), (15, 10));
    assert_eq!(camera_for(None, (80, 50), (40, 40), (10, 10)), (10, 10));
}

fn camera_wraps() {
    let camera = camera_for(Some((19, 0)), (80, 50), (40, 40), (0, 0));
    assert_eq!(camera.0, 79);
    let camera = camera_for(Some((0, 10)), (80, 50), (40, 40), (0, 0));
    assert_eq!(camera.0, 60);
}

fn camera_stays_across_the_wrap() {
    assert_eq!(camera_for(Some((5, 31)), (80, 50), (40, 40), (79, 25)), (79, 25));
}

#[test]
fn app_camera_centres_on_the_focused_tile() {
    camera_centres();
}

#[test]
fn tests_camera_centres_on_the_focused_tile() {
    camera_centres();
}

#[test]
fn app_camera_stays_put_when_focus_is_in_the_middle_70_percent() {
    camera_stays();
}

#[test]
fn tests_camera_stays_put_when_focus_is_in_the_middle_70_percent() {
    camera_stays();
}

#[test]
fn app_camera_recentres_when_focus_leaves_the_middle_70_percent() {
    camera_recentres();
}

#[test]
fn tests_camera_recentres_when_focus_leaves_the_middle_70_percent() {
    camera_recentres();
}

#[test]
fn app_camera_is_clamped_to_the_map_edges_vertically() {
    camera_clamped();
}

#[test]
fn tests_camera_is_clamped_to_the_map_edges_vertically() {
    camera_clamped();
}

#[test]
fn app_camera_wraps_around_the_horizontal_edges() {
    camera_wraps();
}

#[test]
fn tests_camera_wraps_around_the_horizontal_edges() {
    camera_wraps();
}

#[test]
fn app_camera_stays_put_when_focus_wraps_into_the_middle_70_percent() {
    camera_stays_across_the_wrap();
}

#[test]
fn tests_camera_stays_put_when_focus_wraps_into_the_middle_70_percent() {
    camera_stays_across_the_wrap();
}

/// The map pane of a 200-column screen, 40 rows tall, over an 80 by 50
/// map.
fn pane() -> Option<Rect> {
    Some(Rect::new(LEFT_COLUMN_WIDTH, 0, 200, 40))
}

const MAP: (usize, usize) = (80, 50);

/// Press at the first point, drag through the rest and release on the
/// last; returns the camera, whether the gesture ever became a drag, and
/// the click the release produced.
fn press_and_drag(track: &[(u16, u16)], camera: (usize, usize)) -> ((usize, usize), bool, Option<(u16, u16)>) {
    let mut gesture = Gesture::new();
    let mut camera = camera;
    let mut dragged = false;
    assert!(gesture.press(track[0], pane()));
    for &position in &track[1..] {
        let (next, started) = gesture.drag(position, pane(), camera, MAP);
        camera = next;
        dragged = dragged || started;
    }
    let click = gesture.release();
    (camera, dragged, click)
}

#[test]
fn tests_dragging_the_map_pans_the_camera() {
    // Twelve screen columns of hand travel pan the camera six tiles west.
    let (camera, dragged, click) = press_and_drag(&[(48, 12), (50, 12), (60, 12)], (0, 0));
    let expected_x = (0i32 - 6).rem_euclid(MAP.0 as i32) as usize;
    assert_eq!(camera, (expected_x, 0));
    assert!(dragged, "dragging lets the hand steer");
    assert_eq!(click, None, "a drag must not select a city");
}

#[test]
fn tests_a_drag_past_the_slop_never_clicks() {
    // A press on a city tile that travels past the slop pans rather than
    // clicks: six columns of carry are three tiles west.
    let column = LEFT_COLUMN_WIDTH + 2 * 5;
    let (camera, _, click) = press_and_drag(&[(column, 7), (column + 6, 7)], (0, 0));
    assert_eq!(click, None, "drag must not act as a click");
    assert_eq!(camera.0, 77, "three tiles of carry pans west");
}

#[test]
fn tests_dragging_up_clamps_the_camera_to_the_bottom_of_the_map() {
    let max_y = MAP.1.saturating_sub(pane().unwrap().height as usize);
    let (camera, _, _) = press_and_drag(&[(48, 30), (48, 10)], (0, 0));
    assert_eq!(camera.1, max_y);
    assert_eq!(max_y, 10);
}

#[test]
fn tests_a_tiny_drag_stays_a_click() {
    // One cell of movement is click jitter: the release still clicks and
    // the camera stays put.
    let column = LEFT_COLUMN_WIDTH + 2 * 5;
    let (camera, dragged, click) = press_and_drag(&[(column, 7), (column + 1, 7)], (0, 0));
    assert_eq!(click, Some((column, 7)), "jitter must not cancel a click");
    assert_eq!(camera, (0, 0));
    assert!(!dragged);
}

#[test]
fn a_press_outside_the_pane_starts_nothing() {
    let mut gesture = Gesture::new();
    assert!(!gesture.press((4, 4), pane()));
    assert_eq!(gesture.release(), None);
}

#[test]
fn adjacency_reverses_and_wraps() {
    for (from, to) in [((0usize, 3usize), (79usize, 4usize)), ((10, 10), (11, 9))] {
        let there = adjacent_direction(from, to, 80).unwrap();
        let back = adjacent_direction(to, from, 80).unwrap();
        assert_eq!(there.opposite(), back);
    }
}

#[test]
fn a_settled_camera_stays_settled() {
    let first = camera_for(Some((33, 20)), (80, 50), (40, 30), (0, 0));
    let second = camera_for(Some((33, 20)), (80, 50), (40, 30), first);
    assert_eq!(first, second);
}

#[test]
fn a_step_in_any_direction_is_recognised_as_that_direction() {
    let map_w = 80;
    for (x, y) in [(0usize, 5usize), (79, 5), (40, 5)] {
        for d in [
            Direction::N,
            Direction::NE,
            Direction::E,
            Direction::SE,
            Direction::S,
            Direction::SW,
            Direction::W,
            Direction::NW,
        ] {
            let (dx, dy): (isize, isize) = match d {
                Direction::N => (0, -1),
                Direction::NE => (1, -1),
                Direction::E => (1, 0),
                Direction::SE => (1, 1),
                Direction::S => (0, 1),
                Direction::SW => (-1, 1),
                Direction::W => (-1, 0),
                Direction::NW => (-1, -1),
            };
            let to = (((x as isize + dx).rem_euclid(map_w as isize)) as usize, (y as isize + dy) as usize);
            assert_eq!(adjacent_direction((x, y), to, map_w), Some(d));
        }
    }
}

#[test]
fn a_settled_camera_stays_put() {
    let once = camera_for(Some((70, 30)), (80, 50), (42, 40), (0, 0));
    assert_eq!(camera_for(Some((70, 30)), (80, 50), (42, 40), once), once);
    let once = camera_for(Some((1, 1)), (80, 50), (42, 40), (60, 0));
    assert_eq!(camera_for(Some((1, 1)), (80, 50), (42, 40), once), once);
}

#[test]
fn cyclic_steps_wrap_and_undo_each_other() {
    assert_eq!(advance(0, 3), 1);
    assert_eq!(advance(2, 3), 0);
    assert_eq!(retreat(0, 3), 2);
    assert_eq!(retreat(2, 3), 1);
    for i in 0..5 {
        assert_eq!(retreat(advance(i, 5), 5), i);
        assert_eq!(advance(retreat(i, 5), 5), i);
    }
    assert_eq!(advance(usize::MAX, 3), 1);
    assert_eq!(retreat(usize::MAX, 3), 2);
    assert_eq!(retreat(usize::MAX - 1, usize::MAX), usize::MAX - 2);
}
