//! Where the map pane looks and what the pointer is over: the camera that
//! follows the selected unit, the tile under the mouse, and adjacency on a
//! map that wraps east to west.
use vstd::prelude::*;

use crate::game_screen::{LEFT_COLUMN_WIDTH, TILE_WIDTH};
use crate::geometry::Rect;
use crate::model::Direction;

verus! {

/// The column step from `fx` to `tx` on a map `map_w` wide that wraps east to
/// west, taken the short way round.
pub open spec fn wrapped_dx(fx: int, tx: int, map_w: int) -> int {
    let dx = tx - fx;
    let half = map_w / 2;
    if dx > half {
        dx - map_w
    } else if dx < -half {
        dx + map_w
    } else {
        dx
    }
}

/// The direction of a one-square step, if `(dx, dy)` is one.
pub open spec fn direction_of(dx: int, dy: int) -> Option<Direction> {
    if dx == 0 && dy == -1 {
        Some(Direction::N)
    } else if dx == 1 && dy == -1 {
        Some(Direction::NE)
    } else if dx == 1 && dy == 0 {
        Some(Direction::E)
    } else if dx == 1 && dy == 1 {
        Some(Direction::SE)
    } else if dx == 0 && dy == 1 {
        Some(Direction::S)
    } else if dx == -1 && dy == 1 {
        Some(Direction::SW)
    } else if dx == -1 && dy == 0 {
        Some(Direction::W)
    } else if dx == -1 && dy == -1 {
        Some(Direction::NW)
    } else {
        None
    }
}

/// The direction from tile `from` to tile `to` when they are neighbours,
/// horizontally wrapping.
pub open spec fn adjacency(from: (int, int), to: (int, int), map_w: int) -> Option<Direction> {
    direction_of(wrapped_dx(from.0, to.0, map_w), to.1 - from.1)
}

/// The column step from `fx` to `tx`, the short way round a map `map_w`
/// wide, when it is at most one column either way.
fn column_step(fx: usize, tx: usize, map_w: usize) -> (step: Option<i8>)
    ensures
        match step {
            Some(s) => -1 <= s <= 1 && wrapped_dx(fx as int, tx as int, map_w as int) == s,
            None => !(-1 <= wrapped_dx(fx as int, tx as int, map_w as int) <= 1),
        },
{
    let half = map_w / 2;
    if tx >= fx {
        let d = tx - fx;
        if d > half {
            if map_w >= 1 && d == map_w - 1 {
                Some(-1)
            } else if d == map_w {
                Some(0)
            } else if d >= map_w && d - map_w == 1 {
                Some(1)
            } else {
                None
            }
        } else if d == 0 {
            Some(0)
        } else if d == 1 {
            Some(1)
        } else {
            None
        }
    } else {
        let d = fx - tx;
        if d > half {
            if map_w >= d && map_w - d == 1 {
                Some(1)
            } else if d == map_w {
                Some(0)
            } else if d - 1 == map_w {
                Some(-1)
            } else {
                None
            }
        } else if d == 1 {
            Some(-1)
        } else {
            None
        }
    }
}

/// The row step from `fy` to `ty` when it is at most one row either way.
fn row_step(fy: usize, ty: usize) -> (step: Option<i8>)
    ensures
        match step {
            Some(s) => -1 <= s <= 1 && ty - fy == s,
            None => !(-1 <= ty - fy <= 1),
        },
{
    if ty == fy {
        Some(0)
    } else if fy >= 1 && ty == fy - 1 {
        Some(-1)
    } else if ty >= 1 && ty - 1 == fy {
        Some(1)
    } else {
        None
    }
}

/// The adjacent direction from tile `from` to tile `to`, taking the map's
/// horizontal wrap into account. `None` unless the two tiles are
/// orthogonally or diagonally adjacent.
pub fn adjacent_direction(from: (usize, usize), to: (usize, usize), map_w: usize) -> (direction:
    Option<Direction>)
    ensures
        direction == adjacency((from.0 as int, from.1 as int), (to.0 as int, to.1 as int), map_w as int),
{
    let across = column_step(from.0, to.0, map_w);
    let down = row_step(from.1, to.1);
    match (across, down) {
        (Some(dx), Some(dy)) => if dx == 0 && dy == -1 {
            Some(Direction::N)
        } else if dx == 1 && dy == -1 {
            Some(Direction::NE)
        } else if dx == 1 && dy == 0 {
            Some(Direction::E)
        } else if dx == 1 && dy == 1 {
            Some(Direction::SE)
        } else if dx == 0 && dy == 1 {
            Some(Direction::S)
        } else if dx == -1 && dy == 1 {
            Some(Direction::SW)
        } else if dx == -1 && dy == 0 {
            Some(Direction::W)
        } else if dx == -1 && dy == -1 {
            Some(Direction::NW)
        } else {
            None
        },
        _ => None,
    }
}

/// A reported direction really leads from `from` to `to`: one step in it,
/// wrapping east to west, lands on `to`.
pub proof fn lemma_adjacency_steps_there(from: (int, int), to: (int, int), map_w: int, d: Direction)
    requires
        0 <= from.0 < map_w,
        0 <= to.0 < map_w,
        adjacency(from, to, map_w) == Some(d),
    ensures
        (from.0 + d.dx()) % map_w == to.0,
        from.1 + d.dy() == to.1,
{
    let dx = wrapped_dx(from.0, to.0, map_w);
    assert(d.dx() == dx);
    let raw = to.0 - from.0;
    if dx == raw {
        assert(from.0 + dx == to.0);
        vstd::arithmetic::div_mod::lemma_small_mod(to.0 as nat, map_w as nat);
    } else if dx == raw - map_w {
        assert(from.0 + dx == to.0 - map_w);
        vstd::arithmetic::div_mod::lemma_mod_sub_multiples_vanish(to.0, map_w);
        vstd::arithmetic::div_mod::lemma_small_mod(to.0 as nat, map_w as nat);
    } else {
        assert(from.0 + dx == to.0 + map_w);
        vstd::arithmetic::div_mod::lemma_mod_add_multiples_vanish(to.0, map_w);
        vstd::arithmetic::div_mod::lemma_small_mod(to.0 as nat, map_w as nat);
    }
}

/// A step is recognised: on a map at least three tiles wide, the tile one
/// step from `from` in direction `d`, wrapping east to west, is reported as
/// lying in direction `d`.
pub proof fn lemma_step_is_adjacent(from: (int, int), map_w: int, d: Direction)
    requires
        map_w >= 3,
        0 <= from.0 < map_w,
    ensures
        adjacency(from, ((from.0 + d.dx()) % map_w, from.1 + d.dy()), map_w) == Some(d),
{
    let x = from.0 + d.dx();
    if 0 <= x < map_w {
        vstd::arithmetic::div_mod::lemma_small_mod(x as nat, map_w as nat);
    } else if x == map_w {
        vstd::arithmetic::div_mod::lemma_mod_self_0(map_w);
        assert(map_w / 2 < map_w - 1) by {
            vstd::arithmetic::div_mod::lemma_fundamental_div_mod(map_w, 2);
        }
    } else {
        assert(x == -1);
        vstd::arithmetic::div_mod::lemma_mod_add_multiples_vanish(x, map_w);
        vstd::arithmetic::div_mod::lemma_small_mod((map_w - 1) as nat, map_w as nat);
        assert(map_w / 2 < map_w - 1) by {
            vstd::arithmetic::div_mod::lemma_fundamental_div_mod(map_w, 2);
        }
    }
}

/// Adjacency is symmetric: stepping back from `to` to `from` goes the
/// opposite way.
pub proof fn lemma_adjacency_reverses(from: (int, int), to: (int, int), map_w: int)
    requires
        0 <= map_w,
    ensures
        adjacency(to, from, map_w) == (match adjacency(from, to, map_w) {
            Some(d) => Some(d.reversed()),
            None => None,
        }),
{
    assert(wrapped_dx(to.0, from.0, map_w) == -wrapped_dx(from.0, to.0, map_w));
}

/// The world tile under screen cell `screen`, given the camera's top-left
/// world tile: `None` over the information column or below the map's
/// southern edge. Columns wrap east to west.
pub open spec fn pointer_tile(screen: (u16, u16), camera: (usize, usize), map: (usize, usize)) -> Option<
    (int, int),
> {
    if screen.0 < LEFT_COLUMN_WIDTH {
        None
    } else {
        let tile_col = (screen.0 - LEFT_COLUMN_WIDTH) / (TILE_WIDTH as int);
        let world_x = (camera.0 + tile_col) % (map.0 as int);
        let world_y = camera.1 + screen.1;
        if world_y >= map.1 {
            None
        } else {
            Some((world_x, world_y))
        }
    }
}

/// What finding the tile under a pointer needs: a map with columns, and a
/// camera whose offsets do not overflow.
pub open spec fn pointer_fits(screen: (u16, u16), camera: (usize, usize), map: (usize, usize)) -> bool {
    screen.0 >= LEFT_COLUMN_WIDTH ==> {
        &&& map.0 > 0
        &&& camera.0 + (screen.0 - LEFT_COLUMN_WIDTH) / (TILE_WIDTH as int) <= usize::MAX
        &&& camera.1 + screen.1 <= usize::MAX
    }
}

/// The world tile under the pointer, wrapped horizontally; `None` over the
/// left column or beyond the bottom map edge.
pub fn tile_under_pointer(screen: (u16, u16), camera: (usize, usize), map: (usize, usize)) -> (tile:
    Option<(usize, usize)>)
    requires
        pointer_fits(screen, camera, map),
    ensures
        tile matches Some(t) ==> pointer_tile(screen, camera, map) == Some((t.0 as int, t.1 as int)),
        tile is None <==> pointer_tile(screen, camera, map) is None,
        tile matches Some(t) ==> t.0 < map.0 && t.1 < map.1,
{
    let (column, row) = screen;
    if column < LEFT_COLUMN_WIDTH {
        return None;
    }
    let (map_w, map_h) = map;
    let tile_col = (column - LEFT_COLUMN_WIDTH) as usize / TILE_WIDTH;
    let world_x = (camera.0 + tile_col) % map_w;
    let world_y = camera.1 + row as usize;
    if world_y >= map_h {
        return None;
    }
    Some((world_x, world_y))
}

/// The world tile under the pointer, when it lies one square away from the
/// `selected` tile in any direction; `None` otherwise (including over the
/// left column or beyond the bottom map edge).
pub fn hovered_adjacent_tile(
    screen: (u16, u16),
    camera: (usize, usize),
    map: (usize, usize),
    selected: Option<(usize, usize)>,
) -> (target: Option<(usize, usize)>)
    requires
        pointer_fits(screen, camera, map),
    ensures
        target == (match (pointer_tile(screen, camera, map), selected) {
            (Some(t), Some(s)) => if adjacency((s.0 as int, s.1 as int), t, map.0 as int) is Some {
                Some((t.0 as usize, t.1 as usize))
            } else {
                None
            },
            _ => None,
        }),
{
    let tile = tile_under_pointer(screen, camera, map);
    match (tile, selected) {
        (Some(t), Some(s)) => {
            if adjacent_direction(s, t, map.0).is_some() {
                Some(t)
            } else {
                None
            }
        },
        _ => None,
    }
}

/// The map dimensions, pane size and camera position a camera update reads.
pub open spec fn camera_fits(
    focus: Option<(usize, usize)>,
    map: (usize, usize),
    pane: (usize, usize),
    camera: (usize, usize),
) -> bool {
    &&& pane.0 * 15 <= usize::MAX
    &&& pane.1 * 15 <= usize::MAX
    &&& match focus {
        Some(f) => pane.0 > 0 && pane.1 > 0 ==> {
            &&& map.0 > 0
            &&& f.0 + map.0 <= usize::MAX
            &&& camera.0 <= f.0 + map.0
        },
        None => true,
    }
}

/// Whether the focus tile `(x, y)` already sits inside the middle 70 % of a
/// pane of `pane` tiles whose top-left world tile is `camera`.
pub open spec fn comfortably_in_view(x: int, y: int, map_w: int, pane: (int, int), camera: (int, int)) -> bool {
    let margin_x = pane.0 * 15 / 100;
    let margin_y = pane.1 * 15 / 100;
    let view_col = (x + map_w - camera.0) % map_w;
    let view_row = y - camera.1;
    &&& view_col < pane.0
    &&& view_col >= margin_x
    &&& view_col < sat_sub_int(pane.0, margin_x)
    &&& view_row >= margin_y
    &&& view_row < pane.1 - margin_y
}

/// `a - b`, held at zero instead of going negative.
pub open spec fn sat_sub_int(a: int, b: int) -> int {
    if a > b {
        a - b
    } else {
        0
    }
}

/// The camera that centres the focus `(x, y)`: wrapped east to west, and held
/// so the pane never shows rows beyond the map's northern or southern edge.
pub open spec fn centred_on(x: int, y: int, map: (int, int), pane: (int, int)) -> (int, int) {
    let cx = (x - pane.0 / 2) % map.0;
    let top = if y - pane.1 / 2 > 0 {
        y - pane.1 / 2
    } else {
        0
    };
    let lowest = sat_sub_int(map.1, pane.1);
    (cx, if lowest < top {
        lowest
    } else {
        top
    })
}

/// The camera for the next frame: unchanged while the focus sits inside the
/// middle 70 % of the pane (or there is no focus or no pane), otherwise
/// re-centred on the focus.
pub open spec fn next_camera(
    focus: Option<(usize, usize)>,
    map: (usize, usize),
    pane: (usize, usize),
    camera: (usize, usize),
) -> (int, int) {
    match focus {
        Some(f) => if pane.0 > 0 && pane.1 > 0 && !comfortably_in_view(
            f.0 as int,
            f.1 as int,
            map.0 as int,
            (pane.0 as int, pane.1 as int),
            (camera.0 as int, camera.1 as int),
        ) {
            centred_on(f.0 as int, f.1 as int, (map.0 as int, map.1 as int), (pane.0 as int, pane.1 as int))
        } else {
            (camera.0 as int, camera.1 as int)
        },
        None => (camera.0 as int, camera.1 as int),
    }
}

/// The world-tile coordinate for the top-left of the map pane. Centres on
/// `focus` when it drifts out of the middle 70 % of the view, never showing
/// rows beyond the map's northern or southern edge. `pane` is the pane size
/// measured in world tiles (cols, rows). The map wraps horizontally, so the
/// focus's distance from the camera is taken round the wrap.
pub fn camera_for(
    focus: Option<(usize, usize)>,
    map: (usize, usize),
    pane: (usize, usize),
    camera: (usize, usize),
) -> (next: (usize, usize))
    requires
        camera_fits(focus, map, pane, camera),
    ensures
        (next.0 as int, next.1 as int) == next_camera(focus, map, pane, camera),
{
    let (map_w, map_h) = map;
    let (pane_cols, pane_rows) = pane;
    match focus {
        Some((x, y)) => {
            if pane_cols == 0 || pane_rows == 0 {
                return camera;
            }
            let margin_x = pane_cols * 15 / 100;
            let margin_y = pane_rows * 15 / 100;
            let view_col = (x + map_w - camera.0) % map_w;
            let view_row = y as i128 - camera.1 as i128;
            let right_limit = if pane_cols > margin_x {
                pane_cols - margin_x
            } else {
                0
            };
            let in_x = view_col < pane_cols && view_col >= margin_x && view_col < right_limit;
            let in_y = view_row >= margin_y as i128 && view_row < pane_rows as i128 - margin_y as i128;
            if in_x && in_y {
                return camera;
            }
            let half = pane_cols / 2;
            let new_cx = if x >= half {
                (x - half) % map_w
            } else {
                let back = (half - x) % map_w;
                if back == 0 {
                    0
                } else {
                    map_w - back
                }
            };
            proof {
                lemma_negative_mod(x as int, half as int, map_w as int);
            }
            let top = if y > pane_rows / 2 {
                y - pane_rows / 2
            } else {
                0
            };
            let lowest = if map_h > pane_rows {
                map_h - pane_rows
            } else {
                0
            };
            let new_cy = if lowest < top {
                lowest
            } else {
                top
            };
            (new_cx, new_cy)
        },
        None => camera,
    }
}

/// The Euclidean remainder of `x - h` by `m`, computed without going
/// negative.
proof fn lemma_negative_mod(x: int, h: int, m: int)
    requires
        0 <= x,
        0 <= h,
        0 < m,
    ensures
        x < h ==> (x - h) % m == (if (h - x) % m == 0 {
            0
        } else {
            m - (h - x) % m
        }),
{
    if x < h {
        let d = h - x;
        vstd::arithmetic::div_mod::lemma_fundamental_div_mod(d, m);
        let q = d / m;
        let r = d % m;
        assert(d == m * q + r);
        assert(x - h == -(m * q) - r);
        if r == 0 {
            assert(x - h == m * (-q)) by (nonlinear_arith)
                requires
                    x - h == -(m * q) - r,
                    r == 0,
            ;
            vstd::arithmetic::div_mod::lemma_mod_multiples_basic(-q, m);
        } else {
            assert(x - h == m * (-q - 1) + (m - r)) by (nonlinear_arith)
                requires
                    x - h == -(m * q) - r,
            ;
            vstd::arithmetic::div_mod::lemma_mod_multiples_vanish(-q - 1, m - r, m);
            vstd::arithmetic::div_mod::lemma_small_mod((m - r) as nat, m as nat);
        }
    }
}

/// Following the focus twice is the same as following it once: a camera
/// that has just been placed for a focus stays where it is.
pub proof fn lemma_camera_settles(
    focus: Option<(usize, usize)>,
    map: (usize, usize),
    pane: (usize, usize),
    camera: (usize, usize),
)
    requires
        map.0 > 0,
    ensures
        ({
            let once = next_camera(focus, map, pane, camera);
            &&& next_camera(focus, map, pane, (once.0 as usize, once.1 as usize)) == once
            &&& 0 <= once.0 <= usize::MAX
            &&& 0 <= once.1 <= usize::MAX
            &&& camera_fits(focus, map, pane, camera) ==> camera_fits(
                focus,
                map,
                pane,
                (once.0 as usize, once.1 as usize),
            )
        }),
{
    let once = next_camera(focus, map, pane, camera);
    if let Some(f) = focus {
        if pane.0 > 0 && pane.1 > 0 && !comfortably_in_view(
            f.0 as int,
            f.1 as int,
            map.0 as int,
            (pane.0 as int, pane.1 as int),
            (camera.0 as int, camera.1 as int),
        ) {
            assert(0 <= once.0 < map.0);
            assert(0 <= once.1);
            assert(once.1 <= f.1);
        }
    }
}

/// A re-centred camera keeps the pane on the map: its column is a map
/// column and its row leaves no rows past the southern edge, whenever the
/// map is at least as tall as the pane.
pub proof fn lemma_centred_camera_on_map(x: int, y: int, map: (int, int), pane: (int, int))
    requires
        0 <= x,
        0 <= y,
        0 < map.0,
        0 <= pane.1,
    ensures
        ({
            let c = centred_on(x, y, map, pane);
            &&& 0 <= c.0 < map.0
            &&& 0 <= c.1
            &&& (pane.1 <= map.1 ==> c.1 + pane.1 <= map.1)
        }),
{
}

/// How many screen cells a left-button press may travel before it becomes a
/// map drag rather than a click.
pub const CLICK_SLOP: i32 = 2;

/// A left-button gesture over the map pane: where it was pressed, where the
/// pointer was on the previous drag move, the screen-column travel not yet
/// turned into whole world tiles, and whether it has become a drag.
#[derive(Clone, Copy, Debug)]
pub struct Gesture {
    pub origin: Option<(u16, u16)>,
    pub last: Option<(u16, u16)>,
    pub carry: i32,
    pub engaged: bool,
}

/// The larger of the column and row distances between two cells.
pub open spec fn travel(a: (u16, u16), b: (u16, u16)) -> int {
    let dc = if a.0 >= b.0 {
        a.0 - b.0
    } else {
        b.0 - a.0
    };
    let dr = if a.1 >= b.1 {
        a.1 - b.1
    } else {
        b.1 - a.1
    };
    if dc >= dr {
        dc
    } else {
        dr
    }
}

/// Whether a pane is present and holds the cell.
pub open spec fn pane_holds(pane: Option<Rect>, position: (u16, u16)) -> bool {
    match pane {
        Some(p) => p.holds(position.0 as int, position.1 as int),
        None => false,
    }
}

/// The previous pointer cell of a gesture (its press cell before any move).
pub open spec fn previous_cell(g: Gesture, origin: (u16, u16)) -> (u16, u16) {
    match g.last {
        Some(l) => l,
        None => origin,
    }
}

/// The whole world tiles a drag moves the camera west by, given the
/// column travel carried over plus the new move (two columns per tile).
pub open spec fn tile_shift(carry: int, dcol: int) -> int {
    (carry + dcol) / (TILE_WIDTH as int)
}

/// The bottom-most camera row for a pane `rows` tall on a map `map_h` tall.
pub open spec fn lowest_row(map_h: int, rows: int) -> int {
    sat_sub_int(map_h, rows)
}

/// The gesture, camera, and whether a drag began, after the pointer moves to
/// `position` with the button held.
pub open spec fn dragged(
    g: Gesture,
    position: (u16, u16),
    pane: Option<Rect>,
    camera: (usize, usize),
    map: (usize, usize),
) -> (Gesture, (int, int), bool) {
    let unchanged = (g, (camera.0 as int, camera.1 as int), false);
    match g.origin {
        None => unchanged,
        Some(origin) => if !pane_holds(pane, position) {
            unchanged
        } else if !g.engaged && travel(position, origin) < CLICK_SLOP {
            unchanged
        } else {
            let started = !g.engaged;
            let prev = previous_cell(g, origin);
            let dcol = position.0 - prev.0;
            let drow = position.1 - prev.1;
            let moved = Gesture { last: Some(position), engaged: true, ..g };
            if dcol == 0 && drow == 0 {
                (moved, (camera.0 as int, camera.1 as int), started)
            } else {
                let shift = tile_shift(g.carry as int, dcol);
                let carry = g.carry + dcol - shift * (TILE_WIDTH as int);
                let rows = pane.unwrap().height as int;
                let x = (camera.0 - shift) % (map.0 as int);
                let y = clamp_int(camera.1 - drow, 0, lowest_row(map.1 as int, rows));
                (Gesture { carry: carry as i32, ..moved }, (x, y), started)
            }
        },
    }
}

/// A drag move never loses column travel: once the gesture is a drag, the
/// move's column travel plus what was carried equals twice the tiles the
/// camera pans west plus what is carried on (a column or none), and the
/// camera's column moves west by exactly those tiles, wrapping; the row
/// follows the hand, held to the map.
pub proof fn lemma_drag_conserves_travel(
    g: Gesture,
    position: (u16, u16),
    pane: Option<Rect>,
    camera: (usize, usize),
    map: (usize, usize),
)
    requires
        g.origin is Some,
        pane_holds(pane, position),
        g.engaged || travel(position, g.origin->0) >= CLICK_SLOP,
        0 <= g.carry <= 1,
        0 < map.0,
        camera.0 < map.0,
    ensures
        ({
            let (after, moved, _) = dragged(g, position, pane, camera, map);
            let dcol = position.0 - previous_cell(g, g.origin->0).0;
            let drow = position.1 - previous_cell(g, g.origin->0).1;
            let panned = (g.carry + dcol - after.carry) / 2;
            &&& after.engaged
            &&& after.last == Some(position)
            &&& 0 <= after.carry <= 1
            &&& (g.carry + dcol - after.carry) % 2 == 0
            &&& moved.0 == (camera.0 - panned) % (map.0 as int)
            &&& 0 <= moved.1
            &&& (moved.1 == camera.1 - drow || moved.1 == 0 || moved.1 == lowest_row(
                map.1 as int,
                pane->0.height as int,
            ))
        }),
{
    vstd::arithmetic::div_mod::lemma_small_mod(camera.0 as nat, map.0 as nat);
}

/// `value` limited to `lo..=hi`./// `value` limited to `lo..=hi`.
pub open spec fn clamp_int(value: int, lo: int, hi: int) -> int {
    if value < lo {
        lo
    } else if value > hi {
        hi
    } else {
        value
    }
}

/// What a drag move needs to stay within 32-bit screen arithmetic.
pub open spec fn drag_fits(
    g: Gesture,
    position: (u16, u16),
    pane: Option<Rect>,
    camera: (usize, usize),
    map: (usize, usize),
) -> bool {
    match (g.origin, pane) {
        (Some(origin), Some(p)) => {
            let prev = previous_cell(g, origin);
            let dcol = position.0 - prev.0;
            let shift = tile_shift(g.carry as int, dcol);
            &&& 0 <= g.carry <= 1
            &&& 0 < map.0 <= i32::MAX
            &&& camera.0 <= i32::MAX
            &&& camera.1 <= i32::MAX
            &&& lowest_row(map.1 as int, p.height as int) <= i32::MAX
            &&& camera.0 - shift <= i32::MAX
        },
        _ => true,
    }
}

impl Gesture {
    /// No button held.
    pub fn new() -> (g: Gesture)
        ensures
            g.origin is None,
            g.last is None,
            g.carry == 0,
            !g.engaged,
    {
        Gesture { origin: None, last: None, carry: 0, engaged: false }
    }

    /// A left press: over the map pane it begins a click-or-drag gesture
    /// anchored at the pressed cell; elsewhere nothing starts. Returns
    /// whether a gesture began.
    pub fn press(&mut self, position: (u16, u16), pane: Option<Rect>) -> (began: bool)
        ensures
            began == pane_holds(pane, position),
            began ==> *final(self) == (Gesture {
                origin: Some(position),
                last: Some(position),
                carry: 0,
                engaged: false,
            }),
            !began ==> *final(self) == *old(self),
    {
        let inside = match pane {
            Some(p) => p.contains(crate::geometry::Position { x: position.0, y: position.1 }),
            None => false,
        };
        if inside {
            self.origin = Some(position);
            self.last = Some(position);
            self.carry = 0;
            self.engaged = false;
        }
        inside
    }

    /// The pointer moved to `position` with the button held. The first
    /// `CLICK_SLOP` cells of travel are click jitter; beyond that the gesture
    /// is a drag and the camera is panned so the map moves with the hand:
    /// two screen columns per world tile (the remainder carried into the next
    /// move), one row per row, wrapping east to west and held to the map's
    /// northern and southern edges. Returns the camera and whether this move
    /// turned the press into a drag.
    pub fn drag(
        &mut self,
        position: (u16, u16),
        pane: Option<Rect>,
        camera: (usize, usize),
        map: (usize, usize),
    ) -> (res: ((usize, usize), bool))
        requires
            drag_fits(*old(self), position, pane, camera, map),
        ensures
            ({
                let expect = dragged(*old(self), position, pane, camera, map);
                &&& *final(self) == expect.0
                &&& (res.0.0 as int, res.0.1 as int) == expect.1
                &&& res.1 == expect.2
            }),
    {
        let origin = match self.origin {
            Some(o) => o,
            None => return (camera, false),
        };
        let p = match pane {
            Some(p) => p,
            None => return (camera, false),
        };
        if !p.contains(crate::geometry::Position { x: position.0, y: position.1 }) {
            return (camera, false);
        }
        let started = !self.engaged;
        if !self.engaged {
            let dc = if position.0 >= origin.0 {
                position.0 - origin.0
            } else {
                origin.0 - position.0
            };
            let dr = if position.1 >= origin.1 {
                position.1 - origin.1
            } else {
                origin.1 - position.1
            };
            let travelled = if dc >= dr {
                dc
            } else {
                dr
            };
            if (travelled as i32) < CLICK_SLOP {
                return (camera, false);
            }
            self.engaged = true;
        }
        let prev = match self.last {
            Some(l) => l,
            None => origin,
        };
        let dcol = position.0 as i64 - prev.0 as i64;
        let drow = position.1 as i64 - prev.1 as i64;
        self.last = Some(position);
        if dcol == 0 && drow == 0 {
            return (camera, started);
        }
        let total = self.carry as i64 + dcol;
        let shift = if total >= 0 {
            total / 2
        } else {
            -((1 - total) / 2)
        };
        assert(shift == tile_shift(self.carry as int, dcol as int)) by {
            if total < 0 {
                assert(((1 - total) / 2) * 2 <= 1 - total);
            }
        }
        self.carry = (total - shift * 2) as i32;
        let width = map.0 as i64;
        let moved_x = camera.0 as i64 - shift;
        let wrapped = moved_x % width;
        let new_x = if wrapped < 0 {
            wrapped + width
        } else {
            wrapped
        };
        assert(new_x == (camera.0 - shift) % (map.0 as int)) by {
            lemma_wrap_column(camera.0 as int, shift as int, map.0 as int);
        }
        let rows = p.height as usize;
        let lowest = if map.1 > rows {
            map.1 - rows
        } else {
            0
        };
        let raw_y = camera.1 as i64 - drow;
        let new_y = if raw_y < 0 {
            0
        } else if raw_y > lowest as i64 {
            lowest as i64
        } else {
            raw_y
        };
        ((new_x as usize, new_y as usize), started)
    }

    /// The button came up. A press that never travelled past the slop is a
    /// click on the cell where it was pressed; a drag ends with no click.
    /// Either way the gesture is over.
    pub fn release(&mut self) -> (click: Option<(u16, u16)>)
        ensures
            click == (if old(self).engaged {
                None
            } else {
                old(self).origin
            }),
            *final(self) == Gesture::idle(),
    {
        let origin = self.origin;
        let engaged = self.engaged;
        self.origin = None;
        self.last = None;
        self.carry = 0;
        self.engaged = false;
        if engaged {
            None
        } else {
            origin
        }
    }

    /// No button held.
    pub open spec fn idle() -> Gesture {
        Gesture { origin: None, last: None, carry: 0, engaged: false }
    }
}

/// The remainder of a camera column moved west, computed with machine
/// division that truncates toward zero.
pub(crate) proof fn lemma_wrap_column(x: int, shift: int, m: int)
    requires
        0 < m,
    ensures
        ({
            let v = x - shift;
            let t = if v >= 0 {
                v % m
            } else {
                -((-v) % m)
            };
            (if t < 0 {
                t + m
            } else {
                t
            }) == v % m
        }),
{
    let v = x - shift;
    if v < 0 {
        let r = (-v) % m;
        if r == 0 {
            lemma_negative_mod(0, -v, m);
        } else {
            lemma_negative_mod(0, -v, m);
        }
    }
}

/// A press on the pane released without moving is a click on the pressed
/// cell.
pub proof fn lemma_press_release_clicks(position: (u16, u16), pane: Rect)
    requires
        pane.holds(position.0 as int, position.1 as int),
    ensures
        ({
            let g = Gesture { origin: Some(position), last: Some(position), carry: 0, engaged: false };
            !g.engaged && g.origin == Some(position)
        }),
{
}

/// Pointer jitter within the slop leaves the gesture and the camera alone,
/// so the press can still end as a click.
pub proof fn lemma_jitter_is_not_a_drag(
    g: Gesture,
    position: (u16, u16),
    pane: Option<Rect>,
    camera: (usize, usize),
    map: (usize, usize),
)
    requires
        !g.engaged,
        g.origin matches Some(o) && travel(position, o) < CLICK_SLOP,
    ensures
        dragged(g, position, pane, camera, map) == (g, (camera.0 as int, camera.1 as int), false),
{
}

/// Once a gesture has become a drag it stays one until release, and the
/// camera it reports stays on the map: a map column, and a row no lower than
/// the pane allows.
pub proof fn lemma_drag_keeps_camera_on_map(
    g: Gesture,
    position: (u16, u16),
    pane: Option<Rect>,
    camera: (usize, usize),
    map: (usize, usize),
)
    requires
        g.origin is Some,
        pane_holds(pane, position),
        drag_fits(g, position, pane, camera, map),
        g.engaged || travel(position, g.origin.unwrap()) >= CLICK_SLOP,
        previous_cell(g, g.origin.unwrap()) != position,
        camera.0 < map.0,
        camera.1 <= lowest_row(map.1 as int, pane.unwrap().height as int),
    ensures
        ({
            let after = dragged(g, position, pane, camera, map);
            &&& after.0.engaged
            &&& 0 <= after.1.0 < map.0
            &&& 0 <= after.1.1 <= lowest_row(map.1 as int, pane.unwrap().height as int)
            &&& 0 <= after.0.carry <= 1
        }),
{
}

} // verus!
