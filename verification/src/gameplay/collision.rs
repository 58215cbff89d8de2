//! Collision tests: a circle against an axis-aligned rectangle, the player
//! against the pipes, and the player against the edges of the field.
//!
//! A rectangle is given by its centre and its full width and height, so its
//! edges may fall between two sub-units. The tests therefore work on doubled
//! coordinates, in which every edge is a whole number.

use vstd::prelude::*;
use crate::units::clamp;
use crate::window::WindowInfo;
use crate::gameplay::pipes::Pipe;
use crate::gameplay::player::Player;
use crate::gameplay::{PIPE_HEIGHT_SCALED, PIPE_WIDTH_SCALED, PLAYER_COLLISION_RADIUS_FACTORED};

verus! {

/// Twice the signed distance, along one axis, from `c` to the nearest
/// coordinate of the interval of length `extent` around `middle`. Zero when
/// `c` lies in the interval.
pub open spec fn doubled_gap(c: int, middle: int, extent: int) -> int {
    2 * c - clamp(2 * c, 2 * middle - extent, 2 * middle + extent)
}

/// Whether the circle around `(circle_x, circle_y)` reaches into the
/// rectangle around `(rectangle_x, rectangle_y)`: whether the point of the
/// rectangle nearest to the circle's centre is closer to it than the radius.
/// A circle that only touches the rectangle does not reach into it.
pub open spec fn circle_meets_rectangle(
    circle_x: int,
    circle_y: int,
    circle_radius: int,
    rectangle_x: int,
    rectangle_y: int,
    rectangle_width: int,
    rectangle_height: int,
) -> bool {
    let dx = doubled_gap(circle_x, rectangle_x, rectangle_width);
    let dy = doubled_gap(circle_y, rectangle_y, rectangle_height);
    dx * dx + dy * dy < (2 * circle_radius) * (2 * circle_radius)
}

/// Whether the player's circle reaches into `pipe`.
pub open spec fn player_meets_pipe(player: Player, pipe: Pipe) -> bool {
    circle_meets_rectangle(
        player.x as int,
        player.y as int,
        PLAYER_COLLISION_RADIUS_FACTORED as int,
        pipe.x as int,
        pipe.y as int,
        PIPE_WIDTH_SCALED as int,
        PIPE_HEIGHT_SCALED as int,
    )
}

/// Whether the player's circle reaches into any of the pipes.
pub open spec fn player_meets_pipes(player: Player, pipes: Seq<Pipe>) -> bool {
    exists|i: int| 0 <= i < pipes.len() && player_meets_pipe(player, #[trigger] pipes[i])
}

/// Whether the player's centre is on or beyond the bottom or the top edge of
/// the field.
pub open spec fn player_leaves_screen(player: Player, window: WindowInfo) -> bool {
    player.y <= window.min_y() || player.y >= window.max_y()
}

/// Whether the horizontal extents of circle and rectangle are apart or only
/// touch.
pub open spec fn extents_apart(
    circle_x: int,
    circle_radius: int,
    rectangle_x: int,
    rectangle_width: int,
) -> bool {
    let between = 2 * circle_x - 2 * rectangle_x;
    between >= rectangle_width + 2 * circle_radius || -between >= rectangle_width + 2
        * circle_radius
}

proof fn lemma_square_order(a: int, b: int)
    by (nonlinear_arith)
    requires
        0 <= a <= b,
    ensures
        a * a <= b * b,
        0 <= a * a,
{
}

proof fn lemma_square_even(a: int)
    by (nonlinear_arith)
    ensures
        a * a == (-a) * (-a),
        0 <= a * a,
{
}

proof fn lemma_scaled_square(n: int, d: int)
    by (nonlinear_arith)
    ensures
        (n * d) * (n * d) == n * n * (d * d),
{
}

/// A gap of at least the radius along one axis keeps circle and rectangle
/// from meeting.
proof fn lemma_wide_gap_misses(dx: int, dy: int, reach: int)
    requires
        0 <= reach,
        dx >= reach || -dx >= reach,
    ensures
        !(dx * dx + dy * dy < reach * reach),
{
    lemma_square_even(dx);
    lemma_square_even(dy);
    if dx >= reach {
        lemma_square_order(reach, dx);
    } else {
        lemma_square_order(reach, -dx);
    }
}

/// Circles whose horizontal extent is apart from a rectangle's do not meet
/// it, whatever their heights.
pub proof fn lemma_extents_apart_miss(
    circle_x: int,
    circle_y: int,
    circle_radius: int,
    rectangle_x: int,
    rectangle_y: int,
    rectangle_width: int,
    rectangle_height: int,
)
    requires
        0 <= circle_radius,
        0 <= rectangle_width,
        extents_apart(circle_x, circle_radius, rectangle_x, rectangle_width),
    ensures
        !circle_meets_rectangle(
            circle_x,
            circle_y,
            circle_radius,
            rectangle_x,
            rectangle_y,
            rectangle_width,
            rectangle_height,
        ),
{
    let dx = doubled_gap(circle_x, rectangle_x, rectangle_width);
    let dy = doubled_gap(circle_y, rectangle_y, rectangle_height);
    lemma_wide_gap_misses(dx, dy, 2 * circle_radius);
}

/// Along one axis, no point of an interval is nearer to `c` than the point
/// that [`doubled_gap`] measures to. The point is given as a fraction:
/// `point / (2 * scale)` with `scale` positive, so that the statement covers
/// every rational coordinate.
pub proof fn lemma_gap_is_least(c: int, middle: int, extent: int, scale: int, point: int)
    requires
        0 <= extent,
        0 < scale,
        scale * (2 * middle - extent) <= point <= scale * (2 * middle + extent),
    ensures
        scale * scale * (doubled_gap(c, middle, extent) * doubled_gap(c, middle, extent)) <= (2
            * scale * c - point) * (2 * scale * c - point),
{
    let gap = doubled_gap(c, middle, extent);
    let to_point = 2 * scale * c - point;
    lemma_scaled_square(scale, gap);
    lemma_square_even(scale * gap);
    lemma_square_even(to_point);
    assert(scale * (2 * c) == 2 * scale * c) by (nonlinear_arith);
    if 2 * c > 2 * middle + extent {
        assert(scale * gap == scale * (2 * c) - scale * (2 * middle + extent))
            by (nonlinear_arith)
            requires
                gap == 2 * c - (2 * middle + extent),
        ;
        assert(0 <= scale * gap) by (nonlinear_arith)
            requires
                0 < scale,
                0 < gap,
        ;
        lemma_square_order(scale * gap, to_point);
    } else if 2 * c < 2 * middle - extent {
        assert(-(scale * gap) == scale * (2 * middle - extent) - scale * (2 * c))
            by (nonlinear_arith)
            requires
                gap == 2 * c - (2 * middle - extent),
        ;
        assert(0 <= -(scale * gap)) by (nonlinear_arith)
            requires
                0 < scale,
                gap < 0,
        ;
        lemma_square_order(-(scale * gap), -to_point);
    } else {
        assert(gap == 0);
        assert(scale * scale * (gap * gap) == 0) by (nonlinear_arith)
            requires
                gap == 0,
        ;
    }
}

/// The point that the collision test measures to lies in the rectangle, and
/// no point of the rectangle is nearer to the circle's centre. Points are
/// given as fractions `(point_x / (2 * scale), point_y / (2 * scale))`, which
/// covers every point with rational coordinates. So the test compares the
/// least distance between centre and rectangle with the radius.
pub proof fn lemma_collision_measures_least_distance(
    circle_x: int,
    circle_y: int,
    rectangle_x: int,
    rectangle_y: int,
    rectangle_width: int,
    rectangle_height: int,
    scale: int,
    point_x: int,
    point_y: int,
)
    requires
        0 <= rectangle_width,
        0 <= rectangle_height,
        0 < scale,
        scale * (2 * rectangle_x - rectangle_width) <= point_x <= scale * (2 * rectangle_x
            + rectangle_width),
        scale * (2 * rectangle_y - rectangle_height) <= point_y <= scale * (2 * rectangle_y
            + rectangle_height),
    ensures
        ({
            let dx = doubled_gap(circle_x, rectangle_x, rectangle_width);
            let dy = doubled_gap(circle_y, rectangle_y, rectangle_height);
            let nearest_x = 2 * circle_x - dx;
            let nearest_y = 2 * circle_y - dy;
            &&& 2 * rectangle_x - rectangle_width <= nearest_x <= 2 * rectangle_x
                + rectangle_width
            &&& 2 * rectangle_y - rectangle_height <= nearest_y <= 2 * rectangle_y
                + rectangle_height
            &&& scale * scale * (dx * dx + dy * dy) <= (2 * scale * circle_x - point_x) * (2
                * scale * circle_x - point_x) + (2 * scale * circle_y - point_y) * (2 * scale
                * circle_y - point_y)
        }),
{
    let dx = doubled_gap(circle_x, rectangle_x, rectangle_width);
    let dy = doubled_gap(circle_y, rectangle_y, rectangle_height);
    lemma_gap_is_least(circle_x, rectangle_x, rectangle_width, scale, point_x);
    lemma_gap_is_least(circle_y, rectangle_y, rectangle_height, scale, point_y);
    assert(scale * scale * (dx * dx + dy * dy) == scale * scale * (dx * dx) + scale * scale * (dy
        * dy)) by (nonlinear_arith);
}

/// A circle that has its centre inside the rectangle reaches into it, unless
/// its radius is zero.
pub proof fn lemma_centre_inside_meets(
    circle_x: int,
    circle_y: int,
    circle_radius: int,
    rectangle_x: int,
    rectangle_y: int,
    rectangle_width: int,
    rectangle_height: int,
)
    requires
        0 < circle_radius,
        2 * rectangle_x - rectangle_width <= 2 * circle_x <= 2 * rectangle_x + rectangle_width,
        2 * rectangle_y - rectangle_height <= 2 * circle_y <= 2 * rectangle_y
            + rectangle_height,
    ensures
        circle_meets_rectangle(
            circle_x,
            circle_y,
            circle_radius,
            rectangle_x,
            rectangle_y,
            rectangle_width,
            rectangle_height,
        ),
{
    let dx = doubled_gap(circle_x, rectangle_x, rectangle_width);
    let dy = doubled_gap(circle_y, rectangle_y, rectangle_height);
    assert(dx * dx + dy * dy < (2 * circle_radius) * (2 * circle_radius)) by (nonlinear_arith)
        requires
            0 < circle_radius,
            dx == 0,
            dy == 0,
    ;
}

/// A circle that only touches the rectangle does not reach into it: where
/// the least distance equals the radius, the test fails.
pub proof fn lemma_touching_misses(
    circle_x: int,
    circle_y: int,
    circle_radius: int,
    rectangle_x: int,
    rectangle_y: int,
    rectangle_width: int,
    rectangle_height: int,
)
    requires
        ({
            let dx = doubled_gap(circle_x, rectangle_x, rectangle_width);
            let dy = doubled_gap(circle_y, rectangle_y, rectangle_height);
            dx * dx + dy * dy == (2 * circle_radius) * (2 * circle_radius)
        }),
    ensures
        !circle_meets_rectangle(
            circle_x,
            circle_y,
            circle_radius,
            rectangle_x,
            rectangle_y,
            rectangle_width,
            rectangle_height,
        ),
{
}

/// Twice the distance along one axis from `c` to the interval of length
/// `extent` around `middle`.
fn gap(c: i64, middle: i64, extent: u32) -> (d: i128)
    ensures
        d == doubled_gap(c as int, middle as int, extent as int),
{
    let doubled: i128 = 2 * (c as i128);
    let low: i128 = 2 * (middle as i128) - (extent as i128);
    let high: i128 = 2 * (middle as i128) + (extent as i128);
    if doubled < low {
        doubled - low
    } else if doubled > high {
        doubled - high
    } else {
        0
    }
}

/// Tests a circle against an axis-aligned rectangle given by its centre, its
/// width and its height.
pub fn circle_rectangle_collision(
    circle_x: i64,
    circle_y: i64,
    circle_radius: u32,
    rectangle_x: i64,
    rectangle_y: i64,
    rectangle_width: u32,
    rectangle_height: u32,
) -> (hit: bool)
    ensures
        hit == circle_meets_rectangle(
            circle_x as int,
            circle_y as int,
            circle_radius as int,
            rectangle_x as int,
            rectangle_y as int,
            rectangle_width as int,
            rectangle_height as int,
        ),
{
    let distance_x: i128 = gap(circle_x, rectangle_x, rectangle_width);
    let distance_y: i128 = gap(circle_y, rectangle_y, rectangle_height);
    let reach: i128 = 2 * (circle_radius as i128);
    if distance_x >= reach || -distance_x >= reach {
        proof {
            lemma_wide_gap_misses(distance_x as int, distance_y as int, reach as int);
        }
        return false;
    }
    if distance_y >= reach || -distance_y >= reach {
        proof {
            lemma_wide_gap_misses(distance_y as int, distance_x as int, reach as int);
        }
        return false;
    }
    assert(distance_x * distance_x <= 0x2_0000_0000 * 0x2_0000_0000 && distance_y * distance_y
        <= 0x2_0000_0000 * 0x2_0000_0000 && reach * reach <= 0x2_0000_0000 * 0x2_0000_0000
        && 0 <= distance_x * distance_x && 0 <= distance_y * distance_y) by (nonlinear_arith)
        requires
            -0x2_0000_0000 <= distance_x <= 0x2_0000_0000,
            -0x2_0000_0000 <= distance_y <= 0x2_0000_0000,
            0 <= reach <= 0x2_0000_0000,
    ;
    let distance_squared: i128 = distance_x * distance_x + distance_y * distance_y;
    distance_squared < reach * reach
}

/// Whether the horizontal extents of circle and rectangle are apart, so that
/// the two cannot meet.
fn horizontally_apart(
    circle_x: i64,
    circle_radius: u32,
    rectangle_x: i64,
    rectangle_width: u32,
) -> (apart: bool)
    ensures
        apart == extents_apart(
            circle_x as int,
            circle_radius as int,
            rectangle_x as int,
            rectangle_width as int,
        ),
{
    let between: i128 = 2 * (circle_x as i128) - 2 * (rectangle_x as i128);
    let reach: i128 = (rectangle_width as i128) + 2 * (circle_radius as i128);
    between >= reach || -between >= reach
}

/// Tests the player against every pipe. A pipe whose horizontal extent is
/// apart from the player's is passed over without the full test.
pub fn player_pipe_collision(player: &Player, pipes: &Vec<Pipe>) -> (hit: bool)
    ensures
        hit == player_meets_pipes(*player, pipes@),
{
    let mut i: usize = 0;
    while i < pipes.len()
        invariant
            i <= pipes.len(),
            forall|j: int| 0 <= j < i ==> !player_meets_pipe(*player, #[trigger] pipes[j]),
        decreases pipes.len() - i,
    {
        let pipe: Pipe = pipes[i];
        if horizontally_apart(
            player.x,
            PLAYER_COLLISION_RADIUS_FACTORED,
            pipe.x,
            PIPE_WIDTH_SCALED,
        ) {
            proof {
                lemma_extents_apart_miss(
                    player.x as int,
                    player.y as int,
                    PLAYER_COLLISION_RADIUS_FACTORED as int,
                    pipe.x as int,
                    pipe.y as int,
                    PIPE_WIDTH_SCALED as int,
                    PIPE_HEIGHT_SCALED as int,
                );
            }
        } else if circle_rectangle_collision(
            player.x,
            player.y,
            PLAYER_COLLISION_RADIUS_FACTORED,
            pipe.x,
            pipe.y,
            PIPE_WIDTH_SCALED,
            PIPE_HEIGHT_SCALED,
        ) {
            return true;
        }
        i = i + 1;
    }
    false
}

/// Tests the player against the bottom and the top edge of the field.
pub fn player_screen_collision(player: &Player, window: &WindowInfo) -> (hit: bool)
    ensures
        hit == player_leaves_screen(*player, *window),
{
    player.y <= -(window.half_height as i64) || player.y >= window.half_height as i64
}

} // verus!
