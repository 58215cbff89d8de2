//! The pipes: where they start, how they scroll, and how one that has left
//! the field comes back at the front.

use vstd::prelude::*;
use rand::Rng;
use rand::rngs::ThreadRng;
use crate::units::{gain, gained, saturate, saturated};
use crate::window::WindowInfo;
use crate::gameplay::{
    PIPE_AMOUNT, PIPE_CYCLE, PIPE_HALF_WIDTH_SCALED, PIPE_SPACING_SCALED, PIPE_SPEED,
    PIPE_VERTICAL_CENTER, PIPE_VERTICAL_OFFSET, SPRITE_SCALE,
};

verus! {

/// The thread-local generator of `rand`. Nothing is known of its state.
#[verifier::external_type_specification]
#[verifier::external_body]
pub struct ExThreadRng(rand::rngs::ThreadRng);

/// `rand::thread_rng` hands out the generator of the calling thread. Nothing
/// is claimed of it.
pub assume_specification[ rand::thread_rng ]() -> (rng: rand::rngs::ThreadRng);

/// `Rng::gen_range` on the half-open range `low..high`: the value drawn lies
/// in the range, and nothing else is claimed of it. The call panics on an
/// empty range, which the precondition rules out.
#[verifier::external_body]
fn gen_range(rng: &mut ThreadRng, low: i64, high: i64) -> (value: i64)
    requires
        low < high,
    ensures
        low <= value < high,
{
    rng.gen_range(low..high)
}

/// The side of the gap that a pipe closes.
#[derive(Clone, Copy, Debug, PartialEq, Eq, Structural)]
pub enum Direction {
    /// The pipe above the gap.
    Up,
    /// The pipe below the gap.
    Down,
}

impl Direction {
    /// `1` for the pipe above the gap and `-1` for the pipe below it.
    pub open spec fn sign(self) -> int {
        match self {
            Direction::Up => 1,
            Direction::Down => -1,
        }
    }
}

/// One pipe of a pair.
#[derive(Clone, Copy, Debug, PartialEq, Eq, Structural)]
pub struct Pipe {
    /// Horizontal position of the centre, in sub-units.
    pub x: i64,
    /// Vertical position of the centre, in sub-units.
    pub y: i64,
    /// The side of the gap that the pipe closes.
    pub direction: Direction,
    /// Whether the gap beside this pipe has given its point since the pipe
    /// was last placed. Only read on the lower pipe of a pair, and only where
    /// points are given for passing gaps.
    pub scored: bool,
}

/// Whether `y_offset` can come out of [`generate_pipe_offset`]: a multiple of
/// the sprite scale from `-PIPE_VERTICAL_OFFSET * SPRITE_SCALE` up to, not
/// including, `PIPE_VERTICAL_OFFSET * SPRITE_SCALE`.
pub open spec fn is_pipe_offset(y_offset: int) -> bool {
    &&& -(PIPE_VERTICAL_OFFSET * SPRITE_SCALE) <= y_offset < PIPE_VERTICAL_OFFSET * SPRITE_SCALE
    &&& y_offset % (SPRITE_SCALE as int) == 0
}

/// Whether `y_offsets` can come out of [`generate_pipe_offset`] as the middles
/// of the gaps of a fresh field: one for each pair.
pub open spec fn are_pipe_offsets(y_offsets: Seq<i64>) -> bool {
    &&& y_offsets.len() == PIPE_AMOUNT
    &&& forall|i: int| 0 <= i < PIPE_AMOUNT ==> is_pipe_offset(#[trigger] y_offsets[i] as int)
}

/// The height of a pipe's centre when the middle of its gap is at `y_offset`.
pub open spec fn pipe_height(direction: Direction, y_offset: int) -> int {
    saturated(PIPE_VERTICAL_CENTER * direction.sign() + y_offset)
}

/// Whether the right edge of the pipe is left of the field.
pub open spec fn pipe_is_out(pipe: Pipe, window: WindowInfo) -> bool {
    pipe.x + PIPE_HALF_WIDTH_SCALED < window.min_x()
}

/// Whether any of the pipes has left the field.
pub open spec fn any_pipe_is_out(pipes: Seq<Pipe>, window: WindowInfo) -> bool {
    exists|i: int| 0 <= i < pipes.len() && pipe_is_out(#[trigger] pipes[i], window)
}

/// A pipe after a tick of `delta` microseconds. A pipe that had left the
/// field is moved one cycle to the right and to the height that `y_offset`
/// gives, and can give a point again; every pipe moves left with the scroll.
pub open spec fn pipe_after_tick(
    pipe: Pipe,
    window: WindowInfo,
    delta: int,
    y_offset: int,
) -> Pipe {
    let scroll = gain(PIPE_SPEED as int, delta);
    if pipe_is_out(pipe, window) {
        Pipe {
            x: saturated(pipe.x + PIPE_CYCLE - scroll) as i64,
            y: pipe_height(pipe.direction, y_offset) as i64,
            direction: pipe.direction,
            scored: false,
        }
    } else {
        Pipe { x: saturated(pipe.x - scroll) as i64, ..pipe }
    }
}

/// All pipes after a tick of `delta` microseconds, with one `y_offset` for
/// every pipe that is moved back to the front.
pub open spec fn pipes_after_tick(
    pipes: Seq<Pipe>,
    window: WindowInfo,
    delta: int,
    y_offset: int,
) -> Seq<Pipe> {
    Seq::new(pipes.len(), |i: int| pipe_after_tick(pipes[i], window, delta, y_offset))
}

/// The `k`-th pipe of a fresh field: pair `k / 2`, the upper pipe first. The
/// first pair stands half the field's width right of the origin and each
/// further pair one spacing further right; `y_offsets` gives the middle of
/// each pair's gap.
pub open spec fn spawned_pipe(window: WindowInfo, y_offsets: Seq<i64>, k: int) -> Pipe {
    let direction = if k % 2 == 0 {
        Direction::Up
    } else {
        Direction::Down
    };
    Pipe {
        x: (window.max_x() + PIPE_SPACING_SCALED * (k / 2)) as i64,
        y: pipe_height(direction, y_offsets[k / 2] as int) as i64,
        direction,
        scored: false,
    }
}

/// A fresh field of `2 * PIPE_AMOUNT` pipes.
pub open spec fn spawned_pipes(window: WindowInfo, y_offsets: Seq<i64>) -> Seq<Pipe> {
    Seq::new((2 * PIPE_AMOUNT) as nat, |k: int| spawned_pipe(window, y_offsets, k))
}

impl Pipe {
    /// A pipe at `(x, y)` that has not given a point.
    pub fn new(x: i64, y: i64, direction: Direction) -> (pipe: Pipe)
        ensures
            pipe == (Pipe { x, y, direction, scored: false }),
    {
        Pipe { x, y, direction, scored: false }
    }
}

/// Draws the middle of a gap from `rand`.
pub fn generate_pipe_offset(rand: &mut ThreadRng) -> (y_offset: i64)
    ensures
        is_pipe_offset(y_offset as int),
{
    let drawn: i64 = gen_range(rand, -PIPE_VERTICAL_OFFSET, PIPE_VERTICAL_OFFSET);
    drawn * SPRITE_SCALE
}

/// Computes [`pipe_height`].
pub fn place_pipe(direction: Direction, y_offset: i64) -> (y: i64)
    ensures
        y == pipe_height(direction, y_offset as int),
{
    match direction {
        Direction::Up => saturate(PIPE_VERTICAL_CENTER as i128 + y_offset as i128),
        Direction::Down => saturate(-(PIPE_VERTICAL_CENTER as i128) + y_offset as i128),
    }
}

/// Builds the field for a new run from the middles of the gaps, one for each
/// pair.
pub fn spawn_pipes(window: &WindowInfo, y_offsets: &[i64; PIPE_AMOUNT]) -> (pipes: Vec<Pipe>)
    ensures
        pipes@ == spawned_pipes(*window, y_offsets@),
        pipes.len() == 2 * PIPE_AMOUNT,
{
    let mut pipes: Vec<Pipe> = Vec::new();
    let mut i: usize = 0;
    while i < PIPE_AMOUNT
        invariant
            i <= PIPE_AMOUNT,
            pipes.len() == 2 * i,
            forall|k: int|
                0 <= k < 2 * i ==> #[trigger] pipes[k] == spawned_pipe(*window, y_offsets@, k),
        decreases PIPE_AMOUNT - i,
    {
        let y_offset: i64 = y_offsets[i];
        let x_pos: i64 = window.half_width as i64 + PIPE_SPACING_SCALED * (i as i64);
        pipes.push(Pipe::new(x_pos, place_pipe(Direction::Up, y_offset), Direction::Up));
        pipes.push(Pipe::new(x_pos, place_pipe(Direction::Down, y_offset), Direction::Down));
        i = i + 1;
    }
    assert(pipes@ =~= spawned_pipes(*window, y_offsets@));
    pipes
}

/// Builds the field for a new run with the middle of each pair's gap drawn
/// at random.
pub fn spawn_pipes_random(window: &WindowInfo) -> (pipes: Vec<Pipe>)
    ensures
        pipes.len() == 2 * PIPE_AMOUNT,
        exists|y_offsets: Seq<i64>|
            are_pipe_offsets(y_offsets) && pipes@ == spawned_pipes(*window, y_offsets),
{
    let mut rand: ThreadRng = rand::thread_rng();
    let first: i64 = generate_pipe_offset(&mut rand);
    let second: i64 = generate_pipe_offset(&mut rand);
    let third: i64 = generate_pipe_offset(&mut rand);
    let fourth: i64 = generate_pipe_offset(&mut rand);
    let y_offsets: [i64; PIPE_AMOUNT] = [first, second, third, fourth];
    let pipes = spawn_pipes(window, &y_offsets);
    proof {
        let drawn = y_offsets@;
        assert(drawn[0] == first && drawn[1] == second && drawn[2] == third && drawn[3]
            == fourth);
        assert(are_pipe_offsets(drawn) && pipes@ == spawned_pipes(*window, drawn));
    }
    pipes
}

/// Removes every pipe.
pub fn despawn_pipes(pipes: &mut Vec<Pipe>)
    ensures
        final(pipes)@ == Seq::<Pipe>::empty(),
{
    pipes.clear();
}

/// Whether any pipe has left the field and is due to come back at the front.
pub fn pipes_to_reset(pipes: &Vec<Pipe>, window: &WindowInfo) -> (any: bool)
    ensures
        any == any_pipe_is_out(pipes@, *window),
{
    let mut i: usize = 0;
    while i < pipes.len()
        invariant
            i <= pipes.len(),
            forall|j: int| 0 <= j < i ==> !pipe_is_out(#[trigger] pipes[j], *window),
        decreases pipes.len() - i,
    {
        if pipes[i].x as i128 + (PIPE_HALF_WIDTH_SCALED as i128) < -(window.half_width as i128) {
            return true;
        }
        i = i + 1;
    }
    false
}

/// Advances the pipes by a tick of `delta` microseconds. Every pipe that had
/// left the field comes back one cycle further right with its gap around
/// `y_offset`; then all pipes scroll left. The number of pipes stays.
pub fn update_pipe_transforms(
    pipes: &mut Vec<Pipe>,
    window: &WindowInfo,
    delta: u64,
    y_offset: i64,
)
    ensures
        final(pipes)@ == pipes_after_tick(old(pipes)@, *window, delta as int, y_offset as int),
        final(pipes).len() == old(pipes).len(),
{
    let ghost before = pipes@;
    let scroll: i128 = gained(PIPE_SPEED, delta);
    let mut i: usize = 0;
    while i < pipes.len()
        invariant
            i <= pipes.len(),
            pipes.len() == before.len(),
            scroll == gain(PIPE_SPEED as int, delta as int),
            0 <= scroll <= 0xffff_ffff * 0xffff_ffff_ffff_ffff,
            forall|j: int|
                0 <= j < i ==> #[trigger] pipes[j] == pipe_after_tick(
                    before[j],
                    *window,
                    delta as int,
                    y_offset as int,
                ),
            forall|j: int| i <= j < pipes.len() ==> #[trigger] pipes[j] == before[j],
        decreases pipes.len() - i,
    {
        let pipe: Pipe = pipes[i];
        let moved: Pipe = if pipe.x as i128 + (PIPE_HALF_WIDTH_SCALED as i128) < -(
        window.half_width as i128) {
            Pipe {
                x: saturate(pipe.x as i128 + (PIPE_CYCLE as i128) - scroll),
                y: place_pipe(pipe.direction, y_offset),
                direction: pipe.direction,
                scored: false,
            }
        } else {
            Pipe { x: saturate(pipe.x as i128 - scroll), ..pipe }
        };
        pipes.set(i, moved);
        i = i + 1;
    }
    assert(pipes@ =~= pipes_after_tick(before, *window, delta as int, y_offset as int));
}

/// Advances the pipes by a tick of `delta` microseconds, drawing the new gap
/// at random when a pipe has left the field. One draw serves every pipe that
/// comes back in this tick.
pub fn update_pipe_transforms_random(pipes: &mut Vec<Pipe>, window: &WindowInfo, delta: u64)
    ensures
        final(pipes).len() == old(pipes).len(),
        exists|y_offset: i64|
            is_pipe_offset(y_offset as int) && final(pipes)@ == pipes_after_tick(
                old(pipes)@,
                *window,
                delta as int,
                y_offset as int,
            ),
{
    let y_offset: i64 = if pipes_to_reset(pipes, window) {
        let mut rand: ThreadRng = rand::thread_rng();
        generate_pipe_offset(&mut rand)
    } else {
        0
    };
    update_pipe_transforms(pipes, window, delta, y_offset);
    assert(is_pipe_offset(y_offset as int) && pipes@ == pipes_after_tick(
        old(pipes)@,
        *window,
        delta as int,
        y_offset as int,
    ));
}

/// A pipe that has left the field comes back within the tick: it is moved
/// one cycle to the right, less the scroll of the tick, and stands at the
/// height that its side and `y_offset` give. If the pipe, with that scroll,
/// lies no further left of the field than a cycle is longer than the field
/// is wide, it comes back at or beyond the right edge.
pub proof fn lemma_pipe_comes_back(pipe: Pipe, window: WindowInfo, delta: u64, y_offset: i64)
    requires
        pipe_is_out(pipe, window),
    ensures
        ({
            let after = pipe_after_tick(pipe, window, delta as int, y_offset as int);
            let scroll = gain(PIPE_SPEED as int, delta as int);
            &&& after.direction == pipe.direction
            &&& after.y == saturated(PIPE_VERTICAL_CENTER * pipe.direction.sign() + y_offset)
            &&& after.x == saturated(pipe.x + PIPE_CYCLE - scroll)
            &&& window.min_x() - (pipe.x - scroll) <= PIPE_CYCLE - (window.max_x()
                - window.min_x()) ==> after.x == pipe.x + PIPE_CYCLE - scroll && after.x
                >= window.max_x()
        }),
{
    assert(0 <= gain(PIPE_SPEED as int, delta as int)) by (nonlinear_arith)
        requires
            0 <= PIPE_SPEED,
            0 <= delta,
    ;
}

/// The two pipes of a pair that come back in one tick share one gap: for
/// any `y_offset` that a draw can give, the upper pipe's centre is
/// `PIPE_VERTICAL_CENTER` above `y_offset` and the lower pipe's centre as far
/// below it.
pub proof fn lemma_pair_shares_gap(
    upper: Pipe,
    lower: Pipe,
    window: WindowInfo,
    delta: u64,
    y_offset: i64,
)
    requires
        pipe_is_out(upper, window),
        pipe_is_out(lower, window),
        upper.direction == Direction::Up,
        lower.direction == Direction::Down,
        is_pipe_offset(y_offset as int),
    ensures
        pipe_after_tick(upper, window, delta as int, y_offset as int).y == y_offset
            + PIPE_VERTICAL_CENTER,
        pipe_after_tick(lower, window, delta as int, y_offset as int).y == y_offset
            - PIPE_VERTICAL_CENTER,
        upper.x == lower.x ==> pipe_after_tick(upper, window, delta as int, y_offset as int).x
            == pipe_after_tick(lower, window, delta as int, y_offset as int).x,
{
}

/// A pipe that is still in the field only scrolls: it keeps its height, its
/// side and whether it has given its point.
pub proof fn lemma_pipe_in_field_scrolls(pipe: Pipe, window: WindowInfo, delta: u64, y_offset: i64)
    requires
        !pipe_is_out(pipe, window),
    ensures
        pipe_after_tick(pipe, window, delta as int, y_offset as int) == (Pipe {
            x: saturated(pipe.x - gain(PIPE_SPEED as int, delta as int)) as i64,
            ..pipe
        }),
        delta == 0 ==> pipe_after_tick(pipe, window, delta as int, y_offset as int) == pipe,
{
}

/// Whether the pipe lies no further than `reach` beyond the point at which
/// it counts as having left the field.
pub open spec fn pipe_is_in_reach(pipe: Pipe, window: WindowInfo, reach: int) -> bool {
    pipe.x >= window.min_x() - PIPE_HALF_WIDTH_SCALED - reach
}

/// Every pipe of a fresh field is in reach, whatever the reach.
pub proof fn lemma_spawned_pipe_is_in_reach(
    window: WindowInfo,
    y_offsets: Seq<i64>,
    k: int,
    reach: int,
)
    requires
        0 <= k < 2 * PIPE_AMOUNT,
        0 <= reach,
    ensures
        pipe_is_in_reach(spawned_pipe(window, y_offsets, k), window, reach),
        spawned_pipe(window, y_offsets, k).x >= window.max_x(),
{
}

/// Pipes in reach stay in reach and come back ahead of the field. If no
/// tick scrolls further than `reach`, and a cycle is at least as long as the
/// field is wide, half a pipe and twice the reach together, then a pipe in
/// reach is still in reach after the tick, and one that had left the field
/// comes back at or beyond the right edge.
pub proof fn lemma_pipe_in_reach_comes_back_ahead(
    pipe: Pipe,
    window: WindowInfo,
    delta: u64,
    y_offset: i64,
    reach: int,
)
    requires
        pipe_is_in_reach(pipe, window, reach),
        gain(PIPE_SPEED as int, delta as int) <= reach,
        PIPE_CYCLE >= (window.max_x() - window.min_x()) + PIPE_HALF_WIDTH_SCALED + 2 * reach,
    ensures
        pipe_is_in_reach(
            pipe_after_tick(pipe, window, delta as int, y_offset as int),
            window,
            reach,
        ),
        pipe_is_out(pipe, window) ==> pipe_after_tick(
            pipe,
            window,
            delta as int,
            y_offset as int,
        ).x >= window.max_x(),
{
    assert(0 <= gain(PIPE_SPEED as int, delta as int)) by (nonlinear_arith)
        requires
            0 <= PIPE_SPEED,
            0 <= delta,
    ;
}

} // verus!
