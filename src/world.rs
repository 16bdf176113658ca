use vstd::prelude::*;

verus! {

/// Width of the drawing surface, in pixels.
pub const WIDTH: u32 = 320;

/// Height of the drawing surface, in pixels.
pub const HEIGHT: u32 = 240;

/// Side length of the square box, in pixels.
pub const BOX_SIZE: i16 = 64;

/// The box's position and velocity as mathematical integers.
pub ghost struct BoxState {
    pub x: int,
    pub y: int,
    pub vx: int,
    pub vy: int,
}

/// The velocity on one axis after the bounce check: it is negated when the box
/// sits at or before zero, or when its far edge lies past `extent`.
pub open spec fn reflect(pos: int, vel: int, extent: int, size: int) -> int {
    if pos <= 0 || pos + size > extent {
        -vel
    } else {
        vel
    }
}

/// One tick: each axis checks for a bounce on the position before the move,
/// then moves by the (possibly negated) velocity.
pub open spec fn advance(s: BoxState, width: int, height: int, size: int) -> BoxState {
    let vx = reflect(s.x, s.vx, width, size);
    let vy = reflect(s.y, s.vy, height, size);
    BoxState { x: s.x + vx, y: s.y + vy, vx, vy }
}

/// The state after `n` ticks.
pub open spec fn steps(s: BoxState, n: nat, width: int, height: int, size: int) -> BoxState
    decreases n,
{
    if n == 0 {
        s
    } else {
        advance(steps(s, (n - 1) as nat, width, height, size), width, height, size)
    }
}

/// On one axis: the velocity is a unit step, and both the position and the
/// position one step back lie in `[-1, extent]`.
pub open spec fn within_track(pos: int, vel: int, extent: int) -> bool {
    &&& vel == 1 || vel == -1
    &&& -1 <= pos <= extent
    &&& -1 <= pos - vel <= extent
}

/// One tick keeps an axis on its track.
proof fn lemma_axis_step(pos: int, vel: int, extent: int, size: int)
    requires
        0 < size,
        within_track(pos, vel, extent),
    ensures
        within_track(pos + reflect(pos, vel, extent, size), reflect(pos, vel, extent, size), extent),
{
}

/// Bounded motion: a box of side `size` with `0 < size < min(width, height)`,
/// which starts with unit velocities and with its position, and the position
/// one step back, inside `[-1, width] x [-1, height]`, stays inside that range
/// for any number of ticks.
///
/// A start outside this condition leaves the range at once or within one tick
/// (for instance `x == -1` moving right is bounced to `x == -2`).
pub proof fn lemma_stays_bounded(s: BoxState, width: int, height: int, size: int, n: nat)
    requires
        0 < size,
        size < width,
        size < height,
        within_track(s.x, s.vx, width),
        within_track(s.y, s.vy, height),
    ensures
        -1 <= steps(s, n, width, height, size).x <= width,
        -1 <= steps(s, n, width, height, size).y <= height,
        within_track(steps(s, n, width, height, size).x, steps(s, n, width, height, size).vx, width),
        within_track(steps(s, n, width, height, size).y, steps(s, n, width, height, size).vy, height),
    decreases n,
{
    if n > 0 {
        lemma_stays_bounded(s, width, height, size, (n - 1) as nat);
        let p = steps(s, (n - 1) as nat, width, height, size);
        lemma_axis_step(p.x, p.vx, width, size);
        lemma_axis_step(p.y, p.vy, height, size);
    }
}

/// The simulation state: the box's top-left corner and its velocity, in pixels
/// and pixels per tick.
#[derive(Clone, Copy, Debug, PartialEq, Eq, Structural)]
pub struct World {
    pub box_x: i16,
    pub box_y: i16,
    pub velocity_x: i16,
    pub velocity_y: i16,
}

impl View for World {
    type V = BoxState;

    open spec fn view(&self) -> BoxState {
        BoxState {
            x: self.box_x as int,
            y: self.box_y as int,
            vx: self.velocity_x as int,
            vy: self.velocity_y as int,
        }
    }
}

impl World {
    /// The next tick's velocities and positions all fit in `i16`.
    pub open spec fn can_advance(&self) -> bool {
        let next = advance(self@, WIDTH as int, HEIGHT as int, BOX_SIZE as int);
        &&& self.velocity_x != i16::MIN
        &&& self.velocity_y != i16::MIN
        &&& i16::MIN <= next.x <= i16::MAX
        &&& i16::MIN <= next.y <= i16::MAX
    }

    /// The box is on its track on both axes of the fixed surface.
    pub open spec fn on_track(&self) -> bool {
        &&& within_track(self.box_x as int, self.velocity_x as int, WIDTH as int)
        &&& within_track(self.box_y as int, self.velocity_y as int, HEIGHT as int)
    }

    /// The starting state: the box at `(24, 16)`, moving down and to the right.
    pub fn new() -> (r: World)
        ensures
            r.box_x == 24,
            r.box_y == 16,
            r.velocity_x == 1,
            r.velocity_y == 1,
            r.on_track(),
            r.can_advance(),
    {
        World { box_x: 24, box_y: 16, velocity_x: 1, velocity_y: 1 }
    }

    /// Whether `update` can run on this state without leaving `i16`.
    pub fn fits_next_tick(&self) -> (r: bool)
        ensures
            r == self.can_advance(),
    {
        let vx = self.velocity_x as i32;
        let vy = self.velocity_y as i32;
        let rx = if Self::bounces(self.box_x, WIDTH as i32) { -vx } else { vx };
        let ry = if Self::bounces(self.box_y, HEIGHT as i32) { -vy } else { vy };
        let nx = self.box_x as i32 + rx;
        let ny = self.box_y as i32 + ry;
        self.velocity_x != i16::MIN && self.velocity_y != i16::MIN
            && i16::MIN as i32 <= nx && nx <= i16::MAX as i32
            && i16::MIN as i32 <= ny && ny <= i16::MAX as i32
    }

    /// Whether a box at `pos` bounces on an axis of length `extent`.
    fn bounces(pos: i16, extent: i32) -> (r: bool)
        ensures
            r == (pos <= 0 || pos + BOX_SIZE > extent),
    {
        pos <= 0 || pos as i32 + BOX_SIZE as i32 > extent
    }

    /// Advances the box by one tick, bouncing it off the surface's edges.
    pub fn update(&mut self)
        requires
            old(self).can_advance(),
        ensures
            final(self)@ == advance(old(self)@, WIDTH as int, HEIGHT as int, BOX_SIZE as int),
            old(self).on_track() ==> final(self).on_track() && final(self).can_advance(),
    {
        if Self::bounces(self.box_x, WIDTH as i32) {
            self.velocity_x = -self.velocity_x;
        }
        if Self::bounces(self.box_y, HEIGHT as i32) {
            self.velocity_y = -self.velocity_y;
        }
        self.box_x = self.box_x + self.velocity_x;
        self.box_y = self.box_y + self.velocity_y;
        proof {
            if old(self).on_track() {
                lemma_axis_step(old(self).box_x as int, old(self).velocity_x as int, WIDTH as int, BOX_SIZE as int);
                lemma_axis_step(old(self).box_y as int, old(self).velocity_y as int, HEIGHT as int, BOX_SIZE as int);
            }
        }
    }
}

} // verus!
