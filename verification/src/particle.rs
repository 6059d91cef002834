//! The particle simulation: a fixed population of particles whose vertical
//! speed is driven by sampling the brightness grid, wrapping from the
//! bottom edge back to the top.
//!
//! All positions and speeds are in milli-units. A particle falls by
//! `2500 - speed + bias` milli-pixels per tick, so darker cells (smaller
//! `speed`) make it fall faster: the grid is an inverse speed field.

use crate::brightness::BRIGHTNESS_MAX_MIL;
use crate::brightness::BrightnessGrid;
use crate::brightness::grid_wf;
use crate::dims_ok;
use crate::rng::rand_below;
use vstd::prelude::*;

verus! {

/// Largest per-tick fall distance in milli-units: `2500 - 0 + 499`.
pub const MOVEMENT_MAX_MIL: u64 = 2999;

/// One particle. Positions are in milli-pixels; `x_mil`, `bias_mil` and
/// `radius_mil` are fixed at creation, `y_mil` and `speed_mil` evolve.
#[derive(Clone, Copy, PartialEq, Eq, Structural, Debug)]
pub struct Particle {
    pub x_mil: u64,
    pub y_mil: u64,
    pub bias_mil: u64,
    pub radius_mil: u64,
    pub speed_mil: u64,
}

impl Particle {
    /// Validity against a surface of the given pixel dimensions.
    pub open spec fn wf(self, width: nat, height: nat) -> bool {
        &&& self.x_mil < width * 1000
        &&& self.y_mil < height * 1000
        &&& self.bias_mil < 500
        &&& 1000 <= self.radius_mil < 2000
        &&& self.speed_mil <= BRIGHTNESS_MAX_MIL
    }

    /// A fresh particle: `x` uniform in `[0, width)`, `y = 0`, vertical bias
    /// uniform in `[0, 0.5)`, render radius uniform in `[1, 2)`.
    pub fn new(width: usize, height: usize) -> (p: Particle)
        requires
            dims_ok(width as nat, height as nat),
        ensures
            p.wf(width as nat, height as nat),
            p.y_mil == 0,
            p.speed_mil == 0,
    {
        let x_mil = rand_below((width as u64) * 1000);
        let bias_mil = rand_below(500);
        let radius_mil = 1000 + rand_below(1000);
        Particle { x_mil, y_mil: 0, bias_mil, radius_mil, speed_mil: 0 }
    }

    /// One tick: sample the grid at the current cell, then fall by
    /// `2500 - speed + bias` milli-pixels, wrapping to the top edge.
    pub fn update(&mut self, grid: &BrightnessGrid, width: usize, height: usize)
        requires
            dims_ok(width as nat, height as nat),
            old(self).wf(width as nat, height as nat),
            grid.wf(width as nat, height as nat),
        ensures
            *final(self) == step_spec(*old(self), grid@),
            final(self).wf(width as nat, height as nat),
    {
        proof {
            assert(self.y_mil / 1000 < height as u64) by (nonlinear_arith)
                requires self.y_mil < (height as nat) * 1000;
            assert(self.x_mil / 1000 < width as u64) by (nonlinear_arith)
                requires self.x_mil < (width as nat) * 1000;
        }
        let row = (self.y_mil / 1000) as usize;
        let col = (self.x_mil / 1000) as usize;
        let speed = grid.sample(col, row, width, height);
        self.speed_mil = speed;
        self.y_mil = advance_y_mil(self.y_mil, (2500 - speed) + self.bias_mil, height);
    }
}

/// The wrap rule: a particle at `y_mil` falling by `movement_mil` lands at
/// `y_mil + movement_mil`, except that reaching the bottom edge resets it
/// to the top.
pub fn advance_y_mil(y_mil: u64, movement_mil: u64, height: usize) -> (r: u64)
    requires
        dims_ok(1, height as nat),
        y_mil < (height as nat) * 1000,
        movement_mil <= MOVEMENT_MAX_MIL,
    ensures
        r == (if y_mil + movement_mil >= (height as nat) * 1000 {
            0int
        } else {
            y_mil + movement_mil
        }),
        r < (height as nat) * 1000,
{
    let moved = y_mil + movement_mil;
    if moved >= (height as u64) * 1000 {
        0
    } else {
        moved
    }
}

/// The particle a tick turns `p` into, against a grid whose row count is
/// the surface height: the sampled speed is recorded, `y` falls by
/// `2500 - speed + bias` and wraps to `0` past the bottom edge, and
/// everything else is untouched.
pub open spec fn step_spec(p: Particle, grid: Seq<Seq<u64>>) -> Particle {
    let speed = grid[p.y_mil as int / 1000][p.x_mil as int / 1000];
    let moved = p.y_mil + movement_spec(speed, p.bias_mil);
    Particle {
        x_mil: p.x_mil,
        y_mil: (if moved >= grid.len() * 1000 {
            0
        } else {
            moved
        }) as u64,
        bias_mil: p.bias_mil,
        radius_mil: p.radius_mil,
        speed_mil: speed,
    }
}

/// The wrap invariant: a tick never moves a particle out of `[0, height)`,
/// and never moves it sideways — `x`, bias and radius are exactly as at
/// creation.
pub proof fn lemma_step_in_bounds(p: Particle, grid: Seq<Seq<u64>>, width: nat, height: nat)
    requires
        p.wf(width, height),
        grid_wf(grid, width, height),
        dims_ok(width, height),
    ensures
        step_spec(p, grid).wf(width, height),
        step_spec(p, grid).y_mil < height * 1000,
        step_spec(p, grid).x_mil == p.x_mil,
        step_spec(p, grid).bias_mil == p.bias_mil,
        step_spec(p, grid).radius_mil == p.radius_mil,
{
    assert(p.y_mil as int / 1000 < height) by (nonlinear_arith)
        requires p.y_mil < height * 1000;
    assert(p.x_mil as int / 1000 < width) by (nonlinear_arith)
        requires p.x_mil < width * 1000;
}

/// The inverse-speed law: over a uniformly dark grid a particle falls by
/// exactly `2500 + bias` milli-pixels per tick, strictly farther than under
/// any positive brightness at its cell.
pub proof fn lemma_darker_falls_faster(bias_mil: u64, speed_mil: u64)
    requires
        bias_mil < 500,
        0 < speed_mil <= BRIGHTNESS_MAX_MIL,
    ensures
        movement_spec(0, bias_mil) == 2500 + bias_mil,
        movement_spec(speed_mil, bias_mil) < movement_spec(0, bias_mil),
        movement_spec(speed_mil, bias_mil) >= 41,
{
}

/// Per-tick fall distance in milli-units for a sampled speed and a fixed
/// bias.
pub open spec fn movement_spec(speed_mil: u64, bias_mil: u64) -> int {
    2500 - speed_mil + bias_mil
}

/// The fixed-size particle population of one animation instance.
pub struct ParticleField {
    pub particles: Vec<Particle>,
    pub width: usize,
    pub height: usize,
}

impl ParticleField {
    pub open spec fn wf(self) -> bool {
        &&& dims_ok(self.width as nat, self.height as nat)
        &&& forall|i: int|
            0 <= i < self.particles@.len() ==> (#[trigger] self.particles@[i]).wf(
                self.width as nat,
                self.height as nat,
            )
    }

    /// A population of `count` fresh particles along the top edge.
    pub fn new(width: usize, height: usize, count: usize) -> (field: ParticleField)
        requires
            dims_ok(width as nat, height as nat),
        ensures
            field.wf(),
            field.width == width,
            field.height == height,
            field.particles@.len() == count,
            forall|i: int|
                0 <= i < count ==> (#[trigger] field.particles@[i]).y_mil == 0
                    && field.particles@[i].speed_mil == 0,
    {
        let mut particles: Vec<Particle> = Vec::new();
        let mut i: usize = 0;
        while i < count
            invariant
                i <= count,
                dims_ok(width as nat, height as nat),
                particles@.len() == i,
                forall|j: int|
                    0 <= j < i ==> (#[trigger] particles@[j]).wf(width as nat, height as nat)
                        && particles@[j].y_mil == 0 && particles@[j].speed_mil == 0,
            decreases count - i,
        {
            let p = Particle::new(width, height);
            particles.push(p);
            i = i + 1;
        }
        ParticleField { particles, width, height }
    }

    /// One tick over the whole population: every particle takes exactly one
    /// step against the grid.
    pub fn update(&mut self, grid: &BrightnessGrid)
        requires
            old(self).wf(),
            grid.wf(old(self).width as nat, old(self).height as nat),
        ensures
            final(self).wf(),
            final(self).width == old(self).width,
            final(self).height == old(self).height,
            final(self).particles@.len() == old(self).particles@.len(),
            forall|i: int|
                0 <= i < old(self).particles@.len() ==> #[trigger] final(self).particles@[i]
                    == step_spec(old(self).particles@[i], grid@),
    {
        let ghost before = self.particles@;
        let mut stepped: Vec<Particle> = Vec::new();
        let count = self.particles.len();
        let mut i: usize = 0;
        while i < count
            invariant
                i <= count,
                dims_ok(self.width as nat, self.height as nat),
                self == old(self),
                count == before.len(),
                before == self.particles@,
                grid.wf(self.width as nat, self.height as nat),
                forall|j: int|
                    0 <= j < count ==> (#[trigger] before[j]).wf(
                        self.width as nat,
                        self.height as nat,
                    ),
                stepped@.len() == i,
                forall|j: int|
                    0 <= j < i ==> #[trigger] stepped@[j] == step_spec(before[j], grid@),
                forall|j: int|
                    0 <= j < i ==> (#[trigger] stepped@[j]).wf(
                        self.width as nat,
                        self.height as nat,
                    ),
            decreases count - i,
        {
            let mut p = self.particles[i];
            p.update(grid, self.width, self.height);
            stepped.push(p);
            i = i + 1;
        }
        self.particles = stepped;
    }
}

} // verus!
