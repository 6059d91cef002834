//! The animation loop and its controller: a state machine that primes on
//! the raster source, computes the brightness field once, and then ticks
//! the particle population, emitting one paint plan per frame.
//!
//! The host runs the loop: it performs the raster step and hands back the
//! outcome, and on every refresh calls `tick` and paints the returned plan.

use crate::brightness::BrightnessGrid;
use crate::brightness::grid_of;
use crate::dims_ok;
use crate::particle::Particle;
use crate::particle::ParticleField;
use crate::particle::step_spec;
use crate::source::RasterSource;
use crate::source::SourceError;
use vstd::prelude::*;

verus! {

/// One filled circle to paint: position and radius in milli-pixels, opacity
/// in milli-units (1000 = fully opaque).
#[derive(Clone, Copy, PartialEq, Eq, Structural, Debug)]
pub struct CircleCmd {
    pub x_mil: u64,
    pub y_mil: u64,
    pub radius_mil: u64,
    pub opacity_mil: u64,
}

/// The circle a particle paints as: its position and radius, with opacity
/// proportional to its last sampled speed.
pub open spec fn circle_of(p: Particle, scale_mil: u64) -> CircleCmd {
    CircleCmd {
        x_mil: p.x_mil,
        y_mil: p.y_mil,
        radius_mil: p.radius_mil,
        opacity_mil: (p.speed_mil * scale_mil / 1000) as u64,
    }
}

/// One frame's paint work: a low-opacity full-surface trail fill, then one
/// circle per particle.
pub struct FramePlan {
    pub trail_opacity_mil: u64,
    pub circles: Vec<CircleCmd>,
}

/// Per-instance configuration, fixed for the instance's lifetime.
pub struct EffectConfig {
    pub width: usize,
    pub height: usize,
    pub particle_count: usize,
    /// Opacity of the per-frame full-surface fill that fades old trails.
    pub trail_opacity_mil: u64,
    /// Multiplier from a particle's sampled speed to its paint opacity.
    pub particle_opacity_scale_mil: u64,
    /// Fill colour of the trail fill, as the surface understands it.
    pub background_color: String,
    pub source: RasterSource,
}

impl EffectConfig {
    pub open spec fn wf(&self) -> bool {
        &&& dims_ok(self.width as nat, self.height as nat)
        &&& 0 < self.particle_count
        &&& self.trail_opacity_mil <= 1000
        &&& self.particle_opacity_scale_mil <= 1000
    }
}

/// The loop's phase: priming until the raster source resolves, then running
/// forever, or halted for good on a raster failure.
pub enum LoopState {
    Priming,
    Running { grid: BrightnessGrid, field: ParticleField },
    Halted { error: SourceError },
}

/// One animation instance: sequences the raster step, the brightness field
/// and the particle population, and plans each frame.
pub struct EffectController {
    pub config: EffectConfig,
    pub state: LoopState,
}

impl EffectController {
    pub open spec fn wf(&self) -> bool {
        &&& self.config.wf()
        &&& match self.state {
            LoopState::Running { grid, field } => {
                &&& grid.wf(self.config.width as nat, self.config.height as nat)
                &&& field.wf()
                &&& field.width == self.config.width
                &&& field.height == self.config.height
            },
            _ => true,
        }
    }

    /// A fresh instance, priming: nothing is painted until the raster
    /// source resolves.
    pub fn new(config: EffectConfig) -> (c: EffectController)
        requires
            config.wf(),
        ensures
            c.wf(),
            c.config == config,
            c.state is Priming,
    {
        EffectController { config, state: LoopState::Priming }
    }

    /// The raster source's resolution. A buffer of the surface's exact
    /// dimensions starts the loop: the brightness grid is computed from it
    /// and a fresh particle population is created. Any failure halts the
    /// instance for good.
    pub fn on_source(&mut self, outcome: Result<Vec<u8>, SourceError>)
        requires
            old(self).wf(),
            old(self).state is Priming,
            outcome matches Ok(buffer) ==> buffer@.len() == 4 * old(self).config.width * old(
                self,
            ).config.height,
        ensures
            final(self).wf(),
            final(self).config == old(self).config,
            match outcome {
                Ok(buffer) => (final(self).state matches LoopState::Running { grid, field }
                    && grid@ == grid_of(
                    buffer@,
                    old(self).config.width as nat,
                    old(self).config.height as nat,
                ) && field.particles@.len() == old(self).config.particle_count && (forall|i: int|
                    0 <= i < field.particles@.len() ==> (#[trigger] field.particles@[i]).y_mil == 0
                        && field.particles@[i].speed_mil == 0)),
                Err(e) => final(self).state matches LoopState::Halted { error } && error == e,
            },
    {
        match outcome {
            Result::Ok(buffer) => {
                let grid = BrightnessGrid::compute(&buffer, self.config.width, self.config.height);
                let field = ParticleField::new(
                    self.config.width,
                    self.config.height,
                    self.config.particle_count,
                );
                self.state = LoopState::Running { grid, field };
            },
            Result::Err(error) => {
                self.state = LoopState::Halted { error };
            },
        }
    }

    /// One frame. While running, every particle takes one step against the
    /// grid and the plan holds the trail fill and one circle per particle,
    /// its opacity the particle's just-sampled speed times the configured
    /// scale. In any other phase nothing changes and nothing is painted.
    pub fn tick(&mut self) -> (frame: Option<FramePlan>)
        requires
            old(self).wf(),
        ensures
            final(self).wf(),
            final(self).config == old(self).config,
            match frame {
                None => *final(self) == *old(self) && !(old(self).state is Running),
                Some(plan) => (old(self).state matches LoopState::Running { grid: g0, field: f0 }
                    && (final(self).state matches LoopState::Running { grid: g1, field: f1 }
                    && g1 == g0 && f1.particles@.len() == f0.particles@.len() && (forall|i: int|
                    0 <= i < f0.particles@.len() ==> #[trigger] f1.particles@[i] == step_spec(
                        f0.particles@[i],
                        g0@,
                    )) && plan.circles@.len() == f1.particles@.len() && (forall|i: int|
                    0 <= i < f1.particles@.len() ==> #[trigger] plan.circles@[i] == circle_of(
                        f1.particles@[i],
                        old(self).config.particle_opacity_scale_mil,
                    )) && plan.trail_opacity_mil == old(self).config.trail_opacity_mil)),
            },
    {
        let mut state = LoopState::Priming;
        core::mem::swap(&mut state, &mut self.state);
        match state {
            LoopState::Running { grid, mut field } => {
                field.update(&grid);
                let scale = self.config.particle_opacity_scale_mil;
                let mut circles: Vec<CircleCmd> = Vec::new();
                let count = field.particles.len();
                let mut i: usize = 0;
                while i < count
                    invariant
                        i <= count,
                        count == field.particles@.len(),
                        scale <= 1000,
                        field.wf(),
                        circles@.len() == i,
                        forall|j: int|
                            0 <= j < i ==> #[trigger] circles@[j] == circle_of(
                                field.particles@[j],
                                scale,
                            ),
                    decreases count - i,
                {
                    let p = field.particles[i];
                    proof {
                        assert(p.speed_mil * scale <= 2459 * 1000) by (nonlinear_arith)
                            requires p.speed_mil <= 2459, scale <= 1000;
                    }
                    let opacity_mil = p.speed_mil * scale / 1000;
                    circles.push(
                        CircleCmd {
                            x_mil: p.x_mil,
                            y_mil: p.y_mil,
                            radius_mil: p.radius_mil,
                            opacity_mil,
                        },
                    );
                    i = i + 1;
                }
                let plan = FramePlan { trail_opacity_mil: self.config.trail_opacity_mil, circles };
                self.state = LoopState::Running { grid, field };
                Some(plan)
            },
            other => {
                self.state = other;
                None
            },
        }
    }
}

} // verus!
