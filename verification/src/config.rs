//! Tuning parameters for the animation.
//!
//! Chances and other fractional parameters are fixed point: a chance is a
//! number of thousandths, so `1000` stands for certainty and `0` for never.
//! A uniform random draw is likewise a value in `[0, CHANCE_SCALE)`, and an
//! event with chance `c` happens exactly when `draw < c`.

use vstd::prelude::*;

verus! {

/// One whole, in thousandths: the denominator of every chance, random draw
/// and other fixed-point fraction in the crate.
pub const CHANCE_SCALE: u32 = 1000;

/// The per-frame tuning parameters.  A value of this type is fixed at
/// startup; only the canvas centre (`cx2`, `cy2`) ever changes afterwards,
/// and only through a resize.
#[derive(Clone, Copy, PartialEq, Eq, Structural, Debug)]
pub struct Opts {
    /// Pixels per unit of path length.
    pub len: u32,
    /// Maximum number of concurrent line agents; the pool never grows past it.
    pub count: usize,
    /// Shortest possible phase duration, in ticks.
    pub base_time: u32,
    /// Width of the random part of a phase duration, in ticks: a fresh
    /// duration lies in `[base_time, base_time + added_time)`.
    pub added_time: u32,
    /// Chance, in thousandths, that a new agent spawns on a frame.
    pub spawn_chance: u32,
    /// Chance, in thousandths, that a step draws an extra spark.
    pub spark_chance: u32,
    /// Largest spark offset from the main point, in pixels.
    pub spark_dist: u32,
    /// Side of the square a spark fills, in pixels.
    pub spark_size: u32,
    /// Base lightness of a drawn point, in percent.
    pub base_light: u32,
    /// Amplitude of the lightness oscillation, in percent.
    pub added_light: u32,
    /// Shadow blur per unit of phase progress, in pixels.
    pub shadow_to_time_prop_mult: u32,
    /// Canvas centre x, in half pixels (twice the pixel coordinate).
    pub cx2: u32,
    /// Canvas centre y, in half pixels.
    pub cy2: u32,
    /// Opacity of the per-frame fading repaint, in thousandths.
    pub repaint_alpha: u32,
    /// Hue advance per tick, in thousandths of a degree.
    pub hue_change: u32,
}

impl Opts {
    /// Every chance is a genuine fraction: at most one whole.
    pub open spec fn wf(self) -> bool {
        &&& self.spawn_chance <= CHANCE_SCALE
        &&& self.spark_chance <= CHANCE_SCALE
        &&& self.repaint_alpha <= CHANCE_SCALE
    }

    /// The startup defaults, centred on the origin.
    pub open spec fn spec_default() -> Opts {
        Opts {
            len: 20,
            count: 300,
            base_time: 10,
            added_time: 10,
            spawn_chance: 1000,
            spark_chance: 100,
            spark_dist: 10,
            spark_size: 2,
            base_light: 50,
            added_light: 10,
            shadow_to_time_prop_mult: 6,
            cx2: 0,
            cy2: 0,
            repaint_alpha: 40,
            hue_change: 100,
        }
    }
}

impl Default for Opts {
    /// The documented startup defaults: a spawn chance of one, a spark
    /// chance of a tenth, a four-hundredths repaint fade, a tenth of a
    /// degree of hue per tick, and the centre left at the origin.
    fn default() -> (r: Opts)
        ensures
            r == Opts::spec_default(),
            r.wf(),
    {
        Opts {
            len: 20,
            count: 300,
            base_time: 10,
            added_time: 10,
            spawn_chance: 1000,
            spark_chance: 100,
            spark_dist: 10,
            spark_size: 2,
            base_light: 50,
            added_light: 10,
            shadow_to_time_prop_mult: 6,
            cx2: 0,
            cy2: 0,
            repaint_alpha: 40,
            hue_change: 100,
        }
    }
}

} // verus!
