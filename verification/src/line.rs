//! One line agent: phase-driven motion on the triangular lattice.
//!
//! An agent moves along a fixed unit vector for one phase, then turns by
//! sixty degrees (a sixth of a turn) to one side or the other and starts the
//! next phase.  Because every heading is a multiple of sixty degrees, the
//! unit vector's components are `cos(k*60deg) in {1, 1/2, -1/2, -1}` and
//! `sin(k*60deg) in {0, sqrt(3)/2, -sqrt(3)/2}`, so the crate stores the x
//! axis in half units and the y axis in units of `sqrt(3)/2`: every
//! coordinate the simulation can reach is then a plain integer, held
//! exactly.
//!
//! A step hands back a [`StepDraw`], the full description of the draw the
//! host should issue: the lattice position and pending direction, the phase
//! clock from which the host derives the eased offset `sin(p * pi/2)`, and
//! the colour inputs.  The host's only work is that float conversion and the
//! canvas call itself.

use vstd::prelude::*;
use vstd::arithmetic::div_mod::lemma_fundamental_div_mod;
use vstd::arithmetic::div_mod::lemma_mod_multiples_vanish;
use vstd::arithmetic::div_mod::lemma_small_mod;

use crate::config::CHANCE_SCALE;
use crate::config::Opts;

verus! {

/// Lifetimes longer than this many ticks are not supported: at sixty frames
/// a second it is still over a billion years, and keeping every counter
/// under it keeps all arithmetic inside the machine types.
pub const LIFE_BOUND: u64 = 0x2000_0000_0000_0000;

/// Lattice coordinates and headings stay within this bound; the walk moves
/// at most one lattice step per tick, so `LIFE_BOUND` ticks cannot leave it.
pub const POS_BOUND: i64 = 0x4000_0000_0000_0000;

/// The uniform random draws one step consumes, supplied by the caller.
/// Draws lie in `[0, CHANCE_SCALE)`; an event with chance `c` happens
/// exactly when its draw is below `c`.  A step that starts no phase and
/// throws no spark simply leaves the corresponding draws unused.
#[derive(Clone, Copy, PartialEq, Eq, Structural, Debug)]
pub struct StepRands {
    /// Draw for the random part of a fresh phase duration.
    pub phase_extra: u32,
    /// Turn direction of a fresh phase: counter-clockwise when true.
    pub turn_positive: bool,
    /// Gate draw compared against the spark chance.
    pub spark_gate: u32,
    /// Draw for the spark's x offset magnitude.
    pub spark_x_mag: u32,
    /// Sign of the spark's x offset: positive when true.
    pub spark_x_pos: bool,
    /// Draw for the spark's y offset magnitude.
    pub spark_y_mag: u32,
    /// Sign of the spark's y offset: positive when true.
    pub spark_y_pos: bool,
}

impl StepRands {
    /// Every draw is a genuine sample of `[0, 1)`.
    pub open spec fn wf(self) -> bool {
        &&& self.phase_extra < CHANCE_SCALE
        &&& self.spark_gate < CHANCE_SCALE
        &&& self.spark_x_mag < CHANCE_SCALE
        &&& self.spark_y_mag < CHANCE_SCALE
    }
}

/// The extra square a step may draw beside the main point.
#[derive(Clone, Copy, PartialEq, Eq, Structural, Debug)]
pub struct SparkOffset {
    /// Offset from the main point's x pixel coordinate, in thousandths of a
    /// pixel.
    pub ox_milli: i64,
    /// Offset from the main point's y pixel coordinate, in thousandths of a
    /// pixel.
    pub oy_milli: i64,
    /// Side of the square to fill, in pixels.
    pub size: u32,
}

/// Everything the host needs to issue the draw calls of one step.
///
/// The main point's pixel position is
/// `(cx2/2 + (x2/2 + (added_x2/2) * w) * len,
///   cy2/2 + (y + added_y * w) * (sqrt(3)/2) * len)`
/// where `w = sin(p * pi/2)` and the progress `p` is `time / target_time`
/// (a finished or degenerate phase, `target_time == 0`, counts as complete,
/// `p == 1`).  Its colour is `hsl(hue_milli/1000, 100%, L%)` with
/// `L = base_light + added_light
///      * sin(cumulative_time * light_input_multiplier / 1000)`,
/// and the shadow blur is `p * shadow_mult`.  A spark, when present, is a
/// square of side `size` at the given offset, same colour, no shadow change.
#[derive(Clone, Copy, PartialEq, Eq, Debug)]
pub struct StepDraw {
    /// Lattice x of the committed path, in half units.
    pub x2: i64,
    /// Lattice y of the committed path, in `sqrt(3)/2` units.
    pub y: i64,
    /// Pending direction x, in half units.
    pub added_x2: i64,
    /// Pending direction y, in `sqrt(3)/2` units.
    pub added_y: i64,
    /// Ticks elapsed in the current phase.
    pub time: u64,
    /// Duration of the current phase, in ticks.
    pub target_time: u64,
    /// Hue of the draw, in thousandths of a degree.
    pub hue_milli: u64,
    /// Lifetime tick count of the agent, after this step.
    pub cumulative_time: u64,
    /// Input rate of the lightness oscillation, in thousandths of a radian
    /// per tick.
    pub light_input_multiplier: u32,
    /// Base lightness, in percent.
    pub base_light: u32,
    /// Lightness oscillation amplitude, in percent.
    pub added_light: u32,
    /// Shadow blur per unit of phase progress, in pixels.
    pub shadow_mult: u32,
    /// Canvas centre x, in half pixels.
    pub cx2: u32,
    /// Canvas centre y, in half pixels.
    pub cy2: u32,
    /// Pixels per unit of path length.
    pub len: u32,
    /// The spark, present exactly when its chance draw fell below the
    /// spark chance.
    pub spark: Option<SparkOffset>,
}

/// The mathematical state of one agent: the lattice coordinates, heading
/// and clocks of [`Line`], free of machine bounds.
pub ghost struct LineModel {
    /// Committed path x, in half units.
    pub x2: int,
    /// Committed path y, in `sqrt(3)/2` units.
    pub y: int,
    /// Pending direction x, in half units.
    pub added_x2: int,
    /// Pending direction y, in `sqrt(3)/2` units.
    pub added_y: int,
    /// Heading index: the heading in sixth turns, reduced modulo six.
    pub dir: int,
    /// Cumulative heading, in sixth turns; grows or shrinks by one per phase.
    pub rad: int,
    /// Input rate of the lightness oscillation, in thousandths of a radian
    /// per tick.
    pub light_input_multiplier: int,
    /// Lifetime tick counter; never reset.
    pub cumulative_time: int,
    /// Ticks elapsed in the current phase.
    pub time: int,
    /// Duration of the current phase, in ticks.
    pub target_time: int,
}

/// `2 * cos(dir * 60deg)` for a heading index in `[0, 6)`.
pub open spec fn dir_x2_of(dir: int) -> int {
    if dir == 0 {
        2
    } else if dir == 1 {
        1
    } else if dir == 2 {
        -1
    } else if dir == 3 {
        -2
    } else if dir == 4 {
        -1
    } else {
        1
    }
}

/// `sin(dir * 60deg) / (sqrt(3)/2)` for a heading index in `[0, 6)`.
pub open spec fn dir_y_of(dir: int) -> int {
    if dir == 0 {
        0
    } else if dir == 1 {
        1
    } else if dir == 2 {
        1
    } else if dir == 3 {
        0
    } else if dir == 4 {
        -1
    } else {
        -1
    }
}

/// The heading index after one sixth-turn to either side.
pub open spec fn turn_of(dir: int, positive: bool) -> int {
    if positive {
        if dir == 5 {
            0
        } else {
            dir + 1
        }
    } else {
        if dir == 0 {
            5
        } else {
            dir - 1
        }
    }
}

/// A fresh phase duration: the base duration plus the random share of the
/// added duration, `added_time * draw / CHANCE_SCALE` rounded down.
pub open spec fn target_of(o: Opts, extra_draw: u32) -> int {
    o.base_time + (o.added_time * extra_draw) / (CHANCE_SCALE as int)
}

impl LineModel {
    /// The state of a freshly constructed agent: everything zero, so the
    /// first step transitions at once (its phase duration is already over)
    /// and no motion ever uses the zero direction vector.
    pub open spec fn zeroed() -> LineModel {
        LineModel {
            x2: 0,
            y: 0,
            added_x2: 0,
            added_y: 0,
            dir: 0,
            rad: 0,
            light_input_multiplier: 0,
            cumulative_time: 0,
            time: 0,
            target_time: 0,
        }
    }

    /// The heading bookkeeping is coherent: the index is the cumulative
    /// heading reduced modulo six, and the pending direction is either the
    /// unit vector of that heading or the all-zero vector a fresh agent
    /// starts with.
    pub open spec fn dir_wf(self) -> bool {
        &&& 0 <= self.dir < 6
        &&& self.rad % 6 == self.dir
        &&& {
            ||| (self.added_x2 == dir_x2_of(self.dir) && self.added_y == dir_y_of(self.dir))
            ||| (self.added_x2 == 0 && self.added_y == 0)
        }
    }

    /// Well-formed agent state: coherent heading, and a phase clock that
    /// never runs past its duration — the progress ratio is a fraction of
    /// the unit interval.
    pub open spec fn wf(self) -> bool {
        &&& self.dir_wf()
        &&& 0 <= self.time <= self.target_time
        &&& 0 <= self.cumulative_time
        &&& 0 <= self.light_input_multiplier
    }

    /// The coordinates and the heading are far enough from the machine
    /// limits for one more lattice step.
    pub open spec fn pos_in_bounds(self) -> bool {
        &&& -POS_BOUND <= self.x2 <= POS_BOUND
        &&& -POS_BOUND <= self.y <= POS_BOUND
        &&& -POS_BOUND <= self.rad <= POS_BOUND
    }

    /// Room to move: every counter and coordinate is far enough from the
    /// machine limits for one more step.
    pub open spec fn in_bounds(self) -> bool {
        &&& self.cumulative_time < LIFE_BOUND
        &&& self.time < LIFE_BOUND
        &&& self.target_time < LIFE_BOUND
        &&& self.pos_in_bounds()
    }
}

/// The phase transition: commit the pending delta into the path, reset the
/// phase clock, draw a fresh duration, turn the heading one sixth-turn and
/// point the pending delta along it.
pub open spec fn begin_model(m: LineModel, o: Opts, extra_draw: u32, turn_positive: bool) -> LineModel {
    let dir = turn_of(m.dir, turn_positive);
    LineModel {
        x2: m.x2 + m.added_x2,
        y: m.y + m.added_y,
        added_x2: dir_x2_of(dir),
        added_y: dir_y_of(dir),
        dir: dir,
        rad: if turn_positive { m.rad + 1 } else { m.rad - 1 },
        time: 0,
        target_time: target_of(o, extra_draw),
        ..m
    }
}

/// One simulation step: advance both clocks, and begin a new phase exactly
/// when the current one has run its duration.
pub open spec fn step_model(m: LineModel, o: Opts, r: StepRands) -> LineModel {
    let ticked = LineModel { cumulative_time: m.cumulative_time + 1, time: m.time + 1, ..m };
    if ticked.time >= ticked.target_time {
        begin_model(ticked, o, r.phase_extra, r.turn_positive)
    } else {
        ticked
    }
}

/// The spark offset a draw decided: the magnitude draw's share of the
/// largest offset, signed, in thousandths of a pixel.
pub open spec fn spark_offset_of(dist: u32, mag: u32, positive: bool) -> int {
    if positive {
        dist * mag
    } else {
        -(dist * mag)
    }
}

/// The draw of one step is exactly determined by the agent's state after
/// the step, the options, the tick and the step's random draws.
pub open spec fn draw_matches(cmd: StepDraw, m: LineModel, o: Opts, tick: u32, r: StepRands) -> bool {
    &&& cmd.x2 == m.x2
    &&& cmd.y == m.y
    &&& cmd.added_x2 == m.added_x2
    &&& cmd.added_y == m.added_y
    &&& cmd.time == m.time
    &&& cmd.target_time == m.target_time
    &&& cmd.hue_milli == tick * o.hue_change
    &&& cmd.cumulative_time == m.cumulative_time
    &&& cmd.light_input_multiplier == m.light_input_multiplier
    &&& cmd.base_light == o.base_light
    &&& cmd.added_light == o.added_light
    &&& cmd.shadow_mult == o.shadow_to_time_prop_mult
    &&& cmd.cx2 == o.cx2
    &&& cmd.cy2 == o.cy2
    &&& cmd.len == o.len
    &&& (cmd.spark is Some <==> r.spark_gate < o.spark_chance)
    &&& (cmd.spark matches Some(s) ==> {
        &&& s.ox_milli == spark_offset_of(o.spark_dist, r.spark_x_mag, r.spark_x_pos)
        &&& s.oy_milli == spark_offset_of(o.spark_dist, r.spark_y_mag, r.spark_y_pos)
        &&& s.size == o.spark_size
    })
}

/// One line agent.  Fields are public so that a host or a test can inspect
/// or preset them; the operations keep [`LineModel::wf`] intact.
#[derive(Clone, Copy, PartialEq, Eq, Structural, Debug)]
pub struct Line {
    /// Committed path x, in half units.
    pub x2: i64,
    /// Committed path y, in `sqrt(3)/2` units.
    pub y: i64,
    /// Pending direction x, in half units.
    pub added_x2: i64,
    /// Pending direction y, in `sqrt(3)/2` units.
    pub added_y: i64,
    /// Heading index in `[0, 6)`.
    pub dir: u8,
    /// Cumulative heading, in sixth turns.
    pub rad: i64,
    /// Input rate of the lightness oscillation, in thousandths of a radian
    /// per tick; zero leaves the lightness constant at the base.
    pub light_input_multiplier: u32,
    /// Lifetime tick counter; never reset.
    pub cumulative_time: u64,
    /// Ticks elapsed in the current phase.
    pub time: u64,
    /// Duration of the current phase, in ticks.
    pub target_time: u64,
}

impl View for Line {
    type V = LineModel;

    open spec fn view(&self) -> LineModel {
        LineModel {
            x2: self.x2 as int,
            y: self.y as int,
            added_x2: self.added_x2 as int,
            added_y: self.added_y as int,
            dir: self.dir as int,
            rad: self.rad as int,
            light_input_multiplier: self.light_input_multiplier as int,
            cumulative_time: self.cumulative_time as int,
            time: self.time as int,
            target_time: self.target_time as int,
        }
    }
}

/// The pending unit vector of a heading index, in lattice units.
fn dir_delta(dir: u8) -> (d: (i64, i64))
    requires
        dir < 6,
    ensures
        d.0 == dir_x2_of(dir as int),
        d.1 == dir_y_of(dir as int),
{
    if dir == 0 {
        (2, 0)
    } else if dir == 1 {
        (1, 1)
    } else if dir == 2 {
        (-1, 1)
    } else if dir == 3 {
        (-2, 0)
    } else if dir == 4 {
        (-1, -1)
    } else {
        (1, -1)
    }
}

impl Line {
    /// A fresh agent, fully zeroed: its first step begins a phase at once.
    pub fn new() -> (l: Line)
        ensures
            l@ == LineModel::zeroed(),
            l@.wf(),
    {
        Line {
            x2: 0,
            y: 0,
            added_x2: 0,
            added_y: 0,
            dir: 0,
            rad: 0,
            light_input_multiplier: 0,
            cumulative_time: 0,
            time: 0,
            target_time: 0,
        }
    }

    /// Begin a new phase: commit the pending delta, reset the phase clock,
    /// draw a fresh duration from `[base_time, base_time + added_time)` and
    /// turn the heading one sixth-turn, to the side the turn draw chose.
    pub fn begin_phase(&mut self, o: &Opts, extra_draw: u32, turn_positive: bool)
        requires
            old(self)@.dir_wf(),
            old(self)@.pos_in_bounds(),
            extra_draw < CHANCE_SCALE,
        ensures
            final(self)@ == begin_model(old(self)@, *o, extra_draw, turn_positive),
            final(self)@.wf(),
    {
        proof {
            lemma_turn_keeps_mod(old(self)@.rad, old(self)@.dir, turn_positive);
            lemma_mul_by_draw_bound(o.added_time, extra_draw);
        }
        self.x2 = self.x2 + self.added_x2;
        self.y = self.y + self.added_y;
        self.time = 0;
        self.target_time = o.base_time as u64 + (o.added_time as u64 * extra_draw as u64)
            / (CHANCE_SCALE as u64);
        if turn_positive {
            self.rad = self.rad + 1;
            self.dir = if self.dir == 5 {
                0
            } else {
                self.dir + 1
            };
        } else {
            self.rad = self.rad - 1;
            self.dir = if self.dir == 0 {
                5
            } else {
                self.dir - 1
            };
        }
        let d = dir_delta(self.dir);
        self.added_x2 = d.0;
        self.added_y = d.1;
    }

    /// One simulation step: advance the phase clock and the lifetime
    /// counter, begin a new phase exactly when the duration has run out
    /// (so the very first step of a fresh agent begins one), and hand back
    /// the draw of this step.  The draw uses the state after any
    /// transition: motion follows the newly begun phase's direction.
    pub fn step(&mut self, o: &Opts, tick: u32, r: &StepRands) -> (cmd: StepDraw)
        requires
            old(self)@.wf(),
            old(self)@.in_bounds(),
            r.wf(),
        ensures
            final(self)@ == step_model(old(self)@, *o, *r),
            final(self)@.wf(),
            draw_matches(cmd, final(self)@, *o, tick, *r),
    {
        self.time = self.time + 1;
        self.cumulative_time = self.cumulative_time + 1;
        if self.time >= self.target_time {
            self.begin_phase(o, r.phase_extra, r.turn_positive);
        }
        let spark = if r.spark_gate < o.spark_chance {
            proof {
                lemma_mul_by_draw_bound(o.spark_dist, r.spark_x_mag);
                lemma_mul_by_draw_bound(o.spark_dist, r.spark_y_mag);
            }
            let magnitude_x: i64 = o.spark_dist as i64 * r.spark_x_mag as i64;
            let magnitude_y: i64 = o.spark_dist as i64 * r.spark_y_mag as i64;
            Some(
                SparkOffset {
                    ox_milli: if r.spark_x_pos {
                        magnitude_x
                    } else {
                        -magnitude_x
                    },
                    oy_milli: if r.spark_y_pos {
                        magnitude_y
                    } else {
                        -magnitude_y
                    },
                    size: o.spark_size,
                },
            )
        } else {
            None
        };
        StepDraw {
            x2: self.x2,
            y: self.y,
            added_x2: self.added_x2,
            added_y: self.added_y,
            time: self.time,
            target_time: self.target_time,
            hue_milli: {
                proof {
                    lemma_mul_u32_fits_u64(tick, o.hue_change);
                }
                tick as u64 * o.hue_change as u64
            },
            cumulative_time: self.cumulative_time,
            light_input_multiplier: self.light_input_multiplier,
            base_light: o.base_light,
            added_light: o.added_light,
            shadow_mult: o.shadow_to_time_prop_mult,
            cx2: o.cx2,
            cy2: o.cy2,
            len: o.len,
            spark: spark,
        }
    }
}

/// The product of a parameter and a random draw stays comfortably inside a
/// sixty-four bit word.
proof fn lemma_mul_by_draw_bound(a: u32, draw: u32)
    by (nonlinear_arith)
    requires
        draw < 1000,
    ensures
        0 <= (a as int) * (draw as int) < 0x40000000000,
{
}

/// The product of two thirty-two bit words fits in a sixty-four bit word.
proof fn lemma_mul_u32_fits_u64(a: u32, b: u32)
    by (nonlinear_arith)
    ensures
        0 <= (a as int) * (b as int) < 0x10000000000000000,
{
}

/// Turning the heading one sixth-turn moves its residue modulo six the same
/// way the index update does.
proof fn lemma_turn_keeps_mod(rad: int, dir: int, positive: bool)
    requires
        0 <= dir < 6,
        rad % 6 == dir,
    ensures
        (if positive { rad + 1 } else { rad - 1 }) % 6 == turn_of(dir, positive),
{
    lemma_fundamental_div_mod(rad, 6);
    let q = rad / 6;
    if positive {
        assert(rad + 1 == 6 * q + (dir + 1));
        if dir == 5 {
            lemma_mod_multiples_vanish(q + 1, 0, 6);
            lemma_small_mod(0, 6);
        } else {
            lemma_mod_multiples_vanish(q, dir + 1, 6);
            lemma_small_mod((dir + 1) as nat, 6);
        }
    } else {
        if dir == 0 {
            assert(rad - 1 == 6 * (q - 1) + 5);
            lemma_mod_multiples_vanish(q - 1, 5, 6);
            lemma_small_mod(5, 6);
        } else {
            assert(rad - 1 == 6 * q + (dir - 1));
            lemma_mod_multiples_vanish(q, dir - 1, 6);
            lemma_small_mod((dir - 1) as nat, 6);
        }
    }
}

} // verus!
