//! The animation state and the per-frame advance.
//!
//! A [`World`] owns the options, the global tick and the growing pool of
//! agents.  One call to [`World::frame`] is one animation frame: it advances
//! the tick, spawns at most one fresh agent while the pool is below its cap,
//! steps every agent exactly once and hands back the draw of each.  The host
//! wraps this in its frame callback: it fades the whole surface by
//! `repaint_alpha` with normal blending, switches to additive blending,
//! supplies the frame's random draws, and issues the returned draws.
//! A resize only moves the canvas centre: it touches no agent and no clock.

use vstd::prelude::*;

use crate::config::CHANCE_SCALE;
use crate::config::Opts;
use crate::line::Line;
use crate::line::LineModel;
use crate::line::StepDraw;
use crate::line::StepRands;
use crate::line::draw_matches;
use crate::line::step_model;
use crate::line::LIFE_BOUND;

verus! {

/// The mathematical state of the whole animation.
pub ghost struct WorldModel {
    /// The tuning parameters of this world.
    pub opts: Opts,
    /// The global frame counter; drives the hue alone.
    pub tick: int,
    /// The pool of agents, oldest first.
    pub lines: Seq<LineModel>,
}

/// Whether a frame with this spawn draw adds a fresh agent: only while the
/// pool is below its cap, and then with the configured chance.
pub open spec fn spawns(w: WorldModel, spawn_draw: u32) -> bool {
    w.lines.len() < w.opts.count && spawn_draw < w.opts.spawn_chance
}

/// One whole frame: advance the tick, spawn at most one fresh agent, and
/// step every agent in the pool exactly once.  The options never change.
pub open spec fn frame_model(w: WorldModel, spawn_draw: u32, rands: Seq<StepRands>) -> WorldModel {
    let pool = if spawns(w, spawn_draw) {
        w.lines.push(LineModel::zeroed())
    } else {
        w.lines
    };
    WorldModel {
        opts: w.opts,
        tick: w.tick + 1,
        lines: Seq::new(pool.len(), |i: int| step_model(pool[i], w.opts, rands[i])),
    }
}

/// An agent that has lived inside a world: each counter is covered by the
/// agent's own lifetime, which in turn is covered by the global tick, so
/// every field sits far below the machine limits.
pub open spec fn line_lives_in(m: LineModel, tick: int) -> bool {
    &&& m.cumulative_time <= tick
    &&& m.time <= m.cumulative_time
    &&& m.target_time < LIFE_BOUND
    &&& -2 * m.cumulative_time <= m.x2 <= 2 * m.cumulative_time
    &&& -m.cumulative_time <= m.y <= m.cumulative_time
    &&& -m.cumulative_time <= m.rad <= m.cumulative_time
}

/// Well-formed world: sound options, a pool within its cap, and every agent
/// well formed and within the lifetime bounds of this world.
pub open spec fn world_wf(w: WorldModel) -> bool {
    &&& w.opts.wf()
    &&& w.lines.len() <= w.opts.count
    &&& 0 <= w.tick <= u32::MAX
    &&& forall|i: int|
        0 <= i < w.lines.len() ==> (#[trigger] w.lines[i]).wf() && line_lives_in(w.lines[i], w.tick)
}

/// The animation state: options, global tick, and the pool of agents.
pub struct World {
    /// The tuning parameters; only the centre changes after construction.
    pub opts: Opts,
    /// The global frame counter.
    pub tick: u32,
    /// The pool of agents, oldest first.  It only ever grows.
    pub lines: Vec<Line>,
}

impl View for World {
    type V = WorldModel;

    open spec fn view(&self) -> WorldModel {
        WorldModel {
            opts: self.opts,
            tick: self.tick as int,
            lines: self.lines@.map_values(|l: Line| l@),
        }
    }
}

impl World {
    /// A fresh world for a surface of the given size: default options
    /// centred on the surface, the tick at zero and an empty pool.
    pub fn new(width: u32, height: u32) -> (w: World)
        ensures
            w@.opts == (Opts { cx2: width, cy2: height, ..Opts::spec_default() }),
            w@.tick == 0,
            w@.lines.len() == 0,
            world_wf(w@),
    {
        let mut opts = Opts::default();
        opts.cx2 = width;
        opts.cy2 = height;
        let w = World { opts, tick: 0, lines: Vec::new() };
        proof {
            assert(w@.lines =~= Seq::<LineModel>::empty());
        }
        w
    }

    /// React to a viewport resize: move the canvas centre to the middle of
    /// the new surface.  Nothing else changes: not one other option, not
    /// the tick, and not one agent.
    pub fn resize(&mut self, width: u32, height: u32)
        ensures
            final(self).opts == (Opts { cx2: width, cy2: height, ..old(self).opts }),
            final(self).tick == old(self).tick,
            final(self).lines == old(self).lines,
            world_wf(old(self)@) ==> world_wf(final(self)@),
    {
        self.opts.cx2 = width;
        self.opts.cy2 = height;
    }

    /// One animation frame.
    ///
    /// Advances the tick; appends one freshly zeroed agent exactly when the
    /// pool is below `count` and the spawn draw fell below `spawn_chance`;
    /// then steps every agent in the pool exactly once, oldest first, agent
    /// `i` consuming `rands[i]`.  Returns the draw of every step, in pool
    /// order.  The pool never shrinks and never passes `count`.
    pub fn frame(&mut self, spawn_draw: u32, rands: &Vec<StepRands>) -> (cmds: Vec<StepDraw>)
        requires
            world_wf(old(self)@),
            old(self)@.tick < u32::MAX,
            rands@.len() > old(self)@.lines.len(),
            forall|i: int| 0 <= i < rands@.len() ==> (#[trigger] rands@[i]).wf(),
        ensures
            final(self)@ == frame_model(old(self)@, spawn_draw, rands@),
            world_wf(final(self)@),
            old(self)@.lines.len() <= final(self)@.lines.len() <= old(self)@.opts.count,
            cmds@.len() == final(self)@.lines.len(),
            forall|i: int|
                0 <= i < cmds@.len() ==> draw_matches(
                    #[trigger] cmds@[i],
                    final(self)@.lines[i],
                    old(self)@.opts,
                    (old(self)@.tick + 1) as u32,
                    rands@[i],
                ),
    {
        self.tick = self.tick + 1;
        if self.lines.len() < self.opts.count && spawn_draw < self.opts.spawn_chance {
            self.lines.push(Line::new());
        }
        let ghost pool: Seq<LineModel> = self.lines@.map_values(|l: Line| l@);
        let ghost tick_now: int = self.tick as int;
        proof {
            let w0 = old(self)@;
            if spawns(w0, spawn_draw) {
                assert(pool =~= w0.lines.push(LineModel::zeroed()));
            } else {
                assert(pool =~= w0.lines);
            }
        }
        let mut cmds: Vec<StepDraw> = Vec::new();
        let mut i: usize = 0;
        while i < self.lines.len()
            invariant
                i <= self.lines.len(),
                self.lines.len() == pool.len(),
                pool.len() <= rands@.len(),
                self.opts == old(self).opts,
                self.tick == tick_now,
                tick_now == old(self)@.tick + 1,
                tick_now <= u32::MAX,
                forall|j: int| 0 <= j < rands@.len() ==> (#[trigger] rands@[j]).wf(),
                forall|j: int|
                    0 <= j < pool.len() ==> (#[trigger] pool[j]).wf() && line_lives_in(
                        pool[j],
                        tick_now - 1,
                    ),
                pool.len() <= self.opts.count,
                forall|j: int| i <= j < pool.len() ==> #[trigger] self.lines@[j]@ == pool[j],
                forall|j: int|
                    0 <= j < i ==> #[trigger] self.lines@[j]@ == step_model(
                        pool[j],
                        self.opts,
                        rands@[j],
                    ),
                forall|j: int|
                    0 <= j < i ==> (#[trigger] self.lines@[j]@).wf() && line_lives_in(
                        self.lines@[j]@,
                        tick_now,
                    ),
                cmds@.len() == i,
                forall|j: int|
                    0 <= j < i ==> draw_matches(
                        #[trigger] cmds@[j],
                        self.lines@[j]@,
                        self.opts,
                        tick_now as u32,
                        rands@[j],
                    ),
            decreases self.lines.len() - i,
        {
            let mut agent = self.lines[i];
            proof {
                assert(agent@ == pool[i as int]);
                lemma_living_line_in_bounds(agent@, tick_now - 1);
            }
            let cmd = agent.step(&self.opts, self.tick, &rands[i]);
            proof {
                lemma_step_keeps_life_bounds(pool[i as int], self.opts, rands@[i as int], tick_now);
            }
            self.lines.set(i, agent);
            cmds.push(cmd);
            i = i + 1;
        }
        proof {
            let w2 = frame_model(old(self)@, spawn_draw, rands@);
            assert(self.lines@.map_values(|l: Line| l@) =~= w2.lines);
        }
        cmds
    }
}

/// An agent within the lifetime bounds of a live world has room for one
/// more step: the global tick never exceeds the thirty-two bit range, and
/// every counter of the agent is covered by it.
proof fn lemma_living_line_in_bounds(m: LineModel, tick: int)
    requires
        line_lives_in(m, tick),
        0 <= tick <= u32::MAX,
    ensures
        m.in_bounds(),
{
}

/// A step keeps an agent within the lifetime bounds of the stepped world:
/// the lifetime grows with the tick, and one step moves the path by at most
/// one lattice unit in each coordinate and the heading by exactly one.
proof fn lemma_step_keeps_life_bounds(m: LineModel, o: Opts, r: StepRands, tick: int)
    requires
        m.wf(),
        line_lives_in(m, tick - 1),
        0 <= tick <= u32::MAX,
        r.wf(),
    ensures
        line_lives_in(step_model(m, o, r), tick),
{
    let m2 = step_model(m, o, r);
    assert(0 <= (o.added_time as int) * (r.phase_extra as int) < 0x40000000000) by (nonlinear_arith)
        requires
            r.phase_extra < 1000;
    assert((o.added_time as int) * (r.phase_extra as int) / (CHANCE_SCALE as int) < LIFE_BOUND - 0x100000000) by {
        vstd::arithmetic::div_mod::lemma_div_is_ordered(
            (o.added_time as int) * (r.phase_extra as int),
            0x40000000000,
            CHANCE_SCALE as int,
        );
    }
    assert(m2.target_time < LIFE_BOUND);
}

} // verus!
