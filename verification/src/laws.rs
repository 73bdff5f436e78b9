//! The general laws of the simulation, stated over the models and proved
//! once and for all.
//!
//! The contracts of [`crate::line::Line::step`] and
//! [`crate::world::World::frame`] pin each call down to [`step_model`] and
//! [`frame_model`]; the lemmas here state what those models guarantee over
//! any number of calls: what a phase begin leaves behind, that the lifetime
//! counter counts steps exactly, that the pool only grows and never passes
//! its cap, and that the phase progress ratio stays inside the unit
//! interval.

use vstd::prelude::*;
use vstd::arithmetic::div_mod::lemma_div_pos_is_pos;
use vstd::arithmetic::div_mod::lemma_multiply_divide_lt;

use crate::config::CHANCE_SCALE;
use crate::config::Opts;
use crate::line::LineModel;
use crate::line::StepRands;
use crate::line::begin_model;
use crate::line::step_model;
use crate::line::target_of;
use crate::world::WorldModel;
use crate::world::frame_model;

verus! {

/// A phase duration drawn from a genuine random draw lands in the promised
/// window: at least the base duration, and short of the base plus the added
/// duration whenever there is any added duration to draw from.
pub proof fn lemma_target_in_window(o: Opts, extra_draw: u32)
    requires
        extra_draw < CHANCE_SCALE,
    ensures
        o.added_time > 0 ==> o.base_time <= target_of(o, extra_draw) < o.base_time
            + o.added_time,
        o.added_time == 0 ==> target_of(o, extra_draw) == o.base_time,
{
    let product = (o.added_time as int) * (extra_draw as int);
    lemma_div_pos_is_pos(product, CHANCE_SCALE as int);
    if o.added_time > 0 {
        assert((o.added_time as int) * (extra_draw as int) < 1000 * (o.added_time as int))
            by (nonlinear_arith)
            requires
                extra_draw < 1000,
                o.added_time > 0;
        lemma_multiply_divide_lt(product, CHANCE_SCALE as int, o.added_time as int);
    }
}

/// After any phase begin, the phase clock is back at zero and the fresh
/// duration lies in `[base_time, base_time + added_time)` — the random draw
/// can neither cut the phase below the base duration nor stretch it to the
/// full added duration.  (With no added duration configured the window is
/// empty; the duration is then exactly the base duration.)
pub proof fn lemma_begin_phase_resets(m: LineModel, o: Opts, extra_draw: u32, turn_positive: bool)
    requires
        extra_draw < CHANCE_SCALE,
        o.added_time > 0,
    ensures
        begin_model(m, o, extra_draw, turn_positive).time == 0,
        0 <= begin_model(m, o, extra_draw, turn_positive).target_time - o.base_time
            < o.added_time,
{
    lemma_target_in_window(o, extra_draw);
}

/// The agent after a whole sequence of steps, each consuming its own draws.
pub open spec fn steps_model(m: LineModel, o: Opts, rs: Seq<StepRands>) -> LineModel
    decreases rs.len(),
{
    if rs.len() == 0 {
        m
    } else {
        steps_model(step_model(m, o, rs[0]), o, rs.drop_first())
    }
}

/// The lifetime counter counts steps, exactly: it grows by one on every
/// step, is never reset and never decremented, so after `N` steps it stands
/// exactly `N` above where it started — at `N` for a fresh agent.
pub proof fn lemma_cumulative_time_counts_steps(m: LineModel, o: Opts, rs: Seq<StepRands>)
    ensures
        steps_model(m, o, rs).cumulative_time == m.cumulative_time + rs.len(),
    decreases rs.len(),
{
    if rs.len() > 0 {
        lemma_cumulative_time_counts_steps(step_model(m, o, rs[0]), o, rs.drop_first());
    }
}

/// The random draws of one whole frame.
pub ghost struct FrameIn {
    /// The draw gating the spawn of a fresh agent.
    pub spawn_draw: u32,
    /// The per-agent step draws, one per agent of the stepped pool.
    pub rands: Seq<StepRands>,
}

/// The world after a whole sequence of frames, each consuming its own
/// draws.
pub open spec fn frames_model(w: WorldModel, ins: Seq<FrameIn>) -> WorldModel
    decreases ins.len(),
{
    if ins.len() == 0 {
        w
    } else {
        frames_model(frame_model(w, ins[0].spawn_draw, ins[0].rands), ins.drop_first())
    }
}

/// The pool only ever grows, and never passes the configured cap: over any
/// sequence of frames the pool size is non-decreasing and stays at most
/// `count` if it starts there.  The options themselves never change.
pub proof fn lemma_pool_size_monotone_and_capped(w: WorldModel, ins: Seq<FrameIn>)
    requires
        w.lines.len() <= w.opts.count,
    ensures
        frames_model(w, ins).opts == w.opts,
        w.lines.len() <= frames_model(w, ins).lines.len() <= w.opts.count,
    decreases ins.len(),
{
    if ins.len() > 0 {
        lemma_pool_size_monotone_and_capped(
            frame_model(w, ins[0].spawn_draw, ins[0].rands),
            ins.drop_first(),
        );
    }
}

/// The phase progress ratio `p = time / target_time` stays inside the unit
/// interval.  After any step of a well-formed agent the clock sits strictly
/// inside the running phase, `0 <= time < target_time` (so `p < 1`), except
/// in the degenerate case of a zero duration, where the clock is zero and
/// progress counts as complete.  `p` approaches one within a phase and the
/// next phase begins on the very step that would reach it.
pub proof fn lemma_progress_in_unit_interval(m: LineModel, o: Opts, r: StepRands)
    requires
        m.wf(),
        r.wf(),
    ensures
        0 <= step_model(m, o, r).time <= step_model(m, o, r).target_time,
        step_model(m, o, r).target_time > 0 ==> step_model(m, o, r).time < step_model(
            m,
            o,
            r,
        ).target_time,
        step_model(m, o, r).target_time == 0 ==> step_model(m, o, r).time == 0,
{
    let ticked = LineModel { cumulative_time: m.cumulative_time + 1, time: m.time + 1, ..m };
    if ticked.time >= ticked.target_time {
        lemma_target_nonnegative(o, r.phase_extra);
    }
}

/// A freshly drawn phase duration is never negative.
proof fn lemma_target_nonnegative(o: Opts, extra_draw: u32)
    ensures
        target_of(o, extra_draw) >= o.base_time >= 0,
{
    lemma_div_pos_is_pos((o.added_time as int) * (extra_draw as int), CHANCE_SCALE as int);
    assert((o.added_time as int) * (extra_draw as int) >= 0) by (nonlinear_arith);
}

} // verus!
