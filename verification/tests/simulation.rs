//! Behavioural tests of the agent model: phase begins, clocks, draws.

use glow_lines::config::Opts;
use glow_lines::line::{Line, StepRands};

fn quiet_rands() -> StepRands {
    StepRands {
        phase_extra: 0,
        turn_positive: true,
        spark_gate: 999,
        spark_x_mag: 0,
        spark_x_pos: true,
        spark_y_mag: 0,
        spark_y_pos: true,
    }
}

#[test]
fn default_opts_match_documented_values() {
    let o = Opts::default();
    assert_eq!(o.len, 20);
    assert_eq!(o.count, 300);
    assert_eq!(o.base_time, 10);
    assert_eq!(o.added_time, 10);
    assert_eq!(o.spawn_chance, 1000);
    assert_eq!(o.spark_chance, 100);
    assert_eq!(o.spark_dist, 10);
    assert_eq!(o.spark_size, 2);
    assert_eq!(o.base_light, 50);
    assert_eq!(o.added_light, 10);
    assert_eq!(o.shadow_to_time_prop_mult, 6);
    assert_eq!(o.cx2, 0);
    assert_eq!(o.cy2, 0);
    assert_eq!(o.repaint_alpha, 40);
    assert_eq!(o.hue_change, 100);
}

#[test]
fn new_line_is_fully_zeroed() {
    let l = Line::new();
    assert_eq!(
        (l.x2, l.y, l.added_x2, l.added_y, l.dir, l.rad),
        (0, 0, 0, 0, 0, 0)
    );
    assert_eq!((l.cumulative_time, l.time, l.target_time), (0, 0, 0));
    assert_eq!(l.light_input_multiplier, 0);
}

#[test]
fn begin_phase_resets_clock_and_bounds_duration() {
    let o = Opts::default();
    let mut l = Line::new();
    l.time = 7;
    l.begin_phase(&o, 999, true);
    assert_eq!(l.time, 0);
    // base 10 plus the largest possible share of the added 10: 10 * 999 / 1000.
    assert_eq!(l.target_time, 19);
    assert!(l.target_time >= o.base_time as u64);
    assert!(l.target_time < (o.base_time + o.added_time) as u64);

    let mut l2 = Line::new();
    l2.begin_phase(&o, 0, false);
    assert_eq!(l2.time, 0);
    assert_eq!(l2.target_time, 10);
}

#[test]
fn begin_phase_turns_heading_and_commits_delta() {
    let o = Opts::default();
    let mut l = Line::new();

    // The fresh agent's pending delta is zero, so the first begin commits
    // nothing; the heading turns one sixth-turn counter-clockwise.
    l.begin_phase(&o, 0, true);
    assert_eq!((l.x2, l.y), (0, 0));
    assert_eq!((l.dir, l.rad), (1, 1));
    assert_eq!((l.added_x2, l.added_y), (1, 1));

    // The second begin commits the sixty-degree unit vector and turns on.
    l.begin_phase(&o, 0, true);
    assert_eq!((l.x2, l.y), (1, 1));
    assert_eq!((l.dir, l.rad), (2, 2));
    assert_eq!((l.added_x2, l.added_y), (-1, 1));

    // Turning back down crosses the index seam at zero.
    let mut r = Line::new();
    r.begin_phase(&o, 0, false);
    assert_eq!((r.dir, r.rad), (5, -1));
    assert_eq!((r.added_x2, r.added_y), (1, -1));
    r.begin_phase(&o, 0, false);
    assert_eq!((r.dir, r.rad), (4, -2));
    assert_eq!((r.added_x2, r.added_y), (-1, -1));
}

#[test]
fn cumulative_time_counts_steps() {
    let o = Opts::default();
    let mut l = Line::new();
    let mut last = 0u64;
    for n in 1..=25u64 {
        l.step(&o, n as u32, &quiet_rands());
        assert_eq!(l.cumulative_time, n);
        assert!(l.cumulative_time > last);
        last = l.cumulative_time;
    }
}

#[test]
fn progress_stays_in_unit_interval() {
    let o = Opts::default();
    let mut l = Line::new();
    for n in 0..200u32 {
        let r = StepRands {
            phase_extra: (n * 37) % 1000,
            turn_positive: n % 2 == 0,
            spark_gate: 999,
            spark_x_mag: 0,
            spark_x_pos: true,
            spark_y_mag: 0,
            spark_y_pos: true,
        };
        let cmd = l.step(&o, n, &r);
        assert!(cmd.time <= cmd.target_time);
        if cmd.target_time > 0 {
            assert!(cmd.time < cmd.target_time);
        }
    }
}

#[test]
fn zero_duration_phase_keeps_clock_at_zero() {
    // With no base and no added duration every step begins a phase anew;
    // the host treats the zero-duration phase as complete progress.
    let mut o = Opts::default();
    o.base_time = 0;
    o.added_time = 0;
    let mut l = Line::new();
    for n in 0..10u32 {
        let cmd = l.step(&o, n, &quiet_rands());
        assert_eq!(cmd.time, 0);
        assert_eq!(cmd.target_time, 0);
    }
    assert_eq!(l.cumulative_time, 10);
}

#[test]
fn step_uses_newly_begun_direction() {
    // A step that completes the running phase must begin the next phase
    // first and draw along the fresh direction, not the stale one.
    let o = Opts::default();
    let mut l = Line::new();
    l.target_time = 5;
    l.time = 4;
    let cmd = l.step(&o, 1, &quiet_rands());
    assert_eq!(l.time, 0);
    // The old pending delta was zero; the draw carries the new direction.
    assert_eq!((cmd.added_x2, cmd.added_y), (1, 1));
    assert_eq!((cmd.x2, cmd.y), (0, 0));
    assert_eq!((l.dir, l.rad), (1, 1));
}

#[test]
fn step_without_transition_keeps_direction() {
    let o = Opts::default();
    let mut l = Line::new();
    l.step(&o, 1, &quiet_rands());
    let dir_before = (l.added_x2, l.added_y);
    let cmd = l.step(&o, 2, &quiet_rands());
    assert_eq!((cmd.added_x2, cmd.added_y), dir_before);
    // The first step began a phase and reset the clock; the second sits one
    // tick into that phase.
    assert_eq!(cmd.time, 1);
    assert_eq!(cmd.cumulative_time, 2);
}

#[test]
fn no_spark_when_chance_zero() {
    let mut o = Opts::default();
    o.spark_chance = 0;
    let mut l = Line::new();
    for n in 0..50u32 {
        let r = StepRands {
            phase_extra: 500,
            turn_positive: true,
            spark_gate: n * 17 % 1000,
            spark_x_mag: 999,
            spark_x_pos: false,
            spark_y_mag: 999,
            spark_y_pos: true,
        };
        let cmd = l.step(&o, n, &r);
        assert!(cmd.spark.is_none());
    }
}

#[test]
fn spark_offsets_are_exact() {
    let mut o = Opts::default();
    o.spark_chance = 1000;
    let mut l = Line::new();
    let r = StepRands {
        phase_extra: 0,
        turn_positive: true,
        spark_gate: 0,
        spark_x_mag: 500,
        spark_x_pos: true,
        spark_y_mag: 250,
        spark_y_pos: false,
    };
    let cmd = l.step(&o, 1, &r);
    let s = cmd.spark.expect("a draw below the chance must spark");
    // Half of the ten-pixel spread: five pixels, in thousandths.
    assert_eq!(s.ox_milli, 5000);
    assert_eq!(s.oy_milli, -2500);
    assert_eq!(s.size, o.spark_size);
}

#[test]
fn spark_gate_compares_against_chance() {
    let o = Opts::default();
    let mut l = Line::new();
    let mut r = quiet_rands();
    r.spark_gate = 99;
    assert!(l.step(&o, 1, &r).spark.is_some());
    r.spark_gate = 100;
    assert!(l.step(&o, 2, &r).spark.is_none());
}

#[test]
fn hue_advances_with_tick() {
    let o = Opts::default();
    let mut l = Line::new();
    let cmd = l.step(&o, 7, &quiet_rands());
    assert_eq!(cmd.hue_milli, 700);
    let cmd = l.step(&o, 8, &quiet_rands());
    assert_eq!(cmd.hue_milli, 800);
}

#[test]
fn lightness_inputs_are_constant_by_default() {
    let o = Opts::default();
    let mut l = Line::new();
    for n in 1..=20u32 {
        let cmd = l.step(&o, n, &quiet_rands());
        assert_eq!(cmd.light_input_multiplier, 0);
        assert_eq!(cmd.base_light, 50);
        assert_eq!(cmd.added_light, 10);
    }
}

#[test]
fn ease_weight_monotone_on_unit_interval() {
    // The host's ease weight w(p) = sin(p * pi / 2) rises from zero to one
    // over the unit interval.
    let weight = |p: f64| (p * std::f64::consts::PI / 2.0).sin();
    assert_eq!(weight(0.0), 0.0);
    assert!((weight(1.0) - 1.0).abs() < 1e-12);
    let mut prev = weight(0.0);
    for k in 1..=1000 {
        let next = weight(k as f64 / 1000.0);
        assert!(next > prev);
        prev = next;
    }
}
