//! A generative "glowing lines" animation, modelled exactly.
//!
//! Each line agent walks a path whose heading only ever turns by sixty
//! degrees at a time, so every position the simulation can reach lies on a
//! triangular lattice: the x coordinate is a whole number of half units and
//! the y coordinate a whole number of `sqrt(3)/2` units.  The library keeps
//! those lattice coordinates, the phase clocks and the fixed-point tuning
//! parameters as plain integers, which lets every rule of the simulation be
//! stated and proved.  Turning the integer state into pixels (a few
//! multiplications and one sine per draw) and pushing the result at a canvas
//! is left to the embedding host.
//!
//! Randomness is injected: callers hand each operation its uniform draws as
//! plain values, quantised to thousandths, so tests can supply deterministic
//! sequences and the contracts can say exactly what each draw decides.

pub mod config;
pub mod line;
pub mod world;
pub mod laws;
