//! A cycle-level model of a small 32-bit processor core, built from clocked
//! logic primitives that are evaluated in two phases: every chip first
//! settles its pending value, then every chip commits it on the clock edge.

pub mod chips;
