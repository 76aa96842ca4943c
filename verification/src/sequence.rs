//! Sequences: scripted steps that the game advances frame by frame.

pub mod noop;
