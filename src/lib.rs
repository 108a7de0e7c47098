//! A hard-clipping dynamics processor on fixed-point audio.
//!
//! Samples and gain factors are fixed-point numbers: the integer
//! [`gain::UNITY`] stands for 1.0. The per-sample transfer function lives
//! in [`clip`], parameter smoothing in [`smoother`], the parameter set with
//! its ranges in [`params`], and the block engine that composes them in
//! [`engine`].
//!
//! Delta monitoring compares against the signal after the input gain: it
//! outputs what the clip removed from the signal it actually processed.

pub mod clip;
pub mod engine;
pub mod gain;
pub mod params;
pub mod smoother;
