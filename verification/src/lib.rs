//! A value that is computed by a caller-supplied source, published into a
//! shared cell, and replaced at a fixed period by a background loop, while
//! any number of handles read the current snapshot without blocking.
//!
//! The crate holds the rules of that lifecycle: how a cache is configured
//! and validated ([`builder`]), which transitions the refresh loop makes and
//! what it publishes ([`cycle`]), and the cell that the handles share
//! ([`cell`]). Awaiting the source, delivering ticks and running the loop in
//! the background are left to the embedding program, which feeds the loop
//! one signal at a time.

pub mod refresh;
pub mod period;
pub mod builder;
pub mod cycle;
pub mod cell;
pub mod refresher;
