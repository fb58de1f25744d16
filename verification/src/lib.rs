//! A minimal real-time-strategy battle core.
//!
//! Two opposing sides each own a base and a roster of mobile combat units on a
//! single horizontal axis.  Every simulation tick, each unit attacks the
//! enemies inside its range or, if nothing is in range, advances toward the
//! enemy base; afterwards each side earns minerals and dead units are removed.
//! All quantities are exact fixed-point integers; the scales are documented in
//! [`constants`].

pub mod constants;
pub mod traits;
pub mod gameobject;
pub mod player;
pub mod gamestate;
