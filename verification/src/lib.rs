//! Input checks and coordinate rules of a simple least-squares line fit.
//!
//! A line `y = slope * x + intercept` is fitted to paired samples, or to a
//! series whose samples sit at the positions 0, 1, 2, … . This crate holds
//! the part of that work which is decided on integers alone: which inputs are
//! refused and why, at which positions the samples of a series sit, and at
//! which positions a forecast continues it.
//!
//! - [`error`]: the reasons for which an input is refused.
//! - [`pairs`]: the check of paired samples.
//! - [`series`]: the check of a series.
//! - [`positions`]: the coordinates of a series and of its forecast.
//! - [`spread`]: the denominator of the slope in exact arithmetic, and when
//!   it vanishes.

pub mod error;
pub mod pairs;
pub mod positions;
pub mod series;
pub mod spread;
