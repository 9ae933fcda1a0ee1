//! A single two-input perceptron that learns a linear inequality
//! `a·x + b·y + c > 0` from randomly drawn, labelled points.
//!
//! Real quantities are held as exact fixed-point integers; see [`model`] for
//! the scale of each one.

pub mod driver;
pub mod line;
pub mod model;
