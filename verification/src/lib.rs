//! Sizing of an electric-propulsion spacecraft stage.
//!
//! Given one engine, one kind of propellant tank and one kind of battery, the
//! library finds the smallest number of batteries that hold the energy needed
//! to push, in one continuous burn, all the propellant that a target velocity
//! change requires, and tabulates the outcome over tank counts and targets.
//!
//! Every quantity is an integer in a fixed unit (see [`stage`]); the
//! exponential of the rocket equation is evaluated in fixed-point arithmetic
//! (see [`exponential`]).

pub mod rounding;

pub mod exponential;
pub mod stage;
pub mod mass;
pub mod performance;
pub mod demand;
pub mod solver;
pub mod laws;
pub mod sweep;
pub mod text;
pub mod report;
pub mod table;
pub mod dawn;
