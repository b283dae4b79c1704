//! Sets the machine's wall-clock time from a human time string or a
//! network time sample: argument dispatch, time parsing and conversion.
pub mod app;
pub mod civil;
pub mod clock;
pub mod error;
pub mod sync;
pub mod world_time_model;
