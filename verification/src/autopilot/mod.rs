//! Software autopilot: heading, wind and route steering.
//!
//! A control tick runs in steps. Between two steps the formulas that the first
//! one hands out are evaluated, and their values are handed to the second one;
//! every decision is taken here, on the values.
pub mod filter;
pub mod laws;
pub mod pd;
pub mod sensor_laws;
pub mod state;
pub mod modes;
pub mod provider;
pub mod steering_laws;
pub mod tick;
pub mod value_laws;
