//! NMEA 0183 sentences and what they report under Signal K paths.
//!
//! Every sentence type has a record of the fields that are read, by their
//! floating point bits, and a converter to path-value pairs in SI units.
//! Positions stay in decimal degrees.
pub mod canonical;
pub mod environment;
pub mod heading;
pub mod course;
pub mod depth;
pub mod laws;
pub mod position;
pub mod wind;
pub mod gnss;
pub mod propulsion;
