//! The logic of a set of Signal K plugins.
//!
//! - [`nmea0183`] and [`sentences`] read NMEA 0183 sentences, radio calls and AIS
//!   messages, [`nmea2000`] reads decoded NMEA 2000 messages; both give deltas.
//! - [`nmea0183_send`] and [`nmea2000_send`] go the other way.
//! - [`tracker`] follows AIS targets, [`cpa`] and [`ais_status`] watch their approach.
//! - [`autopilot`] steers by heading, wind or route.
//! - [`anchor`] watches the anchor, [`derived`] derives data from other data, and
//!   [`simulator`] sends out simulated data.
//!
//! Numbers are held by their bits ([`number`]); what has to be computed is handed out
//! as a formula ([`expr`]), and every decision on a computed value is a function of
//! that value; [`evaluation`] says what laws on computed values rest on. Contracts
//! speak of the ghost views of the Signal K data model ([`signalk`]).
pub mod ais_status;
pub mod algebra;
pub mod anchor;
pub mod approach_laws;
pub mod autopilot;
pub mod clock;
pub mod contact;
pub mod contact_laws;
pub mod cpa;
pub mod derived;
pub mod evaluation;
pub mod expr;
pub mod framing;
pub mod ideal;
pub mod incoming;
pub mod json;
pub mod nmea0183;
pub mod nmea0183_send;
pub mod nmea2000;
pub mod nmea2000_send;
pub mod number;
pub mod paths;
pub mod pgn;
pub mod sentences;
pub mod signalk;
pub mod simulator;
pub mod template;
pub mod text;
pub mod tracker;
pub mod tracker_laws;
pub mod units;
pub mod xdr;
pub mod xdr_laws;
