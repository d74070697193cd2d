//! Propulsion sentences: RSA, RPM.
use crate::signalk::{
    entries, no_values, push_opt, with_opt, Entry, PathValue,
};
use crate::text::{decimal, digits, join};
use crate::units::{divided, number, number_view, scaled, single, DEG_TO_RAD, HUNDRED, SIXTY};
use vstd::prelude::*;

verus! {

/// Rudder sensor angle.
#[derive(Debug, Clone, Copy, PartialEq, Eq, Structural)]
pub struct RsaData {
    /// Degrees, positive to starboard.
    pub starboard: Option<u32>,
    pub starboard_valid: bool,
    /// Degrees, positive to starboard.
    pub port: Option<u32>,
    pub port_valid: bool,
}

/// A reading that counts only while it is marked as valid.
#[verifier::allow_in_spec]
pub fn valid_only(valid: bool, reading: Option<u32>) -> (r: Option<u32>)
    returns
        (if valid {
            reading
        } else {
            None
        }),
{
    if valid {
        reading
    } else {
        None
    }
}

/// What a RSA sentence reports.
pub open spec fn rsa_entries(d: RsaData) -> Seq<Entry> {
    let s = Seq::<Entry>::empty();
    let s = with_opt(
        s,
        "steering.rudderAngle"@,
        number_view(scaled(single(valid_only(d.starboard_valid, d.starboard)), DEG_TO_RAD)),
    );
    let s = with_opt(
        s,
        "steering.rudderAnglePort"@,
        number_view(scaled(single(valid_only(d.port_valid, d.port)), DEG_TO_RAD)),
    );
    s
}

/// RSA: angles of the starboard (or single) and the port rudder, in radians,
/// as far as they are marked as valid.
pub fn from_rsa(d: &RsaData) -> (out: Vec<PathValue>)
    ensures
        entries(out@) == rsa_entries(*d),
{
    let mut out = no_values();
    push_opt(
        &mut out,
        "steering.rudderAngle",
        number(scaled(single(valid_only(d.starboard_valid, d.starboard)), DEG_TO_RAD)),
    );
    push_opt(
        &mut out,
        "steering.rudderAnglePort",
        number(scaled(single(valid_only(d.port_valid, d.port)), DEG_TO_RAD)),
    );
    out
}

/// What turns.
#[derive(Debug, Clone, Copy, PartialEq, Eq, Structural)]
pub enum RpmSource {
    Engine,
    Shaft,
}

/// Revolutions.
#[derive(Debug, Clone, Copy, PartialEq, Eq, Structural)]
pub struct RpmData {
    pub source: Option<RpmSource>,
    pub source_number: Option<u8>,
    /// Revolutions per minute.
    pub rpm: Option<u32>,
    /// Propeller pitch, in per cent.
    pub pitch: Option<u32>,
    pub valid: bool,
}

/// The path of an engine or shaft. Without a source it is a shaft, without a
/// number it is number 0.
pub open spec fn rpm_prefix(source: Option<RpmSource>, number: Option<u8>) -> Seq<char> {
    let n = match number {
        Some(n) => n as nat,
        None => 0,
    };
    match source {
        Some(RpmSource::Engine) => "propulsion.engine"@ + digits(n),
        _ => "propulsion.shaft"@ + digits(n),
    }
}

/// The path of an engine or shaft.
pub fn rpm_path(source: Option<RpmSource>, number: Option<u8>) -> (r: String)
    ensures
        r@ == rpm_prefix(source, number),
{
    let n: u8 = match number {
        Some(n) => n,
        None => 0,
    };
    match source {
        Some(RpmSource::Engine) => join("propulsion.engine", decimal(n as u64).as_str()),
        _ => join("propulsion.shaft", decimal(n as u64).as_str()),
    }
}

/// What a RPM sentence reports.
pub open spec fn rpm_entries(d: RpmData) -> Seq<Entry> {
    let prefix = rpm_prefix(d.source, d.source_number);
    if !d.valid {
        Seq::empty()
    } else {
        let s = Seq::<Entry>::empty();
        let s = with_opt(
            s,
            prefix + ".revolutions"@,
            number_view(divided(single(d.rpm), SIXTY)),
        );
        with_opt(s, prefix + ".pitch"@, number_view(divided(single(d.pitch), HUNDRED)))
    }
}

/// RPM: revolutions per second and propeller pitch of an engine or shaft.
/// Nothing is reported of data marked as not valid.
pub fn from_rpm(d: &RpmData) -> (out: Vec<PathValue>)
    ensures
        entries(out@) == rpm_entries(*d),
{
    let mut out = no_values();
    if !d.valid {
        return out;
    }
    let prefix = rpm_path(d.source, d.source_number);
    push_opt(
        &mut out,
        join(prefix.as_str(), ".revolutions").as_str(),
        number(divided(single(d.rpm), SIXTY)),
    );
    push_opt(
        &mut out,
        join(prefix.as_str(), ".pitch").as_str(),
        number(divided(single(d.pitch), HUNDRED)),
    );
    out
}

} // verus!
