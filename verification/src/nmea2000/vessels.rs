//! AIS messages: other vessels.
use crate::contact::{bare, opt_chars, AisContact, ContactView};
use crate::expr::{num, Expr};
use crate::nmea2000::{make_source, N2kSource};
use crate::number::Real;
use crate::signalk::{nmea2000_source, opt_delta, Delta, DeltaView};
use crate::units::{double, ZERO};
use vstd::prelude::*;

verus! {

/// A position, where both coordinates are known.
#[verifier::allow_in_spec]
pub fn both(latitude: Option<Real>, longitude: Option<Real>) -> (r: Option<(Expr, Expr)>)
    returns
        (match (latitude, longitude) {
            (Some(lat), Some(lon)) => Some((num(lat), num(lon))),
            _ => None,
        }),
{
    match (latitude, longitude) {
        (Some(lat), Some(lon)) => Some((num(lat), num(lon))),
        _ => None,
    }
}

/// A length, where it is positive.
pub open spec fn positive(x: Option<Real>) -> Option<Expr> {
    match x {
        Some(v) => if (Real { bits: ZERO }).lt(v) {
            Some(num(v))
        } else {
            None
        },
        None => None,
    }
}

fn if_positive(x: Option<Real>) -> (r: Option<Expr>)
    ensures
        r == positive(x),
{
    let zero = Real { bits: ZERO };
    match x {
        Some(v) => if zero.less_than(v) {
            Some(num(v))
        } else {
            None
        },
        None => None,
    }
}

/// The low byte of a number.
#[verifier::allow_in_spec]
pub fn low_byte(n: Option<u64>) -> (r: Option<u8>)
    returns
        (match n {
            Some(x) => Some(x as u8),
            None => None,
        }),
{
    match n {
        Some(x) => Some(x as u8),
        None => None,
    }
}

fn copied(s: &Option<String>) -> (r: Option<String>)
    ensures
        opt_chars(r) == opt_chars(*s),
{
    match s {
        Some(t) => Some(t.clone()),
        None => None,
    }
}

/// The delta of a contact with the given MMSI, where there is one.
pub open spec fn contact_delta(
    user_id: Option<u64>,
    contact: ContactView,
    source: N2kSource<'_>,
) -> Option<DeltaView> {
    match user_id {
        Some(id) => Some(
            ContactView { mmsi: id as u32, ..contact }.delta(
                nmea2000_source(source.label@, source.src, source.pgn),
            ),
        ),
        None => None,
    }
}

/// Class A position report (129038).
#[derive(Debug, Clone, Copy, PartialEq, Eq, Structural)]
pub struct AisClassAPositionReport {
    /// MMSI.
    pub user_id: Option<u64>,
    /// Decimal degrees.
    pub latitude: Option<Real>,
    /// Decimal degrees.
    pub longitude: Option<Real>,
    /// Metres per second.
    pub sog: Option<Real>,
    /// Radians.
    pub cog: Option<Real>,
    /// Radians.
    pub heading: Option<Real>,
    /// Radians per second.
    pub rate_of_turn: Option<Real>,
    /// As the ITU numbers it.
    pub nav_status: Option<u64>,
}

pub open spec fn ais_class_a_position_contact(m: AisClassAPositionReport) -> ContactView {
    ContactView {
        position: both(m.latitude, m.longitude),
        sog_ms: double(m.sog),
        cog_rad: double(m.cog),
        heading_rad: double(m.heading),
        rot_rads: double(m.rate_of_turn),
        nav_status: low_byte(m.nav_status),
        ..bare(0)
    }
}

/// Position and motion of a class A vessel.
pub fn from_ais_class_a_position(
    m: &AisClassAPositionReport,
    source: &N2kSource<'_>,
) -> (r: Option<Delta>)
    ensures
        opt_delta(r) == contact_delta(m.user_id, ais_class_a_position_contact(*m), *source),
{
    match m.user_id {
        Some(id) => {
            let mut contact = AisContact::of(id as u32);
            contact.position = both(m.latitude, m.longitude);
            contact.sog_ms = double(m.sog);
            contact.cog_rad = double(m.cog);
            contact.heading_rad = double(m.heading);
            contact.rot_rads = double(m.rate_of_turn);
            contact.nav_status = low_byte(m.nav_status);
            Some(contact.to_delta(make_source(source)))
        },
        None => None,
    }
}

/// Class B position report (129039).
#[derive(Debug, Clone, Copy, PartialEq, Eq, Structural)]
pub struct AisClassBPositionReport {
    /// MMSI.
    pub user_id: Option<u64>,
    /// Decimal degrees.
    pub latitude: Option<Real>,
    /// Decimal degrees.
    pub longitude: Option<Real>,
    /// Metres per second.
    pub sog: Option<Real>,
    /// Radians.
    pub cog: Option<Real>,
    /// Radians.
    pub heading: Option<Real>,
}

pub open spec fn ais_class_b_position_contact(m: AisClassBPositionReport) -> ContactView {
    ContactView {
        position: both(m.latitude, m.longitude),
        sog_ms: double(m.sog),
        cog_rad: double(m.cog),
        heading_rad: double(m.heading),
        ..bare(0)
    }
}

/// Position and motion of a class B vessel.
pub fn from_ais_class_b_position(
    m: &AisClassBPositionReport,
    source: &N2kSource<'_>,
) -> (r: Option<Delta>)
    ensures
        opt_delta(r) == contact_delta(m.user_id, ais_class_b_position_contact(*m), *source),
{
    match m.user_id {
        Some(id) => {
            let mut contact = AisContact::of(id as u32);
            contact.position = both(m.latitude, m.longitude);
            contact.sog_ms = double(m.sog);
            contact.cog_rad = double(m.cog);
            contact.heading_rad = double(m.heading);
            Some(contact.to_delta(make_source(source)))
        },
        None => None,
    }
}

/// Extended class B position report (129040).
#[derive(Debug)]
pub struct AisClassBExtendedPositionReport {
    /// MMSI.
    pub user_id: Option<u64>,
    /// Decimal degrees.
    pub latitude: Option<Real>,
    /// Decimal degrees.
    pub longitude: Option<Real>,
    /// Metres per second.
    pub sog: Option<Real>,
    /// Radians.
    pub cog: Option<Real>,
    /// Radians.
    pub true_heading: Option<Real>,
    pub name: Option<String>,
    pub type_of_ship: Option<u64>,
    /// Metres.
    pub length: Option<Real>,
    /// Metres.
    pub beam: Option<Real>,
}

pub open spec fn ais_class_b_extended_contact(m: AisClassBExtendedPositionReport) -> ContactView {
    ContactView {
        position: both(m.latitude, m.longitude),
        sog_ms: double(m.sog),
        cog_rad: double(m.cog),
        heading_rad: double(m.true_heading),
        name: opt_chars(m.name),
        ship_type: low_byte(m.type_of_ship),
        length: positive(m.length),
        beam: positive(m.beam),
        ..bare(0)
    }
}

/// Position, motion, name, type and size of a class B vessel.
pub fn from_ais_class_b_extended(
    m: &AisClassBExtendedPositionReport,
    source: &N2kSource<'_>,
) -> (r: Option<Delta>)
    ensures
        opt_delta(r) == contact_delta(m.user_id, ais_class_b_extended_contact(*m), *source),
{
    match m.user_id {
        Some(id) => {
            let mut contact = AisContact::of(id as u32);
            contact.position = both(m.latitude, m.longitude);
            contact.sog_ms = double(m.sog);
            contact.cog_rad = double(m.cog);
            contact.heading_rad = double(m.true_heading);
            contact.name = copied(&m.name);
            contact.ship_type = low_byte(m.type_of_ship);
            contact.length = if_positive(m.length);
            contact.beam = if_positive(m.beam);
            Some(contact.to_delta(make_source(source)))
        },
        None => None,
    }
}

/// Static and voyage data of a class A vessel (129794).
#[derive(Debug)]
pub struct AisClassAStaticAndVoyageRelatedData {
    /// MMSI.
    pub user_id: Option<u64>,
    pub name: Option<String>,
    pub callsign: Option<String>,
    pub imo_number: Option<u64>,
    pub type_of_ship: Option<u64>,
    pub destination: Option<String>,
    /// Metres.
    pub draft: Option<Real>,
    /// Metres.
    pub length: Option<Real>,
    /// Metres.
    pub beam: Option<Real>,
}

/// The low 32 bits of a number.
#[verifier::allow_in_spec]
pub fn low_word(n: Option<u64>) -> (r: Option<u32>)
    returns
        (match n {
            Some(x) => Some(x as u32),
            None => None,
        }),
{
    match n {
        Some(x) => Some(x as u32),
        None => None,
    }
}

pub open spec fn ais_class_a_static_contact(m: AisClassAStaticAndVoyageRelatedData) -> ContactView {
    ContactView {
        name: opt_chars(m.name),
        callsign: opt_chars(m.callsign),
        imo: low_word(m.imo_number),
        ship_type: low_byte(m.type_of_ship),
        destination: opt_chars(m.destination),
        draught: double(m.draft),
        length: positive(m.length),
        beam: positive(m.beam),
        ..bare(0)
    }
}

/// Name, call sign, voyage and size of a class A vessel.
pub fn from_ais_class_a_static(
    m: &AisClassAStaticAndVoyageRelatedData,
    source: &N2kSource<'_>,
) -> (r: Option<Delta>)
    ensures
        opt_delta(r) == contact_delta(m.user_id, ais_class_a_static_contact(*m), *source),
{
    match m.user_id {
        Some(id) => {
            let mut contact = AisContact::of(id as u32);
            contact.name = copied(&m.name);
            contact.callsign = copied(&m.callsign);
            contact.imo = low_word(m.imo_number);
            contact.ship_type = low_byte(m.type_of_ship);
            contact.destination = copied(&m.destination);
            contact.draught = double(m.draft);
            contact.length = if_positive(m.length);
            contact.beam = if_positive(m.beam);
            Some(contact.to_delta(make_source(source)))
        },
        None => None,
    }
}

/// Static data of a class B vessel, first part (129809).
#[derive(Debug)]
pub struct AisClassBStaticDataMsg24PartA {
    /// MMSI.
    pub user_id: Option<u64>,
    pub name: Option<String>,
}

pub open spec fn ais_static_24a_contact(m: AisClassBStaticDataMsg24PartA) -> ContactView {
    ContactView {
        name: opt_chars(m.name),
        ..bare(0)
    }
}

/// Name of a class B vessel.
pub fn from_ais_static_24a(
    m: &AisClassBStaticDataMsg24PartA,
    source: &N2kSource<'_>,
) -> (r: Option<Delta>)
    ensures
        opt_delta(r) == contact_delta(m.user_id, ais_static_24a_contact(*m), *source),
{
    match m.user_id {
        Some(id) => {
            let mut contact = AisContact::of(id as u32);
            contact.name = copied(&m.name);
            Some(contact.to_delta(make_source(source)))
        },
        None => None,
    }
}

/// Static data of a class B vessel, second part (129810).
#[derive(Debug)]
pub struct AisClassBStaticDataMsg24PartB {
    /// MMSI.
    pub user_id: Option<u64>,
    pub callsign: Option<String>,
    pub type_of_ship: Option<u64>,
    /// Metres.
    pub length: Option<Real>,
    /// Metres.
    pub beam: Option<Real>,
}

pub open spec fn ais_static_24b_contact(m: AisClassBStaticDataMsg24PartB) -> ContactView {
    ContactView {
        callsign: opt_chars(m.callsign),
        ship_type: low_byte(m.type_of_ship),
        length: positive(m.length),
        beam: positive(m.beam),
        ..bare(0)
    }
}

/// Call sign, type and size of a class B vessel.
pub fn from_ais_static_24b(
    m: &AisClassBStaticDataMsg24PartB,
    source: &N2kSource<'_>,
) -> (r: Option<Delta>)
    ensures
        opt_delta(r) == contact_delta(m.user_id, ais_static_24b_contact(*m), *source),
{
    match m.user_id {
        Some(id) => {
            let mut contact = AisContact::of(id as u32);
            contact.callsign = copied(&m.callsign);
            contact.ship_type = low_byte(m.type_of_ship);
            contact.length = if_positive(m.length);
            contact.beam = if_positive(m.beam);
            Some(contact.to_delta(make_source(source)))
        },
        None => None,
    }
}

} // verus!
