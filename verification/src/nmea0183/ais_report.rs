//! AIS messages: what they say of a vessel.
use crate::contact::{bare, AisContact, ContactView};
use crate::expr::{lit, Expr};
use crate::units::{scaled, single, DEG_TO_RAD, KNOTS_TO_MS, ONE, SIXTY};
use vstd::prelude::*;

verus! {

/// -1.
pub const MINUS_ONE: u64 = 0xBFF0_0000_0000_0000;

/// Navigational status of a vessel.
#[derive(Debug, Clone, Copy, PartialEq, Eq, Structural)]
pub enum NavigationStatus {
    UnderWayUsingEngine,
    AtAnchor,
    NotUnderCommand,
    RestrictedManouverability,
    ConstrainedByDraught,
    Moored,
    Aground,
    EngagedInFishing,
    UnderWaySailing,
    ReservedForHSC,
    ReservedForWIG,
    Reserved01,
    Reserved02,
    Reserved03,
    AisSartIsActive,
    Unknown(u8),
}

/// The number that the ITU gives a navigational status.
#[verifier::allow_in_spec]
pub fn nav_status_to_code(status: &NavigationStatus) -> (r: u8)
    returns
        (match *status {
            NavigationStatus::UnderWayUsingEngine => 0u8,
            NavigationStatus::AtAnchor => 1u8,
            NavigationStatus::NotUnderCommand => 2u8,
            NavigationStatus::RestrictedManouverability => 3u8,
            NavigationStatus::ConstrainedByDraught => 4u8,
            NavigationStatus::Moored => 5u8,
            NavigationStatus::Aground => 6u8,
            NavigationStatus::EngagedInFishing => 7u8,
            NavigationStatus::UnderWaySailing => 8u8,
            NavigationStatus::ReservedForHSC => 9u8,
            NavigationStatus::ReservedForWIG => 10u8,
            NavigationStatus::Reserved01 => 11u8,
            NavigationStatus::Reserved02 => 12u8,
            NavigationStatus::Reserved03 => 13u8,
            NavigationStatus::AisSartIsActive => 14u8,
            NavigationStatus::Unknown(x) => x,
        }),
{
    match status {
        NavigationStatus::UnderWayUsingEngine => 0,
        NavigationStatus::AtAnchor => 1,
        NavigationStatus::NotUnderCommand => 2,
        NavigationStatus::RestrictedManouverability => 3,
        NavigationStatus::ConstrainedByDraught => 4,
        NavigationStatus::Moored => 5,
        NavigationStatus::Aground => 6,
        NavigationStatus::EngagedInFishing => 7,
        NavigationStatus::UnderWaySailing => 8,
        NavigationStatus::ReservedForHSC => 9,
        NavigationStatus::ReservedForWIG => 10,
        NavigationStatus::Reserved01 => 11,
        NavigationStatus::Reserved02 => 12,
        NavigationStatus::Reserved03 => 13,
        NavigationStatus::AisSartIsActive => 14,
        NavigationStatus::Unknown(x) => *x,
    }
}

/// The side a vessel turns to.
#[derive(Debug, Clone, Copy, PartialEq, Eq, Structural)]
pub enum Direction {
    Port,
    Starboard,
}

/// How fast a vessel turns.
#[derive(Debug, Clone, Copy, PartialEq, Eq, Structural)]
pub struct RateOfTurn {
    /// Degrees per minute, without a sign; missing where it is not measured.
    pub rate: Option<u32>,
    pub direction: Option<Direction>,
}

/// Where a vessel is and how it moves.
#[derive(Debug, Clone, Copy, PartialEq, Eq, Structural)]
pub struct Whereabouts {
    pub mmsi: u32,
    /// Decimal degrees.
    pub latitude: Option<u32>,
    /// Decimal degrees.
    pub longitude: Option<u32>,
    /// Knots.
    pub speed_over_ground: Option<u32>,
    /// Degrees.
    pub course_over_ground: Option<u32>,
    /// Degrees.
    pub true_heading: Option<u16>,
}

/// Position report of a class A vessel.
#[derive(Debug, Clone, Copy, PartialEq, Eq, Structural)]
pub struct PositionReport {
    pub at: Whereabouts,
    pub navigation_status: Option<NavigationStatus>,
    pub rate_of_turn: Option<RateOfTurn>,
}

/// Distances from the antenna to the four sides of a vessel, in metres.
#[derive(Debug, Clone, Copy, PartialEq, Eq, Structural)]
pub struct Dimensions {
    pub to_bow: u16,
    pub to_stern: u16,
    pub to_port: u16,
    pub to_starboard: u16,
}

impl Dimensions {
    /// Length and beam can be added up.
    pub open spec fn fit(self) -> bool {
        self.to_bow + self.to_stern <= u16::MAX && self.to_port + self.to_starboard <= u16::MAX
    }
}

/// Static and voyage data of a class A vessel.
#[derive(Debug)]
pub struct StaticAndVoyageRelatedData {
    pub mmsi: u32,
    pub imo_number: u32,
    pub callsign: String,
    pub vessel_name: String,
    pub ship_type: Option<u8>,
    pub dimensions: Dimensions,
    /// Metres.
    pub draught: u32,
    pub destination: String,
}

/// Extended position report of a class B vessel.
#[derive(Debug)]
pub struct ExtendedClassBPositionReport {
    pub at: Whereabouts,
    pub name: String,
    pub type_of_ship_and_cargo: Option<u8>,
    pub dimensions: Dimensions,
}

/// Report of an aid to navigation.
#[derive(Debug)]
pub struct AidToNavigationReport {
    pub mmsi: u32,
    /// Decimal degrees.
    pub latitude: Option<u32>,
    /// Decimal degrees.
    pub longitude: Option<u32>,
    pub name: String,
}

/// One part of the static data of a class B vessel.
#[derive(Debug)]
pub enum MessagePart {
    PartA { vessel_name: String },
    PartB { ship_type: Option<u8>, callsign: String, dimensions: Dimensions },
    Unknown,
}

/// Static data of a class B vessel.
#[derive(Debug)]
pub struct StaticDataReport {
    pub mmsi: u32,
    pub message_part: MessagePart,
}

/// An AIS message of a kind that is understood.
#[derive(Debug)]
pub enum AisMessage {
    PositionReport(PositionReport),
    StaticAndVoyageRelatedData(StaticAndVoyageRelatedData),
    StandardClassBPositionReport(Whereabouts),
    ExtendedClassBPositionReport(ExtendedClassBPositionReport),
    AidToNavigationReport(AidToNavigationReport),
    StaticDataReport(StaticDataReport),
}

/// The view of an [`AisMessage`].
pub enum MessageView {
    PositionReport(PositionReport),
    StaticAndVoyageRelatedData {
        mmsi: u32,
        imo_number: u32,
        callsign: Seq<char>,
        vessel_name: Seq<char>,
        ship_type: Option<u8>,
        dimensions: Dimensions,
        draught: u32,
        destination: Seq<char>,
    },
    StandardClassBPositionReport(Whereabouts),
    ExtendedClassBPositionReport {
        at: Whereabouts,
        name: Seq<char>,
        type_of_ship_and_cargo: Option<u8>,
        dimensions: Dimensions,
    },
    AidToNavigationReport {
        mmsi: u32,
        latitude: Option<u32>,
        longitude: Option<u32>,
        name: Seq<char>,
    },
    StaticDataPartA { mmsi: u32, vessel_name: Seq<char> },
    StaticDataPartB {
        mmsi: u32,
        ship_type: Option<u8>,
        callsign: Seq<char>,
        dimensions: Dimensions,
    },
    StaticDataUnknown { mmsi: u32 },
}

impl StaticAndVoyageRelatedData {
    pub open spec fn view(&self) -> MessageView {
        MessageView::StaticAndVoyageRelatedData {
            mmsi: self.mmsi,
            imo_number: self.imo_number,
            callsign: self.callsign@,
            vessel_name: self.vessel_name@,
            ship_type: self.ship_type,
            dimensions: self.dimensions,
            draught: self.draught,
            destination: self.destination@,
        }
    }
}

impl ExtendedClassBPositionReport {
    pub open spec fn view(&self) -> MessageView {
        MessageView::ExtendedClassBPositionReport {
            at: self.at,
            name: self.name@,
            type_of_ship_and_cargo: self.type_of_ship_and_cargo,
            dimensions: self.dimensions,
        }
    }
}

impl AidToNavigationReport {
    pub open spec fn view(&self) -> MessageView {
        MessageView::AidToNavigationReport {
            mmsi: self.mmsi,
            latitude: self.latitude,
            longitude: self.longitude,
            name: self.name@,
        }
    }
}

impl StaticDataReport {
    pub open spec fn view(&self) -> MessageView {
        match self.message_part {
            MessagePart::PartA { vessel_name } => MessageView::StaticDataPartA {
                mmsi: self.mmsi,
                vessel_name: vessel_name@,
            },
            MessagePart::PartB { ship_type, callsign, dimensions } => MessageView::StaticDataPartB {
                mmsi: self.mmsi,
                ship_type,
                callsign: callsign@,
                dimensions,
            },
            MessagePart::Unknown => MessageView::StaticDataUnknown { mmsi: self.mmsi },
        }
    }
}

impl AisMessage {
    pub open spec fn view(&self) -> MessageView {
        match self {
            AisMessage::PositionReport(m) => MessageView::PositionReport(*m),
            AisMessage::StaticAndVoyageRelatedData(m) => m@,
            AisMessage::StandardClassBPositionReport(m) => {
                MessageView::StandardClassBPositionReport(*m)
            },
            AisMessage::ExtendedClassBPositionReport(m) => m@,
            AisMessage::AidToNavigationReport(m) => m@,
            AisMessage::StaticDataReport(m) => m@,
        }
    }
}

impl MessageView {
    /// The dimensions that the message gives can be added up.
    pub open spec fn fits(self) -> bool {
        match self {
            MessageView::StaticAndVoyageRelatedData { dimensions, .. } => dimensions.fit(),
            MessageView::ExtendedClassBPositionReport { dimensions, .. } => dimensions.fit(),
            MessageView::StaticDataPartB { dimensions, .. } => dimensions.fit(),
            _ => true,
        }
    }
}

// ---------------------------------------------------------------------------
// Contacts
// ---------------------------------------------------------------------------

/// A position, where both coordinates are known.
#[verifier::allow_in_spec]
pub fn both(latitude: Option<u32>, longitude: Option<u32>) -> (r: Option<(Expr, Expr)>)
    returns
        (match (latitude, longitude) {
            (Some(lat), Some(lon)) => Some((Expr::Single(lat), Expr::Single(lon))),
            _ => None,
        }),
{
    match (latitude, longitude) {
        (Some(lat), Some(lon)) => Some((Expr::Single(lat), Expr::Single(lon))),
        _ => None,
    }
}

/// A heading in whole degrees, in radians.
#[verifier::allow_in_spec]
pub fn heading(true_heading: Option<u16>) -> (r: Option<Expr>)
    returns
        (match true_heading {
            Some(h) => Some(Expr::Uint(h as u64).times(lit(DEG_TO_RAD))),
            None => None,
        }),
{
    match true_heading {
        Some(h) => Some(Expr::Uint(h as u64).times(lit(DEG_TO_RAD))),
        None => None,
    }
}

/// A rate of turn in radians per second, negative to port.
#[verifier::allow_in_spec]
pub fn turning(rate_of_turn: Option<RateOfTurn>) -> (r: Option<Expr>)
    returns
        (match rate_of_turn {
            Some(rot) => match rot.rate {
                Some(rate) => Some(
                    lit(
                        if rot.direction == Some(Direction::Port) {
                            MINUS_ONE
                        } else {
                            ONE
                        },
                    ).times(Expr::Single(rate)).times(lit(DEG_TO_RAD)).over(lit(SIXTY)),
                ),
                None => None,
            },
            None => None,
        }),
{
    match rate_of_turn {
        Some(rot) => match rot.rate {
            Some(rate) => {
                let sign: u64 = match rot.direction {
                    Some(Direction::Port) => MINUS_ONE,
                    _ => ONE,
                };
                Some(lit(sign).times(Expr::Single(rate)).times(lit(DEG_TO_RAD)).over(lit(SIXTY)))
            },
            None => None,
        },
        None => None,
    }
}

/// The sum of two distances, where it is not zero.
#[verifier::allow_in_spec]
pub fn extent(a: u16, b: u16) -> (r: Option<Expr>)
    requires
        a + b <= u16::MAX,
    returns
        (if a + b > 0 {
            Some(Expr::Uint((a + b) as u64))
        } else {
            None
        }),
{
    let sum: u16 = a + b;
    if sum > 0 {
        Some(Expr::Uint(sum as u64))
    } else {
        None
    }
}

/// The contact of a vessel that gives its whereabouts.
pub open spec fn at_contact(at: Whereabouts) -> ContactView {
    ContactView {
        position: both(at.latitude, at.longitude),
        sog_ms: scaled(single(at.speed_over_ground), KNOTS_TO_MS),
        cog_rad: scaled(single(at.course_over_ground), DEG_TO_RAD),
        heading_rad: heading(at.true_heading),
        ..bare(at.mmsi)
    }
}

fn contact_at(at: &Whereabouts) -> (r: AisContact)
    ensures
        r@ == at_contact(*at),
{
    let mut contact = AisContact::of(at.mmsi);
    contact.position = both(at.latitude, at.longitude);
    contact.sog_ms = scaled(single(at.speed_over_ground), KNOTS_TO_MS);
    contact.cog_rad = scaled(single(at.course_over_ground), DEG_TO_RAD);
    contact.heading_rad = heading(at.true_heading);
    contact
}

/// The contact of a message.
pub open spec fn message_contact(m: MessageView) -> ContactView {
    match m {
        MessageView::PositionReport(p) => ContactView {
            rot_rads: turning(p.rate_of_turn),
            nav_status: match p.navigation_status {
                Some(s) => Some(nav_status_to_code(&s)),
                None => None,
            },
            ..at_contact(p.at)
        },
        MessageView::StaticAndVoyageRelatedData {
            mmsi,
            imo_number,
            callsign,
            vessel_name,
            ship_type,
            dimensions,
            draught,
            destination,
        } => ContactView {
            name: Some(vessel_name),
            callsign: Some(callsign),
            imo: Some(imo_number),
            ship_type,
            destination: Some(destination),
            draught: Some(Expr::Single(draught)),
            length: extent(dimensions.to_bow, dimensions.to_stern),
            beam: extent(dimensions.to_port, dimensions.to_starboard),
            ..bare(mmsi)
        },
        MessageView::StandardClassBPositionReport(at) => at_contact(at),
        MessageView::ExtendedClassBPositionReport {
            at,
            name,
            type_of_ship_and_cargo,
            dimensions,
        } => ContactView {
            name: Some(name),
            ship_type: type_of_ship_and_cargo,
            length: extent(dimensions.to_bow, dimensions.to_stern),
            beam: extent(dimensions.to_port, dimensions.to_starboard),
            ..at_contact(at)
        },
        MessageView::AidToNavigationReport { mmsi, latitude, longitude, name } => ContactView {
            position: both(latitude, longitude),
            name: Some(name),
            ..bare(mmsi)
        },
        MessageView::StaticDataPartA { mmsi, vessel_name } => ContactView {
            name: Some(vessel_name),
            ..bare(mmsi)
        },
        MessageView::StaticDataPartB { mmsi, ship_type, callsign, dimensions } => ContactView {
            callsign: Some(callsign),
            ship_type,
            length: extent(dimensions.to_bow, dimensions.to_stern),
            beam: extent(dimensions.to_port, dimensions.to_starboard),
            ..bare(mmsi)
        },
        MessageView::StaticDataUnknown { mmsi } => bare(mmsi),
    }
}

/// Class A position report.
pub fn from_position_report(pos: &PositionReport) -> (r: AisContact)
    ensures
        r@ == message_contact(MessageView::PositionReport(*pos)),
{
    let mut contact = contact_at(&pos.at);
    contact.nav_status = match &pos.navigation_status {
        Some(s) => Some(nav_status_to_code(s)),
        None => None,
    };
    contact.rot_rads = turning(pos.rate_of_turn);
    contact
}

/// Static and voyage data.
pub fn from_static_voyage(data: &StaticAndVoyageRelatedData) -> (r: AisContact)
    requires
        data.dimensions.fit(),
    ensures
        r@ == message_contact(data@),
{
    let mut contact = AisContact::of(data.mmsi);
    contact.name = Some(data.vessel_name.clone());
    contact.callsign = Some(data.callsign.clone());
    contact.imo = Some(data.imo_number);
    contact.ship_type = data.ship_type;
    contact.destination = Some(data.destination.clone());
    contact.draught = Some(Expr::Single(data.draught));
    contact.length = extent(data.dimensions.to_bow, data.dimensions.to_stern);
    contact.beam = extent(data.dimensions.to_port, data.dimensions.to_starboard);
    contact
}

/// Class B position report.
pub fn from_class_b(pos: &Whereabouts) -> (r: AisContact)
    ensures
        r@ == message_contact(MessageView::StandardClassBPositionReport(*pos)),
{
    contact_at(pos)
}

/// Extended class B position report.
pub fn from_class_b_extended(pos: &ExtendedClassBPositionReport) -> (r: AisContact)
    requires
        pos.dimensions.fit(),
    ensures
        r@ == message_contact(pos@),
{
    let mut contact = contact_at(&pos.at);
    contact.name = Some(pos.name.clone());
    contact.ship_type = pos.type_of_ship_and_cargo;
    contact.length = extent(pos.dimensions.to_bow, pos.dimensions.to_stern);
    contact.beam = extent(pos.dimensions.to_port, pos.dimensions.to_starboard);
    contact
}

/// Report of an aid to navigation.
pub fn from_aton(aton: &AidToNavigationReport) -> (r: AisContact)
    ensures
        r@ == message_contact(aton@),
{
    let mut contact = AisContact::of(aton.mmsi);
    contact.position = both(aton.latitude, aton.longitude);
    contact.name = Some(aton.name.clone());
    contact
}

/// Static data report: the name in part A; call sign, type and size in part B.
pub fn from_static_data_report(sdr: &StaticDataReport) -> (r: AisContact)
    requires
        sdr@.fits(),
    ensures
        r@ == message_contact(sdr@),
{
    let mut contact = AisContact::of(sdr.mmsi);
    match &sdr.message_part {
        MessagePart::PartA { vessel_name } => {
            contact.name = Some(vessel_name.clone());
        },
        MessagePart::PartB { ship_type, callsign, dimensions } => {
            contact.callsign = Some(callsign.clone());
            contact.ship_type = *ship_type;
            contact.length = extent(dimensions.to_bow, dimensions.to_stern);
            contact.beam = extent(dimensions.to_port, dimensions.to_starboard);
        },
        MessagePart::Unknown => {},
    }
    contact
}

/// The contact of a message.
pub fn message_to_contact(message: &AisMessage) -> (r: AisContact)
    requires
        message@.fits(),
    ensures
        r@ == message_contact(message@),
{
    match message {
        AisMessage::PositionReport(m) => from_position_report(m),
        AisMessage::StaticAndVoyageRelatedData(m) => from_static_voyage(m),
        AisMessage::StandardClassBPositionReport(m) => from_class_b(m),
        AisMessage::ExtendedClassBPositionReport(m) => from_class_b_extended(m),
        AisMessage::AidToNavigationReport(m) => from_aton(m),
        AisMessage::StaticDataReport(m) => from_static_data_report(m),
    }
}

} // verus!
