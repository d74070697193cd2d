//! Reassembly and decoding of AIS sentences, by the `ais` crate.
//!
//! A message can come in several sentences. The crate's parser takes one
//! sentence after the other and hands out the armoured payload of a message once
//! it is complete; the payload is then decoded. What the parser makes of a
//! sentence depends on the sentences before it and on nothing else.
use crate::nmea0183::ais_report::{
    AidToNavigationReport, AisMessage, Dimensions, Direction, ExtendedClassBPositionReport,
    MessagePart, MessageView, NavigationStatus, PositionReport, RateOfTurn,
    StaticAndVoyageRelatedData, StaticDataReport, Whereabouts,
};
use ais::messages::position_report::NavigationStatus as Status;
use ais::messages::static_data_report::MessagePart as Part;
use ais::messages::{navigation, AisMessage as Message};
use ais::{AisFragments, AisParser};
use vstd::prelude::*;

verus! {

/// The parser of the `ais` crate, which holds the fragments of an unfinished message.
#[verifier::external_type_specification]
#[verifier::external_body]
pub struct ExAisParser(ais::AisParser);

/// The sentences that a parser was fed, in order.
pub uninterp spec fn parser_lines(parser: AisParser) -> Seq<Seq<u8>>;

/// What came of one sentence.
#[derive(Debug)]
pub struct AisPart {
    /// The message is complete.
    pub complete: bool,
    pub num_fragments: u8,
    pub fragment_number: u8,
    /// The armoured payload: of the message where it is complete, else of the sentence.
    pub data: Vec<u8>,
    /// Bits that the payload was filled up with.
    pub fill_bit_count: u8,
}

/// The view of an [`AisPart`].
pub struct PartView {
    pub complete: bool,
    pub num_fragments: u8,
    pub fragment_number: u8,
    pub data: Seq<u8>,
    pub fill_bit_count: u8,
}

impl AisPart {
    pub open spec fn view(&self) -> PartView {
        PartView {
            complete: self.complete,
            num_fragments: self.num_fragments,
            fragment_number: self.fragment_number,
            data: self.data@,
            fill_bit_count: self.fill_bit_count,
        }
    }
}

/// The view of a part that may be missing.
pub open spec fn opt_part(part: Option<AisPart>) -> Option<PartView> {
    match part {
        Some(p) => Some(p@),
        None => None,
    }
}

/// What `ais::AisParser::parse` makes of a sentence, after the given ones.
pub uninterp spec fn ais_part_of(lines: Seq<Seq<u8>>, line: Seq<u8>) -> Option<PartView>;

/// The number of the last fragment that was taken in.
pub open spec fn last_fragment(lines: Seq<Seq<u8>>) -> u8
    decreases lines.len(),
{
    if lines.len() == 0 {
        0
    } else {
        match ais_part_of(lines.drop_last(), lines.last()) {
            Some(p) => if p.complete && p.num_fragments == 1 {
                last_fragment(lines.drop_last())
            } else {
                p.fragment_number
            },
            None => last_fragment(lines.drop_last()),
        }
    }
}

// ---------------------------------------------------------------------------
// Fragment numbers
// ---------------------------------------------------------------------------

pub open spec fn is_digit(b: u8) -> bool {
    0x30 <= b <= 0x39
}

/// Where the digits that begin at `at` end.
pub open spec fn digits_end(line: Seq<u8>, at: int) -> int
    decreases line.len() - at,
{
    if 0 <= at < line.len() && is_digit(line[at]) {
        digits_end(line, at + 1)
    } else {
        at
    }
}

/// The number that digits denote.
pub open spec fn digits_value(digits: Seq<u8>) -> nat
    decreases digits.len(),
{
    if digits.len() == 0 {
        0
    } else {
        (digits_value(digits.drop_last()) * 10 + (digits.last() - 0x30)) as nat
    }
}

/// The number of one or more digits at `at`, if it fits a byte, and where it ends.
pub open spec fn number_at(line: Seq<u8>, at: int) -> Option<(u8, int)> {
    let end = digits_end(line, at);
    if at < end && digits_value(line.subrange(at, end)) <= 255 {
        Some((digits_value(line.subrange(at, end)) as u8, end))
    } else {
        None
    }
}

/// Where the first backslash at or after `at` stands.
pub open spec fn backslash_from(line: Seq<u8>, at: int) -> Option<int>
    decreases line.len() - at,
{
    if 0 <= at < line.len() {
        if line[at] == 0x5C {
            Some(at)
        } else {
            backslash_from(line, at + 1)
        }
    } else {
        None
    }
}

/// Where the sentence itself begins: behind a tag block in backslashes, where there is
/// one.
pub open spec fn sentence_start(line: Seq<u8>) -> int {
    if line.len() > 0 && line[0] == 0x5C {
        match backslash_from(line, 1) {
            Some(at) => at + 1,
            None => 0,
        }
    } else {
        0
    }
}

/// The number of fragments and the fragment number that a sentence gives, behind its
/// start sign and five letters. Only these fields are looked at.
pub open spec fn fragment_fields(line: Seq<u8>) -> Option<(u8, u8)> {
    let start = sentence_start(line);
    if start < line.len() && (line[start] == 0x21 || line[start] == 0x24) && start + 6 < line.len()
        && line[start + 6] == 0x2C {
        match number_at(line, start + 7) {
            Some((count, end)) => if end < line.len() && line[end] == 0x2C {
                match number_at(line, end + 1) {
                    Some((n, _)) => Some((count, n)),
                    None => None,
                }
            } else {
                None
            },
            None => None,
        }
    } else {
        None
    }
}

/// A sentence follows on the fragment that was taken in last: its number is not below
/// it, unless it stands alone or begins a new message.
pub open spec fn follows(line: Seq<u8>, last: u8) -> bool {
    match fragment_fields(line) {
        Some((count, n)) => n >= last || (n >= 1 && count == 1) || (n == 1 && count > 1),
        None => true,
    }
}

fn read_number(line: &[u8], at: usize) -> (r: Option<(u8, usize)>)
    requires
        at <= line@.len(),
    ensures
        match r {
            Some((v, end)) => number_at(line@, at as int) == Some((v, end as int)),
            None => number_at(line@, at as int) is None,
        },
        r matches Some((v, end)) ==> end <= line@.len(),
{
    let mut i: usize = at;
    let mut value: u32 = 0;
    let mut fits = true;
    assert(line@.subrange(at as int, at as int) =~= Seq::empty());
    while i < line.len() && 0x30 <= line[i] && line[i] <= 0x39
        invariant
            at <= i <= line@.len(),
            digits_end(line@, at as int) == digits_end(line@, i as int),
            fits ==> value == digits_value(line@.subrange(at as int, i as int)) && value <= 255,
            !fits ==> digits_value(line@.subrange(at as int, i as int)) > 255,
        decreases line@.len() - i,
    {
        let ghost before = line@.subrange(at as int, i as int);
        let ghost now = line@.subrange(at as int, i + 1);
        proof {
            assert(now.drop_last() =~= before);
            assert(now.last() == line@[i as int]);
        }
        if fits {
            value = value * 10 + (line[i] - 0x30) as u32;
            if value > 255 {
                fits = false;
            }
        }
        i += 1;
    }
    if i > at && fits {
        Some((value as u8, i))
    } else {
        None
    }
}

fn find_backslash(line: &[u8], at: usize) -> (r: Option<usize>)
    ensures
        match r {
            Some(i) => backslash_from(line@, at as int) == Some(i as int) && i < line@.len(),
            None => backslash_from(line@, at as int) is None,
        },
{
    let mut i: usize = at;
    while i < line.len()
        invariant
            at <= i,
            i <= line@.len() || i == at,
            backslash_from(line@, at as int) == backslash_from(line@, i as int),
        decreases line@.len() - i,
    {
        if line[i] == 0x5C {
            return Some(i);
        }
        i += 1;
    }
    None
}

/// The number of fragments and the fragment number that a sentence gives.
pub fn read_fragment_fields(line: &[u8]) -> (r: Option<(u8, u8)>)
    ensures
        r == fragment_fields(line@),
{
    let start: usize = if line.len() > 0 && line[0] == 0x5C {
        match find_backslash(line, 1) {
            Some(i) => i + 1,
            None => 0,
        }
    } else {
        0
    };
    if start >= line.len() || !(line[start] == 0x21 || line[start] == 0x24) || line.len() - start
        <= 6 || line[start + 6] != 0x2C {
        return None;
    }
    match read_number(line, start + 7) {
        Some((count, end)) => if end < line.len() && line[end] == 0x2C {
            match read_number(line, end + 1) {
                Some((n, _)) => Some((count, n)),
                None => None,
            }
        } else {
            None
        },
        None => None,
    }
}

// ---------------------------------------------------------------------------
// The parser
// ---------------------------------------------------------------------------

/// Wraps `ais::AisParser::new`: a parser that was fed nothing.
#[verifier::external_body]
pub(crate) fn new_parser() -> (r: AisParser)
    ensures
        parser_lines(r) == Seq::<Seq<u8>>::empty(),
{
    AisParser::new()
}

/// Wraps `ais::AisParser::parse`, without decoding. The result is a function of the
/// sentences fed so far and this one; a payload is never empty and is filled up with
/// fewer than six bits. The crate subtracts the last fragment number from this one,
/// so a sentence that does not follow on it is left out.
#[verifier::external_body]
pub(crate) fn feed(parser: &mut AisParser, line: &[u8]) -> (r: Option<AisPart>)
    requires
        follows(line@, last_fragment(parser_lines(*old(parser)))),
    ensures
        parser_lines(*final(parser)) == parser_lines(*old(parser)).push(line@),
        opt_part(r) == ais_part_of(parser_lines(*old(parser)), line@),
        r matches Some(p) ==> p.data@.len() > 0 && p.fill_bit_count < 6,
{
    let (complete, s) = match parser.parse(line, false).ok()? {
        AisFragments::Complete(s) => (true, s),
        AisFragments::Incomplete(s) => (false, s),
    };
    Some(
        AisPart {
            complete,
            num_fragments: s.num_fragments,
            fragment_number: s.fragment_number,
            data: s.data,
            fill_bit_count: s.fill_bit_count,
        },
    )
}

// ---------------------------------------------------------------------------
// Messages
// ---------------------------------------------------------------------------

/// The message that `ais::messages::parse` reads from an armoured payload, after
/// `ais::messages::unarmor`, where it is of a kind that is used.
pub uninterp spec fn ais_message_of(data: Seq<u8>, fill: u8) -> Option<MessageView>;

/// Wraps `ais::messages::parse` for the position, speed and course of a class A position
/// report.
#[verifier::external_body]
fn position_whereabouts(data: &[u8], fill: u8) -> (r: Option<Whereabouts>)
    requires
        data@.len() > 0,
        fill < 6,
    ensures
        r == (match ais_message_of(data@, fill) {
            Some(MessageView::PositionReport(m)) => Some(m.at),
            _ => None,
        }),
{
    match ais::messages::parse(&ais::messages::unarmor(data, fill as usize).ok()?).ok()? {
        Message::PositionReport(m) => Some(
            Whereabouts {
                mmsi: m.mmsi,
                latitude: m.latitude.map(|x| x.to_bits()),
                longitude: m.longitude.map(|x| x.to_bits()),
                speed_over_ground: m.speed_over_ground.map(|x| x.to_bits()),
                course_over_ground: m.course_over_ground.map(|x| x.to_bits()),
                true_heading: m.true_heading,
            },
        ),
        _ => None,
    }
}

/// Wraps `ais::messages::parse` for the rate of turn of a class A position report, with
/// `RateOfTurn::rate` and `RateOfTurn::direction`.
#[verifier::external_body]
fn position_turn(data: &[u8], fill: u8) -> (r: Option<RateOfTurn>)
    requires
        data@.len() > 0,
        fill < 6,
    ensures
        r == (match ais_message_of(data@, fill) {
            Some(MessageView::PositionReport(m)) => m.rate_of_turn,
            _ => None,
        }),
{
    let m = match ais::messages::parse(&ais::messages::unarmor(data, fill as usize).ok()?).ok()? {
        Message::PositionReport(m) => m,
        _ => return None,
    };
    let rot = m.rate_of_turn?;
    let direction = match rot.direction() {
        Some(navigation::Direction::Port) => Some(Direction::Port),
        Some(navigation::Direction::Starboard) => Some(Direction::Starboard),
        None => None,
    };
    Some(RateOfTurn { rate: rot.rate().map(|x| x.to_bits()), direction })
}

/// The status is one of those that every vessel can have under way, at anchor or aground.
pub open spec fn common_status(s: NavigationStatus) -> bool {
    match s {
        NavigationStatus::UnderWayUsingEngine => true,
        NavigationStatus::AtAnchor => true,
        NavigationStatus::NotUnderCommand => true,
        NavigationStatus::RestrictedManouverability => true,
        NavigationStatus::ConstrainedByDraught => true,
        NavigationStatus::Moored => true,
        NavigationStatus::Aground => true,
        NavigationStatus::EngagedInFishing => true,
        _ => false,
    }
}

/// Wraps `ais::messages::parse` for the navigational status of a class A position report,
/// if it is a common one.
#[verifier::external_body]
fn common_position_status(data: &[u8], fill: u8) -> (r: Option<NavigationStatus>)
    requires
        data@.len() > 0,
        fill < 6,
    ensures
        r == (match ais_message_of(data@, fill) {
            Some(MessageView::PositionReport(m)) => match m.navigation_status {
                Some(s) => if common_status(s) {
                    Some(s)
                } else {
                    None
                },
                None => None,
            },
            _ => None,
        }),
{
    let message = ais::messages::parse(&ais::messages::unarmor(data, fill as usize).ok()?).ok()?;
    let Message::PositionReport(m) = message else { return None };
    match m.navigation_status? {
        Status::UnderWayUsingEngine => Some(NavigationStatus::UnderWayUsingEngine),
        Status::AtAnchor => Some(NavigationStatus::AtAnchor),
        Status::NotUnderCommand => Some(NavigationStatus::NotUnderCommand),
        Status::RestrictedManouverability => Some(NavigationStatus::RestrictedManouverability),
        Status::ConstrainedByDraught => Some(NavigationStatus::ConstrainedByDraught),
        Status::Moored => Some(NavigationStatus::Moored),
        Status::Aground => Some(NavigationStatus::Aground),
        Status::EngagedInFishing => Some(NavigationStatus::EngagedInFishing),
        _ => None,
    }
}

/// Wraps `ais::messages::parse` for the navigational status of a class A position report,
/// if it is not a common one.
#[verifier::external_body]
fn other_position_status(data: &[u8], fill: u8) -> (r: Option<NavigationStatus>)
    requires
        data@.len() > 0,
        fill < 6,
    ensures
        r == (match ais_message_of(data@, fill) {
            Some(MessageView::PositionReport(m)) => match m.navigation_status {
                Some(s) => if !common_status(s) {
                    Some(s)
                } else {
                    None
                },
                None => None,
            },
            _ => None,
        }),
{
    let message = ais::messages::parse(&ais::messages::unarmor(data, fill as usize).ok()?).ok()?;
    let Message::PositionReport(m) = message else { return None };
    match m.navigation_status? {
        Status::UnderWaySailing => Some(NavigationStatus::UnderWaySailing),
        Status::ReservedForHSC => Some(NavigationStatus::ReservedForHSC),
        Status::ReservedForWIG => Some(NavigationStatus::ReservedForWIG),
        Status::Reserved01 => Some(NavigationStatus::Reserved01),
        Status::Reserved02 => Some(NavigationStatus::Reserved02),
        Status::Reserved03 => Some(NavigationStatus::Reserved03),
        Status::AisSartIsActive => Some(NavigationStatus::AisSartIsActive),
        Status::Unknown(x) => Some(NavigationStatus::Unknown(x)),
        _ => None,
    }
}

fn position_status(data: &[u8], fill: u8) -> (r: Option<NavigationStatus>)
    requires
        data@.len() > 0,
        fill < 6,
    ensures
        r == (match ais_message_of(data@, fill) {
            Some(MessageView::PositionReport(m)) => m.navigation_status,
            _ => None,
        }),
{
    match common_position_status(data, fill) {
        Some(s) => Some(s),
        None => other_position_status(data, fill),
    }
}

/// Wraps `ais::messages::parse` for static and voyage data. The fields of the dimensions
/// have nine and six bits.
#[verifier::external_body]
fn static_voyage(data: &[u8], fill: u8) -> (r: Option<StaticAndVoyageRelatedData>)
    requires
        data@.len() > 0,
        fill < 6,
    ensures
        match r {
            Some(m) => ais_message_of(data@, fill) == Some(m@),
            None => !(ais_message_of(data@, fill) matches Some(
                MessageView::StaticAndVoyageRelatedData { .. },
            )),
        },
        r matches Some(m) ==> m.dimensions.fit(),
{
    let message = ais::messages::parse(&ais::messages::unarmor(data, fill as usize).ok()?).ok()?;
    let Message::StaticAndVoyageRelatedData(m) = message else { return None };
    let (to_bow, to_stern) = (m.dimension_to_bow, m.dimension_to_stern);
    let (to_port, to_starboard) = (m.dimension_to_port, m.dimension_to_starboard);
    Some(
        StaticAndVoyageRelatedData {
            mmsi: m.mmsi, imo_number: m.imo_number,
            callsign: m.callsign, vessel_name: m.vessel_name,
            ship_type: m.ship_type.map(|s| s.into()),
            dimensions: Dimensions { to_bow, to_stern, to_port, to_starboard },
            draught: m.draught.to_bits(),
            destination: m.destination,
        },
    )
}

/// Wraps `ais::messages::parse` for a class B position report.
#[verifier::external_body]
fn class_b(data: &[u8], fill: u8) -> (r: Option<Whereabouts>)
    requires
        data@.len() > 0,
        fill < 6,
    ensures
        r == (match ais_message_of(data@, fill) {
            Some(MessageView::StandardClassBPositionReport(at)) => Some(at),
            _ => None,
        }),
{
    match ais::messages::parse(&ais::messages::unarmor(data, fill as usize).ok()?).ok()? {
        Message::StandardClassBPositionReport(m) => Some(
            Whereabouts {
                mmsi: m.mmsi,
                latitude: m.latitude.map(|x| x.to_bits()),
                longitude: m.longitude.map(|x| x.to_bits()),
                speed_over_ground: m.speed_over_ground.map(|x| x.to_bits()),
                course_over_ground: m.course_over_ground.map(|x| x.to_bits()),
                true_heading: m.true_heading,
            },
        ),
        _ => None,
    }
}

/// Wraps `ais::messages::parse` for the position, speed and course of an extended class B
/// position report.
#[verifier::external_body]
fn extended_whereabouts(data: &[u8], fill: u8) -> (r: Option<Whereabouts>)
    requires
        data@.len() > 0,
        fill < 6,
    ensures
        r == (match ais_message_of(data@, fill) {
            Some(MessageView::ExtendedClassBPositionReport { at, .. }) => Some(at),
            _ => None,
        }),
{
    match ais::messages::parse(&ais::messages::unarmor(data, fill as usize).ok()?).ok()? {
        Message::ExtendedClassBPositionReport(m) => Some(
            Whereabouts {
                mmsi: m.mmsi,
                latitude: m.latitude.map(|x| x.to_bits()),
                longitude: m.longitude.map(|x| x.to_bits()),
                speed_over_ground: m.speed_over_ground.map(|x| x.to_bits()),
                course_over_ground: m.course_over_ground.map(|x| x.to_bits()),
                true_heading: m.true_heading,
            },
        ),
        _ => None,
    }
}

/// Wraps `ais::messages::parse` for an extended class B position report, beside
/// whereabouts that are passed through. The fields of the dimensions have nine and six
/// bits.
#[verifier::external_body]
fn class_b_extended(data: &[u8], fill: u8, at: Whereabouts) -> (r: Option<
    ExtendedClassBPositionReport,
>)
    requires
        data@.len() > 0,
        fill < 6,
    ensures
        match (r, ais_message_of(data@, fill)) {
            (
                Some(m),
                Some(
                    MessageView::ExtendedClassBPositionReport {
                        at: _,
                        name,
                        type_of_ship_and_cargo,
                        dimensions,
                    },
                ),
            ) => {
                &&& m@ == MessageView::ExtendedClassBPositionReport {
                    at,
                    name,
                    type_of_ship_and_cargo,
                    dimensions,
                }
            },
            (Some(_), _) => false,
            (None, Some(MessageView::ExtendedClassBPositionReport { .. })) => false,
            (None, _) => true,
        },
        r matches Some(m) ==> m.dimensions.fit(),
{
    let message = ais::messages::parse(&ais::messages::unarmor(data, fill as usize).ok()?).ok()?;
    let Message::ExtendedClassBPositionReport(m) = message else { return None };
    let (to_bow, to_stern) = (m.dimension_to_bow, m.dimension_to_stern);
    let (to_port, to_starboard) = (m.dimension_to_port, m.dimension_to_starboard);
    Some(
        ExtendedClassBPositionReport {
            at,
            name: m.name,
            type_of_ship_and_cargo: m.type_of_ship_and_cargo.map(|s| s.into()),
            dimensions: Dimensions { to_bow, to_stern, to_port, to_starboard },
        },
    )
}

/// Wraps `ais::messages::parse` for the report of an aid to navigation.
#[verifier::external_body]
fn aid_to_navigation(data: &[u8], fill: u8) -> (r: Option<AidToNavigationReport>)
    requires
        data@.len() > 0,
        fill < 6,
    ensures
        match r {
            Some(m) => ais_message_of(data@, fill) == Some(m@),
            None => !(ais_message_of(data@, fill) matches Some(
                MessageView::AidToNavigationReport { .. },
            )),
        },
{
    match ais::messages::parse(&ais::messages::unarmor(data, fill as usize).ok()?).ok()? {
        Message::AidToNavigationReport(m) => Some(
            AidToNavigationReport {
                mmsi: m.mmsi,
                latitude: m.latitude.map(|x| x.to_bits()),
                longitude: m.longitude.map(|x| x.to_bits()),
                name: m.name,
            },
        ),
        _ => None,
    }
}

/// A message is a static data report.
pub open spec fn is_static_data(m: Option<MessageView>) -> bool {
    m matches Some(MessageView::StaticDataPartA { .. })
        || m matches Some(MessageView::StaticDataPartB { .. })
        || m matches Some(MessageView::StaticDataUnknown { .. })
}

/// Wraps `ais::messages::parse` for a static data report. The fields of the dimensions
/// have nine and six bits.
#[verifier::external_body]
fn static_data(data: &[u8], fill: u8) -> (r: Option<StaticDataReport>)
    requires
        data@.len() > 0,
        fill < 6,
    ensures
        match r {
            Some(m) => ais_message_of(data@, fill) == Some(m@) && m@.fits(),
            None => !is_static_data(ais_message_of(data@, fill)),
        },
{
    let message = ais::messages::parse(&ais::messages::unarmor(data, fill as usize).ok()?).ok()?;
    let Message::StaticDataReport(m) = message else { return None };
    let message_part = match m.message_part {
        Part::PartA { vessel_name } => MessagePart::PartA { vessel_name },
        Part::PartB {
            ship_type, callsign, dimension_to_bow: to_bow, dimension_to_stern: to_stern,
            dimension_to_port: to_port, dimension_to_starboard: to_starboard, ..
        } => {
            let dimensions = Dimensions { to_bow, to_stern, to_port, to_starboard };
            MessagePart::PartB { ship_type: ship_type.map(|s| s.into()), callsign, dimensions }
        },
        Part::Unknown(_) => MessagePart::Unknown,
    };
    Some(StaticDataReport { mmsi: m.mmsi, message_part })
}

/// Decodes an armoured payload.
pub fn decode(data: &[u8], fill: u8) -> (r: Option<AisMessage>)
    requires
        data@.len() > 0,
        fill < 6,
    ensures
        match r {
            Some(m) => ais_message_of(data@, fill) == Some(m@) && m@.fits(),
            None => ais_message_of(data@, fill) is None,
        },
{
    if let Some(at) = position_whereabouts(data, fill) {
        return Some(
            AisMessage::PositionReport(
                PositionReport {
                    at,
                    navigation_status: position_status(data, fill),
                    rate_of_turn: position_turn(data, fill),
                },
            ),
        );
    }
    if let Some(m) = static_voyage(data, fill) {
        return Some(AisMessage::StaticAndVoyageRelatedData(m));
    }
    if let Some(at) = class_b(data, fill) {
        return Some(AisMessage::StandardClassBPositionReport(at));
    }
    if let Some(at) = extended_whereabouts(data, fill) {
        if let Some(m) = class_b_extended(data, fill, at) {
            return Some(AisMessage::ExtendedClassBPositionReport(m));
        }
    }
    if let Some(m) = aid_to_navigation(data, fill) {
        return Some(AisMessage::AidToNavigationReport(m));
    }
    if let Some(m) = static_data(data, fill) {
        return Some(AisMessage::StaticDataReport(m));
    }
    None
}

} // verus!
