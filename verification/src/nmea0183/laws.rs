//! What AIS messages, radio calls and sentences report.
use crate::algebra::{quotient_times_divisor, signs_move_out};
use crate::contact_laws::{
    contact_reports_its_motion, contact_reports_its_particulars, member_shown,
};
use crate::expr::{lit, Expr};
use crate::ideal::ideal;
use crate::nmea0183::ais_decode::{decoded_ais, takes_in};
use crate::nmea0183::ais_report::{
    message_contact, Dimensions, Direction, MessageView, NavigationStatus, PositionReport,
    RateOfTurn, Whereabouts, MINUS_ONE,
};
use crate::nmea0183::dsc::{
    call_deltas, decoded_dsc, distress_delta, distress_label, distress_path, vessel_delta, DscCall,
};
use crate::nmea0183::input::{
    is_white, line_deltas, lines_after, trimmed, trimmed_back, trimmed_front,
};
use crate::nmea0183::parse::Parsed;
use crate::nmea0183::{sentence_delta, sentence_entries, sentence_read, text_delta, Sentence};
use crate::paths::{
    group_paths, one_update_tells_all, only, place_of, text_as_read, told, under,
};
use crate::signalk::{
    notification_view, DeltaView, NotificationMethod, NotificationState, SourceKindView, SourceView,
    ValueView,
};
use crate::sentences::depth::DbsData;
use crate::text::{digits, occurs_in, padded};
use crate::units::{DEG_TO_RAD, KNOTS_TO_MS, ONE, SIXTY};
use vstd::prelude::*;
use vstd::utf8::encode_utf8;

verus! {

// ---------------------------------------------------------------------------
// AIS
// ---------------------------------------------------------------------------

/// A reading times a constant, where there is one.
pub open spec fn measured(x: Option<u32>, constant: u64) -> Seq<ValueView> {
    match x {
        Some(s) => only(Expr::Single(s).times(lit(constant))),
        None => Seq::empty(),
    }
}

/// Whereabouts are told of the vessel with the MMSI: the position, speed in metres per second,
/// course and heading in radians.
pub open spec fn tells_whereabouts(d: DeltaView, at: Whereabouts) -> bool {
    &&& d.context == Some("vessels.urn:mrn:imo:mmsi:"@ + padded(at.mmsi as nat, 9))
    &&& told(Some(d), "navigation.position"@) == (match (at.latitude, at.longitude) {
        (Some(lat), Some(lon)) => place_of(Expr::Single(lat), Expr::Single(lon)),
        _ => Seq::empty(),
    })
    &&& told(Some(d), "navigation.speedOverGround"@) == measured(at.speed_over_ground, KNOTS_TO_MS)
    &&& told(Some(d), "navigation.courseOverGroundTrue"@) == measured(
        at.course_over_ground,
        DEG_TO_RAD,
    )
    &&& told(Some(d), "navigation.headingTrue"@) == (match at.true_heading {
        Some(h) => only(Expr::Uint(h as u64).times(lit(DEG_TO_RAD))),
        None => Seq::empty(),
    })
}

/// Dimensions are told as the length from bow to stern and the beam from port to starboard,
/// where they are above zero.
pub open spec fn tells_size(d: DeltaView, size: Dimensions) -> bool {
    &&& told(Some(d), "design.length"@) == member_shown(
        "overall"@,
        if size.to_bow + size.to_stern > 0 {
            Some(ValueView::Number(Expr::Uint((size.to_bow + size.to_stern) as u64)))
        } else {
            None
        },
    )
    &&& told(Some(d), "design.beam"@) == if size.to_port + size.to_starboard > 0 {
        only(Expr::Uint((size.to_port + size.to_starboard) as u64))
    } else {
        Seq::empty()
    }
}

/// A ship type is told by its number.
pub open spec fn tells_type(d: DeltaView, ship_type: Option<u8>) -> bool {
    told(Some(d), "design.aisShipType"@) == member_shown(
        "id"@,
        match ship_type {
            Some(n) => Some(ValueView::Int(n as i64)),
            None => None,
        },
    )
}

/// A class A position report tells the whereabouts, and the status by its name.
pub proof fn class_a_report_tells_its_whereabouts(p: PositionReport, source: SourceView)
    ensures
        ({
            let d = message_contact(MessageView::PositionReport(p)).delta(source);
            &&& tells_whereabouts(d, p.at)
            &&& told(Some(d), "navigation.state"@) == text_as_read(
                match p.navigation_status {
                    Some(NavigationStatus::UnderWayUsingEngine) => Some("motoring"@),
                    Some(NavigationStatus::AtAnchor) => Some("anchored"@),
                    Some(NavigationStatus::NotUnderCommand) => Some("not under command"@),
                    Some(NavigationStatus::RestrictedManouverability) => Some(
                        "restricted manouverability"@,
                    ),
                    Some(NavigationStatus::ConstrainedByDraught) => Some("constrained by draft"@),
                    Some(NavigationStatus::Moored) => Some("moored"@),
                    Some(NavigationStatus::Aground) => Some("aground"@),
                    Some(NavigationStatus::EngagedInFishing) => Some("fishing"@),
                    Some(NavigationStatus::UnderWaySailing) => Some("sailing"@),
                    Some(NavigationStatus::ReservedForHSC) => Some(
                        "hazardous material high speed"@,
                    ),
                    Some(NavigationStatus::ReservedForWIG) => Some(
                        "hazardous material wing in ground"@,
                    ),
                    Some(NavigationStatus::AisSartIsActive) => Some("ais-sart"@),
                    Some(NavigationStatus::Unknown(n)) => crate::contact::state_text(n),
                    _ => None,
                },
            )
        }),
{
    let c = message_contact(MessageView::PositionReport(p));
    contact_reports_its_motion(c, source);
}

/// A rate of turn is told in radians per second, from degrees per minute: negative to port,
/// positive to starboard.
pub proof fn turning_to_port_is_negative(
    ev: spec_fn(Expr) -> real,
    p: PositionReport,
    rate: u32,
    direction: Option<Direction>,
    source: SourceView,
)
    requires
        ideal(ev),
        ev(lit(SIXTY)) == 60real,
        ev(lit(MINUS_ONE)) == -1real,
        p.rate_of_turn == Some(RateOfTurn { rate: Some(rate), direction }),
    ensures
        exists|e: Expr| #[trigger]
            only(e) == told(
                Some(message_contact(MessageView::PositionReport(p)).delta(source)),
                "navigation.rateOfTurn"@,
            ) && ev(e) * 60real == if direction == Some(Direction::Port) {
                -(ev(Expr::Single(rate)) * ev(lit(DEG_TO_RAD)))
            } else {
                ev(Expr::Single(rate)) * ev(lit(DEG_TO_RAD))
            },
{
    let c = message_contact(MessageView::PositionReport(p));
    contact_reports_its_motion(c, source);
    let e = c.rot_rads->0;
    let sign = if direction == Some(Direction::Port) {
        lit(MINUS_ONE)
    } else {
        lit(ONE)
    };
    let r = ev(Expr::Single(rate));
    let k = ev(lit(DEG_TO_RAD));
    assert(e == sign.times(Expr::Single(rate)).times(lit(DEG_TO_RAD)).over(lit(SIXTY)));
    assert(ev(sign.times(Expr::Single(rate))) == ev(sign) * r);
    signs_move_out(1real, r);
    signs_move_out(r, k);
    quotient_times_divisor(ev(sign) * r * k, 60real);
    assert(only(e) == told(Some(c.delta(source)), "navigation.rateOfTurn"@));
}

/// Without a rate, nothing is told of turning.
pub proof fn no_rate_no_turning(p: PositionReport, source: SourceView)
    requires
        p.rate_of_turn matches Some(rot) ==> rot.rate is None,
    ensures
        told(
            Some(message_contact(MessageView::PositionReport(p)).delta(source)),
            "navigation.rateOfTurn"@,
        ) == Seq::<ValueView>::empty(),
{
    contact_reports_its_motion(message_contact(MessageView::PositionReport(p)), source);
}

/// A class B position report tells the whereabouts.
pub proof fn class_b_report_tells_its_whereabouts(at: Whereabouts, source: SourceView)
    ensures
        tells_whereabouts(
            message_contact(MessageView::StandardClassBPositionReport(at)).delta(source),
            at,
        ),
{
    contact_reports_its_motion(
        message_contact(MessageView::StandardClassBPositionReport(at)),
        source,
    );
}

/// An extended class B report tells the whereabouts, and name, type and size of the vessel.
pub proof fn extended_report_tells_whereabouts_and_vessel(
    at: Whereabouts,
    name: Seq<char>,
    type_of_ship_and_cargo: Option<u8>,
    dimensions: Dimensions,
    source: SourceView,
)
    ensures
        ({
            let d = message_contact(
                MessageView::ExtendedClassBPositionReport {
                    at,
                    name,
                    type_of_ship_and_cargo,
                    dimensions,
                },
            ).delta(source);
            &&& tells_whereabouts(d, at)
            &&& told(Some(d), "name"@) == seq![ValueView::Text(name)]
            &&& tells_type(d, type_of_ship_and_cargo)
            &&& tells_size(d, dimensions)
        }),
{
    let c = message_contact(
        MessageView::ExtendedClassBPositionReport {
            at,
            name,
            type_of_ship_and_cargo,
            dimensions,
        },
    );
    contact_reports_its_motion(c, source);
    contact_reports_its_particulars(c, source);
}

/// Static and voyage data tell name, call sign, IMO number, type, size, draught and destination.
pub proof fn voyage_data_tell_the_vessel(
    mmsi: u32,
    imo_number: u32,
    callsign: Seq<char>,
    vessel_name: Seq<char>,
    ship_type: Option<u8>,
    dimensions: Dimensions,
    draught: u32,
    destination: Seq<char>,
    source: SourceView,
)
    ensures
        ({
            let d = message_contact(
                MessageView::StaticAndVoyageRelatedData {
                    mmsi,
                    imo_number,
                    callsign,
                    vessel_name,
                    ship_type,
                    dimensions,
                    draught,
                    destination,
                },
            ).delta(source);
            &&& d.context == Some("vessels.urn:mrn:imo:mmsi:"@ + padded(mmsi as nat, 9))
            &&& told(Some(d), "name"@) == seq![ValueView::Text(vessel_name)]
            &&& told(Some(d), "communication.callsignVhf"@) == seq![ValueView::Text(callsign)]
            &&& told(Some(d), "registrations.imo"@) == seq![
                ValueView::Text("IMO "@ + digits(imo_number as nat)),
            ]
            &&& told(Some(d), "navigation.destination.commonName"@) == seq![
                ValueView::Text(destination),
            ]
            &&& told(Some(d), "design.draft"@) == member_shown(
                "maximum"@,
                Some(ValueView::Number(Expr::Single(draught))),
            )
            &&& tells_type(d, ship_type)
            &&& tells_size(d, dimensions)
        }),
{
    let c = message_contact(
        MessageView::StaticAndVoyageRelatedData {
            mmsi,
            imo_number,
            callsign,
            vessel_name,
            ship_type,
            dimensions,
            draught,
            destination,
        },
    );
    contact_reports_its_motion(c, source);
    contact_reports_its_particulars(c, source);
}

/// A report of an aid to navigation tells its name and position.
pub proof fn aid_report_tells_name_and_position(
    mmsi: u32,
    latitude: Option<u32>,
    longitude: Option<u32>,
    name: Seq<char>,
    source: SourceView,
)
    ensures
        ({
            let d = message_contact(
                MessageView::AidToNavigationReport { mmsi, latitude, longitude, name },
            ).delta(source);
            &&& d.context == Some("vessels.urn:mrn:imo:mmsi:"@ + padded(mmsi as nat, 9))
            &&& told(Some(d), "name"@) == seq![ValueView::Text(name)]
            &&& told(Some(d), "navigation.position"@) == (match (latitude, longitude) {
                (Some(lat), Some(lon)) => place_of(Expr::Single(lat), Expr::Single(lon)),
                _ => Seq::empty(),
            })
        }),
{
    let c = message_contact(
        MessageView::AidToNavigationReport { mmsi, latitude, longitude, name },
    );
    contact_reports_its_motion(c, source);
    contact_reports_its_particulars(c, source);
}

/// The two parts of static data tell the name, and call sign, type and size.
pub proof fn static_data_tell_their_part(
    mmsi: u32,
    vessel_name: Seq<char>,
    ship_type: Option<u8>,
    callsign: Seq<char>,
    dimensions: Dimensions,
    source: SourceView,
)
    ensures
        ({
            let a = message_contact(MessageView::StaticDataPartA { mmsi, vessel_name }).delta(
                source,
            );
            let b = message_contact(
                MessageView::StaticDataPartB { mmsi, ship_type, callsign, dimensions },
            ).delta(source);
            &&& a.context == Some("vessels.urn:mrn:imo:mmsi:"@ + padded(mmsi as nat, 9))
            &&& b.context == a.context
            &&& told(Some(a), "name"@) == seq![ValueView::Text(vessel_name)]
            &&& told(Some(b), "communication.callsignVhf"@) == seq![ValueView::Text(callsign)]
            &&& tells_type(b, ship_type)
            &&& tells_size(b, dimensions)
        }),
{
    let a = message_contact(MessageView::StaticDataPartA { mmsi, vessel_name });
    let b = message_contact(
        MessageView::StaticDataPartB { mmsi, ship_type, callsign, dimensions },
    );
    contact_reports_its_motion(a, source);
    contact_reports_its_motion(b, source);
    contact_reports_its_particulars(a, source);
    contact_reports_its_particulars(b, source);
}

// ---------------------------------------------------------------------------
// Radio calls
// ---------------------------------------------------------------------------

/// A radio call with a sender is told of the sender's vessel, with its position where the call
/// has one. Only a sentence that is a radio call by its letters counts.
pub proof fn call_is_told_of_its_sender(raw: Seq<char>, call: DscCall, mmsi: u32, label: Seq<char>)
    requires
        call.sender_mmsi == Some(mmsi),
    ensures
        !occurs_in(raw, "DSC"@) ==> decoded_dsc(raw, Some(call), label) is None,
        occurs_in(raw, "DSC"@) ==> (decoded_dsc(raw, Some(call), label) matches Some(list) && {
            let d = list[0];
            &&& list.len() == if call.category == Some(12u8) {
                2nat
            } else {
                1nat
            }
            &&& d.context == Some("vessels.urn:mrn:imo:mmsi:"@ + padded(mmsi as nat, 9))
            &&& d.updates[0].source.label == label
            &&& told(Some(d), "navigation.position"@) == (match call.position {
                Some(p) => place_of(Expr::Lit(p.latitude), Expr::Lit(p.longitude)),
                None => Seq::empty(),
            })
        }),
{
    broadcast use group_paths;

    let d = vessel_delta(call, mmsi, label);
    one_update_tells_all(d, "navigation.position"@);
    if let Some(p) = call.position {
        assert(under(d.updates[0].values, "navigation.position"@) =~= place_of(
            Expr::Lit(p.latitude),
            Expr::Lit(p.longitude),
        ));
    }
}

/// A distress call raises an emergency, seen and heard, in the sender's context, under the path
/// of its nature. It says the nature, the sender, and the position where the call has one.
pub proof fn distress_raises_an_emergency(call: DscCall, mmsi: u32, label: Seq<char>)
    requires
        call.category == Some(12u8),
    ensures
        call_deltas(call, mmsi, label).len() == 2,
        ({
            let d = call_deltas(call, mmsi, label)[1];
            let said = "DSC Distress: "@ + distress_label(call.first_telecommand) + " from MMSI "@
                + padded(mmsi as nat, 9);
            &&& d.context == Some("vessels.urn:mrn:imo:mmsi:"@ + padded(mmsi as nat, 9))
            &&& told(Some(d), distress_path(call.first_telecommand)) == seq![
                notification_view(
                    NotificationState::Emergency,
                    seq![NotificationMethod::Visual, NotificationMethod::Sound],
                    match call.position {
                        Some(p) => said + " at "@ + p.latitude_text@ + ","@ + p.longitude_text@,
                        None => said,
                    },
                ),
            ]
        }),
{
    broadcast use group_paths;

    let d = distress_delta(call, mmsi, label);
    one_update_tells_all(d, distress_path(call.first_telecommand));
    let list = d.updates[0].values;
    assert(under(list, distress_path(call.first_telecommand)) =~= seq![list[0].value]);
}

/// A notification is an object with three members: the state by its name, the names of the
/// methods in their order, and the message.
pub proof fn notification_has_its_members(
    state: NotificationState,
    methods: Seq<NotificationMethod>,
    message: Seq<char>,
    i: int,
)
    requires
        0 <= i < methods.len(),
    ensures
        notification_view(state, methods, message) matches ValueView::Object(fields) && {
            &&& fields.len() == 3
            &&& fields[0].key == "state"@
            &&& fields[0].value == ValueView::Text(
                match state {
                    NotificationState::Normal => "normal"@,
                    NotificationState::Alert => "alert"@,
                    NotificationState::Warn => "warn"@,
                    NotificationState::Alarm => "alarm"@,
                    NotificationState::Emergency => "emergency"@,
                },
            )
            &&& fields[1].key == "method"@
            &&& fields[1].value matches ValueView::List(names) && names.len() == methods.len()
                && names[i] == ValueView::Text(
                match methods[i] {
                    NotificationMethod::Visual => "visual"@,
                    NotificationMethod::Sound => "sound"@,
                },
            )
            &&& fields[2].key == "message"@
            &&& fields[2].value == ValueView::Text(message)
        },
{
}

/// The natures of distress, by their codes: each has its path and its name.
pub proof fn natures_have_paths_and_names(nature: u8)
    ensures
        ({
            let table = seq![
                ("notifications.fire"@, "Fire/Explosion"@),
                ("notifications.flooding"@, "Flooding"@),
                ("notifications.collision"@, "Collision"@),
                ("notifications.grounding"@, "Grounding"@),
                ("notifications.listing"@, "Listing/Capsizing"@),
                ("notifications.sinking"@, "Sinking"@),
                ("notifications.adrift"@, "Adrift"@),
                ("notifications.distress"@, "Undesignated distress"@),
                ("notifications.abandon"@, "Abandon ship"@),
                ("notifications.piracy"@, "Piracy"@),
                ("notifications.mob"@, "Man overboard"@),
            ];
            let named = (distress_path(Some(nature)), distress_label(Some(nature)));
            &&& nature < 11 ==> named == table[nature as int]
            &&& nature == 12 ==> named == ("notifications.distress"@, "EPIRB emission"@)
            &&& nature == 11 || nature > 12 ==> named == table[7]
        }),
        distress_path(None) == "notifications.distress"@,
        distress_label(None) == "Undesignated distress"@,
{
}

// ---------------------------------------------------------------------------
// Sentences
// ---------------------------------------------------------------------------

/// A sentence that says something is told of the own vessel, with the label and the talker that
/// stands behind the dollar sign; one that says nothing is not told.
pub proof fn sentence_is_told_of_the_own_vessel(
    s: Sentence,
    talker: Seq<char>,
    rest: Seq<char>,
    label: Seq<char>,
    path: Seq<char>,
)
    requires
        talker.len() == 2,
        (talker[0] as u32) < 0x80,
        (talker[1] as u32) < 0x80,
    ensures
        ({
            let raw = "$"@ + talker + rest;
            let d = sentence_delta(s, raw, label);
            &&& d is None <==> sentence_entries(s).len() == 0
            &&& told(d, path) == under(sentence_entries(s), path)
            &&& d matches Some(d) ==> d.context == Some("vessels.self"@) && d.updates.len() == 1
                && d.updates[0].source.label == label && d.updates[0].source.kind
                == (SourceKindView::Nmea0183 { talker })
        }),
{
    let raw = "$"@ + talker + rest;
    reveal_strlit("$");
    assert(raw.subrange(0, 1) =~= "$"@);
    let after = raw.skip(1);
    assert(after[0] == talker[0] && after[1] == talker[1]);
    assert(after.take(2) =~= talker);
    if sentence_entries(s).len() == 0 {
        assert(under(sentence_entries(s), path) =~= Seq::<ValueView>::empty());
    } else {
        one_update_tells_all(sentence_delta(s, raw, label)->0, path);
    }
}

/// What the parser reads is that kind of sentence with that content, whatever else was read from
/// the text. Depths below the surface come from their own reader.
pub proof fn parsed_sentence_goes_first(
    p: Parsed,
    depths: Option<DbsData>,
    read: Option<Sentence>,
)
    ensures
        sentence_read(Some(p), depths, read) == (match p {
            Parsed::Bod(d) => Some(Sentence::Bod(d)),
            Parsed::Bwc(d) => Some(Sentence::Bwc(d)),
            Parsed::Dbk(d) => Some(Sentence::Dbk(d)),
            Parsed::Dbs => match depths {
                Some(d) => Some(Sentence::Dbs(d)),
                None => read,
            },
            Parsed::Dpt(d) => Some(Sentence::Dpt(d)),
            Parsed::Gga(d) => Some(Sentence::Gga(d)),
            Parsed::Gll(d) => Some(Sentence::Gll(d)),
            Parsed::Gns(d) => Some(Sentence::Gns(d)),
            Parsed::Gsa(d) => Some(Sentence::Gsa(d)),
            Parsed::Hdt(d) => Some(Sentence::Hdt(d)),
            Parsed::Mda(d) => Some(Sentence::Mda(d)),
            Parsed::Mtw(d) => Some(Sentence::Mtw(d)),
            Parsed::Mwv(d) => Some(Sentence::Mwv(d)),
            Parsed::Rmc(d) => Some(Sentence::Rmc(d)),
            Parsed::Vhw(d) => Some(Sentence::Vhw(d)),
            Parsed::Vtg(d) => Some(Sentence::Vtg(d)),
            Parsed::Zda(d) => Some(Sentence::Zda(d)),
        }),
        sentence_read(None, depths, read) == read,
{
}

// ---------------------------------------------------------------------------
// Lines
// ---------------------------------------------------------------------------

/// White space is taken off both ends of a line, and nothing else.
pub proof fn trimming_takes_white_space_off(s: Seq<char>)
    ensures
        exists|from: int, to: int|
            0 <= from <= to <= s.len() && trimmed(s) == #[trigger] s.subrange(from, to) && (
            forall|i: int| 0 <= i < from || to <= i < s.len() ==> is_white(#[trigger] s[i])),
        trimmed(s).len() > 0 ==> !is_white(trimmed(s)[0]) && !is_white(trimmed(s).last()),
{
    let from = front_is_white(s);
    let front = trimmed_front(s);
    let to = back_is_white(front);
    assert(trimmed(s) =~= s.subrange(from, from + to));
    assert forall|i: int| 0 <= i < from || from + to <= i < s.len() implies is_white(
        #[trigger] s[i],
    ) by {
        if i >= from + to {
            assert(front[i - from] == s[i]);
        }
    }
    if trimmed(s).len() > 0 {
        assert(trimmed(s)[0] == front[0]);
    }
}

/// What is taken off the front is white space, up to the first character that is not.
proof fn front_is_white(s: Seq<char>) -> (from: int)
    ensures
        0 <= from <= s.len(),
        trimmed_front(s) == s.skip(from),
        forall|i: int| 0 <= i < from ==> is_white(#[trigger] s[i]),
        trimmed_front(s).len() > 0 ==> !is_white(trimmed_front(s)[0]),
    decreases s.len(),
{
    if s.len() > 0 && is_white(s[0]) {
        let rest = s.skip(1);
        let k = front_is_white(rest);
        assert(rest.skip(k) =~= s.skip(k + 1));
        assert forall|i: int| 0 <= i < k + 1 implies is_white(#[trigger] s[i]) by {
            if i > 0 {
                assert(rest[i - 1] == s[i]);
            }
        }
        k + 1
    } else {
        assert(s.skip(0) =~= s);
        0
    }
}

/// What is taken off the back is white space, down to the last character that is not.
proof fn back_is_white(s: Seq<char>) -> (to: int)
    ensures
        0 <= to <= s.len(),
        trimmed_back(s) == s.take(to),
        forall|i: int| to <= i < s.len() ==> is_white(#[trigger] s[i]),
        trimmed_back(s).len() > 0 ==> !is_white(trimmed_back(s).last()),
    decreases s.len(),
{
    if s.len() > 0 && is_white(s.last()) {
        let rest = s.drop_last();
        let k = back_is_white(rest);
        assert(rest.take(k) =~= s.take(k));
        assert forall|i: int| k <= i < s.len() implies is_white(#[trigger] s[i]) by {
            if i < rest.len() {
                assert(rest[i] == s[i]);
            }
        }
        k
    } else {
        assert(s.take(s.len() as int) =~= s);
        s.len() as int
    }
}

/// A line is AIS before it is a radio call, and a radio call before it is a standard sentence. A
/// blank line is nothing. AIS and standard sentences give one delta, and each has its own label.
pub proof fn readers_take_turns(
    lines: Seq<Seq<u8>>,
    ais_label: Seq<char>,
    line: Seq<char>,
    call: Option<DscCall>,
    parsed: Option<Parsed>,
    read: Option<Sentence>,
    label: Seq<char>,
)
    ensures
        ({
            let s = trimmed(line);
            let out = line_deltas(lines, ais_label, line, call, parsed, read, label);
            let ais = takes_in(lines, s) && decoded_ais(lines, s, ais_label) is Some;
            let dsc = decoded_dsc(s, call, label);
            let said = text_delta(s, parsed, read, label);
            &&& s.len() == 0 ==> out.len() == 0
            &&& s.len() > 0 && ais ==> out == seq![decoded_ais(lines, s, ais_label)->0]
            &&& s.len() > 0 && !ais && dsc is Some ==> out == dsc->0
            &&& s.len() > 0 && !ais && dsc is None && said is Some ==> out == seq![said->0]
            &&& !ais && dsc is None && said is None ==> out.len() == 0
        }),
{
}

/// The AIS decoder takes in the lines that it can use, as bytes and without white space around
/// them, and no others.
pub proof fn decoder_keeps_usable_lines(lines: Seq<Seq<u8>>, line: Seq<char>)
    ensures
        trimmed(line).len() > 0 && takes_in(lines, trimmed(line)) ==> lines_after(lines, line)
            == lines + seq![encode_utf8(trimmed(line))],
        !(trimmed(line).len() > 0 && takes_in(lines, trimmed(line))) ==> lines_after(lines, line)
            == lines,
{
    if trimmed(line).len() > 0 && takes_in(lines, trimmed(line)) {
        assert(lines_after(lines, line) =~= lines + seq![encode_utf8(trimmed(line))]);
    }
}

/// White space is what Unicode lists: from tab to carriage return, the space, the next line, the
/// spaces that do not break or have a width of their own, and the separators of lines and
/// paragraphs.
pub proof fn white_space_is_listed(c: char)
    ensures
        is_white(c) <==> exists|k: int|
            0 <= k < white_ranges().len() && (#[trigger] white_ranges()[k]).0 <= c as int
                <= white_ranges()[k].1,
{
    let list = white_ranges();
    let n = c as int;
    if is_white(c) {
        let k: int = if n <= 0x0D {
            0
        } else if n == 0x20 {
            1
        } else if n == 0x85 {
            2
        } else if n == 0xA0 {
            3
        } else if n == 0x1680 {
            4
        } else if n <= 0x200A {
            5
        } else if n <= 0x2029 {
            6
        } else if n == 0x202F {
            7
        } else if n == 0x205F {
            8
        } else {
            9
        };
        assert(list[k].0 <= n <= list[k].1);
    }
}

/// The first and last code points of white space, range by range.
pub open spec fn white_ranges() -> Seq<(int, int)> {
    seq![
        (0x09int, 0x0Dint),
        (0x20int, 0x20int),
        (0x85int, 0x85int),
        (0xA0int, 0xA0int),
        (0x1680int, 0x1680int),
        (0x2000int, 0x200Aint),
        (0x2028int, 0x2029int),
        (0x202Fint, 0x202Fint),
        (0x205Fint, 0x205Fint),
        (0x3000int, 0x3000int),
    ]
}

} // verus!
