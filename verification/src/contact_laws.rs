//! What a contact reports under each path.
use crate::contact::{state_text, AisContact, ContactView};
use crate::paths::{group_paths, one_update_tells_all, place_of, shown, text_as_read, told, under};
use crate::signalk::{FieldView, SourceView, ValueView};
use crate::text::{digits, padded};
use vstd::prelude::*;

verus! {

/// The paths of a contact are different ones.
#[verifier::spinoff_prover]
proof fn contact_paths_differ()
    ensures
        "communication.callsignVhf"@ != "design.aisShipType"@,
        "communication.callsignVhf"@ != "design.beam"@,
        "communication.callsignVhf"@ != "design.draft"@,
        "communication.callsignVhf"@ != "design.length"@,
        "communication.callsignVhf"@ != "name"@,
        "communication.callsignVhf"@ != "navigation.courseOverGroundTrue"@,
        "communication.callsignVhf"@ != "navigation.destination.commonName"@,
        "communication.callsignVhf"@ != "navigation.headingTrue"@,
        "communication.callsignVhf"@ != "navigation.position"@,
        "communication.callsignVhf"@ != "navigation.rateOfTurn"@,
        "communication.callsignVhf"@ != "navigation.speedOverGround"@,
        "communication.callsignVhf"@ != "navigation.state"@,
        "communication.callsignVhf"@ != "registrations.imo"@,
        "design.aisShipType"@ != "design.beam"@,
        "design.aisShipType"@ != "design.draft"@,
        "design.aisShipType"@ != "design.length"@,
        "design.aisShipType"@ != "name"@,
        "design.aisShipType"@ != "navigation.courseOverGroundTrue"@,
        "design.aisShipType"@ != "navigation.destination.commonName"@,
        "design.aisShipType"@ != "navigation.headingTrue"@,
        "design.aisShipType"@ != "navigation.position"@,
        "design.aisShipType"@ != "navigation.rateOfTurn"@,
        "design.aisShipType"@ != "navigation.speedOverGround"@,
        "design.aisShipType"@ != "navigation.state"@,
        "design.aisShipType"@ != "registrations.imo"@,
        "design.beam"@ != "design.draft"@,
        "design.beam"@ != "design.length"@,
        "design.beam"@ != "name"@,
        "design.beam"@ != "navigation.courseOverGroundTrue"@,
        "design.beam"@ != "navigation.destination.commonName"@,
        "design.beam"@ != "navigation.headingTrue"@,
        "design.beam"@ != "navigation.position"@,
        "design.beam"@ != "navigation.rateOfTurn"@,
        "design.beam"@ != "navigation.speedOverGround"@,
        "design.beam"@ != "navigation.state"@,
        "design.beam"@ != "registrations.imo"@,
        "design.draft"@ != "design.length"@,
        "design.draft"@ != "name"@,
        "design.draft"@ != "navigation.courseOverGroundTrue"@,
        "design.draft"@ != "navigation.destination.commonName"@,
        "design.draft"@ != "navigation.headingTrue"@,
        "design.draft"@ != "navigation.position"@,
        "design.draft"@ != "navigation.rateOfTurn"@,
        "design.draft"@ != "navigation.speedOverGround"@,
        "design.draft"@ != "navigation.state"@,
        "design.draft"@ != "registrations.imo"@,
        "design.length"@ != "name"@,
        "design.length"@ != "navigation.courseOverGroundTrue"@,
        "design.length"@ != "navigation.destination.commonName"@,
        "design.length"@ != "navigation.headingTrue"@,
        "design.length"@ != "navigation.position"@,
        "design.length"@ != "navigation.rateOfTurn"@,
        "design.length"@ != "navigation.speedOverGround"@,
        "design.length"@ != "navigation.state"@,
        "design.length"@ != "registrations.imo"@,
        "name"@ != "navigation.courseOverGroundTrue"@,
        "name"@ != "navigation.destination.commonName"@,
        "name"@ != "navigation.headingTrue"@,
        "name"@ != "navigation.position"@,
        "name"@ != "navigation.rateOfTurn"@,
        "name"@ != "navigation.speedOverGround"@,
        "name"@ != "navigation.state"@,
        "name"@ != "registrations.imo"@,
        "navigation.courseOverGroundTrue"@ != "navigation.destination.commonName"@,
        "navigation.courseOverGroundTrue"@ != "navigation.headingTrue"@,
        "navigation.courseOverGroundTrue"@ != "navigation.position"@,
        "navigation.courseOverGroundTrue"@ != "navigation.rateOfTurn"@,
        "navigation.courseOverGroundTrue"@ != "navigation.speedOverGround"@,
        "navigation.courseOverGroundTrue"@ != "navigation.state"@,
        "navigation.courseOverGroundTrue"@ != "registrations.imo"@,
        "navigation.destination.commonName"@ != "navigation.headingTrue"@,
        "navigation.destination.commonName"@ != "navigation.position"@,
        "navigation.destination.commonName"@ != "navigation.rateOfTurn"@,
        "navigation.destination.commonName"@ != "navigation.speedOverGround"@,
        "navigation.destination.commonName"@ != "navigation.state"@,
        "navigation.destination.commonName"@ != "registrations.imo"@,
        "navigation.headingTrue"@ != "navigation.position"@,
        "navigation.headingTrue"@ != "navigation.rateOfTurn"@,
        "navigation.headingTrue"@ != "navigation.speedOverGround"@,
        "navigation.headingTrue"@ != "navigation.state"@,
        "navigation.headingTrue"@ != "registrations.imo"@,
        "navigation.position"@ != "navigation.rateOfTurn"@,
        "navigation.position"@ != "navigation.speedOverGround"@,
        "navigation.position"@ != "navigation.state"@,
        "navigation.position"@ != "registrations.imo"@,
        "navigation.rateOfTurn"@ != "navigation.speedOverGround"@,
        "navigation.rateOfTurn"@ != "navigation.state"@,
        "navigation.rateOfTurn"@ != "registrations.imo"@,
        "navigation.speedOverGround"@ != "navigation.state"@,
        "navigation.speedOverGround"@ != "registrations.imo"@,
        "navigation.state"@ != "registrations.imo"@,
{
    reveal_strlit("communication.callsignVhf");
    reveal_strlit("design.aisShipType");
    reveal_strlit("design.beam");
    reveal_strlit("design.draft");
    reveal_strlit("design.length");
    reveal_strlit("name");
    reveal_strlit("navigation.courseOverGroundTrue");
    reveal_strlit("navigation.destination.commonName");
    reveal_strlit("navigation.headingTrue");
    reveal_strlit("navigation.position");
    reveal_strlit("navigation.rateOfTurn");
    reveal_strlit("navigation.speedOverGround");
    reveal_strlit("navigation.state");
    reveal_strlit("registrations.imo");
    assert("communication.callsignVhf"@.len() == 25);
    assert("design.aisShipType"@.len() == 18);
    assert("design.beam"@.len() == 11);
    assert("design.draft"@.len() == 12);
    assert("design.length"@.len() == 13);
    assert("name"@.len() == 4);
    assert("navigation.courseOverGroundTrue"@.len() == 31);
    assert("navigation.destination.commonName"@.len() == 33);
    assert("navigation.headingTrue"@.len() == 22);
    assert("navigation.position"@.len() == 19);
    assert("navigation.rateOfTurn"@.len() == 21);
    assert("navigation.speedOverGround"@.len() == 26);
    assert("navigation.state"@.len() == 16);
    assert("registrations.imo"@.len() == 17);
}

/// An object with one member, if there is a value for it.
pub open spec fn member_shown(key: Seq<char>, value: Option<ValueView>) -> Seq<ValueView> {
    match value {
        Some(v) => seq![ValueView::Object(seq![FieldView { key, value: v }])],
        None => Seq::empty(),
    }
}

/// The delta of a contact concerns the vessel with its MMSI, names the source, and reports
/// motion and position of the contact under their paths, each once.
pub proof fn contact_reports_its_motion(c: ContactView, source: SourceView)
    ensures
        c.delta(source).context == Some("vessels.urn:mrn:imo:mmsi:"@ + padded(c.mmsi as nat, 9)),
        c.delta(source).updates.len() == 1,
        c.delta(source).updates[0].source == source,
        told(Some(c.delta(source)), "navigation.speedOverGround"@) == shown(c.sog_ms),
        told(Some(c.delta(source)), "navigation.courseOverGroundTrue"@) == shown(c.cog_rad),
        told(Some(c.delta(source)), "navigation.headingTrue"@) == shown(c.heading_rad),
        told(Some(c.delta(source)), "navigation.rateOfTurn"@) == shown(c.rot_rads),
        told(Some(c.delta(source)), "navigation.position"@) == (match c.position {
            Some((lat, lon)) => place_of(lat, lon),
            None => Seq::empty(),
        }),
        told(Some(c.delta(source)), "navigation.state"@) == (match c.nav_status {
            Some(n) => text_as_read(state_text(n)),
            None => Seq::empty(),
        }),
{
    contact_paths_differ();
    broadcast use group_paths;
    let d = c.delta(source);
    one_update_tells_all(d, "navigation.speedOverGround"@);
    one_update_tells_all(d, "navigation.courseOverGroundTrue"@);
    one_update_tells_all(d, "navigation.headingTrue"@);
    one_update_tells_all(d, "navigation.rateOfTurn"@);
    one_update_tells_all(d, "navigation.position"@);
    one_update_tells_all(d, "navigation.state"@);
    assert(under(c.entries(), "navigation.speedOverGround"@) =~= shown(c.sog_ms));
    assert(under(c.entries(), "navigation.courseOverGroundTrue"@) =~= shown(c.cog_rad));
    assert(under(c.entries(), "navigation.headingTrue"@) =~= shown(c.heading_rad));
    assert(under(c.entries(), "navigation.rateOfTurn"@) =~= shown(c.rot_rads));
    if let Some((lat, lon)) = c.position {
        assert(under(c.entries(), "navigation.position"@) =~= place_of(lat, lon));
    }
}

/// The delta of a contact reports who and what the vessel is and where it is bound under
/// their paths, each once.
pub proof fn contact_reports_its_particulars(c: ContactView, source: SourceView)
    ensures
        told(Some(c.delta(source)), "name"@) == text_as_read(c.name),
        told(Some(c.delta(source)), "communication.callsignVhf"@) == text_as_read(c.callsign),
        told(Some(c.delta(source)), "registrations.imo"@) == (match c.imo {
            Some(n) => seq![ValueView::Text("IMO "@ + digits(n as nat))],
            None => Seq::empty(),
        }),
        told(Some(c.delta(source)), "design.aisShipType"@) == member_shown(
            "id"@,
            match c.ship_type {
                Some(n) => Some(ValueView::Int(n as i64)),
                None => None,
            },
        ),
        told(Some(c.delta(source)), "navigation.destination.commonName"@) == text_as_read(
            c.destination,
        ),
        told(Some(c.delta(source)), "design.draft"@) == member_shown(
            "maximum"@,
            match c.draught {
                Some(e) => Some(ValueView::Number(e)),
                None => None,
            },
        ),
        told(Some(c.delta(source)), "design.length"@) == member_shown(
            "overall"@,
            match c.length {
                Some(e) => Some(ValueView::Number(e)),
                None => None,
            },
        ),
        told(Some(c.delta(source)), "design.beam"@) == shown(c.beam),
{
    contact_paths_differ();
    broadcast use group_paths;
    let d = c.delta(source);
    one_update_tells_all(d, "name"@);
    one_update_tells_all(d, "communication.callsignVhf"@);
    one_update_tells_all(d, "registrations.imo"@);
    one_update_tells_all(d, "design.aisShipType"@);
    one_update_tells_all(d, "navigation.destination.commonName"@);
    one_update_tells_all(d, "design.draft"@);
    one_update_tells_all(d, "design.length"@);
    one_update_tells_all(d, "design.beam"@);
}

/// A status is told by its place in the list of the ITU; the places that are left out there, and
/// those after the list, have no name.
pub proof fn status_has_its_name(status: u8)
    ensures
        ({
            let names = seq![
                "motoring"@,
                "anchored"@,
                "not under command"@,
                "restricted manouverability"@,
                "constrained by draft"@,
                "moored"@,
                "aground"@,
                "fishing"@,
                "sailing"@,
                "hazardous material high speed"@,
                "hazardous material wing in ground"@,
            ];
            &&& status < 11 ==> state_text(status) == Some(names[status as int])
            &&& status == 14 ==> state_text(status) == Some("ais-sart"@)
            &&& status >= 11 && status != 14 ==> state_text(status) is None
        }),
{
}

/// What is known of a contact is what its members hold.
pub proof fn contact_holds_what_is_known(c: AisContact)
    ensures
        c@.mmsi == c.mmsi,
        c@.imo == c.imo,
        c@.ship_type == c.ship_type,
        c@.draught == c.draught,
        c@.length == c.length,
        c@.beam == c.beam,
        c@.position == c.position,
        c@.sog_ms == c.sog_ms,
        c@.cog_rad == c.cog_rad,
        c@.heading_rad == c.heading_rad,
        c@.rot_rads == c.rot_rads,
        c@.nav_status == c.nav_status,
        (match c.name {
            Some(s) => c@.name == Some(s@),
            None => c@.name is None,
        }),
        (match c.callsign {
            Some(s) => c@.callsign == Some(s@),
            None => c@.callsign is None,
        }),
        (match c.destination {
            Some(s) => c@.destination == Some(s@),
            None => c@.destination is None,
        }),
{
}

} // verus!
