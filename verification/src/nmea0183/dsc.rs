//! Digital selective calling (DSC): radio calls of other vessels.
//!
//! A call names the MMSI of its sender, often with a position. A distress call
//! additionally raises an emergency on the calling vessel, under the path that
//! Signal K reserves for its nature.
use crate::contact::{mmsi_context, mmsi_context_view};
use crate::expr::num;
use crate::number::Real;
use crate::signalk::{
    delta_view, no_values, nmea0183_source, notification, notification_view, position,
    position_view, push, with, with_opt, Delta, DeltaView, NotificationMethod,
    NotificationState, Source,
};
use crate::text::{contains, decimal_padded, join, occurs_in, padded};
use vstd::prelude::*;
use vstd::string::*;

verus! {

/// The position of a call, and how it is written with four decimals.
#[derive(Debug)]
pub struct DscPosition {
    /// Decimal degrees.
    pub latitude: Real,
    /// Decimal degrees.
    pub longitude: Real,
    pub latitude_text: String,
    pub longitude_text: String,
}

/// A radio call.
#[derive(Debug)]
pub struct DscCall {
    pub sender_mmsi: Option<u32>,
    pub position: Option<DscPosition>,
    /// 12 is a distress call.
    pub category: Option<u8>,
    /// In a distress call: its nature.
    pub first_telecommand: Option<u8>,
}

/// The path of the notification for a nature of distress.
pub open spec fn distress_path(nature: Option<u8>) -> Seq<char> {
    match nature {
        Some(n) => if n == 0 {
            "notifications.fire"@
        } else if n == 1 {
            "notifications.flooding"@
        } else if n == 2 {
            "notifications.collision"@
        } else if n == 3 {
            "notifications.grounding"@
        } else if n == 4 {
            "notifications.listing"@
        } else if n == 5 {
            "notifications.sinking"@
        } else if n == 6 {
            "notifications.adrift"@
        } else if n == 8 {
            "notifications.abandon"@
        } else if n == 9 {
            "notifications.piracy"@
        } else if n == 10 {
            "notifications.mob"@
        } else {
            "notifications.distress"@
        },
        None => "notifications.distress"@,
    }
}

/// The path of the notification for a nature of distress.
pub fn distress_notification_path(nature_of_distress: Option<u8>) -> (r: &'static str)
    ensures
        r@ == distress_path(nature_of_distress),
{
    match nature_of_distress {
        Some(0) => "notifications.fire",
        Some(1) => "notifications.flooding",
        Some(2) => "notifications.collision",
        Some(3) => "notifications.grounding",
        Some(4) => "notifications.listing",
        Some(5) => "notifications.sinking",
        Some(6) => "notifications.adrift",
        Some(8) => "notifications.abandon",
        Some(9) => "notifications.piracy",
        Some(10) => "notifications.mob",
        _ => "notifications.distress",
    }
}

/// The nature of a distress in words.
pub open spec fn distress_label(nature: Option<u8>) -> Seq<char> {
    match nature {
        Some(n) => if n == 0 {
            "Fire/Explosion"@
        } else if n == 1 {
            "Flooding"@
        } else if n == 2 {
            "Collision"@
        } else if n == 3 {
            "Grounding"@
        } else if n == 4 {
            "Listing/Capsizing"@
        } else if n == 5 {
            "Sinking"@
        } else if n == 6 {
            "Adrift"@
        } else if n == 8 {
            "Abandon ship"@
        } else if n == 9 {
            "Piracy"@
        } else if n == 10 {
            "Man overboard"@
        } else if n == 12 {
            "EPIRB emission"@
        } else {
            "Undesignated distress"@
        },
        None => "Undesignated distress"@,
    }
}

/// The nature of a distress in words.
pub fn distress_nature_label(nature_of_distress: Option<u8>) -> (r: &'static str)
    ensures
        r@ == distress_label(nature_of_distress),
{
    match nature_of_distress {
        Some(0) => "Fire/Explosion",
        Some(1) => "Flooding",
        Some(2) => "Collision",
        Some(3) => "Grounding",
        Some(4) => "Listing/Capsizing",
        Some(5) => "Sinking",
        Some(6) => "Adrift",
        Some(8) => "Abandon ship",
        Some(9) => "Piracy",
        Some(10) => "Man overboard",
        Some(12) => "EPIRB emission",
        _ => "Undesignated distress",
    }
}

/// The message of a distress call.
pub open spec fn distress_text(call: DscCall, mmsi: u32) -> Seq<char> {
    let s = "DSC Distress: "@ + distress_label(call.first_telecommand) + " from MMSI "@ + padded(
        mmsi as nat,
        9,
    );
    match call.position {
        Some(p) => s + " at "@ + p.latitude_text@ + ","@ + p.longitude_text@,
        None => s,
    }
}

fn distress_message(call: &DscCall, mmsi: u32) -> (r: String)
    ensures
        r@ == distress_text(*call, mmsi),
{
    let mut s = join("DSC Distress: ", distress_nature_label(call.first_telecommand));
    s.append(" from MMSI ");
    s.append(decimal_padded(mmsi as u64, 9).as_str());
    if let Some(p) = &call.position {
        s.append(" at ");
        s.append(p.latitude_text.as_str());
        s.append(",");
        s.append(p.longitude_text.as_str());
    }
    s
}

/// The call is a distress call.
pub open spec fn is_distress(call: DscCall) -> bool {
    call.category == Some(12u8)
}

/// The delta of the calling vessel, with its position if the call gives it.
pub open spec fn vessel_delta(call: DscCall, mmsi: u32, label: Seq<char>) -> DeltaView {
    delta_view(
        mmsi_context_view(mmsi),
        nmea0183_source(label, "DS"@),
        with_opt(
            Seq::empty(),
            "navigation.position"@,
            match call.position {
                Some(p) => Some(position_view(num(p.latitude), num(p.longitude))),
                None => None,
            },
        ),
    )
}

/// The delta that raises the emergency on the calling vessel.
pub open spec fn distress_delta(call: DscCall, mmsi: u32, label: Seq<char>) -> DeltaView {
    delta_view(
        mmsi_context_view(mmsi),
        nmea0183_source(label, "DS"@),
        with(
            Seq::empty(),
            distress_path(call.first_telecommand),
            notification_view(
                NotificationState::Emergency,
                seq![NotificationMethod::Visual, NotificationMethod::Sound],
                distress_text(call, mmsi),
            ),
        ),
    )
}

/// The deltas of a call.
pub open spec fn call_deltas(call: DscCall, mmsi: u32, label: Seq<char>) -> Seq<DeltaView> {
    if is_distress(call) {
        seq![vessel_delta(call, mmsi, label), distress_delta(call, mmsi, label)]
    } else {
        seq![vessel_delta(call, mmsi, label)]
    }
}

/// The views of deltas that may be missing.
pub open spec fn opt_deltas(deltas: Option<Vec<Delta>>) -> Option<Seq<DeltaView>> {
    match deltas {
        Some(list) => Some(list@.map_values(|d: Delta| d@)),
        None => None,
    }
}

/// What comes of a sentence and the call read from it, if it is one.
pub open spec fn decoded_dsc(
    raw: Seq<char>,
    call: Option<DscCall>,
    label: Seq<char>,
) -> Option<Seq<DeltaView>> {
    match call {
        Some(c) => match c.sender_mmsi {
            Some(mmsi) => if occurs_in(raw, "DSC"@) {
                Some(call_deltas(c, mmsi, label))
            } else {
                None
            },
            None => None,
        },
        None => None,
    }
}

/// The deltas of a DSC sentence. `call` is what was read from it; nothing comes back
/// where the sentence is not a DSC sentence, could not be read or has no sender.
///
/// Otherwise there are one or two deltas: always one of the calling vessel, with its
/// position if the call gives it, and for a distress call one with the notification.
pub fn try_decode_dsc(
    raw: &str,
    call: Option<&DscCall>,
    source_label: &str,
) -> (r: Option<Vec<Delta>>)
    ensures
        opt_deltas(r) == decoded_dsc(
            raw@,
            match call {
                Some(c) => Some(*c),
                None => None,
            },
            source_label@,
        ),
{
    if !contains(raw, "DSC") {
        return None;
    }
    let call = match call {
        Some(c) => c,
        None => {
            return None;
        },
    };
    let mmsi = match call.sender_mmsi {
        Some(m) => m,
        None => {
            return None;
        },
    };
    let context = mmsi_context(mmsi);
    let mut values = no_values();
    if let Some(p) = &call.position {
        push(
            &mut values,
            "navigation.position",
            position(num(p.latitude), num(p.longitude)),
        );
    }
    let mut deltas: Vec<Delta> = Vec::new();
    deltas.push(
        Delta::with_context(context.as_str(), Source::nmea0183(source_label, "DS"), values),
    );
    let distress = match call.category {
        Some(c) => c == 12,
        None => false,
    };
    if distress {
        let mut methods: Vec<NotificationMethod> = Vec::new();
        methods.push(NotificationMethod::Visual);
        methods.push(NotificationMethod::Sound);
        assert(methods@ =~= seq![NotificationMethod::Visual, NotificationMethod::Sound]);
        let message = distress_message(call, mmsi);
        let mut alarm = no_values();
        push(
            &mut alarm,
            distress_notification_path(call.first_telecommand),
            notification(NotificationState::Emergency, &methods, message.as_str()),
        );
        deltas.push(
            Delta::with_context(context.as_str(), Source::nmea0183(source_label, "DS"), alarm),
        );
    }
    assert(deltas@.map_values(|d: Delta| d@) =~= call_deltas(*call, mmsi, source_label@));
    Some(deltas)
}

/// A distress call is never lost: every call with a sender that a DSC sentence carries
/// raises an emergency on the caller.
pub proof fn distress_raises_emergency(
    raw: Seq<char>,
    call: DscCall,
    mmsi: u32,
    label: Seq<char>,
)
    requires
        occurs_in(raw, "DSC"@),
        call.sender_mmsi == Some(mmsi),
        is_distress(call),
    ensures
        decoded_dsc(raw, Some(call), label) matches Some(deltas) && deltas.contains(
            distress_delta(call, mmsi, label),
        ),
{
    let deltas = call_deltas(call, mmsi, label);
    assert(deltas[1] == distress_delta(call, mmsi, label));
}

} // verus!
