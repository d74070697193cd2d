//! A vessel or aid to navigation heard over AIS, as Signal K data.
use crate::expr::Expr;
use crate::signalk::{
    delta_view, entries, field_views, no_values, object, opt_view, position, position_view, push,
    push_field, push_opt, text, with_opt, Delta, DeltaView, Entry, Field, FieldView, Source,
    SourceView, Value, ValueView,
};
use crate::text::{after, decimal, decimal_padded, digits, join, number_of_padded, padded};
use crate::tracker::mmsi_prefix;
use crate::units::{number, number_view};
use vstd::prelude::*;

verus! {

/// What one AIS message says of a vessel.
#[derive(Debug)]
pub struct AisContact {
    pub mmsi: u32,
    pub name: Option<String>,
    pub callsign: Option<String>,
    pub imo: Option<u32>,
    pub ship_type: Option<u8>,
    pub destination: Option<String>,
    /// Metres.
    pub draught: Option<Expr>,
    /// Metres.
    pub length: Option<Expr>,
    /// Metres.
    pub beam: Option<Expr>,
    /// Latitude and longitude in decimal degrees.
    pub position: Option<(Expr, Expr)>,
    pub sog_ms: Option<Expr>,
    pub cog_rad: Option<Expr>,
    pub heading_rad: Option<Expr>,
    pub rot_rads: Option<Expr>,
    /// Navigational status as the ITU numbers it.
    pub nav_status: Option<u8>,
}

/// The view of an [`AisContact`].
pub struct ContactView {
    pub mmsi: u32,
    pub name: Option<Seq<char>>,
    pub callsign: Option<Seq<char>>,
    pub imo: Option<u32>,
    pub ship_type: Option<u8>,
    pub destination: Option<Seq<char>>,
    pub draught: Option<Expr>,
    pub length: Option<Expr>,
    pub beam: Option<Expr>,
    pub position: Option<(Expr, Expr)>,
    pub sog_ms: Option<Expr>,
    pub cog_rad: Option<Expr>,
    pub heading_rad: Option<Expr>,
    pub rot_rads: Option<Expr>,
    pub nav_status: Option<u8>,
}

/// The view of a text that may be missing.
pub open spec fn opt_chars(s: Option<String>) -> Option<Seq<char>> {
    match s {
        Some(t) => Some(t@),
        None => None,
    }
}

/// A contact of which nothing but the MMSI is known.
pub open spec fn bare(mmsi: u32) -> ContactView {
    ContactView {
        mmsi,
        name: None,
        callsign: None,
        imo: None,
        ship_type: None,
        destination: None,
        draught: None,
        length: None,
        beam: None,
        position: None,
        sog_ms: None,
        cog_rad: None,
        heading_rad: None,
        rot_rads: None,
        nav_status: None,
    }
}

/// The context of the vessel with an MMSI: the number has nine digits.
pub open spec fn mmsi_context_view(mmsi: u32) -> Seq<char> {
    mmsi_prefix() + padded(mmsi as nat, 9)
}

/// The context of the vessel with an MMSI.
pub fn mmsi_context(mmsi: u32) -> (r: String)
    ensures
        r@ == mmsi_context_view(mmsi),
{
    join("vessels.urn:mrn:imo:mmsi:", decimal_padded(mmsi as u64, 9).as_str())
}

/// The Signal K name of a navigational status, where it has one.
pub open spec fn state_text(status: u8) -> Option<Seq<char>> {
    if status == 0 {
        Some("motoring"@)
    } else if status == 1 {
        Some("anchored"@)
    } else if status == 2 {
        Some("not under command"@)
    } else if status == 3 {
        Some("restricted manouverability"@)
    } else if status == 4 {
        Some("constrained by draft"@)
    } else if status == 5 {
        Some("moored"@)
    } else if status == 6 {
        Some("aground"@)
    } else if status == 7 {
        Some("fishing"@)
    } else if status == 8 {
        Some("sailing"@)
    } else if status == 9 {
        Some("hazardous material high speed"@)
    } else if status == 10 {
        Some("hazardous material wing in ground"@)
    } else if status == 14 {
        Some("ais-sart"@)
    } else {
        None
    }
}

/// The Signal K name of a navigational status, where it has one.
pub fn state_name(status: u8) -> (r: Option<&'static str>)
    ensures
        (match r {
            Some(s) => Some(s@),
            None => None,
        }) == state_text(status),
{
    match status {
        0 => Some("motoring"),
        1 => Some("anchored"),
        2 => Some("not under command"),
        3 => Some("restricted manouverability"),
        4 => Some("constrained by draft"),
        5 => Some("moored"),
        6 => Some("aground"),
        7 => Some("fishing"),
        8 => Some("sailing"),
        9 => Some("hazardous material high speed"),
        10 => Some("hazardous material wing in ground"),
        14 => Some("ais-sart"),
        _ => None,
    }
}

/// An object with one member.
pub open spec fn single_field(key: Seq<char>, value: ValueView) -> ValueView {
    ValueView::Object(seq![FieldView { key, value }])
}

fn single(key: &str, value: Value) -> (v: Value)
    ensures
        v@ == single_field(key@, value@),
{
    let mut fields: Vec<Field> = Vec::new();
    assert(field_views(fields@) =~= Seq::empty());
    push_field(&mut fields, key, value);
    let v = object(fields);
    assert(v@->Object_0 =~= single_field(key@, value@)->Object_0);
    v
}

/// A text that may be missing, as a value.
pub open spec fn opt_text_value(s: Option<Seq<char>>) -> Option<ValueView> {
    match s {
        Some(t) => Some(ValueView::Text(t)),
        None => None,
    }
}

fn text_value(s: Option<String>) -> (v: Option<Value>)
    ensures
        opt_view(v) == opt_text_value(opt_chars(s)),
{
    match s {
        Some(t) => Some(Value::Text(t)),
        None => None,
    }
}

/// A number that may be missing, as the only member of an object.
pub open spec fn opt_member(key: Seq<char>, e: Option<Expr>) -> Option<ValueView> {
    match e {
        Some(e) => Some(single_field(key, ValueView::Number(e))),
        None => None,
    }
}

fn member_value(key: &str, e: Option<Expr>) -> (v: Option<Value>)
    ensures
        opt_view(v) == opt_member(key@, e),
{
    match e {
        Some(e) => Some(single(key, Value::Number(e))),
        None => None,
    }
}

impl ContactView {
    /// What the contact says, as Signal K data.
    pub open spec fn entries(self) -> Seq<Entry> {
        let s = with_opt(Seq::empty(), "name"@, opt_text_value(self.name));
        let s = with_opt(s, "communication.callsignVhf"@, opt_text_value(self.callsign));
        let s = with_opt(
            s,
            "registrations.imo"@,
            match self.imo {
                Some(n) => Some(ValueView::Text("IMO "@ + digits(n as nat))),
                None => None,
            },
        );
        let s = with_opt(
            s,
            "design.aisShipType"@,
            match self.ship_type {
                Some(n) => Some(single_field("id"@, ValueView::Int(n as i64))),
                None => None,
            },
        );
        let s = with_opt(
            s,
            "navigation.destination.commonName"@,
            opt_text_value(self.destination),
        );
        let s = with_opt(s, "design.draft"@, opt_member("maximum"@, self.draught));
        let s = with_opt(s, "design.length"@, opt_member("overall"@, self.length));
        let s = with_opt(s, "design.beam"@, number_view(self.beam));
        let s = with_opt(
            s,
            "navigation.position"@,
            match self.position {
                Some((lat, lon)) => Some(position_view(lat, lon)),
                None => None,
            },
        );
        let s = with_opt(s, "navigation.speedOverGround"@, number_view(self.sog_ms));
        let s = with_opt(s, "navigation.courseOverGroundTrue"@, number_view(self.cog_rad));
        let s = with_opt(s, "navigation.headingTrue"@, number_view(self.heading_rad));
        let s = with_opt(s, "navigation.rateOfTurn"@, number_view(self.rot_rads));
        with_opt(
            s,
            "navigation.state"@,
            match self.nav_status {
                Some(n) => opt_text_value(state_text(n)),
                None => None,
            },
        )
    }

    /// The delta of the vessel that the contact is about.
    pub open spec fn delta(self, source: SourceView) -> DeltaView {
        delta_view(mmsi_context_view(self.mmsi), source, self.entries())
    }
}

impl AisContact {
    pub open spec fn view(&self) -> ContactView {
        ContactView {
            mmsi: self.mmsi,
            name: opt_chars(self.name),
            callsign: opt_chars(self.callsign),
            imo: self.imo,
            ship_type: self.ship_type,
            destination: opt_chars(self.destination),
            draught: self.draught,
            length: self.length,
            beam: self.beam,
            position: self.position,
            sog_ms: self.sog_ms,
            cog_rad: self.cog_rad,
            heading_rad: self.heading_rad,
            rot_rads: self.rot_rads,
            nav_status: self.nav_status,
        }
    }

    /// A contact of which nothing but the MMSI is known.
    pub fn of(mmsi: u32) -> (r: Self)
        ensures
            r@ == bare(mmsi),
    {
        AisContact {
            mmsi,
            name: None,
            callsign: None,
            imo: None,
            ship_type: None,
            destination: None,
            draught: None,
            length: None,
            beam: None,
            position: None,
            sog_ms: None,
            cog_rad: None,
            heading_rad: None,
            rot_rads: None,
            nav_status: None,
        }
    }

    /// The delta of the vessel that the contact is about.
    pub fn to_delta(self, source: Source) -> (r: Delta)
        ensures
            r@ == self@.delta(source@),
    {
        let context = mmsi_context(self.mmsi);
        let mut out = no_values();
        push_opt(&mut out, "name", text_value(self.name));
        push_opt(&mut out, "communication.callsignVhf", text_value(self.callsign));
        if let Some(n) = self.imo {
            push(
                &mut out,
                "registrations.imo",
                Value::Text(join("IMO ", decimal(n as u64).as_str())),
            );
        }
        if let Some(n) = self.ship_type {
            push(&mut out, "design.aisShipType", single("id", Value::Int(n as i64)));
        }
        push_opt(&mut out, "navigation.destination.commonName", text_value(self.destination));
        push_opt(&mut out, "design.draft", member_value("maximum", self.draught));
        push_opt(&mut out, "design.length", member_value("overall", self.length));
        push_opt(&mut out, "design.beam", number(self.beam));
        if let Some((lat, lon)) = self.position {
            push(&mut out, "navigation.position", position(lat, lon));
        }
        push_opt(&mut out, "navigation.speedOverGround", number(self.sog_ms));
        push_opt(&mut out, "navigation.courseOverGroundTrue", number(self.cog_rad));
        push_opt(&mut out, "navigation.headingTrue", number(self.heading_rad));
        push_opt(&mut out, "navigation.rateOfTurn", number(self.rot_rads));
        if let Some(n) = self.nav_status {
            if let Some(s) = state_name(n) {
                push(&mut out, "navigation.state", text(s));
            }
        }
        Delta::with_context(context.as_str(), source, out)
    }
}

/// The tracker finds the MMSI in the context of a contact.
pub proof fn context_carries_mmsi(mmsi: u32)
    ensures
        after(mmsi_context_view(mmsi), mmsi_prefix()) == Some(padded(mmsi as nat, 9)),
{
    let context = mmsi_context_view(mmsi);
    let prefix = mmsi_prefix();
    assert(context.subrange(0, prefix.len() as int) =~= prefix);
    assert(context.skip(prefix.len() as int) =~= padded(mmsi as nat, 9));
}

/// Two vessels never share a context.
pub proof fn contexts_tell_vessels_apart(a: u32, b: u32)
    requires
        a != b,
    ensures
        mmsi_context_view(a) != mmsi_context_view(b),
{
    context_carries_mmsi(a);
    context_carries_mmsi(b);
    number_of_padded(a as nat, 9);
    number_of_padded(b as nat, 9);
}

} // verus!
