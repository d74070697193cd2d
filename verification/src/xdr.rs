//! XDR sentences: generic transducer measurements, mapped by type and name.
//!
//! A sentence carries one or more measurements, each with a type, a value and a
//! name. Well-known names are mapped to Signal K paths; the first rule that
//! matches wins, so more specific patterns stand before wider ones.
use crate::expr::{lit, Expr};
use crate::number::Real;
use crate::signalk::{
    entries, field_views, no_values, object, push, push_field, with, Entry, Field, FieldView,
    PathValue, Value, ValueView,
};
use crate::text::{before, equal, has_prefix, starts_with, strip_suffix};
use crate::units::{BAR_TO_PA, DEG_TO_RAD, HUNDRED, KELVIN_OFFSET};
use vstd::prelude::*;
use vstd::string::*;

verus! {

/// How a measured value becomes an SI value.
#[derive(Debug, Clone, Copy, PartialEq, Eq, Structural)]
pub enum Conversion {
    Identity,
    CelsiusToKelvin,
    BarToPascal,
    DegToRad,
    PercentToRatio,
}

impl Conversion {
    #[verifier::allow_in_spec]
    pub fn apply(self, value: Real) -> (r: Expr)
        returns
            (match self {
                Conversion::Identity => Expr::Lit(value),
                Conversion::CelsiusToKelvin => Expr::Lit(value).plus(lit(KELVIN_OFFSET)),
                Conversion::BarToPascal => Expr::Lit(value).times(lit(BAR_TO_PA)),
                Conversion::DegToRad => Expr::Lit(value).times(lit(DEG_TO_RAD)),
                Conversion::PercentToRatio => Expr::Lit(value).over(lit(HUNDRED)),
            }),
    {
        match self {
            Conversion::Identity => Expr::Lit(value),
            Conversion::CelsiusToKelvin => Expr::Lit(value).plus(lit(KELVIN_OFFSET)),
            Conversion::BarToPascal => Expr::Lit(value).times(lit(BAR_TO_PA)),
            Conversion::DegToRad => Expr::Lit(value).times(lit(DEG_TO_RAD)),
            Conversion::PercentToRatio => Expr::Lit(value).over(lit(HUNDRED)),
        }
    }
}

/// What a mapped measurement contributes to.
#[derive(Debug, Clone, Copy)]
pub enum XdrTarget {
    Path(&'static str),
    /// The pitch of `navigation.attitude`.
    Pitch,
    /// The roll of `navigation.attitude`.
    Roll,
}

/// A mapping rule: transducer type and name pattern to target and conversion.
#[derive(Debug, Clone, Copy)]
pub struct XdrMapping {
    pub transducer_type: char,
    /// A name, or the start of one followed by `*`.
    pub name_pattern: &'static str,
    pub target: XdrTarget,
    pub convert: Conversion,
}

/// The view of an [`XdrTarget`].
pub enum TargetView {
    Path(Seq<char>),
    Pitch,
    Roll,
}

/// The view of an [`XdrMapping`].
pub struct Rule {
    pub transducer_type: char,
    pub pattern: Seq<char>,
    pub target: TargetView,
    pub convert: Conversion,
}

impl XdrTarget {
    pub open spec fn view(&self) -> TargetView {
        match self {
            XdrTarget::Path(p) => TargetView::Path(p@),
            XdrTarget::Pitch => TargetView::Pitch,
            XdrTarget::Roll => TargetView::Roll,
        }
    }
}

impl XdrMapping {
    pub open spec fn view(&self) -> Rule {
        Rule {
            transducer_type: self.transducer_type,
            pattern: self.name_pattern@,
            target: self.target@,
            convert: self.convert,
        }
    }
}

/// A name matches a pattern that equals it, or that is a start of it followed by
/// `*`.
pub open spec fn matches_pattern(pattern: Seq<char>, name: Seq<char>) -> bool {
    match before(pattern, "*"@) {
        Some(prefix) => has_prefix(name, prefix),
        None => name == pattern,
    }
}

/// Whether a transducer name matches a pattern.
pub fn name_matches(pattern: &str, name: &str) -> (r: bool)
    ensures
        r == matches_pattern(pattern@, name@),
{
    if let Some(prefix) = strip_suffix(pattern, "*") {
        starts_with(name, prefix)
    } else {
        equal(name, pattern)
    }
}

/// A rule whose value goes under a path of its own.
pub open spec fn path_rule(t: char, pattern: &str, path: &str, convert: Conversion) -> Rule {
    Rule {
        transducer_type: t,
        pattern: pattern@,
        target: TargetView::Path(path@),
        convert,
    }
}

/// A rule for an angle of the attitude.
pub open spec fn angle_rule(pattern: &str, target: TargetView) -> Rule {
    Rule { transducer_type: 'A', pattern: pattern@, target, convert: Conversion::DegToRad }
}

fn path_mapping(
    transducer_type: char,
    name_pattern: &'static str,
    path: &'static str,
    convert: Conversion,
) -> (r: XdrMapping)
    ensures
        r@ == path_rule(transducer_type, name_pattern, path, convert),
{
    XdrMapping { transducer_type, name_pattern, target: XdrTarget::Path(path), convert }
}

fn angle_mapping(name_pattern: &'static str, target: XdrTarget) -> (r: XdrMapping)
    ensures
        r@ == angle_rule(name_pattern, target@),
{
    XdrMapping { transducer_type: 'A', name_pattern, target, convert: Conversion::DegToRad }
}

/// The rules for well-known transducers, in the order in which they are tried.
pub open spec fn rules() -> Seq<Rule> {
    seq![
        path_rule('P', "BARO*", "environment.outside.pressure", Conversion::BarToPascal),
        path_rule('P', "BAR*", "environment.outside.pressure", Conversion::BarToPascal),
        path_rule('P', "Barometer", "environment.outside.pressure", Conversion::BarToPascal),
        path_rule('C', "WTHI", "environment.water.temperature", Conversion::CelsiusToKelvin),
        path_rule('C', "WATER*", "environment.water.temperature", Conversion::CelsiusToKelvin),
        path_rule('C', "ENV_WATER_T", "environment.water.temperature", Conversion::CelsiusToKelvin),
        path_rule(
            'C',
            "ENV_OUTAIR*",
            "environment.outside.temperature",
            Conversion::CelsiusToKelvin,
        ),
        path_rule('C', "AIR*", "environment.outside.temperature", Conversion::CelsiusToKelvin),
        path_rule('C', "TempAir", "environment.outside.temperature", Conversion::CelsiusToKelvin),
        angle_rule("PTCH", TargetView::Pitch),
        angle_rule("PITCH", TargetView::Pitch),
        angle_rule("Pitch", TargetView::Pitch),
        angle_rule("ROLL", TargetView::Roll),
        angle_rule("Roll", TargetView::Roll),
        path_rule(
            'H',
            "ENV_OUTSIDE_H*",
            "environment.outside.humidity",
            Conversion::PercentToRatio,
        ),
        path_rule('H', "HUM*", "environment.outside.humidity", Conversion::PercentToRatio),
        path_rule('H', "Humidity", "environment.outside.humidity", Conversion::PercentToRatio),
        path_rule('U', "BATT*", "electrical.batteries.main.voltage", Conversion::Identity),
    ]
}

/// The rules for well-known transducers, in the order in which they are tried.
pub fn mappings() -> (r: Vec<XdrMapping>)
    ensures
        r@.map_values(|m: XdrMapping| m@) == rules(),
{
    let r = vec![
        path_mapping('P', "BARO*", "environment.outside.pressure", Conversion::BarToPascal),
        path_mapping('P', "BAR*", "environment.outside.pressure", Conversion::BarToPascal),
        path_mapping('P', "Barometer", "environment.outside.pressure", Conversion::BarToPascal),
        path_mapping('C', "WTHI", "environment.water.temperature", Conversion::CelsiusToKelvin),
        path_mapping('C', "WATER*", "environment.water.temperature", Conversion::CelsiusToKelvin),
        path_mapping(
            'C',
            "ENV_WATER_T",
            "environment.water.temperature",
            Conversion::CelsiusToKelvin,
        ),
        path_mapping(
            'C',
            "ENV_OUTAIR*",
            "environment.outside.temperature",
            Conversion::CelsiusToKelvin,
        ),
        path_mapping('C', "AIR*", "environment.outside.temperature", Conversion::CelsiusToKelvin),
        path_mapping(
            'C',
            "TempAir",
            "environment.outside.temperature",
            Conversion::CelsiusToKelvin,
        ),
        angle_mapping("PTCH", XdrTarget::Pitch),
        angle_mapping("PITCH", XdrTarget::Pitch),
        angle_mapping("Pitch", XdrTarget::Pitch),
        angle_mapping("ROLL", XdrTarget::Roll),
        angle_mapping("Roll", XdrTarget::Roll),
        path_mapping(
            'H',
            "ENV_OUTSIDE_H*",
            "environment.outside.humidity",
            Conversion::PercentToRatio,
        ),
        path_mapping('H', "HUM*", "environment.outside.humidity", Conversion::PercentToRatio),
        path_mapping('H', "Humidity", "environment.outside.humidity", Conversion::PercentToRatio),
        path_mapping('U', "BATT*", "electrical.batteries.main.voltage", Conversion::Identity),
    ];
    assert(r@.map_values(|m: XdrMapping| m@) =~= rules());
    r
}

/// A rule is meant for measurements of this type and name.
pub open spec fn applies(rule: Rule, t: char, name: Seq<char>) -> bool {
    rule.transducer_type == t && matches_pattern(rule.pattern, name)
}

/// The first of the rules that applies.
pub open spec fn first_rule(rules: Seq<Rule>, t: char, name: Seq<char>) -> Option<Rule>
    decreases rules.len(),
{
    if rules.len() == 0 {
        None
    } else if applies(rules[0], t, name) {
        Some(rules[0])
    } else {
        first_rule(rules.skip(1), t, name)
    }
}

/// Where no rule before `at` applies, the first rule is to be found from `at` on.
proof fn search_from(rules: Seq<Rule>, t: char, name: Seq<char>, at: int)
    requires
        0 <= at <= rules.len(),
        forall|k: int| 0 <= k < at ==> !applies(rules[k], t, name),
    ensures
        first_rule(rules, t, name) == first_rule(rules.skip(at), t, name),
    decreases at,
{
    if at > 0 {
        assert forall|k: int| 0 <= k < at - 1 implies !applies(rules.skip(1)[k], t, name) by {
            assert(rules.skip(1)[k] == rules[k + 1]);
        }
        search_from(rules.skip(1), t, name, at - 1);
        assert(rules.skip(1).skip(at - 1) =~= rules.skip(at));
    } else {
        assert(rules.skip(0) =~= rules);
    }
}

/// The first mapping that applies to a measurement.
pub fn find_mapping(transducer_type: char, name: &str) -> (r: Option<XdrMapping>)
    ensures
        (match r {
            Some(m) => Some(m@),
            None => None,
        }) == first_rule(rules(), transducer_type, name@),
{
    let table = mappings();
    let ghost list = rules();
    assert(list.len() == table@.len());
    let mut i: usize = 0;
    while i < table.len()
        invariant
            i <= table@.len(),
            table@.map_values(|m: XdrMapping| m@) == list,
            list == rules(),
            forall|k: int| 0 <= k < i ==> !applies(list[k], transducer_type, name@),
        decreases table@.len() - i,
    {
        let m = table[i];
        assert(list[i as int] == m@);
        if m.transducer_type == transducer_type && name_matches(m.name_pattern, name) {
            proof {
                search_from(list, transducer_type, name@, i as int);
                assert(list.skip(i as int)[0] == list[i as int]);
            }
            return Some(m);
        }
        i += 1;
    }
    proof {
        search_from(list, transducer_type, name@, list.len() as int);
    }
    None
}

/// One transducer measurement.
#[derive(Debug)]
pub struct XdrMeasurement {
    pub transducer_type: Option<char>,
    pub value: Option<Real>,
    pub name: String,
}

/// The view of an [`XdrMeasurement`].
pub struct Measurement {
    pub transducer_type: Option<char>,
    pub value: Option<Real>,
    pub name: Seq<char>,
}

impl XdrMeasurement {
    pub open spec fn view(&self) -> Measurement {
        Measurement {
            transducer_type: self.transducer_type,
            value: self.value,
            name: self.name@,
        }
    }
}

/// Transducer measurements.
#[derive(Debug)]
pub struct XdrData {
    pub measurements: Vec<XdrMeasurement>,
}

impl XdrData {
    pub open spec fn view(&self) -> Seq<Measurement> {
        self.measurements@.map_values(|m: XdrMeasurement| m@)
    }
}

/// What has been gathered from some measurements.
pub struct Gathered {
    pub list: Seq<Entry>,
    pub pitch: Option<Expr>,
    pub roll: Option<Expr>,
}

/// What is gathered from one more measurement. One without type or value, or that
/// no rule applies to, is passed over; a later pitch or roll replaces an earlier.
pub open spec fn gather_one(g: Gathered, m: Measurement) -> Gathered {
    match (m.transducer_type, m.value) {
        (Some(t), Some(v)) => match first_rule(rules(), t, m.name) {
            Some(rule) => match rule.target {
                TargetView::Path(path) => Gathered {
                    list: with(g.list, path, ValueView::Number(rule.convert.apply(v))),
                    ..g
                },
                TargetView::Pitch => Gathered { pitch: Some(rule.convert.apply(v)), ..g },
                TargetView::Roll => Gathered { roll: Some(rule.convert.apply(v)), ..g },
            },
            None => g,
        },
        _ => g,
    }
}

/// What is gathered from the measurements, in order.
pub open spec fn gather(ms: Seq<Measurement>) -> Gathered
    decreases ms.len(),
{
    if ms.len() == 0 {
        Gathered { list: Seq::empty(), pitch: None, roll: None }
    } else {
        gather_one(gather(ms.drop_last()), ms.last())
    }
}

/// The members of an attitude: pitch and roll as far as they are known.
pub open spec fn attitude_fields(pitch: Option<Expr>, roll: Option<Expr>) -> Seq<FieldView> {
    let s = Seq::<FieldView>::empty();
    let s = match pitch {
        Some(p) => s.push(FieldView { key: "pitch"@, value: ValueView::Number(p) }),
        None => s,
    };
    match roll {
        Some(r) => s.push(FieldView { key: "roll"@, value: ValueView::Number(r) }),
        None => s,
    }
}

/// What a XDR sentence reports: the mapped values, then pitch and roll together.
pub open spec fn xdr_entries(ms: Seq<Measurement>) -> Seq<Entry> {
    let g = gather(ms);
    if g.pitch is Some || g.roll is Some {
        with(
            g.list,
            "navigation.attitude"@,
            ValueView::Object(attitude_fields(g.pitch, g.roll)),
        )
    } else {
        g.list
    }
}

fn attitude(pitch: Option<Expr>, roll: Option<Expr>) -> (v: Value)
    ensures
        v@ == ValueView::Object(attitude_fields(pitch, roll)),
{
    let mut fields: Vec<Field> = Vec::new();
    assert(field_views(fields@) =~= Seq::empty());
    if let Some(p) = pitch {
        push_field(&mut fields, "pitch", Value::Number(p));
    }
    if let Some(r) = roll {
        push_field(&mut fields, "roll", Value::Number(r));
    }
    object(fields)
}

/// XDR: well-known measurements in SI units. Pitch and roll are combined into one
/// `navigation.attitude` object, which comes last.
pub fn from_xdr(xdr: &XdrData) -> (out: Vec<PathValue>)
    ensures
        entries(out@) == xdr_entries(xdr@),
{
    let mut out = no_values();
    let mut pitch: Option<Expr> = None;
    let mut roll: Option<Expr> = None;
    let mut i: usize = 0;
    while i < xdr.measurements.len()
        invariant
            i <= xdr.measurements@.len(),
            gather(xdr@.take(i as int)) == (Gathered { list: entries(out@), pitch, roll }),
        decreases xdr.measurements@.len() - i,
    {
        let m = &xdr.measurements[i];
        proof {
            let next = xdr@.take(i + 1);
            assert(next.drop_last() =~= xdr@.take(i as int));
            assert(next.last() == m@);
        }
        if let (Some(t), Some(v)) = (m.transducer_type, m.value) {
            if let Some(mapping) = find_mapping(t, m.name.as_str()) {
                let converted = mapping.convert.apply(v);
                match mapping.target {
                    XdrTarget::Pitch => {
                        pitch = Some(converted);
                    },
                    XdrTarget::Roll => {
                        roll = Some(converted);
                    },
                    XdrTarget::Path(path) => {
                        push(&mut out, path, Value::Number(converted));
                    },
                }
            }
        }
        i += 1;
    }
    assert(xdr@.take(i as int) =~= xdr@);
    if pitch.is_some() || roll.is_some() {
        push(&mut out, "navigation.attitude", attitude(pitch, roll));
    }
    out
}

} // verus!
