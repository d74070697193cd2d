//! What the measurements of an XDR sentence report.
use crate::expr::{lit, Expr};
use crate::number::Real;
use crate::paths::{group_paths, under};
use crate::signalk::{FieldView, ValueView};
use crate::text::has_prefix;
use crate::units::{BAR_TO_PA, DEG_TO_RAD, HUNDRED, KELVIN_OFFSET};
use crate::xdr::{
    applies, attitude_fields, first_rule, gather, matches_pattern, rules, xdr_entries, Measurement,
    Rule, TargetView,
};
use vstd::prelude::*;

verus! {

/// The first rule is one that applies, and none before it does; there is none where no rule
/// applies.
pub proof fn first_rule_is_first(list: Seq<Rule>, t: char, name: Seq<char>)
    ensures
        match first_rule(list, t, name) {
            Some(r) => exists|k: int|
                0 <= k < list.len() && r == list[k] && #[trigger] applies(list[k], t, name)
                    && forall|j: int| 0 <= j < k ==> !#[trigger] applies(list[j], t, name),
            None => forall|j: int| 0 <= j < list.len() ==> !#[trigger] applies(list[j], t, name),
        },
    decreases list.len(),
{
    if list.len() > 0 && !applies(list[0], t, name) {
        let rest = list.skip(1);
        first_rule_is_first(rest, t, name);
        assert forall|j: int| 0 <= j < rest.len() implies rest[j] == #[trigger] list[j + 1] by {}
        match first_rule(rest, t, name) {
            Some(r) => {
                let k = choose|k: int|
                    0 <= k < rest.len() && r == rest[k] && #[trigger] applies(rest[k], t, name)
                        && forall|j: int| 0 <= j < k ==> !#[trigger] applies(rest[j], t, name);
                assert(applies(list[k + 1], t, name));
                assert forall|j: int| 0 <= j < k + 1 implies !#[trigger] applies(
                    list[j],
                    t,
                    name,
                ) by {
                    if j > 0 {
                        assert(!applies(rest[j - 1], t, name));
                    }
                }
            },
            None => {
                assert forall|j: int| 0 <= j < list.len() implies !#[trigger] applies(
                    list[j],
                    t,
                    name,
                ) by {
                    if j > 0 {
                        assert(!applies(rest[j - 1], t, name));
                    }
                }
            },
        }
    }
}

/// A pattern with a star at its end stands for all names that start as it does.
pub proof fn star_stands_for_any_end(start: Seq<char>, name: Seq<char>)
    ensures
        matches_pattern(start + "*"@, name) == has_prefix(name, start),
{
    reveal_strlit("*");
    let pattern = start + "*"@;
    let at = pattern.len() - 1;
    assert(pattern.subrange(at, at + 1) =~= "*"@);
    assert(pattern.take(at) =~= start);
}

/// A pattern without a star at its end stands for itself.
pub proof fn plain_pattern_stands_for_itself(pattern: Seq<char>, name: Seq<char>)
    requires
        pattern.len() > 0,
        pattern.last() != '*',
    ensures
        matches_pattern(pattern, name) == (name == pattern),
{
    reveal_strlit("*");
    let at = pattern.len() - 1;
    assert(pattern.subrange(at, at + 1)[0] == pattern.last());
    assert("*"@[0] == '*');
}

/// What the patterns of the rules stand for.
#[verifier::spinoff_prover]
proof fn patterns_stand_for_names(name: Seq<char>)
    ensures
        matches_pattern("BARO*"@, name) == has_prefix(name, "BARO"@),
        matches_pattern("BAR*"@, name) == has_prefix(name, "BAR"@),
        matches_pattern("Barometer"@, name) == (name == "Barometer"@),
        matches_pattern("WTHI"@, name) == (name == "WTHI"@),
        matches_pattern("WATER*"@, name) == has_prefix(name, "WATER"@),
        matches_pattern("ENV_WATER_T"@, name) == (name == "ENV_WATER_T"@),
        matches_pattern("ENV_OUTAIR*"@, name) == has_prefix(name, "ENV_OUTAIR"@),
        matches_pattern("AIR*"@, name) == has_prefix(name, "AIR"@),
        matches_pattern("TempAir"@, name) == (name == "TempAir"@),
        matches_pattern("PTCH"@, name) == (name == "PTCH"@),
        matches_pattern("PITCH"@, name) == (name == "PITCH"@),
        matches_pattern("Pitch"@, name) == (name == "Pitch"@),
        matches_pattern("ROLL"@, name) == (name == "ROLL"@),
        matches_pattern("Roll"@, name) == (name == "Roll"@),
        matches_pattern("ENV_OUTSIDE_H*"@, name) == has_prefix(name, "ENV_OUTSIDE_H"@),
        matches_pattern("HUM*"@, name) == has_prefix(name, "HUM"@),
        matches_pattern("Humidity"@, name) == (name == "Humidity"@),
        matches_pattern("BATT*"@, name) == has_prefix(name, "BATT"@),
{
    reveal_strlit("*");
    reveal_strlit("BARO*");
    reveal_strlit("BARO");
    assert("BARO*"@ =~= "BARO"@ + "*"@);
    star_stands_for_any_end("BARO"@, name);
    reveal_strlit("BAR*");
    reveal_strlit("BAR");
    assert("BAR*"@ =~= "BAR"@ + "*"@);
    star_stands_for_any_end("BAR"@, name);
    reveal_strlit("Barometer");
    assert("Barometer"@.last() == 'r');
    plain_pattern_stands_for_itself("Barometer"@, name);
    reveal_strlit("WTHI");
    assert("WTHI"@.last() == 'I');
    plain_pattern_stands_for_itself("WTHI"@, name);
    reveal_strlit("WATER*");
    reveal_strlit("WATER");
    assert("WATER*"@ =~= "WATER"@ + "*"@);
    star_stands_for_any_end("WATER"@, name);
    reveal_strlit("ENV_WATER_T");
    assert("ENV_WATER_T"@.last() == 'T');
    plain_pattern_stands_for_itself("ENV_WATER_T"@, name);
    reveal_strlit("ENV_OUTAIR*");
    reveal_strlit("ENV_OUTAIR");
    assert("ENV_OUTAIR*"@ =~= "ENV_OUTAIR"@ + "*"@);
    star_stands_for_any_end("ENV_OUTAIR"@, name);
    reveal_strlit("AIR*");
    reveal_strlit("AIR");
    assert("AIR*"@ =~= "AIR"@ + "*"@);
    star_stands_for_any_end("AIR"@, name);
    reveal_strlit("TempAir");
    assert("TempAir"@.last() == 'r');
    plain_pattern_stands_for_itself("TempAir"@, name);
    reveal_strlit("PTCH");
    assert("PTCH"@.last() == 'H');
    plain_pattern_stands_for_itself("PTCH"@, name);
    reveal_strlit("PITCH");
    assert("PITCH"@.last() == 'H');
    plain_pattern_stands_for_itself("PITCH"@, name);
    reveal_strlit("Pitch");
    assert("Pitch"@.last() == 'h');
    plain_pattern_stands_for_itself("Pitch"@, name);
    reveal_strlit("ROLL");
    assert("ROLL"@.last() == 'L');
    plain_pattern_stands_for_itself("ROLL"@, name);
    reveal_strlit("Roll");
    assert("Roll"@.last() == 'l');
    plain_pattern_stands_for_itself("Roll"@, name);
    reveal_strlit("ENV_OUTSIDE_H*");
    reveal_strlit("ENV_OUTSIDE_H");
    assert("ENV_OUTSIDE_H*"@ =~= "ENV_OUTSIDE_H"@ + "*"@);
    star_stands_for_any_end("ENV_OUTSIDE_H"@, name);
    reveal_strlit("HUM*");
    reveal_strlit("HUM");
    assert("HUM*"@ =~= "HUM"@ + "*"@);
    star_stands_for_any_end("HUM"@, name);
    reveal_strlit("Humidity");
    assert("Humidity"@.last() == 'y');
    plain_pattern_stands_for_itself("Humidity"@, name);
    reveal_strlit("BATT*");
    reveal_strlit("BATT");
    assert("BATT*"@ =~= "BATT"@ + "*"@);
    star_stands_for_any_end("BATT"@, name);
}

/// The path that a measurement is told under, by its type and name: pressures of barometers,
/// temperatures of water and air, humidities, and the voltage of batteries.
pub open spec fn path_for(t: char, name: Seq<char>) -> Option<Seq<char>> {
    if t == 'P' && (has_prefix(name, "BAR"@) || name == "Barometer"@) {
        Some("environment.outside.pressure"@)
    } else if t == 'C' && (has_prefix(name, "WATER"@) || name == "WTHI"@ || name
        == "ENV_WATER_T"@) {
        Some("environment.water.temperature"@)
    } else if t == 'C' && (has_prefix(name, "AIR"@) || has_prefix(name, "ENV_OUTAIR"@) || name
        == "TempAir"@) {
        Some("environment.outside.temperature"@)
    } else if t == 'H' && (has_prefix(name, "HUM"@) || has_prefix(name, "ENV_OUTSIDE_H"@) || name
        == "Humidity"@) {
        Some("environment.outside.humidity"@)
    } else if t == 'U' && has_prefix(name, "BATT"@) {
        Some("electrical.batteries.main.voltage"@)
    } else {
        None
    }
}

/// A measurement in SI units, by its type: bar to pascal, degrees Celsius to kelvin, degrees to
/// radians, per cent to a share; a voltage stays as it is.
pub open spec fn in_si(t: char, value: Real) -> Expr {
    if t == 'P' {
        Expr::Lit(value).times(lit(BAR_TO_PA))
    } else if t == 'C' {
        Expr::Lit(value).plus(lit(KELVIN_OFFSET))
    } else if t == 'A' {
        Expr::Lit(value).times(lit(DEG_TO_RAD))
    } else if t == 'H' {
        Expr::Lit(value).over(lit(HUNDRED))
    } else {
        Expr::Lit(value)
    }
}

/// The name of a pitch.
pub open spec fn is_pitch(t: char, name: Seq<char>) -> bool {
    t == 'A' && (name == "PTCH"@ || name == "PITCH"@ || name == "Pitch"@)
}

/// The name of a roll.
pub open spec fn is_roll(t: char, name: Seq<char>) -> bool {
    t == 'A' && (name == "ROLL"@ || name == "Roll"@)
}

/// Names that start with one text do not start with, or equal, certain others.
#[verifier::spinoff_prover]
proof fn names_exclude_each_other(name: Seq<char>)
    ensures
        has_prefix(name, "BARO"@) ==> has_prefix(name, "BAR"@),
        has_prefix(name, "AIR"@) || has_prefix(name, "ENV_OUTAIR"@) || name == "TempAir"@ ==> !(
        has_prefix(name, "WATER"@) || name == "WTHI"@ || name == "ENV_WATER_T"@),
        name == "PTCH"@ || name == "PITCH"@ || name == "Pitch"@ ==> !(name == "ROLL"@ || name
            == "Roll"@),
{
    reveal_strlit("BARO");
    reveal_strlit("BAR");
    reveal_strlit("AIR");
    reveal_strlit("ENV_OUTAIR");
    reveal_strlit("TempAir");
    reveal_strlit("WATER");
    reveal_strlit("WTHI");
    reveal_strlit("ENV_WATER_T");
    reveal_strlit("PTCH");
    reveal_strlit("PITCH");
    reveal_strlit("Pitch");
    reveal_strlit("ROLL");
    reveal_strlit("Roll");
    if has_prefix(name, "BARO"@) {
        assert(name.subrange(0, 4) =~= "BARO"@);
        assert forall|i: int| 0 <= i < 3 implies name[i] == "BAR"@[i] by {
            assert(name[i] == name.subrange(0, 4)[i]);
        }
        assert(name.subrange(0, 3) =~= "BAR"@);
    }
    if has_prefix(name, "AIR"@) {
        assert(name[0] == name.subrange(0, 3)[0]);
    }
    if has_prefix(name, "ENV_OUTAIR"@) {
        assert(name[0] == name.subrange(0, 10)[0]);
        assert(name[4] == name.subrange(0, 10)[4]);
    }
    if has_prefix(name, "WATER"@) {
        assert(name[0] == name.subrange(0, 5)[0]);
    }
    assert("AIR"@[0] == 'A' && "ENV_OUTAIR"@[0] == 'E' && "TempAir"@[0] == 'T');
    assert("WATER"@[0] == 'W' && "WTHI"@[0] == 'W' && "ENV_WATER_T"@[0] == 'E');
    assert("ENV_OUTAIR"@[4] == 'O' && "ENV_WATER_T"@[4] == 'W');
    assert("PTCH"@[0] == 'P' && "PITCH"@[0] == 'P' && "Pitch"@[0] == 'P');
    assert("ROLL"@[0] == 'R' && "Roll"@[0] == 'R');
}

/// What a rule makes of a measurement depends on type and name alone, and is converted by type.
#[verifier::spinoff_prover]
#[verifier::rlimit(60)]
pub proof fn measurements_are_told_by_type_and_name(t: char, name: Seq<char>, value: Real)
    ensures
        match first_rule(rules(), t, name) {
            Some(r) => r.convert.apply(value) == in_si(t, value) && match r.target {
                TargetView::Path(path) => path_for(t, name) == Some(path),
                TargetView::Pitch => is_pitch(t, name),
                TargetView::Roll => is_roll(t, name),
            },
            None => path_for(t, name) is None && !is_pitch(t, name) && !is_roll(t, name),
        },
{
    patterns_stand_for_names(name);
    names_exclude_each_other(name);
    first_rule_is_first(rules(), t, name);
    let list = rules();
    match first_rule(list, t, name) {
        Some(r) => {
            let k = choose|k: int|
                0 <= k < list.len() && r == list[k] && #[trigger] applies(list[k], t, name);
            assert(k == 0 || k == 1 || k == 2 || k == 3 || k == 4 || k == 5 || k == 6 || k == 7 || k
                == 8 || k == 9 || k == 10 || k == 11 || k == 12 || k == 13 || k == 14 || k == 15
                || k == 16 || k == 17);
        },
        None => {
            assert(forall|j: int| 0 <= j < 18 ==> !#[trigger] applies(list[j], t, name));
            assert(!applies(list[0], t, name) && !applies(list[1], t, name) && !applies(
                list[2],
                t,
                name,
            ));
            assert(!applies(list[3], t, name) && !applies(list[4], t, name) && !applies(
                list[5],
                t,
                name,
            ));
            assert(!applies(list[6], t, name) && !applies(list[7], t, name) && !applies(
                list[8],
                t,
                name,
            ));
            assert(!applies(list[9], t, name) && !applies(list[10], t, name) && !applies(
                list[11],
                t,
                name,
            ));
            assert(!applies(list[12], t, name) && !applies(list[13], t, name) && !applies(
                list[14],
                t,
                name,
            ));
            assert(!applies(list[15], t, name) && !applies(list[16], t, name) && !applies(
                list[17],
                t,
                name,
            ));
        },
    }
}

/// One more measurement is told behind the others under its path, in SI units; one that lacks its
/// type or value, or is not known, changes nothing under any path of a measurement.
pub proof fn one_more_measurement_is_told(ms: Seq<Measurement>, m: Measurement, path: Seq<char>)
    requires
        path != "navigation.attitude"@,
    ensures
        under(xdr_entries(ms.push(m)), path) == (match (m.transducer_type, m.value) {
            (Some(t), Some(v)) => if path_for(t, m.name) == Some(path) {
                under(xdr_entries(ms), path).push(ValueView::Number(in_si(t, v)))
            } else {
                under(xdr_entries(ms), path)
            },
            _ => under(xdr_entries(ms), path),
        }),
        ms.len() == 0 ==> under(xdr_entries(ms), path) == Seq::<ValueView>::empty(),
{
    broadcast use group_paths;

    assert(ms.push(m).drop_last() =~= ms);
    if let (Some(t), Some(v)) = (m.transducer_type, m.value) {
        measurements_are_told_by_type_and_name(t, m.name, v);
        if is_pitch(t, m.name) || is_roll(t, m.name) {
            assert(path_for(t, m.name) is None);
        }
    }
}

/// An angle of the attitude that the last of some measurements gives.
pub open spec fn last_angle(
    ms: Seq<Measurement>,
    named: spec_fn(char, Seq<char>) -> bool,
) -> Option<Expr>
    decreases ms.len(),
{
    if ms.len() == 0 {
        None
    } else {
        match (ms.last().transducer_type, ms.last().value) {
            (Some(t), Some(v)) => if named(t, ms.last().name) {
                Some(Expr::Lit(v).times(lit(DEG_TO_RAD)))
            } else {
                last_angle(ms.drop_last(), named)
            },
            _ => last_angle(ms.drop_last(), named),
        }
    }
}

/// The last pitch and the last roll are gathered, in radians.
pub proof fn last_angles_are_gathered(ms: Seq<Measurement>)
    ensures
        gather(ms).pitch == last_angle(ms, |t: char, name: Seq<char>| is_pitch(t, name)),
        gather(ms).roll == last_angle(ms, |t: char, name: Seq<char>| is_roll(t, name)),
        under(gather(ms).list, "navigation.attitude"@) == Seq::<ValueView>::empty(),
    decreases ms.len(),
{
    broadcast use group_paths;

    if ms.len() > 0 {
        last_angles_are_gathered(ms.drop_last());
        let m = ms.last();
        names_exclude_each_other(m.name);
        attitude_is_no_measurement();
        if let (Some(t), Some(v)) = (m.transducer_type, m.value) {
            measurements_are_told_by_type_and_name(t, m.name, v);
        }
    }
}

/// The attitude has a path of its own.
proof fn attitude_is_no_measurement()
    ensures
        forall|t: char, name: Seq<char>| #[trigger]
            path_for(t, name) != Some("navigation.attitude"@),
{
    reveal_strlit("navigation.attitude");
    reveal_strlit("environment.outside.pressure");
    reveal_strlit("environment.water.temperature");
    reveal_strlit("environment.outside.temperature");
    reveal_strlit("environment.outside.humidity");
    reveal_strlit("electrical.batteries.main.voltage");
    assert("navigation.attitude"@[0] == 'n');
    assert("environment.outside.pressure"@[0] == 'e');
    assert("environment.water.temperature"@[0] == 'e');
    assert("environment.outside.temperature"@[0] == 'e');
    assert("environment.outside.humidity"@[0] == 'e');
    assert("electrical.batteries.main.voltage"@[0] == 'e');
}

/// The last pitch and the last roll are told together as the attitude, as far as there are any.
pub proof fn attitude_has_the_last_angles(ms: Seq<Measurement>)
    ensures
        ({
            let pitch = last_angle(ms, |t: char, name: Seq<char>| is_pitch(t, name));
            let roll = last_angle(ms, |t: char, name: Seq<char>| is_roll(t, name));
            under(xdr_entries(ms), "navigation.attitude"@) == (match (pitch, roll) {
                (Some(p), Some(r)) => seq![
                    ValueView::Object(
                        seq![
                            FieldView { key: "pitch"@, value: ValueView::Number(p) },
                            FieldView { key: "roll"@, value: ValueView::Number(r) },
                        ],
                    ),
                ],
                (Some(p), None) => seq![
                    ValueView::Object(
                        seq![FieldView { key: "pitch"@, value: ValueView::Number(p) }],
                    ),
                ],
                (None, Some(r)) => seq![
                    ValueView::Object(
                        seq![FieldView { key: "roll"@, value: ValueView::Number(r) }],
                    ),
                ],
                (None, None) => Seq::empty(),
            })
        }),
{
    broadcast use group_paths;

    last_angles_are_gathered(ms);
    let g = gather(ms);
    let fields = attitude_fields(g.pitch, g.roll);
    match (g.pitch, g.roll) {
        (Some(p), Some(r)) => {
            assert(fields =~= seq![
                FieldView { key: "pitch"@, value: ValueView::Number(p) },
                FieldView { key: "roll"@, value: ValueView::Number(r) },
            ]);
        },
        (Some(p), None) => {
            assert(fields =~= seq![FieldView { key: "pitch"@, value: ValueView::Number(p) }]);
        },
        (None, Some(r)) => {
            assert(fields =~= seq![FieldView { key: "roll"@, value: ValueView::Number(r) }]);
        },
        (None, None) => {},
    }
}

} // verus!
