//! Derived data of the moon.
use crate::clock::{rfc3339_millis, rfc3339_millis_of, FOUR_DIGIT_YEARS_MS};
use crate::derived::{opt_entries, path_views, text_of, Values};
use crate::evaluation::within;
use crate::expr::num;
use crate::incoming::ReadingView;
use crate::number::Real;
use crate::signalk::{entries, no_values, push, text, with, Entry, PathValue, Value, ValueView};
use crate::units::ONE;
use std::time::{Duration, UNIX_EPOCH};
use vstd::prelude::*;

verus! {

/// What is known of the moon at some moment.
#[derive(Debug)]
pub struct MoonReport {
    /// Fraction of the cycle; 0.5 is a full moon.
    pub phase: Real,
    /// Illuminated fraction of the disk.
    pub illumination: Real,
    /// Days in the present cycle.
    pub age: Real,
    /// Name of the phase.
    pub phase_name: String,
}

/// The phase and age of the moon, as the bits of doubles, and the name of the phase, as
/// `moon_phase` gives them for a number of milliseconds since the epoch.
pub uninterp spec fn moon_of(ms: u64) -> (u64, u64, Seq<char>);

impl MoonReport {
    /// The report is one of the given moment.
    pub open spec fn named(self, ms: u64) -> bool {
        &&& (self.phase.bits, self.age.bits, self.phase_name@) == moon_of(ms)
        &&& within(self.illumination, Real { bits: ONE })
    }
}

/// Wraps `moon_phase::MoonPhase::new`. Phase, age and name of the phase are functions of
/// the moment alone. Of the illumination no more is said than that it lies within 1 of zero:
/// it is half a cosine, whose last digits depend on the platform. Far later moments than the
/// required ones are more than the system time of some platforms can hold.
#[verifier::external_body]
pub(crate) fn moon_at(ms: u64) -> (r: MoonReport)
    requires
        ms < FOUR_DIGIT_YEARS_MS,
    ensures
        (r.phase.bits, r.age.bits, r.phase_name@) == moon_of(ms),
        within(r.illumination, Real { bits: ONE }),
{
    let m = moon_phase::MoonPhase::new(UNIX_EPOCH + Duration::from_millis(ms));
    MoonReport {
        phase: Real { bits: m.phase.to_bits() },
        illumination: Real { bits: m.fraction.to_bits() },
        age: Real { bits: m.age.to_bits() },
        phase_name: m.phase_name.to_string(),
    }
}

/// The values that a report gives.
pub open spec fn moon_entries(report: MoonReport) -> Seq<Entry> {
    let s = with(Seq::empty(), "environment.moon.phase"@, ValueView::Number(num(report.phase)));
    let s = with(
        s,
        "environment.moon.illumination"@,
        ValueView::Number(num(report.illumination)),
    );
    let s = with(s, "environment.moon.age"@, ValueView::Number(num(report.age)));
    with(s, "environment.moon.phaseName"@, ValueView::Text(report.phase_name@))
}

/// The values that a report gives.
pub fn moon_values(report: &MoonReport) -> (out: Vec<PathValue>)
    ensures
        entries(out@) == moon_entries(*report),
{
    let mut out = no_values();
    push(&mut out, "environment.moon.phase", Value::Number(num(report.phase)));
    push(&mut out, "environment.moon.illumination", Value::Number(num(report.illumination)));
    push(&mut out, "environment.moon.age", Value::Number(num(report.age)));
    push(&mut out, "environment.moon.phaseName", text(report.phase_name.as_str()));
    out
}

/// Derives phase, illumination and age of the moon.
#[derive(Debug, Clone, Copy)]
pub struct Moon;

impl Moon {
    pub fn name(&self) -> (r: &'static str)
        ensures
            r@ == "moon"@,
    {
        "moon"
    }

    /// The paths that the result depends on.
    pub open spec fn input_paths() -> Seq<Seq<char>> {
        seq![
            "navigation.datetime"@,
        ]
    }

    /// The paths that the result depends on.
    pub fn inputs(&self) -> (r: Vec<&'static str>)
        ensures
            path_views(r@) == Self::input_paths(),
    {
        let mut out: Vec<&'static str> = Vec::new();
        out.push("navigation.datetime");
        assert(path_views(out@) =~= Self::input_paths());
        out
    }

    /// The moment in milliseconds since the epoch, where it is given and not before it.
    pub open spec fn moment(values: Seq<ReadingView>) -> Option<u64> {
        match text_of(values, "navigation.datetime"@) {
            Some(s) => match rfc3339_millis_of(s) {
                Some(ms) => if ms >= 0 {
                    Some(ms as u64)
                } else {
                    None
                },
                None => None,
            },
            None => None,
        }
    }

    /// Of the moon at the given moment: phase, age and the name of the phase are fixed
    /// by the moment; the illumination lies within 1 of zero.
    pub fn calculate(&self, values: &Values) -> (r: Option<Vec<PathValue>>)
        ensures
            match Moon::moment(values@) {
                Some(ms) => exists|report: MoonReport|
                    {
                        &&& report.named(ms)
                        &&& opt_entries(r) == Some(#[trigger] moon_entries(report))
                    },
                None => r is None,
            },
    {
        let ms = match values.get("navigation.datetime") {
            Some(j) => match j.as_str() {
                Some(s) => rfc3339_millis(s),
                None => None,
            },
            None => None,
        };
        match ms {
            Some(ms) => if ms >= 0 {
                let report = moon_at(ms as u64);
                let out = moon_values(&report);
                assert(report.named(ms as u64));
                assert(entries(out@) == moon_entries(report));
                Some(out)
            } else {
                None
            },
            None => None,
        }
    }
}

} // verus!
