//! Signal K values, turned into NMEA 0183 sentences for TCP clients.
use crate::clock::{CalendarDate, ClockTime};
use crate::expr::{lit, num, Expr};
use crate::incoming::{
    all_values, readings, update_views, Incoming, Reading, ReadingView,
};
use crate::json::{number_at, number_in};
use crate::number::Real;
use crate::text::{decimal, digits, equal, join};
use crate::units::{FATHOMS_PER_METER, FEET_PER_METER, MPS_TO_KNOTS};
use vstd::prelude::*;
use vstd::string::*;

verus! {

/// The port that sentences are served on by default.
#[verifier::allow_in_spec]
pub fn default_port() -> (r: u16)
    returns
        10111u16,
{
    10111
}

/// The default talker.
pub fn default_talker_id() -> (r: String)
    ensures
        r@ == "GP"@,
{
    "GP".to_string()
}

/// The default time between two rounds of sentences, in milliseconds.
#[verifier::allow_in_spec]
pub fn default_interval() -> (r: u64)
    returns
        1000u64,
{
    1000
}

/// How sentences are sent.
#[derive(Debug, Clone)]
pub struct SendConfig {
    pub port: u16,
    pub talker_id: String,
    pub interval_ms: u64,
}

impl Default for SendConfig {
    fn default() -> (r: Self)
        ensures
            r.port == default_port(),
            r.talker_id@ == "GP"@,
            r.interval_ms == default_interval(),
    {
        SendConfig {
            port: default_port(),
            talker_id: default_talker_id(),
            interval_ms: default_interval(),
        }
    }
}

impl SendConfig {
    /// The address to listen on.
    pub fn address(&self) -> (r: String)
        ensures
            r@ == "0.0.0.0:"@ + digits(self.port as nat),
    {
        join("0.0.0.0:", decimal(self.port as u64).as_str())
    }

    /// The status to report while sentences are served.
    pub fn status(&self) -> (r: String)
        ensures
            r@ == "TCP :"@ + digits(self.port as nat),
    {
        join("TCP :", decimal(self.port as u64).as_str())
    }
}

/// The latest values of the own vessel.
#[derive(Debug, Clone, Copy)]
pub struct Snapshot {
    pub latitude: Option<Real>,
    pub longitude: Option<Real>,
    pub sog_mps: Option<Real>,
    pub cog_true_rad: Option<Real>,
    pub heading_true_rad: Option<Real>,
    pub magnetic_variation_rad: Option<Real>,
    pub wind_angle_apparent_rad: Option<Real>,
    pub wind_speed_apparent_mps: Option<Real>,
    pub depth_below_transducer_m: Option<Real>,
}

impl Snapshot {
    /// A snapshot without values.
    #[verifier::allow_in_spec]
    pub fn empty() -> (r: Snapshot)
        returns
            (Snapshot {
                latitude: None,
                longitude: None,
                sog_mps: None,
                cog_true_rad: None,
                heading_true_rad: None,
                magnetic_variation_rad: None,
                wind_angle_apparent_rad: None,
                wind_speed_apparent_mps: None,
                depth_below_transducer_m: None,
            }),
    {
        Snapshot {
            latitude: None,
            longitude: None,
            sog_mps: None,
            cog_true_rad: None,
            heading_true_rad: None,
            magnetic_variation_rad: None,
            wind_angle_apparent_rad: None,
            wind_speed_apparent_mps: None,
            depth_below_transducer_m: None,
        }
    }

    /// The snapshot after one received value.
    pub open spec fn with_reading(self, r: ReadingView) -> Snapshot {
        if r.path == "navigation.position"@ {
            Snapshot {
                latitude: number_at(r.value, "latitude"@),
                longitude: number_at(r.value, "longitude"@),
                ..self
            }
        } else if r.path == "navigation.speedOverGround"@ {
            Snapshot { sog_mps: number_in(r.value), ..self }
        } else if r.path == "navigation.courseOverGroundTrue"@ {
            Snapshot { cog_true_rad: number_in(r.value), ..self }
        } else if r.path == "navigation.headingTrue"@ {
            Snapshot { heading_true_rad: number_in(r.value), ..self }
        } else if r.path == "navigation.magneticVariation"@ {
            Snapshot { magnetic_variation_rad: number_in(r.value), ..self }
        } else if r.path == "environment.wind.angleApparent"@ {
            Snapshot { wind_angle_apparent_rad: number_in(r.value), ..self }
        } else if r.path == "environment.wind.speedApparent"@ {
            Snapshot { wind_speed_apparent_mps: number_in(r.value), ..self }
        } else if r.path == "environment.depth.belowTransducer"@ {
            Snapshot { depth_below_transducer_m: number_in(r.value), ..self }
        } else {
            self
        }
    }

    /// The snapshot after some received values.
    pub open spec fn with_readings(self, values: Seq<ReadingView>) -> Snapshot
        decreases values.len(),
    {
        if values.len() == 0 {
            self
        } else {
            self.with_readings(values.drop_last()).with_reading(values.last())
        }
    }

    /// Takes in one received value.
    fn take_reading(&mut self, r: &Reading)
        ensures
            *final(self) == old(self).with_reading(r@),
    {
        let path = r.path.as_str();
        if equal(path, "navigation.position") {
            self.latitude = r.value.number_at("latitude");
            self.longitude = r.value.number_at("longitude");
        } else if equal(path, "navigation.speedOverGround") {
            self.sog_mps = r.value.as_real();
        } else if equal(path, "navigation.courseOverGroundTrue") {
            self.cog_true_rad = r.value.as_real();
        } else if equal(path, "navigation.headingTrue") {
            self.heading_true_rad = r.value.as_real();
        } else if equal(path, "navigation.magneticVariation") {
            self.magnetic_variation_rad = r.value.as_real();
        } else if equal(path, "environment.wind.angleApparent") {
            self.wind_angle_apparent_rad = r.value.as_real();
        } else if equal(path, "environment.wind.speedApparent") {
            self.wind_speed_apparent_mps = r.value.as_real();
        } else if equal(path, "environment.depth.belowTransducer") {
            self.depth_below_transducer_m = r.value.as_real();
        }
    }

    /// Takes in all values of a delta.
    pub fn update_from_delta(&mut self, delta: &Incoming)
        ensures
            *final(self) == old(self).with_readings(all_values(update_views(delta.updates@))),
    {
        let ghost updates = update_views(delta.updates@);
        let ghost start = *self;
        let mut i: usize = 0;
        assert(updates.take(0) =~= Seq::empty());
        while i < delta.updates.len()
            invariant
                i <= delta.updates@.len(),
                updates == update_views(delta.updates@),
                *self == start.with_readings(all_values(updates.take(i as int))),
            decreases delta.updates@.len() - i,
        {
            let update = &delta.updates[i];
            let ghost values = readings(update.values@);
            let ghost done = all_values(updates.take(i as int));
            let mut j: usize = 0;
            assert(done + values.take(0) =~= done);
            while j < update.values.len()
                invariant
                    j <= update.values@.len(),
                    values == readings(update.values@),
                    *self == start.with_readings(done + values.take(j as int)),
                decreases update.values@.len() - j,
            {
                proof {
                    let next = done + values.take(j + 1);
                    assert(next.drop_last() =~= done + values.take(j as int));
                    assert(next.last() == update.values@[j as int]@);
                }
                self.take_reading(&update.values[j]);
                j += 1;
            }
            proof {
                assert(values.take(j as int) =~= values);
                let next = updates.take(i + 1);
                assert(next.drop_last() =~= updates.take(i as int));
                assert(next.last() == update@);
            }
            i += 1;
        }
        assert(updates.take(i as int) =~= updates);
    }
}

/// The number in the last of some values under a path, or what was there before.
pub open spec fn latest(
    values: Seq<ReadingView>,
    path: Seq<char>,
    before: Option<Real>,
) -> Option<Real>
    decreases values.len(),
{
    if values.len() == 0 {
        before
    } else if values.last().path == path {
        number_in(values.last().value)
    } else {
        latest(values.drop_last(), path, before)
    }
}

/// A coordinate in the last of some positions, or what was there before.
pub open spec fn latest_coordinate(
    values: Seq<ReadingView>,
    key: Seq<char>,
    before: Option<Real>,
) -> Option<Real>
    decreases values.len(),
{
    if values.len() == 0 {
        before
    } else if values.last().path == "navigation.position"@ {
        number_at(values.last().value, key)
    } else {
        latest_coordinate(values.drop_last(), key, before)
    }
}

/// A snapshot holds the latest value under each of its paths, whatever else was received.
pub proof fn snapshot_keeps_latest(snap: Snapshot, values: Seq<ReadingView>)
    ensures
        snap.with_readings(values).latitude == latest_coordinate(
            values,
            "latitude"@,
            snap.latitude,
        ),
        snap.with_readings(values).longitude == latest_coordinate(
            values,
            "longitude"@,
            snap.longitude,
        ),
        snap.with_readings(values).sog_mps == latest(
            values,
            "navigation.speedOverGround"@,
            snap.sog_mps,
        ),
        snap.with_readings(values).cog_true_rad == latest(
            values,
            "navigation.courseOverGroundTrue"@,
            snap.cog_true_rad,
        ),
        snap.with_readings(values).heading_true_rad == latest(
            values,
            "navigation.headingTrue"@,
            snap.heading_true_rad,
        ),
        snap.with_readings(values).magnetic_variation_rad == latest(
            values,
            "navigation.magneticVariation"@,
            snap.magnetic_variation_rad,
        ),
        snap.with_readings(values).wind_angle_apparent_rad == latest(
            values,
            "environment.wind.angleApparent"@,
            snap.wind_angle_apparent_rad,
        ),
        snap.with_readings(values).wind_speed_apparent_mps == latest(
            values,
            "environment.wind.speedApparent"@,
            snap.wind_speed_apparent_mps,
        ),
        snap.with_readings(values).depth_below_transducer_m == latest(
            values,
            "environment.depth.belowTransducer"@,
            snap.depth_below_transducer_m,
        ),
    decreases values.len(),
{
    reveal_strlit("navigation.position");
    reveal_strlit("navigation.speedOverGround");
    reveal_strlit("navigation.courseOverGroundTrue");
    reveal_strlit("navigation.headingTrue");
    reveal_strlit("navigation.magneticVariation");
    reveal_strlit("environment.wind.angleApparent");
    reveal_strlit("environment.wind.speedApparent");
    reveal_strlit("environment.depth.belowTransducer");
    assert("navigation.position"@.len() == 19);
    assert("navigation.speedOverGround"@.len() == 26);
    assert("navigation.courseOverGroundTrue"@.len() == 31);
    assert("navigation.headingTrue"@.len() == 22);
    assert("navigation.magneticVariation"@.len() == 28);
    assert("environment.wind.angleApparent"@.len() == 30);
    assert("environment.wind.speedApparent"@.len() == 30);
    assert("environment.depth.belowTransducer"@.len() == 33);
    assert("environment.wind.angleApparent"@[17] == 'a');
    assert("environment.wind.speedApparent"@[17] == 's');
    if values.len() > 0 {
        snapshot_keeps_latest(snap, values.drop_last());
    }
}

/// A speed in metres per second, in knots of single precision.
#[verifier::allow_in_spec]
pub fn knots(speed: Option<Real>) -> (r: Option<Expr>)
    returns
        (match speed {
            Some(v) => Some(num(v).times(lit(MPS_TO_KNOTS)).to_single()),
            None => None,
        }),
{
    match speed {
        Some(v) => Some(num(v).times(lit(MPS_TO_KNOTS)).to_single()),
        None => None,
    }
}

/// An angle in radians, in degrees of single precision.
#[verifier::allow_in_spec]
pub fn degrees(angle: Option<Real>) -> (r: Option<Expr>)
    returns
        (match angle {
            Some(v) => Some(num(v).to_degrees().to_single()),
            None => None,
        }),
{
    match angle {
        Some(v) => Some(num(v).to_degrees().to_single()),
        None => None,
    }
}

/// A reading times a constant.
#[verifier::allow_in_spec]
pub fn multiplied(reading: Option<Real>, constant: u64) -> (r: Option<Expr>)
    returns
        (match reading {
            Some(v) => Some(num(v).times(lit(constant))),
            None => None,
        }),
{
    match reading {
        Some(v) => Some(num(v).times(lit(constant))),
        None => None,
    }
}

/// How trustworthy a fix is.
#[derive(Debug, Clone, Copy, PartialEq, Eq, Structural)]
pub enum FixStatus {
    Autonomous,
    Invalid,
}

/// The content of an RMC sentence.
#[derive(Debug)]
pub struct RmcData {
    pub fix_time: ClockTime,
    pub fix_date: CalendarDate,
    pub status_of_fix: FixStatus,
    pub lat: Option<Real>,
    pub lon: Option<Real>,
    /// In knots.
    pub speed_over_ground: Option<Expr>,
    /// In degrees.
    pub true_course: Option<Expr>,
    /// In degrees.
    pub magnetic_variation: Option<Expr>,
}

/// The content of an HDT sentence, in degrees.
#[derive(Debug)]
pub struct HdtData {
    pub heading: Option<Expr>,
}

/// The content of an MWV sentence with a relative wind in knots.
#[derive(Debug)]
pub struct MwvData {
    /// In degrees.
    pub wind_direction: Option<Expr>,
    /// In knots.
    pub wind_speed: Option<Expr>,
    pub data_valid: bool,
}

/// The content of a DBT sentence.
#[derive(Debug)]
pub struct DbtData {
    pub depth_feet: Option<Expr>,
    pub depth_meters: Option<Real>,
    pub depth_fathoms: Option<Expr>,
}

/// The content of a VTG sentence.
#[derive(Debug)]
pub struct VtgData {
    /// In degrees.
    pub true_course: Option<Expr>,
    /// In knots.
    pub speed_over_ground: Option<Expr>,
}

/// A sentence to be written.
#[derive(Debug)]
pub enum Outgoing {
    Rmc(RmcData),
    Hdt(HdtData),
    Mwv(MwvData),
    Dbt(DbtData),
    Vtg(VtgData),
}

/// Position, course and speed at a time; without a latitude the fix is invalid.
#[verifier::allow_in_spec]
pub fn snapshot_to_rmc(snap: &Snapshot, fix_date: CalendarDate, fix_time: ClockTime) -> (r: RmcData)
    returns
        (RmcData {
            fix_time,
            fix_date,
            status_of_fix: if snap.latitude is Some {
                FixStatus::Autonomous
            } else {
                FixStatus::Invalid
            },
            lat: snap.latitude,
            lon: snap.longitude,
            speed_over_ground: knots(snap.sog_mps),
            true_course: degrees(snap.cog_true_rad),
            magnetic_variation: degrees(snap.magnetic_variation_rad),
        }),
{
    RmcData {
        fix_time,
        fix_date,
        status_of_fix: if snap.latitude.is_some() {
            FixStatus::Autonomous
        } else {
            FixStatus::Invalid
        },
        lat: snap.latitude,
        lon: snap.longitude,
        speed_over_ground: knots(snap.sog_mps),
        true_course: degrees(snap.cog_true_rad),
        magnetic_variation: degrees(snap.magnetic_variation_rad),
    }
}

/// The true heading.
#[verifier::allow_in_spec]
pub fn snapshot_to_hdt(snap: &Snapshot) -> (r: HdtData)
    returns
        (HdtData { heading: degrees(snap.heading_true_rad) }),
{
    HdtData { heading: degrees(snap.heading_true_rad) }
}

/// The apparent wind, valid if its angle is known.
#[verifier::allow_in_spec]
pub fn snapshot_to_mwv(snap: &Snapshot) -> (r: MwvData)
    returns
        (MwvData {
            wind_direction: degrees(snap.wind_angle_apparent_rad),
            wind_speed: knots(snap.wind_speed_apparent_mps),
            data_valid: snap.wind_angle_apparent_rad is Some,
        }),
{
    MwvData {
        wind_direction: degrees(snap.wind_angle_apparent_rad),
        wind_speed: knots(snap.wind_speed_apparent_mps),
        data_valid: snap.wind_angle_apparent_rad.is_some(),
    }
}

/// The depth in three units.
#[verifier::allow_in_spec]
pub fn snapshot_to_dbt(snap: &Snapshot) -> (r: DbtData)
    returns
        (DbtData {
            depth_feet: multiplied(snap.depth_below_transducer_m, FEET_PER_METER),
            depth_meters: snap.depth_below_transducer_m,
            depth_fathoms: multiplied(snap.depth_below_transducer_m, FATHOMS_PER_METER),
        }),
{
    DbtData {
        depth_feet: multiplied(snap.depth_below_transducer_m, FEET_PER_METER),
        depth_meters: snap.depth_below_transducer_m,
        depth_fathoms: multiplied(snap.depth_below_transducer_m, FATHOMS_PER_METER),
    }
}

/// Course and speed over ground.
#[verifier::allow_in_spec]
pub fn snapshot_to_vtg(snap: &Snapshot) -> (r: VtgData)
    returns
        (VtgData {
            true_course: degrees(snap.cog_true_rad),
            speed_over_ground: knots(snap.sog_mps),
        }),
{
    VtgData { true_course: degrees(snap.cog_true_rad), speed_over_ground: knots(snap.sog_mps) }
}

/// `list`, followed by a sentence if it is due.
pub open spec fn with_sentence(list: Seq<Outgoing>, due: bool, s: Outgoing) -> Seq<Outgoing> {
    if due {
        list.push(s)
    } else {
        list
    }
}

/// The sentences of one round: RMC always, every other one as soon as there is a value for it.
pub open spec fn sentences_of(
    snap: Snapshot,
    date: CalendarDate,
    time: ClockTime,
) -> Seq<Outgoing> {
    let start = seq![Outgoing::Rmc(snapshot_to_rmc(&snap, date, time))];
    let heading = with_sentence(
        start,
        snap.heading_true_rad is Some,
        Outgoing::Hdt(snapshot_to_hdt(&snap)),
    );
    let wind = with_sentence(
        heading,
        snap.wind_angle_apparent_rad is Some || snap.wind_speed_apparent_mps is Some,
        Outgoing::Mwv(snapshot_to_mwv(&snap)),
    );
    let depth = with_sentence(
        wind,
        snap.depth_below_transducer_m is Some,
        Outgoing::Dbt(snapshot_to_dbt(&snap)),
    );
    with_sentence(
        depth,
        snap.cog_true_rad is Some || snap.sog_mps is Some,
        Outgoing::Vtg(snapshot_to_vtg(&snap)),
    )
}

/// The sentences of one round, in the order in which they are sent.
pub fn generate_all_sentences(snap: &Snapshot, date: CalendarDate, time: ClockTime) -> (out: Vec<
    Outgoing,
>)
    ensures
        out@ == sentences_of(*snap, date, time),
{
    let mut out: Vec<Outgoing> = Vec::new();
    out.push(Outgoing::Rmc(snapshot_to_rmc(snap, date, time)));
    assert(out@ =~= seq![Outgoing::Rmc(snapshot_to_rmc(snap, date, time))]);
    if snap.heading_true_rad.is_some() {
        out.push(Outgoing::Hdt(snapshot_to_hdt(snap)));
    }
    if snap.wind_angle_apparent_rad.is_some() || snap.wind_speed_apparent_mps.is_some() {
        out.push(Outgoing::Mwv(snapshot_to_mwv(snap)));
    }
    if snap.depth_below_transducer_m.is_some() {
        out.push(Outgoing::Dbt(snapshot_to_dbt(snap)));
    }
    if snap.cog_true_rad.is_some() || snap.sog_mps.is_some() {
        out.push(Outgoing::Vtg(snapshot_to_vtg(snap)));
    }
    out
}

/// The lines of the sentences that could be written.
pub open spec fn lines_of(written: Seq<Option<Seq<char>>>) -> Seq<Seq<char>>
    decreases written.len(),
{
    if written.len() == 0 {
        Seq::empty()
    } else {
        match written.last() {
            Some(s) => lines_of(written.drop_last()).push(s + "\r\n"@),
            None => lines_of(written.drop_last()),
        }
    }
}

/// The views of some texts that may be missing.
pub open spec fn opt_texts(written: Seq<Option<String>>) -> Seq<Option<Seq<char>>> {
    written.map_values(
        |s: Option<String>|
            match s {
                Some(t) => Some(t@),
                None => None,
            },
    )
}

/// The views of some texts.
pub open spec fn texts(lines: Seq<String>) -> Seq<Seq<char>> {
    lines.map_values(|s: String| s@)
}

/// Ends every sentence that could be written with a line end, and drops the others.
pub fn finished_lines(written: &Vec<Option<String>>) -> (out: Vec<String>)
    ensures
        texts(out@) == lines_of(opt_texts(written@)),
{
    let ghost all = opt_texts(written@);
    let mut out: Vec<String> = Vec::new();
    let mut i: usize = 0;
    assert(texts(out@) =~= Seq::empty());
    assert(all.take(0) =~= Seq::empty());
    while i < written.len()
        invariant
            i <= written@.len(),
            all == opt_texts(written@),
            texts(out@) == lines_of(all.take(i as int)),
        decreases written@.len() - i,
    {
        proof {
            let next = all.take(i + 1);
            assert(next.drop_last() =~= all.take(i as int));
            assert(next.last() == all[i as int]);
        }
        match &written[i] {
            Some(s) => {
                let ghost before = texts(out@);
                out.push(join(s.as_str(), "\r\n"));
                assert(texts(out@) =~= before.push(s@ + "\r\n"@));
            },
            None => {},
        }
        i += 1;
    }
    assert(all.take(i as int) =~= all);
    out
}

/// A round starts with RMC, and its fix is valid exactly if the latitude is known.
pub proof fn rmc_comes_first(snap: Snapshot, date: CalendarDate, time: ClockTime)
    ensures
        sentences_of(snap, date, time)[0] matches Outgoing::Rmc(d) && (d.status_of_fix
            == FixStatus::Autonomous <==> snap.latitude is Some),
{
}

/// Without values there is nothing but RMC; with all of them there are five sentences.
pub proof fn round_grows_with_values(snap: Snapshot, date: CalendarDate, time: ClockTime)
    ensures
        1 <= sentences_of(snap, date, time).len() <= 5,
        sentences_of(snap, date, time).len() == 1 <==> (snap.heading_true_rad is None
            && snap.wind_angle_apparent_rad is None && snap.wind_speed_apparent_mps is None
            && snap.depth_below_transducer_m is None && snap.cog_true_rad is None
            && snap.sog_mps is None),
        sentences_of(snap, date, time).len() == 5 <==> (snap.heading_true_rad is Some && (
        snap.wind_angle_apparent_rad is Some || snap.wind_speed_apparent_mps is Some)
            && snap.depth_below_transducer_m is Some && (snap.cog_true_rad is Some
            || snap.sog_mps is Some)),
{
}

/// The sentences of a round say what the snapshot holds: speeds in knots, angles in degrees, depths
/// in feet, metres and fathoms. The true heading, the apparent wind, the depth, and course and
/// speed follow RMC in this order, each if there is a value for it.
pub proof fn sentences_say_what_is_held(
    snap: Snapshot,
    date: CalendarDate,
    time: ClockTime,
    i: int,
)
    requires
        0 <= i < sentences_of(snap, date, time).len(),
    ensures
        ({
            let round = sentences_of(snap, date, time);
            let heading = snap.heading_true_rad is Some;
            let wind = snap.wind_angle_apparent_rad is Some || snap.wind_speed_apparent_mps is Some;
            let depth = snap.depth_below_transducer_m is Some;
            let before_wind = if heading {
                2int
            } else {
                1int
            };
            let before_depth = if wind {
                before_wind + 1
            } else {
                before_wind
            };
            let before_course = if depth {
                before_depth + 1
            } else {
                before_depth
            };
            match round[i] {
                Outgoing::Rmc(d) => i == 0 && d.fix_date == date && d.fix_time == time && d.lat
                    == snap.latitude && d.lon == snap.longitude && says(
                    d.speed_over_ground,
                    snap.sog_mps,
                    |v: Expr| v.times(lit(MPS_TO_KNOTS)).to_single(),
                ) && says(
                    d.true_course,
                    snap.cog_true_rad,
                    |v: Expr| v.to_degrees().to_single(),
                ) && says(
                    d.magnetic_variation,
                    snap.magnetic_variation_rad,
                    |v: Expr| v.to_degrees().to_single(),
                ),
                Outgoing::Hdt(d) => heading && i == 1 && says(
                    d.heading,
                    snap.heading_true_rad,
                    |v: Expr| v.to_degrees().to_single(),
                ),
                Outgoing::Mwv(d) => wind && i == before_wind && says(
                    d.wind_direction,
                    snap.wind_angle_apparent_rad,
                    |v: Expr| v.to_degrees().to_single(),
                ) && says(
                    d.wind_speed,
                    snap.wind_speed_apparent_mps,
                    |v: Expr| v.times(lit(MPS_TO_KNOTS)).to_single(),
                ) && (d.data_valid <==> snap.wind_angle_apparent_rad is Some),
                Outgoing::Dbt(d) => depth && i == before_depth && d.depth_meters
                    == snap.depth_below_transducer_m && says(
                    d.depth_feet,
                    snap.depth_below_transducer_m,
                    |v: Expr| v.times(lit(FEET_PER_METER)),
                ) && says(
                    d.depth_fathoms,
                    snap.depth_below_transducer_m,
                    |v: Expr| v.times(lit(FATHOMS_PER_METER)),
                ),
                Outgoing::Vtg(d) => (snap.cog_true_rad is Some || snap.sog_mps is Some) && i
                    == before_course && says(
                    d.true_course,
                    snap.cog_true_rad,
                    |v: Expr| v.to_degrees().to_single(),
                ) && says(
                    d.speed_over_ground,
                    snap.sog_mps,
                    |v: Expr| v.times(lit(MPS_TO_KNOTS)).to_single(),
                ),
            }
        }),
{
}

/// A member says a reading after a conversion, and nothing where there is no reading.
pub open spec fn says(
    member: Option<Expr>,
    reading: Option<Real>,
    converted: spec_fn(Expr) -> Expr,
) -> bool {
    match reading {
        Some(v) => member == Some(converted(Expr::Lit(v))),
        None => member is None,
    }
}

/// What is sent is what could be written, line by line: more sentences only add lines, one that
/// could be written adds itself and a line end, and one that could not adds nothing.
pub proof fn written_sentences_become_lines(
    first: Seq<Option<Seq<char>>>,
    second: Seq<Option<Seq<char>>>,
    one: Seq<char>,
)
    ensures
        lines_of(first + second) == lines_of(first) + lines_of(second),
        lines_of(seq![Some(one)]) == seq![one + "\r\n"@],
        lines_of(seq![None::<Seq<char>>]) == Seq::<Seq<char>>::empty(),
    decreases second.len(),
{
    assert(seq![Some(one)].drop_last() =~= Seq::<Option<Seq<char>>>::empty());
    assert(lines_of(seq![Some(one)].drop_last()) =~= Seq::<Seq<char>>::empty());
    assert(lines_of(seq![Some(one)]) =~= seq![one + "\r\n"@]);
    let none = seq![None::<Seq<char>>];
    assert(none.drop_last() =~= Seq::<Option<Seq<char>>>::empty());
    assert(lines_of(none) =~= Seq::<Seq<char>>::empty());
    if second.len() == 0 {
        assert(first + second =~= first);
        assert(lines_of(first) + lines_of(second) =~= lines_of(first));
    } else {
        written_sentences_become_lines(first, second.drop_last(), one);
        assert((first + second).drop_last() =~= first + second.drop_last());
        assert((first + second).last() == second.last());
        assert(lines_of(first + second) =~= lines_of(first) + lines_of(second));
    }
}

} // verus!
