//! Modes, runtime state and configuration of the autopilot.
//!
//! Moments are nanoseconds of a monotonic clock.
use crate::autopilot::pd::PidConfig;
use crate::incoming::{Incoming, IncomingUpdateView, Reading, ReadingView};
use crate::json::number_in;
use crate::number::Real;
use crate::text::{equal, join};
use vstd::prelude::*;

verus! {

// ---------------------------------------------------------------------------
// Modes
// ---------------------------------------------------------------------------

/// What the autopilot steers by.
#[derive(Debug, Clone, Copy, PartialEq, Eq, Structural)]
pub enum AutopilotMode {
    /// Holds a heading.
    Compass,
    /// Holds an apparent wind angle.
    Wind,
    /// Holds a true wind angle.
    WindTrue,
    /// Follows a route.
    Route,
}

impl AutopilotMode {
    /// The name of the mode.
    pub open spec fn name(self) -> Seq<char> {
        match self {
            AutopilotMode::Compass => "compass"@,
            AutopilotMode::Wind => "wind"@,
            AutopilotMode::WindTrue => "wind_true"@,
            AutopilotMode::Route => "route"@,
        }
    }

    /// The name of the mode.
    pub fn as_str(&self) -> (r: &'static str)
        ensures
            r@ == self.name(),
    {
        match self {
            AutopilotMode::Compass => "compass",
            AutopilotMode::Wind => "wind",
            AutopilotMode::WindTrue => "wind_true",
            AutopilotMode::Route => "route",
        }
    }

    /// The path that the mode reads as its primary sensor.
    pub open spec fn sensor(self) -> Seq<char> {
        match self {
            AutopilotMode::Compass => "navigation.headingMagnetic"@,
            AutopilotMode::Wind => "environment.wind.angleApparent"@,
            AutopilotMode::WindTrue => "environment.wind.angleTrue"@,
            AutopilotMode::Route => "navigation.course.calcValues.bearingTrackTrue"@,
        }
    }

    /// The path that the mode reads as its primary sensor.
    pub fn sensor_path(&self) -> (r: &'static str)
        ensures
            r@ == self.sensor(),
    {
        match self {
            AutopilotMode::Compass => "navigation.headingMagnetic",
            AutopilotMode::Wind => "environment.wind.angleApparent",
            AutopilotMode::WindTrue => "environment.wind.angleTrue",
            AutopilotMode::Route => "navigation.course.calcValues.bearingTrackTrue",
        }
    }

    /// The path that the mode reports its target under.
    pub open spec fn target(self) -> Seq<char> {
        match self {
            AutopilotMode::Compass => "steering.autopilot.target.headingMagnetic"@,
            AutopilotMode::Wind => "steering.autopilot.target.windAngleApparent"@,
            AutopilotMode::WindTrue => "steering.autopilot.target.windAngleTrue"@,
            AutopilotMode::Route => "steering.autopilot.target.headingTrue"@,
        }
    }

    /// The path that the mode reports its target under.
    pub fn target_path(&self) -> (r: &'static str)
        ensures
            r@ == self.target(),
    {
        match self {
            AutopilotMode::Compass => "steering.autopilot.target.headingMagnetic",
            AutopilotMode::Wind => "steering.autopilot.target.windAngleApparent",
            AutopilotMode::WindTrue => "steering.autopilot.target.windAngleTrue",
            AutopilotMode::Route => "steering.autopilot.target.headingTrue",
        }
    }

    /// The mode holds a wind angle.
    #[verifier::allow_in_spec]
    pub fn is_wind(self) -> (r: bool)
        returns
            (match self {
                AutopilotMode::Wind | AutopilotMode::WindTrue => true,
                _ => false,
            }),
    {
        match self {
            AutopilotMode::Wind | AutopilotMode::WindTrue => true,
            _ => false,
        }
    }

    /// The mode with the given name.
    pub open spec fn named(name: Seq<char>) -> Option<AutopilotMode> {
        if name == "compass"@ {
            Some(AutopilotMode::Compass)
        } else if name == "wind"@ {
            Some(AutopilotMode::Wind)
        } else if name == "wind_true"@ {
            Some(AutopilotMode::WindTrue)
        } else if name == "route"@ {
            Some(AutopilotMode::Route)
        } else {
            None
        }
    }

    /// The mode with the given name, or a message that there is none.
    pub fn from_str(s: &str) -> (r: Result<AutopilotMode, String>)
        ensures
            match AutopilotMode::named(s@) {
                Some(m) => r == Ok::<AutopilotMode, String>(m),
                None => r is Err && r->Err_0@ == "unknown autopilot mode: "@ + s@,
            },
    {
        if equal(s, "compass") {
            Ok(AutopilotMode::Compass)
        } else if equal(s, "wind") {
            Ok(AutopilotMode::Wind)
        } else if equal(s, "wind_true") {
            Ok(AutopilotMode::WindTrue)
        } else if equal(s, "route") {
            Ok(AutopilotMode::Route)
        } else {
            Err(join("unknown autopilot mode: ", s))
        }
    }
}

/// Every mode is found again by its name.
pub proof fn mode_names_are_read_back(mode: AutopilotMode)
    ensures
        AutopilotMode::named(mode.name()) == Some(mode),
{
    reveal_strlit("compass");
    reveal_strlit("wind");
    reveal_strlit("wind_true");
    reveal_strlit("route");
    assert("compass"@.len() == 7);
    assert("wind"@.len() == 4);
    assert("wind_true"@.len() == 9);
    assert("route"@.len() == 5);
}

// ---------------------------------------------------------------------------
// Sensors
// ---------------------------------------------------------------------------

/// The last value of a sensor.
#[derive(Debug)]
pub struct SensorReading {
    pub path: String,
    pub value: Real,
    pub last_seen: u64,
}

/// A sensor value and when it was received.
pub struct Sample {
    pub value: Real,
    pub last_seen: u64,
}

/// The last sample of every sensor.
pub open spec fn samples(list: Seq<SensorReading>) -> Map<Seq<char>, Sample>
    decreases list.len(),
{
    if list.len() == 0 {
        Map::empty()
    } else {
        samples(list.drop_last()).insert(
            list.last().path@,
            Sample { value: list.last().value, last_seen: list.last().last_seen },
        )
    }
}

/// Where the last entry of a path stands, its sample is the one that counts.
proof fn last_entry_counts(list: Seq<SensorReading>, i: int)
    requires
        0 <= i < list.len(),
        forall|k: int| i < k < list.len() ==> (#[trigger] list[k]).path@ != list[i].path@,
    ensures
        samples(list).contains_key(list[i].path@),
        samples(list)[list[i].path@] == (Sample {
            value: list[i].value,
            last_seen: list[i].last_seen,
        }),
    decreases list.len(),
{
    if i < list.len() - 1 {
        let rest = list.drop_last();
        assert(rest[i] == list[i]);
        assert(list[list.len() - 1].path@ != list[i].path@);
        assert forall|k: int| i < k < rest.len() implies (#[trigger] rest[k]).path@
            != rest[i].path@ by {
            assert(rest[k] == list[k]);
        }
        last_entry_counts(rest, i);
    }
}

/// A path without an entry has no sample.
proof fn no_entry_no_sample(list: Seq<SensorReading>, path: Seq<char>)
    requires
        forall|k: int| 0 <= k < list.len() ==> (#[trigger] list[k]).path@ != path,
    ensures
        !samples(list).contains_key(path),
    decreases list.len(),
{
    if list.len() > 0 {
        let rest = list.drop_last();
        assert(list[list.len() - 1].path@ != path);
        assert forall|k: int| 0 <= k < rest.len() implies (#[trigger] rest[k]).path@ != path by {
            assert(rest[k] == list[k]);
        }
        no_entry_no_sample(rest, path);
    }
}

/// Replacing the last entry of a path replaces its sample.
proof fn replaced_entry(list: Seq<SensorReading>, i: int, entry: SensorReading)
    requires
        0 <= i < list.len(),
        entry.path@ == list[i].path@,
        forall|k: int| i < k < list.len() ==> (#[trigger] list[k]).path@ != list[i].path@,
    ensures
        samples(list.update(i, entry)) == samples(list).insert(
            entry.path@,
            Sample { value: entry.value, last_seen: entry.last_seen },
        ),
    decreases list.len(),
{
    let next = list.update(i, entry);
    if i == list.len() - 1 {
        assert(next.drop_last() =~= list.drop_last());
        assert(samples(next) =~= samples(list).insert(
            entry.path@,
            Sample { value: entry.value, last_seen: entry.last_seen },
        ));
    } else {
        let rest = list.drop_last();
        assert(rest[i] == list[i]);
        assert(list[list.len() - 1].path@ != list[i].path@);
        assert forall|k: int| i < k < rest.len() implies (#[trigger] rest[k]).path@
            != rest[i].path@ by {
            assert(rest[k] == list[k]);
        }
        replaced_entry(rest, i, entry);
        assert(next.drop_last() =~= rest.update(i, entry));
        assert(next.last() == list.last());
        assert(samples(next) =~= samples(list).insert(
            entry.path@,
            Sample { value: entry.value, last_seen: entry.last_seen },
        ));
    }
}

// ---------------------------------------------------------------------------
// Runtime state
// ---------------------------------------------------------------------------

/// Runtime state of the autopilot.
#[derive(Debug)]
pub struct AutopilotState {
    /// The autopilot is steering.
    pub enabled: bool,
    pub mode: AutopilotMode,
    /// Target angle, if one is set.
    pub target_rad: Option<Real>,
    /// Temporary offset from the target.
    pub dodge_offset_rad: Option<Real>,
    /// Last commanded rudder angle.
    pub last_rudder_rad: Real,
    /// Error of the last tick.
    pub last_error_rad: Real,
    /// When the last tick was.
    pub last_tick_at: Option<u64>,
    /// Last values of the sensors.
    pub sensors: Vec<SensorReading>,
    /// Rudder angle that a sensor measured.
    pub actual_rudder_rad: Option<Real>,
    pub actual_rudder_last_seen: Option<u64>,
}

/// The view of an [`AutopilotState`].
pub struct StateView {
    pub enabled: bool,
    pub mode: AutopilotMode,
    pub target_rad: Option<Real>,
    pub dodge_offset_rad: Option<Real>,
    pub last_rudder_rad: Real,
    pub last_error_rad: Real,
    pub last_tick_at: Option<u64>,
    pub sensors: Map<Seq<char>, Sample>,
    pub actual_rudder_rad: Option<Real>,
    pub actual_rudder_last_seen: Option<u64>,
}

/// Nanoseconds from one moment to a later one, zero if it is not later.
#[verifier::allow_in_spec]
pub fn since(then: u64, now: u64) -> (r: u64)
    returns
        (if now >= then {
            (now - then) as u64
        } else {
            0u64
        }),
{
    if now >= then {
        now - then
    } else {
        0
    }
}

impl StateView {
    /// The value of a sensor.
    pub open spec fn value_of(self, path: Seq<char>) -> Option<Real> {
        if self.sensors.contains_key(path) {
            Some(self.sensors[path].value)
        } else {
            None
        }
    }

    /// When a sensor was last heard.
    pub open spec fn heard(self, path: Seq<char>) -> Option<u64> {
        if self.sensors.contains_key(path) {
            Some(self.sensors[path].last_seen)
        } else {
            None
        }
    }

    /// The active mode's sensor has been silent for more than the given number of whole
    /// seconds, or was never heard.
    pub open spec fn timed_out(self, timeout_secs: u64, now: u64) -> bool {
        match self.heard(self.mode.sensor()) {
            Some(then) => since(then, now) as int / 1_000_000_000 > timeout_secs,
            None => true,
        }
    }

    /// The state after one received value. Rudder angles that the autopilot itself sent
    /// are not feedback.
    pub open spec fn with_reading(
        self,
        own: bool,
        reading: ReadingView,
        now: u64,
    ) -> StateView {
        match number_in(reading.value) {
            None => self,
            Some(v) => if reading.path == "steering.rudderAngle"@ {
                if own {
                    self
                } else {
                    StateView {
                        actual_rudder_rad: Some(v),
                        actual_rudder_last_seen: Some(now),
                        ..self
                    }
                }
            } else {
                StateView {
                    sensors: self.sensors.insert(
                        reading.path,
                        Sample { value: v, last_seen: now },
                    ),
                    ..self
                }
            },
        }
    }

    /// The state after some received values, in order.
    pub open spec fn with_readings(
        self,
        own: bool,
        values: Seq<ReadingView>,
        now: u64,
    ) -> StateView
        decreases values.len(),
    {
        if values.len() == 0 {
            self
        } else {
            self.with_readings(own, values.drop_last(), now).with_reading(
                own,
                values.last(),
                now,
            )
        }
    }

    /// The state after some received updates, in order.
    pub open spec fn with_updates(
        self,
        updates: Seq<IncomingUpdateView>,
        now: u64,
    ) -> StateView
        decreases updates.len(),
    {
        if updates.len() == 0 {
            self
        } else {
            self.with_updates(updates.drop_last(), now).with_readings(
                own_update(updates.last()),
                updates.last().values,
                now,
            )
        }
    }
}

/// An update that the autopilot itself sent.
pub open spec fn own_update(u: IncomingUpdateView) -> bool {
    u.source.kind.kind_name() == "Plugin"@ && u.source.label == "autopilot"@
}

impl AutopilotState {
    pub open spec fn view(&self) -> StateView {
        StateView {
            enabled: self.enabled,
            mode: self.mode,
            target_rad: self.target_rad,
            dodge_offset_rad: self.dodge_offset_rad,
            last_rudder_rad: self.last_rudder_rad,
            last_error_rad: self.last_error_rad,
            last_tick_at: self.last_tick_at,
            sensors: samples(self.sensors@),
            actual_rudder_rad: self.actual_rudder_rad,
            actual_rudder_last_seen: self.actual_rudder_last_seen,
        }
    }

    /// A state in standby.
    pub fn new(mode: AutopilotMode) -> (r: Self)
        ensures
            r@ == (StateView {
                enabled: false,
                mode,
                target_rad: None,
                dodge_offset_rad: None,
                last_rudder_rad: Real { bits: 0 },
                last_error_rad: Real { bits: 0 },
                last_tick_at: None,
                sensors: Map::empty(),
                actual_rudder_rad: None,
                actual_rudder_last_seen: None,
            }),
    {
        AutopilotState {
            enabled: false,
            mode,
            target_rad: None,
            dodge_offset_rad: None,
            last_rudder_rad: Real { bits: 0 },
            last_error_rad: Real { bits: 0 },
            last_tick_at: None,
            sensors: Vec::new(),
            actual_rudder_rad: None,
            actual_rudder_last_seen: None,
        }
    }

    /// Where the last entry of a path stands.
    fn entry_of(&self, path: &str) -> (r: Option<usize>)
        ensures
            match r {
                Some(i) => i < self.sensors@.len() && self.sensors@[i as int].path@ == path@ && (
                forall|k: int|
                    i < k < self.sensors@.len() ==> (#[trigger] self.sensors@[k]).path@ != path@),
                None => forall|k: int|
                    0 <= k < self.sensors@.len() ==> (#[trigger] self.sensors@[k]).path@ != path@,
            },
    {
        let mut i: usize = self.sensors.len();
        while i > 0
            invariant
                i <= self.sensors@.len(),
                forall|k: int|
                    i <= k < self.sensors@.len() ==> (#[trigger] self.sensors@[k]).path@ != path@,
            decreases i,
        {
            i -= 1;
            if equal(self.sensors[i].path.as_str(), path) {
                return Some(i);
            }
        }
        None
    }

    /// Stores a sensor value that is received now.
    pub fn update_sensor(&mut self, path: &str, value: Real, now: u64)
        ensures
            final(self)@ == (StateView {
                sensors: old(self)@.sensors.insert(path@, Sample { value, last_seen: now }),
                ..old(self)@
            }),
    {
        let ghost before = self.sensors@;
        let entry = SensorReading { path: path.to_string(), value, last_seen: now };
        match self.entry_of(path) {
            Some(i) => {
                proof {
                    replaced_entry(before, i as int, entry);
                }
                self.sensors.set(i, entry);
            },
            None => {
                self.sensors.push(entry);
                assert(self.sensors@.drop_last() =~= before);
            },
        }
    }

    /// The last value of a sensor.
    pub fn sensor(&self, path: &str) -> (r: Option<Real>)
        ensures
            r == self@.value_of(path@),
    {
        match self.entry_of(path) {
            Some(i) => {
                proof {
                    last_entry_counts(self.sensors@, i as int);
                }
                Some(self.sensors[i].value)
            },
            None => {
                proof {
                    no_entry_no_sample(self.sensors@, path@);
                }
                None
            },
        }
    }

    /// When a sensor was last heard.
    pub fn last_heard(&self, path: &str) -> (r: Option<u64>)
        ensures
            r == self@.heard(path@),
    {
        match self.entry_of(path) {
            Some(i) => {
                proof {
                    last_entry_counts(self.sensors@, i as int);
                }
                Some(self.sensors[i].last_seen)
            },
            None => {
                proof {
                    no_entry_no_sample(self.sensors@, path@);
                }
                None
            },
        }
    }

    /// The value of the active mode's sensor.
    pub fn current_sensor(&self) -> (r: Option<Real>)
        ensures
            r == self@.value_of(self.mode.sensor()),
    {
        self.sensor(self.mode.sensor_path())
    }

    /// The active mode's sensor has been silent for too long.
    pub fn sensor_timed_out(&self, timeout_secs: u64, now: u64) -> (r: bool)
        ensures
            r == self@.timed_out(timeout_secs, now),
    {
        match self.last_heard(self.mode.sensor_path()) {
            Some(then) => since(then, now) / 1_000_000_000 > timeout_secs,
            None => true,
        }
    }

    fn take_reading(&mut self, own: bool, reading: &Reading, now: u64)
        ensures
            final(self)@ == old(self)@.with_reading(own, reading@, now),
    {
        if let Some(v) = reading.value.as_real() {
            if equal(reading.path.as_str(), "steering.rudderAngle") {
                if !own {
                    self.actual_rudder_rad = Some(v);
                    self.actual_rudder_last_seen = Some(now);
                }
            } else {
                self.update_sensor(reading.path.as_str(), v, now);
            }
        }
    }

    /// Takes in a received delta. Values that are not numbers are passed over, and so
    /// are rudder angles that the autopilot itself sent.
    pub fn handle_delta(&mut self, delta: &Incoming, now: u64)
        ensures
            final(self)@ == old(self)@.with_updates(
                crate::incoming::update_views(delta.updates@),
                now,
            ),
    {
        let ghost updates = crate::incoming::update_views(delta.updates@);
        let ghost start = self@;
        let mut i: usize = 0;
        assert(updates.take(0) =~= Seq::empty());
        while i < delta.updates.len()
            invariant
                i <= delta.updates@.len(),
                updates == crate::incoming::update_views(delta.updates@),
                self@ == start.with_updates(updates.take(i as int), now),
            decreases delta.updates@.len() - i,
        {
            let update = &delta.updates[i];
            let ghost here = self@;
            let own = equal(update.source.type_(), "Plugin") && equal(
                update.source.label.as_str(),
                "autopilot",
            );
            let ghost values = crate::incoming::readings(update.values@);
            let mut j: usize = 0;
            assert(values.take(0) =~= Seq::empty());
            while j < update.values.len()
                invariant
                    j <= update.values@.len(),
                    values == crate::incoming::readings(update.values@),
                    self@ == here.with_readings(own, values.take(j as int), now),
                decreases update.values@.len() - j,
            {
                proof {
                    let next = values.take(j + 1);
                    assert(next.drop_last() =~= values.take(j as int));
                    assert(next.last() == update.values@[j as int]@);
                }
                self.take_reading(own, &update.values[j], now);
                j += 1;
            }
            proof {
                assert(values.take(j as int) =~= values);
                let next = updates.take(i + 1);
                assert(next.drop_last() =~= updates.take(i as int));
                assert(next.last() == update@);
            }
            i += 1;
        }
        assert(updates.take(i as int) =~= updates);
    }
}

/// The autopilot's own rudder commands never count as rudder feedback.
pub proof fn own_commands_are_no_feedback(
    state: StateView,
    values: Seq<ReadingView>,
    now: u64,
)
    ensures
        state.with_readings(true, values, now).actual_rudder_rad == state.actual_rudder_rad,
        state.with_readings(true, values, now).actual_rudder_last_seen
            == state.actual_rudder_last_seen,
    decreases values.len(),
{
    if values.len() > 0 {
        own_commands_are_no_feedback(state, values.drop_last(), now);
    }
}

/// Received values change nothing but sensor values and rudder feedback.
pub proof fn readings_leave_control_alone(
    state: StateView,
    own: bool,
    values: Seq<ReadingView>,
    now: u64,
)
    ensures
        ({
            let next = state.with_readings(own, values, now);
            next == StateView {
                sensors: next.sensors,
                actual_rudder_rad: next.actual_rudder_rad,
                actual_rudder_last_seen: next.actual_rudder_last_seen,
                ..state
            }
        }),
    decreases values.len(),
{
    if values.len() > 0 {
        readings_leave_control_alone(state, own, values.drop_last(), now);
    }
}

// ---------------------------------------------------------------------------
// Configuration
// ---------------------------------------------------------------------------

/// The default device identifier.
pub fn default_device_id() -> (r: String)
    ensures
        r@ == "default"@,
{
    "default".to_string()
}

/// The default mode.
pub fn default_mode() -> (r: String)
    ensures
        r@ == "compass"@,
{
    "compass".to_string()
}

/// 1.
#[verifier::allow_in_spec]
pub fn default_gain_p() -> (r: Real)
    returns
        (Real { bits: 0x3FF0_0000_0000_0000 }),
{
    Real { bits: 0x3FF0_0000_0000_0000 }
}

/// 0.05.
#[verifier::allow_in_spec]
pub fn default_gain_i() -> (r: Real)
    returns
        (Real { bits: 0x3FA9_9999_9999_999A }),
{
    Real { bits: 0x3FA9_9999_9999_999A }
}

/// 0.3.
#[verifier::allow_in_spec]
pub fn default_gain_d() -> (r: Real)
    returns
        (Real { bits: 0x3FD3_3333_3333_3333 }),
{
    Real { bits: 0x3FD3_3333_3333_3333 }
}

/// 0.5.
#[verifier::allow_in_spec]
pub fn default_integral_limit() -> (r: Real)
    returns
        (Real { bits: 0x3FE0_0000_0000_0000 }),
{
    Real { bits: 0x3FE0_0000_0000_0000 }
}

/// 0.01745, about a degree.
#[verifier::allow_in_spec]
pub fn default_dead_zone_rad() -> (r: Real)
    returns
        (Real { bits: 0x3F91_DE69_AD42_C3CA }),
{
    Real { bits: 0x3F91_DE69_AD42_C3CA }
}

/// pi / 6.
#[verifier::allow_in_spec]
pub fn default_max_rudder_rad() -> (r: Real)
    returns
        (Real { bits: 0x3FE0_C152_382D_7366 }),
{
    Real { bits: 0x3FE0_C152_382D_7366 }
}

/// 2.5.
#[verifier::allow_in_spec]
pub fn default_speed_nominal_mps() -> (r: Real)
    returns
        (Real { bits: 0x4004_0000_0000_0000 }),
{
    Real { bits: 0x4004_0000_0000_0000 }
}

/// -0.5.
#[verifier::allow_in_spec]
pub fn default_heel_gain() -> (r: Real)
    returns
        (Real { bits: 0xBFE0_0000_0000_0000 }),
{
    Real { bits: 0xBFE0_0000_0000_0000 }
}

/// 0.09.
#[verifier::allow_in_spec]
pub fn default_max_rudder_rate() -> (r: Real)
    returns
        (Real { bits: 0x3FB7_0A3D_70A3_D70A }),
{
    Real { bits: 0x3FB7_0A3D_70A3_D70A }
}

/// 10.
#[verifier::allow_in_spec]
pub fn default_control_rate_hz() -> (r: Real)
    returns
        (Real { bits: 0x4024_0000_0000_0000 }),
{
    Real { bits: 0x4024_0000_0000_0000 }
}

/// 1.
#[verifier::allow_in_spec]
pub fn default_output_rate_hz() -> (r: Real)
    returns
        (Real { bits: 0x3FF0_0000_0000_0000 }),
{
    Real { bits: 0x3FF0_0000_0000_0000 }
}

#[verifier::allow_in_spec]
pub fn default_sensor_timeout_secs() -> (r: u64)
    returns
        10u64,
{
    10
}

/// 0.35.
#[verifier::allow_in_spec]
pub fn default_recovery_threshold_rad() -> (r: Real)
    returns
        (Real { bits: 0x3FD6_6666_6666_6666 }),
{
    Real { bits: 0x3FD6_6666_6666_6666 }
}

#[verifier::allow_in_spec]
pub fn default_recovery_max_ticks() -> (r: u32)
    returns
        15u32,
{
    15
}

/// 2.
#[verifier::allow_in_spec]
pub fn default_recovery_gain_factor() -> (r: Real)
    returns
        (Real { bits: 0x4000_0000_0000_0000 }),
{
    Real { bits: 0x4000_0000_0000_0000 }
}

/// -0.02.
#[verifier::allow_in_spec]
pub fn default_gust_gain() -> (r: Real)
    returns
        (Real { bits: 0xBF94_7AE1_47AE_147B }),
{
    Real { bits: 0xBF94_7AE1_47AE_147B }
}

/// 3.
#[verifier::allow_in_spec]
pub fn default_gust_threshold() -> (r: Real)
    returns
        (Real { bits: 0x4008_0000_0000_0000 }),
{
    Real { bits: 0x4008_0000_0000_0000 }
}

/// 0.01.
#[verifier::allow_in_spec]
pub fn default_xte_gain() -> (r: Real)
    returns
        (Real { bits: 0x3F84_7AE1_47AE_147B }),
{
    Real { bits: 0x3F84_7AE1_47AE_147B }
}

/// 100.
#[verifier::allow_in_spec]
pub fn default_route_lookahead_m() -> (r: Real)
    returns
        (Real { bits: 0x4059_0000_0000_0000 }),
{
    Real { bits: 0x4059_0000_0000_0000 }
}

/// 0.15.
#[verifier::allow_in_spec]
pub fn default_wind_filter_alpha() -> (r: Real)
    returns
        (Real { bits: 0x3FC3_3333_3333_3333 }),
{
    Real { bits: 0x3FC3_3333_3333_3333 }
}

/// 0.087.
#[verifier::allow_in_spec]
pub fn default_rudder_feedback_threshold_rad() -> (r: Real)
    returns
        (Real { bits: 0x3FB6_45A1_CAC0_8312 }),
{
    Real { bits: 0x3FB6_45A1_CAC0_8312 }
}

#[verifier::allow_in_spec]
pub fn default_rudder_feedback_timeout_ticks() -> (r: u32)
    returns
        30u32,
{
    30
}

/// 1.5.
#[verifier::allow_in_spec]
pub fn default_max_heading_rate_rad_per_sec() -> (r: Real)
    returns
        (Real { bits: 0x3FF8_0000_0000_0000 }),
{
    Real { bits: 0x3FF8_0000_0000_0000 }
}

/// 0.8.
#[verifier::allow_in_spec]
pub fn default_max_yaw_rate_rad_per_sec() -> (r: Real)
    returns
        (Real { bits: 0x3FE9_9999_9999_999A }),
{
    Real { bits: 0x3FE9_9999_9999_999A }
}

#[verifier::allow_in_spec]
pub fn default_heading_glitch_max_count() -> (r: u32)
    returns
        3u32,
{
    3
}

/// 0.5.
#[verifier::allow_in_spec]
pub fn default_dterm_quality_half_life_secs() -> (r: Real)
    returns
        (Real { bits: 0x3FE0_0000_0000_0000 }),
{
    Real { bits: 0x3FE0_0000_0000_0000 }
}

/// Configuration of the autopilot. Angles are in radians, speeds in metres per
/// second.
#[derive(Debug)]
pub struct AutopilotConfig {
    /// Name of the autopilot towards its users.
    pub device_id: String,
    /// Mode to start in.
    pub initial_mode: String,
    /// Proportional gain.
    pub gain_p: Real,
    /// Integral gain.
    pub gain_i: Real,
    /// Derivative gain.
    pub gain_d: Real,
    /// Largest integral.
    pub integral_limit: Real,
    /// Errors smaller than this are not corrected.
    pub dead_zone_rad: Real,
    /// Largest rudder angle.
    pub max_rudder_rad: Real,
    /// Speed at which the gains are right as they are; 0 disables scaling.
    pub speed_nominal_mps: Real,
    /// Rudder per heel angle; negative counters weather helm.
    pub heel_gain: Real,
    /// Largest rudder rate; 0 does not limit.
    pub max_rudder_rate_rad_per_sec: Real,
    /// Control ticks per second.
    pub control_rate_hz: Real,
    /// Reports per second.
    pub output_rate_hz: Real,
    /// Seconds without the mode's sensor until the autopilot disengages.
    pub sensor_timeout_secs: u64,
    /// Error above which recovery begins; 0 disables it.
    pub recovery_threshold_rad: Real,
    /// Longest recovery, in ticks.
    pub recovery_max_ticks: u32,
    /// Factor of the P and D gains during recovery.
    pub recovery_gain_factor: Real,
    /// Rudder per rate of change of the wind speed.
    pub gust_gain: Real,
    /// Rates of change of the wind speed up to this are no gust.
    pub gust_threshold_mps_per_sec: Real,
    /// Heading correction per metre of cross-track error.
    pub xte_gain: Real,
    /// Distance ahead on the track that route mode steers for.
    pub route_lookahead_m: Real,
    /// Smoothing factor of the wind angle.
    pub wind_filter_alpha: Real,
    /// Rudder mismatches up to this are tolerated; 0 disables the monitor.
    pub rudder_feedback_threshold_rad: Real,
    /// Mismatches in a row until the alarm fires.
    pub rudder_feedback_timeout_ticks: u32,
    /// Heading changes faster than this are glitches.
    pub max_heading_rate_rad_per_sec: Real,
    /// Yaw rates above this are discarded.
    pub max_yaw_rate_rad_per_sec: Real,
    /// Glitches in a row until the autopilot disengages.
    pub heading_glitch_max_count: u32,
    /// Half-life of the D gain with the age of the heading; 0 disables it.
    pub dterm_quality_half_life_secs: Real,
}

impl Default for AutopilotConfig {
    fn default() -> (r: Self)
        ensures
            r.device_id@ == "default"@,
            r.initial_mode@ == "compass"@,
            r.gain_p == default_gain_p(),
            r.gain_i == default_gain_i(),
            r.gain_d == default_gain_d(),
            r.integral_limit == default_integral_limit(),
            r.dead_zone_rad == default_dead_zone_rad(),
            r.max_rudder_rad == default_max_rudder_rad(),
            r.speed_nominal_mps == default_speed_nominal_mps(),
            r.heel_gain == default_heel_gain(),
            r.max_rudder_rate_rad_per_sec == default_max_rudder_rate(),
            r.control_rate_hz == default_control_rate_hz(),
            r.output_rate_hz == default_output_rate_hz(),
            r.sensor_timeout_secs == default_sensor_timeout_secs(),
            r.recovery_threshold_rad == default_recovery_threshold_rad(),
            r.recovery_max_ticks == default_recovery_max_ticks(),
            r.recovery_gain_factor == default_recovery_gain_factor(),
            r.gust_gain == default_gust_gain(),
            r.gust_threshold_mps_per_sec == default_gust_threshold(),
            r.xte_gain == default_xte_gain(),
            r.route_lookahead_m == default_route_lookahead_m(),
            r.wind_filter_alpha == default_wind_filter_alpha(),
            r.rudder_feedback_threshold_rad == default_rudder_feedback_threshold_rad(),
            r.rudder_feedback_timeout_ticks == default_rudder_feedback_timeout_ticks(),
            r.max_heading_rate_rad_per_sec == default_max_heading_rate_rad_per_sec(),
            r.max_yaw_rate_rad_per_sec == default_max_yaw_rate_rad_per_sec(),
            r.heading_glitch_max_count == default_heading_glitch_max_count(),
            r.dterm_quality_half_life_secs == default_dterm_quality_half_life_secs(),
    {
        AutopilotConfig {
            device_id: default_device_id(),
            initial_mode: default_mode(),
            gain_p: default_gain_p(),
            gain_i: default_gain_i(),
            gain_d: default_gain_d(),
            integral_limit: default_integral_limit(),
            dead_zone_rad: default_dead_zone_rad(),
            max_rudder_rad: default_max_rudder_rad(),
            speed_nominal_mps: default_speed_nominal_mps(),
            heel_gain: default_heel_gain(),
            max_rudder_rate_rad_per_sec: default_max_rudder_rate(),
            control_rate_hz: default_control_rate_hz(),
            output_rate_hz: default_output_rate_hz(),
            sensor_timeout_secs: default_sensor_timeout_secs(),
            recovery_threshold_rad: default_recovery_threshold_rad(),
            recovery_max_ticks: default_recovery_max_ticks(),
            recovery_gain_factor: default_recovery_gain_factor(),
            gust_gain: default_gust_gain(),
            gust_threshold_mps_per_sec: default_gust_threshold(),
            xte_gain: default_xte_gain(),
            route_lookahead_m: default_route_lookahead_m(),
            wind_filter_alpha: default_wind_filter_alpha(),
            rudder_feedback_threshold_rad: default_rudder_feedback_threshold_rad(),
            rudder_feedback_timeout_ticks: default_rudder_feedback_timeout_ticks(),
            max_heading_rate_rad_per_sec: default_max_heading_rate_rad_per_sec(),
            max_yaw_rate_rad_per_sec: default_max_yaw_rate_rad_per_sec(),
            heading_glitch_max_count: default_heading_glitch_max_count(),
            dterm_quality_half_life_secs: default_dterm_quality_half_life_secs(),
        }
    }
}

impl AutopilotConfig {
    /// The controller's tuning.
    pub open spec fn tuning(self) -> PidConfig {
        PidConfig {
            gain_p: self.gain_p,
            gain_i: self.gain_i,
            gain_d: self.gain_d,
            dead_zone_rad: self.dead_zone_rad,
            max_rudder_rad: self.max_rudder_rad,
        }
    }

    /// The controller's tuning.
    pub fn pid_config(&self) -> (r: PidConfig)
        ensures
            r == self.tuning(),
    {
        PidConfig {
            gain_p: self.gain_p,
            gain_i: self.gain_i,
            gain_d: self.gain_d,
            dead_zone_rad: self.dead_zone_rad,
            max_rudder_rad: self.max_rudder_rad,
        }
    }

    /// The mode to start in: the configured one, or compass where there is none of
    /// that name.
    pub fn start_mode(&self) -> (r: AutopilotMode)
        ensures
            r == (match AutopilotMode::named(self.initial_mode@) {
                Some(m) => m,
                None => AutopilotMode::Compass,
            }),
    {
        match AutopilotMode::from_str(self.initial_mode.as_str()) {
            Ok(m) => m,
            Err(_) => AutopilotMode::Compass,
        }
    }
}

} // verus!
