//! Simulated sensor data, and the forms in which it is sent out.
pub mod direct;
pub mod laws;
pub mod nmea0183;
pub mod nmea2000;

use crate::number::Real;
use crate::text::join;
use vstd::prelude::*;
use vstd::string::*;

verus! {

/// Simulated engine values.
#[derive(Debug, Clone, Copy)]
pub struct PropulsionValues {
    pub revolutions_hz: Real,
    pub oil_temperature_k: Real,
    pub coolant_temperature_k: Real,
    pub fuel_rate_m3s: Real,
    pub battery_voltage: Real,
    pub battery_current: Real,
}

/// The values of one simulation step.
#[derive(Debug, Clone, Copy)]
pub struct SimulatedValues {
    pub latitude: Real,
    pub longitude: Real,
    pub sog_mps: Real,
    pub cog_rad: Real,
    pub heading_magnetic_rad: Real,
    pub magnetic_variation_rad: Real,
    pub stw_mps: Real,
    pub roll_rad: Real,
    pub pitch_rad: Real,
    pub wind_angle_apparent_rad: Real,
    pub wind_speed_apparent_mps: Real,
    pub depth_below_transducer_m: Real,
    pub surface_to_transducer_m: Real,
    pub water_temperature_k: Real,
    pub air_temperature_k: Real,
    pub pressure_pa: Real,
    pub humidity_ratio: Real,
    pub fuel_tank_level: Real,
    pub fuel_tank_capacity_m3: Real,
    pub fresh_water_level: Real,
    pub fresh_water_capacity_m3: Real,
    /// Present where an engine is simulated.
    pub propulsion: Option<PropulsionValues>,
}

/// 54.5.
pub const FIFTY_FOUR_AND_A_HALF: u64 = 0x404B_4000_0000_0000;

/// 10.
pub const TEN: u64 = 0x4024_0000_0000_0000;

/// 200.
pub const TWO_HUNDRED: u64 = 0x4069_0000_0000_0000;

/// 300.
pub const THREE_HUNDRED: u64 = 0x4072_C000_0000_0000;

/// 2.5.
pub const TWO_AND_A_HALF: u64 = 0x4004_0000_0000_0000;

/// The default time between two steps, in milliseconds.
#[verifier::allow_in_spec]
pub fn default_interval() -> (r: u64)
    returns
        1000u64,
{
    1000u64
}

/// The default centre latitude, in degrees.
#[verifier::allow_in_spec]
pub fn default_lat() -> (r: Real)
    returns
        (Real { bits: FIFTY_FOUR_AND_A_HALF }),
{
    Real { bits: FIFTY_FOUR_AND_A_HALF }
}

/// The default centre longitude, in degrees.
#[verifier::allow_in_spec]
pub fn default_lon() -> (r: Real)
    returns
        (Real { bits: TEN }),
{
    Real { bits: TEN }
}

/// The default radius of the orbit, in metres.
#[verifier::allow_in_spec]
pub fn default_orbit_radius() -> (r: Real)
    returns
        (Real { bits: TWO_HUNDRED }),
{
    Real { bits: TWO_HUNDRED }
}

/// The default time for one orbit, in seconds.
#[verifier::allow_in_spec]
pub fn default_orbit_period() -> (r: Real)
    returns
        (Real { bits: THREE_HUNDRED }),
{
    Real { bits: THREE_HUNDRED }
}

/// The default magnetic variation, in degrees.
#[verifier::allow_in_spec]
pub fn default_variation() -> (r: Real)
    returns
        (Real { bits: TWO_AND_A_HALF }),
{
    Real { bits: TWO_AND_A_HALF }
}

/// The default host that sentences are sent to.
pub fn default_nmea0183_host() -> (r: String)
    ensures
        r@ == "127.0.0.1"@,
{
    "127.0.0.1".to_string()
}

/// The default port that sentences are sent to.
#[verifier::allow_in_spec]
pub fn default_nmea0183_port() -> (r: u16)
    returns
        10110u16,
{
    10110u16
}

/// The default talker.
pub fn default_talker_id() -> (r: String)
    ensures
        r@ == "GP"@,
{
    "GP".to_string()
}

/// The default CAN interface.
pub fn default_nmea2000_interface() -> (r: String)
    ensures
        r@ == "vcan0"@,
{
    "vcan0".to_string()
}

/// The default source address on the CAN bus.
#[verifier::allow_in_spec]
pub fn default_nmea2000_source() -> (r: u8)
    returns
        42u8,
{
    42u8
}

/// Where sentences are sent to.
#[derive(Debug, Clone)]
pub struct Nmea0183Config {
    pub enabled: bool,
    pub host: String,
    pub port: u16,
    pub talker_id: String,
}

impl Nmea0183Config {
    /// Sentences are off, and would go to the local machine.
    pub open spec fn is_default(&self) -> bool {
        &&& !self.enabled
        &&& self.host@ == "127.0.0.1"@
        &&& self.port == default_nmea0183_port()
        &&& self.talker_id@ == "GP"@
    }

    /// The address to connect to.
    pub fn address(&self) -> (r: String)
        ensures
            r@ == self.host@ + ":"@ + crate::text::digits(self.port as nat),
    {
        let mut s = join(self.host.as_str(), ":");
        s.append(crate::text::decimal(self.port as u64).as_str());
        s
    }
}

impl Default for Nmea0183Config {
    fn default() -> (r: Self)
        ensures
            r.is_default(),
    {
        Nmea0183Config {
            enabled: false,
            host: default_nmea0183_host(),
            port: default_nmea0183_port(),
            talker_id: default_talker_id(),
        }
    }
}

/// Where NMEA 2000 messages are sent to.
#[derive(Debug, Clone)]
pub struct Nmea2000Config {
    pub enabled: bool,
    pub interface: String,
    pub source_address: u8,
}

impl Nmea2000Config {
    /// Messages are off, and would go to a virtual interface.
    pub open spec fn is_default(&self) -> bool {
        &&& !self.enabled
        &&& self.interface@ == "vcan0"@
        &&& self.source_address == default_nmea2000_source()
    }
}

impl Default for Nmea2000Config {
    fn default() -> (r: Self)
        ensures
            r.is_default(),
    {
        Nmea2000Config {
            enabled: false,
            interface: default_nmea2000_interface(),
            source_address: default_nmea2000_source(),
        }
    }
}

/// The forms in which data is sent out.
#[derive(Debug, Clone)]
pub struct OutputConfig {
    pub direct: bool,
    pub nmea0183: Nmea0183Config,
    pub nmea2000: Nmea2000Config,
}

impl OutputConfig {
    /// Deltas only.
    pub open spec fn is_default(&self) -> bool {
        &&& self.direct
        &&& self.nmea0183.is_default()
        &&& self.nmea2000.is_default()
    }
}

impl Default for OutputConfig {
    fn default() -> (r: Self)
        ensures
            r.is_default(),
    {
        OutputConfig {
            direct: true,
            nmea0183: Nmea0183Config::default(),
            nmea2000: Nmea2000Config::default(),
        }
    }
}

/// A position in decimal degrees.
#[derive(Debug, Clone, Copy)]
pub struct PositionConfig {
    pub latitude: Real,
    pub longitude: Real,
}

/// The default centre of the orbit.
#[verifier::allow_in_spec]
pub fn default_position() -> (r: PositionConfig)
    returns
        (PositionConfig { latitude: default_lat(), longitude: default_lon() }),
{
    PositionConfig { latitude: default_lat(), longitude: default_lon() }
}

/// What is simulated.
#[derive(Debug, Clone)]
pub struct SimulatorConfig {
    pub update_interval_ms: u64,
    pub position: PositionConfig,
    pub orbit_radius_m: Real,
    pub orbit_period_s: Real,
    pub magnetic_variation_deg: Real,
    pub enable_propulsion: bool,
    pub enable_environment: bool,
    pub output: OutputConfig,
}

impl Default for SimulatorConfig {
    fn default() -> (r: Self)
        ensures
            r.update_interval_ms == default_interval(),
            r.position == default_position(),
            r.orbit_radius_m == default_orbit_radius(),
            r.orbit_period_s == default_orbit_period(),
            r.magnetic_variation_deg == default_variation(),
            r.enable_propulsion,
            r.enable_environment,
            r.output.is_default(),
    {
        SimulatorConfig {
            update_interval_ms: default_interval(),
            position: default_position(),
            orbit_radius_m: default_orbit_radius(),
            orbit_period_s: default_orbit_period(),
            magnetic_variation_deg: default_variation(),
            enable_propulsion: true,
            enable_environment: true,
            output: OutputConfig::default(),
        }
    }
}

/// `list`, followed by a name, set off by a comma, if it is wanted.
pub open spec fn listed(list: Seq<char>, wanted: bool, name: Seq<char>) -> Seq<char> {
    if !wanted {
        list
    } else if list.len() == 0 {
        name
    } else {
        list + ", "@ + name
    }
}

fn add_name(list: &mut String, wanted: bool, name: &str)
    ensures
        final(list)@ == listed(old(list)@, wanted, name@),
{
    if wanted {
        if list.as_str().unicode_len() > 0 {
            list.append(", ");
        }
        list.append(name);
        assert(list@ =~= listed(old(list)@, wanted, name@));
    }
}

/// The status that names the forms in use.
pub open spec fn status_of(direct: bool, nmea0183: bool, nmea2000: bool) -> Seq<char> {
    "Generating data ("@ + listed(
        listed(listed(Seq::empty(), direct, "direct"@), nmea0183, "nmea0183"@),
        nmea2000,
        "nmea2000"@,
    ) + ")"@
}

/// The status to report while data is generated.
pub fn status(output: &OutputConfig) -> (r: String)
    ensures
        r@ == status_of(output.direct, output.nmea0183.enabled, output.nmea2000.enabled),
{
    let mut names = String::new();
    assert(names@ =~= Seq::empty());
    add_name(&mut names, output.direct, "direct");
    add_name(&mut names, output.nmea0183.enabled, "nmea0183");
    add_name(&mut names, output.nmea2000.enabled, "nmea2000");
    let mut s = join("Generating data (", names.as_str());
    s.append(")");
    s
}

} // verus!
