//! Commands of the autopilot's users: engage, modes, targets, tacks and gybes.
use crate::autopilot::pd::normalize_angle;
use crate::autopilot::state::{AutopilotMode, AutopilotState, StateView};
use crate::expr::{lit, num, Expr};
use crate::ideal::{ideal, same_direction};
use crate::number::Real;
use crate::text::{equal, join};
use crate::units::PI;
use vstd::prelude::*;

verus! {

/// Smallest wind angle that a manoeuvre turns to: 0.1 radians.
pub const MIN_WIND_ANGLE: u64 = 0x3FB9_9999_9999_999A;

/// Changes of the target below this mean that it is reached already: 0.01 radians.
pub const SAME_TACK: u64 = 0x3F84_7AE1_47AE_147B;

/// Why a command is refused.
#[derive(Debug)]
pub enum ProviderError {
    NotFound(String),
    Runtime(String),
}

/// The view of a [`ProviderError`].
pub enum ProviderErrorView {
    NotFound(Seq<char>),
    Runtime(Seq<char>),
}

impl ProviderError {
    pub open spec fn view(&self) -> ProviderErrorView {
        match self {
            ProviderError::NotFound(m) => ProviderErrorView::NotFound(m@),
            ProviderError::Runtime(m) => ProviderErrorView::Runtime(m@),
        }
    }

    pub fn is_not_found(&self) -> (r: bool)
        ensures
            r == (self@ is NotFound),
    {
        match self {
            ProviderError::NotFound(_) => true,
            ProviderError::Runtime(_) => false,
        }
    }
}

/// The error of a command, if it is refused.
pub open spec fn refusal(r: Result<(), ProviderError>) -> Option<ProviderErrorView> {
    match r {
        Ok(_) => None,
        Err(e) => Some(e@),
    }
}

/// Which side the wind is to come from after a manoeuvre.
#[derive(Debug, Clone, Copy, PartialEq, Eq, Structural)]
pub enum TackDirection {
    Port,
    Starboard,
}

/// Through which side of the wind a manoeuvre goes.
#[derive(Debug, Clone, Copy, PartialEq, Eq, Structural)]
pub enum Manoeuvre {
    Tack,
    Gybe,
}

impl Manoeuvre {
    pub open spec fn wind_mode_message(self) -> Seq<char> {
        match self {
            Manoeuvre::Tack => "tack requires wind mode"@,
            Manoeuvre::Gybe => "gybe requires wind mode"@,
        }
    }

    pub open spec fn done_message(self) -> Seq<char> {
        match self {
            Manoeuvre::Tack => "already on that tack"@,
            Manoeuvre::Gybe => "already on that gybe"@,
        }
    }
}

/// What the autopilot tells of itself.
#[derive(Debug)]
pub struct AutopilotData {
    pub state: &'static str,
    pub mode: &'static str,
    pub target: Option<Real>,
    pub engaged: bool,
    pub modes: Vec<&'static str>,
}

/// The target angle, or zero where none is set.
#[verifier::allow_in_spec]
pub fn target_or_zero(target: Option<Real>) -> (r: Real)
    returns
        (match target {
            Some(t) => t,
            None => Real { bits: 0 },
        }),
{
    match target {
        Some(t) => t,
        None => Real { bits: 0 },
    }
}

/// The angle to turn to: the present angle on the given side, but not less than the
/// smallest one.
pub open spec fn mirrored(current: Real, direction: TackDirection) -> Real {
    let least = Real { bits: MIN_WIND_ANGLE };
    let magnitude = if least.lt(current.unsigned()) {
        current.unsigned()
    } else {
        least
    };
    match direction {
        TackDirection::Port => magnitude.opposite(),
        TackDirection::Starboard => magnitude,
    }
}

impl AutopilotState {
    /// `enabled` or `disabled`.
    pub open spec fn state_name(enabled: bool) -> Seq<char> {
        if enabled {
            "enabled"@
        } else {
            "disabled"@
        }
    }

    pub fn get_data(&self) -> (r: AutopilotData)
        ensures
            r.state@ == AutopilotState::state_name(self.enabled),
            r.mode@ == self.mode.name(),
            r.target == self.target_rad,
            r.engaged == self.enabled,
            r.modes@.map_values(|m: &'static str| m@) == seq![
                AutopilotMode::Compass.name(),
                AutopilotMode::Wind.name(),
                AutopilotMode::WindTrue.name(),
                AutopilotMode::Route.name(),
            ],
    {
        let modes = vec!["compass", "wind", "wind_true", "route"];
        assert(modes@.map_values(|m: &'static str| m@) =~= seq![
            AutopilotMode::Compass.name(),
            AutopilotMode::Wind.name(),
            AutopilotMode::WindTrue.name(),
            AutopilotMode::Route.name(),
        ]);
        AutopilotData {
            state: self.get_state(),
            mode: self.mode.as_str(),
            target: self.target_rad,
            engaged: self.enabled,
            modes,
        }
    }

    pub fn get_state(&self) -> (r: &'static str)
        ensures
            r@ == AutopilotState::state_name(self.enabled),
    {
        if self.enabled {
            "enabled"
        } else {
            "disabled"
        }
    }

    /// Engages or disengages by name.
    pub fn set_state(&mut self, state: &str) -> (r: Result<(), ProviderError>)
        ensures
            final(self)@ == (if state@ == "enabled"@ {
                StateView { enabled: true, ..old(self)@ }
            } else if state@ == "disabled"@ {
                StateView { enabled: false, last_tick_at: None, ..old(self)@ }
            } else {
                old(self)@
            }),
            refusal(r) == (if state@ == "enabled"@ || state@ == "disabled"@ {
                None
            } else {
                Some(ProviderErrorView::Runtime("unknown autopilot state: "@ + state@))
            }),
            refusal(r) is None ==> AutopilotState::state_name(final(self).enabled) == state@,
    {
        if equal(state, "enabled") {
            self.enabled = true;
            Ok(())
        } else if equal(state, "disabled") {
            self.enabled = false;
            self.last_tick_at = None;
            Ok(())
        } else {
            Err(ProviderError::Runtime(join("unknown autopilot state: ", state)))
        }
    }

    /// Changes the mode by name. The derivative starts afresh.
    pub fn set_mode(&mut self, mode: &str) -> (r: Result<(), ProviderError>)
        ensures
            match AutopilotMode::named(mode@) {
                Some(m) => {
                    &&& refusal(r) is None
                    &&& final(self)@ == (StateView {
                        mode: m,
                        last_error_rad: Real { bits: 0 },
                        last_tick_at: None,
                        ..old(self)@
                    })
                },
                None => {
                    &&& refusal(r) == Some(
                        ProviderErrorView::NotFound("unknown autopilot mode: "@ + mode@),
                    )
                    &&& final(self)@ == old(self)@
                },
            },
            refusal(r) is None ==> final(self).mode.name() == mode@,
    {
        match AutopilotMode::from_str(mode) {
            Ok(m) => {
                self.mode = m;
                self.last_error_rad = Real { bits: 0 };
                self.last_tick_at = None;
                Ok(())
            },
            Err(e) => Err(ProviderError::NotFound(e)),
        }
    }

    pub fn set_target(&mut self, value_rad: Real)
        ensures
            final(self)@ == (StateView { target_rad: Some(value_rad), ..old(self)@ }),
    {
        self.target_rad = Some(value_rad);
    }

    /// The formula of the target after a change; a missing target counts as zero.
    pub fn adjust_target(&self, delta_rad: Real) -> (r: Expr)
        ensures
            r == normalize_angle(num(target_or_zero(self.target_rad)).plus(num(delta_rad))),
            forall|ev: spec_fn(Expr) -> real| #[trigger]
                ideal(ev) ==> same_direction(
                    ev,
                    ev(r),
                    ev(num(target_or_zero(self.target_rad))) + ev(num(delta_rad)),
                ) && -ev(lit(PI)) <= ev(r) && ev(r) <= ev(lit(PI)),
    {
        normalize_angle(num(target_or_zero(self.target_rad)).plus(num(delta_rad)))
    }

    pub fn engage(&mut self)
        ensures
            final(self)@ == (StateView { enabled: true, ..old(self)@ }),
    {
        self.enabled = true;
    }

    pub fn disengage(&mut self)
        ensures
            final(self)@ == (StateView { enabled: false, last_tick_at: None, ..old(self)@ }),
    {
        self.enabled = false;
        self.last_tick_at = None;
    }

    /// The target of a manoeuvre.
    pub fn manoeuvre_target(&self, direction: TackDirection) -> (r: Real)
        ensures
            r == mirrored(target_or_zero(self.target_rad), direction),
    {
        let current = target_or_zero(self.target_rad);
        let least = Real { bits: MIN_WIND_ANGLE };
        let magnitude = if least.less_than(current.abs()) {
            current.abs()
        } else {
            least
        };
        match direction {
            TackDirection::Port => magnitude.neg(),
            TackDirection::Starboard => magnitude,
        }
    }

    /// The formula of how far a manoeuvre changes the target.
    pub fn manoeuvre_change(&self, direction: TackDirection) -> (r: Expr)
        ensures
            r == num(mirrored(target_or_zero(self.target_rad), direction)).minus(
                num(target_or_zero(self.target_rad)),
            ).absolute(),
            forall|ev: spec_fn(Expr) -> real| #[trigger]
                ideal(ev) ==> ev(r) >= 0real && {
                    let after = ev(num(mirrored(target_or_zero(self.target_rad), direction)));
                    let before = ev(num(target_or_zero(self.target_rad)));
                    after == before + ev(r) || after == before - ev(r)
                },
    {
        num(self.manoeuvre_target(direction)).minus(
            num(target_or_zero(self.target_rad)),
        ).absolute()
    }

    /// What becomes of the state by a manoeuvre, given how far it changes the target.
    pub open spec fn manoeuvred(
        state: StateView,
        direction: TackDirection,
        change: Real,
    ) -> StateView {
        if state.mode.is_wind() && !change.lt(Real { bits: SAME_TACK }) {
            StateView {
                target_rad: Some(mirrored(target_or_zero(state.target_rad), direction)),
                last_error_rad: Real { bits: 0 },
                ..state
            }
        } else {
            state
        }
    }

    /// Why a manoeuvre is refused.
    pub open spec fn manoeuvre_refusal(
        state: StateView,
        manoeuvre: Manoeuvre,
        change: Real,
    ) -> Option<ProviderErrorView> {
        if !state.mode.is_wind() {
            Some(ProviderErrorView::NotFound(manoeuvre.wind_mode_message()))
        } else if change.lt(Real { bits: SAME_TACK }) {
            Some(ProviderErrorView::Runtime(manoeuvre.done_message()))
        } else {
            None
        }
    }

    /// Turns the target through the wind's eye (tack) or dead downwind (gybe) to the
    /// given side. `change` is the value of [`AutopilotState::manoeuvre_change`].
    fn turn(
        &mut self,
        manoeuvre: Manoeuvre,
        direction: TackDirection,
        change: Real,
    ) -> (r: Result<(), ProviderError>)
        ensures
            final(self)@ == AutopilotState::manoeuvred(old(self)@, direction, change),
            refusal(r) == AutopilotState::manoeuvre_refusal(old(self)@, manoeuvre, change),
    {
        let same = Real { bits: SAME_TACK };
        if !self.mode.is_wind() {
            return match manoeuvre {
                Manoeuvre::Tack => Err(
                    ProviderError::NotFound("tack requires wind mode".to_string()),
                ),
                Manoeuvre::Gybe => Err(
                    ProviderError::NotFound("gybe requires wind mode".to_string()),
                ),
            };
        }
        if change.less_than(same) {
            return match manoeuvre {
                Manoeuvre::Tack => Err(
                    ProviderError::Runtime("already on that tack".to_string()),
                ),
                Manoeuvre::Gybe => Err(
                    ProviderError::Runtime("already on that gybe".to_string()),
                ),
            };
        }
        self.target_rad = Some(self.manoeuvre_target(direction));
        self.last_error_rad = Real { bits: 0 };
        Ok(())
    }

    /// Tacks to the given side. `change` is the value of
    /// [`AutopilotState::manoeuvre_change`].
    pub fn tack(&mut self, direction: TackDirection, change: Real) -> (r: Result<
        (),
        ProviderError,
    >)
        ensures
            final(self)@ == AutopilotState::manoeuvred(old(self)@, direction, change),
            refusal(r) == AutopilotState::manoeuvre_refusal(
                old(self)@,
                Manoeuvre::Tack,
                change,
            ),
    {
        self.turn(Manoeuvre::Tack, direction, change)
    }

    /// Gybes to the given side. `change` is the value of
    /// [`AutopilotState::manoeuvre_change`].
    pub fn gybe(&mut self, direction: TackDirection, change: Real) -> (r: Result<
        (),
        ProviderError,
    >)
        ensures
            final(self)@ == AutopilotState::manoeuvred(old(self)@, direction, change),
            refusal(r) == AutopilotState::manoeuvre_refusal(
                old(self)@,
                Manoeuvre::Gybe,
                change,
            ),
    {
        self.turn(Manoeuvre::Gybe, direction, change)
    }

    /// Sets or clears the temporary offset from the target.
    pub fn dodge(&mut self, offset_rad: Option<Real>)
        ensures
            final(self)@ == (StateView { dodge_offset_rad: offset_rad, ..old(self)@ }),
    {
        self.dodge_offset_rad = offset_rad;
    }
}

/// After a manoeuvre the wind is on the side that was asked for, and no closer than
/// the smallest angle.
pub proof fn manoeuvre_reaches_its_side(current: Real, direction: TackDirection)
    ensures
        mirrored(current, direction).negative() == (direction is Port),
        (Real { bits: MIN_WIND_ANGLE }).le(mirrored(current, direction).unsigned()),
{
}

/// Turning to one side and back gives the angle of turning there at once.
pub proof fn manoeuvres_undo_each_other(
    current: Real,
    first: TackDirection,
    second: TackDirection,
)
    ensures
        mirrored(mirrored(current, first), second) == mirrored(current, second),
{
}

/// A refused command changes nothing.
pub proof fn refused_manoeuvre_changes_nothing(
    state: StateView,
    manoeuvre: Manoeuvre,
    direction: TackDirection,
    change: Real,
)
    requires
        AutopilotState::manoeuvre_refusal(state, manoeuvre, change) is Some,
    ensures
        AutopilotState::manoeuvred(state, direction, change) == state,
{
}

} // verus!
