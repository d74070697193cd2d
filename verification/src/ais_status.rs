//! AIS target status: what the plugin reports of the tracked targets.
use crate::cpa::Motion;
use crate::expr::{lit, num, Expr};
use crate::incoming::{all_values, flatten, update_views, Incoming};
use crate::json::{number_in, position_in, position_of, Json};
use crate::number::Real;
use crate::signalk::{
    no_values, notification, notification_view, plugin_source, push, self_delta_view, text, with,
    Delta, DeltaView, Entry, NotificationMethod, NotificationState, Source, Value, ValueView,
};
use crate::text::{after, decimal, digits, has_prefix, join, starts_with};
use crate::tracker::{
    aged_targets, aging_transitions, class_of, classify_mmsi, count_of, lookup, mmsi_prefix,
    observed, or_zero, sighted, target_in, with_cpa, AisTracker, CpaResult, CpaSnapshot,
    SnapshotView, StatusTransition, TargetClass, TargetStatus, TargetView, TrackerConfig,
    TrackerView, TransitionView,
};
use crate::units::NM_TO_M;
use vstd::prelude::*;
use vstd::string::*;

verus! {

// ---------------------------------------------------------------------------
// Configuration
// ---------------------------------------------------------------------------

/// Seconds between two ticks, by default.
#[verifier::allow_in_spec]
pub fn default_tick_interval() -> (r: u64)
    returns
        30u64,
{
    30
}

/// Approaches further away than this many seconds are ignored, by default.
#[verifier::allow_in_spec]
pub fn default_tcpa_max_secs() -> (r: u64)
    returns
        3600u64,
{
    3600
}

/// Configuration of the plugin.
#[derive(Debug, Clone, Copy)]
pub struct AisConfig {
    /// Seconds between checks for lost and stale targets.
    pub tick_interval_secs: u64,
    /// Threshold overrides per class.
    pub thresholds: TrackerConfig,
    /// Warn of approaches closer than this, in nautical miles.
    pub cpa_warn_distance_nm: Option<Real>,
    /// Raise an alarm for approaches closer than this, in nautical miles.
    pub cpa_alarm_distance_nm: Option<Real>,
    /// Ignore approaches further away than this many seconds.
    pub tcpa_max_secs: u64,
}

impl Default for AisConfig {
    fn default() -> (r: Self)
        ensures
            r == (AisConfig {
                tick_interval_secs: default_tick_interval(),
                thresholds: TrackerConfig::none(),
                cpa_warn_distance_nm: None,
                cpa_alarm_distance_nm: None,
                tcpa_max_secs: default_tcpa_max_secs(),
            }),
    {
        AisConfig {
            tick_interval_secs: default_tick_interval(),
            thresholds: TrackerConfig::none(),
            cpa_warn_distance_nm: None,
            cpa_alarm_distance_nm: None,
            tcpa_max_secs: default_tcpa_max_secs(),
        }
    }
}

/// A distance limit in metres.
#[verifier::allow_in_spec]
pub fn limit_metres(nautical_miles: Option<Real>) -> (r: Option<Expr>)
    returns
        (match nautical_miles {
            Some(nm) => Some(num(nm).times(lit(NM_TO_M))),
            None => None,
        }),
{
    match nautical_miles {
        Some(nm) => Some(num(nm).times(lit(NM_TO_M))),
        None => None,
    }
}

impl AisConfig {
    /// Approaches are computed only if a distance limit is set.
    pub fn watches_approaches(&self) -> (r: bool)
        ensures
            r == (self.cpa_warn_distance_nm is Some || self.cpa_alarm_distance_nm is Some),
    {
        self.cpa_warn_distance_nm.is_some() || self.cpa_alarm_distance_nm.is_some()
    }

    /// The formulas of the two distance limits, in metres, and of the time limit, in
    /// seconds.
    pub fn limits(&self) -> (r: (Option<Expr>, Option<Expr>, Expr))
        ensures
            r == (
                limit_metres(self.cpa_warn_distance_nm),
                limit_metres(self.cpa_alarm_distance_nm),
                Expr::Uint(self.tcpa_max_secs),
            ),
    {
        (
            limit_metres(self.cpa_warn_distance_nm),
            limit_metres(self.cpa_alarm_distance_nm),
            Expr::Uint(self.tcpa_max_secs),
        )
    }

    /// The tracker that the plugin starts with. Its own vessel is the one whose
    /// context ends in `self`.
    pub fn tracker(&self) -> (r: AisTracker)
        ensures
            r.wf(),
            r@ == (TrackerView {
                targets: Seq::empty(),
                self_uri: "self"@,
                config: self.thresholds,
            }),
    {
        AisTracker::with_config("self", self.thresholds)
    }
}

// ---------------------------------------------------------------------------
// Status deltas
// ---------------------------------------------------------------------------

/// The value of `sensors.ais.class`.
pub open spec fn class_name(class: TargetClass) -> Seq<char> {
    match class {
        TargetClass::Vessel => "A"@,
        TargetClass::Aton => "aton"@,
        TargetClass::Base => "base"@,
        TargetClass::Sar => "sar"@,
    }
}

/// The value of `sensors.ais.class`.
pub fn class_to_str(class: TargetClass) -> (r: &'static str)
    ensures
        r@ == class_name(class),
{
    match class {
        TargetClass::Vessel => "A",
        TargetClass::Aton => "aton",
        TargetClass::Base => "base",
        TargetClass::Sar => "sar",
    }
}

/// The MMSI that a transition is about: the one in its context, if there is one.
pub open spec fn transition_mmsi(t: TransitionView) -> Seq<char> {
    match after(t.context, mmsi_prefix()) {
        Some(m) => m,
        None => t.mmsi,
    }
}

/// What is reported of a transition: the new status and, when a target is first
/// confirmed, its class.
pub open spec fn status_entries(t: TransitionView) -> Seq<Entry> {
    let s = with(Seq::empty(), "sensors.ais.status"@, ValueView::Text(t.new_status.name()));
    if t.old_status is Unconfirmed && t.new_status is Confirmed {
        with(
            s,
            "sensors.ais.class"@,
            ValueView::Text(class_name(class_of(transition_mmsi(t)))),
        )
    } else {
        s
    }
}

/// The delta that reports a transition, in the context of the target.
pub open spec fn status_delta_view(t: TransitionView) -> DeltaView {
    crate::signalk::delta_view(t.context, plugin_source("ais-status"@), status_entries(t))
}

/// The delta that reports a transition.
pub fn status_delta(transition: &StatusTransition) -> (r: Delta)
    ensures
        r@ == status_delta_view(transition@),
{
    let mut values = no_values();
    push(&mut values, "sensors.ais.status", text(transition.new_status.as_str()));
    if transition.old_status == TargetStatus::Unconfirmed && transition.new_status
        == TargetStatus::Confirmed {
        let mmsi = match AisTracker::parse_mmsi(transition.context.as_str()) {
            Some(m) => m,
            None => transition.mmsi.as_str(),
        };
        push(&mut values, "sensors.ais.class", text(class_to_str(classify_mmsi(mmsi))));
    }
    Delta::with_context(transition.context.as_str(), Source::plugin("ais-status"), values)
}

/// The context of a delta, if it is that of a vessel with an MMSI.
pub open spec fn vessel_context(context: Option<Seq<char>>) -> Option<Seq<char>> {
    match context {
        Some(c) => if has_prefix(c, mmsi_prefix()) {
            Some(c)
        } else {
            None
        },
        None => None,
    }
}

/// What the context of a received delta makes the tracker do.
pub open spec fn message_target(delta: Incoming, self_uri: Seq<char>) -> Option<Seq<char>> {
    match vessel_context(crate::clock::opt_text(delta.context)) {
        Some(c) => target_in(c, self_uri),
        None => None,
    }
}

/// Takes in a received delta. Only deltas of vessels with an MMSI count. Returns the
/// delta that reports the transition that it causes, if any.
pub fn handle_delta(tracker: &mut AisTracker, delta: Incoming, now: u64) -> (r: Option<Delta>)
    requires
        old(tracker).wf(),
        message_target(delta, old(tracker)@.self_uri) matches Some(mmsi) ==> (lookup(
            old(tracker)@.targets,
            mmsi,
        ) matches Some(t) ==> t.message_count < u32::MAX),
    ensures
        final(tracker).wf(),
        final(tracker)@.self_uri == old(tracker)@.self_uri,
        final(tracker)@.config == old(tracker)@.config,
        match message_target(delta, old(tracker)@.self_uri) {
            None => r is None && final(tracker)@.targets == old(tracker)@.targets,
            Some(mmsi) => {
                let list = old(tracker)@.targets;
                let thresholds = old(tracker)@.config.thresholds(class_of(mmsi));
                let target = sighted(list, mmsi, thresholds, now);
                &&& final(tracker)@.targets == observed(
                    list,
                    mmsi,
                    thresholds,
                    all_values(update_views(delta.updates@)),
                    now,
                )
                &&& crate::signalk::opt_delta(r) == (match target.transition_to(
                    target.next_status(now),
                ) {
                    Some(t) => Some(status_delta_view(t)),
                    None => None,
                })
            },
        },
{
    let context = match &delta.context {
        Some(c) => c.clone(),
        None => {
            return None;
        },
    };
    if !starts_with(context.as_str(), "vessels.urn:mrn:imo:mmsi:") {
        return None;
    }
    let values = flatten(delta.updates);
    match tracker.update_target(context.as_str(), &values, now) {
        Some(transition) => Some(status_delta(&transition)),
        None => None,
    }
}

/// The plugin's status line.
pub open spec fn status_line(list: Seq<TargetView>) -> Seq<char> {
    "Tracking "@ + digits(list.len()) + " targets ("@ + digits(
        count_of(list, TargetStatus::Confirmed),
    ) + " confirmed, "@ + digits(count_of(list, TargetStatus::Lost)) + " lost, "@ + digits(
        count_of(list, TargetStatus::Unconfirmed),
    ) + " unconfirmed)"@
}

/// Lets time pass. Returns the plugin's status line and the deltas that report the
/// transitions.
pub fn run_tick(tracker: &mut AisTracker, now: u64) -> (r: (String, Vec<Delta>))
    requires
        old(tracker).wf(),
    ensures
        final(tracker).wf(),
        final(tracker)@ == (TrackerView {
            targets: aged_targets(old(tracker)@.targets, now),
            ..old(tracker)@
        }),
        r.0@ == status_line(final(tracker)@.targets),
        r.1@.map_values(|d: Delta| d@) == aging_transitions(
            old(tracker)@.targets,
            now,
        ).map_values(|t: TransitionView| status_delta_view(t)),
{
    let transitions = tracker.tick(now);
    let (confirmed, lost, unconfirmed) = tracker.count_by_status();
    let mut line = "Tracking ".to_string();
    line.append(decimal(tracker.target_count() as u64).as_str());
    line.append(" targets (");
    line.append(decimal(confirmed as u64).as_str());
    line.append(" confirmed, ");
    line.append(decimal(lost as u64).as_str());
    line.append(" lost, ");
    line.append(decimal(unconfirmed as u64).as_str());
    line.append(" unconfirmed)");

    let mut deltas: Vec<Delta> = Vec::new();
    let mut i: usize = 0;
    while i < transitions.len()
        invariant
            i <= transitions@.len(),
            deltas@.len() == i,
            forall|k: int|
                0 <= k < i ==> (#[trigger] deltas@[k])@ == status_delta_view(transitions@[k]@),
        decreases transitions@.len() - i,
    {
        deltas.push(status_delta(&transitions[i]));
        i += 1;
    }
    proof {
        let views = transitions@.map_values(|t: StatusTransition| t@);
        assert(deltas@.map_values(|d: Delta| d@) =~= views.map_values(
            |t: TransitionView| status_delta_view(t),
        ));
    }
    (line, deltas)
}

// ---------------------------------------------------------------------------
// Approaches
// ---------------------------------------------------------------------------

/// The own vessel's motion, from what is stored of it. Without a position there is
/// none; a missing speed or course counts as zero.
pub open spec fn own_motion_view(
    position: Option<Json>,
    sog: Option<Json>,
    cog: Option<Json>,
) -> Option<Motion> {
    match position {
        Some(p) => match position_in(p@) {
            Some((lat, lon)) => Some(
                Motion {
                    lat,
                    lon,
                    sog_ms: or_zero(stored_number(sog)),
                    cog_rad: or_zero(stored_number(cog)),
                },
            ),
            None => None,
        },
        None => None,
    }
}

/// A stored value, if it is a number.
pub open spec fn stored_number(value: Option<Json>) -> Option<Real> {
    match value {
        Some(v) => number_in(v@),
        None => None,
    }
}

fn number_of(value: &Option<Json>) -> (r: Option<Real>)
    ensures
        r == stored_number(*value),
{
    match value {
        Some(v) => v.as_real(),
        None => None,
    }
}

/// The own vessel's motion, from what is stored under `navigation.position`,
/// `navigation.speedOverGround` and `navigation.courseOverGroundTrue`.
pub fn own_motion(
    position: &Option<Json>,
    sog: &Option<Json>,
    cog: &Option<Json>,
) -> (r: Option<Motion>)
    ensures
        r == own_motion_view(*position, *sog, *cog),
{
    match position {
        Some(p) => match position_of(p) {
            Some((lat, lon)) => Some(
                Motion {
                    lat,
                    lon,
                    sog_ms: or_zero(number_of(sog)),
                    cog_rad: or_zero(number_of(cog)),
                },
            ),
            None => None,
        },
        None => None,
    }
}

/// The limits that approaches are held against.
#[derive(Debug, Clone, Copy, PartialEq, Eq, Structural)]
pub struct CpaLimits {
    /// Warn of approaches closer than this, in metres.
    pub warn_m: Option<Real>,
    /// Raise an alarm for approaches closer than this, in metres.
    pub alarm_m: Option<Real>,
    /// Ignore approaches further away than this many seconds.
    pub tcpa_max_s: Real,
}

/// `x` is below a limit that is set.
pub open spec fn below(x: Real, limit: Option<Real>) -> bool {
    limit matches Some(d) && x.lt(d)
}

fn is_below(x: Real, limit: Option<Real>) -> (r: bool)
    ensures
        r == below(x, limit),
{
    match limit {
        Some(d) => x.less_than(d),
        None => false,
    }
}

/// The alarm level of an approach: only one that lies ahead, but not too far, is a
/// threat, and the alarm limit goes before the warning limit.
pub open spec fn level_of(cpa: CpaResult, limits: CpaLimits) -> Option<NotificationState> {
    if (Real { bits: 0 }).lt(cpa.tcpa_s) && cpa.tcpa_s.lt(limits.tcpa_max_s) {
        if below(cpa.cpa_m, limits.alarm_m) {
            Some(NotificationState::Alarm)
        } else if below(cpa.cpa_m, limits.warn_m) {
            Some(NotificationState::Warn)
        } else {
            None
        }
    } else {
        None
    }
}

/// The alarm level of an approach.
pub fn alarm_level(cpa: CpaResult, limits: CpaLimits) -> (r: Option<NotificationState>)
    ensures
        r == level_of(cpa, limits),
{
    let zero = Real { bits: 0 };
    if zero.less_than(cpa.tcpa_s) && cpa.tcpa_s.less_than(limits.tcpa_max_s) {
        if is_below(cpa.cpa_m, limits.alarm_m) {
            Some(NotificationState::Alarm)
        } else if is_below(cpa.cpa_m, limits.warn_m) {
            Some(NotificationState::Warn)
        } else {
            None
        }
    } else {
        None
    }
}

/// The delta that tells the approach of a target, in the target's context.
pub open spec fn approach_delta_view(snap: SnapshotView, cpa: CpaResult) -> DeltaView {
    let s = with(
        Seq::empty(),
        "navigation.closestApproach.distance"@,
        ValueView::Number(num(cpa.cpa_m)),
    );
    crate::signalk::delta_view(
        snap.context,
        plugin_source("ais-status"@),
        with(s, "navigation.closestApproach.timeTo"@, ValueView::Number(num(cpa.tcpa_s))),
    )
}

/// The delta that tells the approach of a target.
pub fn approach_delta(snap: &CpaSnapshot, cpa: CpaResult) -> (r: Delta)
    ensures
        r@ == approach_delta_view(snap@, cpa),
{
    let mut values = no_values();
    push(&mut values, "navigation.closestApproach.distance", Value::Number(num(cpa.cpa_m)));
    push(&mut values, "navigation.closestApproach.timeTo", Value::Number(num(cpa.tcpa_s)));
    Delta::with_context(snap.context.as_str(), Source::plugin("ais-status"), values)
}

/// The notification about a target: an alarm is also sounded, a warning is only
/// shown, and without a level the notification is taken back.
pub open spec fn collision_value(mmsi: Seq<char>, level: Option<NotificationState>) -> ValueView {
    match level {
        Some(state) => notification_view(
            state,
            if state is Alarm {
                seq![NotificationMethod::Visual, NotificationMethod::Sound]
            } else {
                seq![NotificationMethod::Visual]
            },
            "Collision risk: MMSI "@ + mmsi,
        ),
        None => notification_view(NotificationState::Normal, Seq::empty(), ""@),
    }
}

/// The delta that raises or takes back the collision notification about a target.
pub open spec fn collision_delta_view(
    mmsi: Seq<char>,
    level: Option<NotificationState>,
) -> DeltaView {
    self_delta_view(
        plugin_source("ais-status"@),
        with(Seq::empty(), "notifications.collision.mmsi-"@ + mmsi, collision_value(mmsi, level)),
    )
}

/// The delta that raises or takes back the collision notification about a target.
pub fn collision_delta(mmsi: &str, level: Option<NotificationState>) -> (r: Delta)
    ensures
        r@ == collision_delta_view(mmsi@, level),
{
    let mut methods: Vec<NotificationMethod> = Vec::new();
    let value = match level {
        Some(state) => {
            methods.push(NotificationMethod::Visual);
            if state == NotificationState::Alarm {
                methods.push(NotificationMethod::Sound);
                assert(methods@ =~= seq![NotificationMethod::Visual, NotificationMethod::Sound]);
            } else {
                assert(methods@ =~= seq![NotificationMethod::Visual]);
            }
            notification(state, &methods, join("Collision risk: MMSI ", mmsi).as_str())
        },
        None => notification(NotificationState::Normal, &methods, ""),
    };
    let mut values = no_values();
    push(&mut values, join("notifications.collision.mmsi-", mmsi).as_str(), value);
    Delta::self_vessel(Source::plugin("ais-status"), values)
}

/// The deltas that tell the approaches of those targets that have one.
pub open spec fn approach_deltas(
    snaps: Seq<SnapshotView>,
    results: Seq<Option<CpaResult>>,
) -> Seq<DeltaView>
    decreases snaps.len(),
{
    if snaps.len() == 0 {
        Seq::empty()
    } else {
        let before = approach_deltas(snaps.drop_last(), results);
        match results[snaps.len() - 1] {
            Some(cpa) => before.push(approach_delta_view(snaps.last(), cpa)),
            None => before,
        }
    }
}

/// The deltas for those targets whose alarm level changes.
pub open spec fn collision_deltas(
    snaps: Seq<SnapshotView>,
    results: Seq<Option<CpaResult>>,
    limits: CpaLimits,
) -> Seq<DeltaView>
    decreases snaps.len(),
{
    if snaps.len() == 0 {
        Seq::empty()
    } else {
        let before = collision_deltas(snaps.drop_last(), results, limits);
        let snap = snaps.last();
        match results[snaps.len() - 1] {
            Some(cpa) => {
                let level = level_of(cpa, limits);
                if level != snap.cpa_level {
                    before.push(collision_delta_view(snap.mmsi, level))
                } else {
                    before
                }
            },
            None => before,
        }
    }
}

/// The targets after their approaches have been computed.
pub open spec fn approached(
    list: Seq<TargetView>,
    snaps: Seq<SnapshotView>,
    results: Seq<Option<CpaResult>>,
    limits: CpaLimits,
) -> Seq<TargetView>
    decreases snaps.len(),
{
    if snaps.len() == 0 {
        list
    } else {
        let before = approached(list, snaps.drop_last(), results, limits);
        match results[snaps.len() - 1] {
            Some(cpa) => with_cpa(
                before,
                snaps.last().mmsi,
                cpa,
                level_of(cpa, limits),
            ),
            None => before,
        }
    }
}

/// Two alarm levels are the same.
fn same_level(a: Option<NotificationState>, b: Option<NotificationState>) -> (r: bool)
    ensures
        r == (a == b),
{
    match (a, b) {
        (Some(x), Some(y)) => x == y,
        (None, None) => true,
        _ => false,
    }
}

/// One round of approach monitoring, given the computed approach of every target
/// in the snapshots. Stores the approaches and returns the deltas to send: first the
/// approaches, then the collision notifications that change.
pub fn run_cpa_tick(
    tracker: &mut AisTracker,
    snapshots: &Vec<CpaSnapshot>,
    results: &Vec<Option<CpaResult>>,
    limits: CpaLimits,
) -> (r: Vec<Delta>)
    requires
        old(tracker).wf(),
        results@.len() == snapshots@.len(),
    ensures
        final(tracker).wf(),
        ({
            let snaps = snapshots@.map_values(|s: CpaSnapshot| s@);
            &&& final(tracker)@ == (TrackerView {
                targets: approached(old(tracker)@.targets, snaps, results@, limits),
                ..old(tracker)@
            })
            &&& r@.map_values(|d: Delta| d@) == approach_deltas(snaps, results@)
                + collision_deltas(snaps, results@, limits)
        }),
{
    let ghost snaps = snapshots@.map_values(|s: CpaSnapshot| s@);
    let ghost list = tracker@.targets;
    let mut deltas: Vec<Delta> = Vec::new();
    let mut alarms: Vec<Delta> = Vec::new();
    proof {
        assert(snaps.take(0) =~= Seq::empty());
        assert(deltas@.map_values(|d: Delta| d@) =~= Seq::empty());
        assert(alarms@.map_values(|d: Delta| d@) =~= Seq::empty());
    }
    let mut i: usize = 0;
    while i < snapshots.len()
        invariant
            i <= snapshots@.len(),
            results@.len() == snapshots@.len(),
            snaps == snapshots@.map_values(|s: CpaSnapshot| s@),
            list == old(tracker)@.targets,
            tracker.wf(),
            tracker@ == (TrackerView {
                targets: approached(list, snaps.take(i as int), results@, limits),
                ..old(tracker)@
            }),
            deltas@.map_values(|d: Delta| d@) == approach_deltas(snaps.take(i as int), results@),
            alarms@.map_values(|d: Delta| d@) == collision_deltas(
                snaps.take(i as int),
                results@,
                limits,
            ),
        decreases snapshots@.len() - i,
    {
        let snap = &snapshots[i];
        proof {
            let next = snaps.take(i + 1);
            assert(next.drop_last() =~= snaps.take(i as int));
            assert(next.last() == snap@);
        }
        if let Some(cpa) = results[i] {
            let ghost told = deltas@.map_values(|d: Delta| d@);
            let ghost raised = alarms@.map_values(|d: Delta| d@);
            deltas.push(approach_delta(snap, cpa));
            assert(deltas@.map_values(|d: Delta| d@) =~= told.push(
                approach_delta_view(snap@, cpa),
            ));
            let level = alarm_level(cpa, limits);
            tracker.update_target_cpa(snap.mmsi.as_str(), cpa, level);
            if !same_level(level, snap.cpa_level) {
                alarms.push(collision_delta(snap.mmsi.as_str(), level));
                assert(alarms@.map_values(|d: Delta| d@) =~= raised.push(
                    collision_delta_view(snap@.mmsi, level),
                ));
            }
        }
        i += 1;
    }
    let ghost told = deltas@.map_values(|d: Delta| d@);
    let ghost raised = alarms@.map_values(|d: Delta| d@);
    deltas.append(&mut alarms);
    proof {
        assert(snaps.take(i as int) =~= snaps);
        assert(deltas@.map_values(|d: Delta| d@) =~= told + raised);
    }
    deltas
}

/// An alarm level that stays the same sends nothing.
pub proof fn steady_alarm_is_quiet(snap: SnapshotView, cpa: CpaResult, limits: CpaLimits)
    requires
        level_of(cpa, limits) == snap.cpa_level,
    ensures
        collision_deltas(seq![snap], seq![Some(cpa)], limits) == Seq::<DeltaView>::empty(),
{
    assert(seq![snap].drop_last() =~= Seq::empty());
    reveal_with_fuel(collision_deltas, 2);
}

/// An alarm level that changes is told: raised, made more or less urgent, or taken back.
pub proof fn changed_level_is_told(snap: SnapshotView, cpa: CpaResult, limits: CpaLimits)
    requires
        level_of(cpa, limits) != snap.cpa_level,
    ensures
        collision_deltas(seq![snap], seq![Some(cpa)], limits) == seq![
            collision_delta_view(snap.mmsi, level_of(cpa, limits)),
        ],
{
    assert(seq![snap].drop_last() =~= Seq::empty());
    reveal_with_fuel(collision_deltas, 2);
    assert(Seq::<DeltaView>::empty().push(collision_delta_view(snap.mmsi, level_of(cpa, limits)))
        =~= seq![collision_delta_view(snap.mmsi, level_of(cpa, limits))]);
}

/// A target whose notification is a warning and that comes within the alarm limit is alarmed of.
pub proof fn warning_becomes_alarm(snap: SnapshotView, cpa: CpaResult, limits: CpaLimits)
    requires
        snap.cpa_level == Some(NotificationState::Warn),
        (Real { bits: 0 }).lt(cpa.tcpa_s),
        cpa.tcpa_s.lt(limits.tcpa_max_s),
        below(cpa.cpa_m, limits.alarm_m),
    ensures
        collision_deltas(seq![snap], seq![Some(cpa)], limits) == seq![
            collision_delta_view(snap.mmsi, Some(NotificationState::Alarm)),
        ],
{
    changed_level_is_told(snap, cpa, limits);
}

/// An approach that is past, or whose time is infinite or not a number, is no threat.
pub proof fn no_threat_without_time_ahead(cpa: CpaResult, limits: CpaLimits)
    requires
        cpa.tcpa_s.le(Real { bits: 0 }) || cpa.tcpa_s.nan() || limits.tcpa_max_s.le(cpa.tcpa_s),
    ensures
        level_of(cpa, limits) is None,
{
}

/// An approach within the alarm limit is never only a warning.
pub proof fn alarm_goes_before_warning(cpa: CpaResult, limits: CpaLimits)
    requires
        level_of(cpa, limits) == Some(NotificationState::Warn),
    ensures
        !below(cpa.cpa_m, limits.alarm_m),
        below(cpa.cpa_m, limits.warn_m),
{
}

} // verus!
