//! AIS target tracking: classes of MMSI numbers and the lifecycle of targets.
//!
//! Moments are nanoseconds of a monotonic clock, durations are whole seconds.
use crate::clock::opt_text;
use crate::incoming::{readings, Reading, ReadingView};
use crate::json::{number_in, position_in, position_of, text_in, Json, JsonView};
use crate::number::Real;
use crate::signalk::NotificationState;
use crate::text::{after, ends_with, equal, has_prefix, has_suffix, starts_with, strip_prefix};
use vstd::prelude::*;

verus! {

// ---------------------------------------------------------------------------
// Classes
// ---------------------------------------------------------------------------

/// The class of a target, by the prefix of its MMSI.
#[derive(Debug, Clone, Copy, PartialEq, Eq, Structural)]
pub enum TargetClass {
    /// A vessel.
    Vessel,
    /// An aid to navigation (prefix 97).
    Aton,
    /// A coast or base station (prefix 00).
    Base,
    /// A search and rescue aircraft (prefix 111).
    Sar,
}

/// The class of the target with the given MMSI.
pub open spec fn class_of(mmsi: Seq<char>) -> TargetClass {
    if has_prefix(mmsi, "97"@) {
        TargetClass::Aton
    } else if has_prefix(mmsi, "00"@) {
        TargetClass::Base
    } else if has_prefix(mmsi, "111"@) {
        TargetClass::Sar
    } else {
        TargetClass::Vessel
    }
}

/// Classifies a target by its MMSI.
pub fn classify_mmsi(mmsi: &str) -> (r: TargetClass)
    ensures
        r == class_of(mmsi@),
{
    if starts_with(mmsi, "97") {
        TargetClass::Aton
    } else if starts_with(mmsi, "00") {
        TargetClass::Base
    } else if starts_with(mmsi, "111") {
        TargetClass::Sar
    } else {
        TargetClass::Vessel
    }
}

/// Lifecycle thresholds of a target class.
#[derive(Debug, Clone, Copy, PartialEq, Eq, Structural)]
pub struct ClassThresholds {
    /// Messages needed to confirm a target.
    pub confirm_count: u32,
    /// Seconds within which these messages must arrive.
    pub confirm_window: u64,
    /// Seconds without a message until a target counts as lost.
    pub lost_after: u64,
    /// Seconds a target stays lost until it is removed.
    pub remove_after: u64,
}

impl ClassThresholds {
    #[verifier::allow_in_spec]
    pub fn for_class(class: TargetClass) -> (r: Self)
        returns
            (match class {
                TargetClass::Vessel => ClassThresholds {
                    confirm_count: 2,
                    confirm_window: 180,
                    lost_after: 360,
                    remove_after: 540,
                },
                TargetClass::Aton => ClassThresholds {
                    confirm_count: 1,
                    confirm_window: 180,
                    lost_after: 900,
                    remove_after: 3600,
                },
                TargetClass::Base | TargetClass::Sar => ClassThresholds {
                    confirm_count: 1,
                    confirm_window: 10,
                    lost_after: 30,
                    remove_after: 180,
                },
            }),
    {
        match class {
            TargetClass::Vessel => ClassThresholds {
                confirm_count: 2,
                confirm_window: 180,
                lost_after: 360,
                remove_after: 540,
            },
            TargetClass::Aton => ClassThresholds {
                confirm_count: 1,
                confirm_window: 180,
                lost_after: 900,
                remove_after: 3600,
            },
            TargetClass::Base | TargetClass::Sar => ClassThresholds {
                confirm_count: 1,
                confirm_window: 10,
                lost_after: 30,
                remove_after: 180,
            },
        }
    }
}

/// Overrides of single thresholds; what is not set keeps its default.
#[derive(Debug, Clone, Copy, PartialEq, Eq, Structural)]
pub struct ThresholdOverrides {
    pub confirm_count: Option<u32>,
    pub confirm_window_secs: Option<u64>,
    pub lost_after_secs: Option<u64>,
    pub remove_after_secs: Option<u64>,
}

impl ThresholdOverrides {
    /// The thresholds that result from overriding `base`.
    #[verifier::allow_in_spec]
    pub fn over(self, base: ClassThresholds) -> (r: ClassThresholds)
        returns
            (ClassThresholds {
                confirm_count: match self.confirm_count {
                    Some(n) => n,
                    None => base.confirm_count,
                },
                confirm_window: match self.confirm_window_secs {
                    Some(n) => n,
                    None => base.confirm_window,
                },
                lost_after: match self.lost_after_secs {
                    Some(n) => n,
                    None => base.lost_after,
                },
                remove_after: match self.remove_after_secs {
                    Some(n) => n,
                    None => base.remove_after,
                },
            }),
    {
        ClassThresholds {
            confirm_count: match self.confirm_count {
                Some(n) => n,
                None => base.confirm_count,
            },
            confirm_window: match self.confirm_window_secs {
                Some(n) => n,
                None => base.confirm_window,
            },
            lost_after: match self.lost_after_secs {
                Some(n) => n,
                None => base.lost_after,
            },
            remove_after: match self.remove_after_secs {
                Some(n) => n,
                None => base.remove_after,
            },
        }
    }
}

/// Threshold overrides per class.
#[derive(Debug, Clone, Copy, PartialEq, Eq, Structural)]
pub struct TrackerConfig {
    pub vessel: Option<ThresholdOverrides>,
    pub aton: Option<ThresholdOverrides>,
    pub base: Option<ThresholdOverrides>,
    pub sar: Option<ThresholdOverrides>,
}

impl TrackerConfig {
    /// No overrides.
    #[verifier::allow_in_spec]
    pub fn none() -> (r: TrackerConfig)
        returns
            (TrackerConfig { vessel: None, aton: None, base: None, sar: None }),
    {
        TrackerConfig { vessel: None, aton: None, base: None, sar: None }
    }

    /// The thresholds that apply to a class.
    #[verifier::allow_in_spec]
    pub fn thresholds(self, class: TargetClass) -> (r: ClassThresholds)
        returns
            (match (match class {
                TargetClass::Vessel => self.vessel,
                TargetClass::Aton => self.aton,
                TargetClass::Base => self.base,
                TargetClass::Sar => self.sar,
            }) {
                Some(o) => o.over(ClassThresholds::for_class(class)),
                None => ClassThresholds::for_class(class),
            }),
    {
        let chosen = match class {
            TargetClass::Vessel => self.vessel,
            TargetClass::Aton => self.aton,
            TargetClass::Base => self.base,
            TargetClass::Sar => self.sar,
        };
        match chosen {
            Some(o) => o.over(ClassThresholds::for_class(class)),
            None => ClassThresholds::for_class(class),
        }
    }
}

// ---------------------------------------------------------------------------
// Status
// ---------------------------------------------------------------------------

/// Lifecycle status of a target.
#[derive(Debug, Clone, Copy, PartialEq, Eq, Structural)]
pub enum TargetStatus {
    /// Seen, but not often enough to be confirmed.
    Unconfirmed,
    /// Actively tracked.
    Confirmed,
    /// Silent for too long.
    Lost,
}

impl TargetStatus {
    /// The value of `sensors.ais.status`.
    pub open spec fn name(self) -> Seq<char> {
        match self {
            TargetStatus::Unconfirmed => "unconfirmed"@,
            TargetStatus::Confirmed => "confirmed"@,
            TargetStatus::Lost => "lost"@,
        }
    }

    /// The value of `sensors.ais.status`.
    pub fn as_str(&self) -> (r: &'static str)
        ensures
            r@ == self.name(),
    {
        match self {
            TargetStatus::Unconfirmed => "unconfirmed",
            TargetStatus::Confirmed => "confirmed",
            TargetStatus::Lost => "lost",
        }
    }
}

/// A change of a target's status.
#[derive(Debug)]
pub struct StatusTransition {
    pub mmsi: String,
    pub context: String,
    pub old_status: TargetStatus,
    pub new_status: TargetStatus,
}

/// The view of a [`StatusTransition`].
pub struct TransitionView {
    pub mmsi: Seq<char>,
    pub context: Seq<char>,
    pub old_status: TargetStatus,
    pub new_status: TargetStatus,
}

impl StatusTransition {
    pub open spec fn view(&self) -> TransitionView {
        TransitionView {
            mmsi: self.mmsi@,
            context: self.context@,
            old_status: self.old_status,
            new_status: self.new_status,
        }
    }
}

/// The view of a transition that may be missing.
pub open spec fn opt_transition(t: Option<StatusTransition>) -> Option<TransitionView> {
    match t {
        Some(x) => Some(x@),
        None => None,
    }
}

// ---------------------------------------------------------------------------
// Targets
// ---------------------------------------------------------------------------

/// The last computed closest point of approach.
#[derive(Debug, Clone, Copy, PartialEq, Eq, Structural)]
pub struct CpaResult {
    /// Distance at the closest point, in metres.
    pub cpa_m: Real,
    /// Seconds until then; negative if it has passed.
    pub tcpa_s: Real,
}

/// A tracked AIS target.
#[derive(Debug)]
pub struct TrackedTarget {
    pub mmsi: String,
    pub context: String,
    pub class: TargetClass,
    pub status: TargetStatus,
    pub thresholds: ClassThresholds,
    pub first_seen: u64,
    pub last_seen: u64,
    pub message_count: u32,
    /// When the messages of the confirmation window arrived.
    pub recent_messages: Vec<u64>,
    pub name: Option<String>,
    pub callsign: Option<String>,
    /// Latitude and longitude.
    pub position: Option<(Real, Real)>,
    pub sog: Option<Real>,
    pub cog: Option<Real>,
    pub heading: Option<Real>,
    pub cpa: Option<CpaResult>,
    /// Level of the collision notification that was sent last, if it still stands.
    pub cpa_level: Option<NotificationState>,
}

/// The view of a [`TrackedTarget`].
pub struct TargetView {
    pub mmsi: Seq<char>,
    pub context: Seq<char>,
    pub class: TargetClass,
    pub status: TargetStatus,
    pub thresholds: ClassThresholds,
    pub first_seen: u64,
    pub last_seen: u64,
    pub message_count: u32,
    pub recent_messages: Seq<u64>,
    pub name: Option<Seq<char>>,
    pub callsign: Option<Seq<char>>,
    pub position: Option<(Real, Real)>,
    pub sog: Option<Real>,
    pub cog: Option<Real>,
    pub heading: Option<Real>,
    pub cpa: Option<CpaResult>,
    pub cpa_level: Option<NotificationState>,
}

/// A duration of whole seconds, in nanoseconds.
pub open spec fn nanos(seconds: int) -> int {
    seconds * 1_000_000_000
}

/// The messages that arrived at `from` or later.
pub open spec fn arrived_since(messages: Seq<u64>, from: int) -> Seq<u64>
    decreases messages.len(),
{
    if messages.len() == 0 {
        Seq::empty()
    } else if messages.last() >= from {
        arrived_since(messages.drop_last(), from).push(messages.last())
    } else {
        arrived_since(messages.drop_last(), from)
    }
}

/// Where the confirmation window that ends now begins. While the clock shows
/// less than the window's length, the window is this moment alone.
pub open spec fn window_start(now: u64, window: u64) -> int {
    if now >= nanos(window as int) {
        now - nanos(window as int)
    } else {
        now as int
    }
}

impl TargetView {
    /// The target as it is first seen.
    pub open spec fn fresh(
        mmsi: Seq<char>,
        context: Seq<char>,
        thresholds: ClassThresholds,
        now: u64,
    ) -> TargetView {
        TargetView {
            mmsi,
            context,
            class: class_of(mmsi),
            status: TargetStatus::Unconfirmed,
            thresholds,
            first_seen: now,
            last_seen: now,
            message_count: 0,
            recent_messages: Seq::empty(),
            name: None,
            callsign: None,
            position: None,
            sog: None,
            cog: None,
            heading: None,
            cpa: None,
            cpa_level: None,
        }
    }

    /// The messages within the confirmation window after one arrives now.
    pub open spec fn window(self, now: u64) -> Seq<u64> {
        arrived_since(
            self.recent_messages.push(now),
            window_start(now, self.thresholds.confirm_window),
        )
    }

    /// The status after a message that arrives now: a lost target is confirmed
    /// again at once, an unconfirmed one as soon as enough messages lie within the
    /// window.
    pub open spec fn next_status(self, now: u64) -> TargetStatus {
        match self.status {
            TargetStatus::Unconfirmed => if self.window(now).len()
                >= self.thresholds.confirm_count {
                TargetStatus::Confirmed
            } else {
                TargetStatus::Unconfirmed
            },
            TargetStatus::Lost => TargetStatus::Confirmed,
            TargetStatus::Confirmed => TargetStatus::Confirmed,
        }
    }

    /// The target after a message that arrives now.
    pub open spec fn recorded(self, now: u64) -> TargetView {
        TargetView {
            status: self.next_status(now),
            last_seen: now,
            message_count: (self.message_count + 1) as u32,
            recent_messages: if self.status is Lost {
                seq![now]
            } else {
                self.window(now)
            },
            ..self
        }
    }

    /// The transition that changing to `status` is, if it is one.
    pub open spec fn transition_to(self, status: TargetStatus) -> Option<TransitionView> {
        if status == self.status {
            None
        } else {
            Some(
                TransitionView {
                    mmsi: self.mmsi,
                    context: self.context,
                    old_status: self.status,
                    new_status: status,
                },
            )
        }
    }

    /// The target after one received value. A name, call sign or number of the wrong
    /// type clears what was known; an incomplete position leaves it.
    pub open spec fn with_value(self, path: Seq<char>, value: JsonView) -> TargetView {
        if path == "name"@ {
            TargetView { name: text_in(value), ..self }
        } else if path == "communication.callsignVhf"@ {
            TargetView { callsign: text_in(value), ..self }
        } else if path == "navigation.position"@ {
            match position_in(value) {
                Some(p) => TargetView { position: Some(p), ..self },
                None => self,
            }
        } else if path == "navigation.speedOverGround"@ {
            TargetView { sog: number_in(value), ..self }
        } else if path == "navigation.courseOverGroundTrue"@ {
            TargetView { cog: number_in(value), ..self }
        } else if path == "navigation.headingTrue"@ {
            TargetView { heading: number_in(value), ..self }
        } else {
            self
        }
    }

    /// The target after some received values, in order.
    pub open spec fn with_values(self, values: Seq<ReadingView>) -> TargetView
        decreases values.len(),
    {
        if values.len() == 0 {
            self
        } else {
            self.with_values(values.drop_last()).with_value(
                values.last().path,
                values.last().value,
            )
        }
    }
}

fn owned(s: Option<&str>) -> (r: Option<String>)
    ensures
        opt_text(r) == (match s {
            Some(t) => Some(t@),
            None => None,
        }),
{
    match s {
        Some(t) => Some(t.to_string()),
        None => None,
    }
}

impl TrackedTarget {
    pub open spec fn view(&self) -> TargetView {
        TargetView {
            mmsi: self.mmsi@,
            context: self.context@,
            class: self.class,
            status: self.status,
            thresholds: self.thresholds,
            first_seen: self.first_seen,
            last_seen: self.last_seen,
            message_count: self.message_count,
            recent_messages: self.recent_messages@,
            name: opt_text(self.name),
            callsign: opt_text(self.callsign),
            position: self.position,
            sog: self.sog,
            cog: self.cog,
            heading: self.heading,
            cpa: self.cpa,
            cpa_level: self.cpa_level,
        }
    }

    /// A target that is first seen now, with the default thresholds of its class.
    pub fn new(mmsi: &str, context: &str, now: u64) -> (r: Self)
        ensures
            r@ == TargetView::fresh(
                mmsi@,
                context@,
                ClassThresholds::for_class(class_of(mmsi@)),
                now,
            ),
    {
        let thresholds = ClassThresholds::for_class(classify_mmsi(mmsi));
        TrackedTarget::with_thresholds(mmsi, context, thresholds, now)
    }

    /// A target that is first seen now.
    pub fn with_thresholds(
        mmsi: &str,
        context: &str,
        thresholds: ClassThresholds,
        now: u64,
    ) -> (r: Self)
        ensures
            r@ == TargetView::fresh(mmsi@, context@, thresholds, now),
    {
        TrackedTarget {
            class: classify_mmsi(mmsi),
            mmsi: mmsi.to_string(),
            context: context.to_string(),
            status: TargetStatus::Unconfirmed,
            thresholds,
            first_seen: now,
            last_seen: now,
            message_count: 0,
            recent_messages: Vec::new(),
            name: None,
            callsign: None,
            position: None,
            sog: None,
            cog: None,
            heading: None,
            cpa: None,
            cpa_level: None,
        }
    }

    /// Drops the messages that arrived before `from`.
    fn prune(&mut self, from: u64)
        ensures
            final(self)@ == (TargetView {
                recent_messages: arrived_since(old(self)@.recent_messages, from as int),
                ..old(self)@
            }),
    {
        let mut kept: Vec<u64> = Vec::new();
        let mut i: usize = 0;
        while i < self.recent_messages.len()
            invariant
                i <= self.recent_messages@.len(),
                *self == *old(self),
                kept@ == arrived_since(self.recent_messages@.take(i as int), from as int),
            decreases self.recent_messages@.len() - i,
        {
            proof {
                let next = self.recent_messages@.take(i + 1);
                assert(next.drop_last() =~= self.recent_messages@.take(i as int));
                assert(next.last() == self.recent_messages@[i as int]);
            }
            if self.recent_messages[i] >= from {
                kept.push(self.recent_messages[i]);
            }
            i += 1;
        }
        assert(self.recent_messages@.take(i as int) =~= self.recent_messages@);
        self.recent_messages = kept;
    }

    /// Records a message that arrives now. Returns the transition that it causes, if
    /// any.
    pub fn record_message(&mut self, now: u64) -> (r: Option<StatusTransition>)
        requires
            old(self).message_count < u32::MAX,
        ensures
            final(self)@ == old(self)@.recorded(now),
            opt_transition(r) == old(self)@.transition_to(old(self)@.next_status(now)),
    {
        self.last_seen = now;
        self.message_count = self.message_count + 1;
        self.recent_messages.push(now);

        let window: u128 = self.thresholds.confirm_window as u128 * 1_000_000_000;
        let from: u64 = if now as u128 >= window {
            (now as u128 - window) as u64
        } else {
            now
        };
        self.prune(from);

        let old_status = self.status;
        let new_status = match self.status {
            TargetStatus::Unconfirmed => if self.recent_messages.len() as u64
                >= self.thresholds.confirm_count as u64 {
                TargetStatus::Confirmed
            } else {
                TargetStatus::Unconfirmed
            },
            TargetStatus::Lost => TargetStatus::Confirmed,
            TargetStatus::Confirmed => TargetStatus::Confirmed,
        };
        if old_status == TargetStatus::Lost {
            let mut only: Vec<u64> = Vec::new();
            only.push(now);
            self.recent_messages = only;
            assert(self.recent_messages@ =~= seq![now]);
        }
        self.status = new_status;
        if new_status == old_status {
            None
        } else {
            Some(
                StatusTransition {
                    mmsi: self.mmsi.clone(),
                    context: self.context.clone(),
                    old_status,
                    new_status,
                },
            )
        }
    }

    /// Takes over one received value.
    fn update_from_value(&mut self, path: &str, value: &Json)
        ensures
            final(self)@ == old(self)@.with_value(path@, value@),
    {
        if equal(path, "name") {
            self.name = owned(value.as_str());
        } else if equal(path, "communication.callsignVhf") {
            self.callsign = owned(value.as_str());
        } else if equal(path, "navigation.position") {
            if let Some(p) = position_of(value) {
                self.position = Some(p);
            }
        } else if equal(path, "navigation.speedOverGround") {
            self.sog = value.as_real();
        } else if equal(path, "navigation.courseOverGroundTrue") {
            self.cog = value.as_real();
        } else if equal(path, "navigation.headingTrue") {
            self.heading = value.as_real();
        }
    }

    /// Takes over the data that received values tell of the target.
    pub fn update_from_values(&mut self, values: &Vec<Reading>)
        ensures
            final(self)@ == old(self)@.with_values(readings(values@)),
    {
        let mut i: usize = 0;
        while i < values.len()
            invariant
                i <= values@.len(),
                self@ == old(self)@.with_values(readings(values@).take(i as int)),
            decreases values@.len() - i,
        {
            proof {
                let next = readings(values@).take(i + 1);
                assert(next.drop_last() =~= readings(values@).take(i as int));
                assert(next.last() == values@[i as int]@);
            }
            self.update_from_value(values[i].path.as_str(), &values[i].value);
            i += 1;
        }
        assert(readings(values@).take(i as int) =~= readings(values@));
    }
}

// ---------------------------------------------------------------------------
// The tracker
// ---------------------------------------------------------------------------

/// What the context of a vessel with an MMSI starts with.
pub open spec fn mmsi_prefix() -> Seq<char> {
    "vessels.urn:mrn:imo:mmsi:"@
}

/// The target at position `i` has the given MMSI.
pub open spec fn tracked_at(list: Seq<TargetView>, mmsi: Seq<char>, i: int) -> bool {
    0 <= i < list.len() && list[i].mmsi == mmsi
}

/// A target with the given MMSI is tracked.
pub open spec fn is_tracked(list: Seq<TargetView>, mmsi: Seq<char>) -> bool {
    exists|i: int| tracked_at(list, mmsi, i)
}

/// Where the target with the given MMSI stands.
pub open spec fn place_of(list: Seq<TargetView>, mmsi: Seq<char>) -> int {
    choose|i: int| tracked_at(list, mmsi, i)
}

/// The target with the given MMSI.
pub open spec fn lookup(list: Seq<TargetView>, mmsi: Seq<char>) -> Option<TargetView> {
    if is_tracked(list, mmsi) {
        Some(list[place_of(list, mmsi)])
    } else {
        None
    }
}

/// No MMSI is tracked twice, and every target's context tells its MMSI.
pub open spec fn consistent(list: Seq<TargetView>) -> bool {
    &&& forall|i: int, j: int|
        0 <= i < j < list.len() ==> #[trigger] list[i].mmsi != #[trigger] list[j].mmsi
    &&& forall|i: int| 0 <= i < list.len() ==> (#[trigger] list[i]).context == mmsi_prefix()
        + list[i].mmsi
}

/// The targets after a message from `mmsi` that arrives now.
pub open spec fn observed(
    list: Seq<TargetView>,
    mmsi: Seq<char>,
    thresholds: ClassThresholds,
    values: Seq<ReadingView>,
    now: u64,
) -> Seq<TargetView> {
    if is_tracked(list, mmsi) {
        let i = place_of(list, mmsi);
        list.update(i, list[i].with_values(values).recorded(now))
    } else {
        list.push(sighted(list, mmsi, thresholds, now).with_values(values).recorded(now))
    }
}

/// The target that a message from `mmsi` is about: the one tracked, or a new one.
pub open spec fn sighted(
    list: Seq<TargetView>,
    mmsi: Seq<char>,
    thresholds: ClassThresholds,
    now: u64,
) -> TargetView {
    match lookup(list, mmsi) {
        Some(t) => t,
        None => TargetView::fresh(mmsi, mmsi_prefix() + mmsi, thresholds, now),
    }
}

/// Nanoseconds since the target was last heard.
pub open spec fn silence(t: TargetView, now: u64) -> int {
    if now >= t.last_seen {
        now - t.last_seen
    } else {
        0
    }
}

/// What becomes of a target with the passing of time: nothing, lost, or removed.
pub open spec fn aged(t: TargetView, now: u64) -> Option<TargetView> {
    match t.status {
        TargetStatus::Unconfirmed => if silence(t, now) > nanos(
            t.thresholds.confirm_window as int,
        ) {
            None
        } else {
            Some(t)
        },
        TargetStatus::Confirmed => if silence(t, now) > nanos(t.thresholds.lost_after as int) {
            Some(TargetView { status: TargetStatus::Lost, ..t })
        } else {
            Some(t)
        },
        TargetStatus::Lost => if silence(t, now) > nanos(
            t.thresholds.lost_after + t.thresholds.remove_after,
        ) {
            None
        } else {
            Some(t)
        },
    }
}

/// The targets that are left with the passing of time.
pub open spec fn aged_targets(list: Seq<TargetView>, now: u64) -> Seq<TargetView>
    decreases list.len(),
{
    if list.len() == 0 {
        Seq::empty()
    } else {
        match aged(list.last(), now) {
            Some(t) => aged_targets(list.drop_last(), now).push(t),
            None => aged_targets(list.drop_last(), now),
        }
    }
}

/// The transition of a target with the passing of time. Removal is none.
pub open spec fn aging_transition(t: TargetView, now: u64) -> Option<TransitionView> {
    match aged(t, now) {
        Some(after) => t.transition_to(after.status),
        None => None,
    }
}

/// The transitions of all targets with the passing of time.
pub open spec fn aging_transitions(list: Seq<TargetView>, now: u64) -> Seq<TransitionView>
    decreases list.len(),
{
    if list.len() == 0 {
        Seq::empty()
    } else {
        match aging_transition(list.last(), now) {
            Some(t) => aging_transitions(list.drop_last(), now).push(t),
            None => aging_transitions(list.drop_last(), now),
        }
    }
}

/// How many targets have the given status.
pub open spec fn count_of(list: Seq<TargetView>, status: TargetStatus) -> nat
    decreases list.len(),
{
    if list.len() == 0 {
        0
    } else if list.last().status == status {
        count_of(list.drop_last(), status) + 1
    } else {
        count_of(list.drop_last(), status)
    }
}

/// What the approach of a target is computed from.
#[derive(Debug)]
pub struct CpaSnapshot {
    pub mmsi: String,
    pub context: String,
    pub lat: Real,
    pub lon: Real,
    pub sog_ms: Real,
    pub cog_rad: Real,
    /// Level of the collision notification that stands.
    pub cpa_level: Option<NotificationState>,
}

/// The view of a [`CpaSnapshot`].
pub struct SnapshotView {
    pub mmsi: Seq<char>,
    pub context: Seq<char>,
    pub lat: Real,
    pub lon: Real,
    pub sog_ms: Real,
    pub cog_rad: Real,
    pub cpa_level: Option<NotificationState>,
}

impl CpaSnapshot {
    pub open spec fn view(&self) -> SnapshotView {
        SnapshotView {
            mmsi: self.mmsi@,
            context: self.context@,
            lat: self.lat,
            lon: self.lon,
            sog_ms: self.sog_ms,
            cog_rad: self.cog_rad,
            cpa_level: self.cpa_level,
        }
    }
}

/// A reading, or zero where there is none.
#[verifier::allow_in_spec]
pub fn or_zero(reading: Option<Real>) -> (r: Real)
    returns
        (match reading {
            Some(x) => x,
            None => Real { bits: 0 },
        }),
{
    match reading {
        Some(x) => x,
        None => Real { bits: 0 },
    }
}

/// The snapshot of a target, if it is confirmed and its position is known.
pub open spec fn snapshot_of(t: TargetView) -> Option<SnapshotView> {
    match t.position {
        Some((lat, lon)) => if t.status is Confirmed {
            Some(
                SnapshotView {
                    mmsi: t.mmsi,
                    context: t.context,
                    lat,
                    lon,
                    sog_ms: or_zero(t.sog),
                    cog_rad: or_zero(t.cog),
                    cpa_level: t.cpa_level,
                },
            )
        } else {
            None
        },
        None => None,
    }
}

/// The snapshots of all confirmed targets whose position is known.
pub open spec fn snapshots_of(list: Seq<TargetView>) -> Seq<SnapshotView>
    decreases list.len(),
{
    if list.len() == 0 {
        Seq::empty()
    } else {
        match snapshot_of(list.last()) {
            Some(s) => snapshots_of(list.drop_last()).push(s),
            None => snapshots_of(list.drop_last()),
        }
    }
}

/// The targets after the approach of `mmsi` has been computed.
pub open spec fn with_cpa(
    list: Seq<TargetView>,
    mmsi: Seq<char>,
    cpa: CpaResult,
    level: Option<NotificationState>,
) -> Seq<TargetView> {
    if is_tracked(list, mmsi) {
        let i = place_of(list, mmsi);
        list.update(i, TargetView { cpa: Some(cpa), cpa_level: level, ..list[i] })
    } else {
        list
    }
}

/// Tracks AIS targets.
#[derive(Debug)]
pub struct AisTracker {
    targets: Vec<TrackedTarget>,
    self_uri: String,
    config: TrackerConfig,
}

/// The view of an [`AisTracker`].
pub struct TrackerView {
    pub targets: Seq<TargetView>,
    pub self_uri: Seq<char>,
    pub config: TrackerConfig,
}

/// A context that means the own vessel.
pub open spec fn is_own(context: Seq<char>, self_uri: Seq<char>) -> bool {
    has_suffix(context, self_uri) || context == "vessels.self"@
}

/// The MMSI of a target that a context tells of, if it tells of one.
pub open spec fn target_in(context: Seq<char>, self_uri: Seq<char>) -> Option<Seq<char>> {
    if is_own(context, self_uri) {
        None
    } else {
        after(context, mmsi_prefix())
    }
}

impl AisTracker {
    pub closed spec fn view(&self) -> TrackerView {
        TrackerView {
            targets: self.targets@.map_values(|t: TrackedTarget| t@),
            self_uri: self.self_uri@,
            config: self.config,
        }
    }

    /// No MMSI is tracked twice, and every target's context tells its MMSI.
    pub open spec fn wf(&self) -> bool {
        consistent(self@.targets)
    }

    /// A tracker with the default thresholds.
    pub fn new(self_uri: &str) -> (r: Self)
        ensures
            r.wf(),
            r@ == (TrackerView {
                targets: Seq::empty(),
                self_uri: self_uri@,
                config: TrackerConfig::none(),
            }),
    {
        AisTracker::with_config(self_uri, TrackerConfig::none())
    }

    /// A tracker that overrides some thresholds.
    pub fn with_config(self_uri: &str, config: TrackerConfig) -> (r: Self)
        ensures
            r.wf(),
            r@ == (TrackerView { targets: Seq::empty(), self_uri: self_uri@, config }),
    {
        let r = AisTracker { targets: Vec::new(), self_uri: self_uri.to_string(), config };
        assert(r@.targets =~= Seq::empty());
        r
    }

    /// Number of tracked targets.
    pub fn target_count(&self) -> (r: usize)
        ensures
            r == self@.targets.len(),
    {
        self.targets.len()
    }

    /// Numbers of confirmed, lost and unconfirmed targets.
    pub fn count_by_status(&self) -> (r: (usize, usize, usize))
        ensures
            r.0 == count_of(self@.targets, TargetStatus::Confirmed),
            r.1 == count_of(self@.targets, TargetStatus::Lost),
            r.2 == count_of(self@.targets, TargetStatus::Unconfirmed),
    {
        let ghost list = self@.targets;
        let mut confirmed: usize = 0;
        let mut lost: usize = 0;
        let mut unconfirmed: usize = 0;
        let mut i: usize = 0;
        while i < self.targets.len()
            invariant
                i <= self.targets@.len(),
                list == self@.targets,
                list.len() == self.targets.len(),
                confirmed == count_of(list.take(i as int), TargetStatus::Confirmed),
                lost == count_of(list.take(i as int), TargetStatus::Lost),
                unconfirmed == count_of(list.take(i as int), TargetStatus::Unconfirmed),
                confirmed + lost + unconfirmed == i,
            decreases self.targets@.len() - i,
        {
            proof {
                let next = list.take(i + 1);
                assert(next.drop_last() =~= list.take(i as int));
                assert(next.last() == self.targets@[i as int]@);
            }
            match self.targets[i].status {
                TargetStatus::Confirmed => {
                    confirmed += 1;
                },
                TargetStatus::Lost => {
                    lost += 1;
                },
                TargetStatus::Unconfirmed => {
                    unconfirmed += 1;
                },
            }
            i += 1;
        }
        assert(list.take(i as int) =~= list);
        (confirmed, lost, unconfirmed)
    }

    /// Where the target with the given MMSI stands.
    fn index_of(&self, mmsi: &str) -> (r: Option<usize>)
        requires
            self.wf(),
        ensures
            r is Some == is_tracked(self@.targets, mmsi@),
            r matches Some(i) ==> tracked_at(self@.targets, mmsi@, i as int) && i == place_of(
                self@.targets,
                mmsi@,
            ),
    {
        let ghost list = self@.targets;
        let mut i: usize = 0;
        while i < self.targets.len()
            invariant
                i <= self.targets@.len(),
                list == self@.targets,
                consistent(list),
                list.len() == self.targets@.len(),
                forall|k: int| 0 <= k < i ==> !tracked_at(list, mmsi@, k),
            decreases self.targets@.len() - i,
        {
            assert(list[i as int] == self.targets@[i as int]@);
            if equal(self.targets[i].mmsi.as_str(), mmsi) {
                assert(tracked_at(list, mmsi@, i as int));
                let ghost p = place_of(list, mmsi@);
                assert(p == i) by {
                    assert(tracked_at(list, mmsi@, p));
                    if p < i {
                        assert(list[p].mmsi != list[i as int].mmsi);
                    }
                    if i < p {
                        assert(list[i as int].mmsi != list[p].mmsi);
                    }
                }
                return Some(i);
            }
            i += 1;
        }
        None
    }

    /// The target with the given MMSI.
    pub fn get(&self, mmsi: &str) -> (r: Option<&TrackedTarget>)
        requires
            self.wf(),
        ensures
            (match r {
                Some(t) => Some(t@),
                None => None,
            }) == lookup(self@.targets, mmsi@),
    {
        match self.index_of(mmsi) {
            Some(i) => {
                assert(self@.targets[i as int] == self.targets@[i as int]@);
                Some(&self.targets[i])
            },
            None => None,
        }
    }

    /// The MMSI in a context such as `vessels.urn:mrn:imo:mmsi:211457160`.
    pub fn parse_mmsi(context: &str) -> (r: Option<&str>)
        ensures
            (match r {
                Some(m) => Some(m@),
                None => None,
            }) == after(context@, mmsi_prefix()),
    {
        strip_prefix(context, "vessels.urn:mrn:imo:mmsi:")
    }

    /// Takes in the values of a delta for a vessel context. The own vessel, and
    /// vessels without an MMSI, are ignored. Returns the transition that the message
    /// causes, if any.
    pub fn update_target(
        &mut self,
        context: &str,
        values: &Vec<Reading>,
        now: u64,
    ) -> (r: Option<StatusTransition>)
        requires
            old(self).wf(),
            target_in(context@, old(self)@.self_uri) matches Some(mmsi) ==> (lookup(
                old(self)@.targets,
                mmsi,
            ) matches Some(t) ==> t.message_count < u32::MAX),
        ensures
            final(self).wf(),
            final(self)@.self_uri == old(self)@.self_uri,
            final(self)@.config == old(self)@.config,
            match target_in(context@, old(self)@.self_uri) {
                None => r is None && final(self)@.targets == old(self)@.targets,
                Some(mmsi) => {
                    let list = old(self)@.targets;
                    let thresholds = old(self)@.config.thresholds(class_of(mmsi));
                    let target = sighted(list, mmsi, thresholds, now);
                    &&& final(self)@.targets == observed(
                        list,
                        mmsi,
                        thresholds,
                        readings(values@),
                        now,
                    )
                    &&& opt_transition(r) == target.transition_to(target.next_status(now))
                },
            },
    {
        if ends_with(context, self.self_uri.as_str()) || equal(context, "vessels.self") {
            return None;
        }
        let mmsi = match AisTracker::parse_mmsi(context) {
            Some(m) => m,
            None => {
                return None;
            },
        };
        let ghost list = self@.targets;
        let ghost old_targets = self.targets@;
        assert(context@ =~= mmsi_prefix() + mmsi@);
        match self.index_of(mmsi) {
            Some(i) => {
                assert(list[i as int] == self.targets@[i as int]@);
                let ghost before = self.targets@[i as int]@;
                proof {
                    keeps_identity(before, readings(values@));
                }
                let target = &mut self.targets[i];
                target.update_from_values(values);
                let r = target.record_message(now);
                proof {
                    let after = before.with_values(readings(values@)).recorded(now);
                    assert(self@.targets =~= list.update(i as int, after));
                    replaced_is_consistent(list, i as int, after);
                }
                r
            },
            None => {
                let thresholds = self.config.thresholds(classify_mmsi(mmsi));
                let mut target = TrackedTarget::with_thresholds(mmsi, context, thresholds, now);
                let ghost before = target@;
                proof {
                    keeps_identity(before, readings(values@));
                }
                target.update_from_values(values);
                let r = target.record_message(now);
                let ghost after = target@;
                self.targets.push(target);
                proof {
                    assert(self@.targets =~= list.push(after));
                    assert forall|i: int, j: int| 0 <= i < j < self@.targets.len() implies
                        #[trigger] self@.targets[i].mmsi != #[trigger] self@.targets[j].mmsi by {
                        if j == list.len() {
                            assert(!tracked_at(list, mmsi@, i));
                        }
                    }
                }
                r
            },
        }
    }

    /// Lets time pass: confirmed targets that have been silent too long are lost, and
    /// stale ones are removed. Returns the transitions.
    pub fn tick(&mut self, now: u64) -> (r: Vec<StatusTransition>)
        requires
            old(self).wf(),
        ensures
            final(self).wf(),
            final(self)@ == (TrackerView {
                targets: aged_targets(old(self)@.targets, now),
                ..old(self)@
            }),
            r@.map_values(|t: StatusTransition| t@) == aging_transitions(
                old(self)@.targets,
                now,
            ),
    {
        let ghost list = self@.targets;
        let mut transitions: Vec<StatusTransition> = Vec::new();
        let mut i: usize = 0;
        let ghost mut seen: int = 0;
        proof {
            assert(list.take(0) =~= Seq::empty());
            assert(transitions@.map_values(|t: StatusTransition| t@) =~= Seq::empty());
            assert(self@.targets =~= aged_targets(list.take(0), now) + list.skip(0));
        }
        while i < self.targets.len()
            invariant
                0 <= seen <= list.len(),
                i == aged_targets(list.take(seen), now).len(),
                self.targets@.len() == i + list.len() - seen,
                self@.targets == aged_targets(list.take(seen), now) + list.skip(seen),
                self@.self_uri == old(self)@.self_uri,
                self@.config == old(self)@.config,
                list == old(self)@.targets,
                transitions@.map_values(|t: StatusTransition| t@) == aging_transitions(
                    list.take(seen),
                    now,
                ),
            decreases list.len() - seen,
        {
            let ghost kept = aged_targets(list.take(seen), now);
            let ghost views = self@.targets;
            let ghost before = transitions@.map_values(|t: StatusTransition| t@);
            proof {
                let next = list.take(seen + 1);
                assert(next.drop_last() =~= list.take(seen));
                assert(next.last() == list[seen]);
                assert(views[i as int] == list[seen]);
                assert(views[i as int] == self.targets@[i as int]@);
                assert(list.skip(seen).skip(1) =~= list.skip(seen + 1));
            }
            let elapsed: u128 = if now >= self.targets[i].last_seen {
                (now - self.targets[i].last_seen) as u128
            } else {
                0
            };
            let t = self.targets[i].thresholds;
            match self.targets[i].status {
                TargetStatus::Unconfirmed => {
                    if elapsed > t.confirm_window as u128 * 1_000_000_000 {
                        self.targets.remove(i);
                        assert(self@.targets =~= views.remove(i as int));
                        assert(self@.targets =~= kept + list.skip(seen + 1));
                    } else {
                        i += 1;
                        assert(self@.targets =~= kept.push(list[seen]) + list.skip(seen + 1));
                    }
                },
                TargetStatus::Confirmed => {
                    if elapsed > t.lost_after as u128 * 1_000_000_000 {
                        transitions.push(
                            StatusTransition {
                                mmsi: self.targets[i].mmsi.clone(),
                                context: self.targets[i].context.clone(),
                                old_status: TargetStatus::Confirmed,
                                new_status: TargetStatus::Lost,
                            },
                        );
                        assert(transitions@.map_values(|t: StatusTransition| t@) =~= before.push(
                            aging_transition(list[seen], now)->0,
                        ));
                        let target = &mut self.targets[i];
                        target.status = TargetStatus::Lost;
                        assert(self@.targets =~= views.update(i as int, aged(list[seen], now)->0));
                        assert(self@.targets =~= kept.push(aged(list[seen], now)->0) + list.skip(
                            seen + 1,
                        ));
                    } else {
                        assert(self@.targets =~= kept.push(list[seen]) + list.skip(seen + 1));
                    }
                    i += 1;
                },
                TargetStatus::Lost => {
                    if elapsed > (t.lost_after as u128 + t.remove_after as u128) * 1_000_000_000 {
                        self.targets.remove(i);
                        assert(self@.targets =~= views.remove(i as int));
                        assert(self@.targets =~= kept + list.skip(seen + 1));
                    } else {
                        i += 1;
                        assert(self@.targets =~= kept.push(list[seen]) + list.skip(seen + 1));
                    }
                },
            }
            proof {
                seen = seen + 1;
            }
        }
        proof {
            assert(list.take(seen) =~= list);
            assert(list.skip(seen) =~= Seq::empty());
            assert(self@.targets =~= aged_targets(list, now));
            aging_keeps_consistency(list, now);
        }
        transitions
    }

    /// Snapshots of the confirmed targets whose position is known.
    pub fn targets_for_cpa(&self) -> (r: Vec<CpaSnapshot>)
        ensures
            r@.map_values(|s: CpaSnapshot| s@) == snapshots_of(self@.targets),
    {
        let ghost list = self@.targets;
        let mut out: Vec<CpaSnapshot> = Vec::new();
        assert(out@.map_values(|s: CpaSnapshot| s@) =~= Seq::empty());
        let mut i: usize = 0;
        while i < self.targets.len()
            invariant
                i <= self.targets@.len(),
                list == self@.targets,
                list.len() == self.targets@.len(),
                out@.map_values(|s: CpaSnapshot| s@) == snapshots_of(list.take(i as int)),
            decreases self.targets@.len() - i,
        {
            let t = &self.targets[i];
            let ghost before = out@.map_values(|s: CpaSnapshot| s@);
            proof {
                let next = list.take(i + 1);
                assert(next.drop_last() =~= list.take(i as int));
                assert(next.last() == t@);
            }
            if let (TargetStatus::Confirmed, Some((lat, lon))) = (t.status, t.position) {
                let snap = CpaSnapshot {
                    mmsi: t.mmsi.clone(),
                    context: t.context.clone(),
                    lat,
                    lon,
                    sog_ms: or_zero(t.sog),
                    cog_rad: or_zero(t.cog),
                    cpa_level: t.cpa_level,
                };
                let ghost view = snap@;
                out.push(snap);
                assert(out@.map_values(|s: CpaSnapshot| s@) =~= before.push(view));
            }
            i += 1;
        }
        assert(list.take(i as int) =~= list);
        out
    }

    /// Stores the computed approach of a target and the level of its notification, if the
    /// target is still tracked.
    pub fn update_target_cpa(
        &mut self,
        mmsi: &str,
        cpa: CpaResult,
        level: Option<NotificationState>,
    )
        requires
            old(self).wf(),
        ensures
            final(self).wf(),
            final(self)@ == (TrackerView {
                targets: with_cpa(old(self)@.targets, mmsi@, cpa, level),
                ..old(self)@
            }),
    {
        let ghost list = self@.targets;
        if let Some(i) = self.index_of(mmsi) {
            assert(list[i as int] == self.targets@[i as int]@);
            let target = &mut self.targets[i];
            target.cpa = Some(cpa);
            target.cpa_level = level;
            proof {
                let after = TargetView {
                    cpa: Some(cpa),
                    cpa_level: level,
                    ..list[i as int]
                };
                assert(self@.targets =~= list.update(i as int, after));
                replaced_is_consistent(list, i as int, after);
            }
        }
    }
}

/// Received values never change which vessel a target is, nor its lifecycle.
pub proof fn keeps_identity(t: TargetView, values: Seq<ReadingView>)
    ensures
        t.with_values(values).mmsi == t.mmsi,
        t.with_values(values).context == t.context,
        t.with_values(values).status == t.status,
        t.with_values(values).thresholds == t.thresholds,
        t.with_values(values).message_count == t.message_count,
        t.with_values(values).recent_messages == t.recent_messages,
        t.with_values(values).last_seen == t.last_seen,
    decreases values.len(),
{
    if values.len() > 0 {
        keeps_identity(t, values.drop_last());
    }
}

proof fn replaced_is_consistent(list: Seq<TargetView>, i: int, t: TargetView)
    requires
        consistent(list),
        0 <= i < list.len(),
        t.mmsi == list[i].mmsi,
        t.context == list[i].context,
    ensures
        consistent(list.update(i, t)),
{
    let next = list.update(i, t);
    assert forall|a: int, b: int| 0 <= a < b < next.len() implies #[trigger] next[a].mmsi
        != #[trigger] next[b].mmsi by {
        assert(next[a].mmsi == list[a].mmsi);
        assert(next[b].mmsi == list[b].mmsi);
    }
}

/// What is left after aging comes from targets that were there.
pub proof fn aged_come_from(list: Seq<TargetView>, now: u64, i: int) -> (j: int)
    requires
        0 <= i < aged_targets(list, now).len(),
    ensures
        0 <= j < list.len(),
        aged(list[j], now) == Some(aged_targets(list, now)[i]),
    decreases list.len(),
{
    let rest = list.drop_last();
    match aged(list.last(), now) {
        Some(t) => {
            if i == aged_targets(rest, now).len() {
                list.len() - 1
            } else {
                aged_come_from(rest, now, i)
            }
        },
        None => aged_come_from(rest, now, i),
    }
}

/// Aging leaves no MMSI tracked twice.
pub proof fn aging_keeps_consistency(list: Seq<TargetView>, now: u64)
    requires
        consistent(list),
    ensures
        consistent(aged_targets(list, now)),
    decreases list.len(),
{
    if list.len() > 0 {
        let rest = list.drop_last();
        assert(consistent(rest)) by {
            assert forall|i: int, j: int| 0 <= i < j < rest.len() implies #[trigger] rest[i].mmsi
                != #[trigger] rest[j].mmsi by {
                assert(list[i].mmsi != list[j].mmsi);
            }
        }
        aging_keeps_consistency(rest, now);
        let done = aged_targets(rest, now);
        let next = aged_targets(list, now);
        if let Some(t) = aged(list.last(), now) {
            assert forall|i: int, j: int| 0 <= i < j < next.len() implies #[trigger] next[i].mmsi
                != #[trigger] next[j].mmsi by {
                if j == done.len() {
                    let k = aged_come_from(rest, now, i);
                    assert(list[k].mmsi != list[list.len() - 1].mmsi);
                } else {
                    assert(done[i].mmsi != done[j].mmsi);
                }
            }
        }
    }
}

} // verus!
