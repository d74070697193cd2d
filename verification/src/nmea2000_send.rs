//! Signal K values, turned into NMEA 2000 messages for a CAN bus.
use crate::incoming::{
    all_values, readings, update_views, Incoming, Reading, ReadingView,
};
use crate::json::number_in;
use crate::number::Real;
use crate::pgn::{next_sid, Content, Message, APPARENT_WIND, TRUE_NORTH};
use crate::text::{equal, join};
use vstd::prelude::*;
use vstd::string::*;

verus! {

/// The default CAN interface.
pub fn default_interface() -> (r: String)
    ensures
        r@ == "can0"@,
{
    "can0".to_string()
}

/// The default source address.
#[verifier::allow_in_spec]
pub fn default_source_address() -> (r: u8)
    returns
        100u8,
{
    100
}

/// The default time between two rounds of messages, in milliseconds.
#[verifier::allow_in_spec]
pub fn default_interval() -> (r: u64)
    returns
        1000u64,
{
    1000
}

/// How messages are sent.
#[derive(Debug, Clone)]
pub struct SendConfig {
    pub interface: String,
    pub source_address: u8,
    pub interval_ms: u64,
}

impl Default for SendConfig {
    fn default() -> (r: Self)
        ensures
            r.interface@ == "can0"@,
            r.source_address == default_source_address(),
            r.interval_ms == default_interval(),
    {
        SendConfig {
            interface: default_interface(),
            source_address: default_source_address(),
            interval_ms: default_interval(),
        }
    }
}

impl SendConfig {
    /// The status to report while messages are sent.
    pub fn status(&self) -> (r: String)
        ensures
            r@ == "CAN "@ + self.interface@,
    {
        join("CAN ", self.interface.as_str())
    }
}

/// The latest values of the own vessel.
#[derive(Debug, Clone, Copy)]
pub struct Snapshot {
    pub heading_true_rad: Option<Real>,
    pub magnetic_variation_rad: Option<Real>,
    pub cog_true_rad: Option<Real>,
    pub sog_mps: Option<Real>,
    pub wind_speed_apparent_mps: Option<Real>,
    pub wind_angle_apparent_rad: Option<Real>,
}

impl Snapshot {
    /// A snapshot without values.
    #[verifier::allow_in_spec]
    pub fn empty() -> (r: Snapshot)
        returns
            (Snapshot {
                heading_true_rad: None,
                magnetic_variation_rad: None,
                cog_true_rad: None,
                sog_mps: None,
                wind_speed_apparent_mps: None,
                wind_angle_apparent_rad: None,
            }),
    {
        Snapshot {
            heading_true_rad: None,
            magnetic_variation_rad: None,
            cog_true_rad: None,
            sog_mps: None,
            wind_speed_apparent_mps: None,
            wind_angle_apparent_rad: None,
        }
    }

    /// The snapshot after one received value.
    pub open spec fn with_reading(self, r: ReadingView) -> Snapshot {
        if r.path == "navigation.headingTrue"@ {
            Snapshot { heading_true_rad: number_in(r.value), ..self }
        } else if r.path == "navigation.magneticVariation"@ {
            Snapshot { magnetic_variation_rad: number_in(r.value), ..self }
        } else if r.path == "navigation.courseOverGroundTrue"@ {
            Snapshot { cog_true_rad: number_in(r.value), ..self }
        } else if r.path == "navigation.speedOverGround"@ {
            Snapshot { sog_mps: number_in(r.value), ..self }
        } else if r.path == "environment.wind.speedApparent"@ {
            Snapshot { wind_speed_apparent_mps: number_in(r.value), ..self }
        } else if r.path == "environment.wind.angleApparent"@ {
            Snapshot { wind_angle_apparent_rad: number_in(r.value), ..self }
        } else {
            self
        }
    }

    /// The snapshot after some received values.
    pub open spec fn with_readings(self, values: Seq<ReadingView>) -> Snapshot
        decreases values.len(),
    {
        if values.len() == 0 {
            self
        } else {
            self.with_readings(values.drop_last()).with_reading(values.last())
        }
    }

    /// Takes in one received value.
    fn take_reading(&mut self, r: &Reading)
        ensures
            *final(self) == old(self).with_reading(r@),
    {
        let path = r.path.as_str();
        if equal(path, "navigation.headingTrue") {
            self.heading_true_rad = r.value.as_real();
        } else if equal(path, "navigation.magneticVariation") {
            self.magnetic_variation_rad = r.value.as_real();
        } else if equal(path, "navigation.courseOverGroundTrue") {
            self.cog_true_rad = r.value.as_real();
        } else if equal(path, "navigation.speedOverGround") {
            self.sog_mps = r.value.as_real();
        } else if equal(path, "environment.wind.speedApparent") {
            self.wind_speed_apparent_mps = r.value.as_real();
        } else if equal(path, "environment.wind.angleApparent") {
            self.wind_angle_apparent_rad = r.value.as_real();
        }
    }

    /// Takes in all values of a delta.
    pub fn update_from_delta(&mut self, delta: &Incoming)
        ensures
            *final(self) == old(self).with_readings(all_values(update_views(delta.updates@))),
    {
        let ghost updates = update_views(delta.updates@);
        let ghost start = *self;
        let mut i: usize = 0;
        assert(updates.take(0) =~= Seq::empty());
        while i < delta.updates.len()
            invariant
                i <= delta.updates@.len(),
                updates == update_views(delta.updates@),
                *self == start.with_readings(all_values(updates.take(i as int))),
            decreases delta.updates@.len() - i,
        {
            let update = &delta.updates[i];
            let ghost values = readings(update.values@);
            let ghost done = all_values(updates.take(i as int));
            let mut j: usize = 0;
            assert(done + values.take(0) =~= done);
            while j < update.values.len()
                invariant
                    j <= update.values@.len(),
                    values == readings(update.values@),
                    *self == start.with_readings(done + values.take(j as int)),
                decreases update.values@.len() - j,
            {
                proof {
                    let next = done + values.take(j + 1);
                    assert(next.drop_last() =~= done + values.take(j as int));
                    assert(next.last() == update.values@[j as int]@);
                }
                self.take_reading(&update.values[j]);
                j += 1;
            }
            proof {
                assert(values.take(j as int) =~= values);
                let next = updates.take(i + 1);
                assert(next.drop_last() =~= updates.take(i as int));
                assert(next.last() == update@);
            }
            i += 1;
        }
        assert(updates.take(i as int) =~= updates);
    }
}

/// The number in the last of some values under a path, or what was there before.
pub open spec fn latest(
    values: Seq<ReadingView>,
    path: Seq<char>,
    before: Option<Real>,
) -> Option<Real>
    decreases values.len(),
{
    if values.len() == 0 {
        before
    } else if values.last().path == path {
        number_in(values.last().value)
    } else {
        latest(values.drop_last(), path, before)
    }
}

/// A snapshot holds the latest value under each of its paths, whatever else was received.
pub proof fn snapshot_keeps_latest(snap: Snapshot, values: Seq<ReadingView>)
    ensures
        snap.with_readings(values).heading_true_rad == latest(
            values,
            "navigation.headingTrue"@,
            snap.heading_true_rad,
        ),
        snap.with_readings(values).magnetic_variation_rad == latest(
            values,
            "navigation.magneticVariation"@,
            snap.magnetic_variation_rad,
        ),
        snap.with_readings(values).cog_true_rad == latest(
            values,
            "navigation.courseOverGroundTrue"@,
            snap.cog_true_rad,
        ),
        snap.with_readings(values).sog_mps == latest(
            values,
            "navigation.speedOverGround"@,
            snap.sog_mps,
        ),
        snap.with_readings(values).wind_speed_apparent_mps == latest(
            values,
            "environment.wind.speedApparent"@,
            snap.wind_speed_apparent_mps,
        ),
        snap.with_readings(values).wind_angle_apparent_rad == latest(
            values,
            "environment.wind.angleApparent"@,
            snap.wind_angle_apparent_rad,
        ),
    decreases values.len(),
{
    reveal_strlit("navigation.headingTrue");
    reveal_strlit("navigation.magneticVariation");
    reveal_strlit("navigation.courseOverGroundTrue");
    reveal_strlit("navigation.speedOverGround");
    reveal_strlit("environment.wind.speedApparent");
    reveal_strlit("environment.wind.angleApparent");
    assert("navigation.headingTrue"@.len() == 22);
    assert("navigation.magneticVariation"@.len() == 28);
    assert("navigation.courseOverGroundTrue"@.len() == 31);
    assert("navigation.speedOverGround"@.len() == 26);
    assert("environment.wind.speedApparent"@.len() == 30);
    assert("environment.wind.angleApparent"@.len() == 30);
    assert("environment.wind.speedApparent"@[17] == 's');
    assert("environment.wind.angleApparent"@[17] == 'a');
    if values.len() > 0 {
        snapshot_keeps_latest(snap, values.drop_last());
    }
}

/// `round`, followed by a message if it is due. Every message takes the next sequence identifier.
pub open spec fn with_message(round: (Seq<Message>, u8), due: bool, content: Content) -> (
    Seq<Message>,
    u8,
) {
    if due {
        (round.0.push(Message::new(2, content)), next_sid(round.1))
    } else {
        round
    }
}

/// The messages of one round, and the sequence identifier for the next one: the heading, course
/// and speed, and the wind, each as soon as there is a value for it.
pub open spec fn round_of(snap: Snapshot, sid: u8) -> (Seq<Message>, u8) {
    let heading = match snap.heading_true_rad {
        Some(heading) => with_message(
            (Seq::empty(), sid),
            true,
            Content::Heading {
                sid,
                heading,
                reference: TRUE_NORTH,
                variation: snap.magnetic_variation_rad,
            },
        ),
        None => (Seq::empty(), sid),
    };
    let course = with_message(
        heading,
        snap.cog_true_rad is Some || snap.sog_mps is Some,
        Content::CogSog {
            sid: heading.1,
            cog_reference: TRUE_NORTH,
            cog: snap.cog_true_rad,
            sog: snap.sog_mps,
        },
    );
    with_message(
        course,
        snap.wind_speed_apparent_mps is Some || snap.wind_angle_apparent_rad is Some,
        Content::Wind {
            sid: course.1,
            reference: APPARENT_WIND,
            speed: snap.wind_speed_apparent_mps,
            angle: snap.wind_angle_apparent_rad,
        },
    )
}

/// The messages of one round.
pub fn build_pgns(snap: &Snapshot, sid: &mut u8) -> (out: Vec<Message>)
    ensures
        (out@, *final(sid)) == round_of(*snap, *old(sid)),
{
    let mut out: Vec<Message> = Vec::new();
    assert(out@ =~= Seq::empty());
    match snap.heading_true_rad {
        Some(heading) => {
            out.push(
                Message::new(
                    2,
                    Content::Heading {
                        sid: *sid,
                        heading,
                        reference: TRUE_NORTH,
                        variation: snap.magnetic_variation_rad,
                    },
                ),
            );
            *sid = next_sid(*sid);
        },
        None => {},
    }
    if snap.cog_true_rad.is_some() || snap.sog_mps.is_some() {
        out.push(
            Message::new(
                2,
                Content::CogSog {
                    sid: *sid,
                    cog_reference: TRUE_NORTH,
                    cog: snap.cog_true_rad,
                    sog: snap.sog_mps,
                },
            ),
        );
        *sid = next_sid(*sid);
    }
    if snap.wind_speed_apparent_mps.is_some() || snap.wind_angle_apparent_rad.is_some() {
        out.push(
            Message::new(
                2,
                Content::Wind {
                    sid: *sid,
                    reference: APPARENT_WIND,
                    speed: snap.wind_speed_apparent_mps,
                    angle: snap.wind_angle_apparent_rad,
                },
            ),
        );
        *sid = next_sid(*sid);
    }
    out
}

/// The sequence identifier moves on by one per message, and starts again at zero after 255.
pub proof fn sid_counts_messages(snap: Snapshot, sid: u8)
    ensures
        round_of(snap, sid).0.len() <= 3,
        round_of(snap, sid).1 == (sid + round_of(snap, sid).0.len()) % 256,
{
}

/// The messages of one kind in a round.
pub open spec fn of_group(round: Seq<Message>, pgn: u32) -> Seq<Message> {
    round.filter(|m: Message| m.pgn == pgn)
}

/// A message more is one more of its own kind.
proof fn one_more_message(round: Seq<Message>, m: Message, pgn: u32)
    ensures
        of_group(round.push(m), pgn) == if m.pgn == pgn {
            of_group(round, pgn).push(m)
        } else {
            of_group(round, pgn)
        },
{
    reveal(Seq::filter);
    assert(round.push(m).drop_last() =~= round);
}

/// No messages, none of any kind.
proof fn no_message_of_a_group(pgn: u32)
    ensures
        of_group(Seq::<Message>::empty(), pgn) == Seq::<Message>::empty(),
{
    reveal(Seq::filter);
}

/// The messages of a round of each kind, one after the other.
proof fn round_by_groups(snap: Snapshot, sid: u8, pgn: u32)
    ensures
        ({
            let round = round_of(snap, sid).0;
            let heading = snap.heading_true_rad is Some;
            let course = snap.cog_true_rad is Some || snap.sog_mps is Some;
            let wind = snap.wind_speed_apparent_mps is Some || snap.wind_angle_apparent_rad is Some;
            &&& pgn == 127250 && !heading ==> of_group(round, pgn).len() == 0
            &&& pgn == 129026 && !course ==> of_group(round, pgn).len() == 0
            &&& pgn == 130306 && !wind ==> of_group(round, pgn).len() == 0
            &&& pgn == 127250 && heading ==> of_group(round, pgn).len() == 1 && round[0]
                == of_group(round, pgn)[0] && round[0].content is Heading
            &&& pgn == 129026 && course ==> of_group(round, pgn).len() == 1 && round.contains(
                of_group(round, pgn)[0],
            ) && of_group(round, pgn)[0].content is CogSog
            &&& pgn == 130306 && wind ==> of_group(round, pgn).len() == 1 && round.contains(
                of_group(round, pgn)[0],
            ) && of_group(round, pgn)[0].content is Wind
        }),
{
    no_message_of_a_group(pgn);
    let none = Seq::<Message>::empty();
    let h = match snap.heading_true_rad {
        Some(heading) => {
            let m = Message::new(
                2,
                Content::Heading {
                    sid,
                    heading,
                    reference: TRUE_NORTH,
                    variation: snap.magnetic_variation_rad,
                },
            );
            one_more_message(none, m, pgn);
            (none.push(m), next_sid(sid))
        },
        None => (none, sid),
    };
    let m = Message::new(
        2,
        Content::CogSog {
            sid: h.1,
            cog_reference: TRUE_NORTH,
            cog: snap.cog_true_rad,
            sog: snap.sog_mps,
        },
    );
    one_more_message(h.0, m, pgn);
    let c = if snap.cog_true_rad is Some || snap.sog_mps is Some {
        (h.0.push(m), next_sid(h.1))
    } else {
        h
    };
    let w = Message::new(
        2,
        Content::Wind {
            sid: c.1,
            reference: APPARENT_WIND,
            speed: snap.wind_speed_apparent_mps,
            angle: snap.wind_angle_apparent_rad,
        },
    );
    one_more_message(c.0, w, pgn);
    let round = round_of(snap, sid).0;
    if snap.cog_true_rad is Some || snap.sog_mps is Some {
        assert(round[h.0.len() as int] == m);
    }
    if snap.wind_speed_apparent_mps is Some || snap.wind_angle_apparent_rad is Some {
        assert(round[c.0.len() as int] == w);
    }
}

/// A round holds a heading message (127250) exactly where the heading is known: one, with that
/// heading by true north, and the variation as far as it is known.
pub proof fn heading_is_sent(snap: Snapshot, sid: u8)
    ensures
        ({
            let sent = of_group(round_of(snap, sid).0, 127250);
            match snap.heading_true_rad {
                Some(h) => sent.len() == 1 && (sent[0].content matches Content::Heading {
                    heading,
                    reference,
                    variation,
                    ..
                } && heading == h && reference == 0 && variation == snap.magnetic_variation_rad),
                None => sent.len() == 0,
            }
        }),
{
    round_by_groups(snap, sid, 127250);
}

/// A round holds a course and speed message (129026) exactly where one of the two is known:
/// one, with that course by true north and that speed, as far as they are known.
pub proof fn course_and_speed_are_sent(snap: Snapshot, sid: u8)
    ensures
        ({
            let sent = of_group(round_of(snap, sid).0, 129026);
            if snap.cog_true_rad is Some || snap.sog_mps is Some {
                sent.len() == 1 && (sent[0].content matches Content::CogSog {
                    cog_reference,
                    cog,
                    sog,
                    ..
                } && cog_reference == 0 && cog == snap.cog_true_rad && sog == snap.sog_mps)
            } else {
                sent.len() == 0
            }
        }),
{
    round_by_groups(snap, sid, 129026);
}

/// A round holds a wind message (130306) exactly where speed or angle is known: one, with that
/// speed and that angle of the apparent wind, as far as they are known.
pub proof fn wind_is_sent(snap: Snapshot, sid: u8)
    ensures
        ({
            let sent = of_group(round_of(snap, sid).0, 130306);
            if snap.wind_speed_apparent_mps is Some || snap.wind_angle_apparent_rad is Some {
                sent.len() == 1 && (sent[0].content matches Content::Wind {
                    reference,
                    speed,
                    angle,
                    ..
                } && reference == 2 && speed == snap.wind_speed_apparent_mps && angle
                    == snap.wind_angle_apparent_rad)
            } else {
                sent.len() == 0
            }
        }),
{
    round_by_groups(snap, sid, 130306);
}

/// Every message of a round has priority 2 and one of the three kinds, and the messages are
/// numbered one after the other.
pub proof fn round_is_in_order(snap: Snapshot, sid: u8, i: int)
    requires
        0 <= i < round_of(snap, sid).0.len(),
    ensures
        ({
            let m = round_of(snap, sid).0[i];
            let number = (sid + i) % 256;
            &&& m.priority == 2
            &&& match m.content {
                Content::Heading { sid: n, .. } => m.pgn == 127250 && n == number && i == 0,
                Content::CogSog { sid: n, .. } => m.pgn == 129026 && n == number,
                Content::Wind { sid: n, .. } => m.pgn == 130306 && n == number && i == round_of(
                    snap,
                    sid,
                ).0.len() - 1,
                _ => false,
            }
        }),
{
}

/// Without values nothing is sent.
pub proof fn empty_snapshot_sends_nothing(sid: u8)
    ensures
        round_of(Snapshot::empty(), sid) == (Seq::<Message>::empty(), sid),
{
}

} // verus!
