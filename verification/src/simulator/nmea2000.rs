//! Simulated data as NMEA 2000 messages.
use super::SimulatedValues;
use crate::pgn::{next_sid, Content, Message, APPARENT_WIND, MAGNETIC_NORTH, TRUE_NORTH};
use vstd::prelude::*;

verus! {

/// The messages of a step, and the sequence identifier for the next one. The position carries no
/// identifier; every other message takes the next one.
pub open spec fn step_messages(values: SimulatedValues, sid: u8, enable_environment: bool) -> (
    Seq<Message>,
    u8,
) {
    let s1 = next_sid(sid);
    let s2 = next_sid(s1);
    let s3 = next_sid(s2);
    let s4 = next_sid(s3);
    let s5 = next_sid(s4);
    let navigation = seq![
        Message::new(
            2,
            Content::Position { latitude: values.latitude, longitude: values.longitude },
        ),
        Message::new(
            2,
            Content::CogSog {
                sid,
                cog_reference: TRUE_NORTH,
                cog: Some(values.cog_rad),
                sog: Some(values.sog_mps),
            },
        ),
        Message::new(
            2,
            Content::Heading {
                sid: s1,
                heading: values.heading_magnetic_rad,
                reference: MAGNETIC_NORTH,
                variation: Some(values.magnetic_variation_rad),
            },
        ),
        Message::new(
            2,
            Content::Speed {
                sid: s2,
                water_referenced: values.stw_mps,
                ground_referenced: values.sog_mps,
            },
        ),
    ];
    if enable_environment {
        (
            navigation.push(
                Message::new(
                    2,
                    Content::Wind {
                        sid: s3,
                        reference: APPARENT_WIND,
                        speed: Some(values.wind_speed_apparent_mps),
                        angle: Some(values.wind_angle_apparent_rad),
                    },
                ),
            ).push(
                Message::new(
                    3,
                    Content::Depth {
                        sid: s4,
                        depth: values.depth_below_transducer_m,
                        offset: values.surface_to_transducer_m,
                    },
                ),
            ),
            s5,
        )
    } else {
        (navigation, s3)
    }
}

/// The messages of a step.
pub fn encode(values: &SimulatedValues, sid: &mut u8, enable_environment: bool) -> (out: Vec<
    Message,
>)
    ensures
        (out@, *final(sid)) == step_messages(*values, *old(sid), enable_environment),
{
    let mut out: Vec<Message> = Vec::new();
    out.push(
        Message::new(
            2,
            Content::Position { latitude: values.latitude, longitude: values.longitude },
        ),
    );
    out.push(
        Message::new(
            2,
            Content::CogSog {
                sid: *sid,
                cog_reference: TRUE_NORTH,
                cog: Some(values.cog_rad),
                sog: Some(values.sog_mps),
            },
        ),
    );
    *sid = next_sid(*sid);
    out.push(
        Message::new(
            2,
            Content::Heading {
                sid: *sid,
                heading: values.heading_magnetic_rad,
                reference: MAGNETIC_NORTH,
                variation: Some(values.magnetic_variation_rad),
            },
        ),
    );
    *sid = next_sid(*sid);
    out.push(
        Message::new(
            2,
            Content::Speed {
                sid: *sid,
                water_referenced: values.stw_mps,
                ground_referenced: values.sog_mps,
            },
        ),
    );
    *sid = next_sid(*sid);
    if enable_environment {
        out.push(
            Message::new(
                2,
                Content::Wind {
                    sid: *sid,
                    reference: APPARENT_WIND,
                    speed: Some(values.wind_speed_apparent_mps),
                    angle: Some(values.wind_angle_apparent_rad),
                },
            ),
        );
        *sid = next_sid(*sid);
        out.push(
            Message::new(
                3,
                Content::Depth {
                    sid: *sid,
                    depth: values.depth_below_transducer_m,
                    offset: values.surface_to_transducer_m,
                },
            ),
        );
        *sid = next_sid(*sid);
    }
    assert(out@ =~= step_messages(*values, *old(sid), enable_environment).0);
    out
}

/// The sequence identifier moves on by one per message, the position apart.
pub proof fn sid_skips_the_position(values: SimulatedValues, sid: u8, enable_environment: bool)
    ensures
        ({
            let (messages, next) = step_messages(values, sid, enable_environment);
            &&& messages[0].content is Position
            &&& next == (sid + messages.len() - 1) % 256
        }),
{
}

/// The environment adds to the messages and changes none of the others.
pub proof fn environment_only_adds(values: SimulatedValues, sid: u8)
    ensures
        step_messages(values, sid, true).0.take(4) == step_messages(values, sid, false).0,
        step_messages(values, sid, true).0.len() == 6,
{
    assert(step_messages(values, sid, true).0.take(4) =~= step_messages(values, sid, false).0);
}

} // verus!
