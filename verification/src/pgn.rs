//! NMEA 2000 messages that are to be sent.
use crate::number::Real;
use vstd::prelude::*;

verus! {

/// An angle that refers to true north.
pub const TRUE_NORTH: u8 = 0;

/// An angle that refers to magnetic north.
pub const MAGNETIC_NORTH: u8 = 1;

/// A wind as it is felt on board.
pub const APPARENT_WIND: u8 = 2;

/// The address that every device listens to.
pub const BROADCAST: u8 = 255;

/// The content of a message.
#[derive(Debug, Clone, Copy)]
pub enum Content {
    /// Position, rapid update.
    Position { latitude: Real, longitude: Real },
    /// Course and speed over ground, rapid update.
    CogSog { sid: u8, cog_reference: u8, cog: Option<Real>, sog: Option<Real> },
    /// Vessel heading.
    Heading { sid: u8, heading: Real, reference: u8, variation: Option<Real> },
    /// Speed through water and over ground.
    Speed { sid: u8, water_referenced: Real, ground_referenced: Real },
    /// Wind speed and angle.
    Wind { sid: u8, reference: u8, speed: Option<Real>, angle: Option<Real> },
    /// Depth below the transducer, and the transducer's place below the surface.
    Depth { sid: u8, depth: Real, offset: Real },
}

impl Content {
    /// The parameter group number.
    #[verifier::allow_in_spec]
    pub fn pgn(&self) -> (r: u32)
        returns
            (match self {
                Content::Position { .. } => 129025u32,
                Content::CogSog { .. } => 129026u32,
                Content::Heading { .. } => 127250u32,
                Content::Speed { .. } => 128259u32,
                Content::Wind { .. } => 130306u32,
                Content::Depth { .. } => 128267u32,
            }),
    {
        match self {
            Content::Position { .. } => 129025,
            Content::CogSog { .. } => 129026,
            Content::Heading { .. } => 127250,
            Content::Speed { .. } => 128259,
            Content::Wind { .. } => 130306,
            Content::Depth { .. } => 128267,
        }
    }
}

/// A message with its number and priority.
#[derive(Debug, Clone, Copy)]
pub struct Message {
    pub pgn: u32,
    pub priority: u8,
    pub content: Content,
}

impl Message {
    #[verifier::allow_in_spec]
    pub fn new(priority: u8, content: Content) -> (r: Message)
        returns
            (Message { pgn: content.pgn(), priority, content }),
    {
        Message { pgn: content.pgn(), priority, content }
    }
}

/// A message together with its bytes, if it could be encoded.
#[derive(Debug)]
pub struct Encoding {
    pub message: Message,
    pub data: Option<Vec<u8>>,
}

/// An encoded message, ready to send.
#[derive(Debug)]
pub struct EncodedPgn {
    pub pgn: u32,
    pub priority: u8,
    pub data: Vec<u8>,
}

/// The view of an [`EncodedPgn`].
pub struct EncodedView {
    pub pgn: u32,
    pub priority: u8,
    pub data: Seq<u8>,
}

impl EncodedPgn {
    pub open spec fn view(&self) -> EncodedView {
        EncodedView { pgn: self.pgn, priority: self.priority, data: self.data@ }
    }
}

/// The views of some encoded messages.
pub open spec fn encoded_views(list: Seq<EncodedPgn>) -> Seq<EncodedView> {
    list.map_values(|e: EncodedPgn| e@)
}

/// The messages that could be encoded, in order.
pub open spec fn sendable(list: Seq<Encoding>) -> Seq<EncodedView>
    decreases list.len(),
{
    if list.len() == 0 {
        Seq::empty()
    } else {
        let rest = sendable(list.drop_last());
        let e = list.last();
        match e.data {
            Some(data) => rest.push(
                EncodedView { pgn: e.message.pgn, priority: e.message.priority, data: data@ },
            ),
            None => rest,
        }
    }
}

/// Keeps the messages that could be encoded.
pub fn encoded(list: Vec<Encoding>) -> (out: Vec<EncodedPgn>)
    ensures
        encoded_views(out@) == sendable(list@),
{
    let ghost all = list@;
    let mut rest = list;
    let mut out: Vec<EncodedPgn> = Vec::new();
    let ghost mut done: int = 0;
    assert(encoded_views(out@) =~= Seq::empty());
    assert(all.take(0) =~= Seq::empty());
    assert(all.skip(0) =~= all);
    while rest.len() > 0
        invariant
            0 <= done <= all.len(),
            rest@ == all.skip(done),
            encoded_views(out@) == sendable(all.take(done)),
        decreases rest@.len(),
    {
        let e = rest.remove(0);
        proof {
            assert(rest@ =~= all.skip(done + 1));
            assert(all.take(done + 1).drop_last() =~= all.take(done));
            assert(all.take(done + 1).last() == e);
            done = done + 1;
        }
        match e.data {
            Some(data) => {
                let ghost before = encoded_views(out@);
                out.push(EncodedPgn { pgn: e.message.pgn, priority: e.message.priority, data });
                assert(encoded_views(out@) =~= before.push(
                    EncodedView { pgn: e.message.pgn, priority: e.message.priority, data: data@ },
                ));
            },
            None => {},
        }
    }
    assert(all.take(done) =~= all);
    out
}

/// The sequence identifier that follows another one.
#[verifier::allow_in_spec]
pub fn next_sid(sid: u8) -> (r: u8)
    returns
        (if sid == 255 {
            0u8
        } else {
            (sid + 1) as u8
        }),
{
    if sid == 255 {
        0
    } else {
        sid + 1
    }
}

} // verus!
