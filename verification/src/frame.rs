//! The frame adapter: the bridge between the outer frame-dispatch layer
//! and the capsule codec.
//!
//! The outer layer identifies frames by a numeric type and hands over an
//! already length-delimited payload slice once it has buffered the whole
//! frame. This adapter owns exactly one frame type — the datagram capsule
//! type — and declines every other: `is_known_type` is the routing
//! predicate, and `decode` re-decodes a recognized frame's payload as a
//! capsule.

use vstd::prelude::*;

use crate::capsule::spec_decode;
use crate::capsule::Capsule;
use crate::capsule::DecodeOutcome;
use crate::capsule::CAPSULE_TYPE_DATAGRAM;
use crate::codec::Decoder;
use crate::Error;
use crate::Res;

verus! {

/// The numeric frame-type identifier of the outer dispatch layer.
#[derive(PartialEq, Eq, Structural, Clone, Copy, Debug)]
pub struct HFrameType(pub u64);

/// A decoded datagram frame: the outer layer's view of a datagram
/// capsule. The payload bytes are owned.
#[derive(PartialEq, Eq, Debug)]
pub enum Frame {
    Datagram { payload: Vec<u8> },
}

impl Frame {
    /// The payload bytes this frame carries.
    pub open spec fn spec_payload(self) -> Seq<u8> {
        match self {
            Frame::Datagram { payload } => payload@,
        }
    }

    /// Decode a fully buffered frame of type `frame_type` whose payload
    /// is `data`, when the outer layer has buffered it (`None` means the
    /// declared length has not all arrived yet).
    ///
    /// Frames of any type other than the datagram capsule type are not
    /// this adapter's to decode and yield `Ok(None)` with the payload
    /// uninspected, as does a payload that holds less than a whole
    /// capsule or a whole capsule of an unknown inner type.
    pub fn decode(frame_type: HFrameType, _frame_len: u64, data: Option<&[u8]>) -> (r: Res<
        Option<Self>,
    >)
        ensures
            frame_type.0 != CAPSULE_TYPE_DATAGRAM ==> r == Res::<Option<Frame>>::Ok(None),
            frame_type.0 == CAPSULE_TYPE_DATAGRAM && data is None ==> r == Res::<
                Option<Frame>,
            >::Ok(None),
            (match data {
                Some(d) => frame_type.0 == CAPSULE_TYPE_DATAGRAM ==> (match spec_decode(d@) {
                    DecodeOutcome::Decoded { payload } => (r matches Ok(Some(Frame::Datagram {
                        payload: p,
                    })) && p@ == payload),
                    DecodeOutcome::LengthOverflow => r == Res::<Option<Frame>>::Err(
                        Error::HttpFrame,
                    ),
                    DecodeOutcome::NeedMoreData => r == Res::<Option<Frame>>::Ok(None),
                    DecodeOutcome::SkippedUnknown => r == Res::<Option<Frame>>::Ok(None),
                }),
                None => true,
            }),
    {
        if frame_type.0 == CAPSULE_TYPE_DATAGRAM {
            if let Some(bytes) = data {
                let mut decoder = Decoder::from(bytes);
                let capsule = match Capsule::decode(&mut decoder) {
                    Ok(c) => c,
                    Err(e) => {
                        return Err(e);
                    },
                };
                if let Some(capsule) = capsule {
                    match capsule {
                        Capsule::Datagram { payload } => {
                            return Ok(Some(Self::Datagram { payload }));
                        },
                    }
                }
            }
        }
        Ok(None)
    }

    /// Whether the outer dispatcher should route frames of type
    /// `frame_type` to this adapter: true only for the datagram capsule
    /// type.
    pub fn is_known_type(frame_type: HFrameType) -> (r: bool)
        ensures
            r <==> frame_type.0 == CAPSULE_TYPE_DATAGRAM,
    {
        frame_type.0 == CAPSULE_TYPE_DATAGRAM
    }
}

} // verus!
