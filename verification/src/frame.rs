//! Received CAN frames as the dispatcher sees them.

use vstd::prelude::*;

verus! {

/// The identifier of a received frame, tagged by format. Standard
/// identifiers are 11 bits wide, extended identifiers 29 bits.
#[derive(Clone, Copy, Debug, PartialEq, Eq, Structural)]
pub enum FrameId {
    Standard(u16),
    Extended(u32),
}

impl FrameId {
    /// The raw value fits the width its format allows.
    pub open spec fn wf(self) -> bool {
        match self {
            FrameId::Standard(raw) => raw < 0x800,
            FrameId::Extended(raw) => raw < 0x2000_0000,
        }
    }
}

/// One frame drained from a hardware receive queue: its identifier, a
/// fixed 8-byte payload buffer, and how many leading bytes of the buffer
/// the frame actually carried. Ownership passes by value to the
/// dispatcher and the frame is discarded after one dispatch pass.
#[derive(Clone, Copy, Debug, PartialEq, Eq)]
pub struct RawFrame {
    pub id: FrameId,
    pub payload: [u8; 8],
    pub len: u8,
}

impl RawFrame {
    /// The carried length never exceeds the fixed buffer.
    pub open spec fn wf(self) -> bool {
        self.id.wf() && self.len <= 8
    }

    /// Build a frame, checking the identifier width and capping the
    /// length at the buffer size, so that every constructed frame is
    /// well formed.
    pub fn new(id: FrameId, payload: [u8; 8], len: u8) -> (frame: Option<RawFrame>)
        ensures
            match frame {
                Some(f) => f.wf() && f.id == id && f.payload == payload && f.len == if len <= 8 {
                    len
                } else {
                    8u8
                },
                None => !id.wf(),
            },
    {
        let id_ok: bool = match id {
            FrameId::Standard(raw) => raw < 0x800,
            FrameId::Extended(raw) => raw < 0x2000_0000,
        };
        if id_ok {
            let capped: u8 = if len <= 8 {
                len
            } else {
                8u8
            };
            Some(RawFrame { id, payload, len: capped })
        } else {
            None
        }
    }
}

} // verus!
