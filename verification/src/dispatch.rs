//! The message dispatcher: PGN registry, payload policies, and routing.
//!
//! The dispatcher is the sole consumer of the receive handoff queue. For
//! each frame it decodes the PGN of an extended identifier, compares it by
//! equality against the fixed registry, and either applies the lighting
//! payload to the shared light record, observes a horn command, or leaves
//! every state untouched. Standard identifiers and unknown PGNs are
//! observed only. No frame makes the dispatcher fail.

use vstd::prelude::*;

use crate::frame::{FrameId, RawFrame};
use crate::lights::{Lights, SharedLights};
use crate::pgn::{
    lemma_decode_via_field, pgn_from_rawid, spec_pgn_field, spec_pgn_of, spec_pgn_of_field, Pgn,
};

verus! {

/// Registry value of the horn message: its 18-bit PGN field on the wire.
pub const HORN_MESSAGE: u32 = 0xFF00;

/// Registry value of the lighting-state message: its 18-bit PGN field on
/// the wire.
pub const LIGHTING_STATE: u32 = 0xFF01;

/// How many leading payload bytes the lighting-state message must carry:
/// one activation level per light. A shorter payload is rejected rather
/// than read past.
pub const LIGHTING_PAYLOAD_LEN: u8 = 3;

/// How many leading payload bytes the horn message must carry. A shorter
/// payload is rejected rather than read past.
pub const HORN_PAYLOAD_LEN: u8 = 1;

/// The horn registry entry as a structured PGN.
pub open spec fn spec_horn_message() -> Pgn {
    spec_pgn_of_field(HORN_MESSAGE)
}

/// The lighting registry entry as a structured PGN.
pub open spec fn spec_lighting_state() -> Pgn {
    spec_pgn_of_field(LIGHTING_STATE)
}

/// The horn registry entry, for comparing decoded PGNs against.
pub fn pgn_horn_message() -> (pgn: Pgn)
    ensures
        pgn == spec_horn_message(),
        pgn == (Pgn { specific: 0x00, format: 0xFF, data_page: false, extended_data_page: false }),
{
    proof {
        lemma_registry_values();
    }
    Pgn { specific: 0x00, format: 0xFF, data_page: false, extended_data_page: false }
}

/// The lighting registry entry, for comparing decoded PGNs against.
pub fn pgn_lighting_state() -> (pgn: Pgn)
    ensures
        pgn == spec_lighting_state(),
        pgn == (Pgn { specific: 0x01, format: 0xFF, data_page: false, extended_data_page: false }),
{
    proof {
        lemma_registry_values();
    }
    Pgn { specific: 0x01, format: 0xFF, data_page: false, extended_data_page: false }
}

/// The two registry values written out field by field, and their mutual
/// exclusivity: no PGN matches both.
pub proof fn lemma_registry_values()
    ensures
        spec_horn_message() == (Pgn {
            specific: 0x00,
            format: 0xFF,
            data_page: false,
            extended_data_page: false,
        }),
        spec_lighting_state() == (Pgn {
            specific: 0x01,
            format: 0xFF,
            data_page: false,
            extended_data_page: false,
        }),
        spec_horn_message() != spec_lighting_state(),
{
    assert((0xFF00u32 & 0xFF) as u8 == 0x00u8 && ((0xFF00u32 >> 8) & 0xFF) as u8 == 0xFFu8 && ((
    0xFF00u32 >> 16) & 0x01) == 0u32 && ((0xFF00u32 >> 17) & 0x01) == 0u32) by (bit_vector);
    assert((0xFF01u32 & 0xFF) as u8 == 0x01u8 && ((0xFF01u32 >> 8) & 0xFF) as u8 == 0xFFu8 && ((
    0xFF01u32 >> 16) & 0x01) == 0u32 && ((0xFF01u32 >> 17) & 0x01) == 0u32) by (bit_vector);
}

/// An identifier whose PGN field equals a registry value decodes to
/// exactly that registry entry.
pub proof fn lemma_registry_field_decodes(raw: u32)
    ensures
        spec_pgn_field(raw) == HORN_MESSAGE ==> spec_pgn_of(raw) == spec_horn_message(),
        spec_pgn_field(raw) == LIGHTING_STATE ==> spec_pgn_of(raw) == spec_lighting_state(),
{
    lemma_decode_via_field(raw);
}

/// The horn activation state decoded from the horn message payload.
/// Currently observed only: the handler does not yet drive an output.
#[derive(Clone, Copy, Debug, PartialEq, Eq, Structural)]
pub struct HornCommand {
    pub active: bool,
}

/// What one dispatch pass did with a frame.
#[derive(Clone, Copy, Debug, PartialEq, Eq, Structural)]
pub enum Dispatch {
    /// The lighting handler ran: this record was written to the shared
    /// light state.
    LightingApplied(Lights),
    /// The horn handler ran and observed this command; no state changed.
    HornObserved(HornCommand),
    /// A registry PGN arrived with fewer payload bytes than its fields
    /// need; nothing was read past the carried length and no state
    /// changed.
    PayloadTooShort(Pgn),
    /// The PGN matches no registry entry; no state changed.
    Unknown(Pgn),
    /// A standard identifier: observed only, never routed.
    Standard,
}

/// The per-light activation levels carried by a lighting payload, one
/// byte per light.
pub open spec fn spec_lights_of_payload(payload: [u8; 8]) -> Lights {
    Lights {
        left_indicator: payload[0],
        right_indicator: payload[1],
        day_light: payload[2],
    }
}

/// The horn command carried by a horn payload: active iff its first byte
/// is nonzero.
pub open spec fn spec_horn_of_payload(payload: [u8; 8]) -> HornCommand {
    HornCommand { active: payload[0] != 0 }
}

/// The routing rule: what one dispatch pass does with a frame, as the
/// pair of its outcome and the light record it leaves behind.
pub open spec fn spec_dispatch(frame: RawFrame, pre: Lights) -> (Dispatch, Lights) {
    match frame.id {
        FrameId::Standard(_) => (Dispatch::Standard, pre),
        FrameId::Extended(raw) => {
            let pgn = spec_pgn_of(raw);
            if pgn == spec_lighting_state() {
                if frame.len >= LIGHTING_PAYLOAD_LEN {
                    let lights = spec_lights_of_payload(frame.payload);
                    (Dispatch::LightingApplied(lights), lights)
                } else {
                    (Dispatch::PayloadTooShort(pgn), pre)
                }
            } else if pgn == spec_horn_message() {
                if frame.len >= HORN_PAYLOAD_LEN {
                    (Dispatch::HornObserved(spec_horn_of_payload(frame.payload)), pre)
                } else {
                    (Dispatch::PayloadTooShort(pgn), pre)
                }
            } else {
                (Dispatch::Unknown(pgn), pre)
            }
        },
    }
}

/// One dispatch pass: consume a received frame, route it by its decoded
/// PGN, and update the shared light record exactly as the routing rule
/// says. Total: no frame makes it fail or block.
pub fn can_receive(frame: RawFrame, lights: &mut SharedLights) -> (outcome: Dispatch)
    ensures
        outcome == spec_dispatch(frame, old(lights)@).0,
        final(lights)@ == spec_dispatch(frame, old(lights)@).1,
        !(outcome matches Dispatch::LightingApplied(_)) ==> final(lights)@ == old(lights)@,
{
    match frame.id {
        FrameId::Standard(_) => Dispatch::Standard,
        FrameId::Extended(raw) => {
            let pgn = pgn_from_rawid(raw);
            if pgn == pgn_lighting_state() {
                if frame.len >= LIGHTING_PAYLOAD_LEN {
                    let new_lights = Lights {
                        left_indicator: frame.payload[0],
                        right_indicator: frame.payload[1],
                        day_light: frame.payload[2],
                    };
                    lights.write(new_lights);
                    Dispatch::LightingApplied(new_lights)
                } else {
                    Dispatch::PayloadTooShort(pgn)
                }
            } else if pgn == pgn_horn_message() {
                if frame.len >= HORN_PAYLOAD_LEN {
                    Dispatch::HornObserved(HornCommand { active: frame.payload[0] != 0 })
                } else {
                    Dispatch::PayloadTooShort(pgn)
                }
            } else {
                Dispatch::Unknown(pgn)
            }
        },
    }
}

/// A frame decoding to the lighting registry entry routes to the lighting
/// handler and to no other: the horn handler never sees it, a payload of
/// full width is applied whole, and a short payload changes nothing.
pub proof fn lemma_lighting_routes_uniquely(frame: RawFrame, pre: Lights, raw: u32)
    requires
        frame.id == FrameId::Extended(raw),
        spec_pgn_of(raw) == spec_lighting_state(),
    ensures
        !(spec_dispatch(frame, pre).0 matches Dispatch::HornObserved(_)),
        !(spec_dispatch(frame, pre).0 matches Dispatch::Unknown(_)),
        frame.len >= LIGHTING_PAYLOAD_LEN ==> spec_dispatch(frame, pre) == (
        Dispatch::LightingApplied(spec_lights_of_payload(frame.payload)),
        spec_lights_of_payload(frame.payload),
        ),
        frame.len < LIGHTING_PAYLOAD_LEN ==> spec_dispatch(frame, pre) == (
        Dispatch::PayloadTooShort(spec_lighting_state()),
        pre,
        ),
{
}

/// Only the lighting handler ever changes the light record: any outcome
/// other than a lighting application leaves it exactly as it was.
pub proof fn lemma_only_lighting_writes(frame: RawFrame, pre: Lights)
    ensures
        !(spec_dispatch(frame, pre).0 matches Dispatch::LightingApplied(_)) ==> spec_dispatch(
            frame,
            pre,
        ).1 == pre,
        spec_dispatch(frame, pre).0 matches Dispatch::LightingApplied(lights) ==> spec_dispatch(
            frame,
            pre,
        ).1 == lights,
{
}

} // verus!
