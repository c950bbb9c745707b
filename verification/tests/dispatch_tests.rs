use body_control::dispatch::{
    can_receive, pgn_horn_message, pgn_lighting_state, Dispatch, HornCommand,
};
use body_control::frame::{FrameId, RawFrame};
use body_control::lights::{Lights, SharedLights};
use body_control::pgn::pgn_from_rawid;

// The lighting registry field 0xFF01 placed at bit 9.
const LIGHTING_RAWID: u32 = 0x01FE_0200;
// The horn registry field 0xFF00 placed at bit 9.
const HORN_RAWID: u32 = 0x01FE_0000;

fn frame(raw: u32, payload: [u8; 8], len: u8) -> RawFrame {
    RawFrame { id: FrameId::Extended(raw), payload, len }
}

#[test]
fn registry_entries_are_distinct() {
    assert_ne!(pgn_horn_message(), pgn_lighting_state());
}

#[test]
fn registry_identifiers_decode_to_their_entries() {
    assert_eq!(pgn_from_rawid(HORN_RAWID), pgn_horn_message());
    assert_eq!(pgn_from_rawid(LIGHTING_RAWID), pgn_lighting_state());
}

#[test]
fn lighting_frame_routes_to_lighting_only() {
    let mut shared = SharedLights::new();
    let outcome = can_receive(frame(LIGHTING_RAWID, [5, 0, 7, 0, 0, 0, 0, 0], 8), &mut shared);
    let applied = Lights { left_indicator: 5, right_indicator: 0, day_light: 7 };
    assert_eq!(outcome, Dispatch::LightingApplied(applied));
    assert!(!matches!(outcome, Dispatch::HornObserved(_)));
    assert_eq!(shared.read(), applied);
}

#[test]
fn lighting_routing_ignores_source_address_bits() {
    let mut shared = SharedLights::new();
    let outcome = can_receive(frame(LIGHTING_RAWID | 0x55, [1, 2, 3, 0, 0, 0, 0, 0], 3), &mut shared);
    assert_eq!(
        outcome,
        Dispatch::LightingApplied(Lights { left_indicator: 1, right_indicator: 2, day_light: 3 })
    );
}

#[test]
fn short_lighting_payload_is_rejected_without_state_change() {
    let mut shared = SharedLights::new();
    let before = shared.read();
    let outcome = can_receive(frame(LIGHTING_RAWID, [9, 9, 9, 0, 0, 0, 0, 0], 2), &mut shared);
    assert_eq!(outcome, Dispatch::PayloadTooShort(pgn_lighting_state()));
    assert_eq!(shared.read(), before);
}

#[test]
fn horn_frame_is_observed_and_leaves_lights_alone() {
    let mut shared = SharedLights::new();
    let before = shared.read();
    let outcome = can_receive(frame(HORN_RAWID, [0xFF, 0, 0, 0, 0, 0, 0, 0], 1), &mut shared);
    assert_eq!(outcome, Dispatch::HornObserved(HornCommand { active: true }));
    assert_eq!(shared.read(), before);
}

#[test]
fn horn_zero_byte_means_inactive() {
    let mut shared = SharedLights::new();
    let outcome = can_receive(frame(HORN_RAWID, [0; 8], 8), &mut shared);
    assert_eq!(outcome, Dispatch::HornObserved(HornCommand { active: false }));
}

#[test]
fn empty_horn_payload_is_rejected() {
    let mut shared = SharedLights::new();
    let outcome = can_receive(frame(HORN_RAWID, [0; 8], 0), &mut shared);
    assert_eq!(outcome, Dispatch::PayloadTooShort(pgn_horn_message()));
}

#[test]
fn unknown_pgn_changes_nothing() {
    let mut shared = SharedLights::new();
    let before = shared.read();
    let raw: u32 = 0x42 << 9;
    let outcome = can_receive(frame(raw, [1; 8], 8), &mut shared);
    assert_eq!(outcome, Dispatch::Unknown(pgn_from_rawid(raw)));
    assert_eq!(shared.read(), before);
}

#[test]
fn standard_identifier_is_observed_only() {
    let mut shared = SharedLights::new();
    shared.write(Lights { left_indicator: 1, right_indicator: 0, day_light: 1 });
    let before = shared.read();
    let standard = RawFrame { id: FrameId::Standard(0x123), payload: [7; 8], len: 8 };
    let outcome = can_receive(standard, &mut shared);
    assert_eq!(outcome, Dispatch::Standard);
    assert_eq!(shared.read(), before);
}
