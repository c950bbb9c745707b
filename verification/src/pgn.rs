//! Parameter Group Number (PGN) decoding and encoding.
//!
//! A CAN extended identifier is a 29-bit value; bits 9..=26 hold the PGN
//! field. The field splits into `specific` (bits 9..=16), `format`
//! (bits 17..=24), `data_page` (bit 25) and `extended_data_page` (bit 26).
//! Decoding is total: every 32-bit input yields a PGN, and bits outside
//! the PGN field are ignored.

use vstd::prelude::*;

verus! {

/// A structured Parameter Group Number. Equality on this type defines
/// protocol routing: a frame is dispatched to the handler whose registry
/// entry its decoded PGN equals.
#[derive(Clone, Copy, Debug, PartialEq, Eq, Structural)]
pub struct Pgn {
    pub specific: u8,
    pub format: u8,
    pub data_page: bool,
    pub extended_data_page: bool,
}

/// The 18-bit PGN field of a raw identifier, as carried on the wire.
pub open spec fn spec_pgn_field(raw: u32) -> u32 {
    (raw >> 9) & 0x3FFFF
}

/// The PGN that an 18-bit wire value stands for: `specific` in its low
/// byte, `format` in the next byte, the two page flags above that.
pub open spec fn spec_pgn_of_field(field: u32) -> Pgn {
    Pgn {
        specific: (field & 0xFF) as u8,
        format: ((field >> 8) & 0xFF) as u8,
        data_page: (field >> 16) & 0x01 == 1,
        extended_data_page: (field >> 17) & 0x01 == 1,
    }
}

/// Decoding factors through the PGN field: what an identifier decodes to
/// is exactly what its 18-bit PGN field stands for.
pub proof fn lemma_decode_via_field(raw: u32)
    ensures
        spec_pgn_of(raw) == spec_pgn_of_field(spec_pgn_field(raw)),
{
    let field = (raw >> 9) & 0x3FFFF;
    assert((field & 0xFF) == ((raw >> 9) & 0xFF) && ((field >> 8) & 0xFF) == ((raw >> 17) & 0xFF)
        && ((field >> 16) & 0x01) == ((raw >> 25) & 0x01) && ((field >> 17) & 0x01) == ((raw >> 26)
        & 0x01)) by (bit_vector)
        requires
            field == (raw >> 9) & 0x3FFFF,
    ;
}

/// What decoding a raw identifier yields: each field read straight from
/// its bit positions.
pub open spec fn spec_pgn_of(raw: u32) -> Pgn {
    Pgn {
        specific: ((raw >> 9) & 0xFF) as u8,
        format: ((raw >> 17) & 0xFF) as u8,
        data_page: (raw >> 25) & 0x01 == 1,
        extended_data_page: (raw >> 26) & 0x01 == 1,
    }
}

/// Decode the PGN carried in a raw extended identifier. Total: defined for
/// every 32-bit input, with no failure case.
pub fn pgn_from_rawid(rawid: u32) -> (pgn: Pgn)
    ensures
        pgn == spec_pgn_of(rawid),
{
    // Isolate bits 9..=26, the PGN field.
    let raw_pgn: u32 = (rawid >> 9) & 0x3FFFF;

    // Split the PGN field bitwise into its sections.
    let specific: u8 = (raw_pgn & 0xFF) as u8;
    let format: u8 = ((raw_pgn >> 8) & 0xFF) as u8;
    let data_page: bool = ((raw_pgn >> 16) & 0x01) != 0;
    let extended_data_page: bool = ((raw_pgn >> 17) & 0x01) != 0;

    proof {
        assert((((rawid >> 9) & 0x3FFFF) & 0xFF) == ((rawid >> 9) & 0xFF)) by (bit_vector);
        assert(((((rawid >> 9) & 0x3FFFF) >> 8) & 0xFF) == ((rawid >> 17) & 0xFF)) by (bit_vector);
        assert(((((rawid >> 9) & 0x3FFFF) >> 16) & 0x01) == ((rawid >> 25) & 0x01)) by (bit_vector);
        assert(((((rawid >> 9) & 0x3FFFF) >> 17) & 0x01) == ((rawid >> 26) & 0x01)) by (bit_vector);
        assert(((rawid >> 25) & 0x01 != 0) == ((rawid >> 25) & 0x01 == 1)) by (bit_vector);
        assert(((rawid >> 26) & 0x01 != 0) == ((rawid >> 26) & 0x01 == 1)) by (bit_vector);
    }

    Pgn { specific, format, data_page, extended_data_page }
}

/// The raw extended identifier that carries a given PGN, with all bits
/// outside the PGN field zero.
pub open spec fn spec_rawid_of(pgn: Pgn) -> u32 {
    ((pgn.specific as u32) << 9) | ((pgn.format as u32) << 17)
        | (if pgn.data_page { 1u32 << 25 } else { 0u32 })
        | (if pgn.extended_data_page { 1u32 << 26 } else { 0u32 })
}

/// Encode a structured PGN into a raw extended identifier. Decoding the
/// result returns the original PGN (the round trip stands in the contract).
pub fn rawid_from_pgn(pgn: Pgn) -> (rawid: u32)
    ensures
        rawid == spec_rawid_of(pgn),
        spec_pgn_of(rawid) == pgn,
        rawid < 0x2000_0000,
{
    proof {
        lemma_pgn_round_trip(pgn);
        lemma_rawid_of_fits(pgn);
    }
    let dp: u32 = if pgn.data_page { 1u32 << 25 } else { 0u32 };
    let edp: u32 = if pgn.extended_data_page { 1u32 << 26 } else { 0u32 };
    ((pgn.specific as u32) << 9) | ((pgn.format as u32) << 17) | dp | edp
}

/// The encoded identifier stays within the 29-bit extended-identifier range.
proof fn lemma_rawid_of_fits(pgn: Pgn)
    ensures
        spec_rawid_of(pgn) < 0x2000_0000,
{
    let s = pgn.specific;
    let f = pgn.format;
    let d: u32 = if pgn.data_page { 1u32 << 25 } else { 0u32 };
    let e: u32 = if pgn.extended_data_page { 1u32 << 26 } else { 0u32 };
    assert((((s as u32) << 9) | ((f as u32) << 17) | d | e) < 0x2000_0000) by (bit_vector)
        requires
            d == 0 || d == 1u32 << 25,
            e == 0 || e == 1u32 << 26,
    ;
}

/// Round trip: encoding a structured PGN and decoding the result returns
/// the original value.
pub proof fn lemma_pgn_round_trip(pgn: Pgn)
    ensures
        spec_pgn_of(spec_rawid_of(pgn)) == pgn,
{
    let s = pgn.specific;
    let f = pgn.format;
    let d: u32 = if pgn.data_page { 1u32 << 25 } else { 0u32 };
    let e: u32 = if pgn.extended_data_page { 1u32 << 26 } else { 0u32 };
    let raw = ((s as u32) << 9) | ((f as u32) << 17) | d | e;
    assert(((raw >> 9) & 0xFF) == s as u32) by (bit_vector)
        requires
            raw == ((s as u32) << 9) | ((f as u32) << 17) | d | e,
            d == 0 || d == 1u32 << 25,
            e == 0 || e == 1u32 << 26,
    ;
    assert(((raw >> 17) & 0xFF) == f as u32) by (bit_vector)
        requires
            raw == ((s as u32) << 9) | ((f as u32) << 17) | d | e,
            d == 0 || d == 1u32 << 25,
            e == 0 || e == 1u32 << 26,
    ;
    assert(((raw >> 25) & 0x01 == 1) == (d == 1u32 << 25)) by (bit_vector)
        requires
            raw == ((s as u32) << 9) | ((f as u32) << 17) | d | e,
            d == 0 || d == 1u32 << 25,
            e == 0 || e == 1u32 << 26,
    ;
    assert(((raw >> 26) & 0x01 == 1) == (e == 1u32 << 26)) by (bit_vector)
        requires
            raw == ((s as u32) << 9) | ((f as u32) << 17) | d | e,
            d == 0 || d == 1u32 << 25,
            e == 0 || e == 1u32 << 26,
    ;
    assert(((s as u32) as u8) == s) by (bit_vector);
    assert(((f as u32) as u8) == f) by (bit_vector);
    assert(1u32 << 25 != 0u32) by (bit_vector);
    assert(1u32 << 26 != 0u32) by (bit_vector);
}

/// Decoding reads only the PGN field: any two identifiers that agree on
/// bits 9..=26 decode to the same PGN, whatever their other bits hold.
pub proof fn lemma_decode_ignores_other_bits(a: u32, b: u32)
    requires
        spec_pgn_field(a) == spec_pgn_field(b),
    ensures
        spec_pgn_of(a) == spec_pgn_of(b),
{
    assert(((a >> 9) & 0x3FFFF) == ((b >> 9) & 0x3FFFF) ==> ((a >> 9) & 0xFF) == ((b >> 9) & 0xFF)
        && ((a >> 17) & 0xFF) == ((b >> 17) & 0xFF)
        && ((a >> 25) & 0x01) == ((b >> 25) & 0x01)
        && ((a >> 26) & 0x01) == ((b >> 26) & 0x01)) by (bit_vector);
}

} // verus!
