use body_control::pgn::{pgn_from_rawid, rawid_from_pgn, Pgn};

#[test]
fn decode_reads_fields_from_bit_positions() {
    // PGN field 0xFF01 placed at bit 9: specific 0x01, format 0xFF.
    let pgn = pgn_from_rawid(0x01FE_0200);
    assert_eq!(pgn.specific, 0x01);
    assert_eq!(pgn.format, 0xFF);
    assert!(!pgn.data_page);
    assert!(!pgn.extended_data_page);
}

#[test]
fn decode_reads_page_flags() {
    let raw: u32 = (1 << 26) | (1 << 25) | (0xAB << 17) | (0xCD << 9);
    let pgn = pgn_from_rawid(raw);
    assert_eq!(pgn.specific, 0xCD);
    assert_eq!(pgn.format, 0xAB);
    assert!(pgn.data_page);
    assert!(pgn.extended_data_page);
}

#[test]
fn decode_is_total_and_deterministic() {
    let samples: [u32; 8] = [
        0,
        1,
        0x1FF,
        0x01FE_0200,
        0x1FFF_FFFF,
        0xFFFF_FFFF,
        0x8000_0000,
        0x0002_0000,
    ];
    for raw in samples {
        let first = pgn_from_rawid(raw);
        let second = pgn_from_rawid(raw);
        assert_eq!(first, second);
    }
}

#[test]
fn decode_ignores_bits_outside_pgn_field() {
    let base: u32 = 0x01FE_0200;
    // Source-address bits (0..=8) and bits above 26 carry no PGN data.
    let noisy = base | 0x1FF | (0b11 << 27) | (1u32 << 31);
    assert_eq!(pgn_from_rawid(base), pgn_from_rawid(noisy));
}

#[test]
fn encode_then_decode_round_trips() {
    let values = [
        Pgn { specific: 0x00, format: 0x00, data_page: false, extended_data_page: false },
        Pgn { specific: 0x01, format: 0xFF, data_page: false, extended_data_page: false },
        Pgn { specific: 0xCD, format: 0xAB, data_page: true, extended_data_page: false },
        Pgn { specific: 0xFF, format: 0xFF, data_page: true, extended_data_page: true },
        Pgn { specific: 0x42, format: 0x17, data_page: false, extended_data_page: true },
    ];
    for pgn in values {
        let raw = rawid_from_pgn(pgn);
        assert!(raw < 0x2000_0000);
        assert_eq!(pgn_from_rawid(raw), pgn);
    }
}

#[test]
fn encode_places_the_field_exactly() {
    let pgn = Pgn { specific: 0x01, format: 0xFF, data_page: false, extended_data_page: false };
    assert_eq!(rawid_from_pgn(pgn), 0x01FE_0200);
}
