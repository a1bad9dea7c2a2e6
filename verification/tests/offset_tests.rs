use kak_lsp::offset::{
    from_protocol_offset, kakoune_position_to_lsp, lsp_position_to_kakoune, to_protocol_offset,
};
use kak_lsp::types::{BridgeError, KakounePosition, LspPosition, OffsetEncoding};

#[test]
fn utf16_hello_with_accent() {
    // h (1 byte), é (2 bytes, 1 code unit), l, l, o — byte column 3 is after
    // "h" plus the two-byte é, so the protocol offset is 2.
    let line = "héllo";
    assert_eq!(to_protocol_offset(line, 3, OffsetEncoding::Utf16), Ok(2));
}

#[test]
fn utf8_offsets_are_byte_columns() {
    let line = "héllo";
    assert_eq!(to_protocol_offset(line, 0, OffsetEncoding::Utf8), Ok(0));
    assert_eq!(to_protocol_offset(line, 3, OffsetEncoding::Utf8), Ok(3));
    assert_eq!(to_protocol_offset(line, 6, OffsetEncoding::Utf8), Ok(6));
}

#[test]
fn mid_scalar_column_is_out_of_range() {
    let line = "héllo";
    assert_eq!(
        to_protocol_offset(line, 2, OffsetEncoding::Utf16),
        Err(BridgeError::PositionOutOfRange)
    );
    assert_eq!(
        to_protocol_offset(line, 2, OffsetEncoding::Utf8),
        Err(BridgeError::PositionOutOfRange)
    );
}

#[test]
fn column_past_line_end_is_out_of_range() {
    let line = "héllo";
    assert_eq!(
        to_protocol_offset(line, 7, OffsetEncoding::Utf16),
        Err(BridgeError::PositionOutOfRange)
    );
}

#[test]
fn round_trip_every_boundary() {
    // Boundaries of "héllo": 0, 1, 3, 4, 5, 6.
    let line = "héllo";
    for col in [0u64, 1, 3, 4, 5, 6] {
        for enc in [OffsetEncoding::Utf8, OffsetEncoding::Utf16] {
            let off = to_protocol_offset(line, col, enc).unwrap();
            assert_eq!(from_protocol_offset(line, off, enc), Ok(col));
        }
    }
}

#[test]
fn surrogate_pair_counts_two_units() {
    // a (1 byte), U+1D11E (4 bytes, 2 code units), b.
    let line = "a\u{1D11E}b";
    assert_eq!(to_protocol_offset(line, 1, OffsetEncoding::Utf16), Ok(1));
    assert_eq!(to_protocol_offset(line, 5, OffsetEncoding::Utf16), Ok(3));
    assert_eq!(to_protocol_offset(line, 6, OffsetEncoding::Utf16), Ok(4));
    // An offset landing between the two units of the pair is unreachable.
    assert_eq!(
        from_protocol_offset(line, 2, OffsetEncoding::Utf16),
        Err(BridgeError::PositionOutOfRange)
    );
    assert_eq!(from_protocol_offset(line, 3, OffsetEncoding::Utf16), Ok(5));
}

#[test]
fn kakoune_positions_are_one_based() {
    let line = "héllo";
    let pos = KakounePosition { line: 2, column: 4 };
    let lsp = kakoune_position_to_lsp(&pos, line, OffsetEncoding::Utf16).unwrap();
    assert_eq!(lsp.line, 1);
    assert_eq!(lsp.character, 2);
    let zero = KakounePosition { line: 0, column: 4 };
    assert_eq!(
        kakoune_position_to_lsp(&zero, line, OffsetEncoding::Utf16),
        Err(BridgeError::PositionOutOfRange)
    );
}

#[test]
fn lsp_position_back_to_kakoune() {
    let line = "héllo";
    let lsp = LspPosition { line: 1, character: 2 };
    assert_eq!(
        lsp_position_to_kakoune(&lsp, line, OffsetEncoding::Utf16),
        Ok(KakounePosition { line: 2, column: 4 })
    );
    let bad = LspPosition { line: 1, character: 9 };
    assert_eq!(
        lsp_position_to_kakoune(&bad, line, OffsetEncoding::Utf16),
        Err(BridgeError::PositionOutOfRange)
    );
}
