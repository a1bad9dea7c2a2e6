//! The coordinate translator: a byte column within one line of text against
//! the protocol's offset in the connection's encoding. Under UTF-8 the two
//! agree; under UTF-16 the bytes of the line are walked scalar value by
//! scalar value, each scalar value at most U+FFFF counting one code unit and
//! each larger one (a four-byte sequence) counting two.
use vstd::prelude::*;
use vstd::string::StringSliceAdditionalSpecFns;
use crate::types::{BridgeError, KakounePosition, LspPosition, OffsetEncoding};

verus! {

/// Bytes occupied by the encoded scalar value that starts with byte `b`.
pub open spec fn step_len(b: u8) -> nat {
    if b < 0x80 {
        1nat
    } else if b < 0xE0 {
        2nat
    } else if b < 0xF0 {
        3nat
    } else {
        4nat
    }
}

/// UTF-16 code units contributed by the scalar value that starts with byte
/// `b`: two for a scalar value above U+FFFF, one otherwise.
pub open spec fn step_units(b: u8) -> nat {
    if b < 0xF0 {
        1nat
    } else {
        2nat
    }
}

/// The UTF-16 code units consumed walking the line from byte `i` to byte
/// `col`; `None` when the walk does not land on `col` exactly.
pub open spec fn units_between(line: Seq<u8>, i: int, col: int) -> Option<nat>
    decreases col - i,
{
    if i == col {
        Some(0nat)
    } else if i > col || i >= line.len() || i + step_len(line[i]) > col {
        None
    } else {
        match units_between(line, i + step_len(line[i]), col) {
            Some(u) => Some((u + step_units(line[i])) as nat),
            None => None,
        }
    }
}

/// The protocol offset of byte column `col` under UTF-16: defined exactly
/// when `col` lies on a scalar-value boundary of the line.
pub open spec fn utf16_offset_of(line: Seq<u8>, col: int) -> Option<nat> {
    if 0 <= col <= line.len() {
        units_between(line, 0, col)
    } else {
        None
    }
}

/// Whether byte column `col` lies on a scalar-value boundary of `line`.
pub open spec fn is_scalar_boundary(line: Seq<u8>, col: int) -> bool {
    utf16_offset_of(line, col) is Some
}

/// The byte column reached from byte `i` after consuming `u` UTF-16 code
/// units; `None` when the units run out mid scalar value or past the line.
pub open spec fn col_after_units(line: Seq<u8>, i: int, u: int) -> Option<int>
    decreases u,
{
    if u <= 0 {
        if u == 0 {
            Some(i)
        } else {
            None
        }
    } else if i >= line.len() {
        None
    } else if step_units(line[i]) > u {
        None
    } else if i + step_len(line[i]) > line.len() {
        None
    } else {
        col_after_units(line, i + step_len(line[i]), u - step_units(line[i]))
    }
}

/// The protocol offset of byte column `col` under the given encoding.
pub open spec fn protocol_offset_spec(line: Seq<u8>, col: int, encoding: OffsetEncoding) -> Option<
    nat,
> {
    match encoding {
        OffsetEncoding::Utf8 => if is_scalar_boundary(line, col) {
            Some(col as nat)
        } else {
            None
        },
        OffsetEncoding::Utf16 => utf16_offset_of(line, col),
    }
}

/// The byte column of protocol offset `off` under the given encoding.
pub open spec fn byte_column_spec(line: Seq<u8>, off: int, encoding: OffsetEncoding) -> Option<
    int,
> {
    match encoding {
        OffsetEncoding::Utf8 => if is_scalar_boundary(line, off) {
            Some(off)
        } else {
            None
        },
        OffsetEncoding::Utf16 => if off >= 0 {
            col_after_units(line, 0, off)
        } else {
            None
        },
    }
}

/// The two walks are inverse: consuming the units counted up to a boundary
/// lands back on that boundary.
proof fn lemma_walks_inverse(line: Seq<u8>, i: int, col: int)
    requires
        0 <= i <= col <= line.len(),
        units_between(line, i, col) is Some,
    ensures
        col_after_units(line, i, units_between(line, i, col)->Some_0 as int) == Some(col),
    decreases col - i,
{
    if i == col {
    } else {
        let i2 = i + step_len(line[i]);
        assert(units_between(line, i2, col) is Some);
        assert(i2 <= col) by {
            if i2 > col {
                assert(units_between(line, i2, col) is None);
            }
        }
        lemma_walks_inverse(line, i2, col);
    }
}

/// Law: translating a byte column to a protocol offset and back reproduces
/// the column exactly, for every scalar-value boundary of every line and for
/// both encodings.
pub proof fn lemma_offset_round_trip(line: Seq<u8>, col: int, encoding: OffsetEncoding)
    requires
        protocol_offset_spec(line, col, encoding) is Some,
    ensures
        byte_column_spec(line, protocol_offset_spec(line, col, encoding)->Some_0 as int, encoding)
            == Some(col),
{
    match encoding {
        OffsetEncoding::Utf8 => {},
        OffsetEncoding::Utf16 => {
            lemma_walks_inverse(line, 0, col);
        },
    }
}

/// Walks the bytes of the line up to byte `col`, counting UTF-16 code units;
/// fails when `col` is not a scalar-value boundary.
fn utf16_units_to(bytes: &[u8], col: usize) -> (r: Option<u64>)
    requires
        col <= bytes@.len(),
    ensures
        match r {
            Some(u) => units_between(bytes@, 0, col as int) == Some(u as nat),
            None => units_between(bytes@, 0, col as int) is None,
        },
{
    let mut i: usize = 0;
    let mut units: u64 = 0;
    while i < col
        invariant
            i <= col <= bytes@.len(),
            units <= i,
            match units_between(bytes@, i as int, col as int) {
                Some(u) => units_between(bytes@, 0, col as int) == Some((u + units) as nat),
                None => units_between(bytes@, 0, col as int) is None,
            },
        decreases col - i,
    {
        let b = bytes[i];
        let sl: usize = if b < 0x80 {
            1
        } else if b < 0xE0 {
            2
        } else if b < 0xF0 {
            3
        } else {
            4
        };
        let su: u64 = if b < 0xF0 {
            1
        } else {
            2
        };
        if sl > col - i {
            proof {
                assert(units_between(bytes@, i as int, col as int) is None);
            }
            return None;
        }
        proof {
            assert(sl == step_len(bytes@[i as int]));
            assert(su == step_units(bytes@[i as int]));
        }
        units = units + su;
        i = i + sl;
    }
    Some(units)
}

/// Converts a byte column within `line` to the protocol offset used by the
/// backend; fails with `PositionOutOfRange` when the column does not land on
/// a scalar-value boundary or exceeds the line's byte length.
pub fn to_protocol_offset(line: &str, byte_column: u64, encoding: OffsetEncoding) -> (r: Result<
    u64,
    BridgeError,
>)
    ensures
        match r {
            Ok(o) => protocol_offset_spec(line.spec_bytes(), byte_column as int, encoding) == Some(
                o as nat,
            ),
            Err(e) => e is PositionOutOfRange && protocol_offset_spec(
                line.spec_bytes(),
                byte_column as int,
                encoding,
            ) is None,
        },
{
    let bytes: &[u8] = line.as_bytes();
    let len = bytes.len();
    if byte_column > len as u64 {
        return Err(BridgeError::PositionOutOfRange);
    }
    let col = byte_column as usize;
    match utf16_units_to(bytes, col) {
        None => Err(BridgeError::PositionOutOfRange),
        Some(units) => match encoding {
            OffsetEncoding::Utf8 => Ok(byte_column),
            OffsetEncoding::Utf16 => Ok(units),
        },
    }
}

/// Converts a protocol offset back to a byte column within `line`, by the
/// same decoding walk; fails with `PositionOutOfRange` when the offset does
/// not land on a scalar-value boundary of the line.
pub fn from_protocol_offset(line: &str, offset: u64, encoding: OffsetEncoding) -> (r: Result<
    u64,
    BridgeError,
>)
    ensures
        match r {
            Ok(c) => byte_column_spec(line.spec_bytes(), offset as int, encoding) == Some(c as int),
            Err(e) => e is PositionOutOfRange && byte_column_spec(
                line.spec_bytes(),
                offset as int,
                encoding,
            ) is None,
        },
{
    let bytes: &[u8] = line.as_bytes();
    let len = bytes.len();
    match encoding {
        OffsetEncoding::Utf8 => {
            if offset > len as u64 {
                return Err(BridgeError::PositionOutOfRange);
            }
            match utf16_units_to(bytes, offset as usize) {
                None => Err(BridgeError::PositionOutOfRange),
                Some(_) => Ok(offset),
            }
        },
        OffsetEncoding::Utf16 => {
            let mut i: usize = 0;
            let mut u: u64 = offset;
            while u > 0
                invariant
                    encoding is Utf16,
                    bytes@ == line.spec_bytes(),
                    len == bytes@.len(),
                    i <= bytes@.len(),
                    col_after_units(bytes@, 0, offset as int) == col_after_units(
                        bytes@,
                        i as int,
                        u as int,
                    ),
                decreases u,
            {
                if i >= len {
                    return Err(BridgeError::PositionOutOfRange);
                }
                let b = bytes[i];
                let sl: usize = if b < 0x80 {
                    1
                } else if b < 0xE0 {
                    2
                } else if b < 0xF0 {
                    3
                } else {
                    4
                };
                let su: u64 = if b < 0xF0 {
                    1
                } else {
                    2
                };
                proof {
                    assert(sl == step_len(bytes@[i as int]));
                    assert(su == step_units(bytes@[i as int]));
                }
                if su > u {
                    return Err(BridgeError::PositionOutOfRange);
                }
                if sl > len - i {
                    return Err(BridgeError::PositionOutOfRange);
                }
                i = i + sl;
                u = u - su;
            }
            Ok(i as u64)
        },
    }
}

/// Converts a one-based editor position (line, byte column) to a protocol
/// position for the given line of text; fails with `PositionOutOfRange` on a
/// malformed position or one off the line's scalar-value boundaries.
pub fn kakoune_position_to_lsp(pos: &KakounePosition, line: &str, encoding: OffsetEncoding) -> (r:
    Result<LspPosition, BridgeError>)
    ensures
        match r {
            Ok(p) => pos.line >= 1 && pos.column >= 1 && p.line == pos.line - 1
                && protocol_offset_spec(line.spec_bytes(), pos.column - 1, encoding) == Some(
                p.character as nat,
            ),
            Err(e) => e is PositionOutOfRange && (pos.line == 0 || pos.column == 0
                || protocol_offset_spec(line.spec_bytes(), pos.column - 1, encoding) is None),
        },
{
    if pos.line == 0 || pos.column == 0 {
        return Err(BridgeError::PositionOutOfRange);
    }
    match to_protocol_offset(line, pos.column - 1, encoding) {
        Ok(o) => Ok(LspPosition { line: pos.line - 1, character: o }),
        Err(e) => Err(e),
    }
}

/// Converts a protocol position back to a one-based editor position for the
/// given line of text.
pub fn lsp_position_to_kakoune(pos: &LspPosition, line: &str, encoding: OffsetEncoding) -> (r:
    Result<KakounePosition, BridgeError>)
    ensures
        match r {
            Ok(p) => p.line == pos.line + 1 && byte_column_spec(
                line.spec_bytes(),
                pos.character as int,
                encoding,
            ) == Some(p.column - 1),
            Err(e) => e is PositionOutOfRange && (pos.line == u64::MAX || byte_column_spec(
                line.spec_bytes(),
                pos.character as int,
                encoding,
            ) is None || byte_column_spec(line.spec_bytes(), pos.character as int, encoding)
                == Some(u64::MAX as int)),
        },
{
    if pos.line == u64::MAX {
        return Err(BridgeError::PositionOutOfRange);
    }
    match from_protocol_offset(line, pos.character, encoding) {
        Ok(c) => {
            if c == u64::MAX {
                Err(BridgeError::PositionOutOfRange)
            } else {
                Ok(KakounePosition { line: pos.line + 1, column: c + 1 })
            }
        },
        Err(e) => Err(e),
    }
}

} // verus!
