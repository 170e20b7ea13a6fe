//! Laws that relate the protocol and catalog operations to each other.
use vstd::prelude::*;

use crate::definitions::{
    decode_raw, encode_raw, lemma_max_register, max_register, read_value, register_offset,
    value_text, Encoding, MetricSetView,
};
use crate::modbus::{checksum_ok, command_frame, frame_error, le_bytes, modbus_crc, ModbusError};
use crate::text::nat_text;

verus! {

/// The read command of a non-empty, well-formed catalog is eight bytes; it
/// asks for `max(register) - base + 1` registers from `base`, where the
/// maximum is taken over every entry; and its last two bytes are the checksum
/// of its first six, low byte first.
pub proof fn lemma_command_covers_catalog(set: MetricSetView, addr: u8)
    requires
        set.command_ready(),
    ensures
        ({
            let c = command_frame(0x03, addr, set.base, set.register_count() as u16);
            &&& c.len() == 8
            &&& c[0] == addr
            &&& c[1] == 0x03
            &&& c[2] as int * 256 + c[3] as int == set.base
            &&& c[4] as int * 256 + c[5] as int == max_register(set.metrics) - set.base + 1
            &&& c.subrange(6, 8) == le_bytes(modbus_crc(c.subrange(0, 6)))
        }),
        forall|i: int|
            0 <= i < set.metrics.len() ==> set.base <= #[trigger] set.metrics[i].base.register
                <= max_register(set.metrics),
        exists|i: int| 0 <= i < set.metrics.len() && #[trigger] set.metrics[i].base.register == max_register(set.metrics),
{
    lemma_max_register(set.metrics);
    let c = command_frame(0x03, addr, set.base, set.register_count() as u16);
    assert(c.subrange(0, 6) =~= crate::modbus::command_head(0x03, addr, set.base, set.register_count() as u16));
    assert(c.subrange(6, 8) =~= le_bytes(modbus_crc(c.subrange(0, 6))));
}

/// Appending the checksum of a span, low byte first, makes the span verify: a
/// frame made of any two header bytes, any bytes and their checksum passes the
/// checksum check.
pub proof fn lemma_checksum_self_consistent(h0: u8, h1: u8, bytes: Seq<u8>)
    ensures
        checksum_ok(seq![h0, h1] + bytes + le_bytes(modbus_crc(bytes))),
{
    let f = seq![h0, h1] + bytes + le_bytes(modbus_crc(bytes));
    assert(f.subrange(2, f.len() - 2) =~= bytes);
    assert(f.subrange(f.len() - 2, f.len() as int) =~= le_bytes(modbus_crc(bytes)));
}

/// A frame whose checksum does not verify is rejected for its checksum, before
/// any later check: whatever its header, command byte or length. In
/// particular, when a single byte of a valid frame within the checked span is
/// corrupted and the checksum no longer verifies (no coincidental collision),
/// the error is a checksum mismatch.
pub proof fn lemma_corruption_detected_first(f: Seq<u8>, i: int, b: u8)
    requires
        frame_error(f) is None,
        2 <= i < f.len(),
        b != f[i],
        !checksum_ok(f.update(i, b)),
    ensures
        frame_error(f.update(i, b)) == Some(ModbusError::WrongChecksum),
{
}

/// Corrupting either checksum byte of a valid frame always yields a checksum
/// mismatch.
pub proof fn lemma_checksum_byte_corruption(f: Seq<u8>, i: int, b: u8)
    requires
        frame_error(f) is None,
        f.len() - 2 <= i < f.len(),
        b != f[i],
    ensures
        frame_error(f.update(i, b)) == Some(ModbusError::WrongChecksum),
{
    let g = f.update(i, b);
    assert(g.subrange(2, g.len() - 2) =~= f.subrange(2, f.len() - 2));
    assert(g.subrange(g.len() - 2, g.len() as int)[i - (g.len() - 2)] == b);
    assert(f.subrange(f.len() - 2, f.len() as int)[i - (f.len() - 2)] == f[i]);
}

/// A frame whose checksum verifies but whose header is not `0xAA 0x55` is
/// rejected for its header, never for its length.
pub proof fn lemma_wrong_header(f: Seq<u8>)
    requires
        checksum_ok(f),
        f[0] != 0xaa || f[1] != 0x55,
    ensures
        frame_error(f) == Some(ModbusError::InvalidHeader),
{
}

/// A frame whose checksum and header are right but whose command byte has its
/// high bit set is a failed command, whatever its length byte says.
pub proof fn lemma_failed_command(f: Seq<u8>)
    requires
        checksum_ok(f),
        f[0] == 0xaa,
        f[1] == 0x55,
        f[3] >= 0x80,
    ensures
        frame_error(f) == Some(ModbusError::FailedCommand),
{
}

/// Encoding a raw value into its bytes and decoding them gives the value back.
pub proof fn lemma_decode_encode(enc: Encoding, v: int)
    requires
        enc.min_raw() <= v <= enc.max_raw(),
    ensures
        encode_raw(enc, v).len() == enc.spec_width(),
        decode_raw(enc, encode_raw(enc, v)) == v,
{
    let b = encode_raw(enc, v);
    if enc.spec_width() == 2 {
        let u = if v < 0 { v + 0x1_0000 } else { v };
        assert(0 <= u < 0x1_0000);
        assert(b[0] as int == u / 0x100);
        assert(b[1] as int == u % 0x100);
        assert(u == (u / 0x100) * 0x100 + u % 0x100);
    } else {
        let u = if v < 0 { v + 0x1_0000_0000 } else { v };
        assert(0 <= u < 0x1_0000_0000);
        assert(b[0] as int == u / 0x100_0000);
        assert(b[1] as int == u / 0x1_0000 % 0x100);
        assert(b[2] as int == u / 0x100 % 0x100);
        assert(b[3] as int == u % 0x100);
        assert(u == (u / 0x100_0000) * 0x100_0000 + (u / 0x1_0000 % 0x100) * 0x1_0000 + (u / 0x100 % 0x100)
            * 0x100 + u % 0x100) by (nonlinear_arith)
            requires
                0 <= u,
        ;
    }
}

/// Writing the bytes of a value at an entry's offset in a payload and decoding
/// the catalog out of it stores that value in the entry, provided the pass
/// reaches it (the entry and all before it lie within the payload).
pub proof fn lemma_register_round_trip(set: MetricSetView, data: Seq<u8>, i: int, v: int)
    requires
        0 <= i < set.metrics.len(),
        set.fits_through(i, data.len()),
        set.metrics[i].encoding.min_raw() <= v <= set.metrics[i].encoding.max_raw(),
        data.subrange(
            register_offset(set.base, set.metrics[i].base.register),
            register_offset(set.base, set.metrics[i].base.register) + set.metrics[i].encoding.spec_width(),
        ) == encode_raw(set.metrics[i].encoding, v),
    ensures
        set.decoded(data).metrics[i].value == Some(v),
{
    lemma_decode_encode(set.metrics[i].encoding, v);
    assert(read_value(set.metrics[i], set.base, data) == v);
}

/// An entry without a value renders `NaN` for fixed-point encodings, `0` for
/// the unsigned encoding, and the smallest value of its width for the signed
/// integer encodings.
pub proof fn lemma_absent_value_text(enc: Encoding)
    ensures
        enc.spec_decimals() is Some ==> value_text(enc, None) == seq!['N', 'a', 'N'],
        enc == Encoding::Unsigned16 ==> value_text(enc, None) == seq!['0'],
        enc == Encoding::Signed16 ==> value_text(enc, None) == seq!['-', '3', '2', '7', '6', '8'],
        enc == Encoding::Signed32 ==> value_text(enc, None) == seq![
            '-',
            '2',
            '1',
            '4',
            '7',
            '4',
            '8',
            '3',
            '6',
            '4',
            '8',
        ],
{
    reveal_with_fuel(nat_text, 11);
    assert(nat_text(0) =~= seq!['0']);
    assert(seq!['-'] + nat_text(32768) =~= seq!['-', '3', '2', '7', '6', '8']);
    assert(seq!['-'] + nat_text(2147483648) =~= seq!['-', '2', '1', '4', '7', '4', '8', '3', '6', '4', '8']);
}

} // verus!
