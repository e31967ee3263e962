//! The cursor and the readers of single fields.
//!
//! The cursor is a `&[u8]` that holds the unread rest of the buffer. A reader
//! takes it by `&mut` and shortens it from the front by the field that it
//! read: there is no way back and no look ahead. A reader that cannot fill
//! its field answers `UnexpectedEof` and leaves the cursor where it was.

use vstd::prelude::*;
use vstd::slice::slice_subrange;
use crate::error::DecodeError;
use crate::hexstr::hex_encode;
use crate::transaction::{Amount, Txid};
use crate::wire::{
    compact_size_tail, le_value, lemma_le_value_by_bytes, parse_amount, parse_compact_size,
    parse_script, parse_txid, parse_u32,
};

verus! {

/// How a reader that found `field` at the front of `before` answers: with the
/// field's value and the cursor behind the field, or with `UnexpectedEof` and
/// the cursor where it was.
pub open spec fn reads<T: View>(
    field: Option<(T::V, Seq<u8>)>,
    before: Seq<u8>,
    r: Result<T, DecodeError>,
    after: Seq<u8>,
) -> bool {
    match field {
        Some((value, rest)) => r is Ok && r->Ok_0@ == value && after == rest,
        None => r == Err::<T, DecodeError>(DecodeError::UnexpectedEof) && after == before,
    }
}

/// How a reader of a counted list answers; as [`reads`], with the list's
/// items taken by their views.
pub open spec fn reads_list<T: DeepView>(
    field: Option<(Seq<T::V>, Seq<u8>)>,
    before: Seq<u8>,
    r: Result<Vec<T>, DecodeError>,
    after: Seq<u8>,
) -> bool {
    match field {
        Some((items, rest)) => r is Ok && r->Ok_0.deep_view() == items && after == rest,
        None => r == Err::<Vec<T>, DecodeError>(DecodeError::UnexpectedEof) && after == before,
    }
}

/// Takes the next `n` bytes off the front of `bytes`.
///
/// The slice behind `bytes` is the unread rest of the buffer: a successful
/// read shortens it from the front, a failed one leaves it as it was.
pub fn read_exact<'a>(bytes: &mut &'a [u8], n: usize) -> (r: Result<&'a [u8], DecodeError>)
    ensures
        n <= old(bytes)@.len() ==> r is Ok && r->Ok_0@ == old(bytes)@.take(n as int)
            && final(bytes)@ == old(bytes)@.skip(n as int),
        n > old(bytes)@.len() ==> r == Err::<&[u8], DecodeError>(DecodeError::UnexpectedEof)
            && final(bytes)@ == old(bytes)@,
{
    let rest: &'a [u8] = *bytes;
    if n > rest.len() {
        return Err(DecodeError::UnexpectedEof);
    }
    let head = slice_subrange(rest, 0, n);
    *bytes = slice_subrange(rest, n, rest.len());
    Ok(head)
}

/// The number that two little-endian bytes stand for.
fn le_u16(b: &[u8]) -> (v: u16)
    requires
        b@.len() == 2,
    ensures
        v == le_value(b@),
{
    proof {
        lemma_le_value_by_bytes(b@);
    }
    b[0] as u16 + b[1] as u16 * 0x100
}

/// The number that four little-endian bytes stand for.
fn le_u32(b: &[u8]) -> (v: u32)
    requires
        b@.len() == 4,
    ensures
        v == le_value(b@),
{
    proof {
        lemma_le_value_by_bytes(b@);
    }
    b[0] as u32 + b[1] as u32 * 0x100 + b[2] as u32 * 0x1_0000 + b[3] as u32 * 0x100_0000
}

/// The number that eight little-endian bytes stand for.
fn le_u64(b: &[u8]) -> (v: u64)
    requires
        b@.len() == 8,
    ensures
        v == le_value(b@),
{
    proof {
        lemma_le_value_by_bytes(b@);
    }
    let low = b[0] as u64 + b[1] as u64 * 0x100 + b[2] as u64 * 0x1_0000 + b[3] as u64 * 0x100_0000;
    let high = b[4] as u64 + b[5] as u64 * 0x100 + b[6] as u64 * 0x1_0000 + b[7] as u64 * 0x100_0000;
    low + high * 0x1_0000_0000
}

/// Reads a 32-bit little-endian number: a version, an output index, a
/// sequence number or a lock time.
pub fn read_u32(transaction_bytes: &mut &[u8]) -> (r: Result<u32, DecodeError>)
    ensures
        reads(
            parse_u32(old(transaction_bytes)@),
            old(transaction_bytes)@,
            r,
            final(transaction_bytes)@,
        ),
        old(transaction_bytes)@.len() < 4 ==> r == Err::<u32, DecodeError>(
            DecodeError::UnexpectedEof,
        ),
{
    match read_exact(transaction_bytes, 4) {
        Ok(field) => Ok(le_u32(field)),
        Err(e) => Err(e),
    }
}

/// Reads an amount: eight bytes, a little-endian count of satoshis.
pub fn read_amount(transaction_bytes: &mut &[u8]) -> (r: Result<Amount, DecodeError>)
    ensures
        reads(
            parse_amount(old(transaction_bytes)@),
            old(transaction_bytes)@,
            r,
            final(transaction_bytes)@,
        ),
        old(transaction_bytes)@.len() < 8 ==> r == Err::<Amount, DecodeError>(
            DecodeError::UnexpectedEof,
        ),
{
    match read_exact(transaction_bytes, 8) {
        Ok(field) => Ok(Amount::from_sat(le_u64(field))),
        Err(e) => Err(e),
    }
}

/// The 32 bytes of `field` as an array.
fn to_array_32(field: &[u8]) -> (buffer: [u8; 32])
    requires
        field@.len() == 32,
    ensures
        buffer@ == field@,
{
    let mut buffer = [0u8; 32];
    let mut i: usize = 0;
    while i < 32
        invariant
            i <= 32,
            field@.len() == 32,
            forall|k: int| 0 <= k < i ==> buffer@[k] == field@[k],
        decreases 32 - i,
    {
        buffer[i] = field[i];
        i += 1;
    }
    buffer
}

/// Reads a transaction identifier: 32 bytes, which are turned round, since
/// the wire carries them in the reverse of the display order.
pub fn read_txid(transaction_bytes: &mut &[u8]) -> (r: Result<Txid, DecodeError>)
    ensures
        reads(
            parse_txid(old(transaction_bytes)@),
            old(transaction_bytes)@,
            r,
            final(transaction_bytes)@,
        ),
        old(transaction_bytes)@.len() < 32 ==> r == Err::<Txid, DecodeError>(
            DecodeError::UnexpectedEof,
        ),
{
    match read_exact(transaction_bytes, 32) {
        Ok(field) => Ok(Txid::from_reversed(to_array_32(field))),
        Err(e) => Err(e),
    }
}

/// Reads a compact size, the variable-length number that counts inputs,
/// outputs and the bytes of a script.
///
/// A prefix byte up to 252 is the value. The prefixes 253, 254 and 255 are
/// followed by a little-endian number of two, four and eight bytes. A value
/// that a shorter form could have held is accepted in a longer one.
pub fn read_compact_size(transaction_bytes: &mut &[u8]) -> (r: Result<u64, DecodeError>)
    ensures
        reads(
            parse_compact_size(old(transaction_bytes)@),
            old(transaction_bytes)@,
            r,
            final(transaction_bytes)@,
        ),
        old(transaction_bytes)@.len() >= 1 && old(transaction_bytes)@[0] <= 252 ==> {
            &&& r == Ok::<u64, DecodeError>(old(transaction_bytes)@[0] as u64)
            &&& final(transaction_bytes)@ == old(transaction_bytes)@.skip(1)
        },
        old(transaction_bytes)@.len() == 0 || old(transaction_bytes)@.len() < 1
            + compact_size_tail(old(transaction_bytes)@[0]) ==> r == Err::<u64, DecodeError>(
            DecodeError::UnexpectedEof,
        ),
{
    let start: &[u8] = *transaction_bytes;
    let prefix: u8 = match read_exact(transaction_bytes, 1) {
        Ok(field) => field[0],
        Err(e) => {
            return Err(e);
        },
    };
    if prefix <= 252 {
        return Ok(prefix as u64);
    }
    let width: usize = if prefix == 253 {
        2
    } else if prefix == 254 {
        4
    } else {
        8
    };
    match read_exact(transaction_bytes, width) {
        Ok(field) => {
            assert(transaction_bytes@ =~= start@.skip(1 + width));
            if prefix == 253 {
                Ok(le_u16(field) as u64)
            } else if prefix == 254 {
                Ok(le_u32(field) as u64)
            } else {
                Ok(le_u64(field))
            }
        },
        Err(e) => {
            *transaction_bytes = start;
            Err(e)
        },
    }
}

/// Reads a script: a compact size, then that many bytes. The bytes are not
/// interpreted; they come back as lower-case hexadecimal text.
pub fn read_script(transaction_bytes: &mut &[u8]) -> (r: Result<String, DecodeError>)
    ensures
        reads(
            parse_script(old(transaction_bytes)@),
            old(transaction_bytes)@,
            r,
            final(transaction_bytes)@,
        ),
        parse_compact_size(old(transaction_bytes)@) matches Some((size, body)) && size > body.len()
            ==> r == Err::<String, DecodeError>(DecodeError::UnexpectedEof),
{
    let start: &[u8] = *transaction_bytes;
    let script_size = match read_compact_size(transaction_bytes) {
        Ok(size) => size,
        Err(e) => {
            return Err(e);
        },
    };
    if script_size > transaction_bytes.len() as u64 {
        *transaction_bytes = start;
        return Err(DecodeError::UnexpectedEof);
    }
    match read_exact(transaction_bytes, script_size as usize) {
        Ok(script) => Ok(hex_encode(script)),
        Err(e) => {
            *transaction_bytes = start;
            Err(e)
        },
    }
}

} // verus!
