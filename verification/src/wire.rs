//! The format on the wire, as mathematics: what stands at the front of a
//! byte string, field by field, and what is left behind it. Each function
//! gives `None` where the bytes end before the field does. The readers'
//! contracts are written over these functions.

use vstd::prelude::*;
use crate::hexstr::{hex_bytes, hex_string, is_hex_string, lemma_hex_round_trip};
use crate::sha::sha256_digest;
use crate::transaction::{InputView, OutputView, TransactionView};

verus! {

/// The number that a little-endian byte string stands for: the first byte
/// counts least.
pub open spec fn le_value(s: Seq<u8>) -> nat
    decreases s.len(),
{
    if s.len() == 0 {
        0
    } else {
        s[0] as nat + 256 * le_value(s.drop_first())
    }
}

/// A 32-bit number at the front of `s`: four bytes, little-endian. Gives the
/// number and the bytes behind it, or `None` where `s` is too short.
pub open spec fn parse_u32(s: Seq<u8>) -> Option<(u32, Seq<u8>)> {
    if s.len() >= 4 {
        Some((le_value(s.take(4)) as u32, s.skip(4)))
    } else {
        None
    }
}

/// An amount at the front of `s`: eight bytes, little-endian.
pub open spec fn parse_amount(s: Seq<u8>) -> Option<(u64, Seq<u8>)> {
    if s.len() >= 8 {
        Some((le_value(s.take(8)) as u64, s.skip(8)))
    } else {
        None
    }
}

/// A transaction identifier at the front of `s`: 32 bytes, which the wire
/// carries in the reverse of the display order.
pub open spec fn parse_txid(s: Seq<u8>) -> Option<(Seq<u8>, Seq<u8>)> {
    if s.len() >= 32 {
        Some((s.take(32).reverse(), s.skip(32)))
    } else {
        None
    }
}

/// How many bytes follow the prefix byte of a compact size.
pub open spec fn compact_size_tail(prefix: u8) -> int {
    if prefix <= 252 {
        0
    } else if prefix == 253 {
        2
    } else if prefix == 254 {
        4
    } else {
        8
    }
}

/// A compact size at the front of `s`. A prefix byte up to 252 is the value
/// itself; 253, 254 and 255 announce a little-endian number of two, four and
/// eight bytes. A small value behind a long prefix is taken as it stands.
pub open spec fn parse_compact_size(s: Seq<u8>) -> Option<(u64, Seq<u8>)> {
    if s.len() < 1 || s.len() < 1 + compact_size_tail(s[0]) {
        None
    } else if s[0] <= 252 {
        Some((s[0] as u64, s.skip(1)))
    } else {
        let width = compact_size_tail(s[0]);
        Some((le_value(s.skip(1).take(width)) as u64, s.skip(1 + width)))
    }
}

/// A script at the front of `s`: a compact size, then that many bytes, which
/// are given as lower-case hexadecimal text.
pub open spec fn parse_script(s: Seq<u8>) -> Option<(Seq<char>, Seq<u8>)> {
    match parse_compact_size(s) {
        Some((size, body)) if size <= body.len() => Some(
            (hex_string(body.take(size as int)), body.skip(size as int)),
        ),
        _ => None,
    }
}

/// An input at the front of `s`: the identifier of the transaction spent
/// from, the index of the output, the unlocking script, the sequence number.
pub open spec fn parse_input(s: Seq<u8>) -> Option<(InputView, Seq<u8>)> {
    match parse_txid(s) {
        Some((txid, s1)) => match parse_u32(s1) {
            Some((output_index, s2)) => match parse_script(s2) {
                Some((script_sig, s3)) => match parse_u32(s3) {
                    Some((sequence, s4)) => Some(
                        (InputView { txid, output_index, script_sig, sequence }, s4),
                    ),
                    None => None,
                },
                None => None,
            },
            None => None,
        },
        None => None,
    }
}

/// An output at the front of `s`: the amount, then the locking script.
pub open spec fn parse_output(s: Seq<u8>) -> Option<(OutputView, Seq<u8>)> {
    match parse_amount(s) {
        Some((amount, s1)) => match parse_script(s1) {
            Some((script_pubkey, s2)) => Some((OutputView { amount, script_pubkey }, s2)),
            None => None,
        },
        None => None,
    }
}

/// `count` inputs, one behind the other, at the front of `s`.
pub open spec fn parse_inputs(s: Seq<u8>, count: nat) -> Option<(Seq<InputView>, Seq<u8>)>
    decreases count,
{
    if count == 0 {
        Some((Seq::empty(), s))
    } else {
        match parse_inputs(s, (count - 1) as nat) {
            Some((front, rest)) => match parse_input(rest) {
                Some((last, behind)) => Some((front.push(last), behind)),
                None => None,
            },
            None => None,
        }
    }
}

/// `count` outputs, one behind the other, at the front of `s`.
pub open spec fn parse_outputs(s: Seq<u8>, count: nat) -> Option<(Seq<OutputView>, Seq<u8>)>
    decreases count,
{
    if count == 0 {
        Some((Seq::empty(), s))
    } else {
        match parse_outputs(s, (count - 1) as nat) {
            Some((front, rest)) => match parse_output(rest) {
                Some((last, behind)) => Some((front.push(last), behind)),
                None => None,
            },
            None => None,
        }
    }
}

/// The identifier of the transaction whose raw bytes are `raw`: SHA-256 of
/// SHA-256 of all of them, read from the last byte to the first.
pub open spec fn transaction_id_of(raw: Seq<u8>) -> Seq<u8> {
    sha256_digest(sha256_digest(raw)).reverse()
}

/// The transaction that `raw` holds: version, counted inputs, counted
/// outputs, lock time, and the identifier of all of `raw`. `None` where `raw`
/// ends before the lock time is complete. Bytes behind the lock time are not
/// looked at, but they count for the identifier.
pub open spec fn parse_transaction(raw: Seq<u8>) -> Option<TransactionView> {
    match parse_u32(raw) {
        Some((version, s1)) => match parse_compact_size(s1) {
            Some((input_count, s2)) => match parse_inputs(s2, input_count as nat) {
                Some((inputs, s3)) => match parse_compact_size(s3) {
                    Some((output_count, s4)) => match parse_outputs(s4, output_count as nat) {
                        Some((outputs, s5)) => match parse_u32(s5) {
                            Some((lock_time, _)) => Some(
                                TransactionView {
                                    version,
                                    inputs,
                                    outputs,
                                    lock_time,
                                    transaction_id: transaction_id_of(raw),
                                },
                            ),
                            None => None,
                        },
                        None => None,
                    },
                    None => None,
                },
                None => None,
            },
            None => None,
        },
        None => None,
    }
}

/// The fixed-width fields byte by byte: the first byte counts least, each
/// further byte 256 times the one before it.
pub proof fn lemma_fixed_width_by_bytes(s: Seq<u8>)
    ensures
        s.len() >= 4 ==> parse_u32(s) == Some(
            ((s[0] + 0x100 * s[1] + 0x1_0000 * s[2] + 0x100_0000 * s[3]) as u32, s.skip(4)),
        ),
        s.len() >= 8 ==> parse_amount(s) == Some(
            (
                (s[0] + 0x100 * s[1] + 0x1_0000 * s[2] + 0x100_0000 * s[3] + 0x1_0000_0000 * s[4]
                    + 0x100_0000_0000 * s[5] + 0x1_0000_0000_0000 * s[6] + 0x100_0000_0000_0000
                    * s[7]) as u64,
                s.skip(8),
            ),
        ),
{
    if s.len() >= 4 {
        lemma_le_value_by_bytes(s.take(4));
    }
    if s.len() >= 8 {
        lemma_le_value_by_bytes(s.take(8));
    }
}

/// The four forms of a compact size byte by byte, each with the bytes that
/// it takes; and the one way in which reading it fails.
pub proof fn lemma_compact_size_by_bytes(s: Seq<u8>)
    ensures
        s.len() >= 1 && s[0] <= 252 ==> parse_compact_size(s) == Some((s[0] as u64, s.skip(1))),
        s.len() >= 3 && s[0] == 253 ==> parse_compact_size(s) == Some(
            ((s[1] + 0x100 * s[2]) as u64, s.skip(3)),
        ),
        s.len() >= 5 && s[0] == 254 ==> parse_compact_size(s) == Some(
            ((s[1] + 0x100 * s[2] + 0x1_0000 * s[3] + 0x100_0000 * s[4]) as u64, s.skip(5)),
        ),
        s.len() >= 9 && s[0] == 255 ==> parse_compact_size(s) == Some(
            (
                (s[1] + 0x100 * s[2] + 0x1_0000 * s[3] + 0x100_0000 * s[4] + 0x1_0000_0000 * s[5]
                    + 0x100_0000_0000 * s[6] + 0x1_0000_0000_0000 * s[7] + 0x100_0000_0000_0000
                    * s[8]) as u64,
                s.skip(9),
            ),
        ),
        parse_compact_size(s) is None <==> s.len() == 0 || s.len() < 1 + compact_size_tail(s[0]),
{
    if s.len() >= 1 && s.len() >= 1 + compact_size_tail(s[0]) && s[0] > 252 {
        lemma_le_value_by_bytes(s.skip(1).take(compact_size_tail(s[0])));
    }
}

/// A list of inputs that cannot be read up to `shorter` cannot be read up to
/// a larger count either; one that can be read has `count` items.
pub proof fn lemma_parse_inputs_count(s: Seq<u8>, shorter: nat, count: nat)
    requires
        shorter <= count,
    ensures
        parse_inputs(s, shorter) is None ==> parse_inputs(s, count) is None,
        parse_inputs(s, count) matches Some((items, _)) ==> items.len() == count,
    decreases count,
{
    if count > 0 {
        if shorter < count {
            lemma_parse_inputs_count(s, shorter, (count - 1) as nat);
        } else {
            lemma_parse_inputs_count(s, (count - 1) as nat, (count - 1) as nat);
        }
    }
}

/// A list of outputs that cannot be read up to `shorter` cannot be read up to
/// a larger count either; one that can be read has `count` items.
pub proof fn lemma_parse_outputs_count(s: Seq<u8>, shorter: nat, count: nat)
    requires
        shorter <= count,
    ensures
        parse_outputs(s, shorter) is None ==> parse_outputs(s, count) is None,
        parse_outputs(s, count) matches Some((items, _)) ==> items.len() == count,
    decreases count,
{
    if count > 0 {
        if shorter < count {
            lemma_parse_outputs_count(s, shorter, (count - 1) as nat);
        } else {
            lemma_parse_outputs_count(s, (count - 1) as nat, (count - 1) as nat);
        }
    }
}

/// A transaction that decodes has as many inputs as the count before them
/// announces, and as many outputs as the count before those.
pub proof fn lemma_counts_are_kept(raw: Seq<u8>)
    ensures
        parse_transaction(raw) matches Some(transaction) ==> {
            &&& parse_compact_size(raw.skip(4)) matches Some((input_count, s2))
            &&& transaction.inputs.len() == input_count
            &&& parse_inputs(s2, input_count as nat) matches Some((_, s3))
            &&& parse_compact_size(s3) matches Some((output_count, _))
            &&& transaction.outputs.len() == output_count
        },
{
    if let Some(transaction) = parse_transaction(raw) {
        let (input_count, s2) = parse_compact_size(raw.skip(4))->Some_0;
        lemma_parse_inputs_count(s2, input_count as nat, input_count as nat);
        let s3 = parse_inputs(s2, input_count as nat)->Some_0.1;
        let (output_count, s4) = parse_compact_size(s3)->Some_0;
        lemma_parse_outputs_count(s4, output_count as nat, output_count as nat);
    }
}

/// The text of a script spells the script: read as hexadecimal, it gives the
/// bytes that stood behind the script's length, all of them and in order.
pub proof fn lemma_script_text_spells_its_bytes(s: Seq<u8>)
    ensures
        parse_script(s) matches Some((text, _)) ==> {
            &&& parse_compact_size(s) matches Some((size, body))
            &&& is_hex_string(text)
            &&& hex_bytes(text) == body.take(size as int)
        },
{
    if let Some((size, body)) = parse_compact_size(s) {
        lemma_hex_round_trip(body.take(size as int));
    }
}

/// The identifier read from an input names the transaction spent from as the
/// decoder names that transaction itself: where the 32 bytes on the wire are
/// the double digest of `spent_raw`, in the order in which the hash gives
/// them, the identifier read is the one computed for `spent_raw`.
pub proof fn lemma_txid_orders_agree(s: Seq<u8>, spent_raw: Seq<u8>)
    ensures
        s.len() >= 32 && s.take(32) == sha256_digest(sha256_digest(spent_raw)) ==> parse_txid(s)
            == Some((transaction_id_of(spent_raw), s.skip(32))),
{
}

/// The value of a little-endian string, spelled out byte by byte for the
/// widths that the format uses; a string of two, four or eight bytes fits a
/// `u16`, `u32` or `u64`.
pub proof fn lemma_le_value_by_bytes(s: Seq<u8>)
    ensures
        s.len() == 1 ==> le_value(s) == s[0],
        s.len() == 2 ==> le_value(s) == s[0] + 0x100 * s[1],
        s.len() == 4 ==> le_value(s) == s[0] + 0x100 * s[1] + 0x1_0000 * s[2] + 0x100_0000 * s[3],
        s.len() == 8 ==> le_value(s) == s[0] + 0x100 * s[1] + 0x1_0000 * s[2] + 0x100_0000 * s[3]
            + 0x1_0000_0000 * s[4] + 0x100_0000_0000 * s[5] + 0x1_0000_0000_0000 * s[6]
            + 0x100_0000_0000_0000 * s[7],
        s.len() == 2 ==> le_value(s) <= u16::MAX,
        s.len() == 4 ==> le_value(s) <= u32::MAX,
        s.len() == 8 ==> le_value(s) <= u64::MAX,
{
    reveal_with_fuel(le_value, 9);
}

} // verus!
