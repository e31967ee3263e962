//! Whole records: inputs, outputs, the transaction identifier, and the
//! decoding of a transaction from raw bytes and from hexadecimal text.

use vstd::prelude::*;
use crate::error::DecodeError;
use crate::hexstr::{hex_bytes, hex_decode, is_hex_string};
use crate::reader::{
    read_amount, read_compact_size, read_script, read_txid, read_u32, reads, reads_list,
};
use crate::sha::sha256;
use crate::transaction::{Input, Output, Transaction, TransactionView, Txid};
use crate::wire::{
    lemma_parse_inputs_count, lemma_parse_outputs_count, parse_input, parse_inputs, parse_output,
    parse_outputs, parse_transaction, transaction_id_of,
};

verus! {

/// Reads one input: transaction identifier, output index, unlocking script
/// and sequence number, in that order.
pub fn read_input(transaction_bytes: &mut &[u8]) -> (r: Result<Input, DecodeError>)
    ensures
        reads(
            parse_input(old(transaction_bytes)@),
            old(transaction_bytes)@,
            r,
            final(transaction_bytes)@,
        ),
{
    let start: &[u8] = *transaction_bytes;
    let txid = match read_txid(transaction_bytes) {
        Ok(txid) => txid,
        Err(e) => {
            return Err(e);
        },
    };
    let output_index = match read_u32(transaction_bytes) {
        Ok(index) => index,
        Err(e) => {
            *transaction_bytes = start;
            return Err(e);
        },
    };
    let script_sig = match read_script(transaction_bytes) {
        Ok(script) => script,
        Err(e) => {
            *transaction_bytes = start;
            return Err(e);
        },
    };
    let sequence = match read_u32(transaction_bytes) {
        Ok(sequence) => sequence,
        Err(e) => {
            *transaction_bytes = start;
            return Err(e);
        },
    };
    Ok(Input { txid, output_index, script_sig, sequence })
}

/// Reads one output: the amount, then the locking script.
pub fn read_output(transaction_bytes: &mut &[u8]) -> (r: Result<Output, DecodeError>)
    ensures
        reads(
            parse_output(old(transaction_bytes)@),
            old(transaction_bytes)@,
            r,
            final(transaction_bytes)@,
        ),
{
    let start: &[u8] = *transaction_bytes;
    let amount = match read_amount(transaction_bytes) {
        Ok(amount) => amount,
        Err(e) => {
            return Err(e);
        },
    };
    let script_pubkey = match read_script(transaction_bytes) {
        Ok(script) => script,
        Err(e) => {
            *transaction_bytes = start;
            return Err(e);
        },
    };
    Ok(Output { amount, script_pubkey })
}

/// Reads `count` inputs, one behind the other.
pub fn read_inputs(transaction_bytes: &mut &[u8], count: u64) -> (r: Result<
    Vec<Input>,
    DecodeError,
>)
    ensures
        reads_list(
            parse_inputs(old(transaction_bytes)@, count as nat),
            old(transaction_bytes)@,
            r,
            final(transaction_bytes)@,
        ),
        r matches Ok(inputs) ==> inputs@.len() == count,
{
    let start: &[u8] = *transaction_bytes;
    let mut inputs: Vec<Input> = Vec::new();
    let mut done: u64 = 0;
    while done < count
        invariant
            done <= count,
            start@ == old(transaction_bytes)@,
            parse_inputs(start@, done as nat) == Some((inputs.deep_view(), transaction_bytes@)),
        decreases count - done,
    {
        match read_input(transaction_bytes) {
            Ok(input) => {
                inputs.push(input);
            },
            Err(e) => {
                proof {
                    lemma_parse_inputs_count(start@, (done + 1) as nat, count as nat);
                }
                *transaction_bytes = start;
                return Err(e);
            },
        }
        done += 1;
    }
    proof {
        lemma_parse_inputs_count(start@, count as nat, count as nat);
    }
    Ok(inputs)
}

/// Reads `count` outputs, one behind the other.
pub fn read_outputs(transaction_bytes: &mut &[u8], count: u64) -> (r: Result<
    Vec<Output>,
    DecodeError,
>)
    ensures
        reads_list(
            parse_outputs(old(transaction_bytes)@, count as nat),
            old(transaction_bytes)@,
            r,
            final(transaction_bytes)@,
        ),
        r matches Ok(outputs) ==> outputs@.len() == count,
{
    let start: &[u8] = *transaction_bytes;
    let mut outputs: Vec<Output> = Vec::new();
    let mut done: u64 = 0;
    while done < count
        invariant
            done <= count,
            start@ == old(transaction_bytes)@,
            parse_outputs(start@, done as nat) == Some((outputs.deep_view(), transaction_bytes@)),
        decreases count - done,
    {
        match read_output(transaction_bytes) {
            Ok(output) => {
                outputs.push(output);
            },
            Err(e) => {
                proof {
                    lemma_parse_outputs_count(start@, (done + 1) as nat, count as nat);
                }
                *transaction_bytes = start;
                return Err(e);
            },
        }
        done += 1;
    }
    proof {
        lemma_parse_outputs_count(start@, count as nat, count as nat);
    }
    Ok(outputs)
}

/// The identifier of the transaction whose raw bytes are `raw_transaction`:
/// the bytes are hashed with SHA-256, the digest is hashed again, and the
/// second digest is turned round.
pub fn hash_raw_transaction(raw_transaction: &[u8]) -> (txid: Txid)
    ensures
        txid@ == transaction_id_of(raw_transaction@),
{
    let hash1 = sha256(raw_transaction);
    let hash2 = sha256(hash1.as_slice());
    Txid::from_reversed(hash2)
}

/// What decoding the text `transaction_hex` gives: `HexDecodeError` where the
/// text does not spell bytes, `UnexpectedEof` where the bytes end before the
/// transaction does, else the transaction that the bytes hold.
pub open spec fn decode_spec(transaction_hex: Seq<char>) -> Result<TransactionView, DecodeError> {
    if !is_hex_string(transaction_hex) {
        Err(DecodeError::HexDecodeError)
    } else {
        match parse_transaction(hex_bytes(transaction_hex)) {
            Some(transaction) => Ok(transaction),
            None => Err(DecodeError::UnexpectedEof),
        }
    }
}

/// Whether `r` is the answer `expected`: the same error, or a transaction
/// with that view.
pub open spec fn decodes_as(
    r: Result<Transaction, DecodeError>,
    expected: Result<TransactionView, DecodeError>,
) -> bool {
    match expected {
        Ok(transaction) => r is Ok && r->Ok_0@ == transaction,
        Err(e) => r == Err::<Transaction, DecodeError>(e),
    }
}

/// Decodes the transaction whose raw bytes are `raw_transaction`.
///
/// The fields are read from the front: version, the counted inputs, the
/// counted outputs, lock time. The first field that the bytes cannot fill
/// ends the decode with `UnexpectedEof`. The identifier is computed from all
/// of `raw_transaction`, however far the reading went.
pub fn decode_raw_transaction(raw_transaction: &[u8]) -> (r: Result<Transaction, DecodeError>)
    ensures
        match parse_transaction(raw_transaction@) {
            Some(transaction) => r is Ok && r->Ok_0@ == transaction,
            None => r == Err::<Transaction, DecodeError>(DecodeError::UnexpectedEof),
        },
        r matches Ok(transaction) ==> transaction.transaction_id@ == transaction_id_of(
            raw_transaction@,
        ),
{
    let mut bytes_slice: &[u8] = raw_transaction;
    let version = match read_u32(&mut bytes_slice) {
        Ok(version) => version,
        Err(e) => {
            return Err(e);
        },
    };
    let input_count = match read_compact_size(&mut bytes_slice) {
        Ok(count) => count,
        Err(e) => {
            return Err(e);
        },
    };
    let inputs = match read_inputs(&mut bytes_slice, input_count) {
        Ok(inputs) => inputs,
        Err(e) => {
            return Err(e);
        },
    };
    let output_count = match read_compact_size(&mut bytes_slice) {
        Ok(count) => count,
        Err(e) => {
            return Err(e);
        },
    };
    let outputs = match read_outputs(&mut bytes_slice, output_count) {
        Ok(outputs) => outputs,
        Err(e) => {
            return Err(e);
        },
    };
    let lock_time = match read_u32(&mut bytes_slice) {
        Ok(lock_time) => lock_time,
        Err(e) => {
            return Err(e);
        },
    };
    let transaction_id = hash_raw_transaction(raw_transaction);
    Ok(Transaction { version, inputs, outputs, lock_time, transaction_id })
}

/// Decodes the transaction that the hexadecimal text `transaction_hex` spells.
///
/// The text is turned into bytes first: where it is not an even number of
/// hexadecimal digits the answer is `HexDecodeError` and no field is read.
/// The bytes are then decoded as [`decode_raw_transaction`] does.
pub fn decode(transaction_hex: String) -> (r: Result<Transaction, DecodeError>)
    ensures
        decodes_as(r, decode_spec(transaction_hex@)),
        !is_hex_string(transaction_hex@) ==> r == Err::<Transaction, DecodeError>(
            DecodeError::HexDecodeError,
        ),
        is_hex_string(transaction_hex@) && parse_transaction(hex_bytes(transaction_hex@)) is None
            ==> r == Err::<Transaction, DecodeError>(DecodeError::UnexpectedEof),
        r matches Ok(transaction) ==> transaction.transaction_id@ == transaction_id_of(
            hex_bytes(transaction_hex@),
        ),
{
    match hex_decode(transaction_hex.as_str()) {
        Ok(transaction_bytes) => decode_raw_transaction(transaction_bytes.as_slice()),
        Err(_) => Err(DecodeError::HexDecodeError),
    }
}

/// Decoding is repeatable: two answers to the same text are both errors, and
/// then the same error, or both transactions, and then equal field by field,
/// the identifier included.
pub proof fn lemma_decode_repeatable(
    transaction_hex: Seq<char>,
    first: Result<Transaction, DecodeError>,
    second: Result<Transaction, DecodeError>,
)
    requires
        decodes_as(first, decode_spec(transaction_hex)),
        decodes_as(second, decode_spec(transaction_hex)),
    ensures
        first is Ok <==> second is Ok,
        first is Ok ==> first->Ok_0@ == second->Ok_0@,
        first is Err ==> first == second,
{
}

/// The answer depends on the text only through the bytes that it spells: two
/// texts that spell the same bytes, say in different case, decode alike, and
/// the identifier of a decoded transaction is fixed by those bytes alone.
pub proof fn lemma_decode_depends_on_raw_bytes(first_hex: Seq<char>, second_hex: Seq<char>)
    requires
        is_hex_string(first_hex),
        is_hex_string(second_hex),
        hex_bytes(first_hex) == hex_bytes(second_hex),
    ensures
        decode_spec(first_hex) == decode_spec(second_hex),
        decode_spec(first_hex) matches Ok(transaction) ==> transaction.transaction_id
            == transaction_id_of(hex_bytes(first_hex)),
{
}

/// Two decoded transactions whose identifiers differ were spelled by
/// different raw bytes.
pub proof fn lemma_distinct_ids_distinct_bytes(first_hex: Seq<char>, second_hex: Seq<char>)
    requires
        decode_spec(first_hex) matches Ok(first) && decode_spec(second_hex) matches Ok(second)
            && first.transaction_id != second.transaction_id,
    ensures
        hex_bytes(first_hex) != hex_bytes(second_hex),
{
}

} // verus!
