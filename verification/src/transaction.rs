//! The decoded record and its parts, each with its view.

use vstd::prelude::*;
use crate::hexstr::{hex_encode, hex_string};

verus! {

/// A transaction identifier: 32 bytes, kept in the order in which they are
/// displayed, which is the reverse of the order on the wire and of the order
/// in which the hash gives them.
#[derive(Debug, Clone, Copy, PartialEq, Eq)]
pub struct Txid {
    bytes: [u8; 32],
}

impl View for Txid {
    type V = Seq<u8>;

    closed spec fn view(&self) -> Seq<u8> {
        self.bytes@
    }
}

impl Txid {
    /// An identifier has 32 bytes.
    pub proof fn lemma_has_32_bytes(self)
        ensures
            self@.len() == 32,
    {
    }

    /// The identifier whose bytes, in display order, are `bytes`.
    pub fn from_bytes(bytes: [u8; 32]) -> (txid: Txid)
        ensures
            txid@ == bytes@,
    {
        Txid { bytes }
    }

    /// The identifier whose bytes, in display order, are `bytes` read from
    /// the last to the first.
    pub fn from_reversed(bytes: [u8; 32]) -> (txid: Txid)
        ensures
            txid@ == bytes@.reverse(),
    {
        let mut turned = [0u8; 32];
        let mut i: usize = 0;
        while i < 32
            invariant
                i <= 32,
                forall|k: int| 0 <= k < i ==> turned@[k] == bytes@[31 - k],
            decreases 32 - i,
        {
            turned[i] = bytes[31 - i];
            i += 1;
        }
        Txid { bytes: turned }
    }

    /// The bytes in display order.
    pub fn to_bytes(&self) -> (bytes: [u8; 32])
        ensures
            bytes@ == self@,
    {
        self.bytes
    }

    /// The identifier as it is displayed: 64 lower-case hexadecimal digits.
    pub fn to_hex(&self) -> (text: String)
        ensures
            text@ == hex_string(self@),
    {
        hex_encode(self.bytes.as_slice())
    }
}

/// A count of satoshis, the smallest unit of the currency.
#[derive(Debug, Clone, Copy, PartialEq, Eq)]
pub struct Amount {
    sat: u64,
}

impl View for Amount {
    type V = u64;

    closed spec fn view(&self) -> u64 {
        self.sat
    }
}

impl Amount {
    /// The amount of `satoshi` satoshis.
    pub fn from_sat(satoshi: u64) -> (amount: Amount)
        ensures
            amount@ == satoshi,
    {
        Amount { sat: satoshi }
    }

    /// The number of satoshis.
    pub fn to_sat(&self) -> (satoshi: u64)
        ensures
            satoshi == self@,
    {
        self.sat
    }
}

/// What an [`Input`] holds, as mathematical values.
pub struct InputView {
    pub txid: Seq<u8>,
    pub output_index: u32,
    pub script_sig: Seq<char>,
    pub sequence: u32,
}

/// A reference to an earlier output that the transaction spends.
#[derive(Debug, Clone, PartialEq, Eq)]
pub struct Input {
    /// The transaction that holds the output, in display order.
    pub txid: Txid,
    /// The place of the output in that transaction.
    pub output_index: u32,
    /// The unlocking script, as lower-case hexadecimal text.
    pub script_sig: String,
    pub sequence: u32,
}

impl View for Input {
    type V = InputView;

    open spec fn view(&self) -> InputView {
        InputView {
            txid: self.txid@,
            output_index: self.output_index,
            script_sig: self.script_sig@,
            sequence: self.sequence,
        }
    }
}

impl DeepView for Input {
    type V = InputView;

    open spec fn deep_view(&self) -> InputView {
        self@
    }
}

/// What an [`Output`] holds, as mathematical values.
pub struct OutputView {
    pub amount: u64,
    pub script_pubkey: Seq<char>,
}

/// A value that the transaction makes spendable.
#[derive(Debug, Clone, PartialEq, Eq)]
pub struct Output {
    pub amount: Amount,
    /// The locking script, as lower-case hexadecimal text.
    pub script_pubkey: String,
}

impl View for Output {
    type V = OutputView;

    open spec fn view(&self) -> OutputView {
        OutputView { amount: self.amount@, script_pubkey: self.script_pubkey@ }
    }
}

impl DeepView for Output {
    type V = OutputView;

    open spec fn deep_view(&self) -> OutputView {
        self@
    }
}

/// What a [`Transaction`] holds, as mathematical values.
pub struct TransactionView {
    pub version: u32,
    pub inputs: Seq<InputView>,
    pub outputs: Seq<OutputView>,
    pub lock_time: u32,
    pub transaction_id: Seq<u8>,
}

/// A decoded transaction. The identifier is computed from the raw bytes of
/// the whole transaction; it is not one of the fields on the wire.
#[derive(Debug, Clone, PartialEq, Eq)]
pub struct Transaction {
    pub version: u32,
    pub inputs: Vec<Input>,
    pub outputs: Vec<Output>,
    pub lock_time: u32,
    pub transaction_id: Txid,
}

impl View for Transaction {
    type V = TransactionView;

    open spec fn view(&self) -> TransactionView {
        TransactionView {
            version: self.version,
            inputs: self.inputs.deep_view(),
            outputs: self.outputs.deep_view(),
            lock_time: self.lock_time,
            transaction_id: self.transaction_id@,
        }
    }
}

} // verus!
