//! Decoder for raw legacy-format transactions given as hexadecimal text.
//!
//! [`decode`] turns the text into bytes and walks them once, field by field:
//! version, inputs, outputs, lock time. The transaction identifier is the
//! reversed double SHA-256 of all the bytes. Every function states in its
//! contract what it returns, over the description of the format in [`wire`].

pub mod decoder;
pub mod error;
pub mod hexstr;
pub mod reader;
pub mod sha;
pub mod transaction;
pub mod wire;

pub use decoder::{
    decode, decode_raw_transaction, hash_raw_transaction, read_input, read_inputs, read_output,
    read_outputs,
};
pub use error::DecodeError;
pub use reader::{read_amount, read_compact_size, read_exact, read_script, read_txid, read_u32};
pub use transaction::{Amount, Input, Output, Transaction, Txid};
