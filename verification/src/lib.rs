//! Primitives for reading Bitcoin-style transaction data: output script
//! classification, push-data extraction, opcode decoding, byte-order
//! normalisation, hex coding, and satoshi amounts.
//!
//! Every executable function carries a contract over a mathematical model:
//! `Seq<u8>` for byte buffers and for text taken as its UTF-8 bytes,
//! `Seq<char>` for text that is built. Verus proves each function against its
//! contract. The two calls into the `hex` crate are the only statements taken
//! on trust; they stand in `hexcodec`, each with what is claimed of it.

pub mod amount;
pub mod endian;
pub mod hexcodec;
pub mod opcode;
pub mod script;
pub mod transaction;

pub use amount::{
    all_decimal_digits, amount_digits, apply_fee, decimal_value, is_decimal_digit, parse_satoshis,
    satoshis_of, TestWallet, Wallet,
};
pub use endian::{le_byte, le_value, swap_endian_u32, to_big_endian};
pub use hexcodec::{
    bytes_to_hex, decode_hex, hex_decoded, hex_digit, hex_encoding, hex_to_bytes, hex_value,
    is_hex_digit, is_hex_error, is_hex_text, HexError,
};
pub use opcode::{opcode_of, DecodeError, Opcode};
pub use script::{
    classify_script, pushdata_of, read_pushdata, script_type_of, starts_with, ScriptType,
};
pub use transaction::{consume_utxo, move_txid, Outpoint, UTXO};
