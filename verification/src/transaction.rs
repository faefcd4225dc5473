//! Transaction outputs and how they are referred to.

use vstd::prelude::*;

verus! {

/// A reference to an output of an earlier transaction: that transaction's
/// identifier as hex text, and the output's index in it.
pub struct Outpoint(pub String, pub u32);

/// An unspent transaction output.
#[derive(Clone, Debug, PartialEq)]
pub struct UTXO {
    /// Identifier of the transaction that made the output, as raw bytes.
    pub txid: Vec<u8>,
    /// Index of the output in that transaction.
    pub vout: u32,
    /// Value in satoshis.
    pub value: u64,
}

/// Takes an unspent output over and hands it on unchanged.
pub fn consume_utxo(utxo: UTXO) -> (same: UTXO)
    ensures
        same == utxo,
{
    utxo
}

/// Labels a transaction identifier for display: `txid: `, then the identifier.
pub fn move_txid(txid: String) -> (line: String)
    ensures
        line@ == "txid: "@ + txid@,
{
    String::from_str("txid: ").concat(txid.as_str())
}

} // verus!
