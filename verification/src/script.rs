//! Output scripts: spend-type classification and push-data extraction.

use vstd::prelude::*;

verus! {

/// The spend pattern that an output script follows.
#[derive(Debug, Clone, Copy, PartialEq, Eq, Structural)]
pub enum ScriptType {
    /// Pay-to-public-key-hash: the script opens with `76 a9 14`.
    P2PKH,
    /// Pay-to-witness-public-key-hash: the script opens with `00 14`.
    P2WPKH,
    /// Any other script, the empty one included.
    Unknown,
}

/// Whether `prefix` is an initial segment of `script`.
pub open spec fn starts_with(script: Seq<u8>, prefix: Seq<u8>) -> bool {
    prefix.len() <= script.len() && script.subrange(0, prefix.len() as int) == prefix
}

/// The spend type of a script, decided by its leading bytes alone.
pub open spec fn script_type_of(script: Seq<u8>) -> ScriptType {
    if starts_with(script, seq![0x76u8, 0xa9u8, 0x14u8]) {
        ScriptType::P2PKH
    } else if starts_with(script, seq![0x00u8, 0x14u8]) {
        ScriptType::P2WPKH
    } else {
        ScriptType::Unknown
    }
}

/// The payload of a script whose byte 1 is a length `n` and whose payload is
/// the `n` bytes from index 2 on. A script too short to hold its length byte,
/// or shorter than the length it declares, has the empty payload.
pub open spec fn pushdata_of(script: Seq<u8>) -> Seq<u8> {
    if script.len() >= 2 && script.len() >= 2 + script[1] {
        script.subrange(2, 2 + script[1])
    } else {
        Seq::empty()
    }
}

/// A script starts with a prefix exactly when it is long enough and agrees
/// with the prefix byte by byte.
proof fn lemma_starts_with(script: Seq<u8>, prefix: Seq<u8>)
    ensures
        starts_with(script, prefix) <==> prefix.len() <= script.len() && forall|i: int|
            0 <= i < prefix.len() ==> script[i] == prefix[i],
{
    if prefix.len() <= script.len() {
        let head = script.subrange(0, prefix.len() as int);
        if head == prefix {
            assert forall|i: int| 0 <= i < prefix.len() implies script[i] == prefix[i] by {
                assert(head[i] == script[i]);
            }
        }
        if forall|i: int| 0 <= i < prefix.len() ==> script[i] == prefix[i] {
            assert(head =~= prefix);
        }
    }
}

/// Classifies an output script by its leading bytes.
pub fn classify_script(script: &[u8]) -> (kind: ScriptType)
    ensures
        kind == script_type_of(script@),
{
    proof {
        lemma_starts_with(script@, seq![0x76u8, 0xa9u8, 0x14u8]);
        lemma_starts_with(script@, seq![0x00u8, 0x14u8]);
    }
    let n: usize = script.len();
    if n >= 3 && script[0] == 0x76 && script[1] == 0xa9 && script[2] == 0x14 {
        ScriptType::P2PKH
    } else if n >= 2 && script[0] == 0x00 && script[1] == 0x14 {
        ScriptType::P2WPKH
    } else {
        ScriptType::Unknown
    }
}

/// Borrows the push-data payload of a script, without copying.
pub fn read_pushdata(script: &[u8]) -> (payload: &[u8])
    ensures
        payload@ == pushdata_of(script@),
{
    if script.len() < 2 {
        return &script[0..0];
    }
    let pushdata_length: usize = script[1] as usize;
    if script.len() < 2 + pushdata_length {
        return &script[0..0];
    }
    &script[2..2 + pushdata_length]
}

/// Classification has no hidden state: any two results that the contract of
/// [`classify_script`] allows for one script are the same variant.
pub proof fn classification_is_deterministic(
    script: Seq<u8>,
    first: ScriptType,
    second: ScriptType,
)
    requires
        first == script_type_of(script),
        second == script_type_of(script),
    ensures
        first == second,
{
}

/// A recognised script stays recognised, as the same type, whatever bytes
/// follow it.
pub proof fn classification_ignores_tail(script: Seq<u8>, tail: Seq<u8>)
    requires
        script_type_of(script) != ScriptType::Unknown,
    ensures
        script_type_of(script + tail) == script_type_of(script),
{
    let longer = script + tail;
    lemma_starts_with(script, seq![0x76u8, 0xa9u8, 0x14u8]);
    lemma_starts_with(script, seq![0x00u8, 0x14u8]);
    lemma_starts_with(longer, seq![0x76u8, 0xa9u8, 0x14u8]);
    lemma_starts_with(longer, seq![0x00u8, 0x14u8]);
}

/// Push-data is all or nothing: the payload is either empty or exactly as long
/// as the length byte says.
pub proof fn pushdata_is_all_or_nothing(script: Seq<u8>)
    ensures
        pushdata_of(script).len() == 0 || (script.len() >= 2 && pushdata_of(script).len()
            == script[1]),
{
}

} // verus!
