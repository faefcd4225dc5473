//! Satoshi amounts: reading them from text, and paying fees out of a balance.

use vstd::prelude::*;
use vstd::string::StringSliceAdditionalSpecFns;

verus! {

/// Whether a byte is one of `0`-`9` in ASCII.
pub open spec fn is_decimal_digit(b: u8) -> bool {
    0x30 <= b <= 0x39
}

/// Whether every byte of a text is a decimal digit.
pub open spec fn all_decimal_digits(digits: Seq<u8>) -> bool {
    forall|i: int| 0 <= i < digits.len() ==> is_decimal_digit(#[trigger] digits[i])
}

/// The number that a run of decimal digits stands for; the empty run stands
/// for zero.
pub open spec fn decimal_value(digits: Seq<u8>) -> nat
    decreases digits.len(),
{
    if digits.len() == 0 {
        0
    } else {
        (10 * decimal_value(digits.drop_last()) + (digits.last() - 0x30)) as nat
    }
}

/// The digits of an amount: the text without its one optional leading `+`.
pub open spec fn amount_digits(text: Seq<u8>) -> Seq<u8> {
    if text.len() > 0 && text[0] == 0x2b {
        text.subrange(1, text.len() as int)
    } else {
        text
    }
}

/// The amount that a text stands for: an optional `+`, then one or more
/// decimal digits whose value fits in 64 bits. Anything else, the empty text,
/// a lone sign, a minus sign, blanks and separators included, is no amount.
pub open spec fn satoshis_of(text: Seq<u8>) -> Option<u64> {
    let digits = amount_digits(text);
    if digits.len() > 0 && all_decimal_digits(digits) && decimal_value(digits) <= u64::MAX {
        Some(decimal_value(digits) as u64)
    } else {
        None
    }
}

/// A run of digits is worth at least as much as any of its prefixes.
proof fn lemma_prefix_value(digits: Seq<u8>, k: int)
    requires
        0 <= k <= digits.len(),
        all_decimal_digits(digits),
    ensures
        decimal_value(digits.subrange(0, k)) <= decimal_value(digits),
    decreases digits.len() - k,
{
    if k == digits.len() {
        assert(digits.subrange(0, k) =~= digits);
    } else {
        let longer = digits.subrange(0, k + 1);
        assert(longer.drop_last() =~= digits.subrange(0, k));
        assert(is_decimal_digit(digits[k]));
        assert(longer.last() == digits[k]);
        lemma_prefix_value(digits, k + 1);
    }
}

/// Reads a satoshi amount from decimal text; any failure is reported as the
/// one message `Invalid satoshi amount`.
pub fn parse_satoshis(input: &str) -> (outcome: Result<u64, String>)
    ensures
        match outcome {
            Ok(amount) => satoshis_of(input.spec_bytes()) == Some(amount),
            Err(message) => satoshis_of(input.spec_bytes()) is None && message@
                == "Invalid satoshi amount"@,
        },
{
    let text = input.as_bytes();
    let n: usize = text.len();
    let start: usize = if n > 0 && text[0] == 0x2b { 1 } else { 0 };
    let ghost digits = amount_digits(text@);
    assert(digits =~= text@.subrange(start as int, n as int));
    if start == n {
        return Err(String::from_str("Invalid satoshi amount"));
    }
    let mut amount: u64 = 0;
    let mut i: usize = start;
    while i < n
        invariant
            start <= i <= n,
            n == text@.len(),
            text@ == input.spec_bytes(),
            digits == amount_digits(text@),
            digits == text@.subrange(start as int, n as int),
            all_decimal_digits(digits.subrange(0, i - start)),
            amount == decimal_value(digits.subrange(0, i - start)),
        decreases n - i,
    {
        let b: u8 = text[i];
        let ghost seen = digits.subrange(0, i - start);
        let ghost next = digits.subrange(0, i - start + 1);
        assert(next.drop_last() =~= seen);
        assert(next.last() == b);
        if b < 0x30 || b > 0x39 {
            assert(!is_decimal_digit(digits[i - start]));
            return Err(String::from_str("Invalid satoshi amount"));
        }
        let digit: u64 = (b - 0x30) as u64;
        if amount > (u64::MAX - digit) / 10 {
            proof {
                if all_decimal_digits(digits) {
                    lemma_prefix_value(digits, i - start + 1);
                }
            }
            return Err(String::from_str("Invalid satoshi amount"));
        }
        amount = amount * 10 + digit;
        i = i + 1;
    }
    assert(digits.subrange(0, n - start) =~= digits);
    Ok(amount)
}

/// Takes `fee` out of `balance`. A fee larger than the balance empties it: the
/// balance never goes below zero.
pub fn apply_fee(balance: &mut u64, fee: u64)
    ensures
        *final(balance) == if *old(balance) >= fee {
            *old(balance) - fee
        } else {
            0
        },
{
    if *balance >= fee {
        *balance -= fee;
    } else {
        *balance = 0;
    }
}

/// Anything that can report a balance in satoshis.
pub trait Wallet {
    /// The balance that [`Wallet::balance`] reports.
    spec fn balance_spec(&self) -> u64;

    /// The wallet's balance.
    fn balance(&self) -> (amount: u64)
        ensures
            amount == self.balance_spec(),
    ;
}

/// A wallet that holds nothing but a confirmed balance.
pub struct TestWallet {
    pub confirmed: u64,
}

impl Wallet for TestWallet {
    open spec fn balance_spec(&self) -> u64 {
        self.confirmed
    }

    fn balance(&self) -> (amount: u64) {
        self.confirmed
    }
}

} // verus!
