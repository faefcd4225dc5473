//! Single-byte script opcodes.

use crate::hexcodec::{bytes_to_hex, hex_encoding};
use vstd::prelude::*;

verus! {

/// A script instruction, as far as this library tells instructions apart.
#[derive(Debug, Clone, Copy, PartialEq, Eq, Hash, Structural)]
pub enum Opcode {
    /// Byte `ac`: check a signature.
    OpChecksig,
    /// Byte `76`: duplicate the top of the stack.
    OpDup,
    /// Any byte that is accepted but not told apart from the others.
    OpInvalid,
}

/// Why a byte is no opcode.
#[derive(Debug, Clone, Copy, PartialEq, Eq, Structural)]
pub enum DecodeError {
    /// The byte is reserved and never stands for an instruction. Carries the
    /// offending byte.
    InvalidOpcode(u8),
}

/// What a byte decodes to. Exactly one byte, `00`, is refused; `ac` and `76`
/// have names; every other byte is accepted under the catch-all variant.
pub open spec fn opcode_of(byte: u8) -> Result<Opcode, DecodeError> {
    if byte == 0xac {
        Ok(Opcode::OpChecksig)
    } else if byte == 0x76 {
        Ok(Opcode::OpDup)
    } else if byte == 0x00 {
        Err(DecodeError::InvalidOpcode(byte))
    } else {
        Ok(Opcode::OpInvalid)
    }
}

impl Opcode {
    /// Decodes one byte.
    pub fn from_byte(byte: u8) -> (decoded: Result<Opcode, DecodeError>)
        ensures
            decoded == opcode_of(byte),
            decoded is Err <==> byte == 0x00,
    {
        match byte {
            0xac => Ok(Opcode::OpChecksig),
            0x76 => Ok(Opcode::OpDup),
            0x00 => Err(DecodeError::InvalidOpcode(byte)),
            _ => Ok(Opcode::OpInvalid),
        }
    }
}

impl DecodeError {
    /// The text of [`DecodeError::message`]: a fixed lead, then the byte as
    /// two lower-case hex digits.
    pub open spec fn message_text(self) -> Seq<char> {
        match self {
            DecodeError::InvalidOpcode(byte) => "Invalid opcode: 0x"@ + hex_encoding(seq![byte]),
        }
    }

    /// A line for people, such as `Invalid opcode: 0x00`.
    pub fn message(&self) -> (text: String)
        ensures
            text@ == self.message_text(),
    {
        match self {
            DecodeError::InvalidOpcode(byte) => {
                let raw: [u8; 1] = [*byte];
                assert(raw@ =~= seq![*byte]);
                let digits = bytes_to_hex(raw.as_slice());
                String::from_str("Invalid opcode: 0x").concat(digits.as_str())
            },
        }
    }
}

} // verus!
