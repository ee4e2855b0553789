//! The instruction encoding: a closed table of numeric opcodes and a total
//! decoding function from bytes to symbolic opcodes.
//!
//! The table is total in one direction (every opcode has exactly one numeric
//! code) and total-but-lossy in the other: every byte decodes to some opcode,
//! and every byte not explicitly assigned decodes to [`Opcode::IGL`]. An
//! illegal opcode is a first-class decoding result, not an error.

use vstd::prelude::*;

verus! {

/// Numeric code of the HLT (halt) instruction.
pub const OP_HLT: u8 = 1;

/// Numeric code of the LOAD instruction.
pub const OP_LOAD: u8 = 9;

/// A symbolic opcode, decoded from one byte of the program buffer.
#[derive(Debug, PartialEq, Eq, Structural, Clone, Copy)]
pub enum Opcode {
    /// Halt execution.
    HLT,
    /// Illegal instruction: the catch-all for every unassigned byte.
    IGL,
    /// Load a 16-bit immediate into a register.
    LOAD,
}

/// What one byte decodes to: [`OP_LOAD`] and [`OP_HLT`] map to their opcodes,
/// every other byte to [`Opcode::IGL`].
pub open spec fn decode(byte: u8) -> Opcode {
    if byte == OP_LOAD {
        Opcode::LOAD
    } else if byte == OP_HLT {
        Opcode::HLT
    } else {
        Opcode::IGL
    }
}

impl From<u8> for Opcode {
    fn from(v: u8) -> (r: Self) {
        match v {
            OP_LOAD => Self::LOAD,
            OP_HLT => Self::HLT,
            _ => Self::IGL,
        }
    }
}

impl vstd::std_specs::convert::FromSpecImpl<u8> for Opcode {
    open spec fn obeys_from_spec() -> bool {
        true
    }

    open spec fn from_spec(v: u8) -> Self {
        decode(v)
    }
}

/// Decoding is total: every byte decodes to one of the three opcodes, the two
/// assigned codes decode to LOAD and HLT, and every other byte decodes to IGL.
pub proof fn lemma_decode_total(byte: u8)
    ensures
        decode(byte) == Opcode::LOAD || decode(byte) == Opcode::HLT || decode(byte) == Opcode::IGL,
        decode(OP_LOAD) == Opcode::LOAD,
        decode(OP_HLT) == Opcode::HLT,
        byte != OP_LOAD && byte != OP_HLT ==> decode(byte) == Opcode::IGL,
{
}

/// A decoded instruction, as handed around by a front end. The engine itself
/// works directly on the program bytes.
pub struct Instruction {
    opcode: Opcode,
}

impl View for Instruction {
    type V = Opcode;

    closed spec fn view(&self) -> Opcode {
        self.opcode
    }
}

impl Instruction {
    /// Wraps an opcode as an instruction.
    pub fn new(opcode: Opcode) -> (r: Self)
        ensures
            r@ == opcode,
    {
        Self { opcode }
    }

    /// The opcode this instruction carries.
    pub fn opcode(&self) -> (r: Opcode)
        ensures
            r == self@,
    {
        self.opcode
    }
}

} // verus!
