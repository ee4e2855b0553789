//! A sketch of a larger 16-bit machine's register and opcode tables. Nothing
//! in the execution engine uses these; they only enumerate the names.

use vstd::prelude::*;

verus! {

/// The registers of the 16-bit machine: eight general-purpose registers, a
/// program counter and a condition flag. COUNT closes the enumeration.
#[derive(Debug, PartialEq, Eq, Structural, Clone, Copy)]
pub enum Register {
    R0,
    R1,
    R2,
    R3,
    R4,
    R5,
    R6,
    R7,
    PC,
    COND,
    COUNT,
}

/// The register that a numeric register code names, for codes 0 through 9.
pub open spec fn register_of(value: u16) -> Register
    recommends
        value <= 9,
{
    match value {
        0u16 => Register::R0,
        1u16 => Register::R1,
        2u16 => Register::R2,
        3u16 => Register::R3,
        4u16 => Register::R4,
        5u16 => Register::R5,
        6u16 => Register::R6,
        7u16 => Register::R7,
        8u16 => Register::PC,
        _ => Register::COND,
    }
}

impl Register {
    /// Looks a register up by its numeric code. Codes above 9 name no
    /// register and are excluded by the precondition.
    pub fn from_u16(value: u16) -> (r: Register)
        requires
            value <= 9,
        ensures
            r == register_of(value),
    {
        match value {
            0 => Register::R0,
            1 => Register::R1,
            2 => Register::R2,
            3 => Register::R3,
            4 => Register::R4,
            5 => Register::R5,
            6 => Register::R6,
            7 => Register::R7,
            8 => Register::PC,
            _ => Register::COND,
        }
    }
}

/// The opcode names of the 16-bit machine.
#[derive(Debug, PartialEq, Eq, Structural, Clone, Copy)]
pub enum Opcodes {
    BR,
    ADD,
    LD,
    ST,
    JSR,
    AND,
    LDR,
    STR,
    RTI,
    NOT,
    LDI,
    STI,
    JMP,
    RES,
    LEA,
    TRAP,
}

/// The condition flags of the 16-bit machine.
#[derive(Debug, PartialEq, Eq, Structural, Clone, Copy)]
pub enum Flags {
    POS,
    ZRO,
    NEG,
}

} // verus!
