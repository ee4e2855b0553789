//! The execution engine: a register file, a program counter and a program
//! buffer, driven by the fetch-decode-execute cycle.
//!
//! The whole machine is modelled by the spec-level [`VmView`]: one cycle is
//! [`step_spec`], and a full run is [`run_spec`], the iteration of the step
//! while it keeps executing complete LOAD instructions. The engine's public
//! operations are specified exactly against that model.
//!
//! Decoding HLT halts the machine cleanly; decoding an unassigned byte halts
//! it with [`Status::IllegalOpcode`] — both consume only the opcode byte.
//! Two faults the byte format itself cannot rule out are made explicit
//! instead of corrupting state: a LOAD whose operand bytes run past the end
//! of the program halts with [`Status::TruncatedInstruction`], and a LOAD
//! naming a register index outside the register file halts with
//! [`Status::InvalidRegister`]. A fault leaves the program counter where the
//! fault was found and the register file untouched.

use crate::instruction::{decode, Opcode};
use vstd::prelude::*;

verus! {

/// Number of slots in the register file.
pub const REGISTER_COUNT: usize = 32;

/// Why the machine is running or how it stopped.
#[derive(Debug, PartialEq, Eq, Structural, Clone, Copy)]
pub enum Status {
    /// The machine can keep executing.
    Running,
    /// The machine stopped cleanly: it decoded HLT or ran off the end of the
    /// program buffer.
    Halted,
    /// The machine decoded an unassigned opcode byte.
    IllegalOpcode,
    /// A LOAD named a register index outside the register file.
    InvalidRegister,
    /// A LOAD's operand bytes run past the end of the program buffer.
    TruncatedInstruction,
}

/// The mathematical state of the machine: the register file, the program
/// counter, the program bytes and the status.
pub ghost struct VmView {
    pub registers: Seq<i32>,
    pub pc: int,
    pub program: Seq<u8>,
    pub status: Status,
}

impl VmView {
    /// The register file always has exactly [`REGISTER_COUNT`] slots.
    pub open spec fn wf(self) -> bool {
        self.registers.len() == REGISTER_COUNT
    }
}

/// The state of a freshly constructed machine loaded with `program`: every
/// register zero, the program counter zero, and the machine running.
pub open spec fn init_view(program: Seq<u8>) -> VmView {
    VmView {
        registers: Seq::new(REGISTER_COUNT as nat, |i: int| 0i32),
        pc: 0,
        program,
        status: Status::Running,
    }
}

/// The value a LOAD stores: its first operand byte is the most significant
/// byte of the 16-bit immediate, the second the least significant.
pub open spec fn load_value(hi: u8, lo: u8) -> u16 {
    ((hi as u16) << 8) | (lo as u16)
}

/// One fetch-decode-execute cycle.
///
/// On an exhausted buffer the step only marks the machine halted. Otherwise
/// the opcode byte at the program counter is decoded and consumed; HLT and
/// IGL halt the machine there, and LOAD either stores its immediate and
/// leaves the machine running, or stops on one of the two faults.
pub open spec fn step_spec(v: VmView) -> VmView {
    if v.pc >= v.program.len() {
        VmView { status: Status::Halted, ..v }
    } else {
        match decode(v.program[v.pc]) {
            Opcode::HLT => VmView { pc: v.pc + 1, status: Status::Halted, ..v },
            Opcode::IGL => VmView { pc: v.pc + 1, status: Status::IllegalOpcode, ..v },
            Opcode::LOAD => {
                if v.pc + 4 > v.program.len() {
                    VmView { pc: v.pc + 1, status: Status::TruncatedInstruction, ..v }
                } else if v.program[v.pc + 1] >= REGISTER_COUNT as u8 {
                    VmView { pc: v.pc + 2, status: Status::InvalidRegister, ..v }
                } else {
                    VmView {
                        registers: v.registers.update(
                            v.program[v.pc + 1] as int,
                            load_value(v.program[v.pc + 2], v.program[v.pc + 3]) as i32,
                        ),
                        pc: v.pc + 4,
                        program: v.program,
                        status: Status::Running,
                    }
                }
            },
        }
    }
}

/// Whether the step at `v` keeps the machine running: there is a complete,
/// well-formed LOAD instruction at the program counter.
pub open spec fn step_continues(v: VmView) -> bool {
    &&& v.pc < v.program.len()
    &&& decode(v.program[v.pc]) == Opcode::LOAD
    &&& v.pc + 4 <= v.program.len()
    &&& v.program[v.pc + 1] < REGISTER_COUNT as u8
}

/// A full run: steps are taken until one stops the machine. Each continuing
/// step consumes a complete LOAD, so the program counter strictly grows and
/// the run terminates on every finite program.
pub open spec fn run_spec(v: VmView) -> VmView
    decreases v.program.len() - v.pc,
{
    if step_continues(v) {
        run_spec(step_spec(v))
    } else {
        step_spec(v)
    }
}

/// Running a given program from a freshly constructed machine is
/// deterministic: two machines loaded with the same bytes end with the same
/// registers, the same program counter and the same status.
pub proof fn lemma_run_deterministic(a: VmView, b: VmView, program: Seq<u8>)
    requires
        a == init_view(program),
        b == init_view(program),
    ensures
        run_spec(a) == run_spec(b),
{
}

/// Once the program counter has reached the end of the program buffer, a
/// step is a no-op: registers, program counter and program are unchanged,
/// and the machine only reports itself halted.
pub proof fn lemma_step_exhausted_is_noop(v: VmView)
    requires
        v.pc >= v.program.len(),
    ensures
        step_spec(v) == (VmView { status: Status::Halted, ..v }),
{
}

/// While program bytes remain, a step advances the program counter by
/// exactly the width of the instruction it executes: four bytes for a
/// complete LOAD, one byte for HLT or an illegal opcode. Every such step
/// strictly advances the counter.
pub proof fn lemma_step_advances_pc(v: VmView)
    requires
        v.pc < v.program.len(),
    ensures
        step_continues(v) ==> step_spec(v).pc == v.pc + 4,
        decode(v.program[v.pc]) == Opcode::HLT ==> step_spec(v).pc == v.pc + 1,
        decode(v.program[v.pc]) == Opcode::IGL ==> step_spec(v).pc == v.pc + 1,
        step_spec(v).pc > v.pc,
{
}

/// A step never pushes the program counter past the end of the program
/// buffer.
pub proof fn lemma_step_pc_bounded(v: VmView)
    requires
        v.pc <= v.program.len(),
    ensures
        step_spec(v).pc <= v.program.len(),
{
}

/// A full run never pushes the program counter past the end of the program
/// buffer, and never moves it backwards.
pub proof fn lemma_run_pc_bounded(v: VmView)
    requires
        v.pc <= v.program.len(),
    ensures
        run_spec(v).pc <= v.program.len(),
        run_spec(v).pc >= v.pc,
    decreases v.program.len() - v.pc,
{
    if step_continues(v) {
        lemma_run_pc_bounded(step_spec(v));
    }
}

/// A step never changes the loaded program.
pub proof fn lemma_step_preserves_program(v: VmView)
    ensures
        step_spec(v).program == v.program,
{
}

/// The register-based virtual machine.
pub struct VM {
    /// The register file: 32 signed 32-bit slots.
    registers: [i32; 32],
    /// The program counter: the offset of the next byte to fetch.
    pc: usize,
    /// The program buffer: the bytes being executed.
    program: Vec<u8>,
    /// Why the machine is running or how it stopped.
    status: Status,
}

impl View for VM {
    type V = VmView;

    closed spec fn view(&self) -> VmView {
        VmView {
            registers: self.registers@,
            pc: self.pc as int,
            program: self.program@,
            status: self.status,
        }
    }
}

impl VM {
    /// A fresh machine: every register zero, the program counter zero, an
    /// empty program buffer, and the machine running.
    pub fn new() -> (vm: Self)
        ensures
            vm@ == init_view(Seq::<u8>::empty()),
            vm@.wf(),
    {
        let vm = Self {
            registers: [0i32; 32],
            pc: 0,
            program: Vec::new(),
            status: Status::Running,
        };
        proof {
            assert(vm@.registers =~= init_view(Seq::<u8>::empty()).registers);
            assert(vm@.program =~= Seq::<u8>::empty());
        }
        vm
    }

    /// Installs a program buffer, replacing any prior one. Registers, program
    /// counter and status are left as they are; a caller re-running from
    /// scratch constructs a fresh machine.
    pub fn load(&mut self, program: Vec<u8>)
        ensures
            final(self)@ == (VmView { program: program@, ..old(self)@ }),
    {
        self.program = program;
    }

    /// Runs the machine until it halts: on HLT, on an illegal opcode, on a
    /// fault, or when the program counter reaches the end of the buffer.
    pub fn run(&mut self)
        ensures
            final(self)@ == run_spec(old(self)@),
    {
        let ghost orig = self@;
        let mut more = self.execute_instruction();
        while more
            invariant
                more ==> self@.pc <= self@.program.len(),
                run_spec(orig) == (if more {
                    run_spec(self@)
                } else {
                    self@
                }),
            decreases self@.program.len() - self@.pc + (if more {
                1int
            } else {
                0int
            }),
        {
            more = self.execute_instruction();
        }
    }

    /// Performs exactly one fetch-decode-execute cycle, whether or not the
    /// machine has already halted. Once the program counter has reached the
    /// end of the buffer, further calls change nothing but the status.
    pub fn run_once(&mut self)
        ensures
            final(self)@ == step_spec(old(self)@),
    {
        let _ = self.execute_instruction();
    }

    /// One cycle of the machine, exactly [`step_spec`]; the result says
    /// whether the machine keeps running.
    fn execute_instruction(&mut self) -> (more: bool)
        ensures
            final(self)@ == step_spec(old(self)@),
            more == step_continues(old(self)@),
    {
        if self.is_pc_exceed_program_len() {
            self.status = Status::Halted;
            return false;
        }

        match self.decode_opcode() {
            Opcode::LOAD => {
                if self.program.len() - self.pc < 3 {
                    self.status = Status::TruncatedInstruction;
                    return false;
                }
                let register = self.next_8_bits() as usize;
                if register >= REGISTER_COUNT {
                    self.status = Status::InvalidRegister;
                    return false;
                }
                let number = self.next_16_bits();
                self.registers[register] = number as i32;
                self.status = Status::Running;
                true
            },
            Opcode::HLT => {
                self.status = Status::Halted;
                false
            },
            Opcode::IGL => {
                self.status = Status::IllegalOpcode;
                false
            },
        }
    }

    /// Whether the program counter has reached the end of the program
    /// buffer; once it has, the machine must stop.
    fn is_pc_exceed_program_len(&self) -> (r: bool)
        ensures
            r == (self@.pc >= self@.program.len()),
    {
        self.pc >= self.program.len()
    }

    /// Fetches and decodes the opcode byte at the program counter, advancing
    /// the counter past it.
    fn decode_opcode(&mut self) -> (op: Opcode)
        requires
            old(self)@.pc < old(self)@.program.len(),
        ensures
            final(self)@ == (VmView { pc: old(self)@.pc + 1, ..old(self)@ }),
            op == decode(old(self)@.program[old(self)@.pc]),
    {
        let current_bit = self.current_bit();
        self.increment_pc_by_8_bit();
        Opcode::from(current_bit)
    }

    /// Fetches the byte at the program counter, advancing the counter past
    /// it.
    fn next_8_bits(&mut self) -> (r: u8)
        requires
            old(self)@.pc < old(self)@.program.len(),
        ensures
            final(self)@ == (VmView { pc: old(self)@.pc + 1, ..old(self)@ }),
            r == old(self)@.program[old(self)@.pc],
    {
        let current_bit = self.current_bit();
        self.increment_pc_by_8_bit();
        current_bit
    }

    /// Fetches the two bytes at the program counter as one 16-bit value, the
    /// first byte as the most significant half, advancing the counter past
    /// both. The bytes are combined before the counter moves past either.
    fn next_16_bits(&mut self) -> (r: u16)
        requires
            old(self)@.pc + 1 < old(self)@.program.len(),
        ensures
            final(self)@ == (VmView { pc: old(self)@.pc + 2, ..old(self)@ }),
            r == load_value(old(self)@.program[old(self)@.pc], old(self)@.program[old(self)@.pc + 1]),
    {
        let mut current_bit = self.current_bit() as u16;
        current_bit = current_bit << 8;
        current_bit = current_bit | (self.peek_next_8_bits() as u16);
        self.increment_pc_by_8_bit();
        self.increment_pc_by_8_bit();
        current_bit
    }

    /// Reads the byte at the program counter without advancing.
    fn current_bit(&self) -> (r: u8)
        requires
            self@.pc < self@.program.len(),
        ensures
            r == self@.program[self@.pc],
    {
        self.program[self.pc]
    }

    /// Reads the byte just past the program counter without advancing.
    fn peek_next_8_bits(&self) -> (r: u8)
        requires
            self@.pc + 1 < self@.program.len(),
        ensures
            r == self@.program[self@.pc + 1],
    {
        proof {
            assert(self.program.len() == self@.program.len());
        }
        self.program[self.pc + 1]
    }

    /// Advances the program counter by one byte.
    fn increment_pc_by_8_bit(&mut self)
        requires
            old(self)@.pc < old(self)@.program.len(),
        ensures
            final(self)@ == (VmView { pc: old(self)@.pc + 1, ..old(self)@ }),
    {
        proof {
            assert(self.program.len() == self@.program.len());
        }
        self.pc += 1;
    }

    /// The value of one register slot.
    pub fn register(&self, index: usize) -> (r: i32)
        requires
            index < REGISTER_COUNT,
        ensures
            r == self@.registers[index as int],
    {
        self.registers[index]
    }

    /// The current program counter.
    pub fn pc(&self) -> (r: usize)
        ensures
            r == self@.pc,
    {
        self.pc
    }

    /// The length of the loaded program buffer.
    pub fn program_len(&self) -> (r: usize)
        ensures
            r == self@.program.len(),
    {
        self.program.len()
    }

    /// Why the machine is running or how it stopped.
    pub fn status(&self) -> (r: Status)
        ensures
            r == self@.status,
    {
        self.status
    }
}

} // verus!
