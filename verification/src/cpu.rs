//! The processor: a fetch-decode-execute engine over a register file, a
//! memory bank and an arithmetic unit.
//!
//! The machine is modelled by [`MachineState`], a plain record of what the
//! registers, flags and memory hold. One instruction cycle is the function
//! [`MachineState::step`]; the executable processor is proved to follow it.

use vstd::prelude::*;
use crate::alu::{alu_compute, ALUOperation, ALU};
use crate::memory::{is_memory, load_at, read_at, write_at, zeroed, Memory};
use crate::nibble::{is_nibble, low_nibble};
use crate::registers::{CPURegisters, RegisterState};

verus! {

/// Opcode of `LOAD`: the accumulator takes the word at the operand address.
pub const OP_LOAD: u8 = 0x1;

/// Opcode of `STORE`: the word at the operand address takes the accumulator.
pub const OP_STORE: u8 = 0x2;

/// Opcode of `ADD`: the word at the operand address is added to the
/// accumulator.
pub const OP_ADD: u8 = 0x3;

/// Opcode of `SUB`: the word at the operand address is subtracted from the
/// accumulator.
pub const OP_SUB: u8 = 0x4;

/// Opcode of `LDI`: the accumulator takes the operand itself.
pub const OP_LDI: u8 = 0x5;

/// Opcode of `HALT`: the processor stops.
pub const OP_HALT: u8 = 0xF;

/// A decoded instruction with its operand, if it has one.
#[derive(Debug, Clone, Copy, PartialEq, Eq, Structural)]
pub enum Instruction {
    NOP,
    LOAD(u8),
    STORE(u8),
    ADD(u8),
    SUB(u8),
    LDI(u8),
    HALT,
}

/// Whether an opcode is followed by an operand word.
pub open spec fn takes_operand(opcode: u8) -> bool {
    OP_LOAD <= opcode <= OP_LDI
}

/// The instruction that `opcode` selects, carrying `operand` where the
/// opcode takes one. Opcodes that select nothing are no-ops.
pub open spec fn instruction_of(opcode: u8, operand: u8) -> Instruction {
    if opcode == OP_LOAD {
        Instruction::LOAD(operand)
    } else if opcode == OP_STORE {
        Instruction::STORE(operand)
    } else if opcode == OP_ADD {
        Instruction::ADD(operand)
    } else if opcode == OP_SUB {
        Instruction::SUB(operand)
    } else if opcode == OP_LDI {
        Instruction::LDI(operand)
    } else if opcode == OP_HALT {
        Instruction::HALT
    } else {
        Instruction::NOP
    }
}

/// Everything a processor holds, as plain values.
pub struct MachineState {
    pub registers: RegisterState,
    pub memory: Seq<u8>,
    pub halted: bool,
}

impl MachineState {
    /// Registers and memory cells all hold four-bit words, and there are
    /// sixteen cells.
    pub open spec fn wf(self) -> bool {
        &&& self.registers.wf()
        &&& is_memory(self.memory)
    }

    /// The state of a new processor: running, everything zero.
    pub open spec fn initial() -> MachineState {
        MachineState { registers: RegisterState::initial(), memory: zeroed(), halted: false }
    }

    /// The state with `program` copied into memory from address zero up.
    pub open spec fn with_program(self, program: Seq<u8>) -> MachineState {
        MachineState { memory: load_at(self.memory, program), ..self }
    }

    /// The word the program counter points at.
    pub open spec fn next_word(self) -> u8 {
        read_at(self.memory, self.registers.program_counter)
    }

    /// The state after a fetch: the instruction register holds the fetched
    /// word and the program counter has advanced by one, wrapping at 16.
    pub open spec fn fetched(self) -> MachineState {
        MachineState {
            registers: RegisterState {
                instruction_register: self.next_word(),
                program_counter: ((self.registers.program_counter + 1) % 16) as u8,
                ..self.registers
            },
            ..self
        }
    }

    /// The state after `opcode` is decoded: an opcode that takes an operand
    /// costs one more fetch.
    pub open spec fn decoded(self, opcode: u8) -> MachineState {
        if takes_operand(opcode) {
            self.fetched()
        } else {
            self
        }
    }

    /// The instruction that decoding `opcode` yields: its operand, where it
    /// has one, is the word the program counter points at.
    pub open spec fn decoded_instruction(self, opcode: u8) -> Instruction {
        instruction_of(opcode, self.next_word())
    }

    /// The state with `value` in the accumulator and the flags recomputed
    /// from `value` and `carry`.
    pub open spec fn accumulated(self, value: u8, carry: bool) -> MachineState {
        MachineState {
            registers: RegisterState {
                accumulator: low_nibble(value),
                ..self.registers
            }.with_flags(value, carry),
            ..self
        }
    }

    /// The state after the arithmetic unit has combined the accumulator with
    /// the word at `address`: the result is in the accumulator, the zero
    /// flag follows the result and the carry flag the unit's carry.
    pub open spec fn computed(self, address: u8, operation: ALUOperation) -> MachineState {
        let outcome = alu_compute(
            self.registers.accumulator,
            read_at(self.memory, address),
            operation,
        );
        self.accumulated(outcome.result, outcome.carry)
    }

    /// The state after `instruction` is carried out.
    pub open spec fn executed(self, instruction: Instruction) -> MachineState {
        match instruction {
            Instruction::NOP => self,
            Instruction::LOAD(address) => self.accumulated(read_at(self.memory, address), false),
            Instruction::STORE(address) => MachineState {
                memory: write_at(self.memory, address, self.registers.accumulator),
                ..self
            },
            Instruction::ADD(address) => self.computed(address, ALUOperation::Add),
            Instruction::SUB(address) => self.computed(address, ALUOperation::Subtract),
            Instruction::LDI(value) => self.accumulated(value, false),
            Instruction::HALT => MachineState { halted: true, ..self },
        }
    }

    /// The state after one instruction cycle. A halted machine stays as it
    /// is; a running one fetches an opcode, decodes it and executes the
    /// instruction.
    pub open spec fn step(self) -> MachineState {
        if self.halted {
            self
        } else {
            let opcode = self.next_word();
            let fetched = self.fetched();
            fetched.decoded(opcode).executed(fetched.decoded_instruction(opcode))
        }
    }

    /// The state after `cycles` instruction cycles.
    pub open spec fn after(self, cycles: nat) -> MachineState
        decreases cycles,
    {
        if cycles == 0 {
            self
        } else {
            self.step().after((cycles - 1) as nat)
        }
    }

    /// Whether the machine is halted once `cycles` instruction cycles have
    /// passed.
    pub open spec fn halts_within(self, cycles: nat) -> bool {
        self.after(cycles).halted
    }

    /// Whether the machine ever halts.
    pub open spec fn halts(self) -> bool {
        exists|cycles: nat| self.halts_within(cycles)
    }
}

/// A halted machine is inert: no number of further cycles changes any
/// register, flag or memory cell.
pub proof fn lemma_halted_is_fixed(state: MachineState, cycles: nat)
    requires
        state.halted,
    ensures
        state.after(cycles) == state,
    decreases cycles,
{
    if cycles > 0 {
        lemma_halted_is_fixed(state, (cycles - 1) as nat);
    }
}

/// Running `first` cycles and then `second` more is running `first + second`
/// cycles.
pub proof fn lemma_after_splits(state: MachineState, first: nat, second: nat)
    ensures
        state.after(first + second) == state.after(first).after(second),
    decreases first,
{
    if first > 0 {
        lemma_after_splits(state.step(), (first - 1) as nat, second);
    }
}

/// Once a machine has halted, it is in the same state at every later time.
pub proof fn lemma_halt_is_final(state: MachineState, halt: nat, later: nat)
    requires
        state.halts_within(halt),
        halt <= later,
    ensures
        state.after(later) == state.after(halt),
        state.halts_within(later),
{
    lemma_after_splits(state, halt, (later - halt) as nat);
    lemma_halted_is_fixed(state.after(halt), (later - halt) as nat);
}

/// No number of instruction cycles takes a register or a memory cell out
/// of the four-bit range, or changes the number of cells.
pub proof fn lemma_cycles_preserve_wf(state: MachineState, cycles: nat)
    requires
        state.wf(),
    ensures
        state.step().wf(),
        state.after(cycles).wf(),
    decreases cycles,
{
    if cycles > 0 {
        lemma_cycles_preserve_wf(state.step(), (cycles - 1) as nat);
    }
}

/// A four-bit processor.
#[derive(Debug)]
pub struct CPU {
    pub registers: CPURegisters,
    pub memory: Memory,
    pub alu: ALU,
    pub halted: bool,
}

impl View for CPU {
    type V = MachineState;

    open spec fn view(&self) -> MachineState {
        MachineState { registers: self.registers@, memory: self.memory@, halted: self.halted }
    }
}

impl CPU {
    /// A running processor with all registers and memory cells zero.
    pub fn new() -> (cpu: Self)
        ensures
            cpu@ == MachineState::initial(),
    {
        CPU {
            registers: CPURegisters::new(),
            memory: Memory::new(),
            alu: ALU::new(),
            halted: false,
        }
    }

    /// Returns the processor to its initial state.
    pub fn reset(&mut self)
        ensures
            final(self)@ == MachineState::initial(),
    {
        self.registers.reset();
        self.memory.clear();
        self.halted = false;
    }

    /// Copies `program` into memory from address zero up, at most sixteen
    /// words of it. Registers, flags and the halted state are untouched.
    pub fn load_program(&mut self, program: &[u8])
        ensures
            final(self)@ == old(self)@.with_program(program@),
    {
        self.memory.load_program(program);
    }

    /// Reads the word at the program counter into the instruction register
    /// and advances the program counter.
    pub fn fetch(&mut self) -> (word: u8)
        ensures
            word == old(self)@.next_word(),
            final(self)@ == old(self)@.fetched(),
            is_nibble(word),
    {
        let pc = self.registers.program_counter.read();
        let instruction = self.memory.read(pc);
        self.registers.instruction_register.write(instruction);
        self.registers.program_counter.increment();
        instruction
    }

    /// Turns an opcode into an instruction, fetching the operand where the
    /// opcode takes one.
    pub fn decode(&mut self, opcode: u8) -> (instruction: Instruction)
        ensures
            instruction == old(self)@.decoded_instruction(opcode),
            final(self)@ == old(self)@.decoded(opcode),
    {
        match opcode {
            OP_LOAD => Instruction::LOAD(self.fetch()),
            OP_STORE => Instruction::STORE(self.fetch()),
            OP_ADD => Instruction::ADD(self.fetch()),
            OP_SUB => Instruction::SUB(self.fetch()),
            OP_LDI => Instruction::LDI(self.fetch()),
            OP_HALT => Instruction::HALT,
            _ => Instruction::NOP,
        }
    }

    /// Carries out one instruction.
    pub fn execute(&mut self, instruction: Instruction)
        ensures
            final(self)@ == old(self)@.executed(instruction),
    {
        match instruction {
            Instruction::NOP => {},
            Instruction::LOAD(addr) => {
                let value = self.memory.read(addr);
                self.registers.accumulator.write(value);
                self.registers.update_flags(value, false);
            },
            Instruction::STORE(addr) => {
                let value = self.registers.accumulator.read();
                self.memory.write(addr, value);
            },
            Instruction::ADD(addr) => {
                let a = self.registers.accumulator.read();
                let b = self.memory.read(addr);
                let result = self.alu.compute(a, b, ALUOperation::Add);
                self.registers.accumulator.write(result.result);
                self.registers.update_flags(result.result, result.carry);
            },
            Instruction::SUB(addr) => {
                let a = self.registers.accumulator.read();
                let b = self.memory.read(addr);
                let result = self.alu.compute(a, b, ALUOperation::Subtract);
                self.registers.accumulator.write(result.result);
                self.registers.update_flags(result.result, result.carry);
            },
            Instruction::LDI(value) => {
                self.registers.accumulator.write(value);
                self.registers.update_flags(value, false);
            },
            Instruction::HALT => {
                self.halted = true;
            },
        }
    }

    /// Runs one instruction cycle: fetch, decode, execute. Does nothing once
    /// the processor has halted.
    pub fn cycle(&mut self)
        ensures
            final(self)@ == old(self)@.step(),
            old(self).halted ==> final(self)@ == old(self)@,
    {
        if self.halted {
            return;
        }
        let instruction_byte = self.fetch();
        let instruction = self.decode(instruction_byte);
        self.execute(instruction);
    }

    /// Runs instruction cycles until the processor halts.
    ///
    /// The loaded program must reach `HALT`; on one that never does there is
    /// no state to return.
    pub fn run(&mut self)
        requires
            old(self)@.halts(),
        ensures
            final(self).halted,
            forall|cycles: nat| #[trigger]
                old(self)@.halts_within(cycles) ==> final(self)@ == old(self)@.after(cycles),
    {
        let ghost bound: nat = choose|cycles: nat| old(self)@.halts_within(cycles);
        let ghost mut done: nat = 0;
        while !self.halted
            invariant
                done <= bound,
                old(self)@.halts_within(bound),
                self@ == old(self)@.after(done),
            decreases bound - done,
        {
            proof {
                if done == bound {
                    assert(self@.halted);
                }
                lemma_after_splits(old(self)@, done, 1);
                assert(self@.after(1) == self@.step()) by {
                    assert(self@.step().after(0) == self@.step());
                }
                done = done + 1;
            }
            self.cycle();
        }
        proof {
            assert forall|cycles: nat| #[trigger]
                old(self)@.halts_within(cycles) implies self@ == old(self)@.after(cycles) by {
                if cycles >= done {
                    lemma_halt_is_final(old(self)@, done, cycles);
                } else {
                    lemma_halt_is_final(old(self)@, cycles, done);
                }
            }
        }
    }

    /// Runs instruction cycles until the processor halts or `max_cycles` of
    /// them have passed, whichever comes first, and says whether the
    /// processor is halted. This is the way to run a program that is not
    /// known to reach `HALT`.
    pub fn run_bounded(&mut self, max_cycles: usize) -> (halted: bool)
        ensures
            final(self)@ == old(self)@.after(max_cycles as nat),
            halted == final(self).halted,
            halted == old(self)@.halts_within(max_cycles as nat),
    {
        let mut used: usize = 0;
        while used < max_cycles && !self.halted
            invariant
                used <= max_cycles,
                self@ == old(self)@.after(used as nat),
            decreases max_cycles - used,
        {
            proof {
                lemma_after_splits(old(self)@, used as nat, 1);
                assert(self@.after(1) == self@.step()) by {
                    assert(self@.step().after(0) == self@.step());
                }
            }
            self.cycle();
            used += 1;
        }
        proof {
            if used < max_cycles {
                lemma_halt_is_final(old(self)@, used as nat, max_cycles as nat);
            }
        }
        self.halted
    }
}

impl Default for CPU {
    fn default() -> (cpu: Self)
        ensures
            cpu@ == MachineState::initial(),
    {
        Self::new()
    }
}

} // verus!
