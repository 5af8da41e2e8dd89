//! Worked computations on the processor: a single four-bit operation run
//! as a stored program, and eight-bit arithmetic split over two nibbles.

use vstd::prelude::*;
use crate::alu::{alu_compute, ALUOperation};
use crate::cpu::{MachineState, CPU, OP_ADD, OP_HALT, OP_LDI, OP_LOAD, OP_STORE, OP_SUB};
use crate::full_adder::bit_value;
use crate::memory::{read_at, write_at};
use crate::nibble::{is_nibble, low_nibble, mask};

verus! {

/// Cell that holds the second operand of a single operation.
pub const OPERAND_ADDRESS: u8 = 0xD;

/// Cell that receives the result of a single operation.
pub const RESULT_ADDRESS: u8 = 0xE;

/// The opcode that makes the processor perform `operation`.
pub open spec fn opcode_of(operation: ALUOperation) -> u8 {
    match operation {
        ALUOperation::Add => OP_ADD,
        ALUOperation::Subtract => OP_SUB,
    }
}

/// The program of a single operation: load the first operand as an
/// immediate, combine it with the operand cell, store the accumulator in
/// the result cell, halt. Without an operation the program only halts.
pub open spec fn operation_words(a: u8, operation: Option<ALUOperation>) -> Seq<u8> {
    match operation {
        Some(op) => seq![
            OP_LDI,
            low_nibble(a),
            opcode_of(op),
            OPERAND_ADDRESS,
            OP_STORE,
            RESULT_ADDRESS,
            OP_HALT,
        ],
        None => seq![OP_HALT],
    }
}

/// The machine as it stands before a single operation runs: a new
/// processor with the second operand in its cell and the program loaded.
pub open spec fn operation_machine(a: u8, b: u8, operation: Option<ALUOperation>) -> MachineState {
    MachineState {
        memory: write_at(MachineState::initial().memory, OPERAND_ADDRESS, b),
        ..MachineState::initial()
    }.with_program(operation_words(a, operation))
}

/// What a single operation leaves behind: the word in the result cell, the
/// carry flag, and the number the two stand for.
#[derive(Debug, PartialEq, Eq, Structural)]
pub struct OperationOutcome {
    pub result: u8,
    pub carry: bool,
    pub total: u8,
}

/// The number that a result word and a carry stand for: an addition that
/// carried is worth sixteen more than its result word; everything else is
/// worth the result word.
pub open spec fn total_of(result: u8, carry: bool, operation: Option<ALUOperation>) -> int {
    if carry && operation == Some(ALUOperation::Add) {
        16 + result
    } else {
        result as int
    }
}

/// The outcome a single operation owes: what the arithmetic unit gives for
/// the two operands, or zero and no carry where there is no operation.
pub open spec fn operation_outcome(a: u8, b: u8, operation: Option<ALUOperation>) -> OperationOutcome {
    match operation {
        Some(op) => {
            let unit = alu_compute(a, b, op);
            OperationOutcome {
                result: unit.result,
                carry: unit.carry,
                total: total_of(unit.result, unit.carry, operation) as u8,
            }
        },
        None => OperationOutcome { result: 0, carry: false, total: 0 },
    }
}

/// The total of an addition is the true sum of the two four-bit operands,
/// also where that sum does not fit in four bits.
pub proof fn lemma_addition_total_is_sum(a: u8, b: u8)
    ensures
        operation_outcome(a, b, Some(ALUOperation::Add)).total == low_nibble(a) + low_nibble(b),
        operation_outcome(a, b, Some(ALUOperation::Add)).total == 16 * bit_value(
            operation_outcome(a, b, Some(ALUOperation::Add)).carry,
        ) + operation_outcome(a, b, Some(ALUOperation::Add)).result,
{
}

/// The program of a single operation halts after four instruction cycles,
/// with the arithmetic unit's result in both the result cell and the
/// accumulator and the unit's carry and zero in the flags.
pub proof fn lemma_operation_runs(a: u8, b: u8, operation: ALUOperation)
    ensures
        operation_machine(a, b, Some(operation)).halts_within(4),
        operation_machine(a, b, Some(operation)).halts(),
        ({
            let end = operation_machine(a, b, Some(operation)).after(4);
            let unit = alu_compute(a, b, operation);
            &&& end.halted
            &&& read_at(end.memory, RESULT_ADDRESS) == unit.result
            &&& end.registers.accumulator == unit.result
            &&& end.registers.carry_flag == unit.carry
            &&& end.registers.zero_flag == unit.zero
        }),
{
    let start = operation_machine(a, b, Some(operation));
    let words = operation_words(a, Some(operation));
    assert(words.len() == 7);
    assert(start.memory[0] == OP_LDI);
    assert(start.memory[1] == low_nibble(a));
    assert(start.memory[2] == opcode_of(operation));
    assert(start.memory[3] == OPERAND_ADDRESS);
    assert(start.memory[4] == OP_STORE);
    assert(start.memory[5] == RESULT_ADDRESS);
    assert(start.memory[6] == OP_HALT);
    assert(start.memory[OPERAND_ADDRESS as int] == low_nibble(b));

    let loaded = start.step();
    assert(loaded.registers.program_counter == 2);
    assert(loaded.registers.accumulator == low_nibble(a));
    assert(loaded.memory == start.memory);
    assert(!loaded.halted);

    let outcome = alu_compute(a, b, operation);
    let combined = loaded.step();
    assert(combined.registers.program_counter == 4);
    assert(combined.registers.accumulator == outcome.result);
    assert(combined.registers.carry_flag == outcome.carry);
    assert(combined.registers.zero_flag == outcome.zero);
    assert(combined.memory == start.memory);
    assert(!combined.halted);

    let stored = combined.step();
    assert(stored.registers.program_counter == 6);
    assert(stored.registers.accumulator == outcome.result);
    assert(stored.registers.carry_flag == outcome.carry);
    assert(stored.registers.zero_flag == outcome.zero);
    assert(stored.memory == write_at(start.memory, RESULT_ADDRESS, outcome.result));
    assert(!stored.halted);

    let halted = stored.step();
    assert(halted.halted);
    assert(halted.memory == stored.memory);
    assert(halted.registers.accumulator == outcome.result);

    reveal_with_fuel(MachineState::after, 5);
    assert(start.after(4) == halted);
    assert(start.halts_within(4));
}

/// A program that only halts stops after one instruction cycle and leaves
/// memory, accumulator and flags as they were.
pub proof fn lemma_halt_program_runs(state: MachineState)
    requires
        state.wf(),
        !state.halted,
        state.registers.program_counter == 0,
    ensures
        state.with_program(seq![OP_HALT]).halts_within(1),
        state.with_program(seq![OP_HALT]).halts(),
        ({
            let start = state.with_program(seq![OP_HALT]);
            let end = start.after(1);
            &&& end.halted
            &&& end.memory == start.memory
            &&& end.registers.accumulator == state.registers.accumulator
            &&& end.registers.zero_flag == state.registers.zero_flag
            &&& end.registers.carry_flag == state.registers.carry_flag
        }),
{
    let start = state.with_program(seq![OP_HALT]);
    assert(seq![OP_HALT].len() == 1);
    assert(start.memory[0] == OP_HALT);
    let halted = start.step();
    assert(halted.halted);
    assert(halted.memory == start.memory);
    reveal_with_fuel(MachineState::after, 2);
    assert(start.after(1) == halted);
    assert(start.halts_within(1));
}

/// Builds the program of a single operation on the first operand `a`.
pub fn operation_program(a: u8, operation: Option<ALUOperation>) -> (program: Vec<u8>)
    ensures
        program@ == operation_words(a, operation),
{
    let program = match operation {
        Some(ALUOperation::Add) => vec![
            OP_LDI, mask(a),
            OP_ADD, OPERAND_ADDRESS,
            OP_STORE, RESULT_ADDRESS,
            OP_HALT,
        ],
        Some(ALUOperation::Subtract) => vec![
            OP_LDI, mask(a),
            OP_SUB, OPERAND_ADDRESS,
            OP_STORE, RESULT_ADDRESS,
            OP_HALT,
        ],
        None => vec![OP_HALT],
    };
    assert(program@ =~= operation_words(a, operation));
    program
}

/// Runs a single operation on a new processor: the second operand goes to
/// its cell, the program is loaded and run to its halt, and the result cell
/// and the carry flag are read back.
pub fn demo_operation(a: u8, b: u8, operation: Option<ALUOperation>) -> (outcome: OperationOutcome)
    ensures
        outcome == operation_outcome(a, b, operation),
        is_nibble(outcome.result),
{
    let mut cpu = CPU::new();
    let program = operation_program(a, operation);

    cpu.memory.write(OPERAND_ADDRESS, mask(b));
    cpu.load_program(program.as_slice());
    proof {
        assert(cpu@ == operation_machine(a, b, operation));
        match operation {
            Some(op) => {
                lemma_operation_runs(a, b, op);
            },
            None => {
                let before = MachineState {
                    memory: write_at(MachineState::initial().memory, OPERAND_ADDRESS, b),
                    ..MachineState::initial()
                };
                lemma_halt_program_runs(before);
            },
        }
    }
    let ghost cycles: nat = if operation is Some { 4 } else { 1 };
    assert(cpu@.halts_within(cycles));
    cpu.run();

    let result = cpu.memory.read(RESULT_ADDRESS);
    let carry = cpu.registers.carry_flag;
    let total: u8 = match operation {
        Some(ALUOperation::Add) => if carry {
            16 + result
        } else {
            result
        },
        _ => result,
    };
    OperationOutcome { result, carry, total }
}

/// Cell that holds the high nibble of the first wide operand.
pub const A_HIGH_ADDRESS: u8 = 0xA;

/// Cell that holds the low nibble of the first wide operand.
pub const A_LOW_ADDRESS: u8 = 0xB;

/// Cell that holds the high nibble of the second wide operand.
pub const B_HIGH_ADDRESS: u8 = 0xC;

/// Cell that holds the low nibble of the second wide operand.
pub const B_LOW_ADDRESS: u8 = 0xD;

/// Cell that receives the high nibble the processor computes.
pub const HIGH_RESULT_ADDRESS: u8 = 0xE;

/// Cell that receives the low nibble the processor computes.
pub const LOW_RESULT_ADDRESS: u8 = 0xF;

/// Bits 4 to 7 of a wide operand.
pub open spec fn high_nibble_of(value: u16) -> u8 {
    ((value / 16) % 16) as u8
}

/// Bits 0 to 3 of a wide operand.
pub open spec fn low_nibble_of(value: u16) -> u8 {
    (value % 16) as u8
}

/// The program of a two-nibble operation: combine the low nibbles and store
/// the result, do the same with the high nibbles, halt. Each half starts
/// from a fresh load, so no carry passes from the low half to the high one.
/// Without an operation the program only halts.
pub open spec fn large_words(operation: Option<ALUOperation>) -> Seq<u8> {
    match operation {
        Some(op) => seq![
            OP_LOAD,
            A_LOW_ADDRESS,
            opcode_of(op),
            B_LOW_ADDRESS,
            OP_STORE,
            LOW_RESULT_ADDRESS,
            OP_LOAD,
            A_HIGH_ADDRESS,
            opcode_of(op),
            B_HIGH_ADDRESS,
            OP_STORE,
            HIGH_RESULT_ADDRESS,
            OP_HALT,
        ],
        None => seq![OP_HALT],
    }
}

/// A new processor with the four nibbles of two wide operands in their
/// cells.
pub open spec fn large_operands(a_high: u8, a_low: u8, b_high: u8, b_low: u8) -> MachineState {
    let placed = write_at(
        write_at(
            write_at(
                write_at(MachineState::initial().memory, A_HIGH_ADDRESS, a_high),
                A_LOW_ADDRESS,
                a_low,
            ),
            B_HIGH_ADDRESS,
            b_high,
        ),
        B_LOW_ADDRESS,
        b_low,
    );
    MachineState { memory: placed, ..MachineState::initial() }
}

/// The machine as it stands before a two-nibble operation runs: the four
/// operand nibbles in their cells, and the program loaded over that.
pub open spec fn large_machine(
    a_high: u8,
    a_low: u8,
    b_high: u8,
    b_low: u8,
    operation: Option<ALUOperation>,
) -> MachineState {
    large_operands(a_high, a_low, b_high, b_low).with_program(large_words(operation))
}

/// The two nibbles the processor leaves in its result cells, high before
/// low: each is the arithmetic unit's result for what the two operand cells
/// of its half hold when the program starts. Without an operation both
/// cells stay zero.
pub open spec fn machine_result(
    a_high: u8,
    a_low: u8,
    b_high: u8,
    b_low: u8,
    operation: Option<ALUOperation>,
) -> (u8, u8) {
    let memory = large_machine(a_high, a_low, b_high, b_low, operation).memory;
    match operation {
        Some(op) => (
            alu_compute(read_at(memory, A_HIGH_ADDRESS), read_at(memory, B_HIGH_ADDRESS), op).result,
            alu_compute(read_at(memory, A_LOW_ADDRESS), read_at(memory, B_LOW_ADDRESS), op).result,
        ),
        None => (0, 0),
    }
}

/// The thirteen words of a two-nibble program reach over the cells
/// `0xA` to `0xC`. Of the four operand nibbles only the low nibble of the
/// second operand, in cell `0xD`, is still in memory when the program runs;
/// the other three cells hold program words, and those are what the
/// processor combines.
pub proof fn lemma_large_program_covers_operands(
    a_high: u8,
    a_low: u8,
    b_high: u8,
    b_low: u8,
    operation: ALUOperation,
)
    ensures
        ({
            let memory = large_machine(a_high, a_low, b_high, b_low, Some(operation)).memory;
            &&& read_at(memory, A_HIGH_ADDRESS) == OP_STORE
            &&& read_at(memory, A_LOW_ADDRESS) == HIGH_RESULT_ADDRESS
            &&& read_at(memory, B_HIGH_ADDRESS) == OP_HALT
            &&& read_at(memory, B_LOW_ADDRESS) == low_nibble(b_low)
        }),
        machine_result(a_high, a_low, b_high, b_low, Some(operation)) == (
            alu_compute(OP_STORE, OP_HALT, operation).result,
            alu_compute(HIGH_RESULT_ADDRESS, b_low, operation).result,
        ),
{
    assert(large_words(Some(operation)).len() == 13);
}

/// The program of a two-nibble operation halts after seven instruction
/// cycles and leaves the two result cells as `machine_result` says.
pub proof fn lemma_large_runs(a_high: u8, a_low: u8, b_high: u8, b_low: u8, operation: ALUOperation)
    ensures
        large_machine(a_high, a_low, b_high, b_low, Some(operation)).halts_within(7),
        large_machine(a_high, a_low, b_high, b_low, Some(operation)).halts(),
        ({
            let end = large_machine(a_high, a_low, b_high, b_low, Some(operation)).after(7);
            let cells = machine_result(a_high, a_low, b_high, b_low, Some(operation));
            &&& end.halted
            &&& read_at(end.memory, HIGH_RESULT_ADDRESS) == cells.0
            &&& read_at(end.memory, LOW_RESULT_ADDRESS) == cells.1
        }),
{
    let start = large_machine(a_high, a_low, b_high, b_low, Some(operation));
    let words = large_words(Some(operation));
    assert(words.len() == 13);
    assert(start.memory[0] == OP_LOAD);
    assert(start.memory[1] == A_LOW_ADDRESS);
    assert(start.memory[2] == opcode_of(operation));
    assert(start.memory[3] == B_LOW_ADDRESS);
    assert(start.memory[4] == OP_STORE);
    assert(start.memory[5] == LOW_RESULT_ADDRESS);
    assert(start.memory[6] == OP_LOAD);
    assert(start.memory[7] == A_HIGH_ADDRESS);
    assert(start.memory[8] == opcode_of(operation));
    assert(start.memory[9] == B_HIGH_ADDRESS);
    assert(start.memory[10] == OP_STORE);
    assert(start.memory[11] == HIGH_RESULT_ADDRESS);
    assert(start.memory[12] == OP_HALT);
    let (high, low) = machine_result(a_high, a_low, b_high, b_low, Some(operation));

    let s1 = start.step();
    assert(s1.registers.program_counter == 2);
    assert(s1.registers.accumulator == start.memory[A_LOW_ADDRESS as int]);
    assert(s1.memory == start.memory);
    assert(!s1.halted);

    let s2 = s1.step();
    assert(s2.registers.program_counter == 4);
    assert(s2.registers.accumulator == low);
    assert(s2.memory == start.memory);
    assert(!s2.halted);

    let s3 = s2.step();
    let low_stored = write_at(start.memory, LOW_RESULT_ADDRESS, low);
    assert(s3.registers.program_counter == 6);
    assert(s3.memory == low_stored);
    assert(!s3.halted);

    let s4 = s3.step();
    assert(s4.registers.program_counter == 8);
    assert(s4.registers.accumulator == start.memory[A_HIGH_ADDRESS as int]);
    assert(s4.memory == low_stored);
    assert(!s4.halted);

    let s5 = s4.step();
    assert(s5.registers.program_counter == 10);
    assert(s5.registers.accumulator == high);
    assert(s5.memory == low_stored);
    assert(!s5.halted);

    let s6 = s5.step();
    assert(s6.registers.program_counter == 12);
    assert(s6.memory == write_at(low_stored, HIGH_RESULT_ADDRESS, high));
    assert(!s6.halted);

    let s7 = s6.step();
    assert(s7.halted);
    assert(s7.memory == s6.memory);

    reveal_with_fuel(MachineState::after, 8);
    assert(start.after(7) == s7);
    assert(start.halts_within(7));
}

/// The two nibbles of a wide operand spell its low eight bits.
pub proof fn lemma_nibbles_spell_low_byte(value: u16)
    ensures
        16 * high_nibble_of(value) + low_nibble_of(value) == value % 256,
{
    assert(16 * ((value / 16) % 16) + value % 16 == value % 256) by (bit_vector);
}

/// The number a two-nibble operation stands for, on the low eight bits of
/// each operand: the true sum, which may take nine bits, or the difference
/// modulo 256. Without an operation it is zero.
pub open spec fn wide_result(a: u16, b: u16, operation: Option<ALUOperation>) -> int {
    match operation {
        Some(ALUOperation::Add) => (a % 256) + (b % 256),
        Some(ALUOperation::Subtract) => ((a % 256) - (b % 256)) % 256,
        None => 0,
    }
}

/// What a two-nibble operation reports: the four operand nibbles, the two
/// nibbles the processor left in its result cells, and the number the
/// operation stands for, with the carry or borrow of the low nibbles passed
/// on to the high ones.
#[derive(Debug, PartialEq, Eq, Structural)]
pub struct LargeOutcome {
    pub a_high: u8,
    pub a_low: u8,
    pub b_high: u8,
    pub b_low: u8,
    pub machine_high: u8,
    pub machine_low: u8,
    pub actual: u16,
}

/// The report a two-nibble operation owes.
pub open spec fn large_outcome(a: u16, b: u16, operation: Option<ALUOperation>) -> LargeOutcome {
    LargeOutcome {
        a_high: high_nibble_of(a),
        a_low: low_nibble_of(a),
        b_high: high_nibble_of(b),
        b_low: low_nibble_of(b),
        machine_high: machine_result(
            high_nibble_of(a),
            low_nibble_of(a),
            high_nibble_of(b),
            low_nibble_of(b),
            operation,
        ).0,
        machine_low: machine_result(
            high_nibble_of(a),
            low_nibble_of(a),
            high_nibble_of(b),
            low_nibble_of(b),
            operation,
        ).1,
        actual: wide_result(a, b, operation) as u16,
    }
}

/// Builds the program of a two-nibble operation.
pub fn large_program(operation: Option<ALUOperation>) -> (program: Vec<u8>)
    ensures
        program@ == large_words(operation),
{
    let program = match operation {
        Some(ALUOperation::Add) => vec![
            OP_LOAD, A_LOW_ADDRESS,
            OP_ADD, B_LOW_ADDRESS,
            OP_STORE, LOW_RESULT_ADDRESS,
            OP_LOAD, A_HIGH_ADDRESS,
            OP_ADD, B_HIGH_ADDRESS,
            OP_STORE, HIGH_RESULT_ADDRESS,
            OP_HALT,
        ],
        Some(ALUOperation::Subtract) => vec![
            OP_LOAD, A_LOW_ADDRESS,
            OP_SUB, B_LOW_ADDRESS,
            OP_STORE, LOW_RESULT_ADDRESS,
            OP_LOAD, A_HIGH_ADDRESS,
            OP_SUB, B_HIGH_ADDRESS,
            OP_STORE, HIGH_RESULT_ADDRESS,
            OP_HALT,
        ],
        None => vec![OP_HALT],
    };
    assert(program@ =~= large_words(operation));
    program
}

/// Splits a wide operand into bits 4 to 7 and bits 0 to 3.
fn split_nibbles(value: u16) -> (nibbles: (u8, u8))
    ensures
        nibbles.0 == high_nibble_of(value),
        nibbles.1 == low_nibble_of(value),
        is_nibble(nibbles.0),
        is_nibble(nibbles.1),
{
    assert((value >> 4) & 0x0F == (value / 16) % 16) by (bit_vector);
    assert(value & 0x0F == value % 16) by (bit_vector);
    let high: u8 = ((value >> 4) & 0x0F) as u8;
    let low: u8 = (value & 0x0F) as u8;
    (high, low)
}

/// Combines two pairs of nibbles into the number their operation stands
/// for, passing the carry or borrow of the low pair on to the high pair.
fn combine_nibbles(
    a_high: u8,
    a_low: u8,
    b_high: u8,
    b_low: u8,
    operation: Option<ALUOperation>,
) -> (actual: u16)
    requires
        is_nibble(a_high),
        is_nibble(a_low),
        is_nibble(b_high),
        is_nibble(b_low),
    ensures
        actual == match operation {
            Some(ALUOperation::Add) => (16 * a_high + a_low) + (16 * b_high + b_low),
            Some(ALUOperation::Subtract) => ((16 * a_high + a_low) - (16 * b_high + b_low)) % 256,
            None => 0,
        },
{
    let (low_result, low_carry): (u8, bool) = match operation {
        Some(ALUOperation::Add) => {
            let sum: u8 = a_low + b_low;
            (mask(sum), sum > 15)
        },
        Some(ALUOperation::Subtract) => {
            if a_low >= b_low {
                (a_low - b_low, false)
            } else {
                (16 + a_low - b_low, true)
            }
        },
        None => (0, false),
    };

    let high_result: u8 = match operation {
        Some(ALUOperation::Add) => {
            let mut sum: u8 = a_high + b_high;
            if low_carry {
                sum += 1;
            }
            sum
        },
        Some(ALUOperation::Subtract) => {
            let mut diff: i16 = a_high as i16 - b_high as i16;
            if low_carry {
                diff -= 1;
            }
            (if diff < 0 {
                diff + 16
            } else {
                diff
            }) as u8
        },
        None => 0,
    };

    assert(high_result <= 31 && low_result <= 15 ==> ((high_result as u16) << 4) | (low_result as u16)
        == 16 * high_result + low_result) by (bit_vector);
    ((high_result as u16) << 4) | (low_result as u16)
}

/// Places four operand nibbles in a new processor's memory, loads the
/// program of a two-nibble operation over them, runs it to its halt and
/// reads the two result cells back, high before low.
fn run_large_program(
    a_high: u8,
    a_low: u8,
    b_high: u8,
    b_low: u8,
    operation: Option<ALUOperation>,
) -> (cells: (u8, u8))
    ensures
        cells == machine_result(a_high, a_low, b_high, b_low, operation),
{
    let mut cpu = CPU::new();

    cpu.memory.write(A_HIGH_ADDRESS, a_high);
    cpu.memory.write(A_LOW_ADDRESS, a_low);
    cpu.memory.write(B_HIGH_ADDRESS, b_high);
    cpu.memory.write(B_LOW_ADDRESS, b_low);

    let program = large_program(operation);
    cpu.load_program(program.as_slice());
    proof {
        assert(cpu@ == large_machine(a_high, a_low, b_high, b_low, operation));
        match operation {
            Some(op) => {
                lemma_large_runs(a_high, a_low, b_high, b_low, op);
            },
            None => {
                lemma_halt_program_runs(large_operands(a_high, a_low, b_high, b_low));
            },
        }
    }
    let ghost cycles: nat = if operation is Some { 7 } else { 1 };
    assert(cpu@.halts_within(cycles));
    cpu.run();

    let machine_high = cpu.memory.read(HIGH_RESULT_ADDRESS);
    let machine_low = cpu.memory.read(LOW_RESULT_ADDRESS);
    (machine_high, machine_low)
}

/// Runs a two-nibble operation on a new processor and works out the number
/// it stands for.
///
/// The operands are cut to their low eight bits and placed in memory as
/// four nibbles, the program is loaded and run to its halt, and the two
/// result cells are read back as the processor left them. The processor
/// carries nothing from the low nibbles to the high ones, so the number is
/// worked out beside it from the four nibbles.
pub fn demo_large_arithmetic(
    a: u16,
    b: u16,
    operation: Option<ALUOperation>,
) -> (outcome: LargeOutcome)
    ensures
        outcome == large_outcome(a, b, operation),
{
    let (a_high, a_low) = split_nibbles(a);
    let (b_high, b_low) = split_nibbles(b);
    let (machine_high, machine_low) = run_large_program(a_high, a_low, b_high, b_low, operation);
    let actual = combine_nibbles(a_high, a_low, b_high, b_low, operation);
    proof {
        lemma_nibbles_spell_low_byte(a);
        lemma_nibbles_spell_low_byte(b);
    }
    LargeOutcome { a_high, a_low, b_high, b_low, machine_high, machine_low, actual }
}

} // verus!
