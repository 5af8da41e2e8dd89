//! The memory bank: sixteen cells of four bits each. Addresses wrap modulo
//! sixteen, so every address names a cell.

use vstd::prelude::*;
use crate::nibble::{is_nibble, low_nibble, mask};

verus! {

/// Number of cells in a memory bank.
pub const MEMORY_SIZE: usize = 16;

/// A cell holding one four-bit word.
#[derive(Debug, Clone, Copy)]
pub struct MemoryCell {
    data: u8,
}

impl View for MemoryCell {
    type V = u8;

    /// The word the cell holds.
    closed spec fn view(&self) -> u8 {
        self.data
    }
}

impl MemoryCell {
    /// The stored word never leaves the range `0..=15`.
    #[verifier::type_invariant]
    spec fn in_range(&self) -> bool {
        is_nibble(self.data)
    }

    /// A cell holding zero.
    pub fn new() -> (cell: Self)
        ensures
            cell@ == 0,
    {
        MemoryCell { data: 0 }
    }

    /// A cell holding the low four bits of `value`.
    pub fn with_value(value: u8) -> (cell: Self)
        ensures
            cell@ == low_nibble(value),
    {
        MemoryCell { data: mask(value) }
    }

    /// The word the cell holds.
    pub fn read(&self) -> (value: u8)
        ensures
            value == self@,
            is_nibble(value),
    {
        proof {
            use_type_invariant(self);
        }
        self.data
    }

    /// Stores the low four bits of `value`.
    pub fn write(&mut self, value: u8)
        ensures
            final(self)@ == low_nibble(value),
    {
        self.data = mask(value);
    }
}

impl Default for MemoryCell {
    fn default() -> (cell: Self)
        ensures
            cell@ == 0,
    {
        Self::new()
    }
}

/// Whether `cells` is the content of some memory bank: sixteen words, each
/// of four bits.
pub open spec fn is_memory(cells: Seq<u8>) -> bool {
    &&& cells.len() == MEMORY_SIZE
    &&& forall|i: int| 0 <= i < cells.len() ==> is_nibble(#[trigger] cells[i])
}

/// The word found at `address`, which is taken modulo sixteen.
pub open spec fn read_at(cells: Seq<u8>, address: u8) -> u8 {
    cells[low_nibble(address) as int]
}

/// The contents after the low four bits of `value` are stored at `address`,
/// which is taken modulo sixteen.
pub open spec fn write_at(cells: Seq<u8>, address: u8, value: u8) -> Seq<u8> {
    cells.update(low_nibble(address) as int, low_nibble(value))
}

/// The contents after `program` is copied to the cells from address zero
/// up: a cell that the program reaches holds the low four bits of its word,
/// every other cell is untouched, and words past the sixteenth are dropped.
pub open spec fn load_at(cells: Seq<u8>, program: Seq<u8>) -> Seq<u8> {
    Seq::new(
        cells.len(),
        |i: int|
            if i < program.len() {
                low_nibble(program[i])
            } else {
                cells[i]
            },
    )
}

/// Sixteen cells that all hold zero.
pub open spec fn zeroed() -> Seq<u8> {
    Seq::new(MEMORY_SIZE as nat, |i: int| 0u8)
}

/// An address and the value stored under it may each be replaced by their
/// remainder modulo sixteen without changing what a write stores or what a
/// read finds, and a read finds what the last write to its cell stored.
pub proof fn lemma_addresses_wrap(cells: Seq<u8>, address: u8, value: u8)
    requires
        is_memory(cells),
    ensures
        write_at(cells, address, value) == write_at(
            cells,
            low_nibble(address),
            low_nibble(value),
        ),
        read_at(cells, address) == read_at(cells, low_nibble(address)),
        read_at(write_at(cells, address, value), address) == low_nibble(value),
        read_at(write_at(cells, address, value), low_nibble(address)) == low_nibble(value),
        read_at(write_at(cells, low_nibble(address), low_nibble(value)), address) == low_nibble(
            value,
        ),
        is_memory(write_at(cells, address, value)),
{
}

/// A write leaves every cell but its own as it was.
pub proof fn lemma_write_is_local(cells: Seq<u8>, address: u8, value: u8, other: u8)
    requires
        is_memory(cells),
        low_nibble(other) != low_nibble(address),
    ensures
        read_at(write_at(cells, address, value), other) == read_at(cells, other),
{
}

/// Sixteen cells of four bits, addressed `0..=15`.
#[derive(Debug)]
pub struct Memory {
    cells: [MemoryCell; 16],
}

impl View for Memory {
    type V = Seq<u8>;

    /// The sixteen stored words, by address.
    closed spec fn view(&self) -> Seq<u8> {
        Seq::new(MEMORY_SIZE as nat, |i: int| self.cells@[i]@)
    }
}

impl Memory {
    /// Every cell holds a four-bit word.
    #[verifier::type_invariant]
    spec fn cells_in_range(&self) -> bool {
        forall|i: int| 0 <= i < MEMORY_SIZE ==> is_nibble(#[trigger] self.cells@[i]@)
    }

    /// A bank with every cell zero.
    pub fn new() -> (memory: Self)
        ensures
            memory@ == zeroed(),
            is_memory(memory@),
    {
        let memory = Memory { cells: [MemoryCell::new(); 16] };
        assert(memory@ =~= zeroed());
        memory
    }

    /// The word at `address`, taken modulo sixteen.
    pub fn read(&self, address: u8) -> (value: u8)
        ensures
            value == read_at(self@, address),
            is_nibble(value),
            is_memory(self@),
    {
        proof {
            use_type_invariant(self);
        }
        let addr: usize = mask(address) as usize;
        self.cells[addr].read()
    }

    /// Stores the low four bits of `value` at `address`, taken modulo
    /// sixteen. No other cell changes.
    pub fn write(&mut self, address: u8, value: u8)
        ensures
            final(self)@ == write_at(old(self)@, address, value),
            is_memory(final(self)@),
    {
        proof {
            use_type_invariant(&*self);
        }
        let addr: usize = mask(address) as usize;
        self.cells[addr] = MemoryCell::with_value(value);
        assert(self@ =~= write_at(old(self)@, address, value));
    }

    /// Copies `program` to the cells from address zero up, at most sixteen
    /// words of it.
    pub fn load_program(&mut self, program: &[u8])
        ensures
            final(self)@ == load_at(old(self)@, program@),
            is_memory(final(self)@),
    {
        proof {
            use_type_invariant(&*self);
        }
        let mut i: usize = 0;
        while i < program.len() && i < MEMORY_SIZE
            invariant
                i <= program.len(),
                i <= MEMORY_SIZE,
                is_memory(self@),
                is_memory(old(self)@),
                forall|j: int| 0 <= j < i ==> self@[j] == low_nibble(#[trigger] program@[j]),
                forall|j: int| i <= j < MEMORY_SIZE ==> self@[j] == #[trigger] old(self)@[j],
            decreases MEMORY_SIZE - i,
        {
            self.write(i as u8, program[i]);
            i += 1;
        }
        assert(self@ =~= load_at(old(self)@, program@));
    }

    /// A copy of all sixteen words, by address.
    pub fn dump(&self) -> (snapshot: [u8; 16])
        ensures
            snapshot@ == self@,
            is_memory(self@),
    {
        proof {
            use_type_invariant(self);
        }
        let mut dump = [0u8; 16];
        let mut i: usize = 0;
        while i < MEMORY_SIZE
            invariant
                i <= MEMORY_SIZE,
                forall|j: int| 0 <= j < i ==> dump@[j] == #[trigger] self@[j],
            decreases MEMORY_SIZE - i,
        {
            dump[i] = self.cells[i].read();
            i += 1;
        }
        assert(dump@ =~= self@);
        dump
    }

    /// Zeroes every cell.
    pub fn clear(&mut self)
        ensures
            final(self)@ == zeroed(),
            is_memory(final(self)@),
    {
        let mut i: usize = 0;
        while i < MEMORY_SIZE
            invariant
                i <= MEMORY_SIZE,
                forall|j: int| 0 <= j < i ==> (#[trigger] self.cells@[j])@ == 0,
            decreases MEMORY_SIZE - i,
        {
            proof {
                use_type_invariant(&*self);
            }
            self.cells[i] = MemoryCell::new();
            i += 1;
        }
        assert(self@ =~= zeroed());
    }
}

impl Default for Memory {
    fn default() -> (memory: Self)
        ensures
            memory@ == zeroed(),
    {
        Self::new()
    }
}

} // verus!
