//! The interrupt table: 256 gate descriptors indexed by vector number, and
//! the location descriptor that tells the processor where the table lies.

use vstd::prelude::*;
use crate::bytes::le_bytes;
use crate::bytes::lemma_eight_bytes;
use crate::bytes::lemma_two_bytes;
use crate::descriptor::gate_encoding;
use crate::descriptor::IdtEntry;

verus! {

/// Number of vectors, and so of gates in the table.
pub const TABLE_ENTRIES: usize = 256;

/// Size in bytes of the encoded table: sixteen bytes for each of 256 gates.
pub const TABLE_SIZE: usize = 4096;

/// The limit that the processor is given for the table: its size minus one.
pub const TABLE_LIMIT: u16 = 4095;

/// The bytes of a whole table: the encodings of its gates, vector 0 first.
pub open spec fn table_encoding(table: Seq<Option<u64>>) -> Seq<u8> {
    Seq::new(16 * table.len(), |i: int| gate_encoding(table[i / 16])[i % 16])
}

/// The table that a list of handler entry points describes: vector `v` gets
/// a gate to `entry_points[v]`, and the vectors past the end of the list
/// get none.
pub open spec fn table_of(entry_points: Seq<u64>) -> Seq<Option<u64>> {
    Seq::new(
        256,
        |vector: int|
            if vector < entry_points.len() {
                Some(entry_points[vector])
            } else {
                None
            },
    )
}

/// The ten bytes the processor reads when the table's location is loaded:
/// the 16-bit limit, then the 64-bit base address.
pub open spec fn pointer_encoding(pointer: IdtPointer) -> Seq<u8> {
    le_bytes(pointer.limit as int, 2) + le_bytes(pointer.base as int, 8)
}

/// The location descriptor of an interrupt table: what the processor's
/// interrupt-table register is loaded with.
#[derive(Clone, Copy, Debug, PartialEq, Eq, Structural)]
pub struct IdtPointer {
    /// Size of the table in bytes, minus one.
    pub limit: u16,
    /// Address of the table's first byte.
    pub base: u64,
}

impl IdtPointer {
    /// The ten bytes of this descriptor in the layout the processor reads.
    pub fn to_bytes(&self) -> (bytes: [u8; 10])
        ensures
            bytes@ == pointer_encoding(*self),
    {
        let limit: u16 = self.limit;
        let base: u64 = self.base;
        let bytes: [u8; 10] = [
            limit as u8,
            (limit >> 8) as u8,
            base as u8,
            (base >> 8) as u8,
            (base >> 16) as u8,
            (base >> 24) as u8,
            (base >> 32) as u8,
            (base >> 40) as u8,
            (base >> 48) as u8,
            (base >> 56) as u8,
        ];
        proof {
            lemma_two_bytes(limit);
            lemma_eight_bytes(base);
            assert(bytes@ =~= pointer_encoding(*self));
        }
        bytes
    }
}

/// The table of gate descriptors, one per vector.
#[derive(Clone, Debug, PartialEq, Eq)]
pub struct Idt {
    entries: [IdtEntry; 256],
}

impl View for Idt {
    type V = Seq<Option<u64>>;

    /// What each vector's descriptor says, by vector number: the handler's entry
    /// address, or `None` where no handler was assigned.
    closed spec fn view(&self) -> Seq<Option<u64>> {
        Seq::new(256, |vector: int| self.entries@[vector]@)
    }
}

impl Idt {
    /// A table has one gate for each of the 256 vectors.
    pub proof fn lemma_len(&self)
        ensures
            self@.len() == 256,
    {
    }

    /// The table in which no vector has a handler.
    pub fn new() -> (table: Idt)
        ensures
            table@ == table_of(Seq::empty()),
    {
        let table = Idt { entries: [IdtEntry::missing(); 256] };
        assert(table@ =~= table_of(Seq::empty()));
        table
    }

    /// The table whose first vectors have the handlers at `entry_points`, in
    /// order. There is none to build when the list is longer than the table
    /// or names the null address as an entry point.
    pub fn with_entry_points(entry_points: &Vec<u64>) -> (table: Option<Idt>)
        ensures
            table.is_some() <==> entry_points@.len() <= 256 && forall|vector: int|
                0 <= vector < entry_points@.len() ==> entry_points@[vector] != 0,
            table matches Some(built) ==> built@ == table_of(entry_points@),
    {
        if entry_points.len() > TABLE_ENTRIES {
            return None;
        }
        let mut table = Idt::new();
        let mut vector: usize = 0;
        while vector < entry_points.len()
            invariant
                vector <= entry_points@.len() <= 256,
                forall|done: int| 0 <= done < vector ==> entry_points@[done] != 0,
                table@ == table_of(entry_points@.take(vector as int)),
            decreases entry_points@.len() - vector,
        {
            let base: u64 = entry_points[vector];
            if base == 0 {
                return None;
            }
            table.set_isr(vector as u8, IdtEntry::new(base));
            assert(table@ =~= table_of(entry_points@.take(vector + 1)));
            vector += 1;
        }
        assert(entry_points@.take(vector as int) =~= entry_points@);
        Some(table)
    }

    /// Replaces the descriptor of vector `num`; every other one stays as it was.
    pub fn set_isr(&mut self, num: u8, entry: IdtEntry)
        ensures
            final(self)@ == old(self)@.update(num as int, entry@),
    {
        self.entries[num as usize] = entry;
        assert(self@ =~= old(self)@.update(num as int, entry@));
    }

    /// The descriptor of vector `num`.
    pub fn entry(&self, num: u8) -> (entry: IdtEntry)
        ensures
            entry@ == self@[num as int],
    {
        self.entries[num as usize]
    }

    /// The location descriptor for this table when its first byte lies at
    /// address `base`: the value to load into the processor's
    /// interrupt-table register.
    pub fn install(&self, base: u64) -> (pointer: IdtPointer)
        ensures
            pointer == (IdtPointer { limit: TABLE_LIMIT, base }),
            pointer.limit == table_encoding(self@).len() - 1,
    {
        IdtPointer { limit: TABLE_LIMIT, base }
    }

    /// The 4096 bytes of the table in the layout the processor reads.
    pub fn to_bytes(&self) -> (bytes: Vec<u8>)
        ensures
            bytes@ == table_encoding(self@),
    {
        let mut bytes: Vec<u8> = Vec::new();
        let mut vector: usize = 0;
        while vector < TABLE_ENTRIES
            invariant
                vector <= 256,
                bytes@.len() == 16 * vector,
                forall|i: int|
                    0 <= i < 16 * vector ==> bytes@[i] == gate_encoding(self@[i / 16])[i % 16],
            decreases 256 - vector,
        {
            let gate: [u8; 16] = self.entries[vector].to_bytes();
            let mut offset: usize = 0;
            while offset < 16
                invariant
                    vector < 256,
                    offset <= 16,
                    gate@ == gate_encoding(self@[vector as int]),
                    bytes@.len() == 16 * vector + offset,
                    forall|i: int|
                        0 <= i < 16 * vector + offset ==> bytes@[i] == gate_encoding(
                            self@[i / 16],
                        )[i % 16],
                decreases 16 - offset,
            {
                bytes.push(gate[offset]);
                offset += 1;
            }
            vector += 1;
        }
        assert(bytes@ =~= table_encoding(self@));
        bytes
    }
}

} // verus!
