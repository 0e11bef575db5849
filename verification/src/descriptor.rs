//! The descriptor codec: one 16-byte gate record per interrupt vector, in the
//! layout the processor reads.
//!
//! A gate is modelled by what it means to the processor: either it is missing
//! (all bytes zero, "not present"), or it points at a handler entry address,
//! with the kernel code selector and the interrupt-gate attribute byte.

use vstd::prelude::*;
use crate::bytes::le_bytes;
use crate::bytes::lemma_two_bytes;
use crate::bytes::lemma_four_bytes;
use crate::bytes::lemma_le_bytes_len;
use crate::bytes::lemma_zero_bytes;

verus! {

/// Selector of the kernel code segment, placed in every present gate.
pub const KERNEL_CODE_SELECTOR: u16 = 0x8;

/// Attribute byte of every present gate: present, ring 0, 64-bit interrupt gate.
pub const INTERRUPT_GATE_FLAGS: u8 = 0x8e;

/// The present bit within the attribute byte.
pub const PRESENT_BIT: u8 = 0x80;

/// Size in bytes of one encoded gate descriptor.
pub const GATE_SIZE: usize = 16;

/// Bits 0..16 of an entry address: the descriptor's low address field.
pub open spec fn low_part(address: u64) -> int {
    address as int % 0x1_0000
}

/// Bits 16..32 of an entry address: the descriptor's middle address field.
pub open spec fn mid_part(address: u64) -> int {
    (address as int / 0x1_0000) % 0x1_0000
}

/// Bits 32..64 of an entry address: the descriptor's high address field.
pub open spec fn high_part(address: u64) -> int {
    address as int / 0x1_0000_0000
}

/// The address that three address sub-fields spell when put side by side.
pub open spec fn join_parts(low: int, mid: int, high: int) -> int {
    low + mid * 0x1_0000 + high * 0x1_0000_0000
}

/// The 16 bytes the processor reads for a gate: address bits 0..16, selector,
/// a zero byte, the attribute byte, address bits 16..32, address bits 32..64
/// and four reserved zero bytes. A missing gate is sixteen zero bytes.
pub open spec fn gate_encoding(gate: Option<u64>) -> Seq<u8> {
    match gate {
        Some(address) => le_bytes(low_part(address), 2) + le_bytes(
            KERNEL_CODE_SELECTOR as int,
            2,
        ) + seq![0u8, INTERRUPT_GATE_FLAGS] + le_bytes(mid_part(address), 2) + le_bytes(
            high_part(address),
            4,
        ) + le_bytes(0, 4),
        None => le_bytes(0, 16),
    }
}

/// Every gate, present or missing, encodes as sixteen bytes.
pub proof fn lemma_gate_encoding_len(gate: Option<u64>)
    ensures
        gate_encoding(gate).len() == 16,
{
    lemma_le_bytes_len(0, 16);
    lemma_le_bytes_len(0, 4);
    if let Some(address) = gate {
        lemma_le_bytes_len(low_part(address), 2);
        lemma_le_bytes_len(KERNEL_CODE_SELECTOR as int, 2);
        lemma_le_bytes_len(mid_part(address), 2);
        lemma_le_bytes_len(high_part(address), 4);
    }
}

/// Splitting an entry address into the three address sub-fields and putting
/// them side by side again gives back exactly that address, and each part
/// fits the width of its field.
pub proof fn lemma_address_round_trip(address: u64)
    ensures
        join_parts(low_part(address), mid_part(address), high_part(address)) == address,
        0 <= low_part(address) < 0x1_0000,
        0 <= mid_part(address) < 0x1_0000,
        0 <= high_part(address) < 0x1_0000_0000,
{
}

/// The three address sub-fields determine the address: two addresses with
/// the same parts are the same address.
pub proof fn lemma_parts_determine_address(first: u64, second: u64)
    requires
        low_part(first) == low_part(second),
        mid_part(first) == mid_part(second),
        high_part(first) == high_part(second),
    ensures
        first == second,
{
    lemma_address_round_trip(first);
    lemma_address_round_trip(second);
}

/// The encoding loses nothing: the processor, reading the sixteen bytes,
/// finds a handler exactly where one was encoded, and finds exactly the
/// address that was encoded.
pub proof fn lemma_encoding_is_faithful(first: Option<u64>, second: Option<u64>)
    requires
        gate_encoding(first) == gate_encoding(second),
    ensures
        first == second,
{
    lemma_zero_bytes(16);
    match (first, second) {
        (Some(one), Some(other)) => {
            let (low, mid, high) = lemma_present_bytes(one);
            let (other_low, other_mid, other_high) = lemma_present_bytes(other);
            let bytes = gate_encoding(first);
            assert(bytes[0] == low as u8 && bytes[0] == other_low as u8);
            assert(bytes[1] == (low >> 8) as u8 && bytes[1] == (other_low >> 8) as u8);
            assert(bytes[6] == mid as u8 && bytes[6] == other_mid as u8);
            assert(bytes[7] == (mid >> 8) as u8 && bytes[7] == (other_mid >> 8) as u8);
            assert(bytes[8] == high as u8 && bytes[8] == other_high as u8);
            assert(bytes[9] == (high >> 8) as u8 && bytes[9] == (other_high >> 8) as u8);
            assert(bytes[10] == (high >> 16) as u8 && bytes[10] == (other_high >> 16) as u8);
            assert(bytes[11] == (high >> 24) as u8 && bytes[11] == (other_high >> 24) as u8);
            lemma_bytes_determine_short_field(low, other_low);
            lemma_bytes_determine_short_field(mid, other_mid);
            lemma_bytes_determine_long_field(high, other_high);
            lemma_parts_determine_address(one, other);
        },
        (Some(one), None) => {
            let fields = lemma_present_bytes(one);
            assert(gate_encoding(first)[5] == INTERRUPT_GATE_FLAGS);
        },
        (None, Some(other)) => {
            let fields = lemma_present_bytes(other);
            assert(gate_encoding(second)[5] == INTERRUPT_GATE_FLAGS);
        },
        (None, None) => {},
    }
}

/// The bytes of a present gate, written out, and the fields they come from.
proof fn lemma_present_bytes(address: u64) -> (fields: (u16, u16, u32))
    ensures
        fields.0 == low_part(address),
        fields.1 == mid_part(address),
        fields.2 == high_part(address),
        gate_encoding(Some(address)) == seq![
            fields.0 as u8,
            (fields.0 >> 8) as u8,
            KERNEL_CODE_SELECTOR as u8,
            (KERNEL_CODE_SELECTOR >> 8) as u8,
            0u8,
            INTERRUPT_GATE_FLAGS,
            fields.1 as u8,
            (fields.1 >> 8) as u8,
            fields.2 as u8,
            (fields.2 >> 8) as u8,
            (fields.2 >> 16) as u8,
            (fields.2 >> 24) as u8,
            0u8,
            0u8,
            0u8,
            0u8,
        ],
{
    lemma_address_round_trip(address);
    let low = low_part(address) as u16;
    let mid = mid_part(address) as u16;
    let high = high_part(address) as u32;
    lemma_fields_encode(low, KERNEL_CODE_SELECTOR, INTERRUPT_GATE_FLAGS, mid, high);
    (low, mid, high)
}

/// A 16-bit field is determined by its bytes.
proof fn lemma_bytes_determine_short_field(first: u16, second: u16)
    requires
        first as u8 == second as u8,
        (first >> 8) as u8 == (second >> 8) as u8,
    ensures
        first == second,
{
    assert(first == second) by (bit_vector)
        requires
            first as u8 == second as u8,
            (first >> 8) as u8 == (second >> 8) as u8,
    ;
}

/// A 32-bit field is determined by its bytes.
proof fn lemma_bytes_determine_long_field(first: u32, second: u32)
    requires
        first as u8 == second as u8,
        (first >> 8) as u8 == (second >> 8) as u8,
        (first >> 16) as u8 == (second >> 16) as u8,
        (first >> 24) as u8 == (second >> 24) as u8,
    ensures
        first == second,
{
    assert(first == second) by (bit_vector)
        requires
            first as u8 == second as u8,
            (first >> 8) as u8 == (second >> 8) as u8,
            (first >> 16) as u8 == (second >> 16) as u8,
            (first >> 24) as u8 == (second >> 24) as u8,
    ;
}

/// A gate descriptor: where the processor jumps for one vector.
#[derive(Clone, Copy, Debug, PartialEq, Eq)]
pub struct IdtEntry {
    base_low: u16,
    selector: u16,
    zero: u8,
    flags: u8,
    base_mid: u16,
    base_high: u32,
    reserved: u32,
}

impl View for IdtEntry {
    type V = Option<u64>;

    /// `Some(address)` for a present gate that sends the processor to
    /// `address`, `None` for a missing one.
    closed spec fn view(&self) -> Option<u64> {
        if self.flags == INTERRUPT_GATE_FLAGS {
            Some(join_parts(self.base_low as int, self.base_mid as int, self.base_high as int) as u64)
        } else {
            None
        }
    }
}

impl IdtEntry {
    /// Every descriptor is either the all-zero missing gate or a present
    /// interrupt gate in the kernel code segment with a non-null address;
    /// the padding fields are zero in both.
    #[verifier::type_invariant]
    closed spec fn well_formed(self) -> bool {
        &&& self.zero == 0
        &&& self.reserved == 0
        &&& if self.flags == INTERRUPT_GATE_FLAGS {
            &&& self.selector == KERNEL_CODE_SELECTOR
            &&& join_parts(self.base_low as int, self.base_mid as int, self.base_high as int) != 0
        } else {
            &&& self.flags == 0
            &&& self.selector == 0
            &&& self.base_low == 0
            &&& self.base_mid == 0
            &&& self.base_high == 0
        }
    }

    /// Builds the present gate for the handler whose entry point is `base`.
    /// The null address is no entry point: a handler that does not exist
    /// cannot be written down as present.
    pub fn new(base: u64) -> (entry: IdtEntry)
        requires
            base != 0,
        ensures
            entry@ == Some(base),
    {
        let base_low: u16 = base as u16;
        let base_mid: u16 = (base >> 16) as u16;
        let base_high: u32 = (base >> 32) as u32;
        assert(base_low as int + base_mid as int * 0x1_0000 + base_high as int * 0x1_0000_0000
            == base as int) by (bit_vector)
            requires
                base_low == base as u16,
                base_mid == (base >> 16) as u16,
                base_high == (base >> 32) as u32,
        ;
        IdtEntry {
            base_low,
            selector: KERNEL_CODE_SELECTOR,
            zero: 0,
            flags: INTERRUPT_GATE_FLAGS,
            base_mid,
            base_high,
            reserved: 0,
        }
    }

    /// The zero-filled descriptor of a vector that has no handler.
    pub fn missing() -> (entry: IdtEntry)
        ensures
            entry@ == None::<u64>,
    {
        IdtEntry {
            base_low: 0,
            selector: 0,
            zero: 0,
            flags: 0,
            base_mid: 0,
            base_high: 0,
            reserved: 0,
        }
    }

    /// Whether the processor finds a handler behind this gate.
    pub fn is_present(&self) -> (present: bool)
        ensures
            present == self@.is_some(),
    {
        proof {
            use_type_invariant(self);
            assert(0x8eu8 & 0x80u8 != 0 && 0u8 & 0x80u8 == 0) by (bit_vector);
        }
        self.flags & PRESENT_BIT != 0
    }

    /// Decodes the three address sub-fields and puts them side by side: the
    /// entry address of a present gate, `None` for a missing one.
    pub fn handler_address(&self) -> (address: Option<u64>)
        ensures
            address == self@,
    {
        if self.flags == INTERRUPT_GATE_FLAGS {
            let low: u16 = self.base_low;
            let mid: u16 = self.base_mid;
            let high: u32 = self.base_high;
            let joined: u64 = ((high as u64) << 32) | ((mid as u64) << 16) | (low as u64);
            assert(joined as int == low as int + mid as int * 0x1_0000 + high as int
                * 0x1_0000_0000) by (bit_vector)
                requires
                    joined == ((high as u64) << 32) | ((mid as u64) << 16) | (low as u64),
            ;
            Some(joined)
        } else {
            None
        }
    }

    /// The three address sub-fields as they stand in the descriptor: bits
    /// 0..16, bits 16..32 and bits 32..64 of the entry address. All three
    /// are zero in a missing descriptor.
    pub fn address_parts(&self) -> (parts: (u16, u16, u32))
        ensures
            match self@ {
                Some(address) => parts.0 == low_part(address) && parts.1 == mid_part(address)
                    && parts.2 == high_part(address),
                None => parts == (0u16, 0u16, 0u32),
            },
    {
        proof {
            use_type_invariant(self);
            lemma_fields_are_parts(self.base_low, self.base_mid, self.base_high);
        }
        (self.base_low, self.base_mid, self.base_high)
    }

    /// The code-segment selector: the kernel's in a present descriptor, zero
    /// in a missing one.
    pub fn selector(&self) -> (selector: u16)
        ensures
            selector == if self@.is_some() {
                KERNEL_CODE_SELECTOR
            } else {
                0
            },
    {
        proof {
            use_type_invariant(self);
        }
        self.selector
    }

    /// The attribute byte: present, ring 0, 64-bit interrupt gate in a
    /// present descriptor, zero in a missing one.
    pub fn flags(&self) -> (flags: u8)
        ensures
            flags == if self@.is_some() {
                INTERRUPT_GATE_FLAGS
            } else {
                0
            },
    {
        proof {
            use_type_invariant(self);
        }
        self.flags
    }

    /// The sixteen bytes of this descriptor in the layout the processor reads.
    pub fn to_bytes(&self) -> (bytes: [u8; 16])
        ensures
            bytes@ == gate_encoding(self@),
    {
        proof {
            use_type_invariant(self);
        }
        let low: u16 = self.base_low;
        let selector: u16 = self.selector;
        let mid: u16 = self.base_mid;
        let high: u32 = self.base_high;
        let bytes: [u8; 16] = [
            low as u8,
            (low >> 8) as u8,
            selector as u8,
            (selector >> 8) as u8,
            self.zero,
            self.flags,
            mid as u8,
            (mid >> 8) as u8,
            high as u8,
            (high >> 8) as u8,
            (high >> 16) as u8,
            (high >> 24) as u8,
            0,
            0,
            0,
            0,
        ];
        proof {
            lemma_fields_encode(low, selector, self.flags, mid, high);
            if self.flags == INTERRUPT_GATE_FLAGS {
                lemma_fields_are_parts(low, mid, high);
            } else {
                lemma_zero_bytes(16);
            }
            assert(bytes@ =~= gate_encoding(self@));
        }
        bytes
    }
}

/// The sub-fields that spell an address are the parts of that address.
proof fn lemma_fields_are_parts(low: u16, mid: u16, high: u32)
    ensures
        low_part(join_parts(low as int, mid as int, high as int) as u64) == low,
        mid_part(join_parts(low as int, mid as int, high as int) as u64) == mid,
        high_part(join_parts(low as int, mid as int, high as int) as u64) == high,
{
    let address: u64 = (low as int + mid as int * 0x1_0000 + high as int * 0x1_0000_0000) as u64;
    assert(address as int % 0x1_0000 == low as int && (address as int / 0x1_0000) % 0x1_0000
        == mid as int && address as int / 0x1_0000_0000 == high as int) by (bit_vector)
        requires
            address as int == low as int + mid as int * 0x1_0000 + high as int * 0x1_0000_0000,
    ;
}

/// The bytes of a descriptor, field by field, as its fields are laid out.
proof fn lemma_fields_encode(low: u16, selector: u16, flags: u8, mid: u16, high: u32)
    ensures
        le_bytes(low as int, 2) + le_bytes(selector as int, 2) + seq![0u8, flags] + le_bytes(
            mid as int,
            2,
        ) + le_bytes(high as int, 4) + le_bytes(0, 4) == seq![
            low as u8,
            (low >> 8) as u8,
            selector as u8,
            (selector >> 8) as u8,
            0u8,
            flags,
            mid as u8,
            (mid >> 8) as u8,
            high as u8,
            (high >> 8) as u8,
            (high >> 16) as u8,
            (high >> 24) as u8,
            0u8,
            0u8,
            0u8,
            0u8,
        ],
{
    lemma_two_bytes(low);
    lemma_two_bytes(selector);
    lemma_two_bytes(mid);
    lemma_four_bytes(high);
    lemma_zero_bytes(4);
    assert(le_bytes(0, 4) =~= seq![0u8, 0u8, 0u8, 0u8]);
    assert(seq![low as u8, (low >> 8) as u8] + seq![selector as u8, (selector >> 8) as u8]
        + seq![0u8, flags] + seq![mid as u8, (mid >> 8) as u8] + seq![
        high as u8,
        (high >> 8) as u8,
        (high >> 16) as u8,
        (high >> 24) as u8,
    ] + seq![0u8, 0u8, 0u8, 0u8] =~= seq![
        low as u8,
        (low >> 8) as u8,
        selector as u8,
        (selector >> 8) as u8,
        0u8,
        flags,
        mid as u8,
        (mid >> 8) as u8,
        high as u8,
        (high >> 8) as u8,
        (high >> 16) as u8,
        (high >> 24) as u8,
        0u8,
        0u8,
        0u8,
        0u8,
    ]);
}

} // verus!
