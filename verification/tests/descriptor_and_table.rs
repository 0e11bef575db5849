use interrupts::descriptor::IdtEntry;
use interrupts::descriptor::GATE_SIZE;
use interrupts::descriptor::INTERRUPT_GATE_FLAGS;
use interrupts::descriptor::KERNEL_CODE_SELECTOR;
use interrupts::table::Idt;
use interrupts::table::IdtPointer;
use interrupts::table::TABLE_ENTRIES;
use interrupts::table::TABLE_LIMIT;
use interrupts::table::TABLE_SIZE;

fn sample_addresses() -> Vec<u64> {
    vec![
        1,
        0xffff,
        0x1_0000,
        0xffff_ffff,
        0x1_0000_0000,
        0x0010_2030,
        0x1122_3344_5566_7788,
        0xffff_8000_0010_4a20,
        u64::MAX,
    ]
}

#[test]
fn gate_keeps_the_exact_address() {
    for address in sample_addresses() {
        let entry: IdtEntry = IdtEntry::new(address);
        assert_eq!(entry.handler_address(), Some(address));
        assert!(entry.is_present());
    }
}

#[test]
fn gate_address_round_trips_through_the_bytes() {
    for address in sample_addresses() {
        let bytes: [u8; 16] = IdtEntry::new(address).to_bytes();
        let low: u64 = u16::from_le_bytes([bytes[0], bytes[1]]) as u64;
        let mid: u64 = u16::from_le_bytes([bytes[6], bytes[7]]) as u64;
        let high: u64 = u32::from_le_bytes([bytes[8], bytes[9], bytes[10], bytes[11]]) as u64;
        assert_eq!(low | (mid << 16) | (high << 32), address);
    }
}

#[test]
fn gate_bytes_follow_the_hardware_layout() {
    let bytes: [u8; 16] = IdtEntry::new(0x1122_3344_5566_7788).to_bytes();
    assert_eq!(
        bytes,
        [0x88, 0x77, 0x08, 0x00, 0x00, 0x8e, 0x66, 0x55, 0x44, 0x33, 0x22, 0x11, 0, 0, 0, 0]
    );
    assert_eq!(bytes.len(), GATE_SIZE);
    assert_eq!(u16::from_le_bytes([bytes[2], bytes[3]]), KERNEL_CODE_SELECTOR);
    assert_eq!(bytes[5], INTERRUPT_GATE_FLAGS);
}

#[test]
fn gate_attribute_byte_says_present_ring_zero_interrupt_gate() {
    let flags: u8 = IdtEntry::new(0x40_0000).to_bytes()[5];
    assert_eq!(flags & 0x80, 0x80);
    assert_eq!((flags >> 5) & 0x3, 0);
    assert_eq!(flags & 0x1f, 0x0e);
}

#[test]
fn gate_fields_hold_the_parts_of_the_address() {
    let entry: IdtEntry = IdtEntry::new(0x1122_3344_5566_7788);
    assert_eq!(entry.address_parts(), (0x7788, 0x5566, 0x1122_3344));
    assert_eq!(entry.selector(), 0x8);
    assert_eq!(entry.flags(), 0x8e);
    for address in sample_addresses() {
        let (low, mid, high): (u16, u16, u32) = IdtEntry::new(address).address_parts();
        assert_eq!(low as u64, address & 0xffff);
        assert_eq!(mid as u64, (address >> 16) & 0xffff);
        assert_eq!(high as u64, address >> 32);
        assert_eq!(low as u64 + ((mid as u64) << 16) + ((high as u64) << 32), address);
    }
    let missing: IdtEntry = IdtEntry::missing();
    assert_eq!(missing.address_parts(), (0, 0, 0));
    assert_eq!(missing.selector(), 0);
    assert_eq!(missing.flags(), 0);
}

#[test]
fn missing_gate_is_zero_filled_and_not_present() {
    let entry: IdtEntry = IdtEntry::missing();
    assert_eq!(entry.to_bytes(), [0u8; 16]);
    assert!(!entry.is_present());
    assert_eq!(entry.handler_address(), None);
}

#[test]
fn new_table_has_no_handler_anywhere() {
    let table: Idt = Idt::new();
    for vector in 0..=255u8 {
        assert_eq!(table.entry(vector), IdtEntry::missing());
    }
    assert_eq!(table.to_bytes(), vec![0u8; TABLE_SIZE]);
}

#[test]
fn set_isr_replaces_one_gate_and_no_other() {
    let mut table: Idt = Idt::new();
    table.set_isr(33, IdtEntry::new(0xdead_beef));
    for vector in 0..=255u8 {
        if vector == 33 {
            assert_eq!(table.entry(vector).handler_address(), Some(0xdead_beef));
        } else {
            assert_eq!(table.entry(vector).handler_address(), None);
        }
    }
    table.set_isr(33, IdtEntry::new(0xfeed_f00d));
    assert_eq!(table.entry(33).handler_address(), Some(0xfeed_f00d));
    table.set_isr(255, IdtEntry::new(7));
    assert_eq!(table.entry(255).handler_address(), Some(7));
    assert_eq!(table.entry(33).handler_address(), Some(0xfeed_f00d));
    table.set_isr(33, IdtEntry::missing());
    assert_eq!(table.entry(33), IdtEntry::missing());
}

#[test]
fn table_from_entry_points_fills_the_first_vectors() {
    let entry_points: Vec<u64> = (0..34u64).map(|vector| 0x10_0000 + 0x40 * vector).collect();
    let table: Idt = Idt::with_entry_points(&entry_points).expect("all entry points are valid");
    for vector in 0..=255u8 {
        let expected: Option<u64> = if vector < 34 {
            Some(0x10_0000 + 0x40 * vector as u64)
        } else {
            None
        };
        assert_eq!(table.entry(vector).handler_address(), expected);
    }
}

#[test]
fn table_from_entry_points_may_fill_every_vector_or_none() {
    let full: Vec<u64> = (1..=256u64).collect();
    let table: Idt = Idt::with_entry_points(&full).expect("256 entry points fit");
    assert_eq!(table.entry(0).handler_address(), Some(1));
    assert_eq!(table.entry(255).handler_address(), Some(256));
    let empty: Vec<u64> = Vec::new();
    assert_eq!(Idt::with_entry_points(&empty), Some(Idt::new()));
}

#[test]
fn table_from_entry_points_refuses_a_null_handler() {
    let entry_points: Vec<u64> = vec![0x1000, 0x2000, 0, 0x4000];
    assert_eq!(Idt::with_entry_points(&entry_points), None);
    assert_eq!(Idt::with_entry_points(&vec![0]), None);
}

#[test]
fn table_from_entry_points_refuses_more_than_256() {
    let entry_points: Vec<u64> = (1..=257u64).collect();
    assert_eq!(Idt::with_entry_points(&entry_points), None);
}

#[test]
fn table_bytes_are_the_gates_in_vector_order() {
    let mut table: Idt = Idt::new();
    table.set_isr(0, IdtEntry::new(0x1111));
    table.set_isr(33, IdtEntry::new(0x1122_3344_5566_7788));
    table.set_isr(255, IdtEntry::new(0xffff_ffff_ffff_ffff));
    let bytes: Vec<u8> = table.to_bytes();
    assert_eq!(bytes.len(), TABLE_SIZE);
    assert_eq!(bytes.len(), TABLE_ENTRIES * GATE_SIZE);
    for vector in 0..=255u8 {
        let start: usize = vector as usize * GATE_SIZE;
        assert_eq!(&bytes[start..start + GATE_SIZE], &table.entry(vector).to_bytes()[..]);
    }
    assert_eq!(
        &bytes[33 * 16..34 * 16],
        &[0x88, 0x77, 0x08, 0x00, 0x00, 0x8e, 0x66, 0x55, 0x44, 0x33, 0x22, 0x11, 0, 0, 0, 0][..]
    );
    assert_eq!(&bytes[16..32], &[0u8; 16][..]);
}

#[test]
fn location_descriptor_holds_size_minus_one_and_the_base() {
    let table: Idt = Idt::new();
    let pointer: IdtPointer = table.install(0xffff_8000_0020_0000);
    assert_eq!(pointer.limit, 4095);
    assert_eq!(pointer.limit, TABLE_LIMIT);
    assert_eq!(pointer.limit as usize, table.to_bytes().len() - 1);
    assert_eq!(pointer.base, 0xffff_8000_0020_0000);
}

#[test]
fn location_descriptor_bytes_are_limit_then_base() {
    let pointer: IdtPointer = IdtPointer { limit: 4095, base: 0x1122_3344_5566_7788 };
    assert_eq!(
        pointer.to_bytes(),
        [0xff, 0x0f, 0x88, 0x77, 0x66, 0x55, 0x44, 0x33, 0x22, 0x11]
    );
    let zero: IdtPointer = IdtPointer { limit: 0, base: 0 };
    assert_eq!(zero.to_bytes(), [0u8; 10]);
}
