use libasp::input::{
    AddressSpace, FixedLocation, FlashConfig, InputConfig, InputLocation, MailboxConfig, MemWrite,
    MemoryConfig, WriteKind,
};
use libasp::mailbox::{MailboxFieldMask, MAILBOX_BASE_ADDR};
use std::collections::BTreeMap;

fn default_mask() -> MailboxFieldMask {
    MailboxFieldMask { set_bits: 0x0000_fffc, keep_bits: 0x0000_ffff }
}

fn flash_only_config() -> InputConfig {
    InputConfig {
        flash: Some(FlashConfig {
            base: Vec::new(),
            input: vec![
                InputLocation { addr: 0x100, size: 4 },
                InputLocation { addr: 0x200, size: 2 },
            ],
            fixed: vec![FixedLocation { addr: 0x102, val: 0xaabbccdd }],
        }),
        x86: None,
        psp: None,
        mailbox: None,
        mailbox_config: None,
        initial_inputs: None,
        ptr_higher_mask: default_mask(),
    }
}

/// Apply a plan to a byte-addressed model memory, in order.
fn replay(plan: &[MemWrite]) -> BTreeMap<(u8, u64), u8> {
    let mut mem: BTreeMap<(u8, u64), u8> = BTreeMap::new();
    for w in plan {
        let space = match w.space {
            AddressSpace::Flash => 0u8,
            AddressSpace::X86Physical => 1,
            AddressSpace::PspPhysical => 2,
            AddressSpace::Mailbox => 3,
        };
        for (i, b) in w.bytes.iter().enumerate() {
            mem.insert((space, w.addr + i as u64), *b);
        }
    }
    mem
}

fn injected_bytes(plan: &[MemWrite]) -> usize {
    plan.iter()
        .filter(|w| matches!(w.kind, WriteKind::VariableSlice))
        .map(|w| w.bytes.len())
        .sum()
}

#[test]
fn total_size_sums_regions() {
    let cfg = flash_only_config();
    assert_eq!(cfg.total_size(), 6);
    assert!(!cfg.has_mailbox());
}

#[test]
fn injected_bytes_match_total_exact() {
    let cfg = flash_only_config();
    let plan = cfg.apply_input(&[1, 2, 3, 4, 5, 6]);
    assert_eq!(injected_bytes(&plan), cfg.total_size());
}

#[test]
fn injected_bytes_match_total_short_input() {
    // A short candidate is zero-padded; the written total does not change.
    let cfg = flash_only_config();
    let plan = cfg.apply_input(&[9]);
    assert_eq!(injected_bytes(&plan), cfg.total_size());
    let mem = replay(&plan);
    assert_eq!(mem[&(0, 0x100)], 9);
    assert_eq!(mem[&(0, 0x101)], 0);
    assert_eq!(mem[&(0, 0x200)], 0);
}

#[test]
fn injected_bytes_match_total_long_input() {
    // A long candidate is truncated; the written total does not change.
    let cfg = flash_only_config();
    let plan = cfg.apply_input(&[7; 100]);
    assert_eq!(injected_bytes(&plan), cfg.total_size());
}

#[test]
fn fixed_overlay_wins_over_variable_slice() {
    // The variable slice covers 0x100..0x104; the fixed constant overlays
    // 0x102..0x106. Where both write, the constant must stay resident.
    let cfg = flash_only_config();
    let plan = cfg.apply_input(&[0x11, 0x22, 0x33, 0x44, 0x55, 0x66]);
    let mem = replay(&plan);
    assert_eq!(mem[&(0, 0x100)], 0x11);
    assert_eq!(mem[&(0, 0x101)], 0x22);
    // Constant 0xaabbccdd, little endian, from 0x102 on.
    assert_eq!(mem[&(0, 0x102)], 0xdd);
    assert_eq!(mem[&(0, 0x103)], 0xcc);
    assert_eq!(mem[&(0, 0x104)], 0xbb);
    assert_eq!(mem[&(0, 0x105)], 0xaa);
    // The second slice is untouched by the overlay.
    assert_eq!(mem[&(0, 0x200)], 0x55);
    assert_eq!(mem[&(0, 0x201)], 0x66);
}

#[test]
fn regions_consumed_in_catalog_order() {
    let cfg = InputConfig {
        flash: Some(FlashConfig {
            base: Vec::new(),
            input: vec![InputLocation { addr: 0x10, size: 1 }],
            fixed: Vec::new(),
        }),
        x86: Some(MemoryConfig {
            input: vec![InputLocation { addr: 0x20, size: 1 }],
            fixed: Vec::new(),
        }),
        psp: Some(MemoryConfig {
            input: vec![InputLocation { addr: 0x30, size: 1 }],
            fixed: Vec::new(),
        }),
        mailbox: None,
        mailbox_config: None,
        initial_inputs: None,
        ptr_higher_mask: default_mask(),
    };
    let plan = cfg.apply_input(&[0xaa, 0xbb, 0xcc]);
    let mem = replay(&plan);
    assert_eq!(mem[&(0, 0x10)], 0xaa);
    assert_eq!(mem[&(1, 0x20)], 0xbb);
    assert_eq!(mem[&(2, 0x30)], 0xcc);
}

#[test]
fn mailbox_fields_taken_from_candidate_with_mask() {
    // Without a pinned pointer the candidate supplies lower, higher, mbox in
    // that order; the high half is run through the mask.
    let cfg = InputConfig {
        flash: None,
        x86: None,
        psp: None,
        mailbox: Some(true),
        mailbox_config: None,
        initial_inputs: None,
        ptr_higher_mask: default_mask(),
    };
    assert_eq!(cfg.total_size(), 12);
    let mut raw = Vec::new();
    raw.extend_from_slice(&0x1111_2222u32.to_le_bytes()); // ptr_lower
    raw.extend_from_slice(&0xabcd_0001u32.to_le_bytes()); // ptr_higher, raw
    raw.extend_from_slice(&0x0000_0042u32.to_le_bytes()); // mbox
    let plan = cfg.apply_input(&raw);
    assert_eq!(plan.len(), 3);
    let mem = replay(&plan);
    let base = MAILBOX_BASE_ADDR as u64;
    let read32 = |mem: &BTreeMap<(u8, u64), u8>, a: u64| -> u32 {
        u32::from_le_bytes([mem[&(3, a)], mem[&(3, a + 1)], mem[&(3, a + 2)], mem[&(3, a + 3)]])
    };
    assert_eq!(read32(&mem, base), 0x42); // mbox
    assert_eq!(read32(&mem, base + 4), 0x1111_2222); // ptr_lower
    assert_eq!(read32(&mem, base + 8), (0xabcd_0001 | 0x0000_fffc) & 0x0000_ffff);
}

#[test]
fn mailbox_content_written_at_pinned_pointer() {
    // With a pinned pointer the candidate supplies the command word and then
    // the content block, which lands at (high << 32) | low in x86 space.
    let cfg = InputConfig {
        flash: None,
        x86: None,
        psp: None,
        mailbox: Some(true),
        mailbox_config: Some(MailboxConfig { mbox_high: 0x1, mbox_low: 0x2000, size: 3 }),
        initial_inputs: None,
        ptr_higher_mask: default_mask(),
    };
    assert_eq!(cfg.total_size(), 7);
    let mut raw = Vec::new();
    raw.extend_from_slice(&0x77u32.to_le_bytes());
    raw.extend_from_slice(&[0xde, 0xad, 0xbe]);
    let plan = cfg.apply_input(&raw);
    assert_eq!(plan.len(), 4);
    let content = &plan[3];
    assert!(matches!(content.kind, WriteKind::MailboxContent));
    assert!(matches!(content.space, AddressSpace::X86Physical));
    assert_eq!(content.addr, (0x1u64 << 32) | 0x2000);
    assert_eq!(content.bytes, vec![0xde, 0xad, 0xbe]);
}

#[test]
fn empty_candidate_still_fills_catalog() {
    let cfg = flash_only_config();
    let plan = cfg.apply_input(&[]);
    assert_eq!(injected_bytes(&plan), 6);
    let mem = replay(&plan);
    assert_eq!(mem[&(0, 0x100)], 0);
    assert_eq!(mem[&(0, 0x200)], 0);
}
