use libasp::config::ZenVersion;
use libasp::exception::{ExceptionFeedback, ExceptionModule, ExceptionRecord, ExceptionType};
use libasp::hex::{format_hex32, format_input};
use libasp::initial::{InitialInput, MemConfig};
use libasp::mailbox::{MailboxFieldMask, MailboxValues};
use libasp::observer::{AccessObserverFeedback, AccessObserverMetadata, decode_catch};
use libasp::regs::{parse_regs2, Reg, RegisterMetadata, RegisterSnapshot};
use libasp::snapshot::{MachineState, ResetLevel, ResetState};
use libasp::BootStage;

#[test]
fn hex_formats_fixed_width() {
    assert_eq!(format_hex32(0x2a1c), "0x00002a1c");
    assert_eq!(format_hex32(0), "0x00000000");
    assert_eq!(format_hex32(0xffff_ffff), "0xffffffff");
    assert_eq!(format_hex32(0xdead_beef), "0xdeadbeef");
}

#[test]
fn input_dump_layout() {
    assert_eq!(format_input(&[]), "input=[\n\n]");
    assert_eq!(format_input(&[0x78, 0x56, 0x34, 0x12]), "input=[\n 12345678,\n]");
    // A partial final word is zero padded; no line break after it.
    assert_eq!(format_input(&[0xaa, 0xbb]), "input=[\n 0000bbaa,\n]");
    // Four full words end a line even when they end the dump.
    let sixteen = [1u8; 16];
    assert_eq!(
        format_input(&sixteen),
        "input=[\n 01010101, 01010101, 01010101, 01010101,\n\n]"
    );
}

#[test]
fn register_metadata_renders_hex() {
    let mut regs = RegisterSnapshot::default();
    regs.pc = 0xffff_0000;
    regs.r0 = 0x2a;
    let meta = RegisterMetadata::new(&regs);
    assert_eq!(meta.pc, "0xffff0000");
    assert_eq!(meta.r0, "0x0000002a");
    assert_eq!(meta.cpsr, "0x00000000");
}

#[test]
fn parse_register_names() {
    assert_eq!(parse_regs2("R0"), Some(Reg::R0));
    assert_eq!(parse_regs2("R15"), Some(Reg::R15));
    assert_eq!(parse_regs2("Sp"), Some(Reg::Sp));
    assert_eq!(parse_regs2("SP"), Some(Reg::Sp));
    assert_eq!(parse_regs2("CPSR"), Some(Reg::Cpsr));
    assert_eq!(parse_regs2("Lr"), Some(Reg::Lr));
    assert_eq!(parse_regs2("r0"), None);
    assert_eq!(parse_regs2("R16"), None);
    assert_eq!(parse_regs2(""), None);
}

#[test]
fn mailbox_round_trip() {
    let v = MailboxValues { mbox: 0x42, ptr_lower: 0x1111_2222, ptr_higher: 0x0000_ffff };
    let bytes = v.to_bytes();
    assert_eq!(bytes.len(), 12);
    let back = MailboxValues::from_bytes(&bytes);
    assert_eq!(back, v);
}

#[test]
fn mailbox_content_address_concatenates() {
    let v = MailboxValues { mbox: 0, ptr_lower: 0x2000, ptr_higher: 0x1 };
    assert_eq!(v.content_address(), 0x1_0000_2000);
}

#[test]
fn mailbox_mask_policy() {
    let mask = MailboxFieldMask::default();
    assert_eq!(mask.set_bits, 0x0000_fffc);
    assert_eq!(mask.keep_bits, 0x0000_ffff);
    assert_eq!(mask.apply(0xabcd_0001), 0xfffd);
    assert_eq!(mask.apply(0), 0xfffc);
}

#[test]
fn exception_ordinals_and_repr() {
    assert_eq!(ExceptionType::RESET.ordinal(), 0);
    assert_eq!(ExceptionType::FIQ.ordinal(), 7);
    assert_eq!(ExceptionType::UNKNOWN.ordinal(), 8);
    for d in 0..=8u32 {
        let e = ExceptionType::from_repr(d).unwrap();
        assert_eq!(e.ordinal(), d);
    }
    assert_eq!(ExceptionType::from_repr(9), None);
}

#[test]
fn exception_hooks_skip_reset_and_svc() {
    let mut m = ExceptionModule::new();
    assert!(m.hooks.is_empty());
    m.update_exception_vector_base(0x100);
    assert_eq!(m.hooks.len(), 6);
    for (addr, kind) in &m.hooks {
        assert!(!matches!(kind, ExceptionType::RESET));
        assert!(!matches!(kind, ExceptionType::SVC));
        assert_eq!(*addr, 0x100 + 4 * kind.ordinal());
    }
}

#[test]
fn exception_feedback_fires_on_record() {
    let fb = ExceptionFeedback::new();
    assert!(!fb.is_interesting(&None));
    let record = ExceptionRecord {
        triggered_exception: ExceptionType::PREAB,
        registers: RegisterSnapshot::default(),
    };
    assert!(fb.is_interesting(&Some(record)));
}

#[test]
fn boot_stage_vector_bases() {
    assert_eq!(BootStage::OnChipBootloader.get_exception_vector_base(), 0x100);
    assert_eq!(BootStage::OffChipBootloader.get_exception_vector_base(), 0x100);
    assert_eq!(BootStage::TrustedOS.get_exception_vector_base(), 0x0);
}

#[test]
fn observer_decode_and_feedback() {
    assert_eq!(decode_catch(0, 7), None);
    assert_eq!(decode_catch(0x1000, 7), Some((0x1000, 7)));
    let mut fb = AccessObserverFeedback::new();
    let hit = AccessObserverMetadata { caught_read: Some((0x10, 0x20)), caught_write: None };
    let quiet = AccessObserverMetadata { caught_read: None, caught_write: None };
    assert!(!fb.is_interesting(1, &quiet));
    assert!(fb.is_interesting(1, &hit));
    // The same command is reported once.
    assert!(!fb.is_interesting(1, &hit));
    assert!(fb.is_interesting(2, &hit));
}

#[test]
fn seed_extraction_cuts_regions() {
    let image: Vec<u8> = (0u8..=255).collect();
    let mems = vec![
        MemConfig { addr: 0xff00_0004, size: 2 },
        MemConfig { addr: 0xff00_0010, size: 3 },
    ];
    let seed = InitialInput::new()
        .extract_seed(&image, &mems, 0xffff_ffff, 5)
        .expect("regions fit the image");
    assert_eq!(seed, vec![4, 5, 16, 17, 18]);
}

#[test]
fn seed_extraction_rejects_bad_config() {
    let image = vec![0u8; 16];
    // Region reaches past the image.
    let out_of_image = vec![MemConfig { addr: 0xff00_000a, size: 10 }];
    assert_eq!(InitialInput::new().extract_seed(&image, &out_of_image, 0xffff_ffff, 10), None);
    // Region outside the configured flash size.
    let out_of_flash = vec![MemConfig { addr: 0x9000, size: 2 }];
    assert_eq!(InitialInput::new().extract_seed(&image, &out_of_flash, 0x1000, 2), None);
    // Sizes that do not add up to the expected total.
    let mems = vec![MemConfig { addr: 0xff00_0000, size: 4 }];
    assert_eq!(InitialInput::new().extract_seed(&image, &mems, 0xffff_ffff, 5), None);
}

#[test]
fn baseline_restore_is_idempotent() {
    let mut rs = ResetState::new(4);
    let state = MachineState {
        regs: RegisterSnapshot { pc: 0x100, ..RegisterSnapshot::default() },
        sram: vec![1, 2, 3, 4],
    };
    rs.save(state.clone(), &ResetLevel::RustSnapshot);
    let first = rs.load(&ResetLevel::CpuState);
    let second = rs.load(&ResetLevel::QemuSnapshot);
    assert_eq!(first, second);
    assert_eq!(first, state);
}

#[test]
fn machine_names() {
    assert_eq!(ZenVersion::Zen1.get_qemu_machine_name(), "amd-psp-zen");
    assert_eq!(ZenVersion::ZenPlus.get_qemu_machine_name(), "amd-psp-zen+");
    assert_eq!(ZenVersion::Zen2.get_qemu_machine_name(), "amd-psp-zen2");
    assert_eq!(ZenVersion::Zen3.get_qemu_machine_name(), "amd-psp-zen3");
    assert_eq!(ZenVersion::ZenTesla.get_qemu_machine_name(), "amd-psp-zentesla");
}

#[test]
fn zen2_bl_instruction_lists() {
    assert_eq!(ZenVersion::Zen2.get_last_off_chip_bl_instruction(), vec![0xffff24f8]);
    assert_eq!(ZenVersion::Zen2.get_last_on_chip_bl_instruction(), vec![0x450]);
}
