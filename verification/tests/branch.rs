use libasp::regs::Reg;
use libasp::tunnel::{generate_branch_call, CmpAction, TunnelEffect};

#[test]
fn generate_good_branch() {
    assert_eq!(generate_branch_call(0x00002a1c, 0x2a22), [0x01, 0xe0]);
    assert_eq!(generate_branch_call(0x00002a1c, 0x2938), [0x8c, 0xe7]);
}

#[test]
fn branch_zero_offset() {
    // target == cur_pc + 4: offset zero, bare opcode.
    assert_eq!(generate_branch_call(0x1000, 0x1004), [0x00, 0xe0]);
}

#[test]
fn branch_extreme_offsets() {
    // Most negative reachable offset.
    assert_eq!(generate_branch_call(0x1000, 0x1004 - 2048), [0x00, 0xe4]);
    // Most positive reachable offset.
    assert_eq!(generate_branch_call(0x1000, 0x1004 + 2046), [0xff, 0xe3]);
}

#[test]
fn tunnel_set_constant_effect() {
    let action = CmpAction::SetConstant { target: Reg::R0, value: 0xdead };
    match action.effect(0) {
        TunnelEffect::SetRegister { target, value } => {
            assert_eq!(target, Reg::R0);
            assert_eq!(value, 0xdead);
        }
        other => panic!("wrong effect: {:?}", other),
    }
}

#[test]
fn tunnel_copy_register_effect() {
    let action = CmpAction::CopyRegister { target: Reg::R1, source: Reg::R2 };
    match action.effect(0x77) {
        TunnelEffect::SetRegister { target, value } => {
            assert_eq!(target, Reg::R1);
            assert_eq!(value, 0x77);
        }
        other => panic!("wrong effect: {:?}", other),
    }
}

#[test]
fn tunnel_jump_patches_branch() {
    let action = CmpAction::Jump { source: 0x00002a1c, target: 0x2938 };
    assert!(action.fires_once());
    match action.effect(0) {
        TunnelEffect::PatchInstruction { at, bytes } => {
            assert_eq!(at, 0x00002a1c);
            assert_eq!(bytes, vec![0x8c, 0xe7]);
        }
        other => panic!("wrong effect: {:?}", other),
    }
}

#[test]
fn tunnel_perma_jump_keeps_hook() {
    let action = CmpAction::PermaJump { source: 0x00002a1c, target: 0x2a22 };
    assert!(!action.fires_once());
    match action.effect(0) {
        TunnelEffect::PatchInstruction { at, bytes } => {
            assert_eq!(at, 0x00002a1c);
            assert_eq!(bytes, vec![0x01, 0xe0]);
        }
        other => panic!("wrong effect: {:?}", other),
    }
}

#[test]
fn tunnel_write_memory_effect() {
    let action = CmpAction::WriteMemory { target: 0x4000, value: vec![1, 2, 3] };
    match action.effect(0) {
        TunnelEffect::StoreMemory { at, bytes } => {
            assert_eq!(at, 0x4000);
            assert_eq!(bytes, vec![1, 2, 3]);
        }
        other => panic!("wrong effect: {:?}", other),
    }
}
