use libasp::config::ZenVersion;
use libasp::qemuargs::{build_qemu_args, build_qemu_cmdline};

#[test]
fn cmdline_plain_run() {
    let line = build_qemu_cmdline(
        "aspfuzz",
        false,
        4,
        "runs/now",
        &ZenVersion::Zen2,
        "/proj",
        "bl/on-chip.bl",
        "flash/img.rom",
        false,
    );
    assert_eq!(
        line,
        "aspfuzz -monitor none --machine amd-psp-zen2 --nographic \
         -device loader,file=/proj/bl/on-chip.bl,addr=0xffff0000,force-raw=on \
         -global driver=amd_psp.smnflash,property=flash_img,value=/proj/flash/img.rom \
         -bios /proj/flash/img.rom"
    );
}

#[test]
fn cmdline_debug_single_core_adds_monitor_socket() {
    let line = build_qemu_cmdline(
        "aspfuzz",
        true,
        0,
        "runs/dbg",
        &ZenVersion::Zen1,
        "/p",
        "bl",
        "img",
        true,
    );
    assert!(line.contains(" -d trace:ccp_*,trace:psp_*,guest_errors,unimp"));
    assert!(line.contains(" -D runs/dbg/logs/qemu.log"));
    assert!(line.contains("-chardev socket,id=mon0,host=127.0.0.1,port=4444,server=on,wait=off"));
    assert!(!line.contains("-monitor none"));
    assert!(line.contains("use_access_observer,value=true"));
}

#[test]
fn args_split_into_words() {
    let words = build_qemu_args(
        "aspfuzz",
        false,
        4,
        "runs/now",
        &ZenVersion::Zen3,
        "/proj",
        "bl.img",
        "flash.rom",
        false,
    )
    .expect("a generated line always splits");
    assert_eq!(words[0], "aspfuzz");
    assert_eq!(words[1], "-monitor");
    assert_eq!(words[2], "none");
    assert_eq!(words[3], "--machine");
    assert_eq!(words[4], "amd-psp-zen3");
    assert!(words.contains(&"--nographic".to_string()));
    assert!(words.contains(&"-bios".to_string()));
    assert!(words.contains(&"/proj/flash.rom".to_string()));
}
