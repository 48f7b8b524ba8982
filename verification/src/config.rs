//! The run configuration: which machine to emulate, where the flash image
//! lives, where a run starts and cleanly ends, which ranges are guarded,
//! and how snapshots rotate. All of it is parsed once at startup, outside
//! the library, and handed in as plain values; it never changes afterwards.

use vstd::prelude::*;

verus! {

use crate::guard::CrashConfig;
use crate::input::InputConfig;
use crate::snapshot::SnapshotConfig;
use crate::tunnel::TunnelConfig;

/// The target generation; it picks the emulated machine model.
#[derive(Clone, Copy, Debug, PartialEq, Eq, Structural)]
pub enum ZenVersion {
    Zen1,
    ZenPlus,
    Zen2,
    Zen3,
    Zen4,
    ZenTesla,
}

impl ZenVersion {
    /// The emulator's machine-model name for this generation; none exists
    /// yet for `Zen4`.
    pub open spec fn spec_machine_name(self) -> Seq<char> {
        match self {
            ZenVersion::Zen1 => "amd-psp-zen"@,
            ZenVersion::ZenPlus => "amd-psp-zen+"@,
            ZenVersion::Zen2 => "amd-psp-zen2"@,
            ZenVersion::Zen3 => "amd-psp-zen3"@,
            ZenVersion::Zen4 => Seq::empty(),
            ZenVersion::ZenTesla => "amd-psp-zentesla"@,
        }
    }

    /// The emulator's machine-model name for this generation. No machine
    /// model exists yet for `Zen4`.
    pub fn get_qemu_machine_name(&self) -> (r: &'static str)
        requires
            !(*self is Zen4),
        ensures
            r@ == self.spec_machine_name(),
    {
        match self {
            ZenVersion::Zen1 => "amd-psp-zen",
            ZenVersion::ZenPlus => "amd-psp-zen+",
            ZenVersion::Zen2 => "amd-psp-zen2",
            ZenVersion::Zen3 => "amd-psp-zen3",
            ZenVersion::Zen4 => unreached(),
            ZenVersion::ZenTesla => "amd-psp-zentesla",
        }
    }

    /// Addresses of the instruction that jumps from the off-chip into the
    /// on-chip bootloader; known only for one generation so far.
    pub fn get_last_off_chip_bl_instruction(&self) -> (r: Vec<u32>)
        requires
            *self is Zen2,
        ensures
            r@ == seq![0xffff24f8u32],
    {
        let mut v: Vec<u32> = Vec::new();
        v.push(0xffff24f8);
        proof {
            assert(v@ =~= seq![0xffff24f8u32]);
        }
        v
    }

    /// Addresses of the instruction that jumps from the on-chip bootloader
    /// onward; known only for one generation so far.
    pub fn get_last_on_chip_bl_instruction(&self) -> (r: Vec<u32>)
        requires
            *self is Zen2,
        ensures
            r@ == seq![0x450u32],
    {
        let mut v: Vec<u32> = Vec::new();
        v.push(0x450);
        proof {
            assert(v@ =~= seq![0x450u32]);
        }
        v
    }
}

/// Which machine to emulate and where its first-stage bootloader image is.
#[derive(Clone, Debug)]
pub struct QemuConf {
    pub zen: ZenVersion,
    pub on_chip_bl_path: String,
}

/// The flash image backing the emulated SPI flash.
#[derive(Clone, Debug)]
pub struct FlashConfig {
    pub size: u32,
    pub base: String,
}

/// Where a run starts and where it may cleanly end.
#[derive(Clone, Debug)]
pub struct HarnessConfig {
    /// The address the target is run to before the baseline is captured.
    pub start: u32,
    /// Halting at one of these addresses is a normal completion.
    pub sinks: Vec<u32>,
}

/// An address range with exempted addresses, as the configuration file
/// writes guards.
#[derive(Clone, Debug)]
pub struct RegionWithHoles {
    pub begin: u32,
    pub end: u32,
    pub holes: Vec<u32>,
}

/// Everything the configuration file defines for one fuzzing campaign.
#[derive(Clone, Debug)]
pub struct YAMLConfig {
    pub debug: bool,
    pub qemu: QemuConf,
    pub flash: FlashConfig,
    pub input: InputConfig,
    pub harness: HarnessConfig,
    pub tunnels: TunnelConfig,
    pub crashes: CrashConfig,
    pub snapshot: SnapshotConfig,
}

/// The configuration plus what the command line added.
#[derive(Clone, Debug)]
pub struct RunConfig {
    pub yaml_config: YAMLConfig,
    pub num_cores: u32,
    pub run_dir: String,
    pub config_path: String,
}

} // verus!
