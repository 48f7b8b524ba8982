//! Building the emulator's command line.
//!
//! The launcher hands the emulator one argument vector: machine model,
//! bootloader image, flash image, monitor and tracing switches. The line is
//! assembled here from the configuration, then split into words the way a
//! POSIX shell would.

use vstd::prelude::*;

verus! {

use crate::config::ZenVersion;
use vstd::string::StringExecFns;

/// The words a POSIX-shell split yields for a command line, or nothing for
/// an erroneous line (an unclosed quote).
pub uninterp spec fn shell_words_of(s: Seq<char>) -> Option<Seq<Seq<char>>>;

/// Relies on shlex::split: POSIX-shell word splitting of the whole string,
/// `None` for erroneous input. The split depends on the characters alone.
#[verifier::external_body]
fn shell_split(s: &str) -> (r: Option<Vec<String>>)
    ensures
        (match r {
            Some(v) => Some(v@.map_values(|w: String| w@)),
            None => None::<Seq<Seq<char>>>,
        }) == shell_words_of(s@),
{
    shlex::split(s)
}

/// The emulator command line for one campaign, before shell splitting.
pub open spec fn spec_qemu_cmdline(
    argv0: Seq<char>,
    debug: bool,
    num_cores: u32,
    run_dir: Seq<char>,
    machine: Seq<char>,
    project_dir: Seq<char>,
    on_chip_bl_path: Seq<char>,
    flash_base: Seq<char>,
    use_access_observer: bool,
) -> Seq<char> {
    argv0 + (if debug {
        " -d trace:ccp_*,trace:psp_*,guest_errors,unimp"@ + " -D "@ + run_dir + "/logs/qemu.log"@
            + (if num_cores == 0 {
            " -chardev socket,id=mon0,host=127.0.0.1,port=4444,server=on,wait=off -monitor chardev:mon0"@
        } else {
            Seq::empty()
        })
    } else {
        Seq::empty()
    }) + (if num_cores != 0 || !debug {
        " -monitor none"@
    } else {
        Seq::empty()
    }) + " --machine "@ + machine + " --nographic"@ + " -device loader,file="@ + project_dir
        + "/"@ + on_chip_bl_path + ",addr=0xffff0000,force-raw=on"@
        + " -global driver=amd_psp.smnflash,property=flash_img,value="@ + project_dir + "/"@
        + flash_base + " -bios "@ + project_dir + "/"@ + flash_base + (if use_access_observer {
        " -global driver=amd_psp.x86.mapper,property=use_access_observer,value=true"@
    } else {
        Seq::empty()
    })
}

/// Assemble the emulator command line as one string.
pub fn build_qemu_cmdline(
    argv0: &str,
    debug: bool,
    num_cores: u32,
    run_dir: &str,
    zen: &ZenVersion,
    project_dir: &str,
    on_chip_bl_path: &str,
    flash_base: &str,
    use_access_observer: bool,
) -> (r: String)
    requires
        !(*zen is Zen4),
    ensures
        r@ == spec_qemu_cmdline(
            argv0@,
            debug,
            num_cores,
            run_dir@,
            zen.spec_machine_name(),
            project_dir@,
            on_chip_bl_path@,
            flash_base@,
            use_access_observer,
        ),
{
    let mut s = String::new();
    s.append(argv0);
    if debug {
        s.append(" -d trace:ccp_*,trace:psp_*,guest_errors,unimp");
        s.append(" -D ");
        s.append(run_dir);
        s.append("/logs/qemu.log");
        if num_cores == 0 {
            s.append(
                " -chardev socket,id=mon0,host=127.0.0.1,port=4444,server=on,wait=off -monitor chardev:mon0",
            );
        }
    }
    if num_cores != 0 || !debug {
        s.append(" -monitor none");
    }
    s.append(" --machine ");
    s.append(zen.get_qemu_machine_name());
    s.append(" --nographic");
    s.append(" -device loader,file=");
    s.append(project_dir);
    s.append("/");
    s.append(on_chip_bl_path);
    s.append(",addr=0xffff0000,force-raw=on");
    s.append(" -global driver=amd_psp.smnflash,property=flash_img,value=");
    s.append(project_dir);
    s.append("/");
    s.append(flash_base);
    s.append(" -bios ");
    s.append(project_dir);
    s.append("/");
    s.append(flash_base);
    if use_access_observer {
        s.append(" -global driver=amd_psp.x86.mapper,property=use_access_observer,value=true");
    }
    proof {
        assert(s@ =~= spec_qemu_cmdline(
            argv0@,
            debug,
            num_cores,
            run_dir@,
            zen.spec_machine_name(),
            project_dir@,
            on_chip_bl_path@,
            flash_base@,
            use_access_observer,
        ));
    }
    s
}

/// Assemble the emulator command line and split it into the argument words
/// the launcher execs, the way a POSIX shell would read them.
pub fn build_qemu_args(
    argv0: &str,
    debug: bool,
    num_cores: u32,
    run_dir: &str,
    zen: &ZenVersion,
    project_dir: &str,
    on_chip_bl_path: &str,
    flash_base: &str,
    use_access_observer: bool,
) -> (r: Option<Vec<String>>)
    requires
        !(*zen is Zen4),
    ensures
        (match r {
            Some(v) => Some(v@.map_values(|w: String| w@)),
            None => None::<Seq<Seq<char>>>,
        }) == shell_words_of(
            spec_qemu_cmdline(
                argv0@,
                debug,
                num_cores,
                run_dir@,
                zen.spec_machine_name(),
                project_dir@,
                on_chip_bl_path@,
                flash_base@,
                use_access_observer,
            ),
        ),
{
    let line = build_qemu_cmdline(
        argv0,
        debug,
        num_cores,
        run_dir,
        zen,
        project_dir,
        on_chip_bl_path,
        flash_base,
        use_access_observer,
    );
    shell_split(line.as_str())
}

} // verus!
