//! The guard engine: turning illegal executions, illegal writes and illegal
//! bulk-copy destinations into halts.
//!
//! The engine is installed once, before the fuzzing loop. The emulator calls
//! back on block translation, block execution and memory writes; each
//! callback here is a pure decision from plain values (program counter,
//! written address, registers) to "halt or continue", so a policy violation
//! always surfaces as a breakpoint-like stop that the classifier then sees.

use vstd::prelude::*;

verus! {

/// A range no instruction may be fetched from.
#[derive(Clone, Copy, Debug, PartialEq, Eq, Structural)]
pub struct NoExecConfig {
    pub begin: u32,
    pub end: u32,
}

/// A range that must not be written (or be a bulk-copy destination), with
/// the instruction addresses that are exempt.
#[derive(Clone, Debug)]
pub struct ForbiddenWritesConfig {
    pub begin: u32,
    pub end: u32,
    /// Write sites (for plain writes) or call sites (for bulk copies) allowed
    /// to touch the range.
    pub no_hook: Vec<u32>,
}

/// The guarded address ranges and the entry address of the bulk-copy routine.
#[derive(Clone, Debug)]
pub struct MmapConfig {
    pub no_exec: Vec<NoExecConfig>,
    pub ccp_memcopy_addr: u32,
    pub forbidden_memcopies: Vec<ForbiddenWritesConfig>,
    pub forbidden_writes: Vec<ForbiddenWritesConfig>,
}

/// Everything the crash detector watches: explicit crash breakpoints, the
/// guarded ranges, and the optional x86-side access observer window.
#[derive(Clone, Debug)]
pub struct CrashConfig {
    pub breakpoints: Vec<u32>,
    pub mmap: MmapConfig,
    pub x86: Option<crate::observer::WriteCatcherConfig>,
}

/// Which guard fired.
#[derive(Clone, Copy, Debug, PartialEq, Eq, Structural)]
pub enum GuardKind {
    NoExec,
    NoWrite,
    NoMemcopyDest,
}

/// Whether `addr` lies in one of the no-exec ranges.
pub open spec fn spec_in_no_exec(regions: Seq<NoExecConfig>, addr: u32) -> bool {
    exists|i: int| 0 <= i < regions.len() && (#[trigger] regions[i]).begin <= addr < regions[i].end
}

/// Whether a write performed by the instruction at `pc` to `addr` violates a
/// no-write guard: the address is in a guarded range and the site is not one
/// of that range's holes.
pub open spec fn spec_write_triggers(
    regions: Seq<ForbiddenWritesConfig>,
    pc: u32,
    addr: u32,
) -> bool {
    exists|i: int|
        0 <= i < regions.len() && (#[trigger] regions[i]).begin <= addr < regions[i].end
            && !regions[i].no_hook@.contains(pc)
}

/// Whether the site `pc` is exempt from every no-write guard, so that
/// instrumenting it can be skipped entirely.
pub open spec fn spec_site_fully_exempt(regions: Seq<ForbiddenWritesConfig>, pc: u32) -> bool {
    forall|i: int| 0 <= i < regions.len() ==> (#[trigger] regions[i]).no_hook@.contains(pc)
}

/// Whether a bulk copy into `[dest, dest + len)` overlaps the guarded range
/// `[begin, end)`: the two intervals share at least one byte.
pub open spec fn spec_memcopy_overlaps(
    region: ForbiddenWritesConfig,
    dest: u32,
    len: u32,
) -> bool {
    &&& len > 0
    &&& region.begin < dest + len
    &&& dest < region.end
}

/// Whether a bulk copy of `len` bytes to `dest`, called from return address
/// `lr`, violates a no-memcopy-dest guard.
pub open spec fn spec_memcopy_triggers(
    regions: Seq<ForbiddenWritesConfig>,
    dest: u32,
    len: u32,
    lr: u32,
) -> bool {
    exists|i: int|
        0 <= i < regions.len() && spec_memcopy_overlaps(#[trigger] regions[i], dest, len)
            && !regions[i].no_hook@.contains(lr)
}

/// Whether `v` holds `x`.
pub fn contains_u32(v: &Vec<u32>, x: u32) -> (r: bool)
    ensures
        r == v@.contains(x),
{
    let mut i: usize = 0;
    while i < v.len()
        invariant
            i <= v@.len(),
            forall|j: int| 0 <= j < i ==> v@[j] != x,
        decreases v@.len() - i,
    {
        if v[i] == x {
            return true;
        }
        i = i + 1;
    }
    proof {
        assert(!v@.contains(x));
    }
    false
}

/// Whether `addr` lies in one of the no-exec ranges.
pub fn check_no_exec(regions: &Vec<NoExecConfig>, addr: u32) -> (r: bool)
    ensures
        r == spec_in_no_exec(regions@, addr),
{
    let mut i: usize = 0;
    while i < regions.len()
        invariant
            i <= regions@.len(),
            forall|j: int|
                0 <= j < i ==> !((#[trigger] regions@[j]).begin <= addr < regions@[j].end),
        decreases regions@.len() - i,
    {
        let region = regions[i];
        if addr >= region.begin && addr < region.end {
            return true;
        }
        i = i + 1;
    }
    false
}

/// Whether a write by the instruction at `pc` to `addr` violates a no-write
/// guard.
pub fn check_write(regions: &Vec<ForbiddenWritesConfig>, pc: u32, addr: u32) -> (r: bool)
    ensures
        r == spec_write_triggers(regions@, pc, addr),
{
    let mut i: usize = 0;
    while i < regions.len()
        invariant
            i <= regions@.len(),
            forall|j: int|
                0 <= j < i ==> !((#[trigger] regions@[j]).begin <= addr < regions@[j].end
                    && !regions@[j].no_hook@.contains(pc)),
        decreases regions@.len() - i,
    {
        let area = &regions[i];
        if addr >= area.begin && addr < area.end {
            if !contains_u32(&area.no_hook, pc) {
                return true;
            }
        }
        i = i + 1;
    }
    false
}

/// Whether a bulk copy of `len` bytes to `dest`, called from `lr`, violates
/// a no-memcopy-dest guard.
pub fn check_memcopy(regions: &Vec<ForbiddenWritesConfig>, dest: u32, len: u32, lr: u32) -> (r:
    bool)
    requires
        dest + len <= u32::MAX,
    ensures
        r == spec_memcopy_triggers(regions@, dest, len, lr),
{
    if len == 0 {
        return false;
    }
    let dest_end = dest + len;
    let mut i: usize = 0;
    while i < regions.len()
        invariant
            len > 0,
            dest_end == dest + len,
            i <= regions@.len(),
            forall|j: int|
                0 <= j < i ==> !(spec_memcopy_overlaps(#[trigger] regions@[j], dest, len)
                    && !regions@[j].no_hook@.contains(lr)),
        decreases regions@.len() - i,
    {
        let area = &regions[i];
        if area.begin < dest_end && dest < area.end {
            if !contains_u32(&area.no_hook, lr) {
                return true;
            }
        }
        i = i + 1;
    }
    false
}

/// What the block-translation callback decides.
#[derive(Clone, Copy, Debug, PartialEq, Eq, Structural)]
pub enum BlockGen {
    /// The block starts inside a no-exec range: halt now, and keep the id so
    /// the execution callback halts again on every later entry.
    IllegalExec { id: u64 },
    /// The block is the bulk-copy routine's entry: remember it under this id
    /// so the execution callback can check the copy's destination.
    MemcopyEntry { id: u64 },
    /// Nothing to watch in this block.
    Pass,
}

/// Hook ids handed out so far and which one is the bulk-copy entry.
#[derive(Clone, Debug)]
pub struct CrashRuntimeConfig {
    pub counter_write_hooks: u64,
    pub counter_edge_hooks: u64,
    /// The id of the bulk-copy routine's entry block; meaningful only once
    /// `ccp_memcopy_set` holds, so id 0 stays unambiguous before that.
    pub ccp_memcopy_id: u64,
    /// Whether the bulk-copy entry has been translated and remembered.
    pub ccp_memcopy_set: bool,
    /// The static write site behind each write-hook id.
    pub write_sites: Vec<u32>,
}

/// The crash-detection module: the configured guards plus the hook arena
/// built while the emulator translates code.
#[derive(Clone, Debug)]
pub struct CrashModule {
    pub c: CrashConfig,
    pub r: CrashRuntimeConfig,
}

impl CrashModule {
    /// A fresh module with no hooks handed out yet.
    pub fn new(conf: CrashConfig) -> (r: Self)
        ensures
            r.c == conf,
            r.r.counter_write_hooks == 0,
            r.r.counter_edge_hooks == 0,
            r.r.ccp_memcopy_id == 0,
            !r.r.ccp_memcopy_set,
            r.r.write_sites@ == Seq::<u32>::empty(),
    {
        CrashModule {
            c: conf,
            r: CrashRuntimeConfig {
                counter_write_hooks: 0,
                counter_edge_hooks: 0,
                ccp_memcopy_id: 0,
                ccp_memcopy_set: false,
                write_sites: Vec::new(),
            },
        }
    }

    /// Whether dynamic write hooks are needed at all.
    pub fn needs_write_hooks(&self) -> (r: bool)
        ensures
            r == (self.c.mmap.forbidden_writes@.len() > 0),
    {
        self.c.mmap.forbidden_writes.len() > 0
    }

    /// Block-translation callback: fired once per newly translated block at
    /// guest address `src`. A block inside a no-exec range halts the run; the
    /// bulk-copy routine's entry is remembered for the execution callback.
    pub fn gen_block_hook(&mut self, src: u32) -> (r: BlockGen)
        requires
            old(self).r.counter_edge_hooks < u64::MAX,
        ensures
            final(self).c == old(self).c,
            final(self).r.counter_edge_hooks == old(self).r.counter_edge_hooks + 1,
            final(self).r.counter_write_hooks == old(self).r.counter_write_hooks,
            final(self).r.write_sites == old(self).r.write_sites,
            r is IllegalExec <==> spec_in_no_exec(old(self).c.mmap.no_exec@, src),
            r is MemcopyEntry <==> (!spec_in_no_exec(old(self).c.mmap.no_exec@, src) && old(
                self,
            ).c.mmap.forbidden_memcopies@.len() > 0 && src == old(self).c.mmap.ccp_memcopy_addr),
            (r matches BlockGen::IllegalExec { id } ==> id == old(self).r.counter_edge_hooks),
            (r matches BlockGen::MemcopyEntry { id } ==> id == old(self).r.counter_edge_hooks
                && final(self).r.ccp_memcopy_id == id && final(self).r.ccp_memcopy_set),
            (r is IllegalExec || r is Pass) ==> final(self).r.ccp_memcopy_id == old(
                self,
            ).r.ccp_memcopy_id && final(self).r.ccp_memcopy_set == old(self).r.ccp_memcopy_set,
    {
        let id = self.r.counter_edge_hooks;
        self.r.counter_edge_hooks = self.r.counter_edge_hooks + 1;
        if check_no_exec(&self.c.mmap.no_exec, src) {
            return BlockGen::IllegalExec { id };
        }
        if self.c.mmap.forbidden_memcopies.len() > 0 && self.c.mmap.ccp_memcopy_addr == src {
            self.r.ccp_memcopy_id = id;
            self.r.ccp_memcopy_set = true;
            return BlockGen::MemcopyEntry { id };
        }
        BlockGen::Pass
    }

    /// Block-execution callback for blocks the translation callback marked.
    /// Any marked block that is not the remembered bulk-copy entry is a
    /// no-exec hit and halts. For the bulk-copy entry, the calling
    /// convention hands the destination in `r1`, the length in `r2` and the
    /// return address in `lr`; the copy halts when it overlaps a guarded
    /// range without the caller being exempt.
    pub fn exec_block_hook(&self, id: u64, r1: u32, r2: u32, lr: u32) -> (r: Option<GuardKind>)
        requires
            r1 + r2 <= u32::MAX,
        ensures
            !(self.r.ccp_memcopy_set && id == self.r.ccp_memcopy_id) ==> r == Some(
                GuardKind::NoExec,
            ),
            self.r.ccp_memcopy_set && id == self.r.ccp_memcopy_id ==> r == (
            if spec_memcopy_triggers(self.c.mmap.forbidden_memcopies@, r1, r2, lr) {
                Some(GuardKind::NoMemcopyDest)
            } else {
                None::<GuardKind>
            }),
    {
        if !self.r.ccp_memcopy_set || id != self.r.ccp_memcopy_id {
            return Some(GuardKind::NoExec);
        }
        if check_memcopy(&self.c.mmap.forbidden_memcopies, r1, r2, lr) {
            Some(GuardKind::NoMemcopyDest)
        } else {
            None
        }
    }

    /// Write-translation callback: fired once per static write site at `pc`.
    /// A site exempt from every no-write guard is not instrumented at all (a
    /// pure optimization); any other site gets a hook id remembering the
    /// site.
    pub fn gen_writes_hook(&mut self, pc: u32) -> (r: Option<u64>)
        requires
            old(self).r.write_sites@.len() == old(self).r.counter_write_hooks,
            old(self).r.counter_write_hooks < u64::MAX,
        ensures
            final(self).c == old(self).c,
            final(self).r.counter_edge_hooks == old(self).r.counter_edge_hooks,
            final(self).r.ccp_memcopy_id == old(self).r.ccp_memcopy_id,
            final(self).r.write_sites@.len() == final(self).r.counter_write_hooks,
            r is None <==> (old(self).c.mmap.forbidden_writes@.len() > 0 && spec_site_fully_exempt(
                old(self).c.mmap.forbidden_writes@,
                pc,
            )),
            r is None ==> *final(self) == *old(self),
            (r matches Some(id) ==> {
                &&& id == old(self).r.counter_write_hooks
                &&& final(self).r.counter_write_hooks == old(self).r.counter_write_hooks + 1
                &&& final(self).r.write_sites@ == old(self).r.write_sites@.push(pc)
            }),
    {
        if self.c.mmap.forbidden_writes.len() > 0 {
            let mut all_exempt = true;
            let mut i: usize = 0;
            while i < self.c.mmap.forbidden_writes.len()
                invariant
                    i <= self.c.mmap.forbidden_writes@.len(),
                    all_exempt <==> forall|j: int|
                        0 <= j < i ==> (#[trigger] self.c.mmap.forbidden_writes@[j]).no_hook@
                            .contains(pc),
                decreases self.c.mmap.forbidden_writes@.len() - i,
            {
                if !contains_u32(&self.c.mmap.forbidden_writes[i].no_hook, pc) {
                    all_exempt = false;
                }
                i = i + 1;
            }
            if all_exempt {
                return None;
            }
        }
        let id = self.r.counter_write_hooks;
        self.r.counter_write_hooks = self.r.counter_write_hooks + 1;
        self.r.write_sites.push(pc);
        Some(id)
    }

    /// Write-execution callback: the instruction behind hook `id` wrote to
    /// `addr`. Halts exactly when the write violates a no-write guard.
    pub fn exec_writes_hook(&self, id: u64, addr: u32) -> (r: bool)
        requires
            id < self.r.write_sites@.len(),
        ensures
            r == spec_write_triggers(
                self.c.mmap.forbidden_writes@,
                self.r.write_sites@[id as int],
                addr,
            ),
    {
        let n = self.r.write_sites.len();
        proof {
            assert(id < n);
        }
        let pc = self.r.write_sites[id as usize];
        let mut i: usize = 0;
        while i < self.c.mmap.forbidden_writes.len()
            invariant
                pc == self.r.write_sites@[id as int],
                i <= self.c.mmap.forbidden_writes@.len(),
                forall|j: int|
                    0 <= j < i ==> !((#[trigger] self.c.mmap.forbidden_writes@[j]).begin <= addr
                        < self.c.mmap.forbidden_writes@[j].end
                        && !self.c.mmap.forbidden_writes@[j].no_hook@.contains(pc)),
            decreases self.c.mmap.forbidden_writes@.len() - i,
        {
            let area = &self.c.mmap.forbidden_writes[i];
            if addr >= area.begin && addr < area.end {
                if !contains_u32(&area.no_hook, pc) {
                    return true;
                }
            }
            i = i + 1;
        }
        false
    }

    /// Write-execution callback for sized accesses; the checked policy is the
    /// same as for plain writes.
    pub fn exec_writes_hook_n(&self, id: u64, addr: u32, _size: usize) -> (r: bool)
        requires
            id < self.r.write_sites@.len(),
        ensures
            r == spec_write_triggers(
                self.c.mmap.forbidden_writes@,
                self.r.write_sites@[id as int],
                addr,
            ),
    {
        self.exec_writes_hook(id, addr)
    }
}

} // verus!
