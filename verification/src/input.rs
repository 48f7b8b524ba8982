//! The region catalog and the input injector.
//!
//! A fuzzing candidate is a raw byte buffer. The catalog says where those
//! bytes go: each region owns an ordered list of variable slices (filled from
//! the candidate left to right) and a list of fixed constant overlays
//! (applied after the slices, so a constant always wins where the two
//! overlap). The injector turns candidate bytes into a plan of typed memory
//! writes; performing the writes against the emulator is the caller's task.

use vstd::prelude::*;

verus! {

use crate::mailbox::{MailboxFieldMask, MailboxValues, MAILBOX_BASE_ADDR};
use vstd::bytes::{spec_u32_from_le_bytes, spec_u32_to_le_bytes, u32_from_le_bytes, u32_to_le_bytes};
use vstd::slice::{slice_subrange, slice_to_vec};

/// The guest address spaces a write can target.
#[derive(Clone, Copy, Debug, PartialEq, Eq, Structural)]
pub enum AddressSpace {
    Flash,
    X86Physical,
    PspPhysical,
    Mailbox,
}

/// Why a write is in the plan.
#[derive(Clone, Copy, Debug, PartialEq, Eq, Structural)]
pub enum WriteKind {
    /// Bytes sliced from the candidate buffer.
    VariableSlice,
    /// A constant overlay from the catalog; applied after the slices.
    FixedOverlay,
    /// One field of the mailbox record.
    MailboxField,
    /// The mailbox content block that follows the record.
    MailboxContent,
}

/// The ghost shape of one planned write.
#[verifier::ext_equal]
pub struct WriteModel {
    pub space: AddressSpace,
    pub kind: WriteKind,
    pub addr: u64,
    pub bytes: Seq<u8>,
}

/// One planned memory write.
#[derive(Clone, Debug)]
pub struct MemWrite {
    pub space: AddressSpace,
    pub kind: WriteKind,
    pub addr: u64,
    pub bytes: Vec<u8>,
}

impl View for MemWrite {
    type V = WriteModel;

    open spec fn view(&self) -> WriteModel {
        WriteModel { space: self.space, kind: self.kind, addr: self.addr, bytes: self.bytes@ }
    }
}

/// The plan a `Vec<MemWrite>` stands for.
pub open spec fn plan_of(s: Seq<MemWrite>) -> Seq<WriteModel> {
    s.map_values(|w: MemWrite| w@)
}

/// A location filled from the candidate buffer: `size` bytes at `addr`.
#[derive(Clone, Copy, Debug, PartialEq, Eq, Structural)]
pub struct InputLocation {
    pub addr: u32,
    pub size: usize,
}

/// A constant overlay: the 32-bit value `val` written at `addr`.
#[derive(Clone, Copy, Debug, PartialEq, Eq, Structural)]
pub struct FixedLocation {
    pub addr: u32,
    pub val: u32,
}

/// Sum of the sizes of the first `i` input locations.
pub open spec fn spec_offset_of(locs: Seq<InputLocation>, i: int) -> int
    decreases i,
{
    if i <= 0 {
        0
    } else {
        spec_offset_of(locs, i - 1) + locs[i - 1].size
    }
}

/// Total number of candidate bytes a list of input locations consumes.
pub open spec fn spec_sizes_sum(locs: Seq<InputLocation>) -> int {
    spec_offset_of(locs, locs.len() as int)
}

pub proof fn lemma_offset_nonneg(locs: Seq<InputLocation>, i: int)
    ensures
        spec_offset_of(locs, i) >= 0,
    decreases i,
{
    if i > 0 {
        lemma_offset_nonneg(locs, i - 1);
    }
}

pub proof fn lemma_offset_monotonic(locs: Seq<InputLocation>, i: int, j: int)
    requires
        0 <= i <= j,
    ensures
        spec_offset_of(locs, i) <= spec_offset_of(locs, j),
    decreases j - i,
{
    if i < j {
        lemma_offset_monotonic(locs, i, j - 1);
    }
}

/// The candidate buffer padded (with zero bytes) or truncated to `n` bytes.
pub open spec fn spec_pad(raw: Seq<u8>, n: int) -> Seq<u8> {
    if raw.len() >= n {
        raw.subrange(0, n)
    } else {
        raw + Seq::new((n - raw.len()) as nat, |i: int| 0u8)
    }
}

/// Pad or truncate `raw` to exactly `n` bytes, zero-filling on underflow.
pub fn pad_candidate(raw: &[u8], n: usize) -> (r: Vec<u8>)
    ensures
        r@ == spec_pad(raw@, n as int),
        r@.len() == n,
{
    if raw.len() >= n {
        slice_to_vec(slice_subrange(raw, 0, n))
    } else {
        let mut v = slice_to_vec(raw);
        while v.len() < n
            invariant
                raw@.len() <= v@.len() <= n,
                v@ == raw@ + Seq::new((v@.len() - raw@.len()) as nat, |i: int| 0u8),
            decreases n - v@.len(),
        {
            v.push(0);
            proof {
                assert(v@ =~~= raw@ + Seq::new((v@.len() - raw@.len()) as nat, |i: int| 0u8));
            }
        }
        v
    }
}

/// The variable-slice writes of one region: location `i` takes the bytes at
/// its running offset in the region's segment of the candidate.
pub open spec fn spec_var_writes(
    space: AddressSpace,
    locs: Seq<InputLocation>,
    buf: Seq<u8>,
) -> Seq<WriteModel> {
    Seq::new(
        locs.len(),
        |i: int|
            WriteModel {
                space,
                kind: WriteKind::VariableSlice,
                addr: locs[i].addr as u64,
                bytes: buf.subrange(spec_offset_of(locs, i), spec_offset_of(locs, i) + locs[i].size),
            },
    )
}

/// The constant-overlay writes of one region, in catalog order.
pub open spec fn spec_fixed_writes(space: AddressSpace, fixed: Seq<FixedLocation>) -> Seq<
    WriteModel,
> {
    Seq::new(
        fixed.len(),
        |i: int|
            WriteModel {
                space,
                kind: WriteKind::FixedOverlay,
                addr: fixed[i].addr as u64,
                bytes: spec_u32_to_le_bytes(fixed[i].val),
            },
    )
}

/// All writes of one region: the variable slices first, then the fixed
/// overlays, so a constant always wins where the two overlap.
pub open spec fn spec_region_writes(
    space: AddressSpace,
    locs: Seq<InputLocation>,
    fixed: Seq<FixedLocation>,
    buf: Seq<u8>,
) -> Seq<WriteModel> {
    spec_var_writes(space, locs, buf) + spec_fixed_writes(space, fixed)
}

/// Append one region's writes to `out`: `buf` is the region's segment of the
/// padded candidate, consumed left to right by the input locations, then the
/// fixed overlays follow.
fn apply_region(
    space: AddressSpace,
    input: &Vec<InputLocation>,
    fixed: &Vec<FixedLocation>,
    buf: &[u8],
    out: &mut Vec<MemWrite>,
)
    requires
        buf@.len() == spec_sizes_sum(input@),
    ensures
        plan_of(final(out)@) == plan_of(old(out)@) + spec_region_writes(
            space,
            input@,
            fixed@,
            buf@,
        ),
{
    let ghost base = plan_of(old(out)@);
    let ghost vars = spec_var_writes(space, input@, buf@);
    let buf_len = buf.len();
    let mut off: usize = 0;
    let mut i: usize = 0;
    while i < input.len()
        invariant
            i <= input@.len(),
            buf_len == buf@.len(),
            buf@.len() == spec_sizes_sum(input@),
            off == spec_offset_of(input@, i as int),
            vars == spec_var_writes(space, input@, buf@),
            base == plan_of(old(out)@),
            out@.len() == base.len() + i,
            forall|k: int| 0 <= k < base.len() ==> plan_of(out@)[k] == base[k],
            forall|k: int| 0 <= k < i ==> plan_of(out@)[base.len() + k] == vars[k],
        decreases input@.len() - i,
    {
        let loc = input[i];
        proof {
            lemma_offset_nonneg(input@, i as int);
            lemma_offset_monotonic(input@, i as int + 1, input@.len() as int);
            assert(spec_offset_of(input@, i as int + 1) == off + loc.size);
            assert(off + loc.size <= buf@.len());
        }
        let bytes = slice_to_vec(slice_subrange(buf, off, off + loc.size));
        out.push(MemWrite { space, kind: WriteKind::VariableSlice, addr: loc.addr as u64, bytes });
        off = off + loc.size;
        i = i + 1;
        proof {
            assert(plan_of(out@)[base.len() + i - 1] =~~= vars[i - 1]);
        }
    }
    proof {
        assert(plan_of(out@) =~~= base + spec_var_writes(space, input@, buf@));
    }
    let ghost mid = plan_of(out@);
    let ghost fixes = spec_fixed_writes(space, fixed@);
    let mut j: usize = 0;
    while j < fixed.len()
        invariant
            j <= fixed@.len(),
            mid == base + spec_var_writes(space, input@, buf@),
            fixes == spec_fixed_writes(space, fixed@),
            out@.len() == mid.len() + j,
            forall|k: int| 0 <= k < mid.len() ==> plan_of(out@)[k] == mid[k],
            forall|k: int| 0 <= k < j ==> plan_of(out@)[mid.len() + k] == fixes[k],
        decreases fixed@.len() - j,
    {
        let fx = fixed[j];
        let bytes = u32_to_le_bytes(fx.val);
        out.push(MemWrite { space, kind: WriteKind::FixedOverlay, addr: fx.addr as u64, bytes });
        j = j + 1;
        proof {
            assert(plan_of(out@)[mid.len() + j - 1] =~~= fixes[j - 1]);
        }
    }
    proof {
        assert(plan_of(out@) =~~= base + spec_region_writes(space, input@, fixed@, buf@));
    }
}

/// Sum the sizes of a list of input locations.
fn sizes_sum(input: &Vec<InputLocation>) -> (r: usize)
    requires
        spec_sizes_sum(input@) <= usize::MAX,
    ensures
        r == spec_sizes_sum(input@),
{
    let mut acc: usize = 0;
    let mut i: usize = 0;
    while i < input.len()
        invariant
            i <= input@.len(),
            spec_sizes_sum(input@) <= usize::MAX,
            acc == spec_offset_of(input@, i as int),
        decreases input@.len() - i,
    {
        proof {
            lemma_offset_nonneg(input@, i as int);
            lemma_offset_monotonic(input@, i as int + 1, input@.len() as int);
        }
        acc = acc + input[i].size;
        i = i + 1;
    }
    acc
}

/// Sum the sizes of a list of input locations, or `None` when the sum does
/// not fit the machine.
fn try_sizes_sum(input: &Vec<InputLocation>) -> (r: Option<usize>)
    ensures
        (r matches Some(v) ==> v == spec_sizes_sum(input@)),
        r is None ==> spec_sizes_sum(input@) > usize::MAX,
{
    let mut acc: usize = 0;
    let mut i: usize = 0;
    while i < input.len()
        invariant
            i <= input@.len(),
            acc == spec_offset_of(input@, i as int),
        decreases input@.len() - i,
    {
        match acc.checked_add(input[i].size) {
            Some(a) => {
                acc = a;
            },
            None => {
                proof {
                    lemma_offset_monotonic(input@, i as int + 1, input@.len() as int);
                }
                return None;
            },
        }
        i = i + 1;
    }
    Some(acc)
}

/// The flash region: a base image plus variable slices and fixed overlays.
/// Addresses are given in the target's flash address window.
#[derive(Clone, Debug)]
pub struct FlashConfig {
    /// Paths of base images that initial inputs are extracted from.
    pub base: Vec<String>,
    pub input: Vec<InputLocation>,
    pub fixed: Vec<FixedLocation>,
}

impl FlashConfig {
    pub open spec fn spec_size(self) -> int {
        spec_sizes_sum(self.input@)
    }

    /// Number of candidate bytes this region consumes.
    pub fn size(&self) -> (r: usize)
        requires
            self.spec_size() <= usize::MAX,
        ensures
            r == self.spec_size(),
    {
        sizes_sum(&self.input)
    }

    /// Plan this region's writes from its segment of the candidate.
    pub fn apply_input(&self, buffer: &[u8], out: &mut Vec<MemWrite>)
        requires
            buffer@.len() == self.spec_size(),
        ensures
            plan_of(final(out)@) == plan_of(old(out)@) + spec_region_writes(
                AddressSpace::Flash,
                self.input@,
                self.fixed@,
                buffer@,
            ),
    {
        apply_region(AddressSpace::Flash, &self.input, &self.fixed, buffer, out);
    }
}

/// A plain memory region (x86-visible or PSP-local) with variable slices and
/// fixed overlays.
#[derive(Clone, Debug)]
pub struct MemoryConfig {
    pub input: Vec<InputLocation>,
    pub fixed: Vec<FixedLocation>,
}

impl MemoryConfig {
    pub open spec fn spec_size(self) -> int {
        spec_sizes_sum(self.input@)
    }

    /// Number of candidate bytes this region consumes.
    pub fn size(&self) -> (r: usize)
        requires
            self.spec_size() <= usize::MAX,
        ensures
            r == self.spec_size(),
    {
        sizes_sum(&self.input)
    }

    /// Plan this region's writes into `space` from its segment of the
    /// candidate.
    pub fn apply_input(&self, space: AddressSpace, buffer: &[u8], out: &mut Vec<MemWrite>)
        requires
            buffer@.len() == self.spec_size(),
        ensures
            plan_of(final(out)@) == plan_of(old(out)@) + spec_region_writes(
                space,
                self.input@,
                self.fixed@,
                buffer@,
            ),
    {
        apply_region(space, &self.input, &self.fixed, buffer, out);
    }
}

/// Where the mailbox content block lives in x86 space and how large it is.
#[derive(Clone, Copy, Debug, PartialEq, Eq, Structural)]
pub struct MailboxConfig {
    pub mbox_high: u32,
    pub mbox_low: u32,
    pub size: usize,
}

impl MailboxConfig {
    /// Number of candidate bytes the content block consumes.
    pub fn size(&self) -> (r: usize)
        ensures
            r == self.size,
    {
        self.size
    }
}

/// The 32-bit little-endian value at offset `off` of `buf`.
pub open spec fn spec_le32_at(buf: Seq<u8>, off: int) -> u32 {
    spec_u32_from_le_bytes(buf.subrange(off, off + 4))
}

/// The whole catalog of fuzzable locations: the flash, x86 and PSP regions
/// plus the mailbox record, consumed from the candidate in that order.
#[derive(Clone, Debug)]
pub struct InputConfig {
    pub flash: Option<FlashConfig>,
    pub x86: Option<MemoryConfig>,
    pub psp: Option<MemoryConfig>,
    /// Whether the mailbox record is written at all.
    pub mailbox: Option<bool>,
    /// When present, the content pointer is pinned by configuration and a
    /// content block follows the command word in the candidate.
    pub mailbox_config: Option<MailboxConfig>,
    /// Paths of extra seed inputs.
    pub initial_inputs: Option<Vec<String>>,
    /// Mask policy run over the fuzzer-chosen pointer high half.
    pub ptr_higher_mask: MailboxFieldMask,
}

impl InputConfig {
    pub open spec fn spec_flash_size(self) -> int {
        match self.flash {
            Some(f) => f.spec_size(),
            None => 0,
        }
    }

    pub open spec fn spec_x86_size(self) -> int {
        match self.x86 {
            Some(m) => m.spec_size(),
            None => 0,
        }
    }

    pub open spec fn spec_psp_size(self) -> int {
        match self.psp {
            Some(m) => m.spec_size(),
            None => 0,
        }
    }

    pub open spec fn spec_has_mailbox(self) -> bool {
        self.mailbox == Some(true)
    }

    /// Candidate bytes the mailbox consumes: the content block (or the two
    /// pointer halves) plus four bytes for the command word.
    pub open spec fn spec_mailbox_size(self) -> int {
        if self.spec_has_mailbox() {
            (match self.mailbox_config {
                Some(c) => c.size as int,
                None => 8,
            }) + 4
        } else {
            0
        }
    }

    pub open spec fn spec_total_size(self) -> int {
        self.spec_flash_size() + self.spec_x86_size() + self.spec_psp_size()
            + self.spec_mailbox_size()
    }

    /// The machine limit the catalog must respect: a candidate of the full
    /// size must be addressable.
    pub open spec fn wf(self) -> bool {
        &&& self.spec_flash_size() >= 0
        &&& self.spec_x86_size() >= 0
        &&& self.spec_psp_size() >= 0
        &&& self.spec_total_size() <= usize::MAX
    }

    /// Test the machine limit exec-side: callers that cannot assume the
    /// catalog fits (it comes from a configuration file) check here before
    /// planning any injection.
    pub fn check_wf(&self) -> (r: bool)
        ensures
            r == self.wf(),
    {
        let mut acc: usize = 0;
        if let Some(f) = &self.flash {
            match try_sizes_sum(&f.input) {
                Some(v) => {
                    acc = v;
                },
                None => {
                    return false;
                },
            }
        }
        if let Some(m) = &self.x86 {
            match try_sizes_sum(&m.input) {
                Some(v) => {
                    match acc.checked_add(v) {
                        Some(a) => {
                            acc = a;
                        },
                        None => {
                            return false;
                        },
                    }
                },
                None => {
                    return false;
                },
            }
        }
        if let Some(m) = &self.psp {
            match try_sizes_sum(&m.input) {
                Some(v) => {
                    match acc.checked_add(v) {
                        Some(a) => {
                            acc = a;
                        },
                        None => {
                            return false;
                        },
                    }
                },
                None => {
                    return false;
                },
            }
        }
        if self.has_mailbox() {
            let extra = match &self.mailbox_config {
                Some(c) => c.size,
                None => 8,
            };
            match acc.checked_add(extra) {
                Some(a) => {
                    acc = a;
                },
                None => {
                    return false;
                },
            }
            match acc.checked_add(4) {
                Some(a) => {
                    acc = a;
                },
                None => {
                    return false;
                },
            }
        }
        proof {
            if self.flash is Some {
                lemma_offset_nonneg(self.flash->Some_0.input@, self.flash->Some_0.input@.len() as int);
            }
            if self.x86 is Some {
                lemma_offset_nonneg(self.x86->Some_0.input@, self.x86->Some_0.input@.len() as int);
            }
            if self.psp is Some {
                lemma_offset_nonneg(self.psp->Some_0.input@, self.psp->Some_0.input@.len() as int);
            }
        }
        true
    }

    /// Whether the mailbox record is written.
    pub fn has_mailbox(&self) -> (r: bool)
        ensures
            r == self.spec_has_mailbox(),
    {
        match self.mailbox {
            Some(b) => b,
            None => false,
        }
    }

    /// Total number of candidate bytes the catalog consumes; candidates are
    /// padded or truncated to this size before injection.
    pub fn total_size(&self) -> (r: usize)
        requires
            self.wf(),
        ensures
            r == self.spec_total_size(),
    {
        let mut acc: usize = 0;
        if let Some(f) = &self.flash {
            proof {
                lemma_offset_nonneg(f.input@, f.input@.len() as int);
            }
            acc = f.size();
        }
        if let Some(m) = &self.x86 {
            proof {
                lemma_offset_nonneg(m.input@, m.input@.len() as int);
            }
            acc = acc + m.size();
        }
        if let Some(m) = &self.psp {
            proof {
                lemma_offset_nonneg(m.input@, m.input@.len() as int);
            }
            acc = acc + m.size();
        }
        if self.has_mailbox() {
            acc = acc + (match &self.mailbox_config {
                Some(c) => c.size,
                None => 8,
            });
            acc = acc + 4;
        }
        acc
    }

    /// The mailbox record injected for this candidate: the command word comes
    /// from the candidate; the pointer halves come from the configuration
    /// when it pins them, else from the candidate, the high half run through
    /// the mask policy.
    pub open spec fn spec_mailbox_record(self, padded: Seq<u8>, off: int) -> MailboxValues {
        match self.mailbox_config {
            Some(c) => MailboxValues {
                mbox: spec_le32_at(padded, off),
                ptr_lower: c.mbox_low,
                ptr_higher: c.mbox_high,
            },
            None => MailboxValues {
                mbox: spec_le32_at(padded, off + 8),
                ptr_lower: spec_le32_at(padded, off),
                ptr_higher: self.ptr_higher_mask.spec_apply(spec_le32_at(padded, off + 4)),
            },
        }
    }

    /// The mailbox writes: the three record fields at the mailbox base, then,
    /// when the configuration pins the pointer, the content block at the
    /// address the pointer halves name.
    pub open spec fn spec_mailbox_writes(self, padded: Seq<u8>, off: int) -> Seq<WriteModel> {
        if !self.spec_has_mailbox() {
            Seq::empty()
        } else {
            let v = self.spec_mailbox_record(padded, off);
            let rec = seq![
                WriteModel {
                    space: AddressSpace::Mailbox,
                    kind: WriteKind::MailboxField,
                    addr: MAILBOX_BASE_ADDR as u64,
                    bytes: spec_u32_to_le_bytes(v.mbox),
                },
                WriteModel {
                    space: AddressSpace::Mailbox,
                    kind: WriteKind::MailboxField,
                    addr: (MAILBOX_BASE_ADDR + 4) as u64,
                    bytes: spec_u32_to_le_bytes(v.ptr_lower),
                },
                WriteModel {
                    space: AddressSpace::Mailbox,
                    kind: WriteKind::MailboxField,
                    addr: (MAILBOX_BASE_ADDR + 8) as u64,
                    bytes: spec_u32_to_le_bytes(v.ptr_higher),
                },
            ];
            match self.mailbox_config {
                Some(c) => rec + seq![
                    WriteModel {
                        space: AddressSpace::X86Physical,
                        kind: WriteKind::MailboxContent,
                        addr: v.spec_content_address(),
                        bytes: padded.subrange(off + 4, off + 4 + c.size),
                    },
                ],
                None => rec,
            }
        }
    }

    /// The full write plan for a padded candidate: the regions in catalog
    /// order, each on its segment of the buffer, then the mailbox.
    pub open spec fn spec_apply_input(self, padded: Seq<u8>) -> Seq<WriteModel> {
        let fs = self.spec_flash_size();
        let xs = self.spec_x86_size();
        let ps = self.spec_psp_size();
        (match self.flash {
            Some(f) => spec_region_writes(
                AddressSpace::Flash,
                f.input@,
                f.fixed@,
                padded.subrange(0, fs),
            ),
            None => Seq::empty(),
        }) + (match self.x86 {
            Some(m) => spec_region_writes(
                AddressSpace::X86Physical,
                m.input@,
                m.fixed@,
                padded.subrange(fs, fs + xs),
            ),
            None => Seq::empty(),
        }) + (match self.psp {
            Some(m) => spec_region_writes(
                AddressSpace::PspPhysical,
                m.input@,
                m.fixed@,
                padded.subrange(fs + xs, fs + xs + ps),
            ),
            None => Seq::empty(),
        }) + self.spec_mailbox_writes(padded, fs + xs + ps)
    }

    /// Turn a raw candidate into the write plan: the candidate is padded or
    /// truncated to the catalog's total size, cut into region segments in
    /// catalog order, and each region plans its slices and overlays.
    pub fn apply_input(&self, input: &[u8]) -> (r: Vec<MemWrite>)
        requires
            self.wf(),
        ensures
            plan_of(r@) == self.spec_apply_input(spec_pad(input@, self.spec_total_size())),
    {
        let total = self.total_size();
        let padded = pad_candidate(input, total);
        let ghost pseq = padded@;
        let buf = padded.as_slice();
        let mut out: Vec<MemWrite> = Vec::new();
        let mut off: usize = 0;
        if let Some(f) = &self.flash {
            proof {
                lemma_offset_nonneg(f.input@, f.input@.len() as int);
            }
            let sz = f.size();
            f.apply_input(slice_subrange(buf, 0, sz), &mut out);
            off = sz;
        }
        let ghost plan_flash = plan_of(out@);
        if let Some(m) = &self.x86 {
            proof {
                lemma_offset_nonneg(m.input@, m.input@.len() as int);
            }
            let sz = m.size();
            m.apply_input(AddressSpace::X86Physical, slice_subrange(buf, off, off + sz), &mut out);
            off = off + sz;
        }
        let ghost plan_x86 = plan_of(out@);
        if let Some(m) = &self.psp {
            proof {
                lemma_offset_nonneg(m.input@, m.input@.len() as int);
            }
            let sz = m.size();
            m.apply_input(AddressSpace::PspPhysical, slice_subrange(buf, off, off + sz), &mut out);
            off = off + sz;
        }
        let ghost plan_psp = plan_of(out@);
        if self.has_mailbox() {
            let values = match &self.mailbox_config {
                Some(c) => {
                    let mbox = u32_from_le_bytes(slice_subrange(buf, off, off + 4));
                    MailboxValues { mbox, ptr_lower: c.mbox_low, ptr_higher: c.mbox_high }
                },
                None => {
                    let ptr_lower = u32_from_le_bytes(slice_subrange(buf, off, off + 4));
                    let raw_higher = u32_from_le_bytes(slice_subrange(buf, off + 4, off + 8));
                    let ptr_higher = self.ptr_higher_mask.apply(raw_higher);
                    let mbox = u32_from_le_bytes(slice_subrange(buf, off + 8, off + 12));
                    MailboxValues { mbox, ptr_lower, ptr_higher }
                },
            };
            out.push(
                MemWrite {
                    space: AddressSpace::Mailbox,
                    kind: WriteKind::MailboxField,
                    addr: MAILBOX_BASE_ADDR as u64,
                    bytes: u32_to_le_bytes(values.mbox),
                },
            );
            out.push(
                MemWrite {
                    space: AddressSpace::Mailbox,
                    kind: WriteKind::MailboxField,
                    addr: (MAILBOX_BASE_ADDR + 4) as u64,
                    bytes: u32_to_le_bytes(values.ptr_lower),
                },
            );
            out.push(
                MemWrite {
                    space: AddressSpace::Mailbox,
                    kind: WriteKind::MailboxField,
                    addr: (MAILBOX_BASE_ADDR + 8) as u64,
                    bytes: u32_to_le_bytes(values.ptr_higher),
                },
            );
            if let Some(c) = &self.mailbox_config {
                let content = slice_to_vec(slice_subrange(buf, off + 4, off + 4 + c.size));
                let addr = values.content_address();
                out.push(
                    MemWrite {
                        space: AddressSpace::X86Physical,
                        kind: WriteKind::MailboxContent,
                        addr,
                        bytes: content,
                    },
                );
            }
        }
        proof {
            assert(plan_of(out@) =~~= self.spec_apply_input(pseq));
        }
        out
    }
}

// What a plan does to guest memory, and the laws of the injector.
//
// Memory is modelled as a partial map from (address space, address) to the
// byte last written there; a plan is applied write by write, in order.

/// Whether write `w` writes the byte at address `a` of `space`.
pub open spec fn write_covers(w: WriteModel, space: AddressSpace, a: int) -> bool {
    w.space == space && w.addr <= a < w.addr + w.bytes.len()
}

/// Memory after one write: every covered address holds the write's byte,
/// everything else is unchanged.
pub open spec fn apply_write(
    mem: Map<(AddressSpace, int), u8>,
    w: WriteModel,
) -> Map<(AddressSpace, int), u8> {
    Map::new(
        |k: (AddressSpace, int)| mem.dom().contains(k) || write_covers(w, k.0, k.1),
        |k: (AddressSpace, int)|
            if write_covers(w, k.0, k.1) {
                w.bytes[k.1 - w.addr]
            } else {
                mem[k]
            },
    )
}

/// Memory after a whole plan, applied in order.
pub open spec fn apply_plan(
    mem: Map<(AddressSpace, int), u8>,
    plan: Seq<WriteModel>,
) -> Map<(AddressSpace, int), u8>
    decreases plan.len(),
{
    if plan.len() == 0 {
        mem
    } else {
        apply_plan(apply_write(mem, plan[0]), plan.skip(1))
    }
}

/// A plan none of whose writes covers an address leaves that address alone.
pub proof fn lemma_plan_preserves_untouched(
    mem: Map<(AddressSpace, int), u8>,
    plan: Seq<WriteModel>,
    space: AddressSpace,
    a: int,
)
    requires
        forall|k: int| 0 <= k < plan.len() ==> !write_covers(#[trigger] plan[k], space, a),
    ensures
        apply_plan(mem, plan).dom().contains((space, a)) == mem.dom().contains((space, a)),
        mem.dom().contains((space, a)) ==> apply_plan(mem, plan)[(space, a)] == mem[(space, a)],
    decreases plan.len(),
{
    if plan.len() > 0 {
        assert(!write_covers(plan[0], space, a));
        assert(forall|k: int|
            0 <= k < plan.skip(1).len() ==> plan.skip(1)[k] == plan[k + 1]
                && !write_covers(#[trigger] plan.skip(1)[k], space, a));
        lemma_plan_preserves_untouched(apply_write(mem, plan[0]), plan.skip(1), space, a);
    }
}

/// Last write wins: if write `j` covers an address and no later write does,
/// the byte that ends up resident is write `j`'s.
pub proof fn lemma_last_write_wins(
    mem: Map<(AddressSpace, int), u8>,
    plan: Seq<WriteModel>,
    j: int,
    space: AddressSpace,
    a: int,
)
    requires
        0 <= j < plan.len(),
        write_covers(plan[j], space, a),
        forall|k: int| j < k < plan.len() ==> !write_covers(#[trigger] plan[k], space, a),
    ensures
        apply_plan(mem, plan).dom().contains((space, a)),
        apply_plan(mem, plan)[(space, a)] == plan[j].bytes[a - plan[j].addr],
    decreases plan.len(),
{
    let mem1 = apply_write(mem, plan[0]);
    assert(forall|k: int| 0 <= k < plan.skip(1).len() ==> plan.skip(1)[k] == plan[k + 1]);
    if j == 0 {
        assert(mem1.dom().contains((space, a)));
        assert(mem1[(space, a)] == plan[0].bytes[a - plan[0].addr]);
        lemma_plan_preserves_untouched(mem1, plan.skip(1), space, a);
    } else {
        lemma_last_write_wins(mem1, plan.skip(1), j - 1, space, a);
    }
}

/// Shape of one region's writes: every element targets the region's space,
/// and the variable slices stand before the fixed overlays.
proof fn lemma_region_writes_shape(
    space: AddressSpace,
    locs: Seq<InputLocation>,
    fixed: Seq<FixedLocation>,
    buf: Seq<u8>,
)
    ensures
        forall|t: int|
            0 <= t < spec_region_writes(space, locs, fixed, buf).len() ==> {
                &&& (#[trigger] spec_region_writes(space, locs, fixed, buf)[t]).space == space
                &&& (spec_region_writes(space, locs, fixed, buf)[t].kind
                    == WriteKind::VariableSlice <==> t < locs.len())
                &&& (spec_region_writes(space, locs, fixed, buf)[t].kind == WriteKind::FixedOverlay
                    <==> locs.len() <= t)
            },
{
}

/// Variable slices are written before fixed overlays: in any plan the
/// injector builds, a fixed overlay never precedes a variable slice of the
/// same address space. Constants therefore always win where the two overlap.
pub proof fn lemma_slices_before_overlays(cfg: InputConfig, padded: Seq<u8>, i: int, j: int)
    requires
        0 <= i < cfg.spec_apply_input(padded).len(),
        0 <= j < cfg.spec_apply_input(padded).len(),
        cfg.spec_apply_input(padded)[i].kind == WriteKind::FixedOverlay,
        cfg.spec_apply_input(padded)[j].kind == WriteKind::VariableSlice,
        cfg.spec_apply_input(padded)[i].space == cfg.spec_apply_input(padded)[j].space,
    ensures
        j < i,
{
    let fs = cfg.spec_flash_size();
    let xs = cfg.spec_x86_size();
    let ps = cfg.spec_psp_size();
    let pf = match cfg.flash {
        Some(f) => spec_region_writes(AddressSpace::Flash, f.input@, f.fixed@, padded.subrange(0, fs)),
        None => Seq::empty(),
    };
    let px = match cfg.x86 {
        Some(m) => spec_region_writes(
            AddressSpace::X86Physical,
            m.input@,
            m.fixed@,
            padded.subrange(fs, fs + xs),
        ),
        None => Seq::empty(),
    };
    let pp = match cfg.psp {
        Some(m) => spec_region_writes(
            AddressSpace::PspPhysical,
            m.input@,
            m.fixed@,
            padded.subrange(fs + xs, fs + xs + ps),
        ),
        None => Seq::empty(),
    };
    let pm = cfg.spec_mailbox_writes(padded, fs + xs + ps);
    let plan = cfg.spec_apply_input(padded);
    assert(plan == pf + px + pp + pm);
    if let Some(f) = cfg.flash {
        lemma_region_writes_shape(AddressSpace::Flash, f.input@, f.fixed@, padded.subrange(0, fs));
    }
    if let Some(m) = cfg.x86 {
        lemma_region_writes_shape(
            AddressSpace::X86Physical,
            m.input@,
            m.fixed@,
            padded.subrange(fs, fs + xs),
        );
    }
    if let Some(m) = cfg.psp {
        lemma_region_writes_shape(
            AddressSpace::PspPhysical,
            m.input@,
            m.fixed@,
            padded.subrange(fs + xs, fs + xs + ps),
        );
    }
    assert(forall|t: int|
        0 <= t < pm.len() ==> (#[trigger] pm[t]).kind == WriteKind::MailboxField || pm[t].kind
            == WriteKind::MailboxContent);
}

/// Contribution of a plan segment to the count of candidate bytes injected
/// through variable slices.
pub open spec fn sum_var_range(plan: Seq<WriteModel>, lo: int, hi: int) -> int
    decreases hi - lo,
{
    if lo >= hi {
        0
    } else {
        (if plan[lo].kind == WriteKind::VariableSlice {
            plan[lo].bytes.len() as int
        } else {
            0
        }) + sum_var_range(plan, lo + 1, hi)
    }
}

/// Candidate bytes the whole plan injects through variable slices.
pub open spec fn spec_var_bytes_len(plan: Seq<WriteModel>) -> int {
    sum_var_range(plan, 0, plan.len() as int)
}

proof fn lemma_sum_var_split(plan: Seq<WriteModel>, lo: int, mid: int, hi: int)
    requires
        lo <= mid <= hi,
    ensures
        sum_var_range(plan, lo, hi) == sum_var_range(plan, lo, mid) + sum_var_range(plan, mid, hi),
    decreases mid - lo,
{
    if lo < mid {
        lemma_sum_var_split(plan, lo + 1, mid, hi);
    }
}

/// A segment without variable slices contributes nothing.
proof fn lemma_sum_var_none(plan: Seq<WriteModel>, lo: int, hi: int)
    requires
        forall|t: int| lo <= t < hi ==> (#[trigger] plan[t]).kind != WriteKind::VariableSlice,
    ensures
        sum_var_range(plan, lo, hi) == 0,
    decreases hi - lo,
{
    if lo < hi {
        lemma_sum_var_none(plan, lo + 1, hi);
    }
}

/// A segment holding one region's variable slices contributes exactly the
/// region's size.
proof fn lemma_sum_var_region(
    plan: Seq<WriteModel>,
    lo: int,
    locs: Seq<InputLocation>,
    buf: Seq<u8>,
    t: int,
)
    requires
        0 <= t <= locs.len(),
        buf.len() == spec_sizes_sum(locs),
        forall|k: int|
            0 <= k < locs.len() ==> 0 <= lo + k && #[trigger] plan[lo + k] == spec_var_writes(
                AddressSpace::Flash,
                locs,
                buf,
            )[k] || plan[lo + k] == spec_var_writes(AddressSpace::X86Physical, locs, buf)[k] || plan[
                lo + k
            ] == spec_var_writes(AddressSpace::PspPhysical, locs, buf)[k],
    ensures
        sum_var_range(plan, lo + t, lo + locs.len()) == spec_sizes_sum(locs) - spec_offset_of(
            locs,
            t,
        ),
    decreases locs.len() - t,
{
    if t == locs.len() {
        lemma_offset_nonneg(locs, t);
    } else {
        lemma_offset_nonneg(locs, t);
        lemma_offset_monotonic(locs, t + 1, locs.len() as int);
        assert(plan[lo + t].kind == WriteKind::VariableSlice);
        assert(plan[lo + t].bytes.len() == locs[t].size);
        lemma_sum_var_region(plan, lo, locs, buf, t + 1);
    }
}

/// For every candidate, whatever its length, the plan injects exactly the
/// catalog's total size: the variable slices account for the region sizes and
/// the mailbox for its configured share, padding and truncation included.
pub proof fn lemma_apply_input_accounts_total(cfg: InputConfig, raw: Seq<u8>)
    requires
        cfg.wf(),
    ensures
        spec_var_bytes_len(cfg.spec_apply_input(spec_pad(raw, cfg.spec_total_size())))
            + cfg.spec_mailbox_size() == cfg.spec_total_size(),
{
    let total = cfg.spec_total_size();
    let padded = spec_pad(raw, total);
    let fs = cfg.spec_flash_size();
    let xs = cfg.spec_x86_size();
    let ps = cfg.spec_psp_size();
    let pf = match cfg.flash {
        Some(f) => spec_region_writes(AddressSpace::Flash, f.input@, f.fixed@, padded.subrange(0, fs)),
        None => Seq::<WriteModel>::empty(),
    };
    let px = match cfg.x86 {
        Some(m) => spec_region_writes(
            AddressSpace::X86Physical,
            m.input@,
            m.fixed@,
            padded.subrange(fs, fs + xs),
        ),
        None => Seq::<WriteModel>::empty(),
    };
    let pp = match cfg.psp {
        Some(m) => spec_region_writes(
            AddressSpace::PspPhysical,
            m.input@,
            m.fixed@,
            padded.subrange(fs + xs, fs + xs + ps),
        ),
        None => Seq::<WriteModel>::empty(),
    };
    let pm = cfg.spec_mailbox_writes(padded, fs + xs + ps);
    let plan = cfg.spec_apply_input(padded);
    assert(plan == pf + px + pp + pm);
    assert(padded.len() == total);
    let b0 = pf.len() as int;
    let b1 = b0 + px.len();
    let b2 = b1 + pp.len();
    let b3 = b2 + pm.len();
    assert(plan.len() == b3);
    lemma_sum_var_split(plan, 0, b0, b3);
    lemma_sum_var_split(plan, b0, b1, b3);
    lemma_sum_var_split(plan, b1, b2, b3);
    assert(sum_var_range(plan, 0, b0) == fs) by {
        match cfg.flash {
            Some(f) => {
                let buf = padded.subrange(0, fs);
                let nv = f.input@.len() as int;
                assert(forall|k: int|
                    0 <= k < nv ==> #[trigger] plan[0 + k] == spec_var_writes(
                        AddressSpace::Flash,
                        f.input@,
                        buf,
                    )[k]);
                lemma_sum_var_region(plan, 0, f.input@, buf, 0);
                lemma_sum_var_split(plan, 0, nv, b0);
                lemma_region_writes_shape(AddressSpace::Flash, f.input@, f.fixed@, buf);
                lemma_sum_var_none(plan, nv, b0);
            },
            None => {},
        }
    }
    assert(sum_var_range(plan, b0, b1) == xs) by {
        match cfg.x86 {
            Some(m) => {
                let buf = padded.subrange(fs, fs + xs);
                let nv = m.input@.len() as int;
                assert(forall|k: int|
                    0 <= k < nv ==> #[trigger] plan[b0 + k] == spec_var_writes(
                        AddressSpace::X86Physical,
                        m.input@,
                        buf,
                    )[k]);
                lemma_sum_var_region(plan, b0, m.input@, buf, 0);
                lemma_sum_var_split(plan, b0, b0 + nv, b1);
                lemma_region_writes_shape(AddressSpace::X86Physical, m.input@, m.fixed@, buf);
                lemma_sum_var_none(plan, b0 + nv, b1);
            },
            None => {},
        }
    }
    assert(sum_var_range(plan, b1, b2) == ps) by {
        match cfg.psp {
            Some(m) => {
                let buf = padded.subrange(fs + xs, fs + xs + ps);
                let nv = m.input@.len() as int;
                assert(forall|k: int|
                    0 <= k < nv ==> #[trigger] plan[b1 + k] == spec_var_writes(
                        AddressSpace::PspPhysical,
                        m.input@,
                        buf,
                    )[k]);
                lemma_sum_var_region(plan, b1, m.input@, buf, 0);
                lemma_sum_var_split(plan, b1, b1 + nv, b2);
                lemma_region_writes_shape(AddressSpace::PspPhysical, m.input@, m.fixed@, buf);
                lemma_sum_var_none(plan, b1 + nv, b2);
            },
            None => {},
        }
    }
    assert(sum_var_range(plan, b2, b3) == 0) by {
        assert(forall|t: int|
            b2 <= t < b3 ==> (#[trigger] plan[t]).kind != WriteKind::VariableSlice);
        lemma_sum_var_none(plan, b2, b3);
    }
}

/// Fixed overlays always win: when a fixed constant overlay covers an
/// address and every later write that could touch that address is a variable
/// slice, the constant's byte is what ends up resident — a variable slice of
/// the same space is always written before the overlay, never after.
pub proof fn lemma_fixed_overlay_wins(
    cfg: InputConfig,
    mem: Map<(AddressSpace, int), u8>,
    padded: Seq<u8>,
    j: int,
    space: AddressSpace,
    a: int,
)
    requires
        0 <= j < cfg.spec_apply_input(padded).len(),
        cfg.spec_apply_input(padded)[j].kind == WriteKind::FixedOverlay,
        write_covers(cfg.spec_apply_input(padded)[j], space, a),
        forall|k: int|
            j < k < cfg.spec_apply_input(padded).len() && write_covers(
                #[trigger] cfg.spec_apply_input(padded)[k],
                space,
                a,
            ) ==> cfg.spec_apply_input(padded)[k].kind == WriteKind::VariableSlice,
    ensures
        apply_plan(mem, cfg.spec_apply_input(padded)).dom().contains((space, a)),
        apply_plan(mem, cfg.spec_apply_input(padded))[(space, a)] == cfg.spec_apply_input(
            padded,
        )[j].bytes[a - cfg.spec_apply_input(padded)[j].addr],
{
    let plan = cfg.spec_apply_input(padded);
    assert forall|k: int| j < k < plan.len() implies !write_covers(
        #[trigger] plan[k],
        space,
        a,
    ) by {
        if write_covers(plan[k], space, a) {
            assert(plan[k].kind == WriteKind::VariableSlice);
            assert(plan[k].space == space && plan[j].space == space);
            lemma_slices_before_overlays(cfg, padded, j, k);
        }
    }
    lemma_last_write_wins(mem, plan, j, space, a);
}

} // verus!
