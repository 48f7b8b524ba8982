//! The mailbox handshake record.
//!
//! The target firmware reads a small three-field record (command selector and
//! a split 64-bit pointer) from a fixed physical address. The library only
//! computes the byte image of that record and parses it back; writing the
//! bytes into the emulated machine is the caller's task.

use vstd::prelude::*;

verus! {

use vstd::bytes::{
    lemma_auto_spec_u32_to_from_le_bytes, spec_u32_from_le_bytes, spec_u32_to_le_bytes,
    u32_from_le_bytes, u32_to_le_bytes,
};
use vstd::slice::slice_subrange;

/// Physical base address of the mailbox record in the target's address space.
pub const MAILBOX_BASE_ADDR: u32 = 0x0301_0570;

/// The three mailbox fields: command selector and the low and high halves of
/// the content pointer.
#[derive(Clone, Debug, Default, PartialEq, Eq, Structural)]
pub struct MailboxValues {
    pub mbox: u32,
    pub ptr_lower: u32,
    pub ptr_higher: u32,
}

impl MailboxValues {
    /// The 12-byte little-endian image of the record, as it sits in guest
    /// memory at [`MAILBOX_BASE_ADDR`].
    pub open spec fn spec_to_bytes(self) -> Seq<u8> {
        spec_u32_to_le_bytes(self.mbox) + spec_u32_to_le_bytes(self.ptr_lower)
            + spec_u32_to_le_bytes(self.ptr_higher)
    }

    /// Encode the record into its 12-byte guest-memory image.
    pub fn to_bytes(&self) -> (r: Vec<u8>)
        ensures
            r@ == self.spec_to_bytes(),
            r@.len() == 12,
    {
        let mut out = u32_to_le_bytes(self.mbox);
        let mut lower = u32_to_le_bytes(self.ptr_lower);
        let mut higher = u32_to_le_bytes(self.ptr_higher);
        out.append(&mut lower);
        out.append(&mut higher);
        out
    }

    /// Decode a 12-byte guest-memory image back into the three fields.
    pub fn from_bytes(b: &[u8]) -> (r: Self)
        requires
            b@.len() == 12,
        ensures
            r.mbox == spec_u32_from_le_bytes(b@.subrange(0, 4)),
            r.ptr_lower == spec_u32_from_le_bytes(b@.subrange(4, 8)),
            r.ptr_higher == spec_u32_from_le_bytes(b@.subrange(8, 12)),
    {
        let mbox = u32_from_le_bytes(slice_subrange(b, 0, 4));
        let ptr_lower = u32_from_le_bytes(slice_subrange(b, 4, 8));
        let ptr_higher = u32_from_le_bytes(slice_subrange(b, 8, 12));
        MailboxValues { mbox, ptr_lower, ptr_higher }
    }

    /// The 64-bit physical address named by the two pointer halves,
    /// high half in the upper 32 bits.
    pub fn content_address(&self) -> (r: u64)
        ensures
            r == self.spec_content_address(),
    {
        ((self.ptr_higher as u64) << 32u64) | (self.ptr_lower as u64)
    }

    pub open spec fn spec_content_address(self) -> u64 {
        ((self.ptr_higher as u64) << 32u64) | (self.ptr_lower as u64)
    }
}

/// Decoding the 12-byte image of a record gives back the record's three
/// fields: the mailbox encoding loses nothing.
pub proof fn lemma_mailbox_round_trip(v: MailboxValues)
    ensures
        v.spec_to_bytes().len() == 12,
        spec_u32_from_le_bytes(v.spec_to_bytes().subrange(0, 4)) == v.mbox,
        spec_u32_from_le_bytes(v.spec_to_bytes().subrange(4, 8)) == v.ptr_lower,
        spec_u32_from_le_bytes(v.spec_to_bytes().subrange(8, 12)) == v.ptr_higher,
{
    lemma_auto_spec_u32_to_from_le_bytes();
    let bytes = v.spec_to_bytes();
    assert(bytes.subrange(0, 4) =~= spec_u32_to_le_bytes(v.mbox));
    assert(bytes.subrange(4, 8) =~= spec_u32_to_le_bytes(v.ptr_lower));
    assert(bytes.subrange(8, 12) =~= spec_u32_to_le_bytes(v.ptr_higher));
}

/// Bit-mask policy applied to one mailbox field before it is written: the
/// raw fuzzer-chosen value first has `set_bits` forced on, then is limited
/// to `keep_bits`.
#[derive(Clone, Copy, Debug, PartialEq, Eq, Structural)]
pub struct MailboxFieldMask {
    pub set_bits: u32,
    pub keep_bits: u32,
}

impl MailboxFieldMask {
    /// Apply the mask policy to a raw field value.
    pub fn apply(&self, raw: u32) -> (r: u32)
        ensures
            r == self.spec_apply(raw),
    {
        (raw | self.set_bits) & self.keep_bits
    }

    pub open spec fn spec_apply(self, raw: u32) -> u32 {
        (raw | self.set_bits) & self.keep_bits
    }
}

impl Default for MailboxFieldMask {
    /// The mask the pointer high half is run through: the low pointer bits
    /// are pinned and the half is confined to 16 bits.
    fn default() -> (r: Self)
        ensures
            r == (MailboxFieldMask { set_bits: 0x0000_fffc, keep_bits: 0x0000_ffff }),
    {
        MailboxFieldMask { set_bits: 0x0000_fffc, keep_bits: 0x0000_ffff }
    }
}

/// Per-run bundle of mailbox state, attached to solutions so the operator
/// sees which command the candidate used.
#[derive(Clone, Debug, Default, PartialEq, Eq, Structural)]
pub struct MiscMetadata {
    pub mailbox_values: MailboxValues,
}

} // verus!
