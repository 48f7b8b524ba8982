//! Extracting seed inputs from base flash images.
//!
//! The first corpus entries are cut out of known-good flash images: for each
//! variable region of the catalog, the bytes the image already holds there,
//! concatenated in catalog order. Mutating from a good state reaches deeper
//! code than mutating from zeros. Reading and writing the image files is
//! the caller's task; the extraction itself is computed here.

use vstd::prelude::*;

verus! {

use vstd::slice::{slice_subrange, slice_to_vec};

/// One variable region: `size` bytes whose flash-window address is `addr`.
#[derive(Clone, Copy, Debug, PartialEq, Eq, Structural)]
pub struct MemConfig {
    pub addr: u32,
    pub size: usize,
}

/// Where a region's bytes sit inside the image file: the flash window is
/// mapped at a fixed high base, so only the low 24 bits address the file.
pub open spec fn spec_mem_off(m: MemConfig) -> int {
    (m.addr & 0x00FF_FFFF) as int
}

/// Sum of the sizes of the first `i` regions.
pub open spec fn spec_mem_offset_of(mems: Seq<MemConfig>, i: int) -> int
    decreases i,
{
    if i <= 0 {
        0
    } else {
        spec_mem_offset_of(mems, i - 1) + mems[i - 1].size
    }
}

/// Whether one region can be cut from the image: inside the configured
/// flash size and inside the image file.
pub open spec fn spec_mem_region_ok(image: Seq<u8>, m: MemConfig, flash_size: u32) -> bool {
    &&& m.addr < flash_size
    &&& m.size < flash_size
    &&& spec_mem_off(m) + m.size <= image.len()
}

/// Whether a whole seed can be extracted: every region fits and the regions
/// together yield exactly the expected input size.
pub open spec fn spec_seed_wf(
    image: Seq<u8>,
    mems: Seq<MemConfig>,
    flash_size: u32,
    total: int,
) -> bool {
    &&& forall|i: int|
        0 <= i < mems.len() ==> spec_mem_region_ok(image, #[trigger] mems[i], flash_size)
    &&& spec_mem_offset_of(mems, mems.len() as int) == total
}

/// The bytes of the first `i` regions, cut from the image and concatenated.
pub open spec fn spec_seed_prefix(image: Seq<u8>, mems: Seq<MemConfig>, i: int) -> Seq<u8>
    decreases i,
{
    if i <= 0 {
        Seq::empty()
    } else {
        spec_seed_prefix(image, mems, i - 1) + image.subrange(
            spec_mem_off(mems[i - 1]),
            spec_mem_off(mems[i - 1]) + mems[i - 1].size,
        )
    }
}

/// The whole extracted seed.
pub open spec fn spec_seed_bytes(image: Seq<u8>, mems: Seq<MemConfig>) -> Seq<u8> {
    spec_seed_prefix(image, mems, mems.len() as int)
}

/// Generator of seed inputs.
#[derive(Clone, Copy, Debug, PartialEq, Eq, Structural)]
pub struct InitialInput {}

impl Default for InitialInput {
    fn default() -> (r: Self)
        ensures
            r == (InitialInput {  }),
    {
        Self::new()
    }
}

impl InitialInput {
    pub fn new() -> (r: Self)
        ensures
            r == (InitialInput {  }),
    {
        Self {  }
    }

    /// Cut one seed input out of a base image: each region's bytes in
    /// catalog order. Fails — instead of a verdict ever being wrong — when a
    /// region reaches outside the configured flash size or the image, or
    /// when the regions do not add up to the expected total; each is a
    /// configuration error.
    pub fn extract_seed(
        &self,
        image: &[u8],
        input_mem: &Vec<MemConfig>,
        flash_size: u32,
        input_total_size: usize,
    ) -> (r: Option<Vec<u8>>)
        ensures
            r is Some <==> spec_seed_wf(image@, input_mem@, flash_size, input_total_size as int),
            (r matches Some(v) ==> v@ == spec_seed_bytes(image@, input_mem@)),
    {
        let image_len = image.len();
        let mut out: Vec<u8> = Vec::new();
        let mut i: usize = 0;
        while i < input_mem.len()
            invariant
                i <= input_mem@.len(),
                image_len == image@.len(),
                forall|k: int|
                    0 <= k < i ==> spec_mem_region_ok(image@, #[trigger] input_mem@[k], flash_size),
                out@ == spec_seed_prefix(image@, input_mem@, i as int),
                out@.len() == spec_mem_offset_of(input_mem@, i as int),
            decreases input_mem@.len() - i,
        {
            let m = input_mem[i];
            if !(m.addr < flash_size && (m.size as u64) < (flash_size as u64)) {
                return None;
            }
            let masked = m.addr & 0x00FF_FFFF;
            proof {
                let a = m.addr;
                assert(a & 0x00FF_FFFF <= 0x00FF_FFFF) by (bit_vector);
            }
            let off = masked as usize;
            if off > image_len || m.size > image_len - off {
                return None;
            }
            let mut seg = slice_to_vec(slice_subrange(image, off, off + m.size));
            out.append(&mut seg);
            i = i + 1;
        }
        if out.len() != input_total_size {
            return None;
        }
        Some(out)
    }
}

} // verus!
