//! The geometry of a disk that is backed by a file: sectors, their size, and
//! where in the file a sector lies.

use vstd::arithmetic::power2::lemma2_to64;
use vstd::arithmetic::power2::lemma_pow2_pos;
use vstd::arithmetic::power2::lemma_pow2_strictly_increases;
use vstd::arithmetic::power2::pow2;
use vstd::bits::lemma_u32_pow2_no_overflow;
use vstd::bits::lemma_u32_shl_is_mul;
use vstd::bits::lemma_u64_mul_pow2_le_max_iff_max_shr;
use vstd::bits::lemma_u64_shl_is_mul;
use vstd::bits::lemma_u64_shr_is_div;
use vstd::prelude::*;
use vstd::std_specs::bits::axiom_u32_trailing_zeros;
use vstd::std_specs::bits::u32_trailing_zeros;

verus! {

/// What is known of a disk without looking at its contents.
#[derive(Debug)]
pub struct Metadata {
    /// The size of the disk in bytes.
    pub disk_size: u64,
    /// The size of a sector in bytes.
    pub sector_size: u32,
    /// The size of a physical sector in bytes.
    pub physical_sector_size: u32,
    /// Whether the disk refuses writes.
    pub read_only: bool,
}

/// Whether `x` is a power of two.
pub open spec fn is_power_of_two(x: u32) -> bool {
    exists|k: nat| x == #[trigger] pow2(k)
}

/// A power of two that fits in 32 bits has an exponent below 32 and is the
/// bit at that place.
proof fn lemma_power_of_two_bit(x: u32, k: nat)
    requires
        x == pow2(k),
    ensures
        k < 32,
        x == 1u32 << (k as u32),
{
    if k >= 32 {
        lemma2_to64();
        if k > 32 {
            lemma_pow2_strictly_increases(32, k);
        }
    }
    lemma_u32_pow2_no_overflow(k);
    lemma_u32_shl_is_mul(1, k as u32);
}

/// Whether `x` is a power of two.
pub fn check_power_of_two(x: u32) -> (r: bool)
    ensures
        r == is_power_of_two(x),
{
    if x == 0 {
        assert forall|k: nat| x != #[trigger] pow2(k) by {
            lemma_pow2_pos(k);
        }
        return false;
    }
    let r = x & (x - 1) == 0;
    proof {
        let t = u32_trailing_zeros(x);
        axiom_u32_trailing_zeros(x);
        if r {
            assert(x == 1u32 << t) by (bit_vector)
                requires
                    x != 0,
                    x & ((x - 1) as u32) == 0,
                    t < 32,
                    (x >> t) & 1u32 == 1u32,
            ;
            lemma_u32_pow2_no_overflow(t as nat);
            lemma_u32_shl_is_mul(1, t);
            assert(x == pow2(t as nat));
        } else {
            assert forall|k: nat| x != #[trigger] pow2(k) by {
                if x == pow2(k) {
                    lemma_power_of_two_bit(x, k);
                    let s = k as u32;
                    assert(x & ((x - 1) as u32) == 0) by (bit_vector)
                        requires
                            s < 32,
                            x == 1u32 << s,
                    ;
                }
            }
        }
    }
    r
}

impl Metadata {
    /// The metadata of a disk of `disk_size` bytes when nothing else is
    /// known of it: sectors of 512 bytes on physical sectors of 4096.
    pub fn for_size(disk_size: u64, read_only: bool) -> (r: Metadata)
        ensures
            r == (Metadata { disk_size, sector_size: 512, physical_sector_size: 4096, read_only }),
            r.spec_is_valid(),
    {
        proof {
            lemma2_to64();
        }
        Metadata { disk_size, sector_size: 512, physical_sector_size: 4096, read_only }
    }

    /// Whether a disk can have this metadata: the sector size is a power
    /// of two and at least 512.
    pub open spec fn spec_is_valid(&self) -> bool {
        is_power_of_two(self.sector_size) && self.sector_size >= 512
    }

    /// Whether a disk can have this metadata.
    #[verifier::when_used_as_spec(spec_is_valid)]
    pub fn is_valid(&self) -> (r: bool)
        ensures
            r == self.spec_is_valid(),
    {
        check_power_of_two(self.sector_size) && self.sector_size >= 512
    }
}

/// The sectors of a disk.
pub struct Geometry {
    metadata: Metadata,
    sector_shift: u32,
}

impl Geometry {
    #[verifier::type_invariant]
    spec fn well_formed(self) -> bool {
        &&& 9 <= self.sector_shift < 32
        &&& self.metadata.sector_size == pow2(self.sector_shift as nat)
    }

    /// The metadata that the geometry was made from.
    pub closed spec fn metadata(self) -> Metadata {
        self.metadata
    }

    /// The number of bits by which a sector number is shifted to give a
    /// byte offset.
    pub closed spec fn shift(self) -> nat {
        self.sector_shift as nat
    }

    /// The geometry of a disk with the given metadata.
    pub fn with_metadata(metadata: Metadata) -> (r: Geometry)
        requires
            metadata.is_valid(),
        ensures
            r.metadata() == metadata,
            r.shift() == u32_trailing_zeros(metadata.sector_size),
            metadata.sector_size == pow2(r.shift()),
            9 <= r.shift() < 32,
    {
        let sector_shift = metadata.sector_size.trailing_zeros();
        proof {
            let x = metadata.sector_size;
            let k = choose|k: nat| x == #[trigger] pow2(k);
            lemma_power_of_two_bit(x, k);
            axiom_u32_trailing_zeros(x);
            let s = k as u32;
            assert(sector_shift == s) by (bit_vector)
                requires
                    s < 32,
                    x == 1u32 << s,
                    sector_shift < 32 ==> (x >> sector_shift) & 1u32 == 1u32,
                    sector_shift <= 32,
                    sector_shift == 32 ==> x == 0,
            ;
            lemma2_to64();
            if k < 9 {
                lemma_pow2_strictly_increases(k, 9);
            }
        }
        Geometry { metadata, sector_shift }
    }

    /// The geometry of a disk with the given metadata, if a disk can have
    /// it.
    pub fn try_with_metadata(metadata: Metadata) -> (r: Option<Geometry>)
        ensures
            r is Some <==> metadata.is_valid(),
            r matches Some(geometry) ==> geometry.metadata() == metadata,
    {
        if metadata.is_valid() {
            Some(Geometry::with_metadata(metadata))
        } else {
            None
        }
    }

    /// The kind of disk.
    pub fn disk_type(&self) -> (r: &'static str)
        ensures
            r@ == "file"@,
    {
        "file"
    }

    /// The number of whole sectors on the disk.
    pub fn sector_count(&self) -> (r: u64)
        ensures
            r == self.metadata().disk_size as nat / self.metadata().sector_size as nat,
    {
        proof {
            use_type_invariant(self);
            lemma_u64_shr_is_div(self.metadata.disk_size, self.sector_shift as u64);
        }
        self.metadata.disk_size >> self.sector_shift
    }

    /// The size of a sector in bytes.
    pub fn sector_size(&self) -> (r: u32)
        ensures
            r == self.metadata().sector_size,
    {
        self.metadata.sector_size
    }

    /// Whether the disk refuses writes.
    pub fn is_read_only(&self) -> (r: bool)
        ensures
            r == self.metadata().read_only,
    {
        self.metadata.read_only
    }

    /// The identifier of the disk. A file has none.
    pub fn disk_id(&self) -> (r: Option<[u8; 16]>)
        ensures
            r is None,
    {
        None
    }

    /// The size of a physical sector in bytes.
    pub fn physical_sector_size(&self) -> (r: u32)
        ensures
            r == self.metadata().physical_sector_size,
    {
        self.metadata.physical_sector_size
    }

    /// Whether a write with forced unit access reaches the medium before it
    /// completes. A file gives no such promise.
    pub fn is_fua_respected(&self) -> (r: bool)
        ensures
            !r,
    {
        false
    }

    /// Whether `len` bytes from the start of `sector` on lie on the disk.
    pub open spec fn spec_contains(self, sector: u64, len: usize) -> bool {
        sector * self.metadata().sector_size + len <= self.metadata().disk_size
    }

    /// The byte offset of `sector`, if `len` bytes from there on lie on the
    /// disk.
    pub fn checked_offset(&self, sector: u64, len: usize) -> (r: Option<u64>)
        ensures
            r is Some <==> self.spec_contains(sector, len),
            r matches Some(offset) ==> offset == sector * self.metadata().sector_size,
    {
        proof {
            use_type_invariant(self);
            lemma_u64_mul_pow2_le_max_iff_max_shr(
                sector,
                self.sector_shift as u64,
                self.metadata.disk_size,
            );
            lemma_pow2_pos(self.sector_shift as nat);
        }
        if sector > (self.metadata.disk_size >> self.sector_shift) {
            return None;
        }
        proof {
            lemma_u64_shl_is_mul(sector, self.sector_shift as u64);
        }
        let offset = sector << self.sector_shift;
        if len as u64 <= self.metadata.disk_size - offset {
            Some(offset)
        } else {
            None
        }
    }

    /// The byte offset of `sector`.
    pub fn offset(&self, sector: u64, len: usize) -> (r: u64)
        requires
            self.spec_contains(sector, len),
        ensures
            r == sector * self.metadata().sector_size,
    {
        proof {
            use_type_invariant(self);
            lemma_pow2_pos(self.sector_shift as nat);
            lemma_u64_shl_is_mul(sector, self.sector_shift as u64);
        }
        sector << self.sector_shift
    }
}

/// Turns the description of a file disk into its geometry.
pub struct FileDiskResolver;

impl FileDiskResolver {
    /// The geometry of a disk backed by a file of `file_size` bytes.
    pub fn resolve(&self, file_size: u64, read_only: bool) -> (r: Geometry)
        ensures
            r.metadata() == (Metadata {
                disk_size: file_size,
                sector_size: 512,
                physical_sector_size: 4096,
                read_only,
            }),
    {
        Geometry::with_metadata(Metadata::for_size(file_size, read_only))
    }
}

} // verus!
