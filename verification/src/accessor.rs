use crate::memory::{chars_of, string_from_bytes};
use vstd::prelude::*;

verus! {

// ---------------------------------------------------------------------------
// A captured view of a foreign process's address space.
//
// The external shell reads whatever regions of the target it can and hands
// them over as plain bytes; everything this crate computes is a function of
// that captured data. A read that falls outside every captured region
// yields zero bytes — the "absent reads as zero" contract that all callers
// rely on instead of error signalling.
// ---------------------------------------------------------------------------

pub struct Region {
    /// Address of the first byte of this region in the target's space.
    pub start: u64,
    pub bytes: Vec<u8>,
}

pub struct MemorySpace {
    pub regions: Vec<Region>,
}

/// Whether address `a` falls inside region `r`; only addresses representable
/// in 64 bits are considered mapped.
pub open spec fn region_has(r: Region, a: int) -> bool {
    0 <= a < 0x10000000000000000 && r.start <= a < r.start + r.bytes@.len()
}

/// The byte the first region containing `a` holds there, or zero.
pub open spec fn regions_byte_at(rs: Seq<Region>, a: int) -> u8
    decreases rs.len(),
{
    if rs.len() == 0 {
        0
    } else if region_has(rs[0], a) {
        rs[0].bytes@[a - rs[0].start]
    } else {
        regions_byte_at(rs.drop_first(), a)
    }
}

/// Addresses beyond the 64-bit space always read as zero.
pub proof fn lemma_regions_byte_at_high(rs: Seq<Region>, a: int)
    requires
        !(0 <= a < 0x10000000000000000),
    ensures
        regions_byte_at(rs, a) == 0,
    decreases rs.len(),
{
    if rs.len() > 0 {
        lemma_regions_byte_at_high(rs.drop_first(), a);
    }
}

impl MemorySpace {
    pub open spec fn u8_at(self, a: int) -> u8 {
        regions_byte_at(self.regions@, a)
    }

    pub open spec fn u16_at(self, a: int) -> u16 {
        (self.u8_at(a) + self.u8_at(a + 1) * 0x100) as u16
    }

    pub open spec fn u32_at(self, a: int) -> u32 {
        (self.u8_at(a) + self.u8_at(a + 1) * 0x100 + self.u8_at(a + 2) * 0x10000 + self.u8_at(
            a + 3,
        ) * 0x1000000) as u32
    }

    pub open spec fn u64_at(self, a: int) -> u64 {
        (self.u8_at(a) + self.u8_at(a + 1) * 0x100 + self.u8_at(a + 2) * 0x10000 + self.u8_at(
            a + 3,
        ) * 0x1000000 + self.u8_at(a + 4) * 0x100000000 + self.u8_at(a + 5) * 0x10000000000
            + self.u8_at(a + 6) * 0x1000000000000 + self.u8_at(a + 7)
            * 0x100000000000000) as u64
    }

    pub open spec fn i8_at(self, a: int) -> i8 {
        self.u8_at(a) as i8
    }

    pub open spec fn i16_at(self, a: int) -> i16 {
        self.u16_at(a) as i16
    }

    pub open spec fn i32_at(self, a: int) -> i32 {
        self.u32_at(a) as i32
    }

    pub open spec fn i64_at(self, a: int) -> i64 {
        self.u64_at(a) as i64
    }

    /// The NUL-terminated byte string in this space starting at `a`. Since
    /// unmapped bytes read as zero, the string always ends, at the latest at
    /// the top of the address space.
    pub open spec fn cstr_at(self, a: int) -> Seq<u8>
        decreases 0x10000000000000000 - a,
        when 0 <= a
    {
        if a >= 0x10000000000000000 || self.u8_at(a) == 0 {
            Seq::empty()
        } else {
            seq![self.u8_at(a)] + self.cstr_at(a + 1)
        }
    }

    /// The exact bytes a read of `count` bytes at `address` returns:
    /// per-address content where captured, zero elsewhere.
    pub open spec fn bytes_at(self, address: int, count: int) -> Seq<u8> {
        Seq::new(count as nat, |k: int| self.u8_at(address + k))
    }

    pub fn read_u8(&self, address: u64) -> (r: u8)
        ensures
            r == self.u8_at(address as int),
    {
        let n = self.regions.len();
        let mut idx: usize = 0;
        proof {
            assert(self.regions@.skip(0) =~= self.regions@);
        }
        while idx < n
            invariant
                n == self.regions@.len(),
                idx <= n,
                regions_byte_at(self.regions@, address as int) == regions_byte_at(
                    self.regions@.skip(idx as int),
                    address as int,
                ),
            decreases n - idx,
        {
            let r = &self.regions[idx];
            if address >= r.start {
                let off = address - r.start;
                if off < r.bytes.len() as u64 {
                    proof {
                        assert(self.regions@.skip(idx as int)[0] == self.regions@[idx as int]);
                        assert(region_has(self.regions@[idx as int], address as int));
                    }
                    return r.bytes[off as usize];
                }
            }
            proof {
                assert(self.regions@.skip(idx as int)[0] == self.regions@[idx as int]);
                assert(!region_has(self.regions@[idx as int], address as int));
                assert(self.regions@.skip(idx as int).drop_first() =~= self.regions@.skip(
                    idx as int + 1,
                ));
            }
            idx = idx + 1;
        }
        0
    }

    /// The byte at `address + delta`, reading zero past the top of the
    /// address space; keeps multi-byte reads near `u64::MAX` total.
    fn read_u8_past(&self, address: u64, delta: u64) -> (r: u8)
        ensures
            r == self.u8_at(address + delta),
    {
        if delta <= u64::MAX - address {
            self.read_u8(address + delta)
        } else {
            proof {
                lemma_regions_byte_at_high(self.regions@, address + delta);
            }
            0
        }
    }

    pub fn read_u16(&self, address: u64) -> (r: u16)
        ensures
            r == self.u16_at(address as int),
    {
        let b0 = self.read_u8(address);
        let b1 = self.read_u8_past(address, 1);
        b0 as u16 + b1 as u16 * 0x100
    }

    pub fn read_u32(&self, address: u64) -> (r: u32)
        ensures
            r == self.u32_at(address as int),
    {
        let b0 = self.read_u8(address);
        let b1 = self.read_u8_past(address, 1);
        let b2 = self.read_u8_past(address, 2);
        let b3 = self.read_u8_past(address, 3);
        b0 as u32 + b1 as u32 * 0x100 + b2 as u32 * 0x10000 + b3 as u32 * 0x1000000
    }

    pub fn read_u64(&self, address: u64) -> (r: u64)
        ensures
            r == self.u64_at(address as int),
    {
        let b0 = self.read_u8(address);
        let b1 = self.read_u8_past(address, 1);
        let b2 = self.read_u8_past(address, 2);
        let b3 = self.read_u8_past(address, 3);
        let b4 = self.read_u8_past(address, 4);
        let b5 = self.read_u8_past(address, 5);
        let b6 = self.read_u8_past(address, 6);
        let b7 = self.read_u8_past(address, 7);
        b0 as u64 + b1 as u64 * 0x100 + b2 as u64 * 0x10000 + b3 as u64 * 0x1000000 + b4 as u64
            * 0x100000000 + b5 as u64 * 0x10000000000 + b6 as u64 * 0x1000000000000 + b7 as u64
            * 0x100000000000000
    }

    pub fn read_i8(&self, address: u64) -> (r: i8)
        ensures
            r == self.i8_at(address as int),
    {
        #[verifier::truncate] (self.read_u8(address) as i8)
    }

    pub fn read_i16(&self, address: u64) -> (r: i16)
        ensures
            r == self.i16_at(address as int),
    {
        #[verifier::truncate] (self.read_u16(address) as i16)
    }

    pub fn read_i32(&self, address: u64) -> (r: i32)
        ensures
            r == self.i32_at(address as int),
    {
        #[verifier::truncate] (self.read_u32(address) as i32)
    }

    pub fn read_i64(&self, address: u64) -> (r: i64)
        ensures
            r == self.i64_at(address as int),
    {
        #[verifier::truncate] (self.read_u64(address) as i64)
    }

    pub fn read_bytes(&self, address: u64, count: usize) -> (r: Vec<u8>)
        ensures
            r@ == self.bytes_at(address as int, count as int),
    {
        let mut v: Vec<u8> = Vec::new();
        let mut i: usize = 0;
        while i < count
            invariant
                i <= count,
                v@ == self.bytes_at(address as int, i as int),
            decreases count - i,
        {
            let b = self.read_u8_past(address, i as u64);
            v.push(b);
            proof {
                assert(self.bytes_at(address as int, i as int + 1) =~= self.bytes_at(
                    address as int,
                    i as int,
                ).push(self.u8_at(address + i)));
            }
            i = i + 1;
        }
        v
    }

    /// The NUL-terminated byte string at `address`, raw.
    pub fn read_cstr(&self, address: u64) -> (r: Vec<u8>)
        ensures
            r@ == self.cstr_at(address as int),
    {
        let mut bytes: Vec<u8> = Vec::new();
        let mut i = address;
        loop
            invariant_except_break
                address <= i,
                self.cstr_at(address as int) == bytes@ + self.cstr_at(i as int),
            ensures
                bytes@ == self.cstr_at(address as int),
            decreases u64::MAX - i,
        {
            let b = self.read_u8(i);
            if b == 0 {
                proof {
                    assert(self.cstr_at(i as int) =~= Seq::<u8>::empty());
                    assert(bytes@ + Seq::<u8>::empty() =~= bytes@);
                }
                break ;
            }
            proof {
                assert(self.cstr_at(i as int) =~= seq![self.u8_at(i as int)] + self.cstr_at(
                    i as int + 1,
                ));
                assert(bytes@ + self.cstr_at(i as int) =~= bytes@.push(self.u8_at(i as int))
                    + self.cstr_at(i as int + 1));
            }
            bytes.push(b);
            if i == u64::MAX {
                proof {
                    assert(self.cstr_at(i as int + 1) =~= Seq::<u8>::empty());
                    assert(bytes@ + Seq::<u8>::empty() =~= bytes@);
                }
                break ;
            }
            i = i + 1;
        }
        bytes
    }

    /// The NUL-terminated string at `address`, each byte as one character.
    pub fn read_string(&self, address: u64) -> (s: String)
        ensures
            s@ == chars_of(self.cstr_at(address as int)),
    {
        let bytes = self.read_cstr(address);
        string_from_bytes(bytes.as_slice())
    }
}

} // verus!
