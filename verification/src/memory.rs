use vstd::arithmetic::div_mod::{lemma_add_mod_noop, lemma_mod_bound, lemma_mod_twice};
use vstd::prelude::*;

verus! {

// ---------------------------------------------------------------------------
// Address arithmetic modulo 2^64.
//
// Pointers recovered from a foreign process are arbitrary 64-bit values, so
// every address computation in this crate is pinned to the machine's
// wrap-around semantics rather than guarded by preconditions.
// ---------------------------------------------------------------------------

#[verifier::opaque]
pub open spec fn wrap64(x: int) -> int {
    x % 0x10000000000000000
}

pub broadcast proof fn lemma_wrap64_add_left(a: int, b: int)
    ensures
        #[trigger] wrap64(wrap64(a) + b) == wrap64(a + b),
{
    reveal(wrap64);
    lemma_mod_twice(a, 0x10000000000000000);
    lemma_add_mod_noop(wrap64(a), b, 0x10000000000000000);
    lemma_add_mod_noop(a, b, 0x10000000000000000);
}

pub broadcast proof fn lemma_wrap64_add_right(a: int, b: int)
    ensures
        #[trigger] wrap64(a + wrap64(b)) == wrap64(a + b),
{
    reveal(wrap64);
    lemma_mod_twice(b, 0x10000000000000000);
    lemma_add_mod_noop(a, wrap64(b), 0x10000000000000000);
    lemma_add_mod_noop(a, b, 0x10000000000000000);
}

pub broadcast proof fn lemma_wrap64_bound(x: int)
    ensures
        0 <= #[trigger] wrap64(x) < 0x10000000000000000,
{
    reveal(wrap64);
    lemma_mod_bound(x, 0x10000000000000000);
}

/// 64-bit addition with wrap-around, the arithmetic the target process itself
/// uses on pointers.
pub fn wadd(a: u64, b: u64) -> (r: u64)
    ensures
        r == wrap64(a + b),
{
    proof {
        reveal(wrap64);
        lemma_wrap64_bound(a + b);
        if a + b <= u64::MAX {
            vstd::arithmetic::div_mod::lemma_small_mod((a + b) as nat, 0x10000000000000000);
        } else {
            vstd::arithmetic::div_mod::lemma_mod_multiples_vanish(
                1,
                a + b - 0x10000000000000000,
                0x10000000000000000,
            );
            vstd::arithmetic::div_mod::lemma_small_mod(
                (a + b - 0x10000000000000000) as nat,
                0x10000000000000000,
            );
        }
    }
    if b <= u64::MAX - a {
        a + b
    } else {
        b - (u64::MAX - a) - 1
    }
}

/// 64-bit multiplication with wrap-around.
pub fn wmul(a: u64, b: u64) -> (r: u64)
    ensures
        r == wrap64(a * b),
{
    let r = a.wrapping_mul(b);
    proof {
        reveal(wrap64);
        assert(a as nat * b as nat == (a * b) as nat);
    }
    r
}

// ---------------------------------------------------------------------------
// Little-endian decoding of in-memory words from a captured byte dump.
// ---------------------------------------------------------------------------

pub open spec fn u16_of(data: Seq<u8>, i: int) -> u16 {
    (data[i] + data[i + 1] * 0x100) as u16
}

pub open spec fn u32_of(data: Seq<u8>, i: int) -> u32 {
    (data[i] + data[i + 1] * 0x100 + data[i + 2] * 0x10000 + data[i + 3] * 0x1000000) as u32
}

pub open spec fn u64_of(data: Seq<u8>, i: int) -> u64 {
    (data[i] + data[i + 1] * 0x100 + data[i + 2] * 0x10000 + data[i + 3] * 0x1000000 + data[i + 4]
        * 0x100000000 + data[i + 5] * 0x10000000000 + data[i + 6] * 0x1000000000000 + data[i + 7]
        * 0x100000000000000) as u64
}

/// The NUL-terminated byte string starting at index `i` of a dump; empty when
/// `i` is out of range or the first byte is already NUL.
pub open spec fn cstr_of(data: Seq<u8>, i: int) -> Seq<u8>
    decreases data.len() - i,
{
    if i < 0 || i >= data.len() || data[i] == 0 {
        Seq::empty()
    } else {
        seq![data[i]] + cstr_of(data, i + 1)
    }
}

/// Each raw byte reinterpreted as one character, the decoding used for every
/// name string read out of the target.
pub open spec fn chars_of(bytes: Seq<u8>) -> Seq<char> {
    bytes.map_values(|b: u8| b as char)
}

/// ASCII lower-casing of one byte.
pub open spec fn lower8(b: u8) -> u8 {
    if 0x41 <= b <= 0x5a {
        (b + 0x20) as u8
    } else {
        b
    }
}

pub open spec fn lower_of(bytes: Seq<u8>) -> Seq<u8> {
    bytes.map_values(|b: u8| lower8(b))
}

// ---------------------------------------------------------------------------
// Executable readers over a dump held as a byte slice.
// ---------------------------------------------------------------------------

pub fn read_i8_vec(data: &[u8], address: u64) -> (r: i8)
    requires
        address + 1 <= data@.len(),
    ensures
        r == data@[address as int] as i8,
{
    let adr = address as usize;
    #[verifier::truncate] (data[adr] as i8)
}

pub fn read_u8_vec(data: &[u8], address: u64) -> (r: u8)
    requires
        address + 1 <= data@.len(),
    ensures
        r == data@[address as int],
{
    let adr = address as usize;
    data[adr]
}

pub fn read_i16_vec(data: &[u8], address: u64) -> (r: i16)
    requires
        address + 2 <= data@.len(),
    ensures
        r == u16_of(data@, address as int) as i16,
{
    #[verifier::truncate] (read_u16_vec(data, address) as i16)
}

pub fn read_u16_vec(data: &[u8], address: u64) -> (r: u16)
    requires
        address + 2 <= data@.len(),
    ensures
        r == u16_of(data@, address as int),
{
    let adr = address as usize;
    data[adr] as u16 + data[adr + 1] as u16 * 0x100
}

pub fn read_i32_vec(data: &[u8], address: u64) -> (r: i32)
    requires
        address + 4 <= data@.len(),
    ensures
        r == u32_of(data@, address as int) as i32,
{
    #[verifier::truncate] (read_u32_vec(data, address) as i32)
}

pub fn read_u32_vec(data: &[u8], address: u64) -> (r: u32)
    requires
        address + 4 <= data@.len(),
    ensures
        r == u32_of(data@, address as int),
{
    let adr = address as usize;
    data[adr] as u32 + data[adr + 1] as u32 * 0x100 + data[adr + 2] as u32 * 0x10000 + data[adr
        + 3] as u32 * 0x1000000
}

pub fn read_i64_vec(data: &[u8], address: u64) -> (r: i64)
    requires
        address + 8 <= data@.len(),
    ensures
        r == u64_of(data@, address as int) as i64,
{
    #[verifier::truncate] (read_u64_vec(data, address) as i64)
}

pub fn read_u64_vec(data: &[u8], address: u64) -> (r: u64)
    requires
        address + 8 <= data@.len(),
    ensures
        r == u64_of(data@, address as int),
{
    let adr = address as usize;
    data[adr] as u64 + data[adr + 1] as u64 * 0x100 + data[adr + 2] as u64 * 0x10000 + data[adr
        + 3] as u64 * 0x1000000 + data[adr + 4] as u64 * 0x100000000 + data[adr + 5] as u64
        * 0x10000000000 + data[adr + 6] as u64 * 0x1000000000000 + data[adr + 7] as u64
        * 0x100000000000000
}

pub fn read_string_vec(data: &[u8], address: u64) -> (s: String)
    requires
        exists|k: int| address <= k < data@.len() && data@[k] == 0,
    ensures
        s@ == chars_of(cstr_of(data@, address as int)),
{
    let ghost stop: int = choose|k: int| address <= k < data@.len() && data@[k] == 0;
    let mut bytes: Vec<u8> = Vec::new();
    let mut i = address;
    loop
        invariant
            address <= i <= stop < data@.len(),
            data@[stop] == 0,
            forall|j: int| address <= j < i ==> data@[j] != 0,
            cstr_of(data@, address as int) == bytes@ + cstr_of(data@, i as int),
        ensures
            bytes@ == cstr_of(data@, address as int),
        decreases stop - i,
    {
        let c = data[i as usize];
        if c == 0 {
            proof {
                assert(cstr_of(data@, i as int) =~= Seq::<u8>::empty());
                assert(bytes@ + Seq::<u8>::empty() =~= bytes@);
            }
            break ;
        }
        proof {
            assert(i < stop);
            assert(cstr_of(data@, i as int) =~= seq![data@[i as int]] + cstr_of(
                data@,
                i as int + 1,
            ));
            assert(bytes@ + cstr_of(data@, i as int) =~= bytes@.push(data@[i as int]) + cstr_of(
                data@,
                i as int + 1,
            ));
        }
        bytes.push(c);
        i = i + 1;
    }
    string_from_bytes(bytes.as_slice())
}

/// Header check for the module format this crate understands: the dump must
/// open with the four magic bytes 0x7F 'E' 'L' 'F'.
pub open spec fn elf_magic(data: Seq<u8>) -> bool {
    data.len() >= 4 && data[0] == 0x7f && data[1] == 0x45 && data[2] == 0x4c && data[3] == 0x46
}

pub fn check_elf_header(data: Vec<u8>) -> (r: bool)
    ensures
        r == elf_magic(data@),
{
    data.len() >= 4 && data[0] == 0x7f && data[1] == 0x45 && data[2] == 0x4c && data[3] == 0x46
}

// ---------------------------------------------------------------------------
// Byte-string helpers.
// ---------------------------------------------------------------------------

pub fn bytes_eq(a: &[u8], b: &[u8]) -> (r: bool)
    ensures
        r == (a@ == b@),
{
    if a.len() != b.len() {
        return false;
    }
    let n = a.len();
    let mut i: usize = 0;
    while i < n
        invariant
            n == a@.len() == b@.len(),
            i <= n,
            forall|j: int| 0 <= j < i ==> a@[j] == b@[j],
        decreases n - i,
    {
        if a[i] != b[i] {
            return false;
        }
        i = i + 1;
    }
    proof {
        assert(a@ =~= b@);
    }
    true
}

pub fn bytes_starts_with(a: &[u8], prefix: &[u8]) -> (r: bool)
    ensures
        r == (prefix@.len() <= a@.len() && a@.subrange(0, prefix@.len() as int) == prefix@),
{
    if prefix.len() > a.len() {
        return false;
    }
    let n = prefix.len();
    let mut i: usize = 0;
    while i < n
        invariant
            n == prefix@.len() <= a@.len(),
            i <= n,
            forall|j: int| 0 <= j < i ==> a@[j] == prefix@[j],
        decreases n - i,
    {
        if a[i] != prefix[i] {
            proof {
                if a@.subrange(0, n as int) == prefix@ {
                    assert(a@.subrange(0, n as int)[i as int] == prefix@[i as int]);
                }
            }
            return false;
        }
        i = i + 1;
    }
    proof {
        assert(a@.subrange(0, n as int) =~= prefix@);
    }
    true
}

pub fn bytes_eq_lower(a: &[u8], b: &[u8]) -> (r: bool)
    ensures
        r == (lower_of(a@) == lower_of(b@)),
{
    if a.len() != b.len() {
        proof {
            if lower_of(a@) == lower_of(b@) {
                assert(lower_of(a@).len() == lower_of(b@).len());
            }
        }
        return false;
    }
    let n = a.len();
    let mut i: usize = 0;
    while i < n
        invariant
            n == a@.len() == b@.len(),
            i <= n,
            forall|j: int| 0 <= j < i ==> lower8(a@[j]) == lower8(b@[j]),
        decreases n - i,
    {
        let ca = if 0x41 <= a[i] && a[i] <= 0x5a {
            a[i] + 0x20
        } else {
            a[i]
        };
        let cb = if 0x41 <= b[i] && b[i] <= 0x5a {
            b[i] + 0x20
        } else {
            b[i]
        };
        if ca != cb {
            proof {
                if lower_of(a@) == lower_of(b@) {
                    assert(lower_of(a@)[i as int] == lower_of(b@)[i as int]);
                }
            }
            return false;
        }
        i = i + 1;
    }
    proof {
        assert(lower_of(a@) =~= lower_of(b@));
    }
    true
}

/// Relies on String::push from std: appends exactly the given character at
/// the end of the string.
#[verifier::external_body]
fn push_char(s: &mut String, c: char)
    ensures
        final(s)@ == old(s)@.push(c),
{
    s.push(c);
}

/// Builds the string whose characters are the given bytes, one character per
/// byte.
pub fn string_from_bytes(bytes: &[u8]) -> (s: String)
    ensures
        s@ == chars_of(bytes@),
{
    let mut s = String::new();
    let n = bytes.len();
    let mut i: usize = 0;
    while i < n
        invariant
            n == bytes@.len(),
            i <= n,
            s@ == chars_of(bytes@.take(i as int)),
        decreases n - i,
    {
        let c = bytes[i] as char;
        push_char(&mut s, c);
        proof {
            assert(chars_of(bytes@.take(i as int + 1)) =~= chars_of(bytes@.take(i as int)).push(
                bytes@[i as int] as char,
            ));
        }
        i = i + 1;
    }
    proof {
        assert(bytes@.take(n as int) =~= bytes@);
    }
    s
}

} // verus!
