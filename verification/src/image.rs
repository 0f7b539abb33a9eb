use crate::accessor::MemorySpace;
use crate::constants::ELF_DYNAMIC_SECTION_PHT_TYPE;
use crate::memory::{
    bytes_eq, bytes_starts_with, check_elf_header, elf_magic, lemma_wrap64_add_left,
    lemma_wrap64_add_right, lemma_wrap64_bound, wadd, wrap64,
};
use crate::offsets::Offsets;
use vstd::prelude::*;
use vstd::string::StringSliceAdditionalSpecFns;

verus! {

broadcast use lemma_wrap64_add_left, lemma_wrap64_add_right, lemma_wrap64_bound;
// ---------------------------------------------------------------------------
// Module image parsing over a captured address space: module size, program
// header table, dynamic section, symbol/string tables, exports; pattern
// scanning; interface and configuration-object resolution.
//
// Every walk that follows pointers out of the target process states its
// result relative to the chain of in-memory entries it visits: a hit is the
// first entry that matches, a miss is a terminator reached with no earlier
// match.
// ---------------------------------------------------------------------------

/// The module-size formula this crate is pinned to: section header file
/// offset plus entry size times entry count. This is the header table's
/// file-offset span, not the true mapped size, and deliberately so: every
/// scan in this crate measures modules this way.
#[verifier::opaque]
pub open spec fn module_size_of(m: MemorySpace, base: u64) -> u64 {
    wrap64(
        m.u64_at(wrap64(base + 0x28)) + m.u16_at(wrap64(base + 0x3A)) * m.u16_at(
            wrap64(base + 0x3C),
        ),
    ) as u64
}

/// The whole-module dump: `module_size_of` bytes starting at the base.
#[verifier::opaque]
pub open spec fn dump_of(m: MemorySpace, base: u64) -> Seq<u8> {
    m.bytes_at(base as int, (module_size_of(m, base) as usize) as int)
}

impl MemorySpace {
    pub fn module_size(&self, base_address: u64) -> (r: u64)
        ensures
            r == module_size_of(*self, base_address),
    {
        proof {
            reveal(module_size_of);
        }
        let section_header_offset = self.read_u64(wadd(base_address, 0x28));
        let section_header_entry_size = self.read_u16(wadd(base_address, 0x3A));
        let section_header_num_entries = self.read_u16(wadd(base_address, 0x3C));
        proof {
            assert(section_header_entry_size * section_header_num_entries < 0x100000000)
                by (nonlinear_arith)
                requires
                    section_header_entry_size <= 0xFFFF,
                    section_header_num_entries <= 0xFFFF,
            ;
        }
        wadd(
            section_header_offset,
            section_header_entry_size as u64 * section_header_num_entries as u64,
        )
    }

    pub fn dump_module(&self, address: u64) -> (r: Vec<u8>)
        ensures
            r@ == dump_of(*self, address),
    {
        proof {
            reveal(dump_of);
        }
        let module_size = self.module_size(address);
        self.read_bytes(address, #[verifier::truncate] (module_size as usize))
    }
}

// ---------------------------------------------------------------------------
// Pattern scanning.
// ---------------------------------------------------------------------------

/// Position `i` of the dump matches the pattern when every position the mask
/// marks exact (ASCII 'x') holds the pattern byte; other positions are
/// wildcards.
pub open spec fn mask_match(dump: Seq<u8>, pattern: Seq<u8>, mask: Seq<u8>, i: int) -> bool {
    forall|j: int|
        0 <= j < pattern.len() ==> (mask[j] == 0x78 ==> dump[i + j] == pattern[j])
}

fn mask_match_at(module: &Vec<u8>, pattern: &[u8], mask: &[u8], i: usize) -> (r: bool)
    requires
        pattern@.len() == mask@.len(),
        i + pattern@.len() <= module@.len(),
    ensures
        r == mask_match(module@, pattern@, mask@, i as int),
{
    let total = module.len();
    let n = pattern.len();
    let mut j: usize = 0;
    while j < n
        invariant
            n == pattern@.len() == mask@.len(),
            total == module@.len(),
            i + n <= total,
            j <= n,
            forall|k: int|
                0 <= k < j ==> (mask@[k] == 0x78 ==> module@[i + k] == pattern@[k]),
        decreases n - j,
    {
        if mask[j] == 0x78 && module[i + j] != pattern[j] {
            return false;
        }
        j = j + 1;
    }
    true
}

impl MemorySpace {
    /// Masked first-match scan over the module dumped at `base_address`.
    /// Returns the lowest address whose exact-masked bytes equal the
    /// pattern; reports a pattern/mask length mismatch, or a dump shorter
    /// than 500 bytes, as no match.
    pub fn scan_pattern(&self, pattern: &[u8], mask: &[u8], base_address: u64) -> (r: Option<u64>)
        requires
            pattern@.len() == mask@.len() ==> pattern@.len() <= 500,
        ensures
            ({
                let dump = dump_of(*self, base_address);
                let plen = pattern@.len() as int;
                &&& (pattern@.len() != mask@.len() ==> r is None)
                &&& (pattern@.len() == mask@.len() && dump.len() < 500 ==> r is None)
                &&& (pattern@.len() == mask@.len() && dump.len() >= 500 ==> match r {
                    Some(v) => exists|i: int|
                        {
                            &&& 0 <= i < dump.len() - plen
                            &&& #[trigger] mask_match(dump, pattern@, mask@, i)
                            &&& forall|j: int|
                                0 <= j < i ==> !mask_match(dump, pattern@, mask@, j)
                            &&& v == wrap64(base_address + i)
                        },
                    None => forall|i: int|
                        0 <= i < dump.len() - plen ==> !mask_match(dump, pattern@, mask@, i),
                })
            }),
    {
        if pattern.len() != mask.len() {
            return None;
        }
        let module = self.dump_module(base_address);
        if module.len() < 500 {
            return None;
        }
        let pattern_length = pattern.len();
        let stop_index = module.len() - pattern_length;
        let mut i: usize = 0;
        while i < stop_index
            invariant
                module@ == dump_of(*self, base_address),
                pattern@.len() == mask@.len() == pattern_length,
                pattern_length <= 500 <= module@.len(),
                stop_index == module@.len() - pattern_length,
                i <= stop_index,
                forall|j: int| 0 <= j < i ==> !mask_match(module@, pattern@, mask@, j),
            decreases stop_index - i,
        {
            if mask_match_at(&module, pattern, mask, i) {
                return Some(wadd(base_address, i as u64));
            }
            i = i + 1;
        }
        None
    }

    /// Decodes a RIP-relative displacement: the signed 32-bit value at
    /// `instruction + offset`, sign-extended and added (mod 2^64) to the end
    /// of the instruction.
    pub fn get_relative_address(&self, instruction: u64, offset: u64, instruction_size: u64) -> (r:
        u64)
        ensures
            r == relative_spec(*self, instruction, offset, instruction_size),
    {
        let rip_address = self.read_i32(wadd(instruction, offset));
        wadd(wadd(instruction, instruction_size), #[verifier::truncate] (rip_address as u64))
    }
}

pub open spec fn relative_spec(
    m: MemorySpace,
    instruction: u64,
    offset: u64,
    instruction_size: u64,
) -> u64 {
    wrap64(
        instruction + instruction_size + (m.i32_at(wrap64(instruction + offset)) as u64),
    ) as u64
}

// ---------------------------------------------------------------------------
// Program header table.
// ---------------------------------------------------------------------------

pub open spec fn pht_first_entry(m: MemorySpace, base: u64) -> int {
    wrap64(m.u64_at(wrap64(base + 0x20)) + base)
}

pub open spec fn pht_entry(m: MemorySpace, base: u64, i: int) -> int {
    wrap64(pht_first_entry(m, base) + i * m.u16_at(wrap64(base + 0x36)))
}

pub open spec fn pht_count(m: MemorySpace, base: u64) -> u16 {
    m.u16_at(wrap64(base + 0x38))
}

pub open spec fn pht_type_match(m: MemorySpace, base: u64, tag: u64, i: int) -> bool {
    (m.u32_at(pht_entry(m, base, i)) as u64) == tag
}

/// Entry `i` is the first program header whose 32-bit type field equals the
/// tag.
pub open spec fn pht_hit_at(m: MemorySpace, base: u64, tag: u64, i: int) -> bool {
    &&& 0 <= i < pht_count(m, base)
    &&& pht_type_match(m, base, tag, i)
    &&& forall|j: int| 0 <= j < i ==> !pht_type_match(m, base, tag, j)
}

pub open spec fn pht_found(m: MemorySpace, base: u64, tag: u64, e: u64) -> bool {
    exists|i: int| #[trigger] pht_hit_at(m, base, tag, i) && e == pht_entry(m, base, i)
}

pub open spec fn pht_missing(m: MemorySpace, base: u64, tag: u64) -> bool {
    forall|i: int| 0 <= i < pht_count(m, base) ==> !pht_type_match(m, base, tag, i)
}

impl MemorySpace {
    /// Scans the program header table for the first entry of the given type
    /// and returns that entry's address.
    pub fn get_segment_from_pht(&self, base_address: u64, tag: u64) -> (r: Option<u64>)
        ensures
            match r {
                Some(e) => pht_found(*self, base_address, tag, e),
                None => pht_missing(*self, base_address, tag),
            },
    {
        let first_entry = wadd(self.read_u64(wadd(base_address, 0x20)), base_address);
        let entry_size = self.read_u16(wadd(base_address, 0x36));
        let num_entries = self.read_u16(wadd(base_address, 0x38));
        let mut i: u16 = 0;
        while i < num_entries
            invariant
                first_entry == pht_first_entry(*self, base_address),
                entry_size == self.u16_at(wrap64(base_address + 0x36)),
                num_entries == pht_count(*self, base_address),
                i <= num_entries,
                forall|j: int| 0 <= j < i ==> !pht_type_match(*self, base_address, tag, j),
            decreases num_entries - i,
        {
            proof {
                assert(i * entry_size < 0x100000000) by (nonlinear_arith)
                    requires
                        i <= 0xFFFF,
                        entry_size <= 0xFFFF,
                ;
            }
            let entry = wadd(first_entry, i as u64 * entry_size as u64);
            proof {
                assert(entry == pht_entry(*self, base_address, i as int));
            }
            if self.read_u32(entry) as u64 == tag {
                proof {
                    assert(pht_hit_at(*self, base_address, tag, i as int));
                }
                return Some(entry);
            }
            i = i + 1;
        }
        None
    }
}

// ---------------------------------------------------------------------------
// Dynamic section.
// ---------------------------------------------------------------------------

/// Address of the first (tag, value) pair of the dynamic segment whose
/// program header sits at `e`.
pub open spec fn dyn_start(m: MemorySpace, base: u64, e: u64) -> int {
    wrap64(m.u64_at(wrap64(e + 16)) + base)
}

pub open spec fn dyn_slot(d0: int, k: int) -> int {
    wrap64(d0 + 16 * k)
}

pub open spec fn dyn_tag_at(m: MemorySpace, d0: int, k: int) -> u64 {
    m.u64_at(dyn_slot(d0, k))
}

/// Pair `k` is the first pair carrying the wanted tag; no earlier pair is a
/// terminator.
pub open spec fn dyn_hit_at(m: MemorySpace, d0: int, tag: u64, k: int) -> bool {
    &&& 0 <= k
    &&& dyn_tag_at(m, d0, k) == tag
    &&& forall|j: int|
        0 <= j < k ==> dyn_tag_at(m, d0, j) != tag && dyn_tag_at(m, d0, j) != 0
}

pub open spec fn dyn_found(m: MemorySpace, d0: int, tag: u64, v: u64) -> bool {
    exists|k: int| #[trigger] dyn_hit_at(m, d0, tag, k) && v == m.u64_at(wrap64(dyn_slot(d0, k) + 8))
}

/// A zero tag ends the walk before any pair carries the wanted tag.
pub open spec fn dyn_stop_at(m: MemorySpace, d0: int, tag: u64, k: int) -> bool {
    &&& 0 <= k
    &&& dyn_tag_at(m, d0, k) == 0
    &&& forall|j: int|
        0 <= j < k ==> dyn_tag_at(m, d0, j) != tag && dyn_tag_at(m, d0, j) != 0
}

/// The walk visited as many pairs as there are 64-bit addresses without
/// meeting the tag or a terminator; only then does it give up.
pub open spec fn dyn_exhausted(m: MemorySpace, d0: int, tag: u64) -> bool {
    forall|j: int|
        0 <= j < 0xFFFFFFFFFFFFFFFF ==> dyn_tag_at(m, d0, j) != tag && dyn_tag_at(m, d0, j) != 0
}

pub open spec fn dyn_missing(m: MemorySpace, d0: int, tag: u64) -> bool {
    (exists|k: int| #[trigger] dyn_stop_at(m, d0, tag, k)) || dyn_exhausted(m, d0, tag)
}

/// The dynamic section yields value `v` for `tag`.
pub open spec fn dynamic_value(m: MemorySpace, base: u64, tag: u64, v: u64) -> bool {
    exists|e: u64|
        #[trigger] pht_found(m, base, ELF_DYNAMIC_SECTION_PHT_TYPE, e) && dyn_found(
            m,
            dyn_start(m, base, e),
            tag,
            v,
        )
}

pub open spec fn dynamic_missing(m: MemorySpace, base: u64, tag: u64) -> bool {
    ||| pht_missing(m, base, ELF_DYNAMIC_SECTION_PHT_TYPE)
    ||| exists|e: u64|
        #[trigger] pht_found(m, base, ELF_DYNAMIC_SECTION_PHT_TYPE, e) && dyn_missing(
            m,
            dyn_start(m, base, e),
            tag,
        )
}

impl MemorySpace {
    /// Walks the dynamic segment's consecutive 16-byte (tag, value) pairs
    /// until a zero tag, returning the value of the first pair that carries
    /// the wanted tag.
    pub fn get_address_from_dynamic_section(&self, base_address: u64, tag: u64) -> (r: Option<u64>)
        ensures
            match r {
                Some(v) => dynamic_value(*self, base_address, tag, v),
                None => dynamic_missing(*self, base_address, tag),
            },
    {
        let dynamic_section_offset = match self.get_segment_from_pht(
            base_address,
            ELF_DYNAMIC_SECTION_PHT_TYPE,
        ) {
            Some(e) => e,
            None => {
                return None;
            },
        };
        let d0 = wadd(self.read_u64(wadd(dynamic_section_offset, 16)), base_address);
        let mut k: u64 = 0;
        let mut address = d0;
        while k < u64::MAX
            invariant
                pht_found(*self, base_address, ELF_DYNAMIC_SECTION_PHT_TYPE, dynamic_section_offset),
                d0 as int == dyn_start(*self, base_address, dynamic_section_offset),
                address as int == dyn_slot(d0 as int, k as int),
                forall|j: int|
                    0 <= j < k ==> dyn_tag_at(*self, d0 as int, j) != tag && dyn_tag_at(
                        *self,
                        d0 as int,
                        j,
                    ) != 0,
            decreases u64::MAX - k,
        {
            let tag_value = self.read_u64(address);
            if tag_value == 0 {
                proof {
                    assert(dyn_stop_at(*self, d0 as int, tag, k as int));
                }
                return None;
            }
            if tag_value == tag {
                proof {
                    assert(dyn_hit_at(*self, d0 as int, tag, k as int));
                }
                return Some(self.read_u64(wadd(address, 8)));
            }
            address = wadd(address, 16);
            k = k + 1;
        }
        None
    }
}

// ---------------------------------------------------------------------------
// Symbol table walk / export lookup.
// ---------------------------------------------------------------------------

/// Address of symbol entry `k` (the walk starts one 0x18-byte stride past
/// the symbol table's start).
pub open spec fn sym_slot(sym0: u64, k: int) -> int {
    wrap64(sym0 + 0x18 * (k + 1))
}

pub open spec fn sym_name_idx(m: MemorySpace, sym0: u64, k: int) -> u32 {
    m.u32_at(sym_slot(sym0, k))
}

pub open spec fn sym_name_match(
    m: MemorySpace,
    strtab: u64,
    sym0: u64,
    k: int,
    name: Seq<u8>,
) -> bool {
    m.cstr_at(wrap64(strtab + sym_name_idx(m, sym0, k))) == name
}

/// Symbol `k` is the first whose decoded name equals `name`; no earlier
/// entry has a zero name index.
pub open spec fn sym_hit_at(
    m: MemorySpace,
    strtab: u64,
    sym0: u64,
    name: Seq<u8>,
    k: int,
) -> bool {
    &&& 0 <= k
    &&& sym_name_idx(m, sym0, k) != 0
    &&& sym_name_match(m, strtab, sym0, k, name)
    &&& forall|j: int|
        0 <= j < k ==> sym_name_idx(m, sym0, j) != 0 && !sym_name_match(m, strtab, sym0, j, name)
}

pub open spec fn sym_stop_at(
    m: MemorySpace,
    strtab: u64,
    sym0: u64,
    name: Seq<u8>,
    k: int,
) -> bool {
    &&& 0 <= k
    &&& sym_name_idx(m, sym0, k) == 0
    &&& forall|j: int|
        0 <= j < k ==> sym_name_idx(m, sym0, j) != 0 && !sym_name_match(m, strtab, sym0, j, name)
}

/// The walk visited as many symbols as there are 64-bit addresses without a
/// match or a zero name index; only then does it give up.
pub open spec fn sym_exhausted(m: MemorySpace, strtab: u64, sym0: u64, name: Seq<u8>) -> bool {
    forall|j: int|
        0 <= j < 0xFFFFFFFFFFFFFFFF ==> sym_name_idx(m, sym0, j) != 0 && !sym_name_match(
            m,
            strtab,
            sym0,
            j,
            name,
        )
}

/// The address the export resolves to: the symbol's value plus the module
/// base.
pub open spec fn sym_value(m: MemorySpace, base: u64, sym0: u64, k: int) -> u64 {
    wrap64(m.u64_at(wrap64(sym_slot(sym0, k) + 8)) + base) as u64
}

/// The module at `base` exports `name` at address `v`.
pub open spec fn module_export_ok(m: MemorySpace, base: u64, name: Seq<u8>, v: u64) -> bool {
    &&& elf_magic(dump_of(m, base))
    &&& exists|st: u64, sy: u64|
        {
            &&& #[trigger] dynamic_value(m, base, 5, st)
            &&& #[trigger] dynamic_value(m, base, 6, sy)
            &&& exists|k: int|
                #[trigger] sym_hit_at(m, st, sy, name, k) && v == sym_value(m, base, sy, k)
        }
}

pub open spec fn module_export_missing(m: MemorySpace, base: u64, name: Seq<u8>) -> bool {
    ||| !elf_magic(dump_of(m, base))
    ||| dynamic_missing(m, base, 5)
    ||| exists|st: u64| #[trigger] dynamic_value(m, base, 5, st) && dynamic_missing(m, base, 6)
    ||| exists|st: u64, sy: u64|
        {
            &&& #[trigger] dynamic_value(m, base, 5, st)
            &&& #[trigger] dynamic_value(m, base, 6, sy)
            &&& ((exists|k: int| #[trigger] sym_stop_at(m, st, sy, name, k)) || sym_exhausted(
                m,
                st,
                sy,
                name,
            ))
        }
}

impl MemorySpace {
    /// Resolves an exported symbol of the module at `base_address` by
    /// walking its symbol table and comparing decoded names against
    /// `export_name`.
    pub fn get_module_export(&self, base_address: u64, export_name: &str) -> (r: Option<u64>)
        ensures
            match r {
                Some(v) => module_export_ok(*self, base_address, export_name.spec_bytes(), v),
                None => module_export_missing(*self, base_address, export_name.spec_bytes()),
            },
    {
        let module = self.dump_module(base_address);
        if !check_elf_header(module) {
            return None;
        }
        let string_table = match self.get_address_from_dynamic_section(base_address, 0x05) {
            Some(v) => v,
            None => {
                return None;
            },
        };
        let symbol_table = match self.get_address_from_dynamic_section(base_address, 0x06) {
            Some(v) => v,
            None => {
                return None;
            },
        };
        let name_bytes = export_name.as_bytes();
        let ghost sym0 = symbol_table;
        let mut k: u64 = 0;
        let mut slot = wadd(symbol_table, 0x18);
        while k < u64::MAX
            invariant
                elf_magic(dump_of(*self, base_address)),
                dynamic_value(*self, base_address, 5, string_table),
                dynamic_value(*self, base_address, 6, sym0),
                name_bytes@ == export_name.spec_bytes(),
                slot as int == sym_slot(sym0, k as int),
                forall|j: int|
                    0 <= j < k ==> sym_name_idx(*self, sym0, j) != 0 && !sym_name_match(
                        *self,
                        string_table,
                        sym0,
                        j,
                        export_name.spec_bytes(),
                    ),
            decreases u64::MAX - k,
        {
            let st_name = self.read_u32(slot);
            if st_name == 0 {
                proof {
                    assert(sym_stop_at(
                        *self,
                        string_table,
                        sym0,
                        export_name.spec_bytes(),
                        k as int,
                    ));
                }
                return None;
            }
            let name = self.read_cstr(wadd(string_table, st_name as u64));
            if bytes_eq(name.as_slice(), name_bytes) {
                proof {
                    assert(sym_hit_at(
                        *self,
                        string_table,
                        sym0,
                        export_name.spec_bytes(),
                        k as int,
                    ));
                }
                let address = self.read_u64(wadd(slot, 0x08));
                return Some(wadd(address, base_address));
            }
            slot = wadd(slot, 0x18);
            k = k + 1;
        }
        None
    }
}

// ---------------------------------------------------------------------------
// Interface factory list.
// ---------------------------------------------------------------------------

/// Head of the interface factory list reachable from the resolved
/// CreateInterface export at `ci`.
pub open spec fn iface_head(m: MemorySpace, ci: u64) -> u64 {
    let ea = wrap64(relative_spec(m, ci, 0x01, 0x05) + 0x10);
    m.u64_at(wrap64(ea + 0x07 + m.u32_at(wrap64(ea + 0x03))))
}

/// Entry `k` of the singly linked factory list starting at `head`
/// (next pointer at +0x10).
pub open spec fn iface_entry(m: MemorySpace, head: u64, k: int) -> u64
    decreases k,
{
    if k <= 0 {
        head
    } else {
        m.u64_at(wrap64(iface_entry(m, head, k - 1) + 0x10))
    }
}

pub open spec fn iface_name_at(m: MemorySpace, head: u64, k: int) -> Seq<u8> {
    m.cstr_at(m.u64_at(wrap64(iface_entry(m, head, k) + 8)) as int)
}

pub open spec fn iface_prefix_at(m: MemorySpace, head: u64, k: int, prefix: Seq<u8>) -> bool {
    let nm = iface_name_at(m, head, k);
    prefix.len() <= nm.len() && nm.subrange(0, prefix.len() as int) == prefix
}

/// The address the matched entry resolves to: a further RIP-style
/// displacement decoded from the entry's object pointer.
pub open spec fn iface_value(m: MemorySpace, e: u64) -> u64 {
    let vf = m.u64_at(e as int);
    wrap64(m.u32_at(wrap64(vf + 0x03)) + vf + 0x07) as u64
}

/// Entry `k` is the first whose name starts with the prefix; the list is
/// intact (non-zero) up to it.
pub open spec fn iface_hit_at(m: MemorySpace, head: u64, prefix: Seq<u8>, k: int) -> bool {
    &&& 0 <= k
    &&& iface_prefix_at(m, head, k, prefix)
    &&& forall|j: int|
        0 <= j < k ==> !iface_prefix_at(m, head, j, prefix) && iface_entry(m, head, j + 1) != 0
}

pub open spec fn iface_found(m: MemorySpace, head: u64, prefix: Seq<u8>, v: u64) -> bool {
    exists|k: int|
        #[trigger] iface_hit_at(m, head, prefix, k) && v == iface_value(m, iface_entry(m, head, k))
}

/// A zero next pointer ends the list with no matching name.
pub open spec fn iface_stop_at(m: MemorySpace, head: u64, prefix: Seq<u8>, k: int) -> bool {
    &&& 0 <= k
    &&& !iface_prefix_at(m, head, k, prefix)
    &&& iface_entry(m, head, k + 1) == 0
    &&& forall|j: int|
        0 <= j < k ==> !iface_prefix_at(m, head, j, prefix) && iface_entry(m, head, j + 1) != 0
}

/// The walk visited as many entries as there are 64-bit addresses without a
/// match or a zero next pointer; only then does it give up.
pub open spec fn iface_exhausted(m: MemorySpace, head: u64, prefix: Seq<u8>) -> bool {
    forall|j: int|
        0 <= j < 0xFFFFFFFFFFFFFFFF ==> !iface_prefix_at(m, head, j, prefix) && iface_entry(
            m,
            head,
            j + 1,
        ) != 0
}

pub open spec fn iface_missing(m: MemorySpace, head: u64, prefix: Seq<u8>) -> bool {
    (exists|k: int| #[trigger] iface_stop_at(m, head, prefix, k)) || iface_exhausted(
        m,
        head,
        prefix,
    )
}

/// The module at `base` resolves interface `prefix` to singleton address `v`.
pub open spec fn interface_ok(m: MemorySpace, base: u64, prefix: Seq<u8>, v: u64) -> bool {
    exists|ci: u64|
        #[trigger] module_export_ok(m, base, "CreateInterface".spec_bytes(), ci) && iface_found(
            m,
            iface_head(m, ci),
            prefix,
            v,
        )
}

pub open spec fn interface_missing(m: MemorySpace, base: u64, prefix: Seq<u8>) -> bool {
    ||| module_export_missing(m, base, "CreateInterface".spec_bytes())
    ||| exists|ci: u64|
        #[trigger] module_export_ok(m, base, "CreateInterface".spec_bytes(), ci) && iface_missing(
            m,
            iface_head(m, ci),
            prefix,
        )
}

impl MemorySpace {
    /// Resolves a named runtime interface singleton: follows the
    /// CreateInterface export to the factory list head and walks the list
    /// until an entry's name starts with `interface_name`.
    #[verifier::rlimit(50)]
    pub fn get_interface_offset(&self, base_address: u64, interface_name: &str) -> (r: Option<u64>)
        ensures
            match r {
                Some(v) => interface_ok(*self, base_address, interface_name.spec_bytes(), v),
                None => interface_missing(*self, base_address, interface_name.spec_bytes()),
            },
    {
        let create_interface = match self.get_module_export(base_address, "CreateInterface") {
            Some(v) => v,
            None => {
                return None;
            },
        };
        let export_address = wadd(self.get_relative_address(create_interface, 0x01, 0x05), 0x10);
        let head = self.read_u64(
            wadd(wadd(export_address, 0x07), self.read_u32(wadd(export_address, 0x03)) as u64),
        );
        proof {
            assert(head == iface_head(*self, create_interface));
        }
        let prefix = interface_name.as_bytes();
        let mut k: u64 = 0;
        let mut interface_entry = head;
        while k < u64::MAX
            invariant
                module_export_ok(
                    *self,
                    base_address,
                    "CreateInterface".spec_bytes(),
                    create_interface,
                ),
                head == iface_head(*self, create_interface),
                prefix@ == interface_name.spec_bytes(),
                interface_entry == iface_entry(*self, head, k as int),
                forall|j: int|
                    0 <= j < k ==> !iface_prefix_at(*self, head, j, interface_name.spec_bytes())
                        && iface_entry(*self, head, j + 1) != 0,
            decreases u64::MAX - k,
        {
            let entry_name_address = self.read_u64(wadd(interface_entry, 8));
            let entry_name = self.read_cstr(entry_name_address);
            if bytes_starts_with(entry_name.as_slice(), prefix) {
                proof {
                    assert(iface_hit_at(*self, head, interface_name.spec_bytes(), k as int));
                }
                let vfunc_address = self.read_u64(interface_entry);
                let v = wadd(
                    wadd(self.read_u32(wadd(vfunc_address, 0x03)) as u64, vfunc_address),
                    0x07,
                );
                return Some(v);
            }
            let next = self.read_u64(wadd(interface_entry, 0x10));
            proof {
                assert(next == iface_entry(*self, head, k as int + 1));
            }
            if next == 0 {
                proof {
                    assert(iface_stop_at(*self, head, interface_name.spec_bytes(), k as int));
                }
                return None;
            }
            interface_entry = next;
            k = k + 1;
        }
        None
    }
}

// ---------------------------------------------------------------------------
// Configuration-object lookup.
// ---------------------------------------------------------------------------

pub open spec fn convar_obj(m: MemorySpace, objects: u64, i: int) -> u64 {
    m.u64_at(wrap64(objects + 16 * i))
}

pub open spec fn convar_name_at(m: MemorySpace, objects: u64, i: int) -> Seq<u8> {
    m.cstr_at(m.u64_at(convar_obj(m, objects, i) as int) as int)
}

/// Element `i` is the first non-null object whose name equals `name`.
pub open spec fn convar_hit_at(
    m: MemorySpace,
    objects: u64,
    count: u32,
    name: Seq<u8>,
    i: int,
) -> bool {
    &&& 0 <= i < count
    &&& convar_obj(m, objects, i) != 0
    &&& convar_name_at(m, objects, i) == name
    &&& forall|j: int|
        0 <= j < i ==> convar_obj(m, objects, j) != 0 && convar_name_at(m, objects, j) != name
}

pub open spec fn convar_found(m: MemorySpace, cvar: u64, name: Seq<u8>, v: u64) -> bool {
    &&& cvar != 0
    &&& exists|i: int|
        #[trigger] convar_hit_at(
            m,
            m.u64_at(wrap64(cvar + 64)),
            m.u32_at(wrap64(cvar + 160)),
            name,
            i,
        ) && v == convar_obj(m, m.u64_at(wrap64(cvar + 64)), i)
}

pub open spec fn convar_missing(m: MemorySpace, cvar: u64, name: Seq<u8>) -> bool {
    ||| cvar == 0
    ||| ({
        let objects = m.u64_at(wrap64(cvar + 64));
        let count = m.u32_at(wrap64(cvar + 160));
        ||| exists|i: int|
            {
                &&& 0 <= i < count
                &&& #[trigger] convar_obj(m, objects, i) == 0
                &&& forall|j: int|
                    0 <= j < i ==> convar_obj(m, objects, j) != 0 && convar_name_at(
                        m,
                        objects,
                        j,
                    ) != name
            }
        ||| forall|i: int|
            0 <= i < count ==> #[trigger] convar_obj(m, objects, i) != 0 && convar_name_at(
                m,
                objects,
                i,
            ) != name
    })
}

impl MemorySpace {
    /// Looks a named configuration object up in the resolved configuration
    /// interface's object array; a null element ends the scan early.
    pub fn get_convar(&self, offsets: &Offsets, convar_name: &str) -> (r: Option<u64>)
        ensures
            match r {
                Some(v) => convar_found(
                    *self,
                    offsets.interface.cvar,
                    convar_name.spec_bytes(),
                    v,
                ),
                None => convar_missing(*self, offsets.interface.cvar, convar_name.spec_bytes()),
            },
    {
        if offsets.interface.cvar == 0 {
            return None;
        }
        let cvar = offsets.interface.cvar;
        let objects = self.read_u64(wadd(cvar, 64));
        let count = self.read_u32(wadd(cvar, 160));
        let name_bytes = convar_name.as_bytes();
        let mut i: u32 = 0;
        while i < count
            invariant
                cvar == offsets.interface.cvar,
                cvar != 0,
                objects == self.u64_at(wrap64(cvar + 64)),
                count == self.u32_at(wrap64(cvar + 160)),
                name_bytes@ == convar_name.spec_bytes(),
                i <= count,
                forall|j: int|
                    0 <= j < i ==> convar_obj(*self, objects, j) != 0 && convar_name_at(
                        *self,
                        objects,
                        j,
                    ) != convar_name.spec_bytes(),
            decreases count - i,
        {
            let object = self.read_u64(wadd(objects, i as u64 * 16));
            proof {
                assert(object == convar_obj(*self, objects, i as int));
            }
            if object == 0 {
                return None;
            }
            let name_address = self.read_u64(object);
            let name = self.read_cstr(name_address);
            if bytes_eq(name.as_slice(), name_bytes) {
                proof {
                    assert(convar_hit_at(
                        *self,
                        objects,
                        count,
                        convar_name.spec_bytes(),
                        i as int,
                    ));
                }
                return Some(object);
            }
            i = i + 1;
        }
        None
    }
}

} // verus!
