use cs2_introspect::accessor::{MemorySpace, Region};
use cs2_introspect::offsets::Offsets;

fn put_u16(b: &mut Vec<u8>, off: usize, v: u16) {
    b[off..off + 2].copy_from_slice(&v.to_le_bytes());
}

fn put_u32(b: &mut Vec<u8>, off: usize, v: u32) {
    b[off..off + 4].copy_from_slice(&v.to_le_bytes());
}

fn put_u64(b: &mut Vec<u8>, off: usize, v: u64) {
    b[off..off + 8].copy_from_slice(&v.to_le_bytes());
}

fn put_str(b: &mut Vec<u8>, off: usize, s: &str) {
    b[off..off + s.len()].copy_from_slice(s.as_bytes());
    b[off + s.len()] = 0;
}

fn space(start: u64, bytes: Vec<u8>) -> MemorySpace {
    MemorySpace { regions: vec![Region { start, bytes }] }
}

/// A minimal module image: magic, program header table with one dynamic
/// segment, a dynamic section carrying string- and symbol-table addresses,
/// and one named export.
fn export_module(base: u64, export_name: &str, export_value: u64) -> Vec<u8> {
    let mut b = vec![0u8; 0x400];
    b[0] = 0x7F;
    b[1] = b'E';
    b[2] = b'L';
    b[3] = b'F';
    put_u64(&mut b, 0x20, 0x40); // program header table offset
    put_u64(&mut b, 0x28, 0x400); // section header table offset
    put_u16(&mut b, 0x36, 0x38); // program header entry size
    put_u16(&mut b, 0x38, 2); // program header entry count
    // section header entry size/count stay zero: module size = 0x400
    // program header 0: not the dynamic segment
    put_u32(&mut b, 0x40, 1);
    // program header 1: the dynamic segment, pointing at offset 0xC0
    put_u32(&mut b, 0x40 + 0x38, 2);
    put_u64(&mut b, 0x40 + 0x38 + 16, 0xC0);
    // dynamic section: (5, string table), (6, symbol table), terminator
    put_u64(&mut b, 0xC0, 5);
    put_u64(&mut b, 0xC8, base.wrapping_add(0x100));
    put_u64(&mut b, 0xD0, 6);
    put_u64(&mut b, 0xD8, base.wrapping_add(0x140));
    // string table: empty name at 0, the export name at 1
    put_str(&mut b, 0x101, export_name);
    // symbol table: the walk starts one 0x18 stride in
    put_u32(&mut b, 0x158, 1);
    put_u64(&mut b, 0x160, export_value);
    // next entry has name index 0: end of walk
    b
}

#[test]
fn module_size_uses_the_header_span_formula() {
    let base = 0x7000u64;
    let mut b = vec![0u8; 0x40];
    put_u64(&mut b, 0x28, 1000);
    put_u16(&mut b, 0x3A, 3);
    put_u16(&mut b, 0x3C, 5);
    let m = space(base, b);
    assert_eq!(m.module_size(base), 1015);
}

#[test]
fn dump_module_captures_the_computed_span() {
    let base = 0x7000u64;
    let mut b = vec![0u8; 0x40];
    put_u64(&mut b, 0x28, 0x30);
    b[0x30] = 0xEE;
    let m = space(base, b);
    let dump = m.dump_module(base);
    assert_eq!(dump.len(), 0x30);
    assert_eq!(dump[0x28], 0x30);
    // Bytes past the region read as zero would appear here if the span were
    // larger; the captured span ends before the marker byte.
    assert!(!dump.contains(&0xEE));
}

fn scan_module(base: u64, len: usize) -> Vec<u8> {
    let mut b = vec![0u8; len];
    put_u64(&mut b, 0x28, len as u64); // module size = whole region
    b
}

#[test]
fn pattern_scan_returns_the_lowest_match() {
    let base = 0x9000u64;
    let mut b = scan_module(base, 0x400);
    // Embed the pattern at 0x100 and again at 0x180; no earlier
    // occurrence exists.
    for (k, v) in [(0usize, 1u8), (1, 2), (2, 3)] {
        b[0x100 + k] = v;
        b[0x180 + k] = v;
    }
    let m = space(base, b);
    let hit = m.scan_pattern(&[1, 2, 3], b"xxx", base);
    assert_eq!(hit, Some(base + 0x100));
}

#[test]
fn pattern_scan_honours_wildcards() {
    let base = 0x9000u64;
    let mut b = scan_module(base, 0x400);
    b[0x210] = 9;
    b[0x211] = 77;
    b[0x212] = 5;
    let m = space(base, b);
    // The middle byte is masked out, so any value matches there.
    assert_eq!(m.scan_pattern(&[9, 0, 5], b"x?x", base), Some(base + 0x210));
    assert_eq!(m.scan_pattern(&[9, 0, 6], b"x?x", base), None);
}

#[test]
fn pattern_scan_rejects_bad_inputs() {
    let base = 0x9000u64;
    let m = space(base, scan_module(base, 0x400));
    // Mismatched pattern and mask lengths are a caller error.
    assert_eq!(m.scan_pattern(&[1, 2, 3], b"xx", base), None);
    // A module smaller than 500 bytes is treated as not ready.
    let small = space(base, scan_module(base, 400));
    assert_eq!(small.scan_pattern(&[1, 2, 3], b"xxx", base), None);
}

#[test]
fn relative_address_decodes_signed_displacements() {
    let base = 0xA000u64;
    let mut b = vec![0u8; 0x40];
    put_u32(&mut b, 0x13, 0x100); // displacement read at instruction + 3
    let m = space(base, b);
    assert_eq!(m.get_relative_address(base + 0x10, 0x03, 0x08), base + 0x10 + 8 + 0x100);
    // A negative displacement walks backwards.
    let mut b2 = vec![0u8; 0x40];
    put_u32(&mut b2, 0x13, (-8i32) as u32);
    let m2 = space(base, b2);
    assert_eq!(m2.get_relative_address(base + 0x10, 0x03, 0x08), base + 0x10);
}

#[test]
fn segment_lookup_finds_the_first_typed_entry() {
    let base = 0xB000u64;
    let b = export_module(base, "Anything", 0);
    let m = space(base, b);
    assert_eq!(m.get_segment_from_pht(base, 2), Some(base + 0x40 + 0x38));
    assert_eq!(m.get_segment_from_pht(base, 1), Some(base + 0x40));
    assert_eq!(m.get_segment_from_pht(base, 7), None);
}

#[test]
fn dynamic_section_tags_resolve() {
    let base = 0xB000u64;
    let m = space(base, export_module(base, "Anything", 0));
    assert_eq!(m.get_address_from_dynamic_section(base, 5), Some(base + 0x100));
    assert_eq!(m.get_address_from_dynamic_section(base, 6), Some(base + 0x140));
    // Tag 7 never appears before the zero terminator.
    assert_eq!(m.get_address_from_dynamic_section(base, 7), None);
}

#[test]
fn export_round_trip() {
    let base = 0xC0000u64;
    let m = space(base, export_module(base, "TargetFn", 0x1234));
    // The matching name resolves to base + value.
    assert_eq!(m.get_module_export(base, "TargetFn"), Some(base + 0x1234));
    // Any other name resolves to nothing.
    assert_eq!(m.get_module_export(base, "OtherFn"), None);
    assert_eq!(m.get_module_export(base, "Target"), None);
}

#[test]
fn export_needs_the_module_magic() {
    let base = 0xC0000u64;
    let mut b = export_module(base, "TargetFn", 0x1234);
    b[1] = b'X';
    let m = space(base, b);
    assert_eq!(m.get_module_export(base, "TargetFn"), None);
}

/// Extends an export module with a CreateInterface chain leading to a
/// factory list with one named entry, whose object decodes to the singleton
/// at `base + singleton_off`.
fn iface_module(base: u64, iface_name: &str, singleton_off: u64) -> Vec<u8> {
    let mut b = export_module(base, "CreateInterface", 0x200);
    // The export at base+0x200: a signed displacement of 0x30 at +1 leads,
    // after the 5-byte instruction plus 0x10, to base+0x245.
    put_u32(&mut b, 0x201, 0x30);
    // At +3 of that spot a zero displacement; the list head pointer then
    // sits 7 bytes in, at base+0x24C.
    put_u32(&mut b, 0x248, 0);
    put_u64(&mut b, 0x24C, base.wrapping_add(0x280));
    // The single factory entry: object, name, no next.
    put_u64(&mut b, 0x280, base.wrapping_add(0x2C0));
    put_u64(&mut b, 0x288, base.wrapping_add(0x2A0));
    put_u64(&mut b, 0x290, 0);
    put_str(&mut b, 0x2A0, iface_name);
    // The object's displacement at +3 lands on the singleton.
    put_u32(&mut b, 0x2C3, (singleton_off - 0x2C7) as u32);
    b
}

#[test]
fn interface_resolution_follows_the_factory_list() {
    let base = 0x200000u64;
    let m = space(base, iface_module(base, "GameResourceServiceClientV001", 0x300));
    // Matching is by prefix.
    assert_eq!(
        m.get_interface_offset(base, "GameResourceServiceClientV0"),
        Some(base + 0x300)
    );
    assert_eq!(m.get_interface_offset(base, "NoSuchInterface"), None);
}

#[test]
fn convar_lookup_scans_the_object_array() {
    let base = 0x300000u64;
    let mut b = vec![0u8; 0x400];
    // The configuration interface sits at base+0x300: object-array pointer
    // at +64, element count at +160.
    put_u64(&mut b, 0x340, base + 0x380);
    put_u32(&mut b, 0x3A0, 2);
    // Element 0: an object whose name is not the wanted one.
    put_u64(&mut b, 0x380, base + 0x3B0);
    put_u64(&mut b, 0x3B0, base + 0x3C0);
    put_str(&mut b, 0x3C0, "mp_other");
    // Element 1, sixteen bytes further on: the wanted object.
    put_u64(&mut b, 0x390, base + 0x3D0);
    put_u64(&mut b, 0x3D0, base + 0x3E0);
    put_str(&mut b, 0x3E0, "mp_teammates_are_enemies");
    let m = space(base, b.clone());
    let mut offsets = Offsets::default();
    offsets.interface.cvar = base + 0x300;
    assert_eq!(m.get_convar(&offsets, "mp_teammates_are_enemies"), Some(base + 0x3D0));
    assert_eq!(m.get_convar(&offsets, "mp_missing"), None);
    // A zero interface address means no lookup at all.
    let zeroed = Offsets::default();
    assert_eq!(m.get_convar(&zeroed, "mp_teammates_are_enemies"), None);
    // A null element ends the scan early even if a later one would match.
    put_u64(&mut b, 0x380, 0);
    let m2 = space(base, b);
    assert_eq!(m2.get_convar(&offsets, "mp_teammates_are_enemies"), None);
}
