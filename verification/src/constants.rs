use vstd::prelude::*;

verus! {

pub const PROCESS_NAME: &'static str = "cs2";

pub const CLIENT_LIB: &'static str = "libclient.so";

pub const ENGINE_LIB: &'static str = "libengine2.so";

pub const TIER0_LIB: &'static str = "libtier0.so";

/// Displacement from the resource interface to the entity-table pointer.
pub const ENTITY_OFFSET: u64 = 0x50;

pub const ELF_PROGRAM_HEADER_OFFSET: u64 = 0x20;

pub const ELF_PROGRAM_HEADER_ENTRY_SIZE: u64 = 0x36;

pub const ELF_PROGRAM_HEADER_NUM_ENTRIES: u64 = 0x38;

pub const ELF_SECTION_HEADER_OFFSET: u64 = 0x28;

pub const ELF_SECTION_HEADER_ENTRY_SIZE: u64 = 0x3A;

pub const ELF_SECTION_HEADER_NUM_ENTRIES: u64 = 0x3C;

pub const ELF_SECTION_HEADER_STRING_TABLE_INDEX: u64 = 0x3E;

/// Program-header type tag of the dynamic segment.
pub const ELF_DYNAMIC_SECTION_PHT_TYPE: u64 = 0x02;

pub const WEAPON_UNKNOWN: &'static str = "unknown";

pub const TEAM_SPECTATOR: u8 = 1;

pub const TEAM_T: u8 = 2;

pub const TEAM_CT: u8 = 3;

} // verus!
