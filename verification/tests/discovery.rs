use cs2_introspect::accessor::{MemorySpace, Region};
use cs2_introspect::cs2::find_offsets;
use cs2_introspect::offsets::{
    ItemServiceOffsets, MoneyServiceOffsets, Offsets, ObserverServiceOffsets, PawnOffsets,
    PlayerControllerOffsets, WeaponServiceOffsets,
};

fn put_u16(b: &mut Vec<u8>, off: usize, v: u16) {
    b[off..off + 2].copy_from_slice(&v.to_le_bytes());
}

fn put_u32(b: &mut Vec<u8>, off: usize, v: u32) {
    b[off..off + 4].copy_from_slice(&v.to_le_bytes());
}

fn put_u64(b: &mut Vec<u8>, off: usize, v: u64) {
    b[off..off + 8].copy_from_slice(&v.to_le_bytes());
}

fn put_str(b: &mut Vec<u8>, off: usize, s: &str) {
    b[off..off + s.len()].copy_from_slice(s.as_bytes());
    b[off + s.len()] = 0;
}

/// A module exporting CreateInterface, whose factory list carries one entry
/// named `iface_name` resolving to the singleton at `base + 0x300`.
fn iface_module(base: u64, iface_name: &str) -> Vec<u8> {
    let mut b = vec![0u8; 0x400];
    b[0] = 0x7F;
    b[1] = b'E';
    b[2] = b'L';
    b[3] = b'F';
    put_u64(&mut b, 0x20, 0x40);
    put_u64(&mut b, 0x28, 0x400);
    put_u16(&mut b, 0x36, 0x38);
    put_u16(&mut b, 0x38, 1);
    put_u32(&mut b, 0x40, 2);
    put_u64(&mut b, 0x40 + 16, 0x80);
    put_u64(&mut b, 0x80, 5);
    put_u64(&mut b, 0x88, base + 0x100);
    put_u64(&mut b, 0x90, 6);
    put_u64(&mut b, 0x98, base + 0x140);
    put_str(&mut b, 0x101, "CreateInterface");
    put_u32(&mut b, 0x158, 1);
    put_u64(&mut b, 0x160, 0x200);
    put_u32(&mut b, 0x201, 0x30);
    put_u64(&mut b, 0x24C, base + 0x280);
    put_u64(&mut b, 0x280, base + 0x2C0);
    put_u64(&mut b, 0x288, base + 0x2A0);
    put_str(&mut b, 0x2A0, iface_name);
    put_u32(&mut b, 0x2C3, 0x300 - 0x2C7);
    b
}

/// The tier0 module: its VEngineCvar singleton at +0x300 carries the
/// configuration-object array holding mp_teammates_are_enemies.
fn tier0_module(base: u64) -> Vec<u8> {
    let mut b = iface_module(base, "VEngineCvar007");
    put_u64(&mut b, 0x340, base + 0x380); // object array pointer at cvar+64
    put_u32(&mut b, 0x3A0, 1); // element count at cvar+160
    put_u64(&mut b, 0x380, base + 0x3B0);
    put_u64(&mut b, 0x3B0, base + 0x3C0);
    put_str(&mut b, 0x3C0, "mp_teammates_are_enemies");
    b
}

const FLAG: bool = true;
const PLAIN: bool = false;

/// The schema entries written into the client module, lowest slot first.
/// The scan runs top-down, so the last entry here is processed first and
/// the first entry (the helmet flag) completes the table.
fn schema_entries() -> Vec<(&'static str, bool, u64, u32)> {
    vec![
        ("m_bHasHelmet", FLAG, 0x18, 0x901),
        ("m_bHasDefuser", PLAIN, 0x10, 0x902),
        ("m_hObserverTarget", PLAIN, 0x08, 0x903),
        ("m_iAccount", PLAIN, 0x10, 0x904),
        ("m_hMyWeapons", PLAIN, 0x08, 0x905),
        ("m_hActiveWeapon", FLAG, 0x18, 0x906),
        ("m_pItemServices", PLAIN, 0x08, 0x907),
        ("m_pObserverServices", PLAIN, 0x08, 0x908),
        ("m_pWeaponServices", PLAIN, 0x08, 0x909),
        ("m_angEyeAngles", PLAIN, 0x10, 0x90A),
        ("m_vOldOrigin", PLAIN, 0x08, 0x90B),
        ("m_pClippingWeapon", PLAIN, 0x10, 0x90C),
        ("m_lifeState", FLAG, 0x18, 0x90D),
        ("m_iTeamNum", FLAG, 0x18, 0x90E),
        ("m_ArmorValue", FLAG, 0x18, 0x90F),
        ("m_iHealth", FLAG, 0x18, 0x910),
        ("m_steamID", FLAG, 0x18, 0x911),
        ("m_pInGameMoneyServices", PLAIN, 0x10, 0x912),
        ("m_iPing", FLAG, 0x18, 0x913),
        ("m_iCompTeammateColor", PLAIN, 0x10, 0x914),
        ("m_hPawn", FLAG, 0x18, 0x915),
        ("m_sSanitizedPlayerName", FLAG, 0x18, 0x916),
        ("m_iHealth", FLAG, 0x18, 0x917),
    ]
}

/// The client module: the local-player pattern at 0x100 and a schema table
/// of 0x20-byte entries from 0x200 upward. Flagged entries point their slot
/// at a shared registration record naming MNetworkEnable.
fn client_module(base: u64) -> Vec<u8> {
    let mut b = vec![0u8; 0x1000];
    b[0] = 0x7F;
    b[1] = b'E';
    b[2] = b'L';
    b[3] = b'F';
    put_u64(&mut b, 0x28, 0x1000); // module size = whole region
    // The pattern instruction, with displacement 0xF0 in its wildcard bytes:
    // the decoded global pointer lands at base + 0x1F8.
    let pat: [u8; 12] = [0x48, 0x83, 0x3D, 0xF0, 0x00, 0x00, 0x00, 0x00, 0x0F, 0x95, 0xC0, 0xC3];
    b[0x100..0x10C].copy_from_slice(&pat);
    // Shared registration record: slot content at 0x9D0 points to the
    // sentinel name.
    put_u64(&mut b, 0x9D0, base + 0x9E0);
    put_str(&mut b, 0x9E0, "MNetworkEnable");
    let entries = schema_entries();
    for (j, (name, flagged, disp, value)) in entries.iter().enumerate() {
        let slot = 0x200 + 0x20 * j;
        let name_off = 0xA00 + 0x20 * j;
        put_str(&mut b, name_off, name);
        if *flagged {
            put_u64(&mut b, slot, base + 0x9D0);
            put_u64(&mut b, slot + 8, base + name_off as u64);
        } else {
            put_u64(&mut b, slot, base + name_off as u64);
        }
        put_u32(&mut b, slot + *disp as usize, *value);
    }
    b
}

const CLIENT: u64 = 0x400000;
const ENGINE: u64 = 0x600000;
const TIER0: u64 = 0x700000;

fn attach_space() -> MemorySpace {
    let mut engine = iface_module(ENGINE, "GameResourceServiceClientV001");
    // The entity-table pointer read at resource + 0x50.
    put_u64(&mut engine, 0x350, 0x500000);
    MemorySpace {
        regions: vec![
            Region { start: CLIENT, bytes: client_module(CLIENT) },
            Region { start: ENGINE, bytes: engine },
            Region { start: TIER0, bytes: tier0_module(TIER0) },
        ],
    }
}

#[test]
fn discovery_finds_the_complete_table() {
    let m = attach_space();
    let offsets = find_offsets(&m, Some(CLIENT), Some(ENGINE), Some(TIER0))
        .expect("discovery should complete");
    assert_eq!(offsets.library.client, CLIENT);
    assert_eq!(offsets.library.engine, ENGINE);
    assert_eq!(offsets.library.tier0, TIER0);
    assert_eq!(offsets.interface.resource, ENGINE + 0x300);
    assert_eq!(offsets.interface.entity, 0x500000);
    assert_eq!(offsets.interface.player, 0x500010);
    assert_eq!(offsets.interface.cvar, TIER0 + 0x300);
    assert_eq!(offsets.direct.local_player, CLIENT + 0x1F8);
    assert_eq!(offsets.convar.teammates_are_enemies, TIER0 + 0x3B0);
    assert_eq!(offsets.controller.name, 0x916);
    assert_eq!(offsets.controller.pawn, 0x915);
    assert_eq!(offsets.controller.color, 0x914);
    assert_eq!(offsets.controller.ping, 0x913);
    assert_eq!(offsets.controller.money_services, 0x912);
    assert_eq!(offsets.controller.steam_id, 0x911);
    assert_eq!(offsets.pawn.armor, 0x90F);
    assert_eq!(offsets.pawn.team, 0x90E);
    assert_eq!(offsets.pawn.life_state, 0x90D);
    assert_eq!(offsets.pawn.weapon, 0x90C);
    assert_eq!(offsets.pawn.position, 0x90B);
    assert_eq!(offsets.pawn.eye_angles, 0x90A);
    assert_eq!(offsets.pawn.weapon_services, 0x909);
    assert_eq!(offsets.pawn.observer_services, 0x908);
    assert_eq!(offsets.pawn.item_services, 0x907);
    assert_eq!(offsets.weapon_service.active_weapon, 0x906);
    assert_eq!(offsets.weapon_service.all_weapons, 0x905);
    assert_eq!(offsets.money_service.money, 0x904);
    assert_eq!(offsets.observer_service.target, 0x903);
    assert_eq!(offsets.item_service.has_defuser, 0x902);
    assert_eq!(offsets.item_service.has_helmet, 0x901);
    assert!(offsets.all_found());
}

#[test]
fn duplicate_names_keep_the_higher_address() {
    // m_iHealth appears twice: at the highest slot with value 0x917 and
    // lower down with value 0x910. The descending scan takes the higher
    // slot's value and never overwrites it.
    let m = attach_space();
    let offsets = find_offsets(&m, Some(CLIENT), Some(ENGINE), Some(TIER0)).unwrap();
    assert_eq!(offsets.pawn.health, 0x917);
}

#[test]
fn discovery_fails_without_a_library_base() {
    let m = attach_space();
    assert!(find_offsets(&m, None, Some(ENGINE), Some(TIER0)).is_none());
    assert!(find_offsets(&m, Some(CLIENT), None, Some(TIER0)).is_none());
    assert!(find_offsets(&m, Some(CLIENT), Some(ENGINE), None).is_none());
}

#[test]
fn discovery_fails_when_a_field_never_appears() {
    // Blank the helmet entry's name: its category can never resolve, so the
    // scan runs out of slots.
    let mut client = client_module(CLIENT);
    put_str(&mut client, 0xA00, "m_bSomethingElse");
    let mut engine = iface_module(ENGINE, "GameResourceServiceClientV001");
    put_u64(&mut engine, 0x350, 0x500000);
    let m = MemorySpace {
        regions: vec![
            Region { start: CLIENT, bytes: client },
            Region { start: ENGINE, bytes: engine },
            Region { start: TIER0, bytes: tier0_module(TIER0) },
        ],
    };
    assert!(find_offsets(&m, Some(CLIENT), Some(ENGINE), Some(TIER0)).is_none());
}

#[test]
fn discovery_fails_without_the_configuration_object() {
    let mut tier0 = tier0_module(TIER0);
    put_str(&mut tier0, 0x3C0, "mp_somethingelse");
    let mut engine = iface_module(ENGINE, "GameResourceServiceClientV001");
    put_u64(&mut engine, 0x350, 0x500000);
    let m = MemorySpace {
        regions: vec![
            Region { start: CLIENT, bytes: client_module(CLIENT) },
            Region { start: ENGINE, bytes: engine },
            Region { start: TIER0, bytes: tier0 },
        ],
    };
    assert!(find_offsets(&m, Some(CLIENT), Some(ENGINE), Some(TIER0)).is_none());
}

#[test]
fn completion_asks_for_every_category() {
    let mut offsets = Offsets::default();
    assert!(!offsets.all_found());
    offsets.controller = PlayerControllerOffsets {
        name: 1,
        pawn: 2,
        color: 3,
        ping: 0, // ping is recovered opportunistically, never required
        money_services: 5,
        steam_id: 6,
    };
    offsets.pawn = PawnOffsets {
        health: 1,
        armor: 2,
        team: 3,
        life_state: 4,
        weapon: 5,
        position: 6,
        eye_angles: 7,
        weapon_services: 8,
        observer_services: 9,
        item_services: 10,
    };
    offsets.weapon_service = WeaponServiceOffsets { active_weapon: 1, all_weapons: 2 };
    offsets.money_service = MoneyServiceOffsets { money: 1 };
    offsets.observer_service = ObserverServiceOffsets { target: 1 };
    assert!(!offsets.all_found());
    offsets.item_service = ItemServiceOffsets { has_defuser: 1, has_helmet: 1 };
    assert!(offsets.all_found());
    offsets.money_service.money = 0;
    assert!(!offsets.all_found());
}

#[test]
fn discovery_fails_without_the_pattern() {
    let mut client = client_module(CLIENT);
    for k in 0..12 {
        client[0x100 + k] = 0;
    }
    let mut engine = iface_module(ENGINE, "GameResourceServiceClientV001");
    put_u64(&mut engine, 0x350, 0x500000);
    let m = MemorySpace {
        regions: vec![
            Region { start: CLIENT, bytes: client },
            Region { start: ENGINE, bytes: engine },
            Region { start: TIER0, bytes: tier0_module(TIER0) },
        ],
    };
    assert!(find_offsets(&m, Some(CLIENT), Some(ENGINE), Some(TIER0)).is_none());
}
