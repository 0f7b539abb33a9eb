use cs2_introspect::accessor::{MemorySpace, Region};
use cs2_introspect::cs2::{
    get_client_entity, get_health, get_money, get_name, get_pawn, get_player_info, get_weapons,
};
use cs2_introspect::offsets::Offsets;

fn put_u32(b: &mut Vec<u8>, off: usize, v: u32) {
    b[off..off + 4].copy_from_slice(&v.to_le_bytes());
}

fn put_u64(b: &mut Vec<u8>, off: usize, v: u64) {
    b[off..off + 8].copy_from_slice(&v.to_le_bytes());
}

fn put_str(b: &mut Vec<u8>, off: usize, s: &str) {
    b[off..off + s.len()].copy_from_slice(s.as_bytes());
    b[off + s.len()] = 0;
}

fn space(start: u64, bytes: Vec<u8>) -> MemorySpace {
    MemorySpace { regions: vec![Region { start, bytes }] }
}

// ---------------------------------------------------------------------------
// Handle arithmetic.
// ---------------------------------------------------------------------------

const ET: u64 = 0x20000;

fn entity_offsets() -> Offsets {
    let mut offsets = Offsets::default();
    offsets.interface.entity = ET;
    offsets
}

#[test]
fn handle_zero_with_empty_table_is_unresolved() {
    let m = space(ET, vec![0u8; 0x40]);
    assert_eq!(get_client_entity(&m, &entity_offsets(), 0), None);
}

#[test]
fn handle_resolution_composes_chunk_and_slot() {
    // handle 0x1FFFF: chunk = 0xFF, slot = 0x1FF.
    let chunk_base = 0x30000u64;
    let mut table = vec![0u8; 0x1000];
    put_u64(&mut table, (8 * 0xFF + 0x10) as usize, chunk_base);
    let mut chunk = vec![0u8; 120 * 0x200 + 8];
    put_u64(&mut chunk, 120 * 0x1FF, 0xDEAD00);
    let m = MemorySpace {
        regions: vec![
            Region { start: ET, bytes: table },
            Region { start: chunk_base, bytes: chunk },
        ],
    };
    let offsets = entity_offsets();
    assert_eq!(get_client_entity(&m, &offsets, 0x1FFFF), Some(0xDEAD00));
    // A zero at the second level is unresolved.
    assert_eq!(get_client_entity(&m, &offsets, 0x1FFFE), None);
    // A zero at the first level is unresolved.
    assert_eq!(get_client_entity(&m, &offsets, 0x1FDFF), None);
}

#[test]
fn handle_zero_resolves_when_both_levels_are_mapped() {
    let chunk_base = 0x30000u64;
    let mut table = vec![0u8; 0x40];
    put_u64(&mut table, 0x10, chunk_base);
    let mut chunk = vec![0u8; 0x10];
    put_u64(&mut chunk, 0, 0xBEEF00);
    let m = MemorySpace {
        regions: vec![
            Region { start: ET, bytes: table },
            Region { start: chunk_base, bytes: chunk },
        ],
    };
    assert_eq!(get_client_entity(&m, &entity_offsets(), 0), Some(0xBEEF00));
}

// ---------------------------------------------------------------------------
// Clamping.
// ---------------------------------------------------------------------------

fn clamp_offsets() -> Offsets {
    let mut offsets = Offsets::default();
    offsets.pawn.health = 0x10;
    offsets.controller.money_services = 0x28;
    offsets.money_service.money = 0x08;
    offsets
}

fn health_space(pawn: u64, health: i32) -> MemorySpace {
    let mut b = vec![0u8; 0x20];
    put_u32(&mut b, 0x10, health as u32);
    space(pawn, b)
}

#[test]
fn health_clamps_outside_its_range() {
    let pawn = 0x5000u64;
    let offsets = clamp_offsets();
    assert_eq!(get_health(&health_space(pawn, 150), &offsets, pawn), 0);
    assert_eq!(get_health(&health_space(pawn, 55), &offsets, pawn), 55);
    assert_eq!(get_health(&health_space(pawn, -3), &offsets, pawn), 0);
    assert_eq!(get_health(&health_space(pawn, 100), &offsets, pawn), 100);
}

fn money_space(controller: u64, money: i32) -> MemorySpace {
    let services = controller + 0x100;
    let mut b = vec![0u8; 0x200];
    put_u64(&mut b, 0x28, services);
    put_u32(&mut b, 0x108, money as u32);
    space(controller, b)
}

#[test]
fn currency_clamps_outside_its_range() {
    let controller = 0x6000u64;
    let offsets = clamp_offsets();
    assert_eq!(get_money(&money_space(controller, 100000), &offsets, controller), 0);
    assert_eq!(get_money(&money_space(controller, -1), &offsets, controller), 0);
    assert_eq!(get_money(&money_space(controller, 99999), &offsets, controller), 99999);
    assert_eq!(get_money(&money_space(controller, 800), &offsets, controller), 800);
    // A missing money-services pointer reads as no money at all.
    let bare = space(controller, vec![0u8; 0x200]);
    assert_eq!(get_money(&bare, &offsets, controller), 0);
}

// ---------------------------------------------------------------------------
// End-to-end roster snapshot.
// ---------------------------------------------------------------------------

const R: u64 = 0x100000;
const CTRL1: u64 = R + 0x2000;
const CTRL2: u64 = R + 0x3000;
const LOCAL: u64 = R + 0x4000;
const PAWN1: u64 = R + 0x5000;
const PAWN2: u64 = R + 0x5800;
const PAWNL: u64 = R + 0x6000;
const OBS: u64 = R + 0x6800;

fn roster_offsets() -> Offsets {
    let mut offsets = Offsets::default();
    offsets.direct.local_player = R + 0x50;
    offsets.interface.entity = R + 0x100;
    offsets.interface.player = R + 0x200;
    offsets.controller.name = 0x10;
    offsets.controller.pawn = 0x18;
    offsets.controller.color = 0x20;
    offsets.controller.ping = 0x24;
    offsets.controller.money_services = 0x28;
    offsets.controller.steam_id = 0x30;
    offsets.pawn.health = 0x10;
    offsets.pawn.armor = 0x14;
    offsets.pawn.team = 0x18;
    offsets.pawn.life_state = 0x1C;
    offsets.pawn.weapon = 0x20;
    offsets.pawn.position = 0x28;
    offsets.pawn.eye_angles = 0x34;
    offsets.pawn.weapon_services = 0x40;
    offsets.pawn.observer_services = 0x48;
    offsets.pawn.item_services = 0x50;
    offsets.weapon_service.active_weapon = 0x08;
    offsets.weapon_service.all_weapons = 0x10;
    offsets.money_service.money = 0x08;
    offsets.observer_service.target = 0x08;
    offsets.item_service.has_defuser = 0x08;
    offsets.item_service.has_helmet = 0x09;
    offsets
}

fn write_controller(b: &mut Vec<u8>, at: u64, name: u64, pawn_handle: i32, color: i32, ping: i32, services: u64, steam: u64) {
    let o = (at - R) as usize;
    put_u64(b, o + 0x10, name);
    put_u32(b, o + 0x18, pawn_handle as u32);
    put_u32(b, o + 0x20, color as u32);
    put_u32(b, o + 0x24, ping as u32);
    put_u64(b, o + 0x28, services);
    put_u64(b, o + 0x30, steam);
}

fn write_pawn(b: &mut Vec<u8>, at: u64, health: i32, armor: i32, team: u8, observer: u64) {
    let o = (at - R) as usize;
    put_u32(b, o + 0x10, health as u32);
    put_u32(b, o + 0x14, armor as u32);
    b[o + 0x18] = team;
    b[o + 0x1C] = 0; // life state
    put_u32(b, o + 0x28, 1.5f32.to_bits());
    put_u32(b, o + 0x2C, 2.5f32.to_bits());
    put_u32(b, o + 0x30, 3.5f32.to_bits());
    put_u32(b, o + 0x38, 90.0f32.to_bits());
    put_u64(b, o + 0x48, observer);
}

/// Three live participants: two remote controllers on the two playable
/// sides and the local one; the local pawn optionally spectates the second
/// remote pawn.
fn roster_space(spectating: bool) -> MemorySpace {
    let mut b = vec![0u8; 0x10000];
    // local controller pointer
    put_u64(&mut b, 0x50, LOCAL);
    // entity table: one chunk at R+0x8000 holding controllers 1, 2 and the
    // local controller again at 5 (which the roster loop must skip).
    put_u64(&mut b, 0x110, R + 0x8000);
    put_u64(&mut b, 0x8000 + 120, CTRL1);
    put_u64(&mut b, 0x8000 + 240, CTRL2);
    put_u64(&mut b, 0x8000 + 600, LOCAL);
    // pawn table: one chunk at R+0xA000 holding pawns for handles 1..3.
    put_u64(&mut b, 0x200, R + 0xA000);
    put_u64(&mut b, 0xA000 + 120, PAWN1);
    put_u64(&mut b, 0xA000 + 240, PAWN2);
    put_u64(&mut b, 0xA000 + 360, PAWNL);
    // names
    put_str(&mut b, 0x7000, "alpha");
    put_str(&mut b, 0x7010, "bravo");
    put_str(&mut b, 0x7020, "carol");
    // money services for the first controller only
    put_u32(&mut b, 0x7808, 1234);
    write_controller(&mut b, CTRL1, R + 0x7000, 1, 7, 32, R + 0x7800, 111);
    write_controller(&mut b, CTRL2, R + 0x7010, 2, 3, 45, 0, 222);
    write_controller(&mut b, LOCAL, R + 0x7020, 3, 1, 5, 0, 333);
    write_pawn(&mut b, PAWN1, 77, 50, 2, 0);
    write_pawn(&mut b, PAWN2, 100, 0, 3, 0);
    write_pawn(&mut b, PAWNL, 88, 25, 2, if spectating { OBS } else { 0 });
    if spectating {
        // observer services: the target handle names pawn 2.
        put_u32(&mut b, 0x6808, 2);
    }
    space(R, b)
}

#[test]
fn roster_has_three_records_with_one_active() {
    let m = roster_space(true);
    let offsets = roster_offsets();
    let players = get_player_info(&m, &offsets);
    assert_eq!(players.len(), 3);
    assert_eq!(players[0].name, "alpha".to_string());
    assert_eq!(players[1].name, "bravo".to_string());
    assert_eq!(players[2].name, "carol".to_string());
    let actives: Vec<bool> = players.iter().map(|p| p.active_player).collect();
    assert_eq!(actives, vec![false, true, false]);
    // The local participant's record comes last.
    assert_eq!(players[2].steam_id, 333);
    assert_eq!(players[0].health, 77);
    assert_eq!(players[0].armor, 50);
    assert_eq!(players[0].money, 1234);
    assert_eq!(players[0].team, 2);
    assert_eq!(players[0].color, 7);
    assert_eq!(players[0].ping, 32);
    assert_eq!(players[0].steam_id, 111);
    assert_eq!(players[0].weapon, "unknown".to_string());
    assert!(players[0].weapons.is_empty());
    assert!(!players[0].has_defuser);
    assert!(!players[0].has_helmet);
    assert_eq!(players[0].position.x, 1.5f32.to_bits());
    assert_eq!(players[0].position.y, 2.5f32.to_bits());
    assert_eq!(players[0].position.z, 3.5f32.to_bits());
    assert_eq!(players[0].rotation, 90.0f32.to_bits());
    assert_eq!(players[1].money, 0);
    assert_eq!(players[1].team, 3);
}

#[test]
fn local_record_is_active_without_a_spectation_target() {
    let m = roster_space(false);
    let players = get_player_info(&m, &roster_offsets());
    assert_eq!(players.len(), 3);
    let actives: Vec<bool> = players.iter().map(|p| p.active_player).collect();
    assert_eq!(actives, vec![false, false, true]);
}

#[test]
fn unresolved_local_controller_yields_an_empty_roster() {
    let offsets = roster_offsets();
    let empty = space(R, vec![0u8; 0x100]);
    assert!(get_player_info(&empty, &offsets).is_empty());
}

#[test]
fn pawn_handle_minus_one_means_no_embodiment() {
    let mut b = vec![0u8; 0x1000];
    put_u32(&mut b, 0x18, u32::MAX); // handle -1
    let m = space(R, b);
    assert_eq!(get_pawn(&m, &roster_offsets(), R), None);
}

#[test]
fn weapon_list_skips_unresolved_entries() {
    let offsets = roster_offsets();
    let mut b = vec![0u8; 0x10000];
    let pawn = R;
    // weapon services block at R + 0x900
    put_u64(&mut b, 0x40, R + 0x900);
    // array length 3, data pointer R + 0xA00
    put_u64(&mut b, 0x910, 3);
    put_u64(&mut b, 0x918, R + 0xA00);
    // entries: handles 1 (resolves), 2 (unresolved), 1 again
    put_u32(&mut b, 0xA00, 1);
    put_u32(&mut b, 0xA04, 2);
    put_u32(&mut b, 0xA08, 1);
    // entity table chunk
    put_u64(&mut b, 0x110, R + 0x8000);
    put_u64(&mut b, 0x8000 + 120, R + 0xB00);
    // weapon instance R+0xB00 -> identity R+0xC00 -> name R+0xD00
    put_u64(&mut b, 0xB10, R + 0xC00);
    put_u64(&mut b, 0xC20, R + 0xD00);
    put_str(&mut b, 0xD00, "weapon_ak47");
    let m = space(R, b);
    let names = get_weapons(&m, &offsets, pawn);
    assert_eq!(names, vec!["weapon_ak47".to_string(), "weapon_ak47".to_string()]);
}

#[test]
fn missing_name_pointer_reads_as_question_mark() {
    let offsets = roster_offsets();
    let controller = R;
    // Name pointer left zero: the placeholder name comes back.
    let m = space(R, vec![0u8; 0x100]);
    assert_eq!(get_name(&m, &offsets, controller), "?".to_string());
    // With a pointer in place the real name comes back.
    let mut b = vec![0u8; 0x100];
    put_u64(&mut b, 0x10, R + 0x80);
    put_str(&mut b, 0x80, "dave");
    let m2 = space(R, b);
    assert_eq!(get_name(&m2, &offsets, controller), "dave".to_string());
}
