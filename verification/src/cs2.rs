use crate::accessor::MemorySpace;
use crate::constants::{ENTITY_OFFSET, TEAM_CT, TEAM_T};
use crate::image::{
    convar_found, convar_missing, dump_of, interface_missing, interface_ok, mask_match,
    module_size_of, relative_spec,
};
use crate::math::Vec3;
use crate::memory::{
    bytes_eq, bytes_eq_lower, chars_of, lemma_wrap64_add_left, lemma_wrap64_add_right,
    lemma_wrap64_bound, lower_of, wadd, wmul, wrap64,
};
use crate::offsets::{
    offsets_zero, offsets_zero_exec, rule_view, rules, slot_get, slot_set, spec_rules,
    spec_slot_get, spec_slot_set, ConvarOffsets, DirectOffsets, FieldSlot, InterfaceOffsets,
    LibraryOffsets, Offsets, Rule, RuleV,
};
use vstd::prelude::*;
use vstd::string::StringSliceAdditionalSpecFns;

verus! {

broadcast use lemma_wrap64_add_left, lemma_wrap64_add_right, lemma_wrap64_bound;
// ---------------------------------------------------------------------------
// One participant record, rebuilt from scratch every cycle and never
// mutated after it is returned.
// ---------------------------------------------------------------------------

#[derive(Clone, Debug)]
pub struct Player {
    pub name: String,
    pub health: i32,
    pub armor: i32,
    pub money: i32,
    pub team: u8,
    pub life_state: u8,
    pub weapon: String,
    pub weapons: Vec<String>,
    pub has_defuser: bool,
    pub has_helmet: bool,
    pub color: i32,
    pub position: Vec3,
    /// Raw bit pattern of the facing angle's 32-bit float.
    pub rotation: u32,
    pub ping: i32,
    pub steam_id: u64,
    pub active_player: bool,
}

/// Ghost image of a participant record.
pub ghost struct PlayerV {
    pub name: Seq<char>,
    pub health: i32,
    pub armor: i32,
    pub money: i32,
    pub team: u8,
    pub life_state: u8,
    pub weapon: Seq<char>,
    pub weapons: Seq<Seq<char>>,
    pub has_defuser: bool,
    pub has_helmet: bool,
    pub color: i32,
    pub position: Vec3,
    pub rotation: u32,
    pub ping: i32,
    pub steam_id: u64,
    pub active_player: bool,
}

impl View for Player {
    type V = PlayerV;

    open spec fn view(&self) -> PlayerV {
        PlayerV {
            name: self.name@,
            health: self.health,
            armor: self.armor,
            money: self.money,
            team: self.team,
            life_state: self.life_state,
            weapon: self.weapon@,
            weapons: self.weapons@.map_values(|s: String| s@),
            has_defuser: self.has_defuser,
            has_helmet: self.has_helmet,
            color: self.color,
            position: self.position,
            rotation: self.rotation,
            ping: self.ping,
            steam_id: self.steam_id,
            active_player: self.active_player,
        }
    }
}

/// The all-absent record: every numeric field zero, names empty, no flags.
pub open spec fn player_default() -> PlayerV {
    PlayerV {
        name: Seq::empty(),
        health: 0,
        armor: 0,
        money: 0,
        team: 0,
        life_state: 0,
        weapon: Seq::empty(),
        weapons: Seq::empty(),
        has_defuser: false,
        has_helmet: false,
        color: 0,
        position: Vec3 { x: 0, y: 0, z: 0 },
        rotation: 0,
        ping: 0,
        steam_id: 0,
        active_player: false,
    }
}

impl Default for Player {
    fn default() -> (r: Self)
        ensures
            r@ == player_default(),
    {
        let r = Player {
            name: String::new(),
            health: 0,
            armor: 0,
            money: 0,
            team: 0,
            life_state: 0,
            weapon: String::new(),
            weapons: Vec::new(),
            has_defuser: false,
            has_helmet: false,
            color: 0,
            position: Vec3 { x: 0, y: 0, z: 0 },
            rotation: 0,
            ping: 0,
            steam_id: 0,
            active_player: false,
        };
        proof {
            assert(r.weapons@.map_values(|s: String| s@) =~= Seq::<Seq<char>>::empty());
        }
        r
    }
}

// ---------------------------------------------------------------------------
// Entity resolution: a handle names a live object through a two-level
// chunked table, chunk = handle >> 9 and slot = handle & 0x1FF, with a
// 120-byte per-object stride inside a chunk. A zero at either level means
// the handle is unresolved.
// ---------------------------------------------------------------------------

pub open spec fn spec_local_controller(m: MemorySpace, off: Offsets) -> u64 {
    m.u64_at(off.direct.local_player as int)
}

pub open spec fn spec_client_entity(m: MemorySpace, off: Offsets, index: u64) -> Option<u64> {
    let chunk = m.u64_at(wrap64(off.interface.entity + 8 * (index >> 9) + 0x10));
    if chunk == 0 {
        None
    } else {
        let entity = m.u64_at(wrap64(chunk + 120 * (index & 0x1ff)));
        if entity == 0 {
            None
        } else {
            Some(entity)
        }
    }
}

pub open spec fn spec_pawn(m: MemorySpace, off: Offsets, controller: u64) -> Option<u64> {
    let handle = m.i32_at(wrap64(controller + off.controller.pawn));
    if handle == -1 {
        None
    } else {
        let h = handle as u64;
        let chunk = m.u64_at(wrap64(off.interface.player + 8 * ((h & 0x7fff) >> 9)));
        if chunk == 0 {
            None
        } else {
            let entity = m.u64_at(wrap64(chunk + 120 * (h & 0x1ff)));
            if entity == 0 {
                None
            } else {
                Some(entity)
            }
        }
    }
}

proof fn lemma_handle_bits(x: u64)
    ensures
        x >> 9 <= 0x007FFFFFFFFFFFFF,
        x & 0x1ff <= 0x1ff,
        (x & 0x7fff) >> 9 <= 0x3f,
{
    assert(x >> 9 <= 0x007FFFFFFFFFFFFFu64) by (bit_vector);
    assert(x & 0x1ff <= 0x1ffu64) by (bit_vector);
    assert((x & 0x7fff) >> 9 <= 0x3fu64) by (bit_vector);
}

pub fn get_local_controller(mem: &MemorySpace, offsets: &Offsets) -> (r: u64)
    ensures
        r == spec_local_controller(*mem, *offsets),
{
    mem.read_u64(offsets.direct.local_player)
}

/// Resolves a raw table index to a live object address; `None` when either
/// table level holds zero, for every index value.
pub fn get_client_entity(mem: &MemorySpace, offsets: &Offsets, index: u64) -> (r: Option<u64>)
    ensures
        r == spec_client_entity(*mem, *offsets, index),
{
    proof {
        lemma_handle_bits(index);
    }
    let chunk = mem.read_u64(wadd(wadd(offsets.interface.entity, 8 * (index >> 9)), 0x10));
    if chunk == 0 {
        return None;
    }
    let entity = mem.read_u64(wadd(chunk, 120 * (index & 0x1ff)));
    if entity == 0 {
        return None;
    }
    Some(entity)
}

/// Resolves a controller's embodiment: a 32-bit handle where -1 means none,
/// masked with 0x7FFF before the chunk/slot split.
pub fn get_pawn(mem: &MemorySpace, offsets: &Offsets, controller: u64) -> (r: Option<u64>)
    ensures
        r == spec_pawn(*mem, *offsets, controller),
{
    let handle = mem.read_i32(wadd(controller, offsets.controller.pawn));
    if handle == -1 {
        return None;
    }
    let h = #[verifier::truncate] (handle as u64);
    proof {
        lemma_handle_bits(h);
    }
    let chunk = mem.read_u64(wadd(offsets.interface.player, 8 * ((h & 0x7fff) >> 9)));
    if chunk == 0 {
        return None;
    }
    let entity = mem.read_u64(wadd(chunk, 120 * (h & 0x1ff)));
    if entity == 0 {
        return None;
    }
    Some(entity)
}

// ---------------------------------------------------------------------------
// Field readers. Implausible values coming back from failed reads are
// absorbed by clamping; missing pointers yield fixed placeholders.
// ---------------------------------------------------------------------------

pub open spec fn spec_name(m: MemorySpace, off: Offsets, controller: u64) -> Seq<char> {
    let np = m.u64_at(wrap64(controller + off.controller.name));
    if np == 0 {
        "?"@
    } else {
        chars_of(m.cstr_at(np as int))
    }
}

pub fn get_name(mem: &MemorySpace, offsets: &Offsets, controller: u64) -> (r: String)
    ensures
        r@ == spec_name(*mem, *offsets, controller),
{
    let name_pointer = mem.read_u64(wadd(controller, offsets.controller.name));
    if name_pointer == 0 {
        return "?".to_owned();
    }
    mem.read_string(name_pointer)
}

/// Health clamps to 0 outside [0, 100].
pub open spec fn spec_health(m: MemorySpace, off: Offsets, pawn: u64) -> i32 {
    let h = m.i32_at(wrap64(pawn + off.pawn.health));
    if 0 <= h <= 100 {
        h
    } else {
        0
    }
}

pub fn get_health(mem: &MemorySpace, offsets: &Offsets, pawn: u64) -> (r: i32)
    ensures
        r == spec_health(*mem, *offsets, pawn),
{
    let health = mem.read_i32(wadd(pawn, offsets.pawn.health));
    if !(0 <= health && health <= 100) {
        return 0;
    }
    health
}

/// Armor clamps to 0 outside [0, 100].
pub open spec fn spec_armor(m: MemorySpace, off: Offsets, pawn: u64) -> i32 {
    let a = m.i32_at(wrap64(pawn + off.pawn.armor));
    if 0 <= a <= 100 {
        a
    } else {
        0
    }
}

pub fn get_armor(mem: &MemorySpace, offsets: &Offsets, pawn: u64) -> (r: i32)
    ensures
        r == spec_armor(*mem, *offsets, pawn),
{
    let armor = mem.read_i32(wadd(pawn, offsets.pawn.armor));
    if !(0 <= armor && armor <= 100) {
        return 0;
    }
    armor
}

/// Currency clamps to 0 outside [0, 99999]; a missing money-services
/// pointer reads as 0.
pub open spec fn spec_money(m: MemorySpace, off: Offsets, controller: u64) -> i32 {
    let ms = m.u64_at(wrap64(controller + off.controller.money_services));
    if ms == 0 {
        0
    } else {
        let money = m.i32_at(wrap64(ms + off.money_service.money));
        if 0 <= money <= 99999 {
            money
        } else {
            0
        }
    }
}

pub fn get_money(mem: &MemorySpace, offsets: &Offsets, controller: u64) -> (r: i32)
    ensures
        r == spec_money(*mem, *offsets, controller),
{
    let money_services = mem.read_u64(wadd(controller, offsets.controller.money_services));
    if money_services == 0 {
        return 0;
    }
    let money = mem.read_i32(wadd(money_services, offsets.money_service.money));
    if !(0 <= money && money <= 99999) {
        return 0;
    }
    money
}

pub open spec fn spec_team(m: MemorySpace, off: Offsets, pawn: u64) -> u8 {
    m.u8_at(wrap64(pawn + off.pawn.team))
}

pub fn get_team(mem: &MemorySpace, offsets: &Offsets, pawn: u64) -> (r: u8)
    ensures
        r == spec_team(*mem, *offsets, pawn),
{
    mem.read_u8(wadd(pawn, offsets.pawn.team))
}

pub open spec fn spec_life_state(m: MemorySpace, off: Offsets, pawn: u64) -> u8 {
    m.u8_at(wrap64(pawn + off.pawn.life_state))
}

pub fn get_life_state(mem: &MemorySpace, offsets: &Offsets, pawn: u64) -> (r: u8)
    ensures
        r == spec_life_state(*mem, *offsets, pawn),
{
    mem.read_u8(wadd(pawn, offsets.pawn.life_state))
}

/// The weapon name hanging off an entity instance: instance -> identity at
/// +0x10 -> designer-name pointer at +0x20; any zero link yields the
/// "unknown" placeholder.
pub open spec fn spec_weapon_name(m: MemorySpace, weapon_instance: u64) -> Seq<char> {
    let identity = m.u64_at(wrap64(weapon_instance + 0x10));
    if identity == 0 {
        "unknown"@
    } else {
        let np = m.u64_at(wrap64(identity + 0x20));
        if np == 0 {
            "unknown"@
        } else {
            chars_of(m.cstr_at(np as int))
        }
    }
}

pub fn get_weapon_name(mem: &MemorySpace, weapon_instance: u64) -> (r: String)
    ensures
        r@ == spec_weapon_name(*mem, weapon_instance),
{
    let weapon_entity_identity = mem.read_u64(wadd(weapon_instance, 0x10));
    if weapon_entity_identity == 0 {
        return "unknown".to_owned();
    }
    let weapon_name_pointer = mem.read_u64(wadd(weapon_entity_identity, 0x20));
    if weapon_name_pointer == 0 {
        return "unknown".to_owned();
    }
    mem.read_string(weapon_name_pointer)
}

pub open spec fn spec_weapon(m: MemorySpace, off: Offsets, pawn: u64) -> Seq<char> {
    let instance = m.u64_at(wrap64(pawn + off.pawn.weapon));
    if instance == 0 {
        "unknown"@
    } else {
        spec_weapon_name(m, instance)
    }
}

pub fn get_weapon(mem: &MemorySpace, offsets: &Offsets, pawn: u64) -> (r: String)
    ensures
        r@ == spec_weapon(*mem, *offsets, pawn),
{
    let weapon_entity_instance = mem.read_u64(wadd(pawn, offsets.pawn.weapon));
    if weapon_entity_instance == 0 {
        return "unknown".to_owned();
    }
    get_weapon_name(mem, weapon_entity_instance)
}

/// The weapon names resolved from elements `from..size` of the weapon-array;
/// an element whose masked handle does not resolve is omitted.
pub open spec fn spec_weapons_from(
    m: MemorySpace,
    off: Offsets,
    vec_ptr: u64,
    size: int,
    i: int,
) -> Seq<Seq<char>>
    decreases size - i,
{
    if i < 0 || i >= size {
        Seq::empty()
    } else {
        let widx = ((m.u32_at(wrap64(vec_ptr + 4 * i)) & 0xfff) as u64);
        let rest = spec_weapons_from(m, off, vec_ptr, size, i + 1);
        match spec_client_entity(m, off, widx) {
            Some(e) => seq![spec_weapon_name(m, e)] + rest,
            None => rest,
        }
    }
}

pub open spec fn spec_weapons(m: MemorySpace, off: Offsets, pawn: u64) -> Seq<Seq<char>> {
    let ws = m.u64_at(wrap64(pawn + off.pawn.weapon_services));
    if ws == 0 {
        Seq::empty()
    } else {
        let size = m.u64_at(wrap64(ws + off.weapon_service.all_weapons));
        let vec_ptr = m.u64_at(wrap64(ws + off.weapon_service.all_weapons + 0x08));
        spec_weapons_from(m, off, vec_ptr, size as int, 0)
    }
}

pub fn get_weapons(mem: &MemorySpace, offsets: &Offsets, pawn: u64) -> (r: Vec<String>)
    ensures
        r@.map_values(|s: String| s@) == spec_weapons(*mem, *offsets, pawn),
{
    let weapon_services = mem.read_u64(wadd(pawn, offsets.pawn.weapon_services));
    let ghost empty_names: Seq<Seq<char>> = Seq::empty();
    if weapon_services == 0 {
        let names: Vec<String> = Vec::new();
        proof {
            assert(names@.map_values(|s: String| s@) =~= empty_names);
        }
        return names;
    }
    let size = mem.read_u64(wadd(weapon_services, offsets.weapon_service.all_weapons));
    let weapon_vector = mem.read_u64(
        wadd(wadd(weapon_services, offsets.weapon_service.all_weapons), 0x08),
    );
    let mut weapon_names: Vec<String> = Vec::new();
    let mut i: u64 = 0;
    proof {
        assert(weapon_names@.map_values(|s: String| s@) =~= empty_names);
    }
    while i < size
        invariant
            i <= size,
            spec_weapons_from(*mem, *offsets, weapon_vector, size as int, 0)
                == weapon_names@.map_values(|s: String| s@) + spec_weapons_from(
                *mem,
                *offsets,
                weapon_vector,
                size as int,
                i as int,
            ),
        decreases size - i,
    {
        let widx = mem.read_u32(wadd(weapon_vector, wmul(i, 4))) & 0xfff;
        proof {
            assert(widx == (mem.u32_at(wrap64(weapon_vector + 4 * i)) & 0xfff));
        }
        let weapon_entity = get_client_entity(mem, offsets, widx as u64);
        match weapon_entity {
            Some(entity) => {
                let weapon_name = get_weapon_name(mem, entity);
                proof {
                    let prev = weapon_names@.map_values(|s: String| s@);
                    assert(spec_weapons_from(*mem, *offsets, weapon_vector, size as int, i as int)
                        =~= seq![weapon_name@] + spec_weapons_from(
                        *mem,
                        *offsets,
                        weapon_vector,
                        size as int,
                        i as int + 1,
                    ));
                    assert(weapon_names@.push(weapon_name).map_values(|s: String| s@) =~= prev
                        + seq![weapon_name@]);
                    assert(prev + (seq![weapon_name@] + spec_weapons_from(
                        *mem,
                        *offsets,
                        weapon_vector,
                        size as int,
                        i as int + 1,
                    )) =~= (prev + seq![weapon_name@]) + spec_weapons_from(
                        *mem,
                        *offsets,
                        weapon_vector,
                        size as int,
                        i as int + 1,
                    ));
                }
                weapon_names.push(weapon_name);
            },
            None => {},
        }
        i = i + 1;
    }
    proof {
        assert(weapon_names@.map_values(|s: String| s@) + spec_weapons_from(
            *mem,
            *offsets,
            weapon_vector,
            size as int,
            size as int,
        ) =~= weapon_names@.map_values(|s: String| s@));
    }
    weapon_names
}

pub open spec fn spec_defuser(m: MemorySpace, off: Offsets, pawn: u64) -> bool {
    let is = m.u64_at(wrap64(pawn + off.pawn.item_services));
    is != 0 && m.u8_at(wrap64(is + off.item_service.has_defuser)) != 0
}

pub fn get_defuser(mem: &MemorySpace, offsets: &Offsets, pawn: u64) -> (r: bool)
    ensures
        r == spec_defuser(*mem, *offsets, pawn),
{
    let item_services = mem.read_u64(wadd(pawn, offsets.pawn.item_services));
    if item_services == 0 {
        return false;
    }
    mem.read_u8(wadd(item_services, offsets.item_service.has_defuser)) != 0
}

pub open spec fn spec_helmet(m: MemorySpace, off: Offsets, pawn: u64) -> bool {
    let is = m.u64_at(wrap64(pawn + off.pawn.item_services));
    is != 0 && m.u8_at(wrap64(is + off.item_service.has_helmet)) != 0
}

pub fn get_helmet(mem: &MemorySpace, offsets: &Offsets, pawn: u64) -> (r: bool)
    ensures
        r == spec_helmet(*mem, *offsets, pawn),
{
    let item_services = mem.read_u64(wadd(pawn, offsets.pawn.item_services));
    if item_services == 0 {
        return false;
    }
    mem.read_u8(wadd(item_services, offsets.item_service.has_helmet)) != 0
}

pub open spec fn spec_color(m: MemorySpace, off: Offsets, controller: u64) -> i32 {
    m.i32_at(wrap64(controller + off.controller.color))
}

pub fn get_color(mem: &MemorySpace, offsets: &Offsets, controller: u64) -> (r: i32)
    ensures
        r == spec_color(*mem, *offsets, controller),
{
    mem.read_i32(wadd(controller, offsets.controller.color))
}

pub open spec fn spec_position(m: MemorySpace, off: Offsets, pawn: u64) -> Vec3 {
    Vec3 {
        x: m.u32_at(wrap64(pawn + off.pawn.position)),
        y: m.u32_at(wrap64(wrap64(pawn + off.pawn.position) + 0x04)),
        z: m.u32_at(wrap64(wrap64(pawn + off.pawn.position) + 0x08)),
    }
}

pub fn get_position(mem: &MemorySpace, offsets: &Offsets, pawn: u64) -> (r: Vec3)
    ensures
        r == spec_position(*mem, *offsets, pawn),
{
    let position = wadd(pawn, offsets.pawn.position);
    Vec3 {
        x: mem.read_u32(position),
        y: mem.read_u32(wadd(position, 0x04)),
        z: mem.read_u32(wadd(position, 0x08)),
    }
}

pub open spec fn spec_rotation(m: MemorySpace, off: Offsets, pawn: u64) -> u32 {
    m.u32_at(wrap64(pawn + off.pawn.eye_angles + 0x04))
}

/// The facing angle's raw float bits.
pub fn get_rotation(mem: &MemorySpace, offsets: &Offsets, pawn: u64) -> (r: u32)
    ensures
        r == spec_rotation(*mem, *offsets, pawn),
{
    mem.read_u32(wadd(wadd(pawn, offsets.pawn.eye_angles), 0x04))
}

pub open spec fn spec_ping(m: MemorySpace, off: Offsets, controller: u64) -> i32 {
    m.i32_at(wrap64(controller + off.controller.ping))
}

pub fn get_ping(mem: &MemorySpace, offsets: &Offsets, controller: u64) -> (r: i32)
    ensures
        r == spec_ping(*mem, *offsets, controller),
{
    mem.read_i32(wadd(controller, offsets.controller.ping))
}

pub open spec fn spec_steam_id(m: MemorySpace, off: Offsets, controller: u64) -> u64 {
    m.u64_at(wrap64(controller + off.controller.steam_id))
}

pub fn get_steam_id(mem: &MemorySpace, offsets: &Offsets, controller: u64) -> (r: u64)
    ensures
        r == spec_steam_id(*mem, *offsets, controller),
{
    mem.read_u64(wadd(controller, offsets.controller.steam_id))
}

/// The pawn currently spectated from `pawn`, if any: observer services at
/// the pawn, a 0x7FFF-masked target handle, then the chunk/slot split.
pub open spec fn spec_spectator_target(m: MemorySpace, off: Offsets, pawn: u64) -> Option<u64> {
    let obs = m.u64_at(wrap64(pawn + off.pawn.observer_services));
    if obs == 0 {
        None
    } else {
        let target = m.u32_at(wrap64(obs + off.observer_service.target)) & 0x7fff;
        if target == 0 {
            None
        } else {
            let chunk = m.u64_at(wrap64(off.interface.player + 8 * ((target as u64) >> 9)));
            if chunk == 0 {
                None
            } else {
                let entity = m.u64_at(wrap64(chunk + 120 * ((target as u64) & 0x1ff)));
                if entity == 0 {
                    None
                } else {
                    Some(entity)
                }
            }
        }
    }
}

pub fn get_spectator_target(mem: &MemorySpace, offsets: &Offsets, pawn: u64) -> (r: Option<u64>)
    ensures
        r == spec_spectator_target(*mem, *offsets, pawn),
{
    let observer_services = mem.read_u64(wadd(pawn, offsets.pawn.observer_services));
    if observer_services == 0 {
        return None;
    }
    let target = mem.read_u32(wadd(observer_services, offsets.observer_service.target)) & 0x7fff;
    if target == 0 {
        return None;
    }
    proof {
        lemma_handle_bits(target as u64);
    }
    let chunk = mem.read_u64(wadd(offsets.interface.player, 8 * (target as u64 >> 9)));
    if chunk == 0 {
        return None;
    }
    let entity = mem.read_u64(wadd(chunk, 120 * (target as u64 & 0x1ff)));
    if entity == 0 {
        return None;
    }
    Some(entity)
}

// ---------------------------------------------------------------------------
// One full record.
// ---------------------------------------------------------------------------

/// The record built for a controller: `None` when its embodiment is
/// unresolved or its side is not a live one (1..=3); `active_player` always
/// starts false.
#[verifier::opaque]
pub open spec fn spec_player(m: MemorySpace, off: Offsets, controller: u64) -> Option<PlayerV> {
    match spec_pawn(m, off, controller) {
        None => None,
        Some(pawn) => {
            let team = spec_team(m, off, pawn);
            if !(1 <= team <= 3) {
                None
            } else {
                Some(
                    PlayerV {
                        name: spec_name(m, off, controller),
                        health: spec_health(m, off, pawn),
                        armor: spec_armor(m, off, pawn),
                        money: spec_money(m, off, controller),
                        team: team,
                        life_state: spec_life_state(m, off, pawn),
                        weapon: spec_weapon(m, off, pawn),
                        weapons: spec_weapons(m, off, pawn),
                        has_defuser: spec_defuser(m, off, pawn),
                        has_helmet: spec_helmet(m, off, pawn),
                        color: spec_color(m, off, controller),
                        position: spec_position(m, off, pawn),
                        rotation: spec_rotation(m, off, pawn),
                        ping: spec_ping(m, off, controller),
                        steam_id: spec_steam_id(m, off, controller),
                        active_player: false,
                    },
                )
            }
        },
    }
}

pub fn get_player(mem: &MemorySpace, offsets: &Offsets, controller: u64) -> (r: Option<Player>)
    ensures
        match r {
            Some(p) => spec_player(*mem, *offsets, controller) == Some(p@),
            None => spec_player(*mem, *offsets, controller) is None,
        },
{
    proof {
        reveal(spec_player);
    }
    let pawn = match get_pawn(mem, offsets, controller) {
        Some(p) => p,
        None => {
            return None;
        },
    };
    let team = get_team(mem, offsets, pawn);
    if !(1 <= team && team <= 3) {
        return None;
    }
    let player = Player {
        name: get_name(mem, offsets, controller),
        health: get_health(mem, offsets, pawn),
        armor: get_armor(mem, offsets, pawn),
        money: get_money(mem, offsets, controller),
        team: team,
        life_state: get_life_state(mem, offsets, pawn),
        weapon: get_weapon(mem, offsets, pawn),
        weapons: get_weapons(mem, offsets, pawn),
        has_defuser: get_defuser(mem, offsets, pawn),
        has_helmet: get_helmet(mem, offsets, pawn),
        color: get_color(mem, offsets, controller),
        position: get_position(mem, offsets, pawn),
        rotation: get_rotation(mem, offsets, pawn),
        ping: get_ping(mem, offsets, controller),
        steam_id: get_steam_id(mem, offsets, controller),
        active_player: false,
    };
    Some(player)
}

// ---------------------------------------------------------------------------
// Offset discovery: attach-time resolution of libraries, interfaces, the
// direct local-player pointer and the configuration object, followed by one
// descending scan of the client module for the schema table.
// ---------------------------------------------------------------------------

/// The byte pattern locating the local-player global pointer instruction.
pub open spec fn lp_pattern() -> Seq<u8> {
    seq![0x48u8, 0x83, 0x3D, 0x00, 0x00, 0x00, 0x00, 0x00, 0x0F, 0x95, 0xC0, 0xC3]
}

pub open spec fn lp_mask() -> Seq<u8> {
    "xxx????xxxxx".spec_bytes()
}

pub fn local_player_pattern() -> (v: Vec<u8>)
    ensures
        v@ == lp_pattern(),
{
    let mut v: Vec<u8> = Vec::new();
    v.push(0x48);
    v.push(0x83);
    v.push(0x3D);
    v.push(0x00);
    v.push(0x00);
    v.push(0x00);
    v.push(0x00);
    v.push(0x00);
    v.push(0x0F);
    v.push(0x95);
    v.push(0xC0);
    v.push(0xC3);
    proof {
        assert(v@ =~= lp_pattern());
    }
    v
}

/// The local-player pattern scan hits first at the address `v`.
pub open spec fn scan_local_player(m: MemorySpace, client: u64, v: u64) -> bool {
    let dump = dump_of(m, client);
    let plen = lp_pattern().len() as int;
    &&& lp_pattern().len() == lp_mask().len()
    &&& dump.len() >= 500
    &&& exists|i: int|
        {
            &&& 0 <= i < dump.len() - plen
            &&& #[trigger] mask_match(dump, lp_pattern(), lp_mask(), i)
            &&& forall|j: int| 0 <= j < i ==> !mask_match(dump, lp_pattern(), lp_mask(), j)
            &&& v == wrap64(client + i)
        }
}

/// What a failed local-player scan establishes: if the fixed pattern and
/// mask do have equal length and the dump is large enough, no position
/// matches.
pub open spec fn scan_local_player_missing(m: MemorySpace, client: u64) -> bool {
    let dump = dump_of(m, client);
    let plen = lp_pattern().len() as int;
    (lp_pattern().len() == lp_mask().len() && dump.len() >= 500) ==> forall|i: int|
        0 <= i < dump.len() - plen ==> !mask_match(dump, lp_pattern(), lp_mask(), i)
}

/// A scan slot denotes a schema-registration record: its content points
/// into the module, the pointed-to value points into the module again, and
/// the string there is the registration sentinel, case-insensitively.
pub open spec fn flag_slot(m: MemorySpace, base: u64, size: u64, i: int) -> bool {
    let p1 = m.u64_at(wrap64(base + i));
    &&& base <= p1 <= wrap64(base + size)
    &&& {
        let p2 = m.u64_at(p1 as int);
        &&& base <= p2 <= wrap64(base + size)
        &&& lower_of(m.cstr_at(p2 as int)) == lower_of("MNetworkEnable".spec_bytes())
    }
}

/// One rule fires when the decoded name matches, the flag requirement is
/// met, and its destination is still unset; it then stores the 32-bit value
/// at the rule's displacement, widened to 64 bits.
pub open spec fn apply_rule(
    m: MemorySpace,
    base: u64,
    i: int,
    name: Seq<u8>,
    flagged: bool,
    off: Offsets,
    r: RuleV,
) -> Offsets {
    if name == r.name && (flagged || !r.needs_flag) && spec_slot_get(off, r.slot) == 0 {
        spec_slot_set(off, r.slot, m.u32_at(wrap64(base + i + r.disp)) as u64)
    } else {
        off
    }
}

pub open spec fn apply_rules_from(
    m: MemorySpace,
    base: u64,
    i: int,
    name: Seq<u8>,
    flagged: bool,
    off: Offsets,
    rs: Seq<RuleV>,
) -> Offsets
    decreases rs.len(),
{
    if rs.len() == 0 {
        off
    } else {
        apply_rules_from(
            m,
            base,
            i,
            name,
            flagged,
            apply_rule(m, base, i, name, flagged, off, rs[0]),
            rs.drop_first(),
        )
    }
}

/// Processing of one scan slot: pick the name pointer (one word further in
/// for flagged slots), discard the slot if it points outside the module,
/// else dispatch the decoded name against the rule table.
#[verifier::opaque]
pub open spec fn scan_step(m: MemorySpace, base: u64, size: u64, off: Offsets, i: int) -> Offsets {
    let flagged = flag_slot(m, base, size, i);
    let np = if flagged {
        m.u64_at(wrap64(base + i + 8))
    } else {
        m.u64_at(wrap64(base + i))
    };
    if !(base <= np <= wrap64(base + size)) {
        off
    } else {
        apply_rules_from(m, base, i, m.cstr_at(np as int), flagged, off, spec_rules())
    }
}

/// The descending scan: slots are processed from `i` downward in 8-byte
/// steps; the instant the table is complete it is returned, and running
/// past the first slot is a discovery failure.
pub open spec fn scan_down(
    m: MemorySpace,
    base: u64,
    size: u64,
    off: Offsets,
    i: int,
) -> Option<Offsets>
    decreases i + 8,
{
    if i < 0 {
        None
    } else {
        let off2 = scan_step(m, base, size, off, i);
        if off2.spec_all_found() {
            Some(off2)
        } else {
            scan_down(m, base, size, off2, i - 8)
        }
    }
}

/// A rule application never overwrites a destination that is already set.
proof fn lemma_apply_rule_preserves(
    m: MemorySpace,
    base: u64,
    i: int,
    name: Seq<u8>,
    flagged: bool,
    off: Offsets,
    r: RuleV,
    s: FieldSlot,
)
    requires
        spec_slot_get(off, s) != 0,
    ensures
        spec_slot_get(apply_rule(m, base, i, name, flagged, off, r), s) == spec_slot_get(off, s),
{
}

proof fn lemma_apply_rules_preserve(
    m: MemorySpace,
    base: u64,
    i: int,
    name: Seq<u8>,
    flagged: bool,
    off: Offsets,
    rs: Seq<RuleV>,
    s: FieldSlot,
)
    requires
        spec_slot_get(off, s) != 0,
    ensures
        spec_slot_get(apply_rules_from(m, base, i, name, flagged, off, rs), s) == spec_slot_get(
            off,
            s,
        ),
    decreases rs.len(),
{
    if rs.len() > 0 {
        lemma_apply_rule_preserves(m, base, i, name, flagged, off, rs[0], s);
        lemma_apply_rules_preserve(
            m,
            base,
            i,
            name,
            flagged,
            apply_rule(m, base, i, name, flagged, off, rs[0]),
            rs.drop_first(),
            s,
        );
    }
}

/// Processing one scan slot never changes a destination that is already
/// set.
pub proof fn lemma_scan_step_preserves(
    m: MemorySpace,
    base: u64,
    size: u64,
    off: Offsets,
    i: int,
    s: FieldSlot,
)
    requires
        spec_slot_get(off, s) != 0,
    ensures
        spec_slot_get(scan_step(m, base, size, off, i), s) == spec_slot_get(off, s),
{
    reveal(scan_step);
    let flagged = flag_slot(m, base, size, i);
    let np = if flagged {
        m.u64_at(wrap64(base + i + 8))
    } else {
        m.u64_at(wrap64(base + i))
    };
    if base <= np <= wrap64(base + size) {
        lemma_apply_rules_preserve(m, base, i, m.cstr_at(np as int), flagged, off, spec_rules(), s);
    }
}

/// The descending scan is first-match-wins: whatever value the table
/// already carries in a destination — in particular one stored by a
/// higher-address slot — no later slot changes it, and a completed table
/// the scan returns still carries it.
pub proof fn lemma_scan_down_first_match_wins(
    m: MemorySpace,
    base: u64,
    size: u64,
    off: Offsets,
    i: int,
    s: FieldSlot,
    out: Offsets,
)
    requires
        spec_slot_get(off, s) != 0,
        scan_down(m, base, size, off, i) == Some(out),
    ensures
        spec_slot_get(out, s) == spec_slot_get(off, s),
    decreases i + 8,
{
    if i >= 0 {
        let off2 = scan_step(m, base, size, off, i);
        lemma_scan_step_preserves(m, base, size, off, i, s);
        if !off2.spec_all_found() {
            lemma_scan_down_first_match_wins(m, base, size, off2, i - 8, s, out);
        }
    }
}

/// The whole discovery scan over the client module, starting from the last
/// 8-byte slot of the dump.
pub open spec fn discovery_spec(m: MemorySpace, client: u64, off: Offsets) -> Option<Offsets> {
    let size = module_size_of(m, client);
    if size < 8 {
        None
    } else {
        scan_down(m, client, size, off, size - 8)
    }
}

/// The offset table as it stands right before the schema scan: libraries,
/// interface singletons, the direct pointer and the configuration object
/// resolved, every discoverable category still zero.
pub open spec fn seeded_offsets(
    client: u64,
    engine: u64,
    tier0: u64,
    resource: u64,
    local_player: u64,
    entity: u64,
    player: u64,
    cvar: u64,
    convar: u64,
) -> Offsets {
    Offsets {
        library: LibraryOffsets { client, engine, tier0 },
        interface: InterfaceOffsets { resource, entity, cvar, player },
        direct: DirectOffsets { local_player },
        convar: ConvarOffsets { teammates_are_enemies: convar },
        controller: offsets_zero().controller,
        pawn: offsets_zero().pawn,
        weapon_service: offsets_zero().weapon_service,
        money_service: offsets_zero().money_service,
        observer_service: offsets_zero().observer_service,
        item_service: offsets_zero().item_service,
    }
}

/// Attach-time resolution succeeded and produced exactly the seed table
/// `off`.
pub open spec fn attach_ok(
    m: MemorySpace,
    client: u64,
    engine: u64,
    tier0: u64,
    off: Offsets,
) -> bool {
    &&& interface_ok(m, engine, "GameResourceServiceClientV0".spec_bytes(), off.interface.resource)
    &&& exists|sr: u64|
        #[trigger] scan_local_player(m, client, sr) && off.direct.local_player == relative_spec(
            m,
            sr,
            0x03,
            0x08,
        )
    &&& off.interface.entity == m.u64_at(wrap64(off.interface.resource + ENTITY_OFFSET))
    &&& off.interface.player == wrap64(off.interface.entity + 0x10)
    &&& interface_ok(m, tier0, "VEngineCvar0".spec_bytes(), off.interface.cvar)
    &&& convar_found(
        m,
        off.interface.cvar,
        "mp_teammates_are_enemies".spec_bytes(),
        off.convar.teammates_are_enemies,
    )
    &&& off == seeded_offsets(
        client,
        engine,
        tier0,
        off.interface.resource,
        off.direct.local_player,
        off.interface.entity,
        off.interface.player,
        off.interface.cvar,
        off.convar.teammates_are_enemies,
    )
}

/// Attach-time resolution failed at one of its stages.
pub open spec fn attach_failed(m: MemorySpace, client: u64, engine: u64, tier0: u64) -> bool {
    ||| interface_missing(m, engine, "GameResourceServiceClientV0".spec_bytes())
    ||| scan_local_player_missing(m, client)
    ||| interface_missing(m, tier0, "VEngineCvar0".spec_bytes())
    ||| exists|cv: u64|
        #[trigger] interface_ok(m, tier0, "VEngineCvar0".spec_bytes(), cv) && convar_missing(
            m,
            cv,
            "mp_teammates_are_enemies".spec_bytes(),
        )
}

/// One slot of the descending scan, executably.
#[verifier::rlimit(100)]
fn scan_step_exec(
    mem: &MemorySpace,
    base: u64,
    size: u64,
    off: Offsets,
    i: u64,
    rules_vec: &Vec<Rule>,
) -> (r: Offsets)
    requires
        rules_vec@.map_values(|x: Rule| rule_view(x)) == spec_rules(),
    ensures
        r == scan_step(*mem, base, size, off, i as int),
{
    proof {
        reveal(scan_step);
    }
    let bound = wadd(base, size);
    let p1 = mem.read_u64(wadd(base, i));
    let mut flagged = false;
    if p1 >= base && p1 <= bound {
        let p2 = mem.read_u64(p1);
        if p2 >= base && p2 <= bound {
            let candidate = mem.read_cstr(p2);
            if bytes_eq_lower(candidate.as_slice(), "MNetworkEnable".as_bytes()) {
                flagged = true;
            }
        }
    }
    proof {
        assert(flagged == flag_slot(*mem, base, size, i as int));
    }
    let name_ptr = if flagged {
        mem.read_u64(wadd(wadd(base, i), 8))
    } else {
        mem.read_u64(wadd(base, i))
    };
    if name_ptr < base || name_ptr > bound {
        return off;
    }
    let name = mem.read_cstr(name_ptr);
    let mut updated = off;
    proof {
        assert(spec_rules().skip(0) =~= spec_rules());
    }
    let n = rules_vec.len();
    let mut k: usize = 0;
    while k < n
        invariant
            n == rules_vec@.len(),
            rules_vec@.map_values(|x: Rule| rule_view(x)) == spec_rules(),
            k <= n,
            name@ == mem.cstr_at(name_ptr as int),
            apply_rules_from(*mem, base, i as int, name@, flagged, off, spec_rules())
                == apply_rules_from(
                *mem,
                base,
                i as int,
                name@,
                flagged,
                updated,
                spec_rules().skip(k as int),
            ),
        decreases n - k,
    {
        let rule = &rules_vec[k];
        proof {
            assert(spec_rules()[k as int] == rule_view(rules_vec@[k as int]));
            assert(spec_rules().skip(k as int)[0] == spec_rules()[k as int]);
            assert(spec_rules().skip(k as int).drop_first() =~= spec_rules().skip(k as int + 1));
        }
        let ghost before = updated;
        if bytes_eq(name.as_slice(), rule.name.as_bytes()) {
            if (flagged || !rule.needs_flag) && slot_get(&updated, rule.slot) == 0 {
                let value = mem.read_u32(wadd(wadd(base, i), rule.disp));
                slot_set(&mut updated, rule.slot, value as u64);
            }
        }
        proof {
            assert(updated == apply_rule(
                *mem,
                base,
                i as int,
                name@,
                flagged,
                before,
                spec_rules()[k as int],
            ));
        }
        k = k + 1;
    }
    proof {
        assert(spec_rules().skip(n as int) =~= Seq::<RuleV>::empty());
    }
    updated
}

/// Locates the direct local-player global pointer: pattern scan over the
/// client module, then a RIP-relative decode at displacement 3 of the
/// matched instruction.
fn resolve_local_pointer(mem: &MemorySpace, client: u64) -> (r: Option<u64>)
    ensures
        match r {
            Some(lp) => exists|sr: u64|
                #[trigger] scan_local_player(*mem, client, sr) && lp == relative_spec(
                    *mem,
                    sr,
                    0x03,
                    0x08,
                ),
            None => scan_local_player_missing(*mem, client),
        },
{
    let pattern = local_player_pattern();
    let mask = "xxx????xxxxx".as_bytes();
    let local_scan = match mem.scan_pattern(pattern.as_slice(), mask, client) {
        Some(v) => v,
        None => {
            return None;
        },
    };
    proof {
        let dump = dump_of(*mem, client);
        let plen = pattern@.len() as int;
        assert(pattern@ == lp_pattern());
        assert(mask@ == lp_mask());
        let k = choose|i: int|
            {
                &&& 0 <= i < dump.len() - plen
                &&& #[trigger] mask_match(dump, pattern@, mask@, i)
                &&& forall|j: int| 0 <= j < i ==> !mask_match(dump, pattern@, mask@, j)
                &&& local_scan == wrap64(client + i)
            };
        assert(mask_match(dump, lp_pattern(), lp_mask(), k));
        assert forall|j: int| 0 <= j < k implies !mask_match(
            dump,
            lp_pattern(),
            lp_mask(),
            j,
        ) by {
            assert(!mask_match(dump, pattern@, mask@, j));
        }
        assert(scan_local_player(*mem, client, local_scan));
    }
    Some(mem.get_relative_address(local_scan, 0x03, 0x08))
}

/// Resolves everything the schema scan needs: interface singletons, the
/// direct local-player pointer and the configuration object.
#[verifier::rlimit(100)]
fn resolve_attach(mem: &MemorySpace, client: u64, engine: u64, tier0: u64) -> (r: Option<Offsets>)
    ensures
        match r {
            Some(off) => attach_ok(*mem, client, engine, tier0, off),
            None => attach_failed(*mem, client, engine, tier0),
        },
{
    let mut offsets = offsets_zero_exec();
    offsets.library.client = client;
    offsets.library.engine = engine;
    offsets.library.tier0 = tier0;

    let resource = match mem.get_interface_offset(engine, "GameResourceServiceClientV0") {
        Some(v) => v,
        None => {
            return None;
        },
    };
    offsets.interface.resource = resource;

    let local_player = match resolve_local_pointer(mem, client) {
        Some(v) => v,
        None => {
            return None;
        },
    };
    offsets.direct.local_player = local_player;

    let player_address = wadd(resource, ENTITY_OFFSET);
    offsets.interface.entity = mem.read_u64(player_address);
    offsets.interface.player = wadd(offsets.interface.entity, 0x10);

    let cvar = match mem.get_interface_offset(tier0, "VEngineCvar0") {
        Some(v) => v,
        None => {
            return None;
        },
    };
    offsets.interface.cvar = cvar;

    let convar = match mem.get_convar(&offsets, "mp_teammates_are_enemies") {
        Some(v) => v,
        None => {
            return None;
        },
    };
    offsets.convar.teammates_are_enemies = convar;

    proof {
        assert(offsets == seeded_offsets(
            client,
            engine,
            tier0,
            offsets.interface.resource,
            offsets.direct.local_player,
            offsets.interface.entity,
            offsets.interface.player,
            offsets.interface.cvar,
            offsets.convar.teammates_are_enemies,
        ));
    }
    Some(offsets)
}

/// Runs the whole attach: library bases in, complete offset table out, or
/// `None` when any resolution stage or the discovery scan fails.
pub fn find_offsets(
    mem: &MemorySpace,
    client_address: Option<u64>,
    engine_address: Option<u64>,
    tier0_address: Option<u64>,
) -> (r: Option<Offsets>)
    ensures
        match r {
            Some(off) => {
                &&& client_address is Some
                &&& engine_address is Some
                &&& tier0_address is Some
                &&& exists|seed: Offsets|
                    {
                        &&& #[trigger] attach_ok(
                            *mem,
                            client_address.unwrap(),
                            engine_address.unwrap(),
                            tier0_address.unwrap(),
                            seed,
                        )
                        &&& discovery_spec(*mem, client_address.unwrap(), seed) == Some(off)
                    }
            },
            None => {
                ||| client_address is None
                ||| engine_address is None
                ||| tier0_address is None
                ||| attach_failed(
                    *mem,
                    client_address.unwrap(),
                    engine_address.unwrap(),
                    tier0_address.unwrap(),
                )
                ||| exists|seed: Offsets|
                    #[trigger] attach_ok(
                        *mem,
                        client_address.unwrap(),
                        engine_address.unwrap(),
                        tier0_address.unwrap(),
                        seed,
                    ) && discovery_spec(*mem, client_address.unwrap(), seed) is None
            },
        },
{
    let client = match client_address {
        Some(v) => v,
        None => {
            return None;
        },
    };
    let engine = match engine_address {
        Some(v) => v,
        None => {
            return None;
        },
    };
    let tier0 = match tier0_address {
        Some(v) => v,
        None => {
            return None;
        },
    };
    let seed = match resolve_attach(mem, client, engine, tier0) {
        Some(off) => off,
        None => {
            return None;
        },
    };
    let rules_vec = rules();
    run_discovery(mem, client, &rules_vec, seed)
}

/// The descending schema scan itself, from the last 8-byte slot of the
/// client dump down to the first, stopping the instant the table is
/// complete.
fn run_discovery(mem: &MemorySpace, client: u64, rules_vec: &Vec<Rule>, seed: Offsets) -> (r:
    Option<Offsets>)
    requires
        rules_vec@.map_values(|x: Rule| rule_view(x)) == spec_rules(),
    ensures
        r == discovery_spec(*mem, client, seed),
{
    let client_module_size = mem.module_size(client);
    if client_module_size < 8 {
        return None;
    }
    let mut offsets = seed;
    let mut i: u64 = client_module_size - 8;
    loop
        invariant
            rules_vec@.map_values(|x: Rule| rule_view(x)) == spec_rules(),
            client_module_size == module_size_of(*mem, client),
            client_module_size >= 8,
            i <= client_module_size - 8,
            scan_down(*mem, client, client_module_size, seed, client_module_size - 8 as int)
                == scan_down(*mem, client, client_module_size, offsets, i as int),
        decreases i,
    {
        offsets = scan_step_exec(mem, client, client_module_size, offsets, i, &rules_vec);
        if offsets.all_found() {
            return Some(offsets);
        }
        if i < 8 {
            proof {
                assert(scan_down(*mem, client, client_module_size, offsets, i as int - 8)
                    is None);
            }
            return None;
        }
        i = i - 8;
    }
}

// ---------------------------------------------------------------------------
// Roster snapshot.
// ---------------------------------------------------------------------------

/// What roster handle `i` contributes: nothing when the handle does not
/// resolve, names the local controller, has no embodiment, or sits on a
/// non-playable side; otherwise one record, flagged active exactly when its
/// embodiment is the spectation target.
#[verifier::opaque]
pub open spec fn spec_roster_entry(
    m: MemorySpace,
    off: Offsets,
    local_controller: u64,
    target: Option<u64>,
    i: u64,
) -> Seq<PlayerV> {
    match spec_client_entity(m, off, i) {
        None => Seq::empty(),
        Some(controller) => {
            if controller == local_controller {
                Seq::empty()
            } else {
                match spec_pawn(m, off, controller) {
                    None => Seq::empty(),
                    Some(pawn) => match spec_player(m, off, controller) {
                        None => Seq::empty(),
                        Some(p) => {
                            if p.team != TEAM_T && p.team != TEAM_CT {
                                Seq::empty()
                            } else {
                                let active = target is Some && pawn == target.unwrap();
                                seq![PlayerV { active_player: active, ..p }]
                            }
                        },
                    },
                }
            }
        },
    }
}

pub open spec fn spec_roster_loop(
    m: MemorySpace,
    off: Offsets,
    local_controller: u64,
    target: Option<u64>,
    i: int,
) -> Seq<PlayerV>
    decreases 65 - i,
{
    if i < 1 || i >= 65 {
        Seq::empty()
    } else {
        spec_roster_entry(m, off, local_controller, target, i as u64) + spec_roster_loop(
            m,
            off,
            local_controller,
            target,
            i + 1,
        )
    }
}

/// The whole per-cycle snapshot: empty when the local participant cannot be
/// resolved; otherwise the roster records for handles 1..=64 in order, with
/// the local participant's record appended last when their side is
/// playable. The local record is active exactly when no spectation target
/// exists.
#[verifier::opaque]
pub open spec fn spec_player_info(m: MemorySpace, off: Offsets) -> Seq<PlayerV> {
    let lc = spec_local_controller(m, off);
    match spec_pawn(m, off, lc) {
        None => Seq::empty(),
        Some(local_pawn) => match spec_player(m, off, lc) {
            None => Seq::empty(),
            Some(lp) => {
                let target = spec_spectator_target(m, off, local_pawn);
                let listed = spec_roster_loop(m, off, lc, target, 1);
                let lp1 = PlayerV { active_player: target is None, ..lp };
                if lp1.team == TEAM_T || lp1.team == TEAM_CT {
                    listed + seq![lp1]
                } else {
                    listed
                }
            },
        },
    }
}

/// Resolves one roster handle to its record, already carrying its
/// active-observer flag.
#[verifier::rlimit(100)]
fn roster_entry_exec(
    mem: &MemorySpace,
    offsets: &Offsets,
    local_controller: u64,
    spectator_target: Option<u64>,
    i: u64,
) -> (r: Option<Player>)
    ensures
        match r {
            Some(p) => spec_roster_entry(*mem, *offsets, local_controller, spectator_target, i)
                == seq![p@],
            None => spec_roster_entry(*mem, *offsets, local_controller, spectator_target, i)
                == Seq::<PlayerV>::empty(),
        },
{
    proof {
        reveal(spec_roster_entry);
    }
    let controller = match get_client_entity(mem, offsets, i) {
        Some(controller) => controller,
        None => {
            return None;
        },
    };
    if controller == local_controller {
        return None;
    }
    let pawn = match get_pawn(mem, offsets, controller) {
        Some(pawn) => pawn,
        None => {
            return None;
        },
    };
    let mut player = match get_player(mem, offsets, controller) {
        Some(player) => player,
        None => {
            return None;
        },
    };
    if player.team != TEAM_T && player.team != TEAM_CT {
        return None;
    }
    let is_active = match spectator_target {
        Some(t) => pawn == t,
        None => false,
    };
    if is_active {
        player.active_player = true;
    }
    proof {
        reveal(spec_player);
        assert(spec_roster_entry(*mem, *offsets, local_controller, spectator_target, i)
            =~= seq![player@]);
    }
    Some(player)
}

/// Collects the records for roster handles 1..=64, in handle order.
#[verifier::rlimit(100)]
fn collect_roster(
    mem: &MemorySpace,
    offsets: &Offsets,
    local_controller: u64,
    spectator_target: Option<u64>,
) -> (r: Vec<Player>)
    ensures
        r@.map_values(|p: Player| p@) == spec_roster_loop(
            *mem,
            *offsets,
            local_controller,
            spectator_target,
            1,
        ),
{
    let mut players: Vec<Player> = Vec::new();
    let mut i: u64 = 1;
    proof {
        assert(players@.map_values(|p: Player| p@) =~= Seq::<PlayerV>::empty());
    }
    while i <= 64
        invariant
            1 <= i <= 65,
            players@.map_values(|p: Player| p@) + spec_roster_loop(
                *mem,
                *offsets,
                local_controller,
                spectator_target,
                i as int,
            ) == spec_roster_loop(*mem, *offsets, local_controller, spectator_target, 1),
        decreases 65 - i,
    {
        let ghost prev = players@.map_values(|p: Player| p@);
        let ghost entry = spec_roster_entry(
            *mem,
            *offsets,
            local_controller,
            spectator_target,
            i,
        );
        match roster_entry_exec(mem, offsets, local_controller, spectator_target, i) {
            Some(player) => {
                proof {
                    assert(players@.push(player).map_values(|p: Player| p@) =~= prev + entry);
                }
                players.push(player);
            },
            None => {
                proof {
                    assert(players@.map_values(|p: Player| p@) =~= prev + entry);
                }
            },
        }
        proof {
            assert(spec_roster_loop(*mem, *offsets, local_controller, spectator_target, i as int)
                == entry + spec_roster_loop(
                *mem,
                *offsets,
                local_controller,
                spectator_target,
                i as int + 1,
            ));
            assert((prev + entry) + spec_roster_loop(
                *mem,
                *offsets,
                local_controller,
                spectator_target,
                i as int + 1,
            ) =~= prev + (entry + spec_roster_loop(
                *mem,
                *offsets,
                local_controller,
                spectator_target,
                i as int + 1,
            )));
        }
        i = i + 1;
    }
    proof {
        assert(spec_roster_loop(*mem, *offsets, local_controller, spectator_target, 65)
            =~= Seq::<PlayerV>::empty());
        assert(players@.map_values(|p: Player| p@) + Seq::<PlayerV>::empty() =~= players@
            .map_values(|p: Player| p@));
    }
    players
}

/// Builds the immutable roster snapshot for this cycle.
#[verifier::rlimit(100)]
pub fn get_player_info(mem: &MemorySpace, offsets: &Offsets) -> (r: Vec<Player>)
    ensures
        r@.map_values(|p: Player| p@) == spec_player_info(*mem, *offsets),
{
    proof {
        reveal(spec_player_info);
    }
    let ghost empty_roster: Seq<PlayerV> = Seq::empty();
    let local_controller = get_local_controller(mem, offsets);
    let local_pawn = match get_pawn(mem, offsets, local_controller) {
        Some(pawn) => pawn,
        None => {
            let out: Vec<Player> = Vec::new();
            proof {
                assert(out@.map_values(|p: Player| p@) =~= empty_roster);
            }
            return out;
        },
    };
    let mut local_player = match get_player(mem, offsets, local_controller) {
        Some(player) => player,
        None => {
            let out: Vec<Player> = Vec::new();
            proof {
                assert(out@.map_values(|p: Player| p@) =~= empty_roster);
            }
            return out;
        },
    };
    let ghost local_record = local_player@;
    let spectator_target = get_spectator_target(mem, offsets, local_pawn);
    let mut players = collect_roster(mem, offsets, local_controller, spectator_target);
    if spectator_target.is_none() {
        local_player.active_player = true;
    }
    proof {
        reveal(spec_player);
        assert(local_player@ == PlayerV {
            active_player: spectator_target is None,
            ..local_record
        });
    }
    if local_player.team == TEAM_T || local_player.team == TEAM_CT {
        let ghost prev = players@.map_values(|p: Player| p@);
        proof {
            assert(players@.push(local_player).map_values(|p: Player| p@) =~= prev + seq![
                local_player@,
            ]);
        }
        players.push(local_player);
    }
    players
}

} // verus!
