use vstd::prelude::*;
use vstd::string::StringSliceAdditionalSpecFns;

verus! {

// ---------------------------------------------------------------------------
// The offset table recovered once per attach. A category counts as resolved
// only when every one of its required fields is non-zero; the table as a
// whole is complete only when every category is resolved.
// ---------------------------------------------------------------------------

#[derive(Clone, Copy, Debug, PartialEq, Eq, Structural)]
pub struct InterfaceOffsets {
    pub resource: u64,
    pub entity: u64,
    pub cvar: u64,
    pub player: u64,
}

#[derive(Clone, Copy, Debug, PartialEq, Eq, Structural)]
pub struct DirectOffsets {
    pub local_player: u64,
}

#[derive(Clone, Copy, Debug, PartialEq, Eq, Structural)]
pub struct ConvarOffsets {
    pub teammates_are_enemies: u64,
}

#[derive(Clone, Copy, Debug, PartialEq, Eq, Structural)]
pub struct LibraryOffsets {
    pub client: u64,
    pub engine: u64,
    pub tier0: u64,
}

/// Field offsets of the participant-identity record.
#[derive(Clone, Copy, Debug, PartialEq, Eq, Structural)]
pub struct PlayerControllerOffsets {
    pub name: u64,
    pub pawn: u64,
    pub color: u64,
    pub ping: u64,
    pub money_services: u64,
    pub steam_id: u64,
}

impl PlayerControllerOffsets {
    /// The ping offset is recovered when present but not required for the
    /// category to count as resolved.
    pub open spec fn spec_all_found(self) -> bool {
        self.name != 0 && self.pawn != 0 && self.color != 0 && self.money_services != 0
            && self.steam_id != 0
    }

    pub fn all_found(&self) -> (r: bool)
        ensures
            r == self.spec_all_found(),
    {
        self.name != 0 && self.pawn != 0 && self.color != 0 && self.money_services != 0
            && self.steam_id != 0
    }
}

/// Field offsets of the physical-embodiment record.
#[derive(Clone, Copy, Debug, PartialEq, Eq, Structural)]
pub struct PawnOffsets {
    pub health: u64,
    pub armor: u64,
    pub team: u64,
    pub life_state: u64,
    pub weapon: u64,
    pub position: u64,
    pub eye_angles: u64,
    pub weapon_services: u64,
    pub observer_services: u64,
    pub item_services: u64,
}

impl PawnOffsets {
    pub open spec fn spec_all_found(self) -> bool {
        self.health != 0 && self.armor != 0 && self.team != 0 && self.life_state != 0
            && self.weapon != 0 && self.position != 0 && self.eye_angles != 0
            && self.weapon_services != 0 && self.observer_services != 0 && self.item_services != 0
    }

    pub fn all_found(&self) -> (r: bool)
        ensures
            r == self.spec_all_found(),
    {
        self.health != 0 && self.armor != 0 && self.team != 0 && self.life_state != 0
            && self.weapon != 0 && self.position != 0 && self.eye_angles != 0
            && self.weapon_services != 0 && self.observer_services != 0 && self.item_services != 0
    }
}

/// Field offsets of the weapon-holder record.
#[derive(Clone, Copy, Debug, PartialEq, Eq, Structural)]
pub struct WeaponServiceOffsets {
    pub active_weapon: u64,
    pub all_weapons: u64,
}

impl WeaponServiceOffsets {
    pub open spec fn spec_all_found(self) -> bool {
        self.active_weapon != 0 && self.all_weapons != 0
    }

    pub fn all_found(&self) -> (r: bool)
        ensures
            r == self.spec_all_found(),
    {
        self.active_weapon != 0 && self.all_weapons != 0
    }
}

/// Field offsets of the currency-holder record.
#[derive(Clone, Copy, Debug, PartialEq, Eq, Structural)]
pub struct MoneyServiceOffsets {
    pub money: u64,
}

impl MoneyServiceOffsets {
    pub open spec fn spec_all_found(self) -> bool {
        self.money != 0
    }

    pub fn all_found(&self) -> (r: bool)
        ensures
            r == self.spec_all_found(),
    {
        self.money != 0
    }
}

/// Field offsets of the spectation-holder record.
#[derive(Clone, Copy, Debug, PartialEq, Eq, Structural)]
pub struct ObserverServiceOffsets {
    pub target: u64,
}

impl ObserverServiceOffsets {
    pub open spec fn spec_all_found(self) -> bool {
        self.target != 0
    }

    pub fn all_found(&self) -> (r: bool)
        ensures
            r == self.spec_all_found(),
    {
        self.target != 0
    }
}

/// Field offsets of the inventory-flag record.
#[derive(Clone, Copy, Debug, PartialEq, Eq, Structural)]
pub struct ItemServiceOffsets {
    pub has_defuser: u64,
    pub has_helmet: u64,
}

impl ItemServiceOffsets {
    pub open spec fn spec_all_found(self) -> bool {
        self.has_defuser != 0 && self.has_helmet != 0
    }

    pub fn all_found(&self) -> (r: bool)
        ensures
            r == self.spec_all_found(),
    {
        self.has_defuser != 0 && self.has_helmet != 0
    }
}

#[derive(Clone, Copy, Debug, PartialEq, Eq, Structural)]
pub struct Offsets {
    pub interface: InterfaceOffsets,
    pub direct: DirectOffsets,
    pub convar: ConvarOffsets,
    pub library: LibraryOffsets,
    pub controller: PlayerControllerOffsets,
    pub pawn: PawnOffsets,
    pub weapon_service: WeaponServiceOffsets,
    pub money_service: MoneyServiceOffsets,
    pub observer_service: ObserverServiceOffsets,
    pub item_service: ItemServiceOffsets,
}

pub open spec fn offsets_zero() -> Offsets {
    Offsets {
        interface: InterfaceOffsets { resource: 0, entity: 0, cvar: 0, player: 0 },
        direct: DirectOffsets { local_player: 0 },
        convar: ConvarOffsets { teammates_are_enemies: 0 },
        library: LibraryOffsets { client: 0, engine: 0, tier0: 0 },
        controller: PlayerControllerOffsets {
            name: 0,
            pawn: 0,
            color: 0,
            ping: 0,
            money_services: 0,
            steam_id: 0,
        },
        pawn: PawnOffsets {
            health: 0,
            armor: 0,
            team: 0,
            life_state: 0,
            weapon: 0,
            position: 0,
            eye_angles: 0,
            weapon_services: 0,
            observer_services: 0,
            item_services: 0,
        },
        weapon_service: WeaponServiceOffsets { active_weapon: 0, all_weapons: 0 },
        money_service: MoneyServiceOffsets { money: 0 },
        observer_service: ObserverServiceOffsets { target: 0 },
        item_service: ItemServiceOffsets { has_defuser: 0, has_helmet: 0 },
    }
}

impl Default for Offsets {
    fn default() -> (r: Self)
        ensures
            r == offsets_zero(),
    {
        offsets_zero_exec()
    }
}

pub fn offsets_zero_exec() -> (r: Offsets)
    ensures
        r == offsets_zero(),
{
    Offsets {
        interface: InterfaceOffsets { resource: 0, entity: 0, cvar: 0, player: 0 },
        direct: DirectOffsets { local_player: 0 },
        convar: ConvarOffsets { teammates_are_enemies: 0 },
        library: LibraryOffsets { client: 0, engine: 0, tier0: 0 },
        controller: PlayerControllerOffsets {
            name: 0,
            pawn: 0,
            color: 0,
            ping: 0,
            money_services: 0,
            steam_id: 0,
        },
        pawn: PawnOffsets {
            health: 0,
            armor: 0,
            team: 0,
            life_state: 0,
            weapon: 0,
            position: 0,
            eye_angles: 0,
            weapon_services: 0,
            observer_services: 0,
            item_services: 0,
        },
        weapon_service: WeaponServiceOffsets { active_weapon: 0, all_weapons: 0 },
        money_service: MoneyServiceOffsets { money: 0 },
        observer_service: ObserverServiceOffsets { target: 0 },
        item_service: ItemServiceOffsets { has_defuser: 0, has_helmet: 0 },
    }
}

impl Offsets {
    pub open spec fn spec_all_found(self) -> bool {
        self.controller.spec_all_found() && self.pawn.spec_all_found()
            && self.weapon_service.spec_all_found() && self.money_service.spec_all_found()
            && self.observer_service.spec_all_found() && self.item_service.spec_all_found()
    }

    pub fn all_found(&self) -> (r: bool)
        ensures
            r == self.spec_all_found(),
    {
        self.controller.all_found() && self.pawn.all_found() && self.weapon_service.all_found()
            && self.money_service.all_found() && self.observer_service.all_found()
            && self.item_service.all_found()
    }
}

// ---------------------------------------------------------------------------
// The discovery rule table: which schema field name feeds which slot of the
// offset table, whether the slot only accepts a schema-registration record,
// and at which displacement from the matching scan slot the value is read.
// ---------------------------------------------------------------------------

/// A destination slot of the offset table that discovery can fill.
#[derive(Clone, Copy, Debug, PartialEq, Eq, Structural)]
pub enum FieldSlot {
    CtrlName,
    CtrlPawn,
    CtrlColor,
    CtrlPing,
    CtrlMoneyServices,
    CtrlSteamId,
    PawnHealth,
    PawnArmor,
    PawnTeam,
    PawnLifeState,
    PawnWeapon,
    PawnPosition,
    PawnEyeAngles,
    PawnWeaponServices,
    PawnObserverServices,
    PawnItemServices,
    WeaponActive,
    WeaponAll,
    MoneyAmount,
    ObserverTarget,
    ItemHasDefuser,
    ItemHasHelmet,
}

pub open spec fn spec_slot_get(o: Offsets, s: FieldSlot) -> u64 {
    match s {
        FieldSlot::CtrlName => o.controller.name,
        FieldSlot::CtrlPawn => o.controller.pawn,
        FieldSlot::CtrlColor => o.controller.color,
        FieldSlot::CtrlPing => o.controller.ping,
        FieldSlot::CtrlMoneyServices => o.controller.money_services,
        FieldSlot::CtrlSteamId => o.controller.steam_id,
        FieldSlot::PawnHealth => o.pawn.health,
        FieldSlot::PawnArmor => o.pawn.armor,
        FieldSlot::PawnTeam => o.pawn.team,
        FieldSlot::PawnLifeState => o.pawn.life_state,
        FieldSlot::PawnWeapon => o.pawn.weapon,
        FieldSlot::PawnPosition => o.pawn.position,
        FieldSlot::PawnEyeAngles => o.pawn.eye_angles,
        FieldSlot::PawnWeaponServices => o.pawn.weapon_services,
        FieldSlot::PawnObserverServices => o.pawn.observer_services,
        FieldSlot::PawnItemServices => o.pawn.item_services,
        FieldSlot::WeaponActive => o.weapon_service.active_weapon,
        FieldSlot::WeaponAll => o.weapon_service.all_weapons,
        FieldSlot::MoneyAmount => o.money_service.money,
        FieldSlot::ObserverTarget => o.observer_service.target,
        FieldSlot::ItemHasDefuser => o.item_service.has_defuser,
        FieldSlot::ItemHasHelmet => o.item_service.has_helmet,
    }
}

pub open spec fn spec_slot_set(o: Offsets, s: FieldSlot, v: u64) -> Offsets {
    match s {
        FieldSlot::CtrlName => Offsets {
            controller: PlayerControllerOffsets { name: v, ..o.controller },
            ..o
        },
        FieldSlot::CtrlPawn => Offsets {
            controller: PlayerControllerOffsets { pawn: v, ..o.controller },
            ..o
        },
        FieldSlot::CtrlColor => Offsets {
            controller: PlayerControllerOffsets { color: v, ..o.controller },
            ..o
        },
        FieldSlot::CtrlPing => Offsets {
            controller: PlayerControllerOffsets { ping: v, ..o.controller },
            ..o
        },
        FieldSlot::CtrlMoneyServices => Offsets {
            controller: PlayerControllerOffsets { money_services: v, ..o.controller },
            ..o
        },
        FieldSlot::CtrlSteamId => Offsets {
            controller: PlayerControllerOffsets { steam_id: v, ..o.controller },
            ..o
        },
        FieldSlot::PawnHealth => Offsets { pawn: PawnOffsets { health: v, ..o.pawn }, ..o },
        FieldSlot::PawnArmor => Offsets { pawn: PawnOffsets { armor: v, ..o.pawn }, ..o },
        FieldSlot::PawnTeam => Offsets { pawn: PawnOffsets { team: v, ..o.pawn }, ..o },
        FieldSlot::PawnLifeState => Offsets { pawn: PawnOffsets { life_state: v, ..o.pawn }, ..o },
        FieldSlot::PawnWeapon => Offsets { pawn: PawnOffsets { weapon: v, ..o.pawn }, ..o },
        FieldSlot::PawnPosition => Offsets { pawn: PawnOffsets { position: v, ..o.pawn }, ..o },
        FieldSlot::PawnEyeAngles => Offsets { pawn: PawnOffsets { eye_angles: v, ..o.pawn }, ..o },
        FieldSlot::PawnWeaponServices => Offsets {
            pawn: PawnOffsets { weapon_services: v, ..o.pawn },
            ..o
        },
        FieldSlot::PawnObserverServices => Offsets {
            pawn: PawnOffsets { observer_services: v, ..o.pawn },
            ..o
        },
        FieldSlot::PawnItemServices => Offsets {
            pawn: PawnOffsets { item_services: v, ..o.pawn },
            ..o
        },
        FieldSlot::WeaponActive => Offsets {
            weapon_service: WeaponServiceOffsets { active_weapon: v, ..o.weapon_service },
            ..o
        },
        FieldSlot::WeaponAll => Offsets {
            weapon_service: WeaponServiceOffsets { all_weapons: v, ..o.weapon_service },
            ..o
        },
        FieldSlot::MoneyAmount => Offsets {
            money_service: MoneyServiceOffsets { money: v },
            ..o
        },
        FieldSlot::ObserverTarget => Offsets {
            observer_service: ObserverServiceOffsets { target: v },
            ..o
        },
        FieldSlot::ItemHasDefuser => Offsets {
            item_service: ItemServiceOffsets { has_defuser: v, ..o.item_service },
            ..o
        },
        FieldSlot::ItemHasHelmet => Offsets {
            item_service: ItemServiceOffsets { has_helmet: v, ..o.item_service },
            ..o
        },
    }
}

pub fn slot_get(o: &Offsets, s: FieldSlot) -> (r: u64)
    ensures
        r == spec_slot_get(*o, s),
{
    match s {
        FieldSlot::CtrlName => o.controller.name,
        FieldSlot::CtrlPawn => o.controller.pawn,
        FieldSlot::CtrlColor => o.controller.color,
        FieldSlot::CtrlPing => o.controller.ping,
        FieldSlot::CtrlMoneyServices => o.controller.money_services,
        FieldSlot::CtrlSteamId => o.controller.steam_id,
        FieldSlot::PawnHealth => o.pawn.health,
        FieldSlot::PawnArmor => o.pawn.armor,
        FieldSlot::PawnTeam => o.pawn.team,
        FieldSlot::PawnLifeState => o.pawn.life_state,
        FieldSlot::PawnWeapon => o.pawn.weapon,
        FieldSlot::PawnPosition => o.pawn.position,
        FieldSlot::PawnEyeAngles => o.pawn.eye_angles,
        FieldSlot::PawnWeaponServices => o.pawn.weapon_services,
        FieldSlot::PawnObserverServices => o.pawn.observer_services,
        FieldSlot::PawnItemServices => o.pawn.item_services,
        FieldSlot::WeaponActive => o.weapon_service.active_weapon,
        FieldSlot::WeaponAll => o.weapon_service.all_weapons,
        FieldSlot::MoneyAmount => o.money_service.money,
        FieldSlot::ObserverTarget => o.observer_service.target,
        FieldSlot::ItemHasDefuser => o.item_service.has_defuser,
        FieldSlot::ItemHasHelmet => o.item_service.has_helmet,
    }
}

pub fn slot_set(o: &mut Offsets, s: FieldSlot, v: u64)
    ensures
        *final(o) == spec_slot_set(*old(o), s, v),
{
    match s {
        FieldSlot::CtrlName => o.controller.name = v,
        FieldSlot::CtrlPawn => o.controller.pawn = v,
        FieldSlot::CtrlColor => o.controller.color = v,
        FieldSlot::CtrlPing => o.controller.ping = v,
        FieldSlot::CtrlMoneyServices => o.controller.money_services = v,
        FieldSlot::CtrlSteamId => o.controller.steam_id = v,
        FieldSlot::PawnHealth => o.pawn.health = v,
        FieldSlot::PawnArmor => o.pawn.armor = v,
        FieldSlot::PawnTeam => o.pawn.team = v,
        FieldSlot::PawnLifeState => o.pawn.life_state = v,
        FieldSlot::PawnWeapon => o.pawn.weapon = v,
        FieldSlot::PawnPosition => o.pawn.position = v,
        FieldSlot::PawnEyeAngles => o.pawn.eye_angles = v,
        FieldSlot::PawnWeaponServices => o.pawn.weapon_services = v,
        FieldSlot::PawnObserverServices => o.pawn.observer_services = v,
        FieldSlot::PawnItemServices => o.pawn.item_services = v,
        FieldSlot::WeaponActive => o.weapon_service.active_weapon = v,
        FieldSlot::WeaponAll => o.weapon_service.all_weapons = v,
        FieldSlot::MoneyAmount => o.money_service.money = v,
        FieldSlot::ObserverTarget => o.observer_service.target = v,
        FieldSlot::ItemHasDefuser => o.item_service.has_defuser = v,
        FieldSlot::ItemHasHelmet => o.item_service.has_helmet = v,
    }
}

/// One discovery rule: the schema field name to look for, whether the slot
/// must denote a schema-registration record, the destination in the offset
/// table, and the displacement of the 32-bit value to recover.
pub struct Rule {
    pub name: &'static str,
    pub needs_flag: bool,
    pub slot: FieldSlot,
    pub disp: u64,
}

/// Ghost image of a rule, with the name as its raw bytes.
pub ghost struct RuleV {
    pub name: Seq<u8>,
    pub needs_flag: bool,
    pub slot: FieldSlot,
    pub disp: u64,
}

pub open spec fn rule_view(r: Rule) -> RuleV {
    RuleV { name: r.name.spec_bytes(), needs_flag: r.needs_flag, slot: r.slot, disp: r.disp }
}

#[verifier::opaque]
pub open spec fn spec_rules() -> Seq<RuleV> {
    seq![
        RuleV {
            name: "m_sSanitizedPlayerName".spec_bytes(),
            needs_flag: true,
            slot: FieldSlot::CtrlName,
            disp: 0x18,
        },
        RuleV {
            name: "m_hPawn".spec_bytes(),
            needs_flag: true,
            slot: FieldSlot::CtrlPawn,
            disp: 0x18,
        },
        RuleV {
            name: "m_iCompTeammateColor".spec_bytes(),
            needs_flag: false,
            slot: FieldSlot::CtrlColor,
            disp: 0x10,
        },
        RuleV {
            name: "m_iPing".spec_bytes(),
            needs_flag: true,
            slot: FieldSlot::CtrlPing,
            disp: 0x18,
        },
        RuleV {
            name: "m_pInGameMoneyServices".spec_bytes(),
            needs_flag: false,
            slot: FieldSlot::CtrlMoneyServices,
            disp: 0x10,
        },
        RuleV {
            name: "m_steamID".spec_bytes(),
            needs_flag: true,
            slot: FieldSlot::CtrlSteamId,
            disp: 0x18,
        },
        RuleV {
            name: "m_iHealth".spec_bytes(),
            needs_flag: true,
            slot: FieldSlot::PawnHealth,
            disp: 0x18,
        },
        RuleV {
            name: "m_ArmorValue".spec_bytes(),
            needs_flag: true,
            slot: FieldSlot::PawnArmor,
            disp: 0x18,
        },
        RuleV {
            name: "m_iTeamNum".spec_bytes(),
            needs_flag: true,
            slot: FieldSlot::PawnTeam,
            disp: 0x18,
        },
        RuleV {
            name: "m_lifeState".spec_bytes(),
            needs_flag: true,
            slot: FieldSlot::PawnLifeState,
            disp: 0x18,
        },
        RuleV {
            name: "m_pClippingWeapon".spec_bytes(),
            needs_flag: false,
            slot: FieldSlot::PawnWeapon,
            disp: 0x10,
        },
        RuleV {
            name: "m_vOldOrigin".spec_bytes(),
            needs_flag: false,
            slot: FieldSlot::PawnPosition,
            disp: 0x08,
        },
        RuleV {
            name: "m_angEyeAngles".spec_bytes(),
            needs_flag: false,
            slot: FieldSlot::PawnEyeAngles,
            disp: 0x10,
        },
        RuleV {
            name: "m_pWeaponServices".spec_bytes(),
            needs_flag: false,
            slot: FieldSlot::PawnWeaponServices,
            disp: 0x08,
        },
        RuleV {
            name: "m_pObserverServices".spec_bytes(),
            needs_flag: false,
            slot: FieldSlot::PawnObserverServices,
            disp: 0x08,
        },
        RuleV {
            name: "m_pItemServices".spec_bytes(),
            needs_flag: false,
            slot: FieldSlot::PawnItemServices,
            disp: 0x08,
        },
        RuleV {
            name: "m_hActiveWeapon".spec_bytes(),
            needs_flag: true,
            slot: FieldSlot::WeaponActive,
            disp: 0x18,
        },
        RuleV {
            name: "m_hMyWeapons".spec_bytes(),
            needs_flag: false,
            slot: FieldSlot::WeaponAll,
            disp: 0x08,
        },
        RuleV {
            name: "m_iAccount".spec_bytes(),
            needs_flag: false,
            slot: FieldSlot::MoneyAmount,
            disp: 0x10,
        },
        RuleV {
            name: "m_hObserverTarget".spec_bytes(),
            needs_flag: false,
            slot: FieldSlot::ObserverTarget,
            disp: 0x08,
        },
        RuleV {
            name: "m_bHasDefuser".spec_bytes(),
            needs_flag: false,
            slot: FieldSlot::ItemHasDefuser,
            disp: 0x10,
        },
        RuleV {
            name: "m_bHasHelmet".spec_bytes(),
            needs_flag: true,
            slot: FieldSlot::ItemHasHelmet,
            disp: 0x18,
        },
    ]
}

/// The discovery rule table, in dispatch order.
pub fn rules() -> (r: Vec<Rule>)
    ensures
        r@.map_values(|x: Rule| rule_view(x)) == spec_rules(),
{
    let mut v: Vec<Rule> = Vec::new();
    v.push(Rule { name: "m_sSanitizedPlayerName", needs_flag: true, slot: FieldSlot::CtrlName, disp: 0x18 });
    v.push(Rule { name: "m_hPawn", needs_flag: true, slot: FieldSlot::CtrlPawn, disp: 0x18 });
    v.push(Rule { name: "m_iCompTeammateColor", needs_flag: false, slot: FieldSlot::CtrlColor, disp: 0x10 });
    v.push(Rule { name: "m_iPing", needs_flag: true, slot: FieldSlot::CtrlPing, disp: 0x18 });
    v.push(Rule { name: "m_pInGameMoneyServices", needs_flag: false, slot: FieldSlot::CtrlMoneyServices, disp: 0x10 });
    v.push(Rule { name: "m_steamID", needs_flag: true, slot: FieldSlot::CtrlSteamId, disp: 0x18 });
    v.push(Rule { name: "m_iHealth", needs_flag: true, slot: FieldSlot::PawnHealth, disp: 0x18 });
    v.push(Rule { name: "m_ArmorValue", needs_flag: true, slot: FieldSlot::PawnArmor, disp: 0x18 });
    v.push(Rule { name: "m_iTeamNum", needs_flag: true, slot: FieldSlot::PawnTeam, disp: 0x18 });
    v.push(Rule { name: "m_lifeState", needs_flag: true, slot: FieldSlot::PawnLifeState, disp: 0x18 });
    v.push(Rule { name: "m_pClippingWeapon", needs_flag: false, slot: FieldSlot::PawnWeapon, disp: 0x10 });
    v.push(Rule { name: "m_vOldOrigin", needs_flag: false, slot: FieldSlot::PawnPosition, disp: 0x08 });
    v.push(Rule { name: "m_angEyeAngles", needs_flag: false, slot: FieldSlot::PawnEyeAngles, disp: 0x10 });
    v.push(Rule { name: "m_pWeaponServices", needs_flag: false, slot: FieldSlot::PawnWeaponServices, disp: 0x08 });
    v.push(Rule { name: "m_pObserverServices", needs_flag: false, slot: FieldSlot::PawnObserverServices, disp: 0x08 });
    v.push(Rule { name: "m_pItemServices", needs_flag: false, slot: FieldSlot::PawnItemServices, disp: 0x08 });
    v.push(Rule { name: "m_hActiveWeapon", needs_flag: true, slot: FieldSlot::WeaponActive, disp: 0x18 });
    v.push(Rule { name: "m_hMyWeapons", needs_flag: false, slot: FieldSlot::WeaponAll, disp: 0x08 });
    v.push(Rule { name: "m_iAccount", needs_flag: false, slot: FieldSlot::MoneyAmount, disp: 0x10 });
    v.push(Rule { name: "m_hObserverTarget", needs_flag: false, slot: FieldSlot::ObserverTarget, disp: 0x08 });
    v.push(Rule { name: "m_bHasDefuser", needs_flag: false, slot: FieldSlot::ItemHasDefuser, disp: 0x10 });
    v.push(Rule { name: "m_bHasHelmet", needs_flag: true, slot: FieldSlot::ItemHasHelmet, disp: 0x18 });
    proof {
        reveal(spec_rules);
        assert(v@.map_values(|x: Rule| rule_view(x)) =~= spec_rules());
    }
    v
}

} // verus!
