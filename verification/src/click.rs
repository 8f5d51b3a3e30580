//! What a left click in the world does: the click goes through a fixed
//! order of claims (modal windows, pending casts, items, shops, NPCs,
//! attacks) and, when none takes it, becomes a walk.
use vstd::prelude::*;
use crate::app::{App, Combat, Pending};
use crate::combat::{AttackStep, attack_begun};
use crate::effects::{Effect, Packet};

verus! {

/// What a companion skill waiting for a click aims at.
#[derive(Clone, Copy, Debug, PartialEq, Eq, Structural)]
pub enum CompanionAim {
    Entity,
    SkillUnit,
    Ground,
}

/// A companion skill waiting for its target.
#[derive(Clone, Copy, Debug)]
pub struct CompanionSkillClick {
    pub is_mercenary: bool,
    pub skill: u16,
    pub level: u8,
    pub aim: CompanionAim,
}

/// A skill of the player waiting for its target, with what the skill tables
/// say of it.
#[derive(Clone, Copy, Debug)]
pub struct SkillClick {
    pub aim: CompanionAim,
    pub skill: u16,
    pub level: u8,
    /// Whether the skill can be used while hidden.
    pub allowed_while_hidden: bool,
    pub on_cooldown: bool,
    /// The skill's range in cells.
    pub range: i32,
    /// Whether the skill is the weapon repair, whose target is kept.
    pub is_repair: bool,
}

/// What the hovered entity is, for the attack rule.
#[derive(Clone, Copy, Debug, PartialEq, Eq, Structural)]
pub enum HoveredKind {
    Monster { is_pet: bool },
    /// Another player; `can_attack` says whether the map's rules allow it.
    Player { can_attack: bool },
    Other,
}

/// What the client knows at the moment of a left click.
#[derive(Clone, Copy, Debug)]
pub struct ClickContext {
    /// The pet's modal window or the marriage cursor took the click.
    pub consumed_by_modal: bool,
    /// An NPC dialog or shop is open.
    pub dialog_open: bool,
    /// The player holds an Auto Counter stance.
    pub in_autocounter: bool,
    /// A cast or a skill in progress blocks actions.
    pub casting_blocks: bool,
    /// The hovered target is the player sitting behind its own shop.
    pub own_shop_hovered: bool,
    pub hovered_chat_room: Option<u32>,
    /// A companion patrol waiting for its cell, by whether it is the mercenary's.
    pub companion_patrol: Option<bool>,
    pub companion_skill: Option<CompanionSkillClick>,
    pub hovered_cell: Option<(u16, u16)>,
    pub hovered_entity: Option<u32>,
    pub hovered_skill_unit: Option<u32>,
    pub shift: bool,
    pub ctrl: bool,
    /// The player cannot act (held, stoned, or behind a shop).
    pub incapacitated: bool,
    pub player_hidden: bool,
    pub player_cell: (u16, u16),
    pub skill: Option<SkillClick>,
    /// The hovered entity when it is a valid target of the waiting skill,
    /// with its cell.
    pub skill_target: Option<(u32, (u16, u16))>,
    /// The cell of the hovered skill unit, when it is known.
    pub skill_unit_cell: Option<(u16, u16)>,
    /// The hovered item on the ground, and whether it is still there.
    pub floor_item: Option<(u32, bool)>,
    /// Another player's shop under the cursor.
    pub vendor: Option<u32>,
    /// An NPC under the cursor.
    pub npc: Option<u32>,
    pub hovered_kind: HoveredKind,
    /// Locking on is off on this map.
    pub no_lockon: bool,
    /// The hovered entity's cell, and whether the player reaches it.
    pub entity_cell: Option<(u16, u16)>,
    pub entity_in_range: bool,
    /// Whether the player reaches the hovered skill unit.
    pub unit_in_range: bool,
    pub running: bool,
    /// Hiding keeps the player from walking.
    pub hide_move_blocked: bool,
    pub sitting: bool,
    /// The player's state while it cannot move yet, by the number the
    /// caller gives each state.
    pub move_locked_state: Option<u8>,
}

/// What a click comes to.
#[derive(Debug)]
pub enum ClickOutcome {
    /// Nothing happens.
    Ignored,
    DispelAutocounter,
    /// Our own shop closes with these effects.
    OwnShopClosed(Vec<Effect>),
    EnterChatRoom(u32),
    CompanionPatrol { is_mercenary: bool, x: u16, y: u16, reserved: bool },
    CompanionSkillArea { is_mercenary: bool, skill: u16, level: u8, x: u16, y: u16, reserved: bool },
    CompanionSkillObject { is_mercenary: bool, skill: u16, level: u8, target: u32, reserved: bool },
    /// The waiting skill is dropped: the player is hidden.
    SkillDropped,
    /// The waiting skill stays: it is cooling down.
    SkillCoolingDown,
    UseSkill { skill: u16, level: u8, target: u32, keep_repair_target: bool },
    /// Walk toward the skill's target; once the walk started the skill waits
    /// and the target is recorded (`approach_started`).
    SkillApproach { skill: u16, level: u8, target: u32, x: u16, y: u16, range: i32 },
    UseSkillOnUnit { skill: u16, level: u8, unit: u32 },
    SkillUnitApproach { skill: u16, level: u8, unit: u32, x: u16, y: u16, range: i32 },
    GroundCast { skill: u16, level: u8, x: u16, y: u16 },
    GroundApproach { skill: u16, level: u8, x: u16, y: u16, range: i32 },
    /// The waiting skill found no target and is dropped.
    SkillMissed,
    /// Walk to the item and pick it up, when it is still there.
    Pickup(Option<u32>),
    /// Pick nothing up: the player is hidden.
    PickupBlocked,
    BuyFromVendor(u32),
    ContactNpc(u32),
    Attack(AttackStep),
    /// The attack stopped (with the cancel effect, if any) and the player stays.
    Stay(Option<Effect>),
    /// The sitting player turns toward the cell.
    Turn { x: u16, y: u16, cancel: Option<Effect> },
    /// The move waits for the player's state to change.
    QueueMove(Option<Effect>),
    Walk { x: u16, y: u16, cancel: Option<Effect> },
}

/// The distance in cells (the larger of the two axes) between `a` and `b`.
pub open spec fn cell_distance(a: (u16, u16), b: (u16, u16)) -> int {
    let dx = if a.0 >= b.0 { a.0 - b.0 } else { b.0 - a.0 };
    let dy = if a.1 >= b.1 { a.1 - b.1 } else { b.1 - a.1 };
    if dx >= dy { dx } else { dy }
}

fn distance(a: (u16, u16), b: (u16, u16)) -> (d: u16)
    ensures
        d == cell_distance(a, b),
{
    let dx = if a.0 >= b.0 { a.0 - b.0 } else { b.0 - a.0 };
    let dy = if a.1 >= b.1 { a.1 - b.1 } else { b.1 - a.1 };
    if dx >= dy { dx } else { dy }
}

/// The hovered entity is to be attacked: a monster unless Shift is held or
/// it is a pet; a player the map lets us attack, when locking on is allowed
/// or Shift is held or no-shift mode is on.
pub open spec fn should_attack(a: App, c: ClickContext) -> bool {
    match c.hovered_kind {
        HoveredKind::Monster { is_pet } => !c.shift && !is_pet,
        HoveredKind::Player { can_attack } => can_attack && (!c.no_lockon || c.shift
            || a.prefs.noshift_mode),
        HoveredKind::Other => false,
    }
}

/// The state with the attack stopped, as `stop_attacking` leaves it, and the
/// effect it hands on.
pub open spec fn stopped(a: App) -> (App, Option<Effect>) {
    (
        App {
            combat: Combat { attack_target_id: None, attack_request_sent: false, ..a.combat },
            ..a
        },
        if a.combat.attack_request_sent {
            Some(Effect::Send(Packet::CancelLockon))
        } else {
            None
        },
    )
}

/// The state with no attack target.
pub open spec fn untargeted(a: App) -> App {
    App { combat: Combat { attack_target_id: None, ..a.combat }, ..a }
}

/// What the waiting skill `s` does with the click.
pub open spec fn skill_click(a: App, c: ClickContext, s: SkillClick, b: App, r: ClickOutcome) -> bool {
    if c.player_hidden && !s.allowed_while_hidden {
        b == a && r == ClickOutcome::SkillDropped
    } else if s.on_cooldown {
        b == a && r == ClickOutcome::SkillCoolingDown
    } else {
        match s.aim {
            CompanionAim::Entity => match c.skill_target {
                Some((id, cell)) => b == untargeted(a) && r == if cell_distance(c.player_cell, cell)
                    <= s.range {
                    ClickOutcome::UseSkill {
                        skill: s.skill,
                        level: s.level,
                        target: id,
                        keep_repair_target: s.is_repair,
                    }
                } else {
                    ClickOutcome::SkillApproach {
                        skill: s.skill,
                        level: s.level,
                        target: id,
                        x: cell.0,
                        y: cell.1,
                        range: s.range,
                    }
                },
                None => b == a && r == ClickOutcome::SkillMissed,
            },
            CompanionAim::SkillUnit => match (c.hovered_skill_unit, c.skill_unit_cell) {
                (Some(unit), Some(cell)) => b == untargeted(a) && r == if cell_distance(
                    c.player_cell,
                    cell,
                ) <= s.range {
                    ClickOutcome::UseSkillOnUnit { skill: s.skill, level: s.level, unit }
                } else {
                    ClickOutcome::SkillUnitApproach {
                        skill: s.skill,
                        level: s.level,
                        unit,
                        x: cell.0,
                        y: cell.1,
                        range: s.range,
                    }
                },
                _ => b == a && r == ClickOutcome::SkillMissed,
            },
            CompanionAim::Ground => b == untargeted(a) && r == match c.hovered_cell {
                Some(cell) => if cell_distance(c.player_cell, cell) <= s.range {
                    ClickOutcome::GroundCast { skill: s.skill, level: s.level, x: cell.0, y: cell.1 }
                } else {
                    ClickOutcome::GroundApproach {
                        skill: s.skill,
                        level: s.level,
                        x: cell.0,
                        y: cell.1,
                        range: s.range,
                    }
                },
                None => ClickOutcome::SkillMissed,
            },
        }
    }
}

/// What a click that no claim took does: the attack stops and the player
/// walks to the hovered cell, unless it is running, hiding, sitting (it
/// turns) or busy (the move waits).
pub open spec fn walk_click(a: App, c: ClickContext, b: App, r: ClickOutcome) -> bool {
    let (s, cancel) = stopped(a);
    if c.running || c.hide_move_blocked {
        b == s && r == ClickOutcome::Stay(cancel)
    } else {
        match c.hovered_cell {
            None => b == s && r == ClickOutcome::Stay(cancel),
            Some((x, y)) => if c.sitting {
                b == s && r == (ClickOutcome::Turn { x, y, cancel })
            } else {
                match c.move_locked_state {
                    Some(st) => b == (App {
                        combat: Combat {
                            queued_move: Some((x, y)),
                            queued_move_state: Some(st),
                            ..s.combat
                        },
                        ..s
                    }) && r == ClickOutcome::QueueMove(cancel),
                    None => b == s && r == (ClickOutcome::Walk { x, y, cancel }),
                }
            },
        }
    }
}

/// What a left click with context `c` leaves (`b`) of the state `a`, and
/// what it comes to (`r`): the first claim that takes the click decides.
pub open spec fn left_click_step(a: App, c: ClickContext, b: App, r: ClickOutcome) -> bool {
    if c.consumed_by_modal || c.dialog_open {
        b == a && r == ClickOutcome::Ignored
    } else if c.in_autocounter {
        b == a && r == ClickOutcome::DispelAutocounter
    } else if c.casting_blocks {
        b == a && r == ClickOutcome::Ignored
    } else if c.own_shop_hovered {
        b == (App { pending: Pending { shop_name: None, ..a.pending }, ..a }) && (r matches ClickOutcome::OwnShopClosed(v) && v@ == seq![Effect::Send(Packet::CloseStore), Effect::CloseOwnShop])
    } else if c.hovered_chat_room is Some {
        b == a && r == ClickOutcome::EnterChatRoom(c.hovered_chat_room->0)
    } else if c.companion_patrol is Some {
        b == a && r == match c.hovered_cell {
            Some((x, y)) => ClickOutcome::CompanionPatrol {
                is_mercenary: c.companion_patrol->0,
                x,
                y,
                reserved: c.shift,
            },
            None => ClickOutcome::Ignored,
        }
    } else if c.companion_skill is Some {
        let p = c.companion_skill->0;
        b == a && r == match p.aim {
            CompanionAim::Ground => match c.hovered_cell {
                Some((x, y)) => ClickOutcome::CompanionSkillArea {
                    is_mercenary: p.is_mercenary,
                    skill: p.skill,
                    level: p.level,
                    x,
                    y,
                    reserved: c.shift,
                },
                None => ClickOutcome::Ignored,
            },
            _ => match (if p.aim == CompanionAim::Entity {
                c.hovered_entity
            } else {
                c.hovered_skill_unit
            }) {
                Some(t) => ClickOutcome::CompanionSkillObject {
                    is_mercenary: p.is_mercenary,
                    skill: p.skill,
                    level: p.level,
                    target: t,
                    reserved: c.shift,
                },
                None => ClickOutcome::Ignored,
            },
        }
    } else if c.incapacitated {
        b == a && r == ClickOutcome::Ignored
    } else if c.skill is Some {
        skill_click(a, c, c.skill->0, b, r)
    } else if c.floor_item is Some {
        if c.player_hidden {
            b == a && r == ClickOutcome::PickupBlocked
        } else {
            let (id, there) = c.floor_item->0;
            b == untargeted(a) && r == ClickOutcome::Pickup(if there { Some(id) } else { None })
        }
    } else if c.vendor is Some {
        b == a && r == ClickOutcome::BuyFromVendor(c.vendor->0)
    } else if c.npc is Some {
        b == a && r == ClickOutcome::ContactNpc(c.npc->0)
    } else if c.hovered_entity is Some && should_attack(a, c) {
        r matches ClickOutcome::Attack(step) && attack_begun(
            a,
            b,
            step,
            c.hovered_entity->0,
            a.prefs.noctrl_mode || c.ctrl,
            c.player_hidden,
            c.entity_cell,
            c.entity_in_range,
        )
    } else if c.hovered_skill_unit is Some && a.trap_units@.contains_key(c.hovered_skill_unit->0) {
        r matches ClickOutcome::Attack(step) && attack_begun(
            a,
            b,
            step,
            c.hovered_skill_unit->0,
            a.prefs.noctrl_mode || c.ctrl,
            c.player_hidden,
            None,
            c.unit_in_range,
        )
    } else {
        walk_click(a, c, b, r)
    }
}

impl App {
    /// A left click in the world, as `left_click_step` says.
    pub fn handle_left_click(&mut self, click: &ClickContext) -> (r: ClickOutcome)
        ensures
            left_click_step(*old(self), *click, *final(self), r),
    {
        let c = *click;
        if c.consumed_by_modal || c.dialog_open {
            return ClickOutcome::Ignored;
        }
        if c.in_autocounter {
            return ClickOutcome::DispelAutocounter;
        }
        if c.casting_blocks {
            return ClickOutcome::Ignored;
        }
        if c.own_shop_hovered {
            return ClickOutcome::OwnShopClosed(self.close_own_shop());
        }
        if let Some(room) = c.hovered_chat_room {
            return ClickOutcome::EnterChatRoom(room);
        }
        if let Some(is_mercenary) = c.companion_patrol {
            return match c.hovered_cell {
                Some((x, y)) => ClickOutcome::CompanionPatrol { is_mercenary, x, y, reserved: c.shift },
                None => ClickOutcome::Ignored,
            };
        }
        if let Some(p) = c.companion_skill {
            return match p.aim {
                CompanionAim::Ground => match c.hovered_cell {
                    Some((x, y)) => ClickOutcome::CompanionSkillArea {
                        is_mercenary: p.is_mercenary,
                        skill: p.skill,
                        level: p.level,
                        x,
                        y,
                        reserved: c.shift,
                    },
                    None => ClickOutcome::Ignored,
                },
                _ => {
                    let target = if p.aim == CompanionAim::Entity {
                        c.hovered_entity
                    } else {
                        c.hovered_skill_unit
                    };
                    match target {
                        Some(t) => ClickOutcome::CompanionSkillObject {
                            is_mercenary: p.is_mercenary,
                            skill: p.skill,
                            level: p.level,
                            target: t,
                            reserved: c.shift,
                        },
                        None => ClickOutcome::Ignored,
                    }
                },
            };
        }
        if c.incapacitated {
            return ClickOutcome::Ignored;
        }
        if let Some(s) = c.skill {
            return self.skill_click(&c, s);
        }
        if let Some((id, there)) = c.floor_item {
            if c.player_hidden {
                return ClickOutcome::PickupBlocked;
            }
            self.combat.attack_target_id = None;
            return ClickOutcome::Pickup(if there { Some(id) } else { None });
        }
        if let Some(v) = c.vendor {
            return ClickOutcome::BuyFromVendor(v);
        }
        if let Some(n) = c.npc {
            return ClickOutcome::ContactNpc(n);
        }
        if let Some(id) = c.hovered_entity {
            let attack = match c.hovered_kind {
                HoveredKind::Monster { is_pet } => !c.shift && !is_pet,
                HoveredKind::Player { can_attack } => can_attack && (!c.no_lockon || c.shift
                    || self.prefs.noshift_mode),
                HoveredKind::Other => false,
            };
            if attack {
                let step = self.initiate_attack(id, c.ctrl, c.player_hidden, c.entity_cell, c.entity_in_range);
                return ClickOutcome::Attack(step);
            }
        }
        if let Some(unit) = c.hovered_skill_unit {
            if self.trap_units.contains_key(&unit) {
                let step = self.initiate_attack(unit, c.ctrl, c.player_hidden, None, c.unit_in_range);
                return ClickOutcome::Attack(step);
            }
        }
        let cancel = self.stop_attacking();
        if c.running || c.hide_move_blocked {
            return ClickOutcome::Stay(cancel);
        }
        let (x, y) = match c.hovered_cell {
            Some(cell) => cell,
            None => {
                return ClickOutcome::Stay(cancel);
            },
        };
        if c.sitting {
            return ClickOutcome::Turn { x, y, cancel };
        }
        match c.move_locked_state {
            Some(st) => {
                self.combat.queued_move = Some((x, y));
                self.combat.queued_move_state = Some(st);
                ClickOutcome::QueueMove(cancel)
            },
            None => ClickOutcome::Walk { x, y, cancel },
        }
    }

    fn skill_click(&mut self, c: &ClickContext, s: SkillClick) -> (r: ClickOutcome)
        ensures
            skill_click(*old(self), *c, s, *final(self), r),
    {
        if c.player_hidden && !s.allowed_while_hidden {
            return ClickOutcome::SkillDropped;
        }
        if s.on_cooldown {
            return ClickOutcome::SkillCoolingDown;
        }
        match s.aim {
            CompanionAim::Entity => match c.skill_target {
                Some((id, cell)) => {
                    self.combat.attack_target_id = None;
                    if (distance(c.player_cell, cell) as i32) <= s.range {
                        ClickOutcome::UseSkill {
                            skill: s.skill,
                            level: s.level,
                            target: id,
                            keep_repair_target: s.is_repair,
                        }
                    } else {
                        ClickOutcome::SkillApproach {
                            skill: s.skill,
                            level: s.level,
                            target: id,
                            x: cell.0,
                            y: cell.1,
                            range: s.range,
                        }
                    }
                },
                None => ClickOutcome::SkillMissed,
            },
            CompanionAim::SkillUnit => match (c.hovered_skill_unit, c.skill_unit_cell) {
                (Some(unit), Some(cell)) => {
                    self.combat.attack_target_id = None;
                    if (distance(c.player_cell, cell) as i32) <= s.range {
                        ClickOutcome::UseSkillOnUnit { skill: s.skill, level: s.level, unit }
                    } else {
                        ClickOutcome::SkillUnitApproach {
                            skill: s.skill,
                            level: s.level,
                            unit,
                            x: cell.0,
                            y: cell.1,
                            range: s.range,
                        }
                    }
                },
                _ => ClickOutcome::SkillMissed,
            },
            CompanionAim::Ground => {
                self.combat.attack_target_id = None;
                match c.hovered_cell {
                    Some(cell) => if (distance(c.player_cell, cell) as i32) <= s.range {
                        ClickOutcome::GroundCast { skill: s.skill, level: s.level, x: cell.0, y: cell.1 }
                    } else {
                        ClickOutcome::GroundApproach {
                            skill: s.skill,
                            level: s.level,
                            x: cell.0,
                            y: cell.1,
                            range: s.range,
                        }
                    },
                    None => ClickOutcome::SkillMissed,
                }
            },
        }
    }
}

} // verus!
