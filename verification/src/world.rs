//! Ground skill units, cutins and the per-entity reactions that only pick
//! what to change on the world.
use vstd::prelude::*;
use vstd::string::*;
use std::collections::HashMap;
use crate::app::{App, BossMark, Combat};
use crate::effects::{ChatKind, ChatLine, is_line};
use crate::effects::{Effect, ItemOp};

verus! {

broadcast use vstd::std_specs::hash::group_hash_axioms;

/// A ground skill unit the client tracks: a trap, or a unit that can be
/// attacked.
#[derive(Clone, Copy, Debug, PartialEq, Eq, Structural)]
pub struct TrapUnit {
    pub unit_id: u8,
    pub cell_x: i16,
    pub cell_y: i16,
}

/// The NPC cutin slot `position` names, if any.
pub open spec fn cutin_slot(position: u8) -> bool {
    position < 3
}

impl App {
    /// Records a ground skill unit. A unit re-announced at another cell
    /// (knocked back) has its model rebuilt, since the model bakes its
    /// position in.
    pub fn register_skill_unit(&mut self, aid: u32, unit: TrapUnit) -> (out: Option<Effect>)
        ensures
            *final(self) == (App { trap_units: final(self).trap_units, ..*old(self) }),
            final(self).trap_units@ == old(self).trap_units@.insert(aid, unit),
            out == if old(self).trap_units@.contains_key(aid) && (old(self).trap_units@[aid].cell_x
                != unit.cell_x || old(self).trap_units@[aid].cell_y != unit.cell_y) {
                Some(Effect::RemoveSkillUnitModel(aid))
            } else {
                None
            },
    {
        let moved = match self.trap_units.insert(aid, unit) {
            Some(previous) => previous.cell_x != unit.cell_x || previous.cell_y != unit.cell_y,
            None => false,
        };
        if moved {
            Some(Effect::RemoveSkillUnitModel(aid))
        } else {
            None
        }
    }

    /// A ground skill unit went away: its effect, its hits, traps, graffiti
    /// and talk-box bubble go with it, and it stops being the attack target.
    pub fn handle_skill_unit_disappeared(&mut self, aid: u32) -> (out: Vec<Effect>)
        ensures
            skill_unit_disappeared_step(*old(self), *final(self), aid, out@),
    {
        if self.combat.attack_target_id == Some(aid) {
            self.combat.attack_target_id = None;
        }
        self.trap_units.remove(&aid);
        self.hidden_traps.remove(&aid);
        vec![Effect::Despawn(aid), Effect::ForgetSkillUnit(aid)]
    }

    /// A hidden trap was revealed: it moves to the tracked units, so its
    /// ground model gets built.
    pub fn handle_skill_unit_updated(&mut self, gid: u32)
        ensures
            skill_unit_updated_step(*old(self), *final(self), gid),
    {
        if let Some(trap) = self.hidden_traps.remove(&gid) {
            self.trap_units.insert(gid, trap);
        }
    }

    /// A map cell's type changed.
    pub fn handle_map_cell_changed(x: i16, y: i16, cell_type: i32) -> (e: Effect)
        ensures
            map_cell_changed_step(x, y, cell_type, e),
    {
        Effect::SetCellType { x: x as i32, y: y as i32, cell_type }
    }

    /// The cell a swing at `target_id` aims at: the entity's own cell
    /// (`entity_cell`, when it is in view), else the cell of the ground skill
    /// unit standing in for it, clamped to the map's origin.
    pub fn attack_target_cell(&self, target_id: u32, entity_cell: Option<(u16, u16)>) -> (r: Option<
        (u16, u16),
    >)
        ensures
            r == match entity_cell {
                Some(c) => Some(c),
                None => if self.trap_units@.contains_key(target_id) {
                    let u = self.trap_units@[target_id];
                    Some(
                        (
                            if u.cell_x < 0 {
                                0u16
                            } else {
                                u.cell_x as u16
                            },
                            if u.cell_y < 0 {
                                0u16
                            } else {
                                u.cell_y as u16
                            },
                        ),
                    )
                } else {
                    None
                },
            },
    {
        if let Some(c) = entity_cell {
            return Some(c);
        }
        match self.trap_units.get(&target_id) {
            Some(u) => {
                let x: u16 = if u.cell_x < 0 {
                    0
                } else {
                    u.cell_x as u16
                };
                let y: u16 = if u.cell_y < 0 {
                    0
                } else {
                    u.cell_y as u16
                };
                Some((x, y))
            },
            None => None,
        }
    }

    /// Health of an entity: the local player's goes to the character sheet,
    /// anyone else's to the entity.
    pub fn handle_entity_hp_changed(&self, gid: u32, hp: u32, max_hp: u32) -> (e: Effect)
        ensures
            entity_hp_changed_step(*self, gid, hp, max_hp, e),
    {
        if self.player_id == Some(gid) {
            Effect::SetCharacterHp { hp, max_hp }
        } else {
            Effect::SetEntityHp { gid, hp, max_hp }
        }
    }

    /// A grip (blade stop and the like) pins the entity and stops it.
    pub fn apply_grip(gid: u32) -> (e: Effect)
        ensures
            e == Effect::Root(gid),
    {
        Effect::Root(gid)
    }

    /// The grip ends: the entity may move again and its forced pose ends.
    pub fn release_grip(gid: u32) -> (e: Effect)
        ensures
            e == Effect::Unroot(gid),
    {
        Effect::Unroot(gid)
    }

    /// The cart went away: it is emptied and closed, the character has no
    /// cart design any more, and the player's entity loses its cart.
    pub fn handle_cart_off(&self) -> (out: Vec<Effect>)
        ensures
            cart_off_step(*self, out@),
    {
        let mut out = vec![
            Effect::Items(ItemOp::CartClear),
            Effect::Items(ItemOp::CartClose),
            Effect::Items(ItemOp::CharacterCartDesign(None)),
        ];
        if let Some(p) = self.player_id {
            out.push(Effect::SetCartType { gid: p, design: None });
            out.push(Effect::DespawnCartVisual(p));
        }
        assert(out@.subrange(0, 3) =~= seq![
            Effect::Items(ItemOp::CartClear),
            Effect::Items(ItemOp::CartClose),
            Effect::Items(ItemOp::CharacterCartDesign(None)),
        ]);
        out
    }

    /// The push-cart status of an entity. Switched on, the entity gets the
    /// cart design `val1` (clamped to a byte) and its cart appears, and the
    /// local player's character records the design. Switched off, the local
    /// player's cart goes as on a cart-off; anyone else just loses the cart.
    pub fn handle_push_cart_status(&self, gid: u32, active: bool, val1: i32) -> (out: Vec<Effect>)
        ensures
            ({
                let design: u8 = if val1 < 0 {
                    0u8
                } else if val1 > 255 {
                    255u8
                } else {
                    val1 as u8
                };
                let is_player = self.player_id == Some(gid);
                if active {
                    &&& out@.subrange(0, 2) == seq![
                        Effect::SetCartType { gid, design: Some(design) },
                        Effect::SpawnCartVisual { gid, cart: design },
                    ]
                    &&& is_player ==> out@.len() == 3 && out@[2] == Effect::Items(
                        ItemOp::CharacterCartDesign(Some(design)),
                    )
                    &&& !is_player ==> out@.len() == 2
                } else if is_player {
                    &&& out@.len() == 5
                    &&& out@ == seq![
                        Effect::Items(ItemOp::CartClear),
                        Effect::Items(ItemOp::CartClose),
                        Effect::Items(ItemOp::CharacterCartDesign(None)),
                        Effect::SetCartType { gid, design: None },
                        Effect::DespawnCartVisual(gid),
                    ]
                } else {
                    out@ == seq![Effect::SetCartType { gid, design: None }, Effect::DespawnCartVisual(gid)]
                }
            }),
    {
        let is_player = self.player_id == Some(gid);
        if active {
            let design: u8 = if val1 < 0 {
                0
            } else if val1 > 255 {
                255
            } else {
                val1 as u8
            };
            let mut out = vec![
                Effect::SetCartType { gid, design: Some(design) },
                Effect::SpawnCartVisual { gid, cart: design },
            ];
            if is_player {
                out.push(Effect::Items(ItemOp::CharacterCartDesign(Some(design))));
            }
            assert(out@.subrange(0, 2) =~= seq![
                Effect::SetCartType { gid, design: Some(design) },
                Effect::SpawnCartVisual { gid, cart: design },
            ]);
            out
        } else if is_player {
            let out = self.handle_cart_off();
            assert(out@ =~= seq![
                Effect::Items(ItemOp::CartClear),
                Effect::Items(ItemOp::CartClose),
                Effect::Items(ItemOp::CharacterCartDesign(None)),
                Effect::SetCartType { gid, design: None },
                Effect::DespawnCartVisual(gid),
            ]);
            out
        } else {
            vec![Effect::SetCartType { gid, design: None }, Effect::DespawnCartVisual(gid)]
        }
    }

    /// Cart items taken out.
    pub fn handle_cart_item_removed(index: u16, count: i16) -> (e: Effect)
        ensures
            cart_item_removed_step(index, count, e),
    {
        Effect::Items(ItemOp::CartRemove { index, count })
    }

    /// The cart's weight and item counts.
    pub fn handle_cart_count_info(cur_weight: i32, max_weight: i32, cur_count: i16, max_count: i16) -> (e:
        Effect)
        ensures
            cart_count_info_step(cur_weight, max_weight, cur_count, max_count, e),
    {
        Effect::Items(ItemOp::CartCountInfo { cur_weight, max_weight, cur_count, max_count })
    }

    /// An NPC illustration. Position 255 clears every slot; an empty image
    /// clears its slot; otherwise the image takes the slot and its texture is
    /// preloaded. Positions past the last slot are ignored.
    pub fn handle_npc_cutin(&mut self, image: String, position: u8) -> (out: Option<Effect>)
        ensures
            npc_cutin_step(*old(self), *final(self), image, position, out),
    {
        if position == 255 {
            self.npc_cutins = [None, None, None];
            return None;
        }
        if position >= 3 {
            return None;
        }
        if image.unicode_len() == 0 {
            self.npc_cutins[position as usize] = None;
            return None;
        }
        let path = image.clone();
        self.npc_cutins[position as usize] = Some(image);
        Some(Effect::PreloadCutin(path))
    }
}

/// What the server says of the map's boss.
#[derive(Clone, Copy, Debug, PartialEq, Eq, Structural)]
pub enum BossInfoKind {
    Alive,
    /// Alive, and announced to the map.
    AliveAnnounced,
    NotOnMap,
    Dead,
}

impl App {
    /// News of the map's boss: while it is alive its cell and name are
    /// marked, otherwise the mark goes; the announcement (`line`, from the
    /// boss-news table, which has none for some news) is shown as a notice.
    pub fn handle_boss_info(&mut self, kind: BossInfoKind, x: u16, y: u16, name: String, line: Option<
        String,
    >) -> (out: Option<ChatLine>)
        ensures
            boss_info_step(*old(self), *final(self), kind, x, y, name, line, out),
    {
        match kind {
            BossInfoKind::Alive | BossInfoKind::AliveAnnounced => {
                self.boss_mark = Some(BossMark { x, y, name });
            },
            BossInfoKind::NotOnMap | BossInfoKind::Dead => {
                self.boss_mark = None;
            },
        }
        match line {
            Some(text) => Some(ChatLine { kind: ChatKind::Notice, text }),
            None => None,
        }
    }
}

/// What `handle_skill_unit_disappeared` leaves and hands on.
pub open spec fn skill_unit_disappeared_step(a: App, b: App, aid: u32, out: Seq<Effect>) -> bool {
    &&& b == (App {
                    trap_units: b.trap_units,
                    hidden_traps: b.hidden_traps,
                    combat: b.combat,
                    ..a
                })
    &&& b.combat == (Combat {
                    attack_target_id: b.combat.attack_target_id,
                    ..a.combat
                })
    &&& b.trap_units@ == a.trap_units@.remove(aid)
    &&& b.hidden_traps@ == a.hidden_traps@.remove(aid)
    &&& b.combat.attack_target_id == if a.combat.attack_target_id == Some(aid) {
                    None
                } else {
                    a.combat.attack_target_id
                }
    &&& out =~= seq![Effect::Despawn(aid), Effect::ForgetSkillUnit(aid)]
}

/// What `handle_skill_unit_updated` leaves and hands on.
pub open spec fn skill_unit_updated_step(a: App, b: App, gid: u32) -> bool {
    &&& b == (App {
                    trap_units: b.trap_units,
                    hidden_traps: b.hidden_traps,
                    ..a
                })
    &&& b.hidden_traps@ == a.hidden_traps@.remove(gid)
    &&& b.trap_units@ == if a.hidden_traps@.contains_key(gid) {
                    a.trap_units@.insert(gid, a.hidden_traps@[gid])
                } else {
                    a.trap_units@
                }
}

/// What `handle_map_cell_changed` gives.
pub open spec fn map_cell_changed_step(x: i16, y: i16, cell_type: i32, e: Effect) -> bool {
    &&& (e == (Effect::SetCellType { x: x as i32, y: y as i32, cell_type }))
}

/// What `handle_entity_hp_changed` gives.
pub open spec fn entity_hp_changed_step(a: App, gid: u32, hp: u32, max_hp: u32, e: Effect) -> bool {
    &&& (e == if a.player_id == Some(gid) {
                    Effect::SetCharacterHp { hp, max_hp }
                } else {
                    Effect::SetEntityHp { gid, hp, max_hp }
                })
}

/// What `handle_cart_off` gives.
pub open spec fn cart_off_step(a: App, out: Seq<Effect>) -> bool {
    &&& ((out).subrange(0, 3) == seq![
                    Effect::Items(ItemOp::CartClear),
                    Effect::Items(ItemOp::CartClose),
                    Effect::Items(ItemOp::CharacterCartDesign(None)),
                ])
    &&& (match a.player_id {
                    Some(p) => (out).len() == 5 && (out)[3] == (Effect::SetCartType { gid: p, design: None })
                        && (out)[4] == Effect::DespawnCartVisual(p),
                    None => (out).len() == 3,
                })
}

/// What `handle_cart_item_removed` gives.
pub open spec fn cart_item_removed_step(index: u16, count: i16, e: Effect) -> bool {
    &&& (e == Effect::Items(ItemOp::CartRemove { index, count }))
}

/// What `handle_cart_count_info` gives.
pub open spec fn cart_count_info_step(cur_weight: i32, max_weight: i32, cur_count: i16, max_count: i16, e: Effect) -> bool {
    &&& (e == Effect::Items(ItemOp::CartCountInfo { cur_weight, max_weight, cur_count, max_count }))
}

/// What `handle_npc_cutin` gives.
pub open spec fn npc_cutin_step(a: App, b: App, image: String, position: u8, out: Option<Effect>) -> bool {
    &&& (b == (App { npc_cutins: b.npc_cutins, ..a }))
    &&& (position == 255 ==> out is None && forall|i: int| 0 <= i < 3 ==> #[trigger] b.npc_cutins@[i] is None)
    &&& (position != 255 && !cutin_slot(position) ==> out is None && b.npc_cutins == a.npc_cutins)
    &&& (position != 255 && cutin_slot(position) && image@.len() == 0 ==> out is None
                    && b.npc_cutins@ == a.npc_cutins@.update(position as int, None))
    &&& (position != 255 && cutin_slot(position) && image@.len() > 0 ==> {
                    &&& out matches Some(Effect::PreloadCutin(p)) && p@ == image@
                    &&& b.npc_cutins@.len() == 3
                    &&& b.npc_cutins@[position as int] matches Some(s) && s@ == image@
                    &&& forall|i: int| 0 <= i < 3 && i != position ==> #[trigger] b.npc_cutins@[i]
                        == a.npc_cutins@[i]
                })
}

/// What `handle_boss_info` gives.
pub open spec fn boss_info_step(a: App, b: App, kind: BossInfoKind, x: u16, y: u16, name: String, line: Option< String, >, out: Option<ChatLine>) -> bool {
    &&& (b == (App { boss_mark: b.boss_mark, ..a }))
    &&& (kind == BossInfoKind::Alive || kind == BossInfoKind::AliveAnnounced ==> (b.boss_mark
                    matches Some(m) && m.x == x && m.y == y && m.name@ == name@))
    &&& (kind == BossInfoKind::NotOnMap || kind == BossInfoKind::Dead ==> b.boss_mark is None)
    &&& (line is None ==> out is None)
    &&& (line matches Some(l) ==> (out matches Some(c) && is_line(c, ChatKind::Notice, l@)))
}

} // verus!
