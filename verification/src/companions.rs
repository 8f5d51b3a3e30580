//! Homunculus and mercenary bookkeeping: which companions are present, and
//! the targets and move markers shown for their orders.
use vstd::prelude::*;
use vstd::string::*;
use crate::app::{App, EntitySnapshot};
use crate::effects::{Effect, WindowId};
use crate::notice::{MSI_NOT_EXIST_PET_FOOD, TextColor};
use crate::shops::item_label;
use crate::text::push_decimal;

verus! {

/// A companion as the client keeps it.
#[derive(Clone, Copy, Debug, PartialEq, Eq, Structural)]
pub struct Companion {
    /// The companion's entity id; 0 until it has been seen.
    pub gid: u32,
    /// A vaporized homunculus rests and takes no orders.
    pub vaporized: bool,
    /// Whether its AI is patrolling.
    pub patrolling: bool,
    /// How much the homunculus likes its owner.
    pub intimacy: i16,
    /// How full the homunculus is.
    pub hunger: i16,
}

/// A homunculus first heard of, with entity id `gid`.
pub open spec fn fresh_homunculus(gid: u32) -> Companion {
    Companion { gid, vaporized: false, patrolling: false, intimacy: 0, hunger: 0 }
}

/// The homunculus after a state report: the acknowledgement (0) gives its
/// entity id and wakes it (or introduces it); intimacy (1) and hunger (2)
/// update those meters of a known homunculus; anything else changes
/// nothing.
pub open spec fn homunculus_after_state(h: Option<Companion>, state: i8, gid: u32, data: i32) -> Option<
    Companion,
> {
    if state == 0 {
        Some(
            match h {
                Some(c) => Companion { gid, vaporized: false, ..c },
                None => fresh_homunculus(gid),
            },
        )
    } else if state == 1 {
        match h {
            Some(c) => Some(Companion { intimacy: data as i16, ..c }),
            None => None,
        }
    } else if state == 2 {
        match h {
            Some(c) => Some(Companion { hunger: data as i16, ..c }),
            None => None,
        }
    } else {
        h
    }
}

/// The companions and the markers of their pending orders; index 0 is the
/// homunculus, 1 the mercenary.
#[derive(Debug)]
pub struct Companions {
    pub homunculus: Option<Companion>,
    pub mercenary: Option<Companion>,
    /// The attack target shown for each companion's order.
    pub attack_target: [Option<u32>; 2],
    /// The cell each companion was ordered to.
    pub move_marker: [Option<(i32, i32)>; 2],
}

/// A companion skill as the skill window lists it.
#[derive(Clone, Copy, Debug, PartialEq, Eq, Structural)]
pub struct CompanionSkill {
    pub id: u16,
    pub level: i16,
    pub sp_cost: i16,
    pub attack_range: i16,
    pub upgradable: bool,
}

pub open spec fn spec_has_homunculus(c: Companions) -> bool {
    c.homunculus matches Some(h) && !h.vaporized && h.gid != 0
}

pub open spec fn spec_has_mercenary(c: Companions) -> bool {
    c.mercenary matches Some(m) && m.gid != 0
}

pub open spec fn spec_is_patrolling(c: Companions, is_mercenary: bool) -> bool {
    if is_mercenary {
        c.mercenary matches Some(m) && m.patrolling
    } else {
        c.homunculus matches Some(h) && h.patrolling
    }
}

pub open spec fn spec_companion_gid(c: Companions, is_mercenary: bool) -> Option<u32> {
    if is_mercenary {
        match c.mercenary {
            Some(m) => Some(m.gid),
            None => None,
        }
    } else {
        match c.homunculus {
            Some(h) => Some(h.gid),
            None => None,
        }
    }
}

/// The first entity with id `id` in view.
pub open spec fn find_entity(entities: Seq<EntitySnapshot>, id: u32) -> Option<EntitySnapshot>
    decreases entities.len(),
{
    if entities.len() == 0 {
        None
    } else if entities[0].id == id {
        Some(entities[0])
    } else {
        find_entity(entities.drop_first(), id)
    }
}

/// Index of the first skill with id `id`, or -1.
pub open spec fn first_skill(skills: Seq<CompanionSkill>, id: u16) -> int
    decreases skills.len(),
{
    if skills.len() == 0 {
        -1
    } else if skills[0].id == id {
        0
    } else {
        let r = first_skill(skills.drop_first(), id);
        if r < 0 {
            -1
        } else {
            r + 1
        }
    }
}

fn lookup_entity(entities: &Vec<EntitySnapshot>, id: u32) -> (r: Option<EntitySnapshot>)
    ensures
        r == find_entity(entities@, id),
{
    let mut k: usize = 0;
    assert(entities@.skip(0) =~= entities@);
    while k < entities.len()
        invariant
            k <= entities@.len(),
            find_entity(entities@, id) == find_entity(entities@.skip(k as int), id),
        decreases entities@.len() - k,
    {
        assert(entities@.skip(k as int)[0] == entities@[k as int]);
        assert(entities@.skip(k as int).drop_first() =~= entities@.skip(k + 1));
        if entities[k].id == id {
            return Some(entities[k]);
        }
        k = k + 1;
    }
    assert(entities@.skip(k as int) =~= Seq::<EntitySnapshot>::empty());
    None
}

fn find_skill(skills: &Vec<CompanionSkill>, id: u16) -> (r: Option<usize>)
    ensures
        match r {
            Some(k) => k < skills@.len() && first_skill(skills@, id) == k,
            None => first_skill(skills@, id) < 0,
        },
{
    let mut k: usize = 0;
    assert(skills@.skip(0) =~= skills@);
    while k < skills.len()
        invariant
            k <= skills@.len(),
            first_skill(skills@, id) == if first_skill(skills@.skip(k as int), id) < 0 {
                -1
            } else {
                first_skill(skills@.skip(k as int), id) + k
            },
        decreases skills@.len() - k,
    {
        assert(skills@.skip(k as int)[0] == skills@[k as int]);
        assert(skills@.skip(k as int).drop_first() =~= skills@.skip(k + 1));
        if skills[k].id == id {
            return Some(k);
        }
        k = k + 1;
    }
    assert(skills@.skip(k as int) =~= Seq::<CompanionSkill>::empty());
    None
}

/// The attack range of skill `id`, or 9 cells when the companion does not
/// know it.
pub fn skill_range(skills: &Vec<CompanionSkill>, id: u16) -> (r: i32)
    ensures
        r == if first_skill(skills@, id) >= 0 {
            skills@[first_skill(skills@, id)].attack_range as i32
        } else {
            9i32
        },
{
    match find_skill(skills, id) {
        Some(k) => skills[k].attack_range as i32,
        None => 9,
    }
}

/// A skill's level, cost, range and whether it can be raised, on the first
/// skill with that id; unknown skills are left alone.
pub fn update_skill(
    skills: &mut Vec<CompanionSkill>,
    skill: u16,
    level: i16,
    sp_cost: i16,
    attack_range: i16,
    upgradable: bool,
)
    ensures
        final(skills)@ == if first_skill(old(skills)@, skill) >= 0 {
            old(skills)@.update(
                first_skill(old(skills)@, skill),
                CompanionSkill { id: skill, level, sp_cost, attack_range, upgradable },
            )
        } else {
            old(skills)@
        },
{
    if let Some(k) = find_skill(skills, skill) {
        skills.set(k, CompanionSkill { id: skill, level, sp_cost, attack_range, upgradable });
    }
}

/// Whether companion `i` (0 the homunculus, 1 the mercenary) can take
/// orders.
pub open spec fn present(c: Companions, i: int) -> bool {
    if i == 0 {
        spec_has_homunculus(c)
    } else {
        spec_has_mercenary(c)
    }
}

/// Companion `i`'s attack target, dropped when the companion is gone or the
/// target is out of view.
pub open spec fn pruned_target(c: Companions, i: int, entities: Seq<EntitySnapshot>) -> Option<u32> {
    match c.attack_target@[i] {
        Some(t) => if !present(c, i) || find_entity(entities, t) is None {
            None
        } else {
            Some(t)
        },
        None => None,
    }
}

/// Companion `i`'s move marker, dropped when the companion is gone or stands
/// on the marked cell.
pub open spec fn pruned_marker(c: Companions, i: int, entities: Seq<EntitySnapshot>) -> Option<
    (i32, i32),
> {
    let arrived = match spec_companion_gid(c, i == 1) {
        Some(g) => match find_entity(entities, g) {
            Some(e) => c.move_marker@[i] matches Some(d) && d == (e.cell_x as i32, e.cell_y as i32),
            None => false,
        },
        None => false,
    };
    if !present(c, i) || arrived {
        None
    } else {
        c.move_marker@[i]
    }
}

fn prune_slot(
    c: &mut Companions,
    idx: usize,
    present_now: bool,
    gid: Option<u32>,
    entities: &Vec<EntitySnapshot>,
)
    requires
        idx < 2,
        present_now == present(*old(c), idx as int),
        gid == spec_companion_gid(*old(c), idx == 1),
    ensures
        *final(c) == (Companions {
            attack_target: final(c).attack_target,
            move_marker: final(c).move_marker,
            ..*old(c)
        }),
        final(c).attack_target@ == old(c).attack_target@.update(
            idx as int,
            pruned_target(*old(c), idx as int, entities@),
        ),
        final(c).move_marker@ == old(c).move_marker@.update(
            idx as int,
            pruned_marker(*old(c), idx as int, entities@),
        ),
{
    if let Some(t) = c.attack_target[idx] {
        if !present_now || lookup_entity(entities, t).is_none() {
            c.attack_target[idx] = None;
        }
    }
    if let Some(dest) = c.move_marker[idx] {
        let arrived = match gid {
            Some(g) => match lookup_entity(entities, g) {
                Some(e) => e.cell_x as i32 == dest.0 && e.cell_y as i32 == dest.1,
                None => false,
            },
            None => false,
        };
        if !present_now || arrived {
            c.move_marker[idx] = None;
        }
    }
    assert(c.attack_target@ =~= old(c).attack_target@.update(
        idx as int,
        pruned_target(*old(c), idx as int, entities@),
    ));
    assert(c.move_marker@ =~= old(c).move_marker@.update(
        idx as int,
        pruned_marker(*old(c), idx as int, entities@),
    ));
}

impl App {
    /// A report on the homunculus's state; see `homunculus_after_state`.
    pub fn handle_companion_state_changed(&mut self, state: i8, gid: u32, data: i32)
        ensures
            companion_state_changed_step(*old(self), *final(self), state, gid, data),
    {
        if state == 0 {
            self.companions.homunculus = match self.companions.homunculus {
                Some(c) => Some(Companion { gid, vaporized: false, ..c }),
                None => Some(
                    Companion { gid, vaporized: false, patrolling: false, intimacy: 0, hunger: 0 },
                ),
            };
        } else if state == 1 {
            if let Some(c) = self.companions.homunculus {
                self.companions.homunculus = Some(Companion { intimacy: data as i16, ..c });
            }
        } else if state == 2 {
            if let Some(c) = self.companions.homunculus {
                self.companions.homunculus = Some(Companion { hunger: data as i16, ..c });
            }
        }
    }
}

impl Companions {
    /// No companions, targets or move markers.
    pub fn new() -> (c: Companions)
        ensures
            c.homunculus is None,
            c.mercenary is None,
            c.attack_target@ == seq![None::<u32>, None],
            c.move_marker@ == seq![None::<(i32, i32)>, None],
    {
        let c = Companions {
            homunculus: None,
            mercenary: None,
            attack_target: [None, None],
            move_marker: [None, None],
        };
        assert(c.attack_target@ =~= seq![None::<u32>, None]);
        assert(c.move_marker@ =~= seq![None::<(i32, i32)>, None]);
        c
    }
}

impl App {
    /// A homunculus that can take orders: present, not resting, and seen.
    pub fn has_homunculus(&self) -> (b: bool)
        ensures
            b == spec_has_homunculus(self.companions),
    {
        match self.companions.homunculus {
            Some(h) => !h.vaporized && h.gid != 0,
            None => false,
        }
    }

    /// A mercenary that can take orders: present and seen.
    pub fn has_mercenary(&self) -> (b: bool)
        ensures
            b == spec_has_mercenary(self.companions),
    {
        match self.companions.mercenary {
            Some(m) => m.gid != 0,
            None => false,
        }
    }

    /// The entity id of the homunculus, or of the mercenary.
    pub fn companion_gid(&self, is_mercenary: bool) -> (r: Option<u32>)
        ensures
            r == spec_companion_gid(self.companions, is_mercenary),
    {
        if is_mercenary {
            match self.companions.mercenary {
                Some(m) => Some(m.gid),
                None => None,
            }
        } else {
            match self.companions.homunculus {
                Some(h) => Some(h.gid),
                None => None,
            }
        }
    }

    /// Whether the homunculus, or the mercenary, is patrolling.
    pub fn companion_is_patrolling(&self, is_mercenary: bool) -> (b: bool)
        ensures
            b == spec_is_patrolling(self.companions, is_mercenary),
    {
        if is_mercenary {
            match self.companions.mercenary {
                Some(m) => m.patrolling,
                None => false,
            }
        } else {
            match self.companions.homunculus {
                Some(h) => h.patrolling,
                None => false,
            }
        }
    }

    /// The patrol entry of a companion's menu toggles patrolling.
    pub fn patrol_menu_label(&self, is_mercenary: bool) -> (s: String)
        ensures
            s@ == if spec_is_patrolling(self.companions, is_mercenary) {
                "Stop Patrol"@
            } else {
                "Patrol"@
            },
    {
        if self.companion_is_patrolling(is_mercenary) {
            String::from_str("Stop Patrol")
        } else {
            String::from_str("Patrol")
        }
    }

    /// The homunculus is gone, and its windows close.
    pub fn clear_homunculus(&mut self) -> (out: Vec<Effect>)
        ensures
            *final(self) == (App {
                companions: Companions { homunculus: None, ..old(self).companions },
                ..*old(self)
            }),
            out@ == seq![
                Effect::CloseWindow(WindowId::HomunculusInfo),
                Effect::CloseWindow(WindowId::HomunculusSkills),
            ],
    {
        self.companions.homunculus = None;
        vec![
            Effect::CloseWindow(WindowId::HomunculusInfo),
            Effect::CloseWindow(WindowId::HomunculusSkills),
        ]
    }

    /// The mercenary is gone, and its windows close.
    pub fn clear_mercenary(&mut self) -> (out: Vec<Effect>)
        ensures
            *final(self) == (App {
                companions: Companions { mercenary: None, ..old(self).companions },
                ..*old(self)
            }),
            out@ == seq![
                Effect::CloseWindow(WindowId::MercenaryInfo),
                Effect::CloseWindow(WindowId::MercenarySkills),
            ],
    {
        self.companions.mercenary = None;
        vec![
            Effect::CloseWindow(WindowId::MercenaryInfo),
            Effect::CloseWindow(WindowId::MercenarySkills),
        ]
    }

    /// Both companions are gone.
    pub fn clear_companions(&mut self) -> (out: Vec<Effect>)
        ensures
            *final(self) == (App {
                companions: Companions {
                    homunculus: None,
                    mercenary: None,
                    ..old(self).companions
                },
                ..*old(self)
            }),
            out@ == seq![
                Effect::CloseWindow(WindowId::HomunculusInfo),
                Effect::CloseWindow(WindowId::HomunculusSkills),
                Effect::CloseWindow(WindowId::MercenaryInfo),
                Effect::CloseWindow(WindowId::MercenarySkills),
            ],
    {
        let mut out = self.clear_homunculus();
        let mut rest = self.clear_mercenary();
        out.append(&mut rest);
        out
    }

    /// Drops the order markers that no longer apply: an attack target when
    /// its companion is gone or the target is out of view, a move marker
    /// when its companion is gone or stands on the marked cell.
    pub fn prune_companion_targets(&mut self, entities: &Vec<EntitySnapshot>)
        ensures
            *final(self) == (App {
                companions: Companions {
                    attack_target: final(self).companions.attack_target,
                    move_marker: final(self).companions.move_marker,
                    ..old(self).companions
                },
                ..*old(self)
            }),
            final(self).companions.attack_target@ == seq![
                pruned_target(old(self).companions, 0, entities@),
                pruned_target(old(self).companions, 1, entities@),
            ],
            final(self).companions.move_marker@ == seq![
                pruned_marker(old(self).companions, 0, entities@),
                pruned_marker(old(self).companions, 1, entities@),
            ],
    {
        let ghost c0 = self.companions;
        let present = [self.has_homunculus(), self.has_mercenary()];
        let gids = [self.companion_gid(false), self.companion_gid(true)];
        prune_slot(&mut self.companions, 0, present[0], gids[0], entities);
        prune_slot(&mut self.companions, 1, present[1], gids[1], entities);
        assert(self.companions.attack_target@ =~= seq![
            pruned_target(c0, 0, entities@),
            pruned_target(c0, 1, entities@),
        ]);
        assert(self.companions.move_marker@ =~= seq![
            pruned_marker(c0, 0, entities@),
            pruned_marker(c0, 1, entities@),
        ]);
    }
}

/// The emotion shown over a homunculus refused its food.
pub const EMOTION_SWEAT: u8 = 4;

impl App {
    /// Feeding the homunculus. When it failed, the player is told the food
    /// is missing (`food_name` from the item table, else its id), in red,
    /// and the homunculus, if there is one, sweats.
    pub fn handle_homun_feed_result(&self, success: bool, item_id: u16, food_name: Option<String>) -> (out:
        Vec<Effect>)
        ensures
            homun_feed_result_step(*self, success, item_id, food_name, out@),
    {
        let mut out: Vec<Effect> = Vec::new();
        if success {
            return out;
        }
        let name = match food_name {
            Some(n) => n,
            None => {
                let mut t = String::from_str("Item #");
                push_decimal(&mut t, item_id as u64);
                t
            },
        };
        let mut args: Vec<String> = Vec::new();
        args.push(name);
        out.push(Effect::MsgLine { msg_id: MSI_NOT_EXIST_PET_FOOD, args, color: TextColor::Red });
        match self.companions.homunculus {
            Some(h) => out.push(Effect::Emote { gid: h.gid, emotion: EMOTION_SWEAT }),
            None => {},
        }
        out
    }
}

/// What `handle_companion_state_changed` leaves and hands on.
pub open spec fn companion_state_changed_step(a: App, b: App, state: i8, gid: u32, data: i32) -> bool {
    &&& b == (App {
                    companions: Companions {
                        homunculus: homunculus_after_state(
                            a.companions.homunculus,
                            state,
                            gid,
                            data,
                        ),
                        ..a.companions
                    },
                    ..a
                })
}

/// What `handle_homun_feed_result` gives.
pub open spec fn homun_feed_result_step(a: App, success: bool, item_id: u16, food_name: Option<String>, out: Seq<Effect>) -> bool {
    &&& (success ==> (out).len() == 0)
    &&& (!success ==> (out).len() == if a.companions.homunculus is Some { 2int } else { 1int })
    &&& (!success ==> ((out)[0] matches Effect::MsgLine { msg_id, args, color } && msg_id
                    == MSI_NOT_EXIST_PET_FOOD && color == TextColor::Red && args@.len() == 1
                    && args@[0]@ == item_label(item_id, food_name)))
    &&& (!success ==> (a.companions.homunculus matches Some(h) ==> (out)[1] == (Effect::Emote {
                    gid: h.gid,
                    emotion: EMOTION_SWEAT,
                })))
}

} // verus!
