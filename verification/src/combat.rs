//! The local player's attack: starting it, taking it up again, and the move
//! that waits behind it.
use vstd::prelude::*;
use crate::app::{App, Combat, EntitySnapshot};
use crate::party::{MemberView, members_of};
use crate::effects::{Effect, Packet, one, is_msg_line};
use crate::notice::{ARROWFAIL_SUCCESS, spec_action_failure_notice};

verus! {

/// The status (EFST) number of Kyrie Eleison.
pub const EFST_KYRIE: i16 = 19;

/// The status (EFST) number of Parrying.
pub const EFST_PARRYING: i16 = 104;

/// One of `statuses` is Kyrie Eleison or Parrying.
pub open spec fn guarded(statuses: Seq<i16>) -> bool {
    exists|i: int| 0 <= i < statuses.len() && (statuses[i] == EFST_KYRIE || statuses[i] == EFST_PARRYING)
}

impl App {
    /// Whether a blow on `defender_gid` reads as absorbed rather than
    /// missed: only on the local player, only from a monster, and only while
    /// one of the player's `active_statuses` is Kyrie Eleison or Parrying.
    pub fn blocks_incoming_blow(
        &self,
        defender_gid: u32,
        attacker_is_monster: bool,
        active_statuses: &Vec<i16>,
    ) -> (b: bool)
        ensures
            b == (self.player_id == Some(defender_gid) && attacker_is_monster && guarded(
                active_statuses@,
            )),
    {
        if self.player_id != Some(defender_gid) || !attacker_is_monster {
            return false;
        }
        let mut k: usize = 0;
        while k < active_statuses.len()
            invariant
                k <= active_statuses@.len(),
                self.player_id == Some(defender_gid),
                attacker_is_monster,
                forall|j: int|
                    0 <= j < k ==> active_statuses@[j] != EFST_KYRIE && active_statuses@[j]
                        != EFST_PARRYING,
            decreases active_statuses@.len() - k,
        {
            if active_statuses[k] == EFST_KYRIE || active_statuses[k] == EFST_PARRYING {
                return true;
            }
            k = k + 1;
        }
        false
    }

    /// Starts an attack on `target_id`. The attack locks on when no-ctrl mode
    /// is on or Ctrl is held; the rest is as `begin_attack` does it.
    pub fn initiate_attack(
        &mut self,
        target_id: u32,
        ctrl_pressed: bool,
        hidden: bool,
        entity_cell: Option<(u16, u16)>,
        in_range: bool,
    ) -> (step: AttackStep)
        ensures
            attack_begun(
                *old(self),
                *final(self),
                step,
                target_id,
                old(self).prefs.noctrl_mode || ctrl_pressed,
                hidden,
                entity_cell,
                in_range,
            ),
    {
        let locked = self.prefs.noctrl_mode || ctrl_pressed;
        self.begin_attack(target_id, locked, hidden, entity_cell, in_range)
    }

    /// Starts an attack on `target_id` with the lock `locked`. A hidden
    /// player (`hidden`) cannot attack, and nothing changes. Otherwise the
    /// queued move is dropped, the lock is set and no repeat attack counts
    /// as asked for; then, when the attack has a cell to aim at
    /// (`aimed_cell`): within reach (`in_range`, whether the player reaches
    /// that cell), the repeat attack is asked for and the target recorded;
    /// out of reach, the player is to walk toward the cell, and the target
    /// is recorded once the walk started (`approach_started`).
    pub fn begin_attack(
        &mut self,
        target_id: u32,
        locked: bool,
        hidden: bool,
        entity_cell: Option<(u16, u16)>,
        in_range: bool,
    ) -> (step: AttackStep)
        ensures
            attack_begun(*old(self), *final(self), step, target_id, locked, hidden, entity_cell, in_range),
    {
        if hidden {
            return AttackStep::NotEngaged;
        }
        self.combat.queued_move = None;
        self.combat.attack_is_locked = locked;
        self.combat.attack_request_sent = false;
        let cell = match self.attack_target_cell(target_id, entity_cell) {
            Some(c) => c,
            None => {
                return AttackStep::NotEngaged;
            },
        };
        if in_range {
            let e = self.send_attack_packet(target_id);
            self.combat.attack_target_id = Some(target_id);
            AttackStep::Swing(e)
        } else {
            AttackStep::Approach { x: cell.0, y: cell.1 }
        }
    }

    /// The walk toward an attack's target started: the target is recorded.
    pub fn approach_started(&mut self, target_id: u32)
        ensures
            approach_started_step(*old(self), *final(self), target_id),
    {
        self.combat.attack_target_id = Some(target_id);
    }

    /// The server reported the target out of range: the attack starts again
    /// (`begin_attack`) with the lock it had. When nothing came of it the
    /// attack stops, so the retry cannot loop: the target is dropped and, if
    /// a repeat attack was running before, the server is told to stop it
    /// (`abandon_attack`). When a walk is to be tried and cannot start, the
    /// caller abandons the attack the same way.
    pub fn resume_attack(
        &mut self,
        target_id: u32,
        hidden: bool,
        entity_cell: Option<(u16, u16)>,
        in_range: bool,
    ) -> (r: (AttackStep, Vec<Effect>))
        ensures
            !(r.0 is NotEngaged) ==> attack_begun(
                *old(self),
                *final(self),
                r.0,
                target_id,
                old(self).combat.attack_is_locked,
                hidden,
                entity_cell,
                in_range,
            ) && r.1@.len() == 0,
            r.0 is NotEngaged ==> *final(self) == (App {
                combat: Combat {
                    attack_target_id: None,
                    attack_request_sent: false,
                    queued_move: if hidden {
                        old(self).combat.queued_move
                    } else {
                        None
                    },
                    ..old(self).combat
                },
                ..*old(self)
            }),
            r.0 is NotEngaged ==> r.1@ == if old(self).combat.attack_request_sent {
                seq![Effect::Send(Packet::CancelLockon)]
            } else {
                Seq::<Effect>::empty()
            },
    {
        let ghost a0 = *self;
        let locked = self.combat.attack_is_locked;
        let outstanding = self.combat.attack_request_sent;
        let step = self.begin_attack(target_id, locked, hidden, entity_cell, in_range);
        match step {
            AttackStep::NotEngaged => {
                let ghost mid = *self;
                let out = self.abandon_attack(outstanding);
                (AttackStep::NotEngaged, out)
            },
            _ => (step, Vec::new()),
        }
    }

    /// An attack that engaged nothing stops: the target is dropped and, if a
    /// repeat attack was running (`request_outstanding`), the server is told
    /// to stop it.
    pub fn abandon_attack(&mut self, request_outstanding: bool) -> (out: Vec<Effect>)
        ensures
            abandoned(*old(self), *final(self), request_outstanding, out@),
    {
        self.combat.attack_request_sent = request_outstanding;
        match self.stop_attacking() {
            Some(e) => one(e),
            None => Vec::new(),
        }
    }

    /// The move queued during a swing or a pickup leaves on the first change
    /// of the player's state, whatever the new state is (`player_state`, by
    /// the number the caller gives each state, if there is a player); it is
    /// then sent as `send_queued_move` does.
    pub fn flush_queued_move(&mut self, player_state: Option<u8>, player_alive: bool) -> (out: Option<
        Effect,
    >)
        ensures
            !(old(self).combat.queued_move is Some && player_state != old(self).combat.queued_move_state)
                ==> *final(self) == *old(self) && out is None,
            old(self).combat.queued_move is Some && player_state != old(self).combat.queued_move_state
                ==> queued_move_sent(*old(self), *final(self), player_alive, out),
    {
        if self.combat.queued_move.is_none() {
            return None;
        }
        if player_state == self.combat.queued_move_state {
            return None;
        }
        self.send_queued_move(player_alive)
    }

    /// The queued move leaves: it and the state it was queued in are
    /// forgotten, and, when there was one and the player is alive
    /// (`player_alive`), the player walks to its cell.
    pub fn send_queued_move(&mut self, player_alive: bool) -> (out: Option<Effect>)
        ensures
            queued_move_sent(*old(self), *final(self), player_alive, out),
    {
        self.combat.queued_move_state = None;
        let dest = self.combat.queued_move.take();
        match dest {
            Some((x, y)) => if player_alive {
                Some(Effect::WalkTo { cell_x: x, cell_y: y })
            } else {
                None
            },
            None => None,
        }
    }
}

/// What starting an attack gives.
#[derive(Debug)]
pub enum AttackStep {
    /// Nothing: the player is hidden, or the attack has no cell to aim at.
    NotEngaged,
    /// The repeat attack is asked for with this effect.
    Swing(Effect),
    /// The player is to walk toward this cell; the caller tries the walk.
    Approach { x: u16, y: u16 },
}

/// The cell an attack on `target_id` aims at, as `attack_target_cell` gives it.
pub open spec fn aimed_cell(a: App, target_id: u32, entity_cell: Option<(u16, u16)>) -> Option<
    (u16, u16),
> {
    match entity_cell {
        Some(c) => Some(c),
        None => if a.trap_units@.contains_key(target_id) {
            let u = a.trap_units@[target_id];
            Some(
                (
                    if u.cell_x < 0 {
                        0u16
                    } else {
                        u.cell_x as u16
                    },
                    if u.cell_y < 0 {
                        0u16
                    } else {
                        u.cell_y as u16
                    },
                ),
            )
        } else {
            None
        },
    }
}

/// `b` and `step` are what starting an attack on `target_id` with `locked`
/// leaves from `a`.
pub open spec fn attack_begun(
    a: App,
    b: App,
    step: AttackStep,
    target_id: u32,
    locked: bool,
    hidden: bool,
    entity_cell: Option<(u16, u16)>,
    in_range: bool,
) -> bool {
    if hidden {
        b == a && step is NotEngaged
    } else {
        let prepared = Combat {
            queued_move: None,
            attack_is_locked: locked,
            attack_request_sent: false,
            ..a.combat
        };
        match aimed_cell(a, target_id, entity_cell) {
            None => b == (App { combat: prepared, ..a }) && step is NotEngaged,
            Some(c) => if in_range {
                &&& b == (App {
                    combat: Combat {
                        attack_target_id: Some(target_id),
                        last_attacked_enemy: Some(target_id),
                        attack_request_sent: true,
                        ..prepared
                    },
                    ..a
                })
                &&& step == AttackStep::Swing(Effect::Send(Packet::AttackRepeat(target_id)))
            } else {
                b == (App { combat: prepared, ..a }) && step == (AttackStep::Approach { x: c.0, y: c.1 })
            },
        }
    }
}

/// `b` and `out` are what abandoning the attack leaves from `a`.
pub open spec fn abandoned(a: App, b: App, request_outstanding: bool, out: Seq<Effect>) -> bool {
    &&& b == (App {
        combat: Combat { attack_target_id: None, attack_request_sent: false, ..a.combat },
        ..a
    })
    &&& out == if request_outstanding {
        seq![Effect::Send(Packet::CancelLockon)]
    } else {
        Seq::<Effect>::empty()
    }
}

/// `b` and `out` are what sending the queued move leaves from `a`.
pub open spec fn queued_move_sent(a: App, b: App, player_alive: bool, out: Option<Effect>) -> bool {
    &&& b == (App {
        combat: Combat { queued_move: None, queued_move_state: None, ..a.combat },
        ..a
    })
    &&& out == match a.combat.queued_move {
        Some((x, y)) => if player_alive {
            Some(Effect::WalkTo { cell_x: x, cell_y: y })
        } else {
            None
        },
        None => None,
    }
}

/// Whether an entity with account id `aid` is in our party.
pub open spec fn in_our_party(a: App, aid: u32) -> bool {
    exists|i: int| 0 <= i < members_of(a.party).len() && #[trigger] members_of(a.party)[i].aid == aid
}

/// Our guild's id, or 0 without a guild.
pub open spec fn our_gdid(a: App) -> u32 {
    match a.guild {
        Some(g) => g.gdid,
        None => 0,
    }
}

impl App {
    /// Whether a skill cast by `caster` (none when it is not in view) is
    /// hostile to us. In a siege, everyone outside our guild is; in PvP,
    /// monsters outside our party are; elsewhere, and for our own casts,
    /// nothing is.
    pub fn is_hostile_caster(
        &self,
        caster: Option<EntitySnapshot>,
        caster_is_monster: bool,
        siege: bool,
        pvp: bool,
    ) -> (hostile: bool)
        ensures
            hostile == match caster {
                None => false,
                Some(c) => if siege {
                    c.guild_id != our_gdid(*self)
                } else if !pvp || self.player_id == Some(c.id) {
                    false
                } else {
                    !in_our_party(*self, c.id) && caster_is_monster
                },
            },
    {
        let c = match caster {
            Some(c) => c,
            None => {
                return false;
            },
        };
        if siege {
            let mine: u32 = match &self.guild {
                Some(g) => g.gdid,
                None => 0,
            };
            return c.guild_id != mine;
        }
        if !pvp || self.player_id == Some(c.id) {
            return false;
        }
        let ids = self.party_member_ids();
        let mut in_party = false;
        let mut k: usize = 0;
        while k < ids.len()
            invariant
                k <= ids@.len(),
                ids@ == members_of(self.party).map_values(|m: MemberView| m.aid),
                in_party == exists|i: int| 0 <= i < k && #[trigger] members_of(self.party)[i].aid == c.id,
            decreases ids@.len() - k,
        {
            assert(ids@[k as int] == members_of(self.party)[k as int].aid);
            if ids[k] == c.id {
                in_party = true;
            }
            k = k + 1;
        }
        !in_party && caster_is_monster
    }
}

impl App {
    /// The server refused an action of the player. Unless the code only
    /// reports arrows equipped, the attack target is dropped and the
    /// player's failed action and cast effects are undone; then the notice
    /// for the code, if it has one, is shown.
    pub fn on_action_failure(&mut self, error_code: i16, job: u16) -> (out: Vec<Effect>)
        ensures
            action_failure_step(*old(self), *final(self), error_code, job, out@),
    {
        let mut out: Vec<Effect> = Vec::new();
        if error_code != ARROWFAIL_SUCCESS {
            self.combat.attack_target_id = None;
            out.push(Effect::ActionFailed);
        }
        match App::handle_action_failure(error_code, job) {
            Some(e) => out.push(e),
            None => {},
        }
        out
    }
}

impl App {
    /// Asks the server to keep attacking `target_id` for us, remembering the
    /// enemy and that the request is out.
    pub fn send_attack_packet(&mut self, target_id: u32) -> (e: Effect)
        ensures
            *final(self) == (App {
                combat: Combat {
                    last_attacked_enemy: Some(target_id),
                    attack_request_sent: true,
                    ..old(self).combat
                },
                ..*old(self)
            }),
            e == Effect::Send(Packet::AttackRepeat(target_id)),
    {
        self.combat.last_attacked_enemy = Some(target_id);
        self.combat.attack_request_sent = true;
        Effect::Send(Packet::AttackRepeat(target_id))
    }

    /// Drops the attack target, and tells the server to stop the repeat
    /// attack it still runs for us, if one was asked for.
    pub fn stop_attacking(&mut self) -> (out: Option<Effect>)
        ensures
            stop_attacking_step(*old(self), *final(self), out),
    {
        self.combat.attack_target_id = None;
        if !self.combat.attack_request_sent {
            return None;
        }
        self.combat.attack_request_sent = false;
        Some(Effect::Send(Packet::CancelLockon))
    }
}

/// What `on_action_failure` leaves and hands on.
pub open spec fn action_failure_step(a: App, b: App, error_code: i16, job: u16, out: Seq<Effect>) -> bool {
    &&& error_code == ARROWFAIL_SUCCESS ==> b == a
    &&& error_code != ARROWFAIL_SUCCESS ==> b == (App {
                    combat: Combat { attack_target_id: None, ..a.combat },
                    ..a
                })
    &&& ({
                    let n: int = if error_code != ARROWFAIL_SUCCESS { 1 } else { 0 };
                    &&& error_code != ARROWFAIL_SUCCESS ==> out[0] == Effect::ActionFailed
                    &&& match spec_action_failure_notice(error_code, job) {
                        Some((id, color)) => out.len() == n + 1 && is_msg_line(out[n], id, color),
                        None => out.len() == n,
                    }
                })
}

/// What `approach_started` gives.
pub open spec fn approach_started_step(a: App, b: App, target_id: u32) -> bool {
    &&& (b == (App {
                    combat: Combat { attack_target_id: Some(target_id), ..a.combat },
                    ..a
                }))
}

/// What `stop_attacking` gives.
pub open spec fn stop_attacking_step(a: App, b: App, out: Option<Effect>) -> bool {
    &&& (b == (App {
                    combat: Combat {
                        attack_target_id: None,
                        attack_request_sent: false,
                        ..a.combat
                    },
                    ..a
                }))
    &&& (a.combat.attack_request_sent ==> out =~= Some(Effect::Send(Packet::CancelLockon)))
    &&& (!a.combat.attack_request_sent ==> out is None)
}

} // verus!
