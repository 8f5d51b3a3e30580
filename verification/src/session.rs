//! What the client forgets when the session changes: on a map change, on
//! logging out, on death and on resurrection.
use vstd::prelude::*;
use crate::app::{App, Combat, Pending};
use crate::companions::Companions;
use crate::effect_keys::EffectKeys;
use crate::effects::{Effect, SessionChange, one};
use crate::guild::{guild_view, guild_without_live_positions};

verus! {

/// The attack and the queued move dropped; the lock setting stays.
pub open spec fn combat_cleared(c: Combat) -> Combat {
    Combat {
        attack_target_id: None,
        attack_request_sent: false,
        queued_move: None,
        queued_move_state: None,
        ..c
    }
}

/// The state after a map change: the trade partner, the attack, the queued
/// move and the NPC illustrations are dropped.
pub open spec fn map_changed(a: App, b: App) -> bool {
    &&& b == (App {
        pending: Pending { trade_partner: None, ..a.pending },
        combat: combat_cleared(a.combat),
        npc_cutins: b.npc_cutins,
        ..a
    })
    &&& b.npc_cutins@ == seq![None::<String>, None, None]
}

/// The state after logging out: the attack, the queued move, both
/// companions and their order markers, the guild, the party, the boss mark and the effect
/// keys (but those of PvP ranks and spirits) are dropped, and the key
/// counter starts again.
pub open spec fn logged_out(a: App, b: App) -> bool {
    let k0 = a.effect_keys;
    let k1 = b.effect_keys;
    &&& b == (App {
        combat: combat_cleared(a.combat),
        companions: Companions {
            homunculus: None,
            mercenary: None,
            attack_target: b.companions.attack_target,
            move_marker: b.companions.move_marker,
        },
        guild: None,
        party: None,
        boss_mark: None,
        effect_keys: EffectKeys {
            level_aura_keys: k1.level_aura_keys,
            boss_aura_keys: k1.boss_aura_keys,
            warp_portal_keys: k1.warp_portal_keys,
            sight_aura_keys: k1.sight_aura_keys,
            ruwach_aura_keys: k1.ruwach_aura_keys,
            status_buff_keys: k1.status_buff_keys,
            opt3_keys: k1.opt3_keys,
            next_status_buff_key: 0,
            ..k0
        },
        ..a
    })
    &&& b.companions.attack_target@ == seq![None::<u32>, None]
    &&& b.companions.move_marker@ == seq![None::<(i32, i32)>, None]
    &&& k1.level_aura_keys@.len() == 0
    &&& k1.boss_aura_keys@.len() == 0
    &&& k1.warp_portal_keys@.len() == 0
    &&& k1.sight_aura_keys@.len() == 0
    &&& k1.ruwach_aura_keys@.len() == 0
    &&& k1.status_buff_keys@.len() == 0
    &&& k1.opt3_keys@.len() == 0
}

impl App {
    /// A session transition. The state kept here is reset by the policy
    /// below, and the transition is handed on for the rest of the client
    /// (effects, sounds, windows, the world) to reset its own.
    ///
    /// A map change drops the trade partner, the attack, the queued move
    /// and the NPC illustrations. A logout drops the attack, the queued
    /// move, both companions and their order markers, the guild, the party,
    /// the boss mark and the effect keys (but those of PvP ranks and spirits), and starts
    /// the key counter again. Death and resurrection change nothing here.
    pub fn on_session_change(&mut self, change: SessionChange) -> (out: Vec<Effect>)
        ensures
            out@ == seq![Effect::Session(change)],
            change == SessionChange::MapChange ==> map_changed(*old(self), *final(self)),
            change == SessionChange::Logout ==> logged_out(*old(self), *final(self)),
            change == SessionChange::Death || change == SessionChange::Resurrect ==> *final(self)
                == *old(self),
    {
        match change {
            SessionChange::MapChange => {
                self.pending.trade_partner = None;
                self.clear_combat();
                self.npc_cutins = [None, None, None];
                assert(self.npc_cutins@ =~= seq![None::<String>, None, None]);
            },
            SessionChange::Logout => {
                self.clear_combat();
                self.companions.homunculus = None;
                self.companions.mercenary = None;
                self.companions.attack_target = [None, None];
                self.companions.move_marker = [None, None];
                self.guild = None;
                self.party = None;
                self.boss_mark = None;
                self.effect_keys.status_buff_keys.clear();
                self.effect_keys.opt3_keys.clear();
                self.effect_keys.next_status_buff_key = 0;
                self.effect_keys.level_aura_keys.clear();
                self.effect_keys.boss_aura_keys.clear();
                self.effect_keys.warp_portal_keys.clear();
                self.effect_keys.sight_aura_keys.clear();
                self.effect_keys.ruwach_aura_keys.clear();
                assert(self.companions.attack_target@ =~= seq![None::<u32>, None]);
                assert(self.companions.move_marker@ =~= seq![None::<(i32, i32)>, None]);
            },
            SessionChange::Death => {},
            SessionChange::Resurrect => {},
        }
        one(Effect::Session(change))
    }

    fn clear_combat(&mut self)
        ensures
            *final(self) == (App { combat: combat_cleared(old(self).combat), ..*old(self) }),
    {
        self.combat.attack_target_id = None;
        self.combat.attack_request_sent = false;
        self.combat.queued_move = None;
        self.combat.queued_move_state = None;
    }
}

/// The state after the actors of the map went: the boss mark is gone and no
/// guild member shows a live position; everything else stays.
pub open spec fn actors_cleared(a: App, b: App) -> bool {
    &&& b == (App { boss_mark: None, guild: b.guild, ..a })
    &&& guild_view(b.guild) == guild_without_live_positions(guild_view(a.guild))
}

impl App {
    /// The actors of the map go (the map is reloaded, or a warp lands on the
    /// same map): the boss mark and the guild members' live positions are
    /// dropped here, and the rest is handed on for the world to drop its
    /// own.
    pub fn clear_map_actors(&mut self) -> (out: Vec<Effect>)
        ensures
            actors_cleared(*old(self), *final(self)),
            out@ == seq![Effect::ClearMapActors],
    {
        self.boss_mark = None;
        if let Some(mut g) = self.guild.take() {
            g.clear_live_positions();
            self.guild = Some(g);
        }
        one(Effect::ClearMapActors)
    }
}

} // verus!
