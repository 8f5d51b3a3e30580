//! The client state the verified decisions read and keep.
use vstd::prelude::*;
use crate::companions::Companions;
use crate::effect_keys::EffectKeys;
use crate::guild::Guild;
use crate::party::Party;
use crate::world::TrapUnit;
use std::collections::HashMap;
use vstd::std_specs::hash::*;

verus! {

/// Player preferences toggled from chat commands and the server.
#[derive(Debug)]
pub struct Prefs {
    /// Names whose whispers the server drops for us, in the order blocked.
    pub blocked_whispers: Vec<String>,
    pub noshift_mode: bool,
    pub noctrl_mode: bool,
    pub show_exp: bool,
    pub hide_public_chat: bool,
    pub show_miss: bool,
    pub equip_open: bool,
    pub refuse_party_invite: bool,
    pub show_ping: bool,
    pub show_fps: bool,
    /// The rest of the server's per-character configuration: whether the
    /// equipment window is shown to others, whether the partner may be
    /// called, and whether the pet and homunculus feed themselves.
    pub open_equipment_window: bool,
    pub call_enabled: bool,
    pub pet_autofeed: bool,
    pub homun_autofeed: bool,
}

/// The on/off settings of the saved configuration.
#[derive(Clone, Copy, Debug, PartialEq, Eq, Structural)]
pub struct Settings {
    pub show_skill_effects: bool,
    pub fog: bool,
    pub show_level_aura: bool,
    /// Whether bosses get an aura of their own.
    pub boss_aura: bool,
    pub refuse_trade: bool,
    pub refuse_party_invite: bool,
    pub bgm_enabled: bool,
    pub sfx_enabled: bool,
    pub snap_monster_no_skill: bool,
    pub snap_monster_skill: bool,
    pub snap_item: bool,
}

/// Requests the client sent and whose answer it is waiting for.
#[derive(Debug)]
pub struct Pending {
    /// The whisper last sent, as (recipient, message), until the server acks it.
    pub whisper_out: Option<(String, String)>,
    /// The name last asked to be (un)blocked, and whether it was a block.
    pub whisper_block: Option<(String, bool)>,
    /// The partner of a trade being negotiated, as (account id, name).
    pub trade_partner: Option<(u32, String)>,
    /// A trade request waiting for our answer, as (name, account id).
    pub trade_request: Option<(String, u32)>,
    /// The name whose GM status was asked for.
    pub gm_check: Option<String>,
    /// A party invite deferred until the party we asked for exists.
    pub invite_aid: Option<u32>,
    /// The name of the shop we asked to open.
    pub shop_name: Option<String>,
    /// An adoption offer waiting for our answer, as (father, mother) account ids.
    pub adopt_request: Option<(u32, u32)>,
    /// A marriage proposal waiting for our answer, as (account id, character id).
    pub marriage_proposal: Option<(u32, u32)>,
}

/// The local player's attack and the move waiting behind it.
#[derive(Debug)]
pub struct Combat {
    /// What the player is attacking.
    pub attack_target_id: Option<u32>,
    /// Whether the attack keeps going until told otherwise.
    pub attack_is_locked: bool,
    /// Whether the server is running a repeat attack on our behalf.
    pub attack_request_sent: bool,
    /// A move clicked during a swing or a pickup, as the cell to walk to.
    pub queued_move: Option<(u16, u16)>,
    /// The player's state when that move was queued, by the number the
    /// caller gives each state.
    pub queued_move_state: Option<u8>,
    /// The enemy the last repeat attack was asked on.
    pub last_attacked_enemy: Option<u32>,
}

/// The client's own state: what its decisions read and keep between events.
#[derive(Debug)]
pub struct App {
    /// Account id of the login session, once logged in.
    pub account_id: Option<u32>,
    /// Entity id of the local player, once in a map.
    pub player_id: Option<u32>,
    pub character_name: String,
    /// The name of the player's spouse; empty when unmarried.
    pub partner_name: String,
    pub prefs: Prefs,
    pub settings: Settings,
    pub pending: Pending,
    /// Which guild menus the player may use.
    pub guild_menu_flag: i32,
    pub guild: Option<Guild>,
    pub party: Option<Party>,
    pub effect_keys: EffectKeys,
    /// Ground skill units in view, by unit id.
    pub trap_units: HashMap<u32, TrapUnit>,
    /// Traps placed by others, held aside until one is revealed.
    pub hidden_traps: HashMap<u32, TrapUnit>,
    pub combat: Combat,
    /// The NPC illustrations on screen: left, center, right.
    pub npc_cutins: [Option<String>; 3],
    pub companions: Companions,
    /// Where the map's boss stands, while it is alive.
    pub boss_mark: Option<BossMark>,
}

/// The mark the minimap shows for a living boss.
#[derive(Debug)]
pub struct BossMark {
    pub x: u16,
    pub y: u16,
    pub name: String,
}

/// What a decision needs to know of an entity in view.
#[derive(Clone, Copy, Debug, PartialEq, Eq, Structural)]
pub struct EntitySnapshot {
    pub id: u32,
    /// The cell the entity stands on.
    pub cell_x: u16,
    pub cell_y: u16,
    pub guild_id: u32,
    pub guild_emblem_version: i32,
}

impl Prefs {
    /// The preferences of a new player: experience and miss messages shown,
    /// everything else off, nobody blocked.
    pub fn new() -> (p: Prefs)
        ensures
            p.blocked_whispers@.len() == 0,
            !p.noshift_mode && !p.noctrl_mode && p.show_exp && !p.hide_public_chat,
            p.show_miss && !p.equip_open && !p.refuse_party_invite && !p.show_ping && !p.show_fps,
            !p.open_equipment_window && !p.call_enabled && !p.pet_autofeed && !p.homun_autofeed,
    {
        Prefs {
            blocked_whispers: Vec::new(),
            noshift_mode: false,
            noctrl_mode: false,
            show_exp: true,
            hide_public_chat: false,
            show_miss: true,
            equip_open: false,
            refuse_party_invite: false,
            show_ping: false,
            show_fps: false,
            open_equipment_window: false,
            call_enabled: false,
            pet_autofeed: false,
            homun_autofeed: false,
        }
    }
}

impl Pending {
    /// Nothing waiting for an answer.
    pub fn new() -> (p: Pending)
        ensures
            p.whisper_out is None,
            p.whisper_block is None,
            p.trade_partner is None,
            p.trade_request is None,
            p.gm_check is None,
            p.invite_aid is None,
            p.shop_name is None,
            p.adopt_request is None,
            p.marriage_proposal is None,
    {
        Pending {
            whisper_out: None,
            whisper_block: None,
            trade_partner: None,
            trade_request: None,
            gm_check: None,
            invite_aid: None,
            shop_name: None,
            adopt_request: None,
            marriage_proposal: None,
        }
    }
}

impl Combat {
    /// No attack and no queued move.
    pub fn new() -> (c: Combat)
        ensures
            c.attack_target_id is None,
            !c.attack_is_locked,
            !c.attack_request_sent,
            c.queued_move is None,
            c.queued_move_state is None,
            c.last_attacked_enemy is None,
    {
        Combat {
            attack_target_id: None,
            attack_is_locked: false,
            attack_request_sent: false,
            queued_move: None,
            queued_move_state: None,
            last_attacked_enemy: None,
        }
    }
}

impl App {
    /// The state of a client that has just started, with the saved
    /// `settings`: logged out, in no map, party or guild, holding nothing.
    pub fn new(settings: Settings) -> (a: App)
        ensures
            a.account_id is None,
            a.player_id is None,
            a.character_name@.len() == 0,
            a.partner_name@.len() == 0,
            a.prefs.blocked_whispers@.len() == 0,
            !a.prefs.noshift_mode && !a.prefs.noctrl_mode && a.prefs.show_exp,
            !a.prefs.hide_public_chat && a.prefs.show_miss && !a.prefs.equip_open,
            !a.prefs.show_ping && !a.prefs.show_fps,
            a.prefs.refuse_party_invite == settings.refuse_party_invite,
            a.settings == settings,
            a.pending.whisper_out is None,
            a.pending.whisper_block is None,
            a.pending.trade_partner is None,
            a.pending.trade_request is None,
            a.pending.gm_check is None,
            a.pending.invite_aid is None,
            a.pending.shop_name is None,
            a.pending.adopt_request is None,
            a.pending.marriage_proposal is None,
            a.guild_menu_flag == 0,
            a.guild is None,
            a.party is None,
            a.effect_keys.level_aura_keys@.len() == 0,
            a.effect_keys.boss_aura_keys@.len() == 0,
            a.effect_keys.warp_portal_keys@.len() == 0,
            a.effect_keys.toprank_keys@.len() == 0,
            a.effect_keys.spirit_keys@.len() == 0,
            a.effect_keys.sight_aura_keys@.len() == 0,
            a.effect_keys.ruwach_aura_keys@.len() == 0,
            a.effect_keys.status_buff_keys@.len() == 0,
            a.effect_keys.opt3_keys@.len() == 0,
            a.effect_keys.next_status_buff_key == 0,
            a.trap_units@.len() == 0,
            a.hidden_traps@.len() == 0,
            a.combat.attack_target_id is None,
            !a.combat.attack_is_locked && !a.combat.attack_request_sent,
            a.combat.queued_move is None && a.combat.queued_move_state is None,
            a.npc_cutins@ == seq![None::<String>, None, None],
            a.companions.homunculus is None,
            a.companions.mercenary is None,
            a.companions.attack_target@ == seq![None::<u32>, None],
            a.companions.move_marker@ == seq![None::<(i32, i32)>, None],
            a.boss_mark is None,
    {
        let mut prefs = Prefs::new();
        prefs.refuse_party_invite = settings.refuse_party_invite;
        let a = App {
            account_id: None,
            player_id: None,
            character_name: String::new(),
            partner_name: String::new(),
            prefs,
            settings,
            pending: Pending::new(),
            guild_menu_flag: 0,
            guild: None,
            party: None,
            effect_keys: EffectKeys::new(),
            trap_units: HashMap::new(),
            hidden_traps: HashMap::new(),
            combat: Combat::new(),
            npc_cutins: [None, None, None],
            companions: Companions::new(),
            boss_mark: None,
        };
        assert(a.npc_cutins@ =~= seq![None::<String>, None, None]);
        a
    }
}

} // verus!
