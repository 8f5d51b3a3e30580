//! The server's events that the library decides on, and the one entry
//! point that hands each to its handler.
use vstd::prelude::*;
use crate::app::App;
use crate::chat::MvpFeedback;
use crate::config::SelfConfigKind;
use crate::effects::{ChatLine, Effect, Screen, one};
use crate::guild::{GuildBanEntry, GuildInfo, GuildMember, GuildPosition, GuildRelation, MemberLook};
use crate::party::PartyMemberData;
use crate::shops::StoragePasswordPrompt;
use crate::world::BossInfoKind;
use crate::chat::{account_name_step, adoption_message_step, divorced_step, gm_status_step, guild_chat_message_step, manner_point_result_step, map_info_notice_step, memo_result_step, mvp_feedback_step, own_chat_message_step, pvp_points_received_step, server_colored_message_step, user_count_step, whisper_ack_step, whisper_received_step, whisper_setting_result_step};
use crate::combat::{action_failure_step};
use crate::companions::{companion_state_changed_step, homun_feed_result_step};
use crate::config::{self_config_changed_step};
use crate::connection::{char_server_connect_refused_step, disconnect_ack_step, disconnected_step, zone_server_changed_step};
use crate::effect_keys::{map_property_changed_step};
use crate::guild::{guild_ally_result_step, guild_ban_list_step, guild_create_result_step, guild_disband_result_step, guild_hostile_result_step, guild_identity_updated_step, guild_info_step, guild_join_result_step, guild_member_expelled_step, guild_member_left_step, guild_member_online_step, guild_member_position_step, guild_member_positions_changed_step, guild_members_step, guild_menu_flag_step, guild_notice_step, guild_position_names_step, guild_positions_step, guild_relation_added_step, guild_relation_deleted_step, guild_relations_step};
use crate::party::{party_chat_message_step, party_config_changed_step, party_create_result_step, party_exp_option_changed_step, party_invite_result_step, party_member_added_step, party_member_hp_step, party_member_list_step, party_member_position_step, party_member_removed_step};
use crate::production::{card_insert_result_step, item_identify_result_step, item_refining_result_step, making_item_result_step, repair_item_result_step, vending_own_stock_step};
use crate::shops::{friend_removed_step, friend_state_changed_step, mail_add_item_ack_step, mail_delete_ack_step, mail_get_item_ack_step, mail_new_received_step, mail_return_ack_step, mail_send_ack_step, mail_window_step, makable_item_list_step, npc_shop_buy_list_step, npc_shop_buy_result_step, npc_shop_sell_list_step, npc_shop_sell_result_step, open_vending_setup_step, pet_capture_result_step, pet_capture_start_step, pet_feed_result_step, quest_active_changed_step, quest_removed_step, restart_ack_step, storage_closed_step, storage_item_removed_step, storage_opened_step, storage_password_request_step, vending_open_result_step, vending_purchase_result_step, vending_stock_decrement_step, weapon_refine_result_step};
use crate::social::{adoption_requested_step, friend_add_result_step, friend_request_received_step, guild_ally_request_received_step, guild_invite_received_step, marriage_proposed_step, party_invite_received_step};
use crate::trade::{exchange_ack_result_step, exchange_add_result_step, exchange_canceled_step, exchange_completed_step, exchange_concluded_step, exchange_item_added_step, exchange_requested_step, exchange_undo_step};
use crate::world::{boss_info_step, cart_count_info_step, cart_item_removed_step, cart_off_step, entity_hp_changed_step, map_cell_changed_step, npc_cutin_step, skill_unit_disappeared_step, skill_unit_updated_step};

verus! {

/// A server event, with the plain values the decision reads.
pub enum ServerEvent {
    /// The spouse's name.
    CoupleNameReceived { name: String },
    ActionFailure { error_code: i16, job: u16 },
    CompanionStateChanged { state: i8, gid: u32, data: i32 },
    SelfConfigChanged { kind: SelfConfigKind, enabled: bool },
    ZoneServerChanged { map_name: String, ip: u32, port: i16 },
    MapPropertyChanged { was_pk_zone: bool, now_pk_zone: bool },
    GuildMenuFlag { flag: i32 },
    GuildInfo { info: GuildInfo },
    GuildPositionNames { names: Vec<(i32, String)> },
    GuildMemberPositionsChanged { entries: Vec<(u32, u32, i32)> },
    GuildIdentityUpdated { gdid: u32, emblem_version: i32, right: i32, is_master: bool, name: String },
    GuildMemberLeft { name: String, reason: String },
    GuildMemberExpelled { name: String, reason: String },
    GuildDisbandResult { reason: i32 },
    GuildRelationDeleted { gdid: u32, relation: i32 },
    GuildRelationAdded { gdid: u32, relation: i32, name: String },
    GuildMemberPosition { aid: u32, x: i16, y: i16 },
    GuildMembers { members: Vec<GuildMember> },
    GuildPositions { positions: Vec<GuildPosition> },
    GuildBanList { entries: Vec<GuildBanEntry> },
    GuildRelations { relations: Vec<GuildRelation> },
    GuildMemberOnline { aid: u32, gid: u32, online: bool, look: Option<MemberLook> },
    PartyMemberRemoved { aid: u32, name: String, result: u8 },
    PartyMemberHp { aid: u32, hp: u32, max_hp: u32 },
    PartyMemberPosition { aid: u32, x: i16, y: i16 },
    PartyExpOptionChanged { exp_option: u32 },
    PartyConfigChanged { exp_option: u32, item_pickup_rule: u8, item_division_rule: u8 },
    PartyMemberAdded { aid: u32, name: String, map: String, leader: bool, online: bool, x: u16, y: u16, on_our_map: bool },
    PartyMemberList { name: String, members: Vec<PartyMemberData> },
    PartyCreateResult { result: u8 },
    VendingOwnStock { item_count: u64 },
    RestartAck,
    ExchangeAckResult { result: u8, level: i16, my_level: i16 },
    ExchangeCanceled,
    ExchangeCompleted { result: u8 },
    SkillUnitDisappeared { aid: u32 },
    SkillUnitUpdated { gid: u32 },
    AdoptionMessage { msg_no: i32 },
    GuildChatMessage { message: String },
    WhisperReceived { sender: String, message: String },
    WhisperAck { result: u8 },
    MemoResult { result: u8 },
    MapInfoNotice { atype: i16 },
    UserCount { count: i32 },
    AccountName { aid: u32, name: String },
    WhisperSettingResult { allow: bool, result: u8, all: bool },
    Divorced { name: String },
    MvpFeedback { kind: MvpFeedback, item_name: Option<String> },
    PvpPointsReceived { win: i32, lose: i32, point: i32 },
    ServerColoredMessage { gid: u32, color: u32, message: String },
    OwnChatMessage { message: String, room_open: bool, player_is_gm: bool },
    GmStatus { lines: Vec<String> },
    MannerPointResult { result: u32, line: Option<String> },
    HomunFeedResult { success: bool, item_id: u16, food_name: Option<String> },
    DisconnectAck { allowed: bool },
    Disconnected { reason: String, screen: Screen },
    CharServerConnectRefused { error_code: u8 },
    GuildNotice { subject: String, body: String },
    GuildCreateResult { result: u8 },
    GuildJoinResult { answer: u8 },
    GuildHostileResult { result: u8 },
    GuildAllyResult { answer: u8 },
    PartyInviteResult { name: String, answer: u8 },
    PartyChatMessage { aid: u32, message: String, entity_name: Option<String> },
    ItemIdentifyResult { index: i16, ok: bool },
    ItemRefiningResult { index: u16, refine: u8, result: i16 },
    CardInsertResult { equip_index: u16, card_index: u16, result: u8, card_item_id: u16 },
    RepairItemResult { ok: bool },
    MakingItemResult { result: i16 },
    NpcShopBuyList { npc_id: u32, items: Vec<(u16, i32, i32, u8)>, fallback_npc_id: u32 },
    NpcShopSellList { npc_id: u32, items: Vec<(i16, i32, i32)>, fallback_npc_id: u32 },
    NpcShopBuyResult { result: u8 },
    NpcShopSellResult { result: u8 },
    VendingPurchaseResult { index: i16, curcount: i16, result: u8, shop_window_open: bool },
    VendingStockDecrement { index: i16, count: i16 },
    VendingOpenResult { result: u8 },
    OpenVendingSetup { max_items: i16 },
    MakableItemList { item_ids: Vec<u16> },
    WeaponRefineResult { result: i32, item_name: String },
    PetFeedResult { ok: bool, food_item_id: u16, food_name: Option<String> },
    PetCaptureStart,
    PetCaptureResult { ok: bool },
    QuestRemoved { quest_id: u32 },
    QuestActiveChanged { quest_id: u32, active: bool },
    FriendStateChanged { aid: u32, gid: u32, online: bool },
    FriendRemoved { aid: u32, gid: u32 },
    StorageOpened { cur: i16, max: i16, already_open: bool },
    StorageItemRemoved { index: u16, amount: i16 },
    StorageClosed,
    MailDeleteAck { mail_id: u32, ok: bool, opened_mail_id: Option<u32> },
    MailGetItemAck { result: u8 },
    MailAddItemAck { index: u16, ok: bool },
    StoragePasswordRequest { prompt: StoragePasswordPrompt },
    MailWindow { open: bool },
    MailSendAck { ok: bool },
    MailNewReceived { mail_id: u32, inbox_shown: bool },
    MailReturnAck { mail_id: u32, ok: bool, opened_mail_id: Option<u32> },
    FriendAddResult { result: u8, aid: u32, gid: u32, name: String },
    FriendRequestReceived { req_aid: u32, req_gid: u32, name: String },
    PartyInviteReceived { party_grid: u32, party_name: String },
    GuildInviteReceived { gdid: u32, name: String },
    GuildAllyRequestReceived { aid: u32, name: String },
    AdoptionRequested { father_aid: u32, mother_aid: u32, name: String },
    MarriageProposed { aid: u32, gid: u32, name: String },
    ExchangeRequested { refused_at_once: bool },
    ExchangeItemAdded { item_id: u16, item_type: u8, count: i32, is_identified: bool, is_damaged: bool, refining_level: u8, slot: [u16; 4] },
    ExchangeAddResult { index: u16, result: u8 },
    ExchangeConcluded { who: u8 },
    ExchangeUndo,
    MapCellChanged { x: i16, y: i16, cell_type: i32 },
    EntityHpChanged { gid: u32, hp: u32, max_hp: u32 },
    CartOff,
    CartItemRemoved { index: u16, count: i16 },
    CartCountInfo { cur_weight: i32, max_weight: i32, cur_count: i16, max_count: i16 },
    NpcCutin { image: String, position: u8 },
    BossInfo { kind: BossInfoKind, x: u16, y: u16, name: String, line: Option< String, > },
}

/// The chat line an effect carries; meaningless for any other effect.
pub open spec fn line_of(e: Effect) -> ChatLine {
    match e {
        Effect::Chat(l) => l,
        _ => vstd::pervasive::arbitrary(),
    }
}

/// Every effect of `s` is a chat line.
pub open spec fn all_chat(s: Seq<Effect>) -> bool {
    forall|i: int| 0 <= i < s.len() ==> #[trigger] s[i] is Chat
}

/// The first effect of `s`, if any.
pub open spec fn first_of(s: Seq<Effect>) -> Option<Effect> {
    if s.len() == 0 { None } else { Some(s[0]) }
}

/// The chat line of the first effect of `s`, if any.
pub open spec fn first_line(s: Seq<Effect>) -> Option<ChatLine> {
    if s.len() == 0 { None } else { Some(line_of(s[0])) }
}

/// The lines as chat effects, in order.
fn chat_effects(lines: Vec<ChatLine>) -> (v: Vec<Effect>)
    ensures
        all_chat(v@),
        v@.map_values(|e: Effect| line_of(e)) == lines@,
{
    let ghost l0 = lines@;
    let mut lines = lines;
    let mut rev: Vec<ChatLine> = Vec::new();
    while lines.len() > 0
        invariant
            lines@ == l0.subrange(0, lines@.len() as int),
            rev@.len() + lines@.len() == l0.len(),
            forall|i: int| 0 <= i < rev@.len() ==> #[trigger] rev@[i] == l0[l0.len() - 1 - i],
        decreases lines@.len(),
    {
        let ghost before = lines@;
        let l = lines.pop().unwrap();
        assert(l == l0[before.len() - 1]);
        rev.push(l);
        assert(lines@ =~= l0.subrange(0, lines@.len() as int));
    }
    let mut v: Vec<Effect> = Vec::new();
    while rev.len() > 0
        invariant
            v@.len() + rev@.len() == l0.len(),
            forall|i: int| 0 <= i < v@.len() ==> #[trigger] v@[i] == Effect::Chat(l0[i]),
            forall|i: int| 0 <= i < rev@.len() ==> #[trigger] rev@[i] == l0[l0.len() - 1 - i],
        decreases rev@.len(),
    {
        let l = rev.pop().unwrap();
        v.push(Effect::Chat(l));
    }
    assert(v@.map_values(|e: Effect| line_of(e)) =~= l0);
    v
}

/// What the event `e` leaves (`s1`) of the state `s0`, and hands on (`out`):
/// what its handler does.
pub open spec fn server_event_step(s0: App, e: ServerEvent, s1: App, out: Seq<Effect>) -> bool {
    match e {
        ServerEvent::CoupleNameReceived { name } => s1 == (App { partner_name: name, ..s0 }) && out.len() == 0,
        ServerEvent::ActionFailure { error_code, job } => action_failure_step(s0, s1, error_code, job, out),
        ServerEvent::CompanionStateChanged { state, gid, data } => companion_state_changed_step(s0, s1, state, gid, data) && out.len() == 0,
        ServerEvent::SelfConfigChanged { kind, enabled } => self_config_changed_step(s0, s1, kind, enabled) && out.len() == 0,
        ServerEvent::ZoneServerChanged { map_name, ip, port } => zone_server_changed_step(s0, s1, map_name, ip, port, out),
        ServerEvent::MapPropertyChanged { was_pk_zone, now_pk_zone } => map_property_changed_step(s0, s1, was_pk_zone, now_pk_zone, out),
        ServerEvent::GuildMenuFlag { flag } => guild_menu_flag_step(s0, s1, flag) && out.len() == 0,
        ServerEvent::GuildInfo { info } => guild_info_step(s0, s1, info, out),
        ServerEvent::GuildPositionNames { names } => guild_position_names_step(s0, s1, names) && out.len() == 0,
        ServerEvent::GuildMemberPositionsChanged { entries } => guild_member_positions_changed_step(s0, s1, entries) && out.len() == 0,
        ServerEvent::GuildIdentityUpdated { gdid, emblem_version, right, is_master, name } => guild_identity_updated_step(s0, s1, gdid, emblem_version, right, is_master, name, out),
        ServerEvent::GuildMemberLeft { name, reason } => guild_member_left_step(s0, s1, name, reason, out),
        ServerEvent::GuildMemberExpelled { name, reason } => guild_member_expelled_step(s0, s1, name, reason, out),
        ServerEvent::GuildDisbandResult { reason } => guild_disband_result_step(s0, s1, reason, out),
        ServerEvent::GuildRelationDeleted { gdid, relation } => guild_relation_deleted_step(s0, s1, gdid, relation) && out.len() == 0,
        ServerEvent::GuildRelationAdded { gdid, relation, name } => guild_relation_added_step(s0, s1, gdid, relation, name) && out.len() == 0,
        ServerEvent::GuildMemberPosition { aid, x, y } => guild_member_position_step(s0, s1, aid, x, y) && out.len() == 0,
        ServerEvent::GuildMembers { members } => guild_members_step(s0, s1, members, out),
        ServerEvent::GuildPositions { positions } => guild_positions_step(s0, s1, positions) && out.len() == 0,
        ServerEvent::GuildBanList { entries } => guild_ban_list_step(s0, s1, entries) && out.len() == 0,
        ServerEvent::GuildRelations { relations } => guild_relations_step(s0, s1, relations) && out.len() == 0,
        ServerEvent::GuildMemberOnline { aid, gid, online, look } => guild_member_online_step(s0, s1, aid, gid, online, look, out),
        ServerEvent::PartyMemberRemoved { aid, name, result } => party_member_removed_step(s0, s1, aid, name, result, out),
        ServerEvent::PartyMemberHp { aid, hp, max_hp } => party_member_hp_step(s0, s1, aid, hp, max_hp) && out.len() == 0,
        ServerEvent::PartyMemberPosition { aid, x, y } => party_member_position_step(s0, s1, aid, x, y) && out.len() == 0,
        ServerEvent::PartyExpOptionChanged { exp_option } => party_exp_option_changed_step(s0, s1, exp_option) && out.len() == 0,
        ServerEvent::PartyConfigChanged { exp_option, item_pickup_rule, item_division_rule } => party_config_changed_step(s0, s1, exp_option, item_pickup_rule, item_division_rule) && out.len() == 0,
        ServerEvent::PartyMemberAdded { aid, name, map, leader, online, x, y, on_our_map } => party_member_added_step(s0, s1, aid, name, map, leader, online, x, y, on_our_map) && out.len() == 0,
        ServerEvent::PartyMemberList { name, members } => party_member_list_step(s0, s1, name, members) && out.len() == 0,
        ServerEvent::PartyCreateResult { result } => party_create_result_step(s0, s1, result, out),
        ServerEvent::VendingOwnStock { item_count } => vending_own_stock_step(s0, s1, item_count, out),
        ServerEvent::RestartAck => restart_ack_step(s0, s1, out),
        ServerEvent::ExchangeAckResult { result, level, my_level } => exchange_ack_result_step(s0, s1, result, level, my_level, out),
        ServerEvent::ExchangeCanceled => exchange_canceled_step(s0, s1, out),
        ServerEvent::ExchangeCompleted { result } => exchange_completed_step(s0, s1, result, out),
        ServerEvent::SkillUnitDisappeared { aid } => skill_unit_disappeared_step(s0, s1, aid, out),
        ServerEvent::SkillUnitUpdated { gid } => skill_unit_updated_step(s0, s1, gid) && out.len() == 0,
        ServerEvent::AdoptionMessage { msg_no } => adoption_message_step(msg_no, line_of(out[0])) && out.len() == 1 && out[0] is Chat && s1 == s0,
        ServerEvent::GuildChatMessage { message } => guild_chat_message_step(message, line_of(out[0])) && out.len() == 1 && out[0] is Chat && s1 == s0,
        ServerEvent::WhisperReceived { sender, message } => whisper_received_step(sender, message, out) && s1 == s0,
        ServerEvent::WhisperAck { result } => whisper_ack_step(s0, s1, result, first_of(out)) && out.len() <= 1,
        ServerEvent::MemoResult { result } => memo_result_step(result, line_of(out[0])) && out.len() == 1 && out[0] is Chat && s1 == s0,
        ServerEvent::MapInfoNotice { atype } => map_info_notice_step(atype, first_of(out)) && out.len() <= 1 && s1 == s0,
        ServerEvent::UserCount { count } => user_count_step(count, out[0]) && out.len() == 1 && s1 == s0,
        ServerEvent::AccountName { aid, name } => account_name_step(aid, name, line_of(out[0])) && out.len() == 1 && out[0] is Chat && s1 == s0,
        ServerEvent::WhisperSettingResult { allow, result, all } => whisper_setting_result_step(s0, s1, allow, result, all, first_line(out)) && out.len() <= 1 && all_chat(out),
        ServerEvent::Divorced { name } => divorced_step(s0, s1, name, line_of(out[0])) && out.len() == 1 && out[0] is Chat,
        ServerEvent::MvpFeedback { kind, item_name } => mvp_feedback_step(kind, item_name, line_of(out[0])) && out.len() == 1 && out[0] is Chat && s1 == s0,
        ServerEvent::PvpPointsReceived { win, lose, point } => pvp_points_received_step(win, lose, point, line_of(out[0])) && out.len() == 1 && out[0] is Chat && s1 == s0,
        ServerEvent::ServerColoredMessage { gid, color, message } => server_colored_message_step(gid, color, message, out) && s1 == s0,
        ServerEvent::OwnChatMessage { message, room_open, player_is_gm } => own_chat_message_step(s0, message, room_open, player_is_gm, out) && s1 == s0,
        ServerEvent::GmStatus { lines } => gm_status_step(s0, s1, lines, out.map_values(|e: Effect| line_of(e))) && all_chat(out),
        ServerEvent::MannerPointResult { result, line } => manner_point_result_step(result, line, first_line(out)) && out.len() <= 1 && all_chat(out) && s1 == s0,
        ServerEvent::HomunFeedResult { success, item_id, food_name } => homun_feed_result_step(s0, success, item_id, food_name, out) && s1 == s0,
        ServerEvent::DisconnectAck { allowed } => disconnect_ack_step(allowed, out) && s1 == s0,
        ServerEvent::Disconnected { reason, screen } => disconnected_step(reason, screen, out[0]) && out.len() == 1 && s1 == s0,
        ServerEvent::CharServerConnectRefused { error_code } => char_server_connect_refused_step(error_code, out) && s1 == s0,
        ServerEvent::GuildNotice { subject, body } => guild_notice_step(s0, s1, subject, body, out.map_values(|e: Effect| line_of(e))) && all_chat(out),
        ServerEvent::GuildCreateResult { result } => guild_create_result_step(result, out) && s1 == s0,
        ServerEvent::GuildJoinResult { answer } => guild_join_result_step(answer, first_line(out)) && out.len() <= 1 && all_chat(out) && s1 == s0,
        ServerEvent::GuildHostileResult { result } => guild_hostile_result_step(result, line_of(out[0])) && out.len() == 1 && out[0] is Chat && s1 == s0,
        ServerEvent::GuildAllyResult { answer } => guild_ally_result_step(answer, line_of(out[0])) && out.len() == 1 && out[0] is Chat && s1 == s0,
        ServerEvent::PartyInviteResult { name, answer } => party_invite_result_step(name, answer, line_of(out[0])) && out.len() == 1 && out[0] is Chat && s1 == s0,
        ServerEvent::PartyChatMessage { aid, message, entity_name } => party_chat_message_step(s0, aid, message, entity_name, line_of(out[0])) && out.len() == 1 && out[0] is Chat && s1 == s0,
        ServerEvent::ItemIdentifyResult { index, ok } => item_identify_result_step(index, ok, out) && s1 == s0,
        ServerEvent::ItemRefiningResult { index, refine, result } => item_refining_result_step(index, refine, result, out) && s1 == s0,
        ServerEvent::CardInsertResult { equip_index, card_index, result, card_item_id } => card_insert_result_step(equip_index, card_index, result, card_item_id, out) && s1 == s0,
        ServerEvent::RepairItemResult { ok } => repair_item_result_step(ok, out[0]) && out.len() == 1 && s1 == s0,
        ServerEvent::MakingItemResult { result } => making_item_result_step(result, out[0]) && out.len() == 1 && s1 == s0,
        ServerEvent::NpcShopBuyList { npc_id, items, fallback_npc_id } => npc_shop_buy_list_step(npc_id, items, fallback_npc_id, out) && s1 == s0,
        ServerEvent::NpcShopSellList { npc_id, items, fallback_npc_id } => npc_shop_sell_list_step(npc_id, items, fallback_npc_id, out) && s1 == s0,
        ServerEvent::NpcShopBuyResult { result } => npc_shop_buy_result_step(result, out[0]) && out.len() == 1 && s1 == s0,
        ServerEvent::NpcShopSellResult { result } => npc_shop_sell_result_step(result, out[0]) && out.len() == 1 && s1 == s0,
        ServerEvent::VendingPurchaseResult { index, curcount, result, shop_window_open } => vending_purchase_result_step(index, curcount, result, shop_window_open, out) && s1 == s0,
        ServerEvent::VendingStockDecrement { index, count } => vending_stock_decrement_step(index, count, out) && s1 == s0,
        ServerEvent::VendingOpenResult { result } => vending_open_result_step(s0, s1, result, first_line(out)) && out.len() <= 1 && all_chat(out),
        ServerEvent::OpenVendingSetup { max_items } => open_vending_setup_step(max_items, out[0]) && out.len() == 1 && s1 == s0,
        ServerEvent::MakableItemList { item_ids } => makable_item_list_step(item_ids, out[0]) && out.len() == 1 && s1 == s0,
        ServerEvent::WeaponRefineResult { result, item_name } => weapon_refine_result_step(result, item_name, first_of(out)) && out.len() <= 1 && s1 == s0,
        ServerEvent::PetFeedResult { ok, food_item_id, food_name } => pet_feed_result_step(ok, food_item_id, food_name, out[0]) && out.len() == 1 && s1 == s0,
        ServerEvent::PetCaptureStart => pet_capture_start_step(out[0]) && out.len() == 1 && s1 == s0,
        ServerEvent::PetCaptureResult { ok } => pet_capture_result_step(ok, out[0]) && out.len() == 1 && s1 == s0,
        ServerEvent::QuestRemoved { quest_id } => quest_removed_step(quest_id, out[0]) && out.len() == 1 && s1 == s0,
        ServerEvent::QuestActiveChanged { quest_id, active } => quest_active_changed_step(quest_id, active, out[0]) && out.len() == 1 && s1 == s0,
        ServerEvent::FriendStateChanged { aid, gid, online } => friend_state_changed_step(aid, gid, online, out[0]) && out.len() == 1 && s1 == s0,
        ServerEvent::FriendRemoved { aid, gid } => friend_removed_step(aid, gid, out[0]) && out.len() == 1 && s1 == s0,
        ServerEvent::StorageOpened { cur, max, already_open } => storage_opened_step(cur, max, already_open, out) && s1 == s0,
        ServerEvent::StorageItemRemoved { index, amount } => storage_item_removed_step(index, amount, out[0]) && out.len() == 1 && s1 == s0,
        ServerEvent::StorageClosed => storage_closed_step(out) && s1 == s0,
        ServerEvent::MailDeleteAck { mail_id, ok, opened_mail_id } => mail_delete_ack_step(mail_id, ok, opened_mail_id, out) && s1 == s0,
        ServerEvent::MailGetItemAck { result } => mail_get_item_ack_step(result, out[0]) && out.len() == 1 && s1 == s0,
        ServerEvent::MailAddItemAck { index, ok } => mail_add_item_ack_step(index, ok, out) && s1 == s0,
        ServerEvent::StoragePasswordRequest { prompt } => storage_password_request_step(prompt, out[0]) && out.len() == 1 && s1 == s0,
        ServerEvent::MailWindow { open } => mail_window_step(open, out) && s1 == s0,
        ServerEvent::MailSendAck { ok } => mail_send_ack_step(ok, out) && s1 == s0,
        ServerEvent::MailNewReceived { mail_id, inbox_shown } => mail_new_received_step(mail_id, inbox_shown, out) && s1 == s0,
        ServerEvent::MailReturnAck { mail_id, ok, opened_mail_id } => mail_return_ack_step(mail_id, ok, opened_mail_id, out) && s1 == s0,
        ServerEvent::FriendAddResult { result, aid, gid, name } => friend_add_result_step(result, aid, gid, name, out) && s1 == s0,
        ServerEvent::FriendRequestReceived { req_aid, req_gid, name } => friend_request_received_step(req_aid, req_gid, name, out[0]) && out.len() == 1 && s1 == s0,
        ServerEvent::PartyInviteReceived { party_grid, party_name } => party_invite_received_step(s0, party_grid, party_name, out[0]) && out.len() == 1 && s1 == s0,
        ServerEvent::GuildInviteReceived { gdid, name } => guild_invite_received_step(gdid, name, out[0]) && out.len() == 1 && s1 == s0,
        ServerEvent::GuildAllyRequestReceived { aid, name } => guild_ally_request_received_step(aid, name, out[0]) && out.len() == 1 && s1 == s0,
        ServerEvent::AdoptionRequested { father_aid, mother_aid, name } => adoption_requested_step(s0, s1, father_aid, mother_aid, name, out[0]) && out.len() == 1,
        ServerEvent::MarriageProposed { aid, gid, name } => marriage_proposed_step(s0, s1, aid, gid, name, out[0]) && out.len() == 1,
        ServerEvent::ExchangeRequested { refused_at_once } => exchange_requested_step(s0, s1, refused_at_once, first_of(out)) && out.len() <= 1,
        ServerEvent::ExchangeItemAdded { item_id, item_type, count, is_identified, is_damaged, refining_level, slot } => exchange_item_added_step(item_id, item_type, count, is_identified, is_damaged, refining_level, slot, out[0]) && out.len() == 1 && s1 == s0,
        ServerEvent::ExchangeAddResult { index, result } => exchange_add_result_step(index, result, out) && s1 == s0,
        ServerEvent::ExchangeConcluded { who } => exchange_concluded_step(who, out[0]) && out.len() == 1 && s1 == s0,
        ServerEvent::ExchangeUndo => exchange_undo_step(out[0]) && out.len() == 1 && s1 == s0,
        ServerEvent::MapCellChanged { x, y, cell_type } => map_cell_changed_step(x, y, cell_type, out[0]) && out.len() == 1 && s1 == s0,
        ServerEvent::EntityHpChanged { gid, hp, max_hp } => entity_hp_changed_step(s0, gid, hp, max_hp, out[0]) && out.len() == 1 && s1 == s0,
        ServerEvent::CartOff => cart_off_step(s0, out) && s1 == s0,
        ServerEvent::CartItemRemoved { index, count } => cart_item_removed_step(index, count, out[0]) && out.len() == 1 && s1 == s0,
        ServerEvent::CartCountInfo { cur_weight, max_weight, cur_count, max_count } => cart_count_info_step(cur_weight, max_weight, cur_count, max_count, out[0]) && out.len() == 1 && s1 == s0,
        ServerEvent::NpcCutin { image, position } => npc_cutin_step(s0, s1, image, position, first_of(out)) && out.len() <= 1,
        ServerEvent::BossInfo { kind, x, y, name, line } => boss_info_step(s0, s1, kind, x, y, name, line, first_line(out)) && out.len() <= 1 && all_chat(out),
    }
}

impl App {
    /// Hands a server event to its handler.
    pub fn handle_server_event(&mut self, event: ServerEvent) -> (out: Vec<Effect>)
        ensures
            server_event_step(*old(self), event, *final(self), out@),
    {
        match event {
            ServerEvent::CoupleNameReceived { name } => {
                self.handle_couple_name_received(name);
                Vec::new()
            },
            ServerEvent::ActionFailure { error_code, job } => self.on_action_failure(error_code, job),
            ServerEvent::CompanionStateChanged { state, gid, data } => {
                self.handle_companion_state_changed(state, gid, data);
                Vec::new()
            },
            ServerEvent::SelfConfigChanged { kind, enabled } => {
                self.handle_self_config_changed(kind, enabled);
                Vec::new()
            },
            ServerEvent::ZoneServerChanged { map_name, ip, port } => self.handle_zone_server_changed(map_name, ip, port),
            ServerEvent::MapPropertyChanged { was_pk_zone, now_pk_zone } => self.handle_map_property_changed(was_pk_zone, now_pk_zone),
            ServerEvent::GuildMenuFlag { flag } => {
                self.handle_guild_menu_flag(flag);
                Vec::new()
            },
            ServerEvent::GuildInfo { info } => self.handle_guild_info(info),
            ServerEvent::GuildPositionNames { names } => {
                self.handle_guild_position_names(names);
                Vec::new()
            },
            ServerEvent::GuildMemberPositionsChanged { entries } => {
                self.handle_guild_member_positions_changed(entries);
                Vec::new()
            },
            ServerEvent::GuildIdentityUpdated { gdid, emblem_version, right, is_master, name } => self.handle_guild_identity_updated(gdid, emblem_version, right, is_master, name),
            ServerEvent::GuildMemberLeft { name, reason } => self.handle_guild_member_left(name, reason),
            ServerEvent::GuildMemberExpelled { name, reason } => self.handle_guild_member_expelled(name, reason),
            ServerEvent::GuildDisbandResult { reason } => self.handle_guild_disband_result(reason),
            ServerEvent::GuildRelationDeleted { gdid, relation } => {
                self.handle_guild_relation_deleted(gdid, relation);
                Vec::new()
            },
            ServerEvent::GuildRelationAdded { gdid, relation, name } => {
                self.handle_guild_relation_added(gdid, relation, name);
                Vec::new()
            },
            ServerEvent::GuildMemberPosition { aid, x, y } => {
                self.handle_guild_member_position(aid, x, y);
                Vec::new()
            },
            ServerEvent::GuildMembers { members } => self.handle_guild_members(members),
            ServerEvent::GuildPositions { positions } => {
                self.handle_guild_positions(positions);
                Vec::new()
            },
            ServerEvent::GuildBanList { entries } => {
                self.handle_guild_ban_list(entries);
                Vec::new()
            },
            ServerEvent::GuildRelations { relations } => {
                self.handle_guild_relations(relations);
                Vec::new()
            },
            ServerEvent::GuildMemberOnline { aid, gid, online, look } => self.handle_guild_member_online(aid, gid, online, look),
            ServerEvent::PartyMemberRemoved { aid, name, result } => self.handle_party_member_removed(aid, name, result),
            ServerEvent::PartyMemberHp { aid, hp, max_hp } => {
                self.handle_party_member_hp(aid, hp, max_hp);
                Vec::new()
            },
            ServerEvent::PartyMemberPosition { aid, x, y } => {
                self.handle_party_member_position(aid, x, y);
                Vec::new()
            },
            ServerEvent::PartyExpOptionChanged { exp_option } => {
                self.handle_party_exp_option_changed(exp_option);
                Vec::new()
            },
            ServerEvent::PartyConfigChanged { exp_option, item_pickup_rule, item_division_rule } => {
                self.handle_party_config_changed(exp_option, item_pickup_rule, item_division_rule);
                Vec::new()
            },
            ServerEvent::PartyMemberAdded { aid, name, map, leader, online, x, y, on_our_map } => {
                self.handle_party_member_added(aid, name, map, leader, online, x, y, on_our_map);
                Vec::new()
            },
            ServerEvent::PartyMemberList { name, members } => {
                self.handle_party_member_list(name, members);
                Vec::new()
            },
            ServerEvent::PartyCreateResult { result } => self.handle_party_create_result(result),
            ServerEvent::VendingOwnStock { item_count } => self.handle_vending_own_stock(item_count),
            ServerEvent::RestartAck => self.handle_restart_ack(),
            ServerEvent::ExchangeAckResult { result, level, my_level } => self.handle_exchange_ack_result(result, level, my_level),
            ServerEvent::ExchangeCanceled => self.handle_exchange_canceled(),
            ServerEvent::ExchangeCompleted { result } => self.handle_exchange_completed(result),
            ServerEvent::SkillUnitDisappeared { aid } => self.handle_skill_unit_disappeared(aid),
            ServerEvent::SkillUnitUpdated { gid } => {
                self.handle_skill_unit_updated(gid);
                Vec::new()
            },
            ServerEvent::AdoptionMessage { msg_no } => one(Effect::Chat(App::handle_adoption_message(msg_no))),
            ServerEvent::GuildChatMessage { message } => one(Effect::Chat(App::handle_guild_chat_message(message))),
            ServerEvent::WhisperReceived { sender, message } => App::handle_whisper_received(sender, message),
            ServerEvent::WhisperAck { result } => match self.handle_whisper_ack(result) {
                Some(e) => one(e),
                None => Vec::new(),
            },
            ServerEvent::MemoResult { result } => one(Effect::Chat(App::handle_memo_result(result))),
            ServerEvent::MapInfoNotice { atype } => match App::handle_map_info_notice(atype) {
                Some(e) => one(e),
                None => Vec::new(),
            },
            ServerEvent::UserCount { count } => one(App::handle_user_count(count)),
            ServerEvent::AccountName { aid, name } => one(Effect::Chat(App::handle_account_name(aid, name))),
            ServerEvent::WhisperSettingResult { allow, result, all } => match self.handle_whisper_setting_result(allow, result, all) {
                Some(l) => one(Effect::Chat(l)),
                None => Vec::new(),
            },
            ServerEvent::Divorced { name } => one(Effect::Chat(self.handle_divorced(name))),
            ServerEvent::MvpFeedback { kind, item_name } => one(Effect::Chat(App::handle_mvp_feedback(kind, item_name))),
            ServerEvent::PvpPointsReceived { win, lose, point } => one(Effect::Chat(App::handle_pvp_points_received(win, lose, point))),
            ServerEvent::ServerColoredMessage { gid, color, message } => App::handle_server_colored_message(gid, color, message),
            ServerEvent::OwnChatMessage { message, room_open, player_is_gm } => self.handle_own_chat_message(message, room_open, player_is_gm),
            ServerEvent::GmStatus { lines } => chat_effects(self.handle_gm_status(lines)),
            ServerEvent::MannerPointResult { result, line } => match App::handle_manner_point_result(result, line) {
                Some(l) => one(Effect::Chat(l)),
                None => Vec::new(),
            },
            ServerEvent::HomunFeedResult { success, item_id, food_name } => self.handle_homun_feed_result(success, item_id, food_name),
            ServerEvent::DisconnectAck { allowed } => App::handle_disconnect_ack(allowed),
            ServerEvent::Disconnected { reason, screen } => one(App::handle_disconnected(reason, screen)),
            ServerEvent::CharServerConnectRefused { error_code } => App::handle_char_server_connect_refused(error_code),
            ServerEvent::GuildNotice { subject, body } => chat_effects(self.handle_guild_notice(subject, body)),
            ServerEvent::GuildCreateResult { result } => App::handle_guild_create_result(result),
            ServerEvent::GuildJoinResult { answer } => match App::handle_guild_join_result(answer) {
                Some(l) => one(Effect::Chat(l)),
                None => Vec::new(),
            },
            ServerEvent::GuildHostileResult { result } => one(Effect::Chat(App::handle_guild_hostile_result(result))),
            ServerEvent::GuildAllyResult { answer } => one(Effect::Chat(App::handle_guild_ally_result(answer))),
            ServerEvent::PartyInviteResult { name, answer } => one(Effect::Chat(App::handle_party_invite_result(name, answer))),
            ServerEvent::PartyChatMessage { aid, message, entity_name } => one(Effect::Chat(self.handle_party_chat_message(aid, message, entity_name))),
            ServerEvent::ItemIdentifyResult { index, ok } => App::handle_item_identify_result(index, ok),
            ServerEvent::ItemRefiningResult { index, refine, result } => App::handle_item_refining_result(index, refine, result),
            ServerEvent::CardInsertResult { equip_index, card_index, result, card_item_id } => App::handle_card_insert_result(equip_index, card_index, result, card_item_id),
            ServerEvent::RepairItemResult { ok } => one(App::handle_repair_item_result(ok)),
            ServerEvent::MakingItemResult { result } => one(App::handle_making_item_result(result)),
            ServerEvent::NpcShopBuyList { npc_id, items, fallback_npc_id } => App::handle_npc_shop_buy_list(npc_id, items, fallback_npc_id),
            ServerEvent::NpcShopSellList { npc_id, items, fallback_npc_id } => App::handle_npc_shop_sell_list(npc_id, items, fallback_npc_id),
            ServerEvent::NpcShopBuyResult { result } => one(App::handle_npc_shop_buy_result(result)),
            ServerEvent::NpcShopSellResult { result } => one(App::handle_npc_shop_sell_result(result)),
            ServerEvent::VendingPurchaseResult { index, curcount, result, shop_window_open } => App::handle_vending_purchase_result(index, curcount, result, shop_window_open),
            ServerEvent::VendingStockDecrement { index, count } => App::handle_vending_stock_decrement(index, count),
            ServerEvent::VendingOpenResult { result } => match self.handle_vending_open_result(result) {
                Some(l) => one(Effect::Chat(l)),
                None => Vec::new(),
            },
            ServerEvent::OpenVendingSetup { max_items } => one(App::handle_open_vending_setup(max_items)),
            ServerEvent::MakableItemList { item_ids } => one(App::handle_makable_item_list(item_ids)),
            ServerEvent::WeaponRefineResult { result, item_name } => match App::handle_weapon_refine_result(result, item_name) {
                Some(e) => one(e),
                None => Vec::new(),
            },
            ServerEvent::PetFeedResult { ok, food_item_id, food_name } => one(App::handle_pet_feed_result(ok, food_item_id, food_name)),
            ServerEvent::PetCaptureStart => one(App::handle_pet_capture_start()),
            ServerEvent::PetCaptureResult { ok } => one(App::handle_pet_capture_result(ok)),
            ServerEvent::QuestRemoved { quest_id } => one(App::handle_quest_removed(quest_id)),
            ServerEvent::QuestActiveChanged { quest_id, active } => one(App::handle_quest_active_changed(quest_id, active)),
            ServerEvent::FriendStateChanged { aid, gid, online } => one(App::handle_friend_state_changed(aid, gid, online)),
            ServerEvent::FriendRemoved { aid, gid } => one(App::handle_friend_removed(aid, gid)),
            ServerEvent::StorageOpened { cur, max, already_open } => App::handle_storage_opened(cur, max, already_open),
            ServerEvent::StorageItemRemoved { index, amount } => one(App::handle_storage_item_removed(index, amount)),
            ServerEvent::StorageClosed => App::handle_storage_closed(),
            ServerEvent::MailDeleteAck { mail_id, ok, opened_mail_id } => App::handle_mail_delete_ack(mail_id, ok, opened_mail_id),
            ServerEvent::MailGetItemAck { result } => one(App::handle_mail_get_item_ack(result)),
            ServerEvent::MailAddItemAck { index, ok } => App::handle_mail_add_item_ack(index, ok),
            ServerEvent::StoragePasswordRequest { prompt } => one(App::handle_storage_password_request(prompt)),
            ServerEvent::MailWindow { open } => App::handle_mail_window(open),
            ServerEvent::MailSendAck { ok } => App::handle_mail_send_ack(ok),
            ServerEvent::MailNewReceived { mail_id, inbox_shown } => App::handle_mail_new_received(mail_id, inbox_shown),
            ServerEvent::MailReturnAck { mail_id, ok, opened_mail_id } => App::handle_mail_return_ack(mail_id, ok, opened_mail_id),
            ServerEvent::FriendAddResult { result, aid, gid, name } => App::handle_friend_add_result(result, aid, gid, name),
            ServerEvent::FriendRequestReceived { req_aid, req_gid, name } => one(App::handle_friend_request_received(req_aid, req_gid, name)),
            ServerEvent::PartyInviteReceived { party_grid, party_name } => one(self.handle_party_invite_received(party_grid, party_name)),
            ServerEvent::GuildInviteReceived { gdid, name } => one(App::handle_guild_invite_received(gdid, name)),
            ServerEvent::GuildAllyRequestReceived { aid, name } => one(App::handle_guild_ally_request_received(aid, name)),
            ServerEvent::AdoptionRequested { father_aid, mother_aid, name } => one(self.handle_adoption_requested(father_aid, mother_aid, name)),
            ServerEvent::MarriageProposed { aid, gid, name } => one(self.handle_marriage_proposed(aid, gid, name)),
            ServerEvent::ExchangeRequested { refused_at_once } => match self.handle_exchange_requested(refused_at_once) {
                Some(e) => one(e),
                None => Vec::new(),
            },
            ServerEvent::ExchangeItemAdded { item_id, item_type, count, is_identified, is_damaged, refining_level, slot } => one(App::handle_exchange_item_added(item_id, item_type, count, is_identified, is_damaged, refining_level, slot)),
            ServerEvent::ExchangeAddResult { index, result } => App::handle_exchange_add_result(index, result),
            ServerEvent::ExchangeConcluded { who } => one(App::handle_exchange_concluded(who)),
            ServerEvent::ExchangeUndo => one(App::handle_exchange_undo()),
            ServerEvent::MapCellChanged { x, y, cell_type } => one(App::handle_map_cell_changed(x, y, cell_type)),
            ServerEvent::EntityHpChanged { gid, hp, max_hp } => one(self.handle_entity_hp_changed(gid, hp, max_hp)),
            ServerEvent::CartOff => self.handle_cart_off(),
            ServerEvent::CartItemRemoved { index, count } => one(App::handle_cart_item_removed(index, count)),
            ServerEvent::CartCountInfo { cur_weight, max_weight, cur_count, max_count } => one(App::handle_cart_count_info(cur_weight, max_weight, cur_count, max_count)),
            ServerEvent::NpcCutin { image, position } => match self.handle_npc_cutin(image, position) {
                Some(e) => one(e),
                None => Vec::new(),
            },
            ServerEvent::BossInfo { kind, x, y, name, line } => match self.handle_boss_info(kind, x, y, name, line) {
                Some(l) => one(Effect::Chat(l)),
                None => Vec::new(),
            },
        }
    }
}

} // verus!
