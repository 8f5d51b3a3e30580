use client::app::{App, Settings};
use client::effect_id::{EffectId, LevelAura};
use client::effect_keys::DetectBits;
use client::combat::AttackStep;
use client::effects::{ChatKind, Effect, ItemOp, Packet, SessionChange};
use client::player::{HandLook, act_event_audible, act_event_draws};
use client::text::{decimal, signed_decimal};
use client::world::TrapUnit;

fn settings() -> Settings {
    Settings {
        show_skill_effects: true,
        fog: true,
        show_level_aura: true,
        boss_aura: true,
        refuse_trade: false,
        refuse_party_invite: false,
        bgm_enabled: true,
        sfx_enabled: true,
        snap_monster_no_skill: false,
        snap_monster_skill: false,
        snap_item: false,
    }
}

#[test]
fn a_fresh_client_holds_nothing() {
    let app = App::new(settings());
    assert!(app.account_id.is_none() && app.player_id.is_none());
    assert!(app.party.is_none() && app.guild.is_none());
    assert!(app.trap_units.is_empty() && app.hidden_traps.is_empty());
    assert!(app.prefs.blocked_whispers.is_empty());
    assert!(app.prefs.show_exp && app.prefs.show_miss);
    assert_eq!(app.settings, settings());
    assert_eq!(app.npc_cutins, [None, None, None]);
    assert_eq!(app.combat.attack_target_id, None);
}

#[test]
fn trade_requests_are_answered_and_forgotten() {
    let mut app = App::new(settings());
    app.pending.trade_request = Some(("Bob".to_string(), 9));
    app.pending.trade_partner = Some((9, "Bob".to_string()));
    assert!(app.handle_exchange_requested(false).is_none());
    assert!(app.pending.trade_request.is_some());

    let out = app.handle_exchange_requested(true);
    assert!(matches!(out, Some(Effect::Send(Packet::AckExchangeItem(4)))));
    assert_eq!(app.pending.trade_request, None);
    assert_eq!(app.pending.trade_partner, None);

    app.pending.trade_request = Some(("Cid".to_string(), 10));
    app.pending.trade_partner = Some((10, "Cid".to_string()));
    let out = app.respond_exchange_request(true);
    assert!(matches!(out, Effect::Send(Packet::AckExchangeItem(3))));
    assert_eq!(app.pending.trade_request, None);
    assert_eq!(app.pending.trade_partner, Some((10, "Cid".to_string())));

    let out = app.handle_exchange_ack_result(3, 50, 60);
    assert!(matches!(&out[..], [
        Effect::Items(ItemOp::TradeBegin { name, aid: 10, level: 50, my_level: 60 }),
        Effect::Items(ItemOp::InventoryOpen),
    ] if name == "Cid"));
    assert_eq!(app.pending.trade_partner, None);
}

#[test]
fn trade_failures_name_the_reason() {
    let mut app = App::new(settings());
    let out = app.handle_exchange_ack_result(5, 1, 1);
    assert!(matches!(&out[..], [Effect::Chat(l)] if l.kind == ChatKind::Error
        && l.text == "The other player is busy dealing."));
    let out = App::handle_exchange_add_result(3, 1);
    assert!(matches!(&out[..], [Effect::Items(ItemOp::TradeTakePendingAdd), Effect::Chat(l)]
        if l.text == "You are over your weight limit."));
    let out = App::handle_exchange_add_result(3, 0);
    assert!(matches!(out[..], [Effect::Items(ItemOp::TradeCommitAdd)]));
    let out = app.handle_exchange_completed(1);
    assert!(matches!(&out[0], Effect::Chat(l) if l.text == "The deal has failed."));
    let out = app.handle_exchange_canceled();
    assert!(matches!(&out[2], Effect::Chat(l) if l.text == "The deal has been canceled."));
    assert!(matches!(
        App::handle_exchange_item_added(0, 0, 5000, false, false, 0, [0; 4]),
        Effect::Items(ItemOp::TradeSetOtherZeny(5000))
    ));
}

#[test]
fn attacks_lock_on_with_no_ctrl_mode_or_ctrl_held() {
    let mut app = App::new(settings());
    let step = app.initiate_attack(7, false, false, Some((3, 4)), true);
    assert!(matches!(step, AttackStep::Swing(Effect::Send(Packet::AttackRepeat(7)))));
    assert!(!app.combat.attack_is_locked);
    assert_eq!(app.combat.attack_target_id, Some(7));
    app.initiate_attack(7, true, false, Some((3, 4)), true);
    assert!(app.combat.attack_is_locked);
    app.prefs.noctrl_mode = true;
    app.initiate_attack(8, false, false, Some((3, 4)), true);
    assert!(app.combat.attack_is_locked);
}

#[test]
fn an_attack_walks_when_out_of_reach_and_not_when_hidden() {
    let mut app = App::new(settings());
    app.combat.queued_move = Some((1, 1));
    let step = app.begin_attack(7, false, true, Some((3, 4)), true);
    assert!(matches!(step, AttackStep::NotEngaged));
    assert_eq!(app.combat.queued_move, Some((1, 1)));
    let step = app.begin_attack(7, false, false, Some((3, 4)), false);
    assert!(matches!(step, AttackStep::Approach { x: 3, y: 4 }));
    assert_eq!(app.combat.queued_move, None);
    assert_eq!(app.combat.attack_target_id, None);
    app.approach_started(7);
    assert_eq!(app.combat.attack_target_id, Some(7));
    assert!(matches!(app.begin_attack(9, false, false, None, true), AttackStep::NotEngaged));
}

#[test]
fn an_attack_that_cannot_resume_stops_and_cancels_the_lock_on() {
    let mut app = App::new(settings());
    app.combat.attack_target_id = Some(7);
    app.combat.attack_request_sent = true;
    let (step, out) = app.resume_attack(7, false, Some((2, 2)), true);
    assert!(matches!(step, AttackStep::Swing(_)));
    assert!(out.is_empty());
    assert_eq!(app.combat.attack_target_id, Some(7));

    let (step, out) = app.resume_attack(7, true, Some((2, 2)), true);
    assert!(matches!(step, AttackStep::NotEngaged));
    assert!(matches!(out[..], [Effect::Send(Packet::CancelLockon)]));
    assert_eq!(app.combat.attack_target_id, None);
    assert!(!app.combat.attack_request_sent);

    app.combat.attack_target_id = Some(8);
    let (_, out) = app.resume_attack(8, false, None, true);
    assert!(out.is_empty());
    assert_eq!(app.combat.attack_target_id, None);

    app.combat.attack_target_id = Some(8);
    let out = app.abandon_attack(true);
    assert!(matches!(out[..], [Effect::Send(Packet::CancelLockon)]));
    assert_eq!(app.combat.attack_target_id, None);
}

#[test]
fn a_queued_move_leaves_on_the_next_state_change() {
    let mut app = App::new(settings());
    assert!(app.flush_queued_move(Some(1), true).is_none());
    app.combat.queued_move = Some((10, 11));
    app.combat.queued_move_state = Some(3);
    assert!(app.flush_queued_move(Some(3), true).is_none());
    assert_eq!(app.combat.queued_move, Some((10, 11)));
    let out = app.flush_queued_move(Some(0), true);
    assert!(matches!(out, Some(Effect::WalkTo { cell_x: 10, cell_y: 11 })));
    assert_eq!(app.combat.queued_move, None);
    assert_eq!(app.combat.queued_move_state, None);
    app.combat.queued_move = Some((5, 5));
    app.combat.queued_move_state = Some(3);
    assert!(app.flush_queued_move(None, false).is_none());
    assert_eq!(app.combat.queued_move, None);
}

#[test]
fn skill_units_move_their_model_and_leave_the_attack() {
    let mut app = App::new(settings());
    let unit = TrapUnit { unit_id: 0x8f, cell_x: 5, cell_y: 6 };
    assert!(app.register_skill_unit(30, unit).is_none());
    assert!(app.register_skill_unit(30, unit).is_none());
    let moved = TrapUnit { cell_x: 7, ..unit };
    assert!(matches!(app.register_skill_unit(30, moved), Some(Effect::RemoveSkillUnitModel(30))));
    assert_eq!(app.attack_target_cell(30, None), Some((7, 6)));
    assert_eq!(app.attack_target_cell(30, Some((1, 2))), Some((1, 2)));
    assert_eq!(app.attack_target_cell(31, None), None);

    app.combat.attack_target_id = Some(30);
    let out = app.handle_skill_unit_disappeared(30);
    assert!(matches!(out[..], [Effect::Despawn(30), Effect::ForgetSkillUnit(30)]));
    assert_eq!(app.combat.attack_target_id, None);
    assert!(app.trap_units.is_empty());
}

#[test]
fn revealed_traps_join_the_tracked_units() {
    let mut app = App::new(settings());
    app.hidden_traps.insert(40, TrapUnit { unit_id: 1, cell_x: -3, cell_y: 2 });
    app.handle_skill_unit_updated(40);
    assert!(app.hidden_traps.is_empty());
    assert_eq!(app.trap_units.get(&40).map(|u| u.cell_y), Some(2));
    assert_eq!(app.attack_target_cell(40, None), Some((0, 2)));
}

#[test]
fn level_aura_refresh_spawns_once_and_changes_with_the_toggle() {
    let mut app = App::new(settings());
    let out = app.refresh_level_aura(5, true, false);
    let spawned: Vec<EffectId> = out
        .iter()
        .map(|e| match e {
            Effect::SpawnKeyed { id, gid: 5, .. } => *id,
            other => panic!("unexpected {other:?}"),
        })
        .collect();
    assert_eq!(spawned, LevelAura::Layers.effects());
    assert!(app.refresh_level_aura(5, true, false).is_empty());

    app.settings.show_level_aura = false;
    let out = app.refresh_level_aura(5, true, false);
    assert!(matches!(out[0], Effect::Despawn(_)));
    assert_eq!(out.len(), 3);

    let out = app.refresh_level_aura(5, false, false);
    assert!(matches!(out[..], [Effect::Despawn(_)]));
    assert!(app.refresh_level_aura(5, false, false).is_empty());
}

#[test]
fn entity_effect_keys_stay_apart() {
    let mut app = App::new(settings());
    let a = app.next_entity_effect_key();
    let b = app.next_entity_effect_key();
    assert_ne!(a, b);
    assert!(a >= 0x8000_0000 && b >= 0x8000_0000);
}

#[test]
fn despawning_an_entity_drops_every_effect_it_held() {
    let mut app = App::new(settings());
    app.refresh_level_aura(5, true, true);
    app.refresh_boss_aura(5, true);
    app.refresh_pk_rank_aura(5, true, true, 3);
    let out = app.despawn_entity_effects(5);
    assert!(matches!(out[0], Effect::RemoveEntityEffects(5)));
    let despawned = out.iter().filter(|e| matches!(e, Effect::Despawn(_))).count();
    assert_eq!(despawned, 3);
    assert!(app.despawn_entity_effects(5).iter().all(|e| !matches!(e, Effect::Despawn(_))));
}

#[test]
fn restart_saves_then_logs_out_and_reconnects() {
    let mut app = App::new(settings());
    app.guild = Some(client::guild::Guild::new());
    app.refresh_level_aura(5, true, false);
    app.refresh_pk_rank_aura(5, true, true, 2);
    let out = app.handle_restart_ack();
    assert!(matches!(out[..], [
        Effect::CaptureWindowState,
        Effect::SaveConfig,
        Effect::Session(SessionChange::Logout),
        Effect::ReconnectCharServer,
    ]));
    assert!(app.guild.is_none());
    assert!(app.effect_keys.level_aura_keys.is_empty());
    assert_eq!(app.effect_keys.toprank_keys.len(), 1);
    assert_eq!(app.effect_keys.next_status_buff_key, 0);
}

#[test]
fn a_map_change_drops_what_belongs_to_the_old_map() {
    let mut app = App::new(settings());
    app.pending.trade_partner = Some((3, "Bob".to_string()));
    app.combat.attack_target_id = Some(4);
    app.combat.attack_is_locked = true;
    app.combat.queued_move = Some((1, 2));
    app.npc_cutins = [Some("a".to_string()), None, Some("b".to_string())];
    app.guild = Some(client::guild::Guild::new());
    let out = app.on_session_change(SessionChange::MapChange);
    assert!(matches!(out[..], [Effect::Session(SessionChange::MapChange)]));
    assert_eq!(app.pending.trade_partner, None);
    assert_eq!((app.combat.attack_target_id, app.combat.queued_move), (None, None));
    assert!(app.combat.attack_is_locked);
    assert_eq!(app.npc_cutins, [None, None, None]);
    assert!(app.guild.is_some());

    let out = app.on_session_change(SessionChange::Death);
    assert!(matches!(out[..], [Effect::Session(SessionChange::Death)]));
    assert!(app.guild.is_some());
}

#[test]
fn hand_look_changes_only_when_it_differs() {
    let mut app = App::new(settings());
    let look = HandLook { weapon: 1, weapon_look: 1201, shield: 0 };
    assert!(app.refresh_player_hand_look(look, Some(look)).is_empty());
    app.player_id = Some(150);
    assert!(app.refresh_player_hand_look(look, Some(look)).is_empty());
    assert!(app.refresh_player_hand_look(look, None).is_empty());
    let shown = HandLook { shield: 2101, ..look };
    let out = app.refresh_player_hand_look(look, Some(shown));
    assert!(matches!(out[..], [Effect::SetPlayerHandLook { gid: 150, weapon: 1, weapon_look: 1201, shield: 0 }]));
}

#[test]
fn act_events_play_always_at_full_rate_and_by_draw_below() {
    assert!(act_event_audible(100, None));
    assert!(act_event_audible(250, Some(12345)));
    assert!(act_event_audible(30, Some(129)));
    assert!(!act_event_audible(30, Some(130)));
    assert!(!act_event_audible(0, Some(0)));
    assert!(!act_event_audible(30, None));
    assert!(!act_event_draws(100));
    assert!(!act_event_draws(250));
    assert!(act_event_draws(99));
    assert!(act_event_draws(0));
}

#[test]
fn decimal_rendering_matches_to_string() {
    for n in [0u64, 7, 10, 99, 100, 65535, u64::MAX] {
        assert_eq!(decimal(n), n.to_string());
    }
    for i in [0i64, -1, 42, -9000, i64::MIN, i64::MAX] {
        assert_eq!(signed_decimal(i), i.to_string());
    }
}

#[test]
fn only_a_guarded_player_absorbs_monster_blows() {
    let mut app = App::new(settings());
    app.player_id = Some(5);
    assert!(app.blocks_incoming_blow(5, true, &vec![3, 19]));
    assert!(app.blocks_incoming_blow(5, true, &vec![104]));
    assert!(!app.blocks_incoming_blow(5, true, &vec![3, 20]));
    assert!(!app.blocks_incoming_blow(5, false, &vec![19]));
    assert!(!app.blocks_incoming_blow(6, true, &vec![19]));
    app.player_id = None;
    assert!(!app.blocks_incoming_blow(5, true, &vec![19]));
}

#[test]
fn a_zone_change_runs_the_map_change_then_switches() {
    let mut app = App::new(settings());
    app.combat.attack_target_id = Some(9);
    let out = app.handle_zone_server_changed("geffen".to_string(), 0x0100007f, 5121);
    assert!(matches!(&out[..], [
        Effect::Session(SessionChange::MapChange),
        Effect::ClearMapActors,
        Effect::SwitchZone { map_name, ip: 0x0100007f, port: 5121 },
    ] if map_name == "geffen"));
    assert_eq!(app.combat.attack_target_id, None);
}

#[test]
fn a_refused_action_drops_the_target_unless_arrows_were_equipped() {
    let mut app = App::new(settings());
    app.combat.attack_target_id = Some(9);
    let out = app.on_action_failure(3, 4001);
    assert_eq!(app.combat.attack_target_id, Some(9));
    assert!(out.iter().all(|e| !matches!(e, Effect::ActionFailed)));
    let out = app.on_action_failure(0, 0);
    assert_eq!(app.combat.attack_target_id, None);
    assert!(matches!(out[..], [Effect::ActionFailed, Effect::MsgLine { .. }]));
}

#[test]
fn leaving_a_pvp_map_resets_the_ranks() {
    let mut app = App::new(settings());
    assert!(app.handle_map_property_changed(false, true).is_empty());
    assert!(app.handle_map_property_changed(true, true).is_empty());
    let out = app.handle_map_property_changed(true, false);
    assert!(matches!(out.last(), Some(Effect::ResetPkRanks)));
}

#[test]
fn stopping_cancels_only_a_running_repeat_attack() {
    let mut app = App::new(settings());
    app.combat.attack_target_id = Some(3);
    assert!(app.stop_attacking().is_none());
    assert_eq!(app.combat.attack_target_id, None);
    let e = app.send_attack_packet(3);
    assert!(matches!(e, Effect::Send(Packet::AttackRepeat(3))));
    assert!(app.combat.attack_request_sent);
    assert_eq!(app.combat.last_attacked_enemy, Some(3));
    assert!(matches!(app.stop_attacking(), Some(Effect::Send(Packet::CancelLockon))));
    assert!(!app.combat.attack_request_sent);
    assert!(app.stop_attacking().is_none());
}

#[test]
fn detection_auras_follow_the_option_word() {
    let mut app = App::new(settings());
    assert!(app.refresh_detect_aura(5, None).is_empty());
    let out = app.refresh_detect_aura(5, Some(DetectBits { sight: true, ruwach: false }));
    assert!(matches!(out[..], [
        Effect::SpawnKeyed { id: EffectId::Sight2, gid: 5, key: 0x8000_0000, repeat: 1 },
        Effect::DetectSound(5),
    ]));
    assert!(app.refresh_detect_aura(5, Some(DetectBits { sight: true, ruwach: false })).is_empty());
    let out = app.refresh_detect_aura(5, Some(DetectBits { sight: false, ruwach: true }));
    assert!(matches!(out[..], [
        Effect::Despawn(0x8000_0000),
        Effect::SpawnKeyed { id: EffectId::Ruwach, gid: 5, key: 0x8000_0001, repeat: 1 },
        Effect::DetectSound(5),
    ]));
    assert_eq!(app.effect_keys.next_status_buff_key, 2);
}
