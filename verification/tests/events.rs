use client::app::{App, Settings};
use client::effects::{ChatKind, Effect, Packet, SessionChange};
use client::events::ServerEvent;
use client::ui_events::UiEvent;

fn settings() -> Settings {
    Settings {
        show_skill_effects: true,
        fog: true,
        show_level_aura: true,
        boss_aura: false,
        refuse_trade: false,
        refuse_party_invite: false,
        bgm_enabled: true,
        sfx_enabled: true,
        snap_monster_no_skill: false,
        snap_monster_skill: false,
        snap_item: false,
    }
}

#[test]
fn server_events_reach_their_handlers() {
    let mut app = App::new(settings());
    app.combat.attack_target_id = Some(4);
    let out = app.handle_server_event(ServerEvent::ActionFailure { error_code: 0, job: 0 });
    assert!(matches!(out[0], Effect::ActionFailed));
    assert_eq!(app.combat.attack_target_id, None);

    let out = app.handle_server_event(ServerEvent::GuildMenuFlag { flag: 7 });
    assert!(out.is_empty());
    assert_eq!(app.guild_menu_flag, 7);

    let out = app.handle_server_event(ServerEvent::GuildHostileResult { result: 1 });
    assert!(matches!(&out[..], [Effect::Chat(l)] if l.kind == ChatKind::System && l.text == "Your guild has too many antagonists."));

    let out = app.handle_server_event(ServerEvent::ZoneServerChanged { map_name: "geffen".to_string(), ip: 1, port: 2 });
    assert!(matches!(out[0], Effect::Session(SessionChange::MapChange)));

    let out = app.handle_server_event(ServerEvent::GuildInviteReceived { gdid: 5, name: "K".to_string() });
    assert!(matches!(&out[..], [Effect::Confirm { .. }]));

    let out = app.handle_server_event(ServerEvent::ExchangeUndo);
    assert_eq!(out.len(), 1);

    app.pending.gm_check = Some("Bob".to_string());
    let out = app.handle_server_event(ServerEvent::GmStatus { lines: vec!["a".to_string(), "b".to_string()] });
    let texts: Vec<String> = out.iter().map(|e| match e { Effect::Chat(l) => l.text.clone(), _ => String::new() }).collect();
    assert_eq!(texts, vec!["== Bob ==".to_string(), "  a".to_string(), "  b".to_string()]);

    let out = app.handle_server_event(ServerEvent::MapPropertyChanged { was_pk_zone: true, now_pk_zone: false });
    assert!(matches!(out.last(), Some(Effect::ResetPkRanks)));
    let _ = Packet::CancelLockon;
}

#[test]
fn ui_requests_reach_their_handlers() {
    let mut app = App::new(settings());
    let out = app.handle_ui_event(UiEvent::RequestSendWhisper { name: "Ann".to_string(), message: "hi".to_string() });
    assert!(matches!(&out[..], [Effect::Send(Packet::Whisper { .. })]));
    assert!(app.pending.whisper_out.is_some());
    let out = app.handle_ui_event(UiEvent::RequestGuildInvite { target_aid: 3 });
    assert!(matches!(out[..], [Effect::Send(Packet::ReqJoinGuild { target_aid: 3, .. })]));
    let out = app.handle_ui_event(UiEvent::RequestSetGuildNotice { subject: "a".to_string(), body: "b".to_string() });
    assert!(out.is_empty());
    let out = app.handle_ui_event(UiEvent::StopAttacking);
    assert!(out.is_empty());
}

#[test]
fn the_spouse_name_is_kept() {
    let mut app = App::new(settings());
    assert!(app.handle_server_event(ServerEvent::CoupleNameReceived { name: "Juliet".to_string() }).is_empty());
    assert_eq!(app.partner_name, "Juliet");
}
