use client::app::{App, Settings};
use client::effects::{ConfirmAction, Effect, Packet};
use client::guild::Guild;
use client::party::Party;

fn settings() -> Settings {
    Settings {
        show_skill_effects: true,
        fog: true,
        show_level_aura: true,
        boss_aura: false,
        refuse_trade: false,
        refuse_party_invite: false,
        bgm_enabled: true,
        sfx_enabled: true,
        snap_monster_no_skill: false,
        snap_monster_skill: false,
        snap_item: false,
    }
}

#[test]
fn closing_the_npc_dialog_takes_the_illustrations_down() {
    let mut app = App::new(settings());
    app.handle_npc_cutin("face.bmp".to_string(), 1);
    let e = app.request_npc_close(44);
    assert!(matches!(e, Effect::Send(Packet::NpcClose(44))));
    assert!(app.npc_cutins.iter().all(|c| c.is_none()));
}

#[test]
fn only_a_cancelled_menu_takes_the_illustrations_down() {
    let mut app = App::new(settings());
    app.handle_npc_cutin("face.bmp".to_string(), 0);
    let e = app.request_npc_menu_select(44, 2);
    assert!(matches!(e, Effect::Send(Packet::NpcMenuSelect { npc_id: 44, choice: 2 })));
    assert!(app.npc_cutins[0].is_some());
    app.request_npc_menu_select(44, 255);
    assert!(app.npc_cutins[0].is_none());
}

#[test]
fn a_trade_proposal_keeps_the_partner() {
    let mut app = App::new(settings());
    let e = app.request_exchange_item(12, Some("Bob".to_string()));
    assert!(matches!(e, Effect::Send(Packet::ReqExchangeItem(12))));
    assert_eq!(app.pending.trade_partner, Some((12, "Bob".to_string())));
    app.request_exchange_item(13, None);
    assert_eq!(app.pending.trade_partner, Some((13, String::new())));
}

#[test]
fn a_whisper_is_kept_until_acknowledged() {
    let mut app = App::new(settings());
    let e = app.request_send_whisper("Ann".to_string(), "hi".to_string());
    assert!(matches!(e, Effect::Send(Packet::Whisper { ref name, ref text }) if name == "Ann" && text == "hi"));
    assert_eq!(app.pending.whisper_out, Some(("Ann".to_string(), "hi".to_string())));
    let out = app.handle_whisper_ack(0);
    assert!(matches!(out, Some(Effect::WhisperOut { ref name, ref message }) if name == "Ann" && message == "hi"));
}

#[test]
fn inviting_without_a_party_makes_one_first() {
    let mut app = App::new(settings());
    let e = app.request_party_invite(5, Some("Me".to_string()));
    assert!(matches!(e, Effect::Send(Packet::MakeParty(ref n)) if n == "Me"));
    assert_eq!(app.pending.invite_aid, Some(5));
    let mut other = App::new(settings());
    let e = other.request_party_invite(5, None);
    assert!(matches!(e, Effect::Send(Packet::MakeParty(ref n)) if n == "Party"));
    other.party = Some(Party::new("Crew".to_string()));
    other.pending.invite_aid = None;
    let e = other.request_party_invite(6, None);
    assert!(matches!(e, Effect::Send(Packet::ReqJoinParty(6))));
    assert_eq!(other.pending.invite_aid, None);
}

#[test]
fn guild_requests_need_a_guild() {
    let mut app = App::new(settings());
    assert!(app.request_set_guild_notice("a".to_string(), "b".to_string()).is_none());
    assert!(app.confirmed_guild_expel(1, 2, "spam".to_string()).is_none());
    assert!(matches!(app.request_guild_leave(), Effect::Confirm { ref text, action: ConfirmAction::GuildLeave } if text == "Leave the guild?"));
    assert!(app.answer_confirm(ConfirmAction::GuildLeave, true).is_empty());
    let mut g = Guild::new();
    g.gdid = 9;
    g.name = "Knights".to_string();
    app.guild = Some(g);
    app.account_id = Some(2000001);
    assert!(matches!(app.request_set_guild_notice("a".to_string(), "b".to_string()),
        Some(Effect::Send(Packet::GuildNotice { gdid: 9, ref subject, ref body })) if subject == "a" && body == "b"));
    assert!(matches!(app.confirmed_guild_expel(1, 2, "spam".to_string()),
        Some(Effect::Send(Packet::BanGuild { gdid: 9, account: 1, character: 2, ref reason })) if reason == "spam"));
    assert!(matches!(app.request_guild_leave(), Effect::Confirm { ref text, .. } if text == "Leave Knights?"));
    let out = app.answer_confirm(ConfirmAction::GuildLeave, true);
    assert!(matches!(&out[..], [Effect::Send(Packet::LeaveGuild { gdid: 9, account: 2000001, character: 2000001, reason })] if reason.is_empty()));
    assert!(app.answer_confirm(ConfirmAction::GuildLeave, false).is_empty());
}

#[test]
fn guild_invitations_carry_our_ids() {
    let mut app = App::new(settings());
    assert!(matches!(app.request_guild_invite(7), Effect::Send(Packet::ReqJoinGuild { target_aid: 7, my_aid: 0, my_gid: 0 })));
    app.account_id = Some(42);
    assert!(matches!(app.request_guild_ally(7), Effect::Send(Packet::ReqAllyGuild { target_aid: 7, my_aid: 42, my_gid: 42 })));
}

#[test]
fn cancelling_a_relation_is_asked_first() {
    let e = App::request_delete_guild_relation(3, 0);
    assert!(matches!(e, Effect::Confirm { ref text, action: ConfirmAction::DeleteGuildRelation { gdid: 3, relation: 0 } } if text == "Cancel this alliance?"));
    let e = App::request_delete_guild_relation(3, 1);
    assert!(matches!(e, Effect::Confirm { ref text, .. } if text == "Cancel this antagonist declaration?"));
    let mut app = App::new(settings());
    let out = app.answer_confirm(ConfirmAction::DeleteGuildRelation { gdid: 3, relation: 1 }, true);
    assert!(matches!(out[..], [Effect::Send(Packet::DeleteRelatedGuild { gdid: 3, relation: 1 })]));
    assert!(app.answer_confirm(ConfirmAction::DeleteGuildRelation { gdid: 3, relation: 1 }, false).is_empty());
}
