use client::app::{App, EntitySnapshot, Settings};
use client::chat::{MvpFeedback, WeddingSkill};
use client::companions::Companion;
use client::config::SelfConfigKind;
use client::world::BossInfoKind;
use client::effect_id::EffectId;
use client::effects::{ChatKind, ConfirmAction, Effect, ItemOp, MailOp, Packet, PasswordOp, Screen};
use client::guild::{Guild, GuildInfo, GuildStats};
use client::notice::{Rgb, TextColor};
use client::party::Party;
use client::production::RefineItemRow;
use client::shops::{StoragePasswordOutcome, StoragePasswordPrompt};

fn settings() -> Settings {
    Settings {
        show_skill_effects: true,
        fog: true,
        show_level_aura: true,
        boss_aura: true,
        refuse_trade: false,
        refuse_party_invite: false,
        bgm_enabled: true,
        sfx_enabled: true,
        snap_monster_no_skill: false,
        snap_monster_skill: false,
        snap_item: false,
    }
}

fn text_of(e: &Effect) -> String {
    match e {
        Effect::Chat(l) => l.text.clone(),
        other => panic!("expected a chat line, got {other:?}"),
    }
}

#[test]
fn friend_answers_are_reported_and_acceptance_adds_the_friend() {
    let out = App::handle_friend_add_result(0, 1, 2, "Ann".to_string());
    assert!(matches!(&out[0], Effect::FriendUpsert { aid: 1, gid: 2, name } if name == "Ann"));
    assert_eq!(text_of(&out[1]), "You are now friends with Ann.");
    let cases = [
        (1, "Ann does not want to be friends with you."),
        (2, "Your friend list is full."),
        (3, "Ann's friend list is full."),
        (9, "Failed to add Ann as a friend."),
    ];
    for (result, text) in cases {
        let out = App::handle_friend_add_result(result, 1, 2, "Ann".to_string());
        assert_eq!(out.len(), 1);
        assert_eq!(text_of(&out[0]), text);
    }
    let e = App::handle_friend_request_received(5, 6, "Bob".to_string());
    assert!(matches!(&e, Effect::Confirm { text, action: ConfirmAction::FriendRequest { req_aid: 5, req_gid: 6 } }
        if text == "Bob wishes to be friends with you. Accept?"));
}

#[test]
fn party_invites_are_refused_at_once_when_the_player_says_so() {
    let mut app = App::new(settings());
    let e = app.handle_party_invite_received(77, "Crew".to_string());
    assert!(matches!(&e, Effect::Confirm { text, action: ConfirmAction::JoinParty { party_grid: 77 } }
        if text == "Join party \"Crew\"?"));
    app.prefs.refuse_party_invite = true;
    let e = app.handle_party_invite_received(77, "Crew".to_string());
    assert!(matches!(e, Effect::Send(Packet::JoinPartyReply { party_grid: 77, accept: false })));
}

#[test]
fn storage_password_answers_drive_the_window() {
    let out = App::handle_storage_password_result(StoragePasswordOutcome::CheckFailed, 1);
    assert!(matches!(out[0], Effect::StoragePassword(PasswordOp::EnsureOpenEnter)));
    assert!(matches!(&out[1], Effect::StoragePassword(PasswordOp::Message(m)) if m == "Wrong password. 2 attempt(s) left."));
    let out = App::handle_storage_password_result(StoragePasswordOutcome::CheckFailed, 7);
    assert!(matches!(&out[1], Effect::StoragePassword(PasswordOp::Message(m)) if m == "Wrong password. 0 attempt(s) left."));
    let out = App::handle_storage_password_result(StoragePasswordOutcome::ChangeOk, 0);
    assert!(matches!(&out[1], Effect::StoragePassword(PasswordOp::Message(m)) if m == "Password changed. Enter it to continue."));
    let out = App::handle_storage_password_result(StoragePasswordOutcome::CheckOk, 0);
    assert!(matches!(out[..], [Effect::StoragePassword(PasswordOp::Close)]));
    let out = App::handle_storage_password_result(StoragePasswordOutcome::LockedOut, 3);
    assert!(matches!(&out[..], [Effect::StoragePassword(PasswordOp::Close), Effect::Dialog(_)]));

    let e = App::handle_storage_password_request(StoragePasswordPrompt::NotSetYet);
    assert!(matches!(&e, Effect::Confirm { text, action: ConfirmAction::SetStoragePassword }
        if text == "No storage password is set. Set one now?"));
    assert!(matches!(
        App::handle_storage_password_request(StoragePasswordPrompt::Required),
        Effect::StoragePassword(PasswordOp::OpenEnter)
    ));
    assert!(App::open_storage_password_dialog(StoragePasswordPrompt::LockedOut).is_none());
    assert!(matches!(
        App::open_storage_password_dialog(StoragePasswordPrompt::NotSetYet),
        Some(Effect::StoragePassword(PasswordOp::OpenSetNew))
    ));
}

#[test]
fn mail_answers_keep_the_inbox_in_step() {
    let out = App::handle_mail_return_ack(12, true, Some(12));
    assert!(matches!(out[..], [
        Effect::Mail(MailOp::RemoveFromInbox(12)),
        Effect::Mail(MailOp::CloseOpened),
        Effect::Send(Packet::MailGetList),
    ]));
    let out = App::handle_mail_return_ack(12, true, Some(13));
    assert!(matches!(out[..], [Effect::Mail(MailOp::RemoveFromInbox(12)), Effect::Send(Packet::MailGetList)]));
    let out = App::handle_mail_return_ack(12, false, None);
    assert_eq!(text_of(&out[0]), "Failed to return the mail.");

    let out = App::handle_mail_send_ack(true);
    assert_eq!(out.len(), 4);
    assert_eq!(text_of(&out[2]), "Mail sent.");
    let out = App::handle_mail_send_ack(false);
    assert_eq!(text_of(&out[1]), "The recipient does not exist.");

    assert!(App::handle_mail_new_received(0, true).is_empty());
    let out = App::handle_mail_new_received(4, false);
    assert_eq!(out.len(), 1);
    assert_eq!(text_of(&out[0]), "You've got mail.");
    assert_eq!(App::handle_mail_new_received(4, true).len(), 2);

    assert!(matches!(App::handle_mail_window(false)[..], [Effect::Mail(MailOp::Clear)]));
    assert_eq!(App::handle_mail_window(true).len(), 3);
}

#[test]
fn refining_appraisal_and_repair_report_in_their_colours() {
    let out = App::handle_item_refining_result(4, 7, 0);
    assert!(matches!(out[..], [
        Effect::SpawnOnPlayer(EffectId::Refineok),
        Effect::MsgLine { msg_id: 0x1f2, color: TextColor::Cyan, .. },
        Effect::Items(ItemOp::SetRefine { index: 4, refine: 7 }),
    ]));
    let out = App::handle_item_refining_result(4, 6, 1);
    assert!(matches!(out[0], Effect::SpawnOnPlayer(EffectId::Refinefail)));
    let out = App::handle_item_refining_result(4, 6, 5);
    assert!(matches!(out[..], [Effect::Items(ItemOp::SetRefine { index: 4, refine: 6 })]));

    let out = App::handle_item_identify_result(3, true);
    assert!(matches!(out[..], [Effect::Items(ItemOp::ApplyIdentify(3)), Effect::MsgLine { msg_id: 0x1eb, .. }]));
    let out = App::handle_item_identify_result(3, false);
    assert!(matches!(out[..], [Effect::MsgLine { msg_id: 0x1ec, color: TextColor::Red, .. }]));

    assert!(matches!(App::handle_repair_item_result(true), Effect::MsgLine { msg_id: 0x32d, .. }));
    assert!(matches!(App::handle_repair_item_result(false), Effect::MsgLine { msg_id: 0x32e, color: TextColor::Red, .. }));
    assert!(matches!(App::handle_making_item_result(2), Effect::SpawnOnPlayer(EffectId::PharmacyOk)));
    assert!(matches!(App::handle_making_item_result(-1), Effect::SpawnOnPlayer(EffectId::PharmacyFail)));
}

#[test]
fn refined_items_are_listed_with_their_level() {
    let r = RefineItemRow { index: 2, item_id: 1201, refine: 4, cards: [0; 4] };
    let row = App::refine_row(r, "Knife".to_string(), None);
    assert_eq!(row.name, "+4 Knife");
    assert_eq!((row.index, row.item_id, row.refine), (2, 1201, 4));
    let plain = RefineItemRow { refine: 0, ..r };
    assert_eq!(App::refine_row(plain, "Knife".to_string(), None).name, "Knife");
}

#[test]
fn cards_are_slotted_only_on_success() {
    let out = App::handle_card_insert_result(1, 9, 0, 4001);
    assert!(matches!(out[..], [
        Effect::CloseCardInsert,
        Effect::Items(ItemOp::SubtractItem { index: 9, count: 1 }),
        Effect::Items(ItemOp::InsertCard { equip_index: 1, card_item_id: 4001 }),
        Effect::MsgLine { msg_id: 0x1ed, .. },
    ]));
    let out = App::handle_card_insert_result(1, 9, 1, 4001);
    assert!(matches!(out[..], [Effect::CloseCardInsert, Effect::MsgLine { msg_id: 0x1ee, .. }]));
}

#[test]
fn own_shop_opens_under_the_pending_name_and_closes() {
    let mut app = App::new(settings());
    app.pending.shop_name = Some("Bargains".to_string());
    let out = app.handle_vending_own_stock(12);
    assert_eq!(text_of(&out[0]), "Your shop is open (12 items).");
    assert!(matches!(&out[1], Effect::OpenOwnShop { name } if name == "Bargains"));
    assert_eq!(app.pending.shop_name, None);
    app.pending.shop_name = Some("x".to_string());
    let out = app.close_own_shop();
    assert!(matches!(out[..], [Effect::Send(Packet::CloseStore), Effect::CloseOwnShop]));
    assert_eq!(app.pending.shop_name, None);
}

#[test]
fn the_first_open_map_server_is_entered_with_the_known_slot() {
    let out = App::handle_accessible_maps_received(&vec![1, 0, 0], Some(2), Some(5));
    assert!(matches!(out, Some(Effect::Send(Packet::SelectAccessibleMap { slot: 2, index: 1 }))));
    let out = App::handle_accessible_maps_received(&vec![0], None, Some(5));
    assert!(matches!(out, Some(Effect::Send(Packet::SelectAccessibleMap { slot: 5, index: 0 }))));
    assert!(App::handle_accessible_maps_received(&vec![1, 2], Some(2), None).is_none());
    assert!(App::handle_accessible_maps_received(&vec![0], None, None).is_none());
}

#[test]
fn losing_the_connection_picks_the_dialog_for_the_screen() {
    assert!(matches!(App::handle_disconnected("User exit".to_string(), Screen::InGame), Effect::Exit));
    let e = App::handle_disconnected("timeout".to_string(), Screen::InGame);
    assert!(matches!(&e, Effect::DisconnectedDialog(t) if t == "Disconnected from server: timeout"));
    let e = App::handle_disconnected("timeout".to_string(), Screen::Login);
    assert!(matches!(&e, Effect::AccountDialog(t) if t == "Disconnected: timeout"));
    assert_eq!(App::handle_disconnect_ack(true).len(), 4);
    assert_eq!(text_of(&App::handle_disconnect_ack(false)[0]), "You cannot exit now.");
    let out = App::handle_char_server_connect_refused(1);
    assert!(matches!(&out[..], [Effect::AccountDialog(t), Effect::EnterScreen(Screen::ServerSelect)] if t == "ID mismatch"));
}

#[test]
fn pvp_rank_crossings_are_announced_to_the_player() {
    let mut app = App::new(settings());
    app.character_name = "Ann".to_string();
    let out = app.announce_own_pvp_rank(12, 3, 10);
    assert_eq!(text_of(&out[0]), "Congratulations, Ann moved up to rank 3.");
    assert!(matches!(&out[1], Effect::PlayerSound(s) if s == "effect\\number_change.wav"));
    let out = app.announce_own_pvp_rank(3, 11, 10);
    assert_eq!(text_of(&out[0]), "Too bad, Ann dropped to rank 11.");
    assert_eq!(app.announce_own_pvp_rank(3, 4, 10).len(), 1);

    let out = app.handle_pvp_ranking_changed(9, 3, 40, true, Some(12), true, false, 10);
    assert!(matches!(out[0], Effect::SetPkRank { gid: 9, rank: 3, total: 40 }));
    assert_eq!(out.len(), 4);
    assert!(matches!(out[3], Effect::RefreshPkRankAura(9)));
    assert!(app.handle_pvp_ranking_changed(9, 3, 40, false, Some(12), true, false, 10).is_empty());
    assert!(app.handle_pvp_ranking_changed(9, 3, 40, true, None, true, false, 10).is_empty());
    assert!(app.handle_pvp_ranking_changed(9, 3, 40, true, Some(1), false, true, 10).is_empty());
    assert_eq!(app.handle_pvp_ranking_changed(9, 3, 40, true, Some(3), true, true, 10).len(), 2);
}

#[test]
fn guild_information_replaces_what_we_knew_and_asks_for_a_new_emblem() {
    let mut app = App::new(settings());
    let stats = GuildStats { level: 5, exp: 10, max_exp: 100, member_num: 3, max_member_num: 16, avg_level: 50, point: 0, honor: 1, virtue: 2 };
    let info = |version: i32| GuildInfo {
        gdid: 8,
        name: "Knights".to_string(),
        stats,
        master_name: "Ann".to_string(),
        manage_land: "prtg_cas01".to_string(),
        emblem_version: version,
    };
    let out = app.handle_guild_info(info(2));
    assert!(matches!(out[..], [
        Effect::SetPlayerGuild { gdid: 8, emblem_version: 2 },
        Effect::Send(Packet::ReqGuildEmblemImg(8)),
    ]));
    let g = app.guild.as_ref().unwrap();
    assert_eq!((g.gdid, g.name.as_str(), g.stats, g.master_name.as_str()), (8, "Knights", stats, "Ann"));

    app.guild.as_mut().unwrap().has_emblem_image = true;
    let out = app.handle_guild_info(info(2));
    assert!(matches!(out[..], [Effect::SetPlayerGuild { .. }]));
    let out = app.handle_guild_info(info(0));
    assert!(matches!(out[..], [Effect::SetPlayerGuild { emblem_version: 0, .. }]));
}

#[test]
fn position_names_rename_or_add_and_reach_the_members() {
    let mut app = App::new(settings());
    app.guild = Some(Guild::new());
    app.handle_guild_position_names(vec![(0, "Master".to_string()), (1, "Member".to_string())]);
    app.handle_guild_position_names(vec![(1, "Knight".to_string()), (2, "Squire".to_string())]);
    let g = app.guild.as_ref().unwrap();
    let names: Vec<(i32, String)> = g.positions.iter().map(|p| (p.id, p.name.clone())).collect();
    assert_eq!(names, vec![(0, "Master".to_string()), (1, "Knight".to_string()), (2, "Squire".to_string())]);
}

#[test]
fn mvp_rewards_and_pvp_points_are_coloured() {
    let line = App::handle_mvp_feedback(MvpFeedback::Item { item_id: 607 }, None);
    assert_eq!(line.text, "Congratulations! You are the MVP! Your reward item is Item #607 !!");
    assert_eq!(line.kind, ChatKind::Colored(TextColor::Cyan.rgb()));
    let line = App::handle_mvp_feedback(MvpFeedback::Item { item_id: 607 }, Some("Yggdrasil Berry".to_string()));
    assert_eq!(line.text, "Congratulations! You are the MVP! Your reward item is Yggdrasil Berry !!");
    let line = App::handle_mvp_feedback(MvpFeedback::Exp { exp: 25000 }, None);
    assert_eq!(line.text, "Congratulations! You are the MVP! Your reward EXP Points are 25000 !!");
    let line = App::handle_mvp_feedback(MvpFeedback::ItemDropped, None);
    assert_eq!(line.kind, ChatKind::Colored(TextColor::Red.rgb()));
    let line = App::handle_pvp_points_received(3, -1, 12);
    assert_eq!(line.text, "You have 3 win(s), -1 loss(es) and 12 PvP point(s).");
}

#[test]
fn server_coloured_messages_show_over_the_speaker_in_their_colour() {
    let out = App::handle_server_colored_message(42, 0x0000_ff00, "hi".to_string());
    assert!(matches!(&out[0], Effect::ChatBubble { gid: 42, text } if text == "hi"));
    assert!(matches!(&out[1], Effect::Chat(l) if l.text == "hi" && l.kind == ChatKind::Colored(Rgb { r: 0, g: 255, b: 0 })));
}

#[test]
fn hostile_casters_depend_on_the_map() {
    let mut app = App::new(settings());
    app.player_id = Some(1);
    let caster = |id: u32, guild_id: u32| EntitySnapshot { id, cell_x: 0, cell_y: 0, guild_id, guild_emblem_version: 0 };
    assert!(!app.is_hostile_caster(None, true, true, true));
    assert!(app.is_hostile_caster(Some(caster(5, 3)), false, true, false));
    assert!(!app.is_hostile_caster(Some(caster(5, 0)), false, true, false));
    app.guild = Some(Guild::new());
    app.guild.as_mut().unwrap().gdid = 3;
    assert!(!app.is_hostile_caster(Some(caster(5, 3)), false, true, false));
    assert!(app.is_hostile_caster(Some(caster(5, 3)), true, false, true));
    assert!(!app.is_hostile_caster(Some(caster(5, 3)), false, false, true));
    assert!(!app.is_hostile_caster(Some(caster(1, 3)), true, false, true));
    assert!(!app.is_hostile_caster(Some(caster(5, 3)), true, false, false));
    app.party = Some(Party::new("Crew".to_string()));
    app.handle_party_member_added(5, "Bea".to_string(), "m".to_string(), false, true, 0, 0, false);
    assert!(!app.is_hostile_caster(Some(caster(5, 3)), true, false, true));
}

#[test]
fn invitations_ask_the_player() {
    let e = App::handle_guild_invite_received(7, "Knights".to_string());
    assert!(matches!(e, Effect::Confirm { ref text, action: ConfirmAction::GuildInvite { gdid: 7 } } if text == "Join guild \"Knights\"?"));
    let e = App::handle_guild_ally_request_received(3, "Rogues".to_string());
    assert!(matches!(e, Effect::Confirm { ref text, action: ConfirmAction::GuildAlly { aid: 3 } }
        if text == "Guild \"Rogues\" requests an alliance. Accept?"));
}

#[test]
fn family_offers_are_kept_for_the_answer() {
    let mut app = App::new(settings());
    let e = app.handle_adoption_requested(1, 2, "Dad".to_string());
    assert_eq!(app.pending.adopt_request, Some((1, 2)));
    assert!(matches!(e, Effect::Confirm { ref text, action: ConfirmAction::Adoption } if text == "Dad wishes to adopt you. Do you accept?"));
    let e = app.handle_marriage_proposed(5, 6, "Romeo".to_string());
    assert_eq!(app.pending.marriage_proposal, Some((5, 6)));
    assert!(matches!(e, Effect::Confirm { ref text, action: ConfirmAction::Marriage } if text == "Romeo wishes to marry you. Do you accept?"));
}

#[test]
fn gm_status_is_headed_with_the_name_asked_about() {
    let mut app = App::new(settings());
    let out = app.handle_gm_status(vec!["Level 99".to_string(), "Online".to_string()]);
    let texts: Vec<&str> = out.iter().map(|l| l.text.as_str()).collect();
    assert_eq!(texts, vec!["== Status ==", "  Level 99", "  Online"]);
    app.pending.gm_check = Some("Bob".to_string());
    let out = app.handle_gm_status(Vec::new());
    assert_eq!(out[0].text, "== Bob ==");
    assert_eq!(out[0].kind, ChatKind::System);
    assert_eq!(app.pending.gm_check, None);
}

#[test]
fn manner_outcomes_from_three_are_errors() {
    assert!(App::handle_manner_point_result(1, None).is_none());
    let l = App::handle_manner_point_result(2, Some("Done.".to_string())).unwrap();
    assert_eq!((l.kind, l.text.as_str()), (ChatKind::Notice, "Done."));
    let l = App::handle_manner_point_result(3, Some("No.".to_string())).unwrap();
    assert_eq!(l.kind, ChatKind::Error);
}

#[test]
fn wedding_balloons_name_the_partner() {
    let e = App::spawn_wedding_balloon(Some(WeddingSkill::Male), 4, Some("Juliet".to_string()));
    assert!(matches!(e, Some(Effect::ChatBubble { gid: 4, ref text }) if text == "Juliet !!  I will protect you"));
    let e = App::spawn_wedding_balloon(Some(WeddingSkill::Female), 4, None);
    assert!(matches!(e, Some(Effect::ChatBubble { gid: 4, ref text }) if text == " !!  I look up to you"));
    assert!(App::spawn_wedding_balloon(None, 4, None).is_none());
}

#[test]
fn a_refused_homunculus_meal_is_reported() {
    let mut app = App::new(settings());
    assert!(app.handle_homun_feed_result(true, 537, None).is_empty());
    let out = app.handle_homun_feed_result(false, 537, None);
    assert_eq!(out.len(), 1);
    assert!(matches!(&out[0], Effect::MsgLine { msg_id: 0x24f, args, color: TextColor::Red } if args == &vec!["Item #537".to_string()]));
    app.companions.homunculus = Some(Companion { gid: 77, vaporized: false, patrolling: false, intimacy: 0, hunger: 0 });
    let out = app.handle_homun_feed_result(false, 537, Some("Pet Food".to_string()));
    assert!(matches!(&out[..], [Effect::MsgLine { args, .. }, Effect::Emote { gid: 77, emotion: 4 }] if args[0] == "Pet Food"));
}

#[test]
fn boss_news_marks_and_unmarks_the_boss() {
    let mut app = App::new(settings());
    let l = app.handle_boss_info(BossInfoKind::Alive, 10, 20, "Baphomet".to_string(), Some("Baphomet is here.".to_string()));
    assert_eq!(l.unwrap().kind, ChatKind::Notice);
    let m = app.boss_mark.as_ref().unwrap();
    assert_eq!((m.x, m.y, m.name.as_str()), (10, 20, "Baphomet"));
    assert!(app.handle_boss_info(BossInfoKind::Dead, 0, 0, "Baphomet".to_string(), None).is_none());
    assert!(app.boss_mark.is_none());
}

#[test]
fn clearing_the_map_drops_the_boss_mark() {
    let mut app = App::new(settings());
    app.handle_boss_info(BossInfoKind::AliveAnnounced, 1, 2, "Osiris".to_string(), None);
    let out = app.clear_map_actors();
    assert!(matches!(out[..], [Effect::ClearMapActors]));
    assert!(app.boss_mark.is_none());
}

#[test]
fn self_config_reports_set_the_preference() {
    let mut app = App::new(settings());
    app.handle_self_config_changed(SelfConfigKind::PetAutofeed, true);
    assert!(app.prefs.pet_autofeed);
    app.handle_self_config_changed(SelfConfigKind::RefusePartyInvite, true);
    assert!(app.prefs.refuse_party_invite);
    app.handle_self_config_changed(SelfConfigKind::Call, true);
    app.handle_self_config_changed(SelfConfigKind::Call, false);
    assert!(!app.prefs.call_enabled);
    assert!(!app.prefs.homun_autofeed && !app.prefs.open_equipment_window);
}

#[test]
fn answers_go_to_the_server() {
    let mut app = App::new(settings());
    let out = app.answer_confirm(ConfirmAction::JoinParty { party_grid: 8 }, true);
    assert!(matches!(out[..], [Effect::Send(Packet::JoinPartyReply { party_grid: 8, accept: true })]));
    let out = app.answer_confirm(ConfirmAction::FriendRequest { req_aid: 1, req_gid: 2 }, false);
    assert!(matches!(out[..], [Effect::Send(Packet::AckAddFriend { req_aid: 1, req_gid: 2, accept: false })]));
    let out = app.answer_confirm(ConfirmAction::GuildInvite { gdid: 3 }, true);
    assert!(matches!(out[..], [Effect::Send(Packet::AnsJoinGuild { gdid: 3, accept: true })]));
    let out = app.answer_confirm(ConfirmAction::GuildAlly { aid: 4 }, false);
    assert!(matches!(out[..], [Effect::Send(Packet::AllyGuild { aid: 4, accept: false })]));
    let out = app.answer_confirm(ConfirmAction::SetStoragePassword, true);
    assert!(matches!(out[..], [Effect::StoragePassword(PasswordOp::OpenSetNew)]));
    assert!(app.answer_confirm(ConfirmAction::SetStoragePassword, false).is_empty());
}

#[test]
fn family_answers_need_a_pending_offer() {
    let mut app = App::new(settings());
    assert!(app.answer_confirm(ConfirmAction::Marriage, true).is_empty());
    app.handle_marriage_proposed(5, 6, "Romeo".to_string());
    let out = app.answer_confirm(ConfirmAction::Marriage, true);
    assert!(matches!(out[..], [Effect::Send(Packet::MarryReply { aid: 5, gid: 6, accept: true })]));
    assert_eq!(app.pending.marriage_proposal, None);
    assert!(app.answer_confirm(ConfirmAction::Marriage, true).is_empty());
    app.handle_adoption_requested(1, 2, "Dad".to_string());
    let out = app.answer_confirm(ConfirmAction::Adoption, false);
    assert!(matches!(out[..], [Effect::Send(Packet::AdoptReply { father_aid: 1, mother_aid: 2, accept: false })]));
    assert_eq!(app.pending.adopt_request, None);
}
