use client::app::{App, Settings};
use client::command::{CommandContext, PlayerPose};
use client::effects::{ChatKind, ChatLine, Effect, Packet};
use client::guild::Guild;
use client::party::Party;

fn settings() -> Settings {
    Settings {
        show_skill_effects: true,
        fog: true,
        show_level_aura: true,
        boss_aura: false,
        refuse_trade: false,
        refuse_party_invite: false,
        bgm_enabled: true,
        sfx_enabled: true,
        snap_monster_no_skill: false,
        snap_monster_skill: false,
        snap_item: false,
    }
}

fn ctx(name: Option<&str>) -> CommandContext {
    CommandContext {
        player: Some(PlayerPose {
            hidden: false,
            sitting: false,
            head_dir: 0,
            direction: 0,
            cell_x: 1,
            cell_y: 1,
        }),
        current_map: None,
        selected_name: name.map(|n| n.to_string()),
        has_emperium: false,
        online_friends: Vec::new(),
    }
}

fn line_of(l: &ChatLine) -> (ChatKind, String) {
    (l.kind, l.text.clone())
}

#[test]
fn typed_lines_go_where_their_prefix_says() {
    let mut app = App::new(settings());
    let c = ctx(Some("Alice"));
    assert!(app.run_chat_command("", &c).is_empty());

    let out = app.run_chat_command("hello there", &c);
    assert!(matches!(&out[..], [Effect::Send(Packet::Chat(t))] if t == "Alice : hello there"));

    let out = app.run_chat_command("/sit", &c);
    assert!(matches!(&out[..], [Effect::SlashCommand(t)] if t == "/sit"));

    let out = app.run_chat_command("%  hi all", &c);
    assert!(matches!(&out[..], [Effect::Chat(l)] if l.text == "You are not in a party."));
    app.party = Some(Party::new("Crew".to_string()));
    let out = app.run_chat_command("%  hi all", &c);
    assert!(matches!(&out[..], [Effect::Send(Packet::PartyChat(t))] if t == "Alice : hi all"));

    let out = app.run_chat_command("$gg", &c);
    assert!(matches!(&out[..], [Effect::Chat(l)] if l.text == "You are not in a guild."));
    app.guild = Some(Guild::new());
    let out = app.run_chat_command("$ gg", &ctx(None));
    assert!(matches!(&out[..], [Effect::Send(Packet::GuildChat(t))] if t == "Unknown : gg"));
}

#[test]
fn shortcuts_run_the_bound_line_if_any() {
    let app = App::new(settings());
    let c = ctx(Some("Alice"));
    let shortcuts = vec!["/sit".to_string(), String::new(), "hi".to_string()];
    let out = app.trigger_shortcut(&shortcuts, 0, &c);
    assert!(matches!(&out[..], [Effect::SlashCommand(t)] if t == "/sit"));
    assert!(app.trigger_shortcut(&shortcuts, 1, &c).is_empty());
    assert!(app.trigger_shortcut(&shortcuts, 9, &c).is_empty());
    let out = app.trigger_shortcut(&shortcuts, 2, &c);
    assert!(matches!(&out[..], [Effect::Send(Packet::Chat(t))] if t == "Alice : hi"));
}

#[test]
fn unknown_command_names_only_its_first_word() {
    let line = App::reply_unknown_command("   /warp  prontera 1 1");
    assert_eq!(line_of(&line), (ChatKind::System, "Unknown command: /warp".to_string()));
    let line = App::reply_unknown_command("");
    assert_eq!(line.text, "Unknown command: ");
}

#[test]
fn ranking_lists_each_entry_with_its_place() {
    let lines = App::handle_ranking_received(
        "Alchemist",
        vec![("Ann".to_string(), 120), ("Ben".to_string(), -3)],
    );
    let texts: Vec<String> = lines.iter().map(|l| l.text.clone()).collect();
    assert_eq!(texts, vec!["== Alchemist ==", "  1. Ann - 120", "  2. Ben - -3"]);
    let lines = App::handle_ranking_received("Taekwon", Vec::new());
    let texts: Vec<String> = lines.iter().map(|l| l.text.clone()).collect();
    assert_eq!(texts, vec!["== Taekwon ==", "  (no entries)"]);
}

#[test]
fn whisper_ack_reports_the_failure_with_the_recipient() {
    let mut app = App::new(settings());
    app.pending.whisper_out = Some(("Bob".to_string(), "yo".to_string()));
    let out = app.handle_whisper_ack(1);
    assert!(matches!(&out, Some(Effect::Chat(l)) if l.kind == ChatKind::Error
        && l.text == "(Bob) The target character is not logged in."));
    assert_eq!(app.pending.whisper_out, None);

    app.pending.whisper_out = Some(("Bob".to_string(), "yo".to_string()));
    let out = app.handle_whisper_ack(0);
    assert!(matches!(&out, Some(Effect::WhisperOut { name, message }) if name == "Bob" && message == "yo"));

    let out = app.handle_whisper_ack(9);
    assert!(matches!(&out, Some(Effect::Chat(l)) if l.text == "Failed to send whisper."));
}

#[test]
fn whisper_block_answer_updates_the_block_list() {
    let mut app = App::new(settings());
    app.prefs.blocked_whispers = vec!["Eve".to_string(), "Mal".to_string()];
    app.pending.whisper_block = Some(("Eve".to_string(), true));
    let line = app.handle_whisper_setting_result(false, 0, false).unwrap();
    assert_eq!(line.text, "Blocked whispers from Eve.");
    assert_eq!(app.prefs.blocked_whispers, vec!["Mal".to_string(), "Eve".to_string()]);
    assert_eq!(app.pending.whisper_block, None);

    app.pending.whisper_block = Some(("Mal".to_string(), false));
    let line = app.handle_whisper_setting_result(true, 0, false).unwrap();
    assert_eq!(line.text, "Unblocked whispers from Mal.");
    assert_eq!(app.prefs.blocked_whispers, vec!["Eve".to_string()]);

    app.pending.whisper_block = Some(("Zed".to_string(), true));
    let line = app.handle_whisper_setting_result(false, 2, false).unwrap();
    assert_eq!(line_of(&line), (ChatKind::Error, "Your block list is full.".to_string()));
    assert_eq!(app.prefs.blocked_whispers, vec!["Eve".to_string()]);

    app.pending.whisper_block = Some(("Zed".to_string(), true));
    let line = app.handle_whisper_setting_result(false, 1, false).unwrap();
    assert_eq!(line.text, "Could not change whisper setting for Zed.");

    assert!(app.handle_whisper_setting_result(false, 0, false).is_none());
    let line = app.handle_whisper_setting_result(false, 0, true).unwrap();
    assert_eq!(line.text, "Blocking all whispers.");
    let line = app.handle_whisper_setting_result(true, 0, true).unwrap();
    assert_eq!(line.text, "Accepting all whispers.");
    let line = app.handle_whisper_setting_result(true, 1, true).unwrap();
    assert_eq!(line.text, "Could not change your whisper setting.");
}

#[test]
fn counts_and_names_are_rendered_in_decimal() {
    let out = App::handle_user_count(1234);
    assert!(matches!(&out, Effect::MsgNotice { msg_id: 178, args, fallback }
        if args == &vec!["1234".to_string()] && fallback == "There are 1234 Players Currently Connected."));
    let out = App::handle_user_count(-7);
    assert!(matches!(&out, Effect::MsgNotice { args, fallback, .. }
        if args == &vec!["-7".to_string()] && fallback == "There are -7 Players Currently Connected."));
    let line = App::handle_account_name(2000001, "Alice".to_string());
    assert_eq!(line.text, "Account 2000001: Alice");
    let line = App::handle_account_name(5, String::new());
    assert_eq!(line.text, "Account 5: name unavailable.");
}

#[test]
fn small_server_messages_pick_their_line() {
    assert_eq!(
        App::handle_adoption_message(2).text,
        "You cannot adopt a married person."
    );
    assert_eq!(App::handle_adoption_message(77).text, "Adoption failed.");
    assert_eq!(
        line_of(&App::handle_memo_result(1)),
        (ChatKind::Error, "Skill Level is not high enough.".to_string())
    );
    assert_eq!(
        line_of(&App::handle_memo_result(0)),
        (ChatKind::System, "Saved location as a Memo Point for Warp skill.".to_string())
    );
    assert_eq!(line_of(&App::handle_guild_chat_message("gm".to_string())), (ChatKind::Guild, "gm".to_string()));
    let out = App::handle_whisper_received("Bob".to_string(), "psst".to_string());
    assert!(matches!(&out[0], Effect::RememberWhisper(s) if s == "Bob"));
    assert!(matches!(&out[1], Effect::WhisperIn { sender, message } if sender == "Bob" && message == "psst"));
    assert!(matches!(App::handle_map_info_notice(1), Some(Effect::MsgLine { msg_id: 501, .. })));
    assert!(App::handle_map_info_notice(9).is_none());
    assert!(matches!(App::handle_action_failure(3, 24), Some(Effect::MsgLine { msg_id: 1175, .. })));
}

#[test]
fn divorce_forgets_the_partner_and_stops_the_balloon() {
    let mut app = App::new(settings());
    app.partner_name = "Bea".to_string();
    let out = app.spawn_call_partner_balloon(77);
    assert!(matches!(&out, Some(Effect::ChatBubble { gid: 77, text }) if text == "Bea !!  I miss you"));
    let line = app.handle_divorced("Bea".to_string());
    assert_eq!(line.text, "You have divorced Bea.");
    assert!(app.partner_name.is_empty());
    assert!(app.spawn_call_partner_balloon(77).is_none());
}

fn bubble_of(e: &Effect) -> Option<(u32, String)> {
    match e {
        Effect::ChatBubble { gid, text } => Some((*gid, text.clone())),
        _ => None,
    }
}

fn chat_of(e: &Effect) -> Option<(ChatKind, String)> {
    match e {
        Effect::Chat(l) => Some(line_of(l)),
        _ => None,
    }
}

#[test]
fn public_chat_shows_bubble_and_line() {
    let app = App::new(settings());
    let out = app.handle_chat_message(7, "Bob : hi there".to_string(), false, None);
    assert_eq!(out.len(), 2);
    assert_eq!(bubble_of(&out[0]), Some((7, "hi there".to_string())));
    assert_eq!(chat_of(&out[1]), Some((ChatKind::Public, "Bob : hi there".to_string())));
}

#[test]
fn bubble_takes_only_the_second_piece() {
    let app = App::new(settings());
    let out = app.handle_chat_message(7, "Bob : a : b".to_string(), true, None);
    assert_eq!(bubble_of(&out[0]), Some((7, "a".to_string())));
    assert_eq!(chat_of(&out[1]), Some((ChatKind::Gm, "Bob : a : b".to_string())));
}

#[test]
fn line_without_separator_has_no_bubble() {
    let app = App::new(settings());
    let out = app.handle_chat_message(7, "hello".to_string(), false, None);
    assert_eq!(out.len(), 1);
    assert_eq!(chat_of(&out[0]), Some((ChatKind::Public, "hello".to_string())));
}

#[test]
fn hidden_public_chat_keeps_only_own_lines() {
    let mut app = App::new(settings());
    app.prefs.hide_public_chat = true;
    app.character_name = "Alice".to_string();
    let other = app.handle_chat_message(7, "Bob : hi".to_string(), false, None);
    assert_eq!(other.len(), 1);
    assert!(bubble_of(&other[0]).is_some());
    let own = app.handle_chat_message(9, "Alice : hi".to_string(), false, None);
    assert_eq!(own.len(), 2);
    assert_eq!(chat_of(&own[1]), Some((ChatKind::Public, "Alice : hi".to_string())));
}

#[test]
fn chat_room_takes_lines_of_its_members() {
    let app = App::new(settings());
    let members = vec!["Bob".to_string(), "Carl".to_string()];
    let out = app.handle_chat_message(7, "Bob : yo".to_string(), false, Some(&members));
    assert_eq!(out.len(), 3);
    assert!(matches!(&out[1], Effect::ChatRoomLine { text, own: false } if text == "Bob : yo"));
    let out = app.handle_chat_message(8, "Dan : yo".to_string(), false, Some(&members));
    assert_eq!(out.len(), 2);
    assert!(chat_of(&out[1]).is_some());
}

#[test]
fn own_chat_goes_over_the_player() {
    let mut app = App::new(settings());
    let out = app.handle_own_chat_message("Alice : hey".to_string(), false, false);
    assert_eq!(out.len(), 1);
    assert_eq!(chat_of(&out[0]), Some((ChatKind::Own, "Alice : hey".to_string())));
    app.player_id = Some(42);
    let out = app.handle_own_chat_message("Alice : hey".to_string(), true, true);
    assert_eq!(out.len(), 3);
    assert_eq!(bubble_of(&out[0]), Some((42, "hey".to_string())));
    assert!(matches!(&out[1], Effect::ChatRoomLine { own: true, .. }));
    assert_eq!(chat_of(&out[2]), Some((ChatKind::Gm, "Alice : hey".to_string())));
}
