use client::app::{App, Settings};
use client::command::{ChatCommand, CommandContext, PlayerPose};
use client::effects::{ChatKind, Effect, Packet, RankKind, WindowId};
use client::guild::Guild;
use client::party::Party;

fn settings() -> Settings {
    Settings {
        show_skill_effects: true,
        fog: false,
        show_level_aura: true,
        boss_aura: true,
        refuse_trade: false,
        refuse_party_invite: false,
        bgm_enabled: true,
        sfx_enabled: true,
        snap_monster_no_skill: false,
        snap_monster_skill: false,
        snap_item: false,
    }
}

fn pose() -> PlayerPose {
    PlayerPose { hidden: false, sitting: false, head_dir: 0, direction: 2, cell_x: 150, cell_y: 33 }
}

fn ctx() -> CommandContext {
    CommandContext {
        player: Some(pose()),
        current_map: Some("prontera".to_string()),
        selected_name: Some("Alice".to_string()),
        has_emperium: false,
        online_friends: Vec::new(),
    }
}

fn run(app: &mut App, command: ChatCommand, c: &CommandContext) -> Vec<Effect> {
    app.handle_slash_command(command, "/cmd", c)
}

fn system_text(e: &Effect) -> String {
    match e {
        Effect::Chat(line) => {
            assert_eq!(line.kind, ChatKind::System);
            line.text.clone()
        }
        other => panic!("expected a system line, got {other:?}"),
    }
}

fn only_system_text(out: &[Effect]) -> String {
    assert_eq!(out.len(), 1, "{out:?}");
    system_text(&out[0])
}

#[test]
fn fog_toggle_applies_saves_and_reports_then_toggles_back() {
    let mut app = App::new(settings());
    let out = run(&mut app, ChatCommand::ToggleFog, &ctx());
    assert!(app.settings.fog);
    assert_eq!(out.len(), 3);
    assert!(matches!(out[0], Effect::ApplyGraphicsSettings));
    assert!(matches!(out[1], Effect::SaveConfig));
    assert_eq!(system_text(&out[2]), "Fog: ON");

    let out = run(&mut app, ChatCommand::ToggleFog, &ctx());
    assert!(!app.settings.fog);
    assert_eq!(system_text(&out[2]), "Fog: OFF");
    assert_eq!(app.settings, settings());
}

#[test]
fn skill_effect_toggle_asks_the_server_for_fewer_effects() {
    let mut app = App::new(settings());
    let out = run(&mut app, ChatCommand::ToggleEffect, &ctx());
    assert!(!app.settings.show_skill_effects);
    assert_eq!(out.len(), 4);
    assert!(matches!(out[2], Effect::Send(Packet::LessEffect(true))));
    assert_eq!(system_text(&out[3]), "Skill effects: OFF");
}

#[test]
fn refusing_party_invites_reaches_the_preferences() {
    let mut app = App::new(settings());
    let out = run(&mut app, ChatCommand::RefuseParty(true), &ctx());
    assert!(app.settings.refuse_party_invite);
    assert!(app.prefs.refuse_party_invite);
    assert_eq!(system_text(&out[2]), "Refuse party invites: ON");
}

#[test]
fn public_chat_toggle_reports_whether_chat_shows() {
    let mut app = App::new(settings());
    let out = run(&mut app, ChatCommand::ToggleHidePublicChat, &ctx());
    assert!(app.prefs.hide_public_chat);
    assert_eq!(only_system_text(&out), "Public chat: OFF");
}

#[test]
fn preference_toggles_report_the_new_state() {
    let mut app = App::new(settings());
    let cases = [
        (ChatCommand::ToggleNoShift, "No-shift mode: ON"),
        (ChatCommand::ToggleNoCtrl, "No-ctrl mode: ON"),
        (ChatCommand::ToggleShowExp, "Experience messages: OFF"),
        (ChatCommand::ToggleMiss, "Miss text: OFF"),
        (ChatCommand::ToggleShowPing, "Ping overlay: ON"),
        (ChatCommand::ToggleShowFps, "FPS overlay: ON"),
    ];
    for (command, text) in cases {
        let out = run(&mut app, command, &ctx());
        assert_eq!(only_system_text(&out), text);
    }
    assert!(app.prefs.noshift_mode && app.prefs.noctrl_mode && app.prefs.show_ping);
    assert!(!app.prefs.show_exp && !app.prefs.show_miss && app.prefs.show_fps);
}

#[test]
fn equipment_toggle_tells_the_server() {
    let mut app = App::new(settings());
    let out = run(&mut app, ChatCommand::ToggleEqOpen, &ctx());
    assert!(app.prefs.equip_open);
    assert!(matches!(out[0], Effect::Send(Packet::Config { kind: 0, value: 1 })));
    assert_eq!(system_text(&out[1]), "Equipment visible to others: ON");
}

#[test]
fn sound_toggles_and_volumes_apply_and_save() {
    let mut app = App::new(settings());
    let out = run(&mut app, ChatCommand::ToggleBgm, &ctx());
    assert!(!app.settings.bgm_enabled);
    assert!(matches!(out[0], Effect::SetVolumes));
    assert!(matches!(out[1], Effect::SaveConfig));
    assert_eq!(system_text(&out[2]), "Background music: OFF");

    let out = run(&mut app, ChatCommand::SetBgmVolume(64), &ctx());
    assert_eq!(out.len(), 4);
    assert!(matches!(out[0], Effect::SetBgmVolume(64)));
    assert_eq!(system_text(&out[3]), "BGM volume: 64");

    let out = run(&mut app, ChatCommand::SetSfxVolume(0), &ctx());
    assert_eq!(system_text(&out[3]), "Sound volume: 0");
}

#[test]
fn cursor_snap_toggles_save_the_configuration() {
    let mut app = App::new(settings());
    let out = run(&mut app, ChatCommand::ToggleItemSnap, &ctx());
    assert!(app.settings.snap_item);
    assert!(matches!(out[0], Effect::SaveConfig));
    assert_eq!(system_text(&out[1]), "Item cursor snap: ON");
    let out = run(&mut app, ChatCommand::ToggleMonsterSnap, &ctx());
    assert_eq!(system_text(&out[1]), "Monster cursor snap: ON");
}

#[test]
fn where_reports_the_map_and_cell() {
    let mut app = App::new(settings());
    let out = run(&mut app, ChatCommand::Where, &ctx());
    assert_eq!(only_system_text(&out), "prontera.gat (150, 33)");

    let mut away = ctx();
    away.current_map = None;
    let out = run(&mut app, ChatCommand::Where, &away);
    assert_eq!(only_system_text(&out), "You are not in a map yet.");
}

#[test]
fn sitting_toggles_and_hiding_blocks_it() {
    let mut app = App::new(settings());
    let out = run(&mut app, ChatCommand::Sit, &ctx());
    assert!(matches!(out[..], [Effect::Send(Packet::ActionRequest(2))]));

    let mut sitting = ctx();
    sitting.player = Some(PlayerPose { sitting: true, ..pose() });
    let out = run(&mut app, ChatCommand::Sit, &sitting);
    assert!(matches!(out[..], [Effect::Send(Packet::ActionRequest(3))]));
    let out = run(&mut app, ChatCommand::Stand, &sitting);
    assert!(matches!(out[..], [Effect::Send(Packet::ActionRequest(3))]));

    assert!(run(&mut app, ChatCommand::Stand, &ctx()).is_empty());

    let mut hidden = ctx();
    hidden.player = Some(PlayerPose { hidden: true, sitting: true, ..pose() });
    assert!(run(&mut app, ChatCommand::Sit, &hidden).is_empty());
    assert!(run(&mut app, ChatCommand::Stand, &hidden).is_empty());
}

#[test]
fn head_shake_alternates_and_counts_only_while_sitting() {
    let mut app = App::new(settings());
    let out = run(&mut app, ChatCommand::Doridori, &ctx());
    assert_eq!(out.len(), 2);
    assert!(matches!(out[0], Effect::SetPlayerFacing { direction: 2, head_dir: 1 }));
    assert!(matches!(out[1], Effect::Send(Packet::ChangeDirection { head_dir: 1, dir: 2 })));

    let mut sitting = ctx();
    sitting.player = Some(PlayerPose { sitting: true, head_dir: 1, ..pose() });
    let out = run(&mut app, ChatCommand::Doridori, &sitting);
    assert_eq!(out.len(), 3);
    assert!(matches!(out[0], Effect::SetPlayerFacing { head_dir: 2, .. }));
    assert!(matches!(out[2], Effect::RecordDoridoriFlip));
}

#[test]
fn body_turns_wrap_around_the_eight_directions() {
    let mut app = App::new(settings());
    let mut facing_west = ctx();
    facing_west.player = Some(PlayerPose { direction: 7, ..pose() });
    let out = run(&mut app, ChatCommand::BingBing, &facing_west);
    assert!(matches!(out[0], Effect::SetPlayerFacing { direction: 0, head_dir: 0 }));
    assert!(matches!(out[1], Effect::Send(Packet::ChangeDirection { head_dir: 0, dir: 0 })));
    let out = run(&mut app, ChatCommand::BangBang, &facing_west);
    assert!(matches!(out[0], Effect::SetPlayerFacing { direction: 6, head_dir: 0 }));

    let mut nobody = ctx();
    nobody.player = None;
    assert!(run(&mut app, ChatCommand::BingBing, &nobody).is_empty());
}

#[test]
fn party_commands_check_name_and_membership() {
    let mut app = App::new(settings());
    let out = run(&mut app, ChatCommand::MakeParty(String::new()), &ctx());
    assert_eq!(only_system_text(&out), "Usage: /organize <party name>");
    let out = run(&mut app, ChatCommand::MakeParty("Crew".to_string()), &ctx());
    assert!(matches!(&out[..], [Effect::Send(Packet::MakeParty(n))] if n == "Crew"));
    let out = run(&mut app, ChatCommand::LeaveParty, &ctx());
    assert_eq!(only_system_text(&out), "You are not in a party.");

    app.party = Some(Party::new("Crew".to_string()));
    let out = run(&mut app, ChatCommand::MakeParty("Other".to_string()), &ctx());
    assert_eq!(only_system_text(&out), "You are already in a party.");
    let out = run(&mut app, ChatCommand::LeaveParty, &ctx());
    assert!(matches!(out[..], [Effect::Send(Packet::LeaveParty)]));

    let out = run(&mut app, ChatCommand::InviteParty(String::new()), &ctx());
    assert_eq!(only_system_text(&out), "Usage: /invite <character name>");
}

#[test]
fn guild_creation_needs_an_emperium_and_no_guild() {
    let mut app = App::new(settings());
    app.account_id = Some(2000001);
    let out = run(&mut app, ChatCommand::MakeGuild("Knights".to_string()), &ctx());
    assert_eq!(only_system_text(&out), "You need an Emperium to create a guild.");

    let mut rich = ctx();
    rich.has_emperium = true;
    let out = run(&mut app, ChatCommand::MakeGuild("Knights".to_string()), &rich);
    assert!(matches!(&out[..], [Effect::Send(Packet::MakeGuild { gid: 2000001, name })] if name == "Knights"));

    let out = run(&mut app, ChatCommand::BreakGuild("Knights".to_string()), &rich);
    assert_eq!(only_system_text(&out), "You are not in a guild.");
    app.guild = Some(Guild::new());
    let out = run(&mut app, ChatCommand::MakeGuild("Knights".to_string()), &rich);
    assert_eq!(only_system_text(&out), "You are already in a guild.");
    let out = run(&mut app, ChatCommand::BreakGuild("Knights".to_string()), &rich);
    assert!(matches!(&out[..], [Effect::Send(Packet::DisorganizeGuild(n))] if n == "Knights"));
    let out = run(&mut app, ChatCommand::BreakGuild(String::new()), &rich);
    assert_eq!(only_system_text(&out), "Usage: /breakguild <guild name>");
}

#[test]
fn guild_chat_is_signed_with_our_name() {
    let mut app = App::new(settings());
    let out = run(&mut app, ChatCommand::GuildChat("hello".to_string()), &ctx());
    assert_eq!(only_system_text(&out), "You are not in a guild.");
    app.guild = Some(Guild::new());
    let out = run(&mut app, ChatCommand::GuildChat("hello".to_string()), &ctx());
    assert!(matches!(&out[..], [Effect::Send(Packet::GuildChat(t))] if t == "Alice : hello"));
    let out = run(&mut app, ChatCommand::GuildChat(String::new()), &ctx());
    assert_eq!(only_system_text(&out), "Usage: /gc <message>");
}

#[test]
fn friends_greeting_whispers_each_online_friend() {
    let mut app = App::new(settings());
    let out = run(&mut app, ChatCommand::WhisperFriends("hi".to_string()), &ctx());
    assert_eq!(only_system_text(&out), "No friends are online.");

    let mut friendly = ctx();
    friendly.online_friends = vec!["Bob".to_string(), "Cid".to_string()];
    let out = run(&mut app, ChatCommand::WhisperFriends("hi".to_string()), &friendly);
    assert_eq!(out.len(), 2);
    assert!(matches!(&out[0], Effect::Send(Packet::Whisper { name, text }) if name == "Bob" && text == "hi"));
    assert!(matches!(&out[1], Effect::Send(Packet::Whisper { name, text }) if name == "Cid" && text == "hi"));
    let out = run(&mut app, ChatCommand::WhisperFriends(String::new()), &friendly);
    assert_eq!(only_system_text(&out), "Usage: /hi <message>");
}

#[test]
fn whisper_block_waits_for_the_server() {
    let mut app = App::new(settings());
    let out = run(&mut app, ChatCommand::WhisperBlock { name: "Eve".to_string(), block: true }, &ctx());
    assert!(matches!(&out[..], [Effect::Send(Packet::SettingWhisperPc { name, block: true })] if name == "Eve"));
    assert_eq!(app.pending.whisper_block, Some(("Eve".to_string(), true)));

    let mut fresh = App::new(settings());
    let out = run(&mut fresh, ChatCommand::WhisperBlock { name: String::new(), block: true }, &ctx());
    assert_eq!(only_system_text(&out), "Usage: /ex <character name>");
    assert_eq!(fresh.pending.whisper_block, None);
}

#[test]
fn blocked_list_joins_the_names() {
    let mut app = App::new(settings());
    let out = run(&mut app, ChatCommand::WhisperListBlocked, &ctx());
    assert_eq!(only_system_text(&out), "No blocked players.");
    app.prefs.blocked_whispers = vec!["Eve".to_string(), "Mal".to_string()];
    let out = run(&mut app, ChatCommand::WhisperListBlocked, &ctx());
    assert_eq!(only_system_text(&out), "Blocked: Eve, Mal");
}

#[test]
fn status_check_remembers_the_name_asked_for() {
    let mut app = App::new(settings());
    let out = run(&mut app, ChatCommand::CheckStatus("Gm".to_string()), &ctx());
    assert!(matches!(&out[..], [Effect::Send(Packet::StatusGm(n))] if n == "Gm"));
    assert_eq!(app.pending.gm_check, Some("Gm".to_string()));
}

#[test]
fn plain_commands_send_their_request() {
    let mut app = App::new(settings());
    assert!(matches!(run(&mut app, ChatCommand::Memo, &ctx())[..], [Effect::Send(Packet::RememberWarppoint)]));
    assert!(matches!(run(&mut app, ChatCommand::ExitRoom, &ctx())[..], [Effect::Send(Packet::ExitRoom)]));
    assert!(matches!(run(&mut app, ChatCommand::UserCount, &ctx())[..], [Effect::Send(Packet::UserCount)]));
    assert!(matches!(run(&mut app, ChatCommand::Emote(5), &ctx())[..], [Effect::Send(Packet::Emotion(5))]));
    assert!(matches!(
        run(&mut app, ChatCommand::Ranking(RankKind::Taekwon), &ctx())[..],
        [Effect::Send(Packet::Ranking(RankKind::Taekwon))]
    ));
    assert!(matches!(
        run(&mut app, ChatCommand::WhisperBlockAll(false), &ctx())[..],
        [Effect::Send(Packet::SettingWhisperState(false))]
    ));
    assert!(matches!(
        run(&mut app, ChatCommand::OpenEmotionList, &ctx())[..],
        [Effect::ToggleWindow(WindowId::Emotion)]
    ));
    assert!(matches!(
        run(&mut app, ChatCommand::OpenCompanionAi { mercenary: true }, &ctx())[..],
        [Effect::OpenCompanionAiTab(1)]
    ));
}

#[test]
fn stat_raise_is_capped_at_one_byte() {
    let mut app = App::new(settings());
    let out = run(&mut app, ChatCommand::StatUp { status_id: 13, amount: 1000 }, &ctx());
    assert!(matches!(out[..], [Effect::Send(Packet::StatChange { status_id: 13, amount: 255 })]));
    let out = run(&mut app, ChatCommand::StatUp { status_id: 14, amount: 7 }, &ctx());
    assert!(matches!(out[..], [Effect::Send(Packet::StatChange { status_id: 14, amount: 7 })]));
}

#[test]
fn unknown_and_retired_commands_get_a_reply() {
    let mut app = App::new(settings());
    let out = app.handle_slash_command(ChatCommand::Unknown, "/frobnicate now", &ctx());
    assert_eq!(only_system_text(&out), "Unknown command: /frobnicate");
    let out = run(&mut app, ChatCommand::Outdated, &ctx());
    assert_eq!(only_system_text(&out), "This command is no longer available.");
    let out = run(&mut app, ChatCommand::Unsupported, &ctx());
    assert_eq!(only_system_text(&out), "This command is not supported yet.");
    let out = run(&mut app, ChatCommand::Help, &ctx());
    assert_eq!(system_text(&out[0]), "Commands:");
    assert!(matches!(out[1], Effect::ListCommandHelp));
}
