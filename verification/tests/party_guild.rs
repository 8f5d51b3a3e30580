use client::app::{App, Settings};
use client::effects::{ChatKind, Effect, Packet, WindowId};
use client::guild::{Guild, GuildBanEntry, GuildMember, GuildPosition, GuildRelation, MemberLook};
use client::party::{Party, PartyMemberData};

fn settings() -> Settings {
    Settings {
        show_skill_effects: true,
        fog: true,
        show_level_aura: true,
        boss_aura: true,
        refuse_trade: false,
        refuse_party_invite: false,
        bgm_enabled: true,
        sfx_enabled: true,
        snap_monster_no_skill: false,
        snap_monster_skill: false,
        snap_item: false,
    }
}

fn with_members(app: &mut App) {
    app.handle_party_member_added(1, "Ann".to_string(), "prontera".to_string(), true, true, 10, 20, true);
    app.handle_party_member_added(2, "Ben".to_string(), "geffen".to_string(), false, true, 0, 0, false);
    app.handle_party_member_added(3, "Cat".to_string(), "prontera".to_string(), false, false, 5, 5, true);
}

#[test]
fn members_join_in_order_and_rejoin_in_place() {
    let mut app = App::new(settings());
    with_members(&mut app);
    assert_eq!(app.party_member_ids(), vec![1, 2, 3]);
    app.handle_party_member_added(2, "Ben".to_string(), "prontera".to_string(), false, true, 7, 8, true);
    assert_eq!(app.party_member_ids(), vec![1, 2, 3]);
    let p = app.party.as_ref().unwrap();
    assert_eq!(p.members[1].map, "prontera");
    assert!(p.members[1].has_live_position);
}

#[test]
fn a_member_who_leaves_is_gone_and_the_rest_stay() {
    let mut app = App::new(settings());
    app.account_id = Some(1);
    with_members(&mut app);
    let out = app.handle_party_member_removed(2, "Ben".to_string(), 0);
    assert!(out.is_empty());
    assert_eq!(app.party_member_ids(), vec![1, 3]);

    let out = app.handle_party_member_removed(1, "Ann".to_string(), 0);
    assert!(matches!(out[..], [Effect::CloseWindow(WindowId::PartyFriends)]));
    assert!(app.party.is_none());
    assert!(app.party_member_ids().is_empty());
}

#[test]
fn position_reports_move_or_hide_one_member() {
    let mut app = App::new(settings());
    with_members(&mut app);
    app.handle_party_member_position(2, 40, 41);
    {
        let p = app.party.as_ref().unwrap();
        assert_eq!((p.members[1].x, p.members[1].y, p.members[1].has_live_position), (40, 41, true));
        assert_eq!((p.members[0].x, p.members[0].y), (10, 20));
    }
    app.handle_party_member_position(2, -1, 41);
    let p = app.party.as_ref().unwrap();
    assert!(!p.members[1].has_live_position);
    assert_eq!((p.members[1].x, p.members[1].y), (40, 41));
    assert!(p.members[0].has_live_position);
}

#[test]
fn health_reports_touch_only_that_member() {
    let mut app = App::new(settings());
    with_members(&mut app);
    app.handle_party_member_hp(3, 50, 100);
    let p = app.party.as_ref().unwrap();
    assert_eq!((p.members[2].hp, p.members[2].max_hp), (Some(50), Some(100)));
    assert_eq!(p.members[0].hp, None);
    assert_eq!(app.party_member_ids(), vec![1, 2, 3]);
}

#[test]
fn a_new_member_list_keeps_known_health() {
    let mut app = App::new(settings());
    with_members(&mut app);
    app.handle_party_member_hp(3, 50, 100);
    let data = |aid: u32, name: &str| PartyMemberData {
        aid,
        name: name.to_string(),
        map: "payon".to_string(),
        leader: false,
        online: true,
    };
    app.handle_party_member_list("Crew".to_string(), vec![data(3, "Cat"), data(4, "Dan")]);
    let p = app.party.as_ref().unwrap();
    assert_eq!(p.name, "Crew");
    assert_eq!(app.party_member_ids(), vec![3, 4]);
    assert_eq!(p.members[0].hp, Some(50));
    assert_eq!(p.members[1].hp, None);
}

#[test]
fn party_settings_and_invites() {
    let mut app = App::new(settings());
    app.party = Some(Party::new("Crew".to_string()));
    app.handle_party_config_changed(1, 1, 0);
    let p = app.party.as_ref().unwrap();
    assert!(p.exp_share);
    assert_eq!((p.item_pickup_rule, p.item_division_rule), (1, 0));
    app.handle_party_exp_option_changed(0);
    assert!(!app.party.as_ref().unwrap().exp_share);

    assert_eq!(
        App::handle_party_invite_result("Ben".to_string(), 2).text,
        "Ben joined the party."
    );
    assert_eq!(App::handle_party_invite_result("Ben".to_string(), 3).text, "The party is full.");
    assert_eq!(
        App::handle_party_invite_result("Ben".to_string(), 9).text,
        "Party invitation to Ben failed."
    );
}

#[test]
fn party_creation_sends_the_deferred_invite() {
    let mut app = App::new(settings());
    app.pending.invite_aid = Some(42);
    let out = app.handle_party_create_result(0);
    assert!(matches!(
        out[..],
        [Effect::OpenWindow(WindowId::PartyFriends), Effect::Send(Packet::ReqJoinParty(42))]
    ));
    assert_eq!(app.pending.invite_aid, None);
    let out = app.handle_party_create_result(1);
    assert!(matches!(&out[..], [Effect::Chat(l)] if l.text == "Failed to create party."));
}

#[test]
fn party_chat_names_the_sender() {
    let mut app = App::new(settings());
    with_members(&mut app);
    let line = app.handle_party_chat_message(2, "hey".to_string(), None);
    assert_eq!(line.kind, ChatKind::Party);
    assert_eq!(line.text, "Ben : hey");
    let line = app.handle_party_chat_message(9, "hey".to_string(), Some("Zed".to_string()));
    assert_eq!(line.text, "Zed : hey");
    let line = app.handle_party_chat_message(9, "hey".to_string(), None);
    assert_eq!(line.text, "hey");
}

#[test]
fn relations_are_recorded_once_and_deleted_entirely() {
    let mut app = App::new(settings());
    app.guild = Some(Guild::new());
    app.handle_guild_relation_added(7, 0, "Allies".to_string());
    app.handle_guild_relation_added(7, 0, "Allies again".to_string());
    app.handle_guild_relation_added(8, 1, "Foes".to_string());
    {
        let g = app.guild.as_ref().unwrap();
        assert_eq!(g.relations.len(), 2);
        assert_eq!(g.relations[0].name, "Allies");
    }
    app.guild.as_mut().unwrap().relations.push(GuildRelation { gdid: 7, relation: 0, name: "dup".to_string() });
    app.handle_guild_relation_deleted(7, 0);
    let g = app.guild.as_ref().unwrap();
    assert_eq!(g.relations.len(), 1);
    assert_eq!((g.relations[0].gdid, g.relations[0].relation), (8, 1));
}

#[test]
fn relations_need_a_guild() {
    let mut app = App::new(settings());
    app.handle_guild_relation_added(7, 0, "Allies".to_string());
    assert!(app.guild.is_none());
    app.handle_guild_relation_deleted(7, 0);
    assert!(app.guild.is_none());
}

#[test]
fn guild_results_pick_their_line() {
    let out = App::handle_guild_create_result(0);
    assert!(matches!(&out[..], [Effect::OpenWindow(WindowId::Guild), Effect::Chat(l)] if l.text == "Guild created."));
    let out = App::handle_guild_create_result(2);
    assert!(matches!(&out[..], [Effect::Chat(l)] if l.text == "That guild name is already taken."));
    assert!(App::handle_guild_join_result(2).is_none());
    assert_eq!(App::handle_guild_join_result(1).unwrap().text, "The guild invitation was rejected.");
    assert_eq!(App::handle_guild_join_result(7).unwrap().text, "The guild is full.");
    assert_eq!(App::handle_guild_hostile_result(2).text, "This guild is already an antagonist.");
    assert_eq!(App::handle_guild_ally_result(2).text, "The alliance offer was accepted.");
    assert_eq!(App::handle_guild_ally_result(200).text, "Alliance requests are currently disabled.");
}

#[test]
fn members_who_leave_are_dropped_by_name() {
    let mut app = App::new(settings());
    app.character_name = "Me".to_string();
    app.guild = Some(Guild::new());
    app.handle_guild_identity_updated(5, 3, 0, false, "Knights".to_string());
    assert_eq!(app.guild.as_ref().unwrap().name, "Knights");
    let out = app.handle_guild_member_left("Me".to_string(), String::new());
    assert!(app.guild.is_none());
    assert!(matches!(&out[..], [Effect::ClearGuildHeadSprites, Effect::Chat(l)] if l.text == "You have left the guild."));
}

#[test]
fn identity_update_requests_the_emblem_when_it_has_one() {
    let mut app = App::new(settings());
    let out = app.handle_guild_identity_updated(5, 3, 0, true, "Knights".to_string());
    assert!(matches!(out[..], [
        Effect::SetPlayerGuild { gdid: 5, emblem_version: 3 },
        Effect::RequestGuildEmblem { gdid: 5, version: 3 },
    ]));
    let g = app.guild.as_ref().unwrap();
    assert_eq!((g.gdid, g.emblem_version, g.am_i_master), (5, 3, true));
    let out = app.handle_guild_identity_updated(5, 0, 0, true, String::new());
    assert!(matches!(out[..], [Effect::SetPlayerGuild { gdid: 5, emblem_version: 0 }]));
    assert_eq!(app.guild.as_ref().unwrap().name, "Knights");
}

fn member(aid: u32, gid: u32, name: &str, position_id: i32) -> GuildMember {
    GuildMember {
        aid,
        gid,
        name: name.to_string(),
        position_id,
        position_name: String::new(),
        online: false,
        sex: 0,
        head: 1,
        head_palette: 0,
        x: 0,
        y: 0,
        has_live_position: false,
    }
}

fn position(id: i32, name: &str) -> GuildPosition {
    GuildPosition { id, name: name.to_string() }
}

fn guild_with_members(app: &mut App) {
    app.handle_guild_position_names(vec![(0, "Leader".to_string()), (1, "Grunt".to_string())]);
    let out = app.handle_guild_members(vec![member(10, 100, "Ann", 0), member(11, 110, "Ben", 1), member(12, 120, "", 7)]);
    assert!(matches!(out[..], [Effect::LoadGuildMemberSprites]));
}

#[test]
fn member_list_takes_position_names() {
    let mut app = App::new(settings());
    guild_with_members(&mut app);
    let g = app.guild.as_ref().unwrap();
    let names: Vec<&str> = g.members.iter().map(|m| m.position_name.as_str()).collect();
    assert_eq!(names, vec!["Leader", "Grunt", ""]);
}

#[test]
fn position_list_adds_new_ids_and_keeps_known_names() {
    let mut app = App::new(settings());
    guild_with_members(&mut app);
    app.handle_guild_positions(vec![position(1, ""), position(7, "Scout"), position(7, "Other")]);
    let g = app.guild.as_ref().unwrap();
    let table: Vec<(i32, &str)> = g.positions.iter().map(|p| (p.id, p.name.as_str())).collect();
    assert_eq!(table, vec![(0, "Leader"), (1, "Grunt"), (7, "Scout")]);
    assert_eq!(g.members[2].position_name, "Scout");
}

#[test]
fn ban_list_and_relations_replace_what_was_kept() {
    let mut app = App::new(settings());
    app.handle_guild_ban_list(vec![GuildBanEntry {
        char_name: "Bad".to_string(),
        account: "bad01".to_string(),
        reason: "spam".to_string(),
    }]);
    app.handle_guild_relations(vec![GuildRelation { gdid: 9, relation: 1, name: "Foes".to_string() }]);
    let g = app.guild.as_ref().unwrap();
    assert_eq!(g.ban_list.len(), 1);
    assert_eq!(g.ban_list[0].char_name, "Bad");
    assert_eq!(g.relations.len(), 1);
    app.handle_guild_relations(Vec::new());
    assert!(app.guild.as_ref().unwrap().relations.is_empty());
    assert_eq!(app.guild.as_ref().unwrap().ban_list.len(), 1);
}

#[test]
fn guild_member_positions_show_and_hide() {
    let mut app = App::new(settings());
    app.handle_guild_member_position(10, 5, 6);
    assert!(app.guild.is_none());
    guild_with_members(&mut app);
    app.handle_guild_member_position(11, 30, 40);
    {
        let m = &app.guild.as_ref().unwrap().members[1];
        assert_eq!((m.x, m.y, m.has_live_position), (30, 40, true));
    }
    app.handle_guild_member_position(11, -1, 40);
    let g = app.guild.as_ref().unwrap();
    assert!(!g.members[1].has_live_position);
    assert!(!g.members[0].has_live_position);
}

#[test]
fn only_a_flipped_login_state_is_announced() {
    let mut app = App::new(settings());
    assert!(app.handle_guild_member_online(10, 100, true, None).is_empty());
    guild_with_members(&mut app);
    app.guild.as_mut().unwrap().master_name = "Ann".to_string();
    let out = app.handle_guild_member_online(10, 999, true, None);
    assert!(matches!(&out[..], [Effect::Chat(l)] if l.kind == ChatKind::System && l.text == "Guild master Ann is online."));
    assert!(app.guild.as_ref().unwrap().members[0].online);
    let out = app.handle_guild_member_online(10, 999, true, None);
    assert!(out.is_empty());
    let out = app.handle_guild_member_online(0, 110, true, Some(MemberLook { sex: 1, head: 5, head_palette: 2 }));
    assert!(matches!(&out[..], [
        Effect::Chat(l),
        Effect::CloseWindow(WindowId::HomunculusInfo),
        Effect::CloseWindow(WindowId::HomunculusSkills),
    ] if l.text == "Guild member Ben is online."));
    let m = &app.guild.as_ref().unwrap().members[1];
    assert_eq!((m.sex, m.head, m.head_palette), (1, 5, 2));
    assert!(app.handle_guild_member_online(12, 120, true, None).is_empty());
    assert!(app.handle_guild_member_online(55, 555, true, None).is_empty());
}

#[test]
fn going_offline_drops_the_live_position() {
    let mut app = App::new(settings());
    guild_with_members(&mut app);
    app.handle_guild_member_online(11, 110, true, None);
    app.handle_guild_member_position(11, 3, 4);
    let out = app.handle_guild_member_online(11, 110, false, None);
    assert!(matches!(&out[..], [Effect::Chat(l)] if l.text == "Guild member Ben is offline."));
    let m = &app.guild.as_ref().unwrap().members[1];
    assert!(!m.online);
    assert!(!m.has_live_position);
}
