use client::app::{App, EntitySnapshot, Settings};
use client::companions::{Companion, CompanionSkill, skill_range, update_skill};
use client::effects::{Effect, WindowId};

fn settings() -> Settings {
    Settings {
        show_skill_effects: true,
        fog: true,
        show_level_aura: true,
        boss_aura: true,
        refuse_trade: false,
        refuse_party_invite: false,
        bgm_enabled: true,
        sfx_enabled: true,
        snap_monster_no_skill: false,
        snap_monster_skill: false,
        snap_item: false,
    }
}

fn at(id: u32, x: u16, y: u16) -> EntitySnapshot {
    EntitySnapshot { id, cell_x: x, cell_y: y, guild_id: 0, guild_emblem_version: 0 }
}

#[test]
fn homunculus_state_reports_introduce_wake_and_feed_it() {
    let mut app = App::new(settings());
    app.handle_companion_state_changed(1, 0, 500);
    assert!(app.companions.homunculus.is_none());
    app.handle_companion_state_changed(0, 77, 0);
    assert_eq!(
        app.companions.homunculus,
        Some(Companion { gid: 77, vaporized: false, patrolling: false, intimacy: 0, hunger: 0 })
    );
    app.handle_companion_state_changed(1, 0, 500);
    app.handle_companion_state_changed(2, 0, 70000);
    let h = app.companions.homunculus.unwrap();
    assert_eq!((h.intimacy, h.hunger), (500, 70000i32 as i16));
    app.companions.homunculus = Some(Companion { vaporized: true, ..h });
    assert!(!app.has_homunculus());
    app.handle_companion_state_changed(0, 78, 0);
    assert!(app.has_homunculus());
    assert_eq!(app.companion_gid(false), Some(78));
    assert_eq!(app.companions.homunculus.unwrap().intimacy, 500);
}

#[test]
fn patrol_menu_entry_follows_the_ai() {
    let mut app = App::new(settings());
    app.companions.mercenary = Some(Companion { gid: 9, vaporized: false, patrolling: true, intimacy: 0, hunger: 0 });
    assert!(app.has_mercenary());
    assert_eq!(app.patrol_menu_label(true), "Stop Patrol");
    assert_eq!(app.patrol_menu_label(false), "Patrol");
    assert_eq!(app.companion_gid(true), Some(9));
}

#[test]
fn clearing_companions_closes_their_windows() {
    let mut app = App::new(settings());
    app.companions.homunculus = Some(Companion { gid: 1, vaporized: false, patrolling: false, intimacy: 0, hunger: 0 });
    app.companions.mercenary = Some(Companion { gid: 2, vaporized: false, patrolling: false, intimacy: 0, hunger: 0 });
    let out = app.clear_companions();
    assert!(matches!(out[..], [
        Effect::CloseWindow(WindowId::HomunculusInfo),
        Effect::CloseWindow(WindowId::HomunculusSkills),
        Effect::CloseWindow(WindowId::MercenaryInfo),
        Effect::CloseWindow(WindowId::MercenarySkills),
    ]));
    assert!(app.companions.homunculus.is_none() && app.companions.mercenary.is_none());
}

#[test]
fn stale_order_markers_are_pruned() {
    let mut app = App::new(settings());
    app.companions.homunculus = Some(Companion { gid: 1, vaporized: false, patrolling: false, intimacy: 0, hunger: 0 });
    app.companions.attack_target = [Some(50), Some(60)];
    app.companions.move_marker = [Some((3, 4)), Some((5, 5))];
    app.prune_companion_targets(&vec![at(1, 3, 4), at(50, 0, 0)]);
    assert_eq!(app.companions.attack_target, [Some(50), None]);
    assert_eq!(app.companions.move_marker, [None, None]);

    app.companions.move_marker = [Some((9, 9)), None];
    app.prune_companion_targets(&vec![at(1, 3, 4)]);
    assert_eq!(app.companions.attack_target, [None, None]);
    assert_eq!(app.companions.move_marker, [Some((9, 9)), None]);
}

#[test]
fn skill_ranges_default_to_nine_cells() {
    let mut skills = vec![
        CompanionSkill { id: 8001, level: 1, sp_cost: 10, attack_range: 1, upgradable: true },
        CompanionSkill { id: 8002, level: 1, sp_cost: 10, attack_range: 5, upgradable: false },
    ];
    assert_eq!(skill_range(&skills, 8002), 5);
    assert_eq!(skill_range(&skills, 8009), 9);
    update_skill(&mut skills, 8001, 3, 15, 2, false);
    assert_eq!(skills[0], CompanionSkill { id: 8001, level: 3, sp_cost: 15, attack_range: 2, upgradable: false });
    update_skill(&mut skills, 8009, 3, 15, 2, false);
    assert_eq!(skills.len(), 2);
}
