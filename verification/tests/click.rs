use client::app::{App, Settings};
use client::click::{ClickContext, ClickOutcome, CompanionAim, HoveredKind, SkillClick};
use client::combat::AttackStep;
use client::effects::{Effect, Packet};

fn settings() -> Settings {
    Settings {
        show_skill_effects: true,
        fog: true,
        show_level_aura: true,
        boss_aura: false,
        refuse_trade: false,
        refuse_party_invite: false,
        bgm_enabled: true,
        sfx_enabled: true,
        snap_monster_no_skill: false,
        snap_monster_skill: false,
        snap_item: false,
    }
}

fn ctx() -> ClickContext {
    ClickContext {
        consumed_by_modal: false,
        dialog_open: false,
        in_autocounter: false,
        casting_blocks: false,
        own_shop_hovered: false,
        hovered_chat_room: None,
        companion_patrol: None,
        companion_skill: None,
        hovered_cell: Some((10, 10)),
        hovered_entity: None,
        hovered_skill_unit: None,
        shift: false,
        ctrl: false,
        incapacitated: false,
        player_hidden: false,
        player_cell: (5, 5),
        skill: None,
        skill_target: None,
        skill_unit_cell: None,
        floor_item: None,
        vendor: None,
        npc: None,
        hovered_kind: HoveredKind::Other,
        no_lockon: false,
        entity_cell: None,
        entity_in_range: false,
        unit_in_range: false,
        running: false,
        hide_move_blocked: false,
        sitting: false,
        move_locked_state: None,
    }
}

#[test]
fn an_empty_click_walks_and_stops_the_attack() {
    let mut app = App::new(settings());
    app.combat.attack_target_id = Some(3);
    app.combat.attack_request_sent = true;
    let r = app.handle_left_click(&ctx());
    assert!(matches!(r, ClickOutcome::Walk { x: 10, y: 10, cancel: Some(Effect::Send(Packet::CancelLockon)) }));
    assert_eq!(app.combat.attack_target_id, None);
    let mut c = ctx();
    c.move_locked_state = Some(2);
    let r = app.handle_left_click(&c);
    assert!(matches!(r, ClickOutcome::QueueMove(None)));
    assert_eq!(app.combat.queued_move, Some((10, 10)));
    assert_eq!(app.combat.queued_move_state, Some(2));
}

#[test]
fn claims_come_in_order() {
    let mut app = App::new(settings());
    let mut c = ctx();
    c.dialog_open = true;
    c.npc = Some(4);
    assert!(matches!(app.handle_left_click(&c), ClickOutcome::Ignored));
    c.dialog_open = false;
    assert!(matches!(app.handle_left_click(&c), ClickOutcome::ContactNpc(4)));
    c.vendor = Some(9);
    assert!(matches!(app.handle_left_click(&c), ClickOutcome::BuyFromVendor(9)));
    c.floor_item = Some((77, true));
    assert!(matches!(app.handle_left_click(&c), ClickOutcome::Pickup(Some(77))));
    c.player_hidden = true;
    assert!(matches!(app.handle_left_click(&c), ClickOutcome::PickupBlocked));
}

#[test]
fn monsters_are_attacked_unless_shift_is_held() {
    let mut app = App::new(settings());
    let mut c = ctx();
    c.hovered_entity = Some(8);
    c.hovered_kind = HoveredKind::Monster { is_pet: false };
    c.entity_cell = Some((6, 6));
    c.entity_in_range = true;
    let r = app.handle_left_click(&c);
    assert!(matches!(r, ClickOutcome::Attack(AttackStep::Swing(_))));
    assert_eq!(app.combat.attack_target_id, Some(8));
    c.shift = true;
    assert!(matches!(app.handle_left_click(&c), ClickOutcome::Walk { .. }));
}

#[test]
fn a_waiting_skill_casts_in_range_or_walks_first() {
    let mut app = App::new(settings());
    let mut c = ctx();
    c.skill = Some(SkillClick { aim: CompanionAim::Entity, skill: 28, level: 10, allowed_while_hidden: false, on_cooldown: false, range: 9, is_repair: false });
    c.skill_target = Some((12, (7, 14)));
    assert!(matches!(app.handle_left_click(&c), ClickOutcome::UseSkill { skill: 28, level: 10, target: 12, .. }));
    c.skill_target = Some((12, (30, 5)));
    assert!(matches!(app.handle_left_click(&c), ClickOutcome::SkillApproach { target: 12, x: 30, y: 5, .. }));
    c.player_hidden = true;
    assert!(matches!(app.handle_left_click(&c), ClickOutcome::SkillDropped));
    c.player_hidden = false;
    c.skill = Some(SkillClick { aim: CompanionAim::Ground, skill: 21, level: 1, allowed_while_hidden: false, on_cooldown: false, range: 2, is_repair: false });
    assert!(matches!(app.handle_left_click(&c), ClickOutcome::GroundApproach { x: 10, y: 10, range: 2, .. }));
}
