use client::app::{App, EntitySnapshot, Settings};
use client::effects::{Effect, ItemOp, MailOp, WindowId};

fn settings() -> Settings {
    Settings {
        show_skill_effects: true,
        fog: true,
        show_level_aura: true,
        boss_aura: true,
        refuse_trade: false,
        refuse_party_invite: false,
        bgm_enabled: true,
        sfx_enabled: true,
        snap_monster_no_skill: false,
        snap_monster_skill: false,
        snap_item: false,
    }
}

fn text_of(e: &Effect) -> String {
    match e {
        Effect::Chat(l) => l.text.clone(),
        other => panic!("expected a chat line, got {other:?}"),
    }
}

#[test]
fn account_screen_messages_name_the_reason() {
    assert_eq!(App::handle_login_refused(1), "Incorrect Password");
    assert_eq!(App::handle_login_refused(6), "Banned");
    assert_eq!(App::handle_login_refused(99), "Unknown error");
    assert_eq!(client::shops::char_create_error_message(0), "That name already exists.");
    assert_eq!(client::shops::char_create_error_message(9), "Character creation failed.");
}

#[test]
fn npc_shop_lists_replace_the_dialog() {
    let out = App::handle_npc_shop_buy_list(10, vec![(501, 50, 45, 0)], 3);
    assert!(matches!(&out[..], [
        Effect::ApplyNpcBuyList { npc_id: 10, fallback_npc_id: 3, items },
        Effect::CloseWindow(WindowId::NpcDialog),
    ] if items == &vec![(501, 50, 45, 0)]));
    let out = App::handle_npc_shop_sell_list(10, vec![(2, 100, 5)], 3);
    assert!(matches!(&out[1], Effect::CloseWindow(WindowId::NpcDialog)));
}

#[test]
fn vending_results_record_sales() {
    let out = App::handle_vending_purchase_result(2, 5, 0, true);
    assert_eq!(text_of(&out[0]), "Purchase complete.");
    assert!(matches!(out[1], Effect::RecordShopSale { index: 2, count: 5 }));
    let out = App::handle_vending_purchase_result(2, 5, 0, false);
    assert_eq!(out.len(), 1);
    let out = App::handle_vending_purchase_result(2, 5, 4, true);
    assert_eq!(text_of(&out[0]), "The item is out of stock.");
    assert_eq!(out.len(), 1);
    let out = App::handle_vending_stock_decrement(1, 2);
    assert!(matches!(out[0], Effect::RecordOwnSale { index: 1, count: 2 }));
    assert!(matches!(App::handle_open_vending_setup(-4), Effect::OpenVendingSetup(0)));
    assert!(matches!(App::handle_open_vending_setup(12), Effect::OpenVendingSetup(12)));

    let mut app = App::new(settings());
    app.pending.shop_name = Some("Bargains".to_string());
    assert!(app.handle_vending_open_result(0).is_none());
    assert_eq!(app.pending.shop_name, Some("Bargains".to_string()));
    assert_eq!(app.handle_vending_open_result(1).unwrap().text, "Failed to open your shop.");
    assert_eq!(app.pending.shop_name, None);
}

#[test]
fn making_needs_something_to_make() {
    assert!(matches!(App::handle_makable_item_list(Vec::new()), Effect::MsgDialog(0x1a8)));
    assert!(matches!(App::handle_makable_item_list(vec![1, 2]), Effect::OpenMakeItemWindow(ids) if ids == vec![1, 2]));
    let out = App::handle_weapon_refine_result(1, "Sword".to_string());
    assert!(matches!(&out, Some(Effect::MsgLine { msg_id: 0x390, args, .. }) if args == &vec!["Sword".to_string()]));
    assert!(App::handle_weapon_refine_result(7, "Sword".to_string()).is_none());
}

#[test]
fn pet_feeding_names_the_missing_food() {
    assert!(matches!(App::handle_pet_feed_result(true, 537, None), Effect::PetFedAct));
    let e = App::handle_pet_feed_result(false, 537, Some("Pet Food".to_string()));
    assert_eq!(text_of(&e), "You don't have Pet Food.");
    let e = App::handle_pet_feed_result(false, 537, None);
    assert_eq!(text_of(&e), "You don't have Item #537.");
}

#[test]
fn storage_and_mail_acks() {
    let out = App::handle_mail_delete_ack(5, false, None);
    assert_eq!(text_of(&out[0]), "Cannot delete a mail that still has attachments.");
    let out = App::handle_mail_delete_ack(5, true, Some(5));
    assert!(matches!(out[..], [Effect::Mail(MailOp::RemoveFromInbox(5)), Effect::Mail(MailOp::CloseOpened)]));
    assert!(matches!(App::handle_mail_get_item_ack(0), Effect::Mail(MailOp::ClearOpenedAttachment)));
    assert_eq!(text_of(&App::handle_mail_get_item_ack(1)), "Cannot receive zeny: it would exceed the limit.");
    assert!(matches!(App::handle_storage_item_removed(3, 2), Effect::Items(ItemOp::StorageRemove { index: 3, amount: 2 })));
}

#[test]
fn push_cart_status_gives_and_takes_the_cart() {
    let mut app = App::new(settings());
    app.player_id = Some(10);
    let out = app.handle_push_cart_status(10, true, 300);
    assert!(matches!(out[..], [
        Effect::SetCartType { gid: 10, design: Some(255) },
        Effect::SpawnCartVisual { gid: 10, cart: 255 },
        Effect::Items(ItemOp::CharacterCartDesign(Some(255))),
    ]));
    let out = app.handle_push_cart_status(11, true, -3);
    assert!(matches!(out[..], [Effect::SetCartType { gid: 11, design: Some(0) }, Effect::SpawnCartVisual { gid: 11, cart: 0 }]));
    let out = app.handle_push_cart_status(10, false, 0);
    assert_eq!(out.len(), 5);
    assert!(matches!(out[4], Effect::DespawnCartVisual(10)));
    let out = app.handle_push_cart_status(11, false, 0);
    assert!(matches!(out[..], [Effect::SetCartType { gid: 11, design: None }, Effect::DespawnCartVisual(11)]));
}

#[test]
fn npc_cutins_fill_and_clear_their_slots() {
    let mut app = App::new(settings());
    let out = app.handle_npc_cutin("kafra.bmp".to_string(), 1);
    assert!(matches!(&out, Some(Effect::PreloadCutin(p)) if p == "kafra.bmp"));
    assert_eq!(app.npc_cutins, [None, Some("kafra.bmp".to_string()), None]);
    assert!(app.handle_npc_cutin("x.bmp".to_string(), 7).is_none());
    assert_eq!(app.npc_cutins[1], Some("kafra.bmp".to_string()));
    assert!(app.handle_npc_cutin(String::new(), 1).is_none());
    assert_eq!(app.npc_cutins, [None, None, None]);
    app.handle_npc_cutin("a.bmp".to_string(), 0);
    app.handle_npc_cutin("b.bmp".to_string(), 2);
    assert!(app.handle_npc_cutin("ignored".to_string(), 255).is_none());
    assert_eq!(app.npc_cutins, [None, None, None]);
}

#[test]
fn hp_reports_go_to_the_character_or_the_entity() {
    let mut app = App::new(settings());
    app.player_id = Some(10);
    assert!(matches!(app.handle_entity_hp_changed(10, 5, 9), Effect::SetCharacterHp { hp: 5, max_hp: 9 }));
    assert!(matches!(app.handle_entity_hp_changed(11, 5, 9), Effect::SetEntityHp { gid: 11, hp: 5, max_hp: 9 }));
    assert!(matches!(App::apply_grip(4), Effect::Root(4)));
    assert!(matches!(App::release_grip(4), Effect::Unroot(4)));
    assert!(matches!(App::handle_map_cell_changed(-1, 2, 5), Effect::SetCellType { x: -1, y: 2, cell_type: 5 }));
}

#[test]
fn guild_emblems_reach_every_member_in_view() {
    let ents = vec![
        EntitySnapshot { id: 1, cell_x: 0, cell_y: 0, guild_id: 8, guild_emblem_version: 2 },
        EntitySnapshot { id: 2, cell_x: 0, cell_y: 0, guild_id: 9, guild_emblem_version: 2 },
        EntitySnapshot { id: 3, cell_x: 0, cell_y: 0, guild_id: 8, guild_emblem_version: 1 },
    ];
    let out = App::apply_guild_emblem_to_models(8, 2, &ents);
    assert!(out.iter().any(|e| matches!(e, Effect::ApplyGuildEmblemToModel(1))));
    assert!(!out.iter().any(|e| matches!(e, Effect::ApplyGuildEmblemToModel(2))));
}
