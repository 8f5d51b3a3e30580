use client::options::{OptionBits, OptionCodes, OptionLook, StatusSound, entity_option_changed};

fn codes() -> OptionCodes {
    OptionCodes {
        opt1_freeze: 2,
        opt1_stone: 1,
        opt1_stun: 3,
        opt2_poison: 0x1,
        opt2_deadly_poison: 0x80,
        opt2_bleeding: 0x40,
        opt2_curse: 0x2,
        opt2_silence: 0x4,
        opt2_confusion: 0x200,
        opt2_blind: 0x10,
        option_hide: 0x2,
    }
}

fn bits(body_state: i16, health_state: i16, effect_state: i32) -> OptionBits {
    OptionBits { body_state, health_state, effect_state }
}

fn look(sprite_job: u32, cart: Option<u8>, falcon: bool) -> OptionLook {
    OptionLook { sprite_job, orcish: false, cart, falcon }
}

#[test]
fn thawing_shatters_and_new_ailments_sound_once_each() {
    let r = entity_option_changed(
        bits(2, 0, 0),
        bits(0, 0x1 | 0x40 | 0x10, 0),
        look(1, None, false),
        look(1, None, false),
        codes(),
        false,
        false,
        false,
        &vec![],
    );
    assert_eq!(r.sounds, vec![StatusSound::FreezeExit, StatusSound::PoisonSet, StatusSound::BlindSet]);
    assert!(r.freeze_shatter);
    assert!(!r.stop_movement && !r.refresh_blind_overlay && !r.reload_sprite);
    assert!(r.cart.is_none() && r.falcon.is_none() && r.status_icons.is_empty());
}

#[test]
fn freezing_and_stun_sound_and_an_ailment_already_held_is_quiet() {
    let r = entity_option_changed(bits(0, 0x2, 0), bits(2, 0x2, 0), look(1, None, false), look(1, None, false),
        codes(), false, false, false, &vec![]);
    assert_eq!(r.sounds, vec![StatusSound::FreezeEnter]);
    assert!(!r.freeze_shatter);
    let r = entity_option_changed(bits(1, 0, 0), bits(3, 0, 0), look(1, None, false), look(1, None, false),
        codes(), false, false, false, &vec![]);
    assert_eq!(r.sounds, vec![StatusSound::StoneCurseExit, StatusSound::StunEnter]);
}

#[test]
fn the_player_stops_and_its_icons_follow_the_effect_state() {
    let icons = vec![(0x8, 10i16), (0x2, 20), (0x20, 30)];
    let r = entity_option_changed(bits(0, 0, 0x20), bits(0, 0, 0x8 | 0x2), look(1, Some(1), false),
        look(4, Some(2), true), codes(), true, false, true, &icons);
    assert!(r.stop_movement);
    assert!(r.refresh_blind_overlay);
    assert!(r.reload_sprite);
    assert_eq!(r.cart, Some(Some(2)));
    assert_eq!(r.falcon, Some(true));
    assert_eq!(r.status_icons, vec![(10, true), (20, true), (30, false)]);
    let r = entity_option_changed(bits(0, 0, 0x2), bits(0, 0, 0x2), look(1, None, false), look(1, None, false),
        codes(), true, false, true, &icons);
    assert!(!r.stop_movement);
    assert!(r.status_icons.is_empty());
}
