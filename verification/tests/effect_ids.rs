use client::effect_id::{
    EffectId, LevelAura, boss_aura_layers, heal_effect_for_amount, is_weather_effect,
    level_aura_layers,
};

const LEVEL_AURA_LAYERS: LevelAura = LevelAura::Layers;
const LEVEL_AURA_MOTES: LevelAura = LevelAura::Motes;
const LEVEL_AURA_LAYERS_REBIRTH: LevelAura = LevelAura::LayersRebirth;
const LEVEL_AURA_MOTES_REBIRTH: LevelAura = LevelAura::MotesRebirth;

#[test]
fn weather_ids_dedup_but_fireworks_throw_stays_one_shot() {
    for id in [
        EffectId::Snow,
        EffectId::Sakura,
        EffectId::Maple,
        EffectId::Cloud4,
        EffectId::Cloud5,
        EffectId::Pokjuk,
        EffectId::PokjukSound,
    ] {
        assert!(is_weather_effect(id), "{id:?} should be keyed weather");
    }
    assert!(
        !is_weather_effect(EffectId::Throwitem2),
        "the fireworks item-toss is a normal one-shot, not deduped weather"
    );
}

#[test]
fn level_aura_layers_split_by_job_and_toggle() {
    // Acolyte and Alchemist are first-line jobs; Assassin Cross, Archer High
    // and Super Novice wear the rebirth-line aura.
    let acolyte = false;
    let alchemist = false;
    let assassin_cross = true;
    let archer_high = true;
    let super_novice = true;
    assert_eq!(level_aura_layers(acolyte, true), LEVEL_AURA_LAYERS);
    assert_eq!(level_aura_layers(alchemist, false), LEVEL_AURA_MOTES);
    assert_eq!(level_aura_layers(assassin_cross, true), LEVEL_AURA_LAYERS_REBIRTH);
    assert_eq!(level_aura_layers(archer_high, false), LEVEL_AURA_MOTES_REBIRTH);
    assert_eq!(level_aura_layers(super_novice, true), LEVEL_AURA_LAYERS_REBIRTH);
    assert_eq!(level_aura_layers(super_novice, false), LEVEL_AURA_MOTES_REBIRTH);
}

#[test]
fn aura_toggle_only_drops_the_outer_layers() {
    for rebirth in [false, true] {
        let on = level_aura_layers(rebirth, true).effects();
        let off = level_aura_layers(rebirth, false).effects();
        assert!(off.len() < on.len());
        assert_eq!(&on[..off.len()], &off[..]);
    }
    assert_eq!(
        LevelAura::Layers.effects(),
        vec![EffectId::Level993, EffectId::Level993, EffectId::Level99, EffectId::Level992]
    );
    assert_eq!(LevelAura::MotesRebirth.effects(), vec![EffectId::Level994, EffectId::Level994]);
}

#[test]
fn clouds_and_snow_are_weather_but_auras_are_not() {
    for id in [EffectId::Cloud, EffectId::Cloud2, EffectId::Cloud3, EffectId::Cloud6, EffectId::Cloud7, EffectId::Cloud8] {
        assert!(is_weather_effect(id));
    }
    for id in [EffectId::Level99, EffectId::Heal, EffectId::Toprank, EffectId::Warpzone2] {
        assert!(!is_weather_effect(id));
    }
}

#[test]
fn boss_aura_spawns_its_three_layers_in_order() {
    assert_eq!(
        boss_aura_layers(),
        vec![EffectId::Green995, EffectId::Green996, EffectId::Green993]
    );
}

#[test]
fn heal_burst_grows_with_the_amount() {
    assert_eq!(heal_effect_for_amount(200), EffectId::Heal);
    assert_eq!(heal_effect_for_amount(1999), EffectId::Heal);
    assert_eq!(heal_effect_for_amount(2000), EffectId::Heal2);
    assert_eq!(heal_effect_for_amount(3999), EffectId::Heal2);
    assert_eq!(heal_effect_for_amount(4000), EffectId::Heal4);
    assert_eq!(heal_effect_for_amount(199), EffectId::Heal4);
    assert_eq!(heal_effect_for_amount(-5), EffectId::Heal4);
}
