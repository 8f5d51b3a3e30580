//! The visual effects the client's decisions name, and which of them are
//! weather or aura effects.
use vstd::prelude::*;

verus! {

/// Effects named by the client's own rules.
#[derive(Clone, Copy, Debug, PartialEq, Eq, Structural)]
pub enum EffectId {
    Snow,
    Sakura,
    Maple,
    Cloud,
    Cloud2,
    Cloud3,
    Cloud4,
    Cloud5,
    Cloud6,
    Cloud7,
    Cloud8,
    Pokjuk,
    PokjukSound,
    Throwitem2,
    Level99,
    Level992,
    Level993,
    Level994,
    Level995,
    Level996,
    Green993,
    Green995,
    Green996,
    Heal,
    Heal2,
    Heal4,
    Warpzone2,
    Toprank,
    Refineok,
    Refinefail,
    PharmacyOk,
    PharmacyFail,
    /// The Sight aura around an entity.
    Sight2,
    /// The Ruwach aura around an entity.
    Ruwach,
}

pub open spec fn spec_is_weather_effect(id: EffectId) -> bool {
    match id {
        EffectId::Snow | EffectId::Sakura | EffectId::Maple | EffectId::Cloud | EffectId::Cloud2
        | EffectId::Cloud3 | EffectId::Cloud4 | EffectId::Cloud5 | EffectId::Cloud6
        | EffectId::Cloud7 | EffectId::Cloud8 | EffectId::Pokjuk | EffectId::PokjukSound => true,
        _ => false,
    }
}

/// Weather effects are keyed so that a repeated announcement does not stack
/// a second copy; every other effect is a one-shot.
pub fn is_weather_effect(id: EffectId) -> (b: bool)
    ensures
        b == spec_is_weather_effect(id),
{
    match id {
        EffectId::Snow | EffectId::Sakura | EffectId::Maple | EffectId::Cloud | EffectId::Cloud2
        | EffectId::Cloud3 | EffectId::Cloud4 | EffectId::Cloud5 | EffectId::Cloud6
        | EffectId::Cloud7 | EffectId::Cloud8 | EffectId::Pokjuk | EffectId::PokjukSound => true,
        _ => false,
    }
}

/// The layer set of a level aura.
#[derive(Clone, Copy, Debug, PartialEq, Eq, Structural)]
pub enum LevelAura {
    /// The doubled mote column alone: what stays with `/aura` off.
    Motes,
    /// Motes, ring and floor glow.
    Layers,
    /// The mote column of the rebirth-line aura.
    MotesRebirth,
    /// The full rebirth-line aura.
    LayersRebirth,
}

impl LevelAura {
    pub open spec fn spec_effects(self) -> Seq<EffectId> {
        match self {
            LevelAura::Motes => seq![EffectId::Level993, EffectId::Level993],
            LevelAura::Layers => seq![
                EffectId::Level993,
                EffectId::Level993,
                EffectId::Level99,
                EffectId::Level992,
            ],
            LevelAura::MotesRebirth => seq![EffectId::Level994, EffectId::Level994],
            LevelAura::LayersRebirth => seq![
                EffectId::Level994,
                EffectId::Level994,
                EffectId::Level995,
                EffectId::Level996,
            ],
        }
    }

    /// The effects spawned for this aura, in spawn order.
    pub fn effects(self) -> (v: Vec<EffectId>)
        ensures
            v@ == self.spec_effects(),
    {
        match self {
            LevelAura::Motes => vec![EffectId::Level993, EffectId::Level993],
            LevelAura::Layers => vec![
                EffectId::Level993,
                EffectId::Level993,
                EffectId::Level99,
                EffectId::Level992,
            ],
            LevelAura::MotesRebirth => vec![EffectId::Level994, EffectId::Level994],
            LevelAura::LayersRebirth => vec![
                EffectId::Level994,
                EffectId::Level994,
                EffectId::Level995,
                EffectId::Level996,
            ],
        }
    }
}

pub open spec fn spec_level_aura_layers(rebirth_line: bool, show_aura: bool) -> LevelAura {
    if rebirth_line {
        if show_aura {
            LevelAura::LayersRebirth
        } else {
            LevelAura::MotesRebirth
        }
    } else if show_aura {
        LevelAura::Layers
    } else {
        LevelAura::Motes
    }
}

/// The level aura for a job: `rebirth_line` holds for rebirth, super novice,
/// gunslinger, ninja and taekwon jobs; `show_aura` is the `/aura` toggle,
/// which takes the ring and floor glow away but leaves the motes.
pub fn level_aura_layers(rebirth_line: bool, show_aura: bool) -> (a: LevelAura)
    ensures
        a == spec_level_aura_layers(rebirth_line, show_aura),
{
    match (rebirth_line, show_aura) {
        (true, true) => LevelAura::LayersRebirth,
        (true, false) => LevelAura::MotesRebirth,
        (false, true) => LevelAura::Layers,
        (false, false) => LevelAura::Motes,
    }
}

/// The `/aura` toggle only ever removes layers: the aura shown with it off is
/// a prefix of the one shown with it on, for the same job line.
pub proof fn lemma_aura_toggle_keeps_motes(rebirth_line: bool)
    ensures
        ({
            let off = spec_level_aura_layers(rebirth_line, false).spec_effects();
            let on = spec_level_aura_layers(rebirth_line, true).spec_effects();
            &&& off.len() < on.len()
            &&& on.subrange(0, off.len() as int) == off
        }),
{
    let off = spec_level_aura_layers(rebirth_line, false).spec_effects();
    let on = spec_level_aura_layers(rebirth_line, true).spec_effects();
    assert(on.subrange(0, off.len() as int) =~= off);
}

/// The boss aura, in spawn order.
pub open spec fn spec_boss_aura_layers() -> Seq<EffectId> {
    seq![EffectId::Green995, EffectId::Green996, EffectId::Green993]
}

/// The layers of the boss aura, in spawn order.
pub fn boss_aura_layers() -> (v: Vec<EffectId>)
    ensures
        v@ == spec_boss_aura_layers(),
{
    vec![EffectId::Green995, EffectId::Green996, EffectId::Green993]
}

pub open spec fn spec_heal_effect_for_amount(amount: i16) -> EffectId {
    if amount >= 4000 {
        EffectId::Heal4
    } else if amount >= 2000 {
        EffectId::Heal2
    } else if amount >= 200 {
        EffectId::Heal
    } else {
        EffectId::Heal4
    }
}

/// The heal burst for an amount healed: larger heals get the larger burst;
/// amounts under 200 fall back to the largest one.
pub fn heal_effect_for_amount(amount: i16) -> (e: EffectId)
    ensures
        e == spec_heal_effect_for_amount(amount),
{
    if amount >= 4000 {
        EffectId::Heal4
    } else if amount >= 2000 {
        EffectId::Heal2
    } else if amount >= 200 {
        EffectId::Heal
    } else {
        EffectId::Heal4
    }
}

} // verus!
