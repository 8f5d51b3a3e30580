//! Small decisions about the local player's look and the sounds its
//! animations make.
use vstd::prelude::*;
use crate::app::App;
use crate::effects::{Effect, one};

verus! {

/// What the player's hands show: the weapon sprite, the weapon's look and
/// the shield.
#[derive(Clone, Copy, Debug, PartialEq, Eq, Structural)]
pub struct HandLook {
    pub weapon: u32,
    pub weapon_look: u32,
    pub shield: u32,
}

impl App {
    /// The server sends the weapon look before the equipment list, so an
    /// off-hand weapon can only be told apart from a shield once the list has
    /// landed. `resolved` is the look the equipment now gives, `shown` the one
    /// the player's entity has (if the entity exists). When they differ the
    /// entity takes the new look and its sprite is rebuilt.
    pub fn refresh_player_hand_look(&self, resolved: HandLook, shown: Option<HandLook>) -> (out: Vec<Effect>)
        ensures
            out@ == match (self.player_id, shown) {
                (Some(gid), Some(now)) => if now != resolved {
                    seq![
                        Effect::SetPlayerHandLook {
                            gid,
                            weapon: resolved.weapon,
                            weapon_look: resolved.weapon_look,
                            shield: resolved.shield,
                        },
                    ]
                } else {
                    Seq::empty()
                },
                _ => Seq::empty(),
            },
    {
        match (self.player_id, shown) {
            (Some(gid), Some(now)) => {
                if now.weapon != resolved.weapon || now.weapon_look != resolved.weapon_look
                    || now.shield != resolved.shield {
                    one(
                        Effect::SetPlayerHandLook {
                            gid,
                            weapon: resolved.weapon,
                            weapon_look: resolved.weapon_look,
                            shield: resolved.shield,
                        },
                    )
                } else {
                    Vec::new()
                }
            },
            _ => Vec::new(),
        }
    }
}

/// Whether deciding an animation's sound event takes a number from the
/// sound random sequence: only below 100 percent, so that at the official
/// rate the sequence never advances.
pub fn act_event_draws(percent: u32) -> (draws: bool)
    ensures
        draws == (percent < 100),
{
    percent < 100
}

/// Whether an animation's sound event plays. The official client plays every
/// one; below 100 percent, `draw` (the next number of the sound random
/// sequence, taken only when `act_event_draws` says so) decides, `percent`
/// times in a hundred, and without a number nothing plays.
pub fn act_event_audible(percent: u32, draw: Option<u32>) -> (audible: bool)
    ensures
        percent >= 100 ==> audible,
        percent < 100 ==> audible == (draw matches Some(d) && d % 100 < percent),
{
    if percent >= 100 {
        return true;
    }
    match draw {
        Some(d) => d % 100 < percent,
        None => false,
    }
}

} // verus!
