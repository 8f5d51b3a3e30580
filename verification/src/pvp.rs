//! PvP ranks: recording them and telling the player when theirs crosses
//! into or out of the top ranks.
use vstd::prelude::*;
use crate::app::App;
use crate::effects::{ChatKind, ChatLine, Effect, is_chat, one, two};
use crate::text::{push_signed_decimal, sdec};

verus! {

/// The sound played when the player's rank changes.
pub open spec fn rank_sound() -> Seq<char> {
    "effect\\number_change.wav"@
}

/// What the player is told when its rank goes from `old_rank` to
/// `ranking`, with `top` the last rank that wears the top-rank aura: a line
/// when the rank crosses into or out of the top ranks, then the sound.
pub open spec fn rank_announcement(
    name: Seq<char>,
    old_rank: i32,
    ranking: i32,
    top: i32,
    out: Seq<Effect>,
) -> bool {
    let sound = out.last() matches Effect::PlayerSound(s) && s@ == rank_sound();
    if old_rank > top && ranking <= top {
        out.len() == 2 && is_chat(
            out[0],
            ChatKind::System,
            "Congratulations, "@ + name + " moved up to rank "@ + sdec(ranking as int) + "."@,
        ) && sound
    } else if old_rank <= top && ranking > top {
        out.len() == 2 && is_chat(
            out[0],
            ChatKind::System,
            "Too bad, "@ + name + " dropped to rank "@ + sdec(ranking as int) + "."@,
        ) && sound
    } else {
        out.len() == 1 && sound
    }
}

fn rank_line(prefix: &str, name: &String, middle: &str, ranking: i32) -> (e: Effect)
    ensures
        is_chat(e, ChatKind::System, prefix@ + name@ + middle@ + sdec(ranking as int) + "."@),
{
    let mut t = String::from_str(prefix);
    t.append(name.as_str());
    t.append(middle);
    push_signed_decimal(&mut t, ranking as i64);
    t.append(".");
    Effect::Chat(ChatLine { kind: ChatKind::System, text: t })
}

impl App {
    /// Tells the player its rank changed from `old_rank` to `ranking`;
    /// `top` is the last rank that wears the top-rank aura.
    pub fn announce_own_pvp_rank(&self, old_rank: i32, ranking: i32, top: i32) -> (out: Vec<Effect>)
        ensures
            rank_announcement(self.character_name@, old_rank, ranking, top, out@),
    {
        let sound = Effect::PlayerSound(String::from_str("effect\\number_change.wav"));
        if old_rank > top && ranking <= top {
            two(
                rank_line("Congratulations, ", &self.character_name, " moved up to rank ", ranking),
                sound,
            )
        } else if old_rank <= top && ranking > top {
            two(rank_line("Too bad, ", &self.character_name, " dropped to rank ", ranking), sound)
        } else {
            one(sound)
        }
    }

    /// An entity's PvP rank changed, in a PK zone. `old_rank` is the rank the
    /// entity had, or none when it is not in view; `is_player` says it is
    /// the local player and `hidden` that it is hiding. Outside a PK zone,
    /// for an entity not in view, or for another player in hiding, nothing
    /// happens. Otherwise the rank is recorded, the player hears of a change
    /// of its own rank, and the rank aura is brought in line.
    pub fn handle_pvp_ranking_changed(
        &self,
        gid: u32,
        ranking: i32,
        total: i32,
        pk_zone: bool,
        old_rank: Option<i32>,
        is_player: bool,
        hidden: bool,
        top: i32,
    ) -> (out: Vec<Effect>)
        ensures
            !pk_zone || old_rank is None || (!is_player && hidden) ==> out@.len() == 0,
            pk_zone && old_rank is Some && (is_player || !hidden) ==> {
                let old = old_rank.unwrap();
                let n = out@.len();
                &&& n >= 2
                &&& out@[0] == Effect::SetPkRank { gid, rank: ranking, total }
                &&& out@[n - 1] == Effect::RefreshPkRankAura(gid)
                &&& if is_player && old != ranking {
                    rank_announcement(
                        self.character_name@,
                        old,
                        ranking,
                        top,
                        out@.subrange(1, n - 1),
                    )
                } else {
                    n == 2
                }
            },
    {
        if !pk_zone {
            return Vec::new();
        }
        let old = match old_rank {
            Some(r) => r,
            None => {
                return Vec::new();
            },
        };
        if !is_player && hidden {
            return Vec::new();
        }
        let mut out = one(Effect::SetPkRank { gid, rank: ranking, total });
        if is_player && old != ranking {
            let mut said = self.announce_own_pvp_rank(old, ranking, top);
            let ghost said0 = said@;
            out.append(&mut said);
            assert(out@.subrange(1, out@.len() as int) =~= said0);
        }
        out.push(Effect::RefreshPkRankAura(gid));
        assert(out@.subrange(1, out@.len() - 1) =~= out@.drop_last().subrange(1, out@.len() - 1));
        out
    }
}

} // verus!
