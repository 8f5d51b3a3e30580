//! Keys of the effects the client keeps attached to entities, so that a
//! later event can take exactly those effects down again.
use vstd::prelude::*;
use std::collections::HashMap;
use crate::app::App;
use crate::effect_id::{EffectId, LevelAura, spec_boss_aura_layers, boss_aura_layers, level_aura_layers, spec_level_aura_layers};
use crate::effects::{Effect, SessionChange};
use vstd::std_specs::iter::IteratorSpec;

verus! {

broadcast use vstd::std_specs::hash::group_hash_axioms;

/// The keys named by a run of despawn effects.
pub open spec fn despawned(s: Seq<Effect>) -> Seq<u32> {
    s.map_values(|e: Effect| if let Effect::Despawn(k) = e { k } else { 0 })
}

/// Every effect of `s` is a despawn.
pub open spec fn all_despawns(s: Seq<Effect>) -> bool {
    forall|i: int| 0 <= i < s.len() ==> #[trigger] s[i] is Despawn
}

/// Despawns every key held in `m`, in the map's iteration order.
fn despawn_values<V>(m: &HashMap<V, u32>, out: &mut Vec<Effect>)
    where V: std::hash::Hash + Eq,
    requires
        vstd::std_specs::hash::obeys_key_model::<V>(),
    ensures
        final(out)@.len() >= old(out)@.len(),
        final(out)@.subrange(0, old(out)@.len() as int) == old(out)@,
        all_despawns(final(out)@.subrange(old(out)@.len() as int, final(out)@.len() as int)),
        despawned(final(out)@.subrange(old(out)@.len() as int, final(out)@.len() as int)).to_set()
            == m@.values(),
{
    let ghost start = out@.len();
    let ghost o0 = out@;
    let ghost seq0 = vstd::std_specs::hash::spec_values_iter(m).remaining();
    for k in it: m.values()
        invariant
            it.seq() == seq0,
            out@.len() == start + it.index(),
            out@.subrange(0, start as int) == o0,
            all_despawns(out@.subrange(start as int, out@.len() as int)),
            despawned(out@.subrange(start as int, out@.len() as int)) == it.seq().subrange(0, it.index() as int).map_values(|r: &u32| *r),
    {
        let ghost prev = out@;
        out.push(Effect::Despawn(*k));
        assert(out@.subrange(0, start as int) =~= o0);
        assert(out@.subrange(start as int, out@.len() as int) =~= prev.subrange(
            start as int,
            prev.len() as int,
        ).push(Effect::Despawn(*k)));
        assert(*k == it.seq()[it.index()]);
        assert(it.seq().subrange(0, it.index() + 1) =~= it.seq().subrange(
            0,
            it.index() as int,
        ).push(it.seq()[it.index()]));
        assert(despawned(out@.subrange(start as int, out@.len() as int)) =~= despawned(
            prev.subrange(start as int, prev.len() as int),
        ).push(*k));
        assert(it.seq().subrange(0, it.index() + 1).map_values(|r: &u32| *r) =~= it.seq().subrange(
            0,
            it.index() as int,
        ).map_values(|r: &u32| *r).push(*k));
    }
    assert(seq0.subrange(0, seq0.len() as int) =~= seq0);
    assert(seq0.map_values(|r: &u32| *r) =~= seq0.unref());
}

/// `ks` names the key of each entry of `m` exactly once: it runs over the
/// entries in some order, each entity once.
pub open spec fn once_per_entry(ks: Seq<u32>, m: Map<u32, (u32, i32)>) -> bool {
    exists|gids: Seq<u32>|
        #![trigger gids.to_set()]
        gids.no_duplicates() && gids.to_set() == m.dom() && ks == gids.map_values(
            |g: u32| m[g].0,
        )
}

/// Despawns the key held under each entry of `m` (pairs of key and spawn
/// rank), once per entry.
fn despawn_ranked_values(m: &HashMap<u32, (u32, i32)>, out: &mut Vec<Effect>)
    ensures
        final(out)@.len() >= old(out)@.len(),
        final(out)@.subrange(0, old(out)@.len() as int) == old(out)@,
        all_despawns(final(out)@.subrange(old(out)@.len() as int, final(out)@.len() as int)),
        once_per_entry(
            despawned(final(out)@.subrange(old(out)@.len() as int, final(out)@.len() as int)),
            m@,
        ),
        despawned(final(out)@.subrange(old(out)@.len() as int, final(out)@.len() as int)).to_set()
            == m@.values().map(|v: (u32, i32)| v.0),
{
    let ghost start = out@.len();
    let ghost o0 = out@;
    let ghost seq0 = vstd::std_specs::hash::spec_keys_iter(m).remaining();
    assert(seq0.unref().to_set() == m@.dom());
    for g in it: m.keys()
        invariant
            it.seq() == seq0,
            seq0.unref().to_set() == m@.dom(),
            out@.len() == start + it.index(),
            out@.subrange(0, start as int) == o0,
            all_despawns(out@.subrange(start as int, out@.len() as int)),
            despawned(out@.subrange(start as int, out@.len() as int)) == seq0.unref().subrange(
                0,
                it.index() as int,
            ).map_values(|k: u32| m@[k].0),
    {
        let ghost prev = out@;
        let ghost i = it.index() as int;
        assert(*g == seq0.unref()[i]);
        assert(seq0.unref().to_set().contains(seq0.unref()[i]));
        let v = m.get(g).unwrap();
        out.push(Effect::Despawn(v.0));
        assert(out@.subrange(0, start as int) =~= o0);
        assert(out@.subrange(start as int, out@.len() as int) =~= prev.subrange(
            start as int,
            prev.len() as int,
        ).push(Effect::Despawn(v.0)));
        assert(despawned(out@.subrange(start as int, out@.len() as int)) =~= despawned(
            prev.subrange(start as int, prev.len() as int),
        ).push(v.0));
        assert(seq0.unref().subrange(0, i + 1).map_values(|k: u32| m@[k].0) =~= seq0.unref().subrange(
            0,
            i,
        ).map_values(|k: u32| m@[k].0).push(v.0));
    }
    let ghost gids = seq0.unref();
    assert(gids.subrange(0, gids.len() as int) =~= gids);
    assert(gids.no_duplicates()) by {
        assert(seq0.no_duplicates());
        assert forall|a: int, b: int| 0 <= a < gids.len() && 0 <= b < gids.len() && a != b implies gids[a]
            != gids[b] by {
            assert(seq0[a] != seq0[b]);
        }
    }
    let ghost ks = gids.map_values(|k: u32| m@[k].0);
    assert(ks =~= despawned(out@.subrange(start as int, out@.len() as int)));
    assert(once_per_entry(ks, m@));
    assert forall|k: u32| ks.to_set().contains(k) <==> m@.values().map(|v: (u32, i32)| v.0).contains(k) by {
        if ks.to_set().contains(k) {
            let i = choose|i: int| 0 <= i < ks.len() && ks[i] == k;
            assert(gids.to_set().contains(gids[i]));
            assert(m@.values().contains(m@[gids[i]]));
        }
        if m@.values().map(|v: (u32, i32)| v.0).contains(k) {
            let v = choose|v: (u32, i32)| m@.values().contains(v) && v.0 == k;
            let g = choose|g: u32| m@.dom().contains(g) && m@[g] == v;
            assert(gids.to_set().contains(g));
            let i = choose|i: int| 0 <= i < gids.len() && gids[i] == g;
            assert(ks[i] == k);
        }
    }
    assert(ks.to_set() =~= m@.values().map(|v: (u32, i32)| v.0));
}

/// Keys of the effects kept attached to entities. Each map is keyed by the
/// entity; a key is what the effect queue despawns by.
#[derive(Debug)]
pub struct EffectKeys {
    /// The level aura's key and the layer set it was spawned with.
    pub level_aura_keys: HashMap<u32, (u32, LevelAura)>,
    pub boss_aura_keys: HashMap<u32, u32>,
    pub warp_portal_keys: HashMap<u32, u32>,
    /// The PvP rank aura's key and the rank it was tinted for.
    pub toprank_keys: HashMap<u32, (u32, i32)>,
    pub spirit_keys: HashMap<u32, u32>,
    pub sight_aura_keys: HashMap<u32, u32>,
    pub ruwach_aura_keys: HashMap<u32, u32>,
    /// Status buff auras, by entity and then status id.
    pub status_buff_keys: HashMap<u32, HashMap<i16, u32>>,
    /// Body-state (opt3) auras, by entity and then bit.
    pub opt3_keys: HashMap<u32, HashMap<i32, u32>>,
    /// The counter the next entity effect key is drawn from; below 2^31.
    pub next_status_buff_key: u32,
}

/// The key an entity effect gets from counter value `counter`: the counter
/// with the top bit set, keeping entity effects apart from skill-unit
/// effects, which are keyed by unit id.
pub open spec fn entity_effect_key(counter: u32) -> u32 {
    (0x8000_0000u32 | counter) as u32
}

/// The key held for `gid` in `m`, as a sequence of zero or one key.
pub open spec fn held(m: Map<u32, u32>, gid: u32) -> Seq<u32> {
    if m.contains_key(gid) {
        seq![m[gid]]
    } else {
        Seq::empty()
    }
}

pub open spec fn held_first<X>(m: Map<u32, (u32, X)>, gid: u32) -> Seq<u32> {
    if m.contains_key(gid) {
        seq![m[gid].0]
    } else {
        Seq::empty()
    }
}

/// The keys held for `gid` in the single-effect maps, in the order they are
/// taken down.
pub open spec fn single_keys_of(k: EffectKeys, gid: u32) -> Seq<u32> {
    held_first(k.level_aura_keys@, gid) + held(k.boss_aura_keys@, gid) + held_first(
        k.toprank_keys@,
        gid,
    ) + held(k.warp_portal_keys@, gid) + held(k.spirit_keys@, gid) + held(k.sight_aura_keys@, gid)
        + held(k.ruwach_aura_keys@, gid)
}

/// The status and body-state keys held for `gid`.
pub open spec fn nested_keys_of(k: EffectKeys, gid: u32) -> Set<u32> {
    (if k.status_buff_keys@.contains_key(gid) {
        k.status_buff_keys@[gid]@.values()
    } else {
        Set::empty()
    }) + (if k.opt3_keys@.contains_key(gid) {
        k.opt3_keys@[gid]@.values()
    } else {
        Set::empty()
    })
}

/// `gid` holds no key in any of the maps.
pub open spec fn holds_nothing(k: EffectKeys, gid: u32) -> bool {
    &&& !k.level_aura_keys@.contains_key(gid)
    &&& !k.boss_aura_keys@.contains_key(gid)
    &&& !k.warp_portal_keys@.contains_key(gid)
    &&& !k.toprank_keys@.contains_key(gid)
    &&& !k.spirit_keys@.contains_key(gid)
    &&& !k.sight_aura_keys@.contains_key(gid)
    &&& !k.ruwach_aura_keys@.contains_key(gid)
    &&& !k.status_buff_keys@.contains_key(gid)
    &&& !k.opt3_keys@.contains_key(gid)
}

impl EffectKeys {
    /// No effect keys held, and the key counter at its start.
    pub fn new() -> (k: EffectKeys)
        ensures
            k.level_aura_keys@ == Map::<u32, (u32, LevelAura)>::empty(),
            k.boss_aura_keys@ == Map::<u32, u32>::empty(),
            k.warp_portal_keys@ == Map::<u32, u32>::empty(),
            k.toprank_keys@ == Map::<u32, (u32, i32)>::empty(),
            k.spirit_keys@ == Map::<u32, u32>::empty(),
            k.sight_aura_keys@ == Map::<u32, u32>::empty(),
            k.ruwach_aura_keys@ == Map::<u32, u32>::empty(),
            k.status_buff_keys@ == Map::<u32, HashMap<i16, u32>>::empty(),
            k.opt3_keys@ == Map::<u32, HashMap<i32, u32>>::empty(),
            k.next_status_buff_key == 0,
    {
        EffectKeys {
            level_aura_keys: HashMap::new(),
            boss_aura_keys: HashMap::new(),
            warp_portal_keys: HashMap::new(),
            toprank_keys: HashMap::new(),
            spirit_keys: HashMap::new(),
            sight_aura_keys: HashMap::new(),
            ruwach_aura_keys: HashMap::new(),
            status_buff_keys: HashMap::new(),
            opt3_keys: HashMap::new(),
            next_status_buff_key: 0,
        }
    }
}

fn take_key(m: &mut HashMap<u32, u32>, gid: u32, out: &mut Vec<Effect>)
    ensures
        final(m)@ == old(m)@.remove(gid),
        final(out)@ == old(out)@ + held(old(m)@, gid).map_values(|k: u32| Effect::Despawn(k)),
{
    if let Some(k) = m.remove(&gid) {
        out.push(Effect::Despawn(k));
    }
    assert(final(out)@ =~= old(out)@ + held(old(m)@, gid).map_values(|k: u32| Effect::Despawn(k)));
}

/// The keys held for `gid` in a map of per-entity key maps.
pub open spec fn nested_held<V>(m: Map<u32, HashMap<V, u32>>, gid: u32) -> Set<u32> {
    if m.contains_key(gid) {
        m[gid]@.values()
    } else {
        Set::empty()
    }
}

fn take_nested<V>(m: &mut HashMap<u32, HashMap<V, u32>>, gid: u32, out: &mut Vec<Effect>)
    where V: std::hash::Hash + Eq,
    requires
        vstd::std_specs::hash::obeys_key_model::<V>(),
    ensures
        final(m)@ == old(m)@.remove(gid),
        final(out)@.len() >= old(out)@.len(),
        final(out)@.subrange(0, old(out)@.len() as int) == old(out)@,
        all_despawns(final(out)@.subrange(old(out)@.len() as int, final(out)@.len() as int)),
        despawned(final(out)@.subrange(old(out)@.len() as int, final(out)@.len() as int)).to_set()
            == nested_held(old(m)@, gid),
{
    match m.remove(&gid) {
        Some(inner) => despawn_values(&inner, out),
        None => {
            assert(final(out)@.subrange(old(out)@.len() as int, final(out)@.len() as int)
                =~= Seq::<Effect>::empty());
            assert(despawned(Seq::<Effect>::empty()).to_set() =~= Set::<u32>::empty());
        },
    }
}

/// Appending `b` after `a`: the despawned keys of the whole tail are those
/// of both parts.
proof fn lemma_tail_union(out: Seq<Effect>, start: int, mid: int)
    requires
        0 <= start <= mid <= out.len(),
        all_despawns(out.subrange(start, mid)),
        all_despawns(out.subrange(mid, out.len() as int)),
    ensures
        all_despawns(out.subrange(start, out.len() as int)),
        despawned(out.subrange(start, out.len() as int)).to_set() == despawned(
            out.subrange(start, mid),
        ).to_set() + despawned(out.subrange(mid, out.len() as int)).to_set(),
{
    let a = out.subrange(start, mid);
    let b = out.subrange(mid, out.len() as int);
    assert(out.subrange(start, out.len() as int) =~= a + b);
    assert forall|i: int| 0 <= i < (a + b).len() implies #[trigger] (a + b)[i] is Despawn by {
        if i < a.len() {
            assert((a + b)[i] == a[i]);
        } else {
            assert((a + b)[i] == b[i - a.len()]);
        }
    }
    assert(despawned(a + b) =~= despawned(a) + despawned(b));
    vstd::seq_lib::seq_to_set_distributes_over_add(despawned(a), despawned(b));
}

fn take_first_key<X>(m: &mut HashMap<u32, (u32, X)>, gid: u32, out: &mut Vec<Effect>)
    ensures
        final(m)@ == old(m)@.remove(gid),
        final(out)@ == old(out)@ + held_first(old(m)@, gid).map_values(|k: u32| Effect::Despawn(k)),
{
    if let Some((k, _)) = m.remove(&gid) {
        out.push(Effect::Despawn(k));
    }
    assert(final(out)@ =~= old(out)@ + held_first(old(m)@, gid).map_values(
        |k: u32| Effect::Despawn(k),
    ));
}

proof fn lemma_map_concat(a: Seq<u32>, b: Seq<u32>)
    ensures
        (a + b).map_values(|k: u32| Effect::Despawn(k)) =~= a.map_values(
            |k: u32| Effect::Despawn(k),
        ) + b.map_values(|k: u32| Effect::Despawn(k)),
{
}

/// Takes the keys of `gid` out of the single-effect maps, despawning each.
#[verifier::spinoff_prover]
#[verifier::rlimit(40)]
fn take_single_keys(keys: &mut EffectKeys, gid: u32, out: &mut Vec<Effect>)
    ensures
        final(keys).level_aura_keys@ == old(keys).level_aura_keys@.remove(gid),
        final(keys).boss_aura_keys@ == old(keys).boss_aura_keys@.remove(gid),
        final(keys).warp_portal_keys@ == old(keys).warp_portal_keys@.remove(gid),
        final(keys).toprank_keys@ == old(keys).toprank_keys@.remove(gid),
        final(keys).spirit_keys@ == old(keys).spirit_keys@.remove(gid),
        final(keys).sight_aura_keys@ == old(keys).sight_aura_keys@.remove(gid),
        final(keys).ruwach_aura_keys@ == old(keys).ruwach_aura_keys@.remove(gid),
        final(keys).status_buff_keys == old(keys).status_buff_keys,
        final(keys).opt3_keys == old(keys).opt3_keys,
        final(keys).next_status_buff_key == old(keys).next_status_buff_key,
        final(out)@ == old(out)@ + single_keys_of(*old(keys), gid).map_values(
            |k: u32| Effect::Despawn(k),
        ),
{
    let ghost k0 = *keys;
    let ghost o0 = out@;
    take_first_key(&mut keys.level_aura_keys, gid, out);
    take_key(&mut keys.boss_aura_keys, gid, out);
    take_first_key(&mut keys.toprank_keys, gid, out);
    take_key(&mut keys.warp_portal_keys, gid, out);
    take_key(&mut keys.spirit_keys, gid, out);
    take_key(&mut keys.sight_aura_keys, gid, out);
    take_key(&mut keys.ruwach_aura_keys, gid, out);
    proof {
        let s1 = held_first(k0.level_aura_keys@, gid);
        let s2 = held(k0.boss_aura_keys@, gid);
        let s3 = held_first(k0.toprank_keys@, gid);
        let s4 = held(k0.warp_portal_keys@, gid);
        let s5 = held(k0.spirit_keys@, gid);
        let s6 = held(k0.sight_aura_keys@, gid);
        let s7 = held(k0.ruwach_aura_keys@, gid);
        lemma_map_concat(s1, s2);
        lemma_map_concat(s1 + s2, s3);
        lemma_map_concat(s1 + s2 + s3, s4);
        lemma_map_concat(s1 + s2 + s3 + s4, s5);
        lemma_map_concat(s1 + s2 + s3 + s4 + s5, s6);
        lemma_map_concat(s1 + s2 + s3 + s4 + s5 + s6, s7);
        assert(out@ =~= o0 + single_keys_of(k0, gid).map_values(|k: u32| Effect::Despawn(k)));
    }
}

impl App {
    /// Takes down the level aura of `gid`, if it has one.
    pub fn despawn_level_aura(&mut self, gid: u32) -> (out: Option<Effect>)
        ensures
            *final(self) == (App {
                effect_keys: EffectKeys {
                    level_aura_keys: final(self).effect_keys.level_aura_keys,
                    ..old(self).effect_keys
                },
                ..*old(self)
            }),
            final(self).effect_keys.level_aura_keys@ == old(self).effect_keys.level_aura_keys@.remove(gid),
            out == if old(self).effect_keys.level_aura_keys@.contains_key(gid) {
                Some(Effect::Despawn(old(self).effect_keys.level_aura_keys@[gid].0))
            } else {
                None
            },
    {
        match self.effect_keys.level_aura_keys.remove(&gid) {
            Some((key, _)) => Some(Effect::Despawn(key)),
            None => None,
        }
    }

    /// Takes down the boss aura of `gid`, if it has one.
    pub fn despawn_boss_aura(&mut self, gid: u32) -> (out: Option<Effect>)
        ensures
            *final(self) == (App {
                effect_keys: EffectKeys {
                    boss_aura_keys: final(self).effect_keys.boss_aura_keys,
                    ..old(self).effect_keys
                },
                ..*old(self)
            }),
            final(self).effect_keys.boss_aura_keys@ == old(self).effect_keys.boss_aura_keys@.remove(gid),
            out == if old(self).effect_keys.boss_aura_keys@.contains_key(gid) {
                Some(Effect::Despawn(old(self).effect_keys.boss_aura_keys@[gid]))
            } else {
                None
            },
    {
        match self.effect_keys.boss_aura_keys.remove(&gid) {
            Some(key) => Some(Effect::Despawn(key)),
            None => None,
        }
    }

    /// Takes down the portal swirl of `gid`, if it has one.
    pub fn despawn_warp_portal(&mut self, gid: u32) -> (out: Option<Effect>)
        ensures
            *final(self) == (App {
                effect_keys: EffectKeys {
                    warp_portal_keys: final(self).effect_keys.warp_portal_keys,
                    ..old(self).effect_keys
                },
                ..*old(self)
            }),
            final(self).effect_keys.warp_portal_keys@ == old(self).effect_keys.warp_portal_keys@.remove(gid),
            out == if old(self).effect_keys.warp_portal_keys@.contains_key(gid) {
                Some(Effect::Despawn(old(self).effect_keys.warp_portal_keys@[gid]))
            } else {
                None
            },
    {
        match self.effect_keys.warp_portal_keys.remove(&gid) {
            Some(key) => Some(Effect::Despawn(key)),
            None => None,
        }
    }

    /// Takes down the PvP rank aura of `gid`, if it has one.
    pub fn despawn_pk_rank_aura(&mut self, gid: u32) -> (out: Option<Effect>)
        ensures
            *final(self) == (App {
                effect_keys: EffectKeys {
                    toprank_keys: final(self).effect_keys.toprank_keys,
                    ..old(self).effect_keys
                },
                ..*old(self)
            }),
            final(self).effect_keys.toprank_keys@ == old(self).effect_keys.toprank_keys@.remove(gid),
            out == if old(self).effect_keys.toprank_keys@.contains_key(gid) {
                Some(Effect::Despawn(old(self).effect_keys.toprank_keys@[gid].0))
            } else {
                None
            },
    {
        match self.effect_keys.toprank_keys.remove(&gid) {
            Some((key, _)) => Some(Effect::Despawn(key)),
            None => None,
        }
    }

    /// The PvP flag was dropped: every rank aura comes down, then every
    /// entity's rank is reset.
    pub fn clear_pvp_ranks(&mut self) -> (out: Vec<Effect>)
        ensures
            *final(self) == (App {
                effect_keys: EffectKeys {
                    toprank_keys: final(self).effect_keys.toprank_keys,
                    ..old(self).effect_keys
                },
                ..*old(self)
            }),
            final(self).effect_keys.toprank_keys@ == Map::<u32, (u32, i32)>::empty(),
            out@.len() >= 1,
            out@.last() == Effect::ResetPkRanks,
            all_despawns(out@.drop_last()),
            despawned(out@.drop_last()).to_set() == old(self).effect_keys.toprank_keys@.values().map(
                |v: (u32, i32)| v.0,
            ),
            once_per_entry(despawned(out@.drop_last()), old(self).effect_keys.toprank_keys@),
    {
        let mut out: Vec<Effect> = Vec::new();
        despawn_ranked_values(&self.effect_keys.toprank_keys, &mut out);
        assert(out@.subrange(0, out@.len() as int) =~= out@);
        self.effect_keys.toprank_keys.clear();
        let ghost body = out@;
        out.push(Effect::ResetPkRanks);
        assert(out@.drop_last() =~= body);
        out
    }

    /// Everything attached to `gid` comes down: its effect-holder effects,
    /// then its auras, portal, spirits and sight auras in that order, then its
    /// status and body-state auras.
    pub fn despawn_entity_effects(&mut self, gid: u32) -> (out: Vec<Effect>)
        ensures
            *final(self) == (App { effect_keys: final(self).effect_keys, ..*old(self) }),
            ({
                let k0 = old(self).effect_keys;
                let k1 = final(self).effect_keys;
                &&& k1.level_aura_keys@ == k0.level_aura_keys@.remove(gid)
                &&& k1.boss_aura_keys@ == k0.boss_aura_keys@.remove(gid)
                &&& k1.warp_portal_keys@ == k0.warp_portal_keys@.remove(gid)
                &&& k1.toprank_keys@ == k0.toprank_keys@.remove(gid)
                &&& k1.spirit_keys@ == k0.spirit_keys@.remove(gid)
                &&& k1.sight_aura_keys@ == k0.sight_aura_keys@.remove(gid)
                &&& k1.ruwach_aura_keys@ == k0.ruwach_aura_keys@.remove(gid)
                &&& k1.status_buff_keys@ == k0.status_buff_keys@.remove(gid)
                &&& k1.opt3_keys@ == k0.opt3_keys@.remove(gid)
                &&& k1.next_status_buff_key == k0.next_status_buff_key
            }),
            holds_nothing(final(self).effect_keys, gid),
            ({
                let single = single_keys_of(old(self).effect_keys, gid);
                &&& out@.len() >= 1 + single.len() as int
                &&& out@[0] == Effect::RemoveEntityEffects(gid)
                &&& out@.subrange(1, 1 + single.len() as int) == single.map_values(
                    |k: u32| Effect::Despawn(k),
                )
                &&& all_despawns(out@.subrange(1 + single.len() as int, out@.len() as int))
                &&& despawned(out@.subrange(1 + single.len() as int, out@.len() as int)).to_set()
                    == nested_keys_of(old(self).effect_keys, gid)
            }),
    {
        let mut out: Vec<Effect> = vec![Effect::RemoveEntityEffects(gid)];
        take_single_keys(&mut self.effect_keys, gid, &mut out);
        let ghost single = single_keys_of(old(self).effect_keys, gid);
        let ghost mid = out@;
        take_nested(&mut self.effect_keys.status_buff_keys, gid, &mut out);
        let ghost mid2 = out@;
        take_nested(&mut self.effect_keys.opt3_keys, gid, &mut out);
        proof {
            let n: int = 1 + single.len() as int;
            assert(out@.subrange(0, mid.len() as int) =~= mid2.subrange(0, mid.len() as int));
            assert(out@.subrange(0, n) =~= mid);
            assert(out@[0] == mid[0]);
            assert(out@.subrange(1, n) =~= mid.subrange(1, n));
            assert(out@.subrange(n, mid2.len() as int) =~= mid2.subrange(n, mid2.len() as int));
            lemma_tail_union(out@, n, mid2.len() as int);
        }
        out
    }

    /// A fresh key for an entity effect.
    pub fn next_entity_effect_key(&mut self) -> (key: u32)
        requires
            old(self).effect_keys.next_status_buff_key < 0x8000_0000,
        ensures
            *final(self) == (App {
                effect_keys: EffectKeys {
                    next_status_buff_key: final(self).effect_keys.next_status_buff_key,
                    ..old(self).effect_keys
                },
                ..*old(self)
            }),
            key == entity_effect_key(old(self).effect_keys.next_status_buff_key),
            key >= 0x8000_0000,
            key - 0x8000_0000 == old(self).effect_keys.next_status_buff_key,
            final(self).effect_keys.next_status_buff_key == (old(self).effect_keys.next_status_buff_key
                + 1) % 0x8000_0000,
    {
        let n = self.effect_keys.next_status_buff_key;
        let key = 0x8000_0000u32 | n;
        let m: u32 = n + 1;
        let next = m & 0x7fff_ffffu32;
        assert(key == 0x8000_0000u32 + n && next == m % 0x8000_0000) by (bit_vector)
            requires
                n < 0x8000_0000u32,
                key == 0x8000_0000u32 | n,
                next == m & 0x7fff_ffffu32,
        ;
        self.effect_keys.next_status_buff_key = next;
        key
    }
}

/// Spawning `effects` on `gid` under `key`, once each, in order.
pub open spec fn spawns(effects: Seq<EffectId>, gid: u32, key: u32) -> Seq<Effect> {
    effects.map_values(|id: EffectId| Effect::SpawnKeyed { id, gid, key, repeat: 1 })
}

fn push_spawns(effects: &Vec<EffectId>, gid: u32, key: u32, out: &mut Vec<Effect>)
    ensures
        final(out)@ == old(out)@ + spawns(effects@, gid, key),
{
    let ghost o0 = out@;
    let mut i: usize = 0;
    while i < effects.len()
        invariant
            i <= effects@.len(),
            out@ =~= o0 + spawns(effects@.subrange(0, i as int), gid, key),
        decreases effects@.len() - i,
    {
        out.push(Effect::SpawnKeyed { id: effects[i], gid, key, repeat: 1 });
        assert(effects@.subrange(0, i + 1) =~= effects@.subrange(0, i as int).push(effects@[i as int]));
        i = i + 1;
    }
    assert(effects@.subrange(0, effects@.len() as int) =~= effects@);
}

/// The level aura an entity should show: none when it is not visible,
/// otherwise the layer set for its job line and the `/aura` toggle.
pub open spec fn wanted_level_aura(visible: bool, rebirth_line: bool, show_aura: bool) -> Option<
    LevelAura,
> {
    if visible {
        Some(spec_level_aura_layers(rebirth_line, show_aura))
    } else {
        None
    }
}

pub open spec fn shown_level_aura(k: EffectKeys, gid: u32) -> Option<LevelAura> {
    if k.level_aura_keys@.contains_key(gid) {
        Some(k.level_aura_keys@[gid].1)
    } else {
        None
    }
}

impl App {
    /// Brings the level aura of `gid` in line with what it should show.
    /// `visible` says whether the entity is alive and at the aura's level;
    /// `rebirth_line` whether its job wears the rebirth-line aura. Nothing
    /// happens when the shown aura is already the wanted one; otherwise the
    /// shown one comes down and the wanted one, if any, goes up under a fresh
    /// key.
    pub fn refresh_level_aura(&mut self, gid: u32, visible: bool, rebirth_line: bool) -> (out: Vec<
        Effect,
    >)
        requires
            old(self).effect_keys.next_status_buff_key < 0x8000_0000,
        ensures
            *final(self) == (App {
                effect_keys: EffectKeys {
                    level_aura_keys: final(self).effect_keys.level_aura_keys,
                    next_status_buff_key: final(self).effect_keys.next_status_buff_key,
                    ..old(self).effect_keys
                },
                ..*old(self)
            }),
            final(self).effect_keys.next_status_buff_key < 0x8000_0000,
            shown_level_aura(final(self).effect_keys, gid) == wanted_level_aura(
                visible,
                rebirth_line,
                old(self).settings.show_level_aura,
            ),
            ({
                let k0 = old(self).effect_keys;
                let want = wanted_level_aura(visible, rebirth_line, old(self).settings.show_level_aura);
                let have = shown_level_aura(k0, gid);
                let key = entity_effect_key(k0.next_status_buff_key);
                let down = held_first(k0.level_aura_keys@, gid).map_values(|k: u32| Effect::Despawn(k));
                if have == want {
                    out@.len() == 0 && final(self).effect_keys.level_aura_keys@ == k0.level_aura_keys@
                        && final(self).effect_keys.next_status_buff_key == k0.next_status_buff_key
                } else {
                    match want {
                        Some(layers) => {
                            &&& out@ == down + spawns(layers.spec_effects(), gid, key)
                            &&& final(self).effect_keys.level_aura_keys@ == k0.level_aura_keys@.insert(
                                gid,
                                (key, layers),
                            )
                            &&& final(self).effect_keys.next_status_buff_key == (
                            k0.next_status_buff_key + 1) % 0x8000_0000
                        },
                        None => {
                            &&& out@ == down
                            &&& final(self).effect_keys.level_aura_keys@ == k0.level_aura_keys@.remove(
                                gid,
                            )
                            &&& final(self).effect_keys.next_status_buff_key
                                == k0.next_status_buff_key
                        },
                    }
                }
            }),
    {
        let want = if visible {
            Some(level_aura_layers(rebirth_line, self.settings.show_level_aura))
        } else {
            None
        };
        let have = match self.effect_keys.level_aura_keys.get(&gid) {
            Some(entry) => Some(entry.1),
            None => None,
        };
        let mut out: Vec<Effect> = Vec::new();
        if have == want {
            return out;
        }
        take_first_key(&mut self.effect_keys.level_aura_keys, gid, &mut out);
        if let Some(layers) = want {
            let key = self.next_entity_effect_key();
            let effects = layers.effects();
            push_spawns(&effects, gid, key, &mut out);
            self.effect_keys.level_aura_keys.insert(gid, (key, layers));
            assert(self.effect_keys.level_aura_keys@ =~= old(self).effect_keys.level_aura_keys@.insert(gid, (key, layers)));
        }
        out
    }

    /// Brings the boss aura of `gid` in line: it shows when `visible` (alive
    /// and a boss at the aura's level) and both the boss-aura and level-aura
    /// settings are on.
    pub fn refresh_boss_aura(&mut self, gid: u32, visible: bool) -> (out: Vec<Effect>)
        requires
            old(self).effect_keys.next_status_buff_key < 0x8000_0000,
        ensures
            *final(self) == (App {
                effect_keys: EffectKeys {
                    boss_aura_keys: final(self).effect_keys.boss_aura_keys,
                    next_status_buff_key: final(self).effect_keys.next_status_buff_key,
                    ..old(self).effect_keys
                },
                ..*old(self)
            }),
            final(self).effect_keys.next_status_buff_key < 0x8000_0000,
            final(self).effect_keys.boss_aura_keys@.contains_key(gid) == (visible
                && old(self).settings.boss_aura && old(self).settings.show_level_aura),
            ({
                let k0 = old(self).effect_keys;
                let want = visible && old(self).settings.boss_aura
                    && old(self).settings.show_level_aura;
                let have = k0.boss_aura_keys@.contains_key(gid);
                let key = entity_effect_key(k0.next_status_buff_key);
                if want && !have {
                    &&& out@ == spawns(spec_boss_aura_layers(), gid, key)
                    &&& final(self).effect_keys.boss_aura_keys@ == k0.boss_aura_keys@.insert(gid, key)
                    &&& final(self).effect_keys.next_status_buff_key == (k0.next_status_buff_key + 1)
                        % 0x8000_0000
                } else if !want && have {
                    &&& out@ == seq![Effect::Despawn(k0.boss_aura_keys@[gid])]
                    &&& final(self).effect_keys.boss_aura_keys@ == k0.boss_aura_keys@.remove(gid)
                    &&& final(self).effect_keys.next_status_buff_key == k0.next_status_buff_key
                } else {
                    &&& out@.len() == 0
                    &&& final(self).effect_keys == k0
                }
            }),
    {
        let want = visible && self.settings.boss_aura && self.settings.show_level_aura;
        let have = self.effect_keys.boss_aura_keys.contains_key(&gid);
        let mut out: Vec<Effect> = Vec::new();
        if want && !have {
            let key = self.next_entity_effect_key();
            let layers = boss_aura_layers();
            push_spawns(&layers, gid, key, &mut out);
            self.effect_keys.boss_aura_keys.insert(gid, key);
        } else if !want && have {
            if let Some(key) = self.effect_keys.boss_aura_keys.remove(&gid) {
                out.push(Effect::Despawn(key));
            }
        }
        out
    }

    /// Brings the PvP rank aura of `gid` in line. It shows in a PK zone when
    /// `visible` (alive and ranked high enough); its tint is the rank, so a
    /// rank change respawns it.
    pub fn refresh_pk_rank_aura(&mut self, gid: u32, visible: bool, pk_zone: bool, rank: i32) -> (out:
        Vec<Effect>)
        requires
            old(self).effect_keys.next_status_buff_key < 0x8000_0000,
        ensures
            *final(self) == (App {
                effect_keys: EffectKeys {
                    toprank_keys: final(self).effect_keys.toprank_keys,
                    next_status_buff_key: final(self).effect_keys.next_status_buff_key,
                    ..old(self).effect_keys
                },
                ..*old(self)
            }),
            final(self).effect_keys.next_status_buff_key < 0x8000_0000,
            final(self).effect_keys.toprank_keys@.contains_key(gid) == (visible && pk_zone),
            visible && pk_zone ==> final(self).effect_keys.toprank_keys@[gid].1 == rank,
            ({
                let k0 = old(self).effect_keys;
                let want = visible && pk_zone;
                let have = k0.toprank_keys@.contains_key(gid) && k0.toprank_keys@[gid].1 == rank;
                let key = entity_effect_key(k0.next_status_buff_key);
                let down = held_first(k0.toprank_keys@, gid).map_values(|k: u32| Effect::Despawn(k));
                if want && !have {
                    &&& out@ == down.push(
                        Effect::SpawnKeyed { id: EffectId::Toprank, gid, key, repeat: rank as u8 },
                    )
                    &&& final(self).effect_keys.toprank_keys@ == k0.toprank_keys@.insert(
                        gid,
                        (key, rank),
                    )
                    &&& final(self).effect_keys.next_status_buff_key == (k0.next_status_buff_key + 1)
                        % 0x8000_0000
                } else if !want {
                    &&& out@ == down
                    &&& final(self).effect_keys.toprank_keys@ == k0.toprank_keys@.remove(gid)
                    &&& final(self).effect_keys.next_status_buff_key == k0.next_status_buff_key
                } else {
                    &&& out@.len() == 0
                    &&& final(self).effect_keys == k0
                }
            }),
    {
        let want = visible && pk_zone;
        let have = match self.effect_keys.toprank_keys.get(&gid) {
            Some(entry) => entry.1 == rank,
            None => false,
        };
        let mut out: Vec<Effect> = Vec::new();
        if want && !have {
            take_first_key(&mut self.effect_keys.toprank_keys, gid, &mut out);
            let key = self.next_entity_effect_key();
            out.push(Effect::SpawnKeyed { id: EffectId::Toprank, gid, key, repeat: rank as u8 });
            self.effect_keys.toprank_keys.insert(gid, (key, rank));
            assert(self.effect_keys.toprank_keys@ =~= old(self).effect_keys.toprank_keys@.insert(gid, (key, rank)));
        } else if !want {
            take_first_key(&mut self.effect_keys.toprank_keys, gid, &mut out);
        }
        out
    }

    /// The portal swirl of a warp NPC, spawned once.
    pub fn spawn_warp_portal(&mut self, gid: u32) -> (out: Option<Effect>)
        requires
            old(self).effect_keys.next_status_buff_key < 0x8000_0000,
        ensures
            *final(self) == (App {
                effect_keys: EffectKeys {
                    warp_portal_keys: final(self).effect_keys.warp_portal_keys,
                    next_status_buff_key: final(self).effect_keys.next_status_buff_key,
                    ..old(self).effect_keys
                },
                ..*old(self)
            }),
            final(self).effect_keys.next_status_buff_key < 0x8000_0000,
            ({
                let k0 = old(self).effect_keys;
                let key = entity_effect_key(k0.next_status_buff_key);
                if k0.warp_portal_keys@.contains_key(gid) {
                    out is None && final(self).effect_keys == k0
                } else {
                    &&& out == Some(Effect::SpawnKeyed { id: EffectId::Warpzone2, gid, key, repeat: 1 })
                    &&& final(self).effect_keys.warp_portal_keys@ == k0.warp_portal_keys@.insert(gid, key)
                    &&& final(self).effect_keys.next_status_buff_key == (k0.next_status_buff_key + 1)
                        % 0x8000_0000
                }
            }),
    {
        if self.effect_keys.warp_portal_keys.contains_key(&gid) {
            return None;
        }
        let key = self.next_entity_effect_key();
        self.effect_keys.warp_portal_keys.insert(gid, key);
        Some(Effect::SpawnKeyed { id: EffectId::Warpzone2, gid, key, repeat: 1 })
    }

    /// A resurrected entity stands up again and its auras are re-evaluated;
    /// for the local player the session's resurrection resets follow.
    pub fn handle_entity_resurrected(&self, gid: u32) -> (out: Vec<Effect>)
        ensures
            out@.subrange(0, 4) == seq![
                Effect::Revive(gid),
                Effect::RefreshLevelAura(gid),
                Effect::RefreshBossAura(gid),
                Effect::RefreshPkRankAura(gid),
            ],
            self.player_id == Some(gid) ==> out@.len() == 5 && out@[4] == Effect::Session(
                SessionChange::Resurrect,
            ),
            self.player_id != Some(gid) ==> out@.len() == 4,
    {
        let mut out = vec![
            Effect::Revive(gid),
            Effect::RefreshLevelAura(gid),
            Effect::RefreshBossAura(gid),
            Effect::RefreshPkRankAura(gid),
        ];
        if self.player_id == Some(gid) {
            out.push(Effect::Session(SessionChange::Resurrect));
        }
        assert(out@.subrange(0, 4) =~= seq![
            Effect::Revive(gid),
            Effect::RefreshLevelAura(gid),
            Effect::RefreshBossAura(gid),
            Effect::RefreshPkRankAura(gid),
        ]);
        out
    }
}

/// Entity effect keys never collide with the keys of skill-unit effects,
/// which are unit ids below 2^31, and successive keys differ.
pub proof fn lemma_entity_keys_apart(counter: u32, unit_id: u32)
    requires
        counter < 0x8000_0000,
        unit_id < 0x8000_0000,
    ensures
        entity_effect_key(counter) != unit_id,
        entity_effect_key(counter) != entity_effect_key(((counter + 1) % 0x8000_0000) as u32),
{
    let next: u32 = ((counter + 1) % 0x8000_0000) as u32;
    assert(entity_effect_key(counter) == 0x8000_0000u32 + counter && entity_effect_key(next)
        == 0x8000_0000u32 + next) by (bit_vector)
        requires
            counter < 0x8000_0000u32,
            next < 0x8000_0000u32,
    ;
}

/// The counter after `i` keys were drawn from counter `n`.
pub open spec fn counter_after(n: u32, i: int) -> u32 {
    ((n + i) % 0x8000_0000) as u32
}

/// Any 2^31 successive entity effect keys are pairwise distinct: the `i`th
/// and the `j`th key drawn from counter `n` differ.
pub proof fn lemma_successive_keys_distinct(n: u32, i: int, j: int)
    requires
        n < 0x8000_0000,
        0 <= i < j < 0x8000_0000,
    ensures
        entity_effect_key(counter_after(n, i)) != entity_effect_key(counter_after(n, j)),
{
    let a = counter_after(n, i);
    let b = counter_after(n, j);
    assert(a != b) by {
        let x = n + i;
        let y = n + j;
        if x < 0x8000_0000 {
            assert(x % 0x8000_0000 == x);
        } else {
            assert(x % 0x8000_0000 == x - 0x8000_0000) by {
                vstd::arithmetic::div_mod::lemma_fundamental_div_mod_converse(
                    x,
                    0x8000_0000,
                    1,
                    x - 0x8000_0000,
                );
            }
        }
        if y < 0x8000_0000 {
            assert(y % 0x8000_0000 == y);
        } else {
            assert(y % 0x8000_0000 == y - 0x8000_0000) by {
                vstd::arithmetic::div_mod::lemma_fundamental_div_mod_converse(
                    y,
                    0x8000_0000,
                    1,
                    y - 0x8000_0000,
                );
            }
        }
    }
    assert(a < 0x8000_0000 && b < 0x8000_0000);
    assert((0x8000_0000u32 | a) != (0x8000_0000u32 | b)) by (bit_vector)
        requires
            a < 0x8000_0000u32,
            b < 0x8000_0000u32,
            a != b,
    ;
}

impl App {
    /// The map's properties changed. Leaving a PvP map (it was one, it is
    /// no longer) brings the rank auras down and resets every rank, as
    /// `clear_pvp_ranks` does; any other change leaves the state alone.
    pub fn handle_map_property_changed(&mut self, was_pk_zone: bool, now_pk_zone: bool) -> (out: Vec<
        Effect,
    >)
        ensures
            map_property_changed_step(*old(self), *final(self), was_pk_zone, now_pk_zone, out@),
    {
        if was_pk_zone && !now_pk_zone {
            self.clear_pvp_ranks()
        } else {
            Vec::new()
        }
    }
}

/// Which detection auras an entity's option word asks for.
#[derive(Clone, Copy, Debug)]
pub struct DetectBits {
    pub sight: bool,
    pub ruwach: bool,
}

/// One detection aura brought in line: the keys held, the key counter and
/// the effects after it. Wanted and not shown, it spawns under a fresh key
/// with its sound; shown and not wanted, it goes; otherwise nothing.
pub open spec fn detect_outcome(keys: Map<u32, u32>, next: u32, want: bool, gid: u32, id: EffectId) -> (
    Map<u32, u32>,
    u32,
    Seq<Effect>,
) {
    let have = keys.contains_key(gid);
    if want && !have {
        let key = entity_effect_key(next);
        (
            keys.insert(gid, key),
            ((next + 1) % 0x8000_0000) as u32,
            seq![Effect::SpawnKeyed { id, gid, key, repeat: 1 }, Effect::DetectSound(gid)],
        )
    } else if !want && have {
        (keys.remove(gid), next, seq![Effect::Despawn(keys[gid])])
    } else {
        (keys, next, Seq::empty())
    }
}

impl App {
    /// Brings the Sight and the Ruwach auras of `gid` in line with what its
    /// option word asks for (`wanted`; `None` when the entity is not in
    /// view, which changes nothing), Sight first.
    pub fn refresh_detect_aura(&mut self, gid: u32, wanted: Option<DetectBits>) -> (out: Vec<Effect>)
        requires
            old(self).effect_keys.next_status_buff_key < 0x8000_0000,
        ensures
            final(self).effect_keys.next_status_buff_key < 0x8000_0000,
            wanted is None ==> *final(self) == *old(self) && out@.len() == 0,
            wanted matches Some(w) ==> {
                let k0 = old(self).effect_keys;
                let s = detect_outcome(
                    k0.sight_aura_keys@,
                    k0.next_status_buff_key,
                    w.sight,
                    gid,
                    EffectId::Sight2,
                );
                let r = detect_outcome(k0.ruwach_aura_keys@, s.1, w.ruwach, gid, EffectId::Ruwach);
                &&& *final(self) == (App {
                    effect_keys: EffectKeys {
                        sight_aura_keys: final(self).effect_keys.sight_aura_keys,
                        ruwach_aura_keys: final(self).effect_keys.ruwach_aura_keys,
                        next_status_buff_key: final(self).effect_keys.next_status_buff_key,
                        ..k0
                    },
                    ..*old(self)
                })
                &&& final(self).effect_keys.sight_aura_keys@ == s.0
                &&& final(self).effect_keys.ruwach_aura_keys@ == r.0
                &&& final(self).effect_keys.next_status_buff_key == r.1
                &&& out@ == s.2 + r.2
            },
    {
        let w = match wanted {
            Some(w) => w,
            None => {
                return Vec::new();
            },
        };
        let mut out: Vec<Effect> = Vec::new();
        let have_sight = self.effect_keys.sight_aura_keys.contains_key(&gid);
        if w.sight && !have_sight {
            let key = self.next_entity_effect_key();
            out.push(Effect::SpawnKeyed { id: EffectId::Sight2, gid, key, repeat: 1 });
            out.push(Effect::DetectSound(gid));
            self.effect_keys.sight_aura_keys.insert(gid, key);
        } else if !w.sight && have_sight {
            if let Some(key) = self.effect_keys.sight_aura_keys.remove(&gid) {
                out.push(Effect::Despawn(key));
            }
        }
        let ghost mid = out@;
        let have_ruwach = self.effect_keys.ruwach_aura_keys.contains_key(&gid);
        if w.ruwach && !have_ruwach {
            let key = self.next_entity_effect_key();
            out.push(Effect::SpawnKeyed { id: EffectId::Ruwach, gid, key, repeat: 1 });
            out.push(Effect::DetectSound(gid));
            self.effect_keys.ruwach_aura_keys.insert(gid, key);
        } else if !w.ruwach && have_ruwach {
            if let Some(key) = self.effect_keys.ruwach_aura_keys.remove(&gid) {
                out.push(Effect::Despawn(key));
            }
        }
        proof {
            assert(out@ =~= mid + (out@.subrange(mid.len() as int, out@.len() as int)));
        }
        out
    }
}

/// What `handle_map_property_changed` leaves and hands on.
pub open spec fn map_property_changed_step(a: App, b: App, was_pk_zone: bool, now_pk_zone: bool, out: Seq<Effect>) -> bool {
    &&& !(was_pk_zone && !now_pk_zone) ==> b == a && out.len() == 0
    &&& was_pk_zone && !now_pk_zone ==> {
                    &&& b == (App {
                        effect_keys: EffectKeys {
                            toprank_keys: b.effect_keys.toprank_keys,
                            ..a.effect_keys
                        },
                        ..a
                    })
                    &&& b.effect_keys.toprank_keys@ == Map::<u32, (u32, i32)>::empty()
                    &&& out.len() >= 1
                    &&& out.last() == Effect::ResetPkRanks
                    &&& all_despawns(out.drop_last())
                    &&& despawned(out.drop_last()).to_set() == a.effect_keys.toprank_keys@.values().map(
                        |v: (u32, i32)| v.0,
                    )
                    &&& once_per_entry(despawned(out.drop_last()), a.effect_keys.toprank_keys@)
                }
}

} // verus!
