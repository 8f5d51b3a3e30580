//! What a change of an entity's option words (body state, health state,
//! effect state) sets off: status sounds, the freeze shatter, a stop, a
//! sprite reload, cart and falcon changes, the player's status icons.
use vstd::prelude::*;

verus! {

/// The three option words of an entity.
#[derive(Clone, Copy, Debug)]
pub struct OptionBits {
    /// The single ailment the body is in (frozen, stone, stunned, ...).
    pub body_state: i16,
    /// The lasting ailments, one bit each.
    pub health_state: i16,
    /// Riding, carts, falcon, hiding, and other looks, one bit each.
    pub effect_state: i32,
}

/// What the effect state makes of an entity's look, as the sprite tables
/// read it.
#[derive(Clone, Copy, Debug, PartialEq, Eq, Structural)]
pub struct OptionLook {
    /// The job the sprite is drawn as.
    pub sprite_job: u32,
    /// Whether the Orc head is worn.
    pub orcish: bool,
    /// The cart pulled, by design.
    pub cart: Option<u8>,
    pub falcon: bool,
}

/// The codes of the option words that these rules read.
#[derive(Clone, Copy, Debug)]
pub struct OptionCodes {
    pub opt1_freeze: i16,
    pub opt1_stone: i16,
    pub opt1_stun: i16,
    pub opt2_poison: i16,
    pub opt2_deadly_poison: i16,
    pub opt2_bleeding: i16,
    pub opt2_curse: i16,
    pub opt2_silence: i16,
    pub opt2_confusion: i16,
    pub opt2_blind: i16,
    pub option_hide: i32,
}

/// The sounds an ailment starting or ending plays.
#[derive(Clone, Copy, Debug, PartialEq, Eq, Structural)]
pub enum StatusSound {
    FreezeEnter,
    FreezeExit,
    StoneCurseExit,
    StunEnter,
    PoisonSet,
    CurseSet,
    SilenceSet,
    ConfusionSet,
    BlindSet,
}

/// What an option change sets off.
#[derive(Debug)]
pub struct OptionChange {
    /// The status sounds to play at the entity, in order.
    pub sounds: Vec<StatusSound>,
    /// The ice around a frozen entity shatters.
    pub freeze_shatter: bool,
    /// The player stops walking.
    pub stop_movement: bool,
    /// The player's blind overlay is brought in line.
    pub refresh_blind_overlay: bool,
    /// The sprite is loaded again for its new job or head.
    pub reload_sprite: bool,
    /// The cart now pulled, when it changed.
    pub cart: Option<Option<u8>>,
    /// Whether a falcon now rides along, when that changed.
    pub falcon: Option<bool>,
    /// The player's status icons that turn on or off, by status.
    pub status_icons: Vec<(i16, bool)>,
}

pub struct OptionChangeView {
    pub sounds: Seq<StatusSound>,
    pub freeze_shatter: bool,
    pub stop_movement: bool,
    pub refresh_blind_overlay: bool,
    pub reload_sprite: bool,
    pub cart: Option<Option<u8>>,
    pub falcon: Option<bool>,
    pub status_icons: Seq<(i16, bool)>,
}

impl View for OptionChange {
    type V = OptionChangeView;

    open spec fn view(&self) -> OptionChangeView {
        OptionChangeView {
            sounds: self.sounds@,
            freeze_shatter: self.freeze_shatter,
            stop_movement: self.stop_movement,
            refresh_blind_overlay: self.refresh_blind_overlay,
            reload_sprite: self.reload_sprite,
            cart: self.cart,
            falcon: self.falcon,
            status_icons: self.status_icons@,
        }
    }
}

/// `x` alone when `b`, else nothing.
pub open spec fn when<T>(b: bool, x: T) -> Seq<T> {
    if b { seq![x] } else { Seq::empty() }
}

/// The lasting ailment `bit` came on.
pub open spec fn gained(prev: i16, now: i16, bit: i16) -> bool {
    now & bit != 0 && prev & bit == 0
}

/// The status sounds of a change from `prev` to `now`, in order: freezing
/// or thawing, leaving stone, being stunned, then each lasting ailment that
/// came on (any poison or bleeding sounds once).
pub open spec fn status_sounds(prev: OptionBits, now: OptionBits, c: OptionCodes) -> Seq<StatusSound> {
    let was_frozen = prev.body_state == c.opt1_freeze;
    let now_frozen = now.body_state == c.opt1_freeze;
    let h0 = prev.health_state;
    let h1 = now.health_state;
    when(now_frozen && !was_frozen, StatusSound::FreezeEnter)
        + when(was_frozen && !now_frozen, StatusSound::FreezeExit)
        + when(prev.body_state == c.opt1_stone && now.body_state != c.opt1_stone, StatusSound::StoneCurseExit)
        + when(now.body_state == c.opt1_stun && prev.body_state != c.opt1_stun, StatusSound::StunEnter)
        + when(
        gained(h0, h1, c.opt2_poison) || gained(h0, h1, c.opt2_deadly_poison) || gained(
            h0,
            h1,
            c.opt2_bleeding,
        ),
        StatusSound::PoisonSet,
    ) + when(gained(h0, h1, c.opt2_curse), StatusSound::CurseSet) + when(
        gained(h0, h1, c.opt2_silence),
        StatusSound::SilenceSet,
    ) + when(gained(h0, h1, c.opt2_confusion), StatusSound::ConfusionSet) + when(
        gained(h0, h1, c.opt2_blind),
        StatusSound::BlindSet,
    )
}

/// The status icons whose bit in the effect state flipped, in the order of
/// `icons` (pairs of bit and status), each with whether it is now on.
pub open spec fn flipped_icons(prev: i32, now: i32, icons: Seq<(i32, i16)>) -> Seq<(i16, bool)>
    decreases icons.len(),
{
    if icons.len() == 0 {
        Seq::empty()
    } else {
        let (bit, efst) = icons.last();
        let was = prev & bit != 0;
        let is = now & bit != 0;
        flipped_icons(prev, now, icons.drop_last()) + when(was != is, (efst, is))
    }
}

/// What the change of `gid`'s option words from `prev` to `now` sets off.
/// `is_player`: the entity is the local player; `movement_blocked`: its new
/// body state keeps it in place; `hide_blocks_move`: hiding stops the
/// player's walk (it has no way to walk while hidden).
pub open spec fn spec_option_change(
    prev: OptionBits,
    now: OptionBits,
    prev_look: OptionLook,
    now_look: OptionLook,
    c: OptionCodes,
    is_player: bool,
    movement_blocked: bool,
    hide_blocks_move: bool,
    icons: Seq<(i32, i16)>,
) -> OptionChangeView {
    let gained_hide = prev.effect_state & c.option_hide == 0 && now.effect_state & c.option_hide != 0;
    OptionChangeView {
        sounds: status_sounds(prev, now, c),
        freeze_shatter: prev.body_state == c.opt1_freeze && now.body_state != c.opt1_freeze,
        stop_movement: is_player && (movement_blocked || (gained_hide && hide_blocks_move)),
        refresh_blind_overlay: is_player,
        reload_sprite: prev_look.sprite_job != now_look.sprite_job || prev_look.orcish != now_look.orcish,
        cart: if prev_look.cart != now_look.cart { Some(now_look.cart) } else { None },
        falcon: if prev_look.falcon != now_look.falcon { Some(now_look.falcon) } else { None },
        status_icons: if is_player {
            flipped_icons(prev.effect_state, now.effect_state, icons)
        } else {
            Seq::empty()
        },
    }
}

proof fn lemma_cat_contains<T>(s: Seq<T>, t: Seq<T>, x: T)
    ensures
        (s + t).contains(x) <==> s.contains(x) || t.contains(x),
{
    if (s + t).contains(x) {
        let i = choose|i: int| 0 <= i < (s + t).len() && (s + t)[i] == x;
        if i < s.len() {
            assert(s[i] == x);
        } else {
            assert(t[i - s.len()] == x);
        }
    }
    if s.contains(x) {
        let i = choose|i: int| 0 <= i < s.len() && s[i] == x;
        assert((s + t)[i] == x);
    }
    if t.contains(x) {
        let i = choose|i: int| 0 <= i < t.len() && t[i] == x;
        assert((s + t)[s.len() + i] == x);
    }
}

proof fn lemma_when_contains<T>(b: bool, x: T, y: T)
    ensures
        (b ==> self::when(b, x).contains(y) == (y == x)),
        (!b ==> !self::when(b, x).contains(y)),
{
    if b {
        assert(when(b, x)[0] == x);
    }
}

proof fn lemma_sounds_contain(prev: OptionBits, now: OptionBits, c: OptionCodes, x: StatusSound)
    ensures
        status_sounds(prev, now, c).contains(x) <==> ({
            let h0 = prev.health_state;
            let h1 = now.health_state;
            let fz = prev.body_state == c.opt1_freeze;
            let nf = now.body_state == c.opt1_freeze;
            ||| x == StatusSound::FreezeEnter && nf && !fz
            ||| x == StatusSound::FreezeExit && fz && !nf
            ||| x == StatusSound::StoneCurseExit && prev.body_state == c.opt1_stone
                && now.body_state != c.opt1_stone
            ||| x == StatusSound::StunEnter && now.body_state == c.opt1_stun && prev.body_state
                != c.opt1_stun
            ||| x == StatusSound::PoisonSet && (gained(h0, h1, c.opt2_poison) || gained(
                h0,
                h1,
                c.opt2_deadly_poison,
            ) || gained(h0, h1, c.opt2_bleeding))
            ||| x == StatusSound::CurseSet && gained(h0, h1, c.opt2_curse)
            ||| x == StatusSound::SilenceSet && gained(h0, h1, c.opt2_silence)
            ||| x == StatusSound::ConfusionSet && gained(h0, h1, c.opt2_confusion)
            ||| x == StatusSound::BlindSet && gained(h0, h1, c.opt2_blind)
        }),
{
    let h0 = prev.health_state;
    let h1 = now.health_state;
    let fz = prev.body_state == c.opt1_freeze;
    let nf = now.body_state == c.opt1_freeze;
    let b1 = nf && !fz;
    let b2 = fz && !nf;
    let b3 = prev.body_state == c.opt1_stone && now.body_state != c.opt1_stone;
    let b4 = now.body_state == c.opt1_stun && prev.body_state != c.opt1_stun;
    let b5 = gained(h0, h1, c.opt2_poison) || gained(h0, h1, c.opt2_deadly_poison) || gained(
        h0,
        h1,
        c.opt2_bleeding,
    );
    let b6 = gained(h0, h1, c.opt2_curse);
    let b7 = gained(h0, h1, c.opt2_silence);
    let b8 = gained(h0, h1, c.opt2_confusion);
    let b9 = gained(h0, h1, c.opt2_blind);
    let w1 = when(b1, StatusSound::FreezeEnter);
    let w2 = when(b2, StatusSound::FreezeExit);
    let w3 = when(b3, StatusSound::StoneCurseExit);
    let w4 = when(b4, StatusSound::StunEnter);
    let w5 = when(b5, StatusSound::PoisonSet);
    let w6 = when(b6, StatusSound::CurseSet);
    let w7 = when(b7, StatusSound::SilenceSet);
    let w8 = when(b8, StatusSound::ConfusionSet);
    let w9 = when(b9, StatusSound::BlindSet);
    let p2 = w1 + w2;
    let p3 = p2 + w3;
    let p4 = p3 + w4;
    let p5 = p4 + w5;
    let p6 = p5 + w6;
    let p7 = p6 + w7;
    let p8 = p7 + w8;
    assert(status_sounds(prev, now, c) == p8 + w9);
    lemma_cat_contains(w1, w2, x);
    lemma_cat_contains(p2, w3, x);
    lemma_cat_contains(p3, w4, x);
    lemma_cat_contains(p4, w5, x);
    lemma_cat_contains(p5, w6, x);
    lemma_cat_contains(p6, w7, x);
    lemma_cat_contains(p7, w8, x);
    lemma_cat_contains(p8, w9, x);
    lemma_when_contains(b1, StatusSound::FreezeEnter, x);
    lemma_when_contains(b2, StatusSound::FreezeExit, x);
    lemma_when_contains(b3, StatusSound::StoneCurseExit, x);
    lemma_when_contains(b4, StatusSound::StunEnter, x);
    lemma_when_contains(b5, StatusSound::PoisonSet, x);
    lemma_when_contains(b6, StatusSound::CurseSet, x);
    lemma_when_contains(b7, StatusSound::SilenceSet, x);
    lemma_when_contains(b8, StatusSound::ConfusionSet, x);
    lemma_when_contains(b9, StatusSound::BlindSet, x);
}

/// Each status sound plays exactly when its change happened: a lasting
/// ailment's sound when its bit is set in the new health state and clear in
/// the old one (poison when any of poison, deadly poison or bleeding came on);
/// freezing and stun when the body state becomes that ailment, thawing and
/// leaving stone when it stops being it.
pub proof fn lemma_status_sounds_follow_changes(
    prev: OptionBits,
    now: OptionBits,
    prev_look: OptionLook,
    now_look: OptionLook,
    c: OptionCodes,
    is_player: bool,
    movement_blocked: bool,
    hide_blocks_move: bool,
    icons: Seq<(i32, i16)>,
)
    ensures
        ({
            let s = spec_option_change(
                prev,
                now,
                prev_look,
                now_look,
                c,
                is_player,
                movement_blocked,
                hide_blocks_move,
                icons,
            ).sounds;
            let h0 = prev.health_state;
            let h1 = now.health_state;
            &&& s.contains(StatusSound::SilenceSet) <==> (h1 & c.opt2_silence != 0 && h0
                & c.opt2_silence == 0)
            &&& s.contains(StatusSound::CurseSet) <==> (h1 & c.opt2_curse != 0 && h0 & c.opt2_curse
                == 0)
            &&& s.contains(StatusSound::ConfusionSet) <==> (h1 & c.opt2_confusion != 0 && h0
                & c.opt2_confusion == 0)
            &&& s.contains(StatusSound::BlindSet) <==> (h1 & c.opt2_blind != 0 && h0 & c.opt2_blind
                == 0)
            &&& s.contains(StatusSound::PoisonSet) <==> ((h1 & c.opt2_poison != 0 && h0
                & c.opt2_poison == 0) || (h1 & c.opt2_deadly_poison != 0 && h0
                & c.opt2_deadly_poison == 0) || (h1 & c.opt2_bleeding != 0 && h0 & c.opt2_bleeding
                == 0))
            &&& s.contains(StatusSound::FreezeEnter) <==> (now.body_state == c.opt1_freeze
                && prev.body_state != c.opt1_freeze)
            &&& s.contains(StatusSound::FreezeExit) <==> (prev.body_state == c.opt1_freeze
                && now.body_state != c.opt1_freeze)
            &&& s.contains(StatusSound::StoneCurseExit) <==> (prev.body_state == c.opt1_stone
                && now.body_state != c.opt1_stone)
            &&& s.contains(StatusSound::StunEnter) <==> (now.body_state == c.opt1_stun
                && prev.body_state != c.opt1_stun)
        }),
{
    lemma_sounds_contain(prev, now, c, StatusSound::SilenceSet);
    lemma_sounds_contain(prev, now, c, StatusSound::CurseSet);
    lemma_sounds_contain(prev, now, c, StatusSound::ConfusionSet);
    lemma_sounds_contain(prev, now, c, StatusSound::BlindSet);
    lemma_sounds_contain(prev, now, c, StatusSound::PoisonSet);
    lemma_sounds_contain(prev, now, c, StatusSound::FreezeEnter);
    lemma_sounds_contain(prev, now, c, StatusSound::FreezeExit);
    lemma_sounds_contain(prev, now, c, StatusSound::StoneCurseExit);
    lemma_sounds_contain(prev, now, c, StatusSound::StunEnter);
}

/// The ice shatters exactly when the thawing sound plays: when the entity was
/// frozen and no longer is.
pub proof fn lemma_shatter_with_thaw(
    prev: OptionBits,
    now: OptionBits,
    prev_look: OptionLook,
    now_look: OptionLook,
    c: OptionCodes,
    is_player: bool,
    movement_blocked: bool,
    hide_blocks_move: bool,
    icons: Seq<(i32, i16)>,
)
    ensures
        ({
            let r = spec_option_change(
                prev,
                now,
                prev_look,
                now_look,
                c,
                is_player,
                movement_blocked,
                hide_blocks_move,
                icons,
            );
            &&& r.freeze_shatter <==> r.sounds.contains(StatusSound::FreezeExit)
            &&& r.freeze_shatter <==> (prev.body_state == c.opt1_freeze && now.body_state
                != c.opt1_freeze)
        }),
{
    lemma_sounds_contain(prev, now, c, StatusSound::FreezeExit);
}

fn push_when(v: &mut Vec<StatusSound>, b: bool, x: StatusSound)
    ensures
        final(v)@ == old(v)@ + when(b, x),
{
    if b {
        v.push(x);
    }
    assert(final(v)@ =~= old(v)@ + when(b, x)) by {
        if !b {
            assert(v@ =~= v@ + Seq::<StatusSound>::empty());
        }
    }
}

/// Works out what the change of an entity's option words sets off, as
/// `spec_option_change` says.
pub fn entity_option_changed(
    prev: OptionBits,
    now: OptionBits,
    prev_look: OptionLook,
    now_look: OptionLook,
    codes: OptionCodes,
    is_player: bool,
    movement_blocked: bool,
    hide_blocks_move: bool,
    icons: &Vec<(i32, i16)>,
) -> (r: OptionChange)
    ensures
        r@ == spec_option_change(
            prev,
            now,
            prev_look,
            now_look,
            codes,
            is_player,
            movement_blocked,
            hide_blocks_move,
            icons@,
        ),
{
    let c = codes;
    let was_frozen = prev.body_state == c.opt1_freeze;
    let now_frozen = now.body_state == c.opt1_freeze;
    let h0 = prev.health_state;
    let h1 = now.health_state;
    let mut sounds: Vec<StatusSound> = Vec::new();
    push_when(&mut sounds, now_frozen && !was_frozen, StatusSound::FreezeEnter);
    push_when(&mut sounds, was_frozen && !now_frozen, StatusSound::FreezeExit);
    push_when(
        &mut sounds,
        prev.body_state == c.opt1_stone && now.body_state != c.opt1_stone,
        StatusSound::StoneCurseExit,
    );
    push_when(
        &mut sounds,
        now.body_state == c.opt1_stun && prev.body_state != c.opt1_stun,
        StatusSound::StunEnter,
    );
    let poison = (h1 & c.opt2_poison != 0 && h0 & c.opt2_poison == 0) || (h1 & c.opt2_deadly_poison
        != 0 && h0 & c.opt2_deadly_poison == 0) || (h1 & c.opt2_bleeding != 0 && h0 & c.opt2_bleeding
        == 0);
    push_when(&mut sounds, poison, StatusSound::PoisonSet);
    push_when(&mut sounds, h1 & c.opt2_curse != 0 && h0 & c.opt2_curse == 0, StatusSound::CurseSet);
    push_when(
        &mut sounds,
        h1 & c.opt2_silence != 0 && h0 & c.opt2_silence == 0,
        StatusSound::SilenceSet,
    );
    push_when(
        &mut sounds,
        h1 & c.opt2_confusion != 0 && h0 & c.opt2_confusion == 0,
        StatusSound::ConfusionSet,
    );
    push_when(&mut sounds, h1 & c.opt2_blind != 0 && h0 & c.opt2_blind == 0, StatusSound::BlindSet);
    let mut status_icons: Vec<(i16, bool)> = Vec::new();
    if is_player {
        let mut k: usize = 0;
        while k < icons.len()
            invariant
                k <= icons@.len(),
                status_icons@ == flipped_icons(prev.effect_state, now.effect_state, icons@.subrange(0, k as int)),
            decreases icons@.len() - k,
        {
            let (bit, efst) = icons[k];
            let was = prev.effect_state & bit != 0;
            let is = now.effect_state & bit != 0;
            let ghost before = status_icons@;
            if was != is {
                status_icons.push((efst, is));
            }
            assert(icons@.subrange(0, k + 1).drop_last() =~= icons@.subrange(0, k as int));
            assert(status_icons@ =~= before + when(was != is, (efst, is)));
            k = k + 1;
        }
        assert(icons@.subrange(0, icons@.len() as int) =~= icons@);
    }
    let gained_hide = prev.effect_state & c.option_hide == 0 && now.effect_state & c.option_hide != 0;
    let r = OptionChange {
        sounds,
        freeze_shatter: was_frozen && !now_frozen,
        stop_movement: is_player && (movement_blocked || (gained_hide && hide_blocks_move)),
        refresh_blind_overlay: is_player,
        reload_sprite: prev_look.sprite_job != now_look.sprite_job || prev_look.orcish != now_look.orcish,
        cart: if prev_look.cart != now_look.cart { Some(now_look.cart) } else { None },
        falcon: if prev_look.falcon != now_look.falcon { Some(now_look.falcon) } else { None },
        status_icons,
    };
    assert(r.sounds@ =~= status_sounds(prev, now, c));
    r
}

} // verus!
