//! The party as the client keeps it, and the party-related reactions.
use vstd::prelude::*;
use vstd::string::*;
use crate::app::{App, Pending};
use crate::effects::{ChatKind, ChatLine, Effect, Packet, WindowId, is_chat, is_line};
use crate::seqs::{lemma_select_members, retain_by_mask, select};

verus! {

#[derive(Debug)]
pub struct PartyMember {
    pub aid: u32,
    pub name: String,
    pub map: String,
    pub leader: bool,
    pub online: bool,
    pub hp: Option<u32>,
    pub max_hp: Option<u32>,
    pub x: u16,
    pub y: u16,
    /// Whether `x`, `y` come from a live position update on our map.
    pub has_live_position: bool,
}

#[derive(Debug)]
pub struct Party {
    pub name: String,
    pub members: Vec<PartyMember>,
    pub exp_share: bool,
    pub item_pickup_rule: u8,
    pub item_division_rule: u8,
}

/// A member as the server lists it.
#[derive(Debug)]
pub struct PartyMemberData {
    pub aid: u32,
    pub name: String,
    pub map: String,
    pub leader: bool,
    pub online: bool,
}

/// A party member as the contracts see it.
pub struct MemberView {
    pub aid: u32,
    pub name: Seq<char>,
    pub map: Seq<char>,
    pub leader: bool,
    pub online: bool,
    pub hp: Option<u32>,
    pub max_hp: Option<u32>,
    pub x: u16,
    pub y: u16,
    pub has_live_position: bool,
}

#[verifier::ext_equal]
pub struct PartyView {
    pub name: Seq<char>,
    pub members: Seq<MemberView>,
    pub exp_share: bool,
    pub item_pickup_rule: u8,
    pub item_division_rule: u8,
}

impl View for PartyMember {
    type V = MemberView;

    open spec fn view(&self) -> MemberView {
        MemberView {
            aid: self.aid,
            name: self.name@,
            map: self.map@,
            leader: self.leader,
            online: self.online,
            hp: self.hp,
            max_hp: self.max_hp,
            x: self.x,
            y: self.y,
            has_live_position: self.has_live_position,
        }
    }
}

pub open spec fn member_views(s: Seq<PartyMember>) -> Seq<MemberView> {
    s.map_values(|m: PartyMember| m@)
}

impl View for Party {
    type V = PartyView;

    open spec fn view(&self) -> PartyView {
        PartyView {
            name: self.name@,
            members: member_views(self.members@),
            exp_share: self.exp_share,
            item_pickup_rule: self.item_pickup_rule,
            item_division_rule: self.item_division_rule,
        }
    }
}

/// The members of a party, or none without one.
pub open spec fn members_of(p: Option<Party>) -> Seq<MemberView> {
    match p {
        Some(p) => p@.members,
        None => Seq::empty(),
    }
}

pub open spec fn party_view(p: Option<Party>) -> Option<PartyView> {
    match p {
        Some(p) => Some(p@),
        None => None,
    }
}

/// The members with `aid` changed by `f`, the others as they were.
pub open spec fn update_members(members: Seq<MemberView>, aid: u32, u: MemberUpdate) -> Seq<
    MemberView,
> {
    members.map_values(|m: MemberView| if m.aid == aid { apply_update(m, u) } else { m })
}

/// Index of the first member with `aid`, or -1.
pub open spec fn first_member(members: Seq<MemberView>, aid: u32) -> int
    decreases members.len(),
{
    if members.len() == 0 {
        -1
    } else if members[0].aid == aid {
        0
    } else {
        let r = first_member(members.drop_first(), aid);
        if r < 0 {
            -1
        } else {
            r + 1
        }
    }
}

pub open spec fn spec_invite_result_text(name: Seq<char>, answer: u8) -> Seq<char> {
    if answer == 0 {
        name + " is already in a party."@
    } else if answer == 1 {
        name + " rejected the party invitation."@
    } else if answer == 2 {
        name + " joined the party."@
    } else if answer == 3 {
        "The party is full."@
    } else if answer == 4 {
        name + " is already a party member."@
    } else {
        "Party invitation to "@ + name + " failed."@
    }
}

/// The member list the server sent, each member keeping the health and
/// live position it had in the previous list.
pub open spec fn merged_member(old: Seq<MemberView>, m: PartyMemberData) -> MemberView {
    let i = first_member(old, m.aid);
    MemberView {
        aid: m.aid,
        name: m.name@,
        map: m.map@,
        leader: m.leader,
        online: m.online,
        hp: if i >= 0 {
            old[i].hp
        } else {
            None
        },
        max_hp: if i >= 0 {
            old[i].max_hp
        } else {
            None
        },
        x: if i >= 0 {
            old[i].x
        } else {
            0
        },
        y: if i >= 0 {
            old[i].y
        } else {
            0
        },
        has_live_position: i >= 0 && old[i].has_live_position,
    }
}

fn copy_string(s: &String) -> (r: String)
    ensures
        r@ == s@,
{
    s.clone()
}

fn copy_member(m: &PartyMember) -> (r: PartyMember)
    ensures
        r@ == m@,
{
    PartyMember {
        aid: m.aid,
        name: copy_string(&m.name),
        map: copy_string(&m.map),
        leader: m.leader,
        online: m.online,
        hp: m.hp,
        max_hp: m.max_hp,
        x: m.x,
        y: m.y,
        has_live_position: m.has_live_position,
    }
}

/// Index of the first member with `aid`.
fn find_member(members: &Vec<PartyMember>, aid: u32) -> (r: Option<usize>)
    ensures
        match r {
            Some(k) => k < members@.len() && first_member(member_views(members@), aid) == k,
            None => first_member(member_views(members@), aid) < 0,
        },
{
    let ghost ms = member_views(members@);
    let mut k: usize = 0;
    assert(ms.skip(0) =~= ms);
    while k < members.len()
        invariant
            k <= members@.len(),
            ms == member_views(members@),
            first_member(ms, aid) == if first_member(ms.skip(k as int), aid) < 0 {
                -1
            } else {
                first_member(ms.skip(k as int), aid) + k
            },
        decreases members@.len() - k,
    {
        assert(ms.skip(k as int)[0] == ms[k as int]);
        assert(ms.skip(k as int).drop_first() =~= ms.skip(k + 1));
        if members[k].aid == aid {
            assert(first_member(ms.skip(k as int), aid) == 0);
            return Some(k);
        }
        k = k + 1;
    }
    assert(ms.skip(k as int) =~= Seq::<MemberView>::empty());
    None
}

/// How a member-wide update changes one member.
#[derive(Clone, Copy)]
pub enum MemberUpdate {
    Hp { hp: u32, max_hp: u32 },
    Position { x: u16, y: u16 },
    ClearPosition,
}

pub open spec fn apply_update(m: MemberView, u: MemberUpdate) -> MemberView {
    match u {
        MemberUpdate::Hp { hp, max_hp } => MemberView { hp: Some(hp), max_hp: Some(max_hp), ..m },
        MemberUpdate::Position { x, y } => MemberView { x, y, has_live_position: true, ..m },
        MemberUpdate::ClearPosition => MemberView { has_live_position: false, ..m },
    }
}

impl Party {
    /// A party named `name`, without members, sharing nothing.
    pub fn new(name: String) -> (p: Party)
        ensures
            p@ == (PartyView {
                name: name@,
                members: Seq::empty(),
                exp_share: false,
                item_pickup_rule: 0,
                item_division_rule: 0,
            }),
    {
        let p = Party {
            name,
            members: Vec::new(),
            exp_share: false,
            item_pickup_rule: 0,
            item_division_rule: 0,
        };
        assert(p@ =~= (PartyView {
            name: p.name@,
            members: Seq::empty(),
            exp_share: false,
            item_pickup_rule: 0,
            item_division_rule: 0,
        }));
        p
    }

    /// Applies `u` to every member with `aid`.
    fn update(&mut self, aid: u32, u: MemberUpdate)
        ensures
            final(self)@ == (PartyView {
                members: update_members(old(self)@.members, aid, u),
                ..old(self)@
            }),
    {
        let ghost p0 = self@;
        let mut k: usize = 0;
        while k < self.members.len()
            invariant
                k <= self.members@.len(),
                self.members@.len() == p0.members.len(),
                self@ == (PartyView { members: self@.members, ..p0 }),
                forall|i: int|
                    0 <= i < k ==> #[trigger] self@.members[i] == update_members(p0.members, aid, u)[i],
                forall|i: int|
                    k <= i < self.members@.len() ==> #[trigger] self@.members[i] == p0.members[i],
            decreases self.members@.len() - k,
        {
            let ghost prev = self@.members;
            assert(prev[k as int] == p0.members[k as int]);
            assert(self.members@[k as int]@ == prev[k as int]);
            if self.members[k].aid == aid {
                let mut m = copy_member(&self.members[k]);
                match u {
                    MemberUpdate::Hp { hp, max_hp } => {
                        m.hp = Some(hp);
                        m.max_hp = Some(max_hp);
                    },
                    MemberUpdate::Position { x, y } => {
                        m.x = x;
                        m.y = y;
                        m.has_live_position = true;
                    },
                    MemberUpdate::ClearPosition => {
                        m.has_live_position = false;
                    },
                }
                let ghost mv = m@;
                assert(mv == apply_update(prev[k as int], u));
                self.members.set(k, m);
                assert(self@.members =~= prev.update(k as int, mv));
            } else {
                assert(self@.members[k as int] == p0.members[k as int]);
            }
            assert(update_members(p0.members, aid, u)[k as int] == (if p0.members[k as int].aid == aid {
                apply_update(p0.members[k as int], u)
            } else {
                p0.members[k as int]
            }));
            assert(self@.members[k as int] == update_members(p0.members, aid, u)[k as int]);
            k = k + 1;
        }
        assert(self@.members =~= update_members(p0.members, aid, u));
    }

    /// The member's health, as last reported.
    pub fn set_hp(&mut self, aid: u32, hp: u32, max_hp: u32)
        ensures
            final(self)@ == (PartyView {
                members: update_members(old(self)@.members, aid, MemberUpdate::Hp { hp, max_hp }),
                ..old(self)@
            }),
    {
        self.update(aid, MemberUpdate::Hp { hp, max_hp });
    }

    /// The member's live position on our map.
    pub fn set_position(&mut self, aid: u32, x: u16, y: u16)
        ensures
            final(self)@ == (PartyView {
                members: update_members(old(self)@.members, aid, MemberUpdate::Position { x, y }),
                ..old(self)@
            }),
    {
        self.update(aid, MemberUpdate::Position { x, y });
    }

    /// The member is no longer seen on our map.
    pub fn clear_position_of(&mut self, aid: u32)
        ensures
            final(self)@ == (PartyView {
                members: update_members(old(self)@.members, aid, MemberUpdate::ClearPosition),
                ..old(self)@
            }),
    {
        self.update(aid, MemberUpdate::ClearPosition);
    }

    /// Every member with `aid` leaves.
    pub fn remove_member(&mut self, aid: u32)
        ensures
            final(self)@ == (PartyView {
                members: select(
                    old(self)@.members,
                    Seq::new(old(self)@.members.len(), |i: int| old(self)@.members[i].aid != aid),
                ),
                ..old(self)@
            }),
    {
        let ghost p0 = self@;
        let mut mask: Vec<bool> = Vec::new();
        let mut k: usize = 0;
        while k < self.members.len()
            invariant
                k <= self.members@.len(),
                self@ == p0,
                mask@ =~= Seq::new(k as nat, |i: int| p0.members[i].aid != aid),
            decreases self.members@.len() - k,
        {
            assert(p0.members[k as int] == self.members@[k as int]@);
            mask.push(self.members[k].aid != aid);
            k = k + 1;
        }
        let ghost before = self.members@;
        retain_by_mask(&mut self.members, &mask);
        proof {
            lemma_select_views(before, mask@);
        }
        assert(self@ =~= (PartyView {
            members: select(p0.members, Seq::new(p0.members.len(), |i: int| p0.members[i].aid != aid)),
            ..p0
        }));
    }

    /// A member joined or changed: it replaces the first member with its
    /// account id, or is appended.
    pub fn upsert_member(&mut self, member: PartyMember)
        ensures
            final(self)@ == (PartyView {
                members: if first_member(old(self)@.members, member.aid) >= 0 {
                    old(self)@.members.update(first_member(old(self)@.members, member.aid), member@)
                } else {
                    old(self)@.members.push(member@)
                },
                ..old(self)@
            }),
    {
        let ghost p0 = self@;
        let ghost mv = member@;
        match find_member(&self.members, member.aid) {
            Some(k) => {
                self.members.set(k, member);
                assert(self@ =~= (PartyView { members: p0.members.update(k as int, mv), ..p0 }));
            },
            None => {
                self.members.push(member);
                assert(self@ =~= (PartyView { members: p0.members.push(mv), ..p0 }));
            },
        }
    }
}

/// Keeping members by a mask commutes with viewing them.
pub proof fn lemma_select_views(s: Seq<PartyMember>, mask: Seq<bool>)
    ensures
        member_views(select(s, mask)) =~= select(member_views(s), mask),
    decreases s.len(),
{
    if s.len() > 0 {
        lemma_select_views(s.drop_last(), mask);
        assert(member_views(s.drop_last()) =~= member_views(s).drop_last());
        assert(member_views(select(s.drop_last(), mask).push(s.last())) =~= member_views(
            select(s.drop_last(), mask),
        ).push(s.last()@));
    }
}

impl App {
    /// Our account id, or 0 before login.
    fn own_aid(&self) -> (a: u32)
        ensures
            a == match self.account_id {
                Some(a) => a,
                None => 0u32,
            },
    {
        match self.account_id {
            Some(a) => a,
            None => 0,
        }
    }

    /// A member left the party. When it is us, the party is gone and its
    /// window closes; otherwise the member leaves the list.
    pub fn handle_party_member_removed(&mut self, aid: u32, name: String, result: u8) -> (out: Vec<
        Effect,
    >)
        ensures
            party_member_removed_step(*old(self), *final(self), aid, name, result, out@),
    {
        if aid == self.own_aid() {
            self.party = None;
            return vec![Effect::CloseWindow(WindowId::PartyFriends)];
        }
        if let Some(mut p) = self.party.take() {
            p.remove_member(aid);
            self.party = Some(p);
        }
        Vec::new()
    }

    /// A member's health, when we are in a party.
    pub fn handle_party_member_hp(&mut self, aid: u32, hp: u32, max_hp: u32)
        ensures
            party_member_hp_step(*old(self), *final(self), aid, hp, max_hp),
    {
        if let Some(mut p) = self.party.take() {
            p.set_hp(aid, hp, max_hp);
            self.party = Some(p);
        }
    }

    /// A member's position: a negative coordinate means the member is no
    /// longer on our map.
    pub fn handle_party_member_position(&mut self, aid: u32, x: i16, y: i16)
        ensures
            party_member_position_step(*old(self), *final(self), aid, x, y),
    {
        if let Some(mut p) = self.party.take() {
            if x < 0 || y < 0 {
                p.clear_position_of(aid);
            } else {
                p.set_position(aid, x as u16, y as u16);
            }
            self.party = Some(p);
        }
    }

    /// Experience sharing switched on (non-zero) or off.
    pub fn handle_party_exp_option_changed(&mut self, exp_option: u32)
        ensures
            party_exp_option_changed_step(*old(self), *final(self), exp_option),
    {
        if let Some(mut p) = self.party.take() {
            p.exp_share = exp_option != 0;
            self.party = Some(p);
        }
    }

    /// The party's sharing rules.
    pub fn handle_party_config_changed(
        &mut self,
        exp_option: u32,
        item_pickup_rule: u8,
        item_division_rule: u8,
    )
        ensures
            party_config_changed_step(*old(self), *final(self), exp_option, item_pickup_rule, item_division_rule),
    {
        if let Some(mut p) = self.party.take() {
            p.exp_share = exp_option != 0;
            p.item_pickup_rule = item_pickup_rule;
            p.item_division_rule = item_division_rule;
            self.party = Some(p);
        }
    }

    /// The answer to our party invitation.
    pub fn handle_party_invite_result(name: String, answer: u8) -> (line: ChatLine)
        ensures
            party_invite_result_step(name, answer, line),
    {
        let text = match answer {
            0 => {
                let mut t = name;
                t.append(" is already in a party.");
                t
            },
            1 => {
                let mut t = name;
                t.append(" rejected the party invitation.");
                t
            },
            2 => {
                let mut t = name;
                t.append(" joined the party.");
                t
            },
            3 => String::from_str("The party is full."),
            4 => {
                let mut t = name;
                t.append(" is already a party member.");
                t
            },
            _ => {
                let mut t = String::from_str("Party invitation to ");
                t.append(name.as_str());
                t.append(" failed.");
                t
            },
        };
        ChatLine { kind: ChatKind::System, text }
    }

    /// A party-channel line, prefixed with the sender: the party member with
    /// that account id, else the entity's name (`entity_name`), else none.
    pub fn handle_party_chat_message(&self, aid: u32, message: String, entity_name: Option<String>) -> (line:
        ChatLine)
        ensures
            party_chat_message_step(*self, aid, message, entity_name, line),
    {
        let mut sender: Option<String> = None;
        if let Some(p) = &self.party {
            if let Some(k) = find_member(&p.members, aid) {
                sender = Some(copy_string(&p.members[k].name));
            }
        }
        if sender.is_none() {
            sender = entity_name;
        }
        let text = match sender {
            Some(n) => {
                let mut t = n;
                t.append(" : ");
                t.append(message.as_str());
                t
            },
            None => message,
        };
        ChatLine { kind: ChatKind::Party, text }
    }

    /// The account ids of the party's members, in list order; none without a
    /// party.
    pub fn party_member_ids(&self) -> (ids: Vec<u32>)
        ensures
            ids@ == match self.party {
                Some(p) => p@.members.map_values(|m: MemberView| m.aid),
                None => Seq::empty(),
            },
    {
        let mut ids: Vec<u32> = Vec::new();
        if let Some(p) = &self.party {
            let mut k: usize = 0;
            while k < p.members.len()
                invariant
                    k <= p.members@.len(),
                    ids@ =~= p@.members.subrange(0, k as int).map_values(|m: MemberView| m.aid),
                decreases p.members@.len() - k,
            {
                ids.push(p.members[k].aid);
                k = k + 1;
            }
            assert(p@.members.subrange(0, p@.members.len() as int) =~= p@.members);
        }
        ids
    }

    /// A member joined or changed; a party appears if we had none.
    /// `on_our_map` says whether the member's map is ours, which makes its
    /// position a live one.
    pub fn handle_party_member_added(
        &mut self,
        aid: u32,
        name: String,
        map: String,
        leader: bool,
        online: bool,
        x: u16,
        y: u16,
        on_our_map: bool,
    )
        ensures
            party_member_added_step(*old(self), *final(self), aid, name, map, leader, online, x, y, on_our_map),
    {
        let mut p = match self.party.take() {
            Some(p) => p,
            None => Party::new(String::new()),
        };
        p.upsert_member(
            PartyMember {
                aid,
                name,
                map,
                leader,
                online,
                hp: None,
                max_hp: None,
                x,
                y,
                has_live_position: on_our_map,
            },
        );
        self.party = Some(p);
    }

    /// The full member list: a new party of that name keeping the previous
    /// party's sharing rules, each member keeping the health and live
    /// position the previous list had for it.
    pub fn handle_party_member_list(&mut self, name: String, members: Vec<PartyMemberData>)
        ensures
            party_member_list_step(*old(self), *final(self), name, members),
    {
        let old = self.party.take();
        let ghost old_members = members_of(old);
        let mut party = Party::new(name);
        if let Some(o) = &old {
            party.exp_share = o.exp_share;
            party.item_pickup_rule = o.item_pickup_rule;
            party.item_division_rule = o.item_division_rule;
        }
        let ghost p0 = party@;
        let mut k: usize = 0;
        while k < members.len()
            invariant
                k <= members@.len(),
                old_members == members_of(old),
                party@ == (PartyView { members: party@.members, ..p0 }),
                party@.members =~= members@.subrange(0, k as int).map_values(
                    |m: PartyMemberData| merged_member(old_members, m),
                ),
            decreases members@.len() - k,
        {
            let m = &members[k];
            let found: Option<usize> = match &old {
                Some(o) => find_member(&o.members, m.aid),
                None => None,
            };
            proof {
                if old is None {
                    assert(first_member(old_members, m.aid) < 0);
                }
            }
            let (hp, max_hp, x, y, live) = match (&old, found) {
                (Some(o), Some(i)) => (
                    o.members[i].hp,
                    o.members[i].max_hp,
                    o.members[i].x,
                    o.members[i].y,
                    o.members[i].has_live_position,
                ),
                _ => (None, None, 0u16, 0u16, false),
            };
            let nm = PartyMember {
                aid: m.aid,
                name: copy_string(&m.name),
                map: copy_string(&m.map),
                leader: m.leader,
                online: m.online,
                hp,
                max_hp,
                x,
                y,
                has_live_position: live,
            };
            assert(nm@ == merged_member(old_members, members@[k as int]));
            let ghost prev = party@.members;
            party.members.push(nm);
            assert(party@.members =~= prev.push(merged_member(old_members, members@[k as int])));
            assert(members@.subrange(0, k + 1).map_values(
                |m: PartyMemberData| merged_member(old_members, m),
            ) =~= members@.subrange(0, k as int).map_values(
                |m: PartyMemberData| merged_member(old_members, m),
            ).push(merged_member(old_members, members@[k as int])));
            k = k + 1;
        }
        assert(members@.subrange(0, members@.len() as int) =~= members@);
        self.party = Some(party);
    }

    /// The answer to our party creation. On success the party window opens
    /// and an invite deferred until the party existed goes out; otherwise the
    /// deferred invite is dropped.
    pub fn handle_party_create_result(&mut self, result: u8) -> (out: Vec<Effect>)
        ensures
            party_create_result_step(*old(self), *final(self), result, out@),
    {
        let deferred = self.pending.invite_aid.take();
        if result == 0 {
            let mut out = vec![Effect::OpenWindow(WindowId::PartyFriends)];
            if let Some(aid) = deferred {
                out.push(Effect::Send(Packet::ReqJoinParty(aid)));
            }
            out
        } else {
            vec![Effect::Chat(ChatLine::from_str(ChatKind::System, "Failed to create party."))]
        }
    }
}

/// A member who leaves is gone from the list, and every other member stays.
pub proof fn lemma_removed_member_gone(members: Seq<MemberView>, aid: u32)
    ensures
        ({
            let kept = select(members, Seq::new(members.len(), |i: int| members[i].aid != aid));
            &&& forall|i: int| 0 <= i < kept.len() ==> #[trigger] kept[i].aid != aid
            &&& forall|m: MemberView|
                m.aid != aid ==> (#[trigger] kept.contains(m) <==> members.contains(m))
        }),
{
    let mask = Seq::new(members.len(), |i: int| members[i].aid != aid);
    let kept = select(members, mask);
    lemma_select_members(members, mask);
    assert forall|i: int| 0 <= i < kept.len() implies #[trigger] kept[i].aid != aid by {
        assert(kept.contains(kept[i]));
    }
    assert forall|m: MemberView| m.aid != aid implies (#[trigger] kept.contains(m)
        <==> members.contains(m)) by {
        if members.contains(m) {
            let j = choose|j: int| 0 <= j < members.len() && members[j] == m;
            assert(mask[j]);
        }
    }
}

/// Health and position reports touch only the reported member: the roster
/// keeps its length, order, account ids and names, and every other member
/// is left as it was.
pub proof fn lemma_updates_keep_roster(members: Seq<MemberView>, aid: u32, u: MemberUpdate)
    ensures
        update_members(members, aid, u).len() == members.len(),
        forall|i: int|
            0 <= i < members.len() ==> (#[trigger] update_members(members, aid, u)[i]).aid
                == members[i].aid && update_members(members, aid, u)[i].name == members[i].name,
        forall|i: int|
            0 <= i < members.len() && members[i].aid != aid ==> #[trigger] update_members(
                members,
                aid,
                u,
            )[i] == members[i],
{
}

/// What `handle_party_member_removed` leaves and hands on.
pub open spec fn party_member_removed_step(a: App, b: App, aid: u32, name: String, result: u8, out: Seq<Effect>) -> bool {
    &&& b == (App { party: b.party, ..a })
    &&& aid == match a.account_id {
                    Some(a) => a,
                    None => 0u32,
                } ==> b.party is None && out =~= seq![Effect::CloseWindow(WindowId::PartyFriends)]
    &&& aid != match a.account_id {
                    Some(a) => a,
                    None => 0u32,
                } ==> out.len() == 0 && party_view(b.party) == match a.party {
                    Some(p) => Some(
                        (PartyView {
                            members: select(
                                p@.members,
                                Seq::new(p@.members.len(), |i: int| p@.members[i].aid != aid),
                            ),
                            ..p@
                        }),
                    ),
                    None => None,
                }
}

/// What `handle_party_member_hp` leaves and hands on.
pub open spec fn party_member_hp_step(a: App, b: App, aid: u32, hp: u32, max_hp: u32) -> bool {
    &&& b == (App { party: b.party, ..a })
    &&& party_view(b.party) == match a.party {
                    Some(p) => Some(
                        (PartyView {
                            members: update_members(p@.members, aid, MemberUpdate::Hp { hp, max_hp }),
                            ..p@
                        }),
                    ),
                    None => None,
                }
}

/// What `handle_party_member_position` leaves and hands on.
pub open spec fn party_member_position_step(a: App, b: App, aid: u32, x: i16, y: i16) -> bool {
    &&& b == (App { party: b.party, ..a })
    &&& party_view(b.party) == match a.party {
                    Some(p) => Some(
                        (PartyView {
                            members: update_members(
                                p@.members,
                                aid,
                                if x < 0 || y < 0 {
                                    MemberUpdate::ClearPosition
                                } else {
                                    MemberUpdate::Position { x: x as u16, y: y as u16 }
                                },
                            ),
                            ..p@
                        }),
                    ),
                    None => None,
                }
}

/// What `handle_party_exp_option_changed` leaves and hands on.
pub open spec fn party_exp_option_changed_step(a: App, b: App, exp_option: u32) -> bool {
    &&& b == (App { party: b.party, ..a })
    &&& party_view(b.party) == match a.party {
                    Some(p) => Some((PartyView { exp_share: exp_option != 0, ..p@ })),
                    None => None,
                }
}

/// What `handle_party_config_changed` leaves and hands on.
pub open spec fn party_config_changed_step(a: App, b: App, exp_option: u32, item_pickup_rule: u8, item_division_rule: u8) -> bool {
    &&& b == (App { party: b.party, ..a })
    &&& party_view(b.party) == match a.party {
                    Some(p) => Some(
                        (PartyView {
                            exp_share: exp_option != 0,
                            item_pickup_rule,
                            item_division_rule,
                            ..p@
                        }),
                    ),
                    None => None,
                }
}

/// What `handle_party_member_added` leaves and hands on.
pub open spec fn party_member_added_step(a: App, b: App, aid: u32, name: String, map: String, leader: bool, online: bool, x: u16, y: u16, on_our_map: bool) -> bool {
    &&& b == (App { party: b.party, ..a })
    &&& ({
                    let p0 = match a.party {
                        Some(p) => p@,
                        None => PartyView {
                            name: Seq::empty(),
                            members: Seq::empty(),
                            exp_share: false,
                            item_pickup_rule: 0,
                            item_division_rule: 0,
                        },
                    };
                    let m = MemberView {
                        aid,
                        name: name@,
                        map: map@,
                        leader,
                        online,
                        hp: None,
                        max_hp: None,
                        x,
                        y,
                        has_live_position: on_our_map,
                    };
                    party_view(b.party) == Some(
                        (PartyView {
                            members: if first_member(p0.members, aid) >= 0 {
                                p0.members.update(first_member(p0.members, aid), m)
                            } else {
                                p0.members.push(m)
                            },
                            ..p0
                        }),
                    )
                })
}

/// What `handle_party_member_list` leaves and hands on.
pub open spec fn party_member_list_step(a: App, b: App, name: String, members: Vec<PartyMemberData>) -> bool {
    &&& b == (App { party: b.party, ..a })
    &&& ({
                    let old_members = match a.party {
                        Some(p) => p@.members,
                        None => Seq::empty(),
                    };
                    party_view(b.party) == Some(
                        (PartyView {
                            name: name@,
                            members: members@.map_values(|m: PartyMemberData| merged_member(old_members, m)),
                            exp_share: match a.party {
                                Some(p) => p.exp_share,
                                None => false,
                            },
                            item_pickup_rule: match a.party {
                                Some(p) => p.item_pickup_rule,
                                None => 0u8,
                            },
                            item_division_rule: match a.party {
                                Some(p) => p.item_division_rule,
                                None => 0u8,
                            },
                        }),
                    )
                })
}

/// What `handle_party_create_result` leaves and hands on.
pub open spec fn party_create_result_step(a: App, b: App, result: u8, out: Seq<Effect>) -> bool {
    &&& b == (App {
                    pending: Pending { invite_aid: None, ..a.pending },
                    ..a
                })
    &&& result == 0 ==> out.len() >= 1 && out[0] == Effect::OpenWindow(WindowId::PartyFriends)
                    && match a.pending.invite_aid {
                    Some(aid) => out.len() == 2 && out[1] == Effect::Send(Packet::ReqJoinParty(aid)),
                    None => out.len() == 1,
                }
    &&& result != 0 ==> out.len() == 1 && is_chat(
                    out[0],
                    ChatKind::System,
                    "Failed to create party."@,
                )
}

/// What `handle_party_invite_result` gives.
pub open spec fn party_invite_result_step(name: String, answer: u8, line: ChatLine) -> bool {
    &&& (is_line(line, ChatKind::System, spec_invite_result_text(name@, answer)))
}

/// What `handle_party_chat_message` gives.
pub open spec fn party_chat_message_step(a: App, aid: u32, message: String, entity_name: Option<String>, line: ChatLine) -> bool {
    &&& (line.kind == ChatKind::Party)
    &&& (({
                    let member = match a.party {
                        Some(p) => if first_member(p@.members, aid) >= 0 {
                            Some(p@.members[first_member(p@.members, aid)].name)
                        } else {
                            None
                        },
                        None => None,
                    };
                    let sender = match member {
                        Some(n) => Some(n),
                        None => match entity_name {
                            Some(n) => Some(n@),
                            None => None,
                        },
                    };
                    line.text@ == match sender {
                        Some(n) => n + " : "@ + message@,
                        None => message@,
                    }
                }))
}

} // verus!
