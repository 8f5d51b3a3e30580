//! The guild as the client keeps it: members, positions, relations, notice,
//! and the chat lines guild results are reported with.
use vstd::prelude::*;
use vstd::string::*;
use crate::app::{App, EntitySnapshot};
use crate::effects::{ChatKind, ChatLine, Effect, Packet, WindowId, is_chat, is_line};
use crate::seqs::{lemma_select_members, retain_by_mask, select};
use crate::chat::ord;

verus! {

#[derive(Debug)]
pub struct GuildMember {
    pub aid: u32,
    pub gid: u32,
    pub name: String,
    pub position_id: i32,
    pub position_name: String,
    pub online: bool,
    /// How the member looks in the guild window.
    pub sex: u8,
    pub head: u16,
    pub head_palette: u16,
    /// The member's cell on our map, while `has_live_position`.
    pub x: u16,
    pub y: u16,
    /// Whether `x`, `y` come from a live position update on our map.
    pub has_live_position: bool,
}

#[derive(Debug)]
pub struct GuildPosition {
    pub id: i32,
    pub name: String,
}

#[derive(Debug)]
pub struct GuildRelation {
    pub gdid: i32,
    pub relation: i32,
    pub name: String,
}

#[derive(Debug)]
pub struct GuildBanEntry {
    pub char_name: String,
    pub account: String,
    pub reason: String,
}

#[derive(Debug)]
pub struct Guild {
    pub gdid: u32,
    pub name: String,
    pub emblem_version: i32,
    pub my_right: i32,
    pub am_i_master: bool,
    pub master_name: String,
    pub members: Vec<GuildMember>,
    pub positions: Vec<GuildPosition>,
    pub relations: Vec<GuildRelation>,
    pub ban_list: Vec<GuildBanEntry>,
    pub notice_subject: String,
    pub notice_body: String,
    /// What the guild information says of the guild.
    pub stats: GuildStats,
    pub manage_land: String,
    /// Whether the emblem image has been received.
    pub has_emblem_image: bool,
}

/// The guild information the server sends about our guild.
#[derive(Debug)]
pub struct GuildInfo {
    pub gdid: u32,
    pub name: String,
    pub stats: GuildStats,
    pub master_name: String,
    pub manage_land: String,
    pub emblem_version: i32,
}

/// The guild's standing, as the guild information reports it.
#[derive(Clone, Copy, Debug, PartialEq, Eq, Structural)]
pub struct GuildStats {
    pub level: i32,
    pub exp: i32,
    pub max_exp: i32,
    pub member_num: i32,
    pub max_member_num: i32,
    pub avg_level: i32,
    pub point: i32,
    pub honor: i32,
    pub virtue: i32,
}

/// A guild member as the contracts see it.
pub struct MemberView {
    pub aid: u32,
    pub gid: u32,
    pub name: Seq<char>,
    pub position_id: i32,
    pub position_name: Seq<char>,
    pub online: bool,
    pub sex: u8,
    pub head: u16,
    pub head_palette: u16,
    pub x: u16,
    pub y: u16,
    pub has_live_position: bool,
}

/// A guild position as the contracts see it.
pub struct PositionView {
    pub id: i32,
    pub name: Seq<char>,
}

/// An alliance or antagonism as the contracts see it.
pub struct RelationView {
    pub gdid: i32,
    pub relation: i32,
    pub name: Seq<char>,
}

/// A ban-list entry as the contracts see it.
pub struct BanView {
    pub char_name: Seq<char>,
    pub account: Seq<char>,
    pub reason: Seq<char>,
}

#[verifier::ext_equal]
pub struct GuildView {
    pub gdid: u32,
    pub name: Seq<char>,
    pub emblem_version: i32,
    pub my_right: i32,
    pub am_i_master: bool,
    pub master_name: Seq<char>,
    pub members: Seq<MemberView>,
    pub positions: Seq<PositionView>,
    pub relations: Seq<RelationView>,
    pub ban_list: Seq<BanView>,
    pub notice_subject: Seq<char>,
    pub notice_body: Seq<char>,
    pub stats: GuildStats,
    pub manage_land: Seq<char>,
    pub has_emblem_image: bool,
}

impl View for GuildMember {
    type V = MemberView;

    open spec fn view(&self) -> MemberView {
        MemberView {
            aid: self.aid,
            gid: self.gid,
            name: self.name@,
            position_id: self.position_id,
            position_name: self.position_name@,
            online: self.online,
            sex: self.sex,
            head: self.head,
            head_palette: self.head_palette,
            x: self.x,
            y: self.y,
            has_live_position: self.has_live_position,
        }
    }
}

impl View for GuildPosition {
    type V = PositionView;

    open spec fn view(&self) -> PositionView {
        PositionView { id: self.id, name: self.name@ }
    }
}

impl View for GuildRelation {
    type V = RelationView;

    open spec fn view(&self) -> RelationView {
        RelationView { gdid: self.gdid, relation: self.relation, name: self.name@ }
    }
}

impl View for GuildBanEntry {
    type V = BanView;

    open spec fn view(&self) -> BanView {
        BanView { char_name: self.char_name@, account: self.account@, reason: self.reason@ }
    }
}

pub open spec fn member_views(s: Seq<GuildMember>) -> Seq<MemberView> {
    s.map_values(|m: GuildMember| m@)
}

pub open spec fn position_views(s: Seq<GuildPosition>) -> Seq<PositionView> {
    s.map_values(|p: GuildPosition| p@)
}

pub open spec fn relation_views(s: Seq<GuildRelation>) -> Seq<RelationView> {
    s.map_values(|r: GuildRelation| r@)
}

pub open spec fn ban_views(s: Seq<GuildBanEntry>) -> Seq<BanView> {
    s.map_values(|b: GuildBanEntry| b@)
}

impl View for Guild {
    type V = GuildView;

    open spec fn view(&self) -> GuildView {
        GuildView {
            gdid: self.gdid,
            name: self.name@,
            emblem_version: self.emblem_version,
            my_right: self.my_right,
            am_i_master: self.am_i_master,
            master_name: self.master_name@,
            members: member_views(self.members@),
            positions: position_views(self.positions@),
            relations: relation_views(self.relations@),
            ban_list: ban_views(self.ban_list@),
            notice_subject: self.notice_subject@,
            notice_body: self.notice_body@,
            stats: self.stats,
            manage_land: self.manage_land@,
            has_emblem_image: self.has_emblem_image,
        }
    }
}

/// A guild as first created on the client: nothing known yet.
pub open spec fn empty_guild() -> GuildView {
    GuildView {
        gdid: 0,
        name: Seq::empty(),
        emblem_version: 0,
        my_right: 0,
        am_i_master: false,
        master_name: Seq::empty(),
        members: Seq::empty(),
        positions: Seq::empty(),
        relations: Seq::empty(),
        ban_list: Seq::empty(),
        notice_subject: Seq::empty(),
        notice_body: Seq::empty(),
        stats: GuildStats::zero(),
        manage_land: Seq::empty(),
        has_emblem_image: false,
    }
}

pub open spec fn guild_view(g: Option<Guild>) -> Option<GuildView> {
    match g {
        Some(g) => Some(g@),
        None => None,
    }
}

/// The guild a guild packet lands on: the current one, or a fresh one.
pub open spec fn guild_or_empty(g: Option<Guild>) -> GuildView {
    match g {
        Some(g) => g@,
        None => empty_guild(),
    }
}

/// The name of the first position with id `id`; empty when there is none.
pub open spec fn position_name_for(positions: Seq<PositionView>, id: i32) -> Seq<char>
    decreases positions.len(),
{
    if positions.len() == 0 {
        Seq::empty()
    } else if positions[0].id == id {
        positions[0].name
    } else {
        position_name_for(positions.drop_first(), id)
    }
}

/// Every member's position name set from the position table.
pub open spec fn with_position_names(members: Seq<MemberView>, positions: Seq<PositionView>) -> Seq<
    MemberView,
> {
    members.map_values(
        |m: MemberView|
            MemberView { position_name: position_name_for(positions, m.position_id), ..m },
    )
}

/// Index of the first position with id `id`, or -1.
pub open spec fn first_position(positions: Seq<PositionView>, id: i32) -> int
    decreases positions.len(),
{
    if positions.len() == 0 {
        -1
    } else if positions[0].id == id {
        0
    } else {
        let r = first_position(positions.drop_first(), id);
        if r < 0 {
            -1
        } else {
            r + 1
        }
    }
}

/// The position table with position `id` named `name`: the first position
/// with that id is renamed, or a new one is added.
pub open spec fn named_position(positions: Seq<PositionView>, id: i32, name: Seq<char>) -> Seq<
    PositionView,
> {
    let i = first_position(positions, id);
    if i >= 0 {
        positions.update(i, PositionView { id, name })
    } else {
        positions.push(PositionView { id, name })
    }
}

/// The position table with each of `names` applied in order.
pub open spec fn named_positions(positions: Seq<PositionView>, names: Seq<(i32, Seq<char>)>) -> Seq<
    PositionView,
>
    decreases names.len(),
{
    if names.len() == 0 {
        positions
    } else {
        let rest = named_positions(positions, names.drop_last());
        named_position(rest, names.last().0, names.last().1)
    }
}

pub open spec fn name_views(names: Seq<(i32, String)>) -> Seq<(i32, Seq<char>)> {
    names.map_values(|p: (i32, String)| (p.0, p.1@))
}

proof fn lemma_first_position(positions: Seq<PositionView>, id: i32, k: int)
    requires
        0 <= k <= positions.len(),
        forall|j: int| 0 <= j < k ==> positions[j].id != id,
    ensures
        k < positions.len() && positions[k].id == id ==> first_position(positions, id) == k,
        k == positions.len() ==> first_position(positions, id) == -1,
    decreases k,
{
    if k > 0 {
        lemma_first_position(positions.drop_first(), id, k - 1);
    }
}

/// Index of the first member with both ids, or -1.
pub open spec fn first_member_with(members: Seq<MemberView>, aid: u32, gid: u32) -> int
    decreases members.len(),
{
    if members.len() == 0 {
        -1
    } else if members[0].gid == gid && members[0].aid == aid {
        0
    } else {
        let r = first_member_with(members.drop_first(), aid, gid);
        if r < 0 {
            -1
        } else {
            r + 1
        }
    }
}

/// The first member with both ids gets position `pos`.
pub open spec fn move_member(members: Seq<MemberView>, entry: (u32, u32, i32)) -> Seq<MemberView> {
    let i = first_member_with(members, entry.0, entry.1);
    if i < 0 {
        members
    } else {
        members.update(i, MemberView { position_id: entry.2, ..members[i] })
    }
}

/// The position changes applied in order.
pub open spec fn move_members(members: Seq<MemberView>, entries: Seq<(u32, u32, i32)>) -> Seq<
    MemberView,
>
    decreases entries.len(),
{
    if entries.len() == 0 {
        members
    } else {
        move_member(move_members(members, entries.drop_last()), entries.last())
    }
}

/// The members whose name is not `name`.
pub open spec fn members_not_named(members: Seq<MemberView>, name: Seq<char>) -> Seq<MemberView> {
    select(members, Seq::new(members.len(), |i: int| members[i].name != name))
}

/// The relations other than (`gdid`, `relation`).
pub open spec fn relations_without(
    relations: Seq<RelationView>,
    gdid: u32,
    relation: i32,
) -> Seq<RelationView> {
    select(
        relations,
        Seq::new(
            relations.len(),
            |i: int| !(relations[i].gdid as u32 == gdid && relations[i].relation == relation),
        ),
    )
}

pub open spec fn has_relation(relations: Seq<RelationView>, gdid: u32, relation: i32) -> bool {
    exists|i: int|
        0 <= i < relations.len() && relations[i].gdid as u32 == gdid && relations[i].relation
            == relation
}

/// The relations with (`gdid`, `relation`) recorded under `name`, unless it
/// is recorded already.
pub open spec fn with_relation(
    relations: Seq<RelationView>,
    gdid: u32,
    relation: i32,
    name: Seq<char>,
) -> Seq<RelationView> {
    if has_relation(relations, gdid, relation) {
        relations
    } else {
        relations.push(RelationView { gdid: gdid as i32, relation, name })
    }
}

pub open spec fn spec_guild_create_text(result: u8) -> Seq<char> {
    if result == 0 {
        "Guild created."@
    } else if result == 1 {
        "You are already in a guild."@
    } else if result == 2 {
        "That guild name is already taken."@
    } else if result == 3 {
        "You need an Emperium to create a guild."@
    } else {
        "Failed to create guild."@
    }
}

pub open spec fn spec_guild_join_text(answer: u8) -> Option<Seq<char>> {
    if answer == 0 {
        Some("That character is already in a guild."@)
    } else if answer == 1 {
        Some("The guild invitation was rejected."@)
    } else if answer == 2 {
        None
    } else {
        Some("The guild is full."@)
    }
}

pub open spec fn spec_guild_hostile_text(result: u8) -> Seq<char> {
    if result == 0 {
        "The guild has been set as an antagonist."@
    } else if result == 1 {
        "Your guild has too many antagonists."@
    } else if result == 2 {
        "This guild is already an antagonist."@
    } else {
        "Antagonist declarations are currently disabled."@
    }
}

pub open spec fn spec_guild_ally_text(answer: u8) -> Seq<char> {
    if answer == 0 {
        "Your guild is already allied with this guild."@
    } else if answer == 1 {
        "The alliance offer was rejected."@
    } else if answer == 2 {
        "The alliance offer was accepted."@
    } else if answer == 3 {
        "The other guild has too many alliances."@
    } else if answer == 4 {
        "Your guild has too many alliances."@
    } else {
        "Alliance requests are currently disabled."@
    }
}

pub open spec fn departure_text(name: Seq<char>, reason: Seq<char>, what: Seq<char>) -> Seq<char> {
    if reason.len() == 0 {
        name + what + "."@
    } else {
        name + what + ". ("@ + reason + ")"@
    }
}

impl GuildStats {
    /// Nothing known yet.
    pub open spec fn zero() -> GuildStats {
        GuildStats {
            level: 0,
            exp: 0,
            max_exp: 0,
            member_num: 0,
            max_member_num: 0,
            avg_level: 0,
            point: 0,
            honor: 0,
            virtue: 0,
        }
    }
}

impl Guild {
    /// A guild with nothing known yet.
    pub fn new() -> (g: Guild)
        ensures
            g@ == empty_guild(),
    {
        let g = Guild {
            gdid: 0,
            name: String::new(),
            emblem_version: 0,
            my_right: 0,
            am_i_master: false,
            master_name: String::new(),
            members: Vec::new(),
            positions: Vec::new(),
            relations: Vec::new(),
            ban_list: Vec::new(),
            notice_subject: String::new(),
            notice_body: String::new(),
            stats: GuildStats { level: 0, exp: 0, max_exp: 0, member_num: 0, max_member_num: 0, avg_level: 0, point: 0, honor: 0, virtue: 0 },
            manage_land: String::new(),
            has_emblem_image: false,
        };
        assert(g@ =~= empty_guild());
        g
    }
}

fn copy_string(s: &String) -> (r: String)
    ensures
        r@ == s@,
{
    s.clone()
}

/// A copy of `m`.
fn copy_member(m: &GuildMember) -> (c: GuildMember)
    ensures
        c@ == m@,
{
    GuildMember {
        aid: m.aid,
        gid: m.gid,
        name: copy_string(&m.name),
        position_id: m.position_id,
        position_name: copy_string(&m.position_name),
        online: m.online,
        sex: m.sex,
        head: m.head,
        head_palette: m.head_palette,
        x: m.x,
        y: m.y,
        has_live_position: m.has_live_position,
    }
}

/// The name of the first position with id `id`.
fn lookup_position_name(positions: &Vec<GuildPosition>, id: i32) -> (n: String)
    ensures
        n@ == position_name_for(position_views(positions@), id),
{
    let mut k: usize = 0;
    assert(position_views(positions@).skip(0) =~= position_views(positions@));
    while k < positions.len()
        invariant
            k <= positions@.len(),
            position_name_for(position_views(positions@), id) == position_name_for(
                position_views(positions@).skip(k as int),
                id,
            ),
        decreases positions@.len() - k,
    {
        let ghost rest = position_views(positions@).skip(k as int);
        assert(rest[0] == positions@[k as int]@);
        assert(rest.drop_first() =~= position_views(positions@).skip(k + 1));
        if positions[k].id == id {
            return copy_string(&positions[k].name);
        }
        k = k + 1;
    }
    assert(position_views(positions@).skip(k as int) =~= Seq::<PositionView>::empty());
    String::new()
}

/// Names position `id` `name` in the table: the first position with that id
/// is renamed, or a new one is added.
fn name_position(positions: &mut Vec<GuildPosition>, id: i32, name: String)
    ensures
        position_views(final(positions)@) == named_position(position_views(old(positions)@), id, name@),
{
    let ghost before = position_views(positions@);
    let mut k: usize = 0;
    while k < positions.len() && positions[k].id != id
        invariant
            k <= positions@.len(),
            position_views(positions@) == before,
            forall|j: int| 0 <= j < k ==> before[j].id != id,
        decreases positions@.len() - k,
    {
        assert(before[k as int] == positions@[k as int]@);
        k = k + 1;
    }
    proof {
        if k < positions@.len() {
            assert(before[k as int] == positions@[k as int]@);
        }
        lemma_first_position(before, id, k as int);
    }
    if k < positions.len() {
        positions.set(k, GuildPosition { id, name });
        assert(position_views(positions@) =~= before.update(k as int, PositionView { id, name: name@ }));
    } else {
        positions.push(GuildPosition { id, name });
        assert(position_views(positions@) =~= before.push(PositionView { id, name: name@ }));
    }
}

/// Sets every member's position name from the position table.
pub fn apply_position_names(guild: &mut Guild)
    ensures
        final(guild)@ == (GuildView {
            members: with_position_names(old(guild)@.members, old(guild)@.positions),
            ..old(guild)@
        }),
{
    let ghost orig = guild@;
    let mut k: usize = 0;
    while k < guild.members.len()
        invariant
            k <= guild.members@.len(),
            guild.members@.len() == orig.members.len(),
            guild@ == (GuildView { members: guild@.members, ..orig }),
            forall|i: int|
                0 <= i < k ==> #[trigger] guild@.members[i] == with_position_names(
                    orig.members,
                    orig.positions,
                )[i],
            forall|i: int| k <= i < guild.members@.len() ==> #[trigger] guild@.members[i] == orig.members[i],
        decreases guild.members@.len() - k,
    {
        let ghost prev = guild@.members;
        let n = lookup_position_name(&guild.positions, guild.members[k].position_id);
        let mut m = copy_member(&guild.members[k]);
        m.position_name = n;
        let ghost mv = m@;
        assert(prev[k as int] == orig.members[k as int]);
        assert(guild.members@[k as int]@ == prev[k as int]);
        guild.members.set(k, m);
        assert(guild@.members =~= prev.update(k as int, mv));
        assert(mv == with_position_names(orig.members, orig.positions)[k as int]);
        k = k + 1;
    }
    assert(guild@.members =~= with_position_names(orig.members, orig.positions));
}

/// Index of the first member with both ids.
fn find_member(members: &Vec<GuildMember>, aid: u32, gid: u32) -> (r: Option<usize>)
    ensures
        match r {
            Some(k) => k < members@.len() && first_member_with(member_views(members@), aid, gid)
                == k,
            None => first_member_with(member_views(members@), aid, gid) < 0,
        },
{
    let ghost ms = member_views(members@);
    let mut k: usize = 0;
    assert(ms.skip(0) =~= ms);
    while k < members.len()
        invariant
            k <= members@.len(),
            ms == member_views(members@),
            first_member_with(ms, aid, gid) == if first_member_with(ms.skip(k as int), aid, gid)
                < 0 {
                -1
            } else {
                first_member_with(ms.skip(k as int), aid, gid) + k
            },
        decreases members@.len() - k,
    {
        assert(ms.skip(k as int)[0] == ms[k as int]);
        assert(ms.skip(k as int).drop_first() =~= ms.skip(k + 1));
        if members[k].gid == gid && members[k].aid == aid {
            assert(first_member_with(ms.skip(k as int), aid, gid) == 0);
            return Some(k);
        }
        k = k + 1;
    }
    assert(ms.skip(k as int) =~= Seq::<MemberView>::empty());
    None
}

/// Sets the position of the first member with both ids.
fn move_member_exec(guild: &mut Guild, entry: (u32, u32, i32))
    ensures
        final(guild)@ == (GuildView {
            members: move_member(old(guild)@.members, entry),
            ..old(guild)@
        }),
{
    let ghost g0 = guild@;
    match find_member(&guild.members, entry.0, entry.1) {
        Some(k) => {
            let mut m = copy_member(&guild.members[k]);
            m.position_id = entry.2;
            let ghost mv = m@;
            guild.members.set(k, m);
            assert(guild@.members =~= g0.members.update(k as int, mv));
            assert(guild@ =~= (GuildView { members: move_member(g0.members, entry), ..g0 }));
        },
        None => {},
    }
}

impl App {
    /// The guild packets land on: the current guild, or a fresh one.
    fn ensure_guild(&mut self)
        ensures
            *final(self) == (App { guild: final(self).guild, ..*old(self) }),
            final(self).guild is Some,
            final(self).guild.unwrap()@ == guild_or_empty(old(self).guild),
    {
        if self.guild.is_none() {
            self.guild = Some(Guild::new());
        }
    }

    /// Which guild menus the player may use.
    pub fn handle_guild_menu_flag(&mut self, flag: i32)
        ensures
            guild_menu_flag_step(*old(self), *final(self), flag),
    {
        self.guild_menu_flag = flag;
    }

    /// The guild information: it replaces what the guild knew of itself,
    /// the player's entity takes the guild id and emblem version, and the
    /// emblem image is asked for when the guild or emblem changed or no
    /// image was received yet (and the guild has an emblem at all).
    pub fn handle_guild_info(&mut self, info: GuildInfo) -> (out: Vec<Effect>)
        ensures
            guild_info_step(*old(self), *final(self), info, out@),
    {
        self.ensure_guild();
        let mut g = self.guild.take().unwrap();
        let changed = g.gdid != info.gdid || g.emblem_version != info.emblem_version
            || !g.has_emblem_image;
        let gdid = info.gdid;
        let version = info.emblem_version;
        g.gdid = info.gdid;
        g.name = info.name;
        g.stats = info.stats;
        g.master_name = info.master_name;
        g.manage_land = info.manage_land;
        g.emblem_version = info.emblem_version;
        self.guild = Some(g);
        let mut out: Vec<Effect> = Vec::new();
        out.push(Effect::SetPlayerGuild { gdid, emblem_version: version });
        if changed && version != 0 {
            out.push(Effect::Send(Packet::ReqGuildEmblemImg(gdid)));
        }
        out
    }

    /// The names of guild positions: each renames its position or adds
    /// it, in order, and then every member's position name is refreshed.
    /// Guild data lands on a fresh guild when there is none yet.
    pub fn handle_guild_position_names(&mut self, names: Vec<(i32, String)>)
        ensures
            guild_position_names_step(*old(self), *final(self), names),
    {
        self.ensure_guild();
        let mut g = self.guild.take().unwrap();
        let ghost g0 = g@;
        let mut i: usize = 0;
        while i < names.len()
            invariant
                i <= names@.len(),
                g@ == (GuildView {
                    positions: named_positions(g0.positions, name_views(names@).subrange(0, i as int)),
                    ..g0
                }),
            decreases names@.len() - i,
        {
            let ghost done = name_views(names@).subrange(0, i as int);
            assert(name_views(names@).subrange(0, i + 1).drop_last() =~= done);
            let name = names[i].1.clone();
            name_position(&mut g.positions, names[i].0, name);
            assert(g@ =~= (GuildView {
                positions: named_positions(g0.positions, name_views(names@).subrange(0, i + 1)),
                ..g0
            }));
            i = i + 1;
        }
        assert(name_views(names@).subrange(0, names@.len() as int) =~= name_views(names@));
        apply_position_names(&mut g);
        self.guild = Some(g);
    }

    /// Members moved to new positions, then every position name refreshed.
    pub fn handle_guild_member_positions_changed(&mut self, entries: Vec<(u32, u32, i32)>)
        ensures
            guild_member_positions_changed_step(*old(self), *final(self), entries),
    {
        self.ensure_guild();
        let mut g = self.guild.take().unwrap();
        let ghost g0 = g@;
        let mut k: usize = 0;
        while k < entries.len()
            invariant
                k <= entries@.len(),
                g@ == (GuildView {
                    members: move_members(g0.members, entries@.subrange(0, k as int)),
                    ..g0
                }),
            decreases entries@.len() - k,
        {
            move_member_exec(&mut g, entries[k]);
            assert(entries@.subrange(0, k + 1).drop_last() =~= entries@.subrange(0, k as int));
            k = k + 1;
        }
        assert(entries@.subrange(0, entries@.len() as int) =~= entries@);
        apply_position_names(&mut g);
        self.guild = Some(g);
    }

    /// The guild notice: kept on the guild and announced, each non-empty
    /// part on its own line.
    pub fn handle_guild_notice(&mut self, subject: String, body: String) -> (lines: Vec<
        ChatLine,
    >)
        ensures
            guild_notice_step(*old(self), *final(self), subject, body, lines@),
    {
        self.ensure_guild();
        let mut g = self.guild.take().unwrap();
        g.notice_subject = copy_string(&subject);
        g.notice_body = copy_string(&body);
        self.guild = Some(g);
        let mut lines: Vec<ChatLine> = Vec::new();
        if subject.unicode_len() > 0 {
            let mut text = String::from_str("[Guild] ");
            text.append(subject.as_str());
            lines.push(ChatLine { kind: ChatKind::System, text });
        }
        if body.unicode_len() > 0 {
            lines.push(ChatLine { kind: ChatKind::System, text: body });
        }
        lines
    }

    /// Our own guild identity changed. Guild id 0 means we left: the guild
    /// and the guild head sprites go. Otherwise the identity is recorded, on
    /// the guild and on the player's entity, and the emblem is fetched when
    /// there is one.
    pub fn handle_guild_identity_updated(
        &mut self,
        gdid: u32,
        emblem_version: i32,
        right: i32,
        is_master: bool,
        name: String,
    ) -> (out: Vec<Effect>)
        ensures
            guild_identity_updated_step(*old(self), *final(self), gdid, emblem_version, right, is_master, name, out@),
    {
        if gdid == 0 {
            self.guild = None;
            return vec![Effect::ClearGuildHeadSprites];
        }
        self.ensure_guild();
        let mut g = self.guild.take().unwrap();
        g.gdid = gdid;
        g.emblem_version = emblem_version;
        g.my_right = right;
        g.am_i_master = is_master;
        if name.unicode_len() > 0 {
            g.name = name;
        }
        self.guild = Some(g);
        let mut out = vec![Effect::SetPlayerGuild { gdid, emblem_version }];
        if emblem_version != 0 {
            out.push(Effect::RequestGuildEmblem { gdid, version: emblem_version });
        }
        out
    }

    /// The outcome of our guild creation; success opens the guild window.
    pub fn handle_guild_create_result(result: u8) -> (out: Vec<Effect>)
        ensures
            guild_create_result_step(result, out@),
    {
        let text = match result {
            0 => "Guild created.",
            1 => "You are already in a guild.",
            2 => "That guild name is already taken.",
            3 => "You need an Emperium to create a guild.",
            _ => "Failed to create guild.",
        };
        let line = Effect::Chat(ChatLine::from_str(ChatKind::System, text));
        if result == 0 {
            vec![Effect::OpenWindow(WindowId::Guild), line]
        } else {
            vec![line]
        }
    }

    /// Takes every member named `name` out of the guild, if there is one.
    fn drop_members_named(&mut self, name: &String)
        ensures
            *final(self) == (App { guild: final(self).guild, ..*old(self) }),
            guild_view(final(self).guild) == match old(self).guild {
                Some(g) => Some(
                    (GuildView { members: members_not_named(g@.members, name@), ..g@ }),
                ),
                None => None,
            },
    {
        if let Some(mut g) = self.guild.take() {
            let ghost g0 = g@;
            let mut mask: Vec<bool> = Vec::new();
            let mut k: usize = 0;
            while k < g.members.len()
                invariant
                    k <= g.members@.len(),
                    g@ == g0,
                    mask@ =~= Seq::new(
                        k as nat,
                        |i: int| member_views(g.members@)[i].name != name@,
                    ),
                decreases g.members@.len() - k,
            {
                let keep = g.members[k].name != *name;
                mask.push(keep);
                k = k + 1;
            }
            let ghost before = g.members@;
            retain_by_mask(&mut g.members, &mask);
            proof {
                lemma_select_views(before, mask@);
                assert(mask@ =~= Seq::new(
                    g0.members.len(),
                    |i: int| g0.members[i].name != name@,
                ));
            }
            assert(g@ =~= (GuildView { members: members_not_named(g0.members, name@), ..g0 }));
            self.guild = Some(g);
        }
    }

    /// A member left. When it is us, the guild is gone; otherwise the member
    /// leaves the list and the departure is announced with its reason.
    pub fn handle_guild_member_left(&mut self, name: String, reason: String) -> (out: Vec<Effect>)
        ensures
            guild_member_left_step(*old(self), *final(self), name, reason, out@),
    {
        if name == self.character_name {
            self.guild = None;
            return vec![
                Effect::ClearGuildHeadSprites,
                Effect::Chat(ChatLine::from_str(ChatKind::System, "You have left the guild.")),
            ];
        }
        self.drop_members_named(&name);
        let mut text = copy_string(&name);
        text.append(" has left the guild");
        if reason.unicode_len() == 0 {
            text.append(".");
        } else {
            text.append(". (");
            text.append(reason.as_str());
            text.append(")");
        }
        vec![Effect::Chat(ChatLine { kind: ChatKind::System, text })]
    }

    /// A member was expelled. When it is us, the guild is gone; otherwise
    /// the member leaves the list, lands on the ban list, and the expulsion
    /// is announced with its reason.
    pub fn handle_guild_member_expelled(&mut self, name: String, reason: String) -> (out: Vec<
        Effect,
    >)
        ensures
            guild_member_expelled_step(*old(self), *final(self), name, reason, out@),
    {
        if name == self.character_name {
            self.guild = None;
            return vec![
                Effect::ClearGuildHeadSprites,
                Effect::Chat(
                    ChatLine::from_str(ChatKind::System, "You have been expelled from the guild."),
                ),
            ];
        }
        self.drop_members_named(&name);
        if let Some(mut g) = self.guild.take() {
            let ghost g0 = g@;
            g.ban_list.push(
                GuildBanEntry {
                    char_name: copy_string(&name),
                    account: String::new(),
                    reason: copy_string(&reason),
                },
            );
            assert(g@ =~= (GuildView {
                ban_list: g0.ban_list.push(
                    BanView { char_name: name@, account: Seq::empty(), reason: reason@ },
                ),
                ..g0
            }));
            self.guild = Some(g);
        }
        let mut text = copy_string(&name);
        text.append(" has been expelled from the guild");
        if reason.unicode_len() == 0 {
            text.append(".");
        } else {
            text.append(". (");
            text.append(reason.as_str());
            text.append(")");
        }
        vec![Effect::Chat(ChatLine { kind: ChatKind::System, text })]
    }

    /// The outcome of disbanding our guild; on success the guild is gone.
    pub fn handle_guild_disband_result(&mut self, reason: i32) -> (out: Vec<Effect>)
        ensures
            guild_disband_result_step(*old(self), *final(self), reason, out@),
    {
        if reason == 0 {
            self.guild = None;
            vec![
                Effect::ClearGuildHeadSprites,
                Effect::Chat(ChatLine::from_str(ChatKind::System, "The guild has been disbanded.")),
            ]
        } else {
            vec![Effect::Chat(ChatLine::from_str(ChatKind::System, "Failed to disband the guild."))]
        }
    }

    /// The answer to our guild invitation; an accepted one is not announced.
    pub fn handle_guild_join_result(answer: u8) -> (out: Option<ChatLine>)
        ensures
            guild_join_result_step(answer, out),
    {
        let msg = match answer {
            0 => "That character is already in a guild.",
            1 => "The guild invitation was rejected.",
            2 => {
                return None;
            },
            _ => "The guild is full.",
        };
        Some(ChatLine::from_str(ChatKind::System, msg))
    }

    /// An alliance or antagonism ended: the relation leaves the list.
    pub fn handle_guild_relation_deleted(&mut self, gdid: u32, relation: i32)
        ensures
            guild_relation_deleted_step(*old(self), *final(self), gdid, relation),
    {
        if let Some(mut g) = self.guild.take() {
            let ghost g0 = g@;
            let mut mask: Vec<bool> = Vec::new();
            let mut k: usize = 0;
            while k < g.relations.len()
                invariant
                    k <= g.relations@.len(),
                    g@ == g0,
                    mask@ =~= Seq::new(
                        k as nat,
                        |i: int|
                            !(relation_views(g.relations@)[i].gdid as u32 == gdid && relation_views(
                                g.relations@,
                            )[i].relation == relation),
                    ),
                decreases g.relations@.len() - k,
            {
                let keep = !(g.relations[k].gdid as u32 == gdid && g.relations[k].relation
                    == relation);
                mask.push(keep);
                k = k + 1;
            }
            let ghost before = g.relations@;
            retain_by_mask(&mut g.relations, &mask);
            proof {
                lemma_select_relation_views(before, mask@);
            }
            assert(g@ =~= (GuildView {
                relations: relations_without(g0.relations, gdid, relation),
                ..g0
            }));
            self.guild = Some(g);
        }
    }

    /// A new alliance or antagonism: recorded once, however often announced.
    pub fn handle_guild_relation_added(&mut self, gdid: u32, relation: i32, name: String)
        ensures
            guild_relation_added_step(*old(self), *final(self), gdid, relation, name),
    {
        if let Some(mut g) = self.guild.take() {
            let ghost g0 = g@;
            let mut exists = false;
            let mut k: usize = 0;
            while k < g.relations.len()
                invariant
                    k <= g.relations@.len(),
                    g@ == g0,
                    exists == exists|i: int|
                        0 <= i < k && g0.relations[i].gdid as u32 == gdid && g0.relations[i].relation
                            == relation,
                decreases g.relations@.len() - k,
            {
                if g.relations[k].gdid as u32 == gdid && g.relations[k].relation == relation {
                    exists = true;
                }
                assert(g0.relations[k as int] == g.relations@[k as int]@);
                k = k + 1;
            }
            if exists {
                assert(g@ =~= (GuildView {
                    relations: with_relation(g0.relations, gdid, relation, name@),
                    ..g0
                }));
            } else {
                g.relations.push(GuildRelation { gdid: gdid as i32, relation, name });
                assert(g@ =~= (GuildView {
                    relations: g0.relations.push(
                        RelationView { gdid: gdid as i32, relation, name: name@ },
                    ),
                    ..g0
                }));
            }
            self.guild = Some(g);
        }
    }

    /// The outcome of declaring another guild an antagonist.
    pub fn handle_guild_hostile_result(result: u8) -> (line: ChatLine)
        ensures
            guild_hostile_result_step(result, line),
    {
        let msg = match result {
            0 => "The guild has been set as an antagonist.",
            1 => "Your guild has too many antagonists.",
            2 => "This guild is already an antagonist.",
            _ => "Antagonist declarations are currently disabled.",
        };
        ChatLine::from_str(ChatKind::System, msg)
    }

    /// The outcome of an alliance offer.
    pub fn handle_guild_ally_result(answer: u8) -> (line: ChatLine)
        ensures
            guild_ally_result_step(answer, line),
    {
        let msg = match answer {
            0 => "Your guild is already allied with this guild.",
            1 => "The alliance offer was rejected.",
            2 => "The alliance offer was accepted.",
            3 => "The other guild has too many alliances.",
            4 => "Your guild has too many alliances.",
            _ => "Alliance requests are currently disabled.",
        };
        ChatLine::from_str(ChatKind::System, msg)
    }

    /// Our account id, standing for both our account and character in guild
    /// packets; 0 before login.
    pub fn local_aid_gid(&self) -> (r: (u32, u32))
        ensures
            r.0 == r.1,
            r.0 == match self.account_id {
                Some(a) => a,
                None => 0u32,
            },
    {
        let aid = match self.account_id {
            Some(a) => a,
            None => 0,
        };
        (aid, aid)
    }

    /// The guild's emblem goes onto every loaded model flying it: the
    /// entities of that guild and emblem version, in the order given.
    pub fn apply_guild_emblem_to_models(gdid: u32, version: i32, entities: &Vec<EntitySnapshot>) -> (out: Vec<
        Effect,
    >)
        ensures
            out@ == select(
                entities@,
                Seq::new(
                    entities@.len(),
                    |i: int|
                        entities@[i].guild_id == gdid && entities@[i].guild_emblem_version
                            == version,
                ),
            ).map_values(|e: EntitySnapshot| Effect::ApplyGuildEmblemToModel(e.id)),
    {
        let mut out: Vec<Effect> = Vec::new();
        let ghost mask = Seq::new(
            entities@.len(),
            |i: int| entities@[i].guild_id == gdid && entities@[i].guild_emblem_version == version,
        );
        let mut k: usize = 0;
        while k < entities.len()
            invariant
                k <= entities@.len(),
                mask.len() == entities@.len(),
                forall|i: int|
                    0 <= i < entities@.len() ==> #[trigger] mask[i] == (entities@[i].guild_id
                        == gdid && entities@[i].guild_emblem_version == version),
                out@ == select(entities@.subrange(0, k as int), mask).map_values(
                    |e: EntitySnapshot| Effect::ApplyGuildEmblemToModel(e.id),
                ),
            decreases entities@.len() - k,
        {
            let ghost prev = entities@.subrange(0, k as int);
            let ghost next = entities@.subrange(0, k + 1);
            assert(next.drop_last() =~= prev);
            if entities[k].guild_id == gdid && entities[k].guild_emblem_version == version {
                out.push(Effect::ApplyGuildEmblemToModel(entities[k].id));
            }
            assert(out@ =~= select(next, mask).map_values(
                |e: EntitySnapshot| Effect::ApplyGuildEmblemToModel(e.id),
            ));
            k = k + 1;
        }
        assert(entities@.subrange(0, entities@.len() as int) =~= entities@);
        out
    }

    /// Guild info, members, positions and skills are asked for on every
    /// world entry.
    pub fn request_guild_data() -> (out: Vec<Effect>)
        ensures
            out@.len() == 4,
            forall|i: int| 0 <= i < 4 ==> (#[trigger] out@[i] matches Effect::Send(Packet::ReqGuildMenu(t)) && t == i),
    {
        vec![
            Effect::Send(Packet::ReqGuildMenu(0)),
            Effect::Send(Packet::ReqGuildMenu(1)),
            Effect::Send(Packet::ReqGuildMenu(2)),
            Effect::Send(Packet::ReqGuildMenu(3)),
        ]
    }
}

/// Keeping members by a mask commutes with viewing them.
pub proof fn lemma_select_views(s: Seq<GuildMember>, mask: Seq<bool>)
    ensures
        member_views(select(s, mask)) =~= select(member_views(s), mask),
    decreases s.len(),
{
    if s.len() > 0 {
        lemma_select_views(s.drop_last(), mask);
        assert(member_views(s.drop_last()) =~= member_views(s).drop_last());
        assert(member_views(select(s.drop_last(), mask).push(s.last())) =~= member_views(
            select(s.drop_last(), mask),
        ).push(s.last()@));
    }
}

/// Keeping relations by a mask commutes with viewing them.
pub proof fn lemma_select_relation_views(s: Seq<GuildRelation>, mask: Seq<bool>)
    ensures
        relation_views(select(s, mask)) =~= select(relation_views(s), mask),
    decreases s.len(),
{
    if s.len() > 0 {
        lemma_select_relation_views(s.drop_last(), mask);
        assert(relation_views(s.drop_last()) =~= relation_views(s).drop_last());
        assert(relation_views(select(s.drop_last(), mask).push(s.last())) =~= relation_views(
            select(s.drop_last(), mask),
        ).push(s.last()@));
    }
}

/// A relation is recorded once, however often it is announced: announcing
/// it again changes nothing, and it is recorded afterwards.
pub proof fn lemma_relation_recorded_once(
    relations: Seq<RelationView>,
    gdid: u32,
    relation: i32,
    name: Seq<char>,
    again: Seq<char>,
)
    ensures
        has_relation(with_relation(relations, gdid, relation, name), gdid, relation),
        with_relation(with_relation(relations, gdid, relation, name), gdid, relation, again)
            == with_relation(relations, gdid, relation, name),
{
    let r = with_relation(relations, gdid, relation, name);
    if !has_relation(relations, gdid, relation) {
        let i = relations.len() as int;
        assert((gdid as i32) as u32 == gdid) by (bit_vector);
        assert(r[i].gdid as u32 == gdid && r[i].relation == relation);
    }
}

/// Ending a relation takes out every record of it and keeps every other
/// record, so a relation recorded and then ended is no longer there.
pub proof fn lemma_relation_deleted_gone(relations: Seq<RelationView>, gdid: u32, relation: i32)
    ensures
        !has_relation(relations_without(relations, gdid, relation), gdid, relation),
        forall|r: RelationView|
            !(r.gdid as u32 == gdid && r.relation == relation) ==> (#[trigger] relations_without(
                relations,
                gdid,
                relation,
            ).contains(r) <==> relations.contains(r)),
{
    let mask = Seq::new(
        relations.len(),
        |i: int| !(relations[i].gdid as u32 == gdid && relations[i].relation == relation),
    );
    let kept = relations_without(relations, gdid, relation);
    lemma_select_members(relations, mask);
    if has_relation(kept, gdid, relation) {
        let i = choose|i: int|
            0 <= i < kept.len() && kept[i].gdid as u32 == gdid && kept[i].relation == relation;
        assert(kept.contains(kept[i]));
    }
    assert forall|r: RelationView|
        !(r.gdid as u32 == gdid && r.relation == relation) implies (#[trigger] kept.contains(r)
        <==> relations.contains(r)) by {
        if relations.contains(r) {
            let j = choose|j: int| 0 <= j < relations.len() && relations[j] == r;
            assert(mask[j]);
        }
    }
}

} // verus!

verus! {

/// How a member-wide update changes one guild member.
#[derive(Clone, Copy)]
pub enum GuildMemberUpdate {
    Position { x: u16, y: u16 },
    ClearPosition,
}

pub open spec fn apply_guild_update(m: MemberView, u: GuildMemberUpdate) -> MemberView {
    match u {
        GuildMemberUpdate::Position { x, y } => MemberView { x, y, has_live_position: true, ..m },
        GuildMemberUpdate::ClearPosition => MemberView { has_live_position: false, ..m },
    }
}

/// Every member with `aid` updated by `u`, the others as they were.
pub open spec fn update_guild_members(members: Seq<MemberView>, aid: u32, u: GuildMemberUpdate) -> Seq<
    MemberView,
> {
    members.map_values(|m: MemberView| if m.aid == aid { apply_guild_update(m, u) } else { m })
}

/// The members with no live position shown.
pub open spec fn without_live_positions(members: Seq<MemberView>) -> Seq<MemberView> {
    members.map_values(|m: MemberView| MemberView { has_live_position: false, ..m })
}

/// The guild with no member's live position shown, if there is a guild.
pub open spec fn guild_without_live_positions(g: Option<GuildView>) -> Option<GuildView> {
    match g {
        Some(v) => Some(GuildView { members: without_live_positions(v.members), ..v }),
        None => None,
    }
}

/// How a guild member looks in the guild window.
#[derive(Clone, Copy, Debug)]
pub struct MemberLook {
    pub sex: u8,
    pub head: u16,
    pub head_palette: u16,
}

/// Index of the first member with character `gid` or account `aid`, or -1.
pub open spec fn first_member_either(members: Seq<MemberView>, aid: u32, gid: u32) -> int
    decreases members.len(),
{
    if members.len() == 0 {
        -1
    } else if members[0].gid == gid || members[0].aid == aid {
        0
    } else {
        let r = first_member_either(members.drop_first(), aid, gid);
        if r < 0 {
            -1
        } else {
            r + 1
        }
    }
}

/// The member `m` logged in or out, looking as `look` says when it says.
pub open spec fn member_now(m: MemberView, online: bool, look: Option<MemberLook>) -> MemberView {
    match look {
        Some(l) => MemberView { online, sex: l.sex, head: l.head, head_palette: l.head_palette, ..m },
        None => MemberView { online, ..m },
    }
}

/// The members after the member at `i` logged in or out: a member going
/// offline no longer shows a live position, under any of its characters.
pub open spec fn members_after_login(
    members: Seq<MemberView>,
    i: int,
    aid: u32,
    online: bool,
    look: Option<MemberLook>,
) -> Seq<MemberView> {
    let updated = members.update(i, member_now(members[i], online, look));
    if online {
        updated
    } else {
        update_guild_members(updated, aid, GuildMemberUpdate::ClearPosition)
    }
}

/// The line announcing a member logging in or out.
pub open spec fn member_online_text(is_master: bool, name: Seq<char>, online: bool) -> Seq<char> {
    (if is_master { "Guild master "@ } else { "Guild member "@ }) + name + " is "@ + (if online {
        "online"@
    } else {
        "offline"@
    }) + "."@
}

/// The positions a position list adds: each whose id is not in the table
/// yet joins it at the end, in order; one already there keeps its name.
pub open spec fn merged_positions(positions: Seq<PositionView>, added: Seq<PositionView>) -> Seq<
    PositionView,
>
    decreases added.len(),
{
    if added.len() == 0 {
        positions
    } else {
        let rest = merged_positions(positions, added.drop_last());
        if first_position(rest, added.last().id) >= 0 {
            rest
        } else {
            rest.push(added.last())
        }
    }
}

/// Index of the first member with character `gid` or account `aid`.
fn find_member_either(members: &Vec<GuildMember>, aid: u32, gid: u32) -> (r: Option<usize>)
    ensures
        match r {
            Some(k) => k < members@.len() && first_member_either(member_views(members@), aid, gid)
                == k,
            None => first_member_either(member_views(members@), aid, gid) < 0,
        },
{
    let ghost ms = member_views(members@);
    let mut k: usize = 0;
    assert(ms.skip(0) =~= ms);
    while k < members.len()
        invariant
            k <= members@.len(),
            ms == member_views(members@),
            first_member_either(ms, aid, gid) == if first_member_either(
                ms.skip(k as int),
                aid,
                gid,
            ) < 0 {
                -1
            } else {
                first_member_either(ms.skip(k as int), aid, gid) + k
            },
        decreases members@.len() - k,
    {
        assert(ms.skip(k as int)[0] == ms[k as int]);
        assert(ms.skip(k as int).drop_first() =~= ms.skip(k + 1));
        if members[k].gid == gid || members[k].aid == aid {
            assert(first_member_either(ms.skip(k as int), aid, gid) == 0);
            return Some(k);
        }
        k = k + 1;
    }
    assert(ms.skip(k as int) =~= Seq::<MemberView>::empty());
    None
}

/// Whether a position with id `id` is in the table.
fn has_position(positions: &Vec<GuildPosition>, id: i32) -> (b: bool)
    ensures
        b == (first_position(position_views(positions@), id) >= 0),
{
    let ghost ps = position_views(positions@);
    let mut k: usize = 0;
    while k < positions.len()
        invariant
            k <= positions@.len(),
            ps == position_views(positions@),
            forall|j: int| 0 <= j < k ==> ps[j].id != id,
        decreases positions@.len() - k,
    {
        assert(ps[k as int] == positions@[k as int]@);
        if positions[k].id == id {
            proof {
                lemma_first_position(ps, id, k as int);
            }
            return true;
        }
        k = k + 1;
    }
    proof {
        lemma_first_position(ps, id, k as int);
    }
    false
}

impl Guild {
    /// Applies `u` to every member with `aid`.
    fn update_members(&mut self, aid: u32, u: GuildMemberUpdate)
        ensures
            final(self)@ == (GuildView {
                members: update_guild_members(old(self)@.members, aid, u),
                ..old(self)@
            }),
    {
        let ghost g0 = self@;
        let mut k: usize = 0;
        while k < self.members.len()
            invariant
                k <= self.members@.len(),
                self.members@.len() == g0.members.len(),
                self@ == (GuildView { members: self@.members, ..g0 }),
                forall|i: int|
                    0 <= i < k ==> #[trigger] self@.members[i] == update_guild_members(
                        g0.members,
                        aid,
                        u,
                    )[i],
                forall|i: int|
                    k <= i < self.members@.len() ==> #[trigger] self@.members[i] == g0.members[i],
            decreases self.members@.len() - k,
        {
            let ghost prev = self@.members;
            assert(prev[k as int] == g0.members[k as int]);
            assert(self.members@[k as int]@ == prev[k as int]);
            if self.members[k].aid == aid {
                let mut m = copy_member(&self.members[k]);
                match u {
                    GuildMemberUpdate::Position { x, y } => {
                        m.x = x;
                        m.y = y;
                        m.has_live_position = true;
                    },
                    GuildMemberUpdate::ClearPosition => {
                        m.has_live_position = false;
                    },
                }
                let ghost mv = m@;
                assert(mv == apply_guild_update(prev[k as int], u));
                self.members.set(k, m);
                assert(self@.members =~= prev.update(k as int, mv));
            }
            assert(self@.members[k as int] == update_guild_members(g0.members, aid, u)[k as int]);
            k = k + 1;
        }
        assert(self@.members =~= update_guild_members(g0.members, aid, u));
    }

    /// No member shows a live position any more.
    pub fn clear_live_positions(&mut self)
        ensures
            final(self)@ == (GuildView {
                members: without_live_positions(old(self)@.members),
                ..old(self)@
            }),
    {
        let ghost g0 = self@;
        let mut k: usize = 0;
        while k < self.members.len()
            invariant
                k <= self.members@.len(),
                self.members@.len() == g0.members.len(),
                self@ == (GuildView { members: self@.members, ..g0 }),
                forall|i: int|
                    0 <= i < k ==> #[trigger] self@.members[i] == without_live_positions(g0.members)[i],
                forall|i: int|
                    k <= i < self.members@.len() ==> #[trigger] self@.members[i] == g0.members[i],
            decreases self.members@.len() - k,
        {
            let ghost prev = self@.members;
            assert(self.members@[k as int]@ == prev[k as int]);
            let mut m = copy_member(&self.members[k]);
            m.has_live_position = false;
            let ghost mv = m@;
            self.members.set(k, m);
            assert(self@.members =~= prev.update(k as int, mv));
            k = k + 1;
        }
        assert(self@.members =~= without_live_positions(g0.members));
    }

    /// The member's live position on our map.
    pub fn set_position(&mut self, aid: u32, x: u16, y: u16)
        ensures
            final(self)@ == (GuildView {
                members: update_guild_members(
                    old(self)@.members,
                    aid,
                    GuildMemberUpdate::Position { x, y },
                ),
                ..old(self)@
            }),
    {
        self.update_members(aid, GuildMemberUpdate::Position { x, y });
    }

    /// The member is no longer seen on our map.
    pub fn clear_position_of(&mut self, aid: u32)
        ensures
            final(self)@ == (GuildView {
                members: update_guild_members(
                    old(self)@.members,
                    aid,
                    GuildMemberUpdate::ClearPosition,
                ),
                ..old(self)@
            }),
    {
        self.update_members(aid, GuildMemberUpdate::ClearPosition);
    }
}

impl App {
    /// A guild member's position: a negative coordinate means the member is
    /// no longer on our map. Nothing happens outside a guild.
    pub fn handle_guild_member_position(&mut self, aid: u32, x: i16, y: i16)
        ensures
            guild_member_position_step(*old(self), *final(self), aid, x, y),
    {
        if let Some(mut g) = self.guild.take() {
            if x < 0 || y < 0 {
                g.clear_position_of(aid);
            } else {
                g.set_position(aid, x as u16, y as u16);
            }
            self.guild = Some(g);
        }
    }

    /// The guild member list: it replaces the members, each member's
    /// position name is set from the position table, and the members'
    /// sprites are loaded. Lands on a fresh guild when there is none.
    pub fn handle_guild_members(&mut self, members: Vec<GuildMember>) -> (out: Vec<Effect>)
        ensures
            guild_members_step(*old(self), *final(self), members, out@),
    {
        self.ensure_guild();
        let mut g = self.guild.take().unwrap();
        g.members = members;
        apply_position_names(&mut g);
        self.guild = Some(g);
        let mut out: Vec<Effect> = Vec::new();
        out.push(Effect::LoadGuildMemberSprites);
        out
    }

    /// The guild position list: each position not in the table yet joins
    /// it, one already there keeps its name; then every member's position
    /// name is refreshed. Lands on a fresh guild when there is none.
    pub fn handle_guild_positions(&mut self, positions: Vec<GuildPosition>)
        ensures
            guild_positions_step(*old(self), *final(self), positions),
    {
        self.ensure_guild();
        let mut g = self.guild.take().unwrap();
        let ghost g0 = g@;
        let ghost added = position_views(positions@);
        let mut positions = positions;
        let mut i: usize = 0;
        while i < positions.len()
            invariant
                i <= positions@.len(),
                added == position_views(positions@),
                g@ == (GuildView {
                    positions: merged_positions(g0.positions, added.subrange(0, i as int)),
                    ..g0
                }),
            decreases positions@.len() - i,
        {
            assert(added.subrange(0, i + 1).drop_last() =~= added.subrange(0, i as int));
            assert(added.subrange(0, i + 1).last() == positions@[i as int]@);
            if !has_position(&g.positions, positions[i].id) {
                let p = GuildPosition { id: positions[i].id, name: copy_string(&positions[i].name) };
                let ghost before = position_views(g.positions@);
                g.positions.push(p);
                assert(position_views(g.positions@) =~= before.push(positions@[i as int]@));
            }
            assert(g@ =~= (GuildView {
                positions: merged_positions(g0.positions, added.subrange(0, i + 1)),
                ..g0
            }));
            i = i + 1;
        }
        assert(added.subrange(0, positions@.len() as int) =~= added);
        apply_position_names(&mut g);
        self.guild = Some(g);
    }

    /// The guild's ban list replaces the one kept. Lands on a fresh guild
    /// when there is none.
    pub fn handle_guild_ban_list(&mut self, entries: Vec<GuildBanEntry>)
        ensures
            guild_ban_list_step(*old(self), *final(self), entries),
    {
        self.ensure_guild();
        let mut g = self.guild.take().unwrap();
        g.ban_list = entries;
        self.guild = Some(g);
    }

    /// The guild's alliances and antagonisms replace the ones kept. Lands on
    /// a fresh guild when there is none.
    pub fn handle_guild_relations(&mut self, relations: Vec<GuildRelation>)
        ensures
            guild_relations_step(*old(self), *final(self), relations),
    {
        self.ensure_guild();
        let mut g = self.guild.take().unwrap();
        g.relations = relations;
        self.guild = Some(g);
    }

    /// A guild member logged in or out. The first member with that
    /// character or account takes the new state, and the look the server
    /// sent with it; a member going offline no longer shows a live
    /// position. Only a state that actually flipped is announced (the
    /// server replays every member's state after login), and only for a
    /// member with a name. A look closes the homunculus windows. Nothing
    /// happens outside a guild or for someone not in it.
    pub fn handle_guild_member_online(
        &mut self,
        aid: u32,
        gid: u32,
        online: bool,
        look: Option<MemberLook>,
    ) -> (out: Vec<Effect>)
        ensures
            guild_member_online_step(*old(self), *final(self), aid, gid, online, look, out@),
    {
        let mut out: Vec<Effect> = Vec::new();
        let mut g = match self.guild.take() {
            Some(g) => g,
            None => {
                return out;
            },
        };
        let ghost g0 = g@;
        let k = match find_member_either(&g.members, aid, gid) {
            Some(k) => k,
            None => {
                self.guild = Some(g);
                return out;
            },
        };
        let changed = g.members[k].online != online;
        let mut m = copy_member(&g.members[k]);
        m.online = online;
        match look {
            Some(l) => {
                m.sex = l.sex;
                m.head = l.head;
                m.head_palette = l.head_palette;
            },
            None => {},
        }
        let ghost mv = m@;
        assert(mv == member_now(g0.members[k as int], online, look));
        let name = copy_string(&m.name);
        g.members.set(k, m);
        assert(g@.members =~= g0.members.update(k as int, mv));
        if !online {
            g.clear_position_of(aid);
        }
        let is_master = g.master_name == name;
        self.guild = Some(g);
        if changed && !name.as_str().is_empty() {
            let mut text = String::from_str(if is_master { "Guild master " } else { "Guild member " });
            text.append(name.as_str());
            text.append(" is ");
            text.append(if online { "online" } else { "offline" });
            text.append(".");
            proof {
                reveal_strlit("Guild master ");
                reveal_strlit("Guild member ");
                reveal_strlit(" is ");
                reveal_strlit("online");
                reveal_strlit("offline");
                reveal_strlit(".");
            }
            out.push(Effect::Chat(ChatLine { kind: ChatKind::System, text }));
        }
        if look.is_some() {
            out.push(Effect::CloseWindow(WindowId::HomunculusInfo));
            out.push(Effect::CloseWindow(WindowId::HomunculusSkills));
        }
        out
    }
}

/// Two member lists with the same ids in the same places find the same
/// member first.
proof fn lemma_first_member_either_ids(a: Seq<MemberView>, b: Seq<MemberView>, aid: u32, gid: u32)
    requires
        a.len() == b.len(),
        forall|j: int| 0 <= j < a.len() ==> a[j].aid == b[j].aid && a[j].gid == b[j].gid,
    ensures
        first_member_either(a, aid, gid) == first_member_either(b, aid, gid),
    decreases a.len(),
{
    if a.len() > 0 {
        assert(a[0].aid == b[0].aid && a[0].gid == b[0].gid);
        lemma_first_member_either_ids(a.drop_first(), b.drop_first(), aid, gid);
    }
}

/// A login state the server replays is not announced again: after a member
/// logged in or out, the same report finds the same member, which already
/// has that state.
pub proof fn lemma_login_replay_is_silent(
    members: Seq<MemberView>,
    aid: u32,
    gid: u32,
    online: bool,
    look: Option<MemberLook>,
)
    requires
        first_member_either(members, aid, gid) >= 0,
    ensures
        ({
            let i = first_member_either(members, aid, gid);
            let after = members_after_login(members, i, aid, online, look);
            first_member_either(after, aid, gid) == i && after[i].online == online
        }),
{
    let i = first_member_either(members, aid, gid);
    lemma_first_member_either_in_range(members, aid, gid);
    let after = members_after_login(members, i, aid, online, look);
    assert forall|j: int| 0 <= j < members.len() implies members[j].aid == after[j].aid
        && members[j].gid == after[j].gid by {}
    lemma_first_member_either_ids(members, after, aid, gid);
}

proof fn lemma_first_member_either_in_range(members: Seq<MemberView>, aid: u32, gid: u32)
    ensures
        first_member_either(members, aid, gid) < members.len(),
    decreases members.len(),
{
    if members.len() > 0 {
        lemma_first_member_either_in_range(members.drop_first(), aid, gid);
    }
}

/// Position reports touch only the reported member: the roster keeps its
/// length, order, ids, names and positions in the guild, and every other
/// member is left as it was.
pub proof fn lemma_guild_updates_keep_roster(members: Seq<MemberView>, aid: u32, u: GuildMemberUpdate)
    ensures
        update_guild_members(members, aid, u).len() == members.len(),
        forall|i: int|
            0 <= i < members.len() ==> {
                let m = #[trigger] update_guild_members(members, aid, u)[i];
                &&& m.aid == members[i].aid && m.gid == members[i].gid
                &&& m.name == members[i].name && m.position_id == members[i].position_id
                &&& m.online == members[i].online
            },
        forall|i: int|
            0 <= i < members.len() && members[i].aid != aid ==> #[trigger] update_guild_members(
                members,
                aid,
                u,
            )[i] == members[i],
{
}

/// What `handle_guild_menu_flag` leaves and hands on.
pub open spec fn guild_menu_flag_step(a: App, b: App, flag: i32) -> bool {
    &&& b == (App { guild_menu_flag: flag, ..a })
}

/// What `handle_guild_info` leaves and hands on.
pub open spec fn guild_info_step(a: App, b: App, info: GuildInfo, out: Seq<Effect>) -> bool {
    &&& b == (App { guild: b.guild, ..a })
    &&& ({
                    let g0 = guild_or_empty(a.guild);
                    let request = (g0.gdid != info.gdid || g0.emblem_version != info.emblem_version
                        || !g0.has_emblem_image) && info.emblem_version != 0;
                    &&& guild_view(b.guild) == Some(
                        (GuildView {
                            gdid: info.gdid,
                            name: info.name@,
                            stats: info.stats,
                            master_name: info.master_name@,
                            manage_land: info.manage_land@,
                            emblem_version: info.emblem_version,
                            ..g0
                        }),
                    )
                    &&& out =~= if request {
                        seq![
                            Effect::SetPlayerGuild { gdid: info.gdid, emblem_version: info.emblem_version },
                            Effect::Send(Packet::ReqGuildEmblemImg(info.gdid)),
                        ]
                    } else {
                        seq![Effect::SetPlayerGuild { gdid: info.gdid, emblem_version: info.emblem_version }]
                    }
                })
}

/// What `handle_guild_position_names` leaves and hands on.
pub open spec fn guild_position_names_step(a: App, b: App, names: Vec<(i32, String)>) -> bool {
    &&& b == (App { guild: b.guild, ..a })
    &&& ({
                    let g0 = guild_or_empty(a.guild);
                    let positions = named_positions(g0.positions, name_views(names@));
                    guild_view(b.guild) == Some(
                        (GuildView {
                            positions,
                            members: with_position_names(g0.members, positions),
                            ..g0
                        }),
                    )
                })
}

/// What `handle_guild_member_positions_changed` leaves and hands on.
pub open spec fn guild_member_positions_changed_step(a: App, b: App, entries: Vec<(u32, u32, i32)>) -> bool {
    &&& b == (App { guild: b.guild, ..a })
    &&& guild_view(b.guild) == Some(
                    (GuildView {
                        members: with_position_names(
                            move_members(guild_or_empty(a.guild).members, entries@),
                            guild_or_empty(a.guild).positions,
                        ),
                        ..guild_or_empty(a.guild)
                    }),
                )
}

/// What `handle_guild_identity_updated` leaves and hands on.
pub open spec fn guild_identity_updated_step(a: App, b: App, gdid: u32, emblem_version: i32, right: i32, is_master: bool, name: String, out: Seq<Effect>) -> bool {
    &&& b == (App { guild: b.guild, ..a })
    &&& gdid == 0 ==> b.guild is None && out.len() == 1
                    && out[0] is ClearGuildHeadSprites
    &&& gdid != 0 ==> {
                    let g0 = guild_or_empty(a.guild);
                    &&& guild_view(b.guild) == Some(
                        (GuildView {
                            gdid,
                            emblem_version,
                            my_right: right,
                            am_i_master: is_master,
                            name: if name@.len() > 0 {
                                name@
                            } else {
                                g0.name
                            },
                            ..g0
                        }),
                    )
                    &&& out.len() == if emblem_version != 0 {
                        2int
                    } else {
                        1
                    }
                    &&& out[0] == Effect::SetPlayerGuild { gdid, emblem_version }
                    &&& emblem_version != 0 ==> out[1] == Effect::RequestGuildEmblem {
                        gdid,
                        version: emblem_version,
                    }
                }
}

/// What `handle_guild_member_left` leaves and hands on.
pub open spec fn guild_member_left_step(a: App, b: App, name: String, reason: String, out: Seq<Effect>) -> bool {
    &&& b == (App { guild: b.guild, ..a })
    &&& name@ == a.character_name@ ==> b.guild is None && out.len() == 2
                    && out[0] is ClearGuildHeadSprites && is_chat(
                    out[1],
                    ChatKind::System,
                    "You have left the guild."@,
                )
    &&& name@ != a.character_name@ ==> {
                    &&& guild_view(b.guild) == match a.guild {
                        Some(g) => Some(
                            (GuildView { members: members_not_named(g@.members, name@), ..g@ }),
                        ),
                        None => None,
                    }
                    &&& out.len() == 1
                    &&& is_chat(
                        out[0],
                        ChatKind::System,
                        departure_text(name@, reason@, " has left the guild"@),
                    )
                }
}

/// What `handle_guild_member_expelled` leaves and hands on.
pub open spec fn guild_member_expelled_step(a: App, b: App, name: String, reason: String, out: Seq<Effect>) -> bool {
    &&& b == (App { guild: b.guild, ..a })
    &&& name@ == a.character_name@ ==> b.guild is None && out.len() == 2
                    && out[0] is ClearGuildHeadSprites && is_chat(
                    out[1],
                    ChatKind::System,
                    "You have been expelled from the guild."@,
                )
    &&& name@ != a.character_name@ ==> {
                    &&& guild_view(b.guild) == match a.guild {
                        Some(g) => Some(
                            (GuildView {
                                members: members_not_named(g@.members, name@),
                                ban_list: g@.ban_list.push(
                                    BanView {
                                        char_name: name@,
                                        account: Seq::empty(),
                                        reason: reason@,
                                    },
                                ),
                                ..g@
                            }),
                        ),
                        None => None,
                    }
                    &&& out.len() == 1
                    &&& is_chat(
                        out[0],
                        ChatKind::System,
                        departure_text(name@, reason@, " has been expelled from the guild"@),
                    )
                }
}

/// What `handle_guild_disband_result` leaves and hands on.
pub open spec fn guild_disband_result_step(a: App, b: App, reason: i32, out: Seq<Effect>) -> bool {
    &&& reason == 0 ==> b == (App { guild: None, ..a }) && out.len()
                    == 2 && out[0] is ClearGuildHeadSprites && is_chat(
                    out[1],
                    ChatKind::System,
                    "The guild has been disbanded."@,
                )
    &&& reason != 0 ==> b == a && out.len() == 1 && is_chat(
                    out[0],
                    ChatKind::System,
                    "Failed to disband the guild."@,
                )
}

/// What `handle_guild_relation_deleted` leaves and hands on.
pub open spec fn guild_relation_deleted_step(a: App, b: App, gdid: u32, relation: i32) -> bool {
    &&& b == (App { guild: b.guild, ..a })
    &&& guild_view(b.guild) == match a.guild {
                    Some(g) => Some(
                        (GuildView {
                            relations: relations_without(g@.relations, gdid, relation),
                            ..g@
                        }),
                    ),
                    None => None,
                }
}

/// What `handle_guild_relation_added` leaves and hands on.
pub open spec fn guild_relation_added_step(a: App, b: App, gdid: u32, relation: i32, name: String) -> bool {
    &&& b == (App { guild: b.guild, ..a })
    &&& guild_view(b.guild) == match a.guild {
                    Some(g) => Some(
                        (GuildView { relations: with_relation(g@.relations, gdid, relation, name@), ..g@ }),
                    ),
                    None => None,
                }
}

/// What `handle_guild_member_position` leaves and hands on.
pub open spec fn guild_member_position_step(a: App, b: App, aid: u32, x: i16, y: i16) -> bool {
    &&& b == (App { guild: b.guild, ..a })
    &&& guild_view(b.guild) == match a.guild {
                    Some(g) => Some(
                        (GuildView {
                            members: update_guild_members(
                                g@.members,
                                aid,
                                if x < 0 || y < 0 {
                                    GuildMemberUpdate::ClearPosition
                                } else {
                                    GuildMemberUpdate::Position { x: x as u16, y: y as u16 }
                                },
                            ),
                            ..g@
                        }),
                    ),
                    None => None,
                }
}

/// What `handle_guild_members` leaves and hands on.
pub open spec fn guild_members_step(a: App, b: App, members: Vec<GuildMember>, out: Seq<Effect>) -> bool {
    &&& b == (App { guild: b.guild, ..a })
    &&& guild_view(b.guild) == Some(
                    (GuildView {
                        members: with_position_names(
                            member_views(members@),
                            guild_or_empty(a.guild).positions,
                        ),
                        ..guild_or_empty(a.guild)
                    }),
                )
    &&& out =~= seq![Effect::LoadGuildMemberSprites]
}

/// What `handle_guild_positions` leaves and hands on.
pub open spec fn guild_positions_step(a: App, b: App, positions: Vec<GuildPosition>) -> bool {
    &&& b == (App { guild: b.guild, ..a })
    &&& ({
                    let g0 = guild_or_empty(a.guild);
                    let merged = merged_positions(g0.positions, position_views(positions@));
                    guild_view(b.guild) == Some(
                        (GuildView {
                            positions: merged,
                            members: with_position_names(g0.members, merged),
                            ..g0
                        }),
                    )
                })
}

/// What `handle_guild_ban_list` leaves and hands on.
pub open spec fn guild_ban_list_step(a: App, b: App, entries: Vec<GuildBanEntry>) -> bool {
    &&& b == (App { guild: b.guild, ..a })
    &&& guild_view(b.guild) == Some(
                    (GuildView { ban_list: ban_views(entries@), ..guild_or_empty(a.guild) }),
                )
}

/// What `handle_guild_relations` leaves and hands on.
pub open spec fn guild_relations_step(a: App, b: App, relations: Vec<GuildRelation>) -> bool {
    &&& b == (App { guild: b.guild, ..a })
    &&& guild_view(b.guild) == Some(
                    (GuildView {
                        relations: relation_views(relations@),
                        ..guild_or_empty(a.guild)
                    }),
                )
}

/// What `handle_guild_member_online` leaves and hands on.
pub open spec fn guild_member_online_step(a: App, b: App, aid: u32, gid: u32, online: bool, look: Option<MemberLook>, out: Seq<Effect>) -> bool {
    &&& b == (App { guild: b.guild, ..a })
    &&& ({
                    match a.guild {
                        None => b.guild is None && out.len() == 0,
                        Some(g0) => {
                            let i = first_member_either(g0@.members, aid, gid);
                            if i < 0 {
                                guild_view(b.guild) == Some(g0@) && out.len() == 0
                            } else {
                                let m = g0@.members[i];
                                let announce = m.online != online && m.name.len() > 0;
                                let n = ord(announce);
                                &&& guild_view(b.guild) == Some(
                                    (GuildView {
                                        members: members_after_login(g0@.members, i, aid, online, look),
                                        ..g0@
                                    }),
                                )
                                &&& out.len() == n + if look is Some { 2int } else { 0int }
                                &&& announce ==> is_chat(
                                    out[0],
                                    ChatKind::System,
                                    member_online_text(m.name == g0@.master_name, m.name, online),
                                )
                                &&& look is Some ==> out[n] == Effect::CloseWindow(
                                    WindowId::HomunculusInfo,
                                ) && out[n + 1] == Effect::CloseWindow(WindowId::HomunculusSkills)
                            }
                        },
                    }
                })
}

/// What `handle_guild_notice` gives.
pub open spec fn guild_notice_step(a: App, b: App, subject: String, body: String, lines: Seq<ChatLine>) -> bool {
    &&& (b == (App { guild: b.guild, ..a }))
    &&& (guild_view(b.guild) == Some(
                    (GuildView {
                        notice_subject: subject@,
                        notice_body: body@,
                        ..guild_or_empty(a.guild)
                    }),
                ))
    &&& ((lines).len() == (if subject@.len() > 0 {
                    1int
                } else {
                    0
                }) + (if body@.len() > 0 {
                    1int
                } else {
                    0
                }))
    &&& (subject@.len() > 0 ==> is_line((lines)[0], ChatKind::System, "[Guild] "@ + subject@))
    &&& (body@.len() > 0 ==> is_line((lines)[(lines).len() - 1], ChatKind::System, body@))
}

proof fn lemma_first_member_with_in_range(members: Seq<MemberView>, aid: u32, gid: u32)
    ensures
        -1 <= first_member_with(members, aid, gid) < members.len(),
    decreases members.len(),
{
    if members.len() > 0 {
        lemma_first_member_with_in_range(members.drop_first(), aid, gid);
    }
}

proof fn lemma_first_member_with(members: Seq<MemberView>, aid: u32, gid: u32, k: int)
    requires
        0 <= k < members.len(),
        members[k].aid == aid && members[k].gid == gid,
        forall|j: int| 0 <= j < k ==> !(members[j].aid == aid && members[j].gid == gid),
    ensures
        first_member_with(members, aid, gid) == k,
    decreases k,
{
    if k > 0 {
        lemma_first_member_with(members.drop_first(), aid, gid, k - 1);
    }
}

proof fn lemma_move_members_keep_ids(members: Seq<MemberView>, entries: Seq<(u32, u32, i32)>)
    ensures
        move_members(members, entries).len() == members.len(),
        forall|i: int|
            0 <= i < members.len() ==> (#[trigger] move_members(members, entries)[i]).aid
                == members[i].aid && move_members(members, entries)[i].gid == members[i].gid,
    decreases entries.len(),
{
    if entries.len() > 0 {
        let m1 = move_members(members, entries.drop_last());
        lemma_move_members_keep_ids(members, entries.drop_last());
        lemma_first_member_with_in_range(m1, entries.last().0, entries.last().1);
    }
}

proof fn lemma_position_name_for(positions: Seq<PositionView>, id: i32, k: int)
    requires
        0 <= k <= positions.len(),
        forall|j: int| 0 <= j < k ==> positions[j].id != id,
    ensures
        k < positions.len() && positions[k].id == id ==> position_name_for(positions, id)
            == positions[k].name,
        k == positions.len() ==> position_name_for(positions, id) == Seq::<char>::empty(),
    decreases k,
{
    if k > 0 {
        lemma_position_name_for(positions.drop_first(), id, k - 1);
    }
}

/// After a change of positions, the first member whose account and character
/// ids are those of the last entry holds that entry's position id, and the
/// position name of the first position with that id in the guild's table (an
/// empty name when the table has none); no member is added or lost.
pub proof fn lemma_member_takes_entry_position(
    a: App,
    b: App,
    entries: Vec<(u32, u32, i32)>,
    i: int,
)
    requires
        guild_member_positions_changed_step(a, b, entries),
        entries@.len() > 0,
        0 <= i < guild_or_empty(a.guild).members.len(),
        guild_or_empty(a.guild).members[i].aid == entries@.last().0,
        guild_or_empty(a.guild).members[i].gid == entries@.last().1,
        forall|j: int|
            0 <= j < i ==> !(guild_or_empty(a.guild).members[j].aid == entries@.last().0
                && guild_or_empty(a.guild).members[j].gid == entries@.last().1),
    ensures
        b.guild is Some,
        b.guild.unwrap()@.members.len() == guild_or_empty(a.guild).members.len(),
        b.guild.unwrap()@.members[i].position_id == entries@.last().2,
        forall|k: int|
            0 <= k < guild_or_empty(a.guild).positions.len() && guild_or_empty(
                a.guild,
            ).positions[k].id == entries@.last().2 && (forall|j: int|
                0 <= j < k ==> guild_or_empty(a.guild).positions[j].id != entries@.last().2)
                ==> b.guild.unwrap()@.members[i].position_name == guild_or_empty(
                a.guild,
            ).positions[k].name,
        (forall|k: int|
            0 <= k < guild_or_empty(a.guild).positions.len() ==> guild_or_empty(
                a.guild,
            ).positions[k].id != entries@.last().2) ==> b.guild.unwrap()@.members[i].position_name
            == Seq::<char>::empty(),
{
    let g = guild_or_empty(a.guild);
    let ms = g.members;
    let ps = g.positions;
    let es = entries@;
    let e = es.last();
    let m1 = move_members(ms, es.drop_last());
    lemma_move_members_keep_ids(ms, es.drop_last());
    lemma_move_members_keep_ids(ms, es);
    lemma_first_member_with(m1, e.0, e.1, i);
    let m2 = move_members(ms, es);
    assert(m2 == move_member(m1, e));
    assert(m2[i].position_id == e.2);
    let bg = b.guild.unwrap()@;
    assert(bg.members == with_position_names(m2, ps));
    assert(bg.members[i].position_name == position_name_for(ps, e.2));
    assert forall|k: int|
        0 <= k < ps.len() && ps[k].id == e.2 && (forall|j: int| 0 <= j < k ==> ps[j].id != e.2)
            implies bg.members[i].position_name == ps[k].name by {
        lemma_position_name_for(ps, e.2, k);
    }
    if forall|k: int| 0 <= k < ps.len() ==> ps[k].id != e.2 {
        lemma_position_name_for(ps, e.2, ps.len() as int);
    }
}

proof fn lemma_first_position_found(positions: Seq<PositionView>, id: i32)
    ensures
        -1 <= first_position(positions, id) < positions.len(),
        first_position(positions, id) >= 0 ==> positions[first_position(positions, id)].id == id,
        forall|j: int|
            0 <= j < positions.len() && (first_position(positions, id) < 0 || j < first_position(
                positions,
                id,
            )) ==> positions[j].id != id,
    decreases positions.len(),
{
    if positions.len() > 0 {
        lemma_first_position_found(positions.drop_first(), id);
        assert forall|j: int|
            0 <= j < positions.len() && (first_position(positions, id) < 0 || j < first_position(
                positions,
                id,
            )) implies positions[j].id != id by {
            if j > 0 {
                assert(positions[j] == positions.drop_first()[j - 1]);
            }
        }
    }
}

/// After position names arrive, the position the last of them names carries
/// that name (it is the first position with that id in the table), and every
/// member holding that position shows the name.
pub proof fn lemma_position_named_as_sent(a: App, b: App, names: Vec<(i32, String)>)
    requires
        guild_position_names_step(a, b, names),
        names@.len() > 0,
    ensures
        b.guild is Some,
        exists|k: int|
            0 <= k < b.guild.unwrap()@.positions.len() && b.guild.unwrap()@.positions[k].id
                == names@.last().0 && b.guild.unwrap()@.positions[k].name == names@.last().1@
                && forall|j: int| 0 <= j < k ==> b.guild.unwrap()@.positions[j].id != names@.last().0,
        forall|i: int|
            0 <= i < b.guild.unwrap()@.members.len() && b.guild.unwrap()@.members[i].position_id
                == names@.last().0 ==> b.guild.unwrap()@.members[i].position_name
                == names@.last().1@,
{
    let g0 = guild_or_empty(a.guild);
    let nv = name_views(names@);
    let id = names@.last().0;
    let n = names@.last().1@;
    assert(nv.last() == (id, n));
    let rest = named_positions(g0.positions, nv.drop_last());
    let ps = named_positions(g0.positions, nv);
    assert(ps == named_position(rest, id, n));
    lemma_first_position_found(rest, id);
    let f = first_position(rest, id);
    let k = if f >= 0 {
        f
    } else {
        rest.len() as int
    };
    assert(0 <= k < ps.len() && ps[k].id == id && ps[k].name == n);
    assert forall|j: int| 0 <= j < k implies ps[j].id != id by {
        assert(ps[j] == rest[j]);
    }
    lemma_position_name_for(ps, id, k);
    let bg = b.guild.unwrap()@;
    assert(bg.positions == ps);
    assert forall|i: int|
        0 <= i < bg.members.len() && bg.members[i].position_id == id implies bg.members[i].position_name
        == n by {
        assert(bg.members[i].position_name == position_name_for(ps, g0.members[i].position_id));
    }
}

/// A member other than ourselves who leaves is gone from the guild: no member
/// keeps that name and every other member stays.
pub proof fn lemma_departed_member_gone(
    a: App,
    b: App,
    name: String,
    reason: String,
    out: Seq<Effect>,
)
    requires
        guild_member_left_step(a, b, name, reason, out),
        name@ != a.character_name@,
        a.guild is Some,
    ensures
        b.guild is Some,
        forall|i: int|
            0 <= i < b.guild.unwrap()@.members.len() ==> b.guild.unwrap()@.members[i].name
                != name@,
        forall|m: MemberView|
            a.guild.unwrap()@.members.contains(m) && m.name != name@
                ==> #[trigger] b.guild.unwrap()@.members.contains(m),
{
    let ms = a.guild.unwrap()@.members;
    let mask = Seq::new(ms.len(), |i: int| ms[i].name != name@);
    let bm = b.guild.unwrap()@.members;
    assert(bm == select(ms, mask));
    lemma_select_members(ms, mask);
    assert forall|i: int| 0 <= i < bm.len() implies bm[i].name != name@ by {
        assert(bm.contains(bm[i]));
    }
    assert forall|m: MemberView| ms.contains(m) && m.name != name@ implies #[trigger] bm.contains(
        m,
    ) by {
        let j = choose|j: int| 0 <= j < ms.len() && ms[j] == m;
        assert(mask[j]);
    }
}

/// An expelled member other than ourselves is gone from the guild: no member
/// keeps the expelled name, every other member stays, and the name is added
/// last to the ban list with the reason given.
pub proof fn lemma_expelled_member_gone(
    a: App,
    b: App,
    name: String,
    reason: String,
    out: Seq<Effect>,
)
    requires
        guild_member_expelled_step(a, b, name, reason, out),
        name@ != a.character_name@,
        a.guild is Some,
    ensures
        b.guild is Some,
        forall|i: int|
            0 <= i < b.guild.unwrap()@.members.len() ==> b.guild.unwrap()@.members[i].name
                != name@,
        forall|m: MemberView|
            a.guild.unwrap()@.members.contains(m) && m.name != name@
                ==> #[trigger] b.guild.unwrap()@.members.contains(m),
        b.guild.unwrap()@.ban_list.len() == a.guild.unwrap()@.ban_list.len() + 1,
        b.guild.unwrap()@.ban_list.last().char_name == name@,
        b.guild.unwrap()@.ban_list.last().reason == reason@,
{
    let ms = a.guild.unwrap()@.members;
    let mask = Seq::new(ms.len(), |i: int| ms[i].name != name@);
    let bm = b.guild.unwrap()@.members;
    assert(bm == select(ms, mask));
    lemma_select_members(ms, mask);
    assert forall|i: int| 0 <= i < bm.len() implies bm[i].name != name@ by {
        assert(bm.contains(bm[i]));
    }
    assert forall|m: MemberView| ms.contains(m) && m.name != name@ implies #[trigger] bm.contains(
        m,
    ) by {
        let j = choose|j: int| 0 <= j < ms.len() && ms[j] == m;
        assert(mask[j]);
    }
}

/// What `handle_guild_create_result` gives.
pub open spec fn guild_create_result_step(result: u8, out: Seq<Effect>) -> bool {
    &&& (result == 0 ==> (out).len() == 2 && (out)[0] == Effect::OpenWindow(WindowId::Guild)
                    && is_chat((out)[1], ChatKind::System, spec_guild_create_text(result)))
    &&& (result != 0 ==> (out).len() == 1 && is_chat(
                    (out)[0],
                    ChatKind::System,
                    spec_guild_create_text(result),
                ))
}

/// What `handle_guild_join_result` gives.
pub open spec fn guild_join_result_step(answer: u8, out: Option<ChatLine>) -> bool {
    &&& (match spec_guild_join_text(answer) {
                    Some(t) => out matches Some(l) && is_line(l, ChatKind::System, t),
                    None => out is None,
                })
}

/// What `handle_guild_hostile_result` gives.
pub open spec fn guild_hostile_result_step(result: u8, line: ChatLine) -> bool {
    &&& (is_line(line, ChatKind::System, spec_guild_hostile_text(result)))
}

/// What `handle_guild_ally_result` gives.
pub open spec fn guild_ally_result_step(answer: u8, line: ChatLine) -> bool {
    &&& (is_line(line, ChatKind::System, spec_guild_ally_text(answer)))
}

} // verus!
