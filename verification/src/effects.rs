//! What the client's decisions hand to the rest of the program: chat lines,
//! dialogs, packets to send and changes to the renderer-side world.
use vstd::prelude::*;
use crate::effect_id::EffectId;
use crate::notice::{Rgb, TextColor};

verus! {

/// The chat-window channel a line goes to.
#[derive(Clone, Copy, Debug, PartialEq, Eq, Structural)]
pub enum ChatKind {
    System,
    Error,
    Notice,
    Guild,
    Party,
    /// A system line in the given colour.
    Colored(Rgb),
    /// Someone else's public chat.
    Public,
    /// The player's own public chat.
    Own,
    /// Public chat from a game master, in the colour kept for them.
    Gm,
}

/// One line for the chat window.
#[derive(Debug)]
pub struct ChatLine {
    pub kind: ChatKind,
    pub text: String,
}

/// A line of kind `kind` reading `text`.
pub open spec fn is_line(l: ChatLine, kind: ChatKind, text: Seq<char>) -> bool {
    l.kind == kind && l.text@ == text
}

impl ChatLine {
    /// A line reading the literal `text`.
    pub fn from_str(kind: ChatKind, text: &str) -> (l: ChatLine)
        ensures
            is_line(l, kind, text@),
    {
        ChatLine { kind, text: String::from_str(text) }
    }
}

/// Which ranking list to ask the server for.
#[derive(Clone, Copy, Debug, PartialEq, Eq, Structural)]
pub enum RankKind {
    Alchemist,
    Blacksmith,
    Taekwon,
}

/// Packets the decisions ask to be sent.
#[derive(Debug)]
pub enum Packet {
    /// Answer to a trade request: 3 accepts, 4 refuses.
    AckExchangeItem(u8),
    ReqGuildEmblemImg(u32),
    ReqGuildMenu(i32),
    JoinPartyReply { party_grid: u32, accept: bool },
    ReqJoinParty(u32),
    Chat(String),
    PartyChat(String),
    GuildChat(String),
    /// 2 sits down, 3 stands up.
    ActionRequest(u8),
    ChangeDirection { head_dir: u8, dir: u8 },
    RememberWarppoint,
    ExitRoom,
    LeaveParty,
    MakeParty(String),
    PartyInviteByName(String),
    MakeGuild { gid: u32, name: String },
    DisorganizeGuild(String),
    StatChange { status_id: u16, amount: u8 },
    LessEffect(bool),
    Config { kind: i32, value: i32 },
    Whisper { name: String, text: String },
    SettingWhisperPc { name: String, block: bool },
    SettingWhisperState(bool),
    Emotion(u8),
    UserCount,
    StatusGm(String),
    GiveMannerByName(String),
    Ranking(RankKind),
    MailGetList,
    /// Stop the repeat attack the server runs for us.
    CancelLockon,
    /// Ask the server to keep attacking `target_id` for us.
    AttackRepeat(u32),
    /// Close our vending shop.
    CloseStore,
    /// Enter the game through the map server at `index` of the accessible
    /// list, with the character in `slot`.
    SelectAccessibleMap { slot: u8, index: u8 },
    /// Answer to a friend request.
    AckAddFriend { req_aid: u32, req_gid: u32, accept: bool },
    /// Answer to a guild invitation.
    AnsJoinGuild { gdid: u32, accept: bool },
    /// Answer to an alliance offer.
    AllyGuild { aid: u32, accept: bool },
    /// Answer to an adoption offer.
    AdoptReply { father_aid: u32, mother_aid: u32, accept: bool },
    /// Answer to a marriage proposal.
    MarryReply { aid: u32, gid: u32, accept: bool },
    NpcClose(u32),
    /// A choice in an NPC menu; 255 cancels.
    NpcMenuSelect { npc_id: u32, choice: u8 },
    /// Propose a trade to an account.
    ReqExchangeItem(u32),
    GuildNotice { gdid: u32, subject: String, body: String },
    /// Leave our guild, sent with our account id for both ids.
    LeaveGuild { gdid: u32, account: i32, character: i32, reason: String },
    /// Expel a member from our guild.
    BanGuild { gdid: u32, account: i32, character: i32, reason: String },
    ReqJoinGuild { target_aid: u32, my_aid: u32, my_gid: u32 },
    ReqAllyGuild { target_aid: u32, my_aid: u32, my_gid: u32 },
    DeleteRelatedGuild { gdid: u32, relation: i32 },
}

/// The session transitions whose resets the rest of the program performs.
#[derive(Clone, Copy, Debug, PartialEq, Eq, Structural)]
pub enum SessionChange {
    MapChange,
    Logout,
    Death,
    Resurrect,
}

/// Windows the decisions open, close or toggle.
#[derive(Clone, Copy, Debug, PartialEq, Eq, Structural)]
pub enum WindowId {
    PartyFriends,
    Guild,
    NpcDialog,
    StoragePassword,
    ChatRoomCreate,
    Emotion,
    HomunculusInfo,
    HomunculusSkills,
    MercenaryInfo,
    MercenarySkills,
}

/// Operations on the item containers and trade state that the rest of the
/// program owns.
#[derive(Debug)]
pub enum ItemOp {
    CartRemove { index: u16, count: i16 },
    CartCountInfo { cur_weight: i32, max_weight: i32, cur_count: i16, max_count: i16 },
    CartClear,
    CartClose,
    CharacterCartDesign(Option<u8>),
    StorageSetCounts { cur: i16, max: i16 },
    StorageOpenWithPending { cur: i16, max: i16 },
    StorageRemove { index: u16, amount: i16 },
    StorageClear,
    InventoryOpen,
    TradeBegin { name: String, aid: u32, level: i16, my_level: i16 },
    TradeSetOtherZeny(i64),
    TradeAddOtherItem { item_id: u16, item_type: u8, count: i16, is_identified: bool, is_damaged: bool, refining_level: u8, slot: [u16; 4] },
    TradeTakePendingAdd,
    TradeCommitAdd,
    TradeLock(u8),
    TradeReset,
    /// The inventory item at this index has been appraised.
    ApplyIdentify(u16),
    /// The inventory item at `index` is now refined to `refine`.
    SetRefine { index: u16, refine: u8 },
    /// `count` of the inventory item at `index` are gone.
    SubtractItem { index: u16, count: i16 },
    /// The card `card_item_id` is now slotted in the equipment at `equip_index`.
    InsertCard { equip_index: u16, card_item_id: u16 },
}

/// What a confirmation dialog does when the player accepts (or declines).
#[derive(Clone, Copy, Debug, PartialEq, Eq, Structural)]
pub enum ConfirmAction {
    /// Answer a party invitation.
    JoinParty { party_grid: u32 },
    /// Answer a friend request.
    FriendRequest { req_aid: u32, req_gid: u32 },
    /// Open the dialog that sets a new storage password.
    SetStoragePassword,
    /// Answer an invitation into guild `gdid`.
    GuildInvite { gdid: u32 },
    /// Answer the alliance offer of the guild whose master is account `aid`.
    GuildAlly { aid: u32 },
    /// Answer the adoption offer kept as pending.
    Adoption,
    /// Answer the marriage proposal kept as pending.
    Marriage,
    /// Leave the guild, if agreed.
    GuildLeave,
    /// Cancel a guild relation, if agreed.
    DeleteGuildRelation { gdid: u32, relation: i32 },
}

/// Operations on the storage-password window.
#[derive(Debug)]
pub enum PasswordOp {
    /// Open it to enter the password.
    OpenEnter,
    /// Open it to set a new password.
    OpenSetNew,
    /// Open it to enter the password, unless it is open already.
    EnsureOpenEnter,
    Close,
    /// Show this message in it.
    Message(String),
}

/// The screens of the client.
#[derive(Clone, Copy, Debug, PartialEq, Eq, Structural)]
pub enum Screen {
    Login,
    ServerSelect,
    CharacterSelect,
    InGame,
}

/// Operations on the mailbox the rest of the program keeps.
#[derive(Debug)]
pub enum MailOp {
    /// Take the mail out of the inbox and keep the page in range.
    RemoveFromInbox(u32),
    /// Close the mail being read.
    CloseOpened,
    /// The opened mail's zeny and item were taken.
    ClearOpenedAttachment,
    /// The item waiting to be attached is attached.
    AttachPending,
    /// The item waiting to be attached is dropped.
    DropPending,
    /// The mail being sent has been answered.
    SendFinished,
    /// Show the inbox.
    SwitchToInbox,
    /// Forget the mailbox contents.
    Clear,
    /// The mailbox window is open on the inbox.
    OpenInbox,
}

/// Everything a decision hands on.
#[derive(Debug)]
pub enum Effect {
    Chat(ChatLine),
    /// A line of the message table, formatted with `args`; dropped when the
    /// table has no such line.
    MsgLine { msg_id: u16, args: Vec<String>, color: TextColor },
    /// A notice from the message table, or `fallback` when the table has no
    /// such line.
    MsgNotice { msg_id: u16, args: Vec<String>, fallback: String },
    /// A dialog with the message-table line `msg_id`, if the table has one.
    MsgDialog(u16),
    /// A dialog showing `text` with only a confirm button.
    Dialog(String),
    RememberWhisper(String),
    WhisperIn { sender: String, message: String },
    WhisperOut { name: String, message: String },
    ChatBubble { gid: u32, text: String },
    /// Show emotion `emotion` over `gid` for as long as its animation runs.
    Emote { gid: u32, emotion: u8 },
    /// A line for the chat-room window, in the colour of our own lines when
    /// `own`, else in that of the others'.
    ChatRoomLine { text: String, own: bool },
    Send(Packet),
    OpenWindow(WindowId),
    CloseWindow(WindowId),
    ToggleWindow(WindowId),
    Items(ItemOp),
    Mail(MailOp),
    ResetTradeInput,
    /// Drop the effects the effect holder keeps for an entity.
    RemoveEntityEffects(u32),
    /// Drop the effect spawned under `key`.
    Despawn(u32),
    /// Spawn `id` on `gid` under `key`, `repeat` times where it repeats.
    SpawnKeyed { id: EffectId, gid: u32, key: u32, repeat: u8 },
    /// Play the sound of a detection aura coming up on `gid`.
    DetectSound(u32),
    SetEntityHp { gid: u32, hp: u32, max_hp: u32 },
    SetCharacterHp { hp: u32, max_hp: u32 },
    /// Pin `gid` in place and stop its movement.
    Root(u32),
    /// Let `gid` move again and drop its forced animation.
    Unroot(u32),
    /// The player's refused action is undone: its attack animation stops
    /// and its cast effects go.
    ActionFailed,
    SetCartType { gid: u32, design: Option<u8> },
    SpawnCartVisual { gid: u32, cart: u8 },
    DespawnCartVisual(u32),
    Revive(u32),
    RefreshLevelAura(u32),
    RefreshBossAura(u32),
    RefreshPkRankAura(u32),
    ResetPkRanks,
    Session(SessionChange),
    /// Drop the actors of the map: entities, effects, items on the ground.
    ClearMapActors,
    /// Leave the current map and its inventory, record `map_name` on the
    /// login session, and connect to the map server at `ip`:`port`.
    SwitchZone { map_name: String, ip: u32, port: i16 },
    RemoveSkillUnitModel(u32),
    /// Forget the hit queue, graffiti and talk-box bubble of a skill unit.
    ForgetSkillUnit(u32),
    SetCellType { x: i32, y: i32, cell_type: i32 },
    PreloadCutin(String),
    ApplyGuildEmblemToModel(u32),
    RequestGuildEmblem { gdid: u32, version: i32 },
    ClearGuildHeadSprites,
    /// Load the sprites of the guild's members for the guild window.
    LoadGuildMemberSprites,
    /// Record our guild identity on the player's entity.
    SetPlayerGuild { gdid: u32, emblem_version: i32 },
    FriendSetState { aid: u32, gid: u32, online: bool },
    FriendRemove { aid: u32, gid: u32 },
    QuestRemove(u32),
    QuestSetActive { quest_id: u32, active: bool },
    ApplyNpcBuyList { npc_id: u32, fallback_npc_id: u32, items: Vec<(u16, i32, i32, u8)> },
    ApplyNpcSellList { npc_id: u32, fallback_npc_id: u32, sell_items: Vec<(i16, i32, i32)> },
    NpcBuyResult(u8),
    NpcSellResult(u8),
    OpenVendingSetup(usize),
    RecordShopSale { index: i16, count: i16 },
    RecordOwnSale { index: i16, count: i16 },
    OpenMakeItemWindow(Vec<u16>),
    PetCaptureTargeting,
    PetCaptureResolved(bool),
    PetFedAct,
    SaveConfig,
    CaptureWindowState,
    ReconnectCharServer,
    ApplyGraphicsSettings,
    SetVolumes,
    ToggleBattleMode,
    ToggleLightmap,
    OpenCompanionAiTab(u8),
    /// A slash command for the command parser.
    SlashCommand(String),
    /// The player faces `direction` with its head at `head_dir`.
    SetPlayerFacing { direction: u8, head_dir: u8 },
    /// Count a head shake toward the sitting regeneration bonus.
    RecordDoridoriFlip,
    SetBgmVolume(u8),
    SetSfxVolume(u8),
    /// List the commands with their descriptions.
    ListCommandHelp,
    /// Walk toward cell (`cell_x`, `cell_y`): the path over the map's cells is found
    /// by the caller, and the move is asked for when there is one.
    WalkTo { cell_x: u16, cell_y: u16 },
    /// Ask the player to confirm; `action` runs on the answer.
    Confirm { text: String, action: ConfirmAction },
    /// Add or update a friend, online.
    FriendUpsert { aid: u32, gid: u32, name: String },
    StoragePassword(PasswordOp),
    /// Spawn a one-shot effect on the local player.
    SpawnOnPlayer(EffectId),
    /// A dialog on the account screens.
    AccountDialog(String),
    /// The dialog that tells the player the connection dropped.
    DisconnectedDialog(String),
    /// Close the connection to the server.
    Disconnect,
    /// Leave the program.
    Exit,
    EnterScreen(Screen),
    /// Record the PvP rank of an entity.
    SetPkRank { gid: u32, rank: i32, total: i32 },
    /// Play a sound at the local player.
    PlayerSound(String),
    /// Our shop is open under `name`: its window opens, the setup window
    /// closes and the board goes up over the player.
    OpenOwnShop { name: String },
    /// Our shop is closed: its window and the board over the player go.
    CloseOwnShop,
    /// The card-insert dialog closes and no card is waiting to be slotted.
    CloseCardInsert,
    /// Give the player the hand look it resolved to, and rebuild its sprite.
    SetPlayerHandLook { gid: u32, weapon: u32, weapon_look: u32, shield: u32 },
}

/// `e` is a chat line of kind `kind` reading `text`.
pub open spec fn is_chat(e: Effect, kind: ChatKind, text: Seq<char>) -> bool {
    e matches Effect::Chat(l) && is_line(l, kind, text)
}

/// `e` is the message-table line `msg_id` without arguments, in `color`.
pub open spec fn is_msg_line(e: Effect, msg_id: u16, color: TextColor) -> bool {
    e matches Effect::MsgLine { msg_id: m, args, color: c } && m == msg_id && c == color
        && args@.len() == 0
}

/// `e` is a dialog reading `text`.
pub open spec fn is_dialog(e: Effect, text: Seq<char>) -> bool {
    e matches Effect::Dialog(t) && t@ == text
}

/// `e` sends a chat packet of kind `kind` whose text is `text`.
pub open spec fn is_text_packet(e: Effect, kind: int, text: Seq<char>) -> bool {
    match e {
        Effect::Send(Packet::Chat(t)) => kind == 0 && t@ == text,
        Effect::Send(Packet::PartyChat(t)) => kind == 1 && t@ == text,
        Effect::Send(Packet::GuildChat(t)) => kind == 2 && t@ == text,
        _ => false,
    }
}

/// A chat line of kind `kind` reading the literal `text`.
pub fn chat(kind: ChatKind, text: &str) -> (e: Effect)
    ensures
        is_chat(e, kind, text@),
{
    Effect::Chat(ChatLine::from_str(kind, text))
}

/// A chat line of kind `kind` reading `text`.
pub fn chat_string(kind: ChatKind, text: String) -> (e: Effect)
    ensures
        is_chat(e, kind, text@),
{
    Effect::Chat(ChatLine { kind, text })
}

/// The message-table line `msg_id`, without arguments, in `color`.
pub fn msg_line(msg_id: u16, color: TextColor) -> (e: Effect)
    ensures
        is_msg_line(e, msg_id, color),
{
    Effect::MsgLine { msg_id, args: Vec::new(), color }
}

/// The effect `a` alone.
pub fn one(a: Effect) -> (v: Vec<Effect>)
    ensures
        v@ == seq![a],
{
    let mut v: Vec<Effect> = Vec::new();
    v.push(a);
    v
}

/// The effects `a`, `b`, in that order.
pub fn two(a: Effect, b: Effect) -> (v: Vec<Effect>)
    ensures
        v@ == seq![a, b],
{
    let mut v: Vec<Effect> = Vec::new();
    v.push(a);
    v.push(b);
    v
}

/// The effects `a`, `b`, `c`, in that order.
pub fn three(a: Effect, b: Effect, c: Effect) -> (v: Vec<Effect>)
    ensures
        v@ == seq![a, b, c],
{
    let mut v: Vec<Effect> = Vec::new();
    v.push(a);
    v.push(b);
    v.push(c);
    v
}

/// The effects `a`, `b`, `c`, `d`, in that order.
pub fn four(a: Effect, b: Effect, c: Effect, d: Effect) -> (v: Vec<Effect>)
    ensures
        v@ == seq![a, b, c, d],
{
    let mut v: Vec<Effect> = Vec::new();
    v.push(a);
    v.push(b);
    v.push(c);
    v.push(d);
    v
}

} // verus!
