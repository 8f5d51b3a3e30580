//! What the player types into the chat box: plain, party and guild chat,
//! and the slash commands.
use vstd::prelude::*;
use vstd::string::*;
use crate::app::{App, Pending, Prefs, Settings};
use crate::effects::{ChatKind, ChatLine, Effect, Packet, RankKind, WindowId, is_chat, is_text_packet};
use crate::text::{chars_of, dec, trim_start, trim_start_of, views};

verus! {

/// A slash command, as the command parser reads it.
#[derive(Debug)]
pub enum ChatCommand {
    Sit,
    Stand,
    Doridori,
    BingBing,
    BangBang,
    Where,
    Memo,
    ExitRoom,
    LeaveParty,
    MakeParty(String),
    InviteParty(String),
    MakeGuild(String),
    BreakGuild(String),
    StatUp { status_id: u16, amount: u32 },
    ToggleEffect,
    ToggleFog,
    ToggleLightmap,
    ToggleAura,
    ToggleNoTrade,
    RefuseParty(bool),
    ToggleNoShift,
    ToggleNoCtrl,
    ToggleBgm,
    ToggleSound,
    SetBgmVolume(u8),
    SetSfxVolume(u8),
    ToggleShowExp,
    ToggleHidePublicChat,
    BattleMode,
    Ranking(RankKind),
    ToggleMiss,
    ToggleMonsterSnap,
    ToggleSkillSnap,
    ToggleItemSnap,
    ToggleEqOpen,
    GuildChat(String),
    WhisperFriends(String),
    WhisperBlock { name: String, block: bool },
    WhisperBlockAll(bool),
    WhisperListBlocked,
    OpenChatCreate,
    OpenEmotionList,
    OpenCompanionAi { mercenary: bool },
    Unsupported,
    Emote(u8),
    UserCount,
    CheckStatus(String),
    ReportManner(String),
    ToggleShowPing,
    ToggleShowFps,
    Help,
    Outdated,
    Unknown,
}

/// How the local player stands, for the commands that move or report it.
#[derive(Clone, Copy, Debug, PartialEq, Eq, Structural)]
pub struct PlayerPose {
    /// Hiding: sitting and standing are blocked.
    pub hidden: bool,
    pub sitting: bool,
    pub head_dir: u8,
    /// Body direction, 0 to 7.
    pub direction: u8,
    pub cell_x: u16,
    pub cell_y: u16,
}

/// What the commands read of the world around the player.
#[derive(Debug)]
pub struct CommandContext {
    /// The local player, once in a map.
    pub player: Option<PlayerPose>,
    /// The current map's name, once in a map.
    pub current_map: Option<String>,
    /// The name of the selected character.
    pub selected_name: Option<String>,
    /// Whether the inventory holds an Emperium.
    pub has_emperium: bool,
    /// The names of the friends online, in list order.
    pub online_friends: Vec<String>,
}

/// The name chat lines are signed with.
pub open spec fn signature(ctx: CommandContext) -> Seq<char> {
    match ctx.selected_name {
        Some(n) => n@,
        None => "Unknown"@,
    }
}

/// How a status line reports a setting.
pub open spec fn on_off(b: bool) -> Seq<char> {
    if b {
        "ON"@
    } else {
        "OFF"@
    }
}

/// The names joined with `, `.
pub open spec fn joined(names: Seq<Seq<char>>) -> Seq<char>
    decreases names.len(),
{
    if names.len() == 0 {
        Seq::empty()
    } else if names.len() == 1 {
        names[0]
    } else {
        joined(names.drop_last()) + ", "@ + names.last()
    }
}

/// Settings after a change that went through the graphics-settings path,
/// which also hands the party-invite setting to the preferences.
pub open spec fn synced_prefs(p: Prefs, s: Settings) -> Prefs {
    Prefs { refuse_party_invite: s.refuse_party_invite, ..p }
}

/// The player's body turned `step` eighths clockwise, head forward, and the
/// server told; nothing when there is no player.
#[verifier::opaque]
pub open spec fn turned(ctx: CommandContext, step: int, out: Seq<Effect>) -> bool {
    match ctx.player {
        Some(p) => {
            let d = ((p.direction as int + step) % 8) as u8;
            out == seq![
                Effect::SetPlayerFacing { direction: d, head_dir: 0 },
                Effect::Send(Packet::ChangeDirection { head_dir: 0, dir: d }),
            ]
        },
        None => out.len() == 0,
    }
}

/// What a line typed into the chat box hands on: nothing for an empty line,
/// the line itself for the command parser when it starts with `/`, a party
/// or guild chat packet for `%` and `$` (the rest trimmed at its start), or
/// a public chat packet; chat is signed with our name.
pub open spec fn chat_reply(a: App, message: Seq<char>, ctx: CommandContext, out: Seq<Effect>) -> bool {
    if message.len() == 0 {
        out.len() == 0
    } else if message[0] == '/' {
        out.len() == 1 && (out[0] matches Effect::SlashCommand(c) && c@ == message)
    } else if message[0] == '%' {
        out.len() == 1 && if a.party is None {
            is_chat(out[0], ChatKind::System, "You are not in a party."@)
        } else {
            is_text_packet(out[0], 1, signature(ctx) + " : "@ + trim_start(message.drop_first()))
        }
    } else if message[0] == '$' {
        out.len() == 1 && if a.guild is None {
            is_chat(out[0], ChatKind::System, "You are not in a guild."@)
        } else {
            is_text_packet(out[0], 2, signature(ctx) + " : "@ + trim_start(message.drop_first()))
        }
    } else {
        out.len() == 1 && is_text_packet(out[0], 0, signature(ctx) + " : "@ + message)
    }
}

pub(crate) fn signed_line(ctx: &CommandContext, text: &str) -> (s: String)
    ensures
        s@ == signature(*ctx) + " : "@ + text@,
{
    let mut s = match &ctx.selected_name {
        Some(n) => n.clone(),
        None => String::from_str("Unknown"),
    };
    s.append(" : ");
    s.append(text);
    s
}

pub(crate) fn join_names(names: &Vec<String>) -> (s: String)
    ensures
        s@ == joined(views(names@)),
{
    let mut s = String::new();
    let mut i: usize = 0;
    while i < names.len()
        invariant
            i <= names@.len(),
            s@ == joined(views(names@.subrange(0, i as int))),
        decreases names@.len() - i,
    {
        let ghost prev = views(names@.subrange(0, i as int));
        assert(views(names@.subrange(0, i + 1)).drop_last() =~= prev);
        assert(views(names@.subrange(0, i + 1)).last() == names@[i as int]@);
        if i > 0 {
            s.append(", ");
        } else {
            assert(prev =~= Seq::<Seq<char>>::empty());
        }
        s.append(names[i].as_str());
        i = i + 1;
    }
    assert(names@.subrange(0, names@.len() as int) =~= names@);
    s
}

pub(crate) fn status_line(prefix: &str, on: bool) -> (e: Effect)
    ensures
        is_chat(e, ChatKind::System, prefix@ + on_off(on)),
{
    let mut s = String::from_str(prefix);
    s.append(if on {
        "ON"
    } else {
        "OFF"
    });
    Effect::Chat(ChatLine { kind: ChatKind::System, text: s })
}

pub(crate) fn system(text: &str) -> (e: Effect)
    ensures
        is_chat(e, ChatKind::System, text@),
{
    Effect::Chat(ChatLine::from_str(ChatKind::System, text))
}

impl App {
    /// A line typed into the chat box. Slash commands go to the command
    /// parser; `%` sends to the party and `$` to the guild (when we are in
    /// one), the text after the prefix trimmed at its start; anything else is
    /// public chat. Lines are signed with the character's name.
    pub fn run_chat_command(&self, message: &str, ctx: &CommandContext) -> (out: Vec<Effect>)
        ensures
            chat_reply(*self, message@, *ctx, out@),
    {
        let v = chars_of(message);
        if v.len() == 0 {
            return Vec::new();
        }
        let first = v[0];
        assert(v@.subrange(1, v@.len() as int) =~= message@.drop_first());
        if first == '/' {
            return vec![Effect::SlashCommand(String::from_str(message))];
        }
        if first == '%' {
            if self.party.is_none() {
                return vec![system("You are not in a party.")];
            }
            let rest = trim_start_of(&v, 1);
            return vec![Effect::Send(Packet::PartyChat(signed_line(ctx, rest.as_str())))];
        }
        if first == '$' {
            if self.guild.is_none() {
                return vec![system("You are not in a guild.")];
            }
            let rest = trim_start_of(&v, 1);
            return vec![Effect::Send(Packet::GuildChat(signed_line(ctx, rest.as_str())))];
        }
        vec![Effect::Send(Packet::Chat(signed_line(ctx, message)))]
    }

    /// Runs the chat line bound to shortcut `slot`, if one is bound there.
    pub fn trigger_shortcut(
        &self,
        shortcuts: &Vec<String>,
        slot: usize,
        ctx: &CommandContext,
    ) -> (out: Vec<Effect>)
        ensures
            if slot < shortcuts@.len() && shortcuts@[slot as int]@.len() > 0 {
                chat_reply(*self, shortcuts@[slot as int]@, *ctx, out@)
            } else {
                out@.len() == 0
            },
    {
        if slot < shortcuts.len() && !shortcuts[slot].as_str().is_empty() {
            self.run_chat_command(shortcuts[slot].as_str(), ctx)
        } else {
            Vec::new()
        }
    }

    /// Turns the player's body `step` eighths clockwise, head facing
    /// forward, and tells the server.
    pub fn turn_body(ctx: &CommandContext, step: u8) -> (out: Vec<Effect>)
        requires
            step < 8,
        ensures
            turned(*ctx, step as int, out@),
    {
        proof {
            reveal(turned);
        }
        match ctx.player {
            Some(p) => {
                let dir: u8 = ((p.direction as u16 + step as u16) % 8) as u8;
                vec![
                    Effect::SetPlayerFacing { direction: dir, head_dir: 0 },
                    Effect::Send(Packet::ChangeDirection { head_dir: 0, dir }),
                ]
            },
            None => Vec::new(),
        }
    }
}

} // verus!
