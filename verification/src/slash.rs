//! The slash commands: what each one changes of the client's state and what
//! it hands on.
use vstd::prelude::*;
use crate::app::{App, Pending, Prefs, Settings};
use crate::command::{
    ChatCommand, CommandContext, joined, join_names, on_off, signature, signed_line, status_line,
    synced_prefs, turned,
};
use crate::effects::{
    ChatKind, ChatLine, Effect, Packet, WindowId, four, is_chat, is_text_packet, one, three, two,
};
use crate::text::{dec, first_word, push_decimal, views};

verus! {

// The shapes of what a command hands on. They are opaque so that a proof
// about one command does not unfold those of all the others.

/// A single system line reading `text`.
#[verifier::opaque]
pub open spec fn says(out: Seq<Effect>, text: Seq<char>) -> bool {
    out.len() == 1 && is_chat(out[0], ChatKind::System, text)
}

/// Only the packet `p` goes out.
#[verifier::opaque]
pub open spec fn sends(out: Seq<Effect>, p: Packet) -> bool {
    out == seq![Effect::Send(p)]
}

/// The settings are applied and saved, then the new state is reported.
#[verifier::opaque]
pub open spec fn graphics_reply(out: Seq<Effect>, prefix: Seq<char>, on: bool) -> bool {
    &&& out.len() == 3
    &&& out[0] == Effect::ApplyGraphicsSettings
    &&& out[1] == Effect::SaveConfig
    &&& is_chat(out[2], ChatKind::System, prefix + on_off(on))
}

/// The skill-effect toggle: the settings are applied and saved, the server is
/// told whether to send fewer effects, and the new state is reported.
#[verifier::opaque]
pub open spec fn effects_reply(out: Seq<Effect>, show: bool) -> bool {
    &&& out.len() == 4
    &&& out[0] == Effect::ApplyGraphicsSettings
    &&& out[1] == Effect::SaveConfig
    &&& out[2] == Effect::Send(Packet::LessEffect(!show))
    &&& is_chat(out[3], ChatKind::System, "Skill effects: "@ + on_off(show))
}

/// `first` (if any) is handed on, the volumes are applied and saved, then
/// `text` is reported.
#[verifier::opaque]
pub open spec fn volume_reply(out: Seq<Effect>, first: Option<Effect>, text: Seq<char>) -> bool {
    let rest = match first {
        Some(e) => {
            &&& out.len() >= 1
            &&& out[0] == e
        },
        None => true,
    };
    let k: int = if first is Some { 1 } else { 0 };
    &&& rest
    &&& out.len() == k + 3
    &&& out[k] == Effect::SetVolumes
    &&& out[k + 1] == Effect::SaveConfig
    &&& is_chat(out[k + 2], ChatKind::System, text)
}

/// The configuration is saved, then the new state is reported.
#[verifier::opaque]
pub open spec fn saved_reply(out: Seq<Effect>, prefix: Seq<char>, on: bool) -> bool {
    &&& out.len() == 2
    &&& out[0] == Effect::SaveConfig
    &&& is_chat(out[1], ChatKind::System, prefix + on_off(on))
}

/// The server is told whether others may see our equipment, and the new state
/// is reported.
#[verifier::opaque]
pub open spec fn equip_reply(out: Seq<Effect>, open: bool) -> bool {
    &&& out.len() == 2
    &&& out[0] == Effect::Send(Packet::Config { kind: 0, value: if open { 1 } else { 0 } })
    &&& is_chat(out[1], ChatKind::System, "Equipment visible to others: "@ + on_off(open))
}

/// Sitting down (or standing up when already sitting), unless hidden.
#[verifier::opaque]
pub open spec fn sit_reply(ctx: CommandContext, out: Seq<Effect>) -> bool {
    match ctx.player {
        Some(pl) => if pl.hidden {
            out.len() == 0
        } else {
            out == seq![Effect::Send(Packet::ActionRequest(if pl.sitting { 3u8 } else { 2u8 }))]
        },
        None => out.len() == 0,
    }
}

/// Standing up, when sitting and not hidden.
#[verifier::opaque]
pub open spec fn stand_reply(ctx: CommandContext, out: Seq<Effect>) -> bool {
    match ctx.player {
        Some(pl) => if !pl.hidden && pl.sitting {
            out == seq![Effect::Send(Packet::ActionRequest(3u8))]
        } else {
            out.len() == 0
        },
        None => out.len() == 0,
    }
}

/// A head shake: the head turns to the other side; while sitting, the shake
/// counts toward the regeneration bonus.
#[verifier::opaque]
pub open spec fn doridori_reply(ctx: CommandContext, out: Seq<Effect>) -> bool {
    match ctx.player {
        Some(pl) => {
            let h: u8 = if pl.head_dir == 1 { 2 } else { 1 };
            let facing = Effect::SetPlayerFacing { direction: pl.direction, head_dir: h };
            let told = Effect::Send(Packet::ChangeDirection { head_dir: h, dir: pl.direction });
            out == if pl.sitting {
                seq![facing, told, Effect::RecordDoridoriFlip]
            } else {
                seq![facing, told]
            }
        },
        None => out.len() == 0,
    }
}

/// Where the player stands, as `map.gat (x, y)`.
#[verifier::opaque]
pub open spec fn where_reply(ctx: CommandContext, out: Seq<Effect>) -> bool {
    match (ctx.current_map, ctx.player) {
        (Some(m), Some(pl)) => out.len() == 1 && is_chat(
            out[0],
            ChatKind::System,
            m@ + ".gat ("@ + dec(pl.cell_x as nat) + ", "@ + dec(pl.cell_y as nat) + ")"@,
        ),
        _ => out.len() == 1 && is_chat(out[0], ChatKind::System, "You are not in a map yet."@),
    }
}

/// A single chat packet of kind `kind` (see `is_text_packet`) with `text`.
#[verifier::opaque]
pub open spec fn chat_packet(out: Seq<Effect>, kind: int, text: Seq<char>) -> bool {
    out.len() == 1 && is_text_packet(out[0], kind, text)
}

/// A whisper of `text` to each name, in order.
#[verifier::opaque]
pub open spec fn whispers(out: Seq<Effect>, names: Seq<String>, text: String) -> bool {
    &&& out.len() == names.len()
    &&& forall|i: int|
        0 <= i < out.len() ==> #[trigger] out[i] == Effect::Send(
            Packet::Whisper { name: names[i], text },
        )
}

/// The help header, then the list of commands.
#[verifier::opaque]
pub open spec fn help_reply(out: Seq<Effect>) -> bool {
    &&& out.len() == 2
    &&& is_chat(out[0], ChatKind::System, "Commands:"@)
    &&& out[1] == Effect::ListCommandHelp
}

/// A settings change that goes through the graphics-settings path: the new
/// settings, with the party-invite setting handed on to the preferences.
pub open spec fn with_settings(a: App, s: Settings) -> App {
    App { settings: s, prefs: synced_prefs(a.prefs, s), ..a }
}

/// The state with new preferences.
pub open spec fn with_prefs(a: App, p: Prefs) -> App {
    App { prefs: p, ..a }
}

/// The state with new pending requests.
pub open spec fn with_pending(a: App, p: Pending) -> App {
    App { pending: p, ..a }
}

/// The state a graphics-settings command leaves.
#[verifier::opaque]
pub open spec fn graphics_after(a: App, cmd: ChatCommand) -> App {
    let s = a.settings;
    match cmd {
        ChatCommand::ToggleEffect => with_settings(
            a,
            Settings { show_skill_effects: !s.show_skill_effects, ..s },
        ),
        ChatCommand::ToggleFog => with_settings(a, Settings { fog: !s.fog, ..s }),
        ChatCommand::ToggleAura => with_settings(
            a,
            Settings { show_level_aura: !s.show_level_aura, ..s },
        ),
        ChatCommand::ToggleNoTrade => with_settings(
            a,
            Settings { refuse_trade: !s.refuse_trade, ..s },
        ),
        ChatCommand::RefuseParty(r) => with_settings(a, Settings { refuse_party_invite: r, ..s }),
        _ => a,
    }
}

/// The state a preference command leaves.
#[verifier::opaque]
pub open spec fn prefs_after(a: App, cmd: ChatCommand) -> App {
    let p = a.prefs;
    match cmd {
        ChatCommand::ToggleNoShift => with_prefs(a, Prefs { noshift_mode: !p.noshift_mode, ..p }),
        ChatCommand::ToggleNoCtrl => with_prefs(a, Prefs { noctrl_mode: !p.noctrl_mode, ..p }),
        ChatCommand::ToggleShowExp => with_prefs(a, Prefs { show_exp: !p.show_exp, ..p }),
        ChatCommand::ToggleHidePublicChat => with_prefs(
            a,
            Prefs { hide_public_chat: !p.hide_public_chat, ..p },
        ),
        ChatCommand::ToggleMiss => with_prefs(a, Prefs { show_miss: !p.show_miss, ..p }),
        ChatCommand::ToggleEqOpen => with_prefs(a, Prefs { equip_open: !p.equip_open, ..p }),
        ChatCommand::ToggleShowPing => with_prefs(a, Prefs { show_ping: !p.show_ping, ..p }),
        ChatCommand::ToggleShowFps => with_prefs(a, Prefs { show_fps: !p.show_fps, ..p }),
        _ => a,
    }
}

/// The state a sound or cursor-snap command leaves; the volume levels
/// themselves are kept with the rest of the configuration.
#[verifier::opaque]
pub open spec fn sound_after(a: App, cmd: ChatCommand) -> App {
    let s = a.settings;
    match cmd {
        ChatCommand::ToggleBgm => App {
            settings: Settings { bgm_enabled: !s.bgm_enabled, ..s },
            ..a
        },
        ChatCommand::ToggleSound => App {
            settings: Settings { sfx_enabled: !s.sfx_enabled, ..s },
            ..a
        },
        ChatCommand::ToggleMonsterSnap => App {
            settings: Settings { snap_monster_no_skill: !s.snap_monster_no_skill, ..s },
            ..a
        },
        ChatCommand::ToggleSkillSnap => App {
            settings: Settings { snap_monster_skill: !s.snap_monster_skill, ..s },
            ..a
        },
        ChatCommand::ToggleItemSnap => App {
            settings: Settings { snap_item: !s.snap_item, ..s },
            ..a
        },
        _ => a,
    }
}

/// The state a party, guild or whisper command leaves: the request it waits
/// on, if any.
#[verifier::opaque]
pub open spec fn social_after(a: App, cmd: ChatCommand) -> App {
    match cmd {
        ChatCommand::WhisperBlock { name, block } => if name@.len() == 0 {
            a
        } else {
            with_pending(a, Pending { whisper_block: Some((name, block)), ..a.pending })
        },
        ChatCommand::CheckStatus(name) => with_pending(
            a,
            Pending { gm_check: Some(name), ..a.pending },
        ),
        _ => a,
    }
}

/// The client state a slash command leaves behind.
pub open spec fn after_slash(a: App, cmd: ChatCommand) -> App {
    match cmd {
        ChatCommand::ToggleEffect | ChatCommand::ToggleFog | ChatCommand::ToggleAura
        | ChatCommand::ToggleNoTrade | ChatCommand::RefuseParty(_) => graphics_after(a, cmd),
        ChatCommand::ToggleNoShift | ChatCommand::ToggleNoCtrl | ChatCommand::ToggleShowExp
        | ChatCommand::ToggleHidePublicChat | ChatCommand::ToggleMiss | ChatCommand::ToggleEqOpen
        | ChatCommand::ToggleShowPing | ChatCommand::ToggleShowFps => prefs_after(a, cmd),
        ChatCommand::ToggleBgm | ChatCommand::ToggleSound | ChatCommand::ToggleMonsterSnap
        | ChatCommand::ToggleSkillSnap | ChatCommand::ToggleItemSnap => sound_after(a, cmd),
        ChatCommand::WhisperBlock { .. } | ChatCommand::CheckStatus(_) => social_after(a, cmd),
        _ => a,
    }
}

/// What a slash command hands on, given the state `a` it found; `raw` is the
/// line as typed.
pub open spec fn slash_reply(
    a: App,
    cmd: ChatCommand,
    raw: Seq<char>,
    ctx: CommandContext,
    out: Seq<Effect>,
) -> bool {
    let p = a.prefs;
    let s = a.settings;
    match cmd {
        ChatCommand::Sit => sit_reply(ctx, out),
        ChatCommand::Stand => stand_reply(ctx, out),
        ChatCommand::Doridori => doridori_reply(ctx, out),
        ChatCommand::BingBing => turned(ctx, 1, out),
        ChatCommand::BangBang => turned(ctx, 7, out),
        ChatCommand::Where => where_reply(ctx, out),
        ChatCommand::Memo => sends(out, Packet::RememberWarppoint),
        ChatCommand::ExitRoom => sends(out, Packet::ExitRoom),
        ChatCommand::LeaveParty => if a.party is Some {
            sends(out, Packet::LeaveParty)
        } else {
            says(out, "You are not in a party."@)
        },
        ChatCommand::MakeParty(name) => if name@.len() == 0 {
            says(out, "Usage: /organize <party name>"@)
        } else if a.party is Some {
            says(out, "You are already in a party."@)
        } else {
            sends(out, Packet::MakeParty(name))
        },
        ChatCommand::InviteParty(name) => if name@.len() == 0 {
            says(out, "Usage: /invite <character name>"@)
        } else {
            sends(out, Packet::PartyInviteByName(name))
        },
        ChatCommand::MakeGuild(name) => if name@.len() == 0 {
            says(out, "Usage: /guild <guild name>"@)
        } else if a.guild is Some {
            says(out, "You are already in a guild."@)
        } else if !ctx.has_emperium {
            says(out, "You need an Emperium to create a guild."@)
        } else {
            sends(
                out,
                Packet::MakeGuild {
                    gid: match a.account_id {
                        Some(id) => id,
                        None => 0,
                    },
                    name,
                },
            )
        },
        ChatCommand::BreakGuild(name) => if name@.len() == 0 {
            says(out, "Usage: /breakguild <guild name>"@)
        } else if a.guild is None {
            says(out, "You are not in a guild."@)
        } else {
            sends(out, Packet::DisorganizeGuild(name))
        },
        ChatCommand::StatUp { status_id, amount } => sends(
            out,
            Packet::StatChange {
                status_id,
                amount: if amount > 255 { 255u8 } else { amount as u8 },
            },
        ),
        ChatCommand::ToggleEffect => effects_reply(out, !s.show_skill_effects),
        ChatCommand::ToggleFog => graphics_reply(out, "Fog: "@, !s.fog),
        ChatCommand::ToggleLightmap => out == seq![Effect::ToggleLightmap],
        ChatCommand::ToggleAura => graphics_reply(out, "Level aura: "@, !s.show_level_aura),
        ChatCommand::ToggleNoTrade => graphics_reply(
            out,
            "Refuse trade requests: "@,
            !s.refuse_trade,
        ),
        ChatCommand::RefuseParty(r) => graphics_reply(out, "Refuse party invites: "@, r),
        ChatCommand::ToggleNoShift => says(out, "No-shift mode: "@ + on_off(!p.noshift_mode)),
        ChatCommand::ToggleNoCtrl => says(out, "No-ctrl mode: "@ + on_off(!p.noctrl_mode)),
        ChatCommand::ToggleBgm => volume_reply(
            out,
            None,
            "Background music: "@ + on_off(!s.bgm_enabled),
        ),
        ChatCommand::ToggleSound => volume_reply(
            out,
            None,
            "Sound effects: "@ + on_off(!s.sfx_enabled),
        ),
        ChatCommand::SetBgmVolume(v) => volume_reply(
            out,
            Some(Effect::SetBgmVolume(v)),
            "BGM volume: "@ + dec(v as nat),
        ),
        ChatCommand::SetSfxVolume(v) => volume_reply(
            out,
            Some(Effect::SetSfxVolume(v)),
            "Sound volume: "@ + dec(v as nat),
        ),
        ChatCommand::ToggleShowExp => says(out, "Experience messages: "@ + on_off(!p.show_exp)),
        ChatCommand::ToggleHidePublicChat => says(
            out,
            "Public chat: "@ + on_off(p.hide_public_chat),
        ),
        ChatCommand::BattleMode => out == seq![Effect::ToggleBattleMode],
        ChatCommand::Ranking(k) => sends(out, Packet::Ranking(k)),
        ChatCommand::ToggleMiss => says(out, "Miss text: "@ + on_off(!p.show_miss)),
        ChatCommand::ToggleMonsterSnap => saved_reply(
            out,
            "Monster cursor snap: "@,
            !s.snap_monster_no_skill,
        ),
        ChatCommand::ToggleSkillSnap => saved_reply(
            out,
            "Skill cursor snap: "@,
            !s.snap_monster_skill,
        ),
        ChatCommand::ToggleItemSnap => saved_reply(out, "Item cursor snap: "@, !s.snap_item),
        ChatCommand::ToggleEqOpen => equip_reply(out, !p.equip_open),
        ChatCommand::GuildChat(msg) => if msg@.len() == 0 {
            says(out, "Usage: /gc <message>"@)
        } else if a.guild is None {
            says(out, "You are not in a guild."@)
        } else {
            chat_packet(out, 2, signature(ctx) + " : "@ + msg@)
        },
        ChatCommand::WhisperFriends(text) => if text@.len() == 0 {
            says(out, "Usage: /hi <message>"@)
        } else if ctx.online_friends@.len() == 0 {
            says(out, "No friends are online."@)
        } else {
            whispers(out, ctx.online_friends@, text)
        },
        ChatCommand::WhisperBlock { name, block } => if name@.len() == 0 {
            says(out, "Usage: /ex <character name>"@)
        } else {
            sends(out, Packet::SettingWhisperPc { name, block })
        },
        ChatCommand::WhisperBlockAll(b) => sends(out, Packet::SettingWhisperState(b)),
        ChatCommand::WhisperListBlocked => if p.blocked_whispers@.len() == 0 {
            says(out, "No blocked players."@)
        } else {
            says(out, "Blocked: "@ + joined(views(p.blocked_whispers@)))
        },
        ChatCommand::OpenChatCreate => out == seq![Effect::ToggleWindow(WindowId::ChatRoomCreate)],
        ChatCommand::OpenEmotionList => out == seq![Effect::ToggleWindow(WindowId::Emotion)],
        ChatCommand::OpenCompanionAi { mercenary } => out == seq![
            Effect::OpenCompanionAiTab(if mercenary { 1u8 } else { 0u8 }),
        ],
        ChatCommand::Unsupported => says(out, "This command is not supported yet."@),
        ChatCommand::Emote(e) => sends(out, Packet::Emotion(e)),
        ChatCommand::UserCount => sends(out, Packet::UserCount),
        ChatCommand::CheckStatus(name) => sends(out, Packet::StatusGm(name)),
        ChatCommand::ReportManner(name) => sends(out, Packet::GiveMannerByName(name)),
        ChatCommand::ToggleShowPing => says(out, "Ping overlay: "@ + on_off(!p.show_ping)),
        ChatCommand::ToggleShowFps => says(out, "FPS overlay: "@ + on_off(!p.show_fps)),
        ChatCommand::Help => help_reply(out),
        ChatCommand::Outdated => says(out, "This command is no longer available."@),
        ChatCommand::Unknown => says(out, "Unknown command: "@ + first_word(raw)),
    }
}

fn say(text: &str) -> (out: Vec<Effect>)
    ensures
        says(out@, text@),
{
    proof {
        reveal(says);
    }
    one(Effect::Chat(ChatLine::from_str(ChatKind::System, text)))
}

fn say_string(text: String) -> (out: Vec<Effect>)
    ensures
        says(out@, text@),
{
    proof {
        reveal(says);
    }
    one(Effect::Chat(ChatLine { kind: ChatKind::System, text }))
}

fn say_status(prefix: &str, on: bool) -> (out: Vec<Effect>)
    ensures
        says(out@, prefix@ + on_off(on)),
{
    proof {
        reveal(says);
    }
    one(status_line(prefix, on))
}

fn send(p: Packet) -> (out: Vec<Effect>)
    ensures
        sends(out@, p),
{
    proof {
        reveal(sends);
    }
    one(Effect::Send(p))
}

fn graphics_applied(prefix: &str, on: bool) -> (out: Vec<Effect>)
    ensures
        graphics_reply(out@, prefix@, on),
{
    proof {
        reveal(graphics_reply);
    }
    three(Effect::ApplyGraphicsSettings, Effect::SaveConfig, status_line(prefix, on))
}

fn volumes_applied(first: Option<Effect>, text: String) -> (out: Vec<Effect>)
    ensures
        volume_reply(out@, first, text@),
{
    proof {
        reveal(volume_reply);
    }
    let line = Effect::Chat(ChatLine { kind: ChatKind::System, text });
    match first {
        Some(e) => four(e, Effect::SetVolumes, Effect::SaveConfig, line),
        None => three(Effect::SetVolumes, Effect::SaveConfig, line),
    }
}

fn saved(prefix: &str, on: bool) -> (out: Vec<Effect>)
    ensures
        saved_reply(out@, prefix@, on),
{
    proof {
        reveal(saved_reply);
    }
    two(Effect::SaveConfig, status_line(prefix, on))
}

fn effects_toggled(show: bool) -> (out: Vec<Effect>)
    ensures
        effects_reply(out@, show),
{
    proof {
        reveal(effects_reply);
    }
    four(
        Effect::ApplyGraphicsSettings,
        Effect::SaveConfig,
        Effect::Send(Packet::LessEffect(!show)),
        status_line("Skill effects: ", show),
    )
}

fn equip_toggled(open: bool) -> (out: Vec<Effect>)
    ensures
        equip_reply(out@, open),
{
    proof {
        reveal(equip_reply);
    }
    let value: i32 = if open {
        1
    } else {
        0
    };
    two(
        Effect::Send(Packet::Config { kind: 0, value }),
        status_line("Equipment visible to others: ", open),
    )
}

fn help() -> (out: Vec<Effect>)
    ensures
        help_reply(out@),
{
    proof {
        reveal(help_reply);
    }
    two(Effect::Chat(ChatLine::from_str(ChatKind::System, "Commands:")), Effect::ListCommandHelp)
}

/// `text`, signed with our name, to the guild.
fn guild_line(ctx: &CommandContext, text: &str) -> (out: Vec<Effect>)
    ensures
        chat_packet(out@, 2, signature(*ctx) + " : "@ + text@),
{
    proof {
        reveal(chat_packet);
    }
    one(Effect::Send(Packet::GuildChat(signed_line(ctx, text))))
}

/// A whisper of `text` to each of `names`.
fn whisper_all(names: &Vec<String>, text: &String) -> (out: Vec<Effect>)
    ensures
        whispers(out@, names@, *text),
{
    proof {
        reveal(whispers);
    }
    let mut out: Vec<Effect> = Vec::new();
    let mut i: usize = 0;
    while i < names.len()
        invariant
            i <= names@.len(),
            out@.len() == i,
            forall|j: int|
                0 <= j < i ==> #[trigger] out@[j] == Effect::Send(
                    Packet::Whisper { name: names@[j], text: *text },
                ),
        decreases names@.len() - i,
    {
        out.push(Effect::Send(Packet::Whisper { name: names[i].clone(), text: text.clone() }));
        i = i + 1;
    }
    out
}

/// `prefix` and the decimal rendering of `n`.
fn with_number(prefix: &str, n: u8) -> (s: String)
    ensures
        s@ == prefix@ + dec(n as nat),
{
    let mut s = String::from_str(prefix);
    push_decimal(&mut s, n as u64);
    s
}

impl App {
    /// Sits down, or stands up when already sitting, unless hidden.
    fn sit(ctx: &CommandContext) -> (out: Vec<Effect>)
        ensures
            sit_reply(*ctx, out@),
    {
        proof {
            reveal(sit_reply);
        }
        match ctx.player {
            Some(pl) => if pl.hidden {
                Vec::new()
            } else {
                let action: u8 = if pl.sitting {
                    3
                } else {
                    2
                };
                one(Effect::Send(Packet::ActionRequest(action)))
            },
            None => Vec::new(),
        }
    }

    /// Stands up when sitting, unless hidden.
    fn stand(ctx: &CommandContext) -> (out: Vec<Effect>)
        ensures
            stand_reply(*ctx, out@),
    {
        proof {
            reveal(stand_reply);
        }
        match ctx.player {
            Some(pl) => if !pl.hidden && pl.sitting {
                one(Effect::Send(Packet::ActionRequest(3)))
            } else {
                Vec::new()
            },
            None => Vec::new(),
        }
    }

    /// Shakes the head to the other side.
    fn doridori(ctx: &CommandContext) -> (out: Vec<Effect>)
        ensures
            doridori_reply(*ctx, out@),
    {
        proof {
            reveal(doridori_reply);
        }
        match ctx.player {
            Some(pl) => {
                let h: u8 = if pl.head_dir == 1 {
                    2
                } else {
                    1
                };
                if pl.sitting {
                    three(
                        Effect::SetPlayerFacing { direction: pl.direction, head_dir: h },
                        Effect::Send(Packet::ChangeDirection { head_dir: h, dir: pl.direction }),
                        Effect::RecordDoridoriFlip,
                    )
                } else {
                    two(
                        Effect::SetPlayerFacing { direction: pl.direction, head_dir: h },
                        Effect::Send(Packet::ChangeDirection { head_dir: h, dir: pl.direction }),
                    )
                }
            },
            None => Vec::new(),
        }
    }

    /// Reports where the player stands.
    fn where_am_i(ctx: &CommandContext) -> (out: Vec<Effect>)
        ensures
            where_reply(*ctx, out@),
    {
        proof {
            reveal(where_reply);
        }
        match (&ctx.current_map, &ctx.player) {
            (Some(m), Some(pl)) => {
                let mut text = m.clone();
                text.append(".gat (");
                push_decimal(&mut text, pl.cell_x as u64);
                text.append(", ");
                push_decimal(&mut text, pl.cell_y as u64);
                text.append(")");
                one(Effect::Chat(ChatLine { kind: ChatKind::System, text }))
            },
            _ => one(Effect::Chat(ChatLine::from_str(ChatKind::System, "You are not in a map yet."))),
        }
    }

    /// Turns skill effects on or off.
    fn toggle_effect(&mut self) -> (out: Vec<Effect>)
        ensures
            *final(self) == after_slash(*old(self), ChatCommand::ToggleEffect),
            effects_reply(out@, !old(self).settings.show_skill_effects),
    {
        proof {
            reveal(graphics_after);
        }
        let show = !self.settings.show_skill_effects;
        self.settings.show_skill_effects = show;
        self.prefs.refuse_party_invite = self.settings.refuse_party_invite;
        effects_toggled(show)
    }

    /// Turns the fog on or off.
    fn toggle_fog(&mut self) -> (out: Vec<Effect>)
        ensures
            *final(self) == after_slash(*old(self), ChatCommand::ToggleFog),
            graphics_reply(out@, "Fog: "@, !old(self).settings.fog),
    {
        proof {
            reveal(graphics_after);
        }
        let fog = !self.settings.fog;
        self.settings.fog = fog;
        self.prefs.refuse_party_invite = self.settings.refuse_party_invite;
        graphics_applied("Fog: ", fog)
    }

    /// Turns the level aura on or off.
    fn toggle_aura(&mut self) -> (out: Vec<Effect>)
        ensures
            *final(self) == after_slash(*old(self), ChatCommand::ToggleAura),
            graphics_reply(out@, "Level aura: "@, !old(self).settings.show_level_aura),
    {
        proof {
            reveal(graphics_after);
        }
        let aura = !self.settings.show_level_aura;
        self.settings.show_level_aura = aura;
        self.prefs.refuse_party_invite = self.settings.refuse_party_invite;
        graphics_applied("Level aura: ", aura)
    }

    /// Turns the refusal of trade requests on or off.
    fn toggle_no_trade(&mut self) -> (out: Vec<Effect>)
        ensures
            *final(self) == after_slash(*old(self), ChatCommand::ToggleNoTrade),
            graphics_reply(out@, "Refuse trade requests: "@, !old(self).settings.refuse_trade),
    {
        proof {
            reveal(graphics_after);
        }
        let refuse = !self.settings.refuse_trade;
        self.settings.refuse_trade = refuse;
        self.prefs.refuse_party_invite = self.settings.refuse_party_invite;
        graphics_applied("Refuse trade requests: ", refuse)
    }

    /// Sets whether party invites are refused.
    fn set_refuse_party(&mut self, refuse: bool) -> (out: Vec<Effect>)
        ensures
            *final(self) == after_slash(*old(self), ChatCommand::RefuseParty(refuse)),
            graphics_reply(out@, "Refuse party invites: "@, refuse),
    {
        proof {
            reveal(graphics_after);
        }
        self.settings.refuse_party_invite = refuse;
        self.prefs.refuse_party_invite = refuse;
        graphics_applied("Refuse party invites: ", refuse)
    }

    /// The commands that change the sound and cursor settings.
    fn slash_sound(&mut self, command: ChatCommand, raw: &str, ctx: &CommandContext) -> (out: Vec<Effect>)
        requires
            command is ToggleBgm || command is ToggleSound || command is SetBgmVolume
                || command is SetSfxVolume || command is ToggleMonsterSnap
                || command is ToggleSkillSnap || command is ToggleItemSnap,
        ensures
            *final(self) == after_slash(*old(self), command),
            slash_reply(*old(self), command, raw@, *ctx, out@),
    {
        proof {
            reveal(sound_after);
        }
        match command {
            ChatCommand::ToggleBgm => {
                self.settings.bgm_enabled = !self.settings.bgm_enabled;
                let mut text = String::from_str("Background music: ");
                text.append(if self.settings.bgm_enabled { "ON" } else { "OFF" });
                volumes_applied(None, text)
            },
            ChatCommand::ToggleSound => {
                self.settings.sfx_enabled = !self.settings.sfx_enabled;
                let mut text = String::from_str("Sound effects: ");
                text.append(if self.settings.sfx_enabled { "ON" } else { "OFF" });
                volumes_applied(None, text)
            },
            ChatCommand::SetBgmVolume(vol) => volumes_applied(
                Some(Effect::SetBgmVolume(vol)),
                with_number("BGM volume: ", vol),
            ),
            ChatCommand::SetSfxVolume(vol) => volumes_applied(
                Some(Effect::SetSfxVolume(vol)),
                with_number("Sound volume: ", vol),
            ),
            ChatCommand::ToggleMonsterSnap => {
                self.settings.snap_monster_no_skill = !self.settings.snap_monster_no_skill;
                saved("Monster cursor snap: ", self.settings.snap_monster_no_skill)
            },
            ChatCommand::ToggleSkillSnap => {
                self.settings.snap_monster_skill = !self.settings.snap_monster_skill;
                saved("Skill cursor snap: ", self.settings.snap_monster_skill)
            },
            ChatCommand::ToggleItemSnap => {
                self.settings.snap_item = !self.settings.snap_item;
                saved("Item cursor snap: ", self.settings.snap_item)
            },
            _ => Vec::new(),
        }
    }

    /// The commands that flip a preference.
    fn slash_prefs(&mut self, command: ChatCommand, raw: &str, ctx: &CommandContext) -> (out: Vec<Effect>)
        requires
            command is ToggleNoShift || command is ToggleNoCtrl || command is ToggleShowExp ||
                command is ToggleHidePublicChat || command is ToggleMiss ||
                command is ToggleEqOpen || command is ToggleShowPing ||
                command is ToggleShowFps,
        ensures
            *final(self) == after_slash(*old(self), command),
            slash_reply(*old(self), command, raw@, *ctx, out@),
    {
        proof {
            reveal(prefs_after);
        }
        match command {
            ChatCommand::ToggleNoShift => {
                self.prefs.noshift_mode = !self.prefs.noshift_mode;
                say_status("No-shift mode: ", self.prefs.noshift_mode)
            },
            ChatCommand::ToggleNoCtrl => {
                self.prefs.noctrl_mode = !self.prefs.noctrl_mode;
                say_status("No-ctrl mode: ", self.prefs.noctrl_mode)
            },
            ChatCommand::ToggleShowExp => {
                self.prefs.show_exp = !self.prefs.show_exp;
                say_status("Experience messages: ", self.prefs.show_exp)
            },
            ChatCommand::ToggleHidePublicChat => {
                self.prefs.hide_public_chat = !self.prefs.hide_public_chat;
                say_status("Public chat: ", !self.prefs.hide_public_chat)
            },
            ChatCommand::ToggleMiss => {
                self.prefs.show_miss = !self.prefs.show_miss;
                say_status("Miss text: ", self.prefs.show_miss)
            },
            ChatCommand::ToggleEqOpen => {
                self.prefs.equip_open = !self.prefs.equip_open;
                equip_toggled(self.prefs.equip_open)
            },
            ChatCommand::ToggleShowPing => {
                self.prefs.show_ping = !self.prefs.show_ping;
                say_status("Ping overlay: ", self.prefs.show_ping)
            },
            ChatCommand::ToggleShowFps => {
                self.prefs.show_fps = !self.prefs.show_fps;
                say_status("FPS overlay: ", self.prefs.show_fps)
            },
            _ => Vec::new(),
        }
    }

    /// The party, guild and whisper commands.
    fn slash_social(&mut self, command: ChatCommand, raw: &str, ctx: &CommandContext) -> (out: Vec<Effect>)
        requires
            command is LeaveParty || command is MakeParty || command is InviteParty ||
                command is MakeGuild || command is BreakGuild || command is GuildChat ||
                command is WhisperFriends || command is WhisperBlock ||
                command is WhisperBlockAll || command is WhisperListBlocked ||
                command is CheckStatus || command is ReportManner,
        ensures
            *final(self) == after_slash(*old(self), command),
            slash_reply(*old(self), command, raw@, *ctx, out@),
    {
        proof {
            reveal(social_after);
        }
        match command {
            ChatCommand::LeaveParty => if self.party.is_some() {
                send(Packet::LeaveParty)
            } else {
                say("You are not in a party.")
            },
            ChatCommand::MakeParty(name) => if name.as_str().is_empty() {
                say("Usage: /organize <party name>")
            } else if self.party.is_some() {
                say("You are already in a party.")
            } else {
                send(Packet::MakeParty(name))
            },
            ChatCommand::InviteParty(name) => if name.as_str().is_empty() {
                say("Usage: /invite <character name>")
            } else {
                send(Packet::PartyInviteByName(name))
            },
            ChatCommand::MakeGuild(name) => if name.as_str().is_empty() {
                say("Usage: /guild <guild name>")
            } else if self.guild.is_some() {
                say("You are already in a guild.")
            } else if !ctx.has_emperium {
                say("You need an Emperium to create a guild.")
            } else {
                let gid: u32 = match self.account_id {
                    Some(id) => id,
                    None => 0,
                };
                send(Packet::MakeGuild { gid, name })
            },
            ChatCommand::BreakGuild(name) => if name.as_str().is_empty() {
                say("Usage: /breakguild <guild name>")
            } else if self.guild.is_none() {
                say("You are not in a guild.")
            } else {
                send(Packet::DisorganizeGuild(name))
            },
            ChatCommand::GuildChat(msg) => if msg.as_str().is_empty() {
                say("Usage: /gc <message>")
            } else if self.guild.is_none() {
                say("You are not in a guild.")
            } else {
                guild_line(ctx, msg.as_str())
            },
            ChatCommand::WhisperFriends(text) => if text.as_str().is_empty() {
                say("Usage: /hi <message>")
            } else if ctx.online_friends.len() == 0 {
                say("No friends are online.")
            } else {
                whisper_all(&ctx.online_friends, &text)
            },
            ChatCommand::WhisperBlock { name, block } => if name.as_str().is_empty() {
                say("Usage: /ex <character name>")
            } else {
                let out = send(Packet::SettingWhisperPc { name: name.clone(), block });
                self.pending.whisper_block = Some((name, block));
                out
            },
            ChatCommand::WhisperBlockAll(block) => send(Packet::SettingWhisperState(block)),
            ChatCommand::WhisperListBlocked => if self.prefs.blocked_whispers.len() == 0 {
                say("No blocked players.")
            } else {
                let list = join_names(&self.prefs.blocked_whispers);
                let mut text = String::from_str("Blocked: ");
                text.append(list.as_str());
                say_string(text)
            },
            ChatCommand::CheckStatus(name) => {
                let out = send(Packet::StatusGm(name.clone()));
                self.pending.gm_check = Some(name);
                out
            },
            ChatCommand::ReportManner(name) => send(Packet::GiveMannerByName(name)),
            _ => Vec::new(),
        }
    }

    /// The commands that change nothing of the state.
    fn slash_plain(&self, command: ChatCommand, raw: &str, ctx: &CommandContext) -> (out: Vec<Effect>)
        requires
            command is Sit || command is Stand || command is Doridori || command is BingBing ||
                command is BangBang || command is Where || command is Memo ||
                command is ExitRoom || command is StatUp || command is ToggleLightmap ||
                command is BattleMode || command is Ranking || command is OpenChatCreate ||
                command is OpenEmotionList || command is OpenCompanionAi ||
                command is Unsupported || command is Emote || command is UserCount ||
                command is Help || command is Outdated || command is Unknown,
        ensures
            after_slash(*self, command) == *self,
            slash_reply(*self, command, raw@, *ctx, out@),
    {
        match command {
            ChatCommand::Sit => App::sit(ctx),
            ChatCommand::Stand => App::stand(ctx),
            ChatCommand::Doridori => App::doridori(ctx),
            ChatCommand::BingBing => App::turn_body(ctx, 1),
            ChatCommand::BangBang => App::turn_body(ctx, 7),
            ChatCommand::Where => App::where_am_i(ctx),
            ChatCommand::Memo => send(Packet::RememberWarppoint),
            ChatCommand::ExitRoom => send(Packet::ExitRoom),
            ChatCommand::StatUp { status_id, amount } => {
                let capped: u8 = if amount > 255 {
                    255
                } else {
                    amount as u8
                };
                send(Packet::StatChange { status_id, amount: capped })
            },
            ChatCommand::ToggleLightmap => one(Effect::ToggleLightmap),
            ChatCommand::BattleMode => one(Effect::ToggleBattleMode),
            ChatCommand::Ranking(kind) => send(Packet::Ranking(kind)),
            ChatCommand::OpenChatCreate => one(Effect::ToggleWindow(WindowId::ChatRoomCreate)),
            ChatCommand::OpenEmotionList => one(Effect::ToggleWindow(WindowId::Emotion)),
            ChatCommand::OpenCompanionAi { mercenary } => {
                let tab: u8 = if mercenary {
                    1
                } else {
                    0
                };
                one(Effect::OpenCompanionAiTab(tab))
            },
            ChatCommand::Unsupported => say("This command is not supported yet."),
            ChatCommand::Emote(emote) => send(Packet::Emotion(emote)),
            ChatCommand::UserCount => send(Packet::UserCount),
            ChatCommand::Help => help(),
            ChatCommand::Outdated => say("This command is no longer available."),
            ChatCommand::Unknown => say_string(App::reply_unknown_command(raw).text),
            _ => Vec::new(),
        }
    }

    /// Runs a slash command, as the command parser read it from the line
    /// `raw`, against what `ctx` tells of the world.
    pub fn handle_slash_command(
        &mut self,
        command: ChatCommand,
        raw: &str,
        ctx: &CommandContext,
    ) -> (out: Vec<Effect>)
        ensures
            *final(self) == after_slash(*old(self), command),
            slash_reply(*old(self), command, raw@, *ctx, out@),
    {
        match command {
            ChatCommand::ToggleEffect => self.toggle_effect(),
            ChatCommand::ToggleFog => self.toggle_fog(),
            ChatCommand::ToggleAura => self.toggle_aura(),
            ChatCommand::ToggleNoTrade => self.toggle_no_trade(),
            ChatCommand::RefuseParty(refuse) => self.set_refuse_party(refuse),
            ChatCommand::ToggleBgm | ChatCommand::ToggleSound | ChatCommand::SetBgmVolume(..)
            | ChatCommand::SetSfxVolume(..) | ChatCommand::ToggleMonsterSnap
            | ChatCommand::ToggleSkillSnap | ChatCommand::ToggleItemSnap => self.slash_sound(
                command,
                raw,
                ctx,
            ),
            ChatCommand::ToggleNoShift | ChatCommand::ToggleNoCtrl | ChatCommand::ToggleShowExp
            | ChatCommand::ToggleHidePublicChat | ChatCommand::ToggleMiss
            | ChatCommand::ToggleEqOpen | ChatCommand::ToggleShowPing
            | ChatCommand::ToggleShowFps => self.slash_prefs(command, raw, ctx),
            ChatCommand::LeaveParty | ChatCommand::MakeParty(..) | ChatCommand::InviteParty(..)
            | ChatCommand::MakeGuild(..) | ChatCommand::BreakGuild(..) | ChatCommand::GuildChat(..)
            | ChatCommand::WhisperFriends(..) | ChatCommand::WhisperBlock { .. }
            | ChatCommand::WhisperBlockAll(..) | ChatCommand::WhisperListBlocked
            | ChatCommand::CheckStatus(..) | ChatCommand::ReportManner(..) => self.slash_social(
                command,
                raw,
                ctx,
            ),
            _ => self.slash_plain(command, raw, ctx),
        }
    }
}

/// The commands that flip one on/off setting or preference.
pub open spec fn is_toggle(cmd: ChatCommand) -> bool {
    ||| cmd is ToggleEffect
    ||| cmd is ToggleFog
    ||| cmd is ToggleAura
    ||| cmd is ToggleNoTrade
    ||| cmd is ToggleNoShift
    ||| cmd is ToggleNoCtrl
    ||| cmd is ToggleBgm
    ||| cmd is ToggleSound
    ||| cmd is ToggleShowExp
    ||| cmd is ToggleHidePublicChat
    ||| cmd is ToggleMiss
    ||| cmd is ToggleMonsterSnap
    ||| cmd is ToggleSkillSnap
    ||| cmd is ToggleItemSnap
    ||| cmd is ToggleEqOpen
    ||| cmd is ToggleShowPing
    ||| cmd is ToggleShowFps
}

proof fn lemma_graphics_toggle_twice(a: App, cmd: ChatCommand)
    requires
        cmd is ToggleEffect || cmd is ToggleFog || cmd is ToggleAura || cmd is ToggleNoTrade,
        a.prefs.refuse_party_invite == a.settings.refuse_party_invite,
    ensures
        graphics_after(graphics_after(a, cmd), cmd) == a,
{
    reveal(graphics_after);
    let b = graphics_after(a, cmd);
    assert(b.prefs == a.prefs);
    assert(b == (App { settings: b.settings, ..a }));
    let c = graphics_after(b, cmd);
    assert(c.settings == a.settings);
    assert(c.prefs == a.prefs);
    assert(c == (App { settings: c.settings, ..a }));
}

proof fn lemma_sound_toggle_twice(a: App, cmd: ChatCommand)
    requires
        cmd is ToggleBgm || cmd is ToggleSound || cmd is ToggleMonsterSnap
            || cmd is ToggleSkillSnap || cmd is ToggleItemSnap,
    ensures
        sound_after(sound_after(a, cmd), cmd) == a,
{
    reveal(sound_after);
}

proof fn lemma_pref_toggle_twice(a: App, cmd: ChatCommand)
    requires
        cmd is ToggleNoShift || cmd is ToggleNoCtrl || cmd is ToggleShowExp
            || cmd is ToggleHidePublicChat || cmd is ToggleMiss || cmd is ToggleEqOpen
            || cmd is ToggleShowPing || cmd is ToggleShowFps,
    ensures
        prefs_after(prefs_after(a, cmd), cmd) == a,
{
    reveal(prefs_after);
}

/// A toggle given twice leaves the client as it was. (The graphics toggles
/// also hand the party-invite setting to the preferences, so this holds when
/// the two agree, as they do from the start and after any such command.)
pub proof fn lemma_toggle_twice(a: App, cmd: ChatCommand)
    requires
        is_toggle(cmd),
        a.prefs.refuse_party_invite == a.settings.refuse_party_invite,
    ensures
        after_slash(after_slash(a, cmd), cmd) == a,
{
    if cmd is ToggleEffect || cmd is ToggleFog || cmd is ToggleAura || cmd is ToggleNoTrade {
        lemma_graphics_toggle_twice(a, cmd);
    } else if cmd is ToggleBgm || cmd is ToggleSound || cmd is ToggleMonsterSnap
        || cmd is ToggleSkillSnap || cmd is ToggleItemSnap {
        lemma_sound_toggle_twice(a, cmd);
    } else {
        lemma_pref_toggle_twice(a, cmd);
    }
}

/// `/notrade` turns the refusal of trade requests around: afterwards it is the
/// opposite of what it was, every other setting stays, and the line reported
/// says the new state.
pub proof fn lemma_notrade_flips_refusal(
    a: App,
    raw: Seq<char>,
    ctx: CommandContext,
    out: Seq<Effect>,
)
    requires
        slash_reply(a, ChatCommand::ToggleNoTrade, raw, ctx, out),
    ensures
        after_slash(a, ChatCommand::ToggleNoTrade).settings.refuse_trade == !a.settings.refuse_trade,
        after_slash(a, ChatCommand::ToggleNoTrade).settings == (Settings {
            refuse_trade: !a.settings.refuse_trade,
            ..a.settings
        }),
        out.len() == 3,
        is_chat(
            out[2],
            ChatKind::System,
            "Refuse trade requests: "@ + on_off(
                after_slash(a, ChatCommand::ToggleNoTrade).settings.refuse_trade,
            ),
        ),
{
    reveal(graphics_after);
    reveal(graphics_reply);
}

/// The other graphics commands work the same way: `/fog`, `/aura` and
/// `/effect` each turn their own setting around and leave the others, `/refuse
/// party` sets the refusal of party invites to what it was given, and in each
/// case the reported line says the state the setting now has.
pub proof fn lemma_graphics_commands_report_new_state(
    a: App,
    cmd: ChatCommand,
    raw: Seq<char>,
    ctx: CommandContext,
    out: Seq<Effect>,
)
    requires
        slash_reply(a, cmd, raw, ctx, out),
    ensures
        cmd is ToggleFog ==> after_slash(a, cmd).settings == (Settings {
            fog: !a.settings.fog,
            ..a.settings
        }) && out.len() == 3 && is_chat(
            out[2],
            ChatKind::System,
            "Fog: "@ + on_off(after_slash(a, cmd).settings.fog),
        ),
        cmd is ToggleAura ==> after_slash(a, cmd).settings == (Settings {
            show_level_aura: !a.settings.show_level_aura,
            ..a.settings
        }) && out.len() == 3 && is_chat(
            out[2],
            ChatKind::System,
            "Level aura: "@ + on_off(after_slash(a, cmd).settings.show_level_aura),
        ),
        cmd is ToggleEffect ==> after_slash(a, cmd).settings == (Settings {
            show_skill_effects: !a.settings.show_skill_effects,
            ..a.settings
        }) && out.len() == 4 && out[2] == Effect::Send(
            Packet::LessEffect(!after_slash(a, cmd).settings.show_skill_effects),
        ) && is_chat(
            out[3],
            ChatKind::System,
            "Skill effects: "@ + on_off(after_slash(a, cmd).settings.show_skill_effects),
        ),
        cmd matches ChatCommand::RefuseParty(r) ==> after_slash(a, cmd).settings == (Settings {
            refuse_party_invite: r,
            ..a.settings
        }) && after_slash(a, cmd).prefs.refuse_party_invite == r && out.len() == 3 && is_chat(
            out[2],
            ChatKind::System,
            "Refuse party invites: "@ + on_off(r),
        ),
{
    reveal(graphics_after);
    reveal(graphics_reply);
    reveal(effects_reply);
}

/// Each preference toggle turns its own preference around and leaves the
/// others, and what it reports is the state the preference now has.
pub proof fn lemma_pref_toggles_report_new_state(
    a: App,
    cmd: ChatCommand,
    raw: Seq<char>,
    ctx: CommandContext,
    out: Seq<Effect>,
)
    requires
        slash_reply(a, cmd, raw, ctx, out),
    ensures
        cmd is ToggleNoShift ==> after_slash(a, cmd).prefs == (Prefs {
            noshift_mode: !a.prefs.noshift_mode,
            ..a.prefs
        }) && says(out, "No-shift mode: "@ + on_off(after_slash(a, cmd).prefs.noshift_mode)),
        cmd is ToggleNoCtrl ==> after_slash(a, cmd).prefs == (Prefs {
            noctrl_mode: !a.prefs.noctrl_mode,
            ..a.prefs
        }) && says(out, "No-ctrl mode: "@ + on_off(after_slash(a, cmd).prefs.noctrl_mode)),
        cmd is ToggleShowExp ==> after_slash(a, cmd).prefs == (Prefs {
            show_exp: !a.prefs.show_exp,
            ..a.prefs
        }) && says(out, "Experience messages: "@ + on_off(after_slash(a, cmd).prefs.show_exp)),
        cmd is ToggleHidePublicChat ==> after_slash(a, cmd).prefs == (Prefs {
            hide_public_chat: !a.prefs.hide_public_chat,
            ..a.prefs
        }) && says(out, "Public chat: "@ + on_off(!after_slash(a, cmd).prefs.hide_public_chat)),
        cmd is ToggleMiss ==> after_slash(a, cmd).prefs == (Prefs {
            show_miss: !a.prefs.show_miss,
            ..a.prefs
        }) && says(out, "Miss text: "@ + on_off(after_slash(a, cmd).prefs.show_miss)),
        cmd is ToggleEqOpen ==> after_slash(a, cmd).prefs == (Prefs {
            equip_open: !a.prefs.equip_open,
            ..a.prefs
        }) && equip_reply(out, after_slash(a, cmd).prefs.equip_open),
        cmd is ToggleShowPing ==> after_slash(a, cmd).prefs == (Prefs {
            show_ping: !a.prefs.show_ping,
            ..a.prefs
        }) && says(out, "Ping overlay: "@ + on_off(after_slash(a, cmd).prefs.show_ping)),
        cmd is ToggleShowFps ==> after_slash(a, cmd).prefs == (Prefs {
            show_fps: !a.prefs.show_fps,
            ..a.prefs
        }) && says(out, "FPS overlay: "@ + on_off(after_slash(a, cmd).prefs.show_fps)),
{
    reveal(prefs_after);
}

/// Each sound or cursor-snap toggle turns its own setting around and leaves
/// the others, and what it reports is the state the setting now has.
pub proof fn lemma_sound_toggles_report_new_state(
    a: App,
    cmd: ChatCommand,
    raw: Seq<char>,
    ctx: CommandContext,
    out: Seq<Effect>,
)
    requires
        slash_reply(a, cmd, raw, ctx, out),
    ensures
        cmd is ToggleBgm ==> after_slash(a, cmd).settings == (Settings {
            bgm_enabled: !a.settings.bgm_enabled,
            ..a.settings
        }) && volume_reply(
            out,
            None,
            "Background music: "@ + on_off(after_slash(a, cmd).settings.bgm_enabled),
        ),
        cmd is ToggleSound ==> after_slash(a, cmd).settings == (Settings {
            sfx_enabled: !a.settings.sfx_enabled,
            ..a.settings
        }) && volume_reply(
            out,
            None,
            "Sound effects: "@ + on_off(after_slash(a, cmd).settings.sfx_enabled),
        ),
        cmd is ToggleMonsterSnap ==> after_slash(a, cmd).settings == (Settings {
            snap_monster_no_skill: !a.settings.snap_monster_no_skill,
            ..a.settings
        }) && saved_reply(
            out,
            "Monster cursor snap: "@,
            after_slash(a, cmd).settings.snap_monster_no_skill,
        ),
        cmd is ToggleSkillSnap ==> after_slash(a, cmd).settings == (Settings {
            snap_monster_skill: !a.settings.snap_monster_skill,
            ..a.settings
        }) && saved_reply(
            out,
            "Skill cursor snap: "@,
            after_slash(a, cmd).settings.snap_monster_skill,
        ),
        cmd is ToggleItemSnap ==> after_slash(a, cmd).settings == (Settings {
            snap_item: !a.settings.snap_item,
            ..a.settings
        }) && saved_reply(out, "Item cursor snap: "@, after_slash(a, cmd).settings.snap_item),
{
    reveal(sound_after);
}

/// Every command that goes through the graphics settings leaves the
/// party-invite preference agreeing with the setting.
pub proof fn lemma_graphics_commands_sync_invites(a: App, cmd: ChatCommand)
    requires
        cmd is ToggleEffect || cmd is ToggleFog || cmd is ToggleAura || cmd is ToggleNoTrade
            || cmd is RefuseParty,
    ensures
        after_slash(a, cmd).prefs.refuse_party_invite == after_slash(
            a,
            cmd,
        ).settings.refuse_party_invite,
{
    reveal(graphics_after);
}

} // verus!
