//! Chat-window reactions to server messages.
use vstd::prelude::*;
use vstd::string::*;
use crate::app::{App, Pending, Prefs};
use crate::effects::{ChatKind, ChatLine, Effect, chat, chat_string, is_chat, is_line, is_msg_line, msg_line, two};
use crate::shops::item_label;
use crate::notice::{
    Rgb, TextColor, bgr,
    MSI_PLAYERS_CONNECTED, action_failure_notice, map_info_notice, spec_action_failure_notice,
    spec_map_info_notice,
};
use crate::text::{said, speaker, split_chat_line, lemma_without_absent, remove_all, views, without, dec, first_word, first_word_of, push_decimal, push_signed_decimal, sdec, signed_decimal};

verus! {

pub open spec fn spec_adoption_message(msg_no: i32) -> Seq<char> {
    if msg_no == 0 {
        "You cannot adopt more than 1 child."@
    } else if msg_no == 1 {
        "You must be at least character level 70 in order to adopt someone."@
    } else if msg_no == 2 {
        "You cannot adopt a married person."@
    } else {
        "Adoption failed."@
    }
}

pub open spec fn ranking_line(i: nat, name: Seq<char>, point: int) -> Seq<char> {
    "  "@ + dec(i + 1) + ". "@ + name + " - "@ + sdec(point)
}

pub open spec fn spec_whisper_ack_text(result: u8) -> Seq<char> {
    if result == 1 {
        "The target character is not logged in."@
    } else if result == 2 {
        "The target character is ignoring whispers."@
    } else if result == 3 {
        "The target character is ignoring everyone."@
    } else {
        "Failed to send whisper."@
    }
}

pub open spec fn spec_memo_result(result: u8) -> (ChatKind, Seq<char>) {
    if result == 0 {
        (ChatKind::System, "Saved location as a Memo Point for Warp skill."@)
    } else if result == 1 {
        (ChatKind::Error, "Skill Level is not high enough."@)
    } else {
        (ChatKind::Error, "You haven't learned Warp."@)
    }
}

pub open spec fn user_count_text(count: int) -> Seq<char> {
    "There are "@ + sdec(count) + " Players Currently Connected."@
}

pub open spec fn account_name_text(aid: nat, name: Seq<char>) -> Seq<char> {
    if name.len() == 0 {
        "Account "@ + dec(aid) + ": name unavailable."@
    } else {
        "Account "@ + dec(aid) + ": "@ + name
    }
}

pub open spec fn spec_whisper_all_text(result: u8, block: bool) -> Seq<char> {
    if result == 0 && block {
        "Blocking all whispers."@
    } else if result == 0 {
        "Accepting all whispers."@
    } else {
        "Could not change your whisper setting."@
    }
}

/// The blocked-whisper list after the server confirmed that `name` was
/// blocked (`block`) or unblocked.
pub open spec fn spec_blocked_after(
    blocked: Seq<Seq<char>>,
    name: Seq<char>,
    block: bool,
) -> Seq<Seq<char>> {
    if block {
        without(blocked, name).push(name)
    } else {
        without(blocked, name)
    }
}

pub open spec fn spec_whisper_setting_line(result: u8, block: bool, name: Seq<char>) -> (ChatKind, Seq<char>) {
    if result == 0 {
        (
            ChatKind::System,
            (if block {
                "Blocked"@
            } else {
                "Unblocked"@
            }) + " whispers from "@ + name + "."@,
        )
    } else if result == 2 {
        (ChatKind::Error, "Your block list is full."@)
    } else {
        (ChatKind::Error, "Could not change whisper setting for "@ + name + "."@)
    }
}

impl App {
    /// The reply to a slash command nobody knows: it names the command's
    /// first word.
    pub fn reply_unknown_command(command: &str) -> (line: ChatLine)
        ensures
            is_line(line, ChatKind::System, "Unknown command: "@ + first_word(command@)),
    {
        let word = first_word_of(command);
        let mut text = String::from_str("Unknown command: ");
        text.append(word.as_str());
        ChatLine { kind: ChatKind::System, text }
    }

    /// Why an adoption could not go ahead.
    pub fn handle_adoption_message(msg_no: i32) -> (line: ChatLine)
        ensures
            adoption_message_step(msg_no, line),
    {
        let text = match msg_no {
            0 => "You cannot adopt more than 1 child.",
            1 => "You must be at least character level 70 in order to adopt someone.",
            2 => "You cannot adopt a married person.",
            _ => "Adoption failed.",
        };
        ChatLine::from_str(ChatKind::System, text)
    }

    /// A ranking list: a title line, then one numbered line per entry, or a
    /// placeholder line when the list is empty.
    pub fn handle_ranking_received(title: &str, entries: Vec<(String, i32)>) -> (lines: Vec<
        ChatLine,
    >)
        ensures
            lines@.len() == 1 + if entries@.len() == 0 {
                1
            } else {
                entries@.len()
            },
            is_line(lines@[0], ChatKind::System, "== "@ + title@ + " =="@),
            entries@.len() == 0 ==> is_line(lines@[1], ChatKind::System, "  (no entries)"@),
            forall|i: int|
                0 <= i < entries@.len() ==> is_line(
                    #[trigger] lines@[i + 1],
                    ChatKind::System,
                    ranking_line(i as nat, entries@[i].0@, entries@[i].1 as int),
                ),
    {
        let mut lines: Vec<ChatLine> = Vec::new();
        let mut head = String::from_str("== ");
        head.append(title);
        head.append(" ==");
        lines.push(ChatLine { kind: ChatKind::System, text: head });
        if entries.len() == 0 {
            lines.push(ChatLine::from_str(ChatKind::System, "  (no entries)"));
        }
        let mut i: usize = 0;
        while i < entries.len()
            invariant
                i <= entries@.len(),
                entries@.len() > 0 ==> lines@.len() == 1 + i,
                is_line(lines@[0], ChatKind::System, "== "@ + title@ + " =="@),
                entries@.len() == 0 ==> lines@.len() == 2 && is_line(
                    lines@[1],
                    ChatKind::System,
                    "  (no entries)"@,
                ),
                forall|j: int|
                    0 <= j < i ==> is_line(
                        #[trigger] lines@[j + 1],
                        ChatKind::System,
                        ranking_line(j as nat, entries@[j].0@, entries@[j].1 as int),
                    ),
            decreases entries@.len() - i,
        {
            let mut text = String::from_str("  ");
            push_decimal(&mut text, (i as u64) + 1);
            text.append(". ");
            text.append(entries[i].0.as_str());
            text.append(" - ");
            push_signed_decimal(&mut text, entries[i].1 as i64);
            assert(text@ =~= ranking_line(i as nat, entries@[i as int].0@, entries@[i as int].1 as int));
            lines.push(ChatLine { kind: ChatKind::System, text });
            i = i + 1;
        }
        lines
    }

    /// A guild-channel line, shown as received.
    pub fn handle_guild_chat_message(message: String) -> (line: ChatLine)
        ensures
            guild_chat_message_step(message, line),
    {
        ChatLine { kind: ChatKind::Guild, text: message }
    }

    /// An incoming whisper: the sender becomes the reply target, then the
    /// whisper is shown.
    pub fn handle_whisper_received(sender: String, message: String) -> (out: Vec<Effect>)
        ensures
            whisper_received_step(sender, message, out@),
    {
        let remembered = sender.clone();
        vec![Effect::RememberWhisper(remembered), Effect::WhisperIn { sender, message }]
    }

    /// The server's answer to the whisper we sent: on success the whisper is
    /// echoed as sent; otherwise the reason, prefixed with the recipient when
    /// the whisper is still known. The pending whisper is cleared either way.
    pub fn handle_whisper_ack(&mut self, result: u8) -> (out: Option<Effect>)
        ensures
            whisper_ack_step(*old(self), *final(self), result, out),
    {
        let sent = self.pending.whisper_out.take();
        let text = match result {
            0 => {
                return match sent {
                    Some((name, message)) => Some(Effect::WhisperOut { name, message }),
                    None => None,
                };
            },
            1 => "The target character is not logged in.",
            2 => "The target character is ignoring whispers.",
            3 => "The target character is ignoring everyone.",
            _ => "Failed to send whisper.",
        };
        match sent {
            Some((name, _)) => {
                let mut line = String::from_str("(");
                line.append(name.as_str());
                line.append(") ");
                line.append(text);
                Some(chat_string(ChatKind::Error, line))
            },
            None => Some(chat(ChatKind::Error, text)),
        }
    }

    /// Where a memo point could or could not be saved.
    pub fn handle_memo_result(result: u8) -> (line: ChatLine)
        ensures
            memo_result_step(result, line),
    {
        match result {
            0 => ChatLine::from_str(
                ChatKind::System,
                "Saved location as a Memo Point for Warp skill.",
            ),
            1 => ChatLine::from_str(ChatKind::Error, "Skill Level is not high enough."),
            _ => ChatLine::from_str(ChatKind::Error, "You haven't learned Warp."),
        }
    }

    /// The map-restriction notice for `atype`, if it has one.
    pub fn handle_map_info_notice(atype: i16) -> (out: Option<Effect>)
        ensures
            map_info_notice_step(atype, out),
    {
        match map_info_notice(atype) {
            Some((msg_id, color)) => Some(msg_line(msg_id, color)),
            None => None,
        }
    }

    /// The action-failure notice for `error_code`, given the player's job.
    pub fn handle_action_failure(error_code: i16, job: u16) -> (out: Option<Effect>)
        ensures
            match spec_action_failure_notice(error_code, job) {
                Some((id, color)) => out matches Some(e) && is_msg_line(e, id, color),
                None => out is None,
            },
    {
        match action_failure_notice(error_code, job) {
            Some((msg_id, color)) => Some(msg_line(msg_id, color)),
            None => None,
        }
    }

    /// The player count: the message table's line with the count filled in,
    /// or a plain sentence when the table has none.
    pub fn handle_user_count(count: i32) -> (out: Effect)
        ensures
            user_count_step(count, out),
    {
        let n = signed_decimal(count as i64);
        let mut fallback = String::from_str("There are ");
        fallback.append(n.as_str());
        fallback.append(" Players Currently Connected.");
        Effect::MsgNotice { msg_id: MSI_PLAYERS_CONNECTED, args: vec![n], fallback }
    }

    /// The account name a GM asked for.
    pub fn handle_account_name(aid: u32, name: String) -> (line: ChatLine)
        ensures
            account_name_step(aid, name, line),
    {
        let mut text = String::from_str("Account ");
        push_decimal(&mut text, aid as u64);
        if name.unicode_len() == 0 {
            text.append(": name unavailable.");
        } else {
            text.append(": ");
            text.append(name.as_str());
        }
        ChatLine { kind: ChatKind::System, text }
    }

    /// The server's answer to a whisper-block request. For the block-all
    /// switch it reports the new setting; for a single name it updates the
    /// blocked list on success (the name then appears once, or not at all
    /// when unblocked) and reports the outcome. The pending request is
    /// cleared either way; an answer for a name we did not ask about is
    /// ignored.
    #[verifier::rlimit(60)]
    pub fn handle_whisper_setting_result(&mut self, allow: bool, result: u8, all: bool) -> (out:
        Option<ChatLine>)
        ensures
            whisper_setting_result_step(*old(self), *final(self), allow, result, all, out),
    {
        let pending = self.pending.whisper_block.take();
        let block = !allow;
        if all {
            let message = if result == 0 && block {
                "Blocking all whispers."
            } else if result == 0 {
                "Accepting all whispers."
            } else {
                "Could not change your whisper setting."
            };
            return Some(ChatLine::from_str(ChatKind::System, message));
        }
        let name = match pending {
            Some((name, _)) => name,
            None => {
                return None;
            },
        };
        match result {
            0 => {
                let mut kept = remove_all(&self.prefs.blocked_whispers, &name);
                if block {
                    kept.push(name.clone());
                    assert(views(kept@) =~= views(kept@.drop_last()).push(name@));
                }
                self.prefs.blocked_whispers = kept;
                let mut text = String::from_str(if block { "Blocked" } else { "Unblocked" });
                text.append(" whispers from ");
                text.append(name.as_str());
                text.append(".");
                Some(ChatLine { kind: ChatKind::System, text })
            },
            2 => Some(ChatLine::from_str(ChatKind::Error, "Your block list is full.")),
            _ => {
                let mut text = String::from_str("Could not change whisper setting for ");
                text.append(name.as_str());
                text.append(".");
                Some(ChatLine { kind: ChatKind::Error, text })
            },
        }
    }

    /// A divorce forgets the partner's name.
    pub fn handle_divorced(&mut self, name: String) -> (line: ChatLine)
        ensures
            divorced_step(*old(self), *final(self), name, line),
    {
        self.partner_name = String::new();
        let mut text = String::from_str("You have divorced ");
        text.append(name.as_str());
        text.append(".");
        ChatLine { kind: ChatKind::System, text }
    }

    /// The "I miss you" balloon over the caster names the partner; nothing
    /// shows when the player has none.
    pub fn spawn_call_partner_balloon(&self, src_gid: u32) -> (out: Option<Effect>)
        ensures
            self.partner_name@.len() == 0 ==> out is None,
            self.partner_name@.len() != 0 ==> (out matches Some(Effect::ChatBubble { gid, text })
                && gid == src_gid && text@ == self.partner_name@ + " !!  I miss you"@),
    {
        if self.partner_name.unicode_len() == 0 {
            return None;
        }
        let mut text = self.partner_name.clone();
        text.append(" !!  I miss you");
        Some(Effect::ChatBubble { gid: src_gid, text })
    }
}

/// A successful single-name block leaves the name in the list exactly once
/// and the other names as they were; a successful unblock leaves it out.
/// What the MVP of a boss fight is told.
#[derive(Clone, Copy, Debug, PartialEq, Eq, Structural)]
pub enum MvpFeedback {
    /// The reward item.
    Item { item_id: u16 },
    /// The reward experience.
    Exp { exp: u64 },
    /// The reward could not be taken: the player is overweight.
    ItemDropped,
}

/// The MVP reward line and its colour; `item_name` is the item table's
/// name for the reward item, if it has one.
pub open spec fn spec_mvp_line(kind: MvpFeedback, item_name: Option<String>) -> (Seq<char>, TextColor) {
    match kind {
        MvpFeedback::Item { item_id } => (
            "Congratulations! You are the MVP! Your reward item is "@ + item_label(item_id, item_name)
                + " !!"@,
            TextColor::Cyan,
        ),
        MvpFeedback::Exp { exp } => (
            "Congratulations! You are the MVP! Your reward EXP Points are "@ + dec(exp as nat)
                + " !!"@,
            TextColor::Cyan,
        ),
        MvpFeedback::ItemDropped => (
            "You are the MVP, but cannot obtain the reward because you are overweight."@,
            TextColor::Red,
        ),
    }
}

impl App {
    /// The MVP reward line; `item_name` is the item table's name for the
    /// reward item, if it has one.
    pub fn handle_mvp_feedback(kind: MvpFeedback, item_name: Option<String>) -> (line: ChatLine)
        ensures
            mvp_feedback_step(kind, item_name, line),
    {
        match kind {
            MvpFeedback::Item { item_id } => {
                let mut text = String::from_str("Congratulations! You are the MVP! Your reward item is ");
                match item_name {
                    Some(n) => text.append(n.as_str()),
                    None => {
                        text.append("Item #");
                        push_decimal(&mut text, item_id as u64);
                    },
                }
                text.append(" !!");
                assert(text@ =~= spec_mvp_line(kind, item_name).0);
                ChatLine { kind: ChatKind::Colored(TextColor::Cyan.rgb()), text }
            },
            MvpFeedback::Exp { exp } => {
                let mut text = String::from_str(
                    "Congratulations! You are the MVP! Your reward EXP Points are ",
                );
                push_decimal(&mut text, exp);
                text.append(" !!");
                assert(text@ =~= spec_mvp_line(kind, item_name).0);
                ChatLine { kind: ChatKind::Colored(TextColor::Cyan.rgb()), text }
            },
            MvpFeedback::ItemDropped => ChatLine::from_str(
                ChatKind::Colored(TextColor::Red.rgb()),
                "You are the MVP, but cannot obtain the reward because you are overweight.",
            ),
        }
    }

    /// Our PvP record, in cyan.
    pub fn handle_pvp_points_received(win: i32, lose: i32, point: i32) -> (line: ChatLine)
        ensures
            pvp_points_received_step(win, lose, point, line),
    {
        let mut text = String::from_str("You have ");
        push_signed_decimal(&mut text, win as i64);
        text.append(" win(s), ");
        push_signed_decimal(&mut text, lose as i64);
        text.append(" loss(es) and ");
        push_signed_decimal(&mut text, point as i64);
        text.append(" PvP point(s).");
        ChatLine { kind: ChatKind::Colored(TextColor::Cyan.rgb()), text }
    }

    /// A message the server colours itself (`color` as a `0x00BBGGRR`
    /// word), from the entity `gid`: it shows over that entity and in the
    /// chat window in its colour.
    pub fn handle_server_colored_message(gid: u32, color: u32, message: String) -> (out: Vec<Effect>)
        ensures
            server_colored_message_step(gid, color, message, out@),
    {
        let bubble = Effect::ChatBubble { gid, text: message.clone() };
        let line = Effect::Chat(ChatLine { kind: ChatKind::Colored(bgr(color)), text: message });
        two(bubble, line)
    }
}

/// The block list after the server confirms a (un)block of `name`: a
/// blocked name is in it exactly once, last; an unblocked one is gone; every
/// other name stays as it was.
pub proof fn lemma_whisper_block_membership(blocked: Seq<Seq<char>>, name: Seq<char>, block: bool)
    ensures
        block ==> spec_blocked_after(blocked, name, block).contains(name),
        block ==> spec_blocked_after(blocked, name, block).last() == name,
        block ==> !spec_blocked_after(blocked, name, block).drop_last().contains(name),
        !block ==> !spec_blocked_after(blocked, name, block).contains(name),
        forall|other: Seq<char>|
            other != name ==> (#[trigger] spec_blocked_after(blocked, name, block).contains(other)
                <==> blocked.contains(other)),
{
    lemma_without_absent(blocked, name);
    let after = spec_blocked_after(blocked, name, block);
    if block {
        assert(after.drop_last() =~= without(blocked, name));
        assert(after[after.len() - 1] == name);
        assert forall|other: Seq<char>| other != name implies (#[trigger] after.contains(other)
            <==> blocked.contains(other)) by {
            let w = without(blocked, name);
            if after.contains(other) {
                let j = choose|j: int| 0 <= j < after.len() && after[j] == other;
                assert(w[j] == other);
            }
            if w.contains(other) {
                let j = choose|j: int| 0 <= j < w.len() && w[j] == other;
                assert(after[j] == other);
            }
        }
    }
}

} // verus!

verus! {

/// 1 when `b` holds, else 0.
pub open spec fn ord(b: bool) -> int {
    if b { 1 } else { 0 }
}

/// `out` is what a public chat line `message` gives, in order: a bubble over
/// `bubble_on` with what the line says, when there is someone to carry it and
/// the line says something; the line for the chat room, when `to_room`
/// (marked as ours when `own`); and the line in the chat window as `kind`,
/// when `shown`.
pub open spec fn heard(
    out: Seq<Effect>,
    bubble_on: Option<u32>,
    message: Seq<char>,
    to_room: bool,
    own: bool,
    shown: bool,
    kind: ChatKind,
) -> bool {
    let bubble = bubble_on is Some && said(message) is Some;
    let nb = ord(bubble);
    let nr = ord(to_room);
    &&& out.len() == nb + nr + ord(shown)
    &&& bubble ==> (out[0] matches Effect::ChatBubble { gid, text } && gid == bubble_on->0
        && text@ == said(message)->0)
    &&& to_room ==> (out[nb] matches Effect::ChatRoomLine { text, own: o } && text@ == message
        && o == own)
    &&& shown ==> is_chat(out[nb + nr], kind, message)
}

/// The line `message` is the player's own: a character is selected and its
/// name is who the line says spoke.
pub open spec fn own_line(character_name: Seq<char>, message: Seq<char>) -> bool {
    character_name.len() > 0 && speaker(message) == Some(character_name)
}

/// The chat room, open with `members` in it, takes the line `message`: who
/// spoke is one of them.
pub open spec fn room_takes(members: Option<&Vec<String>>, message: Seq<char>) -> bool {
    &&& members is Some
    &&& speaker(message) is Some
    &&& views(members->0@).contains(speaker(message)->0)
}

/// Whether `who` is among `members`.
fn is_member(members: &Vec<String>, who: &String) -> (b: bool)
    ensures
        b == views(members@).contains(who@),
{
    let mut k: usize = 0;
    while k < members.len()
        invariant
            k <= members.len(),
            forall|j: int| 0 <= j < k ==> members@[j]@ != who@,
        decreases members.len() - k,
    {
        if members[k] == *who {
            assert(views(members@)[k as int] == who@);
            return true;
        }
        k = k + 1;
    }
    assert forall|j: int| 0 <= j < views(members@).len() implies views(members@)[j] != who@ by {
        assert(views(members@)[j] == members@[j]@);
    }
    false
}

impl App {
    /// Someone's public chat line `message`, said by entity `gid`: a bubble
    /// over the speaker with what was said; the line in the chat room when
    /// the room is open (`room_members` holds who is in it) and the speaker
    /// is there; and the line in the chat window unless public chat is
    /// hidden and the line is not our own, in the game-master colour when
    /// the sender is one.
    pub fn handle_chat_message(
        &self,
        gid: u32,
        message: String,
        sender_is_gm: bool,
        room_members: Option<&Vec<String>>,
    ) -> (out: Vec<Effect>)
        ensures
            heard(
                out@,
                Some(gid),
                message@,
                room_takes(room_members, message@),
                false,
                own_line(self.character_name@, message@) || !self.prefs.hide_public_chat,
                if sender_is_gm { ChatKind::Gm } else { ChatKind::Public },
            ),
    {
        let mut out: Vec<Effect> = Vec::new();
        let mut to_room = false;
        let mut is_own = false;
        match split_chat_line(message.as_str()) {
            Some((who, what)) => {
                out.push(Effect::ChatBubble { gid, text: what });
                to_room = match room_members {
                    Some(m) => is_member(m, &who),
                    None => false,
                };
                is_own = !self.character_name.as_str().is_empty() && who == self.character_name;
            },
            None => {},
        }
        if to_room {
            out.push(Effect::ChatRoomLine { text: message.clone(), own: false });
        }
        if is_own || !self.prefs.hide_public_chat {
            let kind = if sender_is_gm { ChatKind::Gm } else { ChatKind::Public };
            out.push(Effect::Chat(ChatLine { kind, text: message }));
        }
        out
    }

    /// The player's own public chat line `message`: a bubble over the player
    /// with what was said, the line in the chat room when one is open, and the
    /// line in the chat window, in the game-master colour when the player is one.
    pub fn handle_own_chat_message(&self, message: String, room_open: bool, player_is_gm: bool) -> (out: Vec<Effect>)
        ensures
            own_chat_message_step(*self, message, room_open, player_is_gm, out@),
    {
        let mut out: Vec<Effect> = Vec::new();
        match (split_chat_line(message.as_str()), self.player_id) {
            (Some((_, what)), Some(player)) => {
                out.push(Effect::ChatBubble { gid: player, text: what });
            },
            _ => {},
        }
        if room_open {
            out.push(Effect::ChatRoomLine { text: message.clone(), own: true });
        }
        let kind = if player_is_gm { ChatKind::Gm } else { ChatKind::Own };
        out.push(Effect::Chat(ChatLine { kind, text: message }));
        out
    }
}

} // verus!

verus! {

/// The name a GM status report is headed with: the one we asked about, or
/// "Status" when we asked about nobody.
pub open spec fn gm_title(asked: Option<String>) -> Seq<char> {
    match asked {
        Some(n) => n@,
        None => "Status"@,
    }
}

/// A skill only a married couple has, and what its balloon says.
#[derive(Clone, Copy, Debug, PartialEq, Eq, Structural)]
pub enum WeddingSkill {
    /// The husband's skill.
    Male,
    /// The wife's skill.
    Female,
}

pub open spec fn love_line(skill: WeddingSkill) -> Seq<char> {
    match skill {
        WeddingSkill::Male => "I will protect you"@,
        WeddingSkill::Female => "I look up to you"@,
    }
}

impl App {
    /// A GM status report: a heading with the name we asked about (which is
    /// then forgotten), then each of its `lines`, indented.
    pub fn handle_gm_status(&mut self, lines: Vec<String>) -> (out: Vec<ChatLine>)
        ensures
            gm_status_step(*old(self), *final(self), lines, out@),
    {
        let asked = self.pending.gm_check.take();
        let mut head = String::from_str("== ");
        match asked {
            Some(n) => head.append(n.as_str()),
            None => head.append("Status"),
        }
        head.append(" ==");
        let mut out: Vec<ChatLine> = Vec::new();
        out.push(ChatLine { kind: ChatKind::System, text: head });
        let mut i: usize = 0;
        while i < lines.len()
            invariant
                i <= lines@.len(),
                out@.len() == 1 + i,
                is_line(out@[0], ChatKind::System, "== "@ + gm_title(asked) + " =="@),
                forall|j: int|
                    0 <= j < i ==> is_line(#[trigger] out@[j + 1], ChatKind::System, "  "@ + lines@[j]@),
            decreases lines@.len() - i,
        {
            let mut text = String::from_str("  ");
            text.append(lines[i].as_str());
            out.push(ChatLine { kind: ChatKind::System, text });
            i = i + 1;
        }
        out
    }

    /// The outcome of giving someone a manner point, read as `line` from the
    /// outcome table: outcomes 3 and up are errors, the rest notices; an
    /// outcome the table lacks shows nothing.
    pub fn handle_manner_point_result(result: u32, line: Option<String>) -> (out: Option<ChatLine>)
        ensures
            manner_point_result_step(result, line, out),
    {
        match line {
            Some(text) => {
                let kind = if result >= 3 { ChatKind::Error } else { ChatKind::Notice };
                Some(ChatLine { kind, text })
            },
            None => None,
        }
    }

    /// A wedding skill cast by `src_gid` shows a balloon over the caster
    /// naming its partner (`partner_name`, empty when the partner is not in
    /// view) and what the skill says; other skills show none.
    pub fn spawn_wedding_balloon(skill: Option<WeddingSkill>, src_gid: u32, partner_name: Option<String>) -> (out:
        Option<Effect>)
        ensures
            skill is None ==> out is None,
            skill matches Some(k) ==> (out matches Some(Effect::ChatBubble { gid, text }) && gid
                == src_gid && text@ == (match partner_name {
                Some(n) => n@,
                None => Seq::<char>::empty(),
            }) + " !!  "@ + love_line(k)),
    {
        let k = match skill {
            Some(k) => k,
            None => {
                return None;
            },
        };
        let mut text = match partner_name {
            Some(n) => n,
            None => String::new(),
        };
        text.append(" !!  ");
        match k {
            WeddingSkill::Male => text.append("I will protect you"),
            WeddingSkill::Female => text.append("I look up to you"),
        }
        Some(Effect::ChatBubble { gid: src_gid, text })
    }
}

/// What `handle_adoption_message` gives.
pub open spec fn adoption_message_step(msg_no: i32, line: ChatLine) -> bool {
    &&& (is_line(line, ChatKind::System, spec_adoption_message(msg_no)))
}

/// What `handle_guild_chat_message` gives.
pub open spec fn guild_chat_message_step(message: String, line: ChatLine) -> bool {
    &&& (is_line(line, ChatKind::Guild, message@))
}

/// What `handle_whisper_received` gives.
pub open spec fn whisper_received_step(sender: String, message: String, out: Seq<Effect>) -> bool {
    &&& ((out).len() == 2)
    &&& ((out)[0] matches Effect::RememberWhisper(s) && s@ == sender@)
    &&& ((out)[1] matches Effect::WhisperIn { sender: s, message: m } && s@ == sender@ && m@
                    == message@)
}

/// What `handle_whisper_ack` gives.
pub open spec fn whisper_ack_step(a: App, b: App, result: u8, out: Option<Effect>) -> bool {
    &&& (b == (App {
                    pending: Pending { whisper_out: None, ..a.pending },
                    ..a
                }))
    &&& (result == 0 ==> match a.pending.whisper_out {
                    Some((name, message)) => out matches Some(Effect::WhisperOut { name: n, message: m })
                        && n@ == name@ && m@ == message@,
                    None => out is None,
                })
    &&& (result != 0 ==> (out matches Some(e) && is_chat(
                    e,
                    ChatKind::Error,
                    match a.pending.whisper_out {
                        Some((name, _)) => "("@ + name@ + ") "@ + spec_whisper_ack_text(result),
                        None => spec_whisper_ack_text(result),
                    },
                )))
}

/// What `handle_memo_result` gives.
pub open spec fn memo_result_step(result: u8, line: ChatLine) -> bool {
    &&& (is_line(line, spec_memo_result(result).0, spec_memo_result(result).1))
}

/// What `handle_map_info_notice` gives.
pub open spec fn map_info_notice_step(atype: i16, out: Option<Effect>) -> bool {
    &&& (match spec_map_info_notice(atype) {
                    Some((id, color)) => out matches Some(e) && is_msg_line(e, id, color),
                    None => out is None,
                })
}

/// What `handle_user_count` gives.
pub open spec fn user_count_step(count: i32, out: Effect) -> bool {
    &&& (out matches Effect::MsgNotice { msg_id, args, fallback } && msg_id
                    == MSI_PLAYERS_CONNECTED && args@.len() == 1 && args@[0]@ == sdec(count as int)
                    && fallback@ == user_count_text(count as int))
}

/// What `handle_account_name` gives.
pub open spec fn account_name_step(aid: u32, name: String, line: ChatLine) -> bool {
    &&& (is_line(line, ChatKind::System, account_name_text(aid as nat, name@)))
}

/// What `handle_whisper_setting_result` gives.
pub open spec fn whisper_setting_result_step(a: App, b: App, allow: bool, result: u8, all: bool, out: Option<ChatLine>) -> bool {
    &&& (b == (App {
                    prefs: b.prefs,
                    pending: b.pending,
                    ..a
                }))
    &&& (b.pending == (Pending { whisper_block: None, ..a.pending }))
    &&& (b.prefs == (Prefs {
                    blocked_whispers: b.prefs.blocked_whispers,
                    ..a.prefs
                }))
    &&& (all ==> views(b.prefs.blocked_whispers@) =~= views(
                    a.prefs.blocked_whispers@,
                ))
    &&& (all ==> (out matches Some(l) && is_line(
                    l,
                    ChatKind::System,
                    spec_whisper_all_text(result, !allow),
                )))
    &&& (!all ==> match a.pending.whisper_block {
                    None => out is None && views(b.prefs.blocked_whispers@) =~= views(
                        a.prefs.blocked_whispers@,
                    ),
                    Some((name, _)) => {
                        &&& views(b.prefs.blocked_whispers@) =~= if result == 0 {
                            spec_blocked_after(views(a.prefs.blocked_whispers@), name@, !allow)
                        } else {
                            views(a.prefs.blocked_whispers@)
                        }
                        &&& out matches Some(l) && is_line(
                            l,
                            spec_whisper_setting_line(result, !allow, name@).0,
                            spec_whisper_setting_line(result, !allow, name@).1,
                        )
                    },
                })
}

/// What `handle_divorced` gives.
pub open spec fn divorced_step(a: App, b: App, name: String, line: ChatLine) -> bool {
    &&& (b == (App { partner_name: b.partner_name, ..a }))
    &&& (b.partner_name@.len() == 0)
    &&& (is_line(line, ChatKind::System, "You have divorced "@ + name@ + "."@))
}

/// What `handle_mvp_feedback` gives.
pub open spec fn mvp_feedback_step(kind: MvpFeedback, item_name: Option<String>, line: ChatLine) -> bool {
    &&& (is_line(
                    line,
                    ChatKind::Colored(spec_mvp_line(kind, item_name).1.spec_rgb()),
                    spec_mvp_line(kind, item_name).0,
                ))
}

/// What `handle_pvp_points_received` gives.
pub open spec fn pvp_points_received_step(win: i32, lose: i32, point: i32, line: ChatLine) -> bool {
    &&& (is_line(
                    line,
                    ChatKind::Colored(TextColor::Cyan.spec_rgb()),
                    "You have "@ + sdec(win as int) + " win(s), "@ + sdec(lose as int) + " loss(es) and "@
                        + sdec(point as int) + " PvP point(s)."@,
                ))
}

/// What `handle_server_colored_message` gives.
pub open spec fn server_colored_message_step(gid: u32, color: u32, message: String, out: Seq<Effect>) -> bool {
    &&& ((out).len() == 2)
    &&& ((out)[0] matches Effect::ChatBubble { gid: g, text } && g == gid && text@ == message@)
    &&& ((out)[1] matches Effect::Chat(l) && l.text@ == message@ && (l.kind matches ChatKind::Colored(
                    c,
                ) && c.r == color % 256 && c.g == (color / 256) % 256 && c.b == (color / 65536) % 256))
}

/// What `handle_own_chat_message` gives.
pub open spec fn own_chat_message_step(a: App, message: String, room_open: bool, player_is_gm: bool, out: Seq<Effect>) -> bool {
    &&& (heard(
                    (out),
                    a.player_id,
                    message@,
                    room_open,
                    true,
                    true,
                    if player_is_gm { ChatKind::Gm } else { ChatKind::Own },
                ))
}

/// What `handle_gm_status` gives.
pub open spec fn gm_status_step(a: App, b: App, lines: Vec<String>, out: Seq<ChatLine>) -> bool {
    &&& (b == (App {
                    pending: Pending { gm_check: None, ..a.pending },
                    ..a
                }))
    &&& ((out).len() == lines@.len() + 1)
    &&& (is_line((out)[0], ChatKind::System, "== "@ + gm_title(a.pending.gm_check) + " =="@))
    &&& (forall|i: int|
                    0 <= i < lines@.len() ==> is_line(
                        #[trigger] (out)[i + 1],
                        ChatKind::System,
                        "  "@ + lines@[i]@,
                    ))
}

/// What `handle_manner_point_result` gives.
pub open spec fn manner_point_result_step(result: u32, line: Option<String>, out: Option<ChatLine>) -> bool {
    &&& (line is None ==> out is None)
    &&& (line matches Some(l) ==> (out matches Some(c) && is_line(
                    c,
                    if result >= 3 { ChatKind::Error } else { ChatKind::Notice },
                    l@,
                )))
}

impl App {
    /// The server names the player's spouse.
    pub fn handle_couple_name_received(&mut self, name: String)
        ensures
            *final(self) == (App { partner_name: name, ..*old(self) }),
    {
        self.partner_name = name;
    }
}

} // verus!
