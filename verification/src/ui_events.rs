//! The player's requests from the windows that the library decides on,
//! and the one entry point that hands each to its handler.
use vstd::prelude::*;
use crate::app::App;
use crate::command::{ChatCommand, CommandContext, chat_reply};
use crate::effects::{ConfirmAction, Effect, one};
use crate::slash::{after_slash, slash_reply};
use crate::events::first_of;
use crate::combat::{approach_started_step, stop_attacking_step};
use crate::production::{close_own_shop_step};
use crate::requests::{confirmed_guild_expel_step, request_delete_guild_relation_step, request_exchange_item_step, request_guild_ally_step, request_guild_invite_step, request_guild_leave_step, request_npc_close_step, request_npc_menu_select_step, request_party_invite_step, request_send_whisper_step, request_set_guild_notice_step};
use crate::social::{answer_confirm_step};
use crate::trade::{respond_exchange_request_step};

verus! {

/// A request of the player, with the plain values the decision reads.
pub enum UiEvent {
    ApproachStarted { target_id: u32 },
    StopAttacking,
    CloseOwnShop,
    RequestNpcClose { npc_id: u32 },
    RequestNpcMenuSelect { npc_id: u32, choice: u8 },
    RequestExchangeItem { target_aid: u32, target_name: Option<String> },
    RequestSendWhisper { name: String, message: String },
    RequestPartyInvite { target_aid: u32, selected_name: Option<String> },
    RequestSetGuildNotice { subject: String, body: String },
    RequestGuildLeave,
    ConfirmedGuildExpel { aid: u32, gid: u32, reason: String },
    RequestGuildInvite { target_aid: u32 },
    RequestGuildAlly { target_aid: u32 },
    RequestDeleteGuildRelation { gdid: u32, relation: i32 },
    AnswerConfirm { action: ConfirmAction, accept: bool },
    RespondExchangeRequest { accept: bool },
    /// A line typed into the chat box.
    SendChat { message: String, ctx: CommandContext },
    /// A slash command, as the parser read it from the line `raw`.
    SlashCommand { command: ChatCommand, raw: String, ctx: CommandContext },
}

/// What the request `e` leaves (`s1`) of the state `s0`, and hands on
/// (`out`): what its handler does.
pub open spec fn ui_event_step(s0: App, e: UiEvent, s1: App, out: Seq<Effect>) -> bool {
    match e {
        UiEvent::SendChat { message, ctx } => chat_reply(s0, message@, ctx, out) && s1 == s0,
        UiEvent::SlashCommand { command, raw, ctx } => s1 == after_slash(s0, command) && slash_reply(
            s0,
            command,
            raw@,
            ctx,
            out,
        ),
        UiEvent::ApproachStarted { target_id } => approach_started_step(s0, s1, target_id) && out.len() == 0,
        UiEvent::StopAttacking => stop_attacking_step(s0, s1, first_of(out)) && out.len() <= 1,
        UiEvent::CloseOwnShop => close_own_shop_step(s0, s1, out),
        UiEvent::RequestNpcClose { npc_id } => request_npc_close_step(s0, s1, npc_id, out[0]) && out.len() == 1,
        UiEvent::RequestNpcMenuSelect { npc_id, choice } => request_npc_menu_select_step(s0, s1, npc_id, choice, out[0]) && out.len() == 1,
        UiEvent::RequestExchangeItem { target_aid, target_name } => request_exchange_item_step(s0, s1, target_aid, target_name, out[0]) && out.len() == 1,
        UiEvent::RequestSendWhisper { name, message } => request_send_whisper_step(s0, s1, name, message, out[0]) && out.len() == 1,
        UiEvent::RequestPartyInvite { target_aid, selected_name } => request_party_invite_step(s0, s1, target_aid, selected_name, out[0]) && out.len() == 1,
        UiEvent::RequestSetGuildNotice { subject, body } => request_set_guild_notice_step(s0, subject, body, first_of(out)) && out.len() <= 1 && s1 == s0,
        UiEvent::RequestGuildLeave => request_guild_leave_step(s0, out[0]) && out.len() == 1 && s1 == s0,
        UiEvent::ConfirmedGuildExpel { aid, gid, reason } => confirmed_guild_expel_step(s0, aid, gid, reason, first_of(out)) && out.len() <= 1 && s1 == s0,
        UiEvent::RequestGuildInvite { target_aid } => request_guild_invite_step(s0, target_aid, out[0]) && out.len() == 1 && s1 == s0,
        UiEvent::RequestGuildAlly { target_aid } => request_guild_ally_step(s0, target_aid, out[0]) && out.len() == 1 && s1 == s0,
        UiEvent::RequestDeleteGuildRelation { gdid, relation } => request_delete_guild_relation_step(gdid, relation, out[0]) && out.len() == 1 && s1 == s0,
        UiEvent::AnswerConfirm { action, accept } => answer_confirm_step(s0, s1, action, accept, out),
        UiEvent::RespondExchangeRequest { accept } => respond_exchange_request_step(s0, s1, accept, out[0]) && out.len() == 1,
    }
}

impl App {
    /// Hands a request of the player to its handler.
    pub fn handle_ui_event(&mut self, event: UiEvent) -> (out: Vec<Effect>)
        ensures
            ui_event_step(*old(self), event, *final(self), out@),
    {
        match event {
            UiEvent::SendChat { message, ctx } => self.run_chat_command(message.as_str(), &ctx),
            UiEvent::SlashCommand { command, raw, ctx } => self.handle_slash_command(
                command,
                raw.as_str(),
                &ctx,
            ),
            UiEvent::ApproachStarted { target_id } => {
                self.approach_started(target_id);
                Vec::new()
            },
            UiEvent::StopAttacking => match self.stop_attacking() {
                Some(e) => one(e),
                None => Vec::new(),
            },
            UiEvent::CloseOwnShop => self.close_own_shop(),
            UiEvent::RequestNpcClose { npc_id } => one(self.request_npc_close(npc_id)),
            UiEvent::RequestNpcMenuSelect { npc_id, choice } => one(self.request_npc_menu_select(npc_id, choice)),
            UiEvent::RequestExchangeItem { target_aid, target_name } => one(self.request_exchange_item(target_aid, target_name)),
            UiEvent::RequestSendWhisper { name, message } => one(self.request_send_whisper(name, message)),
            UiEvent::RequestPartyInvite { target_aid, selected_name } => one(self.request_party_invite(target_aid, selected_name)),
            UiEvent::RequestSetGuildNotice { subject, body } => match self.request_set_guild_notice(subject, body) {
                Some(e) => one(e),
                None => Vec::new(),
            },
            UiEvent::RequestGuildLeave => one(self.request_guild_leave()),
            UiEvent::ConfirmedGuildExpel { aid, gid, reason } => match self.confirmed_guild_expel(aid, gid, reason) {
                Some(e) => one(e),
                None => Vec::new(),
            },
            UiEvent::RequestGuildInvite { target_aid } => one(self.request_guild_invite(target_aid)),
            UiEvent::RequestGuildAlly { target_aid } => one(self.request_guild_ally(target_aid)),
            UiEvent::RequestDeleteGuildRelation { gdid, relation } => one(App::request_delete_guild_relation(gdid, relation)),
            UiEvent::AnswerConfirm { action, accept } => self.answer_confirm(action, accept),
            UiEvent::RespondExchangeRequest { accept } => one(self.respond_exchange_request(accept)),
        }
    }
}

} // verus!
