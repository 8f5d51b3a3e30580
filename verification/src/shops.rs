//! Shops, vending, storage, mail, pets, quests and friends: the reactions
//! that report an outcome or hand a change on.
use vstd::prelude::*;
use vstd::string::*;
use crate::app::{App, Pending};
use crate::effects::{
    ChatKind, ChatLine, ConfirmAction, Effect, ItemOp, MailOp, Packet, PasswordOp, SessionChange,
    WindowId, four, is_chat, is_dialog, is_line, one, three, two,
};
use crate::session::logged_out;
use crate::notice::{MSI_CANT_MAKE_ITEM, TextColor, spec_weapon_refine_notice, weapon_refine_notice};
use crate::text::{dec, push_decimal};

verus! {

pub open spec fn spec_login_refused(error_code: u8) -> Seq<char> {
    if error_code == 0 {
        "Unregistered ID"@
    } else if error_code == 1 {
        "Incorrect Password"@
    } else if error_code == 2 {
        "ID expired"@
    } else if error_code == 3 {
        "Rejected from server"@
    } else if error_code == 4 {
        "Blocked by GM"@
    } else if error_code == 5 {
        "Not latest client"@
    } else if error_code == 6 {
        "Banned"@
    } else {
        "Unknown error"@
    }
}

pub open spec fn spec_char_create_error(error_code: u8) -> Seq<char> {
    if error_code == 0 {
        "That name already exists."@
    } else if error_code == 1 {
        "You are not eligible to create a character."@
    } else if error_code == 2 {
        "Character creation denied."@
    } else if error_code == 3 {
        "Character creation is currently disabled."@
    } else {
        "Character creation failed."@
    }
}

pub open spec fn spec_char_delete_reserve_error(result: u32) -> Seq<char> {
    if result == 3 {
        "A database error occurred."@
    } else if result == 4 {
        "Leave your guild to delete this character."@
    } else if result == 5 {
        "Leave your party to delete this character."@
    } else {
        "Unable to schedule deletion."@
    }
}

pub open spec fn spec_char_delete_confirm_error(result: u32) -> Seq<char> {
    if result == 2 {
        "This character cannot be deleted."@
    } else if result == 3 {
        "A database error occurred."@
    } else if result == 4 {
        "The deletion delay has not elapsed yet."@
    } else if result == 5 {
        "The birthdate does not match."@
    } else {
        "Character deletion failed."@
    }
}

pub open spec fn spec_vending_purchase_text(result: u8) -> Seq<char> {
    if result == 0 {
        "Purchase complete."@
    } else if result == 1 {
        "Not enough zeny."@
    } else if result == 2 {
        "You are overweight."@
    } else if result == 4 {
        "The item is out of stock."@
    } else {
        "Purchase failed."@
    }
}

pub open spec fn spec_mail_get_item_error(result: u8) -> Seq<char> {
    if result == 1 {
        "Cannot receive zeny: it would exceed the limit."@
    } else {
        "Cannot receive item: not enough space or weight."@
    }
}

/// The name an item is shown under: the item table's name when it has one,
/// else `Item #id`.
pub open spec fn item_label(item_id: u16, name: Option<String>) -> Seq<char> {
    match name {
        Some(n) => n@,
        None => "Item #"@ + dec(item_id as nat),
    }
}

/// The dialog shown when the storage is locked after wrong passwords.
pub const STORAGE_LOCKED_MESSAGE: &'static str = "The password was wrong 3 times. The storage is locked for a while.";

impl App {
    /// The server let us go back to character select: the window state and
    /// configuration are saved, the session is logged out (see
    /// `on_session_change`) and we reconnect to the character server.
    pub fn handle_restart_ack(&mut self) -> (out: Vec<Effect>)
        ensures
            restart_ack_step(*old(self), *final(self), out@),
    {
        let mut out = two(Effect::CaptureWindowState, Effect::SaveConfig);
        let mut logout = self.on_session_change(SessionChange::Logout);
        out.append(&mut logout);
        out.push(Effect::ReconnectCharServer);
        out
    }

    /// The login server refused us; the reason for the account dialog.
    pub fn handle_login_refused(error_code: u8) -> (msg: &'static str)
        ensures
            msg@ == spec_login_refused(error_code),
    {
        match error_code {
            0 => "Unregistered ID",
            1 => "Incorrect Password",
            2 => "ID expired",
            3 => "Rejected from server",
            4 => "Blocked by GM",
            5 => "Not latest client",
            6 => "Banned",
            _ => "Unknown error",
        }
    }

    /// The shop's buy list replaces the NPC dialog. `fallback_npc_id` is
    /// the NPC of the dialog that led here.
    pub fn handle_npc_shop_buy_list(npc_id: u32, items: Vec<(u16, i32, i32, u8)>, fallback_npc_id: u32) -> (out:
        Vec<Effect>)
        ensures
            npc_shop_buy_list_step(npc_id, items, fallback_npc_id, out@),
    {
        vec![
            Effect::ApplyNpcBuyList { npc_id, fallback_npc_id, items },
            Effect::CloseWindow(WindowId::NpcDialog),
        ]
    }

    /// The shop's sell list replaces the NPC dialog.
    pub fn handle_npc_shop_sell_list(npc_id: u32, items: Vec<(i16, i32, i32)>, fallback_npc_id: u32) -> (out:
        Vec<Effect>)
        ensures
            npc_shop_sell_list_step(npc_id, items, fallback_npc_id, out@),
    {
        vec![
            Effect::ApplyNpcSellList { npc_id, fallback_npc_id, sell_items: items },
            Effect::CloseWindow(WindowId::NpcDialog),
        ]
    }

    /// The outcome of buying from an NPC shop.
    pub fn handle_npc_shop_buy_result(result: u8) -> (e: Effect)
        ensures
            npc_shop_buy_result_step(result, e),
    {
        Effect::NpcBuyResult(result)
    }

    /// The outcome of selling to an NPC shop.
    pub fn handle_npc_shop_sell_result(result: u8) -> (e: Effect)
        ensures
            npc_shop_sell_result_step(result, e),
    {
        Effect::NpcSellResult(result)
    }

    /// The outcome of buying from a player's shop; a completed purchase is
    /// recorded in the shop window when it is open.
    pub fn handle_vending_purchase_result(index: i16, curcount: i16, result: u8, shop_window_open: bool) -> (out:
        Vec<Effect>)
        ensures
            vending_purchase_result_step(index, curcount, result, shop_window_open, out@),
    {
        let msg = match result {
            0 => "Purchase complete.",
            1 => "Not enough zeny.",
            2 => "You are overweight.",
            4 => "The item is out of stock.",
            _ => "Purchase failed.",
        };
        let mut out = vec![Effect::Chat(ChatLine::from_str(ChatKind::System, msg))];
        if result == 0 && shop_window_open {
            out.push(Effect::RecordShopSale { index, count: curcount });
        }
        out
    }

    /// Something sold from our own shop.
    pub fn handle_vending_stock_decrement(index: i16, count: i16) -> (out: Vec<Effect>)
        ensures
            vending_stock_decrement_step(index, count, out@),
    {
        vec![
            Effect::RecordOwnSale { index, count },
            Effect::Chat(ChatLine::from_str(ChatKind::System, "An item was sold from your shop.")),
        ]
    }

    /// Our shop could not open (non-zero): the name we asked for is dropped.
    pub fn handle_vending_open_result(&mut self, result: u8) -> (out: Option<ChatLine>)
        ensures
            vending_open_result_step(*old(self), *final(self), result, out),
    {
        if result != 0 {
            self.pending.shop_name = None;
            return Some(ChatLine::from_str(ChatKind::System, "Failed to open your shop."));
        }
        None
    }

    /// The vending setup window, for at most `max_items` items (none when
    /// negative).
    pub fn handle_open_vending_setup(max_items: i16) -> (e: Effect)
        ensures
            open_vending_setup_step(max_items, e),
    {
        let n: usize = if max_items < 0 {
            0
        } else {
            max_items as usize
        };
        Effect::OpenVendingSetup(n)
    }

    /// The "cannot make anything" dialog of the message table.
    pub fn show_cant_make_item() -> (e: Effect)
        ensures
            e == Effect::MsgDialog(MSI_CANT_MAKE_ITEM),
    {
        Effect::MsgDialog(MSI_CANT_MAKE_ITEM)
    }

    /// The items we can make; with none, the "cannot make" dialog instead.
    pub fn handle_makable_item_list(item_ids: Vec<u16>) -> (e: Effect)
        ensures
            makable_item_list_step(item_ids, e),
    {
        if item_ids.len() == 0 {
            return Self::show_cant_make_item();
        }
        Effect::OpenMakeItemWindow(item_ids)
    }

    /// The weapon-refine notice, naming the item (`item_name`, as the item
    /// table gives it).
    pub fn handle_weapon_refine_result(result: i32, item_name: String) -> (out: Option<Effect>)
        ensures
            weapon_refine_result_step(result, item_name, out),
    {
        match weapon_refine_notice(result) {
            Some((msg_id, color)) => Some(Effect::MsgLine { msg_id, args: vec![item_name], color }),
            None => None,
        }
    }

    /// Feeding the pet. Without the food, the error names it (`food_name`
    /// from the item table, else its id); with it, the owner's emote follows.
    pub fn handle_pet_feed_result(ok: bool, food_item_id: u16, food_name: Option<String>) -> (e: Effect)
        ensures
            pet_feed_result_step(ok, food_item_id, food_name, e),
    {
        if ok {
            return Effect::PetFedAct;
        }
        let mut text = String::from_str("You don't have ");
        let ghost label = item_label(food_item_id, food_name);
        match food_name {
            Some(n) => text.append(n.as_str()),
            None => {
                text.append("Item #");
                push_decimal(&mut text, food_item_id as u64);
            },
        }
        text.append(".");
        assert(text@ =~= "You don't have "@ + label + "."@);
        Effect::Chat(ChatLine { kind: ChatKind::Error, text })
    }

    /// A capture item was used: the next click picks the monster.
    pub fn handle_pet_capture_start() -> (e: Effect)
        ensures
            pet_capture_start_step(e),
    {
        Effect::PetCaptureTargeting
    }

    /// The capture roulette lands on the server's verdict.
    pub fn handle_pet_capture_result(ok: bool) -> (e: Effect)
        ensures
            pet_capture_result_step(ok, e),
    {
        Effect::PetCaptureResolved(ok)
    }

    /// A quest left the quest log.
    pub fn handle_quest_removed(quest_id: u32) -> (e: Effect)
        ensures
            quest_removed_step(quest_id, e),
    {
        Effect::QuestRemove(quest_id)
    }

    /// A quest was switched on or off in the quest log.
    pub fn handle_quest_active_changed(quest_id: u32, active: bool) -> (e: Effect)
        ensures
            quest_active_changed_step(quest_id, active, e),
    {
        Effect::QuestSetActive { quest_id, active }
    }

    /// A friend came online or went offline.
    pub fn handle_friend_state_changed(aid: u32, gid: u32, online: bool) -> (e: Effect)
        ensures
            friend_state_changed_step(aid, gid, online, e),
    {
        Effect::FriendSetState { aid, gid, online }
    }

    /// A friend left the friend list.
    pub fn handle_friend_removed(aid: u32, gid: u32) -> (e: Effect)
        ensures
            friend_removed_step(aid, gid, e),
    {
        Effect::FriendRemove { aid, gid }
    }

    /// The storage opened or its counts changed. `already_open` says
    /// whether the storage window is up; when it is not, it opens with the
    /// items that arrived before, and the inventory opens beside it.
    pub fn handle_storage_opened(cur: i16, max: i16, already_open: bool) -> (out: Vec<Effect>)
        ensures
            storage_opened_step(cur, max, already_open, out@),
    {
        if already_open {
            vec![Effect::Items(ItemOp::StorageSetCounts { cur, max })]
        } else {
            vec![
                Effect::Items(ItemOp::StorageOpenWithPending { cur, max }),
                Effect::Items(ItemOp::InventoryOpen),
            ]
        }
    }

    /// `amount` of the storage item at `index` were taken out.
    pub fn handle_storage_item_removed(index: u16, amount: i16) -> (e: Effect)
        ensures
            storage_item_removed_step(index, amount, e),
    {
        Effect::Items(ItemOp::StorageRemove { index, amount })
    }

    /// The storage closed: its contents are dropped and the password window
    /// closes.
    pub fn handle_storage_closed() -> (out: Vec<Effect>)
        ensures
            storage_closed_step(out@),
    {
        vec![Effect::Items(ItemOp::StorageClear), Effect::CloseWindow(WindowId::StoragePassword)]
    }

    /// Three wrong storage passwords lock the storage for a while.
    pub fn show_storage_password_penalty() -> (e: Effect)
        ensures
            is_dialog(e, STORAGE_LOCKED_MESSAGE@),
    {
        Effect::Dialog(String::from_str(STORAGE_LOCKED_MESSAGE))
    }

    /// A mail was deleted (or could not be, while it still has
    /// attachments). `opened_mail_id` is the mail being read, if any; it
    /// closes when it is the deleted one.
    pub fn handle_mail_delete_ack(mail_id: u32, ok: bool, opened_mail_id: Option<u32>) -> (out:
        Vec<Effect>)
        ensures
            mail_delete_ack_step(mail_id, ok, opened_mail_id, out@),
    {
        if ok {
            let mut out = vec![Effect::Mail(MailOp::RemoveFromInbox(mail_id))];
            if opened_mail_id == Some(mail_id) {
                out.push(Effect::Mail(MailOp::CloseOpened));
            }
            out
        } else {
            vec![
                Effect::Chat(
                    ChatLine::from_str(
                        ChatKind::Error,
                        "Cannot delete a mail that still has attachments.",
                    ),
                ),
            ]
        }
    }

    /// Taking a mail's attachment: success empties the opened mail's zeny
    /// and item; otherwise the reason.
    pub fn handle_mail_get_item_ack(result: u8) -> (e: Effect)
        ensures
            mail_get_item_ack_step(result, e),
    {
        match result {
            0 => Effect::Mail(MailOp::ClearOpenedAttachment),
            1 => Effect::Chat(
                ChatLine::from_str(ChatKind::Error, "Cannot receive zeny: it would exceed the limit."),
            ),
            _ => Effect::Chat(
                ChatLine::from_str(
                    ChatKind::Error,
                    "Cannot receive item: not enough space or weight.",
                ),
            ),
        }
    }

    /// Attaching an item to the mail being written: accepted, the pending
    /// item becomes the attachment; refused, it is dropped.
    pub fn handle_mail_add_item_ack(index: u16, ok: bool) -> (out: Vec<Effect>)
        ensures
            mail_add_item_ack_step(index, ok, out@),
    {
        if ok {
            vec![Effect::Mail(MailOp::AttachPending)]
        } else {
            vec![
                Effect::Mail(MailOp::DropPending),
                Effect::Chat(ChatLine::from_str(ChatKind::Error, "This item cannot be attached.")),
            ]
        }
    }
}

/// Why a character could not be created.
pub fn char_create_error_message(error_code: u8) -> (msg: &'static str)
    ensures
        msg@ == spec_char_create_error(error_code),
{
    match error_code {
        0x00 => "That name already exists.",
        0x01 => "You are not eligible to create a character.",
        0x02 => "Character creation denied.",
        0x03 => "Character creation is currently disabled.",
        _ => "Character creation failed.",
    }
}

/// Why a character's deletion could not be scheduled.
pub fn char_delete_reserve_error(result: u32) -> (msg: &'static str)
    ensures
        msg@ == spec_char_delete_reserve_error(result),
{
    match result {
        3 => "A database error occurred.",
        4 => "Leave your guild to delete this character.",
        5 => "Leave your party to delete this character.",
        _ => "Unable to schedule deletion.",
    }
}

/// Why a scheduled deletion could not be confirmed.
pub fn char_delete_confirm_error(result: u32) -> (msg: &'static str)
    ensures
        msg@ == spec_char_delete_confirm_error(result),
{
    match result {
        2 => "This character cannot be deleted.",
        3 => "A database error occurred.",
        4 => "The deletion delay has not elapsed yet.",
        5 => "The birthdate does not match.",
        _ => "Character deletion failed.",
    }
}

/// How the server answered a storage password.
#[derive(Clone, Copy, Debug, PartialEq, Eq, Structural)]
pub enum StoragePasswordOutcome {
    ChangeOk,
    ChangeFailed,
    CheckOk,
    CheckFailed,
    LockedOut,
}

/// What the server asks before opening the storage.
#[derive(Clone, Copy, Debug, PartialEq, Eq, Structural)]
pub enum StoragePasswordPrompt {
    NotSetYet,
    Required,
    LockedOut,
}

/// How many wrong storage passwords the server takes before locking.
pub const PASSWORD_ATTEMPTS: i16 = 3;

/// The attempts left after `error_count` wrong passwords, never below zero.
pub open spec fn attempts_left(error_count: i16) -> int {
    if PASSWORD_ATTEMPTS - error_count < 0 {
        0
    } else {
        PASSWORD_ATTEMPTS - error_count
    }
}

/// `e` shows `text` in the storage-password window.
pub open spec fn is_password_message(e: Effect, text: Seq<char>) -> bool {
    e matches Effect::StoragePassword(PasswordOp::Message(m)) && m@ == text
}

fn password_message(text: &str) -> (e: Effect)
    ensures
        is_password_message(e, text@),
{
    Effect::StoragePassword(PasswordOp::Message(String::from_str(text)))
}

impl App {
    /// The server asks for the storage password: without one, the player is
    /// asked whether to set one; when one is set, the window opens to enter
    /// it; when locked out, the penalty is shown.
    pub fn handle_storage_password_request(prompt: StoragePasswordPrompt) -> (e: Effect)
        ensures
            storage_password_request_step(prompt, e),
    {
        match prompt {
            StoragePasswordPrompt::NotSetYet => Effect::Confirm {
                text: String::from_str("No storage password is set. Set one now?"),
                action: ConfirmAction::SetStoragePassword,
            },
            StoragePasswordPrompt::Required => Effect::StoragePassword(PasswordOp::OpenEnter),
            StoragePasswordPrompt::LockedOut => App::show_storage_password_penalty(),
        }
    }

    /// The password window for a prompt: set a new password, or enter the
    /// one set; nothing when locked out.
    pub fn open_storage_password_dialog(prompt: StoragePasswordPrompt) -> (out: Option<Effect>)
        ensures
            prompt == StoragePasswordPrompt::NotSetYet ==> out matches Some(
                Effect::StoragePassword(PasswordOp::OpenSetNew),
            ),
            prompt == StoragePasswordPrompt::Required ==> out matches Some(
                Effect::StoragePassword(PasswordOp::OpenEnter),
            ),
            prompt == StoragePasswordPrompt::LockedOut ==> out is None,
    {
        match prompt {
            StoragePasswordPrompt::NotSetYet => Some(Effect::StoragePassword(PasswordOp::OpenSetNew)),
            StoragePasswordPrompt::Required => Some(Effect::StoragePassword(PasswordOp::OpenEnter)),
            StoragePasswordPrompt::LockedOut => None,
        }
    }

    /// The server's answer to a storage password: a changed password is to
    /// be entered next; a wrong one says how many attempts are left; after
    /// too many, the window closes and the penalty is shown.
    pub fn handle_storage_password_result(outcome: StoragePasswordOutcome, error_count: i16) -> (out:
        Vec<Effect>)
        requires
            outcome == StoragePasswordOutcome::CheckFailed ==> error_count >= PASSWORD_ATTEMPTS
                - i16::MAX,
        ensures
            outcome == StoragePasswordOutcome::ChangeOk ==> out@.len() == 2 && (out@[0] matches Effect::StoragePassword(
                PasswordOp::OpenEnter,
            )) && is_password_message(out@[1], "Password changed. Enter it to continue."@),
            outcome == StoragePasswordOutcome::ChangeFailed ==> out@.len() == 2 && (out@[0] matches Effect::StoragePassword(
                PasswordOp::OpenEnter,
            )) && is_password_message(out@[1], "The password could not be changed."@),
            outcome == StoragePasswordOutcome::CheckOk ==> out@.len() == 1 && out@[0] matches Effect::StoragePassword(
                PasswordOp::Close,
            ),
            outcome == StoragePasswordOutcome::CheckFailed ==> out@.len() == 2 && (out@[0] matches Effect::StoragePassword(
                PasswordOp::EnsureOpenEnter,
            )) && is_password_message(
                out@[1],
                "Wrong password. "@ + dec(attempts_left(error_count) as nat) + " attempt(s) left."@,
            ),
            outcome == StoragePasswordOutcome::LockedOut ==> out@.len() == 2 && (out@[0] matches Effect::StoragePassword(
                PasswordOp::Close,
            )) && is_dialog(out@[1], STORAGE_LOCKED_MESSAGE@),
    {
        match outcome {
            StoragePasswordOutcome::ChangeOk => two(
                Effect::StoragePassword(PasswordOp::OpenEnter),
                password_message("Password changed. Enter it to continue."),
            ),
            StoragePasswordOutcome::ChangeFailed => two(
                Effect::StoragePassword(PasswordOp::OpenEnter),
                password_message("The password could not be changed."),
            ),
            StoragePasswordOutcome::CheckOk => one(Effect::StoragePassword(PasswordOp::Close)),
            StoragePasswordOutcome::CheckFailed => {
                let diff: i16 = PASSWORD_ATTEMPTS - error_count;
                let left: u64 = if diff < 0 {
                    0
                } else {
                    diff as u64
                };
                let mut text = String::from_str("Wrong password. ");
                push_decimal(&mut text, left);
                text.append(" attempt(s) left.");
                two(
                    Effect::StoragePassword(PasswordOp::EnsureOpenEnter),
                    Effect::StoragePassword(PasswordOp::Message(text)),
                )
            },
            StoragePasswordOutcome::LockedOut => two(
                Effect::StoragePassword(PasswordOp::Close),
                App::show_storage_password_penalty(),
            ),
        }
    }

    /// The mailbox window opened (the inbox is asked for) or closed.
    pub fn handle_mail_window(open: bool) -> (out: Vec<Effect>)
        ensures
            mail_window_step(open, out@),
    {
        if open {
            three(
                Effect::Mail(MailOp::Clear),
                Effect::Mail(MailOp::OpenInbox),
                Effect::Send(Packet::MailGetList),
            )
        } else {
            one(Effect::Mail(MailOp::Clear))
        }
    }

    /// The mail we sent was delivered (the inbox shows again and is asked
    /// for) or had no recipient.
    pub fn handle_mail_send_ack(ok: bool) -> (out: Vec<Effect>)
        ensures
            mail_send_ack_step(ok, out@),
    {
        if ok {
            four(
                Effect::Mail(MailOp::SendFinished),
                Effect::Mail(MailOp::SwitchToInbox),
                Effect::Chat(ChatLine::from_str(ChatKind::System, "Mail sent.")),
                Effect::Send(Packet::MailGetList),
            )
        } else {
            two(
                Effect::Mail(MailOp::SendFinished),
                Effect::Chat(ChatLine::from_str(ChatKind::Error, "The recipient does not exist.")),
            )
        }
    }

    /// New mail arrived (a zero id announces nothing). `inbox_shown` says
    /// whether the mailbox window is open on the inbox, which is then asked
    /// for again.
    pub fn handle_mail_new_received(mail_id: u32, inbox_shown: bool) -> (out: Vec<Effect>)
        ensures
            mail_new_received_step(mail_id, inbox_shown, out@),
    {
        if mail_id == 0 {
            return Vec::new();
        }
        let line = Effect::Chat(ChatLine::from_str(ChatKind::System, "You've got mail."));
        if inbox_shown {
            two(line, Effect::Send(Packet::MailGetList))
        } else {
            one(line)
        }
    }

    /// A mail was returned to its sender (or could not be): it leaves the
    /// inbox, closes if it was being read (`opened_mail_id`), and the inbox
    /// is asked for again.
    pub fn handle_mail_return_ack(mail_id: u32, ok: bool, opened_mail_id: Option<u32>) -> (out:
        Vec<Effect>)
        ensures
            mail_return_ack_step(mail_id, ok, opened_mail_id, out@),
    {
        if !ok {
            return one(
                Effect::Chat(ChatLine::from_str(ChatKind::Error, "Failed to return the mail.")),
            );
        }
        if opened_mail_id == Some(mail_id) {
            three(
                Effect::Mail(MailOp::RemoveFromInbox(mail_id)),
                Effect::Mail(MailOp::CloseOpened),
                Effect::Send(Packet::MailGetList),
            )
        } else {
            two(Effect::Mail(MailOp::RemoveFromInbox(mail_id)), Effect::Send(Packet::MailGetList))
        }
    }
}

/// What `handle_restart_ack` leaves and hands on.
pub open spec fn restart_ack_step(a: App, b: App, out: Seq<Effect>) -> bool {
    &&& out =~= seq![
                    Effect::CaptureWindowState,
                    Effect::SaveConfig,
                    Effect::Session(SessionChange::Logout),
                    Effect::ReconnectCharServer,
                ]
    &&& logged_out(a, b)
}

/// What `handle_npc_shop_buy_list` gives.
pub open spec fn npc_shop_buy_list_step(npc_id: u32, items: Vec<(u16, i32, i32, u8)>, fallback_npc_id: u32, out: Seq<Effect>) -> bool {
    &&& ((out).len() == 2)
    &&& ((out)[0] matches Effect::ApplyNpcBuyList { npc_id: n, fallback_npc_id: f, items: i } && n
                    == npc_id && f == fallback_npc_id && i@ == items@)
    &&& ((out)[1] == Effect::CloseWindow(WindowId::NpcDialog))
}

/// What `handle_npc_shop_sell_list` gives.
pub open spec fn npc_shop_sell_list_step(npc_id: u32, items: Vec<(i16, i32, i32)>, fallback_npc_id: u32, out: Seq<Effect>) -> bool {
    &&& ((out).len() == 2)
    &&& ((out)[0] matches Effect::ApplyNpcSellList { npc_id: n, fallback_npc_id: f, sell_items: i }
                    && n == npc_id && f == fallback_npc_id && i@ == items@)
    &&& ((out)[1] == Effect::CloseWindow(WindowId::NpcDialog))
}

/// What `handle_npc_shop_buy_result` gives.
pub open spec fn npc_shop_buy_result_step(result: u8, e: Effect) -> bool {
    &&& (e == Effect::NpcBuyResult(result))
}

/// What `handle_npc_shop_sell_result` gives.
pub open spec fn npc_shop_sell_result_step(result: u8, e: Effect) -> bool {
    &&& (e == Effect::NpcSellResult(result))
}

/// What `handle_vending_purchase_result` gives.
pub open spec fn vending_purchase_result_step(index: i16, curcount: i16, result: u8, shop_window_open: bool, out: Seq<Effect>) -> bool {
    &&& ((out).len() >= 1)
    &&& (is_chat((out)[0], ChatKind::System, spec_vending_purchase_text(result)))
    &&& (result == 0 && shop_window_open ==> (out).len() == 2 && (out)[1]
                    == (Effect::RecordShopSale { index, count: curcount }))
    &&& (!(result == 0 && shop_window_open) ==> (out).len() == 1)
}

/// What `handle_vending_stock_decrement` gives.
pub open spec fn vending_stock_decrement_step(index: i16, count: i16, out: Seq<Effect>) -> bool {
    &&& ((out).len() == 2)
    &&& ((out)[0] == (Effect::RecordOwnSale { index, count }))
    &&& (is_chat((out)[1], ChatKind::System, "An item was sold from your shop."@))
}

/// What `handle_vending_open_result` gives.
pub open spec fn vending_open_result_step(a: App, b: App, result: u8, out: Option<ChatLine>) -> bool {
    &&& (result == 0 ==> out is None && b == a)
    &&& (result != 0 ==> (out matches Some(l) && is_line(
                    l,
                    ChatKind::System,
                    "Failed to open your shop."@,
                )) && b == (App {
                    pending: Pending { shop_name: None, ..a.pending },
                    ..a
                }))
}

/// What `handle_open_vending_setup` gives.
pub open spec fn open_vending_setup_step(max_items: i16, e: Effect) -> bool {
    &&& (e == Effect::OpenVendingSetup(if max_items < 0 { 0usize } else { max_items as usize }))
}

/// What `handle_makable_item_list` gives.
pub open spec fn makable_item_list_step(item_ids: Vec<u16>, e: Effect) -> bool {
    &&& (item_ids@.len() == 0 ==> e == Effect::MsgDialog(MSI_CANT_MAKE_ITEM))
    &&& (item_ids@.len() > 0 ==> (e matches Effect::OpenMakeItemWindow(ids) && ids@ == item_ids@))
}

/// What `handle_weapon_refine_result` gives.
pub open spec fn weapon_refine_result_step(result: i32, item_name: String, out: Option<Effect>) -> bool {
    &&& (match spec_weapon_refine_notice(result) {
                    Some((id, color)) => out matches Some(Effect::MsgLine { msg_id, args, color: c })
                        && msg_id == id && c == color && args@.len() == 1 && args@[0]@ == item_name@,
                    None => out is None,
                })
}

/// What `handle_pet_feed_result` gives.
pub open spec fn pet_feed_result_step(ok: bool, food_item_id: u16, food_name: Option<String>, e: Effect) -> bool {
    &&& (ok ==> e == Effect::PetFedAct)
    &&& (!ok ==> is_chat(
                    e,
                    ChatKind::Error,
                    "You don't have "@ + item_label(food_item_id, food_name) + "."@,
                ))
}

/// What `handle_pet_capture_start` gives.
pub open spec fn pet_capture_start_step(e: Effect) -> bool {
    &&& (e == Effect::PetCaptureTargeting)
}

/// What `handle_pet_capture_result` gives.
pub open spec fn pet_capture_result_step(ok: bool, e: Effect) -> bool {
    &&& (e == Effect::PetCaptureResolved(ok))
}

/// What `handle_quest_removed` gives.
pub open spec fn quest_removed_step(quest_id: u32, e: Effect) -> bool {
    &&& (e == Effect::QuestRemove(quest_id))
}

/// What `handle_quest_active_changed` gives.
pub open spec fn quest_active_changed_step(quest_id: u32, active: bool, e: Effect) -> bool {
    &&& (e == (Effect::QuestSetActive { quest_id, active }))
}

/// What `handle_friend_state_changed` gives.
pub open spec fn friend_state_changed_step(aid: u32, gid: u32, online: bool, e: Effect) -> bool {
    &&& (e == (Effect::FriendSetState { aid, gid, online }))
}

/// What `handle_friend_removed` gives.
pub open spec fn friend_removed_step(aid: u32, gid: u32, e: Effect) -> bool {
    &&& (e == (Effect::FriendRemove { aid, gid }))
}

/// What `handle_storage_opened` gives.
pub open spec fn storage_opened_step(cur: i16, max: i16, already_open: bool, out: Seq<Effect>) -> bool {
    &&& (already_open ==> (out) =~= seq![Effect::Items(ItemOp::StorageSetCounts { cur, max })])
    &&& (!already_open ==> (out) =~= seq![
                    Effect::Items(ItemOp::StorageOpenWithPending { cur, max }),
                    Effect::Items(ItemOp::InventoryOpen),
                ])
}

/// The counts handed on when storage opens are the server's own: `cur` as
/// the number of items stored and `max` as the capacity, whether the window
/// opens now or was already open; a window that opens brings the inventory
/// up beside it.
pub proof fn lemma_storage_counts_as_sent(cur: i16, max: i16, already_open: bool, out: Seq<Effect>)
    requires
        storage_opened_step(cur, max, already_open, out),
    ensures
        out.len() >= 1,
        !already_open ==> (out[0] matches Effect::Items(ItemOp::StorageOpenWithPending { cur: c, max: m })
            && c == cur && m == max),
        !already_open ==> out.len() == 2 && out[1] == Effect::Items(ItemOp::InventoryOpen),
        already_open ==> (out[0] matches Effect::Items(ItemOp::StorageSetCounts { cur: c, max: m })
            && c == cur && m == max),
        already_open ==> out.len() == 1,
{
}

/// What `handle_storage_item_removed` gives.
pub open spec fn storage_item_removed_step(index: u16, amount: i16, e: Effect) -> bool {
    &&& (e == Effect::Items(ItemOp::StorageRemove { index, amount }))
}

/// What `handle_storage_closed` gives.
pub open spec fn storage_closed_step(out: Seq<Effect>) -> bool {
    &&& ((out) =~= seq![
                    Effect::Items(ItemOp::StorageClear),
                    Effect::CloseWindow(WindowId::StoragePassword),
                ])
}

/// What `handle_mail_delete_ack` gives.
pub open spec fn mail_delete_ack_step(mail_id: u32, ok: bool, opened_mail_id: Option<u32>, out: Seq<Effect>) -> bool {
    &&& (ok && opened_mail_id == Some(mail_id) ==> (out) =~= seq![
                    Effect::Mail(MailOp::RemoveFromInbox(mail_id)),
                    Effect::Mail(MailOp::CloseOpened),
                ])
    &&& (ok && opened_mail_id != Some(mail_id) ==> (out) =~= seq![
                    Effect::Mail(MailOp::RemoveFromInbox(mail_id)),
                ])
    &&& (!ok ==> (out).len() == 1 && is_chat(
                    (out)[0],
                    ChatKind::Error,
                    "Cannot delete a mail that still has attachments."@,
                ))
}

/// What `handle_mail_get_item_ack` gives.
pub open spec fn mail_get_item_ack_step(result: u8, e: Effect) -> bool {
    &&& (result == 0 ==> e == Effect::Mail(MailOp::ClearOpenedAttachment))
    &&& (result != 0 ==> is_chat(e, ChatKind::Error, spec_mail_get_item_error(result)))
}

/// What `handle_mail_add_item_ack` gives.
pub open spec fn mail_add_item_ack_step(index: u16, ok: bool, out: Seq<Effect>) -> bool {
    &&& (ok ==> (out) =~= seq![Effect::Mail(MailOp::AttachPending)])
    &&& (!ok ==> (out).len() == 2 && (out)[0] == Effect::Mail(MailOp::DropPending) && is_chat(
                    (out)[1],
                    ChatKind::Error,
                    "This item cannot be attached."@,
                ))
}

/// What `handle_storage_password_request` gives.
pub open spec fn storage_password_request_step(prompt: StoragePasswordPrompt, e: Effect) -> bool {
    &&& (prompt == StoragePasswordPrompt::NotSetYet ==> (e matches Effect::Confirm { text, action }
                    && text@ == "No storage password is set. Set one now?"@ && action
                    == ConfirmAction::SetStoragePassword))
    &&& (prompt == StoragePasswordPrompt::Required ==> e matches Effect::StoragePassword(
                    PasswordOp::OpenEnter,
                ))
    &&& (prompt == StoragePasswordPrompt::LockedOut ==> is_dialog(e, STORAGE_LOCKED_MESSAGE@))
}

/// What `handle_mail_window` gives.
pub open spec fn mail_window_step(open: bool, out: Seq<Effect>) -> bool {
    &&& (open ==> (out) =~= seq![
                    Effect::Mail(MailOp::Clear),
                    Effect::Mail(MailOp::OpenInbox),
                    Effect::Send(Packet::MailGetList),
                ])
    &&& (!open ==> (out) =~= seq![Effect::Mail(MailOp::Clear)])
}

/// What `handle_mail_send_ack` gives.
pub open spec fn mail_send_ack_step(ok: bool, out: Seq<Effect>) -> bool {
    &&& (ok ==> (out).len() == 4 && (out)[0] == Effect::Mail(MailOp::SendFinished) && (out)[1]
                    == Effect::Mail(MailOp::SwitchToInbox) && is_chat(
                    (out)[2],
                    ChatKind::System,
                    "Mail sent."@,
                ) && (out)[3] == Effect::Send(Packet::MailGetList))
    &&& (!ok ==> (out).len() == 2 && (out)[0] == Effect::Mail(MailOp::SendFinished) && is_chat(
                    (out)[1],
                    ChatKind::Error,
                    "The recipient does not exist."@,
                ))
}

/// What `handle_mail_new_received` gives.
pub open spec fn mail_new_received_step(mail_id: u32, inbox_shown: bool, out: Seq<Effect>) -> bool {
    &&& (mail_id == 0 ==> (out).len() == 0)
    &&& (mail_id != 0 && inbox_shown ==> (out).len() == 2 && is_chat(
                    (out)[0],
                    ChatKind::System,
                    "You've got mail."@,
                ) && (out)[1] == Effect::Send(Packet::MailGetList))
    &&& (mail_id != 0 && !inbox_shown ==> (out).len() == 1 && is_chat(
                    (out)[0],
                    ChatKind::System,
                    "You've got mail."@,
                ))
}

/// What `handle_mail_return_ack` gives.
pub open spec fn mail_return_ack_step(mail_id: u32, ok: bool, opened_mail_id: Option<u32>, out: Seq<Effect>) -> bool {
    &&& (ok && opened_mail_id == Some(mail_id) ==> (out) =~= seq![
                    Effect::Mail(MailOp::RemoveFromInbox(mail_id)),
                    Effect::Mail(MailOp::CloseOpened),
                    Effect::Send(Packet::MailGetList),
                ])
    &&& (ok && opened_mail_id != Some(mail_id) ==> (out) =~= seq![
                    Effect::Mail(MailOp::RemoveFromInbox(mail_id)),
                    Effect::Send(Packet::MailGetList),
                ])
    &&& (!ok ==> (out).len() == 1 && is_chat(
                    (out)[0],
                    ChatKind::Error,
                    "Failed to return the mail."@,
                ))
}

} // verus!
