//! The player's requests from the windows: what goes to the server, what is
//! asked first, and what is kept for the server's answer.
use vstd::prelude::*;
use vstd::string::*;
use crate::app::{App, Pending};
use crate::effects::{ConfirmAction, Effect, Packet};
use crate::guild::guild_view;

verus! {

/// The name a guild is called by when asking to leave it: its own, or "the
/// guild" while it has none.
pub open spec fn guild_call_name(name: Option<Seq<char>>) -> Seq<char> {
    match name {
        Some(n) => if n.len() > 0 { n } else { "the guild"@ },
        None => "the guild"@,
    }
}

/// What the question before cancelling a relation says.
pub open spec fn relation_cancel_text(relation: i32) -> Seq<char> {
    if relation == 0 {
        "Cancel this alliance?"@
    } else {
        "Cancel this antagonist declaration?"@
    }
}

impl App {
    /// The NPC dialog is closed: the illustrations go and the NPC is told.
    pub fn request_npc_close(&mut self, npc_id: u32) -> (e: Effect)
        ensures
            request_npc_close_step(*old(self), *final(self), npc_id, e),
    {
        self.npc_cutins = [None, None, None];
        assert(self.npc_cutins@ =~= seq![None::<String>, None, None]);
        Effect::Send(Packet::NpcClose(npc_id))
    }

    /// A choice in an NPC menu goes to the NPC; choice 255 (cancel) also
    /// takes the illustrations down.
    pub fn request_npc_menu_select(&mut self, npc_id: u32, choice: u8) -> (e: Effect)
        ensures
            request_npc_menu_select_step(*old(self), *final(self), npc_id, choice, e),
    {
        if choice == 255 {
            self.npc_cutins = [None, None, None];
            assert(self.npc_cutins@ =~= seq![None::<String>, None, None]);
        }
        Effect::Send(Packet::NpcMenuSelect { npc_id, choice })
    }

    /// A trade is proposed to `target_aid`: the partner is kept, under its
    /// name (`target_name`, empty when unknown), for the answer.
    pub fn request_exchange_item(&mut self, target_aid: u32, target_name: Option<String>) -> (e: Effect)
        ensures
            request_exchange_item_step(*old(self), *final(self), target_aid, target_name, e),
    {
        let name = match target_name {
            Some(n) => n,
            None => String::new(),
        };
        self.pending.trade_partner = Some((target_aid, name));
        Effect::Send(Packet::ReqExchangeItem(target_aid))
    }

    /// A whisper goes out, and is kept until the server acknowledges it.
    pub fn request_send_whisper(&mut self, name: String, message: String) -> (e: Effect)
        ensures
            request_send_whisper_step(*old(self), *final(self), name, message, e),
    {
        let e = Effect::Send(Packet::Whisper { name: name.clone(), text: message.clone() });
        self.pending.whisper_out = Some((name, message));
        e
    }

    /// An invitation of `target_aid` into our party. Without a party, one is
    /// made first, named after the character (`selected_name`) or "Party",
    /// and the invitation waits until the server made it.
    pub fn request_party_invite(&mut self, target_aid: u32, selected_name: Option<String>) -> (e: Effect)
        ensures
            request_party_invite_step(*old(self), *final(self), target_aid, selected_name, e),
    {
        if self.party.is_some() {
            return Effect::Send(Packet::ReqJoinParty(target_aid));
        }
        let name = match selected_name {
            Some(s) => s,
            None => String::from_str("Party"),
        };
        self.pending.invite_aid = Some(target_aid);
        Effect::Send(Packet::MakeParty(name))
    }

    /// A new guild notice goes to the server, for our guild; nothing
    /// outside a guild.
    pub fn request_set_guild_notice(&self, subject: String, body: String) -> (out: Option<Effect>)
        ensures
            request_set_guild_notice_step(*self, subject, body, out),
    {
        match &self.guild {
            Some(g) => Some(Effect::Send(Packet::GuildNotice { gdid: g.gdid, subject, body })),
            None => None,
        }
    }

    /// Leaving the guild is asked first, naming the guild.
    pub fn request_guild_leave(&self) -> (e: Effect)
        ensures
            request_guild_leave_step(*self, e),
    {
        let mut text = String::from_str("Leave ");
        let named = match &self.guild {
            Some(g) => !g.name.as_str().is_empty(),
            None => false,
        };
        if named {
            match &self.guild {
                Some(g) => text.append(g.name.as_str()),
                None => {},
            }
        } else {
            text.append("the guild");
        }
        text.append("?");
        Effect::Confirm { text, action: ConfirmAction::GuildLeave }
    }

    /// Expelling a member (confirmed with a reason) goes to the server, for
    /// our guild; nothing outside a guild.
    pub fn confirmed_guild_expel(&self, aid: u32, gid: u32, reason: String) -> (out: Option<Effect>)
        ensures
            confirmed_guild_expel_step(*self, aid, gid, reason, out),
    {
        match &self.guild {
            Some(g) => Some(
                Effect::Send(Packet::BanGuild { gdid: g.gdid, account: aid as i32, character: gid as i32, reason }),
            ),
            None => None,
        }
    }

    /// An invitation of `target_aid` into our guild, sent with our ids.
    pub fn request_guild_invite(&self, target_aid: u32) -> (e: Effect)
        ensures
            request_guild_invite_step(*self, target_aid, e),
    {
        let (my_aid, my_gid) = self.local_aid_gid();
        Effect::Send(Packet::ReqJoinGuild { target_aid, my_aid, my_gid })
    }

    /// An alliance offered to the guild of `target_aid`, sent with our ids.
    pub fn request_guild_ally(&self, target_aid: u32) -> (e: Effect)
        ensures
            request_guild_ally_step(*self, target_aid, e),
    {
        let (my_aid, my_gid) = self.local_aid_gid();
        Effect::Send(Packet::ReqAllyGuild { target_aid, my_aid, my_gid })
    }

    /// Cancelling an alliance (relation 0) or an antagonism is asked first.
    pub fn request_delete_guild_relation(gdid: u32, relation: i32) -> (e: Effect)
        ensures
            request_delete_guild_relation_step(gdid, relation, e),
    {
        let text = if relation == 0 {
            String::from_str("Cancel this alliance?")
        } else {
            String::from_str("Cancel this antagonist declaration?")
        };
        Effect::Confirm { text, action: ConfirmAction::DeleteGuildRelation { gdid, relation } }
    }
}

/// What `request_npc_close` gives.
pub open spec fn request_npc_close_step(a: App, b: App, npc_id: u32, e: Effect) -> bool {
    &&& (b == (App { npc_cutins: b.npc_cutins, ..a }))
    &&& (b.npc_cutins@ == seq![None::<String>, None, None])
    &&& (e =~= Effect::Send(Packet::NpcClose(npc_id)))
}

/// What `request_npc_menu_select` gives.
pub open spec fn request_npc_menu_select_step(a: App, b: App, npc_id: u32, choice: u8, e: Effect) -> bool {
    &&& (choice != 255 ==> b == a)
    &&& (choice =~= 255 ==> b == (App { npc_cutins: b.npc_cutins, ..a })
                    && b.npc_cutins@ == seq![None::<String>, None, None])
    &&& (e =~= Effect::Send(Packet::NpcMenuSelect { npc_id, choice }))
}

/// What `request_exchange_item` gives.
pub open spec fn request_exchange_item_step(a: App, b: App, target_aid: u32, target_name: Option<String>, e: Effect) -> bool {
    &&& (b == (App {
                    pending: Pending { trade_partner: b.pending.trade_partner, ..a.pending },
                    ..a
                }))
    &&& (b.pending.trade_partner matches Some((aid, name)) && aid == target_aid
                    && name@ == match target_name {
                    Some(n) => n@,
                    None => Seq::<char>::empty(),
                })
    &&& (e =~= Effect::Send(Packet::ReqExchangeItem(target_aid)))
}

/// What `request_send_whisper` gives.
pub open spec fn request_send_whisper_step(a: App, b: App, name: String, message: String, e: Effect) -> bool {
    &&& (b == (App {
                    pending: Pending { whisper_out: b.pending.whisper_out, ..a.pending },
                    ..a
                }))
    &&& (b.pending.whisper_out matches Some((n, m)) && n@ == name@ && m@ == message@)
    &&& (e matches Effect::Send(Packet::Whisper { name: n, text }) && n@ == name@ && text@
                    == message@)
}

/// What `request_party_invite` gives.
pub open spec fn request_party_invite_step(a: App, b: App, target_aid: u32, selected_name: Option<String>, e: Effect) -> bool {
    &&& (a.party is Some ==> b == a && e =~= Effect::Send(
                    Packet::ReqJoinParty(target_aid),
                ))
    &&& (a.party is None ==> b == (App {
                    pending: Pending { invite_aid: Some(target_aid), ..a.pending },
                    ..a
                }) && (e matches Effect::Send(Packet::MakeParty(n)) && n@ == match selected_name {
                    Some(s) => s@,
                    None => "Party"@,
                }))
}

/// What `request_set_guild_notice` gives.
pub open spec fn request_set_guild_notice_step(a: App, subject: String, body: String, out: Option<Effect>) -> bool {
    &&& (a.guild is None ==> out is None)
    &&& (a.guild matches Some(g) ==> (out matches Some(Effect::Send(
                    Packet::GuildNotice { gdid, subject: s, body: b },
                )) && gdid == g.gdid && s@ == subject@ && b@ == body@))
}

/// What `request_guild_leave` gives.
pub open spec fn request_guild_leave_step(a: App, e: Effect) -> bool {
    &&& (e matches Effect::Confirm { text, action } && action == ConfirmAction::GuildLeave
                    && text@ == "Leave "@ + guild_call_name(
                    match guild_view(a.guild) {
                        Some(v) => Some(v.name),
                        None => None,
                    },
                ) + "?"@)
}

/// What `confirmed_guild_expel` gives.
pub open spec fn confirmed_guild_expel_step(a: App, aid: u32, gid: u32, reason: String, out: Option<Effect>) -> bool {
    &&& (a.guild is None ==> out is None)
    &&& (a.guild matches Some(g) ==> (out matches Some(Effect::Send(
                    Packet::BanGuild { gdid, account: a, character: c, reason: r },
                )) && gdid == g.gdid && a == aid as i32 && c == gid as i32 && r@ == reason@))
}

/// What `request_guild_invite` gives.
pub open spec fn request_guild_invite_step(a: App, target_aid: u32, e: Effect) -> bool {
    &&& (({
                    let me = match a.account_id {
                        Some(a) => a,
                        None => 0u32,
                    };
                    e =~= Effect::Send(Packet::ReqJoinGuild { target_aid, my_aid: me, my_gid: me })
                }))
}

/// What `request_guild_ally` gives.
pub open spec fn request_guild_ally_step(a: App, target_aid: u32, e: Effect) -> bool {
    &&& (({
                    let me = match a.account_id {
                        Some(a) => a,
                        None => 0u32,
                    };
                    e =~= Effect::Send(Packet::ReqAllyGuild { target_aid, my_aid: me, my_gid: me })
                }))
}

/// What `request_delete_guild_relation` gives.
pub open spec fn request_delete_guild_relation_step(gdid: u32, relation: i32, e: Effect) -> bool {
    &&& (e matches Effect::Confirm { text, action } && text@ == relation_cancel_text(relation)
                    && action == (ConfirmAction::DeleteGuildRelation { gdid, relation }))
}

} // verus!
