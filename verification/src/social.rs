//! Friend requests and party invitations.
use vstd::prelude::*;
use crate::app::{App, Pending};
use crate::effects::{ChatKind, ChatLine, ConfirmAction, Effect, PasswordOp, Packet, is_chat, one, two};

verus! {

/// The line that answers our friend request.
pub open spec fn spec_friend_add_text(result: u8, name: Seq<char>) -> Seq<char> {
    if result == 0 {
        "You are now friends with "@ + name + "."@
    } else if result == 1 {
        name + " does not want to be friends with you."@
    } else if result == 2 {
        "Your friend list is full."@
    } else if result == 3 {
        name + "'s friend list is full."@
    } else {
        "Failed to add "@ + name + " as a friend."@
    }
}

/// `a`, then `name`, then `b`.
fn around(a: &str, name: &str, b: &str) -> (s: String)
    ensures
        s@ == a@ + name@ + b@,
{
    let mut s = String::from_str(a);
    s.append(name);
    s.append(b);
    s
}

impl App {
    /// The answer to our friend request. Accepted (0): the friend is added,
    /// online. Every answer is reported.
    pub fn handle_friend_add_result(result: u8, aid: u32, gid: u32, name: String) -> (out: Vec<
        Effect,
    >)
        ensures
            friend_add_result_step(result, aid, gid, name, out@),
    {
        let text = match result {
            0 => around("You are now friends with ", name.as_str(), "."),
            1 => around("", name.as_str(), " does not want to be friends with you."),
            2 => String::from_str("Your friend list is full."),
            3 => around("", name.as_str(), "'s friend list is full."),
            _ => around("Failed to add ", name.as_str(), " as a friend."),
        };
        proof {
            reveal_strlit("");
            assert(""@ + name@ =~= name@);
        }
        let line = Effect::Chat(ChatLine { kind: ChatKind::System, text });
        if result == 0 {
            two(Effect::FriendUpsert { aid, gid, name }, line)
        } else {
            one(line)
        }
    }

    /// Someone asks to be our friend: the player is asked to accept.
    pub fn handle_friend_request_received(req_aid: u32, req_gid: u32, name: String) -> (e: Effect)
        ensures
            friend_request_received_step(req_aid, req_gid, name, e),
    {
        let mut text = name;
        text.append(" wishes to be friends with you. Accept?");
        Effect::Confirm { text, action: ConfirmAction::FriendRequest { req_aid, req_gid } }
    }

    /// A party invitation: refused at once when party invites are refused,
    /// otherwise the player is asked.
    pub fn handle_party_invite_received(&self, party_grid: u32, party_name: String) -> (e: Effect)
        ensures
            party_invite_received_step(*self, party_grid, party_name, e),
    {
        if self.prefs.refuse_party_invite {
            return Effect::Send(Packet::JoinPartyReply { party_grid, accept: false });
        }
        let text = around("Join party \"", party_name.as_str(), "\"?");
        Effect::Confirm { text, action: ConfirmAction::JoinParty { party_grid } }
    }
}

impl App {
    /// An invitation into the guild `name`: the player is asked.
    pub fn handle_guild_invite_received(gdid: u32, name: String) -> (e: Effect)
        ensures
            guild_invite_received_step(gdid, name, e),
    {
        let text = around("Join guild \"", name.as_str(), "\"?");
        Effect::Confirm { text, action: ConfirmAction::GuildInvite { gdid } }
    }

    /// The guild `name` (its master account `aid`) offers an alliance: the
    /// player is asked.
    pub fn handle_guild_ally_request_received(aid: u32, name: String) -> (e: Effect)
        ensures
            guild_ally_request_received_step(aid, name, e),
    {
        let text = around("Guild \"", name.as_str(), "\" requests an alliance. Accept?");
        Effect::Confirm { text, action: ConfirmAction::GuildAlly { aid } }
    }

    /// `name` offers to adopt the player, as the couple of accounts
    /// `father_aid` and `mother_aid`: the offer is kept for the answer and the
    /// player is asked.
    pub fn handle_adoption_requested(&mut self, father_aid: u32, mother_aid: u32, name: String) -> (e:
        Effect)
        ensures
            adoption_requested_step(*old(self), *final(self), father_aid, mother_aid, name, e),
    {
        self.pending.adopt_request = Some((father_aid, mother_aid));
        let text = around("", name.as_str(), " wishes to adopt you. Do you accept?");
        proof {
            reveal_strlit("");
        }
        Effect::Confirm { text, action: ConfirmAction::Adoption }
    }

    /// `name` (account `aid`, character `gid`) proposes marriage: the
    /// proposal is kept for the answer and the player is asked.
    pub fn handle_marriage_proposed(&mut self, aid: u32, gid: u32, name: String) -> (e: Effect)
        ensures
            marriage_proposed_step(*old(self), *final(self), aid, gid, name, e),
    {
        self.pending.marriage_proposal = Some((aid, gid));
        let text = around("", name.as_str(), " wishes to marry you. Do you accept?");
        proof {
            reveal_strlit("");
        }
        Effect::Confirm { text, action: ConfirmAction::Marriage }
    }
}

/// What answering a question with `accept` sends or opens, in the state
/// `a` before the answer, for every question but leaving the guild.
pub open spec fn answer_effects(action: ConfirmAction, accept: bool, a: App) -> Seq<Effect> {
    let pending = a.pending;
    match action {
        ConfirmAction::JoinParty { party_grid } => seq![
            Effect::Send(Packet::JoinPartyReply { party_grid, accept }),
        ],
        ConfirmAction::FriendRequest { req_aid, req_gid } => seq![
            Effect::Send(Packet::AckAddFriend { req_aid, req_gid, accept }),
        ],
        ConfirmAction::SetStoragePassword => if accept {
            seq![Effect::StoragePassword(PasswordOp::OpenSetNew)]
        } else {
            seq![]
        },
        ConfirmAction::GuildInvite { gdid } => seq![
            Effect::Send(Packet::AnsJoinGuild { gdid, accept }),
        ],
        ConfirmAction::GuildAlly { aid } => seq![Effect::Send(Packet::AllyGuild { aid, accept })],
        ConfirmAction::Adoption => match pending.adopt_request {
            Some((father_aid, mother_aid)) => seq![
                Effect::Send(Packet::AdoptReply { father_aid, mother_aid, accept }),
            ],
            None => seq![],
        },
        ConfirmAction::Marriage => match pending.marriage_proposal {
            Some((aid, gid)) => seq![Effect::Send(Packet::MarryReply { aid, gid, accept })],
            None => seq![],
        },
        ConfirmAction::DeleteGuildRelation { gdid, relation } => if accept {
            seq![Effect::Send(Packet::DeleteRelatedGuild { gdid, relation })]
        } else {
            seq![]
        },
        ConfirmAction::GuildLeave => seq![],
    }
}

/// `out` is what answering a question with `accept` gives in the state `a`:
/// agreeing to leave the guild, while in one, sends the request with our
/// account id for both ids and no reason.
pub open spec fn answered(out: Seq<Effect>, action: ConfirmAction, accept: bool, a: App) -> bool {
    if action == ConfirmAction::GuildLeave {
        match a.guild {
            Some(g) => if accept {
                let me = match a.account_id {
                    Some(x) => x,
                    None => 0u32,
                };
                &&& out.len() == 1
                &&& out[0] matches Effect::Send(Packet::LeaveGuild { gdid, account: aid, character: gid, reason })
                &&& gdid == g.gdid && aid == me as i32 && gid == me as i32 && reason@.len() == 0
            } else {
                out.len() == 0
            },
            None => out.len() == 0,
        }
    } else {
        out == answer_effects(action, accept, a)
    }
}

/// The state after answering `action`: an answered adoption offer or
/// marriage proposal is no longer pending; nothing else changes.
pub open spec fn after_answer(a: App, action: ConfirmAction) -> App {
    App {
        pending: Pending {
            adopt_request: if action == ConfirmAction::Adoption {
                None
            } else {
                a.pending.adopt_request
            },
            marriage_proposal: if action == ConfirmAction::Marriage {
                None
            } else {
                a.pending.marriage_proposal
            },
            ..a.pending
        },
        ..a
    }
}

/// An adoption offer or a marriage proposal is answered once: answering it
/// again, either way, sends nothing.
pub proof fn lemma_offer_answered_once(a: App, action: ConfirmAction, again: bool)
    requires
        action == ConfirmAction::Adoption || action == ConfirmAction::Marriage,
    ensures
        answer_effects(action, again, after_answer(a, action)) == Seq::<Effect>::empty(),
{
}

impl App {
    /// The player answered a question. The answer goes to the server for an
    /// invitation, a request or an offer; an adoption offer or marriage
    /// proposal is answered only while one is pending, and is then no
    /// longer pending; agreeing to set a storage password opens the window
    /// for a new one; agreeing to leave the guild or to cancel a guild
    /// relation sends that request.
    pub fn answer_confirm(&mut self, action: ConfirmAction, accept: bool) -> (out: Vec<Effect>)
        ensures
            answer_confirm_step(*old(self), *final(self), action, accept, out@),
    {
        let mut out: Vec<Effect> = Vec::new();
        match action {
            ConfirmAction::JoinParty { party_grid } => {
                out.push(Effect::Send(Packet::JoinPartyReply { party_grid, accept }));
            },
            ConfirmAction::FriendRequest { req_aid, req_gid } => {
                out.push(Effect::Send(Packet::AckAddFriend { req_aid, req_gid, accept }));
            },
            ConfirmAction::SetStoragePassword => {
                if accept {
                    out.push(Effect::StoragePassword(PasswordOp::OpenSetNew));
                }
            },
            ConfirmAction::GuildInvite { gdid } => {
                out.push(Effect::Send(Packet::AnsJoinGuild { gdid, accept }));
            },
            ConfirmAction::GuildAlly { aid } => {
                out.push(Effect::Send(Packet::AllyGuild { aid, accept }));
            },
            ConfirmAction::Adoption => {
                if let Some((father_aid, mother_aid)) = self.pending.adopt_request.take() {
                    out.push(Effect::Send(Packet::AdoptReply { father_aid, mother_aid, accept }));
                }
            },
            ConfirmAction::Marriage => {
                if let Some((aid, gid)) = self.pending.marriage_proposal.take() {
                    out.push(Effect::Send(Packet::MarryReply { aid, gid, accept }));
                }
            },
            ConfirmAction::GuildLeave => {
                if accept {
                    if let Some(g) = &self.guild {
                        let (aid, _) = self.local_aid_gid();
                        out.push(
                            Effect::Send(
                                Packet::LeaveGuild {
                                    gdid: g.gdid,
                                    account: aid as i32,
                                    character: aid as i32,
                                    reason: String::new(),
                                },
                            ),
                        );
                    }
                }
            },
            ConfirmAction::DeleteGuildRelation { gdid, relation } => {
                if accept {
                    out.push(Effect::Send(Packet::DeleteRelatedGuild { gdid, relation }));
                }
            },
        }
        out
    }
}

/// What `handle_friend_add_result` gives.
pub open spec fn friend_add_result_step(result: u8, aid: u32, gid: u32, name: String, out: Seq<Effect>) -> bool {
    &&& (result == 0 ==> (out).len() == 2 && ((out)[0] matches Effect::FriendUpsert {
                    aid: a,
                    gid: g,
                    name: n,
                } && a == aid && g == gid && n@ == name@) && is_chat(
                    (out)[1],
                    ChatKind::System,
                    spec_friend_add_text(result, name@),
                ))
    &&& (result != 0 ==> (out).len() == 1 && is_chat(
                    (out)[0],
                    ChatKind::System,
                    spec_friend_add_text(result, name@),
                ))
}

/// What `handle_friend_request_received` gives.
pub open spec fn friend_request_received_step(req_aid: u32, req_gid: u32, name: String, e: Effect) -> bool {
    &&& (e matches Effect::Confirm { text, action } && text@ == name@
                    + " wishes to be friends with you. Accept?"@ && action
                    == (ConfirmAction::FriendRequest { req_aid, req_gid }))
}

/// What `handle_party_invite_received` gives.
pub open spec fn party_invite_received_step(a: App, party_grid: u32, party_name: String, e: Effect) -> bool {
    &&& (a.prefs.refuse_party_invite ==> e == Effect::Send(
                    Packet::JoinPartyReply { party_grid, accept: false },
                ))
    &&& (!a.prefs.refuse_party_invite ==> (e matches Effect::Confirm { text, action }
                    && text@ == "Join party \""@ + party_name@ + "\"?"@ && action
                    == (ConfirmAction::JoinParty { party_grid })))
}

/// What `handle_guild_invite_received` gives.
pub open spec fn guild_invite_received_step(gdid: u32, name: String, e: Effect) -> bool {
    &&& (e matches Effect::Confirm { text, action } && text@ == "Join guild \""@ + name@
                    + "\"?"@ && action == (ConfirmAction::GuildInvite { gdid }))
}

/// What `handle_guild_ally_request_received` gives.
pub open spec fn guild_ally_request_received_step(aid: u32, name: String, e: Effect) -> bool {
    &&& (e matches Effect::Confirm { text, action } && text@ == "Guild \""@ + name@
                    + "\" requests an alliance. Accept?"@ && action == (ConfirmAction::GuildAlly { aid }))
}

/// What `handle_adoption_requested` gives.
pub open spec fn adoption_requested_step(a: App, b: App, father_aid: u32, mother_aid: u32, name: String, e: Effect) -> bool {
    &&& (b == (App {
                    pending: Pending { adopt_request: Some((father_aid, mother_aid)), ..a.pending },
                    ..a
                }))
    &&& (e matches Effect::Confirm { text, action } && text@ == name@
                    + " wishes to adopt you. Do you accept?"@ && action == ConfirmAction::Adoption)
}

/// What `handle_marriage_proposed` gives.
pub open spec fn marriage_proposed_step(a: App, b: App, aid: u32, gid: u32, name: String, e: Effect) -> bool {
    &&& (b == (App {
                    pending: Pending { marriage_proposal: Some((aid, gid)), ..a.pending },
                    ..a
                }))
    &&& (e matches Effect::Confirm { text, action } && text@ == name@
                    + " wishes to marry you. Do you accept?"@ && action == ConfirmAction::Marriage)
}

/// What `answer_confirm` gives.
pub open spec fn answer_confirm_step(a: App, b: App, action: ConfirmAction, accept: bool, out: Seq<Effect>) -> bool {
    &&& (b == after_answer(a, action))
    &&& (answered((out), action, accept, a))
}

} // verus!
