//! Player-to-player trade negotiation.
use vstd::prelude::*;
use crate::app::{App, Pending};
use crate::effects::{ChatKind, ChatLine, Effect, ItemOp, Packet, is_chat};

verus! {

pub open spec fn spec_exchange_failure_text(result: u8) -> Seq<char> {
    if result == 0 {
        "The character is too far away to trade."@
    } else if result == 1 {
        "The character does not exist."@
    } else if result == 4 {
        "The deal was rejected."@
    } else if result == 5 {
        "The other player is busy dealing."@
    } else {
        "Trade has failed."@
    }
}

pub open spec fn spec_add_failure_text(result: u8) -> Seq<char> {
    if result == 1 {
        "You are over your weight limit."@
    } else if result == 4 {
        "That amount cannot be traded."@
    } else {
        "The item cannot be added to the deal."@
    }
}

impl App {
    /// A trade request arrived. `refused_at_once` is what arming the request
    /// answered: true when the request is refused without asking (trades
    /// are refused in the settings, or one is already pending), in which
    /// case the refusal goes out.
    pub fn handle_exchange_requested(&mut self, refused_at_once: bool) -> (out: Option<Effect>)
        ensures
            exchange_requested_step(*old(self), *final(self), refused_at_once, out),
    {
        if refused_at_once {
            Some(self.respond_exchange_request(false))
        } else {
            None
        }
    }

    /// Our answer to a trade request: 3 accepts, 4 refuses. The request is
    /// no longer pending, and a refusal also forgets the partner.
    pub fn respond_exchange_request(&mut self, accept: bool) -> (out: Effect)
        ensures
            respond_exchange_request_step(*old(self), *final(self), accept, out),
    {
        self.pending.trade_request = None;
        if !accept {
            self.pending.trade_partner = None;
        }
        let result: u8 = if accept {
            3
        } else {
            4
        };
        Effect::Send(Packet::AckExchangeItem(result))
    }

    /// The other side's answer to a trade. Accepted (3): the deal opens with
    /// the pending partner (or an unknown one) and the inventory opens;
    /// otherwise the reason is reported.
    pub fn handle_exchange_ack_result(&mut self, result: u8, level: i16, my_level: i16) -> (out: Vec<
        Effect,
    >)
        ensures
            exchange_ack_result_step(*old(self), *final(self), result, level, my_level, out@),
    {
        if result == 3 {
            let (aid, name) = match self.pending.trade_partner.take() {
                Some(p) => p,
                None => (0, String::new()),
            };
            return vec![
                Effect::Items(ItemOp::TradeBegin { name, aid, level, my_level }),
                Effect::Items(ItemOp::InventoryOpen),
            ];
        }
        let text = match result {
            0 => "The character is too far away to trade.",
            1 => "The character does not exist.",
            4 => "The deal was rejected.",
            5 => "The other player is busy dealing.",
            _ => "Trade has failed.",
        };
        vec![Effect::Chat(ChatLine::from_str(ChatKind::Error, text))]
    }

    /// The other side put something on the table: item id 0 is zeny, the
    /// count being the amount; anything else is an item.
    pub fn handle_exchange_item_added(
        item_id: u16,
        item_type: u8,
        count: i32,
        is_identified: bool,
        is_damaged: bool,
        refining_level: u8,
        slot: [u16; 4],
    ) -> (e: Effect)
        ensures
            exchange_item_added_step(item_id, item_type, count, is_identified, is_damaged, refining_level, slot, e),
    {
        if item_id == 0 {
            return Effect::Items(ItemOp::TradeSetOtherZeny(count as i64));
        }
        Effect::Items(
            ItemOp::TradeAddOtherItem {
                item_id,
                item_type,
                count: count as i16,
                is_identified,
                is_damaged,
                refining_level,
                slot,
            },
        )
    }

    /// The server's answer to our adding an item: accepted (0) commits the
    /// pending add; a refusal drops it and says why.
    pub fn handle_exchange_add_result(index: u16, result: u8) -> (out: Vec<Effect>)
        ensures
            exchange_add_result_step(index, result, out@),
    {
        if result == 0 {
            return vec![Effect::Items(ItemOp::TradeCommitAdd)];
        }
        let text = match result {
            1 => "You are over your weight limit.",
            4 => "That amount cannot be traded.",
            _ => "The item cannot be added to the deal.",
        };
        vec![
            Effect::Items(ItemOp::TradeTakePendingAdd),
            Effect::Chat(ChatLine::from_str(ChatKind::Error, text)),
        ]
    }

    /// One side locked its offer.
    pub fn handle_exchange_concluded(who: u8) -> (e: Effect)
        ensures
            exchange_concluded_step(who, e),
    {
        Effect::Items(ItemOp::TradeLock(who))
    }

    /// The deal was canceled: trade state and input reset, partner
    /// forgotten.
    pub fn handle_exchange_canceled(&mut self) -> (out: Vec<Effect>)
        ensures
            exchange_canceled_step(*old(self), *final(self), out@),
    {
        self.pending.trade_partner = None;
        vec![
            Effect::Items(ItemOp::TradeReset),
            Effect::ResetTradeInput,
            Effect::Chat(ChatLine::from_str(ChatKind::System, "The deal has been canceled.")),
        ]
    }

    /// The deal went through (0) or failed; either way trade state and input
    /// reset and the partner is forgotten.
    pub fn handle_exchange_completed(&mut self, result: u8) -> (out: Vec<Effect>)
        ensures
            exchange_completed_step(*old(self), *final(self), result, out@),
    {
        let line = if result == 0 {
            ChatLine::from_str(ChatKind::System, "Deal successful.")
        } else {
            ChatLine::from_str(ChatKind::Error, "The deal has failed.")
        };
        self.pending.trade_partner = None;
        vec![Effect::Chat(line), Effect::Items(ItemOp::TradeReset), Effect::ResetTradeInput]
    }

    /// Our last add was taken back.
    pub fn handle_exchange_undo() -> (e: Effect)
        ensures
            exchange_undo_step(e),
    {
        Effect::Items(ItemOp::TradeTakePendingAdd)
    }
}

/// What `handle_exchange_ack_result` leaves and hands on.
pub open spec fn exchange_ack_result_step(a: App, b: App, result: u8, level: i16, my_level: i16, out: Seq<Effect>) -> bool {
    &&& result == 3 ==> {
                    &&& b == (App {
                        pending: Pending { trade_partner: None, ..a.pending },
                        ..a
                    })
                    &&& out.len() == 2
                    &&& out[1] == Effect::Items(ItemOp::InventoryOpen)
                    &&& out[0] matches Effect::Items(ItemOp::TradeBegin { name, aid, level: l, my_level: m })
                        && l == level && m == my_level && match a.pending.trade_partner {
                        Some((a, n)) => aid == a && name@ == n@,
                        None => aid == 0 && name@.len() == 0,
                    }
                }
    &&& result != 3 ==> b == a && out.len() == 1 && is_chat(
                    out[0],
                    ChatKind::Error,
                    spec_exchange_failure_text(result),
                )
}

/// What `handle_exchange_canceled` leaves and hands on.
pub open spec fn exchange_canceled_step(a: App, b: App, out: Seq<Effect>) -> bool {
    &&& b == (App {
                    pending: Pending { trade_partner: None, ..a.pending },
                    ..a
                })
    &&& out.len() == 3
    &&& out[0] == Effect::Items(ItemOp::TradeReset)
    &&& out[1] == Effect::ResetTradeInput
    &&& is_chat(out[2], ChatKind::System, "The deal has been canceled."@)
}

/// What `handle_exchange_completed` leaves and hands on.
pub open spec fn exchange_completed_step(a: App, b: App, result: u8, out: Seq<Effect>) -> bool {
    &&& b == (App {
                    pending: Pending { trade_partner: None, ..a.pending },
                    ..a
                })
    &&& out.len() == 3
    &&& result == 0 ==> is_chat(out[0], ChatKind::System, "Deal successful."@)
    &&& result != 0 ==> is_chat(out[0], ChatKind::Error, "The deal has failed."@)
    &&& out[1] == Effect::Items(ItemOp::TradeReset)
    &&& out[2] == Effect::ResetTradeInput
}

/// What `handle_exchange_requested` gives.
pub open spec fn exchange_requested_step(a: App, b: App, refused_at_once: bool, out: Option<Effect>) -> bool {
    &&& (!refused_at_once ==> out is None && b == a)
    &&& (refused_at_once ==> out == Some(Effect::Send(Packet::AckExchangeItem(4)))
                    && b == (App {
                    pending: Pending { trade_request: None, trade_partner: None, ..a.pending },
                    ..a
                }))
}

/// What `handle_exchange_item_added` gives.
pub open spec fn exchange_item_added_step(item_id: u16, item_type: u8, count: i32, is_identified: bool, is_damaged: bool, refining_level: u8, slot: [u16; 4], e: Effect) -> bool {
    &&& (item_id == 0 ==> e == Effect::Items(ItemOp::TradeSetOtherZeny(count as i64)))
    &&& (item_id != 0 ==> e == Effect::Items(
                    ItemOp::TradeAddOtherItem {
                        item_id,
                        item_type,
                        count: count as i16,
                        is_identified,
                        is_damaged,
                        refining_level,
                        slot,
                    },
                ))
}

/// What `handle_exchange_add_result` gives.
pub open spec fn exchange_add_result_step(index: u16, result: u8, out: Seq<Effect>) -> bool {
    &&& (result == 0 ==> (out) =~= seq![Effect::Items(ItemOp::TradeCommitAdd)])
    &&& (result != 0 ==> (out).len() == 2 && (out)[0] == Effect::Items(ItemOp::TradeTakePendingAdd)
                    && is_chat((out)[1], ChatKind::Error, spec_add_failure_text(result)))
}

/// What `handle_exchange_concluded` gives.
pub open spec fn exchange_concluded_step(who: u8, e: Effect) -> bool {
    &&& (e == Effect::Items(ItemOp::TradeLock(who)))
}

/// What `handle_exchange_undo` gives.
pub open spec fn exchange_undo_step(e: Effect) -> bool {
    &&& (e == Effect::Items(ItemOp::TradeTakePendingAdd))
}

/// What `respond_exchange_request` gives.
pub open spec fn respond_exchange_request_step(a: App, b: App, accept: bool, out: Effect) -> bool {
    &&& (b == (App {
                    pending: Pending {
                        trade_request: None,
                        trade_partner: if accept {
                            a.pending.trade_partner
                        } else {
                            None
                        },
                        ..a.pending
                    },
                    ..a
                }))
    &&& (out =~= Effect::Send(Packet::AckExchangeItem(if accept { 3u8 } else { 4u8 })))
}

} // verus!
