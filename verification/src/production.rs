//! Appraisal, refining, repair and item making, and our own vending shop.
use vstd::prelude::*;
use crate::app::{App, Pending};
use crate::effect_id::EffectId;
use crate::effects::{
    ChatKind, ChatLine, Effect, ItemOp, Packet, four, is_chat, is_msg_line, msg_line, one, three,
    two,
};
use crate::notice::{
    MSI_ITEM_COMPOUNDING_FAIL, MSI_ITEM_COMPOUNDING_SUCCEESS, MSI_ITEM_IDENTIFY_FAIL, MSI_ITEM_IDENTIFY_SUCCEESS, MSI_ITEM_REFINING_FAIL,
    MSI_ITEM_REFINING_SUCCEESS, MSI_ITEM_REPAIR_FAIL, MSI_ITEM_REPAIR_SUCCEESS, TextColor,
};
use crate::text::{dec, push_decimal};

verus! {

/// An item the server offers for refining or repair.
#[derive(Clone, Copy, Debug)]
pub struct RefineItemRow {
    pub index: i16,
    pub item_id: u16,
    pub refine: u8,
    pub cards: [u16; 4],
}

/// A row of an item list window.
#[derive(Debug)]
pub struct ListRow {
    pub name: String,
    pub icon: Option<String>,
    pub index: i16,
    pub item_id: u16,
    pub refine: u8,
    pub cards: [u16; 4],
}

/// The name a refinable item is listed under: `+N name` once refined.
pub open spec fn refine_row_name(refine: u8, base: Seq<char>) -> Seq<char> {
    if refine > 0 {
        "+"@ + dec(refine as nat) + " "@ + base
    } else {
        base
    }
}

/// The one-shot effect for an item-making result.
pub open spec fn spec_making_effect(result: i16) -> EffectId {
    if result == 0 {
        EffectId::Refineok
    } else if result == 1 {
        EffectId::Refinefail
    } else if result == 2 {
        EffectId::PharmacyOk
    } else {
        EffectId::PharmacyFail
    }
}

impl App {
    /// The list row of a refinable item, named `base` (and shown with
    /// `icon`) as the item tables give it.
    pub fn refine_row(r: RefineItemRow, base: String, icon: Option<String>) -> (row: ListRow)
        ensures
            row.name@ == refine_row_name(r.refine, base@),
            row.icon == icon,
            row.index == r.index,
            row.item_id == r.item_id,
            row.refine == r.refine,
            row.cards == r.cards,
    {
        let name = if r.refine > 0 {
            let mut s = String::from_str("+");
            push_decimal(&mut s, r.refine as u64);
            s.append(" ");
            s.append(base.as_str());
            s
        } else {
            base
        };
        ListRow { name, icon, index: r.index, item_id: r.item_id, refine: r.refine, cards: r.cards }
    }

    /// An appraisal: the item is identified and the success reported in
    /// cyan, or the failure in red.
    pub fn handle_item_identify_result(index: i16, ok: bool) -> (out: Vec<Effect>)
        ensures
            item_identify_result_step(index, ok, out@),
    {
        if ok {
            two(
                Effect::Items(ItemOp::ApplyIdentify(index as u16)),
                msg_line(MSI_ITEM_IDENTIFY_SUCCEESS, TextColor::Cyan),
            )
        } else {
            one(msg_line(MSI_ITEM_IDENTIFY_FAIL, TextColor::Red))
        }
    }

    /// An item upgrade: success and failure each play their effect on the
    /// player and are reported in cyan; the item takes the refine level the
    /// server sent in every case.
    pub fn handle_item_refining_result(index: u16, refine: u8, result: i16) -> (out: Vec<Effect>)
        ensures
            item_refining_result_step(index, refine, result, out@),
    {
        let set = Effect::Items(ItemOp::SetRefine { index, refine });
        match result {
            0 => three(
                Effect::SpawnOnPlayer(EffectId::Refineok),
                msg_line(MSI_ITEM_REFINING_SUCCEESS, TextColor::Cyan),
                set,
            ),
            1 => three(
                Effect::SpawnOnPlayer(EffectId::Refinefail),
                msg_line(MSI_ITEM_REFINING_FAIL, TextColor::Cyan),
                set,
            ),
            _ => one(set),
        }
    }

    /// A card was slotted into equipment (or not). The dialog closes either
    /// way. On success one card leaves the inventory, is recorded in the
    /// equipment (when `card_item_id`, the card's item id, is known, that is
    /// not 0) and the success is reported in cyan; a failure is reported in
    /// red.
    pub fn handle_card_insert_result(equip_index: u16, card_index: u16, result: u8, card_item_id: u16) -> (out: Vec<Effect>)
        ensures
            card_insert_result_step(equip_index, card_index, result, card_item_id, out@),
    {
        if result != 0 {
            return two(Effect::CloseCardInsert, msg_line(MSI_ITEM_COMPOUNDING_FAIL, TextColor::Red));
        }
        let used = Effect::Items(ItemOp::SubtractItem { index: card_index, count: 1 });
        let done = msg_line(MSI_ITEM_COMPOUNDING_SUCCEESS, TextColor::Cyan);
        if card_item_id != 0 {
            four(
                Effect::CloseCardInsert,
                used,
                Effect::Items(ItemOp::InsertCard { equip_index, card_item_id }),
                done,
            )
        } else {
            three(Effect::CloseCardInsert, used, done)
        }
    }

    /// A weapon repair: success in cyan, failure in red.
    pub fn handle_repair_item_result(ok: bool) -> (e: Effect)
        ensures
            repair_item_result_step(ok, e),
    {
        if ok {
            msg_line(MSI_ITEM_REPAIR_SUCCEESS, TextColor::Cyan)
        } else {
            msg_line(MSI_ITEM_REPAIR_FAIL, TextColor::Red)
        }
    }

    /// The effect an item-making result plays on the player: forging
    /// success and failure, then brewing success, and anything else as a
    /// brewing failure.
    pub fn handle_making_item_result(result: i16) -> (e: Effect)
        ensures
            making_item_result_step(result, e),
    {
        let id = match result {
            0 => EffectId::Refineok,
            1 => EffectId::Refinefail,
            2 => EffectId::PharmacyOk,
            _ => EffectId::PharmacyFail,
        };
        Effect::SpawnOnPlayer(id)
    }

    /// Our shop opened with `item_count` items: reported, and it opens
    /// under the name we asked for (which is no longer pending).
    pub fn handle_vending_own_stock(&mut self, item_count: u64) -> (out: Vec<Effect>)
        ensures
            vending_own_stock_step(*old(self), *final(self), item_count, out@),
    {
        let mut text = String::from_str("Your shop is open (");
        push_decimal(&mut text, item_count);
        text.append(" items).");
        let name = match self.pending.shop_name.take() {
            Some(n) => n,
            None => String::new(),
        };
        two(Effect::Chat(ChatLine { kind: ChatKind::System, text }), Effect::OpenOwnShop { name })
    }

    /// Closes our shop: the server is told, and no shop name is pending.
    pub fn close_own_shop(&mut self) -> (out: Vec<Effect>)
        ensures
            close_own_shop_step(*old(self), *final(self), out@),
    {
        self.pending.shop_name = None;
        two(Effect::Send(Packet::CloseStore), Effect::CloseOwnShop)
    }
}

/// What `handle_vending_own_stock` leaves and hands on.
pub open spec fn vending_own_stock_step(a: App, b: App, item_count: u64, out: Seq<Effect>) -> bool {
    &&& b == (App {
                    pending: Pending { shop_name: None, ..a.pending },
                    ..a
                })
    &&& out.len() == 2
    &&& is_chat(
                    out[0],
                    ChatKind::System,
                    "Your shop is open ("@ + dec(item_count as nat) + " items)."@,
                )
    &&& out[1] matches Effect::OpenOwnShop { name } && name@ == match a.pending.shop_name {
                    Some(n) => n@,
                    None => Seq::<char>::empty(),
                }
}

/// What `handle_item_identify_result` gives.
pub open spec fn item_identify_result_step(index: i16, ok: bool, out: Seq<Effect>) -> bool {
    &&& (ok ==> (out).len() == 2 && (out)[0] == Effect::Items(ItemOp::ApplyIdentify(index as u16))
                    && is_msg_line((out)[1], MSI_ITEM_IDENTIFY_SUCCEESS, TextColor::Cyan))
    &&& (!ok ==> (out).len() == 1 && is_msg_line((out)[0], MSI_ITEM_IDENTIFY_FAIL, TextColor::Red))
}

/// What `handle_item_refining_result` gives.
pub open spec fn item_refining_result_step(index: u16, refine: u8, result: i16, out: Seq<Effect>) -> bool {
    &&& (result == 0 ==> (out).len() == 3 && (out)[0] == Effect::SpawnOnPlayer(EffectId::Refineok)
                    && is_msg_line((out)[1], MSI_ITEM_REFINING_SUCCEESS, TextColor::Cyan))
    &&& (result == 1 ==> (out).len() == 3 && (out)[0] == Effect::SpawnOnPlayer(EffectId::Refinefail)
                    && is_msg_line((out)[1], MSI_ITEM_REFINING_FAIL, TextColor::Cyan))
    &&& (result != 0 && result != 1 ==> (out).len() == 1)
    &&& ((out).last() == Effect::Items(ItemOp::SetRefine { index, refine }))
}

/// What `handle_card_insert_result` gives.
pub open spec fn card_insert_result_step(equip_index: u16, card_index: u16, result: u8, card_item_id: u16, out: Seq<Effect>) -> bool {
    &&& ((out).len() >= 2)
    &&& ((out)[0] == Effect::CloseCardInsert)
    &&& (result == 0 && card_item_id != 0 ==> (out).len() == 4 && (out)[1] == Effect::Items(
                    ItemOp::SubtractItem { index: card_index, count: 1 },
                ) && (out)[2] == Effect::Items(ItemOp::InsertCard { equip_index, card_item_id })
                    && is_msg_line((out)[3], MSI_ITEM_COMPOUNDING_SUCCEESS, TextColor::Cyan))
    &&& (result == 0 && card_item_id == 0 ==> (out).len() == 3 && (out)[1] == Effect::Items(
                    ItemOp::SubtractItem { index: card_index, count: 1 },
                ) && is_msg_line((out)[2], MSI_ITEM_COMPOUNDING_SUCCEESS, TextColor::Cyan))
    &&& (result != 0 ==> (out).len() == 2 && is_msg_line(
                    (out)[1],
                    MSI_ITEM_COMPOUNDING_FAIL,
                    TextColor::Red,
                ))
}

/// What `handle_repair_item_result` gives.
pub open spec fn repair_item_result_step(ok: bool, e: Effect) -> bool {
    &&& (ok ==> is_msg_line(e, MSI_ITEM_REPAIR_SUCCEESS, TextColor::Cyan))
    &&& (!ok ==> is_msg_line(e, MSI_ITEM_REPAIR_FAIL, TextColor::Red))
}

/// What `handle_making_item_result` gives.
pub open spec fn making_item_result_step(result: i16, e: Effect) -> bool {
    &&& (e == Effect::SpawnOnPlayer(spec_making_effect(result)))
}

/// What `close_own_shop` gives.
pub open spec fn close_own_shop_step(a: App, b: App, out: Seq<Effect>) -> bool {
    &&& (b == (App {
                    pending: Pending { shop_name: None, ..a.pending },
                    ..a
                }))
    &&& ((out) == seq![Effect::Send(Packet::CloseStore), Effect::CloseOwnShop])
}

} // verus!
