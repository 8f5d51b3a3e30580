//! Server connections: choosing the map server, and losing or leaving the
//! connection.
use vstd::prelude::*;
use crate::app::App;
use crate::effects::SessionChange;
use crate::session::{actors_cleared, map_changed};
use crate::effects::{ChatKind, ChatLine, Effect, Packet, Screen, four, is_chat, one, two};

verus! {

/// Index of the first accessible map server (status 0), if any.
pub open spec fn first_open(statuses: Seq<i32>) -> Option<int>
    decreases statuses.len(),
{
    if statuses.len() == 0 {
        None
    } else if statuses[0] == 0 {
        Some(0)
    } else {
        match first_open(statuses.drop_first()) {
            Some(i) => Some(i + 1),
            None => None,
        }
    }
}

proof fn lemma_first_open(statuses: Seq<i32>, i: int)
    requires
        0 <= i <= statuses.len(),
        forall|j: int| 0 <= j < i ==> statuses[j] != 0,
    ensures
        i < statuses.len() && statuses[i] == 0 ==> first_open(statuses) == Some(i),
        i == statuses.len() ==> first_open(statuses) is None,
    decreases i,
{
    if i > 0 {
        lemma_first_open(statuses.drop_first(), i - 1);
    }
}

pub open spec fn spec_char_server_refusal(error_code: u8) -> Seq<char> {
    if error_code == 0 {
        "Rejected from server"@
    } else if error_code == 1 {
        "ID mismatch"@
    } else {
        "Cannot connect to character server"@
    }
}

impl App {
    /// The map servers the character may enter, by status: it enters the
    /// first accessible one, with the character slot last played (or else
    /// the selected character's). Nothing happens without an accessible
    /// server or a slot.
    pub fn handle_accessible_maps_received(
        statuses: &Vec<i32>,
        last_char_slot: Option<u8>,
        selected_slot: Option<u8>,
    ) -> (out: Option<Effect>)
        ensures
            ({
                let slot = match last_char_slot {
                    Some(s) => Some(s),
                    None => selected_slot,
                };
                match (first_open(statuses@), slot) {
                    (Some(i), Some(s)) => out == Some(
                        Effect::Send(Packet::SelectAccessibleMap { slot: s, index: i as u8 }),
                    ),
                    _ => out is None,
                }
            }),
    {
        let mut i: usize = 0;
        while i < statuses.len() && statuses[i] != 0
            invariant
                i <= statuses@.len(),
                forall|j: int| 0 <= j < i ==> statuses@[j] != 0,
            decreases statuses@.len() - i,
        {
            i = i + 1;
        }
        proof {
            lemma_first_open(statuses@, i as int);
        }
        if i == statuses.len() {
            return None;
        }
        let slot = match last_char_slot {
            Some(s) => s,
            None => match selected_slot {
                Some(s) => s,
                None => {
                    return None;
                },
            },
        };
        Some(Effect::Send(Packet::SelectAccessibleMap { slot, index: i as u8 }))
    }

    /// The server answered our request to leave: when allowed, the window
    /// state and configuration are saved and the program leaves; otherwise
    /// the player is told.
    pub fn handle_disconnect_ack(allowed: bool) -> (out: Vec<Effect>)
        ensures
            disconnect_ack_step(allowed, out@),
    {
        if allowed {
            four(Effect::CaptureWindowState, Effect::SaveConfig, Effect::Disconnect, Effect::Exit)
        } else {
            one(Effect::Chat(ChatLine::from_str(ChatKind::System, "You cannot exit now.")))
        }
    }

    /// The connection dropped. The player leaving ("User exit") ends the
    /// program; in game the reason is shown in the game's dialog, elsewhere
    /// in the account dialog.
    pub fn handle_disconnected(reason: String, screen: Screen) -> (e: Effect)
        ensures
            disconnected_step(reason, screen, e),
    {
        if reason == String::from_str("User exit") {
            return Effect::Exit;
        }
        if screen == Screen::InGame {
            let mut t = String::from_str("Disconnected from server: ");
            t.append(reason.as_str());
            Effect::DisconnectedDialog(t)
        } else {
            let mut t = String::from_str("Disconnected: ");
            t.append(reason.as_str());
            Effect::AccountDialog(t)
        }
    }

    /// The character server refused us: the reason is shown and the server
    /// list comes back.
    pub fn handle_char_server_connect_refused(error_code: u8) -> (out: Vec<Effect>)
        ensures
            char_server_connect_refused_step(error_code, out@),
    {
        let msg = match error_code {
            0 => "Rejected from server",
            1 => "ID mismatch",
            _ => "Cannot connect to character server",
        };
        two(Effect::AccountDialog(String::from_str(msg)), Effect::EnterScreen(Screen::ServerSelect))
    }
}

impl App {
    /// The character moves to another map server: the map change runs as
    /// any map change does, the actors of the map go, and the client
    /// switches to the zone at `ip`:`port` for `map_name`.
    pub fn handle_zone_server_changed(&mut self, map_name: String, ip: u32, port: i16) -> (out: Vec<
        Effect,
    >)
        ensures
            zone_server_changed_step(*old(self), *final(self), map_name, ip, port, out@),
    {
        let mut out = self.on_session_change(SessionChange::MapChange);
        let ghost mid = *self;
        let mut cleared = self.clear_map_actors();
        out.append(&mut cleared);
        assert(map_changed(*old(self), mid) && actors_cleared(mid, *self));
        out.push(Effect::SwitchZone { map_name, ip, port });
        out
    }
}

/// What `handle_zone_server_changed` leaves and hands on.
pub open spec fn zone_server_changed_step(a: App, b: App, map_name: String, ip: u32, port: i16, out: Seq<Effect>) -> bool {
    &&& exists|mid: App| map_changed(a, mid) && actors_cleared(mid, b)
    &&& out =~= seq![
                    Effect::Session(SessionChange::MapChange),
                    Effect::ClearMapActors,
                    Effect::SwitchZone { map_name, ip, port },
                ]
}

/// What `handle_disconnect_ack` gives.
pub open spec fn disconnect_ack_step(allowed: bool, out: Seq<Effect>) -> bool {
    &&& (allowed ==> (out) =~= seq![
                    Effect::CaptureWindowState,
                    Effect::SaveConfig,
                    Effect::Disconnect,
                    Effect::Exit,
                ])
    &&& (!allowed ==> (out).len() == 1 && is_chat(
                    (out)[0],
                    ChatKind::System,
                    "You cannot exit now."@,
                ))
}

/// What `handle_disconnected` gives.
pub open spec fn disconnected_step(reason: String, screen: Screen, e: Effect) -> bool {
    &&& (reason@ == "User exit"@ ==> e == Effect::Exit)
    &&& (reason@ != "User exit"@ && screen == Screen::InGame ==> (e matches Effect::DisconnectedDialog(
                    t,
                ) && t@ == "Disconnected from server: "@ + reason@))
    &&& (reason@ != "User exit"@ && screen != Screen::InGame ==> (e matches Effect::AccountDialog(t)
                    && t@ == "Disconnected: "@ + reason@))
}

/// What `handle_char_server_connect_refused` gives.
pub open spec fn char_server_connect_refused_step(error_code: u8, out: Seq<Effect>) -> bool {
    &&& ((out).len() == 2)
    &&& ((out)[0] matches Effect::AccountDialog(t) && t@ == spec_char_server_refusal(error_code))
    &&& ((out)[1] == Effect::EnterScreen(Screen::ServerSelect))
}

} // verus!
