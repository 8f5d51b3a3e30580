//! Verified core of a Ragnarok Online game client: the decisions the client
//! makes when server events arrive and when the player types commands.
use vstd::prelude::*;

pub mod app;
pub mod chat;
pub mod click;
pub mod combat;
pub mod command;
pub mod config;
pub mod companions;
pub mod connection;
pub mod effect_id;
pub mod effect_keys;
pub mod effects;
pub mod events;
pub mod guild;
pub mod notice;
pub mod options;
pub mod party;
pub mod player;
pub mod production;
pub mod pvp;
pub mod requests;
pub mod seqs;
pub mod session;
pub mod shops;
pub mod slash;
pub mod social;
pub mod text;
pub mod trade;
pub mod ui_events;
pub mod world;

verus! {

} // verus!
