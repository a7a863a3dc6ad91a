//! Core of a multiplayer relay server for a cooperative game mod.
//!
//! Clients exchange fixed-size framed packets over TCP (with an optional UDP
//! fast path); the server fans per-client state out to all other participants
//! and keeps authoritative lobby-wide state (collected shines, tag status,
//! ban list).  This crate holds the verified core: the wire codec, the
//! per-client packet state machine, the lobby bookkeeping and the coordinator
//! policies (shine synchronisation, scenario merge, flip, bans).

pub mod client;
pub mod cmds;
pub mod codec;
pub mod coordinator;
pub mod game_mode;
pub mod guid;
pub mod listener;
pub mod lobby;
pub mod packet;
pub mod persist;
pub mod player;
pub mod roundtrip;
pub mod settings;
pub mod stages;
pub mod status;
pub mod wire;
