//! Per-client server-side state.
//!
//! One `PlayerData` exists per connected client: identity-independent fields
//! the coordinator and the client task maintain, and the last cached packet of
//! each kind, replayed to newly joining peers.

use vstd::prelude::*;

verus! {

use crate::guid::Guid;
use crate::packet::{GameMode, Packet, PacketData, PacketDataView, PacketView, TagUpdate};
use crate::settings::IpAddress;

/// Server-side record of one connected player.
///
/// Invariants (see [`PlayerData::wf`]): the cached packet for a kind, if
/// present, really is of that kind, and the collected-shine set holds no
/// duplicates.
#[derive(Debug)]
pub struct PlayerData {
    pub name: String,
    pub ipv4: Option<IpAddress>,
    /// Shine ids this client is known to have collected.
    pub shine_sync: Vec<i32>,
    pub scenario: i8,
    pub is_2d: bool,
    pub is_seeking: Option<bool>,
    pub last_capture_packet: Option<Packet>,
    pub last_costume_packet: Option<Packet>,
    pub last_game_packet: Option<Packet>,
    pub last_player_packet: Option<Packet>,
    /// While set, no shine broadcast reaches this player (new-save gate).
    pub disable_shine_sync: bool,
    /// Set once a Costume packet arrived; shine collection counts only then.
    pub loaded_save: bool,
    /// Hide-and-seek timer, in whole seconds.
    pub time: Option<u64>,
}

impl PlayerData {
    /// Each cached packet really is of its kind; the shine set holds no
    /// duplicates.
    pub open spec fn wf(self) -> bool {
        &&& self.shine_sync@.no_duplicates()
        &&& (self.last_capture_packet matches Option::Some(p) ==> p@.data is Capture)
        &&& (self.last_costume_packet matches Option::Some(p) ==> p@.data is Costume)
        &&& (self.last_game_packet matches Option::Some(p) ==> p@.data is Game)
        &&& (self.last_player_packet matches Option::Some(p) ==> p@.data is Player)
    }

    /// A fresh record for a client with this name and address.
    pub fn new(name: String, ipv4: Option<IpAddress>) -> (r: PlayerData)
        ensures
            r.wf(),
            r.name == name,
            r.ipv4 == ipv4,
            r.shine_sync@ == Seq::<i32>::empty(),
            r.scenario == -1i8,
            !r.is_2d,
            r.is_seeking is None,
            r.last_capture_packet is None,
            r.last_costume_packet is None,
            r.last_game_packet is None,
            r.last_player_packet is None,
            !r.disable_shine_sync,
            !r.loaded_save,
            r.time is None,
    {
        PlayerData {
            name,
            ipv4,
            shine_sync: Vec::new(),
            scenario: -1,
            is_2d: false,
            is_seeking: None,
            last_capture_packet: None,
            last_costume_packet: None,
            last_game_packet: None,
            last_player_packet: None,
            disable_shine_sync: false,
            loaded_save: false,
            time: None,
        }
    }

    /// The synthetic tag packet replayed to a joining peer, built from this
    /// player's timer and seeker state; nothing when neither is known.
    pub fn create_tag_packet(&self, guid: Guid) -> (r: Option<Packet>)
        ensures
            (self.time is None && self.is_seeking is None) <==> r is None,
            r matches Option::Some(p) ==> p@ == (PacketView {
                id: guid,
                data_size: 5u16,
                data: spec_synthetic_tag(self.time, self.is_seeking),
            }),
    {
        if self.time.is_none() && self.is_seeking.is_none() {
            return None;
        }
        let update_type = match (&self.time, &self.is_seeking) {
            (Some(_), Some(_)) => TagUpdate::Both,
            (Some(_), None) => TagUpdate::Time,
            (None, Some(_)) => TagUpdate::State,
            (None, None) => TagUpdate::Unknown,
        };
        let seconds: u64 = match &self.time {
            Some(d) => *d,
            None => 0,
        };
        let is_it = match &self.is_seeking {
            Some(b) => *b,
            None => false,
        };
        let minutes: u16 = if seconds / 60 > 65535 {
            65535
        } else {
            (seconds / 60) as u16
        };
        Some(
            Packet::new(
                guid,
                PacketData::Tag {
                    game_mode: GameMode::Legacy,
                    update_type,
                    is_it,
                    seconds: (seconds % 60) as u8,
                    minutes,
                },
            ),
        )
    }
}

/// The tag packet payload synthesised from a timer and a seeker flag: which
/// fields are known picks the update type; the timer is split into minutes
/// (clamped) and seconds.
pub open spec fn spec_synthetic_tag(time: Option<u64>, is_seeking: Option<bool>) -> PacketDataView {
    let secs = if time is Some {
        time.unwrap()
    } else {
        0u64
    };
    PacketDataView::Tag {
        game_mode: GameMode::Legacy,
        update_type: match (time, is_seeking) {
            (Option::Some(_), Option::Some(_)) => TagUpdate::Both,
            (Option::Some(_), Option::None) => TagUpdate::Time,
            (Option::None, Option::Some(_)) => TagUpdate::State,
            (Option::None, Option::None) => TagUpdate::Unknown,
        },
        is_it: if is_seeking is Some {
            is_seeking.unwrap()
        } else {
            false
        },
        seconds: (secs % 60) as u8,
        minutes: if secs / 60 > 65535 {
            65535u16
        } else {
            (secs / 60) as u16
        },
    }
}

} // verus!
