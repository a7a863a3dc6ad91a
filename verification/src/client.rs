//! Per-client packet state machine.
//!
//! The client task owns its sockets and queues; the decisions it takes on
//! each event live here as functions from plain state and packet to an action
//! the task performs: forward to the coordinator, publish on the broadcast
//! bus, answer a UDP handshake, or drop.

use vstd::prelude::*;

verus! {

use crate::cmds::ClientCommand;
use crate::codec::size_fits;
use crate::guid::Guid;
use crate::lobby::{Lobby, shine_set_insert};
use crate::packet::{
    ConnectionType, Packet, PacketData, PacketDataView, PacketView, Quaternion, TagUpdate,
    Vector3, spec_data_size,
};
use crate::player::PlayerData;
use crate::settings::{FlipPovSettings, Settings, guids_contain};
use vstd::string::StringExecFns;

// ---------------------------------------------------------------------------
// The flip transform
// ---------------------------------------------------------------------------

/// The IEEE-754 bits of the vertical offset applied by the flip transform:
/// 180.0 on a 2D stage, 160.0 otherwise.
pub open spec fn spec_mario_size_bits(is_2d: bool) -> u32 {
    if is_2d {
        0x43340000u32
    } else {
        0x43200000u32
    }
}

/// The flip offset for a player: bits of 180.0 when 2D, of 160.0 otherwise.
pub fn get_mario_size(is_2d: bool) -> (r: u32)
    ensures
        r == spec_mario_size_bits(is_2d),
{
    if is_2d {
        0x43340000
    } else {
        0x43200000
    }
}

// ---------------------------------------------------------------------------
// Flip predicates (§ settings.flip)
// ---------------------------------------------------------------------------

/// An incoming Player packet is flipped before it reaches the coordinator
/// exactly when flipping is on for everyone-else's view and the sender is a
/// flipped player.
pub open spec fn spec_inbound_flip(s: Settings, packet_id: Guid) -> bool {
    &&& s.flip.enabled
    &&& (s.flip.pov == FlipPovSettings::Both || s.flip.pov == FlipPovSettings::Others)
    &&& s.flip.players@.contains(packet_id)
}

/// An outgoing Player packet is flipped for this client exactly when flipping
/// is on for the flipped player's own view, this client is flipped, and the
/// packet does not come from a flipped player.
pub open spec fn spec_outbound_flip(s: Settings, self_guid: Guid, packet_id: Guid) -> bool {
    &&& s.flip.enabled
    &&& (s.flip.pov == FlipPovSettings::Both || s.flip.pov == FlipPovSettings::Player)
    &&& s.flip.players@.contains(self_guid)
    &&& !s.flip.players@.contains(packet_id)
}

/// Decide the inbound flip: the transform itself is floating-point work that
/// the caller performs on the packet before routing it.
pub fn should_flip_incoming(settings: &Settings, packet_id: Guid) -> (r: bool)
    ensures
        r == spec_inbound_flip(*settings, packet_id),
{
    settings.flip.enabled && settings.flip.pov.is_others_flip() && guids_contain(
        &settings.flip.players,
        packet_id,
    )
}

/// Decide the outbound flip: the transform itself is floating-point work that
/// the caller performs on the packet after this decision.
pub fn should_flip_outgoing(settings: &Settings, self_guid: Guid, packet_id: Guid) -> (r: bool)
    ensures
        r == spec_outbound_flip(*settings, self_guid, packet_id),
{
    settings.flip.enabled && settings.flip.pov.is_self_flip() && guids_contain(
        &settings.flip.players,
        self_guid,
    ) && !guids_contain(&settings.flip.players, packet_id)
}

// ---------------------------------------------------------------------------
// Incoming packet routing (client task, from the socket)
// ---------------------------------------------------------------------------

/// Where an incoming packet goes after its side effects on the player record.
#[derive(Debug)]
pub enum IncomingAction {
    /// Forward to the coordinator queue.
    ToCoordinator(Packet),
    /// Publish on the broadcast bus (the packet has been resized).
    ToBroadcast(Packet),
    /// A UDP handshake reply: remember the client's UDP port and answer with
    /// a hole-punch datagram over UDP.
    UdpHandshake { client_port: u16, reply: Packet },
    /// Consumed without effect.
    Consumed,
}

/// Dispatch one packet read from this client's sockets: cache and update the
/// player record as the kind demands, apply the inbound flip transform to
/// Player packets, and say where the packet goes.
pub fn route_incoming(
    settings: &Settings,
    me: &mut PlayerData,
    my_guid: Guid,
    packet: Packet,
) -> (r: IncomingAction)
    requires
        old(me).wf(),
        size_fits(packet@.data),
    ensures
        final(me).wf(),
        // Player (the caller has already applied the inbound flip transform
        // where `spec_inbound_flip` holds): cache, forward.
        packet@.data is Player ==> {
            &&& (r matches IncomingAction::ToCoordinator(p) && p@ == packet@)
            &&& *final(me) == (PlayerData {
                last_player_packet: final(me).last_player_packet,
                ..*old(me)
            })
            &&& (final(me).last_player_packet matches Option::Some(p) && p@ == packet@)
        },
        // Capture: cache, broadcast (resized).
        packet@.data is Capture ==> {
            &&& (r matches IncomingAction::ToBroadcast(p) && p@ == (PacketView {
                id: packet@.id,
                data_size: spec_data_size(packet@.data) as u16,
                data: packet@.data,
            }))
            &&& *final(me) == (PlayerData {
                last_capture_packet: final(me).last_capture_packet,
                ..*old(me)
            })
            &&& (final(me).last_capture_packet matches Option::Some(p) && p@ == packet@)
        },
        // Costume: mark the save loaded, cache, forward.
        packet@.data is Costume ==> {
            &&& (r matches IncomingAction::ToCoordinator(p) && p@ == packet@)
            &&& *final(me) == (PlayerData {
                loaded_save: true,
                last_costume_packet: final(me).last_costume_packet,
                ..*old(me)
            })
            &&& (final(me).last_costume_packet matches Option::Some(p) && p@ == packet@)
        },
        // Game: adopt 2D/scenario, clear the cached position on a stage
        // change, cache, forward.
        packet@.data matches PacketDataView::Game { is_2d, scenario_num, stage } ==> {
            &&& (r matches IncomingAction::ToCoordinator(p) && p@ == packet@)
            &&& final(me).is_2d == is_2d
            &&& final(me).scenario == scenario_num
            &&& (final(me).last_game_packet matches Option::Some(p) && p@ == packet@)
            &&& final(me).last_player_packet == (
            if spec_stage_changed(old(me).last_game_packet, stage) {
                Option::<Packet>::None
            } else {
                old(me).last_player_packet
            })
            &&& *final(me) == (PlayerData {
                is_2d: final(me).is_2d,
                scenario: final(me).scenario,
                last_game_packet: final(me).last_game_packet,
                last_player_packet: final(me).last_player_packet,
                ..*old(me)
            })
        },
        // Tag: adopt timer and seeker state as the update type says,
        // broadcast.
        packet@.data matches PacketDataView::Tag {
            update_type,
            is_it,
            seconds,
            minutes,
            ..
        } ==> {
            &&& (r matches IncomingAction::ToBroadcast(p) && p@ == (PacketView {
                id: packet@.id,
                data_size: spec_data_size(packet@.data) as u16,
                data: packet@.data,
            }))
            &&& final(me).time == (
            if update_type == TagUpdate::Time || update_type == TagUpdate::Both {
                Option::Some((seconds + minutes * 60) as u64)
            } else {
                old(me).time
            })
            &&& final(me).is_seeking == (
            if update_type == TagUpdate::State || update_type == TagUpdate::Both {
                Option::Some(is_it)
            } else {
                old(me).is_seeking
            })
            &&& *final(me) == (PlayerData {
                time: final(me).time,
                is_seeking: final(me).is_seeking,
                ..*old(me)
            })
        },
        // Shine: once the save is loaded, the id joins the player's own set.
        packet@.data matches PacketDataView::Shine { shine_id, .. } ==> {
            &&& (r matches IncomingAction::ToCoordinator(p) && p@ == packet@)
            &&& final(me).shine_sync@.to_set() == (
            if old(me).loaded_save {
                old(me).shine_sync@.to_set().insert(shine_id)
            } else {
                old(me).shine_sync@.to_set()
            })
            &&& *final(me) == (PlayerData { shine_sync: final(me).shine_sync, ..*old(me) })
        },
        // UDP handshake: remember the port, answer with a hole punch.
        packet@.data matches PacketDataView::UdpInit { port } ==> {
            &&& (r matches IncomingAction::UdpHandshake { client_port, reply } && client_port
                == port && reply@ == (PacketView {
                id: my_guid,
                data_size: 0u16,
                data: PacketDataView::HolePunch,
            }))
            &&& *final(me) == *old(me)
        },
        packet@.data is HolePunch ==> r is Consumed && *final(me) == *old(me),
        // Everything else is broadcast unchanged (after a resize).
        spec_other_incoming(packet@.data) ==> {
            &&& (r matches IncomingAction::ToBroadcast(p) && p@ == (PacketView {
                id: packet@.id,
                data_size: spec_data_size(packet@.data) as u16,
                data: packet@.data,
            }))
            &&& *final(me) == *old(me)
        },
{
    match packet.data {
        PacketData::Player { .. } => {
            me.last_player_packet = Some(packet.clone());
            IncomingAction::ToCoordinator(packet)
        },
        PacketData::Capture { .. } => {
            me.last_capture_packet = Some(packet.clone());
            let mut packet = packet;
            packet.resize();
            IncomingAction::ToBroadcast(packet)
        },
        PacketData::Costume(_) => {
            me.loaded_save = true;
            me.last_costume_packet = Some(packet.clone());
            IncomingAction::ToCoordinator(packet)
        },
        PacketData::Game { is_2d, scenario_num, ref stage } => {
            me.is_2d = is_2d;
            me.scenario = scenario_num;
            let changed = match &me.last_game_packet {
                Some(last) => match &last.data {
                    PacketData::Game { stage: last_stage, .. } => !stage.eq(last_stage),
                    _ => false,
                },
                None => false,
            };
            if changed {
                me.last_player_packet = None;
            }
            me.last_game_packet = Some(packet.clone());
            IncomingAction::ToCoordinator(packet)
        },
        PacketData::Tag { update_type, is_it, seconds, minutes, .. } => {
            match update_type {
                TagUpdate::Time => {
                    me.time = Some(seconds as u64 + minutes as u64 * 60);
                },
                TagUpdate::State => {
                    me.is_seeking = Some(is_it);
                },
                TagUpdate::Both => {
                    me.time = Some(seconds as u64 + minutes as u64 * 60);
                    me.is_seeking = Some(is_it);
                },
                TagUpdate::Unknown => {},
            }
            let mut packet = packet;
            packet.resize();
            IncomingAction::ToBroadcast(packet)
        },
        PacketData::Shine { shine_id, .. } => {
            if me.loaded_save {
                shine_set_insert(&mut me.shine_sync, shine_id);
            }
            IncomingAction::ToCoordinator(packet)
        },
        PacketData::UdpInit { port } => {
            let reply = Packet::new(my_guid, PacketData::HolePunch);
            IncomingAction::UdpHandshake { client_port: port, reply }
        },
        PacketData::HolePunch => IncomingAction::Consumed,
        _ => {
            let mut packet = packet;
            packet.resize();
            IncomingAction::ToBroadcast(packet)
        },
    }
}

/// Whether a Game packet's stage differs from the cached one.
pub open spec fn spec_stage_changed(last_game: Option<Packet>, stage: Seq<char>) -> bool {
    match last_game {
        Option::Some(p) => match p@.data {
            PacketDataView::Game { stage: last_stage, .. } => last_stage != stage,
            _ => false,
        },
        Option::None => false,
    }
}

/// The kinds with no special routing: broadcast unchanged.
pub open spec fn spec_other_incoming(d: PacketDataView) -> bool {
    match d {
        PacketDataView::Player { .. } => false,
        PacketDataView::Capture { .. } => false,
        PacketDataView::Costume(_) => false,
        PacketDataView::Game { .. } => false,
        PacketDataView::Tag { .. } => false,
        PacketDataView::Shine { .. } => false,
        PacketDataView::UdpInit { .. } => false,
        PacketDataView::HolePunch => false,
        _ => true,
    }
}

// ---------------------------------------------------------------------------
// Outgoing command handling (client task, from coordinator or broadcast bus)
// ---------------------------------------------------------------------------

/// Which socket carries a packet.
#[derive(Clone, Copy, Debug, PartialEq, Eq, Structural)]
pub enum SendChannel {
    Tcp,
    Udp,
}

/// Player and Cap packets ride the UDP fast path when the client's endpoint
/// is known; everything else stays on TCP.
pub open spec fn spec_send_channel(d: PacketDataView, udp_available: bool) -> SendChannel {
    match d {
        PacketDataView::Player { .. } => if udp_available {
            SendChannel::Udp
        } else {
            SendChannel::Tcp
        },
        PacketDataView::Cap { .. } => if udp_available {
            SendChannel::Udp
        } else {
            SendChannel::Tcp
        },
        _ => SendChannel::Tcp,
    }
}

fn send_channel(data: &PacketData, udp_available: bool) -> (r: SendChannel)
    ensures
        r == spec_send_channel(data@, udp_available),
{
    match data {
        PacketData::Player { .. } => if udp_available {
            SendChannel::Udp
        } else {
            SendChannel::Tcp
        },
        PacketData::Cap { .. } => if udp_available {
            SendChannel::Udp
        } else {
            SendChannel::Tcp
        },
        _ => SendChannel::Tcp,
    }
}

/// What the client task does with one command from its channels.
pub struct CommandOutcome {
    /// The task stops after this command (a Disconnect reached it).
    pub set_dead: bool,
    /// A packet to write, and on which socket.
    pub send: Option<(Packet, SendChannel)>,
}

/// Handle one command addressed to this client: drop packets that mirror the
/// client's own (a Disconnect among them ends the task) and rewrite
/// self-addressed packets to carry this client's identity.  Where
/// [`spec_outbound_flip`] holds of a Player packet, the caller applies the
/// flip transform to the returned packet before writing it.
pub fn handle_command(
    me: &mut PlayerData,
    my_guid: Guid,
    local_udp_port: u16,
    udp_available: bool,
    cmd: ClientCommand,
) -> (r: CommandOutcome)
    requires
        old(me).wf(),
    ensures
        final(me).wf(),
        // An already-addressed packet.
        cmd matches ClientCommand::Packet(p) ==> {
            if p@.id == my_guid {
                &&& *final(me) == *old(me)
                &&& r.send is None
                &&& r.set_dead == (p@.data is Disconnect)
            } else {
                &&& *final(me) == *old(me)
                &&& !r.set_dead
                &&& (r.send matches Option::Some((q, ch)) && q@ == p@ && ch == spec_send_channel(
                    p@.data,
                    udp_available,
                ))
            }
        },
        // A self-addressed packet: the id is rewritten to this client's guid.
        cmd matches ClientCommand::SelfAddressed(p) ==> {
            let out_data = if p@.data is UdpInit {
                PacketDataView::UdpInit { port: local_udp_port }
            } else {
                p@.data
            };
            let out = (PacketView { id: my_guid, data_size: p@.data_size, data: out_data });
            &&& r.set_dead == (p@.data is Disconnect)
            &&& (r.send matches Option::Some((q, ch)) && q@ == out && ch == spec_send_channel(
                out_data,
                udp_available,
            ))
            &&& final(me).shine_sync@.to_set() == (match p@.data {
                PacketDataView::Shine { shine_id, .. } => old(me).shine_sync@.to_set().insert(
                    shine_id,
                ),
                _ => old(me).shine_sync@.to_set(),
            })
            &&& *final(me) == (PlayerData { shine_sync: final(me).shine_sync, ..*old(me) })
        },
{
    match cmd {
        ClientCommand::Packet(p) => {
            if p.id.id == my_guid.id {
                let dead = match &p.data {
                    PacketData::Disconnect => true,
                    _ => false,
                };
                return CommandOutcome { set_dead: dead, send: None };
            }
            let ch = send_channel(&p.data, udp_available);
            CommandOutcome { set_dead: false, send: Some((p, ch)) }
        },
        ClientCommand::SelfAddressed(p) => {
            let mut p = p;
            let mut dead = false;
            match &mut p.data {
                PacketData::UdpInit { port } => {
                    *port = local_udp_port;
                },
                PacketData::Shine { shine_id, .. } => {
                    shine_set_insert(&mut me.shine_sync, *shine_id);
                },
                PacketData::Disconnect => {
                    dead = true;
                },
                _ => {},
            }
            p.id = my_guid;
            let ch = send_channel(&p.data, udp_available);
            CommandOutcome { set_dead: dead, send: Some((p, ch)) }
        },
    }
}

// ---------------------------------------------------------------------------
// Handshake
// ---------------------------------------------------------------------------

/// What the handshake makes of the first packet a connection sends.
#[derive(Debug)]
pub enum HandshakeDecision {
    /// The first packet was not a Connect.
    BadHandshake,
    /// The profile id is banned: serve the ignore path.
    Banned,
    /// A first connection with a name or id already bound.
    Duplicate,
    /// Accepted; the client joins under this name.
    Accept { c_type: ConnectionType, client_name: String },
}

/// Judge the first packet of a connection: it must be a Connect; a banned
/// profile id goes to the ignore path; a first connection must not reuse a
/// bound id or name; a reconnection skips the duplicate check.
pub fn evaluate_handshake(settings: &Settings, lobby: &Lobby, connect: &Packet) -> (r:
    HandshakeDecision)
    ensures
        !(connect@.data is Connect) <==> r is BadHandshake,
        (connect@.data is Connect && settings.ban_list.players@.contains(connect@.id)) <==> r
            is Banned,
        (connect@.data matches PacketDataView::Connect { c_type, client_name, .. }
            && !settings.ban_list.players@.contains(connect@.id) && c_type
            == ConnectionType::FirstConnection && (lobby.has_player(connect@.id)
            || lobby.has_name(client_name))) <==> r is Duplicate,
        r matches HandshakeDecision::Accept { c_type, client_name } ==> (connect@.data
            matches PacketDataView::Connect { c_type: ct, client_name: name, .. } && ct == c_type
            && name == client_name@),
{
    match &connect.data {
        PacketData::Connect { c_type, client_name, .. } => {
            if guids_contain(&settings.ban_list.players, connect.id) {
                return HandshakeDecision::Banned;
            }
            let first = match c_type {
                ConnectionType::FirstConnection => true,
                ConnectionType::Reconnecting => false,
            };
            if first && (lobby.contains_player(connect.id) || lobby.name_bound(client_name)) {
                return HandshakeDecision::Duplicate;
            }
            HandshakeDecision::Accept { c_type: *c_type, client_name: client_name.clone() }
        },
        _ => HandshakeDecision::BadHandshake,
    }
}

// ---------------------------------------------------------------------------
// Ignore path
// ---------------------------------------------------------------------------

/// The greeting an ignored connection still receives, so the client mod
/// attaches: an Init claiming a single slot, from the server guid.
pub fn ignore_init_packet() -> (r: Packet)
    ensures
        r@ == (PacketView {
            id: Guid { id: 0 },
            data_size: 2u16,
            data: PacketDataView::Init { max_players: 1u16 },
        }),
{
    Packet::new(Guid::server(), PacketData::Init { max_players: 1 })
}

/// What the ignore path answers a packet with: on the first stage entry (a
/// Game packet), after a delay, a deliberately malformed ChangeStage that
/// crashes the client mod out; everything else is swallowed.
pub fn ignore_reaction(packet: &Packet) -> (r: Option<Packet>)
    ensures
        packet@.data is Game <==> r is Some,
        r matches Option::Some(p) ==> p@ == (PacketView {
            id: Guid { id: 0 },
            data_size: 66u16,
            data: PacketDataView::ChangeStage {
                stage: "$agogusStage"@,
                id: "$among$us/SubArea"@,
                scenario: 21i8,
                sub_scenario: 69u8,
            },
        }),
{
    match &packet.data {
        PacketData::Game { .. } => Some(
            Packet::new(
                Guid::server(),
                PacketData::ChangeStage {
                    stage: String::from_str("$agogusStage"),
                    id: String::from_str("$among$us/SubArea"),
                    scenario: 21,
                    sub_scenario: 69,
                },
            ),
        ),
        _ => None,
    }
}

} // verus!
