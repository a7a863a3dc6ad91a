//! End-to-end scenarios over the lobby, the client state machine and the
//! coordinator.

use smo_server::client::{
    get_mario_size, handle_command, route_incoming, should_flip_incoming, should_flip_outgoing,
    evaluate_handshake, ignore_init_packet, ignore_reaction, HandshakeDecision,
    IncomingAction, SendChannel,
};
use smo_server::cmds::{ClientCommand, ExternalCommand, PlayerCommand, Players, ShineCommand};
use smo_server::coordinator::{
    add_client, disconnect_player, finish_shine_resync, handle_external_cmd, handle_packet,
    shutdown, sync_all_shines, Action,
};
use smo_server::guid::Guid;
use smo_server::lobby::Lobby;
use smo_server::packet::{
    ConnectionType, GameMode, Packet, PacketData, Quaternion, TagUpdate, Vector3,
};
use smo_server::player::PlayerData;
use smo_server::settings::{FlipPovSettings, Settings};

fn guid(n: u128) -> Guid {
    Guid { id: n }
}

fn connect_packet(g: Guid, name: &str, c_type: ConnectionType) -> Packet {
    Packet::new(
        g,
        PacketData::Connect { c_type, max_player: 8, client_name: name.to_string() },
    )
}

fn game_packet(g: Guid, stage: &str, scenario: i8) -> Packet {
    Packet::new(
        g,
        PacketData::Game { is_2d: false, scenario_num: scenario, stage: stage.to_string() },
    )
}

fn fresh_lobby() -> Lobby {
    Lobby::new(Settings::default(), Vec::new())
}

fn join(lobby: &mut Lobby, g: Guid, name: &str, c_type: ConnectionType) -> Vec<Action> {
    let data = PlayerData::new(name.to_string(), None);
    add_client(lobby, g, data, connect_packet(g, name, c_type))
}

fn player_idx(lobby: &Lobby, g: Guid) -> usize {
    lobby.find_player(g).unwrap()
}

// Handshake and peer sync: the second player is introduced to the first, and
// a first connection resets the peers' puppet caches.
#[test]
fn handshake_peer_sync() {
    let a = guid(1);
    let b = guid(2);
    let mut lobby = fresh_lobby();
    let _ = join(&mut lobby, a, "A", ConnectionType::FirstConnection);
    let acts = join(&mut lobby, b, "B", ConnectionType::FirstConnection);

    // First: a synthetic Connect introducing A, sent to B.
    match &acts[0] {
        Action::SendTo(to, ClientCommand::Packet(p)) => {
            assert_eq!(*to, b);
            assert_eq!(p.id, a);
            match &p.data {
                PacketData::Connect { c_type, client_name, .. } => {
                    assert_eq!(*c_type, ConnectionType::FirstConnection);
                    assert_eq!(client_name, "A");
                },
                other => panic!("expected a Connect, got {:?}", other),
            }
        },
        other => panic!("expected a send to B, got {:?}", other),
    }
    // A has no cached packets, so next is B's own synthetic Connect (dropped
    // by B's task), then the broadcast of B's Connect packet, then the two
    // puppet-cache resets under B's id.
    let n = acts.len();
    assert_eq!(n, 5);
    match &acts[2] {
        Action::Broadcast(ClientCommand::Packet(p)) => {
            assert_eq!(p.id, b);
            assert!(matches!(p.data, PacketData::Connect { .. }));
        },
        other => panic!("expected the Connect broadcast, got {:?}", other),
    }
    match &acts[3] {
        Action::Broadcast(ClientCommand::Packet(p)) => {
            assert_eq!(p.id, b);
            assert_eq!(
                p.data,
                PacketData::Tag {
                    game_mode: GameMode::Legacy,
                    update_type: TagUpdate::Both,
                    is_it: false,
                    seconds: 0,
                    minutes: 0,
                }
            );
        },
        other => panic!("expected the empty Tag broadcast, got {:?}", other),
    }
    match &acts[4] {
        Action::Broadcast(ClientCommand::Packet(p)) => {
            assert_eq!(p.id, b);
            assert_eq!(p.data, PacketData::Capture { model: String::new() });
        },
        other => panic!("expected the empty Capture broadcast, got {:?}", other),
    }
}

// Shine collection and sync: a collected shine reaches peers that lack it and
// nobody else.
#[test]
fn shine_collection_sync() {
    let a = guid(1);
    let b = guid(2);
    let mut lobby = fresh_lobby();
    let _ = join(&mut lobby, a, "A", ConnectionType::FirstConnection);
    let _ = join(&mut lobby, b, "B", ConnectionType::FirstConnection);
    let settings = Settings::default();

    // A loads its save (Costume) and collects shine 42.
    let ai = player_idx(&lobby, a);
    let costume = Packet::new(
        a,
        PacketData::Costume(smo_server::packet::Costume {
            body_name: "Mario".to_string(),
            cap_name: "Mario".to_string(),
        }),
    );
    let r = route_incoming(&settings, &mut lobby.players[ai].data, a, costume);
    let costume = match r {
        IncomingAction::ToCoordinator(p) => p,
        other => panic!("expected a forward, got {:?}", other),
    };
    let _ = handle_packet(&mut lobby, costume);
    assert!(lobby.players[ai].data.loaded_save);

    let shine = Packet::new(a, PacketData::Shine { shine_id: 42, is_grand: false });
    let r = route_incoming(&settings, &mut lobby.players[ai].data, a, shine);
    let shine = match r {
        IncomingAction::ToCoordinator(p) => p,
        other => panic!("expected a forward, got {:?}", other),
    };
    assert_eq!(lobby.players[ai].data.shine_sync, vec![42]);

    let acts = handle_packet(&mut lobby, shine);
    assert_eq!(lobby.shines, vec![42]);
    // One self-addressed shine to B (A already holds it), then the broadcast.
    let sends: Vec<&Action> = acts
        .iter()
        .filter(|x| matches!(x, Action::SendTo(..)))
        .collect();
    assert_eq!(sends.len(), 1);
    match sends[0] {
        Action::SendTo(to, ClientCommand::SelfAddressed(p)) => {
            assert_eq!(*to, b);
            assert_eq!(p.data, PacketData::Shine { shine_id: 42, is_grand: false });
        },
        other => panic!("expected a self-addressed shine, got {:?}", other),
    }
    assert!(matches!(acts.last().unwrap(), Action::Broadcast(ClientCommand::Packet(_))));

    // Once B holds 42 as well, a sync pass sends nothing.
    let bi = player_idx(&lobby, b);
    lobby.players[bi].data.shine_sync = vec![42];
    let acts = sync_all_shines(&lobby);
    assert!(acts.is_empty());
}

// New-save suppression: entering Cap on a fresh save clears all shine state
// and silences sync for that player until a later stage re-enables it.
#[test]
fn new_save_suppression() {
    let a = guid(1);
    let mut lobby = fresh_lobby();
    let _ = join(&mut lobby, a, "A", ConnectionType::FirstConnection);
    lobby.shines = vec![7, 9];
    let ai = player_idx(&lobby, a);
    lobby.players[ai].data.shine_sync = vec![7];

    let acts = handle_packet(&mut lobby, game_packet(a, "CapWorldHomeStage", 1));
    assert!(lobby.players[ai].data.disable_shine_sync);
    assert!(lobby.players[ai].data.shine_sync.is_empty());
    assert!(lobby.shines.is_empty());
    // No shine sync reaches A while suppressed.
    assert!(acts.iter().all(|x| !matches!(x, Action::SendTo(..))));
    assert!(sync_all_shines(&lobby).is_empty());

    // Somebody else collects a shine meanwhile.
    lobby.shines = vec![30];

    // Entering Cascade schedules the re-sync...
    let acts = handle_packet(&mut lobby, game_packet(a, "WaterfallWorldHomeStage", 1));
    assert!(matches!(acts[0], Action::ScheduleShineResync(g) if g == a));

    // ...and finishing it re-enables sync and pushes the diff.
    let acts = finish_shine_resync(&mut lobby, a);
    assert!(!lobby.players[ai].data.disable_shine_sync);
    assert_eq!(acts.len(), 1);
    match &acts[0] {
        Action::SendTo(to, ClientCommand::SelfAddressed(p)) => {
            assert_eq!(*to, a);
            assert_eq!(p.id, a);
            assert_eq!(p.data, PacketData::Shine { shine_id: 30, is_grand: false });
        },
        other => panic!("expected the diff shine, got {:?}", other),
    }
}

// Banned stage crash: the Game packet is not broadcast; a crash is scheduled,
// and the crash command carries the malformed ChangeStage.
#[test]
fn banned_stage_crash() {
    let a = guid(1);
    let mut settings = Settings::default();
    settings.ban_list.enabled = true;
    settings.ban_list.stages = vec!["ForbiddenStage".to_string()];
    let mut lobby = Lobby::new(settings, Vec::new());
    let _ = join(&mut lobby, a, "A", ConnectionType::FirstConnection);

    let acts = handle_packet(&mut lobby, game_packet(a, "ForbiddenStage", 0));
    assert_eq!(acts.len(), 1);
    assert!(matches!(acts[0], Action::ScheduleCrash(g) if g == a));

    let (acts, reply) = handle_external_cmd(
        &mut lobby,
        ExternalCommand::Player {
            players: Players::Individual(vec![a]),
            command: PlayerCommand::Crash,
        },
    )
    .unwrap();
    assert_eq!(reply, "Crashed players");
    assert_eq!(acts.len(), 1);
    match &acts[0] {
        Action::SendTo(to, ClientCommand::SelfAddressed(p)) => {
            assert_eq!(*to, a);
            assert_eq!(
                p.data,
                PacketData::ChangeStage {
                    stage: "$agogusStage".to_string(),
                    id: "$among$us/cr4sh%".to_string(),
                    scenario: 21,
                    sub_scenario: 69,
                }
            );
        },
        other => panic!("expected the crash packet, got {:?}", other),
    }
}

// Flip decisions: with pov=Others and A flipped, inbound packets from A are
// transformed and nothing is transformed on the way out; the vertical offset
// is 160 (or 180 in 2D), as IEEE-754 bits.
#[test]
fn flip_others_decisions() {
    let a = guid(1);
    let b = guid(2);
    let mut settings = Settings::default();
    settings.flip.enabled = true;
    settings.flip.pov = FlipPovSettings::Others;
    settings.flip.players = vec![a];

    assert!(should_flip_incoming(&settings, a));
    assert!(!should_flip_incoming(&settings, b));
    assert!(!should_flip_outgoing(&settings, a, b));
    assert!(!should_flip_outgoing(&settings, b, a));

    assert_eq!(get_mario_size(false), 160.0f32.to_bits());
    assert_eq!(get_mario_size(true), 180.0f32.to_bits());

    // With pov=Player, only the outbound side of a flipped client applies.
    settings.flip.pov = FlipPovSettings::Player;
    assert!(!should_flip_incoming(&settings, a));
    assert!(should_flip_outgoing(&settings, a, b));
    assert!(!should_flip_outgoing(&settings, a, a));
}

// Reconnect skips the duplicate check, and no puppet-cache reset is
// broadcast for a reconnection.
#[test]
fn reconnect_skips_duplicate_check() {
    let a = guid(1);
    let mut lobby = fresh_lobby();
    let settings = Settings::default();
    let _ = join(&mut lobby, a, "A", ConnectionType::FirstConnection);

    // A second first-connection under the same name or id is a duplicate.
    let again = connect_packet(a, "A", ConnectionType::FirstConnection);
    assert!(matches!(
        evaluate_handshake(&settings, &lobby, &again),
        HandshakeDecision::Duplicate
    ));

    // After a disconnect, reconnecting under the same guid is accepted.
    let _ = disconnect_player(&mut lobby, a);
    assert!(!lobby.contains_player(a));
    let reconnect = connect_packet(a, "A", ConnectionType::Reconnecting);
    match evaluate_handshake(&settings, &lobby, &reconnect) {
        HandshakeDecision::Accept { c_type, client_name } => {
            assert_eq!(c_type, ConnectionType::Reconnecting);
            assert_eq!(client_name, "A");
        },
        other => panic!("expected acceptance, got {:?}", other),
    }
    // Even with the old entry still present, a reconnect is accepted.
    let _ = join(&mut lobby, a, "A", ConnectionType::FirstConnection);
    assert!(matches!(
        evaluate_handshake(&settings, &lobby, &reconnect),
        HandshakeDecision::Accept { .. }
    ));

    let acts = join(&mut lobby, a, "A", ConnectionType::Reconnecting);
    for x in &acts {
        if let Action::Broadcast(ClientCommand::Packet(p)) = x {
            assert!(!matches!(p.data, PacketData::Tag { .. }));
            assert!(!matches!(p.data, PacketData::Capture { .. }));
        }
    }
}

// A banned profile id is turned away at the handshake, and the ignore path
// greets it and crashes it on the first stage entry.
#[test]
fn banned_profile_ignored() {
    let a = guid(1);
    let mut settings = Settings::default();
    settings.ban_list.players = vec![a];
    let lobby = Lobby::new(Settings::default(), Vec::new());

    let connect = connect_packet(a, "A", ConnectionType::FirstConnection);
    assert!(matches!(
        evaluate_handshake(&settings, &lobby, &connect),
        HandshakeDecision::Banned
    ));
    // A first packet that is no Connect fails the handshake.
    let stray = Packet::new(a, PacketData::Disconnect);
    assert!(matches!(
        evaluate_handshake(&settings, &lobby, &stray),
        HandshakeDecision::BadHandshake
    ));

    let init = ignore_init_packet();
    assert_eq!(init.data, PacketData::Init { max_players: 1 });
    assert!(ignore_reaction(&connect).is_none());
    let crash = ignore_reaction(&game_packet(a, "CapWorldHomeStage", 0)).unwrap();
    assert_eq!(
        crash.data,
        PacketData::ChangeStage {
            stage: "$agogusStage".to_string(),
            id: "$among$us/SubArea".to_string(),
            scenario: 21,
            sub_scenario: 69,
        }
    );
}

// A Game packet with a new stage clears the cached position (no stale
// placement is replayed to joiners after a kingdom change).
#[test]
fn stage_change_clears_cached_position() {
    let a = guid(1);
    let settings = Settings::default();
    let mut data = PlayerData::new("A".to_string(), None);

    let player = Packet::new(
        a,
        PacketData::Player {
            pos: Vector3 { x: 0, y: 0, z: 0 },
            rot: Quaternion { x: 0, y: 0, z: 0, w: 0 },
            animation_blend_weights: [0; 6],
            act: 0,
            sub_act: 0,
        },
    );
    let _ = route_incoming(&settings, &mut data, a, player);
    assert!(data.last_player_packet.is_some());

    let _ = route_incoming(&settings, &mut data, a, game_packet(a, "SandWorldHomeStage", 0));
    assert!(data.last_player_packet.is_some());

    // Same stage again: the cache stays.
    let _ = route_incoming(&settings, &mut data, a, game_packet(a, "SandWorldHomeStage", 1));
    assert!(data.last_player_packet.is_some());

    // A different stage clears it.
    let _ = route_incoming(&settings, &mut data, a, game_packet(a, "LakeWorldHomeStage", 0));
    assert!(data.last_player_packet.is_none());
    assert_eq!(data.scenario, 0);
}

// Tag updates feed the synthetic tag packet replayed to joiners.
#[test]
fn tag_state_and_synthesis() {
    let a = guid(1);
    let settings = Settings::default();
    let mut data = PlayerData::new("A".to_string(), None);

    let tag = Packet::new(
        a,
        PacketData::Tag {
            game_mode: GameMode::HideAndSeek,
            update_type: TagUpdate::Both,
            is_it: true,
            seconds: 30,
            minutes: 2,
        },
    );
    match route_incoming(&settings, &mut data, a, tag) {
        IncomingAction::ToBroadcast(_) => {},
        other => panic!("expected a broadcast, got {:?}", other),
    }
    assert_eq!(data.time, Some(150));
    assert_eq!(data.is_seeking, Some(true));

    let synth = data.create_tag_packet(a).unwrap();
    assert_eq!(
        synth.data,
        PacketData::Tag {
            game_mode: GameMode::Legacy,
            update_type: TagUpdate::Both,
            is_it: true,
            seconds: 30,
            minutes: 2,
        }
    );

    // Nothing is synthesised when neither field is known.
    let blank = PlayerData::new("B".to_string(), None);
    assert!(blank.create_tag_packet(a).is_none());
}

// The client task's command handling: own packets are dropped, a Disconnect
// ends the task, self-addressed packets take the client's identity, and hot
// packets ride UDP when available.
#[test]
fn command_handling_and_send_selection() {
    let a = guid(1);
    let b = guid(2);
    let mut data = PlayerData::new("A".to_string(), None);

    // A packet mirroring the client's own id is dropped.
    let own = Packet::new(a, PacketData::Command);
    let out = handle_command(&mut data, a, 7777, false, ClientCommand::Packet(own));
    assert!(!out.set_dead);
    assert!(out.send.is_none());

    // The client's own Disconnect ends the task.
    let dc = Packet::new(a, PacketData::Disconnect);
    let out = handle_command(&mut data, a, 7777, false, ClientCommand::Packet(dc));
    assert!(out.set_dead);
    assert!(out.send.is_none());

    // Another player's hot packet rides UDP when the endpoint is known.
    let hot = Packet::new(
        b,
        PacketData::Player {
            pos: Vector3 { x: 0, y: 0, z: 0 },
            rot: Quaternion { x: 0, y: 0, z: 0, w: 0 },
            animation_blend_weights: [0; 6],
            act: 0,
            sub_act: 0,
        },
    );
    let out = handle_command(&mut data, a, 7777, true, ClientCommand::Packet(hot));
    let (p, ch) = out.send.unwrap();
    assert_eq!(p.id, b);
    assert_eq!(ch, SendChannel::Udp);

    // Self-addressed packets take this client's identity; UdpInit carries the
    // local UDP port; a shine joins the client's own set.
    let udp_init = Packet::new(b, PacketData::UdpInit { port: 1 });
    let out = handle_command(&mut data, a, 7777, false, ClientCommand::SelfAddressed(udp_init));
    let (p, ch) = out.send.unwrap();
    assert_eq!(p.id, a);
    assert_eq!(p.data, PacketData::UdpInit { port: 7777 });
    assert_eq!(ch, SendChannel::Tcp);

    let shine = Packet::new(b, PacketData::Shine { shine_id: 5, is_grand: false });
    let out = handle_command(&mut data, a, 7777, false, ClientCommand::SelfAddressed(shine));
    assert!(out.send.is_some());
    assert_eq!(data.shine_sync, vec![5]);
}

// Excluded shines never reach the server set.
#[test]
fn excluded_shine_ignored() {
    let a = guid(1);
    let mut settings = Settings::default();
    settings.shines.excluded = vec![404];
    let mut lobby = Lobby::new(settings, Vec::new());
    let _ = join(&mut lobby, a, "A", ConnectionType::FirstConnection);

    let shine = Packet::new(a, PacketData::Shine { shine_id: 404, is_grand: false });
    let acts = handle_packet(&mut lobby, shine);
    assert!(acts.is_empty());
    assert!(lobby.shines.is_empty());
}

// Clearing shines empties the server and every player; shutdown drains the
// lobby.
#[test]
fn shine_clear_and_shutdown() {
    let a = guid(1);
    let b = guid(2);
    let mut lobby = fresh_lobby();
    let _ = join(&mut lobby, a, "A", ConnectionType::FirstConnection);
    let _ = join(&mut lobby, b, "B", ConnectionType::FirstConnection);
    lobby.shines = vec![1, 2];
    let ai = player_idx(&lobby, a);
    lobby.players[ai].data.shine_sync = vec![1];

    let (_, reply) = handle_external_cmd(
        &mut lobby,
        ExternalCommand::Shine { command: ShineCommand::Clear },
    )
    .unwrap();
    assert_eq!(reply, "Shines cleared");
    assert!(lobby.shines.is_empty());
    assert!(lobby.players.iter().all(|e| e.data.shine_sync.is_empty()));

    let _ = shutdown(&mut lobby);
    assert!(lobby.players.is_empty());
}

// A selection naming a stranger is refused whole.
#[test]
fn unknown_guid_refused() {
    let a = guid(1);
    let stranger = guid(99);
    let mut lobby = fresh_lobby();
    let _ = join(&mut lobby, a, "A", ConnectionType::FirstConnection);

    let r = handle_external_cmd(
        &mut lobby,
        ExternalCommand::Player {
            players: Players::Individual(vec![stranger]),
            command: PlayerCommand::SendShine { id: 3 },
        },
    );
    assert!(r.is_err());

    let sel = Players::Individual(vec![a, stranger]);
    assert!(sel.verify(&lobby).is_err());
    let sel = Players::Individual(vec![a]);
    assert!(sel.verify(&lobby).is_ok());

    // The error names the first absent guid in the list.
    let sel = Players::Individual(vec![a, guid(98), guid(99)]);
    match sel.verify(&lobby) {
        Err(smo_server::cmds::CommandError::InvalidID(g)) => assert_eq!(g, guid(98)),
        other => panic!("expected the first stranger, got {:?}", other),
    }
}
