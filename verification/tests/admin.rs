//! Administrative surface and listener decision tests.

use smo_server::cmds::{ClientCommand, ExternalCommand, PlayerCommand, Players, ShineCommand};
use smo_server::coordinator::{add_client, handle_external_cmd, Action};
use smo_server::guid::Guid;
use smo_server::listener::{accept_decision, next_udp_port, AcceptDecision};
use smo_server::lobby::Lobby;
use smo_server::packet::{ConnectionType, GameMode, Packet, PacketData, TagUpdate};
use smo_server::player::PlayerData;
use smo_server::settings::{IpAddress, Settings};

fn guid(n: u128) -> Guid {
    Guid { id: n }
}

fn lobby_with(players: &[(u128, &str)]) -> Lobby {
    let mut lobby = Lobby::new(Settings::default(), Vec::new());
    for (id, name) in players {
        let g = guid(*id);
        let data = PlayerData::new(name.to_string(), None);
        let connect = Packet::new(
            g,
            PacketData::Connect {
                c_type: ConnectionType::FirstConnection,
                max_player: 8,
                client_name: name.to_string(),
            },
        );
        let _ = add_client(&mut lobby, g, data, connect);
    }
    lobby
}

#[test]
fn send_builds_change_stage_for_everyone() {
    let mut lobby = lobby_with(&[(1, "A"), (2, "B")]);
    let (acts, reply) = handle_external_cmd(
        &mut lobby,
        ExternalCommand::Player {
            players: Players::All,
            command: PlayerCommand::Send {
                stage: "SandWorldHomeStage".to_string(),
                id: "start".to_string(),
                scenario: 2,
            },
        },
    )
    .unwrap();
    assert_eq!(reply, "Sent players");
    assert_eq!(acts.len(), 1);
    match &acts[0] {
        Action::Broadcast(ClientCommand::SelfAddressed(p)) => {
            assert_eq!(p.id, Guid::server());
            assert_eq!(
                p.data,
                PacketData::ChangeStage {
                    stage: "SandWorldHomeStage".to_string(),
                    id: "start".to_string(),
                    scenario: 2,
                    sub_scenario: 0,
                }
            );
        },
        other => panic!("expected a broadcast, got {:?}", other),
    }
}

#[test]
fn tag_command_sends_time_and_state() {
    let a = guid(1);
    let mut lobby = lobby_with(&[(1, "A")]);
    let (acts, reply) = handle_external_cmd(
        &mut lobby,
        ExternalCommand::Player {
            players: Players::Individual(vec![a]),
            command: PlayerCommand::Tag { time: Some((3, 20)), is_seeking: Some(true) },
        },
    )
    .unwrap();
    assert_eq!(reply, "Updated tag status");
    assert_eq!(acts.len(), 2);
    match &acts[0] {
        Action::SendTo(to, ClientCommand::SelfAddressed(p)) => {
            assert_eq!(*to, a);
            assert_eq!(
                p.data,
                PacketData::Tag {
                    game_mode: GameMode::Legacy,
                    update_type: TagUpdate::Time,
                    is_it: false,
                    seconds: 20,
                    minutes: 3,
                }
            );
        },
        other => panic!("expected the time update, got {:?}", other),
    }
    match &acts[1] {
        Action::SendTo(_, ClientCommand::SelfAddressed(p)) => {
            assert_eq!(
                p.data,
                PacketData::Tag {
                    game_mode: GameMode::Legacy,
                    update_type: TagUpdate::State,
                    is_it: true,
                    seconds: 0,
                    minutes: 0,
                }
            );
        },
        other => panic!("expected the state update, got {:?}", other),
    }
}

#[test]
fn shine_sync_command_reports() {
    let mut lobby = lobby_with(&[(1, "A")]);
    lobby.shines = vec![5];
    let (acts, reply) =
        handle_external_cmd(&mut lobby, ExternalCommand::Shine { command: ShineCommand::Sync })
            .unwrap();
    assert_eq!(reply, "Synced shine bags");
    // The one player lacks shine 5.
    assert_eq!(acts.len(), 1);
}

#[test]
fn disconnect_command_empties_selection() {
    let a = guid(1);
    let mut lobby = lobby_with(&[(1, "A"), (2, "B")]);
    let (_, reply) = handle_external_cmd(
        &mut lobby,
        ExternalCommand::Player {
            players: Players::Individual(vec![a]),
            command: PlayerCommand::Disconnect,
        },
    )
    .unwrap();
    assert_eq!(reply, "Disconnected players");
    assert!(!lobby.contains_player(a));
    assert!(lobby.contains_player(guid(2)));
}

#[test]
fn selections_flatten_and_dedup() {
    let lobby = lobby_with(&[(1, "A"), (2, "B")]);
    let all = Players::All.flatten(&lobby);
    assert_eq!(all, vec![guid(1), guid(2)]);
    let picked = Players::Individual(vec![guid(2), guid(2), guid(1)]).get_guids(&lobby);
    assert_eq!(picked.len(), 2);
    let names = Players::All.get_names(&lobby);
    assert_eq!(names, vec!["A", "B"]);
}

#[test]
fn listener_triage() {
    let mut settings = Settings::default();
    settings.server.max_players = 2;
    settings.ban_list.ip_addresses = vec![IpAddress::V4(10, 0, 0, 9)];

    assert_eq!(
        accept_decision(&settings, 0, IpAddress::V4(10, 0, 0, 9)),
        AcceptDecision::Ignore
    );
    assert_eq!(
        accept_decision(&settings, 2, IpAddress::V4(10, 0, 0, 1)),
        AcceptDecision::Ignore
    );
    assert_eq!(
        accept_decision(&settings, 1, IpAddress::V4(10, 0, 0, 1)),
        AcceptDecision::Accept
    );
}

#[test]
fn udp_ports_rotate() {
    let (port, next) = next_udp_port(20000, 3, 0);
    assert_eq!((port, next), (20000, 1));
    let (port, next) = next_udp_port(20000, 3, next);
    assert_eq!((port, next), (20001, 2));
    let (port, next) = next_udp_port(20000, 3, next);
    assert_eq!((port, next), (20002, 0));
}
