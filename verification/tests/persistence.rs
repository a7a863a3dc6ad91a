//! Shine persistence and status report tests.

use smo_server::coordinator::{handle_packet, Action};
use smo_server::guid::Guid;
use smo_server::lobby::Lobby;
use smo_server::packet::{ConnectionType, Packet, PacketData};
use smo_server::persist::{shine_json, shines_from_json};
use smo_server::player::PlayerData;
use smo_server::settings::Settings;
use smo_server::status::JsonApiStatusPlayer;

#[test]
fn shine_set_serialises_to_a_json_array() {
    assert_eq!(shine_json(&vec![]), "[]");
    assert_eq!(shine_json(&vec![42]), "[42]");
    assert_eq!(shine_json(&vec![42, -7, 0]), "[42,-7,0]");
}

#[test]
fn shine_set_parses_back() {
    let loaded = shines_from_json("[1,2,2,3]").unwrap();
    assert_eq!(loaded, vec![1, 2, 3]);
    assert!(shines_from_json("not json").is_none());
    assert!(shines_from_json("{\"a\":1}").is_none());
    assert_eq!(shines_from_json(&shine_json(&vec![5, 6])).unwrap(), vec![5, 6]);
}

#[test]
fn shine_mutation_persists_when_enabled() {
    let a = Guid { id: 1 };
    let mut settings = Settings::default();
    settings.persist_shines.enabled = true;
    settings.persist_shines.filename = "moons.json".to_string();
    let mut lobby = Lobby::new(settings, Vec::new());
    let data = PlayerData::new("A".to_string(), None);
    let connect = Packet::new(
        a,
        PacketData::Connect {
            c_type: ConnectionType::FirstConnection,
            max_player: 8,
            client_name: "A".to_string(),
        },
    );
    let _ = smo_server::coordinator::add_client(&mut lobby, a, data, connect);

    let shine = Packet::new(a, PacketData::Shine { shine_id: 42, is_grand: false });
    let acts = handle_packet(&mut lobby, shine);
    match acts.last().unwrap() {
        Action::PersistShines { filename, json } => {
            assert_eq!(filename, "moons.json");
            assert_eq!(json, "[42]");
        },
        other => panic!("expected a persistence action, got {:?}", other),
    }
}

#[test]
fn status_respects_permissions() {
    let a = Guid { id: 1 };
    let mut lobby = Lobby::new(Settings::default(), Vec::new());
    let mut data = PlayerData::new("A".to_string(), None);
    data.last_game_packet = Some(Packet::new(
        a,
        PacketData::Game {
            is_2d: true,
            scenario_num: 3,
            stage: "SnowWorldHomeStage".to_string(),
        },
    ));
    let connect = Packet::new(
        a,
        PacketData::Connect {
            c_type: ConnectionType::FirstConnection,
            max_player: 8,
            client_name: "A".to_string(),
        },
    );
    let _ = smo_server::coordinator::add_client(&mut lobby, a, data, connect);

    // Without the players permission there is no report at all.
    assert!(JsonApiStatusPlayer::create(&lobby, &vec![]).is_none());

    let perms = vec![
        "Status/Players".to_string(),
        "Status/Players/Name".to_string(),
        "Status/Players/Kingdom".to_string(),
        "Status/Players/Stage".to_string(),
        "Status/Players/Scenario".to_string(),
    ];
    let report = JsonApiStatusPlayer::create(&lobby, &perms).unwrap();
    assert_eq!(report.len(), 1);
    let st = &report[0];
    assert_eq!(st.name.as_deref(), Some("A"));
    assert_eq!(st.kingdom.as_deref(), Some("Snow Kingdom"));
    assert_eq!(st.stage.as_deref(), Some("SnowWorldHomeStage"));
    assert_eq!(st.scenario, Some(3));
    // Fields without their permission stay out.
    assert!(st.id.is_none());
    assert!(st.position.is_none());
    assert!(st.ipv4.is_none());

    let id_perms = vec!["Status/Players".to_string(), "Status/Players/ID".to_string()];
    let report = JsonApiStatusPlayer::create(&lobby, &id_perms).unwrap();
    assert_eq!(
        report[0].id.as_deref(),
        Some("0100000000-0000-0000-0000-0000000000")
    );
}
