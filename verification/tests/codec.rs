//! Wire codec tests: round trips, framing, kind-5 dispatch, error inputs.


use smo_server::guid::Guid;
use smo_server::packet::{
    ConnectionType, Costume, EncodingError, GameMode, Packet, PacketData, Quaternion, TagUpdate,
    Vector3, HEADER_SIZE, MAX_PACKET_SIZE,
};

fn guid(n: u128) -> Guid {
    Guid { id: n }
}

fn roundtrip(p: Packet) {
    let mut buf: Vec<u8> = Vec::new();
    p.encode(&mut buf).unwrap();
    let (decoded, consumed) = Packet::decode(buf.as_slice()).unwrap();
    assert_eq!(consumed, buf.len());
    assert_eq!(decoded, p);
}

#[test]
fn round_trip_init() {
    let mut p = Packet::new(guid(7), PacketData::Init { max_players: 8 });
    p.resize();
    roundtrip(p);
}

#[test]
fn round_trip_player() {
    let pos = Vector3 { x: 0x3f800000, y: 0, z: 0x40000000 };
    let rot = Quaternion { x: 0, y: 0, z: 0, w: 0x3f800000 };
    let p = Packet::new(
        guid(0x0102030405060708090a0b0c0d0e0f10),
        PacketData::Player {
            pos,
            rot,
            animation_blend_weights: [1, 2, 3, 4, 5, 6],
            act: 9,
            sub_act: 4,
        },
    );
    roundtrip(p);
}

#[test]
fn round_trip_cap() {
    let p = Packet::new(
        guid(3),
        PacketData::Cap {
            pos: Vector3 { x: 1, y: 2, z: 3 },
            rot: Quaternion { x: 4, y: 5, z: 6, w: 7 },
            cap_out: true,
            cap_anim: "WorldWarpHoleThrough".to_string(),
        },
    );
    roundtrip(p);
}

#[test]
fn round_trip_game() {
    let p = Packet::new(
        guid(3),
        PacketData::Game {
            is_2d: false,
            scenario_num: -1,
            stage: "SandWorldHomeStage".to_string(),
        },
    );
    roundtrip(p);
}

#[test]
fn round_trip_tag() {
    let p = Packet::new(
        guid(1),
        PacketData::Tag {
            game_mode: GameMode::HideAndSeek,
            update_type: TagUpdate::Both,
            is_it: true,
            seconds: 59,
            minutes: 300,
        },
    );
    roundtrip(p);
}

#[test]
fn round_trip_game_mode_data() {
    let p = Packet::new(
        guid(1),
        PacketData::GameMode {
            game_mode: GameMode::FreezeTag,
            update_type: 2,
            data: vec![1, 2, 3],
        },
    );
    roundtrip(p);
}

#[test]
fn round_trip_connect() {
    let p = Packet::new(
        guid(2),
        PacketData::Connect {
            c_type: ConnectionType::Reconnecting,
            max_player: 8,
            client_name: "Mario".to_string(),
        },
    );
    roundtrip(p);
}

#[test]
fn round_trip_costume_shine_capture() {
    roundtrip(Packet::new(
        guid(5),
        PacketData::Costume(Costume {
            body_name: "Mario64".to_string(),
            cap_name: "Mario64".to_string(),
        }),
    ));
    roundtrip(Packet::new(guid(5), PacketData::Shine { shine_id: -12, is_grand: true }));
    roundtrip(Packet::new(guid(5), PacketData::Capture { model: "KuriboWing".to_string() }));
}

#[test]
fn round_trip_change_stage_and_empties() {
    roundtrip(Packet::new(
        guid(5),
        PacketData::ChangeStage {
            stage: "PeachWorldHomeStage".to_string(),
            id: "start".to_string(),
            scenario: -1,
            sub_scenario: 0,
        },
    ));
    roundtrip(Packet::new(guid(5), PacketData::Disconnect));
    roundtrip(Packet::new(guid(5), PacketData::Command));
    roundtrip(Packet::new(guid(5), PacketData::UdpInit { port: 51888 }));
    roundtrip(Packet::new(guid(5), PacketData::HolePunch));
}

#[test]
fn unknown_tag_preserved() {
    let p = Packet::new(guid(9), PacketData::Unhandled { tag: 99, data: vec![0xde, 0xad] });
    roundtrip(p);
}

#[test]
fn prefixes_need_more_data() {
    let mut p = Packet::new(
        guid(1),
        PacketData::Game {
            is_2d: true,
            scenario_num: 2,
            stage: "CapWorldHomeStage".to_string(),
        },
    );
    p.resize();
    let mut buf: Vec<u8> = Vec::new();
    p.encode(&mut buf).unwrap();
    for n in 0..buf.len() {
        let r = Packet::decode(&buf[..n]);
        assert_eq!(r.unwrap_err(), EncodingError::NotEnoughData);
    }
    assert!(Packet::decode(buf.as_slice()).is_ok());
}

#[test]
fn kind5_nibble_dispatch() {
    // (game_mode << 4) | update_type with HideAndSeek decodes to Tag.
    let mut frame: Vec<u8> = vec![0; 16];
    frame.extend_from_slice(&[5, 0]); // type 5
    frame.extend_from_slice(&[5, 0]); // size 5
    frame.extend_from_slice(&[(1 << 4) | 3, 1, 30, 2, 0]);
    let (p, _) = Packet::decode(frame.as_slice()).unwrap();
    match p.data {
        PacketData::Tag { game_mode, update_type, is_it, seconds, minutes } => {
            assert_eq!(game_mode, GameMode::HideAndSeek);
            assert_eq!(update_type, TagUpdate::Both);
            assert!(is_it);
            assert_eq!(seconds, 30);
            assert_eq!(minutes, 2);
        },
        other => panic!("expected a Tag packet, got {:?}", other),
    }
    // Re-encoding reproduces the first byte.
    let mut out: Vec<u8> = Vec::new();
    p.encode(&mut out).unwrap();
    assert_eq!(out[HEADER_SIZE], (1 << 4) | 3);

    // FreezeTag (nibble 3) decodes to GameMode carrying the remaining bytes.
    let mut frame: Vec<u8> = vec![0; 16];
    frame.extend_from_slice(&[5, 0]);
    frame.extend_from_slice(&[5, 0]);
    frame.extend_from_slice(&[(3 << 4) | 1, 9, 9, 9, 9]);
    let (p, _) = Packet::decode(frame.as_slice()).unwrap();
    match &p.data {
        PacketData::GameMode { game_mode, update_type, data } => {
            assert_eq!(*game_mode, GameMode::FreezeTag);
            assert_eq!(*update_type, 1);
            assert_eq!(data.as_slice(), &[9, 9, 9, 9]);
        },
        other => panic!("expected a GameMode packet, got {:?}", other),
    }
    // Legacy with update type 3 is a Tag; Legacy with 1 is not.
    let mut frame: Vec<u8> = vec![0; 16];
    frame.extend_from_slice(&[5, 0, 5, 0, 0x03, 0, 0, 0, 0]);
    let (p, _) = Packet::decode(frame.as_slice()).unwrap();
    assert!(matches!(p.data, PacketData::Tag { game_mode: GameMode::Legacy, .. }));
    let mut frame: Vec<u8> = vec![0; 16];
    frame.extend_from_slice(&[5, 0, 5, 0, 0x01, 0, 0, 0, 0]);
    let (p, _) = Packet::decode(frame.as_slice()).unwrap();
    assert!(matches!(p.data, PacketData::GameMode { game_mode: GameMode::Legacy, .. }));
}

#[test]
fn bad_utf8_stage_refused() {
    let mut frame: Vec<u8> = vec![0; 16];
    frame.extend_from_slice(&[4, 0]); // type 4 (Game)
    frame.extend_from_slice(&[66, 0]); // size 66
    frame.push(0); // is_2d
    frame.push(1); // scenario
    let mut stage = vec![0xffu8; 64];
    stage[0] = b'A';
    frame.extend_from_slice(&stage);
    let r = Packet::decode(frame.as_slice());
    assert_eq!(r.unwrap_err(), EncodingError::BadUtf8);
}

#[test]
fn oversized_frame_refused_as_malformed() {
    let mut frame: Vec<u8> = vec![0; 16];
    frame.extend_from_slice(&[7, 0]); // Disconnect
    frame.extend_from_slice(&[0xff, 0xff]); // absurd declared size
    let r = Packet::extract(frame.as_slice());
    assert_eq!(r.unwrap_err(), EncodingError::CustomError);
    assert!(0xffffusize > MAX_PACKET_SIZE);
}

#[test]
fn undersized_payload_preserved_as_unhandled() {
    // A Shine frame that declares only 2 payload bytes cannot be a Shine.
    let mut frame: Vec<u8> = vec![0; 16];
    frame.extend_from_slice(&[9, 0]);
    frame.extend_from_slice(&[2, 0]);
    frame.extend_from_slice(&[1, 2]);
    let (p, consumed) = Packet::decode(frame.as_slice()).unwrap();
    assert_eq!(consumed, 22);
    match &p.data {
        PacketData::Unhandled { tag, data } => {
            assert_eq!(*tag, 9);
            assert_eq!(data.as_slice(), &[1, 2]);
        },
        other => panic!("expected Unhandled, got {:?}", other),
    }
}

#[test]
fn check_reports_frame_span() {
    let mut p = Packet::new(guid(1), PacketData::Init { max_players: 4 });
    p.resize();
    let mut buf: Vec<u8> = Vec::new();
    p.encode(&mut buf).unwrap();
    assert_eq!(Packet::check(&buf[..10]).unwrap_err(), EncodingError::NotEnoughData);
    assert_eq!(Packet::check(buf.as_slice()).unwrap(), 22);
    // The JSON API tag is answered with zero: consume everything.
    let mut frame: Vec<u8> = vec![0; 16];
    frame.extend_from_slice(&[0x53, 0x54]); // 0x5453 little-endian
    frame.extend_from_slice(&[0, 0]);
    assert_eq!(Packet::check(frame.as_slice()).unwrap(), 0);
}

#[test]
fn json_api_frame_consumes_buffer() {
    let mut frame: Vec<u8> = Vec::new();
    frame.extend_from_slice(b"0123456789abcdef"); // the 16 "id" bytes
    frame.extend_from_slice(&[0x53, 0x54]); // "ST" -> type 0x5453
    frame.extend_from_slice(b"xy"); // the two "size" bytes
    frame.extend_from_slice(b"{\"API_JSON_REQUEST\":{}}");
    let (p, consumed) = Packet::decode(frame.as_slice()).unwrap();
    assert_eq!(consumed, frame.len());
    match &p.data {
        PacketData::JsonApi { json } => {
            assert_eq!(json, "0123456789abcdefSTxy{\"API_JSON_REQUEST\":{}}");
        },
        other => panic!("expected JsonApi, got {:?}", other),
    }
}

#[test]
fn strings_are_trimmed_and_truncated() {
    // A name longer than its 32-byte field is cut at the field width.
    let long = "x".repeat(40);
    let mut p = Packet::new(guid(1), PacketData::Capture { model: long });
    p.resize();
    let mut buf: Vec<u8> = Vec::new();
    p.encode(&mut buf).unwrap();
    let (decoded, _) = Packet::decode(buf.as_slice()).unwrap();
    match &decoded.data {
        PacketData::Capture { model } => assert_eq!(model, &"x".repeat(32)),
        other => panic!("expected Capture, got {:?}", other),
    }
}

#[test]
fn only_trailing_nuls_are_trimmed() {
    let mut frame: Vec<u8> = vec![0; 16];
    frame.extend_from_slice(&[10, 0]); // type 10 (Capture)
    frame.extend_from_slice(&[32, 0]); // size 32
    let mut field = vec![0u8; 32];
    field[0] = 0;
    field[1] = b'x';
    frame.extend_from_slice(&field);
    let (p, _) = Packet::decode(frame.as_slice()).unwrap();
    match &p.data {
        PacketData::Capture { model } => assert_eq!(model, "\0x"),
        other => panic!("expected Capture, got {:?}", other),
    }
}

#[test]
fn type_names() {
    assert_eq!(Packet::new(guid(0), PacketData::Disconnect).data.get_type_name(), "disconnect");
    assert_eq!(Packet::new(guid(0), PacketData::HolePunch).data.get_type_name(), "holePunch");
    assert_eq!(
        Packet::new(guid(0), PacketData::ChangeStage {
            stage: String::new(),
            id: String::new(),
            scenario: 0,
            sub_scenario: 0,
        }).data.get_type_name(),
        "changeStage"
    );
}
