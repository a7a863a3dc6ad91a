//! Packet types and their wire layout.
//!
//! Every frame on the wire is `16-byte id || u16-LE type || u16-LE data_size
//! || data_size bytes of payload`.  Payloads are fixed-size and little-endian;
//! string fields are NUL-padded to a declared width.  The one exception is
//! type `0x5453` ("TS"): such a frame is a JSON API request tunneled through
//! the game port, and the decoder surrenders the rest of the buffer as text.
//!
//! Position, rotation and blend-weight fields are IEEE-754 `f32` values on the
//! wire; the codec carries them as their 32-bit patterns and never interprets
//! them.

use vstd::prelude::*;

verus! {

use crate::guid::Guid;
use crate::wire::{spec_str_field, spec_read_str_field};
use vstd::bytes::{
    spec_u16_to_le_bytes, spec_u16_from_le_bytes, spec_u32_to_le_bytes, spec_u32_from_le_bytes,
    spec_u128_to_le_bytes, spec_u128_from_le_bytes,
};
use vstd::utf8::{valid_utf8, decode_utf8, encode_utf8};

/// Largest allowed `data_size`; a frame that declares more is malformed.
pub const MAX_PACKET_SIZE: usize = 0x100;

/// Bytes of id, type and size before the payload.
pub const HEADER_SIZE: usize = 20;

/// Wire type id of the tunneled JSON API request ("TS").
pub const JSON_API_TAG: u16 = 0x5453;

pub const COSTUME_NAME_SIZE: usize = 0x20;
pub const CAP_ANIM_SIZE: usize = 0x30;
pub const STAGE_GAME_NAME_SIZE: usize = 0x40;
pub const STAGE_CHANGE_NAME_SIZE: usize = 0x30;
pub const STAGE_ID_SIZE: usize = 0x10;
pub const CLIENT_NAME_SIZE: usize = 0x20;

// ---------------------------------------------------------------------------
// Errors
// ---------------------------------------------------------------------------

/// Codec and connection error kinds.  `NotEnoughData` is a signal to
/// accumulate more bytes, not a fatal error.
#[derive(Clone, Copy, Debug, PartialEq, Eq, Structural)]
pub enum EncodingError {
    NotEnoughData,
    BadUtf8,
    ConnectionClose,
    ConnectionReset,
    CustomError,
}

// ---------------------------------------------------------------------------
// Small closed enums
// ---------------------------------------------------------------------------

/// How a client opens its session.
#[derive(Clone, Copy, Debug, PartialEq, Eq, Structural)]
pub enum ConnectionType {
    FirstConnection,
    Reconnecting,
}

/// Game mode nibble of a kind-5 packet: 0..15, where 15 encodes "none (-1)"
/// and 14 is reserved.
#[derive(Clone, Copy, Debug, PartialEq, Eq, Structural)]
pub enum GameMode {
    Legacy,
    HideAndSeek,
    Sardines,
    FreezeTag,
    Unknown04,
    Unknown05,
    Unknown06,
    Unknown07,
    Unknown08,
    Unknown09,
    Unknown10,
    Unknown11,
    Unknown12,
    Unknown13,
    Reserved,
    NoneMode,
}

impl GameMode {
    /// The mode encoded by the low nibble of `x`.
    pub fn from_u8(x: u8) -> (r: GameMode)
        ensures
            r == spec_game_mode_from_u8(x),
    {
        match x {
            0 => GameMode::Legacy,
            1 => GameMode::HideAndSeek,
            2 => GameMode::Sardines,
            3 => GameMode::FreezeTag,
            4 => GameMode::Unknown04,
            5 => GameMode::Unknown05,
            6 => GameMode::Unknown06,
            7 => GameMode::Unknown07,
            8 => GameMode::Unknown08,
            9 => GameMode::Unknown09,
            10 => GameMode::Unknown10,
            11 => GameMode::Unknown11,
            12 => GameMode::Unknown12,
            13 => GameMode::Unknown13,
            14 => GameMode::Reserved,
            _ => GameMode::NoneMode,
        }
    }

    /// The nibble that encodes mode `x`.
    pub fn to_u8(x: GameMode) -> (r: u8)
        ensures
            r == spec_game_mode_to_u8(x),
    {
        match x {
            GameMode::Legacy => 0,
            GameMode::HideAndSeek => 1,
            GameMode::Sardines => 2,
            GameMode::FreezeTag => 3,
            GameMode::Unknown04 => 4,
            GameMode::Unknown05 => 5,
            GameMode::Unknown06 => 6,
            GameMode::Unknown07 => 7,
            GameMode::Unknown08 => 8,
            GameMode::Unknown09 => 9,
            GameMode::Unknown10 => 10,
            GameMode::Unknown11 => 11,
            GameMode::Unknown12 => 12,
            GameMode::Unknown13 => 13,
            GameMode::Reserved => 14,
            GameMode::NoneMode => 15,
        }
    }
}

pub open spec fn spec_game_mode_from_u8(x: u8) -> GameMode {
    if x == 0 {
        GameMode::Legacy
    } else if x == 1 {
        GameMode::HideAndSeek
    } else if x == 2 {
        GameMode::Sardines
    } else if x == 3 {
        GameMode::FreezeTag
    } else if x == 4 {
        GameMode::Unknown04
    } else if x == 5 {
        GameMode::Unknown05
    } else if x == 6 {
        GameMode::Unknown06
    } else if x == 7 {
        GameMode::Unknown07
    } else if x == 8 {
        GameMode::Unknown08
    } else if x == 9 {
        GameMode::Unknown09
    } else if x == 10 {
        GameMode::Unknown10
    } else if x == 11 {
        GameMode::Unknown11
    } else if x == 12 {
        GameMode::Unknown12
    } else if x == 13 {
        GameMode::Unknown13
    } else if x == 14 {
        GameMode::Reserved
    } else {
        GameMode::NoneMode
    }
}

pub open spec fn spec_game_mode_to_u8(x: GameMode) -> u8 {
    match x {
        GameMode::Legacy => 0,
        GameMode::HideAndSeek => 1,
        GameMode::Sardines => 2,
        GameMode::FreezeTag => 3,
        GameMode::Unknown04 => 4,
        GameMode::Unknown05 => 5,
        GameMode::Unknown06 => 6,
        GameMode::Unknown07 => 7,
        GameMode::Unknown08 => 8,
        GameMode::Unknown09 => 9,
        GameMode::Unknown10 => 10,
        GameMode::Unknown11 => 11,
        GameMode::Unknown12 => 12,
        GameMode::Unknown13 => 13,
        GameMode::Reserved => 14,
        GameMode::NoneMode => 15,
    }
}

/// What a kind-5 tag packet updates.
#[derive(Clone, Copy, Debug, PartialEq, Eq, Structural)]
pub enum TagUpdate {
    Unknown,
    Time,
    State,
    Both,
}

pub open spec fn spec_tag_update_to_u8(u: TagUpdate) -> u8 {
    match u {
        TagUpdate::Unknown => 0,
        TagUpdate::Time => 1,
        TagUpdate::State => 2,
        TagUpdate::Both => 3,
    }
}

/// The update kind encoded by a low nibble; values above 3 fall back to
/// `Unknown`, as the decoder does.
pub open spec fn spec_tag_update_from_u8(u: u8) -> TagUpdate {
    if u == 1 {
        TagUpdate::Time
    } else if u == 2 {
        TagUpdate::State
    } else if u == 3 {
        TagUpdate::Both
    } else {
        TagUpdate::Unknown
    }
}

/// A kind-5 first byte splits into a game-mode high nibble and an update-type
/// low nibble; the frame is a Tag packet exactly when the mode is
/// hide-and-seek or sardines, or legacy with both fields updated.
pub open spec fn spec_is_tag_packet(game_mode: GameMode, update_type: u8) -> bool {
    ||| game_mode == GameMode::HideAndSeek
    ||| game_mode == GameMode::Sardines
    ||| (game_mode == GameMode::Legacy && update_type == 3)
}

// ---------------------------------------------------------------------------
// Value types carried by packets
// ---------------------------------------------------------------------------

/// Three little-endian IEEE-754 `f32`s, carried as bit patterns.
#[derive(Clone, Copy, Debug, PartialEq, Eq, Structural)]
pub struct Vector3 {
    pub x: u32,
    pub y: u32,
    pub z: u32,
}

/// Four little-endian IEEE-754 `f32`s (x, y, z, w), carried as bit patterns.
#[derive(Clone, Copy, Debug, PartialEq, Eq, Structural)]
pub struct Quaternion {
    pub x: u32,
    pub y: u32,
    pub z: u32,
    pub w: u32,
}

/// Body and cap model names of a costume.
#[derive(Debug, PartialEq)]
pub struct Costume {
    pub body_name: String,
    pub cap_name: String,
}

/// Spec-level costume: the two names as character sequences.
#[verifier::ext_equal]
pub struct CostumeView {
    pub body_name: Seq<char>,
    pub cap_name: Seq<char>,
}

impl View for Costume {
    type V = CostumeView;

    open spec fn view(&self) -> CostumeView {
        CostumeView { body_name: self.body_name@, cap_name: self.cap_name@ }
    }
}

// ---------------------------------------------------------------------------
// Packet data
// ---------------------------------------------------------------------------

/// Tagged union of packet kinds; the wire tag of each is given by
/// [`spec_type_id`].  Unknown tags are preserved as `Unhandled`.
#[derive(Debug, PartialEq)]
pub enum PacketData {
    Unhandled { tag: u16, data: Vec<u8> },
    Init { max_players: u16 },
    Player {
        pos: Vector3,
        rot: Quaternion,
        animation_blend_weights: [u32; 6],
        act: u16,
        sub_act: u16,
    },
    Cap { pos: Vector3, rot: Quaternion, cap_out: bool, cap_anim: String },
    Game { is_2d: bool, scenario_num: i8, stage: String },
    Tag {
        game_mode: GameMode,
        update_type: TagUpdate,
        is_it: bool,
        seconds: u8,
        minutes: u16,
    },
    GameMode { game_mode: GameMode, update_type: u8, data: Vec<u8> },
    Connect { c_type: ConnectionType, max_player: u16, client_name: String },
    Disconnect,
    Costume(Costume),
    Shine { shine_id: i32, is_grand: bool },
    Capture { model: String },
    ChangeStage { stage: String, id: String, scenario: i8, sub_scenario: u8 },
    Command,
    UdpInit { port: u16 },
    HolePunch,
    JsonApi { json: String },
}

/// Spec-level packet data: strings as character sequences, buffers as byte
/// sequences.
#[verifier::ext_equal]
pub enum PacketDataView {
    Unhandled { tag: u16, data: Seq<u8> },
    Init { max_players: u16 },
    Player {
        pos: Vector3,
        rot: Quaternion,
        animation_blend_weights: Seq<u32>,
        act: u16,
        sub_act: u16,
    },
    Cap { pos: Vector3, rot: Quaternion, cap_out: bool, cap_anim: Seq<char> },
    Game { is_2d: bool, scenario_num: i8, stage: Seq<char> },
    Tag {
        game_mode: GameMode,
        update_type: TagUpdate,
        is_it: bool,
        seconds: u8,
        minutes: u16,
    },
    GameMode { game_mode: GameMode, update_type: u8, data: Seq<u8> },
    Connect { c_type: ConnectionType, max_player: u16, client_name: Seq<char> },
    Disconnect,
    Costume(CostumeView),
    Shine { shine_id: i32, is_grand: bool },
    Capture { model: Seq<char> },
    ChangeStage { stage: Seq<char>, id: Seq<char>, scenario: i8, sub_scenario: u8 },
    Command,
    UdpInit { port: u16 },
    HolePunch,
    JsonApi { json: Seq<char> },
}

impl View for PacketData {
    type V = PacketDataView;

    open spec fn view(&self) -> PacketDataView {
        match self {
            PacketData::Unhandled { tag, data } => PacketDataView::Unhandled {
                tag: *tag,
                data: data@,
            },
            PacketData::Init { max_players } => PacketDataView::Init { max_players: *max_players },
            PacketData::Player { pos, rot, animation_blend_weights, act, sub_act } => {
                PacketDataView::Player {
                    pos: *pos,
                    rot: *rot,
                    animation_blend_weights: animation_blend_weights@,
                    act: *act,
                    sub_act: *sub_act,
                }
            },
            PacketData::Cap { pos, rot, cap_out, cap_anim } => PacketDataView::Cap {
                pos: *pos,
                rot: *rot,
                cap_out: *cap_out,
                cap_anim: cap_anim@,
            },
            PacketData::Game { is_2d, scenario_num, stage } => PacketDataView::Game {
                is_2d: *is_2d,
                scenario_num: *scenario_num,
                stage: stage@,
            },
            PacketData::Tag { game_mode, update_type, is_it, seconds, minutes } => {
                PacketDataView::Tag {
                    game_mode: *game_mode,
                    update_type: *update_type,
                    is_it: *is_it,
                    seconds: *seconds,
                    minutes: *minutes,
                }
            },
            PacketData::GameMode { game_mode, update_type, data } => PacketDataView::GameMode {
                game_mode: *game_mode,
                update_type: *update_type,
                data: data@,
            },
            PacketData::Connect { c_type, max_player, client_name } => PacketDataView::Connect {
                c_type: *c_type,
                max_player: *max_player,
                client_name: client_name@,
            },
            PacketData::Disconnect => PacketDataView::Disconnect,
            PacketData::Costume(c) => PacketDataView::Costume(c@),
            PacketData::Shine { shine_id, is_grand } => PacketDataView::Shine {
                shine_id: *shine_id,
                is_grand: *is_grand,
            },
            PacketData::Capture { model } => PacketDataView::Capture { model: model@ },
            PacketData::ChangeStage { stage, id, scenario, sub_scenario } => {
                PacketDataView::ChangeStage {
                    stage: stage@,
                    id: id@,
                    scenario: *scenario,
                    sub_scenario: *sub_scenario,
                }
            },
            PacketData::Command => PacketDataView::Command,
            PacketData::UdpInit { port } => PacketDataView::UdpInit { port: *port },
            PacketData::HolePunch => PacketDataView::HolePunch,
            PacketData::JsonApi { json } => PacketDataView::JsonApi { json: json@ },
        }
    }
}

// ---------------------------------------------------------------------------
// Packet
// ---------------------------------------------------------------------------

/// A framed packet: sender id, declared payload size, payload.  `data_size`
/// must equal the encoded length of `data`; `resize` re-establishes that after
/// a mutation.
#[derive(Debug, PartialEq)]
pub struct Packet {
    pub id: Guid,
    pub data_size: u16,
    pub data: PacketData,
}

/// Spec-level packet.
#[verifier::ext_equal]
pub struct PacketView {
    pub id: Guid,
    pub data_size: u16,
    pub data: PacketDataView,
}

impl View for Packet {
    type V = PacketView;

    open spec fn view(&self) -> PacketView {
        PacketView { id: self.id, data_size: self.data_size, data: self.data@ }
    }
}

// ---------------------------------------------------------------------------
// Sizes and type ids
// ---------------------------------------------------------------------------

/// Encoded byte length of a payload.
pub open spec fn spec_data_size(d: PacketDataView) -> int {
    match d {
        PacketDataView::Unhandled { data, .. } => data.len() as int,
        PacketDataView::Init { .. } => 2,
        PacketDataView::Player { .. } => 0x38,
        PacketDataView::Cap { .. } => 29 + CAP_ANIM_SIZE,
        PacketDataView::Game { .. } => 2 + STAGE_GAME_NAME_SIZE,
        PacketDataView::Tag { .. } => 5,
        PacketDataView::GameMode { data, .. } => 1 + data.len() as int,
        PacketDataView::Connect { .. } => 6 + CLIENT_NAME_SIZE,
        PacketDataView::Disconnect => 0,
        PacketDataView::Costume { .. } => COSTUME_NAME_SIZE * 2,
        PacketDataView::Shine { .. } => 5,
        PacketDataView::Capture { .. } => COSTUME_NAME_SIZE as int,
        PacketDataView::ChangeStage { .. } => STAGE_ID_SIZE + STAGE_CHANGE_NAME_SIZE + 2,
        PacketDataView::Command => 0,
        PacketDataView::UdpInit { .. } => 2,
        PacketDataView::HolePunch => 0,
        PacketDataView::JsonApi { json } => encode_utf8(json).len() as int,
    }
}

/// Wire type id of a payload.
pub open spec fn spec_type_id(d: PacketDataView) -> u16 {
    match d {
        PacketDataView::Unhandled { tag, .. } => tag,
        PacketDataView::Init { .. } => 1,
        PacketDataView::Player { .. } => 2,
        PacketDataView::Cap { .. } => 3,
        PacketDataView::Game { .. } => 4,
        PacketDataView::Tag { .. } => 5,
        PacketDataView::GameMode { .. } => 5,
        PacketDataView::Connect { .. } => 6,
        PacketDataView::Disconnect => 7,
        PacketDataView::Costume { .. } => 8,
        PacketDataView::Shine { .. } => 9,
        PacketDataView::Capture { .. } => 10,
        PacketDataView::ChangeStage { .. } => 11,
        PacketDataView::Command => 12,
        PacketDataView::UdpInit { .. } => 13,
        PacketDataView::HolePunch => 14,
        PacketDataView::JsonApi { .. } => JSON_API_TAG,
    }
}

// ---------------------------------------------------------------------------
// Byte-level helpers shared by spec encode and decode
// ---------------------------------------------------------------------------

pub open spec fn spec_bool_byte(b: bool) -> u8 {
    if b {
        1u8
    } else {
        0u8
    }
}

/// The byte reinterpreted as a signed value (two's complement).
pub open spec fn spec_byte_to_i8(b: u8) -> i8 {
    if b <= 127 {
        b as i8
    } else {
        (b - 256) as i8
    }
}

/// The two's-complement byte of a signed value.
pub open spec fn spec_i8_to_byte(v: i8) -> u8 {
    if v >= 0 {
        v as u8
    } else {
        (v + 256) as u8
    }
}

/// The 32-bit word reinterpreted as a signed value (two's complement).
pub open spec fn spec_u32_to_i32(x: u32) -> i32 {
    if x <= 0x7fffffff {
        x as i32
    } else {
        (x - 0x100000000) as i32
    }
}

/// The two's-complement word of a signed value.
pub open spec fn spec_i32_to_u32(v: i32) -> u32 {
    if v >= 0 {
        v as u32
    } else {
        (v + 0x100000000) as u32
    }
}

/// First byte of a kind-5 frame: game mode in the high nibble, update type in
/// the low nibble (an update type above 15 corrupts the mode bits, as the
/// reference encoding does).
pub open spec fn spec_tag5_byte(game_mode: GameMode, update_type: u8) -> u8 {
    (spec_game_mode_to_u8(game_mode) << 4) | update_type
}

pub open spec fn spec_vector3_bytes(v: Vector3) -> Seq<u8> {
    spec_u32_to_le_bytes(v.x) + spec_u32_to_le_bytes(v.y) + spec_u32_to_le_bytes(v.z)
}

pub open spec fn spec_quaternion_bytes(q: Quaternion) -> Seq<u8> {
    spec_u32_to_le_bytes(q.x) + spec_u32_to_le_bytes(q.y) + spec_u32_to_le_bytes(q.z)
        + spec_u32_to_le_bytes(q.w)
}

/// Little-endian bytes of a sequence of 32-bit words, in order.
pub open spec fn spec_u32s_bytes(s: Seq<u32>) -> Seq<u8>
    decreases s.len(),
{
    if s.len() == 0 {
        Seq::empty()
    } else {
        spec_u32_to_le_bytes(s[0]) + spec_u32s_bytes(s.drop_first())
    }
}

// ---------------------------------------------------------------------------
// Spec-level encoding
// ---------------------------------------------------------------------------

/// The payload bytes of a packet.  For a tunneled JSON API request nothing is
/// written: such frames are consumed, never produced.
pub open spec fn spec_encode_data(d: PacketDataView) -> Seq<u8> {
    match d {
        PacketDataView::Unhandled { data, .. } => data,
        PacketDataView::Init { max_players } => spec_u16_to_le_bytes(max_players),
        PacketDataView::Player { pos, rot, animation_blend_weights, act, sub_act } => {
            spec_vector3_bytes(pos) + spec_quaternion_bytes(rot) + spec_u32s_bytes(
                animation_blend_weights,
            ) + spec_u16_to_le_bytes(act) + spec_u16_to_le_bytes(sub_act)
        },
        PacketDataView::Cap { pos, rot, cap_out, cap_anim } => {
            spec_vector3_bytes(pos) + spec_quaternion_bytes(rot) + seq![spec_bool_byte(cap_out)]
                + spec_str_field(cap_anim, CAP_ANIM_SIZE as int)
        },
        PacketDataView::Game { is_2d, scenario_num, stage } => {
            seq![spec_bool_byte(is_2d), spec_i8_to_byte(scenario_num)] + spec_str_field(
                stage,
                STAGE_GAME_NAME_SIZE as int,
            )
        },
        PacketDataView::Tag { game_mode, update_type, is_it, seconds, minutes } => {
            seq![
                spec_tag5_byte(game_mode, spec_tag_update_to_u8(update_type)),
                spec_bool_byte(is_it),
                seconds,
            ] + spec_u16_to_le_bytes(minutes)
        },
        PacketDataView::GameMode { game_mode, update_type, data } => {
            seq![spec_tag5_byte(game_mode, update_type)] + data
        },
        PacketDataView::Connect { c_type, max_player, client_name } => {
            spec_u32_to_le_bytes(
                if c_type == ConnectionType::FirstConnection {
                    0u32
                } else {
                    1u32
                },
            ) + spec_u16_to_le_bytes(max_player) + spec_str_field(
                client_name,
                CLIENT_NAME_SIZE as int,
            )
        },
        PacketDataView::Disconnect => Seq::empty(),
        PacketDataView::Costume(c) => {
            spec_str_field(c.body_name, COSTUME_NAME_SIZE as int) + spec_str_field(
                c.cap_name,
                COSTUME_NAME_SIZE as int,
            )
        },
        PacketDataView::Shine { shine_id, is_grand } => {
            spec_u32_to_le_bytes(spec_i32_to_u32(shine_id)) + seq![spec_bool_byte(is_grand)]
        },
        PacketDataView::Capture { model } => spec_str_field(model, COSTUME_NAME_SIZE as int),
        PacketDataView::ChangeStage { stage, id, scenario, sub_scenario } => {
            spec_str_field(stage, STAGE_CHANGE_NAME_SIZE as int) + spec_str_field(
                id,
                STAGE_ID_SIZE as int,
            ) + seq![spec_i8_to_byte(scenario), sub_scenario]
        },
        PacketDataView::Command => Seq::empty(),
        PacketDataView::UdpInit { port } => spec_u16_to_le_bytes(port),
        PacketDataView::HolePunch => Seq::empty(),
        PacketDataView::JsonApi { .. } => Seq::empty(),
    }
}

/// The whole frame: id, type id, declared size, payload.
pub open spec fn spec_encode(p: PacketView) -> Seq<u8> {
    spec_u128_to_le_bytes(p.id.id) + spec_u16_to_le_bytes(spec_type_id(p.data))
        + spec_u16_to_le_bytes(p.data_size) + spec_encode_data(p.data)
}

// ---------------------------------------------------------------------------
// Spec-level decoding
// ---------------------------------------------------------------------------

/// The payload of a known kind, read from exactly `body` (the declared
/// `data_size` bytes).  A payload too short for its kind is preserved as
/// `Unhandled`, like an unknown tag; `None` means the payload is not valid
/// UTF-8 where a string is required.
pub open spec fn spec_decode_data(t: u16, body: Seq<u8>) -> Option<PacketDataView> {
    let unhandled = Option::Some(PacketDataView::Unhandled { tag: t, data: body });
    if t == 1 {
        if body.len() < 2 {
            unhandled
        } else {
            Option::Some(
                PacketDataView::Init {
                    max_players: spec_u16_from_le_bytes(body.subrange(0, 2)),
                },
            )
        }
    } else if t == 2 {
        if body.len() < 0x38 {
            unhandled
        } else {
            Option::Some(
                PacketDataView::Player {
                    pos: spec_read_vector3(body, 0),
                    rot: spec_read_quaternion(body, 12),
                    animation_blend_weights: seq![
                        spec_u32_from_le_bytes(body.subrange(28, 32)),
                        spec_u32_from_le_bytes(body.subrange(32, 36)),
                        spec_u32_from_le_bytes(body.subrange(36, 40)),
                        spec_u32_from_le_bytes(body.subrange(40, 44)),
                        spec_u32_from_le_bytes(body.subrange(44, 48)),
                        spec_u32_from_le_bytes(body.subrange(48, 52)),
                    ],
                    act: spec_u16_from_le_bytes(body.subrange(52, 54)),
                    sub_act: spec_u16_from_le_bytes(body.subrange(54, 56)),
                },
            )
        }
    } else if t == 3 {
        if body.len() < 29 + CAP_ANIM_SIZE {
            unhandled
        } else {
            match spec_read_str_field(body.subrange(29, 29 + CAP_ANIM_SIZE)) {
                Option::Some(cap_anim) => Option::Some(
                    PacketDataView::Cap {
                        pos: spec_read_vector3(body, 0),
                        rot: spec_read_quaternion(body, 12),
                        cap_out: body[28] != 0,
                        cap_anim: cap_anim,
                    },
                ),
                Option::None => Option::None,
            }
        }
    } else if t == 4 {
        if body.len() < 2 + STAGE_GAME_NAME_SIZE {
            unhandled
        } else {
            match spec_read_str_field(body.subrange(2, 2 + STAGE_GAME_NAME_SIZE)) {
                Option::Some(stage) => Option::Some(
                    PacketDataView::Game {
                        is_2d: body[0] != 0,
                        scenario_num: spec_byte_to_i8(body[1]),
                        stage: stage,
                    },
                ),
                Option::None => Option::None,
            }
        }
    } else if t == 5 {
        if body.len() < 1 {
            unhandled
        } else {
            let game_mode = spec_game_mode_from_u8((body[0] >> 4) & 0xf);
            let update_type = body[0] & 0xf;
            if spec_is_tag_packet(game_mode, update_type) {
                if body.len() < 5 {
                    unhandled
                } else {
                    Option::Some(
                        PacketDataView::Tag {
                            game_mode: game_mode,
                            update_type: spec_tag_update_from_u8(update_type),
                            is_it: body[1] != 0,
                            seconds: body[2],
                            minutes: spec_u16_from_le_bytes(body.subrange(3, 5)),
                        },
                    )
                }
            } else {
                Option::Some(
                    PacketDataView::GameMode {
                        game_mode: game_mode,
                        update_type: update_type,
                        data: body.skip(1),
                    },
                )
            }
        }
    } else if t == 6 {
        if body.len() < 6 + CLIENT_NAME_SIZE {
            unhandled
        } else {
            match spec_read_str_field(body.subrange(6, 6 + CLIENT_NAME_SIZE)) {
                Option::Some(client_name) => Option::Some(
                    PacketDataView::Connect {
                        c_type: if spec_u32_from_le_bytes(body.subrange(0, 4)) == 0 {
                            ConnectionType::FirstConnection
                        } else {
                            ConnectionType::Reconnecting
                        },
                        max_player: spec_u16_from_le_bytes(body.subrange(4, 6)),
                        client_name: client_name,
                    },
                ),
                Option::None => Option::None,
            }
        }
    } else if t == 7 {
        Option::Some(PacketDataView::Disconnect)
    } else if t == 8 {
        if body.len() < COSTUME_NAME_SIZE * 2 {
            unhandled
        } else {
            let body_name = spec_read_str_field(body.subrange(0, COSTUME_NAME_SIZE as int));
            let cap_name = spec_read_str_field(
                body.subrange(COSTUME_NAME_SIZE as int, (COSTUME_NAME_SIZE * 2) as int),
            );
            if body_name is Some && cap_name is Some {
                Option::Some(
                    PacketDataView::Costume(
                        CostumeView {
                            body_name: body_name.unwrap(),
                            cap_name: cap_name.unwrap(),
                        },
                    ),
                )
            } else {
                Option::None
            }
        }
    } else if t == 9 {
        if body.len() < 5 {
            unhandled
        } else {
            Option::Some(
                PacketDataView::Shine {
                    shine_id: spec_u32_to_i32(spec_u32_from_le_bytes(body.subrange(0, 4))),
                    is_grand: body[4] != 0,
                },
            )
        }
    } else if t == 10 {
        if body.len() < COSTUME_NAME_SIZE {
            unhandled
        } else {
            match spec_read_str_field(body.subrange(0, COSTUME_NAME_SIZE as int)) {
                Option::Some(model) => Option::Some(PacketDataView::Capture { model: model }),
                Option::None => Option::None,
            }
        }
    } else if t == 11 {
        if body.len() < STAGE_ID_SIZE + STAGE_CHANGE_NAME_SIZE + 2 {
            unhandled
        } else {
            let stage = spec_read_str_field(body.subrange(0, STAGE_CHANGE_NAME_SIZE as int));
            let id = spec_read_str_field(
                body.subrange(
                    STAGE_CHANGE_NAME_SIZE as int,
                    (STAGE_CHANGE_NAME_SIZE + STAGE_ID_SIZE) as int,
                ),
            );
            if stage is Some && id is Some {
                Option::Some(
                    PacketDataView::ChangeStage {
                        stage: stage.unwrap(),
                        id: id.unwrap(),
                        scenario: spec_byte_to_i8(body[64]),
                        sub_scenario: body[65],
                    },
                )
            } else {
                Option::None
            }
        }
    } else if t == 12 {
        Option::Some(PacketDataView::Command)
    } else if t == 13 {
        if body.len() < 2 {
            unhandled
        } else {
            Option::Some(
                PacketDataView::UdpInit { port: spec_u16_from_le_bytes(body.subrange(0, 2)) },
            )
        }
    } else if t == 14 {
        Option::Some(PacketDataView::HolePunch)
    } else {
        unhandled
    }
}

pub open spec fn spec_read_vector3(body: Seq<u8>, off: int) -> Vector3 {
    Vector3 {
        x: spec_u32_from_le_bytes(body.subrange(off, off + 4)),
        y: spec_u32_from_le_bytes(body.subrange(off + 4, off + 8)),
        z: spec_u32_from_le_bytes(body.subrange(off + 8, off + 12)),
    }
}

pub open spec fn spec_read_quaternion(body: Seq<u8>, off: int) -> Quaternion {
    Quaternion {
        x: spec_u32_from_le_bytes(body.subrange(off, off + 4)),
        y: spec_u32_from_le_bytes(body.subrange(off + 4, off + 8)),
        z: spec_u32_from_le_bytes(body.subrange(off + 8, off + 12)),
        w: spec_u32_from_le_bytes(body.subrange(off + 12, off + 16)),
    }
}

/// The four byte groups of a tunneled JSON API frame, each decoded as UTF-8
/// text and concatenated: the id bytes, the two type bytes, the two size
/// bytes, and everything after the header.
pub open spec fn spec_decode_json(b: Seq<u8>) -> Option<Seq<char>> {
    let g1 = b.subrange(0, 16);
    let g2 = b.subrange(16, 18);
    let g3 = b.subrange(18, 20);
    let g4 = b.skip(20);
    if valid_utf8(g1) && valid_utf8(g2) && valid_utf8(g3) && valid_utf8(g4) {
        Option::Some(decode_utf8(g1) + decode_utf8(g2) + decode_utf8(g3) + decode_utf8(g4))
    } else {
        Option::None
    }
}

/// Decode one frame from the front of `b`: the packet and the bytes consumed.
/// Fewer than a full header or a full payload is `NotEnoughData`.  A JSON API
/// frame consumes the whole buffer.
pub open spec fn spec_decode(b: Seq<u8>) -> Result<(PacketView, int), EncodingError> {
    if b.len() < HEADER_SIZE {
        Result::Err(EncodingError::NotEnoughData)
    } else {
        let id = spec_u128_from_le_bytes(b.subrange(0, 16));
        let t = spec_u16_from_le_bytes(b.subrange(16, 18));
        let size = spec_u16_from_le_bytes(b.subrange(18, 20));
        if t == JSON_API_TAG {
            match spec_decode_json(b) {
                Option::Some(json) => Result::Ok(
                    (
                        PacketView {
                            id: Guid { id: id },
                            data_size: (b.len() % 0x10000) as u16,
                            data: PacketDataView::JsonApi { json: json },
                        },
                        b.len() as int,
                    ),
                ),
                Option::None => Result::Err(EncodingError::BadUtf8),
            }
        } else if b.len() < HEADER_SIZE + size {
            Result::Err(EncodingError::NotEnoughData)
        } else {
            let body = b.subrange(HEADER_SIZE as int, HEADER_SIZE + size);
            match spec_decode_data(t, body) {
                Option::Some(d) => Result::Ok(
                    (
                        PacketView { id: Guid { id: id }, data_size: size, data: d },
                        HEADER_SIZE + size,
                    ),
                ),
                Option::None => Result::Err(EncodingError::BadUtf8),
            }
        }
    }
}

} // verus!

verus! {

impl Clone for Costume {
    /// Clones preserve the names.
    fn clone(&self) -> (res: Self)
        ensures
            res@ == self@,
    {
        Costume { body_name: self.body_name.clone(), cap_name: self.cap_name.clone() }
    }
}

impl Clone for PacketData {
    /// Clones preserve the payload.
    fn clone(&self) -> (res: Self)
        ensures
            res@ == self@,
    {
        match self {
            PacketData::Unhandled { tag, data } => PacketData::Unhandled {
                tag: *tag,
                data: vstd::slice::slice_to_vec(data.as_slice()),
            },
            PacketData::Init { max_players } => PacketData::Init { max_players: *max_players },
            PacketData::Player { pos, rot, animation_blend_weights, act, sub_act } => {
                PacketData::Player {
                    pos: *pos,
                    rot: *rot,
                    animation_blend_weights: *animation_blend_weights,
                    act: *act,
                    sub_act: *sub_act,
                }
            },
            PacketData::Cap { pos, rot, cap_out, cap_anim } => PacketData::Cap {
                pos: *pos,
                rot: *rot,
                cap_out: *cap_out,
                cap_anim: cap_anim.clone(),
            },
            PacketData::Game { is_2d, scenario_num, stage } => PacketData::Game {
                is_2d: *is_2d,
                scenario_num: *scenario_num,
                stage: stage.clone(),
            },
            PacketData::Tag { game_mode, update_type, is_it, seconds, minutes } => {
                PacketData::Tag {
                    game_mode: *game_mode,
                    update_type: *update_type,
                    is_it: *is_it,
                    seconds: *seconds,
                    minutes: *minutes,
                }
            },
            PacketData::GameMode { game_mode, update_type, data } => PacketData::GameMode {
                game_mode: *game_mode,
                update_type: *update_type,
                data: vstd::slice::slice_to_vec(data.as_slice()),
            },
            PacketData::Connect { c_type, max_player, client_name } => PacketData::Connect {
                c_type: *c_type,
                max_player: *max_player,
                client_name: client_name.clone(),
            },
            PacketData::Disconnect => PacketData::Disconnect,
            PacketData::Costume(c) => PacketData::Costume(c.clone()),
            PacketData::Shine { shine_id, is_grand } => PacketData::Shine {
                shine_id: *shine_id,
                is_grand: *is_grand,
            },
            PacketData::Capture { model } => PacketData::Capture { model: model.clone() },
            PacketData::ChangeStage { stage, id, scenario, sub_scenario } => {
                PacketData::ChangeStage {
                    stage: stage.clone(),
                    id: id.clone(),
                    scenario: *scenario,
                    sub_scenario: *sub_scenario,
                }
            },
            PacketData::Command => PacketData::Command,
            PacketData::UdpInit { port } => PacketData::UdpInit { port: *port },
            PacketData::HolePunch => PacketData::HolePunch,
            PacketData::JsonApi { json } => PacketData::JsonApi { json: json.clone() },
        }
    }
}

impl Clone for Packet {
    /// Clones preserve id, declared size and payload.
    fn clone(&self) -> (res: Self)
        ensures
            res@ == self@,
    {
        Packet { id: self.id, data_size: self.data_size, data: self.data.clone() }
    }
}

} // verus!
