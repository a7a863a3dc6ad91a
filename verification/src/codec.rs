//! Executable wire codec: encoding and decoding of framed packets.
//!
//! `decode` and `encode` are proved to match the spec-level codec in
//! [`crate::packet`]; the round-trip laws live in [`crate::roundtrip`].

use vstd::prelude::*;

verus! {

use crate::guid::Guid;
use crate::packet::{
    Costume, ConnectionType, EncodingError, GameMode, Packet, PacketData, PacketDataView,
    PacketView, Quaternion, TagUpdate, Vector3, spec_byte_to_i8, spec_data_size, spec_decode,
    spec_decode_data, spec_encode, spec_game_mode_to_u8, spec_i32_to_u32, spec_i8_to_byte,
    spec_quaternion_bytes, spec_read_quaternion, spec_read_vector3, spec_tag5_byte, spec_type_id,
    spec_u32_to_i32, spec_u32s_bytes, spec_vector3_bytes, CAP_ANIM_SIZE, CLIENT_NAME_SIZE,
    COSTUME_NAME_SIZE, HEADER_SIZE, JSON_API_TAG, MAX_PACKET_SIZE, STAGE_CHANGE_NAME_SIZE,
    STAGE_GAME_NAME_SIZE, STAGE_ID_SIZE,
};
use crate::wire::{
    put_bytes, put_str_field, put_u128, put_u16, put_u32, read_bytes_vec, read_str_field,
    read_text, read_u128, read_u16, read_u32,
};
use vstd::bytes::{spec_u16_to_le_bytes, spec_u32_to_le_bytes};
use vstd::slice::slice_subrange;
use vstd::string::StringExecFns;

/// Payloads small enough for `data_size` (every payload a frame can carry).
pub open spec fn size_fits(d: PacketDataView) -> bool {
    spec_data_size(d) <= u16::MAX
}

impl PacketData {
    /// Encoded byte length of this payload.
    pub fn get_size(&self) -> (r: usize)
        requires
            spec_data_size(self@) <= usize::MAX,
        ensures
            r == spec_data_size(self@),
    {
        match self {
            PacketData::Unhandled { data, .. } => data.len(),
            PacketData::Init { .. } => 2,
            PacketData::Player { .. } => 0x38,
            PacketData::Cap { .. } => 29 + CAP_ANIM_SIZE,
            PacketData::Game { .. } => 2 + STAGE_GAME_NAME_SIZE,
            PacketData::Tag { .. } => 5,
            PacketData::GameMode { data, .. } => 1 + data.len(),
            PacketData::Connect { .. } => 6 + CLIENT_NAME_SIZE,
            PacketData::Disconnect => 0,
            PacketData::Costume { .. } => COSTUME_NAME_SIZE * 2,
            PacketData::Shine { .. } => 5,
            PacketData::Capture { .. } => COSTUME_NAME_SIZE,
            PacketData::ChangeStage { .. } => STAGE_ID_SIZE + STAGE_CHANGE_NAME_SIZE + 2,
            PacketData::Command => 0,
            PacketData::UdpInit { .. } => 2,
            PacketData::HolePunch => 0,
            PacketData::JsonApi { json } => json.as_str().len(),
        }
    }

    /// Wire type id of this payload.
    pub fn get_type_id(&self) -> (r: u16)
        ensures
            r == spec_type_id(self@),
    {
        match self {
            PacketData::Unhandled { tag, .. } => *tag,
            PacketData::Init { .. } => 1,
            PacketData::Player { .. } => 2,
            PacketData::Cap { .. } => 3,
            PacketData::Game { .. } => 4,
            PacketData::Tag { .. } => 5,
            PacketData::GameMode { .. } => 5,
            PacketData::Connect { .. } => 6,
            PacketData::Disconnect => 7,
            PacketData::Costume { .. } => 8,
            PacketData::Shine { .. } => 9,
            PacketData::Capture { .. } => 10,
            PacketData::ChangeStage { .. } => 11,
            PacketData::Command => 12,
            PacketData::UdpInit { .. } => 13,
            PacketData::HolePunch => 14,
            PacketData::JsonApi { .. } => JSON_API_TAG,
        }
    }

    /// A short lower-case name for the kind, for logs and status reports.
    pub fn get_type_name(&self) -> (r: String)
        ensures
            r@ == spec_type_name(self@),
    {
        let name: &str = match self {
            PacketData::Unhandled { .. } => "unhandled",
            PacketData::Init { .. } => "init",
            PacketData::Player { .. } => "player",
            PacketData::Cap { .. } => "cap",
            PacketData::Game { .. } => "game",
            PacketData::Tag { .. } => "tag",
            PacketData::GameMode { .. } => "gamemode",
            PacketData::Connect { .. } => "connect",
            PacketData::Disconnect => "disconnect",
            PacketData::Costume { .. } => "costume",
            PacketData::Shine { .. } => "shine",
            PacketData::Capture { .. } => "capture",
            PacketData::ChangeStage { .. } => "changeStage",
            PacketData::Command => "command",
            PacketData::UdpInit { .. } => "udpInit",
            PacketData::HolePunch => "holePunch",
            PacketData::JsonApi { .. } => "jsonApi",
        };
        String::from_str(name)
    }
}

/// The name `get_type_name` returns for each kind.
pub open spec fn spec_type_name(d: PacketDataView) -> Seq<char> {
    match d {
        PacketDataView::Unhandled { .. } => "unhandled"@,
        PacketDataView::Init { .. } => "init"@,
        PacketDataView::Player { .. } => "player"@,
        PacketDataView::Cap { .. } => "cap"@,
        PacketDataView::Game { .. } => "game"@,
        PacketDataView::Tag { .. } => "tag"@,
        PacketDataView::GameMode { .. } => "gamemode"@,
        PacketDataView::Connect { .. } => "connect"@,
        PacketDataView::Disconnect => "disconnect"@,
        PacketDataView::Costume { .. } => "costume"@,
        PacketDataView::Shine { .. } => "shine"@,
        PacketDataView::Capture { .. } => "capture"@,
        PacketDataView::ChangeStage { .. } => "changeStage"@,
        PacketDataView::Command => "command"@,
        PacketDataView::UdpInit { .. } => "udpInit"@,
        PacketDataView::HolePunch => "holePunch"@,
        PacketDataView::JsonApi { .. } => "jsonApi"@,
    }
}

/// A complete header whose declared payload size is over `MAX_PACKET_SIZE`
/// (JSON API frames excepted).
pub open spec fn spec_frame_oversized(b: Seq<u8>) -> bool {
    &&& b.len() >= HEADER_SIZE
    &&& vstd::bytes::spec_u16_from_le_bytes(b.subrange(16, 18)) != JSON_API_TAG
    &&& vstd::bytes::spec_u16_from_le_bytes(b.subrange(18, 20)) > MAX_PACKET_SIZE
}

impl Packet {
    /// A packet whose `data_size` is the encoded length of `data`.
    pub fn new(id: Guid, data: PacketData) -> (r: Packet)
        requires
            size_fits(data@),
        ensures
            r@ == (PacketView { id, data_size: spec_data_size(data@) as u16, data: data@ }),
    {
        let data_size = data.get_size() as u16;
        Packet { id, data_size, data }
    }

    /// Recompute `data_size` from the current payload; must be called after
    /// any mutation of `data` before the packet goes back on the wire.
    pub fn resize(&mut self)
        requires
            size_fits(old(self).data@),
        ensures
            final(self)@ == (PacketView {
                id: old(self).id,
                data_size: spec_data_size(old(self).data@) as u16,
                data: old(self).data@,
            }),
    {
        self.data_size = self.data.get_size() as u16;
    }

    /// How many bytes the frame at the front of `buf` spans: 0 for a tunneled
    /// JSON API frame (consume everything), `NotEnoughData` while the header
    /// or payload is incomplete.
    pub fn check(buf: &[u8]) -> (r: Result<u64, EncodingError>)
        ensures
            buf@.len() < HEADER_SIZE ==> r == Result::<u64, EncodingError>::Err(
                EncodingError::NotEnoughData,
            ),
            buf@.len() >= HEADER_SIZE ==> {
                let t = vstd::bytes::spec_u16_from_le_bytes(buf@.subrange(16, 18));
                let size = vstd::bytes::spec_u16_from_le_bytes(buf@.subrange(18, 20));
                if t == JSON_API_TAG {
                    r == Result::<u64, EncodingError>::Ok(0u64)
                } else if buf@.len() < HEADER_SIZE + size {
                    r == Result::<u64, EncodingError>::Err(EncodingError::NotEnoughData)
                } else {
                    r == Result::<u64, EncodingError>::Ok((HEADER_SIZE + size) as u64)
                }
            },
    {
        let total: usize = buf.len();
        if total < HEADER_SIZE {
            return Result::Err(EncodingError::NotEnoughData);
        }
        let t = read_u16(buf, 16);
        if t == JSON_API_TAG {
            return Result::Ok(0);
        }
        let size = read_u16(buf, 18) as usize;
        if total < HEADER_SIZE + size {
            return Result::Err(EncodingError::NotEnoughData);
        }
        Result::Ok((HEADER_SIZE + size) as u64)
    }

    /// Serialize the frame onto the end of `buf`.
    pub fn encode(&self, buf: &mut Vec<u8>) -> (r: Result<(), EncodingError>)
        ensures
            r is Ok,
            final(buf)@ =~= old(buf)@ + spec_encode(self@),
    {
        put_u128(buf, self.id.id);
        put_u16(buf, self.data.get_type_id());
        put_u16(buf, self.data_size);
        match &self.data {
            PacketData::Unhandled { data, .. } => {
                put_bytes(buf, data);
            },
            PacketData::Init { max_players } => {
                put_u16(buf, *max_players);
            },
            PacketData::Player { pos, rot, animation_blend_weights, act, sub_act } => {
                put_vector3(buf, pos);
                put_quaternion(buf, rot);
                put_weights(buf, animation_blend_weights);
                put_u16(buf, *act);
                put_u16(buf, *sub_act);
            },
            PacketData::Cap { pos, rot, cap_out, cap_anim } => {
                put_vector3(buf, pos);
                put_quaternion(buf, rot);
                buf.push(if *cap_out { 1 } else { 0 });
                put_str_field(buf, cap_anim.as_str(), CAP_ANIM_SIZE);
            },
            PacketData::Game { is_2d, scenario_num, stage } => {
                buf.push(if *is_2d { 1 } else { 0 });
                buf.push(i8_to_byte(*scenario_num));
                put_str_field(buf, stage.as_str(), STAGE_GAME_NAME_SIZE);
            },
            PacketData::Tag { game_mode, update_type, is_it, seconds, minutes } => {
                let ut: u8 = match update_type {
                    TagUpdate::Unknown => 0,
                    TagUpdate::Time => 1,
                    TagUpdate::State => 2,
                    TagUpdate::Both => 3,
                };
                buf.push(tag5_byte(*game_mode, ut));
                buf.push(if *is_it { 1 } else { 0 });
                buf.push(*seconds);
                put_u16(buf, *minutes);
            },
            PacketData::GameMode { game_mode, update_type, data } => {
                buf.push(tag5_byte(*game_mode, *update_type));
                put_bytes(buf, data);
            },
            PacketData::Connect { c_type, max_player, client_name } => {
                let tag: u32 = match c_type {
                    ConnectionType::FirstConnection => 0,
                    ConnectionType::Reconnecting => 1,
                };
                put_u32(buf, tag);
                put_u16(buf, *max_player);
                put_str_field(buf, client_name.as_str(), CLIENT_NAME_SIZE);
            },
            PacketData::Disconnect => {},
            PacketData::Costume(c) => {
                put_str_field(buf, c.body_name.as_str(), COSTUME_NAME_SIZE);
                put_str_field(buf, c.cap_name.as_str(), COSTUME_NAME_SIZE);
            },
            PacketData::Shine { shine_id, is_grand } => {
                put_u32(buf, i32_to_u32(*shine_id));
                buf.push(if *is_grand { 1 } else { 0 });
            },
            PacketData::Capture { model } => {
                put_str_field(buf, model.as_str(), COSTUME_NAME_SIZE);
            },
            PacketData::ChangeStage { stage, id, scenario, sub_scenario } => {
                put_str_field(buf, stage.as_str(), STAGE_CHANGE_NAME_SIZE);
                put_str_field(buf, id.as_str(), STAGE_ID_SIZE);
                buf.push(i8_to_byte(*scenario));
                buf.push(*sub_scenario);
            },
            PacketData::Command => {},
            PacketData::UdpInit { port } => {
                put_u16(buf, *port);
            },
            PacketData::HolePunch => {},
            PacketData::JsonApi { .. } => {},
        }
        Result::Ok(())
    }

    /// Decode one frame from the front of `buf`, returning the packet and the
    /// bytes consumed.
    pub fn decode(buf: &[u8]) -> (r: Result<(Packet, usize), EncodingError>)
        ensures
            match spec_decode(buf@) {
                Result::Ok((pv, n)) => r matches Result::Ok(p) && p.0@ == pv && p.1 == n,
                Result::Err(e) => r matches Result::Err(e2) && e2 == e,
            },
    {
        let total: usize = buf.len();
        if total < HEADER_SIZE {
            return Result::Err(EncodingError::NotEnoughData);
        }
        let id_num = read_u128(buf, 0);
        let t = read_u16(buf, 16);
        let size = read_u16(buf, 18);
        if t == JSON_API_TAG {
            let g1 = read_text(buf, 0, 16);
            let g2 = read_text(buf, 16, 2);
            let g3 = read_text(buf, 18, 2);
            let g4 = read_text(buf, 20, total - 20);
            proof {
                assert(buf@.subrange(20, buf@.len() as int) =~= buf@.skip(20));
            }
            match (g1, g2, g3, g4) {
                (Some(g1), Some(g2), Some(g3), Some(g4)) => {
                    let mut json = g1;
                    json.append(g2.as_str());
                    json.append(g3.as_str());
                    json.append(g4.as_str());
                    let p = Packet {
                        id: Guid { id: id_num },
                        data_size: (total % 0x10000) as u16,
                        data: PacketData::JsonApi { json },
                    };
                    Result::Ok((p, total))
                },
                _ => Result::Err(EncodingError::BadUtf8),
            }
        } else {
            let size_us = size as usize;
            if total < HEADER_SIZE + size_us {
                return Result::Err(EncodingError::NotEnoughData);
            }
            let body = slice_subrange(buf, HEADER_SIZE, HEADER_SIZE + size_us);
            match decode_data(t, body) {
                Result::Ok(data) => {
                    let p = Packet { id: Guid { id: id_num }, data_size: size, data };
                    Result::Ok((p, HEADER_SIZE + size_us))
                },
                Result::Err(e) => Result::Err(e),
            }
        }
    }

    /// Decode one frame, refusing a declared payload size above
    /// `MAX_PACKET_SIZE` as malformed (a JSON API frame has no such limit).
    pub fn extract(buf: &[u8]) -> (r: Result<(Packet, usize), EncodingError>)
        ensures
            spec_frame_oversized(buf@) ==> r == Result::<(Packet, usize), EncodingError>::Err(
                EncodingError::CustomError,
            ),
            !spec_frame_oversized(buf@) ==> match spec_decode(buf@) {
                Result::Ok((pv, n)) => (r matches Result::Ok(p) && p.0@ == pv && p.1 == n),
                Result::Err(e) => (r matches Result::Err(e2) && e2 == e),
            },
    {
        let total: usize = buf.len();
        if total >= HEADER_SIZE {
            let t = read_u16(buf, 16);
            let size = read_u16(buf, 18);
            if t != JSON_API_TAG && size as usize > MAX_PACKET_SIZE {
                return Result::Err(EncodingError::CustomError);
            }
        }
        Packet::decode(buf)
    }
}

// ---------------------------------------------------------------------------
// Payload decoding
// ---------------------------------------------------------------------------

/// Decode a known-kind payload from exactly the declared bytes.
fn decode_data(t: u16, body: &[u8]) -> (r: Result<PacketData, EncodingError>)
    ensures
        match spec_decode_data(t, body@) {
            Option::Some(d) => r matches Result::Ok(pd) && pd@ == d,
            Option::None => r matches Result::Err(e) && e == EncodingError::BadUtf8,
        },
{
    let n: usize = body.len();
    if t == 1 {
        if n < 2 {
            return Result::Ok(unhandled(t, body));
        }
        Result::Ok(PacketData::Init { max_players: read_u16(body, 0) })
    } else if t == 2 {
        if n < 0x38 {
            return Result::Ok(unhandled(t, body));
        }
        let weights: [u32; 6] = [
            read_u32(body, 28),
            read_u32(body, 32),
            read_u32(body, 36),
            read_u32(body, 40),
            read_u32(body, 44),
            read_u32(body, 48),
        ];
        Result::Ok(
            PacketData::Player {
                pos: read_vector3(body, 0),
                rot: read_quaternion(body, 12),
                animation_blend_weights: weights,
                act: read_u16(body, 52),
                sub_act: read_u16(body, 54),
            },
        )
    } else if t == 3 {
        if n < 29 + CAP_ANIM_SIZE {
            return Result::Ok(unhandled(t, body));
        }
        match read_str_field(body, 29, CAP_ANIM_SIZE) {
            Some(cap_anim) => Result::Ok(
                PacketData::Cap {
                    pos: read_vector3(body, 0),
                    rot: read_quaternion(body, 12),
                    cap_out: *vstd::slice::slice_index_get(body, 28) != 0,
                    cap_anim,
                },
            ),
            None => Result::Err(EncodingError::BadUtf8),
        }
    } else if t == 4 {
        if n < 2 + STAGE_GAME_NAME_SIZE {
            return Result::Ok(unhandled(t, body));
        }
        match read_str_field(body, 2, STAGE_GAME_NAME_SIZE) {
            Some(stage) => Result::Ok(
                PacketData::Game {
                    is_2d: *vstd::slice::slice_index_get(body, 0) != 0,
                    scenario_num: byte_to_i8(*vstd::slice::slice_index_get(body, 1)),
                    stage,
                },
            ),
            None => Result::Err(EncodingError::BadUtf8),
        }
    } else if t == 5 {
        if n < 1 {
            return Result::Ok(unhandled(t, body));
        }
        let both: u8 = *vstd::slice::slice_index_get(body, 0);
        let game_mode = GameMode::from_u8((both >> 4) & 0xf);
        let update_type: u8 = both & 0xf;
        let is_tag = match game_mode {
            GameMode::HideAndSeek => true,
            GameMode::Sardines => true,
            GameMode::Legacy => update_type == 3,
            _ => false,
        };
        if is_tag {
            if n < 5 {
                return Result::Ok(unhandled(t, body));
            }
            Result::Ok(
                PacketData::Tag {
                    game_mode,
                    update_type: match update_type {
                        1 => TagUpdate::Time,
                        2 => TagUpdate::State,
                        3 => TagUpdate::Both,
                        _ => TagUpdate::Unknown,
                    },
                    is_it: *vstd::slice::slice_index_get(body, 1) != 0,
                    seconds: *vstd::slice::slice_index_get(body, 2),
                    minutes: read_u16(body, 3),
                },
            )
        } else {
            let data = read_bytes_vec(body, 1, n - 1);
            proof {
                assert(body@.subrange(1, body@.len() as int) =~= body@.skip(1));
            }
            Result::Ok(PacketData::GameMode { game_mode, update_type, data })
        }
    } else if t == 6 {
        if n < 6 + CLIENT_NAME_SIZE {
            return Result::Ok(unhandled(t, body));
        }
        match read_str_field(body, 6, CLIENT_NAME_SIZE) {
            Some(client_name) => Result::Ok(
                PacketData::Connect {
                    c_type: if read_u32(body, 0) == 0 {
                        ConnectionType::FirstConnection
                    } else {
                        ConnectionType::Reconnecting
                    },
                    max_player: read_u16(body, 4),
                    client_name,
                },
            ),
            None => Result::Err(EncodingError::BadUtf8),
        }
    } else if t == 7 {
        Result::Ok(PacketData::Disconnect)
    } else if t == 8 {
        if n < COSTUME_NAME_SIZE * 2 {
            return Result::Ok(unhandled(t, body));
        }
        let body_name = read_str_field(body, 0, COSTUME_NAME_SIZE);
        let cap_name = read_str_field(body, COSTUME_NAME_SIZE, COSTUME_NAME_SIZE);
        match (body_name, cap_name) {
            (Some(body_name), Some(cap_name)) => Result::Ok(
                PacketData::Costume(Costume { body_name, cap_name }),
            ),
            _ => Result::Err(EncodingError::BadUtf8),
        }
    } else if t == 9 {
        if n < 5 {
            return Result::Ok(unhandled(t, body));
        }
        Result::Ok(
            PacketData::Shine {
                shine_id: u32_to_i32(read_u32(body, 0)),
                is_grand: *vstd::slice::slice_index_get(body, 4) != 0,
            },
        )
    } else if t == 10 {
        if n < COSTUME_NAME_SIZE {
            return Result::Ok(unhandled(t, body));
        }
        match read_str_field(body, 0, COSTUME_NAME_SIZE) {
            Some(model) => Result::Ok(PacketData::Capture { model }),
            None => Result::Err(EncodingError::BadUtf8),
        }
    } else if t == 11 {
        if n < STAGE_ID_SIZE + STAGE_CHANGE_NAME_SIZE + 2 {
            return Result::Ok(unhandled(t, body));
        }
        let stage = read_str_field(body, 0, STAGE_CHANGE_NAME_SIZE);
        let id = read_str_field(body, STAGE_CHANGE_NAME_SIZE, STAGE_ID_SIZE);
        match (stage, id) {
            (Some(stage), Some(id)) => Result::Ok(
                PacketData::ChangeStage {
                    stage,
                    id,
                    scenario: byte_to_i8(*vstd::slice::slice_index_get(body, 64)),
                    sub_scenario: *vstd::slice::slice_index_get(body, 65),
                },
            ),
            _ => Result::Err(EncodingError::BadUtf8),
        }
    } else if t == 12 {
        Result::Ok(PacketData::Command)
    } else if t == 13 {
        if n < 2 {
            return Result::Ok(unhandled(t, body));
        }
        Result::Ok(PacketData::UdpInit { port: read_u16(body, 0) })
    } else if t == 14 {
        Result::Ok(PacketData::HolePunch)
    } else {
        Result::Ok(unhandled(t, body))
    }
}

/// The whole payload preserved under an unknown or undersized tag.
fn unhandled(t: u16, body: &[u8]) -> (r: PacketData)
    ensures
        r@ == (PacketDataView::Unhandled { tag: t, data: body@ }),
{
    let n: usize = body.len();
    let data = read_bytes_vec(body, 0, n);
    proof {
        assert(body@.subrange(0, body@.len() as int) =~= body@);
    }
    PacketData::Unhandled { tag: t, data }
}

fn read_vector3(body: &[u8], off: usize) -> (r: Vector3)
    requires
        off + 12 <= body@.len(),
    ensures
        r == spec_read_vector3(body@, off as int),
{
    let total: usize = body.len();
    Vector3 { x: read_u32(body, off), y: read_u32(body, off + 4), z: read_u32(body, off + 8) }
}

fn read_quaternion(body: &[u8], off: usize) -> (r: Quaternion)
    requires
        off + 16 <= body@.len(),
    ensures
        r == spec_read_quaternion(body@, off as int),
{
    let total: usize = body.len();
    Quaternion {
        x: read_u32(body, off),
        y: read_u32(body, off + 4),
        z: read_u32(body, off + 8),
        w: read_u32(body, off + 12),
    }
}

// ---------------------------------------------------------------------------
// Small byte conversions
// ---------------------------------------------------------------------------

/// The two's-complement reading of a byte.
pub fn byte_to_i8(b: u8) -> (r: i8)
    ensures
        r == spec_byte_to_i8(b),
{
    if b <= 127 {
        b as i8
    } else {
        ((b as i16) - 256) as i8
    }
}

/// The byte of a signed value, two's complement.
pub fn i8_to_byte(v: i8) -> (r: u8)
    ensures
        r == spec_i8_to_byte(v),
{
    if v >= 0 {
        v as u8
    } else {
        ((v as i16) + 256) as u8
    }
}

/// The two's-complement reading of a 32-bit word.
pub fn u32_to_i32(x: u32) -> (r: i32)
    ensures
        r == spec_u32_to_i32(x),
{
    if x <= 0x7fffffff {
        x as i32
    } else {
        ((x as i64) - 0x100000000) as i32
    }
}

/// The 32-bit word of a signed value, two's complement.
pub fn i32_to_u32(v: i32) -> (r: u32)
    ensures
        r == spec_i32_to_u32(v),
{
    if v >= 0 {
        v as u32
    } else {
        ((v as i64) + 0x100000000) as u32
    }
}

/// The first byte of a kind-5 payload.
fn tag5_byte(game_mode: GameMode, update_type: u8) -> (r: u8)
    ensures
        r == spec_tag5_byte(game_mode, update_type),
{
    let g = GameMode::to_u8(game_mode);
    proof {
        assert(spec_game_mode_to_u8(game_mode) <= 15);
    }
    (g << 4) | update_type
}

// ---------------------------------------------------------------------------
// Composite writes
// ---------------------------------------------------------------------------

fn put_vector3(buf: &mut Vec<u8>, v: &Vector3)
    ensures
        final(buf)@ =~= old(buf)@ + spec_vector3_bytes(*v),
{
    put_u32(buf, v.x);
    put_u32(buf, v.y);
    put_u32(buf, v.z);
}

fn put_quaternion(buf: &mut Vec<u8>, q: &Quaternion)
    ensures
        final(buf)@ =~= old(buf)@ + spec_quaternion_bytes(*q),
{
    put_u32(buf, q.x);
    put_u32(buf, q.y);
    put_u32(buf, q.z);
    put_u32(buf, q.w);
}

/// `spec_u32s_bytes` grows one word at a time.
proof fn lemma_u32s_bytes_snoc(s: Seq<u32>, i: int)
    requires
        0 <= i < s.len(),
    ensures
        spec_u32s_bytes(s.take(i + 1)) =~= spec_u32s_bytes(s.take(i)) + spec_u32_to_le_bytes(s[i]),
    decreases i,
{
    if i == 0 {
        assert(s.take(1).drop_first() =~= Seq::<u32>::empty());
        assert(s.take(0) =~= Seq::<u32>::empty());
    } else {
        lemma_u32s_bytes_snoc(s.drop_first(), i - 1);
        assert(s.take(i + 1).drop_first() =~= s.drop_first().take(i));
        assert(s.take(i).drop_first() =~= s.drop_first().take(i - 1));
        assert(s.drop_first()[i - 1] == s[i]);
    }
}

fn put_weights(buf: &mut Vec<u8>, w: &[u32; 6])
    ensures
        final(buf)@ =~= old(buf)@ + spec_u32s_bytes(w@),
{
    let mut i: usize = 0;
    while i < 6
        invariant
            0 <= i <= 6,
            w@.len() == 6,
            buf@ =~= old(buf)@ + spec_u32s_bytes(w@.take(i as int)),
        decreases 6 - i,
    {
        put_u32(buf, w[i]);
        proof {
            lemma_u32s_bytes_snoc(w@, i as int);
        }
        i = i + 1;
    }
    proof {
        assert(w@.take(6) =~= w@);
    }
}

} // verus!
