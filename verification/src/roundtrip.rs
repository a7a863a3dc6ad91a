//! Round-trip laws of the wire codec.
//!
//! For every legal packet, decoding its encoding gives the packet back and
//! consumes exactly the frame; every strict prefix of such a frame is answered
//! with `NotEnoughData`; a kind-5 first byte dispatches between Tag and
//! GameMode exactly as its nibbles say; unknown tags are preserved.

use vstd::prelude::*;

verus! {

use crate::guid::Guid;
use crate::packet::{
    ConnectionType, EncodingError, GameMode, PacketDataView, PacketView, Quaternion, TagUpdate,
    Vector3, spec_bool_byte, spec_byte_to_i8, spec_data_size, spec_decode, spec_decode_data,
    spec_encode, spec_encode_data, spec_game_mode_from_u8, spec_game_mode_to_u8, spec_i32_to_u32,
    spec_i8_to_byte, spec_is_tag_packet, spec_quaternion_bytes, spec_read_quaternion,
    spec_read_vector3, spec_tag_update_from_u8, spec_tag_update_to_u8, spec_tag5_byte,
    spec_type_id, spec_u32_to_i32, spec_u32s_bytes, spec_vector3_bytes, CAP_ANIM_SIZE,
    CLIENT_NAME_SIZE, COSTUME_NAME_SIZE, HEADER_SIZE, JSON_API_TAG, STAGE_CHANGE_NAME_SIZE,
    STAGE_GAME_NAME_SIZE, STAGE_ID_SIZE,
};
use crate::wire::{
    lemma_pad_len, lemma_read_str_field_roundtrip, spec_read_str_field, spec_str_field,
};
use vstd::bytes::{
    lemma_auto_spec_u16_to_from_le_bytes, lemma_auto_spec_u32_to_from_le_bytes,
    lemma_auto_spec_u128_to_from_le_bytes, spec_u16_from_le_bytes, spec_u16_to_le_bytes,
    spec_u32_from_le_bytes, spec_u32_to_le_bytes, spec_u128_to_le_bytes,
};
use vstd::utf8::encode_utf8;

// ---------------------------------------------------------------------------
// Legality
// ---------------------------------------------------------------------------

/// A string that a field of `n` bytes carries faithfully: its UTF-8 bytes fit
/// the field and no NUL character ends it (that would be trimmed away with
/// the padding).
pub open spec fn legal_string(s: Seq<char>, n: int) -> bool {
    &&& encode_utf8(s).len() <= n
    &&& (s.len() > 0 ==> s[s.len() - 1] != '\0')
}

/// The wire tags with a known payload layout.
pub open spec fn spec_known_tag(t: u16) -> bool {
    1 <= t <= 14
}

/// A payload that the codec carries faithfully in both directions.
pub open spec fn legal_data(d: PacketDataView) -> bool {
    match d {
        PacketDataView::Unhandled { tag, data } => {
            &&& !spec_known_tag(tag)
            &&& tag != JSON_API_TAG
            &&& data.len() <= 0xffff
        },
        PacketDataView::Init { .. } => true,
        PacketDataView::Player { animation_blend_weights, .. } => {
            animation_blend_weights.len() == 6
        },
        PacketDataView::Cap { cap_anim, .. } => legal_string(cap_anim, CAP_ANIM_SIZE as int),
        PacketDataView::Game { stage, .. } => legal_string(stage, STAGE_GAME_NAME_SIZE as int),
        PacketDataView::Tag { game_mode, update_type, .. } => {
            ||| game_mode == GameMode::HideAndSeek
            ||| game_mode == GameMode::Sardines
            ||| (game_mode == GameMode::Legacy && update_type == TagUpdate::Both)
        },
        PacketDataView::GameMode { game_mode, update_type, data } => {
            &&& update_type <= 0xf
            &&& !spec_is_tag_packet(game_mode, update_type)
            &&& data.len() <= 0xfffe
        },
        PacketDataView::Connect { client_name, .. } => legal_string(
            client_name,
            CLIENT_NAME_SIZE as int,
        ),
        PacketDataView::Disconnect => true,
        PacketDataView::Costume(c) => {
            &&& legal_string(c.body_name, COSTUME_NAME_SIZE as int)
            &&& legal_string(c.cap_name, COSTUME_NAME_SIZE as int)
        },
        PacketDataView::Shine { .. } => true,
        PacketDataView::Capture { model } => legal_string(model, COSTUME_NAME_SIZE as int),
        PacketDataView::ChangeStage { stage, id, .. } => {
            &&& legal_string(stage, STAGE_CHANGE_NAME_SIZE as int)
            &&& legal_string(id, STAGE_ID_SIZE as int)
        },
        PacketDataView::Command => true,
        PacketDataView::UdpInit { .. } => true,
        PacketDataView::HolePunch => true,
        PacketDataView::JsonApi { .. } => false,
    }
}

/// A packet the codec carries faithfully: legal payload and a `data_size`
/// that matches it (what `resize` establishes).
pub open spec fn legal_packet(p: PacketView) -> bool {
    &&& legal_data(p.data)
    &&& p.data_size == spec_data_size(p.data)
}

// ---------------------------------------------------------------------------
// Length of an encoded payload
// ---------------------------------------------------------------------------

/// A legal payload encodes to exactly `spec_data_size` bytes.
pub proof fn lemma_encode_data_len(d: PacketDataView)
    requires
        legal_data(d),
    ensures
        spec_encode_data(d).len() == spec_data_size(d),
{
    lemma_auto_spec_u16_to_from_le_bytes();
    lemma_auto_spec_u32_to_from_le_bytes();
    match d {
        PacketDataView::Player { animation_blend_weights, .. } => {
            lemma_u32s_bytes_len(animation_blend_weights);
        },
        PacketDataView::Cap { cap_anim, .. } => {
            lemma_pad_len(encode_utf8(cap_anim), CAP_ANIM_SIZE as int);
        },
        PacketDataView::Game { stage, .. } => {
            lemma_pad_len(encode_utf8(stage), STAGE_GAME_NAME_SIZE as int);
        },
        PacketDataView::Connect { client_name, .. } => {
            lemma_pad_len(encode_utf8(client_name), CLIENT_NAME_SIZE as int);
        },
        PacketDataView::Costume(c) => {
            lemma_pad_len(encode_utf8(c.body_name), COSTUME_NAME_SIZE as int);
            lemma_pad_len(encode_utf8(c.cap_name), COSTUME_NAME_SIZE as int);
        },
        PacketDataView::Capture { model } => {
            lemma_pad_len(encode_utf8(model), COSTUME_NAME_SIZE as int);
        },
        PacketDataView::ChangeStage { stage, id, .. } => {
            lemma_pad_len(encode_utf8(stage), STAGE_CHANGE_NAME_SIZE as int);
            lemma_pad_len(encode_utf8(id), STAGE_ID_SIZE as int);
        },
        _ => {},
    }
}

/// Six 32-bit words flatten to 24 bytes; in general `4 * len`.
proof fn lemma_u32s_bytes_len(s: Seq<u32>)
    ensures
        spec_u32s_bytes(s).len() == 4 * s.len(),
    decreases s.len(),
{
    lemma_auto_spec_u32_to_from_le_bytes();
    if s.len() > 0 {
        lemma_u32s_bytes_len(s.drop_first());
    }
}

/// Six 32-bit words flatten to the concatenation of their byte forms.
proof fn lemma_u32s_bytes6(w: Seq<u32>)
    requires
        w.len() == 6,
    ensures
        spec_u32s_bytes(w) =~= spec_u32_to_le_bytes(w[0]) + spec_u32_to_le_bytes(w[1])
            + spec_u32_to_le_bytes(w[2]) + spec_u32_to_le_bytes(w[3]) + spec_u32_to_le_bytes(w[4])
            + spec_u32_to_le_bytes(w[5]),
{
    let w1 = w.drop_first();
    let w2 = w1.drop_first();
    let w3 = w2.drop_first();
    let w4 = w3.drop_first();
    let w5 = w4.drop_first();
    assert(w5.drop_first() =~= Seq::<u32>::empty());
    assert(spec_u32s_bytes(w5.drop_first()) =~= Seq::<u8>::empty());
    assert(w1[0] == w[1] && w2[0] == w[2] && w3[0] == w[3] && w4[0] == w[4] && w5[0] == w[5]);
    assert(spec_u32s_bytes(w5) =~= spec_u32_to_le_bytes(w[5]) + Seq::<u8>::empty());
    assert(spec_u32s_bytes(w4) =~= spec_u32_to_le_bytes(w[4]) + spec_u32s_bytes(w5));
    assert(spec_u32s_bytes(w3) =~= spec_u32_to_le_bytes(w[3]) + spec_u32s_bytes(w4));
    assert(spec_u32s_bytes(w2) =~= spec_u32_to_le_bytes(w[2]) + spec_u32s_bytes(w3));
    assert(spec_u32s_bytes(w1) =~= spec_u32_to_le_bytes(w[1]) + spec_u32s_bytes(w2));
    assert(spec_u32s_bytes(w) =~= spec_u32_to_le_bytes(w[0]) + spec_u32s_bytes(w1));
}

// ---------------------------------------------------------------------------
// Field round-trips
// ---------------------------------------------------------------------------

/// A payload that starts with a position and a rotation reads them back.
proof fn lemma_pose_roundtrip(body: Seq<u8>, pos: Vector3, rot: Quaternion, rest: Seq<u8>)
    requires
        body =~= spec_vector3_bytes(pos) + spec_quaternion_bytes(rot) + rest,
    ensures
        spec_read_vector3(body, 0) == pos,
        spec_read_quaternion(body, 12) == rot,
{
    lemma_auto_spec_u32_to_from_le_bytes();
    assert(spec_u32_to_le_bytes(pos.x).len() == 4);
    assert(spec_u32_to_le_bytes(pos.y).len() == 4);
    assert(spec_u32_to_le_bytes(pos.z).len() == 4);
    assert(spec_u32_to_le_bytes(rot.x).len() == 4);
    assert(spec_u32_to_le_bytes(rot.y).len() == 4);
    assert(spec_u32_to_le_bytes(rot.z).len() == 4);
    assert(spec_u32_to_le_bytes(rot.w).len() == 4);
    assert(body.subrange(0, 4) =~= spec_u32_to_le_bytes(pos.x));
    assert(body.subrange(4, 8) =~= spec_u32_to_le_bytes(pos.y));
    assert(body.subrange(8, 12) =~= spec_u32_to_le_bytes(pos.z));
    assert(body.subrange(12, 16) =~= spec_u32_to_le_bytes(rot.x));
    assert(body.subrange(16, 20) =~= spec_u32_to_le_bytes(rot.y));
    assert(body.subrange(20, 24) =~= spec_u32_to_le_bytes(rot.z));
    assert(body.subrange(24, 28) =~= spec_u32_to_le_bytes(rot.w));
}

/// Nibbles come back out of a packed kind-5 byte.
proof fn lemma_tag5_byte_split(g: u8, u: u8)
    requires
        g <= 15,
        u <= 15,
    ensures
        ((g << 4) | u) >> 4 & 0xf == g,
        ((g << 4) | u) & 0xf == u,
{
    assert(g <= 15 && u <= 15 ==> (((g << 4) | u) >> 4 & 0xf == g) && (((g << 4) | u) & 0xf
        == u)) by (bit_vector);
}

/// Any byte splits into nibbles that pack back to it.
proof fn lemma_byte_nibbles(b: u8)
    ensures
        (b >> 4) & 0xf <= 15,
        b & 0xf <= 15,
        (((b >> 4) & 0xf) << 4) | (b & 0xf) == b,
{
    assert(((b >> 4) & 0xf <= 15) && (b & 0xf <= 15) && ((((b >> 4) & 0xf) << 4) | (b & 0xf)
        == b)) by (bit_vector);
}

/// Every game-mode nibble comes back from its mode.
proof fn lemma_game_mode_nibble_roundtrip(x: u8)
    requires
        x <= 15,
    ensures
        spec_game_mode_to_u8(spec_game_mode_from_u8(x)) == x,
{
}

proof fn lemma_signed_byte_roundtrip(v: i8)
    ensures
        spec_byte_to_i8(spec_i8_to_byte(v)) == v,
{
}

proof fn lemma_signed_word_roundtrip(v: i32)
    ensures
        spec_u32_to_i32(spec_i32_to_u32(v)) == v,
{
}

// ---------------------------------------------------------------------------
// Payload round-trip
// ---------------------------------------------------------------------------

/// Decoding the encoding of a legal payload under its own tag gives it back.
pub proof fn lemma_decode_data_roundtrip(d: PacketDataView)
    requires
        legal_data(d),
    ensures
        spec_decode_data(spec_type_id(d), spec_encode_data(d)) == Option::Some(d),
{
    lemma_auto_spec_u16_to_from_le_bytes();
    lemma_auto_spec_u32_to_from_le_bytes();
    lemma_encode_data_len(d);
    let body = spec_encode_data(d);
    match d {
        PacketDataView::Unhandled { tag, data } => {
        },
        PacketDataView::Init { max_players } => {
            assert(body.subrange(0, 2) =~= spec_u16_to_le_bytes(max_players));
        },
        PacketDataView::Player { pos, rot, animation_blend_weights, act, sub_act } => {
            let w = animation_blend_weights;
            lemma_u32s_bytes_len(w);
            lemma_u32s_bytes6(w);
            lemma_pose_roundtrip(
                body,
                pos,
                rot,
                spec_u32s_bytes(w) + spec_u16_to_le_bytes(act) + spec_u16_to_le_bytes(sub_act),
            );
            assert(body.subrange(28, 32) =~= spec_u32_to_le_bytes(w[0]));
            assert(body.subrange(32, 36) =~= spec_u32_to_le_bytes(w[1]));
            assert(body.subrange(36, 40) =~= spec_u32_to_le_bytes(w[2]));
            assert(body.subrange(40, 44) =~= spec_u32_to_le_bytes(w[3]));
            assert(body.subrange(44, 48) =~= spec_u32_to_le_bytes(w[4]));
            assert(body.subrange(48, 52) =~= spec_u32_to_le_bytes(w[5]));
            assert(body.subrange(52, 54) =~= spec_u16_to_le_bytes(act));
            assert(body.subrange(54, 56) =~= spec_u16_to_le_bytes(sub_act));
            assert(seq![
                spec_u32_from_le_bytes(body.subrange(28, 32)),
                spec_u32_from_le_bytes(body.subrange(32, 36)),
                spec_u32_from_le_bytes(body.subrange(36, 40)),
                spec_u32_from_le_bytes(body.subrange(40, 44)),
                spec_u32_from_le_bytes(body.subrange(44, 48)),
                spec_u32_from_le_bytes(body.subrange(48, 52)),
            ] =~= w);
        },
        PacketDataView::Cap { pos, rot, cap_out, cap_anim } => {
            lemma_pad_len(encode_utf8(cap_anim), CAP_ANIM_SIZE as int);
            lemma_pose_roundtrip(
                body,
                pos,
                rot,
                seq![spec_bool_byte(cap_out)] + spec_str_field(cap_anim, CAP_ANIM_SIZE as int),
            );
            assert(body[28] == spec_bool_byte(cap_out));
            assert(body.subrange(29, 29 + CAP_ANIM_SIZE) =~= spec_str_field(
                cap_anim,
                CAP_ANIM_SIZE as int,
            ));
            lemma_read_str_field_roundtrip(cap_anim, CAP_ANIM_SIZE as int);
        },
        PacketDataView::Game { is_2d, scenario_num, stage } => {
            lemma_pad_len(encode_utf8(stage), STAGE_GAME_NAME_SIZE as int);
            assert(body[0] == spec_bool_byte(is_2d));
            assert(body[1] == spec_i8_to_byte(scenario_num));
            lemma_signed_byte_roundtrip(scenario_num);
            assert(body.subrange(2, 2 + STAGE_GAME_NAME_SIZE) =~= spec_str_field(
                stage,
                STAGE_GAME_NAME_SIZE as int,
            ));
            lemma_read_str_field_roundtrip(stage, STAGE_GAME_NAME_SIZE as int);
        },
        PacketDataView::Tag { game_mode, update_type, is_it, seconds, minutes } => {
            let g = spec_game_mode_to_u8(game_mode);
            let u = spec_tag_update_to_u8(update_type);
            lemma_tag5_byte_split(g, u);
            assert(body[0] == spec_tag5_byte(game_mode, u));
            assert(spec_game_mode_from_u8(g) == game_mode);
            assert(spec_tag_update_from_u8(u) == update_type);
            assert(body[1] == spec_bool_byte(is_it));
            assert(body[2] == seconds);
            assert(body.subrange(3, 5) =~= spec_u16_to_le_bytes(minutes));
        },
        PacketDataView::GameMode { game_mode, update_type, data } => {
            let g = spec_game_mode_to_u8(game_mode);
            lemma_tag5_byte_split(g, update_type);
            assert(body[0] == spec_tag5_byte(game_mode, update_type));
            assert(spec_game_mode_from_u8(g) == game_mode);
            assert(body.skip(1) =~= data);
        },
        PacketDataView::Connect { c_type, max_player, client_name } => {
            lemma_pad_len(encode_utf8(client_name), CLIENT_NAME_SIZE as int);
            let tag: u32 = if c_type == ConnectionType::FirstConnection {
                0
            } else {
                1
            };
            assert(body.subrange(0, 4) =~= spec_u32_to_le_bytes(tag));
            assert(body.subrange(4, 6) =~= spec_u16_to_le_bytes(max_player));
            assert(body.subrange(6, 6 + CLIENT_NAME_SIZE) =~= spec_str_field(
                client_name,
                CLIENT_NAME_SIZE as int,
            ));
            lemma_read_str_field_roundtrip(client_name, CLIENT_NAME_SIZE as int);
        },
        PacketDataView::Disconnect => {
        },
        PacketDataView::Costume(c) => {
            lemma_pad_len(encode_utf8(c.body_name), COSTUME_NAME_SIZE as int);
            lemma_pad_len(encode_utf8(c.cap_name), COSTUME_NAME_SIZE as int);
            assert(body.subrange(0, COSTUME_NAME_SIZE as int) =~= spec_str_field(
                c.body_name,
                COSTUME_NAME_SIZE as int,
            ));
            assert(body.subrange(COSTUME_NAME_SIZE as int, (COSTUME_NAME_SIZE * 2) as int)
                =~= spec_str_field(c.cap_name, COSTUME_NAME_SIZE as int));
            lemma_read_str_field_roundtrip(c.body_name, COSTUME_NAME_SIZE as int);
            lemma_read_str_field_roundtrip(c.cap_name, COSTUME_NAME_SIZE as int);
        },
        PacketDataView::Shine { shine_id, is_grand } => {
            assert(body.subrange(0, 4) =~= spec_u32_to_le_bytes(spec_i32_to_u32(shine_id)));
            lemma_signed_word_roundtrip(shine_id);
            assert(body[4] == spec_bool_byte(is_grand));
        },
        PacketDataView::Capture { model } => {
            lemma_pad_len(encode_utf8(model), COSTUME_NAME_SIZE as int);
            assert(body.subrange(0, COSTUME_NAME_SIZE as int) =~= spec_str_field(
                model,
                COSTUME_NAME_SIZE as int,
            ));
            lemma_read_str_field_roundtrip(model, COSTUME_NAME_SIZE as int);
        },
        PacketDataView::ChangeStage { stage, id, scenario, sub_scenario } => {
            lemma_pad_len(encode_utf8(stage), STAGE_CHANGE_NAME_SIZE as int);
            lemma_pad_len(encode_utf8(id), STAGE_ID_SIZE as int);
            assert(body.subrange(0, STAGE_CHANGE_NAME_SIZE as int) =~= spec_str_field(
                stage,
                STAGE_CHANGE_NAME_SIZE as int,
            ));
            assert(body.subrange(
                STAGE_CHANGE_NAME_SIZE as int,
                (STAGE_CHANGE_NAME_SIZE + STAGE_ID_SIZE) as int,
            ) =~= spec_str_field(id, STAGE_ID_SIZE as int));
            lemma_read_str_field_roundtrip(stage, STAGE_CHANGE_NAME_SIZE as int);
            lemma_read_str_field_roundtrip(id, STAGE_ID_SIZE as int);
            assert(body[64] == spec_i8_to_byte(scenario));
            lemma_signed_byte_roundtrip(scenario);
            assert(body[65] == sub_scenario);
        },
        PacketDataView::Command => {
        },
        PacketDataView::UdpInit { port } => {
            assert(body.subrange(0, 2) =~= spec_u16_to_le_bytes(port));
        },
        PacketDataView::HolePunch => {
        },
        PacketDataView::JsonApi { .. } => {
        },
    }
}

// ---------------------------------------------------------------------------
// Frame round-trip and framing laws
// ---------------------------------------------------------------------------

/// A legal payload's tag is never the JSON API tag.
proof fn lemma_legal_tag_not_json(d: PacketDataView)
    requires
        legal_data(d),
    ensures
        spec_type_id(d) != JSON_API_TAG,
{
}

/// Decoding the encoding of a legal packet gives the packet back and consumes
/// the whole frame.
pub proof fn theorem_encode_decode_roundtrip(p: PacketView)
    requires
        legal_packet(p),
    ensures
        spec_decode(spec_encode(p)) == Result::<(PacketView, int), EncodingError>::Ok(
            (p, HEADER_SIZE + spec_data_size(p.data)),
        ),
{
    lemma_auto_spec_u16_to_from_le_bytes();
    lemma_auto_spec_u128_to_from_le_bytes();
    lemma_encode_data_len(p.data);
    lemma_legal_tag_not_json(p.data);
    let b = spec_encode(p);
    let t = spec_type_id(p.data);
    let size = spec_data_size(p.data);
    assert(b.len() == HEADER_SIZE + size);
    assert(b.subrange(0, 16) =~= spec_u128_to_le_bytes(p.id.id));
    assert(b.subrange(16, 18) =~= spec_u16_to_le_bytes(t));
    assert(b.subrange(18, 20) =~= spec_u16_to_le_bytes(p.data_size));
    assert(b.subrange(HEADER_SIZE as int, HEADER_SIZE + size) =~= spec_encode_data(p.data));
    lemma_decode_data_roundtrip(p.data);
    assert(Guid { id: p.id.id } == p.id);
}

/// Every strict prefix of a legal frame is answered with `NotEnoughData`,
/// and the full frame decodes.
pub proof fn theorem_prefix_needs_more(p: PacketView, n: int)
    requires
        legal_packet(p),
        0 <= n < spec_encode(p).len(),
    ensures
        spec_decode(spec_encode(p).take(n)) == Result::<(PacketView, int), EncodingError>::Err(
            EncodingError::NotEnoughData,
        ),
        spec_decode(spec_encode(p)) is Ok,
{
    theorem_encode_decode_roundtrip(p);
    lemma_auto_spec_u16_to_from_le_bytes();
    lemma_auto_spec_u128_to_from_le_bytes();
    lemma_encode_data_len(p.data);
    lemma_legal_tag_not_json(p.data);
    let b = spec_encode(p);
    let pre = b.take(n);
    if n >= HEADER_SIZE {
        assert(pre.subrange(16, 18) =~= b.subrange(16, 18));
        assert(pre.subrange(18, 20) =~= b.subrange(18, 20));
        assert(b.subrange(16, 18) =~= spec_u16_to_le_bytes(spec_type_id(p.data)));
        assert(b.subrange(18, 20) =~= spec_u16_to_le_bytes(p.data_size));
        assert(pre.len() < HEADER_SIZE + p.data_size);
    }
}

/// A kind-5 payload dispatches on its first byte: the mode and update nibbles
/// decide between Tag and GameMode, and encoding the decoded form reproduces
/// the byte (for a Tag, when the update nibble is a known update kind).
pub proof fn theorem_kind5_dispatch(body: Seq<u8>)
    requires
        body.len() >= 5,
    ensures
        ({
            let gm = spec_game_mode_from_u8((body[0] >> 4) & 0xf);
            let ut = body[0] & 0xf;
            if spec_is_tag_packet(gm, ut) {
                &&& spec_decode_data(5, body) matches Option::Some(d)
                &&& d == (PacketDataView::Tag {
                    game_mode: gm,
                    update_type: spec_tag_update_from_u8(ut),
                    is_it: body[1] != 0,
                    seconds: body[2],
                    minutes: spec_u16_from_le_bytes(body.subrange(3, 5)),
                })
                &&& (ut <= 3 ==> spec_encode_data(d)[0] == body[0])
            } else {
                &&& spec_decode_data(5, body) matches Option::Some(d)
                &&& d == (PacketDataView::GameMode {
                    game_mode: gm,
                    update_type: ut,
                    data: body.skip(1),
                })
                &&& spec_encode_data(d) =~= body
            }
        }),
{
    let gm = spec_game_mode_from_u8((body[0] >> 4) & 0xf);
    let ut = body[0] & 0xf;
    lemma_byte_nibbles(body[0]);
    lemma_game_mode_nibble_roundtrip((body[0] >> 4) & 0xf);
    if spec_is_tag_packet(gm, ut) {
        if ut <= 3 {
            assert(spec_tag_update_to_u8(spec_tag_update_from_u8(ut)) == ut);
        }
    } else {
        let d = PacketDataView::GameMode { game_mode: gm, update_type: ut, data: body.skip(1) };
        assert(spec_encode_data(d) =~= seq![body[0]] + body.skip(1));
    }
}

/// A frame with an unknown type tag is preserved byte for byte as
/// `Unhandled`, and encodes back to the same payload.
pub proof fn theorem_unknown_tag_preserved(tag: u16, body: Seq<u8>)
    requires
        !spec_known_tag(tag),
        tag != JSON_API_TAG,
    ensures
        spec_decode_data(tag, body) == Option::Some(
            PacketDataView::Unhandled { tag: tag, data: body },
        ),
        spec_encode_data(PacketDataView::Unhandled { tag: tag, data: body }) == body,
{
}

} // verus!
