//! The read-only status report of the JSON API: per-player fields selected by
//! the permissions a token carries.
//!
//! Serialising the report to JSON text is the API front end's business; this
//! builds the report from the lobby.

use vstd::prelude::*;

verus! {

use crate::guid::spec_guid_bytes_string;
use crate::lobby::{Lobby, PlayerEntry};
use crate::packet::{Costume, PacketDataView, Quaternion, Vector3};
use crate::player::PlayerData;
use crate::settings::IpAddress;
use crate::stages::spec_stage2kingdom;
use crate::stages::Stages;
use vstd::string::StringExecFns;
use vstd::utf8::encode_utf8;

/// One player's status, each field present only under its permission.
#[derive(Debug)]
pub struct JsonApiStatusPlayer {
    pub id: Option<String>,
    pub name: Option<String>,
    pub kingdom: Option<String>,
    pub stage: Option<String>,
    pub scenario: Option<i8>,
    pub position: Option<Vector3>,
    pub rotation: Option<Quaternion>,
    pub tagged: Option<bool>,
    pub costume: Option<Costume>,
    pub capture: Option<String>,
    pub is_2d: Option<bool>,
    pub ipv4: Option<IpAddress>,
}

/// A permission stands in the granted set.
pub open spec fn spec_has_perm(perms: Seq<String>, p: Seq<char>) -> bool {
    exists|j: int| 0 <= j < perms.len() && #[trigger] perms[j]@ == p
}

/// The stage of the player's last Game packet, empty names withheld.
pub open spec fn spec_cached_stage(d: PlayerData) -> Option<Seq<char>> {
    match d.last_game_packet {
        Option::Some(p) => match p@.data {
            PacketDataView::Game { stage, .. } => if stage.len() == 0 {
                Option::None
            } else {
                Option::Some(stage)
            },
            _ => Option::None,
        },
        Option::None => Option::None,
    }
}

/// The stage of the player's last Game packet, raw (for the kingdom lookup).
pub open spec fn spec_cached_stage_raw(d: PlayerData) -> Option<Seq<char>> {
    match d.last_game_packet {
        Option::Some(p) => match p@.data {
            PacketDataView::Game { stage, .. } => Option::Some(stage),
            _ => Option::None,
        },
        Option::None => Option::None,
    }
}

/// The scenario of the player's last Game packet, -1 withheld.
pub open spec fn spec_cached_scenario(d: PlayerData) -> Option<i8> {
    match d.last_game_packet {
        Option::Some(p) => match p@.data {
            PacketDataView::Game { scenario_num, .. } => if scenario_num == -1i8 {
                Option::None
            } else {
                Option::Some(scenario_num)
            },
            _ => Option::None,
        },
        Option::None => Option::None,
    }
}

/// The 2D flag of the player's last Game packet.
pub open spec fn spec_cached_is_2d(d: PlayerData) -> Option<bool> {
    match d.last_game_packet {
        Option::Some(p) => match p@.data {
            PacketDataView::Game { is_2d, .. } => Option::Some(is_2d),
            _ => Option::None,
        },
        Option::None => Option::None,
    }
}

/// The position of the player's last Player packet.
pub open spec fn spec_cached_position(d: PlayerData) -> Option<Vector3> {
    match d.last_player_packet {
        Option::Some(p) => match p@.data {
            PacketDataView::Player { pos, .. } => Option::Some(pos),
            _ => Option::None,
        },
        Option::None => Option::None,
    }
}

/// The rotation of the player's last Player packet.
pub open spec fn spec_cached_rotation(d: PlayerData) -> Option<Quaternion> {
    match d.last_player_packet {
        Option::Some(p) => match p@.data {
            PacketDataView::Player { rot, .. } => Option::Some(rot),
            _ => Option::None,
        },
        Option::None => Option::None,
    }
}

/// The costume names of the player's last Costume packet.
pub open spec fn spec_cached_costume(d: PlayerData) -> Option<(Seq<char>, Seq<char>)> {
    match d.last_costume_packet {
        Option::Some(p) => match p@.data {
            PacketDataView::Costume(c) => Option::Some((c.body_name, c.cap_name)),
            _ => Option::None,
        },
        Option::None => Option::None,
    }
}

/// The model of the player's last Capture packet.
pub open spec fn spec_cached_capture(d: PlayerData) -> Option<Seq<char>> {
    match d.last_capture_packet {
        Option::Some(p) => match p@.data {
            PacketDataView::Capture { model } => Option::Some(model),
            _ => Option::None,
        },
        Option::None => Option::None,
    }
}

/// The kingdom of the cached stage.
pub open spec fn spec_cached_kingdom(d: PlayerData) -> Option<Seq<char>> {
    match spec_cached_stage_raw(d) {
        Option::Some(s) => spec_stage2kingdom(s),
        Option::None => Option::None,
    }
}

/// One report entry matches one player under the granted permissions: each
/// field is present exactly when its permission is granted and the lobby
/// knows the value, and then carries that value.
pub open spec fn spec_status_entry(
    entry: PlayerEntry,
    st: JsonApiStatusPlayer,
    perms: Seq<String>,
) -> bool {
    &&& (match st.id {
        Option::Some(s) => spec_has_perm(perms, "Status/Players/ID"@) && encode_utf8(s@)
            == spec_guid_bytes_string(entry.guid.id),
        Option::None => !spec_has_perm(perms, "Status/Players/ID"@),
    })
    &&& (match st.name {
        Option::Some(s) => spec_has_perm(perms, "Status/Players/Name"@) && s@ == entry.data.name@,
        Option::None => !spec_has_perm(perms, "Status/Players/Name"@),
    })
    &&& (match st.kingdom {
        Option::Some(s) => spec_has_perm(perms, "Status/Players/Kingdom"@) && spec_cached_kingdom(
            entry.data,
        ) == Option::Some(s@),
        Option::None => !(spec_has_perm(perms, "Status/Players/Kingdom"@) && spec_cached_kingdom(
            entry.data,
        ) is Some),
    })
    &&& (match st.stage {
        Option::Some(s) => spec_has_perm(perms, "Status/Players/Stage"@) && spec_cached_stage(
            entry.data,
        ) == Option::Some(s@),
        Option::None => !(spec_has_perm(perms, "Status/Players/Stage"@) && spec_cached_stage(
            entry.data,
        ) is Some),
    })
    &&& st.scenario == (
    if spec_has_perm(perms, "Status/Players/Scenario"@) {
        spec_cached_scenario(entry.data)
    } else {
        Option::<i8>::None
    })
    &&& st.position == (
    if spec_has_perm(perms, "Status/Players/Position"@) {
        spec_cached_position(entry.data)
    } else {
        Option::<Vector3>::None
    })
    &&& st.rotation == (
    if spec_has_perm(perms, "Status/Players/Rotation"@) {
        spec_cached_rotation(entry.data)
    } else {
        Option::<Quaternion>::None
    })
    &&& st.tagged == (
    if spec_has_perm(perms, "Status/Players/Tagged"@) {
        entry.data.is_seeking
    } else {
        Option::<bool>::None
    })
    &&& (match st.costume {
        Option::Some(c) => spec_has_perm(perms, "Status/Players/Costume"@) && spec_cached_costume(
            entry.data,
        ) == Option::Some((c.body_name@, c.cap_name@)),
        Option::None => !(spec_has_perm(perms, "Status/Players/Costume"@) && spec_cached_costume(
            entry.data,
        ) is Some),
    })
    &&& (match st.capture {
        Option::Some(s) => spec_has_perm(perms, "Status/Players/Capture"@) && spec_cached_capture(
            entry.data,
        ) == Option::Some(s@),
        Option::None => !(spec_has_perm(perms, "Status/Players/Capture"@) && spec_cached_capture(
            entry.data,
        ) is Some),
    })
    &&& st.is_2d == (
    if spec_has_perm(perms, "Status/Players/Is2D"@) {
        spec_cached_is_2d(entry.data)
    } else {
        Option::<bool>::None
    })
    &&& st.ipv4 == (
    if spec_has_perm(perms, "Status/Players/IPv4"@) {
        entry.data.ipv4
    } else {
        Option::<IpAddress>::None
    })
}

impl JsonApiStatusPlayer {
    /// The per-player report for a token's permissions: nothing without the
    /// players permission, else one entry per player in lobby order, each
    /// field under its own permission.
    #[verifier::loop_isolation(false)]
    #[verifier::rlimit(100)]
    pub fn create(lobby: &Lobby, permissions: &Vec<String>) -> (r: Option<
        Vec<JsonApiStatusPlayer>,
    >)
        ensures
            r is Some <==> spec_has_perm(permissions@, "Status/Players"@),
            r matches Option::Some(v) ==> {
                &&& v@.len() == lobby.players@.len()
                &&& (forall|k: int|
                    0 <= k < v@.len() ==> spec_status_entry(
                        lobby.players@[k],
                        #[trigger] v@[k],
                        permissions@,
                    ))
            },
    {
        if !has_perm(permissions, "Status/Players") {
            return None;
        }
        let id_perm = has_perm(permissions, "Status/Players/ID");
        let name_perm = has_perm(permissions, "Status/Players/Name");
        let kingdom_perm = has_perm(permissions, "Status/Players/Kingdom");
        let stage_perm = has_perm(permissions, "Status/Players/Stage");
        let scenario_perm = has_perm(permissions, "Status/Players/Scenario");
        let costume_perm = has_perm(permissions, "Status/Players/Costume");
        let capture_perm = has_perm(permissions, "Status/Players/Capture");
        let position_perm = has_perm(permissions, "Status/Players/Position");
        let rotation_perm = has_perm(permissions, "Status/Players/Rotation");
        let is2d_perm = has_perm(permissions, "Status/Players/Is2D");
        let ipv4_perm = has_perm(permissions, "Status/Players/IPv4");
        let tagged_perm = has_perm(permissions, "Status/Players/Tagged");

        let mut out: Vec<JsonApiStatusPlayer> = Vec::new();
        let mut i: usize = 0;
        while i < lobby.players.len()
            invariant
                0 <= i <= lobby.players@.len(),
                out@.len() == i,
                forall|k: int|
                    0 <= k < i ==> spec_status_entry(
                        lobby.players@[k],
                        #[trigger] out@[k],
                        permissions@,
                    ),
            decreases lobby.players@.len() - i,
        {
            let entry = &lobby.players[i];
            let id = if id_perm {
                Some(entry.guid.to_hex_string())
            } else {
                None
            };
            let name = if name_perm {
                Some(entry.data.name.clone())
            } else {
                None
            };
            let kingdom = if kingdom_perm {
                match &entry.data.last_game_packet {
                    Some(p) => match &p.data {
                        crate::packet::PacketData::Game { stage, .. } => Stages::stage2kingdom(
                            stage.as_str(),
                        ),
                        _ => None,
                    },
                    None => None,
                }
            } else {
                None
            };
            let stage = if stage_perm {
                match &entry.data.last_game_packet {
                    Some(p) => match &p.data {
                        crate::packet::PacketData::Game { stage, .. } => {
                            if stage.as_str().unicode_len() == 0 {
                                None
                            } else {
                                Some(stage.clone())
                            }
                        },
                        _ => None,
                    },
                    None => None,
                }
            } else {
                None
            };
            let scenario = if scenario_perm {
                match &entry.data.last_game_packet {
                    Some(p) => match &p.data {
                        crate::packet::PacketData::Game { scenario_num, .. } => {
                            if *scenario_num == -1 {
                                None
                            } else {
                                Some(*scenario_num)
                            }
                        },
                        _ => None,
                    },
                    None => None,
                }
            } else {
                None
            };
            let position = if position_perm {
                match &entry.data.last_player_packet {
                    Some(p) => match &p.data {
                        crate::packet::PacketData::Player { pos, .. } => Some(*pos),
                        _ => None,
                    },
                    None => None,
                }
            } else {
                None
            };
            let rotation = if rotation_perm {
                match &entry.data.last_player_packet {
                    Some(p) => match &p.data {
                        crate::packet::PacketData::Player { rot, .. } => Some(*rot),
                        _ => None,
                    },
                    None => None,
                }
            } else {
                None
            };
            let tagged = if tagged_perm {
                entry.data.is_seeking
            } else {
                None
            };
            let costume = if costume_perm {
                match &entry.data.last_costume_packet {
                    Some(p) => match &p.data {
                        crate::packet::PacketData::Costume(c) => Some(c.clone()),
                        _ => None,
                    },
                    None => None,
                }
            } else {
                None
            };
            let capture = if capture_perm {
                match &entry.data.last_capture_packet {
                    Some(p) => match &p.data {
                        crate::packet::PacketData::Capture { model } => Some(model.clone()),
                        _ => None,
                    },
                    None => None,
                }
            } else {
                None
            };
            let is_2d = if is2d_perm {
                match &entry.data.last_game_packet {
                    Some(p) => match &p.data {
                        crate::packet::PacketData::Game { is_2d, .. } => Some(*is_2d),
                        _ => None,
                    },
                    None => None,
                }
            } else {
                None
            };
            let ipv4 = if ipv4_perm {
                entry.data.ipv4
            } else {
                None
            };
            let st = JsonApiStatusPlayer {
                id,
                name,
                kingdom,
                stage,
                scenario,
                position,
                rotation,
                tagged,
                costume,
                capture,
                is_2d,
                ipv4,
            };
            let ghost pre = out@;
            out.push(st);
            proof {
                assert(spec_status_entry(lobby.players@[i as int], out@[i as int], permissions@));
                assert forall|k: int|
                    0 <= k < i + 1 implies spec_status_entry(
                    lobby.players@[k],
                    #[trigger] out@[k],
                    permissions@,
                ) by {
                    if k < i {
                        assert(out@[k] == pre[k]);
                    }
                }
            }
            i = i + 1;
        }
        Some(out)
    }
}

/// Whether a permission is granted.
fn has_perm(perms: &Vec<String>, p: &str) -> (r: bool)
    ensures
        r == spec_has_perm(perms@, p@),
{
    crate::settings::strings_contain(perms, &String::from_str(p))
}

} // verus!
