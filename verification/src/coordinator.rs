//! The coordinator: the single serialisation point for lobby mutations.
//!
//! Each entry point takes one command off the queue, mutates the lobby, and
//! returns the actions the surrounding task performs: broadcasts, per-client
//! sends, delayed crashes and re-syncs, and shine-set persistence.

use vstd::prelude::*;

verus! {

use crate::cmds::{ClientCommand, ClientCommandView, CommandError, ExternalCommand,
    PlayerCommand, Players, ShineCommand};
use crate::guid::Guid;
use crate::lobby::{Lobby, PlayerEntry, shine_set_insert};
use crate::packet::{ConnectionType, GameMode, Packet, PacketData, PacketDataView, PacketView,
    TagUpdate};
use crate::persist::{shine_json, spec_json_int_array};
use crate::player::{PlayerData, spec_synthetic_tag};
use crate::settings::{guids_contain, i32s_contain, strings_contain};
use vstd::string::StringExecFns;

broadcast use vstd::seq_lib::group_seq_properties, Seq::lemma_push_map_commute;

// ---------------------------------------------------------------------------
// Actions
// ---------------------------------------------------------------------------

/// What the coordinator asks its surrounding task to do.
#[derive(Debug)]
pub enum Action {
    /// Publish on the broadcast bus.
    Broadcast(ClientCommand),
    /// Put on one client's own queue.
    SendTo(Guid, ClientCommand),
    /// After 500 ms, post a Crash command for this player.
    ScheduleCrash(Guid),
    /// After about 2 s, call [`finish_shine_resync`] for this player.
    ScheduleShineResync(Guid),
    /// Write this JSON snapshot of the shine set to the named file,
    /// best-effort.
    PersistShines { filename: String, json: String },
}

/// Spec-level action.
#[verifier::ext_equal]
pub enum ActionView {
    Broadcast(ClientCommandView),
    SendTo(Guid, ClientCommandView),
    ScheduleCrash(Guid),
    ScheduleShineResync(Guid),
    PersistShines { filename: Seq<char>, json: Seq<char> },
}

impl View for Action {
    type V = ActionView;

    open spec fn view(&self) -> ActionView {
        match self {
            Action::Broadcast(c) => ActionView::Broadcast(c@),
            Action::SendTo(g, c) => ActionView::SendTo(*g, c@),
            Action::ScheduleCrash(g) => ActionView::ScheduleCrash(*g),
            Action::ScheduleShineResync(g) => ActionView::ScheduleShineResync(*g),
            Action::PersistShines { filename, json } => ActionView::PersistShines {
                filename: filename@,
                json: json@,
            },
        }
    }
}

/// The spec-level shapes of a list of actions.
pub open spec fn views(s: Seq<Action>) -> Seq<ActionView> {
    s.map_values(|a: Action| a@)
}

// ---------------------------------------------------------------------------
// Shine synchronisation (§ shine sync)
// ---------------------------------------------------------------------------

/// A `Shine{id, is_grand: false}` packet from `sender`.
pub open spec fn spec_shine_packet(sender: Guid, id: i32) -> PacketView {
    PacketView {
        id: sender,
        data_size: 5u16,
        data: PacketDataView::Shine { shine_id: id, is_grand: false },
    }
}

/// The shine ids to push to a player: those of `shines` that stand neither in
/// the player's own set nor among the excluded ids, in `shines` order.
pub open spec fn spec_shine_diff(shines: Seq<i32>, own: Seq<i32>, excluded: Seq<i32>) -> Seq<i32>
    decreases shines.len(),
{
    if shines.len() == 0 {
        Seq::empty()
    } else {
        let rest = spec_shine_diff(shines.drop_last(), own, excluded);
        if !own.contains(shines.last()) && !excluded.contains(shines.last()) {
            rest.push(shines.last())
        } else {
            rest
        }
    }
}

/// The diff is exactly the set difference, with as many entries as that set
/// has elements.
pub proof fn lemma_shine_diff(shines: Seq<i32>, own: Seq<i32>, excluded: Seq<i32>)
    requires
        shines.no_duplicates(),
    ensures
        spec_shine_diff(shines, own, excluded).no_duplicates(),
        spec_shine_diff(shines, own, excluded).to_set() =~= shines.to_set().difference(
            own.to_set().union(excluded.to_set()),
        ),
        spec_shine_diff(shines, own, excluded).len() == shines.to_set().difference(
            own.to_set().union(excluded.to_set()),
        ).len(),
    decreases shines.len(),
{
    broadcast use vstd::seq_lib::group_seq_properties;

    let diff = spec_shine_diff(shines, own, excluded);
    if shines.len() == 0 {
        assert(diff.to_set() =~= Set::<i32>::empty());
        assert(shines.to_set() =~= Set::<i32>::empty());
        assert(shines.to_set().difference(own.to_set().union(excluded.to_set()))
            =~= Set::<i32>::empty());
        vstd::set_lib::lemma_set_empty_equivalency_len(
            shines.to_set().difference(own.to_set().union(excluded.to_set())),
        );
    } else {
        let pre = shines.drop_last();
        let x = shines.last();
        lemma_shine_diff(pre, own, excluded);
        let rest = spec_shine_diff(pre, own, excluded);
        assert(forall|y: i32| pre.contains(y) ==> shines.contains(y)) by {
            assert forall|y: i32| pre.contains(y) implies shines.contains(y) by {
                let k = choose|k: int| 0 <= k < pre.len() && pre[k] == y;
                assert(shines[k] == y);
            }
        }
        assert(!pre.contains(x));
        assert(!rest.to_set().contains(x));
        assert(!rest.contains(x));
        assert(shines.to_set() =~= pre.to_set().insert(x)) by {
            assert(pre.push(x) =~= shines);
            pre.lemma_push_to_set_commute(x);
        }
        let big = own.to_set().union(excluded.to_set());
        if !own.contains(x) && !excluded.contains(x) {
            assert(diff == rest.push(x));
            rest.lemma_push_to_set_commute(x);
            assert(diff.to_set() =~= shines.to_set().difference(big));
            assert(diff.to_set() =~= rest.to_set().insert(x));
            assert(diff.no_duplicates());
            diff.unique_seq_to_set();
            rest.unique_seq_to_set();
        } else {
            assert(diff == rest);
            assert(diff.to_set() =~= shines.to_set().difference(big));
            diff.unique_seq_to_set();
        }
    }
}

/// The self-addressed shine sends one player receives during a sync: one per
/// id the server has that the player lacks (beyond the excluded ones), or
/// nothing while the player's shine sync is disabled.
pub open spec fn spec_player_sync(
    entry: PlayerEntry,
    sender: Guid,
    shines: Seq<i32>,
    excluded: Seq<i32>,
) -> Seq<ActionView> {
    if entry.data.disable_shine_sync {
        Seq::empty()
    } else {
        spec_shine_diff(shines, entry.data.shine_sync@, excluded).map_values(
            |id: i32|
                ActionView::SendTo(
                    entry.guid,
                    ClientCommandView::SelfAddressed(spec_shine_packet(sender, id)),
                ),
        )
    }
}

/// One sync pass over all players, in lobby order.
pub open spec fn spec_sync_all(
    players: Seq<PlayerEntry>,
    shines: Seq<i32>,
    excluded: Seq<i32>,
) -> Seq<ActionView>
    decreases players.len(),
{
    if players.len() == 0 {
        Seq::empty()
    } else {
        spec_sync_all(players.drop_last(), shines, excluded) + spec_player_sync(
            players.last(),
            Guid { id: 0 },
            shines,
            excluded,
        )
    }
}

/// What `sync_all_shines` produces for a lobby: nothing while shine sync is
/// off, else one pass over all players.
pub open spec fn spec_sync_views(lobby: Lobby) -> Seq<ActionView> {
    if lobby.settings.shines.enabled {
        spec_sync_all(lobby.players@, lobby.shines@, lobby.settings.shines.excluded@)
    } else {
        Seq::empty()
    }
}

/// Push the server's shine diff to every eligible player.
#[verifier::loop_isolation(false)]
pub fn sync_all_shines(lobby: &Lobby) -> (r: Vec<Action>)
    ensures
        views(r@) == spec_sync_views(*lobby),
{
    let mut out: Vec<Action> = Vec::new();
    proof {
        assert(views(out@) =~= Seq::<ActionView>::empty());
    }
    if !lobby.settings.shines.enabled {
        return out;
    }
    let server_guid = Guid::server();
    let mut i: usize = 0;
    while i < lobby.players.len()
        invariant
            0 <= i <= lobby.players@.len(),
            views(out@) == spec_sync_all(
                lobby.players@.take(i as int),
                lobby.shines@,
                lobby.settings.shines.excluded@,
            ),
        decreases lobby.players@.len() - i,
    {
        proof {
            assert(lobby.players@.take(i + 1).drop_last() =~= lobby.players@.take(i as int));
            assert(lobby.players@.take(i + 1).last() == lobby.players@[i as int]);
        }
        if !lobby.players[i].data.disable_shine_sync {
            let ghost entry = lobby.players@[i as int];
            let own = &lobby.players[i].data.shine_sync;
            let guid = lobby.players[i].guid;
            let mut j: usize = 0;
            while j < lobby.shines.len()
                invariant
                    0 <= j <= lobby.shines@.len(),
                    views(out@) == spec_sync_all(
                        lobby.players@.take(i as int),
                        lobby.shines@,
                        lobby.settings.shines.excluded@,
                    ) + spec_shine_diff(
                        lobby.shines@.take(j as int),
                        entry.data.shine_sync@,
                        lobby.settings.shines.excluded@,
                    ).map_values(
                        |id: i32|
                            ActionView::SendTo(
                                entry.guid,
                                ClientCommandView::SelfAddressed(
                                    spec_shine_packet(Guid { id: 0 }, id),
                                ),
                            ),
                    ),
                decreases lobby.shines@.len() - j,
            {
                proof {
                    assert(lobby.shines@.take(j + 1).drop_last() =~= lobby.shines@.take(j as int));
                    assert(lobby.shines@.take(j + 1).last() == lobby.shines@[j as int]);
                }
                let s = lobby.shines[j];
                if !i32s_contain(own, s) && !i32s_contain(&lobby.settings.shines.excluded, s) {
                    let packet = Packet::new(
                        server_guid,
                        PacketData::Shine { shine_id: s, is_grand: false },
                    );
                    out.push(Action::SendTo(guid, ClientCommand::SelfAddressed(packet)));
                    proof {
                        assert(views(out@) =~= views(out@.drop_last()).push(out@.last()@));
                    }
                }
                j = j + 1;
            }
            proof {
                assert(lobby.shines@.take(lobby.shines@.len() as int) =~= lobby.shines@);
                assert(spec_player_sync(
                    entry,
                    Guid { id: 0 },
                    lobby.shines@,
                    lobby.settings.shines.excluded@,
                ) == spec_shine_diff(
                    lobby.shines@,
                    entry.data.shine_sync@,
                    lobby.settings.shines.excluded@,
                ).map_values(
                    |id: i32|
                        ActionView::SendTo(
                            entry.guid,
                            ClientCommandView::SelfAddressed(spec_shine_packet(Guid { id: 0 }, id)),
                        ),
                ));
            }
        } else {
            proof {
                assert(spec_player_sync(
                    lobby.players@[i as int],
                    Guid { id: 0 },
                    lobby.shines@,
                    lobby.settings.shines.excluded@,
                ) =~= Seq::<ActionView>::empty());
                assert(views(out@) =~= spec_sync_all(
                    lobby.players@.take(i + 1),
                    lobby.shines@,
                    lobby.settings.shines.excluded@,
                ));
            }
        }
        i = i + 1;
    }
    proof {
        assert(lobby.players@.take(lobby.players@.len() as int) =~= lobby.players@);
    }
    out
}

/// A sync pass gives every eligible player exactly as many shine packets as
/// the server holds beyond that player's own and the excluded ids, and a
/// player whose shine sync is disabled none at all.
pub proof fn theorem_sync_counts(entry: PlayerEntry, sender: Guid, lobby: Lobby)
    requires
        lobby.wf(),
        entry.data.wf(),
    ensures
        entry.data.disable_shine_sync ==> spec_player_sync(
            entry,
            sender,
            lobby.shines@,
            lobby.settings.shines.excluded@,
        ).len() == 0,
        !entry.data.disable_shine_sync ==> spec_player_sync(
            entry,
            sender,
            lobby.shines@,
            lobby.settings.shines.excluded@,
        ).len() == lobby.shines@.to_set().difference(
            entry.data.shine_sync@.to_set().union(lobby.settings.shines.excluded@.to_set()),
        ).len(),
{
    if !entry.data.disable_shine_sync {
        lemma_shine_diff(lobby.shines@, entry.data.shine_sync@, lobby.settings.shines.excluded@);
    }
}

// ---------------------------------------------------------------------------
// Packet handling
// ---------------------------------------------------------------------------

/// The persistence action a shine-set mutation triggers, when enabled: the
/// set as a JSON array, bound for the configured file.
pub open spec fn spec_persist_views(lobby: Lobby) -> Seq<ActionView> {
    if lobby.settings.persist_shines.enabled {
        seq![
            ActionView::PersistShines {
                filename: lobby.settings.persist_shines.filename@,
                json: spec_json_int_array(lobby.shines@),
            },
        ]
    } else {
        Seq::empty()
    }
}

/// Entering this stage crashes the sender when the ban list is on and names
/// it.
pub open spec fn spec_stage_banned(lobby: Lobby, stage: Seq<char>) -> bool {
    &&& lobby.settings.ban_list.enabled
    &&& exists|k: int|
        0 <= k < lobby.settings.ban_list.stages@.len()
            && #[trigger] lobby.settings.ban_list.stages@[k]@ == stage
}

/// The stages a fresh save passes through before Cascade; entering one at
/// scenario 1 fires the new-save gate.
pub open spec fn spec_new_save_stage(stage: Seq<char>) -> bool {
    stage == "CapWorldHomeStage"@ || stage == "CapWorldTowerStage"@
}

/// The kinds the coordinator merely rebroadcasts.
pub open spec fn spec_plain_packet(d: PacketDataView) -> bool {
    match d {
        PacketDataView::Costume(_) => false,
        PacketDataView::Shine { .. } => false,
        PacketDataView::Game { .. } => false,
        _ => true,
    }
}

/// Whether a string holds exactly this literal text.
fn string_is(s: &String, lit: &str) -> (r: bool)
    ensures
        r == (s@ == lit@),
{
    s.eq(&String::from_str(lit))
}

/// The persistence action for the current shine set, when enabled.
fn persist_actions(lobby: &Lobby) -> (r: Vec<Action>)
    ensures
        views(r@) == spec_persist_views(*lobby),
{
    let mut out: Vec<Action> = Vec::new();
    proof {
        assert(views(out@) =~= Seq::<ActionView>::empty());
    }
    if lobby.settings.persist_shines.enabled {
        let json = shine_json(&lobby.shines);
        let filename = lobby.settings.persist_shines.filename.clone();
        out.push(Action::PersistShines { filename, json });
        proof {
            assert(views(out@) =~= spec_persist_views(*lobby));
        }
    }
    out
}

/// Mapping to views distributes over concatenation.
proof fn lemma_views_add(a: Seq<Action>, b: Seq<Action>)
    ensures
        views(a + b) =~= views(a) + views(b),
{
    assert forall|k: int| 0 <= k < views(a + b).len() implies views(a + b)[k] == (views(a) + views(
        b,
    ))[k] by {
        if k < a.len() {
            assert((a + b)[k] == a[k]);
        } else {
            assert((a + b)[k] == b[k - a.len()]);
        }
    }
}

/// Append `b` to `a`.
fn append_actions(a: &mut Vec<Action>, b: Vec<Action>)
    ensures
        final(a)@ == old(a)@ + b@,
        views(final(a)@) =~= views(old(a)@) + views(b@),
{
    let mut b = b;
    a.append(&mut b);
    proof {
        lemma_views_add(old(a)@, b@);
    }
}

/// Handle one packet a client task forwarded: shine bookkeeping and sync, the
/// banned-stage crash, the new-save gate, scenario merge, and the fan-out
/// broadcast.
#[verifier::loop_isolation(false)]
#[verifier::rlimit(80)]
pub fn handle_packet(lobby: &mut Lobby, packet: Packet) -> (r: Vec<Action>)
    requires
        old(lobby).wf(),
    ensures
        final(lobby).wf(),
        final(lobby).settings == old(lobby).settings,
        // Costume: broadcast, then one shine-sync pass.
        packet@.data is Costume ==> {
            &&& *final(lobby) == *old(lobby)
            &&& views(r@) == seq![
                ActionView::Broadcast(ClientCommandView::Packet(packet@)),
            ] + spec_sync_views(*old(lobby))
        },
        // Shine: an excluded id changes nothing; any other id joins the
        // server set, every eligible player is synced, the packet fans out,
        // and the new set is persisted.
        packet@.data matches PacketDataView::Shine { shine_id, .. } ==> {
            if old(lobby).settings.shines.excluded@.contains(shine_id) {
                &&& *final(lobby) == *old(lobby)
                &&& views(r@) == Seq::<ActionView>::empty()
            } else {
                &&& final(lobby).players == old(lobby).players
                &&& final(lobby).shines@.to_set() == old(lobby).shines@.to_set().insert(shine_id)
                &&& views(r@) == spec_sync_views(*final(lobby)) + seq![
                    ActionView::Broadcast(ClientCommandView::Packet(packet@)),
                ] + spec_persist_views(*final(lobby))
            }
        },
        // Game: banned stages crash the sender; a fresh save entering the Cap
        // kingdom at scenario 1 clears all shine state; a player returning
        // with shine sync disabled is re-synced after a delay; scenario merge
        // echoes the packet self-addressed; the packet fans out.
        packet@.data matches PacketDataView::Game { scenario_num, stage, .. } ==> {
            if spec_stage_banned(*old(lobby), stage) {
                &&& *final(lobby) == *old(lobby)
                &&& views(r@) == seq![ActionView::ScheduleCrash(packet@.id)]
            } else if !old(lobby).has_player(packet@.id) {
                &&& *final(lobby) == *old(lobby)
                &&& views(r@) == Seq::<ActionView>::empty()
            } else {
                let i = old(lobby).player_index(packet@.id);
                let ns = spec_new_save_stage(stage) && scenario_num == 1;
                let gate = ns && !old(lobby).players@[i].data.disable_shine_sync;
                let resync = !ns && old(lobby).players@[i].data.disable_shine_sync;
                &&& (gate ==> {
                    &&& final(lobby).players@[i].data.disable_shine_sync
                    &&& final(lobby).players@[i].data.shine_sync@ == Seq::<i32>::empty()
                    &&& final(lobby).shines@ == Seq::<i32>::empty()
                })
                &&& (!gate ==> *final(lobby) == *old(lobby))
                &&& views(r@) == (if gate {
                    spec_persist_views(*final(lobby))
                } else {
                    Seq::<ActionView>::empty()
                }) + (if resync {
                    seq![ActionView::ScheduleShineResync(packet@.id)]
                } else {
                    Seq::<ActionView>::empty()
                }) + (if old(lobby).settings.scenario.merge_enabled {
                    seq![ActionView::Broadcast(ClientCommandView::SelfAddressed(packet@))]
                } else {
                    Seq::<ActionView>::empty()
                }) + seq![ActionView::Broadcast(ClientCommandView::Packet(packet@))]
            }
        },
        // Everything else fans out unchanged.
        spec_plain_packet(packet@.data) ==> {
            &&& *final(lobby) == *old(lobby)
            &&& views(r@) == seq![ActionView::Broadcast(ClientCommandView::Packet(packet@))]
        },
{
    let mut out: Vec<Action> = Vec::new();
    proof {
        assert(views(out@) =~= Seq::<ActionView>::empty());
    }
    match &packet.data {
        PacketData::Costume(_) => {
            let sync = sync_all_shines(lobby);
            out.push(Action::Broadcast(ClientCommand::Packet(packet)));
            proof {
                assert(views(out@) =~= seq![out@[0]@]);
            }
            append_actions(&mut out, sync);
            out
        },
        PacketData::Shine { shine_id, .. } => {
            let shine_id = *shine_id;
            if i32s_contain(&lobby.settings.shines.excluded, shine_id) {
                return out;
            }
            lobby.insert_shine(shine_id);
            let sync = sync_all_shines(lobby);
            append_actions(&mut out, sync);
            out.push(Action::Broadcast(ClientCommand::Packet(packet)));
            proof {
                assert(views(out@) =~= views(out@.drop_last()).push(out@.last()@));
            }
            let persist = persist_actions(lobby);
            append_actions(&mut out, persist);
            out
        },
        PacketData::Game { scenario_num, ref stage, .. } => {
            let scenario_num = *scenario_num;
            if lobby.settings.ban_list.enabled && strings_contain(
                &lobby.settings.ban_list.stages,
                stage,
            ) {
                out.push(Action::ScheduleCrash(packet.id));
                proof {
                    assert(views(out@) =~= seq![out@[0]@]);
                }
                return out;
            }
            let idx = match lobby.find_player(packet.id) {
                Some(i) => i,
                None => {
                    return out;
                },
            };
            proof {
                lobby.lemma_player_index_unique(packet@.id, idx as int);
            }
            let ns = (string_is(stage, "CapWorldHomeStage") || string_is(
                stage,
                "CapWorldTowerStage",
            )) && scenario_num == 1;
            let disabled = lobby.players[idx].data.disable_shine_sync;
            if ns {
                if !disabled {
                    lobby.fire_shine_gate(idx);
                    lobby.clear_shines();
                    proof {
                        lobby.lemma_player_index_unique(packet@.id, idx as int);
                    }
                    let persist = persist_actions(lobby);
                    append_actions(&mut out, persist);
                }
            } else if disabled {
                out.push(Action::ScheduleShineResync(packet.id));
                proof {
                    assert(views(out@) =~= views(out@.drop_last()).push(out@.last()@));
                }
            }
            if lobby.settings.scenario.merge_enabled {
                out.push(Action::Broadcast(ClientCommand::SelfAddressed(packet.clone())));
                proof {
                    assert(views(out@) =~= views(out@.drop_last()).push(out@.last()@));
                }
            }
            out.push(Action::Broadcast(ClientCommand::Packet(packet)));
            proof {
                assert(views(out@) =~= views(out@.drop_last()).push(out@.last()@));
            }
            out
        },
        _ => {
            out.push(Action::Broadcast(ClientCommand::Packet(packet)));
            proof {
                assert(views(out@) =~= seq![out@[0]@]);
            }
            out
        },
    }
}

// ---------------------------------------------------------------------------
// Connection lifecycle
// ---------------------------------------------------------------------------

/// A Disconnect packet under this guid.
pub open spec fn spec_disconnect_packet(guid: Guid) -> PacketView {
    PacketView { id: guid, data_size: 0u16, data: PacketDataView::Disconnect }
}

/// Remove a player: every peer learns of the disconnect, and the player's own
/// task receives a final Disconnect so it exits; a guid that is not connected
/// changes nothing.
pub fn disconnect_player(lobby: &mut Lobby, guid: Guid) -> (r: Vec<Action>)
    requires
        old(lobby).wf(),
    ensures
        final(lobby).wf(),
        final(lobby).shines == old(lobby).shines,
        final(lobby).settings == old(lobby).settings,
        !final(lobby).has_player(guid),
        old(lobby).has_player(guid) ==> {
            &&& (exists|i: int|
                0 <= i < old(lobby).players@.len() && old(lobby).players@[i].guid == guid && (
                final(lobby).players@ == old(lobby).players@.remove(i)))
            &&& views(r@) == seq![
                ActionView::Broadcast(ClientCommandView::Packet(spec_disconnect_packet(guid))),
                ActionView::SendTo(
                    guid,
                    ClientCommandView::Packet(spec_disconnect_packet(guid)),
                ),
            ]
        },
        !old(lobby).has_player(guid) ==> final(lobby).players@ == old(lobby).players@ && views(r@)
            == Seq::<ActionView>::empty(),
{
    let mut out: Vec<Action> = Vec::new();
    proof {
        assert(views(out@) =~= Seq::<ActionView>::empty());
    }
    match lobby.remove_player(guid) {
        Some(_) => {
            let packet = Packet::new(guid, PacketData::Disconnect);
            out.push(Action::Broadcast(ClientCommand::Packet(packet.clone())));
            out.push(Action::SendTo(guid, ClientCommand::Packet(packet)));
            proof {
                assert(views(out@) =~= seq![out@[0]@, out@[1]@]);
            }
            out
        },
        None => out,
    }
}

// ---------------------------------------------------------------------------
// Shine re-sync after the new-save window
// ---------------------------------------------------------------------------

/// The sync sends for one player, from `sender`.
#[verifier::loop_isolation(false)]
fn sync_one(
    to: Guid,
    sender: Guid,
    own: &Vec<i32>,
    shines: &Vec<i32>,
    excluded: &Vec<i32>,
) -> (r: Vec<Action>)
    ensures
        views(r@) == spec_shine_diff(shines@, own@, excluded@).map_values(
            |id: i32|
                ActionView::SendTo(
                    to,
                    ClientCommandView::SelfAddressed(spec_shine_packet(sender, id)),
                ),
        ),
{
    let mut out: Vec<Action> = Vec::new();
    proof {
        assert(views(out@) =~= Seq::<ActionView>::empty());
        assert(spec_shine_diff(shines@.take(0), own@, excluded@) =~= Seq::<i32>::empty());
    }
    let mut j: usize = 0;
    while j < shines.len()
        invariant
            0 <= j <= shines@.len(),
            views(out@) == spec_shine_diff(shines@.take(j as int), own@, excluded@).map_values(
                |id: i32|
                    ActionView::SendTo(
                        to,
                        ClientCommandView::SelfAddressed(spec_shine_packet(sender, id)),
                    ),
            ),
        decreases shines@.len() - j,
    {
        proof {
            assert(shines@.take(j + 1).drop_last() =~= shines@.take(j as int));
            assert(shines@.take(j + 1).last() == shines@[j as int]);
        }
        let s = shines[j];
        if !i32s_contain(own, s) && !i32s_contain(excluded, s) {
            let packet = Packet::new(sender, PacketData::Shine { shine_id: s, is_grand: false });
            out.push(Action::SendTo(to, ClientCommand::SelfAddressed(packet)));
            proof {
                assert(views(out@) =~= views(out@.drop_last()).push(out@.last()@));
            }
        }
        j = j + 1;
    }
    proof {
        assert(shines@.take(shines@.len() as int) =~= shines@);
    }
    out
}

/// End the new-save window for a player: shine sync is enabled again and,
/// when shine sync is on, the server's diff is pushed to the player under the
/// player's own id.
#[verifier::loop_isolation(false)]
pub fn finish_shine_resync(lobby: &mut Lobby, guid: Guid) -> (r: Vec<Action>)
    requires
        old(lobby).wf(),
    ensures
        final(lobby).wf(),
        final(lobby).shines == old(lobby).shines,
        final(lobby).settings == old(lobby).settings,
        !old(lobby).has_player(guid) ==> final(lobby).players@ == old(lobby).players@ && views(r@)
            == Seq::<ActionView>::empty(),
        old(lobby).has_player(guid) ==> {
            let i = old(lobby).player_index(guid);
            &&& final(lobby).players@.len() == old(lobby).players@.len()
            &&& (forall|j: int|
                0 <= j < old(lobby).players@.len() && j != i ==> final(lobby).players@[j] == old(
                    lobby,
                ).players@[j])
            &&& final(lobby).players@[i].guid == guid
            &&& final(lobby).players@[i].data == (PlayerData {
                disable_shine_sync: false,
                ..old(lobby).players@[i].data
            })
            &&& views(r@) == (if old(lobby).settings.shines.enabled {
                spec_player_sync(
                    final(lobby).players@[i],
                    guid,
                    old(lobby).shines@,
                    old(lobby).settings.shines.excluded@,
                )
            } else {
                Seq::<ActionView>::empty()
            })
        },
{
    let idx = match lobby.find_player(guid) {
        Some(i) => i,
        None => {
            let out: Vec<Action> = Vec::new();
            proof {
                assert(views(out@) =~= Seq::<ActionView>::empty());
            }
            return out;
        },
    };
    proof {
        lobby.lemma_player_index_unique(guid, idx as int);
    }
    lobby.set_disable_shine_sync(idx, false);
    if !lobby.settings.shines.enabled {
        let out: Vec<Action> = Vec::new();
        proof {
            assert(views(out@) =~= Seq::<ActionView>::empty());
        }
        return out;
    }
    sync_one(
        guid,
        guid,
        &lobby.players[idx].data.shine_sync,
        &lobby.shines,
        &lobby.settings.shines.excluded,
    )
}

// ---------------------------------------------------------------------------
// New players
// ---------------------------------------------------------------------------

/// The synthetic Connect packet that introduces a peer to a newcomer.
pub open spec fn spec_connect_synth(entry: PlayerEntry, max_players: u16) -> PacketView {
    PacketView {
        id: entry.guid,
        data_size: 38u16,
        data: PacketDataView::Connect {
            c_type: ConnectionType::FirstConnection,
            max_player: max_players,
            client_name: entry.data.name@,
        },
    }
}

/// A cached packet forwarded to the newcomer, or nothing.
pub open spec fn spec_opt_send(p: Option<Packet>, to: Guid) -> Seq<ActionView> {
    match p {
        Option::Some(pk) => seq![ActionView::SendTo(to, ClientCommandView::Packet(pk@))],
        Option::None => Seq::empty(),
    }
}

/// The synthetic tag-state packet for a peer, or nothing when neither timer
/// nor seeker state is known.
pub open spec fn spec_tag_send(entry: PlayerEntry, to: Guid) -> Seq<ActionView> {
    if entry.data.time is None && entry.data.is_seeking is None {
        Seq::empty()
    } else {
        seq![
            ActionView::SendTo(
                to,
                ClientCommandView::Packet(
                    PacketView {
                        id: entry.guid,
                        data_size: 5u16,
                        data: spec_synthetic_tag(entry.data.time, entry.data.is_seeking),
                    },
                ),
            ),
        ]
    }
}

/// Everything the newcomer is told about one peer, in order: a synthetic
/// Connect, then the peer's cached Costume, Capture, tag state, Game and
/// Player packets, each skipped when absent.
pub open spec fn spec_peer_intro(entry: PlayerEntry, to: Guid, max_players: u16) -> Seq<
    ActionView,
> {
    seq![ActionView::SendTo(to, ClientCommandView::Packet(spec_connect_synth(entry, max_players)))]
        + spec_opt_send(entry.data.last_costume_packet, to) + spec_opt_send(
        entry.data.last_capture_packet,
        to,
    ) + spec_tag_send(entry, to) + spec_opt_send(entry.data.last_game_packet, to) + spec_opt_send(
        entry.data.last_player_packet,
        to,
    )
}

/// The whole introduction pass, one peer after the other in lobby order.
pub open spec fn spec_setup_sends(
    players: Seq<PlayerEntry>,
    to: Guid,
    max_players: u16,
) -> Seq<ActionView>
    decreases players.len(),
{
    if players.len() == 0 {
        Seq::empty()
    } else {
        spec_setup_sends(players.drop_last(), to, max_players) + spec_peer_intro(
            players.last(),
            to,
            max_players,
        )
    }
}

/// The tag packet that resets a peer's puppet cache.
pub open spec fn spec_empty_tag(guid: Guid) -> PacketView {
    PacketView {
        id: guid,
        data_size: 5u16,
        data: PacketDataView::Tag {
            game_mode: GameMode::Legacy,
            update_type: TagUpdate::Both,
            is_it: false,
            seconds: 0u8,
            minutes: 0u16,
        },
    }
}

/// The capture packet that resets a peer's puppet cache.
pub open spec fn spec_empty_capture(guid: Guid) -> PacketView {
    PacketView { id: guid, data_size: 32u16, data: PacketDataView::Capture { model: ""@ } }
}

/// One peer's introduction, as actions.
fn peer_intro_actions(entry: &PlayerEntry, to: Guid, max_players: u16) -> (r: Vec<Action>)
    ensures
        views(r@) == spec_peer_intro(*entry, to, max_players),
{
    let mut out: Vec<Action> = Vec::new();
    proof {
        assert(views(out@) =~= Seq::<ActionView>::empty());
    }
    let connect = Packet::new(
        entry.guid,
        PacketData::Connect {
            c_type: ConnectionType::FirstConnection,
            max_player: max_players,
            client_name: entry.data.name.clone(),
        },
    );
    out.push(Action::SendTo(to, ClientCommand::Packet(connect)));
    match &entry.data.last_costume_packet {
        Some(p) => {
            out.push(Action::SendTo(to, ClientCommand::Packet(p.clone())));
        },
        None => {},
    }
    match &entry.data.last_capture_packet {
        Some(p) => {
            out.push(Action::SendTo(to, ClientCommand::Packet(p.clone())));
        },
        None => {},
    }
    match entry.data.create_tag_packet(entry.guid) {
        Some(p) => {
            out.push(Action::SendTo(to, ClientCommand::Packet(p)));
        },
        None => {},
    }
    match &entry.data.last_game_packet {
        Some(p) => {
            out.push(Action::SendTo(to, ClientCommand::Packet(p.clone())));
        },
        None => {},
    }
    match &entry.data.last_player_packet {
        Some(p) => {
            out.push(Action::SendTo(to, ClientCommand::Packet(p.clone())));
        },
        None => {},
    }
    proof {
        assert(views(out@) =~= spec_peer_intro(*entry, to, max_players));
    }
    out
}

/// Register a new player and stage its introduction (the NewPlayer command).
///
/// A lingering entry under the same guid or name (a reconnect whose
/// predecessor never left cleanly) is dropped first.  The newcomer is told
/// about every player in lobby order (itself included; its own task drops
/// those), the newcomer's Connect packet fans out, and on a first connection
/// two empty packets reset the peers' puppet caches.
#[verifier::loop_isolation(false)]
pub fn add_client(lobby: &mut Lobby, guid: Guid, data: PlayerData, connect_packet: Packet) -> (r:
    Vec<Action>)
    requires
        old(lobby).wf(),
        data.wf(),
        connect_packet@.data is Connect,
    ensures
        final(lobby).wf(),
        final(lobby).shines == old(lobby).shines,
        final(lobby).settings == old(lobby).settings,
        final(lobby).has_player(guid),
        final(lobby).players@.last() == (PlayerEntry { guid, data }),
        views(r@) == spec_setup_sends(
            final(lobby).players@,
            guid,
            old(lobby).settings.server.max_players,
        ) + seq![ActionView::Broadcast(ClientCommandView::Packet(connect_packet@))] + (
        if (connect_packet@.data matches PacketDataView::Connect { c_type, .. } && c_type
            == ConnectionType::FirstConnection) {
            seq![
                ActionView::Broadcast(ClientCommandView::Packet(spec_empty_tag(guid))),
                ActionView::Broadcast(ClientCommandView::Packet(spec_empty_capture(guid))),
            ]
        } else {
            Seq::<ActionView>::empty()
        }),
{
    let _ = lobby.remove_player(guid);
    let _ = lobby.remove_player_by_name(&data.name);
    lobby.insert_player(guid, data);

    let max_players = lobby.settings.server.max_players;
    let mut out: Vec<Action> = Vec::new();
    proof {
        assert(views(out@) =~= Seq::<ActionView>::empty());
    }
    let mut i: usize = 0;
    while i < lobby.players.len()
        invariant
            0 <= i <= lobby.players@.len(),
            views(out@) == spec_setup_sends(lobby.players@.take(i as int), guid, max_players),
        decreases lobby.players@.len() - i,
    {
        proof {
            assert(lobby.players@.take(i + 1).drop_last() =~= lobby.players@.take(i as int));
            assert(lobby.players@.take(i + 1).last() == lobby.players@[i as int]);
        }
        let intro = peer_intro_actions(&lobby.players[i], guid, max_players);
        append_actions(&mut out, intro);
        i = i + 1;
    }
    proof {
        assert(lobby.players@.take(lobby.players@.len() as int) =~= lobby.players@);
    }

    let first = match &connect_packet.data {
        PacketData::Connect { c_type: ConnectionType::FirstConnection, .. } => true,
        _ => false,
    };
    out.push(Action::Broadcast(ClientCommand::Packet(connect_packet)));
    proof {
        assert(views(out@) =~= views(out@.drop_last()).push(out@.last()@));
    }
    let ghost base = spec_setup_sends(lobby.players@, guid, max_players) + seq![
        ActionView::Broadcast(ClientCommandView::Packet(connect_packet@)),
    ];
    proof {
        assert(views(out@) =~= base);
    }
    if first {
        let tag = Packet::new(
            guid,
            PacketData::Tag {
                game_mode: GameMode::Legacy,
                update_type: TagUpdate::Both,
                is_it: false,
                seconds: 0,
                minutes: 0,
            },
        );
        out.push(Action::Broadcast(ClientCommand::Packet(tag)));
        proof {
            assert(views(out@) =~= views(out@.drop_last()).push(out@.last()@));
        }
        let capture = Packet::new(guid, PacketData::Capture { model: String::new() });
        out.push(Action::Broadcast(ClientCommand::Packet(capture)));
        proof {
            reveal_strlit("");
            assert(""@ =~= Seq::<char>::empty());
            assert(views(out@) =~= views(out@.drop_last()).push(out@.last()@));
            assert(views(out@) =~= base + seq![
                ActionView::Broadcast(ClientCommandView::Packet(spec_empty_tag(guid))),
                ActionView::Broadcast(ClientCommandView::Packet(spec_empty_capture(guid))),
            ]);
        }
    }
    out
}

// ---------------------------------------------------------------------------
// Administrative commands
// ---------------------------------------------------------------------------

/// A ChangeStage packet from the server, sub-scenario 0.
pub open spec fn spec_change_stage_packet(stage: Seq<char>, id: Seq<char>, scenario: i8) -> PacketView {
    PacketView {
        id: Guid { id: 0 },
        data_size: 66u16,
        data: PacketDataView::ChangeStage { stage, id, scenario, sub_scenario: 0u8 },
    }
}

/// The deliberately malformed ChangeStage that crashes a client mod out.
pub open spec fn spec_crash_packet() -> PacketView {
    PacketView {
        id: Guid { id: 0 },
        data_size: 66u16,
        data: PacketDataView::ChangeStage {
            stage: "$agogusStage"@,
            id: "$among$us/cr4sh%"@,
            scenario: 21i8,
            sub_scenario: 69u8,
        },
    }
}

/// A synthetic tag packet from the server.
pub open spec fn spec_admin_tag_packet(
    update_type: TagUpdate,
    is_it: bool,
    seconds: u8,
    minutes: u16,
) -> PacketView {
    PacketView {
        id: Guid { id: 0 },
        data_size: 5u16,
        data: PacketDataView::Tag {
            game_mode: GameMode::Legacy,
            update_type,
            is_it,
            seconds,
            minutes,
        },
    }
}

/// One send per selected guid.
pub open spec fn spec_send_each(guids: Seq<Guid>, cmd: ClientCommandView) -> Seq<ActionView> {
    guids.map_values(|g: Guid| ActionView::SendTo(g, cmd))
}

/// Deliver a command to a selection: a broadcast for everyone, one queued
/// send per listed guid otherwise; a selection naming a guid that is not
/// connected is refused whole.
#[verifier::loop_isolation(false)]
fn send_players(lobby: &Lobby, players: &Players, cmd: ClientCommand) -> (r: Result<
    Vec<Action>,
    CommandError,
>)
    ensures
        r is Ok <==> players.spec_all_connected(*lobby),
        players matches Players::All ==> (r matches Result::Ok(acts) && views(acts@) == seq![
            ActionView::Broadcast(cmd@),
        ]),
        players matches Players::Individual(gs) ==> (r matches Result::Ok(acts) ==> views(acts@)
            == spec_send_each(gs@, cmd@)),
        r matches Result::Err(e) ==> (e matches CommandError::InvalidID(g) && players.spec_selects(
            g,
        ) && !lobby.has_player(g)),
{
    match players.verify(lobby) {
        Ok(_) => {},
        Err(e) => {
            return Result::Err(e);
        },
    }
    let mut out: Vec<Action> = Vec::new();
    proof {
        assert(views(out@) =~= Seq::<ActionView>::empty());
    }
    match players {
        Players::All => {
            out.push(Action::Broadcast(cmd));
            proof {
                assert(views(out@) =~= seq![out@[0]@]);
            }
            Result::Ok(out)
        },
        Players::Individual(gs) => {
            let mut i: usize = 0;
            while i < gs.len()
                invariant
                    0 <= i <= gs@.len(),
                    views(out@) == spec_send_each(gs@.take(i as int), cmd@),
                decreases gs@.len() - i,
            {
                proof {
                    assert(gs@.take(i + 1).drop_last() =~= gs@.take(i as int));
                }
                out.push(Action::SendTo(gs[i], cmd.clone()));
                proof {
                    assert(views(out@) =~= views(out@.drop_last()).push(out@.last()@));
                    assert(spec_send_each(gs@.take(i + 1), cmd@) =~= spec_send_each(
                        gs@.take(i as int),
                        cmd@,
                    ).push(ActionView::SendTo(gs@[i as int], cmd@)));
                }
                i = i + 1;
            }
            proof {
                assert(gs@.take(gs@.len() as int) =~= gs@);
            }
            Result::Ok(out)
        },
    }
}

/// Handle one administrative command: build the packet it asks for and stage
/// its delivery, or mutate the shine state.  The reply names what was done.
#[verifier::loop_isolation(false)]
pub fn handle_external_cmd(lobby: &mut Lobby, cmd: ExternalCommand) -> (r: Result<
    (Vec<Action>, String),
    CommandError,
>)
    requires
        old(lobby).wf(),
    ensures
        final(lobby).wf(),
        final(lobby).settings == old(lobby).settings,
        // Send: succeeds exactly when every selected guid is connected, and
        // then delivers a self-addressed ChangeStage to the selection.
        cmd matches ExternalCommand::Player {
            players,
            command: PlayerCommand::Send { .. },
        } ==> (r is Ok <==> players.spec_all_connected(*old(lobby))),
        cmd matches ExternalCommand::Player {
            players,
            command: PlayerCommand::Send { stage, id, scenario },
        } ==> (r matches Result::Ok(ok) ==> {
            &&& final(lobby).players@ == old(lobby).players@
            &&& ok.1@ == "Sent players"@
            &&& (players matches Players::All ==> views(ok.0@) == seq![
                ActionView::Broadcast(
                    ClientCommandView::SelfAddressed(
                        spec_change_stage_packet(stage@, id@, scenario),
                    ),
                ),
            ])
            &&& (players matches Players::Individual(gs) ==> views(ok.0@) == spec_send_each(
                gs@,
                ClientCommandView::SelfAddressed(spec_change_stage_packet(stage@, id@, scenario)),
            ))
        }),
        // Crash: succeeds exactly when every selected guid is connected, and
        // then delivers the malformed ChangeStage to the selection.
        cmd matches ExternalCommand::Player { players, command: PlayerCommand::Crash } ==> (r
            is Ok <==> players.spec_all_connected(*old(lobby))),
        cmd matches ExternalCommand::Player { players, command: PlayerCommand::Crash } ==> (r
            matches Result::Ok(ok) ==> {
            &&& final(lobby).players@ == old(lobby).players@
            &&& ok.1@ == "Crashed players"@
            &&& (players matches Players::All ==> views(ok.0@) == seq![
                ActionView::Broadcast(ClientCommandView::SelfAddressed(spec_crash_packet())),
            ])
            &&& (players matches Players::Individual(gs) ==> views(ok.0@) == spec_send_each(
                gs@,
                ClientCommandView::SelfAddressed(spec_crash_packet()),
            ))
        }),
        // Disconnect never fails: every selected player leaves the lobby.
        cmd matches ExternalCommand::Player { command: PlayerCommand::Disconnect, .. } ==> r is Ok,
        cmd matches ExternalCommand::Player { players, command: PlayerCommand::Disconnect } ==> (r
            matches Result::Ok(ok) ==> {
            &&& ok.1@ == "Disconnected players"@
            &&& (players matches Players::All ==> (forall|g: Guid|
                old(lobby).has_player(g) ==> !final(lobby).has_player(g)))
            &&& (players matches Players::Individual(gs) ==> (forall|g: Guid|
                gs@.contains(g) ==> !final(lobby).has_player(g)))
        }),
        // Tag: succeeds exactly when every selected guid is connected (or
        // there is nothing to send), and then delivers a time update, a
        // seeker update, or both, to the selection.
        cmd matches ExternalCommand::Player {
            players,
            command: PlayerCommand::Tag { time, is_seeking },
        } ==> (r is Ok <==> ((time is None && is_seeking is None) || players.spec_all_connected(
            *old(lobby),
        ))),
        cmd matches ExternalCommand::Player {
            players,
            command: PlayerCommand::Tag { time, is_seeking },
        } ==> (r matches Result::Ok(ok) ==> {
            &&& final(lobby).players@ == old(lobby).players@
            &&& ok.1@ == "Updated tag status"@
            &&& views(ok.0@) == (match time {
                Option::Some((minutes, seconds)) => spec_deliver(
                    players,
                    ClientCommandView::SelfAddressed(
                        spec_admin_tag_packet(TagUpdate::Time, false, seconds, minutes),
                    ),
                ),
                Option::None => Seq::<ActionView>::empty(),
            }) + (match is_seeking {
                Option::Some(seeking) => spec_deliver(
                    players,
                    ClientCommandView::SelfAddressed(
                        spec_admin_tag_packet(TagUpdate::State, seeking, 0u8, 0u16),
                    ),
                ),
                Option::None => Seq::<ActionView>::empty(),
            })
        }),
        // SendShine: succeeds exactly when every selected guid is connected,
        // and then delivers one shine to the selection.
        cmd matches ExternalCommand::Player {
            players,
            command: PlayerCommand::SendShine { .. },
        } ==> (r is Ok <==> players.spec_all_connected(*old(lobby))),
        cmd matches ExternalCommand::Player {
            players,
            command: PlayerCommand::SendShine { id },
        } ==> (r matches Result::Ok(ok) ==> {
            &&& final(lobby).players@ == old(lobby).players@
            &&& ok.1@ == "Sent player shine"@
            &&& views(ok.0@) == spec_deliver(
                players,
                ClientCommandView::SelfAddressed(spec_shine_packet(Guid { id: 0 }, id)),
            )
        }),
        // Shine sync: one pass.
        cmd matches ExternalCommand::Shine { command: ShineCommand::Sync } ==> {
            &&& final(lobby).players@ == old(lobby).players@
            &&& final(lobby).shines == old(lobby).shines
            &&& (r matches Result::Ok(ok) && ok.1@ == "Synced shine bags"@ && views(ok.0@)
                == spec_sync_views(*old(lobby)))
        },
        // Shine clear: the server and every player forget every shine.
        cmd matches ExternalCommand::Shine { command: ShineCommand::Clear } ==> {
            &&& final(lobby).shines@ == Seq::<i32>::empty()
            &&& final(lobby).players@.len() == old(lobby).players@.len()
            &&& (forall|i: int|
                0 <= i < final(lobby).players@.len()
                    ==> #[trigger] final(lobby).players@[i].data.shine_sync@ == Seq::<i32>::empty())
            &&& (r matches Result::Ok(ok) && ok.1@ == "Shines cleared"@ && views(ok.0@)
                == spec_persist_views(*final(lobby)))
        },
        // A refused selection names one of its own unconnected guids and
        // changes nothing.
        cmd matches ExternalCommand::Player { players, .. } ==> (r matches Result::Err(e) ==> (e
            matches CommandError::InvalidID(g) && players.spec_selects(g) && !old(
            lobby,
        ).has_player(g) && final(lobby).players@ == old(lobby).players@ && final(lobby).shines
            == old(lobby).shines)),
        cmd matches ExternalCommand::Shine { .. } ==> r is Ok,
{
    match cmd {
        ExternalCommand::Player { players, command } => match command {
            PlayerCommand::Send { stage, id, scenario } => {
                let packet = Packet::new(
                    Guid::server(),
                    PacketData::ChangeStage { stage, id, scenario, sub_scenario: 0 },
                );
                let acts = send_players(lobby, &players, ClientCommand::SelfAddressed(packet))?;
                Result::Ok((acts, String::from_str("Sent players")))
            },
            PlayerCommand::Disconnect => {
                let ghost entry_players = lobby.players@;
                let ghost psel = players;
                let guids = players.flatten(lobby);
                let mut out: Vec<Action> = Vec::new();
                let mut i: usize = 0;
                while i < guids.len()
                    invariant
                        lobby.wf(),
                        lobby.settings == old(lobby).settings,
                        0 <= i <= guids@.len(),
                        forall|j: int| 0 <= j < i ==> !lobby.has_player(#[trigger] guids@[j]),
                    decreases guids@.len() - i,
                {
                    let ghost pre = *lobby;
                    let acts = disconnect_player(lobby, guids[i]);
                    append_actions(&mut out, acts);
                    proof {
                        assert forall|j: int|
                            0 <= j < i + 1 implies !lobby.has_player(#[trigger] guids@[j]) by {
                            if j < i {
                                lemma_remove_preserves_absent(pre, *lobby, guids@[j]);
                            }
                        }
                    }
                    i = i + 1;
                }
                proof {
                    match psel {
                        Players::All => {
                            assert forall|g: Guid|
                                old(lobby).has_player(g) implies !lobby.has_player(g) by {
                                let k = choose|k: int|
                                    0 <= k < entry_players.len() && entry_players[k].guid == g;
                                assert(guids@[k] == g);
                            }
                        },
                        Players::Individual(gs) => {
                            assert forall|g: Guid| gs@.contains(g) implies !lobby.has_player(
                                g,
                            ) by {
                                let k = choose|k: int| 0 <= k < gs@.len() && gs@[k] == g;
                                assert(guids@[k] == g);
                            }
                        },
                    }
                }
                Result::Ok((out, String::from_str("Disconnected players")))
            },
            PlayerCommand::Crash => {
                let packet = Packet::new(
                    Guid::server(),
                    PacketData::ChangeStage {
                        stage: String::from_str("$agogusStage"),
                        id: String::from_str("$among$us/cr4sh%"),
                        scenario: 21,
                        sub_scenario: 69,
                    },
                );
                let acts = send_players(lobby, &players, ClientCommand::SelfAddressed(packet))?;
                Result::Ok((acts, String::from_str("Crashed players")))
            },
            PlayerCommand::Tag { time, is_seeking } => {
                let mut out: Vec<Action> = Vec::new();
                proof {
                    assert(views(out@) =~= Seq::<ActionView>::empty());
                }
                match time {
                    Some((minutes, seconds)) => {
                        let packet = Packet::new(
                            Guid::server(),
                            PacketData::Tag {
                                game_mode: GameMode::Legacy,
                                update_type: TagUpdate::Time,
                                is_it: false,
                                seconds,
                                minutes,
                            },
                        );
                        let acts = send_players(
                            lobby,
                            &players,
                            ClientCommand::SelfAddressed(packet),
                        )?;
                        append_actions(&mut out, acts);
                    },
                    None => {},
                }
                match is_seeking {
                    Some(seeking) => {
                        let packet = Packet::new(
                            Guid::server(),
                            PacketData::Tag {
                                game_mode: GameMode::Legacy,
                                update_type: TagUpdate::State,
                                is_it: seeking,
                                seconds: 0,
                                minutes: 0,
                            },
                        );
                        let acts = send_players(
                            lobby,
                            &players,
                            ClientCommand::SelfAddressed(packet),
                        )?;
                        append_actions(&mut out, acts);
                    },
                    None => {},
                }
                Result::Ok((out, String::from_str("Updated tag status")))
            },
            PlayerCommand::SendShine { id } => {
                let packet = Packet::new(
                    Guid::server(),
                    PacketData::Shine { shine_id: id, is_grand: false },
                );
                let acts = send_players(lobby, &players, ClientCommand::SelfAddressed(packet))?;
                Result::Ok((acts, String::from_str("Sent player shine")))
            },
        },
        ExternalCommand::Shine { command } => match command {
            ShineCommand::Sync => {
                let acts = sync_all_shines(lobby);
                Result::Ok((acts, String::from_str("Synced shine bags")))
            },
            ShineCommand::Clear => {
                lobby.clear_shines();
                let mut i: usize = 0;
                while i < lobby.players.len()
                    invariant
                        lobby.wf(),
                        lobby.settings == old(lobby).settings,
                        lobby.shines@ == Seq::<i32>::empty(),
                        lobby.players@.len() == old(lobby).players@.len(),
                        0 <= i <= lobby.players@.len(),
                        forall|j: int|
                            0 <= j < i ==> #[trigger] lobby.players@[j].data.shine_sync@
                                == Seq::<i32>::empty(),
                    decreases lobby.players@.len() - i,
                {
                    lobby.clear_player_shine_sync(i);
                    i = i + 1;
                }
                let acts = persist_actions(lobby);
                Result::Ok((acts, String::from_str("Shines cleared")))
            },
        },
    }
}

/// What a delivery to a selection looks like.
pub open spec fn spec_deliver(players: Players, cmd: ClientCommandView) -> Seq<ActionView> {
    match players {
        Players::All => seq![ActionView::Broadcast(cmd)],
        Players::Individual(gs) => spec_send_each(gs@, cmd),
    }
}

/// A guid absent before a removal stays absent.
proof fn lemma_remove_preserves_absent(pre: Lobby, post: Lobby, g: Guid)
    requires
        !pre.has_player(g),
        post.players@ == pre.players@ || (exists|i: int|
            0 <= i < pre.players@.len() && post.players@ == pre.players@.remove(i)),
    ensures
        !post.has_player(g),
{
    if post.players@ != pre.players@ {
        let i = choose|i: int|
            0 <= i < pre.players@.len() && post.players@ == pre.players@.remove(i);
        assert forall|k: int|
            0 <= k < post.players@.len() implies post.players@[k].guid != g by {
            if k < i {
                assert(post.players@[k] == pre.players@[k]);
            } else {
                assert(post.players@[k] == pre.players@[k + 1]);
            }
        }
    }
}

/// Drain the lobby on shutdown: every player is disconnected, in lobby order.
#[verifier::loop_isolation(false)]
pub fn shutdown(lobby: &mut Lobby) -> (r: Vec<Action>)
    requires
        old(lobby).wf(),
    ensures
        final(lobby).wf(),
        final(lobby).players@.len() == 0,
        final(lobby).settings == old(lobby).settings,
        final(lobby).shines == old(lobby).shines,
{
    let mut out: Vec<Action> = Vec::new();
    while lobby.players.len() > 0
        invariant
            lobby.wf(),
            lobby.settings == old(lobby).settings,
            lobby.shines == old(lobby).shines,
        decreases lobby.players@.len(),
    {
        let guid = lobby.players[0].guid;
        proof {
            assert(lobby.has_player(guid));
        }
        let ghost pre = lobby.players@;
        let acts = disconnect_player(lobby, guid);
        proof {
            let i = choose|i: int| 0 <= i < pre.len() && pre[i].guid == guid && lobby.players@
                == pre.remove(i);
            assert(lobby.players@.len() < pre.len());
        }
        append_actions(&mut out, acts);
    }
    out
}

} // verus!
