//! Lobby-wide shared state: the player map, the name bijection, the collected
//! shines and the settings snapshot.
//!
//! The coordinator is the only writer of player membership and of the shine
//! set; it owns the lobby value and serialises every mutation.

use vstd::prelude::*;

verus! {

use crate::guid::Guid;
use crate::player::PlayerData;
use crate::settings::Settings;

/// One connected player and its record.
#[derive(Debug)]
pub struct PlayerEntry {
    pub guid: Guid,
    pub data: PlayerData,
}

/// The lobby: players keyed by guid (names unique too, a bijection), the
/// server's collected-shine set, and the settings snapshot.
#[derive(Debug)]
pub struct Lobby {
    pub players: Vec<PlayerEntry>,
    pub shines: Vec<i32>,
    pub settings: Settings,
}

impl Lobby {
    /// Guids unique, names unique, every record well-formed, shine set free of
    /// duplicates.
    pub open spec fn wf(self) -> bool {
        &&& (forall|i: int, j: int|
            0 <= i < j < self.players@.len() ==> self.players@[i].guid != self.players@[j].guid)
        &&& (forall|i: int, j: int|
            0 <= i < j < self.players@.len() ==> self.players@[i].data.name@
                != self.players@[j].data.name@)
        &&& (forall|i: int| 0 <= i < self.players@.len() ==> self.players@[i].data.wf())
        &&& self.shines@.no_duplicates()
    }

    /// A guid is connected.
    pub open spec fn has_player(self, g: Guid) -> bool {
        exists|i: int| 0 <= i < self.players@.len() && self.players@[i].guid == g
    }

    /// A name is bound.
    pub open spec fn has_name(self, name: Seq<char>) -> bool {
        exists|i: int| 0 <= i < self.players@.len() && self.players@[i].data.name@ == name
    }

    /// An empty lobby over a settings snapshot and a (possibly loaded)
    /// starting shine set.
    pub fn new(settings: Settings, shines: Vec<i32>) -> (r: Lobby)
        requires
            shines@.no_duplicates(),
        ensures
            r.wf(),
            r.players@ == Seq::<PlayerEntry>::empty(),
            r.shines == shines,
            r.settings == settings,
    {
        Lobby { players: Vec::new(), shines, settings }
    }

    /// The index of a connected guid.
    pub fn find_player(&self, g: Guid) -> (r: Option<usize>)
        ensures
            match r {
                Option::Some(i) => i < self.players@.len() && self.players@[i as int].guid == g,
                Option::None => !self.has_player(g),
            },
    {
        let mut i: usize = 0;
        while i < self.players.len()
            invariant
                0 <= i <= self.players@.len(),
                forall|j: int| 0 <= j < i ==> self.players@[j].guid != g,
            decreases self.players@.len() - i,
        {
            if self.players[i].guid.id == g.id {
                return Some(i);
            }
            i = i + 1;
        }
        None
    }

    /// Whether a guid is connected.
    pub fn contains_player(&self, g: Guid) -> (r: bool)
        ensures
            r == self.has_player(g),
    {
        self.find_player(g).is_some()
    }

    /// Whether a name is already bound to a connected player.
    pub fn name_bound(&self, name: &String) -> (r: bool)
        ensures
            r == self.has_name(name@),
    {
        let mut i: usize = 0;
        while i < self.players.len()
            invariant
                0 <= i <= self.players@.len(),
                forall|j: int| 0 <= j < i ==> self.players@[j].data.name@ != name@,
            decreases self.players@.len() - i,
        {
            if self.players[i].data.name.eq(name) {
                return true;
            }
            i = i + 1;
        }
        false
    }

    /// Register a new player; the caller has ruled duplicates out.
    pub fn insert_player(&mut self, g: Guid, data: PlayerData)
        requires
            old(self).wf(),
            !old(self).has_player(g),
            !old(self).has_name(data.name@),
            data.wf(),
        ensures
            final(self).wf(),
            final(self).players@ == old(self).players@.push(PlayerEntry { guid: g, data }),
            final(self).shines == old(self).shines,
            final(self).settings == old(self).settings,
    {
        self.players.push(PlayerEntry { guid: g, data });
    }

    /// Remove a player, returning its record; the lobby is unchanged when the
    /// guid is not connected.
    pub fn remove_player(&mut self, g: Guid) -> (r: Option<PlayerData>)
        requires
            old(self).wf(),
        ensures
            final(self).wf(),
            final(self).shines == old(self).shines,
            final(self).settings == old(self).settings,
            !final(self).has_player(g),
            match r {
                Option::Some(_) => {
                    &&& old(self).has_player(g)
                    &&& exists|i: int|
                        0 <= i < old(self).players@.len() && old(self).players@[i].guid == g && (
                        final(self).players@ == old(self).players@.remove(i))
                },
                Option::None => !old(self).has_player(g) && final(self).players@ == old(
                    self,
                ).players@,
            },
    {
        match self.find_player(g) {
            Some(i) => {
                let ghost old_players = self.players@;
                let entry = self.players.remove(i);
                proof {
                    assert(self.players@ == old_players.remove(i as int));
                    assert forall|k: int|
                        0 <= k < self.players@.len() implies self.players@[k].guid != g by {
                        if k < i {
                            assert(self.players@[k] == old_players[k]);
                        } else {
                            assert(self.players@[k] == old_players[k + 1]);
                        }
                    }
                }
                Some(entry.data)
            },
            None => None,
        }
    }

    /// The index of a bound name.
    pub fn find_name(&self, name: &String) -> (r: Option<usize>)
        ensures
            match r {
                Option::Some(i) => i < self.players@.len() && self.players@[i as int].data.name@
                    == name@,
                Option::None => !self.has_name(name@),
            },
    {
        let mut i: usize = 0;
        while i < self.players.len()
            invariant
                0 <= i <= self.players@.len(),
                forall|j: int| 0 <= j < i ==> self.players@[j].data.name@ != name@,
            decreases self.players@.len() - i,
        {
            if self.players[i].data.name.eq(name) {
                return Some(i);
            }
            i = i + 1;
        }
        None
    }

    /// Remove the player bound to a name, if any.
    pub fn remove_player_by_name(&mut self, name: &String) -> (r: Option<PlayerData>)
        requires
            old(self).wf(),
        ensures
            final(self).wf(),
            final(self).shines == old(self).shines,
            final(self).settings == old(self).settings,
            !final(self).has_name(name@),
            match r {
                Option::Some(_) => {
                    &&& old(self).has_name(name@)
                    &&& exists|i: int|
                        0 <= i < old(self).players@.len() && old(self).players@[i].data.name@
                            == name@ && (final(self).players@ == old(self).players@.remove(i))
                },
                Option::None => !old(self).has_name(name@) && final(self).players@ == old(
                    self,
                ).players@,
            },
    {
        match self.find_name(name) {
            Some(i) => {
                let ghost old_players = self.players@;
                let entry = self.players.remove(i);
                proof {
                    assert(self.players@ == old_players.remove(i as int));
                    assert forall|k: int|
                        0 <= k < self.players@.len() implies self.players@[k].data.name@
                        != name@ by {
                        if k < i {
                            assert(self.players@[k] == old_players[k]);
                        } else {
                            assert(self.players@[k] == old_players[k + 1]);
                        }
                    }
                }
                Some(entry.data)
            },
            None => None,
        }
    }

    /// The index at which a connected guid stands.
    pub open spec fn player_index(self, g: Guid) -> int {
        choose|i: int| 0 <= i < self.players@.len() && self.players@[i].guid == g
    }

    /// With unique guids, any index bearing the guid is the index.
    pub proof fn lemma_player_index_unique(self, g: Guid, i: int)
        requires
            self.wf(),
            0 <= i < self.players@.len(),
            self.players@[i].guid == g,
        ensures
            self.player_index(g) == i,
            self.has_player(g),
    {
        let j = self.player_index(g);
        assert(0 <= j < self.players@.len() && self.players@[j].guid == g);
        if i != j {
            assert(false);
        }
    }

    /// Fire the new-save gate for the player at `i`: disable its shine sync
    /// and forget its collected shines.
    pub fn fire_shine_gate(&mut self, i: usize)
        requires
            old(self).wf(),
            i < old(self).players@.len(),
        ensures
            final(self).wf(),
            final(self).shines == old(self).shines,
            final(self).settings == old(self).settings,
            final(self).players@.len() == old(self).players@.len(),
            forall|j: int|
                0 <= j < old(self).players@.len() && j != i ==> final(self).players@[j] == old(
                    self,
                ).players@[j],
            final(self).players@[i as int].guid == old(self).players@[i as int].guid,
            final(self).players@[i as int].data == (crate::player::PlayerData {
                disable_shine_sync: true,
                shine_sync: final(self).players@[i as int].data.shine_sync,
                ..old(self).players@[i as int].data
            }),
            final(self).players@[i as int].data.shine_sync@ == Seq::<i32>::empty(),
    {
        self.players[i].data.disable_shine_sync = true;
        self.players[i].data.shine_sync = Vec::new();
    }

    /// Set whether shine sync is disabled for the player at `i`.
    pub fn set_disable_shine_sync(&mut self, i: usize, v: bool)
        requires
            old(self).wf(),
            i < old(self).players@.len(),
        ensures
            final(self).wf(),
            final(self).shines == old(self).shines,
            final(self).settings == old(self).settings,
            final(self).players@.len() == old(self).players@.len(),
            forall|j: int|
                0 <= j < old(self).players@.len() && j != i ==> final(self).players@[j] == old(
                    self,
                ).players@[j],
            final(self).players@[i as int].guid == old(self).players@[i as int].guid,
            final(self).players@[i as int].data == (crate::player::PlayerData {
                disable_shine_sync: v,
                ..old(self).players@[i as int].data
            }),
    {
        self.players[i].data.disable_shine_sync = v;
    }

    /// Forget the collected shines of the player at `i`.
    pub fn clear_player_shine_sync(&mut self, i: usize)
        requires
            old(self).wf(),
            i < old(self).players@.len(),
        ensures
            final(self).wf(),
            final(self).shines == old(self).shines,
            final(self).settings == old(self).settings,
            final(self).players@.len() == old(self).players@.len(),
            forall|j: int|
                0 <= j < old(self).players@.len() && j != i ==> final(self).players@[j] == old(
                    self,
                ).players@[j],
            final(self).players@[i as int].guid == old(self).players@[i as int].guid,
            final(self).players@[i as int].data == (crate::player::PlayerData {
                shine_sync: final(self).players@[i as int].data.shine_sync,
                ..old(self).players@[i as int].data
            }),
            final(self).players@[i as int].data.shine_sync@ == Seq::<i32>::empty(),
    {
        self.players[i].data.shine_sync = Vec::new();
    }

    /// Forget every collected shine the server remembers.
    pub fn clear_shines(&mut self)
        requires
            old(self).wf(),
        ensures
            final(self).wf(),
            final(self).players == old(self).players,
            final(self).settings == old(self).settings,
            final(self).shines@ == Seq::<i32>::empty(),
    {
        self.shines = Vec::new();
    }

    /// Remember a collected shine.
    pub fn insert_shine(&mut self, id: i32)
        requires
            old(self).wf(),
        ensures
            final(self).wf(),
            final(self).players == old(self).players,
            final(self).settings == old(self).settings,
            final(self).shines@.to_set() == old(self).shines@.to_set().insert(id),
    {
        shine_set_insert(&mut self.shines, id);
    }

    /// How many players are connected.
    pub fn player_count(&self) -> (r: usize)
        ensures
            r == self.players@.len(),
    {
        self.players.len()
    }
}

// ---------------------------------------------------------------------------
// Shine sets (vectors free of duplicates)
// ---------------------------------------------------------------------------

/// Insert an id into a shine set; inserting an id twice changes nothing.
pub fn shine_set_insert(v: &mut Vec<i32>, x: i32)
    requires
        old(v)@.no_duplicates(),
    ensures
        final(v)@.no_duplicates(),
        final(v)@.to_set() == old(v)@.to_set().insert(x),
        old(v)@.contains(x) ==> final(v)@ == old(v)@,
        !old(v)@.contains(x) ==> final(v)@ == old(v)@.push(x),
{
    if !crate::settings::i32s_contain(v, x) {
        v.push(x);
        proof {
            old(v)@.lemma_push_to_set_commute(x);
        }
    } else {
        proof {
            assert(old(v)@.to_set().contains(x));
            assert(v@.to_set() =~= old(v)@.to_set().insert(x));
        }
    }
}

} // verus!
