//! Typed commands: what client tasks and external collaborators post on the
//! coordinator queue, and what the coordinator hands back to client tasks.

use vstd::prelude::*;

verus! {

use crate::guid::Guid;
use crate::lobby::Lobby;
use crate::packet::{Packet, PacketView};
use crate::player::PlayerData;
use crate::settings::IpAddress;

broadcast use vstd::seq_lib::group_seq_properties;

/// What a client task receives from the coordinator or the broadcast bus.
#[derive(Debug)]
pub enum ClientCommand {
    /// An already-addressed packet to forward.
    Packet(Packet),
    /// A packet whose id is rewritten to the receiving client's guid before
    /// transmission.
    SelfAddressed(Packet),
}

/// Spec-level client command.
#[verifier::ext_equal]
pub enum ClientCommandView {
    Packet(PacketView),
    SelfAddressed(PacketView),
}

impl View for ClientCommand {
    type V = ClientCommandView;

    open spec fn view(&self) -> ClientCommandView {
        match self {
            ClientCommand::Packet(p) => ClientCommandView::Packet(p@),
            ClientCommand::SelfAddressed(p) => ClientCommandView::SelfAddressed(p@),
        }
    }
}

impl Clone for ClientCommand {
    /// Clones carry the same packet.
    fn clone(&self) -> (res: Self)
        ensures
            res@ == self@,
    {
        match self {
            ClientCommand::Packet(p) => ClientCommand::Packet(p.clone()),
            ClientCommand::SelfAddressed(p) => ClientCommand::SelfAddressed(p.clone()),
        }
    }
}

/// What reaches the coordinator queue.
#[derive(Debug)]
pub enum Command {
    /// A packet a client task forwarded.
    Packet(Packet),
    /// An administrative operation (console or JSON API); the reply string
    /// travels back on a channel the caller owns.
    External(ExternalCommand),
    /// Connection lifecycle.
    Server(ServerCommand),
}

/// Connection lifecycle commands.
#[derive(Debug)]
pub enum ServerCommand {
    NewPlayer { guid: Guid, data: PlayerData, connect_packet: Packet },
    DisconnectPlayer { guid: Guid },
}

/// The one server-wide broadcast: shut everything down.
#[derive(Clone, Copy, Debug, PartialEq, Eq, Structural)]
pub enum ServerWideCommand {
    Shutdown,
}

/// Administrative operations posted with a reply channel.
#[derive(Debug)]
pub enum ExternalCommand {
    Player { players: Players, command: PlayerCommand },
    Shine { command: ShineCommand },
}

/// Operations on a selection of players.
#[derive(Debug)]
pub enum PlayerCommand {
    Send { stage: String, id: String, scenario: i8 },
    Disconnect,
    Crash,
    Tag { time: Option<(u16, u8)>, is_seeking: Option<bool> },
    SendShine { id: i32 },
}

/// Operations on the server's shine set.
#[derive(Clone, Copy, Debug, PartialEq, Eq, Structural)]
pub enum ShineCommand {
    Sync,
    Clear,
}

/// Errors of the administrative surface.
#[derive(Debug)]
pub enum CommandError {
    /// A guid in a selection is not connected.
    InvalidID(Guid),
    /// A console argument did not parse.
    InvalidConsoleArg(String),
}

/// A selection of players: everyone, or the listed guids.
#[derive(Debug)]
pub enum Players {
    All,
    Individual(Vec<Guid>),
}

impl Players {
    /// The selected guids, in lobby order for `All`.
    pub fn flatten(self, lobby: &Lobby) -> (r: Vec<Guid>)
        ensures
            self matches Players::All ==> r@ == Seq::new(
                lobby.players@.len(),
                |i: int| lobby.players@[i].guid,
            ),
            self matches Players::Individual(p) ==> r@ == p@,
    {
        match self {
            Players::All => {
                let mut guids: Vec<Guid> = Vec::new();
                let mut i: usize = 0;
                while i < lobby.players.len()
                    invariant
                        0 <= i <= lobby.players@.len(),
                        guids@ =~= Seq::new(i as nat, |j: int| lobby.players@[j].guid),
                    decreases lobby.players@.len() - i,
                {
                    guids.push(lobby.players[i].guid);
                    proof {
                        assert(guids@ =~= Seq::new((i + 1) as nat, |j: int| lobby.players@[j].guid));
                    }
                    i = i + 1;
                }
                proof {
                    assert(guids@ =~= Seq::new(lobby.players@.len(), |j: int| lobby.players@[j].guid));
                }
                guids
            },
            Players::Individual(p) => p,
        }
    }

    /// The selected guids as a set: every connected guid for `All`, the
    /// listed ones (each once) otherwise.
    pub fn get_guids(&self, lobby: &Lobby) -> (r: Vec<Guid>)
        ensures
            r@.no_duplicates(),
            self matches Players::All ==> (forall|g: Guid|
                r@.contains(g) == lobby.has_player(g)),
            self matches Players::Individual(p) ==> (forall|g: Guid|
                r@.contains(g) == p@.contains(g)),
    {
        let mut out: Vec<Guid> = Vec::new();
        match self {
            Players::All => {
                let mut i: usize = 0;
                while i < lobby.players.len()
                    invariant
                        0 <= i <= lobby.players@.len(),
                        out@.no_duplicates(),
                        forall|g: Guid|
                            out@.contains(g) == (exists|j: int|
                                0 <= j < i && lobby.players@[j].guid == g),
                    decreases lobby.players@.len() - i,
                {
                    let g = lobby.players[i].guid;
                    if !crate::settings::guids_contain(&out, g) {
                        out.push(g);
                    }
                    i = i + 1;
                }
                out
            },
            Players::Individual(p) => {
                let mut i: usize = 0;
                while i < p.len()
                    invariant
                        0 <= i <= p@.len(),
                        out@.no_duplicates(),
                        forall|g: Guid| out@.contains(g) == p@.take(i as int).contains(g),
                    decreases p@.len() - i,
                {
                    proof {
                        assert(p@.take(i + 1).drop_last() =~= p@.take(i as int));
                    }
                    let g = p[i];
                    if !crate::settings::guids_contain(&out, g) {
                        out.push(g);
                    }
                    proof {
                        assert forall|h: Guid|
                            out@.contains(h) == p@.take(i + 1).contains(h) by {
                            if p@.take(i + 1).contains(h) {
                                let k = choose|k: int| 0 <= k < i + 1 && #[trigger] p@.take(i + 1)[k] == h;
                                if k < i {
                                    assert(p@.take(i as int).contains(h));
                                }
                            }
                            if out@.contains(h) && h != p@[i as int] {
                                assert(p@.take(i as int).contains(h));
                                let k = choose|k: int|
                                    0 <= k < i && #[trigger] p@.take(i as int)[k] == h;
                                assert(p@.take(i + 1)[k] == h);
                            }
                            if h == p@[i as int] {
                                assert(p@.take(i + 1)[i as int] == h);
                            }
                        }
                    }
                    i = i + 1;
                }
                proof {
                    assert(p@.take(p@.len() as int) =~= p@);
                }
                out
            },
        }
    }

    /// An address some selected connected player has.
    pub open spec fn spec_has_selected_ip(self, lobby: Lobby, ip: IpAddress) -> bool {
        exists|i: int|
            0 <= i < lobby.players@.len() && #[trigger] lobby.players@[i].data.ipv4
                == Option::Some(ip) && self.spec_selects(lobby.players@[i].guid)
    }

    /// The selected players' addresses, each once: every address returned is
    /// a selected player's, and every selected player's known address is
    /// returned.
    pub fn get_ipv4s(&self, lobby: &Lobby) -> (r: Vec<IpAddress>)
        ensures
            r@.no_duplicates(),
            forall|k: int|
                0 <= k < r@.len() ==> self.spec_has_selected_ip(*lobby, #[trigger] r@[k]),
            forall|j: int|
                #![trigger lobby.players@[j]]
                0 <= j < lobby.players@.len() && self.spec_selects(lobby.players@[j].guid)
                    && lobby.players@[j].data.ipv4 is Some ==> r@.contains(
                    lobby.players@[j].data.ipv4.unwrap(),
                ),
    {
        let mut out: Vec<IpAddress> = Vec::new();
        let mut i: usize = 0;
        while i < lobby.players.len()
            invariant
                0 <= i <= lobby.players@.len(),
                out@.no_duplicates(),
                forall|k: int|
                    0 <= k < out@.len() ==> self.spec_has_selected_ip(*lobby, #[trigger] out@[k]),
                forall|j: int|
                    #![trigger lobby.players@[j]]
                    0 <= j < i && self.spec_selects(lobby.players@[j].guid)
                        && lobby.players@[j].data.ipv4 is Some ==> out@.contains(
                        lobby.players@[j].data.ipv4.unwrap(),
                    ),
            decreases lobby.players@.len() - i,
        {
            let selected = self.selects(lobby.players[i].guid);
            if selected {
                match lobby.players[i].data.ipv4 {
                    Some(ip) => {
                        if !crate::settings::ips_contain(&out, ip) {
                            let ghost pre = out@;
                            out.push(ip);
                            proof {
                                assert(lobby.players@[i as int].data.ipv4 == Option::Some(ip));
                                assert(self.spec_has_selected_ip(*lobby, ip));
                                assert forall|k: int|
                                    0 <= k < out@.len() implies self.spec_has_selected_ip(
                                    *lobby,
                                    #[trigger] out@[k],
                                ) by {
                                    if k < pre.len() {
                                        assert(out@[k] == pre[k]);
                                    } else {
                                        assert(out@[k] == ip);
                                    }
                                }
                            }
                        }
                    },
                    None => {},
                }
            }
            i = i + 1;
        }
        out
    }

    /// A name some selected connected player bears.
    pub open spec fn spec_has_selected_name(self, lobby: Lobby, name: Seq<char>) -> bool {
        exists|i: int|
            0 <= i < lobby.players@.len() && #[trigger] lobby.players@[i].data.name@ == name
                && self.spec_selects(lobby.players@[i].guid)
    }

    /// A name stands in the output.
    pub open spec fn spec_name_listed(out: Seq<String>, name: Seq<char>) -> bool {
        exists|k: int| 0 <= k < out.len() && #[trigger] out[k]@ == name
    }

    /// The selected players' names, each once: every name returned belongs to
    /// a selected player, and every selected player's name is returned.
    pub fn get_names(&self, lobby: &Lobby) -> (r: Vec<String>)
        ensures
            forall|k: int|
                #![trigger r@[k]]
                0 <= k < r@.len() ==> self.spec_has_selected_name(*lobby, r@[k]@),
            forall|j: int|
                #![trigger lobby.players@[j]]
                0 <= j < lobby.players@.len() && self.spec_selects(lobby.players@[j].guid)
                    ==> Players::spec_name_listed(r@, lobby.players@[j].data.name@),
    {
        let mut out: Vec<String> = Vec::new();
        let mut i: usize = 0;
        while i < lobby.players.len()
            invariant
                0 <= i <= lobby.players@.len(),
                forall|k: int|
                    #![trigger out@[k]]
                    0 <= k < out@.len() ==> self.spec_has_selected_name(*lobby, out@[k]@),
                forall|j: int|
                    #![trigger lobby.players@[j]]
                    0 <= j < i && self.spec_selects(lobby.players@[j].guid)
                        ==> Players::spec_name_listed(out@, lobby.players@[j].data.name@),
            decreases lobby.players@.len() - i,
        {
            let selected = self.selects(lobby.players[i].guid);
            if selected {
                let ghost pre = out@;
                if !crate::settings::strings_contain(&out, &lobby.players[i].data.name) {
                    let name = lobby.players[i].data.name.clone();
                    out.push(name);
                    proof {
                        assert(lobby.players@[i as int].data.name@ == name@);
                        assert(self.spec_has_selected_name(*lobby, name@));
                        assert forall|k: int|
                            #![trigger out@[k]]
                            0 <= k < out@.len() implies self.spec_has_selected_name(
                            *lobby,
                            out@[k]@,
                        ) by {
                            if k < pre.len() {
                                assert(out@[k] == pre[k]);
                            } else {
                                assert(out@[k] == name);
                            }
                        }
                        assert(out@[pre.len() as int]@ == lobby.players@[i as int].data.name@);
                        assert forall|n: Seq<char>|
                            Players::spec_name_listed(pre, n) implies Players::spec_name_listed(
                            out@,
                            n,
                        ) by {
                            let k = choose|k: int| 0 <= k < pre.len() && #[trigger] pre[k]@ == n;
                            assert(out@[k]@ == n);
                        }
                    }
                } else {
                    proof {
                        assert(Players::spec_name_listed(
                            out@,
                            lobby.players@[i as int].data.name@,
                        )) by {
                            let j = choose|j: int|
                                0 <= j < out@.len() && #[trigger] out@[j]@ == lobby.players@[
                                    i as int
                                ].data.name@;
                            assert(out@[j]@ == lobby.players@[i as int].data.name@);
                        }
                    }
                }
            }
            i = i + 1;
        }
        out
    }

    /// Whether a guid falls under this selection.
    pub open spec fn spec_selects(self, g: Guid) -> bool {
        match self {
            Players::All => true,
            Players::Individual(p) => p@.contains(g),
        }
    }

    fn selects(&self, g: Guid) -> (r: bool)
        ensures
            r == self.spec_selects(g),
    {
        match self {
            Players::All => true,
            Players::Individual(p) => crate::settings::guids_contain(p, g),
        }
    }

    /// Every selected guid is connected.
    pub open spec fn spec_all_connected(self, lobby: Lobby) -> bool {
        match self {
            Players::All => true,
            Players::Individual(p) => forall|j: int|
                0 <= j < p@.len() ==> lobby.has_player(p@[j]),
        }
    }

    /// Check that every selected guid is connected; the first that is not is
    /// named in the error.
    #[verifier::loop_isolation(false)]
    pub fn verify(&self, lobby: &Lobby) -> (r: Result<(), CommandError>)
        ensures
            r is Ok <==> self.spec_all_connected(*lobby),
            r matches Result::Err(e) ==> (e matches CommandError::InvalidID(g)
                && self.spec_selects(g) && !lobby.has_player(g)),
            // The named guid is the first unconnected one in the list.
            r matches Result::Err(e) ==> (e matches CommandError::InvalidID(g)
                && self matches Players::Individual(p) && (exists|i: int|
                #![trigger p@[i]]
                0 <= i < p@.len() && p@[i] == g && (forall|j: int|
                    0 <= j < i ==> lobby.has_player(p@[j])))),
    {
        match self {
            Players::All => Result::Ok(()),
            Players::Individual(p) => {
                let mut i: usize = 0;
                while i < p.len()
                    invariant
                        0 <= i <= p@.len(),
                        forall|j: int| 0 <= j < i ==> lobby.has_player(p@[j]),
                    decreases p@.len() - i,
                {
                    let bad = p[i];
                    if !lobby.contains_player(bad) {
                        proof {
                            assert(p@.contains(bad));
                            assert(!self.spec_all_connected(*lobby)) by {
                                assert(!lobby.has_player(p@[i as int]));
                            }
                            assert(p@[i as int] == bad && (forall|j: int|
                                0 <= j < i ==> lobby.has_player(p@[j])));
                        }
                        return Result::Err(CommandError::InvalidID(bad));
                    }
                    i = i + 1;
                }
                Result::Ok(())
            },
        }
    }
}

} // verus!
