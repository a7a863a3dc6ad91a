//! Server settings: a plain snapshot consumed by the core.
//!
//! The interactive console and the JSON API own the settings file; the core
//! only reads a snapshot of these values.

use vstd::prelude::*;

verus! {

use crate::guid::Guid;
use vstd::string::StringExecFns;

/// An IP address as plain values: four octets or one 128-bit value.
#[derive(Clone, Copy, Debug, PartialEq, Eq, Structural)]
pub enum IpAddress {
    V4(u8, u8, u8, u8),
    V6(u128),
}

#[derive(Clone, Debug)]
pub struct ServerSettings {
    pub address: IpAddress,
    pub port: u16,
    pub max_players: u16,
}

impl Default for ServerSettings {
    fn default() -> (r: Self)
        ensures
            r.address == IpAddress::V4(0, 0, 0, 0),
            r.port == 1027,
            r.max_players == 8,
    {
        ServerSettings { address: IpAddress::V4(0, 0, 0, 0), port: 1027, max_players: 8 }
    }
}

#[derive(Clone, Debug)]
pub struct UdpSettings {
    pub base_port: u16,
    pub port_count: u16,
    pub initiate_handshake: bool,
}

impl Default for UdpSettings {
    fn default() -> (r: Self)
        ensures
            r.base_port == 0,
            r.port_count == 1,
            !r.initiate_handshake,
    {
        UdpSettings { base_port: 0, port_count: 1, initiate_handshake: false }
    }
}

/// Whose view of the world the axis flip changes.
#[derive(Clone, Copy, Debug, PartialEq, Eq, Structural)]
pub enum FlipPovSettings {
    Both,
    Player,
    Others,
}

impl FlipPovSettings {
    /// True when packets sent to a flipped player are transformed.
    pub fn is_self_flip(&self) -> (r: bool)
        ensures
            r == (*self == FlipPovSettings::Both || *self == FlipPovSettings::Player),
    {
        match self {
            FlipPovSettings::Both => true,
            FlipPovSettings::Player => true,
            FlipPovSettings::Others => false,
        }
    }

    /// True when packets coming from a flipped player are transformed.
    pub fn is_others_flip(&self) -> (r: bool)
        ensures
            r == (*self == FlipPovSettings::Both || *self == FlipPovSettings::Others),
    {
        match self {
            FlipPovSettings::Both => true,
            FlipPovSettings::Player => false,
            FlipPovSettings::Others => true,
        }
    }
}

impl Default for FlipPovSettings {
    fn default() -> (r: Self)
        ensures
            r == FlipPovSettings::Both,
    {
        FlipPovSettings::Both
    }
}

#[derive(Clone, Debug)]
pub struct FlipSettings {
    pub enabled: bool,
    pub players: Vec<Guid>,
    pub pov: FlipPovSettings,
}

impl Default for FlipSettings {
    fn default() -> (r: Self)
        ensures
            r.enabled,
            r.players@ == Seq::<Guid>::empty(),
            r.pov == FlipPovSettings::Both,
    {
        FlipSettings { enabled: true, players: Vec::new(), pov: FlipPovSettings::Both }
    }
}

#[derive(Clone, Debug)]
pub struct ScenarioSettings {
    pub merge_enabled: bool,
}

impl Default for ScenarioSettings {
    fn default() -> (r: Self)
        ensures
            !r.merge_enabled,
    {
        ScenarioSettings { merge_enabled: false }
    }
}

#[derive(Clone, Debug)]
pub struct BanListSettings {
    pub enabled: bool,
    pub players: Vec<Guid>,
    pub ip_addresses: Vec<IpAddress>,
    pub stages: Vec<String>,
    pub game_modes: Vec<i8>,
}

impl Default for BanListSettings {
    fn default() -> (r: Self)
        ensures
            !r.enabled,
            r.players@ == Seq::<Guid>::empty(),
            r.ip_addresses@ == Seq::<IpAddress>::empty(),
            r.stages@ == Seq::<String>::empty(),
            r.game_modes@ == Seq::<i8>::empty(),
    {
        BanListSettings {
            enabled: false,
            players: Vec::new(),
            ip_addresses: Vec::new(),
            stages: Vec::new(),
            game_modes: Vec::new(),
        }
    }
}

#[derive(Clone, Debug)]
pub struct DiscordSettings {
    pub token: Option<String>,
    pub prefix: String,
    pub log_channel: Option<String>,
}

impl Default for DiscordSettings {
    fn default() -> (r: Self)
        ensures
            r.token is None,
            r.prefix@ == "$"@,
            r.log_channel is None,
    {
        DiscordSettings { token: None, prefix: String::from_str("$"), log_channel: None }
    }
}

#[derive(Clone, Debug)]
pub struct ShineSettings {
    pub enabled: bool,
    pub excluded: Vec<i32>,
}

impl Default for ShineSettings {
    fn default() -> (r: Self)
        ensures
            r.enabled,
            r.excluded@ == Seq::<i32>::empty(),
    {
        ShineSettings { enabled: true, excluded: Vec::new() }
    }
}

#[derive(Clone, Debug)]
pub struct PersistShine {
    pub enabled: bool,
    pub filename: String,
}

impl Default for PersistShine {
    fn default() -> (r: Self)
        ensures
            !r.enabled,
            r.filename@ == "./moons.json"@,
    {
        PersistShine { enabled: false, filename: String::from_str("./moons.json") }
    }
}

/// One API token and the permissions granted to it.
#[derive(Clone, Debug)]
pub struct TokenEntry {
    pub token: String,
    pub permissions: Vec<String>,
}

#[derive(Clone, Debug)]
pub struct JsonApiSettings {
    pub enabled: bool,
    pub port: u16,
    pub tokens: Vec<TokenEntry>,
}

impl Default for JsonApiSettings {
    fn default() -> (r: Self)
        ensures
            !r.enabled,
            r.port == 0,
            r.tokens@ == Seq::<TokenEntry>::empty(),
    {
        JsonApiSettings { enabled: false, port: 0, tokens: Vec::new() }
    }
}

#[derive(Clone, Debug)]
pub struct Settings {
    pub server: ServerSettings,
    pub udp: UdpSettings,
    pub flip: FlipSettings,
    pub scenario: ScenarioSettings,
    pub ban_list: BanListSettings,
    pub discord: DiscordSettings,
    pub shines: ShineSettings,
    pub persist_shines: PersistShine,
    pub json_api: JsonApiSettings,
}

impl Default for Settings {
    fn default() -> (r: Self)
        ensures
            r.flip.enabled,
            r.flip.players@ == Seq::<Guid>::empty(),
            !r.scenario.merge_enabled,
            !r.ban_list.enabled,
            r.shines.enabled,
            r.shines.excluded@ == Seq::<i32>::empty(),
            !r.persist_shines.enabled,
            !r.json_api.enabled,
            r.server.max_players == 8,
            !r.udp.initiate_handshake,
    {
        Settings {
            server: Default::default(),
            udp: Default::default(),
            flip: Default::default(),
            scenario: Default::default(),
            ban_list: Default::default(),
            discord: Default::default(),
            shines: Default::default(),
            persist_shines: Default::default(),
            json_api: Default::default(),
        }
    }
}

// ---------------------------------------------------------------------------
// Membership tests on the plain sets
// ---------------------------------------------------------------------------

/// Whether a guid stands in a list.
pub fn guids_contain(v: &Vec<Guid>, g: Guid) -> (r: bool)
    ensures
        r == v@.contains(g),
{
    let mut i: usize = 0;
    while i < v.len()
        invariant
            0 <= i <= v@.len(),
            forall|j: int| 0 <= j < i ==> v@[j] != g,
        decreases v@.len() - i,
    {
        if v[i].id == g.id {
            return true;
        }
        i = i + 1;
    }
    false
}

/// Whether an address stands in a list.
pub fn ips_contain(v: &Vec<IpAddress>, ip: IpAddress) -> (r: bool)
    ensures
        r == v@.contains(ip),
{
    let mut i: usize = 0;
    while i < v.len()
        invariant
            0 <= i <= v@.len(),
            forall|j: int| 0 <= j < i ==> v@[j] != ip,
        decreases v@.len() - i,
    {
        let same = match (v[i], ip) {
            (IpAddress::V4(a0, a1, a2, a3), IpAddress::V4(b0, b1, b2, b3)) => {
                a0 == b0 && a1 == b1 && a2 == b2 && a3 == b3
            },
            (IpAddress::V6(a), IpAddress::V6(b)) => a == b,
            _ => false,
        };
        if same {
            return true;
        }
        i = i + 1;
    }
    false
}

/// Whether a string with this content stands in a list.
pub fn strings_contain(v: &Vec<String>, s: &String) -> (r: bool)
    ensures
        r == (exists|j: int| 0 <= j < v@.len() && v@[j]@ == s@),
{
    let mut i: usize = 0;
    while i < v.len()
        invariant
            0 <= i <= v@.len(),
            forall|j: int| 0 <= j < i ==> v@[j]@ != s@,
        decreases v@.len() - i,
    {
        if v[i].eq(s) {
            return true;
        }
        i = i + 1;
    }
    false
}

/// Whether an id stands in a list.
pub fn i32s_contain(v: &Vec<i32>, x: i32) -> (r: bool)
    ensures
        r == v@.contains(x),
{
    let mut i: usize = 0;
    while i < v.len()
        invariant
            0 <= i <= v@.len(),
            forall|j: int| 0 <= j < i ==> v@[j] != x,
        decreases v@.len() - i,
    {
        if v[i] == x {
            return true;
        }
        i = i + 1;
    }
    false
}

} // verus!
