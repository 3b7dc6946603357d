//! The launch plan: what the settings, the environment and the reindex
//! markers make of the daemon's command line.

use vstd::prelude::*;
use vstd::string::*;

verus! {

/// Where the settings document is expected.
pub const SETTINGS_PATH: &'static str = "/root/.bitcoin/start9/config.yaml";

/// Seconds between two looks for a settings document that is not there yet.
pub const SETTINGS_POLL_SECS: u64 = 1;

/// The template of the daemon's configuration file.
pub const TEMPLATE_PATH: &'static str = "/mnt/assets/bitcoin.conf.template";

/// Where the rendered configuration file goes.
pub const CONFIG_PATH: &'static str = "/root/.bitcoin/bitcoin.conf";

/// Where the list of directories to keep out of backups goes.
pub const BACKUP_IGNORE_PATH: &'static str = "/root/.bitcoin/.backupignore";

/// The daemon's executable.
pub const DAEMON: &'static str = "bitcoind";

/// The daemon's RPC endpoint, which the proxy of a pruned node fronts.
pub const DAEMON_RPC_URL: &'static str = "http://127.0.0.1:18332/";

/// The port on which that proxy listens.
pub const PROXY_PORT: u16 = 48332;

/// How long the proxy waits for a peer, in seconds.
pub const PEER_TIMEOUT_SECS: u64 = 30;

/// How long the proxy keeps a peer it has learned of, in seconds.
pub const MAX_PEER_AGE_SECS: u64 = 300;

/// How many peers the proxy asks at a time.
pub const MAX_PEER_CONCURRENCY: usize = 1;

/// The fields of the settings document that the supervisor reads.
#[derive(Clone, Debug, PartialEq, Eq)]
pub struct Settings {
    /// `rpc.username`, when it is a string.
    pub rpc_username: Option<String>,
    /// `rpc.password`, when it is a string.
    pub rpc_password: Option<String>,
    /// `advanced.peers.onlyonion`, when it is a boolean.
    pub only_onion: Option<bool>,
    /// `advanced.pruning.mode`, when it is a string.
    pub pruning_mode: Option<String>,
}

/// The addresses that the environment provides.
#[derive(Clone, Debug, PartialEq, Eq)]
pub struct Environment {
    /// `EMBASSY_IP`: the address of the local Tor instance.
    pub embassy_ip: Option<String>,
    /// `PEER_TOR_ADDRESS`: the address advertised to peers.
    pub peer_tor_address: Option<String>,
    /// `RPC_TOR_ADDRESS`: the onion address of the RPC endpoint.
    pub rpc_tor_address: Option<String>,
}

/// An environment variable that startup needs.
#[derive(Clone, Copy, Debug, PartialEq, Eq, Structural)]
pub enum EnvVar {
    EmbassyIp,
    PeerTorAddress,
    RpcTorAddress,
}

/// Why startup stops before the daemon is spawned.
#[derive(Clone, Copy, Debug, PartialEq, Eq, Structural)]
pub enum StartupError {
    /// The named variable is not set.
    MissingEnv(EnvVar),
    /// The marker exists and cannot be deleted.
    MarkerStuck(Marker),
}

/// A marker file whose presence asks for a one-shot reindex.
#[derive(Clone, Copy, Debug, PartialEq, Eq, Structural)]
pub enum Marker {
    Reindex,
    ReindexChainstate,
}

/// Which marker files exist.
#[derive(Clone, Copy, Debug, PartialEq, Eq, Structural)]
pub struct Markers {
    pub reindex: bool,
    pub reindex_chainstate: bool,
}

/// How the removal of a marker file ended.
#[derive(Clone, Copy, Debug, PartialEq, Eq, Structural)]
pub enum Removal {
    Removed,
    NotFound,
    Failed,
}

/// What the proxy in front of a pruned node is started with.
#[derive(Clone, Debug, PartialEq, Eq)]
pub struct ProxyPlan {
    /// The SOCKS address of the local Tor instance.
    pub tor_proxy: String,
    /// Whether peers are reached through Tor only, as far as the settings say.
    pub only_onion: Option<bool>,
}

/// Everything that startup does after the settings and the environment
/// have been read.
#[derive(Clone, Debug, PartialEq, Eq)]
pub struct LaunchPlan {
    /// The daemon's arguments, in order.
    pub args: Vec<String>,
    /// The marker to delete before the daemon starts.
    pub consumed: Option<Marker>,
    /// The proxy to start beside the daemon, for a pruned node.
    pub proxy: Option<ProxyPlan>,
    /// The onion address that the sidecar advertises.
    pub rpc_address: String,
}

/// The contents of a vector of strings.
pub open spec fn texts(strings: Seq<String>) -> Seq<Seq<char>> {
    Seq::new(strings.len(), |i: int| strings[i]@)
}

/// The address of the Tor SOCKS port on `ip`.
pub open spec fn tor_socks(ip: Seq<char>) -> Seq<char> {
    ip + ":9050"@
}

/// The arguments that every launch has.
pub open spec fn base_args(ip: Seq<char>, peer: Seq<char>) -> Seq<Seq<char>> {
    seq![
        "-onion="@ + tor_socks(ip),
        "-externalip="@ + peer,
        "-datadir=/root/.bitcoin"@,
        "-deprecatedrpc=warnings"@,
        "-conf=/root/.bitcoin/bitcoin.conf"@,
    ]
}

/// The forced proxy argument, when only onion peers are accepted.
pub open spec fn proxy_args(ip: Seq<char>, only_onion: Option<bool>) -> Seq<Seq<char>> {
    if only_onion == Some(true) {
        seq!["-proxy="@ + tor_socks(ip)]
    } else {
        Seq::empty()
    }
}

/// The daemon's full argument list.
pub open spec fn launch_args(
    ip: Seq<char>,
    peer: Seq<char>,
    only_onion: Option<bool>,
    markers: Markers,
) -> Seq<Seq<char>> {
    base_args(ip, peer) + proxy_args(ip, only_onion) + markers.reindex_args()
}

impl EnvVar {
    /// The variable's name in the environment.
    pub fn name(&self) -> (name: &'static str)
        ensures
            name@ == match *self {
                EnvVar::EmbassyIp => "EMBASSY_IP"@,
                EnvVar::PeerTorAddress => "PEER_TOR_ADDRESS"@,
                EnvVar::RpcTorAddress => "RPC_TOR_ADDRESS"@,
            },
    {
        match self {
            EnvVar::EmbassyIp => "EMBASSY_IP",
            EnvVar::PeerTorAddress => "PEER_TOR_ADDRESS",
            EnvVar::RpcTorAddress => "RPC_TOR_ADDRESS",
        }
    }
}

impl Marker {
    /// The marker file's path.
    pub fn path(&self) -> (path: &'static str)
        ensures
            path@ == match *self {
                Marker::Reindex => "/root/.bitcoin/requires.reindex"@,
                Marker::ReindexChainstate => "/root/.bitcoin/requires.reindex_chainstate"@,
            },
    {
        match self {
            Marker::Reindex => "/root/.bitcoin/requires.reindex",
            Marker::ReindexChainstate => "/root/.bitcoin/requires.reindex_chainstate",
        }
    }
}

/// Judges the removal of a marker: a marker that was already gone is no
/// failure, but one that cannot be removed stops startup, since it would
/// ask for a reindex on every restart.
pub fn marker_removed(marker: Marker, removal: Removal) -> (outcome: Result<(), StartupError>)
    ensures
        outcome == if removal == Removal::Failed {
            Err::<(), StartupError>(StartupError::MarkerStuck(marker))
        } else {
            Ok::<(), StartupError>(())
        },
{
    match removal {
        Removal::Failed => Err(StartupError::MarkerStuck(marker)),
        _ => Ok(()),
    }
}

impl Markers {
    /// The marker that a launch acts on: the full reindex before the
    /// chainstate-only one.
    pub open spec fn chosen(self) -> Option<Marker> {
        if self.reindex {
            Some(Marker::Reindex)
        } else if self.reindex_chainstate {
            Some(Marker::ReindexChainstate)
        } else {
            None
        }
    }

    /// The reindex argument of a launch, if any.
    pub open spec fn reindex_args(self) -> Seq<Seq<char>> {
        match self.chosen() {
            Some(Marker::Reindex) => seq!["-reindex"@],
            Some(Marker::ReindexChainstate) => seq!["-reindex-chainstate"@],
            None => Seq::empty(),
        }
    }

    /// The markers that are left once the chosen one has been deleted.
    pub open spec fn after_launch(self) -> Markers {
        match self.chosen() {
            Some(Marker::Reindex) => Markers { reindex: false, ..self },
            Some(Marker::ReindexChainstate) => Markers { reindex_chainstate: false, ..self },
            None => self,
        }
    }

    /// See [`Markers::chosen`].
    pub fn choose_marker(&self) -> (marker: Option<Marker>)
        ensures
            marker == self.chosen(),
    {
        if self.reindex {
            Some(Marker::Reindex)
        } else if self.reindex_chainstate {
            Some(Marker::ReindexChainstate)
        } else {
            None
        }
    }
}

impl Settings {
    /// The RPC user name and password, when the settings hold both.
    pub open spec fn login(self) -> Option<(Seq<char>, Seq<char>)> {
        match (self.rpc_username, self.rpc_password) {
            (Some(user), Some(pass)) => Some((user@, pass@)),
            _ => None,
        }
    }

    /// Whether the node prunes its chain data, which is when the proxy is
    /// started.
    pub open spec fn prunes(self) -> bool {
        self.pruning_mode matches Some(mode) && mode@ == "automatic"@
    }

    /// See [`Settings::prunes`].
    pub fn is_pruned(&self) -> (pruned: bool)
        ensures
            pruned == self.prunes(),
    {
        match &self.pruning_mode {
            Some(mode) => {
                let automatic = String::from_str("automatic");
                *mode == automatic
            },
            None => false,
        }
    }
}

impl Environment {
    /// Whether all three variables are set.
    pub open spec fn complete(self) -> bool {
        self.embassy_ip is Some && self.peer_tor_address is Some && self.rpc_tor_address is Some
    }

    /// The first variable that is not set, in the order in which startup
    /// asks for them.
    pub open spec fn first_missing(self) -> Option<EnvVar> {
        if self.peer_tor_address is None {
            Some(EnvVar::PeerTorAddress)
        } else if self.rpc_tor_address is None {
            Some(EnvVar::RpcTorAddress)
        } else if self.embassy_ip is None {
            Some(EnvVar::EmbassyIp)
        } else {
            None
        }
    }
}

/// The lines of the backup exclusion list: the chain data directories.
pub fn backup_ignore() -> (list: &'static str)
    ensures
        list@ == "blocks/\nchainstate/\nindexes/\ntestnet3/\n"@,
{
    "blocks/\nchainstate/\nindexes/\ntestnet3/\n"
}

/// `head` followed by `tail`.
fn joined(head: &str, tail: &str) -> (text: String)
    ensures
        text@ == head@ + tail@,
{
    let mut text = String::from_str(head);
    text.append(tail);
    text
}

/// See [`launch_args`].
pub fn daemon_args(ip: &str, peer: &str, only_onion: Option<bool>, markers: &Markers) -> (args: Vec<
    String,
>)
    ensures
        texts(args@) == launch_args(ip@, peer@, only_onion, *markers),
{
    let socks = joined(ip, ":9050");
    let mut args: Vec<String> = Vec::new();
    args.push(joined("-onion=", socks.as_str()));
    args.push(joined("-externalip=", peer));
    args.push(String::from_str("-datadir=/root/.bitcoin"));
    args.push(String::from_str("-deprecatedrpc=warnings"));
    args.push(String::from_str("-conf=/root/.bitcoin/bitcoin.conf"));
    match only_onion {
        Some(true) => {
            args.push(joined("-proxy=", socks.as_str()));
        },
        _ => {},
    }
    match markers.choose_marker() {
        Some(Marker::Reindex) => {
            args.push(String::from_str("-reindex"));
        },
        Some(Marker::ReindexChainstate) => {
            args.push(String::from_str("-reindex-chainstate"));
        },
        None => {},
    }
    args
}

/// Makes the launch plan, or names the first variable that is missing from
/// the environment. Without all three variables there is no plan, and so
/// nothing to spawn.
pub fn plan_launch(env: &Environment, settings: &Settings, markers: &Markers) -> (plan: Result<
    LaunchPlan,
    StartupError,
>)
    ensures
        plan is Ok <==> env.complete(),
        match env.first_missing() {
            Some(var) => plan == Err::<LaunchPlan, StartupError>(StartupError::MissingEnv(var)),
            None => plan matches Ok(p) && texts(p.args@) == launch_args(
                env.embassy_ip->0@,
                env.peer_tor_address->0@,
                settings.only_onion,
                *markers,
            ) && p.consumed == markers.chosen() && p.rpc_address@ == env.rpc_tor_address->0@ && (
            match p.proxy {
                Some(proxy) => settings.prunes() && proxy.tor_proxy@ == tor_socks(
                    env.embassy_ip->0@,
                ) && proxy.only_onion == settings.only_onion,
                None => !settings.prunes(),
            }),
        },
{
    let peer = match &env.peer_tor_address {
        Some(peer) => peer,
        None => {
            return Err(StartupError::MissingEnv(EnvVar::PeerTorAddress));
        },
    };
    let rpc = match &env.rpc_tor_address {
        Some(rpc) => rpc,
        None => {
            return Err(StartupError::MissingEnv(EnvVar::RpcTorAddress));
        },
    };
    let ip = match &env.embassy_ip {
        Some(ip) => ip,
        None => {
            return Err(StartupError::MissingEnv(EnvVar::EmbassyIp));
        },
    };
    let args = daemon_args(ip.as_str(), peer.as_str(), settings.only_onion, markers);
    let proxy = if settings.is_pruned() {
        Some(ProxyPlan { tor_proxy: joined(ip.as_str(), ":9050"), only_onion: settings.only_onion })
    } else {
        None
    };
    Ok(LaunchPlan { args, consumed: markers.choose_marker(), proxy, rpc_address: rpc.clone() })
}

/// Whether `text` is the reindex argument of either kind.
pub open spec fn is_reindex_arg(text: Seq<char>) -> bool {
    text == "-reindex"@ || text == "-reindex-chainstate"@
}

/// No argument other than the reindex arguments themselves asks for a
/// reindex.
proof fn lemma_plain_args_ask_no_reindex(ip: Seq<char>, peer: Seq<char>, only_onion: Option<bool>)
    ensures
        forall|i: int|
            0 <= i < (base_args(ip, peer) + proxy_args(ip, only_onion)).len() ==> !is_reindex_arg(
                #[trigger] (base_args(ip, peer) + proxy_args(ip, only_onion))[i],
            ),
{
    reveal_strlit("-reindex");
    reveal_strlit("-reindex-chainstate");
    reveal_strlit("-onion=");
    reveal_strlit("-externalip=");
    reveal_strlit("-datadir=/root/.bitcoin");
    reveal_strlit("-deprecatedrpc=warnings");
    reveal_strlit("-conf=/root/.bitcoin/bitcoin.conf");
    reveal_strlit("-proxy=");
    let plain = base_args(ip, peer) + proxy_args(ip, only_onion);
    assert forall|i: int| 0 <= i < plain.len() implies !is_reindex_arg(#[trigger] plain[i]) by {
        let arg = plain[i];
        if is_reindex_arg(arg) {
            assert(arg[1] == 'r');
            assert(plain[i][1] != 'r');
        }
    }
}

/// A reindex happens once: while the full-reindex marker exists, the
/// arguments hold `-reindex` and the launch deletes that marker; the next
/// launch no longer holds `-reindex`. The same goes for the chainstate
/// marker and `-reindex-chainstate`, which waits its turn while the full
/// marker exists. With no marker, no argument asks for a reindex.
pub proof fn law_reindex_is_one_shot(
    ip: Seq<char>,
    peer: Seq<char>,
    only_onion: Option<bool>,
    markers: Markers,
)
    ensures
        markers.reindex ==> launch_args(ip, peer, only_onion, markers).contains("-reindex"@)
            && !markers.after_launch().reindex,
        !markers.reindex && markers.reindex_chainstate ==> launch_args(
            ip,
            peer,
            only_onion,
            markers,
        ).contains("-reindex-chainstate"@) && !markers.after_launch().reindex_chainstate,
        !launch_args(ip, peer, only_onion, markers.after_launch()).contains("-reindex"@),
        !markers.reindex ==> !launch_args(ip, peer, only_onion, markers).contains("-reindex"@),
        markers.reindex || !markers.reindex_chainstate ==> !launch_args(
            ip,
            peer,
            only_onion,
            markers,
        ).contains("-reindex-chainstate"@),
        markers.chosen() is None ==> forall|i: int|
            0 <= i < launch_args(ip, peer, only_onion, markers).len() ==> !is_reindex_arg(
                #[trigger] launch_args(ip, peer, only_onion, markers)[i],
            ),
{
    reveal_strlit("-reindex");
    reveal_strlit("-reindex-chainstate");
    lemma_plain_args_ask_no_reindex(ip, peer, only_onion);
    let plain = base_args(ip, peer) + proxy_args(ip, only_onion);
    let now = launch_args(ip, peer, only_onion, markers);
    let next = launch_args(ip, peer, only_onion, markers.after_launch());
    assert("-reindex"@ != "-reindex-chainstate"@) by {
        assert("-reindex"@.len() != "-reindex-chainstate"@.len());
    }
    if markers.chosen() is Some {
        assert(now[plain.len() as int] == markers.reindex_args()[0]);
    }
    assert forall|i: int| 0 <= i < now.len() && i != plain.len() implies !is_reindex_arg(
        #[trigger] now[i],
    ) by {
        assert(now[i] == plain[i]);
    }
    assert forall|i: int| 0 <= i < next.len() implies #[trigger] next[i] != "-reindex"@ by {
        if i < plain.len() {
            assert(next[i] == plain[i]);
            assert(!is_reindex_arg(plain[i]));
        } else {
            assert(next[i] == markers.after_launch().reindex_args()[i - plain.len()]);
        }
    }
}

} // verus!
