//! The entries that one poll of the daemon contributes to the status
//! document.

use vstd::prelude::*;
use vstd::string::*;

use crate::chain::{Bip9, ChainInfo, NetworkInfo, SoftFork, PROGRESS_SCALE};
use crate::fixed::{gib_string, gib_text, percent_string, percent_text};
use crate::outside::{human_readable_timestamp, title_case, to_title_case, utc_date_time};
use crate::stats::{
    insert_all, lemma_insert_all_concat, plain_stat, text_stat, Rows, Stat, Stats,
};
use crate::text::{decimal_digits, push_decimal};

verus! {

/// Whether `text` ends with `suffix`.
pub open spec fn ends_with(text: Seq<char>, suffix: Seq<char>) -> bool {
    text.len() >= suffix.len() && text.subrange(text.len() - suffix.len(), text.len() as int)
        == suffix
}

/// The local-network name of the host whose onion address is `addr`: the
/// same name with the suffix `onion` replaced by `local`.
pub open spec fn lan_address(addr: Seq<char>) -> Seq<char>
    recommends
        ends_with(addr, "onion"@),
{
    addr.subrange(0, addr.len() - 5) + "local"@
}

/// The quick-connect URL for the given credentials, host and port.
pub open spec fn quick_connect_url(
    user: Seq<char>,
    pass: Seq<char>,
    host: Seq<char>,
    port: Seq<char>,
) -> Seq<char> {
    "btcstandup://"@ + user + ":"@ + pass + "@"@ + host + ":"@ + port
}

/// The connection entries: two quick-connect URLs, the user name and the
/// password. The URLs and the password are masked, the user name is not.
pub open spec fn credential_rows(user: Seq<char>, pass: Seq<char>, addr: Seq<char>) -> Rows {
    seq![
        (
            "Tor Quick Connect"@,
            text_stat(
                quick_connect_url(user, pass, addr, "48332"@),
                "Bitcoin-Standup Tor Quick Connect URL"@,
                true,
                true,
                true,
            ),
        ),
        (
            "LAN Quick Connect"@,
            text_stat(
                quick_connect_url(user, pass, lan_address(addr), "443"@),
                "Bitcoin-Standup LAN Quick Connect URL"@,
                true,
                true,
                true,
            ),
        ),
        ("RPC Username"@, text_stat(user, "Bitcoin RPC Username"@, true, false, false)),
        ("RPC Password"@, text_stat(pass, "Bitcoin RPC Password"@, true, false, true)),
    ]
}

/// The share of the chain that has been verified: `"100%"` once the
/// validated height has reached the header height, else the reported
/// progress as a percentage with two decimals.
pub open spec fn sync_progress_text(blocks: usize, headers: usize, progress: u64) -> Seq<char> {
    if blocks < headers {
        percent_text(progress as nat, PROGRESS_SCALE as nat)
    } else {
        "100%"@
    }
}

/// The entries of one version-bits deployment shown under the name
/// `pretty`: status, start time and timeout, and for a deployment that is
/// signalling, the share of signalling blocks. A hidden deployment has none.
pub open spec fn bip9_rows(pretty: Seq<char>, bip9: Bip9, blocks: usize) -> Rows {
    if bip9.hidden_at(blocks) {
        Rows::empty()
    } else {
        let shown = seq![
            (
                pretty + " Status"@,
                plain_stat(bip9.label(), "The Bip9 deployment status for "@ + pretty),
            ),
            (
                pretty + " Start Time"@,
                plain_stat(
                    utc_date_time(bip9.start()),
                    "The start time (UTC) of the Bip9 signaling period for "@ + pretty,
                ),
            ),
            (
                pretty + " Timeout"@,
                plain_stat(
                    utc_date_time(bip9.end()),
                    "The timeout time (UTC) of the Bip9 signaling period for "@ + pretty,
                ),
            ),
        ];
        match bip9 {
            Bip9::Started { statistics, .. } => shown.push(
                (
                    pretty + " Signal Percentage"@,
                    plain_stat(
                        percent_text(statistics.count as nat, statistics.elapsed as nat),
                        "Percentage of the blocks in the current signaling window that are signaling for the activation of "@
                            + pretty,
                    ),
                ),
            ),
            _ => shown,
        }
    }
}

/// The entries of the deployment `name`: none for a buried one, and those
/// of [`bip9_rows`] under the name in title case for any other.
pub open spec fn softfork_rows(name: Seq<char>, fork: SoftFork, blocks: usize) -> Rows {
    match fork {
        SoftFork::Buried { .. } => Rows::empty(),
        SoftFork::Bip9 { bip9, .. } => bip9_rows(title_case(name), bip9, blocks),
    }
}

/// The entries of all deployments, in the order of `forks`.
pub open spec fn softforks_rows(forks: Seq<(Seq<char>, SoftFork)>, blocks: usize) -> Rows
    decreases forks.len(),
{
    if forks.len() == 0 {
        Rows::empty()
    } else {
        softforks_rows(forks.drop_last(), blocks) + softfork_rows(
            forks.last().0,
            forks.last().1,
            blocks,
        )
    }
}

/// The three entries on heights and progress.
pub open spec fn chain_head_rows(info: ChainInfo) -> Rows {
    seq![
        (
            "Block Height"@,
            plain_stat(
                decimal_digits(info.headers as nat),
                "The current block height for the network"@,
            ),
        ),
        (
            "Synced Block Height"@,
            plain_stat(
                decimal_digits(info.blocks as nat),
                "The number of blocks the node has verified"@,
            ),
        ),
        (
            "Sync Progress"@,
            plain_stat(
                sync_progress_text(info.blocks, info.headers, info.verification_progress),
                "The percentage of the blockchain that has been verified"@,
            ),
        ),
    ]
}

/// The entries on storage: disk usage, and the prune height when anything
/// was pruned.
pub open spec fn chain_tail_rows(info: ChainInfo) -> Rows {
    let usage = (
        "Disk Usage"@,
        plain_stat(gib_text(info.size_on_disk as nat), "The blockchain size on disk"@),
    );
    if info.pruneheight > 0 {
        seq![
            usage,
            (
                "Prune Height"@,
                plain_stat(
                    decimal_digits(info.pruneheight as nat),
                    "The number of blocks that have been deleted from disk"@,
                ),
            ),
        ]
    } else {
        seq![usage]
    }
}

/// Everything that a chain snapshot contributes, in document order.
pub open spec fn chain_rows(info: ChainInfo) -> Rows {
    chain_head_rows(info) + softforks_rows(info.forks(), info.blocks) + chain_tail_rows(info)
}

/// The peer counts as `"N (I in / O out)"`.
pub open spec fn connections_text(info: NetworkInfo) -> Seq<char> {
    decimal_digits(info.connections as nat) + " ("@ + decimal_digits(info.connections_in as nat)
        + " in / "@ + decimal_digits(info.connections_out as nat) + " out)"@
}

/// The single entry that a network snapshot contributes.
pub open spec fn network_rows(info: NetworkInfo) -> Rows {
    seq![
        (
            "Connections"@,
            plain_stat(
                connections_text(info),
                "The number of peers connected (inbound and outbound)"@,
            ),
        ),
    ]
}

/// Whether `addr` ends with `onion`.
pub fn is_onion_address(addr: &str) -> (ok: bool)
    ensures
        ok == ends_with(addr@, "onion"@),
{
    proof {
        reveal_strlit("onion");
    }
    let n: usize = addr.unicode_len();
    if n < 5 {
        return false;
    }
    let start: usize = n - 5;
    let ghost tail = addr@.subrange(start as int, n as int);
    let same = addr.get_char(start) == 'o' && addr.get_char(start + 1) == 'n' && addr.get_char(
        start + 2,
    ) == 'i' && addr.get_char(start + 3) == 'o' && addr.get_char(start + 4) == 'n';
    proof {
        assert(tail[0] == addr@[start as int]);
        assert(tail[1] == addr@[start + 1]);
        assert(tail[2] == addr@[start + 2]);
        assert(tail[3] == addr@[start + 3]);
        assert(tail[4] == addr@[start + 4]);
        if same {
            assert(tail =~= "onion"@);
        }
    }
    same
}

/// See [`lan_address`].
pub fn lan_address_of(addr: &str) -> (lan: String)
    requires
        ends_with(addr@, "onion"@),
    ensures
        lan@ == lan_address(addr@),
{
    proof {
        reveal_strlit("onion");
    }
    let n: usize = addr.unicode_len();
    let mut lan = String::from_str(addr.substring_char(0, n - 5));
    lan.append("local");
    lan
}

/// See [`quick_connect_url`].
pub fn quick_connect(user: &str, pass: &str, host: &str, port: &str) -> (url: String)
    ensures
        url@ == quick_connect_url(user@, pass@, host@, port@),
{
    let mut url = String::from_str("btcstandup://");
    url.append(user);
    url.append(":");
    url.append(pass);
    url.append("@");
    url.append(host);
    url.append(":");
    url.append(port);
    url
}

/// See [`sync_progress_text`].
pub fn sync_progress(blocks: usize, headers: usize, progress: u64) -> (text: String)
    ensures
        text@ == sync_progress_text(blocks, headers, progress),
{
    if blocks < headers {
        percent_string(progress, PROGRESS_SCALE)
    } else {
        String::from_str("100%")
    }
}

/// See [`connections_text`].
pub fn connections(info: &NetworkInfo) -> (text: String)
    ensures
        text@ == connections_text(*info),
{
    let mut text = String::new();
    push_decimal(&mut text, info.connections as u128);
    text.append(" (");
    push_decimal(&mut text, info.connections_in as u128);
    text.append(" in / ");
    push_decimal(&mut text, info.connections_out as u128);
    text.append(" out)");
    text
}

/// The decimal numeral of a height.
fn height_string(height: usize) -> (text: String)
    ensures
        text@ == decimal_digits(height as nat),
{
    let mut text = String::new();
    push_decimal(&mut text, height as u128);
    text
}

/// `head` followed by `tail`.
fn joined(head: &str, tail: &str) -> (text: String)
    ensures
        text@ == head@ + tail@,
{
    let mut text = String::from_str(head);
    text.append(tail);
    text
}

/// Sets one more entry, after those of `done` have been set on `base`.
fn put(
    stats: &mut Stats,
    label: String,
    stat: Stat,
    Ghost(base): Ghost<Rows>,
    Ghost(done): Ghost<Rows>,
)
    requires
        old(stats)@.data == insert_all(base, done),
    ensures
        final(stats)@.data == insert_all(base, done.push((label@, stat@))),
        final(stats)@.version == old(stats)@.version,
{
    stats.insert(label, stat);
    proof {
        assert(done.push((label@, stat@)).drop_last() =~= done);
    }
}

impl Stats {
    /// Sets the connection entries for the given credentials and onion
    /// address of the RPC endpoint.
    pub fn add_credentials(&mut self, user: &str, pass: &str, addr: &str)
        requires
            ends_with(addr@, "onion"@),
        ensures
            final(self)@.version == old(self)@.version,
            final(self)@.data == insert_all(old(self)@.data, credential_rows(user@, pass@, addr@)),
    {
        let ghost base = self@.data;
        let ghost mut done = Rows::empty();
        let lan = lan_address_of(addr);

        let label = String::from_str("Tor Quick Connect");
        let stat = Stat::text(
            quick_connect(user, pass, addr, "48332"),
            String::from_str("Bitcoin-Standup Tor Quick Connect URL"),
            true,
            true,
            true,
        );
        let ghost row = (label@, stat@);
        put(self, label, stat, Ghost(base), Ghost(done));
        proof {
            done = done.push(row);
        }

        let label = String::from_str("LAN Quick Connect");
        let stat = Stat::text(
            quick_connect(user, pass, lan.as_str(), "443"),
            String::from_str("Bitcoin-Standup LAN Quick Connect URL"),
            true,
            true,
            true,
        );
        let ghost row = (label@, stat@);
        put(self, label, stat, Ghost(base), Ghost(done));
        proof {
            done = done.push(row);
        }

        let label = String::from_str("RPC Username");
        let stat = Stat::text(
            String::from_str(user),
            String::from_str("Bitcoin RPC Username"),
            true,
            false,
            false,
        );
        let ghost row = (label@, stat@);
        put(self, label, stat, Ghost(base), Ghost(done));
        proof {
            done = done.push(row);
        }

        let label = String::from_str("RPC Password");
        let stat = Stat::text(
            String::from_str(pass),
            String::from_str("Bitcoin RPC Password"),
            true,
            false,
            true,
        );
        let ghost row = (label@, stat@);
        put(self, label, stat, Ghost(base), Ghost(done));
        proof {
            done = done.push(row);
            assert(done =~= credential_rows(user@, pass@, addr@));
        }
    }

    /// Sets the entries of one deployment, as they read at height `blocks`.
    pub fn add_softfork(&mut self, name: &str, fork: &SoftFork, blocks: usize)
        requires
            fork.renderable_at(blocks),
        ensures
            final(self)@.version == old(self)@.version,
            final(self)@.data == insert_all(old(self)@.data, softfork_rows(name@, *fork, blocks)),
    {
        let ghost base = self@.data;
        let ghost mut done = Rows::empty();
        match fork {
            SoftFork::Buried { .. } => {},
            SoftFork::Bip9 { bip9, .. } => {
                if !bip9.is_hidden_at(blocks) {
                    let pretty = to_title_case(name);

                    let label = joined(pretty.as_str(), " Status");
                    let stat = Stat::plain(
                        String::from_str(bip9.status_label()),
                        joined("The Bip9 deployment status for ", pretty.as_str()),
                    );
                    let ghost row = (label@, stat@);
                    put(self, label, stat, Ghost(base), Ghost(done));
                    proof {
                        done = done.push(row);
                    }

                    let label = joined(pretty.as_str(), " Start Time");
                    let stat = Stat::plain(
                        human_readable_timestamp(bip9.start_time()),
                        joined(
                            "The start time (UTC) of the Bip9 signaling period for ",
                            pretty.as_str(),
                        ),
                    );
                    let ghost row = (label@, stat@);
                    put(self, label, stat, Ghost(base), Ghost(done));
                    proof {
                        done = done.push(row);
                    }

                    let label = joined(pretty.as_str(), " Timeout");
                    let stat = Stat::plain(
                        human_readable_timestamp(bip9.timeout()),
                        joined(
                            "The timeout time (UTC) of the Bip9 signaling period for ",
                            pretty.as_str(),
                        ),
                    );
                    let ghost row = (label@, stat@);
                    put(self, label, stat, Ghost(base), Ghost(done));
                    proof {
                        done = done.push(row);
                    }

                    match bip9 {
                        Bip9::Started { statistics, .. } => {
                            let label = joined(pretty.as_str(), " Signal Percentage");
                            let stat = Stat::plain(
                                percent_string(statistics.count as u64, statistics.elapsed as u64),
                                joined(
                                    "Percentage of the blocks in the current signaling window that are signaling for the activation of ",
                                    pretty.as_str(),
                                ),
                            );
                            let ghost row = (label@, stat@);
                            put(self, label, stat, Ghost(base), Ghost(done));
                            proof {
                                done = done.push(row);
                            }
                        },
                        _ => {},
                    }
                }
            },
        }
        proof {
            assert(done =~= softfork_rows(name@, *fork, blocks));
        }
    }

    /// Sets everything that a chain snapshot contributes: heights and
    /// progress, the deployments, disk usage and prune height.
    pub fn add_chain_info(&mut self, info: &ChainInfo)
        requires
            info.renderable(),
        ensures
            final(self)@.version == old(self)@.version,
            final(self)@.data == insert_all(old(self)@.data, chain_rows(*info)),
    {
        let ghost base = self@.data;
        let ghost mut done = Rows::empty();

        let label = String::from_str("Block Height");
        let stat = Stat::plain(
            height_string(info.headers),
            String::from_str("The current block height for the network"),
        );
        let ghost row = (label@, stat@);
        put(self, label, stat, Ghost(base), Ghost(done));
        proof {
            done = done.push(row);
        }

        let label = String::from_str("Synced Block Height");
        let stat = Stat::plain(
            height_string(info.blocks),
            String::from_str("The number of blocks the node has verified"),
        );
        let ghost row = (label@, stat@);
        put(self, label, stat, Ghost(base), Ghost(done));
        proof {
            done = done.push(row);
        }

        let label = String::from_str("Sync Progress");
        let stat = Stat::plain(
            sync_progress(info.blocks, info.headers, info.verification_progress),
            String::from_str("The percentage of the blockchain that has been verified"),
        );
        let ghost row = (label@, stat@);
        put(self, label, stat, Ghost(base), Ghost(done));
        proof {
            done = done.push(row);
            assert(done =~= chain_head_rows(*info));
        }

        let forks = info.softfork_list();
        let mut i: usize = 0;
        while i < forks.len()
            invariant
                i <= forks@.len(),
                forks@.len() == info.forks().len(),
                forall|k: int|
                    0 <= k < forks@.len() ==> (#[trigger] forks@[k]).0@ == info.forks()[k].0
                        && forks@[k].1 == info.forks()[k].1,
                info.renderable(),
                self@.version == old(self)@.version,
                self@.data == insert_all(
                    base,
                    chain_head_rows(*info) + softforks_rows(
                        info.forks().take(i as int),
                        info.blocks,
                    ),
                ),
            decreases forks@.len() - i,
        {
            let ghost before = chain_head_rows(*info) + softforks_rows(
                info.forks().take(i as int),
                info.blocks,
            );
            let ghost rows = softfork_rows(
                info.forks()[i as int].0,
                info.forks()[i as int].1,
                info.blocks,
            );
            self.add_softfork(forks[i].0.as_str(), &forks[i].1, info.blocks);
            proof {
                lemma_insert_all_concat(base, before, rows);
                let next = info.forks().take(i + 1);
                assert(next.drop_last() =~= info.forks().take(i as int));
                assert(before + rows =~= chain_head_rows(*info) + softforks_rows(
                    next,
                    info.blocks,
                ));
            }
            i = i + 1;
        }
        proof {
            assert(info.forks().take(i as int) =~= info.forks());
            done = chain_head_rows(*info) + softforks_rows(info.forks(), info.blocks);
        }

        let label = String::from_str("Disk Usage");
        let stat = Stat::plain(
            gib_string(info.size_on_disk),
            String::from_str("The blockchain size on disk"),
        );
        let ghost row = (label@, stat@);
        put(self, label, stat, Ghost(base), Ghost(done));
        proof {
            done = done.push(row);
        }

        if info.pruneheight > 0 {
            let label = String::from_str("Prune Height");
            let stat = Stat::plain(
                height_string(info.pruneheight),
                String::from_str("The number of blocks that have been deleted from disk"),
            );
            let ghost row = (label@, stat@);
            put(self, label, stat, Ghost(base), Ghost(done));
            proof {
                done = done.push(row);
            }
        }
        proof {
            assert(done =~= chain_rows(*info));
        }
    }

    /// Sets the entry that a network snapshot contributes.
    pub fn add_network_info(&mut self, info: &NetworkInfo)
        ensures
            final(self)@.version == old(self)@.version,
            final(self)@.data == insert_all(old(self)@.data, network_rows(*info)),
    {
        let ghost base = self@.data;
        let label = String::from_str("Connections");
        let stat = Stat::plain(
            connections(info),
            String::from_str("The number of peers connected (inbound and outbound)"),
        );
        put(self, label, stat, Ghost(base), Ghost(Rows::empty()));
    }
}

} // verus!
