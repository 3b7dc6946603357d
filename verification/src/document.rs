//! What a published document holds under each label.
//!
//! Entries are set by label, and the names of deployments come from the
//! daemon. The proofs here show that no deployment, whatever its name, can
//! take the place of one of the fixed entries.

use vstd::prelude::*;

use crate::chain::{ChainInfo, NetworkInfo, SoftFork};
use crate::outside::title_case;
use crate::sidecar::{cycle_result, ReplyView, StepView};
use crate::stats::{
    has_label, insert_all, last_with, lemma_last_with_absent, lemma_last_with_concat,
    lemma_lookup_after_insert_all, lookup, Rows, StatView,
};
use crate::telemetry::{
    bip9_rows, chain_head_rows, chain_rows, chain_tail_rows, credential_rows, ends_with,
    network_rows, softfork_rows, softforks_rows,
};

verus! {

/// Whether `label` is one that a deployment writes under: a display name
/// followed by what the entry tells of the deployment.
pub open spec fn is_deployment_label(label: Seq<char>) -> bool {
    ends_with(label, " Status"@) || ends_with(label, " Start Time"@) || ends_with(
        label,
        " Timeout"@,
    ) || ends_with(label, " Signal Percentage"@)
}

/// What a cycle that decoded both answers publishes under `label`: the
/// connection entries when there are credentials, the entries of the chain
/// and network snapshots, and under a deployment's label the entry of the
/// last deployment that writes there.
pub open spec fn published_entry(
    login: Option<(Seq<char>, Seq<char>)>,
    addr: Seq<char>,
    chain: ChainInfo,
    network: NetworkInfo,
    label: Seq<char>,
) -> Option<StatView> {
    if is_deployment_label(label) {
        last_with(softforks_rows(chain.forks(), chain.blocks), label)
    } else if label == "Connections"@ {
        Some(network_rows(network)[0].1)
    } else if label == "Block Height"@ {
        Some(chain_head_rows(chain)[0].1)
    } else if label == "Synced Block Height"@ {
        Some(chain_head_rows(chain)[1].1)
    } else if label == "Sync Progress"@ {
        Some(chain_head_rows(chain)[2].1)
    } else if label == "Disk Usage"@ {
        Some(chain_tail_rows(chain)[0].1)
    } else if label == "Prune Height"@ {
        if chain.pruneheight > 0 {
            Some(chain_tail_rows(chain)[1].1)
        } else {
            None
        }
    } else {
        match login {
            Some((user, pass)) => lookup(credential_rows(user, pass, addr), label),
            None => None,
        }
    }
}

/// A text whose `k`-th character from the end differs from that of
/// `suffix` does not end with `suffix`; nor does a shorter text.
proof fn lemma_no_suffix(text: Seq<char>, suffix: Seq<char>, k: int)
    requires
        0 <= k < suffix.len(),
        suffix.len() <= text.len() ==> text[text.len() - 1 - k] != suffix[suffix.len() - 1 - k],
    ensures
        !ends_with(text, suffix),
{
    if ends_with(text, suffix) {
        let tail = text.subrange(text.len() - suffix.len(), text.len() as int);
        assert(tail[suffix.len() - 1 - k] == text[text.len() - 1 - k]);
    }
}

/// None of the fixed labels reads like a deployment's label.
pub proof fn lemma_fixed_labels()
    ensures
        !is_deployment_label("Tor Quick Connect"@),
        !is_deployment_label("LAN Quick Connect"@),
        !is_deployment_label("RPC Username"@),
        !is_deployment_label("RPC Password"@),
        !is_deployment_label("Block Height"@),
        !is_deployment_label("Synced Block Height"@),
        !is_deployment_label("Sync Progress"@),
        !is_deployment_label("Disk Usage"@),
        !is_deployment_label("Prune Height"@),
        !is_deployment_label("Connections"@),
{
    reveal_strlit(" Status");
    reveal_strlit(" Start Time");
    reveal_strlit(" Timeout");
    reveal_strlit(" Signal Percentage");
    reveal_strlit("Tor Quick Connect");
    reveal_strlit("LAN Quick Connect");
    reveal_strlit("RPC Username");
    reveal_strlit("RPC Password");
    reveal_strlit("Block Height");
    reveal_strlit("Synced Block Height");
    reveal_strlit("Sync Progress");
    reveal_strlit("Disk Usage");
    reveal_strlit("Prune Height");
    reveal_strlit("Connections");
    let status = " Status"@;
    let start = " Start Time"@;
    let timeout = " Timeout"@;
    let signal = " Signal Percentage"@;

    lemma_no_suffix("Tor Quick Connect"@, status, 0);
    lemma_no_suffix("Tor Quick Connect"@, start, 0);
    lemma_no_suffix("Tor Quick Connect"@, timeout, 1);
    lemma_no_suffix("Tor Quick Connect"@, signal, 0);

    lemma_no_suffix("LAN Quick Connect"@, status, 0);
    lemma_no_suffix("LAN Quick Connect"@, start, 0);
    lemma_no_suffix("LAN Quick Connect"@, timeout, 1);
    lemma_no_suffix("LAN Quick Connect"@, signal, 0);

    lemma_no_suffix("RPC Username"@, status, 0);
    lemma_no_suffix("RPC Username"@, start, 2);
    lemma_no_suffix("RPC Username"@, timeout, 0);
    lemma_no_suffix("RPC Username"@, signal, 0);

    lemma_no_suffix("RPC Password"@, status, 0);
    lemma_no_suffix("RPC Password"@, start, 0);
    lemma_no_suffix("RPC Password"@, timeout, 0);
    lemma_no_suffix("RPC Password"@, signal, 0);

    lemma_no_suffix("Block Height"@, status, 0);
    lemma_no_suffix("Block Height"@, start, 0);
    lemma_no_suffix("Block Height"@, timeout, 1);
    lemma_no_suffix("Block Height"@, signal, 0);

    lemma_no_suffix("Synced Block Height"@, status, 0);
    lemma_no_suffix("Synced Block Height"@, start, 0);
    lemma_no_suffix("Synced Block Height"@, timeout, 1);
    lemma_no_suffix("Synced Block Height"@, signal, 0);

    lemma_no_suffix("Sync Progress"@, status, 1);
    lemma_no_suffix("Sync Progress"@, start, 0);
    lemma_no_suffix("Sync Progress"@, timeout, 0);
    lemma_no_suffix("Sync Progress"@, signal, 0);

    lemma_no_suffix("Disk Usage"@, status, 0);
    lemma_no_suffix("Disk Usage"@, start, 1);
    lemma_no_suffix("Disk Usage"@, timeout, 0);
    lemma_no_suffix("Disk Usage"@, signal, 0);

    lemma_no_suffix("Prune Height"@, status, 0);
    lemma_no_suffix("Prune Height"@, start, 0);
    lemma_no_suffix("Prune Height"@, timeout, 1);
    lemma_no_suffix("Prune Height"@, signal, 0);

    lemma_no_suffix("Connections"@, status, 1);
    lemma_no_suffix("Connections"@, start, 0);
    lemma_no_suffix("Connections"@, timeout, 0);
    lemma_no_suffix("Connections"@, signal, 0);
}

/// A name followed by a suffix ends with that suffix.
proof fn lemma_ends_with_appended(name: Seq<char>, suffix: Seq<char>)
    ensures
        ends_with(name + suffix, suffix),
{
    let text = name + suffix;
    assert(text.subrange(text.len() - suffix.len(), text.len() as int) =~= suffix);
}

/// Every entry of a deployment carries a deployment's label.
pub proof fn lemma_deployment_rows(forks: Seq<(Seq<char>, SoftFork)>, blocks: usize)
    ensures
        forall|i: int|
            0 <= i < softforks_rows(forks, blocks).len() ==> is_deployment_label(
                (#[trigger] softforks_rows(forks, blocks)[i]).0,
            ),
    decreases forks.len(),
{
    if forks.len() > 0 {
        lemma_deployment_rows(forks.drop_last(), blocks);
        let before = softforks_rows(forks.drop_last(), blocks);
        let own = softfork_rows(forks.last().0, forks.last().1, blocks);
        let all = softforks_rows(forks, blocks);
        assert forall|i: int| 0 <= i < own.len() implies is_deployment_label(
            (#[trigger] own[i]).0,
        ) by {
            match forks.last().1 {
                SoftFork::Buried { .. } => {},
                SoftFork::Bip9 { bip9, .. } => {
                    let pretty = title_case(forks.last().0);
                    assert(own == bip9_rows(pretty, bip9, blocks));
                    lemma_ends_with_appended(pretty, " Status"@);
                    lemma_ends_with_appended(pretty, " Start Time"@);
                    lemma_ends_with_appended(pretty, " Timeout"@);
                    lemma_ends_with_appended(pretty, " Signal Percentage"@);
                },
            }
        }
        assert forall|i: int| 0 <= i < all.len() implies is_deployment_label(
            (#[trigger] all[i]).0,
        ) by {
            if i < before.len() {
                assert(all[i] == before[i]);
            } else {
                assert(all[i] == own[i - before.len()]);
            }
        }
    }
}

/// What a label gives once a chain snapshot has been set on `rows`: a
/// deployment's label gives the last deployment entry that carries it, the
/// five labels of the snapshot give its entries, and any other label gives
/// what it gave before.
pub proof fn lemma_lookup_after_chain(rows: Rows, info: ChainInfo, label: Seq<char>)
    ensures
        lookup(insert_all(rows, chain_rows(info)), label) == if is_deployment_label(label) {
            match last_with(softforks_rows(info.forks(), info.blocks), label) {
                Some(stat) => Some(stat),
                None => lookup(rows, label),
            }
        } else if label == "Block Height"@ {
            Some(chain_head_rows(info)[0].1)
        } else if label == "Synced Block Height"@ {
            Some(chain_head_rows(info)[1].1)
        } else if label == "Sync Progress"@ {
            Some(chain_head_rows(info)[2].1)
        } else if label == "Disk Usage"@ {
            Some(chain_tail_rows(info)[0].1)
        } else if label == "Prune Height"@ && info.pruneheight > 0 {
            Some(chain_tail_rows(info)[1].1)
        } else {
            lookup(rows, label)
        },
{
    reveal_strlit("Block Height");
    reveal_strlit("Synced Block Height");
    reveal_strlit("Sync Progress");
    reveal_strlit("Disk Usage");
    reveal_strlit("Prune Height");
    lemma_fixed_labels();
    let head = chain_head_rows(info);
    let forks = softforks_rows(info.forks(), info.blocks);
    let tail = chain_tail_rows(info);
    lemma_lookup_after_insert_all(rows, chain_rows(info), label);
    lemma_last_with_concat(head + forks, tail, label);
    lemma_last_with_concat(head, forks, label);
    lemma_deployment_rows(info.forks(), info.blocks);
    assert("Block Height"@[0] != "Prune Height"@[0]);
    reveal_with_fuel(last_with, 4);
    if !is_deployment_label(label) {
        if has_label(forks, label) {
            let i = choose|i: int| 0 <= i < forks.len() && (#[trigger] forks[i]).0 == label;
            assert(is_deployment_label(forks[i].0));
        }
        lemma_last_with_absent(forks, label);
    }
}

/// What a label gives once the connection entries have been set on `rows`.
pub proof fn lemma_lookup_after_credentials(
    rows: Rows,
    user: Seq<char>,
    pass: Seq<char>,
    addr: Seq<char>,
    label: Seq<char>,
)
    ensures
        lookup(insert_all(rows, credential_rows(user, pass, addr)), label) == match lookup(
            credential_rows(user, pass, addr),
            label,
        ) {
            Some(stat) => Some(stat),
            None => lookup(rows, label),
        },
        lookup(credential_rows(user, pass, addr), label) == if label == "Tor Quick Connect"@ {
            Some(credential_rows(user, pass, addr)[0].1)
        } else if label == "LAN Quick Connect"@ {
            Some(credential_rows(user, pass, addr)[1].1)
        } else if label == "RPC Username"@ {
            Some(credential_rows(user, pass, addr)[2].1)
        } else if label == "RPC Password"@ {
            Some(credential_rows(user, pass, addr)[3].1)
        } else {
            None
        },
{
    reveal_strlit("Tor Quick Connect");
    reveal_strlit("LAN Quick Connect");
    reveal_strlit("RPC Username");
    reveal_strlit("RPC Password");
    let added = credential_rows(user, pass, addr);
    lemma_lookup_after_insert_all(rows, added, label);
    assert("Tor Quick Connect"@[0] != "LAN Quick Connect"@[0]);
    assert("RPC Username"@[4] != "RPC Password"@[4]);
    reveal_with_fuel(last_with, 5);
    reveal_with_fuel(lookup, 5);
}

/// The document of a cycle that decoded both answers holds under every
/// label what [`published_entry`] says, and nothing else.
pub proof fn law_published_document(
    login: Option<(Seq<char>, Seq<char>)>,
    addr: Seq<char>,
    chain: ChainInfo,
    network: NetworkInfo,
    label: Seq<char>,
)
    ensures
        cycle_result(
            login,
            addr,
            ReplyView::Decoded(chain_rows(chain)),
            ReplyView::Decoded(network_rows(network)),
        ) matches StepView::Proceed { stats, .. } ==> lookup(stats.data, label) == published_entry(
            login,
            addr,
            chain,
            network,
            label,
        ),
{
    reveal_strlit("Connections");
    reveal_strlit("Tor Quick Connect");
    reveal_strlit("LAN Quick Connect");
    reveal_strlit("RPC Username");
    reveal_strlit("RPC Password");
    reveal_strlit("Block Height");
    reveal_strlit("Synced Block Height");
    reveal_strlit("Sync Progress");
    reveal_strlit("Disk Usage");
    reveal_strlit("Prune Height");
    lemma_fixed_labels();
    let empty = Rows::empty();
    let first = match login {
        Some((user, pass)) => insert_all(empty, credential_rows(user, pass, addr)),
        None => empty,
    };
    let second = insert_all(first, chain_rows(chain));
    match login {
        Some((user, pass)) => {
            lemma_lookup_after_credentials(empty, user, pass, addr, label);
        },
        None => {},
    }
    lemma_lookup_after_chain(first, chain, label);
    lemma_lookup_after_insert_all(second, network_rows(network), label);
    reveal_with_fuel(last_with, 2);
    assert("Block Height"@[0] != "RPC Username"@[0]);
    assert("Block Height"@[0] != "RPC Password"@[0]);
    assert("Prune Height"@[0] != "RPC Username"@[0]);
    assert("Prune Height"@[0] != "RPC Password"@[0]);
}

} // verus!
