//! One cycle of the telemetry sidecar, as far as it decides anything: the
//! caller runs the queries and writes the file, and these functions say
//! what each answer means for the document.

use vstd::prelude::*;
use vstd::string::*;

use crate::chain::{ChainInfo, NetworkInfo};
use crate::launch::Settings;
use crate::stats::{
    distinct_labels, insert_all, lemma_insert_all_distinct, Rows, Stats, StatsView, STATS_VERSION,
};
use crate::telemetry::{chain_rows, credential_rows, ends_with, is_onion_address, network_rows};

verus! {

/// Seconds between two cycles.
pub const POLL_INTERVAL_SECS: u64 = 5;

/// The daemon's query tool and its fixed first argument.
pub const QUERY_TOOL: &'static str = "bitcoin-cli";

pub const QUERY_CONFIG_ARG: &'static str = "-conf=/root/.bitcoin/bitcoin.conf";

/// The two queries of a cycle.
pub const CHAIN_QUERY: &'static str = "getblockchaininfo";

pub const NETWORK_QUERY: &'static str = "getnetworkinfo";

/// Where the document is published, and where it is written first.
pub const STATS_PATH: &'static str = "/root/.bitcoin/start9/stats.yaml";

pub const STATS_TEMP_PATH: &'static str = "/root/.bitcoin/start9/.stats.yaml.tmp";

/// The query tool's exit code for a daemon that is still warming up.
pub const NOT_READY_EXIT: i32 = 28;

/// What the exit of the query tool means.
#[derive(Clone, Copy, Debug, PartialEq, Eq, Structural)]
pub enum QueryStatus {
    Success,
    NotReady,
    Failed,
}

/// The part of the document that a query feeds.
#[derive(Clone, Copy, Debug, PartialEq, Eq, Structural)]
pub enum Section {
    Chain,
    Network,
}

/// What came of one query.
#[derive(Clone, Debug)]
pub enum Reply<T> {
    /// The tool succeeded and its output was decoded.
    Decoded(T),
    /// The tool succeeded, but its output could not be decoded; the
    /// decoder's message.
    Malformed(String),
    /// The daemon is not ready yet.
    NotReady,
    /// The tool failed; its error output, if that is text.
    Failed(Option<String>),
    /// The tool could not be run at all; the reason.
    Unreachable(String),
}

/// A reply, reduced to what it means for the document.
pub enum ReplyView {
    /// The entries that the decoded answer contributes.
    Decoded(Rows),
    /// A decoded answer that cannot be written down.
    Unrenderable,
    Malformed(Seq<char>),
    NotReady,
    Failed(Option<Seq<char>>),
    Unreachable(Seq<char>),
}

/// How a cycle goes on after one of its steps.
#[derive(Clone, Debug)]
pub enum Step {
    /// The cycle goes on with this document: to the next query, or after
    /// the last one to publication.
    Proceed { stats: Stats, diagnostic: Option<String> },
    /// The cycle ends here and nothing is published.
    Abandon { diagnostic: Option<String> },
}

/// A step, as plain values.
pub enum StepView {
    Proceed { stats: StatsView, diagnostic: Option<Seq<char>> },
    Abandon { diagnostic: Option<Seq<char>> },
}

/// The text of an optional string.
pub open spec fn opt_text(text: Option<String>) -> Option<Seq<char>> {
    match text {
        Some(text) => Some(text@),
        None => None,
    }
}

impl View for Step {
    type V = StepView;

    open spec fn view(&self) -> StepView {
        match *self {
            Step::Proceed { stats, diagnostic } => StepView::Proceed {
                stats: stats@,
                diagnostic: opt_text(diagnostic),
            },
            Step::Abandon { diagnostic } => StepView::Abandon { diagnostic: opt_text(diagnostic) },
        }
    }
}

/// What a reply other than a decoded one means for the document.
pub open spec fn undecoded<T>(reply: Reply<T>) -> ReplyView {
    match reply {
        Reply::Decoded(_) => ReplyView::Unrenderable,
        Reply::Malformed(message) => ReplyView::Malformed(message@),
        Reply::NotReady => ReplyView::NotReady,
        Reply::Failed(output) => ReplyView::Failed(opt_text(output)),
        Reply::Unreachable(reason) => ReplyView::Unreachable(reason@),
    }
}

/// What a chain query's reply means for the document.
pub open spec fn chain_reply(reply: Reply<ChainInfo>) -> ReplyView {
    match reply {
        Reply::Decoded(info) => if info.renderable() {
            ReplyView::Decoded(chain_rows(info))
        } else {
            ReplyView::Unrenderable
        },
        _ => undecoded(reply),
    }
}

/// What a network query's reply means for the document.
pub open spec fn network_reply(reply: Reply<NetworkInfo>) -> ReplyView {
    match reply {
        Reply::Decoded(info) => ReplyView::Decoded(network_rows(info)),
        _ => undecoded(reply),
    }
}

/// See [`query_status`].
pub open spec fn status_of(exit_code: Option<i32>) -> QueryStatus {
    if exit_code == Some(0i32) {
        QueryStatus::Success
    } else if exit_code == Some(NOT_READY_EXIT) {
        QueryStatus::NotReady
    } else {
        QueryStatus::Failed
    }
}

/// Reads the exit of the query tool: code 0 is success, code 28 says that
/// the daemon is not ready, and anything else, a death by signal too,
/// is a failure.
pub fn query_status(exit_code: Option<i32>) -> (status: QueryStatus)
    ensures
        status == status_of(exit_code),
{
    match exit_code {
        Some(0) => QueryStatus::Success,
        Some(28) => QueryStatus::NotReady,
        _ => QueryStatus::Failed,
    }
}

/// See [`unsuccessful`].
pub open spec fn unsuccessful_view(exit_code: Option<i32>, output: Option<Seq<char>>) -> ReplyView {
    if status_of(exit_code) == QueryStatus::NotReady {
        ReplyView::NotReady
    } else {
        ReplyView::Failed(output)
    }
}

/// The reply for a query whose tool did not succeed.
pub fn unsuccessful<T>(exit_code: Option<i32>, output: Option<String>) -> (reply: Reply<T>)
    ensures
        match unsuccessful_view(exit_code, opt_text(output)) {
            ReplyView::NotReady => reply is NotReady,
            _ => reply == Reply::<T>::Failed(output),
        },
{
    match query_status(exit_code) {
        QueryStatus::NotReady => Reply::NotReady,
        _ => Reply::Failed(output),
    }
}

/// The line that reports an error which ends the cycle.
pub open spec fn cycle_error(reason: Seq<char>) -> Seq<char> {
    "ERROR IN SIDECAR: "@ + reason
}

/// The line that reports a section left out of the document.
pub open spec fn section_error(section: Section, detail: Option<Seq<char>>) -> Seq<char> {
    (match section {
        Section::Chain => "Error updating blockchain info: "@,
        Section::Network => "Error updating network info: "@,
    }) + match detail {
        Some(detail) => detail,
        None => "UNKNOWN ERROR"@,
    }
}

/// The document at the start of a cycle: the connection entries when the
/// settings hold credentials. Credentials beside an address that is no
/// onion address end the cycle.
pub open spec fn cycle_start(login: Option<(Seq<char>, Seq<char>)>, addr: Seq<char>) -> StepView {
    match login {
        None => StepView::Proceed {
            stats: StatsView { version: STATS_VERSION, data: Rows::empty() },
            diagnostic: None,
        },
        Some((user, pass)) => if ends_with(addr, "onion"@) {
            StepView::Proceed {
                stats: StatsView {
                    version: STATS_VERSION,
                    data: insert_all(Rows::empty(), credential_rows(user, pass, addr)),
                },
                diagnostic: None,
            }
        } else {
            StepView::Abandon {
                diagnostic: Some(cycle_error("RPC address is not an onion address"@)),
            }
        },
    }
}

/// How the cycle goes on after a reply. A decoded answer adds its entries.
/// A daemon that is not ready ends the cycle without a word. A failed or
/// undecodable answer leaves its section out and is reported. Anything
/// that cannot be carried on with ends the cycle and is reported.
pub open spec fn step_after(stats: StatsView, section: Section, reply: ReplyView) -> StepView {
    match reply {
        ReplyView::Decoded(rows) => StepView::Proceed {
            stats: StatsView { version: stats.version, data: insert_all(stats.data, rows) },
            diagnostic: None,
        },
        ReplyView::Malformed(message) => StepView::Proceed {
            stats,
            diagnostic: Some(section_error(section, Some(message))),
        },
        ReplyView::Failed(output) => StepView::Proceed {
            stats,
            diagnostic: Some(section_error(section, output)),
        },
        ReplyView::NotReady => StepView::Abandon { diagnostic: None },
        ReplyView::Unrenderable => StepView::Abandon {
            diagnostic: Some(cycle_error("deployment time out of range"@)),
        },
        ReplyView::Unreachable(reason) => StepView::Abandon {
            diagnostic: Some(cycle_error(reason)),
        },
    }
}

/// A whole cycle: the start, the chain query, the network query.
pub open spec fn cycle_result(
    login: Option<(Seq<char>, Seq<char>)>,
    addr: Seq<char>,
    chain: ReplyView,
    network: ReplyView,
) -> StepView {
    match cycle_start(login, addr) {
        StepView::Abandon { diagnostic } => StepView::Abandon { diagnostic },
        StepView::Proceed { stats, .. } => match step_after(stats, Section::Chain, chain) {
            StepView::Abandon { diagnostic } => StepView::Abandon { diagnostic },
            StepView::Proceed { stats, .. } => step_after(stats, Section::Network, network),
        },
    }
}

/// The published document after a cycle that found `before` published:
/// the new document where the cycle got to its end, else what was there.
pub open spec fn published_after(before: Option<StatsView>, result: StepView) -> Option<
    StatsView,
> {
    match result {
        StepView::Proceed { stats, .. } => Some(stats),
        StepView::Abandon { .. } => before,
    }
}

/// See [`cycle_error`].
pub fn cycle_error_line(reason: &str) -> (line: String)
    ensures
        line@ == cycle_error(reason@),
{
    let mut line = String::from_str("ERROR IN SIDECAR: ");
    line.append(reason);
    line
}

/// See [`section_error`].
pub fn section_error_line(section: Section, detail: Option<&str>) -> (line: String)
    ensures
        line@ == section_error(
            section,
            match detail {
                Some(detail) => Some(detail@),
                None => None,
            },
        ),
{
    let mut line = match section {
        Section::Chain => String::from_str("Error updating blockchain info: "),
        Section::Network => String::from_str("Error updating network info: "),
    };
    match detail {
        Some(detail) => {
            line.append(detail);
        },
        None => {
            line.append("UNKNOWN ERROR");
        },
    }
    line
}

/// Starts a cycle. See [`cycle_start`].
pub fn begin_cycle(settings: &Settings, rpc_address: &str) -> (step: Step)
    ensures
        step@ == cycle_start(settings.login(), rpc_address@),
{
    let mut stats = Stats::new();
    match (&settings.rpc_username, &settings.rpc_password) {
        (Some(user), Some(pass)) => {
            if is_onion_address(rpc_address) {
                stats.add_credentials(user.as_str(), pass.as_str(), rpc_address);
                Step::Proceed { stats, diagnostic: None }
            } else {
                Step::Abandon {
                    diagnostic: Some(cycle_error_line("RPC address is not an onion address")),
                }
            }
        },
        _ => Step::Proceed { stats, diagnostic: None },
    }
}

/// What a reply other than a decoded one does to the cycle.
fn after_undecoded<T>(stats: Stats, section: Section, reply: Reply<T>) -> (step: Step)
    ensures
        step@ == step_after(stats@, section, undecoded(reply)),
{
    match reply {
        Reply::Malformed(message) => Step::Proceed {
            stats,
            diagnostic: Some(section_error_line(section, Some(message.as_str()))),
        },
        Reply::Failed(Some(output)) => Step::Proceed {
            stats,
            diagnostic: Some(section_error_line(section, Some(output.as_str()))),
        },
        Reply::Failed(None) => Step::Proceed {
            stats,
            diagnostic: Some(section_error_line(section, None)),
        },
        Reply::NotReady => Step::Abandon { diagnostic: None },
        Reply::Unreachable(reason) => Step::Abandon {
            diagnostic: Some(cycle_error_line(reason.as_str())),
        },
        Reply::Decoded(_) => Step::Abandon {
            diagnostic: Some(cycle_error_line("deployment time out of range")),
        },
    }
}

/// Takes the chain query's reply. See [`step_after`].
pub fn after_chain_query(stats: Stats, reply: Reply<ChainInfo>) -> (step: Step)
    ensures
        step@ == step_after(stats@, Section::Chain, chain_reply(reply)),
{
    match reply {
        Reply::Decoded(info) => {
            if info.is_renderable() {
                let mut stats = stats;
                stats.add_chain_info(&info);
                Step::Proceed { stats, diagnostic: None }
            } else {
                after_undecoded(stats, Section::Chain, Reply::Decoded(info))
            }
        },
        other => after_undecoded(stats, Section::Chain, other),
    }
}

/// Takes the network query's reply; a step that proceeds holds the
/// document to publish. See [`step_after`].
pub fn after_network_query(stats: Stats, reply: Reply<NetworkInfo>) -> (step: Step)
    ensures
        step@ == step_after(stats@, Section::Network, network_reply(reply)),
{
    match reply {
        Reply::Decoded(info) => {
            let mut stats = stats;
            stats.add_network_info(&info);
            Step::Proceed { stats, diagnostic: None }
        },
        other => after_undecoded(stats, Section::Network, other),
    }
}

/// A chain query that ends with the exit code for a daemon that is not
/// ready ends the cycle without a word, whatever else the cycle holds, and
/// the document that was published before stays as it was.
pub proof fn law_not_ready_keeps_published(
    before: Option<StatsView>,
    login: Option<(Seq<char>, Seq<char>)>,
    addr: Seq<char>,
    output: Option<Seq<char>>,
    network: ReplyView,
)
    ensures
        unsuccessful_view(Some(NOT_READY_EXIT), output) == ReplyView::NotReady,
        cycle_result(login, addr, ReplyView::NotReady, network) is Abandon,
        cycle_start(login, addr) is Proceed ==> cycle_result(
            login,
            addr,
            ReplyView::NotReady,
            network,
        ) == (StepView::Abandon { diagnostic: None }),
        published_after(before, cycle_result(login, addr, ReplyView::NotReady, network)) == before,
{
}

/// A cycle that publishes keeps the labels of its document distinct and
/// writes the current layout version.
pub proof fn law_published_labels_distinct(
    login: Option<(Seq<char>, Seq<char>)>,
    addr: Seq<char>,
    chain: ReplyView,
    network: ReplyView,
)
    ensures
        cycle_result(login, addr, chain, network) matches StepView::Proceed { stats, .. }
            ==> stats.version == STATS_VERSION && distinct_labels(stats.data),
{
    let empty = Rows::empty();
    match login {
        Some((user, pass)) => {
            lemma_insert_all_distinct(empty, credential_rows(user, pass, addr));
        },
        None => {},
    }
    if let StepView::Proceed { stats: first, .. } = cycle_start(login, addr) {
        if let ReplyView::Decoded(rows) = chain {
            lemma_insert_all_distinct(first.data, rows);
        }
        if let StepView::Proceed { stats: second, .. } = step_after(first, Section::Chain, chain) {
            if let ReplyView::Decoded(rows) = network {
                lemma_insert_all_distinct(second.data, rows);
            }
        }
    }
}

} // verus!
