use bitcoind_manager::chain::{Bip9, ChainInfo, NetworkInfo, SoftFork};
use bitcoind_manager::launch::Settings;
use bitcoind_manager::sidecar::{
    after_chain_query, after_network_query, begin_cycle, cycle_error_line, query_status,
    section_error_line, unsuccessful, QueryStatus, Reply, Section, Step,
};
use bitcoind_manager::stats::Stats;
use linear_map::LinearMap;

fn with_login() -> Settings {
    Settings {
        rpc_username: Some("alice".to_string()),
        rpc_password: Some("s3cret".to_string()),
        only_onion: None,
        pruning_mode: None,
    }
}

fn without_login() -> Settings {
    Settings { rpc_username: None, rpc_password: None, only_onion: None, pruning_mode: None }
}

fn chain_info(forks: Vec<(&str, SoftFork)>) -> ChainInfo {
    let mut map = LinearMap::new();
    for (name, fork) in forks {
        map.insert(name.to_string(), fork);
    }
    ChainInfo::new(700000, 700001, 999_990_000, 1610612736, 0, map)
}

fn proceed(step: Step) -> (Stats, Option<String>) {
    match step {
        Step::Proceed { stats, diagnostic } => (stats, diagnostic),
        Step::Abandon { diagnostic } => panic!("abandoned: {:?}", diagnostic),
    }
}

fn abandon(step: Step) -> Option<String> {
    match step {
        Step::Abandon { diagnostic } => diagnostic,
        Step::Proceed { .. } => panic!("went on"),
    }
}

fn labels(stats: &Stats) -> Vec<String> {
    stats.entries().into_iter().map(|(label, _)| label).collect()
}

#[test]
fn exit_codes_of_the_query_tool() {
    assert_eq!(query_status(Some(0)), QueryStatus::Success);
    assert_eq!(query_status(Some(28)), QueryStatus::NotReady);
    assert_eq!(query_status(Some(1)), QueryStatus::Failed);
    assert_eq!(query_status(Some(-28)), QueryStatus::Failed);
    assert_eq!(query_status(Some(27)), QueryStatus::Failed);
    assert_eq!(query_status(None), QueryStatus::Failed);
}

#[test]
fn replies_of_an_unsuccessful_query() {
    assert!(matches!(
        unsuccessful::<ChainInfo>(Some(28), Some("loading".to_string())),
        Reply::NotReady
    ));
    assert!(matches!(
        unsuccessful::<ChainInfo>(Some(1), Some("boom".to_string())),
        Reply::Failed(Some(text)) if text == "boom"
    ));
    assert!(matches!(unsuccessful::<NetworkInfo>(None, None), Reply::Failed(None)));
}

#[test]
fn cycle_without_credentials_starts_empty() {
    let (stats, diagnostic) = proceed(begin_cycle(&without_login(), "whatever"));
    assert_eq!(stats.version, 2);
    assert_eq!(stats.entries(), vec![]);
    assert_eq!(diagnostic, None);
    let mut half = with_login();
    half.rpc_password = None;
    let (stats, _) = proceed(begin_cycle(&half, "abc.onion"));
    assert_eq!(stats.entries(), vec![]);
    let mut half = with_login();
    half.rpc_username = None;
    let (stats, _) = proceed(begin_cycle(&half, "abc.onion"));
    assert_eq!(stats.entries(), vec![]);
}

#[test]
fn cycle_with_credentials_starts_with_the_connection_entries() {
    let (stats, diagnostic) = proceed(begin_cycle(&with_login(), "abc.onion"));
    assert_eq!(diagnostic, None);
    assert_eq!(
        labels(&stats),
        vec!["Tor Quick Connect", "LAN Quick Connect", "RPC Username", "RPC Password"]
    );
    let masked: Vec<bool> = stats.entries().into_iter().map(|(_, stat)| stat.masked).collect();
    assert_eq!(masked, vec![true, true, false, true]);
}

#[test]
fn credentials_need_an_onion_address() {
    assert_eq!(
        abandon(begin_cycle(&with_login(), "abc.local")),
        Some("ERROR IN SIDECAR: RPC address is not an onion address".to_string())
    );
}

#[test]
fn not_ready_chain_query_ends_the_cycle_silently() {
    let (stats, _) = proceed(begin_cycle(&with_login(), "abc.onion"));
    assert_eq!(abandon(after_chain_query(stats, unsuccessful(Some(28), None))), None);
    assert_eq!(
        abandon(after_chain_query(
            Stats::new(),
            unsuccessful(Some(28), Some("error code: -28".to_string()))
        )),
        None
    );
}

#[test]
fn not_ready_network_query_ends_the_cycle_silently() {
    let (stats, _) = proceed(after_chain_query(Stats::new(), Reply::Decoded(chain_info(vec![]))));
    assert_eq!(abandon(after_network_query(stats, Reply::NotReady)), None);
}

#[test]
fn failed_chain_query_leaves_its_section_out() {
    let (stats, _) = proceed(begin_cycle(&with_login(), "abc.onion"));
    let before = stats.entries();
    let (stats, diagnostic) =
        proceed(after_chain_query(stats, unsuccessful(Some(1), Some("boom\n".to_string()))));
    assert_eq!(stats.entries(), before);
    assert_eq!(diagnostic, Some("Error updating blockchain info: boom\n".to_string()));
    let (stats, diagnostic) = proceed(after_chain_query(stats, Reply::Failed(None)));
    assert_eq!(stats.entries(), before);
    assert_eq!(diagnostic, Some("Error updating blockchain info: UNKNOWN ERROR".to_string()));
}

#[test]
fn failed_network_query_leaves_its_section_out() {
    let (stats, diagnostic) =
        proceed(after_network_query(Stats::new(), Reply::Failed(Some("refused".to_string()))));
    assert_eq!(stats.entries(), vec![]);
    assert_eq!(diagnostic, Some("Error updating network info: refused".to_string()));
    let (_, diagnostic) = proceed(after_network_query(Stats::new(), Reply::Failed(None)));
    assert_eq!(diagnostic, Some("Error updating network info: UNKNOWN ERROR".to_string()));
}

#[test]
fn undecodable_answer_leaves_its_section_out() {
    let (stats, diagnostic) = proceed(after_chain_query(
        Stats::new(),
        Reply::Malformed("expected value at line 1 column 1".to_string()),
    ));
    assert_eq!(stats.entries(), vec![]);
    assert_eq!(
        diagnostic,
        Some("Error updating blockchain info: expected value at line 1 column 1".to_string())
    );
    let (stats, diagnostic) =
        proceed(after_network_query(stats, Reply::Malformed("EOF".to_string())));
    assert_eq!(stats.entries(), vec![]);
    assert_eq!(diagnostic, Some("Error updating network info: EOF".to_string()));
}

#[test]
fn query_that_cannot_be_run_ends_the_cycle() {
    assert_eq!(
        abandon(after_chain_query(Stats::new(), Reply::Unreachable("No such file".to_string()))),
        Some("ERROR IN SIDECAR: No such file".to_string())
    );
    assert_eq!(
        abandon(after_network_query(Stats::new(), Reply::Unreachable("No such file".to_string()))),
        Some("ERROR IN SIDECAR: No such file".to_string())
    );
}

#[test]
fn deployment_beyond_the_calendar_ends_the_cycle() {
    let never = SoftFork::Bip9 {
        active: false,
        bip9: Bip9::Defined { start_time: 0, timeout: 9223372036854775807, since: 0 },
    };
    assert_eq!(
        abandon(after_chain_query(Stats::new(), Reply::Decoded(chain_info(vec![("never", never)])))),
        Some("ERROR IN SIDECAR: deployment time out of range".to_string())
    );
}

#[test]
fn diagnostic_lines() {
    assert_eq!(cycle_error_line("x"), "ERROR IN SIDECAR: x");
    assert_eq!(section_error_line(Section::Chain, Some("x")), "Error updating blockchain info: x");
    assert_eq!(section_error_line(Section::Network, Some("y")), "Error updating network info: y");
    assert_eq!(
        section_error_line(Section::Network, None),
        "Error updating network info: UNKNOWN ERROR"
    );
}

#[test]
fn whole_cycle_publishes_every_section_in_order() {
    let (stats, _) = proceed(begin_cycle(&with_login(), "abc.onion"));
    let taproot = SoftFork::Bip9 {
        active: true,
        bip9: Bip9::Active { start_time: 1619222400, timeout: 1628640000, since: 699000 },
    };
    let (stats, diagnostic) =
        proceed(after_chain_query(stats, Reply::Decoded(chain_info(vec![("taproot", taproot)]))));
    assert_eq!(diagnostic, None);
    let (stats, diagnostic) = proceed(after_network_query(
        stats,
        Reply::Decoded(NetworkInfo { connections: 3, connections_in: 1, connections_out: 2 }),
    ));
    assert_eq!(diagnostic, None);
    assert_eq!(stats.version, 2);
    assert_eq!(
        labels(&stats),
        vec![
            "Tor Quick Connect",
            "LAN Quick Connect",
            "RPC Username",
            "RPC Password",
            "Block Height",
            "Synced Block Height",
            "Sync Progress",
            "Taproot Status",
            "Taproot Start Time",
            "Taproot Timeout",
            "Disk Usage",
            "Connections",
        ]
    );
    let values: Vec<String> = stats.entries().into_iter().map(|(_, stat)| stat.value).collect();
    assert_eq!(
        values[4..],
        [
            "700001",
            "700000",
            "100.00%",
            "Active",
            "04/24/2021 @ 00:00:00",
            "08/11/2021 @ 00:00:00",
            "1.50 GiB",
            "3 (1 in / 2 out)",
        ]
    );
}
