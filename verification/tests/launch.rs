use bitcoind_manager::launch::{
    backup_ignore, daemon_args, marker_removed, plan_launch, EnvVar, Environment, Marker, Markers,
    ProxyPlan, Removal, Settings, StartupError,
};

fn environment() -> Environment {
    Environment {
        embassy_ip: Some("172.18.0.1".to_string()),
        peer_tor_address: Some("peerpeerpeer.onion".to_string()),
        rpc_tor_address: Some("rpcrpcrpc.onion".to_string()),
    }
}

fn settings() -> Settings {
    Settings { rpc_username: None, rpc_password: None, only_onion: None, pruning_mode: None }
}

fn no_markers() -> Markers {
    Markers { reindex: false, reindex_chainstate: false }
}

fn base_args() -> Vec<String> {
    vec![
        "-onion=172.18.0.1:9050".to_string(),
        "-externalip=peerpeerpeer.onion".to_string(),
        "-datadir=/root/.bitcoin".to_string(),
        "-deprecatedrpc=warnings".to_string(),
        "-conf=/root/.bitcoin/bitcoin.conf".to_string(),
    ]
}

#[test]
fn plan_has_the_base_arguments() {
    let plan = plan_launch(&environment(), &settings(), &no_markers()).unwrap();
    assert_eq!(plan.args, base_args());
    assert_eq!(plan.consumed, None);
    assert_eq!(plan.proxy, None);
    assert_eq!(plan.rpc_address, "rpcrpcrpc.onion");
}

#[test]
fn missing_environment_variable_fails_startup() {
    let mut env = environment();
    env.embassy_ip = None;
    assert_eq!(
        plan_launch(&env, &settings(), &no_markers()),
        Err(StartupError::MissingEnv(EnvVar::EmbassyIp))
    );
    let mut env = environment();
    env.peer_tor_address = None;
    assert_eq!(
        plan_launch(&env, &settings(), &no_markers()),
        Err(StartupError::MissingEnv(EnvVar::PeerTorAddress))
    );
    let mut env = environment();
    env.rpc_tor_address = None;
    assert_eq!(
        plan_launch(&env, &settings(), &no_markers()),
        Err(StartupError::MissingEnv(EnvVar::RpcTorAddress))
    );
}

#[test]
fn missing_variables_are_reported_in_the_order_they_are_asked_for() {
    let env = Environment { embassy_ip: None, peer_tor_address: None, rpc_tor_address: None };
    assert_eq!(
        plan_launch(&env, &settings(), &no_markers()),
        Err(StartupError::MissingEnv(EnvVar::PeerTorAddress))
    );
    let env = Environment {
        embassy_ip: None,
        peer_tor_address: Some("p.onion".to_string()),
        rpc_tor_address: None,
    };
    assert_eq!(
        plan_launch(&env, &settings(), &no_markers()),
        Err(StartupError::MissingEnv(EnvVar::RpcTorAddress))
    );
}

#[test]
fn environment_variable_names() {
    assert_eq!(EnvVar::EmbassyIp.name(), "EMBASSY_IP");
    assert_eq!(EnvVar::PeerTorAddress.name(), "PEER_TOR_ADDRESS");
    assert_eq!(EnvVar::RpcTorAddress.name(), "RPC_TOR_ADDRESS");
}

#[test]
fn only_onion_forces_the_proxy() {
    let mut s = settings();
    s.only_onion = Some(true);
    let plan = plan_launch(&environment(), &s, &no_markers()).unwrap();
    let mut expected = base_args();
    expected.push("-proxy=172.18.0.1:9050".to_string());
    assert_eq!(plan.args, expected);

    s.only_onion = Some(false);
    let plan = plan_launch(&environment(), &s, &no_markers()).unwrap();
    assert_eq!(plan.args, base_args());
}

#[test]
fn full_reindex_marker_is_used_once() {
    let markers = Markers { reindex: true, reindex_chainstate: false };
    let plan = plan_launch(&environment(), &settings(), &markers).unwrap();
    assert!(plan.args.contains(&"-reindex".to_string()));
    assert_eq!(plan.args.last().map(|s| s.as_str()), Some("-reindex"));
    assert_eq!(plan.consumed, Some(Marker::Reindex));

    let plan = plan_launch(&environment(), &settings(), &no_markers()).unwrap();
    assert!(!plan.args.contains(&"-reindex".to_string()));
    assert_eq!(plan.consumed, None);
}

#[test]
fn chainstate_reindex_marker_is_used_once() {
    let markers = Markers { reindex: false, reindex_chainstate: true };
    let plan = plan_launch(&environment(), &settings(), &markers).unwrap();
    let mut expected = base_args();
    expected.push("-reindex-chainstate".to_string());
    assert_eq!(plan.args, expected);
    assert_eq!(plan.consumed, Some(Marker::ReindexChainstate));
}

#[test]
fn full_reindex_goes_before_chainstate_reindex() {
    let markers = Markers { reindex: true, reindex_chainstate: true };
    let plan = plan_launch(&environment(), &settings(), &markers).unwrap();
    let mut expected = base_args();
    expected.push("-reindex".to_string());
    assert_eq!(plan.args, expected);
    assert_eq!(plan.consumed, Some(Marker::Reindex));
    assert_eq!(markers.choose_marker(), Some(Marker::Reindex));
}

#[test]
fn proxy_argument_comes_before_the_reindex_argument() {
    let args = daemon_args(
        "10.0.0.1",
        "peer.onion",
        Some(true),
        &Markers { reindex: false, reindex_chainstate: true },
    );
    assert_eq!(
        args,
        vec![
            "-onion=10.0.0.1:9050",
            "-externalip=peer.onion",
            "-datadir=/root/.bitcoin",
            "-deprecatedrpc=warnings",
            "-conf=/root/.bitcoin/bitcoin.conf",
            "-proxy=10.0.0.1:9050",
            "-reindex-chainstate",
        ]
    );
}

#[test]
fn marker_paths() {
    assert_eq!(Marker::Reindex.path(), "/root/.bitcoin/requires.reindex");
    assert_eq!(Marker::ReindexChainstate.path(), "/root/.bitcoin/requires.reindex_chainstate");
}

#[test]
fn only_a_failed_removal_stops_startup() {
    assert_eq!(marker_removed(Marker::Reindex, Removal::Removed), Ok(()));
    assert_eq!(marker_removed(Marker::Reindex, Removal::NotFound), Ok(()));
    assert_eq!(marker_removed(Marker::ReindexChainstate, Removal::NotFound), Ok(()));
    assert_eq!(
        marker_removed(Marker::Reindex, Removal::Failed),
        Err(StartupError::MarkerStuck(Marker::Reindex))
    );
    assert_eq!(
        marker_removed(Marker::ReindexChainstate, Removal::Failed),
        Err(StartupError::MarkerStuck(Marker::ReindexChainstate))
    );
}

#[test]
fn pruned_node_gets_the_proxy() {
    let mut s = settings();
    s.pruning_mode = Some("automatic".to_string());
    s.only_onion = Some(true);
    assert!(s.is_pruned());
    let plan = plan_launch(&environment(), &s, &no_markers()).unwrap();
    assert_eq!(
        plan.proxy,
        Some(ProxyPlan { tor_proxy: "172.18.0.1:9050".to_string(), only_onion: Some(true) })
    );
}

#[test]
fn unpruned_node_gets_no_proxy() {
    let mut s = settings();
    assert!(!s.is_pruned());
    s.pruning_mode = Some("manual".to_string());
    assert!(!s.is_pruned());
    s.pruning_mode = Some("automatic ".to_string());
    assert!(!s.is_pruned());
    let plan = plan_launch(&environment(), &s, &no_markers()).unwrap();
    assert_eq!(plan.proxy, None);
}

#[test]
fn backup_ignore_lists_the_chain_data() {
    assert_eq!(backup_ignore(), "blocks/\nchainstate/\nindexes/\ntestnet3/\n");
}
