//! Bookkeeping of the multi-node simulation.

use mpc_wallet_apps::elm::{Message, SessionInfo, SessionType, WalletMode};
use mpc_wallet_apps::simulate::{
    agreement, build_result, check_simulation_opts, sim_device_id, sim_device_ids, sim_password,
    sim_start, sim_step, sim_wallet_config, watch_events, Evt, EvtKind, NodeOutcome, SimAction,
    SimPhase, SimulateOpts,
};

fn opts(nodes: usize, threshold: u16, curve: &str) -> SimulateOpts {
    SimulateOpts { nodes, threshold, curve: curve.to_string(), signal_url: None, timeout_secs: 90 }
}

fn outcome(i: usize, key: &str) -> NodeOutcome {
    NodeOutcome { device_id: sim_device_id(i), wallet_id: "w".to_string(), group_public_key: key.to_string() }
}

#[test]
fn options_are_checked() {
    assert_eq!(check_simulation_opts(&opts(2, 2, "secp256k1")), Ok(()));
    assert_eq!(
        check_simulation_opts(&opts(2, 2, "ed25519")),
        Err("simulate currently supports curve=secp256k1 only".to_string())
    );
    assert_eq!(check_simulation_opts(&opts(1, 1, "secp256k1")), Err("need at least 2 nodes".to_string()));
    assert_eq!(check_simulation_opts(&opts(3, 0, "secp256k1")), Err("threshold must be in 1..=nodes".to_string()));
    assert_eq!(check_simulation_opts(&opts(3, 4, "secp256k1")), Err("threshold must be in 1..=nodes".to_string()));
}

#[test]
fn node_identities() {
    assert_eq!(sim_device_id(0), "sim-node-0");
    assert_eq!(sim_password(11), "sim-password-11");
    assert_eq!(sim_device_ids(3), vec!["sim-node-0", "sim-node-1", "sim-node-2"]);
    let c = sim_wallet_config(&opts(3, 2, "secp256k1"));
    assert_eq!(c.name, "sim");
    assert_eq!((c.total_participants, c.threshold, c.mode), (3, 2, WalletMode::Online));
}

#[test]
fn agreement_requires_same_non_empty_key() {
    let (agreed, key) = agreement(&vec![outcome(0, "02ab"), outcome(1, "02ab")]);
    assert!(agreed);
    assert_eq!(key, "02ab");
    let (agreed, key) = agreement(&vec![outcome(0, "02ab"), outcome(1, "03cd")]);
    assert!(!agreed);
    assert_eq!(key, "02ab");
    let (agreed, _) = agreement(&vec![outcome(0, ""), outcome(1, "")]);
    assert!(!agreed);
    let (agreed, key) = agreement(&vec![]);
    assert!(!agreed);
    assert_eq!(key, "");
}

#[test]
fn result_is_assembled() {
    let r = build_result(&opts(2, 2, "secp256k1"), vec![outcome(0, "k"), outcome(1, "k")], 1234);
    assert_eq!((r.nodes, r.threshold, r.agreed, r.elapsed_ms), (2, 2, true, 1234));
    assert_eq!(r.group_public_key, "k");
    assert_eq!(r.outcomes.len(), 2);
}

#[test]
fn watcher_events() {
    assert_eq!(watch_events(true, None), vec![Evt::Connected]);
    assert!(watch_events(false, Some(&Message::ForceRemount)).is_empty());
    let session = SessionInfo {
        session_id: "s-1".to_string(),
        proposer_id: "sim-node-0".to_string(),
        total: 2,
        threshold: 2,
        participants: vec![],
        session_type: SessionType::DKG,
        curve_type: "secp256k1".to_string(),
        coordination_type: "online".to_string(),
    };
    assert_eq!(
        watch_events(true, Some(&Message::SessionDiscovered { session })),
        vec![Evt::Connected, Evt::SessionDiscovered("s-1".to_string())]
    );
    assert_eq!(
        watch_events(
            false,
            Some(&Message::DKGFinalized { wallet_id: "w".to_string(), group_pubkey_hex: "02ff".to_string() })
        ),
        vec![Evt::DkgDone { wallet_id: "w".to_string(), group_key: "02ff".to_string() }]
    );
}

#[test]
fn ceremony_order() {
    let o = opts(3, 2, "secp256k1");
    let (st, first) = sim_start();
    assert_eq!(first, SimAction::Await { node: 0, kind: EvtKind::Connected, secs: 15 });
    // A stray event repeats the same wait.
    let (st, acts) = sim_step(st, &o, Evt::SessionDiscovered("x".to_string()));
    assert_eq!(acts, vec![SimAction::Await { node: 0, kind: EvtKind::Connected, secs: 15 }]);
    let (st, acts) = sim_step(st, &o, Evt::Connected);
    assert_eq!(acts, vec![SimAction::Await { node: 1, kind: EvtKind::Connected, secs: 15 }]);
    let (st, _) = sim_step(st, &o, Evt::Connected);
    let (st, acts) = sim_step(st, &o, Evt::Connected);
    assert_eq!(acts.len(), 2);
    match &acts[0] {
        SimAction::Create { node, config, password, label } => {
            assert_eq!(*node, 0);
            assert_eq!((config.name.as_str(), config.total_participants, config.threshold), ("sim", 3, 2));
            assert_eq!(password, "sim-password-0");
            assert_eq!(label, "sim");
        }
        other => panic!("expected Create, got {:?}", other),
    }
    assert_eq!(acts[1], SimAction::Await { node: 1, kind: EvtKind::SessionDiscovered, secs: 20 });
    assert_eq!(st.phase, SimPhase::Discovering);
    let (st, acts) = sim_step(st, &o, Evt::SessionDiscovered("s-9".to_string()));
    assert_eq!(
        acts,
        vec![
            SimAction::Join { node: 1, session_id: "s-9".to_string(), password: "sim-password-1".to_string(), label: "sim".to_string() },
            SimAction::Await { node: 2, kind: EvtKind::SessionDiscovered, secs: 20 },
        ]
    );
    let (st, acts) = sim_step(st, &o, Evt::SessionDiscovered("s-9".to_string()));
    assert_eq!(acts[1], SimAction::Await { node: 0, kind: EvtKind::DkgDone, secs: 90 });
    let mut st = st;
    for i in 0..3 {
        let (s, acts) = sim_step(
            st,
            &o,
            Evt::DkgDone { wallet_id: "w".to_string(), group_key: "02aa".to_string() },
        );
        st = s;
        if i < 2 {
            assert_eq!(acts, vec![SimAction::Await { node: i + 1, kind: EvtKind::DkgDone, secs: 90 }]);
        } else {
            assert_eq!(acts, vec![SimAction::Finish]);
        }
    }
    assert_eq!(st.phase, SimPhase::Done);
    assert_eq!(st.outcomes.len(), 3);
    assert_eq!(st.outcomes[2].device_id, "sim-node-2");
    assert!(agreement(&st.outcomes).0);
}
