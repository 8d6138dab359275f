//! Bookkeeping of the in-process multi-node DKG simulation: option checks,
//! per-node identities, the events watched on each node, and the verdict
//! over the nodes' outcomes. The runners, the embedded signal server and the
//! clock are driven by the caller.

use vstd::prelude::*;
use vstd::string::*;
use crate::elm::{Message, WalletConfig, WalletMode};
use crate::text::{decimal, decimal_string, owned, str_eq};

verus! {

/// Simulation configuration.
#[derive(Debug, Clone, PartialEq, Eq)]
pub struct SimulateOpts {
    pub nodes: usize,
    pub threshold: u16,
    pub curve: String,
    /// External signal server; `None` embeds one on an ephemeral port.
    pub signal_url: Option<String>,
    pub timeout_secs: u64,
}

/// What one node reported at the end of its DKG.
#[derive(Debug, Clone, PartialEq, Eq)]
pub struct NodeOutcome {
    pub device_id: String,
    pub wallet_id: String,
    pub group_public_key: String,
}

/// The structured result of a simulation.
#[derive(Debug, Clone, PartialEq, Eq)]
pub struct SimulationResult {
    pub nodes: usize,
    pub threshold: u16,
    /// True iff every node finished DKG with the same non-empty group key.
    pub agreed: bool,
    pub group_public_key: String,
    pub outcomes: Vec<NodeOutcome>,
    pub elapsed_ms: u128,
}

/// Why the options are refused, if they are.
pub open spec fn sim_opts_error(curve: Seq<char>, nodes: usize, threshold: u16) -> Option<Seq<char>> {
    if curve != "secp256k1"@ {
        Some("simulate currently supports curve=secp256k1 only"@)
    } else if nodes < 2 {
        Some("need at least 2 nodes"@)
    } else if threshold < 1 || threshold > nodes {
        Some("threshold must be in 1..=nodes"@)
    } else {
        None
    }
}

/// Checks the options: secp256k1 only, at least two nodes, and a threshold
/// in `1..=nodes`.
pub fn check_simulation_opts(opts: &SimulateOpts) -> (r: Result<(), String>)
    ensures
        match sim_opts_error(opts.curve@, opts.nodes, opts.threshold) {
            None => r is Ok,
            Some(msg) => r matches Err(m) && m@ == msg,
        },
        opts.curve@ == "secp256k1"@ && opts.nodes >= 2 && 1 <= opts.threshold <= opts.nodes ==> r is Ok,
        r is Ok ==> opts.curve@ == "secp256k1"@ && opts.nodes >= 2 && 1 <= opts.threshold <= opts.nodes,
{
    if !str_eq(opts.curve.as_str(), "secp256k1") {
        return Err(owned("simulate currently supports curve=secp256k1 only"));
    }
    if opts.nodes < 2 {
        return Err(owned("need at least 2 nodes"));
    }
    if opts.threshold < 1 || opts.threshold as usize > opts.nodes {
        return Err(owned("threshold must be in 1..=nodes"));
    }
    Ok(())
}

/// Device id of node `i`: `sim-node-<i>`.
pub fn sim_device_id(i: usize) -> (s: String)
    ensures
        s@ == "sim-node-"@ + decimal(i as nat),
{
    let mut s = owned("sim-node-");
    let n = decimal_string(i as u64);
    s.append(n.as_str());
    s
}

/// Keystore password of node `i`: `sim-password-<i>`.
pub fn sim_password(i: usize) -> (s: String)
    ensures
        s@ == "sim-password-"@ + decimal(i as nat),
{
    let mut s = owned("sim-password-");
    let n = decimal_string(i as u64);
    s.append(n.as_str());
    s
}

/// The device ids of all nodes, in order.
pub fn sim_device_ids(nodes: usize) -> (ids: Vec<String>)
    ensures
        ids@.len() == nodes,
        forall|i: int| 0 <= i < nodes ==> #[trigger] ids@[i]@ == "sim-node-"@ + decimal(i as nat),
{
    let mut ids: Vec<String> = Vec::new();
    let mut i: usize = 0;
    while i < nodes
        invariant
            i <= nodes,
            ids@.len() == i,
            forall|j: int| 0 <= j < i ==> #[trigger] ids@[j]@ == "sim-node-"@ + decimal(j as nat),
        decreases nodes - i,
    {
        ids.push(sim_device_id(i));
        i = i + 1;
    }
    ids
}

/// The wallet node 0 announces: named `sim`, all nodes participate
/// (the count taken as `u16`, as the runner expects), online.
pub fn sim_wallet_config(opts: &SimulateOpts) -> (c: WalletConfig)
    ensures
        c.name@ == "sim"@,
        c.total_participants == opts.nodes as u16,
        c.threshold == opts.threshold,
        c.mode == WalletMode::Online,
{
    WalletConfig {
        name: owned("sim"),
        total_participants: opts.nodes as u16,
        threshold: opts.threshold,
        mode: WalletMode::Online,
    }
}

/// Events a node's watcher reports.
#[derive(Debug, Clone, PartialEq, Eq)]
pub enum Evt {
    Connected,
    SessionDiscovered(String),
    DkgDone { wallet_id: String, group_key: String },
}

/// The events one model update produces: `Connected` while the node is
/// connected, then the discovered session or the finished DKG, if the
/// update carried one.
pub fn watch_events(connected: bool, msg: Option<&Message>) -> (evs: Vec<Evt>)
    ensures
        ({
            let base = if connected { 1int } else { 0int };
            &&& connected ==> evs@[0] == Evt::Connected
            &&& match msg {
                Some(Message::SessionDiscovered { session }) => evs@.len() == base + 1
                    && evs@[base] == Evt::SessionDiscovered(session.session_id),
                Some(Message::DKGFinalized { wallet_id, group_pubkey_hex }) => evs@.len() == base + 1
                    && evs@[base] == Evt::DkgDone { wallet_id: *wallet_id, group_key: *group_pubkey_hex },
                _ => evs@.len() == base,
            }
        }),
{
    let mut evs: Vec<Evt> = Vec::new();
    if connected {
        evs.push(Evt::Connected);
    }
    match msg {
        Some(Message::SessionDiscovered { session }) => {
            evs.push(Evt::SessionDiscovered(session.session_id.clone()));
        },
        Some(Message::DKGFinalized { wallet_id, group_pubkey_hex }) => {
            evs.push(Evt::DkgDone { wallet_id: wallet_id.clone(), group_key: group_pubkey_hex.clone() });
        },
        _ => {},
    }
    evs
}

/// The group key of the first node, or empty when there is none.
pub open spec fn first_key(outcomes: Seq<NodeOutcome>) -> Seq<char> {
    if outcomes.len() > 0 { outcomes[0].group_public_key@ } else { Seq::empty() }
}

/// Every node reports the same non-empty group key.
pub open spec fn all_agree(outcomes: Seq<NodeOutcome>) -> bool {
    &&& first_key(outcomes).len() > 0
    &&& forall|i: int| 0 <= i < outcomes.len() ==> #[trigger] outcomes[i].group_public_key@
        == first_key(outcomes)
}

/// The verdict over the outcomes: the agreed flag and the first node's key.
pub fn agreement(outcomes: &Vec<NodeOutcome>) -> (r: (bool, String))
    ensures
        r.0 == all_agree(outcomes@),
        r.1@ == first_key(outcomes@),
        r.0 ==> outcomes@.len() > 0 && outcomes@[0].group_public_key@.len() > 0,
        r.0 ==> forall|i: int| 0 <= i < outcomes@.len() ==> #[trigger] outcomes@[i].group_public_key@
            == outcomes@[0].group_public_key@,
        forall|i: int, j: int| 0 <= i < outcomes@.len() && 0 <= j < outcomes@.len()
            && #[trigger] outcomes@[i].group_public_key@ != #[trigger] outcomes@[j].group_public_key@ ==> !r.0,
        outcomes@.len() > 0 && outcomes@[0].group_public_key@.len() > 0 && (forall|i: int|
            0 <= i < outcomes@.len() ==> #[trigger] outcomes@[i].group_public_key@
                == outcomes@[0].group_public_key@) ==> r.0,
{
    if outcomes.len() == 0 {
        return (false, String::new());
    }
    let first = outcomes[0].group_public_key.clone();
    if first.as_str().unicode_len() == 0 {
        return (false, first);
    }
    let mut i: usize = 0;
    while i < outcomes.len()
        invariant
            i <= outcomes@.len(),
            outcomes@.len() > 0,
            first@ == first_key(outcomes@),
            forall|j: int| 0 <= j < i ==> #[trigger] outcomes@[j].group_public_key@ == first@,
        decreases outcomes@.len() - i,
    {
        if !str_eq(outcomes[i].group_public_key.as_str(), first.as_str()) {
            return (false, first);
        }
        i = i + 1;
    }
    (true, first)
}

/// Assembles the result from the options, the collected outcomes and the
/// elapsed time.
pub fn build_result(opts: &SimulateOpts, outcomes: Vec<NodeOutcome>, elapsed_ms: u128) -> (r: SimulationResult)
    ensures
        r.nodes == opts.nodes,
        r.threshold == opts.threshold,
        r.agreed == all_agree(outcomes@),
        r.group_public_key@ == first_key(outcomes@),
        r.outcomes == outcomes,
        r.elapsed_ms == elapsed_ms,
{
    let (agreed, group_public_key) = agreement(&outcomes);
    SimulationResult {
        nodes: opts.nodes,
        threshold: opts.threshold,
        agreed,
        group_public_key,
        outcomes,
        elapsed_ms,
    }
}

/// Stage of the simulation ceremony.
#[derive(Debug, Clone, Copy, PartialEq, Eq, Structural)]
pub enum SimPhase {
    /// Waiting for each node in turn to report its connection.
    Connecting,
    /// Node 0 has announced; waiting for each other node to discover it.
    Discovering,
    /// Waiting for each node in turn to finish its DKG.
    Collecting,
    Done,
}

/// Kind of a watched event.
#[derive(Debug, Clone, Copy, PartialEq, Eq, Structural)]
pub enum EvtKind {
    Connected,
    SessionDiscovered,
    DkgDone,
}

/// The kind of an event.
pub open spec fn evt_kind(e: Evt) -> EvtKind {
    match e {
        Evt::Connected => EvtKind::Connected,
        Evt::SessionDiscovered(_) => EvtKind::SessionDiscovered,
        Evt::DkgDone { .. } => EvtKind::DkgDone,
    }
}

/// Where the ceremony stands: the phase, the node being waited on, and the
/// outcomes collected so far.
#[derive(Debug, Clone, PartialEq, Eq)]
pub struct SimState {
    pub phase: SimPhase,
    pub node: usize,
    pub outcomes: Vec<NodeOutcome>,
}

/// What the driver must do next.
#[derive(Debug, Clone, PartialEq, Eq)]
pub enum SimAction {
    /// Wait on `node`'s events for one of `kind`, at most `secs` seconds.
    Await { node: usize, kind: EvtKind, secs: u64 },
    /// Ask `node` to create the wallet.
    Create { node: usize, config: WalletConfig, password: String, label: String },
    /// Ask `node` to join the discovered session.
    Join { node: usize, session_id: String, password: String, label: String },
    /// The ceremony is over; the outcomes are complete.
    Finish,
}

/// Seconds to wait for connection, discovery and DKG completion.
pub open spec fn phase_secs(phase: SimPhase, opts: SimulateOpts) -> u64 {
    match phase {
        SimPhase::Connecting => 15,
        SimPhase::Discovering => 20,
        _ => opts.timeout_secs,
    }
}

/// The event kind awaited in a phase.
pub open spec fn phase_kind(phase: SimPhase) -> EvtKind {
    match phase {
        SimPhase::Connecting => EvtKind::Connected,
        SimPhase::Discovering => EvtKind::SessionDiscovered,
        _ => EvtKind::DkgDone,
    }
}

/// The state is one the ceremony can be in.
pub open spec fn sim_wf(st: SimState, nodes: usize) -> bool {
    &&& nodes >= 2
    &&& st.phase != SimPhase::Done ==> st.node < nodes
    &&& st.phase == SimPhase::Discovering ==> st.node >= 1
    &&& st.phase == SimPhase::Collecting ==> st.outcomes@.len() == st.node
    &&& st.phase == SimPhase::Done ==> st.outcomes@.len() == nodes
    &&& st.phase != SimPhase::Collecting && st.phase != SimPhase::Done ==> st.outcomes@.len() == 0
}

/// The wallet announced by node 0, as `sim_wallet_config` builds it.
pub open spec fn is_sim_config(c: WalletConfig, opts: SimulateOpts) -> bool {
    &&& c.name@ == "sim"@
    &&& c.total_participants == opts.nodes as u16
    &&& c.threshold == opts.threshold
    &&& c.mode == WalletMode::Online
}

fn evt_kind_of(e: &Evt) -> (k: EvtKind)
    ensures
        k == evt_kind(*e),
{
    match e {
        Evt::Connected => EvtKind::Connected,
        Evt::SessionDiscovered(_) => EvtKind::SessionDiscovered,
        Evt::DkgDone { .. } => EvtKind::DkgDone,
    }
}

/// The ceremony starts by waiting 15 s for node 0's connection.
pub fn sim_start() -> (r: (SimState, SimAction))
    ensures
        r.0.phase == SimPhase::Connecting,
        r.0.node == 0,
        r.0.outcomes@.len() == 0,
        r.1 == (SimAction::Await { node: 0, kind: EvtKind::Connected, secs: 15 }),
{
    (
        SimState { phase: SimPhase::Connecting, node: 0, outcomes: Vec::new() },
        SimAction::Await { node: 0, kind: EvtKind::Connected, secs: 15 },
    )
}

/// One step of the ceremony, fed the event awaited on `st.node`.
///
/// Every node is waited on for its connection (15 s each); then node 0
/// creates the wallet, and each other node in turn waits for the announced
/// session (20 s) and joins it with its own password; finally each node in
/// turn is waited on for its DKG outcome (the configured time-out), which
/// is recorded under its device id. An event of another kind than the one
/// awaited changes nothing and the same wait is asked for again.
pub fn sim_step(st: SimState, opts: &SimulateOpts, ev: Evt) -> (r: (SimState, Vec<SimAction>))
    requires
        sim_wf(st, opts.nodes),
        st.phase != SimPhase::Done,
    ensures
        sim_wf(r.0, opts.nodes),
        evt_kind(ev) != phase_kind(st.phase) ==> {
            &&& r.0 == st
            &&& r.1@ == seq![
                SimAction::Await { node: st.node, kind: phase_kind(st.phase), secs: phase_secs(st.phase, *opts) },
            ]
        },
        evt_kind(ev) == phase_kind(st.phase) ==> match st.phase {
            SimPhase::Connecting => if st.node + 1 < opts.nodes {
                &&& r.0 == SimState { node: (st.node + 1) as usize, ..st }
                &&& r.1@ == seq![
                    SimAction::Await { node: (st.node + 1) as usize, kind: EvtKind::Connected, secs: 15 },
                ]
            } else {
                &&& r.0 == SimState { phase: SimPhase::Discovering, node: 1, ..st }
                &&& r.1@.len() == 2
                &&& r.1@[0] matches SimAction::Create { node, config, password, label }
                    && node == 0 && is_sim_config(config, *opts)
                    && password@ == "sim-password-"@ + decimal(0) && label@ == "sim"@
                &&& r.1@[1] == (SimAction::Await { node: 1, kind: EvtKind::SessionDiscovered, secs: 20 })
            },
            SimPhase::Discovering => {
                &&& r.1@.len() == 2
                &&& r.1@[0] matches SimAction::Join { node, session_id, password, label }
                    && node == st.node && Evt::SessionDiscovered(session_id) == ev
                    && password@ == "sim-password-"@ + decimal(st.node as nat) && label@ == "sim"@
                &&& if st.node + 1 < opts.nodes {
                    &&& r.0 == SimState { node: (st.node + 1) as usize, ..st }
                    &&& r.1@[1] == (SimAction::Await {
                        node: (st.node + 1) as usize,
                        kind: EvtKind::SessionDiscovered,
                        secs: 20,
                    })
                } else {
                    &&& r.0 == SimState { phase: SimPhase::Collecting, node: 0, ..st }
                    &&& r.1@[1] == (SimAction::Await { node: 0, kind: EvtKind::DkgDone, secs: opts.timeout_secs })
                }
            },
            _ => {
                &&& r.0.outcomes@.len() == st.outcomes@.len() + 1
                &&& r.0.outcomes@.subrange(0, st.outcomes@.len() as int) == st.outcomes@
                &&& r.0.outcomes@.last().device_id@ == "sim-node-"@ + decimal(st.node as nat)
                &&& ev matches Evt::DkgDone { wallet_id, group_key }
                    && r.0.outcomes@.last().wallet_id == wallet_id
                    && r.0.outcomes@.last().group_public_key == group_key
                &&& if st.node + 1 < opts.nodes {
                    &&& r.0.phase == SimPhase::Collecting
                    &&& r.0.node == st.node + 1
                    &&& r.1@ == seq![
                        SimAction::Await { node: (st.node + 1) as usize, kind: EvtKind::DkgDone, secs: opts.timeout_secs },
                    ]
                } else {
                    &&& r.0.phase == SimPhase::Done
                    &&& r.0.node == st.node
                    &&& r.1@ == seq![SimAction::Finish]
                }
            },
        },
{
    let phase = st.phase;
    let expected = match phase {
        SimPhase::Connecting => EvtKind::Connected,
        SimPhase::Discovering => EvtKind::SessionDiscovered,
        _ => EvtKind::DkgDone,
    };
    let secs = match phase {
        SimPhase::Connecting => 15,
        SimPhase::Discovering => 20,
        _ => opts.timeout_secs,
    };
    if evt_kind_of(&ev) != expected {
        let node = st.node;
        let mut acts: Vec<SimAction> = Vec::new();
        acts.push(SimAction::Await { node, kind: expected, secs });
        return (st, acts);
    }
    let node = st.node;
    let mut acts: Vec<SimAction> = Vec::new();
    match ev {
        Evt::Connected => {
            if node + 1 < opts.nodes {
                acts.push(SimAction::Await { node: node + 1, kind: EvtKind::Connected, secs: 15 });
                (SimState { node: node + 1, ..st }, acts)
            } else {
                acts.push(
                    SimAction::Create {
                        node: 0,
                        config: sim_wallet_config(opts),
                        password: sim_password(0),
                        label: owned("sim"),
                    },
                );
                acts.push(SimAction::Await { node: 1, kind: EvtKind::SessionDiscovered, secs: 20 });
                (SimState { phase: SimPhase::Discovering, node: 1, ..st }, acts)
            }
        },
        Evt::SessionDiscovered(session_id) => {
            acts.push(
                SimAction::Join { node, session_id, password: sim_password(node), label: owned("sim") },
            );
            if node + 1 < opts.nodes {
                acts.push(SimAction::Await { node: node + 1, kind: EvtKind::SessionDiscovered, secs: 20 });
                (SimState { node: node + 1, ..st }, acts)
            } else {
                acts.push(SimAction::Await { node: 0, kind: EvtKind::DkgDone, secs: opts.timeout_secs });
                (SimState { phase: SimPhase::Collecting, node: 0, ..st }, acts)
            }
        },
        Evt::DkgDone { wallet_id, group_key } => {
            let mut outcomes = st.outcomes;
            let ghost before = outcomes@;
            outcomes.push(NodeOutcome { device_id: sim_device_id(node), wallet_id, group_public_key: group_key });
            assert(outcomes@.subrange(0, before.len() as int) =~= before);
            if node + 1 < opts.nodes {
                acts.push(SimAction::Await { node: node + 1, kind: EvtKind::DkgDone, secs: opts.timeout_secs });
                (SimState { phase: SimPhase::Collecting, node: node + 1, outcomes }, acts)
            } else {
                acts.push(SimAction::Finish);
                (SimState { phase: SimPhase::Done, node, outcomes }, acts)
            }
        },
    }
}

/// The nodes agree when there is at least one node, its key is non-empty,
/// and every node holds that key; two nodes with different keys always mean
/// disagreement.
pub proof fn law_agreement_is_unanimity(outcomes: Seq<NodeOutcome>)
    ensures
        all_agree(outcomes) <==> (outcomes.len() > 0 && outcomes[0].group_public_key@.len() > 0
            && forall|i: int| 0 <= i < outcomes.len() ==> #[trigger] outcomes[i].group_public_key@
            == outcomes[0].group_public_key@),
        forall|i: int, j: int| 0 <= i < outcomes.len() && 0 <= j < outcomes.len()
            && #[trigger] outcomes[i].group_public_key@ != #[trigger] outcomes[j].group_public_key@
            ==> !all_agree(outcomes),
{
}

/// Any threshold in `1..=nodes` is accepted for secp256k1 with at least two
/// nodes; the threshold is refused only outside that range.
pub proof fn law_simulation_opts_accept_every_valid_threshold(nodes: usize, threshold: u16)
    ensures
        nodes >= 2 && 1 <= threshold <= nodes ==> sim_opts_error("secp256k1"@, nodes, threshold) is None,
        nodes >= 2 && (threshold < 1 || threshold > nodes) ==> sim_opts_error("secp256k1"@, nodes, threshold)
            == Some("threshold must be in 1..=nodes"@),
{
}

} // verus!
