//! One-shot CLI commands: the decisions taken around each blocking command
//! (argument checks, which terminal event ends the wait, and the actionable
//! messages shown on failure). The runner, the channel and the clock are
//! driven by the caller, which hands every received event to `connect_step`
//! or `outcome_step` and acts on the returned `WaitStep`.

use vstd::prelude::*;
use vstd::string::*;
use crate::elm::{WalletConfig, WalletMode};
use crate::text::{contains, decimal, decimal_string, owned, seq_contains, seq_starts_with, starts_with, str_eq};

verus! {

/// Shared configuration for every one-shot command.
#[derive(Debug, Clone, PartialEq, Eq)]
pub struct OneShotOpts {
    pub device_id: String,
    pub keystore_path: String,
    pub signal_url: String,
    pub timeout_secs: u64,
    /// Ciphersuite: "secp256k1" (default) or "ed25519".
    pub curve: String,
}

/// The ciphersuite a runner is spawned with.
#[derive(Debug, Clone, Copy, PartialEq, Eq, Structural)]
pub enum Ciphersuite {
    Ed25519,
    Secp256k1,
}

/// `ed25519` selects Ed25519; any other curve name selects secp256k1.
pub fn runner_ciphersuite(opts: &OneShotOpts) -> (c: Ciphersuite)
    ensures
        c == if opts.curve@ == "ed25519"@ { Ciphersuite::Ed25519 } else { Ciphersuite::Secp256k1 },
{
    if str_eq(opts.curve.as_str(), "ed25519") {
        Ciphersuite::Ed25519
    } else {
        Ciphersuite::Secp256k1
    }
}

/// A hosted (`wss://`) server addressed without a `room=` parameter.
pub open spec fn spec_missing_room(url: Seq<char>) -> bool {
    seq_starts_with(url, "wss://"@) && !seq_contains(url, "room="@)
}

/// Whether the URL names a hosted server but no room (such connections are
/// rejected by the hosted server).
pub fn missing_room(url: &str) -> (b: bool)
    ensures
        b == spec_missing_room(url@),
{
    starts_with(url, "wss://") && !contains(url, "room=")
}

/// Hint appended when a hosted server is used without a room.
pub const ROOM_HINT: &'static str = "\n  \u{2192} No --room set. The hosted server requires a strong room (\u{2265}16 chars); a roomless connection is rejected.\n    Add the SAME value on every device, e.g.  --room \"$(uuidgen | tr -d -)\".";

/// Hint appended otherwise.
pub const REACH_HINT: &'static str = "\n  \u{2192} Check the server is reachable and you're online. For a LAN/offline demo, run a local server and use  --signal-server ws://<host-ip>:9000  (no room needed).";

/// Hint appended in every case.
pub const OFFLINE_HINT: &'static str = "\n  \u{2192} To prove the cryptography with no server at all:  mpc-wallet-cli simulate --nodes 3 --threshold 2 --sign hello";

/// The full help text for a connection that did not come up in `secs`.
pub open spec fn connect_help_text(url: Seq<char>, secs: nat) -> Seq<char> {
    "could not connect to the signal server within "@ + decimal(secs) + "s ("@ + url + ")."@
        + (if spec_missing_room(url) { ROOM_HINT@ } else { REACH_HINT@ }) + OFFLINE_HINT@
}

/// Actionable message when the signal-server connection never establishes.
pub fn connect_help(opts: &OneShotOpts, secs: u64) -> (s: String)
    ensures
        s@ == connect_help_text(opts.signal_url@, secs as nat),
{
    let url = opts.signal_url.as_str();
    let missing = missing_room(url);
    let mut s = owned("could not connect to the signal server within ");
    let n = decimal_string(secs);
    s.append(n.as_str());
    s.append("s (");
    s.append(url);
    s.append(").");
    if missing {
        s.append(ROOM_HINT);
    } else {
        s.append(REACH_HINT);
    }
    s.append(OFFLINE_HINT);
    s
}

/// The part of a protocol event that the waits look at.
#[derive(Debug, Clone, PartialEq, Eq)]
pub enum CliEventKind {
    Connection { connected: bool },
    Error { code: String, message: String },
    Wallets,
    DkgComplete,
    SignatureComplete,
    ReshareComplete,
    Other,
}

/// The terminal event a command waits for.
#[derive(Debug, Clone, Copy, PartialEq, Eq, Structural)]
pub enum WaitTarget {
    Wallets,
    DkgComplete,
    /// A joined session may end as a DKG, a signature or a reshare.
    SessionDone,
    ReshareComplete,
    SignatureComplete,
}

/// What to do with one received event.
#[derive(Debug, Clone, PartialEq, Eq)]
pub enum WaitStep {
    /// Keep waiting.
    Continue,
    /// The awaited event arrived.
    Accept,
    /// Give up with this message.
    Fail(String),
}

/// The events that end a wait for `t`.
pub open spec fn accepts(t: WaitTarget, e: CliEventKind) -> bool {
    match t {
        WaitTarget::Wallets => e is Wallets,
        WaitTarget::DkgComplete => e is DkgComplete,
        WaitTarget::SessionDone => e is DkgComplete || e is SignatureComplete || e is ReshareComplete,
        WaitTarget::ReshareComplete => e is ReshareComplete,
        WaitTarget::SignatureComplete => e is SignatureComplete,
    }
}

/// Executable form of `accepts`.
pub fn target_accepts(t: WaitTarget, e: &CliEventKind) -> (b: bool)
    ensures
        b == accepts(t, *e),
{
    match t {
        WaitTarget::Wallets => matches!(e, CliEventKind::Wallets),
        WaitTarget::DkgComplete => matches!(e, CliEventKind::DkgComplete),
        WaitTarget::SessionDone => matches!(
            e,
            CliEventKind::DkgComplete | CliEventKind::SignatureComplete | CliEventKind::ReshareComplete
        ),
        WaitTarget::ReshareComplete => matches!(e, CliEventKind::ReshareComplete),
        WaitTarget::SignatureComplete => matches!(e, CliEventKind::SignatureComplete),
    }
}

/// `code: message`, the text of a runtime error event.
pub open spec fn error_text(code: Seq<char>, message: Seq<char>) -> Seq<char> {
    code + ": "@ + message
}

fn format_error(code: &String, message: &String) -> (s: String)
    ensures
        s@ == error_text(code@, message@),
{
    let mut s = code.clone();
    s.append(": ");
    s.append(message.as_str());
    s
}

/// Waiting for the connection: a connected event ends the wait, an error
/// event fails it with its text, a closed channel (`None`) fails it.
pub fn connect_step(ev: Option<&CliEventKind>) -> (step: WaitStep)
    ensures
        match ev {
            Some(CliEventKind::Connection { connected }) => if *connected {
                step == WaitStep::Accept
            } else {
                step == WaitStep::Continue
            },
            Some(CliEventKind::Error { code, message }) => step matches WaitStep::Fail(m) && m@
                == error_text(code@, message@),
            Some(_) => step == WaitStep::Continue,
            None => step matches WaitStep::Fail(m) && m@
                == "the runner stopped before it could connect"@,
        },
{
    match ev {
        Some(CliEventKind::Connection { connected }) => if *connected {
            WaitStep::Accept
        } else {
            WaitStep::Continue
        },
        Some(CliEventKind::Error { code, message }) => WaitStep::Fail(format_error(code, message)),
        Some(_) => WaitStep::Continue,
        None => WaitStep::Fail(owned("the runner stopped before it could connect")),
    }
}

/// Waiting for a terminal outcome: an awaited event ends the wait, an
/// error event fails it with its text, a closed channel fails it.
pub fn outcome_step(target: WaitTarget, waiting_for: &str, ev: Option<&CliEventKind>) -> (step: WaitStep)
    ensures
        match ev {
            Some(e) => if accepts(target, *e) {
                step == WaitStep::Accept
            } else if e is Error {
                step matches WaitStep::Fail(m) && m@ == error_text(e->code@, e->message@)
            } else {
                step == WaitStep::Continue
            },
            None => step matches WaitStep::Fail(m) && m@ == "the runner stopped before "@ + waiting_for@,
        },
{
    match ev {
        Some(e) => if target_accepts(target, e) {
            WaitStep::Accept
        } else {
            match e {
                CliEventKind::Error { code, message } => WaitStep::Fail(format_error(code, message)),
                _ => WaitStep::Continue,
            }
        },
        None => {
            let mut m = owned("the runner stopped before ");
            m.append(waiting_for);
            WaitStep::Fail(m)
        },
    }
}

/// The message of a wait that ran out of time.
pub open spec fn timeout_text(secs: nat, waiting_for: Seq<char>, hint: Seq<char>) -> Seq<char> {
    "timed out after "@ + decimal(secs) + "s waiting for "@ + waiting_for + "."@ + hint
}

/// Builds the time-out message.
pub fn timeout_message(secs: u64, waiting_for: &str, hint: &str) -> (s: String)
    ensures
        s@ == timeout_text(secs as nat, waiting_for@, hint@),
{
    let mut s = owned("timed out after ");
    let n = decimal_string(secs);
    s.append(n.as_str());
    s.append("s waiting for ");
    s.append(waiting_for);
    s.append(".");
    s.append(hint);
    s
}

/// The one-shot commands.
#[derive(Debug, Clone, Copy, PartialEq, Eq, Structural)]
pub enum OneShotCommand {
    WalletList,
    WalletCreate,
    SessionJoin,
    Reshare,
    Sign,
}

/// How a command waits for its outcome.
#[derive(Debug, Clone, PartialEq, Eq)]
pub struct WaitPlan {
    pub secs: u64,
    pub waiting_for: String,
    pub hint: String,
    pub target: WaitTarget,
}

/// Hint after a timed-out DKG.
pub const DKG_HINT: &'static str = "\n  \u{2192} DKG needs ALL participants online together. Did the other devices run `mpc-wallet-cli session join` with the SAME --room and a unique --device-id each?";

/// Hint after a timed-out joined session.
pub const JOIN_HINT: &'static str = "\n  \u{2192} Is the session id correct and the creator still online in the SAME --room? Everyone must share --room and --signal-server; the password must match this wallet.";

/// Hint after a timed-out reshare.
pub const RESHARE_HINT: &'static str = "\n  \u{2192} Reshare needs the retained signers to join the announced session in the SAME --room (via `session join`, or `serve --auto-approve`). Check --wallet-id exists (`wallet list`) and the password matches.";

/// Hint after a timed-out signature.
pub const SIGN_HINT: &'static str = "\n  \u{2192} Signing needs a quorum to approve. Did a co-signer run `session join` (or `serve --auto-approve`) on the announced session in the SAME --room? Check --wallet-id exists (`wallet list`) and the password matches.";

/// The wait of each command.
pub open spec fn plan_of(cmd: OneShotCommand, keystore: Seq<char>, timeout: u64) -> (u64, Seq<char>, Seq<char>, WaitTarget) {
    match cmd {
        OneShotCommand::WalletList => (
            5,
            "the wallet list"@,
            "\n  \u{2192} Check the --keystore path is readable ("@ + keystore + ")."@,
            WaitTarget::Wallets,
        ),
        OneShotCommand::WalletCreate => (timeout, "the DKG to complete"@, DKG_HINT@, WaitTarget::DkgComplete),
        OneShotCommand::SessionJoin => (timeout, "the session to complete"@, JOIN_HINT@, WaitTarget::SessionDone),
        OneShotCommand::Reshare => (timeout, "the reshare to complete"@, RESHARE_HINT@, WaitTarget::ReshareComplete),
        OneShotCommand::Sign => (timeout, "the signature"@, SIGN_HINT@, WaitTarget::SignatureComplete),
    }
}

/// The wait of `cmd`: the wallet list waits five seconds, every network
/// command waits the configured time-out.
pub fn wait_plan(cmd: OneShotCommand, opts: &OneShotOpts) -> (p: WaitPlan)
    ensures
        (p.secs, p.waiting_for@, p.hint@, p.target) == plan_of(cmd, opts.keystore_path@, opts.timeout_secs),
        cmd == OneShotCommand::WalletList ==> p.secs == 5,
        cmd != OneShotCommand::WalletList ==> p.secs == opts.timeout_secs,
{
    match cmd {
        OneShotCommand::WalletList => {
            let mut hint = owned("\n  \u{2192} Check the --keystore path is readable (");
            hint.append(opts.keystore_path.as_str());
            hint.append(").");
            WaitPlan { secs: 5, waiting_for: owned("the wallet list"), hint, target: WaitTarget::Wallets }
        },
        OneShotCommand::WalletCreate => WaitPlan {
            secs: opts.timeout_secs,
            waiting_for: owned("the DKG to complete"),
            hint: owned(DKG_HINT),
            target: WaitTarget::DkgComplete,
        },
        OneShotCommand::SessionJoin => WaitPlan {
            secs: opts.timeout_secs,
            waiting_for: owned("the session to complete"),
            hint: owned(JOIN_HINT),
            target: WaitTarget::SessionDone,
        },
        OneShotCommand::Reshare => WaitPlan {
            secs: opts.timeout_secs,
            waiting_for: owned("the reshare to complete"),
            hint: owned(RESHARE_HINT),
            target: WaitTarget::ReshareComplete,
        },
        OneShotCommand::Sign => WaitPlan {
            secs: opts.timeout_secs,
            waiting_for: owned("the signature"),
            hint: owned(SIGN_HINT),
            target: WaitTarget::SignatureComplete,
        },
    }
}

/// Message for a participant count below two.
pub open spec fn total_error_text(total: u16) -> Seq<char> {
    "--total must be \u{2265} 2 (got "@ + decimal(total as nat)
        + "). A shared wallet needs at least two devices; the classic demo is --total 3 --threshold 2 (2-of-3)."@
}

/// Message for a threshold outside `1..=total`.
pub open spec fn threshold_error_text(threshold: u16, total: u16) -> Seq<char> {
    "--threshold must be between 1 and --total ("@ + decimal(total as nat) + "); got "@ + decimal(
        threshold as nat,
    ) + ". Tip: 2-of-3 = --threshold 2 --total 3."@
}

/// Checks the `wallet create` arguments: at least two participants and a
/// threshold in `1..=total`.
pub fn check_create_args(threshold: u16, total: u16) -> (r: Result<(), String>)
    ensures
        total < 2 ==> (r matches Err(m) && m@ == total_error_text(total)),
        total >= 2 && (threshold < 1 || threshold > total) ==> (r matches Err(m) && m@
            == threshold_error_text(threshold, total)),
        total >= 2 && 1 <= threshold <= total ==> r is Ok,
{
    if total < 2 {
        let mut m = owned("--total must be \u{2265} 2 (got ");
        let t = decimal_string(total as u64);
        m.append(t.as_str());
        m.append(
            "). A shared wallet needs at least two devices; the classic demo is --total 3 --threshold 2 (2-of-3).",
        );
        return Err(m);
    }
    if threshold < 1 || threshold > total {
        let mut m = owned("--threshold must be between 1 and --total (");
        let t = decimal_string(total as u64);
        m.append(t.as_str());
        m.append("); got ");
        let k = decimal_string(threshold as u64);
        m.append(k.as_str());
        m.append(". Tip: 2-of-3 = --threshold 2 --total 3.");
        return Err(m);
    }
    Ok(())
}

/// The note printed when a DKG is announced.
pub open spec fn announce_text(device_id: Seq<char>, timeout: u64, threshold: u16, total: u16) -> Seq<char> {
    "note: announcing a "@ + decimal(threshold as nat) + "-of-"@ + decimal(total as nat)
        + " DKG as device '"@ + device_id + "'. Waiting up to "@ + decimal(timeout as nat)
        + "s for the other "@ + decimal((total - 1) as nat)
        + " participant(s) to join (same --room, a UNIQUE --device-id each)\u{2026}"@
}

/// Builds the announcement note of `wallet create`.
pub fn announce_note(opts: &OneShotOpts, threshold: u16, total: u16) -> (s: String)
    requires
        total >= 1,
    ensures
        s@ == announce_text(opts.device_id@, opts.timeout_secs, threshold, total),
{
    let mut s = owned("note: announcing a ");
    let a = decimal_string(threshold as u64);
    s.append(a.as_str());
    s.append("-of-");
    let b = decimal_string(total as u64);
    s.append(b.as_str());
    s.append(" DKG as device '");
    s.append(opts.device_id.as_str());
    s.append("'. Waiting up to ");
    let c = decimal_string(opts.timeout_secs);
    s.append(c.as_str());
    s.append("s for the other ");
    let d = decimal_string((total - 1) as u64);
    s.append(d.as_str());
    s.append(" participant(s) to join (same --room, a UNIQUE --device-id each)\u{2026}");
    s
}

/// The wallet that `wallet create` announces: the given name, `total`
/// participants, the given threshold, online.
pub fn create_wallet_config(name: &String, threshold: u16, total: u16) -> (c: WalletConfig)
    ensures
        c.name == *name,
        c.total_participants == total,
        c.threshold == threshold,
        c.mode == WalletMode::Online,
{
    WalletConfig { name: name.clone(), total_participants: total, threshold, mode: WalletMode::Online }
}

/// The wallet list waits five seconds; every network command (create, join,
/// reshare, sign) waits exactly the configured time-out.
pub proof fn law_network_commands_wait_the_timeout(cmd: OneShotCommand, keystore: Seq<char>, timeout: u64)
    ensures
        cmd == OneShotCommand::WalletList ==> plan_of(cmd, keystore, timeout).0 == 5,
        cmd != OneShotCommand::WalletList ==> plan_of(cmd, keystore, timeout).0 == timeout,
{
}

} // verus!
