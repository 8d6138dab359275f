//! The requests the native front-end makes of the shared core: the demo
//! defaults for new wallets and sessions, the progress messages of keystore
//! import and export, the parameters of a DKG started from the active
//! session, and the session rows shown in the session list.

use vstd::prelude::*;
use vstd::string::*;
use crate::text::{decimal, owned};
use crate::ui_labels::{SessionStatus, session_status_label, session_status_text, threshold_label};

verus! {

/// The device id the native node announces itself with.
pub const NATIVE_DEVICE_ID: &'static str = "native-node-001";

/// A wallet to create through the core.
#[derive(Debug, Clone, PartialEq, Eq)]
pub struct WalletRequest {
    pub name: String,
    pub threshold: u16,
    pub participants: Vec<String>,
}

/// The demo wallet: "New Wallet", 2-of-{Alice, Bob, Charlie}.
pub fn default_wallet_request() -> (r: WalletRequest)
    ensures
        r.name@ == "New Wallet"@,
        r.threshold == 2,
        r.participants@.len() == 3,
        r.participants@[0]@ == "Alice"@,
        r.participants@[1]@ == "Bob"@,
        r.participants@[2]@ == "Charlie"@,
{
    let mut participants: Vec<String> = Vec::new();
    participants.push(owned("Alice"));
    participants.push(owned("Bob"));
    participants.push(owned("Charlie"));
    WalletRequest { name: owned("New Wallet"), threshold: 2, participants }
}

/// A session to announce through the core.
#[derive(Debug, Clone, PartialEq, Eq)]
pub struct SessionRequest {
    pub device_id: String,
    pub threshold: u16,
    pub total: u16,
}

/// The demo session: 2-of-3 announced by this node.
pub fn default_session_request() -> (r: SessionRequest)
    ensures
        r.device_id@ == NATIVE_DEVICE_ID@,
        r.threshold == 2,
        r.total == 3,
{
    SessionRequest { device_id: owned(NATIVE_DEVICE_ID), threshold: 2, total: 3 }
}

/// Status text while importing a keystore from `path`.
pub open spec fn import_text(path: Seq<char>, password_empty: bool) -> Seq<char> {
    if password_empty {
        "Importing keystore from "@ + path + " (no password)..."@
    } else {
        "Importing keystore from "@ + path + "..."@
    }
}

/// The import progress message; an empty password means an unencrypted
/// keystore.
pub fn import_message(path: &str, password: &str) -> (m: String)
    ensures
        m@ == import_text(path@, password@.len() == 0),
{
    let mut m = owned("Importing keystore from ");
    m.append(path);
    if password.unicode_len() == 0 {
        m.append(" (no password)...");
    } else {
        m.append("...");
    }
    m
}

/// Status text while exporting the active wallet to `path`.
pub open spec fn export_text(path: Seq<char>, password_empty: bool) -> Seq<char> {
    if password_empty {
        "Exporting wallet to "@ + path + " (unencrypted)..."@
    } else {
        "Exporting wallet to "@ + path + "..."@
    }
}

/// The export progress message; an empty password writes an unencrypted
/// keystore.
pub fn export_message(path: &str, password: &str) -> (m: String)
    ensures
        m@ == export_text(path@, password@.len() == 0),
{
    let mut m = owned("Exporting wallet to ");
    m.append(path);
    if password.unicode_len() == 0 {
        m.append(" (unencrypted)...");
    } else {
        m.append("...");
    }
    m
}

/// A session as the core tracks it.
#[derive(Debug, Clone, PartialEq, Eq)]
pub struct CoreSessionInfo {
    pub session_id: String,
    pub initiator: String,
    pub participants: Vec<String>,
    pub threshold: u16,
    pub total: u16,
    pub status: SessionStatus,
    pub created_at: String,
}

/// What a DKG needs from the active session: its threshold and the
/// participants. Without an active session there is nothing to start.
pub fn dkg_start_params(session: Option<CoreSessionInfo>) -> (r: Result<(u16, Vec<String>), String>)
    ensures
        match session {
            Some(s) => r == Ok::<(u16, Vec<String>), String>((s.threshold, s.participants)),
            None => r matches Err(m) && m@ == "No active session"@,
        },
{
    match session {
        Some(s) => Ok((s.threshold, s.participants)),
        None => Err(owned("No active session")),
    }
}

/// A row of the session list.
#[derive(Debug, Clone, PartialEq, Eq)]
pub struct SessionRow {
    pub session_id: String,
    pub initiator: String,
    pub participants: usize,
    pub threshold: String,
    pub status: String,
    pub created_at: String,
}

/// The row for a session: participant count, `threshold/total` and the
/// status label.
pub fn session_row(s: &CoreSessionInfo) -> (row: SessionRow)
    ensures
        row.session_id == s.session_id,
        row.initiator == s.initiator,
        row.participants == s.participants@.len(),
        row.threshold@ == decimal(s.threshold as nat) + "/"@ + decimal(s.total as nat),
        row.status@ == session_status_text(s.status),
        row.created_at == s.created_at,
{
    SessionRow {
        session_id: s.session_id.clone(),
        initiator: s.initiator.clone(),
        participants: s.participants.len(),
        threshold: threshold_label(s.threshold, s.total),
        status: session_status_label(s.status),
        created_at: s.created_at.clone(),
    }
}

} // verus!
