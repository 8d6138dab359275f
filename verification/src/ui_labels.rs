//! What the native UI shows for the shared core's state: status labels,
//! shortened addresses and message previews, threshold labels, the flattened
//! signing request and the bounded status log.

use vstd::prelude::*;
use vstd::string::*;
use vstd::utf8::{decode_utf8, encode_utf8, is_char_boundary};
use crate::text::{decimal, decimal_string, owned};

verus! {

broadcast use vstd::utf8::encode_utf8_decode_utf8;

/// State of a peer connection.
#[derive(Debug, Clone, Copy, PartialEq, Eq, Structural)]
pub enum ConnectionStatus {
    Connected,
    Connecting,
    Disconnected,
    Failed,
}

/// State of a session.
#[derive(Debug, Clone, Copy, PartialEq, Eq, Structural)]
pub enum SessionStatus {
    Waiting,
    InProgress,
    Completed,
    Failed,
}

/// State of a DKG participant.
#[derive(Debug, Clone, Copy, PartialEq, Eq, Structural)]
pub enum ParticipantStatus {
    Ready,
    Processing,
    Completed,
    Failed,
    Offline,
}

/// Direction of an SD-card transfer.
#[derive(Debug, Clone, Copy, PartialEq, Eq, Structural)]
pub enum SdOperationType {
    Export,
    Import,
}

/// How the node reaches its peers.
#[derive(Debug, Clone, Copy, PartialEq, Eq, Structural)]
pub enum OperationMode {
    Online,
    Offline,
    Hybrid,
}

/// Progress of a signing ceremony.
#[derive(Debug, Clone, PartialEq, Eq)]
pub enum SigningState {
    Idle,
    AwaitingApproval,
    Commitment,
    Share,
    Aggregating,
    Complete,
    Failed(String),
}

pub open spec fn connection_status_text(s: ConnectionStatus) -> Seq<char> {
    match s {
        ConnectionStatus::Connected => "connected"@,
        ConnectionStatus::Connecting => "connecting"@,
        ConnectionStatus::Disconnected => "disconnected"@,
        ConnectionStatus::Failed => "failed"@,
    }
}

/// The UI label of a connection status.
pub fn connection_status_label(s: ConnectionStatus) -> (t: String)
    ensures
        t@ == connection_status_text(s),
{
    match s {
        ConnectionStatus::Connected => owned("connected"),
        ConnectionStatus::Connecting => owned("connecting"),
        ConnectionStatus::Disconnected => owned("disconnected"),
        ConnectionStatus::Failed => owned("failed"),
    }
}

pub open spec fn session_status_text(s: SessionStatus) -> Seq<char> {
    match s {
        SessionStatus::Waiting => "waiting"@,
        SessionStatus::InProgress => "in_progress"@,
        SessionStatus::Completed => "completed"@,
        SessionStatus::Failed => "failed"@,
    }
}

/// The UI label of a session status.
pub fn session_status_label(s: SessionStatus) -> (t: String)
    ensures
        t@ == session_status_text(s),
{
    match s {
        SessionStatus::Waiting => owned("waiting"),
        SessionStatus::InProgress => owned("in_progress"),
        SessionStatus::Completed => owned("completed"),
        SessionStatus::Failed => owned("failed"),
    }
}

pub open spec fn participant_status_text(s: ParticipantStatus) -> Seq<char> {
    match s {
        ParticipantStatus::Ready => "ready"@,
        ParticipantStatus::Processing => "processing"@,
        ParticipantStatus::Completed => "completed"@,
        ParticipantStatus::Failed => "failed"@,
        ParticipantStatus::Offline => "offline"@,
    }
}

/// The UI label of a participant status.
pub fn participant_status_label(s: ParticipantStatus) -> (t: String)
    ensures
        t@ == participant_status_text(s),
{
    match s {
        ParticipantStatus::Ready => owned("ready"),
        ParticipantStatus::Processing => owned("processing"),
        ParticipantStatus::Completed => owned("completed"),
        ParticipantStatus::Failed => owned("failed"),
        ParticipantStatus::Offline => owned("offline"),
    }
}

/// The UI label of an SD-card transfer direction.
pub fn sd_operation_label(op: SdOperationType) -> (t: String)
    ensures
        t@ == match op {
            SdOperationType::Export => "export"@,
            SdOperationType::Import => "import"@,
        },
{
    match op {
        SdOperationType::Export => owned("export"),
        SdOperationType::Import => owned("import"),
    }
}

/// The UI label of an operation mode.
pub fn operation_mode_label(m: OperationMode) -> (t: String)
    ensures
        t@ == match m {
            OperationMode::Online => "online"@,
            OperationMode::Offline => "offline"@,
            OperationMode::Hybrid => "hybrid"@,
        },
{
    match m {
        OperationMode::Online => owned("online"),
        OperationMode::Offline => owned("offline"),
        OperationMode::Hybrid => owned("hybrid"),
    }
}

pub open spec fn signing_state_text(s: SigningState) -> Seq<char> {
    match s {
        SigningState::Idle => "idle"@,
        SigningState::AwaitingApproval => "awaiting_approval"@,
        SigningState::Commitment => "commitment"@,
        SigningState::Share => "share"@,
        SigningState::Aggregating => "aggregating"@,
        SigningState::Complete => "complete"@,
        SigningState::Failed(_) => "failed"@,
    }
}

/// The UI label of a signing state; a failure's reason is not shown.
pub fn signing_state_label(s: &SigningState) -> (t: String)
    ensures
        t@ == signing_state_text(*s),
{
    match s {
        SigningState::Idle => owned("idle"),
        SigningState::AwaitingApproval => owned("awaiting_approval"),
        SigningState::Commitment => owned("commitment"),
        SigningState::Share => owned("share"),
        SigningState::Aggregating => owned("aggregating"),
        SigningState::Complete => owned("complete"),
        SigningState::Failed(_) => owned("failed"),
    }
}

/// Byte length of the UTF-8 encoding.
pub open spec fn utf8_len(s: Seq<char>) -> int {
    encode_utf8(s).len() as int
}

/// The characters encoded by bytes `from..to` of `s`'s UTF-8 encoding.
pub open spec fn byte_slice(s: Seq<char>, from: int, to: int) -> Seq<char> {
    decode_utf8(encode_utf8(s).subrange(from, to))
}

/// A wallet address as listed: longer than 20 bytes, its first six and last
/// four bytes around `...`; otherwise unchanged.
pub open spec fn display_address_text(a: Seq<char>) -> Seq<char> {
    if utf8_len(a) > 20 {
        byte_slice(a, 0, 6) + "..."@ + byte_slice(a, utf8_len(a) - 4, utf8_len(a))
    } else {
        a
    }
}

/// Shortens a long address for display.
pub fn display_address(address: &str) -> (d: String)
    requires
        utf8_len(address@) > 20 ==> is_char_boundary(encode_utf8(address@), 6)
            && is_char_boundary(encode_utf8(address@), utf8_len(address@) - 4),
    ensures
        d@ == display_address_text(address@),
{
    let n = address.as_bytes().len();
    if n > 20 {
        let (head, _) = address.split_at(6);
        let (_, tail) = address.split_at(n - 4);
        let mut d = head.to_owned();
        d.append("...");
        d.append(tail);
        d
    } else {
        address.to_owned()
    }
}

/// The message preview of a signing request: beyond 120 bytes, the first
/// 120 bytes followed by an ellipsis.
pub open spec fn preview_text(m: Seq<char>) -> Seq<char> {
    if utf8_len(m) > 120 {
        byte_slice(m, 0, 120) + "\u{2026}"@
    } else {
        m
    }
}

/// Truncates a message for the confirmation modal.
pub fn message_preview(message_hex: &str) -> (p: String)
    requires
        utf8_len(message_hex@) > 120 ==> is_char_boundary(encode_utf8(message_hex@), 120),
    ensures
        p@ == preview_text(message_hex@),
{
    let n = message_hex.as_bytes().len();
    if n > 120 {
        let (head, _) = message_hex.split_at(120);
        let mut p = head.to_owned();
        p.append("\u{2026}");
        p
    } else {
        message_hex.to_owned()
    }
}

/// `threshold/total`.
pub fn threshold_label(threshold: u16, total: u16) -> (t: String)
    ensures
        t@ == decimal(threshold as nat) + "/"@ + decimal(total as nat),
{
    let mut t = decimal_string(threshold as u64);
    t.append("/");
    let b = decimal_string(total as u64);
    t.append(b.as_str());
    t
}

/// A pending signing request as the core reports it.
#[derive(Debug, Clone, PartialEq, Eq)]
pub struct SigningRequestInfo {
    pub id: String,
    pub message_hex: String,
    pub chain: String,
    pub display_label: Option<String>,
}

/// The flat fields the confirmation modal binds to.
#[derive(Debug, Clone, PartialEq, Eq)]
pub struct SigningRequestFields {
    pub has_request: bool,
    pub id: String,
    pub preview: String,
    pub chain: String,
    pub label: String,
}

/// Flattens an optional request; with none, every field is empty so the
/// modal closes.
pub fn signing_request_fields(request: Option<SigningRequestInfo>) -> (f: SigningRequestFields)
    requires
        request matches Some(r) ==> (utf8_len(r.message_hex@) > 120 ==> is_char_boundary(
            encode_utf8(r.message_hex@),
            120,
        )),
    ensures
        match request {
            Some(r) => {
                &&& f.has_request
                &&& f.id == r.id
                &&& f.preview@ == preview_text(r.message_hex@)
                &&& f.chain == r.chain
                &&& f.label@ == match r.display_label {
                    Some(l) => l@,
                    None => Seq::<char>::empty(),
                }
            },
            None => {
                &&& !f.has_request
                &&& f.id@.len() == 0
                &&& f.preview@.len() == 0
                &&& f.chain@.len() == 0
                &&& f.label@.len() == 0
            },
        },
{
    match request {
        Some(r) => {
            let preview = message_preview(r.message_hex.as_str());
            let label = match r.display_label {
                Some(l) => l,
                None => String::new(),
            };
            SigningRequestFields { has_request: true, id: r.id, preview, chain: r.chain, label }
        },
        None => SigningRequestFields {
            has_request: false,
            id: String::new(),
            preview: String::new(),
            chain: String::new(),
            label: String::new(),
        },
    }
}

/// How many status messages the log keeps.
pub const MAX_LOG_MESSAGES: usize = 100;

/// A log line: `<timestamp> [ERROR] <message>` or `<timestamp> [INFO] <message>`.
pub open spec fn log_entry_text(timestamp: Seq<char>, is_error: bool, message: Seq<char>) -> Seq<char> {
    timestamp + " "@ + (if is_error { "[ERROR]"@ } else { "[INFO]"@ }) + " "@ + message
}

/// Formats a log line.
pub fn log_entry(timestamp: &str, is_error: bool, message: &str) -> (e: String)
    ensures
        e@ == log_entry_text(timestamp@, is_error, message@),
{
    let mut e = timestamp.to_owned();
    e.append(" ");
    if is_error {
        e.append("[ERROR]");
    } else {
        e.append("[INFO]");
    }
    e.append(" ");
    e.append(message);
    e
}

/// The log after appending `entry`: the last `MAX_LOG_MESSAGES` lines.
pub open spec fn appended_log(logs: Seq<String>, entry: String) -> Seq<String> {
    let all = logs.push(entry);
    if all.len() > MAX_LOG_MESSAGES {
        all.subrange(all.len() - MAX_LOG_MESSAGES, all.len() as int)
    } else {
        all
    }
}

/// Appends a line and drops the oldest ones beyond `MAX_LOG_MESSAGES`.
pub fn append_log(logs: Vec<String>, entry: String) -> (r: Vec<String>)
    requires
        logs@.len() < usize::MAX,
    ensures
        r@ == appended_log(logs@, entry),
{
    let mut all = logs;
    all.push(entry);
    let n = all.len();
    if n <= MAX_LOG_MESSAGES {
        return all;
    }
    let start = n - MAX_LOG_MESSAGES;
    let mut out: Vec<String> = Vec::new();
    let mut i = start;
    while i < n
        invariant
            start <= i <= n,
            n == all@.len(),
            out@ == all@.subrange(start as int, i as int),
        decreases n - i,
    {
        out.push(all[i].clone());
        assert(all@.subrange(start as int, i + 1) =~= all@.subrange(start as int, i as int).push(all@[i as int]));
        i = i + 1;
    }
    out
}

/// The log never exceeds `MAX_LOG_MESSAGES` lines, always ends with the
/// newest line, and keeps the older lines in order.
pub proof fn law_log_is_bounded_and_ordered(logs: Seq<String>, entry: String)
    ensures
        appended_log(logs, entry).len() <= MAX_LOG_MESSAGES,
        appended_log(logs, entry).last() == entry,
        logs.len() < MAX_LOG_MESSAGES ==> appended_log(logs, entry) == logs.push(entry),
        forall|i: int| 0 <= i < appended_log(logs, entry).len() - 1 ==> #[trigger] appended_log(logs, entry)[i]
            == logs[logs.len() + 1 - appended_log(logs, entry).len() + i],
{
}

} // verus!
