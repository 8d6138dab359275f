//! Labels and requests of the native front-end.

use mpc_wallet_apps::cli::expand_tilde;
use mpc_wallet_apps::core_requests::{
    default_session_request, default_wallet_request, dkg_start_params, export_message,
    import_message, session_row, CoreSessionInfo, NATIVE_DEVICE_ID,
};
use mpc_wallet_apps::text::decimal_string;
use mpc_wallet_apps::ui_labels::{
    append_log, connection_status_label, display_address, log_entry, message_preview,
    operation_mode_label, participant_status_label, sd_operation_label, session_status_label,
    signing_request_fields, signing_state_label, threshold_label, ConnectionStatus,
    OperationMode, ParticipantStatus, SdOperationType, SessionStatus, SigningRequestInfo,
    SigningState,
};

#[test]
fn status_labels() {
    assert_eq!(connection_status_label(ConnectionStatus::Connecting), "connecting");
    assert_eq!(session_status_label(SessionStatus::InProgress), "in_progress");
    assert_eq!(participant_status_label(ParticipantStatus::Offline), "offline");
    assert_eq!(sd_operation_label(SdOperationType::Import), "import");
    assert_eq!(operation_mode_label(OperationMode::Hybrid), "hybrid");
    assert_eq!(signing_state_label(&SigningState::AwaitingApproval), "awaiting_approval");
    assert_eq!(signing_state_label(&SigningState::Failed("boom".to_string())), "failed");
}

#[test]
fn addresses_are_shortened_past_twenty_bytes() {
    assert_eq!(display_address("0x1234567890abcdef1234567890abcdef12345678"), "0x1234...5678");
    assert_eq!(display_address("12345678901234567890"), "12345678901234567890");
    assert_eq!(display_address("123456789012345678901"), "123456...8901");
}

#[test]
fn previews_are_truncated_past_120_bytes() {
    let long = "a".repeat(130);
    let p = message_preview(&long);
    assert_eq!(p, format!("{}\u{2026}", "a".repeat(120)));
    assert_eq!(message_preview("deadbeef"), "deadbeef");
}

#[test]
fn signing_request_flattening() {
    let f = signing_request_fields(Some(SigningRequestInfo {
        id: "r1".to_string(),
        message_hex: "00ff".to_string(),
        chain: "ethereum".to_string(),
        display_label: None,
    }));
    assert!(f.has_request);
    assert_eq!((f.id.as_str(), f.preview.as_str(), f.chain.as_str(), f.label.as_str()), ("r1", "00ff", "ethereum", ""));
    let f = signing_request_fields(None);
    assert!(!f.has_request);
    assert!(f.id.is_empty() && f.preview.is_empty() && f.chain.is_empty() && f.label.is_empty());
}

#[test]
fn status_log_keeps_the_last_hundred_lines() {
    let mut logs: Vec<String> = Vec::new();
    for i in 0..105u64 {
        logs = append_log(logs, decimal_string(i));
        assert!(logs.len() <= 100);
    }
    assert_eq!(logs.len(), 100);
    assert_eq!(logs[0], "5");
    assert_eq!(logs[99], "104");
    assert_eq!(log_entry("12:00:01", true, "oops"), "12:00:01 [ERROR] oops");
    assert_eq!(log_entry("12:00:01", false, "ok"), "12:00:01 [INFO] ok");
}

#[test]
fn core_requests_and_messages() {
    let w = default_wallet_request();
    assert_eq!(w.name, "New Wallet");
    assert_eq!(w.threshold, 2);
    assert_eq!(w.participants, vec!["Alice", "Bob", "Charlie"]);
    let s = default_session_request();
    assert_eq!((s.device_id.as_str(), s.threshold, s.total), (NATIVE_DEVICE_ID, 2, 3));
    assert_eq!(import_message("/k.dat", ""), "Importing keystore from /k.dat (no password)...");
    assert_eq!(import_message("/k.dat", "pw"), "Importing keystore from /k.dat...");
    assert_eq!(export_message("/o.dat", ""), "Exporting wallet to /o.dat (unencrypted)...");
    assert_eq!(export_message("/o.dat", "pw"), "Exporting wallet to /o.dat...");
}

#[test]
fn dkg_needs_an_active_session() {
    assert_eq!(dkg_start_params(None), Err("No active session".to_string()));
    let s = CoreSessionInfo {
        session_id: "s".to_string(),
        initiator: "a".to_string(),
        participants: vec!["a".to_string(), "b".to_string(), "c".to_string()],
        threshold: 2,
        total: 3,
        status: SessionStatus::Waiting,
        created_at: "t".to_string(),
    };
    let row = session_row(&s);
    assert_eq!(row.participants, 3);
    assert_eq!(row.threshold, "2/3");
    assert_eq!(row.status, "waiting");
    assert_eq!(threshold_label(10, 12), "10/12");
    assert_eq!(dkg_start_params(Some(s)), Ok((2, vec!["a".to_string(), "b".to_string(), "c".to_string()])));
}

#[test]
fn tilde_expansion() {
    assert_eq!(expand_tilde("~/.frost_keystore", Some("/home/u")), "/home/u/.frost_keystore");
    assert_eq!(expand_tilde("~/.frost_keystore", None), "~/.frost_keystore");
    assert_eq!(expand_tilde("/abs/path", Some("/home/u")), "/abs/path");
    assert_eq!(expand_tilde("~user/x", Some("/home/u")), "~user/x");
    assert_eq!(expand_tilde("~/", Some("/h")), "/h/");
}

#[test]
fn decimal_rendering() {
    assert_eq!(decimal_string(0), "0");
    assert_eq!(decimal_string(9), "9");
    assert_eq!(decimal_string(10), "10");
    assert_eq!(decimal_string(18446744073709551615), "18446744073709551615");
}
