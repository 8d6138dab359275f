//! The pure `(Model, Message) -> (Model, Option<Command>)` transitions of the
//! DKG phase and of password submission.

use mpc_wallet_apps::elm::{
    update, Command, CreateWalletState, DKGRound, Message, Model, Screen, SessionInfo, SessionType,
    WalletConfig, WalletMode,
};

fn fresh_model() -> Model {
    Model::new("test-device".to_string())
}

/// A `Command::Batch` returned from `update` should contain `StartFrostProtocol`
/// somewhere among its children (or be it, bare).
fn batch_contains_start_frost(cmd: &Option<Command>) -> bool {
    let Some(cmd) = cmd else { return false };
    match cmd {
        Command::StartFrostProtocol => true,
        Command::Batch(children) => children
            .iter()
            .any(|c| matches!(c, Command::StartFrostProtocol)),
        _ => false,
    }
}

#[test]
fn start_dkg_protocol_enters_round1_and_flips_in_progress() {
    let mut model = fresh_model();
    assert_eq!(
        model.wallet_state.dkg_round,
        DKGRound::Initialization,
        "new model should start at Initialization"
    );
    assert!(
        !model.wallet_state.dkg_in_progress,
        "new model should not be running DKG"
    );

    let cmd = update(&mut model, Message::StartDKGProtocol);

    assert_eq!(
        model.wallet_state.dkg_round,
        DKGRound::Round1,
        "StartDKGProtocol should advance dkg_round to Round1"
    );
    assert!(
        model.wallet_state.dkg_in_progress,
        "StartDKGProtocol should set dkg_in_progress so subsequent triggers dedupe"
    );
    assert!(
        batch_contains_start_frost(&cmd),
        "StartDKGProtocol must dispatch Command::StartFrostProtocol (bare or inside Batch)"
    );
}

#[test]
fn first_process_dkg_round2_advances_to_round2() {
    let mut model = fresh_model();
    model.wallet_state.dkg_round = DKGRound::Round1;
    model.wallet_state.dkg_in_progress = true;

    let _ = update(
        &mut model,
        Message::ProcessDKGRound2 {
            from_device: "peer-alice".to_string(),
            package_bytes: vec![0u8; 32],
        },
    );

    assert_eq!(
        model.wallet_state.dkg_round,
        DKGRound::Round2,
        "first ProcessDKGRound2 while in Round1 should advance the UI label"
    );
}

#[test]
fn subsequent_process_dkg_round2_does_not_regress_round() {
    let mut model = fresh_model();
    model.wallet_state.dkg_round = DKGRound::Round2;

    let _ = update(
        &mut model,
        Message::ProcessDKGRound2 {
            from_device: "peer-bob".to_string(),
            package_bytes: vec![],
        },
    );

    assert_eq!(
        model.wallet_state.dkg_round,
        DKGRound::Round2,
        "ProcessDKGRound2 while already in Round2 must NOT regress or loop"
    );
}

#[test]
fn process_dkg_round2_does_not_override_finalization_or_complete() {
    for terminal in [DKGRound::Finalization, DKGRound::Complete] {
        let mut model = fresh_model();
        model.wallet_state.dkg_round = terminal.clone();
        let _ = update(
            &mut model,
            Message::ProcessDKGRound2 {
                from_device: "peer-late".to_string(),
                package_bytes: vec![],
            },
        );
        assert_eq!(
            model.wallet_state.dkg_round, terminal,
            "late ProcessDKGRound2 must not rewind {:?}",
            terminal
        );
    }
}

#[test]
fn dkg_key_generated_transitions_to_complete() {
    let mut model = fresh_model();
    model.wallet_state.dkg_round = DKGRound::Round2;
    model.wallet_state.dkg_in_progress = true;

    let sample_hex =
        "021de2d69979f0a03ea413e7ed6a32ad02111b90d1f03793649157d3e4ee952143".to_string();
    let before_notif_count = model.ui_state.notifications.len();

    let _ = update(
        &mut model,
        Message::DKGKeyGenerated {
            group_pubkey_hex: sample_hex.clone(),
        },
    );

    assert_eq!(
        model.wallet_state.dkg_round,
        DKGRound::Complete,
        "DKGKeyGenerated must land the UI on Complete, not Finalization"
    );
    assert!(
        !model.wallet_state.dkg_in_progress,
        "DKGKeyGenerated must clear dkg_in_progress so a subsequent wallet flow can start"
    );

    assert_eq!(
        model.ui_state.notifications.len(),
        before_notif_count + 1,
        "DKGKeyGenerated should push exactly one success notification"
    );
    let notif = model.ui_state.notifications.last().unwrap();
    assert!(
        notif.text.contains(&sample_hex[..16]),
        "notification text should embed the 16-char group-key prefix; got {:?}",
        notif.text
    );
}

#[test]
fn dkg_key_generated_on_progress_screen_emits_force_remount() {
    let mut model = fresh_model();
    model.current_screen = Screen::DKGProgress {
        session_id: "dkg-test".to_string(),
    };
    let cmd = update(
        &mut model,
        Message::DKGKeyGenerated {
            group_pubkey_hex: "00".repeat(33),
        },
    );
    match cmd {
        Some(Command::SendMessage(Message::ForceRemount)) => {}
        other => panic!(
            "expected Some(Command::SendMessage(ForceRemount)) on DKGProgress, got {:?}",
            other
        ),
    }
}

#[test]
fn dkg_key_generated_off_progress_screen_does_not_force_remount() {
    let mut model = fresh_model();
    model.current_screen = Screen::MainMenu;
    let cmd = update(
        &mut model,
        Message::DKGKeyGenerated {
            group_pubkey_hex: "00".repeat(33),
        },
    );
    assert!(
        cmd.is_none(),
        "DKGKeyGenerated off the progress screen should return None; got {:?}",
        cmd
    );
}

#[test]
fn fresh_model_has_no_pending_password() {
    let model = fresh_model();
    assert!(
        model.wallet_state.pending_password.is_none(),
        "pending_password must default to None"
    );
}

fn creator_on_password_prompt() -> Model {
    let mut model = fresh_model();
    model.current_screen = Screen::PasswordPrompt;
    model.wallet_state.creating_wallet = Some(CreateWalletState {
        mode: Some(WalletMode::Online),
        template: None,
        custom_config: Some(WalletConfig {
            name: "unit-test-wallet".to_string(),
            threshold: 2,
            total_participants: 3,
            mode: WalletMode::Online,
        }),
    });
    model
}

fn joiner_on_password_prompt() -> Model {
    let mut model = fresh_model();
    model.current_screen = Screen::PasswordPrompt;
    model.active_session = Some(SessionInfo {
        session_id: "dkg-test-session".to_string(),
        proposer_id: "mpc-1".to_string(),
        total: 3,
        threshold: 2,
        participants: vec!["mpc-1".to_string(), "mpc-2".to_string(), "mpc-3".to_string()],
        session_type: SessionType::DKG,
        curve_type: "unified".to_string(),
        coordination_type: "online".to_string(),
    });
    model
}

#[test]
fn creator_submit_password_stashes_value_and_dispatches_create_wallet() {
    let mut model = creator_on_password_prompt();

    let cmd = update(
        &mut model,
        Message::SubmitPassword {
            value: "hunter2-but-longer".to_string(),
        },
    );

    assert_eq!(
        model.wallet_state.pending_password.as_deref(),
        Some("hunter2-but-longer"),
        "SubmitPassword must stash the value for the finaliser to consume"
    );

    match cmd {
        Some(Command::SendMessage(Message::CreateWallet { config })) => {
            assert_eq!(config.name, "unit-test-wallet");
            assert_eq!(config.threshold, 2);
            assert_eq!(config.total_participants, 3);
        }
        other => panic!(
            "creator SubmitPassword should dispatch CreateWallet, got {:?}",
            other
        ),
    }
}

#[test]
fn joiner_submit_password_stashes_value_and_dispatches_join_dkg() {
    let mut model = joiner_on_password_prompt();

    let cmd = update(
        &mut model,
        Message::SubmitPassword {
            value: "another-long-password".to_string(),
        },
    );

    assert_eq!(
        model.wallet_state.pending_password.as_deref(),
        Some("another-long-password"),
    );

    match cmd {
        Some(Command::JoinDKG { session_id }) => {
            assert_eq!(session_id, "dkg-test-session");
        }
        other => panic!(
            "joiner SubmitPassword should dispatch JoinDKG, got {:?}",
            other
        ),
    }
    assert!(
        matches!(model.current_screen, Screen::DKGProgress { .. }),
        "joiner SubmitPassword should push DKGProgress; got {:?}",
        model.current_screen
    );
}

#[test]
fn submit_password_with_neither_flow_configured_goes_home() {
    let mut model = fresh_model();
    model.current_screen = Screen::PasswordPrompt;

    let cmd = update(
        &mut model,
        Message::SubmitPassword {
            value: "someemergencypassword".to_string(),
        },
    );

    assert!(
        cmd.is_none(),
        "the pathological branch must not dispatch any Command"
    );
    assert!(
        matches!(model.current_screen, Screen::MainMenu),
        "go_home should land us on MainMenu so the user has a way out; got {:?}",
        model.current_screen
    );
}

// ---- further transitions ----

#[test]
fn second_start_dkg_protocol_is_deduplicated() {
    let mut model = fresh_model();
    let first = update(&mut model, Message::StartDKGProtocol);
    assert!(matches!(first, Some(Command::StartFrostProtocol)));
    let _ = update(
        &mut model,
        Message::ProcessDKGRound2 { from_device: "p".to_string(), package_bytes: vec![1, 2] },
    );
    let second = update(&mut model, Message::StartDKGProtocol);
    assert!(second.is_none());
    assert_eq!(model.wallet_state.dkg_round, DKGRound::Round2);
    assert!(model.wallet_state.dkg_in_progress);
}

#[test]
fn process_dkg_round2_forwards_the_package() {
    let mut model = fresh_model();
    let cmd = update(
        &mut model,
        Message::ProcessDKGRound2 { from_device: "peer-x".to_string(), package_bytes: vec![7, 8, 9] },
    );
    match cmd {
        Some(Command::ProcessDKGRound2 { from_device, package_bytes }) => {
            assert_eq!(from_device, "peer-x");
            assert_eq!(package_bytes, vec![7, 8, 9]);
        }
        other => panic!("expected the package to be forwarded, got {:?}", other),
    }
    assert_eq!(model.wallet_state.dkg_round, DKGRound::Initialization);
}

#[test]
fn dkg_key_generated_notification_text_is_exact() {
    let mut model = fresh_model();
    let _ = update(
        &mut model,
        Message::DKGKeyGenerated { group_pubkey_hex: "0123456789abcdef0011".to_string() },
    );
    assert_eq!(model.ui_state.notifications[0].text, "DKG complete! Group key: 0123456789abcdef...");
    let _ = update(&mut model, Message::DKGKeyGenerated { group_pubkey_hex: "ab".to_string() });
    assert_eq!(model.ui_state.notifications[1].text, "DKG complete! Group key: ab...");
}

#[test]
fn navigate_back_returns_to_the_pushed_screen() {
    let mut model = joiner_on_password_prompt();
    let _ = update(&mut model, Message::SubmitPassword { value: "another-long-password".to_string() });
    assert!(matches!(model.current_screen, Screen::DKGProgress { .. }));
    let cmd = update(&mut model, Message::NavigateBack);
    assert!(cmd.is_none());
    assert_eq!(model.current_screen, Screen::PasswordPrompt);
    let _ = update(&mut model, Message::NavigateBack);
    assert_eq!(model.current_screen, Screen::MainMenu);
    assert!(model.navigation_stack.is_empty());
}

#[test]
fn creator_submit_keeps_the_screen() {
    let mut model = creator_on_password_prompt();
    let _ = update(&mut model, Message::SubmitPassword { value: "pw-long-enough".to_string() });
    assert_eq!(model.current_screen, Screen::PasswordPrompt);
    assert!(model.navigation_stack.is_empty());
}

#[test]
fn unhandled_messages_leave_the_model_unchanged() {
    let mut model = fresh_model();
    let before = model.clone();
    let cmd = update(&mut model, Message::ForceRemount);
    assert!(cmd.is_none());
    assert_eq!(model, before);
}

#[test]
fn create_wallet_moves_to_progress_and_announces() {
    let mut model = creator_on_password_prompt();
    let config = WalletConfig {
        name: "unit-test-wallet".to_string(),
        threshold: 2,
        total_participants: 3,
        mode: WalletMode::Online,
    };
    let cmd = update(&mut model, Message::CreateWallet { config: config.clone() });
    match cmd {
        Some(Command::StartDKG { config: c }) => assert_eq!(c, config),
        other => panic!("CreateWallet should announce the DKG session, got {:?}", other),
    }
    assert_eq!(
        model.current_screen,
        Screen::DKGProgress { session_id: "unit-test-wallet".to_string() }
    );
    assert_eq!(model.navigation_stack, vec![Screen::PasswordPrompt]);
}
