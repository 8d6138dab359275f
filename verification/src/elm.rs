//! The Elm-style model of the wallet front-end and the verified `update`
//! transitions of the DKG phase and of password submission.

use vstd::prelude::*;
use vstd::string::*;
use crate::text::owned;

verus! {

/// How many accounts (0..n) the wallet-detail table shows by default.
pub const DEFAULT_ACCOUNTS_SHOWN: u32 = 5;

/// Progress label of the distributed key generation.
#[derive(Debug, Clone, Copy, PartialEq, Eq, Structural)]
pub enum DKGRound {
    Initialization,
    Round1,
    Round2,
    Finalization,
    Complete,
}

/// How a wallet coordinates its participants.
#[derive(Debug, Clone, Copy, PartialEq, Eq, Structural)]
pub enum WalletMode {
    Online,
    Offline,
}

/// Parameters of a wallet to be created by DKG.
#[derive(Debug, Clone, PartialEq, Eq)]
pub struct WalletConfig {
    pub name: String,
    pub total_participants: u16,
    pub threshold: u16,
    pub mode: WalletMode,
}

impl WalletConfig {
    /// A field-by-field copy.
    pub fn duplicate(&self) -> (r: WalletConfig)
        ensures
            r == *self,
    {
        WalletConfig {
            name: self.name.clone(),
            total_participants: self.total_participants,
            threshold: self.threshold,
            mode: self.mode,
        }
    }
}

/// State of the create-wallet flow while the user fills it in.
#[derive(Debug, Clone, PartialEq, Eq)]
pub struct CreateWalletState {
    pub mode: Option<WalletMode>,
    pub template: Option<String>,
    pub custom_config: Option<WalletConfig>,
}

/// Kind of a signalling session.
#[derive(Debug, Clone, Copy, PartialEq, Eq, Structural)]
pub enum SessionType {
    DKG,
    Signing,
}

/// A session announced on the signalling server.
#[derive(Debug, Clone, PartialEq, Eq)]
pub struct SessionInfo {
    pub session_id: String,
    pub proposer_id: String,
    pub total: u16,
    pub threshold: u16,
    pub participants: Vec<String>,
    pub session_type: SessionType,
    pub curve_type: String,
    pub coordination_type: String,
}

/// The screens the front-end can show.
#[derive(Debug, Clone, PartialEq, Eq)]
pub enum Screen {
    MainMenu,
    PasswordPrompt,
    DKGProgress { session_id: String },
    WalletDetail { wallet_id: String },
}

/// Severity of a notification.
#[derive(Debug, Clone, Copy, PartialEq, Eq, Structural)]
pub enum NotificationKind {
    Info,
    Success,
    Warning,
    Error,
}

/// A toast shown to the user.
#[derive(Debug, Clone, PartialEq, Eq)]
pub struct Notification {
    pub text: String,
    pub kind: NotificationKind,
}

/// Wallet and DKG progress state.
#[derive(Debug, Clone, PartialEq, Eq)]
pub struct WalletState {
    pub dkg_round: DKGRound,
    pub dkg_in_progress: bool,
    /// Password captured by the prompt, waiting for the finaliser.
    pub pending_password: Option<String>,
    pub creating_wallet: Option<CreateWalletState>,
}

/// Presentation state.
#[derive(Debug, Clone, PartialEq, Eq)]
pub struct UIState {
    pub notifications: Vec<Notification>,
    pub accounts_shown: u32,
}

/// Connection state of the signalling link.
#[derive(Debug, Clone, Copy, PartialEq, Eq, Structural)]
pub struct NetworkState {
    pub connected: bool,
}

/// The whole front-end state.
#[derive(Debug, Clone, PartialEq, Eq)]
pub struct Model {
    pub device_id: String,
    pub current_screen: Screen,
    pub navigation_stack: Vec<Screen>,
    pub wallet_state: WalletState,
    pub ui_state: UIState,
    pub active_session: Option<SessionInfo>,
    pub network_state: NetworkState,
}

/// Events that drive `update`.
#[derive(Debug, Clone, PartialEq, Eq)]
pub enum Message {
    NavigateBack,
    ForceRemount,
    StartDKGProtocol,
    ProcessDKGRound2 { from_device: String, package_bytes: Vec<u8> },
    DKGKeyGenerated { group_pubkey_hex: String },
    SubmitPassword { value: String },
    CreateWallet { config: WalletConfig },
    SessionDiscovered { session: SessionInfo },
    DKGFinalized { wallet_id: String, group_pubkey_hex: String },
}

/// Side effects that `update` asks the runtime to perform.
#[derive(Debug)]
pub enum Command {
    StartFrostProtocol,
    ProcessDKGRound2 { from_device: String, package_bytes: Vec<u8> },
    JoinDKG { session_id: String },
    /// Announce a DKG session for a new wallet on the signalling server.
    StartDKG { config: WalletConfig },
    SendMessage(Message),
    Batch(Vec<Command>),
}

/// Position of a round in the DKG progression.
pub open spec fn round_rank(r: DKGRound) -> int {
    match r {
        DKGRound::Initialization => 0,
        DKGRound::Round1 => 1,
        DKGRound::Round2 => 2,
        DKGRound::Finalization => 3,
        DKGRound::Complete => 4,
    }
}

/// The `(dkg_round, dkg_in_progress)` pair after `update` handles `msg`.
pub open spec fn dkg_step(round: DKGRound, in_progress: bool, msg: Message) -> (DKGRound, bool) {
    match msg {
        Message::StartDKGProtocol => if in_progress {
            (round, in_progress)
        } else {
            (DKGRound::Round1, true)
        },
        Message::ProcessDKGRound2 { .. } => if round == DKGRound::Round1 {
            (DKGRound::Round2, in_progress)
        } else {
            (round, in_progress)
        },
        Message::DKGKeyGenerated { .. } => (DKGRound::Complete, false),
        _ => (round, in_progress),
    }
}

/// The first (at most) sixteen characters of a group key.
pub open spec fn key_prefix(hex: Seq<char>) -> Seq<char> {
    if hex.len() <= 16 { hex } else { hex.subrange(0, 16) }
}

/// Text of the notification pushed when the group key is generated.
pub open spec fn dkg_complete_text(hex: Seq<char>) -> Seq<char> {
    "DKG complete! Group key: "@ + key_prefix(hex) + "..."@
}

/// The screen is the DKG progress screen.
pub open spec fn on_dkg_progress(s: Screen) -> bool {
    s matches Screen::DKGProgress { .. }
}

/// Everything but the DKG fields of the wallet state is as before.
pub open spec fn wallet_rest_same(a: WalletState, b: WalletState) -> bool {
    &&& a.pending_password == b.pending_password
    &&& a.creating_wallet == b.creating_wallet
}

/// Screen, navigation, session, network and device are as before.
pub open spec fn frame_same(a: Model, b: Model) -> bool {
    &&& a.device_id == b.device_id
    &&& a.current_screen == b.current_screen
    &&& a.navigation_stack == b.navigation_stack
    &&& a.active_session == b.active_session
    &&& a.network_state == b.network_state
}

impl Model {
    /// A fresh model for `device_id`: main menu, no DKG running, nothing
    /// pending.
    pub fn new(device_id: String) -> (m: Model)
        ensures
            m.device_id == device_id,
            m.current_screen == Screen::MainMenu,
            m.navigation_stack@.len() == 0,
            m.wallet_state.dkg_round == DKGRound::Initialization,
            !m.wallet_state.dkg_in_progress,
            m.wallet_state.pending_password is None,
            m.wallet_state.creating_wallet is None,
            m.ui_state.notifications@.len() == 0,
            m.ui_state.accounts_shown == DEFAULT_ACCOUNTS_SHOWN,
            m.active_session is None,
            !m.network_state.connected,
    {
        Model {
            device_id,
            current_screen: Screen::MainMenu,
            navigation_stack: Vec::new(),
            wallet_state: WalletState {
                dkg_round: DKGRound::Initialization,
                dkg_in_progress: false,
                pending_password: None,
                creating_wallet: None,
            },
            ui_state: UIState { notifications: Vec::new(), accounts_shown: DEFAULT_ACCOUNTS_SHOWN },
            active_session: None,
            network_state: NetworkState { connected: false },
        }
    }
}

/// Replaces the current screen by `next`, remembering the old one.
fn push_screen(model: &mut Model, next: Screen)
    ensures
        final(model).current_screen == next,
        final(model).navigation_stack@ == old(model).navigation_stack@.push(old(model).current_screen),
        final(model).device_id == old(model).device_id,
        final(model).wallet_state == old(model).wallet_state,
        final(model).ui_state == old(model).ui_state,
        final(model).active_session == old(model).active_session,
        final(model).network_state == old(model).network_state,
{
    let mut prev = next;
    std::mem::swap(&mut prev, &mut model.current_screen);
    model.navigation_stack.push(prev);
}

/// Returns to the main menu and forgets the navigation history.
fn go_home(model: &mut Model)
    ensures
        final(model).current_screen == Screen::MainMenu,
        final(model).navigation_stack@.len() == 0,
        final(model).device_id == old(model).device_id,
        final(model).wallet_state == old(model).wallet_state,
        final(model).ui_state == old(model).ui_state,
        final(model).active_session == old(model).active_session,
        final(model).network_state == old(model).network_state,
{
    model.current_screen = Screen::MainMenu;
    model.navigation_stack = Vec::new();
}

/// Builds the completion notification text for a group key.
fn dkg_complete_notification(group_pubkey_hex: &String) -> (t: String)
    ensures
        t@ == dkg_complete_text(group_pubkey_hex@),
{
    let hex = group_pubkey_hex.as_str();
    let n = hex.unicode_len();
    let cut: usize = if n <= 16 { n } else { 16 };
    let prefix = hex.substring_char(0, cut);
    let mut t = owned("DKG complete! Group key: ");
    t.append(prefix);
    t.append("...");
    proof {
        if n <= 16 {
            assert(hex@.subrange(0, n as int) =~= hex@);
        }
    }
    t
}

/// Applies one message to the model and returns the command to run.
///
/// Handled: the DKG-phase transitions (`StartDKGProtocol`,
/// `ProcessDKGRound2`, `DKGKeyGenerated`), password submission, wallet
/// creation (which moves to the progress screen of the session named after
/// the wallet and asks for it to be announced) and back-navigation. The
/// remaining messages are acted on by the runtime and leave the model
/// unchanged here.
pub fn update(model: &mut Model, msg: Message) -> (cmd: Option<Command>)
    ensures
        (final(model).wallet_state.dkg_round, final(model).wallet_state.dkg_in_progress) == dkg_step(
            old(model).wallet_state.dkg_round,
            old(model).wallet_state.dkg_in_progress,
            msg,
        ),
        match msg {
            Message::StartDKGProtocol => {
                &&& frame_same(*final(model), *old(model))
                &&& wallet_rest_same(final(model).wallet_state, old(model).wallet_state)
                &&& final(model).ui_state == old(model).ui_state
                &&& if old(model).wallet_state.dkg_in_progress {
                    cmd is None
                } else {
                    cmd == Some(Command::StartFrostProtocol)
                }
            },
            Message::ProcessDKGRound2 { from_device, package_bytes } => {
                &&& frame_same(*final(model), *old(model))
                &&& wallet_rest_same(final(model).wallet_state, old(model).wallet_state)
                &&& final(model).ui_state == old(model).ui_state
                &&& cmd == Some(Command::ProcessDKGRound2 { from_device, package_bytes })
            },
            Message::DKGKeyGenerated { group_pubkey_hex } => {
                let old_n = old(model).ui_state.notifications@;
                let new_n = final(model).ui_state.notifications@;
                &&& frame_same(*final(model), *old(model))
                &&& wallet_rest_same(final(model).wallet_state, old(model).wallet_state)
                &&& final(model).ui_state.accounts_shown == old(model).ui_state.accounts_shown
                &&& new_n.len() == old_n.len() + 1
                &&& new_n.subrange(0, old_n.len() as int) == old_n
                &&& new_n.last().text@ == dkg_complete_text(group_pubkey_hex@)
                &&& new_n.last().kind == NotificationKind::Success
                &&& if on_dkg_progress(old(model).current_screen) {
                    cmd == Some(Command::SendMessage(Message::ForceRemount))
                } else {
                    cmd is None
                }
            },
            Message::SubmitPassword { value } => {
                let cw = old(model).wallet_state.creating_wallet;
                &&& final(model).wallet_state.dkg_round == old(model).wallet_state.dkg_round
                &&& final(model).wallet_state.dkg_in_progress == old(model).wallet_state.dkg_in_progress
                &&& final(model).wallet_state.pending_password == Some(value)
                &&& final(model).wallet_state.creating_wallet == old(model).wallet_state.creating_wallet
                &&& final(model).ui_state == old(model).ui_state
                &&& final(model).device_id == old(model).device_id
                &&& final(model).active_session == old(model).active_session
                &&& final(model).network_state == old(model).network_state
                &&& if cw is Some && cw->0.custom_config is Some {
                    &&& cmd == Some(Command::SendMessage(
                        Message::CreateWallet { config: cw->0.custom_config->0 },
                    ))
                    &&& final(model).current_screen == old(model).current_screen
                    &&& final(model).navigation_stack == old(model).navigation_stack
                } else if old(model).active_session is Some {
                    let sid = old(model).active_session->0.session_id;
                    &&& cmd == Some(Command::JoinDKG { session_id: sid })
                    &&& final(model).current_screen == Screen::DKGProgress {
                        session_id: sid,
                    }
                    &&& final(model).navigation_stack@ == old(model).navigation_stack@.push(
                        old(model).current_screen,
                    )
                } else {
                    &&& cmd is None
                    &&& final(model).current_screen == Screen::MainMenu
                    &&& final(model).navigation_stack@.len() == 0
                }
            },
            Message::NavigateBack => {
                let st = old(model).navigation_stack@;
                &&& cmd is None
                &&& final(model).wallet_state == old(model).wallet_state
                &&& final(model).ui_state == old(model).ui_state
                &&& final(model).device_id == old(model).device_id
                &&& final(model).active_session == old(model).active_session
                &&& final(model).network_state == old(model).network_state
                &&& if st.len() == 0 {
                    &&& final(model).current_screen == Screen::MainMenu
                    &&& final(model).navigation_stack@.len() == 0
                } else {
                    &&& final(model).current_screen == st.last()
                    &&& final(model).navigation_stack@ == st.drop_last()
                }
            },
            Message::CreateWallet { config } => {
                &&& cmd == Some(Command::StartDKG { config })
                &&& final(model).current_screen == Screen::DKGProgress { session_id: config.name }
                &&& final(model).navigation_stack@ == old(model).navigation_stack@.push(
                    old(model).current_screen,
                )
                &&& final(model).wallet_state == old(model).wallet_state
                &&& final(model).ui_state == old(model).ui_state
                &&& final(model).device_id == old(model).device_id
                &&& final(model).active_session == old(model).active_session
                &&& final(model).network_state == old(model).network_state
            },
            _ => cmd is None && *final(model) == *old(model),
        },
{
    match msg {
        Message::StartDKGProtocol => {
            if model.wallet_state.dkg_in_progress {
                None
            } else {
                model.wallet_state.dkg_round = DKGRound::Round1;
                model.wallet_state.dkg_in_progress = true;
                Some(Command::StartFrostProtocol)
            }
        },
        Message::ProcessDKGRound2 { from_device, package_bytes } => {
            if model.wallet_state.dkg_round == DKGRound::Round1 {
                model.wallet_state.dkg_round = DKGRound::Round2;
            }
            Some(Command::ProcessDKGRound2 { from_device, package_bytes })
        },
        Message::DKGKeyGenerated { group_pubkey_hex } => {
            model.wallet_state.dkg_round = DKGRound::Complete;
            model.wallet_state.dkg_in_progress = false;
            let text = dkg_complete_notification(&group_pubkey_hex);
            model.ui_state.notifications.push(Notification { text, kind: NotificationKind::Success });
            proof {
                let old_n = old(model).ui_state.notifications@;
                assert(model.ui_state.notifications@.subrange(0, old_n.len() as int) =~= old_n);
            }
            match &model.current_screen {
                Screen::DKGProgress { .. } => Some(Command::SendMessage(Message::ForceRemount)),
                _ => None,
            }
        },
        Message::SubmitPassword { value } => {
            model.wallet_state.pending_password = Some(value);
            let config = match &model.wallet_state.creating_wallet {
                Some(cw) => match &cw.custom_config {
                    Some(c) => Some(c.duplicate()),
                    None => None,
                },
                None => None,
            };
            match config {
                Some(config) => Some(Command::SendMessage(Message::CreateWallet { config })),
                None => {
                    let sid = match &model.active_session {
                        Some(s) => Some(s.session_id.clone()),
                        None => None,
                    };
                    match sid {
                        Some(session_id) => {
                            push_screen(model, Screen::DKGProgress { session_id: session_id.clone() });
                            Some(Command::JoinDKG { session_id })
                        },
                        None => {
                            go_home(model);
                            None
                        },
                    }
                },
            }
        },
        Message::NavigateBack => {
            match model.navigation_stack.pop() {
                Some(prev) => {
                    model.current_screen = prev;
                },
                None => {
                    model.current_screen = Screen::MainMenu;
                },
            }
            None
        },
        Message::CreateWallet { config } => {
            push_screen(model, Screen::DKGProgress { session_id: config.name.clone() });
            Some(Command::StartDKG { config })
        },
        _ => None,
    }
}


/// A second `StartDKGProtocol` while the first ceremony runs changes
/// nothing: triggers are deduplicated by `dkg_in_progress`.
pub proof fn law_start_dkg_dedupes(round: DKGRound, in_progress: bool)
    ensures
        ({
            let once = dkg_step(round, in_progress, Message::StartDKGProtocol);
            dkg_step(once.0, once.1, Message::StartDKGProtocol) == once
        }),
        !in_progress ==> dkg_step(round, in_progress, Message::StartDKGProtocol) == (
            DKGRound::Round1,
            true,
        ),
{
}

/// A round-2 package advances `Round1` to `Round2` and never moves the
/// round backwards.
pub proof fn law_round2_package_never_rewinds(
    round: DKGRound,
    in_progress: bool,
    from_device: String,
    package_bytes: Vec<u8>,
)
    ensures
        ({
            let after = dkg_step(
                round,
                in_progress,
                Message::ProcessDKGRound2 { from_device, package_bytes },
            );
            &&& round_rank(after.0) >= round_rank(round)
            &&& round == DKGRound::Round1 ==> after.0 == DKGRound::Round2
            &&& round != DKGRound::Round1 ==> after.0 == round
            &&& after.1 == in_progress
        }),
{
}

/// A generated key lands on `Complete` with no ceremony running, and later
/// round-2 packages leave it there.
pub proof fn law_key_generated_is_terminal(
    round: DKGRound,
    in_progress: bool,
    group_pubkey_hex: String,
    from_device: String,
    package_bytes: Vec<u8>,
)
    ensures
        ({
            let done = dkg_step(round, in_progress, Message::DKGKeyGenerated { group_pubkey_hex });
            &&& done == (DKGRound::Complete, false)
            &&& dkg_step(done.0, done.1, Message::ProcessDKGRound2 { from_device, package_bytes })
                == done
        }),
{
}

/// Only the three DKG messages move the DKG progress: password submission,
/// wallet creation, navigation and every other message leave the round and
/// the in-progress flag exactly as they were.
pub proof fn law_only_dkg_messages_move_progress(round: DKGRound, in_progress: bool, msg: Message)
    requires
        !(msg is StartDKGProtocol),
        !(msg is ProcessDKGRound2),
        !(msg is DKGKeyGenerated),
    ensures
        dkg_step(round, in_progress, msg) == (round, in_progress),
{
}

/// Submitting a password before the mesh is ready leaves no ceremony
/// running, so the following `StartDKGProtocol` does start one: it enters
/// Round 1 and marks the ceremony as running.
pub proof fn law_submit_then_start_runs_dkg(round: DKGRound, value: String)
    ensures
        ({
            let after_submit = dkg_step(round, false, Message::SubmitPassword { value });
            &&& after_submit == (round, false)
            &&& dkg_step(after_submit.0, after_submit.1, Message::StartDKGProtocol) == (DKGRound::Round1, true)
        }),
{
}

} // verus!
