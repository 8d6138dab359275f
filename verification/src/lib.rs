//! Verified decision logic of the MPC wallet front-ends: the password
//! prompt, the DKG-phase Elm transitions, the wallet-detail account table,
//! the one-shot CLI helpers, the simulation bookkeeping and the native UI
//! label conversions.

pub mod text;
pub mod hex_codec;
pub mod elm;
pub mod password_prompt;
pub mod wallet_detail;
pub mod oneshot;
pub mod simulate;
pub mod ui_labels;
pub mod core_requests;
pub mod cli;
