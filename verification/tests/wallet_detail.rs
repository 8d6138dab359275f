//! The accounts table of the wallet-detail screen.

use mpc_wallet_apps::password_prompt::Tone;
use mpc_wallet_apps::wallet_detail::{
    date_part, join_with_plus, lex_le_str, sorted_curves, DerivationRequest, WalletDetail, WalletMetadata,
};

fn meta(curve: &str, group_hex: &str) -> WalletMetadata {
    WalletMetadata {
        wallet_id: "w1".to_string(),
        device_id: "d1".to_string(),
        curve_type: curve.to_string(),
        threshold: 2,
        total_participants: 3,
        participant_index: 1,
        group_public_key: group_hex.to_string(),
        created_at: "2024-05-01T12:00:00Z".to_string(),
    }
}

/// A valid compressed secp256k1 point (the generator).
const SECP_G: &str = "0279be667ef9dcbbac55a06295ce870b07029bfcdb2dce28d959f2815b16f81798";

#[test]
fn account_rows_skip_undecodable_group_keys() {
    let mut c = WalletDetail::default();
    c.set_wallet("w1".to_string(), vec![meta("secp256k1", "not-hex")]);
    let reqs = c.derivation_requests();
    assert!(reqs.is_empty());
    assert!(WalletDetail::rows_from_derivations(&reqs, vec![]).is_empty());
}

#[test]
fn accounts_shown_floors_at_one() {
    let mut c = WalletDetail::default();
    c.set_accounts_shown(0);
    assert_eq!(c.accounts_shown, 1);
}

#[test]
fn requests_cover_each_account_and_decodable_entry_in_order() {
    let mut c = WalletDetail::default();
    c.set_wallet(
        "w1".to_string(),
        vec![meta("secp256k1", SECP_G), meta("ed25519", "zz"), meta("ed25519", "ABcd")],
    );
    c.set_accounts_shown(2);
    let reqs = c.derivation_requests();
    assert_eq!(reqs.len(), 4);
    assert_eq!((reqs[0].account, reqs[0].curve_type.as_str()), (0, "secp256k1"));
    assert_eq!((reqs[1].account, reqs[1].curve_type.as_str()), (0, "ed25519"));
    assert_eq!((reqs[2].account, reqs[2].curve_type.as_str()), (1, "secp256k1"));
    assert_eq!((reqs[3].account, reqs[3].curve_type.as_str()), (1, "ed25519"));
    // The group key is handed over decoded, not as text.
    assert_eq!(reqs[0].group_key.len(), 33);
    assert_eq!(reqs[0].group_key[0], 0x02);
    assert_eq!(reqs[0].group_key[1], 0x79);
    assert_eq!(reqs[0].group_key[32], 0x98);
    assert_eq!(reqs[1].group_key, vec![0xab, 0xcd]);
}

#[test]
fn odd_length_group_key_is_skipped() {
    let mut c = WalletDetail::default();
    c.set_wallet("w1".to_string(), vec![meta("secp256k1", "abc")]);
    assert!(c.derivation_requests().is_empty());
}

#[test]
fn default_shows_five_accounts() {
    let mut c = WalletDetail::default();
    c.set_wallet("w1".to_string(), vec![meta("secp256k1", SECP_G)]);
    let reqs = c.derivation_requests();
    assert_eq!(reqs.len(), 5);
    assert_eq!(reqs[4].account, 4);
}

fn req(account: u32) -> DerivationRequest {
    DerivationRequest { account, curve_type: "secp256k1".to_string(), group_key: vec![2] }
}

fn addr(chain: &str, path: &str, a: &str) -> (String, String, String) {
    (chain.to_string(), path.to_string(), a.to_string())
}

#[test]
fn rows_follow_derivations_and_skip_failures() {
    let reqs = vec![req(0), req(7), req(12)];
    let results = vec![
        Some(vec![addr("Ethereum", "m/44'/60'/0'/0/0", "0xabc"), addr("Bitcoin", "m/84'/0'/0'/0/0", "bc1q")]),
        None,
        Some(vec![addr("Solana", "m/44'/501'/12'/0'", "So1")]),
    ];
    let rows = WalletDetail::rows_from_derivations(&reqs, results);
    assert_eq!(rows.len(), 3);
    assert_eq!(rows[0], ["0".to_string(), "Ethereum".to_string(), "m/44'/60'/0'/0/0".to_string(), "0xabc".to_string()]);
    assert_eq!(rows[1][1], "Bitcoin");
    assert_eq!(rows[2][0], "12");
    assert_eq!(rows[2][3], "So1");
}

#[test]
fn titles_and_dates() {
    let mut c = WalletDetail::default();
    assert_eq!(c.title(), " Wallet Detail ");
    c.set_wallet("w-42".to_string(), vec![]);
    assert_eq!(c.title(), " Wallet \u{2014} w-42 ");
    assert_eq!(c.accounts_table_title(), "Accounts (0..4)");
    c.set_accounts_shown(1);
    assert_eq!(c.accounts_table_title(), "Accounts (0..0)");
    assert_eq!(date_part("2024-05-01T12:00:00Z"), "2024-05-01");
    assert_eq!(date_part("no-time-here"), "no-time-here");
    assert_eq!(date_part(""), "");
}

#[test]
fn curves_summary_is_sorted_and_joined() {
    let entries = vec![meta("secp256k1", SECP_G), meta("ed25519", "00")];
    let curves = sorted_curves(&entries);
    assert_eq!(curves, vec!["ed25519".to_string(), "secp256k1".to_string()]);
    assert_eq!(join_with_plus(&curves), "ed25519+secp256k1");
    assert_eq!(join_with_plus(&vec![]), "");
    assert_eq!(join_with_plus(&vec!["one".to_string()]), "one");
    assert!(lex_le_str("ab", "abc"));
    assert!(!lex_le_str("b", "abc"));
    assert!(lex_le_str("", ""));
    let three = vec![meta("c", "00"), meta("a", "00"), meta("b", "00"), meta("a", "00")];
    assert_eq!(sorted_curves(&three), vec!["a", "a", "b", "c"]);
}

#[test]
fn account_rows_cover_each_account_and_chain() {
    let mut c = WalletDetail::default();
    c.set_wallet("w1".to_string(), vec![meta("secp256k1", SECP_G)]);
    c.set_accounts_shown(2);
    let reqs = c.derivation_requests();
    // The derivation of each (account, curve) pair: the two secp256k1 chains.
    let results = reqs
        .iter()
        .map(|r| {
            Some(vec![
                addr("Ethereum", &format!("m/44'/60'/{}'/0/0", r.account), &format!("0x{:040x}", r.account)),
                addr("Bitcoin", &format!("m/84'/0'/{}'/0/0", r.account), &format!("bc1q{}", r.account)),
            ])
        })
        .collect();
    let rows = WalletDetail::rows_from_derivations(&reqs, results);
    // 2 accounts × 2 secp chains (Ethereum, Bitcoin)
    assert_eq!(rows.len(), 4);
    assert_eq!(rows[0][0], "0");
    assert_eq!(rows[0][1], "Ethereum");
    assert!(rows[0][3].starts_with("0x"));
    assert_eq!(rows[3][0], "1");
    assert_eq!(rows[3][1], "Bitcoin");
    assert!(rows[3][3].starts_with("bc1"));
}

#[test]
fn found_and_tone() {
    let mut c = WalletDetail::default();
    assert!(!c.wallet_found());
    assert_eq!(c.frame_tone(), Tone::Muted);
    c.set_wallet("w1".to_string(), vec![meta("secp256k1", SECP_G)]);
    assert!(c.wallet_found());
    c.focused = true;
    assert_eq!(c.frame_tone(), Tone::Highlight);
}
