//! Wallet detail: wallet metadata and the BIP-44 accounts table
//! (account index x chain x address). Addresses are derived public-only
//! from each curve entry's group key; entries whose key does not decode,
//! or whose derivation fails, contribute no rows.
//!
//! Building the table is split in two around the derivation itself:
//! `derivation_requests` lists, in table order, what must be derived, and
//! `rows_from_derivations` turns the derivation outcomes into rows.

use vstd::prelude::*;
use vstd::string::*;
use vstd::utf8::encode_utf8;
use crate::elm::DEFAULT_ACCOUNTS_SHOWN;
use crate::hex_codec::{hex_decodable, hex_decoded, hex_decode};
use crate::password_prompt::Tone;
use crate::text::{decimal, decimal_string, owned};

verus! {

/// One keystore entry (one curve) of a wallet.
#[derive(Debug, Clone, PartialEq, Eq)]
pub struct WalletMetadata {
    pub wallet_id: String,
    pub device_id: String,
    pub curve_type: String,
    pub threshold: u16,
    pub total_participants: u16,
    pub participant_index: u16,
    pub group_public_key: String,
    pub created_at: String,
}

/// What to derive: an account of a curve under a decoded group key.
#[derive(Debug, Clone, PartialEq, Eq)]
pub struct DerivationRequest {
    pub account: u32,
    pub curve_type: String,
    pub group_key: Vec<u8>,
}

/// Abstract derivation request.
pub ghost struct RequestView {
    pub account: u32,
    pub curve_type: Seq<char>,
    pub group_key: Seq<u8>,
}

impl View for DerivationRequest {
    type V = RequestView;

    open spec fn view(&self) -> RequestView {
        RequestView { account: self.account, curve_type: self.curve_type@, group_key: self.group_key@ }
    }
}

/// `(chain, derivation path, address)` as produced by the derivation.
pub type DerivedAddress = (String, String, String);

/// The requests of one account, in entry order, skipping undecodable keys.
pub open spec fn entry_requests(entries: Seq<WalletMetadata>, account: u32) -> Seq<RequestView>
    decreases entries.len(),
{
    if entries.len() == 0 {
        Seq::empty()
    } else {
        let rest = entry_requests(entries.drop_last(), account);
        let bytes = encode_utf8(entries.last().group_public_key@);
        if hex_decodable(bytes) {
            rest.push(
                RequestView {
                    account,
                    curve_type: entries.last().curve_type@,
                    group_key: hex_decoded(bytes),
                },
            )
        } else {
            rest
        }
    }
}

/// The requests of accounts `0..n`, account by account.
pub open spec fn all_requests(entries: Seq<WalletMetadata>, n: nat) -> Seq<RequestView>
    decreases n,
{
    if n == 0 {
        Seq::empty()
    } else {
        all_requests(entries, (n - 1) as nat) + entry_requests(entries, (n - 1) as u32)
    }
}

/// A table row as four strings: account, chain, path, address.
pub open spec fn row_view(account: u32, d: DerivedAddress) -> Seq<Seq<char>> {
    seq![decimal(account as nat), d.0@, d.1@, d.2@]
}

/// The rows for the first `k` derivation outcomes; failed ones add nothing.
pub open spec fn derived_rows(
    reqs: Seq<DerivationRequest>,
    results: Seq<Option<Vec<DerivedAddress>>>,
    k: nat,
) -> Seq<Seq<Seq<char>>>
    decreases k,
{
    if k == 0 {
        Seq::empty()
    } else {
        let prev = derived_rows(reqs, results, (k - 1) as nat);
        match results[k - 1] {
            Some(v) => prev + v@.map_values(|d: DerivedAddress| row_view(reqs[k - 1].account, d)),
            None => prev,
        }
    }
}

/// The view of a row.
pub open spec fn rows_view(rows: Seq<[String; 4]>) -> Seq<Seq<Seq<char>>> {
    rows.map_values(|r: [String; 4]| r@.map_values(|s: String| s@))
}

/// The wallet-detail component state.
#[derive(Debug, Clone)]
pub struct WalletDetail {
    pub wallet_id: Option<String>,
    /// Every curve entry the keystore holds for this wallet id.
    pub entries: Vec<WalletMetadata>,
    /// How many accounts (0..n) to derive rows for; at least one.
    pub accounts_shown: u32,
    pub focused: bool,
}

impl Default for WalletDetail {
    fn default() -> (w: Self)
        ensures
            w.wallet_id is None,
            w.entries@.len() == 0,
            w.accounts_shown == DEFAULT_ACCOUNTS_SHOWN,
            !w.focused,
    {
        WalletDetail {
            wallet_id: None,
            entries: Vec::new(),
            accounts_shown: DEFAULT_ACCOUNTS_SHOWN,
            focused: false,
        }
    }
}

impl WalletDetail {
    /// Hands over the wallet id and all of its curve entries.
    pub fn set_wallet(&mut self, wallet_id: String, entries: Vec<WalletMetadata>)
        ensures
            final(self).wallet_id == Some(wallet_id),
            final(self).entries == entries,
            final(self).accounts_shown == old(self).accounts_shown,
            final(self).focused == old(self).focused,
    {
        self.wallet_id = Some(wallet_id);
        self.entries = entries;
    }

    /// Sets the number of accounts shown, never below one.
    pub fn set_accounts_shown(&mut self, n: u32)
        ensures
            final(self).accounts_shown == if n >= 1 { n } else { 1 },
            final(self).wallet_id == old(self).wallet_id,
            final(self).entries == old(self).entries,
            final(self).focused == old(self).focused,
    {
        self.accounts_shown = if n >= 1 { n } else { 1 };
    }

    /// The derivations the table needs, in row order: accounts
    /// `0..accounts_shown`, and within each account the entries whose group
    /// key decodes from hex.
    pub fn derivation_requests(&self) -> (reqs: Vec<DerivationRequest>)
        ensures
            reqs@.map_values(|r: DerivationRequest| r@) == all_requests(
                self.entries@,
                self.accounts_shown as nat,
            ),
    {
        let mut reqs: Vec<DerivationRequest> = Vec::new();
        let mut account: u32 = 0;
        while account < self.accounts_shown
            invariant
                account <= self.accounts_shown,
                reqs@.map_values(|r: DerivationRequest| r@) == all_requests(
                    self.entries@,
                    account as nat,
                ),
            decreases self.accounts_shown - account,
        {
            let ghost before = reqs@.map_values(|r: DerivationRequest| r@);
            let mut i: usize = 0;
            while i < self.entries.len()
                invariant
                    i <= self.entries@.len(),
                    reqs@.map_values(|r: DerivationRequest| r@) == before + entry_requests(
                        self.entries@.take(i as int),
                        account,
                    ),
                decreases self.entries@.len() - i,
            {
                let w = &self.entries[i];
                assert(self.entries@.take(i + 1).drop_last() =~= self.entries@.take(i as int));
                match hex_decode(w.group_public_key.as_str()) {
                    Ok(group) => {
                        let ghost prev = reqs@.map_values(|r: DerivationRequest| r@);
                        reqs.push(
                            DerivationRequest {
                                account,
                                curve_type: w.curve_type.clone(),
                                group_key: group,
                            },
                        );
                        assert(reqs@.map_values(|r: DerivationRequest| r@) =~= prev.push(
                            reqs@.last()@,
                        ));
                    },
                    Err(_) => {},
                }
                i = i + 1;
            }
            assert(self.entries@.take(self.entries@.len() as int) =~= self.entries@);
            account = account + 1;
        }
        reqs
    }

    /// Turns the outcome of each derivation request into table rows
    /// `[account, chain, path, address]`; a failed derivation adds no row.
    pub fn rows_from_derivations(
        reqs: &Vec<DerivationRequest>,
        results: Vec<Option<Vec<DerivedAddress>>>,
    ) -> (rows: Vec<[String; 4]>)
        requires
            reqs@.len() == results@.len(),
        ensures
            rows_view(rows@) == derived_rows(reqs@, results@, results@.len()),
    {
        let mut rows: Vec<[String; 4]> = Vec::new();
        let mut k: usize = 0;
        while k < results.len()
            invariant
                k <= results@.len(),
                reqs@.len() == results@.len(),
                rows_view(rows@) == derived_rows(reqs@, results@, k as nat),
            decreases results@.len() - k,
        {
            match &results[k] {
                Some(addrs) => {
                    let ghost before = rows_view(rows@);
                    let account = reqs[k].account;
                    let mut j: usize = 0;
                    while j < addrs.len()
                        invariant
                            j <= addrs@.len(),
                            rows_view(rows@) == before + addrs@.take(j as int).map_values(
                                |d: DerivedAddress| row_view(account, d),
                            ),
                        decreases addrs@.len() - j,
                    {
                        let (chain, path, address) = &addrs[j];
                        let ghost prev = rows_view(rows@);
                        rows.push(
                            [decimal_string(account as u64), chain.clone(), path.clone(), address.clone()],
                        );
                        proof {
                            let row = rows@.last();
                            assert(row@.map_values(|s: String| s@) =~= row_view(account, addrs@[j as int]));
                            assert(rows_view(rows@) =~= prev.push(row_view(account, addrs@[j as int])));
                            assert(addrs@.take(j + 1).map_values(|d: DerivedAddress| row_view(account, d))
                                =~= addrs@.take(j as int).map_values(|d: DerivedAddress| row_view(account, d)).push(
                                row_view(account, addrs@[j as int])));
                        }
                        j = j + 1;
                    }
                    assert(addrs@.take(addrs@.len() as int) =~= addrs@);
                },
                None => {},
            }
            k = k + 1;
        }
        rows
    }
}

/// The title of the wallet-detail frame.
pub open spec fn wallet_title(wallet_id: Option<Seq<char>>) -> Seq<char> {
    match wallet_id {
        Some(id) => " Wallet \u{2014} "@ + id + " "@,
        None => " Wallet Detail "@,
    }
}

/// The title of the accounts table: `Accounts (0..n-1)`.
pub open spec fn accounts_title(n: u32) -> Seq<char> {
    "Accounts (0.."@ + decimal((n - 1) as nat) + ")"@
}

/// Lexicographic order on character sequences by code point (the order of
/// `str` comparison, since UTF-8 preserves code-point order).
pub open spec fn lex_le(a: Seq<char>, b: Seq<char>) -> bool
    decreases a.len(),
{
    if a.len() == 0 {
        true
    } else if b.len() == 0 {
        false
    } else if (a[0] as u32) < (b[0] as u32) {
        true
    } else if (a[0] as u32) > (b[0] as u32) {
        false
    } else {
        lex_le(a.drop_first(), b.drop_first())
    }
}

/// Any two sequences are ordered one way or the other.
pub proof fn lemma_lex_total(a: Seq<char>, b: Seq<char>)
    ensures
        lex_le(a, b) || lex_le(b, a),
    decreases a.len(),
{
    if a.len() > 0 && b.len() > 0 && (a[0] as u32) == (b[0] as u32) {
        lemma_lex_total(a.drop_first(), b.drop_first());
    }
}

/// The order is transitive.
pub proof fn lemma_lex_trans(a: Seq<char>, b: Seq<char>, c: Seq<char>)
    requires
        lex_le(a, b),
        lex_le(b, c),
    ensures
        lex_le(a, c),
    decreases a.len(),
{
    if a.len() > 0 && b.len() > 0 && c.len() > 0 && (a[0] as u32) == (b[0] as u32) && (b[0] as u32)
        == (c[0] as u32) {
        lemma_lex_trans(a.drop_first(), b.drop_first(), c.drop_first());
    }
}

/// The sequence is in ascending lexicographic order.
pub open spec fn sorted_lex(s: Seq<String>) -> bool {
    forall|i: int, j: int| 0 <= i < j < s.len() ==> lex_le(#[trigger] s[i]@, #[trigger] s[j]@)
}

fn lex_le_from(a: &str, b: &str, i: usize) -> (r: bool)
    requires
        i <= a@.len(),
        i <= b@.len(),
    ensures
        r == lex_le(a@.skip(i as int), b@.skip(i as int)),
    decreases a@.len() - i,
{
    let n = a.unicode_len();
    let m = b.unicode_len();
    if i == n {
        return true;
    }
    if i == m {
        return false;
    }
    let ca = a.get_char(i) as u32;
    let cb = b.get_char(i) as u32;
    assert(a@.skip(i as int).drop_first() =~= a@.skip(i + 1));
    assert(b@.skip(i as int).drop_first() =~= b@.skip(i + 1));
    if ca < cb {
        true
    } else if ca > cb {
        false
    } else {
        lex_le_from(a, b, i + 1)
    }
}

/// Whether `a` sorts no later than `b`.
pub fn lex_le_str(a: &str, b: &str) -> (r: bool)
    ensures
        r == lex_le(a@, b@),
{
    assert(a@.skip(0) =~= a@);
    assert(b@.skip(0) =~= b@);
    lex_le_from(a, b, 0)
}

/// The curve names of the entries, sorted ascending.
pub fn sorted_curves(entries: &Vec<WalletMetadata>) -> (out: Vec<String>)
    ensures
        out@.to_multiset() == entries@.map_values(|w: WalletMetadata| w.curve_type).to_multiset(),
        sorted_lex(out@),
{
    broadcast use vstd::seq_lib::group_to_multiset_ensures, vstd::seq_lib::to_multiset_build, vstd::seq_lib::to_multiset_insert;

    let ghost names = entries@.map_values(|w: WalletMetadata| w.curve_type);
    let mut out: Vec<String> = Vec::new();
    let mut k: usize = 0;
    assert(names.take(0) =~= Seq::<String>::empty());
    assert(out@ =~= Seq::<String>::empty());
    while k < entries.len()
        invariant
            k <= entries@.len(),
            names == entries@.map_values(|w: WalletMetadata| w.curve_type),
            out@.to_multiset() == names.take(k as int).to_multiset(),
            sorted_lex(out@),
        decreases entries@.len() - k,
    {
        let x = entries[k].curve_type.clone();
        let mut p: usize = 0;
        while p < out.len() && lex_le_str(out[p].as_str(), x.as_str())
            invariant
                p <= out@.len(),
                forall|j: int| 0 <= j < p ==> lex_le(#[trigger] out@[j]@, x@),
            decreases out@.len() - p,
        {
            p = p + 1;
        }
        let ghost before = out@;
        proof {
            if p < before.len() {
                lemma_lex_total(before[p as int]@, x@);
            }
            assert forall|i: int, j: int| 0 <= i < j < before.insert(p as int, x).len() implies lex_le(
                #[trigger] before.insert(p as int, x)[i]@,
                #[trigger] before.insert(p as int, x)[j]@,
            ) by {
                let t = before.insert(p as int, x);
                if j < p {
                } else if j == p {
                } else if i < p {
                    lemma_lex_total(before[p as int]@, x@);
                    assert(lex_le(x@, before[p as int]@));
                    if j - 1 > p {
                        assert(lex_le(before[p as int]@, before[j - 1]@));
                        lemma_lex_trans(x@, before[p as int]@, before[j - 1]@);
                    }
                    lemma_lex_trans(before[i]@, x@, before[j - 1]@);
                } else if i == p {
                    lemma_lex_total(before[p as int]@, x@);
                    if j - 1 > p {
                        assert(lex_le(before[p as int]@, before[j - 1]@));
                        lemma_lex_trans(x@, before[p as int]@, before[j - 1]@);
                    }
                } else {
                    assert(t[i] == before[i - 1]);
                    assert(t[j] == before[j - 1]);
                }
            }
        }
        assert(names[k as int] == x);
        out.insert(p, x);
        proof {
            vstd::seq_lib::to_multiset_insert(before, p as int, x);
            assert(names.take(k + 1) =~= names.take(k as int).push(x));
            vstd::seq_lib::to_multiset_build(names.take(k as int), x);
        }
        k = k + 1;
    }
    assert(names.take(entries@.len() as int) =~= names);
    out
}

/// The parts joined with `+`.
pub open spec fn join_plus(parts: Seq<String>) -> Seq<char>
    decreases parts.len(),
{
    if parts.len() == 0 {
        Seq::empty()
    } else if parts.len() == 1 {
        parts[0]@
    } else {
        join_plus(parts.drop_last()) + "+"@ + parts.last()@
    }
}

/// Joins the parts with `+` (the curves summary, e.g. `ed25519+secp256k1`).
pub fn join_with_plus(parts: &Vec<String>) -> (r: String)
    ensures
        r@ == join_plus(parts@),
{
    let mut r = String::new();
    let mut i: usize = 0;
    while i < parts.len()
        invariant
            i <= parts@.len(),
            r@ == join_plus(parts@.take(i as int)),
        decreases parts@.len() - i,
    {
        assert(parts@.take(i + 1).drop_last() =~= parts@.take(i as int));
        if i > 0 {
            r.append("+");
        }
        r.append(parts[i].as_str());
        proof {
            if i == 0 {
                assert(r@ =~= parts@.take(1)[0]@);
            }
        }
        i = i + 1;
    }
    assert(parts@.take(parts@.len() as int) =~= parts@);
    r
}

/// The characters of `s` before the first occurrence of `c` (all of `s`
/// when `c` does not occur).
pub open spec fn prefix_before(s: Seq<char>, c: char) -> Seq<char>
    decreases s.len(),
{
    if s.len() == 0 || s[0] == c {
        Seq::empty()
    } else {
        seq![s[0]] + prefix_before(s.drop_first(), c)
    }
}

/// The date part of an ISO timestamp: everything before the first `T`.
pub fn date_part(created_at: &str) -> (d: String)
    ensures
        d@ == prefix_before(created_at@, 'T'),
{
    let n = created_at.unicode_len();
    let mut i: usize = 0;
    while i < n && created_at.get_char(i) != 'T'
        invariant
            n == created_at@.len(),
            i <= n,
            forall|j: int| 0 <= j < i ==> created_at@[j] != 'T',
        decreases n - i,
    {
        i = i + 1;
    }
    proof {
        lemma_prefix_before(created_at@, 'T', i as int);
    }
    created_at.substring_char(0, i).to_owned()
}

/// `prefix_before` stops at the first occurrence of `c`.
proof fn lemma_prefix_before(s: Seq<char>, c: char, i: int)
    requires
        0 <= i <= s.len(),
        forall|j: int| 0 <= j < i ==> s[j] != c,
        i == s.len() || s[i] == c,
    ensures
        prefix_before(s, c) == s.subrange(0, i),
    decreases s.len(),
{
    if s.len() == 0 || s[0] == c {
        assert(s.subrange(0, i) =~= Seq::<char>::empty());
    } else {
        lemma_prefix_before(s.drop_first(), c, i - 1);
        assert(s.subrange(0, i) =~= seq![s[0]] + s.drop_first().subrange(0, i - 1));
    }
}

impl WalletDetail {
    /// The frame title: the wallet id when one is set.
    pub fn title(&self) -> (t: String)
        ensures
            t@ == wallet_title(
                match self.wallet_id {
                    Some(id) => Some(id@),
                    None => None,
                },
            ),
    {
        match &self.wallet_id {
            Some(id) => {
                let mut t = owned(" Wallet \u{2014} ");
                t.append(id.as_str());
                t.append(" ");
                t
            },
            None => owned(" Wallet Detail "),
        }
    }

    /// The accounts-table title for the accounts shown.
    pub fn accounts_table_title(&self) -> (t: String)
        requires
            self.accounts_shown >= 1,
        ensures
            t@ == accounts_title(self.accounts_shown),
    {
        let mut t = owned("Accounts (0..");
        let n = decimal_string((self.accounts_shown - 1) as u64);
        t.append(n.as_str());
        t.append(")");
        t
    }
}

impl WalletDetail {
    /// The accounts table is shown when the keystore holds at least one
    /// entry for the wallet; otherwise the screen says it was not found.
    pub fn wallet_found(&self) -> (b: bool)
        ensures
            b == (self.entries@.len() > 0),
    {
        self.entries.len() > 0
    }

    /// The frame is highlighted while the component has the focus.
    pub fn frame_tone(&self) -> (t: Tone)
        ensures
            t == if self.focused { Tone::Highlight } else { Tone::Muted },
    {
        if self.focused { Tone::Highlight } else { Tone::Muted }
    }
}

} // verus!
