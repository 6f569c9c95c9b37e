//! What every ledger transaction keeps.
//!
//! Per asset, the balances held by accounts and the reserves held by vaults
//! add up to the asset's total supply; the journal numbers its entries in
//! order; a processed ticket and an applied ingress order are not accepted
//! again. Each transaction keeps these, whether it is applied or refused.
use vstd::prelude::*;

use crate::amount::{spec_add, Amount};
use crate::asset::AssetConfig;
use crate::bytemap::{
    keys_sorted, lemma_insert, lemma_insert_entries, lemma_insert_same, lemma_lower_bound_le, lemma_remove,
    lemma_update_other, lower_bound, map_contains, map_get, map_insert,
};
use crate::crypto::{identity_consistent, PublicIdentity};
use crate::error::ErrorView;
use crate::fees::{amount_of, spec_add_to, FeeLedgerView, FeeSchedule};
use crate::codec::Canonical;
use crate::ids::{AccountId, AssetId, NoteId, TxId, VaultId};
use crate::ledger::account::{
    balance, fresh_account, set_balance, spec_advance_ingress, spec_advance_ticket, spec_credit,
    spec_debit, AccountView,
};
use crate::ledger::journal::JournalOp;
use crate::ledger::state::{
    account_balance, checked_balances, checked_reserves, conserved, empty_ledger, get_account, get_note,
    get_asset, get_vault, spec_append_journal, spec_configure_fee_schedule, spec_configure_protocol,
    spec_credit_genesis, spec_credit_relayer, spec_deposit_vault, spec_grant_operator_role,
    spec_issue_checks, spec_issue_effects, spec_issue_note, spec_ledger_credit, spec_ledger_debit,
    spec_ledger_register_route, spec_publish_index, spec_register_account, spec_register_asset,
    spec_register_vault, spec_settle_checks, spec_settle_plan, spec_settle_records,
    spec_settle_ticket, spec_settle_transfers, spec_sweep_vault_surplus, spec_verify_conservation,
    state_digest_bytes, sum_balances, sum_reserves, supply, tx_id_of, vault_reserve, with_account, with_vault, LedgerView,
    SettlementPlan,
};
use crate::notes::{order_note_id_bytes, spec_note, spec_verify_ingress, DeliveryNote, IngressOrder, SignedIngressOrder};
use crate::operators::{
    insert_role, roles_of, spec_ensure_not_paused, spec_grant_role, spec_require_role, OperatorRegistryView, OperatorRole,
    ProtocolConfig,
};
use crate::oracle::IndexObservation;
use crate::risk::RiskLimits;
use crate::routes::{spec_register_route, spec_resolve_route, SettlementRoute};
use crate::tickets::{spec_verify_ticket, RedemptionTicket, SignedRedemptionTicket};
use crate::vault::{
    fresh_vault, spec_deposit, spec_lock_notional, spec_pay, spec_release_notional, spec_surplus, spec_sweep,
    NoteRecord, VaultConfig, VaultState,
};

verus! {

/// The tables that the laws read are in key order, as every table of a
/// ledger is: the total supply, the accounts and the balances of each, the
/// notes, and the operators' roles.
pub open spec fn ledger_wf(v: LedgerView) -> bool {
    &&& keys_sorted(v.total_supply)
    &&& keys_sorted(v.accounts)
    &&& keys_sorted(v.notes)
    &&& keys_sorted(v.operators.roles)
    &&& forall|i: int| 0 <= i < v.accounts.len() ==> keys_sorted(#[trigger] v.accounts[i].1.balances)
}

/// Whether `account` holds an account of the ledger.
pub open spec fn has_account(v: LedgerView, account: AccountId) -> bool {
    map_contains(v.accounts, account.0)
}

/// Every vault's controller and index authority hold accounts.
pub open spec fn vaults_backed(v: LedgerView) -> bool {
    forall|i: int|
        0 <= i < v.vaults.len() ==> has_account(v, (#[trigger] v.vaults[i]).1.config.controller)
            && has_account(v, v.vaults[i].1.config.index_authority)
}

/// Every note that `v` holds, `w` holds unchanged.
pub open spec fn notes_kept(v: LedgerView, w: LedgerView) -> bool {
    forall|k: [u8; 32]| #[trigger] map_get(v.notes, k) is Some ==> map_get(w.notes, k) == map_get(v.notes, k)
}

/// For `asset`, what accounts and vaults hold less what was issued.
pub open spec fn imbalance(v: LedgerView, asset: AssetId) -> int {
    sum_balances(v.accounts, asset) + sum_reserves(v.vaults, asset) - supply(v, asset).0
}

/// `w` holds, for every asset, the same surplus or shortfall as `v`.
pub open spec fn same_imbalance(v: LedgerView, w: LedgerView) -> bool {
    forall|asset: AssetId| #[trigger] imbalance(w, asset) == imbalance(v, asset)
}

proof fn lemma_sum_balances_update(s: Seq<([u8; 32], AccountView)>, i: int, e: ([u8; 32], AccountView), asset: AssetId)
    requires
        0 <= i < s.len(),
    ensures
        sum_balances(s.update(i, e), asset) == sum_balances(s, asset) - account_balance(s[i].1, asset)
            + account_balance(e.1, asset),
    decreases s.len(),
{
    let t = s.update(i, e);
    if i == s.len() - 1 {
        assert(t.drop_last() =~= s.drop_last());
    } else {
        assert(t.drop_last() =~= s.drop_last().update(i, e));
        lemma_sum_balances_update(s.drop_last(), i, e, asset);
    }
}

proof fn lemma_sum_balances_insert(s: Seq<([u8; 32], AccountView)>, i: int, e: ([u8; 32], AccountView), asset: AssetId)
    requires
        0 <= i <= s.len(),
    ensures
        sum_balances(s.insert(i, e), asset) == sum_balances(s, asset) + account_balance(e.1, asset),
    decreases s.len(),
{
    let t = s.insert(i, e);
    if i == s.len() {
        assert(t.drop_last() =~= s);
    } else {
        assert(t.drop_last() =~= s.drop_last().insert(i, e));
        lemma_sum_balances_insert(s.drop_last(), i, e, asset);
    }
}

proof fn lemma_sum_reserves_update(s: Seq<([u8; 32], VaultState)>, i: int, e: ([u8; 32], VaultState), asset: AssetId)
    requires
        0 <= i < s.len(),
    ensures
        sum_reserves(s.update(i, e), asset) == sum_reserves(s, asset) - vault_reserve(s[i].1, asset)
            + vault_reserve(e.1, asset),
    decreases s.len(),
{
    let t = s.update(i, e);
    if i == s.len() - 1 {
        assert(t.drop_last() =~= s.drop_last());
    } else {
        assert(t.drop_last() =~= s.drop_last().update(i, e));
        lemma_sum_reserves_update(s.drop_last(), i, e, asset);
    }
}

proof fn lemma_sum_reserves_insert(s: Seq<([u8; 32], VaultState)>, i: int, e: ([u8; 32], VaultState), asset: AssetId)
    requires
        0 <= i <= s.len(),
    ensures
        sum_reserves(s.insert(i, e), asset) == sum_reserves(s, asset) + vault_reserve(e.1, asset),
    decreases s.len(),
{
    let t = s.insert(i, e);
    if i == s.len() {
        assert(t.drop_last() =~= s);
    } else {
        assert(t.drop_last() =~= s.drop_last().insert(i, e));
        lemma_sum_reserves_insert(s.drop_last(), i, e, asset);
    }
}

/// Replacing an account changes the sum of balances of `asset` by the
/// difference of its balances; adding a new one adds its balance.
proof fn lemma_with_account_sum(v: LedgerView, id: AccountId, a: AccountView, asset: AssetId)
    ensures
        get_account(v, id) matches Some(old) ==> sum_balances(with_account(v, id, a).accounts, asset)
            == sum_balances(v.accounts, asset) - account_balance(old, asset) + account_balance(a, asset),
        get_account(v, id) is None ==> sum_balances(with_account(v, id, a).accounts, asset)
            == sum_balances(v.accounts, asset) + account_balance(a, asset),
{
    lemma_lower_bound_le(v.accounts, id.0);
    let i = lower_bound(v.accounts, id.0) as int;
    if i < v.accounts.len() && v.accounts[i].0 == id.0 {
        lemma_sum_balances_update(v.accounts, i, (id.0, a), asset);
    } else {
        lemma_sum_balances_insert(v.accounts, i, (id.0, a), asset);
    }
}

/// Replacing a vault changes the sum of reserves of `asset` by the
/// difference of its reserves; adding a new one adds its reserve.
proof fn lemma_with_vault_sum(v: LedgerView, id: VaultId, s: VaultState, asset: AssetId)
    ensures
        get_vault(v, id) matches Some(old) ==> sum_reserves(with_vault(v, id, s).vaults, asset)
            == sum_reserves(v.vaults, asset) - vault_reserve(old, asset) + vault_reserve(s, asset),
        get_vault(v, id) is None ==> sum_reserves(with_vault(v, id, s).vaults, asset)
            == sum_reserves(v.vaults, asset) + vault_reserve(s, asset),
{
    lemma_lower_bound_le(v.vaults, id.0);
    let i = lower_bound(v.vaults, id.0) as int;
    if i < v.vaults.len() && v.vaults[i].0 == id.0 {
        lemma_sum_reserves_update(v.vaults, i, (id.0, s), asset);
    } else {
        lemma_sum_reserves_insert(v.vaults, i, (id.0, s), asset);
    }
}

/// Replacing or adding an account with sorted balances keeps the ledger well formed.
proof fn lemma_with_account_wf(v: LedgerView, id: AccountId, a: AccountView)
    requires
        ledger_wf(v),
        keys_sorted(a.balances),
    ensures
        ledger_wf(with_account(v, id, a)),
        vaults_backed(v) ==> vaults_backed(with_account(v, id, a)),
{
    lemma_insert(v.accounts, id.0, a);
    let w = with_account(v, id, a);
    if vaults_backed(v) {
        assert forall|i: int| 0 <= i < w.vaults.len() implies has_account(w, (#[trigger] w.vaults[i]).1.config.controller)
            && has_account(w, w.vaults[i].1.config.index_authority) by {
            assert(has_account(v, v.vaults[i].1.config.controller));
            assert(has_account(v, v.vaults[i].1.config.index_authority));
        }
    }
    lemma_lower_bound_le(v.accounts, id.0);
    let i = lower_bound(v.accounts, id.0) as int;
    let t = with_account(v, id, a).accounts;
    if i < v.accounts.len() && v.accounts[i].0 == id.0 {
        assert forall|j: int| 0 <= j < t.len() implies keys_sorted(#[trigger] t[j].1.balances) by {
            if j != i {
                assert(t[j] == v.accounts[j]);
            }
        }
    } else {
        assert forall|j: int| 0 <= j < t.len() implies keys_sorted(#[trigger] t[j].1.balances) by {
            if j < i {
                assert(t[j] == v.accounts[j]);
            } else if j > i {
                assert(t[j] == v.accounts[j - 1]);
            }
        }
    }
}

/// A vault found in a ledger whose vaults are backed has its controller and
/// index authority among the accounts.
proof fn lemma_get_vault_backed(v: LedgerView, id: VaultId)
    requires
        vaults_backed(v),
        get_vault(v, id) is Some,
    ensures
        has_account(v, get_vault(v, id)->Some_0.config.controller),
        has_account(v, get_vault(v, id)->Some_0.config.index_authority),
{
    lemma_lower_bound_le(v.vaults, id.0);
    let i = lower_bound(v.vaults, id.0) as int;
    assert(has_account(v, v.vaults[i].1.config.controller));
}

/// Binding a vault whose controller and index authority hold accounts keeps
/// the vaults backed.
proof fn lemma_with_vault_backed(v: LedgerView, id: VaultId, s: VaultState)
    requires
        vaults_backed(v),
        has_account(v, s.config.controller),
        has_account(v, s.config.index_authority),
    ensures
        vaults_backed(with_vault(v, id, s)),
{
    lemma_insert_entries(v.vaults, id.0, s);
    let w = with_vault(v, id, s);
    assert forall|i: int| 0 <= i < w.vaults.len() implies has_account(w, (#[trigger] w.vaults[i]).1.config.controller)
        && has_account(w, w.vaults[i].1.config.index_authority) by {
        if w.vaults[i] != (id.0, s) {
            let j = choose|j: int| 0 <= j < v.vaults.len() && v.vaults[j] == w.vaults[i];
            assert(has_account(v, v.vaults[j].1.config.controller));
        }
    }
}

/// Rebinding a vault with its configuration unchanged keeps the vaults backed.
proof fn lemma_update_vault_backed(v: LedgerView, id: VaultId, s: VaultState)
    requires
        vaults_backed(v),
        get_vault(v, id) matches Some(old) && old.config == s.config,
    ensures
        vaults_backed(with_vault(v, id, s)),
{
    lemma_get_vault_backed(v, id);
    lemma_with_vault_backed(v, id, s);
}

/// Setting one balance keeps the balances sorted, sets that balance and
/// leaves the others as they were.
proof fn lemma_set_balance(balances: Seq<([u8; 32], Amount)>, asset: AssetId, amount: Amount, other: AssetId)
    requires
        keys_sorted(balances),
    ensures
        keys_sorted(set_balance(balances, asset, amount)),
        amount_of(set_balance(balances, asset, amount), asset.0) == amount,
        other != asset ==> amount_of(set_balance(balances, asset, amount), other.0) == amount_of(
            balances,
            other.0,
        ),
{
    if amount.0 == 0 {
        lemma_remove(balances, asset.0);
        if other != asset {
            assert(other.0 != asset.0);
        }
    } else {
        lemma_insert(balances, asset.0, amount);
        if other != asset {
            assert(other.0 != asset.0);
        }
    }
}

/// A credit of `amount` of `asset` to an account adds that amount to its
/// balance of `asset` and nothing to its other balances.
proof fn lemma_credit_balances(a: AccountView, asset: AssetId, amount: Amount, other: AssetId)
    requires
        keys_sorted(a.balances),
        spec_credit(a, asset, amount) is Ok,
    ensures
        keys_sorted(spec_credit(a, asset, amount)->Ok_0.balances),
        account_balance(spec_credit(a, asset, amount)->Ok_0, other) == account_balance(a, other) + (
        if other == asset {
            amount.0 as int
        } else {
            0
        }),
{
    let next = spec_add(balance(a, asset), amount)->Ok_0;
    lemma_set_balance(a.balances, asset, next, other);
}

/// A debit of `amount` of `asset` from an account takes that amount from
/// its balance of `asset` and nothing from its other balances.
proof fn lemma_debit_balances(a: AccountView, account: AccountId, asset: AssetId, amount: Amount, other: AssetId)
    requires
        keys_sorted(a.balances),
        spec_debit(a, account, asset, amount) is Ok,
    ensures
        keys_sorted(spec_debit(a, account, asset, amount)->Ok_0.balances),
        account_balance(spec_debit(a, account, asset, amount)->Ok_0, other) == account_balance(a, other)
            - (if other == asset {
            amount.0 as int
        } else {
            0
        }),
{
    let next = Amount((balance(a, asset).0 - amount.0) as u128);
    lemma_set_balance(a.balances, asset, next, other);
}

/// Reading an account of a well-formed ledger gives sorted balances.
proof fn lemma_get_account_wf(v: LedgerView, id: AccountId)
    requires
        ledger_wf(v),
        get_account(v, id) is Some,
    ensures
        keys_sorted(get_account(v, id)->Some_0.balances),
{
    lemma_lower_bound_le(v.accounts, id.0);
    let i = lower_bound(v.accounts, id.0) as int;
    assert(keys_sorted(v.accounts[i].1.balances));
}

/// A ledger credit adds `amount` to the sum of balances of `asset` and
/// leaves the ledger well formed.
proof fn lemma_ledger_credit(v: LedgerView, account: AccountId, asset: AssetId, amount: Amount, other: AssetId)
    requires
        ledger_wf(v),
        spec_ledger_credit(v, account, asset, amount) is Ok,
    ensures
        ledger_wf(spec_ledger_credit(v, account, asset, amount)->Ok_0),
        vaults_backed(v) ==> vaults_backed(spec_ledger_credit(v, account, asset, amount)->Ok_0),
        sum_balances(spec_ledger_credit(v, account, asset, amount)->Ok_0.accounts, other) == sum_balances(
            v.accounts,
            other,
        ) + (if other == asset {
            amount.0 as int
        } else {
            0
        }),
{
    let a = get_account(v, account)->Some_0;
    lemma_get_account_wf(v, account);
    let a2 = spec_credit(a, asset, amount)->Ok_0;
    lemma_credit_balances(a, asset, amount, other);
    lemma_with_account_sum(v, account, a2, other);
    lemma_with_account_wf(v, account, a2);
}

/// A ledger debit takes `amount` from the sum of balances of `asset` and
/// leaves the ledger well formed.
proof fn lemma_ledger_debit(v: LedgerView, account: AccountId, asset: AssetId, amount: Amount, other: AssetId)
    requires
        ledger_wf(v),
        spec_ledger_debit(v, account, asset, amount) is Ok,
    ensures
        ledger_wf(spec_ledger_debit(v, account, asset, amount)->Ok_0),
        vaults_backed(v) ==> vaults_backed(spec_ledger_debit(v, account, asset, amount)->Ok_0),
        sum_balances(spec_ledger_debit(v, account, asset, amount)->Ok_0.accounts, other) == sum_balances(
            v.accounts,
            other,
        ) - (if other == asset {
            amount.0 as int
        } else {
            0
        }),
{
    let a = get_account(v, account)->Some_0;
    lemma_get_account_wf(v, account);
    let a2 = spec_debit(a, account, asset, amount)->Ok_0;
    lemma_debit_balances(a, account, asset, amount, other);
    lemma_with_account_sum(v, account, a2, other);
    lemma_with_account_wf(v, account, a2);
}

proof fn lemma_checked_balances(s: Seq<([u8; 32], AccountView)>, asset: AssetId)
    ensures
        sum_balances(s, asset) >= 0,
        checked_balances(s, asset) matches Some(t) ==> t == sum_balances(s, asset),
        sum_balances(s, asset) <= u128::MAX ==> checked_balances(s, asset) is Some,
    decreases s.len(),
{
    if s.len() > 0 {
        lemma_checked_balances(s.drop_last(), asset);
    }
}

proof fn lemma_checked_reserves(s: Seq<([u8; 32], VaultState)>, asset: AssetId)
    ensures
        sum_reserves(s, asset) >= 0,
        checked_reserves(s, asset) matches Some(t) ==> t == sum_reserves(s, asset),
        sum_reserves(s, asset) <= u128::MAX ==> checked_reserves(s, asset) is Some,
    decreases s.len(),
{
    if s.len() > 0 {
        lemma_checked_reserves(s.drop_last(), asset);
    }
}

/// The conservation check passes for `asset` exactly when the balances and
/// vault reserves of that asset add up to its total supply.
pub proof fn lemma_check_exact(v: LedgerView, asset: AssetId)
    ensures
        spec_verify_conservation(v, asset) is Ok <==> imbalance(v, asset) == 0,
{
    lemma_checked_balances(v.accounts, asset);
    lemma_checked_reserves(v.vaults, asset);
}

/// A ledger that conserves value passes the conservation check for every asset.
pub proof fn lemma_conserved_passes_check(v: LedgerView, asset: AssetId)
    requires
        conserved(v),
    ensures
        spec_verify_conservation(v, asset) is Ok,
{
    assert(sum_balances(v.accounts, asset) + sum_reserves(v.vaults, asset) == supply(v, asset).0);
    lemma_check_exact(v, asset);
}

/// Keeping every asset's imbalance keeps value conserved.
proof fn lemma_same_imbalance_conserved(v: LedgerView, w: LedgerView)
    requires
        same_imbalance(v, w),
    ensures
        conserved(v) ==> conserved(w),
{
    if conserved(v) {
        assert forall|asset: AssetId| #[trigger]
            sum_balances(w.accounts, asset) + sum_reserves(w.vaults, asset) == supply(w, asset).0 by {
            assert(imbalance(w, asset) == imbalance(v, asset));
            assert(sum_balances(v.accounts, asset) + sum_reserves(v.vaults, asset) == supply(v, asset).0);
        }
    }
}

/// The entries of the journal carry their positions as sequence numbers.
pub open spec fn journal_sequential(v: LedgerView) -> bool {
    forall|i: int| 0 <= i < v.journal.len() ==> (#[trigger] v.journal[i]).sequence == i
}

/// What the ledger keeps from one transaction to the next: its tables are in
/// key order, value is conserved per asset, the journal is numbered in order,
/// and every vault's controller and index authority hold accounts.
pub open spec fn ledger_invariant(v: LedgerView) -> bool {
    &&& ledger_wf(v)
    &&& conserved(v)
    &&& journal_sequential(v)
    &&& vaults_backed(v)
}

/// What a transaction from `v` to `w` keeps: `w` is well formed; where
/// value was conserved in `v`, it is in `w`; where `v` numbered its journal
/// in order, with room for one more entry, so does `w`; where the vaults of
/// `v` were backed by accounts, those of `w` are; the journal grows by at
/// most one entry; and every note of `v` stays in `w` unchanged.
pub open spec fn keeps_invariant(v: LedgerView, w: LedgerView) -> bool {
    &&& ledger_wf(w)
    &&& conserved(v) ==> conserved(w)
    &&& journal_sequential(v) && v.journal.len() < u64::MAX ==> journal_sequential(w)
    &&& vaults_backed(v) ==> vaults_backed(w)
    &&& w.journal.len() <= v.journal.len() + 1
    &&& notes_kept(v, w)
}

/// A new ledger keeps the invariant.
pub proof fn lemma_new_ledger(network_id: u32)
    ensures
        ledger_invariant(empty_ledger(network_id)),
{
    let v = empty_ledger(network_id);
    assert forall|asset: AssetId| #[trigger]
        sum_balances(v.accounts, asset) + sum_reserves(v.vaults, asset) == supply(v, asset).0 by {
    }
}

/// A step that keeps every asset's imbalance and the journal keeps the
/// invariant, and so does appending any entry after it.
proof fn lemma_append_keeps(v: LedgerView, w: LedgerView)
    requires
        ledger_wf(w),
        same_imbalance(v, w),
        w.journal == v.journal,
        vaults_backed(v) ==> vaults_backed(w),
        notes_kept(v, w),
    ensures
        keeps_invariant(v, w),
        forall|tx: TxId, op: JournalOp| keeps_invariant(v, #[trigger] spec_append_journal(w, tx, op)),
        conserved(v) ==> forall|tx: TxId, op: JournalOp, asset: AssetId|
            #[trigger] spec_verify_conservation(spec_append_journal(w, tx, op), asset) is Ok,
{
    lemma_same_imbalance_conserved(v, w);
    assert forall|tx: TxId, op: JournalOp| keeps_invariant(v, #[trigger] spec_append_journal(w, tx, op)) by {
        let n = spec_append_journal(w, tx, op);
        assert forall|asset: AssetId| #[trigger] imbalance(n, asset) == imbalance(v, asset) by {
            assert(imbalance(n, asset) == imbalance(w, asset));
        }
        lemma_same_imbalance_conserved(v, n);
    }
    if conserved(v) {
        assert forall|tx: TxId, op: JournalOp, asset: AssetId|
            #[trigger] spec_verify_conservation(spec_append_journal(w, tx, op), asset) is Ok by {
            let n = spec_append_journal(w, tx, op);
            assert(keeps_invariant(v, n));
            lemma_conserved_passes_check(n, asset);
        }
    }
}

/// Configuring the protocol keeps the ledger invariant.
pub proof fn lemma_configure_protocol(v: LedgerView, config: ProtocolConfig)
    requires
        ledger_wf(v),
    ensures
        keeps_invariant(v, spec_configure_protocol(v, config).0),
{
    let w = LedgerView { operators: OperatorRegistryView { config: Some(config), ..v.operators }, ..v };
    lemma_append_keeps(v, w);
}

/// Granting an operator role keeps the ledger invariant.
pub proof fn lemma_grant_operator_role(v: LedgerView, account: AccountId, role: OperatorRole)
    requires
        ledger_wf(v),
    ensures
        keeps_invariant(v, spec_grant_operator_role(v, account, role).0),
{
    let w = LedgerView { operators: spec_grant_role(v.operators, account, role), ..v };
    lemma_insert(v.operators.roles, account.0, insert_role(roles_of(v.operators, account), role));
    lemma_append_keeps(v, w);
}

/// Setting the risk limits keeps the ledger invariant.
pub proof fn lemma_set_risk_limits(v: LedgerView, limits: RiskLimits)
    requires
        ledger_wf(v),
    ensures
        keeps_invariant(v, LedgerView { risk: limits, ..v }),
{
    let w = LedgerView { risk: limits, ..v };
    assert(same_imbalance(v, w));
    lemma_same_imbalance_conserved(v, w);
}

/// Configuring the fee schedule keeps the ledger invariant.
pub proof fn lemma_configure_fee_schedule(v: LedgerView, schedule: FeeSchedule)
    requires
        ledger_wf(v),
    ensures
        keeps_invariant(v, spec_configure_fee_schedule(v, schedule).0),
{
    let w = LedgerView { fees: FeeLedgerView { schedule: Some(schedule), ..v.fees }, ..v };
    lemma_append_keeps(v, w);
}

/// Registering a route keeps the ledger invariant.
pub proof fn lemma_register_route(v: LedgerView, route: SettlementRoute)
    requires
        ledger_wf(v),
    ensures
        keeps_invariant(v, spec_ledger_register_route(v, route).0),
{
    if let Ok(routes) = spec_register_route(v.routes, route) {
        lemma_append_keeps(v, LedgerView { routes, ..v });
    }
}

/// Registering an asset keeps the ledger invariant: a supply recorded for it
/// starts at zero, which changes no asset's supply.
pub proof fn lemma_register_asset(v: LedgerView, config: AssetConfig)
    requires
        ledger_wf(v),
    ensures
        keeps_invariant(v, spec_register_asset(v, config).0),
{
    let w = spec_register_asset(v, config).0;
    if !map_contains(v.assets, config.id.0) && !map_contains(v.total_supply, config.id.0) {
        lemma_insert(v.total_supply, config.id.0, Amount(0));
        assert forall|asset: AssetId| #[trigger] imbalance(w, asset) == imbalance(v, asset) by {
            if asset != config.id {
                assert(asset.0 != config.id.0);
            }
        }
        lemma_same_imbalance_conserved(v, w);
    }
}

/// Registering an account keeps the ledger invariant: it starts with no balances.
pub proof fn lemma_register_account(v: LedgerView, identity: PublicIdentity)
    requires
        ledger_wf(v),
    ensures
        keeps_invariant(v, spec_register_account(v, identity).0),
{
    let w = spec_register_account(v, identity).0;
    if identity_consistent(identity) && !map_contains(v.accounts, identity.account.0) {
        let a = fresh_account(identity);
        assert forall|asset: AssetId| #[trigger] imbalance(w, asset) == imbalance(v, asset) by {
            lemma_with_account_sum(v, identity.account, a, asset);
        }
        lemma_with_account_wf(v, identity.account, a);
        lemma_same_imbalance_conserved(v, w);
    }
}

/// Registering a vault keeps the ledger invariant: it starts with no reserve.
pub proof fn lemma_register_vault(v: LedgerView, config: VaultConfig)
    requires
        ledger_wf(v),
    ensures
        keeps_invariant(v, spec_register_vault(v, config).0),
{
    let s = fresh_vault(config);
    let w = with_vault(v, config.vault_id, s);
    if !map_contains(v.vaults, config.vault_id.0) && get_account(v, config.controller) is Some
        && get_account(v, config.index_authority) is Some {
        assert forall|asset: AssetId| #[trigger] imbalance(w, asset) == imbalance(v, asset) by {
            lemma_with_vault_sum(v, config.vault_id, s, asset);
        }
        if vaults_backed(v) {
            lemma_with_vault_backed(v, config.vault_id, s);
        }
        lemma_append_keeps(v, w);
    }
}

/// Publishing a share index keeps the ledger invariant: repricing a vault
/// moves no reserve.
pub proof fn lemma_publish_index(v: LedgerView, o: IndexObservation)
    requires
        ledger_wf(v),
    ensures
        keeps_invariant(v, spec_publish_index(v, o).0),
{
    if let Some(vault) = get_vault(v, o.vault_id) {
        let s = VaultState { share_index: o.share_index, ..vault };
        let w = LedgerView { vaults: map_insert(v.vaults, o.vault_id.0, s), oracle: map_insert(v.oracle, o.vault_id.0, o), ..v };
        assert forall|asset: AssetId| #[trigger] imbalance(w, asset) == imbalance(v, asset) by {
            lemma_with_vault_sum(v, o.vault_id, s, asset);
        }
        if vaults_backed(v) {
            lemma_update_vault_backed(v, o.vault_id, s);
            assert(w.vaults == with_vault(v, o.vault_id, s).vaults);
        }
        lemma_append_keeps(v, w);
    }
}

/// A genesis credit keeps the ledger invariant: the amount credited is added
/// to the asset's supply as well.
pub proof fn lemma_credit_genesis(v: LedgerView, account: AccountId, asset: AssetId, amount: Amount)
    requires
        ledger_wf(v),
    ensures
        keeps_invariant(v, spec_credit_genesis(v, account, asset, amount).0),
        conserved(v) ==> !(spec_credit_genesis(v, account, asset, amount).1 matches Err(ErrorView::Conservation { .. })),
{
    if amount.0 != 0 && get_asset(v, asset) is Some {
        if let Ok(v1) = spec_ledger_credit(v, account, asset, amount) {
            if let Ok(total) = spec_add(supply(v1, asset), amount) {
                let v2 = LedgerView { total_supply: map_insert(v1.total_supply, asset.0, total), ..v1 };
                lemma_insert(v1.total_supply, asset.0, total);
                lemma_ledger_credit(v, account, asset, amount, asset);
                assert forall|b: AssetId| #[trigger] imbalance(v2, b) == imbalance(v, b) by {
                    lemma_ledger_credit(v, account, asset, amount, b);
                    if b != asset {
                        assert(b.0 != asset.0);
                    }
                }
                lemma_append_keeps(v, v2);
            }
        }
    }
}

/// A vault deposit keeps the ledger invariant: what leaves the owner's
/// balance enters the vault's reserve, in the vault's asset.
pub proof fn lemma_deposit_vault(v: LedgerView, owner: AccountId, vault_id: VaultId, amount: Amount)
    requires
        ledger_wf(v),
    ensures
        keeps_invariant(v, spec_deposit_vault(v, owner, vault_id, amount).0),
        conserved(v) ==> !(spec_deposit_vault(v, owner, vault_id, amount).1 matches Err(ErrorView::Conservation { .. })),
{
    if amount.0 != 0 {
        if let Some(vault) = get_vault(v, vault_id) {
            let asset = vault.config.asset;
            if let Ok(v1) = spec_ledger_debit(v, owner, asset, amount) {
                if let Ok(deposited) = spec_deposit(vault, amount) {
                    let v2 = with_vault(v1, vault_id, deposited);
                    lemma_ledger_debit(v, owner, asset, amount, asset);
                    assert forall|b: AssetId| #[trigger] imbalance(v2, b) == imbalance(v, b) by {
                        lemma_ledger_debit(v, owner, asset, amount, b);
                        lemma_with_vault_sum(v1, vault_id, deposited, b);
                    }
                    if vaults_backed(v) {
                        lemma_update_vault_backed(v1, vault_id, deposited);
                    }
                    lemma_append_keeps(v, v2);
                }
            }
        }
    }
}

/// A sweep of vault surplus keeps the ledger invariant: what leaves the
/// vault's reserve is credited to its controller, in the vault's asset.
pub proof fn lemma_sweep_vault_surplus(v: LedgerView, controller: AccountId, vault_id: VaultId, amount: Amount)
    requires
        ledger_wf(v),
    ensures
        keeps_invariant(v, spec_sweep_vault_surplus(v, controller, vault_id, amount).0),
        conserved(v) ==> !(spec_sweep_vault_surplus(v, controller, vault_id, amount).1 matches Err(ErrorView::Conservation { .. })),
{
    if let Some(vault) = get_vault(v, vault_id) {
        let asset = vault.config.asset;
        if vault.config.controller == controller {
            if let Ok(swept) = spec_sweep(vault, amount) {
                let v1 = with_vault(v, vault_id, swept);
                if let Ok(v2) = spec_ledger_credit(v1, controller, asset, amount) {
                    assert(ledger_wf(v1));
                    lemma_ledger_credit(v1, controller, asset, amount, asset);
                    assert forall|b: AssetId| #[trigger] imbalance(v2, b) == imbalance(v, b) by {
                        lemma_with_vault_sum(v, vault_id, swept, b);
                        lemma_ledger_credit(v1, controller, asset, amount, b);
                    }
                    if vaults_backed(v) {
                        lemma_update_vault_backed(v, vault_id, swept);
                    }
                    lemma_append_keeps(v, v2);
                }
            }
        }
    }
}

/// An ingress order that passes its checks names a source vault of the
/// order's asset.
proof fn lemma_issue_checks_vault(v: LedgerView, s: SignedIngressOrder)
    requires
        spec_issue_checks(v, s) is Ok,
    ensures
        get_vault(v, s.order.source_vault) matches Some(vault) && vault.config.asset == s.order.asset,
{
}

/// Issuing a note keeps the ledger invariant: what leaves the issuer's
/// balance enters the source vault's reserve, in the same asset.
pub proof fn lemma_issue_note(v: LedgerView, s: SignedIngressOrder)
    requires
        ledger_wf(v),
    ensures
        keeps_invariant(v, spec_issue_note(v, s).0),
        conserved(v) ==> !(spec_issue_note(v, s).1 matches Err(ErrorView::Conservation { .. })),
{
    let order = s.order;
    if let Ok((note, tx)) = spec_issue_checks(v, s) {
        lemma_issue_checks_vault(v, s);
        if let Ok(v1) = spec_ledger_debit(v, order.issuer, order.asset, order.amount) {
            let vault = get_vault(v1, order.source_vault)->Some_0;
            if let Ok(deposited) = spec_deposit(vault, order.amount) {
                let locked = spec_lock_notional(deposited, order.amount);
                if locked.1 is Ok {
                    let v2 = with_vault(v1, order.source_vault, locked.0);
                    lemma_ledger_debit(v, order.issuer, order.asset, order.amount, order.asset);
                    if let Some(issuer) = get_account(v2, order.issuer) {
                        if let Ok(advanced) = spec_advance_ingress(issuer) {
                            let v3 = with_account(v2, order.issuer, advanced);
                            lemma_get_account_wf(v2, order.issuer);
                            lemma_with_account_wf(v2, order.issuer, advanced);
                            let v4 = LedgerView {
                                notes: map_insert(v3.notes, note.note_id.0, note),
                                note_records: map_insert(
                                    v3.note_records,
                                    note.note_id.0,
                                    NoteRecord {
                                        note_id: note.note_id,
                                        source_vault: order.source_vault,
                                        issuer: order.issuer,
                                        settled: false,
                                    },
                                ),
                                seen_transactions: map_insert(v3.seen_transactions, tx.0, ()),
                                ..v3
                            };
                            assert forall|b: AssetId| #[trigger] imbalance(v4, b) == imbalance(v, b) by {
                                lemma_ledger_debit(v, order.issuer, order.asset, order.amount, b);
                                lemma_with_vault_sum(v1, order.source_vault, locked.0, b);
                                lemma_with_account_sum(v2, order.issuer, advanced, b);
                            }
                            if vaults_backed(v) {
                                lemma_update_vault_backed(v1, order.source_vault, locked.0);
                            }
                            lemma_insert(v3.notes, note.note_id.0, note);
                            assert forall|k: [u8; 32]| #[trigger] map_get(v.notes, k) is Some implies map_get(
                                v4.notes,
                                k,
                            ) == map_get(v.notes, k) by {
                                if k == note.note_id.0 {
                                    assert(map_contains(v.notes, note.note_id.0));
                                }
                            }
                            lemma_append_keeps(v, v4);
                        }
                    }
                }
            }
        }
    }
}

/// A ticket that passes its checks names a payout vault of the note's asset.
proof fn lemma_settle_checks_vault(v: LedgerView, s: SignedRedemptionTicket)
    ensures
        spec_settle_checks(v, s) matches Ok((note, record, payout)) ==> get_vault(v, s.ticket.payout_vault)
            == Some(payout) && payout.config.asset == note.asset,
{
}

/// A settlement plan pays from a vault of the note's asset, and what the
/// beneficiary and the relayer receive adds up to the gross amount.
proof fn lemma_settle_plan_facts(v: LedgerView, s: SignedRedemptionTicket)
    requires
        spec_settle_plan(v, s) is Ok,
    ensures
        get_vault(v, s.ticket.payout_vault) matches Some(payout) && payout.config.asset
            == spec_settle_plan(v, s)->Ok_0.note.asset,
        spec_settle_plan(v, s)->Ok_0.beneficiary_amount.0 + s.ticket.relayer_fee.0 == spec_settle_plan(
            v,
            s,
        )->Ok_0.gross_amount.0,
{
    lemma_settle_checks_vault(v, s);
}

/// The transfers of a settlement keep every asset's imbalance: the payout
/// vault pays the gross amount, which the beneficiary and the relayer receive.
proof fn lemma_settle_transfers(v: LedgerView, t: RedemptionTicket, p: SettlementPlan)
    requires
        ledger_wf(v),
        get_vault(v, t.payout_vault) matches Some(payout) && payout.config.asset == p.note.asset,
        p.beneficiary_amount.0 + t.relayer_fee.0 == p.gross_amount.0,
    ensures
        spec_settle_transfers(v, t, p) matches Ok(w) ==> ledger_wf(w) && same_imbalance(v, w) && w.journal
            == v.journal && w.notes == v.notes && (vaults_backed(v) ==> vaults_backed(w)),
{
    let asset = p.note.asset;
    let payout = get_vault(v, t.payout_vault)->Some_0;
    if let Ok(paid) = spec_pay(payout, p.gross_amount) {
        let v1 = with_vault(v, t.payout_vault, paid);
        if let Some(source) = get_vault(v1, p.record.source_vault) {
            let released = spec_release_notional(source, p.note.amount);
            if released.1 is Ok {
                let v2 = with_vault(v1, p.record.source_vault, released.0);
                assert(ledger_wf(v2));
                if vaults_backed(v) {
                    lemma_update_vault_backed(v, t.payout_vault, paid);
                    lemma_update_vault_backed(v1, p.record.source_vault, released.0);
                }
                if let Ok(v3) = spec_ledger_credit(v2, t.beneficiary, asset, p.beneficiary_amount) {
                    lemma_ledger_credit(v2, t.beneficiary, asset, p.beneficiary_amount, asset);
                    if let Ok(v4) = spec_credit_relayer(v3, t, asset) {
                        if t.relayer_fee.0 != 0 {
                            lemma_ledger_credit(v3, t.relayer, asset, t.relayer_fee, asset);
                        }
                        assert forall|b: AssetId| #[trigger] imbalance(v4, b) == imbalance(v, b) by {
                            lemma_with_vault_sum(v, t.payout_vault, paid, b);
                            lemma_with_vault_sum(v1, p.record.source_vault, released.0, b);
                            lemma_ledger_credit(v2, t.beneficiary, asset, p.beneficiary_amount, b);
                            if t.relayer_fee.0 != 0 {
                                lemma_ledger_credit(v3, t.relayer, asset, t.relayer_fee, b);
                            }
                        }
                    }
                }
            }
        }
    }
}

/// The records of a settlement keep the invariant: fees accrue, the
/// beneficiary's nonce advances, and nothing moves between holders.
proof fn lemma_settle_records(v: LedgerView, t: RedemptionTicket, p: SettlementPlan)
    requires
        ledger_wf(v),
    ensures
        spec_settle_records(v, t, p) matches Ok(w) ==> keeps_invariant(v, w),
{
    if let Ok(accrued) = spec_add_to(v.fees.accrued, p.note.asset.0, p.protocol_fee) {
        if let Ok(reserve_buffer) = spec_add_to(v.fees.reserve_buffer, p.note.asset.0, p.reserve_fee) {
            let v1 = LedgerView { fees: FeeLedgerView { accrued, reserve_buffer, ..v.fees }, ..v };
            if let Some(b) = get_account(v1, t.beneficiary) {
                if let Ok(advanced) = spec_advance_ticket(b) {
                    let v2 = with_account(v1, t.beneficiary, advanced);
                    lemma_get_account_wf(v1, t.beneficiary);
                    lemma_with_account_wf(v1, t.beneficiary, advanced);
                    let v3 = LedgerView {
                        note_records: map_insert(v2.note_records, t.note_id.0, NoteRecord { settled: true, ..p.record }),
                        processed_tickets: map_insert(v2.processed_tickets, t.ticket_id.0, ()),
                        seen_transactions: map_insert(v2.seen_transactions, p.tx_id.0, ()),
                        ..v2
                    };
                    assert forall|asset: AssetId| #[trigger] imbalance(v3, asset) == imbalance(v, asset) by {
                        lemma_with_account_sum(v1, t.beneficiary, advanced, asset);
                    }
                    lemma_append_keeps(v, v3);
                }
            }
        }
    }
}

/// The checks and the pricing of a ticket refuse it for other causes than
/// conservation.
proof fn lemma_settle_plan_cause(v: LedgerView, s: SignedRedemptionTicket)
    ensures
        !(spec_settle_plan(v, s) matches Err(ErrorView::Conservation { .. })),
{
    lemma_settle_checks_cause(v, s);
    if let Ok((note, record, payout)) = spec_settle_checks(v, s) {
        lemma_resolve_cause(
            v.routes,
            record.source_vault,
            s.ticket.payout_vault,
            note.asset,
            note.amount,
            s.ticket.relayer_fee,
        );
    }
}

proof fn lemma_resolve_cause(
    routes: Seq<([u8; 32], SettlementRoute)>,
    source_vault: VaultId,
    payout_vault: VaultId,
    asset: AssetId,
    amount: Amount,
    relayer_fee: Amount,
)
    ensures
        !(spec_resolve_route(routes, source_vault, payout_vault, asset, amount, relayer_fee) matches Err(
            ErrorView::Conservation { .. },
        )),
    decreases routes.len(),
{
    if routes.len() > 0 {
        lemma_resolve_cause(routes.drop_first(), source_vault, payout_vault, asset, amount, relayer_fee);
    }
}

proof fn lemma_settle_checks_cause(v: LedgerView, s: SignedRedemptionTicket)
    ensures
        !(spec_settle_checks(v, s) matches Err(ErrorView::Conservation { .. })),
{
}

/// The transfers and the records of a settlement fail for other causes than
/// conservation.
proof fn lemma_settle_steps_cause(v: LedgerView, t: RedemptionTicket, p: SettlementPlan)
    ensures
        !(spec_settle_transfers(v, t, p) matches Err(ErrorView::Conservation { .. })),
        !(spec_settle_records(v, t, p) matches Err(ErrorView::Conservation { .. })),
{
}

/// Settling a ticket keeps the ledger invariant.
pub proof fn lemma_settle_ticket(v: LedgerView, s: SignedRedemptionTicket)
    requires
        ledger_wf(v),
    ensures
        keeps_invariant(v, spec_settle_ticket(v, s).0),
        conserved(v) ==> !(spec_settle_ticket(v, s).1 matches Err(ErrorView::Conservation { .. })),
{
    lemma_settle_plan_cause(v, s);
    if let Ok(p) = spec_settle_plan(v, s) {
        lemma_settle_plan_facts(v, s);
        lemma_settle_steps_cause(v, s.ticket, p);
        lemma_settle_transfers(v, s.ticket, p);
        if let Ok(v1) = spec_settle_transfers(v, s.ticket, p) {
            lemma_same_imbalance_conserved(v, v1);
            lemma_settle_records(v1, s.ticket, p);
            lemma_settle_steps_cause(v1, s.ticket, p);
            if let Ok(next) = spec_settle_records(v1, s.ticket, p) {
                if conserved(v) {
                    if let Some(note) = get_note(next, s.ticket.note_id) {
                        lemma_conserved_passes_check(next, note.asset);
                    }
                }
            }
        }
    }
}

/// What a ticket that passes its checks shows of the ledger.
proof fn lemma_settle_checks_facts(v: LedgerView, s: SignedRedemptionTicket)
    requires
        spec_settle_checks(v, s) is Ok,
    ensures
        spec_verify_ticket(s) is Ok,
        spec_ensure_not_paused(v.operators) is Ok,
        spec_require_role(v.operators, s.ticket.beneficiary, OperatorRole::Beneficiary) is Ok,
        spec_require_role(v.operators, s.ticket.relayer, OperatorRole::Relayer) is Ok,
        s.ticket.network_id == v.network_id,
        get_account(v, s.ticket.beneficiary) matches Some(b) && b.next_ticket_nonce == s.ticket.ticket_nonce,
{
}

/// A ticket whose signature, roles and network pass on a ledger that has
/// processed it is refused as processed.
proof fn lemma_settle_checks_processed(w: LedgerView, s: SignedRedemptionTicket)
    requires
        spec_verify_ticket(s) is Ok,
        spec_ensure_not_paused(w.operators) is Ok,
        spec_require_role(w.operators, s.ticket.beneficiary, OperatorRole::Beneficiary) is Ok,
        spec_require_role(w.operators, s.ticket.relayer, OperatorRole::Relayer) is Ok,
        s.ticket.network_id == w.network_id,
        map_contains(w.processed_tickets, s.ticket.ticket_id.0),
    ensures
        spec_settle_ticket(w, s).1 == Err::<TxId, ErrorView>(ErrorView::TicketProcessed(s.ticket.ticket_id)),
{
    assert(spec_settle_checks(w, s) == Err::<(DeliveryNote, NoteRecord, VaultState), ErrorView>(
        ErrorView::TicketProcessed(s.ticket.ticket_id),
    ));
}

/// A ledger credit changes no account's nonces and nothing outside the accounts.
proof fn lemma_ledger_credit_nonces(v: LedgerView, account: AccountId, asset: AssetId, amount: Amount, x: AccountId)
    requires
        spec_ledger_credit(v, account, asset, amount) is Ok,
        get_account(v, x) is Some,
    ensures
        get_account(spec_ledger_credit(v, account, asset, amount)->Ok_0, x) matches Some(a)
            && a.next_ticket_nonce == get_account(v, x)->Some_0.next_ticket_nonce
            && a.next_ingress_nonce == get_account(v, x)->Some_0.next_ingress_nonce,
{
    let a2 = spec_credit(get_account(v, account)->Some_0, asset, amount)->Ok_0;
    if x == account {
        lemma_insert_same(v.accounts, account.0, a2);
    } else {
        assert(x.0 != account.0);
        lemma_update_other(v.accounts, account.0, a2, x.0);
    }
}

/// The transfers of a settlement change no account's ticket nonce, no role
/// and no network.
proof fn lemma_settle_transfers_marks(v: LedgerView, t: RedemptionTicket, p: SettlementPlan)
    requires
        spec_settle_transfers(v, t, p) is Ok,
        get_account(v, t.beneficiary) is Some,
    ensures
        spec_settle_transfers(v, t, p)->Ok_0.operators == v.operators,
        spec_settle_transfers(v, t, p)->Ok_0.network_id == v.network_id,
        get_account(spec_settle_transfers(v, t, p)->Ok_0, t.beneficiary) matches Some(a)
            && a.next_ticket_nonce == get_account(v, t.beneficiary)->Some_0.next_ticket_nonce
            && a.next_ingress_nonce == get_account(v, t.beneficiary)->Some_0.next_ingress_nonce,
{
    let asset = p.note.asset;
    let payout = get_vault(v, t.payout_vault)->Some_0;
    let paid = spec_pay(payout, p.gross_amount)->Ok_0;
    let v1 = with_vault(v, t.payout_vault, paid);
    let source = get_vault(v1, p.record.source_vault)->Some_0;
    let v2 = with_vault(v1, p.record.source_vault, spec_release_notional(source, p.note.amount).0);
    lemma_ledger_credit_nonces(v2, t.beneficiary, asset, p.beneficiary_amount, t.beneficiary);
    let v3 = spec_ledger_credit(v2, t.beneficiary, asset, p.beneficiary_amount)->Ok_0;
    if t.relayer_fee.0 != 0 {
        lemma_ledger_credit_nonces(v3, t.relayer, asset, t.relayer_fee, t.beneficiary);
    }
}

/// The records of a settlement advance the beneficiary's ticket nonce and
/// mark the ticket processed, with no role or network changed.
proof fn lemma_settle_records_marks(v: LedgerView, t: RedemptionTicket, p: SettlementPlan)
    requires
        spec_settle_records(v, t, p) is Ok,
    ensures
        spec_settle_records(v, t, p)->Ok_0.operators == v.operators,
        spec_settle_records(v, t, p)->Ok_0.network_id == v.network_id,
        map_contains(spec_settle_records(v, t, p)->Ok_0.processed_tickets, t.ticket_id.0),
        get_account(spec_settle_records(v, t, p)->Ok_0, t.beneficiary) matches Some(a)
            && a.next_ticket_nonce == get_account(v, t.beneficiary)->Some_0.next_ticket_nonce + 1
            && a.next_ingress_nonce == get_account(v, t.beneficiary)->Some_0.next_ingress_nonce,
{
    let accrued = spec_add_to(v.fees.accrued, p.note.asset.0, p.protocol_fee)->Ok_0;
    let reserve_buffer = spec_add_to(v.fees.reserve_buffer, p.note.asset.0, p.reserve_fee)->Ok_0;
    let r1 = LedgerView { fees: FeeLedgerView { accrued, reserve_buffer, ..v.fees }, ..v };
    let b = get_account(r1, t.beneficiary)->Some_0;
    let advanced = spec_advance_ticket(b)->Ok_0;
    let r2 = with_account(r1, t.beneficiary, advanced);
    lemma_insert_same(r1.accounts, t.beneficiary.0, advanced);
    lemma_insert_same(r2.processed_tickets, t.ticket_id.0, ());
}

/// A settled ticket is not accepted again: the settlement advances the
/// beneficiary's ticket nonce by one, leaving its ingress nonce, and records
/// the ticket as processed, so the same signed ticket is then refused as
/// processed.
pub proof fn lemma_settled_ticket_is_refused(v: LedgerView, s: SignedRedemptionTicket)
    requires
        spec_settle_ticket(v, s).1 is Ok,
    ensures
        get_account(spec_settle_ticket(v, s).0, s.ticket.beneficiary) matches Some(a)
            && a.next_ticket_nonce == s.ticket.ticket_nonce + 1
            && a.next_ingress_nonce == get_account(v, s.ticket.beneficiary)->Some_0.next_ingress_nonce,
        spec_settle_ticket(spec_settle_ticket(v, s).0, s).1 == Err::<TxId, ErrorView>(
            ErrorView::TicketProcessed(s.ticket.ticket_id),
        ),
{
    let t = s.ticket;
    let p = spec_settle_plan(v, s)->Ok_0;
    assert(spec_settle_checks(v, s) is Ok);
    lemma_settle_checks_facts(v, s);
    lemma_settle_transfers_marks(v, t, p);
    let v1 = spec_settle_transfers(v, t, p)->Ok_0;
    lemma_settle_records_marks(v1, t, p);
    let w = spec_settle_records(v1, t, p)->Ok_0;
    assert(spec_settle_ticket(v, s).0 == w);
    lemma_settle_checks_processed(w, s);
}

/// What an ingress order that passes its checks shows of the ledger.
proof fn lemma_issue_checks_facts(v: LedgerView, s: SignedIngressOrder)
    requires
        spec_issue_checks(v, s) is Ok,
    ensures
        spec_verify_ingress(s) is Ok,
        spec_ensure_not_paused(v.operators) is Ok,
        spec_require_role(v.operators, s.order.issuer, OperatorRole::Issuer) is Ok,
        spec_require_role(v.operators, s.order.beneficiary, OperatorRole::Beneficiary) is Ok,
        s.order.network_id == v.network_id,
        get_account(v, s.order.issuer) matches Some(a) && a.next_ingress_nonce == s.order.owner_nonce,
{
}

/// An ingress order whose signature, roles and network pass, on a ledger
/// where its issuer's nonce has moved on, is refused for its nonce.
proof fn lemma_issue_checks_nonce(w: LedgerView, s: SignedIngressOrder, expected: u64)
    requires
        spec_verify_ingress(s) is Ok,
        spec_ensure_not_paused(w.operators) is Ok,
        spec_require_role(w.operators, s.order.issuer, OperatorRole::Issuer) is Ok,
        spec_require_role(w.operators, s.order.beneficiary, OperatorRole::Beneficiary) is Ok,
        s.order.network_id == w.network_id,
        get_account(w, s.order.issuer) matches Some(a) && a.next_ingress_nonce == expected,
        expected != s.order.owner_nonce,
    ensures
        spec_issue_note(w, s).1 == Err::<TxId, ErrorView>(
            ErrorView::NonceMismatch { account: s.order.issuer, expected, received: s.order.owner_nonce },
        ),
{
}

/// Issuing a note advances the issuer's ingress nonce, with no role or
/// network changed.
proof fn lemma_issue_effects_marks(v: LedgerView, order: IngressOrder, note: DeliveryNote, tx: TxId)
    requires
        spec_issue_effects(v, order, note, tx) is Ok,
    ensures
        spec_issue_effects(v, order, note, tx)->Ok_0.operators == v.operators,
        spec_issue_effects(v, order, note, tx)->Ok_0.network_id == v.network_id,
        get_account(spec_issue_effects(v, order, note, tx)->Ok_0, order.issuer) matches Some(a)
            && a.next_ingress_nonce == get_account(v, order.issuer)->Some_0.next_ingress_nonce + 1
            && a.next_ticket_nonce == get_account(v, order.issuer)->Some_0.next_ticket_nonce,
{
    let a0 = get_account(v, order.issuer)->Some_0;
    let debited = spec_debit(a0, order.issuer, order.asset, order.amount)->Ok_0;
    let v1 = spec_ledger_debit(v, order.issuer, order.asset, order.amount)->Ok_0;
    lemma_insert_same(v.accounts, order.issuer.0, debited);
    let vault = get_vault(v1, order.source_vault)->Some_0;
    let deposited = spec_deposit(vault, order.amount)->Ok_0;
    let v2 = with_vault(v1, order.source_vault, spec_lock_notional(deposited, order.amount).0);
    let issuer = get_account(v2, order.issuer)->Some_0;
    let advanced = spec_advance_ingress(issuer)->Ok_0;
    lemma_insert_same(v2.accounts, order.issuer.0, advanced);
}

/// An applied ingress order is not accepted again: issuing advances the
/// issuer's ingress nonce by one, leaving its ticket nonce, so the same
/// signed order is then refused for its nonce.
pub proof fn lemma_issued_order_is_refused(v: LedgerView, s: SignedIngressOrder)
    requires
        spec_issue_note(v, s).1 is Ok,
    ensures
        get_account(spec_issue_note(v, s).0, s.order.issuer) matches Some(a) && a.next_ingress_nonce
            == s.order.owner_nonce + 1 && a.next_ticket_nonce == get_account(v, s.order.issuer)->Some_0.next_ticket_nonce,
        spec_issue_note(spec_issue_note(v, s).0, s).1 == Err::<TxId, ErrorView>(
            ErrorView::NonceMismatch {
                account: s.order.issuer,
                expected: (s.order.owner_nonce + 1) as u64,
                received: s.order.owner_nonce,
            },
        ),
{
    let (note, tx) = spec_issue_checks(v, s)->Ok_0;
    lemma_issue_checks_facts(v, s);
    lemma_issue_effects_marks(v, s.order, note, tx);
    let w = spec_issue_effects(v, s.order, note, tx)->Ok_0;
    assert(spec_issue_note(v, s).0 == w);
    lemma_issue_checks_nonce(w, s, (s.order.owner_nonce + 1) as u64);
}

/// An asset is registered once: registering it again is refused.
pub proof fn lemma_asset_registered_once(v: LedgerView, config: AssetConfig)
    requires
        spec_register_asset(v, config).1 is Ok,
    ensures
        spec_register_asset(spec_register_asset(v, config).0, config).1 == Err::<(), ErrorView>(
            ErrorView::AssetAlreadyExists(config.id),
        ),
{
    lemma_insert_same(v.assets, config.id.0, config);
}

/// An account is registered once: registering it again is refused.
pub proof fn lemma_account_registered_once(v: LedgerView, identity: PublicIdentity)
    requires
        spec_register_account(v, identity).1 is Ok,
    ensures
        spec_register_account(spec_register_account(v, identity).0, identity).1 == Err::<(), ErrorView>(
            ErrorView::AccountAlreadyExists(identity.account),
        ),
{
    lemma_insert_same(v.accounts, identity.account.0, fresh_account(identity));
}

/// A vault is registered once: registering it again is refused.
pub proof fn lemma_vault_registered_once(v: LedgerView, config: VaultConfig)
    requires
        spec_register_vault(v, config).1 is Ok,
    ensures
        spec_register_vault(spec_register_vault(v, config).0, config).1 == Err::<TxId, ErrorView>(
            ErrorView::VaultAlreadyExists(config.vault_id),
        ),
{
    lemma_insert_same(v.vaults, config.vault_id.0, fresh_vault(config));
}

/// Issuing a note changes no account but the issuer's.
pub proof fn lemma_issue_keeps_other_accounts(v: LedgerView, s: SignedIngressOrder, y: AccountId)
    requires
        spec_issue_note(v, s).1 is Ok,
        y != s.order.issuer,
    ensures
        get_account(spec_issue_note(v, s).0, y) == get_account(v, y),
{
    let order = s.order;
    let (note, tx) = spec_issue_checks(v, s)->Ok_0;
    assert(y.0 != order.issuer.0);
    let a0 = get_account(v, order.issuer)->Some_0;
    let debited = spec_debit(a0, order.issuer, order.asset, order.amount)->Ok_0;
    lemma_update_other(v.accounts, order.issuer.0, debited, y.0);
    let v1 = spec_ledger_debit(v, order.issuer, order.asset, order.amount)->Ok_0;
    let vault = get_vault(v1, order.source_vault)->Some_0;
    let deposited = spec_deposit(vault, order.amount)->Ok_0;
    let v2 = with_vault(v1, order.source_vault, spec_lock_notional(deposited, order.amount).0);
    let issuer = get_account(v2, order.issuer)->Some_0;
    let advanced = spec_advance_ingress(issuer)->Ok_0;
    lemma_update_other(v2.accounts, order.issuer.0, advanced, y.0);
    assert(spec_issue_note(v, s).0 == spec_issue_effects(v, order, note, tx)->Ok_0);
}

/// Settling a ticket moves no nonce but the beneficiary's ticket nonce:
/// every other account keeps both its nonces.
pub proof fn lemma_settle_keeps_other_nonces(v: LedgerView, s: SignedRedemptionTicket, y: AccountId)
    requires
        spec_settle_ticket(v, s).1 is Ok,
        y != s.ticket.beneficiary,
        get_account(v, y) is Some,
    ensures
        get_account(spec_settle_ticket(v, s).0, y) matches Some(a) && a.next_ingress_nonce == get_account(
            v,
            y,
        )->Some_0.next_ingress_nonce && a.next_ticket_nonce == get_account(v, y)->Some_0.next_ticket_nonce,
{
    let t = s.ticket;
    let p = spec_settle_plan(v, s)->Ok_0;
    assert(y.0 != t.beneficiary.0);
    let asset = p.note.asset;
    let payout = get_vault(v, t.payout_vault)->Some_0;
    let paid = spec_pay(payout, p.gross_amount)->Ok_0;
    let v1 = with_vault(v, t.payout_vault, paid);
    let source = get_vault(v1, p.record.source_vault)->Some_0;
    let v2 = with_vault(v1, p.record.source_vault, spec_release_notional(source, p.note.amount).0);
    lemma_ledger_credit_nonces(v2, t.beneficiary, asset, p.beneficiary_amount, y);
    let v3 = spec_ledger_credit(v2, t.beneficiary, asset, p.beneficiary_amount)->Ok_0;
    if t.relayer_fee.0 != 0 {
        lemma_ledger_credit_nonces(v3, t.relayer, asset, t.relayer_fee, y);
    }
    let w1 = spec_settle_transfers(v, t, p)->Ok_0;
    let accrued = spec_add_to(w1.fees.accrued, p.note.asset.0, p.protocol_fee)->Ok_0;
    let reserve_buffer = spec_add_to(w1.fees.reserve_buffer, p.note.asset.0, p.reserve_fee)->Ok_0;
    let r1 = LedgerView { fees: FeeLedgerView { accrued, reserve_buffer, ..w1.fees }, ..w1 };
    let b = get_account(r1, t.beneficiary)->Some_0;
    let advanced = spec_advance_ticket(b)->Ok_0;
    lemma_update_other(r1.accounts, t.beneficiary.0, advanced, y.0);
    assert(spec_settle_ticket(v, s).0 == spec_settle_records(w1, t, p)->Ok_0);
}

proof fn lemma_balance_within_sum(s: Seq<([u8; 32], AccountView)>, i: int, asset: AssetId)
    requires
        0 <= i < s.len(),
    ensures
        account_balance(s[i].1, asset) <= sum_balances(s, asset),
    decreases s.len(),
{
    lemma_checked_balances(s.drop_last(), asset);
    if i < s.len() - 1 {
        assert(s.drop_last()[i] == s[i]);
        lemma_balance_within_sum(s.drop_last(), i, asset);
    }
}

proof fn lemma_reserve_within_sum(s: Seq<([u8; 32], VaultState)>, i: int, asset: AssetId)
    requires
        0 <= i < s.len(),
    ensures
        vault_reserve(s[i].1, asset) <= sum_reserves(s, asset),
    decreases s.len(),
{
    lemma_checked_reserves(s.drop_last(), asset);
    if i < s.len() - 1 {
        assert(s.drop_last()[i] == s[i]);
        lemma_reserve_within_sum(s.drop_last(), i, asset);
    }
}

/// On a conserved ledger, an account's balance of an asset and a vault's
/// reserve of it together are at most the asset's supply.
proof fn lemma_holdings_within_supply(v: LedgerView, account: AccountId, vault_id: VaultId, asset: AssetId)
    requires
        conserved(v),
        get_account(v, account) is Some,
        get_vault(v, vault_id) is Some,
    ensures
        account_balance(get_account(v, account)->Some_0, asset) + vault_reserve(get_vault(v, vault_id)->Some_0, asset)
            <= supply(v, asset).0,
{
    lemma_lower_bound_le(v.accounts, account.0);
    lemma_lower_bound_le(v.vaults, vault_id.0);
    lemma_balance_within_sum(v.accounts, lower_bound(v.accounts, account.0) as int, asset);
    lemma_reserve_within_sum(v.vaults, lower_bound(v.vaults, vault_id.0) as int, asset);
    lemma_checked_balances(v.accounts, asset);
    lemma_checked_reserves(v.vaults, asset);
    assert(sum_balances(v.accounts, asset) + sum_reserves(v.vaults, asset) == supply(v, asset).0);
}

/// A sweep by a vault's controller of no more than the vault's surplus
/// succeeds on a ledger that keeps the invariant: the controller holds an
/// account, the credit cannot overflow, and the conservation check passes.
/// The vault's reserve falls by the amount and the controller's balance of
/// the vault's asset rises by it.
pub proof fn lemma_sweep_succeeds(v: LedgerView, controller: AccountId, vault_id: VaultId, amount: Amount)
    requires
        ledger_invariant(v),
        v.journal.len() < u64::MAX,
        get_vault(v, vault_id) is Some,
        get_vault(v, vault_id)->Some_0.config.controller == controller,
        spec_surplus(get_vault(v, vault_id)->Some_0) is Ok,
        amount.0 <= spec_surplus(get_vault(v, vault_id)->Some_0)->Ok_0.0,
    ensures
        spec_sweep_vault_surplus(v, controller, vault_id, amount).1 is Ok,
        get_vault(spec_sweep_vault_surplus(v, controller, vault_id, amount).0, vault_id) matches Some(after)
            && after.reserve_balance.0 + amount.0 == get_vault(v, vault_id)->Some_0.reserve_balance.0,
        get_account(spec_sweep_vault_surplus(v, controller, vault_id, amount).0, controller) matches Some(a)
            && get_account(v, controller) matches Some(before) && account_balance(
            a,
            get_vault(v, vault_id)->Some_0.config.asset,
        ) == account_balance(before, get_vault(v, vault_id)->Some_0.config.asset) + amount.0,
{
    let vault = get_vault(v, vault_id)->Some_0;
    let asset = vault.config.asset;
    lemma_get_vault_backed(v, vault_id);
    let swept = spec_sweep(vault, amount)->Ok_0;
    let v1 = with_vault(v, vault_id, swept);
    let a = get_account(v, controller)->Some_0;
    lemma_holdings_within_supply(v, controller, vault_id, asset);
    assert(get_account(v1, controller) == Some(a));
    lemma_get_account_wf(v1, controller);
    assert(spec_credit(a, asset, amount) is Ok);
    let v2 = spec_ledger_credit(v1, controller, asset, amount)->Ok_0;
    assert(ledger_wf(v1));
    lemma_ledger_credit(v1, controller, asset, amount, asset);
    assert forall|b: AssetId| #[trigger] imbalance(v2, b) == imbalance(v, b) by {
        lemma_with_vault_sum(v, vault_id, swept, b);
        lemma_ledger_credit(v1, controller, asset, amount, b);
    }
    lemma_update_vault_backed(v, vault_id, swept);
    lemma_append_keeps(v, v2);
    let tx = tx_id_of(
        "horizon-vault-surplus-sweep-tx-v1",
        <(u32, AccountId, VaultId, Amount, u64)>::json(
            (v.network_id, controller, vault_id, amount, v.journal.len() as u64),
        ),
    );
    let next = spec_append_journal(v2, tx, JournalOp::VaultSurplusSwept { vault_id, controller, amount });
    assert(keeps_invariant(v, next));
    lemma_conserved_passes_check(next, asset);
    lemma_insert_same(v.vaults, vault_id.0, swept);
    let a2 = spec_credit(a, asset, amount)->Ok_0;
    lemma_insert_same(v1.accounts, controller.0, a2);
    lemma_credit_balances(a, asset, amount, asset);
}

/// A public transaction of the ledger, with its arguments.
pub enum LedgerCall {
    ConfigureProtocol(ProtocolConfig),
    GrantOperatorRole(AccountId, OperatorRole),
    SetRiskLimits(RiskLimits),
    ConfigureFeeSchedule(FeeSchedule),
    RegisterAsset(AssetConfig),
    RegisterAccount(PublicIdentity),
    RegisterVault(VaultConfig),
    RegisterRoute(SettlementRoute),
    PublishIndex(IndexObservation),
    CreditGenesis(AccountId, AssetId, Amount),
    DepositVault(AccountId, VaultId, Amount),
    IssueNote(SignedIngressOrder),
    SettleTicket(SignedRedemptionTicket),
    SweepVaultSurplus(AccountId, VaultId, Amount),
}

/// The ledger after `call`, applied or refused, as the transaction's own
/// contract gives it.
pub open spec fn spec_apply(v: LedgerView, call: LedgerCall) -> LedgerView {
    match call {
        LedgerCall::ConfigureProtocol(config) => spec_configure_protocol(v, config).0,
        LedgerCall::GrantOperatorRole(account, role) => spec_grant_operator_role(v, account, role).0,
        LedgerCall::SetRiskLimits(limits) => LedgerView { risk: limits, ..v },
        LedgerCall::ConfigureFeeSchedule(schedule) => spec_configure_fee_schedule(v, schedule).0,
        LedgerCall::RegisterAsset(config) => spec_register_asset(v, config).0,
        LedgerCall::RegisterAccount(identity) => spec_register_account(v, identity).0,
        LedgerCall::RegisterVault(config) => spec_register_vault(v, config).0,
        LedgerCall::RegisterRoute(route) => spec_ledger_register_route(v, route).0,
        LedgerCall::PublishIndex(o) => spec_publish_index(v, o).0,
        LedgerCall::CreditGenesis(account, asset, amount) => spec_credit_genesis(v, account, asset, amount).0,
        LedgerCall::DepositVault(owner, vault_id, amount) => spec_deposit_vault(v, owner, vault_id, amount).0,
        LedgerCall::IssueNote(signed) => spec_issue_note(v, signed).0,
        LedgerCall::SettleTicket(signed) => spec_settle_ticket(v, signed).0,
        LedgerCall::SweepVaultSurplus(controller, vault_id, amount) => spec_sweep_vault_surplus(
            v,
            controller,
            vault_id,
            amount,
        ).0,
    }
}

/// The ledger after `calls`, in order, each applied or refused.
pub open spec fn spec_run(v: LedgerView, calls: Seq<LedgerCall>) -> LedgerView
    decreases calls.len(),
{
    if calls.len() == 0 {
        v
    } else {
        spec_apply(spec_run(v, calls.drop_last()), calls.last())
    }
}

/// Every transaction keeps the invariant.
proof fn lemma_apply_keeps(v: LedgerView, call: LedgerCall)
    requires
        ledger_wf(v),
    ensures
        keeps_invariant(v, spec_apply(v, call)),
{
    match call {
        LedgerCall::ConfigureProtocol(config) => lemma_configure_protocol(v, config),
        LedgerCall::GrantOperatorRole(account, role) => lemma_grant_operator_role(v, account, role),
        LedgerCall::SetRiskLimits(limits) => lemma_set_risk_limits(v, limits),
        LedgerCall::ConfigureFeeSchedule(schedule) => lemma_configure_fee_schedule(v, schedule),
        LedgerCall::RegisterAsset(config) => lemma_register_asset(v, config),
        LedgerCall::RegisterAccount(identity) => lemma_register_account(v, identity),
        LedgerCall::RegisterVault(config) => lemma_register_vault(v, config),
        LedgerCall::RegisterRoute(route) => lemma_register_route(v, route),
        LedgerCall::PublishIndex(o) => lemma_publish_index(v, o),
        LedgerCall::CreditGenesis(account, asset, amount) => lemma_credit_genesis(v, account, asset, amount),
        LedgerCall::DepositVault(owner, vault_id, amount) => lemma_deposit_vault(v, owner, vault_id, amount),
        LedgerCall::IssueNote(signed) => lemma_issue_note(v, signed),
        LedgerCall::SettleTicket(signed) => lemma_settle_ticket(v, signed),
        LedgerCall::SweepVaultSurplus(controller, vault_id, amount) => lemma_sweep_vault_surplus(
            v,
            controller,
            vault_id,
            amount,
        ),
    }
}

/// Any sequence of calls keeps what each call keeps.
pub proof fn lemma_run_keeps(v: LedgerView, calls: Seq<LedgerCall>)
    requires
        ledger_wf(v),
    ensures
        ledger_wf(spec_run(v, calls)),
        conserved(v) ==> conserved(spec_run(v, calls)),
        vaults_backed(v) ==> vaults_backed(spec_run(v, calls)),
        spec_run(v, calls).journal.len() <= v.journal.len() + calls.len(),
        journal_sequential(v) && v.journal.len() + calls.len() <= u64::MAX ==> journal_sequential(
            spec_run(v, calls),
        ),
        notes_kept(v, spec_run(v, calls)),
    decreases calls.len(),
{
    if calls.len() > 0 {
        let before = spec_run(v, calls.drop_last());
        lemma_run_keeps(v, calls.drop_last());
        lemma_apply_keeps(before, calls.last());
        let after = spec_run(v, calls);
        assert forall|k: [u8; 32]| #[trigger] map_get(v.notes, k) is Some implies map_get(after.notes, k)
            == map_get(v.notes, k) by {
            assert(map_get(before.notes, k) == map_get(v.notes, k));
        }
    }
}

/// A ledger reached from a new one by any sequence of public calls, applied
/// or refused, keeps the invariant: value is conserved per asset, so the
/// conservation check passes for every asset; the journal is numbered in
/// order; and every vault's controller and index authority hold accounts.
pub proof fn lemma_calls_keep_invariant(network_id: u32, calls: Seq<LedgerCall>)
    requires
        calls.len() < u64::MAX,
    ensures
        ledger_invariant(spec_run(empty_ledger(network_id), calls)),
        forall|asset: AssetId| #[trigger] spec_verify_conservation(spec_run(empty_ledger(network_id), calls), asset) is Ok,
{
    lemma_new_ledger(network_id);
    lemma_run_keeps(empty_ledger(network_id), calls);
    assert forall|asset: AssetId| #[trigger] spec_verify_conservation(spec_run(empty_ledger(network_id), calls), asset) is Ok by {
        lemma_conserved_passes_check(spec_run(empty_ledger(network_id), calls), asset);
    }
}

/// Ledgers reached from new ledgers of one network by the same calls are the
/// same ledger, so their state digests agree.
pub proof fn lemma_same_calls_same_digest(network_id: u32, calls: Seq<LedgerCall>, others: Seq<LedgerCall>)
    requires
        calls == others,
    ensures
        spec_run(empty_ledger(network_id), calls) == spec_run(empty_ledger(network_id), others),
        state_digest_bytes(spec_run(empty_ledger(network_id), calls)) == state_digest_bytes(
            spec_run(empty_ledger(network_id), others),
        ),
{
}

/// An issued note stays readable, unchanged, whatever calls follow: it is the
/// note that the order issues at the source vault's share index of the time.
pub proof fn lemma_issued_note_stays(v: LedgerView, s: SignedIngressOrder, calls: Seq<LedgerCall>)
    requires
        ledger_wf(v),
        spec_issue_note(v, s).1 is Ok,
    ensures
        get_note(spec_run(spec_issue_note(v, s).0, calls), NoteId(order_note_id_bytes(s.order))) == Some(
            spec_note(s.order, get_vault(v, s.order.source_vault)->Some_0.share_index)->Ok_0,
        ),
{
    let (note, tx) = spec_issue_checks(v, s)->Ok_0;
    lemma_issue_checks_vault(v, s);
    let w = spec_issue_effects(v, s.order, note, tx)->Ok_0;
    assert(spec_issue_note(v, s).0 == w);
    lemma_issue_effects_note(v, s.order, note, tx);
    lemma_issue_note(v, s);
    lemma_run_keeps(w, calls);
    assert(map_get(w.notes, note.note_id.0) is Some);
}

/// Issuing records the note under its identifier.
proof fn lemma_issue_effects_note(v: LedgerView, order: IngressOrder, note: DeliveryNote, tx: TxId)
    requires
        spec_issue_effects(v, order, note, tx) is Ok,
    ensures
        map_get(spec_issue_effects(v, order, note, tx)->Ok_0.notes, note.note_id.0) == Some(note),
{
    let v1 = spec_ledger_debit(v, order.issuer, order.asset, order.amount)->Ok_0;
    let vault = get_vault(v1, order.source_vault)->Some_0;
    let deposited = spec_deposit(vault, order.amount)->Ok_0;
    let v2 = with_vault(v1, order.source_vault, spec_lock_notional(deposited, order.amount).0);
    let issuer = get_account(v2, order.issuer)->Some_0;
    let advanced = spec_advance_ingress(issuer)->Ok_0;
    let v3 = with_account(v2, order.issuer, advanced);
    lemma_insert_same(v3.notes, note.note_id.0, note);
}

/// Whether `call`, made on `v`, is an issuance that succeeds and records the
/// note identified by `k`.
pub open spec fn issues_note(v: LedgerView, call: LedgerCall, k: [u8; 32]) -> bool {
    &&& call matches LedgerCall::IssueNote(signed)
    &&& spec_issue_note(v, signed).1 is Ok
    &&& k == order_note_id_bytes(signed.order)
}

proof fn lemma_configure_protocol_notes(v: LedgerView, config: ProtocolConfig)
    ensures
        spec_configure_protocol(v, config).0.notes == v.notes,
{
}

proof fn lemma_grant_operator_role_notes(v: LedgerView, account: AccountId, role: OperatorRole)
    ensures
        spec_grant_operator_role(v, account, role).0.notes == v.notes,
{
}

proof fn lemma_configure_fee_schedule_notes(v: LedgerView, schedule: FeeSchedule)
    ensures
        spec_configure_fee_schedule(v, schedule).0.notes == v.notes,
{
}

proof fn lemma_register_asset_notes(v: LedgerView, config: AssetConfig)
    ensures
        spec_register_asset(v, config).0.notes == v.notes,
{
}

proof fn lemma_register_account_notes(v: LedgerView, identity: PublicIdentity)
    ensures
        spec_register_account(v, identity).0.notes == v.notes,
{
}

proof fn lemma_register_vault_notes(v: LedgerView, config: VaultConfig)
    ensures
        spec_register_vault(v, config).0.notes == v.notes,
{
}

proof fn lemma_register_route_notes(v: LedgerView, route: SettlementRoute)
    ensures
        spec_ledger_register_route(v, route).0.notes == v.notes,
{
}

proof fn lemma_publish_index_notes(v: LedgerView, o: IndexObservation)
    ensures
        spec_publish_index(v, o).0.notes == v.notes,
{
}

proof fn lemma_credit_genesis_notes(v: LedgerView, account: AccountId, asset: AssetId, amount: Amount)
    ensures
        spec_credit_genesis(v, account, asset, amount).0.notes == v.notes,
{
}

proof fn lemma_deposit_vault_notes(v: LedgerView, owner: AccountId, vault_id: VaultId, amount: Amount)
    ensures
        spec_deposit_vault(v, owner, vault_id, amount).0.notes == v.notes,
{
}

proof fn lemma_sweep_vault_surplus_notes(v: LedgerView, controller: AccountId, vault_id: VaultId, amount: Amount)
    ensures
        spec_sweep_vault_surplus(v, controller, vault_id, amount).0.notes == v.notes,
{
}

proof fn lemma_settle_ticket_notes(v: LedgerView, s: SignedRedemptionTicket)
    ensures
        spec_settle_ticket(v, s).0.notes == v.notes,
{
    if let Ok(p) = spec_settle_plan(v, s) {
        if let Ok(v1) = spec_settle_transfers(v, s.ticket, p) {
            lemma_settle_transfers_notes(v, s.ticket, p);
            lemma_settle_records_notes(v1, s.ticket, p);
        }
    }
}

proof fn lemma_settle_transfers_notes(v: LedgerView, t: RedemptionTicket, p: SettlementPlan)
    ensures
        spec_settle_transfers(v, t, p) matches Ok(w) ==> w.notes == v.notes,
{
}

proof fn lemma_settle_records_notes(v: LedgerView, t: RedemptionTicket, p: SettlementPlan)
    ensures
        spec_settle_records(v, t, p) matches Ok(w) ==> w.notes == v.notes,
{
}

/// A call that is not an issuance leaves the notes as they were.
proof fn lemma_other_call_notes(v: LedgerView, call: LedgerCall)
    requires
        !(call is IssueNote),
    ensures
        spec_apply(v, call).notes == v.notes,
{
    match call {
        LedgerCall::ConfigureProtocol(config) => lemma_configure_protocol_notes(v, config),
        LedgerCall::GrantOperatorRole(account, role) => lemma_grant_operator_role_notes(v, account, role),
        LedgerCall::SetRiskLimits(_) => {},
        LedgerCall::ConfigureFeeSchedule(schedule) => lemma_configure_fee_schedule_notes(v, schedule),
        LedgerCall::RegisterAsset(config) => lemma_register_asset_notes(v, config),
        LedgerCall::RegisterAccount(identity) => lemma_register_account_notes(v, identity),
        LedgerCall::RegisterVault(config) => lemma_register_vault_notes(v, config),
        LedgerCall::RegisterRoute(route) => lemma_register_route_notes(v, route),
        LedgerCall::PublishIndex(o) => lemma_publish_index_notes(v, o),
        LedgerCall::CreditGenesis(account, asset, amount) => lemma_credit_genesis_notes(v, account, asset, amount),
        LedgerCall::DepositVault(owner, vault_id, amount) => lemma_deposit_vault_notes(v, owner, vault_id, amount),
        LedgerCall::IssueNote(_) => {},
        LedgerCall::SettleTicket(signed) => lemma_settle_ticket_notes(v, signed),
        LedgerCall::SweepVaultSurplus(controller, vault_id, amount) => lemma_sweep_vault_surplus_notes(
            v,
            controller,
            vault_id,
            amount,
        ),
    }
}

/// A successful issuance adds exactly the note of its order.
proof fn lemma_issue_notes(v: LedgerView, signed: SignedIngressOrder, k: [u8; 32])
    requires
        ledger_wf(v),
        map_contains(spec_issue_note(v, signed).0.notes, k),
    ensures
        map_contains(v.notes, k) || (spec_issue_note(v, signed).1 is Ok && k == order_note_id_bytes(signed.order)),
{
    if spec_issue_note(v, signed).1 is Ok {
        let (note, tx) = spec_issue_checks(v, signed)->Ok_0;
        let order = signed.order;
        let v1 = spec_ledger_debit(v, order.issuer, order.asset, order.amount)->Ok_0;
        let vault = get_vault(v1, order.source_vault)->Some_0;
        let deposited = spec_deposit(vault, order.amount)->Ok_0;
        let v2 = with_vault(v1, order.source_vault, spec_lock_notional(deposited, order.amount).0);
        let issuer = get_account(v2, order.issuer)->Some_0;
        let advanced = spec_advance_ingress(issuer)->Ok_0;
        let v3 = with_account(v2, order.issuer, advanced);
        assert(spec_issue_note(v, signed).0 == spec_issue_effects(v, order, note, tx)->Ok_0);
        assert(v3.notes == v.notes);
        lemma_insert(v.notes, note.note_id.0, note);
        assert(note.note_id.0 == order_note_id_bytes(order));
    }
}

/// A call adds no note but the one that a successful issuance records.
proof fn lemma_apply_notes(v: LedgerView, call: LedgerCall, k: [u8; 32])
    requires
        ledger_wf(v),
        map_contains(spec_apply(v, call).notes, k),
    ensures
        map_contains(v.notes, k) || issues_note(v, call, k),
{
    if let LedgerCall::IssueNote(signed) = call {
        lemma_issue_notes(v, signed, k);
    } else {
        lemma_other_call_notes(v, call);
    }
}

/// Notes come only from issuance: every note that a ledger holds after a
/// sequence of calls was held before it or was recorded by one of the calls,
/// a successful `issue_note` of the order whose note carries that
/// identifier, made on the ledger as the earlier calls left it.
pub proof fn lemma_notes_come_from_issues(v: LedgerView, calls: Seq<LedgerCall>, k: [u8; 32])
    requires
        ledger_wf(v),
        map_contains(spec_run(v, calls).notes, k),
    ensures
        map_contains(v.notes, k) || exists|i: int|
            0 <= i < calls.len() && issues_note(spec_run(v, calls.take(i)), #[trigger] calls[i], k),
    decreases calls.len(),
{
    if calls.len() > 0 {
        let prefix = calls.drop_last();
        let before = spec_run(v, prefix);
        lemma_run_keeps(v, prefix);
        lemma_apply_notes(before, calls.last(), k);
        let n = calls.len() - 1;
        assert(calls.take(n) =~= prefix);
        if map_contains(before.notes, k) {
            lemma_notes_come_from_issues(v, prefix, k);
            if !map_contains(v.notes, k) {
                let i = choose|i: int| 0 <= i < prefix.len() && issues_note(spec_run(v, prefix.take(i)), #[trigger] prefix[i], k);
                assert(prefix.take(i) =~= calls.take(i));
                assert(prefix[i] == calls[i]);
            }
        } else {
            assert(issues_note(spec_run(v, calls.take(n)), calls[n], k));
        }
    }
}

/// A ledger reached from a new one by any sequence of calls holds only notes
/// that a successful `issue_note` among those calls recorded; every other
/// identifier reads as absent, which `note` answers with `NoteNotFound`.
pub proof fn lemma_notes_from_new(network_id: u32, calls: Seq<LedgerCall>, k: [u8; 32])
    ensures
        map_contains(spec_run(empty_ledger(network_id), calls).notes, k) ==> exists|i: int|
            0 <= i < calls.len() && issues_note(spec_run(empty_ledger(network_id), calls.take(i)), #[trigger] calls[i], k),
{
    lemma_new_ledger(network_id);
    if map_contains(spec_run(empty_ledger(network_id), calls).notes, k) {
        lemma_notes_come_from_issues(empty_ledger(network_id), calls, k);
    }
}

/// The refusal that settlement gives a ticket whose settlement epoch is
/// behind the ledger's current epoch.
pub open spec fn stale_refusal() -> ErrorView {
    ErrorView::Policy("stale redemption ticket"@)
}

/// The refusal that settlement gives a ticket whose settlement epoch is
/// before the note's maturity.
pub open spec fn immature_refusal() -> ErrorView {
    ErrorView::Policy("note is not mature"@)
}

proof fn lemma_settlement_messages_differ()
    ensures
        stale_refusal() != ErrorView::Policy("protocol is paused"@),
        stale_refusal() != ErrorView::Policy("operator role is not assigned"@),
        stale_refusal() != ErrorView::Policy("network mismatch"@),
        stale_refusal() != ErrorView::Policy("note digest mismatch"@),
        stale_refusal() != ErrorView::Policy("note is not mature"@),
        stale_refusal() != ErrorView::Policy("payout vault asset mismatch"@),
        stale_refusal() != ErrorView::Policy("settlement route not available"@),
        stale_refusal() != ErrorView::Policy("ticket amount exceeds risk limit"@),
        stale_refusal() != ErrorView::Policy("relayer fee exceeds risk limit"@),
        stale_refusal() != ErrorView::Policy("post settlement reserve is below limit"@),
        stale_refusal() != ErrorView::Policy("vault reserve floor reached"@),
        immature_refusal() != ErrorView::Policy("protocol is paused"@),
        immature_refusal() != ErrorView::Policy("operator role is not assigned"@),
        immature_refusal() != ErrorView::Policy("network mismatch"@),
        immature_refusal() != ErrorView::Policy("note digest mismatch"@),
        immature_refusal() != ErrorView::Policy("payout vault asset mismatch"@),
        immature_refusal() != ErrorView::Policy("settlement route not available"@),
        immature_refusal() != ErrorView::Policy("ticket amount exceeds risk limit"@),
        immature_refusal() != ErrorView::Policy("relayer fee exceeds risk limit"@),
        immature_refusal() != ErrorView::Policy("post settlement reserve is below limit"@),
        immature_refusal() != ErrorView::Policy("vault reserve floor reached"@),
{
    reveal_strlit("stale redemption ticket");
    reveal_strlit("protocol is paused");
    reveal_strlit("operator role is not assigned");
    reveal_strlit("network mismatch");
    reveal_strlit("note digest mismatch");
    reveal_strlit("note is not mature");
    reveal_strlit("payout vault asset mismatch");
    reveal_strlit("settlement route not available");
    reveal_strlit("ticket amount exceeds risk limit");
    reveal_strlit("relayer fee exceeds risk limit");
    reveal_strlit("post settlement reserve is below limit");
    reveal_strlit("vault reserve floor reached");
    assert("stale redemption ticket"@.len() != "protocol is paused"@.len());
    assert("stale redemption ticket"@ != "protocol is paused"@);
    assert("stale redemption ticket"@.len() != "operator role is not assigned"@.len());
    assert("stale redemption ticket"@ != "operator role is not assigned"@);
    assert("stale redemption ticket"@.len() != "network mismatch"@.len());
    assert("stale redemption ticket"@ != "network mismatch"@);
    assert("stale redemption ticket"@.len() != "note digest mismatch"@.len());
    assert("stale redemption ticket"@ != "note digest mismatch"@);
    assert("stale redemption ticket"@.len() != "note is not mature"@.len());
    assert("stale redemption ticket"@ != "note is not mature"@);
    assert("stale redemption ticket"@.len() != "payout vault asset mismatch"@.len());
    assert("stale redemption ticket"@ != "payout vault asset mismatch"@);
    assert("stale redemption ticket"@.len() != "settlement route not available"@.len());
    assert("stale redemption ticket"@ != "settlement route not available"@);
    assert("stale redemption ticket"@.len() != "ticket amount exceeds risk limit"@.len());
    assert("stale redemption ticket"@ != "ticket amount exceeds risk limit"@);
    assert("stale redemption ticket"@.len() != "relayer fee exceeds risk limit"@.len());
    assert("stale redemption ticket"@ != "relayer fee exceeds risk limit"@);
    assert("stale redemption ticket"@.len() != "post settlement reserve is below limit"@.len());
    assert("stale redemption ticket"@ != "post settlement reserve is below limit"@);
    assert("stale redemption ticket"@.len() != "vault reserve floor reached"@.len());
    assert("stale redemption ticket"@ != "vault reserve floor reached"@);
    assert("note is not mature"@[0] != "protocol is paused"@[0]);
    assert("note is not mature"@ != "protocol is paused"@);
    assert("note is not mature"@.len() != "operator role is not assigned"@.len());
    assert("note is not mature"@ != "operator role is not assigned"@);
    assert("note is not mature"@.len() != "network mismatch"@.len());
    assert("note is not mature"@ != "network mismatch"@);
    assert("note is not mature"@.len() != "note digest mismatch"@.len());
    assert("note is not mature"@ != "note digest mismatch"@);
    assert("note is not mature"@.len() != "payout vault asset mismatch"@.len());
    assert("note is not mature"@ != "payout vault asset mismatch"@);
    assert("note is not mature"@.len() != "settlement route not available"@.len());
    assert("note is not mature"@ != "settlement route not available"@);
    assert("note is not mature"@.len() != "ticket amount exceeds risk limit"@.len());
    assert("note is not mature"@ != "ticket amount exceeds risk limit"@);
    assert("note is not mature"@.len() != "relayer fee exceeds risk limit"@.len());
    assert("note is not mature"@ != "relayer fee exceeds risk limit"@);
    assert("note is not mature"@.len() != "post settlement reserve is below limit"@.len());
    assert("note is not mature"@ != "post settlement reserve is below limit"@);
    assert("note is not mature"@.len() != "vault reserve floor reached"@.len());
    assert("note is not mature"@ != "vault reserve floor reached"@);
}

/// The checks of a ticket refuse it as stale only when its settlement epoch
/// is behind the current epoch, and as immature only when it is before the
/// note's maturity.
proof fn lemma_settle_checks_epochs(v: LedgerView, s: SignedRedemptionTicket)
    ensures
        spec_settle_checks(v, s) == Err::<(DeliveryNote, NoteRecord, VaultState), ErrorView>(stale_refusal())
            ==> s.ticket.settlement_epoch < v.risk.current_epoch,
        spec_settle_checks(v, s) == Err::<(DeliveryNote, NoteRecord, VaultState), ErrorView>(immature_refusal())
            ==> (get_note(v, s.ticket.note_id) matches Some(note) && s.ticket.settlement_epoch < note.maturity_epoch),
{
    lemma_settlement_messages_differ();
}

proof fn lemma_resolve_not_epoch(
    routes: Seq<([u8; 32], SettlementRoute)>,
    source_vault: VaultId,
    payout_vault: VaultId,
    asset: AssetId,
    amount: Amount,
    relayer_fee: Amount,
)
    ensures
        spec_resolve_route(routes, source_vault, payout_vault, asset, amount, relayer_fee) != Err::<
            SettlementRoute,
            ErrorView,
        >(stale_refusal()),
        spec_resolve_route(routes, source_vault, payout_vault, asset, amount, relayer_fee) != Err::<
            SettlementRoute,
            ErrorView,
        >(immature_refusal()),
    decreases routes.len(),
{
    lemma_settlement_messages_differ();
    if routes.len() > 0 {
        lemma_resolve_not_epoch(routes.drop_first(), source_vault, payout_vault, asset, amount, relayer_fee);
    }
}

/// Pricing a ticket that passed its checks refuses it for no epoch.
proof fn lemma_settle_plan_epochs(v: LedgerView, s: SignedRedemptionTicket)
    ensures
        spec_settle_plan(v, s) == Err::<SettlementPlan, ErrorView>(stale_refusal()) ==> spec_settle_checks(v, s)
            == Err::<(DeliveryNote, NoteRecord, VaultState), ErrorView>(stale_refusal()),
        spec_settle_plan(v, s) == Err::<SettlementPlan, ErrorView>(immature_refusal()) ==> spec_settle_checks(v, s)
            == Err::<(DeliveryNote, NoteRecord, VaultState), ErrorView>(immature_refusal()),
{
    lemma_settlement_messages_differ();
    if let Ok((note, record, payout)) = spec_settle_checks(v, s) {
        lemma_resolve_not_epoch(
            v.routes,
            record.source_vault,
            s.ticket.payout_vault,
            note.asset,
            note.amount,
            s.ticket.relayer_fee,
        );
    }
}

/// Moving value and recording a settlement refuse it for no epoch.
proof fn lemma_settle_steps_epochs(v: LedgerView, t: RedemptionTicket, p: SettlementPlan)
    ensures
        spec_settle_transfers(v, t, p) != Err::<LedgerView, ErrorView>(stale_refusal()),
        spec_settle_transfers(v, t, p) != Err::<LedgerView, ErrorView>(immature_refusal()),
        spec_settle_records(v, t, p) != Err::<LedgerView, ErrorView>(stale_refusal()),
        spec_settle_records(v, t, p) != Err::<LedgerView, ErrorView>(immature_refusal()),
{
    lemma_settlement_messages_differ();
}

/// Settlement refuses a ticket as stale only when the ticket's settlement
/// epoch is behind the ledger's current epoch, and as immature only when it
/// is before the maturity of the note it redeems: a ticket at or after both
/// is refused for neither.
pub proof fn lemma_settle_epoch_refusals(v: LedgerView, s: SignedRedemptionTicket)
    ensures
        spec_settle_ticket(v, s).1 == Err::<TxId, ErrorView>(stale_refusal()) ==> s.ticket.settlement_epoch
            < v.risk.current_epoch,
        spec_settle_ticket(v, s).1 == Err::<TxId, ErrorView>(immature_refusal()) ==> (get_note(
            v,
            s.ticket.note_id,
        ) matches Some(note) && s.ticket.settlement_epoch < note.maturity_epoch),
{
    lemma_settlement_messages_differ();
    lemma_settle_checks_epochs(v, s);
    lemma_settle_plan_epochs(v, s);
    if let Ok(p) = spec_settle_plan(v, s) {
        lemma_settle_steps_epochs(v, s.ticket, p);
        if let Ok(v1) = spec_settle_transfers(v, s.ticket, p) {
            lemma_settle_steps_epochs(v1, s.ticket, p);
        }
    }
}

} // verus!
