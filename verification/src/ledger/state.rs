//! The ledger state and its transactions.
//!
//! Every transaction that moves value runs on a copy of the ledger and only
//! replaces the ledger once the copy has passed the per-asset conservation
//! check, so a refused transaction leaves the ledger as it was.
use vstd::prelude::*;
use vstd::seq_lib::lemma_concat_associative;
use vstd::string::StringSliceAdditionalSpecFns;

use crate::amount::{spec_add, spec_amount_from_units, spec_sub, Amount};
use crate::asset::AssetConfig;
use crate::bytemap::{map_contains, map_get, map_insert, ByteMap, Duplicate};
use crate::codec::{json_key_set, json_map, lit, write_json_key_set, write_lit, Canonical};
use crate::crypto::{identity_consistent, PublicIdentity};
use crate::error::{ErrorView, HorizonError, HorizonResult, result_view};
use crate::fees::{amount_of, spec_add_to, spec_fee, FeeLedger, FeeLedgerView, FeeSchedule};
use crate::ids::{payload_digest, AccountId, AssetId, Digest, NoteId, TxId, VaultId};
use crate::ledger::account::{
    balance, fresh_account, spec_advance_ingress, spec_advance_ticket, spec_credit, spec_debit,
    AccountState, AccountView,
};
use crate::ledger::journal::{duplicate_journal, JournalEntry, JournalOp};
use crate::ledger::laws::ledger_invariant;
use crate::notes::{note_digest_bytes, spec_note, spec_verify_ingress, DeliveryNote, IngressOrder, SignedIngressOrder};
use crate::operators::{
    spec_ensure_not_paused, spec_grant_role, spec_require_role, OperatorRegistry,
    OperatorRegistryView, OperatorRole, ProtocolConfig,
};
use crate::oracle::{IndexObservation, OracleBook};
use crate::risk::{RiskEngine, RiskLimits, RiskSnapshot, spec_evaluate_ticket};
use crate::routes::{spec_register_route, spec_resolve_route, RouteBook, SettlementRoute};
use crate::tickets::{spec_verify_ticket, RedemptionTicket, SignedRedemptionTicket};
use crate::vault::{fresh_vault, spec_lock_notional, spec_release_notional, NoteRecord, VaultConfig, VaultState};

verus! {

pub struct HorizonLedger {
    network_id: u32,
    assets: ByteMap<AssetConfig>,
    accounts: ByteMap<AccountState>,
    total_supply: ByteMap<Amount>,
    vaults: ByteMap<VaultState>,
    notes: ByteMap<DeliveryNote>,
    note_records: ByteMap<NoteRecord>,
    processed_tickets: ByteMap<()>,
    seen_transactions: ByteMap<()>,
    operators: OperatorRegistry,
    oracle_book: OracleBook,
    route_book: RouteBook,
    fee_ledger: FeeLedger,
    risk_engine: RiskEngine,
    journal: Vec<JournalEntry>,
}

/// What the ledger holds. Each table lists its entries in key order.
pub struct LedgerView {
    pub network_id: u32,
    pub assets: Seq<([u8; 32], AssetConfig)>,
    pub accounts: Seq<([u8; 32], AccountView)>,
    pub total_supply: Seq<([u8; 32], Amount)>,
    pub vaults: Seq<([u8; 32], VaultState)>,
    pub notes: Seq<([u8; 32], DeliveryNote)>,
    pub note_records: Seq<([u8; 32], NoteRecord)>,
    pub processed_tickets: Seq<([u8; 32], ())>,
    pub seen_transactions: Seq<([u8; 32], ())>,
    pub operators: OperatorRegistryView,
    pub oracle: Seq<([u8; 32], IndexObservation)>,
    pub routes: Seq<([u8; 32], SettlementRoute)>,
    pub fees: FeeLedgerView,
    pub risk: RiskLimits,
    pub journal: Seq<JournalEntry>,
}

impl View for HorizonLedger {
    type V = LedgerView;

    closed spec fn view(&self) -> LedgerView {
        LedgerView {
            network_id: self.network_id,
            assets: self.assets@,
            accounts: self.accounts@,
            total_supply: self.total_supply@,
            vaults: self.vaults@,
            notes: self.notes@,
            note_records: self.note_records@,
            processed_tickets: self.processed_tickets@,
            seen_transactions: self.seen_transactions@,
            operators: self.operators@,
            oracle: self.oracle_book@,
            routes: self.route_book@,
            fees: self.fee_ledger@,
            risk: self.risk_engine@,
            journal: self.journal@,
        }
    }
}

/// A ledger with nothing in it.
pub open spec fn empty_ledger(network_id: u32) -> LedgerView {
    LedgerView {
        network_id,
        assets: Seq::empty(),
        accounts: Seq::empty(),
        total_supply: Seq::empty(),
        vaults: Seq::empty(),
        notes: Seq::empty(),
        note_records: Seq::empty(),
        processed_tickets: Seq::empty(),
        seen_transactions: Seq::empty(),
        operators: OperatorRegistryView { roles: Seq::empty(), config: None, paused: false },
        oracle: Seq::empty(),
        routes: Seq::empty(),
        fees: FeeLedgerView { schedule: None, accrued: Seq::empty(), reserve_buffer: Seq::empty() },
        risk: RiskLimits {
            current_epoch: 0,
            max_ticket_amount: Amount(0),
            max_fee_bps: crate::amount::Bps(0),
            min_post_settlement_reserve: Amount(0),
        },
        journal: Seq::empty(),
    }
}

/// The canonical bytes of every table of the ledger, in declaration order:
/// the encoding of the ledger up to its journal.
#[verifier::opaque]
pub open spec fn ledger_tables_json(v: LedgerView) -> Seq<u8> {
    lit("{\"network_id\":")
        + u32::json(v.network_id)
        + lit(",\"assets\":")
        + json_map::<AssetConfig>(v.assets)
        + lit(",\"accounts\":")
        + json_map::<AccountState>(v.accounts)
        + lit(",\"total_supply\":")
        + json_map::<Amount>(v.total_supply)
        + lit(",\"vaults\":")
        + json_map::<VaultState>(v.vaults)
        + lit(",\"notes\":")
        + json_map::<DeliveryNote>(v.notes)
        + lit(",\"note_records\":")
        + json_map::<NoteRecord>(v.note_records)
        + lit(",\"processed_tickets\":")
        + json_key_set(v.processed_tickets)
        + lit(",\"seen_transactions\":")
        + json_key_set(v.seen_transactions)
        + lit(",\"operators\":")
        + OperatorRegistry::json(v.operators)
        + lit(",\"oracle_book\":")
        + OracleBook::json(v.oracle)
        + lit(",\"route_book\":")
        + RouteBook::json(v.routes)
        + lit(",\"fee_ledger\":")
        + FeeLedger::json(v.fees)
        + lit(",\"risk_engine\":")
        + RiskEngine::json(v.risk)
}

/// The canonical bytes of the ledger state that its digest is taken over:
/// every table, and the length of the journal in place of the journal.
#[verifier::opaque]
pub open spec fn ledger_json(v: LedgerView) -> Seq<u8> {
    ledger_tables_json(v) + lit(",\"journal_len\":") + usize::json(v.journal.len() as usize) + lit("}")
}

/// The journal's entries, separated by commas.
pub open spec fn json_entry_list(s: Seq<JournalEntry>) -> Seq<u8>
    decreases s.len(),
{
    if s.len() == 0 {
        Seq::empty()
    } else if s.len() == 1 {
        JournalEntry::json(s[0])
    } else {
        json_entry_list(s.drop_last()) + lit(",") + JournalEntry::json(s.last())
    }
}

/// The digest of a ledger state.
pub open spec fn state_digest_bytes(v: LedgerView) -> [u8; 32] {
    payload_digest("horizon-ledger-state-v1".spec_bytes(), ledger_json(v))
}

/// The ledger after appending an entry for `tx_id` and `op`: the next
/// sequence number and the digest of the state before the entry.
pub open spec fn spec_append_journal(v: LedgerView, tx_id: TxId, op: JournalOp) -> LedgerView {
    LedgerView {
        journal: v.journal.push(
            JournalEntry {
                sequence: v.journal.len() as u64,
                tx_id,
                op,
                state_digest: Digest(state_digest_bytes(v)),
            },
        ),
        ..v
    }
}

/// The identifier of a ledger transaction: the digest, under `domain`, of
/// canonical bytes that end with the journal length.
pub open spec fn tx_id_of(domain: &str, payload: Seq<u8>) -> TxId {
    TxId(payload_digest(domain.spec_bytes(), payload))
}

pub open spec fn get_account(v: LedgerView, id: AccountId) -> Option<AccountView> {
    map_get(v.accounts, id.0)
}

pub open spec fn get_asset(v: LedgerView, id: AssetId) -> Option<AssetConfig> {
    map_get(v.assets, id.0)
}

pub open spec fn get_vault(v: LedgerView, id: VaultId) -> Option<VaultState> {
    map_get(v.vaults, id.0)
}

pub open spec fn get_note(v: LedgerView, id: NoteId) -> Option<DeliveryNote> {
    map_get(v.notes, id.0)
}

/// The total supply of `asset`, zero where none was ever credited.
pub open spec fn supply(v: LedgerView, asset: AssetId) -> Amount {
    amount_of(v.total_supply, asset.0)
}

pub open spec fn with_account(v: LedgerView, id: AccountId, a: AccountView) -> LedgerView {
    LedgerView { accounts: map_insert(v.accounts, id.0, a), ..v }
}

pub open spec fn with_vault(v: LedgerView, id: VaultId, s: VaultState) -> LedgerView {
    LedgerView { vaults: map_insert(v.vaults, id.0, s), ..v }
}

/// Crediting an account of the ledger.
pub open spec fn spec_ledger_credit(v: LedgerView, account: AccountId, asset: AssetId, amount: Amount) -> Result<
    LedgerView,
    ErrorView,
> {
    match get_account(v, account) {
        None => Err(ErrorView::AccountNotFound(account)),
        Some(a) => match spec_credit(a, asset, amount) {
            Err(e) => Err(e),
            Ok(a2) => Ok(with_account(v, account, a2)),
        },
    }
}

/// Debiting an account of the ledger.
pub open spec fn spec_ledger_debit(v: LedgerView, account: AccountId, asset: AssetId, amount: Amount) -> Result<
    LedgerView,
    ErrorView,
> {
    match get_account(v, account) {
        None => Err(ErrorView::AccountNotFound(account)),
        Some(a) => match spec_debit(a, account, asset, amount) {
            Err(e) => Err(e),
            Ok(a2) => Ok(with_account(v, account, a2)),
        },
    }
}

/// The balance of `asset` held by an account.
pub open spec fn account_balance(a: AccountView, asset: AssetId) -> int {
    balance(a, asset).0 as int
}

/// The reserve of a vault counted for `asset`: its reserve if it holds that asset.
pub open spec fn vault_reserve(s: VaultState, asset: AssetId) -> int {
    if s.config.asset == asset {
        s.reserve_balance.0 as int
    } else {
        0
    }
}

/// The sum of the balances of `asset` over accounts.
pub open spec fn sum_balances(s: Seq<([u8; 32], AccountView)>, asset: AssetId) -> int
    decreases s.len(),
{
    if s.len() == 0 {
        0
    } else {
        sum_balances(s.drop_last(), asset) + account_balance(s.last().1, asset)
    }
}

/// The sum of the reserves of the vaults that hold `asset`.
pub open spec fn sum_reserves(s: Seq<([u8; 32], VaultState)>, asset: AssetId) -> int
    decreases s.len(),
{
    if s.len() == 0 {
        0
    } else {
        sum_reserves(s.drop_last(), asset) + vault_reserve(s.last().1, asset)
    }
}

/// The running total of balances of `asset`, accumulated in account order;
/// `None` once a partial sum passes the largest amount.
pub open spec fn checked_balances(s: Seq<([u8; 32], AccountView)>, asset: AssetId) -> Option<u128>
    decreases s.len(),
{
    if s.len() == 0 {
        Some(0)
    } else {
        match checked_balances(s.drop_last(), asset) {
            None => None,
            Some(t) => if t + account_balance(s.last().1, asset) <= u128::MAX {
                Some((t + account_balance(s.last().1, asset)) as u128)
            } else {
                None
            },
        }
    }
}

/// The running total of the reserves of vaults holding `asset`, in vault order.
pub open spec fn checked_reserves(s: Seq<([u8; 32], VaultState)>, asset: AssetId) -> Option<u128>
    decreases s.len(),
{
    if s.len() == 0 {
        Some(0)
    } else {
        match checked_reserves(s.drop_last(), asset) {
            None => None,
            Some(t) => if t + vault_reserve(s.last().1, asset) <= u128::MAX {
                Some((t + vault_reserve(s.last().1, asset)) as u128)
            } else {
                None
            },
        }
    }
}

/// The conservation check for `asset`: balances and vault reserves of the
/// asset, added up, must equal its total supply.
pub open spec fn spec_verify_conservation(v: LedgerView, asset: AssetId) -> Result<(), ErrorView> {
    match checked_balances(v.accounts, asset) {
        None => Err(ErrorView::AmountOverflow),
        Some(at) => match checked_reserves(v.vaults, asset) {
            None => Err(ErrorView::AmountOverflow),
            Some(vt) => if at + vt > u128::MAX {
                Err(ErrorView::AmountOverflow)
            } else if at + vt != supply(v, asset).0 {
                Err(
                    ErrorView::Conservation {
                        asset,
                        expected: supply(v, asset),
                        observed: Amount((at + vt) as u128),
                    },
                )
            } else {
                Ok(())
            },
        },
    }
}

/// Value is conserved: for every asset, the balances held by accounts and the
/// reserves held by vaults of that asset add up to its total supply.
pub open spec fn conserved(v: LedgerView) -> bool {
    forall|asset: AssetId| #[trigger]
        sum_balances(v.accounts, asset) + sum_reserves(v.vaults, asset) == supply(v, asset).0
}

/// Configuring the protocol: the admin must hold an account.
pub open spec fn spec_configure_protocol(v: LedgerView, config: ProtocolConfig) -> (LedgerView, Result<TxId, ErrorView>) {
    if get_account(v, config.admin) is None {
        (v, Err(ErrorView::AccountNotFound(config.admin)))
    } else {
        let v1 = LedgerView { operators: OperatorRegistryView { config: Some(config), ..v.operators }, ..v };
        let tx = tx_id_of(
            "horizon-protocol-config-tx-v1",
            <(u32, ProtocolConfig, u64)>::json((v.network_id, config, v.journal.len() as u64)),
        );
        (spec_append_journal(v1, tx, JournalOp::ProtocolConfigured { config }), Ok(tx))
    }
}

/// Granting a role: the account must exist.
pub open spec fn spec_grant_operator_role(v: LedgerView, account: AccountId, role: OperatorRole) -> (LedgerView, Result<TxId, ErrorView>) {
    if get_account(v, account) is None {
        (v, Err(ErrorView::AccountNotFound(account)))
    } else {
        let v1 = LedgerView { operators: spec_grant_role(v.operators, account, role), ..v };
        let tx = tx_id_of(
            "horizon-operator-role-tx-v1",
            <(u32, AccountId, OperatorRole, u64)>::json((v.network_id, account, role, v.journal.len() as u64)),
        );
        (spec_append_journal(v1, tx, JournalOp::OperatorRoleGranted { account, role }), Ok(tx))
    }
}

/// Configuring the fee schedule: the treasury must exist and hold the treasury role.
pub open spec fn spec_configure_fee_schedule(v: LedgerView, schedule: FeeSchedule) -> (LedgerView, Result<TxId, ErrorView>) {
    if get_account(v, schedule.treasury) is None {
        (v, Err(ErrorView::AccountNotFound(schedule.treasury)))
    } else if spec_require_role(v.operators, schedule.treasury, OperatorRole::Treasury) is Err {
        (v, Err(ErrorView::Policy("operator role is not assigned"@)))
    } else {
        let v1 = LedgerView { fees: FeeLedgerView { schedule: Some(schedule), ..v.fees }, ..v };
        let tx = tx_id_of(
            "horizon-fee-schedule-tx-v1",
            <(u32, FeeSchedule, u64)>::json((v.network_id, schedule, v.journal.len() as u64)),
        );
        (
            spec_append_journal(
                v1,
                tx,
                JournalOp::FeeScheduleConfigured {
                    treasury: schedule.treasury,
                    protocol_fee_bps: schedule.protocol_fee_bps,
                    reserve_fee_bps: schedule.reserve_fee_bps,
                },
            ),
            Ok(tx),
        )
    }
}

/// Registering an asset: refused where its identifier is taken; its total
/// supply starts at zero unless one is recorded already.
pub open spec fn spec_register_asset(v: LedgerView, config: AssetConfig) -> (LedgerView, Result<(), ErrorView>) {
    if map_contains(v.assets, config.id.0) {
        (v, Err(ErrorView::AssetAlreadyExists(config.id)))
    } else {
        let total_supply = if map_contains(v.total_supply, config.id.0) {
            v.total_supply
        } else {
            map_insert(v.total_supply, config.id.0, Amount(0))
        };
        (LedgerView { assets: map_insert(v.assets, config.id.0, config), total_supply, ..v }, Ok(()))
    }
}

/// Registering an account: its identity must be consistent and new.
pub open spec fn spec_register_account(v: LedgerView, identity: PublicIdentity) -> (LedgerView, Result<(), ErrorView>) {
    if !identity_consistent(identity) {
        (v, Err(ErrorView::IdentityMismatch(identity.account)))
    } else if map_contains(v.accounts, identity.account.0) {
        (v, Err(ErrorView::AccountAlreadyExists(identity.account)))
    } else {
        (with_account(v, identity.account, fresh_account(identity)), Ok(()))
    }
}

/// Registering a vault: its controller, index authority and asset must exist,
/// and its identifier must be new.
pub open spec fn spec_register_vault(v: LedgerView, config: VaultConfig) -> (LedgerView, Result<TxId, ErrorView>) {
    if get_account(v, config.controller) is None {
        (v, Err(ErrorView::AccountNotFound(config.controller)))
    } else if get_account(v, config.index_authority) is None {
        (v, Err(ErrorView::AccountNotFound(config.index_authority)))
    } else if get_asset(v, config.asset) is None {
        (v, Err(ErrorView::AssetNotFound(config.asset)))
    } else if map_contains(v.vaults, config.vault_id.0) {
        (v, Err(ErrorView::VaultAlreadyExists(config.vault_id)))
    } else {
        let v1 = with_vault(v, config.vault_id, fresh_vault(config));
        let tx = tx_id_of(
            "horizon-register-vault-tx-v1",
            <(u32, VaultConfig, u64)>::json((v.network_id, config, v.journal.len() as u64)),
        );
        (
            spec_append_journal(
                v1,
                tx,
                JournalOp::VaultRegistered {
                    vault_id: config.vault_id,
                    controller: config.controller,
                    asset: config.asset,
                },
            ),
            Ok(tx),
        )
    }
}

/// Registering a route: both vaults and the asset must exist, and the route
/// identifier must be new.
pub open spec fn spec_ledger_register_route(v: LedgerView, route: SettlementRoute) -> (LedgerView, Result<TxId, ErrorView>) {
    if get_vault(v, route.source_vault) is None {
        (v, Err(ErrorView::VaultNotFound(route.source_vault)))
    } else if get_vault(v, route.payout_vault) is None {
        (v, Err(ErrorView::VaultNotFound(route.payout_vault)))
    } else if get_asset(v, route.asset) is None {
        (v, Err(ErrorView::AssetNotFound(route.asset)))
    } else {
        match spec_register_route(v.routes, route) {
            Err(e) => (v, Err(e)),
            Ok(routes) => {
                let v1 = LedgerView { routes, ..v };
                let tx = tx_id_of(
                    "horizon-route-tx-v1",
                    <(u32, SettlementRoute, u64)>::json((v.network_id, route, v.journal.len() as u64)),
                );
                (
                    spec_append_journal(
                        v1,
                        tx,
                        JournalOp::RouteRegistered {
                            route_id: route.route_id,
                            source_vault: route.source_vault,
                            payout_vault: route.payout_vault,
                            asset: route.asset,
                        },
                    ),
                    Ok(tx),
                )
            },
        }
    }
}

/// Publishing a share index for a vault: the observer must exist, hold the
/// oracle role and be the vault's index authority, and the asset must match.
pub open spec fn spec_publish_index(v: LedgerView, o: IndexObservation) -> (LedgerView, Result<TxId, ErrorView>) {
    if get_account(v, o.observer) is None {
        (v, Err(ErrorView::AccountNotFound(o.observer)))
    } else if spec_require_role(v.operators, o.observer, OperatorRole::Oracle) is Err {
        (v, Err(ErrorView::Policy("operator role is not assigned"@)))
    } else {
        match get_vault(v, o.vault_id) {
            None => (v, Err(ErrorView::VaultNotFound(o.vault_id))),
            Some(vault) => if vault.config.asset != o.asset {
                (v, Err(ErrorView::Policy("observation asset mismatch"@)))
            } else if vault.config.index_authority != o.observer {
                (
                    v,
                    Err(
                        ErrorView::UnauthorizedSigner {
                            expected: vault.config.index_authority,
                            received: o.observer,
                        },
                    ),
                )
            } else {
                let v1 = LedgerView {
                    vaults: map_insert(v.vaults, o.vault_id.0, VaultState { share_index: o.share_index, ..vault }),
                    oracle: map_insert(v.oracle, o.vault_id.0, o),
                    ..v
                };
                let tx = tx_id_of(
                    "horizon-index-observation-tx-v1",
                    <(u32, IndexObservation, u64)>::json((v.network_id, o, v.journal.len() as u64)),
                );
                (
                    spec_append_journal(
                        v1,
                        tx,
                        JournalOp::VaultIndexPublished {
                            vault_id: o.vault_id,
                            observer: o.observer,
                            share_index: o.share_index,
                            epoch: o.epoch,
                        },
                    ),
                    Ok(tx),
                )
            },
        }
    }
}

/// The end of a transaction run on a copy: the copy `next` replaces the
/// ledger `v` when it passes the conservation check for `asset`.
pub open spec fn conclude(v: LedgerView, next: LedgerView, asset: AssetId, tx: TxId) -> (LedgerView, Result<TxId, ErrorView>) {
    match spec_verify_conservation(next, asset) {
        Err(e) => (v, Err(e)),
        Ok(()) => (next, Ok(tx)),
    }
}

/// A genesis credit: a nonzero amount of a registered asset, credited to an
/// account and added to the asset's total supply.
pub open spec fn spec_credit_genesis(v: LedgerView, account: AccountId, asset: AssetId, amount: Amount) -> (LedgerView, Result<TxId, ErrorView>) {
    if amount.0 == 0 {
        (v, Err(ErrorView::ZeroAmount))
    } else if get_asset(v, asset) is None {
        (v, Err(ErrorView::AssetNotFound(asset)))
    } else {
        match spec_ledger_credit(v, account, asset, amount) {
            Err(e) => (v, Err(e)),
            Ok(v1) => match spec_add(supply(v1, asset), amount) {
                Err(e) => (v, Err(e)),
                Ok(total) => {
                    let v2 = LedgerView { total_supply: map_insert(v1.total_supply, asset.0, total), ..v1 };
                    let tx = tx_id_of(
                        "horizon-genesis-credit-tx-v1",
                        <(u32, AccountId, AssetId, Amount, u64)>::json(
                            (v.network_id, account, asset, amount, v.journal.len() as u64),
                        ),
                    );
                    conclude(v, spec_append_journal(v2, tx, JournalOp::GenesisCredit { account, asset, amount }), asset, tx)
                },
            },
        }
    }
}

/// A deposit into a vault: a nonzero amount of the vault's asset, debited
/// from the owner and added to the vault's reserve.
pub open spec fn spec_deposit_vault(v: LedgerView, owner: AccountId, vault_id: VaultId, amount: Amount) -> (LedgerView, Result<TxId, ErrorView>) {
    if amount.0 == 0 {
        (v, Err(ErrorView::ZeroAmount))
    } else {
        match get_vault(v, vault_id) {
            None => (v, Err(ErrorView::VaultNotFound(vault_id))),
            Some(vault) => match spec_ledger_debit(v, owner, vault.config.asset, amount) {
                Err(e) => (v, Err(e)),
                Ok(v1) => match crate::vault::spec_deposit(vault, amount) {
                    Err(e) => (v, Err(e)),
                    Ok(deposited) => {
                        let v2 = with_vault(v1, vault_id, deposited);
                        let tx = tx_id_of(
                            "horizon-vault-deposit-tx-v1",
                            <(u32, AccountId, VaultId, Amount, u64)>::json(
                                (v.network_id, owner, vault_id, amount, v.journal.len() as u64),
                            ),
                        );
                        conclude(
                            v,
                            spec_append_journal(v2, tx, JournalOp::VaultDeposit { vault_id, owner, amount }),
                            vault.config.asset,
                            tx,
                        )
                    },
                },
            },
        }
    }
}

/// A sweep of vault surplus: by the vault's controller, out of the reserve
/// above the locked notional and the floor, credited to the controller.
pub open spec fn spec_sweep_vault_surplus(v: LedgerView, controller: AccountId, vault_id: VaultId, amount: Amount) -> (LedgerView, Result<TxId, ErrorView>) {
    match get_vault(v, vault_id) {
        None => (v, Err(ErrorView::VaultNotFound(vault_id))),
        Some(vault) => if vault.config.controller != controller {
            (v, Err(ErrorView::UnauthorizedSigner { expected: vault.config.controller, received: controller }))
        } else {
            match crate::vault::spec_sweep(vault, amount) {
                Err(e) => (v, Err(e)),
                Ok(swept) => match spec_ledger_credit(with_vault(v, vault_id, swept), controller, vault.config.asset, amount) {
                    Err(e) => (v, Err(e)),
                    Ok(v2) => {
                        let tx = tx_id_of(
                            "horizon-vault-surplus-sweep-tx-v1",
                            <(u32, AccountId, VaultId, Amount, u64)>::json(
                                (v.network_id, controller, vault_id, amount, v.journal.len() as u64),
                            ),
                        );
                        conclude(
                            v,
                            spec_append_journal(v2, tx, JournalOp::VaultSurplusSwept { vault_id, controller, amount }),
                            vault.config.asset,
                            tx,
                        )
                    },
                },
            }
        },
    }
}

/// The checks an ingress order must pass, in order, and what they yield:
/// the note to issue and the transaction identifier.
pub open spec fn spec_issue_checks(v: LedgerView, s: SignedIngressOrder) -> Result<(DeliveryNote, TxId), ErrorView> {
    let order = s.order;
    match spec_verify_ingress(s) {
        Err(e) => Err(e),
        Ok(()) => if spec_ensure_not_paused(v.operators) is Err {
            Err(ErrorView::Policy("protocol is paused"@))
        } else if spec_require_role(v.operators, order.issuer, OperatorRole::Issuer) is Err
            || spec_require_role(v.operators, order.beneficiary, OperatorRole::Beneficiary) is Err {
            Err(ErrorView::Policy("operator role is not assigned"@))
        } else if order.network_id != v.network_id {
            Err(ErrorView::Policy("network mismatch"@))
        } else {
            match get_account(v, order.issuer) {
                None => Err(ErrorView::AccountNotFound(order.issuer)),
                Some(issuer) => if issuer.next_ingress_nonce != order.owner_nonce {
                    Err(
                        ErrorView::NonceMismatch {
                            account: order.issuer,
                            expected: issuer.next_ingress_nonce,
                            received: order.owner_nonce,
                        },
                    )
                } else {
                    match get_vault(v, order.source_vault) {
                        None => Err(ErrorView::VaultNotFound(order.source_vault)),
                        Some(vault) => if vault.config.asset != order.asset {
                            Err(ErrorView::Policy("note asset mismatch"@))
                        } else {
                            match get_asset(v, order.asset) {
                                None => Err(ErrorView::AssetNotFound(order.asset)),
                                Some(config) => if !config.settlement_enabled {
                                    Err(ErrorView::Policy("asset settlement disabled"@))
                                } else {
                                    match spec_note(order, vault.share_index) {
                                        Err(e) => Err(e),
                                        Ok(note) => {
                                            let tx = tx_id_of("horizon-signed-ingress-order-v1", SignedIngressOrder::json(s));
                                            if map_contains(v.notes, note.note_id.0) {
                                                Err(ErrorView::NoteAlreadyExists(note.note_id))
                                            } else if map_contains(v.seen_transactions, tx.0) {
                                                Err(ErrorView::DuplicateTransaction(tx))
                                            } else {
                                                Ok((note, tx))
                                            }
                                        },
                                    }
                                },
                            }
                        },
                    }
                },
            }
        },
    }
}

/// What issuing `note` does: the issuer is debited, the source vault takes
/// the amount into its reserve and locks it as notional, the issuer's
/// ingress nonce advances, and the note, its record and the transaction are
/// recorded and journaled.
pub open spec fn spec_issue_effects(v: LedgerView, order: IngressOrder, note: DeliveryNote, tx: TxId) -> Result<LedgerView, ErrorView> {
    match spec_ledger_debit(v, order.issuer, order.asset, order.amount) {
        Err(e) => Err(e),
        Ok(v1) => match get_vault(v1, order.source_vault) {
            None => Err(ErrorView::VaultNotFound(order.source_vault)),
            Some(vault) => match crate::vault::spec_deposit(vault, order.amount) {
                Err(e) => Err(e),
                Ok(deposited) => match spec_lock_notional(deposited, order.amount).1 {
                    Err(e) => Err(e),
                    Ok(()) => {
                        let v2 = with_vault(v1, order.source_vault, spec_lock_notional(deposited, order.amount).0);
                        match get_account(v2, order.issuer) {
                            None => Err(ErrorView::AccountNotFound(order.issuer)),
                            Some(issuer) => match spec_advance_ingress(issuer) {
                                Err(e) => Err(e),
                                Ok(advanced) => {
                                    let v3 = with_account(v2, order.issuer, advanced);
                                    let v4 = LedgerView {
                                        notes: map_insert(v3.notes, note.note_id.0, note),
                                        note_records: map_insert(
                                            v3.note_records,
                                            note.note_id.0,
                                            NoteRecord {
                                                note_id: note.note_id,
                                                source_vault: order.source_vault,
                                                issuer: order.issuer,
                                                settled: false,
                                            },
                                        ),
                                        seen_transactions: map_insert(v3.seen_transactions, tx.0, ()),
                                        ..v3
                                    };
                                    Ok(
                                        spec_append_journal(
                                            v4,
                                            tx,
                                            JournalOp::NoteIssued {
                                                note_id: note.note_id,
                                                source_vault: order.source_vault,
                                                issuer: order.issuer,
                                                beneficiary: order.beneficiary,
                                                amount: order.amount,
                                            },
                                        ),
                                    )
                                },
                            },
                        }
                    },
                },
            },
        },
    }
}

/// Issuing a note from a signed ingress order.
pub open spec fn spec_issue_note(v: LedgerView, s: SignedIngressOrder) -> (LedgerView, Result<TxId, ErrorView>) {
    match spec_issue_checks(v, s) {
        Err(e) => (v, Err(e)),
        Ok((note, tx)) => match spec_issue_effects(v, s.order, note, tx) {
            Err(e) => (v, Err(e)),
            Ok(next) => conclude(v, next, s.order.asset, tx),
        },
    }
}

/// What the checks of a redemption ticket yield for its settlement.
pub struct SettlementPlan {
    pub note: DeliveryNote,
    pub record: NoteRecord,
    pub gross_amount: Amount,
    pub route: SettlementRoute,
    pub risk: RiskSnapshot,
    pub protocol_fee: Amount,
    pub reserve_fee: Amount,
    pub tx_id: TxId,
    pub beneficiary_amount: Amount,
}

/// The checks a redemption ticket must pass, in order, after its signature
/// and roles: the note it redeems, its maturity and nonce, the payout vault.
pub open spec fn spec_settle_checks(v: LedgerView, s: SignedRedemptionTicket) -> Result<(DeliveryNote, NoteRecord, VaultState), ErrorView> {
    let t = s.ticket;
    match spec_verify_ticket(s) {
        Err(e) => Err(e),
        Ok(()) => if spec_ensure_not_paused(v.operators) is Err {
            Err(ErrorView::Policy("protocol is paused"@))
        } else if spec_require_role(v.operators, t.beneficiary, OperatorRole::Beneficiary) is Err
            || spec_require_role(v.operators, t.relayer, OperatorRole::Relayer) is Err {
            Err(ErrorView::Policy("operator role is not assigned"@))
        } else if t.network_id != v.network_id {
            Err(ErrorView::Policy("network mismatch"@))
        } else if map_contains(v.processed_tickets, t.ticket_id.0) {
            Err(ErrorView::TicketProcessed(t.ticket_id))
        } else {
            match get_note(v, t.note_id) {
                None => Err(ErrorView::NoteNotFound(t.note_id)),
                Some(note) => match map_get(v.note_records, t.note_id.0) {
                    None => Err(ErrorView::NoteNotFound(t.note_id)),
                    Some(record) => if record.settled {
                        Err(ErrorView::NoteSettled(t.note_id))
                    } else if t.beneficiary != note.beneficiary {
                        Err(ErrorView::UnauthorizedSigner { expected: note.beneficiary, received: t.beneficiary })
                    } else if t.note_digest.0 != note_digest_bytes(note) {
                        Err(ErrorView::Policy("note digest mismatch"@))
                    } else if t.settlement_epoch < note.maturity_epoch {
                        Err(ErrorView::Policy("note is not mature"@))
                    } else if t.settlement_epoch < v.risk.current_epoch {
                        Err(ErrorView::Policy("stale redemption ticket"@))
                    } else {
                        match get_account(v, t.beneficiary) {
                            None => Err(ErrorView::AccountNotFound(t.beneficiary)),
                            Some(b) => if b.next_ticket_nonce != t.ticket_nonce {
                                Err(
                                    ErrorView::NonceMismatch {
                                        account: t.beneficiary,
                                        expected: b.next_ticket_nonce,
                                        received: t.ticket_nonce,
                                    },
                                )
                            } else {
                                match get_vault(v, t.payout_vault) {
                                    None => Err(ErrorView::VaultNotFound(t.payout_vault)),
                                    Some(payout) => if payout.config.asset != note.asset {
                                        Err(ErrorView::Policy("payout vault asset mismatch"@))
                                    } else {
                                        Ok((note, record, payout))
                                    },
                                }
                            },
                        }
                    },
                },
            }
        },
    }
}

/// The pricing of a ticket that passed its checks: the gross amount at the
/// payout vault's current index, the route, the risk assessment, the fees,
/// the transaction identifier and the beneficiary's share.
pub open spec fn spec_settle_plan(v: LedgerView, s: SignedRedemptionTicket) -> Result<SettlementPlan, ErrorView> {
    let t = s.ticket;
    match spec_settle_checks(v, s) {
        Err(e) => Err(e),
        Ok((note, record, payout)) => match spec_amount_from_units(payout.share_index, note.locked_units) {
            Err(e) => Err(e),
            Ok(gross) => match spec_resolve_route(v.routes, record.source_vault, t.payout_vault, note.asset, note.amount, t.relayer_fee) {
                Err(e) => Err(e),
                Ok(route) => match spec_evaluate_ticket(v.risk, t.ticket_id, payout, gross, t.relayer_fee) {
                    Err(e) => Err(e),
                    Ok(risk) => match spec_fee(v.fees.schedule, t.relayer_fee, true) {
                        Err(e) => Err(e),
                        Ok(protocol_fee) => match spec_fee(v.fees.schedule, t.relayer_fee, false) {
                            Err(e) => Err(e),
                            Ok(reserve_fee) => {
                                let tx = tx_id_of("horizon-signed-redemption-ticket-v1", SignedRedemptionTicket::json(s));
                                if map_contains(v.seen_transactions, tx.0) {
                                    Err(ErrorView::DuplicateTransaction(tx))
                                } else {
                                    match spec_sub(gross, t.relayer_fee) {
                                        Err(e) => Err(e),
                                        Ok(beneficiary_amount) => Ok(
                                            SettlementPlan {
                                                note,
                                                record,
                                                gross_amount: gross,
                                                route,
                                                risk,
                                                protocol_fee,
                                                reserve_fee,
                                                tx_id: tx,
                                                beneficiary_amount,
                                            },
                                        ),
                                    }
                                }
                            },
                        },
                    },
                },
            },
        },
    }
}

/// The ledger with the relayer credited its fee, where the fee is not zero.
pub open spec fn spec_credit_relayer(v: LedgerView, t: RedemptionTicket, asset: AssetId) -> Result<LedgerView, ErrorView> {
    if t.relayer_fee.0 == 0 {
        Ok(v)
    } else {
        spec_ledger_credit(v, t.relayer, asset, t.relayer_fee)
    }
}

/// Moving value for a planned settlement: the payout vault pays the gross
/// amount, the source vault releases the note's notional, the beneficiary
/// and the relayer are credited.
pub open spec fn spec_settle_transfers(v: LedgerView, t: RedemptionTicket, p: SettlementPlan) -> Result<LedgerView, ErrorView> {
    match get_vault(v, t.payout_vault) {
        None => Err(ErrorView::VaultNotFound(t.payout_vault)),
        Some(payout) => match crate::vault::spec_pay(payout, p.gross_amount) {
            Err(e) => Err(e),
            Ok(paid) => {
                let v1 = with_vault(v, t.payout_vault, paid);
                match get_vault(v1, p.record.source_vault) {
                    None => Err(ErrorView::VaultNotFound(p.record.source_vault)),
                    Some(source) => match spec_release_notional(source, p.note.amount).1 {
                        Err(e) => Err(e),
                        Ok(()) => {
                            let v2 = with_vault(v1, p.record.source_vault, spec_release_notional(source, p.note.amount).0);
                            match spec_ledger_credit(v2, t.beneficiary, p.note.asset, p.beneficiary_amount) {
                                Err(e) => Err(e),
                                Ok(v3) => spec_credit_relayer(v3, t, p.note.asset),
                            }
                        },
                    },
                }
            },
        },
    }
}

/// Recording a settlement: the fees accrue, the beneficiary's ticket nonce
/// advances, the note is marked settled, the ticket and the transaction are
/// recorded and the settlement is journaled.
pub open spec fn spec_settle_records(v: LedgerView, t: RedemptionTicket, p: SettlementPlan) -> Result<LedgerView, ErrorView> {
    match spec_add_to(v.fees.accrued, p.note.asset.0, p.protocol_fee) {
        Err(e) => Err(e),
        Ok(accrued) => match spec_add_to(v.fees.reserve_buffer, p.note.asset.0, p.reserve_fee) {
            Err(e) => Err(e),
            Ok(reserve_buffer) => {
                let v1 = LedgerView { fees: FeeLedgerView { accrued, reserve_buffer, ..v.fees }, ..v };
                match get_account(v1, t.beneficiary) {
                    None => Err(ErrorView::AccountNotFound(t.beneficiary)),
                    Some(b) => match spec_advance_ticket(b) {
                        Err(e) => Err(e),
                        Ok(advanced) => {
                            let v2 = with_account(v1, t.beneficiary, advanced);
                            let v3 = LedgerView {
                                note_records: map_insert(v2.note_records, t.note_id.0, NoteRecord { settled: true, ..p.record }),
                                processed_tickets: map_insert(v2.processed_tickets, t.ticket_id.0, ()),
                                seen_transactions: map_insert(v2.seen_transactions, p.tx_id.0, ()),
                                ..v2
                            };
                            Ok(
                                spec_append_journal(
                                    v3,
                                    p.tx_id,
                                    JournalOp::TicketSettled {
                                        ticket_id: t.ticket_id,
                                        note_id: t.note_id,
                                        route_id: p.route.route_id,
                                        source_vault: p.record.source_vault,
                                        payout_vault: t.payout_vault,
                                        beneficiary: t.beneficiary,
                                        beneficiary_amount: p.beneficiary_amount,
                                        relayer: t.relayer,
                                        relayer_fee: t.relayer_fee,
                                        protocol_fee: p.protocol_fee,
                                        reserve_fee: p.reserve_fee,
                                        risk: Box::new(p.risk),
                                    },
                                ),
                            )
                        },
                    },
                }
            },
        },
    }
}

/// Settling a signed redemption ticket.
pub open spec fn spec_settle_ticket(v: LedgerView, s: SignedRedemptionTicket) -> (LedgerView, Result<TxId, ErrorView>) {
    match spec_settle_plan(v, s) {
        Err(e) => (v, Err(e)),
        Ok(p) => match spec_settle_transfers(v, s.ticket, p) {
            Err(e) => (v, Err(e)),
            Ok(v1) => match spec_settle_records(v1, s.ticket, p) {
                Err(e) => (v, Err(e)),
                Ok(next) => match get_note(next, s.ticket.note_id) {
                    None => (v, Err(ErrorView::NoteNotFound(s.ticket.note_id))),
                    Some(note) => conclude(v, next, note.asset, p.tx_id),
                },
            },
        },
    }
}

impl HorizonLedger {

    pub fn settle_ticket(&mut self, signed: &SignedRedemptionTicket) -> (r: HorizonResult<TxId>)
        ensures
            (final(self)@, result_view(r)) == spec_settle_ticket(old(self)@, *signed),
            result_view(r) is Err ==> final(self)@ == old(self)@,
            ledger_invariant(old(self)@) && old(self)@.journal.len() < u64::MAX ==> ledger_invariant(final(self)@),
    {
        proof {
            if ledger_invariant(self@) && self@.journal.len() < u64::MAX {
                crate::ledger::laws::lemma_settle_ticket(self@, *signed);
            }
        }
        let mut candidate = self.duplicate();
        let tx_id = candidate.settle_ticket_inner(signed)?;
        let note = candidate.note(signed.ticket.note_id)?;
        candidate.verify_conservation(note.asset)?;
        *self = candidate;
        Ok(tx_id)
    }

    fn settle_ticket_inner(&mut self, signed: &SignedRedemptionTicket) -> (r: HorizonResult<TxId>)
        ensures
            match spec_settle_plan(old(self)@, *signed) {
                Err(e) => result_view(r) == Err::<TxId, ErrorView>(e),
                Ok(p) => match spec_settle_transfers(old(self)@, signed.ticket, p) {
                    Err(e) => result_view(r) == Err::<TxId, ErrorView>(e),
                    Ok(v1) => match spec_settle_records(v1, signed.ticket, p) {
                        Err(e) => result_view(r) == Err::<TxId, ErrorView>(e),
                        Ok(next) => r == Ok::<TxId, HorizonError>(p.tx_id) && final(self)@ == next,
                    },
                },
            },
    {
        let plan = self.settle_plan(signed)?;
        let ticket = signed.ticket;
        self.settle_transfers(ticket, &plan)?;
        self.settle_records(ticket, &plan)?;
        Ok(plan.tx_id)
    }

    fn settle_checks(&self, signed: &SignedRedemptionTicket) -> (r: HorizonResult<(DeliveryNote, NoteRecord, VaultState)>)
        ensures
            result_view(r) == spec_settle_checks(self@, *signed),
    {
        signed.verify()?;
        let ticket = signed.ticket;
        self.operators.ensure_not_paused()?;
        self.operators.require_role(ticket.beneficiary, OperatorRole::Beneficiary)?;
        self.operators.require_role(ticket.relayer, OperatorRole::Relayer)?;
        if ticket.network_id != self.network_id {
            return Err(crate::error::policy("network mismatch"));
        }
        if self.processed_tickets.contains_key(&ticket.ticket_id.0) {
            return Err(HorizonError::TicketProcessed(ticket.ticket_id));
        }
        let note = self.note(ticket.note_id)?;
        let record = match self.note_records.get(&ticket.note_id.0) {
            Some(rec) => *rec,
            None => return Err(HorizonError::NoteNotFound(ticket.note_id)),
        };
        if record.settled {
            return Err(HorizonError::NoteSettled(ticket.note_id));
        }
        if ticket.beneficiary != note.beneficiary {
            return Err(HorizonError::UnauthorizedSigner { expected: note.beneficiary, received: ticket.beneficiary });
        }
        let note_digest = note.digest()?;
        if ticket.note_digest != note_digest {
            return Err(crate::error::policy("note digest mismatch"));
        }
        if ticket.settlement_epoch < note.maturity_epoch {
            return Err(crate::error::policy("note is not mature"));
        }
        if ticket.settlement_epoch < self.risk_engine.limits().current_epoch {
            return Err(crate::error::policy("stale redemption ticket"));
        }
        let expected = self.ticket_nonce(ticket.beneficiary)?;
        if expected != ticket.ticket_nonce {
            return Err(
                HorizonError::NonceMismatch { account: ticket.beneficiary, expected, received: ticket.ticket_nonce },
            );
        }
        let payout = *self.vault(ticket.payout_vault)?;
        if payout.config.asset != note.asset {
            return Err(crate::error::policy("payout vault asset mismatch"));
        }
        Ok((note, record, payout))
    }

    fn settle_plan(&self, signed: &SignedRedemptionTicket) -> (r: HorizonResult<SettlementPlan>)
        ensures
            result_view(r) == spec_settle_plan(self@, *signed),
    {
        let (note, record, payout) = self.settle_checks(signed)?;
        let ticket = signed.ticket;
        let gross_amount = payout.share_index.amount_from_units(note.locked_units)?;
        let route = self.route_book.resolve_route(
            record.source_vault,
            ticket.payout_vault,
            note.asset,
            note.amount,
            ticket.relayer_fee,
        )?;
        let risk = self.risk_engine.evaluate_ticket(ticket.ticket_id, &payout, gross_amount, ticket.relayer_fee)?;
        let protocol_fee = self.fee_ledger.protocol_fee(ticket.relayer_fee)?;
        let reserve_fee = self.fee_ledger.reserve_fee(ticket.relayer_fee)?;
        let tx_id = signed.tx_id()?;
        if self.seen_transactions.contains_key(&tx_id.0) {
            return Err(HorizonError::DuplicateTransaction(tx_id));
        }
        let beneficiary_amount = gross_amount.checked_sub(ticket.relayer_fee)?;
        Ok(
            SettlementPlan {
                note,
                record,
                gross_amount,
                route,
                risk,
                protocol_fee,
                reserve_fee,
                tx_id,
                beneficiary_amount,
            },
        )
    }

    fn settle_transfers(&mut self, ticket: RedemptionTicket, plan: &SettlementPlan) -> (r: HorizonResult<()>)
        ensures
            match spec_settle_transfers(old(self)@, ticket, *plan) {
                Err(e) => result_view(r) == Err::<(), ErrorView>(e),
                Ok(next) => r is Ok && final(self)@ == next,
            },
    {
        let mut payout = *self.vault(ticket.payout_vault)?;
        payout.pay(plan.gross_amount)?;
        self.vaults.insert(ticket.payout_vault.0, payout);
        let mut source = *self.vault(plan.record.source_vault)?;
        source.release_notional(plan.note.amount)?;
        self.vaults.insert(plan.record.source_vault.0, source);
        self.credit(ticket.beneficiary, plan.note.asset, plan.beneficiary_amount)?;
        if !ticket.relayer_fee.is_zero() {
            self.credit(ticket.relayer, plan.note.asset, ticket.relayer_fee)?;
        }
        Ok(())
    }

    fn settle_records(&mut self, ticket: RedemptionTicket, plan: &SettlementPlan) -> (r: HorizonResult<()>)
        ensures
            match spec_settle_records(old(self)@, ticket, *plan) {
                Err(e) => result_view(r) == Err::<(), ErrorView>(e),
                Ok(next) => r is Ok && final(self)@ == next,
            },
    {
        self.fee_ledger.accrue(plan.note.asset, plan.protocol_fee)?;
        self.fee_ledger.add_reserve_buffer(plan.note.asset, plan.reserve_fee)?;
        let mut beneficiary = self.account(ticket.beneficiary)?.duplicate();
        beneficiary.advance_ticket_nonce()?;
        self.accounts.insert(ticket.beneficiary.0, beneficiary);
        let mut record = plan.record;
        record.settled = true;
        self.note_records.insert(ticket.note_id.0, record);
        self.processed_tickets.insert(ticket.ticket_id.0, ());
        self.seen_transactions.insert(plan.tx_id.0, ());
        self.append_journal(
            plan.tx_id,
            JournalOp::TicketSettled {
                ticket_id: ticket.ticket_id,
                note_id: ticket.note_id,
                route_id: plan.route.route_id,
                source_vault: plan.record.source_vault,
                payout_vault: ticket.payout_vault,
                beneficiary: ticket.beneficiary,
                beneficiary_amount: plan.beneficiary_amount,
                relayer: ticket.relayer,
                relayer_fee: ticket.relayer_fee,
                protocol_fee: plan.protocol_fee,
                reserve_fee: plan.reserve_fee,
                risk: Box::new(plan.risk),
            },
        );
        Ok(())
    }

    pub fn note(&self, note_id: NoteId) -> (r: HorizonResult<DeliveryNote>)
        ensures
            match get_note(self@, note_id) {
                Some(n) => r == Ok::<DeliveryNote, HorizonError>(n),
                None => result_view(r) == Err::<DeliveryNote, ErrorView>(ErrorView::NoteNotFound(note_id)),
            },
    {
        match self.notes.get(&note_id.0) {
            Some(n) => Ok(*n),
            None => Err(HorizonError::NoteNotFound(note_id)),
        }
    }

    pub fn issue_note(&mut self, signed: &SignedIngressOrder) -> (r: HorizonResult<TxId>)
        ensures
            (final(self)@, result_view(r)) == spec_issue_note(old(self)@, *signed),
            result_view(r) is Err ==> final(self)@ == old(self)@,
            ledger_invariant(old(self)@) && old(self)@.journal.len() < u64::MAX ==> ledger_invariant(final(self)@),
    {
        proof {
            if ledger_invariant(self@) && self@.journal.len() < u64::MAX {
                crate::ledger::laws::lemma_issue_note(self@, *signed);
            }
        }
        let mut candidate = self.duplicate();
        let tx_id = candidate.issue_note_inner(signed)?;
        let asset = signed.order.asset;
        candidate.verify_conservation(asset)?;
        *self = candidate;
        Ok(tx_id)
    }

    fn issue_note_inner(&mut self, signed: &SignedIngressOrder) -> (r: HorizonResult<TxId>)
        ensures
            match spec_issue_checks(old(self)@, *signed) {
                Err(e) => result_view(r) == Err::<TxId, ErrorView>(e),
                Ok((note, tx)) => match spec_issue_effects(old(self)@, signed.order, note, tx) {
                    Err(e) => result_view(r) == Err::<TxId, ErrorView>(e),
                    Ok(next) => r == Ok::<TxId, HorizonError>(tx) && final(self)@ == next,
                },
            },
    {
        let (note, tx_id) = self.issue_checks(signed)?;
        self.issue_effects(signed.order, note, tx_id)?;
        Ok(tx_id)
    }

    fn issue_checks(&self, signed: &SignedIngressOrder) -> (r: HorizonResult<(DeliveryNote, TxId)>)
        ensures
            result_view(r) == spec_issue_checks(self@, *signed),
    {
        signed.verify()?;
        let order = signed.order;
        self.operators.ensure_not_paused()?;
        self.operators.require_role(order.issuer, OperatorRole::Issuer)?;
        self.operators.require_role(order.beneficiary, OperatorRole::Beneficiary)?;
        if order.network_id != self.network_id {
            return Err(crate::error::policy("network mismatch"));
        }
        let expected = self.ingress_nonce(order.issuer)?;
        if expected != order.owner_nonce {
            return Err(
                HorizonError::NonceMismatch { account: order.issuer, expected, received: order.owner_nonce },
            );
        }
        let vault = *self.vault(order.source_vault)?;
        if vault.config.asset != order.asset {
            return Err(crate::error::policy("note asset mismatch"));
        }
        if !self.asset_config(order.asset)?.settlement_enabled {
            return Err(crate::error::policy("asset settlement disabled"));
        }
        let note = order.note(vault.share_index)?;
        if self.notes.contains_key(&note.note_id.0) {
            return Err(HorizonError::NoteAlreadyExists(note.note_id));
        }
        let tx_id = signed.tx_id()?;
        if self.seen_transactions.contains_key(&tx_id.0) {
            return Err(HorizonError::DuplicateTransaction(tx_id));
        }
        Ok((note, tx_id))
    }

    fn issue_effects(&mut self, order: IngressOrder, note: DeliveryNote, tx_id: TxId) -> (r: HorizonResult<()>)
        ensures
            match spec_issue_effects(old(self)@, order, note, tx_id) {
                Err(e) => result_view(r) == Err::<(), ErrorView>(e),
                Ok(next) => r is Ok && final(self)@ == next,
            },
    {
        self.debit(order.issuer, order.asset, order.amount)?;
        let mut vault = *self.vault(order.source_vault)?;
        vault.deposit(order.amount)?;
        vault.lock_notional(order.amount)?;
        self.vaults.insert(order.source_vault.0, vault);
        let mut issuer = self.account(order.issuer)?.duplicate();
        issuer.advance_ingress_nonce()?;
        self.accounts.insert(order.issuer.0, issuer);
        self.notes.insert(note.note_id.0, note);
        self.note_records.insert(
            note.note_id.0,
            NoteRecord { note_id: note.note_id, source_vault: order.source_vault, issuer: order.issuer, settled: false },
        );
        self.seen_transactions.insert(tx_id.0, ());
        self.append_journal(
            tx_id,
            JournalOp::NoteIssued {
                note_id: note.note_id,
                source_vault: order.source_vault,
                issuer: order.issuer,
                beneficiary: order.beneficiary,
                amount: order.amount,
            },
        );
        Ok(())
    }

    pub fn ingress_nonce(&self, account: AccountId) -> (r: HorizonResult<u64>)
        ensures
            match get_account(self@, account) {
                Some(a) => r == Ok::<u64, HorizonError>(a.next_ingress_nonce),
                None => result_view(r) == Err::<u64, ErrorView>(ErrorView::AccountNotFound(account)),
            },
    {
        Ok(self.account(account)?.next_ingress_nonce)
    }

    pub fn ticket_nonce(&self, account: AccountId) -> (r: HorizonResult<u64>)
        ensures
            match get_account(self@, account) {
                Some(a) => r == Ok::<u64, HorizonError>(a.next_ticket_nonce),
                None => result_view(r) == Err::<u64, ErrorView>(ErrorView::AccountNotFound(account)),
            },
    {
        Ok(self.account(account)?.next_ticket_nonce)
    }

    pub fn balance_of(&self, account: AccountId, asset: AssetId) -> (r: HorizonResult<Amount>)
        ensures
            match get_account(self@, account) {
                Some(a) => r == Ok::<Amount, HorizonError>(balance(a, asset)),
                None => result_view(r) == Err::<Amount, ErrorView>(ErrorView::AccountNotFound(account)),
            },
    {
        Ok(self.account(account)?.balance_of(asset))
    }

    pub fn credit_genesis(&mut self, account: AccountId, asset: AssetId, amount: Amount) -> (r: HorizonResult<TxId>)
        ensures
            (final(self)@, result_view(r)) == spec_credit_genesis(old(self)@, account, asset, amount),
            result_view(r) is Err ==> final(self)@ == old(self)@,
            ledger_invariant(old(self)@) && old(self)@.journal.len() < u64::MAX ==> ledger_invariant(final(self)@),
    {
        proof {
            if ledger_invariant(self@) && self@.journal.len() < u64::MAX {
                crate::ledger::laws::lemma_credit_genesis(self@, account, asset, amount);
            }
        }
        if amount.is_zero() {
            return Err(HorizonError::ZeroAmount);
        }
        self.asset_config(asset)?;
        let mut candidate = self.duplicate();
        candidate.credit(account, asset, amount)?;
        let total = candidate.total_supply_of(asset).checked_add(amount)?;
        candidate.total_supply.insert(asset.0, total);
        let tx_id = TxId::from_serializable(
            "horizon-genesis-credit-tx-v1",
            &(self.network_id, account, asset, amount, self.journal.len() as u64),
        )?;
        candidate.append_journal(tx_id, JournalOp::GenesisCredit { account, asset, amount });
        candidate.verify_conservation(asset)?;
        *self = candidate;
        Ok(tx_id)
    }

    pub fn deposit_vault(&mut self, owner: AccountId, vault_id: VaultId, amount: Amount) -> (r: HorizonResult<TxId>)
        ensures
            (final(self)@, result_view(r)) == spec_deposit_vault(old(self)@, owner, vault_id, amount),
            result_view(r) is Err ==> final(self)@ == old(self)@,
            ledger_invariant(old(self)@) && old(self)@.journal.len() < u64::MAX ==> ledger_invariant(final(self)@),
    {
        proof {
            if ledger_invariant(self@) && self@.journal.len() < u64::MAX {
                crate::ledger::laws::lemma_deposit_vault(self@, owner, vault_id, amount);
            }
        }
        if amount.is_zero() {
            return Err(HorizonError::ZeroAmount);
        }
        let mut candidate = self.duplicate();
        let asset = candidate.vault(vault_id)?.config.asset;
        candidate.debit(owner, asset, amount)?;
        let mut vault = *candidate.vault(vault_id)?;
        vault.deposit(amount)?;
        candidate.vaults.insert(vault_id.0, vault);
        let tx_id = TxId::from_serializable(
            "horizon-vault-deposit-tx-v1",
            &(self.network_id, owner, vault_id, amount, self.journal.len() as u64),
        )?;
        candidate.append_journal(tx_id, JournalOp::VaultDeposit { vault_id, owner, amount });
        candidate.verify_conservation(asset)?;
        *self = candidate;
        Ok(tx_id)
    }

    pub fn sweep_vault_surplus(&mut self, controller: AccountId, vault_id: VaultId, amount: Amount) -> (r: HorizonResult<TxId>)
        ensures
            (final(self)@, result_view(r)) == spec_sweep_vault_surplus(old(self)@, controller, vault_id, amount),
            result_view(r) is Err ==> final(self)@ == old(self)@,
            ledger_invariant(old(self)@) && old(self)@.journal.len() < u64::MAX ==> ledger_invariant(final(self)@),
    {
        proof {
            if ledger_invariant(self@) && self@.journal.len() < u64::MAX {
                crate::ledger::laws::lemma_sweep_vault_surplus(self@, controller, vault_id, amount);
            }
        }
        let mut candidate = self.duplicate();
        let vault = *candidate.vault(vault_id)?;
        let asset = vault.config.asset;
        let expected_controller = vault.config.controller;
        if expected_controller != controller {
            return Err(HorizonError::UnauthorizedSigner { expected: expected_controller, received: controller });
        }
        let mut swept = vault;
        swept.sweep(amount)?;
        candidate.vaults.insert(vault_id.0, swept);
        candidate.credit(controller, asset, amount)?;
        let tx_id = TxId::from_serializable(
            "horizon-vault-surplus-sweep-tx-v1",
            &(self.network_id, controller, vault_id, amount, self.journal.len() as u64),
        )?;
        candidate.append_journal(tx_id, JournalOp::VaultSurplusSwept { vault_id, controller, amount });
        candidate.verify_conservation(asset)?;
        *self = candidate;
        Ok(tx_id)
    }

    pub fn configure_protocol(&mut self, config: ProtocolConfig) -> (r: HorizonResult<TxId>)
        ensures
            (final(self)@, result_view(r)) == spec_configure_protocol(old(self)@, config),
            result_view(r) is Err ==> final(self)@ == old(self)@,
            ledger_invariant(old(self)@) && old(self)@.journal.len() < u64::MAX ==> ledger_invariant(final(self)@),
    {
        proof {
            if ledger_invariant(self@) && self@.journal.len() < u64::MAX {
                crate::ledger::laws::lemma_configure_protocol(self@, config);
            }
        }
        self.account(config.admin)?;
        self.operators.configure(config);
        let tx_id = TxId::from_serializable(
            "horizon-protocol-config-tx-v1",
            &(self.network_id, config, self.journal.len() as u64),
        )?;
        self.append_journal(tx_id, JournalOp::ProtocolConfigured { config });
        Ok(tx_id)
    }

    pub fn grant_operator_role(&mut self, account: AccountId, role: OperatorRole) -> (r: HorizonResult<TxId>)
        ensures
            (final(self)@, result_view(r)) == spec_grant_operator_role(old(self)@, account, role),
            result_view(r) is Err ==> final(self)@ == old(self)@,
            ledger_invariant(old(self)@) && old(self)@.journal.len() < u64::MAX ==> ledger_invariant(final(self)@),
    {
        proof {
            if ledger_invariant(self@) && self@.journal.len() < u64::MAX {
                crate::ledger::laws::lemma_grant_operator_role(self@, account, role);
            }
        }
        self.account(account)?;
        self.operators.grant_role(account, role);
        let tx_id = TxId::from_serializable(
            "horizon-operator-role-tx-v1",
            &(self.network_id, account, role, self.journal.len() as u64),
        )?;
        self.append_journal(tx_id, JournalOp::OperatorRoleGranted { account, role });
        Ok(tx_id)
    }

    pub fn set_risk_limits(&mut self, limits: RiskLimits)
        ensures
            final(self)@ == (LedgerView { risk: limits, ..old(self)@ }),
            ledger_invariant(old(self)@) ==> ledger_invariant(final(self)@),
    {
        proof {
            if ledger_invariant(self@) {
                crate::ledger::laws::lemma_set_risk_limits(self@, limits);
            }
        }
        self.risk_engine.set_limits(limits);
    }

    pub fn configure_fee_schedule(&mut self, schedule: FeeSchedule) -> (r: HorizonResult<TxId>)
        ensures
            (final(self)@, result_view(r)) == spec_configure_fee_schedule(old(self)@, schedule),
            result_view(r) is Err ==> final(self)@ == old(self)@,
            ledger_invariant(old(self)@) && old(self)@.journal.len() < u64::MAX ==> ledger_invariant(final(self)@),
    {
        proof {
            if ledger_invariant(self@) && self@.journal.len() < u64::MAX {
                crate::ledger::laws::lemma_configure_fee_schedule(self@, schedule);
            }
        }
        self.account(schedule.treasury)?;
        self.operators.require_role(schedule.treasury, OperatorRole::Treasury)?;
        self.fee_ledger.configure(schedule);
        let tx_id = TxId::from_serializable(
            "horizon-fee-schedule-tx-v1",
            &(self.network_id, schedule, self.journal.len() as u64),
        )?;
        self.append_journal(
            tx_id,
            JournalOp::FeeScheduleConfigured {
                treasury: schedule.treasury,
                protocol_fee_bps: schedule.protocol_fee_bps,
                reserve_fee_bps: schedule.reserve_fee_bps,
            },
        );
        Ok(tx_id)
    }

    pub fn register_asset(&mut self, config: AssetConfig) -> (r: HorizonResult<()>)
        ensures
            (final(self)@, result_view(r)) == spec_register_asset(old(self)@, config),
            result_view(r) is Err ==> final(self)@ == old(self)@,
            ledger_invariant(old(self)@) ==> ledger_invariant(final(self)@),
    {
        proof {
            if ledger_invariant(self@) {
                crate::ledger::laws::lemma_register_asset(self@, config);
            }
        }
        if self.assets.contains_key(&config.id.0) {
            return Err(HorizonError::AssetAlreadyExists(config.id));
        }
        if !self.total_supply.contains_key(&config.id.0) {
            self.total_supply.insert(config.id.0, Amount::zero());
        }
        self.assets.insert(config.id.0, config);
        Ok(())
    }

    pub fn register_account(&mut self, identity: PublicIdentity) -> (r: HorizonResult<()>)
        ensures
            (final(self)@, result_view(r)) == spec_register_account(old(self)@, identity),
            result_view(r) is Err ==> final(self)@ == old(self)@,
            ledger_invariant(old(self)@) ==> ledger_invariant(final(self)@),
    {
        proof {
            if ledger_invariant(self@) {
                crate::ledger::laws::lemma_register_account(self@, identity);
            }
        }
        identity.verify_consistency()?;
        if self.accounts.contains_key(&identity.account.0) {
            return Err(HorizonError::AccountAlreadyExists(identity.account));
        }
        self.accounts.insert(identity.account.0, AccountState::new(identity));
        Ok(())
    }

    pub fn register_vault(&mut self, config: VaultConfig) -> (r: HorizonResult<TxId>)
        ensures
            (final(self)@, result_view(r)) == spec_register_vault(old(self)@, config),
            result_view(r) is Err ==> final(self)@ == old(self)@,
            ledger_invariant(old(self)@) && old(self)@.journal.len() < u64::MAX ==> ledger_invariant(final(self)@),
    {
        proof {
            if ledger_invariant(self@) && self@.journal.len() < u64::MAX {
                crate::ledger::laws::lemma_register_vault(self@, config);
            }
        }
        self.account(config.controller)?;
        self.account(config.index_authority)?;
        self.asset_config(config.asset)?;
        if self.vaults.contains_key(&config.vault_id.0) {
            return Err(HorizonError::VaultAlreadyExists(config.vault_id));
        }
        self.vaults.insert(config.vault_id.0, VaultState::new(config));
        let tx_id = TxId::from_serializable(
            "horizon-register-vault-tx-v1",
            &(self.network_id, config, self.journal.len() as u64),
        )?;
        self.append_journal(
            tx_id,
            JournalOp::VaultRegistered {
                vault_id: config.vault_id,
                controller: config.controller,
                asset: config.asset,
            },
        );
        Ok(tx_id)
    }

    pub fn register_route(&mut self, route: SettlementRoute) -> (r: HorizonResult<TxId>)
        ensures
            (final(self)@, result_view(r)) == spec_ledger_register_route(old(self)@, route),
            result_view(r) is Err ==> final(self)@ == old(self)@,
            ledger_invariant(old(self)@) && old(self)@.journal.len() < u64::MAX ==> ledger_invariant(final(self)@),
    {
        proof {
            if ledger_invariant(self@) && self@.journal.len() < u64::MAX {
                crate::ledger::laws::lemma_register_route(self@, route);
            }
        }
        self.vault(route.source_vault)?;
        self.vault(route.payout_vault)?;
        self.asset_config(route.asset)?;
        let route_id = self.route_book.register_route(route)?;
        let tx_id = TxId::from_serializable(
            "horizon-route-tx-v1",
            &(self.network_id, route, self.journal.len() as u64),
        )?;
        self.append_journal(
            tx_id,
            JournalOp::RouteRegistered {
                route_id,
                source_vault: route.source_vault,
                payout_vault: route.payout_vault,
                asset: route.asset,
            },
        );
        Ok(tx_id)
    }

    pub fn publish_index(&mut self, observation: IndexObservation) -> (r: HorizonResult<TxId>)
        ensures
            (final(self)@, result_view(r)) == spec_publish_index(old(self)@, observation),
            result_view(r) is Err ==> final(self)@ == old(self)@,
            ledger_invariant(old(self)@) && old(self)@.journal.len() < u64::MAX ==> ledger_invariant(final(self)@),
    {
        proof {
            if ledger_invariant(self@) && self@.journal.len() < u64::MAX {
                crate::ledger::laws::lemma_publish_index(self@, observation);
            }
        }
        self.account(observation.observer)?;
        self.operators.require_role(observation.observer, OperatorRole::Oracle)?;
        let vault = *self.vault(observation.vault_id)?;
        if vault.config.asset != observation.asset {
            return Err(crate::error::policy("observation asset mismatch"));
        }
        if vault.config.index_authority != observation.observer {
            return Err(
                HorizonError::UnauthorizedSigner {
                    expected: vault.config.index_authority,
                    received: observation.observer,
                },
            );
        }
        let mut repriced = vault;
        repriced.reprice(observation.share_index);
        self.vaults.insert(observation.vault_id.0, repriced);
        self.oracle_book.publish(observation);
        let tx_id = TxId::from_serializable(
            "horizon-index-observation-tx-v1",
            &(self.network_id, observation, self.journal.len() as u64),
        )?;
        self.append_journal(
            tx_id,
            JournalOp::VaultIndexPublished {
                vault_id: observation.vault_id,
                observer: observation.observer,
                share_index: observation.share_index,
                epoch: observation.epoch,
            },
        );
        Ok(tx_id)
    }
    pub fn new(network_id: u32) -> (r: Self)
        ensures
            r@ == empty_ledger(network_id),
            ledger_invariant(r@),
    {
        proof {
            crate::ledger::laws::lemma_new_ledger(network_id);
        }
        let r = HorizonLedger {
            network_id,
            assets: ByteMap::new(),
            accounts: ByteMap::new(),
            total_supply: ByteMap::new(),
            vaults: ByteMap::new(),
            notes: ByteMap::new(),
            note_records: ByteMap::new(),
            processed_tickets: ByteMap::new(),
            seen_transactions: ByteMap::new(),
            operators: OperatorRegistry::default(),
            oracle_book: OracleBook::default(),
            route_book: RouteBook::default(),
            fee_ledger: FeeLedger::default(),
            risk_engine: RiskEngine::default(),
            journal: Vec::new(),
        };
        assert(r@.journal =~= Seq::<JournalEntry>::empty());
        assert(r@ == empty_ledger(network_id));
        r
    }

    pub fn network_id(&self) -> (r: u32)
        ensures
            r == self@.network_id,
    {
        self.network_id
    }

    /// A copy of the ledger.
    fn duplicate(&self) -> (r: Self)
        ensures
            r@ == self@,
    {
        HorizonLedger {
            network_id: self.network_id,
            assets: self.assets.duplicate(),
            accounts: self.accounts.duplicate(),
            total_supply: self.total_supply.duplicate(),
            vaults: self.vaults.duplicate(),
            notes: self.notes.duplicate(),
            note_records: self.note_records.duplicate(),
            processed_tickets: self.processed_tickets.duplicate(),
            seen_transactions: self.seen_transactions.duplicate(),
            operators: self.operators.duplicate(),
            oracle_book: self.oracle_book.duplicate(),
            route_book: self.route_book.duplicate(),
            fee_ledger: self.fee_ledger.duplicate(),
            risk_engine: self.risk_engine.duplicate(),
            journal: duplicate_journal(&self.journal),
        }
    }

    /// Appends the encoding of every table.
    fn write_tables(&self, out: &mut Vec<u8>)
        ensures
            final(out)@ == old(out)@ + ledger_tables_json(self@),
    {
        let ghost v = self@;
        let ghost mut acc: Seq<u8>;
        write_lit("{\"network_id\":", out);
        proof {
            acc = lit("{\"network_id\":");
        }
        self.network_id.write_json(out);
        proof {
            lemma_concat_associative(old(out)@, acc, u32::json(v.network_id));
            acc = acc + u32::json(v.network_id);
        }
        write_lit(",\"assets\":", out);
        proof {
            lemma_concat_associative(old(out)@, acc, lit(",\"assets\":"));
            acc = acc + lit(",\"assets\":");
        }
        self.assets.write_json(out);
        proof {
            lemma_concat_associative(old(out)@, acc, json_map::<AssetConfig>(v.assets));
            acc = acc + json_map::<AssetConfig>(v.assets);
        }
        write_lit(",\"accounts\":", out);
        proof {
            lemma_concat_associative(old(out)@, acc, lit(",\"accounts\":"));
            acc = acc + lit(",\"accounts\":");
        }
        self.accounts.write_json(out);
        proof {
            lemma_concat_associative(old(out)@, acc, json_map::<AccountState>(v.accounts));
            acc = acc + json_map::<AccountState>(v.accounts);
        }
        write_lit(",\"total_supply\":", out);
        proof {
            lemma_concat_associative(old(out)@, acc, lit(",\"total_supply\":"));
            acc = acc + lit(",\"total_supply\":");
        }
        self.total_supply.write_json(out);
        proof {
            lemma_concat_associative(old(out)@, acc, json_map::<Amount>(v.total_supply));
            acc = acc + json_map::<Amount>(v.total_supply);
        }
        write_lit(",\"vaults\":", out);
        proof {
            lemma_concat_associative(old(out)@, acc, lit(",\"vaults\":"));
            acc = acc + lit(",\"vaults\":");
        }
        self.vaults.write_json(out);
        proof {
            lemma_concat_associative(old(out)@, acc, json_map::<VaultState>(v.vaults));
            acc = acc + json_map::<VaultState>(v.vaults);
        }
        write_lit(",\"notes\":", out);
        proof {
            lemma_concat_associative(old(out)@, acc, lit(",\"notes\":"));
            acc = acc + lit(",\"notes\":");
        }
        self.notes.write_json(out);
        proof {
            lemma_concat_associative(old(out)@, acc, json_map::<DeliveryNote>(v.notes));
            acc = acc + json_map::<DeliveryNote>(v.notes);
        }
        write_lit(",\"note_records\":", out);
        proof {
            lemma_concat_associative(old(out)@, acc, lit(",\"note_records\":"));
            acc = acc + lit(",\"note_records\":");
        }
        self.note_records.write_json(out);
        proof {
            lemma_concat_associative(old(out)@, acc, json_map::<NoteRecord>(v.note_records));
            acc = acc + json_map::<NoteRecord>(v.note_records);
        }
        write_lit(",\"processed_tickets\":", out);
        proof {
            lemma_concat_associative(old(out)@, acc, lit(",\"processed_tickets\":"));
            acc = acc + lit(",\"processed_tickets\":");
        }
        write_json_key_set(&self.processed_tickets, out);
        proof {
            lemma_concat_associative(old(out)@, acc, json_key_set(v.processed_tickets));
            acc = acc + json_key_set(v.processed_tickets);
        }
        write_lit(",\"seen_transactions\":", out);
        proof {
            lemma_concat_associative(old(out)@, acc, lit(",\"seen_transactions\":"));
            acc = acc + lit(",\"seen_transactions\":");
        }
        write_json_key_set(&self.seen_transactions, out);
        proof {
            lemma_concat_associative(old(out)@, acc, json_key_set(v.seen_transactions));
            acc = acc + json_key_set(v.seen_transactions);
        }
        write_lit(",\"operators\":", out);
        proof {
            lemma_concat_associative(old(out)@, acc, lit(",\"operators\":"));
            acc = acc + lit(",\"operators\":");
        }
        self.operators.write_json(out);
        proof {
            lemma_concat_associative(old(out)@, acc, OperatorRegistry::json(v.operators));
            acc = acc + OperatorRegistry::json(v.operators);
        }
        write_lit(",\"oracle_book\":", out);
        proof {
            lemma_concat_associative(old(out)@, acc, lit(",\"oracle_book\":"));
            acc = acc + lit(",\"oracle_book\":");
        }
        self.oracle_book.write_json(out);
        proof {
            lemma_concat_associative(old(out)@, acc, OracleBook::json(v.oracle));
            acc = acc + OracleBook::json(v.oracle);
        }
        write_lit(",\"route_book\":", out);
        proof {
            lemma_concat_associative(old(out)@, acc, lit(",\"route_book\":"));
            acc = acc + lit(",\"route_book\":");
        }
        self.route_book.write_json(out);
        proof {
            lemma_concat_associative(old(out)@, acc, RouteBook::json(v.routes));
            acc = acc + RouteBook::json(v.routes);
        }
        write_lit(",\"fee_ledger\":", out);
        proof {
            lemma_concat_associative(old(out)@, acc, lit(",\"fee_ledger\":"));
            acc = acc + lit(",\"fee_ledger\":");
        }
        self.fee_ledger.write_json(out);
        proof {
            lemma_concat_associative(old(out)@, acc, FeeLedger::json(v.fees));
            acc = acc + FeeLedger::json(v.fees);
        }
        write_lit(",\"risk_engine\":", out);
        proof {
            lemma_concat_associative(old(out)@, acc, lit(",\"risk_engine\":"));
            acc = acc + lit(",\"risk_engine\":");
        }
        self.risk_engine.write_json(out);
        proof {
            lemma_concat_associative(old(out)@, acc, RiskEngine::json(v.risk));
            acc = acc + RiskEngine::json(v.risk);
        }
        assert(acc == ledger_tables_json(v)) by {
            reveal(ledger_tables_json);
        }
    }

    fn write_digest_view(&self, out: &mut Vec<u8>)
        ensures
            final(out)@ == old(out)@ + ledger_json(self@),
    {
        self.write_tables(out);
        write_lit(",\"journal_len\":", out);
        self.journal.len().write_json(out);
        write_lit("}", out);
        assert(out@ =~= old(out)@ + ledger_json(self@)) by {
            reveal(ledger_json);
        }
    }

    /// Appends the journal's entries, separated by commas.
    fn write_entries(&self, out: &mut Vec<u8>)
        ensures
            final(out)@ == old(out)@ + json_entry_list(self@.journal),
    {
        let ghost start = out@;
        let mut i: usize = 0;
        while i < self.journal.len()
            invariant
                i <= self@.journal.len(),
                self@.journal == self.journal@,
                start == old(out)@,
                out@ == start + json_entry_list(self@.journal.subrange(0, i as int)),
            decreases self@.journal.len() - i,
        {
            assert(self@.journal.subrange(0, i + 1).drop_last() =~= self@.journal.subrange(0, i as int));
            if i > 0 {
                write_lit(",", out);
            }
            self.journal[i].write_json(out);
            assert(out@ =~= start + json_entry_list(self@.journal.subrange(0, i + 1)));
            i = i + 1;
        }
        assert(self@.journal.subrange(0, i as int) =~= self@.journal);
    }

    pub fn state_digest(&self) -> (r: HorizonResult<Digest>)
        ensures
            r == Ok::<Digest, HorizonError>(Digest(state_digest_bytes(self@))),
    {
        Ok(self.current_digest())
    }

    /// The digest of the ledger as it stands.
    fn current_digest(&self) -> (r: Digest)
        ensures
            r == Digest(state_digest_bytes(self@)),
    {
        let mut bytes: Vec<u8> = Vec::new();
        self.write_digest_view(&mut bytes);
        assert(bytes@ =~= ledger_json(self@));
        let payload: &[u8] = bytes.as_slice();
        let parts: [&[u8]; 1] = [payload];
        proof {
            assert(parts@.map_values(|p: &[u8]| p@) =~= seq![ledger_json(self@)]);
        }
        Digest::from_parts("horizon-ledger-state-v1", &parts)
    }

    fn append_journal(&mut self, tx_id: TxId, op: JournalOp)
        ensures
            final(self)@ == spec_append_journal(old(self)@, tx_id, op),
    {
        let state_digest = self.current_digest();
        let entry = JournalEntry { sequence: self.journal.len() as u64, tx_id, op, state_digest };
        self.journal.push(entry);
    }

    fn account(&self, account: AccountId) -> (r: HorizonResult<&AccountState>)
        ensures
            match get_account(self@, account) {
                Some(a) => r matches Ok(x) && x@ == a,
                None => result_view(r) == Err::<&AccountState, ErrorView>(ErrorView::AccountNotFound(account)),
            },
    {
        match self.accounts.get(&account.0) {
            Some(a) => Ok(a),
            None => Err(HorizonError::AccountNotFound(account)),
        }
    }

    fn asset_config(&self, asset: AssetId) -> (r: HorizonResult<AssetConfig>)
        ensures
            match get_asset(self@, asset) {
                Some(c) => r == Ok::<AssetConfig, HorizonError>(c),
                None => result_view(r) == Err::<AssetConfig, ErrorView>(ErrorView::AssetNotFound(asset)),
            },
    {
        match self.assets.get(&asset.0) {
            Some(c) => Ok(*c),
            None => Err(HorizonError::AssetNotFound(asset)),
        }
    }

    pub fn vault(&self, vault_id: VaultId) -> (r: HorizonResult<&VaultState>)
        ensures
            match get_vault(self@, vault_id) {
                Some(s) => r matches Ok(x) && *x == s,
                None => result_view(r) == Err::<&VaultState, ErrorView>(ErrorView::VaultNotFound(vault_id)),
            },
    {
        match self.vaults.get(&vault_id.0) {
            Some(s) => Ok(s),
            None => Err(HorizonError::VaultNotFound(vault_id)),
        }
    }

    fn credit(&mut self, account: AccountId, asset: AssetId, amount: Amount) -> (r: HorizonResult<()>)
        ensures
            match spec_ledger_credit(old(self)@, account, asset, amount) {
                Ok(v) => r is Ok && final(self)@ == v,
                Err(e) => result_view(r) == Err::<(), ErrorView>(e) && final(self)@ == old(self)@,
            },
    {
        let mut state = self.account(account)?.duplicate();
        state.credit(asset, amount)?;
        self.accounts.insert(account.0, state);
        Ok(())
    }

    fn debit(&mut self, account: AccountId, asset: AssetId, amount: Amount) -> (r: HorizonResult<()>)
        ensures
            match spec_ledger_debit(old(self)@, account, asset, amount) {
                Ok(v) => r is Ok && final(self)@ == v,
                Err(e) => result_view(r) == Err::<(), ErrorView>(e) && final(self)@ == old(self)@,
            },
    {
        let mut state = self.account(account)?.duplicate();
        state.debit(account, asset, amount)?;
        self.accounts.insert(account.0, state);
        Ok(())
    }

    fn verify_conservation(&self, asset: AssetId) -> (r: HorizonResult<()>)
        ensures
            result_view(r) == spec_verify_conservation(self@, asset),
    {
        let n = self.accounts.len();
        let mut account_total = Amount::zero();
        let mut i: usize = 0;
        while i < n
            invariant
                i <= n,
                n == self.accounts@.len(),
                checked_balances(self.accounts@.subrange(0, i as int), asset) == Some(account_total.0),
            decreases n - i,
        {
            let (_, state) = self.accounts.entry_at(i);
            assert(self.accounts@.subrange(0, i + 1).drop_last() =~= self.accounts@.subrange(0, i as int));
            match account_total.checked_add(state.balance_of(asset)) {
                Ok(t) => account_total = t,
                Err(e) => {
                    proof {
                        lemma_checked_balances_none(self.accounts@, asset, i + 1);
                    }
                    return Err(e);
                },
            }
            i = i + 1;
        }
        assert(self.accounts@.subrange(0, n as int) =~= self.accounts@);
        let m = self.vaults.len();
        let mut vault_total = Amount::zero();
        let mut j: usize = 0;
        while j < m
            invariant
                j <= m,
                m == self.vaults@.len(),
                checked_reserves(self.vaults@.subrange(0, j as int), asset) == Some(vault_total.0),
            decreases m - j,
        {
            let (_, vault) = self.vaults.entry_at(j);
            assert(self.vaults@.subrange(0, j + 1).drop_last() =~= self.vaults@.subrange(0, j as int));
            if vault.config.asset == asset {
                match vault_total.checked_add(vault.reserve_balance) {
                    Ok(t) => vault_total = t,
                    Err(e) => {
                        proof {
                            lemma_checked_reserves_none(self.vaults@, asset, j + 1);
                        }
                        return Err(e);
                    },
                }
            }
            j = j + 1;
        }
        assert(self.vaults@.subrange(0, m as int) =~= self.vaults@);
        let observed = account_total.checked_add(vault_total)?;
        let expected = self.total_supply_of(asset);
        if observed.0 != expected.0 {
            return Err(HorizonError::Conservation { asset, expected, observed });
        }
        Ok(())
    }

    pub fn note_count(&self) -> (r: usize)
        ensures
            r == self@.notes.len(),
    {
        self.notes.len()
    }

    pub fn processed_ticket_count(&self) -> (r: usize)
        ensures
            r == self@.processed_tickets.len(),
    {
        self.processed_tickets.len()
    }

    pub fn route_count(&self) -> (r: usize)
        ensures
            r == self@.routes.len(),
    {
        self.route_book.route_count()
    }

    pub fn observation_count(&self) -> (r: usize)
        ensures
            r == self@.oracle.len(),
    {
        self.oracle_book.observation_count()
    }

    pub fn operator_count(&self) -> (r: usize)
        ensures
            r == self@.operators.roles.len(),
    {
        self.operators.operator_count()
    }

    pub fn fee_asset_count(&self) -> (r: usize)
        ensures
            r == self@.fees.accrued.len(),
    {
        self.fee_ledger.accrued_asset_count()
    }

    pub fn journal(&self) -> (r: &[JournalEntry])
        ensures
            r@ == self@.journal,
    {
        self.journal.as_slice()
    }

    /// Whether value is conserved for `asset`: `Ok(true)` when the check
    /// passes, and the check's error otherwise.
    pub fn is_conserved(&self, asset: AssetId) -> (r: HorizonResult<bool>)
        ensures
            match spec_verify_conservation(self@, asset) {
                Ok(()) => r == Ok::<bool, HorizonError>(true),
                Err(e) => result_view(r) == Err::<bool, ErrorView>(e),
            },
            conserved(self@) ==> r == Ok::<bool, HorizonError>(true),
    {
        proof {
            if conserved(self@) {
                crate::ledger::laws::lemma_conserved_passes_check(self@, asset);
            }
        }
        self.verify_conservation(asset)?;
        Ok(true)
    }

    pub fn total_supply_of(&self, asset: AssetId) -> (r: Amount)
        ensures
            r == supply(self@, asset),
    {
        match self.total_supply.get(&asset.0) {
            Some(a) => *a,
            None => Amount::zero(),
        }
    }
}

impl Canonical for HorizonLedger {
    /// Every table, then the journal as a list of its entries.
    open spec fn json(v: LedgerView) -> Seq<u8> {
        ledger_tables_json(v) + lit(",\"journal\":[") + json_entry_list(v.journal) + lit("]}")
    }

    fn write_json(&self, out: &mut Vec<u8>) {
        self.write_tables(out);
        write_lit(",\"journal\":[", out);
        self.write_entries(out);
        write_lit("]}", out);
        assert(out@ =~= old(out)@ + Self::json(self@));
    }
}

proof fn lemma_checked_balances_none(s: Seq<([u8; 32], AccountView)>, asset: AssetId, k: int)
    requires
        0 < k <= s.len(),
        checked_balances(s.subrange(0, k), asset) is None,
    ensures
        checked_balances(s, asset) is None,
    decreases s.len() - k,
{
    if k < s.len() {
        assert(s.subrange(0, k + 1).drop_last() =~= s.subrange(0, k));
        lemma_checked_balances_none(s, asset, k + 1);
    } else {
        assert(s.subrange(0, k) =~= s);
    }
}

proof fn lemma_checked_reserves_none(s: Seq<([u8; 32], VaultState)>, asset: AssetId, k: int)
    requires
        0 < k <= s.len(),
        checked_reserves(s.subrange(0, k), asset) is None,
    ensures
        checked_reserves(s, asset) is None,
    decreases s.len() - k,
{
    if k < s.len() {
        assert(s.subrange(0, k + 1).drop_last() =~= s.subrange(0, k));
        lemma_checked_reserves_none(s, asset, k + 1);
    } else {
        assert(s.subrange(0, k) =~= s);
    }
}

} // verus!
