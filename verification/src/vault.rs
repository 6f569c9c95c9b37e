//! Vaults: reserves that notes are issued against and paid from.
use vstd::prelude::*;
use vstd::seq_lib::lemma_concat_associative;
use vstd::string::StringSliceAdditionalSpecFns;

use crate::amount::{spec_add, spec_sub, Amount, Bps, ShareIndex, INDEX_SCALE};
use crate::bytemap::Duplicate;
use crate::bytes::{decimal, is_digit};
use crate::codec::{json_hex, lemma_split_decimal, lemma_split_fixed, lemma_split_hex, lit, write_lit, Canonical};
use vstd::string::is_ascii_spec_bytes;
use crate::error::{policy, ErrorView, HorizonError, HorizonResult, result_view};
use crate::ids::{parts_digest, vault_id_input, AccountId, AssetId, Digest, NoteId, VaultId};

verus! {

#[derive(Copy, Clone, Debug, Eq, PartialEq)]
pub struct VaultConfig {
    pub vault_id: VaultId,
    pub controller: AccountId,
    pub index_authority: AccountId,
    pub asset: AssetId,
    pub region: u16,
    pub reserve_floor: Amount,
    pub max_locked_bps: Bps,
}

#[derive(Copy, Clone, Debug, Eq, PartialEq)]
pub struct VaultState {
    pub config: VaultConfig,
    pub reserve_balance: Amount,
    pub locked_notional: Amount,
    pub issued_notes: u64,
    pub settled_notes: u64,
    pub share_index: ShareIndex,
}

#[derive(Copy, Clone, Debug, Eq, PartialEq)]
pub struct NoteRecord {
    pub note_id: NoteId,
    pub source_vault: VaultId,
    pub issuer: AccountId,
    pub settled: bool,
}

impl VaultConfig {
    pub fn new(
        controller: AccountId,
        index_authority: AccountId,
        asset: AssetId,
        region: u16,
        reserve_floor: Amount,
        max_locked_bps: Bps,
        salt: Digest,
    ) -> (r: Self)
        ensures
            r.vault_id.0 == parts_digest(
                "horizon-vault-v1".spec_bytes(),
                vault_id_input(controller, asset, region, salt),
            ),
            r.controller == controller,
            r.index_authority == index_authority,
            r.asset == asset,
            r.region == region,
            r.reserve_floor == reserve_floor,
            r.max_locked_bps == max_locked_bps,
    {
        VaultConfig {
            vault_id: VaultId::derive(controller, asset, region, salt),
            controller,
            index_authority,
            asset,
            region,
            reserve_floor,
            max_locked_bps,
        }
    }
}

/// A freshly registered vault: empty, at index one.
pub open spec fn fresh_vault(config: VaultConfig) -> VaultState {
    VaultState {
        config,
        reserve_balance: Amount(0),
        locked_notional: Amount(0),
        issued_notes: 0,
        settled_notes: 0,
        share_index: ShareIndex(INDEX_SCALE),
    }
}

/// Depositing `amount`: refused when zero, an overflow error past the largest amount.
pub open spec fn spec_deposit(v: VaultState, amount: Amount) -> Result<VaultState, ErrorView> {
    if amount.0 == 0 {
        Err(ErrorView::ZeroAmount)
    } else {
        match spec_add(v.reserve_balance, amount) {
            Ok(reserve) => Ok(VaultState { reserve_balance: reserve, ..v }),
            Err(e) => Err(e),
        }
    }
}

/// Whether locking `next_locked` in total stays within the vault's limit:
/// `next_locked * 10_000 / reserve <= max_locked_bps`, never with an empty reserve.
pub open spec fn spec_locked_within_limit(v: VaultState, next_locked: Amount) -> Result<bool, ErrorView> {
    if v.reserve_balance.0 == 0 {
        Ok(false)
    } else if next_locked.0 * 10_000 > u128::MAX {
        Err(ErrorView::AmountOverflow)
    } else {
        Ok((next_locked.0 * 10_000) / (v.reserve_balance.0 as int) <= v.config.max_locked_bps.0)
    }
}

/// Locking `amount` of notional against a vault, with the vault it leaves:
/// where the count of issued notes overflows, the new lock is already recorded.
pub open spec fn spec_lock_notional(v: VaultState, amount: Amount) -> (VaultState, Result<(), ErrorView>) {
    match spec_add(v.locked_notional, amount) {
        Err(e) => (v, Err(e)),
        Ok(next) => match spec_locked_within_limit(v, next) {
            Err(e) => (v, Err(e)),
            Ok(false) => (v, Err(ErrorView::Policy("vault locked notional exceeds limit"@))),
            Ok(true) => {
                let locked = VaultState { locked_notional: next, ..v };
                if v.issued_notes < u64::MAX {
                    (VaultState { issued_notes: (v.issued_notes + 1) as u64, ..locked }, Ok(()))
                } else {
                    (locked, Err(ErrorView::AmountOverflow))
                }
            },
        },
    }
}

/// Releasing `amount` of locked notional once a note is settled: where the
/// count of settled notes overflows, the release is already recorded.
pub open spec fn spec_release_notional(v: VaultState, amount: Amount) -> (VaultState, Result<(), ErrorView>) {
    match spec_sub(v.locked_notional, amount) {
        Err(e) => (v, Err(e)),
        Ok(next) => {
            let released = VaultState { locked_notional: next, ..v };
            if v.settled_notes < u64::MAX {
                (VaultState { settled_notes: (v.settled_notes + 1) as u64, ..released }, Ok(()))
            } else {
                (released, Err(ErrorView::AmountOverflow))
            }
        },
    }
}

/// Paying `amount` out of the reserve, which may not fall below the floor.
pub open spec fn spec_pay(v: VaultState, amount: Amount) -> Result<VaultState, ErrorView> {
    match spec_sub(v.reserve_balance, amount) {
        Err(e) => Err(e),
        Ok(next) => if next.0 < v.config.reserve_floor.0 {
            Err(ErrorView::Policy("vault reserve floor reached"@))
        } else {
            Ok(VaultState { reserve_balance: next, ..v })
        },
    }
}

/// The reserve above the locked notional and the floor.
pub open spec fn spec_surplus(v: VaultState) -> Result<Amount, ErrorView> {
    match spec_add(v.locked_notional, v.config.reserve_floor) {
        Err(e) => Err(e),
        Ok(required) => if v.reserve_balance.0 <= required.0 {
            Ok(Amount(0))
        } else {
            Ok(Amount((v.reserve_balance.0 - required.0) as u128))
        },
    }
}

/// Sweeping `amount` of surplus out of the reserve.
pub open spec fn spec_sweep(v: VaultState, amount: Amount) -> Result<VaultState, ErrorView> {
    match spec_surplus(v) {
        Err(e) => Err(e),
        Ok(surplus) => if amount.0 > surplus.0 {
            Err(ErrorView::Policy("vault surplus is below requested amount"@))
        } else {
            Ok(VaultState { reserve_balance: Amount((v.reserve_balance.0 - amount.0) as u128), ..v })
        },
    }
}

/// A sweep takes nothing from the reserve that backs the locked notional and
/// the floor: after a sweep of a nonzero amount, the reserve still covers both.
pub proof fn lemma_sweep_keeps_backing(v: VaultState, amount: Amount)
    requires
        spec_sweep(v, amount) is Ok,
        amount.0 > 0,
    ensures
        spec_sweep(v, amount)->Ok_0.reserve_balance.0 >= v.locked_notional.0 + v.config.reserve_floor.0,
        spec_sweep(v, amount)->Ok_0.reserve_balance.0 + amount.0 == v.reserve_balance.0,
{
}

/// The keys that follow a number in a vault's encoding, and the closing
/// brace, start with a byte that is not a digit.
proof fn lemma_vault_keys_after_numbers()
    ensures
        lit(",\"reserve_floor\":").len() > 0 && !is_digit(lit(",\"reserve_floor\":")[0]),
        lit(",\"max_locked_bps\":").len() > 0 && !is_digit(lit(",\"max_locked_bps\":")[0]),
        lit("}").len() > 0 && !is_digit(lit("}")[0]),
        lit(",\"reserve_balance\":").len() > 0 && !is_digit(lit(",\"reserve_balance\":")[0]),
        lit(",\"locked_notional\":").len() > 0 && !is_digit(lit(",\"locked_notional\":")[0]),
        lit(",\"issued_notes\":").len() > 0 && !is_digit(lit(",\"issued_notes\":")[0]),
        lit(",\"settled_notes\":").len() > 0 && !is_digit(lit(",\"settled_notes\":")[0]),
        lit(",\"share_index\":").len() > 0 && !is_digit(lit(",\"share_index\":")[0]),
{
    reveal_strlit(",\"reserve_floor\":");
    is_ascii_spec_bytes(",\"reserve_floor\":");
    reveal_strlit(",\"max_locked_bps\":");
    is_ascii_spec_bytes(",\"max_locked_bps\":");
    reveal_strlit("}");
    is_ascii_spec_bytes("}");
    reveal_strlit(",\"reserve_balance\":");
    is_ascii_spec_bytes(",\"reserve_balance\":");
    reveal_strlit(",\"locked_notional\":");
    is_ascii_spec_bytes(",\"locked_notional\":");
    reveal_strlit(",\"issued_notes\":");
    is_ascii_spec_bytes(",\"issued_notes\":");
    reveal_strlit(",\"settled_notes\":");
    is_ascii_spec_bytes(",\"settled_notes\":");
    reveal_strlit(",\"share_index\":");
    is_ascii_spec_bytes(",\"share_index\":");
}

/// A vault configuration is read back from the front of an encoding: its
/// encoding followed by anything determines the configuration and what
/// follows.
pub proof fn lemma_vault_config_json_prefix(a: VaultConfig, x: Seq<u8>, b: VaultConfig, y: Seq<u8>)
    requires
        VaultConfig::json(a) + x == VaultConfig::json(b) + y,
    ensures
        a == b,
        x == y,
{
    lemma_vault_keys_after_numbers();
    assert(VaultConfig::json(a) + x == lit("{\"vault_id\":") + (json_hex(a.vault_id.0@) + (lit(",\"controller\":") + (json_hex(a.controller.0@) + (lit(",\"index_authority\":") + (json_hex(a.index_authority.0@) + (lit(",\"asset\":") + (json_hex(a.asset.0@) + (lit(",\"region\":") + (decimal(a.region as nat) + (lit(",\"reserve_floor\":") + (decimal(a.reserve_floor.0 as nat) + (lit(",\"max_locked_bps\":") + (decimal(a.max_locked_bps.0 as nat) + (lit("}") + x))))))))))))))) by {
        lemma_concat_associative((((((((((((((lit("{\"vault_id\":") + json_hex(a.vault_id.0@)) + lit(",\"controller\":")) + json_hex(a.controller.0@)) + lit(",\"index_authority\":")) + json_hex(a.index_authority.0@)) + lit(",\"asset\":")) + json_hex(a.asset.0@)) + lit(",\"region\":")) + decimal(a.region as nat)) + lit(",\"reserve_floor\":")) + decimal(a.reserve_floor.0 as nat)) + lit(",\"max_locked_bps\":")) + decimal(a.max_locked_bps.0 as nat)), lit("}"), x);
        lemma_concat_associative(((((((((((((lit("{\"vault_id\":") + json_hex(a.vault_id.0@)) + lit(",\"controller\":")) + json_hex(a.controller.0@)) + lit(",\"index_authority\":")) + json_hex(a.index_authority.0@)) + lit(",\"asset\":")) + json_hex(a.asset.0@)) + lit(",\"region\":")) + decimal(a.region as nat)) + lit(",\"reserve_floor\":")) + decimal(a.reserve_floor.0 as nat)) + lit(",\"max_locked_bps\":")), decimal(a.max_locked_bps.0 as nat), (lit("}") + x));
        lemma_concat_associative((((((((((((lit("{\"vault_id\":") + json_hex(a.vault_id.0@)) + lit(",\"controller\":")) + json_hex(a.controller.0@)) + lit(",\"index_authority\":")) + json_hex(a.index_authority.0@)) + lit(",\"asset\":")) + json_hex(a.asset.0@)) + lit(",\"region\":")) + decimal(a.region as nat)) + lit(",\"reserve_floor\":")) + decimal(a.reserve_floor.0 as nat)), lit(",\"max_locked_bps\":"), (decimal(a.max_locked_bps.0 as nat) + (lit("}") + x)));
        lemma_concat_associative(((((((((((lit("{\"vault_id\":") + json_hex(a.vault_id.0@)) + lit(",\"controller\":")) + json_hex(a.controller.0@)) + lit(",\"index_authority\":")) + json_hex(a.index_authority.0@)) + lit(",\"asset\":")) + json_hex(a.asset.0@)) + lit(",\"region\":")) + decimal(a.region as nat)) + lit(",\"reserve_floor\":")), decimal(a.reserve_floor.0 as nat), (lit(",\"max_locked_bps\":") + (decimal(a.max_locked_bps.0 as nat) + (lit("}") + x))));
        lemma_concat_associative((((((((((lit("{\"vault_id\":") + json_hex(a.vault_id.0@)) + lit(",\"controller\":")) + json_hex(a.controller.0@)) + lit(",\"index_authority\":")) + json_hex(a.index_authority.0@)) + lit(",\"asset\":")) + json_hex(a.asset.0@)) + lit(",\"region\":")) + decimal(a.region as nat)), lit(",\"reserve_floor\":"), (decimal(a.reserve_floor.0 as nat) + (lit(",\"max_locked_bps\":") + (decimal(a.max_locked_bps.0 as nat) + (lit("}") + x)))));
        lemma_concat_associative(((((((((lit("{\"vault_id\":") + json_hex(a.vault_id.0@)) + lit(",\"controller\":")) + json_hex(a.controller.0@)) + lit(",\"index_authority\":")) + json_hex(a.index_authority.0@)) + lit(",\"asset\":")) + json_hex(a.asset.0@)) + lit(",\"region\":")), decimal(a.region as nat), (lit(",\"reserve_floor\":") + (decimal(a.reserve_floor.0 as nat) + (lit(",\"max_locked_bps\":") + (decimal(a.max_locked_bps.0 as nat) + (lit("}") + x))))));
        lemma_concat_associative((((((((lit("{\"vault_id\":") + json_hex(a.vault_id.0@)) + lit(",\"controller\":")) + json_hex(a.controller.0@)) + lit(",\"index_authority\":")) + json_hex(a.index_authority.0@)) + lit(",\"asset\":")) + json_hex(a.asset.0@)), lit(",\"region\":"), (decimal(a.region as nat) + (lit(",\"reserve_floor\":") + (decimal(a.reserve_floor.0 as nat) + (lit(",\"max_locked_bps\":") + (decimal(a.max_locked_bps.0 as nat) + (lit("}") + x)))))));
        lemma_concat_associative(((((((lit("{\"vault_id\":") + json_hex(a.vault_id.0@)) + lit(",\"controller\":")) + json_hex(a.controller.0@)) + lit(",\"index_authority\":")) + json_hex(a.index_authority.0@)) + lit(",\"asset\":")), json_hex(a.asset.0@), (lit(",\"region\":") + (decimal(a.region as nat) + (lit(",\"reserve_floor\":") + (decimal(a.reserve_floor.0 as nat) + (lit(",\"max_locked_bps\":") + (decimal(a.max_locked_bps.0 as nat) + (lit("}") + x))))))));
        lemma_concat_associative((((((lit("{\"vault_id\":") + json_hex(a.vault_id.0@)) + lit(",\"controller\":")) + json_hex(a.controller.0@)) + lit(",\"index_authority\":")) + json_hex(a.index_authority.0@)), lit(",\"asset\":"), (json_hex(a.asset.0@) + (lit(",\"region\":") + (decimal(a.region as nat) + (lit(",\"reserve_floor\":") + (decimal(a.reserve_floor.0 as nat) + (lit(",\"max_locked_bps\":") + (decimal(a.max_locked_bps.0 as nat) + (lit("}") + x)))))))));
        lemma_concat_associative(((((lit("{\"vault_id\":") + json_hex(a.vault_id.0@)) + lit(",\"controller\":")) + json_hex(a.controller.0@)) + lit(",\"index_authority\":")), json_hex(a.index_authority.0@), (lit(",\"asset\":") + (json_hex(a.asset.0@) + (lit(",\"region\":") + (decimal(a.region as nat) + (lit(",\"reserve_floor\":") + (decimal(a.reserve_floor.0 as nat) + (lit(",\"max_locked_bps\":") + (decimal(a.max_locked_bps.0 as nat) + (lit("}") + x))))))))));
        lemma_concat_associative((((lit("{\"vault_id\":") + json_hex(a.vault_id.0@)) + lit(",\"controller\":")) + json_hex(a.controller.0@)), lit(",\"index_authority\":"), (json_hex(a.index_authority.0@) + (lit(",\"asset\":") + (json_hex(a.asset.0@) + (lit(",\"region\":") + (decimal(a.region as nat) + (lit(",\"reserve_floor\":") + (decimal(a.reserve_floor.0 as nat) + (lit(",\"max_locked_bps\":") + (decimal(a.max_locked_bps.0 as nat) + (lit("}") + x)))))))))));
        lemma_concat_associative(((lit("{\"vault_id\":") + json_hex(a.vault_id.0@)) + lit(",\"controller\":")), json_hex(a.controller.0@), (lit(",\"index_authority\":") + (json_hex(a.index_authority.0@) + (lit(",\"asset\":") + (json_hex(a.asset.0@) + (lit(",\"region\":") + (decimal(a.region as nat) + (lit(",\"reserve_floor\":") + (decimal(a.reserve_floor.0 as nat) + (lit(",\"max_locked_bps\":") + (decimal(a.max_locked_bps.0 as nat) + (lit("}") + x))))))))))));
        lemma_concat_associative((lit("{\"vault_id\":") + json_hex(a.vault_id.0@)), lit(",\"controller\":"), (json_hex(a.controller.0@) + (lit(",\"index_authority\":") + (json_hex(a.index_authority.0@) + (lit(",\"asset\":") + (json_hex(a.asset.0@) + (lit(",\"region\":") + (decimal(a.region as nat) + (lit(",\"reserve_floor\":") + (decimal(a.reserve_floor.0 as nat) + (lit(",\"max_locked_bps\":") + (decimal(a.max_locked_bps.0 as nat) + (lit("}") + x)))))))))))));
        lemma_concat_associative(lit("{\"vault_id\":"), json_hex(a.vault_id.0@), (lit(",\"controller\":") + (json_hex(a.controller.0@) + (lit(",\"index_authority\":") + (json_hex(a.index_authority.0@) + (lit(",\"asset\":") + (json_hex(a.asset.0@) + (lit(",\"region\":") + (decimal(a.region as nat) + (lit(",\"reserve_floor\":") + (decimal(a.reserve_floor.0 as nat) + (lit(",\"max_locked_bps\":") + (decimal(a.max_locked_bps.0 as nat) + (lit("}") + x))))))))))))));
    }
    assert(VaultConfig::json(b) + y == lit("{\"vault_id\":") + (json_hex(b.vault_id.0@) + (lit(",\"controller\":") + (json_hex(b.controller.0@) + (lit(",\"index_authority\":") + (json_hex(b.index_authority.0@) + (lit(",\"asset\":") + (json_hex(b.asset.0@) + (lit(",\"region\":") + (decimal(b.region as nat) + (lit(",\"reserve_floor\":") + (decimal(b.reserve_floor.0 as nat) + (lit(",\"max_locked_bps\":") + (decimal(b.max_locked_bps.0 as nat) + (lit("}") + y))))))))))))))) by {
        lemma_concat_associative((((((((((((((lit("{\"vault_id\":") + json_hex(b.vault_id.0@)) + lit(",\"controller\":")) + json_hex(b.controller.0@)) + lit(",\"index_authority\":")) + json_hex(b.index_authority.0@)) + lit(",\"asset\":")) + json_hex(b.asset.0@)) + lit(",\"region\":")) + decimal(b.region as nat)) + lit(",\"reserve_floor\":")) + decimal(b.reserve_floor.0 as nat)) + lit(",\"max_locked_bps\":")) + decimal(b.max_locked_bps.0 as nat)), lit("}"), y);
        lemma_concat_associative(((((((((((((lit("{\"vault_id\":") + json_hex(b.vault_id.0@)) + lit(",\"controller\":")) + json_hex(b.controller.0@)) + lit(",\"index_authority\":")) + json_hex(b.index_authority.0@)) + lit(",\"asset\":")) + json_hex(b.asset.0@)) + lit(",\"region\":")) + decimal(b.region as nat)) + lit(",\"reserve_floor\":")) + decimal(b.reserve_floor.0 as nat)) + lit(",\"max_locked_bps\":")), decimal(b.max_locked_bps.0 as nat), (lit("}") + y));
        lemma_concat_associative((((((((((((lit("{\"vault_id\":") + json_hex(b.vault_id.0@)) + lit(",\"controller\":")) + json_hex(b.controller.0@)) + lit(",\"index_authority\":")) + json_hex(b.index_authority.0@)) + lit(",\"asset\":")) + json_hex(b.asset.0@)) + lit(",\"region\":")) + decimal(b.region as nat)) + lit(",\"reserve_floor\":")) + decimal(b.reserve_floor.0 as nat)), lit(",\"max_locked_bps\":"), (decimal(b.max_locked_bps.0 as nat) + (lit("}") + y)));
        lemma_concat_associative(((((((((((lit("{\"vault_id\":") + json_hex(b.vault_id.0@)) + lit(",\"controller\":")) + json_hex(b.controller.0@)) + lit(",\"index_authority\":")) + json_hex(b.index_authority.0@)) + lit(",\"asset\":")) + json_hex(b.asset.0@)) + lit(",\"region\":")) + decimal(b.region as nat)) + lit(",\"reserve_floor\":")), decimal(b.reserve_floor.0 as nat), (lit(",\"max_locked_bps\":") + (decimal(b.max_locked_bps.0 as nat) + (lit("}") + y))));
        lemma_concat_associative((((((((((lit("{\"vault_id\":") + json_hex(b.vault_id.0@)) + lit(",\"controller\":")) + json_hex(b.controller.0@)) + lit(",\"index_authority\":")) + json_hex(b.index_authority.0@)) + lit(",\"asset\":")) + json_hex(b.asset.0@)) + lit(",\"region\":")) + decimal(b.region as nat)), lit(",\"reserve_floor\":"), (decimal(b.reserve_floor.0 as nat) + (lit(",\"max_locked_bps\":") + (decimal(b.max_locked_bps.0 as nat) + (lit("}") + y)))));
        lemma_concat_associative(((((((((lit("{\"vault_id\":") + json_hex(b.vault_id.0@)) + lit(",\"controller\":")) + json_hex(b.controller.0@)) + lit(",\"index_authority\":")) + json_hex(b.index_authority.0@)) + lit(",\"asset\":")) + json_hex(b.asset.0@)) + lit(",\"region\":")), decimal(b.region as nat), (lit(",\"reserve_floor\":") + (decimal(b.reserve_floor.0 as nat) + (lit(",\"max_locked_bps\":") + (decimal(b.max_locked_bps.0 as nat) + (lit("}") + y))))));
        lemma_concat_associative((((((((lit("{\"vault_id\":") + json_hex(b.vault_id.0@)) + lit(",\"controller\":")) + json_hex(b.controller.0@)) + lit(",\"index_authority\":")) + json_hex(b.index_authority.0@)) + lit(",\"asset\":")) + json_hex(b.asset.0@)), lit(",\"region\":"), (decimal(b.region as nat) + (lit(",\"reserve_floor\":") + (decimal(b.reserve_floor.0 as nat) + (lit(",\"max_locked_bps\":") + (decimal(b.max_locked_bps.0 as nat) + (lit("}") + y)))))));
        lemma_concat_associative(((((((lit("{\"vault_id\":") + json_hex(b.vault_id.0@)) + lit(",\"controller\":")) + json_hex(b.controller.0@)) + lit(",\"index_authority\":")) + json_hex(b.index_authority.0@)) + lit(",\"asset\":")), json_hex(b.asset.0@), (lit(",\"region\":") + (decimal(b.region as nat) + (lit(",\"reserve_floor\":") + (decimal(b.reserve_floor.0 as nat) + (lit(",\"max_locked_bps\":") + (decimal(b.max_locked_bps.0 as nat) + (lit("}") + y))))))));
        lemma_concat_associative((((((lit("{\"vault_id\":") + json_hex(b.vault_id.0@)) + lit(",\"controller\":")) + json_hex(b.controller.0@)) + lit(",\"index_authority\":")) + json_hex(b.index_authority.0@)), lit(",\"asset\":"), (json_hex(b.asset.0@) + (lit(",\"region\":") + (decimal(b.region as nat) + (lit(",\"reserve_floor\":") + (decimal(b.reserve_floor.0 as nat) + (lit(",\"max_locked_bps\":") + (decimal(b.max_locked_bps.0 as nat) + (lit("}") + y)))))))));
        lemma_concat_associative(((((lit("{\"vault_id\":") + json_hex(b.vault_id.0@)) + lit(",\"controller\":")) + json_hex(b.controller.0@)) + lit(",\"index_authority\":")), json_hex(b.index_authority.0@), (lit(",\"asset\":") + (json_hex(b.asset.0@) + (lit(",\"region\":") + (decimal(b.region as nat) + (lit(",\"reserve_floor\":") + (decimal(b.reserve_floor.0 as nat) + (lit(",\"max_locked_bps\":") + (decimal(b.max_locked_bps.0 as nat) + (lit("}") + y))))))))));
        lemma_concat_associative((((lit("{\"vault_id\":") + json_hex(b.vault_id.0@)) + lit(",\"controller\":")) + json_hex(b.controller.0@)), lit(",\"index_authority\":"), (json_hex(b.index_authority.0@) + (lit(",\"asset\":") + (json_hex(b.asset.0@) + (lit(",\"region\":") + (decimal(b.region as nat) + (lit(",\"reserve_floor\":") + (decimal(b.reserve_floor.0 as nat) + (lit(",\"max_locked_bps\":") + (decimal(b.max_locked_bps.0 as nat) + (lit("}") + y)))))))))));
        lemma_concat_associative(((lit("{\"vault_id\":") + json_hex(b.vault_id.0@)) + lit(",\"controller\":")), json_hex(b.controller.0@), (lit(",\"index_authority\":") + (json_hex(b.index_authority.0@) + (lit(",\"asset\":") + (json_hex(b.asset.0@) + (lit(",\"region\":") + (decimal(b.region as nat) + (lit(",\"reserve_floor\":") + (decimal(b.reserve_floor.0 as nat) + (lit(",\"max_locked_bps\":") + (decimal(b.max_locked_bps.0 as nat) + (lit("}") + y))))))))))));
        lemma_concat_associative((lit("{\"vault_id\":") + json_hex(b.vault_id.0@)), lit(",\"controller\":"), (json_hex(b.controller.0@) + (lit(",\"index_authority\":") + (json_hex(b.index_authority.0@) + (lit(",\"asset\":") + (json_hex(b.asset.0@) + (lit(",\"region\":") + (decimal(b.region as nat) + (lit(",\"reserve_floor\":") + (decimal(b.reserve_floor.0 as nat) + (lit(",\"max_locked_bps\":") + (decimal(b.max_locked_bps.0 as nat) + (lit("}") + y)))))))))))));
        lemma_concat_associative(lit("{\"vault_id\":"), json_hex(b.vault_id.0@), (lit(",\"controller\":") + (json_hex(b.controller.0@) + (lit(",\"index_authority\":") + (json_hex(b.index_authority.0@) + (lit(",\"asset\":") + (json_hex(b.asset.0@) + (lit(",\"region\":") + (decimal(b.region as nat) + (lit(",\"reserve_floor\":") + (decimal(b.reserve_floor.0 as nat) + (lit(",\"max_locked_bps\":") + (decimal(b.max_locked_bps.0 as nat) + (lit("}") + y))))))))))))));
    }
    lemma_split_fixed(lit("{\"vault_id\":"), (json_hex(a.vault_id.0@) + (lit(",\"controller\":") + (json_hex(a.controller.0@) + (lit(",\"index_authority\":") + (json_hex(a.index_authority.0@) + (lit(",\"asset\":") + (json_hex(a.asset.0@) + (lit(",\"region\":") + (decimal(a.region as nat) + (lit(",\"reserve_floor\":") + (decimal(a.reserve_floor.0 as nat) + (lit(",\"max_locked_bps\":") + (decimal(a.max_locked_bps.0 as nat) + (lit("}") + x)))))))))))))), lit("{\"vault_id\":"), (json_hex(b.vault_id.0@) + (lit(",\"controller\":") + (json_hex(b.controller.0@) + (lit(",\"index_authority\":") + (json_hex(b.index_authority.0@) + (lit(",\"asset\":") + (json_hex(b.asset.0@) + (lit(",\"region\":") + (decimal(b.region as nat) + (lit(",\"reserve_floor\":") + (decimal(b.reserve_floor.0 as nat) + (lit(",\"max_locked_bps\":") + (decimal(b.max_locked_bps.0 as nat) + (lit("}") + y)))))))))))))));
    lemma_split_hex(a.vault_id.0, (lit(",\"controller\":") + (json_hex(a.controller.0@) + (lit(",\"index_authority\":") + (json_hex(a.index_authority.0@) + (lit(",\"asset\":") + (json_hex(a.asset.0@) + (lit(",\"region\":") + (decimal(a.region as nat) + (lit(",\"reserve_floor\":") + (decimal(a.reserve_floor.0 as nat) + (lit(",\"max_locked_bps\":") + (decimal(a.max_locked_bps.0 as nat) + (lit("}") + x))))))))))))), b.vault_id.0, (lit(",\"controller\":") + (json_hex(b.controller.0@) + (lit(",\"index_authority\":") + (json_hex(b.index_authority.0@) + (lit(",\"asset\":") + (json_hex(b.asset.0@) + (lit(",\"region\":") + (decimal(b.region as nat) + (lit(",\"reserve_floor\":") + (decimal(b.reserve_floor.0 as nat) + (lit(",\"max_locked_bps\":") + (decimal(b.max_locked_bps.0 as nat) + (lit("}") + y))))))))))))));
    lemma_split_fixed(lit(",\"controller\":"), (json_hex(a.controller.0@) + (lit(",\"index_authority\":") + (json_hex(a.index_authority.0@) + (lit(",\"asset\":") + (json_hex(a.asset.0@) + (lit(",\"region\":") + (decimal(a.region as nat) + (lit(",\"reserve_floor\":") + (decimal(a.reserve_floor.0 as nat) + (lit(",\"max_locked_bps\":") + (decimal(a.max_locked_bps.0 as nat) + (lit("}") + x)))))))))))), lit(",\"controller\":"), (json_hex(b.controller.0@) + (lit(",\"index_authority\":") + (json_hex(b.index_authority.0@) + (lit(",\"asset\":") + (json_hex(b.asset.0@) + (lit(",\"region\":") + (decimal(b.region as nat) + (lit(",\"reserve_floor\":") + (decimal(b.reserve_floor.0 as nat) + (lit(",\"max_locked_bps\":") + (decimal(b.max_locked_bps.0 as nat) + (lit("}") + y)))))))))))));
    lemma_split_hex(a.controller.0, (lit(",\"index_authority\":") + (json_hex(a.index_authority.0@) + (lit(",\"asset\":") + (json_hex(a.asset.0@) + (lit(",\"region\":") + (decimal(a.region as nat) + (lit(",\"reserve_floor\":") + (decimal(a.reserve_floor.0 as nat) + (lit(",\"max_locked_bps\":") + (decimal(a.max_locked_bps.0 as nat) + (lit("}") + x))))))))))), b.controller.0, (lit(",\"index_authority\":") + (json_hex(b.index_authority.0@) + (lit(",\"asset\":") + (json_hex(b.asset.0@) + (lit(",\"region\":") + (decimal(b.region as nat) + (lit(",\"reserve_floor\":") + (decimal(b.reserve_floor.0 as nat) + (lit(",\"max_locked_bps\":") + (decimal(b.max_locked_bps.0 as nat) + (lit("}") + y))))))))))));
    lemma_split_fixed(lit(",\"index_authority\":"), (json_hex(a.index_authority.0@) + (lit(",\"asset\":") + (json_hex(a.asset.0@) + (lit(",\"region\":") + (decimal(a.region as nat) + (lit(",\"reserve_floor\":") + (decimal(a.reserve_floor.0 as nat) + (lit(",\"max_locked_bps\":") + (decimal(a.max_locked_bps.0 as nat) + (lit("}") + x)))))))))), lit(",\"index_authority\":"), (json_hex(b.index_authority.0@) + (lit(",\"asset\":") + (json_hex(b.asset.0@) + (lit(",\"region\":") + (decimal(b.region as nat) + (lit(",\"reserve_floor\":") + (decimal(b.reserve_floor.0 as nat) + (lit(",\"max_locked_bps\":") + (decimal(b.max_locked_bps.0 as nat) + (lit("}") + y)))))))))));
    lemma_split_hex(a.index_authority.0, (lit(",\"asset\":") + (json_hex(a.asset.0@) + (lit(",\"region\":") + (decimal(a.region as nat) + (lit(",\"reserve_floor\":") + (decimal(a.reserve_floor.0 as nat) + (lit(",\"max_locked_bps\":") + (decimal(a.max_locked_bps.0 as nat) + (lit("}") + x))))))))), b.index_authority.0, (lit(",\"asset\":") + (json_hex(b.asset.0@) + (lit(",\"region\":") + (decimal(b.region as nat) + (lit(",\"reserve_floor\":") + (decimal(b.reserve_floor.0 as nat) + (lit(",\"max_locked_bps\":") + (decimal(b.max_locked_bps.0 as nat) + (lit("}") + y))))))))));
    lemma_split_fixed(lit(",\"asset\":"), (json_hex(a.asset.0@) + (lit(",\"region\":") + (decimal(a.region as nat) + (lit(",\"reserve_floor\":") + (decimal(a.reserve_floor.0 as nat) + (lit(",\"max_locked_bps\":") + (decimal(a.max_locked_bps.0 as nat) + (lit("}") + x)))))))), lit(",\"asset\":"), (json_hex(b.asset.0@) + (lit(",\"region\":") + (decimal(b.region as nat) + (lit(",\"reserve_floor\":") + (decimal(b.reserve_floor.0 as nat) + (lit(",\"max_locked_bps\":") + (decimal(b.max_locked_bps.0 as nat) + (lit("}") + y)))))))));
    lemma_split_hex(a.asset.0, (lit(",\"region\":") + (decimal(a.region as nat) + (lit(",\"reserve_floor\":") + (decimal(a.reserve_floor.0 as nat) + (lit(",\"max_locked_bps\":") + (decimal(a.max_locked_bps.0 as nat) + (lit("}") + x))))))), b.asset.0, (lit(",\"region\":") + (decimal(b.region as nat) + (lit(",\"reserve_floor\":") + (decimal(b.reserve_floor.0 as nat) + (lit(",\"max_locked_bps\":") + (decimal(b.max_locked_bps.0 as nat) + (lit("}") + y))))))));
    lemma_split_fixed(lit(",\"region\":"), (decimal(a.region as nat) + (lit(",\"reserve_floor\":") + (decimal(a.reserve_floor.0 as nat) + (lit(",\"max_locked_bps\":") + (decimal(a.max_locked_bps.0 as nat) + (lit("}") + x)))))), lit(",\"region\":"), (decimal(b.region as nat) + (lit(",\"reserve_floor\":") + (decimal(b.reserve_floor.0 as nat) + (lit(",\"max_locked_bps\":") + (decimal(b.max_locked_bps.0 as nat) + (lit("}") + y)))))));
    lemma_split_decimal(a.region as nat, (lit(",\"reserve_floor\":") + (decimal(a.reserve_floor.0 as nat) + (lit(",\"max_locked_bps\":") + (decimal(a.max_locked_bps.0 as nat) + (lit("}") + x))))), b.region as nat, (lit(",\"reserve_floor\":") + (decimal(b.reserve_floor.0 as nat) + (lit(",\"max_locked_bps\":") + (decimal(b.max_locked_bps.0 as nat) + (lit("}") + y))))));
    lemma_split_fixed(lit(",\"reserve_floor\":"), (decimal(a.reserve_floor.0 as nat) + (lit(",\"max_locked_bps\":") + (decimal(a.max_locked_bps.0 as nat) + (lit("}") + x)))), lit(",\"reserve_floor\":"), (decimal(b.reserve_floor.0 as nat) + (lit(",\"max_locked_bps\":") + (decimal(b.max_locked_bps.0 as nat) + (lit("}") + y)))));
    lemma_split_decimal(a.reserve_floor.0 as nat, (lit(",\"max_locked_bps\":") + (decimal(a.max_locked_bps.0 as nat) + (lit("}") + x))), b.reserve_floor.0 as nat, (lit(",\"max_locked_bps\":") + (decimal(b.max_locked_bps.0 as nat) + (lit("}") + y))));
    lemma_split_fixed(lit(",\"max_locked_bps\":"), (decimal(a.max_locked_bps.0 as nat) + (lit("}") + x)), lit(",\"max_locked_bps\":"), (decimal(b.max_locked_bps.0 as nat) + (lit("}") + y)));
    lemma_split_decimal(a.max_locked_bps.0 as nat, (lit("}") + x), b.max_locked_bps.0 as nat, (lit("}") + y));
    lemma_split_fixed(lit("}"), x, lit("}"), y);
}

/// The canonical encoding of a vault state determines the vault state: two
/// states with one encoding are one state, every field included.
pub proof fn lemma_vault_state_json_injective(a: VaultState, b: VaultState)
    requires
        VaultState::json(a) == VaultState::json(b),
    ensures
        a == b,
{
    lemma_vault_keys_after_numbers();
    assert(VaultState::json(a) == lit("{\"config\":") + (VaultConfig::json(a.config) + (lit(",\"reserve_balance\":") + (decimal(a.reserve_balance.0 as nat) + (lit(",\"locked_notional\":") + (decimal(a.locked_notional.0 as nat) + (lit(",\"issued_notes\":") + (decimal(a.issued_notes as nat) + (lit(",\"settled_notes\":") + (decimal(a.settled_notes as nat) + (lit(",\"share_index\":") + (decimal(a.share_index.0 as nat) + lit("}"))))))))))))) by {
        lemma_concat_associative(((((((((((lit("{\"config\":") + VaultConfig::json(a.config)) + lit(",\"reserve_balance\":")) + decimal(a.reserve_balance.0 as nat)) + lit(",\"locked_notional\":")) + decimal(a.locked_notional.0 as nat)) + lit(",\"issued_notes\":")) + decimal(a.issued_notes as nat)) + lit(",\"settled_notes\":")) + decimal(a.settled_notes as nat)) + lit(",\"share_index\":")), decimal(a.share_index.0 as nat), lit("}"));
        lemma_concat_associative((((((((((lit("{\"config\":") + VaultConfig::json(a.config)) + lit(",\"reserve_balance\":")) + decimal(a.reserve_balance.0 as nat)) + lit(",\"locked_notional\":")) + decimal(a.locked_notional.0 as nat)) + lit(",\"issued_notes\":")) + decimal(a.issued_notes as nat)) + lit(",\"settled_notes\":")) + decimal(a.settled_notes as nat)), lit(",\"share_index\":"), (decimal(a.share_index.0 as nat) + lit("}")));
        lemma_concat_associative(((((((((lit("{\"config\":") + VaultConfig::json(a.config)) + lit(",\"reserve_balance\":")) + decimal(a.reserve_balance.0 as nat)) + lit(",\"locked_notional\":")) + decimal(a.locked_notional.0 as nat)) + lit(",\"issued_notes\":")) + decimal(a.issued_notes as nat)) + lit(",\"settled_notes\":")), decimal(a.settled_notes as nat), (lit(",\"share_index\":") + (decimal(a.share_index.0 as nat) + lit("}"))));
        lemma_concat_associative((((((((lit("{\"config\":") + VaultConfig::json(a.config)) + lit(",\"reserve_balance\":")) + decimal(a.reserve_balance.0 as nat)) + lit(",\"locked_notional\":")) + decimal(a.locked_notional.0 as nat)) + lit(",\"issued_notes\":")) + decimal(a.issued_notes as nat)), lit(",\"settled_notes\":"), (decimal(a.settled_notes as nat) + (lit(",\"share_index\":") + (decimal(a.share_index.0 as nat) + lit("}")))));
        lemma_concat_associative(((((((lit("{\"config\":") + VaultConfig::json(a.config)) + lit(",\"reserve_balance\":")) + decimal(a.reserve_balance.0 as nat)) + lit(",\"locked_notional\":")) + decimal(a.locked_notional.0 as nat)) + lit(",\"issued_notes\":")), decimal(a.issued_notes as nat), (lit(",\"settled_notes\":") + (decimal(a.settled_notes as nat) + (lit(",\"share_index\":") + (decimal(a.share_index.0 as nat) + lit("}"))))));
        lemma_concat_associative((((((lit("{\"config\":") + VaultConfig::json(a.config)) + lit(",\"reserve_balance\":")) + decimal(a.reserve_balance.0 as nat)) + lit(",\"locked_notional\":")) + decimal(a.locked_notional.0 as nat)), lit(",\"issued_notes\":"), (decimal(a.issued_notes as nat) + (lit(",\"settled_notes\":") + (decimal(a.settled_notes as nat) + (lit(",\"share_index\":") + (decimal(a.share_index.0 as nat) + lit("}")))))));
        lemma_concat_associative(((((lit("{\"config\":") + VaultConfig::json(a.config)) + lit(",\"reserve_balance\":")) + decimal(a.reserve_balance.0 as nat)) + lit(",\"locked_notional\":")), decimal(a.locked_notional.0 as nat), (lit(",\"issued_notes\":") + (decimal(a.issued_notes as nat) + (lit(",\"settled_notes\":") + (decimal(a.settled_notes as nat) + (lit(",\"share_index\":") + (decimal(a.share_index.0 as nat) + lit("}"))))))));
        lemma_concat_associative((((lit("{\"config\":") + VaultConfig::json(a.config)) + lit(",\"reserve_balance\":")) + decimal(a.reserve_balance.0 as nat)), lit(",\"locked_notional\":"), (decimal(a.locked_notional.0 as nat) + (lit(",\"issued_notes\":") + (decimal(a.issued_notes as nat) + (lit(",\"settled_notes\":") + (decimal(a.settled_notes as nat) + (lit(",\"share_index\":") + (decimal(a.share_index.0 as nat) + lit("}")))))))));
        lemma_concat_associative(((lit("{\"config\":") + VaultConfig::json(a.config)) + lit(",\"reserve_balance\":")), decimal(a.reserve_balance.0 as nat), (lit(",\"locked_notional\":") + (decimal(a.locked_notional.0 as nat) + (lit(",\"issued_notes\":") + (decimal(a.issued_notes as nat) + (lit(",\"settled_notes\":") + (decimal(a.settled_notes as nat) + (lit(",\"share_index\":") + (decimal(a.share_index.0 as nat) + lit("}"))))))))));
        lemma_concat_associative((lit("{\"config\":") + VaultConfig::json(a.config)), lit(",\"reserve_balance\":"), (decimal(a.reserve_balance.0 as nat) + (lit(",\"locked_notional\":") + (decimal(a.locked_notional.0 as nat) + (lit(",\"issued_notes\":") + (decimal(a.issued_notes as nat) + (lit(",\"settled_notes\":") + (decimal(a.settled_notes as nat) + (lit(",\"share_index\":") + (decimal(a.share_index.0 as nat) + lit("}")))))))))));
        lemma_concat_associative(lit("{\"config\":"), VaultConfig::json(a.config), (lit(",\"reserve_balance\":") + (decimal(a.reserve_balance.0 as nat) + (lit(",\"locked_notional\":") + (decimal(a.locked_notional.0 as nat) + (lit(",\"issued_notes\":") + (decimal(a.issued_notes as nat) + (lit(",\"settled_notes\":") + (decimal(a.settled_notes as nat) + (lit(",\"share_index\":") + (decimal(a.share_index.0 as nat) + lit("}"))))))))))));
    }
    assert(VaultState::json(b) == lit("{\"config\":") + (VaultConfig::json(b.config) + (lit(",\"reserve_balance\":") + (decimal(b.reserve_balance.0 as nat) + (lit(",\"locked_notional\":") + (decimal(b.locked_notional.0 as nat) + (lit(",\"issued_notes\":") + (decimal(b.issued_notes as nat) + (lit(",\"settled_notes\":") + (decimal(b.settled_notes as nat) + (lit(",\"share_index\":") + (decimal(b.share_index.0 as nat) + lit("}"))))))))))))) by {
        lemma_concat_associative(((((((((((lit("{\"config\":") + VaultConfig::json(b.config)) + lit(",\"reserve_balance\":")) + decimal(b.reserve_balance.0 as nat)) + lit(",\"locked_notional\":")) + decimal(b.locked_notional.0 as nat)) + lit(",\"issued_notes\":")) + decimal(b.issued_notes as nat)) + lit(",\"settled_notes\":")) + decimal(b.settled_notes as nat)) + lit(",\"share_index\":")), decimal(b.share_index.0 as nat), lit("}"));
        lemma_concat_associative((((((((((lit("{\"config\":") + VaultConfig::json(b.config)) + lit(",\"reserve_balance\":")) + decimal(b.reserve_balance.0 as nat)) + lit(",\"locked_notional\":")) + decimal(b.locked_notional.0 as nat)) + lit(",\"issued_notes\":")) + decimal(b.issued_notes as nat)) + lit(",\"settled_notes\":")) + decimal(b.settled_notes as nat)), lit(",\"share_index\":"), (decimal(b.share_index.0 as nat) + lit("}")));
        lemma_concat_associative(((((((((lit("{\"config\":") + VaultConfig::json(b.config)) + lit(",\"reserve_balance\":")) + decimal(b.reserve_balance.0 as nat)) + lit(",\"locked_notional\":")) + decimal(b.locked_notional.0 as nat)) + lit(",\"issued_notes\":")) + decimal(b.issued_notes as nat)) + lit(",\"settled_notes\":")), decimal(b.settled_notes as nat), (lit(",\"share_index\":") + (decimal(b.share_index.0 as nat) + lit("}"))));
        lemma_concat_associative((((((((lit("{\"config\":") + VaultConfig::json(b.config)) + lit(",\"reserve_balance\":")) + decimal(b.reserve_balance.0 as nat)) + lit(",\"locked_notional\":")) + decimal(b.locked_notional.0 as nat)) + lit(",\"issued_notes\":")) + decimal(b.issued_notes as nat)), lit(",\"settled_notes\":"), (decimal(b.settled_notes as nat) + (lit(",\"share_index\":") + (decimal(b.share_index.0 as nat) + lit("}")))));
        lemma_concat_associative(((((((lit("{\"config\":") + VaultConfig::json(b.config)) + lit(",\"reserve_balance\":")) + decimal(b.reserve_balance.0 as nat)) + lit(",\"locked_notional\":")) + decimal(b.locked_notional.0 as nat)) + lit(",\"issued_notes\":")), decimal(b.issued_notes as nat), (lit(",\"settled_notes\":") + (decimal(b.settled_notes as nat) + (lit(",\"share_index\":") + (decimal(b.share_index.0 as nat) + lit("}"))))));
        lemma_concat_associative((((((lit("{\"config\":") + VaultConfig::json(b.config)) + lit(",\"reserve_balance\":")) + decimal(b.reserve_balance.0 as nat)) + lit(",\"locked_notional\":")) + decimal(b.locked_notional.0 as nat)), lit(",\"issued_notes\":"), (decimal(b.issued_notes as nat) + (lit(",\"settled_notes\":") + (decimal(b.settled_notes as nat) + (lit(",\"share_index\":") + (decimal(b.share_index.0 as nat) + lit("}")))))));
        lemma_concat_associative(((((lit("{\"config\":") + VaultConfig::json(b.config)) + lit(",\"reserve_balance\":")) + decimal(b.reserve_balance.0 as nat)) + lit(",\"locked_notional\":")), decimal(b.locked_notional.0 as nat), (lit(",\"issued_notes\":") + (decimal(b.issued_notes as nat) + (lit(",\"settled_notes\":") + (decimal(b.settled_notes as nat) + (lit(",\"share_index\":") + (decimal(b.share_index.0 as nat) + lit("}"))))))));
        lemma_concat_associative((((lit("{\"config\":") + VaultConfig::json(b.config)) + lit(",\"reserve_balance\":")) + decimal(b.reserve_balance.0 as nat)), lit(",\"locked_notional\":"), (decimal(b.locked_notional.0 as nat) + (lit(",\"issued_notes\":") + (decimal(b.issued_notes as nat) + (lit(",\"settled_notes\":") + (decimal(b.settled_notes as nat) + (lit(",\"share_index\":") + (decimal(b.share_index.0 as nat) + lit("}")))))))));
        lemma_concat_associative(((lit("{\"config\":") + VaultConfig::json(b.config)) + lit(",\"reserve_balance\":")), decimal(b.reserve_balance.0 as nat), (lit(",\"locked_notional\":") + (decimal(b.locked_notional.0 as nat) + (lit(",\"issued_notes\":") + (decimal(b.issued_notes as nat) + (lit(",\"settled_notes\":") + (decimal(b.settled_notes as nat) + (lit(",\"share_index\":") + (decimal(b.share_index.0 as nat) + lit("}"))))))))));
        lemma_concat_associative((lit("{\"config\":") + VaultConfig::json(b.config)), lit(",\"reserve_balance\":"), (decimal(b.reserve_balance.0 as nat) + (lit(",\"locked_notional\":") + (decimal(b.locked_notional.0 as nat) + (lit(",\"issued_notes\":") + (decimal(b.issued_notes as nat) + (lit(",\"settled_notes\":") + (decimal(b.settled_notes as nat) + (lit(",\"share_index\":") + (decimal(b.share_index.0 as nat) + lit("}")))))))))));
        lemma_concat_associative(lit("{\"config\":"), VaultConfig::json(b.config), (lit(",\"reserve_balance\":") + (decimal(b.reserve_balance.0 as nat) + (lit(",\"locked_notional\":") + (decimal(b.locked_notional.0 as nat) + (lit(",\"issued_notes\":") + (decimal(b.issued_notes as nat) + (lit(",\"settled_notes\":") + (decimal(b.settled_notes as nat) + (lit(",\"share_index\":") + (decimal(b.share_index.0 as nat) + lit("}"))))))))))));
    }
    lemma_split_fixed(lit("{\"config\":"), (VaultConfig::json(a.config) + (lit(",\"reserve_balance\":") + (decimal(a.reserve_balance.0 as nat) + (lit(",\"locked_notional\":") + (decimal(a.locked_notional.0 as nat) + (lit(",\"issued_notes\":") + (decimal(a.issued_notes as nat) + (lit(",\"settled_notes\":") + (decimal(a.settled_notes as nat) + (lit(",\"share_index\":") + (decimal(a.share_index.0 as nat) + lit("}")))))))))))), lit("{\"config\":"), (VaultConfig::json(b.config) + (lit(",\"reserve_balance\":") + (decimal(b.reserve_balance.0 as nat) + (lit(",\"locked_notional\":") + (decimal(b.locked_notional.0 as nat) + (lit(",\"issued_notes\":") + (decimal(b.issued_notes as nat) + (lit(",\"settled_notes\":") + (decimal(b.settled_notes as nat) + (lit(",\"share_index\":") + (decimal(b.share_index.0 as nat) + lit("}")))))))))))));
    lemma_vault_config_json_prefix(a.config, (lit(",\"reserve_balance\":") + (decimal(a.reserve_balance.0 as nat) + (lit(",\"locked_notional\":") + (decimal(a.locked_notional.0 as nat) + (lit(",\"issued_notes\":") + (decimal(a.issued_notes as nat) + (lit(",\"settled_notes\":") + (decimal(a.settled_notes as nat) + (lit(",\"share_index\":") + (decimal(a.share_index.0 as nat) + lit("}"))))))))))), b.config, (lit(",\"reserve_balance\":") + (decimal(b.reserve_balance.0 as nat) + (lit(",\"locked_notional\":") + (decimal(b.locked_notional.0 as nat) + (lit(",\"issued_notes\":") + (decimal(b.issued_notes as nat) + (lit(",\"settled_notes\":") + (decimal(b.settled_notes as nat) + (lit(",\"share_index\":") + (decimal(b.share_index.0 as nat) + lit("}"))))))))))));
    lemma_split_fixed(lit(",\"reserve_balance\":"), (decimal(a.reserve_balance.0 as nat) + (lit(",\"locked_notional\":") + (decimal(a.locked_notional.0 as nat) + (lit(",\"issued_notes\":") + (decimal(a.issued_notes as nat) + (lit(",\"settled_notes\":") + (decimal(a.settled_notes as nat) + (lit(",\"share_index\":") + (decimal(a.share_index.0 as nat) + lit("}")))))))))), lit(",\"reserve_balance\":"), (decimal(b.reserve_balance.0 as nat) + (lit(",\"locked_notional\":") + (decimal(b.locked_notional.0 as nat) + (lit(",\"issued_notes\":") + (decimal(b.issued_notes as nat) + (lit(",\"settled_notes\":") + (decimal(b.settled_notes as nat) + (lit(",\"share_index\":") + (decimal(b.share_index.0 as nat) + lit("}")))))))))));
    lemma_split_decimal(a.reserve_balance.0 as nat, (lit(",\"locked_notional\":") + (decimal(a.locked_notional.0 as nat) + (lit(",\"issued_notes\":") + (decimal(a.issued_notes as nat) + (lit(",\"settled_notes\":") + (decimal(a.settled_notes as nat) + (lit(",\"share_index\":") + (decimal(a.share_index.0 as nat) + lit("}"))))))))), b.reserve_balance.0 as nat, (lit(",\"locked_notional\":") + (decimal(b.locked_notional.0 as nat) + (lit(",\"issued_notes\":") + (decimal(b.issued_notes as nat) + (lit(",\"settled_notes\":") + (decimal(b.settled_notes as nat) + (lit(",\"share_index\":") + (decimal(b.share_index.0 as nat) + lit("}"))))))))));
    lemma_split_fixed(lit(",\"locked_notional\":"), (decimal(a.locked_notional.0 as nat) + (lit(",\"issued_notes\":") + (decimal(a.issued_notes as nat) + (lit(",\"settled_notes\":") + (decimal(a.settled_notes as nat) + (lit(",\"share_index\":") + (decimal(a.share_index.0 as nat) + lit("}")))))))), lit(",\"locked_notional\":"), (decimal(b.locked_notional.0 as nat) + (lit(",\"issued_notes\":") + (decimal(b.issued_notes as nat) + (lit(",\"settled_notes\":") + (decimal(b.settled_notes as nat) + (lit(",\"share_index\":") + (decimal(b.share_index.0 as nat) + lit("}")))))))));
    lemma_split_decimal(a.locked_notional.0 as nat, (lit(",\"issued_notes\":") + (decimal(a.issued_notes as nat) + (lit(",\"settled_notes\":") + (decimal(a.settled_notes as nat) + (lit(",\"share_index\":") + (decimal(a.share_index.0 as nat) + lit("}"))))))), b.locked_notional.0 as nat, (lit(",\"issued_notes\":") + (decimal(b.issued_notes as nat) + (lit(",\"settled_notes\":") + (decimal(b.settled_notes as nat) + (lit(",\"share_index\":") + (decimal(b.share_index.0 as nat) + lit("}"))))))));
    lemma_split_fixed(lit(",\"issued_notes\":"), (decimal(a.issued_notes as nat) + (lit(",\"settled_notes\":") + (decimal(a.settled_notes as nat) + (lit(",\"share_index\":") + (decimal(a.share_index.0 as nat) + lit("}")))))), lit(",\"issued_notes\":"), (decimal(b.issued_notes as nat) + (lit(",\"settled_notes\":") + (decimal(b.settled_notes as nat) + (lit(",\"share_index\":") + (decimal(b.share_index.0 as nat) + lit("}")))))));
    lemma_split_decimal(a.issued_notes as nat, (lit(",\"settled_notes\":") + (decimal(a.settled_notes as nat) + (lit(",\"share_index\":") + (decimal(a.share_index.0 as nat) + lit("}"))))), b.issued_notes as nat, (lit(",\"settled_notes\":") + (decimal(b.settled_notes as nat) + (lit(",\"share_index\":") + (decimal(b.share_index.0 as nat) + lit("}"))))));
    lemma_split_fixed(lit(",\"settled_notes\":"), (decimal(a.settled_notes as nat) + (lit(",\"share_index\":") + (decimal(a.share_index.0 as nat) + lit("}")))), lit(",\"settled_notes\":"), (decimal(b.settled_notes as nat) + (lit(",\"share_index\":") + (decimal(b.share_index.0 as nat) + lit("}")))));
    lemma_split_decimal(a.settled_notes as nat, (lit(",\"share_index\":") + (decimal(a.share_index.0 as nat) + lit("}"))), b.settled_notes as nat, (lit(",\"share_index\":") + (decimal(b.share_index.0 as nat) + lit("}"))));
    lemma_split_fixed(lit(",\"share_index\":"), (decimal(a.share_index.0 as nat) + lit("}")), lit(",\"share_index\":"), (decimal(b.share_index.0 as nat) + lit("}")));
    lemma_split_decimal(a.share_index.0 as nat, lit("}"), b.share_index.0 as nat, lit("}"));
}

/// The vault left by an operation that succeeds or changes nothing.
pub open spec fn state_after(v: VaultState, r: Result<VaultState, ErrorView>) -> VaultState {
    match r {
        Ok(next) => next,
        Err(_) => v,
    }
}

/// The outcome of an operation, without the vault it leaves.
pub open spec fn outcome_of(r: Result<VaultState, ErrorView>) -> Result<(), ErrorView> {
    match r {
        Ok(_) => Ok(()),
        Err(e) => Err(e),
    }
}

impl VaultState {
    pub fn new(config: VaultConfig) -> (r: Self)
        ensures
            r == fresh_vault(config),
    {
        VaultState {
            config,
            reserve_balance: Amount::zero(),
            locked_notional: Amount::zero(),
            issued_notes: 0,
            settled_notes: 0,
            share_index: ShareIndex::one(),
        }
    }

    pub fn deposit(&mut self, amount: Amount) -> (r: HorizonResult<()>)
        ensures
            *final(self) == state_after(*old(self), spec_deposit(*old(self), amount)),
            result_view(r) == outcome_of(spec_deposit(*old(self), amount)),
    {
        if amount.is_zero() {
            return Err(HorizonError::ZeroAmount);
        }
        self.reserve_balance = self.reserve_balance.checked_add(amount)?;
        Ok(())
    }

    pub fn lock_notional(&mut self, amount: Amount) -> (r: HorizonResult<()>)
        ensures
            (*final(self), result_view(r)) == spec_lock_notional(*old(self), amount),
    {
        let next_locked = self.locked_notional.checked_add(amount)?;
        if !self.locked_within_limit(next_locked)? {
            return Err(policy("vault locked notional exceeds limit"));
        }
        self.locked_notional = next_locked;
        if self.issued_notes == u64::MAX {
            return Err(HorizonError::AmountOverflow);
        }
        self.issued_notes = self.issued_notes + 1;
        Ok(())
    }

    pub fn release_notional(&mut self, amount: Amount) -> (r: HorizonResult<()>)
        ensures
            (*final(self), result_view(r)) == spec_release_notional(*old(self), amount),
    {
        self.locked_notional = self.locked_notional.checked_sub(amount)?;
        if self.settled_notes == u64::MAX {
            return Err(HorizonError::AmountOverflow);
        }
        self.settled_notes = self.settled_notes + 1;
        Ok(())
    }

    pub fn pay(&mut self, amount: Amount) -> (r: HorizonResult<()>)
        ensures
            *final(self) == state_after(*old(self), spec_pay(*old(self), amount)),
            result_view(r) == outcome_of(spec_pay(*old(self), amount)),
    {
        let next_balance = self.reserve_balance.checked_sub(amount)?;
        if next_balance.0 < self.config.reserve_floor.0 {
            return Err(policy("vault reserve floor reached"));
        }
        self.reserve_balance = next_balance;
        Ok(())
    }

    pub fn reprice(&mut self, share_index: ShareIndex)
        ensures
            *final(self) == (VaultState { share_index, ..*old(self) }),
    {
        self.share_index = share_index;
    }

    pub fn surplus(&self) -> (r: HorizonResult<Amount>)
        ensures
            result_view(r) == spec_surplus(*self),
    {
        let required = self.locked_notional.checked_add(self.config.reserve_floor)?;
        if self.reserve_balance.0 <= required.0 {
            return Ok(Amount::zero());
        }
        self.reserve_balance.checked_sub(required)
    }

    pub fn sweep(&mut self, amount: Amount) -> (r: HorizonResult<()>)
        ensures
            *final(self) == state_after(*old(self), spec_sweep(*old(self), amount)),
            result_view(r) == outcome_of(spec_sweep(*old(self), amount)),
    {
        let surplus = self.surplus()?;
        if amount.0 > surplus.0 {
            return Err(policy("vault surplus is below requested amount"));
        }
        self.reserve_balance = self.reserve_balance.checked_sub(amount)?;
        Ok(())
    }

    fn locked_within_limit(&self, next_locked: Amount) -> (r: HorizonResult<bool>)
        ensures
            result_view(r) == spec_locked_within_limit(*self, next_locked),
    {
        if self.reserve_balance.is_zero() {
            return Ok(false);
        }
        let ratio = next_locked.checked_mul(10_000)?.checked_div(self.reserve_balance.units())?;
        Ok(ratio.units() <= self.config.max_locked_bps.units() as u128)
    }
}

impl View for VaultConfig {
    type V = VaultConfig;

    open spec fn view(&self) -> VaultConfig {
        *self
    }
}

impl Canonical for VaultConfig {
    open spec fn json(v: VaultConfig) -> Seq<u8> {
        lit("{\"vault_id\":")
            + VaultId::json(v.vault_id)
            + lit(",\"controller\":")
            + AccountId::json(v.controller)
            + lit(",\"index_authority\":")
            + AccountId::json(v.index_authority)
            + lit(",\"asset\":")
            + AssetId::json(v.asset)
            + lit(",\"region\":")
            + u16::json(v.region)
            + lit(",\"reserve_floor\":")
            + Amount::json(v.reserve_floor)
            + lit(",\"max_locked_bps\":")
            + Bps::json(v.max_locked_bps)
            + lit("}")
    }

    fn write_json(&self, out: &mut Vec<u8>) {
        let ghost v = self@;
        let ghost mut acc: Seq<u8>;
        write_lit("{\"vault_id\":", out);
        proof {
            acc = lit("{\"vault_id\":");
        }
        self.vault_id.write_json(out);
        proof {
            lemma_concat_associative(old(out)@, acc, VaultId::json(v.vault_id));
            acc = acc + VaultId::json(v.vault_id);
        }
        write_lit(",\"controller\":", out);
        proof {
            lemma_concat_associative(old(out)@, acc, lit(",\"controller\":"));
            acc = acc + lit(",\"controller\":");
        }
        self.controller.write_json(out);
        proof {
            lemma_concat_associative(old(out)@, acc, AccountId::json(v.controller));
            acc = acc + AccountId::json(v.controller);
        }
        write_lit(",\"index_authority\":", out);
        proof {
            lemma_concat_associative(old(out)@, acc, lit(",\"index_authority\":"));
            acc = acc + lit(",\"index_authority\":");
        }
        self.index_authority.write_json(out);
        proof {
            lemma_concat_associative(old(out)@, acc, AccountId::json(v.index_authority));
            acc = acc + AccountId::json(v.index_authority);
        }
        write_lit(",\"asset\":", out);
        proof {
            lemma_concat_associative(old(out)@, acc, lit(",\"asset\":"));
            acc = acc + lit(",\"asset\":");
        }
        self.asset.write_json(out);
        proof {
            lemma_concat_associative(old(out)@, acc, AssetId::json(v.asset));
            acc = acc + AssetId::json(v.asset);
        }
        write_lit(",\"region\":", out);
        proof {
            lemma_concat_associative(old(out)@, acc, lit(",\"region\":"));
            acc = acc + lit(",\"region\":");
        }
        self.region.write_json(out);
        proof {
            lemma_concat_associative(old(out)@, acc, u16::json(v.region));
            acc = acc + u16::json(v.region);
        }
        write_lit(",\"reserve_floor\":", out);
        proof {
            lemma_concat_associative(old(out)@, acc, lit(",\"reserve_floor\":"));
            acc = acc + lit(",\"reserve_floor\":");
        }
        self.reserve_floor.write_json(out);
        proof {
            lemma_concat_associative(old(out)@, acc, Amount::json(v.reserve_floor));
            acc = acc + Amount::json(v.reserve_floor);
        }
        write_lit(",\"max_locked_bps\":", out);
        proof {
            lemma_concat_associative(old(out)@, acc, lit(",\"max_locked_bps\":"));
            acc = acc + lit(",\"max_locked_bps\":");
        }
        self.max_locked_bps.write_json(out);
        proof {
            lemma_concat_associative(old(out)@, acc, Bps::json(v.max_locked_bps));
            acc = acc + Bps::json(v.max_locked_bps);
        }
        write_lit("}", out);
        proof {
            lemma_concat_associative(old(out)@, acc, lit("}"));
            acc = acc + lit("}");
        }
        assert(acc == Self::json(v));
    }
}

impl View for VaultState {
    type V = VaultState;

    open spec fn view(&self) -> VaultState {
        *self
    }
}

impl Duplicate for VaultState {
    fn duplicate(&self) -> (r: Self) {
        *self
    }
}

impl Canonical for VaultState {
    open spec fn json(v: VaultState) -> Seq<u8> {
        lit("{\"config\":")
            + VaultConfig::json(v.config)
            + lit(",\"reserve_balance\":")
            + Amount::json(v.reserve_balance)
            + lit(",\"locked_notional\":")
            + Amount::json(v.locked_notional)
            + lit(",\"issued_notes\":")
            + u64::json(v.issued_notes)
            + lit(",\"settled_notes\":")
            + u64::json(v.settled_notes)
            + lit(",\"share_index\":")
            + ShareIndex::json(v.share_index)
            + lit("}")
    }

    fn write_json(&self, out: &mut Vec<u8>) {
        let ghost v = self@;
        let ghost mut acc: Seq<u8>;
        write_lit("{\"config\":", out);
        proof {
            acc = lit("{\"config\":");
        }
        self.config.write_json(out);
        proof {
            lemma_concat_associative(old(out)@, acc, VaultConfig::json(v.config));
            acc = acc + VaultConfig::json(v.config);
        }
        write_lit(",\"reserve_balance\":", out);
        proof {
            lemma_concat_associative(old(out)@, acc, lit(",\"reserve_balance\":"));
            acc = acc + lit(",\"reserve_balance\":");
        }
        self.reserve_balance.write_json(out);
        proof {
            lemma_concat_associative(old(out)@, acc, Amount::json(v.reserve_balance));
            acc = acc + Amount::json(v.reserve_balance);
        }
        write_lit(",\"locked_notional\":", out);
        proof {
            lemma_concat_associative(old(out)@, acc, lit(",\"locked_notional\":"));
            acc = acc + lit(",\"locked_notional\":");
        }
        self.locked_notional.write_json(out);
        proof {
            lemma_concat_associative(old(out)@, acc, Amount::json(v.locked_notional));
            acc = acc + Amount::json(v.locked_notional);
        }
        write_lit(",\"issued_notes\":", out);
        proof {
            lemma_concat_associative(old(out)@, acc, lit(",\"issued_notes\":"));
            acc = acc + lit(",\"issued_notes\":");
        }
        self.issued_notes.write_json(out);
        proof {
            lemma_concat_associative(old(out)@, acc, u64::json(v.issued_notes));
            acc = acc + u64::json(v.issued_notes);
        }
        write_lit(",\"settled_notes\":", out);
        proof {
            lemma_concat_associative(old(out)@, acc, lit(",\"settled_notes\":"));
            acc = acc + lit(",\"settled_notes\":");
        }
        self.settled_notes.write_json(out);
        proof {
            lemma_concat_associative(old(out)@, acc, u64::json(v.settled_notes));
            acc = acc + u64::json(v.settled_notes);
        }
        write_lit(",\"share_index\":", out);
        proof {
            lemma_concat_associative(old(out)@, acc, lit(",\"share_index\":"));
            acc = acc + lit(",\"share_index\":");
        }
        self.share_index.write_json(out);
        proof {
            lemma_concat_associative(old(out)@, acc, ShareIndex::json(v.share_index));
            acc = acc + ShareIndex::json(v.share_index);
        }
        write_lit("}", out);
        proof {
            lemma_concat_associative(old(out)@, acc, lit("}"));
            acc = acc + lit("}");
        }
        assert(acc == Self::json(v));
    }
}

impl View for NoteRecord {
    type V = NoteRecord;

    open spec fn view(&self) -> NoteRecord {
        *self
    }
}

impl Duplicate for NoteRecord {
    fn duplicate(&self) -> (r: Self) {
        *self
    }
}

impl Canonical for NoteRecord {
    open spec fn json(v: NoteRecord) -> Seq<u8> {
        lit("{\"note_id\":")
            + NoteId::json(v.note_id)
            + lit(",\"source_vault\":")
            + VaultId::json(v.source_vault)
            + lit(",\"issuer\":")
            + AccountId::json(v.issuer)
            + lit(",\"settled\":")
            + bool::json(v.settled)
            + lit("}")
    }

    fn write_json(&self, out: &mut Vec<u8>) {
        let ghost v = self@;
        let ghost mut acc: Seq<u8>;
        write_lit("{\"note_id\":", out);
        proof {
            acc = lit("{\"note_id\":");
        }
        self.note_id.write_json(out);
        proof {
            lemma_concat_associative(old(out)@, acc, NoteId::json(v.note_id));
            acc = acc + NoteId::json(v.note_id);
        }
        write_lit(",\"source_vault\":", out);
        proof {
            lemma_concat_associative(old(out)@, acc, lit(",\"source_vault\":"));
            acc = acc + lit(",\"source_vault\":");
        }
        self.source_vault.write_json(out);
        proof {
            lemma_concat_associative(old(out)@, acc, VaultId::json(v.source_vault));
            acc = acc + VaultId::json(v.source_vault);
        }
        write_lit(",\"issuer\":", out);
        proof {
            lemma_concat_associative(old(out)@, acc, lit(",\"issuer\":"));
            acc = acc + lit(",\"issuer\":");
        }
        self.issuer.write_json(out);
        proof {
            lemma_concat_associative(old(out)@, acc, AccountId::json(v.issuer));
            acc = acc + AccountId::json(v.issuer);
        }
        write_lit(",\"settled\":", out);
        proof {
            lemma_concat_associative(old(out)@, acc, lit(",\"settled\":"));
            acc = acc + lit(",\"settled\":");
        }
        self.settled.write_json(out);
        proof {
            lemma_concat_associative(old(out)@, acc, bool::json(v.settled));
            acc = acc + bool::json(v.settled);
        }
        write_lit("}", out);
        proof {
            lemma_concat_associative(old(out)@, acc, lit("}"));
            acc = acc + lit("}");
        }
        assert(acc == Self::json(v));
    }
}

} // verus!
