//! The journal: one entry per applied transaction.
use vstd::prelude::*;
use vstd::seq_lib::lemma_concat_associative;

use crate::amount::{Amount, Bps, ShareIndex};
use crate::codec::{lit, write_lit, Canonical};
use crate::ids::{AccountId, AssetId, Digest, NoteId, TicketId, TxId, VaultId};
use crate::operators::{OperatorRole, ProtocolConfig};
use crate::risk::RiskSnapshot;

verus! {

#[derive(Clone, Debug, Eq, PartialEq)]
pub struct JournalEntry {
    pub sequence: u64,
    pub tx_id: TxId,
    pub op: JournalOp,
    pub state_digest: Digest,
}

#[derive(Clone, Debug, Eq, PartialEq)]
pub enum JournalOp {
    GenesisCredit { account: AccountId, asset: AssetId, amount: Amount },
    ProtocolConfigured { config: ProtocolConfig },
    OperatorRoleGranted { account: AccountId, role: OperatorRole },
    VaultRegistered { vault_id: VaultId, controller: AccountId, asset: AssetId },
    VaultDeposit { vault_id: VaultId, owner: AccountId, amount: Amount },
    VaultIndexPublished { vault_id: VaultId, observer: AccountId, share_index: ShareIndex, epoch: u64 },
    RouteRegistered { route_id: Digest, source_vault: VaultId, payout_vault: VaultId, asset: AssetId },
    FeeScheduleConfigured { treasury: AccountId, protocol_fee_bps: Bps, reserve_fee_bps: Bps },
    NoteIssued {
        note_id: NoteId,
        source_vault: VaultId,
        issuer: AccountId,
        beneficiary: AccountId,
        amount: Amount,
    },
    TicketSettled {
        ticket_id: TicketId,
        note_id: NoteId,
        route_id: Digest,
        source_vault: VaultId,
        payout_vault: VaultId,
        beneficiary: AccountId,
        beneficiary_amount: Amount,
        relayer: AccountId,
        relayer_fee: Amount,
        protocol_fee: Amount,
        reserve_fee: Amount,
        risk: Box<RiskSnapshot>,
    },
    VaultSurplusSwept { vault_id: VaultId, controller: AccountId, amount: Amount },
}

/// A copy of an operation.
pub fn duplicate_op(op: &JournalOp) -> (r: JournalOp)
    ensures
        r == *op,
{
    match op {
        JournalOp::GenesisCredit { account, asset, amount } => JournalOp::GenesisCredit {
            account: *account,
            asset: *asset,
            amount: *amount,
        },
        JournalOp::ProtocolConfigured { config } => JournalOp::ProtocolConfigured { config: *config },
        JournalOp::OperatorRoleGranted { account, role } => JournalOp::OperatorRoleGranted {
            account: *account,
            role: *role,
        },
        JournalOp::VaultRegistered { vault_id, controller, asset } => JournalOp::VaultRegistered {
            vault_id: *vault_id,
            controller: *controller,
            asset: *asset,
        },
        JournalOp::VaultDeposit { vault_id, owner, amount } => JournalOp::VaultDeposit {
            vault_id: *vault_id,
            owner: *owner,
            amount: *amount,
        },
        JournalOp::VaultIndexPublished { vault_id, observer, share_index, epoch } =>
            JournalOp::VaultIndexPublished {
            vault_id: *vault_id,
            observer: *observer,
            share_index: *share_index,
            epoch: *epoch,
        },
        JournalOp::RouteRegistered { route_id, source_vault, payout_vault, asset } =>
            JournalOp::RouteRegistered {
            route_id: *route_id,
            source_vault: *source_vault,
            payout_vault: *payout_vault,
            asset: *asset,
        },
        JournalOp::FeeScheduleConfigured { treasury, protocol_fee_bps, reserve_fee_bps } =>
            JournalOp::FeeScheduleConfigured {
            treasury: *treasury,
            protocol_fee_bps: *protocol_fee_bps,
            reserve_fee_bps: *reserve_fee_bps,
        },
        JournalOp::NoteIssued { note_id, source_vault, issuer, beneficiary, amount } =>
            JournalOp::NoteIssued {
            note_id: *note_id,
            source_vault: *source_vault,
            issuer: *issuer,
            beneficiary: *beneficiary,
            amount: *amount,
        },
        JournalOp::TicketSettled {
            ticket_id,
            note_id,
            route_id,
            source_vault,
            payout_vault,
            beneficiary,
            beneficiary_amount,
            relayer,
            relayer_fee,
            protocol_fee,
            reserve_fee,
            risk,
        } => {
            let snapshot: RiskSnapshot = **risk;
            JournalOp::TicketSettled {
                ticket_id: *ticket_id,
                note_id: *note_id,
                route_id: *route_id,
                source_vault: *source_vault,
                payout_vault: *payout_vault,
                beneficiary: *beneficiary,
                beneficiary_amount: *beneficiary_amount,
                relayer: *relayer,
                relayer_fee: *relayer_fee,
                protocol_fee: *protocol_fee,
                reserve_fee: *reserve_fee,
                risk: Box::new(snapshot),
            }
        },
        JournalOp::VaultSurplusSwept { vault_id, controller, amount } => JournalOp::VaultSurplusSwept {
            vault_id: *vault_id,
            controller: *controller,
            amount: *amount,
        },
    }
}

/// A copy of a journal.
pub fn duplicate_journal(journal: &Vec<JournalEntry>) -> (r: Vec<JournalEntry>)
    ensures
        r@ == journal@,
{
    let mut out: Vec<JournalEntry> = Vec::new();
    let mut i: usize = 0;
    while i < journal.len()
        invariant
            i <= journal@.len(),
            out@ == journal@.subrange(0, i as int),
        decreases journal@.len() - i,
    {
        let e = &journal[i];
        out.push(
            JournalEntry {
                sequence: e.sequence,
                tx_id: e.tx_id,
                op: duplicate_op(&e.op),
                state_digest: e.state_digest,
            },
        );
        assert(out@ =~= journal@.subrange(0, i + 1));
        i = i + 1;
    }
    assert(out@ =~= journal@);
    out
}

impl View for JournalOp {
    type V = JournalOp;

    open spec fn view(&self) -> JournalOp {
        *self
    }
}

impl Canonical for JournalOp {
    open spec fn json(v: JournalOp) -> Seq<u8> {
        match v {
            JournalOp::GenesisCredit { account, asset, amount } => lit("{\"type\":\"genesis_credit\"")
                + lit(",\"account\":")
                + AccountId::json(account)
                + lit(",\"asset\":")
                + AssetId::json(asset)
                + lit(",\"amount\":")
                + Amount::json(amount)
                + lit("}"),
            JournalOp::ProtocolConfigured { config } => lit("{\"type\":\"protocol_configured\"")
                + lit(",\"config\":")
                + ProtocolConfig::json(config)
                + lit("}"),
            JournalOp::OperatorRoleGranted { account, role } => lit("{\"type\":\"operator_role_granted\"")
                + lit(",\"account\":")
                + AccountId::json(account)
                + lit(",\"role\":")
                + OperatorRole::json(role)
                + lit("}"),
            JournalOp::VaultRegistered { vault_id, controller, asset } => lit("{\"type\":\"vault_registered\"")
                + lit(",\"vault_id\":")
                + VaultId::json(vault_id)
                + lit(",\"controller\":")
                + AccountId::json(controller)
                + lit(",\"asset\":")
                + AssetId::json(asset)
                + lit("}"),
            JournalOp::VaultDeposit { vault_id, owner, amount } => lit("{\"type\":\"vault_deposit\"")
                + lit(",\"vault_id\":")
                + VaultId::json(vault_id)
                + lit(",\"owner\":")
                + AccountId::json(owner)
                + lit(",\"amount\":")
                + Amount::json(amount)
                + lit("}"),
            JournalOp::VaultIndexPublished { vault_id, observer, share_index, epoch } => lit("{\"type\":\"vault_index_published\"")
                + lit(",\"vault_id\":")
                + VaultId::json(vault_id)
                + lit(",\"observer\":")
                + AccountId::json(observer)
                + lit(",\"share_index\":")
                + ShareIndex::json(share_index)
                + lit(",\"epoch\":")
                + u64::json(epoch)
                + lit("}"),
            JournalOp::RouteRegistered { route_id, source_vault, payout_vault, asset } => lit("{\"type\":\"route_registered\"")
                + lit(",\"route_id\":")
                + Digest::json(route_id)
                + lit(",\"source_vault\":")
                + VaultId::json(source_vault)
                + lit(",\"payout_vault\":")
                + VaultId::json(payout_vault)
                + lit(",\"asset\":")
                + AssetId::json(asset)
                + lit("}"),
            JournalOp::FeeScheduleConfigured { treasury, protocol_fee_bps, reserve_fee_bps } => lit("{\"type\":\"fee_schedule_configured\"")
                + lit(",\"treasury\":")
                + AccountId::json(treasury)
                + lit(",\"protocol_fee_bps\":")
                + Bps::json(protocol_fee_bps)
                + lit(",\"reserve_fee_bps\":")
                + Bps::json(reserve_fee_bps)
                + lit("}"),
            JournalOp::NoteIssued { note_id, source_vault, issuer, beneficiary, amount } => lit("{\"type\":\"note_issued\"")
                + lit(",\"note_id\":")
                + NoteId::json(note_id)
                + lit(",\"source_vault\":")
                + VaultId::json(source_vault)
                + lit(",\"issuer\":")
                + AccountId::json(issuer)
                + lit(",\"beneficiary\":")
                + AccountId::json(beneficiary)
                + lit(",\"amount\":")
                + Amount::json(amount)
                + lit("}"),
            JournalOp::TicketSettled { ticket_id, note_id, route_id, source_vault, payout_vault, beneficiary, beneficiary_amount, relayer, relayer_fee, protocol_fee, reserve_fee, risk } => lit("{\"type\":\"ticket_settled\"")
                + lit(",\"ticket_id\":")
                + TicketId::json(ticket_id)
                + lit(",\"note_id\":")
                + NoteId::json(note_id)
                + lit(",\"route_id\":")
                + Digest::json(route_id)
                + lit(",\"source_vault\":")
                + VaultId::json(source_vault)
                + lit(",\"payout_vault\":")
                + VaultId::json(payout_vault)
                + lit(",\"beneficiary\":")
                + AccountId::json(beneficiary)
                + lit(",\"beneficiary_amount\":")
                + Amount::json(beneficiary_amount)
                + lit(",\"relayer\":")
                + AccountId::json(relayer)
                + lit(",\"relayer_fee\":")
                + Amount::json(relayer_fee)
                + lit(",\"protocol_fee\":")
                + Amount::json(protocol_fee)
                + lit(",\"reserve_fee\":")
                + Amount::json(reserve_fee)
                + lit(",\"risk\":")
                + RiskSnapshot::json(*risk)
                + lit("}"),
            JournalOp::VaultSurplusSwept { vault_id, controller, amount } => lit("{\"type\":\"vault_surplus_swept\"")
                + lit(",\"vault_id\":")
                + VaultId::json(vault_id)
                + lit(",\"controller\":")
                + AccountId::json(controller)
                + lit(",\"amount\":")
                + Amount::json(amount)
                + lit("}"),
        }
    }

    fn write_json(&self, out: &mut Vec<u8>) {
        let ghost v = self@;
        let ghost mut acc: Seq<u8>;
        match self {
            JournalOp::GenesisCredit { account, asset, amount } => {
                write_lit("{\"type\":\"genesis_credit\"", out);
                proof {
                    acc = lit("{\"type\":\"genesis_credit\"");
                }
                write_lit(",\"account\":", out);
                proof {
                    lemma_concat_associative(old(out)@, acc, lit(",\"account\":"));
                    acc = acc + lit(",\"account\":");
                }
                account.write_json(out);
                proof {
                    lemma_concat_associative(old(out)@, acc, AccountId::json(*account));
                    acc = acc + AccountId::json(*account);
                }
                write_lit(",\"asset\":", out);
                proof {
                    lemma_concat_associative(old(out)@, acc, lit(",\"asset\":"));
                    acc = acc + lit(",\"asset\":");
                }
                asset.write_json(out);
                proof {
                    lemma_concat_associative(old(out)@, acc, AssetId::json(*asset));
                    acc = acc + AssetId::json(*asset);
                }
                write_lit(",\"amount\":", out);
                proof {
                    lemma_concat_associative(old(out)@, acc, lit(",\"amount\":"));
                    acc = acc + lit(",\"amount\":");
                }
                amount.write_json(out);
                proof {
                    lemma_concat_associative(old(out)@, acc, Amount::json(*amount));
                    acc = acc + Amount::json(*amount);
                }
                write_lit("}", out);
                proof {
                    lemma_concat_associative(old(out)@, acc, lit("}"));
                    acc = acc + lit("}");
                }
            },
            JournalOp::ProtocolConfigured { config } => {
                write_lit("{\"type\":\"protocol_configured\"", out);
                proof {
                    acc = lit("{\"type\":\"protocol_configured\"");
                }
                write_lit(",\"config\":", out);
                proof {
                    lemma_concat_associative(old(out)@, acc, lit(",\"config\":"));
                    acc = acc + lit(",\"config\":");
                }
                config.write_json(out);
                proof {
                    lemma_concat_associative(old(out)@, acc, ProtocolConfig::json(*config));
                    acc = acc + ProtocolConfig::json(*config);
                }
                write_lit("}", out);
                proof {
                    lemma_concat_associative(old(out)@, acc, lit("}"));
                    acc = acc + lit("}");
                }
            },
            JournalOp::OperatorRoleGranted { account, role } => {
                write_lit("{\"type\":\"operator_role_granted\"", out);
                proof {
                    acc = lit("{\"type\":\"operator_role_granted\"");
                }
                write_lit(",\"account\":", out);
                proof {
                    lemma_concat_associative(old(out)@, acc, lit(",\"account\":"));
                    acc = acc + lit(",\"account\":");
                }
                account.write_json(out);
                proof {
                    lemma_concat_associative(old(out)@, acc, AccountId::json(*account));
                    acc = acc + AccountId::json(*account);
                }
                write_lit(",\"role\":", out);
                proof {
                    lemma_concat_associative(old(out)@, acc, lit(",\"role\":"));
                    acc = acc + lit(",\"role\":");
                }
                role.write_json(out);
                proof {
                    lemma_concat_associative(old(out)@, acc, OperatorRole::json(*role));
                    acc = acc + OperatorRole::json(*role);
                }
                write_lit("}", out);
                proof {
                    lemma_concat_associative(old(out)@, acc, lit("}"));
                    acc = acc + lit("}");
                }
            },
            JournalOp::VaultRegistered { vault_id, controller, asset } => {
                write_lit("{\"type\":\"vault_registered\"", out);
                proof {
                    acc = lit("{\"type\":\"vault_registered\"");
                }
                write_lit(",\"vault_id\":", out);
                proof {
                    lemma_concat_associative(old(out)@, acc, lit(",\"vault_id\":"));
                    acc = acc + lit(",\"vault_id\":");
                }
                vault_id.write_json(out);
                proof {
                    lemma_concat_associative(old(out)@, acc, VaultId::json(*vault_id));
                    acc = acc + VaultId::json(*vault_id);
                }
                write_lit(",\"controller\":", out);
                proof {
                    lemma_concat_associative(old(out)@, acc, lit(",\"controller\":"));
                    acc = acc + lit(",\"controller\":");
                }
                controller.write_json(out);
                proof {
                    lemma_concat_associative(old(out)@, acc, AccountId::json(*controller));
                    acc = acc + AccountId::json(*controller);
                }
                write_lit(",\"asset\":", out);
                proof {
                    lemma_concat_associative(old(out)@, acc, lit(",\"asset\":"));
                    acc = acc + lit(",\"asset\":");
                }
                asset.write_json(out);
                proof {
                    lemma_concat_associative(old(out)@, acc, AssetId::json(*asset));
                    acc = acc + AssetId::json(*asset);
                }
                write_lit("}", out);
                proof {
                    lemma_concat_associative(old(out)@, acc, lit("}"));
                    acc = acc + lit("}");
                }
            },
            JournalOp::VaultDeposit { vault_id, owner, amount } => {
                write_lit("{\"type\":\"vault_deposit\"", out);
                proof {
                    acc = lit("{\"type\":\"vault_deposit\"");
                }
                write_lit(",\"vault_id\":", out);
                proof {
                    lemma_concat_associative(old(out)@, acc, lit(",\"vault_id\":"));
                    acc = acc + lit(",\"vault_id\":");
                }
                vault_id.write_json(out);
                proof {
                    lemma_concat_associative(old(out)@, acc, VaultId::json(*vault_id));
                    acc = acc + VaultId::json(*vault_id);
                }
                write_lit(",\"owner\":", out);
                proof {
                    lemma_concat_associative(old(out)@, acc, lit(",\"owner\":"));
                    acc = acc + lit(",\"owner\":");
                }
                owner.write_json(out);
                proof {
                    lemma_concat_associative(old(out)@, acc, AccountId::json(*owner));
                    acc = acc + AccountId::json(*owner);
                }
                write_lit(",\"amount\":", out);
                proof {
                    lemma_concat_associative(old(out)@, acc, lit(",\"amount\":"));
                    acc = acc + lit(",\"amount\":");
                }
                amount.write_json(out);
                proof {
                    lemma_concat_associative(old(out)@, acc, Amount::json(*amount));
                    acc = acc + Amount::json(*amount);
                }
                write_lit("}", out);
                proof {
                    lemma_concat_associative(old(out)@, acc, lit("}"));
                    acc = acc + lit("}");
                }
            },
            JournalOp::VaultIndexPublished { vault_id, observer, share_index, epoch } => {
                write_lit("{\"type\":\"vault_index_published\"", out);
                proof {
                    acc = lit("{\"type\":\"vault_index_published\"");
                }
                write_lit(",\"vault_id\":", out);
                proof {
                    lemma_concat_associative(old(out)@, acc, lit(",\"vault_id\":"));
                    acc = acc + lit(",\"vault_id\":");
                }
                vault_id.write_json(out);
                proof {
                    lemma_concat_associative(old(out)@, acc, VaultId::json(*vault_id));
                    acc = acc + VaultId::json(*vault_id);
                }
                write_lit(",\"observer\":", out);
                proof {
                    lemma_concat_associative(old(out)@, acc, lit(",\"observer\":"));
                    acc = acc + lit(",\"observer\":");
                }
                observer.write_json(out);
                proof {
                    lemma_concat_associative(old(out)@, acc, AccountId::json(*observer));
                    acc = acc + AccountId::json(*observer);
                }
                write_lit(",\"share_index\":", out);
                proof {
                    lemma_concat_associative(old(out)@, acc, lit(",\"share_index\":"));
                    acc = acc + lit(",\"share_index\":");
                }
                share_index.write_json(out);
                proof {
                    lemma_concat_associative(old(out)@, acc, ShareIndex::json(*share_index));
                    acc = acc + ShareIndex::json(*share_index);
                }
                write_lit(",\"epoch\":", out);
                proof {
                    lemma_concat_associative(old(out)@, acc, lit(",\"epoch\":"));
                    acc = acc + lit(",\"epoch\":");
                }
                epoch.write_json(out);
                proof {
                    lemma_concat_associative(old(out)@, acc, u64::json(*epoch));
                    acc = acc + u64::json(*epoch);
                }
                write_lit("}", out);
                proof {
                    lemma_concat_associative(old(out)@, acc, lit("}"));
                    acc = acc + lit("}");
                }
            },
            JournalOp::RouteRegistered { route_id, source_vault, payout_vault, asset } => {
                write_lit("{\"type\":\"route_registered\"", out);
                proof {
                    acc = lit("{\"type\":\"route_registered\"");
                }
                write_lit(",\"route_id\":", out);
                proof {
                    lemma_concat_associative(old(out)@, acc, lit(",\"route_id\":"));
                    acc = acc + lit(",\"route_id\":");
                }
                route_id.write_json(out);
                proof {
                    lemma_concat_associative(old(out)@, acc, Digest::json(*route_id));
                    acc = acc + Digest::json(*route_id);
                }
                write_lit(",\"source_vault\":", out);
                proof {
                    lemma_concat_associative(old(out)@, acc, lit(",\"source_vault\":"));
                    acc = acc + lit(",\"source_vault\":");
                }
                source_vault.write_json(out);
                proof {
                    lemma_concat_associative(old(out)@, acc, VaultId::json(*source_vault));
                    acc = acc + VaultId::json(*source_vault);
                }
                write_lit(",\"payout_vault\":", out);
                proof {
                    lemma_concat_associative(old(out)@, acc, lit(",\"payout_vault\":"));
                    acc = acc + lit(",\"payout_vault\":");
                }
                payout_vault.write_json(out);
                proof {
                    lemma_concat_associative(old(out)@, acc, VaultId::json(*payout_vault));
                    acc = acc + VaultId::json(*payout_vault);
                }
                write_lit(",\"asset\":", out);
                proof {
                    lemma_concat_associative(old(out)@, acc, lit(",\"asset\":"));
                    acc = acc + lit(",\"asset\":");
                }
                asset.write_json(out);
                proof {
                    lemma_concat_associative(old(out)@, acc, AssetId::json(*asset));
                    acc = acc + AssetId::json(*asset);
                }
                write_lit("}", out);
                proof {
                    lemma_concat_associative(old(out)@, acc, lit("}"));
                    acc = acc + lit("}");
                }
            },
            JournalOp::FeeScheduleConfigured { treasury, protocol_fee_bps, reserve_fee_bps } => {
                write_lit("{\"type\":\"fee_schedule_configured\"", out);
                proof {
                    acc = lit("{\"type\":\"fee_schedule_configured\"");
                }
                write_lit(",\"treasury\":", out);
                proof {
                    lemma_concat_associative(old(out)@, acc, lit(",\"treasury\":"));
                    acc = acc + lit(",\"treasury\":");
                }
                treasury.write_json(out);
                proof {
                    lemma_concat_associative(old(out)@, acc, AccountId::json(*treasury));
                    acc = acc + AccountId::json(*treasury);
                }
                write_lit(",\"protocol_fee_bps\":", out);
                proof {
                    lemma_concat_associative(old(out)@, acc, lit(",\"protocol_fee_bps\":"));
                    acc = acc + lit(",\"protocol_fee_bps\":");
                }
                protocol_fee_bps.write_json(out);
                proof {
                    lemma_concat_associative(old(out)@, acc, Bps::json(*protocol_fee_bps));
                    acc = acc + Bps::json(*protocol_fee_bps);
                }
                write_lit(",\"reserve_fee_bps\":", out);
                proof {
                    lemma_concat_associative(old(out)@, acc, lit(",\"reserve_fee_bps\":"));
                    acc = acc + lit(",\"reserve_fee_bps\":");
                }
                reserve_fee_bps.write_json(out);
                proof {
                    lemma_concat_associative(old(out)@, acc, Bps::json(*reserve_fee_bps));
                    acc = acc + Bps::json(*reserve_fee_bps);
                }
                write_lit("}", out);
                proof {
                    lemma_concat_associative(old(out)@, acc, lit("}"));
                    acc = acc + lit("}");
                }
            },
            JournalOp::NoteIssued { note_id, source_vault, issuer, beneficiary, amount } => {
                write_lit("{\"type\":\"note_issued\"", out);
                proof {
                    acc = lit("{\"type\":\"note_issued\"");
                }
                write_lit(",\"note_id\":", out);
                proof {
                    lemma_concat_associative(old(out)@, acc, lit(",\"note_id\":"));
                    acc = acc + lit(",\"note_id\":");
                }
                note_id.write_json(out);
                proof {
                    lemma_concat_associative(old(out)@, acc, NoteId::json(*note_id));
                    acc = acc + NoteId::json(*note_id);
                }
                write_lit(",\"source_vault\":", out);
                proof {
                    lemma_concat_associative(old(out)@, acc, lit(",\"source_vault\":"));
                    acc = acc + lit(",\"source_vault\":");
                }
                source_vault.write_json(out);
                proof {
                    lemma_concat_associative(old(out)@, acc, VaultId::json(*source_vault));
                    acc = acc + VaultId::json(*source_vault);
                }
                write_lit(",\"issuer\":", out);
                proof {
                    lemma_concat_associative(old(out)@, acc, lit(",\"issuer\":"));
                    acc = acc + lit(",\"issuer\":");
                }
                issuer.write_json(out);
                proof {
                    lemma_concat_associative(old(out)@, acc, AccountId::json(*issuer));
                    acc = acc + AccountId::json(*issuer);
                }
                write_lit(",\"beneficiary\":", out);
                proof {
                    lemma_concat_associative(old(out)@, acc, lit(",\"beneficiary\":"));
                    acc = acc + lit(",\"beneficiary\":");
                }
                beneficiary.write_json(out);
                proof {
                    lemma_concat_associative(old(out)@, acc, AccountId::json(*beneficiary));
                    acc = acc + AccountId::json(*beneficiary);
                }
                write_lit(",\"amount\":", out);
                proof {
                    lemma_concat_associative(old(out)@, acc, lit(",\"amount\":"));
                    acc = acc + lit(",\"amount\":");
                }
                amount.write_json(out);
                proof {
                    lemma_concat_associative(old(out)@, acc, Amount::json(*amount));
                    acc = acc + Amount::json(*amount);
                }
                write_lit("}", out);
                proof {
                    lemma_concat_associative(old(out)@, acc, lit("}"));
                    acc = acc + lit("}");
                }
            },
            JournalOp::TicketSettled { ticket_id, note_id, route_id, source_vault, payout_vault, beneficiary, beneficiary_amount, relayer, relayer_fee, protocol_fee, reserve_fee, risk } => {
                write_lit("{\"type\":\"ticket_settled\"", out);
                proof {
                    acc = lit("{\"type\":\"ticket_settled\"");
                }
                write_lit(",\"ticket_id\":", out);
                proof {
                    lemma_concat_associative(old(out)@, acc, lit(",\"ticket_id\":"));
                    acc = acc + lit(",\"ticket_id\":");
                }
                ticket_id.write_json(out);
                proof {
                    lemma_concat_associative(old(out)@, acc, TicketId::json(*ticket_id));
                    acc = acc + TicketId::json(*ticket_id);
                }
                write_lit(",\"note_id\":", out);
                proof {
                    lemma_concat_associative(old(out)@, acc, lit(",\"note_id\":"));
                    acc = acc + lit(",\"note_id\":");
                }
                note_id.write_json(out);
                proof {
                    lemma_concat_associative(old(out)@, acc, NoteId::json(*note_id));
                    acc = acc + NoteId::json(*note_id);
                }
                write_lit(",\"route_id\":", out);
                proof {
                    lemma_concat_associative(old(out)@, acc, lit(",\"route_id\":"));
                    acc = acc + lit(",\"route_id\":");
                }
                route_id.write_json(out);
                proof {
                    lemma_concat_associative(old(out)@, acc, Digest::json(*route_id));
                    acc = acc + Digest::json(*route_id);
                }
                write_lit(",\"source_vault\":", out);
                proof {
                    lemma_concat_associative(old(out)@, acc, lit(",\"source_vault\":"));
                    acc = acc + lit(",\"source_vault\":");
                }
                source_vault.write_json(out);
                proof {
                    lemma_concat_associative(old(out)@, acc, VaultId::json(*source_vault));
                    acc = acc + VaultId::json(*source_vault);
                }
                write_lit(",\"payout_vault\":", out);
                proof {
                    lemma_concat_associative(old(out)@, acc, lit(",\"payout_vault\":"));
                    acc = acc + lit(",\"payout_vault\":");
                }
                payout_vault.write_json(out);
                proof {
                    lemma_concat_associative(old(out)@, acc, VaultId::json(*payout_vault));
                    acc = acc + VaultId::json(*payout_vault);
                }
                write_lit(",\"beneficiary\":", out);
                proof {
                    lemma_concat_associative(old(out)@, acc, lit(",\"beneficiary\":"));
                    acc = acc + lit(",\"beneficiary\":");
                }
                beneficiary.write_json(out);
                proof {
                    lemma_concat_associative(old(out)@, acc, AccountId::json(*beneficiary));
                    acc = acc + AccountId::json(*beneficiary);
                }
                write_lit(",\"beneficiary_amount\":", out);
                proof {
                    lemma_concat_associative(old(out)@, acc, lit(",\"beneficiary_amount\":"));
                    acc = acc + lit(",\"beneficiary_amount\":");
                }
                beneficiary_amount.write_json(out);
                proof {
                    lemma_concat_associative(old(out)@, acc, Amount::json(*beneficiary_amount));
                    acc = acc + Amount::json(*beneficiary_amount);
                }
                write_lit(",\"relayer\":", out);
                proof {
                    lemma_concat_associative(old(out)@, acc, lit(",\"relayer\":"));
                    acc = acc + lit(",\"relayer\":");
                }
                relayer.write_json(out);
                proof {
                    lemma_concat_associative(old(out)@, acc, AccountId::json(*relayer));
                    acc = acc + AccountId::json(*relayer);
                }
                write_lit(",\"relayer_fee\":", out);
                proof {
                    lemma_concat_associative(old(out)@, acc, lit(",\"relayer_fee\":"));
                    acc = acc + lit(",\"relayer_fee\":");
                }
                relayer_fee.write_json(out);
                proof {
                    lemma_concat_associative(old(out)@, acc, Amount::json(*relayer_fee));
                    acc = acc + Amount::json(*relayer_fee);
                }
                write_lit(",\"protocol_fee\":", out);
                proof {
                    lemma_concat_associative(old(out)@, acc, lit(",\"protocol_fee\":"));
                    acc = acc + lit(",\"protocol_fee\":");
                }
                protocol_fee.write_json(out);
                proof {
                    lemma_concat_associative(old(out)@, acc, Amount::json(*protocol_fee));
                    acc = acc + Amount::json(*protocol_fee);
                }
                write_lit(",\"reserve_fee\":", out);
                proof {
                    lemma_concat_associative(old(out)@, acc, lit(",\"reserve_fee\":"));
                    acc = acc + lit(",\"reserve_fee\":");
                }
                reserve_fee.write_json(out);
                proof {
                    lemma_concat_associative(old(out)@, acc, Amount::json(*reserve_fee));
                    acc = acc + Amount::json(*reserve_fee);
                }
                write_lit(",\"risk\":", out);
                proof {
                    lemma_concat_associative(old(out)@, acc, lit(",\"risk\":"));
                    acc = acc + lit(",\"risk\":");
                }
                (**risk).write_json(out);
                proof {
                    lemma_concat_associative(old(out)@, acc, RiskSnapshot::json(**risk));
                    acc = acc + RiskSnapshot::json(**risk);
                }
                write_lit("}", out);
                proof {
                    lemma_concat_associative(old(out)@, acc, lit("}"));
                    acc = acc + lit("}");
                }
            },
            JournalOp::VaultSurplusSwept { vault_id, controller, amount } => {
                write_lit("{\"type\":\"vault_surplus_swept\"", out);
                proof {
                    acc = lit("{\"type\":\"vault_surplus_swept\"");
                }
                write_lit(",\"vault_id\":", out);
                proof {
                    lemma_concat_associative(old(out)@, acc, lit(",\"vault_id\":"));
                    acc = acc + lit(",\"vault_id\":");
                }
                vault_id.write_json(out);
                proof {
                    lemma_concat_associative(old(out)@, acc, VaultId::json(*vault_id));
                    acc = acc + VaultId::json(*vault_id);
                }
                write_lit(",\"controller\":", out);
                proof {
                    lemma_concat_associative(old(out)@, acc, lit(",\"controller\":"));
                    acc = acc + lit(",\"controller\":");
                }
                controller.write_json(out);
                proof {
                    lemma_concat_associative(old(out)@, acc, AccountId::json(*controller));
                    acc = acc + AccountId::json(*controller);
                }
                write_lit(",\"amount\":", out);
                proof {
                    lemma_concat_associative(old(out)@, acc, lit(",\"amount\":"));
                    acc = acc + lit(",\"amount\":");
                }
                amount.write_json(out);
                proof {
                    lemma_concat_associative(old(out)@, acc, Amount::json(*amount));
                    acc = acc + Amount::json(*amount);
                }
                write_lit("}", out);
                proof {
                    lemma_concat_associative(old(out)@, acc, lit("}"));
                    acc = acc + lit("}");
                }
            },
        }
        assert(acc == Self::json(v));
    }
}

impl View for JournalEntry {
    type V = JournalEntry;

    open spec fn view(&self) -> JournalEntry {
        *self
    }
}

impl Canonical for JournalEntry {
    open spec fn json(v: JournalEntry) -> Seq<u8> {
        lit("{\"sequence\":")
            + u64::json(v.sequence)
            + lit(",\"tx_id\":")
            + TxId::json(v.tx_id)
            + lit(",\"op\":")
            + JournalOp::json(v.op)
            + lit(",\"state_digest\":")
            + Digest::json(v.state_digest)
            + lit("}")
    }

    fn write_json(&self, out: &mut Vec<u8>) {
        let ghost v = self@;
        let ghost mut acc: Seq<u8>;
        write_lit("{\"sequence\":", out);
        proof {
            acc = lit("{\"sequence\":");
        }
        self.sequence.write_json(out);
        proof {
            lemma_concat_associative(old(out)@, acc, u64::json(v.sequence));
            acc = acc + u64::json(v.sequence);
        }
        write_lit(",\"tx_id\":", out);
        proof {
            lemma_concat_associative(old(out)@, acc, lit(",\"tx_id\":"));
            acc = acc + lit(",\"tx_id\":");
        }
        self.tx_id.write_json(out);
        proof {
            lemma_concat_associative(old(out)@, acc, TxId::json(v.tx_id));
            acc = acc + TxId::json(v.tx_id);
        }
        write_lit(",\"op\":", out);
        proof {
            lemma_concat_associative(old(out)@, acc, lit(",\"op\":"));
            acc = acc + lit(",\"op\":");
        }
        self.op.write_json(out);
        proof {
            lemma_concat_associative(old(out)@, acc, JournalOp::json(v.op));
            acc = acc + JournalOp::json(v.op);
        }
        write_lit(",\"state_digest\":", out);
        proof {
            lemma_concat_associative(old(out)@, acc, lit(",\"state_digest\":"));
            acc = acc + lit(",\"state_digest\":");
        }
        self.state_digest.write_json(out);
        proof {
            lemma_concat_associative(old(out)@, acc, Digest::json(v.state_digest));
            acc = acc + Digest::json(v.state_digest);
        }
        write_lit("}", out);
        proof {
            lemma_concat_associative(old(out)@, acc, lit("}"));
            acc = acc + lit("}");
        }
        assert(acc == Self::json(v));
    }
}

} // verus!
