//! Risk limits applied to redemption tickets.
use vstd::prelude::*;
use vstd::seq_lib::lemma_concat_associative;

use crate::amount::{spec_mul_bps, spec_sub, Amount, Bps};
use vstd::arithmetic::div_mod::{lemma_fundamental_div_mod, lemma_mod_pos_bound};
use crate::bytemap::Duplicate;
use crate::codec::{lit, write_lit, Canonical};
use crate::error::{policy, ErrorView, HorizonError, HorizonResult, result_view};
use crate::ids::{TicketId, VaultId};
use crate::vault::VaultState;

verus! {

#[derive(Copy, Clone, Debug, Eq, PartialEq)]
pub struct RiskLimits {
    pub current_epoch: u64,
    pub max_ticket_amount: Amount,
    pub max_fee_bps: Bps,
    pub min_post_settlement_reserve: Amount,
}

#[derive(Copy, Clone, Debug, Eq, PartialEq)]
pub struct RiskSnapshot {
    pub ticket_id: TicketId,
    pub vault_id: VaultId,
    pub projected_reserve: Amount,
    pub requested_amount: Amount,
    pub relayer_fee: Amount,
    pub fee_bps: Bps,
}

pub struct RiskEngine {
    limits: RiskLimits,
}

/// The limits before any are set: all zero.
pub open spec fn zero_limits() -> RiskLimits {
    RiskLimits {
        current_epoch: 0,
        max_ticket_amount: Amount(0),
        max_fee_bps: Bps(0),
        min_post_settlement_reserve: Amount(0),
    }
}

impl Default for RiskLimits {
    fn default() -> (r: Self)
        ensures
            r == zero_limits(),
    {
        RiskLimits {
            current_epoch: 0,
            max_ticket_amount: Amount::zero(),
            max_fee_bps: Bps(0),
            min_post_settlement_reserve: Amount::zero(),
        }
    }
}

impl RiskLimits {
    pub fn new(
        current_epoch: u64,
        max_ticket_amount: Amount,
        max_fee_bps: Bps,
        min_post_settlement_reserve: Amount,
    ) -> (r: HorizonResult<Self>)
        ensures
            max_ticket_amount.0 != 0 ==> r == Ok::<RiskLimits, HorizonError>(
                RiskLimits { current_epoch, max_ticket_amount, max_fee_bps, min_post_settlement_reserve },
            ),
            max_ticket_amount.0 == 0 ==> result_view(r) == Err::<RiskLimits, ErrorView>(
                ErrorView::ZeroAmount,
            ),
    {
        if max_ticket_amount.is_zero() {
            return Err(HorizonError::ZeroAmount);
        }
        Ok(RiskLimits { current_epoch, max_ticket_amount, max_fee_bps, min_post_settlement_reserve })
    }
}

/// The relayer fee in basis points of the requested amount, rounded down;
/// zero for a zero request.
pub open spec fn fee_ratio(requested: Amount, relayer_fee: Amount) -> int {
    if requested.0 == 0 {
        0
    } else {
        (relayer_fee.0 * 10_000) / (requested.0 as int)
    }
}

/// The assessment of a ticket that requests `requested` from `vault` and pays
/// `relayer_fee` to its relayer.
pub open spec fn spec_evaluate_ticket(
    limits: RiskLimits,
    ticket_id: TicketId,
    vault: VaultState,
    requested: Amount,
    relayer_fee: Amount,
) -> Result<RiskSnapshot, ErrorView> {
    if requested.0 > limits.max_ticket_amount.0 {
        Err(ErrorView::Policy("ticket amount exceeds risk limit"@))
    } else {
        match spec_mul_bps(requested, limits.max_fee_bps) {
            Err(e) => Err(e),
            Ok(max_fee) => if relayer_fee.0 > max_fee.0 {
                Err(ErrorView::Policy("relayer fee exceeds risk limit"@))
            } else {
                match spec_sub(vault.reserve_balance, requested) {
                    Err(e) => Err(e),
                    Ok(projected) => if projected.0 < limits.min_post_settlement_reserve.0 {
                        Err(ErrorView::Policy("post settlement reserve is below limit"@))
                    } else if fee_ratio(requested, relayer_fee) > 10_000 {
                        Err(ErrorView::BpsOutOfRange(fee_ratio(requested, relayer_fee) as u16))
                    } else {
                        Ok(
                            RiskSnapshot {
                                ticket_id,
                                vault_id: vault.config.vault_id,
                                projected_reserve: projected,
                                requested_amount: requested,
                                relayer_fee,
                                fee_bps: Bps(fee_ratio(requested, relayer_fee) as u16),
                            },
                        )
                    },
                }
            },
        }
    }
}

proof fn lemma_fee_ratio_bound(q: int, b: int, f: int)
    by (nonlinear_arith)
    requires
        q > 0,
        0 <= b,
        0 <= f,
        f <= (q * b) / 10_000,
    ensures
        f * 10_000 <= q * b,
        (f * 10_000) / q <= b,
{
    assert(f * 10_000 <= q * b);
    assert((f * 10_000) / q <= (q * b) / q);
    assert((q * b) / q == b);
}

/// The risk check passes a ticket exactly when it keeps within every limit,
/// where the fee limit can be computed:
/// the requested amount is at most the ticket limit, the relayer fee at most
/// the fee limit's share of it (rounded down), the vault's reserve covers the
/// amount and what it leaves is at least the post-settlement floor, and the
/// fee's share of the amount, in basis points rounded down, is at most
/// 10 000. The snapshot then records the ticket, the
/// vault, the reserve left, the amount and fee, and the fee's share of the
/// amount in basis points, rounded down.
pub proof fn lemma_risk_within_limits(
    limits: RiskLimits,
    ticket_id: TicketId,
    vault: VaultState,
    requested: Amount,
    relayer_fee: Amount,
)
    ensures
        spec_evaluate_ticket(limits, ticket_id, vault, requested, relayer_fee) is Ok <==> {
            &&& requested.0 * limits.max_fee_bps.0 <= u128::MAX
            &&& requested.0 <= limits.max_ticket_amount.0
            &&& relayer_fee.0 <= (requested.0 * limits.max_fee_bps.0) / 10_000
            &&& requested.0 <= vault.reserve_balance.0
            &&& vault.reserve_balance.0 - requested.0 >= limits.min_post_settlement_reserve.0
            &&& requested.0 == 0 || relayer_fee.0 * 10_000 < 10_001 * requested.0
        },
        spec_evaluate_ticket(limits, ticket_id, vault, requested, relayer_fee) matches Ok(snap) ==> {
            &&& snap.ticket_id == ticket_id
            &&& snap.vault_id == vault.config.vault_id
            &&& snap.projected_reserve.0 == vault.reserve_balance.0 - requested.0
            &&& snap.requested_amount == requested
            &&& snap.relayer_fee == relayer_fee
            &&& requested.0 > 0 ==> snap.fee_bps.0 * requested.0 <= relayer_fee.0 * 10_000 < (snap.fee_bps.0
                + 1) * requested.0
            &&& requested.0 == 0 ==> snap.fee_bps.0 == 0
        },
{
    let q = requested.0 as int;
    let f = relayer_fee.0 as int;
    if q > 0 {
        let r = fee_ratio(requested, relayer_fee);
        lemma_fundamental_div_mod(f * 10_000, q);
        lemma_mod_pos_bound(f * 10_000, q);
        assert(q * r <= f * 10_000 < q * r + q);
        assert(r * q == q * r && (r + 1) * q == q * r + q) by (nonlinear_arith);
        assert(r <= 10_000 <==> f * 10_000 < 10_001 * q) by (nonlinear_arith)
            requires
                q > 0,
                f >= 0,
                q * r <= f * 10_000,
                f * 10_000 < q * r + q,
        ;
        assert(r >= 0) by (nonlinear_arith)
            requires
                q > 0,
                f >= 0,
                r == (f * 10_000) / q,
        ;
    }
}

impl View for RiskEngine {
    type V = RiskLimits;

    closed spec fn view(&self) -> RiskLimits {
        self.limits
    }
}

impl Default for RiskEngine {
    fn default() -> (r: Self)
        ensures
            r@ == zero_limits(),
    {
        RiskEngine { limits: RiskLimits::default() }
    }
}

impl RiskEngine {
    pub fn set_limits(&mut self, limits: RiskLimits)
        ensures
            final(self)@ == limits,
    {
        self.limits = limits;
    }

    pub fn limits(&self) -> (r: RiskLimits)
        ensures
            r == self@,
    {
        self.limits
    }

    pub fn evaluate_ticket(
        &self,
        ticket_id: TicketId,
        vault: &VaultState,
        requested_amount: Amount,
        relayer_fee: Amount,
    ) -> (r: HorizonResult<RiskSnapshot>)
        ensures
            result_view(r) == spec_evaluate_ticket(self@, ticket_id, *vault, requested_amount, relayer_fee),
    {
        if requested_amount.0 > self.limits.max_ticket_amount.0 {
            return Err(policy("ticket amount exceeds risk limit"));
        }
        let max_fee = requested_amount.checked_mul_bps(self.limits.max_fee_bps)?;
        if relayer_fee.0 > max_fee.0 {
            return Err(policy("relayer fee exceeds risk limit"));
        }
        let projected_reserve = vault.reserve_balance.checked_sub(requested_amount)?;
        if projected_reserve.0 < self.limits.min_post_settlement_reserve.0 {
            return Err(policy("post settlement reserve is below limit"));
        }
        let fee_bps = if requested_amount.is_zero() {
            Bps::new(0)?
        } else {
            proof {
                lemma_fee_ratio_bound(
                    requested_amount.0 as int,
                    self.limits.max_fee_bps.0 as int,
                    relayer_fee.0 as int,
                );
            }
            Bps::new(((relayer_fee.units() * 10_000) / requested_amount.units()) as u16)?
        };
        Ok(
            RiskSnapshot {
                ticket_id,
                vault_id: vault.config.vault_id,
                projected_reserve,
                requested_amount,
                relayer_fee,
                fee_bps,
            },
        )
    }
}

impl Duplicate for RiskEngine {
    fn duplicate(&self) -> (r: Self) {
        RiskEngine { limits: self.limits }
    }
}

impl View for RiskLimits {
    type V = RiskLimits;

    open spec fn view(&self) -> RiskLimits {
        *self
    }
}

impl Canonical for RiskLimits {
    open spec fn json(v: RiskLimits) -> Seq<u8> {
        lit("{\"current_epoch\":")
            + u64::json(v.current_epoch)
            + lit(",\"max_ticket_amount\":")
            + Amount::json(v.max_ticket_amount)
            + lit(",\"max_fee_bps\":")
            + Bps::json(v.max_fee_bps)
            + lit(",\"min_post_settlement_reserve\":")
            + Amount::json(v.min_post_settlement_reserve)
            + lit("}")
    }

    fn write_json(&self, out: &mut Vec<u8>) {
        let ghost v = self@;
        let ghost mut acc: Seq<u8>;
        write_lit("{\"current_epoch\":", out);
        proof {
            acc = lit("{\"current_epoch\":");
        }
        self.current_epoch.write_json(out);
        proof {
            lemma_concat_associative(old(out)@, acc, u64::json(v.current_epoch));
            acc = acc + u64::json(v.current_epoch);
        }
        write_lit(",\"max_ticket_amount\":", out);
        proof {
            lemma_concat_associative(old(out)@, acc, lit(",\"max_ticket_amount\":"));
            acc = acc + lit(",\"max_ticket_amount\":");
        }
        self.max_ticket_amount.write_json(out);
        proof {
            lemma_concat_associative(old(out)@, acc, Amount::json(v.max_ticket_amount));
            acc = acc + Amount::json(v.max_ticket_amount);
        }
        write_lit(",\"max_fee_bps\":", out);
        proof {
            lemma_concat_associative(old(out)@, acc, lit(",\"max_fee_bps\":"));
            acc = acc + lit(",\"max_fee_bps\":");
        }
        self.max_fee_bps.write_json(out);
        proof {
            lemma_concat_associative(old(out)@, acc, Bps::json(v.max_fee_bps));
            acc = acc + Bps::json(v.max_fee_bps);
        }
        write_lit(",\"min_post_settlement_reserve\":", out);
        proof {
            lemma_concat_associative(old(out)@, acc, lit(",\"min_post_settlement_reserve\":"));
            acc = acc + lit(",\"min_post_settlement_reserve\":");
        }
        self.min_post_settlement_reserve.write_json(out);
        proof {
            lemma_concat_associative(old(out)@, acc, Amount::json(v.min_post_settlement_reserve));
            acc = acc + Amount::json(v.min_post_settlement_reserve);
        }
        write_lit("}", out);
        proof {
            lemma_concat_associative(old(out)@, acc, lit("}"));
            acc = acc + lit("}");
        }
        assert(acc == Self::json(v));
    }
}

impl Canonical for RiskEngine {
    open spec fn json(v: RiskLimits) -> Seq<u8> {
        lit("{\"limits\":") + RiskLimits::json(v) + lit("}")
    }

    fn write_json(&self, out: &mut Vec<u8>) {
        write_lit("{\"limits\":", out);
        self.limits.write_json(out);
        write_lit("}", out);
        assert(out@ =~= old(out)@ + Self::json(self@));
    }
}

impl View for RiskSnapshot {
    type V = RiskSnapshot;

    open spec fn view(&self) -> RiskSnapshot {
        *self
    }
}

impl Canonical for RiskSnapshot {
    open spec fn json(v: RiskSnapshot) -> Seq<u8> {
        lit("{\"ticket_id\":")
            + TicketId::json(v.ticket_id)
            + lit(",\"vault_id\":")
            + VaultId::json(v.vault_id)
            + lit(",\"projected_reserve\":")
            + Amount::json(v.projected_reserve)
            + lit(",\"requested_amount\":")
            + Amount::json(v.requested_amount)
            + lit(",\"relayer_fee\":")
            + Amount::json(v.relayer_fee)
            + lit(",\"fee_bps\":")
            + Bps::json(v.fee_bps)
            + lit("}")
    }

    fn write_json(&self, out: &mut Vec<u8>) {
        let ghost v = self@;
        let ghost mut acc: Seq<u8>;
        write_lit("{\"ticket_id\":", out);
        proof {
            acc = lit("{\"ticket_id\":");
        }
        self.ticket_id.write_json(out);
        proof {
            lemma_concat_associative(old(out)@, acc, TicketId::json(v.ticket_id));
            acc = acc + TicketId::json(v.ticket_id);
        }
        write_lit(",\"vault_id\":", out);
        proof {
            lemma_concat_associative(old(out)@, acc, lit(",\"vault_id\":"));
            acc = acc + lit(",\"vault_id\":");
        }
        self.vault_id.write_json(out);
        proof {
            lemma_concat_associative(old(out)@, acc, VaultId::json(v.vault_id));
            acc = acc + VaultId::json(v.vault_id);
        }
        write_lit(",\"projected_reserve\":", out);
        proof {
            lemma_concat_associative(old(out)@, acc, lit(",\"projected_reserve\":"));
            acc = acc + lit(",\"projected_reserve\":");
        }
        self.projected_reserve.write_json(out);
        proof {
            lemma_concat_associative(old(out)@, acc, Amount::json(v.projected_reserve));
            acc = acc + Amount::json(v.projected_reserve);
        }
        write_lit(",\"requested_amount\":", out);
        proof {
            lemma_concat_associative(old(out)@, acc, lit(",\"requested_amount\":"));
            acc = acc + lit(",\"requested_amount\":");
        }
        self.requested_amount.write_json(out);
        proof {
            lemma_concat_associative(old(out)@, acc, Amount::json(v.requested_amount));
            acc = acc + Amount::json(v.requested_amount);
        }
        write_lit(",\"relayer_fee\":", out);
        proof {
            lemma_concat_associative(old(out)@, acc, lit(",\"relayer_fee\":"));
            acc = acc + lit(",\"relayer_fee\":");
        }
        self.relayer_fee.write_json(out);
        proof {
            lemma_concat_associative(old(out)@, acc, Amount::json(v.relayer_fee));
            acc = acc + Amount::json(v.relayer_fee);
        }
        write_lit(",\"fee_bps\":", out);
        proof {
            lemma_concat_associative(old(out)@, acc, lit(",\"fee_bps\":"));
            acc = acc + lit(",\"fee_bps\":");
        }
        self.fee_bps.write_json(out);
        proof {
            lemma_concat_associative(old(out)@, acc, Bps::json(v.fee_bps));
            acc = acc + Bps::json(v.fee_bps);
        }
        write_lit("}", out);
        proof {
            lemma_concat_associative(old(out)@, acc, lit("}"));
            acc = acc + lit("}");
        }
        assert(acc == Self::json(v));
    }
}

} // verus!
