//! Fee schedule and the fees accrued under it.
use vstd::prelude::*;
use vstd::seq_lib::lemma_concat_associative;

use crate::amount::{spec_add, spec_mul_bps, Amount, Bps};
use crate::bytemap::{map_get, map_insert, ByteMap, Duplicate};
use crate::codec::{json_map, lit, write_lit, Canonical};
use crate::error::{policy, ErrorView, HorizonError, HorizonResult, result_view};
use crate::ids::{AccountId, AssetId};

verus! {

#[derive(Copy, Clone, Debug, Eq, PartialEq)]
pub struct FeeSchedule {
    pub treasury: AccountId,
    pub protocol_fee_bps: Bps,
    pub reserve_fee_bps: Bps,
}

impl FeeSchedule {
    pub fn new(treasury: AccountId, protocol_fee_bps: Bps, reserve_fee_bps: Bps) -> (r: HorizonResult<Self>)
        ensures
            protocol_fee_bps.0 + reserve_fee_bps.0 <= 10_000 ==> r == Ok::<FeeSchedule, HorizonError>(
                FeeSchedule { treasury, protocol_fee_bps, reserve_fee_bps },
            ),
            protocol_fee_bps.0 + reserve_fee_bps.0 > 10_000 ==> result_view(r) == Err::<
                FeeSchedule,
                ErrorView,
            >(ErrorView::Policy("fee schedule exceeds range"@)),
    {
        let total = protocol_fee_bps.units() as u32 + reserve_fee_bps.units() as u32;
        if total > 10_000 {
            return Err(policy("fee schedule exceeds range"));
        }
        Ok(FeeSchedule { treasury, protocol_fee_bps, reserve_fee_bps })
    }
}

/// What a fee ledger holds: its schedule and, per asset, the fees accrued
/// and the reserve buffer, in asset order.
pub struct FeeLedgerView {
    pub schedule: Option<FeeSchedule>,
    pub accrued: Seq<([u8; 32], Amount)>,
    pub reserve_buffer: Seq<([u8; 32], Amount)>,
}

pub struct FeeLedger {
    schedule: Option<FeeSchedule>,
    accrued: ByteMap<Amount>,
    reserve_buffer: ByteMap<Amount>,
}

/// The amount held for `asset` in a per-asset table, zero where absent.
pub open spec fn amount_of(table: Seq<([u8; 32], Amount)>, asset: [u8; 32]) -> Amount {
    match map_get(table, asset) {
        Some(a) => a,
        None => Amount(0),
    }
}

/// Adding `amount` to the entry of `asset`: nothing to do for zero, an
/// overflow error past the largest amount.
pub open spec fn spec_add_to(table: Seq<([u8; 32], Amount)>, asset: [u8; 32], amount: Amount) -> Result<
    Seq<([u8; 32], Amount)>,
    ErrorView,
> {
    if amount.0 == 0 {
        Ok(table)
    } else {
        match spec_add(amount_of(table, asset), amount) {
            Ok(sum) => Ok(map_insert(table, asset, sum)),
            Err(e) => Err(e),
        }
    }
}

/// A fee of `bps` on `notional` under `schedule`, zero where no schedule is set.
pub open spec fn spec_fee(schedule: Option<FeeSchedule>, notional: Amount, protocol: bool) -> Result<
    Amount,
    ErrorView,
> {
    match schedule {
        None => Ok(Amount(0)),
        Some(s) => spec_mul_bps(notional, if protocol {
            s.protocol_fee_bps
        } else {
            s.reserve_fee_bps
        }),
    }
}

/// Under a schedule within range, the protocol fee and the reserve fee on a
/// notional, where both can be computed, add up to no more than the notional.
pub proof fn lemma_fees_within_notional(schedule: FeeSchedule, notional: Amount)
    requires
        schedule.protocol_fee_bps.0 + schedule.reserve_fee_bps.0 <= 10_000,
        spec_fee(Some(schedule), notional, true) is Ok,
        spec_fee(Some(schedule), notional, false) is Ok,
    ensures
        spec_fee(Some(schedule), notional, true)->Ok_0.0 + spec_fee(Some(schedule), notional, false)->Ok_0.0
            <= notional.0,
{
    let n = notional.0 as int;
    let p = schedule.protocol_fee_bps.0 as int;
    let r = schedule.reserve_fee_bps.0 as int;
    assert((n * p) / 10_000 + (n * r) / 10_000 <= n) by (nonlinear_arith)
        requires
            0 <= n,
            0 <= p,
            0 <= r,
            p + r <= 10_000,
    {
        assert(n * p + n * r <= n * 10_000) by (nonlinear_arith)
            requires
                0 <= n,
                p + r <= 10_000,
        ;
    }
}

impl View for FeeLedger {
    type V = FeeLedgerView;

    closed spec fn view(&self) -> FeeLedgerView {
        FeeLedgerView {
            schedule: self.schedule,
            accrued: self.accrued@,
            reserve_buffer: self.reserve_buffer@,
        }
    }
}

impl Default for FeeLedger {
    fn default() -> (r: Self)
        ensures
            r@.schedule is None,
            r@.accrued == Seq::<([u8; 32], Amount)>::empty(),
            r@.reserve_buffer == Seq::<([u8; 32], Amount)>::empty(),
    {
        FeeLedger { schedule: None, accrued: ByteMap::new(), reserve_buffer: ByteMap::new() }
    }
}

impl FeeLedger {
    pub fn configure(&mut self, schedule: FeeSchedule)
        ensures
            final(self)@ == (FeeLedgerView { schedule: Some(schedule), ..old(self)@ }),
    {
        self.schedule = Some(schedule);
    }

    pub fn protocol_fee(&self, notional: Amount) -> (r: HorizonResult<Amount>)
        ensures
            result_view(r) == spec_fee(self@.schedule, notional, true),
    {
        match self.schedule {
            Some(schedule) => notional.checked_mul_bps(schedule.protocol_fee_bps),
            None => Ok(Amount::zero()),
        }
    }

    pub fn reserve_fee(&self, notional: Amount) -> (r: HorizonResult<Amount>)
        ensures
            result_view(r) == spec_fee(self@.schedule, notional, false),
    {
        match self.schedule {
            Some(schedule) => notional.checked_mul_bps(schedule.reserve_fee_bps),
            None => Ok(Amount::zero()),
        }
    }

    pub fn accrue(&mut self, asset: AssetId, amount: Amount) -> (r: HorizonResult<()>)
        ensures
            match spec_add_to(old(self)@.accrued, asset.0, amount) {
                Ok(accrued) => r is Ok && final(self)@ == (FeeLedgerView { accrued, ..old(self)@ }),
                Err(e) => result_view(r) == Err::<(), ErrorView>(e) && final(self)@ == old(self)@,
            },
    {
        if amount.is_zero() {
            return Ok(());
        }
        let current = match self.accrued.get(&asset.0) {
            Some(a) => *a,
            None => Amount::zero(),
        };
        let next = current.checked_add(amount)?;
        self.accrued.insert(asset.0, next);
        Ok(())
    }

    pub fn add_reserve_buffer(&mut self, asset: AssetId, amount: Amount) -> (r: HorizonResult<()>)
        ensures
            match spec_add_to(old(self)@.reserve_buffer, asset.0, amount) {
                Ok(reserve_buffer) => r is Ok && final(self)@ == (FeeLedgerView {
                    reserve_buffer,
                    ..old(self)@
                }),
                Err(e) => result_view(r) == Err::<(), ErrorView>(e) && final(self)@ == old(self)@,
            },
    {
        if amount.is_zero() {
            return Ok(());
        }
        let current = match self.reserve_buffer.get(&asset.0) {
            Some(a) => *a,
            None => Amount::zero(),
        };
        let next = current.checked_add(amount)?;
        self.reserve_buffer.insert(asset.0, next);
        Ok(())
    }

    pub fn accrued_asset_count(&self) -> (r: usize)
        ensures
            r == self@.accrued.len(),
    {
        self.accrued.len()
    }
}

impl Duplicate for FeeLedger {
    fn duplicate(&self) -> (r: Self) {
        FeeLedger {
            schedule: self.schedule,
            accrued: self.accrued.duplicate(),
            reserve_buffer: self.reserve_buffer.duplicate(),
        }
    }
}

impl View for FeeSchedule {
    type V = FeeSchedule;

    open spec fn view(&self) -> FeeSchedule {
        *self
    }
}

impl Canonical for FeeSchedule {
    open spec fn json(v: FeeSchedule) -> Seq<u8> {
        lit("{\"treasury\":")
            + AccountId::json(v.treasury)
            + lit(",\"protocol_fee_bps\":")
            + Bps::json(v.protocol_fee_bps)
            + lit(",\"reserve_fee_bps\":")
            + Bps::json(v.reserve_fee_bps)
            + lit("}")
    }

    fn write_json(&self, out: &mut Vec<u8>) {
        let ghost v = self@;
        let ghost mut acc: Seq<u8>;
        write_lit("{\"treasury\":", out);
        proof {
            acc = lit("{\"treasury\":");
        }
        self.treasury.write_json(out);
        proof {
            lemma_concat_associative(old(out)@, acc, AccountId::json(v.treasury));
            acc = acc + AccountId::json(v.treasury);
        }
        write_lit(",\"protocol_fee_bps\":", out);
        proof {
            lemma_concat_associative(old(out)@, acc, lit(",\"protocol_fee_bps\":"));
            acc = acc + lit(",\"protocol_fee_bps\":");
        }
        self.protocol_fee_bps.write_json(out);
        proof {
            lemma_concat_associative(old(out)@, acc, Bps::json(v.protocol_fee_bps));
            acc = acc + Bps::json(v.protocol_fee_bps);
        }
        write_lit(",\"reserve_fee_bps\":", out);
        proof {
            lemma_concat_associative(old(out)@, acc, lit(",\"reserve_fee_bps\":"));
            acc = acc + lit(",\"reserve_fee_bps\":");
        }
        self.reserve_fee_bps.write_json(out);
        proof {
            lemma_concat_associative(old(out)@, acc, Bps::json(v.reserve_fee_bps));
            acc = acc + Bps::json(v.reserve_fee_bps);
        }
        write_lit("}", out);
        proof {
            lemma_concat_associative(old(out)@, acc, lit("}"));
            acc = acc + lit("}");
        }
        assert(acc == Self::json(v));
    }
}

/// An optional schedule: `null` where none is set.
pub open spec fn json_schedule(v: Option<FeeSchedule>) -> Seq<u8> {
    match v {
        Some(s) => FeeSchedule::json(s),
        None => lit("null"),
    }
}

impl Canonical for FeeLedger {
    open spec fn json(v: FeeLedgerView) -> Seq<u8> {
        lit("{\"schedule\":") + json_schedule(v.schedule) + lit(",\"accrued\":") + json_map::<Amount>(
            v.accrued,
        ) + lit(",\"reserve_buffer\":") + json_map::<Amount>(v.reserve_buffer) + lit("}")
    }

    fn write_json(&self, out: &mut Vec<u8>) {
        write_lit("{\"schedule\":", out);
        match self.schedule {
            Some(s) => s.write_json(out),
            None => write_lit("null", out),
        }
        write_lit(",\"accrued\":", out);
        self.accrued.write_json(out);
        write_lit(",\"reserve_buffer\":", out);
        self.reserve_buffer.write_json(out);
        write_lit("}", out);
        assert(out@ =~= old(out)@ + Self::json(self@));
    }
}

} // verus!
