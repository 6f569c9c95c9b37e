//! Amounts, share units, share indices and basis points.
use vstd::prelude::*;

use crate::bytemap::Duplicate;
use crate::bytes::decimal;
use crate::codec::Canonical;
use crate::bytes::write_decimal;
use crate::error::{ErrorView, HorizonError, HorizonResult, result_view};
use vstd::arithmetic::div_mod::{
    lemma_div_by_multiple, lemma_div_is_ordered, lemma_fundamental_div_mod, lemma_mod_pos_bound,
};

verus! {

/// The fixed-point scale of a share index: an index of `INDEX_SCALE` is one.
pub const INDEX_SCALE: u128 = 1_000_000_000_000;

#[derive(Copy, Clone, Debug, Eq, PartialEq, Structural, Ord, PartialOrd, Hash)]
pub struct Amount(pub u128);

#[derive(Copy, Clone, Debug, Eq, PartialEq, Structural, Ord, PartialOrd, Hash)]
pub struct ShareUnits(pub u128);

#[derive(Copy, Clone, Debug, Eq, PartialEq, Structural, Ord, PartialOrd, Hash)]
pub struct ShareIndex(pub u128);

#[derive(Copy, Clone, Debug, Eq, PartialEq, Structural, Ord, PartialOrd, Hash)]
pub struct Bps(pub u16);

/// `a + b`, or an overflow error past `u128::MAX`.
pub open spec fn spec_add(a: Amount, b: Amount) -> Result<Amount, ErrorView> {
    if a.0 + b.0 <= u128::MAX {
        Ok(Amount((a.0 + b.0) as u128))
    } else {
        Err(ErrorView::AmountOverflow)
    }
}

/// `a - b`, or an underflow error below zero.
pub open spec fn spec_sub(a: Amount, b: Amount) -> Result<Amount, ErrorView> {
    if a.0 >= b.0 {
        Ok(Amount((a.0 - b.0) as u128))
    } else {
        Err(ErrorView::AmountUnderflow)
    }
}

/// `a` scaled by `bps` basis points, rounded down; an overflow error where
/// `a * bps` passes `u128::MAX`.
pub open spec fn spec_mul_bps(a: Amount, bps: Bps) -> Result<Amount, ErrorView> {
    if a.0 * bps.0 <= u128::MAX {
        Ok(Amount(((a.0 * bps.0) / 10_000) as u128))
    } else {
        Err(ErrorView::AmountOverflow)
    }
}

/// Share units bought by `amount` at index `index`: `amount * INDEX_SCALE / index`.
pub open spec fn spec_units_from_amount(index: ShareIndex, amount: Amount) -> Result<
    ShareUnits,
    ErrorView,
> {
    if amount.0 * INDEX_SCALE <= u128::MAX && index.0 != 0 {
        Ok(ShareUnits(((amount.0 * INDEX_SCALE) / (index.0 as int)) as u128))
    } else {
        Err(ErrorView::AmountOverflow)
    }
}

/// The amount that `units` are worth at index `index`: `units * index / INDEX_SCALE`.
pub open spec fn spec_amount_from_units(index: ShareIndex, units: ShareUnits) -> Result<
    Amount,
    ErrorView,
> {
    if units.0 * index.0 <= u128::MAX {
        Ok(Amount(((units.0 * index.0) / (INDEX_SCALE as int)) as u128))
    } else {
        Err(ErrorView::AmountOverflow)
    }
}

/// Converting an amount to share units and back at one index never gives
/// back more than the amount: both roundings are down, in the vault's favour.
pub proof fn lemma_units_round_trip(index: ShareIndex, amount: Amount)
    requires
        spec_units_from_amount(index, amount) is Ok,
    ensures
        spec_amount_from_units(index, spec_units_from_amount(index, amount)->Ok_0) matches Ok(back)
            && back.0 <= amount.0,
{
    let a = amount.0 as int;
    let i = index.0 as int;
    let scale = INDEX_SCALE as int;
    let u = (a * scale) / i;
    assert(u * i <= a * scale) by {
        lemma_fundamental_div_mod(a * scale, i);
        lemma_mod_pos_bound(a * scale, i);
        assert(i * u == u * i) by (nonlinear_arith);
    }
    assert(u >= 0) by (nonlinear_arith)
        requires
            a >= 0,
            scale > 0,
            i > 0,
            u == (a * scale) / i,
    ;
    assert(u * i >= 0) by (nonlinear_arith)
        requires
            u >= 0,
            i > 0,
    ;
    lemma_div_is_ordered(u * i, a * scale, scale);
    lemma_div_by_multiple(a, scale);
}

/// At an index of one a share unit is worth one unit of amount: converting
/// an amount to units gives the same number, and back gives the amount.
pub proof fn lemma_units_at_par(amount: Amount)
    requires
        amount.0 * INDEX_SCALE <= u128::MAX,
    ensures
        spec_units_from_amount(ShareIndex(INDEX_SCALE), amount) == Ok::<ShareUnits, ErrorView>(
            ShareUnits(amount.0),
        ),
        spec_amount_from_units(ShareIndex(INDEX_SCALE), ShareUnits(amount.0)) == Ok::<Amount, ErrorView>(
            amount,
        ),
{
    lemma_div_by_multiple(amount.0 as int, INDEX_SCALE as int);
    assert(amount.0 * INDEX_SCALE == INDEX_SCALE * amount.0) by (nonlinear_arith);
}

impl Amount {
    pub fn zero() -> (r: Self)
        ensures
            r.0 == 0,
    {
        Amount(0)
    }

    pub fn new(units: u128) -> (r: HorizonResult<Self>)
        ensures
            r == Ok::<Amount, HorizonError>(Amount(units)),
    {
        Ok(Amount(units))
    }

    pub fn units(self) -> (r: u128)
        ensures
            r == self.0,
    {
        self.0
    }

    pub fn is_zero(self) -> (r: bool)
        ensures
            r == (self.0 == 0),
    {
        self.0 == 0
    }

    pub fn checked_add(self, rhs: Self) -> (r: HorizonResult<Self>)
        ensures
            result_view(r) == spec_add(self, rhs),
    {
        match self.0.checked_add(rhs.0) {
            Some(v) => Ok(Amount(v)),
            None => Err(HorizonError::AmountOverflow),
        }
    }

    pub fn checked_sub(self, rhs: Self) -> (r: HorizonResult<Self>)
        ensures
            result_view(r) == spec_sub(self, rhs),
    {
        match self.0.checked_sub(rhs.0) {
            Some(v) => Ok(Amount(v)),
            None => Err(HorizonError::AmountUnderflow),
        }
    }

    pub fn checked_mul(self, rhs: u128) -> (r: HorizonResult<Self>)
        ensures
            self.0 * rhs <= u128::MAX ==> r == Ok::<Amount, HorizonError>(
                Amount((self.0 * rhs) as u128),
            ),
            self.0 * rhs > u128::MAX ==> result_view(r) == Err::<Amount, ErrorView>(
                ErrorView::AmountOverflow,
            ),
    {
        match self.0.checked_mul(rhs) {
            Some(v) => Ok(Amount(v)),
            None => Err(HorizonError::AmountOverflow),
        }
    }

    pub fn checked_div(self, rhs: u128) -> (r: HorizonResult<Self>)
        ensures
            rhs != 0 ==> r == Ok::<Amount, HorizonError>(Amount(self.0 / rhs)),
            rhs == 0 ==> result_view(r) == Err::<Amount, ErrorView>(ErrorView::DivisionByZero),
    {
        if rhs == 0 {
            return Err(HorizonError::DivisionByZero);
        }
        Ok(Amount(self.0 / rhs))
    }

    pub fn checked_mul_bps(self, bps: Bps) -> (r: HorizonResult<Self>)
        ensures
            result_view(r) == spec_mul_bps(self, bps),
    {
        match self.0.checked_mul(bps.0 as u128) {
            Some(v) => Ok(Amount(v / 10_000)),
            None => Err(HorizonError::AmountOverflow),
        }
    }
}

impl ShareUnits {
    pub fn zero() -> (r: Self)
        ensures
            r.0 == 0,
    {
        ShareUnits(0)
    }

    pub fn new(units: u128) -> (r: HorizonResult<Self>)
        ensures
            r == Ok::<ShareUnits, HorizonError>(ShareUnits(units)),
    {
        Ok(ShareUnits(units))
    }

    pub fn units(self) -> (r: u128)
        ensures
            r == self.0,
    {
        self.0
    }
}

impl ShareIndex {
    pub fn one() -> (r: Self)
        ensures
            r.0 == INDEX_SCALE,
    {
        ShareIndex(INDEX_SCALE)
    }

    pub fn new(raw: u128) -> (r: HorizonResult<Self>)
        ensures
            raw != 0 ==> r == Ok::<ShareIndex, HorizonError>(ShareIndex(raw)),
            raw == 0 ==> result_view(r) == Err::<ShareIndex, ErrorView>(ErrorView::DivisionByZero),
    {
        if raw == 0 {
            return Err(HorizonError::DivisionByZero);
        }
        Ok(ShareIndex(raw))
    }

    pub fn raw(self) -> (r: u128)
        ensures
            r == self.0,
    {
        self.0
    }

    pub fn units_from_amount(self, amount: Amount) -> (r: HorizonResult<ShareUnits>)
        ensures
            result_view(r) == spec_units_from_amount(self, amount),
    {
        match amount.0.checked_mul(INDEX_SCALE) {
            Some(v) => {
                if self.0 == 0 {
                    Err(HorizonError::AmountOverflow)
                } else {
                    Ok(ShareUnits(v / self.0))
                }
            },
            None => Err(HorizonError::AmountOverflow),
        }
    }

    pub fn amount_from_units(self, units: ShareUnits) -> (r: HorizonResult<Amount>)
        ensures
            result_view(r) == spec_amount_from_units(self, units),
    {
        match units.0.checked_mul(self.0) {
            Some(v) => Ok(Amount(v / INDEX_SCALE)),
            None => Err(HorizonError::AmountOverflow),
        }
    }
}

impl Bps {
    pub fn new(units: u16) -> (r: HorizonResult<Self>)
        ensures
            units <= 10_000 ==> r == Ok::<Bps, HorizonError>(Bps(units)),
            units > 10_000 ==> result_view(r) == Err::<Bps, ErrorView>(
                ErrorView::BpsOutOfRange(units),
            ),
    {
        if units > 10_000 {
            return Err(HorizonError::BpsOutOfRange(units));
        }
        Ok(Bps(units))
    }

    pub fn units(self) -> (r: u16)
        ensures
            r == self.0,
    {
        self.0
    }
}

impl Default for Amount {
    fn default() -> (r: Self)
        ensures
            r.0 == 0,
    {
        Amount(0)
    }
}

impl Default for ShareUnits {
    fn default() -> (r: Self)
        ensures
            r.0 == 0,
    {
        ShareUnits(0)
    }
}

impl View for Amount {
    type V = Amount;

    open spec fn view(&self) -> Amount {
        *self
    }
}

impl Duplicate for Amount {
    fn duplicate(&self) -> (r: Self) {
        *self
    }
}

impl Canonical for Amount {
    open spec fn json(v: Amount) -> Seq<u8> {
        decimal(v.0 as nat)
    }

    fn write_json(&self, out: &mut Vec<u8>) {
        write_decimal(self.0, out);
    }
}

impl View for ShareUnits {
    type V = ShareUnits;

    open spec fn view(&self) -> ShareUnits {
        *self
    }
}

impl Canonical for ShareUnits {
    open spec fn json(v: ShareUnits) -> Seq<u8> {
        decimal(v.0 as nat)
    }

    fn write_json(&self, out: &mut Vec<u8>) {
        write_decimal(self.0, out);
    }
}

impl View for ShareIndex {
    type V = ShareIndex;

    open spec fn view(&self) -> ShareIndex {
        *self
    }
}

impl Canonical for ShareIndex {
    open spec fn json(v: ShareIndex) -> Seq<u8> {
        decimal(v.0 as nat)
    }

    fn write_json(&self, out: &mut Vec<u8>) {
        write_decimal(self.0, out);
    }
}

impl View for Bps {
    type V = Bps;

    open spec fn view(&self) -> Bps {
        *self
    }
}

impl Canonical for Bps {
    open spec fn json(v: Bps) -> Seq<u8> {
        decimal(v.0 as nat)
    }

    fn write_json(&self, out: &mut Vec<u8>) {
        write_decimal(self.0 as u128, out);
    }
}

} // verus!
