//! Accounts: an identity, balances per asset and two nonces.
use vstd::prelude::*;
use vstd::seq_lib::lemma_concat_associative;

use crate::amount::{spec_add, Amount};
use crate::bytemap::{map_insert, map_remove, ByteMap, Duplicate};
use crate::codec::{json_map, lit, write_lit, Canonical};
use crate::crypto::PublicIdentity;
use crate::error::{ErrorView, HorizonError, HorizonResult, result_view};
use crate::fees::amount_of;
use crate::ids::{AccountId, AssetId};

verus! {

pub struct AccountState {
    pub identity: PublicIdentity,
    pub balances: ByteMap<Amount>,
    pub next_ingress_nonce: u64,
    pub next_ticket_nonce: u64,
}

/// What an account holds: its identity, its nonzero balances in asset order
/// and its two nonces.
pub struct AccountView {
    pub identity: PublicIdentity,
    pub balances: Seq<([u8; 32], Amount)>,
    pub next_ingress_nonce: u64,
    pub next_ticket_nonce: u64,
}

impl View for AccountState {
    type V = AccountView;

    open spec fn view(&self) -> AccountView {
        AccountView {
            identity: self.identity,
            balances: self.balances@,
            next_ingress_nonce: self.next_ingress_nonce,
            next_ticket_nonce: self.next_ticket_nonce,
        }
    }
}

/// A new account: no balances, both nonces zero.
pub open spec fn fresh_account(identity: PublicIdentity) -> AccountView {
    AccountView {
        identity,
        balances: Seq::empty(),
        next_ingress_nonce: 0,
        next_ticket_nonce: 0,
    }
}

/// The balance of `asset`, zero where the account holds none.
pub open spec fn balance(a: AccountView, asset: AssetId) -> Amount {
    amount_of(a.balances, asset.0)
}

/// The balances with `asset` set to `amount`; a zero balance is not kept.
pub open spec fn set_balance(
    balances: Seq<([u8; 32], Amount)>,
    asset: AssetId,
    amount: Amount,
) -> Seq<([u8; 32], Amount)> {
    if amount.0 == 0 {
        map_remove(balances, asset.0)
    } else {
        map_insert(balances, asset.0, amount)
    }
}

/// Crediting `amount` of `asset`; an overflow error past the largest amount.
pub open spec fn spec_credit(a: AccountView, asset: AssetId, amount: Amount) -> Result<AccountView, ErrorView> {
    match spec_add(balance(a, asset), amount) {
        Err(e) => Err(e),
        Ok(next) => Ok(AccountView { balances: set_balance(a.balances, asset, next), ..a }),
    }
}

/// Debiting `amount` of `asset` from `account`; refused where the balance is short.
pub open spec fn spec_debit(a: AccountView, account: AccountId, asset: AssetId, amount: Amount) -> Result<
    AccountView,
    ErrorView,
> {
    if balance(a, asset).0 < amount.0 {
        Err(
            ErrorView::InsufficientFunds {
                account,
                asset,
                available: balance(a, asset),
                required: amount,
            },
        )
    } else {
        Ok(
            AccountView {
                balances: set_balance(a.balances, asset, Amount((balance(a, asset).0 - amount.0) as u128)),
                ..a
            },
        )
    }
}

/// Advancing the ingress nonce; an overflow error at the largest nonce.
pub open spec fn spec_advance_ingress(a: AccountView) -> Result<AccountView, ErrorView> {
    if a.next_ingress_nonce < u64::MAX {
        Ok(AccountView { next_ingress_nonce: (a.next_ingress_nonce + 1) as u64, ..a })
    } else {
        Err(ErrorView::AmountOverflow)
    }
}

/// Advancing the ticket nonce; an overflow error at the largest nonce.
pub open spec fn spec_advance_ticket(a: AccountView) -> Result<AccountView, ErrorView> {
    if a.next_ticket_nonce < u64::MAX {
        Ok(AccountView { next_ticket_nonce: (a.next_ticket_nonce + 1) as u64, ..a })
    } else {
        Err(ErrorView::AmountOverflow)
    }
}

/// The account left by an update: the new one, or the old one on error.
pub open spec fn account_after(a: AccountView, r: Result<AccountView, ErrorView>) -> AccountView {
    match r {
        Ok(n) => n,
        Err(_) => a,
    }
}

/// The outcome of an update, without the account it leaves.
pub open spec fn account_outcome(r: Result<AccountView, ErrorView>) -> Result<(), ErrorView> {
    match r {
        Ok(_) => Ok(()),
        Err(e) => Err(e),
    }
}

impl AccountState {
    pub fn new(identity: PublicIdentity) -> (r: Self)
        ensures
            r@ == fresh_account(identity),
    {
        AccountState {
            identity,
            balances: ByteMap::new(),
            next_ingress_nonce: 0,
            next_ticket_nonce: 0,
        }
    }

    pub fn balance_of(&self, asset: AssetId) -> (r: Amount)
        ensures
            r == balance(self@, asset),
    {
        match self.balances.get(&asset.0) {
            Some(a) => *a,
            None => Amount::zero(),
        }
    }

    pub(crate) fn credit(&mut self, asset: AssetId, amount: Amount) -> (r: HorizonResult<()>)
        ensures
            final(self)@ == account_after(old(self)@, spec_credit(old(self)@, asset, amount)),
            result_view(r) == account_outcome(spec_credit(old(self)@, asset, amount)),
    {
        let next = self.balance_of(asset).checked_add(amount)?;
        self.set_balance(asset, next);
        Ok(())
    }

    pub(crate) fn debit(&mut self, account: AccountId, asset: AssetId, amount: Amount) -> (r: HorizonResult<()>)
        ensures
            final(self)@ == account_after(old(self)@, spec_debit(old(self)@, account, asset, amount)),
            result_view(r) == account_outcome(spec_debit(old(self)@, account, asset, amount)),
    {
        let available = self.balance_of(asset);
        if available.0 < amount.0 {
            return Err(
                HorizonError::InsufficientFunds { account, asset, available, required: amount },
            );
        }
        let next = available.checked_sub(amount)?;
        self.set_balance(asset, next);
        Ok(())
    }

    pub(crate) fn advance_ingress_nonce(&mut self) -> (r: HorizonResult<()>)
        ensures
            final(self)@ == account_after(old(self)@, spec_advance_ingress(old(self)@)),
            result_view(r) == account_outcome(spec_advance_ingress(old(self)@)),
    {
        if self.next_ingress_nonce == u64::MAX {
            return Err(HorizonError::AmountOverflow);
        }
        self.next_ingress_nonce = self.next_ingress_nonce + 1;
        Ok(())
    }

    pub(crate) fn advance_ticket_nonce(&mut self) -> (r: HorizonResult<()>)
        ensures
            final(self)@ == account_after(old(self)@, spec_advance_ticket(old(self)@)),
            result_view(r) == account_outcome(spec_advance_ticket(old(self)@)),
    {
        if self.next_ticket_nonce == u64::MAX {
            return Err(HorizonError::AmountOverflow);
        }
        self.next_ticket_nonce = self.next_ticket_nonce + 1;
        Ok(())
    }

    fn set_balance(&mut self, asset: AssetId, amount: Amount)
        ensures
            final(self)@ == (AccountView { balances: set_balance(old(self)@.balances, asset, amount), ..old(self)@ }),
    {
        if amount.is_zero() {
            self.balances.remove(&asset.0);
        } else {
            self.balances.insert(asset.0, amount);
        }
    }
}

impl Duplicate for AccountState {
    fn duplicate(&self) -> (r: Self) {
        AccountState {
            identity: self.identity,
            balances: self.balances.duplicate(),
            next_ingress_nonce: self.next_ingress_nonce,
            next_ticket_nonce: self.next_ticket_nonce,
        }
    }
}

impl Canonical for AccountState {
    open spec fn json(v: AccountView) -> Seq<u8> {
        lit("{\"identity\":")
            + PublicIdentity::json(v.identity)
            + lit(",\"balances\":")
            + json_map::<Amount>(v.balances)
            + lit(",\"next_ingress_nonce\":")
            + u64::json(v.next_ingress_nonce)
            + lit(",\"next_ticket_nonce\":")
            + u64::json(v.next_ticket_nonce)
            + lit("}")
    }

    fn write_json(&self, out: &mut Vec<u8>) {
        let ghost v = self@;
        let ghost mut acc: Seq<u8>;
        write_lit("{\"identity\":", out);
        proof {
            acc = lit("{\"identity\":");
        }
        self.identity.write_json(out);
        proof {
            lemma_concat_associative(old(out)@, acc, PublicIdentity::json(v.identity));
            acc = acc + PublicIdentity::json(v.identity);
        }
        write_lit(",\"balances\":", out);
        proof {
            lemma_concat_associative(old(out)@, acc, lit(",\"balances\":"));
            acc = acc + lit(",\"balances\":");
        }
        self.balances.write_json(out);
        proof {
            lemma_concat_associative(old(out)@, acc, json_map::<Amount>(v.balances));
            acc = acc + json_map::<Amount>(v.balances);
        }
        write_lit(",\"next_ingress_nonce\":", out);
        proof {
            lemma_concat_associative(old(out)@, acc, lit(",\"next_ingress_nonce\":"));
            acc = acc + lit(",\"next_ingress_nonce\":");
        }
        self.next_ingress_nonce.write_json(out);
        proof {
            lemma_concat_associative(old(out)@, acc, u64::json(v.next_ingress_nonce));
            acc = acc + u64::json(v.next_ingress_nonce);
        }
        write_lit(",\"next_ticket_nonce\":", out);
        proof {
            lemma_concat_associative(old(out)@, acc, lit(",\"next_ticket_nonce\":"));
            acc = acc + lit(",\"next_ticket_nonce\":");
        }
        self.next_ticket_nonce.write_json(out);
        proof {
            lemma_concat_associative(old(out)@, acc, u64::json(v.next_ticket_nonce));
            acc = acc + u64::json(v.next_ticket_nonce);
        }
        write_lit("}", out);
        proof {
            lemma_concat_associative(old(out)@, acc, lit("}"));
            acc = acc + lit("}");
        }
        assert(acc == Self::json(v));
    }
}

} // verus!
