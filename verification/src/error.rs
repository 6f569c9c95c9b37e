//! The library's error type.
use vstd::prelude::*;

use crate::amount::Amount;
use crate::ids::{AccountId, AssetId, NoteId, TicketId, TxId, VaultId};

verus! {

pub type HorizonResult<T> = Result<T, HorizonError>;

#[derive(Debug, Clone, PartialEq, Eq)]
pub enum HorizonError {
    AmountOverflow,
    AmountUnderflow,
    DivisionByZero,
    ZeroAmount,
    BpsOutOfRange(u16),
    Serialization(String),
    Signature(String),
    InvalidPublicKey,
    InvalidSignature,
    IdentityMismatch(AccountId),
    AccountNotFound(AccountId),
    AccountAlreadyExists(AccountId),
    AssetNotFound(AssetId),
    AssetAlreadyExists(AssetId),
    VaultNotFound(VaultId),
    VaultAlreadyExists(VaultId),
    NoteNotFound(NoteId),
    NoteAlreadyExists(NoteId),
    NoteSettled(NoteId),
    TicketProcessed(TicketId),
    DuplicateTransaction(TxId),
    UnauthorizedSigner { expected: AccountId, received: AccountId },
    NonceMismatch { account: AccountId, expected: u64, received: u64 },
    InsufficientFunds { account: AccountId, asset: AssetId, available: Amount, required: Amount },
    Policy(String),
    Conservation { asset: AssetId, expected: Amount, observed: Amount },
}

/// What an error says, with its text as a sequence of characters.
pub enum ErrorView {
    AmountOverflow,
    AmountUnderflow,
    DivisionByZero,
    ZeroAmount,
    BpsOutOfRange(u16),
    Serialization(Seq<char>),
    Signature(Seq<char>),
    InvalidPublicKey,
    InvalidSignature,
    IdentityMismatch(AccountId),
    AccountNotFound(AccountId),
    AccountAlreadyExists(AccountId),
    AssetNotFound(AssetId),
    AssetAlreadyExists(AssetId),
    VaultNotFound(VaultId),
    VaultAlreadyExists(VaultId),
    NoteNotFound(NoteId),
    NoteAlreadyExists(NoteId),
    NoteSettled(NoteId),
    TicketProcessed(TicketId),
    DuplicateTransaction(TxId),
    UnauthorizedSigner { expected: AccountId, received: AccountId },
    NonceMismatch { account: AccountId, expected: u64, received: u64 },
    InsufficientFunds { account: AccountId, asset: AssetId, available: Amount, required: Amount },
    Policy(Seq<char>),
    Conservation { asset: AssetId, expected: Amount, observed: Amount },
}

impl View for HorizonError {
    type V = ErrorView;

    open spec fn view(&self) -> ErrorView {
        match self {
            HorizonError::AmountOverflow => ErrorView::AmountOverflow,
            HorizonError::AmountUnderflow => ErrorView::AmountUnderflow,
            HorizonError::DivisionByZero => ErrorView::DivisionByZero,
            HorizonError::ZeroAmount => ErrorView::ZeroAmount,
            HorizonError::BpsOutOfRange(u) => ErrorView::BpsOutOfRange(*u),
            HorizonError::Serialization(s) => ErrorView::Serialization(s@),
            HorizonError::Signature(s) => ErrorView::Signature(s@),
            HorizonError::InvalidPublicKey => ErrorView::InvalidPublicKey,
            HorizonError::InvalidSignature => ErrorView::InvalidSignature,
            HorizonError::IdentityMismatch(a) => ErrorView::IdentityMismatch(*a),
            HorizonError::AccountNotFound(a) => ErrorView::AccountNotFound(*a),
            HorizonError::AccountAlreadyExists(a) => ErrorView::AccountAlreadyExists(*a),
            HorizonError::AssetNotFound(a) => ErrorView::AssetNotFound(*a),
            HorizonError::AssetAlreadyExists(a) => ErrorView::AssetAlreadyExists(*a),
            HorizonError::VaultNotFound(v) => ErrorView::VaultNotFound(*v),
            HorizonError::VaultAlreadyExists(v) => ErrorView::VaultAlreadyExists(*v),
            HorizonError::NoteNotFound(n) => ErrorView::NoteNotFound(*n),
            HorizonError::NoteAlreadyExists(n) => ErrorView::NoteAlreadyExists(*n),
            HorizonError::NoteSettled(n) => ErrorView::NoteSettled(*n),
            HorizonError::TicketProcessed(t) => ErrorView::TicketProcessed(*t),
            HorizonError::DuplicateTransaction(t) => ErrorView::DuplicateTransaction(*t),
            HorizonError::UnauthorizedSigner { expected, received } => ErrorView::UnauthorizedSigner {
                expected: *expected,
                received: *received,
            },
            HorizonError::NonceMismatch { account, expected, received } => ErrorView::NonceMismatch {
                account: *account,
                expected: *expected,
                received: *received,
            },
            HorizonError::InsufficientFunds { account, asset, available, required } =>
                ErrorView::InsufficientFunds {
                account: *account,
                asset: *asset,
                available: *available,
                required: *required,
            },
            HorizonError::Policy(s) => ErrorView::Policy(s@),
            HorizonError::Conservation { asset, expected, observed } => ErrorView::Conservation {
                asset: *asset,
                expected: *expected,
                observed: *observed,
            },
        }
    }
}

/// A result with its error taken by its view.
pub open spec fn result_view<T>(r: Result<T, HorizonError>) -> Result<T, ErrorView> {
    match r {
        Ok(t) => Ok(t),
        Err(e) => Err(e@),
    }
}

/// A policy error carrying `message`.
pub fn policy(message: &str) -> (r: HorizonError)
    ensures
        r@ == ErrorView::Policy(message@),
{
    HorizonError::Policy(message.to_owned())
}

} // verus!
