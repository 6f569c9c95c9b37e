//! A ledger for distributed settlement: assets, accounts, vaults that issue
//! delivery notes against their reserves, redemption tickets that settle
//! them, and a journal of every applied transaction. Each transaction that
//! moves value checks that, per asset, balances and vault reserves still add
//! up to the asset's supply.
pub mod amount;
pub mod asset;
pub mod bytemap;
pub mod bytes;
pub mod codec;
pub mod crypto;
pub mod error;
pub mod fees;
pub mod ids;
pub mod ledger;
pub mod notes;
pub mod operators;
pub mod oracle;
pub mod risk;
pub mod routes;
pub mod tickets;
pub mod vault;

pub use amount::{Amount, Bps, ShareIndex, ShareUnits, INDEX_SCALE};
pub use asset::AssetConfig;
pub use codec::{canonical_bytes, Canonical};
pub use crypto::{verify_signature, KeyPair, PublicIdentity, SignatureBytes};
pub use error::{HorizonError, HorizonResult};
pub use fees::{FeeLedger, FeeSchedule};
pub use ids::{AccountId, AssetId, Digest, NoteId, TicketId, TxId, VaultId};
pub use ledger::account::AccountState;
pub use ledger::journal::{JournalEntry, JournalOp};
pub use ledger::state::HorizonLedger;
pub use notes::{
    DeliveryNote, IngressOrder, IngressOrderAuthorizationView, SignedIngressOrder,
    INGRESS_ORDER_DOMAIN,
};
pub use operators::{OperatorRegistry, OperatorRole, ProtocolConfig};
pub use oracle::{IndexObservation, OracleBook};
pub use risk::{RiskEngine, RiskLimits, RiskSnapshot};
pub use routes::{RouteBook, SettlementRoute};
pub use tickets::{
    RedemptionTicket, RedemptionTicketAuthorizationView, SignedRedemptionTicket,
    REDEMPTION_TICKET_DOMAIN,
};
pub use vault::{NoteRecord, VaultConfig, VaultState};
