//! Redemption tickets that settle delivery notes.
use vstd::prelude::*;
use vstd::seq_lib::lemma_concat_associative;
use vstd::string::StringSliceAdditionalSpecFns;

use crate::amount::Amount;
use crate::codec::{lit, write_lit, Canonical};
use crate::crypto::{
    account_of_key, ed25519_public, ed25519_signature, signed_message, spec_verify_signature,
    verify_signature, KeyPair, PublicIdentity, SignatureBytes,
};
use crate::error::{ErrorView, HorizonError, HorizonResult, result_view};
use crate::ids::{parts_digest, payload_digest, ticket_id_input, AccountId, Digest, NoteId, TicketId, TxId, VaultId};

verus! {

pub const REDEMPTION_TICKET_DOMAIN: &'static str = "horizon-redemption-ticket-v1";

#[derive(Copy, Clone, Debug, Eq, PartialEq)]
pub struct RedemptionTicket {
    pub network_id: u32,
    pub ticket_id: TicketId,
    pub payout_vault: VaultId,
    pub note_id: NoteId,
    pub beneficiary: AccountId,
    pub relayer: AccountId,
    pub relayer_fee: Amount,
    pub ticket_nonce: u64,
    pub settlement_epoch: u64,
    pub note_digest: Digest,
}

/// The fields of a ticket that its beneficiary signs.
#[derive(Copy, Clone, Debug, Eq, PartialEq)]
pub struct RedemptionTicketAuthorizationView {
    network_id: u32,
    ticket_id: TicketId,
    payout_vault: VaultId,
    note_id: NoteId,
    beneficiary: AccountId,
    relayer: AccountId,
    relayer_fee: Amount,
    ticket_nonce: u64,
    settlement_epoch: u64,
    note_digest: Digest,
}

#[derive(Clone, Debug, Eq, PartialEq)]
pub struct SignedRedemptionTicket {
    pub signer: PublicIdentity,
    pub ticket: RedemptionTicket,
    pub signature: SignatureBytes,
}

/// The canonical bytes a beneficiary signs for `t`: those of its fields, in order.
pub open spec fn ticket_authorization_json(t: RedemptionTicket) -> Seq<u8> {
    lit("{\"network_id\":")
        + u32::json(t.network_id)
        + lit(",\"ticket_id\":")
        + TicketId::json(t.ticket_id)
        + lit(",\"payout_vault\":")
        + VaultId::json(t.payout_vault)
        + lit(",\"note_id\":")
        + NoteId::json(t.note_id)
        + lit(",\"beneficiary\":")
        + AccountId::json(t.beneficiary)
        + lit(",\"relayer\":")
        + AccountId::json(t.relayer)
        + lit(",\"relayer_fee\":")
        + Amount::json(t.relayer_fee)
        + lit(",\"ticket_nonce\":")
        + u64::json(t.ticket_nonce)
        + lit(",\"settlement_epoch\":")
        + u64::json(t.settlement_epoch)
        + lit(",\"note_digest\":")
        + Digest::json(t.note_digest)
        + lit("}")
}

impl RedemptionTicket {
    pub fn new(
        network_id: u32,
        payout_vault: VaultId,
        note_id: NoteId,
        beneficiary: AccountId,
        relayer: AccountId,
        relayer_fee: Amount,
        ticket_nonce: u64,
        settlement_epoch: u64,
        note_digest: Digest,
    ) -> (r: HorizonResult<Self>)
        ensures
            r matches Ok(t) && t.network_id == network_id && t.payout_vault == payout_vault && t.note_id
                == note_id && t.beneficiary == beneficiary && t.relayer == relayer && t.relayer_fee
                == relayer_fee && t.ticket_nonce == ticket_nonce && t.settlement_epoch == settlement_epoch
                && t.note_digest == note_digest && t.ticket_id.0 == parts_digest(
                "horizon-ticket-v1".spec_bytes(),
                ticket_id_input(network_id, payout_vault, note_id, relayer, ticket_nonce),
            ),
    {
        let ticket_id = TicketId::derive(network_id, payout_vault, note_id, relayer, ticket_nonce);
        Ok(RedemptionTicket {
            network_id,
            ticket_id,
            payout_vault,
            note_id,
            beneficiary,
            relayer,
            relayer_fee,
            ticket_nonce,
            settlement_epoch,
            note_digest,
        })
    }

    pub fn authorization_view(self) -> (r: RedemptionTicketAuthorizationView)
        ensures
            RedemptionTicketAuthorizationView::json(r) == ticket_authorization_json(self),
    {
        RedemptionTicketAuthorizationView {
            network_id: self.network_id,
            ticket_id: self.ticket_id,
            payout_vault: self.payout_vault,
            note_id: self.note_id,
            beneficiary: self.beneficiary,
            relayer: self.relayer,
            relayer_fee: self.relayer_fee,
            ticket_nonce: self.ticket_nonce,
            settlement_epoch: self.settlement_epoch,
            note_digest: self.note_digest,
        }
    }
}

/// The outcome of checking a signed ticket: the signer must be the
/// beneficiary, and the signature must sign the ticket's authorization view
/// for the signer's key.
pub open spec fn spec_verify_ticket(s: SignedRedemptionTicket) -> Result<(), ErrorView> {
    if s.signer.account != s.ticket.beneficiary {
        Err(ErrorView::UnauthorizedSigner { expected: s.ticket.beneficiary, received: s.signer.account })
    } else {
        spec_verify_signature(
            s.signer,
            s.signature,
            signed_message(REDEMPTION_TICKET_DOMAIN@, ticket_authorization_json(s.ticket)),
        )
    }
}

impl SignedRedemptionTicket {
    /// Signs `ticket` with `key_pair`, which must be the beneficiary's; a
    /// ticket so signed passes `verify`.
    #[verifier::rlimit(40)]
    pub fn sign(ticket: RedemptionTicket, key_pair: &KeyPair) -> (r: HorizonResult<Self>)
        ensures
            ticket.beneficiary.0 != account_of_key(ed25519_public(key_pair@)@) ==> (result_view(r) matches Err(
                ErrorView::UnauthorizedSigner { expected, received },
            ) && expected == ticket.beneficiary && received.0 == account_of_key(ed25519_public(key_pair@)@)),
            ticket.beneficiary.0 == account_of_key(ed25519_public(key_pair@)@) ==> (r matches Ok(s) && s.ticket
                == ticket && s.signer.account == ticket.beneficiary && s.signer.verifying_key == ed25519_public(
                key_pair@,
            ) && s.signature.0 == ed25519_signature(
                key_pair@,
                signed_message(REDEMPTION_TICKET_DOMAIN@, ticket_authorization_json(ticket)),
            )),
            r matches Ok(s) ==> spec_verify_ticket(s) is Ok,
    {
        let signer = key_pair.public_identity();
        if signer.account != ticket.beneficiary {
            return Err(HorizonError::UnauthorizedSigner { expected: ticket.beneficiary, received: signer.account });
        }
        let view = ticket.authorization_view();
        let signature = key_pair.sign(REDEMPTION_TICKET_DOMAIN, &view)?;
        Ok(SignedRedemptionTicket { signer, ticket, signature })
    }

    pub fn verify(&self) -> (r: HorizonResult<()>)
        ensures
            result_view(r) == spec_verify_ticket(*self),
    {
        if self.signer.account != self.ticket.beneficiary {
            return Err(
                HorizonError::UnauthorizedSigner {
                    expected: self.ticket.beneficiary,
                    received: self.signer.account,
                },
            );
        }
        let view = self.ticket.authorization_view();
        verify_signature(self.signer, self.signature, REDEMPTION_TICKET_DOMAIN, &view)
    }

    pub fn tx_id(&self) -> (r: HorizonResult<TxId>)
        ensures
            r matches Ok(t) && t.0 == payload_digest(
                "horizon-signed-redemption-ticket-v1".spec_bytes(),
                SignedRedemptionTicket::json(*self),
            ),
    {
        TxId::from_serializable("horizon-signed-redemption-ticket-v1", self)
    }
}

impl View for RedemptionTicket {
    type V = RedemptionTicket;

    open spec fn view(&self) -> RedemptionTicket {
        *self
    }
}

impl Canonical for RedemptionTicket {
    open spec fn json(v: RedemptionTicket) -> Seq<u8> {
        ticket_authorization_json(v)
    }

    fn write_json(&self, out: &mut Vec<u8>) {
        self.authorization_view().write_json(out);
    }
}

impl View for RedemptionTicketAuthorizationView {
    type V = RedemptionTicketAuthorizationView;

    open spec fn view(&self) -> RedemptionTicketAuthorizationView {
        *self
    }
}

impl Canonical for RedemptionTicketAuthorizationView {
    closed spec fn json(v: RedemptionTicketAuthorizationView) -> Seq<u8> {
        lit("{\"network_id\":")
            + u32::json(v.network_id)
            + lit(",\"ticket_id\":")
            + TicketId::json(v.ticket_id)
            + lit(",\"payout_vault\":")
            + VaultId::json(v.payout_vault)
            + lit(",\"note_id\":")
            + NoteId::json(v.note_id)
            + lit(",\"beneficiary\":")
            + AccountId::json(v.beneficiary)
            + lit(",\"relayer\":")
            + AccountId::json(v.relayer)
            + lit(",\"relayer_fee\":")
            + Amount::json(v.relayer_fee)
            + lit(",\"ticket_nonce\":")
            + u64::json(v.ticket_nonce)
            + lit(",\"settlement_epoch\":")
            + u64::json(v.settlement_epoch)
            + lit(",\"note_digest\":")
            + Digest::json(v.note_digest)
            + lit("}")
    }

    fn write_json(&self, out: &mut Vec<u8>) {
        let ghost v = self@;
        let ghost mut acc: Seq<u8>;
        write_lit("{\"network_id\":", out);
        proof {
            acc = lit("{\"network_id\":");
        }
        self.network_id.write_json(out);
        proof {
            lemma_concat_associative(old(out)@, acc, u32::json(v.network_id));
            acc = acc + u32::json(v.network_id);
        }
        write_lit(",\"ticket_id\":", out);
        proof {
            lemma_concat_associative(old(out)@, acc, lit(",\"ticket_id\":"));
            acc = acc + lit(",\"ticket_id\":");
        }
        self.ticket_id.write_json(out);
        proof {
            lemma_concat_associative(old(out)@, acc, TicketId::json(v.ticket_id));
            acc = acc + TicketId::json(v.ticket_id);
        }
        write_lit(",\"payout_vault\":", out);
        proof {
            lemma_concat_associative(old(out)@, acc, lit(",\"payout_vault\":"));
            acc = acc + lit(",\"payout_vault\":");
        }
        self.payout_vault.write_json(out);
        proof {
            lemma_concat_associative(old(out)@, acc, VaultId::json(v.payout_vault));
            acc = acc + VaultId::json(v.payout_vault);
        }
        write_lit(",\"note_id\":", out);
        proof {
            lemma_concat_associative(old(out)@, acc, lit(",\"note_id\":"));
            acc = acc + lit(",\"note_id\":");
        }
        self.note_id.write_json(out);
        proof {
            lemma_concat_associative(old(out)@, acc, NoteId::json(v.note_id));
            acc = acc + NoteId::json(v.note_id);
        }
        write_lit(",\"beneficiary\":", out);
        proof {
            lemma_concat_associative(old(out)@, acc, lit(",\"beneficiary\":"));
            acc = acc + lit(",\"beneficiary\":");
        }
        self.beneficiary.write_json(out);
        proof {
            lemma_concat_associative(old(out)@, acc, AccountId::json(v.beneficiary));
            acc = acc + AccountId::json(v.beneficiary);
        }
        write_lit(",\"relayer\":", out);
        proof {
            lemma_concat_associative(old(out)@, acc, lit(",\"relayer\":"));
            acc = acc + lit(",\"relayer\":");
        }
        self.relayer.write_json(out);
        proof {
            lemma_concat_associative(old(out)@, acc, AccountId::json(v.relayer));
            acc = acc + AccountId::json(v.relayer);
        }
        write_lit(",\"relayer_fee\":", out);
        proof {
            lemma_concat_associative(old(out)@, acc, lit(",\"relayer_fee\":"));
            acc = acc + lit(",\"relayer_fee\":");
        }
        self.relayer_fee.write_json(out);
        proof {
            lemma_concat_associative(old(out)@, acc, Amount::json(v.relayer_fee));
            acc = acc + Amount::json(v.relayer_fee);
        }
        write_lit(",\"ticket_nonce\":", out);
        proof {
            lemma_concat_associative(old(out)@, acc, lit(",\"ticket_nonce\":"));
            acc = acc + lit(",\"ticket_nonce\":");
        }
        self.ticket_nonce.write_json(out);
        proof {
            lemma_concat_associative(old(out)@, acc, u64::json(v.ticket_nonce));
            acc = acc + u64::json(v.ticket_nonce);
        }
        write_lit(",\"settlement_epoch\":", out);
        proof {
            lemma_concat_associative(old(out)@, acc, lit(",\"settlement_epoch\":"));
            acc = acc + lit(",\"settlement_epoch\":");
        }
        self.settlement_epoch.write_json(out);
        proof {
            lemma_concat_associative(old(out)@, acc, u64::json(v.settlement_epoch));
            acc = acc + u64::json(v.settlement_epoch);
        }
        write_lit(",\"note_digest\":", out);
        proof {
            lemma_concat_associative(old(out)@, acc, lit(",\"note_digest\":"));
            acc = acc + lit(",\"note_digest\":");
        }
        self.note_digest.write_json(out);
        proof {
            lemma_concat_associative(old(out)@, acc, Digest::json(v.note_digest));
            acc = acc + Digest::json(v.note_digest);
        }
        write_lit("}", out);
        proof {
            lemma_concat_associative(old(out)@, acc, lit("}"));
            acc = acc + lit("}");
        }
        assert(acc == Self::json(v));
    }
}

impl View for SignedRedemptionTicket {
    type V = SignedRedemptionTicket;

    open spec fn view(&self) -> SignedRedemptionTicket {
        *self
    }
}

impl Canonical for SignedRedemptionTicket {
    open spec fn json(v: SignedRedemptionTicket) -> Seq<u8> {
        lit("{\"signer\":")
            + PublicIdentity::json(v.signer)
            + lit(",\"ticket\":")
            + RedemptionTicket::json(v.ticket)
            + lit(",\"signature\":")
            + SignatureBytes::json(v.signature)
            + lit("}")
    }

    fn write_json(&self, out: &mut Vec<u8>) {
        let ghost v = self@;
        let ghost mut acc: Seq<u8>;
        write_lit("{\"signer\":", out);
        proof {
            acc = lit("{\"signer\":");
        }
        self.signer.write_json(out);
        proof {
            lemma_concat_associative(old(out)@, acc, PublicIdentity::json(v.signer));
            acc = acc + PublicIdentity::json(v.signer);
        }
        write_lit(",\"ticket\":", out);
        proof {
            lemma_concat_associative(old(out)@, acc, lit(",\"ticket\":"));
            acc = acc + lit(",\"ticket\":");
        }
        self.ticket.write_json(out);
        proof {
            lemma_concat_associative(old(out)@, acc, RedemptionTicket::json(v.ticket));
            acc = acc + RedemptionTicket::json(v.ticket);
        }
        write_lit(",\"signature\":", out);
        proof {
            lemma_concat_associative(old(out)@, acc, lit(",\"signature\":"));
            acc = acc + lit(",\"signature\":");
        }
        self.signature.write_json(out);
        proof {
            lemma_concat_associative(old(out)@, acc, SignatureBytes::json(v.signature));
            acc = acc + SignatureBytes::json(v.signature);
        }
        write_lit("}", out);
        proof {
            lemma_concat_associative(old(out)@, acc, lit("}"));
            acc = acc + lit("}");
        }
        assert(acc == Self::json(v));
    }
}

} // verus!
