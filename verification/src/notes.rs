//! Ingress orders and the delivery notes they issue.
use vstd::prelude::*;
use vstd::seq_lib::lemma_concat_associative;
use vstd::string::StringSliceAdditionalSpecFns;

use crate::amount::{
    lemma_units_round_trip, spec_amount_from_units, spec_units_from_amount, Amount, ShareIndex, ShareUnits,
    INDEX_SCALE,
};
use vstd::arithmetic::div_mod::{lemma_fundamental_div_mod, lemma_mod_pos_bound};
use crate::bytemap::Duplicate;
use crate::codec::{lit, write_lit, Canonical};
use crate::crypto::{
    account_of_key, ed25519_public, ed25519_signature, signed_message, spec_verify_signature, verify_signature,
    KeyPair, PublicIdentity, SignatureBytes,
};
use crate::error::{ErrorView, HorizonError, HorizonResult, result_view};
use crate::ids::{note_id_input, parts_digest, payload_digest, AccountId, AssetId, Digest, NoteId, TxId, VaultId};

verus! {

pub const INGRESS_ORDER_DOMAIN: &'static str = "horizon-ingress-order-v1";

#[derive(Copy, Clone, Debug, Eq, PartialEq)]
pub struct IngressOrder {
    pub network_id: u32,
    pub source_vault: VaultId,
    pub issuer: AccountId,
    pub beneficiary: AccountId,
    pub asset: AssetId,
    pub amount: Amount,
    pub owner_nonce: u64,
    pub maturity_epoch: u64,
    pub route_digest: Digest,
}

/// The fields of an order that its issuer signs.
#[derive(Copy, Clone, Debug, Eq, PartialEq)]
pub struct IngressOrderAuthorizationView {
    network_id: u32,
    source_vault: VaultId,
    issuer: AccountId,
    beneficiary: AccountId,
    asset: AssetId,
    amount: Amount,
    owner_nonce: u64,
    maturity_epoch: u64,
    route_digest: Digest,
}

#[derive(Copy, Clone, Debug, Eq, PartialEq)]
pub struct DeliveryNote {
    pub note_id: NoteId,
    pub network_id: u32,
    pub source_vault: VaultId,
    pub beneficiary: AccountId,
    pub asset: AssetId,
    pub amount: Amount,
    pub locked_units: ShareUnits,
    pub issued_index: ShareIndex,
    pub owner_nonce: u64,
    pub maturity_epoch: u64,
    pub route_digest: Digest,
}

#[derive(Clone, Debug, Eq, PartialEq)]
pub struct SignedIngressOrder {
    pub signer: PublicIdentity,
    pub order: IngressOrder,
    pub signature: SignatureBytes,
}

/// The canonical bytes an issuer signs for `order`: those of its fields, in order.
pub open spec fn order_authorization_json(o: IngressOrder) -> Seq<u8> {
    lit("{\"network_id\":") + u32::json(o.network_id) + lit(",\"source_vault\":") + VaultId::json(
        o.source_vault,
    ) + lit(",\"issuer\":") + AccountId::json(o.issuer) + lit(",\"beneficiary\":") + AccountId::json(
        o.beneficiary,
    ) + lit(",\"asset\":") + AssetId::json(o.asset) + lit(",\"amount\":") + Amount::json(o.amount)
        + lit(",\"owner_nonce\":") + u64::json(o.owner_nonce) + lit(",\"maturity_epoch\":") + u64::json(
        o.maturity_epoch,
    ) + lit(",\"route_digest\":") + Digest::json(o.route_digest) + lit("}")
}

/// The note that `order` issues at share index `issued_index`.
pub open spec fn spec_note(order: IngressOrder, issued_index: ShareIndex) -> Result<DeliveryNote, ErrorView> {
    match spec_units_from_amount(issued_index, order.amount) {
        Err(e) => Err(e),
        Ok(locked_units) => Ok(
            DeliveryNote {
                note_id: NoteId(order_note_id_bytes(order)),
                network_id: order.network_id,
                source_vault: order.source_vault,
                beneficiary: order.beneficiary,
                asset: order.asset,
                amount: order.amount,
                locked_units,
                issued_index,
                owner_nonce: order.owner_nonce,
                maturity_epoch: order.maturity_epoch,
                route_digest: order.route_digest,
            },
        ),
    }
}

/// The identifier of the note that `order` issues.
pub open spec fn order_note_id_bytes(order: IngressOrder) -> [u8; 32] {
    parts_digest(
        "horizon-note-v1".spec_bytes(),
        note_id_input(
            order.network_id,
            order.source_vault,
            order.beneficiary,
            order.asset,
            order.amount,
            order.owner_nonce,
            order.route_digest,
        ),
    )
}

/// A note locks the share units that its amount buys at its issue index,
/// rounded down: `locked_units * index <= amount * INDEX_SCALE`, and one more
/// unit would cost more than the amount. Redeeming the note at its own issue
/// index therefore never pays more than its amount. The note carries the
/// order's terms, the identifier derived from the order, and the index. The
/// order is refused only where the index is zero or the amount's scaled
/// value overflows.
pub proof fn lemma_note_locks_units(order: IngressOrder, issued_index: ShareIndex)
    ensures
        spec_note(order, issued_index) is Ok <==> (issued_index.0 != 0 && order.amount.0 * INDEX_SCALE
            <= u128::MAX),
        spec_note(order, issued_index) matches Ok(note) ==> {
            &&& note.locked_units.0 * issued_index.0 <= order.amount.0 * INDEX_SCALE
            &&& order.amount.0 * INDEX_SCALE < (note.locked_units.0 + 1) * issued_index.0
            &&& spec_amount_from_units(issued_index, note.locked_units) matches Ok(back) && back.0
                <= order.amount.0
            &&& note.note_id.0 == order_note_id_bytes(order)
            &&& note.amount == order.amount
            &&& note.issued_index == issued_index
            &&& note.network_id == order.network_id
            &&& note.source_vault == order.source_vault
            &&& note.beneficiary == order.beneficiary
            &&& note.asset == order.asset
            &&& note.owner_nonce == order.owner_nonce
            &&& note.maturity_epoch == order.maturity_epoch
            &&& note.route_digest == order.route_digest
        },
{
    if let Ok(note) = spec_note(order, issued_index) {
        let x = order.amount.0 * INDEX_SCALE;
        let i = issued_index.0 as int;
        let u = note.locked_units.0 as int;
        lemma_fundamental_div_mod(x, i);
        lemma_mod_pos_bound(x, i);
        assert(u * i <= x < (u + 1) * i) by (nonlinear_arith)
            requires
                i > 0,
                u == x / i,
                x == i * (x / i) + x % i,
                0 <= x % i < i,
        ;
        lemma_units_round_trip(issued_index, order.amount);
    }
}

impl IngressOrder {
    pub fn new(
        network_id: u32,
        source_vault: VaultId,
        issuer: AccountId,
        beneficiary: AccountId,
        asset: AssetId,
        amount: Amount,
        owner_nonce: u64,
        maturity_epoch: u64,
        route_digest: Digest,
    ) -> (r: HorizonResult<Self>)
        ensures
            amount.0 != 0 ==> r == Ok::<IngressOrder, HorizonError>(
                IngressOrder {
                    network_id,
                    source_vault,
                    issuer,
                    beneficiary,
                    asset,
                    amount,
                    owner_nonce,
                    maturity_epoch,
                    route_digest,
                },
            ),
            amount.0 == 0 ==> result_view(r) == Err::<IngressOrder, ErrorView>(ErrorView::ZeroAmount),
    {
        if amount.is_zero() {
            return Err(HorizonError::ZeroAmount);
        }
        Ok(IngressOrder {
            network_id,
            source_vault,
            issuer,
            beneficiary,
            asset,
            amount,
            owner_nonce,
            maturity_epoch,
            route_digest,
        })
    }

    pub fn authorization_view(self) -> (r: IngressOrderAuthorizationView)
        ensures
            IngressOrderAuthorizationView::json(r) == order_authorization_json(self),
    {
        IngressOrderAuthorizationView {
            network_id: self.network_id,
            source_vault: self.source_vault,
            issuer: self.issuer,
            beneficiary: self.beneficiary,
            asset: self.asset,
            amount: self.amount,
            owner_nonce: self.owner_nonce,
            maturity_epoch: self.maturity_epoch,
            route_digest: self.route_digest,
        }
    }

    pub fn note(self, issued_index: ShareIndex) -> (r: HorizonResult<DeliveryNote>)
        ensures
            match spec_note(self, issued_index) {
                Ok(n) => r == Ok::<DeliveryNote, HorizonError>(n),
                Err(e) => result_view(r) == Err::<DeliveryNote, ErrorView>(e),
            },
    {
        let locked_units = issued_index.units_from_amount(self.amount)?;
        let note_id = NoteId::derive(
            self.network_id,
            self.source_vault,
            self.beneficiary,
            self.asset,
            self.amount,
            self.owner_nonce,
            self.route_digest,
        );
        Ok(DeliveryNote {
            note_id,
            network_id: self.network_id,
            source_vault: self.source_vault,
            beneficiary: self.beneficiary,
            asset: self.asset,
            amount: self.amount,
            locked_units,
            issued_index,
            owner_nonce: self.owner_nonce,
            maturity_epoch: self.maturity_epoch,
            route_digest: self.route_digest,
        })
    }
}

/// The digest of a delivery note.
pub open spec fn note_digest_bytes(note: DeliveryNote) -> [u8; 32] {
    payload_digest("horizon-delivery-note-v1".spec_bytes(), DeliveryNote::json(note))
}

impl DeliveryNote {
    pub fn digest(self) -> (r: HorizonResult<Digest>)
        ensures
            r matches Ok(d) && d.0 == note_digest_bytes(self),
    {
        Digest::from_serializable("horizon-delivery-note-v1", &self)
    }
}

/// The outcome of checking a signed order: the signer must be the issuer, and
/// the signature must sign the order's authorization view for the signer's key.
pub open spec fn spec_verify_ingress(s: SignedIngressOrder) -> Result<(), ErrorView> {
    if s.signer.account != s.order.issuer {
        Err(ErrorView::UnauthorizedSigner { expected: s.order.issuer, received: s.signer.account })
    } else {
        spec_verify_signature(
            s.signer,
            s.signature,
            signed_message(INGRESS_ORDER_DOMAIN@, order_authorization_json(s.order)),
        )
    }
}

impl SignedIngressOrder {
    /// Signs `order` with `key_pair`, which must be the issuer's; an order so
    /// signed passes `verify`.
    #[verifier::rlimit(40)]
    pub fn sign(order: IngressOrder, key_pair: &KeyPair) -> (r: HorizonResult<Self>)
        ensures
            order.issuer.0 != account_of_key(ed25519_public(key_pair@)@) ==> (result_view(r) matches Err(
                ErrorView::UnauthorizedSigner { expected, received },
            ) && expected == order.issuer && received.0 == account_of_key(ed25519_public(key_pair@)@)),
            order.issuer.0 == account_of_key(ed25519_public(key_pair@)@) ==> (r matches Ok(s) && s.order
                == order && s.signer.account == order.issuer && s.signer.verifying_key == ed25519_public(
                key_pair@,
            ) && s.signature.0 == ed25519_signature(
                key_pair@,
                signed_message(INGRESS_ORDER_DOMAIN@, order_authorization_json(order)),
            )),
            r matches Ok(s) ==> spec_verify_ingress(s) is Ok,
    {
        let signer = key_pair.public_identity();
        if signer.account != order.issuer {
            return Err(HorizonError::UnauthorizedSigner { expected: order.issuer, received: signer.account });
        }
        let view = order.authorization_view();
        let signature = key_pair.sign(INGRESS_ORDER_DOMAIN, &view)?;
        Ok(SignedIngressOrder { signer, order, signature })
    }

    pub fn verify(&self) -> (r: HorizonResult<()>)
        ensures
            result_view(r) == spec_verify_ingress(*self),
    {
        if self.signer.account != self.order.issuer {
            return Err(
                HorizonError::UnauthorizedSigner {
                    expected: self.order.issuer,
                    received: self.signer.account,
                },
            );
        }
        let view = self.order.authorization_view();
        verify_signature(self.signer, self.signature, INGRESS_ORDER_DOMAIN, &view)
    }

    pub fn tx_id(&self) -> (r: HorizonResult<TxId>)
        ensures
            r matches Ok(t) && t.0 == payload_digest(
                "horizon-signed-ingress-order-v1".spec_bytes(),
                SignedIngressOrder::json(*self),
            ),
    {
        TxId::from_serializable("horizon-signed-ingress-order-v1", self)
    }
}

impl View for IngressOrder {
    type V = IngressOrder;

    open spec fn view(&self) -> IngressOrder {
        *self
    }
}

impl Canonical for IngressOrder {
    open spec fn json(v: IngressOrder) -> Seq<u8> {
        order_authorization_json(v)
    }

    fn write_json(&self, out: &mut Vec<u8>) {
        self.authorization_view().write_json(out);
    }
}

impl View for IngressOrderAuthorizationView {
    type V = IngressOrderAuthorizationView;

    open spec fn view(&self) -> IngressOrderAuthorizationView {
        *self
    }
}

impl Canonical for IngressOrderAuthorizationView {
    closed spec fn json(v: IngressOrderAuthorizationView) -> Seq<u8> {
        lit("{\"network_id\":")
            + u32::json(v.network_id)
            + lit(",\"source_vault\":")
            + VaultId::json(v.source_vault)
            + lit(",\"issuer\":")
            + AccountId::json(v.issuer)
            + lit(",\"beneficiary\":")
            + AccountId::json(v.beneficiary)
            + lit(",\"asset\":")
            + AssetId::json(v.asset)
            + lit(",\"amount\":")
            + Amount::json(v.amount)
            + lit(",\"owner_nonce\":")
            + u64::json(v.owner_nonce)
            + lit(",\"maturity_epoch\":")
            + u64::json(v.maturity_epoch)
            + lit(",\"route_digest\":")
            + Digest::json(v.route_digest)
            + lit("}")
    }

    fn write_json(&self, out: &mut Vec<u8>) {
        let ghost v = self@;
        let ghost mut acc: Seq<u8>;
        write_lit("{\"network_id\":", out);
        proof {
            acc = lit("{\"network_id\":");
        }
        self.network_id.write_json(out);
        proof {
            lemma_concat_associative(old(out)@, acc, u32::json(v.network_id));
            acc = acc + u32::json(v.network_id);
        }
        write_lit(",\"source_vault\":", out);
        proof {
            lemma_concat_associative(old(out)@, acc, lit(",\"source_vault\":"));
            acc = acc + lit(",\"source_vault\":");
        }
        self.source_vault.write_json(out);
        proof {
            lemma_concat_associative(old(out)@, acc, VaultId::json(v.source_vault));
            acc = acc + VaultId::json(v.source_vault);
        }
        write_lit(",\"issuer\":", out);
        proof {
            lemma_concat_associative(old(out)@, acc, lit(",\"issuer\":"));
            acc = acc + lit(",\"issuer\":");
        }
        self.issuer.write_json(out);
        proof {
            lemma_concat_associative(old(out)@, acc, AccountId::json(v.issuer));
            acc = acc + AccountId::json(v.issuer);
        }
        write_lit(",\"beneficiary\":", out);
        proof {
            lemma_concat_associative(old(out)@, acc, lit(",\"beneficiary\":"));
            acc = acc + lit(",\"beneficiary\":");
        }
        self.beneficiary.write_json(out);
        proof {
            lemma_concat_associative(old(out)@, acc, AccountId::json(v.beneficiary));
            acc = acc + AccountId::json(v.beneficiary);
        }
        write_lit(",\"asset\":", out);
        proof {
            lemma_concat_associative(old(out)@, acc, lit(",\"asset\":"));
            acc = acc + lit(",\"asset\":");
        }
        self.asset.write_json(out);
        proof {
            lemma_concat_associative(old(out)@, acc, AssetId::json(v.asset));
            acc = acc + AssetId::json(v.asset);
        }
        write_lit(",\"amount\":", out);
        proof {
            lemma_concat_associative(old(out)@, acc, lit(",\"amount\":"));
            acc = acc + lit(",\"amount\":");
        }
        self.amount.write_json(out);
        proof {
            lemma_concat_associative(old(out)@, acc, Amount::json(v.amount));
            acc = acc + Amount::json(v.amount);
        }
        write_lit(",\"owner_nonce\":", out);
        proof {
            lemma_concat_associative(old(out)@, acc, lit(",\"owner_nonce\":"));
            acc = acc + lit(",\"owner_nonce\":");
        }
        self.owner_nonce.write_json(out);
        proof {
            lemma_concat_associative(old(out)@, acc, u64::json(v.owner_nonce));
            acc = acc + u64::json(v.owner_nonce);
        }
        write_lit(",\"maturity_epoch\":", out);
        proof {
            lemma_concat_associative(old(out)@, acc, lit(",\"maturity_epoch\":"));
            acc = acc + lit(",\"maturity_epoch\":");
        }
        self.maturity_epoch.write_json(out);
        proof {
            lemma_concat_associative(old(out)@, acc, u64::json(v.maturity_epoch));
            acc = acc + u64::json(v.maturity_epoch);
        }
        write_lit(",\"route_digest\":", out);
        proof {
            lemma_concat_associative(old(out)@, acc, lit(",\"route_digest\":"));
            acc = acc + lit(",\"route_digest\":");
        }
        self.route_digest.write_json(out);
        proof {
            lemma_concat_associative(old(out)@, acc, Digest::json(v.route_digest));
            acc = acc + Digest::json(v.route_digest);
        }
        write_lit("}", out);
        proof {
            lemma_concat_associative(old(out)@, acc, lit("}"));
            acc = acc + lit("}");
        }
        assert(acc == Self::json(v));
    }
}

impl View for DeliveryNote {
    type V = DeliveryNote;

    open spec fn view(&self) -> DeliveryNote {
        *self
    }
}

impl Duplicate for DeliveryNote {
    fn duplicate(&self) -> (r: Self) {
        *self
    }
}

impl Canonical for DeliveryNote {
    open spec fn json(v: DeliveryNote) -> Seq<u8> {
        lit("{\"note_id\":")
            + NoteId::json(v.note_id)
            + lit(",\"network_id\":")
            + u32::json(v.network_id)
            + lit(",\"source_vault\":")
            + VaultId::json(v.source_vault)
            + lit(",\"beneficiary\":")
            + AccountId::json(v.beneficiary)
            + lit(",\"asset\":")
            + AssetId::json(v.asset)
            + lit(",\"amount\":")
            + Amount::json(v.amount)
            + lit(",\"locked_units\":")
            + ShareUnits::json(v.locked_units)
            + lit(",\"issued_index\":")
            + ShareIndex::json(v.issued_index)
            + lit(",\"owner_nonce\":")
            + u64::json(v.owner_nonce)
            + lit(",\"maturity_epoch\":")
            + u64::json(v.maturity_epoch)
            + lit(",\"route_digest\":")
            + Digest::json(v.route_digest)
            + lit("}")
    }

    fn write_json(&self, out: &mut Vec<u8>) {
        let ghost v = self@;
        let ghost mut acc: Seq<u8>;
        write_lit("{\"note_id\":", out);
        proof {
            acc = lit("{\"note_id\":");
        }
        self.note_id.write_json(out);
        proof {
            lemma_concat_associative(old(out)@, acc, NoteId::json(v.note_id));
            acc = acc + NoteId::json(v.note_id);
        }
        write_lit(",\"network_id\":", out);
        proof {
            lemma_concat_associative(old(out)@, acc, lit(",\"network_id\":"));
            acc = acc + lit(",\"network_id\":");
        }
        self.network_id.write_json(out);
        proof {
            lemma_concat_associative(old(out)@, acc, u32::json(v.network_id));
            acc = acc + u32::json(v.network_id);
        }
        write_lit(",\"source_vault\":", out);
        proof {
            lemma_concat_associative(old(out)@, acc, lit(",\"source_vault\":"));
            acc = acc + lit(",\"source_vault\":");
        }
        self.source_vault.write_json(out);
        proof {
            lemma_concat_associative(old(out)@, acc, VaultId::json(v.source_vault));
            acc = acc + VaultId::json(v.source_vault);
        }
        write_lit(",\"beneficiary\":", out);
        proof {
            lemma_concat_associative(old(out)@, acc, lit(",\"beneficiary\":"));
            acc = acc + lit(",\"beneficiary\":");
        }
        self.beneficiary.write_json(out);
        proof {
            lemma_concat_associative(old(out)@, acc, AccountId::json(v.beneficiary));
            acc = acc + AccountId::json(v.beneficiary);
        }
        write_lit(",\"asset\":", out);
        proof {
            lemma_concat_associative(old(out)@, acc, lit(",\"asset\":"));
            acc = acc + lit(",\"asset\":");
        }
        self.asset.write_json(out);
        proof {
            lemma_concat_associative(old(out)@, acc, AssetId::json(v.asset));
            acc = acc + AssetId::json(v.asset);
        }
        write_lit(",\"amount\":", out);
        proof {
            lemma_concat_associative(old(out)@, acc, lit(",\"amount\":"));
            acc = acc + lit(",\"amount\":");
        }
        self.amount.write_json(out);
        proof {
            lemma_concat_associative(old(out)@, acc, Amount::json(v.amount));
            acc = acc + Amount::json(v.amount);
        }
        write_lit(",\"locked_units\":", out);
        proof {
            lemma_concat_associative(old(out)@, acc, lit(",\"locked_units\":"));
            acc = acc + lit(",\"locked_units\":");
        }
        self.locked_units.write_json(out);
        proof {
            lemma_concat_associative(old(out)@, acc, ShareUnits::json(v.locked_units));
            acc = acc + ShareUnits::json(v.locked_units);
        }
        write_lit(",\"issued_index\":", out);
        proof {
            lemma_concat_associative(old(out)@, acc, lit(",\"issued_index\":"));
            acc = acc + lit(",\"issued_index\":");
        }
        self.issued_index.write_json(out);
        proof {
            lemma_concat_associative(old(out)@, acc, ShareIndex::json(v.issued_index));
            acc = acc + ShareIndex::json(v.issued_index);
        }
        write_lit(",\"owner_nonce\":", out);
        proof {
            lemma_concat_associative(old(out)@, acc, lit(",\"owner_nonce\":"));
            acc = acc + lit(",\"owner_nonce\":");
        }
        self.owner_nonce.write_json(out);
        proof {
            lemma_concat_associative(old(out)@, acc, u64::json(v.owner_nonce));
            acc = acc + u64::json(v.owner_nonce);
        }
        write_lit(",\"maturity_epoch\":", out);
        proof {
            lemma_concat_associative(old(out)@, acc, lit(",\"maturity_epoch\":"));
            acc = acc + lit(",\"maturity_epoch\":");
        }
        self.maturity_epoch.write_json(out);
        proof {
            lemma_concat_associative(old(out)@, acc, u64::json(v.maturity_epoch));
            acc = acc + u64::json(v.maturity_epoch);
        }
        write_lit(",\"route_digest\":", out);
        proof {
            lemma_concat_associative(old(out)@, acc, lit(",\"route_digest\":"));
            acc = acc + lit(",\"route_digest\":");
        }
        self.route_digest.write_json(out);
        proof {
            lemma_concat_associative(old(out)@, acc, Digest::json(v.route_digest));
            acc = acc + Digest::json(v.route_digest);
        }
        write_lit("}", out);
        proof {
            lemma_concat_associative(old(out)@, acc, lit("}"));
            acc = acc + lit("}");
        }
        assert(acc == Self::json(v));
    }
}

impl View for SignedIngressOrder {
    type V = SignedIngressOrder;

    open spec fn view(&self) -> SignedIngressOrder {
        *self
    }
}

impl Canonical for SignedIngressOrder {
    open spec fn json(v: SignedIngressOrder) -> Seq<u8> {
        lit("{\"signer\":")
            + PublicIdentity::json(v.signer)
            + lit(",\"order\":")
            + IngressOrder::json(v.order)
            + lit(",\"signature\":")
            + SignatureBytes::json(v.signature)
            + lit("}")
    }

    fn write_json(&self, out: &mut Vec<u8>) {
        let ghost v = self@;
        let ghost mut acc: Seq<u8>;
        write_lit("{\"signer\":", out);
        proof {
            acc = lit("{\"signer\":");
        }
        self.signer.write_json(out);
        proof {
            lemma_concat_associative(old(out)@, acc, PublicIdentity::json(v.signer));
            acc = acc + PublicIdentity::json(v.signer);
        }
        write_lit(",\"order\":", out);
        proof {
            lemma_concat_associative(old(out)@, acc, lit(",\"order\":"));
            acc = acc + lit(",\"order\":");
        }
        self.order.write_json(out);
        proof {
            lemma_concat_associative(old(out)@, acc, IngressOrder::json(v.order));
            acc = acc + IngressOrder::json(v.order);
        }
        write_lit(",\"signature\":", out);
        proof {
            lemma_concat_associative(old(out)@, acc, lit(",\"signature\":"));
            acc = acc + lit(",\"signature\":");
        }
        self.signature.write_json(out);
        proof {
            lemma_concat_associative(old(out)@, acc, SignatureBytes::json(v.signature));
            acc = acc + SignatureBytes::json(v.signature);
        }
        write_lit("}", out);
        proof {
            lemma_concat_associative(old(out)@, acc, lit("}"));
            acc = acc + lit("}");
        }
        assert(acc == Self::json(v));
    }
}

} // verus!
