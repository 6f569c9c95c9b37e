//! Identifiers and digests: 32-byte values derived by hashing.
use vstd::prelude::*;
use vstd::std_specs::cmp::PartialEqSpecImpl;
use vstd::std_specs::convert::FromSpecImpl;
use vstd::string::StringSliceAdditionalSpecFns;

use crate::amount::Amount;
use crate::bytemap::Duplicate;
use crate::bytes::{be_u16, be_u32, be_u64, be_u128, bytes32_eq, write_be_u16, write_be_u32, write_be_u64, write_be_u128};
use crate::codec::{canonical_bytes, json_hex, write_json_hex, Canonical};
use crate::error::HorizonResult;

verus! {

/// The BLAKE3 hash of `data`: 32 bytes.
pub uninterp spec fn blake3_digest(data: Seq<u8>) -> [u8; 32];

/// Calls `blake3::hash`. Trusted: the 32 bytes returned are the BLAKE3 hash of
/// `data`, which depends on `data` alone; nothing more is claimed of them.
#[verifier::external_body]
fn blake3_hash(data: &[u8]) -> (r: [u8; 32])
    ensures
        r == blake3_digest(data@),
{
    *blake3::hash(data).as_bytes()
}

/// Each part preceded by its length as eight big-endian bytes.
pub open spec fn framed_parts(parts: Seq<Seq<u8>>) -> Seq<u8>
    decreases parts.len(),
{
    if parts.len() == 0 {
        Seq::empty()
    } else {
        framed_parts(parts.drop_last()) + be_u64(parts.last().len() as u64) + parts.last()
    }
}

/// The bytes a digest is taken over: the domain, then the framed parts.
pub open spec fn digest_input(domain: Seq<u8>, parts: Seq<Seq<u8>>) -> Seq<u8> {
    domain + framed_parts(parts)
}

/// The digest of `parts` under `domain`.
pub open spec fn parts_digest(domain: Seq<u8>, parts: Seq<Seq<u8>>) -> [u8; 32] {
    blake3_digest(digest_input(domain, parts))
}

/// The digest of the canonical bytes `payload` under `domain`.
pub open spec fn payload_digest(domain: Seq<u8>, payload: Seq<u8>) -> [u8; 32] {
    parts_digest(domain, seq![payload])
}

proof fn lemma_be_u64_injective(a: u64, b: u64)
    requires
        be_u64(a) == be_u64(b),
    ensures
        a == b,
{
    assert(be_u64(a)[0] == be_u64(b)[0]);
    assert(be_u64(a)[1] == be_u64(b)[1]);
    assert(be_u64(a)[2] == be_u64(b)[2]);
    assert(be_u64(a)[3] == be_u64(b)[3]);
    assert(be_u64(a)[4] == be_u64(b)[4]);
    assert(be_u64(a)[5] == be_u64(b)[5]);
    assert(be_u64(a)[6] == be_u64(b)[6]);
    assert(be_u64(a)[7] == be_u64(b)[7]);
    assert(a == b) by (bit_vector)
        requires
            (a >> 56u64) as u8 == (b >> 56u64) as u8,
            (a >> 48u64) as u8 == (b >> 48u64) as u8,
            (a >> 40u64) as u8 == (b >> 40u64) as u8,
            (a >> 32u64) as u8 == (b >> 32u64) as u8,
            (a >> 24u64) as u8 == (b >> 24u64) as u8,
            (a >> 16u64) as u8 == (b >> 16u64) as u8,
            (a >> 8u64) as u8 == (b >> 8u64) as u8,
            a as u8 == b as u8,
    ;
}

/// The framing read from the front: the first part's length, the first
/// part, then the framing of the others.
proof fn lemma_framed_front(parts: Seq<Seq<u8>>)
    requires
        parts.len() > 0,
    ensures
        framed_parts(parts) == be_u64(parts[0].len() as u64) + parts[0] + framed_parts(parts.drop_first()),
    decreases parts.len(),
{
    if parts.len() > 1 {
        lemma_framed_front(parts.drop_last());
        assert(parts.drop_last().drop_first() =~= parts.drop_first().drop_last());
        assert(parts.drop_last()[0] == parts[0]);
        assert(parts.drop_first().last() == parts.last());
        let a = be_u64(parts[0].len() as u64) + parts[0];
        let b = framed_parts(parts.drop_first().drop_last());
        let c = be_u64(parts.last().len() as u64) + parts.last();
        assert((a + b) + c =~= a + (b + c));
        assert(framed_parts(parts.drop_first()) =~= b + be_u64(parts.last().len() as u64)
            + parts.last());
        assert(b + c =~= framed_parts(parts.drop_first()));
        assert(framed_parts(parts) =~= (a + b) + c);
    } else {
        assert(parts.drop_last() =~= Seq::<Seq<u8>>::empty());
        assert(parts.drop_first() =~= Seq::<Seq<u8>>::empty());
        assert(parts.last() == parts[0]);
        assert(framed_parts(parts.drop_last()) =~= Seq::<u8>::empty());
        assert(framed_parts(parts.drop_first()) =~= Seq::<u8>::empty());
        assert(framed_parts(parts) =~= be_u64(parts[0].len() as u64) + parts[0] + Seq::<u8>::empty());
    }
}

/// Each part's length fits the eight bytes that frame it.
pub open spec fn parts_framable(parts: Seq<Seq<u8>>) -> bool {
    forall|i: int| 0 <= i < parts.len() ==> (#[trigger] parts[i]).len() <= u64::MAX
}

proof fn lemma_framed_injective(p: Seq<Seq<u8>>, q: Seq<Seq<u8>>)
    requires
        parts_framable(p),
        parts_framable(q),
        framed_parts(p) == framed_parts(q),
    ensures
        p == q,
    decreases p.len(),
{
    if p.len() == 0 {
        if q.len() > 0 {
            lemma_framed_front(q);
            assert(framed_parts(q).len() >= 8);
        }
        assert(q =~= p);
    } else {
        if q.len() == 0 {
            lemma_framed_front(p);
            assert(framed_parts(p).len() >= 8);
        }
        lemma_framed_front(p);
        lemma_framed_front(q);
        let fp = framed_parts(p);
        let lp = be_u64(p[0].len() as u64);
        let lq = be_u64(q[0].len() as u64);
        assert(lp =~= fp.subrange(0, 8));
        assert(lq =~= fp.subrange(0, 8));
        lemma_be_u64_injective(p[0].len() as u64, q[0].len() as u64);
        assert(p[0].len() == q[0].len());
        let n = p[0].len() as int;
        assert(p[0] =~= fp.subrange(8, 8 + n));
        assert(q[0] =~= fp.subrange(8, 8 + n));
        assert(framed_parts(p.drop_first()) =~= fp.subrange(8 + n, fp.len() as int));
        assert(framed_parts(q.drop_first()) =~= fp.subrange(8 + n, fp.len() as int));
        assert(parts_framable(p.drop_first())) by {
            assert forall|i: int| 0 <= i < p.drop_first().len() implies (#[trigger] p.drop_first()[i]).len()
                <= u64::MAX by {
                assert(p.drop_first()[i] == p[i + 1]);
            }
        }
        assert(parts_framable(q.drop_first())) by {
            assert forall|i: int| 0 <= i < q.drop_first().len() implies (#[trigger] q.drop_first()[i]).len()
                <= u64::MAX by {
                assert(q.drop_first()[i] == q[i + 1]);
            }
        }
        lemma_framed_injective(p.drop_first(), q.drop_first());
        assert(p =~= seq![p[0]] + p.drop_first());
        assert(q =~= seq![q[0]] + q.drop_first());
    }
}

/// Under one domain, distinct lists of parts are hashed over distinct bytes:
/// each part is framed by its length, so no two lists of parts run together
/// into the same input.
pub proof fn lemma_digest_input_injective(domain: Seq<u8>, p: Seq<Seq<u8>>, q: Seq<Seq<u8>>)
    requires
        parts_framable(p),
        parts_framable(q),
        digest_input(domain, p) == digest_input(domain, q),
    ensures
        p == q,
{
    let n = domain.len() as int;
    assert(framed_parts(p) =~= digest_input(domain, p).subrange(n, digest_input(domain, p).len() as int));
    assert(framed_parts(q) =~= digest_input(domain, q).subrange(n, digest_input(domain, q).len() as int));
    lemma_framed_injective(p, q);
}

#[derive(Copy, Clone, Debug, Eq, PartialOrd, Ord, Hash)]
pub struct AccountId(pub [u8; 32]);

impl PartialEq for AccountId {
    fn eq(&self, other: &Self) -> (r: bool) {
        bytes32_eq(&self.0, &other.0)
    }
}

impl PartialEqSpecImpl for AccountId {
    open spec fn obeys_eq_spec() -> bool {
        true
    }

    open spec fn eq_spec(&self, other: &Self) -> bool {
        *self == *other
    }
}

impl View for AccountId {
    type V = AccountId;

    open spec fn view(&self) -> AccountId {
        *self
    }
}

impl Duplicate for AccountId {
    fn duplicate(&self) -> (r: Self) {
        *self
    }
}

impl Canonical for AccountId {
    open spec fn json(v: AccountId) -> Seq<u8> {
        json_hex(v.0@)
    }

    fn write_json(&self, out: &mut Vec<u8>) {
        write_json_hex(&self.0, out);
    }
}

impl AccountId {
    pub fn from_bytes(bytes: [u8; 32]) -> (r: Self)
        ensures
            r.0 == bytes,
    {
        AccountId(bytes)
    }

    pub fn bytes(self) -> (r: [u8; 32])
        ensures
            r == self.0,
    {
        self.0
    }

    /// The digest, under `domain`, of the canonical bytes of `value`.
    pub fn from_serializable<T: Canonical>(domain: &str, value: &T) -> (r: HorizonResult<Self>)
        ensures
            r matches Ok(id) && id.0 == payload_digest(domain.spec_bytes(), T::json(value@)),
    {
        let digest = Digest::from_serializable(domain, value)?;
        Ok(AccountId(digest.bytes()))
    }
}

#[derive(Copy, Clone, Debug, Eq, PartialOrd, Ord, Hash)]
pub struct AssetId(pub [u8; 32]);

impl PartialEq for AssetId {
    fn eq(&self, other: &Self) -> (r: bool) {
        bytes32_eq(&self.0, &other.0)
    }
}

impl PartialEqSpecImpl for AssetId {
    open spec fn obeys_eq_spec() -> bool {
        true
    }

    open spec fn eq_spec(&self, other: &Self) -> bool {
        *self == *other
    }
}

impl View for AssetId {
    type V = AssetId;

    open spec fn view(&self) -> AssetId {
        *self
    }
}

impl Duplicate for AssetId {
    fn duplicate(&self) -> (r: Self) {
        *self
    }
}

impl Canonical for AssetId {
    open spec fn json(v: AssetId) -> Seq<u8> {
        json_hex(v.0@)
    }

    fn write_json(&self, out: &mut Vec<u8>) {
        write_json_hex(&self.0, out);
    }
}

impl AssetId {
    pub fn from_bytes(bytes: [u8; 32]) -> (r: Self)
        ensures
            r.0 == bytes,
    {
        AssetId(bytes)
    }

    pub fn bytes(self) -> (r: [u8; 32])
        ensures
            r == self.0,
    {
        self.0
    }

    /// The digest, under `domain`, of the canonical bytes of `value`.
    pub fn from_serializable<T: Canonical>(domain: &str, value: &T) -> (r: HorizonResult<Self>)
        ensures
            r matches Ok(id) && id.0 == payload_digest(domain.spec_bytes(), T::json(value@)),
    {
        let digest = Digest::from_serializable(domain, value)?;
        Ok(AssetId(digest.bytes()))
    }
}

#[derive(Copy, Clone, Debug, Eq, PartialOrd, Ord, Hash)]
pub struct VaultId(pub [u8; 32]);

impl PartialEq for VaultId {
    fn eq(&self, other: &Self) -> (r: bool) {
        bytes32_eq(&self.0, &other.0)
    }
}

impl PartialEqSpecImpl for VaultId {
    open spec fn obeys_eq_spec() -> bool {
        true
    }

    open spec fn eq_spec(&self, other: &Self) -> bool {
        *self == *other
    }
}

impl View for VaultId {
    type V = VaultId;

    open spec fn view(&self) -> VaultId {
        *self
    }
}

impl Duplicate for VaultId {
    fn duplicate(&self) -> (r: Self) {
        *self
    }
}

impl Canonical for VaultId {
    open spec fn json(v: VaultId) -> Seq<u8> {
        json_hex(v.0@)
    }

    fn write_json(&self, out: &mut Vec<u8>) {
        write_json_hex(&self.0, out);
    }
}

impl VaultId {
    pub fn from_bytes(bytes: [u8; 32]) -> (r: Self)
        ensures
            r.0 == bytes,
    {
        VaultId(bytes)
    }

    pub fn bytes(self) -> (r: [u8; 32])
        ensures
            r == self.0,
    {
        self.0
    }

    /// The digest, under `domain`, of the canonical bytes of `value`.
    pub fn from_serializable<T: Canonical>(domain: &str, value: &T) -> (r: HorizonResult<Self>)
        ensures
            r matches Ok(id) && id.0 == payload_digest(domain.spec_bytes(), T::json(value@)),
    {
        let digest = Digest::from_serializable(domain, value)?;
        Ok(VaultId(digest.bytes()))
    }
}

#[derive(Copy, Clone, Debug, Eq, PartialOrd, Ord, Hash)]
pub struct NoteId(pub [u8; 32]);

impl PartialEq for NoteId {
    fn eq(&self, other: &Self) -> (r: bool) {
        bytes32_eq(&self.0, &other.0)
    }
}

impl PartialEqSpecImpl for NoteId {
    open spec fn obeys_eq_spec() -> bool {
        true
    }

    open spec fn eq_spec(&self, other: &Self) -> bool {
        *self == *other
    }
}

impl View for NoteId {
    type V = NoteId;

    open spec fn view(&self) -> NoteId {
        *self
    }
}

impl Duplicate for NoteId {
    fn duplicate(&self) -> (r: Self) {
        *self
    }
}

impl Canonical for NoteId {
    open spec fn json(v: NoteId) -> Seq<u8> {
        json_hex(v.0@)
    }

    fn write_json(&self, out: &mut Vec<u8>) {
        write_json_hex(&self.0, out);
    }
}

impl NoteId {
    pub fn from_bytes(bytes: [u8; 32]) -> (r: Self)
        ensures
            r.0 == bytes,
    {
        NoteId(bytes)
    }

    pub fn bytes(self) -> (r: [u8; 32])
        ensures
            r == self.0,
    {
        self.0
    }

    /// The digest, under `domain`, of the canonical bytes of `value`.
    pub fn from_serializable<T: Canonical>(domain: &str, value: &T) -> (r: HorizonResult<Self>)
        ensures
            r matches Ok(id) && id.0 == payload_digest(domain.spec_bytes(), T::json(value@)),
    {
        let digest = Digest::from_serializable(domain, value)?;
        Ok(NoteId(digest.bytes()))
    }
}

#[derive(Copy, Clone, Debug, Eq, PartialOrd, Ord, Hash)]
pub struct TicketId(pub [u8; 32]);

impl PartialEq for TicketId {
    fn eq(&self, other: &Self) -> (r: bool) {
        bytes32_eq(&self.0, &other.0)
    }
}

impl PartialEqSpecImpl for TicketId {
    open spec fn obeys_eq_spec() -> bool {
        true
    }

    open spec fn eq_spec(&self, other: &Self) -> bool {
        *self == *other
    }
}

impl View for TicketId {
    type V = TicketId;

    open spec fn view(&self) -> TicketId {
        *self
    }
}

impl Duplicate for TicketId {
    fn duplicate(&self) -> (r: Self) {
        *self
    }
}

impl Canonical for TicketId {
    open spec fn json(v: TicketId) -> Seq<u8> {
        json_hex(v.0@)
    }

    fn write_json(&self, out: &mut Vec<u8>) {
        write_json_hex(&self.0, out);
    }
}

impl TicketId {
    pub fn from_bytes(bytes: [u8; 32]) -> (r: Self)
        ensures
            r.0 == bytes,
    {
        TicketId(bytes)
    }

    pub fn bytes(self) -> (r: [u8; 32])
        ensures
            r == self.0,
    {
        self.0
    }

    /// The digest, under `domain`, of the canonical bytes of `value`.
    pub fn from_serializable<T: Canonical>(domain: &str, value: &T) -> (r: HorizonResult<Self>)
        ensures
            r matches Ok(id) && id.0 == payload_digest(domain.spec_bytes(), T::json(value@)),
    {
        let digest = Digest::from_serializable(domain, value)?;
        Ok(TicketId(digest.bytes()))
    }
}

#[derive(Copy, Clone, Debug, Eq, PartialOrd, Ord, Hash)]
pub struct TxId(pub [u8; 32]);

impl PartialEq for TxId {
    fn eq(&self, other: &Self) -> (r: bool) {
        bytes32_eq(&self.0, &other.0)
    }
}

impl PartialEqSpecImpl for TxId {
    open spec fn obeys_eq_spec() -> bool {
        true
    }

    open spec fn eq_spec(&self, other: &Self) -> bool {
        *self == *other
    }
}

impl View for TxId {
    type V = TxId;

    open spec fn view(&self) -> TxId {
        *self
    }
}

impl Duplicate for TxId {
    fn duplicate(&self) -> (r: Self) {
        *self
    }
}

impl Canonical for TxId {
    open spec fn json(v: TxId) -> Seq<u8> {
        json_hex(v.0@)
    }

    fn write_json(&self, out: &mut Vec<u8>) {
        write_json_hex(&self.0, out);
    }
}

impl TxId {
    pub fn from_bytes(bytes: [u8; 32]) -> (r: Self)
        ensures
            r.0 == bytes,
    {
        TxId(bytes)
    }

    pub fn bytes(self) -> (r: [u8; 32])
        ensures
            r == self.0,
    {
        self.0
    }

    /// The digest, under `domain`, of the canonical bytes of `value`.
    pub fn from_serializable<T: Canonical>(domain: &str, value: &T) -> (r: HorizonResult<Self>)
        ensures
            r matches Ok(id) && id.0 == payload_digest(domain.spec_bytes(), T::json(value@)),
    {
        let digest = Digest::from_serializable(domain, value)?;
        Ok(TxId(digest.bytes()))
    }
}

#[derive(Copy, Clone, Debug, Eq, PartialOrd, Ord, Hash)]
pub struct Digest(pub [u8; 32]);

impl PartialEq for Digest {
    fn eq(&self, other: &Self) -> (r: bool) {
        bytes32_eq(&self.0, &other.0)
    }
}

impl PartialEqSpecImpl for Digest {
    open spec fn obeys_eq_spec() -> bool {
        true
    }

    open spec fn eq_spec(&self, other: &Self) -> bool {
        *self == *other
    }
}

impl View for Digest {
    type V = Digest;

    open spec fn view(&self) -> Digest {
        *self
    }
}

impl Duplicate for Digest {
    fn duplicate(&self) -> (r: Self) {
        *self
    }
}

impl Canonical for Digest {
    open spec fn json(v: Digest) -> Seq<u8> {
        json_hex(v.0@)
    }

    fn write_json(&self, out: &mut Vec<u8>) {
        write_json_hex(&self.0, out);
    }
}

impl Digest {
    pub fn from_bytes(bytes: [u8; 32]) -> (r: Self)
        ensures
            r.0 == bytes,
    {
        Digest(bytes)
    }

    pub fn bytes(self) -> (r: [u8; 32])
        ensures
            r == self.0,
    {
        self.0
    }

    /// The digest of `parts` under `domain`: BLAKE3 over the domain's bytes,
    /// then each part preceded by its length as eight big-endian bytes.
    pub fn from_parts(domain: &str, parts: &[&[u8]]) -> (r: Self)
        ensures
            r.0 == parts_digest(domain.spec_bytes(), parts@.map_values(|p: &[u8]| p@)),
    {
        let mut input: Vec<u8> = Vec::new();
        input.extend_from_slice(domain.as_bytes());
        let ghost spec_parts = parts@.map_values(|p: &[u8]| p@);
        assert(input@ =~= domain.spec_bytes() + framed_parts(spec_parts.subrange(0, 0)));
        let mut i: usize = 0;
        while i < parts.len()
            invariant
                i <= parts@.len(),
                spec_parts == parts@.map_values(|p: &[u8]| p@),
                input@ == domain.spec_bytes() + framed_parts(spec_parts.subrange(0, i as int)),
            decreases parts@.len() - i,
        {
            let part: &[u8] = parts[i];
            let ghost before = input@;
            write_be_u64(part.len() as u64, &mut input);
            input.extend_from_slice(part);
            assert(spec_parts.subrange(0, i + 1).drop_last() =~= spec_parts.subrange(0, i as int));
            assert(spec_parts[i as int] == part@);
            assert(input@ =~= before + be_u64(part@.len() as u64) + part@);
            i = i + 1;
        }
        assert(spec_parts.subrange(0, i as int) =~= spec_parts);
        Digest(blake3_hash(input.as_slice()))
    }

    /// The digest, under `domain`, of the canonical bytes of `value`.
    pub fn from_serializable<T: Canonical>(domain: &str, value: &T) -> (r: HorizonResult<Self>)
        ensures
            r matches Ok(d) && d.0 == payload_digest(domain.spec_bytes(), T::json(value@)),
    {
        let bytes = canonical_bytes(value)?;
        let payload: &[u8] = bytes.as_slice();
        let parts: [&[u8]; 1] = [payload];
        assert(parts@ =~= seq![payload]);
        let d = Digest::from_parts(domain, &parts);
        proof {
            assert(parts@.map_values(|p: &[u8]| p@) =~= seq![T::json(value@)]);
        }
        Ok(d)
    }
}


/// The parts that an asset identifier is derived from.
pub open spec fn asset_id_input(symbol: Seq<u8>, decimals: u8) -> Seq<Seq<u8>> {
    seq![symbol, seq![decimals]]
}

impl AssetId {
    /// The identifier of an asset: the digest of its symbol and decimals.
    pub fn derive(symbol: &str, decimals: u8) -> (r: Self)
        ensures
            r.0 == parts_digest("horizon-asset-v1".spec_bytes(), asset_id_input(symbol.spec_bytes(), decimals)),
    {
        let d: [u8; 1] = [decimals];
        let parts: [&[u8]; 2] = [symbol.as_bytes(), &d];
        proof {
            assert(d@ =~= seq![decimals]);
            assert(parts@.map_values(|p: &[u8]| p@) =~= asset_id_input(symbol.spec_bytes(), decimals));
        }
        AssetId(Digest::from_parts("horizon-asset-v1", &parts).0)
    }
}

/// The parts that a vault identifier is derived from.
pub open spec fn vault_id_input(controller: AccountId, asset: AssetId, region: u16, salt: Digest) -> Seq<Seq<u8>> {
    seq![controller.0@, asset.0@, be_u16(region), salt.0@]
}

impl VaultId {
    /// The identifier of a vault: the digest of its controller, asset, region and salt.
    pub fn derive(controller: AccountId, asset: AssetId, region: u16, salt: Digest) -> (r: Self)
        ensures
            r.0 == parts_digest("horizon-vault-v1".spec_bytes(), vault_id_input(controller, asset, region, salt)),
    {
        let mut region_bytes: Vec<u8> = Vec::new();
        write_be_u16(region, &mut region_bytes);
        let parts: [&[u8]; 4] = [&controller.0, &asset.0, region_bytes.as_slice(), &salt.0];
        proof {
            assert(region_bytes@ =~= be_u16(region));
            assert(parts@.map_values(|p: &[u8]| p@) =~= vault_id_input(controller, asset, region, salt));
        }
        VaultId(Digest::from_parts("horizon-vault-v1", &parts).0)
    }
}

/// The parts that a note identifier is derived from.
pub open spec fn note_id_input(
    network_id: u32,
    vault_id: VaultId,
    beneficiary: AccountId,
    asset: AssetId,
    amount: Amount,
    owner_nonce: u64,
    route_digest: Digest,
) -> Seq<Seq<u8>> {
    seq![
        be_u32(network_id),
        vault_id.0@,
        beneficiary.0@,
        asset.0@,
        be_u128(amount.0),
        be_u64(owner_nonce),
        route_digest.0@,
    ]
}

impl NoteId {
    /// The identifier of a note: the digest of what the note delivers.
    pub fn derive(
        network_id: u32,
        vault_id: VaultId,
        beneficiary: AccountId,
        asset: AssetId,
        amount: Amount,
        owner_nonce: u64,
        route_digest: Digest,
    ) -> (r: Self)
        ensures
            r.0 == parts_digest(
                "horizon-note-v1".spec_bytes(),
                note_id_input(network_id, vault_id, beneficiary, asset, amount, owner_nonce, route_digest),
            ),
    {
        let mut network_bytes: Vec<u8> = Vec::new();
        write_be_u32(network_id, &mut network_bytes);
        let mut amount_bytes: Vec<u8> = Vec::new();
        write_be_u128(amount.0, &mut amount_bytes);
        let mut nonce_bytes: Vec<u8> = Vec::new();
        write_be_u64(owner_nonce, &mut nonce_bytes);
        let parts: [&[u8]; 7] = [
            network_bytes.as_slice(),
            &vault_id.0,
            &beneficiary.0,
            &asset.0,
            amount_bytes.as_slice(),
            nonce_bytes.as_slice(),
            &route_digest.0,
        ];
        proof {
            assert(network_bytes@ =~= be_u32(network_id));
            assert(amount_bytes@ =~= be_u128(amount.0));
            assert(nonce_bytes@ =~= be_u64(owner_nonce));
            assert(parts@.map_values(|p: &[u8]| p@) =~= note_id_input(
                network_id,
                vault_id,
                beneficiary,
                asset,
                amount,
                owner_nonce,
                route_digest,
            ));
        }
        NoteId(Digest::from_parts("horizon-note-v1", &parts).0)
    }
}

/// The parts that a ticket identifier is derived from.
pub open spec fn ticket_id_input(
    network_id: u32,
    payout_vault: VaultId,
    note_id: NoteId,
    relayer: AccountId,
    ticket_nonce: u64,
) -> Seq<Seq<u8>> {
    seq![be_u32(network_id), payout_vault.0@, note_id.0@, relayer.0@, be_u64(ticket_nonce)]
}

impl TicketId {
    /// The identifier of a redemption ticket.
    pub fn derive(
        network_id: u32,
        payout_vault: VaultId,
        note_id: NoteId,
        relayer: AccountId,
        ticket_nonce: u64,
    ) -> (r: Self)
        ensures
            r.0 == parts_digest(
                "horizon-ticket-v1".spec_bytes(),
                ticket_id_input(network_id, payout_vault, note_id, relayer, ticket_nonce),
            ),
    {
        let mut network_bytes: Vec<u8> = Vec::new();
        write_be_u32(network_id, &mut network_bytes);
        let mut nonce_bytes: Vec<u8> = Vec::new();
        write_be_u64(ticket_nonce, &mut nonce_bytes);
        let parts: [&[u8]; 5] = [
            network_bytes.as_slice(),
            &payout_vault.0,
            &note_id.0,
            &relayer.0,
            nonce_bytes.as_slice(),
        ];
        proof {
            assert(network_bytes@ =~= be_u32(network_id));
            assert(nonce_bytes@ =~= be_u64(ticket_nonce));
            assert(parts@.map_values(|p: &[u8]| p@) =~= ticket_id_input(
                network_id,
                payout_vault,
                note_id,
                relayer,
                ticket_nonce,
            ));
        }
        TicketId(Digest::from_parts("horizon-ticket-v1", &parts).0)
    }
}

impl From<Digest> for AccountId {
    fn from(value: Digest) -> (r: Self) {
        AccountId(value.0)
    }
}

impl FromSpecImpl<Digest> for AccountId {
    open spec fn obeys_from_spec() -> bool {
        true
    }

    open spec fn from_spec(v: Digest) -> Self {
        AccountId(v.0)
    }
}

impl From<Digest> for AssetId {
    fn from(value: Digest) -> (r: Self) {
        AssetId(value.0)
    }
}

impl FromSpecImpl<Digest> for AssetId {
    open spec fn obeys_from_spec() -> bool {
        true
    }

    open spec fn from_spec(v: Digest) -> Self {
        AssetId(v.0)
    }
}

impl From<Digest> for VaultId {
    fn from(value: Digest) -> (r: Self) {
        VaultId(value.0)
    }
}

impl FromSpecImpl<Digest> for VaultId {
    open spec fn obeys_from_spec() -> bool {
        true
    }

    open spec fn from_spec(v: Digest) -> Self {
        VaultId(v.0)
    }
}

impl From<Digest> for NoteId {
    fn from(value: Digest) -> (r: Self) {
        NoteId(value.0)
    }
}

impl FromSpecImpl<Digest> for NoteId {
    open spec fn obeys_from_spec() -> bool {
        true
    }

    open spec fn from_spec(v: Digest) -> Self {
        NoteId(v.0)
    }
}

impl From<Digest> for TicketId {
    fn from(value: Digest) -> (r: Self) {
        TicketId(value.0)
    }
}

impl FromSpecImpl<Digest> for TicketId {
    open spec fn obeys_from_spec() -> bool {
        true
    }

    open spec fn from_spec(v: Digest) -> Self {
        TicketId(v.0)
    }
}

impl From<Digest> for TxId {
    fn from(value: Digest) -> (r: Self) {
        TxId(value.0)
    }
}

impl FromSpecImpl<Digest> for TxId {
    open spec fn obeys_from_spec() -> bool {
        true
    }

    open spec fn from_spec(v: Digest) -> Self {
        TxId(v.0)
    }
}

} // verus!
