//! Share-index observations published for vaults.
use vstd::prelude::*;
use vstd::seq_lib::lemma_concat_associative;
use vstd::string::StringSliceAdditionalSpecFns;

use crate::amount::{Bps, ShareIndex};
use crate::bytemap::{map_get, map_insert, ByteMap, Duplicate};
use crate::codec::{json_map, lit, write_lit, Canonical};
use crate::error::HorizonResult;
use crate::ids::{payload_digest, AccountId, AssetId, Digest, VaultId};

verus! {

#[derive(Copy, Clone, Debug, Eq, PartialEq)]
pub struct IndexObservation {
    pub vault_id: VaultId,
    pub asset: AssetId,
    pub observer: AccountId,
    pub share_index: ShareIndex,
    pub confidence_bps: Bps,
    pub epoch: u64,
    pub observation_digest: Digest,
}

impl IndexObservation {
    pub fn new(
        vault_id: VaultId,
        asset: AssetId,
        observer: AccountId,
        share_index: ShareIndex,
        confidence_bps: Bps,
        epoch: u64,
    ) -> (r: HorizonResult<Self>)
        ensures
            r matches Ok(o) && o.vault_id == vault_id && o.asset == asset && o.observer == observer
                && o.share_index == share_index && o.confidence_bps == confidence_bps && o.epoch == epoch
                && o.observation_digest.0 == payload_digest(
                "horizon-index-observation-v1".spec_bytes(),
                <(VaultId, AssetId, AccountId, ShareIndex, Bps, u64)>::json(
                    (vault_id, asset, observer, share_index, confidence_bps, epoch),
                ),
            ),
    {
        let observation_digest = Digest::from_serializable(
            "horizon-index-observation-v1",
            &(vault_id, asset, observer, share_index, confidence_bps, epoch),
        )?;
        Ok(IndexObservation {
            vault_id,
            asset,
            observer,
            share_index,
            confidence_bps,
            epoch,
            observation_digest,
        })
    }
}

/// The latest observation of each vault, in vault order.
pub struct OracleBook {
    observations: ByteMap<IndexObservation>,
}

impl View for OracleBook {
    type V = Seq<([u8; 32], IndexObservation)>;

    closed spec fn view(&self) -> Seq<([u8; 32], IndexObservation)> {
        self.observations@
    }
}

impl Default for OracleBook {
    fn default() -> (r: Self)
        ensures
            r@ == Seq::<([u8; 32], IndexObservation)>::empty(),
    {
        OracleBook { observations: ByteMap::new() }
    }
}

impl OracleBook {
    pub fn publish(&mut self, observation: IndexObservation)
        ensures
            final(self)@ == map_insert(old(self)@, observation.vault_id.0, observation),
    {
        self.observations.insert(observation.vault_id.0, observation);
    }

    pub fn latest(&self, vault_id: VaultId) -> (r: Option<IndexObservation>)
        ensures
            r == map_get(self@, vault_id.0),
    {
        match self.observations.get(&vault_id.0) {
            Some(o) => Some(*o),
            None => None,
        }
    }

    pub fn observation_count(&self) -> (r: usize)
        ensures
            r == self@.len(),
    {
        self.observations.len()
    }
}

impl Duplicate for OracleBook {
    fn duplicate(&self) -> (r: Self) {
        OracleBook { observations: self.observations.duplicate() }
    }
}

impl View for IndexObservation {
    type V = IndexObservation;

    open spec fn view(&self) -> IndexObservation {
        *self
    }
}

impl Duplicate for IndexObservation {
    fn duplicate(&self) -> (r: Self) {
        *self
    }
}

impl Canonical for IndexObservation {
    open spec fn json(v: IndexObservation) -> Seq<u8> {
        lit("{\"vault_id\":")
            + VaultId::json(v.vault_id)
            + lit(",\"asset\":")
            + AssetId::json(v.asset)
            + lit(",\"observer\":")
            + AccountId::json(v.observer)
            + lit(",\"share_index\":")
            + ShareIndex::json(v.share_index)
            + lit(",\"confidence_bps\":")
            + Bps::json(v.confidence_bps)
            + lit(",\"epoch\":")
            + u64::json(v.epoch)
            + lit(",\"observation_digest\":")
            + Digest::json(v.observation_digest)
            + lit("}")
    }

    fn write_json(&self, out: &mut Vec<u8>) {
        let ghost v = self@;
        let ghost mut acc: Seq<u8>;
        write_lit("{\"vault_id\":", out);
        proof {
            acc = lit("{\"vault_id\":");
        }
        self.vault_id.write_json(out);
        proof {
            lemma_concat_associative(old(out)@, acc, VaultId::json(v.vault_id));
            acc = acc + VaultId::json(v.vault_id);
        }
        write_lit(",\"asset\":", out);
        proof {
            lemma_concat_associative(old(out)@, acc, lit(",\"asset\":"));
            acc = acc + lit(",\"asset\":");
        }
        self.asset.write_json(out);
        proof {
            lemma_concat_associative(old(out)@, acc, AssetId::json(v.asset));
            acc = acc + AssetId::json(v.asset);
        }
        write_lit(",\"observer\":", out);
        proof {
            lemma_concat_associative(old(out)@, acc, lit(",\"observer\":"));
            acc = acc + lit(",\"observer\":");
        }
        self.observer.write_json(out);
        proof {
            lemma_concat_associative(old(out)@, acc, AccountId::json(v.observer));
            acc = acc + AccountId::json(v.observer);
        }
        write_lit(",\"share_index\":", out);
        proof {
            lemma_concat_associative(old(out)@, acc, lit(",\"share_index\":"));
            acc = acc + lit(",\"share_index\":");
        }
        self.share_index.write_json(out);
        proof {
            lemma_concat_associative(old(out)@, acc, ShareIndex::json(v.share_index));
            acc = acc + ShareIndex::json(v.share_index);
        }
        write_lit(",\"confidence_bps\":", out);
        proof {
            lemma_concat_associative(old(out)@, acc, lit(",\"confidence_bps\":"));
            acc = acc + lit(",\"confidence_bps\":");
        }
        self.confidence_bps.write_json(out);
        proof {
            lemma_concat_associative(old(out)@, acc, Bps::json(v.confidence_bps));
            acc = acc + Bps::json(v.confidence_bps);
        }
        write_lit(",\"epoch\":", out);
        proof {
            lemma_concat_associative(old(out)@, acc, lit(",\"epoch\":"));
            acc = acc + lit(",\"epoch\":");
        }
        self.epoch.write_json(out);
        proof {
            lemma_concat_associative(old(out)@, acc, u64::json(v.epoch));
            acc = acc + u64::json(v.epoch);
        }
        write_lit(",\"observation_digest\":", out);
        proof {
            lemma_concat_associative(old(out)@, acc, lit(",\"observation_digest\":"));
            acc = acc + lit(",\"observation_digest\":");
        }
        self.observation_digest.write_json(out);
        proof {
            lemma_concat_associative(old(out)@, acc, Digest::json(v.observation_digest));
            acc = acc + Digest::json(v.observation_digest);
        }
        write_lit("}", out);
        proof {
            lemma_concat_associative(old(out)@, acc, lit("}"));
            acc = acc + lit("}");
        }
        assert(acc == Self::json(v));
    }
}

impl Canonical for OracleBook {
    open spec fn json(v: Seq<([u8; 32], IndexObservation)>) -> Seq<u8> {
        lit("{\"observations\":") + json_map::<IndexObservation>(v) + lit("}")
    }

    fn write_json(&self, out: &mut Vec<u8>) {
        write_lit("{\"observations\":", out);
        self.observations.write_json(out);
        write_lit("}", out);
        assert(out@ =~= old(out)@ + Self::json(self@));
    }
}

} // verus!
