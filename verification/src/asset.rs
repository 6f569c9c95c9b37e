//! Asset configuration.
use vstd::prelude::*;
use vstd::seq_lib::lemma_concat_associative;
use vstd::string::StringSliceAdditionalSpecFns;

use crate::amount::Bps;
use crate::bytemap::Duplicate;
use crate::codec::{lit, write_lit, Canonical};
use crate::error::{policy, ErrorView, HorizonResult, result_view};
use crate::ids::{asset_id_input, parts_digest, AssetId};

verus! {

#[derive(Copy, Clone, Debug, Eq, PartialEq)]
pub struct AssetConfig {
    pub id: AssetId,
    pub symbol: &'static str,
    pub decimals: u8,
    pub max_fee_bps: Bps,
    pub settlement_enabled: bool,
}

/// Whether `symbol` is acceptable: between 1 and 12 bytes of UTF-8.
pub open spec fn symbol_valid(symbol: &str) -> bool {
    symbol@.len() != 0 && (symbol.spec_bytes().len() as usize) <= 12
}

impl AssetConfig {
    pub fn new(symbol: &'static str, decimals: u8, max_fee_bps: Bps) -> (r: HorizonResult<Self>)
        ensures
            symbol_valid(symbol) ==> (r matches Ok(c) && c.symbol == symbol && c.decimals == decimals
                && c.max_fee_bps == max_fee_bps && c.settlement_enabled
                && c.id.0 == parts_digest(
                "horizon-asset-v1".spec_bytes(),
                asset_id_input(symbol.spec_bytes(), decimals),
            )),
            !symbol_valid(symbol) ==> result_view(r) == Err::<AssetConfig, ErrorView>(
                ErrorView::Policy("asset symbol is invalid"@),
            ),
    {
        if symbol.is_empty() || symbol.len() > 12 {
            return Err(policy("asset symbol is invalid"));
        }
        Ok(AssetConfig {
            id: AssetId::derive(symbol, decimals),
            symbol,
            decimals,
            max_fee_bps,
            settlement_enabled: true,
        })
    }

    pub fn with_settlement(self, enabled: bool) -> (r: Self)
        ensures
            r == (AssetConfig { settlement_enabled: enabled, ..self }),
    {
        let mut config = self;
        config.settlement_enabled = enabled;
        config
    }
}

impl View for AssetConfig {
    type V = AssetConfig;

    open spec fn view(&self) -> AssetConfig {
        *self
    }
}

impl Duplicate for AssetConfig {
    fn duplicate(&self) -> (r: Self) {
        *self
    }
}

impl Canonical for AssetConfig {
    open spec fn json(v: AssetConfig) -> Seq<u8> {
        lit("{\"id\":")
            + AssetId::json(v.id)
            + lit(",\"symbol\":")
            + <&str>::json(v.symbol@)
            + lit(",\"decimals\":")
            + u8_json(v.decimals)
            + lit(",\"max_fee_bps\":")
            + Bps::json(v.max_fee_bps)
            + lit(",\"settlement_enabled\":")
            + bool::json(v.settlement_enabled)
            + lit("}")
    }

    fn write_json(&self, out: &mut Vec<u8>) {
        let ghost v = self@;
        let ghost mut acc: Seq<u8>;
        write_lit("{\"id\":", out);
        proof {
            acc = lit("{\"id\":");
        }
        self.id.write_json(out);
        proof {
            lemma_concat_associative(old(out)@, acc, AssetId::json(v.id));
            acc = acc + AssetId::json(v.id);
        }
        write_lit(",\"symbol\":", out);
        proof {
            lemma_concat_associative(old(out)@, acc, lit(",\"symbol\":"));
            acc = acc + lit(",\"symbol\":");
        }
        self.symbol.write_json(out);
        proof {
            lemma_concat_associative(old(out)@, acc, <&str>::json(v.symbol@));
            acc = acc + <&str>::json(v.symbol@);
        }
        write_lit(",\"decimals\":", out);
        proof {
            lemma_concat_associative(old(out)@, acc, lit(",\"decimals\":"));
            acc = acc + lit(",\"decimals\":");
        }
        (self.decimals as u32).write_json(out);
        proof {
            lemma_concat_associative(old(out)@, acc, u8_json(v.decimals));
            acc = acc + u8_json(v.decimals);
        }
        write_lit(",\"max_fee_bps\":", out);
        proof {
            lemma_concat_associative(old(out)@, acc, lit(",\"max_fee_bps\":"));
            acc = acc + lit(",\"max_fee_bps\":");
        }
        self.max_fee_bps.write_json(out);
        proof {
            lemma_concat_associative(old(out)@, acc, Bps::json(v.max_fee_bps));
            acc = acc + Bps::json(v.max_fee_bps);
        }
        write_lit(",\"settlement_enabled\":", out);
        proof {
            lemma_concat_associative(old(out)@, acc, lit(",\"settlement_enabled\":"));
            acc = acc + lit(",\"settlement_enabled\":");
        }
        self.settlement_enabled.write_json(out);
        proof {
            lemma_concat_associative(old(out)@, acc, bool::json(v.settlement_enabled));
            acc = acc + bool::json(v.settlement_enabled);
        }
        write_lit("}", out);
        proof {
            lemma_concat_associative(old(out)@, acc, lit("}"));
            acc = acc + lit("}");
        }
        assert(acc == Self::json(v));
    }
}

/// A byte as a JSON number.
pub open spec fn u8_json(v: u8) -> Seq<u8> {
    u32::json(v as u32)
}

} // verus!
