//! Settlement routes between a source vault and a payout vault.
use vstd::prelude::*;
use vstd::seq_lib::lemma_concat_associative;
use vstd::string::StringSliceAdditionalSpecFns;

use crate::amount::{spec_mul_bps, Amount, Bps};
use crate::bytemap::{
    keys_sorted, lemma_insert_entries, lemma_insert_same, map_contains, map_insert, ByteMap, Duplicate,
};
use crate::bytes::{key_lt, lemma_key_order};
use crate::codec::{json_map, lit, write_lit, Canonical};
use crate::error::{policy, ErrorView, HorizonError, HorizonResult, result_view};
use crate::ids::{payload_digest, AssetId, Digest, VaultId};

verus! {

#[derive(Copy, Clone, Debug, Eq, PartialEq)]
pub struct SettlementRoute {
    pub route_id: Digest,
    pub source_vault: VaultId,
    pub payout_vault: VaultId,
    pub asset: AssetId,
    pub min_amount: Amount,
    pub max_amount: Amount,
    pub max_relayer_fee_bps: Bps,
    pub finality_delay_epochs: u64,
    pub enabled: bool,
}

/// The canonical bytes that a route's identifier is the digest of.
pub open spec fn route_id_payload(
    source_vault: VaultId,
    payout_vault: VaultId,
    asset: AssetId,
    min_amount: Amount,
    max_amount: Amount,
    max_relayer_fee_bps: Bps,
    finality_delay_epochs: u64,
    salt: Digest,
) -> Seq<u8> {
    <(VaultId, VaultId, AssetId, Amount, Amount, Bps, u64, Digest)>::json(
        (
            source_vault,
            payout_vault,
            asset,
            min_amount,
            max_amount,
            max_relayer_fee_bps,
            finality_delay_epochs,
            salt,
        ),
    )
}

/// Whether `route` carries a settlement of `amount` of `asset` from
/// `source_vault` to `payout_vault` for a relayer fee of `relayer_fee`.
pub open spec fn spec_accepts(
    route: SettlementRoute,
    source_vault: VaultId,
    payout_vault: VaultId,
    asset: AssetId,
    amount: Amount,
    relayer_fee: Amount,
) -> Result<bool, ErrorView> {
    if !route.enabled {
        Ok(false)
    } else if route.source_vault != source_vault || route.payout_vault != payout_vault || route.asset
        != asset {
        Ok(false)
    } else if amount.0 < route.min_amount.0 || amount.0 > route.max_amount.0 {
        Ok(false)
    } else {
        match spec_mul_bps(amount, route.max_relayer_fee_bps) {
            Err(e) => Err(e),
            Ok(max_fee) => Ok(relayer_fee.0 <= max_fee.0),
        }
    }
}

impl SettlementRoute {
    pub fn new(
        source_vault: VaultId,
        payout_vault: VaultId,
        asset: AssetId,
        min_amount: Amount,
        max_amount: Amount,
        max_relayer_fee_bps: Bps,
        finality_delay_epochs: u64,
        salt: Digest,
    ) -> (r: HorizonResult<Self>)
        ensures
            min_amount.0 == 0 || max_amount.0 == 0 ==> result_view(r) == Err::<SettlementRoute, ErrorView>(
                ErrorView::ZeroAmount,
            ),
            min_amount.0 != 0 && max_amount.0 != 0 && min_amount.0 > max_amount.0 ==> result_view(r)
                == Err::<SettlementRoute, ErrorView>(ErrorView::Policy("route amount range is invalid"@)),
            min_amount.0 != 0 && max_amount.0 != 0 && min_amount.0 <= max_amount.0 ==> (r matches Ok(route)
                && route.source_vault == source_vault && route.payout_vault == payout_vault && route.asset
                == asset && route.min_amount == min_amount && route.max_amount == max_amount
                && route.max_relayer_fee_bps == max_relayer_fee_bps && route.finality_delay_epochs
                == finality_delay_epochs && route.enabled && route.route_id.0 == payload_digest(
                "horizon-route-v1".spec_bytes(),
                route_id_payload(
                    source_vault,
                    payout_vault,
                    asset,
                    min_amount,
                    max_amount,
                    max_relayer_fee_bps,
                    finality_delay_epochs,
                    salt,
                ),
            )),
    {
        if min_amount.is_zero() || max_amount.is_zero() {
            return Err(HorizonError::ZeroAmount);
        }
        if min_amount.0 > max_amount.0 {
            return Err(policy("route amount range is invalid"));
        }
        let route_id = Digest::from_serializable(
            "horizon-route-v1",
            &(
                source_vault,
                payout_vault,
                asset,
                min_amount,
                max_amount,
                max_relayer_fee_bps,
                finality_delay_epochs,
                salt,
            ),
        )?;
        Ok(SettlementRoute {
            route_id,
            source_vault,
            payout_vault,
            asset,
            min_amount,
            max_amount,
            max_relayer_fee_bps,
            finality_delay_epochs,
            enabled: true,
        })
    }

    pub fn accepts(
        self,
        source_vault: VaultId,
        payout_vault: VaultId,
        asset: AssetId,
        amount: Amount,
        relayer_fee: Amount,
    ) -> (r: HorizonResult<bool>)
        ensures
            result_view(r) == spec_accepts(self, source_vault, payout_vault, asset, amount, relayer_fee),
    {
        if !self.enabled {
            return Ok(false);
        }
        if self.source_vault != source_vault || self.payout_vault != payout_vault || self.asset != asset {
            return Ok(false);
        }
        if amount.0 < self.min_amount.0 || amount.0 > self.max_amount.0 {
            return Ok(false);
        }
        let max_fee = amount.checked_mul_bps(self.max_relayer_fee_bps)?;
        Ok(relayer_fee.0 <= max_fee.0)
    }
}

/// The first route, in route order, that accepts the settlement; an error
/// where checking a route fails before one accepts, or where none does.
pub open spec fn spec_resolve_route(
    routes: Seq<([u8; 32], SettlementRoute)>,
    source_vault: VaultId,
    payout_vault: VaultId,
    asset: AssetId,
    amount: Amount,
    relayer_fee: Amount,
) -> Result<SettlementRoute, ErrorView>
    decreases routes.len(),
{
    if routes.len() == 0 {
        Err(ErrorView::Policy("settlement route not available"@))
    } else {
        match spec_accepts(routes[0].1, source_vault, payout_vault, asset, amount, relayer_fee) {
            Err(e) => Err(e),
            Ok(true) => Ok(routes[0].1),
            Ok(false) => spec_resolve_route(
                routes.drop_first(),
                source_vault,
                payout_vault,
                asset,
                amount,
                relayer_fee,
            ),
        }
    }
}

/// Registered routes by identifier, in identifier order.
pub struct RouteBook {
    routes: ByteMap<SettlementRoute>,
}

impl RouteBook {
    #[verifier::type_invariant]
    closed spec fn keyed(self) -> bool {
        routes_keyed(self.routes@)
    }
}

/// Registering `route`: refused where its identifier is taken.
pub open spec fn spec_register_route(routes: Seq<([u8; 32], SettlementRoute)>, route: SettlementRoute) -> Result<
    Seq<([u8; 32], SettlementRoute)>,
    ErrorView,
> {
    if map_contains(routes, route.route_id.0) {
        Err(ErrorView::Policy("route already exists"@))
    } else {
        Ok(map_insert(routes, route.route_id.0, route))
    }
}

/// A route is registered once: registering it again is refused.
pub proof fn lemma_route_registered_once(routes: Seq<([u8; 32], SettlementRoute)>, route: SettlementRoute)
    requires
        spec_register_route(routes, route) is Ok,
    ensures
        spec_register_route(spec_register_route(routes, route)->Ok_0, route) == Err::<
            Seq<([u8; 32], SettlementRoute)>,
            ErrorView,
        >(ErrorView::Policy("route already exists"@)),
{
    lemma_insert_same(routes, route.route_id.0, route);
}

/// A route accepts a settlement exactly when it is enabled, joins the
/// settlement's source and payout vaults for its asset, the amount lies
/// within the route's range, and the relayer fee is at most the route's fee
/// cap on the amount, in basis points rounded down. Checking fails only
/// where that cap cannot be computed.
pub proof fn lemma_accepts_exactly(
    route: SettlementRoute,
    source_vault: VaultId,
    payout_vault: VaultId,
    asset: AssetId,
    amount: Amount,
    relayer_fee: Amount,
)
    ensures
        spec_accepts(route, source_vault, payout_vault, asset, amount, relayer_fee) == Ok::<bool, ErrorView>(true)
            <==> {
            &&& route.enabled
            &&& route.source_vault == source_vault
            &&& route.payout_vault == payout_vault
            &&& route.asset == asset
            &&& route.min_amount.0 <= amount.0 <= route.max_amount.0
            &&& amount.0 * route.max_relayer_fee_bps.0 <= u128::MAX
            &&& relayer_fee.0 <= (amount.0 * route.max_relayer_fee_bps.0) / 10_000
        },
        spec_accepts(route, source_vault, payout_vault, asset, amount, relayer_fee) is Err ==> {
            &&& route.enabled
            &&& route.source_vault == source_vault
            &&& route.payout_vault == payout_vault
            &&& route.asset == asset
            &&& route.min_amount.0 <= amount.0 <= route.max_amount.0
            &&& amount.0 * route.max_relayer_fee_bps.0 > u128::MAX
        },
{
}

/// Each route is stored under its own identifier.
pub open spec fn routes_keyed(routes: Seq<([u8; 32], SettlementRoute)>) -> bool {
    forall|i: int| 0 <= i < routes.len() ==> (#[trigger] routes[i]).0 == routes[i].1.route_id.0
}

/// Where resolution succeeds, it returns a route of the book that accepts the
/// settlement, every route before it declining; where every route declines,
/// resolution fails for want of a route.
pub proof fn lemma_resolve_first(
    routes: Seq<([u8; 32], SettlementRoute)>,
    source_vault: VaultId,
    payout_vault: VaultId,
    asset: AssetId,
    amount: Amount,
    relayer_fee: Amount,
)
    ensures
        spec_resolve_route(routes, source_vault, payout_vault, asset, amount, relayer_fee) matches Ok(r)
            ==> exists|i: int|
            0 <= i < routes.len() && #[trigger] routes[i].1 == r && spec_accepts(
                r,
                source_vault,
                payout_vault,
                asset,
                amount,
                relayer_fee,
            ) == Ok::<bool, ErrorView>(true) && forall|j: int|
                0 <= j < i ==> spec_accepts(
                    #[trigger] routes[j].1,
                    source_vault,
                    payout_vault,
                    asset,
                    amount,
                    relayer_fee,
                ) == Ok::<bool, ErrorView>(false),
        (forall|j: int|
            0 <= j < routes.len() ==> spec_accepts(
                #[trigger] routes[j].1,
                source_vault,
                payout_vault,
                asset,
                amount,
                relayer_fee,
            ) == Ok::<bool, ErrorView>(false)) ==> spec_resolve_route(
            routes,
            source_vault,
            payout_vault,
            asset,
            amount,
            relayer_fee,
        ) == Err::<SettlementRoute, ErrorView>(ErrorView::Policy("settlement route not available"@)),
    decreases routes.len(),
{
    if routes.len() > 0 {
        let rest = routes.drop_first();
        lemma_resolve_first(rest, source_vault, payout_vault, asset, amount, relayer_fee);
        if let Ok(r) = spec_resolve_route(routes, source_vault, payout_vault, asset, amount, relayer_fee) {
            if spec_accepts(routes[0].1, source_vault, payout_vault, asset, amount, relayer_fee) != Ok::<
                bool,
                ErrorView,
            >(true) {
                let k = choose|k: int|
                    0 <= k < rest.len() && #[trigger] rest[k].1 == r && spec_accepts(
                        r,
                        source_vault,
                        payout_vault,
                        asset,
                        amount,
                        relayer_fee,
                    ) == Ok::<bool, ErrorView>(true) && forall|j: int|
                        0 <= j < k ==> spec_accepts(
                            #[trigger] rest[j].1,
                            source_vault,
                            payout_vault,
                            asset,
                            amount,
                            relayer_fee,
                        ) == Ok::<bool, ErrorView>(false);
                assert(routes[k + 1] == rest[k]);
                assert forall|j: int| 0 <= j < k + 1 implies spec_accepts(
                    #[trigger] routes[j].1,
                    source_vault,
                    payout_vault,
                    asset,
                    amount,
                    relayer_fee,
                ) == Ok::<bool, ErrorView>(false) by {
                    if j > 0 {
                        assert(routes[j] == rest[j - 1]);
                    }
                }
            } else {
                assert(routes[0].1 == r);
            }
        }
        if forall|j: int|
            0 <= j < routes.len() ==> spec_accepts(
                #[trigger] routes[j].1,
                source_vault,
                payout_vault,
                asset,
                amount,
                relayer_fee,
            ) == Ok::<bool, ErrorView>(false) {
            assert(spec_accepts(routes[0].1, source_vault, payout_vault, asset, amount, relayer_fee) == Ok::<
                bool,
                ErrorView,
            >(false));
            assert forall|j: int| 0 <= j < rest.len() implies spec_accepts(
                #[trigger] rest[j].1,
                source_vault,
                payout_vault,
                asset,
                amount,
                relayer_fee,
            ) == Ok::<bool, ErrorView>(false) by {
                assert(rest[j] == routes[j + 1]);
            }
        }
    }
}

/// In a sorted book keyed by route identifier, the route that resolution
/// returns has the smallest identifier of the routes that accept.
proof fn lemma_resolve_smallest(
    routes: Seq<([u8; 32], SettlementRoute)>,
    r: SettlementRoute,
    source_vault: VaultId,
    payout_vault: VaultId,
    asset: AssetId,
    amount: Amount,
    relayer_fee: Amount,
)
    requires
        keys_sorted(routes),
        routes_keyed(routes),
        spec_resolve_route(routes, source_vault, payout_vault, asset, amount, relayer_fee) == Ok::<
            SettlementRoute,
            ErrorView,
        >(r),
    ensures
        forall|j: int|
            0 <= j < routes.len() && key_lt(#[trigger] routes[j].0, r.route_id.0) ==> spec_accepts(
                routes[j].1,
                source_vault,
                payout_vault,
                asset,
                amount,
                relayer_fee,
            ) == Ok::<bool, ErrorView>(false),
{
    lemma_resolve_first(routes, source_vault, payout_vault, asset, amount, relayer_fee);
    let i = choose|i: int|
        0 <= i < routes.len() && #[trigger] routes[i].1 == r && spec_accepts(
            r,
            source_vault,
            payout_vault,
            asset,
            amount,
            relayer_fee,
        ) == Ok::<bool, ErrorView>(true) && forall|j: int|
            0 <= j < i ==> spec_accepts(
                #[trigger] routes[j].1,
                source_vault,
                payout_vault,
                asset,
                amount,
                relayer_fee,
            ) == Ok::<bool, ErrorView>(false);
    assert(routes[i].0 == r.route_id.0);
    assert forall|j: int| 0 <= j < routes.len() && key_lt(#[trigger] routes[j].0, r.route_id.0) implies spec_accepts(
        routes[j].1,
        source_vault,
        payout_vault,
        asset,
        amount,
        relayer_fee,
    ) == Ok::<bool, ErrorView>(false) by {
        lemma_key_order(routes[j].0, routes[i].0, routes[j].0);
        if j > i {
            assert(key_lt(routes[i].0, routes[j].0));
        }
    }
}

impl View for RouteBook {
    type V = Seq<([u8; 32], SettlementRoute)>;

    closed spec fn view(&self) -> Seq<([u8; 32], SettlementRoute)> {
        self.routes@
    }
}

impl Default for RouteBook {
    fn default() -> (r: Self)
        ensures
            r@ == Seq::<([u8; 32], SettlementRoute)>::empty(),
    {
        RouteBook { routes: ByteMap::new() }
    }
}

impl RouteBook {
    pub fn register_route(&mut self, route: SettlementRoute) -> (r: HorizonResult<Digest>)
        ensures
            match spec_register_route(old(self)@, route) {
                Ok(routes) => r == Ok::<Digest, HorizonError>(route.route_id) && final(self)@ == routes,
                Err(e) => result_view(r) == Err::<Digest, ErrorView>(e) && final(self)@ == old(self)@,
            },
    {
        proof {
            use_type_invariant(&*self);
            lemma_insert_entries(self.routes@, route.route_id.0, route);
        }
        if self.routes.contains_key(&route.route_id.0) {
            return Err(policy("route already exists"));
        }
        let mut routes = self.routes.duplicate();
        routes.insert(route.route_id.0, route);
        *self = RouteBook { routes };
        Ok(route.route_id)
    }

    pub fn resolve_route(
        &self,
        source_vault: VaultId,
        payout_vault: VaultId,
        asset: AssetId,
        amount: Amount,
        relayer_fee: Amount,
    ) -> (r: HorizonResult<SettlementRoute>)
        ensures
            result_view(r) == spec_resolve_route(self@, source_vault, payout_vault, asset, amount, relayer_fee),
            keys_sorted(self@),
            routes_keyed(self@),
            r matches Ok(route) ==> exists|i: int|
                0 <= i < self@.len() && #[trigger] self@[i].1 == route && spec_accepts(
                    route,
                    source_vault,
                    payout_vault,
                    asset,
                    amount,
                    relayer_fee,
                ) == Ok::<bool, ErrorView>(true),
            r matches Ok(route) ==> forall|j: int|
                0 <= j < self@.len() && key_lt(#[trigger] self@[j].0, route.route_id.0) ==> spec_accepts(
                    self@[j].1,
                    source_vault,
                    payout_vault,
                    asset,
                    amount,
                    relayer_fee,
                ) == Ok::<bool, ErrorView>(false),
            (forall|j: int|
                0 <= j < self@.len() ==> spec_accepts(
                    #[trigger] self@[j].1,
                    source_vault,
                    payout_vault,
                    asset,
                    amount,
                    relayer_fee,
                ) == Ok::<bool, ErrorView>(false)) ==> result_view(r) == Err::<SettlementRoute, ErrorView>(
                ErrorView::Policy("settlement route not available"@),
            ),
    {
        proof {
            use_type_invariant(self);
            lemma_resolve_first(self@, source_vault, payout_vault, asset, amount, relayer_fee);
        }
        let n = self.routes.len();
        let mut i: usize = 0;
        assert(self@.subrange(0, n as int) =~= self@);
        while i < n
            invariant
                i <= n,
                n == self@.len(),
                keys_sorted(self@),
                routes_keyed(self@),
                spec_resolve_route(self@, source_vault, payout_vault, asset, amount, relayer_fee)
                    == spec_resolve_route(
                    self@.subrange(i as int, n as int),
                    source_vault,
                    payout_vault,
                    asset,
                    amount,
                    relayer_fee,
                ),
            decreases n - i,
        {
            let (_, route) = self.routes.entry_at(i);
            let route = *route;
            let ghost rest = self@.subrange(i as int, n as int);
            assert(rest[0].1 == route);
            assert(rest.drop_first() =~= self@.subrange(i + 1, n as int));
            if route.accepts(source_vault, payout_vault, asset, amount, relayer_fee)? {
                proof {
                    lemma_resolve_smallest(self@, route, source_vault, payout_vault, asset, amount, relayer_fee);
                }
                return Ok(route);
            }
            i = i + 1;
        }
        Err(policy("settlement route not available"))
    }

    pub fn route_count(&self) -> (r: usize)
        ensures
            r == self@.len(),
    {
        self.routes.len()
    }
}

impl Duplicate for RouteBook {
    fn duplicate(&self) -> (r: Self) {
        proof {
            use_type_invariant(self);
        }
        RouteBook { routes: self.routes.duplicate() }
    }
}

impl View for SettlementRoute {
    type V = SettlementRoute;

    open spec fn view(&self) -> SettlementRoute {
        *self
    }
}

impl Duplicate for SettlementRoute {
    fn duplicate(&self) -> (r: Self) {
        *self
    }
}

impl Canonical for SettlementRoute {
    open spec fn json(v: SettlementRoute) -> Seq<u8> {
        lit("{\"route_id\":")
            + Digest::json(v.route_id)
            + lit(",\"source_vault\":")
            + VaultId::json(v.source_vault)
            + lit(",\"payout_vault\":")
            + VaultId::json(v.payout_vault)
            + lit(",\"asset\":")
            + AssetId::json(v.asset)
            + lit(",\"min_amount\":")
            + Amount::json(v.min_amount)
            + lit(",\"max_amount\":")
            + Amount::json(v.max_amount)
            + lit(",\"max_relayer_fee_bps\":")
            + Bps::json(v.max_relayer_fee_bps)
            + lit(",\"finality_delay_epochs\":")
            + u64::json(v.finality_delay_epochs)
            + lit(",\"enabled\":")
            + bool::json(v.enabled)
            + lit("}")
    }

    fn write_json(&self, out: &mut Vec<u8>) {
        let ghost v = self@;
        let ghost mut acc: Seq<u8>;
        write_lit("{\"route_id\":", out);
        proof {
            acc = lit("{\"route_id\":");
        }
        self.route_id.write_json(out);
        proof {
            lemma_concat_associative(old(out)@, acc, Digest::json(v.route_id));
            acc = acc + Digest::json(v.route_id);
        }
        write_lit(",\"source_vault\":", out);
        proof {
            lemma_concat_associative(old(out)@, acc, lit(",\"source_vault\":"));
            acc = acc + lit(",\"source_vault\":");
        }
        self.source_vault.write_json(out);
        proof {
            lemma_concat_associative(old(out)@, acc, VaultId::json(v.source_vault));
            acc = acc + VaultId::json(v.source_vault);
        }
        write_lit(",\"payout_vault\":", out);
        proof {
            lemma_concat_associative(old(out)@, acc, lit(",\"payout_vault\":"));
            acc = acc + lit(",\"payout_vault\":");
        }
        self.payout_vault.write_json(out);
        proof {
            lemma_concat_associative(old(out)@, acc, VaultId::json(v.payout_vault));
            acc = acc + VaultId::json(v.payout_vault);
        }
        write_lit(",\"asset\":", out);
        proof {
            lemma_concat_associative(old(out)@, acc, lit(",\"asset\":"));
            acc = acc + lit(",\"asset\":");
        }
        self.asset.write_json(out);
        proof {
            lemma_concat_associative(old(out)@, acc, AssetId::json(v.asset));
            acc = acc + AssetId::json(v.asset);
        }
        write_lit(",\"min_amount\":", out);
        proof {
            lemma_concat_associative(old(out)@, acc, lit(",\"min_amount\":"));
            acc = acc + lit(",\"min_amount\":");
        }
        self.min_amount.write_json(out);
        proof {
            lemma_concat_associative(old(out)@, acc, Amount::json(v.min_amount));
            acc = acc + Amount::json(v.min_amount);
        }
        write_lit(",\"max_amount\":", out);
        proof {
            lemma_concat_associative(old(out)@, acc, lit(",\"max_amount\":"));
            acc = acc + lit(",\"max_amount\":");
        }
        self.max_amount.write_json(out);
        proof {
            lemma_concat_associative(old(out)@, acc, Amount::json(v.max_amount));
            acc = acc + Amount::json(v.max_amount);
        }
        write_lit(",\"max_relayer_fee_bps\":", out);
        proof {
            lemma_concat_associative(old(out)@, acc, lit(",\"max_relayer_fee_bps\":"));
            acc = acc + lit(",\"max_relayer_fee_bps\":");
        }
        self.max_relayer_fee_bps.write_json(out);
        proof {
            lemma_concat_associative(old(out)@, acc, Bps::json(v.max_relayer_fee_bps));
            acc = acc + Bps::json(v.max_relayer_fee_bps);
        }
        write_lit(",\"finality_delay_epochs\":", out);
        proof {
            lemma_concat_associative(old(out)@, acc, lit(",\"finality_delay_epochs\":"));
            acc = acc + lit(",\"finality_delay_epochs\":");
        }
        self.finality_delay_epochs.write_json(out);
        proof {
            lemma_concat_associative(old(out)@, acc, u64::json(v.finality_delay_epochs));
            acc = acc + u64::json(v.finality_delay_epochs);
        }
        write_lit(",\"enabled\":", out);
        proof {
            lemma_concat_associative(old(out)@, acc, lit(",\"enabled\":"));
            acc = acc + lit(",\"enabled\":");
        }
        self.enabled.write_json(out);
        proof {
            lemma_concat_associative(old(out)@, acc, bool::json(v.enabled));
            acc = acc + bool::json(v.enabled);
        }
        write_lit("}", out);
        proof {
            lemma_concat_associative(old(out)@, acc, lit("}"));
            acc = acc + lit("}");
        }
        assert(acc == Self::json(v));
    }
}

impl Canonical for RouteBook {
    open spec fn json(v: Seq<([u8; 32], SettlementRoute)>) -> Seq<u8> {
        lit("{\"routes\":") + json_map::<SettlementRoute>(v) + lit("}")
    }

    fn write_json(&self, out: &mut Vec<u8>) {
        write_lit("{\"routes\":", out);
        self.routes.write_json(out);
        write_lit("}", out);
        assert(out@ =~= old(out)@ + Self::json(self@));
    }
}

} // verus!
