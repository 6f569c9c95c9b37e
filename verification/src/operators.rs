//! Operator roles and the protocol configuration.
use vstd::prelude::*;
use vstd::seq_lib::lemma_concat_associative;
use vstd::string::StringSliceAdditionalSpecFns;

use crate::bytemap::{
    keys_sorted, lemma_insert, lemma_insert_same, lemma_rebind_same, map_contains, map_get, map_insert, ByteMap,
    Duplicate,
};
use crate::codec::{json_map, lit, write_lit, Canonical};
use crate::error::{policy, ErrorView, HorizonResult, result_view};
use crate::ids::{payload_digest, AccountId, Digest};

verus! {

#[derive(Copy, Clone, Debug, Eq, PartialEq, Structural, Ord, PartialOrd)]
pub enum OperatorRole {
    Issuer,
    Beneficiary,
    Relayer,
    VaultController,
    Oracle,
    Treasury,
}

/// The place of a role in declaration order, which is the order roles are kept in.
pub open spec fn role_rank(role: OperatorRole) -> nat {
    match role {
        OperatorRole::Issuer => 0,
        OperatorRole::Beneficiary => 1,
        OperatorRole::Relayer => 2,
        OperatorRole::VaultController => 3,
        OperatorRole::Oracle => 4,
        OperatorRole::Treasury => 5,
    }
}

fn role_rank_exec(role: OperatorRole) -> (r: u8)
    ensures
        r == role_rank(role),
{
    match role {
        OperatorRole::Issuer => 0,
        OperatorRole::Beneficiary => 1,
        OperatorRole::Relayer => 2,
        OperatorRole::VaultController => 3,
        OperatorRole::Oracle => 4,
        OperatorRole::Treasury => 5,
    }
}

/// The number of leading roles ranked before `role`.
pub open spec fn rank_position(roles: Seq<OperatorRole>, role: OperatorRole) -> nat
    decreases roles.len(),
{
    if roles.len() == 0 {
        0
    } else if role_rank(roles[0]) < role_rank(role) {
        1 + rank_position(roles.drop_first(), role)
    } else {
        0
    }
}

/// A role list with `role` added in rank order, unchanged where `role` is in it.
pub open spec fn insert_role(roles: Seq<OperatorRole>, role: OperatorRole) -> Seq<OperatorRole> {
    if roles.contains(role) {
        roles
    } else {
        roles.insert(rank_position(roles, role) as int, role)
    }
}

proof fn lemma_rank_position(roles: Seq<OperatorRole>, role: OperatorRole, i: int)
    requires
        0 <= i <= roles.len(),
        forall|j: int| 0 <= j < i ==> role_rank(#[trigger] roles[j]) < role_rank(role),
        i < roles.len() ==> role_rank(roles[i]) >= role_rank(role),
    ensures
        rank_position(roles, role) == i,
    decreases i,
{
    if i > 0 {
        assert(role_rank(roles[0]) < role_rank(role));
        assert forall|j: int| 0 <= j < i - 1 implies role_rank(#[trigger] roles.drop_first()[j])
            < role_rank(role) by {
            assert(roles.drop_first()[j] == roles[j + 1]);
        }
        if i < roles.len() {
            assert(roles.drop_first()[i - 1] == roles[i]);
        }
        lemma_rank_position(roles.drop_first(), role, i - 1);
    }
}

proof fn lemma_rank_position_le(roles: Seq<OperatorRole>, role: OperatorRole)
    ensures
        rank_position(roles, role) <= roles.len(),
    decreases roles.len(),
{
    if roles.len() > 0 {
        lemma_rank_position_le(roles.drop_first(), role);
    }
}

#[derive(Copy, Clone, Debug, Eq, PartialEq)]
pub struct ProtocolConfig {
    pub admin: AccountId,
    pub current_epoch: u64,
    pub review_delay_epochs: u64,
    pub config_digest: Digest,
}

impl ProtocolConfig {
    pub fn new(admin: AccountId, current_epoch: u64, review_delay_epochs: u64, salt: Digest) -> (r:
        HorizonResult<Self>)
        ensures
            r matches Ok(c) && c.admin == admin && c.current_epoch == current_epoch
                && c.review_delay_epochs == review_delay_epochs && c.config_digest.0 == payload_digest(
                "horizon-protocol-config-v1".spec_bytes(),
                <(AccountId, u64, u64, Digest)>::json((admin, current_epoch, review_delay_epochs, salt)),
            ),
    {
        let config_digest = Digest::from_serializable(
            "horizon-protocol-config-v1",
            &(admin, current_epoch, review_delay_epochs, salt),
        )?;
        Ok(ProtocolConfig { admin, current_epoch, review_delay_epochs, config_digest })
    }
}

/// What an operator registry holds: the roles of each account in account
/// order, the protocol configuration and whether the protocol is paused.
pub struct OperatorRegistryView {
    pub roles: Seq<([u8; 32], Seq<OperatorRole>)>,
    pub config: Option<ProtocolConfig>,
    pub paused: bool,
}

pub struct OperatorRegistry {
    roles: ByteMap<Vec<OperatorRole>>,
    config: Option<ProtocolConfig>,
    paused: bool,
}

/// The roles held by `account`.
pub open spec fn roles_of(v: OperatorRegistryView, account: AccountId) -> Seq<OperatorRole> {
    match map_get(v.roles, account.0) {
        Some(rs) => rs,
        None => Seq::empty(),
    }
}

/// Whether `account` holds `role`.
pub open spec fn holds_role(v: OperatorRegistryView, account: AccountId, role: OperatorRole) -> bool {
    map_get(v.roles, account.0) matches Some(rs) && rs.contains(role)
}

/// The registry after granting `role` to `account`.
pub open spec fn spec_grant_role(v: OperatorRegistryView, account: AccountId, role: OperatorRole) -> OperatorRegistryView {
    OperatorRegistryView {
        roles: map_insert(v.roles, account.0, insert_role(roles_of(v, account), role)),
        ..v
    }
}

/// The check that `account` holds `role`.
pub open spec fn spec_require_role(v: OperatorRegistryView, account: AccountId, role: OperatorRole) -> Result<
    (),
    ErrorView,
> {
    if holds_role(v, account, role) {
        Ok(())
    } else {
        Err(ErrorView::Policy("operator role is not assigned"@))
    }
}

/// The check that the protocol is not paused.
pub open spec fn spec_ensure_not_paused(v: OperatorRegistryView) -> Result<(), ErrorView> {
    if v.paused {
        Err(ErrorView::Policy("protocol is paused"@))
    } else {
        Ok(())
    }
}

/// Granting a role lets the account pass the check for that role, and keeps
/// every role it held before.
pub proof fn lemma_grant_role_holds(v: OperatorRegistryView, account: AccountId, role: OperatorRole, other: OperatorRole)
    ensures
        spec_require_role(spec_grant_role(v, account, role), account, role) is Ok,
        holds_role(v, account, other) ==> holds_role(spec_grant_role(v, account, role), account, other),
{
    let old_roles = roles_of(v, account);
    let new_roles = insert_role(old_roles, role);
    lemma_insert_same(v.roles, account.0, new_roles);
    if !old_roles.contains(role) {
        let pos = rank_position(old_roles, role) as int;
        lemma_rank_position_le(old_roles, role);
        assert(new_roles[pos] == role);
        if old_roles.contains(other) {
            let j = choose|j: int| 0 <= j < old_roles.len() && old_roles[j] == other;
            if j < pos {
                assert(new_roles[j] == other);
            } else {
                assert(new_roles[j + 1] == other);
            }
        }
    }
}

/// Granting a role: the account then holds it; granting it again changes
/// nothing; the account's other roles and every other account's roles stay
/// as they were; and the number of accounts with roles grows by one exactly
/// when the account held none.
pub proof fn lemma_grant_role_effects(
    v: OperatorRegistryView,
    account: AccountId,
    role: OperatorRole,
    other: AccountId,
    other_role: OperatorRole,
)
    requires
        keys_sorted(v.roles),
    ensures
        holds_role(spec_grant_role(v, account, role), account, role),
        spec_grant_role(spec_grant_role(v, account, role), account, role) == spec_grant_role(v, account, role),
        other_role != role ==> holds_role(spec_grant_role(v, account, role), account, other_role)
            == holds_role(v, account, other_role),
        other != account ==> holds_role(spec_grant_role(v, account, role), other, other_role) == holds_role(
            v,
            other,
            other_role,
        ),
        spec_grant_role(v, account, role).roles.len() == v.roles.len() + (if map_contains(v.roles, account.0) {
            0int
        } else {
            1int
        }),
        keys_sorted(spec_grant_role(v, account, role).roles),
{
    let old_roles = roles_of(v, account);
    let new_roles = insert_role(old_roles, role);
    let g = spec_grant_role(v, account, role);
    lemma_grant_role_holds(v, account, role, other_role);
    lemma_insert(v.roles, account.0, new_roles);
    if other != account {
        assert(other.0 != account.0);
    }
    if !old_roles.contains(role) && old_roles.contains(other_role) == false && other_role != role {
        let pos = rank_position(old_roles, role) as int;
        lemma_rank_position_le(old_roles, role);
        if new_roles.contains(other_role) {
            let j = choose|j: int| 0 <= j < new_roles.len() && new_roles[j] == other_role;
            if j < pos {
                assert(old_roles[j] == other_role);
            } else if j > pos {
                assert(old_roles[j - 1] == other_role);
            }
        }
    }
    // granting again: the list already holds the role, and the map already binds it
    assert(roles_of(g, account) == new_roles);
    assert(new_roles.contains(role));
    lemma_rebind_same(g.roles, account.0, new_roles);
}

impl View for OperatorRegistry {
    type V = OperatorRegistryView;

    closed spec fn view(&self) -> OperatorRegistryView {
        OperatorRegistryView { roles: self.roles@, config: self.config, paused: self.paused }
    }
}

impl Default for OperatorRegistry {
    fn default() -> (r: Self)
        ensures
            r@.roles == Seq::<([u8; 32], Seq<OperatorRole>)>::empty(),
            r@.config is None,
            !r@.paused,
    {
        OperatorRegistry { roles: ByteMap::new(), config: None, paused: false }
    }
}

fn contains_role(roles: &Vec<OperatorRole>, role: OperatorRole) -> (r: bool)
    ensures
        r == roles@.contains(role),
{
    let mut i: usize = 0;
    while i < roles.len()
        invariant
            i <= roles@.len(),
            forall|j: int| 0 <= j < i ==> roles@[j] != role,
        decreases roles@.len() - i,
    {
        if roles[i] == role {
            assert(roles@[i as int] == role);
            return true;
        }
        i = i + 1;
    }
    false
}

impl OperatorRegistry {
    pub fn configure(&mut self, config: ProtocolConfig)
        ensures
            final(self)@ == (OperatorRegistryView { config: Some(config), ..old(self)@ }),
    {
        self.config = Some(config);
    }

    pub fn grant_role(&mut self, account: AccountId, role: OperatorRole)
        ensures
            final(self)@ == spec_grant_role(old(self)@, account, role),
            keys_sorted(final(self)@.roles),
    {
        let mut roles: Vec<OperatorRole> = match self.roles.get(&account.0) {
            Some(rs) => rs.duplicate(),
            None => Vec::new(),
        };
        assert(roles@ == roles_of(old(self)@, account));
        if !contains_role(&roles, role) {
            let rank = role_rank_exec(role);
            let mut pos: usize = 0;
            while pos < roles.len() && role_rank_exec(roles[pos]) < rank
                invariant
                    pos <= roles@.len(),
                    rank == role_rank(role),
                    forall|j: int| 0 <= j < pos ==> role_rank(#[trigger] roles@[j]) < role_rank(role),
                decreases roles@.len() - pos,
            {
                pos = pos + 1;
            }
            proof {
                lemma_rank_position(roles@, role, pos as int);
            }
            roles.insert(pos, role);
        }
        self.roles.insert(account.0, roles);
    }

    pub fn require_role(&self, account: AccountId, role: OperatorRole) -> (r: HorizonResult<()>)
        ensures
            result_view(r) == spec_require_role(self@, account, role),
    {
        if self.has_role(account, role) {
            return Ok(());
        }
        Err(policy("operator role is not assigned"))
    }

    pub fn has_role(&self, account: AccountId, role: OperatorRole) -> (r: bool)
        ensures
            r == holds_role(self@, account, role),
            keys_sorted(self@.roles),
    {
        match self.roles.get(&account.0) {
            Some(rs) => contains_role(rs, role),
            None => false,
        }
    }

    pub fn set_paused(&mut self, paused: bool)
        ensures
            final(self)@ == (OperatorRegistryView { paused, ..old(self)@ }),
    {
        self.paused = paused;
    }

    pub fn ensure_not_paused(&self) -> (r: HorizonResult<()>)
        ensures
            result_view(r) == spec_ensure_not_paused(self@),
    {
        if self.paused {
            return Err(policy("protocol is paused"));
        }
        Ok(())
    }

    pub fn operator_count(&self) -> (r: usize)
        ensures
            r == self@.roles.len(),
            keys_sorted(self@.roles),
    {
        self.roles.len()
    }
}

impl Duplicate for OperatorRegistry {
    fn duplicate(&self) -> (r: Self) {
        OperatorRegistry { roles: self.roles.duplicate(), config: self.config, paused: self.paused }
    }
}

impl Duplicate for Vec<OperatorRole> {
    fn duplicate(&self) -> (r: Self) {
        let mut out: Vec<OperatorRole> = Vec::new();
        let mut i: usize = 0;
        while i < self.len()
            invariant
                i <= self@.len(),
                out@ == self@.subrange(0, i as int),
            decreases self@.len() - i,
        {
            out.push(self[i]);
            i = i + 1;
        }
        assert(out@ =~= self@);
        out
    }
}

impl View for OperatorRole {
    type V = OperatorRole;

    open spec fn view(&self) -> OperatorRole {
        *self
    }
}

impl Canonical for OperatorRole {
    open spec fn json(v: OperatorRole) -> Seq<u8> {
        match v {
            OperatorRole::Issuer => lit("\"issuer\""),
            OperatorRole::Beneficiary => lit("\"beneficiary\""),
            OperatorRole::Relayer => lit("\"relayer\""),
            OperatorRole::VaultController => lit("\"vault_controller\""),
            OperatorRole::Oracle => lit("\"oracle\""),
            OperatorRole::Treasury => lit("\"treasury\""),
        }
    }

    fn write_json(&self, out: &mut Vec<u8>) {
        match self {
            OperatorRole::Issuer => write_lit("\"issuer\"", out),
            OperatorRole::Beneficiary => write_lit("\"beneficiary\"", out),
            OperatorRole::Relayer => write_lit("\"relayer\"", out),
            OperatorRole::VaultController => write_lit("\"vault_controller\"", out),
            OperatorRole::Oracle => write_lit("\"oracle\"", out),
            OperatorRole::Treasury => write_lit("\"treasury\"", out),
        }
    }
}

/// Roles separated by commas.
pub open spec fn json_role_list(roles: Seq<OperatorRole>) -> Seq<u8>
    decreases roles.len(),
{
    if roles.len() == 0 {
        Seq::empty()
    } else if roles.len() == 1 {
        OperatorRole::json(roles[0])
    } else {
        json_role_list(roles.drop_last()) + lit(",") + OperatorRole::json(roles.last())
    }
}

impl Canonical for Vec<OperatorRole> {
    open spec fn json(v: Seq<OperatorRole>) -> Seq<u8> {
        lit("[") + json_role_list(v) + lit("]")
    }

    fn write_json(&self, out: &mut Vec<u8>) {
        write_lit("[", out);
        let ghost start = out@;
        let mut i: usize = 0;
        while i < self.len()
            invariant
                i <= self@.len(),
                out@ == start + json_role_list(self@.subrange(0, i as int)),
            decreases self@.len() - i,
        {
            assert(self@.subrange(0, i + 1).drop_last() =~= self@.subrange(0, i as int));
            if i > 0 {
                write_lit(",", out);
            }
            self[i].write_json(out);
            assert(out@ =~= start + json_role_list(self@.subrange(0, i + 1)));
            i = i + 1;
        }
        assert(self@.subrange(0, i as int) =~= self@);
        write_lit("]", out);
        assert(out@ =~= old(out)@ + Self::json(self@));
    }
}

impl View for ProtocolConfig {
    type V = ProtocolConfig;

    open spec fn view(&self) -> ProtocolConfig {
        *self
    }
}

impl Canonical for ProtocolConfig {
    open spec fn json(v: ProtocolConfig) -> Seq<u8> {
        lit("{\"admin\":")
            + AccountId::json(v.admin)
            + lit(",\"current_epoch\":")
            + u64::json(v.current_epoch)
            + lit(",\"review_delay_epochs\":")
            + u64::json(v.review_delay_epochs)
            + lit(",\"config_digest\":")
            + Digest::json(v.config_digest)
            + lit("}")
    }

    fn write_json(&self, out: &mut Vec<u8>) {
        let ghost v = self@;
        let ghost mut acc: Seq<u8>;
        write_lit("{\"admin\":", out);
        proof {
            acc = lit("{\"admin\":");
        }
        self.admin.write_json(out);
        proof {
            lemma_concat_associative(old(out)@, acc, AccountId::json(v.admin));
            acc = acc + AccountId::json(v.admin);
        }
        write_lit(",\"current_epoch\":", out);
        proof {
            lemma_concat_associative(old(out)@, acc, lit(",\"current_epoch\":"));
            acc = acc + lit(",\"current_epoch\":");
        }
        self.current_epoch.write_json(out);
        proof {
            lemma_concat_associative(old(out)@, acc, u64::json(v.current_epoch));
            acc = acc + u64::json(v.current_epoch);
        }
        write_lit(",\"review_delay_epochs\":", out);
        proof {
            lemma_concat_associative(old(out)@, acc, lit(",\"review_delay_epochs\":"));
            acc = acc + lit(",\"review_delay_epochs\":");
        }
        self.review_delay_epochs.write_json(out);
        proof {
            lemma_concat_associative(old(out)@, acc, u64::json(v.review_delay_epochs));
            acc = acc + u64::json(v.review_delay_epochs);
        }
        write_lit(",\"config_digest\":", out);
        proof {
            lemma_concat_associative(old(out)@, acc, lit(",\"config_digest\":"));
            acc = acc + lit(",\"config_digest\":");
        }
        self.config_digest.write_json(out);
        proof {
            lemma_concat_associative(old(out)@, acc, Digest::json(v.config_digest));
            acc = acc + Digest::json(v.config_digest);
        }
        write_lit("}", out);
        proof {
            lemma_concat_associative(old(out)@, acc, lit("}"));
            acc = acc + lit("}");
        }
        assert(acc == Self::json(v));
    }
}

/// An optional configuration: `null` where none is set.
pub open spec fn json_config(v: Option<ProtocolConfig>) -> Seq<u8> {
    match v {
        Some(c) => ProtocolConfig::json(c),
        None => lit("null"),
    }
}

impl Canonical for OperatorRegistry {
    open spec fn json(v: OperatorRegistryView) -> Seq<u8> {
        lit("{\"roles\":") + json_map::<Vec<OperatorRole>>(v.roles) + lit(",\"config\":") + json_config(
            v.config,
        ) + lit(",\"paused\":") + bool::json(v.paused) + lit("}")
    }

    fn write_json(&self, out: &mut Vec<u8>) {
        write_lit("{\"roles\":", out);
        self.roles.write_json(out);
        write_lit(",\"config\":", out);
        match self.config {
            Some(c) => c.write_json(out),
            None => write_lit("null", out),
        }
        write_lit(",\"paused\":", out);
        self.paused.write_json(out);
        write_lit("}", out);
        assert(out@ =~= old(out)@ + Self::json(self@));
    }
}

} // verus!
