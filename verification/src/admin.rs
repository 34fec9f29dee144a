//! Admin access control: admins with roles and permission lists, default
//! permissions per role, and multi-signature checks that count the signers
//! holding a permission.
use vstd::prelude::*;
use crate::common::Address;

verus! {

/// Admin roles, from most to least powerful.
#[derive(Copy, Clone, Debug, PartialEq, Eq, Structural)]
pub enum AdminRole {
    /// Upgrades, pauses, transfers ownership.
    Owner,
    /// Mints, revokes, updates metadata.
    Admin,
    /// Read-only.
    Operator,
}

#[derive(Copy, Clone, Debug, PartialEq, Eq, Structural)]
pub enum Permission {
    Upgrade,
    Pause,
    Mint,
    Revoke,
    UpdateMetadata,
    GrantRole,
    RevokeRole,
    TransferOwnership,
    EmergencyPause,
    Rollback,
}

/// An admin's role and permissions.
#[derive(Clone, Debug, PartialEq, Eq)]
pub struct AdminPolicy {
    pub role: AdminRole,
    pub address: Address,
    pub permissions: Vec<Permission>,
    pub added_at: u64,
}

/// Storage keys of the admin records, as the host lays them out.
#[derive(Copy, Clone, Debug, PartialEq, Eq, Structural)]
pub enum AdminDataKey {
    AdminPolicies,
    AdminCount,
    OwnerAddress,
}

/// Storage of the admin records.
pub struct AdminStore {
    /// Admin policies in order of addition.
    pub policies: Vec<AdminPolicy>,
    pub owner: Option<Address>,
}

/// The first policy of `a` in `s`, if any.
pub open spec fn first_policy(s: Seq<AdminPolicy>, a: Address) -> Option<AdminPolicy>
    decreases s.len(),
{
    if s.len() == 0 {
        None
    } else if s[0].address == a {
        Some(s[0])
    } else {
        first_policy(s.drop_first(), a)
    }
}

/// Whether a policy belongs to someone other than `a`.
pub open spec fn other_than(a: Address) -> spec_fn(AdminPolicy) -> bool {
    |p: AdminPolicy| p.address != a
}

/// Whether `a`'s first policy grants `p`.
pub open spec fn spec_has_permission(s: Seq<AdminPolicy>, a: Address, p: Permission) -> bool {
    match first_policy(s, a) {
        Some(pol) => pol.permissions@.contains(p),
        None => false,
    }
}

/// The number of elements of `s` that satisfy `f`.
pub open spec fn count_where<A>(s: Seq<A>, f: spec_fn(A) -> bool) -> nat
    decreases s.len(),
{
    if s.len() == 0 { 0 } else { count_where(s.drop_last(), f) + if f(s.last()) { 1nat } else { 0nat } }
}

/// The default permissions of a role.
pub open spec fn default_permissions(role: AdminRole) -> Seq<Permission> {
    match role {
        AdminRole::Owner => seq![
            Permission::Upgrade,
            Permission::Pause,
            Permission::Mint,
            Permission::Revoke,
            Permission::UpdateMetadata,
            Permission::GrantRole,
            Permission::RevokeRole,
            Permission::TransferOwnership,
            Permission::EmergencyPause,
            Permission::Rollback,
        ],
        AdminRole::Admin => seq![Permission::Mint, Permission::Revoke, Permission::UpdateMetadata, Permission::Pause],
        AdminRole::Operator => Seq::empty(),
    }
}

proof fn lemma_first_policy_skip(s: Seq<AdminPolicy>, a: Address, i: int)
    requires
        0 <= i <= s.len(),
        forall|j: int| 0 <= j < i ==> s[j].address != a,
    ensures
        first_policy(s, a) == first_policy(s.subrange(i, s.len() as int), a),
    decreases i,
{
    if i > 0 {
        assert(s.drop_first().subrange(i - 1, s.drop_first().len() as int) =~= s.subrange(i, s.len() as int));
        lemma_first_policy_skip(s.drop_first(), a, i - 1);
    } else {
        assert(s.subrange(0, s.len() as int) =~= s);
    }
}

proof fn lemma_first_policy_none(s: Seq<AdminPolicy>, a: Address)
    requires
        forall|j: int| 0 <= j < s.len() ==> s[j].address != a,
    ensures
        first_policy(s, a) is None,
    decreases s.len(),
{
    if s.len() > 0 {
        lemma_first_policy_none(s.drop_first(), a);
    }
}

proof fn lemma_count_where_step<A>(s: Seq<A>, f: spec_fn(A) -> bool, i: int)
    requires
        0 <= i < s.len(),
    ensures
        count_where(s.take(i + 1), f) == count_where(s.take(i), f) + if f(s[i]) { 1nat } else { 0nat },
{
    assert(s.take(i + 1).drop_last() =~= s.take(i));
}

/// Whether permission `p` is in list `v`.
fn permits(v: &Vec<Permission>, p: Permission) -> (r: bool)
    ensures
        r == v@.contains(p),
{
    let mut i: usize = 0;
    while i < v.len()
        invariant
            0 <= i <= v.len(),
            forall|j: int| 0 <= j < i ==> v@[j] != p,
        decreases v.len() - i,
    {
        if v[i] == p {
            return true;
        }
        i = i + 1;
    }
    false
}

/// A copy of a permission list.
fn copy_permissions(v: &Vec<Permission>) -> (r: Vec<Permission>)
    ensures
        r@ == v@,
{
    let mut out: Vec<Permission> = Vec::new();
    let mut i: usize = 0;
    while i < v.len()
        invariant
            0 <= i <= v.len(),
            out@ == v@.take(i as int),
        decreases v.len() - i,
    {
        out.push(v[i]);
        assert(v@.take(i + 1) =~= v@.take(i as int).push(v@[i as int]));
        i = i + 1;
    }
    assert(v@.take(v.len() as int) =~= v@);
    out
}

impl AdminStore {
    /// Fresh storage without admins or owner.
    pub fn new() -> (s: Self)
        ensures
            s.policies@ == Seq::<AdminPolicy>::empty(),
            s.owner is None,
    {
        AdminStore { policies: Vec::new(), owner: None }
    }
}

/// All admin policies, in order of addition.
pub fn get_admin_policies(store: &AdminStore) -> (r: &Vec<AdminPolicy>)
    ensures
        r@ == store.policies@,
{
    &store.policies
}

/// The policy of `address`: the first one recorded for it.
pub fn get_admin_policy<'a>(store: &'a AdminStore, address: Address) -> (r: Option<&'a AdminPolicy>)
    ensures
        r matches Some(p) ==> first_policy(store.policies@, address) == Some(*p),
        r is None ==> first_policy(store.policies@, address) is None,
{
    let mut i: usize = 0;
    while i < store.policies.len()
        invariant
            0 <= i <= store.policies@.len(),
            forall|j: int| 0 <= j < i ==> store.policies@[j].address != address,
        decreases store.policies.len() - i,
    {
        if store.policies[i].address == address {
            proof {
                lemma_first_policy_skip(store.policies@, address, i as int);
            }
            return Some(&store.policies[i]);
        }
        i = i + 1;
    }
    proof {
        lemma_first_policy_skip(store.policies@, address, i as int);
    }
    None
}

/// Whether `address` has permission `permission`.
pub fn has_permission(store: &AdminStore, address: Address, permission: Permission) -> (r: bool)
    ensures
        r == spec_has_permission(store.policies@, address, permission),
{
    match get_admin_policy(store, address) {
        Some(p) => permits(&p.permissions, permission),
        None => false,
    }
}

/// Whether `address` has role `role`.
pub fn has_role(store: &AdminStore, address: Address, role: AdminRole) -> (r: bool)
    ensures
        r == (match first_policy(store.policies@, address) { Some(p) => p.role == role, None => false }),
{
    match get_admin_policy(store, address) {
        Some(p) => p.role == role,
        None => false,
    }
}

/// Add an admin at time `now`; an address already recorded is left as is.
pub fn add_admin(store: &mut AdminStore, address: Address, role: AdminRole, permissions: Vec<Permission>, now: u64)
    ensures
        final(store).owner == old(store).owner,
        final(store).policies@ == if first_policy(old(store).policies@, address) is Some {
            old(store).policies@
        } else {
            old(store).policies@.push(AdminPolicy { role, address, permissions, added_at: now })
        },
{
    let exists = match get_admin_policy(store, address) {
        Some(_) => true,
        None => false,
    };
    if exists {
        return;
    }
    store.policies.push(AdminPolicy { role, address, permissions, added_at: now });
}

/// Remove every policy of `address`.
pub fn remove_admin(store: &mut AdminStore, address: Address)
    ensures
        final(store).owner == old(store).owner,
        final(store).policies@ == old(store).policies@.filter(other_than(address)),
        first_policy(final(store).policies@, address) is None,
        forall|p: Permission| !spec_has_permission(final(store).policies@, address, p),
{
    let mut old_policies: Vec<AdminPolicy> = Vec::new();
    std::mem::swap(&mut old_policies, &mut store.policies);
    let ghost s = old_policies@;
    let mut kept: Vec<AdminPolicy> = Vec::new();
    let mut rest = old_policies;
    let ghost mut i: int = 0;
    assert(s.skip(0) =~= s);
    assert(s.take(0) =~= Seq::<AdminPolicy>::empty());
    assert(s.take(0).filter(other_than(address)) =~= Seq::<AdminPolicy>::empty()) by {
        reveal(Seq::filter);
    }
    while rest.len() > 0
        invariant
            0 <= i <= s.len(),
            rest@ == s.skip(i),
            kept@ == s.take(i).filter(other_than(address)),
        decreases rest.len(),
    {
        let p = rest.remove(0);
        proof {
            assert(p == s[i]);
            assert(s.take(i + 1).drop_last() =~= s.take(i));
            assert(s.take(i + 1).last() == p);
            assert(rest@ =~= s.skip(i + 1));
        }
        if p.address != address {
            kept.push(p);
            assert(kept@ == s.take(i + 1).filter(other_than(address))) by {
                reveal(Seq::filter);
            }
        } else {
            assert(kept@ == s.take(i + 1).filter(other_than(address))) by {
                reveal(Seq::filter);
            }
        }
        proof {
            i = i + 1;
        }
    }
    proof {
        assert(s.take(s.len() as int) =~= s);
        let t = s.filter(other_than(address));
        assert forall|j: int| 0 <= j < t.len() implies t[j].address != address by {
            s.lemma_filter_pred(other_than(address), j);
        }
        lemma_first_policy_none(t, address);
    }
    store.policies = kept;
}

/// Give every policy of `address` the permission list `new_permissions`.
pub fn update_admin_permissions(store: &mut AdminStore, address: Address, new_permissions: &Vec<Permission>)
    ensures
        final(store).owner == old(store).owner,
        final(store).policies@.len() == old(store).policies@.len(),
        forall|i: int| 0 <= i < old(store).policies@.len() ==> {
            let p = old(store).policies@[i];
            let q = #[trigger] final(store).policies@[i];
            &&& q.role == p.role && q.address == p.address && q.added_at == p.added_at
            &&& q.permissions@ == if p.address == address { new_permissions@ } else { p.permissions@ }
        },
{
    let mut old_policies: Vec<AdminPolicy> = Vec::new();
    std::mem::swap(&mut old_policies, &mut store.policies);
    let ghost s = old_policies@;
    let mut rest = old_policies;
    let mut updated: Vec<AdminPolicy> = Vec::new();
    while rest.len() > 0
        invariant
            updated@.len() <= s.len(),
            rest@ == s.skip(updated@.len() as int),
            forall|i: int| 0 <= i < updated@.len() ==> {
                let p = s[i];
                let q = #[trigger] updated@[i];
                &&& q.role == p.role && q.address == p.address && q.added_at == p.added_at
                &&& q.permissions@ == if p.address == address { new_permissions@ } else { p.permissions@ }
            },
        decreases rest.len(),
    {
        let ghost k = updated@.len();
        let p = rest.remove(0);
        proof {
            assert(p == s[k as int]);
            assert(rest@ =~= s.skip(k as int + 1));
        }
        if p.address == address {
            updated.push(AdminPolicy { permissions: copy_permissions(new_permissions), ..p });
        } else {
            updated.push(p);
        }
    }
    store.policies = updated;
}

/// The contract owner.
pub fn get_owner(store: &AdminStore) -> (r: Option<Address>)
    ensures
        r == store.owner,
{
    store.owner
}

/// Set the contract owner.
pub fn set_owner(store: &mut AdminStore, owner: Address)
    ensures
        final(store).owner == Some(owner),
        final(store).policies == old(store).policies,
{
    store.owner = Some(owner);
}

/// Hand ownership to `new_owner`.
pub fn transfer_ownership(store: &mut AdminStore, new_owner: Address)
    ensures
        final(store).owner == Some(new_owner),
        final(store).policies == old(store).policies,
{
    set_owner(store, new_owner);
}

/// The default permissions of `role`.
pub fn get_default_permissions(role: AdminRole) -> (r: Vec<Permission>)
    ensures
        r@ == default_permissions(role),
{
    let mut permissions: Vec<Permission> = Vec::new();
    match role {
        AdminRole::Owner => {
            permissions.push(Permission::Upgrade);
            permissions.push(Permission::Pause);
            permissions.push(Permission::Mint);
            permissions.push(Permission::Revoke);
            permissions.push(Permission::UpdateMetadata);
            permissions.push(Permission::GrantRole);
            permissions.push(Permission::RevokeRole);
            permissions.push(Permission::TransferOwnership);
            permissions.push(Permission::EmergencyPause);
            permissions.push(Permission::Rollback);
        },
        AdminRole::Admin => {
            permissions.push(Permission::Mint);
            permissions.push(Permission::Revoke);
            permissions.push(Permission::UpdateMetadata);
            permissions.push(Permission::Pause);
        },
        AdminRole::Operator => {},
    }
    assert(permissions@ =~= default_permissions(role));
    permissions
}

/// Whether at least `required_signatures` of `signers` hold
/// `required_permission`; a signer listed twice counts twice.
pub fn validate_multisig(store: &AdminStore, signers: &Vec<Address>, required_signatures: u32, required_permission: Permission) -> (r: bool)
    requires
        signers.len() <= u32::MAX,
    ensures
        r == (count_where(signers@, |a: Address| spec_has_permission(store.policies@, a, required_permission))
            >= required_signatures),
{
    let ghost f = |a: Address| spec_has_permission(store.policies@, a, required_permission);
    let mut valid: u32 = 0;
    let mut i: usize = 0;
    while i < signers.len()
        invariant
            0 <= i <= signers.len() <= u32::MAX,
            valid == count_where(signers@.take(i as int), f),
            valid <= i,
            f == (|a: Address| spec_has_permission(store.policies@, a, required_permission)),
        decreases signers.len() - i,
    {
        proof {
            lemma_count_where_step(signers@, f, i as int);
        }
        if has_permission(store, signers[i], required_permission) {
            valid = valid + 1;
        }
        i = i + 1;
    }
    assert(signers@.take(signers.len() as int) =~= signers@);
    valid >= required_signatures
}

/// The number of admins whose permission list grants `permission`.
pub fn count_admins_with_permission(store: &AdminStore, permission: Permission) -> (r: u32)
    requires
        store.policies.len() <= u32::MAX,
    ensures
        r == count_where(store.policies@, |p: AdminPolicy| p.permissions@.contains(permission)),
{
    let ghost f = |p: AdminPolicy| p.permissions@.contains(permission);
    let mut count: u32 = 0;
    let mut i: usize = 0;
    while i < store.policies.len()
        invariant
            0 <= i <= store.policies.len() <= u32::MAX,
            count == count_where(store.policies@.take(i as int), f),
            count <= i,
            f == (|p: AdminPolicy| p.permissions@.contains(permission)),
        decreases store.policies.len() - i,
    {
        proof {
            lemma_count_where_step(store.policies@, f, i as int);
        }
        if permits(&store.policies[i].permissions, permission) {
            count = count + 1;
        }
        i = i + 1;
    }
    assert(store.policies@.take(store.policies.len() as int) =~= store.policies@);
    count
}

} // verus!
