//! Role-based access control with a role hierarchy, per-role permission
//! lists, delegation of single permissions with a depth limit, and
//! time-limited permission grants. Time is measured in ledger numbers.
use std::collections::HashMap;
use vstd::prelude::*;
use crate::common::{Address, pair_key, spec_pair_key};

verus! {

broadcast use vstd::std_specs::hash::group_hash_axioms;

/// Role hierarchy levels (higher number = more permissions).
#[derive(Copy, Clone, Debug, PartialEq, Eq, Structural)]
pub enum RoleLevel {
    Student,
    Verifier,
    Instructor,
    Auditor,
    Admin,
    SuperAdmin,
}

/// Granular permissions.
#[derive(Copy, Clone, Debug, PartialEq, Eq, Structural)]
pub enum Permission {
    MintCertificate,
    RevokeCertificate,
    BatchMint,
    UpdateMetadata,
    VerifyCertificate,
    AccreditVerifier,
    UpdateVerifierRating,
    GrantRole,
    RevokeRole,
    DelegatePermission,
    PauseContract,
    UpgradeContract,
    EmergencyStop,
    ProposeAction,
    ApproveAction,
    ExecuteAction,
    ViewAuditLogs,
    ExportData,
    SystemMetrics,
}

/// Numeric level of a role.
pub open spec fn spec_level(r: RoleLevel) -> u32 {
    match r {
        RoleLevel::Student => 0,
        RoleLevel::Verifier => 1,
        RoleLevel::Instructor => 2,
        RoleLevel::Auditor => 3,
        RoleLevel::Admin => 4,
        RoleLevel::SuperAdmin => 5,
    }
}

#[verifier::when_used_as_spec(spec_level)]
fn level(r: RoleLevel) -> (n: u32)
    ensures
        n == spec_level(r),
{
    match r {
        RoleLevel::Student => 0,
        RoleLevel::Verifier => 1,
        RoleLevel::Instructor => 2,
        RoleLevel::Auditor => 3,
        RoleLevel::Admin => 4,
        RoleLevel::SuperAdmin => 5,
    }
}

/// Position of a permission in the list of permissions; used in storage keys.
pub open spec fn spec_perm_index(p: Permission) -> u64 {
    match p {
        Permission::MintCertificate => 0,
        Permission::RevokeCertificate => 1,
        Permission::BatchMint => 2,
        Permission::UpdateMetadata => 3,
        Permission::VerifyCertificate => 4,
        Permission::AccreditVerifier => 5,
        Permission::UpdateVerifierRating => 6,
        Permission::GrantRole => 7,
        Permission::RevokeRole => 8,
        Permission::DelegatePermission => 9,
        Permission::PauseContract => 10,
        Permission::UpgradeContract => 11,
        Permission::EmergencyStop => 12,
        Permission::ProposeAction => 13,
        Permission::ApproveAction => 14,
        Permission::ExecuteAction => 15,
        Permission::ViewAuditLogs => 16,
        Permission::ExportData => 17,
        Permission::SystemMetrics => 18,
    }
}

#[verifier::when_used_as_spec(spec_perm_index)]
fn perm_index(p: Permission) -> (n: u64)
    ensures
        n == spec_perm_index(p),
{
    match p {
        Permission::MintCertificate => 0,
        Permission::RevokeCertificate => 1,
        Permission::BatchMint => 2,
        Permission::UpdateMetadata => 3,
        Permission::VerifyCertificate => 4,
        Permission::AccreditVerifier => 5,
        Permission::UpdateVerifierRating => 6,
        Permission::GrantRole => 7,
        Permission::RevokeRole => 8,
        Permission::DelegatePermission => 9,
        Permission::PauseContract => 10,
        Permission::UpgradeContract => 11,
        Permission::EmergencyStop => 12,
        Permission::ProposeAction => 13,
        Permission::ApproveAction => 14,
        Permission::ExecuteAction => 15,
        Permission::ViewAuditLogs => 16,
        Permission::ExportData => 17,
        Permission::SystemMetrics => 18,
    }
}

/// Storage key of the record of `permission` held by `user`.
pub open spec fn perm_key(user: Address, permission: Permission) -> u128 {
    spec_pair_key(user, spec_perm_index(permission))
}

/// Role definition with permissions and constraints.
#[derive(Debug)]
pub struct Role {
    pub level: RoleLevel,
    pub permissions: Vec<Permission>,
    pub can_delegate: bool,
    pub max_delegation_depth: u32,
    pub description: String,
}

/// Permission delegation record.
#[derive(Copy, Clone, Debug, PartialEq, Eq, Structural)]
pub struct Delegation {
    pub delegator: Address,
    pub delegatee: Address,
    pub permission: Permission,
    /// Ledger number after which the delegation lapses.
    pub expires_at: u64,
    pub depth: u32,
    pub active: bool,
}

/// Time-based permission grant.
#[derive(Copy, Clone, Debug, PartialEq, Eq, Structural)]
pub struct TemporaryPermission {
    pub user: Address,
    pub permission: Permission,
    pub granted_at: u64,
    pub expires_at: u64,
    pub granted_by: Address,
}

/// Attribute-based access condition attached to a role assignment.
#[derive(Debug)]
pub enum AccessCondition {
    RequireMultiSig(u32),
    RequireTimeDelay(u64),
    RequireVerifierRating(u32),
    RequireCourseCompletion(String),
    RequireStakeAmount(i128),
}

/// Two conditions hold the same values.
pub open spec fn same_condition(a: AccessCondition, b: AccessCondition) -> bool {
    match (a, b) {
        (AccessCondition::RequireMultiSig(x), AccessCondition::RequireMultiSig(y)) => x == y,
        (AccessCondition::RequireTimeDelay(x), AccessCondition::RequireTimeDelay(y)) => x == y,
        (AccessCondition::RequireVerifierRating(x), AccessCondition::RequireVerifierRating(y)) => x == y,
        (AccessCondition::RequireCourseCompletion(x), AccessCondition::RequireCourseCompletion(y)) => x@ == y@,
        (AccessCondition::RequireStakeAmount(x), AccessCondition::RequireStakeAmount(y)) => x == y,
        _ => false,
    }
}

fn clone_condition(c: &AccessCondition) -> (r: AccessCondition)
    ensures
        same_condition(*c, r),
{
    match c {
        AccessCondition::RequireMultiSig(x) => AccessCondition::RequireMultiSig(*x),
        AccessCondition::RequireTimeDelay(x) => AccessCondition::RequireTimeDelay(*x),
        AccessCondition::RequireVerifierRating(x) => AccessCondition::RequireVerifierRating(*x),
        AccessCondition::RequireCourseCompletion(x) => AccessCondition::RequireCourseCompletion(x.clone()),
        AccessCondition::RequireStakeAmount(x) => AccessCondition::RequireStakeAmount(*x),
    }
}

/// User role assignment with conditions.
#[derive(Debug)]
pub struct UserRole {
    pub user: Address,
    pub role: RoleLevel,
    pub granted_at: u64,
    pub granted_by: Address,
    pub expires_at: Option<u64>,
    pub conditions: Vec<AccessCondition>,
    pub active: bool,
}

/// Two role assignments hold the same values.
pub open spec fn same_user_role(a: UserRole, b: UserRole) -> bool {
    &&& a.user == b.user
    &&& a.role == b.role
    &&& a.granted_at == b.granted_at
    &&& a.granted_by == b.granted_by
    &&& a.expires_at == b.expires_at
    &&& a.active == b.active
    &&& a.conditions@.len() == b.conditions@.len()
    &&& forall|i: int| 0 <= i < a.conditions@.len() ==> same_condition(a.conditions@[i], b.conditions@[i])
}

fn clone_user_role(u: &UserRole) -> (r: UserRole)
    ensures
        same_user_role(*u, r),
{
    let mut conditions: Vec<AccessCondition> = Vec::new();
    let mut i: usize = 0;
    while i < u.conditions.len()
        invariant
            0 <= i <= u.conditions.len(),
            conditions@.len() == i,
            forall|j: int| 0 <= j < i ==> same_condition(u.conditions@[j], conditions@[j]),
        decreases u.conditions.len() - i,
    {
        conditions.push(clone_condition(&u.conditions[i]));
        i = i + 1;
    }
    UserRole {
        user: u.user,
        role: u.role,
        granted_at: u.granted_at,
        granted_by: u.granted_by,
        expires_at: u.expires_at,
        conditions,
        active: u.active,
    }
}

/// Reasons for which the access-control contract refuses a call.
#[derive(Copy, Clone, Debug, PartialEq, Eq, Structural)]
pub enum RbacError {
    AlreadyInitialized,
    CannotGrantEqualOrHigher,
    CannotRevokeEqualOrHigher,
    DelegationNotAllowed,
    MaxDelegationDepthExceeded,
    InsufficientPermissions,
    RoleExpired,
    RoleInactive,
    RoleDefinitionNotFound,
    OnlySuperAdmin,
}

/// The permissions each role starts with.
pub open spec fn default_permissions(l: RoleLevel) -> Seq<Permission> {
    match l {
        RoleLevel::Student => seq![],
        RoleLevel::Verifier => seq![Permission::VerifyCertificate, Permission::ViewAuditLogs],
        RoleLevel::Instructor => seq![Permission::MintCertificate, Permission::UpdateMetadata,
            Permission::VerifyCertificate, Permission::ViewAuditLogs],
        RoleLevel::Auditor => seq![Permission::ViewAuditLogs, Permission::ExportData, Permission::SystemMetrics,
            Permission::VerifyCertificate],
        RoleLevel::Admin => seq![Permission::MintCertificate, Permission::RevokeCertificate, Permission::BatchMint,
            Permission::UpdateMetadata, Permission::VerifyCertificate, Permission::AccreditVerifier,
            Permission::UpdateVerifierRating, Permission::GrantRole, Permission::RevokeRole,
            Permission::DelegatePermission, Permission::PauseContract, Permission::ProposeAction,
            Permission::ApproveAction, Permission::ViewAuditLogs, Permission::ExportData, Permission::SystemMetrics],
        RoleLevel::SuperAdmin => seq![Permission::MintCertificate, Permission::RevokeCertificate, Permission::BatchMint,
            Permission::UpdateMetadata, Permission::VerifyCertificate, Permission::AccreditVerifier,
            Permission::UpdateVerifierRating, Permission::GrantRole, Permission::RevokeRole,
            Permission::DelegatePermission, Permission::PauseContract, Permission::UpgradeContract,
            Permission::EmergencyStop, Permission::ProposeAction, Permission::ApproveAction, Permission::ExecuteAction,
            Permission::ViewAuditLogs, Permission::ExportData, Permission::SystemMetrics],
    }
}

/// Whether each role may delegate, and how deep.
pub open spec fn default_delegation(l: RoleLevel) -> (bool, u32) {
    match l {
        RoleLevel::Student => (false, 0),
        RoleLevel::Verifier => (false, 0),
        RoleLevel::Instructor => (true, 1),
        RoleLevel::Auditor => (false, 0),
        RoleLevel::Admin => (true, 2),
        RoleLevel::SuperAdmin => (true, 3),
    }
}

/// Label of each role.
pub open spec fn default_description(l: RoleLevel) -> Seq<char> {
    match l {
        RoleLevel::Student => "STUDENT"@,
        RoleLevel::Verifier => "VERIFIER"@,
        RoleLevel::Instructor => "INSTRCTR"@,
        RoleLevel::Auditor => "AUDITOR"@,
        RoleLevel::Admin => "ADMIN"@,
        RoleLevel::SuperAdmin => "SUPADMIN"@,
    }
}

/// `r` is the default definition of role `l`.
pub open spec fn is_default_role(l: RoleLevel, r: Role) -> bool {
    &&& r.level == l
    &&& r.permissions@ == default_permissions(l)
    &&& (r.can_delegate, r.max_delegation_depth) == default_delegation(l)
    &&& r.description@ == default_description(l)
}

/// `m` holds exactly the default definitions of the six roles.
pub open spec fn is_default_role_map(m: Map<u32, Role>) -> bool {
    &&& m.dom() == Set::new(|k: u32| k <= 5)
    &&& forall|l: RoleLevel| is_default_role(l, #[trigger] m[spec_level(l)])
}

fn vec_of(items: &[Permission]) -> (r: Vec<Permission>)
    ensures
        r@ == items@,
{
    let mut v: Vec<Permission> = Vec::new();
    let mut i: usize = 0;
    while i < items.len()
        invariant
            0 <= i <= items.len(),
            v@ == items@.take(i as int),
        decreases items.len() - i,
    {
        v.push(items[i]);
        assert(items@.take(i + 1) =~= items@.take(i as int).push(items@[i as int]));
        i = i + 1;
    }
    assert(items@.take(items.len() as int) =~= items@);
    v
}

fn perms_contain(v: &Vec<Permission>, p: Permission) -> (r: bool)
    ensures
        r == v@.contains(p),
{
    let mut i: usize = 0;
    while i < v.len()
        invariant
            0 <= i <= v.len(),
            forall|j: int| 0 <= j < i ==> v@[j] != p,
        decreases v.len() - i,
    {
        if v[i] == p {
            return true;
        }
        i = i + 1;
    }
    false
}

/// Storage of the access-control contract.
pub struct RBACContract {
    pub initialized: bool,
    /// Role definitions keyed by level.
    pub role_definitions: HashMap<u32, Role>,
    pub user_roles: HashMap<Address, UserRole>,
    /// Delegations keyed by `perm_key(delegatee, permission)`.
    pub delegations: HashMap<u128, Delegation>,
    /// Keys of the delegations each user made.
    pub user_delegations: HashMap<Address, Vec<u128>>,
    /// Temporary grants keyed by `perm_key(user, permission)`.
    pub temporary_permissions: HashMap<u128, TemporaryPermission>,
    /// Keys of the temporary grants each user holds.
    pub user_temporary_permissions: HashMap<Address, Vec<u128>>,
}

impl RBACContract {
    /// The role `user` holds at `ledger`: Student when nothing is recorded.
    pub open spec fn spec_user_role(&self, user: Address, ledger: u64) -> Result<RoleLevel, RbacError> {
        if !self.user_roles@.contains_key(user) {
            Ok(RoleLevel::Student)
        } else {
            let ur = self.user_roles@[user];
            if ur.expires_at matches Some(e) && ledger > e {
                Err(RbacError::RoleExpired)
            } else if !ur.active {
                Err(RbacError::RoleInactive)
            } else {
                Ok(ur.role)
            }
        }
    }

    /// Whether `user`'s role lists `permission` at `ledger`.
    pub open spec fn spec_role_permission(&self, user: Address, permission: Permission, ledger: u64) -> Result<bool, RbacError> {
        match self.spec_user_role(user, ledger) {
            Err(e) => Err(e),
            Ok(l) => if !self.role_definitions@.contains_key(spec_level(l)) {
                Err(RbacError::RoleDefinitionNotFound)
            } else {
                Ok(self.role_definitions@[spec_level(l)].permissions@.contains(permission))
            },
        }
    }

    /// `user` holds `permission` by a live delegation.
    pub open spec fn spec_delegated(&self, user: Address, permission: Permission, ledger: u64) -> bool {
        let k = perm_key(user, permission);
        self.delegations@.contains_key(k) && self.delegations@[k].active && ledger <= self.delegations@[k].expires_at
    }

    /// `user` holds `permission` by an unexpired temporary grant.
    pub open spec fn spec_temporary(&self, user: Address, permission: Permission, ledger: u64) -> bool {
        let k = perm_key(user, permission);
        self.temporary_permissions@.contains_key(k) && ledger <= self.temporary_permissions@[k].expires_at
    }

    /// Whether `user` holds `permission` at `ledger`, by role, delegation or
    /// temporary grant.
    pub open spec fn spec_has_permission(&self, user: Address, permission: Permission, ledger: u64) -> Result<bool, RbacError> {
        match self.spec_role_permission(user, permission, ledger) {
            Err(e) => Err(e),
            Ok(true) => Ok(true),
            Ok(false) => Ok(self.spec_delegated(user, permission, ledger) || self.spec_temporary(user, permission, ledger)),
        }
    }

    /// `spec_has_permission` read as a demand: an error, or a refusal.
    pub open spec fn spec_require(&self, user: Address, permission: Permission, ledger: u64) -> Result<(), RbacError> {
        match self.spec_has_permission(user, permission, ledger) {
            Err(e) => Err(e),
            Ok(true) => Ok(()),
            Ok(false) => Err(RbacError::InsufficientPermissions),
        }
    }

    pub open spec fn delegation_keys(&self, user: Address) -> Seq<u128> {
        if self.user_delegations@.contains_key(user) { self.user_delegations@[user]@ } else { Seq::empty() }
    }

    pub open spec fn temp_keys(&self, user: Address) -> Seq<u128> {
        if self.user_temporary_permissions@.contains_key(user) {
            self.user_temporary_permissions@[user]@
        } else {
            Seq::empty()
        }
    }

    /// Fresh, uninitialised storage.
    pub fn new() -> (c: Self)
        ensures
            !c.initialized,
            c.role_definitions@ == Map::<u32, Role>::empty(),
            c.user_roles@ == Map::<Address, UserRole>::empty(),
            c.delegations@ == Map::<u128, Delegation>::empty(),
            c.user_delegations@ == Map::<Address, Vec<u128>>::empty(),
            c.temporary_permissions@ == Map::<u128, TemporaryPermission>::empty(),
            c.user_temporary_permissions@ == Map::<Address, Vec<u128>>::empty(),
    {
        RBACContract {
            initialized: false,
            role_definitions: HashMap::new(),
            user_roles: HashMap::new(),
            delegations: HashMap::new(),
            user_delegations: HashMap::new(),
            temporary_permissions: HashMap::new(),
            user_temporary_permissions: HashMap::new(),
        }
    }

    /// The six default role definitions, keyed by level.
    pub fn get_default_roles() -> (m: HashMap<u32, Role>)
        ensures
            is_default_role_map(m@),
    {
        let mut roles: HashMap<u32, Role> = HashMap::new();
        roles.insert(0, Role {
            level: RoleLevel::Student,
            permissions: Vec::new(),
            can_delegate: false,
            max_delegation_depth: 0,
            description: "STUDENT".to_owned(),
        });
        roles.insert(1, Role {
            level: RoleLevel::Verifier,
            permissions: vec_of(&[Permission::VerifyCertificate, Permission::ViewAuditLogs]),
            can_delegate: false,
            max_delegation_depth: 0,
            description: "VERIFIER".to_owned(),
        });
        roles.insert(2, Role {
            level: RoleLevel::Instructor,
            permissions: vec_of(&[Permission::MintCertificate, Permission::UpdateMetadata,
                Permission::VerifyCertificate, Permission::ViewAuditLogs]),
            can_delegate: true,
            max_delegation_depth: 1,
            description: "INSTRCTR".to_owned(),
        });
        roles.insert(3, Role {
            level: RoleLevel::Auditor,
            permissions: vec_of(&[Permission::ViewAuditLogs, Permission::ExportData, Permission::SystemMetrics,
                Permission::VerifyCertificate]),
            can_delegate: false,
            max_delegation_depth: 0,
            description: "AUDITOR".to_owned(),
        });
        roles.insert(4, Role {
            level: RoleLevel::Admin,
            permissions: vec_of(&[Permission::MintCertificate, Permission::RevokeCertificate, Permission::BatchMint,
                Permission::UpdateMetadata, Permission::VerifyCertificate, Permission::AccreditVerifier,
                Permission::UpdateVerifierRating, Permission::GrantRole, Permission::RevokeRole,
                Permission::DelegatePermission, Permission::PauseContract, Permission::ProposeAction,
                Permission::ApproveAction, Permission::ViewAuditLogs, Permission::ExportData,
                Permission::SystemMetrics]),
            can_delegate: true,
            max_delegation_depth: 2,
            description: "ADMIN".to_owned(),
        });
        roles.insert(5, Role {
            level: RoleLevel::SuperAdmin,
            permissions: vec_of(&[Permission::MintCertificate, Permission::RevokeCertificate, Permission::BatchMint,
                Permission::UpdateMetadata, Permission::VerifyCertificate, Permission::AccreditVerifier,
                Permission::UpdateVerifierRating, Permission::GrantRole, Permission::RevokeRole,
                Permission::DelegatePermission, Permission::PauseContract, Permission::UpgradeContract,
                Permission::EmergencyStop, Permission::ProposeAction, Permission::ApproveAction,
                Permission::ExecuteAction, Permission::ViewAuditLogs, Permission::ExportData,
                Permission::SystemMetrics]),
            can_delegate: true,
            max_delegation_depth: 3,
            description: "SUPADMIN".to_owned(),
        });
        proof {
            assert(roles@.dom() =~= Set::new(|k: u32| k <= 5));
            assert(roles@[0].permissions@ =~= default_permissions(RoleLevel::Student));
            assert forall|l: RoleLevel| is_default_role(l, #[trigger] roles@[spec_level(l)]) by {
                match l {
                    RoleLevel::Student => {},
                    RoleLevel::Verifier => {},
                    RoleLevel::Instructor => {},
                    RoleLevel::Auditor => {},
                    RoleLevel::Admin => {},
                    RoleLevel::SuperAdmin => {},
                }
            }
        }
        roles
    }

    /// Initialise with the default roles and make `super_admin` the first
    /// SuperAdmin, at ledger `ledger`.
    pub fn init_rbac(&mut self, super_admin: Address, ledger: u64) -> (r: Result<(), RbacError>)
        ensures
            r == (if old(self).initialized { Err::<(), RbacError>(RbacError::AlreadyInitialized) } else { Ok(()) }),
            r is Err ==> *final(self) == *old(self),
            r is Ok ==> {
                &&& final(self).initialized
                &&& is_default_role_map(final(self).role_definitions@)
                &&& final(self).user_roles@.dom() == old(self).user_roles@.dom().insert(super_admin)
                &&& forall|u: Address| u != super_admin && #[trigger] old(self).user_roles@.contains_key(u)
                    ==> final(self).user_roles@[u] == old(self).user_roles@[u]
                &&& ({
                    let ur = final(self).user_roles@[super_admin];
                    &&& ur.user == super_admin && ur.role == RoleLevel::SuperAdmin && ur.granted_at == ledger
                    &&& ur.granted_by == super_admin && ur.expires_at is None && ur.conditions@.len() == 0 && ur.active
                })
                &&& final(self).delegations@ == old(self).delegations@
                &&& final(self).user_delegations@ == old(self).user_delegations@
                &&& final(self).temporary_permissions@ == old(self).temporary_permissions@
                &&& final(self).user_temporary_permissions@ == old(self).user_temporary_permissions@
            },
    {
        if self.initialized {
            return Err(RbacError::AlreadyInitialized);
        }
        self.role_definitions = Self::get_default_roles();
        self.user_roles.insert(super_admin, UserRole {
            user: super_admin,
            role: RoleLevel::SuperAdmin,
            granted_at: ledger,
            granted_by: super_admin,
            expires_at: None,
            conditions: Vec::new(),
            active: true,
        });
        self.initialized = true;
        Ok(())
    }

    /// Every access condition is currently satisfied by construction.
    fn check_access_condition(&self, user: Address, condition: &AccessCondition) -> (r: bool)
        ensures
            r,
    {
        match condition {
            AccessCondition::RequireMultiSig(_) => true,
            AccessCondition::RequireTimeDelay(_) => true,
            AccessCondition::RequireVerifierRating(_) => true,
            AccessCondition::RequireCourseCompletion(_) => true,
            AccessCondition::RequireStakeAmount(_) => true,
        }
    }

    fn user_level(&self, user: Address, ledger: u64) -> (r: Result<RoleLevel, RbacError>)
        ensures
            r == self.spec_user_role(user, ledger),
    {
        match self.user_roles.get(&user) {
            None => Ok(RoleLevel::Student),
            Some(ur) => {
                match ur.expires_at {
                    Some(e) => {
                        if ledger > e {
                            return Err(RbacError::RoleExpired);
                        }
                    },
                    None => {},
                }
                if !ur.active {
                    return Err(RbacError::RoleInactive);
                }
                Ok(ur.role)
            },
        }
    }

    /// The current role assignment of `user` at `ledger`; a Student role
    /// when nothing is recorded.
    pub fn get_user_role(&self, user: Address, ledger: u64) -> (r: Result<UserRole, RbacError>)
        ensures
            r is Err ==> r == Err::<UserRole, RbacError>(self.spec_user_role(user, ledger)->Err_0),
            r is Ok <==> self.spec_user_role(user, ledger) is Ok,
            r matches Ok(ur) ==> ur.role == self.spec_user_role(user, ledger)->Ok_0 && if self.user_roles@.contains_key(user) {
                same_user_role(self.user_roles@[user], ur)
            } else {
                ur.user == user && ur.granted_at == 0 && ur.granted_by == user && ur.expires_at is None
                    && ur.conditions@.len() == 0 && ur.active
            },
    {
        match self.user_level(user, ledger) {
            Err(e) => Err(e),
            Ok(_) => match self.user_roles.get(&user) {
                Some(ur) => Ok(clone_user_role(ur)),
                None => Ok(UserRole {
                    user,
                    role: RoleLevel::Student,
                    granted_at: 0,
                    granted_by: user,
                    expires_at: None,
                    conditions: Vec::new(),
                    active: true,
                }),
            },
        }
    }

    fn has_role_permission(&self, user: Address, permission: Permission, ledger: u64) -> (r: Result<bool, RbacError>)
        ensures
            r == self.spec_role_permission(user, permission, ledger),
    {
        let l = self.user_level(user, ledger)?;
        let def = match self.role_definitions.get(&level(l)) {
            Some(d) => d,
            None => return Err(RbacError::RoleDefinitionNotFound),
        };
        match self.user_roles.get(&user) {
            Some(ur) => {
                let mut i: usize = 0;
                while i < ur.conditions.len()
                    invariant
                        0 <= i <= ur.conditions.len(),
                    decreases ur.conditions.len() - i,
                {
                    if !self.check_access_condition(user, &ur.conditions[i]) {
                        return Ok(false);
                    }
                    i = i + 1;
                }
            },
            None => {},
        }
        Ok(perms_contain(&def.permissions, permission))
    }

    fn has_delegated_permission(&self, user: Address, permission: Permission, ledger: u64) -> (r: bool)
        ensures
            r == self.spec_delegated(user, permission, ledger),
    {
        let k = pair_key(user, perm_index(permission));
        match self.delegations.get(&k) {
            Some(d) => d.active && ledger <= d.expires_at,
            None => false,
        }
    }

    fn has_temporary_permission(&self, user: Address, permission: Permission, ledger: u64) -> (r: bool)
        ensures
            r == self.spec_temporary(user, permission, ledger),
    {
        let k = pair_key(user, perm_index(permission));
        match self.temporary_permissions.get(&k) {
            Some(t) => ledger <= t.expires_at,
            None => false,
        }
    }

    /// Whether `user` holds `permission` at `ledger`.
    pub fn has_permission(&self, user: Address, permission: Permission, ledger: u64) -> (r: Result<bool, RbacError>)
        ensures
            r == self.spec_has_permission(user, permission, ledger),
    {
        if self.has_role_permission(user, permission, ledger)? {
            return Ok(true);
        }
        if self.has_delegated_permission(user, permission, ledger) {
            return Ok(true);
        }
        if self.has_temporary_permission(user, permission, ledger) {
            return Ok(true);
        }
        Ok(false)
    }

    /// Refuses unless `user` holds `permission` at `ledger`.
    pub fn require_permission(&self, user: Address, permission: Permission, ledger: u64) -> (r: Result<(), RbacError>)
        ensures
            r == self.spec_require(user, permission, ledger),
    {
        if !self.has_permission(user, permission, ledger)? {
            return Err(RbacError::InsufficientPermissions);
        }
        Ok(())
    }

    /// The definition of role `l`.
    pub fn get_role_definition(&self, l: RoleLevel) -> (r: Result<Role, RbacError>)
        ensures
            r is Err <==> !self.role_definitions@.contains_key(spec_level(l)),
            r is Err ==> r == Err::<Role, RbacError>(RbacError::RoleDefinitionNotFound),
            r matches Ok(d) ==> {
                let o = self.role_definitions@[spec_level(l)];
                &&& d.level == o.level && d.permissions@ == o.permissions@ && d.can_delegate == o.can_delegate
                &&& d.max_delegation_depth == o.max_delegation_depth && d.description@ == o.description@
            },
    {
        match self.role_definitions.get(&level(l)) {
            Some(d) => {
                let mut perms: Vec<Permission> = Vec::new();
                let mut i: usize = 0;
                while i < d.permissions.len()
                    invariant
                        0 <= i <= d.permissions.len(),
                        perms@ == d.permissions@.take(i as int),
                    decreases d.permissions.len() - i,
                {
                    perms.push(d.permissions[i]);
                    assert(d.permissions@.take(i + 1) =~= d.permissions@.take(i as int).push(d.permissions@[i as int]));
                    i = i + 1;
                }
                assert(d.permissions@.take(d.permissions.len() as int) =~= d.permissions@);
                Ok(Role {
                    level: d.level,
                    permissions: perms,
                    can_delegate: d.can_delegate,
                    max_delegation_depth: d.max_delegation_depth,
                    description: d.description.clone(),
                })
            },
            None => Err(RbacError::RoleDefinitionNotFound),
        }
    }

    /// Grant `role` to `user`, by `granter`, at ledger `ledger`.
    pub fn grant_role(
        &mut self,
        granter: Address,
        user: Address,
        role: RoleLevel,
        expires_at: Option<u64>,
        conditions: Vec<AccessCondition>,
        ledger: u64,
    ) -> (r: Result<(), RbacError>)
        ensures
            r == (match old(self).spec_require(granter, Permission::GrantRole, ledger) {
                Err(e) => Err(e),
                Ok(_) => match old(self).spec_user_role(granter, ledger) {
                    Err(e) => Err(e),
                    Ok(gl) => if spec_level(gl) <= spec_level(role) {
                        Err(RbacError::CannotGrantEqualOrHigher)
                    } else {
                        Ok(())
                    },
                },
            }),
            r is Err ==> *final(self) == *old(self),
            r is Ok ==> {
                &&& *final(self) == (RBACContract { user_roles: final(self).user_roles, ..*old(self) })
                &&& final(self).user_roles@ == old(self).user_roles@.insert(user, UserRole {
                    user, role, granted_at: ledger, granted_by: granter, expires_at, conditions, active: true })
            },
    {
        self.require_permission(granter, Permission::GrantRole, ledger)?;
        let gl = self.user_level(granter, ledger)?;
        if level(gl) <= level(role) {
            return Err(RbacError::CannotGrantEqualOrHigher);
        }
        self.user_roles.insert(user, UserRole {
            user,
            role,
            granted_at: ledger,
            granted_by: granter,
            expires_at,
            conditions,
            active: true,
        });
        Ok(())
    }

    /// Deactivate every delegation `user` made.
    fn revoke_all_delegations_by_user(&mut self, user: Address)
        ensures
            *final(self) == (RBACContract { delegations: final(self).delegations, ..*old(self) }),
            final(self).delegations@.dom() == old(self).delegations@.dom(),
            forall|k: u128| #[trigger] final(self).delegations@.contains_key(k) ==> final(self).delegations@[k] == if old(
                self,
            ).delegation_keys(user).contains(k) {
                Delegation { active: false, ..old(self).delegations@[k] }
            } else {
                old(self).delegations@[k]
            },
    {
        let keys: Vec<u128> = match self.user_delegations.get(&user) {
            Some(v) => {
                let mut c: Vec<u128> = Vec::new();
                let mut i: usize = 0;
                while i < v.len()
                    invariant
                        0 <= i <= v.len(),
                        c@ == v@.take(i as int),
                    decreases v.len() - i,
                {
                    c.push(v[i]);
                    assert(v@.take(i + 1) =~= v@.take(i as int).push(v@[i as int]));
                    i = i + 1;
                }
                assert(v@.take(v.len() as int) =~= v@);
                c
            },
            None => Vec::new(),
        };
        assert(keys@ == old(self).delegation_keys(user));
        let mut i: usize = 0;
        while i < keys.len()
            invariant
                0 <= i <= keys.len(),
                keys@ == old(self).delegation_keys(user),
                *self == (RBACContract { delegations: self.delegations, ..*old(self) }),
                self.delegations@.dom() == old(self).delegations@.dom(),
                forall|k: u128| #[trigger] self.delegations@.contains_key(k) ==> self.delegations@[k] == if keys@.take(
                    i as int,
                ).contains(k) {
                    Delegation { active: false, ..old(self).delegations@[k] }
                } else {
                    old(self).delegations@[k]
                },
            decreases keys.len() - i,
        {
            let k = keys[i];
            let d = match self.delegations.get(&k) {
                Some(d) => Some(*d),
                None => None,
            };
            match d {
                Some(d) => {
                    self.delegations.insert(k, Delegation { active: false, ..d });
                },
                None => {},
            }
            proof {
                assert forall|k2: u128| #[trigger] self.delegations@.contains_key(k2) implies self.delegations@[k2]
                    == if keys@.take(i + 1).contains(k2) {
                    Delegation { active: false, ..old(self).delegations@[k2] }
                } else {
                    old(self).delegations@[k2]
                } by {
                    assert(keys@.take(i + 1) =~= keys@.take(i as int).push(k));
                    if k2 != k {
                        assert(keys@.take(i + 1).contains(k2) == keys@.take(i as int).contains(k2));
                    } else {
                        assert(keys@.take(i + 1)[i as int] == k);
                    }
                }
            }
            i = i + 1;
        }
        assert(keys@.take(keys.len() as int) =~= keys@);
    }

    /// Revoke `user`'s role, by `revoker`, at ledger `ledger`; also
    /// deactivates every delegation `user` made.
    pub fn revoke_role(&mut self, revoker: Address, user: Address, ledger: u64) -> (r: Result<(), RbacError>)
        ensures
            r == (match old(self).spec_require(revoker, Permission::RevokeRole, ledger) {
                Err(e) => Err(e),
                Ok(_) => match old(self).spec_user_role(user, ledger) {
                    Err(e) => Err(e),
                    Ok(ul) => match old(self).spec_user_role(revoker, ledger) {
                        Err(e) => Err(e),
                        Ok(rl) => if spec_level(rl) <= spec_level(ul) {
                            Err(RbacError::CannotRevokeEqualOrHigher)
                        } else {
                            Ok(())
                        },
                    },
                },
            }),
            r is Err ==> *final(self) == *old(self),
            r is Ok ==> {
                &&& final(self).user_roles@.dom() == old(self).user_roles@.dom().insert(user)
                &&& forall|u: Address| u != user && #[trigger] old(self).user_roles@.contains_key(u)
                    ==> final(self).user_roles@[u] == old(self).user_roles@[u]
                &&& !final(self).user_roles@[user].active
                &&& final(self).user_roles@[user].role == old(self).spec_user_role(user, ledger)->Ok_0
                &&& final(self).delegations@.dom() == old(self).delegations@.dom()
                &&& forall|k: u128| #[trigger] final(self).delegations@.contains_key(k) ==> final(self).delegations@[k]
                    == if old(self).delegation_keys(user).contains(k) {
                    Delegation { active: false, ..old(self).delegations@[k] }
                } else {
                    old(self).delegations@[k]
                }
                &&& final(self).initialized == old(self).initialized
                &&& final(self).role_definitions@ == old(self).role_definitions@
                &&& final(self).user_delegations@ == old(self).user_delegations@
                &&& final(self).temporary_permissions@ == old(self).temporary_permissions@
                &&& final(self).user_temporary_permissions@ == old(self).user_temporary_permissions@
            },
    {
        self.require_permission(revoker, Permission::RevokeRole, ledger)?;
        let mut ur = self.get_user_role(user, ledger)?;
        let rl = self.user_level(revoker, ledger)?;
        if level(rl) <= level(ur.role) {
            return Err(RbacError::CannotRevokeEqualOrHigher);
        }
        ur.active = false;
        self.user_roles.insert(user, ur);
        self.revoke_all_delegations_by_user(user);
        Ok(())
    }

    /// Depth of the delegation through which `user` holds `permission`; 0 if none.
    pub open spec fn spec_depth(&self, user: Address, permission: Permission) -> u32 {
        let k = perm_key(user, permission);
        if self.delegations@.contains_key(k) { self.delegations@[k].depth } else { 0 }
    }

    /// Delegate `permission` from `delegator` to `delegatee` until ledger `expires_at`.
    pub fn delegate_permission(
        &mut self,
        delegator: Address,
        delegatee: Address,
        permission: Permission,
        expires_at: u64,
        ledger: u64,
    ) -> (r: Result<(), RbacError>)
        requires
            old(self).spec_depth(delegator, permission) < u32::MAX,
            old(self).delegation_keys(delegator).len() < usize::MAX,
        ensures
            r == (match old(self).spec_require(delegator, permission, ledger) {
                Err(e) => Err(e),
                Ok(_) => match old(self).spec_require(delegator, Permission::DelegatePermission, ledger) {
                    Err(e) => Err(e),
                    Ok(_) => match old(self).spec_user_role(delegator, ledger) {
                        Err(e) => Err(e),
                        Ok(l) => if !old(self).role_definitions@.contains_key(spec_level(l)) {
                            Err(RbacError::RoleDefinitionNotFound)
                        } else if !old(self).role_definitions@[spec_level(l)].can_delegate {
                            Err(RbacError::DelegationNotAllowed)
                        } else if old(self).spec_depth(delegator, permission) + 1
                            > old(self).role_definitions@[spec_level(l)].max_delegation_depth {
                            Err(RbacError::MaxDelegationDepthExceeded)
                        } else {
                            Ok(())
                        },
                    },
                },
            }),
            r is Err ==> *final(self) == *old(self),
            r is Ok ==> {
                &&& *final(self) == (RBACContract {
                    delegations: final(self).delegations,
                    user_delegations: final(self).user_delegations,
                    ..*old(self)
                })
                &&& final(self).delegations@ == old(self).delegations@.insert(perm_key(delegatee, permission), Delegation {
                    delegator,
                    delegatee,
                    permission,
                    expires_at,
                    depth: (old(self).spec_depth(delegator, permission) + 1) as u32,
                    active: true,
                })
                &&& final(self).delegation_keys(delegator) == old(self).delegation_keys(delegator).push(
                    perm_key(delegatee, permission))
                &&& forall|u: Address| u != delegator ==> #[trigger] final(self).delegation_keys(u)
                    == old(self).delegation_keys(u)
            },
    {
        self.require_permission(delegator, permission, ledger)?;
        self.require_permission(delegator, Permission::DelegatePermission, ledger)?;
        let l = self.user_level(delegator, ledger)?;
        let (can_delegate, max_depth) = match self.role_definitions.get(&level(l)) {
            Some(d) => (d.can_delegate, d.max_delegation_depth),
            None => return Err(RbacError::RoleDefinitionNotFound),
        };
        if !can_delegate {
            return Err(RbacError::DelegationNotAllowed);
        }
        let own_key = pair_key(delegator, perm_index(permission));
        let current_depth = match self.delegations.get(&own_key) {
            Some(d) => d.depth,
            None => 0,
        };
        let depth = current_depth + 1;
        if depth > max_depth {
            return Err(RbacError::MaxDelegationDepthExceeded);
        }
        let key = pair_key(delegatee, perm_index(permission));
        self.delegations.insert(key, Delegation {
            delegator,
            delegatee,
            permission,
            expires_at,
            depth,
            active: true,
        });
        let mut list = match self.user_delegations.remove(&delegator) {
            Some(v) => v,
            None => Vec::new(),
        };
        list.push(key);
        self.user_delegations.insert(delegator, list);
        proof {
            assert forall|u: Address| u != delegator implies #[trigger] self.delegation_keys(u)
                == old(self).delegation_keys(u) by {}
        }
        Ok(())
    }

    /// Grant `permission` to `user` for `duration_ledgers` ledgers from `ledger`.
    pub fn grant_temporary_permission(
        &mut self,
        granter: Address,
        user: Address,
        permission: Permission,
        duration_ledgers: u64,
        ledger: u64,
    ) -> (r: Result<(), RbacError>)
        requires
            ledger + duration_ledgers <= u64::MAX,
            old(self).temp_keys(user).len() < usize::MAX,
        ensures
            r == (match old(self).spec_require(granter, permission, ledger) {
                Err(e) => Err(e),
                Ok(_) => old(self).spec_require(granter, Permission::GrantRole, ledger),
            }),
            r is Err ==> *final(self) == *old(self),
            r is Ok ==> {
                &&& *final(self) == (RBACContract {
                    temporary_permissions: final(self).temporary_permissions,
                    user_temporary_permissions: final(self).user_temporary_permissions,
                    ..*old(self)
                })
                &&& final(self).temporary_permissions@ == old(self).temporary_permissions@.insert(
                    perm_key(user, permission),
                    TemporaryPermission {
                        user,
                        permission,
                        granted_at: ledger,
                        expires_at: (ledger + duration_ledgers) as u64,
                        granted_by: granter,
                    },
                )
                &&& final(self).temp_keys(user) == old(self).temp_keys(user).push(perm_key(user, permission))
                &&& forall|u: Address| u != user ==> #[trigger] final(self).temp_keys(u) == old(self).temp_keys(u)
            },
    {
        self.require_permission(granter, permission, ledger)?;
        self.require_permission(granter, Permission::GrantRole, ledger)?;
        let expires_at = ledger + duration_ledgers;
        let key = pair_key(user, perm_index(permission));
        self.temporary_permissions.insert(key, TemporaryPermission {
            user,
            permission,
            granted_at: ledger,
            expires_at,
            granted_by: granter,
        });
        let mut list = match self.user_temporary_permissions.remove(&user) {
            Some(v) => v,
            None => Vec::new(),
        };
        list.push(key);
        self.user_temporary_permissions.insert(user, list);
        proof {
            assert forall|u: Address| u != user implies #[trigger] self.temp_keys(u) == old(self).temp_keys(u) by {}
        }
        Ok(())
    }

    /// Replace the permission list of `role` (SuperAdmin only).
    pub fn update_role_permissions(
        &mut self,
        admin: Address,
        role: RoleLevel,
        permissions: Vec<Permission>,
        ledger: u64,
    ) -> (r: Result<(), RbacError>)
        ensures
            r == (match old(self).spec_user_role(admin, ledger) {
                Err(e) => Err(e),
                Ok(l) => if l != RoleLevel::SuperAdmin {
                    Err(RbacError::OnlySuperAdmin)
                } else if !old(self).role_definitions@.contains_key(spec_level(role)) {
                    Err(RbacError::RoleDefinitionNotFound)
                } else {
                    Ok(())
                },
            }),
            r is Err ==> *final(self) == *old(self),
            r is Ok ==> {
                let d = final(self).role_definitions@[spec_level(role)];
                let o = old(self).role_definitions@[spec_level(role)];
                &&& *final(self) == (RBACContract { role_definitions: final(self).role_definitions, ..*old(self) })
                &&& final(self).role_definitions@.dom() == old(self).role_definitions@.dom()
                &&& forall|k: u32| k != spec_level(role) && #[trigger] old(self).role_definitions@.contains_key(k)
                    ==> final(self).role_definitions@[k] == old(self).role_definitions@[k]
                &&& d.permissions@ == permissions@ && d.level == o.level && d.can_delegate == o.can_delegate
                &&& d.max_delegation_depth == o.max_delegation_depth && d.description@ == o.description@
            },
    {
        let l = self.user_level(admin, ledger)?;
        if l != RoleLevel::SuperAdmin {
            return Err(RbacError::OnlySuperAdmin);
        }
        if !self.role_definitions.contains_key(&level(role)) {
            return Err(RbacError::RoleDefinitionNotFound);
        }
        let mut def = self.role_definitions.remove(&level(role)).unwrap();
        def.permissions = permissions;
        self.role_definitions.insert(level(role), def);
        proof {
            assert(self.role_definitions@.dom() =~= old(self).role_definitions@.dom());
        }
        Ok(())
    }

    /// Drop the delegations and temporary grants of `user` that no longer
    /// hold at `ledger`.
    pub fn cleanup_expired(&mut self, user: Address, ledger: u64)
        ensures
            final(self).delegation_keys(user) == old(self).delegation_keys(user).filter(
                |k: u128| old(self).delegations@.contains_key(k) && old(self).delegations@[k].expires_at > ledger
                    && old(self).delegations@[k].active),
            forall|k: u128| #[trigger] final(self).delegations@.contains_key(k) <==> old(self).delegations@.contains_key(k)
                && !(old(self).delegation_keys(user).contains(k) && !(old(self).delegations@[k].expires_at > ledger
                && old(self).delegations@[k].active)),
            forall|k: u128| #[trigger] final(self).delegations@.contains_key(k) ==> final(self).delegations@[k]
                == old(self).delegations@[k],
            final(self).temp_keys(user) == old(self).temp_keys(user).filter(
                |k: u128| old(self).temporary_permissions@.contains_key(k)
                    && old(self).temporary_permissions@[k].expires_at > ledger),
            forall|k: u128| #[trigger] final(self).temporary_permissions@.contains_key(k)
                <==> old(self).temporary_permissions@.contains_key(k) && !(old(self).temp_keys(user).contains(k)
                && !(old(self).temporary_permissions@[k].expires_at > ledger)),
            forall|k: u128| #[trigger] final(self).temporary_permissions@.contains_key(k)
                ==> final(self).temporary_permissions@[k] == old(self).temporary_permissions@[k],
            forall|u: Address| u != user ==> #[trigger] final(self).delegation_keys(u) == old(self).delegation_keys(u),
            forall|u: Address| u != user ==> #[trigger] final(self).temp_keys(u) == old(self).temp_keys(u),
            final(self).initialized == old(self).initialized,
            final(self).role_definitions@ == old(self).role_definitions@,
            final(self).user_roles@ == old(self).user_roles@,
    {
        let ghost od = old(self).delegations@;
        let ghost dkeys = old(self).delegation_keys(user);
        let ghost dpred = |k: u128| od.contains_key(k) && od[k].expires_at > ledger && od[k].active;
        let list = match self.user_delegations.remove(&user) {
            Some(v) => v,
            None => Vec::new(),
        };
        let mut kept: Vec<u128> = Vec::new();
        let mut i: usize = 0;
        while i < list.len()
            invariant
                0 <= i <= list.len(),
                list@ == dkeys,
                dpred == (|k: u128| od.contains_key(k) && od[k].expires_at > ledger && od[k].active),
                kept@ == dkeys.take(i as int).filter(dpred),
                forall|k: u128| #[trigger] self.delegations@.contains_key(k) <==> od.contains_key(k) && !(
                    dkeys.take(i as int).contains(k) && !dpred(k)),
                forall|k: u128| #[trigger] self.delegations@.contains_key(k) ==> self.delegations@[k] == od[k],
                self.initialized == old(self).initialized,
                self.role_definitions@ == old(self).role_definitions@,
                self.user_roles@ == old(self).user_roles@,
                self.temporary_permissions@ == old(self).temporary_permissions@,
                self.user_temporary_permissions@ == old(self).user_temporary_permissions@,
                self.user_delegations@ == old(self).user_delegations@.remove(user),
            decreases list.len() - i,
        {
            let k = list[i];
            reveal_with_fuel(Seq::<_>::filter, 1);
            assert(dkeys.take(i + 1).drop_last() =~= dkeys.take(i as int));
            assert(dkeys.take(i + 1) =~= dkeys.take(i as int).push(k));
            let keep = match self.delegations.get(&k) {
                Some(d) => d.expires_at > ledger && d.active,
                None => false,
            };
            if self.delegations.contains_key(&k) {
                if keep {
                    kept.push(k);
                } else {
                    self.delegations.remove(&k);
                }
            }
            proof {
                if dkeys.take(i as int).contains(k) {
                    // A key seen again: its record was already settled.
                }
                assert forall|k2: u128| #[trigger] self.delegations@.contains_key(k2) <==> od.contains_key(k2) && !(
                    dkeys.take(i + 1).contains(k2) && !dpred(k2)) by {
                    if k2 == k {
                        assert(dkeys.take(i + 1)[i as int] == k);
                    } else {
                        assert(dkeys.take(i + 1).contains(k2) == dkeys.take(i as int).contains(k2));
                    }
                }
            }
            i = i + 1;
        }
        assert(dkeys.take(list.len() as int) =~= dkeys);
        self.user_delegations.insert(user, kept);

        let ghost ot = old(self).temporary_permissions@;
        let ghost tkeys = old(self).temp_keys(user);
        let ghost tpred = |k: u128| ot.contains_key(k) && ot[k].expires_at > ledger;
        let tlist = match self.user_temporary_permissions.remove(&user) {
            Some(v) => v,
            None => Vec::new(),
        };
        let mut tkept: Vec<u128> = Vec::new();
        let mut j: usize = 0;
        while j < tlist.len()
            invariant
                0 <= j <= tlist.len(),
                tlist@ == tkeys,
                tpred == (|k: u128| ot.contains_key(k) && ot[k].expires_at > ledger),
                tkept@ == tkeys.take(j as int).filter(tpred),
                forall|k: u128| #[trigger] self.temporary_permissions@.contains_key(k) <==> ot.contains_key(k) && !(
                    tkeys.take(j as int).contains(k) && !tpred(k)),
                forall|k: u128| #[trigger] self.temporary_permissions@.contains_key(k) ==> self.temporary_permissions@[k]
                    == ot[k],
                forall|k: u128| #[trigger] self.delegations@.contains_key(k) <==> od.contains_key(k) && !(
                    dkeys.contains(k) && !dpred(k)),
                forall|k: u128| #[trigger] self.delegations@.contains_key(k) ==> self.delegations@[k] == od[k],
                self.initialized == old(self).initialized,
                self.role_definitions@ == old(self).role_definitions@,
                self.user_roles@ == old(self).user_roles@,
                self.user_delegations@ == old(self).user_delegations@.insert(user, kept),
                kept@ == dkeys.filter(dpred),
                self.user_temporary_permissions@ == old(self).user_temporary_permissions@.remove(user),
            decreases tlist.len() - j,
        {
            let k = tlist[j];
            reveal_with_fuel(Seq::<_>::filter, 1);
            assert(tkeys.take(j + 1).drop_last() =~= tkeys.take(j as int));
            assert(tkeys.take(j + 1) =~= tkeys.take(j as int).push(k));
            let keep = match self.temporary_permissions.get(&k) {
                Some(t) => t.expires_at > ledger,
                None => false,
            };
            if self.temporary_permissions.contains_key(&k) {
                if keep {
                    tkept.push(k);
                } else {
                    self.temporary_permissions.remove(&k);
                }
            }
            proof {
                assert forall|k2: u128| #[trigger] self.temporary_permissions@.contains_key(k2) <==> ot.contains_key(k2)
                    && !(tkeys.take(j + 1).contains(k2) && !tpred(k2)) by {
                    if k2 == k {
                        assert(tkeys.take(j + 1)[j as int] == k);
                    } else {
                        assert(tkeys.take(j + 1).contains(k2) == tkeys.take(j as int).contains(k2));
                    }
                }
            }
            j = j + 1;
        }
        assert(tkeys.take(tlist.len() as int) =~= tkeys);
        self.user_temporary_permissions.insert(user, tkept);
        proof {
            assert forall|u: Address| u != user implies #[trigger] self.delegation_keys(u) == old(self).delegation_keys(u) by {}
            assert forall|u: Address| u != user implies #[trigger] self.temp_keys(u) == old(self).temp_keys(u) by {}
        }
    }
}

/// What `has_permission` answers, read off the storage: an error when the
/// user's role cannot be read; otherwise yes exactly when the role lists the
/// permission, an active delegation of it has not lapsed, or a temporary
/// grant of it has not expired.
pub proof fn lemma_permission_sources(c: RBACContract, user: Address, permission: Permission, ledger: u64)
    ensures
        c.spec_role_permission(user, permission, ledger) matches Err(e)
            ==> c.spec_has_permission(user, permission, ledger) == Err::<bool, RbacError>(e),
        c.spec_role_permission(user, permission, ledger) is Ok ==> {
            let k = perm_key(user, permission);
            let by_role = c.spec_role_permission(user, permission, ledger) == Ok::<bool, RbacError>(true);
            let by_delegation = c.delegations@.contains_key(k) && c.delegations@[k].active
                && ledger <= c.delegations@[k].expires_at;
            let by_grant = c.temporary_permissions@.contains_key(k) && ledger <= c.temporary_permissions@[k].expires_at;
            c.spec_has_permission(user, permission, ledger) == Ok::<bool, RbacError>(by_role || by_delegation || by_grant)
        },
{
}

/// A temporary grant confers its permission: after `permission` is granted
/// to `user` at `ledger` for `duration` ledgers, the user holds it at every
/// ledger up to `ledger + duration`, whatever the role, as long as the role
/// itself can be read.
pub proof fn lemma_temporary_grant_confers(
    before: RBACContract,
    after: RBACContract,
    granter: Address,
    user: Address,
    permission: Permission,
    duration: u64,
    ledger: u64,
    at: u64,
)
    requires
        ledger + duration <= u64::MAX,
        after == (RBACContract {
            temporary_permissions: after.temporary_permissions,
            user_temporary_permissions: after.user_temporary_permissions,
            ..before
        }),
        after.temporary_permissions@ == before.temporary_permissions@.insert(
            perm_key(user, permission),
            TemporaryPermission {
                user,
                permission,
                granted_at: ledger,
                expires_at: (ledger + duration) as u64,
                granted_by: granter,
            },
        ),
        ledger <= at <= ledger + duration,
        before.spec_role_permission(user, permission, at) is Ok,
    ensures
        after.spec_has_permission(user, permission, at) == Ok::<bool, RbacError>(true),
{
    assert(after.spec_role_permission(user, permission, at) == before.spec_role_permission(user, permission, at));
    lemma_permission_sources(after, user, permission, at);
}

} // verus!
