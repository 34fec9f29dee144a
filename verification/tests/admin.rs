use contracts::admin::{
    add_admin, count_admins_with_permission, get_admin_policy, get_default_permissions, get_owner, has_permission,
    has_role, remove_admin, transfer_ownership, update_admin_permissions, validate_multisig, AdminRole, AdminStore,
    Permission,
};

#[test]
fn admin_default_permissions() {
    assert_eq!(get_default_permissions(AdminRole::Owner).len(), 10);
    assert_eq!(
        get_default_permissions(AdminRole::Admin),
        vec![Permission::Mint, Permission::Revoke, Permission::UpdateMetadata, Permission::Pause]
    );
    assert!(get_default_permissions(AdminRole::Operator).is_empty());
}

#[test]
fn admin_add_update_remove() {
    let mut s = AdminStore::new();
    add_admin(&mut s, 1, AdminRole::Admin, get_default_permissions(AdminRole::Admin), 100);
    add_admin(&mut s, 1, AdminRole::Owner, get_default_permissions(AdminRole::Owner), 200);
    add_admin(&mut s, 2, AdminRole::Operator, vec![], 300);
    assert_eq!(s.policies.len(), 2);
    assert_eq!(get_admin_policy(&s, 1).unwrap().added_at, 100);
    assert!(has_role(&s, 1, AdminRole::Admin));
    assert!(!has_role(&s, 1, AdminRole::Owner));
    assert!(has_permission(&s, 1, Permission::Mint));
    assert!(!has_permission(&s, 1, Permission::Upgrade));
    assert!(!has_permission(&s, 2, Permission::Mint));
    assert_eq!(count_admins_with_permission(&s, Permission::Mint), 1);
    update_admin_permissions(&mut s, 2, &vec![Permission::Mint]);
    assert!(has_permission(&s, 2, Permission::Mint));
    assert_eq!(count_admins_with_permission(&s, Permission::Mint), 2);
    remove_admin(&mut s, 1);
    assert!(get_admin_policy(&s, 1).is_none());
    assert_eq!(s.policies.len(), 1);
}

#[test]
fn admin_multisig_counts_permitted_signers() {
    let mut s = AdminStore::new();
    add_admin(&mut s, 1, AdminRole::Owner, get_default_permissions(AdminRole::Owner), 0);
    add_admin(&mut s, 2, AdminRole::Admin, get_default_permissions(AdminRole::Admin), 0);
    add_admin(&mut s, 3, AdminRole::Operator, vec![], 0);
    assert!(validate_multisig(&s, &vec![1, 2, 3], 2, Permission::Mint));
    assert!(!validate_multisig(&s, &vec![1, 2, 3], 2, Permission::Upgrade));
    assert!(validate_multisig(&s, &vec![], 0, Permission::Upgrade));
}

#[test]
fn admin_ownership() {
    let mut s = AdminStore::new();
    assert_eq!(get_owner(&s), None);
    transfer_ownership(&mut s, 9);
    assert_eq!(get_owner(&s), Some(9));
}
