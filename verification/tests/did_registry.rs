use contracts::did_registry::{DIDRegistryContract, DidError};

#[test]
fn test_did_registry_flow() {
    let mut r = DIDRegistryContract::new();
    let owner = 1;
    let did = [7u8; 32];
    let attrs = vec![("name".to_string(), b"Alice".to_vec())];
    r.register(owner, did, attrs.clone()).unwrap();
    let doc = r.resolve(did).unwrap();
    assert_eq!(doc.owner, owner);
    let new_owner = 2;
    r.rotate_key(owner, did, new_owner).unwrap();
    assert_eq!(r.resolve(did).unwrap().owner, new_owner);
    r.revoke(new_owner, did).unwrap();
    assert!(r.resolve(did).unwrap().revoked);
}

#[test]
fn did_controllers_and_refusals() {
    let mut r = DIDRegistryContract::new();
    let did = [1u8; 32];
    r.register(1, did, vec![]).unwrap();
    assert_eq!(r.register(2, did, vec![]), Err(DidError::AlreadyRegistered));
    assert_eq!(r.update(3, did, vec![]), Err(DidError::NotAuthorized));
    r.add_controller(1, did, 3).unwrap();
    r.add_controller(1, did, 3).unwrap();
    assert_eq!(r.resolve(did).unwrap().controllers, vec![3]);
    r.update(3, did, vec![("k".to_string(), vec![1])]).unwrap();
    assert_eq!(r.resolve(did).unwrap().attributes.len(), 1);
    assert_eq!(r.rotate_key(3, did, 3), Err(DidError::NotAuthorized));
    r.remove_controller(1, did, 3).unwrap();
    assert!(r.resolve(did).unwrap().controllers.is_empty());
    r.revoke(1, did).unwrap();
    assert_eq!(r.update(1, did, vec![]), Err(DidError::Revoked));
    assert_eq!(r.rotate_key(1, did, 4), Err(DidError::Revoked));
    assert_eq!(r.update(1, [9u8; 32], vec![]), Err(DidError::NotFound));
    assert!(r.resolve([9u8; 32]).is_none());
}
