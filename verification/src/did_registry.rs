//! Registry of decentralized identifiers: the registrant owns a DID
//! document; the owner and the controllers it names update its attributes;
//! only the owner rotates the owning key, revokes the DID or manages the
//! controllers. A revoked DID takes no more updates or rotations.
use vstd::prelude::*;
use crate::bytes_map::BytesMap;
use crate::common::{Address, contains_address};

verus! {

/// A DID document; `attributes` are name/value pairs.
#[derive(Debug)]
pub struct DIDDocument {
    pub owner: Address,
    pub attributes: Vec<(String, Vec<u8>)>,
    pub controllers: Vec<Address>,
    pub revoked: bool,
}

/// Why a registry call is refused.
#[derive(Copy, Clone, Debug, PartialEq, Eq, Structural)]
pub enum DidError {
    AlreadyRegistered,
    NotFound,
    Revoked,
    NotAuthorized,
}

/// The position of the first `a` in `v`.
fn position(v: &Vec<Address>, a: Address) -> (r: Option<usize>)
    ensures
        r matches Some(i) ==> i < v@.len() && v@[i as int] == a && forall|j: int| 0 <= j < i ==> v@[j] != a,
        r is None ==> !v@.contains(a),
{
    let mut i: usize = 0;
    while i < v.len()
        invariant
            0 <= i <= v.len(),
            forall|j: int| 0 <= j < i ==> v@[j] != a,
        decreases v.len() - i,
    {
        if v[i] == a {
            return Some(i);
        }
        i = i + 1;
    }
    None
}

/// Storage of the registry.
pub struct DIDRegistryContract {
    /// Documents by the 32-byte DID.
    pub dids: BytesMap<DIDDocument>,
}

impl DIDRegistryContract {
    pub open spec fn wf(&self) -> bool {
        self.dids.wf()
    }

    pub open spec fn doc(&self, did: Seq<u8>) -> DIDDocument {
        self.dids.view()[did]
    }

    /// Why an owner-only change of `did` by `sender` is refused, if it is;
    /// `live` asks that the DID not be revoked.
    pub open spec fn owner_refusal(&self, did: Seq<u8>, sender: Address, live: bool) -> Option<DidError> {
        if !self.dids.view().contains_key(did) {
            Some(DidError::NotFound)
        } else if live && self.doc(did).revoked {
            Some(DidError::Revoked)
        } else if self.doc(did).owner != sender {
            Some(DidError::NotAuthorized)
        } else {
            None
        }
    }

    /// Fresh, empty registry.
    pub fn new() -> (c: Self)
        ensures
            c.wf(),
            c.dids.view() == Map::<Seq<u8>, DIDDocument>::empty(),
    {
        DIDRegistryContract { dids: BytesMap::new() }
    }

    /// `sender` registers `did` with `attributes` and becomes its owner.
    pub fn register(&mut self, sender: Address, did: [u8; 32], attributes: Vec<(String, Vec<u8>)>) -> (r: Result<(), DidError>)
        requires
            old(self).wf(),
        ensures
            final(self).wf(),
            r == (if old(self).dids.view().contains_key(did@) { Err(DidError::AlreadyRegistered) } else { Ok(()) }),
            r is Err ==> final(self).dids.view() == old(self).dids.view(),
            r is Ok ==> final(self).dids.view().dom() == old(self).dids.view().dom().insert(did@)
                && forall|k: Seq<u8>| k != did@ && #[trigger] old(self).dids.view().contains_key(k)
                    ==> final(self).dids.view()[k] == old(self).dids.view()[k]
                && final(self).doc(did@).owner == sender
                && final(self).doc(did@).attributes == attributes
                && final(self).doc(did@).controllers@ == Seq::<Address>::empty()
                && !final(self).doc(did@).revoked,
    {
        if self.dids.get(&did).is_some() {
            return Err(DidError::AlreadyRegistered);
        }
        let key = did_key(&did);
        self.dids.insert(key, DIDDocument { owner: sender, attributes, controllers: Vec::new(), revoked: false });
        proof {
            assert(self.dids.view().dom() =~= old(self).dids.view().dom().insert(did@));
        }
        Ok(())
    }

    /// The owner or a controller replaces the attributes of a live `did`.
    pub fn update(&mut self, sender: Address, did: [u8; 32], attributes: Vec<(String, Vec<u8>)>) -> (r: Result<(), DidError>)
        requires
            old(self).wf(),
        ensures
            final(self).wf(),
            r == (if !old(self).dids.view().contains_key(did@) {
                Err(DidError::NotFound)
            } else if old(self).doc(did@).revoked {
                Err(DidError::Revoked)
            } else if old(self).doc(did@).owner != sender && !old(self).doc(did@).controllers@.contains(sender) {
                Err(DidError::NotAuthorized)
            } else {
                Ok(())
            }),
            r is Err ==> final(self).dids.view() == old(self).dids.view(),
            r is Ok ==> final(self).dids.view().dom() == old(self).dids.view().dom()
                && forall|k: Seq<u8>| k != did@ && #[trigger] old(self).dids.view().contains_key(k)
                    ==> final(self).dids.view()[k] == old(self).dids.view()[k]
                && final(self).doc(did@) == (DIDDocument { attributes, ..old(self).doc(did@) }),
    {
        let (revoked, allowed) = match self.dids.get(&did) {
            Some(d) => (d.revoked, d.owner == sender || contains_address(&d.controllers, sender)),
            None => return Err(DidError::NotFound),
        };
        if revoked {
            return Err(DidError::Revoked);
        }
        if !allowed {
            return Err(DidError::NotAuthorized);
        }
        let doc = match self.dids.remove(&did) {
            Some(d) => d,
            None => return Err(DidError::NotFound),
        };
        self.dids.insert(did_key(&did), DIDDocument { attributes, ..doc });
        proof {
            assert(self.dids.view().dom() =~= old(self).dids.view().dom());
        }
        Ok(())
    }

    /// The owner hands a live `did` to `new_owner`.
    pub fn rotate_key(&mut self, sender: Address, did: [u8; 32], new_owner: Address) -> (r: Result<(), DidError>)
        requires
            old(self).wf(),
        ensures
            final(self).wf(),
            r == (match old(self).owner_refusal(did@, sender, true) { Some(e) => Err(e), None => Ok(()) }),
            r is Err ==> final(self).dids.view() == old(self).dids.view(),
            r is Ok ==> final(self).dids.view().dom() == old(self).dids.view().dom()
                && forall|k: Seq<u8>| k != did@ && #[trigger] old(self).dids.view().contains_key(k)
                    ==> final(self).dids.view()[k] == old(self).dids.view()[k]
                && final(self).doc(did@) == (DIDDocument { owner: new_owner, ..old(self).doc(did@) }),
    {
        self.check_owner(&did, sender, true)?;
        let doc = match self.dids.remove(&did) {
            Some(d) => d,
            None => return Err(DidError::NotFound),
        };
        self.dids.insert(did_key(&did), DIDDocument { owner: new_owner, ..doc });
        proof {
            assert(self.dids.view().dom() =~= old(self).dids.view().dom());
        }
        Ok(())
    }

    fn check_owner(&self, did: &[u8; 32], sender: Address, live: bool) -> (r: Result<(), DidError>)
        requires
            self.wf(),
        ensures
            r == (match self.owner_refusal(did@, sender, live) { Some(e) => Err(e), None => Ok(()) }),
    {
        match self.dids.get(did) {
            Some(d) => {
                if live && d.revoked {
                    Err(DidError::Revoked)
                } else if d.owner != sender {
                    Err(DidError::NotAuthorized)
                } else {
                    Ok(())
                }
            },
            None => Err(DidError::NotFound),
        }
    }

    /// The owner revokes `did`.
    pub fn revoke(&mut self, sender: Address, did: [u8; 32]) -> (r: Result<(), DidError>)
        requires
            old(self).wf(),
        ensures
            final(self).wf(),
            r == (match old(self).owner_refusal(did@, sender, false) { Some(e) => Err(e), None => Ok(()) }),
            r is Err ==> final(self).dids.view() == old(self).dids.view(),
            r is Ok ==> final(self).dids.view().dom() == old(self).dids.view().dom()
                && forall|k: Seq<u8>| k != did@ && #[trigger] old(self).dids.view().contains_key(k)
                    ==> final(self).dids.view()[k] == old(self).dids.view()[k]
                && final(self).doc(did@) == (DIDDocument { revoked: true, ..old(self).doc(did@) }),
    {
        self.check_owner(&did, sender, false)?;
        let doc = match self.dids.remove(&did) {
            Some(d) => d,
            None => return Err(DidError::NotFound),
        };
        self.dids.insert(did_key(&did), DIDDocument { revoked: true, ..doc });
        proof {
            assert(self.dids.view().dom() =~= old(self).dids.view().dom());
        }
        Ok(())
    }

    /// The owner adds `controller` to `did`; one already listed is not
    /// added twice.
    pub fn add_controller(&mut self, sender: Address, did: [u8; 32], controller: Address) -> (r: Result<(), DidError>)
        requires
            old(self).wf(),
        ensures
            final(self).wf(),
            r == (match old(self).owner_refusal(did@, sender, false) { Some(e) => Err(e), None => Ok(()) }),
            r is Err ==> final(self).dids.view() == old(self).dids.view(),
            r is Ok ==> final(self).dids.view().dom() == old(self).dids.view().dom()
                && forall|k: Seq<u8>| k != did@ && #[trigger] old(self).dids.view().contains_key(k)
                    ==> final(self).dids.view()[k] == old(self).dids.view()[k]
                && final(self).doc(did@).owner == old(self).doc(did@).owner
                && final(self).doc(did@).attributes == old(self).doc(did@).attributes
                && final(self).doc(did@).revoked == old(self).doc(did@).revoked
                && final(self).doc(did@).controllers@ == if old(self).doc(did@).controllers@.contains(controller) {
                    old(self).doc(did@).controllers@
                } else {
                    old(self).doc(did@).controllers@.push(controller)
                },
    {
        self.check_owner(&did, sender, false)?;
        let doc = match self.dids.remove(&did) {
            Some(d) => d,
            None => return Err(DidError::NotFound),
        };
        let mut controllers = doc.controllers;
        if !contains_address(&controllers, controller) {
            controllers.push(controller);
        }
        self.dids.insert(did_key(&did), DIDDocument { controllers, ..doc });
        proof {
            assert(self.dids.view().dom() =~= old(self).dids.view().dom());
        }
        Ok(())
    }

    /// The owner removes the first listing of `controller` from `did`.
    pub fn remove_controller(&mut self, sender: Address, did: [u8; 32], controller: Address) -> (r: Result<(), DidError>)
        requires
            old(self).wf(),
        ensures
            final(self).wf(),
            r == (match old(self).owner_refusal(did@, sender, false) { Some(e) => Err(e), None => Ok(()) }),
            r is Err ==> final(self).dids.view() == old(self).dids.view(),
            r is Ok ==> {
                let cs = old(self).doc(did@).controllers@;
                &&& final(self).dids.view().dom() == old(self).dids.view().dom()
                &&& forall|k: Seq<u8>| k != did@ && #[trigger] old(self).dids.view().contains_key(k)
                    ==> final(self).dids.view()[k] == old(self).dids.view()[k]
                &&& final(self).doc(did@).owner == old(self).doc(did@).owner
                &&& final(self).doc(did@).attributes == old(self).doc(did@).attributes
                &&& final(self).doc(did@).revoked == old(self).doc(did@).revoked
                &&& if cs.contains(controller) {
                    exists|i: int| 0 <= i < cs.len() && cs[i] == controller
                        && (forall|j: int| 0 <= j < i ==> cs[j] != controller)
                        && final(self).doc(did@).controllers@ == cs.remove(i)
                } else {
                    final(self).doc(did@).controllers@ == cs
                }
            },
    {
        self.check_owner(&did, sender, false)?;
        let doc = match self.dids.remove(&did) {
            Some(d) => d,
            None => return Err(DidError::NotFound),
        };
        let mut controllers = doc.controllers;
        let ghost cs = controllers@;
        match position(&controllers, controller) {
            Some(i) => {
                controllers.remove(i);
                assert(cs.contains(controller));
            },
            None => {},
        }
        self.dids.insert(did_key(&did), DIDDocument { controllers, ..doc });
        proof {
            assert(self.dids.view().dom() =~= old(self).dids.view().dom());
        }
        Ok(())
    }

    /// The document of `did`, if registered.
    pub fn resolve(&self, did: [u8; 32]) -> (r: Option<&DIDDocument>)
        requires
            self.wf(),
        ensures
            r is Some <==> self.dids.view().contains_key(did@),
            r matches Some(d) ==> *d == self.doc(did@),
    {
        self.dids.get(&did)
    }
}

/// The storage key of a DID: its bytes.
fn did_key(did: &[u8; 32]) -> (r: Vec<u8>)
    ensures
        r@ == did@,
{
    let mut out: Vec<u8> = Vec::new();
    out.extend_from_slice(did);
    assert(out@ =~= did@);
    out
}

} // verus!
