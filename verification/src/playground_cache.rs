//! A cache of 32-byte values under symbol keys, written only by the admin.
use vstd::prelude::*;
use crate::bytes_map::BytesMap;
use crate::common::Address;
use crate::storage_lesson::symbol_key;

verus! {

/// Why a cache call is refused.
#[derive(Copy, Clone, Debug, PartialEq, Eq, Structural)]
pub enum CacheError {
    AlreadyInitialized,
    NotInitialized,
    NotAdmin,
    NotFound,
}

/// Storage of the cache.
pub struct PlaygroundCacheContract {
    pub admin: Option<Address>,
    pub cache: BytesMap<[u8; 32]>,
}

impl PlaygroundCacheContract {
    pub open spec fn wf(&self) -> bool {
        self.cache.wf()
    }

    pub fn new() -> (c: Self)
        ensures
            c.wf(),
            c.admin is None,
            c.cache.view() == Map::<Seq<u8>, [u8; 32]>::empty(),
    {
        PlaygroundCacheContract { admin: None, cache: BytesMap::new() }
    }

    pub fn initialize(&mut self, admin: Address) -> (r: Result<(), CacheError>)
        ensures
            r == (if old(self).admin is Some { Err(CacheError::AlreadyInitialized) } else { Ok(()) }),
            r is Err ==> *final(self) == *old(self),
            r is Ok ==> final(self).admin == Some(admin) && final(self).cache == old(self).cache,
    {
        if self.admin.is_some() {
            return Err(CacheError::AlreadyInitialized);
        }
        self.admin = Some(admin);
        Ok(())
    }

    /// The admin caches `value` under `key`.
    pub fn set_cache(&mut self, admin: Address, key: &str, value: [u8; 32]) -> (r: Result<(), CacheError>)
        requires
            old(self).wf(),
        ensures
            final(self).wf(),
            r == (match old(self).admin {
                None => Err(CacheError::NotInitialized),
                Some(a) => if a != admin { Err(CacheError::NotAdmin) } else { Ok(()) },
            }),
            r is Err ==> final(self).cache.view() == old(self).cache.view(),
            final(self).admin == old(self).admin,
            r is Ok ==> final(self).cache.view() == old(self).cache.view().insert(symbol_key(key@), value),
    {
        let a = match self.admin {
            Some(a) => a,
            None => return Err(CacheError::NotInitialized),
        };
        if admin != a {
            return Err(CacheError::NotAdmin);
        }
        self.cache.insert(key.as_bytes_vec(), value);
        Ok(())
    }

    /// The value cached under `key`.
    pub fn get_cache(&self, key: &str) -> (r: Result<[u8; 32], CacheError>)
        requires
            self.wf(),
        ensures
            r == (if self.cache.view().contains_key(symbol_key(key@)) {
                Ok(self.cache.view()[symbol_key(key@)])
            } else {
                Err(CacheError::NotFound)
            }),
    {
        let k = key.as_bytes_vec();
        match self.cache.get(k.as_slice()) {
            Some(v) => Ok(*v),
            None => Err(CacheError::NotFound),
        }
    }
}

} // verus!
