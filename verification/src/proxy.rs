//! Upgradeable contract in the UUPS style: the contract keeps its storage
//! and replaces its own code; only the admin chooses the new code.
use vstd::prelude::*;
use crate::common::Address;

verus! {

/// Storage keys of the proxy, as the host lays them out.
#[derive(Copy, Clone, Debug, PartialEq, Eq, Structural)]
pub enum ProxyDataKey {
    Admin,
    ImplementationWasm,
}

#[derive(Copy, Clone, Debug, PartialEq, Eq, Structural)]
pub enum ProxyError {
    AlreadyInitialized,
    NotInitialized,
    Unauthorized,
    InvalidAdmin,
}

/// Storage of the proxy. After `init` and `upgrade_to` the host replaces
/// the contract's code with `implementation`.
pub struct ProxyContract {
    pub admin: Option<Address>,
    /// Hash of the code the contract runs.
    pub implementation: Option<[u8; 32]>,
}

impl ProxyContract {
    pub open spec fn admin_refusal(&self, caller: Address) -> Option<ProxyError> {
        match self.admin {
            None => Some(ProxyError::NotInitialized),
            Some(a) => if a != caller { Some(ProxyError::Unauthorized) } else { None },
        }
    }

    /// Fresh, uninitialised storage.
    pub fn new() -> (c: Self)
        ensures
            c.admin is None && c.implementation is None,
    {
        ProxyContract { admin: None, implementation: None }
    }

    /// Record the admin and the first code hash.
    pub fn init(&mut self, admin: Address, implementation: [u8; 32]) -> (r: Result<(), ProxyError>)
        ensures
            r == (if old(self).admin is Some { Err(ProxyError::AlreadyInitialized) } else { Ok(()) }),
            r is Err ==> *final(self) == *old(self),
            r is Ok ==> final(self).admin == Some(admin) && final(self).implementation == Some(implementation),
    {
        if self.admin.is_some() {
            return Err(ProxyError::AlreadyInitialized);
        }
        self.admin = Some(admin);
        self.implementation = Some(implementation);
        Ok(())
    }

    fn require_admin(&self, caller: Address) -> (r: Result<(), ProxyError>)
        ensures
            r == (match self.admin_refusal(caller) { Some(e) => Err(e), None => Ok(()) }),
    {
        match self.admin {
            None => Err(ProxyError::NotInitialized),
            Some(a) => if a != caller { Err(ProxyError::Unauthorized) } else { Ok(()) },
        }
    }

    /// The admin switches the contract to the code `new_implementation`.
    pub fn upgrade_to(&mut self, caller: Address, new_implementation: [u8; 32]) -> (r: Result<(), ProxyError>)
        ensures
            r == (match old(self).admin_refusal(caller) { Some(e) => Err(e), None => Ok(()) }),
            r is Err ==> *final(self) == *old(self),
            r is Ok ==> final(self).admin == old(self).admin && final(self).implementation == Some(new_implementation),
    {
        self.require_admin(caller)?;
        self.implementation = Some(new_implementation);
        Ok(())
    }

    /// The code hash the contract runs.
    pub fn get_implementation(&self) -> (r: Result<[u8; 32], ProxyError>)
        ensures
            r == (match self.implementation { Some(h) => Ok(h), None => Err(ProxyError::NotInitialized) }),
    {
        match self.implementation {
            Some(h) => Ok(h),
            None => Err(ProxyError::NotInitialized),
        }
    }

    /// The admin hands its role to `new_admin`.
    pub fn transfer_admin(&mut self, caller: Address, new_admin: Address) -> (r: Result<(), ProxyError>)
        ensures
            r == (match old(self).admin_refusal(caller) { Some(e) => Err(e), None => Ok(()) }),
            r is Err ==> *final(self) == *old(self),
            r is Ok ==> final(self).admin == Some(new_admin) && final(self).implementation == old(self).implementation,
    {
        self.require_admin(caller)?;
        self.admin = Some(new_admin);
        Ok(())
    }
}

} // verus!
