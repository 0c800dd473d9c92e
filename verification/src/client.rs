//! The cache of the provider's client: discovery runs until it has succeeded
//! once, and never again.

use vstd::prelude::*;
use crate::error::{SsoError, SsoErrorView};

verus! {

/// Holds the client that discovery gave, once it gave one. `C` is the caller's
/// client type; nothing is asked of it.
pub struct ClientCache<C> {
    slot: Option<C>,
}

/// The view of an outcome without a value.
pub open spec fn unit_outcome(r: Result<(), SsoError>) -> Result<(), SsoErrorView> {
    match r {
        Ok(_) => Ok(()),
        Err(e) => Err(e@),
    }
}

impl<C> ClientCache<C> {
    /// The client that is held.
    pub closed spec fn client(&self) -> Option<C> {
        self.slot
    }

    /// A cache that holds no client yet.
    pub fn new() -> (r: ClientCache<C>)
        ensures
            r.client() is None,
    {
        ClientCache { slot: None }
    }

    /// The client, if discovery has succeeded before. Where there is none, the
    /// caller runs discovery and reports with `populate`.
    pub fn cached_client(&self) -> (r: Option<&C>)
        ensures
            r is Some == self.client() is Some,
            r matches Some(c) ==> *c == self.client().unwrap(),
    {
        self.slot.as_ref()
    }

    /// Takes what discovery gave. A client is kept, in place of any that was
    /// held. A failure is reported and not kept, so that the next call tries
    /// again.
    pub fn get_client(&mut self, discovered: Result<C, String>) -> (r: Result<(), SsoError>)
        ensures
            discovered matches Ok(c) ==> r is Ok && final(self).client() == Some(c),
            discovered matches Err(m) ==> unit_outcome(r) == Err::<(), SsoErrorView>(
                SsoErrorView::Discovery(m@),
            ) && final(self).client() == old(self).client(),
    {
        match discovered {
            Ok(c) => {
                self.slot = Some(c);
                Ok(())
            },
            Err(m) => Err(SsoError::Discovery(m)),
        }
    }

    /// Forgets the client, so that the next call runs discovery anew.
    pub fn invalidate(&mut self)
        ensures
            final(self).client() is None,
    {
        self.slot = None;
    }
}

} // verus!
