use vstd::prelude::*;

verus! {

/// Why the registry refused a change.
#[derive(Debug, Clone, Copy, PartialEq, Eq, Structural)]
pub enum RegistryError {
    /// A broker is registered already; it has to be unregistered first.
    SlotOccupied,
    /// Every handle has been given out once.
    HandlesExhausted,
    /// No live broker has that handle.
    NoSuchBroker,
}

/// The registry of outward broker connections: one slot, and a counter that hands
/// out each handle at most once.
pub struct BrokerStore<B> {
    pub slot: Option<(u64, B)>,
    pub next_handle: u64,
}

impl<B> BrokerStore<B> {
    /// The live handle, if any, was given out before the counter's current value.
    pub open spec fn wf(&self) -> bool {
        self.slot is Some ==> (self.slot->0).0 < self.next_handle
    }

    pub open spec fn size(&self) -> nat {
        if self.slot is Some {
            1
        } else {
            0
        }
    }

    pub fn new() -> (r: Self)
        ensures
            r.wf(),
            r.slot is None,
            r.next_handle == 0,
    {
        BrokerStore { slot: None, next_handle: 0 }
    }

    /// Number of live registrations.
    pub fn len(&self) -> (r: usize)
        ensures
            r == self.size(),
    {
        if self.slot.is_some() {
            1
        } else {
            0
        }
    }

    /// Handle of the most recent live registration.
    pub fn latest(&self) -> (r: Option<u64>)
        ensures
            r == (match self.slot {
                Some(e) => Some(e.0),
                None => None::<u64>,
            }),
    {
        match &self.slot {
            Some(e) => Some(e.0),
            None => None,
        }
    }

    /// Registers a broker under a fresh handle; an occupied slot is never overwritten.
    pub fn register(&mut self, broker: B) -> (r: Result<u64, RegistryError>)
        requires
            old(self).wf(),
        ensures
            final(self).wf(),
            old(self).slot is Some ==> r == Err::<u64, RegistryError>(RegistryError::SlotOccupied)
                && *final(self) == *old(self),
            old(self).slot is None && old(self).next_handle == u64::MAX ==> r == Err::<u64, RegistryError>(
                RegistryError::HandlesExhausted,
            ) && *final(self) == *old(self),
            old(self).slot is None && old(self).next_handle < u64::MAX ==> {
                &&& r == Ok::<u64, RegistryError>(old(self).next_handle)
                &&& final(self).slot == Some((old(self).next_handle, broker))
                &&& final(self).next_handle == old(self).next_handle + 1
            },
    {
        if self.slot.is_some() {
            return Err(RegistryError::SlotOccupied);
        }
        if self.next_handle == u64::MAX {
            return Err(RegistryError::HandlesExhausted);
        }
        let handle = self.next_handle;
        self.slot = Some((handle, broker));
        self.next_handle = handle + 1;
        Ok(handle)
    }

    /// Removes the live broker with the given handle and hands it back.
    pub fn unregister(&mut self, handle: u64) -> (r: Result<B, RegistryError>)
        requires
            old(self).wf(),
        ensures
            final(self).wf(),
            final(self).next_handle == old(self).next_handle,
            match old(self).slot {
                Some(e) => if e.0 == handle {
                    r == Ok::<B, RegistryError>(e.1) && final(self).slot is None
                } else {
                    r == Err::<B, RegistryError>(RegistryError::NoSuchBroker) && *final(self) == *old(self)
                },
                None => r == Err::<B, RegistryError>(RegistryError::NoSuchBroker) && *final(self) == *old(self),
            },
    {
        let live = match &self.slot {
            Some(e) => e.0 == handle,
            None => false,
        };
        if !live {
            return Err(RegistryError::NoSuchBroker);
        }
        match self.slot.take() {
            Some(e) => Ok(e.1),
            None => Err(RegistryError::NoSuchBroker),
        }
    }
}

} // verus!
