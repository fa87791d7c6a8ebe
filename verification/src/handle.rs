//! The single slot that owns the current connection.

use vstd::prelude::*;

verus! {

/// A slot that is either empty or owns the one ready connection.
///
/// The slot is meant to live behind a mutual-exclusion lock: whoever holds
/// the lock reads the slot and performs one adapter operation, or installs or
/// removes the connection.
pub struct DeviceHandle<C> {
    slot: Option<C>,
}

impl<C> View for DeviceHandle<C> {
    type V = Option<C>;

    closed spec fn view(&self) -> Option<C> {
        self.slot
    }
}

impl<C> DeviceHandle<C> {
    /// The connections the slot owns, as a sequence.
    pub open spec fn connections(&self) -> Seq<C> {
        match self@ {
            Some(c) => seq![c],
            None => Seq::empty(),
        }
    }

    /// An empty slot.
    pub fn new() -> (handle: Self)
        ensures
            handle@ is None,
    {
        DeviceHandle { slot: None }
    }

    /// Whether the slot owns a connection.
    pub fn is_present(&self) -> (present: bool)
        ensures
            present == (self@ is Some),
    {
        self.slot.is_some()
    }

    /// The connection the slot owns, if any.
    pub fn connection(&self) -> (current: Option<&C>)
        ensures
            match current {
                Some(c) => self@ == Some(*c),
                None => self@ is None,
            },
    {
        self.slot.as_ref()
    }

    /// Puts `connection` into the slot, dropping whatever it owned before.
    pub fn install(&mut self, connection: C)
        ensures
            final(self)@ == Some(connection),
    {
        self.slot = Some(connection);
    }

    /// Empties the slot, dropping the connection it owned.
    pub fn clear(&mut self)
        ensures
            final(self)@ is None,
    {
        self.slot = None;
    }

    /// The slot never owns more than one connection.
    pub proof fn lemma_at_most_one(&self)
        ensures
            self.connections().len() <= 1,
            self.connections().len() == 1 <==> self@ is Some,
    {
    }
}

} // verus!
