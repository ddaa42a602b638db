//! Buffer capabilities.
//!
//! A buffer's capability set is fixed when the buffer is created. Every later
//! use of the buffer (binding it to a kernel slot, copying from or to it,
//! mapping it for the host) has to be covered by that set.

use vstd::prelude::*;

verus! {

/// One thing a buffer can be used for.
#[derive(Clone, Copy, Debug, PartialEq, Eq, Structural)]
pub enum Capability {
    /// The kernel may read and write it as a storage binding.
    Storage,
    /// It may be the source of a copy command.
    CopySource,
    /// It may be the destination of a copy command.
    CopyDestination,
    /// The host may map it and read its bytes.
    MapRead,
}

/// A set of capabilities.
#[derive(Clone, Copy, Debug, PartialEq, Eq, Structural)]
pub struct Usage {
    pub storage: bool,
    pub copy_source: bool,
    pub copy_destination: bool,
    pub map_read: bool,
}

impl View for Usage {
    type V = Set<Capability>;

    open spec fn view(&self) -> Set<Capability> {
        Set::new(
            |c: Capability|
                match c {
                    Capability::Storage => self.storage,
                    Capability::CopySource => self.copy_source,
                    Capability::CopyDestination => self.copy_destination,
                    Capability::MapRead => self.map_read,
                },
        )
    }
}

impl Usage {
    /// No capability at all.
    pub fn empty() -> (usage: Usage)
        ensures
            usage@ == Set::<Capability>::empty(),
    {
        Usage { storage: false, copy_source: false, copy_destination: false, map_read: false }
    }

    /// This set and `capability`.
    pub fn with(self, capability: Capability) -> (usage: Usage)
        ensures
            usage@ == self@.insert(capability),
    {
        match capability {
            Capability::Storage => Usage { storage: true, ..self },
            Capability::CopySource => Usage { copy_source: true, ..self },
            Capability::CopyDestination => Usage { copy_destination: true, ..self },
            Capability::MapRead => Usage { map_read: true, ..self },
        }
    }

    /// Whether `capability` is in the set.
    pub fn allows(&self, capability: Capability) -> (allowed: bool)
        ensures
            allowed == self@.contains(capability),
    {
        match capability {
            Capability::Storage => self.storage,
            Capability::CopySource => self.copy_source,
            Capability::CopyDestination => self.copy_destination,
            Capability::MapRead => self.map_read,
        }
    }

    /// What the input buffer is created with: storage only.
    pub open spec fn spec_input() -> Usage {
        Usage { storage: true, copy_source: false, copy_destination: false, map_read: false }
    }

    /// What the output buffer is created with: storage, and source of copies.
    pub open spec fn spec_output() -> Usage {
        Usage { storage: true, copy_source: true, copy_destination: false, map_read: false }
    }

    /// What the staging buffer is created with: destination of copies, and
    /// readable by the host.
    pub open spec fn spec_staging() -> Usage {
        Usage { storage: false, copy_source: false, copy_destination: true, map_read: true }
    }

    /// The capabilities of the input buffer.
    pub fn input() -> (usage: Usage)
        ensures
            usage == Usage::spec_input(),
            usage@ == set![Capability::Storage],
    {
        Usage { storage: true, copy_source: false, copy_destination: false, map_read: false }
    }

    /// The capabilities of the output buffer.
    pub fn output() -> (usage: Usage)
        ensures
            usage == Usage::spec_output(),
            usage@ == set![Capability::Storage, Capability::CopySource],
    {
        Usage { storage: true, copy_source: true, copy_destination: false, map_read: false }
    }

    /// The capabilities of the staging buffer.
    pub fn staging() -> (usage: Usage)
        ensures
            usage == Usage::spec_staging(),
            usage@ == set![Capability::MapRead, Capability::CopyDestination],
    {
        Usage { storage: false, copy_source: false, copy_destination: true, map_read: true }
    }
}

} // verus!
