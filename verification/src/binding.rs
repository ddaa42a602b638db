//! Wiring buffers to the binding slots a kernel declares.
//!
//! A compiled kernel expects, for each slot of its bind group, a resource of a
//! certain kind. A bind group supplies one buffer per slot. The two are checked
//! against each other when the bind group is made, never later.

use crate::buffers::BufferRole;
use crate::buffers::BufferSet;
use crate::buffers::BufferSpec;
use crate::error::ErrorKind;
use crate::error::GpuError;
use crate::usage::Capability;
use vstd::prelude::*;

verus! {

/// The bind group in which the kernel declares all of its slots.
pub const KERNEL_GROUP: u32 = 0;

/// The kind of resource a slot expects.
#[derive(Clone, Copy, Debug, PartialEq, Eq, Structural)]
pub enum ResourceKind {
    /// A storage buffer the kernel only reads.
    ReadOnlyStorage,
    /// A storage buffer the kernel may write.
    ReadWriteStorage,
}

/// One declared binding slot.
#[derive(Clone, Copy, Debug, PartialEq, Eq, Structural)]
pub struct Slot {
    pub index: u32,
    pub kind: ResourceKind,
}

/// The slots a kernel declares in its bind group.
#[derive(Debug)]
pub struct Layout {
    pub slots: Vec<Slot>,
}

/// One association of a slot with a buffer, over the buffer's entire extent.
#[derive(Clone, Copy, Debug, PartialEq, Eq, Structural)]
pub struct BindEntry {
    pub slot: u32,
    pub buffer: BufferRole,
}

/// Entries that were found to fit a layout.
#[derive(Debug)]
pub struct BindGroup {
    entries: Vec<BindEntry>,
}

impl View for Layout {
    type V = Seq<Slot>;

    open spec fn view(&self) -> Seq<Slot> {
        self.slots@
    }
}

impl View for BindGroup {
    type V = Seq<BindEntry>;

    closed spec fn view(&self) -> Seq<BindEntry> {
        self.entries@
    }
}

/// The capability a buffer needs to be bound to a slot of this kind.
pub open spec fn spec_required(kind: ResourceKind) -> Capability {
    match kind {
        ResourceKind::ReadOnlyStorage => Capability::Storage,
        ResourceKind::ReadWriteStorage => Capability::Storage,
    }
}

/// The layout of the kernel this crate drives: slot 0 is read, slot 1 is
/// written, both are storage buffers.
pub open spec fn kernel_layout() -> Seq<Slot> {
    seq![
        Slot { index: 0, kind: ResourceKind::ReadOnlyStorage },
        Slot { index: 1, kind: ResourceKind::ReadWriteStorage },
    ]
}

/// The wiring for that kernel: slot 0 gets the input buffer, slot 1 the
/// output buffer.
pub open spec fn kernel_entries() -> Seq<BindEntry> {
    seq![
        BindEntry { slot: 0, buffer: BufferRole::Input },
        BindEntry { slot: 1, buffer: BufferRole::Output },
    ]
}

/// The layout declares the entry's slot, with a kind that the entry's buffer
/// is allowed to serve as.
pub open spec fn entry_fits(layout: Seq<Slot>, buffers: BufferSet, entry: BindEntry) -> bool {
    exists|i: int|
        0 <= i < layout.len() && slot_takes(#[trigger] layout[i], buffers.spec_get(entry.buffer), entry)
}

/// `slot` is the one `entry` names, and `buffer` may be bound to it.
pub open spec fn slot_takes(slot: Slot, buffer: BufferSpec, entry: BindEntry) -> bool {
    slot.index == entry.slot && buffer.usage@.contains(spec_required(slot.kind))
}

/// No slot is named twice.
pub open spec fn distinct_slots(entries: Seq<BindEntry>) -> bool {
    forall|j: int, k: int| 0 <= j < k < entries.len() ==> entries[j].slot != entries[k].slot
}

/// The entries supply exactly what the layout expects: as many entries as
/// there are slots, no slot twice, and each entry a declared slot with a
/// buffer of the expected kind.
pub open spec fn fits(layout: Seq<Slot>, buffers: BufferSet, entries: Seq<BindEntry>) -> bool {
    &&& entries.len() == layout.len()
    &&& distinct_slots(entries)
    &&& forall|k: int| 0 <= k < entries.len() ==> entry_fits(layout, buffers, #[trigger] entries[k])
}

/// The planned buffers fit the kernel's layout when wired by convention.
pub proof fn lemma_kernel_wiring_fits(buffers: BufferSet)
    requires
        buffers.wf(),
    ensures
        fits(kernel_layout(), buffers, kernel_entries()),
{
    let layout = kernel_layout();
    let entries = kernel_entries();
    assert(slot_takes(layout[0], buffers.spec_get(entries[0].buffer), entries[0]));
    assert(slot_takes(layout[1], buffers.spec_get(entries[1].buffer), entries[1]));
}

impl ResourceKind {
    /// The capability a buffer needs to be bound to a slot of this kind.
    pub fn required(self) -> (capability: Capability)
        ensures
            capability == spec_required(self),
    {
        match self {
            ResourceKind::ReadOnlyStorage => Capability::Storage,
            ResourceKind::ReadWriteStorage => Capability::Storage,
        }
    }
}

impl Layout {
    /// The layout of the kernel this crate drives.
    pub fn kernel() -> (layout: Layout)
        ensures
            layout@ == kernel_layout(),
    {
        let mut slots: Vec<Slot> = Vec::new();
        slots.push(Slot { index: 0, kind: ResourceKind::ReadOnlyStorage });
        slots.push(Slot { index: 1, kind: ResourceKind::ReadWriteStorage });
        Layout { slots }
    }

    /// Whether `entry` names a declared slot and brings a buffer that slot
    /// can take.
    pub fn takes(&self, buffers: &BufferSet, entry: BindEntry) -> (taken: bool)
        ensures
            taken == entry_fits(self@, *buffers, entry),
    {
        let buffer = buffers.get(entry.buffer);
        let mut i: usize = 0;
        while i < self.slots.len()
            invariant
                0 <= i <= self.slots.len(),
                buffer == buffers.spec_get(entry.buffer),
                forall|j: int| 0 <= j < i ==> !slot_takes(#[trigger] self@[j], buffer, entry),
            decreases self.slots.len() - i,
        {
            let slot = self.slots[i];
            if slot.index == entry.slot && buffer.usage.allows(slot.kind.required()) {
                assert(slot_takes(self@[i as int], buffer, entry));
                return true;
            }
            i += 1;
        }
        false
    }
}

/// Whether the slot of entry `k` is named by an earlier entry.
fn named_before(entries: &Vec<BindEntry>, k: usize) -> (named: bool)
    requires
        k < entries.len(),
    ensures
        named == exists|j: int| 0 <= j < k && entries@[j].slot == entries@[k as int].slot,
{
    let mut j: usize = 0;
    while j < k
        invariant
            0 <= j <= k < entries.len(),
            forall|i: int| 0 <= i < j ==> entries@[i].slot != entries@[k as int].slot,
        decreases k - j,
    {
        if entries[j].slot == entries[k].slot {
            return true;
        }
        j += 1;
    }
    false
}

impl BindGroup {
    /// Makes a bind group of `entries` for a kernel with the given layout.
    /// Fails with `BindingLayoutMismatch` exactly when the entries do not
    /// fit; in particular whenever there are fewer or more entries than
    /// declared slots.
    pub fn create(layout: &Layout, buffers: &BufferSet, entries: Vec<BindEntry>) -> (made: Result<
        BindGroup,
        GpuError,
    >)
        ensures
            match made {
                Ok(group) => fits(layout@, *buffers, entries@) && group@ == entries@,
                Err(error) => {
                    &&& !fits(layout@, *buffers, entries@)
                    &&& error.kind == ErrorKind::BindingLayoutMismatch
                    &&& error.detail@.len() == 0
                },
            },
            entries@.len() != layout@.len() ==> made is Err,
    {
        if entries.len() != layout.slots.len() {
            return Err(GpuError::found(ErrorKind::BindingLayoutMismatch));
        }
        let mut k: usize = 0;
        while k < entries.len()
            invariant
                0 <= k <= entries.len(),
                entries@.len() == layout@.len(),
                forall|i: int, j: int| 0 <= i < j < k ==> entries@[i].slot != entries@[j].slot,
                forall|i: int| 0 <= i < k ==> entry_fits(layout@, *buffers, #[trigger] entries@[i]),
            decreases entries.len() - k,
        {
            if named_before(&entries, k) || !layout.takes(buffers, entries[k]) {
                return Err(GpuError::found(ErrorKind::BindingLayoutMismatch));
            }
            k += 1;
        }
        Ok(BindGroup { entries })
    }

    /// Wires the input buffer to slot 0 and the output buffer to slot 1, each
    /// over its entire extent. Fails with `BindingLayoutMismatch` exactly when
    /// the kernel's layout expects anything else.
    pub fn wire(layout: &Layout, buffers: &BufferSet) -> (made: Result<BindGroup, GpuError>)
        ensures
            match made {
                Ok(group) => fits(layout@, *buffers, kernel_entries()) && group@ == kernel_entries(),
                Err(error) => {
                    &&& !fits(layout@, *buffers, kernel_entries())
                    &&& error.kind == ErrorKind::BindingLayoutMismatch
                    &&& error.detail@.len() == 0
                },
            },
    {
        let mut entries: Vec<BindEntry> = Vec::new();
        entries.push(BindEntry { slot: 0, buffer: BufferRole::Input });
        entries.push(BindEntry { slot: 1, buffer: BufferRole::Output });
        assert(entries@ =~= kernel_entries());
        BindGroup::create(layout, buffers, entries)
    }

    /// The entries, in the order they were given.
    pub fn entries(&self) -> (entries: &Vec<BindEntry>)
        ensures
            entries@ == self@,
    {
        &self.entries
    }
}

} // verus!
