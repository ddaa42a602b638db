use compute_dispatch::binding::BindEntry;
use compute_dispatch::binding::BindGroup;
use compute_dispatch::binding::Layout;
use compute_dispatch::binding::ResourceKind;
use compute_dispatch::binding::Slot;
use compute_dispatch::binding::KERNEL_GROUP;
use compute_dispatch::buffers::BufferRole;
use compute_dispatch::buffers::BufferSet;
use compute_dispatch::error::ErrorKind;
use compute_dispatch::usage::Capability;

fn planned() -> BufferSet {
    BufferSet::plan(8, 1 << 28).expect("thirty-two bytes fit")
}

fn entry(slot: u32, buffer: BufferRole) -> BindEntry {
    BindEntry { slot, buffer }
}

fn read(index: u32) -> Slot {
    Slot { index, kind: ResourceKind::ReadOnlyStorage }
}

fn write(index: u32) -> Slot {
    Slot { index, kind: ResourceKind::ReadWriteStorage }
}

fn mismatch(layout: &Layout, entries: Vec<BindEntry>) {
    let error = BindGroup::create(layout, &planned(), entries).expect_err("must not fit");
    assert_eq!(error.kind, ErrorKind::BindingLayoutMismatch);
    assert_eq!(error.detail, "");
}

#[test]
fn kernel_declares_two_storage_slots_in_group_zero() {
    assert_eq!(KERNEL_GROUP, 0);
    let layout = Layout::kernel();
    assert_eq!(layout.slots, vec![read(0), write(1)]);
}

#[test]
fn both_kinds_need_the_storage_capability() {
    assert_eq!(ResourceKind::ReadOnlyStorage.required(), Capability::Storage);
    assert_eq!(ResourceKind::ReadWriteStorage.required(), Capability::Storage);
}

#[test]
fn wire_binds_input_to_slot_zero_and_output_to_slot_one() {
    let group = BindGroup::wire(&Layout::kernel(), &planned()).expect("the kernel's own layout");
    assert_eq!(
        group.entries(),
        &vec![entry(0, BufferRole::Input), entry(1, BufferRole::Output)]
    );
}

#[test]
fn wire_fails_when_the_kernel_declares_one_slot() {
    let layout = Layout { slots: vec![read(0)] };
    let error = BindGroup::wire(&layout, &planned()).expect_err("one slot, two buffers");
    assert_eq!(error.kind, ErrorKind::BindingLayoutMismatch);
}

#[test]
fn wire_fails_when_the_kernel_declares_three_slots() {
    let layout = Layout { slots: vec![read(0), write(1), write(2)] };
    let error = BindGroup::wire(&layout, &planned()).expect_err("three slots, two buffers");
    assert_eq!(error.kind, ErrorKind::BindingLayoutMismatch);
}

#[test]
fn wire_fails_when_the_kernel_declares_other_slots() {
    let layout = Layout { slots: vec![read(0), write(2)] };
    let error = BindGroup::wire(&layout, &planned()).expect_err("slot 1 is not declared");
    assert_eq!(error.kind, ErrorKind::BindingLayoutMismatch);
}

#[test]
fn wire_fails_when_the_kernel_declares_nothing() {
    let layout = Layout { slots: vec![] };
    let error = BindGroup::wire(&layout, &planned()).expect_err("no slot at all");
    assert_eq!(error.kind, ErrorKind::BindingLayoutMismatch);
}

#[test]
fn create_accepts_the_conventional_entries() {
    let entries = vec![entry(0, BufferRole::Input), entry(1, BufferRole::Output)];
    let group = BindGroup::create(&Layout::kernel(), &planned(), entries.clone()).expect("fits");
    assert_eq!(group.entries(), &entries);
}

#[test]
fn create_accepts_entries_in_any_order() {
    let entries = vec![entry(1, BufferRole::Output), entry(0, BufferRole::Input)];
    let group = BindGroup::create(&Layout::kernel(), &planned(), entries.clone()).expect("fits");
    assert_eq!(group.entries(), &entries);
}

#[test]
fn create_rejects_fewer_entries_than_slots() {
    mismatch(&Layout::kernel(), vec![entry(0, BufferRole::Input)]);
    mismatch(&Layout::kernel(), vec![entry(1, BufferRole::Output)]);
    mismatch(&Layout::kernel(), vec![]);
}

#[test]
fn create_rejects_more_entries_than_slots() {
    mismatch(
        &Layout::kernel(),
        vec![
            entry(0, BufferRole::Input),
            entry(1, BufferRole::Output),
            entry(2, BufferRole::Output),
        ],
    );
    mismatch(&Layout { slots: vec![] }, vec![entry(0, BufferRole::Input)]);
}

#[test]
fn create_rejects_every_count_but_the_declared_one() {
    let layout = Layout { slots: vec![read(0), read(1), write(2), write(3)] };
    for count in 0..9u32 {
        let entries: Vec<BindEntry> = (0..count).map(|slot| entry(slot, BufferRole::Output)).collect();
        let made = BindGroup::create(&layout, &planned(), entries);
        assert_eq!(made.is_ok(), count == 4);
    }
}

#[test]
fn create_rejects_a_buffer_of_the_wrong_kind() {
    mismatch(
        &Layout::kernel(),
        vec![entry(0, BufferRole::Input), entry(1, BufferRole::Staging)],
    );
    mismatch(
        &Layout::kernel(),
        vec![entry(0, BufferRole::Staging), entry(1, BufferRole::Output)],
    );
}

#[test]
fn create_rejects_a_slot_named_twice() {
    mismatch(
        &Layout::kernel(),
        vec![entry(0, BufferRole::Input), entry(0, BufferRole::Output)],
    );
    mismatch(
        &Layout::kernel(),
        vec![entry(1, BufferRole::Input), entry(1, BufferRole::Output)],
    );
}

#[test]
fn create_rejects_a_slot_that_is_not_declared() {
    mismatch(
        &Layout::kernel(),
        vec![entry(0, BufferRole::Input), entry(7, BufferRole::Output)],
    );
}

#[test]
fn takes_tells_whether_one_entry_fits() {
    let layout = Layout::kernel();
    let buffers = planned();
    assert!(layout.takes(&buffers, entry(0, BufferRole::Input)));
    assert!(layout.takes(&buffers, entry(1, BufferRole::Output)));
    assert!(layout.takes(&buffers, entry(1, BufferRole::Input)));
    assert!(!layout.takes(&buffers, entry(0, BufferRole::Staging)));
    assert!(!layout.takes(&buffers, entry(2, BufferRole::Input)));
}
