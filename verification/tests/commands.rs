use compute_dispatch::buffers::BufferRole;
use compute_dispatch::buffers::BufferSet;
use compute_dispatch::commands::Command;
use compute_dispatch::commands::CommandBuffer;
use compute_dispatch::usage::Capability;

fn planned() -> BufferSet {
    BufferSet::plan(8, 1 << 28).expect("thirty-two bytes fit")
}

fn copy(source: BufferRole, source_offset: u64, destination: BufferRole, destination_offset: u64, size: u64) -> Command {
    Command::CopyBufferToBuffer { source, source_offset, destination, destination_offset, size }
}

fn pass(inner: Vec<Command>) -> Vec<Command> {
    let mut commands = vec![Command::BeginComputePass];
    commands.extend(inner);
    commands.push(Command::EndComputePass);
    commands
}

fn accepted(commands: Vec<Command>) -> bool {
    match CommandBuffer::record(&planned(), commands.clone()) {
        Some(buffer) => {
            assert_eq!(buffer.commands(), &commands);
            true
        }
        None => false,
    }
}

#[test]
fn compute_phase_is_one_pass_with_one_workgroup() {
    let buffer = CommandBuffer::compute(&planned());
    assert_eq!(
        buffer.commands(),
        &vec![
            Command::BeginComputePass,
            Command::SetPipeline,
            Command::SetBindGroup { index: 0 },
            Command::DispatchWorkgroups { x: 1, y: 1, z: 1 },
            Command::EndComputePass,
        ]
    );
}

#[test]
fn readback_phase_copies_the_whole_output_to_staging() {
    let buffer = CommandBuffer::readback(&planned()).expect("planned buffers allow the copy");
    assert_eq!(
        buffer.commands(),
        &vec![copy(BufferRole::Output, 0, BufferRole::Staging, 0, 32)]
    );
}

#[test]
fn readback_phase_is_refused_without_the_capabilities() {
    let mut buffers = planned();
    buffers.output.usage.copy_source = false;
    assert!(CommandBuffer::readback(&buffers).is_none());
    let mut buffers = planned();
    buffers.staging.usage.copy_destination = false;
    assert!(CommandBuffer::readback(&buffers).is_none());
    let mut buffers = planned();
    buffers.staging.size = 16;
    assert!(CommandBuffer::readback(&buffers).is_none());
}

#[test]
fn both_phases_pass_the_recording_checks() {
    let buffers = planned();
    let compute = CommandBuffer::compute(&buffers).commands().clone();
    let readback = CommandBuffer::readback(&buffers).expect("allowed").commands().clone();
    assert!(accepted(compute));
    assert!(accepted(readback));
}

#[test]
fn an_empty_recording_is_fine() {
    assert!(accepted(vec![]));
}

#[test]
fn a_pass_must_be_closed() {
    assert!(!accepted(vec![Command::BeginComputePass]));
    assert!(!accepted(vec![Command::BeginComputePass, Command::SetPipeline]));
    assert!(accepted(pass(vec![])));
}

#[test]
fn a_pass_cannot_be_opened_inside_a_pass() {
    assert!(!accepted(pass(vec![Command::BeginComputePass])));
    assert!(!accepted(vec![
        Command::BeginComputePass,
        Command::BeginComputePass,
        Command::EndComputePass,
        Command::EndComputePass,
    ]));
}

#[test]
fn pass_commands_need_an_open_pass() {
    assert!(!accepted(vec![Command::SetPipeline]));
    assert!(!accepted(vec![Command::SetBindGroup { index: 0 }]));
    assert!(!accepted(vec![Command::DispatchWorkgroups { x: 1, y: 1, z: 1 }]));
    assert!(!accepted(vec![Command::EndComputePass]));
}

#[test]
fn a_dispatch_needs_pipeline_and_bind_group() {
    let dispatch = Command::DispatchWorkgroups { x: 1, y: 1, z: 1 };
    assert!(!accepted(pass(vec![dispatch])));
    assert!(!accepted(pass(vec![Command::SetPipeline, dispatch])));
    assert!(!accepted(pass(vec![Command::SetBindGroup { index: 0 }, dispatch])));
    assert!(accepted(pass(vec![Command::SetBindGroup { index: 0 }, Command::SetPipeline, dispatch])));
    assert!(accepted(pass(vec![Command::SetPipeline, Command::SetBindGroup { index: 0 }, dispatch, dispatch])));
}

#[test]
fn bindings_do_not_carry_over_to_the_next_pass() {
    let dispatch = Command::DispatchWorkgroups { x: 1, y: 1, z: 1 };
    let mut commands = pass(vec![Command::SetPipeline, Command::SetBindGroup { index: 0 }, dispatch]);
    commands.extend(pass(vec![dispatch]));
    assert!(!accepted(commands));
}

#[test]
fn only_the_kernels_bind_group_can_be_set() {
    assert!(!accepted(pass(vec![Command::SetBindGroup { index: 1 }])));
    assert!(accepted(pass(vec![Command::SetBindGroup { index: 0 }])));
}

#[test]
fn a_copy_needs_a_source_that_allows_it() {
    assert!(!accepted(vec![copy(BufferRole::Input, 0, BufferRole::Staging, 0, 32)]));
    assert!(!accepted(vec![copy(BufferRole::Staging, 0, BufferRole::Staging, 0, 32)]));
    let mut buffers = planned();
    buffers.input.usage = buffers.input.usage.with(Capability::CopySource);
    let commands = vec![copy(BufferRole::Input, 0, BufferRole::Staging, 0, 32)];
    assert!(CommandBuffer::record(&buffers, commands).is_some());
}

#[test]
fn a_copy_needs_a_destination_that_allows_it() {
    assert!(!accepted(vec![copy(BufferRole::Output, 0, BufferRole::Input, 0, 32)]));
    assert!(!accepted(vec![copy(BufferRole::Output, 0, BufferRole::Output, 0, 32)]));
}

#[test]
fn a_copy_stays_inside_both_buffers() {
    assert!(accepted(vec![copy(BufferRole::Output, 0, BufferRole::Staging, 0, 32)]));
    assert!(accepted(vec![copy(BufferRole::Output, 8, BufferRole::Staging, 16, 16)]));
    assert!(accepted(vec![copy(BufferRole::Output, 32, BufferRole::Staging, 32, 0)]));
    assert!(!accepted(vec![copy(BufferRole::Output, 0, BufferRole::Staging, 0, 33)]));
    assert!(!accepted(vec![copy(BufferRole::Output, 4, BufferRole::Staging, 0, 32)]));
    assert!(!accepted(vec![copy(BufferRole::Output, 0, BufferRole::Staging, 4, 32)]));
    assert!(!accepted(vec![copy(BufferRole::Output, u64::MAX, BufferRole::Staging, 0, 4)]));
    assert!(!accepted(vec![copy(BufferRole::Output, 0, BufferRole::Staging, u64::MAX, u64::MAX)]));
}

#[test]
fn a_copy_cannot_be_recorded_inside_a_pass() {
    assert!(!accepted(pass(vec![copy(BufferRole::Output, 0, BufferRole::Staging, 0, 32)])));
}

#[test]
fn compute_and_copy_can_share_a_recording() {
    let mut commands = pass(vec![
        Command::SetPipeline,
        Command::SetBindGroup { index: 0 },
        Command::DispatchWorkgroups { x: 1, y: 1, z: 1 },
    ]);
    commands.push(copy(BufferRole::Output, 0, BufferRole::Staging, 0, 32));
    assert!(accepted(commands));
}
