//! Command recording.
//!
//! A command buffer is a finished list of commands. It is recorded once,
//! checked while it is recorded, and handed to the queue as a whole. The
//! checks are the ones that do not need a device: passes are opened and closed
//! properly, a dispatch has a pipeline and a bind group to work with, and a
//! copy only touches buffers whose capabilities allow it, within their bounds.

use crate::binding::KERNEL_GROUP;
use crate::buffers::BufferRole;
use crate::buffers::BufferSet;
use crate::usage::Capability;
use vstd::prelude::*;

verus! {

/// One recorded command.
#[derive(Clone, Copy, Debug, PartialEq, Eq, Structural)]
pub enum Command {
    /// Opens a compute pass.
    BeginComputePass,
    /// Binds the compute pipeline to the open pass.
    SetPipeline,
    /// Binds the bind group at `index`, without dynamic offsets.
    SetBindGroup { index: u32 },
    /// Runs the kernel over `x * y * z` workgroups.
    DispatchWorkgroups { x: u32, y: u32, z: u32 },
    /// Closes the open pass.
    EndComputePass,
    /// Copies `size` bytes from one buffer to another.
    CopyBufferToBuffer {
        source: BufferRole,
        source_offset: u64,
        destination: BufferRole,
        destination_offset: u64,
        size: u64,
    },
}

/// A finished recording. Values of this type only come from [`CommandBuffer::record`]
/// and the two recordings built on it, so each one has passed the checks.
#[derive(Debug)]
pub struct CommandBuffer {
    commands: Vec<Command>,
}

impl View for CommandBuffer {
    type V = Seq<Command>;

    closed spec fn view(&self) -> Seq<Command> {
        self.commands@
    }
}

/// What an encoder remembers between two commands.
pub struct Recording {
    /// A compute pass is open.
    pub in_pass: bool,
    /// The open pass has a pipeline.
    pub pipeline_set: bool,
    /// The open pass has the kernel's bind group.
    pub group_set: bool,
}

/// A fresh encoder.
pub open spec fn fresh() -> Recording {
    Recording { in_pass: false, pipeline_set: false, group_set: false }
}

/// Whether `command` may be recorded next.
pub open spec fn permitted(state: Recording, buffers: BufferSet, command: Command) -> bool {
    match command {
        Command::BeginComputePass => !state.in_pass,
        Command::SetPipeline => state.in_pass,
        Command::SetBindGroup { index } => state.in_pass && index == KERNEL_GROUP,
        Command::DispatchWorkgroups { .. } => state.in_pass && state.pipeline_set
            && state.group_set,
        Command::EndComputePass => state.in_pass,
        Command::CopyBufferToBuffer {
            source,
            source_offset,
            destination,
            destination_offset,
            size,
        } => {
            &&& !state.in_pass
            &&& source != destination
            &&& buffers.spec_get(source).usage@.contains(Capability::CopySource)
            &&& buffers.spec_get(destination).usage@.contains(Capability::CopyDestination)
            &&& source_offset + size <= buffers.spec_get(source).size
            &&& destination_offset + size <= buffers.spec_get(destination).size
        },
    }
}

/// What the encoder remembers once `command` is recorded.
pub open spec fn after(state: Recording, command: Command) -> Recording {
    match command {
        Command::BeginComputePass => Recording {
            in_pass: true,
            pipeline_set: false,
            group_set: false,
        },
        Command::SetPipeline => Recording { pipeline_set: true, ..state },
        Command::SetBindGroup { .. } => Recording { group_set: true, ..state },
        Command::DispatchWorkgroups { .. } => state,
        Command::EndComputePass => fresh(),
        Command::CopyBufferToBuffer { .. } => state,
    }
}

/// Every command is permitted where it stands, and no pass is left open.
pub open spec fn recordable(state: Recording, buffers: BufferSet, commands: Seq<Command>) -> bool
    decreases commands.len(),
{
    if commands.len() == 0 {
        !state.in_pass
    } else {
        permitted(state, buffers, commands[0]) && recordable(
            after(state, commands[0]),
            buffers,
            commands.drop_first(),
        )
    }
}

/// The commands can be recorded by a fresh encoder, for these buffers.
pub open spec fn well_formed(buffers: BufferSet, commands: Seq<Command>) -> bool {
    recordable(fresh(), buffers, commands)
}

/// The compute phase: one pass that binds the pipeline and the kernel's bind
/// group and dispatches a single workgroup.
pub open spec fn compute_commands() -> Seq<Command> {
    seq![
        Command::BeginComputePass,
        Command::SetPipeline,
        Command::SetBindGroup { index: KERNEL_GROUP },
        Command::DispatchWorkgroups { x: 1, y: 1, z: 1 },
        Command::EndComputePass,
    ]
}

/// The readback phase: the whole output buffer is copied to the staging
/// buffer.
pub open spec fn readback_commands(buffers: BufferSet) -> Seq<Command> {
    seq![
        Command::CopyBufferToBuffer {
            source: BufferRole::Output,
            source_offset: 0,
            destination: BufferRole::Staging,
            destination_offset: 0,
            size: buffers.output.size,
        },
    ]
}

/// The compute phase can be recorded whatever the buffers are.
pub proof fn lemma_compute_well_formed(buffers: BufferSet)
    ensures
        well_formed(buffers, compute_commands()),
{
    let c0 = compute_commands();
    let c1 = c0.drop_first();
    let c2 = c1.drop_first();
    let c3 = c2.drop_first();
    let c4 = c3.drop_first();
    let c5 = c4.drop_first();
    let s1 = after(fresh(), c0[0]);
    let s2 = after(s1, c1[0]);
    let s3 = after(s2, c2[0]);
    let s4 = after(s3, c3[0]);
    let s5 = after(s4, c4[0]);
    assert(recordable(s5, buffers, c5));
    assert(recordable(s4, buffers, c4));
    assert(recordable(s3, buffers, c3));
    assert(recordable(s2, buffers, c2));
    assert(recordable(s1, buffers, c1));
}

/// The readback phase can be recorded for planned buffers: the output buffer
/// may be copied from, the staging buffer may be copied to, and the copy
/// covers both exactly.
pub proof fn lemma_readback_well_formed(buffers: BufferSet)
    requires
        buffers.wf(),
    ensures
        well_formed(buffers, readback_commands(buffers)),
{
    let c0 = readback_commands(buffers);
    let c1 = c0.drop_first();
    assert(permitted(fresh(), buffers, c0[0]));
    assert(recordable(after(fresh(), c0[0]), buffers, c1));
}

impl Recording {
    fn start() -> (state: Recording)
        ensures
            state == fresh(),
    {
        Recording { in_pass: false, pipeline_set: false, group_set: false }
    }

    fn permits(&self, buffers: &BufferSet, command: Command) -> (allowed: bool)
        ensures
            allowed == permitted(*self, *buffers, command),
    {
        match command {
            Command::BeginComputePass => !self.in_pass,
            Command::SetPipeline => self.in_pass,
            Command::SetBindGroup { index } => self.in_pass && index == KERNEL_GROUP,
            Command::DispatchWorkgroups { .. } => self.in_pass && self.pipeline_set
                && self.group_set,
            Command::EndComputePass => self.in_pass,
            Command::CopyBufferToBuffer {
                source,
                source_offset,
                destination,
                destination_offset,
                size,
            } => {
                let from = buffers.get(source);
                let to = buffers.get(destination);
                !self.in_pass && source != destination && from.usage.allows(
                    Capability::CopySource,
                ) && to.usage.allows(Capability::CopyDestination) && size <= from.size
                    && source_offset <= from.size - size && size <= to.size && destination_offset
                    <= to.size - size
            },
        }
    }

    fn record(&self, command: Command) -> (state: Recording)
        ensures
            state == after(*self, command),
    {
        match command {
            Command::BeginComputePass => Recording {
                in_pass: true,
                pipeline_set: false,
                group_set: false,
            },
            Command::SetPipeline => Recording {
                in_pass: self.in_pass,
                pipeline_set: true,
                group_set: self.group_set,
            },
            Command::SetBindGroup { .. } => Recording {
                in_pass: self.in_pass,
                pipeline_set: self.pipeline_set,
                group_set: true,
            },
            Command::DispatchWorkgroups { .. } => Recording {
                in_pass: self.in_pass,
                pipeline_set: self.pipeline_set,
                group_set: self.group_set,
            },
            Command::EndComputePass => Recording::start(),
            Command::CopyBufferToBuffer { .. } => Recording {
                in_pass: self.in_pass,
                pipeline_set: self.pipeline_set,
                group_set: self.group_set,
            },
        }
    }
}

impl CommandBuffer {
    /// Finishes a recording of `commands` for the given buffers. Returns the
    /// command buffer exactly when the commands are well formed.
    pub fn record(buffers: &BufferSet, commands: Vec<Command>) -> (recorded: Option<CommandBuffer>)
        ensures
            match recorded {
                Some(buffer) => well_formed(*buffers, commands@) && buffer@ == commands@,
                None => !well_formed(*buffers, commands@),
            },
    {
        let mut state = Recording::start();
        let mut i: usize = 0;
        assert(commands@.skip(0) =~= commands@);
        while i < commands.len()
            invariant
                0 <= i <= commands.len(),
                well_formed(*buffers, commands@) == recordable(
                    state,
                    *buffers,
                    commands@.skip(i as int),
                ),
            decreases commands.len() - i,
        {
            let command = commands[i];
            proof {
                let rest = commands@.skip(i as int);
                assert(rest[0] == command);
                assert(rest.drop_first() =~= commands@.skip(i + 1));
            }
            if !state.permits(buffers, command) {
                return None;
            }
            state = state.record(command);
            i += 1;
        }
        assert(commands@.skip(i as int).len() == 0);
        if state.in_pass {
            None
        } else {
            Some(CommandBuffer { commands })
        }
    }

    /// Records the compute phase.
    pub fn compute(buffers: &BufferSet) -> (recorded: CommandBuffer)
        ensures
            recorded@ == compute_commands(),
            well_formed(*buffers, recorded@),
    {
        let mut commands: Vec<Command> = Vec::new();
        commands.push(Command::BeginComputePass);
        commands.push(Command::SetPipeline);
        commands.push(Command::SetBindGroup { index: KERNEL_GROUP });
        commands.push(Command::DispatchWorkgroups { x: 1, y: 1, z: 1 });
        commands.push(Command::EndComputePass);
        proof {
            assert(commands@ =~= compute_commands());
            lemma_compute_well_formed(*buffers);
        }
        CommandBuffer { commands }
    }

    /// Records the readback phase. Succeeds exactly when the copy is
    /// permitted for these buffers, which it is for every planned set.
    pub fn readback(buffers: &BufferSet) -> (recorded: Option<CommandBuffer>)
        ensures
            match recorded {
                Some(buffer) => {
                    &&& buffer@ == readback_commands(*buffers)
                    &&& well_formed(*buffers, buffer@)
                },
                None => !well_formed(*buffers, readback_commands(*buffers)),
            },
            buffers.wf() ==> recorded is Some,
    {
        let mut commands: Vec<Command> = Vec::new();
        commands.push(
            Command::CopyBufferToBuffer {
                source: BufferRole::Output,
                source_offset: 0,
                destination: BufferRole::Staging,
                destination_offset: 0,
                size: buffers.output.size,
            },
        );
        proof {
            assert(commands@ =~= readback_commands(*buffers));
            if buffers.wf() {
                lemma_readback_well_formed(*buffers);
            }
        }
        CommandBuffer::record(buffers, commands)
    }

    /// The commands, in recording order.
    pub fn commands(&self) -> (commands: &Vec<Command>)
        ensures
            commands@ == self@,
    {
        &self.commands
    }
}

} // verus!
