//! The three buffers of a dispatch-and-readback cycle.
//!
//! The input buffer is created holding the array's bytes, so that upload and
//! allocation are one step. The output buffer has the same size, starts out
//! zeroed and receives what the kernel writes. The staging buffer has the same
//! size again and exists only to bring the output back to the host.

use crate::error::ErrorKind;
use crate::error::GpuError;
use crate::usage::Usage;
use crate::words::byte_size;
use crate::words::spec_byte_size;
use vstd::prelude::*;

verus! {

/// Which of the three buffers.
#[derive(Clone, Copy, Debug, PartialEq, Eq, Structural)]
pub enum BufferRole {
    Input,
    Output,
    Staging,
}

/// What a buffer holds when it comes into being.
#[derive(Clone, Copy, Debug, PartialEq, Eq, Structural)]
pub enum Fill {
    /// The array's bytes, uploaded as part of the allocation.
    Contents,
    /// Zero bytes; nothing is uploaded and the buffer is not mapped.
    Zeroed,
}

/// Everything the backend has to be told to create one buffer.
#[derive(Clone, Copy, Debug, PartialEq, Eq, Structural)]
pub struct BufferSpec {
    pub role: BufferRole,
    /// Size in bytes.
    pub size: u64,
    pub usage: Usage,
    pub fill: Fill,
}

/// The buffers of one cycle.
#[derive(Clone, Copy, Debug, PartialEq, Eq, Structural)]
pub struct BufferSet {
    pub input: BufferSpec,
    pub output: BufferSpec,
    pub staging: BufferSpec,
}

/// The buffers for an array that takes `size` bytes.
pub open spec fn spec_plan(size: u64) -> BufferSet {
    BufferSet {
        input: BufferSpec {
            role: BufferRole::Input,
            size,
            usage: Usage::spec_input(),
            fill: Fill::Contents,
        },
        output: BufferSpec {
            role: BufferRole::Output,
            size,
            usage: Usage::spec_output(),
            fill: Fill::Zeroed,
        },
        staging: BufferSpec {
            role: BufferRole::Staging,
            size,
            usage: Usage::spec_staging(),
            fill: Fill::Zeroed,
        },
    }
}

impl BufferSet {
    /// The buffer that plays `role`.
    pub open spec fn spec_get(&self, role: BufferRole) -> BufferSpec {
        match role {
            BufferRole::Input => self.input,
            BufferRole::Output => self.output,
            BufferRole::Staging => self.staging,
        }
    }

    /// The set is the plan for some non-empty array.
    pub open spec fn wf(&self) -> bool {
        &&& self.input.size > 0
        &&& self.input.size % 4 == 0
        &&& *self == spec_plan(self.input.size)
    }

    /// Plans the buffers for an array of `count` elements on a device that
    /// allocates at most `max_buffer_size` bytes per buffer.
    pub fn plan(count: usize, max_buffer_size: u64) -> (planned: Result<BufferSet, GpuError>)
        requires
            count > 0,
        ensures
            match planned {
                Ok(set) => {
                    &&& spec_byte_size(count as nat) <= max_buffer_size
                    &&& set.input.size == spec_byte_size(count as nat)
                    &&& set == spec_plan(set.input.size)
                    &&& set.wf()
                },
                Err(error) => {
                    &&& spec_byte_size(count as nat) > max_buffer_size
                    &&& error.kind == ErrorKind::AllocationFailed
                    &&& error.detail@.len() == 0
                },
            },
    {
        match byte_size(count) {
            Some(size) => {
                if size <= max_buffer_size {
                    Ok(
                        BufferSet {
                            input: BufferSpec {
                                role: BufferRole::Input,
                                size,
                                usage: Usage::input(),
                                fill: Fill::Contents,
                            },
                            output: BufferSpec {
                                role: BufferRole::Output,
                                size,
                                usage: Usage::output(),
                                fill: Fill::Zeroed,
                            },
                            staging: BufferSpec {
                                role: BufferRole::Staging,
                                size,
                                usage: Usage::staging(),
                                fill: Fill::Zeroed,
                            },
                        },
                    )
                } else {
                    Err(GpuError::found(ErrorKind::AllocationFailed))
                }
            },
            None => Err(GpuError::found(ErrorKind::AllocationFailed)),
        }
    }

    /// The buffer that plays `role`.
    pub fn get(&self, role: BufferRole) -> (spec: BufferSpec)
        ensures
            spec == self.spec_get(role),
    {
        match role {
            BufferRole::Input => self.input,
            BufferRole::Output => self.output,
            BufferRole::Staging => self.staging,
        }
    }
}

} // verus!
