//! The order of a dispatch-and-readback cycle.
//!
//! A [`Session`] decides what the backend is asked to do next. The caller owns
//! the device: it carries out the pending [`Step`], reports what happened as an
//! [`Event`], and is told the step that follows. The cycle runs once, front to
//! back: adapter and device, kernel and pipeline, the three buffers, the bind
//! group, the compute submission, the readback submission, mapping, polling,
//! reading, unmapping. The first failure ends it; nothing is retried and no
//! partial result is kept.

use crate::binding::fits;
use crate::binding::kernel_entries;
use crate::binding::BindEntry;
use crate::binding::BindGroup;
use crate::binding::Layout;
use crate::binding::Slot;
use crate::buffers::spec_plan;
use crate::buffers::BufferSet;
use crate::commands::compute_commands;
use crate::commands::readback_commands;
use crate::commands::well_formed;
use crate::commands::CommandBuffer;
use crate::error::ErrorKind;
use crate::error::GpuError;
use crate::words::decode_words;
use crate::words::encode_words;
use crate::words::lemma_decode_encode;
use crate::words::spec_byte_size;
use crate::words::spec_decode;
use crate::words::spec_encode;
use vstd::prelude::*;

verus! {

/// What the backend is asked to do.
#[derive(Clone, Copy, Debug, PartialEq, Eq, Structural)]
pub enum Step {
    /// Request an adapter with default selection criteria.
    RequestAdapter,
    /// Request a device and its queue with default features and limits.
    RequestDevice,
    /// Compile the kernel's source text into a shader module.
    CompileKernel,
    /// Build the compute pipeline from the module and the entry point,
    /// leaving the bind-group layout to be inferred.
    CreatePipeline,
    /// Create the input buffer together with its contents.
    CreateInputBuffer,
    /// Create the output buffer.
    CreateOutputBuffer,
    /// Create the staging buffer.
    CreateStagingBuffer,
    /// Take the pipeline's layout for the kernel's bind group and create the
    /// bind group.
    CreateBindGroup,
    /// Encode the compute pass and submit it.
    SubmitCompute,
    /// Encode the copy from output to staging and submit it.
    SubmitReadback,
    /// Ask for the staging buffer to be mapped for reading.
    MapStaging,
    /// Poll the device, waiting until all submitted work is done.
    Poll,
    /// Take a view of the mapped staging buffer, copy its bytes out, and
    /// release the view.
    ReadView,
    /// Unmap the staging buffer.
    Unmap,
    /// Nothing: the cycle is complete and the output is available.
    Finished,
    /// Nothing: the cycle has failed.
    Failed,
}

/// What the backend reports about the pending step.
#[derive(Debug)]
pub enum Event {
    /// The step was carried out.
    Completed,
    /// The device was opened; it allocates buffers of at most this many bytes.
    DeviceReady { max_buffer_size: u64 },
    /// The bytes seen through the view of the mapped staging buffer.
    View { bytes: Vec<u8> },
    /// The backend could not carry out the step.
    Refused { detail: String },
}

/// An [`Event`] as a mathematical value.
pub enum EventView {
    Completed,
    DeviceReady { max_buffer_size: u64 },
    View { bytes: Seq<u8> },
    Refused { detail: Seq<char> },
}

impl View for Event {
    type V = EventView;

    open spec fn view(&self) -> EventView {
        match self {
            Event::Completed => EventView::Completed,
            Event::DeviceReady { max_buffer_size } => EventView::DeviceReady {
                max_buffer_size: *max_buffer_size,
            },
            Event::View { bytes } => EventView::View { bytes: bytes@ },
            Event::Refused { detail } => EventView::Refused { detail: detail@ },
        }
    }
}

impl EventView {
    /// What the backend said, if it refused.
    pub open spec fn detail(self) -> Seq<char> {
        match self {
            EventView::Refused { detail } => detail,
            _ => Seq::empty(),
        }
    }
}

impl Step {
    /// Position of the step in the cycle.
    pub open spec fn index(self) -> nat {
        match self {
            Step::RequestAdapter => 0,
            Step::RequestDevice => 1,
            Step::CompileKernel => 2,
            Step::CreatePipeline => 3,
            Step::CreateInputBuffer => 4,
            Step::CreateOutputBuffer => 5,
            Step::CreateStagingBuffer => 6,
            Step::CreateBindGroup => 7,
            Step::SubmitCompute => 8,
            Step::SubmitReadback => 9,
            Step::MapStaging => 10,
            Step::Poll => 11,
            Step::ReadView => 12,
            Step::Unmap => 13,
            Step::Finished => 14,
            Step::Failed => 15,
        }
    }

    /// The step that follows when this one was carried out.
    pub open spec fn spec_successor(self) -> Step {
        match self {
            Step::RequestAdapter => Step::RequestDevice,
            Step::RequestDevice => Step::CompileKernel,
            Step::CompileKernel => Step::CreatePipeline,
            Step::CreatePipeline => Step::CreateInputBuffer,
            Step::CreateInputBuffer => Step::CreateOutputBuffer,
            Step::CreateOutputBuffer => Step::CreateStagingBuffer,
            Step::CreateStagingBuffer => Step::CreateBindGroup,
            Step::CreateBindGroup => Step::SubmitCompute,
            Step::SubmitCompute => Step::SubmitReadback,
            Step::SubmitReadback => Step::MapStaging,
            Step::MapStaging => Step::Poll,
            Step::Poll => Step::ReadView,
            Step::ReadView => Step::Unmap,
            Step::Unmap => Step::Finished,
            Step::Finished => Step::Finished,
            Step::Failed => Step::Failed,
        }
    }

    /// The failure that is raised when the step cannot be carried out.
    pub open spec fn spec_failure(self) -> ErrorKind {
        match self {
            Step::RequestAdapter => ErrorKind::NoAdapterFound,
            Step::RequestDevice => ErrorKind::DeviceCreationFailed,
            Step::CompileKernel => ErrorKind::ShaderCompilationError,
            Step::CreatePipeline => ErrorKind::ShaderCompilationError,
            Step::CreateInputBuffer => ErrorKind::AllocationFailed,
            Step::CreateOutputBuffer => ErrorKind::AllocationFailed,
            Step::CreateStagingBuffer => ErrorKind::AllocationFailed,
            Step::CreateBindGroup => ErrorKind::BindingLayoutMismatch,
            _ => ErrorKind::PollFailed,
        }
    }

    /// Whether `event` reports that the step was carried out. Opening the
    /// device is answered with the device's limit, reading the view with the
    /// bytes seen, everything else with a plain completion.
    pub open spec fn accepts(self, event: EventView) -> bool {
        match self {
            Step::RequestDevice => event is DeviceReady,
            Step::ReadView => event is View,
            Step::Finished => false,
            Step::Failed => false,
            _ => event is Completed,
        }
    }

    /// The failure that is raised when the step cannot be carried out.
    pub fn failure(self) -> (kind: ErrorKind)
        ensures
            kind == self.spec_failure(),
    {
        match self {
            Step::RequestAdapter => ErrorKind::NoAdapterFound,
            Step::RequestDevice => ErrorKind::DeviceCreationFailed,
            Step::CompileKernel => ErrorKind::ShaderCompilationError,
            Step::CreatePipeline => ErrorKind::ShaderCompilationError,
            Step::CreateInputBuffer => ErrorKind::AllocationFailed,
            Step::CreateOutputBuffer => ErrorKind::AllocationFailed,
            Step::CreateStagingBuffer => ErrorKind::AllocationFailed,
            Step::CreateBindGroup => ErrorKind::BindingLayoutMismatch,
            _ => ErrorKind::PollFailed,
        }
    }

    fn successor(self) -> (next: Step)
        ensures
            next == self.spec_successor(),
    {
        match self {
            Step::RequestAdapter => Step::RequestDevice,
            Step::RequestDevice => Step::CompileKernel,
            Step::CompileKernel => Step::CreatePipeline,
            Step::CreatePipeline => Step::CreateInputBuffer,
            Step::CreateInputBuffer => Step::CreateOutputBuffer,
            Step::CreateOutputBuffer => Step::CreateStagingBuffer,
            Step::CreateStagingBuffer => Step::CreateBindGroup,
            Step::CreateBindGroup => Step::SubmitCompute,
            Step::SubmitCompute => Step::SubmitReadback,
            Step::SubmitReadback => Step::MapStaging,
            Step::MapStaging => Step::Poll,
            Step::Poll => Step::ReadView,
            Step::ReadView => Step::Unmap,
            Step::Unmap => Step::Finished,
            Step::Finished => Step::Finished,
            Step::Failed => Step::Failed,
        }
    }
}

/// A [`Session`] as a mathematical value.
pub struct SessionView {
    /// The step the backend is asked to carry out.
    pub step: Step,
    /// Why the cycle failed, once it has.
    pub failure: Option<ErrorKind>,
    /// The array to be uploaded.
    pub input: Seq<u32>,
    /// The slots the kernel declares.
    pub layout: Seq<Slot>,
    /// The device's limit on the size of a buffer, once the device is open.
    pub limit: Option<u64>,
    /// The planned buffers, once the pipeline stands.
    pub buffers: Option<BufferSet>,
    /// The wiring, once the buffers stand.
    pub group: Option<Seq<BindEntry>>,
    /// The array read back, once the view has been read.
    pub output: Option<Seq<u32>>,
}

impl SessionView {
    /// The session before anything has happened.
    pub open spec fn start(input: Seq<u32>, layout: Seq<Slot>) -> SessionView {
        SessionView {
            step: Step::RequestAdapter,
            failure: None,
            input,
            layout,
            limit: None,
            buffers: None,
            group: None,
            output: None,
        }
    }

    /// The session after a failure: everything gathered so far is dropped.
    pub open spec fn failed(self, kind: ErrorKind) -> SessionView {
        SessionView {
            step: Step::Failed,
            failure: Some(kind),
            input: self.input,
            layout: self.layout,
            limit: None,
            buffers: None,
            group: None,
            output: None,
        }
    }

    /// The session after `event` was reported for the pending step.
    ///
    /// A finished or failed session stays as it is. An event that does not
    /// report the pending step as carried out fails the cycle with that
    /// step's failure. Otherwise the cycle moves on, with three decisions
    /// made on the host: the buffers are planned against the device's limit
    /// once the pipeline stands, the wiring is checked against the kernel's
    /// layout once the buffers stand, and a view is only decoded when it has
    /// exactly the size of the staging buffer.
    pub open spec fn advance(self, event: EventView) -> SessionView {
        if self.step == Step::Finished || self.step == Step::Failed {
            self
        } else if !self.step.accepts(event) {
            self.failed(self.step.spec_failure())
        } else {
            match self.step {
                Step::RequestDevice => SessionView {
                    step: Step::CompileKernel,
                    limit: Some(event->max_buffer_size),
                    ..self
                },
                Step::CreatePipeline => if spec_byte_size(self.input.len())
                    <= self.limit.unwrap() {
                    SessionView {
                        step: Step::CreateInputBuffer,
                        buffers: Some(spec_plan(spec_byte_size(self.input.len()) as u64)),
                        ..self
                    }
                } else {
                    self.failed(ErrorKind::AllocationFailed)
                },
                Step::CreateStagingBuffer => if fits(
                    self.layout,
                    self.buffers.unwrap(),
                    kernel_entries(),
                ) {
                    SessionView {
                        step: Step::CreateBindGroup,
                        group: Some(kernel_entries()),
                        ..self
                    }
                } else {
                    self.failed(ErrorKind::BindingLayoutMismatch)
                },
                Step::ReadView => if event->bytes.len() == self.buffers.unwrap().staging.size {
                    SessionView {
                        step: Step::Unmap,
                        output: Some(spec_decode(event->bytes)),
                        ..self
                    }
                } else {
                    self.failed(ErrorKind::PollFailed)
                },
                _ => SessionView { step: self.step.spec_successor(), ..self },
            }
        }
    }

    /// The session after a sequence of events, reported one after the other.
    pub open spec fn run(self, events: Seq<EventView>) -> SessionView
        decreases events.len(),
    {
        if events.len() == 0 {
            self
        } else {
            self.run(events.drop_last()).advance(events.last())
        }
    }

    /// What holds of every session that was started and advanced.
    pub open spec fn wf(self) -> bool {
        let i = self.step.index();
        let size = spec_byte_size(self.input.len());
        &&& self.input.len() > 0
        &&& self.failure is Some <==> self.step == Step::Failed
        &&& self.limit is Some <==> 2 <= i <= 14
        &&& self.buffers is Some <==> 4 <= i <= 14
        &&& self.group is Some <==> 7 <= i <= 14
        &&& self.output is Some <==> 13 <= i <= 14
        &&& self.buffers is Some ==> {
            &&& size <= self.limit.unwrap()
            &&& self.buffers.unwrap() == spec_plan(size as u64)
            &&& self.buffers.unwrap().wf()
        }
        &&& self.group is Some ==> {
            &&& self.group.unwrap() == kernel_entries()
            &&& fits(self.layout, self.buffers.unwrap(), kernel_entries())
        }
        &&& self.output is Some ==> self.output.unwrap().len() == self.input.len()
    }
}

/// The step at position `i` of the cycle.
pub open spec fn step_at(i: int) -> Step {
    if i == 0 {
        Step::RequestAdapter
    } else if i == 1 {
        Step::RequestDevice
    } else if i == 2 {
        Step::CompileKernel
    } else if i == 3 {
        Step::CreatePipeline
    } else if i == 4 {
        Step::CreateInputBuffer
    } else if i == 5 {
        Step::CreateOutputBuffer
    } else if i == 6 {
        Step::CreateStagingBuffer
    } else if i == 7 {
        Step::CreateBindGroup
    } else if i == 8 {
        Step::SubmitCompute
    } else if i == 9 {
        Step::SubmitReadback
    } else if i == 10 {
        Step::MapStaging
    } else if i == 11 {
        Step::Poll
    } else if i == 12 {
        Step::ReadView
    } else if i == 13 {
        Step::Unmap
    } else {
        Step::Finished
    }
}

/// The reports of a cycle in which everything goes well: the device is
/// opened with the given limit and the view shows the given bytes.
pub open spec fn smooth_events(limit: u64, bytes: Seq<u8>) -> Seq<EventView> {
    Seq::new(
        14,
        |i: int|
            if i == 1 {
                EventView::DeviceReady { max_buffer_size: limit }
            } else if i == 12 {
                EventView::View { bytes }
            } else {
                EventView::Completed
            },
    )
}

/// Advancing keeps a session well formed.
pub proof fn lemma_advance_wf(session: SessionView, event: EventView)
    requires
        session.wf(),
    ensures
        session.advance(event).wf(),
{
}

/// Reporting one more event is advancing once more.
pub proof fn lemma_run_push(session: SessionView, events: Seq<EventView>, event: EventView)
    ensures
        session.run(events.push(event)) == session.run(events).advance(event),
{
    assert(events.push(event).drop_last() =~= events);
}

/// Where a started session stands after any sequence of reports.
///
/// It is well formed. Unless it has failed, it has moved one step per report
/// until it finished, every report so far was the one its step waits for, and
/// an output it holds is what the view's bytes decode to.
pub proof fn lemma_run_follows_cycle(input: Seq<u32>, layout: Seq<Slot>, events: Seq<EventView>)
    requires
        input.len() > 0,
    ensures
        ({
            let end = SessionView::start(input, layout).run(events);
            let done = if events.len() < 14 {
                events.len() as int
            } else {
                14
            };
            &&& end.wf()
            &&& end.input == input
            &&& end.layout == layout
            &&& end.step != Step::Failed ==> {
                &&& end.step == step_at(done)
                &&& forall|i: int| 0 <= i < done ==> step_at(i).accepts(#[trigger] events[i])
                &&& done >= 13 ==> {
                    &&& events[12]->bytes.len() == spec_byte_size(input.len())
                    &&& end.output == Some(spec_decode(events[12]->bytes))
                }
            }
        }),
    decreases events.len(),
{
    let start = SessionView::start(input, layout);
    if events.len() > 0 {
        let before = events.drop_last();
        lemma_run_follows_cycle(input, layout, before);
        lemma_advance_wf(start.run(before), events.last());
        let end = start.run(events);
        if end.step != Step::Failed {
            assert forall|i: int| 0 <= i < events.len() && i < 14 implies step_at(i).accepts(
                #[trigger] events[i],
            ) by {
                if i < before.len() {
                    assert(before[i] == events[i]);
                }
            }
            if before.len() >= 13 {
                assert(before[12] == events[12]);
            }
        }
    }
}

/// Polling to completion is a hard precondition of reading: whatever is
/// reported and in whatever order, a session only ever holds an output if the
/// readback was submitted, the mapping was requested and the device was polled
/// to completion, in that order, before the view was read; and the output is
/// then exactly what the view's bytes decode to, all of them.
pub proof fn lemma_output_needs_poll(input: Seq<u32>, layout: Seq<Slot>, events: Seq<EventView>)
    requires
        input.len() > 0,
    ensures
        ({
            let end = SessionView::start(input, layout).run(events);
            end.output is Some ==> {
                &&& events.len() >= 13
                &&& events[9] is Completed
                &&& events[10] is Completed
                &&& events[11] is Completed
                &&& events[12] is View
                &&& events[12]->bytes.len() == spec_byte_size(input.len())
                &&& end.output == Some(spec_decode(events[12]->bytes))
            }
        }),
{
    lemma_run_follows_cycle(input, layout, events);
    let end = SessionView::start(input, layout).run(events);
    if end.output is Some {
        assert(step_at(9).accepts(events[9]));
        assert(step_at(10).accepts(events[10]));
        assert(step_at(11).accepts(events[11]));
        assert(step_at(12).accepts(events[12]));
    }
}

/// Two cycles on the same input give the same output whenever the device
/// shows the same bytes in the view, that is, whenever the kernel is
/// deterministic. Nothing else that is reported has any influence.
pub proof fn lemma_same_view_same_output(
    input: Seq<u32>,
    layout: Seq<Slot>,
    first: Seq<EventView>,
    second: Seq<EventView>,
)
    requires
        input.len() > 0,
        SessionView::start(input, layout).run(first).output is Some,
        SessionView::start(input, layout).run(second).output is Some,
        first[12] == second[12],
    ensures
        SessionView::start(input, layout).run(first).output == SessionView::start(
            input,
            layout,
        ).run(second).output,
{
    lemma_output_needs_poll(input, layout, first);
    lemma_output_needs_poll(input, layout, second);
}

/// If the device hands back the bytes that were uploaded, the array read
/// back is the array that was sent, element for element.
pub proof fn lemma_round_trip(session: SessionView)
    requires
        session.wf(),
        session.step == Step::ReadView,
    ensures
        session.advance(EventView::View { bytes: spec_encode(session.input) }).step
            == Step::Unmap,
        session.advance(EventView::View { bytes: spec_encode(session.input) }).output == Some(
            session.input,
        ),
{
    lemma_decode_encode(session.input);
}

/// A cycle in which the backend carries out every step finishes, provided
/// the array fits the device's limit and the kernel's layout takes the
/// conventional wiring; the output is what the view's bytes decode to.
pub proof fn lemma_smooth_cycle_finishes(
    input: Seq<u32>,
    layout: Seq<Slot>,
    limit: u64,
    bytes: Seq<u8>,
)
    requires
        input.len() > 0,
        spec_byte_size(input.len()) <= limit,
        fits(layout, spec_plan(spec_byte_size(input.len()) as u64), kernel_entries()),
        bytes.len() == spec_byte_size(input.len()),
    ensures
        SessionView::start(input, layout).run(smooth_events(limit, bytes)).step == Step::Finished,
        SessionView::start(input, layout).run(smooth_events(limit, bytes)).output == Some(
            spec_decode(bytes),
        ),
{
    let events = smooth_events(limit, bytes);
    let start = SessionView::start(input, layout);
    lemma_smooth_prefix(input, layout, limit, bytes, 14);
    assert(events.take(14) =~= events);
}

/// The first `n` reports of a smooth cycle carry the session `n` steps on.
proof fn lemma_smooth_prefix(
    input: Seq<u32>,
    layout: Seq<Slot>,
    limit: u64,
    bytes: Seq<u8>,
    n: int,
)
    requires
        input.len() > 0,
        spec_byte_size(input.len()) <= limit,
        fits(layout, spec_plan(spec_byte_size(input.len()) as u64), kernel_entries()),
        bytes.len() == spec_byte_size(input.len()),
        0 <= n <= 14,
    ensures
        ({
            let end = SessionView::start(input, layout).run(smooth_events(limit, bytes).take(n));
            &&& end.wf()
            &&& end.input == input
            &&& end.layout == layout
            &&& end.step == step_at(n)
            &&& n >= 2 ==> end.limit == Some(limit)
            &&& n >= 13 ==> end.output == Some(spec_decode(bytes))
        }),
    decreases n,
{
    let events = smooth_events(limit, bytes);
    let start = SessionView::start(input, layout);
    if n > 0 {
        lemma_smooth_prefix(input, layout, limit, bytes, n - 1);
        assert(events.take(n) =~= events.take(n - 1).push(events[n - 1]));
        lemma_run_push(start, events.take(n - 1), events[n - 1]);
        lemma_advance_wf(start.run(events.take(n - 1)), events[n - 1]);
    } else {
        assert(events.take(0).len() == 0);
    }
}

/// The entry point of the kernel.
pub fn entry_point() -> (name: &'static str)
    ensures
        name@ == "main"@,
{
    "main"
}

/// One dispatch-and-readback cycle.
#[derive(Debug)]
pub struct Session {
    step: Step,
    failure: Option<ErrorKind>,
    words: Vec<u32>,
    layout: Layout,
    limit: Option<u64>,
    buffers: Option<BufferSet>,
    group: Option<BindGroup>,
    output: Option<Vec<u32>>,
}

impl View for Session {
    type V = SessionView;

    closed spec fn view(&self) -> SessionView {
        SessionView {
            step: self.step,
            failure: self.failure,
            input: self.words@,
            layout: self.layout@,
            limit: self.limit,
            buffers: self.buffers,
            group: match self.group {
                Some(group) => Some(group@),
                None => None,
            },
            output: match self.output {
                Some(words) => Some(words@),
                None => None,
            },
        }
    }
}

impl Session {
    /// Starts a cycle for a non-empty array and a kernel that declares the
    /// given slots. The first step is pending.
    pub fn new(words: Vec<u32>, layout: Layout) -> (session: Session)
        requires
            words@.len() > 0,
        ensures
            session@ == SessionView::start(words@, layout@),
            session@.wf(),
    {
        Session {
            step: Step::RequestAdapter,
            failure: None,
            words,
            layout,
            limit: None,
            buffers: None,
            group: None,
            output: None,
        }
    }

    fn fail(&mut self, kind: ErrorKind, detail: String) -> (error: GpuError)
        ensures
            final(self)@ == old(self)@.failed(kind),
            error.kind == kind,
            error.detail@ == detail@,
    {
        self.step = Step::Failed;
        self.failure = Some(kind);
        self.limit = None;
        self.buffers = None;
        self.group = None;
        self.output = None;
        GpuError::reported(kind, detail)
    }

    /// Takes the backend's report on the pending step and says which step is
    /// pending next.
    ///
    /// Returns an error exactly when the cycle has failed, now or earlier; the
    /// error names the failure and repeats what the backend said in this
    /// report, if anything.
    pub fn advance(&mut self, event: Event) -> (next: Result<Step, GpuError>)
        requires
            old(self)@.wf(),
        ensures
            final(self)@ == old(self)@.advance(event@),
            final(self)@.wf(),
            match next {
                Ok(step) => step == final(self)@.step && step != Step::Failed,
                Err(error) => {
                    &&& final(self)@.step == Step::Failed
                    &&& final(self)@.failure == Some(error.kind)
                    &&& error.detail@ == event@.detail()
                },
            },
    {
        let step = self.step;
        match step {
            Step::Finished => {
                return Ok(Step::Finished);
            },
            Step::Failed => {
                let kind = match self.failure {
                    Some(kind) => kind,
                    None => ErrorKind::PollFailed,
                };
                return Err(
                    match event {
                        Event::Refused { detail } => GpuError::reported(kind, detail),
                        _ => GpuError::found(kind),
                    },
                );
            },
            _ => {},
        }
        match event {
            Event::Refused { detail } => Err(self.fail(step.failure(), detail)),
            Event::DeviceReady { max_buffer_size } => {
                if step == Step::RequestDevice {
                    self.limit = Some(max_buffer_size);
                    self.step = Step::CompileKernel;
                    Ok(Step::CompileKernel)
                } else {
                    Err(self.fail(step.failure(), String::new()))
                }
            },
            Event::View { bytes } => {
                if step == Step::ReadView {
                    let size = match self.buffers {
                        Some(buffers) => buffers.staging.size,
                        None => 0,
                    };
                    if bytes.len() as u64 == size {
                        match decode_words(bytes.as_slice()) {
                            Some(words) => {
                                self.output = Some(words);
                                self.step = Step::Unmap;
                                Ok(Step::Unmap)
                            },
                            None => Err(self.fail(ErrorKind::PollFailed, String::new())),
                        }
                    } else {
                        Err(self.fail(ErrorKind::PollFailed, String::new()))
                    }
                } else {
                    Err(self.fail(step.failure(), String::new()))
                }
            },
            Event::Completed => {
                match step {
                    Step::RequestDevice | Step::ReadView => Err(
                        self.fail(step.failure(), String::new()),
                    ),
                    Step::CreatePipeline => {
                        let limit = match self.limit {
                            Some(limit) => limit,
                            None => 0,
                        };
                        match BufferSet::plan(self.words.len(), limit) {
                            Ok(buffers) => {
                                self.buffers = Some(buffers);
                                self.step = Step::CreateInputBuffer;
                                Ok(Step::CreateInputBuffer)
                            },
                            Err(error) => {
                                let _ = self.fail(ErrorKind::AllocationFailed, String::new());
                                Err(error)
                            },
                        }
                    },
                    Step::CreateStagingBuffer => {
                        let made = match &self.buffers {
                            Some(buffers) => BindGroup::wire(&self.layout, buffers),
                            None => Err(GpuError::found(ErrorKind::BindingLayoutMismatch)),
                        };
                        match made {
                            Ok(group) => {
                                self.group = Some(group);
                                self.step = Step::CreateBindGroup;
                                Ok(Step::CreateBindGroup)
                            },
                            Err(error) => {
                                let _ = self.fail(ErrorKind::BindingLayoutMismatch, String::new());
                                Err(error)
                            },
                        }
                    },
                    _ => {
                        let next = step.successor();
                        self.step = next;
                        Ok(next)
                    },
                }
            },
        }
    }

    /// The step the backend is asked to carry out.
    pub fn step(&self) -> (step: Step)
        ensures
            step == self@.step,
    {
        self.step
    }

    /// Why the cycle failed, if it has.
    pub fn failure(&self) -> (kind: Option<ErrorKind>)
        ensures
            kind == self@.failure,
    {
        self.failure
    }

    /// The array this cycle uploads.
    pub fn input(&self) -> (words: &Vec<u32>)
        ensures
            words@ == self@.input,
    {
        &self.words
    }

    /// The bytes the input buffer is created with.
    pub fn upload(&self) -> (bytes: Vec<u8>)
        ensures
            bytes@ == spec_encode(self@.input),
            bytes@.len() == spec_byte_size(self@.input.len()),
    {
        encode_words(self.words.as_slice())
    }

    /// The planned buffers, from the moment the first of them is to be
    /// created.
    pub fn buffers(&self) -> (buffers: Option<BufferSet>)
        ensures
            buffers == self@.buffers,
    {
        self.buffers
    }

    /// The wiring, from the moment the bind group is to be created.
    pub fn bind_group(&self) -> (group: Option<&BindGroup>)
        ensures
            match group {
                Some(group) => self@.group == Some(group@),
                None => self@.group is None,
            },
    {
        self.group.as_ref()
    }

    /// The commands to encode and submit, while a submission is pending: the
    /// compute pass for the first submission, the copy from output to staging
    /// for the second.
    pub fn commands(&self) -> (commands: Option<CommandBuffer>)
        requires
            self@.wf(),
        ensures
            match commands {
                Some(buffer) => {
                    &&& self@.step == Step::SubmitCompute || self@.step == Step::SubmitReadback
                    &&& self@.step == Step::SubmitCompute ==> buffer@ == compute_commands()
                    &&& self@.step == Step::SubmitReadback ==> buffer@ == readback_commands(
                        self@.buffers.unwrap(),
                    )
                    &&& well_formed(self@.buffers.unwrap(), buffer@)
                },
                None => self@.step != Step::SubmitCompute && self@.step != Step::SubmitReadback,
            },
    {
        match self.buffers {
            Some(buffers) => {
                match self.step {
                    Step::SubmitCompute => Some(CommandBuffer::compute(&buffers)),
                    Step::SubmitReadback => CommandBuffer::readback(&buffers),
                    _ => None,
                }
            },
            None => None,
        }
    }

    /// The array read back from the device. It is available once the cycle
    /// is finished, and never before.
    pub fn output(&self) -> (words: Option<&Vec<u32>>)
        requires
            self@.wf(),
        ensures
            match words {
                Some(words) => self@.step == Step::Finished && self@.output == Some(words@),
                None => self@.step != Step::Finished,
            },
    {
        match self.step {
            Step::Finished => self.output.as_ref(),
            _ => None,
        }
    }
}

} // verus!
