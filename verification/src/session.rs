//! One run of the pipeline as a linear state machine: the device becomes
//! ready, buffers are allocated, exactly one operation is recorded into a
//! one-shot command buffer, the work is submitted, and the host blocks on
//! the completion fence. Only after the fence is signaled may a buffer be
//! read back, and only at completion do the buffers hold the operation's
//! result.

use vstd::prelude::*;

use crate::buffer::{copy_words, Buffer, BufferUsage};
use crate::compute::{dispatch_covers, dispatch_output, run_dispatch};
use crate::device::{family_supports, select_queue_family, Capability, QueueFlags};

verus! {

/// The stages of one run, in the order they are passed through. Every
/// transition moves one stage forward; no transition moves back.
#[derive(Clone, Copy, Debug, PartialEq, Eq, Structural)]
pub enum Stage {
    Uninitialized,
    DeviceReady,
    BuffersAllocated,
    CommandRecorded,
    Submitted,
    Completed,
}

/// The position of a stage in the linear order.
pub open spec fn stage_rank(s: Stage) -> int {
    match s {
        Stage::Uninitialized => 0,
        Stage::DeviceReady => 1,
        Stage::BuffersAllocated => 2,
        Stage::CommandRecorded => 3,
        Stage::Submitted => 4,
        Stage::Completed => 5,
    }
}

/// The single operation a command buffer of this pipeline records.
#[derive(Clone, Copy, Debug, PartialEq, Eq, Structural)]
pub enum Op {
    /// Copy every word of the source buffer into the destination buffer.
    CopyBuffer { src: usize, dst: usize },
    /// Scale every word of the input buffer into the output buffer,
    /// partitioned over `workgroups` workgroups.
    Dispatch { input: usize, output: usize, workgroups: usize },
}

/// One run of the pipeline: its stage, the queue family the device was
/// created with, the host-visible buffers, and the operation recorded in
/// the pending one-shot command buffer, if any.
pub struct Session {
    pub stage: Stage,
    pub queue_family: Option<usize>,
    pub buffers: Vec<Buffer>,
    pub recorded: Option<Op>,
}

impl Session {
    /// Whether `op` is a valid operation over this session's buffers:
    /// indices in range and distinct, usage flags as the operation needs
    /// them, and source and destination of identical layout.
    pub open spec fn op_valid(self, op: Op) -> bool {
        match op {
            Op::CopyBuffer { src, dst } => {
                &&& (src as int) < self.buffers@.len()
                &&& (dst as int) < self.buffers@.len()
                &&& src != dst
                &&& self.buffers@[src as int].usage.transfer_src
                &&& self.buffers@[dst as int].usage.transfer_dst
                &&& self.buffers@[src as int]@.len() == self.buffers@[dst as int]@.len()
            },
            Op::Dispatch { input, output, workgroups } => {
                &&& (input as int) < self.buffers@.len()
                &&& (output as int) < self.buffers@.len()
                &&& input != output
                &&& self.buffers@[input as int].usage.storage
                &&& self.buffers@[output as int].usage.storage
                &&& self.buffers@[input as int]@.len() == self.buffers@[output as int]@.len()
                &&& dispatch_covers(
                    self.buffers@[input as int]@.len() as int,
                    workgroups as int,
                )
            },
        }
    }

    /// The session invariant: a recorded operation is valid for the
    /// buffers, exists exactly between recording and completion, and a
    /// queue family is held from device readiness on.
    pub open spec fn wf(self) -> bool {
        &&& (self.recorded matches Some(op) ==> self.op_valid(op))
        &&& (self.recorded is Some <==> (self.stage == Stage::CommandRecorded || self.stage
            == Stage::Submitted))
        &&& (self.stage != Stage::Uninitialized ==> self.queue_family is Some)
    }

    /// Whether the host may read a buffer back: only once the completion
    /// fence of the submitted work has been observed signaled.
    pub open spec fn read_allowed(self) -> bool {
        self.stage == Stage::Completed
    }

    /// A fresh run: nothing initialised, no buffers, nothing recorded.
    pub fn new() -> (s: Session)
        ensures
            s.wf(),
            s.stage == Stage::Uninitialized,
            s.queue_family is None,
            s.buffers@.len() == 0,
            s.recorded is None,
    {
        Session { stage: Stage::Uninitialized, queue_family: None, buffers: Vec::new(), recorded: None }
    }

    /// Creates the logical device and its one queue: picks the first
    /// enumerated queue family that supports the required capability.
    /// Returns its index, or `None` — leaving the session untouched —
    /// exactly when no family qualifies.
    pub fn init_device(&mut self, families: &Vec<QueueFlags>, cap: Capability) -> (r: Option<
        usize,
    >)
        requires
            old(self).wf(),
            old(self).stage == Stage::Uninitialized,
        ensures
            final(self).wf(),
            (match r {
                Some(i) => {
                    &&& (i as int) < families@.len()
                    &&& family_supports(families@[i as int], cap)
                    &&& forall|j: int| 0 <= j < i ==> !family_supports(families@[j], cap)
                    &&& final(self).stage == Stage::DeviceReady
                    &&& final(self).queue_family == Some(i)
                    &&& final(self).buffers == old(self).buffers
                    &&& final(self).recorded == old(self).recorded
                },
                None => {
                    &&& !crate::device::some_family_supports(families@, cap)
                    &&& *final(self) == *old(self)
                },
            }),
    {
        match select_queue_family(families, cap) {
            Some(i) => {
                self.stage = Stage::DeviceReady;
                self.queue_family = Some(i);
                Some(i)
            },
            None => None,
        }
    }

    /// Allocates a host-visible buffer pre-populated with `data`, and
    /// returns its index.
    pub fn allocate_from_data(&mut self, usage: BufferUsage, data: Vec<u32>) -> (idx: usize)
        requires
            old(self).wf(),
            old(self).stage == Stage::DeviceReady || old(self).stage == Stage::BuffersAllocated,
        ensures
            final(self).wf(),
            final(self).stage == Stage::BuffersAllocated,
            final(self).queue_family == old(self).queue_family,
            final(self).recorded is None,
            idx as int == old(self).buffers@.len(),
            final(self).buffers@.len() == old(self).buffers@.len() + 1,
            forall|j: int|
                0 <= j < old(self).buffers@.len() ==> final(self).buffers@[j] == old(self).buffers@[j],
            final(self).buffers@[idx as int].usage == usage,
            final(self).buffers@[idx as int]@ == data@,
    {
        let idx = self.buffers.len();
        self.buffers.push(Buffer::from_data(usage, data));
        self.stage = Stage::BuffersAllocated;
        idx
    }

    /// Allocates a zero-initialised host-visible buffer of `len` words,
    /// and returns its index.
    pub fn allocate_zeroed(&mut self, usage: BufferUsage, len: usize) -> (idx: usize)
        requires
            old(self).wf(),
            old(self).stage == Stage::DeviceReady || old(self).stage == Stage::BuffersAllocated,
        ensures
            final(self).wf(),
            final(self).stage == Stage::BuffersAllocated,
            final(self).queue_family == old(self).queue_family,
            final(self).recorded is None,
            idx as int == old(self).buffers@.len(),
            final(self).buffers@.len() == old(self).buffers@.len() + 1,
            forall|j: int|
                0 <= j < old(self).buffers@.len() ==> final(self).buffers@[j] == old(self).buffers@[j],
            final(self).buffers@[idx as int].usage == usage,
            final(self).buffers@[idx as int]@.len() == len,
            forall|i: int| 0 <= i < len ==> final(self).buffers@[idx as int]@[i] == 0u32,
    {
        let idx = self.buffers.len();
        self.buffers.push(Buffer::zeroed(usage, len));
        self.stage = Stage::BuffersAllocated;
        idx
    }

    /// Records the one operation of the command buffer: a whole-buffer
    /// copy from `src` to `dst`. The buffers must be distinct, of
    /// identical layout, and allocated as transfer source and transfer
    /// destination.
    pub fn record_copy(&mut self, src: usize, dst: usize)
        requires
            old(self).wf(),
            old(self).stage == Stage::BuffersAllocated,
            old(self).op_valid(Op::CopyBuffer { src, dst }),
        ensures
            final(self).wf(),
            final(self).stage == Stage::CommandRecorded,
            final(self).queue_family == old(self).queue_family,
            final(self).buffers == old(self).buffers,
            final(self).recorded == Some(Op::CopyBuffer { src, dst }),
    {
        self.recorded = Some(Op::CopyBuffer { src, dst });
        self.stage = Stage::CommandRecorded;
    }

    /// Records the one operation of the command buffer: a compute
    /// dispatch scaling `input` into `output`, launched with the least
    /// workgroup count that covers every element. The buffers must be
    /// distinct storage buffers of identical layout.
    pub fn record_dispatch(&mut self, input: usize, output: usize)
        requires
            old(self).wf(),
            old(self).stage == Stage::BuffersAllocated,
            (input as int) < old(self).buffers@.len(),
            (output as int) < old(self).buffers@.len(),
            input != output,
            old(self).buffers@[input as int].usage.storage,
            old(self).buffers@[output as int].usage.storage,
            old(self).buffers@[input as int]@.len() == old(self).buffers@[output as int]@.len(),
        ensures
            final(self).wf(),
            final(self).stage == Stage::CommandRecorded,
            final(self).queue_family == old(self).queue_family,
            final(self).buffers == old(self).buffers,
            (final(self).recorded matches Some(Op::Dispatch { input: i, output: o, workgroups: w })
                && i == input && o == output && dispatch_covers(
                old(self).buffers@[input as int]@.len() as int,
                w as int,
            )),
    {
        let n = self.buffers[input].words.len();
        let workgroups = crate::compute::workgroup_count(n);
        self.recorded = Some(Op::Dispatch { input, output, workgroups });
        self.stage = Stage::CommandRecorded;
    }

    /// Submits the recorded one-shot command buffer to the queue with a
    /// completion fence. The command buffer is consumed by the
    /// submission: it can be submitted only this once.
    pub fn submit(&mut self)
        requires
            old(self).wf(),
            old(self).stage == Stage::CommandRecorded,
        ensures
            final(self).wf(),
            final(self).stage == Stage::Submitted,
            final(self).queue_family == old(self).queue_family,
            final(self).buffers == old(self).buffers,
            final(self).recorded == old(self).recorded,
    {
        self.stage = Stage::Submitted;
    }

    /// Observes the completion fence signaled: the submitted operation has
    /// run, its result stands in the destination buffer, every other
    /// buffer is untouched, and the spent command buffer is discarded.
    pub fn complete(&mut self)
        requires
            old(self).wf(),
            old(self).stage == Stage::Submitted,
        ensures
            final(self).wf(),
            final(self).stage == Stage::Completed,
            final(self).queue_family == old(self).queue_family,
            final(self).recorded is None,
            final(self).buffers@.len() == old(self).buffers@.len(),
            (match old(self).recorded {
                Some(Op::CopyBuffer { src, dst }) => {
                    &&& final(self).buffers@[dst as int]@ == old(self).buffers@[src as int]@
                    &&& final(self).buffers@[dst as int].usage == old(self).buffers@[dst as int].usage
                    &&& forall|j: int|
                        0 <= j < old(self).buffers@.len() && j != dst as int ==> final(self).buffers@[j] == old(self).buffers@[j]
                },
                Some(Op::Dispatch { input, output, workgroups }) => {
                    &&& final(self).buffers@[output as int]@ == dispatch_output(
                        old(self).buffers@[input as int]@,
                    )
                    &&& final(self).buffers@[output as int].usage == old(self).buffers@[output as int].usage
                    &&& forall|j: int|
                        0 <= j < old(self).buffers@.len() && j != output as int ==> final(self).buffers@[j] == old(self).buffers@[j]
                },
                None => false,
            }),
    {
        let op = self.recorded;
        self.recorded = None;
        self.stage = Stage::Completed;
        match op {
            Some(Op::CopyBuffer { src, dst }) => {
                let words = copy_words(&self.buffers[src].words);
                let usage = self.buffers[dst].usage;
                self.buffers.set(dst, Buffer { usage, words });
            },
            Some(Op::Dispatch { input, output, workgroups }) => {
                let words = run_dispatch(&self.buffers[input].words, workgroups);
                let usage = self.buffers[output].usage;
                self.buffers.set(output, Buffer { usage, words });
            },
            None => {},
        }
    }

    /// Reads a buffer's words back. Permitted only once the completion
    /// fence has been signaled.
    pub fn read_buffer(&self, i: usize) -> (w: &Vec<u32>)
        requires
            self.wf(),
            self.read_allowed(),
            (i as int) < self.buffers@.len(),
        ensures
            w@ == self.buffers@[i as int]@,
    {
        &self.buffers[i].words
    }
}

/// No buffer is read by the host before its completion fence is signaled:
/// the permission to read entails the final stage of the linear order,
/// which only `complete` — the observation of the signaled fence — enters,
/// and which it enters only from a submitted session.
pub proof fn lemma_read_only_after_fence(s: Session)
    ensures
        s.read_allowed() ==> s.stage == Stage::Completed,
        s.read_allowed() ==> stage_rank(s.stage) == 5,
{
}

} // verus!
