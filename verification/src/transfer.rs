//! One-shot submissions on the transfer queue.
//!
//! An immediate submission begins recording, lets the caller record, ends
//! recording, submits, and waits until the queue is done. The driver does
//! each step; this module says which step comes next. A step that fails
//! ends the submission: what was recorded is never submitted.

use vstd::prelude::*;
use crate::commands::CommandError;
use crate::queue::Queue;

verus! {

/// The step of an immediate submission that the driver is to do next.
#[derive(Clone, Copy, Debug, PartialEq, Eq, Structural)]
pub enum TransferStep {
    /// Nothing is in progress.
    Idle,
    /// Begin recording into the command buffer.
    Begin,
    /// Let the caller record its commands.
    Record,
    /// End recording.
    End,
    /// Submit the command buffer to the transfer queue.
    Submit,
    /// Wait until the queue has done the work.
    Wait,
}

/// The step that follows `step`, given whether `step` succeeded. After a
/// failure nothing follows, and after the wait nothing is left to do.
pub open spec fn spec_next_step(step: TransferStep, succeeded: bool) -> TransferStep {
    if !succeeded {
        TransferStep::Idle
    } else {
        match step {
            TransferStep::Idle => TransferStep::Idle,
            TransferStep::Begin => TransferStep::Record,
            TransferStep::Record => TransferStep::End,
            TransferStep::End => TransferStep::Submit,
            TransferStep::Submit => TransferStep::Wait,
            TransferStep::Wait => TransferStep::Idle,
        }
    }
}

/// The command buffer is being recorded during these steps.
pub open spec fn spec_records(step: TransferStep) -> bool {
    step == TransferStep::Record || step == TransferStep::End
}

pub fn next_step(step: TransferStep, succeeded: bool) -> (r: TransferStep)
    ensures
        r == spec_next_step(step, succeeded),
{
    if !succeeded {
        return TransferStep::Idle;
    }
    match step {
        TransferStep::Idle => TransferStep::Idle,
        TransferStep::Begin => TransferStep::Record,
        TransferStep::Record => TransferStep::End,
        TransferStep::End => TransferStep::Submit,
        TransferStep::Submit => TransferStep::Wait,
        TransferStep::Wait => TransferStep::Idle,
    }
}

/// Work is submitted only after recording was ended with success, and
/// recording is ended only after the caller recorded with success: a
/// failure while recording never leads to a submission.
pub proof fn lemma_submit_follows_success(step: TransferStep, succeeded: bool)
    ensures
        spec_next_step(step, succeeded) == TransferStep::Submit ==> step == TransferStep::End
            && succeeded,
        spec_next_step(step, succeeded) == TransferStep::End ==> step == TransferStep::Record
            && succeeded,
        !succeeded ==> spec_next_step(step, succeeded) == TransferStep::Idle,
{
}

/// The encoder for one-shot work on the transfer queue: its command
/// buffer, the queue, and the step that is in progress.
#[derive(Debug)]
pub struct TransferCommandEncoder {
    command_buffer: u64,
    queue: Queue,
    step: TransferStep,
}

impl TransferCommandEncoder {
    pub closed spec fn spec_command_buffer(&self) -> u64 {
        self.command_buffer
    }

    pub closed spec fn spec_queue(&self) -> Queue {
        self.queue
    }

    pub closed spec fn spec_step(&self) -> TransferStep {
        self.step
    }

    pub fn new(command_buffer: u64, queue: Queue) -> (r: TransferCommandEncoder)
        ensures
            r.spec_command_buffer() == command_buffer,
            r.spec_queue() == queue,
            r.spec_step() == TransferStep::Idle,
    {
        TransferCommandEncoder { command_buffer, queue, step: TransferStep::Idle }
    }

    pub fn command_buffer(&self) -> (r: u64)
        ensures
            r == self.spec_command_buffer(),
    {
        self.command_buffer
    }

    pub fn queue(&self) -> (r: Queue)
        ensures
            r == self.spec_queue(),
    {
        self.queue
    }

    pub fn step(&self) -> (r: TransferStep)
        ensures
            r == self.spec_step(),
    {
        self.step
    }

    /// Whether the command buffer is being recorded.
    pub fn is_recording(&self) -> (r: bool)
        ensures
            r == spec_records(self.spec_step()),
    {
        match self.step {
            TransferStep::Record => true,
            TransferStep::End => true,
            _ => false,
        }
    }

    /// Starts an immediate submission: the driver is to begin recording.
    /// Refused while another submission is in progress.
    pub fn immediate_submit(&mut self) -> (r: Result<TransferStep, CommandError>)
        ensures
            final(self).spec_command_buffer() == old(self).spec_command_buffer(),
            final(self).spec_queue() == old(self).spec_queue(),
            match r {
                Ok(step) => old(self).spec_step() == TransferStep::Idle && step
                    == TransferStep::Begin && final(self).spec_step() == TransferStep::Begin,
                Err(e) => e == CommandError::AlreadyRecording && old(self).spec_step()
                    != TransferStep::Idle && final(self).spec_step() == old(self).spec_step(),
            },
    {
        match self.step {
            TransferStep::Idle => {
                self.step = TransferStep::Begin;
                Ok(TransferStep::Begin)
            },
            _ => Err(CommandError::AlreadyRecording),
        }
    }

    /// Takes note of how the step in progress ended and says which step the
    /// driver is to do next; `Idle` says that the submission is over.
    pub fn completed(&mut self, succeeded: bool) -> (r: TransferStep)
        ensures
            final(self).spec_command_buffer() == old(self).spec_command_buffer(),
            final(self).spec_queue() == old(self).spec_queue(),
            r == spec_next_step(old(self).spec_step(), succeeded),
            final(self).spec_step() == r,
    {
        let next = next_step(self.step, succeeded);
        self.step = next;
        next
    }
}

} // verus!
