//! What the USB writer does with the requests of its queue.
use vstd::prelude::*;
use vstd::string::*;
use crate::android_usb_lifecycle::queue::{
    at_end, next_request, received, QueueState, UsbQueuePoll, UsbWriteQueue,
};
use crate::android_usb_lifecycle::write::{
    UsbWriteFailure, UsbWriteFailureKind, UsbWritePhase, UsbWriteRequest,
};

verus! {

/// Why the writer ended.
#[derive(Clone, Debug, PartialEq, Eq)]
pub enum UsbWriterExit {
    Detached,
    Stopped,
    Failed(String),
}

/// What the writer does next.
#[derive(Debug)]
pub enum UsbWriterPoll<T> {
    Exit(UsbWriterExit),
    /// Wait for a request.
    Wait,
    Write(UsbWriteRequest<T>),
    /// Answer the request with the failure, go offline and end.
    Refuse { request: UsbWriteRequest<T>, failure: UsbWriteFailure, exit: UsbWriterExit },
}

/// What the writer does after a request was answered.
#[derive(Debug)]
pub enum UsbWriterNext {
    Continue,
    /// Go offline, but wait for a detach.
    Offline,
    Exit(UsbWriterExit),
    /// Go offline and end.
    OfflineExit(UsbWriterExit),
}

/// The writer's memory between two requests.
#[derive(Clone, Copy, Debug, PartialEq, Eq, Structural)]
pub struct UsbWriter {
    terminal_detach_only: bool,
}

/// The queue after the writer looked for a request.
pub open spec fn queue_after_poll<T>(queue: QueueState<T>, running: bool) -> QueueState<T> {
    if running {
        received(queue)
    } else {
        queue
    }
}

/// The answer of the transmit gate to a packet.
pub open spec fn gate_answer(phase: UsbWritePhase, admitted: bool) -> Result<(), UsbWriteFailure> {
    if admitted {
        Ok(())
    } else {
        Err::<(), UsbWriteFailure>(
            UsbWriteFailure { phase, kind: UsbWriteFailureKind::AdmissionClosed },
        )
    }
}

/// `poll` is what a writer does next that finds that in its queue.
pub open spec fn writer_polls<T>(
    poll: UsbWriterPoll<T>,
    queue: QueueState<T>,
    detach_only: bool,
    running: bool,
) -> bool {
    if !running {
        poll == UsbWriterPoll::<T>::Exit(UsbWriterExit::Stopped)
    } else {
        match next_request(queue) {
            None => poll == (if at_end(queue) {
                UsbWriterPoll::<T>::Exit(UsbWriterExit::Stopped)
            } else {
                UsbWriterPoll::Wait
            }),
            Some(request) => if detach_only && !(request.phase is Detach) {
                &&& poll is Refuse
                &&& poll->Refuse_request == request
                &&& poll->Refuse_failure == (UsbWriteFailure {
                    phase: request.phase,
                    kind: UsbWriteFailureKind::QueueClosed,
                })
                &&& poll->Refuse_exit is Failed
                &&& poll->Refuse_exit->Failed_0@
                    == "non-detach write followed an ambiguous USB init failure"@
            } else {
                poll == UsbWriterPoll::Write(request)
            },
        }
    }
}

/// `next` is what a writer does after an answer, and `only_after` whether only a detach may
/// follow then.
pub open spec fn writer_goes_on(
    next: UsbWriterNext,
    detach_only: bool,
    only_after: bool,
    phase: UsbWritePhase,
    await_terminal_detach_on_failure: bool,
    result: Result<(), UsbWriteFailure>,
) -> bool {
    match result {
        Err(failure) => if await_terminal_detach_on_failure {
            next is Offline && only_after
        } else {
            &&& next is OfflineExit
            &&& next->OfflineExit_0 is Failed
            &&& next->OfflineExit_0->Failed_0@ == failure.words()
            &&& only_after == detach_only
        },
        Ok(_) => only_after == detach_only && next == (if phase is Detach {
            UsbWriterNext::Exit(UsbWriterExit::Detached)
        } else {
            UsbWriterNext::Continue
        }),
    }
}

/// A packet that the transmit gate did not admit is answered with a failure, and nothing of it
/// is written.
pub fn gate_result(phase: UsbWritePhase, admitted: bool) -> (result: Result<(), UsbWriteFailure>)
    ensures
        result == gate_answer(phase, admitted),
{
    if admitted {
        Ok(())
    } else {
        Err(UsbWriteFailure { phase, kind: UsbWriteFailureKind::AdmissionClosed })
    }
}

impl UsbWriter {
    /// The radio's state is unknown after a failed initialisation; only a detach may
    /// still be written.
    pub closed spec fn detach_only(self) -> bool {
        self.terminal_detach_only
    }

    /// A writer that has written nothing.
    pub fn new() -> (writer: Self)
        ensures
            !writer.detach_only(),
    {
        UsbWriter { terminal_detach_only: false }
    }

    /// Decides what to do next.
    pub fn poll<T>(&self, queue: &mut UsbWriteQueue<T>, running: bool) -> (poll: UsbWriterPoll<T>)
        ensures
            final(queue)@ == queue_after_poll(old(queue)@, running),
            writer_polls(poll, old(queue)@, self.detach_only(), running),
    {
        if !running {
            return UsbWriterPoll::Exit(UsbWriterExit::Stopped);
        }
        match queue.recv() {
            UsbQueuePoll::Closed => UsbWriterPoll::Exit(UsbWriterExit::Stopped),
            UsbQueuePoll::Empty => UsbWriterPoll::Wait,
            UsbQueuePoll::Request(request) => {
                let phase = request.phase;
                if self.terminal_detach_only && phase != UsbWritePhase::Detach {
                    UsbWriterPoll::Refuse {
                        request,
                        failure: UsbWriteFailure { phase, kind: UsbWriteFailureKind::QueueClosed },
                        exit: UsbWriterExit::Failed(
                            "non-detach write followed an ambiguous USB init failure".to_owned(),
                        ),
                    }
                } else {
                    UsbWriterPoll::Write(request)
                }
            },
        }
    }

    /// Decides what to do after a request was answered. A failure ends the writer,
    /// except that a failed initialisation which asks for it leaves room for the
    /// detach; a detach ends it in any case.
    pub fn finished(
        &mut self,
        phase: UsbWritePhase,
        await_terminal_detach_on_failure: bool,
        result: &Result<(), UsbWriteFailure>,
    ) -> (next: UsbWriterNext)
        ensures
            writer_goes_on(
                next,
                old(self).detach_only(),
                final(self).detach_only(),
                phase,
                await_terminal_detach_on_failure,
                *result,
            ),
            result is Ok || !await_terminal_detach_on_failure ==> *final(self) == *old(self),
    {
        match result {
            Err(failure) => {
                if await_terminal_detach_on_failure {
                    self.terminal_detach_only = true;
                    UsbWriterNext::Offline
                } else {
                    UsbWriterNext::OfflineExit(UsbWriterExit::Failed(failure.message()))
                }
            },
            Ok(_) => match phase {
                UsbWritePhase::Detach => UsbWriterNext::Exit(UsbWriterExit::Detached),
                _ => UsbWriterNext::Continue,
            },
        }
    }
}

/// A packet that the transmit gate admits is written; any other is answered that it was not
/// admitted.
pub proof fn unadmitted_packet_is_refused(phase: UsbWritePhase, admitted: bool)
    ensures
        gate_answer(phase, admitted) is Ok <==> admitted,
        !admitted ==> gate_answer(phase, admitted)->Err_0 == (UsbWriteFailure {
            phase,
            kind: UsbWriteFailureKind::AdmissionClosed,
        }),
{
}

/// A writer writes the request that has waited longest. It ends when it is stopped or no
/// request can come, waits while one can, and refuses everything but a detach once an
/// initialisation has failed.
pub proof fn writer_takes_requests_in_order<T>(
    poll: UsbWriterPoll<T>,
    queue: QueueState<T>,
    detach_only: bool,
    running: bool,
)
    requires
        writer_polls(poll, queue, detach_only, running),
    ensures
        !running ==> poll is Exit,
        poll is Exit ==> poll->Exit_0 is Stopped,
        running ==> (poll is Exit <==> queue.cancelled || (queue.requests.len() == 0
            && queue.worker_closed)),
        running ==> (poll is Wait <==> !queue.cancelled && queue.requests.len() == 0
            && !queue.worker_closed),
        poll is Write ==> running && !queue.cancelled && queue.requests.len() > 0 && poll->Write_0
            == queue.requests[0] && (!detach_only || queue.requests[0].phase is Detach),
        running && !queue.cancelled && queue.requests.len() > 0 && (!detach_only
            || queue.requests[0].phase is Detach) ==> poll is Write,
        running && !queue.cancelled && queue.requests.len() > 0 && detach_only && !(
        queue.requests[0].phase is Detach) ==> poll is Refuse && poll->Refuse_request
            == queue.requests[0] && poll->Refuse_exit is Failed,
        poll is Write || poll is Refuse ==> queue_after_poll(queue, running).requests.len()
            == queue.requests.len() - 1,
        !(poll is Write) && !(poll is Refuse) ==> queue_after_poll(queue, running) == queue,
{
}

/// A write that fails ends the writer, but for an initialisation that leaves room for the
/// detach: after that nothing else is written. A detach that succeeds ends it as detached, and
/// after any other success it goes on.
pub proof fn failed_write_ends_the_writer(
    next: UsbWriterNext,
    detach_only: bool,
    only_after: bool,
    phase: UsbWritePhase,
    await_terminal_detach_on_failure: bool,
    result: Result<(), UsbWriteFailure>,
)
    requires
        writer_goes_on(
            next,
            detach_only,
            only_after,
            phase,
            await_terminal_detach_on_failure,
            result,
        ),
    ensures
        next is Continue <==> result is Ok && !(phase is Detach),
        next is Exit <==> result is Ok && phase is Detach,
        next is Exit ==> next->Exit_0 is Detached,
        next is Offline <==> result is Err && await_terminal_detach_on_failure,
        next is Offline ==> only_after,
        next is OfflineExit <==> result is Err && !await_terminal_detach_on_failure,
        next is OfflineExit ==> next->OfflineExit_0 is Failed
            && next->OfflineExit_0->Failed_0@ == result->Err_0.words(),
        !(next is Offline) ==> only_after == detach_only,
{
}

} // verus!
