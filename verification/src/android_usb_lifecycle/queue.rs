//! The queue in front of the USB writer. A detach discards everything that waits and
//! is the last request that gets through.
use std::collections::VecDeque;
use vstd::prelude::*;
use crate::android_usb_lifecycle::write::{
    UsbWriteFailure, UsbWriteFailureKind, UsbWritePhase, UsbWriteRequest,
};

verus! {

/// The requests that wait for the writer.
#[derive(Debug)]
pub struct UsbWriteQueue<T> {
    requests: VecDeque<UsbWriteRequest<T>>,
    accepting: bool,
    cancelled: bool,
    worker_closed: bool,
    in_use: usize,
    capacity: usize,
}

/// What the queue holds.
pub ghost struct QueueState<T> {
    pub requests: Seq<UsbWriteRequest<T>>,
    pub accepting: bool,
    pub cancelled: bool,
    pub worker_closed: bool,
    /// The slots taken by requests that wait or are being written.
    pub in_use: int,
    pub capacity: int,
}

/// While the queue takes requests, every one that waits holds a slot, and there are no
/// more slots than its capacity.
pub open spec fn within_capacity<T>(queue: QueueState<T>) -> bool {
    queue.accepting ==> queue.requests.len() <= queue.in_use <= queue.capacity
}

/// The queue takes requests.
pub open spec fn takes_requests<T>(queue: QueueState<T>) -> bool {
    queue.accepting && !queue.cancelled && !queue.worker_closed
}

/// A slot is free.
pub open spec fn has_room<T>(queue: QueueState<T>) -> bool {
    queue.in_use < queue.capacity
}

/// The queue after a request was offered to it.
pub open spec fn enqueued<T>(queue: QueueState<T>, request: UsbWriteRequest<T>) -> QueueState<T> {
    if takes_requests(queue) && has_room(queue) {
        QueueState {
            requests: queue.requests.push(request),
            in_use: queue.in_use + 1,
            ..queue
        }
    } else {
        queue
    }
}

/// A detach can still be queued.
pub open spec fn can_detach<T>(queue: QueueState<T>) -> bool {
    !queue.cancelled && !queue.worker_closed
}

/// The request for a detach.
pub open spec fn detach_request<T>(
    bytes: Vec<u8>,
    deadline: u128,
    acknowledgement: T,
) -> UsbWriteRequest<T> {
    UsbWriteRequest {
        phase: UsbWritePhase::Detach,
        bytes,
        deadline: Some(deadline),
        acknowledgement: Some(acknowledgement),
        await_terminal_detach_on_failure: false,
        packet: None,
    }
}

/// The queue after a detach began.
pub open spec fn detaching<T>(queue: QueueState<T>, detach: UsbWriteRequest<T>) -> QueueState<T> {
    QueueState { requests: seq![detach], accepting: false, ..queue }
}

/// The request that the writer gets next, if any. A cancelled queue hands out nothing,
/// even if requests wait.
pub open spec fn next_request<T>(queue: QueueState<T>) -> Option<UsbWriteRequest<T>> {
    if !queue.cancelled && queue.requests.len() > 0 {
        Some(queue.requests[0])
    } else {
        None
    }
}

/// No request will ever follow.
pub open spec fn at_end<T>(queue: QueueState<T>) -> bool {
    queue.cancelled || (queue.requests.len() == 0 && queue.worker_closed)
}

/// The queue after the writer took a request.
pub open spec fn received<T>(queue: QueueState<T>) -> QueueState<T> {
    if next_request(queue) is Some {
        QueueState { requests: queue.requests.subrange(1, queue.requests.len() as int), ..queue }
    } else {
        queue
    }
}

/// The queue after it was cancelled.
pub open spec fn cancelled<T>(queue: QueueState<T>) -> QueueState<T> {
    QueueState { requests: Seq::empty(), accepting: false, cancelled: true, ..queue }
}

/// The queue after its writer ended.
pub open spec fn abandoned<T>(queue: QueueState<T>) -> QueueState<T> {
    QueueState { requests: Seq::empty(), accepting: false, worker_closed: true, ..queue }
}

/// What became of a request that was offered to the queue.
#[derive(Debug)]
pub enum UsbEnqueue<T> {
    Queued,
    /// Every slot is taken; the request is handed back.
    Full(UsbWriteRequest<T>),
    Closed(UsbWriteFailure),
}

/// What the writer finds in the queue.
#[derive(Debug)]
pub enum UsbQueuePoll<T> {
    /// There will be no more requests.
    Closed,
    Request(UsbWriteRequest<T>),
    /// Wait.
    Empty,
}

/// What becomes of a request that is offered to the queue.
pub open spec fn offered_to<T>(queue: QueueState<T>, request: UsbWriteRequest<T>) -> UsbEnqueue<T> {
    if !takes_requests(queue) {
        UsbEnqueue::Closed(
            UsbWriteFailure { phase: request.phase, kind: UsbWriteFailureKind::QueueClosed },
        )
    } else if !has_room(queue) {
        UsbEnqueue::Full(request)
    } else {
        UsbEnqueue::Queued
    }
}

/// What the writer finds in the queue.
pub open spec fn found_in<T>(queue: QueueState<T>) -> UsbQueuePoll<T> {
    match next_request(queue) {
        Some(request) => UsbQueuePoll::Request(request),
        None => if at_end(queue) {
            UsbQueuePoll::Closed
        } else {
            UsbQueuePoll::Empty
        },
    }
}

/// The queue after a slot was given back.
pub open spec fn slot_released<T>(queue: QueueState<T>) -> QueueState<T> {
    QueueState {
        in_use: if queue.in_use > queue.requests.len() {
            queue.in_use - 1
        } else {
            queue.in_use
        },
        ..queue
    }
}

impl<T> View for UsbWriteQueue<T> {
    type V = QueueState<T>;

    closed spec fn view(&self) -> QueueState<T> {
        QueueState {
            requests: self.requests@,
            accepting: self.accepting,
            cancelled: self.cancelled,
            worker_closed: self.worker_closed,
            in_use: self.in_use as int,
            capacity: self.capacity as int,
        }
    }
}

impl<T> UsbWriteQueue<T> {
    /// An empty queue for `capacity` requests under way.
    pub fn new(capacity: usize) -> (queue: Self)
        ensures
            within_capacity(queue@),
            queue@ == (QueueState::<T> {
                requests: Seq::empty(),
                accepting: true,
                cancelled: false,
                worker_closed: false,
                in_use: 0,
                capacity: capacity as int,
            }),
    {
        let queue = UsbWriteQueue {
            requests: VecDeque::new(),
            accepting: true,
            cancelled: false,
            worker_closed: false,
            in_use: 0,
            capacity,
        };
        assert(queue.requests@ =~= Seq::<UsbWriteRequest<T>>::empty());
        queue
    }

    /// Queues a request behind those that wait.
    pub fn enqueue(&mut self, request: UsbWriteRequest<T>) -> (outcome: UsbEnqueue<T>)
        requires
            within_capacity(old(self)@),
        ensures
            within_capacity(final(self)@),
            final(self)@ == enqueued(old(self)@, request),
            outcome == offered_to(old(self)@, request),
    {
        if !self.accepting || self.cancelled || self.worker_closed {
            return UsbEnqueue::Closed(
                UsbWriteFailure { phase: request.phase, kind: UsbWriteFailureKind::QueueClosed },
            );
        }
        if self.in_use >= self.capacity {
            return UsbEnqueue::Full(request);
        }
        self.in_use = self.in_use + 1;
        self.requests.push_back(request);
        UsbEnqueue::Queued
    }

    /// Discards every request that waits and queues the detach, which is the last one.
    pub fn begin_detach(&mut self, bytes: Vec<u8>, deadline: u128, acknowledgement: T) -> (begun:
        Result<(), UsbWriteFailure>)
        ensures
            within_capacity(old(self)@) ==> within_capacity(final(self)@),
            can_detach(old(self)@) ==> begun is Ok && final(self)@ == detaching(
                old(self)@,
                detach_request(bytes, deadline, acknowledgement),
            ),
            !can_detach(old(self)@) ==> final(self)@ == old(self)@ && begun == Err::<
                (),
                UsbWriteFailure,
            >(
                UsbWriteFailure {
                    phase: UsbWritePhase::Detach,
                    kind: UsbWriteFailureKind::QueueClosed,
                },
            ),
    {
        if self.cancelled || self.worker_closed {
            return Err(
                UsbWriteFailure {
                    phase: UsbWritePhase::Detach,
                    kind: UsbWriteFailureKind::QueueClosed,
                },
            );
        }
        let request = UsbWriteRequest {
            phase: UsbWritePhase::Detach,
            bytes,
            deadline: Some(deadline),
            acknowledgement: Some(acknowledgement),
            await_terminal_detach_on_failure: false,
            packet: None,
        };
        let ghost detach = request;
        self.accepting = false;
        self.requests.clear();
        self.requests.push_back(request);
        assert(self.requests@ =~= seq![detach]);
        Ok(())
    }

    /// Takes the request that has waited longest.
    pub fn recv(&mut self) -> (poll: UsbQueuePoll<T>)
        ensures
            within_capacity(old(self)@) ==> within_capacity(final(self)@),
            final(self)@ == received(old(self)@),
            poll == found_in(old(self)@),
    {
        if self.cancelled {
            return UsbQueuePoll::Closed;
        }
        match self.requests.pop_front() {
            Some(request) => UsbQueuePoll::Request(request),
            None => if self.worker_closed {
                UsbQueuePoll::Closed
            } else {
                UsbQueuePoll::Empty
            },
        }
    }

    /// Gives the slot of a request back that has left the queue and is finished.
    pub fn release_slot(&mut self)
        ensures
            within_capacity(old(self)@) ==> within_capacity(final(self)@),
            final(self)@ == slot_released(old(self)@),
    {
        if self.in_use > self.requests.len() {
            self.in_use = self.in_use - 1;
        }
    }

    /// Ends the queue from the outside: nothing more is taken or handed out.
    pub fn cancel_and_wake(&mut self)
        ensures
            within_capacity(final(self)@),
            final(self)@ == cancelled(old(self)@),
    {
        self.accepting = false;
        self.cancelled = true;
        self.requests.clear();
        assert(self.requests@ =~= Seq::<UsbWriteRequest<T>>::empty());
    }

    /// Ends the queue because its writer has ended.
    pub fn mark_worker_closed(&mut self)
        ensures
            within_capacity(final(self)@),
            final(self)@ == abandoned(old(self)@),
    {
        self.worker_closed = true;
        self.accepting = false;
        self.requests.clear();
        assert(self.requests@ =~= Seq::<UsbWriteRequest<T>>::empty());
    }
}

/// Requests are handed out in the order in which they came: one that is offered later
/// never comes before one that waits.
pub proof fn requests_keep_their_order<T>(queue: QueueState<T>, request: UsbWriteRequest<T>)
    requires
        takes_requests(queue),
        has_room(queue),
    ensures
        next_request(enqueued(queue, request)) == (match next_request(queue) {
            Some(waiting) => Some(waiting),
            None => Some(request),
        }),
        next_request(queue) is Some ==> received(enqueued(queue, request)) == enqueued(
            received(queue),
            request,
        ),
{
    if next_request(queue) is Some {
        let grown = queue.requests.push(request);
        assert(grown.subrange(1, grown.len() as int) =~= queue.requests.subrange(
            1,
            queue.requests.len() as int,
        ).push(request));
    }
}

/// Once a detach is queued it is the next request and the last one: whatever is offered
/// after it never reaches the writer.
pub proof fn detach_is_the_last_request<T>(
    queue: QueueState<T>,
    detach: UsbWriteRequest<T>,
    request: UsbWriteRequest<T>,
)
    requires
        can_detach(queue),
    ensures
        next_request(detaching(queue, detach)) == Some(detach),
        next_request(enqueued(detaching(queue, detach), request)) == Some(detach),
        next_request(received(detaching(queue, detach))) is None,
        next_request(enqueued(received(detaching(queue, detach)), request)) is None,
{
}

/// A queue that was cancelled or has lost its writer takes nothing and hands nothing
/// out.
pub proof fn ended_queue_is_silent<T>(queue: QueueState<T>, request: UsbWriteRequest<T>)
    ensures
        next_request(enqueued(cancelled(queue), request)) is None,
        next_request(enqueued(abandoned(queue), request)) is None,
        at_end(cancelled(queue)),
        at_end(abandoned(queue)),
        !can_detach(cancelled(queue)),
        !can_detach(abandoned(queue)),
        offered_to(cancelled(queue), request) is Closed,
        offered_to(abandoned(queue), request) is Closed,
        cancelled(queue).requests.len() == 0 && !cancelled(queue).accepting,
        abandoned(queue).requests.len() == 0 && !abandoned(queue).accepting,
{
}

/// A request is queued behind the others while the queue takes requests and has a slot, which
/// it then holds; a full queue hands it back, and a closed one answers that it is closed.
pub proof fn request_is_queued_answered_or_handed_back<T>(
    queue: QueueState<T>,
    request: UsbWriteRequest<T>,
)
    ensures
        ({
            let open = queue.accepting && !queue.cancelled && !queue.worker_closed;
            let outcome = offered_to(queue, request);
            let after = enqueued(queue, request);
            &&& outcome is Queued <==> open && queue.in_use < queue.capacity
            &&& outcome is Closed <==> !open
            &&& outcome is Closed ==> outcome->Closed_0 == (UsbWriteFailure {
                phase: request.phase,
                kind: UsbWriteFailureKind::QueueClosed,
            })
            &&& outcome is Full ==> outcome->Full_0 == request
            &&& outcome is Queued ==> after.requests == queue.requests.push(request)
                && after.in_use == queue.in_use + 1
            &&& !(outcome is Queued) ==> after == queue
        }),
{
}

/// The writer gets the request that has waited longest, and no request twice. It waits while
/// more can come, and is told when none can.
pub proof fn oldest_request_is_handed_out<T>(queue: QueueState<T>)
    ensures
        found_in(queue) is Request <==> !queue.cancelled && queue.requests.len() > 0,
        found_in(queue) is Request ==> found_in(queue)->Request_0 == queue.requests[0]
            && received(queue).requests.len() == queue.requests.len() - 1 && forall|i: int|
            0 <= i < queue.requests.len() - 1 ==> #[trigger] received(queue).requests[i]
                == queue.requests[i + 1],
        found_in(queue) is Closed <==> queue.cancelled || (queue.requests.len() == 0
            && queue.worker_closed),
        !(found_in(queue) is Request) ==> received(queue) == queue,
        received(queue).in_use == queue.in_use,
{
}

/// A slot that is given back is one of a request that has left the queue, so that requests
/// that wait keep theirs.
pub proof fn waiting_requests_keep_their_slots<T>(queue: QueueState<T>)
    requires
        queue.requests.len() <= queue.in_use,
    ensures
        slot_released(queue).requests == queue.requests,
        queue.requests.len() <= slot_released(queue).in_use,
        queue.requests.len() < queue.in_use ==> slot_released(queue).in_use == queue.in_use - 1,
        queue.requests.len() == queue.in_use ==> slot_released(queue).in_use == queue.in_use,
{
}

/// A detach discards what waits, asks for its own answer by its deadline, and closes the queue
/// to everything else.
pub proof fn detach_discards_what_waits<T>(
    queue: QueueState<T>,
    bytes: Vec<u8>,
    deadline: u128,
    acknowledgement: T,
)
    ensures
        can_detach(queue) <==> !queue.cancelled && !queue.worker_closed,
        ({
            let request = detach_request(bytes, deadline, acknowledgement);
            let after = detaching(queue, request);
            &&& after.requests.len() == 1
            &&& after.requests[0] == request
            &&& !after.accepting
            &&& request.phase is Detach
            &&& request.bytes == bytes
            &&& request.deadline == Some(deadline)
            &&& request.acknowledgement == Some(acknowledgement)
            &&& request.packet is None
            &&& !request.await_terminal_detach_on_failure
        }),
{
}

} // verus!
