//! Writes to the USB bulk endpoint: requests, deadlines, partial transfers, and how a
//! write fails.
use vstd::prelude::*;
use vstd::string::*;
use crate::interface::{earlier, min_time, time_until};
use crate::text::{decimal, decimal_text, join2, join3, signed_decimal, signed_decimal_text};

verus! {

/// A transfer is not started for less time than this.
pub const MIN_TRANSFER_TIMEOUT: u128 = 1_000_000;

/// How long a packet may take from the queue to its acknowledgement.
pub const USB_PACKET_WRITE_DEADLINE: u128 = 2_000_000_000;

/// What a write is for.
#[derive(Clone, Copy, Debug, PartialEq, Eq, Structural)]
pub enum UsbWritePhase {
    Detect,
    Capability,
    Initialise,
    Packet,
    Detach,
}

impl UsbWritePhase {
    /// The phase's name in diagnostics.
    pub open spec fn name(self) -> Seq<char> {
        match self {
            UsbWritePhase::Detect => "detect"@,
            UsbWritePhase::Capability => "capability"@,
            UsbWritePhase::Initialise => "init"@,
            UsbWritePhase::Packet => "packet"@,
            UsbWritePhase::Detach => "detach"@,
        }
    }

    /// The phase's name in diagnostics.
    pub fn label(self) -> (label: &'static str)
        ensures
            label@ == self.name(),
    {
        match self {
            UsbWritePhase::Detect => "detect",
            UsbWritePhase::Capability => "capability",
            UsbWritePhase::Initialise => "init",
            UsbWritePhase::Packet => "packet",
            UsbWritePhase::Detach => "detach",
        }
    }
}

/// Why one bulk transfer did not return a byte count.
#[derive(Clone, Debug, PartialEq, Eq)]
pub enum UsbTransferError {
    Backend(String),
    WrongReturnType,
}

/// Why a write failed.
#[derive(Clone, Debug, PartialEq, Eq)]
pub enum UsbWriteFailureKind {
    Backend(String),
    WrongReturnType,
    ZeroLength,
    NegativeLength(i32),
    OversizedLength { returned: i32, remaining: usize },
    QueueClosed,
    AcknowledgementDropped,
    DeadlineElapsed,
    AdmissionClosed,
}

/// A failed write.
#[derive(Clone, Debug, PartialEq, Eq)]
pub struct UsbWriteFailure {
    pub phase: UsbWritePhase,
    pub kind: UsbWriteFailureKind,
}

impl UsbWriteFailure {
    /// The failure in words.
    pub open spec fn words(self) -> Seq<char> {
        self.phase.name() + (match self.kind {
            UsbWriteFailureKind::Backend(error) => " write: "@ + error@,
            UsbWriteFailureKind::WrongReturnType => " write returned a non-integer JNI value"@,
            UsbWriteFailureKind::ZeroLength => " write made no progress"@,
            UsbWriteFailureKind::NegativeLength(returned) => " write returned "@
                + signed_decimal_text(returned as int),
            UsbWriteFailureKind::OversizedLength { returned, remaining } => " write returned "@
                + signed_decimal_text(returned as int) + " for "@ + decimal_text(remaining as nat)
                + " remaining bytes"@,
            UsbWriteFailureKind::QueueClosed => " writer queue closed"@,
            UsbWriteFailureKind::AcknowledgementDropped => " writer acknowledgement dropped"@,
            UsbWriteFailureKind::DeadlineElapsed => " queue-to-transfer deadline elapsed"@,
            UsbWriteFailureKind::AdmissionClosed => " protocol/flow admission closed"@,
        })
    }

    /// The failure in words.
    pub fn message(&self) -> (message: String)
        ensures
            message@ == self.words(),
    {
        let detail = match &self.kind {
            UsbWriteFailureKind::Backend(error) => join2(" write: ", error.as_str()),
            UsbWriteFailureKind::WrongReturnType =>
                " write returned a non-integer JNI value".to_owned(),
            UsbWriteFailureKind::ZeroLength => " write made no progress".to_owned(),
            UsbWriteFailureKind::NegativeLength(returned) => join2(
                " write returned ",
                signed_decimal(*returned).as_str(),
            ),
            UsbWriteFailureKind::OversizedLength { returned, remaining } => {
                let head = join3(" write returned ", signed_decimal(*returned).as_str(), " for ");
                join3(head.as_str(), decimal(*remaining as u64).as_str(), " remaining bytes")
            },
            UsbWriteFailureKind::QueueClosed => " writer queue closed".to_owned(),
            UsbWriteFailureKind::AcknowledgementDropped =>
                " writer acknowledgement dropped".to_owned(),
            UsbWriteFailureKind::DeadlineElapsed => " queue-to-transfer deadline elapsed".to_owned(),
            UsbWriteFailureKind::AdmissionClosed => " protocol/flow admission closed".to_owned(),
        };
        let message = join2(self.phase.label(), detail.as_str());
        assert(message@ =~= self.words());
        message
    }
}

/// The time that one transfer may take: the default, cut short by the deadline; none
/// where less than the minimum is left.
pub open spec fn transfer_time(
    deadline: Option<u128>,
    now: u128,
    default_timeout: u128,
) -> Option<u128> {
    match deadline {
        None => Some(default_timeout),
        Some(deadline) => if time_until(now, deadline) < MIN_TRANSFER_TIMEOUT {
            None
        } else {
            Some(earlier(default_timeout, time_until(now, deadline)))
        },
    }
}

/// The time that one transfer may take.
pub fn transfer_timeout(
    deadline: Option<u128>,
    now: u128,
    default_timeout: u128,
    phase: UsbWritePhase,
) -> (timeout: Result<u128, UsbWriteFailure>)
    ensures
        match transfer_time(deadline, now, default_timeout) {
            Some(time) => timeout == Ok::<u128, UsbWriteFailure>(time),
            None => timeout == Err::<u128, UsbWriteFailure>(
                UsbWriteFailure { phase, kind: UsbWriteFailureKind::DeadlineElapsed },
            ),
        },
{
    match deadline {
        None => Ok(default_timeout),
        Some(deadline) => {
            let remaining: u128 = deadline.saturating_sub(now);
            if remaining < MIN_TRANSFER_TIMEOUT {
                Err(UsbWriteFailure { phase, kind: UsbWriteFailureKind::DeadlineElapsed })
            } else {
                Ok(min_time(default_timeout, remaining))
            }
        },
    }
}

/// A packet among the writes.
#[derive(Clone, Copy, Debug, PartialEq, Eq, Structural)]
pub struct UsbPacketWrite {
    /// The length of the packet before framing.
    pub payload_len: u64,
}

/// One write. `T` is what its result goes to; a request that is discarded drops it.
#[derive(Debug)]
pub struct UsbWriteRequest<T> {
    pub phase: UsbWritePhase,
    pub bytes: Vec<u8>,
    pub deadline: Option<u128>,
    pub acknowledgement: Option<T>,
    /// After a failure only a detach may still be written.
    pub await_terminal_detach_on_failure: bool,
    pub packet: Option<UsbPacketWrite>,
}

/// What became of waiting for the result of a write.
#[derive(Debug)]
pub enum UsbAcknowledgement {
    Answered(Result<(), UsbWriteFailure>),
    /// The request was discarded.
    Dropped,
    TimedOut,
}

/// The time that is left to wait for a result, if any is.
pub open spec fn time_left(deadline: u128, now: u128) -> Option<u128> {
    if deadline > now {
        Some((deadline - now) as u128)
    } else {
        None::<u128>
    }
}

/// The time that is left to wait for a result, if any is.
pub fn acknowledgement_time(deadline: u128, now: u128) -> (time: Option<u128>)
    ensures
        time == time_left(deadline, now),
{
    if deadline > now {
        Some(deadline - now)
    } else {
        None
    }
}

/// The result of a write as the requester sees it.
pub open spec fn acknowledged(
    phase: UsbWritePhase,
    acknowledgement: UsbAcknowledgement,
) -> Result<(), UsbWriteFailure> {
    match acknowledgement {
        UsbAcknowledgement::Answered(result) => result,
        UsbAcknowledgement::Dropped => Err(
            UsbWriteFailure { phase, kind: UsbWriteFailureKind::AcknowledgementDropped },
        ),
        UsbAcknowledgement::TimedOut => Err(
            UsbWriteFailure { phase, kind: UsbWriteFailureKind::DeadlineElapsed },
        ),
    }
}

/// The result of a write as the requester sees it.
pub fn acknowledgement_result(phase: UsbWritePhase, acknowledgement: UsbAcknowledgement) -> (result:
    Result<(), UsbWriteFailure>)
    ensures
        result == acknowledged(phase, acknowledgement),
{
    match acknowledgement {
        UsbAcknowledgement::Answered(result) => result,
        UsbAcknowledgement::Dropped => Err(
            UsbWriteFailure { phase, kind: UsbWriteFailureKind::AcknowledgementDropped },
        ),
        UsbAcknowledgement::TimedOut => Err(
            UsbWriteFailure { phase, kind: UsbWriteFailureKind::DeadlineElapsed },
        ),
    }
}

/// What a write under way does next.
#[derive(Clone, Debug, PartialEq, Eq)]
pub enum UsbWriteStep {
    /// Transfer what starts at `offset`, within `timeout`.
    Transfer { offset: usize, timeout: u128 },
    /// Every byte is through.
    Complete,
    Fail(UsbWriteFailure),
}

/// How a complete write ends.
#[derive(Debug, PartialEq, Eq)]
pub struct UsbWriteCompletion {
    /// The bytes to count as sent.
    pub counted: u64,
    pub result: Result<(), UsbWriteFailure>,
}

/// A write under way.
#[derive(Clone, Copy, Debug, PartialEq, Eq, Structural)]
pub struct UsbWriteProgress {
    pub phase: UsbWritePhase,
    pub len: usize,
    pub offset: usize,
    pub deadline: Option<u128>,
    pub default_timeout: u128,
    pub packet: Option<UsbPacketWrite>,
}

/// Why the answer to one transfer of `remaining` bytes ends the write, if it does: it
/// has to be a positive count of no more than was offered.
pub open spec fn transfer_failure(
    transferred: Result<i32, UsbTransferError>,
    remaining: int,
) -> Option<UsbWriteFailureKind> {
    match transferred {
        Err(UsbTransferError::Backend(error)) => Some(UsbWriteFailureKind::Backend(error)),
        Err(UsbTransferError::WrongReturnType) => Some(UsbWriteFailureKind::WrongReturnType),
        Ok(count) => if count < 0 {
            Some(UsbWriteFailureKind::NegativeLength(count))
        } else if count == 0 {
            Some(UsbWriteFailureKind::ZeroLength)
        } else if count > remaining {
            Some(
                UsbWriteFailureKind::OversizedLength {
                    returned: count,
                    remaining: remaining as usize,
                },
            )
        } else {
            None
        },
    }
}

impl UsbWriteProgress {
    /// No more is through than there is.
    pub open spec fn well_formed(self) -> bool {
        self.offset <= self.len
    }

    /// A write of which nothing is through.
    pub fn new<T>(request: &UsbWriteRequest<T>, default_timeout: u128) -> (progress: Self)
        ensures
            progress.well_formed(),
            progress == (UsbWriteProgress {
                phase: request.phase,
                len: request.bytes@.len() as usize,
                offset: 0,
                deadline: request.deadline,
                default_timeout,
                packet: request.packet,
            }),
    {
        UsbWriteProgress {
            phase: request.phase,
            len: request.bytes.len(),
            offset: 0,
            deadline: request.deadline,
            default_timeout,
            packet: request.packet,
        }
    }

    /// What a write under way does next.
    pub open spec fn step_at(self, now: u128) -> UsbWriteStep {
        if self.offset >= self.len {
            UsbWriteStep::Complete
        } else {
            match transfer_time(self.deadline, now, self.default_timeout) {
                Some(timeout) => UsbWriteStep::Transfer { offset: self.offset, timeout },
                None => UsbWriteStep::Fail(
                    UsbWriteFailure {
                        phase: self.phase,
                        kind: UsbWriteFailureKind::DeadlineElapsed,
                    },
                ),
            }
        }
    }

    /// The write after `count` bytes more are through.
    pub open spec fn advanced(self, count: int) -> UsbWriteProgress {
        UsbWriteProgress { offset: (self.offset + count) as usize, ..self }
    }

    /// The bytes that a complete write counts as sent.
    pub open spec fn counts(self) -> u64 {
        match self.packet {
            Some(packet) => packet.payload_len,
            None => 0,
        }
    }

    /// How a complete write is answered.
    pub open spec fn answer_at(self, now: u128) -> Result<(), UsbWriteFailure> {
        if self.is_late(now) {
            Err::<(), UsbWriteFailure>(
                UsbWriteFailure { phase: self.phase, kind: UsbWriteFailureKind::DeadlineElapsed },
            )
        } else {
            Ok(())
        }
    }

    /// Decides what to do next.
    pub fn next(&self, now: u128) -> (step: UsbWriteStep)
        requires
            self.well_formed(),
        ensures
            step == self.step_at(now),
    {
        if self.offset >= self.len {
            return UsbWriteStep::Complete;
        }
        match transfer_timeout(self.deadline, now, self.default_timeout, self.phase) {
            Ok(timeout) => UsbWriteStep::Transfer { offset: self.offset, timeout },
            Err(failure) => UsbWriteStep::Fail(failure),
        }
    }

    /// Takes the answer to one transfer into account.
    pub fn transferred(&mut self, transferred: Result<i32, UsbTransferError>) -> (failure: Option<
        UsbWriteFailure,
    >)
        requires
            old(self).well_formed(),
        ensures
            final(self).well_formed(),
            match transfer_failure(transferred, old(self).len - old(self).offset) {
                Some(kind) => failure == Some(UsbWriteFailure { phase: old(self).phase, kind })
                    && *final(self) == *old(self),
                None => failure is None && *final(self) == old(self).advanced(
                    transferred->Ok_0 as int,
                ),
            },
    {
        let phase = self.phase;
        let count: i32 = match transferred {
            Err(UsbTransferError::Backend(error)) => {
                return Some(UsbWriteFailure { phase, kind: UsbWriteFailureKind::Backend(error) });
            },
            Err(UsbTransferError::WrongReturnType) => {
                return Some(UsbWriteFailure { phase, kind: UsbWriteFailureKind::WrongReturnType });
            },
            Ok(count) => count,
        };
        if count < 0 {
            return Some(
                UsbWriteFailure { phase, kind: UsbWriteFailureKind::NegativeLength(count) },
            );
        }
        if count == 0 {
            return Some(UsbWriteFailure { phase, kind: UsbWriteFailureKind::ZeroLength });
        }
        let remaining: usize = self.len - self.offset;
        if count as usize > remaining {
            return Some(
                UsbWriteFailure {
                    phase,
                    kind: UsbWriteFailureKind::OversizedLength { returned: count, remaining },
                },
            );
        }
        self.offset = self.offset + count as usize;
        None
    }

    /// The write is late.
    pub open spec fn is_late(self, now: u128) -> bool {
        self.deadline is Some && now > self.deadline->0
    }

    /// Ends a write of which every byte is through. A packet counts as sent even if it
    /// is late: what the device has taken must not be sent again.
    pub fn finish(&self, now: u128) -> (completion: UsbWriteCompletion)
        requires
            self.offset == self.len,
        ensures
            completion.counted == self.counts(),
            completion.result == self.answer_at(now),
    {
        let counted: u64 = match self.packet {
            Some(packet) => packet.payload_len,
            None => 0,
        };
        let late = match self.deadline {
            Some(deadline) => now > deadline,
            None => false,
        };
        let result = if late {
            Err(UsbWriteFailure { phase: self.phase, kind: UsbWriteFailureKind::DeadlineElapsed })
        } else {
            Ok(())
        };
        UsbWriteCompletion { counted, result }
    }
}

/// A transfer that does not end the write always brings it closer to its end, so that
/// a write never runs on without progress.
pub proof fn transfers_make_progress(
    progress: UsbWriteProgress,
    transferred: Result<i32, UsbTransferError>,
)
    requires
        progress.well_formed(),
        transfer_failure(transferred, progress.len - progress.offset) is None,
    ensures
        transferred is Ok,
        progress.offset < progress.offset + transferred->Ok_0 <= progress.len,
{
}

/// A transfer takes no longer than the default and ends by the deadline; with less than a
/// millisecond left none is started. Without a deadline it has the default time.
pub proof fn transfer_ends_by_its_deadline(deadline: u128, now: u128, default_timeout: u128)
    ensures
        transfer_time(None, now, default_timeout) == Some(default_timeout),
        transfer_time(Some(deadline), now, default_timeout) is Some <==> deadline - now
            >= 1_000_000,
        transfer_time(Some(deadline), now, default_timeout) is Some ==> {
            let time = transfer_time(Some(deadline), now, default_timeout)->0;
            &&& time <= default_timeout
            &&& now + time <= deadline
            &&& time == default_timeout || now + time == deadline
        },
        time_left(deadline, now) is Some <==> now < deadline,
        now < deadline ==> now + time_left(deadline, now)->0 == deadline,
{
}

/// A write is complete when every byte is through, and not before. Until then it goes on from
/// the first byte that is not, or fails because its time is over.
pub proof fn write_goes_on_where_it_stopped(progress: UsbWriteProgress, now: u128)
    requires
        progress.well_formed(),
    ensures
        progress.step_at(now) is Complete <==> progress.offset == progress.len,
        progress.step_at(now) is Transfer ==> progress.step_at(now)->offset == progress.offset,
        progress.step_at(now) is Fail <==> progress.offset < progress.len && progress.deadline
            is Some && progress.deadline->0 - now < 1_000_000,
        progress.step_at(now) is Fail ==> progress.step_at(now)->Fail_0 == (UsbWriteFailure {
            phase: progress.phase,
            kind: UsbWriteFailureKind::DeadlineElapsed,
        }),
{
}

/// A transfer is good if it brought at least one byte through and no more than were left; each
/// other answer ends the write for its own reason.
pub proof fn transfer_answers_are_told_apart(
    transferred: Result<i32, UsbTransferError>,
    remaining: int,
)
    requires
        0 < remaining <= usize::MAX,
    ensures
        transfer_failure(transferred, remaining) is None <==> transferred is Ok && 0
            < transferred->Ok_0 <= remaining,
        transferred == Ok::<i32, UsbTransferError>(0) ==> transfer_failure(transferred, remaining)
            == Some(UsbWriteFailureKind::ZeroLength),
        transferred is Ok && transferred->Ok_0 < 0 ==> transfer_failure(transferred, remaining)
            == Some(UsbWriteFailureKind::NegativeLength(transferred->Ok_0)),
        transferred is Ok && transferred->Ok_0 > remaining ==> transfer_failure(
            transferred,
            remaining,
        ) == Some(
            UsbWriteFailureKind::OversizedLength {
                returned: transferred->Ok_0,
                remaining: remaining as usize,
            },
        ),
        transferred == Err::<i32, UsbTransferError>(UsbTransferError::WrongReturnType)
            ==> transfer_failure(transferred, remaining) == Some(
            UsbWriteFailureKind::WrongReturnType,
        ),
        transferred is Err && transferred->Err_0 is Backend ==> transfer_failure(
            transferred,
            remaining,
        ) == Some(UsbWriteFailureKind::Backend(transferred->Err_0->Backend_0)),
{
}

/// What is through stays through: a good transfer moves the write on by its bytes and changes
/// nothing else.
pub proof fn good_transfer_moves_the_write_on(progress: UsbWriteProgress, count: int)
    requires
        0 < count,
        progress.offset + count <= progress.len,
    ensures
        progress.advanced(count).offset == progress.offset + count,
        progress.advanced(count).len == progress.len,
        progress.advanced(count).phase == progress.phase,
        progress.advanced(count).deadline == progress.deadline,
        progress.advanced(count).packet == progress.packet,
        progress.advanced(count).well_formed(),
{
}

/// A complete packet counts with its length before framing, also where it is late; a request
/// that is no packet counts nothing. The answer says whether it was in time.
pub proof fn complete_write_counts_its_packet(progress: UsbWriteProgress, now: u128)
    ensures
        progress.packet is Some ==> progress.counts() == progress.packet->0.payload_len,
        progress.packet is None ==> progress.counts() == 0,
        progress.answer_at(now) is Ok <==> progress.deadline is None || now
            <= progress.deadline->0,
        progress.answer_at(now) is Err ==> progress.answer_at(now)->Err_0 == (UsbWriteFailure {
            phase: progress.phase,
            kind: UsbWriteFailureKind::DeadlineElapsed,
        }),
{
}

/// Whoever waits for a write gets the writer's own answer; a request that was discarded, or not
/// answered in time, has failed.
pub proof fn requester_gets_the_writers_answer(
    phase: UsbWritePhase,
    acknowledgement: UsbAcknowledgement,
)
    ensures
        acknowledgement is Answered ==> acknowledged(phase, acknowledgement)
            == acknowledgement->Answered_0,
        acknowledgement is Dropped ==> acknowledged(phase, acknowledgement) == Err::<
            (),
            UsbWriteFailure,
        >(UsbWriteFailure { phase, kind: UsbWriteFailureKind::AcknowledgementDropped }),
        acknowledgement is TimedOut ==> acknowledged(phase, acknowledgement) == Err::<
            (),
            UsbWriteFailure,
        >(UsbWriteFailure { phase, kind: UsbWriteFailureKind::DeadlineElapsed }),
{
}

} // verus!
