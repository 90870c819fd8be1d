//! Ownership of one BLE connection generation: its identity, the stages it goes
//! through, and what ends a stage.
use vstd::prelude::*;
use vstd::string::*;
use bytes::Bytes;
use crate::interface::{deadline_after, earlier, instant_after, min_time, MILLISECOND, SECOND};
use crate::payload::{buffer_slice, contents};
use crate::text::{join2, join3};

verus! {

/// How often a running stage looks for a stop request.
pub const STOP_POLL: u128 = 100_000_000;

/// Numbers the connection generations of one driver; zero names none.
#[derive(Clone, Copy, Debug, PartialEq, Eq, PartialOrd, Ord, Structural)]
pub struct BleGenerationId(u64);

impl Default for BleGenerationId {
    fn default() -> (id: Self)
        ensures
            id.number() == 0,
    {
        BleGenerationId(0)
    }
}

/// The number behind a generation's.
pub open spec fn number_after(number: u64) -> u64 {
    if number < u64::MAX {
        (number + 1) as u64
    } else {
        1
    }
}

impl BleGenerationId {
    /// The generation's number.
    pub closed spec fn number(self) -> u64 {
        self.0
    }

    /// Moves on to the next generation. The number grows by one; behind the
    /// largest comes one again, never zero.
    pub fn next(&mut self) -> (id: Self)
        ensures
            id == *final(self),
            final(self).number() == number_after(old(self).number()),
    {
        let number: u64 = self.0.wrapping_add(1);
        self.0 = if number == 0 {
            1
        } else {
            number
        };
        *self
    }

    /// The generation's number.
    pub fn get(self) -> (number: u64)
        ensures
            number == self.number(),
    {
        self.0
    }
}

/// One bounded platform operation of a generation.
#[derive(Clone, Copy, Debug, PartialEq, Eq, Structural)]
pub enum BleOperationStage {
    Connect,
    ConnectedCheck,
    Discovery,
    PairingRead,
    PairingSubscribe,
    Subscribe,
    NotificationAcquisition,
    Detect,
    Capability,
    Configure,
    ActiveWrite,
    Disconnect,
}

impl BleOperationStage {
    /// How long the stage may take, in nanoseconds. A stage that waits for a
    /// person to enter a passkey gets a minute.
    pub open spec fn limit(self) -> u128 {
        match self {
            BleOperationStage::PairingRead => 60_000_000_000,
            BleOperationStage::PairingSubscribe => 60_000_000_000,
            BleOperationStage::ActiveWrite => 5_000_000_000,
            BleOperationStage::Disconnect => 3_000_000_000,
            _ => 10_000_000_000,
        }
    }

    /// How long the stage may take, in nanoseconds.
    pub fn deadline(self) -> (limit: u128)
        ensures
            limit == self.limit(),
    {
        match self {
            BleOperationStage::PairingRead | BleOperationStage::PairingSubscribe => 60 * SECOND,
            BleOperationStage::ActiveWrite => 5 * SECOND,
            BleOperationStage::Disconnect => 3 * SECOND,
            BleOperationStage::Connect
            | BleOperationStage::ConnectedCheck
            | BleOperationStage::Discovery
            | BleOperationStage::Subscribe
            | BleOperationStage::NotificationAcquisition
            | BleOperationStage::Detect
            | BleOperationStage::Capability
            | BleOperationStage::Configure => 10 * SECOND,
        }
    }

    /// The stage's name in diagnostics.
    pub open spec fn name(self) -> Seq<char> {
        match self {
            BleOperationStage::Connect => "connect"@,
            BleOperationStage::ConnectedCheck => "connected check"@,
            BleOperationStage::Discovery => "service discovery"@,
            BleOperationStage::PairingRead => "pairing read"@,
            BleOperationStage::PairingSubscribe => "pairing subscribe"@,
            BleOperationStage::Subscribe => "notification subscribe"@,
            BleOperationStage::NotificationAcquisition => "notification acquisition"@,
            BleOperationStage::Detect => "detect write"@,
            BleOperationStage::Capability => "capability write"@,
            BleOperationStage::Configure => "radio configuration write"@,
            BleOperationStage::ActiveWrite => "application write"@,
            BleOperationStage::Disconnect => "disconnect"@,
        }
    }

    /// The stage's name in diagnostics.
    pub fn label(self) -> (label: &'static str)
        ensures
            label@ == self.name(),
    {
        match self {
            BleOperationStage::Connect => "connect",
            BleOperationStage::ConnectedCheck => "connected check",
            BleOperationStage::Discovery => "service discovery",
            BleOperationStage::PairingRead => "pairing read",
            BleOperationStage::PairingSubscribe => "pairing subscribe",
            BleOperationStage::Subscribe => "notification subscribe",
            BleOperationStage::NotificationAcquisition => "notification acquisition",
            BleOperationStage::Detect => "detect write",
            BleOperationStage::Capability => "capability write",
            BleOperationStage::Configure => "radio configuration write",
            BleOperationStage::ActiveWrite => "application write",
            BleOperationStage::Disconnect => "disconnect",
        }
    }
}

/// What ended a stage short of success.
#[derive(Clone, Debug, PartialEq, Eq)]
pub enum BleGenerationExit {
    TargetDisconnected { stage: BleOperationStage },
    DeadlineElapsed { stage: BleOperationStage },
    StopRequested { stage: BleOperationStage },
    EventStreamEnded { stage: BleOperationStage },
    StageFailed { stage: BleOperationStage, reason: String },
}

impl BleGenerationExit {
    /// The stage that was ended.
    pub open spec fn ended_stage(self) -> BleOperationStage {
        match self {
            BleGenerationExit::TargetDisconnected { stage } => stage,
            BleGenerationExit::DeadlineElapsed { stage } => stage,
            BleGenerationExit::StopRequested { stage } => stage,
            BleGenerationExit::EventStreamEnded { stage } => stage,
            BleGenerationExit::StageFailed { stage, .. } => stage,
        }
    }

    /// The exit in words.
    pub open spec fn words(self) -> Seq<char> {
        match self {
            BleGenerationExit::TargetDisconnected { stage } => "target disconnected during "@
                + stage.name(),
            BleGenerationExit::DeadlineElapsed { stage } => stage.name() + " timed out"@,
            BleGenerationExit::StopRequested { stage } => "stop requested during "@ + stage.name(),
            BleGenerationExit::EventStreamEnded { stage } => "adapter event stream ended during "@
                + stage.name(),
            BleGenerationExit::StageFailed { stage, reason } => stage.name() + ": "@ + reason@,
        }
    }

    /// The exit in words.
    pub fn message(&self) -> (message: String)
        ensures
            message@ == self.words(),
    {
        match self {
            BleGenerationExit::TargetDisconnected { stage } => join2(
                "target disconnected during ",
                stage.label(),
            ),
            BleGenerationExit::DeadlineElapsed { stage } => join2(stage.label(), " timed out"),
            BleGenerationExit::StopRequested { stage } => join2(
                "stop requested during ",
                stage.label(),
            ),
            BleGenerationExit::EventStreamEnded { stage } => join2(
                "adapter event stream ended during ",
                stage.label(),
            ),
            BleGenerationExit::StageFailed { stage, reason } => join3(
                stage.label(),
                ": ",
                reason.as_str(),
            ),
        }
    }
}

/// A fixed word for the kind of an exit, without device data.
pub open spec fn exit_class(exit: BleGenerationExit) -> Seq<char> {
    match exit {
        BleGenerationExit::TargetDisconnected { .. } => "target_disconnected"@,
        BleGenerationExit::DeadlineElapsed { .. } => "deadline_elapsed"@,
        BleGenerationExit::StopRequested { .. } => "stop_requested"@,
        BleGenerationExit::EventStreamEnded { .. } => "event_stream_ended"@,
        BleGenerationExit::StageFailed { .. } => "stage_failed"@,
    }
}

/// A fixed word for the kind of an exit, without device data.
pub fn generation_exit_result_class(error: &BleGenerationExit) -> (class: &'static str)
    ensures
        class@ == exit_class(*error),
{
    match error {
        BleGenerationExit::TargetDisconnected { .. } => "target_disconnected",
        BleGenerationExit::DeadlineElapsed { .. } => "deadline_elapsed",
        BleGenerationExit::StopRequested { .. } => "stop_requested",
        BleGenerationExit::EventStreamEnded { .. } => "event_stream_ended",
        BleGenerationExit::StageFailed { .. } => "stage_failed",
    }
}

/// What is known of the platform operation at one wake.
#[derive(Clone, Debug, PartialEq, Eq)]
pub enum OperationPoll {
    Pending,
    Succeeded,
    Failed(String),
}

/// What is known of the adapter's event stream at one wake.
#[derive(Clone, Copy, Debug, PartialEq, Eq, Structural)]
pub enum EventPoll {
    Pending,
    TargetDisconnected,
    Unrelated,
    Ended,
}

/// What a stage does after one wake.
#[derive(Clone, Debug, PartialEq, Eq)]
pub enum GenerationStep {
    Succeeded,
    Exit(BleGenerationExit),
    Continue,
}

/// The instant at which a stage that begins at `now` runs out of time.
pub open spec fn deadline_of_stage(stage: BleOperationStage, now: u128) -> u128 {
    instant_after(now, stage.limit())
}

/// The instant at which a stage that begins at `now` runs out of time.
pub fn generation_deadline(stage: BleOperationStage, now: u128) -> (deadline: u128)
    ensures
        deadline == deadline_of_stage(stage, now),
{
    deadline_after(now, stage.deadline())
}

/// The instant until which a stage may sleep before it looks again.
pub open spec fn wake_of_stage(deadline: u128, now: u128) -> u128 {
    earlier(deadline, instant_after(now, STOP_POLL))
}

/// The instant until which a stage may sleep before it looks again.
pub fn generation_wake(deadline: u128, now: u128) -> (wake: u128)
    ensures
        wake == wake_of_stage(deadline, now),
{
    min_time(deadline, deadline_after(now, 100 * MILLISECOND))
}

/// What a wake means for a stage.
pub open spec fn stage_step(
    stage: BleOperationStage,
    deadline: u128,
    running: bool,
    operation: OperationPoll,
    event: EventPoll,
    now: u128,
) -> GenerationStep {
    if !running {
        GenerationStep::Exit(BleGenerationExit::StopRequested { stage })
    } else {
        match operation {
            OperationPoll::Succeeded => GenerationStep::Succeeded,
            OperationPoll::Failed(reason) => GenerationStep::Exit(
                BleGenerationExit::StageFailed { stage, reason },
            ),
            OperationPoll::Pending => match event {
                EventPoll::TargetDisconnected => GenerationStep::Exit(
                    BleGenerationExit::TargetDisconnected { stage },
                ),
                EventPoll::Ended => GenerationStep::Exit(
                    BleGenerationExit::EventStreamEnded { stage },
                ),
                EventPoll::Unrelated => GenerationStep::Continue,
                EventPoll::Pending => if now >= deadline {
                    GenerationStep::Exit(BleGenerationExit::DeadlineElapsed { stage })
                } else {
                    GenerationStep::Continue
                },
            },
        }
    }
}

/// Decides what a wake means for a stage. A stop request comes before the
/// operation's own result, that before an adapter event, and that before the
/// deadline. An event of another device never ends the stage.
pub fn generation_step(
    stage: BleOperationStage,
    deadline: u128,
    running: bool,
    operation: OperationPoll,
    event: EventPoll,
    now: u128,
) -> (step: GenerationStep)
    ensures
        step == stage_step(stage, deadline, running, operation, event, now),
{
    if !running {
        return GenerationStep::Exit(BleGenerationExit::StopRequested { stage });
    }
    match operation {
        OperationPoll::Succeeded => GenerationStep::Succeeded,
        OperationPoll::Failed(reason) => GenerationStep::Exit(
            BleGenerationExit::StageFailed { stage, reason },
        ),
        OperationPoll::Pending => match event {
            EventPoll::TargetDisconnected => GenerationStep::Exit(
                BleGenerationExit::TargetDisconnected { stage },
            ),
            EventPoll::Ended => GenerationStep::Exit(BleGenerationExit::EventStreamEnded { stage }),
            EventPoll::Unrelated => GenerationStep::Continue,
            EventPoll::Pending => if now >= deadline {
                GenerationStep::Exit(BleGenerationExit::DeadlineElapsed { stage })
            } else {
                GenerationStep::Continue
            },
        },
    }
}

/// A packet that waits to be sent, together with whether it is the station's own
/// identification.
#[derive(Debug)]
pub struct PendingOutbound {
    payload: Bytes,
    station_id: bool,
}

impl PendingOutbound {
    /// The packet's bytes.
    pub closed spec fn bytes(self) -> Seq<u8> {
        contents(self.payload)
    }

    /// The packet is the station's identification.
    pub closed spec fn is_beacon(self) -> bool {
        self.station_id
    }

    /// A packet that waits to be sent.
    pub fn new(payload: Bytes, station_id: bool) -> (pending: Self)
        ensures
            pending.bytes() == contents(payload),
            pending.is_beacon() == station_id,
    {
        PendingOutbound { payload, station_id }
    }

    /// The packet's buffer.
    pub fn payload(&self) -> (payload: &Bytes)
        ensures
            contents(*payload) == self.bytes(),
    {
        &self.payload
    }

    /// The packet's bytes.
    pub fn as_slice(&self) -> (bytes: &[u8])
        ensures
            bytes@ == self.bytes(),
    {
        buffer_slice(&self.payload)
    }

    /// Tells whether the packet is the station's identification.
    pub fn is_station_id(&self) -> (station_id: bool)
        ensures
            station_id == self.is_beacon(),
    {
        self.station_id
    }
}

/// The next generation has the next number. No generation is numbered zero, and none as the
/// one before it.
pub proof fn generations_are_numbered_on(number: u64)
    ensures
        number < u64::MAX ==> number_after(number) == number + 1,
        number_after(number) != 0,
        number_after(number) != number,
{
}

/// A stage that waits for a person to enter a passkey has a minute, a write of a packet five
/// seconds, a disconnect three, and every other stage ten.
pub proof fn stages_have_their_time(stage: BleOperationStage, now: u128)
    ensures
        now + stage.limit() <= u128::MAX ==> deadline_of_stage(stage, now) == now + stage.limit(),
        stage.limit() == (if stage is PairingRead || stage is PairingSubscribe {
            60_000_000_000
        } else if stage is ActiveWrite {
            5_000_000_000
        } else if stage is Disconnect {
            3_000_000_000
        } else {
            10_000_000_000u128
        }),
{
}

/// A stage looks for a stop request at least every tenth of a second and never sleeps past its
/// deadline.
pub proof fn stage_looks_up_in_time(deadline: u128, now: u128)
    requires
        now + 100_000_000 <= u128::MAX,
    ensures
        wake_of_stage(deadline, now) <= deadline,
        wake_of_stage(deadline, now) <= now + 100_000_000,
        wake_of_stage(deadline, now) == deadline || wake_of_stage(deadline, now) == now
            + 100_000_000,
{
}

/// A stop ends a stage whatever else has happened. Otherwise the operation's own result
/// counts, also when its time is over; and only while it has none do the adapter's events
/// and the deadline end the stage.
pub proof fn stage_ends_for_the_first_reason(
    stage: BleOperationStage,
    deadline: u128,
    running: bool,
    operation: OperationPoll,
    event: EventPoll,
    now: u128,
)
    ensures
        ({
            let step = stage_step(stage, deadline, running, operation, event, now);
            &&& !running ==> step == GenerationStep::Exit(
                BleGenerationExit::StopRequested { stage },
            )
            &&& step is Succeeded <==> running && operation is Succeeded
            &&& running && operation is Failed ==> step == GenerationStep::Exit(
                BleGenerationExit::StageFailed { stage, reason: operation->Failed_0 },
            )
            &&& running && operation is Pending && event is TargetDisconnected ==> step
                == GenerationStep::Exit(BleGenerationExit::TargetDisconnected { stage })
            &&& running && operation is Pending && event is Ended ==> step == GenerationStep::Exit(
                BleGenerationExit::EventStreamEnded { stage },
            )
            &&& running && operation is Pending && event is Pending && now >= deadline ==> step
                == GenerationStep::Exit(BleGenerationExit::DeadlineElapsed { stage })
            &&& step is Continue <==> running && operation is Pending && (event is Unrelated || (
            event is Pending && now < deadline))
            &&& step is Exit ==> step->Exit_0.ended_stage() == stage
        }),
{
}

} // verus!
