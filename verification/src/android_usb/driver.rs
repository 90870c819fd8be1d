//! The life of an active USB session: what ends it, why, and in which order it is taken
//! down.
use vstd::prelude::*;
use crate::android_usb::config::{
    USB_DETACH_ACK_DEADLINE, USB_WORKER_JOIN_DEADLINE,
};
use crate::android_usb_lifecycle::inbound::{UsbInboundOutcome, UsbReadDrainOutcome};
use crate::rnode::RNodeRuntimeReason;

verus! {

/// How observers are told that a session has begun.
#[derive(Clone, Copy, Debug, PartialEq, Eq, Structural)]
pub enum UsbAnnouncement {
    Connected,
    /// With the evidence by which the device was admitted.
    Admitted,
}

/// How observers are told that a session has begun.
pub open spec fn announced_as(strict: bool) -> UsbAnnouncement {
    if strict {
        UsbAnnouncement::Admitted
    } else {
        UsbAnnouncement::Connected
    }
}

/// How observers are told that a session has begun: a strict one was admitted by its
/// capabilities.
pub fn session_announcement(strict: bool) -> (announcement: UsbAnnouncement)
    ensures
        announcement == announced_as(strict),
{
    if strict {
        UsbAnnouncement::Admitted
    } else {
        UsbAnnouncement::Connected
    }
}

/// How the pump ended, as far as the session is concerned.
#[derive(Clone, Copy, Debug, PartialEq, Eq, Structural)]
pub enum UsbPumpEnd {
    WriterRejected,
    ApplicationClosed,
    ReadinessTimedOut,
    StopRequested,
    /// It ended without an outcome.
    Lost,
}

/// What comes up in a session.
#[derive(Clone, Copy, Debug, PartialEq, Eq, Structural)]
pub enum UsbDriverEvent {
    /// The session was told to stop.
    StopRequested,
    /// Nobody can tell the session to stop any more.
    StopChannelClosed,
    PumpEnded(UsbPumpEnd),
    WriterEnded,
    ReaderEnded,
    EventsClosed,
    /// A read was handled.
    ReadHandled(UsbInboundOutcome),
    /// The pump was waited for; it may have had to be aborted.
    PumpJoined { in_time: bool },
    /// The reader's tail was consumed.
    Drained(UsbReadDrainOutcome),
    /// The connection was given up.
    ShutDown,
}

/// How far a session has come.
#[derive(Clone, Copy, Debug, PartialEq, Eq, Structural)]
pub enum UsbDriverPhase {
    Active,
    JoiningPump,
    Draining,
    ShuttingDown,
    Stopped,
}

/// What a session has to do.
#[derive(Clone, Copy, Debug, PartialEq, Eq, Structural)]
pub enum UsbDriverEffect {
    /// Close the transmit gate and tell observers why the session ends.
    AnnounceShutdown(RNodeRuntimeReason),
    /// Tell the pump to stop and wait for it, at most so long.
    StopPump { wait: u128 },
    AbortPump,
    /// Tell both workers to end.
    StopWorkers,
    /// Consume the reader's tail, at most so long.
    DrainReader { wait: u128 },
    /// Send the detach, wait for both workers, and give the connection up.
    ShutDown { detach_wait: u128, join_wait: u128 },
    GoOffline,
    /// Tell observers that the session is over.
    AnnounceStopped(RNodeRuntimeReason),
    /// Hand the outcome to whoever waits for it.
    PublishOutcome,
}

/// An active session, or one that is being taken down.
#[derive(Clone, Copy, Debug, PartialEq, Eq, Structural)]
pub struct UsbDriver {
    pub phase: UsbDriverPhase,
    pub stop_requested: bool,
    pub drain_reader_tail: bool,
    pub reason: RNodeRuntimeReason,
}

/// Why an event ends an active session, if it does, and whether the reader's tail is
/// still to be consumed.
pub open spec fn termination(event: UsbDriverEvent) -> Option<(RNodeRuntimeReason, bool)> {
    match event {
        UsbDriverEvent::StopRequested => Some((RNodeRuntimeReason::StopRequested, false)),
        UsbDriverEvent::StopChannelClosed => Some((RNodeRuntimeReason::DriverTerminated, false)),
        UsbDriverEvent::PumpEnded(UsbPumpEnd::WriterRejected) => Some(
            (RNodeRuntimeReason::ConnectionLost, true),
        ),
        UsbDriverEvent::PumpEnded(UsbPumpEnd::ReadinessTimedOut) => Some(
            (RNodeRuntimeReason::ConnectionLost, true),
        ),
        UsbDriverEvent::PumpEnded(UsbPumpEnd::ApplicationClosed) => Some(
            (RNodeRuntimeReason::TransportConsumerClosed, false),
        ),
        UsbDriverEvent::PumpEnded(UsbPumpEnd::StopRequested) => Some(
            (RNodeRuntimeReason::StopRequested, false),
        ),
        UsbDriverEvent::PumpEnded(UsbPumpEnd::Lost) => Some(
            (RNodeRuntimeReason::DriverTerminated, true),
        ),
        UsbDriverEvent::WriterEnded => Some((RNodeRuntimeReason::ConnectionLost, true)),
        UsbDriverEvent::ReaderEnded => Some((RNodeRuntimeReason::ConnectionLost, false)),
        UsbDriverEvent::EventsClosed => Some((RNodeRuntimeReason::ConnectionLost, false)),
        UsbDriverEvent::ReadHandled(UsbInboundOutcome::StopRequested) => Some(
            (RNodeRuntimeReason::StopRequested, false),
        ),
        UsbDriverEvent::ReadHandled(UsbInboundOutcome::TransportClosed) => Some(
            (RNodeRuntimeReason::TransportConsumerClosed, false),
        ),
        UsbDriverEvent::ReadHandled(UsbInboundOutcome::DeadlineElapsed) => Some(
            (RNodeRuntimeReason::DriverTerminated, false),
        ),
        _ => None,
    }
}

/// What a drained tail changes of the reason.
pub open spec fn drained_reason(outcome: UsbReadDrainOutcome) -> Option<RNodeRuntimeReason> {
    match outcome {
        UsbReadDrainOutcome::StopRequested => Some(RNodeRuntimeReason::StopRequested),
        UsbReadDrainOutcome::TransportClosed => Some(RNodeRuntimeReason::TransportConsumerClosed),
        _ => None,
    }
}

/// The step that gives the connection up.
pub open spec fn shut_down_effect() -> UsbDriverEffect {
    UsbDriverEffect::ShutDown {
        detach_wait: USB_DETACH_ACK_DEADLINE,
        join_wait: USB_WORKER_JOIN_DEADLINE,
    }
}

/// The session after an event, and what it has to do. An event that its phase does not
/// wait for changes nothing.
pub open spec fn driver_after(driver: UsbDriver, event: UsbDriverEvent) -> (
    UsbDriver,
    Seq<UsbDriverEffect>,
) {
    match (driver.phase, event) {
        (UsbDriverPhase::Active, _) => match termination(event) {
            Some((reason, drain)) => (
                UsbDriver {
                    phase: UsbDriverPhase::JoiningPump,
                    stop_requested: driver.stop_requested || reason is StopRequested,
                    drain_reader_tail: drain,
                    reason,
                },
                seq![
                    UsbDriverEffect::AnnounceShutdown(reason),
                    UsbDriverEffect::StopPump { wait: USB_WORKER_JOIN_DEADLINE },
                ],
            ),
            None => (driver, Seq::empty()),
        },
        (UsbDriverPhase::JoiningPump, UsbDriverEvent::PumpJoined { in_time }) => {
            let abort: Seq<UsbDriverEffect> = if in_time {
                Seq::empty()
            } else {
                seq![UsbDriverEffect::AbortPump]
            };
            if driver.drain_reader_tail {
                (
                    UsbDriver { phase: UsbDriverPhase::Draining, ..driver },
                    abort + seq![
                        UsbDriverEffect::StopWorkers,
                        UsbDriverEffect::DrainReader { wait: USB_WORKER_JOIN_DEADLINE },
                    ],
                )
            } else {
                (
                    UsbDriver { phase: UsbDriverPhase::ShuttingDown, ..driver },
                    abort + seq![shut_down_effect()],
                )
            }
        },
        (UsbDriverPhase::Draining, UsbDriverEvent::Drained(outcome)) => match drained_reason(
            outcome,
        ) {
            Some(reason) => (
                UsbDriver {
                    phase: UsbDriverPhase::ShuttingDown,
                    stop_requested: driver.stop_requested || reason is StopRequested,
                    reason,
                    ..driver
                },
                seq![UsbDriverEffect::AnnounceShutdown(reason), shut_down_effect()],
            ),
            None => (
                UsbDriver { phase: UsbDriverPhase::ShuttingDown, ..driver },
                seq![shut_down_effect()],
            ),
        },
        (UsbDriverPhase::ShuttingDown, UsbDriverEvent::ShutDown) => (
            UsbDriver { phase: UsbDriverPhase::Stopped, ..driver },
            seq![
                UsbDriverEffect::GoOffline,
                UsbDriverEffect::AnnounceStopped(driver.reason),
                UsbDriverEffect::PublishOutcome,
            ],
        ),
        _ => (driver, Seq::empty()),
    }
}

fn end_of(event: UsbDriverEvent) -> (end: Option<(RNodeRuntimeReason, bool)>)
    ensures
        end == termination(event),
{
    match event {
        UsbDriverEvent::StopRequested => Some((RNodeRuntimeReason::StopRequested, false)),
        UsbDriverEvent::StopChannelClosed => Some((RNodeRuntimeReason::DriverTerminated, false)),
        UsbDriverEvent::PumpEnded(end) => match end {
            UsbPumpEnd::WriterRejected => Some((RNodeRuntimeReason::ConnectionLost, true)),
            UsbPumpEnd::ReadinessTimedOut => Some((RNodeRuntimeReason::ConnectionLost, true)),
            UsbPumpEnd::ApplicationClosed => Some(
                (RNodeRuntimeReason::TransportConsumerClosed, false),
            ),
            UsbPumpEnd::StopRequested => Some((RNodeRuntimeReason::StopRequested, false)),
            UsbPumpEnd::Lost => Some((RNodeRuntimeReason::DriverTerminated, true)),
        },
        UsbDriverEvent::WriterEnded => Some((RNodeRuntimeReason::ConnectionLost, true)),
        UsbDriverEvent::ReaderEnded => Some((RNodeRuntimeReason::ConnectionLost, false)),
        UsbDriverEvent::EventsClosed => Some((RNodeRuntimeReason::ConnectionLost, false)),
        UsbDriverEvent::ReadHandled(outcome) => match outcome {
            UsbInboundOutcome::Complete => None,
            UsbInboundOutcome::StopRequested => Some((RNodeRuntimeReason::StopRequested, false)),
            UsbInboundOutcome::TransportClosed => Some(
                (RNodeRuntimeReason::TransportConsumerClosed, false),
            ),
            UsbInboundOutcome::DeadlineElapsed => Some(
                (RNodeRuntimeReason::DriverTerminated, false),
            ),
        },
        _ => None,
    }
}

impl UsbDriver {
    /// An active session.
    pub fn new() -> (driver: Self)
        ensures
            driver_consistent(driver),
            driver == (UsbDriver {
                phase: UsbDriverPhase::Active,
                stop_requested: false,
                drain_reader_tail: false,
                reason: RNodeRuntimeReason::DriverTerminated,
            }),
    {
        UsbDriver {
            phase: UsbDriverPhase::Active,
            stop_requested: false,
            drain_reader_tail: false,
            reason: RNodeRuntimeReason::DriverTerminated,
        }
    }

    /// Decides what to do after an event.
    pub fn advance(&mut self, event: UsbDriverEvent) -> (effects: Vec<UsbDriverEffect>)
        ensures
            (*final(self), effects@) == driver_after(*old(self), event),
    {
        let mut effects: Vec<UsbDriverEffect> = Vec::new();
        let ghost expected = driver_after(*self, event).1;
        match self.phase {
            UsbDriverPhase::Active => match end_of(event) {
                Some(end) => {
                    self.phase = UsbDriverPhase::JoiningPump;
                    self.stop_requested = self.stop_requested || end.0
                        == RNodeRuntimeReason::StopRequested;
                    self.drain_reader_tail = end.1;
                    self.reason = end.0;
                    effects.push(UsbDriverEffect::AnnounceShutdown(end.0));
                    effects.push(UsbDriverEffect::StopPump { wait: USB_WORKER_JOIN_DEADLINE });
                },
                None => {},
            },
            UsbDriverPhase::JoiningPump => match event {
                UsbDriverEvent::PumpJoined { in_time } => {
                    if !in_time {
                        effects.push(UsbDriverEffect::AbortPump);
                    }
                    if self.drain_reader_tail {
                        self.phase = UsbDriverPhase::Draining;
                        effects.push(UsbDriverEffect::StopWorkers);
                        effects.push(
                            UsbDriverEffect::DrainReader { wait: USB_WORKER_JOIN_DEADLINE },
                        );
                    } else {
                        self.phase = UsbDriverPhase::ShuttingDown;
                        effects.push(
                            UsbDriverEffect::ShutDown {
                                detach_wait: USB_DETACH_ACK_DEADLINE,
                                join_wait: USB_WORKER_JOIN_DEADLINE,
                            },
                        );
                    }
                },
                _ => {},
            },
            UsbDriverPhase::Draining => match event {
                UsbDriverEvent::Drained(outcome) => {
                    self.phase = UsbDriverPhase::ShuttingDown;
                    match outcome {
                        UsbReadDrainOutcome::StopRequested => {
                            self.stop_requested = true;
                            self.reason = RNodeRuntimeReason::StopRequested;
                            effects.push(UsbDriverEffect::AnnounceShutdown(self.reason));
                        },
                        UsbReadDrainOutcome::TransportClosed => {
                            self.reason = RNodeRuntimeReason::TransportConsumerClosed;
                            effects.push(UsbDriverEffect::AnnounceShutdown(self.reason));
                        },
                        _ => {},
                    }
                    effects.push(
                        UsbDriverEffect::ShutDown {
                            detach_wait: USB_DETACH_ACK_DEADLINE,
                            join_wait: USB_WORKER_JOIN_DEADLINE,
                        },
                    );
                },
                _ => {},
            },
            UsbDriverPhase::ShuttingDown => match event {
                UsbDriverEvent::ShutDown => {
                    self.phase = UsbDriverPhase::Stopped;
                    effects.push(UsbDriverEffect::GoOffline);
                    effects.push(UsbDriverEffect::AnnounceStopped(self.reason));
                    effects.push(UsbDriverEffect::PublishOutcome);
                },
                _ => {},
            },
            UsbDriverPhase::Stopped => {},
        }
        assert(effects@ =~= expected);
        effects
    }
}

/// A session gives a stop as its reason exactly if it was told to stop; and one that was
/// told to stop while it was active leaves the reader's tail alone.
pub open spec fn driver_consistent(driver: UsbDriver) -> bool {
    &&& driver.stop_requested <==> driver.reason is StopRequested
    &&& driver.phase is Active ==> !driver.stop_requested
    &&& driver.phase is Draining ==> !driver.stop_requested
    &&& driver.phase is JoiningPump && driver.drain_reader_tail ==> !driver.stop_requested
}

/// Every session gives a stop as its reason exactly if it was told to stop, also if it
/// was told while its reader's tail was consumed.
pub proof fn stop_is_the_reason(driver: UsbDriver, event: UsbDriverEvent)
    requires
        driver_consistent(driver),
    ensures
        driver_consistent(driver_after(driver, event).0),
{
}

/// Only a session that stops publishes an outcome, it does so as the last thing, and a
/// stopped one does nothing more.
pub proof fn outcome_is_published_once(driver: UsbDriver, event: UsbDriverEvent)
    ensures
        ({
            let (next, effects) = driver_after(driver, event);
            &&& effects.contains(UsbDriverEffect::PublishOutcome) ==> driver.phase is ShuttingDown
                && next.phase is Stopped && effects.last() is PublishOutcome
            &&& driver.phase is Stopped ==> next == driver && effects.len() == 0
        }),
{
    let (next, effects) = driver_after(driver, event);
    if effects.contains(UsbDriverEffect::PublishOutcome) {
        let i = choose|i: int| 0 <= i < effects.len() && effects[i] is PublishOutcome;
        assert(effects[i] is PublishOutcome);
    }
}

/// A strict session is announced as admitted, any other as connected.
pub proof fn session_is_announced_as_it_began(strict: bool)
    ensures
        announced_as(strict) is Admitted <==> strict,
        announced_as(strict) is Connected <==> !strict,
{
}

/// An active session is ended by a stop, by its application or its transport, and by the loss
/// of a worker, each under its own reason; a read that was handled in full leaves it active.
pub proof fn session_ends_for_its_reason(driver: UsbDriver, event: UsbDriverEvent)
    requires
        driver.phase is Active,
    ensures
        ({
            let (after, effects) = driver_after(driver, event);
            let stop = event is StopRequested || event == UsbDriverEvent::PumpEnded(
                UsbPumpEnd::StopRequested,
            ) || event == UsbDriverEvent::ReadHandled(UsbInboundOutcome::StopRequested);
            let consumer = event == UsbDriverEvent::PumpEnded(UsbPumpEnd::ApplicationClosed)
                || event == UsbDriverEvent::ReadHandled(UsbInboundOutcome::TransportClosed);
            let terminated = event is StopChannelClosed || event == UsbDriverEvent::PumpEnded(
                UsbPumpEnd::Lost,
            ) || event == UsbDriverEvent::ReadHandled(UsbInboundOutcome::DeadlineElapsed);
            let lost = event is WriterEnded || event is ReaderEnded || event is EventsClosed || event
                == UsbDriverEvent::PumpEnded(UsbPumpEnd::WriterRejected) || event
                == UsbDriverEvent::PumpEnded(UsbPumpEnd::ReadinessTimedOut);
            &&& after.phase is JoiningPump <==> stop || consumer || terminated || lost
            &&& !(after.phase is JoiningPump) ==> after == driver && effects.len() == 0
            &&& stop ==> after.reason is StopRequested && after.stop_requested
            &&& consumer ==> after.reason is TransportConsumerClosed
            &&& terminated ==> after.reason is DriverTerminated
            &&& lost ==> after.reason is ConnectionLost
            &&& after.phase is JoiningPump ==> effects == seq![
                UsbDriverEffect::AnnounceShutdown(after.reason),
                UsbDriverEffect::StopPump { wait: 1_250_000_000 },
            ]
        }),
{
}

/// What the reader still holds is delivered where the session was lost on its sending side, and
/// discarded where it was stopped, where nobody takes packets, or where the reader itself is
/// gone.
pub proof fn tail_is_delivered_after_a_lost_writer(driver: UsbDriver, event: UsbDriverEvent)
    requires
        driver.phase is Active,
        driver_after(driver, event).0.phase is JoiningPump,
    ensures
        driver_after(driver, event).0.drain_reader_tail <==> event is WriterEnded || event
            == UsbDriverEvent::PumpEnded(UsbPumpEnd::WriterRejected) || event
            == UsbDriverEvent::PumpEnded(UsbPumpEnd::ReadinessTimedOut) || event
            == UsbDriverEvent::PumpEnded(UsbPumpEnd::Lost),
{
}

/// Behind the pump's end, which is forced where it does not come in time, the tail is drained
/// where there is one to deliver, and then the connection is given up: half a second for the
/// detach and a second and a quarter for the workers.
pub proof fn session_is_taken_down_in_order(driver: UsbDriver, in_time: bool)
    requires
        driver.phase is JoiningPump,
    ensures
        ({
            let (after, effects) = driver_after(driver, UsbDriverEvent::PumpJoined { in_time });
            let give_up = UsbDriverEffect::ShutDown {
                detach_wait: 500_000_000,
                join_wait: 1_250_000_000,
            };
            &&& driver.drain_reader_tail ==> after.phase is Draining
            &&& !driver.drain_reader_tail ==> after.phase is ShuttingDown
            &&& after.reason == driver.reason && after.stop_requested == driver.stop_requested
            &&& effects == (match (in_time, driver.drain_reader_tail) {
                (true, true) => seq![
                    UsbDriverEffect::StopWorkers,
                    UsbDriverEffect::DrainReader { wait: 1_250_000_000 },
                ],
                (false, true) => seq![
                    UsbDriverEffect::AbortPump,
                    UsbDriverEffect::StopWorkers,
                    UsbDriverEffect::DrainReader { wait: 1_250_000_000 },
                ],
                (true, false) => seq![give_up],
                (false, false) => seq![UsbDriverEffect::AbortPump, give_up],
            })
        }),
{
    let effects = driver_after(driver, UsbDriverEvent::PumpJoined { in_time }).1;
    let give_up = UsbDriverEffect::ShutDown { detach_wait: 500_000_000, join_wait: 1_250_000_000 };
    assert(effects =~= (match (in_time, driver.drain_reader_tail) {
        (true, true) => seq![
            UsbDriverEffect::StopWorkers,
            UsbDriverEffect::DrainReader { wait: 1_250_000_000 },
        ],
        (false, true) => seq![
            UsbDriverEffect::AbortPump,
            UsbDriverEffect::StopWorkers,
            UsbDriverEffect::DrainReader { wait: 1_250_000_000 },
        ],
        (true, false) => seq![give_up],
        (false, false) => seq![UsbDriverEffect::AbortPump, give_up],
    }));
}

/// A stop or a closed transport that comes up while the tail is drained becomes the reason, and
/// is told; otherwise the reason stays. Either way the connection is given up next.
pub proof fn drained_session_gives_its_connection_up(
    driver: UsbDriver,
    outcome: UsbReadDrainOutcome,
)
    requires
        driver.phase is Draining,
    ensures
        ({
            let (after, effects) = driver_after(driver, UsbDriverEvent::Drained(outcome));
            let give_up = UsbDriverEffect::ShutDown {
                detach_wait: 500_000_000,
                join_wait: 1_250_000_000,
            };
            &&& after.phase is ShuttingDown
            &&& outcome is StopRequested ==> after.reason is StopRequested && after.stop_requested
                && effects == seq![
                UsbDriverEffect::AnnounceShutdown(RNodeRuntimeReason::StopRequested),
                give_up,
            ]
            &&& outcome is TransportClosed ==> after.reason is TransportConsumerClosed && effects
                == seq![
                UsbDriverEffect::AnnounceShutdown(RNodeRuntimeReason::TransportConsumerClosed),
                give_up,
            ]
            &&& outcome is Drained || outcome is DeadlineElapsed ==> after.reason == driver.reason
                && effects == seq![give_up]
        }),
{
}

/// A session whose connection was given up goes offline, says why it stopped and publishes its
/// outcome, in this order.
pub proof fn given_up_session_stops(driver: UsbDriver)
    requires
        driver.phase is ShuttingDown,
    ensures
        driver_after(driver, UsbDriverEvent::ShutDown) == (
            (UsbDriver { phase: UsbDriverPhase::Stopped, ..driver }),
            seq![
                UsbDriverEffect::GoOffline,
                UsbDriverEffect::AnnounceStopped(driver.reason),
                UsbDriverEffect::PublishOutcome,
            ],
        ),
{
}

/// While a session is taken down, only what its phase waits for moves it on.
pub proof fn takedown_is_not_disturbed(driver: UsbDriver, event: UsbDriverEvent)
    requires
        !(driver.phase is Active),
        driver.phase is JoiningPump ==> !(event is PumpJoined),
        driver.phase is Draining ==> !(event is Drained),
        driver.phase is ShuttingDown ==> !(event is ShutDown),
    ensures
        driver_after(driver, event) == (driver, Seq::<UsbDriverEffect>::empty()),
{
}

} // verus!
