//! The bounded waits of a connection generation that is not admitted yet: detect
//! evidence, capability admission, the quiet boundary behind it, and readiness.
use vstd::prelude::*;
use vstd::string::*;
use crate::ble_rnode::startup::NativeStartupReductionError;
use crate::interface::{deadline_after, earlier, instant_after, min_time, time_until, SECOND};
use crate::rnode_protocol::RNodeProtocolEvidence;

verus! {

/// How often a wait looks for a stop request.
pub const RUNNING_POLL: u128 = 1_000_000_000;

/// How long a capability response may take.
pub const RNODE_BLE_CAPABILITY_PREFLIGHT_TIMEOUT: u128 = 5_000_000_000;

/// The receive side is closed once it has been quiet for this long.
pub const RNODE_BLE_STARTUP_QUIET: u128 = 100_000_000;

/// How long a native bridge may take to answer the detect probe.
pub const RNODE_NATIVE_HANDSHAKE_TIMEOUT: u128 = 6_000_000_000;

/// The time between two detect probes.
pub const RNODE_NATIVE_HANDSHAKE_PROBE: u128 = 650_000_000;

/// How long a configured radio may take to prove its target.
pub const RNODE_BLE_READINESS_TIMEOUT: u128 = 10_000_000_000;

/// The boundary gives up after this many reads.
pub const BLE_PREFLIGHT_BOUNDARY_MAX_ITEMS: usize = 128;

/// The boundary gives up after this many bytes.
pub const BLE_PREFLIGHT_BOUNDARY_MAX_BYTES: usize = 4096;

/// Why capability admission is tried again on another connection.
#[derive(Clone, Copy, Debug, PartialEq, Eq, Structural)]
pub enum BleCapabilityRetry {
    ResponseTimedOut,
    TransportEnded,
    TransportIo,
    BoundaryOverflow,
    BoundaryTimedOut,
}

impl BleCapabilityRetry {
    /// The reason's name in diagnostics.
    pub fn log_class(self) -> (class: &'static str)
        ensures
            class@ == (match self {
                BleCapabilityRetry::ResponseTimedOut => "response_timeout"@,
                BleCapabilityRetry::TransportEnded => "transport_ended"@,
                BleCapabilityRetry::TransportIo => "transport_io"@,
                BleCapabilityRetry::BoundaryOverflow => "boundary_overflow"@,
                BleCapabilityRetry::BoundaryTimedOut => "boundary_timeout"@,
            }),
    {
        match self {
            BleCapabilityRetry::ResponseTimedOut => "response_timeout",
            BleCapabilityRetry::TransportEnded => "transport_ended",
            BleCapabilityRetry::TransportIo => "transport_io",
            BleCapabilityRetry::BoundaryOverflow => "boundary_overflow",
            BleCapabilityRetry::BoundaryTimedOut => "boundary_timeout",
        }
    }
}

/// How capability admission ends.
#[derive(Clone, Copy, Debug, PartialEq, Eq, Structural)]
pub enum BleCapabilityOutcome {
    Admitted,
    Stopped,
    Retry(BleCapabilityRetry),
    Rejected,
}

/// What a boundary that is being drained does next.
#[derive(Clone, Copy, Debug, PartialEq, Eq, Structural)]
pub enum DrainPoll {
    Stopped,
    Quiet,
    TimedOut,
    Wait { until: u128 },
}

/// Consumes what is still under way until the receive side has been quiet.
#[derive(Clone, Copy, Debug, PartialEq, Eq, Structural)]
pub struct BoundaryDrain {
    pub deadline: u128,
    pub quiet_deadline: u128,
    pub quiet: u128,
    pub items: usize,
    pub total: usize,
}

/// One more read has come through within the boundary's limits.
pub open spec fn drain_admits(drain: BoundaryDrain, len: nat) -> bool {
    drain.items < BLE_PREFLIGHT_BOUNDARY_MAX_ITEMS && drain.total + len
        <= BLE_PREFLIGHT_BOUNDARY_MAX_BYTES
}

/// A boundary after one more admitted read.
pub open spec fn counted_drain(drain: BoundaryDrain, len: usize, now: u128) -> BoundaryDrain {
    BoundaryDrain {
        items: (drain.items + 1) as usize,
        total: (drain.total + len) as usize,
        quiet_deadline: instant_after(now, drain.quiet),
        ..drain
    }
}

/// What a boundary that is being drained does next: a stop comes first, then
/// quiet, then the deadline.
pub open spec fn drain_poll(drain: BoundaryDrain, running: bool, now: u128) -> DrainPoll {
    if !running {
        DrainPoll::Stopped
    } else if now >= drain.quiet_deadline {
        DrainPoll::Quiet
    } else if now >= drain.deadline {
        DrainPoll::TimedOut
    } else {
        DrainPoll::Wait {
            until: earlier(
                earlier(drain.quiet_deadline, drain.deadline),
                instant_after(now, RUNNING_POLL),
            ),
        }
    }
}

impl BoundaryDrain {
    /// A boundary that has to fall quiet within `timeout`.
    pub fn new(now: u128, timeout: u128, quiet: u128) -> (drain: Self)
        ensures
            drain == (BoundaryDrain {
                deadline: instant_after(now, timeout),
                quiet_deadline: instant_after(now, quiet),
                quiet,
                items: 0,
                total: 0,
            }),
    {
        BoundaryDrain {
            deadline: deadline_after(now, timeout),
            quiet_deadline: deadline_after(now, quiet),
            quiet,
            items: 0,
            total: 0,
        }
    }

    /// Decides what to do next.
    pub fn poll(&self, running: bool, now: u128) -> (poll: DrainPoll)
        ensures
            poll == drain_poll(*self, running, now),
    {
        if !running {
            DrainPoll::Stopped
        } else if now >= self.quiet_deadline {
            DrainPoll::Quiet
        } else if now >= self.deadline {
            DrainPoll::TimedOut
        } else {
            DrainPoll::Wait {
                until: min_time(
                    min_time(self.quiet_deadline, self.deadline),
                    deadline_after(now, SECOND),
                ),
            }
        }
    }

    /// Counts one read of `len` bytes and starts the quiet time anew, if the limits
    /// allow it.
    pub fn observe(&mut self, len: usize, now: u128) -> (observed: Result<(), BleCapabilityRetry>)
        ensures
            observed is Ok <==> drain_admits(*old(self), len as nat),
            observed is Ok ==> *final(self) == counted_drain(*old(self), len, now),
            observed is Err ==> observed->Err_0 is BoundaryOverflow && *final(self) == *old(self),
    {
        let items: usize = self.items.saturating_add(1);
        let total: usize = self.total.saturating_add(len);
        if items > BLE_PREFLIGHT_BOUNDARY_MAX_ITEMS || total > BLE_PREFLIGHT_BOUNDARY_MAX_BYTES {
            return Err(BleCapabilityRetry::BoundaryOverflow);
        }
        self.items = items;
        self.total = total;
        self.quiet_deadline = deadline_after(now, self.quiet);
        Ok(())
    }
}

/// What the capability decoder says of one read.
#[derive(Clone, Copy, Debug, PartialEq, Eq, Structural)]
pub enum CapabilityObservation {
    Pending,
    Admitted,
    Rejected,
}

/// What came out of one wait.
#[derive(Clone, Copy, Debug, PartialEq, Eq, Structural)]
pub enum CapabilityEvent {
    /// Nothing that concerns the preflight.
    Silence,
    /// A read of `len` bytes that is not from the RNode's TX characteristic.
    Unrelated { len: usize },
    /// A read of `len` bytes from the RNode.
    Read { len: usize, observation: CapabilityObservation },
    Ended,
    IoFailed,
}

/// How far a capability preflight has come.
#[derive(Clone, Copy, Debug, PartialEq, Eq, Structural)]
pub enum CapabilityPhase {
    /// The detect probe and the one EEPROM request have still to be written.
    Requesting,
    Observing,
    Draining(BoundaryDrain),
}

/// What a capability preflight does next.
#[derive(Clone, Copy, Debug, PartialEq, Eq, Structural)]
pub enum CapabilityAction {
    Finish(BleCapabilityOutcome),
    /// Write the detect probe and then the EEPROM request.
    Request,
    /// Write the detect probe alone.
    Probe,
    Wait { until: u128 },
}

/// Waits for the device to describe its radio before the radio is touched.
#[derive(Clone, Copy, Debug, PartialEq, Eq, Structural)]
pub struct CapabilityPreflight {
    pub phase: CapabilityPhase,
    pub timeout: u128,
    pub deadline: u128,
    /// The time between two detect probes, where they are repeated.
    pub probe_interval: Option<u128>,
    pub next_probe: u128,
}

/// What a preflight does next.
pub open spec fn capability_action(
    preflight: CapabilityPreflight,
    running: bool,
    now: u128,
) -> CapabilityAction {
    match preflight.phase {
        CapabilityPhase::Requesting => if !running {
            CapabilityAction::Finish(BleCapabilityOutcome::Stopped)
        } else {
            CapabilityAction::Request
        },
        CapabilityPhase::Observing => if !running {
            CapabilityAction::Finish(BleCapabilityOutcome::Stopped)
        } else if now >= preflight.deadline {
            CapabilityAction::Finish(
                BleCapabilityOutcome::Retry(BleCapabilityRetry::ResponseTimedOut),
            )
        } else if preflight.probe_interval is Some && now >= preflight.next_probe {
            CapabilityAction::Probe
        } else {
            let until = earlier(preflight.deadline, instant_after(now, RUNNING_POLL));
            CapabilityAction::Wait {
                until: if preflight.probe_interval is Some {
                    earlier(preflight.next_probe, until)
                } else {
                    until
                },
            }
        },
        CapabilityPhase::Draining(drain) => match drain_poll(drain, running, now) {
            DrainPoll::Stopped => CapabilityAction::Finish(BleCapabilityOutcome::Stopped),
            DrainPoll::Quiet => CapabilityAction::Finish(BleCapabilityOutcome::Admitted),
            DrainPoll::TimedOut => CapabilityAction::Finish(
                BleCapabilityOutcome::Retry(BleCapabilityRetry::BoundaryTimedOut),
            ),
            DrainPoll::Wait { until } => CapabilityAction::Wait { until },
        },
    }
}

/// How an event ends a preflight, if it does.
pub open spec fn capability_end(
    preflight: CapabilityPreflight,
    event: CapabilityEvent,
) -> Option<BleCapabilityOutcome> {
    let over = match preflight.phase {
        CapabilityPhase::Draining(drain) => match event {
            CapabilityEvent::Unrelated { len } => !drain_admits(drain, len as nat),
            CapabilityEvent::Read { len, .. } => !drain_admits(drain, len as nat),
            _ => false,
        },
        _ => false,
    };
    match event {
        CapabilityEvent::Ended => Some(
            BleCapabilityOutcome::Retry(BleCapabilityRetry::TransportEnded),
        ),
        CapabilityEvent::IoFailed => Some(
            BleCapabilityOutcome::Retry(BleCapabilityRetry::TransportIo),
        ),
        _ => if over {
            Some(BleCapabilityOutcome::Retry(BleCapabilityRetry::BoundaryOverflow))
        } else {
            match event {
                CapabilityEvent::Read { observation: CapabilityObservation::Rejected, .. } => Some(
                    BleCapabilityOutcome::Rejected,
                ),
                _ => None,
            }
        },
    }
}

/// A preflight whose requests or whose probe were written at `now`: the first write
/// begins the wait for the response, and each puts off the next probe.
pub open spec fn after_write(preflight: CapabilityPreflight, now: u128) -> CapabilityPreflight {
    let begun = if preflight.phase is Requesting {
        CapabilityPreflight {
            phase: CapabilityPhase::Observing,
            deadline: instant_after(now, preflight.timeout),
            ..preflight
        }
    } else {
        preflight
    };
    match preflight.probe_interval {
        Some(interval) => CapabilityPreflight {
            next_probe: instant_after(now, interval),
            ..begun
        },
        None => begun,
    }
}

/// The boundary behind an admission at `now`.
pub open spec fn fresh_drain(now: u128, timeout: u128) -> BoundaryDrain {
    BoundaryDrain {
        deadline: instant_after(now, timeout),
        quiet_deadline: instant_after(now, RNODE_BLE_STARTUP_QUIET),
        quiet: RNODE_BLE_STARTUP_QUIET,
        items: 0,
        total: 0,
    }
}

/// The phase that an event leads to: an admission opens the boundary, and a read that
/// the boundary has room for is counted.
pub open spec fn phase_after_event(
    preflight: CapabilityPreflight,
    event: CapabilityEvent,
    now: u128,
) -> CapabilityPhase {
    match (preflight.phase, event) {
        (CapabilityPhase::Draining(drain), CapabilityEvent::Unrelated { len }) if drain_admits(
            drain,
            len as nat,
        ) => CapabilityPhase::Draining(counted_drain(drain, len, now)),
        (CapabilityPhase::Draining(drain), CapabilityEvent::Read { len, .. }) if drain_admits(
            drain,
            len as nat,
        ) => CapabilityPhase::Draining(counted_drain(drain, len, now)),
        (
            CapabilityPhase::Observing,
            CapabilityEvent::Read { observation: CapabilityObservation::Admitted, .. },
        ) => CapabilityPhase::Draining(fresh_drain(now, preflight.timeout)),
        _ => preflight.phase,
    }
}

/// A preflight whose requests were written at `now`.
pub open spec fn observing_from(now: u128, timeout: u128) -> CapabilityPreflight {
    CapabilityPreflight {
        phase: CapabilityPhase::Observing,
        timeout,
        deadline: instant_after(now, timeout),
        probe_interval: None,
        next_probe: 0,
    }
}

/// A preflight that has to write its requests itself and repeats the probe.
pub open spec fn requesting_within(timeout: u128, probe_interval: u128) -> CapabilityPreflight {
    CapabilityPreflight {
        phase: CapabilityPhase::Requesting,
        timeout,
        deadline: 0,
        probe_interval: Some(probe_interval),
        next_probe: 0,
    }
}

/// How a write ends a preflight, if it does.
pub open spec fn end_of_write(succeeded: bool) -> Option<BleCapabilityOutcome> {
    if succeeded {
        None
    } else {
        Some(BleCapabilityOutcome::Retry(BleCapabilityRetry::TransportIo))
    }
}

impl CapabilityPreflight {
    /// A preflight whose requests have been written.
    pub fn observing(now: u128, timeout: u128) -> (preflight: Self)
        ensures
            preflight == observing_from(now, timeout),
    {
        CapabilityPreflight {
            phase: CapabilityPhase::Observing,
            timeout,
            deadline: deadline_after(now, timeout),
            probe_interval: None,
            next_probe: 0,
        }
    }

    /// A preflight that has to write its requests itself and repeats the probe.
    pub fn requesting(timeout: u128, probe_interval: u128) -> (preflight: Self)
        ensures
            preflight == requesting_within(timeout, probe_interval),
    {
        CapabilityPreflight {
            phase: CapabilityPhase::Requesting,
            timeout,
            deadline: 0,
            probe_interval: Some(probe_interval),
            next_probe: 0,
        }
    }

    /// Decides what to do next.
    pub fn poll(&self, running: bool, now: u128) -> (action: CapabilityAction)
        ensures
            action == capability_action(*self, running, now),
    {
        match self.phase {
            CapabilityPhase::Requesting => if !running {
                CapabilityAction::Finish(BleCapabilityOutcome::Stopped)
            } else {
                CapabilityAction::Request
            },
            CapabilityPhase::Observing => if !running {
                CapabilityAction::Finish(BleCapabilityOutcome::Stopped)
            } else if now >= self.deadline {
                CapabilityAction::Finish(
                    BleCapabilityOutcome::Retry(BleCapabilityRetry::ResponseTimedOut),
                )
            } else {
                let until: u128 = min_time(self.deadline, deadline_after(now, SECOND));
                match self.probe_interval {
                    Some(_) => if now >= self.next_probe {
                        CapabilityAction::Probe
                    } else {
                        CapabilityAction::Wait { until: min_time(self.next_probe, until) }
                    },
                    None => CapabilityAction::Wait { until },
                }
            },
            CapabilityPhase::Draining(drain) => match drain.poll(running, now) {
                DrainPoll::Stopped => CapabilityAction::Finish(BleCapabilityOutcome::Stopped),
                DrainPoll::Quiet => CapabilityAction::Finish(BleCapabilityOutcome::Admitted),
                DrainPoll::TimedOut => CapabilityAction::Finish(
                    BleCapabilityOutcome::Retry(BleCapabilityRetry::BoundaryTimedOut),
                ),
                DrainPoll::Wait { until } => CapabilityAction::Wait { until },
            },
        }
    }

    /// Records that the requests or a probe were written, or that the write failed.
    /// The EEPROM request is written once in the life of a preflight.
    pub fn written(&mut self, succeeded: bool, now: u128) -> (end: Option<BleCapabilityOutcome>)
        ensures
            end == end_of_write(succeeded),
            *final(self) == (if succeeded {
                after_write(*old(self), now)
            } else {
                *old(self)
            }),
    {
        if !succeeded {
            return Some(BleCapabilityOutcome::Retry(BleCapabilityRetry::TransportIo));
        }
        match self.phase {
            CapabilityPhase::Requesting => {
                self.phase = CapabilityPhase::Observing;
                self.deadline = deadline_after(now, self.timeout);
            },
            _ => {},
        }
        match self.probe_interval {
            Some(interval) => {
                self.next_probe = deadline_after(now, interval);
            },
            None => {},
        }
        None
    }

    /// Takes what came out of one wait into account. An admission is not final: the
    /// boundary behind it has to fall quiet, and what comes through it can still
    /// reject the device.
    pub fn event(&mut self, event: CapabilityEvent, now: u128) -> (end: Option<
        BleCapabilityOutcome,
    >)
        ensures
            end == capability_end(*old(self), event),
            *final(self) == (CapabilityPreflight {
                phase: phase_after_event(*old(self), event, now),
                ..*old(self)
            }),
    {
        let len: Option<usize> = match event {
            CapabilityEvent::Ended => {
                return Some(BleCapabilityOutcome::Retry(BleCapabilityRetry::TransportEnded));
            },
            CapabilityEvent::IoFailed => {
                return Some(BleCapabilityOutcome::Retry(BleCapabilityRetry::TransportIo));
            },
            CapabilityEvent::Silence => None,
            CapabilityEvent::Unrelated { len } => Some(len),
            CapabilityEvent::Read { len, .. } => Some(len),
        };
        match self.phase {
            CapabilityPhase::Draining(mut drain) => {
                match len {
                    Some(len) => {
                        match drain.observe(len, now) {
                            Ok(_) => {
                                self.phase = CapabilityPhase::Draining(drain);
                            },
                            Err(reason) => {
                                return Some(BleCapabilityOutcome::Retry(reason));
                            },
                        }
                    },
                    None => {},
                }
            },
            _ => {},
        }
        match event {
            CapabilityEvent::Read { observation, .. } => match observation {
                CapabilityObservation::Rejected => {
                    return Some(BleCapabilityOutcome::Rejected);
                },
                CapabilityObservation::Admitted => {
                    match self.phase {
                        CapabilityPhase::Observing => {
                            self.phase = CapabilityPhase::Draining(
                                BoundaryDrain::new(now, self.timeout, RNODE_BLE_STARTUP_QUIET),
                            );
                        },
                        _ => {},
                    }
                },
                CapabilityObservation::Pending => {},
            },
            _ => {},
        }
        None
    }
}

/// A device is admitted only by a boundary that has fallen quiet.
pub proof fn admission_needs_quiet(preflight: CapabilityPreflight, running: bool, now: u128)
    requires
        capability_action(preflight, running, now) == CapabilityAction::Finish(
            BleCapabilityOutcome::Admitted,
        ),
    ensures
        running,
        preflight.phase is Draining,
        now >= preflight.phase->Draining_0.quiet_deadline,
{
}

/// A stop before the requests are written writes nothing.
pub proof fn stop_before_requests_writes_nothing(preflight: CapabilityPreflight, now: u128)
    ensures
        capability_action(preflight, false, now) == CapabilityAction::Finish(
            BleCapabilityOutcome::Stopped,
        ),
{
}

/// Why a generation is given up before it is ready.
#[derive(Clone, Copy, Debug, PartialEq, Eq, Structural)]
pub enum BleStartupFailure {
    FirmwareUnsupported,
    RadioInitialisationFault,
    NotificationsEndedBeforeDetect,
    TargetDisconnectedBeforeDetect,
    EventStreamEndedBeforeDetect,
    DetectTimedOut,
    NotificationsEndedBeforeReady,
    TargetDisconnectedBeforeReady,
    EventStreamEndedBeforeReady,
    ReadinessTimedOut,
    BridgeClosedBeforeReady,
    BridgeReadFailedBeforeReady,
    MalformedBridgeAck,
    ActiveCarryOverflow,
    PreReadyDataOverflow,
}

impl BleStartupFailure {
    /// The failure in words.
    pub fn words(self) -> (words: &'static str)
        ensures
            words@ == (match self {
                BleStartupFailure::FirmwareUnsupported => "RNode firmware is unsupported"@,
                BleStartupFailure::RadioInitialisationFault =>
                    "RNode reported a radio initialisation fault"@,
                BleStartupFailure::NotificationsEndedBeforeDetect =>
                    "notification stream ended before detect evidence"@,
                BleStartupFailure::TargetDisconnectedBeforeDetect =>
                    "target disconnected before detect evidence"@,
                BleStartupFailure::EventStreamEndedBeforeDetect =>
                    "adapter event stream ended before detect evidence"@,
                BleStartupFailure::DetectTimedOut => "detect evidence timed out"@,
                BleStartupFailure::NotificationsEndedBeforeReady =>
                    "notification stream ended before Ready"@,
                BleStartupFailure::TargetDisconnectedBeforeReady =>
                    "target disconnected before Ready"@,
                BleStartupFailure::EventStreamEndedBeforeReady =>
                    "adapter event stream ended before Ready"@,
                BleStartupFailure::ReadinessTimedOut => "typed readiness timed out"@,
                BleStartupFailure::BridgeClosedBeforeReady =>
                    "native bridge closed before typed Ready"@,
                BleStartupFailure::BridgeReadFailedBeforeReady =>
                    "native bridge read failed before typed Ready"@,
                BleStartupFailure::MalformedBridgeAck => "malformed native bridge acknowledgement"@,
                BleStartupFailure::ActiveCarryOverflow =>
                    "post-readiness startup carry exceeded bound"@,
                BleStartupFailure::PreReadyDataOverflow =>
                    "pre-readiness native DATA carry exceeded bound"@,
            }),
    {
        match self {
            BleStartupFailure::FirmwareUnsupported => "RNode firmware is unsupported",
            BleStartupFailure::RadioInitialisationFault =>
                "RNode reported a radio initialisation fault",
            BleStartupFailure::NotificationsEndedBeforeDetect =>
                "notification stream ended before detect evidence",
            BleStartupFailure::TargetDisconnectedBeforeDetect =>
                "target disconnected before detect evidence",
            BleStartupFailure::EventStreamEndedBeforeDetect =>
                "adapter event stream ended before detect evidence",
            BleStartupFailure::DetectTimedOut => "detect evidence timed out",
            BleStartupFailure::NotificationsEndedBeforeReady =>
                "notification stream ended before Ready",
            BleStartupFailure::TargetDisconnectedBeforeReady => "target disconnected before Ready",
            BleStartupFailure::EventStreamEndedBeforeReady =>
                "adapter event stream ended before Ready",
            BleStartupFailure::ReadinessTimedOut => "typed readiness timed out",
            BleStartupFailure::BridgeClosedBeforeReady => "native bridge closed before typed Ready",
            BleStartupFailure::BridgeReadFailedBeforeReady =>
                "native bridge read failed before typed Ready",
            BleStartupFailure::MalformedBridgeAck => "malformed native bridge acknowledgement",
            BleStartupFailure::ActiveCarryOverflow =>
                "post-readiness startup carry exceeded bound",
            BleStartupFailure::PreReadyDataOverflow =>
                "pre-readiness native DATA carry exceeded bound",
        }
    }

    /// A fixed word for the failure in lifecycle diagnostics.
    pub fn result_class(self) -> (class: &'static str)
        ensures
            class@ == (match self {
                BleStartupFailure::NotificationsEndedBeforeReady => "notification_stream_ended"@,
                BleStartupFailure::TargetDisconnectedBeforeReady => "target_disconnected"@,
                BleStartupFailure::EventStreamEndedBeforeReady => "event_stream_ended"@,
                BleStartupFailure::ReadinessTimedOut => "deadline_elapsed"@,
                _ => "retry"@,
            }),
    {
        match self {
            BleStartupFailure::NotificationsEndedBeforeReady => "notification_stream_ended",
            BleStartupFailure::TargetDisconnectedBeforeReady => "target_disconnected",
            BleStartupFailure::EventStreamEndedBeforeReady => "event_stream_ended",
            BleStartupFailure::ReadinessTimedOut => "deadline_elapsed",
            _ => "retry",
        }
    }
}

/// The failure that a startup reduction error stands for.
pub open spec fn failure_of_reduction(error: NativeStartupReductionError) -> BleStartupFailure {
    match error {
        NativeStartupReductionError::MalformedBridgeAck => BleStartupFailure::MalformedBridgeAck,
        NativeStartupReductionError::ActiveCarryOverflow => BleStartupFailure::ActiveCarryOverflow,
        NativeStartupReductionError::PreReadyDataOverflow =>
            BleStartupFailure::PreReadyDataOverflow,
    }
}

/// The failure that a startup reduction error stands for.
pub fn startup_reduction_failure(error: NativeStartupReductionError) -> (failure:
    BleStartupFailure)
    ensures
        failure == failure_of_reduction(error),
{
    match error {
        NativeStartupReductionError::MalformedBridgeAck => BleStartupFailure::MalformedBridgeAck,
        NativeStartupReductionError::ActiveCarryOverflow => BleStartupFailure::ActiveCarryOverflow,
        NativeStartupReductionError::PreReadyDataOverflow =>
            BleStartupFailure::PreReadyDataOverflow,
    }
}

/// How a wait for evidence ends.
#[derive(Clone, Copy, Debug, PartialEq, Eq, Structural)]
pub enum BleStartupOutcome {
    /// The evidence is there.
    Observed,
    Retry(BleStartupFailure),
    Stopped,
}

/// What detect evidence says so far: it is complete once detection and firmware
/// are known, and a radio fault ends the wait.
pub open spec fn detect_outcome(evidence: RNodeProtocolEvidence) -> Option<BleStartupOutcome> {
    if evidence.detected && evidence.firmware is Some {
        Some(
            if evidence.firmware->0.supported() {
                BleStartupOutcome::Observed
            } else {
                BleStartupOutcome::Retry(BleStartupFailure::FirmwareUnsupported)
            },
        )
    } else if evidence.radio_initialisation_fault {
        Some(BleStartupOutcome::Retry(BleStartupFailure::RadioInitialisationFault))
    } else {
        None
    }
}

/// Looks at the detect evidence.
pub fn check_detect_evidence(evidence: &RNodeProtocolEvidence) -> (outcome: Option<
    BleStartupOutcome,
>)
    ensures
        outcome == detect_outcome(*evidence),
{
    if evidence.detected {
        match evidence.firmware {
            Some(firmware) => {
                return Some(
                    if firmware.is_supported() {
                        BleStartupOutcome::Observed
                    } else {
                        BleStartupOutcome::Retry(BleStartupFailure::FirmwareUnsupported)
                    },
                );
            },
            None => {},
        }
    }
    if evidence.radio_initialisation_fault {
        Some(BleStartupOutcome::Retry(BleStartupFailure::RadioInitialisationFault))
    } else {
        None
    }
}

/// What a generation waits for.
#[derive(Clone, Copy, Debug, PartialEq, Eq, Structural)]
pub enum BleStartupWait {
    Detect,
    DesktopReady,
    NativeReady,
}

/// What came out of a wait for evidence, beside evidence itself.
#[derive(Clone, Copy, Debug, PartialEq, Eq, Structural)]
pub enum BleStartupEvent {
    /// Bytes that have been taken into account, or an event of another device.
    Progress,
    /// The notification stream or the bridge ended.
    StreamEnded,
    StreamFailed,
    TargetDisconnected,
    AdapterEventsEnded,
    /// The regular look at the stop request.
    Poll { running: bool },
    DeadlineElapsed,
}

/// How an event ends a wait for evidence, if it does.
pub open spec fn startup_wait_end(
    wait: BleStartupWait,
    event: BleStartupEvent,
) -> Option<BleStartupOutcome> {
    match event {
        BleStartupEvent::Progress => None,
        BleStartupEvent::Poll { running } => if running {
            None
        } else {
            Some(BleStartupOutcome::Stopped)
        },
        BleStartupEvent::StreamEnded => Some(
            BleStartupOutcome::Retry(
                match wait {
                    BleStartupWait::Detect => BleStartupFailure::NotificationsEndedBeforeDetect,
                    BleStartupWait::DesktopReady => BleStartupFailure::NotificationsEndedBeforeReady,
                    BleStartupWait::NativeReady => BleStartupFailure::BridgeClosedBeforeReady,
                },
            ),
        ),
        BleStartupEvent::StreamFailed => Some(
            BleStartupOutcome::Retry(
                match wait {
                    BleStartupWait::Detect => BleStartupFailure::NotificationsEndedBeforeDetect,
                    BleStartupWait::DesktopReady => BleStartupFailure::NotificationsEndedBeforeReady,
                    BleStartupWait::NativeReady => BleStartupFailure::BridgeReadFailedBeforeReady,
                },
            ),
        ),
        BleStartupEvent::TargetDisconnected => Some(
            BleStartupOutcome::Retry(
                if wait is Detect {
                    BleStartupFailure::TargetDisconnectedBeforeDetect
                } else {
                    BleStartupFailure::TargetDisconnectedBeforeReady
                },
            ),
        ),
        BleStartupEvent::AdapterEventsEnded => Some(
            BleStartupOutcome::Retry(
                if wait is Detect {
                    BleStartupFailure::EventStreamEndedBeforeDetect
                } else {
                    BleStartupFailure::EventStreamEndedBeforeReady
                },
            ),
        ),
        BleStartupEvent::DeadlineElapsed => Some(
            BleStartupOutcome::Retry(
                if wait is Detect {
                    BleStartupFailure::DetectTimedOut
                } else {
                    BleStartupFailure::ReadinessTimedOut
                },
            ),
        ),
    }
}

/// Decides whether an event ends a wait for evidence.
pub fn startup_wait_event(wait: BleStartupWait, event: BleStartupEvent) -> (end: Option<
    BleStartupOutcome,
>)
    ensures
        end == startup_wait_end(wait, event),
{
    let failure = match event {
        BleStartupEvent::Progress => {
            return None;
        },
        BleStartupEvent::Poll { running } => {
            return if running {
                None
            } else {
                Some(BleStartupOutcome::Stopped)
            };
        },
        BleStartupEvent::StreamEnded => match wait {
            BleStartupWait::Detect => BleStartupFailure::NotificationsEndedBeforeDetect,
            BleStartupWait::DesktopReady => BleStartupFailure::NotificationsEndedBeforeReady,
            BleStartupWait::NativeReady => BleStartupFailure::BridgeClosedBeforeReady,
        },
        BleStartupEvent::StreamFailed => match wait {
            BleStartupWait::Detect => BleStartupFailure::NotificationsEndedBeforeDetect,
            BleStartupWait::DesktopReady => BleStartupFailure::NotificationsEndedBeforeReady,
            BleStartupWait::NativeReady => BleStartupFailure::BridgeReadFailedBeforeReady,
        },
        BleStartupEvent::TargetDisconnected => match wait {
            BleStartupWait::Detect => BleStartupFailure::TargetDisconnectedBeforeDetect,
            _ => BleStartupFailure::TargetDisconnectedBeforeReady,
        },
        BleStartupEvent::AdapterEventsEnded => match wait {
            BleStartupWait::Detect => BleStartupFailure::EventStreamEndedBeforeDetect,
            _ => BleStartupFailure::EventStreamEndedBeforeReady,
        },
        BleStartupEvent::DeadlineElapsed => match wait {
            BleStartupWait::Detect => BleStartupFailure::DetectTimedOut,
            _ => BleStartupFailure::ReadinessTimedOut,
        },
    };
    Some(BleStartupOutcome::Retry(failure))
}

/// What a native handshake does next.
#[derive(Clone, Copy, Debug, PartialEq, Eq, Structural)]
pub enum HandshakeAction {
    /// Nobody answered, or the driver was told to stop.
    GiveUp,
    /// Write the detect probe.
    Probe,
    /// Read for at most this long; none where the probe is due at once.
    Read { budget: u128 },
}

/// Probes a native bridge a few times within one connection, so that one lost
/// early frame does not cost a reconnect.
#[derive(Clone, Copy, Debug, PartialEq, Eq, Structural)]
pub struct NativeHandshake {
    pub deadline: u128,
    pub next_probe: u128,
    pub probe_interval: u128,
}

/// What a native handshake does next.
pub open spec fn handshake_action(
    handshake: NativeHandshake,
    running: bool,
    now: u128,
) -> HandshakeAction {
    if now >= handshake.deadline || !running {
        HandshakeAction::GiveUp
    } else if now >= handshake.next_probe {
        HandshakeAction::Probe
    } else {
        HandshakeAction::Read {
            budget: earlier(
                time_until(now, earlier(handshake.next_probe, handshake.deadline)),
                RUNNING_POLL,
            ),
        }
    }
}

/// A handshake whose first probe is due at once.
pub open spec fn new_handshake(now: u128, timeout: u128, probe_interval: u128) -> NativeHandshake {
    NativeHandshake { deadline: instant_after(now, timeout), next_probe: now, probe_interval }
}

/// A handshake whose probe was written at `now`.
pub open spec fn probed(handshake: NativeHandshake, now: u128) -> NativeHandshake {
    NativeHandshake { next_probe: instant_after(now, handshake.probe_interval), ..handshake }
}

impl NativeHandshake {
    /// A handshake whose first probe is due at once.
    pub fn new(now: u128, timeout: u128, probe_interval: u128) -> (handshake: Self)
        ensures
            handshake == new_handshake(now, timeout, probe_interval),
    {
        NativeHandshake { deadline: deadline_after(now, timeout), next_probe: now, probe_interval }
    }

    /// Decides what to do next.
    pub fn poll(&self, running: bool, now: u128) -> (action: HandshakeAction)
        ensures
            action == handshake_action(*self, running, now),
    {
        if now >= self.deadline || !running {
            HandshakeAction::GiveUp
        } else if now >= self.next_probe {
            HandshakeAction::Probe
        } else {
            let until: u128 = min_time(self.next_probe, self.deadline);
            HandshakeAction::Read { budget: min_time(until - now, SECOND) }
        }
    }

    /// Records that the probe was written at `now`.
    pub fn probe_written(&mut self, now: u128)
        ensures
            *final(self) == probed(*old(self), now),
    {
        self.next_probe = deadline_after(now, self.probe_interval);
    }
}

/// What still comes through behind an admission is counted up to 128 reads and 4096 bytes;
/// each read within these limits starts the quiet time anew and prolongs nothing else.
pub proof fn boundary_counts_what_comes_through(drain: BoundaryDrain, len: usize, now: u128)
    requires
        now + drain.quiet <= u128::MAX,
    ensures
        drain_admits(drain, len as nat) <==> drain.items < 128 && drain.total + len <= 4096,
        drain_admits(drain, len as nat) ==> {
            let after = counted_drain(drain, len, now);
            &&& after.items == drain.items + 1
            &&& after.total == drain.total + len
            &&& after.quiet_deadline == now + drain.quiet
            &&& after.deadline == drain.deadline
            &&& after.quiet == drain.quiet
        },
{
}

/// A boundary is quiet once its quiet time has passed without a read, also if its deadline has
/// passed by then; it times out otherwise. Until then it looks again every second at least,
/// and sleeps past neither. A stop comes before all of that.
pub proof fn boundary_ends_quiet_or_late(drain: BoundaryDrain, running: bool, now: u128)
    ensures
        drain_poll(drain, running, now) is Stopped <==> !running,
        drain_poll(drain, running, now) is Quiet <==> running && now >= drain.quiet_deadline,
        drain_poll(drain, running, now) is TimedOut <==> running && now < drain.quiet_deadline
            && now >= drain.deadline,
        drain_poll(drain, running, now) is Wait ==> {
            let until = drain_poll(drain, running, now)->until;
            &&& now < until || now == u128::MAX
            &&& until <= drain.quiet_deadline && until <= drain.deadline
            &&& until <= now + 1_000_000_000
        },
{
}

/// A preflight that has its requests to write writes them, and one that observes ends at its
/// deadline with no answer. Before that it probes when a probe is due, where it repeats them,
/// and otherwise waits, at most a second and past neither the deadline nor a probe.
pub proof fn preflight_waits_for_an_answer(preflight: CapabilityPreflight, now: u128)
    ensures
        preflight.phase is Requesting ==> capability_action(preflight, true, now)
            is Request,
        preflight.phase is Observing && now >= preflight.deadline ==> capability_action(
            preflight,
            true,
            now,
        ) == CapabilityAction::Finish(
            BleCapabilityOutcome::Retry(BleCapabilityRetry::ResponseTimedOut),
        ),
        preflight.phase is Observing && now < preflight.deadline ==> (capability_action(
            preflight,
            true,
            now,
        ) is Probe <==> preflight.probe_interval is Some && now >= preflight.next_probe),
        preflight.phase is Observing && capability_action(preflight, true, now) is Wait ==> {
            let until = capability_action(preflight, true, now)->until;
            &&& until <= preflight.deadline
            &&& until <= now + 1_000_000_000
            &&& preflight.probe_interval is Some ==> until <= preflight.next_probe
        },
        preflight.phase is Observing && now < preflight.deadline && !(capability_action(
            preflight,
            true,
            now,
        ) is Probe) ==> capability_action(preflight, true, now) is Wait,
        capability_action(preflight, true, now) == CapabilityAction::Finish(
            BleCapabilityOutcome::Admitted,
        ) <==> preflight.phase is Draining && now >= preflight.phase->Draining_0.quiet_deadline,
        capability_action(preflight, true, now) == CapabilityAction::Finish(
            BleCapabilityOutcome::Retry(BleCapabilityRetry::BoundaryTimedOut),
        ) <==> preflight.phase is Draining && now < preflight.phase->Draining_0.quiet_deadline
            && now >= preflight.phase->Draining_0.deadline,
{
}

/// A device that is rejected ends the preflight for good, before as behind an admission, as
/// long as the boundary has room for the read that says so. A link that ends or fails, and a
/// boundary that overflows, are tried again; nothing else ends it.
pub proof fn rejection_ends_the_preflight(preflight: CapabilityPreflight, event: CapabilityEvent)
    ensures
        event is Ended ==> capability_end(preflight, event) == Some(
            BleCapabilityOutcome::Retry(BleCapabilityRetry::TransportEnded),
        ),
        event is IoFailed ==> capability_end(preflight, event) == Some(
            BleCapabilityOutcome::Retry(BleCapabilityRetry::TransportIo),
        ),
        event is Silence ==> capability_end(preflight, event) is None,
        event is Unrelated && !(preflight.phase is Draining) ==> capability_end(preflight, event)
            is None,
        event is Read && !(preflight.phase is Draining) ==> capability_end(preflight, event) == (
        if event->observation is Rejected {
            Some(BleCapabilityOutcome::Rejected)
        } else {
            None
        }),
        event is Read && preflight.phase is Draining ==> {
            let drain = preflight.phase->Draining_0;
            let room = drain.items < 128 && drain.total + event->Read_len <= 4096;
            capability_end(preflight, event) == (if !room {
                Some(BleCapabilityOutcome::Retry(BleCapabilityRetry::BoundaryOverflow))
            } else if event->observation is Rejected {
                Some(BleCapabilityOutcome::Rejected)
            } else {
                None
            })
        },
        event is Unrelated && preflight.phase is Draining ==> {
            let drain = preflight.phase->Draining_0;
            let room = drain.items < 128 && drain.total + event->Unrelated_len <= 4096;
            capability_end(preflight, event) == (if !room {
                Some(BleCapabilityOutcome::Retry(BleCapabilityRetry::BoundaryOverflow))
            } else {
                None
            })
        },
{
}

/// An admission opens the boundary, which has to stay quiet for a tenth of a second within the
/// preflight's time; while a preflight observes nothing else moves it on.
pub proof fn admission_opens_the_boundary(
    preflight: CapabilityPreflight,
    event: CapabilityEvent,
    now: u128,
)
    requires
        preflight.phase is Observing,
        now + preflight.timeout <= u128::MAX,
        now + 100_000_000 <= u128::MAX,
    ensures
        ({
            let after = phase_after_event(preflight, event, now);
            let admitted = event is Read && event->observation is Admitted;
            &&& !admitted ==> after == preflight.phase
            &&& admitted ==> after == CapabilityPhase::Draining(
                BoundaryDrain {
                    deadline: (now + preflight.timeout) as u128,
                    quiet_deadline: (now + 100_000_000) as u128,
                    quiet: 100_000_000,
                    items: 0,
                    total: 0,
                },
            )
        }),
{
}

/// The first write begins the wait for the answer, and the requests are not written again;
/// every write puts the next probe off by its interval.
pub proof fn first_write_begins_the_wait(preflight: CapabilityPreflight, now: u128)
    requires
        now + preflight.timeout <= u128::MAX,
    ensures
        ({
            let after = after_write(preflight, now);
            &&& preflight.phase is Requesting ==> after.phase is Observing && after.deadline == now
                + preflight.timeout
            &&& !(preflight.phase is Requesting) ==> after.phase == preflight.phase
                && after.deadline == preflight.deadline
            &&& preflight.probe_interval is Some && now + preflight.probe_interval->0 <= u128::MAX
                ==> after.next_probe == now + preflight.probe_interval->0
            &&& preflight.probe_interval is None ==> after.next_probe == preflight.next_probe
            &&& after.timeout == preflight.timeout
            &&& after.probe_interval == preflight.probe_interval
            &&& !(capability_action(after, true, now) is Request)
        }),
{
}

/// Detect evidence is complete once detection and firmware are known: it is good from version
/// 1.52 on and refused below. Until then a radio fault ends the wait, and nothing else.
pub proof fn detection_needs_firmware(evidence: RNodeProtocolEvidence)
    ensures
        detect_outcome(evidence) == Some(BleStartupOutcome::Observed) <==> evidence.detected
            && evidence.firmware is Some && (evidence.firmware->0.major > 1 || (
        evidence.firmware->0.major == 1 && evidence.firmware->0.minor >= 52)),
        detect_outcome(evidence) == Some(
            BleStartupOutcome::Retry(BleStartupFailure::FirmwareUnsupported),
        ) <==> evidence.detected && evidence.firmware is Some && (evidence.firmware->0.major < 1 || (
        evidence.firmware->0.major == 1 && evidence.firmware->0.minor < 52)),
        detect_outcome(evidence) == Some(
            BleStartupOutcome::Retry(BleStartupFailure::RadioInitialisationFault),
        ) <==> (!evidence.detected || evidence.firmware is None)
            && evidence.radio_initialisation_fault,
        detect_outcome(evidence) is None <==> (!evidence.detected || evidence.firmware is None)
            && !evidence.radio_initialisation_fault,
{
}

/// A wait for evidence goes on while bytes come and the driver runs. A stop ends it as such;
/// the end of the stream, of the link, of the adapter's events and of its time end it with a
/// new try, named after what was waited for.
pub proof fn wait_for_evidence_ends_for_a_reason(wait: BleStartupWait, event: BleStartupEvent)
    ensures
        startup_wait_end(wait, event) is None <==> event is Progress || (event is Poll
            && event->running),
        startup_wait_end(wait, event) == Some(BleStartupOutcome::Stopped) <==> event is Poll
            && !event->running,
        startup_wait_end(wait, event) != Some(BleStartupOutcome::Observed),
        event is DeadlineElapsed ==> startup_wait_end(wait, event) == Some(
            BleStartupOutcome::Retry(
                if wait is Detect {
                    BleStartupFailure::DetectTimedOut
                } else {
                    BleStartupFailure::ReadinessTimedOut
                },
            ),
        ),
        event is TargetDisconnected ==> startup_wait_end(wait, event) == Some(
            BleStartupOutcome::Retry(
                if wait is Detect {
                    BleStartupFailure::TargetDisconnectedBeforeDetect
                } else {
                    BleStartupFailure::TargetDisconnectedBeforeReady
                },
            ),
        ),
        event is AdapterEventsEnded ==> startup_wait_end(wait, event) == Some(
            BleStartupOutcome::Retry(
                if wait is Detect {
                    BleStartupFailure::EventStreamEndedBeforeDetect
                } else {
                    BleStartupFailure::EventStreamEndedBeforeReady
                },
            ),
        ),
        wait is NativeReady && event is StreamEnded ==> startup_wait_end(wait, event) == Some(
            BleStartupOutcome::Retry(BleStartupFailure::BridgeClosedBeforeReady),
        ),
        wait is NativeReady && event is StreamFailed ==> startup_wait_end(wait, event) == Some(
            BleStartupOutcome::Retry(BleStartupFailure::BridgeReadFailedBeforeReady),
        ),
        !(wait is NativeReady) && (event is StreamEnded || event is StreamFailed)
            ==> startup_wait_end(wait, event) == Some(
            BleStartupOutcome::Retry(
                if wait is Detect {
                    BleStartupFailure::NotificationsEndedBeforeDetect
                } else {
                    BleStartupFailure::NotificationsEndedBeforeReady
                },
            ),
        ),
{
}

/// Each way in which bytes end a startup is told as itself.
pub proof fn reduction_errors_are_told_apart(error: NativeStartupReductionError)
    ensures
        failure_of_reduction(error) is MalformedBridgeAck <==> error is MalformedBridgeAck,
        failure_of_reduction(error) is ActiveCarryOverflow <==> error is ActiveCarryOverflow,
        failure_of_reduction(error) is PreReadyDataOverflow <==> error is PreReadyDataOverflow,
{
}

/// A handshake probes at once and then again after each interval until its time is over or the
/// driver is told to stop; between two probes it reads, at most a second at a time and past
/// neither the next probe nor the deadline.
pub proof fn handshake_probes_until_its_time_is_over(
    handshake: NativeHandshake,
    running: bool,
    now: u128,
)
    ensures
        handshake_action(handshake, running, now) is GiveUp <==> !running || now
            >= handshake.deadline,
        handshake_action(handshake, running, now) is Probe <==> running && now < handshake.deadline
            && now >= handshake.next_probe,
        handshake_action(handshake, running, now) is Read ==> {
            let budget = handshake_action(handshake, running, now)->budget;
            &&& 0 < budget <= 1_000_000_000
            &&& now + budget <= handshake.next_probe && now + budget <= handshake.deadline
        },
        now + handshake.probe_interval <= u128::MAX ==> probed(handshake, now).next_probe == now
            + handshake.probe_interval && probed(handshake, now).deadline == handshake.deadline,
        now + handshake.probe_interval > now && now + handshake.probe_interval <= u128::MAX && now
            < handshake.deadline && running ==> handshake_action(
            probed(handshake, now),
            running,
            now,
        ) is Read,
{
}

/// A new handshake probes at once, and its time is counted from then.
pub proof fn new_handshake_probes_at_once(now: u128, timeout: u128, probe_interval: u128)
    requires
        0 < timeout,
        now + timeout <= u128::MAX,
    ensures
        handshake_action(new_handshake(now, timeout, probe_interval), true, now) is Probe,
        new_handshake(now, timeout, probe_interval).deadline == now + timeout,
        new_handshake(now, timeout, probe_interval).probe_interval == probe_interval,
{
}

/// The bounds of a generation that is not admitted yet: five seconds for a capability, six for
/// a bridge's answer with a probe every 650 milliseconds, ten for readiness.
pub proof fn waits_of_a_startup()
    ensures
        RNODE_BLE_CAPABILITY_PREFLIGHT_TIMEOUT == 5_000_000_000,
        RNODE_NATIVE_HANDSHAKE_TIMEOUT == 6_000_000_000,
        RNODE_NATIVE_HANDSHAKE_PROBE == 650_000_000,
        RNODE_BLE_READINESS_TIMEOUT == 10_000_000_000,
        RNODE_BLE_STARTUP_QUIET == 100_000_000,
{
}

/// A preflight whose requests were written waits for its time and probes no more; one that has
/// them to write does so first and then probes at its interval. A write that fails is tried
/// again on another connection.
pub proof fn preflight_begins_with_its_requests(now: u128, timeout: u128, probe_interval: u128)
    requires
        0 < timeout,
        now + timeout <= u128::MAX,
        0 < probe_interval,
        now + probe_interval <= u128::MAX,
    ensures
        observing_from(now, timeout).phase is Observing,
        observing_from(now, timeout).deadline == now + timeout,
        observing_from(now, timeout).timeout == timeout,
        capability_action(observing_from(now, timeout), true, now) is Wait,
        ({
            let fresh = requesting_within(timeout, probe_interval);
            let written = after_write(fresh, now);
            &&& capability_action(fresh, true, now) is Request
            &&& capability_action(written, true, now) is Wait
            &&& written.deadline == now + timeout
            &&& written.next_probe == now + probe_interval
        }),
        end_of_write(true) is None,
        end_of_write(false) == Some(BleCapabilityOutcome::Retry(BleCapabilityRetry::TransportIo)),
{
}

} // verus!
