//! The startup of a USB session: the detect probe, with strict admission one capability
//! request and its answer, a barrier behind everything that the device said so far, and
//! only then the initialisation of the radio.
use vstd::prelude::*;
use vstd::string::*;
use crate::android_usb::config::USB_DETACH_ACK_DEADLINE;
use crate::android_usb_lifecycle::inbound::UsbIoEvent;
use crate::android_usb_lifecycle::reader::UsbReaderExit;
use crate::android_usb_lifecycle::write::{UsbWriteFailure, UsbWriteFailureKind, UsbWritePhase};
use crate::android_usb_lifecycle::writer::UsbWriterExit;
use crate::ble_rnode::preflight::CapabilityObservation;
use crate::interface::{deadline_after, instant_after};
use crate::kiss::{
    assemble_all, frames_in, frames_view, fresh_assembly, Assembly, Frame, RawKissDeframer,
};
use crate::rnode::{CMD_DETECT, CMD_FW_VERSION};
use crate::rnode_protocol::{no_evidence, RNodeProtocolState, RNodeProtocolTarget};
use crate::text::{debug_text, join2, join3, quoted};

verus! {

/// Why a startup failed.
#[derive(Clone, Debug, PartialEq, Eq)]
pub enum UsbStartupFailure {
    /// A request before the initialisation was not written.
    Write(UsbWriteFailure),
    /// The initialisation was not written; the radio's state is unknown.
    Initialise(UsbWriteFailure),
    /// The capability answer did not come.
    ResponseTimedOut,
    /// The capability answer does not admit the radio settings.
    Rejected,
    WriterEnded(UsbWriterExit),
    ReaderEnded(UsbReaderExit),
    StreamClosed,
    BoundaryTimedOut,
    BoundaryStreamClosed,
}

/// The time that the detach behind a failed startup may take.
pub open spec fn detach_wait_behind(failure: UsbStartupFailure) -> Option<u128> {
    if failure is Initialise {
        Some(USB_DETACH_ACK_DEADLINE)
    } else {
        None::<u128>
    }
}

/// The time that the detach behind a failed startup may take. Only a failed
/// initialisation leaves a radio to detach.
pub fn startup_detach_wait(failure: &UsbStartupFailure) -> (wait: Option<u128>)
    ensures
        wait == detach_wait_behind(*failure),
{
    match failure {
        UsbStartupFailure::Initialise(_) => Some(USB_DETACH_ACK_DEADLINE),
        _ => None,
    }
}

/// A writer's exit in diagnostics.
pub open spec fn writer_exit_words(exit: UsbWriterExit) -> Seq<char> {
    match exit {
        UsbWriterExit::Detached => "Detached"@,
        UsbWriterExit::Stopped => "Stopped"@,
        UsbWriterExit::Failed(error) => "Failed("@ + debug_text(error@) + ")"@,
    }
}

/// A reader's exit in diagnostics.
pub open spec fn reader_exit_words(exit: UsbReaderExit) -> Seq<char> {
    match exit {
        UsbReaderExit::Stopped => "Stopped"@,
        UsbReaderExit::ConsumerClosed => "ConsumerClosed"@,
        UsbReaderExit::Failed(error) => "Failed("@ + debug_text(error@) + ")"@,
    }
}

impl UsbStartupFailure {
    /// The failure of the transport in words, where it is one.
    pub open spec fn transport_words(self) -> Option<Seq<char>> {
        match self {
            UsbStartupFailure::WriterEnded(exit) => Some(
                "Android USB capability writer ended: "@ + writer_exit_words(exit),
            ),
            UsbStartupFailure::ReaderEnded(exit) => Some(
                "Android USB capability reader ended: "@ + reader_exit_words(exit),
            ),
            UsbStartupFailure::StreamClosed => Some("Android USB capability event stream closed"@),
            UsbStartupFailure::BoundaryTimedOut => Some(
                "Android USB capability reader boundary timed out"@,
            ),
            UsbStartupFailure::BoundaryStreamClosed => Some(
                "Android USB capability event stream closed at reader boundary"@,
            ),
            _ => None,
        }
    }

    /// The failure of the transport in words, where it is one.
    pub fn transport_message(&self) -> (message: Option<String>)
        ensures
            match self.transport_words() {
                Some(words) => message is Some && message->0@ == words,
                None => message is None,
            },
    {
        match self {
            UsbStartupFailure::WriterEnded(exit) => {
                let words = match exit {
                    UsbWriterExit::Detached => "Detached".to_owned(),
                    UsbWriterExit::Stopped => "Stopped".to_owned(),
                    UsbWriterExit::Failed(error) => join3(
                        "Failed(",
                        quoted(error.as_str()).as_str(),
                        ")",
                    ),
                };
                Some(join2("Android USB capability writer ended: ", words.as_str()))
            },
            UsbStartupFailure::ReaderEnded(exit) => {
                let words = match exit {
                    UsbReaderExit::Stopped => "Stopped".to_owned(),
                    UsbReaderExit::ConsumerClosed => "ConsumerClosed".to_owned(),
                    UsbReaderExit::Failed(error) => join3(
                        "Failed(",
                        quoted(error.as_str()).as_str(),
                        ")",
                    ),
                };
                Some(join2("Android USB capability reader ended: ", words.as_str()))
            },
            UsbStartupFailure::StreamClosed => Some(
                "Android USB capability event stream closed".to_owned(),
            ),
            UsbStartupFailure::BoundaryTimedOut => Some(
                "Android USB capability reader boundary timed out".to_owned(),
            ),
            UsbStartupFailure::BoundaryStreamClosed => Some(
                "Android USB capability event stream closed at reader boundary".to_owned(),
            ),
            _ => None,
        }
    }
}

/// How far a startup has come.
#[derive(Clone, Copy, Debug, PartialEq, Eq, Structural)]
pub enum UsbStartupStep {
    /// The detect probe is being written.
    Detect,
    /// The capability request is being written.
    Capability,
    /// The capability answer is awaited.
    Response,
    /// The reader is asked to pause.
    Boundary,
    /// The reader has paused; what it handed on before is consumed.
    Drain,
    /// The initialisation is being written.
    Initialise,
    /// The radio is initialised.
    Active,
    Failed,
}

/// What comes up during a startup.
#[derive(Debug)]
pub enum UsbStartupEvent {
    /// A write was answered.
    Written(Result<(), UsbWriteFailure>),
    /// The workers reported something. For a read, the observation is what the
    /// capability decoder says of it.
    Io(UsbIoEvent, CapabilityObservation),
    /// The workers will report nothing more.
    StreamClosed,
    /// The wait is over.
    Elapsed,
    /// The reader has paused.
    Paused,
    /// Everything that the reader handed on is consumed.
    TailEmpty,
}

/// What a startup does next.
#[derive(Debug)]
pub enum UsbStartupAction {
    Write { phase: UsbWritePhase, timeout: u128, await_terminal_detach_on_failure: bool },
    /// Wait for a report, at most until then.
    Await { until: u128 },
    /// Ask the reader to pause, and wait for reports until then.
    RequestPause { until: u128 },
    /// Go on waiting for what was awaited.
    Continue,
    /// Consume what the reader handed on.
    DrainTail,
    /// Let the reader run again; the startup is complete.
    Resume,
    Fail(UsbStartupFailure),
}

/// What a startup knows.
pub ghost struct StartupState {
    pub step: UsbStartupStep,
    /// How long the capability answer may take, with strict admission.
    pub capability: Option<u128>,
    pub phase_timeout: u128,
    pub assembly: Assembly,
    pub protocol: RNodeProtocolState,
}

/// The evidence after one frame of a startup: only detection and firmware count.
pub open spec fn seed_after(protocol: RNodeProtocolState, frame: Frame) -> RNodeProtocolState {
    if frame.0 == CMD_DETECT || frame.0 == CMD_FW_VERSION {
        protocol.after(frame.0, frame.1)
    } else {
        protocol
    }
}

/// The evidence after a run of frames.
pub open spec fn seed_after_all(
    protocol: RNodeProtocolState,
    frames: Seq<Frame>,
) -> RNodeProtocolState
    decreases frames.len(),
{
    if frames.len() == 0 {
        protocol
    } else {
        seed_after(seed_after_all(protocol, frames.drop_last()), frames.last())
    }
}

/// A startup after a read.
pub open spec fn startup_read(state: StartupState, bytes: Seq<u8>) -> StartupState {
    StartupState {
        assembly: assemble_all(state.assembly, bytes),
        protocol: seed_after_all(state.protocol, frames_in(state.assembly, bytes)),
        ..state
    }
}

/// A startup that has come to a step.
pub open spec fn at_step(state: StartupState, step: UsbStartupStep) -> StartupState {
    StartupState { step, ..state }
}

/// A failed startup and what it reports.
pub open spec fn startup_failed(state: StartupState, failure: UsbStartupFailure) -> (
    StartupState,
    UsbStartupAction,
) {
    (at_step(state, UsbStartupStep::Failed), UsbStartupAction::Fail(failure))
}

/// The failure of a startup without strict admission whose wait for the barrier failed.
pub open spec fn detect_failure(kind: UsbWriteFailureKind) -> UsbStartupFailure {
    UsbStartupFailure::Write(UsbWriteFailure { phase: UsbWritePhase::Detect, kind })
}

/// A write of a startup.
pub open spec fn startup_write(
    state: StartupState,
    phase: UsbWritePhase,
) -> UsbStartupAction {
    UsbStartupAction::Write {
        phase,
        timeout: state.phase_timeout,
        await_terminal_detach_on_failure: phase is Initialise,
    }
}

/// A startup that asks the reader to pause.
pub open spec fn startup_pauses(state: StartupState, now: u128) -> (StartupState, UsbStartupAction) {
    (
        at_step(state, UsbStartupStep::Boundary),
        UsbStartupAction::RequestPause { until: instant_after(now, state.phase_timeout) },
    )
}

/// What a report makes of a startup that reads reports.
pub open spec fn startup_report(
    state: StartupState,
    event: UsbIoEvent,
    observation: CapabilityObservation,
    now: u128,
) -> (StartupState, UsbStartupAction) {
    match event {
        UsbIoEvent::Read(bytes) => {
            let read = startup_read(state, bytes@);
            if state.capability is Some && observation is Rejected {
                startup_failed(read, UsbStartupFailure::Rejected)
            } else if state.step is Response && observation is Admitted {
                startup_pauses(read, now)
            } else {
                (read, UsbStartupAction::Continue)
            }
        },
        UsbIoEvent::Writer(exit) => startup_failed(
            state,
            if state.capability is Some {
                UsbStartupFailure::WriterEnded(exit)
            } else {
                detect_failure(UsbWriteFailureKind::QueueClosed)
            },
        ),
        UsbIoEvent::Reader(exit) => startup_failed(
            state,
            if state.capability is Some {
                UsbStartupFailure::ReaderEnded(exit)
            } else {
                detect_failure(UsbWriteFailureKind::QueueClosed)
            },
        ),
    }
}

/// What the end of all reports makes of a startup.
pub open spec fn startup_closed(state: StartupState) -> (StartupState, UsbStartupAction) {
    if state.capability is None {
        if state.step is Drain {
            (at_step(state, UsbStartupStep::Initialise), startup_write(state, UsbWritePhase::Initialise))
        } else {
            startup_failed(state, detect_failure(UsbWriteFailureKind::QueueClosed))
        }
    } else if state.step is Response {
        startup_failed(state, UsbStartupFailure::StreamClosed)
    } else {
        startup_failed(state, UsbStartupFailure::BoundaryStreamClosed)
    }
}

/// The startup after an event, and what it does next. An event that its step does not
/// wait for changes nothing.
pub open spec fn startup_after(state: StartupState, event: UsbStartupEvent, now: u128) -> (
    StartupState,
    UsbStartupAction,
) {
    match (state.step, event) {
        (UsbStartupStep::Detect, UsbStartupEvent::Written(Ok(_))) => if state.capability is Some {
            (
                at_step(state, UsbStartupStep::Capability),
                startup_write(state, UsbWritePhase::Capability),
            )
        } else {
            startup_pauses(state, now)
        },
        (UsbStartupStep::Detect, UsbStartupEvent::Written(Err(failure))) => startup_failed(
            state,
            UsbStartupFailure::Write(failure),
        ),
        (UsbStartupStep::Capability, UsbStartupEvent::Written(Ok(_))) => (
            at_step(state, UsbStartupStep::Response),
            UsbStartupAction::Await { until: instant_after(now, state.capability->0) },
        ),
        (UsbStartupStep::Capability, UsbStartupEvent::Written(Err(failure))) => startup_failed(
            state,
            UsbStartupFailure::Write(failure),
        ),
        (UsbStartupStep::Response, UsbStartupEvent::Elapsed) => startup_failed(
            state,
            UsbStartupFailure::ResponseTimedOut,
        ),
        (UsbStartupStep::Boundary, UsbStartupEvent::Elapsed) => startup_failed(
            state,
            if state.capability is Some {
                UsbStartupFailure::BoundaryTimedOut
            } else {
                detect_failure(UsbWriteFailureKind::DeadlineElapsed)
            },
        ),
        (UsbStartupStep::Boundary, UsbStartupEvent::Paused) => (
            at_step(state, UsbStartupStep::Drain),
            UsbStartupAction::DrainTail,
        ),
        (UsbStartupStep::Drain, UsbStartupEvent::TailEmpty) => (
            at_step(state, UsbStartupStep::Initialise),
            startup_write(state, UsbWritePhase::Initialise),
        ),
        (UsbStartupStep::Initialise, UsbStartupEvent::Written(Ok(_))) => (
            at_step(state, UsbStartupStep::Active),
            UsbStartupAction::Resume,
        ),
        (UsbStartupStep::Initialise, UsbStartupEvent::Written(Err(failure))) => startup_failed(
            state,
            UsbStartupFailure::Initialise(failure),
        ),
        (_, UsbStartupEvent::Io(report, observation)) => if reads_reports(state.step) {
            startup_report(state, report, observation, now)
        } else {
            (state, UsbStartupAction::Continue)
        },
        (_, UsbStartupEvent::StreamClosed) => if reads_reports(state.step) {
            startup_closed(state)
        } else {
            (state, UsbStartupAction::Continue)
        },
        _ => (state, UsbStartupAction::Continue),
    }
}

/// The step waits for reports.
pub open spec fn reads_reports(step: UsbStartupStep) -> bool {
    step is Response || step is Boundary || step is Drain
}

/// A step of strict admission comes only with strict admission.
pub open spec fn startup_consistent(state: StartupState) -> bool {
    (state.step is Capability || state.step is Response) ==> state.capability is Some
}

/// The startup of a USB session.
#[derive(Debug)]
pub struct UsbRNodeStartup {
    step: UsbStartupStep,
    capability: Option<u128>,
    phase_timeout: u128,
    deframer: RawKissDeframer,
    protocol: RNodeProtocolState,
}

impl View for UsbRNodeStartup {
    type V = StartupState;

    closed spec fn view(&self) -> StartupState {
        StartupState {
            step: self.step,
            capability: self.capability,
            phase_timeout: self.phase_timeout,
            assembly: self.deframer@,
            protocol: self.protocol,
        }
    }
}

impl UsbRNodeStartup {
    /// A startup that begins with the detect probe. `capability` is how long the
    /// capability answer may take, with strict admission.
    pub fn new(target: RNodeProtocolTarget, phase_timeout: u128, capability: Option<u128>) -> (
        started: (Self, UsbStartupAction))
        ensures
            startup_consistent(started.0@),
            started.0@.step is Detect,
            started.0@.capability == capability,
            started.0@.phase_timeout == phase_timeout,
            started.0@.assembly == fresh_assembly(),
            started.0@.protocol.spec_target() == target,
            started.0@.protocol.spec_evidence() == no_evidence(),
            started.1 == startup_write(started.0@, UsbWritePhase::Detect),
    {
        let startup = UsbRNodeStartup {
            step: UsbStartupStep::Detect,
            capability,
            phase_timeout,
            deframer: RawKissDeframer::new(),
            protocol: RNodeProtocolState::new(target),
        };
        let action = startup.write(UsbWritePhase::Detect);
        (startup, action)
    }

    fn write(&self, phase: UsbWritePhase) -> (action: UsbStartupAction)
        ensures
            action == startup_write(self@, phase),
    {
        UsbStartupAction::Write {
            phase,
            timeout: self.phase_timeout,
            await_terminal_detach_on_failure: matches!(phase, UsbWritePhase::Initialise),
        }
    }

    fn fail(&mut self, failure: UsbStartupFailure) -> (action: UsbStartupAction)
        ensures
            (final(self)@, action) == startup_failed(old(self)@, failure),
    {
        self.step = UsbStartupStep::Failed;
        UsbStartupAction::Fail(failure)
    }

    fn request_pause(&mut self, now: u128) -> (action: UsbStartupAction)
        ensures
            (final(self)@, action) == startup_pauses(old(self)@, now),
    {
        self.step = UsbStartupStep::Boundary;
        UsbStartupAction::RequestPause { until: deadline_after(now, self.phase_timeout) }
    }

    /// Takes a read into account.
    fn observe(&mut self, bytes: &[u8])
        ensures
            final(self)@ == startup_read(old(self)@, bytes@),
    {
        let ghost entry = self.protocol;
        let frames = self.deframer.feed(bytes);
        let ghost all = frames_view(frames@);
        let mut index: usize = 0;
        while index < frames.len()
            invariant
                index <= frames@.len(),
                all == frames_view(frames@),
                self.protocol == seed_after_all(entry, all.subrange(0, index as int)),
                self@ == (StartupState {
                    assembly: assemble_all(old(self)@.assembly, bytes@),
                    protocol: self.protocol,
                    ..old(self)@
                }),
            decreases frames@.len() - index,
        {
            let command: u8 = frames[index].0;
            proof {
                let grown = all.subrange(0, index + 1);
                assert(grown.drop_last() =~= all.subrange(0, index as int));
                assert(grown.last() == (command, frames@[index as int].1@));
            }
            if command == CMD_DETECT || command == CMD_FW_VERSION {
                self.protocol.apply_frame(command, frames[index].1.as_slice());
            }
            index = index + 1;
        }
        assert(all.subrange(0, index as int) =~= all);
    }

    fn report(&mut self, event: UsbIoEvent, observation: CapabilityObservation, now: u128) -> (action:
        UsbStartupAction)
        ensures
            (final(self)@, action) == startup_report(old(self)@, event, observation, now),
    {
        match event {
            UsbIoEvent::Read(bytes) => {
                self.observe(bytes.as_slice());
                if self.capability.is_some() && observation == CapabilityObservation::Rejected {
                    self.fail(UsbStartupFailure::Rejected)
                } else if self.step == UsbStartupStep::Response && observation
                    == CapabilityObservation::Admitted {
                    self.request_pause(now)
                } else {
                    UsbStartupAction::Continue
                }
            },
            UsbIoEvent::Writer(exit) => if self.capability.is_some() {
                self.fail(UsbStartupFailure::WriterEnded(exit))
            } else {
                self.fail(
                    UsbStartupFailure::Write(
                        UsbWriteFailure {
                            phase: UsbWritePhase::Detect,
                            kind: UsbWriteFailureKind::QueueClosed,
                        },
                    ),
                )
            },
            UsbIoEvent::Reader(exit) => if self.capability.is_some() {
                self.fail(UsbStartupFailure::ReaderEnded(exit))
            } else {
                self.fail(
                    UsbStartupFailure::Write(
                        UsbWriteFailure {
                            phase: UsbWritePhase::Detect,
                            kind: UsbWriteFailureKind::QueueClosed,
                        },
                    ),
                )
            },
        }
    }

    fn closed(&mut self) -> (action: UsbStartupAction)
        ensures
            (final(self)@, action) == startup_closed(old(self)@),
    {
        if self.capability.is_none() {
            if self.step == UsbStartupStep::Drain {
                self.step = UsbStartupStep::Initialise;
                self.write(UsbWritePhase::Initialise)
            } else {
                self.fail(
                    UsbStartupFailure::Write(
                        UsbWriteFailure {
                            phase: UsbWritePhase::Detect,
                            kind: UsbWriteFailureKind::QueueClosed,
                        },
                    ),
                )
            }
        } else if self.step == UsbStartupStep::Response {
            self.fail(UsbStartupFailure::StreamClosed)
        } else {
            self.fail(UsbStartupFailure::BoundaryStreamClosed)
        }
    }

    /// Decides what to do after an event.
    pub fn advance(&mut self, event: UsbStartupEvent, now: u128) -> (action: UsbStartupAction)
        requires
            startup_consistent(old(self)@),
        ensures
            startup_consistent(final(self)@),
            (final(self)@, action) == startup_after(old(self)@, event, now),
    {
        match (self.step, event) {
            (UsbStartupStep::Detect, UsbStartupEvent::Written(result)) => match result {
                Ok(_) => if self.capability.is_some() {
                    self.step = UsbStartupStep::Capability;
                    self.write(UsbWritePhase::Capability)
                } else {
                    self.request_pause(now)
                },
                Err(failure) => self.fail(UsbStartupFailure::Write(failure)),
            },
            (UsbStartupStep::Capability, UsbStartupEvent::Written(result)) => match result {
                Ok(_) => {
                    let timeout: u128 = match self.capability {
                        Some(timeout) => timeout,
                        None => 0,
                    };
                    self.step = UsbStartupStep::Response;
                    UsbStartupAction::Await { until: deadline_after(now, timeout) }
                },
                Err(failure) => self.fail(UsbStartupFailure::Write(failure)),
            },
            (UsbStartupStep::Response, UsbStartupEvent::Elapsed) => self.fail(
                UsbStartupFailure::ResponseTimedOut,
            ),
            (UsbStartupStep::Boundary, UsbStartupEvent::Elapsed) => if self.capability.is_some() {
                self.fail(UsbStartupFailure::BoundaryTimedOut)
            } else {
                self.fail(
                    UsbStartupFailure::Write(
                        UsbWriteFailure {
                            phase: UsbWritePhase::Detect,
                            kind: UsbWriteFailureKind::DeadlineElapsed,
                        },
                    ),
                )
            },
            (UsbStartupStep::Boundary, UsbStartupEvent::Paused) => {
                self.step = UsbStartupStep::Drain;
                UsbStartupAction::DrainTail
            },
            (UsbStartupStep::Drain, UsbStartupEvent::TailEmpty) => {
                self.step = UsbStartupStep::Initialise;
                self.write(UsbWritePhase::Initialise)
            },
            (UsbStartupStep::Initialise, UsbStartupEvent::Written(result)) => match result {
                Ok(_) => {
                    self.step = UsbStartupStep::Active;
                    UsbStartupAction::Resume
                },
                Err(failure) => self.fail(UsbStartupFailure::Initialise(failure)),
            },
            (step, UsbStartupEvent::Io(report, observation)) => match step {
                UsbStartupStep::Response | UsbStartupStep::Boundary | UsbStartupStep::Drain =>
                    self.report(report, observation, now),
                _ => UsbStartupAction::Continue,
            },
            (step, UsbStartupEvent::StreamClosed) => match step {
                UsbStartupStep::Response | UsbStartupStep::Boundary | UsbStartupStep::Drain =>
                    self.closed(),
                _ => UsbStartupAction::Continue,
            },
            _ => UsbStartupAction::Continue,
        }
    }

    /// The evidence that an active session starts from.
    pub fn into_protocol_state(self) -> (protocol: RNodeProtocolState)
        ensures
            protocol == self@.protocol,
    {
        self.protocol
    }
}

/// Nothing that a device says before its radio is initialised proves anything of the
/// radio: the evidence that crosses the startup holds detection and firmware alone, and
/// never proves readiness.
pub proof fn startup_keeps_no_radio_evidence(protocol: RNodeProtocolState, frames: Seq<Frame>)
    requires
        protocol.spec_evidence() == no_evidence(),
    ensures
        ({
            let seed = seed_after_all(protocol, frames);
            let evidence = seed.spec_evidence();
            &&& seed.spec_target() == protocol.spec_target()
            &&& evidence == (crate::rnode_protocol::RNodeProtocolEvidence {
                detected: evidence.detected,
                firmware: evidence.firmware,
                ..no_evidence()
            })
            &&& !seed.is_ready()
        }),
    decreases frames.len(),
{
    if frames.len() > 0 {
        startup_keeps_no_radio_evidence(protocol, frames.drop_last());
        let before = seed_after_all(protocol, frames.drop_last());
        before.frame_updates_evidence(frames.last().0, frames.last().1);
    }
}

/// The radio is initialised only after the reader has paused and everything that it
/// handed on before is consumed, and with strict admission only after the device was
/// admitted.
pub proof fn initialisation_follows_the_barrier(
    state: StartupState,
    event: UsbStartupEvent,
    now: u128,
)
    requires
        startup_consistent(state),
        !(state.step is Initialise),
    ensures
        ({
            let (next, action) = startup_after(state, event, now);
            &&& action == startup_write(state, UsbWritePhase::Initialise) ==> state.step is Drain
            &&& next.step is Initialise ==> state.step is Drain
            &&& next.step is Drain && !(state.step is Drain) ==> state.step is Boundary
                && event is Paused
            &&& next.step is Boundary && !(state.step is Boundary) && state.capability is Some
                ==> state.step is Response && event matches UsbStartupEvent::Io(
                UsbIoEvent::Read(_),
                CapabilityObservation::Admitted,
            )
        }),
{
}

/// A startup that has failed or is complete stays so.
pub proof fn startup_ends_once(state: StartupState, event: UsbStartupEvent, now: u128)
    requires
        state.step is Failed || state.step is Active,
    ensures
        startup_after(state, event, now) == (state, UsbStartupAction::Continue),
{
}

/// A radio whose initialisation failed is detached, within half a second; before that there is
/// nothing to detach.
pub proof fn only_a_failed_initialisation_is_detached(failure: UsbStartupFailure)
    ensures
        failure is Initialise ==> detach_wait_behind(failure) == Some(500_000_000u128),
        !(failure is Initialise) ==> detach_wait_behind(failure) is None,
{
}

/// A startup writes the detect probe; then, with strict admission, the capability request, and
/// waits for its answer; then it asks the reader to pause, consumes what it handed on, writes
/// the initialisation, and is complete.
pub proof fn startup_goes_through_its_steps(state: StartupState, now: u128)
    requires
        state.step is Detect,
        now + state.phase_timeout <= u128::MAX,
        state.capability is Some ==> now + state.capability->0 <= u128::MAX,
    ensures
        ({
            let written = UsbStartupEvent::Written(Ok(()));
            let (asked, action) = startup_after(state, written, now);
            &&& state.capability is Some ==> {
                let (waiting, awaited) = startup_after(asked, written, now);
                &&& asked.step is Capability
                &&& action == (UsbStartupAction::Write {
                    phase: UsbWritePhase::Capability,
                    timeout: state.phase_timeout,
                    await_terminal_detach_on_failure: false,
                })
                &&& waiting.step is Response
                &&& awaited == (UsbStartupAction::Await {
                    until: (now + state.capability->0) as u128,
                })
            }
            &&& state.capability is None ==> {
                let (drained, tail) = startup_after(asked, UsbStartupEvent::Paused, now);
                let (init, write) = startup_after(drained, UsbStartupEvent::TailEmpty, now);
                let (active, resume) = startup_after(init, written, now);
                &&& asked.step is Boundary
                &&& action == (UsbStartupAction::RequestPause {
                    until: (now + state.phase_timeout) as u128,
                })
                &&& drained.step is Drain && tail is DrainTail
                &&& init.step is Initialise
                &&& write == (UsbStartupAction::Write {
                    phase: UsbWritePhase::Initialise,
                    timeout: state.phase_timeout,
                    await_terminal_detach_on_failure: true,
                })
                &&& active.step is Active && resume is Resume
                &&& active.protocol == state.protocol
            }
        }),
{
}

/// An answer that admits the device moves a strict startup on to the barrier, and from there as
/// any other; one that rejects it ends the startup, at the barrier as before it.
pub proof fn strict_startup_needs_an_admission(
    state: StartupState,
    bytes: Vec<u8>,
    observation: CapabilityObservation,
    now: u128,
)
    requires
        state.capability is Some,
        state.step is Response || state.step is Boundary || state.step is Drain,
        now + state.phase_timeout <= u128::MAX,
    ensures
        ({
            let (after, action) = startup_after(
                state,
                UsbStartupEvent::Io(UsbIoEvent::Read(bytes), observation),
                now,
            );
            &&& observation is Rejected ==> after.step is Failed && action
                == UsbStartupAction::Fail(UsbStartupFailure::Rejected)
            &&& observation is Admitted && state.step is Response ==> after.step is Boundary
                && action == (UsbStartupAction::RequestPause {
                until: (now + state.phase_timeout) as u128,
            })
            &&& observation is Pending ==> after.step == state.step && action is Continue
            &&& observation is Admitted && !(state.step is Response) ==> after.step == state.step
                && action is Continue
            &&& after.protocol == seed_after_all(state.protocol, frames_in(state.assembly, bytes@))
            &&& after.assembly == assemble_all(state.assembly, bytes@)
        }),
{
}

/// A write that fails ends the startup, as the initialisation's failure where it was that; an
/// answer or a pause that does not come in time ends it too.
pub proof fn startup_fails_for_its_reason(
    state: StartupState,
    failure: UsbWriteFailure,
    now: u128,
)
    ensures
        state.step is Detect || state.step is Capability ==> startup_after(
            state,
            UsbStartupEvent::Written(Err(failure)),
            now,
        ) == (
            (StartupState { step: UsbStartupStep::Failed, ..state }),
            UsbStartupAction::Fail(UsbStartupFailure::Write(failure)),
        ),
        state.step is Initialise ==> startup_after(
            state,
            UsbStartupEvent::Written(Err(failure)),
            now,
        ) == (
            (StartupState { step: UsbStartupStep::Failed, ..state }),
            UsbStartupAction::Fail(UsbStartupFailure::Initialise(failure)),
        ),
        state.step is Response ==> startup_after(state, UsbStartupEvent::Elapsed, now) == (
            (StartupState { step: UsbStartupStep::Failed, ..state }),
            UsbStartupAction::Fail(UsbStartupFailure::ResponseTimedOut),
        ),
        state.step is Boundary && state.capability is Some ==> startup_after(
            state,
            UsbStartupEvent::Elapsed,
            now,
        ) == (
            (StartupState { step: UsbStartupStep::Failed, ..state }),
            UsbStartupAction::Fail(UsbStartupFailure::BoundaryTimedOut),
        ),
        state.step is Boundary && state.capability is None ==> startup_after(
            state,
            UsbStartupEvent::Elapsed,
            now,
        ) == (
            (StartupState { step: UsbStartupStep::Failed, ..state }),
            UsbStartupAction::Fail(
                UsbStartupFailure::Write(
                    UsbWriteFailure {
                        phase: UsbWritePhase::Detect,
                        kind: UsbWriteFailureKind::DeadlineElapsed,
                    },
                ),
            ),
        ),
{
}

/// A worker that ends, or reports that end, while a startup reads them ends it: in the worker's
/// own words with strict admission, and otherwise as a closed queue. At the drain without
/// strict admission the end of all reports is the end of the tail.
pub proof fn startup_needs_its_workers(
    state: StartupState,
    writer: UsbWriterExit,
    reader: UsbReaderExit,
    observation: CapabilityObservation,
    now: u128,
)
    requires
        startup_consistent(state),
        state.step is Response || state.step is Boundary || state.step is Drain,
    ensures
        ({
            let closed = UsbStartupFailure::Write(
                UsbWriteFailure {
                    phase: UsbWritePhase::Detect,
                    kind: UsbWriteFailureKind::QueueClosed,
                },
            );
            let strict = state.capability is Some;
            let failed = StartupState { step: UsbStartupStep::Failed, ..state };
            &&& startup_after(
                state,
                UsbStartupEvent::Io(UsbIoEvent::Writer(writer), observation),
                now,
            ) == (
                failed,
                UsbStartupAction::Fail(
                    if strict {
                        UsbStartupFailure::WriterEnded(writer)
                    } else {
                        closed
                    },
                ),
            )
            &&& startup_after(
                state,
                UsbStartupEvent::Io(UsbIoEvent::Reader(reader), observation),
                now,
            ) == (
                failed,
                UsbStartupAction::Fail(
                    if strict {
                        UsbStartupFailure::ReaderEnded(reader)
                    } else {
                        closed
                    },
                ),
            )
            &&& strict || !(state.step is Drain) ==> startup_after(
                state,
                UsbStartupEvent::StreamClosed,
                now,
            ) == (
                failed,
                UsbStartupAction::Fail(
                    if !strict {
                        closed
                    } else if state.step is Response {
                        UsbStartupFailure::StreamClosed
                    } else {
                        UsbStartupFailure::BoundaryStreamClosed
                    },
                ),
            )
            &&& !strict && state.step is Drain ==> startup_after(
                state,
                UsbStartupEvent::StreamClosed,
                now,
            ) == (
                (StartupState { step: UsbStartupStep::Initialise, ..state }),
                UsbStartupAction::Write {
                    phase: UsbWritePhase::Initialise,
                    timeout: state.phase_timeout,
                    await_terminal_detach_on_failure: true,
                },
            )
        }),
{
}

/// Of what a device says during a startup detection and firmware count, frame by frame and in
/// order, and nothing else does.
pub proof fn startup_counts_detection_and_firmware(
    protocol: RNodeProtocolState,
    frames: Seq<Frame>,
    frame: Frame,
)
    ensures
        seed_after_all(protocol, frames.push(frame)) == (if frame.0 == 0x08 || frame.0 == 0x50 {
            seed_after_all(protocol, frames).after(frame.0, frame.1)
        } else {
            seed_after_all(protocol, frames)
        }),
        seed_after_all(protocol, Seq::empty()) == protocol,
{
    assert(frames.push(frame).drop_last() =~= frames);
}

} // verus!
