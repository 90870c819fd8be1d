//! Opening a USB device, step by step: the device is found and opened, its serial
//! interface is claimed and set up, and only then is its lease active. Whatever fails on
//! the way, the device ends up closed and free, or in quarantine.
use vstd::prelude::*;
use vstd::string::*;
use crate::android_usb::session::{
    after_failed_open, after_unowned_open, choose_endpoints, last_endpoint, line_coding,
    line_coding_bytes, line_coding_holds_the_rate, serves_serial, UsbAftermath, UsbInterfaceShape,
    UsbSerialEndpoints,
};
use crate::android_usb_lifecycle::shutdown::UsbConnectionCleanup;
use crate::text::join2;

verus! {

/// How far an opening has come.
#[derive(Clone, Copy, Debug, PartialEq, Eq, Structural)]
pub enum UsbOpeningStep {
    /// The device is looked up.
    Find,
    /// The device is opened.
    Open,
    /// A lasting hold of the connection is taken.
    Own,
    /// The device's interfaces are described.
    Describe,
    /// A lasting hold of the serial interface is taken.
    HoldInterface,
    /// The serial interface is claimed.
    Claim,
    /// The line is set up, as far as the device supports it.
    SetUpLine,
    /// A lasting hold of both endpoints is taken.
    HoldEndpoints,
    /// The lease becomes active.
    Activate,
    Ready,
    /// The connection is closed of which no lasting hold was had.
    CloseUnowned,
    /// The interface is released and the connection closed.
    CleanUp,
    Failed,
}

/// What became of a step.
#[derive(Debug)]
pub enum UsbOpeningEvent<O> {
    /// The step is done.
    Done,
    /// There is no device, connection or claim.
    Refused,
    /// The platform failed.
    Failed(String),
    /// The interfaces of the device, up to one that serves a serial line.
    Described(Vec<UsbInterfaceShape>),
    /// The connection of which no lasting hold was had was closed, or not.
    ClosedUnowned(Result<(), String>),
    /// The interface was released and the connection closed, or not.
    CleanedUp(UsbConnectionCleanup<O>),
}

/// What to do next.
#[derive(Debug)]
pub enum UsbOpeningAction<O> {
    Find,
    Open,
    Own,
    Describe,
    HoldInterface { interface: usize },
    Claim,
    SetUpLine { coding: Vec<u8> },
    HoldEndpoints { endpoints: UsbSerialEndpoints },
    Activate,
    Ready,
    CloseUnowned,
    /// Release the interface, if it was claimed, and close the connection.
    CleanUp { claimed: bool },
    /// Put what was not closed, or the bare device, in quarantine, if there is a reason;
    /// give a device that is still being opened back; and report the error.
    Fail { error: String, quarantine: Option<String>, unclosed: Option<O> },
    /// Nothing changes.
    Continue,
}

/// An opening under way.
#[derive(Debug)]
pub struct UsbOpening {
    step: UsbOpeningStep,
    device_name: String,
    baud_rate: u32,
    endpoints: Option<UsbSerialEndpoints>,
    claimed: bool,
    error: Option<String>,
}

/// What an opening knows.
pub ghost struct OpeningState {
    pub step: UsbOpeningStep,
    pub device_name: Seq<char>,
    pub baud_rate: u32,
    /// The serial line, once it is found.
    pub endpoints: Option<UsbSerialEndpoints>,
    pub claimed: bool,
    /// Why the opening failed, while it is cleaned up.
    pub error: Seq<char>,
}

/// An opening that has come to a step.
pub open spec fn opening_at(state: OpeningState, step: UsbOpeningStep) -> OpeningState {
    OpeningState { step, ..state }
}

/// The device is open, and a lasting hold of its connection was taken.
pub open spec fn owns_connection(step: UsbOpeningStep) -> bool {
    step is Describe || step is HoldInterface || step is Claim || step is SetUpLine || step
        is HoldEndpoints || step is Activate
}

/// The steps behind the choice of the endpoints.
pub open spec fn has_endpoints(step: UsbOpeningStep) -> bool {
    step is HoldInterface || step is Claim || step is SetUpLine || step is HoldEndpoints || step
        is Activate || step is Ready
}

/// What a failed step is reported as.
pub open spec fn opening_error<O>(state: OpeningState, event: UsbOpeningEvent<O>) -> Option<
    Seq<char>,
> {
    match event {
        UsbOpeningEvent::Failed(error) => if state.step is SetUpLine {
            None
        } else {
            Some(error@)
        },
        UsbOpeningEvent::Refused => match state.step {
            UsbOpeningStep::Find => Some("USB device not found: "@ + state.device_name),
            UsbOpeningStep::Open => Some("Failed to open USB device (permission denied?)"@),
            UsbOpeningStep::Describe => Some("No CDC-ACM interface found"@),
            UsbOpeningStep::Claim => Some("Java claimInterface returned false"@),
            UsbOpeningStep::Activate => Some("USB owner connection disappeared during setup"@),
            _ => None,
        },
        UsbOpeningEvent::Described(shapes) => if state.step is Describe && forall|i: int|
            0 <= i < shapes@.len() ==> !serves_serial(#[trigger] shapes@[i]) {
            Some("No CDC-ACM interface found"@)
        } else {
            None
        },
        _ => None,
    }
}

/// Where a finished step leads, apart from the choice of the endpoints.
pub open spec fn next_step(step: UsbOpeningStep) -> Option<UsbOpeningStep> {
    match step {
        UsbOpeningStep::Find => Some(UsbOpeningStep::Open),
        UsbOpeningStep::Open => Some(UsbOpeningStep::Own),
        UsbOpeningStep::Own => Some(UsbOpeningStep::Describe),
        UsbOpeningStep::HoldInterface => Some(UsbOpeningStep::Claim),
        UsbOpeningStep::Claim => Some(UsbOpeningStep::SetUpLine),
        UsbOpeningStep::SetUpLine => Some(UsbOpeningStep::HoldEndpoints),
        UsbOpeningStep::HoldEndpoints => Some(UsbOpeningStep::Activate),
        UsbOpeningStep::Activate => Some(UsbOpeningStep::Ready),
        _ => None,
    }
}

/// The action that starts a step.
pub open spec fn starts<O>(action: UsbOpeningAction<O>, state: OpeningState) -> bool {
    match state.step {
        UsbOpeningStep::Find => action is Find,
        UsbOpeningStep::Open => action is Open,
        UsbOpeningStep::Own => action is Own,
        UsbOpeningStep::Describe => action is Describe,
        UsbOpeningStep::HoldInterface => action == (UsbOpeningAction::<O>::HoldInterface {
            interface: state.endpoints->0.interface,
        }),
        UsbOpeningStep::Claim => action is Claim,
        UsbOpeningStep::SetUpLine => action is SetUpLine && action->coding@ == line_coding_bytes(
            state.baud_rate,
        ),
        UsbOpeningStep::HoldEndpoints => action == (UsbOpeningAction::<O>::HoldEndpoints {
            endpoints: state.endpoints->0,
        }),
        UsbOpeningStep::Activate => action is Activate,
        UsbOpeningStep::Ready => action is Ready,
        UsbOpeningStep::CloseUnowned => action is CloseUnowned,
        UsbOpeningStep::CleanUp => action == (UsbOpeningAction::<O>::CleanUp {
            claimed: state.claimed,
        }),
        UsbOpeningStep::Failed => action is Fail,
    }
}

/// The opening after a step failed: an open connection is closed first.
pub open spec fn opening_failed(state: OpeningState, error: Seq<char>) -> OpeningState {
    if state.step is Find || state.step is Open {
        OpeningState { step: UsbOpeningStep::Failed, error, ..state }
    } else if state.step is Own {
        OpeningState { step: UsbOpeningStep::CloseUnowned, error, ..state }
    } else if owns_connection(state.step) {
        OpeningState { step: UsbOpeningStep::CleanUp, error, ..state }
    } else {
        state
    }
}

/// The opening after an event.
pub open spec fn opening_after<O>(state: OpeningState, event: UsbOpeningEvent<O>) -> OpeningState {
    match opening_error(state, event) {
        Some(error) => opening_failed(state, error),
        None => match event {
            UsbOpeningEvent::Described(shapes) => if state.step is Describe {
                OpeningState {
                    step: UsbOpeningStep::HoldInterface,
                    endpoints: Some(chosen_endpoints(shapes@)),
                    ..state
                }
            } else {
                state
            },
            UsbOpeningEvent::ClosedUnowned(_) => if state.step is CloseUnowned {
                opening_at(state, UsbOpeningStep::Failed)
            } else {
                state
            },
            UsbOpeningEvent::CleanedUp(_) => if state.step is CleanUp {
                opening_at(state, UsbOpeningStep::Failed)
            } else {
                state
            },
            UsbOpeningEvent::Refused => state,
            _ => if event is Failed && !(state.step is SetUpLine) {
                state
            } else {
                match next_step(state.step) {
                    Some(step) => OpeningState {
                        step,
                        claimed: state.claimed || state.step is Claim,
                        ..state
                    },
                    None => state,
                }
            },
        },
    }
}

/// The endpoints of the first interface that serves a serial line.
pub open spec fn chosen_endpoints(shapes: Seq<UsbInterfaceShape>) -> UsbSerialEndpoints {
    let interface = choose|i: int|
        0 <= i < shapes.len() && serves_serial(shapes[i]) && forall|j: int|
            0 <= j < i ==> !serves_serial(#[trigger] shapes[j]);
    UsbSerialEndpoints {
        interface: interface as usize,
        input: last_endpoint(shapes[interface].directions@, true)->0 as usize,
        output: last_endpoint(shapes[interface].directions@, false)->0 as usize,
    }
}

/// What a failed opening reports, and whether its device goes into quarantine.
pub open spec fn failure_report<O>(state: OpeningState, event: UsbOpeningEvent<O>) -> (
    Seq<char>,
    Option<Seq<char>>,
) {
    match event {
        UsbOpeningEvent::ClosedUnowned(Err(close)) => (
            state.error + "; cleanup unproven: "@ + close@,
            Some(state.error + "; "@ + close@),
        ),
        UsbOpeningEvent::CleanedUp(
            UsbConnectionCleanup::Closed { release_interface: Err(cleanup) },
        ) => (state.error + "; cleanup: "@ + cleanup@, None),
        UsbOpeningEvent::CleanedUp(
            UsbConnectionCleanup::Unclosed { release_interface, close_connection, .. },
        ) => {
            let unproven = match release_interface {
                Ok(_) => close_connection@,
                Err(release) => release@ + "; close: "@ + close_connection@,
            };
            (
                state.error + "; cleanup unproven: "@ + unproven,
                Some("USB setup cleanup failed: "@ + unproven),
            )
        },
        UsbOpeningEvent::ClosedUnowned(Ok(_)) => (state.error, None),
        UsbOpeningEvent::CleanedUp(_) => (state.error, None),
        _ => (opening_error(state, event)->0, None),
    }
}

/// The connection that a failed opening could not close.
pub open spec fn left_unclosed<O>(event: UsbOpeningEvent<O>) -> Option<O> {
    match event {
        UsbOpeningEvent::CleanedUp(UsbConnectionCleanup::Unclosed { owner, .. }) => Some(owner),
        _ => None,
    }
}

/// Past the choice of the endpoints they are known.
pub open spec fn opening_consistent(state: OpeningState) -> bool {
    has_endpoints(state.step) ==> state.endpoints is Some
}

impl View for UsbOpening {
    type V = OpeningState;

    closed spec fn view(&self) -> OpeningState {
        OpeningState {
            step: self.step,
            device_name: self.device_name@,
            baud_rate: self.baud_rate,
            endpoints: self.endpoints,
            claimed: self.claimed,
            error: match self.error {
                Some(error) => error@,
                None => Seq::empty(),
            },
        }
    }
}

impl UsbOpening {
    /// The opening of a device whose lease is reserved.
    pub fn new(device_name: &str, baud_rate: u32) -> (opening: Self)
        ensures
            opening_consistent(opening@),
            opening@ == (OpeningState {
                step: UsbOpeningStep::Find,
                device_name: device_name@,
                baud_rate,
                endpoints: None,
                claimed: false,
                error: Seq::empty(),
            }),
    {
        UsbOpening {
            step: UsbOpeningStep::Find,
            device_name: device_name.to_owned(),
            baud_rate,
            endpoints: None,
            claimed: false,
            error: None,
        }
    }

    fn start<O>(&self) -> (action: UsbOpeningAction<O>)
        requires
            opening_consistent(self@),
            !(self@.step is Failed),
        ensures
            starts(action, self@),
    {
        match self.step {
            UsbOpeningStep::Find => UsbOpeningAction::Find,
            UsbOpeningStep::Open => UsbOpeningAction::Open,
            UsbOpeningStep::Own => UsbOpeningAction::Own,
            UsbOpeningStep::Describe => UsbOpeningAction::Describe,
            UsbOpeningStep::HoldInterface => match self.endpoints {
                Some(endpoints) => UsbOpeningAction::HoldInterface {
                    interface: endpoints.interface,
                },
                None => UsbOpeningAction::Continue,
            },
            UsbOpeningStep::Claim => UsbOpeningAction::Claim,
            UsbOpeningStep::SetUpLine => UsbOpeningAction::SetUpLine {
                coding: line_coding(self.baud_rate),
            },
            UsbOpeningStep::HoldEndpoints => match self.endpoints {
                Some(endpoints) => UsbOpeningAction::HoldEndpoints { endpoints },
                None => UsbOpeningAction::Continue,
            },
            UsbOpeningStep::Activate => UsbOpeningAction::Activate,
            UsbOpeningStep::Ready => UsbOpeningAction::Ready,
            UsbOpeningStep::CloseUnowned => UsbOpeningAction::CloseUnowned,
            UsbOpeningStep::CleanUp => UsbOpeningAction::CleanUp { claimed: self.claimed },
            UsbOpeningStep::Failed => UsbOpeningAction::Continue,
        }
    }

    /// The first action of an opening.
    pub fn begin<O>(&self) -> (action: UsbOpeningAction<O>)
        requires
            opening_consistent(self@),
            !(self@.step is Failed),
        ensures
            starts(action, self@),
    {
        self.start()
    }

    fn error_text(&self) -> (error: String)
        ensures
            error@ == self@.error,
    {
        match &self.error {
            Some(error) => error.as_str().to_owned(),
            None => {
                let empty = String::new();
                assert(empty@ =~= Seq::<char>::empty());
                empty
            },
        }
    }

    fn fail<O>(&mut self, error: String) -> (action: UsbOpeningAction<O>)
        requires
            opening_consistent(old(self)@),
        ensures
            opening_consistent(final(self)@),
            final(self)@ == opening_failed(old(self)@, error@),
            final(self)@ == old(self)@ ==> action is Continue,
            final(self)@ != old(self)@ ==> starts(action, final(self)@),
            action is Fail ==> action->error@ == error@ && action->quarantine is None
                && action->unclosed is None,
    {
        match self.step {
            UsbOpeningStep::Find | UsbOpeningStep::Open => {
                self.step = UsbOpeningStep::Failed;
                self.error = Some(error);
                UsbOpeningAction::Fail {
                    error: self.error_text(),
                    quarantine: None,
                    unclosed: None,
                }
            },
            UsbOpeningStep::Own => {
                self.step = UsbOpeningStep::CloseUnowned;
                self.error = Some(error);
                self.start()
            },
            UsbOpeningStep::Describe | UsbOpeningStep::HoldInterface | UsbOpeningStep::Claim
            | UsbOpeningStep::SetUpLine | UsbOpeningStep::HoldEndpoints
            | UsbOpeningStep::Activate => {
                self.step = UsbOpeningStep::CleanUp;
                self.error = Some(error);
                self.start()
            },
            _ => UsbOpeningAction::Continue,
        }
    }

    fn close_report<O>(
        &mut self,
        aftermath: UsbAftermath,
        unclosed: Option<O>,
    ) -> (action: UsbOpeningAction<O>)
        requires
            aftermath.error is Some,
        ensures
            final(self)@ == opening_at(old(self)@, UsbOpeningStep::Failed),
            action == (UsbOpeningAction::Fail {
                error: aftermath.error->0,
                quarantine: aftermath.quarantine,
                unclosed,
            }),
    {
        self.step = UsbOpeningStep::Failed;
        match aftermath.error {
            Some(error) => UsbOpeningAction::Fail {
                error,
                quarantine: aftermath.quarantine,
                unclosed,
            },
            None => UsbOpeningAction::Continue,
        }
    }

    /// Decides what to do after an event. An event that the step does not wait for
    /// changes nothing.
    pub fn advance<O>(&mut self, event: UsbOpeningEvent<O>) -> (action: UsbOpeningAction<O>)
        requires
            opening_consistent(old(self)@),
        ensures
            opening_consistent(final(self)@),
            final(self)@ == opening_after(old(self)@, event),
            final(self)@ == old(self)@ ==> action is Continue,
            final(self)@ != old(self)@ ==> starts(action, final(self)@),
            action is Fail ==> {
                let report = failure_report(old(self)@, event);
                &&& action->error@ == report.0
                &&& match report.1 {
                    Some(reason) => action->quarantine is Some && action->quarantine->0@ == reason,
                    None => action->quarantine is None,
                }
                &&& action->unclosed == left_unclosed(event)
            },
    {
        match event {
            UsbOpeningEvent::Failed(error) => {
                if self.step == UsbOpeningStep::SetUpLine {
                    self.step = UsbOpeningStep::HoldEndpoints;
                    return self.start();
                }
                self.fail(error)
            },
            UsbOpeningEvent::Refused => {
                let error = match self.step {
                    UsbOpeningStep::Find => join2(
                        "USB device not found: ",
                        self.device_name.as_str(),
                    ),
                    UsbOpeningStep::Open =>
                        "Failed to open USB device (permission denied?)".to_owned(),
                    UsbOpeningStep::Describe => "No CDC-ACM interface found".to_owned(),
                    UsbOpeningStep::Claim => "Java claimInterface returned false".to_owned(),
                    UsbOpeningStep::Activate =>
                        "USB owner connection disappeared during setup".to_owned(),
                    _ => {
                        return UsbOpeningAction::Continue;
                    },
                };
                self.fail(error)
            },
            UsbOpeningEvent::Described(shapes) => {
                if self.step != UsbOpeningStep::Describe {
                    return UsbOpeningAction::Continue;
                }
                match choose_endpoints(&shapes) {
                    Some(endpoints) => {
                        proof {
                            let chosen = chosen_endpoints(shapes@);
                            let wanted = endpoints.interface as int;
                            assert(serves_serial(shapes@[wanted]));
                            let found = choose|i: int|
                                0 <= i < shapes@.len() && serves_serial(shapes@[i]) && forall|
                                    j: int,
                                |
                                    0 <= j < i ==> !serves_serial(#[trigger] shapes@[j]);
                            assert(0 <= wanted < shapes@.len() && serves_serial(shapes@[wanted])
                                && forall|j: int|
                                0 <= j < wanted ==> !serves_serial(#[trigger] shapes@[j]));
                            if found < wanted {
                                assert(!serves_serial(shapes@[found]));
                            }
                            if wanted < found {
                                assert(!serves_serial(shapes@[wanted]));
                            }
                            assert(found == wanted);
                            assert(chosen == endpoints);
                        }
                        self.step = UsbOpeningStep::HoldInterface;
                        self.endpoints = Some(endpoints);
                        self.start()
                    },
                    None => self.fail("No CDC-ACM interface found".to_owned()),
                }
            },
            UsbOpeningEvent::ClosedUnowned(close) => {
                if self.step != UsbOpeningStep::CloseUnowned {
                    return UsbOpeningAction::Continue;
                }
                let error = self.error_text();
                let aftermath = after_unowned_open(error, close);
                self.close_report(aftermath, None)
            },
            UsbOpeningEvent::CleanedUp(cleanup) => {
                if self.step != UsbOpeningStep::CleanUp {
                    return UsbOpeningAction::Continue;
                }
                let error = self.error_text();
                let aftermath = after_failed_open(error, &cleanup);
                let unclosed = match cleanup {
                    UsbConnectionCleanup::Unclosed { owner, .. } => Some(owner),
                    UsbConnectionCleanup::Closed { .. } => None,
                };
                self.close_report(aftermath, unclosed)
            },
            UsbOpeningEvent::Done => {
                match self.step {
                    UsbOpeningStep::Find => {
                        self.step = UsbOpeningStep::Open;
                    },
                    UsbOpeningStep::Open => {
                        self.step = UsbOpeningStep::Own;
                    },
                    UsbOpeningStep::Own => {
                        self.step = UsbOpeningStep::Describe;
                    },
                    UsbOpeningStep::HoldInterface => {
                        self.step = UsbOpeningStep::Claim;
                    },
                    UsbOpeningStep::Claim => {
                        self.claimed = true;
                        self.step = UsbOpeningStep::SetUpLine;
                    },
                    UsbOpeningStep::SetUpLine => {
                        self.step = UsbOpeningStep::HoldEndpoints;
                    },
                    UsbOpeningStep::HoldEndpoints => {
                        self.step = UsbOpeningStep::Activate;
                    },
                    UsbOpeningStep::Activate => {
                        self.step = UsbOpeningStep::Ready;
                    },
                    _ => {
                        return UsbOpeningAction::Continue;
                    },
                }
                self.start()
            },
        }
    }
}

/// An opening that holds its connection never just fails: it is cleaned up first, and
/// that exactly if a step has failed.
pub proof fn open_connection_is_cleaned_up<O>(state: OpeningState, event: UsbOpeningEvent<O>)
    requires
        owns_connection(state.step),
    ensures
        ({
            let next = opening_after(state, event);
            !(next.step is Failed) && (next.step is CleanUp <==> opening_error(state, event)
                is Some)
        }),
{
}

/// A device goes into quarantine exactly if its connection was not closed.
pub proof fn quarantine_means_unclosed<O>(state: OpeningState, event: UsbOpeningEvent<O>)
    requires
        !(state.step is Failed),
        opening_after(state, event).step is Failed,
    ensures
        failure_report(state, event).1 is Some <==> (event matches UsbOpeningEvent::ClosedUnowned(
            Err(_),
        ) || event matches UsbOpeningEvent::CleanedUp(UsbConnectionCleanup::Unclosed { .. })),
{
}

/// An opening goes through its steps one by one: the device is found and opened, its connection
/// held, its interfaces described, the serial one held and claimed, the line set up, the
/// endpoints held, and only then does the lease become active.
pub proof fn opening_goes_through_its_steps<O>(state: OpeningState)
    requires
        state.step is Find,
    ensures
        ({
            let done = UsbOpeningEvent::<O>::Done;
            let open = opening_after(state, done);
            let own = opening_after(open, done);
            let describe = opening_after(own, done);
            &&& open.step is Open && own.step is Own && describe.step is Describe
            &&& opening_after(describe, done) == describe
            &&& describe.claimed == state.claimed
        }),
        ({
            let done = UsbOpeningEvent::<O>::Done;
            let held = OpeningState { step: UsbOpeningStep::HoldInterface, ..state };
            let claim = opening_after(held, done);
            let line = opening_after(claim, done);
            let ends = opening_after(line, done);
            let activate = opening_after(ends, done);
            &&& claim.step is Claim && claim.claimed == state.claimed
            &&& line.step is SetUpLine && line.claimed
            &&& ends.step is HoldEndpoints && activate.step is Activate
            &&& opening_after(activate, done).step is Ready
            &&& opening_after(activate, done).endpoints == state.endpoints
        }),
{
}

/// The serial line is looked for among the described interfaces: the first that serves one is
/// held, with its endpoints, and without one the opening fails.
pub proof fn described_line_is_held<O>(
    state: OpeningState,
    shapes: Vec<UsbInterfaceShape>,
    interface: int,
)
    requires
        state.step is Describe,
    ensures
        0 <= interface < shapes@.len() && serves_serial(shapes@[interface]) && (forall|j: int|
            0 <= j < interface ==> !serves_serial(#[trigger] shapes@[j])) && shapes@.len()
            <= usize::MAX ==> {
            let after = opening_after(state, UsbOpeningEvent::<O>::Described(shapes));
            &&& after.step is HoldInterface
            &&& after.endpoints is Some
            &&& after.endpoints->0.interface == interface
        },
        (forall|j: int| 0 <= j < shapes@.len() ==> !serves_serial(#[trigger] shapes@[j])) ==> {
            let after = opening_after(state, UsbOpeningEvent::<O>::Described(shapes));
            &&& after.step is CleanUp
            &&& after.error == "No CDC-ACM interface found"@
        },
{
    if 0 <= interface < shapes@.len() && serves_serial(shapes@[interface]) && (forall|j: int|
        0 <= j < interface ==> !serves_serial(#[trigger] shapes@[j])) && shapes@.len()
        <= usize::MAX {
        let found = choose|i: int|
            0 <= i < shapes@.len() && serves_serial(shapes@[i]) && forall|j: int|
                0 <= j < i ==> !serves_serial(#[trigger] shapes@[j]);
        assert(0 <= interface < shapes@.len() && serves_serial(shapes@[interface]) && forall|j: int|
            0 <= j < interface ==> !serves_serial(#[trigger] shapes@[j]));
        if found < interface {
            assert(!serves_serial(shapes@[found]));
        }
        if interface < found {
            assert(!serves_serial(shapes@[interface]));
        }
        assert(found == interface);
        assert(!(forall|i: int| 0 <= i < shapes@.len() ==> !serves_serial(#[trigger] shapes@[i])));
    }
}

/// A step that fails ends the opening: at once where nothing is open, behind a close where the
/// connection is not held yet, and behind a cleanup where it is. A device that does not let its
/// line be set up is opened all the same.
pub proof fn failed_step_closes_what_is_open<O>(state: OpeningState, error: String)
    ensures
        ({
            let after = opening_after(state, UsbOpeningEvent::<O>::Failed(error));
            &&& state.step is Find || state.step is Open ==> after.step is Failed && after.error
                == error@
            &&& state.step is Own ==> after.step is CloseUnowned && after.error == error@
            &&& state.step is Describe || state.step is HoldInterface || state.step is Claim
                || state.step is HoldEndpoints || state.step is Activate ==> after.step is CleanUp
                && after.error == error@ && after.claimed == state.claimed
            &&& state.step is SetUpLine ==> after.step is HoldEndpoints
            &&& state.step is Ready || state.step is CloseUnowned || state.step is CleanUp
                || state.step is Failed ==> after == state
        }),
{
}

/// A device, a connection or a claim that is refused ends the opening as a failed step does.
pub proof fn refusal_ends_the_opening<O>(state: OpeningState)
    ensures
        ({
            let after = opening_after(state, UsbOpeningEvent::<O>::Refused);
            &&& state.step is Find || state.step is Open ==> after.step is Failed
            &&& state.step is Describe || state.step is Claim || state.step is Activate
                ==> after.step is CleanUp
            &&& state.step is Own || state.step is HoldInterface || state.step is SetUpLine
                || state.step is HoldEndpoints || state.step is Ready || state.step
                is CloseUnowned || state.step is CleanUp || state.step is Failed ==> after == state
        }),
{
}

/// Each step is started by its own action: the interface and the endpoints are those that were
/// chosen, the line is set to the configured rate, and a cleanup releases the interface exactly
/// if it was claimed.
pub proof fn step_is_started_by_its_action<O>(action: UsbOpeningAction<O>, state: OpeningState)
    requires
        starts(action, state),
    ensures
        state.step is Find ==> action is Find,
        state.step is Open ==> action is Open,
        state.step is Own ==> action is Own,
        state.step is Describe ==> action is Describe,
        state.step is HoldInterface ==> action is HoldInterface && action->interface
            == state.endpoints->0.interface,
        state.step is Claim ==> action is Claim,
        state.step is SetUpLine ==> action is SetUpLine && action->coding@[0]
            + action->coding@[1] * 256 + action->coding@[2] * 65_536 + action->coding@[3]
            * 16_777_216 == state.baud_rate,
        state.step is HoldEndpoints ==> action is HoldEndpoints && action->endpoints
            == state.endpoints->0,
        state.step is Activate ==> action is Activate,
        state.step is Ready ==> action is Ready,
        state.step is CloseUnowned ==> action is CloseUnowned,
        state.step is CleanUp ==> action is CleanUp && action->claimed == state.claimed,
        state.step is Failed ==> action is Fail,
{
    line_coding_holds_the_rate(state.baud_rate);
}

/// A failed opening that was cleaned up is over, and a connection that was not closed is handed
/// on for its quarantine.
pub proof fn cleaned_up_opening_is_over<O>(state: OpeningState, cleanup: UsbConnectionCleanup<O>)
    requires
        state.step is CleanUp,
    ensures
        opening_after(state, UsbOpeningEvent::CleanedUp(cleanup)) == (OpeningState {
            step: UsbOpeningStep::Failed,
            ..state
        }),
        cleanup is Unclosed ==> left_unclosed(UsbOpeningEvent::CleanedUp(cleanup)) == Some(
            cleanup->owner,
        ),
        cleanup is Closed ==> left_unclosed(UsbOpeningEvent::CleanedUp(cleanup)) is None,
        cleanup is Closed && cleanup->Closed_release_interface is Ok ==> failure_report(
            state,
            UsbOpeningEvent::CleanedUp(cleanup),
        ) == (state.error, None::<Seq<char>>),
{
}

} // verus!
