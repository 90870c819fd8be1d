//! The end of a USB session. A connection is closed only after both workers are known
//! to have ended; where that or the closing itself is unproven, the device is kept in
//! quarantine.
use vstd::prelude::*;
use vstd::string::*;
use crate::android_usb_lifecycle::reader::UsbReaderExit;
use crate::android_usb_lifecycle::write::UsbWriteFailure;
use crate::android_usb_lifecycle::writer::UsbWriterExit;
use crate::text::{join2, join_all, joined, texts};

verus! {

/// What became of waiting for a worker's end.
#[derive(Debug)]
pub enum UsbJoin<T> {
    /// There is no worker to wait for.
    Missing,
    Ended(T),
    Failed(String),
    Elapsed,
}

/// How a worker ended.
#[derive(Clone, Debug, PartialEq, Eq)]
pub enum UsbJoinOutcome<T> {
    Joined(T),
    JoinFailed(String),
    NonQuiesced,
}

impl<T> UsbJoinOutcome<T> {
    /// The worker is known to have ended.
    pub open spec fn has_quiesced(self) -> bool {
        !(self is NonQuiesced)
    }

    /// Tells whether the worker is known to have ended.
    pub fn quiesced(&self) -> (quiesced: bool)
        ensures
            quiesced == self.has_quiesced(),
    {
        !matches!(self, UsbJoinOutcome::NonQuiesced)
    }
}

/// `outcome` is how a worker ended, given what waiting for it brought.
pub open spec fn joins_as<T>(join: UsbJoin<T>, outcome: UsbJoinOutcome<T>) -> bool {
    match join {
        UsbJoin::Missing => outcome is JoinFailed && outcome->JoinFailed_0@
            == "worker handle missing"@,
        UsbJoin::Ended(exit) => outcome == UsbJoinOutcome::Joined(exit),
        UsbJoin::Failed(error) => outcome == UsbJoinOutcome::<T>::JoinFailed(error),
        UsbJoin::Elapsed => outcome is NonQuiesced,
    }
}

/// How a worker ended, given what waiting for it brought.
pub fn join_outcome<T>(join: UsbJoin<T>) -> (outcome: UsbJoinOutcome<T>)
    ensures
        joins_as(join, outcome),
{
    match join {
        UsbJoin::Missing => UsbJoinOutcome::JoinFailed("worker handle missing".to_owned()),
        UsbJoin::Ended(exit) => UsbJoinOutcome::Joined(exit),
        UsbJoin::Failed(error) => UsbJoinOutcome::JoinFailed(error),
        UsbJoin::Elapsed => UsbJoinOutcome::NonQuiesced,
    }
}

/// What became of the device.
#[derive(Clone, Copy, Debug, PartialEq, Eq, Structural)]
pub enum UsbCleanupDisposition {
    Released,
    Quarantined,
}

/// What releasing and closing a connection brought. One that was not closed is handed
/// back.
#[derive(Debug)]
pub enum UsbConnectionCleanup<O> {
    Closed { release_interface: Result<(), String> },
    Unclosed { owner: O, release_interface: Result<(), String>, close_connection: String },
}

/// Everything that happened at the end of a session.
#[derive(Debug)]
pub struct UsbShutdownReport {
    pub detach: Option<Result<(), UsbWriteFailure>>,
    pub writer: UsbJoinOutcome<UsbWriterExit>,
    pub reader: UsbJoinOutcome<UsbReaderExit>,
    pub release_interface: Option<Result<(), String>>,
    pub close_connection: Option<Result<(), String>>,
    pub disposition: UsbCleanupDisposition,
}

/// A failed part of the end of a session, in words.
pub open spec fn optional_failure(failed: Option<Seq<char>>) -> Seq<Seq<char>> {
    match failed {
        Some(words) => seq![words],
        None => Seq::empty(),
    }
}

/// How a worker's end failed, in words.
pub open spec fn writer_failure(writer: UsbJoinOutcome<UsbWriterExit>) -> Option<Seq<char>> {
    match writer {
        UsbJoinOutcome::Joined(UsbWriterExit::Failed(error)) => Some("writer: "@ + error@),
        UsbJoinOutcome::Joined(_) => None,
        UsbJoinOutcome::JoinFailed(error) => Some("writer join: "@ + error@),
        UsbJoinOutcome::NonQuiesced => Some("writer did not quiesce"@),
    }
}

/// How a worker's end failed, in words.
pub open spec fn reader_failure(reader: UsbJoinOutcome<UsbReaderExit>) -> Option<Seq<char>> {
    match reader {
        UsbJoinOutcome::Joined(UsbReaderExit::Failed(error)) => Some("reader: "@ + error@),
        UsbJoinOutcome::Joined(_) => None,
        UsbJoinOutcome::JoinFailed(error) => Some("reader join: "@ + error@),
        UsbJoinOutcome::NonQuiesced => Some("reader did not quiesce"@),
    }
}

/// How a step of the cleanup failed, in words.
pub open spec fn step_failure(prefix: Seq<char>, step: Option<Result<(), String>>) -> Option<
    Seq<char>,
> {
    match step {
        Some(Err(error)) => Some(prefix + error@),
        _ => None,
    }
}

impl UsbShutdownReport {
    /// Every failure, in words, in the order of the steps.
    pub open spec fn failures(self) -> Seq<Seq<char>> {
        let detach = match self.detach {
            Some(Err(failure)) => Some(failure.words()),
            _ => None,
        };
        let quarantine = if self.disposition is Quarantined {
            Some("USB ownership quarantined because closure was unproven"@)
        } else {
            None
        };
        optional_failure(detach) + optional_failure(writer_failure(self.writer))
            + optional_failure(reader_failure(self.reader)) + optional_failure(
            step_failure("releaseInterface: "@, self.release_interface),
        ) + optional_failure(step_failure("close: "@, self.close_connection))
            + optional_failure(quarantine)
    }

    /// Tells whether the device is kept in quarantine.
    pub fn is_quarantined(&self) -> (quarantined: bool)
        ensures
            quarantined == (self.disposition is Quarantined),
    {
        matches!(self.disposition, UsbCleanupDisposition::Quarantined)
    }

    /// The report as one result, which holds every failure.
    pub fn as_result(&self) -> (result: Result<(), String>)
        ensures
            result is Ok <==> self.failures().len() == 0,
            result is Err ==> result->Err_0@ == joined(self.failures(), "; "@),
    {
        let mut failures: Vec<String> = Vec::new();
        let detach = match &self.detach {
            Some(result) => match result {
                Err(failure) => Some(failure.message()),
                Ok(_) => None,
            },
            None => None,
        };
        push_failure(&mut failures, detach);
        let writer = match &self.writer {
            UsbJoinOutcome::Joined(exit) => match exit {
                UsbWriterExit::Failed(error) => Some(join2("writer: ", error.as_str())),
                _ => None,
            },
            UsbJoinOutcome::JoinFailed(error) => Some(join2("writer join: ", error.as_str())),
            UsbJoinOutcome::NonQuiesced => Some("writer did not quiesce".to_owned()),
        };
        push_failure(&mut failures, writer);
        let reader = match &self.reader {
            UsbJoinOutcome::Joined(exit) => match exit {
                UsbReaderExit::Failed(error) => Some(join2("reader: ", error.as_str())),
                _ => None,
            },
            UsbJoinOutcome::JoinFailed(error) => Some(join2("reader join: ", error.as_str())),
            UsbJoinOutcome::NonQuiesced => Some("reader did not quiesce".to_owned()),
        };
        push_failure(&mut failures, reader);
        push_failure(&mut failures, failed_step("releaseInterface: ", &self.release_interface));
        push_failure(&mut failures, failed_step("close: ", &self.close_connection));
        let quarantine = if self.is_quarantined() {
            Some("USB ownership quarantined because closure was unproven".to_owned())
        } else {
            None
        };
        push_failure(&mut failures, quarantine);
        assert(texts(failures@) =~= self.failures());
        if failures.len() == 0 {
            Ok(())
        } else {
            Err(join_all(&failures, "; "))
        }
    }
}

fn push_failure(failures: &mut Vec<String>, failed: Option<String>)
    ensures
        texts(final(failures)@) == texts(old(failures)@) + optional_failure(
            match failed {
                Some(words) => Some(words@),
                None => None,
            },
        ),
{
    match failed {
        Some(words) => {
            failures.push(words);
            assert(texts(failures@) =~= texts(old(failures)@) + seq![words@]);
        },
        None => {
            assert(texts(failures@) =~= texts(old(failures)@) + Seq::<Seq<char>>::empty());
        },
    }
}

fn failed_step(prefix: &str, step: &Option<Result<(), String>>) -> (failed: Option<String>)
    ensures
        match step_failure(prefix@, *step) {
            Some(words) => failed is Some && failed->0@ == words,
            None => failed is None,
        },
{
    match step {
        Some(result) => match result {
            Err(error) => Some(join2(prefix, error.as_str())),
            Ok(_) => None,
        },
        None => None,
    }
}

/// What a session does once both workers were waited for.
#[derive(Debug)]
pub enum UsbShutdownStep<O> {
    /// Put the device in quarantine, if it is still owned, and report.
    Quarantine { retained: Option<O>, report: UsbShutdownReport },
    /// Release the interface and close the connection.
    Release { owner: O, joined: UsbJoinedSession },
    Report(UsbShutdownReport),
}

/// A session whose workers have ended.
#[derive(Debug)]
pub struct UsbJoinedSession {
    pub detach: Option<Result<(), UsbWriteFailure>>,
    pub writer: UsbJoinOutcome<UsbWriterExit>,
    pub reader: UsbJoinOutcome<UsbReaderExit>,
}

/// A report of a session whose workers have ended.
pub open spec fn joined_report(
    session: UsbJoinedSession,
    release_interface: Option<Result<(), String>>,
    close_connection: Option<Result<(), String>>,
    disposition: UsbCleanupDisposition,
) -> UsbShutdownReport {
    UsbShutdownReport {
        detach: session.detach,
        writer: session.writer,
        reader: session.reader,
        release_interface,
        close_connection,
        disposition,
    }
}

/// `step` is what a session does once both workers were waited for.
pub open spec fn follows_join<O>(
    session: UsbJoinedSession,
    owner: Option<O>,
    step: UsbShutdownStep<O>,
) -> bool {
    if !session.writer.has_quiesced() || !session.reader.has_quiesced() {
        step == (UsbShutdownStep::Quarantine {
            retained: owner,
            report: joined_report(session, None, None, UsbCleanupDisposition::Quarantined),
        })
    } else {
        match owner {
            Some(owner) => step == (UsbShutdownStep::Release { owner, joined: session }),
            None => {
                &&& step is Report
                &&& step->Report_0.release_interface is Some
                &&& step->Report_0.close_connection is Some
                &&& step->Report_0 == joined_report(
                    session,
                    step->Report_0.release_interface,
                    step->Report_0.close_connection,
                    UsbCleanupDisposition::Released,
                )
                &&& step->Report_0.release_interface->0 is Err
                &&& step->Report_0.release_interface->0->Err_0@
                    == "USB owner missing during cleanup"@
                &&& step->Report_0.close_connection->0 is Err
                &&& step->Report_0.close_connection->0->Err_0@
                    == "USB owner missing during cleanup"@
            },
        }
    }
}

/// What a session does once the connection was released.
pub open spec fn step_after_release<O>(
    session: UsbJoinedSession,
    cleanup: UsbConnectionCleanup<O>,
) -> UsbShutdownStep<O> {
    match cleanup {
        UsbConnectionCleanup::Closed { release_interface } => UsbShutdownStep::<O>::Report(
            joined_report(
                session,
                Some(release_interface),
                Some(Ok(())),
                UsbCleanupDisposition::Released,
            ),
        ),
        UsbConnectionCleanup::Unclosed { owner, release_interface, close_connection } =>
            UsbShutdownStep::Quarantine {
            retained: Some(owner),
            report: joined_report(
                session,
                Some(release_interface),
                Some(Err(close_connection)),
                UsbCleanupDisposition::Quarantined,
            ),
        },
    }
}

/// Decides what to do with the device once both workers were waited for: it is touched
/// only if both are known to have ended.
pub fn after_join<O>(session: UsbJoinedSession, owner: Option<O>) -> (step: UsbShutdownStep<O>)
    ensures
        follows_join(session, owner, step),
{
    if !session.writer.quiesced() || !session.reader.quiesced() {
        return UsbShutdownStep::Quarantine {
            retained: owner,
            report: UsbShutdownReport {
                detach: session.detach,
                writer: session.writer,
                reader: session.reader,
                release_interface: None,
                close_connection: None,
                disposition: UsbCleanupDisposition::Quarantined,
            },
        };
    }
    match owner {
        Some(owner) => UsbShutdownStep::Release { owner, joined: session },
        None => UsbShutdownStep::Report(
            UsbShutdownReport {
                detach: session.detach,
                writer: session.writer,
                reader: session.reader,
                release_interface: Some(Err("USB owner missing during cleanup".to_owned())),
                close_connection: Some(Err("USB owner missing during cleanup".to_owned())),
                disposition: UsbCleanupDisposition::Released,
            },
        ),
    }
}

/// Decides what to do once the connection was released: one that was not closed goes
/// into quarantine.
pub fn after_release<O>(session: UsbJoinedSession, cleanup: UsbConnectionCleanup<O>) -> (step:
    UsbShutdownStep<O>)
    ensures
        step == step_after_release(session, cleanup),
{
    match cleanup {
        UsbConnectionCleanup::Closed { release_interface } => UsbShutdownStep::Report(
            UsbShutdownReport {
                detach: session.detach,
                writer: session.writer,
                reader: session.reader,
                release_interface: Some(release_interface),
                close_connection: Some(Ok(())),
                disposition: UsbCleanupDisposition::Released,
            },
        ),
        UsbConnectionCleanup::Unclosed { owner, release_interface, close_connection } =>
            UsbShutdownStep::Quarantine {
            retained: Some(owner),
            report: UsbShutdownReport {
                detach: session.detach,
                writer: session.writer,
                reader: session.reader,
                release_interface: Some(release_interface),
                close_connection: Some(Err(close_connection)),
                disposition: UsbCleanupDisposition::Quarantined,
            },
        },
    }
}

/// A shutdown that reports success has released the device, and neither a worker nor a
/// step of the cleanup has failed.
pub proof fn success_means_released(report: UsbShutdownReport)
    requires
        report.failures().len() == 0,
    ensures
        report.disposition is Released,
        report.writer.has_quiesced(),
        report.reader.has_quiesced(),
        !(report.detach matches Some(Err(_))),
        !(report.release_interface matches Some(Err(_))),
        !(report.close_connection matches Some(Err(_))),
{
}

/// A device in quarantine is always reported as a failure.
pub proof fn quarantine_is_reported(report: UsbShutdownReport)
    requires
        report.disposition is Quarantined,
    ensures
        report.failures().len() > 0,
        report.failures().last() == "USB ownership quarantined because closure was unproven"@,
{
}

/// A worker that was not seen to end in time may still touch the device; one that ended, that
/// could not be joined or that never was does not.
pub proof fn only_an_unfinished_worker_is_unquiet<T>(join: UsbJoin<T>, outcome: UsbJoinOutcome<T>)
    requires
        joins_as(join, outcome),
    ensures
        outcome.has_quiesced() <==> !(join is Elapsed),
        join is Ended ==> outcome == UsbJoinOutcome::Joined(join->Ended_0),
        join is Missing || join is Failed ==> outcome is JoinFailed,
{
}

/// A connection is released only when both workers are known to have ended. Where one may still
/// run, the device is kept in quarantine, owner and all, and nothing is released or closed.
pub proof fn connection_is_released_behind_its_workers<O>(
    session: UsbJoinedSession,
    owner: Option<O>,
    step: UsbShutdownStep<O>,
)
    requires
        follows_join(session, owner, step),
    ensures
        step is Release <==> !(session.writer is NonQuiesced) && !(session.reader is NonQuiesced)
            && owner is Some,
        step is Release ==> Some(step->Release_owner) == owner && step->joined == session,
        step is Quarantine <==> session.writer is NonQuiesced || session.reader is NonQuiesced,
        step is Quarantine ==> {
            &&& step->retained == owner
            &&& step->report.release_interface is None && step->report.close_connection is None
            &&& step->report.disposition is Quarantined
            &&& step->report.detach == session.detach
            &&& step->report.writer == session.writer
            &&& step->report.reader == session.reader
        },
        step is Report ==> owner is None && step->Report_0.failures().len() >= 2
            && step->Report_0.disposition is Released && step->Report_0.detach == session.detach
            && step->Report_0.release_interface->0->Err_0@ == "USB owner missing during cleanup"@
            && step->Report_0.close_connection->0->Err_0@ == "USB owner missing during cleanup"@,
{
}

/// A connection that was closed is reported as released. One that was not closed goes back into
/// quarantine with its owner, and the report says why.
pub proof fn unclosed_connection_is_quarantined<O>(
    session: UsbJoinedSession,
    cleanup: UsbConnectionCleanup<O>,
)
    ensures
        ({
            let step = step_after_release(session, cleanup);
            &&& cleanup is Closed ==> {
                &&& step is Report
                &&& step->Report_0.disposition is Released
                &&& step->Report_0.release_interface == Some(cleanup->Closed_release_interface)
                &&& step->Report_0.close_connection == Some(Ok::<(), String>(()))
                &&& step->Report_0.detach == session.detach
                &&& step->Report_0.writer == session.writer
                &&& step->Report_0.reader == session.reader
            }
            &&& cleanup is Unclosed ==> {
                &&& step is Quarantine
                &&& step->retained == Some(cleanup->owner)
                &&& step->report.disposition is Quarantined
                &&& step->report.close_connection == Some(
                    Err::<(), String>(cleanup->close_connection),
                )
                &&& step->report.release_interface == Some(cleanup->Unclosed_release_interface)
            }
        }),
{
}

/// A report holds one failure for each part that failed: the detach, each worker that failed or
/// is not known to have ended, each step of the cleanup, and the quarantine.
pub proof fn every_failure_is_reported(report: UsbShutdownReport)
    ensures
        report.failures().len() == (if report.detach matches Some(Err(_)) {
            1int
        } else {
            0
        }) + (if report.writer is NonQuiesced || report.writer is JoinFailed || (report.writer
            is Joined && report.writer->Joined_0 is Failed) {
            1int
        } else {
            0
        }) + (if report.reader is NonQuiesced || report.reader is JoinFailed || (report.reader
            is Joined && report.reader->Joined_0 is Failed) {
            1int
        } else {
            0
        }) + (if report.release_interface matches Some(Err(_)) {
            1int
        } else {
            0
        }) + (if report.close_connection matches Some(Err(_)) {
            1int
        } else {
            0
        }) + (if report.disposition is Quarantined {
            1int
        } else {
            0
        }),
{
}

} // verus!
