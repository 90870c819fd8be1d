//! What the USB reader does with each physical read, and the barrier at which it pauses
//! between a device's startup answers and its fresh ones.
use vstd::prelude::*;

verus! {

/// How often a wait at the reader's barrier looks again.
pub const USB_READER_BOUNDARY_POLL_INTERVAL: u128 = 1_000_000;

/// What one physical read brought.
#[derive(Clone, Debug, PartialEq, Eq)]
pub enum UsbReadResult {
    Data(Vec<u8>),
    Idle,
}

/// Why the reader ended.
#[derive(Clone, Debug, PartialEq, Eq)]
pub enum UsbReaderExit {
    Stopped,
    ConsumerClosed,
    Failed(String),
}

/// What the reader does after a read.
#[derive(Debug)]
pub enum UsbReaderAction {
    /// Hand the bytes on, in order, and read again.
    Forward(Vec<u8>),
    /// Read again.
    Continue,
    /// Pause if the barrier asks for it, and read again.
    Idle,
    /// Go offline and end.
    OfflineExit(UsbReaderExit),
}

/// What the reader does after a read.
pub open spec fn after_read(read: Result<UsbReadResult, String>) -> UsbReaderAction {
    match read {
        Ok(UsbReadResult::Data(bytes)) => if bytes@.len() > 0 {
            UsbReaderAction::Forward(bytes)
        } else {
            UsbReaderAction::Continue
        },
        Ok(UsbReadResult::Idle) => UsbReaderAction::Idle,
        Err(error) => UsbReaderAction::OfflineExit(UsbReaderExit::Failed(error)),
    }
}

/// Decides what to do after a read. A read that has brought bytes hands them on even if
/// the reader was stopped meanwhile.
pub fn reader_action(read: Result<UsbReadResult, String>) -> (action: UsbReaderAction)
    ensures
        action == after_read(read),
{
    match read {
        Ok(UsbReadResult::Data(bytes)) => if bytes.len() > 0 {
            UsbReaderAction::Forward(bytes)
        } else {
            UsbReaderAction::Continue
        },
        Ok(UsbReadResult::Idle) => UsbReaderAction::Idle,
        Err(error) => UsbReaderAction::OfflineExit(UsbReaderExit::Failed(error)),
    }
}

/// Why the reader ends when nobody takes its bytes.
pub open spec fn exit_without_consumer(running: bool) -> UsbReaderExit {
    if running {
        UsbReaderExit::ConsumerClosed
    } else {
        UsbReaderExit::Stopped
    }
}

/// Why the reader ends when nobody takes its bytes: it was stopped, or else its
/// consumer is gone.
pub fn unforwarded_exit(running: bool) -> (exit: UsbReaderExit)
    ensures
        exit == exit_without_consumer(running),
{
    if running {
        UsbReaderExit::ConsumerClosed
    } else {
        UsbReaderExit::Stopped
    }
}

/// The reader is paused after an idle read.
pub open spec fn paused_by_idle(requested: bool, paused: bool) -> bool {
    requested || paused
}

/// A paused reader stays paused.
pub open spec fn pause_lasts(requested: bool, running: bool) -> bool {
    requested && running
}

/// The reader's barrier. A pause is acknowledged only after an idle read, when every
/// earlier read has been handed on.
#[derive(Clone, Copy, Debug, PartialEq, Eq, Structural)]
pub struct UsbReaderBoundary {
    pause_requested: bool,
    paused_after_idle: bool,
}

impl UsbReaderBoundary {
    /// A pause was asked for.
    pub closed spec fn requested(self) -> bool {
        self.pause_requested
    }

    /// The reader has paused.
    pub closed spec fn paused(self) -> bool {
        self.paused_after_idle
    }

    /// A barrier that lets the reader run.
    pub fn new() -> (boundary: Self)
        ensures
            !boundary.requested(),
            !boundary.paused(),
    {
        UsbReaderBoundary { pause_requested: false, paused_after_idle: false }
    }

    /// Asks the reader to pause at its next idle read.
    pub fn request_pause(&mut self)
        ensures
            final(self).requested(),
            !final(self).paused(),
    {
        self.paused_after_idle = false;
        self.pause_requested = true;
    }

    /// Tells whether the reader has paused.
    pub fn is_paused_after_idle(&self) -> (paused: bool)
        ensures
            paused == self.paused(),
    {
        self.paused_after_idle
    }

    /// Lets the reader run again.
    pub fn resume(&mut self)
        ensures
            !final(self).requested(),
            final(self).paused() == old(self).paused(),
    {
        self.pause_requested = false;
    }

    /// An idle read: pauses the reader, if that was asked for.
    pub fn pause_after_idle_if_requested(&mut self) -> (paused: bool)
        ensures
            paused == old(self).requested(),
            final(self).requested() == old(self).requested(),
            final(self).paused() == paused_by_idle(old(self).requested(), old(self).paused()),
    {
        if !self.pause_requested {
            return false;
        }
        self.paused_after_idle = true;
        true
    }

    /// Tells a paused reader whether to stay paused; once it does not, the pause is
    /// over.
    pub fn stays_paused(&mut self, running: bool) -> (stays: bool)
        ensures
            stays == pause_lasts(old(self).requested(), running),
            final(self).requested() == old(self).requested(),
            final(self).paused() == (old(self).paused() && stays),
    {
        if self.pause_requested && running {
            return true;
        }
        self.paused_after_idle = false;
        false
    }
}

/// Bytes that were read are handed on as they are, an empty read is read over, and an idle one
/// lets the reader pause; only a read that fails ends it, in its own words.
pub proof fn bytes_that_were_read_are_handed_on(read: Result<UsbReadResult, String>)
    ensures
        after_read(read) is OfflineExit <==> read is Err,
        read is Err ==> after_read(read) == UsbReaderAction::OfflineExit(
            UsbReaderExit::Failed(read->Err_0),
        ),
        read is Ok && read->Ok_0 is Idle ==> after_read(read) is Idle,
        read is Ok && read->Ok_0 is Data && read->Ok_0->Data_0@.len() > 0 ==> after_read(read)
            == UsbReaderAction::Forward(read->Ok_0->Data_0),
        read is Ok && read->Ok_0 is Data && read->Ok_0->Data_0@.len() == 0 ==> after_read(read)
            is Continue,
        exit_without_consumer(true) is ConsumerClosed,
        exit_without_consumer(false) is Stopped,
{
}

/// A reader pauses at an idle read exactly if it was asked to, and runs on when the request is
/// taken back or the reader is stopped.
pub proof fn pause_follows_the_request(requested: bool, running: bool)
    ensures
        paused_by_idle(requested, false) == requested,
        paused_by_idle(requested, true),
        pause_lasts(requested, running) <==> requested && running,
{
}

} // verus!
