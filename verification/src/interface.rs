//! What every interface tells the transport about itself.
use vstd::prelude::*;

verus! {

/// Identifies one interface within a process.
pub type InterfaceId = u64;

/// How the transport treats the peers behind an interface.
#[derive(Clone, Copy, Debug, PartialEq, Eq, Structural)]
pub enum InterfaceMode {
    Full,
    PointToPoint,
    AccessPoint,
    Roaming,
    Boundary,
    Gateway,
}

/// Which way packets may pass.
#[derive(Clone, Copy, Debug, PartialEq, Eq, Structural)]
pub struct InterfaceDirection {
    pub inbound: bool,
    pub outbound: bool,
    pub forward: bool,
    pub repeat: bool,
}

/// Why an interface could not do what it was asked to.
#[derive(Clone, Debug, PartialEq, Eq)]
pub enum InterfaceError {
    SendFailed(String),
}

impl InterfaceError {
    /// The text that the error carries.
    pub open spec fn detail(self) -> Seq<char> {
        match self {
            InterfaceError::SendFailed(message) => message@,
        }
    }

    /// The text that the error carries.
    pub fn message(&self) -> (message: &str)
        ensures
            message@ == self.detail(),
    {
        match self {
            InterfaceError::SendFailed(message) => message.as_str(),
        }
    }
}

/// The fixed description of a spawned interface.
#[derive(Clone, Debug, PartialEq, Eq)]
pub struct InterfaceProfile {
    pub id: InterfaceId,
    pub parent_id: Option<InterfaceId>,
    pub name: String,
    pub mode: InterfaceMode,
    pub direction: InterfaceDirection,
    pub bitrate: u64,
    pub mtu: u32,
}

/// Nanoseconds in a millisecond.
pub const MILLISECOND: u128 = 1_000_000;

/// Nanoseconds in a second.
pub const SECOND: u128 = 1_000_000_000;

/// The instant that lies `wait` nanoseconds behind `now`; the end of time bounds it.
pub open spec fn instant_after(now: u128, wait: u128) -> u128 {
    if now + wait > u128::MAX {
        u128::MAX
    } else {
        (now + wait) as u128
    }
}

/// The instant that lies `wait` nanoseconds behind `now`.
pub fn deadline_after(now: u128, wait: u128) -> (deadline: u128)
    ensures
        deadline == instant_after(now, wait),
{
    now.saturating_add(wait)
}

/// The nanoseconds from `now` until `later`, none where it has passed.
pub open spec fn time_until(now: u128, later: u128) -> u128 {
    if later > now {
        (later - now) as u128
    } else {
        0
    }
}

/// The smaller of two durations or instants.
pub open spec fn earlier(left: u128, right: u128) -> u128 {
    if left <= right {
        left
    } else {
        right
    }
}

/// The smaller of two durations or instants.
pub fn min_time(left: u128, right: u128) -> (least: u128)
    ensures
        least == earlier(left, right),
{
    if left <= right {
        left
    } else {
        right
    }
}

/// A wait that is counted from `now` and looked at again takes as long as was asked for,
/// unless the end of time cuts it short; what has passed takes no time.
pub proof fn waits_add_up(now: u128, wait: u128, later: u128)
    ensures
        now + wait <= u128::MAX ==> instant_after(now, wait) - now == wait && time_until(
            now,
            instant_after(now, wait),
        ) == wait,
        now + wait > u128::MAX ==> instant_after(now, wait) == u128::MAX,
        later >= now ==> now + time_until(now, later) == later,
        later <= now ==> time_until(now, later) == 0,
{
}

/// Of two times the earlier one comes no later than either, and is one of them.
pub proof fn earlier_comes_first(left: u128, right: u128)
    ensures
        earlier(left, right) <= left,
        earlier(left, right) <= right,
        earlier(left, right) == left || earlier(left, right) == right,
{
}

/// A second has a thousand milliseconds, and a millisecond a million nanoseconds.
pub proof fn units_of_time()
    ensures
        SECOND == 1000 * MILLISECOND,
        MILLISECOND == 1_000_000,
{
}

} // verus!
