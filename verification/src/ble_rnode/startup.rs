//! What is made of the bytes that a native bridge sends before its connection
//! generation is admitted: handshake evidence, packets that came too early, and
//! the bridge's own acknowledgements.
use vstd::prelude::*;
use crate::kiss::{assemble_all, frames_in, frames_view, Frame, RawKissDeframer, CMD_DATA};
use crate::rnode::{CMD_DETECT, CMD_FW_VERSION, DETECT_RESP};
use crate::rnode_protocol::{RNodeProtocolState, RNodeReadiness};

verus! {

/// The bridge acknowledges a written packet under this command. It never reaches
/// the RNode protocol or the transport.
pub const RNODE_NATIVE_BRIDGE_ACK_COMMAND: u8 = 0xA0;

/// An acknowledgement is its mark of five bytes and a counter of eight.
pub const RNODE_NATIVE_BRIDGE_ACK_PAYLOAD_LEN: usize = 13;

/// The largest packet that the radio takes.
pub const RNODE_NATIVE_MAX_PACKET: usize = 508;

/// The largest frame that such a packet makes.
pub const RNODE_NATIVE_MAX_ESCAPED_FRAME: usize = RNODE_NATIVE_MAX_PACKET * 2 + 3;

/// The smallest piece in which the bridge may write a frame.
pub const RNODE_NATIVE_ACK_MIN_WRITE_CHUNK: usize = 20;

/// The pieces that the largest frame makes at worst.
pub const RNODE_NATIVE_ACK_WORST_CASE_CHUNKS: u64 = 51;

/// A piece may take this long to be accepted.
pub const RNODE_NATIVE_ACK_ENQUEUE_RETRY_MS: u64 = 1_200;

/// A piece may take this long to be confirmed.
pub const RNODE_NATIVE_ACK_CALLBACK_MS: u64 = 5_000;

/// The pause between two pieces.
pub const RNODE_NATIVE_ACK_PACING_MS: u64 = 12;

pub const RNODE_NATIVE_ACK_MARGIN_MS: u64 = 2_000;

/// How long a written packet may go unacknowledged.
pub const RNODE_NATIVE_BRIDGE_ACK_TIMEOUT_MS: u64 = 318_800;

/// The same, in nanoseconds.
pub const RNODE_NATIVE_BRIDGE_ACK_TIMEOUT: u128 = 318_800_000_000;

/// Frames behind the one that makes the generation ready cost at most this much.
pub const RNODE_NATIVE_STARTUP_ACTIVE_CARRY_MAX: usize = 4096;

/// Packets that come too early are held up to this many bytes.
pub const RNODE_NATIVE_STARTUP_PRE_READY_DATA_MAX_BYTES: usize = 65_536;

/// Packets that come too early are held up to this number.
pub const RNODE_NATIVE_STARTUP_PRE_READY_DATA_MAX_RECORDS: usize = 256;

/// The pieces of the longest frame, and the time that they may take in all, are
/// what the timeout is made of: it exceeds the bridge's own bound by the margin.
pub proof fn ack_timeout_covers_the_slowest_write()
    ensures
        RNODE_NATIVE_ACK_WORST_CASE_CHUNKS == crate::ble_rnode::connect::chunk_count(
            RNODE_NATIVE_MAX_ESCAPED_FRAME as nat,
            RNODE_NATIVE_ACK_MIN_WRITE_CHUNK as nat,
        ),
        RNODE_NATIVE_BRIDGE_ACK_TIMEOUT_MS == RNODE_NATIVE_ACK_WORST_CASE_CHUNKS * (
        RNODE_NATIVE_ACK_ENQUEUE_RETRY_MS + RNODE_NATIVE_ACK_CALLBACK_MS) + (
        RNODE_NATIVE_ACK_WORST_CASE_CHUNKS - 1) * RNODE_NATIVE_ACK_PACING_MS
            + RNODE_NATIVE_ACK_MARGIN_MS,
        RNODE_NATIVE_BRIDGE_ACK_TIMEOUT == RNODE_NATIVE_BRIDGE_ACK_TIMEOUT_MS * 1_000_000,
{
    assert((1019 + 20 - 1) as nat / 20 as nat == 51) by (nonlinear_arith);
}

/// The mark of an acknowledgement: `RSBA`, version one.
pub open spec fn ack_magic() -> Seq<u8> {
    seq![0x52u8, 0x53u8, 0x42u8, 0x41u8, 0x01u8]
}

/// Eight bytes in network order, read as a number.
pub open spec fn be_counter(bytes: Seq<u8>) -> int {
    bytes[0] * 0x100_0000_0000_0000 + bytes[1] * 0x1_0000_0000_0000 + bytes[2] * 0x100_0000_0000
        + bytes[3] * 0x1_0000_0000 + bytes[4] * 0x100_0000 + bytes[5] * 0x1_0000 + bytes[6] * 0x100
        + bytes[7]
}

/// The counter that an acknowledgement carries: how many packets of this
/// connection the bridge has written.
pub open spec fn acknowledged_count(command: u8, payload: Seq<u8>) -> Option<u64> {
    if command == RNODE_NATIVE_BRIDGE_ACK_COMMAND && payload.len()
        == RNODE_NATIVE_BRIDGE_ACK_PAYLOAD_LEN && payload.subrange(0, 5) == ack_magic() {
        Some(be_counter(payload.subrange(5, 13)) as u64)
    } else {
        None
    }
}

/// Reads an acknowledgement; anything that is not exactly one is none.
pub fn native_bridge_acknowledged_data_frames(command: u8, payload: &[u8]) -> (count: Option<u64>)
    ensures
        count == acknowledged_count(command, payload@),
{
    if command != RNODE_NATIVE_BRIDGE_ACK_COMMAND || payload.len()
        != RNODE_NATIVE_BRIDGE_ACK_PAYLOAD_LEN {
        return None;
    }
    let marked = payload[0] == 0x52 && payload[1] == 0x53 && payload[2] == 0x42 && payload[3]
        == 0x41 && payload[4] == 0x01;
    proof {
        let mark = payload@.subrange(0, 5);
        if marked {
            assert(mark =~= ack_magic());
        } else {
            assert(mark[0] == payload@[0] && mark[1] == payload@[1] && mark[2] == payload@[2]
                && mark[3] == payload@[3] && mark[4] == payload@[4]);
            assert(ack_magic()[0] == 0x52 && ack_magic()[1] == 0x53 && ack_magic()[2] == 0x42
                && ack_magic()[3] == 0x41 && ack_magic()[4] == 0x01);
        }
    }
    if !marked {
        return None;
    }
    let count: u64 = payload[5] as u64 * 0x100_0000_0000_0000 + payload[6] as u64
        * 0x1_0000_0000_0000 + payload[7] as u64 * 0x100_0000_0000 + payload[8] as u64
        * 0x1_0000_0000 + payload[9] as u64 * 0x100_0000 + payload[10] as u64 * 0x1_0000
        + payload[11] as u64 * 0x100 + payload[12] as u64;
    Some(count)
}

/// A packet from the radio is never taken for an acknowledgement, whatever it holds.
pub proof fn data_is_no_acknowledgement(payload: Seq<u8>)
    ensures
        acknowledged_count(CMD_DATA, payload) is None,
{
}

/// The frame shows that an RNode answers: it confirms detection, or it reports
/// some firmware.
pub open spec fn is_handshake_frame(frame: Frame) -> bool {
    ||| frame.0 == CMD_DETECT && frame.1.len() > 0 && frame.1[0] == DETECT_RESP
    ||| frame.0 == CMD_FW_VERSION && frame.1.len() > 0
}

/// Tells whether a frame shows that an RNode answers.
pub fn is_rnode_handshake_frame(command: u8, frame: &[u8]) -> (shown: bool)
    ensures
        shown == is_handshake_frame((command, frame@)),
{
    (command == CMD_DETECT && frame.len() > 0 && frame[0] == DETECT_RESP) || (command
        == CMD_FW_VERSION && frame.len() > 0)
}

/// A sum that stops at the largest machine number.
pub open spec fn bounded_sum(left: int, right: int) -> int {
    if left + right > usize::MAX {
        usize::MAX as int
    } else {
        left + right
    }
}

/// There is room to hold one more packet of `len` bytes.
pub open spec fn may_hold(records: nat, bytes: int, len: nat) -> bool {
    records < RNODE_NATIVE_STARTUP_PRE_READY_DATA_MAX_RECORDS && bytes + len
        <= RNODE_NATIVE_STARTUP_PRE_READY_DATA_MAX_BYTES
}

/// The bytes behind a vector of executable packets.
pub open spec fn packets_view(packets: Seq<Vec<u8>>) -> Seq<Seq<u8>> {
    packets.map_values(|packet: Vec<u8>| packet@)
}

/// Holds a packet that came before the generation was ready, if there is room.
pub fn hold_native_pre_ready_data(
    frame: Vec<u8>,
    pre_ready_data: &mut Vec<Vec<u8>>,
    pre_ready_data_bytes: &mut usize,
) -> (held: bool)
    ensures
        held == may_hold(
            old(pre_ready_data)@.len(),
            *old(pre_ready_data_bytes) as int,
            frame@.len(),
        ),
        held ==> packets_view(final(pre_ready_data)@) == packets_view(old(pre_ready_data)@).push(
            frame@,
        ) && *final(pre_ready_data_bytes) == *old(pre_ready_data_bytes) + frame@.len(),
        !held ==> *final(pre_ready_data) == *old(pre_ready_data) && *final(pre_ready_data_bytes)
            == *old(pre_ready_data_bytes),
{
    let next_bytes: usize = pre_ready_data_bytes.saturating_add(frame.len());
    if pre_ready_data.len() >= RNODE_NATIVE_STARTUP_PRE_READY_DATA_MAX_RECORDS || next_bytes
        > RNODE_NATIVE_STARTUP_PRE_READY_DATA_MAX_BYTES {
        return false;
    }
    let ghost packet = frame@;
    pre_ready_data.push(frame);
    *pre_ready_data_bytes = next_bytes;
    assert(packets_view(pre_ready_data@) =~= packets_view(old(pre_ready_data)@).push(packet));
    true
}

/// What a generation has gathered before it is admitted.
pub ghost struct Handshake {
    pub protocol: RNodeProtocolState,
    /// Packets that came too early.
    pub held: Seq<Seq<u8>>,
    pub held_bytes: int,
}

/// What one handshake frame adds; nothing more once a packet found no room.
pub open spec fn handshake_step(so_far: (Handshake, bool), frame: Frame) -> (Handshake, bool) {
    let (gathered, fits) = so_far;
    if !fits {
        so_far
    } else if frame.0 == CMD_DATA {
        if may_hold(gathered.held.len(), gathered.held_bytes, frame.1.len()) {
            (
                Handshake {
                    held: gathered.held.push(frame.1),
                    held_bytes: gathered.held_bytes + frame.1.len(),
                    ..gathered
                },
                true,
            )
        } else {
            (gathered, false)
        }
    } else {
        (Handshake { protocol: gathered.protocol.after(frame.0, frame.1), ..gathered }, true)
    }
}

/// What a batch of handshake frames adds.
pub open spec fn handshake_batch(gathered: Handshake, frames: Seq<Frame>) -> (Handshake, bool)
    decreases frames.len(),
{
    if frames.len() == 0 {
        (gathered, true)
    } else {
        handshake_step(handshake_batch(gathered, frames.drop_last()), frames.last())
    }
}

/// Some frame of a batch shows that an RNode answers.
pub open spec fn batch_is_accepted(frames: Seq<Frame>) -> bool {
    exists|i: int| 0 <= i < frames.len() && is_handshake_frame(#[trigger] frames[i])
}

/// The protocol state after a batch of frames.
pub open spec fn protocol_after_batch(
    protocol: RNodeProtocolState,
    frames: Seq<Frame>,
) -> RNodeProtocolState
    decreases frames.len(),
{
    if frames.len() == 0 {
        protocol
    } else {
        protocol_after_batch(protocol, frames.drop_last()).after(frames.last().0, frames.last().1)
    }
}

proof fn lemma_first_of_rest(rest: Seq<(u8, Vec<u8>)>, all: Seq<Frame>, done: int)
    requires
        0 <= done <= all.len(),
        rest.len() > 0,
        frames_view(rest) == all.subrange(done, all.len() as int),
    ensures
        done < all.len(),
        all[done] == (rest[0].0, rest[0].1@),
        frames_view(rest.remove(0)) == all.subrange(done + 1, all.len() as int),
{
    let tail = rest.remove(0);
    assert(frames_view(rest).len() == rest.len());
    assert(frames_view(rest)[0] == all[done]);
    assert forall|i: int| 0 <= i < tail.len() implies frames_view(tail)[i] == all[done + 1 + i] by {
        assert(tail[i] == rest[i + 1]);
        assert(frames_view(rest)[i + 1] == all.subrange(done, all.len() as int)[i + 1]);
    }
    assert(frames_view(tail) =~= all.subrange(done + 1, all.len() as int));
}

fn any_handshake_frame(frames: &Vec<(u8, Vec<u8>)>) -> (accepted: bool)
    ensures
        accepted == batch_is_accepted(frames_view(frames@)),
{
    let mut index: usize = 0;
    while index < frames.len()
        invariant
            index <= frames@.len(),
            forall|i: int| 0 <= i < index ==> !is_handshake_frame(#[trigger] frames_view(frames@)[i]),
        decreases frames@.len() - index,
    {
        assert(frames_view(frames@)[index as int] == (
            frames@[index as int].0,
            frames@[index as int].1@,
        ));
        if is_rnode_handshake_frame(frames[index].0, frames[index].1.as_slice()) {
            return true;
        }
        index = index + 1;
    }
    false
}

/// Takes one read of a handshake into account as a whole: detection and firmware
/// commonly arrive together, and no evidence behind the first answer is lost.
pub fn reduce_native_handshake_bytes(
    protocol_state: &mut RNodeProtocolState,
    deframer: &mut RawKissDeframer,
    bytes: &[u8],
) -> (accepted: bool)
    ensures
        final(deframer)@ == assemble_all(old(deframer)@, bytes@),
        accepted == batch_is_accepted(frames_in(old(deframer)@, bytes@)),
        *final(protocol_state) == protocol_after_batch(
            *old(protocol_state),
            frames_in(old(deframer)@, bytes@),
        ),
{
    let frames = deframer.feed(bytes);
    let accepted = any_handshake_frame(&frames);
    let ghost all = frames_view(frames@);
    let mut index: usize = 0;
    assert(all.subrange(0, 0) =~= Seq::<Frame>::empty());
    while index < frames.len()
        invariant
            index <= frames@.len(),
            all == frames_view(frames@),
            *protocol_state == protocol_after_batch(
                *old(protocol_state),
                all.subrange(0, index as int),
            ),
        decreases frames@.len() - index,
    {
        assert(all.subrange(0, index + 1).drop_last() =~= all.subrange(0, index as int));
        protocol_state.apply_frame(frames[index].0, frames[index].1.as_slice());
        index = index + 1;
    }
    assert(all.subrange(0, index as int) =~= all);
    accepted
}

/// Takes one read of a handshake into account and holds the packets in it. Fails
/// when a packet finds no room; what came before it has been taken into account.
pub fn reduce_native_handshake_bytes_preserving_data(
    protocol_state: &mut RNodeProtocolState,
    deframer: &mut RawKissDeframer,
    bytes: &[u8],
    pre_ready_data: &mut Vec<Vec<u8>>,
    pre_ready_data_bytes: &mut usize,
) -> (reduced: Result<bool, ()>)
    ensures
        final(deframer)@ == assemble_all(old(deframer)@, bytes@),
        ({
            let frames = frames_in(old(deframer)@, bytes@);
            let start = Handshake {
                protocol: *old(protocol_state),
                held: packets_view(old(pre_ready_data)@),
                held_bytes: *old(pre_ready_data_bytes) as int,
            };
            let end = Handshake {
                protocol: *final(protocol_state),
                held: packets_view(final(pre_ready_data)@),
                held_bytes: *final(pre_ready_data_bytes) as int,
            };
            &&& handshake_batch(start, frames) == (end, reduced is Ok)
            &&& reduced is Ok ==> reduced->Ok_0 == batch_is_accepted(frames)
        }),
{
    let mut frames = deframer.feed(bytes);
    let accepted = any_handshake_frame(&frames);
    let ghost all = frames_view(frames@);
    let ghost start = Handshake {
        protocol: *old(protocol_state),
        held: packets_view(old(pre_ready_data)@),
        held_bytes: *old(pre_ready_data_bytes) as int,
    };
    let ghost mut done: int = 0;
    assert(all.subrange(0, 0) =~= Seq::<Frame>::empty());
    assert(all.subrange(0, all.len() as int) =~= all);
    while frames.len() > 0
        invariant
            0 <= done <= all.len(),
            all == frames_in(old(deframer)@, bytes@),
            deframer@ == assemble_all(old(deframer)@, bytes@),
            frames_view(frames@) == all.subrange(done, all.len() as int),
            start == (Handshake {
                protocol: *old(protocol_state),
                held: packets_view(old(pre_ready_data)@),
                held_bytes: *old(pre_ready_data_bytes) as int,
            }),
            handshake_batch(start, all.subrange(0, done)) == (
                (Handshake {
                    protocol: *protocol_state,
                    held: packets_view(pre_ready_data@),
                    held_bytes: *pre_ready_data_bytes as int,
                }),
                true,
            ),
        decreases frames@.len(),
    {
        let ghost before = frames@;
        let (command, frame) = frames.remove(0);
        proof {
            lemma_first_of_rest(before, all, done);
            assert(all.subrange(0, done + 1).drop_last() =~= all.subrange(0, done));
        }
        if command == CMD_DATA {
            if !hold_native_pre_ready_data(frame, pre_ready_data, pre_ready_data_bytes) {
                proof {
                    lemma_failed_handshake_stays(start, all, done + 1);
                }
                return Err(());
            }
        } else {
            protocol_state.apply_frame(command, frame.as_slice());
        }
        proof {
            done = done + 1;
        }
    }
    assert(done == all.len());
    assert(all.subrange(0, done) =~= all);
    Ok(accepted)
}

proof fn lemma_failed_handshake_stays(start: Handshake, frames: Seq<Frame>, count: int)
    requires
        0 <= count <= frames.len(),
        !handshake_batch(start, frames.subrange(0, count)).1,
    ensures
        handshake_batch(start, frames) == handshake_batch(start, frames.subrange(0, count)),
    decreases frames.len() - count,
{
    if count == frames.len() {
        assert(frames.subrange(0, count) =~= frames);
    } else {
        assert(frames.subrange(0, count + 1).drop_last() =~= frames.subrange(0, count));
        lemma_failed_handshake_stays(start, frames, count + 1);
    }
}

/// Why bytes that came before the generation was ready end it.
#[derive(Clone, Copy, Debug, PartialEq, Eq, Structural)]
pub enum NativeStartupReductionError {
    MalformedBridgeAck,
    ActiveCarryOverflow,
    PreReadyDataOverflow,
}

/// What a generation has gathered on its way to readiness.
pub ghost struct Startup {
    pub protocol: RNodeProtocolState,
    /// Packets that came too early.
    pub held: Seq<Seq<u8>>,
    pub held_bytes: int,
    /// Frames behind the one that made the generation ready.
    pub active: Seq<Frame>,
    pub active_bytes: int,
}

/// What one frame makes of what was gathered. A packet before readiness is held,
/// a frame behind it is carried into the active session, and an exact bridge
/// acknowledgement is consumed. A frame that undoes readiness undoes the carry.
pub open spec fn startup_step(
    so_far: (Startup, Option<NativeStartupReductionError>),
    frame: Frame,
) -> (Startup, Option<NativeStartupReductionError>) {
    let (gathered, failure) = so_far;
    if failure is Some {
        so_far
    } else if frame.0 == RNODE_NATIVE_BRIDGE_ACK_COMMAND {
        if acknowledged_count(frame.0, frame.1) is None {
            (gathered, Some(NativeStartupReductionError::MalformedBridgeAck))
        } else {
            so_far
        }
    } else if gathered.protocol.is_ready() {
        let protocol = gathered.protocol.after(frame.0, frame.1);
        let active_bytes = bounded_sum(gathered.active_bytes, bounded_sum(frame.1.len() as int, 1));
        if active_bytes > RNODE_NATIVE_STARTUP_ACTIVE_CARRY_MAX {
            (
                Startup { protocol, active_bytes, ..gathered },
                Some(NativeStartupReductionError::ActiveCarryOverflow),
            )
        } else if protocol.is_ready() {
            (
                Startup { protocol, active_bytes, active: gathered.active.push(frame), ..gathered },
                None,
            )
        } else {
            (
                Startup { protocol, active_bytes: 0, active: Seq::empty(), ..gathered },
                None,
            )
        }
    } else if frame.0 == CMD_DATA {
        if may_hold(gathered.held.len(), gathered.held_bytes, frame.1.len()) {
            (
                Startup {
                    held: gathered.held.push(frame.1),
                    held_bytes: gathered.held_bytes + frame.1.len(),
                    ..gathered
                },
                None,
            )
        } else {
            (gathered, Some(NativeStartupReductionError::PreReadyDataOverflow))
        }
    } else {
        (Startup { protocol: gathered.protocol.after(frame.0, frame.1), ..gathered }, None)
    }
}

/// What a batch of frames makes of what was gathered.
pub open spec fn startup_batch(gathered: Startup, frames: Seq<Frame>) -> (
    Startup,
    Option<NativeStartupReductionError>,
)
    decreases frames.len(),
{
    if frames.len() == 0 {
        (gathered, None)
    } else {
        startup_step(startup_batch(gathered, frames.drop_last()), frames.last())
    }
}

proof fn lemma_failed_startup_stays(start: Startup, frames: Seq<Frame>, count: int)
    requires
        0 <= count <= frames.len(),
        startup_batch(start, frames.subrange(0, count)).1 is Some,
    ensures
        startup_batch(start, frames) == startup_batch(start, frames.subrange(0, count)),
    decreases frames.len() - count,
{
    if count == frames.len() {
        assert(frames.subrange(0, count) =~= frames);
    } else {
        assert(frames.subrange(0, count + 1).drop_last() =~= frames.subrange(0, count));
        lemma_failed_startup_stays(start, frames, count + 1);
    }
}

fn is_now_ready(protocol_state: &RNodeProtocolState) -> (ready: bool)
    ensures
        ready == protocol_state.is_ready(),
{
    match protocol_state.readiness() {
        RNodeReadiness::Ready => true,
        _ => false,
    }
}

fn reduce_startup_frame(
    protocol_state: &mut RNodeProtocolState,
    command: u8,
    frame: Vec<u8>,
    pre_ready_data: &mut Vec<Vec<u8>>,
    pre_ready_data_bytes: &mut usize,
    active_frames: &mut Vec<(u8, Vec<u8>)>,
    active_bytes: &mut usize,
) -> (reduced: Result<(), NativeStartupReductionError>)
    ensures
        startup_step(
            (
                (Startup {
                    protocol: *old(protocol_state),
                    held: packets_view(old(pre_ready_data)@),
                    held_bytes: *old(pre_ready_data_bytes) as int,
                    active: frames_view(old(active_frames)@),
                    active_bytes: *old(active_bytes) as int,
                }),
                None,
            ),
            (command, frame@),
        ) == (
            (Startup {
                protocol: *final(protocol_state),
                held: packets_view(final(pre_ready_data)@),
                held_bytes: *final(pre_ready_data_bytes) as int,
                active: frames_view(final(active_frames)@),
                active_bytes: *final(active_bytes) as int,
            }),
            match reduced {
                Ok(_) => None,
                Err(error) => Some(error),
            },
        ),
{
    if command == RNODE_NATIVE_BRIDGE_ACK_COMMAND {
        return match native_bridge_acknowledged_data_frames(command, frame.as_slice()) {
            Some(_) => Ok(()),
            None => Err(NativeStartupReductionError::MalformedBridgeAck),
        };
    }
    if is_now_ready(protocol_state) {
        proof {
            if command == CMD_DATA {
                protocol_state.data_is_no_evidence(frame@);
            }
        }
        if command != CMD_DATA {
            protocol_state.apply_frame(command, frame.as_slice());
        }
        *active_bytes = active_bytes.saturating_add(frame.len().saturating_add(1));
        if *active_bytes > RNODE_NATIVE_STARTUP_ACTIVE_CARRY_MAX {
            return Err(NativeStartupReductionError::ActiveCarryOverflow);
        }
        let ghost packet = frame@;
        active_frames.push((command, frame));
        assert(frames_view(active_frames@) =~= frames_view(old(active_frames)@).push(
            (command, packet),
        ));
        if !is_now_ready(protocol_state) {
            active_frames.clear();
            *active_bytes = 0;
            assert(frames_view(active_frames@) =~= Seq::<Frame>::empty());
        }
        Ok(())
    } else if command == CMD_DATA {
        if !hold_native_pre_ready_data(frame, pre_ready_data, pre_ready_data_bytes) {
            return Err(NativeStartupReductionError::PreReadyDataOverflow);
        }
        Ok(())
    } else {
        protocol_state.apply_frame(command, frame.as_slice());
        Ok(())
    }
}

/// Takes one read on the way to readiness into account. A failure leaves the state
/// as of the frame that caused it.
pub fn reduce_native_startup_bytes(
    protocol_state: &mut RNodeProtocolState,
    deframer: &mut RawKissDeframer,
    bytes: &[u8],
    pre_ready_data: &mut Vec<Vec<u8>>,
    pre_ready_data_bytes: &mut usize,
    active_frames: &mut Vec<(u8, Vec<u8>)>,
    active_bytes: &mut usize,
) -> (reduced: Result<(), NativeStartupReductionError>)
    ensures
        final(deframer)@ == assemble_all(old(deframer)@, bytes@),
        startup_batch(
            Startup {
                protocol: *old(protocol_state),
                held: packets_view(old(pre_ready_data)@),
                held_bytes: *old(pre_ready_data_bytes) as int,
                active: frames_view(old(active_frames)@),
                active_bytes: *old(active_bytes) as int,
            },
            frames_in(old(deframer)@, bytes@),
        ) == (
            (Startup {
                protocol: *final(protocol_state),
                held: packets_view(final(pre_ready_data)@),
                held_bytes: *final(pre_ready_data_bytes) as int,
                active: frames_view(final(active_frames)@),
                active_bytes: *final(active_bytes) as int,
            }),
            match reduced {
                Ok(_) => None,
                Err(error) => Some(error),
            },
        ),
{
    let mut frames = deframer.feed(bytes);
    let ghost all = frames_view(frames@);
    let ghost start = Startup {
        protocol: *old(protocol_state),
        held: packets_view(old(pre_ready_data)@),
        held_bytes: *old(pre_ready_data_bytes) as int,
        active: frames_view(old(active_frames)@),
        active_bytes: *old(active_bytes) as int,
    };
    let ghost mut done: int = 0;
    assert(all.subrange(0, 0) =~= Seq::<Frame>::empty());
    assert(all.subrange(0, all.len() as int) =~= all);
    while frames.len() > 0
        invariant
            0 <= done <= all.len(),
            all == frames_in(old(deframer)@, bytes@),
            deframer@ == assemble_all(old(deframer)@, bytes@),
            frames_view(frames@) == all.subrange(done, all.len() as int),
            start == (Startup {
                protocol: *old(protocol_state),
                held: packets_view(old(pre_ready_data)@),
                held_bytes: *old(pre_ready_data_bytes) as int,
                active: frames_view(old(active_frames)@),
                active_bytes: *old(active_bytes) as int,
            }),
            startup_batch(start, all.subrange(0, done)) == (
                (Startup {
                    protocol: *protocol_state,
                    held: packets_view(pre_ready_data@),
                    held_bytes: *pre_ready_data_bytes as int,
                    active: frames_view(active_frames@),
                    active_bytes: *active_bytes as int,
                }),
                None::<NativeStartupReductionError>,
            ),
        decreases frames@.len(),
    {
        let ghost before = frames@;
        let (command, frame) = frames.remove(0);
        proof {
            lemma_first_of_rest(before, all, done);
            assert(all.subrange(0, done + 1).drop_last() =~= all.subrange(0, done));
        }
        let reduced = reduce_startup_frame(
            protocol_state,
            command,
            frame,
            pre_ready_data,
            pre_ready_data_bytes,
            active_frames,
            active_bytes,
        );
        if reduced.is_err() {
            proof {
                lemma_failed_startup_stays(start, all, done + 1);
            }
            return reduced;
        }
        proof {
            done = done + 1;
        }
    }
    assert(done == all.len());
    assert(all.subrange(0, done) =~= all);
    Ok(())
}

/// The total length of a run of packets.
pub open spec fn total_length(packets: Seq<Seq<u8>>) -> nat
    decreases packets.len(),
{
    if packets.len() == 0 {
        0
    } else {
        total_length(packets.drop_last()) + packets.last().len()
    }
}

/// What is held is counted exactly and stays within its bounds.
pub open spec fn held_within_bounds(gathered: Startup) -> bool {
    &&& gathered.held_bytes == total_length(gathered.held)
    &&& gathered.held_bytes <= RNODE_NATIVE_STARTUP_PRE_READY_DATA_MAX_BYTES
    &&& gathered.held.len() <= RNODE_NATIVE_STARTUP_PRE_READY_DATA_MAX_RECORDS
}

/// No run of frames, however long, makes the held packets exceed their bounds, and
/// the packets that are held are never reordered or dropped.
pub proof fn startup_holds_within_bounds(start: Startup, frames: Seq<Frame>)
    requires
        held_within_bounds(start),
    ensures
        held_within_bounds(startup_batch(start, frames).0),
        start.held.is_prefix_of(startup_batch(start, frames).0.held),
    decreases frames.len(),
{
    if frames.len() > 0 {
        startup_holds_within_bounds(start, frames.drop_last());
        let before = startup_batch(start, frames.drop_last()).0;
        let after = startup_batch(start, frames).0;
        if after.held != before.held {
            assert(after.held.drop_last() =~= before.held);
        }
    }
}

/// As long as the generation is not ready nothing is carried into the active
/// session.
pub proof fn nothing_is_carried_before_readiness(start: Startup, frames: Seq<Frame>)
    requires
        !start.protocol.is_ready() ==> start.active.len() == 0,
    ensures
        !startup_batch(start, frames).0.protocol.is_ready() && startup_batch(start, frames).1
            is None ==> startup_batch(start, frames).0.active.len() == 0,
    decreases frames.len(),
{
    if frames.len() > 0 {
        nothing_is_carried_before_readiness(start, frames.drop_last());
    }
}

/// An acknowledgement is thirteen bytes under the command A0: the letters RSBA, the version
/// one, and the count with its highest byte first. Anything else is none.
pub proof fn acknowledgement_carries_its_count(command: u8, payload: Seq<u8>)
    ensures
        acknowledged_count(command, payload) is Some <==> command == 0xA0 && payload.len() == 13
            && payload[0] == 0x52 && payload[1] == 0x53 && payload[2] == 0x42 && payload[3] == 0x41
            && payload[4] == 0x01,
        acknowledged_count(command, payload) is Some ==> acknowledged_count(command, payload)->0
            == payload[5] * 0x100_0000_0000_0000 + payload[6] * 0x1_0000_0000_0000 + payload[7]
            * 0x100_0000_0000 + payload[8] * 0x1_0000_0000 + payload[9] * 0x100_0000 + payload[10]
            * 0x1_0000 + payload[11] * 0x100 + payload[12],
{
    if payload.len() == 13 {
        let mark = payload.subrange(0, 5);
        assert(mark[0] == payload[0] && mark[1] == payload[1] && mark[2] == payload[2] && mark[3]
            == payload[3] && mark[4] == payload[4]);
        let magic = ack_magic();
        assert(magic[0] == 0x52 && magic[1] == 0x53 && magic[2] == 0x42 && magic[3] == 0x41
            && magic[4] == 0x01);
        if payload[0] == 0x52 && payload[1] == 0x53 && payload[2] == 0x42 && payload[3] == 0x41
            && payload[4] == 0x01 {
            assert(mark =~= magic);
        }
    }
}

/// An RNode shows itself by confirming detection or by reporting firmware, and by nothing
/// else; one such frame in a read is enough.
pub proof fn rnode_shows_itself(command: u8, payload: Seq<u8>, one: Seq<Frame>, other: Seq<Frame>)
    ensures
        is_handshake_frame((command, payload)) <==> payload.len() > 0 && ((command == 0x08
            && payload[0] == 0x46) || command == 0x50),
        batch_is_accepted(one + other) <==> batch_is_accepted(one) || batch_is_accepted(other),
        one.len() == 1 ==> batch_is_accepted(one) == is_handshake_frame(one[0]),
        !batch_is_accepted(Seq::<Frame>::empty()),
{
    let all = one + other;
    if batch_is_accepted(one) {
        let i = choose|i: int| 0 <= i < one.len() && is_handshake_frame(#[trigger] one[i]);
        assert(all[i] == one[i]);
    }
    if batch_is_accepted(other) {
        let i = choose|i: int| 0 <= i < other.len() && is_handshake_frame(#[trigger] other[i]);
        assert(all[one.len() + i] == other[i]);
    }
    if batch_is_accepted(all) {
        let i = choose|i: int| 0 <= i < all.len() && is_handshake_frame(#[trigger] all[i]);
        if i < one.len() {
            assert(is_handshake_frame(one[i]));
        } else {
            assert(is_handshake_frame(other[i - one.len()]));
        }
    }
    if one.len() == 1 && is_handshake_frame(one[0]) {
        assert(batch_is_accepted(one));
    }
}

/// Up to 256 packets of up to 65536 bytes in all are held.
pub proof fn packets_are_held_up_to_their_bounds(records: nat, bytes: int, len: nat)
    ensures
        may_hold(records, bytes, len) <==> records < 256 && bytes + len <= 65_536,
{
}

/// During a handshake a packet is held behind those before it and is no evidence; any other
/// frame is evidence and holds nothing. A packet without room ends the handshake, and what
/// comes behind it counts for nothing.
pub proof fn handshake_holds_packets_and_takes_evidence(gathered: Handshake, frame: Frame)
    ensures
        ({
            let (after, fits) = handshake_step((gathered, true), frame);
            &&& fits <==> frame.0 != 0x00 || (gathered.held.len() < 256 && gathered.held_bytes
                + frame.1.len() <= 65_536)
            &&& frame.0 == 0x00 && fits ==> after.held == gathered.held.push(frame.1)
                && after.held_bytes == gathered.held_bytes + frame.1.len() && after.protocol
                == gathered.protocol
            &&& frame.0 != 0x00 ==> after.held == gathered.held && after.held_bytes
                == gathered.held_bytes && after.protocol == gathered.protocol.after(
                frame.0,
                frame.1,
            )
            &&& !fits ==> after == gathered
        }),
        handshake_step((gathered, false), frame) == (gathered, false),
{
}

/// The frames of a handshake are taken into account one after the other, in their order.
pub proof fn handshake_frames_are_taken_in_order(
    gathered: Handshake,
    one: Seq<Frame>,
    other: Seq<Frame>,
)
    ensures
        handshake_batch(gathered, one).1 ==> handshake_batch(gathered, one + other)
            == handshake_batch(handshake_batch(gathered, one).0, other),
        !handshake_batch(gathered, one).1 ==> handshake_batch(gathered, one + other)
            == handshake_batch(gathered, one),
        one.len() == 1 ==> handshake_batch(gathered, one) == handshake_step(
            (gathered, true),
            one[0],
        ),
    decreases other.len(),
{
    if one.len() == 1 {
        assert(one.drop_last() =~= Seq::<Frame>::empty());
        assert(handshake_batch(gathered, one.drop_last()) == (gathered, true));
    }
    if other.len() == 0 {
        assert(one + other =~= one);
    } else {
        handshake_frames_are_taken_in_order(gathered, one, other.drop_last());
        assert((one + other).drop_last() =~= one + other.drop_last());
    }
}

/// Evidence is gathered frame by frame, in order, whatever lies in one read.
pub proof fn evidence_is_gathered_in_order(
    protocol: RNodeProtocolState,
    one: Seq<Frame>,
    other: Seq<Frame>,
)
    ensures
        protocol_after_batch(protocol, one + other) == protocol_after_batch(
            protocol_after_batch(protocol, one),
            other,
        ),
        one.len() == 1 ==> protocol_after_batch(protocol, one) == protocol.after(
            one[0].0,
            one[0].1,
        ),
    decreases other.len(),
{
    if one.len() == 1 {
        assert(one.drop_last() =~= Seq::<Frame>::empty());
        assert(protocol_after_batch(protocol, one.drop_last()) == protocol);
    }
    if other.len() == 0 {
        assert(one + other =~= one);
    } else {
        evidence_is_gathered_in_order(protocol, one, other.drop_last());
        assert((one + other).drop_last() =~= one + other.drop_last());
    }
}

/// On the way to readiness an acknowledgement is consumed without a trace, and a malformed one
/// ends the startup. While the device is not ready a packet is held and any other frame is
/// evidence.
pub proof fn startup_holds_packets_until_ready(gathered: Startup, frame: Frame)
    requires
        !gathered.protocol.is_ready(),
    ensures
        ({
            let (after, failure) = startup_step((gathered, None), frame);
            &&& frame.0 == 0xA0 ==> after == gathered && (failure is None <==> acknowledged_count(
                frame.0,
                frame.1,
            ) is Some) && (failure is Some ==> failure->0 is MalformedBridgeAck)
            &&& frame.0 == 0x00 && gathered.held.len() < 256 && gathered.held_bytes
                + frame.1.len() <= 65_536 ==> failure is None && after == (Startup {
                held: gathered.held.push(frame.1),
                held_bytes: gathered.held_bytes + frame.1.len(),
                ..gathered
            })
            &&& frame.0 == 0x00 && !(gathered.held.len() < 256 && gathered.held_bytes
                + frame.1.len() <= 65_536) ==> after == gathered && failure == Some(
                NativeStartupReductionError::PreReadyDataOverflow,
            )
            &&& frame.0 != 0x00 && frame.0 != 0xA0 ==> failure is None && after == (Startup {
                protocol: gathered.protocol.after(frame.0, frame.1),
                ..gathered
            })
        }),
{
}

/// Once the device is ready every frame is carried into the active session, in order, each at
/// its length and one, up to 4096 in all. A frame that undoes readiness is evidence and takes
/// the carry with it. What is held stays as it is.
pub proof fn startup_carries_frames_once_ready(gathered: Startup, frame: Frame)
    requires
        gathered.protocol.is_ready(),
        frame.0 != 0xA0,
        gathered.active_bytes >= 0,
    ensures
        ({
            let (after, failure) = startup_step((gathered, None), frame);
            let cost = gathered.active_bytes + frame.1.len() + 1;
            let protocol = gathered.protocol.after(frame.0, frame.1);
            &&& after.held == gathered.held && after.held_bytes == gathered.held_bytes
            &&& after.protocol == protocol
            &&& cost > 4096 <==> failure == Some(NativeStartupReductionError::ActiveCarryOverflow)
            &&& cost <= 4096 <==> failure is None
            &&& cost <= 4096 && protocol.is_ready() ==> after.active == gathered.active.push(frame)
                && after.active_bytes == cost
            &&& cost <= 4096 && !protocol.is_ready() ==> after.active.len() == 0
                && after.active_bytes == 0
        }),
{
}

/// Frames are taken into account one after the other, in their order, however reads cut them;
/// behind a failure nothing is.
pub proof fn startup_frames_are_taken_in_order(
    gathered: Startup,
    one: Seq<Frame>,
    other: Seq<Frame>,
)
    ensures
        startup_batch(gathered, one).1 is None ==> startup_batch(gathered, one + other)
            == startup_batch(startup_batch(gathered, one).0, other),
        startup_batch(gathered, one).1 is Some ==> startup_batch(gathered, one + other)
            == startup_batch(gathered, one),
        one.len() == 1 ==> startup_batch(gathered, one) == startup_step((gathered, None), one[0]),
    decreases other.len(),
{
    if one.len() == 1 {
        assert(one.drop_last() =~= Seq::<Frame>::empty());
        assert(startup_batch(gathered, one.drop_last()) == (
            gathered,
            None::<NativeStartupReductionError>,
        ));
    }
    if other.len() == 0 {
        assert(one + other =~= one);
    } else {
        startup_frames_are_taken_in_order(gathered, one, other.drop_last());
        assert((one + other).drop_last() =~= one + other.drop_last());
    }
}

} // verus!
