//! Extended KISS framing: one command byte and a payload between `FEND` marks.
use vstd::prelude::*;

verus! {

/// Frame boundary.
pub const FEND: u8 = 0xC0;

/// Escape mark inside a payload.
pub const FESC: u8 = 0xDB;

/// Stands for `FEND` behind an escape mark.
pub const TFEND: u8 = 0xDC;

/// Stands for `FESC` behind an escape mark.
pub const TFESC: u8 = 0xDD;

/// Command of a frame that carries a network packet.
pub const CMD_DATA: u8 = 0x00;

/// One decoded frame: its command and its unescaped payload.
pub type Frame = (u8, Seq<u8>);

/// How one payload byte travels on the wire.
pub open spec fn escaped_byte(byte: u8) -> Seq<u8> {
    if byte == FEND {
        seq![FESC, TFEND]
    } else if byte == FESC {
        seq![FESC, TFESC]
    } else {
        seq![byte]
    }
}

/// How a payload travels on the wire.
pub open spec fn escaped(payload: Seq<u8>) -> Seq<u8>
    decreases payload.len(),
{
    if payload.len() == 0 {
        Seq::empty()
    } else {
        escaped(payload.drop_last()) + escaped_byte(payload.last())
    }
}

/// The wire form of one frame.
pub open spec fn framed(command: u8, payload: Seq<u8>) -> Seq<u8> {
    seq![FEND, command] + escaped(payload) + seq![FEND]
}

/// The number of payload bytes that need an escape.
pub open spec fn escape_count(payload: Seq<u8>) -> nat
    decreases payload.len(),
{
    if payload.len() == 0 {
        0
    } else {
        escape_count(payload.drop_last()) + if payload.last() == FEND || payload.last() == FESC {
            1nat
        } else {
            0nat
        }
    }
}

/// A frame costs its boundary marks, its command, and one byte or two for each
/// byte of the payload.
pub proof fn frame_length(command: u8, payload: Seq<u8>)
    ensures
        framed(command, payload).len() == payload.len() + escape_count(payload) + 3,
        escape_count(payload) <= payload.len(),
{
    lemma_escaped_length(payload);
}

proof fn lemma_escaped_length(payload: Seq<u8>)
    ensures
        escaped(payload).len() == payload.len() + escape_count(payload),
        escape_count(payload) <= payload.len(),
    decreases payload.len(),
{
    if payload.len() > 0 {
        lemma_escaped_length(payload.drop_last());
    }
}

/// Appends one frame to `out`.
pub fn frame_with_command_into(command: u8, payload: &[u8], out: &mut Vec<u8>)
    ensures
        final(out)@ == old(out)@ + framed(command, payload@),
{
    out.push(FEND);
    out.push(command);
    let mut index: usize = 0;
    while index < payload.len()
        invariant
            index <= payload@.len(),
            out@ == old(out)@ + seq![FEND, command] + escaped(payload@.subrange(0, index as int)),
        decreases payload@.len() - index,
    {
        let byte: u8 = payload[index];
        if byte == FEND {
            out.push(FESC);
            out.push(TFEND);
        } else if byte == FESC {
            out.push(FESC);
            out.push(TFESC);
        } else {
            out.push(byte);
        }
        proof {
            let grown = payload@.subrange(0, index + 1);
            assert(grown.drop_last() =~= payload@.subrange(0, index as int));
            assert(out@ =~= old(out)@ + seq![FEND, command] + escaped(grown));
        }
        index = index + 1;
    }
    assert(payload@.subrange(0, index as int) =~= payload@);
    out.push(FEND);
    assert(out@ =~= old(out)@ + framed(command, payload@));
}

/// Frames a payload under a command.
pub fn frame_with_command(command: u8, payload: &[u8]) -> (wire: Vec<u8>)
    ensures
        wire@ == framed(command, payload@),
{
    let mut wire: Vec<u8> = Vec::new();
    frame_with_command_into(command, payload, &mut wire);
    assert(wire@ =~= framed(command, payload@));
    wire
}

/// Frames a network packet.
pub fn frame(payload: &[u8]) -> (wire: Vec<u8>)
    ensures
        wire@ == framed(CMD_DATA, payload@),
{
    frame_with_command(CMD_DATA, payload)
}

/// What a deframer remembers between two bytes.
pub ghost struct Assembly {
    /// A boundary mark has been seen.
    pub in_frame: bool,
    /// The command of the frame that is being assembled.
    pub command: Option<u8>,
    /// Its payload so far.
    pub payload: Seq<u8>,
    /// The byte before was an escape mark.
    pub escape: bool,
}

/// Nothing has been seen yet.
pub open spec fn fresh_assembly() -> Assembly {
    Assembly { in_frame: false, command: None, payload: Seq::empty(), escape: false }
}

/// A boundary mark has just been seen.
pub open spec fn opened_assembly() -> Assembly {
    Assembly { in_frame: true, command: None, payload: Seq::empty(), escape: false }
}

/// The byte that stands behind an escape mark, unescaped.
pub open spec fn unescaped_byte(byte: u8) -> u8 {
    if byte == TFEND {
        FEND
    } else if byte == TFESC {
        FESC
    } else {
        byte
    }
}

/// What one byte makes of an assembly. A boundary mark both ends a frame and
/// opens the next one; what precedes the first mark is noise.
pub open spec fn assemble(state: Assembly, byte: u8) -> Assembly {
    if byte == FEND {
        opened_assembly()
    } else if !state.in_frame {
        state
    } else if state.command is None {
        Assembly { command: Some(byte), ..state }
    } else if byte == FESC {
        Assembly { escape: true, ..state }
    } else if state.escape {
        Assembly { payload: state.payload.push(unescaped_byte(byte)), escape: false, ..state }
    } else {
        Assembly { payload: state.payload.push(byte), ..state }
    }
}

/// The frame that one byte completes, if any.
pub open spec fn completed(state: Assembly, byte: u8) -> Option<Frame> {
    if byte == FEND && state.in_frame && state.command is Some {
        Some((state.command->0, state.payload))
    } else {
        None
    }
}

/// The assembly after a run of bytes.
pub open spec fn assemble_all(state: Assembly, bytes: Seq<u8>) -> Assembly
    decreases bytes.len(),
{
    if bytes.len() == 0 {
        state
    } else {
        assemble(assemble_all(state, bytes.drop_last()), bytes.last())
    }
}

/// The frames that a run of bytes completes, in order.
pub open spec fn frames_in(state: Assembly, bytes: Seq<u8>) -> Seq<Frame>
    decreases bytes.len(),
{
    if bytes.len() == 0 {
        Seq::empty()
    } else {
        let before = frames_in(state, bytes.drop_last());
        match completed(assemble_all(state, bytes.drop_last()), bytes.last()) {
            Some(frame) => before.push(frame),
            None => before,
        }
    }
}

/// How a stream is cut into reads does not change the frames that come out of it.
pub proof fn fragmentation_is_invisible(state: Assembly, first: Seq<u8>, second: Seq<u8>)
    ensures
        assemble_all(state, first + second) == assemble_all(assemble_all(state, first), second),
        frames_in(state, first + second) == frames_in(state, first) + frames_in(
            assemble_all(state, first),
            second,
        ),
    decreases second.len(),
{
    if second.len() == 0 {
        assert(first + second =~= first);
        assert(frames_in(state, first) + Seq::<Frame>::empty() =~= frames_in(state, first));
    } else {
        fragmentation_is_invisible(state, first, second.drop_last());
        assert((first + second).drop_last() =~= first + second.drop_last());
        assert((first + second).last() == second.last());
        let middle = assemble_all(state, first);
        assert(frames_in(state, first + second) =~= frames_in(state, first) + frames_in(
            middle,
            second,
        ));
    }
}

proof fn lemma_escaped_payload_assembles(state: Assembly, payload: Seq<u8>)
    requires
        state.in_frame,
        state.command is Some,
        !state.escape,
    ensures
        assemble_all(state, escaped(payload)) == (Assembly {
            payload: state.payload + payload,
            ..state
        }),
        frames_in(state, escaped(payload)) == Seq::<Frame>::empty(),
    decreases payload.len(),
{
    if payload.len() == 0 {
        assert(state.payload + payload =~= state.payload);
    } else {
        let head = payload.drop_last();
        let last = payload.last();
        lemma_escaped_payload_assembles(state, head);
        fragmentation_is_invisible(state, escaped(head), escaped_byte(last));
        let middle = assemble_all(state, escaped(head));
        let tail = escaped_byte(last);
        assert((state.payload + head).push(last) =~= state.payload + payload);
        if last == FEND || last == FESC {
            assert(tail.drop_last() =~= seq![FESC]);
            assert(seq![FESC].drop_last() =~= Seq::<u8>::empty());
            assert(assemble_all(middle, Seq::<u8>::empty()) == middle);
            assert(assemble_all(middle, seq![FESC]) == assemble(middle, FESC));
            assert(frames_in(middle, Seq::<u8>::empty()) =~= Seq::<Frame>::empty());
            assert(frames_in(middle, seq![FESC]) =~= Seq::<Frame>::empty());
        } else {
            assert(tail.drop_last() =~= Seq::<u8>::empty());
            assert(assemble_all(middle, Seq::<u8>::empty()) == middle);
            assert(frames_in(middle, Seq::<u8>::empty()) =~= Seq::<Frame>::empty());
        }
        assert(frames_in(middle, tail) =~= Seq::<Frame>::empty());
    }
}

/// A framed payload comes back out of the deframer unchanged, with nothing else
/// beside it, whenever the deframer is between frames.
pub proof fn deframing_undoes_framing(state: Assembly, command: u8, payload: Seq<u8>)
    requires
        command != FEND,
        !state.in_frame || state.command is None,
    ensures
        frames_in(state, framed(command, payload)) == seq![(command, payload)],
        assemble_all(state, framed(command, payload)) == opened_assembly(),
{
    let open = seq![FEND, command];
    let close = seq![FEND];
    let body = escaped(payload);
    fragmentation_is_invisible(state, open + body, close);
    fragmentation_is_invisible(state, open, body);
    assert(open.drop_last() =~= seq![FEND]);
    assert(seq![FEND].drop_last() =~= Seq::<u8>::empty());
    assert(assemble_all(state, Seq::<u8>::empty()) == state);
    assert(frames_in(state, Seq::<u8>::empty()) =~= Seq::<Frame>::empty());
    assert(assemble_all(state, seq![FEND]) == opened_assembly());
    assert(frames_in(state, seq![FEND]) =~= Seq::<Frame>::empty());
    let started = assemble_all(state, open);
    assert(started == (Assembly { command: Some(command), ..opened_assembly() }));
    assert(frames_in(state, open) =~= Seq::<Frame>::empty());
    lemma_escaped_payload_assembles(started, payload);
    assert(started.payload + payload =~= payload);
    let full = assemble_all(started, body);
    assert(close.drop_last() =~= Seq::<u8>::empty());
    assert(assemble_all(full, Seq::<u8>::empty()) == full);
    assert(frames_in(full, Seq::<u8>::empty()) =~= Seq::<Frame>::empty());
    assert(completed(full, FEND) == Some((command, payload)));
    assert(frames_in(full, close) =~= seq![(command, payload)]);
    assert(frames_in(state, open + body) =~= Seq::<Frame>::empty());
    assert(frames_in(state, framed(command, payload)) =~= seq![(command, payload)]);
}

/// A stream that holds no boundary mark completes no frame, and a deframer that
/// has seen none stays as it was.
pub proof fn no_frame_without_a_boundary(state: Assembly, bytes: Seq<u8>)
    requires
        !bytes.contains(FEND),
    ensures
        frames_in(state, bytes) == Seq::<Frame>::empty(),
        !state.in_frame ==> assemble_all(state, bytes) == state,
    decreases bytes.len(),
{
    if bytes.len() > 0 {
        let head = bytes.drop_last();
        assert forall|i: int| 0 <= i < head.len() implies head[i] != FEND by {
            assert(head[i] == bytes[i]);
            assert(bytes.contains(bytes[i]));
        }
        no_frame_without_a_boundary(state, head);
        assert(bytes.contains(bytes.last()));
    }
}

/// The decoded frames behind a vector of executable ones.
pub open spec fn frames_view(frames: Seq<(u8, Vec<u8>)>) -> Seq<Frame> {
    frames.map_values(|frame: (u8, Vec<u8>)| (frame.0, frame.1@))
}

/// An incremental decoder that keeps every command it sees.
#[derive(Debug)]
pub struct RawKissDeframer {
    in_frame: bool,
    command: Option<u8>,
    payload: Vec<u8>,
    escape: bool,
}

impl View for RawKissDeframer {
    type V = Assembly;

    closed spec fn view(&self) -> Assembly {
        Assembly {
            in_frame: self.in_frame,
            command: self.command,
            payload: self.payload@,
            escape: self.escape,
        }
    }
}

impl RawKissDeframer {
    /// A deframer that has seen nothing.
    pub fn new() -> (deframer: Self)
        ensures
            deframer@ == fresh_assembly(),
    {
        let deframer = RawKissDeframer {
            in_frame: false,
            command: None,
            payload: Vec::new(),
            escape: false,
        };
        assert(deframer@.payload =~= Seq::<u8>::empty());
        deframer
    }

    /// Forgets any partial frame and waits for a new boundary mark.
    pub fn reset(&mut self)
        ensures
            final(self)@ == fresh_assembly(),
    {
        self.in_frame = false;
        self.command = None;
        self.payload = Vec::new();
        self.escape = false;
        assert(self@.payload =~= Seq::<u8>::empty());
    }

    fn feed_byte(&mut self, byte: u8) -> (frame: Option<(u8, Vec<u8>)>)
        ensures
            final(self)@ == assemble(old(self)@, byte),
            match frame {
                Some(found) => completed(old(self)@, byte) == Some((found.0, found.1@)),
                None => completed(old(self)@, byte) is None,
            },
    {
        if byte == FEND {
            let mut payload: Vec<u8> = Vec::new();
            std::mem::swap(&mut payload, &mut self.payload);
            let command = self.command;
            let was_open = self.in_frame;
            self.in_frame = true;
            self.command = None;
            self.escape = false;
            assert(self@.payload =~= Seq::<u8>::empty());
            match command {
                Some(command) if was_open => Some((command, payload)),
                _ => None,
            }
        } else {
            if self.in_frame {
                if self.command.is_none() {
                    self.command = Some(byte);
                } else if byte == FESC {
                    self.escape = true;
                } else if self.escape {
                    let plain: u8 = if byte == TFEND {
                        FEND
                    } else if byte == TFESC {
                        FESC
                    } else {
                        byte
                    };
                    self.payload.push(plain);
                    self.escape = false;
                } else {
                    self.payload.push(byte);
                }
            }
            None
        }
    }

    /// Takes one read and returns the frames that it completes.
    pub fn feed(&mut self, bytes: &[u8]) -> (frames: Vec<(u8, Vec<u8>)>)
        ensures
            final(self)@ == assemble_all(old(self)@, bytes@),
            frames_view(frames@) == frames_in(old(self)@, bytes@),
    {
        let mut frames: Vec<(u8, Vec<u8>)> = Vec::new();
        let mut index: usize = 0;
        assert(bytes@.subrange(0, 0) =~= Seq::<u8>::empty());
        assert(frames_view(frames@) =~= Seq::<Frame>::empty());
        while index < bytes.len()
            invariant
                index <= bytes@.len(),
                self@ == assemble_all(old(self)@, bytes@.subrange(0, index as int)),
                frames_view(frames@) == frames_in(old(self)@, bytes@.subrange(0, index as int)),
            decreases bytes@.len() - index,
        {
            let ghost seen = bytes@.subrange(0, index + 1);
            assert(seen.drop_last() =~= bytes@.subrange(0, index as int));
            let ghost before = frames@;
            match self.feed_byte(bytes[index]) {
                Some(found) => {
                    frames.push(found);
                    assert(frames_view(frames@) =~= frames_view(before).push((found.0, found.1@)));
                },
                None => {},
            }
            index = index + 1;
        }
        assert(bytes@.subrange(0, index as int) =~= bytes@);
        frames
    }
}

proof fn lemma_escaped_holds_no_boundary(payload: Seq<u8>, index: int)
    requires
        0 <= index < escaped(payload).len(),
    ensures
        escaped(payload)[index] != 0xC0,
    decreases payload.len(),
{
    if payload.len() > 0 {
        let front = escaped(payload.drop_last());
        if index < front.len() {
            lemma_escaped_holds_no_boundary(payload.drop_last(), index);
        } else {
            assert(escaped(payload)[index] == escaped_byte(payload.last())[index - front.len()]);
        }
    }
}

/// On the wire a frame begins and ends with a boundary mark, its command comes first, and
/// between the marks no byte of the payload looks like one.
pub proof fn boundary_marks_stand_at_the_ends(command: u8, payload: Seq<u8>, index: int)
    ensures
        framed(command, payload).len() >= 3,
        framed(command, payload)[0] == 0xC0,
        framed(command, payload)[1] == command,
        framed(command, payload).last() == 0xC0,
        2 <= index < framed(command, payload).len() - 1 ==> framed(command, payload)[index] != 0xC0,
{
    if 2 <= index < framed(command, payload).len() - 1 {
        lemma_escaped_holds_no_boundary(payload, index - 2);
    }
}

/// Payloads are escaped byte by byte: a boundary mark becomes `DB DC`, an escape mark
/// `DB DD`, and any other byte travels as it is.
pub proof fn only_marks_are_escaped(one: Seq<u8>, other: Seq<u8>, byte: u8)
    ensures
        escaped(one + other) == escaped(one) + escaped(other),
        escaped(seq![0xC0u8]) == seq![0xDBu8, 0xDCu8],
        escaped(seq![0xDBu8]) == seq![0xDBu8, 0xDDu8],
        byte != 0xC0 && byte != 0xDB ==> escaped(seq![byte]) == seq![byte],
        escaped(Seq::<u8>::empty()).len() == 0,
    decreases other.len(),
{
    lemma_escaped_single(0xC0u8);
    lemma_escaped_single(0xDBu8);
    lemma_escaped_single(byte);
    let all = one + other;
    if other.len() == 0 {
        assert(all =~= one);
        assert(escaped(one) + escaped(other) =~= escaped(one));
    } else {
        only_marks_are_escaped(one, other.drop_last(), byte);
        assert(all.drop_last() =~= one + other.drop_last());
        assert(all.last() == other.last());
        assert(escaped(all) =~= escaped(one) + escaped(other));
    }
}

proof fn lemma_escaped_single(byte: u8)
    ensures
        escaped(seq![byte]) == escaped_byte(byte),
{
    let single = seq![byte];
    assert(single.drop_last() =~= Seq::<u8>::empty());
    assert(escaped(single.drop_last()) =~= Seq::<u8>::empty());
    assert(escaped(single) =~= escaped_byte(byte));
}

/// Whatever a deframer was in the middle of, a boundary mark lets it begin a frame anew,
/// with no command and no payload yet, and completes the frame before only if that had a
/// command.
pub proof fn boundary_begins_anew(state: Assembly)
    ensures
        assemble(state, 0xC0).in_frame,
        assemble(state, 0xC0).command is None,
        assemble(state, 0xC0).payload.len() == 0,
        !assemble(state, 0xC0).escape,
        completed(state, 0xC0) == (if state.in_frame && state.command is Some {
            Some((state.command->0, state.payload))
        } else {
            None
        }),
{
}

/// Inside a frame the first byte is the command. After it every byte is payload as it is,
/// but an escape mark, which adds nothing itself and turns `DC` and `DD` behind it into the
/// marks that they stand for.
pub proof fn byte_inside_a_frame_is_payload(state: Assembly, byte: u8)
    requires
        state.in_frame,
        byte != 0xC0,
    ensures
        completed(state, byte) is None,
        assemble(state, byte).in_frame,
        state.command is None ==> assemble(state, byte) == (Assembly {
            command: Some(byte),
            ..state
        }),
        state.command is Some ==> assemble(state, byte).command == state.command,
        state.command is Some && byte == 0xDB ==> assemble(state, byte).escape && assemble(
            state,
            byte,
        ).payload == state.payload,
        state.command is Some && byte != 0xDB ==> {
            &&& !assemble(state, byte).escape
            &&& assemble(state, byte).payload == state.payload.push(
                if state.escape && byte == 0xDC {
                    0xC0
                } else if state.escape && byte == 0xDD {
                    0xDB
                } else {
                    byte
                },
            )
        },
{
}

/// What comes before the first boundary mark is noise: behind it the first frame is received as
/// it was sent, and nothing else is.
pub proof fn noise_before_the_first_frame_is_ignored(
    noise: Seq<u8>,
    command: u8,
    payload: Seq<u8>,
)
    requires
        !noise.contains(0xC0u8),
        command != 0xC0,
    ensures
        frames_in(fresh_assembly(), noise + framed(command, payload)) == seq![(command, payload)],
        frames_in(fresh_assembly(), noise).len() == 0,
{
    let start = fresh_assembly();
    no_frame_without_a_boundary(start, noise);
    fragmentation_is_invisible(start, noise, framed(command, payload));
    deframing_undoes_framing(start, command, payload);
    assert(frames_in(start, noise + framed(command, payload)) =~= seq![(command, payload)]);
}

} // verus!
