use vstd::prelude::*;

use crate::bytes::{append_bytes, copy_range, drop_front};
use crate::commands::{command_bytes, encoded_command, Command, Commands};
use crate::crc::{crc, crc_spec};
use crate::error::{DecoderError, EncoderError};
use crate::responses::{response_decodes, Responses};

verus! {

/// Padding that the station sends before a frame; skipped by the receiver.
pub const WAKEUP: u8 = 0xFF;

/// The first byte of a frame.
pub const START: u8 = 0x02;

/// The last byte of a frame.
pub const END: u8 = 0x03;

/// The station's negative acknowledgement.
pub const NOT_ACK: u8 = 0x15;

/// The payload bytes in front of the data of every response frame.
pub const IGNORED_DATA_LENGTH: usize = 2;

/// The stream framing state: between frames (waiting for a start byte), or in
/// the middle of one whose start byte was taken.
pub struct Codec {
    waiting: bool,
}

/// What one step of the frame reader does: the state it leaves, how many
/// bytes it takes from the front of the buffer, and what it reports (a
/// command byte and its data, nothing yet, or a fault).
pub struct FrameStep {
    pub waiting: bool,
    pub consumed: int,
    pub outcome: Result<Option<(u8, Seq<u8>)>, DecoderError>,
}

/// The position of the first byte at or after `i` that is not a wakeup byte
/// (the length of `b` if there is none).
pub open spec fn skip_wakeups(b: Seq<u8>, i: int) -> int
    decreases b.len() - i,
{
    if 0 <= i < b.len() && b[i] == WAKEUP {
        skip_wakeups(b, i + 1)
    } else {
        i
    }
}

/// The reader inside a frame whose command byte stands at `at`:
/// `[cmd, len, two ignored bytes, data, crc_hi, crc_lo, END]`.
pub open spec fn frame_body_step(b: Seq<u8>, at: int) -> FrameStep {
    if b.len() < at + 2 {
        FrameStep { waiting: false, consumed: at, outcome: Ok(None) }
    } else if b[at + 1] < 2 {
        FrameStep {
            waiting: true,
            consumed: at + 2,
            outcome: Err(DecoderError::InvalidLength(b[at + 1] as usize)),
        }
    } else if b.len() < at + b[at + 1] + 5 {
        FrameStep { waiting: false, consumed: at, outcome: Ok(None) }
    } else {
        let len = b[at + 1] as int;
        let end = b[at + len + 4];
        let received = (b[at + len + 2] as int * 256 + b[at + len + 3] as int) as u16;
        let computed = crc_spec(b.subrange(at, at + len + 2));
        FrameStep {
            waiting: true,
            consumed: at + len + 5,
            outcome: if end != END {
                Err(DecoderError::InvalidEndByte(end))
            } else if computed != received {
                Err(DecoderError::InvalidChecksum(computed, received))
            } else {
                Ok(Some((b[at], b.subrange(at + 4, at + len + 2))))
            },
        }
    }
}

/// One step of the frame reader on buffer `b`. Between frames it drops the
/// leading wakeup bytes, refuses a negative acknowledgement or any byte other
/// than the start byte (taking that byte), and else reads the frame behind
/// the start byte. A frame that is not complete yet is left in the buffer.
pub open spec fn frame_step(waiting: bool, b: Seq<u8>) -> FrameStep {
    if !waiting {
        frame_body_step(b, 0)
    } else {
        let w = skip_wakeups(b, 0);
        if w >= b.len() {
            FrameStep { waiting: true, consumed: w, outcome: Ok(None) }
        } else if b[w] == NOT_ACK {
            FrameStep { waiting: true, consumed: w + 1, outcome: Err(DecoderError::InvalidCommandSent) }
        } else if b[w] != START {
            FrameStep {
                waiting: true,
                consumed: w + 1,
                outcome: Err(DecoderError::InvalidStartByte(b[w])),
            }
        } else {
            frame_body_step(b, w + 1)
        }
    }
}

/// The view of what `Codec::decode_frame` returns.
pub open spec fn frame_outcome(r: Result<Option<(u8, Vec<u8>)>, DecoderError>) -> Result<
    Option<(u8, Seq<u8>)>,
    DecoderError,
> {
    match r {
        Ok(Some((cmd, data))) => Ok(Some((cmd, data@))),
        Ok(None) => Ok(None),
        Err(e) => Err(e),
    }
}

impl Codec {
    /// The reader stands between frames.
    pub closed spec fn is_waiting(self) -> bool {
        self.waiting
    }

    /// A codec between frames.
    pub fn new() -> (r: Codec)
        ensures
            r.is_waiting(),
    {
        Codec { waiting: true }
    }

    /// Takes what `frame_step` says from the front of `src`: a complete frame,
    /// leading padding, or the bytes of a fault, after which the codec waits
    /// for the next start byte.
    pub fn decode_frame(&mut self, src: &mut Vec<u8>) -> (r: Result<
        Option<(u8, Vec<u8>)>,
        DecoderError,
    >)
        ensures
            ({
                let step = frame_step(old(self).is_waiting(), old(src)@);
                &&& 0 <= step.consumed <= old(src)@.len()
                &&& final(self).is_waiting() == step.waiting
                &&& final(src)@ == old(src)@.skip(step.consumed)
                &&& frame_outcome(r) == step.outcome
            }),
    {
        let ghost b = src@;
        let n = src.len();
        let mut at: usize = 0;
        if self.waiting {
            while at < n && src[at] == WAKEUP
                invariant
                    at <= n,
                    n == b.len(),
                    src@ == b,
                    skip_wakeups(b, at as int) == skip_wakeups(b, 0),
                decreases n - at,
            {
                at = at + 1;
            }
            if at >= n {
                drop_front(src, at);
                return Ok(None);
            }
            let first = src[at];
            if first == NOT_ACK {
                drop_front(src, at + 1);
                return Err(DecoderError::InvalidCommandSent);
            }
            if first != START {
                drop_front(src, at + 1);
                return Err(DecoderError::InvalidStartByte(first));
            }
            at = at + 1;
            self.waiting = false;
        }
        assert(at <= n);
        assert(frame_step(old(self).is_waiting(), b) == frame_body_step(b, at as int));
        if n - at < 2 {
            drop_front(src, at);
            return Ok(None);
        }
        let cmd = src[at];
        let length = src[at + 1] as usize;
        if length < IGNORED_DATA_LENGTH {
            drop_front(src, at + 2);
            self.waiting = true;
            return Err(DecoderError::InvalidLength(length));
        }
        if n - at < length + 5 {
            drop_front(src, at);
            return Ok(None);
        }
        let end = src[at + length + 4];
        let received: u16 = (src[at + length + 2] as u16) * 256 + (src[at + length + 3] as u16);
        let check = copy_range(src.as_slice(), at, at + length + 2);
        let data = copy_range(src.as_slice(), at + 4, at + length + 2);
        drop_front(src, at + length + 5);
        self.waiting = true;
        if end != END {
            return Err(DecoderError::InvalidEndByte(end));
        }
        let computed = crc(check.as_slice());
        if computed != received {
            return Err(DecoderError::InvalidChecksum(computed, received));
        }
        Ok(Some((cmd, data)))
    }
}

/// What `Codec::decode` reports for a step of the frame reader: nothing or
/// the fault it found, or the decoded response of a complete frame.
pub open spec fn decoded_response(step: FrameStep, r: Result<Option<Responses>, DecoderError>) -> bool {
    match step.outcome {
        Ok(None) => r == Ok::<Option<Responses>, DecoderError>(None),
        Err(e) => r == Err::<Option<Responses>, DecoderError>(e),
        Ok(Some((cmd, data))) => match r {
            Ok(Some(resp)) => response_decodes(cmd, data, Ok(resp)),
            Ok(None) => false,
            Err(e) => response_decodes(cmd, data, Err(e)),
        },
    }
}

/// The wire frame of a command: `[WAKEUP, START, cmd, len, params...,
/// crc_hi, crc_lo, END]`, the checksum taken over `[cmd, len, params...]`.
pub open spec fn frame_bytes(cmd: u8, params: Seq<u8>) -> Seq<u8> {
    let body = command_bytes(cmd, params);
    let sum = crc_spec(body);
    seq![WAKEUP, START] + body + seq![(sum / 256) as u8, (sum % 256) as u8, END]
}

impl Codec {
    /// Reads at most one response from the front of `src`, as `decode_frame`
    /// does, and decodes the frame it completes by its command byte.
    pub fn decode(&mut self, src: &mut Vec<u8>) -> (r: Result<Option<Responses>, DecoderError>)
        ensures
            ({
                let step = frame_step(old(self).is_waiting(), old(src)@);
                &&& 0 <= step.consumed <= old(src)@.len()
                &&& final(self).is_waiting() == step.waiting
                &&& final(src)@ == old(src)@.skip(step.consumed)
                &&& decoded_response(step, r)
            }),
    {
        match self.decode_frame(src) {
            Ok(None) => Ok(None),
            Err(e) => Err(e),
            Ok(Some((cmd, data))) => match Responses::from_frame(cmd, data.as_slice()) {
                Ok(resp) => Ok(Some(resp)),
                Err(e) => Err(e),
            },
        }
    }

    /// Appends the frame of `command` to `dst`.
    pub fn encode(&mut self, command: Commands, dst: &mut Vec<u8>) -> (r: Result<(), EncoderError>)
        ensures
            *final(self) == *old(self),
            match encoded_command(command.spec_magic(), command.spec_parameters()) {
                Ok(_) => r is Ok && final(dst)@ == old(dst)@ + frame_bytes(
                    command.spec_magic(),
                    command.spec_parameters(),
                ),
                Err(e) => r == Err::<(), EncoderError>(e) && final(dst)@ == old(dst)@,
            },
    {
        let command_bytes = match command.encode() {
            Ok(b) => b,
            Err(e) => return Err(e),
        };
        let sum = crc(command_bytes.as_slice());
        dst.push(WAKEUP);
        dst.push(START);
        append_bytes(dst, command_bytes.as_slice());
        dst.push((sum / 256) as u8);
        dst.push((sum % 256) as u8);
        dst.push(END);
        proof {
            assert(dst@ =~= old(dst)@ + frame_bytes(command.spec_magic(), command.spec_parameters()));
        }
        Ok(())
    }
}

impl Default for Codec {
    fn default() -> (r: Codec)
        ensures
            r.is_waiting(),
    {
        Codec::new()
    }
}

/// A frame as the encoder writes it, with two leading bytes of payload,
/// is read back whole by a codec between frames, whatever follows it: the
/// reader reports the command and the payload after those two bytes, takes
/// exactly the frame, and waits for the next one.
pub proof fn lemma_frame_round_trip(cmd: u8, payload: Seq<u8>, rest: Seq<u8>)
    requires
        2 <= payload.len() <= 255,
    ensures
        ({
            let step = frame_step(true, frame_bytes(cmd, payload) + rest);
            &&& step.waiting
            &&& step.consumed == frame_bytes(cmd, payload).len()
            &&& step.outcome == Ok::<Option<(u8, Seq<u8>)>, DecoderError>(
                Some((cmd, payload.skip(2))),
            )
        }),
{
    let f = frame_bytes(cmd, payload);
    let b = f + rest;
    let body = command_bytes(cmd, payload);
    let len = payload.len() as int;
    assert(f.len() == len + 7);
    assert(b[0] == WAKEUP);
    assert(b[1] == START);
    assert(skip_wakeups(b, 1) == 1);
    assert(skip_wakeups(b, 0) == 1);
    assert(b[3] == len);
    assert(b.subrange(2, 2 + len + 2) =~= body);
    assert(b.subrange(6, 2 + len + 2) =~= payload.skip(2));
    let sum = crc_spec(body);
    assert(b[2 + len + 2] == (sum / 256) as u8);
    assert(b[2 + len + 3] == (sum % 256) as u8);
    assert(b[2 + len + 4] == END);
    assert(((sum / 256) as u8) as int * 256 + ((sum % 256) as u8) as int == sum as int);
}

/// Every fault sends the reader back to waiting for a start byte and takes
/// at least the offending byte, so the bytes after it are read afresh.
pub proof fn lemma_fault_resets(waiting: bool, b: Seq<u8>)
    ensures
        frame_step(waiting, b).outcome is Err ==> frame_step(waiting, b).waiting
            && frame_step(waiting, b).consumed > 0,
        0 <= frame_step(waiting, b).consumed <= b.len(),
{
    lemma_skip_wakeups_bounds(b, 0);
}

proof fn lemma_skip_wakeups_bounds(b: Seq<u8>, i: int)
    requires
        0 <= i <= b.len(),
    ensures
        i <= skip_wakeups(b, i) <= b.len(),
    decreases b.len() - i,
{
    if i < b.len() && b[i] == WAKEUP {
        lemma_skip_wakeups_bounds(b, i + 1);
    }
}

} // verus!
