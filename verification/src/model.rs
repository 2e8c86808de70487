//! The mathematical model of the codec: pure functions over byte sequences
//! that say exactly which bytes the encoder emits and how one decoder call
//! transforms its state, its input, and what it returns.

use vstd::prelude::*;

use vstd::utf8::encode_utf8;

use crate::consts::CARRIAGE_RETURN;
use crate::consts::DO;
use crate::consts::DONT;
use crate::consts::ERASE_CHARACTER;
use crate::consts::ERASE_LINE;
use crate::consts::IAC;
use crate::consts::LINE_FEED;
use crate::consts::SUBNEGOTIATION;
use crate::consts::SUBNEGOTIATION_END;
use crate::consts::WILL;
use crate::consts::WONT;
use crate::error::TelnetError;
use crate::option::NEGOTIATE_ABOUT_WINDOW_SIZE;
use crate::option::TelnetOption;
use crate::text::lossy_text;

verus! {

/// The mathematical value of a subnegotiation payload.
pub enum SubnegotiationModel {
    NegotiateAboutWindowSize(u16, u16),
    Other(TelnetOption, Seq<u8>),
}

/// The mathematical value of a protocol event.
pub enum EventModel {
    Do(TelnetOption),
    Dont(TelnetOption),
    Will(TelnetOption),
    Wont(TelnetOption),
    Subnegotiation(SubnegotiationModel),
    Message(Seq<char>),
    Character(u8),
    EraseCharacter,
    EraseLine,
    Nop,
}

/// The mathematical state of a decoder: its mode flag, the pending line
/// bytes, and the line buffer bound fixed at construction.
pub struct CodecModel {
    pub sga: bool,
    pub buffer: Seq<u8>,
    pub max: nat,
}

impl CodecModel {
    /// The decoder's invariant: the pending line never exceeds its bound.
    pub open spec fn wf(self) -> bool {
        self.buffer.len() <= self.max
    }
}

/// What one decode call returns: no event yet, one event, or one error.
pub enum DecodeOutput {
    Pending,
    Event(EventModel),
    Failure(TelnetError),
}

/// The complete effect of one decode call: the line buffer afterwards, the
/// input bytes left for the next call, and what the call returns.  The mode
/// flag and the buffer bound never change.
pub struct DecodeStep {
    pub buffer: Seq<u8>,
    pub rest: Seq<u8>,
    pub output: DecodeOutput,
}

/// The effect of scanning a subnegotiation frame: the input left afterwards
/// and what the call returns.  The line buffer is untouched by the frame.
pub struct SubnegStep {
    pub rest: Seq<u8>,
    pub output: DecodeOutput,
}

/// The big-endian 16-bit value of two bytes.
pub open spec fn be16(high: u8, low: u8) -> u16 {
    ((high as u16) << 8) | (low as u16)
}

/// The high byte of a 16-bit value written big-endian.
pub open spec fn u16_high(value: u16) -> u8 {
    (value >> 8) as u8
}

/// The low byte of a 16-bit value written big-endian.
pub open spec fn u16_low(value: u16) -> u8 {
    (value & 0xFF) as u8
}

/// A line buffer after one more payload byte: appended while the buffer is
/// below its bound, dropped once it is full.
pub open spec fn clipped_push(buffer: Seq<u8>, max: nat, byte: u8) -> Seq<u8> {
    if buffer.len() < max {
        buffer.push(byte)
    } else {
        buffer
    }
}

/// The negotiation event that a command byte selects.
pub open spec fn negotiation_event(command: u8, option: TelnetOption) -> EventModel
    recommends
        command == DO || command == DONT || command == WILL || command == WONT,
{
    if command == DO {
        EventModel::Do(option)
    } else if command == DONT {
        EventModel::Dont(option)
    } else if command == WILL {
        EventModel::Will(option)
    } else {
        EventModel::Wont(option)
    }
}

/// What a well-terminated subnegotiation frame without invalid escapes
/// yields: a window size for NAWS, which demands exactly four payload bytes,
/// and the raw payload for every other option.
pub open spec fn subnegotiation_outcome(option: u8, payload: Seq<u8>) -> DecodeOutput {
    if option == NEGOTIATE_ABOUT_WINDOW_SIZE {
        if payload.len() == 4 {
            DecodeOutput::Event(
                EventModel::Subnegotiation(
                    SubnegotiationModel::NegotiateAboutWindowSize(
                        be16(payload[0], payload[1]),
                        be16(payload[2], payload[3]),
                    ),
                ),
            )
        } else {
            DecodeOutput::Failure(TelnetError::InvalidSubnegotiationSequence)
        }
    } else {
        DecodeOutput::Event(
            EventModel::Subnegotiation(
                SubnegotiationModel::Other(TelnetOption::spec_from_byte(option), payload),
            ),
        )
    }
}

/// The scan of a subnegotiation frame body, from position `i`, with the
/// payload collected so far and a flag for an invalid escape already seen.
/// The frame opened at `start`; a truncated frame consumes the input up to
/// `start` so that the whole frame is retried once more bytes arrive.
pub open spec fn subneg_scan(
    input: Seq<u8>,
    start: int,
    option: u8,
    i: int,
    payload: Seq<u8>,
    invalid: bool,
) -> SubnegStep
    decreases input.len() - i,
{
    if i >= input.len() {
        SubnegStep { rest: input.skip(start), output: DecodeOutput::Pending }
    } else {
        let byte = input[i];
        if byte == IAC {
            if i + 1 >= input.len() {
                SubnegStep { rest: input.skip(start), output: DecodeOutput::Pending }
            } else {
                let next = input[i + 1];
                if next == SUBNEGOTIATION_END {
                    SubnegStep {
                        rest: input.skip(i + 2),
                        output: if invalid {
                            DecodeOutput::Failure(TelnetError::InvalidSubnegotiationSequence)
                        } else {
                            subnegotiation_outcome(option, payload)
                        },
                    }
                } else if next == IAC {
                    subneg_scan(input, start, option, i + 2, payload.push(IAC), invalid)
                } else {
                    subneg_scan(input, start, option, i + 2, payload, true)
                }
            }
        } else {
            subneg_scan(input, start, option, i + 1, payload.push(byte), invalid)
        }
    }
}

/// The text of a finished line: a trailing carriage return is dropped, and
/// the rest is decoded as UTF-8 with invalid sequences replaced.
pub open spec fn line_message(buffer: Seq<u8>) -> EventModel {
    let line = if buffer.len() > 0 && buffer[buffer.len() - 1] == CARRIAGE_RETURN {
        buffer.drop_last()
    } else {
        buffer
    };
    EventModel::Message(lossy_text(line))
}

/// The line-mode scan from position `x` with the line buffer `buffer`.
/// Plain bytes join the buffer (up to its bound); a line feed finishes the
/// line; IAC opens a command, a negotiation, or a subnegotiation frame.  An
/// IAC followed by an unrecognised command byte is skipped silently, like a
/// no-operation.
pub open spec fn line_scan(input: Seq<u8>, x: int, buffer: Seq<u8>, max: nat) -> DecodeStep
    decreases input.len() - x,
{
    if x >= input.len() {
        DecodeStep { buffer, rest: input, output: DecodeOutput::Pending }
    } else {
        let byte = input[x];
        if byte == LINE_FEED {
            DecodeStep {
                buffer: Seq::empty(),
                rest: input.skip(x + 1),
                output: DecodeOutput::Event(line_message(buffer)),
            }
        } else if byte == IAC {
            if x + 1 >= input.len() {
                DecodeStep { buffer, rest: input, output: DecodeOutput::Pending }
            } else {
                let command = input[x + 1];
                if command == ERASE_LINE {
                    line_scan(input, x + 2, Seq::empty(), max)
                } else if command == ERASE_CHARACTER {
                    line_scan(
                        input,
                        x + 2,
                        if buffer.len() > 0 {
                            buffer.drop_last()
                        } else {
                            buffer
                        },
                        max,
                    )
                } else if command == IAC {
                    line_scan(input, x + 2, clipped_push(buffer, max, IAC), max)
                } else if command == DO || command == DONT || command == WILL || command == WONT {
                    if x + 2 >= input.len() {
                        DecodeStep { buffer, rest: input, output: DecodeOutput::Pending }
                    } else {
                        DecodeStep {
                            buffer,
                            rest: input.skip(x + 3),
                            output: DecodeOutput::Event(
                                negotiation_event(
                                    command,
                                    TelnetOption::spec_from_byte(input[x + 2]),
                                ),
                            ),
                        }
                    }
                } else if command == SUBNEGOTIATION {
                    if x + 2 >= input.len() {
                        DecodeStep {
                            buffer,
                            rest: input.skip(x),
                            output: DecodeOutput::Pending,
                        }
                    } else {
                        let step = subneg_scan(
                            input,
                            x,
                            input[x + 2],
                            x + 3,
                            Seq::empty(),
                            false,
                        );
                        DecodeStep { buffer, rest: step.rest, output: step.output }
                    }
                } else {
                    // No-operation and every unrecognised command byte alike:
                    // both bytes are skipped and the scan goes on.
                    line_scan(input, x + 2, buffer, max)
                }
            }
        } else {
            line_scan(input, x + 1, clipped_push(buffer, max, byte), max)
        }
    }
}

/// One decode call in character-at-a-time mode with an empty line buffer and
/// a non-empty input.
pub open spec fn char_mode_step(buffer: Seq<u8>, input: Seq<u8>) -> DecodeStep
    recommends
        input.len() > 0,
{
    let byte = input[0];
    if byte != IAC {
        DecodeStep {
            buffer,
            rest: input.skip(1),
            output: DecodeOutput::Event(EventModel::Character(byte)),
        }
    } else if input.len() == 1 {
        DecodeStep { buffer, rest: input, output: DecodeOutput::Pending }
    } else {
        let next = input[1];
        if next == IAC {
            DecodeStep {
                buffer,
                rest: input.skip(2),
                output: DecodeOutput::Event(EventModel::Character(IAC)),
            }
        } else if next == ERASE_CHARACTER {
            DecodeStep {
                buffer,
                rest: input.skip(2),
                output: DecodeOutput::Event(EventModel::EraseCharacter),
            }
        } else if next == ERASE_LINE {
            DecodeStep {
                buffer,
                rest: input.skip(2),
                output: DecodeOutput::Event(EventModel::EraseLine),
            }
        } else {
            DecodeStep {
                buffer,
                rest: input.skip(2),
                output: DecodeOutput::Failure(TelnetError::InvalidIACSequence),
            }
        }
    }
}

/// The complete effect of one decode call on a decoder in state `state` with
/// input `input`.  In character-at-a-time mode a pending line is first
/// drained as one message; an empty input never yields an event; otherwise
/// the mode flag selects the character step or the line scan.
pub open spec fn decode_step(state: CodecModel, input: Seq<u8>) -> DecodeStep {
    if state.sga && state.buffer.len() > 0 {
        DecodeStep {
            buffer: Seq::empty(),
            rest: input,
            output: DecodeOutput::Event(EventModel::Message(lossy_text(state.buffer))),
        }
    } else if input.len() == 0 {
        DecodeStep { buffer: state.buffer, rest: input, output: DecodeOutput::Pending }
    } else if state.sga {
        char_mode_step(state.buffer, input)
    } else {
        line_scan(input, 0, state.buffer, state.max)
    }
}

/// A payload with every IAC byte doubled, the in-band escape of the wire
/// grammar.
pub open spec fn escape_iac(payload: Seq<u8>) -> Seq<u8>
    decreases payload.len(),
{
    if payload.len() == 0 {
        Seq::empty()
    } else {
        escape_one(payload[0]) + escape_iac(payload.skip(1))
    }
}

/// True when a byte sequence ends with a carriage return and line feed.
pub open spec fn ends_with_crlf(sink: Seq<u8>) -> bool {
    sink.len() >= 2 && sink[sink.len() - 2] == CARRIAGE_RETURN && sink[sink.len() - 1] == LINE_FEED
}

/// A sink completed to a terminated line: left alone when it already ends
/// with a carriage return and line feed, otherwise finished with a line
/// feed (which completes a trailing carriage return to the full pair).
pub open spec fn ensure_line_terminator(sink: Seq<u8>) -> Seq<u8> {
    if ends_with_crlf(sink) {
        sink
    } else {
        sink.push(LINE_FEED)
    }
}

/// The bytes that encoding one event appends to a sink.  Negotiation
/// commands are three bytes; a NAWS subnegotiation writes the two sizes
/// big-endian and unescaped; any other subnegotiation escapes its payload;
/// a message writes its UTF-8 bytes escaped and terminates the line; every
/// other event is discarded.
pub open spec fn encode_bytes(event: EventModel, sink: Seq<u8>) -> Seq<u8> {
    match event {
        EventModel::Do(option) => sink + seq![IAC, DO, option.spec_to_byte()],
        EventModel::Dont(option) => sink + seq![IAC, DONT, option.spec_to_byte()],
        EventModel::Will(option) => sink + seq![IAC, WILL, option.spec_to_byte()],
        EventModel::Wont(option) => sink + seq![IAC, WONT, option.spec_to_byte()],
        EventModel::Subnegotiation(SubnegotiationModel::NegotiateAboutWindowSize(width, height)) => (
            sink + seq![
                IAC,
                SUBNEGOTIATION,
                NEGOTIATE_ABOUT_WINDOW_SIZE,
                u16_high(width),
                u16_low(width),
                u16_high(height),
                u16_low(height),
                IAC,
                SUBNEGOTIATION_END,
            ]
        ),
        EventModel::Subnegotiation(SubnegotiationModel::Other(option, payload)) => (
            sink + seq![IAC, SUBNEGOTIATION, option.spec_to_byte()] + escape_iac(payload)
                + seq![IAC, SUBNEGOTIATION_END]
        ),
        EventModel::Message(text) => ensure_line_terminator(sink + escape_iac(encode_utf8(text))),
        EventModel::Character(_) => sink,
        EventModel::EraseCharacter => sink,
        EventModel::EraseLine => sink,
        EventModel::Nop => sink,
    }
}

/// The wire form of a subnegotiation frame: the frame header, the escaped
/// payload, and the closing pair.
pub open spec fn subnegotiation_wire(option: u8, payload: Seq<u8>) -> Seq<u8> {
    seq![IAC, SUBNEGOTIATION, option] + escape_iac(payload) + seq![IAC, SUBNEGOTIATION_END]
}

/// The escape of one byte: an IAC doubles, every other byte stands alone.
pub open spec fn escape_one(byte: u8) -> Seq<u8> {
    if byte == IAC {
        seq![IAC, IAC]
    } else {
        seq![byte]
    }
}

/// Taking one more payload byte extends the escaped form by that byte's
/// escape.
pub proof fn lemma_escape_iac_take_step(payload: Seq<u8>, i: int)
    requires
        0 <= i < payload.len(),
    ensures
        escape_iac(payload.take(i + 1)) == escape_iac(payload.take(i)) + escape_one(payload[i]),
    decreases i,
{
    if i == 0 {
        assert(payload.take(0) =~= Seq::<u8>::empty());
        assert(payload.take(1).skip(1) =~= Seq::<u8>::empty());
        assert(payload.take(1)[0] == payload[0]);
        assert(escape_iac(payload.take(1)) == escape_one(payload[0]) + escape_iac(
            Seq::<u8>::empty(),
        ));
        assert(escape_one(payload[0]) + Seq::<u8>::empty() =~= escape_one(payload[0]));
        assert(escape_iac(payload.take(0)) + escape_one(payload[0]) =~= escape_one(payload[0]));
    } else {
        let tail = payload.skip(1);
        lemma_escape_iac_take_step(tail, i - 1);
        assert(payload.take(i + 1).skip(1) =~= tail.take(i));
        assert(payload.take(i).skip(1) =~= tail.take(i - 1));
        assert(payload.take(i + 1)[0] == payload[0]);
        assert(payload.take(i)[0] == payload[0]);
        assert(tail[i - 1] == payload[i]);
        assert(escape_iac(payload.take(i + 1)) == escape_one(payload[0]) + escape_iac(tail.take(i)));
        assert(escape_iac(payload.take(i)) == escape_one(payload[0]) + escape_iac(tail.take(i - 1)));
        assert(escape_one(payload[0]) + (escape_iac(tail.take(i - 1)) + escape_one(payload[i]))
            =~= (escape_one(payload[0]) + escape_iac(tail.take(i - 1))) + escape_one(payload[i]));
    }
}

} // verus!
