//! The codec itself: a stateless encoder and a resumable, stateful decoder,
//! both verified against the pure model in [`crate::model`].

use vstd::prelude::*;

use vstd::string::StrSliceExecFns;

use crate::bytes_buf::buffer_advance;
use crate::bytes_buf::buffer_get;
use crate::bytes_buf::buffer_len;
use crate::bytes_buf::buffer_put;
use crate::bytes_buf::buffer_put_u16_be;
use crate::bytes_buf::bytes_of;
use crate::consts::CARRIAGE_RETURN;
use crate::consts::DO;
use crate::consts::DONT;
use crate::consts::ERASE_CHARACTER;
use crate::consts::ERASE_LINE;
use crate::consts::IAC;
use crate::consts::LINE_FEED;
use crate::consts::SUBNEGOTIATION;
use crate::consts::SUBNEGOTIATION_END;
use crate::consts::WILL;
use crate::consts::WONT;
use crate::error::TelnetError;
use crate::event::TelnetEvent;
use crate::model::decode_step;
use crate::model::encode_bytes;
use crate::model::escape_iac;
use crate::model::lemma_escape_iac_take_step;
use crate::model::line_scan;
use crate::model::subneg_scan;
use crate::model::CodecModel;
use crate::model::DecodeOutput;
use crate::option::TelnetOption;
use crate::option::NEGOTIATE_ABOUT_WINDOW_SIZE;
use crate::subnegotiation::SubnegotiationType;
use crate::text::utf8_lossy;

verus! {

/// The telnet codec: a mode flag, a bounded line buffer, and the bound fixed
/// at construction.  The owner flips `sga` between calls to switch the
/// decoder between line mode and character-at-a-time mode.
pub struct TelnetCodec {
    pub sga: bool,
    max_buffer_length: usize,
    buffer: Vec<u8>,
}

impl View for TelnetCodec {
    type V = CodecModel;

    closed spec fn view(&self) -> CodecModel {
        CodecModel {
            sga: self.sga,
            buffer: self.buffer@,
            max: self.max_buffer_length as nat,
        }
    }
}

impl TelnetCodec {
    /// A fresh decoder in line mode with an empty line buffer.
    pub fn new(max_buffer_length: usize) -> (codec: TelnetCodec)
        ensures
            codec@ == (CodecModel {
                sga: false,
                buffer: Seq::<u8>::empty(),
                max: max_buffer_length as nat,
            }),
            codec@.wf(),
    {
        TelnetCodec { sga: false, max_buffer_length, buffer: Vec::new() }
    }

    /// Serialise one event onto the end of `buf`, exactly as `encode_bytes`
    /// describes.  Encoding never fails and never touches the codec state.
    pub fn encode(&mut self, event: TelnetEvent, buf: &mut bytes::BytesMut) -> (result: Result<
        (),
        TelnetError,
    >)
        ensures
            *final(self) == *old(self),
            bytes_of(*final(buf)) == encode_bytes(event@, bytes_of(*old(buf))),
            result is Ok,
    {
        let ghost sink0 = bytes_of(*buf);
        match &event {
            TelnetEvent::Do(option) => {
                buffer_put(buf, IAC);
                buffer_put(buf, DO);
                buffer_put(buf, option.to_byte());
                proof {
                    assert(bytes_of(*buf) =~= encode_bytes(event@, sink0));
                }
            },
            TelnetEvent::Dont(option) => {
                buffer_put(buf, IAC);
                buffer_put(buf, DONT);
                buffer_put(buf, option.to_byte());
                proof {
                    assert(bytes_of(*buf) =~= encode_bytes(event@, sink0));
                }
            },
            TelnetEvent::Will(option) => {
                buffer_put(buf, IAC);
                buffer_put(buf, WILL);
                buffer_put(buf, option.to_byte());
                proof {
                    assert(bytes_of(*buf) =~= encode_bytes(event@, sink0));
                }
            },
            TelnetEvent::Wont(option) => {
                buffer_put(buf, IAC);
                buffer_put(buf, WONT);
                buffer_put(buf, option.to_byte());
                proof {
                    assert(bytes_of(*buf) =~= encode_bytes(event@, sink0));
                }
            },
            TelnetEvent::Subnegotiation(SubnegotiationType::NegotiateAboutWindowSize(
                width,
                height,
            )) => {
                buffer_put(buf, IAC);
                buffer_put(buf, SUBNEGOTIATION);
                buffer_put(buf, NEGOTIATE_ABOUT_WINDOW_SIZE);
                buffer_put_u16_be(buf, *width);
                buffer_put_u16_be(buf, *height);
                buffer_put(buf, IAC);
                buffer_put(buf, SUBNEGOTIATION_END);
                proof {
                    assert(bytes_of(*buf) =~= encode_bytes(event@, sink0));
                }
            },
            TelnetEvent::Subnegotiation(SubnegotiationType::Other(option, payload)) => {
                buffer_put(buf, IAC);
                buffer_put(buf, SUBNEGOTIATION);
                buffer_put(buf, option.to_byte());
                let ghost header = bytes_of(*buf);
                let length: usize = payload.len();
                let mut i: usize = 0;
                while i < length
                    invariant
                        i <= length,
                        length == payload@.len(),
                        bytes_of(*buf) == header + escape_iac(payload@.take(i as int)),
                    decreases length - i,
                {
                    let byte = payload[i];
                    proof {
                        lemma_escape_iac_take_step(payload@, i as int);
                    }
                    if byte == IAC {
                        buffer_put(buf, IAC);
                        buffer_put(buf, IAC);
                    } else {
                        buffer_put(buf, byte);
                    }
                    proof {
                        assert(bytes_of(*buf) =~= header + escape_iac(
                            payload@.take(i as int + 1),
                        ));
                    }
                    i += 1;
                }
                proof {
                    assert(payload@.take(length as int) =~= payload@);
                }
                buffer_put(buf, IAC);
                buffer_put(buf, SUBNEGOTIATION_END);
                proof {
                    assert(bytes_of(*buf) =~= encode_bytes(event@, sink0));
                }
            },
            TelnetEvent::Message(message) => {
                let bytes = message.as_str().as_bytes_vec();
                let length: usize = bytes.len();
                let mut i: usize = 0;
                while i < length
                    invariant
                        i <= length,
                        length == bytes@.len(),
                        bytes_of(*buf) == sink0 + escape_iac(bytes@.take(i as int)),
                    decreases length - i,
                {
                    let byte = bytes[i];
                    proof {
                        lemma_escape_iac_take_step(bytes@, i as int);
                    }
                    if byte == IAC {
                        buffer_put(buf, IAC);
                        buffer_put(buf, IAC);
                    } else {
                        buffer_put(buf, byte);
                    }
                    proof {
                        assert(bytes_of(*buf) =~= sink0 + escape_iac(bytes@.take(i as int + 1)));
                    }
                    i += 1;
                }
                proof {
                    assert(bytes@.take(length as int) =~= bytes@);
                }
                let written: usize = buffer_len(buf);
                let terminated: bool = if written >= 2 {
                    buffer_get(buf, written - 2) == CARRIAGE_RETURN && buffer_get(
                        buf,
                        written - 1,
                    ) == LINE_FEED
                } else {
                    false
                };
                if !terminated {
                    buffer_put(buf, LINE_FEED);
                }
                proof {
                    assert(bytes_of(*buf) =~= encode_bytes(event@, sink0));
                }
            },
            _ => {
                // A character, an editing signal or a no-operation is never
                // put on the wire; the event is discarded.
            },
        }
        Ok(())
    }

    /// Consume a prefix of `src` and return at most one event, exactly as
    /// `decode_step` describes.  On `Ok(None)` more input is needed; the
    /// call has left the input so that feeding more bytes makes progress.
    /// Every emitted message fits the line buffer bound.
    pub fn decode(&mut self, src: &mut bytes::BytesMut) -> (result: Result<
        Option<TelnetEvent>,
        TelnetError,
    >)
        requires
            old(self)@.wf(),
        ensures
            final(self)@.sga == old(self)@.sga,
            final(self)@.max == old(self)@.max,
            final(self)@.wf(),
            ({
                let step = decode_step(old(self)@, bytes_of(*old(src)));
                &&& final(self)@.buffer == step.buffer
                &&& bytes_of(*final(src)) == step.rest
                &&& match result {
                    Ok(Some(event)) => step.output == DecodeOutput::Event(event@),
                    Ok(None) => step.output == DecodeOutput::Pending,
                    Err(error) => step.output == DecodeOutput::Failure(error),
                }
            }),
            (match result {
                Ok(Some(TelnetEvent::Message(message))) => message@.len() <= old(self)@.max,
                _ => true,
            }),
    {
        let ghost state0 = self@;
        let ghost input0 = bytes_of(*src);

        if self.sga && self.buffer.len() > 0 {
            // Entering character-at-a-time mode drains the pending line as
            // one message before any new byte is examined.
            let text = utf8_lossy(&self.buffer);
            self.buffer.clear();
            return Ok(Some(TelnetEvent::Message(text)));
        }

        let len: usize = buffer_len(src);
        if len == 0 {
            return Ok(None);
        }

        if self.sga {
            let byte = buffer_get(src, 0);
            if byte != IAC {
                buffer_advance(src, 1);
                return Ok(Some(TelnetEvent::Character(byte)));
            }
            if len == 1 {
                return Ok(None);
            }
            let next = buffer_get(src, 1);
            if next == IAC {
                buffer_advance(src, 2);
                return Ok(Some(TelnetEvent::Character(IAC)));
            } else if next == ERASE_CHARACTER {
                buffer_advance(src, 2);
                return Ok(Some(TelnetEvent::EraseCharacter));
            } else if next == ERASE_LINE {
                buffer_advance(src, 2);
                return Ok(Some(TelnetEvent::EraseLine));
            } else {
                buffer_advance(src, 2);
                return Err(TelnetError::InvalidIACSequence);
            }
        }

        let max: usize = self.max_buffer_length;
        let mut x: usize = 0;
        loop
            invariant
                state0 == old(self)@,
                input0 == bytes_of(*old(src)),
                !state0.sga,
                state0.max == max as nat,
                self.sga == state0.sga,
                self.max_buffer_length == max,
                bytes_of(*src) == input0,
                len == input0.len(),
                0 < len,
                x <= len,
                self.buffer@.len() <= max,
                line_scan(input0, x as int, self.buffer@, state0.max) == line_scan(
                    input0,
                    0,
                    state0.buffer,
                    state0.max,
                ),
            decreases len - x,
        {
            if x >= len {
                return Ok(None);
            }
            let byte = buffer_get(src, x);
            if byte == LINE_FEED {
                // The line is finished: drop a trailing carriage return,
                // decode the buffer, and consume the scanned prefix.
                if self.buffer.len() > 0 && self.buffer[self.buffer.len() - 1]
                    == CARRIAGE_RETURN {
                    let _ = self.buffer.pop();
                }
                let text = utf8_lossy(&self.buffer);
                self.buffer.clear();
                buffer_advance(src, x + 1);
                return Ok(Some(TelnetEvent::Message(text)));
            } else if byte == IAC {
                if x + 1 >= len {
                    return Ok(None);
                }
                let command = buffer_get(src, x + 1);
                if command == ERASE_LINE {
                    self.buffer.clear();
                    x += 2;
                } else if command == ERASE_CHARACTER {
                    let _ = self.buffer.pop();
                    x += 2;
                } else if command == IAC {
                    if self.buffer.len() < max {
                        self.buffer.push(IAC);
                    }
                    x += 2;
                } else if command == DO || command == DONT || command == WILL || command == WONT {
                    if x + 2 >= len {
                        return Ok(None);
                    }
                    let option = TelnetOption::from_byte(buffer_get(src, x + 2));
                    buffer_advance(src, x + 3);
                    let event = if command == DO {
                        TelnetEvent::Do(option)
                    } else if command == DONT {
                        TelnetEvent::Dont(option)
                    } else if command == WILL {
                        TelnetEvent::Will(option)
                    } else {
                        TelnetEvent::Wont(option)
                    };
                    return Ok(Some(event));
                } else if command == SUBNEGOTIATION {
                    if x + 2 >= len {
                        // The frame is not even complete to its option byte:
                        // consume what stood before it and wait for more.
                        buffer_advance(src, x);
                        return Ok(None);
                    }
                    let option_byte = buffer_get(src, x + 2);
                    return finish_subnegotiation(src, x, option_byte);
                } else {
                    // A no-operation, and every unrecognised command byte
                    // alike: skip both bytes and keep scanning.
                    x += 2;
                }
            } else {
                if self.buffer.len() < max {
                    self.buffer.push(byte);
                }
                x += 1;
            }
        }
    }
}

/// Scan the body of a subnegotiation frame whose opening IAC stands at
/// `start` and whose option byte stands at `start + 2`, exactly as
/// `subneg_scan` describes.  A truncated frame consumes the input up to
/// `start` so that the whole frame is retried once more bytes arrive; a
/// terminated frame is consumed in full, whether it parses or not.
fn finish_subnegotiation(src: &mut bytes::BytesMut, start: usize, option: u8) -> (result: Result<
    Option<TelnetEvent>,
    TelnetError,
>)
    requires
        start + 3 <= bytes_of(*old(src)).len(),
    ensures
        ({
            let step = subneg_scan(
                bytes_of(*old(src)),
                start as int,
                option,
                start as int + 3,
                Seq::empty(),
                false,
            );
            &&& bytes_of(*final(src)) == step.rest
            &&& match result {
                Ok(Some(event)) => step.output == DecodeOutput::Event(event@),
                Ok(None) => step.output == DecodeOutput::Pending,
                Err(error) => step.output == DecodeOutput::Failure(error),
            }
        }),
        (match result {
            Ok(Some(event)) => event is Subnegotiation,
            _ => true,
        }),
{
    let ghost input0 = bytes_of(*src);
    let len: usize = buffer_len(src);
    let mut i: usize = start + 3;
    let mut payload: Vec<u8> = Vec::new();
    let mut invalid = false;
    loop
        invariant
            input0 == bytes_of(*old(src)),
            bytes_of(*src) == input0,
            len == input0.len(),
            start + 3 <= i,
            i <= len,
            subneg_scan(input0, start as int, option, i as int, payload@, invalid) == subneg_scan(
                input0,
                start as int,
                option,
                start as int + 3,
                Seq::empty(),
                false,
            ),
        decreases len - i,
    {
        if i >= len {
            buffer_advance(src, start);
            return Ok(None);
        }
        let byte = buffer_get(src, i);
        if byte == IAC {
            if i + 1 >= len {
                buffer_advance(src, start);
                return Ok(None);
            }
            let next = buffer_get(src, i + 1);
            if next == SUBNEGOTIATION_END {
                buffer_advance(src, i + 2);
                if invalid {
                    return Err(TelnetError::InvalidSubnegotiationSequence);
                }
                if option == NEGOTIATE_ABOUT_WINDOW_SIZE {
                    if payload.len() == 4 {
                        let width = ((payload[0] as u16) << 8) | (payload[1] as u16);
                        let height = ((payload[2] as u16) << 8) | (payload[3] as u16);
                        return Ok(Some(TelnetEvent::Subnegotiation(
                            SubnegotiationType::NegotiateAboutWindowSize(width, height),
                        )));
                    }
                    return Err(TelnetError::InvalidSubnegotiationSequence);
                }
                return Ok(Some(TelnetEvent::Subnegotiation(
                    SubnegotiationType::Other(TelnetOption::from_byte(option), payload),
                )));
            } else if next == IAC {
                payload.push(IAC);
                i += 2;
            } else {
                invalid = true;
                i += 2;
            }
        } else {
            payload.push(byte);
            i += 1;
        }
    }
}

} // verus!
