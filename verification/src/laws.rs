//! The laws of the codec: proof functions that state, over the model of
//! [`crate::model`], how the pieces of the wire grammar fit together — the
//! option bijection, the round trips through encode and decode, and the
//! resumability of partially arrived frames.

use vstd::prelude::*;

use vstd::utf8::encode_utf8;
use vstd::utf8::encode_utf8_decode_utf8;
use vstd::utf8::encode_utf8_valid_utf8;

use crate::command::TelnetCommand;
use crate::consts::CARRIAGE_RETURN;
use crate::consts::DO;
use crate::consts::DONT;
use crate::consts::IAC;
use crate::consts::LINE_FEED;
use crate::consts::SUBNEGOTIATION;
use crate::consts::SUBNEGOTIATION_END;
use crate::consts::WILL;
use crate::consts::WONT;
use crate::model::be16;
use crate::model::decode_step;
use crate::model::encode_bytes;
use crate::model::ends_with_crlf;
use crate::model::escape_iac;
use crate::model::escape_one;
use crate::model::line_message;
use crate::model::line_scan;
use crate::model::negotiation_event;
use crate::model::subneg_scan;
use crate::model::subnegotiation_outcome;
use crate::model::subnegotiation_wire;
use crate::model::u16_high;
use crate::model::u16_low;
use crate::model::CodecModel;
use crate::model::DecodeOutput;
use crate::model::DecodeStep;
use crate::model::EventModel;
use crate::model::SubnegStep;
use crate::model::SubnegotiationModel;
use crate::option::TelnetOption;
use crate::option::NEGOTIATE_ABOUT_WINDOW_SIZE;

verus! {

/// The option table is a bijection on bytes: reading an option from a byte
/// and writing it back yields the byte, and a round trip through the byte
/// changes no option that a byte names.
pub proof fn lemma_option_bijection(byte: u8)
    ensures
        TelnetOption::spec_from_byte(byte).spec_to_byte() == byte,
        TelnetOption::spec_from_byte(TelnetOption::spec_from_byte(byte).spec_to_byte())
            == TelnetOption::spec_from_byte(byte),
{
}

/// The command table is a bijection on bytes in the same way.
pub proof fn lemma_command_bijection(byte: u8)
    ensures
        TelnetCommand::spec_from_byte(byte).spec_to_byte() == byte,
        TelnetCommand::spec_from_byte(TelnetCommand::spec_from_byte(byte).spec_to_byte())
            == TelnetCommand::spec_from_byte(byte),
{
}

/// A negotiation event round trip.  Encoding `Do`, `Dont`, `Will` or `Wont`
/// of the option a byte names appends exactly the three wire bytes, and a
/// line-mode decoder that receives them yields the event back, untouched
/// line buffer and all, however the input continues.
pub proof fn lemma_negotiation_round_trip(
    state: CodecModel,
    sink: Seq<u8>,
    command: u8,
    byte: u8,
    rest: Seq<u8>,
)
    requires
        !state.sga,
        command == DO || command == DONT || command == WILL || command == WONT,
    ensures
        encode_bytes(negotiation_event(command, TelnetOption::spec_from_byte(byte)), sink)
            == sink + seq![IAC, command, byte],
        decode_step(state, seq![IAC, command, byte] + rest) == (DecodeStep {
            buffer: state.buffer,
            rest,
            output: DecodeOutput::Event(
                negotiation_event(command, TelnetOption::spec_from_byte(byte)),
            ),
        }),
{
    lemma_option_bijection(byte);
    let input = seq![IAC, command, byte] + rest;
    assert(input[0] == IAC && input[1] == command && input[2] == byte);
    assert(input.len() >= 3);
    assert(input.skip(3) =~= rest);
}

/// A negotiation command that has not fully arrived decodes to nothing: the
/// decoder state and the input are both left exactly as they were, so the
/// remaining bytes can simply be appended and decoded later, as if the whole
/// command had arrived at once.
pub proof fn lemma_negotiation_needs_whole_command(
    state: CodecModel,
    command: u8,
    byte: u8,
    cut: int,
)
    requires
        !state.sga,
        command == DO || command == DONT || command == WILL || command == WONT,
        0 <= cut < 3,
    ensures
        decode_step(state, seq![IAC, command, byte].take(cut)) == (DecodeStep {
            buffer: state.buffer,
            rest: seq![IAC, command, byte].take(cut),
            output: DecodeOutput::Pending,
        }),
{
    let input = seq![IAC, command, byte].take(cut);
    if cut == 0 {
        assert(input.len() == 0);
    } else if cut == 1 {
        assert(input[0] == IAC);
        assert(input.len() == 1);
    } else {
        assert(input[0] == IAC && input[1] == command);
        assert(input.len() == 2);
    }
}

/// In character-at-a-time mode with no pending line, a lone IAC decodes to
/// nothing, with the decoder state and the input both left exactly as they
/// were: the pair can be completed later, as if both bytes had arrived at
/// once.
pub proof fn lemma_char_mode_needs_second_byte(state: CodecModel)
    requires
        state.sga,
        state.buffer.len() == 0,
    ensures
        decode_step(state, seq![IAC]) == (DecodeStep {
            buffer: state.buffer,
            rest: seq![IAC],
            output: DecodeOutput::Pending,
        }),
{
    assert(seq![IAC][0] == IAC);
}

/// Escaping changes nothing in a payload that holds no IAC byte.
pub proof fn lemma_escape_iac_identity(payload: Seq<u8>)
    requires
        forall|i: int| 0 <= i < payload.len() ==> payload[i] != IAC,
    ensures
        escape_iac(payload) == payload,
    decreases payload.len(),
{
    if payload.len() == 0 {
        assert(escape_iac(payload) =~= payload);
    } else {
        lemma_escape_iac_identity(payload.skip(1));
        assert(escape_iac(payload) =~= seq![payload[0]] + payload.skip(1));
        assert(seq![payload[0]] + payload.skip(1) =~= payload);
    }
}

/// A line-mode scan across plain bytes up to a final line feed: every byte
/// before the line feed joins the line buffer, and the line feed emits the
/// whole line as one message and consumes the input.
proof fn lemma_line_scan_plain_line(input: Seq<u8>, x: int, buffer: Seq<u8>, max: nat)
    requires
        0 <= x < input.len(),
        input[input.len() - 1] == LINE_FEED,
        forall|j: int|
            x <= j < input.len() - 1 ==> input[j] != IAC && input[j] != LINE_FEED,
        buffer.len() + (input.len() - 1 - x) <= max,
    ensures
        line_scan(input, x, buffer, max) == (DecodeStep {
            buffer: Seq::empty(),
            rest: input.skip(input.len() as int),
            output: DecodeOutput::Event(
                line_message(buffer + input.subrange(x, input.len() - 1)),
            ),
        }),
    decreases input.len() - x,
{
    if x == input.len() - 1 {
        assert(input[x] == LINE_FEED);
        assert(buffer + input.subrange(x, input.len() - 1) =~= buffer);
        assert(input.skip(x + 1) =~= input.skip(input.len() as int));
    } else {
        assert(input[x] != IAC && input[x] != LINE_FEED);
        assert(buffer.len() < max);
        lemma_line_scan_plain_line(input, x + 1, buffer.push(input[x]), max);
        assert(buffer.push(input[x]) + input.subrange(x + 1, input.len() - 1) =~= buffer
            + input.subrange(x, input.len() - 1));
    }
}

/// The UTF-8 bytes of a text without carriage return and line feed
/// characters hold no carriage return, no line feed, and no IAC byte: the
/// bytes of a multi-byte encoding all lie in the upper half below 0xF8, and
/// a one-byte encoding is the character itself.
proof fn lemma_encode_utf8_wire_safe(text: Seq<char>)
    requires
        forall|i: int| 0 <= i < text.len() ==> text[i] != '\n' && text[i] != '\r',
    ensures
        forall|i: int|
            0 <= i < encode_utf8(text).len() ==> #[trigger] encode_utf8(text)[i] != IAC
                && encode_utf8(text)[i] != CARRIAGE_RETURN && encode_utf8(text)[i] != LINE_FEED,
    decreases text.len(),
{
    if text.len() > 0 {
        let c = text[0] as u32;
        vstd::utf8::char_is_scalar(text[0]);
        vstd::utf8::char_u32_cast(text[0], c);
        assert(c != 0x0A && c != 0x0D) by {
            if c == 0x0A {
                assert(text[0] == (0x0Au32 as char));
                assert('\n' as u32 == 0x0A);
                vstd::utf8::char_u32_cast('\n', 0x0A);
            }
            if c == 0x0D {
                assert(text[0] == (0x0Du32 as char));
                assert('\r' as u32 == 0x0D);
                vstd::utf8::char_u32_cast('\r', 0x0D);
            }
        }
        let head = vstd::utf8::encode_scalar(c);
        assert(c <= 0x7F && c != 0x0A && c != 0x0D ==> ((c & 0x7F) as u8) != 0x0A && ((c
            & 0x7F) as u8) != 0x0D && ((c & 0x7F) as u8) != 0xFF) by (bit_vector);
        assert((0x80u8 | ((c & 0x3F) as u8)) != 0x0A && (0x80u8 | ((c & 0x3F) as u8)) != 0x0D && (
        0x80u8 | ((c & 0x3F) as u8)) != 0xFF) by (bit_vector);
        assert((0xC0u8 | (((c >> 6) & 0x1F) as u8)) != 0x0A && (0xC0u8 | (((c >> 6)
            & 0x1F) as u8)) != 0x0D && (0xC0u8 | (((c >> 6) & 0x1F) as u8)) != 0xFF)
            by (bit_vector);
        assert((0xE0u8 | (((c >> 12) & 0x0F) as u8)) != 0x0A && (0xE0u8 | (((c >> 12)
            & 0x0F) as u8)) != 0x0D && (0xE0u8 | (((c >> 12) & 0x0F) as u8)) != 0xFF)
            by (bit_vector);
        assert((0xF0u8 | (((c >> 18) & 0x7) as u8)) != 0x0A && (0xF0u8 | (((c >> 18)
            & 0x7) as u8)) != 0x0D && (0xF0u8 | (((c >> 18) & 0x7) as u8)) != 0xFF)
            by (bit_vector);
        assert((0x80u8 | (((c >> 6) & 0x3F) as u8)) != 0x0A && (0x80u8 | (((c >> 6)
            & 0x3F) as u8)) != 0x0D && (0x80u8 | (((c >> 6) & 0x3F) as u8)) != 0xFF)
            by (bit_vector);
        assert((0x80u8 | (((c >> 12) & 0x3F) as u8)) != 0x0A && (0x80u8 | (((c >> 12)
            & 0x3F) as u8)) != 0x0D && (0x80u8 | (((c >> 12) & 0x3F) as u8)) != 0xFF)
            by (bit_vector);
        assert(forall|k: int|
            0 <= k < head.len() ==> #[trigger] head[k] != 0x0A && head[k] != 0x0D && head[k]
                != 0xFF);
        let rest = text.drop_first();
        assert(forall|j: int| 0 <= j < rest.len() ==> #[trigger] rest[j] == text[j + 1]);
        lemma_encode_utf8_wire_safe(rest);
        let bytes = encode_utf8(text);
        assert(bytes == head + encode_utf8(rest));
        assert forall|i: int|
            0 <= i < bytes.len() implies #[trigger] bytes[i] != IAC && bytes[i] != CARRIAGE_RETURN
            && bytes[i] != LINE_FEED by {
            if i < head.len() {
                assert(bytes[i] == head[i]);
            } else {
                assert(bytes[i] == encode_utf8(rest)[i - head.len()]);
            }
        }
    }
}

/// The message round trip.  For a text without carriage return and line
/// feed characters whose UTF-8 form fits the line buffer, encoding the
/// message into an empty sink and decoding the result with an idle
/// line-mode decoder yields exactly one message event carrying the same
/// text, consumes the whole input, and leaves the line buffer empty.
pub proof fn lemma_message_round_trip(state: CodecModel, text: Seq<char>)
    requires
        !state.sga,
        state.buffer == Seq::<u8>::empty(),
        forall|i: int| 0 <= i < text.len() ==> text[i] != '\n' && text[i] != '\r',
        encode_utf8(text).len() <= state.max,
    ensures
        decode_step(state, encode_bytes(EventModel::Message(text), Seq::empty())) == (DecodeStep {
            buffer: Seq::<u8>::empty(),
            rest: Seq::<u8>::empty(),
            output: DecodeOutput::Event(EventModel::Message(text)),
        }),
{
    lemma_encode_utf8_wire_safe(text);
    let bytes = encode_utf8(text);
    lemma_escape_iac_identity(bytes);
    assert(Seq::<u8>::empty() + bytes =~= bytes);
    let wire = encode_bytes(EventModel::Message(text), Seq::empty());
    assert(!ends_with_crlf(bytes));
    assert(wire == bytes.push(LINE_FEED));
    assert(wire[wire.len() - 1] == LINE_FEED);
    assert(forall|j: int| 0 <= j < wire.len() - 1 ==> wire[j] == bytes[j]);
    lemma_line_scan_plain_line(wire, 0, Seq::<u8>::empty(), state.max);
    let line = Seq::<u8>::empty() + wire.subrange(0, wire.len() - 1);
    assert(line =~= bytes);
    assert(bytes.len() == 0 || bytes[bytes.len() - 1] != CARRIAGE_RETURN);
    assert(line_message(line) == EventModel::Message(crate::text::lossy_text(bytes)));
    encode_utf8_valid_utf8(text);
    encode_utf8_decode_utf8(text);
    assert(crate::text::lossy_text(bytes) == text);
    assert(wire.skip(wire.len() as int) =~= Seq::<u8>::empty());
}

/// A line-mode scan across plain bytes that never reaches a line feed: the
/// bytes all join the line buffer and the input is not advanced.
proof fn lemma_line_scan_plain_pending(input: Seq<u8>, x: int, buffer: Seq<u8>, max: nat)
    requires
        0 <= x <= input.len(),
        forall|j: int| x <= j < input.len() ==> input[j] != IAC && input[j] != LINE_FEED,
        buffer.len() + (input.len() - x) <= max,
    ensures
        line_scan(input, x, buffer, max) == (DecodeStep {
            buffer: buffer + input.skip(x),
            rest: input,
            output: DecodeOutput::Pending,
        }),
    decreases input.len() - x,
{
    if x == input.len() {
        assert(buffer + input.skip(x) =~= buffer);
    } else {
        assert(buffer.len() < max);
        lemma_line_scan_plain_pending(input, x + 1, buffer.push(input[x]), max);
        assert(buffer.push(input[x]) + input.skip(x + 1) =~= buffer + input.skip(x));
    }
}

/// A line that has not reached its line feed decodes to nothing, and its
/// bytes move into the line buffer while the input is left in place.  The
/// bytes are then held twice — once in the buffer and once in the input —
/// so a caller that owns the input must feed further bytes by appending
/// them after a completed event, not after a pending line.
pub proof fn lemma_unterminated_line_pends(state: CodecModel, input: Seq<u8>)
    requires
        !state.sga,
        forall|j: int| 0 <= j < input.len() ==> input[j] != IAC && input[j] != LINE_FEED,
        state.buffer.len() + input.len() <= state.max,
    ensures
        decode_step(state, input) == (DecodeStep {
            buffer: state.buffer + input,
            rest: input,
            output: DecodeOutput::Pending,
        }),
{
    if input.len() == 0 {
        assert(state.buffer + input =~= state.buffer);
    } else {
        lemma_line_scan_plain_pending(input, 0, state.buffer, state.max);
        assert(input.skip(0) =~= input);
    }
}

/// A subnegotiation body scan that runs out of input before the closing
/// pair ends as pending, with the input consumed up to the opening of the
/// frame.  The available bytes are a strict prefix of the escaped payload
/// followed by the closing pair.
proof fn lemma_subneg_scan_truncated(
    input: Seq<u8>,
    start: int,
    option: u8,
    i: int,
    collected: Seq<u8>,
    invalid: bool,
    payload: Seq<u8>,
)
    requires
        0 <= start <= i <= input.len(),
        input.len() - i < escape_iac(payload).len() + 2,
        input.skip(i) == (escape_iac(payload) + seq![IAC, SUBNEGOTIATION_END]).take(
            input.len() - i,
        ),
    ensures
        subneg_scan(input, start, option, i, collected, invalid) == (SubnegStep {
            rest: input.skip(start),
            output: DecodeOutput::Pending,
        }),
    decreases payload.len(),
{
    let remaining = input.len() - i;
    let full = escape_iac(payload) + seq![IAC, SUBNEGOTIATION_END];
    if remaining > 0 {
        assert(input[i] == input.skip(i)[0]);
        assert(input[i] == full[0]);
    }
    if remaining > 1 {
        assert(input[i + 1] == input.skip(i)[1]);
        assert(input[i + 1] == full[1]);
    }
    if remaining == 0 {
    } else if payload.len() == 0 {
        assert(escape_iac(payload).len() == 0);
        assert(remaining == 1);
        assert(input[i] == full[0]);
        assert(full[0] == IAC);
    } else {
        let head = payload[0];
        let tail = payload.skip(1);
        let full_tail = escape_iac(tail) + seq![IAC, SUBNEGOTIATION_END];
        assert(escape_iac(payload) == escape_one(head) + escape_iac(tail));
        assert(full =~= escape_one(head) + full_tail);
        if head == IAC {
            assert(input[i] == full[0] && full[0] == IAC);
            if remaining == 1 {
            } else {
                assert(input[i + 1] == full[1] && full[1] == IAC);
                assert(input.skip(i + 2) =~= full_tail.take(input.len() - (i + 2))) by {
                    assert forall|k: int| #![trigger input.skip(i + 2)[k]] 0 <= k < remaining - 2 implies input.skip(i + 2)[k]
                        == full_tail.take(input.len() - (i + 2))[k] by {
                        assert(input.skip(i + 2)[k] == input.skip(i)[k + 2]);
                        assert(input.skip(i)[k + 2] == full[k + 2]);
                        assert(full[k + 2] == full_tail[k]);
                    }
                }
                lemma_subneg_scan_truncated(
                    input,
                    start,
                    option,
                    i + 2,
                    collected.push(IAC),
                    invalid,
                    tail,
                );
            }
        } else {
            assert(input[i] == full[0] && full[0] == head);
            assert(input.skip(i + 1) =~= full_tail.take(input.len() - (i + 1))) by {
                assert forall|k: int| #![trigger input.skip(i + 1)[k]] 0 <= k < remaining - 1 implies input.skip(i + 1)[k]
                    == full_tail.take(input.len() - (i + 1))[k] by {
                    assert(input.skip(i + 1)[k] == input.skip(i)[k + 1]);
                    assert(input.skip(i)[k + 1] == full[k + 1]);
                    assert(full[k + 1] == full_tail[k]);
                }
            }
            lemma_subneg_scan_truncated(
                input,
                start,
                option,
                i + 1,
                collected.push(head),
                invalid,
                tail,
            );
        }
    }
}

/// A subnegotiation body scan across a whole escaped payload and its closing
/// pair: the payload bytes come back unescaped, the input is consumed
/// through the closing pair, and the frame is dispatched on its option.
proof fn lemma_subneg_scan_complete(
    input: Seq<u8>,
    start: int,
    option: u8,
    i: int,
    collected: Seq<u8>,
    payload: Seq<u8>,
)
    requires
        0 <= start <= i,
        i + escape_iac(payload).len() + 2 <= input.len(),
        input.subrange(i, i + escape_iac(payload).len()) == escape_iac(payload),
        input[i + escape_iac(payload).len()] == IAC,
        input[i + escape_iac(payload).len() + 1] == SUBNEGOTIATION_END,
    ensures
        subneg_scan(input, start, option, i, collected, false) == (SubnegStep {
            rest: input.skip(i + escape_iac(payload).len() + 2),
            output: subnegotiation_outcome(option, collected + payload),
        }),
    decreases payload.len(),
{
    let esc = escape_iac(payload);
    assert(forall|k: int| 0 <= k < esc.len() ==> input[i + k] == #[trigger] esc[k]) by {
        assert(forall|k: int|
            0 <= k < esc.len() ==> input[i + k] == #[trigger] input.subrange(
                i,
                i + esc.len(),
            )[k]);
    }
    if payload.len() == 0 {
        assert(esc.len() == 0);
        assert(input[i] == IAC && input[i + 1] == SUBNEGOTIATION_END);
        assert(collected + payload =~= collected);
    } else {
        let head = payload[0];
        let tail = payload.skip(1);
        let esc_tail = escape_iac(tail);
        assert(esc == escape_one(head) + esc_tail);
        if head == IAC {
            assert(esc[0] == IAC && esc[1] == IAC);
            assert(input[i] == IAC && input[i + 1] == IAC);
            assert(input.subrange(i + 2, i + 2 + esc_tail.len()) =~= esc_tail) by {
                assert(forall|k: int|
                    0 <= k < esc_tail.len() ==> esc[2 + k] == #[trigger] esc_tail[k]);
            }
            assert(i + 2 + esc_tail.len() == i + esc.len());
            lemma_subneg_scan_complete(input, start, option, i + 2, collected.push(IAC), tail);
            assert(collected.push(IAC) + tail =~= collected + payload);
        } else {
            assert(esc[0] == head);
            assert(input[i] == head);
            assert(input.subrange(i + 1, i + 1 + esc_tail.len()) =~= esc_tail) by {
                assert(forall|k: int|
                    0 <= k < esc_tail.len() ==> esc[1 + k] == #[trigger] esc_tail[k]);
            }
            assert(i + 1 + esc_tail.len() == i + esc.len());
            lemma_subneg_scan_complete(input, start, option, i + 1, collected.push(head), tail);
            assert(collected.push(head) + tail =~= collected + payload);
        }
    }
}

/// Encoding a subnegotiation of any option other than window size appends
/// exactly the wire form of its frame.
pub proof fn lemma_subnegotiation_encode(option: TelnetOption, payload: Seq<u8>, sink: Seq<u8>)
    ensures
        encode_bytes(
            EventModel::Subnegotiation(SubnegotiationModel::Other(option, payload)),
            sink,
        ) == sink + subnegotiation_wire(option.spec_to_byte(), payload),
{
    assert(sink + seq![IAC, SUBNEGOTIATION, option.spec_to_byte()] + escape_iac(payload)
        + seq![IAC, SUBNEGOTIATION_END] =~= sink + subnegotiation_wire(
        option.spec_to_byte(),
        payload,
    ));
}

/// A whole subnegotiation frame decodes in one call, however the input goes
/// on: the line buffer is untouched, the frame is consumed exactly, and the
/// frame is dispatched on its option byte — a window size for NAWS with a
/// four-byte payload, an error for NAWS with any other length, and the raw
/// payload for every other option.
pub proof fn lemma_subnegotiation_frame_decodes(
    state: CodecModel,
    option: u8,
    payload: Seq<u8>,
    rest: Seq<u8>,
)
    requires
        !state.sga,
    ensures
        decode_step(state, subnegotiation_wire(option, payload) + rest) == (DecodeStep {
            buffer: state.buffer,
            rest,
            output: subnegotiation_outcome(option, payload),
        }),
{
    let wire = subnegotiation_wire(option, payload);
    let input = wire + rest;
    let esc = escape_iac(payload);
    assert(input[0] == IAC && input[1] == SUBNEGOTIATION && input[2] == option);
    assert(input.len() >= 5);
    assert(SUBNEGOTIATION != IAC);
    assert(input.subrange(3, 3 + esc.len() as int) =~= esc) by {
        assert(forall|k: int| 0 <= k < esc.len() ==> input[3 + k] == #[trigger] esc[k]);
    }
    assert(input[3 + esc.len() as int] == IAC);
    assert(input[3 + esc.len() as int + 1] == SUBNEGOTIATION_END);
    lemma_subneg_scan_complete(input, 0, option, 3, Seq::empty(), payload);
    assert(Seq::<u8>::empty() + payload =~= payload);
    assert(input.skip(3 + esc.len() as int + 2) =~= rest);
}

/// A subnegotiation frame that has not fully arrived decodes to nothing,
/// with the decoder state and the input both left exactly as they were
/// (the frame here opens the input, so consuming up to its start consumes
/// nothing).  The remaining bytes of the frame can simply be appended and
/// decoded later, as if the whole frame had arrived at once.
pub proof fn lemma_subnegotiation_needs_whole_frame(
    state: CodecModel,
    option: u8,
    payload: Seq<u8>,
    cut: int,
)
    requires
        !state.sga,
        0 <= cut < subnegotiation_wire(option, payload).len(),
    ensures
        decode_step(state, subnegotiation_wire(option, payload).take(cut)) == (DecodeStep {
            buffer: state.buffer,
            rest: subnegotiation_wire(option, payload).take(cut),
            output: DecodeOutput::Pending,
        }),
{
    let wire = subnegotiation_wire(option, payload);
    let input = wire.take(cut);
    let esc = escape_iac(payload);
    assert(forall|k: int| 0 <= k < cut ==> input[k] == wire[k]);
    if cut == 0 {
    } else if cut == 1 {
        assert(input[0] == IAC);
    } else if cut == 2 {
        assert(input[0] == IAC && input[1] == SUBNEGOTIATION);
        assert(input.skip(0) =~= input);
    } else {
        assert(input[0] == IAC && input[1] == SUBNEGOTIATION && input[2] == option);
        assert(wire =~= seq![IAC, SUBNEGOTIATION, option] + (esc + seq![
            IAC,
            SUBNEGOTIATION_END,
        ]));
        assert(input.skip(3) =~= (esc + seq![IAC, SUBNEGOTIATION_END]).take(cut - 3)) by {
            assert forall|k: int| #![trigger input.skip(3)[k]] 0 <= k < cut - 3 implies input.skip(3)[k] == (esc + seq![
                IAC,
                SUBNEGOTIATION_END,
            ]).take(cut - 3)[k] by {
                assert(input.skip(3)[k] == input[3 + k]);
                assert(input[3 + k] == wire[3 + k]);
                assert(wire[3 + k] == (esc + seq![IAC, SUBNEGOTIATION_END])[k]);
            }
        }
        lemma_subneg_scan_truncated(input, 0, option, 3, Seq::empty(), false, payload);
        assert(input.skip(0) =~= input);
    }
}

/// The big-endian bytes of a 16-bit value reassemble to the value.
proof fn lemma_be16_split(value: u16)
    ensures
        be16(u16_high(value), u16_low(value)) == value,
{
    assert(((((value >> 8) as u8) as u16) << 8) | (((value & 0xFF) as u8) as u16) == value)
        by (bit_vector);
}

/// The window-size round trip.  Encoding a NAWS subnegotiation appends its
/// nine wire bytes, and — as long as none of the four size bytes is itself
/// an IAC, which the unescaped NAWS body cannot carry — a line-mode decoder
/// that receives them yields the same window size back.
pub proof fn lemma_naws_round_trip(
    state: CodecModel,
    sink: Seq<u8>,
    width: u16,
    height: u16,
    rest: Seq<u8>,
)
    requires
        !state.sga,
        u16_high(width) != IAC,
        u16_low(width) != IAC,
        u16_high(height) != IAC,
        u16_low(height) != IAC,
    ensures
        encode_bytes(
            EventModel::Subnegotiation(
                SubnegotiationModel::NegotiateAboutWindowSize(width, height),
            ),
            sink,
        ) == sink + subnegotiation_wire(
            NEGOTIATE_ABOUT_WINDOW_SIZE,
            seq![u16_high(width), u16_low(width), u16_high(height), u16_low(height)],
        ),
        decode_step(
            state,
            subnegotiation_wire(
                NEGOTIATE_ABOUT_WINDOW_SIZE,
                seq![u16_high(width), u16_low(width), u16_high(height), u16_low(height)],
            ) + rest,
        ) == (DecodeStep {
            buffer: state.buffer,
            rest,
            output: DecodeOutput::Event(
                EventModel::Subnegotiation(
                    SubnegotiationModel::NegotiateAboutWindowSize(width, height),
                ),
            ),
        }),
{
    let body = seq![u16_high(width), u16_low(width), u16_high(height), u16_low(height)];
    lemma_escape_iac_identity(body);
    assert(sink + seq![
        IAC,
        SUBNEGOTIATION,
        NEGOTIATE_ABOUT_WINDOW_SIZE,
        u16_high(width),
        u16_low(width),
        u16_high(height),
        u16_low(height),
        IAC,
        SUBNEGOTIATION_END,
    ] =~= sink + subnegotiation_wire(NEGOTIATE_ABOUT_WINDOW_SIZE, body));
    lemma_subnegotiation_frame_decodes(state, NEGOTIATE_ABOUT_WINDOW_SIZE, body, rest);
    lemma_be16_split(width);
    lemma_be16_split(height);
    assert(body[0] == u16_high(width) && body[1] == u16_low(width) && body[2] == u16_high(height)
        && body[3] == u16_low(height));
}

} // verus!
