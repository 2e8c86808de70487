use bytes::BytesMut;
use nectar::codec::TelnetCodec;
use nectar::command::TelnetCommand;
use nectar::consts::{
    DO, ERASE_CHARACTER, ERASE_LINE, GO_AHEAD, IAC, NOP, SUBNEGOTIATION, SUBNEGOTIATION_END,
};
use nectar::error::TelnetError;
use nectar::event::TelnetEvent;
use nectar::option::{BINARY_TRANSMISSION, ECHO, TelnetOption};
use nectar::subnegotiation::SubnegotiationType;

#[test]
fn option_bijection_bytes() {
    for x in 0..=255u8 {
        let option = TelnetOption::from_byte(x);
        assert_eq!(option.to_byte(), x);
        assert_eq!(TelnetOption::from_byte(option.to_byte()), option);
    }
}

#[test]
fn command_bijection_bytes() {
    for x in 0..=255u8 {
        let command = TelnetCommand::from_byte(x);
        assert_eq!(command.to_byte(), x);
        assert_eq!(TelnetCommand::from_byte(command.to_byte()), command);
    }
}

#[test]
fn empty_input() {
    let mut codec = TelnetCodec::new(4096);
    let mut bytes = BytesMut::new();
    assert_eq!(codec.decode(&mut bytes), Ok(None));
}

#[test]
fn chunked_negotiation() {
    let mut codec = TelnetCodec::new(4096);
    let mut bytes = BytesMut::from(vec![IAC]);
    assert_eq!(codec.decode(&mut bytes), Ok(None));
    assert_eq!(&bytes[..], &[IAC]);

    bytes.extend_from_slice(&[DO]);
    assert_eq!(codec.decode(&mut bytes), Ok(None));
    assert_eq!(&bytes[..], &[IAC, DO]);

    bytes.extend_from_slice(&[ECHO]);
    assert_eq!(
        codec.decode(&mut bytes),
        Ok(Some(TelnetEvent::Do(TelnetOption::Echo)))
    );
    assert_eq!(bytes.len(), 0);
}

#[test]
fn chunked_subnegotiation() {
    let mut codec = TelnetCodec::new(4096);
    let mut bytes = BytesMut::from(vec![IAC, SUBNEGOTIATION, BINARY_TRANSMISSION, 1]);
    assert_eq!(codec.decode(&mut bytes), Ok(None));
    assert_eq!(&bytes[..], &[IAC, SUBNEGOTIATION, BINARY_TRANSMISSION, 1]);

    bytes.extend_from_slice(&[2, IAC, SUBNEGOTIATION_END]);
    assert_eq!(
        codec.decode(&mut bytes),
        Ok(Some(TelnetEvent::Subnegotiation(SubnegotiationType::Other(
            TelnetOption::BinaryTransmission,
            vec![1, 2],
        ))))
    );
    assert_eq!(bytes.len(), 0);
}

#[test]
fn subnegotiation_truncated_keeps_frame() {
    // The frame opens after one plain byte; a truncated frame consumes the
    // input up to its opening IAC, and the plain byte stays in the line
    // buffer, so resuming later loses nothing.
    let mut codec = TelnetCodec::new(4096);
    let mut bytes = BytesMut::from(vec![b'a', IAC, SUBNEGOTIATION, BINARY_TRANSMISSION]);
    assert_eq!(codec.decode(&mut bytes), Ok(None));
    assert_eq!(&bytes[..], &[IAC, SUBNEGOTIATION, BINARY_TRANSMISSION]);

    bytes.extend_from_slice(&[7, IAC, SUBNEGOTIATION_END, b'\n']);
    assert_eq!(
        codec.decode(&mut bytes),
        Ok(Some(TelnetEvent::Subnegotiation(SubnegotiationType::Other(
            TelnetOption::BinaryTransmission,
            vec![7],
        ))))
    );
    assert_eq!(
        codec.decode(&mut bytes),
        Ok(Some(TelnetEvent::Message(String::from("a"))))
    );
}

#[test]
fn message_round_trip() {
    let mut codec = TelnetCodec::new(4096);
    let mut wire = BytesMut::new();
    codec
        .encode(TelnetEvent::Message(String::from("Hi there")), &mut wire)
        .unwrap();
    assert_eq!(
        codec.decode(&mut wire),
        Ok(Some(TelnetEvent::Message(String::from("Hi there"))))
    );
    assert_eq!(wire.len(), 0);
}

#[test]
fn line_buffer_cap() {
    let mut codec = TelnetCodec::new(4);
    let mut bytes = BytesMut::from(b"abcdefgh\n".to_vec());
    assert_eq!(
        codec.decode(&mut bytes),
        Ok(Some(TelnetEvent::Message(String::from("abcd"))))
    );
}

#[test]
fn char_mode_character() {
    let mut codec = TelnetCodec::new(4096);
    codec.sga = true;
    let mut bytes = BytesMut::from(vec![b'h', b'i']);
    assert_eq!(codec.decode(&mut bytes), Ok(Some(TelnetEvent::Character(b'h'))));
    assert_eq!(codec.decode(&mut bytes), Ok(Some(TelnetEvent::Character(b'i'))));
    assert_eq!(codec.decode(&mut bytes), Ok(None));
}

#[test]
fn char_mode_escaped_iac() {
    let mut codec = TelnetCodec::new(4096);
    codec.sga = true;
    let mut bytes = BytesMut::from(vec![IAC, IAC]);
    assert_eq!(codec.decode(&mut bytes), Ok(Some(TelnetEvent::Character(IAC))));
}

#[test]
fn char_mode_erase_character() {
    let mut codec = TelnetCodec::new(4096);
    codec.sga = true;
    let mut bytes = BytesMut::from(vec![IAC, ERASE_CHARACTER]);
    assert_eq!(codec.decode(&mut bytes), Ok(Some(TelnetEvent::EraseCharacter)));
}

#[test]
fn char_mode_erase_line() {
    let mut codec = TelnetCodec::new(4096);
    codec.sga = true;
    let mut bytes = BytesMut::from(vec![IAC, ERASE_LINE]);
    assert_eq!(codec.decode(&mut bytes), Ok(Some(TelnetEvent::EraseLine)));
}

#[test]
fn char_mode_invalid_iac() {
    let mut codec = TelnetCodec::new(4096);
    codec.sga = true;
    let mut bytes = BytesMut::from(vec![IAC, DO, ECHO]);
    assert_eq!(codec.decode(&mut bytes), Err(TelnetError::InvalidIACSequence));
    // Both bytes of the bad pair are consumed; the stream stays aligned.
    assert_eq!(&bytes[..], &[ECHO]);
}

#[test]
fn char_mode_incomplete_iac() {
    let mut codec = TelnetCodec::new(4096);
    codec.sga = true;
    let mut bytes = BytesMut::from(vec![IAC]);
    assert_eq!(codec.decode(&mut bytes), Ok(None));
    assert_eq!(&bytes[..], &[IAC]);
}

#[test]
fn char_mode_drains_pending_line() {
    let mut codec = TelnetCodec::new(4096);
    let mut bytes = BytesMut::from(b"pend".to_vec());
    assert_eq!(codec.decode(&mut bytes), Ok(None));

    // Flipping to character-at-a-time mode drains the pending line first.
    codec.sga = true;
    let mut more = BytesMut::from(vec![b'x']);
    assert_eq!(
        codec.decode(&mut more),
        Ok(Some(TelnetEvent::Message(String::from("pend"))))
    );
    assert_eq!(codec.decode(&mut more), Ok(Some(TelnetEvent::Character(b'x'))));
}

#[test]
fn line_mode_erase_character() {
    let mut codec = TelnetCodec::new(4096);
    let mut bytes = BytesMut::from(vec![b'a', b'b', b'c', IAC, ERASE_CHARACTER, b'd', b'\n']);
    assert_eq!(
        codec.decode(&mut bytes),
        Ok(Some(TelnetEvent::Message(String::from("abd"))))
    );
}

#[test]
fn line_mode_erase_line() {
    let mut codec = TelnetCodec::new(4096);
    let mut bytes = BytesMut::from(vec![b'a', b'b', IAC, ERASE_LINE, b'd', b'\n']);
    assert_eq!(
        codec.decode(&mut bytes),
        Ok(Some(TelnetEvent::Message(String::from("d"))))
    );
}

#[test]
fn line_mode_nop_skipped() {
    let mut codec = TelnetCodec::new(4096);
    let mut bytes = BytesMut::from(vec![IAC, NOP, b'h', b'\n']);
    assert_eq!(
        codec.decode(&mut bytes),
        Ok(Some(TelnetEvent::Message(String::from("h"))))
    );
}

#[test]
fn line_mode_unknown_command_skipped() {
    let mut codec = TelnetCodec::new(4096);
    let mut bytes = BytesMut::from(vec![IAC, GO_AHEAD, b'h', b'\n']);
    assert_eq!(
        codec.decode(&mut bytes),
        Ok(Some(TelnetEvent::Message(String::from("h"))))
    );
}

#[test]
fn input_consumed_exactly() {
    let mut codec = TelnetCodec::new(4096);
    let mut bytes = BytesMut::from(b"ab\ncd".to_vec());
    assert_eq!(
        codec.decode(&mut bytes),
        Ok(Some(TelnetEvent::Message(String::from("ab"))))
    );
    assert_eq!(&bytes[..], b"cd");
}

#[test]
fn subnegotiation_escaped_payload_encode() {
    let mut codec = TelnetCodec::new(4096);
    let mut output = BytesMut::new();
    codec
        .encode(
            TelnetEvent::Subnegotiation(SubnegotiationType::Other(
                TelnetOption::Echo,
                vec![0xFF, 1],
            )),
            &mut output,
        )
        .unwrap();
    assert_eq!(
        &output[..],
        &[IAC, SUBNEGOTIATION, ECHO, 0xFF, 0xFF, 1, IAC, SUBNEGOTIATION_END],
    );
}

#[test]
fn subnegotiation_escaped_payload_round_trip() {
    let mut codec = TelnetCodec::new(4096);
    let mut wire = BytesMut::new();
    codec
        .encode(
            TelnetEvent::Subnegotiation(SubnegotiationType::Other(
                TelnetOption::Echo,
                vec![0xFF, 1],
            )),
            &mut wire,
        )
        .unwrap();
    assert_eq!(
        codec.decode(&mut wire),
        Ok(Some(TelnetEvent::Subnegotiation(SubnegotiationType::Other(
            TelnetOption::Echo,
            vec![0xFF, 1],
        ))))
    );
}

#[test]
fn message_encode_completes_cr() {
    let mut codec = TelnetCodec::new(4096);
    let mut output = BytesMut::from(vec![0x0D]);
    codec
        .encode(TelnetEvent::Message(String::new()), &mut output)
        .unwrap();
    assert_eq!(&output[..], &[0x0D, 0x0A]);
}

#[test]
fn message_encode_keeps_crlf() {
    let mut codec = TelnetCodec::new(4096);
    let mut output = BytesMut::from(vec![0x0D, 0x0A]);
    codec
        .encode(TelnetEvent::Message(String::new()), &mut output)
        .unwrap();
    assert_eq!(&output[..], &[0x0D, 0x0A]);
}

#[test]
fn nop_encode_discarded() {
    let mut codec = TelnetCodec::new(4096);
    let mut output = BytesMut::new();
    assert_eq!(codec.encode(TelnetEvent::Nop, &mut output), Ok(()));
    assert_eq!(output.len(), 0);
}

#[test]
fn event_command_byte() {
    assert_eq!(TelnetEvent::Do(TelnetOption::Echo).command_byte(), 0xFD);
    assert_eq!(TelnetEvent::Dont(TelnetOption::Echo).command_byte(), 0xFE);
    assert_eq!(TelnetEvent::Will(TelnetOption::Echo).command_byte(), 0xFB);
    assert_eq!(TelnetEvent::Wont(TelnetOption::Echo).command_byte(), 0xFC);
    assert_eq!(TelnetEvent::Message(String::from("x")).command_byte(), 0x00);
    assert_eq!(TelnetEvent::Character(b'q').command_byte(), b'q');
    assert_eq!(TelnetEvent::EraseCharacter.command_byte(), 0xF7);
    assert_eq!(TelnetEvent::EraseLine.command_byte(), 0xF8);
    assert_eq!(TelnetEvent::Nop.command_byte(), 0xF1);
}

#[test]
fn telnet_error_equality() {
    assert_eq!(
        TelnetError::InvalidSubnegotiationSequence,
        TelnetError::InvalidSubnegotiationSequence
    );
    assert_eq!(TelnetError::InvalidIACSequence, TelnetError::InvalidIACSequence);
    assert_ne!(
        TelnetError::InvalidIACSequence,
        TelnetError::InvalidSubnegotiationSequence
    );
    assert_eq!(
        TelnetError::Io(std::io::ErrorKind::NotFound),
        TelnetError::Io(std::io::ErrorKind::NotFound)
    );
    assert_ne!(
        TelnetError::Io(std::io::ErrorKind::NotFound),
        TelnetError::Io(std::io::ErrorKind::TimedOut)
    );
}
