use vstd::prelude::*;

use crate::consts::ABORT;
use crate::consts::ARE_YOU_THERE;
use crate::consts::BREAK;
use crate::consts::DATA_MARK;
use crate::consts::DO;
use crate::consts::DONT;
use crate::consts::ERASE_CHARACTER;
use crate::consts::ERASE_LINE;
use crate::consts::GO_AHEAD;
use crate::consts::IAC;
use crate::consts::INTERRUPT_PROCESS;
use crate::consts::NOP;
use crate::consts::SUBNEGOTIATION;
use crate::consts::SUBNEGOTIATION_END;
use crate::consts::WILL;
use crate::consts::WONT;

verus! {

/// A telnet command: one named variant for each command byte of RFC 854, and
/// `Other` for every remaining byte.
#[derive(Clone, Copy, PartialEq, Eq, Structural, Debug)]
pub enum TelnetCommand {
    SubnegotiationEnd,
    NOP,
    DataMark,
    Break,
    InterruptProcess,
    Abort,
    AreYouThere,
    EraseCharacter,
    EraseLine,
    GoAhead,
    Subnegotiation,
    WILL,
    WONT,
    DO,
    DONT,
    IAC,
    Other(u8),
}

impl TelnetCommand {
    /// The command named by a byte; bytes below the command range map to
    /// `Other`.
    pub open spec fn spec_from_byte(byte: u8) -> TelnetCommand {
        if byte == SUBNEGOTIATION_END {
            TelnetCommand::SubnegotiationEnd
        } else if byte == NOP {
            TelnetCommand::NOP
        } else if byte == DATA_MARK {
            TelnetCommand::DataMark
        } else if byte == BREAK {
            TelnetCommand::Break
        } else if byte == INTERRUPT_PROCESS {
            TelnetCommand::InterruptProcess
        } else if byte == ABORT {
            TelnetCommand::Abort
        } else if byte == ARE_YOU_THERE {
            TelnetCommand::AreYouThere
        } else if byte == ERASE_CHARACTER {
            TelnetCommand::EraseCharacter
        } else if byte == ERASE_LINE {
            TelnetCommand::EraseLine
        } else if byte == GO_AHEAD {
            TelnetCommand::GoAhead
        } else if byte == SUBNEGOTIATION {
            TelnetCommand::Subnegotiation
        } else if byte == WILL {
            TelnetCommand::WILL
        } else if byte == WONT {
            TelnetCommand::WONT
        } else if byte == DO {
            TelnetCommand::DO
        } else if byte == DONT {
            TelnetCommand::DONT
        } else if byte == IAC {
            TelnetCommand::IAC
        } else {
            TelnetCommand::Other(byte)
        }
    }

    /// The byte that names a command on the wire.
    pub open spec fn spec_to_byte(self) -> u8 {
        match self {
            TelnetCommand::SubnegotiationEnd => SUBNEGOTIATION_END,
            TelnetCommand::NOP => NOP,
            TelnetCommand::DataMark => DATA_MARK,
            TelnetCommand::Break => BREAK,
            TelnetCommand::InterruptProcess => INTERRUPT_PROCESS,
            TelnetCommand::Abort => ABORT,
            TelnetCommand::AreYouThere => ARE_YOU_THERE,
            TelnetCommand::EraseCharacter => ERASE_CHARACTER,
            TelnetCommand::EraseLine => ERASE_LINE,
            TelnetCommand::GoAhead => GO_AHEAD,
            TelnetCommand::Subnegotiation => SUBNEGOTIATION,
            TelnetCommand::WILL => WILL,
            TelnetCommand::WONT => WONT,
            TelnetCommand::DO => DO,
            TelnetCommand::DONT => DONT,
            TelnetCommand::IAC => IAC,
            TelnetCommand::Other(byte) => byte,
        }
    }

    /// Total map from a byte to its command.
    pub fn from_byte(byte: u8) -> (command: TelnetCommand)
        ensures
            command == TelnetCommand::spec_from_byte(byte),
    {
        if byte == SUBNEGOTIATION_END {
            TelnetCommand::SubnegotiationEnd
        } else if byte == NOP {
            TelnetCommand::NOP
        } else if byte == DATA_MARK {
            TelnetCommand::DataMark
        } else if byte == BREAK {
            TelnetCommand::Break
        } else if byte == INTERRUPT_PROCESS {
            TelnetCommand::InterruptProcess
        } else if byte == ABORT {
            TelnetCommand::Abort
        } else if byte == ARE_YOU_THERE {
            TelnetCommand::AreYouThere
        } else if byte == ERASE_CHARACTER {
            TelnetCommand::EraseCharacter
        } else if byte == ERASE_LINE {
            TelnetCommand::EraseLine
        } else if byte == GO_AHEAD {
            TelnetCommand::GoAhead
        } else if byte == SUBNEGOTIATION {
            TelnetCommand::Subnegotiation
        } else if byte == WILL {
            TelnetCommand::WILL
        } else if byte == WONT {
            TelnetCommand::WONT
        } else if byte == DO {
            TelnetCommand::DO
        } else if byte == DONT {
            TelnetCommand::DONT
        } else if byte == IAC {
            TelnetCommand::IAC
        } else {
            TelnetCommand::Other(byte)
        }
    }

    /// Total map from a command to its byte.
    pub fn to_byte(self) -> (byte: u8)
        ensures
            byte == self.spec_to_byte(),
    {
        match self {
            TelnetCommand::SubnegotiationEnd => SUBNEGOTIATION_END,
            TelnetCommand::NOP => NOP,
            TelnetCommand::DataMark => DATA_MARK,
            TelnetCommand::Break => BREAK,
            TelnetCommand::InterruptProcess => INTERRUPT_PROCESS,
            TelnetCommand::Abort => ABORT,
            TelnetCommand::AreYouThere => ARE_YOU_THERE,
            TelnetCommand::EraseCharacter => ERASE_CHARACTER,
            TelnetCommand::EraseLine => ERASE_LINE,
            TelnetCommand::GoAhead => GO_AHEAD,
            TelnetCommand::Subnegotiation => SUBNEGOTIATION,
            TelnetCommand::WILL => WILL,
            TelnetCommand::WONT => WONT,
            TelnetCommand::DO => DO,
            TelnetCommand::DONT => DONT,
            TelnetCommand::IAC => IAC,
            TelnetCommand::Other(byte) => byte,
        }
    }
}

} // verus!
