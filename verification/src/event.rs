use vstd::prelude::*;

use crate::consts::DO;
use crate::consts::DONT;
use crate::consts::ERASE_CHARACTER;
use crate::consts::ERASE_LINE;
use crate::consts::NOP;
use crate::consts::SUBNEGOTIATION;
use crate::consts::WILL;
use crate::consts::WONT;
use crate::model::EventModel;
use crate::model::SubnegotiationModel;
use crate::option::TelnetOption;
use crate::subnegotiation::SubnegotiationType;

verus! {

/// One decoded or encodable protocol event.
#[derive(PartialEq, Debug)]
pub enum TelnetEvent {
    /// Request that the peer perform an option.
    Do(TelnetOption),
    /// Demand that the peer stop performing an option.
    Dont(TelnetOption),
    /// Announce the will to perform an option.
    Will(TelnetOption),
    /// Refuse to perform an option.
    Wont(TelnetOption),
    /// A complete subnegotiation frame.
    Subnegotiation(SubnegotiationType),
    /// A completed line of user data, decoded as UTF-8 with invalid byte
    /// sequences replaced.
    Message(String),
    /// A single byte, delivered in character-at-a-time mode.
    Character(u8),
    /// The erase-character editing signal.
    EraseCharacter,
    /// The erase-line editing signal.
    EraseLine,
    /// No operation.
    Nop,
}

impl View for SubnegotiationType {
    type V = SubnegotiationModel;

    open spec fn view(&self) -> SubnegotiationModel {
        match self {
            SubnegotiationType::NegotiateAboutWindowSize(width, height) => (
                SubnegotiationModel::NegotiateAboutWindowSize(*width, *height)
            ),
            SubnegotiationType::Other(option, bytes) => (
                SubnegotiationModel::Other(*option, bytes@)
            ),
        }
    }
}

impl View for TelnetEvent {
    type V = EventModel;

    open spec fn view(&self) -> EventModel {
        match self {
            TelnetEvent::Do(option) => EventModel::Do(*option),
            TelnetEvent::Dont(option) => EventModel::Dont(*option),
            TelnetEvent::Will(option) => EventModel::Will(*option),
            TelnetEvent::Wont(option) => EventModel::Wont(*option),
            TelnetEvent::Subnegotiation(subnegotiation) => (
                EventModel::Subnegotiation(subnegotiation@)
            ),
            TelnetEvent::Message(text) => EventModel::Message(text@),
            TelnetEvent::Character(byte) => EventModel::Character(*byte),
            TelnetEvent::EraseCharacter => EventModel::EraseCharacter,
            TelnetEvent::EraseLine => EventModel::EraseLine,
            TelnetEvent::Nop => EventModel::Nop,
        }
    }
}

impl TelnetEvent {
    /// The wire command byte that stands for an event where a single
    /// representative byte is needed.  A message has no command byte and maps
    /// to zero; a character maps to itself.
    pub open spec fn spec_command_byte(self) -> u8 {
        match self {
            TelnetEvent::Do(_) => DO,
            TelnetEvent::Dont(_) => DONT,
            TelnetEvent::Will(_) => WILL,
            TelnetEvent::Wont(_) => WONT,
            TelnetEvent::Subnegotiation(_) => SUBNEGOTIATION,
            TelnetEvent::Message(_) => 0x00,
            TelnetEvent::Character(value) => value,
            TelnetEvent::EraseCharacter => ERASE_CHARACTER,
            TelnetEvent::EraseLine => ERASE_LINE,
            TelnetEvent::Nop => NOP,
        }
    }

    /// Projection of an event to its wire command byte.
    pub fn command_byte(&self) -> (byte: u8)
        ensures
            byte == self.spec_command_byte(),
    {
        match self {
            TelnetEvent::Do(_) => DO,
            TelnetEvent::Dont(_) => DONT,
            TelnetEvent::Will(_) => WILL,
            TelnetEvent::Wont(_) => WONT,
            TelnetEvent::Subnegotiation(_) => SUBNEGOTIATION,
            TelnetEvent::Message(_) => 0x00,
            TelnetEvent::Character(value) => *value,
            TelnetEvent::EraseCharacter => ERASE_CHARACTER,
            TelnetEvent::EraseLine => ERASE_LINE,
            TelnetEvent::Nop => NOP,
        }
    }
}

} // verus!
