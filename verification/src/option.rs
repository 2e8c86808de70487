use vstd::prelude::*;

verus! {

// Telnet option bytes, as assigned by the IANA telnet option registry.
pub const BINARY_TRANSMISSION: u8 = 0x00;
pub const ECHO: u8 = 0x01;
pub const RECONNECTION: u8 = 0x02;
pub const SUPPRESS_GO_AHEAD: u8 = 0x03;
pub const APPROX_MESSAGE_SIZE_NEGOTIATION: u8 = 0x04;
pub const STATUS: u8 = 0x05;
pub const TIMING_MARK: u8 = 0x06;
pub const REMOTE_CONTROLLED_TRANS_AND_ECHO: u8 = 0x07;
pub const OUTPUT_LINE_WIDTH: u8 = 0x08;
pub const OUTPUT_PAGE_SIZE: u8 = 0x09;
pub const OUTPUT_CARRIAGE_RETURN_DISPOSITION: u8 = 0x0A;
pub const OUTPUT_HORIZONTAL_TAB_STOPS: u8 = 0x0B;
pub const OUTPUT_HORIZONTAL_TAB_DISPOSITION: u8 = 0x0C;
pub const OUTPUT_FORM_FEED_DISPOSITION: u8 = 0x0D;
pub const OUTPUT_VERTICAL_TAB_STOPS: u8 = 0x0E;
pub const OUTPUT_VERTICAL_TAB_DISPOSITION: u8 = 0x0F;
pub const OUTPUT_LINE_FEED_DISPOSITION: u8 = 0x10;
pub const EXTENDED_ASCII: u8 = 0x11;
pub const LOGOUT: u8 = 0x12;
pub const BYTE_MACRO: u8 = 0x13;
pub const DATAENTRYTERMINAL: u8 = 0x14;
pub const SUPDUP: u8 = 0x15;
pub const SUPDUP_OUTPUT: u8 = 0x16;
pub const SEND_LOCATION: u8 = 0x17;
pub const TERMINAL_TYPE: u8 = 0x18;
pub const END_OF_RECORD: u8 = 0x19;
pub const TACACS_USER_IDENTIFICATION: u8 = 0x1A;
pub const OUTPUT_MARKING: u8 = 0x1B;
pub const TERMINAL_LOCATION_NUMBER: u8 = 0x1C;
pub const TELNET_3270_REGIME: u8 = 0x1D;
pub const X3PAD: u8 = 0x1E;
pub const NEGOTIATE_ABOUT_WINDOW_SIZE: u8 = 0x1F;
pub const TERMINAL_SPEED: u8 = 0x20;
pub const REMOTE_FLOW_CONTROL: u8 = 0x21;
pub const LINEMODE: u8 = 0x22;
pub const X_DISPLAY_LOCATION: u8 = 0x23;
pub const EXTENDED_OPTIONS_LIST: u8 = 0xFF;

/// A telnet option: one named variant for each option in the registry table
/// above, and `Other` for every remaining byte.
#[derive(Clone, Copy, PartialEq, Eq, Structural, Debug)]
pub enum TelnetOption {
    BinaryTransmission,
    Echo,
    Reconnection,
    SuppressGoAhead,
    ApproxMessageSizeNegotiation,
    Status,
    TimingMark,
    RemoteControlledTransAndEcho,
    OutputLineWidth,
    OutputPageSize,
    OutputCarriageReturnDisposition,
    OutputHorizontalTabStops,
    OutputHorizontalTabDisposition,
    OutputFormfeedDisposition,
    OutputVerticalTabstops,
    OutputVerticalTabDisposition,
    OutputLinefeedDisposition,
    ExtendedASCII,
    Logout,
    ByteMacro,
    DataEntryTerminal,
    SUPDUP,
    SUPDUPOutput,
    SendLocation,
    TerminalType,
    EndOfRecord,
    TACACSUserIdentification,
    OutputMarking,
    TerminalLocationNumber,
    Telnet3270Regime,
    X3Pad,
    NegotiateAboutWindowSize,
    TerminalSpeed,
    RemoteFlowControl,
    Linemode,
    XDisplayLocation,
    ExtendedOptionsList,
    Other(u8),
}

impl TelnetOption {
    /// The option named by a byte; bytes outside the registry table map to
    /// `Other`.
    pub open spec fn spec_from_byte(byte: u8) -> TelnetOption {
        if byte == BINARY_TRANSMISSION {
            TelnetOption::BinaryTransmission
        } else if byte == ECHO {
            TelnetOption::Echo
        } else if byte == RECONNECTION {
            TelnetOption::Reconnection
        } else if byte == SUPPRESS_GO_AHEAD {
            TelnetOption::SuppressGoAhead
        } else if byte == APPROX_MESSAGE_SIZE_NEGOTIATION {
            TelnetOption::ApproxMessageSizeNegotiation
        } else if byte == STATUS {
            TelnetOption::Status
        } else if byte == TIMING_MARK {
            TelnetOption::TimingMark
        } else if byte == REMOTE_CONTROLLED_TRANS_AND_ECHO {
            TelnetOption::RemoteControlledTransAndEcho
        } else if byte == OUTPUT_LINE_WIDTH {
            TelnetOption::OutputLineWidth
        } else if byte == OUTPUT_PAGE_SIZE {
            TelnetOption::OutputPageSize
        } else if byte == OUTPUT_CARRIAGE_RETURN_DISPOSITION {
            TelnetOption::OutputCarriageReturnDisposition
        } else if byte == OUTPUT_HORIZONTAL_TAB_STOPS {
            TelnetOption::OutputHorizontalTabStops
        } else if byte == OUTPUT_HORIZONTAL_TAB_DISPOSITION {
            TelnetOption::OutputHorizontalTabDisposition
        } else if byte == OUTPUT_FORM_FEED_DISPOSITION {
            TelnetOption::OutputFormfeedDisposition
        } else if byte == OUTPUT_VERTICAL_TAB_STOPS {
            TelnetOption::OutputVerticalTabstops
        } else if byte == OUTPUT_VERTICAL_TAB_DISPOSITION {
            TelnetOption::OutputVerticalTabDisposition
        } else if byte == OUTPUT_LINE_FEED_DISPOSITION {
            TelnetOption::OutputLinefeedDisposition
        } else if byte == EXTENDED_ASCII {
            TelnetOption::ExtendedASCII
        } else if byte == LOGOUT {
            TelnetOption::Logout
        } else if byte == BYTE_MACRO {
            TelnetOption::ByteMacro
        } else if byte == DATAENTRYTERMINAL {
            TelnetOption::DataEntryTerminal
        } else if byte == SUPDUP {
            TelnetOption::SUPDUP
        } else if byte == SUPDUP_OUTPUT {
            TelnetOption::SUPDUPOutput
        } else if byte == SEND_LOCATION {
            TelnetOption::SendLocation
        } else if byte == TERMINAL_TYPE {
            TelnetOption::TerminalType
        } else if byte == END_OF_RECORD {
            TelnetOption::EndOfRecord
        } else if byte == TACACS_USER_IDENTIFICATION {
            TelnetOption::TACACSUserIdentification
        } else if byte == OUTPUT_MARKING {
            TelnetOption::OutputMarking
        } else if byte == TERMINAL_LOCATION_NUMBER {
            TelnetOption::TerminalLocationNumber
        } else if byte == TELNET_3270_REGIME {
            TelnetOption::Telnet3270Regime
        } else if byte == X3PAD {
            TelnetOption::X3Pad
        } else if byte == NEGOTIATE_ABOUT_WINDOW_SIZE {
            TelnetOption::NegotiateAboutWindowSize
        } else if byte == TERMINAL_SPEED {
            TelnetOption::TerminalSpeed
        } else if byte == REMOTE_FLOW_CONTROL {
            TelnetOption::RemoteFlowControl
        } else if byte == LINEMODE {
            TelnetOption::Linemode
        } else if byte == X_DISPLAY_LOCATION {
            TelnetOption::XDisplayLocation
        } else if byte == EXTENDED_OPTIONS_LIST {
            TelnetOption::ExtendedOptionsList
        } else {
            TelnetOption::Other(byte)
        }
    }

    /// The byte that names an option on the wire.
    pub open spec fn spec_to_byte(self) -> u8 {
        match self {
            TelnetOption::BinaryTransmission => BINARY_TRANSMISSION,
            TelnetOption::Echo => ECHO,
            TelnetOption::Reconnection => RECONNECTION,
            TelnetOption::SuppressGoAhead => SUPPRESS_GO_AHEAD,
            TelnetOption::ApproxMessageSizeNegotiation => APPROX_MESSAGE_SIZE_NEGOTIATION,
            TelnetOption::Status => STATUS,
            TelnetOption::TimingMark => TIMING_MARK,
            TelnetOption::RemoteControlledTransAndEcho => REMOTE_CONTROLLED_TRANS_AND_ECHO,
            TelnetOption::OutputLineWidth => OUTPUT_LINE_WIDTH,
            TelnetOption::OutputPageSize => OUTPUT_PAGE_SIZE,
            TelnetOption::OutputCarriageReturnDisposition => OUTPUT_CARRIAGE_RETURN_DISPOSITION,
            TelnetOption::OutputHorizontalTabStops => OUTPUT_HORIZONTAL_TAB_STOPS,
            TelnetOption::OutputHorizontalTabDisposition => OUTPUT_HORIZONTAL_TAB_DISPOSITION,
            TelnetOption::OutputFormfeedDisposition => OUTPUT_FORM_FEED_DISPOSITION,
            TelnetOption::OutputVerticalTabstops => OUTPUT_VERTICAL_TAB_STOPS,
            TelnetOption::OutputVerticalTabDisposition => OUTPUT_VERTICAL_TAB_DISPOSITION,
            TelnetOption::OutputLinefeedDisposition => OUTPUT_LINE_FEED_DISPOSITION,
            TelnetOption::ExtendedASCII => EXTENDED_ASCII,
            TelnetOption::Logout => LOGOUT,
            TelnetOption::ByteMacro => BYTE_MACRO,
            TelnetOption::DataEntryTerminal => DATAENTRYTERMINAL,
            TelnetOption::SUPDUP => SUPDUP,
            TelnetOption::SUPDUPOutput => SUPDUP_OUTPUT,
            TelnetOption::SendLocation => SEND_LOCATION,
            TelnetOption::TerminalType => TERMINAL_TYPE,
            TelnetOption::EndOfRecord => END_OF_RECORD,
            TelnetOption::TACACSUserIdentification => TACACS_USER_IDENTIFICATION,
            TelnetOption::OutputMarking => OUTPUT_MARKING,
            TelnetOption::TerminalLocationNumber => TERMINAL_LOCATION_NUMBER,
            TelnetOption::Telnet3270Regime => TELNET_3270_REGIME,
            TelnetOption::X3Pad => X3PAD,
            TelnetOption::NegotiateAboutWindowSize => NEGOTIATE_ABOUT_WINDOW_SIZE,
            TelnetOption::TerminalSpeed => TERMINAL_SPEED,
            TelnetOption::RemoteFlowControl => REMOTE_FLOW_CONTROL,
            TelnetOption::Linemode => LINEMODE,
            TelnetOption::XDisplayLocation => X_DISPLAY_LOCATION,
            TelnetOption::ExtendedOptionsList => EXTENDED_OPTIONS_LIST,
            TelnetOption::Other(byte) => byte,
        }
    }

    /// Total map from a byte to its option.
    pub fn from_byte(byte: u8) -> (option: TelnetOption)
        ensures
            option == TelnetOption::spec_from_byte(byte),
    {
        if byte == BINARY_TRANSMISSION {
            TelnetOption::BinaryTransmission
        } else if byte == ECHO {
            TelnetOption::Echo
        } else if byte == RECONNECTION {
            TelnetOption::Reconnection
        } else if byte == SUPPRESS_GO_AHEAD {
            TelnetOption::SuppressGoAhead
        } else if byte == APPROX_MESSAGE_SIZE_NEGOTIATION {
            TelnetOption::ApproxMessageSizeNegotiation
        } else if byte == STATUS {
            TelnetOption::Status
        } else if byte == TIMING_MARK {
            TelnetOption::TimingMark
        } else if byte == REMOTE_CONTROLLED_TRANS_AND_ECHO {
            TelnetOption::RemoteControlledTransAndEcho
        } else if byte == OUTPUT_LINE_WIDTH {
            TelnetOption::OutputLineWidth
        } else if byte == OUTPUT_PAGE_SIZE {
            TelnetOption::OutputPageSize
        } else if byte == OUTPUT_CARRIAGE_RETURN_DISPOSITION {
            TelnetOption::OutputCarriageReturnDisposition
        } else if byte == OUTPUT_HORIZONTAL_TAB_STOPS {
            TelnetOption::OutputHorizontalTabStops
        } else if byte == OUTPUT_HORIZONTAL_TAB_DISPOSITION {
            TelnetOption::OutputHorizontalTabDisposition
        } else if byte == OUTPUT_FORM_FEED_DISPOSITION {
            TelnetOption::OutputFormfeedDisposition
        } else if byte == OUTPUT_VERTICAL_TAB_STOPS {
            TelnetOption::OutputVerticalTabstops
        } else if byte == OUTPUT_VERTICAL_TAB_DISPOSITION {
            TelnetOption::OutputVerticalTabDisposition
        } else if byte == OUTPUT_LINE_FEED_DISPOSITION {
            TelnetOption::OutputLinefeedDisposition
        } else if byte == EXTENDED_ASCII {
            TelnetOption::ExtendedASCII
        } else if byte == LOGOUT {
            TelnetOption::Logout
        } else if byte == BYTE_MACRO {
            TelnetOption::ByteMacro
        } else if byte == DATAENTRYTERMINAL {
            TelnetOption::DataEntryTerminal
        } else if byte == SUPDUP {
            TelnetOption::SUPDUP
        } else if byte == SUPDUP_OUTPUT {
            TelnetOption::SUPDUPOutput
        } else if byte == SEND_LOCATION {
            TelnetOption::SendLocation
        } else if byte == TERMINAL_TYPE {
            TelnetOption::TerminalType
        } else if byte == END_OF_RECORD {
            TelnetOption::EndOfRecord
        } else if byte == TACACS_USER_IDENTIFICATION {
            TelnetOption::TACACSUserIdentification
        } else if byte == OUTPUT_MARKING {
            TelnetOption::OutputMarking
        } else if byte == TERMINAL_LOCATION_NUMBER {
            TelnetOption::TerminalLocationNumber
        } else if byte == TELNET_3270_REGIME {
            TelnetOption::Telnet3270Regime
        } else if byte == X3PAD {
            TelnetOption::X3Pad
        } else if byte == NEGOTIATE_ABOUT_WINDOW_SIZE {
            TelnetOption::NegotiateAboutWindowSize
        } else if byte == TERMINAL_SPEED {
            TelnetOption::TerminalSpeed
        } else if byte == REMOTE_FLOW_CONTROL {
            TelnetOption::RemoteFlowControl
        } else if byte == LINEMODE {
            TelnetOption::Linemode
        } else if byte == X_DISPLAY_LOCATION {
            TelnetOption::XDisplayLocation
        } else if byte == EXTENDED_OPTIONS_LIST {
            TelnetOption::ExtendedOptionsList
        } else {
            TelnetOption::Other(byte)
        }
    }

    /// Total map from an option to its byte.
    pub fn to_byte(self) -> (byte: u8)
        ensures
            byte == self.spec_to_byte(),
    {
        match self {
            TelnetOption::BinaryTransmission => BINARY_TRANSMISSION,
            TelnetOption::Echo => ECHO,
            TelnetOption::Reconnection => RECONNECTION,
            TelnetOption::SuppressGoAhead => SUPPRESS_GO_AHEAD,
            TelnetOption::ApproxMessageSizeNegotiation => APPROX_MESSAGE_SIZE_NEGOTIATION,
            TelnetOption::Status => STATUS,
            TelnetOption::TimingMark => TIMING_MARK,
            TelnetOption::RemoteControlledTransAndEcho => REMOTE_CONTROLLED_TRANS_AND_ECHO,
            TelnetOption::OutputLineWidth => OUTPUT_LINE_WIDTH,
            TelnetOption::OutputPageSize => OUTPUT_PAGE_SIZE,
            TelnetOption::OutputCarriageReturnDisposition => OUTPUT_CARRIAGE_RETURN_DISPOSITION,
            TelnetOption::OutputHorizontalTabStops => OUTPUT_HORIZONTAL_TAB_STOPS,
            TelnetOption::OutputHorizontalTabDisposition => OUTPUT_HORIZONTAL_TAB_DISPOSITION,
            TelnetOption::OutputFormfeedDisposition => OUTPUT_FORM_FEED_DISPOSITION,
            TelnetOption::OutputVerticalTabstops => OUTPUT_VERTICAL_TAB_STOPS,
            TelnetOption::OutputVerticalTabDisposition => OUTPUT_VERTICAL_TAB_DISPOSITION,
            TelnetOption::OutputLinefeedDisposition => OUTPUT_LINE_FEED_DISPOSITION,
            TelnetOption::ExtendedASCII => EXTENDED_ASCII,
            TelnetOption::Logout => LOGOUT,
            TelnetOption::ByteMacro => BYTE_MACRO,
            TelnetOption::DataEntryTerminal => DATAENTRYTERMINAL,
            TelnetOption::SUPDUP => SUPDUP,
            TelnetOption::SUPDUPOutput => SUPDUP_OUTPUT,
            TelnetOption::SendLocation => SEND_LOCATION,
            TelnetOption::TerminalType => TERMINAL_TYPE,
            TelnetOption::EndOfRecord => END_OF_RECORD,
            TelnetOption::TACACSUserIdentification => TACACS_USER_IDENTIFICATION,
            TelnetOption::OutputMarking => OUTPUT_MARKING,
            TelnetOption::TerminalLocationNumber => TERMINAL_LOCATION_NUMBER,
            TelnetOption::Telnet3270Regime => TELNET_3270_REGIME,
            TelnetOption::X3Pad => X3PAD,
            TelnetOption::NegotiateAboutWindowSize => NEGOTIATE_ABOUT_WINDOW_SIZE,
            TelnetOption::TerminalSpeed => TERMINAL_SPEED,
            TelnetOption::RemoteFlowControl => REMOTE_FLOW_CONTROL,
            TelnetOption::Linemode => LINEMODE,
            TelnetOption::XDisplayLocation => X_DISPLAY_LOCATION,
            TelnetOption::ExtendedOptionsList => EXTENDED_OPTIONS_LIST,
            TelnetOption::Other(byte) => byte,
        }
    }
}

} // verus!
