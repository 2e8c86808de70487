use vstd::prelude::*;

use crate::option::TelnetOption;

verus! {

/// The payload of a subnegotiation frame: a decoded window size for NAWS, or
/// the raw bytes for any other option.
#[derive(PartialEq, Debug)]
pub enum SubnegotiationType {
    /// Window size: width and height in characters (RFC 1073).
    NegotiateAboutWindowSize(u16, u16),
    /// Any other option, with its unescaped payload bytes.
    Other(TelnetOption, Vec<u8>),
}

} // verus!
