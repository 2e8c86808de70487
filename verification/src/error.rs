use vstd::prelude::*;

verus! {

#[verifier::external_type_specification]
#[verifier::external_body]
pub struct ExErrorKind(std::io::ErrorKind);

/// Relies on the derived `PartialEq` for `std::io::ErrorKind`: two kinds
/// compare equal exactly when they are the same kind.
#[verifier::external_body]
fn kind_eq(a: &std::io::ErrorKind, b: &std::io::ErrorKind) -> (r: bool)
    ensures
        r == (a == b),
{
    a == b
}

/// A decode failure, or a transport error surfaced by the collaborator that
/// drives the codec.  The codec itself only ever produces the two framing
/// errors.
#[derive(Debug)]
pub enum TelnetError {
    /// A subnegotiation frame was well terminated but its body was malformed.
    InvalidSubnegotiationSequence,
    /// In character-at-a-time mode, IAC was followed by a byte that is
    /// neither IAC, erase-character nor erase-line.
    InvalidIACSequence,
    /// A transport error, remembered by its kind.
    Io(std::io::ErrorKind),
}

impl TelnetError {
    /// What equality of two errors means: the same variant, and for transport
    /// errors the same kind.
    pub open spec fn spec_eq(self, other: TelnetError) -> bool {
        match (self, other) {
            (TelnetError::InvalidSubnegotiationSequence, TelnetError::InvalidSubnegotiationSequence) => true,
            (TelnetError::InvalidIACSequence, TelnetError::InvalidIACSequence) => true,
            (TelnetError::Io(a), TelnetError::Io(b)) => a == b,
            _ => false,
        }
    }
}

impl PartialEq for TelnetError {
    fn eq(&self, other: &Self) -> (r: bool) {
        match (self, other) {
            (TelnetError::Io(a), TelnetError::Io(b)) => kind_eq(a, b),
            (TelnetError::InvalidSubnegotiationSequence, TelnetError::InvalidSubnegotiationSequence) => true,
            (TelnetError::InvalidIACSequence, TelnetError::InvalidIACSequence) => true,
            _ => false,
        }
    }
}

impl vstd::std_specs::cmp::PartialEqSpecImpl for TelnetError {
    open spec fn obeys_eq_spec() -> bool {
        true
    }

    open spec fn eq_spec(&self, other: &TelnetError) -> bool {
        self.spec_eq(*other)
    }
}

} // verus!
