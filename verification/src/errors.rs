use vstd::prelude::*;
use vstd::string::*;
use vstd::std_specs::convert::FromSpecImpl;
use crate::ports::Direction;

verus! {

/// The host's MIDI subsystem could not be initialised.
#[derive(Debug, Clone, Copy, PartialEq, Eq)]
pub struct InitFailure;

/// Why the host could not tell a port's name.
#[derive(Debug, Clone, Copy, PartialEq, Eq)]
pub enum PortInfoFailure {
    PortNumberOutOfRange,
    InvalidPort,
    CannotRetrievePortName,
}

/// Why the host refused to open a port.
#[derive(Debug, Clone, PartialEq, Eq)]
pub enum ConnectFailureKind {
    InvalidPort,
    Other(String),
}

/// A refused connection, together with the direction that was asked for.
#[derive(Debug, Clone, PartialEq, Eq)]
pub struct ConnectFailure {
    pub direction: Direction,
    pub kind: ConnectFailureKind,
}

/// Why a message could not be sent on an open connection.
#[derive(Debug, Clone, PartialEq, Eq)]
pub enum SendFailure {
    InvalidData(String),
    Other(String),
}

/// Everything that can go wrong in this library.
#[derive(Debug, Clone, PartialEq, Eq)]
pub enum Error {
    InvalidSubCommand(String),
    InvalidInput(String),
    MidiInitError(InitFailure),
    MidiPortInfoError(PortInfoFailure),
    MidiConnectionErrorOutput(ConnectFailureKind),
    MidiConnectionErrorInput(ConnectFailureKind),
    MidiSendError(SendFailure),
}

impl InitFailure {
    pub open spec fn text(self) -> Seq<char> {
        "MIDI support could not be initialized"@
    }

    /// The text shown to the user for this failure.
    pub fn message(&self) -> (r: String)
        ensures
            r@ == self.text(),
    {
        String::from_str("MIDI support could not be initialized")
    }
}

impl PortInfoFailure {
    pub open spec fn text(self) -> Seq<char> {
        match self {
            PortInfoFailure::PortNumberOutOfRange => "provided port number was out of range"@,
            PortInfoFailure::InvalidPort => "invalid port"@,
            PortInfoFailure::CannotRetrievePortName => "unknown error when trying to retrieve the port name"@,
        }
    }

    /// The text shown to the user for this failure.
    pub fn message(&self) -> (r: String)
        ensures
            r@ == self.text(),
    {
        match self {
            PortInfoFailure::PortNumberOutOfRange => String::from_str(
                "provided port number was out of range",
            ),
            PortInfoFailure::InvalidPort => String::from_str("invalid port"),
            PortInfoFailure::CannotRetrievePortName => String::from_str(
                "unknown error when trying to retrieve the port name",
            ),
        }
    }
}

impl ConnectFailureKind {
    pub open spec fn text(self) -> Seq<char> {
        match self {
            ConnectFailureKind::InvalidPort => "invalid port"@,
            ConnectFailureKind::Other(msg) => msg@,
        }
    }

    /// The text shown to the user for this failure.
    pub fn message(&self) -> (r: String)
        ensures
            r@ == self.text(),
    {
        match self {
            ConnectFailureKind::InvalidPort => String::from_str("invalid port"),
            ConnectFailureKind::Other(msg) => msg.clone(),
        }
    }
}

impl SendFailure {
    pub open spec fn text(self) -> Seq<char> {
        match self {
            SendFailure::InvalidData(msg) => msg@,
            SendFailure::Other(msg) => msg@,
        }
    }

    /// The text shown to the user for this failure.
    pub fn message(&self) -> (r: String)
        ensures
            r@ == self.text(),
    {
        match self {
            SendFailure::InvalidData(msg) => msg.clone(),
            SendFailure::Other(msg) => msg.clone(),
        }
    }
}

impl Error {
    /// What the error says: its own text for the two input errors, the
    /// host failure's text for the others.
    pub open spec fn text(self) -> Seq<char> {
        match self {
            Error::InvalidSubCommand(msg) => msg@,
            Error::InvalidInput(msg) => msg@,
            Error::MidiInitError(err) => err.text(),
            Error::MidiPortInfoError(err) => err.text(),
            Error::MidiConnectionErrorOutput(err) => err.text(),
            Error::MidiConnectionErrorInput(err) => err.text(),
            Error::MidiSendError(err) => err.text(),
        }
    }

    /// The text shown to the user for this error.
    pub fn message(&self) -> (r: String)
        ensures
            r@ == self.text(),
    {
        match self {
            Error::InvalidSubCommand(msg) => msg.clone(),
            Error::InvalidInput(msg) => msg.clone(),
            Error::MidiInitError(err) => err.message(),
            Error::MidiPortInfoError(err) => err.message(),
            Error::MidiConnectionErrorOutput(err) => err.message(),
            Error::MidiConnectionErrorInput(err) => err.message(),
            Error::MidiSendError(err) => err.message(),
        }
    }
}

impl From<InitFailure> for Error {
    fn from(value: InitFailure) -> (r: Error) {
        Error::MidiInitError(value)
    }
}

impl FromSpecImpl<InitFailure> for Error {
    open spec fn obeys_from_spec() -> bool {
        true
    }

    open spec fn from_spec(value: InitFailure) -> Error {
        Error::MidiInitError(value)
    }
}

impl From<PortInfoFailure> for Error {
    fn from(value: PortInfoFailure) -> (r: Error) {
        Error::MidiPortInfoError(value)
    }
}

impl FromSpecImpl<PortInfoFailure> for Error {
    open spec fn obeys_from_spec() -> bool {
        true
    }

    open spec fn from_spec(value: PortInfoFailure) -> Error {
        Error::MidiPortInfoError(value)
    }
}

impl From<ConnectFailure> for Error {
    /// A refused connection becomes the error of the direction it was asked for.
    fn from(value: ConnectFailure) -> (r: Error) {
        match value.direction {
            Direction::Input => Error::MidiConnectionErrorInput(value.kind),
            Direction::Output => Error::MidiConnectionErrorOutput(value.kind),
        }
    }
}

impl FromSpecImpl<ConnectFailure> for Error {
    open spec fn obeys_from_spec() -> bool {
        true
    }

    open spec fn from_spec(value: ConnectFailure) -> Error {
        match value.direction {
            Direction::Input => Error::MidiConnectionErrorInput(value.kind),
            Direction::Output => Error::MidiConnectionErrorOutput(value.kind),
        }
    }
}

impl From<SendFailure> for Error {
    fn from(value: SendFailure) -> (r: Error) {
        Error::MidiSendError(value)
    }
}

impl FromSpecImpl<SendFailure> for Error {
    open spec fn obeys_from_spec() -> bool {
        true
    }

    open spec fn from_spec(value: SendFailure) -> Error {
        Error::MidiSendError(value)
    }
}

} // verus!
