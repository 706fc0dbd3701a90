use midi::{ConnectFailure, ConnectFailureKind, Direction, Error, InitFailure, PortInfoFailure, SendFailure};

#[test]
fn input_errors_say_their_own_text() {
    assert_eq!(Error::InvalidSubCommand("unknown subcommand x".to_string()).message(), "unknown subcommand x");
    assert_eq!(Error::InvalidInput("could not find input with name x".to_string()).message(), "could not find input with name x");
}

#[test]
fn init_error_message() {
    assert_eq!(InitFailure.message(), "MIDI support could not be initialized");
    assert_eq!(Error::MidiInitError(InitFailure).message(), "MIDI support could not be initialized");
}

#[test]
fn port_info_error_messages() {
    assert_eq!(
        Error::MidiPortInfoError(PortInfoFailure::PortNumberOutOfRange).message(),
        "provided port number was out of range"
    );
    assert_eq!(Error::MidiPortInfoError(PortInfoFailure::InvalidPort).message(), "invalid port");
    assert_eq!(
        Error::MidiPortInfoError(PortInfoFailure::CannotRetrievePortName).message(),
        "unknown error when trying to retrieve the port name"
    );
}

#[test]
fn connection_error_messages() {
    assert_eq!(Error::MidiConnectionErrorOutput(ConnectFailureKind::InvalidPort).message(), "invalid port");
    assert_eq!(
        Error::MidiConnectionErrorInput(ConnectFailureKind::Other("could not create ALSA input port".to_string())).message(),
        "could not create ALSA input port"
    );
    assert_eq!(ConnectFailureKind::Other("busy".to_string()).message(), "busy");
}

#[test]
fn send_error_messages() {
    assert_eq!(Error::MidiSendError(SendFailure::InvalidData("message too long".to_string())).message(), "message too long");
    assert_eq!(Error::MidiSendError(SendFailure::Other("could not send".to_string())).message(), "could not send");
}

#[test]
fn host_failures_convert_to_their_variants() {
    assert_eq!(Error::from(InitFailure), Error::MidiInitError(InitFailure));
    assert_eq!(
        Error::from(PortInfoFailure::InvalidPort),
        Error::MidiPortInfoError(PortInfoFailure::InvalidPort)
    );
    let failure = SendFailure::Other("gone".to_string());
    assert_eq!(Error::from(failure.clone()), Error::MidiSendError(failure));
}

#[test]
fn refused_connection_keeps_its_direction() {
    let kind = ConnectFailureKind::Other("port busy".to_string());
    assert_eq!(
        Error::from(ConnectFailure { direction: Direction::Input, kind: kind.clone() }),
        Error::MidiConnectionErrorInput(kind.clone())
    );
    assert_eq!(
        Error::from(ConnectFailure { direction: Direction::Output, kind: kind.clone() }),
        Error::MidiConnectionErrorOutput(kind)
    );
}
