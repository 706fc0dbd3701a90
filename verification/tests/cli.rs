use midi::{run_list, run_list_both, run_relay, run_test, subcommand, Command, Error, Listing};

#[test]
fn known_subcommands() {
    assert_eq!(subcommand(Some("list")), Ok(Command::List));
    assert_eq!(subcommand(Some("test")), Ok(Command::Test));
    assert_eq!(subcommand(Some("read")), Ok(Command::Read));
    assert_eq!(subcommand(Some("relay")), Ok(Command::Relay));
}

#[test]
fn unknown_subcommand_is_named() {
    assert_eq!(
        subcommand(Some("play")),
        Err(Error::InvalidSubCommand("unknown subcommand play".to_string()))
    );
    assert_eq!(
        subcommand(Some("List")),
        Err(Error::InvalidSubCommand("unknown subcommand List".to_string()))
    );
    assert_eq!(
        subcommand(Some("")),
        Err(Error::InvalidSubCommand("unknown subcommand ".to_string()))
    );
}

#[test]
fn missing_subcommand() {
    assert_eq!(
        subcommand(None),
        Err(Error::InvalidSubCommand("there is no root command yet".to_string()))
    );
}

#[test]
fn list_without_flags_shows_both_under_headings() {
    let both = Listing { inputs: true, outputs: true, headed: true };
    assert_eq!(run_list(false, false), both);
    assert_eq!(run_list_both(), both);
}

#[test]
fn list_with_flags_shows_what_was_asked() {
    assert_eq!(run_list(true, false), Listing { inputs: true, outputs: false, headed: false });
    assert_eq!(run_list(false, true), Listing { inputs: false, outputs: true, headed: false });
    assert_eq!(run_list(true, true), Listing { inputs: true, outputs: true, headed: false });
}

#[test]
fn test_command_needs_outputs() {
    assert_eq!(
        run_test(None),
        Err(Error::InvalidInput("Expected at least one output".to_string()))
    );
    let devices = vec!["a".to_string(), "b".to_string()];
    assert_eq!(run_test(Some(devices.clone())), Ok(devices));
}

#[test]
fn relay_command_needs_both_ends() {
    let missing = Err(Error::InvalidInput("Expected at least one output".to_string()));
    assert_eq!(run_relay(None, Some("out".to_string())), missing);
    assert_eq!(run_relay(Some("in".to_string()), None), missing);
    assert_eq!(run_relay(None, None), missing);
    assert_eq!(
        run_relay(Some("in".to_string()), Some("out".to_string())),
        Ok(("in".to_string(), "out".to_string()))
    );
}
