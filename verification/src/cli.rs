use vstd::prelude::*;
use vstd::string::*;
use crate::errors::Error;

verus! {

/// The subcommands of the command line.
#[derive(Debug, Clone, Copy, PartialEq, Eq)]
pub enum Command {
    List,
    Test,
    Read,
    Relay,
}

/// Which port lists a `list` command shows, inputs before outputs.
#[derive(Debug, Clone, Copy, PartialEq, Eq)]
pub struct Listing {
    /// The input ports are listed.
    pub inputs: bool,
    /// The output ports are listed.
    pub outputs: bool,
    /// Each list stands under a heading, its names indented by a tab.
    pub headed: bool,
}

/// The subcommand that a name stands for.
pub open spec fn command_named(name: Seq<char>) -> Option<Command> {
    if name == "list"@ {
        Some(Command::List)
    } else if name == "test"@ {
        Some(Command::Test)
    } else if name == "read"@ {
        Some(Command::Read)
    } else if name == "relay"@ {
        Some(Command::Relay)
    } else {
        None
    }
}

/// Picks the subcommand to run from the name given on the command line.
pub fn subcommand(name: Option<&str>) -> (r: Result<Command, Error>)
    ensures
        match name {
            None => r matches Err(Error::InvalidSubCommand(msg)) && msg@
                == "there is no root command yet"@,
            Some(given) => match command_named(given@) {
                Some(command) => r == Ok::<Command, Error>(command),
                None => r matches Err(Error::InvalidSubCommand(msg)) && msg@
                    == "unknown subcommand "@ + given@,
            },
        },
{
    match name {
        None => Err(Error::InvalidSubCommand(String::from_str("there is no root command yet"))),
        Some(given) => {
            let wanted = String::from_str(given);
            if wanted == String::from_str("list") {
                Ok(Command::List)
            } else if wanted == String::from_str("test") {
                Ok(Command::Test)
            } else if wanted == String::from_str("read") {
                Ok(Command::Read)
            } else if wanted == String::from_str("relay") {
                Ok(Command::Relay)
            } else {
                Err(
                    Error::InvalidSubCommand(String::from_str("unknown subcommand ").concat(given)),
                )
            }
        },
    }
}

/// What `list` shows for its two flags: with neither, both lists under
/// headings; otherwise the lists asked for, bare.
pub open spec fn listing_for(input: bool, output: bool) -> Listing {
    if !input && !output {
        Listing { inputs: true, outputs: true, headed: true }
    } else {
        Listing { inputs: input, outputs: output, headed: false }
    }
}

/// Decides what a `list` command shows.
pub fn run_list(input: bool, output: bool) -> (r: Listing)
    ensures
        r == listing_for(input, output),
{
    if !input && !output {
        run_list_both()
    } else {
        Listing { inputs: input, outputs: output, headed: false }
    }
}

/// Both lists, each under its heading.
pub fn run_list_both() -> (r: Listing)
    ensures
        r == (Listing { inputs: true, outputs: true, headed: true }),
{
    Listing { inputs: true, outputs: true, headed: true }
}

/// The devices that a `test` command plays on; it asks for at least one.
pub fn run_test(outputs: Option<Vec<String>>) -> (r: Result<Vec<String>, Error>)
    ensures
        match outputs {
            Some(devices) => r == Ok::<Vec<String>, Error>(devices),
            None => r matches Err(Error::InvalidInput(msg)) && msg@
                == "Expected at least one output"@,
        },
{
    match outputs {
        Some(devices) => Ok(devices),
        None => Err(Error::InvalidInput(String::from_str("Expected at least one output"))),
    }
}

/// The two ends of a `relay` command, input first; it asks for both, and
/// says the same of either that is missing.
pub fn run_relay(input: Option<String>, output: Option<String>) -> (r: Result<
    (String, String),
    Error,
>)
    ensures
        match (input, output) {
            (Some(source), Some(sink)) => r == Ok::<(String, String), Error>((source, sink)),
            _ => r matches Err(Error::InvalidInput(msg)) && msg@
                == "Expected at least one output"@,
        },
{
    match (input, output) {
        (Some(source), Some(sink)) => Ok((source, sink)),
        _ => Err(Error::InvalidInput(String::from_str("Expected at least one output"))),
    }
}

} // verus!
