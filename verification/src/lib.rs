//! Decision logic for discovering MIDI ports, resolving them by name,
//! dispatching incoming messages and supervising listeners.
//!
//! Everything here works on plain values: the caller talks to the host's
//! MIDI subsystem and hands the answers in.

pub mod cli;
pub mod dispatch;
pub mod errors;
pub mod ports;
pub mod relay;
pub mod sequencer;
pub mod supervisor;

pub use cli::{run_list, run_list_both, run_relay, run_test, subcommand, Command, Listing};
pub use dispatch::{read_device, Report, KEEP_ALIVE, TIMING_CLOCK};
pub use errors::{ConnectFailure, ConnectFailureKind, Error, InitFailure, PortInfoFailure, SendFailure};
pub use ports::{connect_input, connect_output, list_inputs, list_outputs, resolve, Direction, Outcome};
pub use relay::{relay, relay_begin, RelayAction, RelayEvent, RelayStage};
pub use sequencer::{play, play_note, Sequencer, Step};
pub use supervisor::{run_read, ListenerSet, Verdict};
