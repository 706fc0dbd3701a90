use vstd::prelude::*;
use vstd::slice::slice_to_vec;

verus! {

/// Status byte of the MIDI Timing Clock message.
pub const TIMING_CLOCK: u8 = 0b11111000;

/// Status byte of the MIDI Active Sensing (keep-alive) message.
pub const KEEP_ALIVE: u8 = 0b11111110;

/// What is shown of a message that a listener read.
#[derive(Debug, Clone, PartialEq, Eq)]
pub struct Report {
    /// The delivery timestamp, as the connection gave it.
    pub stamp: u64,
    /// The message's bytes, unchanged.
    pub bytes: Vec<u8>,
    /// How many bytes the message has.
    pub len: usize,
}

/// A message is housekeeping when it is exactly one byte long and that byte
/// is the timing clock or the keep-alive status.
pub open spec fn is_housekeeping(message: Seq<u8>) -> bool {
    message.len() == 1 && (message[0] == TIMING_CLOCK || message[0] == KEEP_ALIVE)
}

/// `report` shows exactly this message.
pub open spec fn shows(report: Report, stamp: u64, message: Seq<u8>) -> bool {
    report.stamp == stamp && report.bytes@ == message && report.len == message.len()
}

/// The dispatcher of a listening connection: housekeeping messages are
/// dropped without a trace, every other message gives one report of its
/// timestamp, bytes and length.
pub fn read_device(stamp: u64, message: &[u8]) -> (r: Option<Report>)
    ensures
        r is None <==> is_housekeeping(message@),
        r matches Some(report) ==> shows(report, stamp, message@),
{
    if message.len() == 1 && (message[0] == TIMING_CLOCK || message[0] == KEEP_ALIVE) {
        None
    } else {
        Some(Report { stamp, bytes: slice_to_vec(message), len: message.len() })
    }
}

} // verus!
