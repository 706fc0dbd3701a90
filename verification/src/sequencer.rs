use vstd::prelude::*;
use crate::errors::{Error, SendFailure};

verus! {

/// Status byte of a note-on message on the first channel.
pub const NOTE_ON_MSG: u8 = 0x90;

/// Status byte of a note-off message on the first channel.
pub const NOTE_OFF_MSG: u8 = 0x80;

/// The velocity that every test note is played with.
pub const VELOCITY: u8 = 0x50;

/// Milliseconds in one unit of a note's duration.
pub const BEAT_MILLIS: u64 = 150;

/// The longest duration, in units, whose milliseconds fit in a `u64`.
pub const MAX_DURATION: u64 = 122978293824730344;

/// One thing the sequencer asks for. The steps of a sequence are carried
/// out one after the other, each begun when the one before it is over.
#[derive(Debug, Clone, Copy, PartialEq, Eq)]
pub enum Step {
    /// Send the three-byte message made of status, note and velocity.
    Send(u8, u8, u8),
    /// Suspend for this many milliseconds.
    Wait(u64),
}

/// A note of the given duration: note-on, the wait, note-off.
pub open spec fn note_steps(note: u8, duration: u64) -> Seq<Step> {
    seq![
        Step::Send(NOTE_ON_MSG, note, VELOCITY),
        Step::Wait((duration * BEAT_MILLIS) as u64),
        Step::Send(NOTE_OFF_MSG, note, VELOCITY),
    ]
}

/// The notes' steps, note after note.
pub open spec fn melody_steps(notes: Seq<(u8, u64)>) -> Seq<Step>
    decreases notes.len(),
{
    if notes.len() == 0 {
        Seq::empty()
    } else {
        melody_steps(notes.drop_last()) + note_steps(notes.last().0, notes.last().1)
    }
}

/// Every duration is short enough for its milliseconds to fit in a `u64`.
pub open spec fn playable(notes: Seq<(u8, u64)>) -> bool {
    forall|i: int| 0 <= i < notes.len() ==> (#[trigger] notes[i]).1 <= MAX_DURATION
}

/// The melody of the test sequence, as (note, duration) pairs.
pub open spec fn test_melody() -> Seq<(u8, u64)> {
    seq![
        (66u8, 4u64),
        (65u8, 3u64),
        (63u8, 1u64),
        (61u8, 6u64),
        (59u8, 2u64),
        (58u8, 4u64),
        (56u8, 4u64),
        (54u8, 4u64),
    ]
}

/// The whole test sequence: a lead-in of four units, the melody, and one
/// unit of silence before the connection closes.
pub open spec fn test_steps() -> Seq<Step> {
    seq![Step::Wait(600)] + melody_steps(test_melody()) + seq![Step::Wait(150)]
}

/// The steps that play one note.
pub fn play_note(note: u8, duration: u64) -> (r: Vec<Step>)
    requires
        duration <= MAX_DURATION,
    ensures
        r@ == note_steps(note, duration),
{
    let mut steps: Vec<Step> = Vec::new();
    steps.push(Step::Send(NOTE_ON_MSG, note, VELOCITY));
    steps.push(Step::Wait(duration * BEAT_MILLIS));
    steps.push(Step::Send(NOTE_OFF_MSG, note, VELOCITY));
    assert(steps@ =~= note_steps(note, duration));
    steps
}

/// The steps that play a list of notes one after the other, never two at
/// a time.
pub fn play(notes: &Vec<(u8, u64)>) -> (r: Vec<Step>)
    requires
        playable(notes@),
    ensures
        r@ == melody_steps(notes@),
        r@.len() == 3 * notes@.len(),
{
    let mut steps: Vec<Step> = Vec::new();
    let mut i: usize = 0;
    while i < notes.len()
        invariant
            i <= notes@.len(),
            playable(notes@),
            steps@ == melody_steps(notes@.take(i as int)),
            steps@.len() == 3 * i,
        decreases notes@.len() - i,
    {
        let (note, duration) = notes[i];
        let mut one = play_note(note, duration);
        proof {
            let upto = notes@.take(i + 1);
            assert(upto.drop_last() =~= notes@.take(i as int));
            assert(upto.last() == notes@[i as int]);
        }
        steps.append(&mut one);
        i += 1;
    }
    assert(notes@.take(i as int) =~= notes@);
    steps
}

/// The steps of the test sequence.
pub fn test() -> (r: Vec<Step>)
    ensures
        r@ == test_steps(),
{
    let mut notes: Vec<(u8, u64)> = Vec::new();
    notes.push((66, 4));
    notes.push((65, 3));
    notes.push((63, 1));
    notes.push((61, 6));
    notes.push((59, 2));
    notes.push((58, 4));
    notes.push((56, 4));
    notes.push((54, 4));
    assert(notes@ =~= test_melody());
    let mut steps: Vec<Step> = Vec::new();
    steps.push(Step::Wait(4 * BEAT_MILLIS));
    let mut melody = play(&notes);
    steps.append(&mut melody);
    steps.push(Step::Wait(BEAT_MILLIS));
    assert(steps@ =~= test_steps());
    steps
}

/// A sequence of steps that is being carried out, and how far it has come.
#[derive(Debug)]
pub struct Sequencer {
    steps: Vec<Step>,
    position: usize,
}

impl Sequencer {
    /// The steps of the sequence, all of them.
    pub closed spec fn steps(&self) -> Seq<Step> {
        self.steps@
    }

    /// How many steps have been handed out.
    pub closed spec fn position(&self) -> nat {
        self.position as nat
    }

    /// The position lies within the sequence.
    pub closed spec fn well_formed(&self) -> bool {
        self.position <= self.steps@.len()
    }

    /// A sequencer at the start of `steps`.
    pub fn new(steps: Vec<Step>) -> (r: Sequencer)
        ensures
            r.well_formed(),
            r.steps() == steps@,
            r.position() == 0,
    {
        Sequencer { steps, position: 0 }
    }

    /// Hands out the next step, given how the step before it ended.
    ///
    /// A failed send ends the sequence with that failure, and no step is
    /// handed out after it. Otherwise the steps come in their order, one
    /// per call, and `None` once all have been handed out.
    pub fn advance(&mut self, last: Result<(), SendFailure>) -> (r: Result<Option<Step>, Error>)
        requires
            old(self).well_formed(),
        ensures
            final(self).well_formed(),
            final(self).steps() == old(self).steps(),
            match last {
                Err(failure) => {
                    &&& r == Err::<Option<Step>, Error>(Error::MidiSendError(failure))
                    &&& final(self).position() == old(self).steps().len()
                },
                Ok(_) => if old(self).position() < old(self).steps().len() {
                    &&& r == Ok::<Option<Step>, Error>(
                        Some(old(self).steps()[old(self).position() as int]),
                    )
                    &&& final(self).position() == old(self).position() + 1
                } else {
                    &&& r == Ok::<Option<Step>, Error>(None)
                    &&& final(self).position() == old(self).position()
                },
            },
    {
        match last {
            Err(failure) => {
                self.position = self.steps.len();
                Err(Error::MidiSendError(failure))
            },
            Ok(_) => {
                if self.position < self.steps.len() {
                    let step = self.steps[self.position];
                    self.position = self.position + 1;
                    Ok(Some(step))
                } else {
                    Ok(None)
                }
            },
        }
    }
}

/// The steps of a melody come in threes, one three per note and in the
/// notes' order: note-on, the note's wait, note-off.
pub proof fn melody_is_sequential(notes: Seq<(u8, u64)>, k: int)
    requires
        0 <= k < notes.len(),
    ensures
        melody_steps(notes).len() == 3 * notes.len(),
        melody_steps(notes).subrange(3 * k, 3 * k + 3) == note_steps(notes[k].0, notes[k].1),
    decreases notes.len(),
{
    lemma_melody_len(notes);
    lemma_melody_len(notes.drop_last());
    let front = melody_steps(notes.drop_last());
    let back = note_steps(notes.last().0, notes.last().1);
    if k == notes.len() - 1 {
        assert((front + back).subrange(3 * k, 3 * k + 3) =~= back);
    } else {
        melody_is_sequential(notes.drop_last(), k);
        assert((front + back).subrange(3 * k, 3 * k + 3) =~= front.subrange(3 * k, 3 * k + 3));
    }
}

proof fn lemma_melody_len(notes: Seq<(u8, u64)>)
    ensures
        melody_steps(notes).len() == 3 * notes.len(),
    decreases notes.len(),
{
    if notes.len() > 0 {
        lemma_melody_len(notes.drop_last());
    }
}

} // verus!
