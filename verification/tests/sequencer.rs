use midi::{play, play_note, Error, SendFailure, Sequencer, Step};

#[test]
fn three_notes_play_strictly_one_after_the_other() {
    let steps = play(&vec![(66, 4), (65, 3), (63, 1)]);
    assert_eq!(
        steps,
        vec![
            Step::Send(0x90, 66, 0x50),
            Step::Wait(600),
            Step::Send(0x80, 66, 0x50),
            Step::Send(0x90, 65, 0x50),
            Step::Wait(450),
            Step::Send(0x80, 65, 0x50),
            Step::Send(0x90, 63, 0x50),
            Step::Wait(150),
            Step::Send(0x80, 63, 0x50),
        ]
    );
}

#[test]
fn one_note_is_on_wait_off() {
    assert_eq!(
        play_note(61, 6),
        vec![Step::Send(0x90, 61, 0x50), Step::Wait(900), Step::Send(0x80, 61, 0x50)]
    );
}

#[test]
fn longest_note_fits() {
    let longest = u64::MAX / 150;
    assert_eq!(longest, midi::sequencer::MAX_DURATION);
    assert_eq!(play_note(0, longest)[1], Step::Wait(longest * 150));
    assert_eq!(play_note(0, 0)[1], Step::Wait(0));
}

#[test]
fn no_notes_no_steps() {
    assert_eq!(play(&Vec::new()), Vec::new());
}

#[test]
fn test_sequence_is_the_fixed_melody() {
    let steps = midi::sequencer::test();
    let melody: Vec<(u8, u64)> =
        vec![(66, 4), (65, 3), (63, 1), (61, 6), (59, 2), (58, 4), (56, 4), (54, 4)];
    let mut expected = vec![Step::Wait(600)];
    for (note, duration) in melody {
        expected.push(Step::Send(0x90, note, 0x50));
        expected.push(Step::Wait(duration * 150));
        expected.push(Step::Send(0x80, note, 0x50));
    }
    expected.push(Step::Wait(150));
    assert_eq!(steps.len(), 26);
    assert_eq!(steps, expected);
}

#[test]
fn sequencer_hands_out_steps_in_order() {
    let steps = play(&vec![(66, 4), (65, 3)]);
    let mut sequencer = Sequencer::new(steps.clone());
    let mut seen = Vec::new();
    while let Some(step) = sequencer.advance(Ok(())).unwrap() {
        seen.push(step);
    }
    assert_eq!(seen, steps);
    assert_eq!(sequencer.advance(Ok(())), Ok(None));
}

#[test]
fn sequencer_stops_at_a_failed_send() {
    let mut sequencer = Sequencer::new(play(&vec![(66, 4)]));
    assert_eq!(sequencer.advance(Ok(())), Ok(Some(Step::Send(0x90, 66, 0x50))));
    let failure = SendFailure::InvalidData("message too long".to_string());
    assert_eq!(
        sequencer.advance(Err(failure.clone())),
        Err(Error::MidiSendError(failure))
    );
    assert_eq!(sequencer.advance(Ok(())), Ok(None));
}
