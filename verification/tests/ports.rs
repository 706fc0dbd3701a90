use midi::{connect_input, connect_output, list_inputs, list_outputs, resolve};
use midi::{Direction, Error, PortInfoFailure};

fn named(names: &[&str]) -> Vec<Result<String, PortInfoFailure>> {
    names.iter().map(|n| Ok(n.to_string())).collect()
}

#[test]
fn every_listed_name_resolves_to_itself() {
    let queries = named(&["Midi Through", "Keystation", "Synth", "Keystation"]);
    for direction in [Direction::Input, Direction::Output] {
        let names = match direction {
            Direction::Input => list_inputs(&queries).unwrap(),
            Direction::Output => list_outputs(&queries).unwrap(),
        };
        assert_eq!(names.len(), 4);
        for name in names.iter() {
            let at = resolve(direction, &queries, name).unwrap();
            assert_eq!(&names[at], name);
        }
    }
}

#[test]
fn listing_keeps_order_and_duplicates() {
    let queries = named(&["b", "a", "b", ""]);
    let expected: Vec<String> = vec!["b".into(), "a".into(), "b".into(), "".into()];
    assert_eq!(list_inputs(&queries), Ok(expected.clone()));
    assert_eq!(list_outputs(&queries), Ok(expected));
}

#[test]
fn listing_nothing_gives_nothing() {
    assert_eq!(list_inputs(&Vec::new()), Ok(Vec::new()));
}

#[test]
fn listing_reports_the_first_unreadable_port() {
    let queries = vec![
        Ok("a".to_string()),
        Err(PortInfoFailure::CannotRetrievePortName),
        Err(PortInfoFailure::InvalidPort),
    ];
    assert_eq!(
        list_outputs(&queries),
        Err(Error::MidiPortInfoError(PortInfoFailure::CannotRetrievePortName))
    );
    assert_eq!(
        list_inputs(&queries),
        Err(Error::MidiPortInfoError(PortInfoFailure::CannotRetrievePortName))
    );
}

#[test]
fn first_match_wins() {
    let queries = named(&["x", "dup", "y", "dup"]);
    assert_eq!(connect_input(&queries, "dup"), Ok(1));
    assert_eq!(connect_output(&queries, "dup"), Ok(1));
    assert_eq!(connect_output(&queries, "y"), Ok(2));
}

#[test]
fn absent_name_is_not_found() {
    let queries = named(&["Foo Bar", "foo", "Foo ", " Foo", "FOO"]);
    assert_eq!(
        connect_input(&queries, "Foo"),
        Err(Error::InvalidInput("could not find input with name Foo".to_string()))
    );
    assert_eq!(
        connect_output(&queries, "Foo"),
        Err(Error::InvalidInput("could not find output with name Foo".to_string()))
    );
}

#[test]
fn empty_registry_finds_nothing() {
    assert_eq!(
        resolve(Direction::Output, &Vec::new(), "Synth"),
        Err(Error::InvalidInput("could not find output with name Synth".to_string()))
    );
}

#[test]
fn no_partial_match_either_way() {
    let queries = named(&["Foo"]);
    assert!(connect_input(&queries, "Foo Bar").is_err());
    assert!(connect_input(&queries, "Fo").is_err());
    assert_eq!(connect_input(&queries, "Foo"), Ok(0));
}

#[test]
fn unreadable_port_before_the_match_stops_the_scan() {
    let queries = vec![
        Ok("a".to_string()),
        Err(PortInfoFailure::InvalidPort),
        Ok("b".to_string()),
    ];
    assert_eq!(
        connect_input(&queries, "b"),
        Err(Error::MidiPortInfoError(PortInfoFailure::InvalidPort))
    );
    assert_eq!(
        connect_input(&queries, "zzz"),
        Err(Error::MidiPortInfoError(PortInfoFailure::InvalidPort))
    );
}

#[test]
fn unreadable_port_after_the_match_is_never_reached() {
    let queries = vec![
        Ok("a".to_string()),
        Err(PortInfoFailure::PortNumberOutOfRange),
    ];
    assert_eq!(connect_output(&queries, "a"), Ok(0));
}

#[test]
fn names_are_compared_char_for_char() {
    let queries = named(&["Ger\u{e4}t", "Gera\u{308}t"]);
    assert_eq!(connect_input(&queries, "Gera\u{308}t"), Ok(1));
    assert_eq!(connect_input(&queries, "Ger\u{e4}t"), Ok(0));
}
