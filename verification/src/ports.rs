use vstd::prelude::*;
use vstd::string::*;
use crate::errors::{Error, PortInfoFailure};

verus! {

/// Which way messages flow through a port.
#[derive(Debug, Clone, Copy, PartialEq, Eq)]
pub enum Direction {
    Input,
    Output,
}

/// What a scan of the registry for a name comes to.
pub enum Outcome {
    /// The port at this position is the first that bears the name.
    Found(int),
    /// The host could not name a port that the scan reached.
    Unreadable(PortInfoFailure),
    /// Every port was named and none bears the name.
    Missing,
}

/// Scans the registry from position `from` on, in registry order: the first
/// port that cannot be named or that bears exactly `name` decides.
pub open spec fn scan_from(
    queries: Seq<Result<String, PortInfoFailure>>,
    name: Seq<char>,
    from: int,
) -> Outcome
    decreases queries.len() - from,
{
    if from < 0 || from >= queries.len() {
        Outcome::Missing
    } else {
        match queries[from] {
            Err(failure) => Outcome::Unreadable(failure),
            Ok(port) => if port@ == name {
                Outcome::Found(from)
            } else {
                scan_from(queries, name, from + 1)
            },
        }
    }
}

/// The scan of the whole registry.
pub open spec fn scan(queries: Seq<Result<String, PortInfoFailure>>, name: Seq<char>) -> Outcome {
    scan_from(queries, name, 0)
}

/// How the "not found" message starts for each direction.
pub open spec fn missing_prefix(direction: Direction) -> Seq<char> {
    match direction {
        Direction::Input => "could not find input with name "@,
        Direction::Output => "could not find output with name "@,
    }
}

/// The result that a scan outcome is reported as.
pub open spec fn reported(
    outcome: Outcome,
    direction: Direction,
    name: Seq<char>,
    r: Result<usize, Error>,
) -> bool {
    match outcome {
        Outcome::Found(i) => r == Ok::<usize, Error>(i as usize),
        Outcome::Unreadable(failure) => r == Err::<usize, Error>(Error::MidiPortInfoError(failure)),
        Outcome::Missing => r matches Err(Error::InvalidInput(msg)) && msg@ == missing_prefix(
            direction,
        ) + name,
    }
}

/// Resolves a name to the position of the first port that bears it exactly.
///
/// `queries` holds, in registry order, what the host answered when it was
/// asked for each port's name.
pub fn resolve(
    direction: Direction,
    queries: &Vec<Result<String, PortInfoFailure>>,
    name: &str,
) -> (r: Result<usize, Error>)
    ensures
        reported(scan(queries@, name@), direction, name@, r),
        r matches Ok(i) ==> i < queries@.len(),
{
    let wanted = String::from_str(name);
    let mut i: usize = 0;
    while i < queries.len()
        invariant
            i <= queries@.len(),
            wanted@ == name@,
            scan_from(queries@, name@, i as int) == scan(queries@, name@),
        decreases queries@.len() - i,
    {
        match &queries[i] {
            Err(failure) => {
                return Err(Error::MidiPortInfoError(*failure));
            },
            Ok(port) => {
                if *port == wanted {
                    return Ok(i);
                }
            },
        }
        i += 1;
    }
    let prefix = match direction {
        Direction::Input => String::from_str("could not find input with name "),
        Direction::Output => String::from_str("could not find output with name "),
    };
    Err(Error::InvalidInput(prefix.concat(name)))
}

/// Resolves the name of an input port.
pub fn connect_input(queries: &Vec<Result<String, PortInfoFailure>>, name: &str) -> (r: Result<
    usize,
    Error,
>)
    ensures
        reported(scan(queries@, name@), Direction::Input, name@, r),
        r matches Ok(i) ==> i < queries@.len(),
{
    resolve(Direction::Input, queries, name)
}

/// Resolves the name of an output port.
pub fn connect_output(queries: &Vec<Result<String, PortInfoFailure>>, name: &str) -> (r: Result<
    usize,
    Error,
>)
    ensures
        reported(scan(queries@, name@), Direction::Output, name@, r),
        r matches Ok(i) ==> i < queries@.len(),
{
    resolve(Direction::Output, queries, name)
}

/// Every port before `upto` could be named.
pub open spec fn readable(queries: Seq<Result<String, PortInfoFailure>>, upto: int) -> bool {
    forall|j: int| 0 <= j < upto ==> (#[trigger] queries[j]) is Ok
}

/// `names` lists the ports of `queries` one for one, in the same order.
pub open spec fn lists(queries: Seq<Result<String, PortInfoFailure>>, names: Seq<String>) -> bool {
    &&& names.len() == queries.len()
    &&& forall|j: int|
        0 <= j < queries.len() ==> (#[trigger] queries[j]) == Ok::<String, PortInfoFailure>(
            names[j],
        )
}

/// `failure` is what the host answered for the first port it could not name.
pub open spec fn first_unreadable(
    queries: Seq<Result<String, PortInfoFailure>>,
    failure: PortInfoFailure,
) -> bool {
    exists|i: int|
        0 <= i < queries.len() && readable(queries, i) && #[trigger] queries[i] == Err::<
            String,
            PortInfoFailure,
        >(failure)
}

/// The enumeration of one direction: every port's name in registry order,
/// or the first failure to name a port.
pub open spec fn enumerated(
    queries: Seq<Result<String, PortInfoFailure>>,
    r: Result<Vec<String>, Error>,
) -> bool {
    match r {
        Ok(names) => lists(queries, names@),
        Err(Error::MidiPortInfoError(failure)) => first_unreadable(queries, failure),
        Err(_) => false,
    }
}

fn list_names(queries: &Vec<Result<String, PortInfoFailure>>) -> (r: Result<Vec<String>, Error>)
    ensures
        enumerated(queries@, r),
        r is Ok <==> readable(queries@, queries@.len() as int),
{
    let mut list: Vec<String> = Vec::new();
    let mut i: usize = 0;
    while i < queries.len()
        invariant
            i <= queries@.len(),
            list@.len() == i,
            forall|j: int|
                0 <= j < i ==> (#[trigger] queries@[j]) == Ok::<String, PortInfoFailure>(list@[j]),
        decreases queries@.len() - i,
    {
        match &queries[i] {
            Err(failure) => {
                assert(readable(queries@, i as int));
                assert(queries@[i as int] == Err::<String, PortInfoFailure>(*failure));
                return Err(Error::MidiPortInfoError(*failure));
            },
            Ok(port) => {
                list.push(port.clone());
            },
        }
        i += 1;
    }
    Ok(list)
}

/// The names of the output ports, as the host reported them: in its order,
/// nothing left out and nothing merged.
pub fn list_outputs(queries: &Vec<Result<String, PortInfoFailure>>) -> (r: Result<
    Vec<String>,
    Error,
>)
    ensures
        enumerated(queries@, r),
        r is Ok <==> readable(queries@, queries@.len() as int),
{
    list_names(queries)
}

/// The names of the input ports, as the host reported them: in its order,
/// nothing left out and nothing merged.
pub fn list_inputs(queries: &Vec<Result<String, PortInfoFailure>>) -> (r: Result<
    Vec<String>,
    Error,
>)
    ensures
        enumerated(queries@, r),
        r is Ok <==> readable(queries@, queries@.len() as int),
{
    list_names(queries)
}

/// The scan goes past a port that was named and bears another name.
pub open spec fn passed_over(query: Result<String, PortInfoFailure>, name: Seq<char>) -> bool {
    match query {
        Ok(port) => port@ != name,
        Err(_) => false,
    }
}

/// What a scan from `from` on comes to, said without recursion.
pub proof fn lemma_scan_from(
    queries: Seq<Result<String, PortInfoFailure>>,
    name: Seq<char>,
    from: int,
)
    requires
        0 <= from <= queries.len(),
    ensures
        match scan_from(queries, name, from) {
            Outcome::Found(i) => {
                &&& from <= i < queries.len()
                &&& queries[i] matches Ok(port) && port@ == name
                &&& forall|j: int|
                    from <= j < i ==> passed_over(#[trigger] queries[j], name)
            },
            Outcome::Unreadable(failure) => exists|i: int|
                {
                    &&& from <= i < queries.len()
                    &&& #[trigger] queries[i] == Err::<String, PortInfoFailure>(failure)
                    &&& forall|j: int|
                        from <= j < i ==> passed_over(#[trigger] queries[j], name)
                },
            Outcome::Missing => forall|j: int|
                from <= j < queries.len() ==> passed_over(#[trigger] queries[j], name),
        },
    decreases queries.len() - from,
{
    if from < queries.len() {
        match queries[from] {
            Err(failure) => {},
            Ok(port) => {
                if port@ != name {
                    lemma_scan_from(queries, name, from + 1);
                    match scan_from(queries, name, from + 1) {
                        Outcome::Unreadable(failure) => {
                            let i = choose|i: int|
                                {
                                    &&& from + 1 <= i < queries.len()
                                    &&& #[trigger] queries[i] == Err::<String, PortInfoFailure>(
                                        failure,
                                    )
                                    &&& forall|j: int|
                                        from + 1 <= j < i ==> passed_over(#[trigger] queries[j], name)
                                };
                            assert(forall|j: int|
                                from <= j < i ==> passed_over(#[trigger] queries[j], name));
                        },
                        _ => {},
                    }
                }
            },
        }
    }
}

/// A name that an enumeration lists resolves, right after that enumeration,
/// to the first port that bears it, and that port's name is the requested
/// name exactly.
pub proof fn enumerated_name_resolves(
    queries: Seq<Result<String, PortInfoFailure>>,
    names: Seq<String>,
    k: int,
)
    requires
        lists(queries, names),
        0 <= k < names.len(),
    ensures
        scan(queries, names[k]@) matches Outcome::Found(i) && 0 <= i <= k && names[i]@
            == names[k]@,
{
    let name = names[k]@;
    lemma_scan_from(queries, name, 0);
    assert(queries[k] == Ok::<String, PortInfoFailure>(names[k]));
    match scan(queries, name) {
        Outcome::Found(i) => {
            assert(queries[i] == Ok::<String, PortInfoFailure>(names[i]));
            if i > k {
                assert(passed_over(queries[k], name));
            }
        },
        Outcome::Unreadable(failure) => {
            let i = choose|i: int|
                0 <= i < queries.len() && #[trigger] queries[i] == Err::<String, PortInfoFailure>(
                    failure,
                );
            assert(queries[i] == Ok::<String, PortInfoFailure>(names[i]));
        },
        Outcome::Missing => {},
    }
}

/// A name that no enumerated port bears exactly is missing, however close
/// another port's name comes to it; and a scan finds a port only under
/// exactly the requested name.
pub proof fn absent_name_is_missing(
    queries: Seq<Result<String, PortInfoFailure>>,
    names: Seq<String>,
    name: Seq<char>,
)
    requires
        lists(queries, names),
    ensures
        (forall|j: int| 0 <= j < names.len() ==> (#[trigger] names[j])@ != name) <==> scan(
            queries,
            name,
        ) == Outcome::Missing,
        scan(queries, name) matches Outcome::Found(i) ==> 0 <= i < names.len() && names[i]@
            == name,
{
    lemma_scan_from(queries, name, 0);
    match scan(queries, name) {
        Outcome::Found(i) => {
            assert(queries[i] == Ok::<String, PortInfoFailure>(names[i]));
        },
        Outcome::Unreadable(failure) => {
            let i = choose|i: int|
                0 <= i < queries.len() && #[trigger] queries[i] == Err::<String, PortInfoFailure>(
                    failure,
                );
            assert(queries[i] == Ok::<String, PortInfoFailure>(names[i]));
        },
        Outcome::Missing => {
            assert forall|j: int| 0 <= j < names.len() implies (#[trigger] names[j])@ != name by {
                assert(queries[j] == Ok::<String, PortInfoFailure>(names[j]));
            }
        },
    }
    if forall|j: int| 0 <= j < names.len() ==> (#[trigger] names[j])@ != name {
        match scan(queries, name) {
            Outcome::Found(i) => {
                assert(names[i]@ != name);
            },
            _ => {},
        }
    }
}

} // verus!
