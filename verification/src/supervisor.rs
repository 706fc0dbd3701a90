use vstd::prelude::*;
use vstd::string::*;
use crate::errors::Error;

verus! {

/// What the supervisor does after it has heard of a unit's exit.
#[derive(Debug, Clone, PartialEq, Eq)]
pub enum Verdict {
    /// Units are still listening: wait for the next exit.
    Wait,
    /// Every unit has exited cleanly: report success.
    Done,
    /// A unit failed: tear down its siblings and report this error.
    Failed(Error),
}

/// The listeners that one supervisor runs side by side, one per input name.
#[derive(Debug)]
pub struct ListenerSet {
    running: usize,
}

/// What one exit does to a set in which `running` units run: how many run
/// afterwards, and the verdict. A failure leaves none running, since the
/// siblings are torn down with it.
pub open spec fn join_step(running: nat, outcome: Result<(), Error>) -> (nat, Verdict) {
    match outcome {
        Err(error) => (0, Verdict::Failed(error)),
        Ok(_) => if running <= 1 {
            (0, Verdict::Done)
        } else {
            ((running - 1) as nat, Verdict::Wait)
        },
    }
}

/// The verdict that a run of exits, in the order in which they happen,
/// brings a set of `running` units to.
pub open spec fn run_over(running: nat, exits: Seq<Result<(), Error>>) -> (nat, Verdict)
    decreases exits.len(),
{
    if running == 0 {
        (0, Verdict::Done)
    } else if exits.len() == 0 {
        (running, Verdict::Wait)
    } else {
        let (left, verdict) = join_step(running, exits[0]);
        if verdict is Wait {
            run_over(left, exits.drop_first())
        } else {
            (left, verdict)
        }
    }
}

impl ListenerSet {
    /// How many units are still listening.
    pub closed spec fn running(&self) -> nat {
        self.running as nat
    }

    /// A set with one unit for each name.
    pub fn spawn(names: &Vec<String>) -> (set: ListenerSet)
        ensures
            set.running() == names@.len(),
    {
        ListenerSet { running: names.len() }
    }

    /// How many units are still listening.
    pub fn running_units(&self) -> (n: usize)
        ensures
            n == self.running(),
    {
        self.running
    }

    /// What to do before any exit is known: a set without units is done
    /// at once.
    pub fn pending(&self) -> (verdict: Verdict)
        ensures
            verdict == run_over(self.running(), Seq::empty()).1,
            verdict == if self.running() == 0 {
                Verdict::Done
            } else {
                Verdict::Wait
            },
    {
        if self.running == 0 {
            Verdict::Done
        } else {
            Verdict::Wait
        }
    }

    /// Takes note that one unit has exited with `outcome`.
    ///
    /// The first failure wins: it is the verdict, and no unit runs after
    /// it. A clean exit leaves the others listening; the last clean exit
    /// ends the set. Whenever the verdict is not to wait, nothing is left
    /// running.
    pub fn join(&mut self, outcome: Result<(), Error>) -> (verdict: Verdict)
        requires
            old(self).running() > 0,
        ensures
            (final(self).running(), verdict) == join_step(old(self).running(), outcome),
            !(verdict is Wait) ==> final(self).running() == 0,
    {
        match outcome {
            Err(error) => {
                self.running = 0;
                Verdict::Failed(error)
            },
            Ok(_) => {
                self.running = self.running - 1;
                if self.running == 0 {
                    Verdict::Done
                } else {
                    Verdict::Wait
                }
            },
        }
    }
}

/// Starts the listeners for the inputs given on the command line, which
/// asks for at least one.
pub fn run_read(inputs: Option<&Vec<String>>) -> (r: Result<ListenerSet, Error>)
    ensures
        match inputs {
            Some(names) => r matches Ok(set) && set.running() == names@.len(),
            None => r matches Err(Error::InvalidInput(msg)) && msg@
                == "Expected at least one input"@,
        },
{
    match inputs {
        Some(names) => Ok(ListenerSet::spawn(names)),
        None => Err(Error::InvalidInput(String::from_str("Expected at least one input"))),
    }
}

/// When every unit of a set exits cleanly, the supervisor reports success,
/// and only after the last exit: until then it waits. Nothing runs
/// afterwards.
pub proof fn clean_exits_end_in_success(running: nat, exits: Seq<Result<(), Error>>)
    requires
        forall|i: int| 0 <= i < exits.len() ==> (#[trigger] exits[i]) is Ok,
    ensures
        exits.len() >= running ==> run_over(running, exits) == (0nat, Verdict::Done),
        exits.len() < running ==> run_over(running, exits) == (
            (running - exits.len()) as nat,
            Verdict::Wait,
        ),
    decreases exits.len(),
{
    if running > 0 && exits.len() > 0 {
        let rest = exits.drop_first();
        assert(exits[0] is Ok);
        assert forall|i: int| 0 <= i < rest.len() implies (#[trigger] rest[i]) is Ok by {
            assert(rest[i] == exits[i + 1]);
        }
        clean_exits_end_in_success((running - 1) as nat, rest);
    }
}

/// The first unit that fails decides: its error is the verdict, whatever
/// the units after it would have done, and nothing is left running.
pub proof fn first_failure_wins(running: nat, exits: Seq<Result<(), Error>>, k: int, error: Error)
    requires
        0 <= k < exits.len(),
        k < running,
        exits[k] == Err::<(), Error>(error),
        forall|i: int| 0 <= i < k ==> (#[trigger] exits[i]) is Ok,
    ensures
        run_over(running, exits) == (0nat, Verdict::Failed(error)),
    decreases exits.len(),
{
    if k > 0 {
        let rest = exits.drop_first();
        assert(exits[0] is Ok);
        assert(rest[k - 1] == exits[k]);
        assert forall|i: int| 0 <= i < k - 1 implies (#[trigger] rest[i]) is Ok by {
            assert(rest[i] == exits[i + 1]);
        }
        first_failure_wins((running - 1) as nat, rest, k - 1, error);
    }
}

/// However a run of exits goes, the supervisor returns only when no unit
/// is left running.
pub proof fn nothing_runs_after_return(running: nat, exits: Seq<Result<(), Error>>)
    ensures
        !(run_over(running, exits).1 is Wait) ==> run_over(running, exits).0 == 0,
    decreases exits.len(),
{
    if running > 0 && exits.len() > 0 {
        let (left, verdict) = join_step(running, exits[0]);
        if verdict is Wait {
            nothing_runs_after_return(left, exits.drop_first());
        }
    }
}

} // verus!
