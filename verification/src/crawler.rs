//! A run over all registered crawlers: each crawler is started once, each
//! reports one outcome, and the run fails as a whole where one of them did.
//!
//! The crawlers themselves run outside this crate, side by side. What is
//! decided here is the bookkeeping: a run is idle, then running until every
//! crawler has reported, then finished with all succeeded or some failed.
//! No outcome of one crawler changes what is counted for another.

use crate::error::{CrawlerError, CrawlerResult, ErrorKind};
use crate::number::{decimal, push_decimal};
use crate::text::string_of;
use vstd::prelude::*;
use vstd::string::StringExecFns;

verus! {

/// How a crawler's unit of execution ended.
#[derive(Clone, Copy, Debug, PartialEq, Eq, Structural)]
pub enum TaskOutcome {
    /// The crawler ran and succeeded.
    Succeeded,
    /// The crawler ran and reported a failure.
    Failed,
    /// The unit of execution ended without a report.
    Aborted,
}

/// Where a run stands.
#[derive(Clone, Copy, Debug, PartialEq, Eq, Structural)]
pub enum RunState {
    /// Nothing was started yet.
    Idle,
    /// Some crawler has not reported yet.
    Running,
    /// Every crawler reported, and each of them success.
    AllSucceeded,
    /// Every crawler reported, and at least one of them no success.
    SomeFailed,
}

/// The number of outcomes that are successes.
pub open spec fn successes(outcomes: Seq<TaskOutcome>) -> nat
    decreases outcomes.len(),
{
    if outcomes.len() == 0 {
        0
    } else {
        successes(outcomes.drop_last()) + if outcomes.last() == TaskOutcome::Succeeded {
            1nat
        } else {
            0nat
        }
    }
}

/// The number of outcomes that are no successes.
pub open spec fn failures(outcomes: Seq<TaskOutcome>) -> nat
    decreases outcomes.len(),
{
    if outcomes.len() == 0 {
        0
    } else {
        failures(outcomes.drop_last()) + if outcomes.last() == TaskOutcome::Succeeded {
            0nat
        } else {
            1nat
        }
    }
}

/// The cause that a failed run reports: how many crawlers failed and how
/// many succeeded.
pub open spec fn failure_report(failed: nat, succeeded: nat) -> Seq<char> {
    "Some crawlers failed: "@ + decimal(failed) + " failed, "@ + decimal(succeeded)
        + " succeeded"@
}

/// What a run with the given counts comes to.
pub open spec fn verdict(failed: nat, succeeded: nat) -> Result<(), (ErrorKind, Seq<char>)> {
    if failed > 0 {
        Err((ErrorKind::Api, failure_report(failed, succeeded)))
    } else {
        Ok(())
    }
}

/// A result without a value as contracts see it.
pub open spec fn result_view(r: CrawlerResult<()>) -> Result<(), (ErrorKind, Seq<char>)> {
    match r {
        Ok(_) => Ok(()),
        Err(e) => Err(e@),
    }
}

/// Every outcome is counted once, as a success or as a failure.
pub proof fn lemma_every_outcome_counts(outcomes: Seq<TaskOutcome>)
    ensures
        successes(outcomes) + failures(outcomes) == outcomes.len(),
    decreases outcomes.len(),
{
    if outcomes.len() > 0 {
        lemma_every_outcome_counts(outcomes.drop_last());
    }
}

/// What one crawler reports does not change what is counted for the
/// others: with the outcome at `i` replaced, the count of successes among
/// the other outcomes is what it was.
pub proof fn lemma_outcomes_are_isolated(outcomes: Seq<TaskOutcome>, i: int, other: TaskOutcome)
    requires
        0 <= i < outcomes.len(),
    ensures
        successes(outcomes.update(i, other)) + if outcomes[i] == TaskOutcome::Succeeded {
            1nat
        } else {
            0nat
        } == successes(outcomes) + if other == TaskOutcome::Succeeded {
            1nat
        } else {
            0nat
        },
    decreases outcomes.len(),
{
    let changed = outcomes.update(i, other);
    if i == outcomes.len() - 1 {
        assert(changed.drop_last() == outcomes.drop_last());
    } else {
        lemma_outcomes_are_isolated(outcomes.drop_last(), i, other);
        assert(changed.drop_last() == outcomes.drop_last().update(i, other));
    }
}

/// The bookkeeping of one run.
pub struct Run {
    registered: usize,
    succeeded: usize,
    failed: usize,
    started: bool,
}

impl Run {
    #[verifier::type_invariant]
    spec fn consistent(self) -> bool {
        &&& self.succeeded + self.failed <= self.registered
        &&& !self.started ==> self.succeeded == 0 && self.failed == 0
    }

    /// The number of crawlers of the run.
    pub closed spec fn registered(&self) -> nat {
        self.registered as nat
    }

    /// The number of crawlers that reported success.
    pub closed spec fn succeeded(&self) -> nat {
        self.succeeded as nat
    }

    /// The number of crawlers that reported a failure or ended without a
    /// report.
    pub closed spec fn failed(&self) -> nat {
        self.failed as nat
    }

    /// Whether the run was started.
    pub closed spec fn started(&self) -> bool {
        self.started
    }

    /// Where the run stands.
    pub open spec fn state_spec(&self) -> RunState {
        if !self.started() {
            RunState::Idle
        } else if self.succeeded() + self.failed() < self.registered() {
            RunState::Running
        } else if self.failed() > 0 {
            RunState::SomeFailed
        } else {
            RunState::AllSucceeded
        }
    }

    /// An idle run over `registered` crawlers.
    pub fn new(registered: usize) -> (run: Self)
        ensures
            run.registered() == registered,
            run.succeeded() == 0,
            run.failed() == 0,
            !run.started(),
            run.state_spec() == RunState::Idle,
    {
        Run { registered, succeeded: 0, failed: 0, started: false }
    }

    /// Where the run stands.
    pub fn state(&self) -> (s: RunState)
        ensures
            s == self.state_spec(),
    {
        proof {
            use_type_invariant(self);
        }
        if !self.started {
            RunState::Idle
        } else if self.succeeded + self.failed < self.registered {
            RunState::Running
        } else if self.failed > 0 {
            RunState::SomeFailed
        } else {
            RunState::AllSucceeded
        }
    }

    /// How many crawlers reported success, and how many reported a failure
    /// or ended without a report.
    pub fn counts(&self) -> (r: (usize, usize))
        ensures
            r.0 == self.succeeded(),
            r.1 == self.failed(),
    {
        (self.succeeded, self.failed)
    }

    /// Starts an idle run, and says how many crawlers are to be started:
    /// all of them for an idle run, none for a run that was started before.
    /// A run without crawlers has succeeded as soon as it is started.
    pub fn start(&mut self) -> (spawn: usize)
        ensures
            final(self).started(),
            final(self).registered() == old(self).registered(),
            final(self).succeeded() == old(self).succeeded(),
            final(self).failed() == old(self).failed(),
            spawn == if old(self).started() {
                0
            } else {
                old(self).registered()
            },
    {
        proof {
            use_type_invariant(&*self);
        }
        if self.started {
            0
        } else {
            self.started = true;
            self.registered
        }
    }

    /// Counts the outcome of one crawler of a running run, and says whether
    /// it was counted. A run that is idle or finished counts nothing more.
    pub fn record(&mut self, outcome: TaskOutcome) -> (counted: bool)
        ensures
            counted == (old(self).state_spec() == RunState::Running),
            final(self).registered() == old(self).registered(),
            final(self).started() == old(self).started(),
            final(self).succeeded() == old(self).succeeded() + if counted && outcome
                == TaskOutcome::Succeeded {
                1nat
            } else {
                0nat
            },
            final(self).failed() == old(self).failed() + if counted && outcome
                != TaskOutcome::Succeeded {
                1nat
            } else {
                0nat
            },
    {
        proof {
            use_type_invariant(&*self);
        }
        if !self.started || self.succeeded + self.failed >= self.registered {
            return false;
        }
        match outcome {
            TaskOutcome::Succeeded => {
                self.succeeded = self.succeeded + 1;
            },
            TaskOutcome::Failed => {
                self.failed = self.failed + 1;
            },
            TaskOutcome::Aborted => {
                self.failed = self.failed + 1;
            },
        }
        true
    }

    /// What the run came to, once it is finished: success where every
    /// crawler succeeded, and else one failure that carries the counts.
    pub fn result(&self) -> (r: Option<CrawlerResult<()>>)
        ensures
            self.state_spec() == RunState::Idle || self.state_spec() == RunState::Running ==> r
                is None,
            self.state_spec() == RunState::AllSucceeded ==> r matches Some(Ok(_)),
            self.state_spec() == RunState::SomeFailed ==> (r matches Some(Err(e)) && e@ == (
                ErrorKind::Api,
                failure_report(self.failed(), self.succeeded()),
            )),
    {
        match self.state() {
            RunState::Idle => None,
            RunState::Running => None,
            RunState::AllSucceeded => Some(Ok(())),
            RunState::SomeFailed => Some(Err(failure(self.failed, self.succeeded))),
        }
    }
}

/// The failure of a run with the given counts.
fn failure(failed: usize, succeeded: usize) -> (e: CrawlerError)
    ensures
        e@ == (ErrorKind::Api, failure_report(failed as nat, succeeded as nat)),
{
    let mut failed_text: Vec<char> = Vec::new();
    push_decimal(&mut failed_text, failed as u64);
    let mut succeeded_text: Vec<char> = Vec::new();
    push_decimal(&mut succeeded_text, succeeded as u64);
    let mut text = String::from_str("Some crawlers failed: ");
    text.append(string_of(&failed_text).as_str());
    text.append(" failed, ");
    text.append(string_of(&succeeded_text).as_str());
    text.append(" succeeded");
    CrawlerError::Api(text)
}

/// The crawlers of a run, by name.
pub struct CrawlerManager {
    crawlers: Vec<&'static str>,
}

impl CrawlerManager {
    /// The names of the registered crawlers, in the order in which they
    /// were registered.
    pub closed spec fn names(&self) -> Seq<&'static str> {
        self.crawlers@
    }

    /// A manager without crawlers.
    pub fn new() -> (manager: Self)
        ensures
            manager.names() == Seq::<&'static str>::empty(),
    {
        CrawlerManager { crawlers: Vec::new() }
    }

    /// The manager with the crawler `name` registered after the others.
    pub fn add_crawler(self, name: &'static str) -> (manager: Self)
        ensures
            manager.names() == self.names().push(name),
    {
        let mut crawlers = self.crawlers;
        crawlers.push(name);
        CrawlerManager { crawlers }
    }

    /// The names of the registered crawlers.
    pub fn crawlers(&self) -> (names: &Vec<&'static str>)
        ensures
            names@ == self.names(),
    {
        &self.crawlers
    }

    /// An idle run over the registered crawlers.
    pub fn run(&self) -> (run: Run)
        ensures
            run.registered() == self.names().len(),
            run.state_spec() == RunState::Idle,
    {
        Run::new(self.crawlers.len())
    }

    /// What a run comes to in which the units of execution ended as
    /// `outcomes` says, one outcome for each: success where all of them
    /// succeeded, and else one failure that says how many failed and how
    /// many succeeded. An outcome that is no success counts as one failure,
    /// whatever the other outcomes are.
    pub fn run_all(&self, outcomes: &Vec<TaskOutcome>) -> (r: CrawlerResult<()>)
        ensures
            result_view(r) == verdict(failures(outcomes@), successes(outcomes@)),
            r is Ok <==> forall|i: int|
                0 <= i < outcomes@.len() ==> outcomes@[i] == TaskOutcome::Succeeded,
    {
        let mut succeeded: usize = 0;
        let mut failed: usize = 0;
        let mut i: usize = 0;
        while i < outcomes.len()
            invariant
                i <= outcomes.len(),
                succeeded == successes(outcomes@.take(i as int)),
                failed == failures(outcomes@.take(i as int)),
                succeeded + failed == i,
                failed == 0 <==> forall|k: int|
                    0 <= k < i ==> outcomes@[k] == TaskOutcome::Succeeded,
            decreases outcomes.len() - i,
        {
            proof {
                assert(outcomes@.take(i + 1).drop_last() == outcomes@.take(i as int));
            }
            match outcomes[i] {
                TaskOutcome::Succeeded => {
                    succeeded += 1;
                },
                TaskOutcome::Failed => {
                    failed += 1;
                },
                TaskOutcome::Aborted => {
                    failed += 1;
                },
            }
            i += 1;
        }
        assert(outcomes@.take(outcomes.len() as int) == outcomes@);
        if failed > 0 {
            Err(failure(failed, succeeded))
        } else {
            Ok(())
        }
    }
}

} // verus!
