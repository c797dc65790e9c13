//! Deleting the load balancers found inactive: one task for each, and a
//! log of how each deletion ended.

use crate::record::{DeletionTask, ResourceRecord};
use crate::region::region_name;
use vstd::prelude::*;

verus! {

/// How the deletion of one load balancer ended.
#[derive(Debug)]
pub struct DeletionOutcome {
    pub identifier: String,
    pub succeeded: bool,
    pub error_detail: Option<String>,
}

/// An outcome as plain data.
pub struct OutcomeView {
    pub identifier: Seq<char>,
    pub succeeded: bool,
    pub error_detail: Option<Seq<char>>,
}

impl View for DeletionOutcome {
    type V = OutcomeView;

    open spec fn view(&self) -> OutcomeView {
        OutcomeView {
            identifier: self.identifier@,
            succeeded: self.succeeded,
            error_detail: match self.error_detail {
                Some(detail) => Some(detail@),
                None => None,
            },
        }
    }
}

/// The outcomes as plain data, in order.
pub open spec fn outcomes_of(outcomes: Seq<DeletionOutcome>) -> Seq<OutcomeView> {
    outcomes.map_values(|o: DeletionOutcome| o@)
}

/// Whether `tasks` are the deletions of the load balancers in `records`,
/// one task for each record and in the same order.
pub open spec fn tasks_match<R: ResourceRecord>(tasks: Seq<DeletionTask>, records: Seq<R>) -> bool {
    &&& tasks.len() == records.len()
    &&& forall|i: int|
        0 <= i < records.len() ==> {
            &&& (#[trigger] tasks[i]).identifier@ == records[i].fields().identifier
            &&& region_name(tasks[i].region) == records[i].fields().region
        }
}

/// The deletion tasks for the load balancers in `records`: one for each,
/// in the same order.
pub fn deletion_tasks<R: ResourceRecord>(records: Vec<R>) -> (tasks: Vec<DeletionTask>)
    ensures
        tasks_match(tasks@, records@),
{
    let mut tasks: Vec<DeletionTask> = Vec::new();
    let ghost all = records@;
    for record in it: records
        invariant
            it.seq() == all,
            tasks_match(tasks@, all.take(it.index())),
    {
        tasks.push(record.into_deletion_task());
    }
    assert(all.take(all.len() as int) =~= all);
    tasks
}

impl DeletionOutcome {
    /// The outcome of deleting `identifier`, from the answer to the
    /// deletion call: a success, or a failure with what the call said.
    pub fn from_response(identifier: String, response: Result<(), String>) -> (outcome: Self)
        ensures
            outcome.identifier == identifier,
            outcome.succeeded == response is Ok,
            outcome.error_detail == match response {
                Ok(_) => None::<String>,
                Err(detail) => Some(detail),
            },
    {
        match response {
            Ok(_) => DeletionOutcome { identifier, succeeded: true, error_detail: None },
            Err(detail) => DeletionOutcome {
                identifier,
                succeeded: false,
                error_detail: Some(detail),
            },
        }
    }
}

/// The outcomes of a run of deletions, and how many are awaited.
pub struct LogView {
    /// How many deletion tasks there are.
    pub expected: nat,
    /// The outcomes that have come in, in order.
    pub outcomes: Seq<OutcomeView>,
}

/// The log of a run of deletions. Every task hands in one outcome, failed
/// or not; none stops the others.
#[derive(Debug)]
pub struct DeletionLog {
    expected: usize,
    outcomes: Vec<DeletionOutcome>,
}

impl View for DeletionLog {
    type V = LogView;

    closed spec fn view(&self) -> LogView {
        LogView { expected: self.expected as nat, outcomes: outcomes_of(self.outcomes@) }
    }
}

impl DeletionLog {
    /// The log for `expected` deletion tasks, before any outcome.
    pub fn new(expected: usize) -> (log: Self)
        ensures
            log@ == (LogView { expected: expected as nat, outcomes: Seq::empty() }),
    {
        let log = DeletionLog { expected, outcomes: Vec::new() };
        assert(log@.outcomes =~= Seq::empty());
        log
    }

    /// Takes in the outcome of one deletion, whether it succeeded or not.
    pub fn record(&mut self, outcome: DeletionOutcome)
        ensures
            final(self)@ == (LogView {
                outcomes: old(self)@.outcomes.push(outcome@),
                ..old(self)@
            }),
    {
        self.outcomes.push(outcome);
        assert(outcomes_of(self.outcomes@) =~= outcomes_of(old(self).outcomes@).push(outcome@));
    }

    /// Whether every task has handed in its outcome.
    pub fn is_complete(&self) -> (complete: bool)
        ensures
            complete == (self@.outcomes.len() >= self@.expected),
    {
        self.outcomes.len() >= self.expected
    }

    /// How many outcomes have come in.
    pub fn len(&self) -> (n: usize)
        ensures
            n == self@.outcomes.len(),
    {
        self.outcomes.len()
    }

    /// Hands out the outcomes, in the order in which they came.
    pub fn into_outcomes(self) -> (outcomes: Vec<DeletionOutcome>)
        ensures
            outcomes_of(outcomes@) == self@.outcomes,
    {
        self.outcomes
    }
}

} // verus!
