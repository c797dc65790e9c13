//! What the scan records of each load balancer, whatever its kind.

use crate::models::LoadBalancerState;
use crate::region::region_name;
use aws_types::region::Region;
use vstd::prelude::*;

verus! {

/// The two kinds of load balancer.
#[derive(Clone, Copy, Debug, PartialEq, Eq, Structural)]
pub enum ResourceKind {
    /// A classic load balancer, known by its name.
    SingleStage,
    /// A load balancer that routes through target groups, known by its ARN.
    MultiStage,
}

/// A record as plain data: how the load balancer is identified, its region
/// and VPC, and whether it was found active.
pub struct RecordView {
    pub identifier: Seq<char>,
    pub region: Seq<char>,
    pub vpc_id: Seq<char>,
    pub state: LoadBalancerState,
}

/// A load balancer to delete: its identifier and the region it lives in.
#[derive(Debug)]
pub struct DeletionTask {
    pub identifier: String,
    pub region: Region,
}

/// The record of one classified load balancer. Each kind of load balancer
/// has its own type of record.
pub trait ResourceRecord: Sized {
    /// The kind of load balancer that this type records.
    spec fn resource_kind() -> ResourceKind;

    /// The record as plain data.
    spec fn fields(&self) -> RecordView;

    /// The kind of load balancer that this type records.
    fn kind() -> (kind: ResourceKind)
        ensures
            kind == Self::resource_kind(),
    ;

    /// The name or ARN of the load balancer.
    fn identifier(&self) -> (id: &str)
        ensures
            id@ == self.fields().identifier,
    ;

    /// The region of the load balancer.
    fn region(&self) -> (region: &Region)
        ensures
            region_name(*region) == self.fields().region,
    ;

    /// The VPC of the load balancer.
    fn vpc_id(&self) -> (vpc: &str)
        ensures
            vpc@ == self.fields().vpc_id,
    ;

    /// Whether the load balancer was found active.
    fn state(&self) -> (state: LoadBalancerState)
        ensures
            state == self.fields().state,
    ;

    /// Turns the record into the task of deleting its load balancer.
    fn into_deletion_task(self) -> (task: DeletionTask)
        ensures
            task.identifier@ == self.fields().identifier,
            region_name(task.region) == self.fields().region,
    ;
}

/// The records as plain data, in order.
pub open spec fn fields_of<R: ResourceRecord>(records: Seq<R>) -> Seq<RecordView> {
    records.map_values(|r: R| r.fields())
}

/// Whether a record is of an inactive load balancer.
pub open spec fn is_inactive<R: ResourceRecord>(record: R) -> bool {
    record.fields().state == LoadBalancerState::Inactive
}

/// The records of inactive load balancers among `records`, in their order.
pub open spec fn inactive<R: ResourceRecord>(records: Seq<R>) -> Seq<R> {
    records.filter(|r: R| is_inactive(r))
}

/// Keeps the records of inactive load balancers, in their order, and drops
/// the others.
pub fn inactive_only<R: ResourceRecord>(records: Vec<R>) -> (kept: Vec<R>)
    ensures
        kept@ == inactive(records@),
{
    let mut kept: Vec<R> = Vec::new();
    let ghost all = records@;
    let ghost pred = |r: R| is_inactive(r);
    proof {
        reveal(Seq::filter);
    }
    for record in it: records
        invariant
            it.seq() == all,
            pred == (|r: R| is_inactive(r)),
            kept@ == all.take(it.index()).filter(pred),
    {
        proof {
            reveal(Seq::filter);
            assert(all.take(it.index() + 1).drop_last() =~= all.take(it.index()));
        }
        if record.state().is_inactive() {
            kept.push(record);
        }
    }
    assert(all.take(all.len() as int) =~= all);
    kept
}

} // verus!
