//! Classic (single-stage) load balancers: what a listing tells of one, the
//! metric that shows its activity, and the record kept of it.

use crate::cloudwatch::{
    activity, classify, values_of, Dimension, DimensionView, Metric, MetricDataResult, MetricView,
};
use crate::models::LoadBalancerState;
use crate::record::{DeletionTask, RecordView, ResourceKind, ResourceRecord};
use crate::region::{region_name, region_new};
use crate::report::{csv_row, row};
use crate::text::{last_field, split};
use crate::utils::extract_region_from_elb_dns;
use aws_types::region::Region;
use vstd::prelude::*;

verus! {

/// What a region's inventory tells of one classic load balancer.
#[derive(Debug)]
pub struct LoadBalancerDescription {
    pub load_balancer_name: String,
    pub vpc_id: String,
    pub dns_name: String,
}

/// The record of one classified classic load balancer.
#[derive(Debug)]
pub struct ElbData {
    pub name: String,
    pub state: LoadBalancerState,
    pub region: Region,
    pub vpc_id: String,
}

/// The metric that shows whether the classic load balancer `name` has
/// healthy hosts. Of a name with colons in it, what follows the last colon
/// counts.
pub open spec fn healthy_hosts_of(name: Seq<char>) -> MetricView {
    MetricView {
        namespace: "AWS/ELB"@,
        metric_name: "HealthyHostCount"@,
        dimensions: seq![
            DimensionView { name: "LoadBalancerName"@, value: split(name, ':').last() },
        ],
    }
}

/// The metric to query for the classic load balancer `name`.
pub fn healthy_host_metric(name: &str) -> (metric: Metric)
    ensures
        metric@ == healthy_hosts_of(name@),
{
    let dimension = Dimension {
        name: "LoadBalancerName".to_owned(),
        value: last_field(name, ':'),
    };
    let mut dimensions: Vec<Dimension> = Vec::new();
    dimensions.push(dimension);
    let metric = Metric {
        namespace: "AWS/ELB".to_owned(),
        metric_name: "HealthyHostCount".to_owned(),
        dimensions,
    };
    assert(metric@.dimensions =~= healthy_hosts_of(name@).dimensions);
    metric
}

impl ElbData {
    /// A record with the fields given.
    pub fn new(name: &str, state: LoadBalancerState, region: Region, vpc_id: String) -> (data:
        Self)
        ensures
            data.name@ == name@,
            data.state == state,
            data.region == region,
            data.vpc_id == vpc_id,
    {
        ElbData { name: name.to_owned(), state, region, vpc_id }
    }

    /// The record's line in a report: name, state, region and VPC with
    /// commas between them. The record stays as it is.
    pub fn to_string(&mut self) -> (line: String)
        ensures
            *final(self) == *old(self),
            line@ == row(old(self).fields()),
    {
        csv_row(&*self)
    }

    /// The record of the load balancer `lb`, given the outcome of the query
    /// for its healthy hosts. Its region is read from its DNS name, which
    /// must hold one: more than two labels.
    pub fn classified(lb: LoadBalancerDescription, stats: Option<&MetricDataResult>) -> (data:
        Self)
        requires
            split(lb.dns_name@, '.').len() > 2,
        ensures
            data.name@ == lb.load_balancer_name@,
            data.vpc_id@ == lb.vpc_id@,
            region_name(data.region) == split(lb.dns_name@, '.')[1],
            data.state == activity(values_of(stats)),
    {
        let state = classify(stats);
        let region = region_new(extract_region_from_elb_dns(lb.dns_name.as_str()).unwrap());
        ElbData { name: lb.load_balancer_name, state, region, vpc_id: lb.vpc_id }
    }
}

impl Clone for ElbData {
    /// A copy with the same fields.
    fn clone(&self) -> (copy: Self)
        ensures
            copy.fields() == self.fields(),
    {
        ElbData {
            name: self.name.clone(),
            state: self.state,
            region: self.region.clone(),
            vpc_id: self.vpc_id.clone(),
        }
    }
}

impl ResourceRecord for ElbData {
    open spec fn resource_kind() -> ResourceKind {
        ResourceKind::SingleStage
    }

    open spec fn fields(&self) -> RecordView {
        RecordView {
            identifier: self.name@,
            region: region_name(self.region),
            vpc_id: self.vpc_id@,
            state: self.state,
        }
    }

    fn kind() -> (kind: ResourceKind) {
        ResourceKind::SingleStage
    }

    fn identifier(&self) -> (id: &str) {
        self.name.as_str()
    }

    fn region(&self) -> (region: &Region) {
        &self.region
    }

    fn vpc_id(&self) -> (vpc: &str) {
        self.vpc_id.as_str()
    }

    fn state(&self) -> (state: LoadBalancerState) {
        self.state
    }

    fn into_deletion_task(self) -> (task: DeletionTask) {
        DeletionTask { identifier: self.name, region: self.region }
    }
}

} // verus!
