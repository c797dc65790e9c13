//! Load balancers that route through target groups (multi-stage): what a
//! listing tells of one, how its target groups are queried one by one until
//! one shows activity, and the record kept of it.

use crate::cloudwatch::{
    activity, classify, values_of, Dimension, DimensionView, Metric, MetricDataResult, MetricView,
};
use crate::models::LoadBalancerState;
use crate::record::{DeletionTask, RecordView, ResourceKind, ResourceRecord};
use crate::region::{region_name, region_new};
use crate::text::{join, split};
use crate::utils::{
    extract_id_from_lb_arn, extract_id_from_tg_arn, extract_namespace_from_lb_type,
    extract_region_from_elbv2_arn, namespace_of,
};
use aws_types::region::Region;
use vstd::prelude::*;

verus! {

/// What a region's inventory tells of one multi-stage load balancer.
#[derive(Debug)]
pub struct LoadBalancer {
    pub load_balancer_arn: String,
    pub vpc_id: String,
}

/// The record of one classified multi-stage load balancer.
#[derive(Debug)]
pub struct ElbV2Data {
    pub arn: String,
    pub state: LoadBalancerState,
    pub region: Region,
    pub vpc_id: String,
}

/// A target group attached to a load balancer: its ARN and the id by which
/// metrics know it.
#[derive(Debug)]
pub struct TargetGroupRef {
    pub arn: String,
    pub short_id: String,
}

/// The id by which metrics know the load balancer with this ARN.
pub open spec fn lb_id_of(arn: Seq<char>) -> Seq<char> {
    join(split(split(arn, ':')[5], '/').skip(1), '/')
}

/// A target group as plain text.
pub struct TargetGroupView {
    pub arn: Seq<char>,
    pub short_id: Seq<char>,
}

impl View for TargetGroupRef {
    type V = TargetGroupView;

    open spec fn view(&self) -> TargetGroupView {
        TargetGroupView { arn: self.arn@, short_id: self.short_id@ }
    }
}

/// The target groups with these ARNs, each with the id by which metrics
/// know it: the sixth field of its ARN.
pub open spec fn target_groups_of(arns: Seq<String>) -> Seq<TargetGroupView> {
    arns.map_values(|arn: String| TargetGroupView { arn: arn@, short_id: split(arn@, ':')[5] })
}

/// The metric that shows whether a target group behind a load balancer has
/// healthy hosts.
pub open spec fn healthy_hosts_behind(
    namespace: Seq<char>,
    lb_id: Seq<char>,
    target_group_id: Seq<char>,
) -> MetricView {
    MetricView {
        namespace,
        metric_name: "HealthyHostCount"@,
        dimensions: seq![
            DimensionView { name: "LoadBalancer"@, value: lb_id },
            DimensionView { name: "TargetGroup"@, value: target_group_id },
        ],
    }
}

/// The index of the first answer that shows activity, or the number of
/// answers if none does.
pub open spec fn first_active(answers: Seq<Option<Seq<u64>>>) -> int
    decreases answers.len(),
{
    if answers.len() == 0 || activity(answers[0]) == LoadBalancerState::Active {
        0
    } else {
        1 + first_active(answers.drop_first())
    }
}

/// Where the classification of one multi-stage load balancer stands.
pub struct ClassifierView {
    /// The id by which metrics know the load balancer.
    pub lb_id: Seq<char>,
    /// The metrics namespace of the load balancer, if its type has one.
    pub namespace: Option<Seq<char>>,
    /// The attached target groups, in listing order.
    pub target_groups: Seq<TargetGroupView>,
    /// How many target groups have been queried and answered.
    pub queried: nat,
    /// Whether an answer has shown activity.
    pub active: bool,
}

impl ClassifierView {
    /// Whether nothing is left to query: activity was seen, the load
    /// balancer has no namespace to query in, or every target group has
    /// answered.
    pub open spec fn done(self) -> bool {
        self.active || self.namespace is None || self.queried >= self.target_groups.len()
    }

    /// The metric to query next, if any.
    pub open spec fn pending(self) -> Option<MetricView> {
        if self.done() {
            None
        } else {
            Some(
                healthy_hosts_behind(
                    self.namespace->0,
                    self.lb_id,
                    self.target_groups[self.queried as int].short_id,
                ),
            )
        }
    }

    /// The state after the answer to the pending query. Without a pending
    /// query nothing changes.
    pub open spec fn observe(self, stats: Option<Seq<u64>>) -> ClassifierView {
        if self.done() {
            self
        } else {
            ClassifierView {
                queried: self.queried + 1,
                active: activity(stats) == LoadBalancerState::Active,
                ..self
            }
        }
    }

    /// The state at which the classification ends when target group `i`
    /// answers `answers[i]` to its query.
    pub open spec fn run(self, answers: Seq<Option<Seq<u64>>>) -> ClassifierView
        decreases self.target_groups.len() - self.queried,
    {
        if self.done() || self.queried >= answers.len() {
            self
        } else {
            self.observe(answers[self.queried as int]).run(answers)
        }
    }

    /// What the load balancer counts as.
    pub open spec fn state(self) -> LoadBalancerState {
        if self.active {
            LoadBalancerState::Active
        } else {
            LoadBalancerState::Inactive
        }
    }
}

/// Classification stops at the first target group that shows activity:
/// that group and those before it are queried, no group after it, and the
/// load balancer is active. Where no group shows activity all are queried
/// and it is inactive.
pub proof fn lemma_short_circuit(c: ClassifierView, answers: Seq<Option<Seq<u64>>>)
    requires
        c.queried == 0,
        !c.active,
        c.namespace is Some,
        answers.len() == c.target_groups.len(),
    ensures
        c.run(answers).done(),
        first_active(answers) < answers.len() ==> c.run(answers).queried == first_active(answers)
            + 1 && c.run(answers).state() == LoadBalancerState::Active,
        first_active(answers) >= answers.len() ==> c.run(answers).queried == answers.len()
            && c.run(answers).state() == LoadBalancerState::Inactive,
{
    assert(answers.skip(0) =~= answers);
    lemma_run_from(c, answers);
}

/// `lemma_short_circuit` for a classification under way.
proof fn lemma_run_from(c: ClassifierView, answers: Seq<Option<Seq<u64>>>)
    requires
        c.queried <= answers.len(),
        !c.active,
        c.namespace is Some,
        answers.len() == c.target_groups.len(),
    ensures
        c.run(answers).done(),
        0 <= first_active(answers.skip(c.queried as int)) <= answers.len() - c.queried,
        first_active(answers.skip(c.queried as int)) < answers.len() - c.queried ==> c.run(
            answers,
        ).queried == c.queried + first_active(answers.skip(c.queried as int)) + 1 && c.run(
            answers,
        ).active,
        first_active(answers.skip(c.queried as int)) >= answers.len() - c.queried ==> c.run(
            answers,
        ).queried == answers.len() && !c.run(answers).active,
    decreases answers.len() - c.queried,
{
    let rest = answers.skip(c.queried as int);
    if c.queried < answers.len() {
        let next = c.observe(answers[c.queried as int]);
        assert(rest[0] == answers[c.queried as int]);
        assert(rest.drop_first() =~= answers.skip(next.queried as int));
        if !next.active {
            lemma_run_from(next, answers);
        }
    }
}

/// A load balancer without a metrics namespace is not queried at all and
/// counts as inactive.
pub proof fn lemma_no_namespace(c: ClassifierView, answers: Seq<Option<Seq<u64>>>)
    requires
        c.queried == 0,
        !c.active,
        c.namespace is None,
    ensures
        c.run(answers) == c,
        c.state() == LoadBalancerState::Inactive,
{
}

/// The classification of one multi-stage load balancer, driven from
/// outside: take the pending query, send it, hand in the answer, and so on
/// until no query is pending.
#[derive(Debug)]
pub struct MultiStageClassifier {
    lb_id: String,
    namespace: Option<String>,
    target_groups: Vec<TargetGroupRef>,
    queried: usize,
    active: bool,
}

impl View for MultiStageClassifier {
    type V = ClassifierView;

    closed spec fn view(&self) -> ClassifierView {
        ClassifierView {
            lb_id: self.lb_id@,
            namespace: match self.namespace {
                Some(namespace) => Some(namespace@),
                None => None,
            },
            target_groups: self.target_groups@.map_values(|tg: TargetGroupRef| tg@),
            queried: self.queried as nat,
            active: self.active,
        }
    }
}

impl MultiStageClassifier {
    /// Starts the classification of the load balancer `arn` with the target
    /// groups `target_group_arns`, in listing order. Each ARN must have the
    /// field that holds its id: the sixth.
    pub fn new(arn: &str, target_group_arns: &Vec<String>) -> (classifier: Self)
        requires
            split(arn@, ':').len() >= 6,
            forall|i: int|
                0 <= i < target_group_arns.len() ==> split(
                    #[trigger] target_group_arns[i]@,
                    ':',
                ).len() >= 6,
        ensures
            classifier@ == (ClassifierView {
                lb_id: lb_id_of(arn@),
                namespace: namespace_of(arn@),
                target_groups: target_groups_of(target_group_arns@),
                queried: 0,
                active: false,
            }),
    {
        let lb_id = extract_id_from_lb_arn(arn).unwrap();
        let namespace = extract_namespace_from_lb_type(arn);
        let mut target_groups: Vec<TargetGroupRef> = Vec::new();
        let mut i: usize = 0;
        while i < target_group_arns.len()
            invariant
                i <= target_group_arns.len(),
                forall|j: int|
                    0 <= j < target_group_arns.len() ==> split(
                        #[trigger] target_group_arns[j]@,
                        ':',
                    ).len() >= 6,
                target_groups@.map_values(|tg: TargetGroupRef| tg@) == target_groups_of(
                    target_group_arns@.take(i as int),
                ),
            decreases target_group_arns.len() - i,
        {
            let ghost before = target_groups@;
            let tg_arn = &target_group_arns[i];
            let short_id = extract_id_from_tg_arn(tg_arn.as_str()).unwrap();
            target_groups.push(TargetGroupRef { arn: tg_arn.clone(), short_id });
            proof {
                let added = TargetGroupView { arn: tg_arn@, short_id: split(tg_arn@, ':')[5] };
                assert(target_groups@.map_values(|tg: TargetGroupRef| tg@) =~= before.map_values(
                    |tg: TargetGroupRef| tg@,
                ).push(added));
                assert(target_groups_of(target_group_arns@.take(i + 1)) =~= target_groups_of(
                    target_group_arns@.take(i as int),
                ).push(added));
            }
            i += 1;
        }
        assert(target_group_arns@.take(target_group_arns.len() as int) =~= target_group_arns@);
        MultiStageClassifier { lb_id, namespace, target_groups, queried: 0, active: false }
    }

    /// The query to send next, or `None` when the classification has ended.
    pub fn next_query(&self) -> (query: Option<Metric>)
        ensures
            query is Some <==> !self@.done(),
            query matches Some(metric) ==> self@.pending() == Some(metric@),
    {
        if self.active || self.queried >= self.target_groups.len() {
            return None;
        }
        match &self.namespace {
            None => None,
            Some(namespace) => {
                let mut dimensions: Vec<Dimension> = Vec::new();
                dimensions.push(
                    Dimension { name: "LoadBalancer".to_owned(), value: self.lb_id.clone() },
                );
                dimensions.push(
                    Dimension {
                        name: "TargetGroup".to_owned(),
                        value: self.target_groups[self.queried].short_id.clone(),
                    },
                );
                let metric = Metric {
                    namespace: namespace.clone(),
                    metric_name: "HealthyHostCount".to_owned(),
                    dimensions,
                };
                assert(metric@.dimensions =~= self@.pending()->0.dimensions);
                Some(metric)
            },
        }
    }

    /// Takes in the answer to the pending query: the first result of the
    /// query, or `None` if it failed or had none. An answer whose values add
    /// up to more than zero ends the classification. Without a pending query
    /// the answer is ignored.
    pub fn observe(&mut self, stats: Option<&MetricDataResult>)
        ensures
            final(self)@ == old(self)@.observe(values_of(stats)),
    {
        if self.active || self.namespace.is_none() || self.queried >= self.target_groups.len() {
            return ;
        }
        self.active = classify(stats).is_active();
        self.queried = self.queried + 1;
    }

    /// Whether the classification has ended.
    pub fn is_done(&self) -> (done: bool)
        ensures
            done == self@.done(),
    {
        self.active || self.namespace.is_none() || self.queried >= self.target_groups.len()
    }

    /// The attached target groups, in listing order.
    pub fn target_groups(&self) -> (target_groups: &Vec<TargetGroupRef>)
        ensures
            target_groups@.map_values(|tg: TargetGroupRef| tg@) == self@.target_groups,
    {
        &self.target_groups
    }

    /// How many queries have been answered.
    pub fn queries(&self) -> (n: usize)
        ensures
            n == self@.queried,
    {
        self.queried
    }

    /// What the load balancer counts as by the answers so far: active once
    /// an answer has shown activity, inactive until then.
    pub fn state(&self) -> (state: LoadBalancerState)
        ensures
            state == self@.state(),
    {
        if self.active {
            LoadBalancerState::Active
        } else {
            LoadBalancerState::Inactive
        }
    }
}

impl ElbV2Data {
    /// A record with the fields given.
    pub fn new(arn: &str, state: LoadBalancerState, region: Region, vpc_id: String) -> (data:
        Self)
        ensures
            data.arn@ == arn@,
            data.state == state,
            data.region == region,
            data.vpc_id == vpc_id,
    {
        ElbV2Data { arn: arn.to_owned(), state, region, vpc_id }
    }

    /// The record of the load balancer `lb`, found to be in `state`. Its
    /// region is read from its ARN, which must hold one: four fields or more.
    pub fn classified(lb: LoadBalancer, state: LoadBalancerState) -> (data: Self)
        requires
            split(lb.load_balancer_arn@, ':').len() >= 4,
        ensures
            data.arn@ == lb.load_balancer_arn@,
            data.vpc_id@ == lb.vpc_id@,
            data.state == state,
            region_name(data.region) == split(lb.load_balancer_arn@, ':')[3],
    {
        let region = region_new(
            extract_region_from_elbv2_arn(lb.load_balancer_arn.as_str()).unwrap(),
        );
        ElbV2Data { arn: lb.load_balancer_arn, state, region, vpc_id: lb.vpc_id }
    }
}

impl Clone for ElbV2Data {
    /// A copy with the same fields.
    fn clone(&self) -> (copy: Self)
        ensures
            copy.fields() == self.fields(),
    {
        ElbV2Data {
            arn: self.arn.clone(),
            state: self.state,
            region: self.region.clone(),
            vpc_id: self.vpc_id.clone(),
        }
    }
}

impl ResourceRecord for ElbV2Data {
    open spec fn resource_kind() -> ResourceKind {
        ResourceKind::MultiStage
    }

    open spec fn fields(&self) -> RecordView {
        RecordView {
            identifier: self.arn@,
            region: region_name(self.region),
            vpc_id: self.vpc_id@,
            state: self.state,
        }
    }

    fn kind() -> (kind: ResourceKind) {
        ResourceKind::MultiStage
    }

    fn identifier(&self) -> (id: &str) {
        self.arn.as_str()
    }

    fn region(&self) -> (region: &Region) {
        &self.region
    }

    fn vpc_id(&self) -> (vpc: &str) {
        self.vpc_id.as_str()
    }

    fn state(&self) -> (state: LoadBalancerState) {
        self.state
    }

    fn into_deletion_task(self) -> (task: DeletionTask) {
        DeletionTask { identifier: self.arn, region: self.region }
    }
}

} // verus!
