use aws_types::region::Region;
use lb_janitor::cloudwatch::{Metric, MetricDataResult};
use lb_janitor::elb::{healthy_host_metric, ElbData, LoadBalancerDescription};
use lb_janitor::elbv2::{ElbV2Data, LoadBalancer, MultiStageClassifier};
use lb_janitor::models::LoadBalancerState;
use lb_janitor::record::{ResourceKind, ResourceRecord};

const ALB_ARN: &str =
    "arn:aws:elasticloadbalancing:eu-west-1:123456789012:loadbalancer/app/my-alb/50dc6c495c0c9188";
const NLB_ARN: &str =
    "arn:aws:elasticloadbalancing:us-east-2:123456789012:loadbalancer/net/edge/1a2b3c4d5e6f7a8b";
const GWLB_ARN: &str =
    "arn:aws:elasticloadbalancing:us-east-2:123456789012:loadbalancer/gwy/gate/0011223344556677";

fn tg_arn(name: &str) -> String {
    format!("arn:aws:elasticloadbalancing:eu-west-1:123456789012:targetgroup/{name}/73e2d6bc24d8a067")
}

fn result(values: &[u64]) -> MetricDataResult {
    MetricDataResult { values: values.to_vec() }
}

fn dimensions(metric: &Metric) -> Vec<(String, String)> {
    metric.dimensions.iter().map(|d| (d.name.clone(), d.value.clone())).collect()
}

#[test]
fn single_stage_metric_names_the_load_balancer() {
    let metric = healthy_host_metric("lb1");
    assert_eq!(metric.namespace, "AWS/ELB");
    assert_eq!(metric.metric_name, "HealthyHostCount");
    assert_eq!(dimensions(&metric), vec![("LoadBalancerName".to_string(), "lb1".to_string())]);
}

#[test]
fn single_stage_metric_takes_what_follows_the_last_colon() {
    let metric = healthy_host_metric("arn:aws:elb:lb1");
    assert_eq!(dimensions(&metric), vec![("LoadBalancerName".to_string(), "lb1".to_string())]);
}

#[test]
fn classic_load_balancer_is_recorded_with_its_region() {
    let lb = LoadBalancerDescription {
        load_balancer_name: "lb1".to_string(),
        vpc_id: "vpc-a".to_string(),
        dns_name: "lb1-1234567890.us-west-2.elb.amazonaws.com".to_string(),
    };
    let record = ElbData::classified(lb, Some(&result(&[0, 0])));
    assert_eq!(record.name, "lb1");
    assert_eq!(record.state, LoadBalancerState::Inactive);
    assert_eq!(record.region, Region::new("us-west-2"));
    assert_eq!(record.vpc_id, "vpc-a");
}

#[test]
fn classic_load_balancer_with_healthy_hosts_is_active() {
    let lb = LoadBalancerDescription {
        load_balancer_name: "lb2".to_string(),
        vpc_id: "vpc-b".to_string(),
        dns_name: "lb2.eu-west-1.elb.amazonaws.com".to_string(),
    };
    let record = ElbData::classified(lb, Some(&result(&[12])));
    assert_eq!(record.state, LoadBalancerState::Active);
}

#[test]
fn classic_load_balancer_without_answer_is_inactive() {
    let lb = LoadBalancerDescription {
        load_balancer_name: "lb3".to_string(),
        vpc_id: "vpc-b".to_string(),
        dns_name: "lb3.eu-west-1.elb.amazonaws.com".to_string(),
    };
    assert_eq!(ElbData::classified(lb, None).state, LoadBalancerState::Inactive);
}

#[test]
fn elb_data_new_keeps_its_arguments() {
    let data = ElbData::new(
        "lb1",
        LoadBalancerState::Active,
        Region::new("eu-west-1"),
        "vpc-a".to_string(),
    );
    assert_eq!(data.name, "lb1");
    assert_eq!(data.state, LoadBalancerState::Active);
    assert_eq!(data.region.as_ref(), "eu-west-1");
    assert_eq!(data.vpc_id, "vpc-a");
    assert_eq!(ElbData::kind(), ResourceKind::SingleStage);
    assert_eq!(data.identifier(), "lb1");
    assert_eq!(ResourceRecord::state(&data), LoadBalancerState::Active);
}

#[test]
fn elb_data_to_string_is_its_report_line() {
    let mut data = ElbData::new(
        "lb1",
        LoadBalancerState::Inactive,
        Region::new("eu-west-1"),
        "vpc-a".to_string(),
    );
    assert_eq!(data.to_string(), "lb1,Inactive,eu-west-1,vpc-a");
    assert_eq!(data.name, "lb1");
    assert_eq!(data.vpc_id, "vpc-a");
}

#[test]
fn records_are_copied_field_by_field() {
    let data = ElbData::new(
        "lb1",
        LoadBalancerState::Inactive,
        Region::new("eu-west-1"),
        "vpc-a".to_string(),
    );
    let copy = data.clone();
    assert_eq!(copy.name, "lb1");
    assert_eq!(copy.state, LoadBalancerState::Inactive);
    assert_eq!(copy.region, Region::new("eu-west-1"));
    assert_eq!(copy.vpc_id, "vpc-a");

    let data = ElbV2Data::new(ALB_ARN, LoadBalancerState::Active, Region::new("r"), "v".to_string());
    let copy = data.clone();
    assert_eq!(copy.arn, data.arn);
    assert_eq!(copy.state, data.state);
    assert_eq!(copy.region, data.region);
    assert_eq!(copy.vpc_id, data.vpc_id);
}

#[test]
fn classifier_lists_its_target_groups() {
    let groups = vec![tg_arn("tg1"), tg_arn("tg2")];
    let classifier = MultiStageClassifier::new(ALB_ARN, &groups);
    let refs = classifier.target_groups();
    assert_eq!(refs.len(), 2);
    assert_eq!(refs[0].arn, groups[0]);
    assert_eq!(refs[0].short_id, "targetgroup/tg1/73e2d6bc24d8a067");
    assert_eq!(refs[1].arn, groups[1]);
    assert_eq!(refs[1].short_id, "targetgroup/tg2/73e2d6bc24d8a067");
}

#[test]
fn elbv2_data_new_keeps_its_arguments() {
    let data = ElbV2Data::new(
        ALB_ARN,
        LoadBalancerState::Inactive,
        Region::new("eu-west-1"),
        "vpc-a".to_string(),
    );
    assert_eq!(data.arn, ALB_ARN);
    assert_eq!(data.state, LoadBalancerState::Inactive);
    assert_eq!(data.region, Region::new("eu-west-1"));
    assert_eq!(data.vpc_id, "vpc-a");
    assert_eq!(ElbV2Data::kind(), ResourceKind::MultiStage);
    assert_eq!(data.identifier(), ALB_ARN);
}

#[test]
fn multi_stage_load_balancer_is_recorded_with_its_region() {
    let lb = LoadBalancer { load_balancer_arn: NLB_ARN.to_string(), vpc_id: "vpc-n".to_string() };
    let record = ElbV2Data::classified(lb, LoadBalancerState::Active);
    assert_eq!(record.arn, NLB_ARN);
    assert_eq!(record.region, Region::new("us-east-2"));
    assert_eq!(record.vpc_id, "vpc-n");
    assert_eq!(record.state, LoadBalancerState::Active);
}

#[test]
fn short_circuit_at_the_first_active_target_group() {
    let groups = vec![tg_arn("tg1"), tg_arn("tg2"), tg_arn("tg3")];
    let mut classifier = MultiStageClassifier::new(ALB_ARN, &groups);
    let mut asked: Vec<String> = Vec::new();

    let first = classifier.next_query().unwrap();
    asked.push(first.dimensions[1].value.clone());
    classifier.observe(Some(&result(&[0])));
    assert_eq!(classifier.state(), LoadBalancerState::Inactive);
    assert!(!classifier.is_done());

    let second = classifier.next_query().unwrap();
    asked.push(second.dimensions[1].value.clone());
    classifier.observe(Some(&result(&[5])));

    assert!(classifier.next_query().is_none());
    assert!(classifier.is_done());
    assert_eq!(classifier.state(), LoadBalancerState::Active);
    assert_eq!(classifier.queries(), 2);
    assert_eq!(
        asked,
        vec![
            "targetgroup/tg1/73e2d6bc24d8a067".to_string(),
            "targetgroup/tg2/73e2d6bc24d8a067".to_string()
        ]
    );
}

#[test]
fn answers_after_the_end_are_ignored() {
    let groups = vec![tg_arn("tg1"), tg_arn("tg2")];
    let mut classifier = MultiStageClassifier::new(ALB_ARN, &groups);
    classifier.observe(Some(&result(&[5])));
    assert!(classifier.is_done());
    classifier.observe(Some(&result(&[0])));
    classifier.observe(None);
    assert_eq!(classifier.state(), LoadBalancerState::Active);
    assert_eq!(classifier.queries(), 1);
}

#[test]
fn all_target_groups_idle_means_inactive() {
    let groups = vec![tg_arn("tg1"), tg_arn("tg2"), tg_arn("tg3")];
    let mut classifier = MultiStageClassifier::new(ALB_ARN, &groups);
    let mut queries = 0;
    while classifier.next_query().is_some() {
        queries += 1;
        classifier.observe(Some(&result(&[0, 0])));
    }
    assert_eq!(queries, 3);
    assert_eq!(classifier.queries(), 3);
    assert_eq!(classifier.state(), LoadBalancerState::Inactive);
}

#[test]
fn failed_queries_do_not_stop_the_classification() {
    let groups = vec![tg_arn("tg1"), tg_arn("tg2")];
    let mut classifier = MultiStageClassifier::new(ALB_ARN, &groups);
    classifier.observe(None);
    assert!(!classifier.is_done());
    classifier.observe(Some(&result(&[9])));
    assert_eq!(classifier.state(), LoadBalancerState::Active);
    assert_eq!(classifier.queries(), 2);
}

#[test]
fn no_target_groups_means_inactive_without_queries() {
    let mut classifier = MultiStageClassifier::new(ALB_ARN, &vec![]);
    assert!(classifier.next_query().is_none());
    assert!(classifier.is_done());
    classifier.observe(Some(&result(&[3])));
    assert_eq!(classifier.state(), LoadBalancerState::Inactive);
    assert_eq!(classifier.queries(), 0);
}

#[test]
fn multi_stage_query_names_both_ids() {
    let groups = vec![tg_arn("tg1")];
    let classifier = MultiStageClassifier::new(ALB_ARN, &groups);
    let metric = classifier.next_query().unwrap();
    assert_eq!(metric.namespace, "AWS/ApplicationELB");
    assert_eq!(metric.metric_name, "HealthyHostCount");
    assert_eq!(
        dimensions(&metric),
        vec![
            ("LoadBalancer".to_string(), "app/my-alb/50dc6c495c0c9188".to_string()),
            ("TargetGroup".to_string(), "targetgroup/tg1/73e2d6bc24d8a067".to_string()),
        ]
    );
}

#[test]
fn network_load_balancers_are_queried_in_their_namespace() {
    let groups = vec![tg_arn("tg1")];
    let classifier = MultiStageClassifier::new(NLB_ARN, &groups);
    let metric = classifier.next_query().unwrap();
    assert_eq!(metric.namespace, "AWS/NetworkELB");
    assert_eq!(metric.dimensions[0].value, "net/edge/1a2b3c4d5e6f7a8b");
}

#[test]
fn unrecognised_type_is_skipped_and_inactive() {
    let groups = vec![tg_arn("tg1"), tg_arn("tg2")];
    let mut classifier = MultiStageClassifier::new(GWLB_ARN, &groups);
    assert!(classifier.next_query().is_none());
    assert!(classifier.is_done());
    classifier.observe(Some(&result(&[7])));
    assert_eq!(classifier.queries(), 0);
    assert_eq!(classifier.state(), LoadBalancerState::Inactive);
}
