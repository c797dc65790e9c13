use aws_types::region::Region;
use lb_janitor::utils::{
    extract_account_id_from_role_arn, extract_id_from_lb_arn, extract_id_from_tg_arn,
    extract_namespace_from_lb_type, extract_region_from_elb_dns, extract_region_from_elbv2_arn,
    parse_regions_arg, parse_vpc_ids_arg,
};

const ALB_ARN: &str =
    "arn:aws:elasticloadbalancing:eu-west-1:123456789012:loadbalancer/app/my-alb/50dc6c495c0c9188";
const NLB_ARN: &str =
    "arn:aws:elasticloadbalancing:us-east-2:123456789012:loadbalancer/net/edge/1a2b3c4d5e6f7a8b";
const TG_ARN: &str =
    "arn:aws:elasticloadbalancing:eu-west-1:123456789012:targetgroup/my-targets/73e2d6bc24d8a067";

#[test]
fn regions_are_parsed_in_order() {
    let names = vec!["eu-west-1".to_string(), "us-east-2".to_string()];
    let regions = parse_regions_arg(&names);
    assert_eq!(regions, vec![Region::new("eu-west-1"), Region::new("us-east-2")]);
    assert_eq!(regions[1].as_ref(), "us-east-2");
}

#[test]
fn no_region_names_give_no_regions() {
    assert!(parse_regions_arg(&[]).is_empty());
}

#[test]
fn vpc_ids_become_a_set() {
    let ids = vec!["vpc-a".to_string(), "vpc-b".to_string(), "vpc-a".to_string()];
    let set = parse_vpc_ids_arg(&ids);
    assert_eq!(set.len(), 2);
    assert!(set.contains_key("vpc-a"));
    assert!(set.contains_key("vpc-b"));
    assert!(!set.contains_key("vpc-c"));
    assert_eq!(set.get("vpc-a"), Some(&true));
}

#[test]
fn no_vpc_ids_give_an_empty_set() {
    let set = parse_vpc_ids_arg(&[]);
    assert!(set.is_empty());
    assert_eq!(set.len(), 0);
}

#[test]
fn account_id_is_the_fifth_field() {
    let id = extract_account_id_from_role_arn("arn:aws:iam::123456789012:role/janitor");
    assert_eq!(id, Some("123456789012".to_string()));
}

#[test]
fn account_id_may_be_empty() {
    assert_eq!(extract_account_id_from_role_arn("a:b:c:d::f"), Some(String::new()));
    assert_eq!(extract_account_id_from_role_arn("::::"), Some(String::new()));
}

#[test]
fn lb_id_drops_the_resource_type() {
    assert_eq!(extract_id_from_lb_arn(ALB_ARN), Some("app/my-alb/50dc6c495c0c9188".to_string()));
    assert_eq!(extract_id_from_lb_arn(NLB_ARN), Some("net/edge/1a2b3c4d5e6f7a8b".to_string()));
}

#[test]
fn lb_id_without_a_slash_is_empty() {
    assert_eq!(extract_id_from_lb_arn("a:b:c:d:e:loadbalancer"), Some(String::new()));
    assert_eq!(extract_id_from_lb_arn("a:b:c:d:e:"), Some(String::new()));
    assert_eq!(extract_id_from_lb_arn("a:b:c:d:e:x/"), Some(String::new()));
}

#[test]
fn lb_id_needs_six_fields() {
    assert_eq!(extract_id_from_lb_arn("a:b:c:d:e"), None);
    assert_eq!(extract_id_from_lb_arn(""), None);
}

#[test]
fn lb_id_ignores_further_fields() {
    assert_eq!(extract_id_from_lb_arn("a:b:c:d:e:x/y:z/w"), Some("y".to_string()));
}

#[test]
fn namespace_follows_the_type_marker() {
    assert_eq!(extract_namespace_from_lb_type(NLB_ARN), Some("AWS/NetworkELB".to_string()));
    assert_eq!(extract_namespace_from_lb_type(ALB_ARN), Some("AWS/ApplicationELB".to_string()));
}

#[test]
fn namespace_prefers_the_network_marker() {
    let both = "loadbalancer/app/x/loadbalancer/net/y";
    assert_eq!(extract_namespace_from_lb_type(both), Some("AWS/NetworkELB".to_string()));
}

#[test]
fn namespace_is_none_without_a_marker() {
    assert_eq!(extract_namespace_from_lb_type("arn:aws:elasticloadbalancing:r:1:loadbalancer/gwy/x/1"), None);
    assert_eq!(extract_namespace_from_lb_type(""), None);
    assert_eq!(extract_namespace_from_lb_type("loadbalancer/ne"), None);
}

#[test]
fn tg_id_is_the_sixth_field() {
    assert_eq!(extract_id_from_tg_arn(TG_ARN), Some("targetgroup/my-targets/73e2d6bc24d8a067".to_string()));
    assert_eq!(extract_id_from_tg_arn("a:b:c:d:e:f:g"), Some("f".to_string()));
}

#[test]
fn tg_id_needs_six_fields() {
    assert_eq!(extract_id_from_tg_arn("arn:aws:elasticloadbalancing:eu-west-1:123456789012"), None);
}

#[test]
fn region_is_the_fourth_field_of_an_arn() {
    assert_eq!(extract_region_from_elbv2_arn(ALB_ARN), Some("eu-west-1".to_string()));
    assert_eq!(extract_region_from_elbv2_arn("a:b:c:d"), Some("d".to_string()));
    assert_eq!(extract_region_from_elbv2_arn("a:b:c"), None);
}

#[test]
fn region_is_the_second_label_of_a_dns_name() {
    let dns = "my-lb-1234567890.us-west-2.elb.amazonaws.com";
    assert_eq!(extract_region_from_elb_dns(dns), Some("us-west-2".to_string()));
    assert_eq!(extract_region_from_elb_dns("a.b.c"), Some("b".to_string()));
}

#[test]
fn dns_name_needs_three_labels() {
    assert_eq!(extract_region_from_elb_dns("a.b"), None);
    assert_eq!(extract_region_from_elb_dns("localhost"), None);
    assert_eq!(extract_region_from_elb_dns(""), None);
}

#[test]
fn fields_may_hold_any_unicode() {
    assert_eq!(extract_region_from_elb_dns("é.ü-1.ß"), Some("ü-1".to_string()));
}
