//! Reading regions, VPC lists and the parts of resource names.

use crate::region::{region_name, region_new};
use crate::text::{after_first, contains, field, join, occurs_in, split};
use aws_types::region::Region;
use vstd::hash_map::StringHashMap;
use vstd::prelude::*;

verus! {

/// The texts that a list of strings holds.
pub open spec fn texts(items: Seq<String>) -> Set<Seq<char>> {
    Set::new(|t: Seq<char>| exists|i: int| 0 <= i < items.len() && #[trigger] items[i]@ == t)
}

/// The metrics namespace that a load balancer's ARN points to: network load
/// balancers first, then application load balancers, else none.
pub open spec fn namespace_of(arn: Seq<char>) -> Option<Seq<char>> {
    if occurs_in("loadbalancer/net"@, arn) {
        Some("AWS/NetworkELB"@)
    } else if occurs_in("loadbalancer/app"@, arn) {
        Some("AWS/ApplicationELB"@)
    } else {
        None
    }
}

/// One region per name, in the order given.
pub fn parse_regions_arg(regions: &[String]) -> (out: Vec<Region>)
    ensures
        out.len() == regions.len(),
        forall|i: int| 0 <= i < regions.len() ==> region_name(#[trigger] out[i]) == regions[i]@,
{
    let mut out: Vec<Region> = Vec::new();
    let mut i: usize = 0;
    while i < regions.len()
        invariant
            i <= regions.len(),
            out.len() == i,
            forall|j: int| 0 <= j < i ==> region_name(#[trigger] out[j]) == regions[j]@,
        decreases regions.len() - i,
    {
        out.push(region_new(regions[i].clone()));
        i += 1;
    }
    out
}

/// The set of VPC ids to which a scan is limited, as a map from each id to
/// `true`. Ids given twice count once.
pub fn parse_vpc_ids_arg(vpc_ids: &[String]) -> (out: StringHashMap<bool>)
    ensures
        out@.dom() == texts(vpc_ids@),
        forall|k: Seq<char>| out@.contains_key(k) ==> out@[k],
{
    let mut out: StringHashMap<bool> = StringHashMap::new();
    let mut i: usize = 0;
    while i < vpc_ids.len()
        invariant
            i <= vpc_ids.len(),
            out@.dom() == texts(vpc_ids@.take(i as int)),
            forall|k: Seq<char>| out@.contains_key(k) ==> out@[k],
        decreases vpc_ids.len() - i,
    {
        let ghost before = vpc_ids@.take(i as int);
        let ghost after = vpc_ids@.take(i + 1);
        out.insert(vpc_ids[i].clone(), true);
        proof {
            assert forall|k: Seq<char>| texts(after).contains(k) <==> (texts(before).contains(k)
                || k == vpc_ids[i as int]@) by {
                if texts(after).contains(k) {
                    let j = choose|j: int| 0 <= j < after.len() && #[trigger] after[j]@ == k;
                    if j < i {
                        assert(before[j]@ == k);
                    }
                }
                if texts(before).contains(k) {
                    let j = choose|j: int| 0 <= j < before.len() && #[trigger] before[j]@ == k;
                    assert(after[j]@ == k);
                }
                if k == vpc_ids[i as int]@ {
                    assert(after[i as int]@ == k);
                }
            }
            assert(out@.dom() =~= texts(after));
        }
        i += 1;
    }
    assert(vpc_ids@.take(vpc_ids.len() as int) =~= vpc_ids@);
    out
}

/// The account id of a role ARN: its fifth field between colons.
///
/// The ARN must have that field.
pub fn extract_account_id_from_role_arn(arn: &str) -> (id: Option<String>)
    requires
        split(arn@, ':').len() > 4,
    ensures
        id matches Some(v) && v@ == split(arn@, ':')[4],
{
    field(arn, ':', 4)
}

/// The id by which metrics know a load balancer: what follows the first `/`
/// in the sixth field of its ARN. `None` if the ARN has fewer than six fields.
pub fn extract_id_from_lb_arn(arn: &str) -> (id: Option<String>)
    ensures
        split(arn@, ':').len() >= 6 <==> id is Some,
        id matches Some(v) ==> v@ == join(split(split(arn@, ':')[5], '/').skip(1), '/'),
{
    match field(arn, ':', 5) {
        Some(resource) => Some(after_first(resource.as_str(), '/')),
        None => None,
    }
}

/// The metrics namespace of a load balancer, told from the type marker in
/// its ARN. `None` for an ARN with neither marker.
pub fn extract_namespace_from_lb_type(arn: &str) -> (namespace: Option<String>)
    ensures
        namespace is Some <==> namespace_of(arn@) is Some,
        namespace matches Some(v) ==> namespace_of(arn@) == Some(v@),
{
    if contains(arn, "loadbalancer/net") {
        Some("AWS/NetworkELB".to_owned())
    } else if contains(arn, "loadbalancer/app") {
        Some("AWS/ApplicationELB".to_owned())
    } else {
        None
    }
}

/// The id by which metrics know a target group: the sixth field of its ARN.
/// `None` if the ARN has fewer than six fields.
pub fn extract_id_from_tg_arn(arn: &str) -> (id: Option<String>)
    ensures
        split(arn@, ':').len() >= 6 <==> id is Some,
        id matches Some(v) ==> v@ == split(arn@, ':')[5],
{
    field(arn, ':', 5)
}

/// The region of a load balancer, read from its ARN: the fourth field.
/// `None` if the ARN has fewer than four fields.
pub fn extract_region_from_elbv2_arn(arn: &str) -> (region: Option<String>)
    ensures
        split(arn@, ':').len() >= 4 <==> region is Some,
        region matches Some(v) ==> v@ == split(arn@, ':')[3],
{
    field(arn, ':', 3)
}

/// The region of a classic load balancer, read from its DNS name: the second
/// label. `None` unless the name has more than two labels.
pub fn extract_region_from_elb_dns(dns_name: &str) -> (region: Option<String>)
    ensures
        split(dns_name@, '.').len() > 2 <==> region is Some,
        region matches Some(v) ==> v@ == split(dns_name@, '.')[1],
{
    match field(dns_name, '.', 2) {
        Some(_) => field(dns_name, '.', 1),
        None => None,
    }
}

} // verus!
