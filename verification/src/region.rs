//! The cloud region of a load balancer, as the AWS SDK represents it.
//!
//! A `Region` is opaque here. All that is known of one is its name, and
//! that rests on the four statements of this file about the SDK's code,
//! which are taken on trust.

use aws_types::region::Region;
use vstd::prelude::*;

verus! {

/// Makes `aws_types::region::Region` known as a type whose inside is not
/// looked into.
#[verifier::external_type_specification]
#[verifier::external_body]
pub struct ExRegion(aws_types::region::Region);

/// The name a region stands for: the string that `Region::as_ref` hands out.
pub uninterp spec fn region_name(region: Region) -> Seq<char>;

/// Calls `Region::new`. Trusted: the region made from a string has that
/// string as its name.
#[verifier::external_body]
pub(crate) fn region_new(name: String) -> (region: Region)
    ensures
        region_name(region) == name@,
{
    Region::new(name)
}

/// Calls `Region::as_ref`. Trusted: the string slice handed out is the
/// region's name.
#[verifier::external_body]
pub(crate) fn region_as_str(region: &Region) -> (name: &str)
    ensures
        name@ == region_name(*region),
{
    region.as_ref()
}

/// `Region`'s `clone`, which its crate derives. Trusted: the copy has the
/// same name as the region it was made from.
pub assume_specification[ <Region as Clone>::clone ](region: &Region) -> (copy: Region)
    ensures
        region_name(copy) == region_name(*region),
;

} // verus!
