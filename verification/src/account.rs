//! The scan of one account: what it works with, how the results of its
//! regions come together, and what is done with the load balancers found
//! inactive.

use crate::credentials::Credentials;
use crate::error::ScanError;
use crate::models::{AwsAccount, RunOption};
use crate::record::{fields_of, inactive, inactive_only, DeletionTask, ResourceRecord};
use crate::region::region_name;
use crate::remediation::{deletion_tasks, tasks_match};
use crate::report::{csv_lines, file_name, lines, report_file_name, texts_of};
use crate::text::split;
use crate::utils::{extract_account_id_from_role_arn, parse_regions_arg, parse_vpc_ids_arg, texts};
use aws_types::region::Region;
use vstd::hash_map::StringHashMap;
use vstd::prelude::*;

verus! {

/// What the scan of one account works with.
pub struct AccountContext {
    /// The id of the account, read from the ARN of its role.
    pub account_id: String,
    /// The role that was assumed.
    pub role_arn: String,
    /// The credentials that the role assumption handed out. Every task of
    /// the account's scan works with these; they are not renewed.
    pub credentials: Credentials,
    /// The regions to scan.
    pub regions: Vec<Region>,
    /// The VPCs to which the scan is limited; none named means no limit.
    pub vpc_ids: Vec<String>,
}

impl AccountContext {
    /// The context for scanning `account` with `credentials`. The ARN of
    /// the account's role must hold an account id: it has a fifth field.
    pub fn new(account: &AwsAccount, credentials: Credentials) -> (context: Self)
        requires
            split(account.iam_role@, ':').len() > 4,
        ensures
            context.account_id@ == split(account.iam_role@, ':')[4],
            context.role_arn@ == account.iam_role@,
            context.credentials == credentials,
            context.regions.len() == account.regions.len(),
            forall|i: int|
                0 <= i < account.regions.len() ==> region_name(#[trigger] context.regions[i])
                    == account.regions[i]@,
            context.vpc_ids@ == account.vpc_ids@,
    {
        AccountContext {
            account_id: extract_account_id_from_role_arn(account.iam_role.as_str()).unwrap(),
            role_arn: account.iam_role.clone(),
            credentials,
            regions: parse_regions_arg(account.regions.as_slice()),
            vpc_ids: account.vpc_ids.clone(),
        }
    }

    /// The VPC filter for the scan of one region: the set of the account's
    /// VPC ids.
    pub fn vpc_filter(&self) -> (filter: StringHashMap<bool>)
        ensures
            filter@.dom() == texts(self.vpc_ids@),
    {
        parse_vpc_ids_arg(self.vpc_ids.as_slice())
    }
}

/// The records of inactive load balancers in the results of all regions:
/// region after region, and within a region in the order of its records.
pub open spec fn inactive_of_all<R: ResourceRecord>(regions: Seq<Vec<R>>) -> Seq<R>
    decreases regions.len(),
{
    if regions.len() == 0 {
        Seq::empty()
    } else {
        inactive_of_all(regions.drop_last()) + inactive(regions.last()@)
    }
}

/// Brings the results of an account's regions together, keeping the records
/// of inactive load balancers only.
pub fn merge_inactive<R: ResourceRecord>(per_region: Vec<Vec<R>>) -> (merged: Vec<R>)
    ensures
        merged@ == inactive_of_all(per_region@),
{
    let mut merged: Vec<R> = Vec::new();
    let ghost all = per_region@;
    for records in it: per_region
        invariant
            it.seq() == all,
            merged@ == inactive_of_all(all.take(it.index())),
    {
        proof {
            assert(all.take(it.index() + 1).drop_last() =~= all.take(it.index()));
        }
        let mut kept = inactive_only(records);
        merged.append(&mut kept);
    }
    assert(all.take(all.len() as int) =~= all);
    merged
}

/// What is done with an account's inactive load balancers.
#[derive(Debug)]
pub enum AccountAction {
    /// The report is written: these lines go to this file.
    Report { file_name: String, lines: Vec<String> },
    /// The load balancers are deleted, one task for each.
    Delete { tasks: Vec<DeletionTask> },
}

/// Decides what is done with the inactive load balancers of an account.
/// In `List` mode they are reported, in `Delete` mode deleted; the unknown
/// mode is a configuration error.
pub fn plan<R: ResourceRecord>(run_option: RunOption, account_id: &str, found: Vec<R>) -> (action:
    Result<AccountAction, ScanError>)
    ensures
        run_option == RunOption::Unknown <==> action is Err,
        action matches Err(e) ==> e == ScanError::Config,
        run_option == RunOption::List ==> (action matches Ok(
            AccountAction::Report { file_name: path, lines: rows },
        ) && path@ == file_name(account_id@, R::resource_kind()) && texts_of(rows@) == lines(
            R::resource_kind(),
            fields_of(found@),
        )),
        run_option == RunOption::Delete ==> (action matches Ok(AccountAction::Delete { tasks })
            && tasks_match(tasks@, found@)),
{
    match run_option {
        RunOption::List => Ok(
            AccountAction::Report {
                file_name: report_file_name(account_id, R::kind()),
                lines: csv_lines(&found),
            },
        ),
        RunOption::Delete => Ok(AccountAction::Delete { tasks: deletion_tasks(found) }),
        RunOption::Unknown => Err(ScanError::Config),
    }
}

} // verus!
