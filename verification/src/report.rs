//! The report of inactive load balancers: one line of comma-separated values
//! for each, under a header.

use crate::record::{fields_of, RecordView, ResourceKind, ResourceRecord};
use crate::region::region_as_str;
use crate::text::{join, lemma_join_push};
use vstd::prelude::*;
use vstd::string::StringExecFns;

verus! {

/// The line of a report that stands for one record: identifier, state,
/// region and VPC, with commas between them.
pub open spec fn row(record: RecordView) -> Seq<char> {
    record.identifier + seq![','] + record.state.name() + seq![','] + record.region + seq![',']
        + record.vpc_id
}

/// The first line of a report on load balancers of one kind.
pub open spec fn header(kind: ResourceKind) -> Seq<char> {
    match kind {
        ResourceKind::SingleStage => "name,state,region,vpc_id"@,
        ResourceKind::MultiStage => "arn,state,region,vpc_id"@,
    }
}

/// All lines of a report: the header, then one row for each record, in order.
pub open spec fn lines(kind: ResourceKind, records: Seq<RecordView>) -> Seq<Seq<char>> {
    seq![header(kind)] + records.map_values(|r: RecordView| row(r))
}

/// The path of the file that holds an account's report.
pub open spec fn file_name(account_id: Seq<char>, kind: ResourceKind) -> Seq<char> {
    "outputs/"@ + account_id + match kind {
        ResourceKind::SingleStage => "_inactive_elbs.csv"@,
        ResourceKind::MultiStage => "_inactive_elbv2s.csv"@,
    }
}

/// The texts of a list of strings, in order.
pub open spec fn texts_of(strings: Seq<String>) -> Seq<Seq<char>> {
    strings.map_values(|s: String| s@)
}

/// The report line for one record.
pub fn csv_row<R: ResourceRecord>(record: &R) -> (line: String)
    ensures
        line@ == row(record.fields()),
{
    proof {
        reveal_strlit(",");
        assert(","@ =~= seq![',']);
    }
    let mut line = String::from_str(record.identifier());
    line.append(",");
    let state = record.state().to_string();
    line.append(state.as_str());
    line.append(",");
    line.append(region_as_str(record.region()));
    line.append(",");
    line.append(record.vpc_id());
    line
}

/// The header of a report on load balancers of one kind.
pub fn csv_header(kind: ResourceKind) -> (line: &'static str)
    ensures
        line@ == header(kind),
{
    match kind {
        ResourceKind::SingleStage => "name,state,region,vpc_id",
        ResourceKind::MultiStage => "arn,state,region,vpc_id",
    }
}

/// The lines of a report on `records`: the header for their kind and one
/// row for each record.
pub fn csv_lines<R: ResourceRecord>(records: &Vec<R>) -> (out: Vec<String>)
    ensures
        texts_of(out@) == lines(R::resource_kind(), fields_of(records@)),
{
    let kind = R::kind();
    let mut out: Vec<String> = Vec::new();
    out.push(String::from_str(csv_header(kind)));
    let mut i: usize = 0;
    while i < records.len()
        invariant
            i <= records.len(),
            kind == R::resource_kind(),
            texts_of(out@) == lines(kind, fields_of(records@.take(i as int))),
        decreases records.len() - i,
    {
        let ghost before = out@;
        out.push(csv_row(&records[i]));
        proof {
            let done = fields_of(records@.take(i as int));
            let next = fields_of(records@.take(i + 1));
            assert(next =~= done.push(records[i as int].fields()));
            assert(texts_of(out@) =~= texts_of(before).push(row(records[i as int].fields())));
            assert(lines(kind, next) =~= lines(kind, done).push(row(records[i as int].fields())));
        }
        i += 1;
    }
    assert(records@.take(records.len() as int) =~= records@);
    out
}

/// What is written to a report's file: the lines, each but the last ended by
/// a line feed. A report of fewer than two lines holds no record, and
/// nothing is written for it.
pub fn csv_payload(lines: &Vec<String>) -> (payload: Option<String>)
    ensures
        lines.len() >= 2 <==> payload is Some,
        payload matches Some(text) ==> text@ == join(texts_of(lines@), '\n'),
{
    if lines.len() < 2 {
        return None;
    }
    proof {
        reveal_strlit("\n");
        assert("\n"@ =~= seq!['\n']);
    }
    let mut text = String::from_str(lines[0].as_str());
    let mut i: usize = 1;
    assert(texts_of(lines@.take(1)) =~= seq![lines[0]@]);
    while i < lines.len()
        invariant
            1 <= i <= lines.len(),
            "\n"@ == seq!['\n'],
            text@ == join(texts_of(lines@.take(i as int)), '\n'),
        decreases lines.len() - i,
    {
        proof {
            let done = texts_of(lines@.take(i as int));
            lemma_join_push(done, '\n', lines[i as int]@);
            assert(texts_of(lines@.take(i + 1)) =~= done.push(lines[i as int]@));
        }
        text.append("\n");
        text.append(lines[i].as_str());
        i += 1;
    }
    assert(lines@.take(lines.len() as int) =~= lines@);
    Some(text)
}

/// The path of the file for the report on an account's load balancers of
/// one kind.
pub fn report_file_name(account_id: &str, kind: ResourceKind) -> (path: String)
    ensures
        path@ == file_name(account_id@, kind),
{
    let mut path = String::from_str("outputs/");
    path.append(account_id);
    match kind {
        ResourceKind::SingleStage => path.append("_inactive_elbs.csv"),
        ResourceKind::MultiStage => path.append("_inactive_elbv2s.csv"),
    }
    path
}

} // verus!
