//! The one place where the records of a region's load balancers come
//! together, with the VPC filter applied as each record comes in.

use crate::record::ResourceRecord;
use vstd::hash_map::StringHashMap;
use vstd::prelude::*;

verus! {

/// Whether the filter lets a record of the VPC `vpc` in. A filter that is
/// not strict lets every record in. A strict one lets every record in where
/// it names no VPC, and otherwise those of the VPCs it names.
pub open spec fn admits(filter: Set<Seq<char>>, strict: bool, vpc: Seq<char>) -> bool {
    !strict || filter.is_empty() || filter.contains(vpc)
}

/// The records collected so far, and the filter they came through.
pub struct AggregateView<R> {
    /// The records let in, in the order in which they came.
    pub records: Seq<R>,
    /// The VPCs that the filter names.
    pub filter: Set<Seq<char>>,
    /// Whether the filter is enforced.
    pub strict: bool,
}

impl<R: ResourceRecord> AggregateView<R> {
    /// An aggregate without records.
    pub open spec fn initial(filter: Set<Seq<char>>, strict: bool) -> AggregateView<R> {
        AggregateView { records: Seq::empty(), filter, strict }
    }

    /// Whether the aggregate takes `record`.
    pub open spec fn takes(self, record: R) -> bool {
        admits(self.filter, self.strict, record.fields().vpc_id)
    }

    /// The aggregate after `record` has come in.
    pub open spec fn insert(self, record: R) -> AggregateView<R> {
        if self.takes(record) {
            AggregateView { records: self.records.push(record), ..self }
        } else {
            self
        }
    }

    /// The aggregate after the records have come in, one after another.
    pub open spec fn insert_all(self, records: Seq<R>) -> AggregateView<R>
        decreases records.len(),
    {
        if records.len() == 0 {
            self
        } else {
            self.insert_all(records.drop_last()).insert(records.last())
        }
    }
}

/// An aggregate holds the records that its filter lets in, all of them and
/// no others, in the order in which they came.
pub proof fn lemma_aggregate_is_filter<R: ResourceRecord>(start: AggregateView<R>, records: Seq<R>)
    ensures
        start.insert_all(records).filter == start.filter,
        start.insert_all(records).strict == start.strict,
        start.insert_all(records).records == start.records + records.filter(
            |r: R| start.takes(r),
        ),
    decreases records.len(),
{
    reveal(Seq::filter);
    if records.len() > 0 {
        lemma_aggregate_is_filter(start, records.drop_last());
    }
    assert(start.insert_all(records).records =~= start.records + records.filter(
        |r: R| start.takes(r),
    ));
}

/// The records of a region, collected as its load balancers are classified.
pub struct Aggregator<R: ResourceRecord> {
    records: Vec<R>,
    filter: StringHashMap<bool>,
    strict: bool,
}

impl<R: ResourceRecord> View for Aggregator<R> {
    type V = AggregateView<R>;

    closed spec fn view(&self) -> AggregateView<R> {
        AggregateView { records: self.records@, filter: self.filter@.dom(), strict: self.strict }
    }
}

impl<R: ResourceRecord> Aggregator<R> {
    /// An aggregator without records. `filter` names the VPCs to which the
    /// scan is limited; it is enforced only where `strict` is set.
    pub fn new(filter: StringHashMap<bool>, strict: bool) -> (aggregator: Self)
        ensures
            aggregator@ == AggregateView::<R>::initial(filter@.dom(), strict),
    {
        Aggregator { records: Vec::new(), filter, strict }
    }

    /// Takes in one record, unless the filter keeps it out, and says
    /// whether it was taken.
    pub fn insert(&mut self, record: R) -> (taken: bool)
        ensures
            taken == old(self)@.takes(record),
            final(self)@ == old(self)@.insert(record),
    {
        if !self.strict || self.filter.is_empty() || self.filter.contains_key(record.vpc_id()) {
            self.records.push(record);
            true
        } else {
            false
        }
    }

    /// How many records have been taken.
    pub fn len(&self) -> (n: usize)
        ensures
            n == self@.records.len(),
    {
        self.records.len()
    }

    /// Hands out the records, in the order in which they came.
    pub fn into_records(self) -> (records: Vec<R>)
        ensures
            records@ == self@.records,
    {
        self.records
    }
}

} // verus!
