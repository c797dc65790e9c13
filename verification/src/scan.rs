//! The scan of one region: which load balancer is classified next, how many
//! are being classified at the same time, and what is recorded of each.
//!
//! The scan is driven from outside. Ask it for the next load balancer to
//! start until it names none, run their classifications, hand in each
//! record as it completes, and ask again. The scan has finished when every
//! load balancer of the region has been started and none is under way.

use crate::aggregator::{AggregateView, Aggregator};
use crate::governor::{permits_for, Governor, Permits};
use crate::record::ResourceRecord;
use vstd::hash_map::StringHashMap;
use vstd::prelude::*;

verus! {

/// Where the scan of a region stands.
pub struct ScanView<R> {
    /// How many load balancers the region has.
    pub total: nat,
    /// How many of them have been started; they are started in listing
    /// order, so these are the first `started`.
    pub started: nat,
    /// The permits; one is held for each load balancer under way.
    pub permits: Permits,
    /// The records of the load balancers that have completed.
    pub aggregate: AggregateView<R>,
}

/// What can happen during a scan.
pub enum ScanEvent<R> {
    /// The driver asks for the next load balancer to start.
    Start,
    /// The classification of a load balancer completes with a record.
    Complete(R),
}

impl<R: ResourceRecord> ScanView<R> {
    /// A scan of `total` load balancers before any has been started.
    pub open spec fn initial(total: nat, capacity: nat, filter: Set<Seq<char>>, strict: bool)
        -> ScanView<R> {
        ScanView {
            total,
            started: 0,
            permits: Permits::initial(capacity),
            aggregate: AggregateView::initial(filter, strict),
        }
    }

    /// How many load balancers are under way.
    pub open spec fn in_flight(self) -> nat {
        self.permits.held
    }

    /// Whether the numbers fit together: no more under way than permits,
    /// no more started than there are, and what is under way or recorded
    /// has been started.
    pub open spec fn consistent(self) -> bool {
        &&& self.permits.held <= self.permits.capacity
        &&& self.started <= self.total
        &&& self.aggregate.records.len() + self.permits.held <= self.started
    }

    /// Whether a load balancer can be started: one is left, and a permit is
    /// free.
    pub open spec fn can_start(self) -> bool {
        self.started < self.total && self.permits.available()
    }

    /// Whether every load balancer has been started and none is under way.
    pub open spec fn finished(self) -> bool {
        self.started == self.total && self.permits.held == 0
    }

    /// The scan after the driver has asked for the next load balancer.
    pub open spec fn start(self) -> ScanView<R> {
        if self.can_start() {
            ScanView { started: self.started + 1, permits: self.permits.acquire(), ..self }
        } else {
            self
        }
    }

    /// The scan after a classification has completed with `record`. Where
    /// none is under way nothing changes.
    pub open spec fn complete(self, record: R) -> ScanView<R> {
        if self.permits.held > 0 {
            ScanView {
                permits: self.permits.release(),
                aggregate: self.aggregate.insert(record),
                ..self
            }
        } else {
            self
        }
    }

    /// The scan after one event.
    pub open spec fn step(self, event: ScanEvent<R>) -> ScanView<R> {
        match event {
            ScanEvent::Start => self.start(),
            ScanEvent::Complete(record) => self.complete(record),
        }
    }

    /// The scan after the events, one after another.
    pub open spec fn after(self, events: Seq<ScanEvent<R>>) -> ScanView<R>
        decreases events.len(),
    {
        if events.len() == 0 {
            self
        } else {
            self.after(events.drop_last()).step(events.last())
        }
    }
}

/// However the classifications of a region interleave, the number under
/// way never exceeds the number of permits, however many load balancers
/// the region has; and never more are under way or recorded than have been
/// started.
pub proof fn lemma_capacity_respected<R: ResourceRecord>(
    total: nat,
    capacity: nat,
    filter: Set<Seq<char>>,
    strict: bool,
    events: Seq<ScanEvent<R>>,
)
    ensures
        ScanView::<R>::initial(total, capacity, filter, strict).after(events).in_flight()
            <= capacity,
        ScanView::<R>::initial(total, capacity, filter, strict).after(events).consistent(),
        ScanView::<R>::initial(total, capacity, filter, strict).after(events).total == total,
        ScanView::<R>::initial(total, capacity, filter, strict).after(events).permits.capacity
            == capacity,
    decreases events.len(),
{
    if events.len() > 0 {
        lemma_capacity_respected::<R>(total, capacity, filter, strict, events.drop_last());
    }
}

/// A scan that has not finished can go on, provided there is at least one
/// permit: a load balancer can be started, or one is under way.
pub proof fn lemma_scan_goes_on<R: ResourceRecord>(scan: ScanView<R>)
    requires
        scan.consistent(),
        scan.permits.capacity > 0,
        !scan.finished(),
    ensures
        scan.can_start() || scan.in_flight() > 0,
{
}

/// The scan of one region. Its numbers fit together from the start, and
/// every step keeps them so (`ScanView::consistent`).
pub struct RegionScan<R: ResourceRecord> {
    total: usize,
    started: usize,
    governor: Governor,
    aggregator: Aggregator<R>,
}

impl<R: ResourceRecord> View for RegionScan<R> {
    type V = ScanView<R>;

    closed spec fn view(&self) -> ScanView<R> {
        ScanView {
            total: self.total as nat,
            started: self.started as nat,
            permits: self.governor@,
            aggregate: self.aggregator@,
        }
    }
}

impl<R: ResourceRecord> RegionScan<R> {
    /// The scan of a region with `total` load balancers, with as many
    /// permits as their kind is given. `filter` names the VPCs to which the
    /// scan is limited; it is enforced only where `strict` is set.
    pub fn new(total: usize, filter: StringHashMap<bool>, strict: bool) -> (scan: Self)
        ensures
            scan@ == ScanView::<R>::initial(
                total as nat,
                permits_for(R::resource_kind()),
                filter@.dom(),
                strict,
            ),
            scan@.consistent(),
    {
        RegionScan {
            total,
            started: 0,
            governor: Governor::for_kind(R::kind()),
            aggregator: Aggregator::new(filter, strict),
        }
    }

    /// The scan of a region with `total` load balancers, of which at most
    /// `capacity` are classified at the same time.
    pub fn with_capacity(
        total: usize,
        capacity: usize,
        filter: StringHashMap<bool>,
        strict: bool,
    ) -> (scan: Self)
        ensures
            scan@ == ScanView::<R>::initial(total as nat, capacity as nat, filter@.dom(), strict),
            scan@.consistent(),
    {
        RegionScan {
            total,
            started: 0,
            governor: Governor::new(capacity),
            aggregator: Aggregator::new(filter, strict),
        }
    }

    /// Names the load balancer to start next, by its place in the listing,
    /// and takes a permit for it. `None` where all have been started or no
    /// permit is free.
    pub fn start_next(&mut self) -> (next: Option<usize>)
        requires
            old(self)@.consistent(),
        ensures
            next is Some <==> old(self)@.can_start(),
            next matches Some(index) ==> index == old(self)@.started,
            final(self)@ == old(self)@.start(),
            final(self)@.consistent(),
    {
        if self.started < self.total && self.governor.in_flight() < self.governor.capacity() {
            let index = self.started;
            self.started = self.started + 1;
            let granted = self.governor.try_acquire();
            assert(granted);
            Some(index)
        } else {
            None
        }
    }

    /// Takes in the record of a load balancer whose classification has
    /// completed, and gives its permit back. One must be under way.
    pub fn complete(&mut self, record: R)
        requires
            old(self)@.consistent(),
            old(self)@.in_flight() > 0,
        ensures
            final(self)@ == old(self)@.complete(record),
            final(self)@.consistent(),
    {
        self.governor.release();
        self.aggregator.insert(record);
    }

    /// How many load balancers are under way: never more than there are
    /// permits.
    pub fn in_flight(&self) -> (n: usize)
        ensures
            n == self@.in_flight(),
            n <= self@.permits.capacity,
    {
        self.governor.in_flight()
    }

    /// How many load balancers have been started.
    pub fn started(&self) -> (n: usize)
        ensures
            n == self@.started,
    {
        self.started
    }

    /// Whether every load balancer has been started and none is under way.
    pub fn is_finished(&self) -> (finished: bool)
        ensures
            finished == self@.finished(),
    {
        self.started == self.total && self.governor.in_flight() == 0
    }

    /// Ends the scan and hands out the records, in the order in which they
    /// came.
    pub fn into_records(self) -> (records: Vec<R>)
        ensures
            records@ == self@.aggregate.records,
    {
        self.aggregator.into_records()
    }
}

} // verus!
