//! The pool of permits that bounds how many load balancers of a region are
//! being classified at the same time.

use crate::record::ResourceKind;
use vstd::prelude::*;

verus! {

/// The number of classic load balancers classified at the same time.
pub const SINGLE_STAGE_PERMITS: usize = 10;

/// The number of multi-stage load balancers classified at the same time.
/// Fewer than classic ones, as each takes several queries.
pub const MULTI_STAGE_PERMITS: usize = 5;

/// The number of load balancers of one kind classified at the same time.
pub open spec fn permits_for(kind: ResourceKind) -> nat {
    match kind {
        ResourceKind::SingleStage => SINGLE_STAGE_PERMITS as nat,
        ResourceKind::MultiStage => MULTI_STAGE_PERMITS as nat,
    }
}

/// A pool of permits as plain numbers.
pub struct Permits {
    /// How many permits there are.
    pub capacity: nat,
    /// How many of them are taken.
    pub held: nat,
}

/// What can happen to a pool.
pub enum PermitEvent {
    /// A task asks for a permit.
    Acquire,
    /// A task gives its permit back.
    Release,
}

impl Permits {
    /// A pool of which no permit is taken.
    pub open spec fn initial(capacity: nat) -> Permits {
        Permits { capacity, held: 0 }
    }

    /// Whether a permit is free.
    pub open spec fn available(self) -> bool {
        self.held < self.capacity
    }

    /// The pool after a task has asked for a permit: one more is taken
    /// where one was free.
    pub open spec fn acquire(self) -> Permits {
        if self.available() {
            Permits { held: self.held + 1, ..self }
        } else {
            self
        }
    }

    /// The pool after a permit has come back.
    pub open spec fn release(self) -> Permits {
        if self.held > 0 {
            Permits { held: (self.held - 1) as nat, ..self }
        } else {
            self
        }
    }

    /// The pool after one event.
    pub open spec fn step(self, event: PermitEvent) -> Permits {
        match event {
            PermitEvent::Acquire => self.acquire(),
            PermitEvent::Release => self.release(),
        }
    }

    /// The pool after the events, one after another.
    pub open spec fn after(self, events: Seq<PermitEvent>) -> Permits
        decreases events.len(),
    {
        if events.len() == 0 {
            self
        } else {
            self.after(events.drop_last()).step(events.last())
        }
    }
}

/// Whatever tasks ask for and give back, and in whatever order, a pool
/// never has more permits taken than it has.
pub proof fn lemma_never_over_capacity(capacity: nat, events: Seq<PermitEvent>)
    ensures
        Permits::initial(capacity).after(events).capacity == capacity,
        Permits::initial(capacity).after(events).held <= capacity,
    decreases events.len(),
{
    if events.len() > 0 {
        lemma_never_over_capacity(capacity, events.drop_last());
    }
}

/// A pool of permits. A task takes one before it starts its metric queries
/// and gives it back when its load balancer is classified.
#[derive(Debug)]
pub struct Governor {
    capacity: usize,
    held: usize,
}

impl View for Governor {
    type V = Permits;

    closed spec fn view(&self) -> Permits {
        Permits { capacity: self.capacity as nat, held: self.held as nat }
    }
}

impl Governor {
    #[verifier::type_invariant]
    spec fn within_capacity(self) -> bool {
        self.held <= self.capacity
    }

    /// A pool of `capacity` permits, none of them taken.
    pub fn new(capacity: usize) -> (governor: Self)
        ensures
            governor@ == Permits::initial(capacity as nat),
    {
        Governor { capacity, held: 0 }
    }

    /// The pool for the load balancers of one kind.
    pub fn for_kind(kind: ResourceKind) -> (governor: Self)
        ensures
            governor@ == Permits::initial(permits_for(kind)),
    {
        match kind {
            ResourceKind::SingleStage => Governor::new(SINGLE_STAGE_PERMITS),
            ResourceKind::MultiStage => Governor::new(MULTI_STAGE_PERMITS),
        }
    }

    /// Takes a permit if one is free, and says whether it did.
    pub fn try_acquire(&mut self) -> (granted: bool)
        ensures
            granted == old(self)@.available(),
            final(self)@ == old(self)@.acquire(),
            final(self)@.held <= final(self)@.capacity,
    {
        proof {
            use_type_invariant(&*self);
        }
        if self.held < self.capacity {
            self.held = self.held + 1;
            true
        } else {
            false
        }
    }

    /// Gives a permit back. Where none is taken nothing changes.
    pub fn release(&mut self)
        ensures
            final(self)@ == old(self)@.release(),
            final(self)@.held <= final(self)@.capacity,
    {
        proof {
            use_type_invariant(&*self);
        }
        if self.held > 0 {
            self.held = self.held - 1;
        }
    }

    /// How many permits there are.
    pub fn capacity(&self) -> (n: usize)
        ensures
            n == self@.capacity,
    {
        self.capacity
    }

    /// How many permits are taken: never more than there are.
    pub fn in_flight(&self) -> (n: usize)
        ensures
            n == self@.held,
            n <= self@.capacity,
    {
        proof {
            use_type_invariant(self);
        }
        self.held
    }
}

} // verus!
