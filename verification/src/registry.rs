//! Who receives the scheduled reply, and how it is handed to each of them.
//!
//! The registry only grows: destinations are appended, never removed, and a
//! destination added twice is held twice. A `Broadcast` walks a snapshot of
//! the registry in the order of registration. It sends nothing itself: it
//! names the next destination, the caller delivers and reports how it went,
//! and whatever is reported, the next destination is the next in line.

use vstd::prelude::*;

verus! {

/// Where a reply can be sent: the identifier of one chat.
#[derive(Clone, Copy, Debug, PartialEq, Eq, Structural)]
pub struct Subscriber(pub i64);

/// The destinations of the scheduled reply, in the order of registration.
pub struct Registry {
    destinations: Vec<Subscriber>,
}

impl View for Registry {
    type V = Seq<Subscriber>;

    closed spec fn view(&self) -> Seq<Subscriber> {
        self.destinations@
    }
}

impl Registry {
    /// A registry without destinations.
    pub fn new() -> (registry: Registry)
        ensures
            registry@ == Seq::<Subscriber>::empty(),
    {
        Registry { destinations: Vec::new() }
    }

    /// Appends a destination, whether or not the registry holds it already.
    pub fn add(&mut self, destination: Subscriber)
        ensures
            final(self)@ == old(self)@.push(destination),
    {
        self.destinations.push(destination);
    }

    /// How many destinations are registered, each counted as often as it was
    /// added.
    pub fn len(&self) -> (n: usize)
        ensures
            n == self@.len(),
    {
        self.destinations.len()
    }

    /// The destinations registered so far, in the order of registration.
    pub fn snapshot(&self) -> (destinations: Vec<Subscriber>)
        ensures
            destinations@ == self@,
    {
        let mut destinations: Vec<Subscriber> = Vec::new();
        let mut i: usize = 0;
        while i < self.destinations.len()
            invariant
                i <= self.destinations.len(),
                destinations@ == self.destinations@.take(i as int),
            decreases self.destinations.len() - i,
        {
            destinations.push(self.destinations[i]);
            i += 1;
        }
        destinations
    }
}

/// One reply on its way to every destination of a snapshot.
pub struct Broadcast {
    body: String,
    targets: Vec<Subscriber>,
    outcomes: Vec<bool>,
}

/// A `Broadcast` as contracts see it: the reply, the destinations in the
/// order of registration, and how the deliveries made so far went.
pub struct BroadcastView {
    pub body: Seq<char>,
    pub targets: Seq<Subscriber>,
    pub outcomes: Seq<bool>,
}

impl View for Broadcast {
    type V = BroadcastView;

    closed spec fn view(&self) -> BroadcastView {
        BroadcastView { body: self.body@, targets: self.targets@, outcomes: self.outcomes@ }
    }
}

/// A broadcast of `body` to `targets` of which nothing was delivered yet.
pub open spec fn spec_fresh(body: Seq<char>, targets: Seq<Subscriber>) -> BroadcastView {
    BroadcastView { body, targets, outcomes: Seq::empty() }
}

/// The destination to deliver to next; `None` once every destination had
/// its attempt.
pub open spec fn spec_next(b: BroadcastView) -> Option<Subscriber> {
    if b.outcomes.len() < b.targets.len() {
        Some(b.targets[b.outcomes.len() as int])
    } else {
        None
    }
}

/// The broadcast after the outcome of the delivery to its next destination
/// was reported. A report that no delivery stands behind changes nothing.
pub open spec fn spec_record(b: BroadcastView, delivered: bool) -> BroadcastView {
    if b.outcomes.len() < b.targets.len() {
        BroadcastView { outcomes: b.outcomes.push(delivered), ..b }
    } else {
        b
    }
}

/// The broadcast after a run of outcomes was reported, one after the other.
pub open spec fn spec_run(b: BroadcastView, reports: Seq<bool>) -> BroadcastView
    decreases reports.len(),
{
    if reports.len() == 0 {
        b
    } else {
        spec_record(spec_run(b, reports.drop_last()), reports.last())
    }
}

/// The destinations among the first `upto` to which delivery failed, in the
/// order of registration.
pub open spec fn spec_failures(b: BroadcastView, upto: int) -> Seq<Subscriber>
    decreases upto,
{
    if upto <= 0 {
        Seq::empty()
    } else if !b.outcomes[upto - 1] {
        spec_failures(b, upto - 1).push(b.targets[upto - 1])
    } else {
        spec_failures(b, upto - 1)
    }
}

/// Reports are kept as they come, as long as destinations are left.
pub proof fn lemma_run_keeps_reports(b: BroadcastView, reports: Seq<bool>)
    requires
        b.outcomes.len() + reports.len() <= b.targets.len(),
    ensures
        spec_run(b, reports).body == b.body,
        spec_run(b, reports).targets == b.targets,
        spec_run(b, reports).outcomes == b.outcomes + reports,
    decreases reports.len(),
{
    if reports.len() > 0 {
        lemma_run_keeps_reports(b, reports.drop_last());
    }
}

/// No failure stops a broadcast. Whatever was reported of the first `k`
/// deliveries, the next attempt goes to the destination registered at
/// position `k`, with the same reply; and once every destination had its
/// attempt, none is left.
pub proof fn lemma_every_destination_is_attempted(
    body: Seq<char>,
    targets: Seq<Subscriber>,
    reports: Seq<bool>,
)
    requires
        reports.len() <= targets.len(),
    ensures
        spec_run(spec_fresh(body, targets), reports).body == body,
        reports.len() < targets.len() ==> spec_next(spec_run(spec_fresh(body, targets), reports))
            == Some(targets[reports.len() as int]),
        reports.len() == targets.len() ==> spec_next(spec_run(spec_fresh(body, targets), reports))
            is None,
{
    lemma_run_keeps_reports(spec_fresh(body, targets), reports);
}

impl Broadcast {
    #[verifier::type_invariant]
    spec fn well_formed(self) -> bool {
        self.outcomes.len() <= self.targets.len()
    }

    /// Starts the broadcast of `body` to the destinations that the registry
    /// holds now. Destinations added later are not part of it.
    pub fn new(registry: &Registry, body: String) -> (broadcast: Broadcast)
        ensures
            broadcast@ == spec_fresh(body@, registry@),
    {
        Broadcast { body, targets: registry.snapshot(), outcomes: Vec::new() }
    }

    /// The reply that is broadcast, the same for every destination.
    pub fn body(&self) -> (body: &str)
        ensures
            body@ == self@.body,
    {
        self.body.as_str()
    }

    /// The destination to deliver to next, or `None` once every destination
    /// had its attempt.
    pub fn next(&self) -> (destination: Option<Subscriber>)
        ensures
            destination == spec_next(self@),
    {
        proof {
            use_type_invariant(self);
        }
        if self.outcomes.len() < self.targets.len() {
            Some(self.targets[self.outcomes.len()])
        } else {
            None
        }
    }

    /// Reports how the delivery to the destination that `next` named went,
    /// and moves on to the destination after it, whether the delivery failed
    /// or not.
    pub fn record(self, delivered: bool) -> (after: Broadcast)
        ensures
            after@ == spec_record(self@, delivered),
    {
        proof {
            use_type_invariant(&self);
        }
        let Broadcast { body, targets, outcomes } = self;
        let mut outcomes = outcomes;
        if outcomes.len() < targets.len() {
            outcomes.push(delivered);
        }
        Broadcast { body, targets, outcomes }
    }

    /// Whether every destination had its attempt.
    pub fn is_finished(&self) -> (finished: bool)
        ensures
            finished == (spec_next(self@) is None),
    {
        proof {
            use_type_invariant(self);
        }
        self.outcomes.len() >= self.targets.len()
    }

    /// How many deliveries were attempted so far.
    pub fn attempted(&self) -> (n: usize)
        ensures
            n == self@.outcomes.len(),
            n <= self@.targets.len(),
    {
        proof {
            use_type_invariant(self);
        }
        self.outcomes.len()
    }

    /// The destinations to which delivery failed so far, in the order of
    /// registration.
    pub fn failures(&self) -> (failed: Vec<Subscriber>)
        ensures
            failed@ == spec_failures(self@, self@.outcomes.len() as int),
    {
        proof {
            use_type_invariant(self);
        }
        let mut failed: Vec<Subscriber> = Vec::new();
        let mut i: usize = 0;
        while i < self.outcomes.len()
            invariant
                i <= self.outcomes.len() <= self.targets.len(),
                failed@ == spec_failures(self@, i as int),
            decreases self.outcomes.len() - i,
        {
            if !self.outcomes[i] {
                failed.push(self.targets[i]);
            }
            i += 1;
        }
        failed
    }
}

} // verus!
