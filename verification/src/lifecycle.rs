//! The lifecycle coordinator: startup verdict, cooperative stop polling and
//! ordered shutdown of every started pipeline.
//!
//! The coordinator moves through four phases. Construction outcomes decide
//! whether it enters the running phase at all — an empty running set is the
//! one fatal condition, answered with a nonzero exit code. While running it
//! polls a monotonic stop flag; once the flag is observed it schedules one
//! stop call per running pipeline, location feeds before frame feeds, and
//! terminates whatever each individual stop call reported.

use vstd::prelude::*;

use crate::pipeline::{FeedKind, PipelineHandle, PipelineOutcome};

verus! {

/// The process-wide stop flag, set exactly once by the interrupt handler
/// and polled by the coordinator. Monotonic by construction: no operation
/// clears it.
#[derive(Clone, Copy, Debug, PartialEq, Eq, Structural)]
pub struct StopSignal {
    pub tripped: bool,
}

impl StopSignal {
    /// The flag an interrupt has not reached yet.
    pub fn new() -> (s: StopSignal)
        ensures
            !s.tripped,
    {
        StopSignal { tripped: false }
    }

    /// Trip the flag. The new state is set whatever the old one was, so a
    /// set flag can never revert.
    pub fn set(&mut self)
        ensures
            final(self).tripped,
    {
        self.tripped = true;
    }

    /// Observe the flag without changing it.
    pub fn is_set(&self) -> (r: bool)
        ensures
            r == self.tripped,
    {
        self.tripped
    }
}

/// Some pipeline in the set was started.
pub open spec fn spec_any_started(outs: Seq<PipelineOutcome>) -> bool {
    exists|i: int| 0 <= i < outs.len() && outs[i] is Started
}

/// The handles of the started pipelines, in construction order.
pub open spec fn spec_running(outs: Seq<PipelineOutcome>) -> Seq<PipelineHandle>
    decreases outs.len(),
{
    if outs.len() == 0 {
        Seq::empty()
    } else {
        let rest = spec_running(outs.drop_last());
        match outs.last() {
            PipelineOutcome::Started { handle } => rest.push(handle),
            PipelineOutcome::Abandoned { .. } => rest,
        }
    }
}

/// A pipeline started exactly when the running set is inhabited.
pub proof fn lemma_any_started_iff_running(outs: Seq<PipelineOutcome>)
    ensures
        spec_any_started(outs) <==> spec_running(outs).len() > 0,
    decreases outs.len(),
{
    if outs.len() == 0 {
    } else {
        let d = outs.drop_last();
        lemma_any_started_iff_running(d);
        match outs.last() {
            PipelineOutcome::Started { handle } => {
                assert(0 <= outs.len() - 1 < outs.len() && outs[outs.len() - 1] is Started);
            },
            PipelineOutcome::Abandoned { .. } => {
                if spec_any_started(d) {
                    let i = choose|i: int| 0 <= i < d.len() && d[i] is Started;
                    assert(outs[i] is Started);
                }
                if spec_any_started(outs) {
                    let i = choose|i: int| 0 <= i < outs.len() && outs[i] is Started;
                    assert(i < outs.len() - 1);
                    assert(d[i] is Started);
                }
            },
        }
    }
}

/// Collect the handles of the started pipelines, in construction order.
pub fn running_handles(outs: &Vec<PipelineOutcome>) -> (hs: Vec<PipelineHandle>)
    ensures
        hs@ == spec_running(outs@),
{
    let n = outs.len();
    let mut hs: Vec<PipelineHandle> = Vec::new();
    let mut i: usize = 0;
    while i < n
        invariant
            n == outs@.len(),
            i <= n,
            hs@ == spec_running(outs@.take(i as int)),
        decreases n - i,
    {
        proof {
            assert(outs@.take(i + 1 as int).drop_last() =~= outs@.take(i as int));
            assert(outs@.take(i + 1 as int).last() == outs@[i as int]);
        }
        match &outs[i] {
            PipelineOutcome::Started { handle } => {
                hs.push(*handle);
            },
            PipelineOutcome::Abandoned { .. } => {},
        }
        i += 1;
    }
    proof {
        assert(outs@.take(n as int) =~= outs@);
    }
    hs
}

/// The handles of `hs` whose pipeline publishes the given feed, in order.
pub open spec fn spec_with_feed(hs: Seq<PipelineHandle>, feed: FeedKind) -> Seq<PipelineHandle>
    decreases hs.len(),
{
    if hs.len() == 0 {
        Seq::empty()
    } else {
        let rest = spec_with_feed(hs.drop_last(), feed);
        if hs.last().feed == feed {
            rest.push(hs.last())
        } else {
            rest
        }
    }
}

/// The order running pipelines are asked to stop in: every location feed
/// before any frame feed, construction order kept within each class.
pub open spec fn spec_stop_order(hs: Seq<PipelineHandle>) -> Seq<PipelineHandle> {
    spec_with_feed(hs, FeedKind::Locations) + spec_with_feed(hs, FeedKind::Frames)
}

/// Every handle selected for a feed publishes that feed.
proof fn lemma_with_feed_all(hs: Seq<PipelineHandle>, feed: FeedKind)
    ensures
        forall|k: int|
            0 <= k < spec_with_feed(hs, feed).len() ==> (#[trigger] spec_with_feed(hs, feed)[k]).feed
                == feed,
    decreases hs.len(),
{
    if hs.len() == 0 {
    } else {
        lemma_with_feed_all(hs.drop_last(), feed);
    }
}

/// Splitting the running set by feed loses and duplicates nothing.
proof fn lemma_with_feed_partition(hs: Seq<PipelineHandle>)
    ensures
        spec_with_feed(hs, FeedKind::Locations).to_multiset().add(
            spec_with_feed(hs, FeedKind::Frames).to_multiset(),
        ) =~= hs.to_multiset(),
    decreases hs.len(),
{
    broadcast use vstd::seq_lib::group_to_multiset_ensures;
    broadcast use vstd::multiset::group_multiset_axioms;

    if hs.len() == 0 {
    } else {
        let d = hs.drop_last();
        let h = hs.last();
        lemma_with_feed_partition(d);
        assert(hs =~= d.push(h));
        assert(hs.to_multiset() =~= d.to_multiset().insert(h));
        match h.feed {
            FeedKind::Locations => {
                assert(spec_with_feed(hs, FeedKind::Locations) == spec_with_feed(
                    d,
                    FeedKind::Locations,
                ).push(h));
                assert(spec_with_feed(hs, FeedKind::Frames) == spec_with_feed(
                    d,
                    FeedKind::Frames,
                ));
            },
            FeedKind::Frames => {
                assert(spec_with_feed(hs, FeedKind::Frames) == spec_with_feed(
                    d,
                    FeedKind::Frames,
                ).push(h));
                assert(spec_with_feed(hs, FeedKind::Locations) == spec_with_feed(
                    d,
                    FeedKind::Locations,
                ));
            },
        }
    }
}

/// Law: the stop schedule stops every running pipeline exactly once — it is
/// a permutation of the running set, nothing dropped, nothing repeated.
pub proof fn lemma_stop_order_exactly_once(hs: Seq<PipelineHandle>)
    ensures
        spec_stop_order(hs).to_multiset() =~= hs.to_multiset(),
{
    vstd::seq_lib::lemma_multiset_commutative(
        spec_with_feed(hs, FeedKind::Locations),
        spec_with_feed(hs, FeedKind::Frames),
    );
    lemma_with_feed_partition(hs);
}

/// Law: the stop schedule asks every location feed to stop before any
/// frame feed — once a frame feed appears, only frame feeds follow.
pub proof fn lemma_stop_order_locations_first(hs: Seq<PipelineHandle>, i: int, j: int)
    requires
        0 <= i < j < spec_stop_order(hs).len(),
        spec_stop_order(hs)[i].feed is Frames,
    ensures
        spec_stop_order(hs)[j].feed is Frames,
{
    lemma_with_feed_all(hs, FeedKind::Locations);
    lemma_with_feed_all(hs, FeedKind::Frames);
    let locs = spec_with_feed(hs, FeedKind::Locations);
    assert(i >= locs.len());
}

/// The phases of the coordinator, in the order they are entered.
#[derive(Clone, Copy, Debug, PartialEq, Eq, Structural)]
pub enum Phase {
    Initializing,
    Running,
    Stopping,
    Terminated,
}

/// Raised when not a single configured pipeline could be started: the one
/// condition that is not locally recovered.
#[derive(Clone, Copy, Debug, PartialEq, Eq, Structural)]
pub enum StartupError {
    NoPipelineStarted,
}

impl StartupError {
    /// The nonzero status the process exits with on a fatal startup.
    pub fn exit_code(&self) -> (c: i32)
        ensures
            c == 1,
            c != 0,
    {
        1
    }
}

/// Drives every started pipeline from startup to an orderly stop.
#[derive(Debug)]
pub struct Coordinator {
    /// Current phase; moves forward only.
    pub phase: Phase,
    /// Handles of the successfully started pipelines, construction order.
    pub running: Vec<PipelineHandle>,
    /// How long to let in-flight network writes flush after the last stop
    /// call, in milliseconds.
    pub grace_millis: u64,
}

impl Coordinator {
    /// Judge the construction outcomes. With at least one started pipeline
    /// the coordinator enters the running phase holding exactly those
    /// pipelines; with none it refuses to run and the process must exit
    /// with a nonzero status.
    pub fn initialize(outs: &Vec<PipelineOutcome>, grace_millis: u64) -> (r: Result<
        Coordinator,
        StartupError,
    >)
        ensures
            r is Ok <==> spec_any_started(outs@),
            r matches Ok(c) ==> c.phase is Running && c.running@ == spec_running(outs@)
                && c.running@.len() > 0 && c.grace_millis == grace_millis,
            r matches Err(e) ==> e is NoPipelineStarted,
    {
        let running = running_handles(outs);
        proof {
            lemma_any_started_iff_running(outs@);
        }
        if running.len() == 0 {
            Err(StartupError::NoPipelineStarted)
        } else {
            Ok(Coordinator { phase: Phase::Running, running, grace_millis })
        }
    }

    /// One turn of the cooperative poll loop: with the stop flag observed
    /// the coordinator moves to stopping and reports it; otherwise nothing
    /// changes and polling continues.
    pub fn poll_step(&mut self, stop_seen: bool) -> (stopping: bool)
        requires
            old(self).phase is Running,
        ensures
            stopping == stop_seen,
            final(self).running == old(self).running,
            final(self).grace_millis == old(self).grace_millis,
            stop_seen ==> final(self).phase is Stopping,
            !stop_seen ==> final(self).phase is Running,
    {
        if stop_seen {
            self.phase = Phase::Stopping;
        }
        stop_seen
    }

    /// The stop schedule: one stop call per running pipeline, location
    /// feeds first, then frame feeds.
    pub fn stop_order(&self) -> (ord: Vec<PipelineHandle>)
        requires
            self.phase is Stopping,
        ensures
            ord@ == spec_stop_order(self.running@),
            ord@.to_multiset() == self.running@.to_multiset(),
    {
        proof {
            lemma_stop_order_exactly_once(self.running@);
        }
        let mut ord = with_feed(&self.running, FeedKind::Locations);
        let mut frames = with_feed(&self.running, FeedKind::Frames);
        let ghost locs = ord@;
        let n = frames.len();
        let mut i: usize = 0;
        while i < n
            invariant
                n == frames@.len(),
                i <= n,
                ord@ == locs + frames@.take(i as int),
            decreases n - i,
        {
            proof {
                assert(frames@.take(i + 1 as int) =~= frames@.take(i as int).push(frames@[i as int]));
            }
            ord.push(frames[i]);
            i += 1;
        }
        proof {
            assert(frames@.take(n as int) =~= frames@);
        }
        ord
    }

    /// Record that every scheduled stop call has returned, with whatever
    /// result: a failed stop is logged by the host and stops nothing else,
    /// so the coordinator terminates regardless of the answers.
    pub fn complete_stops(&mut self, stop_results: &Vec<bool>)
        requires
            old(self).phase is Stopping,
            stop_results@.len() == spec_stop_order(old(self).running@).len(),
        ensures
            final(self).phase is Terminated,
            final(self).running == old(self).running,
            final(self).grace_millis == old(self).grace_millis,
    {
        self.phase = Phase::Terminated;
    }

    /// The status a cleanly terminated coordinator lets the process exit
    /// with.
    pub fn exit_code(&self) -> (c: i32)
        requires
            self.phase is Terminated,
        ensures
            c == 0,
    {
        0
    }
}

/// Collect the handles publishing the given feed, in order.
fn with_feed(hs: &Vec<PipelineHandle>, feed: FeedKind) -> (out: Vec<PipelineHandle>)
    ensures
        out@ == spec_with_feed(hs@, feed),
{
    let n = hs.len();
    let mut out: Vec<PipelineHandle> = Vec::new();
    let mut i: usize = 0;
    while i < n
        invariant
            n == hs@.len(),
            i <= n,
            out@ == spec_with_feed(hs@.take(i as int), feed),
        decreases n - i,
    {
        proof {
            assert(hs@.take(i + 1 as int).drop_last() =~= hs@.take(i as int));
            assert(hs@.take(i + 1 as int).last() == hs@[i as int]);
        }
        let h = hs[i];
        if h.feed == feed {
            out.push(h);
        }
        i += 1;
    }
    proof {
        assert(hs@.take(n as int) =~= hs@);
    }
    out
}

} // verus!
