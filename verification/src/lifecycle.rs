//! The lifecycle manager: the single worker slot and its state machine.
//!
//! The embedding application owns the OS process and its pipes; this
//! machine owns the truth about them.  Every lifecycle step the
//! application takes — evicting an old worker, spawning, reading the
//! handshake, probing readiness, tearing down — is driven through one
//! of the transitions below, and a ghost trace records the spawn and
//! reap of every worker.  The well-formedness invariant ties the trace
//! to the current phase, and the public lemmas state the lifecycle
//! guarantees over it: at most one worker is ever live, a spawn happens
//! only after every earlier worker was reaped, and the slot holds only
//! workers whose handshake and readiness probe both succeeded.

use vstd::prelude::*;

use crate::errors::{ErrorKind, SupervisorError};
use crate::protocol::ProbeResult;

verus! {

/// One recorded step of a worker's lifecycle, by its generation number.
pub enum WorkerOp {
    /// The worker process was spawned.
    Spawned(u64),
    /// Its first output line announced readiness.
    HandshakeOk(u64),
    /// Its readiness probe confirmed the handshake.
    ProbeOk(u64),
    /// It was stored in the slot.
    Stored(u64),
    /// Its teardown completed: the process is known to have exited.
    Reaped(u64),
}

/// The workers spawned and not yet reaped over the course of `t`.
pub open spec fn live_after(t: Seq<WorkerOp>) -> Set<u64>
    decreases t.len(),
{
    if t.len() == 0 {
        Set::empty()
    } else {
        let prev = live_after(t.drop_last());
        match t.last() {
            WorkerOp::Spawned(g) => prev.insert(g),
            WorkerOp::Reaped(g) => prev.remove(g),
            _ => prev,
        }
    }
}

/// `s` holds at most one element.
pub open spec fn lone(s: Set<u64>) -> bool {
    forall|a: u64, b: u64| s.contains(a) && s.contains(b) ==> a == b
}

/// At every point of `t`, at most one worker was live.
pub open spec fn prefix_lone(t: Seq<WorkerOp>) -> bool {
    forall|i: int| 0 <= i <= t.len() ==> lone(live_after(#[trigger] t.take(i)))
}

/// Every spawn in `t` happened while no worker was live.
pub open spec fn spawn_gated(t: Seq<WorkerOp>) -> bool {
    forall|i: int|
        0 <= i < t.len() && (#[trigger] t[i]) is Spawned ==> live_after(t.take(i)).is_empty()
}

/// The generation an op speaks of.
pub open spec fn op_gen(op: WorkerOp) -> u64 {
    match op {
        WorkerOp::Spawned(g) => g,
        WorkerOp::HandshakeOk(g) => g,
        WorkerOp::ProbeOk(g) => g,
        WorkerOp::Stored(g) => g,
        WorkerOp::Reaped(g) => g,
    }
}

/// Every op of `t` speaks of a generation below `b`.
pub open spec fn gens_below(t: Seq<WorkerOp>, b: u64) -> bool {
    forall|i: int| 0 <= i < t.len() ==> op_gen(#[trigger] t[i]) < b
}

/// Every spawn in `t` carries a generation above everything recorded
/// before it — generation numbers are never reused.
pub open spec fn spawn_fresh(t: Seq<WorkerOp>) -> bool {
    forall|i: int, j: int|
        0 <= i < j < t.len() && (#[trigger] t[j]) is Spawned ==> op_gen(#[trigger] t[i]) < op_gen(
            t[j],
        )
}

/// Worker `g`'s handshake success is recorded in `t`.
pub open spec fn handshook(t: Seq<WorkerOp>, g: u64) -> bool {
    exists|i: int| 0 <= i < t.len() && t[i] == WorkerOp::HandshakeOk(g)
}

/// Worker `g`'s readiness-probe success is recorded in `t`.
pub open spec fn probed(t: Seq<WorkerOp>, g: u64) -> bool {
    exists|i: int| 0 <= i < t.len() && t[i] == WorkerOp::ProbeOk(g)
}

/// Where the supervisor stands between two transitions.
pub enum Phase {
    /// No load in progress; the slot may hold a ready worker.
    Idle,
    /// A load evicted the previous occupant, whose teardown is running.
    Evicting { prev: u64 },
    /// The slot is clear; the new process may be created.
    Spawning,
    /// A process was spawned; its first output line is awaited.
    AwaitInit { gen: u64 },
    /// The handshake succeeded; the readiness probe is awaited.
    AwaitPong { gen: u64 },
    /// The load failed after the spawn; the process is being torn down.
    Failing { gen: u64 },
    /// An explicit cleanup is tearing down the slot's occupant.
    Closing { gen: u64 },
}

/// The generation a mid-load phase speaks of.
pub open spec fn phase_gen(p: Phase) -> u64 {
    match p {
        Phase::AwaitInit { gen } => gen,
        Phase::AwaitPong { gen } => gen,
        Phase::Failing { gen } => gen,
        Phase::Closing { gen } => gen,
        Phase::Evicting { prev } => prev,
        _ => 0,
    }
}

/// The single supervisor slot and the state of the load protocol.
pub struct Supervisor {
    slot: Option<u64>,
    next_gen: u64,
    phase: Phase,
    trace: Ghost<Seq<WorkerOp>>,
}

impl Supervisor {
    /// The generation of the slot's occupant, if any.
    pub closed spec fn slot_spec(&self) -> Option<u64> {
        self.slot
    }

    /// The current phase.
    pub closed spec fn phase_spec(&self) -> Phase {
        self.phase
    }

    /// The generation the next spawn will receive.
    pub closed spec fn gens_spec(&self) -> u64 {
        self.next_gen
    }

    /// The recorded lifecycle trace.
    pub closed spec fn trace_spec(&self) -> Seq<WorkerOp> {
        self.trace@
    }

    /// The workers the current phase accounts for as live.
    pub closed spec fn phase_live(&self) -> Set<u64> {
        match self.phase {
            Phase::Idle => match self.slot {
                Some(g) => Set::empty().insert(g),
                None => Set::empty(),
            },
            Phase::Evicting { prev } => Set::empty().insert(prev),
            Phase::Spawning => Set::empty(),
            Phase::AwaitInit { gen } => Set::empty().insert(gen),
            Phase::AwaitPong { gen } => Set::empty().insert(gen),
            Phase::Failing { gen } => Set::empty().insert(gen),
            Phase::Closing { gen } => Set::empty().insert(gen),
        }
    }

    /// The generation the current phase or slot speaks of is one that
    /// was already issued.
    pub closed spec fn gens_current(&self) -> bool {
        &&& (match self.slot {
            Some(g) => g < self.next_gen,
            None => true,
        })
        &&& (match self.phase {
            Phase::Idle => true,
            Phase::Spawning => true,
            Phase::Evicting { prev } => prev < self.next_gen,
            Phase::AwaitInit { gen } => gen < self.next_gen,
            Phase::AwaitPong { gen } => gen < self.next_gen,
            Phase::Failing { gen } => gen < self.next_gen,
            Phase::Closing { gen } => gen < self.next_gen,
        })
    }

    /// Well-formedness: the trace accounts for exactly the workers the
    /// phase says are live, the slot is empty during any transition,
    /// a slot occupant has its handshake and probe recorded, at most
    /// one worker was ever live, every spawn found no worker live, and
    /// generation numbers grow without reuse.
    pub closed spec fn wf(&self) -> bool {
        &&& live_after(self.trace@) == self.phase_live()
        &&& (!(self.phase is Idle) ==> self.slot is None)
        &&& (match self.slot {
            Some(g) => handshook(self.trace@, g) && probed(self.trace@, g),
            None => true,
        })
        &&& (match self.phase {
            Phase::AwaitPong { gen } => handshook(self.trace@, gen),
            _ => true,
        })
        &&& prefix_lone(self.trace@)
        &&& spawn_gated(self.trace@)
        &&& gens_below(self.trace@, self.next_gen)
        &&& spawn_fresh(self.trace@)
        &&& self.gens_current()
    }

    /// A fresh supervisor: empty slot, empty history.
    pub fn new() -> (s: Supervisor)
        ensures
            s.wf(),
            s.slot_spec() is None,
            s.phase_spec() == Phase::Idle,
            s.trace_spec() == Seq::<WorkerOp>::empty(),
            s.gens_spec() == 0,
    {
        let s = Supervisor { slot: None, next_gen: 0, phase: Phase::Idle, trace: Ghost(Seq::empty()) };
        proof {
            assert(live_after(s.trace@) =~= s.phase_live());
            assert forall|i: int| 0 <= i <= s.trace@.len() implies lone(
                live_after(#[trigger] s.trace@.take(i)),
            ) by {
                assert(s.trace@.take(i) =~= s.trace@);
            }
        }
        s
    }

    /// The generation of the current slot occupant, if any.
    pub fn current_worker(&self) -> (r: Option<u64>)
        ensures
            r == self.slot_spec(),
    {
        self.slot
    }

    /// Whether another generation number is available for a spawn.
    pub fn can_spawn(&self) -> (r: bool)
        ensures
            r == (self.gens_spec() < u64::MAX),
    {
        self.next_gen < u64::MAX
    }

    /// Gate of every exchange: a request is admitted only while the
    /// slot holds a worker; before any successful load it fails with an
    /// infrastructure error.
    pub fn invoke_gate(&self) -> (r: Result<u64, SupervisorError>)
        ensures
            (match self.slot_spec() {
                Some(g) => r matches Ok(x) && x == g,
                None => r matches Err(e) && e.kind == ErrorKind::NotStarted && e.message@
                    == "Python process not started"@,
            }),
    {
        match self.slot {
            Some(g) => Ok(g),
            None => {
                let m: &str = "Python process not started";
                Err(SupervisorError::new(ErrorKind::NotStarted, m.to_owned()))
            },
        }
    }

    /// Begins a load: whatever occupies the slot is taken out for
    /// teardown before anything else happens — even a supposedly empty
    /// slot is double-checked here.
    pub fn begin_load(&mut self) -> (evicted: Option<u64>)
        requires
            old(self).wf(),
            old(self).phase_spec() is Idle,
        ensures
            final(self).wf(),
            evicted == old(self).slot_spec(),
            final(self).slot_spec() is None,
            final(self).trace_spec() == old(self).trace_spec(),
            final(self).gens_spec() == old(self).gens_spec(),
            (match evicted {
                Some(g) => final(self).phase_spec() == (Phase::Evicting { prev: g }),
                None => final(self).phase_spec() == Phase::Spawning,
            }),
    {
        let evicted = self.slot;
        self.slot = None;
        match evicted {
            Some(g) => {
                self.phase = Phase::Evicting { prev: g };
            },
            None => {
                self.phase = Phase::Spawning;
            },
        }
        proof {
            assert(live_after(self.trace@) =~= self.phase_live());
        }
        evicted
    }

    /// The teardown of the evicted worker has completed: its process
    /// has exited.  The spawn of the replacement may now proceed.
    pub fn eviction_done(&mut self)
        requires
            old(self).wf(),
            old(self).phase_spec() is Evicting,
        ensures
            final(self).wf(),
            final(self).slot_spec() is None,
            final(self).phase_spec() == Phase::Spawning,
            final(self).gens_spec() == old(self).gens_spec(),
            final(self).trace_spec() == old(self).trace_spec().push(
                WorkerOp::Reaped(phase_gen(old(self).phase_spec())),
            ),
    {
        let g = match self.phase {
            Phase::Evicting { prev } => prev,
            _ => 0,  // cannot happen: the phase is Evicting
        };
        proof {
            lemma_push_effects(self.trace@, WorkerOp::Reaped(g));
        }
        self.trace = Ghost(self.trace@.push(WorkerOp::Reaped(g)));
        self.phase = Phase::Spawning;
        proof {
            assert(live_after(self.trace@) =~= self.phase_live());
        }
    }

    /// The load failed before any process was created (missing handler,
    /// unusable metadata or environment, spawn failure): the slot stays
    /// empty and the supervisor returns to rest.
    pub fn launch_failed(&mut self)
        requires
            old(self).wf(),
            old(self).phase_spec() is Spawning,
        ensures
            final(self).wf(),
            final(self).slot_spec() is None,
            final(self).phase_spec() == Phase::Idle,
            final(self).gens_spec() == old(self).gens_spec(),
            final(self).trace_spec() == old(self).trace_spec(),
    {
        self.phase = Phase::Idle;
        proof {
            assert(live_after(self.trace@) =~= self.phase_live());
        }
    }

    /// A process was created for the load.  Recorded only from the
    /// `Spawning` phase — that is, only after every earlier worker was
    /// reaped — which is what makes `spawn_gated` an invariant.
    pub fn note_spawned(&mut self) -> (gen: u64)
        requires
            old(self).wf(),
            old(self).phase_spec() is Spawning,
            old(self).gens_spec() < u64::MAX,
        ensures
            final(self).wf(),
            gen == old(self).gens_spec(),
            final(self).slot_spec() is None,
            final(self).phase_spec() == (Phase::AwaitInit { gen }),
            final(self).gens_spec() == old(self).gens_spec() + 1,
            final(self).trace_spec() == old(self).trace_spec().push(WorkerOp::Spawned(gen)),
    {
        let gen = self.next_gen;
        self.next_gen = self.next_gen + 1;
        proof {
            lemma_push_effects(self.trace@, WorkerOp::Spawned(gen));
        }
        self.trace = Ghost(self.trace@.push(WorkerOp::Spawned(gen)));
        self.phase = Phase::AwaitInit { gen };
        proof {
            assert(live_after(self.trace@) =~= self.phase_live());
        }
        gen
    }

    /// The spawned worker's first line announced readiness.
    pub fn handshake_ok(&mut self)
        requires
            old(self).wf(),
            old(self).phase_spec() is AwaitInit,
        ensures
            final(self).wf(),
            final(self).slot_spec() is None,
            final(self).phase_spec() == (Phase::AwaitPong {
                gen: phase_gen(old(self).phase_spec()),
            }),
            final(self).gens_spec() == old(self).gens_spec(),
            final(self).trace_spec() == old(self).trace_spec().push(
                WorkerOp::HandshakeOk(phase_gen(old(self).phase_spec())),
            ),
    {
        let g = match self.phase {
            Phase::AwaitInit { gen } => gen,
            _ => 0,  // cannot happen: the phase is AwaitInit
        };
        proof {
            lemma_push_effects(self.trace@, WorkerOp::HandshakeOk(g));
        }
        self.trace = Ghost(self.trace@.push(WorkerOp::HandshakeOk(g)));
        self.phase = Phase::AwaitPong { gen: g };
        proof {
            assert(live_after(self.trace@) =~= self.phase_live());
            assert(self.trace@[self.trace@.len() - 1] == WorkerOp::HandshakeOk(g));
        }
    }

    /// The spawned worker's first line did not announce readiness, or
    /// never came: the process must be torn down before the load fails.
    pub fn handshake_failed(&mut self)
        requires
            old(self).wf(),
            old(self).phase_spec() is AwaitInit,
        ensures
            final(self).wf(),
            final(self).slot_spec() is None,
            final(self).phase_spec() == (Phase::Failing {
                gen: phase_gen(old(self).phase_spec()),
            }),
            final(self).gens_spec() == old(self).gens_spec(),
            final(self).trace_spec() == old(self).trace_spec(),
    {
        let g = match self.phase {
            Phase::AwaitInit { gen } => gen,
            _ => 0,  // cannot happen: the phase is AwaitInit
        };
        self.phase = Phase::Failing { gen: g };
        proof {
            assert(live_after(self.trace@) =~= self.phase_live());
        }
    }

    /// The readiness probe confirmed the handshake: only now does the
    /// worker enter the slot, so an occupied slot always means both the
    /// handshake and the probe succeeded.
    pub fn probe_ok(&mut self)
        requires
            old(self).wf(),
            old(self).phase_spec() is AwaitPong,
        ensures
            final(self).wf(),
            final(self).slot_spec() == Some(phase_gen(old(self).phase_spec())),
            final(self).phase_spec() == Phase::Idle,
            final(self).gens_spec() == old(self).gens_spec(),
            final(self).trace_spec() == old(self).trace_spec().push(
                WorkerOp::ProbeOk(phase_gen(old(self).phase_spec())),
            ).push(WorkerOp::Stored(phase_gen(old(self).phase_spec()))),
    {
        let g = match self.phase {
            Phase::AwaitPong { gen } => gen,
            _ => 0,  // cannot happen: the phase is AwaitPong
        };
        proof {
            lemma_push_effects(self.trace@, WorkerOp::ProbeOk(g));
            lemma_push_effects(self.trace@.push(WorkerOp::ProbeOk(g)), WorkerOp::Stored(g));
        }
        self.trace = Ghost(self.trace@.push(WorkerOp::ProbeOk(g)).push(WorkerOp::Stored(g)));
        self.phase = Phase::Idle;
        self.slot = Some(g);
        proof {
            assert(live_after(self.trace@) =~= self.phase_live());
            let t0 = old(self).trace@;
            let t2 = self.trace@;
            assert(handshook(t0, g));
            let i = choose|i: int| 0 <= i < t0.len() && t0[i] == WorkerOp::HandshakeOk(g);
            assert(t2[i] == WorkerOp::HandshakeOk(g));
            assert(handshook(t2, g));
            assert(t2[t0.len() as int] == WorkerOp::ProbeOk(g));
            assert(probed(t2, g));
        }
    }

    /// The readiness probe failed: the worker never enters the slot and
    /// must be torn down before the load fails.
    pub fn probe_failed(&mut self)
        requires
            old(self).wf(),
            old(self).phase_spec() is AwaitPong,
        ensures
            final(self).wf(),
            final(self).slot_spec() is None,
            final(self).phase_spec() == (Phase::Failing {
                gen: phase_gen(old(self).phase_spec()),
            }),
            final(self).gens_spec() == old(self).gens_spec(),
            final(self).trace_spec() == old(self).trace_spec(),
    {
        let g = match self.phase {
            Phase::AwaitPong { gen } => gen,
            _ => 0,  // cannot happen: the phase is AwaitPong
        };
        self.phase = Phase::Failing { gen: g };
        proof {
            assert(live_after(self.trace@) =~= self.phase_live());
        }
    }

    /// The teardown of a worker whose load failed has completed.  The
    /// slot is empty; the failed process is never left dangling.
    pub fn failure_teardown_done(&mut self)
        requires
            old(self).wf(),
            old(self).phase_spec() is Failing,
        ensures
            final(self).wf(),
            final(self).slot_spec() is None,
            final(self).phase_spec() == Phase::Idle,
            final(self).gens_spec() == old(self).gens_spec(),
            final(self).trace_spec() == old(self).trace_spec().push(
                WorkerOp::Reaped(phase_gen(old(self).phase_spec())),
            ),
    {
        let g = match self.phase {
            Phase::Failing { gen } => gen,
            _ => 0,  // cannot happen: the phase is Failing
        };
        proof {
            lemma_push_effects(self.trace@, WorkerOp::Reaped(g));
        }
        self.trace = Ghost(self.trace@.push(WorkerOp::Reaped(g)));
        self.phase = Phase::Idle;
        proof {
            assert(live_after(self.trace@) =~= self.phase_live());
        }
    }

    /// Begins an explicit cleanup.  On an empty slot it is a complete
    /// no-op — the supervisor is returned unchanged and nothing is
    /// signalled — which is the idempotence of teardown at the slot
    /// level.
    pub fn cleanup_begin(&mut self) -> (victim: Option<u64>)
        requires
            old(self).wf(),
            old(self).phase_spec() is Idle,
        ensures
            final(self).wf(),
            victim == old(self).slot_spec(),
            final(self).slot_spec() is None,
            final(self).gens_spec() == old(self).gens_spec(),
            final(self).trace_spec() == old(self).trace_spec(),
            (match victim {
                Some(g) => final(self).phase_spec() == (Phase::Closing { gen: g }),
                None => *final(self) == *old(self),
            }),
    {
        let victim = self.slot;
        match victim {
            Some(g) => {
                self.slot = None;
                self.phase = Phase::Closing { gen: g };
            },
            None => {},
        }
        proof {
            assert(live_after(self.trace@) =~= self.phase_live());
        }
        victim
    }

    /// The teardown of an explicitly cleaned-up worker has completed.
    pub fn cleanup_done(&mut self)
        requires
            old(self).wf(),
            old(self).phase_spec() is Closing,
        ensures
            final(self).wf(),
            final(self).slot_spec() is None,
            final(self).phase_spec() == Phase::Idle,
            final(self).gens_spec() == old(self).gens_spec(),
            final(self).trace_spec() == old(self).trace_spec().push(
                WorkerOp::Reaped(phase_gen(old(self).phase_spec())),
            ),
    {
        let g = match self.phase {
            Phase::Closing { gen } => gen,
            _ => 0,  // cannot happen: the phase is Closing
        };
        proof {
            lemma_push_effects(self.trace@, WorkerOp::Reaped(g));
        }
        self.trace = Ghost(self.trace@.push(WorkerOp::Reaped(g)));
        self.phase = Phase::Idle;
        proof {
            assert(live_after(self.trace@) =~= self.phase_live());
        }
    }
}

/// How one appended op changes the live set, and that it preserves the
/// historical invariants when its side conditions hold.
proof fn lemma_push_effects(t: Seq<WorkerOp>, op: WorkerOp)
    ensures
        live_after(t.push(op)) == (match op {
            WorkerOp::Spawned(g) => live_after(t).insert(g),
            WorkerOp::Reaped(g) => live_after(t).remove(g),
            _ => live_after(t),
        }),
        prefix_lone(t) && lone(live_after(t.push(op))) ==> prefix_lone(t.push(op)),
        spawn_gated(t) && (op is Spawned ==> live_after(t).is_empty()) ==> spawn_gated(
            t.push(op),
        ),
        forall|b: u64| gens_below(t, b) && op_gen(op) < b ==> gens_below(#[trigger] t.push(op), b),
        spawn_fresh(t) && (op is Spawned ==> forall|i: int|
            0 <= i < t.len() ==> op_gen(#[trigger] t[i]) < op_gen(op)) ==> spawn_fresh(t.push(op)),
{
    let t2 = t.push(op);
    assert(t2.drop_last() =~= t);
    assert(t2.last() == op);
    if prefix_lone(t) && lone(live_after(t2)) {
        assert forall|i: int| 0 <= i <= t2.len() implies lone(
            live_after(#[trigger] t2.take(i)),
        ) by {
            if i <= t.len() {
                assert(t2.take(i) =~= t.take(i));
            } else {
                assert(t2.take(i) =~= t2);
            }
        }
    }
    if spawn_gated(t) && (op is Spawned ==> live_after(t).is_empty()) {
        assert forall|i: int|
            0 <= i < t2.len() && (#[trigger] t2[i]) is Spawned implies live_after(
            t2.take(i),
        ).is_empty() by {
            if i < t.len() {
                assert(t2[i] == t[i]);
                assert(t2.take(i) =~= t.take(i));
            } else {
                assert(t2[i] == op);
                assert(t2.take(i) =~= t);
            }
        }
    }
    assert forall|b: u64| gens_below(t, b) && op_gen(op) < b implies gens_below(
        #[trigger] t.push(op),
        b,
    ) by {
        assert forall|i: int| 0 <= i < t2.len() implies op_gen(#[trigger] t2[i]) < b by {
            if i < t.len() {
                assert(t2[i] == t[i]);
            } else {
                assert(t2[i] == op);
            }
        }
    }
    if spawn_fresh(t) && (op is Spawned ==> forall|i: int|
        0 <= i < t.len() ==> op_gen(#[trigger] t[i]) < op_gen(op)) {
        assert forall|i: int, j: int|
            0 <= i < j < t2.len() && (#[trigger] t2[j]) is Spawned implies op_gen(
            #[trigger] t2[i],
        ) < op_gen(t2[j]) by {
            assert(t2[i] == t[i]);
            if j < t.len() {
                assert(t2[j] == t[j]);
            } else {
                assert(t2[j] == op);
            }
        }
    }
}

/// A worker live at point `a` stays live while no `Reaped` op for it
/// appears.
proof fn lemma_live_persists(t: Seq<WorkerOp>, g: u64, a: int, b: int)
    requires
        0 <= a <= b <= t.len(),
        live_after(t.take(a)).contains(g),
        forall|k: int| a <= k < b ==> t[k] != WorkerOp::Reaped(g),
    ensures
        live_after(t.take(b)).contains(g),
    decreases b - a,
{
    if b > a {
        lemma_live_persists(t, g, a, b - 1);
        assert(t.take(b).drop_last() =~= t.take(b - 1));
        assert(t.take(b).last() == t[b - 1]);
    }
}

/// At-most-one-worker invariant: at no point of a well-formed
/// supervisor's recorded lifecycle were two workers live at once.
pub proof fn lemma_at_most_one_live(s: &Supervisor, i: int)
    requires
        s.wf(),
        0 <= i <= s.trace_spec().len(),
    ensures
        lone(live_after(s.trace_spec().take(i))),
{
}

/// Replacement ordering, pointwise: every recorded spawn happened while
/// no worker at all was live.
pub proof fn lemma_spawn_requires_no_live(s: &Supervisor, i: int)
    requires
        s.wf(),
        0 <= i < s.trace_spec().len(),
        s.trace_spec()[i] is Spawned,
    ensures
        live_after(s.trace_spec().take(i)).is_empty(),
{
}

/// Replacement ordering, between two workers: when worker `g` was
/// spawned and another spawn follows, `g` was reaped in between — the
/// old worker's teardown fully completed before the new spawn.
pub proof fn lemma_teardown_between_spawns(s: &Supervisor, i: int, j: int, g: u64)
    requires
        s.wf(),
        0 <= i < j < s.trace_spec().len(),
        s.trace_spec()[i] == WorkerOp::Spawned(g),
        s.trace_spec()[j] is Spawned,
    ensures
        exists|k: int| i < k < j && s.trace_spec()[k] == WorkerOp::Reaped(g),
{
    let t = s.trace_spec();
    if !(exists|k: int| i < k < j && t[k] == WorkerOp::Reaped(g)) {
        assert(t.take(i + 1).drop_last() =~= t.take(i));
        assert(t.take(i + 1).last() == t[i]);
        assert(live_after(t.take(i + 1)).contains(g));
        assert forall|k: int| i + 1 <= k < j implies t[k] != WorkerOp::Reaped(g) by {
            if t[k] == WorkerOp::Reaped(g) {
                assert(i < k < j && t[k] == WorkerOp::Reaped(g));
            }
        }
        lemma_live_persists(t, g, i + 1, j);
        assert(live_after(t.take(j)).is_empty());
        assert(false);
    }
}

/// A worker instance is spawned at most once: a later spawn always
/// carries a strictly greater generation, so generation numbers are
/// never reused and teardown can never confuse two instances.
pub proof fn lemma_spawn_generations_increase(s: &Supervisor, i: int, j: int)
    requires
        s.wf(),
        0 <= i < j < s.trace_spec().len(),
        s.trace_spec()[i] is Spawned,
        s.trace_spec()[j] is Spawned,
    ensures
        op_gen(s.trace_spec()[i]) < op_gen(s.trace_spec()[j]),
{
}

/// Handshake gate: the slot holds a worker only after both its
/// handshake and its readiness probe were recorded as successful.
pub proof fn lemma_slot_implies_handshake_and_probe(s: &Supervisor, g: u64)
    requires
        s.wf(),
        s.slot_spec() == Some(g),
    ensures
        handshook(s.trace_spec(), g),
        probed(s.trace_spec(), g),
{
}

/// What the application must do to tear a worker down, decided from the
/// exit-status probe.
pub enum TeardownAction {
    /// The process has already exited: nothing is signalled; the
    /// teardown is a no-op wait.
    AlreadyExited,
    /// The process is (or may be) still running: signal termination,
    /// then block until it actually exits.
    KillThenWait,
}

/// Decides a worker's teardown from its exit-status probe.  A process
/// whose exit is already recorded is never signalled again — tearing
/// down an already-exited worker is a no-op — while a running process,
/// or one whose probe failed, is signalled and then awaited.  Teardown
/// never fails the caller's operation: errors along it are logged by
/// the application, not propagated.
pub fn plan_teardown(probe: &ProbeResult) -> (r: TeardownAction)
    ensures
        (match probe {
            ProbeResult::Exited(_) => r is AlreadyExited,
            ProbeResult::Running => r is KillThenWait,
            ProbeResult::ProbeFailed(_) => r is KillThenWait,
        }),
{
    match probe {
        ProbeResult::Exited(_) => TeardownAction::AlreadyExited,
        ProbeResult::Running => TeardownAction::KillThenWait,
        ProbeResult::ProbeFailed(_) => TeardownAction::KillThenWait,
    }
}

} // verus!
