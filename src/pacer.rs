//! The pacer decides how many requests are due at a given instant of a run,
//! and hands out request indices in increasing order as they fall due.
use vstd::prelude::*;

verus! {

/// Nanoseconds in one second.
pub const NANOS_PER_SEC: u64 = 1_000_000_000;

/// Number of requests due `elapsed_nanos` after the start of a run paced at
/// `rate` requests per second, before the run's end: `floor(rate * t)`.
pub open spec fn rate_target(rate: nat, elapsed_nanos: nat) -> nat {
    (elapsed_nanos * rate) / (NANOS_PER_SEC as nat)
}

/// Number of requests due at `elapsed_nanos` in a run of `duration_s` seconds:
/// once the run is over, every request of the run is due.
pub open spec fn due_by(rate: nat, duration_s: nat, elapsed_nanos: nat) -> nat {
    if elapsed_nanos >= duration_s * (NANOS_PER_SEC as nat) {
        rate * duration_s
    } else {
        rate_target(rate, elapsed_nanos)
    }
}

/// Count of requests due `elapsed_nanos` after the start of a run paced at
/// `rate` requests per second (ignoring the run's end).
pub fn admission_target(elapsed_nanos: u64, rate: u64) -> (r: u128)
    ensures
        r == rate_target(rate as nat, elapsed_nanos as nat),
{
    proof {
        lemma_product_fits(elapsed_nanos, rate);
    }
    (elapsed_nanos as u128 * rate as u128) / (NANOS_PER_SEC as u128)
}

proof fn lemma_product_fits(a: u64, b: u64)
    ensures
        (a as int) * (b as int) <= u128::MAX,
{
    assert((a as int) * (b as int) <= (u64::MAX as int) * (u64::MAX as int)) by (nonlinear_arith)
        requires
            a <= u64::MAX,
            b <= u64::MAX,
    ;
}

/// Before the run's end, the due count never exceeds the run's total.
proof fn lemma_due_by_bounded(rate: nat, duration_s: nat, t: nat)
    ensures
        due_by(rate, duration_s, t) <= rate * duration_s,
{
    let n = NANOS_PER_SEC as nat;
    if t < duration_s * n {
        assert(t * rate <= (duration_s * rate) * n) by (nonlinear_arith)
            requires
                t < duration_s * n,
        ;
        assert((t * rate) / n <= duration_s * rate) by (nonlinear_arith)
            requires
                t * rate <= (duration_s * rate) * n,
                n > 0,
        ;
        assert(duration_s * rate == rate * duration_s) by (nonlinear_arith);
    }
}

/// The due count never goes down as time goes on.
pub proof fn lemma_due_by_monotone(rate: nat, duration_s: nat, t1: nat, t2: nat)
    requires
        t1 <= t2,
    ensures
        due_by(rate, duration_s, t1) <= due_by(rate, duration_s, t2),
{
    let n = NANOS_PER_SEC as nat;
    lemma_due_by_bounded(rate, duration_s, t1);
    if t2 < duration_s * n {
        assert(t1 * rate <= t2 * rate) by (nonlinear_arith)
            requires
                t1 <= t2,
        ;
        assert((t1 * rate) / n <= (t2 * rate) / n) by (nonlinear_arith)
            requires
                t1 * rate <= t2 * rate,
                n > 0,
        ;
    }
}

/// What the pacer asks of its caller after a poll.
#[derive(Clone, Copy, Debug, PartialEq, Eq, Structural)]
pub enum Step {
    /// Hand indices `first..end` to the workers, in increasing order.
    Admit { first: u64, end: u64 },
    /// Nothing is due yet: yield before polling again.
    Idle,
    /// The run is over: hand indices `first..end` to the workers, then close
    /// their queue.
    Close { first: u64, end: u64 },
}

/// Admission state of one run.
pub struct Pacer {
    /// Requests per second.
    pub rate: u64,
    /// Length of the run in seconds.
    pub duration_s: u64,
    /// Count of indices handed out so far; they are `0..admitted`.
    pub admitted: u64,
}

/// Count of indices handed out once a poll at `elapsed_nanos` has been made
/// with `admitted` handed out before it.
pub open spec fn admitted_after_poll(
    rate: nat,
    duration_s: nat,
    admitted: nat,
    elapsed_nanos: nat,
) -> nat {
    let due = due_by(rate, duration_s, elapsed_nanos);
    if due > admitted {
        due
    } else {
        admitted
    }
}

impl Pacer {
    pub open spec fn wf(&self) -> bool {
        &&& self.rate > 0
        &&& self.rate * self.duration_s <= u64::MAX
        &&& self.admitted <= self.rate * self.duration_s
    }

    /// A pacer at the start of a run, with nothing handed out.
    pub fn new(rate: u64, duration_s: u64) -> (p: Pacer)
        requires
            rate > 0,
            rate * duration_s <= u64::MAX,
        ensures
            p.wf(),
            p.rate == rate,
            p.duration_s == duration_s,
            p.admitted == 0,
    {
        Pacer { rate, duration_s, admitted: 0 }
    }

    /// Polls the pacer `elapsed_nanos` after the start of the run. Every index
    /// due by then that was not handed out yet is handed out now; once the run
    /// is over, the rest of the run's indices are handed out and the queue is
    /// to be closed.
    pub fn tick(&mut self, elapsed_nanos: u64) -> (step: Step)
        requires
            old(self).wf(),
        ensures
            final(self).wf(),
            final(self).rate == old(self).rate,
            final(self).duration_s == old(self).duration_s,
            final(self).admitted == admitted_after_poll(
                old(self).rate as nat,
                old(self).duration_s as nat,
                old(self).admitted as nat,
                elapsed_nanos as nat,
            ),
            elapsed_nanos >= old(self).duration_s * NANOS_PER_SEC ==> step == (Step::Close {
                first: old(self).admitted,
                end: final(self).admitted,
            }),
            elapsed_nanos < old(self).duration_s * NANOS_PER_SEC ==> (if final(self).admitted
                > old(self).admitted {
                step == (Step::Admit { first: old(self).admitted, end: final(self).admitted })
            } else {
                step == Step::Idle
            }),
    {
        let ghost t = elapsed_nanos as nat;
        let ghost n = NANOS_PER_SEC as nat;
        proof {
            lemma_due_by_bounded(self.rate as nat, self.duration_s as nat, t);
            let q = (elapsed_nanos / NANOS_PER_SEC) as nat;
            let r = (elapsed_nanos % NANOS_PER_SEC) as nat;
            assert(t == q * n + r && r < n);
            assert(q >= self.duration_s <==> t >= self.duration_s * n) by (nonlinear_arith)
                requires
                    t == q * n + r,
                    r < n,
            ;
        }
        let finished = elapsed_nanos / NANOS_PER_SEC >= self.duration_s;
        let target: u64 = if finished {
            self.rate * self.duration_s
        } else {
            admission_target(elapsed_nanos, self.rate) as u64
        };
        let first = self.admitted;
        if target > self.admitted {
            self.admitted = target;
        }
        if finished {
            Step::Close { first, end: self.admitted }
        } else if self.admitted > first {
            Step::Admit { first, end: self.admitted }
        } else {
            Step::Idle
        }
    }
}

/// Count of indices handed out after polling a fresh pacer at each instant of
/// `polls` in turn.
pub open spec fn admitted_after(rate: nat, duration_s: nat, polls: Seq<u64>) -> nat
    decreases polls.len(),
{
    if polls.len() == 0 {
        0
    } else {
        admitted_after_poll(
            rate,
            duration_s,
            admitted_after(rate, duration_s, polls.drop_last()),
            polls.last() as nat,
        )
    }
}

/// The indices handed out, in order, by polling a fresh pacer at each instant
/// of `polls` in turn: each poll hands out `first..end` of its step.
pub open spec fn admitted_indices(rate: nat, duration_s: nat, polls: Seq<u64>) -> Seq<nat>
    decreases polls.len(),
{
    if polls.len() == 0 {
        seq![]
    } else {
        let before = admitted_after(rate, duration_s, polls.drop_last());
        let after = admitted_after(rate, duration_s, polls);
        admitted_indices(rate, duration_s, polls.drop_last()) + Seq::new(
            (after - before) as nat,
            |i: int| (before + i) as nat,
        )
    }
}

pub open spec fn nondecreasing(polls: Seq<u64>) -> bool {
    forall|i: int, j: int| 0 <= i <= j < polls.len() ==> polls[i] <= polls[j]
}

/// Admission is rate-continuous: however often the pacer is polled, once it
/// has been polled at instant `t` the number of indices handed out is exactly
/// the number due by `t`, which is `floor(rate * t)` up to the run's end.
pub proof fn lemma_admission_is_rate_continuous(rate: nat, duration_s: nat, polls: Seq<u64>)
    requires
        polls.len() > 0,
        nondecreasing(polls),
    ensures
        admitted_after(rate, duration_s, polls) == due_by(rate, duration_s, polls.last() as nat),
        polls.last() < duration_s * NANOS_PER_SEC ==> admitted_after(rate, duration_s, polls)
            == rate_target(rate, polls.last() as nat),
    decreases polls.len(),
{
    let prefix = polls.drop_last();
    if prefix.len() == 0 {
        assert(admitted_after(rate, duration_s, prefix) == 0);
    } else {
        assert(nondecreasing(prefix));
        lemma_admission_is_rate_continuous(rate, duration_s, prefix);
        assert(prefix.last() == polls[polls.len() - 2]);
        lemma_due_by_monotone(rate, duration_s, prefix.last() as nat, polls.last() as nat);
    }
}

/// Admission never loses or repeats a request: the indices handed out, in the
/// order handed out, are exactly `0, 1, ..., admitted - 1`, whatever the
/// instants of the polls.
pub proof fn lemma_each_index_admitted_once(rate: nat, duration_s: nat, polls: Seq<u64>)
    ensures
        admitted_indices(rate, duration_s, polls) == Seq::new(
            admitted_after(rate, duration_s, polls),
            |i: int| i as nat,
        ),
    decreases polls.len(),
{
    if polls.len() > 0 {
        lemma_each_index_admitted_once(rate, duration_s, polls.drop_last());
        assert(admitted_indices(rate, duration_s, polls) =~= Seq::new(
            admitted_after(rate, duration_s, polls),
            |i: int| i as nat,
        ));
    }
}

} // verus!
