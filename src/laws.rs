use vstd::prelude::*;

use crate::engine::{Engine, Job};
use crate::job::{
    plan_of, Forward, JobKind, Outcome, Plan, Removal,
};

verus! {

/// Whether each engine in `es` is reached from the previous one by one poll of
/// the primary sequence (with the outcome in `outs`, telling the behavior what
/// `fs` holds) followed by steps that leave the record of its end alone.
pub open spec fn primary_trace<J>(
    before: Seq<Engine<J>>,
    after: Seq<Engine<J>>,
    outs: Seq<Outcome>,
    fs: Seq<Forward>,
) -> bool {
    &&& before.len() == outs.len()
    &&& after.len() == outs.len()
    &&& fs.len() == outs.len()
    &&& forall|k: int|
        0 <= k < outs.len() ==> {
            &&& #[trigger] fs[k] == before[k].primary_result(outs[k])
            &&& before[k].feeds_into(&after[k], outs[k])
        }
    &&& forall|k: int|
        0 <= k < outs.len() - 1 ==> before[k + 1].primary_ended()
            == (#[trigger] after[k]).primary_ended()
}

proof fn lemma_ended_after<J>(
    before: Seq<Engine<J>>,
    after: Seq<Engine<J>>,
    outs: Seq<Outcome>,
    fs: Seq<Forward>,
    n: int,
    k: int,
)
    requires
        primary_trace(before, after, outs, fs),
        0 <= n < outs.len(),
        0 <= k < outs.len(),
        before[0].awaits_primary(),
        forall|i: int| 0 <= i < n ==> outs[i] == Outcome::Value,
        outs[n] == Outcome::End,
        forall|i: int| 0 <= i <= n ==> !(#[trigger] before[i]).done(),
    ensures
        before[k].primary_ended() == (k > n),
    decreases k,
{
    if k > 0 {
        lemma_ended_after(before, after, outs, fs, n, k - 1);
        assert(fs[k - 1] == before[k - 1].primary_result(outs[k - 1]));
        assert(before[k].primary_ended() == after[k - 1].primary_ended());
    }
}

/// A primary sequence that yields `n` items and then ends, polled while the
/// behavior never gives a definitive result, is forwarded as `n` calls with
/// the items, in their order, then exactly one `finished`; whatever later polls
/// report reaches the behavior no more.
pub proof fn law_primary_feeds_in_order<J>(
    before: Seq<Engine<J>>,
    after: Seq<Engine<J>>,
    outs: Seq<Outcome>,
    fs: Seq<Forward>,
    n: int,
)
    requires
        primary_trace(before, after, outs, fs),
        0 <= n < outs.len(),
        before[0].awaits_primary(),
        forall|k: int| 0 <= k < n ==> outs[k] == Outcome::Value,
        outs[n] == Outcome::End,
        forall|k: int| 0 <= k <= n ==> !(#[trigger] before[k]).done(),
    ensures
        forall|k: int| 0 <= k < n ==> fs[k] == Forward::Item,
        fs[n] == Forward::Finished,
        forall|k: int| n < k < outs.len() ==> fs[k] == Forward::Nothing,
{
    assert forall|k: int| 0 <= k < outs.len() implies fs[k] == (if k < n {
        Forward::Item
    } else if k == n {
        Forward::Finished
    } else {
        Forward::Nothing
    }) by {
        lemma_ended_after(before, after, outs, fs, n, k);
    }
}

/// Once a callback has given a definitive result the engine is done: no job
/// is handed out any more, the primary sequence is neither polled nor heard,
/// and no further sweep begins.
pub proof fn law_definitive_result_is_final<J>(e: Engine<J>, outcome: Outcome)
    requires
        e.done(),
    ensures
        !e.hands_out(),
        !e.awaits_primary(),
        e.primary_result(outcome) == Forward::Nothing,
        !e.sweeps_again(),
{
}

/// A spawned job never reaches the behavior nor ends the engine, whatever its
/// poll reports; a task, nested task, sequence or deferred sequence that fails
/// is forwarded to `call` as an error once, and is removed.
pub proof fn law_spawned_errors_are_silent(kind: JobKind, outcome: Outcome)
    ensures
        kind == JobKind::Spawned ==> plan_of(kind, outcome).forward == Forward::Nothing
            && !plan_of(kind, outcome).terminal,
        kind != JobKind::Spawned && kind != JobKind::Sink && outcome == Outcome::Error ==> {
            &&& plan_of(kind, outcome).forward == Forward::Error
            &&& plan_of(kind, outcome).removal == Removal::Remove
            &&& !plan_of(kind, outcome).terminal
        },
{
}

/// A job registered at any moment of a sweep, also from a callback during a
/// poll, joins the jobs that the sweep has yet to poll.
pub proof fn law_registered_job_is_polled<J>(
    before: Engine<J>,
    after: Engine<J>,
    kind: JobKind,
    work: J,
)
    requires
        before.wf(),
        before.registers_into(&after, kind, work),
    ensures
        after.unvisited() == before.unvisited().push(Job { kind, work: Some(work) }),
{
    before.lemma_position();
    assert(after.unvisited() =~= before.unvisited().push(Job { kind, work: Some(work) }));
}

/// A deferred sequence that resolves is replaced in its own slot by a plain
/// sequence job holding the resolved sequence, polled next in the same sweep
/// and from then on decided exactly as a sequence registered directly.
pub proof fn law_resolved_deferred_is_a_sequence<J>(
    before: Engine<J>,
    after: Engine<J>,
    work: J,
)
    requires
        before.wf(),
        before.holding(),
        before.jobs()[before.cursor()].kind == JobKind::Deferred,
        before.settles_into(&after, plan_of(JobKind::Deferred, Outcome::Value), work),
    ensures
        after.unvisited() == seq![Job { kind: JobKind::Sequence, work: Some(work) }]
            + before.unvisited(),
        after.jobs()[after.cursor()] == (Job { kind: JobKind::Sequence, work: Some(work) }),
        forall|o: Outcome| plan_of(after.jobs()[after.cursor()].kind, o) == plan_of(JobKind::Sequence, o),
{
    before.lemma_position();
    assert(after.unvisited() =~= seq![Job { kind: JobKind::Sequence, work: Some(work) }]
        + before.unvisited());
}

/// Each job handed out is the first that the sweep has yet to poll, and the
/// rest stay to be polled: with the compaction law below, every job pending at
/// a sweep's start is polled exactly once in that sweep.
pub proof fn law_sweep_takes_jobs_in_turn<J>(before: Engine<J>, after: Engine<J>)
    requires
        before.wf(),
        before.hands_out(),
        before.checks_out_into(&after),
    ensures
        before.unvisited().len() > 0,
        before.unvisited()[0] == before.jobs()[before.cursor()],
        after.unvisited() == before.unvisited().drop_first(),
{
    before.lemma_position();
    assert(after.unvisited() =~= before.unvisited().drop_first());
}

/// Putting a polled job back, whether kept or removed by swap-with-last
/// compaction, leaves exactly the same jobs for the sweep to poll: a removal
/// never makes the sweep skip a pending job nor poll one twice.
pub proof fn law_compaction_skips_nothing<J>(
    before: Engine<J>,
    after: Engine<J>,
    plan: Plan,
    work: J,
)
    requires
        before.wf(),
        before.holding(),
        plan.removal != Removal::Upgrade,
        before.settles_into(&after, plan, work),
    ensures
        after.unvisited().to_multiset() == before.unvisited().to_multiset(),
        plan.removal == Removal::Keep ==> after.unvisited() == before.unvisited(),
{
    before.lemma_position();
    let js = before.jobs();
    let c = before.cursor();
    let n = js.len() as int;
    if plan.removal == Removal::Keep {
        assert(after.unvisited() =~= before.unvisited());
    } else {
        if c == n - 1 {
            assert(after.unvisited() =~= before.unvisited());
        } else {
            let rest = js.subrange(c + 1, n - 1);
            assert(before.unvisited() =~= rest.push(js.last()));
            assert(after.unvisited() =~= seq![js.last()] + rest);
            assert(rest.push(js.last()) =~= rest + seq![js.last()]);
            vstd::seq_lib::lemma_multiset_commutative(seq![js.last()], rest);
            vstd::seq_lib::lemma_multiset_commutative(rest, seq![js.last()]);
            assert(seq![js.last()].to_multiset().add(rest.to_multiset()) =~= rest.to_multiset().add(
                seq![js.last()].to_multiset(),
            ));
        }
    }
}

/// One step of a sweep's pass over the jobs: checking out the next job,
/// putting the checked-out job back as a plan decides, or registering a job.
pub enum PassStep<J> {
    Take,
    Put(Plan, J),
    Add(JobKind, J),
}

/// Whether `after` follows from `before` by the step.
pub open spec fn step_holds<J>(before: Engine<J>, after: Engine<J>, step: PassStep<J>) -> bool {
    match step {
        PassStep::Take => before.checks_out_into(&after),
        PassStep::Put(plan, work) => before.settles_into(&after, plan, work),
        PassStep::Add(kind, work) => before.registers_into(&after, kind, work),
    }
}

/// The job that the step hands out for a poll, if any.
pub open spec fn taken_by<J>(before: Engine<J>, step: PassStep<J>) -> Seq<Job<J>> {
    match step {
        PassStep::Take => if before.hands_out() {
            seq![before.jobs()[before.cursor()]]
        } else {
            Seq::empty()
        },
        _ => Seq::empty(),
    }
}

/// The job that the step adds to those the pass has to poll, if any: a
/// registered job, or the sequence that a resolved deferred job became.
pub open spec fn gained_by<J>(before: Engine<J>, step: PassStep<J>) -> Seq<Job<J>> {
    match step {
        PassStep::Put(plan, work) => if before.holding() && plan.removal == Removal::Upgrade {
            seq![Job { kind: JobKind::Sequence, work: Some(work) }]
        } else {
            Seq::empty()
        },
        PassStep::Add(kind, work) => seq![Job { kind, work: Some(work) }],
        PassStep::Take => Seq::empty(),
    }
}

/// The jobs handed out by the first `i` steps, in order.
pub open spec fn taken_upto<J>(es: Seq<Engine<J>>, steps: Seq<PassStep<J>>, i: int) -> Seq<Job<J>>
    decreases i,
{
    if i <= 0 {
        Seq::empty()
    } else {
        taken_upto(es, steps, i - 1) + taken_by(es[i - 1], steps[i - 1])
    }
}

/// The jobs added by the first `i` steps, in order.
pub open spec fn gained_upto<J>(es: Seq<Engine<J>>, steps: Seq<PassStep<J>>, i: int) -> Seq<Job<J>>
    decreases i,
{
    if i <= 0 {
        Seq::empty()
    } else {
        gained_upto(es, steps, i - 1) + gained_by(es[i - 1], steps[i - 1])
    }
}

proof fn lemma_step_balance<J>(before: Engine<J>, after: Engine<J>, step: PassStep<J>)
    requires
        before.wf(),
        step_holds(before, after, step),
    ensures
        after.unvisited().to_multiset().add(taken_by(before, step).to_multiset())
            =~= before.unvisited().to_multiset().add(gained_by(before, step).to_multiset()),
{
    broadcast use vstd::multiset::group_multiset_axioms;

    before.lemma_position();
    let t = taken_by(before, step);
    let g = gained_by(before, step);
    let u0 = before.unvisited();
    let u1 = after.unvisited();
    vstd::seq_lib::lemma_multiset_commutative(u1, t);
    vstd::seq_lib::lemma_multiset_commutative(u0, g);
    match step {
        PassStep::Take => {
            if before.hands_out() {
                law_sweep_takes_jobs_in_turn(before, after);
                assert(u1 + t =~= u1.push(before.jobs()[before.cursor()]));
                assert(u0 + g =~= u0);
                assert(u0 =~= seq![before.jobs()[before.cursor()]] + u1);
                vstd::seq_lib::lemma_multiset_commutative(seq![before.jobs()[before.cursor()]], u1);
                vstd::seq_lib::lemma_multiset_commutative(u1, seq![before.jobs()[before.cursor()]]);
            } else {
                assert(u1 =~= u0);
                assert(u1 + t =~= u1);
                assert(u0 + g =~= u0);
            }
        },
        PassStep::Put(plan, work) => {
            if before.holding() {
                if plan.removal == Removal::Upgrade {
                    assert(u1 =~= g + u0);
                    assert(u1 + t =~= u1);
                    vstd::seq_lib::lemma_multiset_commutative(g, u0);
                } else {
                    law_compaction_skips_nothing(before, after, plan, work);
                    assert(u1 + t =~= u1);
                    assert(u0 + g =~= u0);
                }
            } else {
                assert(u1 =~= u0);
                assert(u1 + t =~= u1);
                assert(u0 + g =~= u0);
            }
        },
        PassStep::Add(kind, work) => {
            law_registered_job_is_polled(before, after, kind, work);
            assert(u1 + t =~= u1);
            assert(u1 =~= u0 + g);
        },
    }
}

proof fn lemma_pass_balance<J>(es: Seq<Engine<J>>, steps: Seq<PassStep<J>>, i: int)
    requires
        es.len() == steps.len() + 1,
        0 <= i <= steps.len(),
        forall|k: int| 0 <= k < es.len() ==> (#[trigger] es[k]).wf(),
        forall|k: int| 0 <= k < steps.len() ==> step_holds(es[k], es[k + 1], #[trigger] steps[k]),
    ensures
        es[i].unvisited().to_multiset().add(taken_upto(es, steps, i).to_multiset())
            =~= es[0].unvisited().to_multiset().add(gained_upto(es, steps, i).to_multiset()),
    decreases i,
{
    broadcast use vstd::multiset::group_multiset_axioms;

    if i > 0 {
        lemma_pass_balance(es, steps, i - 1);
        let step = steps[i - 1];
        lemma_step_balance(es[i - 1], es[i], step);
        vstd::seq_lib::lemma_multiset_commutative(
            taken_upto(es, steps, i - 1),
            taken_by(es[i - 1], step),
        );
        vstd::seq_lib::lemma_multiset_commutative(
            gained_upto(es, steps, i - 1),
            gained_by(es[i - 1], step),
        );
        let t0 = taken_upto(es, steps, i - 1).to_multiset();
        let g0 = gained_upto(es, steps, i - 1).to_multiset();
        let t = taken_by(es[i - 1], step).to_multiset();
        let g = gained_by(es[i - 1], step).to_multiset();
        let u0 = es[0].unvisited().to_multiset();
        let ua = es[i - 1].unvisited().to_multiset();
        let ub = es[i].unvisited().to_multiset();
        assert(taken_upto(es, steps, i) == taken_upto(es, steps, i - 1) + taken_by(es[i - 1], step));
        assert(gained_upto(es, steps, i) == gained_upto(es, steps, i - 1) + gained_by(es[i - 1], step));
        assert forall|x: Job<J>| #[trigger] ub.add(t0.add(t)).count(x) == u0.add(g0.add(g)).count(x) by {
            assert(ua.add(t0).count(x) == u0.add(g0).count(x));
            assert(ub.add(t).count(x) == ua.add(g).count(x));
        }
    }
}

/// Over a whole pass of a sweep, whatever jobs are removed or registered on
/// the way, the jobs handed out for a poll are exactly the jobs the pass had
/// yet to poll at its start together with those added during it, each once:
/// none is skipped, none is polled twice. Until the pass is over, the same
/// balance holds with the jobs still unvisited.
pub proof fn law_pass_polls_each_job_once<J>(es: Seq<Engine<J>>, steps: Seq<PassStep<J>>)
    requires
        es.len() == steps.len() + 1,
        forall|k: int| 0 <= k < es.len() ==> (#[trigger] es[k]).wf(),
        forall|k: int| 0 <= k < steps.len() ==> step_holds(es[k], es[k + 1], #[trigger] steps[k]),
    ensures
        ({
            let n = steps.len() as int;
            &&& (es.last().unvisited() + taken_upto(es, steps, n)).to_multiset()
                == (es[0].unvisited() + gained_upto(es, steps, n)).to_multiset()
            &&& !es.last().hands_out() && !es.last().holding() && !es.last().done() ==> taken_upto(
                es,
                steps,
                n,
            ).to_multiset() == (es[0].unvisited() + gained_upto(es, steps, n)).to_multiset()
        }),
{
    let n = steps.len() as int;
    let t = taken_upto(es, steps, n);
    let g = gained_upto(es, steps, n);
    lemma_pass_balance(es, steps, n);
    vstd::seq_lib::lemma_multiset_commutative(es.last().unvisited(), t);
    vstd::seq_lib::lemma_multiset_commutative(es[0].unvisited(), g);
    let last = es.last();
    assert(last.wf());
    last.lemma_position();
    if !last.hands_out() && !last.holding() && !last.done() {
        assert(last.unvisited() + t =~= t);
    }
}

} // verus!

