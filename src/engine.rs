use vstd::prelude::*;

use crate::job::{primary_forward_of, Forward, JobKind, Outcome, Plan, Removal, Reply};

verus! {

/// One registered job: its kind and its work. The work is absent while it is
/// checked out for a poll.
pub struct Job<J> {
    pub kind: JobKind,
    pub work: Option<J>,
}

/// The scheduling state of one engine: the job collection and the position of
/// the current sweep over it.
///
/// At most one job is checked out at a time; while it is, the behavior may
/// register new jobs, which are appended and never disturb the checked-out slot.
pub struct Engine<J> {
    jobs: Vec<Job<J>>,
    cursor: usize,
    holding: bool,
    started: bool,
    progress: bool,
    ended: bool,
    done: bool,
}

impl<J> Engine<J> {
    /// The job collection, in its current order.
    pub closed spec fn jobs(&self) -> Seq<Job<J>> {
        self.jobs@
    }

    /// The index of the job that the sweep polls next (or holds checked out).
    pub closed spec fn cursor(&self) -> int {
        self.cursor as int
    }

    /// A job is checked out for a poll.
    pub closed spec fn holding(&self) -> bool {
        self.holding
    }

    /// `start` has been called.
    pub closed spec fn started(&self) -> bool {
        self.started
    }

    /// Something was produced or removed in the current sweep.
    pub closed spec fn progress(&self) -> bool {
        self.progress
    }

    /// The primary sequence has reported its end and `finished` was owed.
    pub closed spec fn primary_ended(&self) -> bool {
        self.ended
    }

    /// The engine has yielded its definitive result.
    pub closed spec fn done(&self) -> bool {
        self.done
    }

    /// The sweep's position lies within the collection, the checked-out slot
    /// (if any) is the one at that position, and every other slot holds work.
    pub closed spec fn wf(&self) -> bool {
        &&& self.cursor <= self.jobs@.len()
        &&& self.holding ==> self.cursor < self.jobs@.len() && self.jobs@[self.cursor as int].work is None
        &&& forall|i: int|
            0 <= i < self.jobs@.len() && !(self.holding && i == self.cursor) ==> (#[trigger] self.jobs@[i]).work is Some
    }

    /// Where the sweep's position may stand in a well-formed engine.
    pub proof fn lemma_position(&self)
        requires
            self.wf(),
        ensures
            0 <= self.cursor() <= self.jobs().len(),
            self.holding() ==> self.cursor() < self.jobs().len(),
    {
    }

    /// The jobs that the current sweep has yet to poll.
    pub open spec fn unvisited(&self) -> Seq<Job<J>> {
        let from = if self.holding() { self.cursor() + 1 } else { self.cursor() };
        self.jobs().subrange(from, self.jobs().len() as int)
    }

    /// What putting back the checked-out job does, as `settle` performs it.
    pub open spec fn settles_into(&self, after: &Self, plan: Plan, work: J) -> bool {
        let c = self.cursor();
        let js = self.jobs();
        &&& after.started() == self.started()
        &&& after.primary_ended() == self.primary_ended()
        &&& after.done() == self.done()
        &&& !after.holding()
        &&& !self.holding() ==> {
            &&& after.jobs() == js
            &&& after.cursor() == c
            &&& after.progress() == self.progress()
        }
        &&& self.holding() ==> {
            &&& after.progress() == (self.progress() || plan.progress)
            &&& plan.removal == Removal::Keep ==> after.jobs() == js.update(
                c,
                Job { kind: js[c].kind, work: Some(work) },
            ) && after.cursor() == c + 1
            &&& plan.removal == Removal::Remove ==> after.jobs() == js.update(c, js.last()).drop_last()
                && after.cursor() == c
            &&& plan.removal == Removal::Upgrade ==> after.jobs() == js.update(
                c,
                Job { kind: JobKind::Sequence, work: Some(work) },
            ) && after.cursor() == c
        }
    }

    /// The sweep has a job to hand out: the engine is running, no job is
    /// checked out and the sweep has not passed the last job.
    pub open spec fn hands_out(&self) -> bool {
        !self.done() && !self.holding() && self.cursor() < self.jobs().len()
    }

    /// What checking out the job at the sweep's position does, as `next_job`
    /// performs it: its work leaves the slot, and nothing else changes.
    pub open spec fn checks_out_into(&self, after: &Self) -> bool {
        let c = self.cursor();
        &&& after.cursor() == c
        &&& after.started() == self.started()
        &&& after.progress() == self.progress()
        &&& after.primary_ended() == self.primary_ended()
        &&& after.done() == self.done()
        &&& self.hands_out() ==> {
            &&& after.jobs() == self.jobs().update(c, Job { kind: self.jobs()[c].kind, work: None })
            &&& after.holding()
        }
        &&& !self.hands_out() ==> {
            &&& after.jobs() == self.jobs()
            &&& after.holding() == self.holding()
        }
    }

    /// What registering a job does, as `register` performs it.
    pub open spec fn registers_into(&self, after: &Self, kind: JobKind, work: J) -> bool {
        &&& after.jobs() == self.jobs().push(Job { kind, work: Some(work) })
        &&& after.cursor() == self.cursor()
        &&& after.holding() == self.holding()
        &&& after.started() == self.started()
        &&& after.progress() == self.progress()
        &&& after.primary_ended() == self.primary_ended()
        &&& after.done() == self.done()
    }

    /// The primary sequence is still to be polled: it has not ended and the
    /// engine is not done.
    pub open spec fn awaits_primary(&self) -> bool {
        !self.primary_ended() && !self.done()
    }

    /// What the behavior is told after one poll of the primary sequence.
    pub open spec fn primary_result(&self, outcome: Outcome) -> Forward {
        if self.awaits_primary() {
            primary_forward_of(outcome)
        } else {
            Forward::Nothing
        }
    }

    /// What recording one poll of the primary sequence does, as `primary`
    /// performs it: anything but "not ready" is progress, and an end is
    /// remembered so that `finished` is owed once only.
    pub open spec fn feeds_into(&self, after: &Self, outcome: Outcome) -> bool {
        &&& after.jobs() == self.jobs()
        &&& after.cursor() == self.cursor()
        &&& after.holding() == self.holding()
        &&& after.started() == self.started()
        &&& after.done() == self.done()
        &&& after.primary_ended() == (self.primary_ended() || (self.awaits_primary() && outcome
            == Outcome::End))
        &&& after.progress() == (self.progress() || (self.awaits_primary() && outcome
            != Outcome::Pending))
    }

    /// Another sweep follows the current one: it made progress, no job is
    /// checked out and the engine is not done.
    pub open spec fn sweeps_again(&self) -> bool {
        self.progress() && !self.holding() && !self.done()
    }

    /// An engine with no jobs, not started.
    pub fn new() -> (r: Self)
        ensures
            r.wf(),
            r.jobs() == Seq::<Job<J>>::empty(),
            r.cursor() == 0,
            !r.holding(),
            !r.started(),
            !r.progress(),
            !r.primary_ended(),
            !r.done(),
    {
        Engine {
            jobs: Vec::new(),
            cursor: 0,
            holding: false,
            started: false,
            progress: false,
            ended: false,
            done: false,
        }
    }

    /// Appends a job to the collection. Callable at any moment, also while a
    /// job is checked out.
    pub fn register(&mut self, kind: JobKind, work: J)
        requires
            old(self).wf(),
        ensures
            final(self).wf(),
            old(self).registers_into(&*final(self), kind, work),
    {
        self.jobs.push(Job { kind, work: Some(work) });
    }

    /// The number of registered jobs.
    pub fn len(&self) -> (r: usize)
        ensures
            r == self.jobs().len(),
    {
        self.jobs.len()
    }

    /// The engine has yielded its definitive result.
    pub fn is_done(&self) -> (r: bool)
        ensures
            r == self.done(),
    {
        self.done
    }

    /// The primary sequence is to be polled in this sweep.
    pub fn polls_primary(&self) -> (r: bool)
        ensures
            r == self.awaits_primary(),
    {
        !self.ended && !self.done
    }

    /// Opens a poll of the engine: reports whether `start` is owed (on the very
    /// first poll only) and, unless a job is still checked out, begins a sweep.
    pub fn begin(&mut self) -> (start: bool)
        requires
            old(self).wf(),
        ensures
            final(self).wf(),
            start == !old(self).started(),
            final(self).started(),
            final(self).jobs() == old(self).jobs(),
            final(self).holding() == old(self).holding(),
            final(self).primary_ended() == old(self).primary_ended(),
            final(self).done() == old(self).done(),
            old(self).holding() ==> final(self).cursor() == old(self).cursor() && final(self).progress()
                == old(self).progress(),
            !old(self).holding() ==> final(self).cursor() == 0 && !final(self).progress(),
    {
        let start = !self.started;
        self.started = true;
        if !self.holding {
            self.cursor = 0;
            self.progress = false;
        }
        start
    }

    /// Records one poll of the primary sequence and says what the behavior is
    /// told. Once the sequence has ended, or the engine is done, nothing
    /// reaches the behavior any more.
    pub fn primary(&mut self, outcome: Outcome) -> (r: Forward)
        requires
            old(self).wf(),
        ensures
            final(self).wf(),
            r == old(self).primary_result(outcome),
            old(self).primary_ended() ==> r == Forward::Nothing,
            old(self).feeds_into(&*final(self), outcome),
    {
        if self.done || self.ended {
            return Forward::Nothing;
        }
        match outcome {
            Outcome::Pending => Forward::Nothing,
            Outcome::Value => {
                self.progress = true;
                Forward::Item
            },
            Outcome::End => {
                self.progress = true;
                self.ended = true;
                Forward::Finished
            },
            Outcome::Error => {
                self.progress = true;
                Forward::Error
            },
        }
    }

    /// Checks out the job at the sweep's position for a poll, handing back its
    /// index, kind and work. Gives nothing once the engine is done, while a
    /// job is already checked out, or when the sweep has passed the last job.
    pub fn next_job(&mut self) -> (r: Option<(usize, JobKind, J)>)
        requires
            old(self).wf(),
        ensures
            final(self).wf(),
            old(self).checks_out_into(&*final(self)),
            old(self).hands_out() ==> {
                let job = old(self).jobs()[old(self).cursor()];
                r == Some((old(self).cursor() as usize, job.kind, job.work->0))
            },
            !old(self).hands_out() ==> r is None,
    {
        if self.done || self.holding || self.cursor >= self.jobs.len() {
            return None;
        }
        let c = self.cursor;
        let kind = self.jobs[c].kind;
        let mut slot: Job<J> = Job { kind, work: None };
        self.jobs.set_and_swap(c, &mut slot);
        self.holding = true;
        match slot.work {
            Some(w) => Some((c, kind, w)),
            None => None,
        }
    }

    /// Puts the checked-out job back as `plan` decides, with `work` as its
    /// work: kept (the sweep moves past it), removed by swap-with-last
    /// compaction (the sweep stays, so the job moved into the slot is polled
    /// next), or replaced in place by a sequence job (polled next). Does
    /// nothing when no job is checked out.
    pub fn settle(&mut self, plan: Plan, work: J)
        requires
            old(self).wf(),
        ensures
            final(self).wf(),
            old(self).settles_into(&*final(self), plan, work),
    {
        if !self.holding {
            return;
        }
        let c = self.cursor;
        if plan.progress {
            self.progress = true;
        }
        self.holding = false;
        match plan.removal {
            Removal::Keep => {
                let kind = self.jobs[c].kind;
                let len = self.jobs.len();
                proof {
                    assert(c < len);
                }
                self.jobs.set(c, Job { kind, work: Some(work) });
                self.cursor = c + 1;
            },
            Removal::Remove => {
                let _gone = self.jobs.swap_remove(c);
            },
            Removal::Upgrade => {
                self.jobs.set(c, Job { kind: JobKind::Sequence, work: Some(work) });
            },
        }
    }

    /// Closes a sweep once it has no job left to hand out. Another sweep
    /// follows (and is begun here) only when this one made progress, no job is
    /// checked out and the engine is not done; otherwise the engine suspends
    /// and the sweep state is left as is.
    pub fn end_sweep(&mut self) -> (again: bool)
        requires
            old(self).wf(),
            !old(self).hands_out(),
        ensures
            final(self).wf(),
            again == old(self).sweeps_again(),
            final(self).jobs() == old(self).jobs(),
            final(self).holding() == old(self).holding(),
            final(self).started() == old(self).started(),
            final(self).primary_ended() == old(self).primary_ended(),
            final(self).done() == old(self).done(),
            again ==> final(self).cursor() == 0 && !final(self).progress(),
            !again ==> final(self).cursor() == old(self).cursor() && final(self).progress()
                == old(self).progress(),
    {
        let again = self.progress && !self.holding && !self.done;
        if again {
            self.cursor = 0;
            self.progress = false;
        }
        again
    }

    /// Takes in the behavior's answer to a callback. A definitive answer ends
    /// the engine with exactly that result; any other leaves it as it was.
    pub fn answer<T, E>(&mut self, reply: Reply<T, E>) -> (r: Option<Result<T, E>>)
        requires
            old(self).wf(),
        ensures
            final(self).wf(),
            final(self).jobs() == old(self).jobs(),
            final(self).cursor() == old(self).cursor(),
            final(self).holding() == old(self).holding(),
            final(self).started() == old(self).started(),
            final(self).progress() == old(self).progress(),
            final(self).primary_ended() == old(self).primary_ended(),
            match reply {
                Reply::NotYet => r is None && final(self).done() == old(self).done(),
                Reply::Ready(v) => r == Some(Ok::<T, E>(v)) && final(self).done(),
                Reply::Failed(e) => r == Some(Err::<T, E>(e)) && final(self).done(),
            },
    {
        match reply {
            Reply::NotYet => None,
            Reply::Ready(v) => {
                self.done = true;
                Some(Ok(v))
            },
            Reply::Failed(e) => {
                self.done = true;
                Some(Err(e))
            },
        }
    }

    /// Marks the engine as having yielded its definitive result: from here on
    /// no job is handed out and nothing from the primary sequence is forwarded.
    pub fn conclude(&mut self)
        requires
            old(self).wf(),
        ensures
            final(self).wf(),
            final(self).done(),
            final(self).jobs() == old(self).jobs(),
            final(self).cursor() == old(self).cursor(),
            final(self).holding() == old(self).holding(),
            final(self).started() == old(self).started(),
            final(self).progress() == old(self).progress(),
            final(self).primary_ended() == old(self).primary_ended(),
    {
        self.done = true;
    }
}

} // verus!
