use vstd::prelude::*;

verus! {

/// The six shapes of secondary work that can be attached to an engine.
#[derive(Clone, Copy, Debug, PartialEq, Eq, Structural)]
pub enum JobKind {
    /// A task polled with access to the behavior and the engine; its value is forwarded.
    Nested,
    /// A fire-and-forget task polled with access to the behavior and the engine.
    Spawned,
    /// An ordinary single-value task.
    Task,
    /// An ordinary sequence of values.
    Sequence,
    /// A task that resolves to a sequence.
    Deferred,
    /// A bridge to an outbound consumer.
    Sink,
}

/// What one poll of the primary sequence or of a job reported.
#[derive(Clone, Copy, Debug, PartialEq, Eq, Structural)]
pub enum Outcome {
    /// Not ready yet.
    Pending,
    /// Produced a value (for a deferred sequence: resolved to a sequence;
    /// for a sink: produced the engine's terminal result).
    Value,
    /// Reported exhaustion or completion without a value.
    End,
    /// Reported an error.
    Error,
}

/// What a behavior callback (`call` or `finished`) answered.
#[derive(Clone, Copy, Debug, PartialEq, Eq)]
pub enum Reply<T, E> {
    /// Not done yet: the engine goes on.
    NotYet,
    /// A definitive success.
    Ready(T),
    /// A definitive failure.
    Failed(E),
}

/// What the behavior is to be told after a poll.
#[derive(Clone, Copy, Debug, PartialEq, Eq, Structural)]
pub enum Forward {
    /// Nothing reaches the behavior.
    Nothing,
    /// The produced value goes to `call` as `Ok`.
    Item,
    /// The error goes to `call` as `Err`.
    Error,
    /// The primary sequence is exhausted: `finished` is called.
    Finished,
}

/// What becomes of a job once its poll, and the callback it led to, are over.
#[derive(Clone, Copy, Debug, PartialEq, Eq, Structural)]
pub enum Removal {
    /// The job stays registered and the sweep moves past it.
    Keep,
    /// The job leaves the collection by swap-with-last compaction.
    Remove,
    /// The job is replaced in place by the sequence it resolved to.
    Upgrade,
}

/// The decision taken on one poll of one job.
#[derive(Clone, Copy, Debug, PartialEq, Eq, Structural)]
pub struct Plan {
    pub forward: Forward,
    pub removal: Removal,
    /// The job's own result ends the engine, bypassing the behavior.
    pub terminal: bool,
    /// The poll counts as progress for the current sweep.
    pub progress: bool,
}

pub open spec fn forward_of(kind: JobKind, outcome: Outcome) -> Forward {
    match outcome {
        Outcome::Value => match kind {
            JobKind::Nested | JobKind::Task | JobKind::Sequence => Forward::Item,
            _ => Forward::Nothing,
        },
        Outcome::Error => match kind {
            JobKind::Spawned | JobKind::Sink => Forward::Nothing,
            _ => Forward::Error,
        },
        _ => Forward::Nothing,
    }
}

pub open spec fn removal_of(kind: JobKind, outcome: Outcome) -> Removal {
    match outcome {
        Outcome::Pending => Removal::Keep,
        Outcome::Value => match kind {
            JobKind::Sequence | JobKind::Sink => Removal::Keep,
            JobKind::Deferred => Removal::Upgrade,
            _ => Removal::Remove,
        },
        Outcome::End => Removal::Remove,
        Outcome::Error => if kind == JobKind::Sink {
            Removal::Keep
        } else {
            Removal::Remove
        },
    }
}

/// Only a sink's own value or error ends the engine directly.
pub open spec fn terminal_of(kind: JobKind, outcome: Outcome) -> bool {
    kind == JobKind::Sink && (outcome == Outcome::Value || outcome == Outcome::Error)
}

/// A job makes progress when it produces a value or leaves its slot.
pub open spec fn progress_of(kind: JobKind, outcome: Outcome) -> bool {
    outcome == Outcome::Value || removal_of(kind, outcome) != Removal::Keep
}

pub open spec fn plan_of(kind: JobKind, outcome: Outcome) -> Plan {
    Plan {
        forward: forward_of(kind, outcome),
        removal: removal_of(kind, outcome),
        terminal: terminal_of(kind, outcome),
        progress: progress_of(kind, outcome),
    }
}

/// What the behavior is told after one poll of the primary sequence.
pub open spec fn primary_forward_of(outcome: Outcome) -> Forward {
    match outcome {
        Outcome::Pending => Forward::Nothing,
        Outcome::Value => Forward::Item,
        Outcome::End => Forward::Finished,
        Outcome::Error => Forward::Error,
    }
}

/// Decides what follows one poll of a job of the given kind.
pub fn plan_job(kind: JobKind, outcome: Outcome) -> (r: Plan)
    ensures
        r == plan_of(kind, outcome),
{
    let forward = match outcome {
        Outcome::Value => match kind {
            JobKind::Nested | JobKind::Task | JobKind::Sequence => Forward::Item,
            _ => Forward::Nothing,
        },
        Outcome::Error => match kind {
            JobKind::Spawned | JobKind::Sink => Forward::Nothing,
            _ => Forward::Error,
        },
        _ => Forward::Nothing,
    };
    let removal = match outcome {
        Outcome::Pending => Removal::Keep,
        Outcome::Value => match kind {
            JobKind::Sequence | JobKind::Sink => Removal::Keep,
            JobKind::Deferred => Removal::Upgrade,
            _ => Removal::Remove,
        },
        Outcome::End => Removal::Remove,
        Outcome::Error => match kind {
            JobKind::Sink => Removal::Keep,
            _ => Removal::Remove,
        },
    };
    let terminal = match kind {
        JobKind::Sink => match outcome {
            Outcome::Value | Outcome::Error => true,
            _ => false,
        },
        _ => false,
    };
    let progress = match outcome {
        Outcome::Value => true,
        _ => match removal {
            Removal::Keep => false,
            _ => true,
        },
    };
    Plan { forward, removal, terminal, progress }
}

/// Decides what the behavior is told after one poll of the primary sequence.
pub fn plan_primary(outcome: Outcome) -> (r: Forward)
    ensures
        r == primary_forward_of(outcome),
{
    match outcome {
        Outcome::Pending => Forward::Nothing,
        Outcome::Value => Forward::Item,
        Outcome::End => Forward::Finished,
        Outcome::Error => Forward::Error,
    }
}

} // verus!
