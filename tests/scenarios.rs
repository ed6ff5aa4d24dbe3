use svcctx::engine::Engine;
use svcctx::job::{plan_job, Forward, JobKind, Outcome, Reply};

#[test]
fn doubled_items_accumulate_until_finished() {
    let mut e: Engine<u8> = Engine::new();
    let items = [1, 2, 3];
    let mut acc: Vec<i32> = Vec::new();
    let mut invocations = 0;
    let mut pos = 0;
    let mut result = None;
    assert!(e.begin());
    loop {
        let outcome = if pos < items.len() {
            Outcome::Value
        } else if pos == items.len() {
            Outcome::End
        } else {
            Outcome::Pending
        };
        let reply = match e.primary(outcome) {
            Forward::Item => {
                invocations += 1;
                acc.push(items[pos] * 2);
                Reply::NotYet
            }
            Forward::Finished => {
                invocations += 1;
                Reply::Ready(acc.clone())
            }
            _ => Reply::NotYet,
        };
        pos += 1;
        if let Some(r) = e.answer::<Vec<i32>, ()>(reply) {
            result = Some(r);
            break;
        }
        assert!(e.next_job().is_none());
        if !e.end_sweep() {
            break;
        }
    }
    assert_eq!(result, Some(Ok(vec![2, 4, 6])));
    assert_eq!(invocations, 4);
    assert!(e.is_done());
    assert!(e.next_job().is_none());
    assert_eq!(e.primary(Outcome::Value), Forward::Nothing);
    assert!(!e.end_sweep());
}

#[test]
fn failing_spawned_job_is_dropped_silently() {
    let mut e: Engine<&str> = Engine::new();
    let mut calls = 0;
    assert!(e.begin());
    // The primary sequence yields one item; the callback spawns a job.
    assert_eq!(e.primary(Outcome::Value), Forward::Item);
    calls += 1;
    e.register(JobKind::Spawned, "background");
    assert_eq!(e.answer::<(), ()>(Reply::NotYet), None);
    // The spawned job fails on its first poll.
    let (idx, kind, work) = e.next_job().unwrap();
    assert_eq!((idx, kind, work), (0, JobKind::Spawned, "background"));
    let plan = plan_job(kind, Outcome::Error);
    assert_eq!(plan.forward, Forward::Nothing);
    assert!(!plan.terminal);
    e.settle(plan, work);
    assert_eq!(e.len(), 0);
    assert!(e.next_job().is_none());
    // The next sweep finds nothing ready: the engine suspends, still running.
    assert!(e.end_sweep());
    assert_eq!(e.primary(Outcome::Pending), Forward::Nothing);
    assert!(e.next_job().is_none());
    assert!(!e.end_sweep());
    assert!(!e.is_done());
    assert_eq!(calls, 1);
    // A later wake-up polls the primary sequence again; start is not repeated.
    assert!(!e.begin());
    assert_eq!(e.primary(Outcome::Value), Forward::Item);
}

#[test]
fn job_registered_during_a_poll_runs_in_the_same_sweep() {
    let mut e: Engine<char> = Engine::new();
    e.register(JobKind::Task, 'a');
    assert!(e.begin());
    assert_eq!(e.primary(Outcome::Pending), Forward::Nothing);
    let (_, kind, work) = e.next_job().unwrap();
    assert_eq!(work, 'a');
    let plan = plan_job(kind, Outcome::Value);
    assert_eq!(plan.forward, Forward::Item);
    // The callback registers a new job while 'a' is checked out.
    e.register(JobKind::Task, 'b');
    assert_eq!(e.answer::<(), ()>(Reply::NotYet), None);
    e.settle(plan, work);
    assert_eq!(e.next_job(), Some((0, JobKind::Task, 'b')));
}

#[test]
fn compaction_polls_every_pending_job_once() {
    let mut e: Engine<char> = Engine::new();
    e.register(JobKind::Task, 'a');
    e.register(JobKind::Sequence, 'b');
    e.register(JobKind::Sequence, 'c');
    assert!(e.begin());
    let mut polled = Vec::new();
    while let Some((_, kind, work)) = e.next_job() {
        polled.push(work);
        let outcome = if work == 'a' { Outcome::End } else { Outcome::Pending };
        e.settle(plan_job(kind, outcome), work);
    }
    assert_eq!(polled, vec!['a', 'c', 'b']);
    assert_eq!(e.len(), 2);
    assert!(e.end_sweep());
    let mut again = Vec::new();
    while let Some((_, kind, work)) = e.next_job() {
        again.push(work);
        e.settle(plan_job(kind, Outcome::Pending), work);
    }
    assert_eq!(again, vec!['c', 'b']);
    assert!(!e.end_sweep());
}

#[test]
fn removing_the_last_job_ends_the_sweep() {
    let mut e: Engine<char> = Engine::new();
    e.register(JobKind::Sequence, 'a');
    e.register(JobKind::Task, 'b');
    assert!(e.begin());
    let (_, kind, work) = e.next_job().unwrap();
    e.settle(plan_job(kind, Outcome::Pending), work);
    let (idx, kind, work) = e.next_job().unwrap();
    assert_eq!((idx, work), (1, 'b'));
    e.settle(plan_job(kind, Outcome::Error), work);
    assert!(e.next_job().is_none());
    assert_eq!(e.len(), 1);
}

#[test]
fn resolved_deferred_sequence_becomes_a_sequence_in_place() {
    let mut e: Engine<char> = Engine::new();
    e.register(JobKind::Deferred, 'd');
    e.register(JobKind::Task, 't');
    assert!(e.begin());
    let (_, kind, _) = e.next_job().unwrap();
    e.settle(plan_job(kind, Outcome::Value), 's');
    assert_eq!(e.next_job(), Some((0, JobKind::Sequence, 's')));
    let plan = plan_job(JobKind::Sequence, Outcome::Value);
    assert_eq!(plan.forward, Forward::Item);
    e.settle(plan, 's');
    assert_eq!(e.next_job(), Some((1, JobKind::Task, 't')));
}

#[test]
fn definitive_answer_stops_all_polling() {
    let mut e: Engine<char> = Engine::new();
    e.register(JobKind::Sequence, 'x');
    e.register(JobKind::Task, 'y');
    assert!(e.begin());
    assert_eq!(e.primary(Outcome::Error), Forward::Error);
    assert_eq!(e.answer::<u32, &str>(Reply::Failed("stop")), Some(Err("stop")));
    assert!(e.is_done());
    assert!(e.next_job().is_none());
    assert_eq!(e.primary(Outcome::Value), Forward::Nothing);
    assert!(!e.end_sweep());
}

#[test]
fn sink_result_ends_the_engine() {
    let mut e: Engine<char> = Engine::new();
    e.register(JobKind::Sink, 'k');
    e.register(JobKind::Task, 'y');
    assert!(e.begin());
    let (_, kind, _) = e.next_job().unwrap();
    assert!(plan_job(kind, Outcome::Value).terminal);
    e.conclude();
    assert!(e.is_done());
    assert!(e.next_job().is_none());
}

#[test]
fn settle_without_a_checked_out_job_changes_nothing() {
    let mut e: Engine<char> = Engine::new();
    e.register(JobKind::Task, 'a');
    assert!(e.begin());
    e.settle(plan_job(JobKind::Task, Outcome::End), 'z');
    assert_eq!(e.len(), 1);
    assert_eq!(e.next_job(), Some((0, JobKind::Task, 'a')));
}

#[test]
fn finished_is_owed_once_only() {
    let mut e: Engine<u8> = Engine::new();
    assert!(e.begin());
    assert!(e.polls_primary());
    assert_eq!(e.primary(Outcome::Value), Forward::Item);
    assert_eq!(e.primary(Outcome::End), Forward::Finished);
    assert!(!e.polls_primary());
    assert_eq!(e.primary(Outcome::End), Forward::Nothing);
    assert_eq!(e.primary(Outcome::Value), Forward::Nothing);
    assert!(e.next_job().is_none());
    // The end was progress; the next sweep no longer polls the sequence and
    // finds nothing to do.
    assert!(e.end_sweep());
    assert!(!e.polls_primary());
    assert!(!e.end_sweep());
    assert!(!e.is_done());
}

#[test]
fn primary_error_keeps_the_engine_sweeping() {
    let mut e: Engine<u8> = Engine::new();
    assert!(e.begin());
    assert_eq!(e.primary(Outcome::Error), Forward::Error);
    assert_eq!(e.answer::<(), ()>(Reply::NotYet), None);
    assert!(e.next_job().is_none());
    assert!(e.end_sweep());
    assert_eq!(e.primary(Outcome::Pending), Forward::Nothing);
    assert!(!e.end_sweep());
    assert!(e.polls_primary());
}
