//! Laws of the scheduler, stated over its abstract state and proved from the
//! transition that [`Scheduler::tick`](crate::scheduler::Scheduler::tick) follows.

use vstd::prelude::*;
use crate::scheduler::{
    due_tasks, failed, finished, fire_tick, fired, fits, is_due, next, rescheduled, tick_room, waiting, SchedulerState, SelfTask,
    TickOutcome,
};

verus! {

/// The state after the ticks of `outs`, one after the other.
pub open spec fn run<C>(s: SchedulerState<C>, outs: Seq<TickOutcome<C>>) -> SchedulerState<C>
    decreases outs.len(),
{
    if outs.len() == 0 {
        s
    } else {
        run(next(s, outs[0]), outs.drop_first())
    }
}

/// Where the one-shot entry at index `i` stands among the entries that keep
/// waiting after the tick leaving `tick`.
pub open spec fn waiting_index<C>(pending: Seq<(u64, C)>, tick: u64, i: int) -> int {
    waiting(pending.take(i), tick).len() as int
}

/// How many of the ticks of `outs` pass before the tick in which the
/// one-shot entry at index `i` of `s.pending` runs; `None` if it does not run
/// within them.
pub open spec fn fires_after<C>(s: SchedulerState<C>, i: int, outs: Seq<TickOutcome<C>>) -> Option<nat>
    decreases outs.len(),
{
    if outs.len() == 0 {
        None
    } else if is_due(s.pending[i].0, s.tick) {
        Some(0)
    } else {
        match fires_after(next(s, outs[0]), waiting_index(s.pending, s.tick, i), outs.drop_first()) {
            Some(k) => Some(k + 1),
            None => None,
        }
    }
}

proof fn lemma_waiting_prefix<C>(p: Seq<(u64, C)>, tick: u64, j: int)
    requires
        0 <= j <= p.len(),
    ensures
        waiting(p.take(j), tick).len() <= waiting(p, tick).len(),
        waiting(p.take(j), tick) == waiting(p, tick).take(waiting(p.take(j), tick).len() as int),
    decreases p.len(),
{
    if j == p.len() {
        assert(p.take(j) =~= p);
        assert(waiting(p, tick).take(waiting(p, tick).len() as int) =~= waiting(p, tick));
    } else {
        assert(p.drop_last().take(j) =~= p.take(j));
        lemma_waiting_prefix(p.drop_last(), tick, j);
        let w = waiting(p.drop_last(), tick);
        let k = waiting(p.take(j), tick).len() as int;
        assert(w.push(p.last()).take(k) =~= w.take(k));
    }
}

proof fn lemma_waiting_all_later<C>(p: Seq<(u64, C)>, tick: u64)
    ensures
        forall|k: int| 0 <= k < waiting(p, tick).len() ==> !is_due(#[trigger] waiting(p, tick)[k].0, tick),
    decreases p.len(),
{
    if p.len() > 0 {
        lemma_waiting_all_later(p.drop_last(), tick);
        let w = waiting(p.drop_last(), tick);
        if is_due(p.last().0, tick) {
            assert(waiting(p, tick) == w);
        } else {
            assert(waiting(p, tick) == w.push(p.last()));
            assert forall|k: int| 0 <= k < waiting(p, tick).len() implies !is_due(
                #[trigger] waiting(p, tick)[k].0,
                tick,
            ) by {
                if k < w.len() {
                    assert(waiting(p, tick)[k] == w[k]);
                }
            }
        }
    }
}

/// An entry that is not due keeps waiting, at its waiting index.
proof fn lemma_entry_keeps_waiting<C>(p: Seq<(u64, C)>, tick: u64, i: int)
    requires
        0 <= i < p.len(),
        !is_due(p[i].0, tick),
    ensures
        0 <= waiting_index(p, tick, i) < waiting(p, tick).len(),
        waiting(p, tick)[waiting_index(p, tick, i)] == p[i],
{
    assert(p.take(i + 1).drop_last() =~= p.take(i));
    assert(p.take(i + 1).last() == p[i]);
    lemma_waiting_prefix(p, tick, i + 1);
    let w = waiting(p.take(i + 1), tick);
    assert(w == waiting(p.take(i), tick).push(p[i]));
    assert(w[waiting_index(p, tick, i)] == p[i]);
}

/// After any tick, the entries that keep waiting are exactly those that are
/// not due: a one-shot task that ran in a tick is not kept for a later one.
pub proof fn lemma_due_task_consumed<C>(s: SchedulerState<C>, out: TickOutcome<C>)
    ensures
        forall|k: int|
            0 <= k < waiting(s.pending, s.tick).len() ==> !is_due(
                #[trigger] next(s, out).pending[k].0,
                s.tick,
            ),
{
    lemma_waiting_all_later(s.pending, s.tick);
}

/// A recurring task runs in every tick: the task at index `i` of the
/// recurring tasks is, after any number of ticks whatever the tasks asked
/// for, still at index `i` and among the tasks that the next tick runs.
pub proof fn lemma_recurring_fires_every_tick<C>(s: SchedulerState<C>, outs: Seq<TickOutcome<C>>, i: int)
    requires
        0 <= i < s.recurring.len(),
    ensures
        forall|k: int|
            0 <= k <= outs.len() ==> {
                &&& i < (#[trigger] run(s, outs.take(k))).recurring.len()
                &&& run(s, outs.take(k)).recurring[i] == s.recurring[i]
                &&& fired(run(s, outs.take(k)))[i] == s.recurring[i]
            },
    decreases outs.len(),
{
    if outs.len() > 0 {
        let s1 = next(s, outs[0]);
        assert(s1.recurring[i] == s.recurring[i]);
        lemma_recurring_fires_every_tick(s1, outs.drop_first(), i);
        assert forall|k: int| 0 <= k <= outs.len() implies {
            &&& i < (#[trigger] run(s, outs.take(k))).recurring.len()
            &&& run(s, outs.take(k)).recurring[i] == s.recurring[i]
            &&& fired(run(s, outs.take(k)))[i] == s.recurring[i]
        } by {
            if k > 0 {
                assert(outs.take(k).drop_first() =~= outs.drop_first().take(k - 1));
                assert(outs.take(k)[0] == outs[0]);
                assert(run(s, outs.take(k)) == run(s1, outs.drop_first().take(k - 1)));
            } else {
                assert(outs.take(0).len() == 0);
            }
        }
    } else {
        assert forall|k: int| 0 <= k <= outs.len() implies {
            &&& i < (#[trigger] run(s, outs.take(k))).recurring.len()
            &&& run(s, outs.take(k)).recurring[i] == s.recurring[i]
            &&& fired(run(s, outs.take(k)))[i] == s.recurring[i]
        } by {
            assert(outs.take(k).len() == 0);
        }
    }
}

/// A one-shot entry registered for tick `f` runs in exactly the tick that
/// takes the counter to `f`, whatever the tasks ask for meanwhile: it does
/// not run in any tick before, and (see [`lemma_due_task_consumed`]) is not
/// kept after.
pub proof fn lemma_one_shot_fires_on_its_tick<C>(s: SchedulerState<C>, i: int, outs: Seq<TickOutcome<C>>)
    requires
        0 <= i < s.pending.len(),
        s.pending[i].0 > s.tick,
        s.pending[i].0 - s.tick <= outs.len(),
    ensures
        fires_after(s, i, outs) == Some((s.pending[i].0 - s.tick - 1) as nat),
    decreases outs.len(),
{
    if !is_due(s.pending[i].0, s.tick) {
        lemma_entry_keeps_waiting(s.pending, s.tick, i);
        let s1 = next(s, outs[0]);
        let j = waiting_index(s.pending, s.tick, i);
        assert(s1.pending[j] == s.pending[i]);
        lemma_one_shot_fires_on_its_tick(s1, j, outs.drop_first());
    }
}

/// `run_at(n, task)` at counter value `t` runs the task exactly once, in the
/// tick that takes the counter from `t + n - 1` to `t + n`.
pub proof fn lemma_run_at_fires_once<C>(s: SchedulerState<C>, n: u32, task: C, outs: Seq<TickOutcome<C>>)
    requires
        n > 0,
        s.tick + n <= u64::MAX,
        n <= outs.len(),
    ensures
        ({
            let registered = SchedulerState {
                tick: s.tick,
                recurring: s.recurring,
                pending: s.pending.push(((s.tick + n) as u64, task)),
            };
            fires_after(registered, s.pending.len() as int, outs) == Some((n - 1) as nat)
        }),
{
    let registered = SchedulerState {
        tick: s.tick,
        recurring: s.recurring,
        pending: s.pending.push(((s.tick + n) as u64, task)),
    };
    lemma_one_shot_fires_on_its_tick(registered, s.pending.len() as int, outs);
}

proof fn lemma_rescheduled_prefix<C>(tasks: Seq<C>, again: Seq<Option<SelfTask>>, tick: u64, j: int)
    requires
        tasks.len() == again.len(),
        0 <= j <= tasks.len(),
    ensures
        ({
            let part = rescheduled(tasks.take(j), again.take(j), tick);
            let all = rescheduled(tasks, again, tick);
            part.len() <= all.len() && part == all.take(part.len() as int)
        }),
    decreases tasks.len(),
{
    let all = rescheduled(tasks, again, tick);
    if j == tasks.len() {
        assert(tasks.take(j) =~= tasks);
        assert(again.take(j) =~= again);
        assert(all.take(all.len() as int) =~= all);
    } else {
        assert(tasks.drop_last().take(j) =~= tasks.take(j));
        assert(again.drop_last().take(j) =~= again.take(j));
        lemma_rescheduled_prefix(tasks.drop_last(), again.drop_last(), tick, j);
        let r = rescheduled(tasks.drop_last(), again.drop_last(), tick);
        let k = rescheduled(tasks.take(j), again.take(j), tick).len() as int;
        match again.last() {
            Some(SelfTask::RunAt { tick_offset }) => {
                assert(r.push((fire_tick(tick, tick_offset), tasks.last())).take(k) =~= r.take(k));
            },
            None => {},
        }
    }
}

/// A one-shot task that, running in the tick leaving `s.tick`, asks to run
/// again `n` ticks later gets exactly one new entry for that request, which
/// holds the very task that ran; it next runs `n` ticks after the tick that
/// ran it, whatever the tasks ask for meanwhile.
pub proof fn lemma_self_reschedule<C>(
    s: SchedulerState<C>,
    out: TickOutcome<C>,
    k: int,
    n: u32,
    outs: Seq<TickOutcome<C>>,
)
    requires
        fits(s, out),
        tick_room(s.tick),
        0 <= k < due_tasks(s.pending, s.tick).len(),
        out.again[k] == Some(SelfTask::RunAt { tick_offset: n }),
        n > 0,
        n <= outs.len(),
    ensures
        ({
            let due = due_tasks(s.pending, s.tick);
            let before = rescheduled(due.take(k), out.again.take(k), s.tick);
            let j = (waiting(s.pending, s.tick).len() + before.len()) as int;
            &&& rescheduled(due.take(k + 1), out.again.take(k + 1), s.tick) == before.push(
                (fire_tick(s.tick, n), due[k]),
            )
            &&& next(s, out).pending[j] == (fire_tick(s.tick, n), due[k])
            &&& fires_after(next(s, out), j, outs) == Some((n - 1) as nat)
        }),
{
    let due = due_tasks(s.pending, s.tick);
    let again = out.again;
    let before = rescheduled(due.take(k), again.take(k), s.tick);
    let w = waiting(s.pending, s.tick);
    let j = (w.len() + before.len()) as int;
    assert(due.take(k + 1).drop_last() =~= due.take(k));
    assert(again.take(k + 1).drop_last() =~= again.take(k));
    let upto = rescheduled(due.take(k + 1), again.take(k + 1), s.tick);
    assert(upto == before.push((fire_tick(s.tick, n), due[k])));
    lemma_rescheduled_prefix(due, again, s.tick, k + 1);
    let all = rescheduled(due, again, s.tick);
    assert(all[before.len() as int] == upto[before.len() as int]);
    let s1 = next(s, out);
    assert(s1.pending[j] == all[before.len() as int]);
    lemma_one_shot_fires_on_its_tick(s1, j, outs);
}

/// A tick in phases is a tick: taking out the due one-shot tasks
/// (`take_due`) and then ending the tick with what the tasks asked for
/// (`end_tick`) gives the state of one step of the model.
pub proof fn lemma_phases_make_a_tick<C>(s: SchedulerState<C>, out: TickOutcome<C>)
    ensures
        finished(failed(s), due_tasks(s.pending, s.tick), out.again, out.registrations) == next(s, out),
{
}

} // verus!
