//! Tick-based task scheduler of the logic thread.
//!
//! Tasks are typed records (any type implementing [`Callback`]) owned by the
//! scheduler. A tick runs every recurring task in registration order, then
//! every one-shot task that is due, in registration order. While it runs, a
//! task may register new tasks and ask to be run again; those requests take
//! effect only from the next tick on.
//!
//! Ticks are named by the value that the tick counter takes when they end:
//! the tick that moves the counter from `t` to `t + 1` is tick `t + 1`.

use vstd::prelude::*;

verus! {

/// A task registered by a running task.
pub enum Registration<C> {
    /// Run once, `tick_offset` ticks after the tick in which it was registered.
    RunAt { tick_offset: u32, callback: C },
    /// Run on every tick from the next one on.
    OnEveryTick { callback: C },
}

/// The request of a one-shot task to be run again.
#[derive(PartialEq, Eq, Structural, Copy, Clone, Debug)]
pub enum SelfTask {
    /// Run again `tick_offset` ticks after the tick that is running it.
    RunAt { tick_offset: u32 },
}

/// What a running task may ask of the scheduler. Nothing it asks takes
/// effect before the next tick.
pub trait SelfScheduler<C> {
    /// The registrations made so far, in order.
    spec fn registrations(&self) -> Seq<Registration<C>>;

    /// The request of the running task to run again, if any.
    spec fn again(&self) -> Option<SelfTask>;

    /// Runs `callback` once, `tick_offset` ticks after the running tick.
    fn run_at(&mut self, tick_offset: u32, callback: C)
        requires
            tick_offset > 0,
        ensures
            final(self).registrations() == old(self).registrations().push(
                Registration::RunAt { tick_offset, callback },
            ),
            final(self).again() == old(self).again(),
    ;

    /// Runs `callback` on every tick from the next one on.
    fn on_every_tick(&mut self, callback: C)
        ensures
            final(self).registrations() == old(self).registrations().push(
                Registration::OnEveryTick { callback },
            ),
            final(self).again() == old(self).again(),
    ;

    /// Runs the running one-shot task again, `tick_offset` ticks after the
    /// running tick. A later request replaces an earlier one.
    fn run_self_at(&mut self, tick_offset: u32)
        requires
            tick_offset > 0,
        ensures
            final(self).registrations() == old(self).registrations(),
            final(self).again() == Some(SelfTask::RunAt { tick_offset }),
    ;
}

/// The requests of the tasks of one tick, collected until the tick ends.
pub struct Requests<C> {
    registrations: Vec<Registration<C>>,
    again: Option<SelfTask>,
}

/// A task: a record that the scheduler owns and calls on the ticks where it
/// is due. An error ends the tick at once.
pub trait Callback<S, E>: Sized {
    fn call(&self, scheduler: &mut Requests<Self>, state: &mut S) -> Result<(), E>;
}

/// Something that registers its tasks with a scheduler.
pub trait SchedulerSetup<C> {
    fn setup_scheduler(&mut self, scheduler: &mut Scheduler<C>);
}

/// The scheduler: a tick counter, the recurring tasks, and the one-shot
/// tasks with the tick in which each of them fires.
pub struct Scheduler<C> {
    current_tick: u64,
    on_tick: Vec<(u64, C)>,
    on_every_tick: Vec<C>,
    /// The tasks that the last tick called, in order.
    last_run: Ghost<Seq<C>>,
    /// For each task that the last tick called, whether it succeeded.
    last_ok: Ghost<Seq<bool>>,
    /// What the tasks of the last tick asked for.
    last_requests: Ghost<TickOutcome<C>>,
}

/// The abstract state of a scheduler.
pub struct SchedulerState<C> {
    /// Ticks completed so far.
    pub tick: u64,
    /// Recurring tasks, in registration order.
    pub recurring: Seq<C>,
    /// One-shot tasks, in registration order, each with the tick in which it fires.
    pub pending: Seq<(u64, C)>,
}

/// What the tasks of one tick asked for: all registrations in the order they
/// were made, and for each due one-shot task (in firing order) whether it
/// asked to run again.
pub struct TickOutcome<C> {
    pub registrations: Seq<Registration<C>>,
    pub again: Seq<Option<SelfTask>>,
}

/// Whether a one-shot task registered for tick `fire` is due in the tick that
/// leaves the counter at `tick`. A task whose tick has passed is due too.
pub open spec fn is_due(fire: u64, tick: u64) -> bool {
    fire <= tick + 1
}

/// The one-shot tasks of `pending` that run in the tick leaving `tick`, in order.
pub open spec fn due_tasks<C>(pending: Seq<(u64, C)>, tick: u64) -> Seq<C>
    decreases pending.len(),
{
    if pending.len() == 0 {
        seq![]
    } else {
        let rest = due_tasks(pending.drop_last(), tick);
        if is_due(pending.last().0, tick) {
            rest.push(pending.last().1)
        } else {
            rest
        }
    }
}

/// The one-shot tasks of `pending` that keep waiting after the tick leaving `tick`.
pub open spec fn waiting<C>(pending: Seq<(u64, C)>, tick: u64) -> Seq<(u64, C)>
    decreases pending.len(),
{
    if pending.len() == 0 {
        seq![]
    } else {
        let rest = waiting(pending.drop_last(), tick);
        if is_due(pending.last().0, tick) {
            rest
        } else {
            rest.push(pending.last())
        }
    }
}

/// The tick in which a task registered with `offset` during the tick
/// leaving `tick` fires.
pub open spec fn fire_tick(tick: u64, offset: u32) -> u64 {
    (tick + 1 + offset) as u64
}

/// The tasks that the tick leaving `s.tick` runs, in order.
pub open spec fn fired<C>(s: SchedulerState<C>) -> Seq<C> {
    s.recurring + due_tasks(s.pending, s.tick)
}

/// The due tasks that asked to run again, each with its new firing tick.
pub open spec fn rescheduled<C>(tasks: Seq<C>, again: Seq<Option<SelfTask>>, tick: u64) -> Seq<(u64, C)>
    decreases tasks.len(),
{
    if tasks.len() == 0 || again.len() == 0 {
        seq![]
    } else {
        let rest = rescheduled(tasks.drop_last(), again.drop_last(), tick);
        match again.last() {
            Some(SelfTask::RunAt { tick_offset }) => rest.push((fire_tick(tick, tick_offset), tasks.last())),
            None => rest,
        }
    }
}

/// The recurring tasks among `regs`, in order.
pub open spec fn recurring_registrations<C>(regs: Seq<Registration<C>>) -> Seq<C>
    decreases regs.len(),
{
    if regs.len() == 0 {
        seq![]
    } else {
        let rest = recurring_registrations(regs.drop_last());
        match regs.last() {
            Registration::OnEveryTick { callback } => rest.push(callback),
            Registration::RunAt { .. } => rest,
        }
    }
}

/// The one-shot tasks among `regs`, in order, with their firing ticks.
pub open spec fn one_shot_registrations<C>(regs: Seq<Registration<C>>, tick: u64) -> Seq<(u64, C)>
    decreases regs.len(),
{
    if regs.len() == 0 {
        seq![]
    } else {
        let rest = one_shot_registrations(regs.drop_last(), tick);
        match regs.last() {
            Registration::RunAt { tick_offset, callback } => rest.push((fire_tick(tick, tick_offset), callback)),
            Registration::OnEveryTick { .. } => rest,
        }
    }
}

/// Whether `out` can be the outcome of the tick leaving `s.tick`: one answer
/// for each due one-shot task.
pub open spec fn fits<C>(s: SchedulerState<C>, out: TickOutcome<C>) -> bool {
    out.again.len() == due_tasks(s.pending, s.tick).len()
}

/// The state after a tick that completed with outcome `out`.
pub open spec fn next<C>(s: SchedulerState<C>, out: TickOutcome<C>) -> SchedulerState<C> {
    SchedulerState {
        tick: (s.tick + 1) as u64,
        recurring: s.recurring + recurring_registrations(out.registrations),
        pending: waiting(s.pending, s.tick) + rescheduled(due_tasks(s.pending, s.tick), out.again, s.tick)
            + one_shot_registrations(out.registrations, s.tick),
    }
}

/// The state after a tick in which a task failed: the due one-shot tasks are
/// consumed, nothing that the tasks asked for is kept, the counter stays.
pub open spec fn failed<C>(s: SchedulerState<C>) -> SchedulerState<C> {
    SchedulerState { tick: s.tick, recurring: s.recurring, pending: waiting(s.pending, s.tick) }
}

/// The state after ending a tick from `s`, the state left once the due
/// one-shot tasks were taken out: the counter advances; `due` (the tasks
/// that ran, in order) get their run-again requests `again`; the
/// registrations `regs` are kept in order.
pub open spec fn finished<C>(
    s: SchedulerState<C>,
    due: Seq<C>,
    again: Seq<Option<SelfTask>>,
    regs: Seq<Registration<C>>,
) -> SchedulerState<C> {
    SchedulerState {
        tick: (s.tick + 1) as u64,
        recurring: s.recurring + recurring_registrations(regs),
        pending: s.pending + rescheduled(due, again, s.tick) + one_shot_registrations(regs, s.tick),
    }
}

/// Whether a tick can start from counter value `tick` without the counter or
/// any firing tick leaving `u64`.
pub open spec fn tick_room(tick: u64) -> bool {
    tick + 1 + u32::MAX <= u64::MAX
}

impl<C> Requests<C> {
    /// No registration and no run-again request yet.
    pub fn new() -> (r: Requests<C>)
        ensures
            r.registrations() == Seq::<Registration<C>>::empty(),
            r.again() is None,
    {
        Requests { registrations: Vec::new(), again: None }
    }

    /// Takes the run-again request, leaving none.
    pub fn take_again(&mut self) -> (r: Option<SelfTask>)
        ensures
            r == old(self).again(),
            final(self).again() is None,
            final(self).registrations() == old(self).registrations(),
    {
        self.again.take()
    }

    /// The registrations made, in order.
    pub fn into_registrations(self) -> (r: Vec<Registration<C>>)
        ensures
            r@ == self.registrations(),
    {
        self.registrations
    }
}

impl<C> SelfScheduler<C> for Requests<C> {
    closed spec fn registrations(&self) -> Seq<Registration<C>> {
        self.registrations@
    }

    closed spec fn again(&self) -> Option<SelfTask> {
        self.again
    }

    fn run_at(&mut self, tick_offset: u32, callback: C) {
        self.registrations.push(Registration::RunAt { tick_offset, callback });
    }

    fn on_every_tick(&mut self, callback: C) {
        self.registrations.push(Registration::OnEveryTick { callback });
    }

    fn run_self_at(&mut self, tick_offset: u32) {
        self.again = Some(SelfTask::RunAt { tick_offset });
    }
}

/// Splits `pending` into the tasks due in the tick leaving `tick` and those
/// that keep waiting, both in order.
fn split_due<C>(pending: Vec<(u64, C)>, tick: u64) -> (r: (Vec<C>, Vec<(u64, C)>))
    requires
        tick < u64::MAX,
    ensures
        r.0@ == due_tasks(pending@, tick),
        r.1@ == waiting(pending@, tick),
{
    let ghost all = pending@;
    let mut due: Vec<C> = Vec::new();
    let mut keep: Vec<(u64, C)> = Vec::new();
    for e in it: pending.into_iter()
        invariant
            it.seq() == all,
            tick < u64::MAX,
            due@ == due_tasks(all.take(it.index() as int), tick),
            keep@ == waiting(all.take(it.index() as int), tick),
    {
        proof {
            assert(all.take(it.index() + 1).drop_last() =~= all.take(it.index() as int));
        }
        if e.0 <= tick + 1 {
            due.push(e.1);
        } else {
            keep.push(e);
        }
    }
    proof {
        assert(all.take(all.len() as int) =~= all);
    }
    (due, keep)
}

impl<C> View for Scheduler<C> {
    type V = SchedulerState<C>;

    closed spec fn view(&self) -> SchedulerState<C> {
        SchedulerState { tick: self.current_tick, recurring: self.on_every_tick@, pending: self.on_tick@ }
    }
}

impl<C> Scheduler<C> {
    /// The tasks that the last tick called, in the order it called them.
    pub closed spec fn last_run(&self) -> Seq<C> {
        self.last_run@
    }

    /// For each task that the last tick called, whether it returned `Ok`.
    pub closed spec fn last_ok(&self) -> Seq<bool> {
        self.last_ok@
    }

    /// What the tasks of the last tick asked for through
    /// [`SelfScheduler`]: their registrations, in the order made, and the
    /// run-again request of each due one-shot task, in firing order.
    pub closed spec fn last_requests(&self) -> TickOutcome<C> {
        self.last_requests@
    }

    pub fn new() -> (r: Scheduler<C>)
        ensures
            r@ == (SchedulerState::<C> { tick: 0, recurring: seq![], pending: seq![] }),
    {
        Scheduler { current_tick: 0, on_tick: Vec::new(), on_every_tick: Vec::new(), last_run: Ghost(Seq::empty()),
            last_ok: Ghost(Seq::empty()),
            last_requests: Ghost(TickOutcome { registrations: Seq::empty(), again: Seq::empty() }),
        }
    }

    /// Ticks completed so far.
    pub fn current_tick(&self) -> (r: u64)
        ensures
            r == self@.tick,
    {
        self.current_tick
    }

    /// Runs `callback` once, in the tick that takes the counter to
    /// `current_tick + tick_offset`.
    pub fn run_at(&mut self, tick_offset: u32, callback: C)
        requires
            tick_offset > 0,
            old(self)@.tick + tick_offset <= u64::MAX,
        ensures
            final(self)@ == (SchedulerState {
                tick: old(self)@.tick,
                recurring: old(self)@.recurring,
                pending: old(self)@.pending.push(((old(self)@.tick + tick_offset) as u64, callback)),
            }),
    {
        let fire = self.current_tick + tick_offset as u64;
        self.on_tick.push((fire, callback));
    }

    /// Runs `callback` on every tick from the next one on.
    pub fn on_every_tick(&mut self, callback: C)
        ensures
            final(self)@ == (SchedulerState {
                tick: old(self)@.tick,
                recurring: old(self)@.recurring.push(callback),
                pending: old(self)@.pending,
            }),
    {
        self.on_every_tick.push(callback);
    }
    /// Takes out the one-shot tasks due in the coming tick, in registration
    /// order: those handed to the calls after the recurring tasks.
    pub fn take_due(&mut self) -> (r: Vec<C>)
        requires
            old(self)@.tick < u64::MAX,
        ensures
            r@ == due_tasks(old(self)@.pending, old(self)@.tick),
            final(self)@ == failed(old(self)@),
    {
        let mut pending: Vec<(u64, C)> = Vec::new();
        std::mem::swap(&mut pending, &mut self.on_tick);
        let (due, keep) = split_due(pending, self.current_tick);
        self.on_tick = keep;
        due
    }

    /// Ends a tick whose tasks all succeeded: `due` are the one-shot tasks
    /// that ran, `again` the run-again request of each, `registrations` all
    /// that the tasks registered, in order. Advances the counter.
    pub fn end_tick(&mut self, due: Vec<C>, again: Vec<Option<SelfTask>>, registrations: Vec<Registration<C>>)
        requires
            tick_room(old(self)@.tick),
            due@.len() == again@.len(),
        ensures
            final(self)@ == finished(old(self)@, due@, again@, registrations@),
    {
        let tick = self.current_tick;
        let ghost due_all = due@;
        let ghost base = self.on_tick@;
        let mut i: usize = 0;
        for task in it: due.into_iter()
            invariant
                it.seq() == due_all,
                i == it.index(),
                again@.len() == due_all.len(),
                tick == old(self)@.tick,
                tick_room(tick),
                self.current_tick == tick,
                self.on_every_tick@ == old(self)@.recurring,
                self.on_tick@ == base + rescheduled(due_all.take(i as int), again@.take(i as int), tick),
        {
            proof {
                assert(due_all.take(i + 1).drop_last() =~= due_all.take(i as int));
                assert(again@.take(i + 1).drop_last() =~= again@.take(i as int));
            }
            match again[i] {
                Some(SelfTask::RunAt { tick_offset }) => {
                    self.on_tick.push((tick + 1 + tick_offset as u64, task));
                },
                None => {},
            }
            proof {
                let r = rescheduled(due_all.take(i + 1), again@.take(i + 1), tick);
                assert(self.on_tick@ =~= base + r);
            }
            i = i + 1;
        }
        proof {
            assert(due_all.take(due_all.len() as int) =~= due_all);
            assert(again@.take(again@.len() as int) =~= again@);
        }
        let ghost regs_all = registrations@;
        let ghost base2 = self.on_tick@;
        for reg in it: registrations.into_iter()
            invariant
                it.seq() == regs_all,
                tick == old(self)@.tick,
                tick_room(tick),
                self.current_tick == tick,
                self.on_every_tick@ == old(self)@.recurring + recurring_registrations(
                    regs_all.take(it.index() as int),
                ),
                self.on_tick@ == base2 + one_shot_registrations(regs_all.take(it.index() as int), tick),
        {
            proof {
                assert(regs_all.take(it.index() + 1).drop_last() =~= regs_all.take(it.index() as int));
            }
            match reg {
                Registration::OnEveryTick { callback } => {
                    self.on_every_tick.push(callback);
                },
                Registration::RunAt { tick_offset, callback } => {
                    self.on_tick.push((tick + 1 + tick_offset as u64, callback));
                },
            }
            proof {
                assert(self.on_every_tick@ =~= old(self)@.recurring + recurring_registrations(
                    regs_all.take(it.index() + 1),
                ));
                assert(self.on_tick@ =~= base2 + one_shot_registrations(regs_all.take(it.index() + 1), tick));
            }
        }
        self.current_tick = tick + 1;
        proof {
            assert(regs_all.take(regs_all.len() as int) =~= regs_all);
            assert(self@ =~= finished(old(self)@, due_all, again@, regs_all));
        }
    }

    /// Runs one tick: hands every recurring task, in registration order,
    /// then every due one-shot task ([`Self::take_due`]), in registration
    /// order, to [`Callback::call`] with one [`Requests`] that collects what
    /// they ask for; then ends the tick with all of it
    /// ([`Self::end_tick`]). A run-again request of a recurring task is
    /// ignored.
    ///
    /// The first error ends the tick: it is the one returned, no further
    /// task runs, nothing that the tasks asked for is kept, the due one-shot
    /// tasks are consumed and the counter stays. The tick returns `Ok`
    /// exactly when every task it called did.
    pub fn tick<S, E>(&mut self, state: &mut S) -> (r: Result<(), E>)
        where C: Callback<S, E>,
        requires
            tick_room(old(self)@.tick),
        ensures
            final(self).last_ok().len() == final(self).last_run().len(),
            r is Ok ==> {
                &&& final(self).last_run() == fired(old(self)@)
                &&& forall|k: int| 0 <= k < final(self).last_ok().len() ==> #[trigger] final(self).last_ok()[k]
                &&& fits(old(self)@, final(self).last_requests())
                &&& final(self)@ == next(old(self)@, final(self).last_requests())
            },
            r is Err ==> {
                &&& final(self)@ == failed(old(self)@)
                &&& 0 < final(self).last_run().len() <= fired(old(self)@).len()
                &&& final(self).last_run() == fired(old(self)@).take(final(self).last_run().len() as int)
                &&& !final(self).last_ok().last()
                &&& forall|k: int|
                    0 <= k < final(self).last_ok().len() - 1 ==> #[trigger] final(self).last_ok()[k]
            },
    {
        let tick = self.current_tick;
        let due = self.take_due();
        let mut requests: Requests<C> = Requests::new();

        let ghost mut ran: Seq<C> = seq![];
        let ghost mut ok: Seq<bool> = seq![];
        let n = self.on_every_tick.len();
        for i in 0..n
            invariant
                n == self.on_every_tick.len(),
                self@ == failed(old(self)@),
                ran == old(self)@.recurring.take(i as int),
                ok.len() == i,
                forall|k: int| 0 <= k < ok.len() ==> #[trigger] ok[k],
        {
            proof {
                assert(old(self)@.recurring.take(i + 1) =~= ran.push(self.on_every_tick@[i as int]));
                ran = ran.push(self.on_every_tick@[i as int]);
            }
            let res = self.on_every_tick[i].call(&mut requests, state);
            proof {
                ok = ok.push(res is Ok);
            }
            if let Err(e) = res {
                self.last_run = Ghost(ran);
                self.last_ok = Ghost(ok);
                proof {
                    assert(fired(old(self)@).take(ran.len() as int) =~= ran);
                }
                return Err(e);
            }
        }
        proof {
            assert(old(self)@.recurring.take(n as int) =~= old(self)@.recurring);
        }

        let ghost due_all = due@;
        let mut ran_due: Vec<C> = Vec::new();
        let mut answers: Vec<Option<SelfTask>> = Vec::new();
        for task in it: due.into_iter()
            invariant
                it.seq() == due_all,
                due_all == due_tasks(old(self)@.pending, tick),
                tick == old(self)@.tick,
                tick_room(tick),
                self@ == failed(old(self)@),
                ran_due@ == due_all.take(it.index() as int),
                answers@.len() == it.index(),
                ran == old(self)@.recurring + due_all.take(it.index() as int),
                ok.len() == ran.len(),
                forall|k: int| 0 <= k < ok.len() ==> #[trigger] ok[k],
        {
            proof {
                assert(old(self)@.recurring + due_all.take(it.index() + 1) =~= ran.push(task));
                assert(due_all.take(it.index() + 1) =~= ran_due@.push(task));
                ran = ran.push(task);
            }
            let _ = requests.take_again();
            let res = task.call(&mut requests, state);
            proof {
                ok = ok.push(res is Ok);
            }
            if let Err(e) = res {
                self.last_run = Ghost(ran);
                self.last_ok = Ghost(ok);
                proof {
                    assert(fired(old(self)@).take(ran.len() as int) =~= ran);
                }
                return Err(e);
            }
            answers.push(requests.take_again());
            ran_due.push(task);
        }
        proof {
            assert(due_all.take(due_all.len() as int) =~= due_all);
        }

        let registrations = requests.into_registrations();
        let ghost outcome = TickOutcome { registrations: registrations@, again: answers@ };
        self.end_tick(ran_due, answers, registrations);
        self.last_run = Ghost(ran);
        self.last_ok = Ghost(ok);
        self.last_requests = Ghost(outcome);
        proof {
            assert(self@ =~= next(old(self)@, outcome));
        }
        Ok(())
    }
}

} // verus!
