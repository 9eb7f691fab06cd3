use threedge::scheduler::{Callback, Requests, Scheduler, SelfScheduler};

#[derive(Clone, Copy, Debug, PartialEq)]
enum Task {
    /// Records its mark.
    Mark(u32),
    /// Records its mark and runs again `offset` ticks later.
    Repeat(u32, u32),
    /// Records its mark and registers `Mark(child)` for the next tick.
    Spawn(u32, u32),
    /// Records its mark and registers `Mark(child)` as a recurring task.
    SpawnRecurring(u32, u32),
    /// Fails.
    Fail,
}

struct Log {
    /// The tick being run: the value the counter takes when it ends.
    tick: u64,
    fired: Vec<(u64, u32)>,
}

impl Callback<Log, String> for Task {
    fn call(&self, scheduler: &mut Requests<Task>, state: &mut Log) -> Result<(), String> {
        match *self {
            Task::Mark(m) => state.fired.push((state.tick, m)),
            Task::Repeat(m, offset) => {
                state.fired.push((state.tick, m));
                scheduler.run_self_at(offset);
            }
            Task::Spawn(m, child) => {
                state.fired.push((state.tick, m));
                scheduler.run_at(1, Task::Mark(child));
            }
            Task::SpawnRecurring(m, child) => {
                state.fired.push((state.tick, m));
                scheduler.on_every_tick(Task::Mark(child));
            }
            Task::Fail => return Err("task failed".to_string()),
        }
        Ok(())
    }
}

fn run(scheduler: &mut Scheduler<Task>, log: &mut Log, ticks: u64) {
    for _ in 0..ticks {
        log.tick = scheduler.current_tick() + 1;
        scheduler.tick(log).unwrap();
    }
}

fn ticks_of(log: &Log, mark: u32) -> Vec<u64> {
    log.fired.iter().filter(|(_, m)| *m == mark).map(|(t, _)| *t).collect()
}

fn new_log() -> Log {
    Log { tick: 0, fired: Vec::new() }
}

#[test]
fn run_at_three_from_tick_ten_fires_at_thirteen_only() {
    let mut scheduler = Scheduler::new();
    let mut log = new_log();
    run(&mut scheduler, &mut log, 10);
    assert_eq!(scheduler.current_tick(), 10);
    scheduler.run_at(3, Task::Mark(7));
    run(&mut scheduler, &mut log, 20);
    assert_eq!(ticks_of(&log, 7), vec![13]);
}

#[test]
fn run_at_fires_once_at_offset() {
    let mut scheduler = Scheduler::new();
    let mut log = new_log();
    scheduler.run_at(1, Task::Mark(1));
    scheduler.run_at(5, Task::Mark(5));
    run(&mut scheduler, &mut log, 8);
    assert_eq!(ticks_of(&log, 1), vec![1]);
    assert_eq!(ticks_of(&log, 5), vec![5]);
}

#[test]
fn recurring_tasks_fire_every_tick_in_registration_order() {
    let mut scheduler = Scheduler::new();
    let mut log = new_log();
    scheduler.on_every_tick(Task::Mark(1));
    scheduler.on_every_tick(Task::Mark(2));
    run(&mut scheduler, &mut log, 3);
    scheduler.on_every_tick(Task::Mark(3));
    run(&mut scheduler, &mut log, 2);
    assert_eq!(ticks_of(&log, 1), vec![1, 2, 3, 4, 5]);
    assert_eq!(ticks_of(&log, 2), vec![1, 2, 3, 4, 5]);
    assert_eq!(ticks_of(&log, 3), vec![4, 5]);
    assert_eq!(log.fired[0], (1, 1));
    assert_eq!(log.fired[1], (1, 2));
}

#[test]
fn recurring_tasks_run_before_one_shot_tasks() {
    let mut scheduler = Scheduler::new();
    let mut log = new_log();
    scheduler.run_at(1, Task::Mark(10));
    scheduler.run_at(1, Task::Mark(11));
    scheduler.on_every_tick(Task::Mark(1));
    run(&mut scheduler, &mut log, 1);
    assert_eq!(log.fired, vec![(1, 1), (1, 10), (1, 11)]);
}

#[test]
fn self_rescheduling_task_runs_every_offset_ticks() {
    let mut scheduler = Scheduler::new();
    let mut log = new_log();
    scheduler.run_at(2, Task::Repeat(4, 3));
    run(&mut scheduler, &mut log, 12);
    assert_eq!(ticks_of(&log, 4), vec![2, 5, 8, 11]);
}

#[test]
fn registrations_take_effect_from_the_next_tick() {
    let mut scheduler = Scheduler::new();
    let mut log = new_log();
    scheduler.run_at(1, Task::Spawn(1, 2));
    scheduler.run_at(1, Task::SpawnRecurring(3, 4));
    run(&mut scheduler, &mut log, 1);
    assert_eq!(log.fired, vec![(1, 1), (1, 3)]);
    run(&mut scheduler, &mut log, 2);
    assert_eq!(ticks_of(&log, 2), vec![2]);
    assert_eq!(ticks_of(&log, 4), vec![2, 3]);
}

#[test]
fn failing_task_stops_the_tick() {
    let mut scheduler = Scheduler::new();
    let mut log = new_log();
    scheduler.on_every_tick(Task::Fail);
    scheduler.on_every_tick(Task::Mark(1));
    scheduler.run_at(1, Task::Mark(2));
    log.tick = 1;
    assert_eq!(scheduler.tick(&mut log), Err("task failed".to_string()));
    assert!(log.fired.is_empty());
    assert_eq!(scheduler.current_tick(), 0);
}

#[test]
fn tick_in_phases_keeps_run_again_and_registrations() {
    let mut scheduler = Scheduler::new();
    scheduler.run_at(1, Task::Mark(1));
    scheduler.run_at(2, Task::Mark(2));
    let due = scheduler.take_due();
    assert_eq!(due, vec![Task::Mark(1)]);

    let mut requests: Requests<Task> = Requests::new();
    requests.run_self_at(4);
    let again = requests.take_again();
    assert_eq!(again, Some(threedge::scheduler::SelfTask::RunAt { tick_offset: 4 }));
    assert_eq!(requests.take_again(), None);
    requests.on_every_tick(Task::Mark(3));
    scheduler.end_tick(due, vec![again], requests.into_registrations());
    assert_eq!(scheduler.current_tick(), 1);

    let mut log = new_log();
    run(&mut scheduler, &mut log, 6);
    assert_eq!(ticks_of(&log, 1), vec![5]);
    assert_eq!(ticks_of(&log, 2), vec![2]);
    assert_eq!(ticks_of(&log, 3), vec![2, 3, 4, 5, 6, 7]);
}
