use rswatch::control::ControlLoop;
use rswatch::control::Phase;
use rswatch::snapshot::FileEntry;
use rswatch::snapshot::Snapshot;
use rswatch::snapshot::Timestamp;
use rswatch::supervisor::SupervisorAction;

fn entry(path: &str, secs: u64) -> FileEntry {
    FileEntry { path: path.as_bytes().to_vec(), mtime: Timestamp { secs, nanos: 0 } }
}

#[test]
fn launch_starts_exactly_one_process() {
    let first = Snapshot::from_entries(vec![entry("a.txt", 10)]);
    let mut ctl = ControlLoop::new(first);
    assert_eq!(ctl.phase(), Phase::Initializing);
    assert!(!ctl.running());
    let a = ctl.launch();
    assert_eq!(a, SupervisorAction::Spawn);
    assert_eq!(ctl.phase(), Phase::Watching);
    assert!(ctl.running());
}

#[test]
fn touched_file_restarts_within_one_tick() {
    // Watch a directory holding one file; touching it (a new modified
    // time) makes the next tick kill the old process and spawn a new one.
    let first = Snapshot::from_entries(vec![entry("a.txt", 10)]);
    let mut ctl = ControlLoop::new(first);
    ctl.launch();
    let touched = Snapshot::from_entries(vec![entry("a.txt", 11)]);
    let a = ctl.on_tick(touched);
    assert_eq!(a, SupervisorAction::KillThenSpawn);
    assert!(ctl.running());
    assert_eq!(ctl.phase(), Phase::Watching);
}

#[test]
fn interrupt_kills_child_and_terminates() {
    // Watch a single file; an interrupt stops the child and ends the loop.
    let first = Snapshot::from_entries(vec![entry("f.txt", 5)]);
    let mut ctl = ControlLoop::new(first);
    ctl.launch();
    ctl.on_interrupt();
    assert_eq!(ctl.phase(), Phase::ShuttingDown);
    let a = ctl.shutdown();
    assert_eq!(a, SupervisorAction::Kill);
    assert_eq!(ctl.phase(), Phase::Terminated);
    assert!(!ctl.running());
}

#[test]
fn five_quiet_ticks_never_restart() {
    // No change for five consecutive ticks: the child is spawned exactly
    // once, at launch, and never restarted.
    let first = Snapshot::from_entries(vec![entry("a.txt", 10), entry("b.txt", 20)]);
    let mut ctl = ControlLoop::new(first);
    let launch_action = ctl.launch();
    assert_eq!(launch_action, SupervisorAction::Spawn);
    let mut tick: usize = 0;
    while tick < 5 {
        let same = Snapshot::from_entries(vec![entry("a.txt", 10), entry("b.txt", 20)]);
        let a = ctl.on_tick(same);
        assert_eq!(a, SupervisorAction::NoAction);
        assert!(ctl.running());
        tick += 1;
    }
    assert_eq!(ctl.phase(), Phase::Watching);
}

#[test]
fn tick_compares_against_immediately_preceding_snapshot() {
    // After a change is handled, the fresh snapshot is retained: seeing
    // the same state again on the next tick is no longer a change.
    let first = Snapshot::from_entries(vec![entry("a.txt", 10)]);
    let mut ctl = ControlLoop::new(first);
    ctl.launch();
    let touched = Snapshot::from_entries(vec![entry("a.txt", 11)]);
    assert_eq!(ctl.on_tick(touched), SupervisorAction::KillThenSpawn);
    let same_again = Snapshot::from_entries(vec![entry("a.txt", 11)]);
    assert_eq!(ctl.on_tick(same_again), SupervisorAction::NoAction);
}

#[test]
fn new_file_restarts_on_next_tick() {
    let first = Snapshot::from_entries(vec![entry("a.txt", 10)]);
    let mut ctl = ControlLoop::new(first);
    ctl.launch();
    let grown = Snapshot::from_entries(vec![entry("a.txt", 10), entry("b.txt", 1)]);
    assert_eq!(ctl.on_tick(grown), SupervisorAction::KillThenSpawn);
}

#[test]
fn interrupt_on_quiet_loop_exits_cleanly() {
    let first = Snapshot::new();
    let mut ctl = ControlLoop::new(first);
    ctl.launch();
    let a = ctl.on_tick(Snapshot::new());
    assert_eq!(a, SupervisorAction::NoAction);
    ctl.on_interrupt();
    let stop = ctl.shutdown();
    assert_eq!(stop, SupervisorAction::Kill);
    assert_eq!(ctl.phase(), Phase::Terminated);
}
