use egui_extras_lib::{conclude, Progress, TaskBoard, TaskController, TaskSlot, TaskState};

type Report = Progress<u32, String, String>;

fn running(id: usize) -> (TaskController, TaskSlot<u32, String, String>) {
    let mut c = TaskController::new(id);
    assert!(c.trigger());
    (c, TaskSlot::new())
}

#[test]
fn terminal_is_handed_out_once() {
    let (mut c, mut s) = running(0);
    assert!(s.publish(Progress::Current(1)));
    assert!(s.publish(Progress::Completed("done".to_string())));
    let mut terminals = 0;
    for _ in 0..10 {
        if let Some(p) = c.poll(&mut s) {
            if p.is_terminal() {
                terminals += 1;
                assert_eq!(p, Report::Completed("done".to_string()));
            }
        }
    }
    assert_eq!(terminals, 1);
    assert!(c.is_done());
    assert_eq!(c.state(), TaskState::Done);
}

#[test]
fn poll_does_not_wait_for_unfinished_work() {
    let (mut c, mut s) = running(0);
    assert_eq!(c.poll(&mut s), None);
    assert!(s.publish(Progress::Current(3)));
    assert!(s.publish(Progress::Current(4)));
    assert_eq!(c.poll(&mut s), Some(Report::Current(4)));
    assert_eq!(c.poll(&mut s), None);
    assert_eq!(c.state(), TaskState::Running);
}

#[test]
fn second_trigger_starts_nothing() {
    let mut c = TaskController::new(0);
    let mut workers = 0;
    for _ in 0..2 {
        if c.trigger() {
            workers += 1;
        }
    }
    assert_eq!(workers, 1);
    assert_eq!(c.state(), TaskState::Running);
}

#[test]
fn cooperative_payload_ends_canceled() {
    let (mut c, mut s) = running(0);
    // step one
    assert!(!s.is_canceled());
    assert!(s.publish(Progress::Current(1)));
    assert_eq!(c.poll(&mut s), Some(Report::Current(1)));
    c.cancel(&mut s);
    // step two looks at the flag before finishing
    let last = if s.is_canceled() { Progress::Canceled } else { Progress::Completed("done".to_string()) };
    assert!(s.publish(last));
    assert_eq!(c.poll(&mut s), Some(Report::Canceled));
    assert!(c.is_done());
}

#[test]
fn uncooperative_payload_still_completes() {
    let (mut c, mut s) = running(0);
    c.cancel(&mut s);
    c.cancel(&mut s);
    assert!(s.is_canceled());
    assert!(s.publish(Progress::Completed("done".to_string())));
    assert_eq!(c.poll(&mut s), Some(Report::Completed("done".to_string())));
    let mut t = TaskController::new(0);
    let mut u: TaskSlot<u32, String, String> = TaskSlot::new();
    assert!(t.trigger());
    assert!(u.publish(Progress::Error("bad".to_string())));
    c.cancel(&mut u);
    assert!(!u.is_canceled());
    assert_eq!(t.poll(&mut u), Some(Report::Error("bad".to_string())));
}

#[test]
fn reports_are_routed_by_id() {
    let mut board = TaskBoard::new(2);
    let mut slots: Vec<TaskSlot<u32, String, String>> = vec![TaskSlot::new(), TaskSlot::new()];
    for (i, id) in [(0usize, 0usize), (1, 1)] {
        let mut c = TaskController::new(id);
        assert!(c.trigger());
        assert!(board.install(i, c).is_none());
    }
    assert!(slots[0].publish(Progress::Completed("raster".to_string())));
    assert!(slots[1].publish(Progress::Completed("vector".to_string())));
    let mut raster = Vec::new();
    let mut vector = Vec::new();
    for i in [1usize, 0] {
        match board.poll_entry(i, &mut slots[i]) {
            Some((0, p)) => raster.push(p),
            Some((1, p)) => vector.push(p),
            other => panic!("unexpected report {:?}", other),
        }
    }
    assert_eq!(raster, vec![Report::Completed("raster".to_string())]);
    assert_eq!(vector, vec![Report::Completed("vector".to_string())]);
    assert_eq!(board.busy_count(), 0);
}

#[test]
fn failure_becomes_error() {
    let (mut c, mut s) = running(0);
    let failed: Report = conclude(None, "task panicked".to_string());
    assert_eq!(failed, Report::Error("task panicked".to_string()));
    assert!(s.publish(failed));
    assert_eq!(c.poll(&mut s), Some(Report::Error("task panicked".to_string())));
    let unfinished: Report = conclude(Some(Progress::Current(2)), "no result".to_string());
    assert_eq!(unfinished, Report::Error("no result".to_string()));
    let kept: Report = conclude(Some(Progress::Canceled), "unused".to_string());
    assert_eq!(kept, Report::Canceled);
    let ok: Report = conclude(Some(Progress::Completed("x".to_string())), "unused".to_string());
    assert_eq!(ok, Report::Completed("x".to_string()));
}

#[test]
fn nothing_before_trigger() {
    let mut c = TaskController::new(5);
    let mut s: TaskSlot<u32, String, String> = TaskSlot::new();
    assert_eq!(c.poll(&mut s), None);
    assert_eq!(c.state(), TaskState::Pending);
    assert_eq!(c.id(), 5);
    assert!(!c.is_done());
}

#[test]
fn slot_refuses_reports_after_terminal() {
    let mut s: TaskSlot<u32, String, String> = TaskSlot::new();
    assert!(!s.is_finished());
    assert!(s.publish(Progress::Canceled));
    assert!(s.is_finished());
    assert!(!s.publish(Progress::Current(1)));
    assert!(!s.publish(Progress::Completed("late".to_string())));
    let (mut c, _) = running(2);
    assert_eq!(c.poll(&mut s), Some(Report::Canceled));
    assert_eq!(c.poll(&mut s), None);
    assert_eq!(c.id(), 2);
}

#[test]
fn cancel_after_done_has_no_effect() {
    let (mut c, mut s) = running(0);
    assert!(s.publish(Progress::Completed("done".to_string())));
    assert!(c.poll(&mut s).is_some());
    c.cancel(&mut s);
    assert!(!s.is_canceled());
    assert!(!c.trigger());
    assert_eq!(c.poll(&mut s), None);
}

#[test]
fn cancel_before_trigger_is_seen_by_worker() {
    let mut c = TaskController::new(0);
    let mut s: TaskSlot<u32, String, String> = TaskSlot::new();
    c.cancel(&mut s);
    assert!(c.trigger());
    assert!(s.is_canceled());
}

#[test]
fn board_counts_ticks_and_cancels_on_next_report() {
    let mut board = TaskBoard::new(3);
    assert_eq!(board.len(), 3);
    assert_eq!(board.busy_count(), 0);
    let mut s: TaskSlot<u32, String, String> = TaskSlot::new();
    assert_eq!(board.poll_entry(2, &mut s), None);
    board.want_cancel(2);
    assert!(!board.cancel_wanted(2));
    let mut c = TaskController::new(7);
    assert!(c.trigger());
    assert!(board.install(2, c).is_none());
    assert_eq!(board.busy_count(), 1);
    assert_eq!(board.task_id(2), Some(7));
    assert_eq!(board.task_id(0), None);
    assert!(s.publish(Progress::Current(1)));
    assert_eq!(board.poll_entry(2, &mut s), Some((7, Report::Current(1))));
    assert_eq!(board.ticks(2), 1);
    assert_eq!(board.poll_entry(2, &mut s), None);
    assert_eq!(board.ticks(2), 1);
    board.want_cancel(2);
    assert!(board.cancel_wanted(2));
    assert!(!s.is_canceled());
    assert!(s.publish(Progress::Current(2)));
    assert_eq!(board.poll_entry(2, &mut s), Some((7, Report::Current(2))));
    assert_eq!(board.ticks(2), 2);
    assert!(s.is_canceled());
    assert!(s.publish(Progress::Canceled));
    assert_eq!(board.poll_entry(2, &mut s), Some((7, Report::Canceled)));
    assert_eq!(board.ticks(2), 0);
    assert!(!board.cancel_wanted(2));
    assert_eq!(board.task_id(2), None);
    assert_eq!(board.busy_count(), 0);
}

#[test]
fn install_hands_back_previous_task() {
    let mut board = TaskBoard::new(1);
    let mut s: TaskSlot<u32, String, String> = TaskSlot::new();
    let mut first = TaskController::new(1);
    assert!(first.trigger());
    assert!(board.install(0, first).is_none());
    assert!(s.publish(Progress::Current(9)));
    assert!(board.poll_entry(0, &mut s).is_some());
    board.want_cancel(0);
    let second = TaskController::new(4);
    let prev = board.install(0, second).expect("a task was held");
    assert_eq!(prev.id(), 1);
    assert_eq!(board.task_id(0), Some(4));
    assert_eq!(board.ticks(0), 0);
    assert!(!board.cancel_wanted(0));
    prev.cancel(&mut s);
    assert!(s.is_canceled());
}
