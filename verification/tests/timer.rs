use harvux::clock::Timestamp;
use harvux::models::{Client, Project, Task, TaskAssignment, TimeEntry, TimeEntryProject, TimeEntryTask};
use harvux::timer::{project_display_name, LastStopped, TimerButton, TimerCommand, TimerState};

fn project(id: i64, name: &str, client: Option<&str>) -> Project {
    Project {
        id,
        name: name.to_string(),
        code: None,
        is_active: true,
        is_billable: true,
        client: client.map(|c| Client { id: 100 + id, name: c.to_string() }),
    }
}

fn assignment(id: i64, task_id: i64, name: &str) -> TaskAssignment {
    TaskAssignment { id, task: Task { id: task_id, name: name.to_string() }, is_active: true, billable: None }
}

fn entry(id: i64, project: Option<(i64, &str)>, task: Option<(i64, &str)>, seconds: i64, running: bool, notes: Option<&str>) -> TimeEntry {
    TimeEntry {
        id,
        spent_date: "2024-05-01".to_string(),
        seconds,
        rounded_seconds: None,
        notes: notes.map(|n| n.to_string()),
        is_running: running,
        timer_started_at: None,
        started_time: None,
        ended_time: None,
        project: project.map(|(pid, n)| TimeEntryProject { id: pid, name: n.to_string(), code: None }),
        task: task.map(|(tid, n)| TimeEntryTask { id: tid, name: n.to_string() }),
        client: None,
        user: None,
    }
}

fn at(secs: i64) -> Timestamp {
    Timestamp { secs, nanos: 0 }
}

/// A page with two projects loaded, the first selected, and its tasks loaded.
fn loaded_page() -> TimerState {
    let mut s = TimerState::new();
    let names = s.on_projects_loaded(vec![project(1, "Website", Some("Acme")), project(2, "Internal", None)]);
    assert_eq!(names, vec!["Acme - Website".to_string(), "Internal".to_string()]);
    assert_eq!(s.on_project_selected(Some(0)), Some(1));
    assert!(!s.task_row_sensitive);
    let plan = s.on_tasks_loaded(0, vec![assignment(10, 7, "Design"), assignment(11, 8, "Meetings")]);
    assert_eq!(plan.names, vec!["Design".to_string(), "Meetings".to_string()]);
    assert_eq!(plan.select, Some(0));
    assert_eq!(plan.restore, None);
    assert!(s.task_row_sensitive);
    s.on_task_selected(true, true);
    s.finish_tasks_loaded(&plan);
    assert!(s.button_sensitive);
    s
}

#[test]
fn display_names() {
    assert_eq!(project_display_name(&project(1, "Website", Some("Acme"))), "Acme - Website");
    assert_eq!(project_display_name(&project(2, "Internal", None)), "Internal");
}

#[test]
fn a_click_without_selection_does_nothing() {
    let mut s = TimerState::new();
    assert_eq!(s.on_timer_clicked_at(None, Some(0), "x".to_string(), "2024-05-01".to_string()), TimerCommand::Nothing);
    assert_eq!(s.on_timer_clicked_at(Some(0), None, "x".to_string(), "2024-05-01".to_string()), TimerCommand::Nothing);
}

#[test]
fn first_start_creates_an_entry() {
    let mut s = loaded_page();
    match s.on_timer_clicked_at(Some(0), Some(1), String::new(), "2024-05-01".to_string()) {
        TimerCommand::Create { entry } => {
            assert_eq!((entry.project_id, entry.task_id), (1, 8));
            assert_eq!(entry.spent_date, "2024-05-01");
            assert_eq!(entry.seconds, None);
            assert_eq!(entry.notes, None);
        }
        other => panic!("expected a new entry, got {other:?}"),
    }
    assert!(!s.button_sensitive);
    let mut s2 = loaded_page();
    match s2.on_timer_clicked_at(Some(0), Some(0), "Homepage".to_string(), "d".to_string()) {
        TimerCommand::Create { entry } => assert_eq!(entry.notes.as_deref(), Some("Homepage")),
        other => panic!("expected a new entry, got {other:?}"),
    }
}

#[test]
fn stop_then_start_restarts_the_same_entry() {
    let mut s = loaded_page();
    s.on_start_succeeded_at(55, false, at(1000));
    assert_eq!(s.running_entry_id, Some(55));
    assert_eq!(s.button, TimerButton::StopTimer);
    assert_eq!(s.button.label(), "Stop Timer");
    assert_eq!(s.tick_label_at(at(1000 + 3725)).as_deref(), Some("01:02:05"));

    let stop = s.on_timer_clicked_at(Some(0), Some(0), "notes".to_string(), "d".to_string());
    let (pid, tid) = match &stop {
        TimerCommand::Stop { entry_id, update, stopped_project_id, stopped_task_id } => {
            assert_eq!(*entry_id, 55);
            assert_eq!(update.notes.as_deref(), Some("notes"));
            assert_eq!(update.project_id, None);
            (*stopped_project_id, *stopped_task_id)
        }
        other => panic!("expected a stop, got {other:?}"),
    };
    assert_eq!((pid, tid), (Some(1), Some(7)));
    s.on_stop_succeeded_at(55, pid, tid, at(1000 + 90));
    assert_eq!(s.running_entry_id, None);
    assert_eq!(s.running_seconds, 90);
    assert_eq!(s.tick_label_at(at(5000)), None);
    assert_eq!(s.button.label(), "Start Timer");

    match s.on_timer_clicked_at(Some(0), Some(0), "more".to_string(), "d".to_string()) {
        TimerCommand::Restart { entry_id, update } => {
            assert_eq!(entry_id, 55);
            assert_eq!(update.notes.as_deref(), Some("more"));
        }
        other => panic!("expected a restart, got {other:?}"),
    }
    s.on_start_succeeded_at(55, true, at(2000));
    assert_eq!(s.running_seconds, 90);
    assert_eq!(s.tick_label_at(at(2010)).as_deref(), Some("00:01:40"));
}

#[test]
fn another_task_starts_a_new_entry() {
    let mut s = loaded_page();
    s.on_start_succeeded_at(55, false, at(1000));
    let _ = s.on_timer_clicked_at(Some(0), Some(0), String::new(), "d".to_string());
    s.on_stop_succeeded_at(55, Some(1), Some(7), at(1100));
    s.on_task_selected(true, true);
    assert_eq!(s.last_stopped_entry_id, None);
    assert!(matches!(
        s.on_timer_clicked_at(Some(0), Some(0), String::new(), "d".to_string()),
        TimerCommand::Create { .. }
    ));
}

#[test]
fn failed_requests_enable_the_button() {
    let mut s = loaded_page();
    let _ = s.on_timer_clicked_at(Some(0), Some(0), String::new(), "d".to_string());
    assert!(!s.button_sensitive);
    s.on_request_failed();
    assert!(s.button_sensitive);
    assert_eq!(s.running_entry_id, None);
}

#[test]
fn entries_list_rows_and_total() {
    let mut s = loaded_page();
    let view = s.on_entries_loaded_at(
        vec![
            entry(1, Some((1, "Website")), Some((7, "Design")), 5400, false, Some("Homepage")),
            entry(2, None, None, 1800, false, None),
            entry(3, Some((2, "Internal")), Some((8, "Meetings")), 600, true, None),
        ],
        at(4000),
    );
    assert_eq!(view.rows.len(), 3);
    assert_eq!(view.rows[0].title, "Website · Design");
    assert_eq!(view.rows[0].subtitle, "Homepage\n1h 30m");
    assert_eq!(view.rows[0].time_text, "1h 30m");
    assert!(view.rows[0].activatable);
    assert_eq!(view.rows[1].title, "Unknown · Unknown");
    assert_eq!(view.rows[1].subtitle, "30m");
    assert!(view.rows[2].running);
    assert!(!view.rows[2].activatable);
    assert_eq!(view.total_label, "2h 10m");
    // The running entry takes over the timer.
    assert_eq!(s.running_entry_id, Some(3));
    assert_eq!(s.running_seconds, 600);
    assert!(s.ticking);
    assert_eq!(s.tick_label_at(at(4001)).as_deref(), Some("00:10:01"));
    assert_eq!(s.time_entries.len(), 3);
}

#[test]
fn picked_entry_is_restarted() {
    let mut s = loaded_page();
    let _ = s.on_entries_loaded_at(
        vec![
            entry(1, Some((2, "Internal")), Some((8, "Meetings")), 1200, false, Some("Standup")),
            entry(2, Some((1, "Website")), Some((7, "Design")), 60, true, None),
        ],
        at(0),
    );
    // A running entry cannot be picked.
    assert_eq!(s.on_entry_activated(1), None);
    assert_eq!(s.on_entry_activated(9), None);
    s.running_entry_id = None;
    let picked = s.on_entry_activated(0).expect("stopped entry");
    assert_eq!(picked.project_index, Some(1));
    assert_eq!(picked.notes, "Standup");
    assert_eq!(s.running_seconds, 1200);
    assert_eq!(s.on_project_selected(picked.project_index), Some(2));
    let plan = s.on_tasks_loaded(1, vec![assignment(20, 9, "Admin"), assignment(21, 8, "Meetings")]);
    assert_eq!(plan.select, Some(1));
    assert_eq!(plan.restore, Some(LastStopped { entry_id: 1, project_id: Some(2), task_id: 8 }));
    s.on_task_selected(true, true);
    s.finish_tasks_loaded(&plan);
    match s.on_timer_clicked_at(Some(1), plan.select, picked.notes.clone(), "d".to_string()) {
        TimerCommand::Restart { entry_id, .. } => assert_eq!(entry_id, 1),
        other => panic!("expected a restart, got {other:?}"),
    }
}

#[test]
fn current_user_and_failed_tasks() {
    let mut s = TimerState::new();
    s.on_current_user(None);
    assert_eq!(s.user_id, None);
    s.on_current_user(Some(12));
    assert_eq!(s.user_id, Some(12));
    s.on_tasks_failed();
    assert!(!s.task_row_sensitive);
    assert_eq!(s.on_project_selected(None), None);
    assert_eq!(s.on_project_selected(Some(3)), None);
}

#[test]
fn clicks_with_selections_outside_the_lists_are_refused() {
    let s = loaded_page();
    assert!(s.click_allowed(Some(1), Some(1)));
    assert!(!s.click_allowed(Some(2), Some(0)));
    assert!(!s.click_allowed(Some(0), Some(5)));
    assert!(s.click_allowed(None, Some(5)));
}

#[test]
fn handlers_that_read_the_clock() {
    let mut s = loaded_page();
    assert_eq!(s.tick_label(), None);
    s.on_start_succeeded(77, false);
    assert_eq!(s.running_entry_id, Some(77));
    let label = s.tick_label().expect("running clock");
    assert!(label.starts_with("00:00:0"), "{label}");
    s.on_stop_succeeded(77, Some(1), Some(7));
    assert_eq!(s.last_stopped_entry_id, Some(77));
    assert!(s.running_seconds >= 0 && s.running_seconds < 5);
    let view = s.on_entries_loaded(vec![entry(5, None, None, 60, true, None)]);
    assert_eq!(view.total_label, "0h 01m");
    assert_eq!(s.running_entry_id, Some(5));
    let start = s.timer_started_at.expect("started");
    assert!(start.secs > 1_600_000_000 && start.nanos < 2_000_000_000);
}

#[test]
fn request_for_todays_entries() {
    let mut s = TimerState::new();
    let r = s.entries_request();
    assert_eq!(r.path, "/time_entries");
    assert_eq!(r.query.len(), 2);
    assert_eq!(r.query[0].0, "from");
    assert_eq!(r.query[0].1, r.query[1].1);
    assert_eq!(r.query[0].1.len(), 10);
    s.on_current_user(Some(31));
    let r = s.entries_request();
    assert_eq!(r.query[2], ("user_id".to_string(), "31".to_string()));
}
