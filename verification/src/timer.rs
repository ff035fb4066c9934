//! The timer page's state and the decisions it takes: what a click on the
//! timer button sends, what each reply changes, which entry a selection
//! restarts, and what the running clock shows.
use crate::api::{list_time_entries_request, query_text, ApiRequest, HttpMethod};
use crate::clock::{is_date_text, local_date_today, seconds_between, utc_now, whole_seconds_between, Timestamp};
use crate::text::int_text;
use crate::models::{notes_update, CreateTimeEntry, Project, TaskAssignment, TimeEntry, UpdateTimeEntry};
use crate::text::{clock_text, entry_duration, entry_duration_text, total_duration, total_duration_text};
use vstd::prelude::*;
use vstd::arithmetic::div_mod::{lemma_div_is_ordered, lemma_div_multiples_vanish, lemma_div_pos_is_pos};

verus! {

/// What the timer button offers.
#[derive(Debug, Clone, Copy, PartialEq, Eq)]
pub enum TimerButton {
    StartTimer,
    StopTimer,
}

impl TimerButton {
    pub open spec fn label_text(self) -> Seq<char> {
        match self {
            TimerButton::StartTimer => "Start Timer"@,
            TimerButton::StopTimer => "Stop Timer"@,
        }
    }

    /// The button's label.
    pub fn label(&self) -> (s: String)
        ensures
            s@ == self.label_text(),
    {
        match self {
            TimerButton::StartTimer => String::from_str("Start Timer"),
            TimerButton::StopTimer => String::from_str("Stop Timer"),
        }
    }
}

/// The state behind the timer page.
///
/// `last_stopped_*` remember the entry stopped last and the project and task
/// it was stopped under, so that starting again with the same selection
/// restarts it; `pending_*` carry an entry picked from the list until the
/// tasks of its project have loaded. `running_seconds` is the time the running
/// (or last stopped) entry had before `timer_started_at`.
#[derive(Debug)]
pub struct TimerState {
    pub projects: Vec<Project>,
    pub task_assignments: Vec<TaskAssignment>,
    pub time_entries: Vec<TimeEntry>,
    pub user_id: Option<i64>,
    pub running_entry_id: Option<i64>,
    pub last_stopped_entry_id: Option<i64>,
    pub last_stopped_project_id: Option<i64>,
    pub last_stopped_task_id: Option<i64>,
    pub pending_task_id: Option<i64>,
    pub pending_entry_id: Option<i64>,
    pub ticking: bool,
    pub timer_started_at: Option<Timestamp>,
    pub running_seconds: i64,
    pub button: TimerButton,
    pub button_sensitive: bool,
    pub task_row_sensitive: bool,
}

/// What a click on the timer button asks of the service.
#[derive(Debug, Clone, PartialEq, Eq)]
pub enum TimerCommand {
    /// Nothing: no project or no task is selected.
    Nothing,
    /// Save the notes on the running entry, then stop it. The project and task
    /// selected at the click are remembered once the stop succeeds.
    Stop {
        entry_id: i64,
        update: UpdateTimeEntry,
        stopped_project_id: Option<i64>,
        stopped_task_id: Option<i64>,
    },
    /// Save the notes on the entry stopped last, then restart it.
    Restart { entry_id: i64, update: UpdateTimeEntry },
    /// Create a new running entry.
    Create { entry: CreateTimeEntry },
}

/// The entry stopped last, as restored once an entry picked from the list
/// has its project's tasks loaded.
#[derive(Debug, Clone, Copy, PartialEq, Eq)]
pub struct LastStopped {
    pub entry_id: i64,
    pub project_id: Option<i64>,
    pub task_id: i64,
}

/// What the page does once a project's tasks have loaded: the task names to
/// show, the task to select, and, after that selection has been made, the
/// entry to remember and whether to enable the button.
#[derive(Debug, Clone, PartialEq, Eq)]
pub struct TasksLoaded {
    pub names: Vec<String>,
    pub select: Option<usize>,
    pub restore: Option<LastStopped>,
    pub enable_button: bool,
}

/// An entry picked from the list: the index of its project in the project
/// list, if it is there, and its notes for the notes field.
#[derive(Debug, Clone, PartialEq, Eq)]
pub struct EntrySelection {
    pub project_index: Option<usize>,
    pub notes: String,
}

/// The id of the project at a selected index.
pub open spec fn project_at(s: TimerState, sel: Option<usize>) -> Option<i64> {
    match sel {
        Some(i) => if i < s.projects@.len() {
            Some(s.projects@[i as int].id)
        } else {
            None
        },
        None => None,
    }
}

/// The id of the task at a selected index.
pub open spec fn task_at(s: TimerState, sel: Option<usize>) -> Option<i64> {
    match sel {
        Some(i) => if i < s.task_assignments@.len() {
            Some(s.task_assignments@[i as int].task.id)
        } else {
            None
        },
        None => None,
    }
}

/// Both selections, when made, are within the lists.
pub open spec fn selection_in_range(s: TimerState, project_sel: Option<usize>, task_sel: Option<usize>) -> bool {
    match (project_sel, task_sel) {
        (Some(p), Some(t)) => p < s.projects@.len() && t < s.task_assignments@.len(),
        _ => true,
    }
}

/// The state with no entry remembered as stopped last.
pub open spec fn forget_last_stopped(s: TimerState) -> TimerState {
    TimerState { last_stopped_entry_id: None, last_stopped_project_id: None, last_stopped_task_id: None, ..s }
}

/// Starting with this project and task restarts the entry stopped last.
pub open spec fn should_restart(s: TimerState, project_id: i64, task_id: i64) -> bool {
    &&& s.last_stopped_entry_id is Some
    &&& s.last_stopped_project_id == Some(project_id)
    &&& s.last_stopped_task_id == Some(task_id)
}

/// An update that replaces only the notes, with these notes.
pub open spec fn is_notes_update(u: UpdateTimeEntry, notes: Seq<char>) -> bool {
    &&& u.project_id is None
    &&& u.task_id is None
    &&& u.spent_date is None
    &&& u.seconds is None
    &&& u.notes matches Some(n) && n@ == notes
}

/// A click on the timer button, with the given selections and notes, on the
/// given day: from state `s` to state `s2`, asking `cmd`.
pub open spec fn click_outcome(
    s: TimerState,
    project_sel: Option<usize>,
    task_sel: Option<usize>,
    notes: Seq<char>,
    today: Seq<char>,
    s2: TimerState,
    cmd: TimerCommand,
) -> bool {
    match s.running_entry_id {
        Some(running) => {
            &&& cmd matches TimerCommand::Stop { entry_id, update, stopped_project_id, stopped_task_id }
            &&& entry_id == running
            &&& is_notes_update(update, notes)
            &&& stopped_project_id == project_at(s, project_sel)
            &&& stopped_task_id == task_at(s, task_sel)
            &&& s2 == TimerState { button_sensitive: false, ..s }
        },
        None => match (project_sel, task_sel) {
            (Some(p), Some(t)) => {
                let project_id = s.projects@[p as int].id;
                let task_id = s.task_assignments@[t as int].task.id;
                &&& s2 == TimerState { button_sensitive: false, ..s }
                &&& if should_restart(s, project_id, task_id) {
                    &&& cmd matches TimerCommand::Restart { entry_id, update }
                    &&& entry_id == s.last_stopped_entry_id->0
                    &&& is_notes_update(update, notes)
                } else {
                    &&& cmd matches TimerCommand::Create { entry }
                    &&& entry.project_id == project_id
                    &&& entry.task_id == task_id
                    &&& entry.spent_date@ == today
                    &&& entry.seconds is None
                    &&& if notes.len() == 0 {
                        entry.notes is None
                    } else {
                        entry.notes matches Some(n) && n@ == notes
                    }
                }
            },
            _ => cmd == TimerCommand::Nothing && s2 == s,
        },
    }
}

/// A start (`restarted == false`) or restart that the service confirmed.
pub open spec fn start_succeeded(s: TimerState, entry_id: i64, restarted: bool, now: Timestamp, s2: TimerState) -> bool {
    s2 == TimerState {
        running_entry_id: Some(entry_id),
        last_stopped_entry_id: None,
        last_stopped_project_id: None,
        last_stopped_task_id: None,
        timer_started_at: Some(now),
        running_seconds: if restarted {
            s.running_seconds
        } else {
            0
        },
        button: TimerButton::StopTimer,
        button_sensitive: true,
        ticking: true,
        ..s
    }
}

/// `x` held to the range of `i64`.
pub open spec fn clamp_i64(x: int) -> int {
    if x > i64::MAX {
        i64::MAX as int
    } else if x < i64::MIN {
        i64::MIN as int
    } else {
        x
    }
}

/// A stop that the service confirmed.
pub open spec fn stop_succeeded(
    s: TimerState,
    entry_id: i64,
    stopped_project_id: Option<i64>,
    stopped_task_id: Option<i64>,
    now: Timestamp,
    s2: TimerState,
) -> bool {
    s2 == TimerState {
        running_entry_id: None,
        running_seconds: match s.timer_started_at {
            Some(start) => clamp_i64(s.running_seconds + whole_seconds_between(start, now)) as i64,
            None => s.running_seconds,
        },
        timer_started_at: None,
        last_stopped_entry_id: Some(entry_id),
        last_stopped_project_id: stopped_project_id,
        last_stopped_task_id: stopped_task_id,
        ticking: false,
        button: TimerButton::StartTimer,
        button_sensitive: true,
        ..s
    }
}

/// A change of the selected project: a real selection forgets the entry
/// stopped last and, when it is within the list, disables the task row while
/// that project's tasks load.
pub open spec fn project_selected(s: TimerState, sel: Option<usize>, s2: TimerState, load: Option<i64>) -> bool {
    match sel {
        None => s2 == s && load is None,
        Some(i) => if i < s.projects@.len() {
            &&& s2 == TimerState { task_row_sensitive: false, ..forget_last_stopped(s) }
            &&& load == Some(s.projects@[i as int].id)
        } else {
            s2 == forget_last_stopped(s) && load is None
        },
    }
}

/// A change of the selected task: the button is enabled exactly when both a
/// project and a task are selected, and the entry stopped last is forgotten.
pub open spec fn task_selected(s: TimerState, has_task: bool, has_project: bool, s2: TimerState) -> bool {
    s2 == TimerState { button_sensitive: has_task && has_project, ..forget_last_stopped(s) }
}

/// `i` is the first index of a task with this id.
pub open spec fn is_first_task_index(a: Seq<TaskAssignment>, task_id: i64, i: int) -> bool {
    &&& 0 <= i < a.len()
    &&& a[i].task.id == task_id
    &&& forall|j: int| 0 <= j < i ==> a[j].task.id != task_id
}

/// No task has this id.
pub open spec fn has_no_task(a: Seq<TaskAssignment>, task_id: i64) -> bool {
    forall|j: int| 0 <= j < a.len() ==> a[j].task.id != task_id
}

/// The tasks of the project at `project_idx` loaded.
pub open spec fn tasks_loaded(
    s: TimerState,
    project_idx: usize,
    a: Seq<TaskAssignment>,
    s2: TimerState,
    plan: TasksLoaded,
) -> bool {
    &&& plan.names@.len() == a.len()
    &&& forall|i: int| 0 <= i < a.len() ==> (#[trigger] plan.names@[i])@ == a[i].task.name@
    &&& s2.task_assignments@ == a
    &&& if a.len() == 0 {
        &&& plan.select is None
        &&& plan.restore is None
        &&& !plan.enable_button
        &&& s2 == TimerState { task_row_sensitive: true, task_assignments: s2.task_assignments, ..s }
    } else {
        match s.pending_task_id {
            None => {
                &&& plan.select == Some(0usize)
                &&& plan.restore is None
                &&& !plan.enable_button
                &&& s2 == TimerState { task_row_sensitive: true, task_assignments: s2.task_assignments, ..s }
            },
            Some(target) => {
                &&& plan.select matches Some(k) && (is_first_task_index(a, target, k as int) || (has_no_task(
                    a,
                    target,
                ) && k == 0))
                &&& plan.restore == (match s.pending_entry_id {
                    Some(entry_id) => Some(
                        LastStopped { entry_id, project_id: project_at(s, Some(project_idx)), task_id: target },
                    ),
                    None => None,
                })
                &&& plan.enable_button
                &&& s2 == TimerState {
                    task_row_sensitive: true,
                    task_assignments: s2.task_assignments,
                    pending_task_id: None,
                    pending_entry_id: None,
                    ..s
                }
            },
        }
    }
}

/// The second half of loading tasks, after the task has been selected.
pub open spec fn tasks_load_finished(s: TimerState, plan: TasksLoaded, s2: TimerState) -> bool {
    let s1 = match plan.restore {
        Some(r) => TimerState {
            last_stopped_entry_id: Some(r.entry_id),
            last_stopped_project_id: r.project_id,
            last_stopped_task_id: Some(r.task_id),
            ..s
        },
        None => s,
    };
    s2 == if plan.enable_button {
        TimerState { button_sensitive: true, ..s1 }
    } else {
        s1
    }
}

/// `i` is the first index of a project with this id.
pub open spec fn is_first_project_index(p: Seq<Project>, project_id: i64, i: int) -> bool {
    &&& 0 <= i < p.len()
    &&& p[i].id == project_id
    &&& forall|j: int| 0 <= j < i ==> p[j].id != project_id
}

/// An entry of the list was activated.
pub open spec fn entry_activated(s: TimerState, idx: usize, s2: TimerState, sel: Option<EntrySelection>) -> bool {
    if idx < s.time_entries@.len() && !s.time_entries@[idx as int].is_running
        && s.time_entries@[idx as int].project is Some && s.time_entries@[idx as int].task is Some {
        let e = s.time_entries@[idx as int];
        let project_id = e.project->0.id;
        &&& s2 == TimerState {
            pending_task_id: Some(e.task->0.id),
            pending_entry_id: Some(e.id),
            running_seconds: e.seconds,
            ..s
        }
        &&& sel matches Some(es)
        &&& match es.project_index {
            Some(k) => is_first_project_index(s.projects@, project_id, k as int),
            None => forall|j: int| 0 <= j < s.projects@.len() ==> s.projects@[j].id != project_id,
        }
        &&& es.notes@ == (match e.notes {
            Some(n) => n@,
            None => Seq::<char>::empty(),
        })
    } else {
        s2 == s && sel is None
    }
}

/// The text shown for a project: `"{client} - {project}"`, or the project's
/// name when it has no client.
pub open spec fn project_display_text(p: Project) -> Seq<char> {
    match p.client {
        Some(c) => c.name@ + " - "@ + p.name@,
        None => p.name@,
    }
}

/// The text shown for a project.
pub fn project_display_name(p: &Project) -> (s: String)
    ensures
        s@ == project_display_text(*p),
{
    match &p.client {
        Some(c) => c.name.clone().concat(" - ").concat(p.name.as_str()),
        None => p.name.clone(),
    }
}

fn selected_project_id(projects: &Vec<Project>, sel: Option<usize>) -> (r: Option<i64>)
    ensures
        r == (match sel {
            Some(i) => if i < projects@.len() {
                Some(projects@[i as int].id)
            } else {
                None
            },
            None => None::<i64>,
        }),
{
    match sel {
        Some(i) => if i < projects.len() {
            Some(projects[i].id)
        } else {
            None
        },
        None => None,
    }
}

fn selected_task_id(tasks: &Vec<TaskAssignment>, sel: Option<usize>) -> (r: Option<i64>)
    ensures
        r == (match sel {
            Some(i) => if i < tasks@.len() {
                Some(tasks@[i as int].task.id)
            } else {
                None
            },
            None => None::<i64>,
        }),
{
    match sel {
        Some(i) => if i < tasks.len() {
            Some(tasks[i].task.id)
        } else {
            None
        },
        None => None,
    }
}

/// One row of today's entry list.
#[derive(Debug, Clone, PartialEq, Eq)]
pub struct EntryRow {
    pub title: String,
    pub subtitle: String,
    /// Only stopped entries can be activated (to restart them).
    pub activatable: bool,
    /// A running entry shows "Running" in place of its time.
    pub running: bool,
    pub time_text: String,
}

/// The rows of today's entries and the day's total.
#[derive(Debug, Clone, PartialEq, Eq)]
pub struct EntriesView {
    pub rows: Vec<EntryRow>,
    pub total_label: String,
}

/// The name shown for an entry's project or task when it has none.
pub open spec fn unknown_text() -> Seq<char> {
    "Unknown"@
}

/// A row's title: `"{project} · {task}"`.
pub open spec fn entry_title_text(e: TimeEntry) -> Seq<char> {
    (match e.project {
        Some(p) => p.name@,
        None => unknown_text(),
    }) + " · "@ + (match e.task {
        Some(t) => t.name@,
        None => unknown_text(),
    })
}

/// A row's subtitle: the entry's time, below its notes when it has any.
pub open spec fn entry_subtitle_text(e: TimeEntry) -> Seq<char> {
    let notes = match e.notes {
        Some(n) => n@,
        None => Seq::<char>::empty(),
    };
    if notes.len() == 0 {
        entry_duration_text(e.seconds as int)
    } else {
        notes + "\n"@ + entry_duration_text(e.seconds as int)
    }
}

/// The row shown for an entry.
pub open spec fn row_shows(r: EntryRow, e: TimeEntry) -> bool {
    &&& r.title@ == entry_title_text(e)
    &&& r.subtitle@ == entry_subtitle_text(e)
    &&& r.activatable == !e.is_running
    &&& r.running == e.is_running
    &&& r.time_text@ == entry_duration_text(e.seconds as int)
}

/// The sum of the entries' seconds.
pub open spec fn total_seconds(entries: Seq<TimeEntry>) -> int
    decreases entries.len(),
{
    if entries.len() == 0 {
        0
    } else {
        total_seconds(entries.drop_last()) + entries.last().seconds
    }
}

/// The last running entry of the list.
pub open spec fn last_running(entries: Seq<TimeEntry>) -> Option<TimeEntry>
    decreases entries.len(),
{
    if entries.len() == 0 {
        None
    } else if entries.last().is_running {
        Some(entries.last())
    } else {
        last_running(entries.drop_last())
    }
}

/// The state taken over from a running entry at `now`.
pub open spec fn take_over_running(s: TimerState, e: TimeEntry, now: Timestamp) -> TimerState {
    TimerState {
        running_entry_id: Some(e.id),
        running_seconds: e.seconds,
        timer_started_at: Some(now),
        button: TimerButton::StopTimer,
        button_sensitive: true,
        ticking: true,
        ..s
    }
}

/// Today's entries loaded at `now`: the rows and total shown, and the timer
/// taken over from the last running entry, if any.
pub open spec fn entries_loaded(s: TimerState, entries: Seq<TimeEntry>, now: Timestamp, s2: TimerState, view: EntriesView) -> bool {
    &&& view.rows@.len() == entries.len()
    &&& forall|i: int| 0 <= i < entries.len() ==> row_shows(#[trigger] view.rows@[i], entries[i])
    &&& view.total_label@ == total_duration_text(total_seconds(entries))
    &&& s2.time_entries@ == entries
    &&& s2 == (match last_running(entries) {
        Some(e) => TimerState { time_entries: s2.time_entries, ..take_over_running(s, e, now) },
        None => TimerState { time_entries: s2.time_entries, ..s },
    })
}

fn name_or_unknown(name: Option<&String>) -> (s: String)
    ensures
        s@ == (match name {
            Some(n) => n@,
            None => unknown_text(),
        }),
{
    match name {
        Some(n) => n.clone(),
        None => String::from_str("Unknown"),
    }
}

/// The row shown for an entry.
pub fn entry_row(e: &TimeEntry) -> (r: EntryRow)
    ensures
        row_shows(r, *e),
{
    let project_name = name_or_unknown(
        match &e.project {
            Some(p) => Some(&p.name),
            None => None,
        },
    );
    let task_name = name_or_unknown(
        match &e.task {
            Some(t) => Some(&t.name),
            None => None,
        },
    );
    let title = project_name.concat(" · ").concat(task_name.as_str());
    let time_text = entry_duration(e.seconds);
    let notes = match &e.notes {
        Some(n) => n.clone(),
        None => String::new(),
    };
    let subtitle = if notes.as_str().is_empty() {
        time_text.clone()
    } else {
        notes.concat("\n").concat(time_text.as_str())
    };
    EntryRow { title, subtitle, activatable: !e.is_running, running: e.is_running, time_text }
}

proof fn lemma_take_succ<A>(s: Seq<A>, i: int)
    requires
        0 <= i < s.len(),
    ensures
        s.take(i + 1).drop_last() == s.take(i),
        s.take(i + 1).last() == s[i],
        s.take(i + 1).len() == i + 1,
{
    assert(s.take(i + 1).drop_last() =~= s.take(i));
}

impl TimerState {
    /// The page before anything has loaded.
    pub fn new() -> (s: TimerState)
        ensures
            s.projects@.len() == 0,
            s.task_assignments@.len() == 0,
            s.time_entries@.len() == 0,
            s.user_id is None,
            s.running_entry_id is None,
            s.last_stopped_entry_id is None,
            s.last_stopped_project_id is None,
            s.last_stopped_task_id is None,
            s.pending_task_id is None,
            s.pending_entry_id is None,
            !s.ticking,
            s.timer_started_at is None,
            s.running_seconds == 0,
            s.button == TimerButton::StartTimer,
            !s.button_sensitive,
            s.task_row_sensitive,
    {
        TimerState {
            projects: Vec::new(),
            task_assignments: Vec::new(),
            time_entries: Vec::new(),
            user_id: None,
            running_entry_id: None,
            last_stopped_entry_id: None,
            last_stopped_project_id: None,
            last_stopped_task_id: None,
            pending_task_id: None,
            pending_entry_id: None,
            ticking: false,
            timer_started_at: None,
            running_seconds: 0,
            button: TimerButton::StartTimer,
            button_sensitive: false,
            task_row_sensitive: true,
        }
    }

    /// The signed-in user was fetched (`Some` with its id) or could not be;
    /// the entries are refreshed either way.
    pub fn on_current_user(&mut self, user_id: Option<i64>)
        ensures
            *final(self) == (match user_id {
                Some(id) => TimerState { user_id: Some(id), ..*old(self) },
                None => *old(self),
            }),
    {
        if let Some(id) = user_id {
            self.user_id = Some(id);
        }
    }

    /// The projects loaded: they become the project list, and their display
    /// names are returned for the project row (whose first item the page then
    /// selects, when there is one).
    pub fn on_projects_loaded(&mut self, projects: Vec<Project>) -> (names: Vec<String>)
        ensures
            *final(self) == (TimerState { projects, ..*old(self) }),
            names@.len() == projects@.len(),
            forall|i: int| 0 <= i < projects@.len() ==> (#[trigger] names@[i])@ == project_display_text(projects@[i]),
    {
        let mut names: Vec<String> = Vec::new();
        let n = projects.len();
        for i in 0..n
            invariant
                n == projects@.len(),
                names@.len() == i,
                forall|j: int| 0 <= j < i ==> (#[trigger] names@[j])@ == project_display_text(projects@[j]),
        {
            names.push(project_display_name(&projects[i]));
        }
        self.projects = projects;
        names
    }

    /// The selected project changed (`None`: nothing selected). Returns the id
    /// of the project whose tasks to load.
    pub fn on_project_selected(&mut self, sel: Option<usize>) -> (load: Option<i64>)
        ensures
            project_selected(*old(self), sel, *final(self), load),
    {
        match sel {
            None => None,
            Some(i) => {
                self.last_stopped_entry_id = None;
                self.last_stopped_project_id = None;
                self.last_stopped_task_id = None;
                if i < self.projects.len() {
                    let id = self.projects[i].id;
                    self.task_row_sensitive = false;
                    Some(id)
                } else {
                    None
                }
            },
        }
    }

    /// The selected task changed.
    pub fn on_task_selected(&mut self, has_task: bool, has_project: bool)
        ensures
            task_selected(*old(self), has_task, has_project, *final(self)),
    {
        self.button_sensitive = has_task && has_project;
        self.last_stopped_entry_id = None;
        self.last_stopped_project_id = None;
        self.last_stopped_task_id = None;
    }

    /// A project's tasks could not be loaded: the task row stays disabled.
    pub fn on_tasks_failed(&mut self)
        ensures
            *final(self) == (TimerState { task_row_sensitive: false, ..*old(self) }),
    {
        self.task_row_sensitive = false;
    }

    /// The tasks of the project at `project_idx` loaded. An entry picked from
    /// the list is carried over: its task is selected (the first one, when it
    /// is not among them), and it is remembered as stopped last once that
    /// selection has been made (`finish_tasks_loaded`).
    pub fn on_tasks_loaded(&mut self, project_idx: usize, assignments: Vec<TaskAssignment>) -> (plan: TasksLoaded)
        ensures
            tasks_loaded(*old(self), project_idx, assignments@, *final(self), plan),
    {
        let mut names: Vec<String> = Vec::new();
        let n = assignments.len();
        for i in 0..n
            invariant
                n == assignments@.len(),
                names@.len() == i,
                forall|j: int| 0 <= j < i ==> (#[trigger] names@[j])@ == assignments@[j].task.name@,
        {
            names.push(assignments[i].task.name.clone());
        }
        self.task_row_sensitive = true;
        let mut select: Option<usize> = None;
        let mut restore: Option<LastStopped> = None;
        let mut enable_button = false;
        if n > 0 {
            match self.pending_task_id.take() {
                Some(target) => {
                    let mut k: usize = 0;
                    let mut found = false;
                    while k < n && !found
                        invariant
                            n == assignments@.len(),
                            k <= n,
                            found ==> k < n && assignments@[k as int].task.id == target,
                            forall|j: int| 0 <= j < k ==> assignments@[j].task.id != target,
                        decreases n - k + (if found { 0int } else { 1 }),
                    {
                        if assignments[k].task.id == target {
                            found = true;
                        } else {
                            k = k + 1;
                        }
                    }
                    select = Some(if found { k } else { 0 });
                    if let Some(entry_id) = self.pending_entry_id.take() {
                        let project_id = selected_project_id(&self.projects, Some(project_idx));
                        restore = Some(LastStopped { entry_id, project_id, task_id: target });
                    }
                    enable_button = true;
                },
                None => {
                    select = Some(0);
                },
            }
        }
        self.task_assignments = assignments;
        TasksLoaded { names, select, restore, enable_button }
    }

    /// The second half of loading tasks, once the planned task is selected:
    /// the picked entry is remembered as stopped last, and the button enabled.
    pub fn finish_tasks_loaded(&mut self, plan: &TasksLoaded)
        ensures
            tasks_load_finished(*old(self), *plan, *final(self)),
    {
        if let Some(r) = plan.restore {
            self.last_stopped_entry_id = Some(r.entry_id);
            self.last_stopped_project_id = r.project_id;
            self.last_stopped_task_id = Some(r.task_id);
        }
        if plan.enable_button {
            self.button_sensitive = true;
        }
    }

    /// Whether a click with these selections may be handled: while no entry
    /// runs, both selections, when made, must lie within their lists.
    pub fn click_allowed(&self, project_sel: Option<usize>, task_sel: Option<usize>) -> (ok: bool)
        ensures
            ok == (self.running_entry_id is Some || selection_in_range(*self, project_sel, task_sel)),
    {
        if self.running_entry_id.is_some() {
            return true;
        }
        match (project_sel, task_sel) {
            (Some(p), Some(t)) => p < self.projects.len() && t < self.task_assignments.len(),
            _ => true,
        }
    }

    /// A click on the timer button on the day `today`. While an entry runs it
    /// is stopped; otherwise, with a project and a task selected, the entry
    /// stopped last is restarted when it was stopped under this same project
    /// and task, and a new entry is created when not. The button is disabled
    /// until the reply.
    pub fn on_timer_clicked_at(
        &mut self,
        project_sel: Option<usize>,
        task_sel: Option<usize>,
        notes: String,
        today: String,
    ) -> (cmd: TimerCommand)
        requires
            old(self).running_entry_id is None ==> selection_in_range(*old(self), project_sel, task_sel),
        ensures
            click_outcome(*old(self), project_sel, task_sel, notes@, today@, *final(self), cmd),
    {
        match self.running_entry_id {
            Some(entry_id) => {
                let stopped_project_id = selected_project_id(&self.projects, project_sel);
                let stopped_task_id = selected_task_id(&self.task_assignments, task_sel);
                self.button_sensitive = false;
                TimerCommand::Stop { entry_id, update: notes_update(notes), stopped_project_id, stopped_task_id }
            },
            None => match (project_sel, task_sel) {
                (Some(p), Some(t)) => {
                    let project_id = self.projects[p].id;
                    let task_id = self.task_assignments[t].task.id;
                    let restart = match (self.last_stopped_entry_id, self.last_stopped_project_id, self.last_stopped_task_id) {
                        (Some(_), Some(lp), Some(lt)) => lp == project_id && lt == task_id,
                        _ => false,
                    };
                    self.button_sensitive = false;
                    if restart {
                        let entry_id = self.last_stopped_entry_id.unwrap();
                        TimerCommand::Restart { entry_id, update: notes_update(notes) }
                    } else {
                        let notes = if notes.as_str().is_empty() {
                            None
                        } else {
                            Some(notes)
                        };
                        TimerCommand::Create {
                            entry: CreateTimeEntry { project_id, task_id, spent_date: today, seconds: None, notes },
                        }
                    }
                },
                _ => TimerCommand::Nothing,
            },
        }
    }

    /// A click on the timer button, dated with today's date in the machine's
    /// time zone, the day whose entries the page lists.
    pub fn on_timer_clicked(&mut self, project_sel: Option<usize>, task_sel: Option<usize>, notes: String) -> (cmd: TimerCommand)
        requires
            old(self).running_entry_id is None ==> selection_in_range(*old(self), project_sel, task_sel),
        ensures
            exists|today: Seq<char>| is_date_text(today) && click_outcome(*old(self), project_sel, task_sel, notes@, today, *final(self), cmd),
    {
        let today = local_date_today();
        let ghost day = today@;
        let cmd = self.on_timer_clicked_at(project_sel, task_sel, notes, today);
        assert(click_outcome(*old(self), project_sel, task_sel, notes@, day, *self, cmd));
        cmd
    }

    /// The service confirmed a new running entry (`restarted == false`) or a
    /// restarted one, at `now`. A new entry starts from zero; a restarted one
    /// keeps the time it had.
    pub fn on_start_succeeded_at(&mut self, entry_id: i64, restarted: bool, now: Timestamp)
        ensures
            start_succeeded(*old(self), entry_id, restarted, now, *final(self)),
    {
        self.running_entry_id = Some(entry_id);
        self.last_stopped_entry_id = None;
        self.last_stopped_project_id = None;
        self.last_stopped_task_id = None;
        self.timer_started_at = Some(now);
        if !restarted {
            self.running_seconds = 0;
        }
        self.button = TimerButton::StopTimer;
        self.button_sensitive = true;
        self.ticking = true;
    }

    /// A start, restart or stop failed: the button is enabled again.
    pub fn on_request_failed(&mut self)
        ensures
            *final(self) == (TimerState { button_sensitive: true, ..*old(self) }),
    {
        self.button_sensitive = true;
    }

    /// The service confirmed the stop of `entry_id`, at `now`. The time run
    /// since the start is added to the entry's time, and the entry is
    /// remembered with the project and task selected at the click.
    pub fn on_stop_succeeded_at(
        &mut self,
        entry_id: i64,
        stopped_project_id: Option<i64>,
        stopped_task_id: Option<i64>,
        now: Timestamp,
    )
        ensures
            stop_succeeded(*old(self), entry_id, stopped_project_id, stopped_task_id, now, *final(self)),
    {
        self.running_entry_id = None;
        if let Some(start) = self.timer_started_at {
            let total: i128 = (self.running_seconds as i128) + seconds_between(start, now);
            self.running_seconds = if total > (i64::MAX as i128) {
                i64::MAX
            } else if total < (i64::MIN as i128) {
                i64::MIN
            } else {
                total as i64
            };
        }
        self.timer_started_at = None;
        self.last_stopped_entry_id = Some(entry_id);
        self.last_stopped_project_id = stopped_project_id;
        self.last_stopped_task_id = stopped_task_id;
        self.ticking = false;
        self.button = TimerButton::StartTimer;
        self.button_sensitive = true;
    }

    /// The running clock at `now`, `HH:MM:SS`, while an entry runs.
    pub fn tick_label_at(&self, now: Timestamp) -> (label: Option<String>)
        ensures
            match self.timer_started_at {
                Some(start) => label matches Some(l) && l@ == clock_text(
                    whole_seconds_between(start, now) + self.running_seconds,
                ),
                None => label is None,
            },
    {
        match self.timer_started_at {
            Some(start) => {
                let total: i128 = seconds_between(start, now) + (self.running_seconds as i128);
                Some(crate::text::clock(total))
            },
            None => None,
        }
    }

    /// Today's entries loaded at `now`: the rows to show and the day's total.
    /// A running entry among them takes over the timer (the last one, when
    /// there are several), as if it had been started from this page.
    pub fn on_entries_loaded_at(&mut self, entries: Vec<TimeEntry>, now: Timestamp) -> (view: EntriesView)
        ensures
            entries_loaded(*old(self), entries@, now, *final(self), view),
    {
        let ghost s0 = *self;
        let mut rows: Vec<EntryRow> = Vec::new();
        let mut total: i128 = 0;
        let n = entries.len();
        for i in 0..n
            invariant
                n == entries@.len(),
                rows@.len() == i,
                forall|j: int| 0 <= j < i ==> row_shows(#[trigger] rows@[j], entries@[j]),
                total == total_seconds(entries@.take(i as int)),
                -(i as int) * 0x8000_0000_0000_0000 <= total <= (i as int) * 0x7fff_ffff_ffff_ffff,
                *self == (match last_running(entries@.take(i as int)) {
                    Some(e) => take_over_running(s0, e, now),
                    None => s0,
                }),
        {
            let e = &entries[i];
            proof {
                lemma_take_succ(entries@, i as int);
            }
            rows.push(entry_row(e));
            total = total + (e.seconds as i128);
            if e.is_running {
                self.running_entry_id = Some(e.id);
                self.running_seconds = e.seconds;
                self.timer_started_at = Some(now);
                self.button = TimerButton::StopTimer;
                self.button_sensitive = true;
                self.ticking = true;
            }
        }
        proof {
            assert(entries@.take(n as int) =~= entries@);
        }
        let total_label = total_duration(total);
        self.time_entries = entries;
        EntriesView { rows, total_label }
    }

    /// The service confirmed a start or restart just now.
    pub fn on_start_succeeded(&mut self, entry_id: i64, restarted: bool)
        ensures
            exists|now: Timestamp| start_succeeded(*old(self), entry_id, restarted, now, *final(self)),
    {
        let now = utc_now();
        self.on_start_succeeded_at(entry_id, restarted, now);
    }

    /// The service confirmed the stop of `entry_id` just now.
    pub fn on_stop_succeeded(&mut self, entry_id: i64, stopped_project_id: Option<i64>, stopped_task_id: Option<i64>)
        ensures
            exists|now: Timestamp| stop_succeeded(*old(self), entry_id, stopped_project_id, stopped_task_id, now, *final(self)),
    {
        let now = utc_now();
        self.on_stop_succeeded_at(entry_id, stopped_project_id, stopped_task_id, now);
    }

    /// The running clock now, while an entry runs.
    pub fn tick_label(&self) -> (label: Option<String>)
        ensures
            match self.timer_started_at {
                Some(start) => exists|now: Timestamp| label matches Some(l) && l@ == clock_text(
                    #[trigger] whole_seconds_between(start, now) + self.running_seconds,
                ),
                None => label is None,
            },
    {
        let now = utc_now();
        self.tick_label_at(now)
    }

    /// Today's entries, loaded just now.
    pub fn on_entries_loaded(&mut self, entries: Vec<TimeEntry>) -> (view: EntriesView)
        ensures
            exists|now: Timestamp| entries_loaded(*old(self), entries@, now, *final(self), view),
    {
        let now = utc_now();
        self.on_entries_loaded_at(entries, now)
    }

    /// The request for today's entries (today in the machine's time zone), of
    /// the signed-in user once known.
    pub fn entries_request(&self) -> (r: ApiRequest)
        ensures
            r.method == HttpMethod::Get,
            r.path@ == "/time_entries"@,
            exists|date: Seq<char>| is_date_text(date) && query_text(r.query@) == (match self.user_id {
                Some(uid) => seq![("from"@, date), ("to"@, date), ("user_id"@, int_text(uid as int))],
                None => seq![("from"@, date), ("to"@, date)],
            }),
    {
        let today = local_date_today();
        let r = list_time_entries_request(today.as_str(), self.user_id);
        let ghost date = today@;
        assert(query_text(r.query@) == (match self.user_id {
            Some(uid) => seq![("from"@, date), ("to"@, date), ("user_id"@, int_text(uid as int))],
            None => seq![("from"@, date), ("to"@, date)],
        }));
        r
    }

    /// An entry of today's list was activated. A stopped entry with a project
    /// and a task is loaded for a quick restart: its task and id wait for the
    /// tasks of its project, its time becomes the timer's, and the index of its
    /// project and its notes are returned for the page to show.
    pub fn on_entry_activated(&mut self, idx: usize) -> (sel: Option<EntrySelection>)
        ensures
            entry_activated(*old(self), idx, *final(self), sel),
    {
        if idx >= self.time_entries.len() {
            return None;
        }
        let e = &self.time_entries[idx];
        if e.is_running {
            return None;
        }
        let project_id = match &e.project {
            Some(p) => p.id,
            None => return None,
        };
        let task_id = match &e.task {
            Some(t) => t.id,
            None => return None,
        };
        let entry_id = e.id;
        let seconds = e.seconds;
        let notes = match &e.notes {
            Some(n) => n.clone(),
            None => String::new(),
        };
        let n = self.projects.len();
        let mut k: usize = 0;
        let mut found = false;
        while k < n && !found
            invariant
                n == self.projects@.len(),
                k <= n,
                found ==> k < n && self.projects@[k as int].id == project_id,
                forall|j: int| 0 <= j < k ==> self.projects@[j].id != project_id,
            decreases n - k + (if found { 0int } else { 1 }),
        {
            if self.projects[k].id == project_id {
                found = true;
            } else {
                k = k + 1;
            }
        }
        self.pending_task_id = Some(task_id);
        self.pending_entry_id = Some(entry_id);
        self.running_seconds = seconds;
        Some(EntrySelection { project_index: if found { Some(k) } else { None }, notes })
    }
}

/// A click while an entry runs stops that entry, and a click while none runs
/// never asks for a stop.
pub proof fn law_click_toggles(
    s: TimerState,
    project_sel: Option<usize>,
    task_sel: Option<usize>,
    notes: Seq<char>,
    today: Seq<char>,
    s2: TimerState,
    cmd: TimerCommand,
)
    requires
        click_outcome(s, project_sel, task_sel, notes, today, s2, cmd),
    ensures
        s.running_entry_id matches Some(running) ==> (cmd matches TimerCommand::Stop { entry_id, .. } && entry_id
            == running),
        s.running_entry_id is None ==> !(cmd is Stop),
{
}

/// Stopping the running entry and then starting again with the same project
/// and task selected restarts that same entry.
pub proof fn law_stop_then_start_restarts(
    s0: TimerState,
    p: usize,
    t: usize,
    notes1: Seq<char>,
    today1: Seq<char>,
    s1: TimerState,
    stop: TimerCommand,
    now: Timestamp,
    s2: TimerState,
    notes2: Seq<char>,
    today2: Seq<char>,
    s3: TimerState,
    cmd: TimerCommand,
)
    requires
        s0.running_entry_id is Some,
        p < s0.projects@.len(),
        t < s0.task_assignments@.len(),
        click_outcome(s0, Some(p), Some(t), notes1, today1, s1, stop),
        stop matches TimerCommand::Stop { entry_id, stopped_project_id, stopped_task_id, .. } && stop_succeeded(
            s1,
            entry_id,
            stopped_project_id,
            stopped_task_id,
            now,
            s2,
        ),
        click_outcome(s2, Some(p), Some(t), notes2, today2, s3, cmd),
    ensures
        cmd matches TimerCommand::Restart { entry_id, .. } && entry_id == s0.running_entry_id->0,
{
}

/// Choosing another project, or another task, forgets the entry stopped last:
/// the next start creates a new entry.
pub proof fn law_selection_change_starts_new_entry(
    s0: TimerState,
    changed_project: bool,
    sel: Option<usize>,
    has_task: bool,
    has_project: bool,
    s1: TimerState,
    load: Option<i64>,
    project_sel: Option<usize>,
    task_sel: Option<usize>,
    notes: Seq<char>,
    today: Seq<char>,
    s2: TimerState,
    cmd: TimerCommand,
)
    requires
        s0.running_entry_id is None,
        changed_project ==> sel is Some && project_selected(s0, sel, s1, load),
        !changed_project ==> task_selected(s0, has_task, has_project, s1),
        project_sel is Some,
        task_sel is Some,
        click_outcome(s1, project_sel, task_sel, notes, today, s2, cmd),
    ensures
        cmd is Create,
{
}

/// A restarted entry keeps its time: after a restart at `t0` and a stop at
/// `t1`, the timer holds the time it had plus the whole seconds in between.
pub proof fn law_restart_accumulates_time(
    s0: TimerState,
    entry_id: i64,
    t0: Timestamp,
    s1: TimerState,
    stopped_project_id: Option<i64>,
    stopped_task_id: Option<i64>,
    t1: Timestamp,
    s2: TimerState,
)
    requires
        start_succeeded(s0, entry_id, true, t0, s1),
        stop_succeeded(s1, entry_id, stopped_project_id, stopped_task_id, t1, s2),
    ensures
        s2.running_seconds == clamp_i64(s0.running_seconds + whole_seconds_between(t0, t1)),
        s2.running_entry_id is None,
        s2.last_stopped_entry_id == Some(entry_id),
{
}

/// A new entry's clock starts from zero: after it is created at `t0`, the clock
/// reads the whole seconds since `t0`.
pub proof fn law_new_entry_starts_from_zero(s0: TimerState, entry_id: i64, t0: Timestamp, s1: TimerState)
    requires
        start_succeeded(s0, entry_id, false, t0, s1),
    ensures
        s1.running_seconds == 0,
        s1.timer_started_at == Some(t0),
        s1.running_entry_id == Some(entry_id),
{
}

/// Clicking a stopped entry of today's list loads it back for a quick
/// restart: once its project is selected, that project's tasks have loaded
/// (with the entry's task among them) and the planned task is selected, a
/// start restarts that entry.
pub proof fn law_picked_entry_restarts(
    s0: TimerState,
    idx: usize,
    s1: TimerState,
    picked: Option<EntrySelection>,
    s2: TimerState,
    load: Option<i64>,
    assignments: Seq<TaskAssignment>,
    s3: TimerState,
    plan: TasksLoaded,
    s4: TimerState,
    s5: TimerState,
    notes: Seq<char>,
    today: Seq<char>,
    s6: TimerState,
    cmd: TimerCommand,
)
    requires
        s0.running_entry_id is None,
        entry_activated(s0, idx, s1, picked),
        picked matches Some(es) && es.project_index is Some,
        project_selected(s1, picked->0.project_index, s2, load),
        tasks_loaded(s2, picked->0.project_index->0, assignments, s3, plan),
        exists|j: int| 0 <= j < assignments.len() && assignments[j].task.id == s0.time_entries@[idx as int].task->0.id,
        task_selected(s3, true, true, s4),
        tasks_load_finished(s4, plan, s5),
        click_outcome(s5, picked->0.project_index, plan.select, notes, today, s6, cmd),
    ensures
        cmd matches TimerCommand::Restart { entry_id, .. } && entry_id == s0.time_entries@[idx as int].id,
{
    let e = s0.time_entries@[idx as int];
    let target = e.task->0.id;
    let k = picked->0.project_index->0;
    assert(s1.pending_task_id == Some(target));
    assert(s2.pending_task_id == Some(target));
    assert(s2.pending_entry_id == Some(e.id));
    let j = choose|j: int| 0 <= j < assignments.len() && assignments[j].task.id == target;
    assert(!has_no_task(assignments, target));
    assert(plan.select matches Some(sel) && assignments[sel as int].task.id == target);
    assert(s5.last_stopped_entry_id == Some(e.id));
    assert(s5.last_stopped_project_id == Some(e.project->0.id));
    assert(s5.last_stopped_task_id == Some(target));
    assert(s5.projects@[k as int].id == e.project->0.id);
}

/// The whole seconds from a start grow with the reading: a later reading
/// never shows fewer, and a reading exactly `k` seconds after the start shows
/// `k`.
pub proof fn law_elapsed_seconds_grow(start: Timestamp, now1: Timestamp, now2: Timestamp, k: nat)
    ensures
        now1.total_nanos() <= now2.total_nanos() ==> whole_seconds_between(start, now1) <= whole_seconds_between(
            start,
            now2,
        ),
        now1.total_nanos() == start.total_nanos() + k * 1_000_000_000 ==> whole_seconds_between(start, now1) == k,
{
    let a1 = now1.total_nanos() - start.total_nanos();
    let a2 = now2.total_nanos() - start.total_nanos();
    if a1 <= a2 {
        if a1 >= 0 {
            lemma_div_is_ordered(a1, a2, 1_000_000_000);
        } else if a2 >= 0 {
            lemma_div_pos_is_pos(-a1, 1_000_000_000);
            lemma_div_pos_is_pos(a2, 1_000_000_000);
        } else {
            lemma_div_is_ordered(-a2, -a1, 1_000_000_000);
        }
    }
    if a1 == k * 1_000_000_000 {
        lemma_div_multiples_vanish(k as int, 1_000_000_000);
    }
}

/// While an entry runs, the clock it shows never goes back as time goes on,
/// and `k` whole seconds after the start it shows the entry's earlier time
/// plus `k` (one hour after a start from zero: `01:00:00`).
pub proof fn law_running_clock_advances(s: TimerState, start: Timestamp, now1: Timestamp, now2: Timestamp, k: nat)
    requires
        s.timer_started_at == Some(start),
    ensures
        now1.total_nanos() <= now2.total_nanos() ==> whole_seconds_between(start, now1) + s.running_seconds
            <= whole_seconds_between(start, now2) + s.running_seconds,
        now1.total_nanos() == start.total_nanos() + k * 1_000_000_000 ==> clock_text(
            whole_seconds_between(start, now1) + s.running_seconds,
        ) == clock_text(k + s.running_seconds),
{
    law_elapsed_seconds_grow(start, now1, now2, k);
}

/// A confirmed stop adds the time run since the start: stopped `k` whole
/// seconds after the start, the entry's time grows by exactly `k` (held to
/// `i64`), and stopped at any reading after the start it never shrinks.
pub proof fn law_stop_adds_elapsed_time(
    s: TimerState,
    start: Timestamp,
    entry_id: i64,
    stopped_project_id: Option<i64>,
    stopped_task_id: Option<i64>,
    now: Timestamp,
    s2: TimerState,
    k: nat,
)
    requires
        s.timer_started_at == Some(start),
        stop_succeeded(s, entry_id, stopped_project_id, stopped_task_id, now, s2),
    ensures
        now.total_nanos() == start.total_nanos() + k * 1_000_000_000 ==> s2.running_seconds == clamp_i64(
            s.running_seconds + k,
        ),
        start.total_nanos() <= now.total_nanos() ==> s2.running_seconds >= s.running_seconds,
        s2.timer_started_at is None,
{
    law_elapsed_seconds_grow(start, start, now, k);
    law_elapsed_seconds_grow(start, now, now, k);
    assert(whole_seconds_between(start, start) == 0);
}

/// A click that creates an entry dates it with the day it was given; on the
/// day's date as chrono writes it, the new entry's date is such a date, never
/// empty.
pub proof fn law_created_entry_is_dated(
    s: TimerState,
    project_sel: Option<usize>,
    task_sel: Option<usize>,
    notes: Seq<char>,
    today: Seq<char>,
    s2: TimerState,
    cmd: TimerCommand,
)
    requires
        click_outcome(s, project_sel, task_sel, notes, today, s2, cmd),
        is_date_text(today),
    ensures
        cmd matches TimerCommand::Create { entry } ==> entry.spent_date@ == today && is_date_text(entry.spent_date@)
            && entry.spent_date@.len() >= 10,
{
}

} // verus!
