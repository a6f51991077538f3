//! The view-state machine: which screen is showing, the per-view sub-state
//! (tabs, scroll positions, cursors), and how keyboard input moves between
//! them. Drawing itself happens outside the library, against the view models
//! of `render_model`.

use vstd::prelude::*;
use crate::app_state::AppState;
use crate::event::{Key, KeyInput};
use crate::task::TaskState;
use crate::update::has_backend;
use crate::app_state::backends_view;

verus! {

/// The signal a key event produces for the outer controller, which performs
/// the side effect (selection mutation, pause toggle, process exit) outside
/// the view layer.
#[derive(Debug, Clone, PartialEq)]
pub enum UpdateKind {
    /// Quit the application.
    Quit,
    /// Toggle the help overlay.
    ToggleHelp,
    /// Toggle the pause state.
    TogglePause,
    /// Drill into the detail view of the given task.
    SelectTask(u64),
    /// Leave the task detail view.
    ExitTaskView,
    /// Drill into the detail view of the given backend.
    SelectBackend(String),
    /// Leave the backend detail view.
    ExitBackendView,
    /// Nothing for the outer controller to do.
    Other,
}

/// Sub-tab of the task detail view.
#[derive(Debug, Clone, Copy, PartialEq, Eq, Structural)]
pub enum DetailTab {
    Info,
    Logs,
    Resources,
}

impl DetailTab {
    pub open spec fn spec_next(self) -> DetailTab {
        match self {
            DetailTab::Info => DetailTab::Logs,
            DetailTab::Logs => DetailTab::Resources,
            DetailTab::Resources => DetailTab::Info,
        }
    }

    pub open spec fn spec_prev(self) -> DetailTab {
        match self {
            DetailTab::Info => DetailTab::Resources,
            DetailTab::Logs => DetailTab::Info,
            DetailTab::Resources => DetailTab::Logs,
        }
    }
}

/// Sub-tab of the backend detail view.
#[derive(Debug, Clone, Copy, PartialEq, Eq, Structural)]
pub enum BackendTab {
    Info,
    Tasks,
    Resources,
}

impl BackendTab {
    pub open spec fn spec_next(self) -> BackendTab {
        match self {
            BackendTab::Info => BackendTab::Tasks,
            BackendTab::Tasks => BackendTab::Resources,
            BackendTab::Resources => BackendTab::Info,
        }
    }

    pub open spec fn spec_prev(self) -> BackendTab {
        match self {
            BackendTab::Info => BackendTab::Resources,
            BackendTab::Tasks => BackendTab::Info,
            BackendTab::Resources => BackendTab::Tasks,
        }
    }

    /// The next tab in the cycle.
    pub fn next(&self) -> (r: BackendTab)
        ensures
            r == self.spec_next(),
    {
        match self {
            BackendTab::Info => BackendTab::Tasks,
            BackendTab::Tasks => BackendTab::Resources,
            BackendTab::Resources => BackendTab::Info,
        }
    }

    /// The tab reached by cycling backwards; the inverse of `next`.
    pub fn prev(&self) -> (r: BackendTab)
        ensures
            r == self.spec_prev(),
            r.spec_next() == *self,
    {
        match self {
            BackendTab::Info => BackendTab::Resources,
            BackendTab::Tasks => BackendTab::Info,
            BackendTab::Resources => BackendTab::Tasks,
        }
    }
}

/// Fixed scroll target of the jump-to-bottom key; the render layer clips it
/// to the log length.
pub const LOG_SCROLL_BOTTOM: u16 = 1000;

/// View state of the task detail screen: the task shown, the sub-tab, the
/// log scroll position and the cursor over resource samples.
#[derive(Debug, Clone, PartialEq)]
pub struct TaskDetailView {
    pub task_id: u64,
    pub current_tab: DetailTab,
    pub log_scroll: u16,
    pub resource_cursor: Option<usize>,
}

impl TaskDetailView {
    /// A fresh detail view of the given task, on the info tab.
    pub fn new(task_id: u64) -> (r: TaskDetailView)
        ensures
            r == TaskDetailView::spec_new(task_id),
    {
        TaskDetailView { task_id, current_tab: DetailTab::Info, log_scroll: 0, resource_cursor: None }
    }

    pub open spec fn spec_new(task_id: u64) -> TaskDetailView {
        TaskDetailView { task_id, current_tab: DetailTab::Info, log_scroll: 0, resource_cursor: None }
    }

    /// Where one key takes this view: tab keys cycle the sub-tab; on the logs
    /// tab the arrows scroll, home and end jump; on the resources tab the
    /// arrows move the sample cursor.
    pub open spec fn spec_step(self, key: KeyInput) -> TaskDetailView {
        if key.key == Key::Tab || key.key == Key::Right {
            TaskDetailView { current_tab: self.current_tab.spec_next(), ..self }
        } else if key.key == Key::BackTab || key.key == Key::Left {
            TaskDetailView { current_tab: self.current_tab.spec_prev(), ..self }
        } else if self.current_tab == DetailTab::Logs {
            if key.key == Key::Up || key.key == Key::Char('k') {
                TaskDetailView { log_scroll: if self.log_scroll > 0 { (self.log_scroll - 1) as u16 } else { 0 }, ..self }
            } else if key.key == Key::Down || key.key == Key::Char('j') {
                TaskDetailView { log_scroll: if self.log_scroll < u16::MAX { (self.log_scroll + 1) as u16 } else { u16::MAX }, ..self }
            } else if key.key == Key::Home || key.key == Key::Char('g') {
                TaskDetailView { log_scroll: 0, ..self }
            } else if key.key == Key::End || key.key == Key::Char('G') {
                TaskDetailView { log_scroll: LOG_SCROLL_BOTTOM, ..self }
            } else {
                self
            }
        } else if self.current_tab == DetailTab::Resources {
            if key.key == Key::Up || key.key == Key::Char('k') {
                TaskDetailView {
                    resource_cursor: match self.resource_cursor {
                        Some(i) => Some(if i > 0 { (i - 1) as usize } else { 0 }),
                        None => Some(0),
                    },
                    ..self
                }
            } else if key.key == Key::Down || key.key == Key::Char('j') {
                TaskDetailView {
                    resource_cursor: match self.resource_cursor {
                        Some(i) => Some(if i < usize::MAX { (i + 1) as usize } else { i }),
                        None => Some(0),
                    },
                    ..self
                }
            } else {
                self
            }
        } else {
            self
        }
    }

    /// Routes one key within the task detail view.
    pub fn handle_key_event(&mut self, key: KeyInput)
        ensures
            *final(self) == old(self).spec_step(key),
    {
        if key.key == Key::Tab || key.key == Key::Right {
            self.next_tab();
        } else if key.key == Key::BackTab || key.key == Key::Left {
            self.prev_tab();
        } else if self.current_tab == DetailTab::Logs {
            if key.key == Key::Up || key.key == Key::Char('k') {
                self.scroll_logs_up();
            } else if key.key == Key::Down || key.key == Key::Char('j') {
                self.scroll_logs_down();
            } else if key.key == Key::Home || key.key == Key::Char('g') {
                self.scroll_logs_top();
            } else if key.key == Key::End || key.key == Key::Char('G') {
                self.scroll_logs_bottom();
            }
        } else if self.current_tab == DetailTab::Resources {
            if key.key == Key::Up || key.key == Key::Char('k') {
                self.select_prev_resource();
            } else if key.key == Key::Down || key.key == Key::Char('j') {
                self.select_next_resource();
            }
        }
    }

    /// Cycles to the next sub-tab.
    pub fn next_tab(&mut self)
        ensures
            *final(self) == (TaskDetailView { current_tab: old(self).current_tab.spec_next(), ..*old(self) }),
    {
        self.current_tab = match self.current_tab {
            DetailTab::Info => DetailTab::Logs,
            DetailTab::Logs => DetailTab::Resources,
            DetailTab::Resources => DetailTab::Info,
        };
    }

    /// Cycles to the previous sub-tab.
    pub fn prev_tab(&mut self)
        ensures
            *final(self) == (TaskDetailView { current_tab: old(self).current_tab.spec_prev(), ..*old(self) }),
    {
        self.current_tab = match self.current_tab {
            DetailTab::Info => DetailTab::Resources,
            DetailTab::Logs => DetailTab::Info,
            DetailTab::Resources => DetailTab::Logs,
        };
    }

    /// Scrolls the logs up one line, stopping at the top.
    pub fn scroll_logs_up(&mut self)
        ensures
            *final(self) == (TaskDetailView {
                log_scroll: if old(self).log_scroll > 0 {
                    (old(self).log_scroll - 1) as u16
                } else {
                    0
                },
                ..*old(self)
            }),
    {
        if self.log_scroll > 0 {
            self.log_scroll = self.log_scroll - 1;
        }
    }

    /// Scrolls the logs down one line, saturating.
    pub fn scroll_logs_down(&mut self)
        ensures
            *final(self) == (TaskDetailView {
                log_scroll: if old(self).log_scroll < u16::MAX {
                    (old(self).log_scroll + 1) as u16
                } else {
                    u16::MAX
                },
                ..*old(self)
            }),
    {
        if self.log_scroll < u16::MAX {
            self.log_scroll = self.log_scroll + 1;
        }
    }

    /// Jumps to the top of the logs.
    pub fn scroll_logs_top(&mut self)
        ensures
            *final(self) == (TaskDetailView { log_scroll: 0, ..*old(self) }),
    {
        self.log_scroll = 0;
    }

    /// Jumps towards the bottom of the logs; the render layer clips.
    pub fn scroll_logs_bottom(&mut self)
        ensures
            *final(self) == (TaskDetailView { log_scroll: LOG_SCROLL_BOTTOM, ..*old(self) }),
    {
        self.log_scroll = LOG_SCROLL_BOTTOM;
    }

    /// Moves the sample cursor up, stopping at the first sample.
    pub fn select_prev_resource(&mut self)
        ensures
            *final(self) == (TaskDetailView {
                resource_cursor: match old(self).resource_cursor {
                    Some(i) => Some(if i > 0 { (i - 1) as usize } else { 0 }),
                    None => Some(0),
                },
                ..*old(self)
            }),
    {
        self.resource_cursor = match self.resource_cursor {
            Some(i) => Some(if i > 0 { i - 1 } else { 0 }),
            None => Some(0),
        };
    }

    /// Moves the sample cursor down, saturating; the render layer clips.
    pub fn select_next_resource(&mut self)
        ensures
            *final(self) == (TaskDetailView {
                resource_cursor: match old(self).resource_cursor {
                    Some(i) => Some(if i < usize::MAX { (i + 1) as usize } else { i }),
                    None => Some(0),
                },
                ..*old(self)
            }),
    {
        self.resource_cursor = match self.resource_cursor {
            Some(i) => Some(if i < usize::MAX { i + 1 } else { i }),
            None => Some(0),
        };
    }
}

/// How many tasks name the given backend.
pub open spec fn spec_count_backend_tasks(s: Seq<TaskState>, name: Seq<char>) -> nat
    decreases s.len(),
{
    if s.len() == 0 {
        0
    } else {
        spec_count_backend_tasks(s.drop_last(), name) + if s.last().backend@ == name {
            1nat
        } else {
            0nat
        }
    }
}

/// How many tasks name the given backend, scanning the table.
pub fn count_backend_tasks(tasks: &Vec<TaskState>, name: &String) -> (r: usize)
    ensures
        r == spec_count_backend_tasks(tasks@, name@),
{
    let n = tasks.len();
    let mut count: usize = 0;
    let mut i: usize = 0;
    while i < n
        invariant
            0 <= i <= n,
            n == tasks@.len(),
            count == spec_count_backend_tasks(tasks@.subrange(0, i as int), name@),
            count <= i,
        decreases n - i,
    {
        assert(tasks@.subrange(0, i + 1 as int).drop_last() == tasks@.subrange(0, i as int));
        assert(tasks@.subrange(0, i + 1 as int).last() == tasks@[i as int]);
        if tasks[i].backend == *name {
            count += 1;
        }
        i += 1;
    }
    assert(tasks@.subrange(0, n as int) == tasks@);
    count
}

/// Indices of the tasks that name the given backend, in table order; they
/// are the rows of the backend detail's tasks tab.
pub fn tasks_for_backend(tasks: &Vec<TaskState>, name: &String) -> (r: Vec<usize>)
    ensures
        forall|p: int| 0 <= p < r@.len() ==> (#[trigger] r@[p]) < tasks@.len(),
        forall|p: int, q: int| 0 <= p < q < r@.len() ==> r@[p] < r@[q],
        forall|p: int| 0 <= p < r@.len() ==> tasks@[#[trigger] r@[p] as int].backend@ == name@,
        r@.len() == spec_count_backend_tasks(tasks@, name@),
{
    let n = tasks.len();
    let mut out: Vec<usize> = Vec::new();
    let mut i: usize = 0;
    while i < n
        invariant
            0 <= i <= n,
            n == tasks@.len(),
            forall|p: int| 0 <= p < out@.len() ==> (#[trigger] out@[p]) < i,
            forall|p: int, q: int| 0 <= p < q < out@.len() ==> out@[p] < out@[q],
            forall|p: int|
                0 <= p < out@.len() ==> tasks@[#[trigger] out@[p] as int].backend@ == name@,
            out@.len() == spec_count_backend_tasks(tasks@.subrange(0, i as int), name@),
        decreases n - i,
    {
        assert(tasks@.subrange(0, i + 1 as int).drop_last() == tasks@.subrange(0, i as int));
        assert(tasks@.subrange(0, i + 1 as int).last() == tasks@[i as int]);
        if tasks[i].backend == *name {
            out.push(i);
        }
        i += 1;
    }
    assert(tasks@.subrange(0, n as int) == tasks@);
    out
}

/// View state of the backend detail screen: the backend shown, the sub-tab,
/// the cursor over its tasks, and the resource time window in minutes.
#[derive(Debug, Clone, PartialEq)]
pub struct BackendView {
    pub backend_name: String,
    pub current_tab: BackendTab,
    pub task_cursor: Option<usize>,
    pub resource_time_window: u16,
}

/// Default resource time window of a fresh backend view, in minutes.
pub const DEFAULT_TIME_WINDOW_MIN: u16 = 10;

/// Step of the time-window adjustment keys, in minutes.
pub const TIME_WINDOW_STEP_MIN: u16 = 5;

impl BackendView {
    /// A fresh detail view of the given backend, on the info tab.
    pub fn new(backend_name: String) -> (r: BackendView)
        ensures
            r.backend_name == backend_name,
            r.current_tab == BackendTab::Info,
            r.task_cursor is None,
            r.resource_time_window == DEFAULT_TIME_WINDOW_MIN,
    {
        BackendView {
            backend_name,
            current_tab: BackendTab::Info,
            task_cursor: None,
            resource_time_window: DEFAULT_TIME_WINDOW_MIN,
        }
    }

    /// Where one key takes this view, given whether the backend exists and
    /// how many tasks it runs: tab keys cycle; on the tasks tab the arrows
    /// move the cursor, wrapping; on the resources tab plus and minus grow
    /// and shrink the time window, which never drops below one minute.
    pub open spec fn spec_step(self, key: KeyInput, backend_known: bool, task_count: nat) -> BackendView {
        if key.key == Key::Tab || key.key == Key::Right {
            BackendView { current_tab: self.current_tab.spec_next(), ..self }
        } else if key.key == Key::BackTab || key.key == Key::Left {
            BackendView { current_tab: self.current_tab.spec_prev(), ..self }
        } else if (key.key == Key::Down || key.key == Key::Char('j')) && self.current_tab
            == BackendTab::Tasks {
            if backend_known && task_count > 0 {
                BackendView {
                    task_cursor: Some(
                        match self.task_cursor {
                            Some(i) => (((if i < usize::MAX {
                                i + 1
                            } else {
                                i as int
                            }) as nat) % task_count) as usize,
                            None => 0,
                        },
                    ),
                    ..self
                }
            } else {
                self
            }
        } else if (key.key == Key::Up || key.key == Key::Char('k')) && self.current_tab
            == BackendTab::Tasks {
            if backend_known && task_count > 0 {
                BackendView {
                    task_cursor: Some(
                        match self.task_cursor {
                            Some(i) => if i == 0 {
                                (task_count - 1) as usize
                            } else {
                                (i - 1) as usize
                            },
                            None => 0,
                        },
                    ),
                    ..self
                }
            } else {
                self
            }
        } else if key.key == Key::Char('+') && self.current_tab == BackendTab::Resources {
            BackendView {
                resource_time_window: if self.resource_time_window + TIME_WINDOW_STEP_MIN
                    <= u16::MAX {
                    (self.resource_time_window + TIME_WINDOW_STEP_MIN) as u16
                } else {
                    u16::MAX
                },
                ..self
            }
        } else if key.key == Key::Char('-') && self.current_tab == BackendTab::Resources {
            BackendView {
                resource_time_window: if self.resource_time_window > TIME_WINDOW_STEP_MIN {
                    (self.resource_time_window - TIME_WINDOW_STEP_MIN) as u16
                } else {
                    1
                },
                ..self
            }
        } else {
            self
        }
    }

    /// Routes one key within the backend detail view, reading the task table
    /// to know how far the task cursor may move.
    pub fn handle_key_event(&mut self, key: KeyInput, app_state: &AppState)
        ensures
            *final(self) == old(self).spec_step(
                key,
                has_backend(backends_view(app_state.backends@), old(self).backend_name@),
                spec_count_backend_tasks(app_state.tasks@, old(self).backend_name@),
            ),
    {
        let ghost known = has_backend(backends_view(app_state.backends@), self.backend_name@);
        if key.key == Key::Tab || key.key == Key::Right {
            self.current_tab = self.current_tab.next();
        } else if key.key == Key::BackTab || key.key == Key::Left {
            self.current_tab = self.current_tab.prev();
        } else if (key.key == Key::Down || key.key == Key::Char('j')) && self.current_tab
            == BackendTab::Tasks {
            if backend_exists(&app_state.backends, &self.backend_name) {
                let task_count = count_backend_tasks(&app_state.tasks, &self.backend_name);
                if task_count > 0 {
                    self.task_cursor = Some(
                        match self.task_cursor {
                            Some(i) => (if i < usize::MAX {
                                i + 1
                            } else {
                                i
                            }) % task_count,
                            None => 0,
                        },
                    );
                }
            }
        } else if (key.key == Key::Up || key.key == Key::Char('k')) && self.current_tab
            == BackendTab::Tasks {
            if backend_exists(&app_state.backends, &self.backend_name) {
                let task_count = count_backend_tasks(&app_state.tasks, &self.backend_name);
                if task_count > 0 {
                    self.task_cursor = Some(
                        match self.task_cursor {
                            Some(i) => if i == 0 {
                                task_count - 1
                            } else {
                                i - 1
                            },
                            None => 0,
                        },
                    );
                }
            }
        } else if key.key == Key::Char('+') && self.current_tab == BackendTab::Resources {
            if self.resource_time_window <= u16::MAX - TIME_WINDOW_STEP_MIN {
                self.resource_time_window = self.resource_time_window + TIME_WINDOW_STEP_MIN;
            } else {
                self.resource_time_window = u16::MAX;
            }
        } else if key.key == Key::Char('-') && self.current_tab == BackendTab::Resources {
            if self.resource_time_window > TIME_WINDOW_STEP_MIN {
                self.resource_time_window = self.resource_time_window - TIME_WINDOW_STEP_MIN;
            } else {
                self.resource_time_window = 1;
            }
        }
    }
}

/// Which screen is showing. Detail screens carry their own sub-state.
#[derive(Debug, Clone, PartialEq)]
pub enum ViewState {
    /// Overview of all tasks and backends.
    Dashboard,
    /// List of all tasks.
    TasksList,
    /// List of all backends.
    BackendsList,
    /// Detail view of one task.
    TaskInstance(TaskDetailView),
    /// Detail view of one backend.
    BackendInstance(BackendView),
}

/// Number of frames an animation cycles through.
pub const ANIMATION_FRAMES: usize = 4;

/// The main view controller: the active screen, the help overlay flag, the
/// last known terminal size and the animation counter.
pub struct Ui {
    pub state: ViewState,
    pub show_help: bool,
    pub terminal_width: u16,
    pub terminal_height: u16,
    pub animation_frame: usize,
}

/// Keys that act from any screen, checked before view-specific dispatch.
pub open spec fn is_global_key(key: KeyInput) -> bool {
    ||| key.key == Key::F(1)
    ||| key.key == Key::Char('?')
    ||| key.key == Key::Char('q')
    ||| key.key == Key::Char('d')
    ||| key.key == Key::Char('t')
    ||| key.key == Key::Char('b')
    ||| key.key == Key::Char('p')
}

impl Ui {
    /// Everything but the active screen is as it was.
    pub open spec fn frame_except_state(self, pre: Ui) -> bool {
        &&& self.show_help == pre.show_help
        &&& self.terminal_width == pre.terminal_width
        &&& self.terminal_height == pre.terminal_height
        &&& self.animation_frame == pre.animation_frame
    }

    /// Starts on the dashboard with the help overlay off.
    pub fn new() -> (r: Ui)
        ensures
            r.state == ViewState::Dashboard,
            !r.show_help,
            r.terminal_width == 80,
            r.terminal_height == 24,
            r.animation_frame == 0,
    {
        Ui {
            state: ViewState::Dashboard,
            show_help: false,
            terminal_width: 80,
            terminal_height: 24,
            animation_frame: 0,
        }
    }

    /// The active screen.
    pub fn current_view(&self) -> (r: &ViewState)
        ensures
            r == self.state,
    {
        &self.state
    }

    /// Flips the help overlay.
    pub fn toggle_help(&mut self)
        ensures
            final(self).show_help == !old(self).show_help,
            final(self).state == old(self).state,
            final(self).terminal_width == old(self).terminal_width,
            final(self).terminal_height == old(self).terminal_height,
            final(self).animation_frame == old(self).animation_frame,
    {
        self.show_help = !self.show_help;
    }

    /// Replaces the active screen.
    pub fn navigate_to(&mut self, view: ViewState)
        ensures
            final(self).state == view,
            final(self).frame_except_state(*old(self)),
    {
        self.state = view;
    }

    /// Remembers the terminal size for layouts.
    pub fn handle_resize(&mut self, width: u16, height: u16)
        ensures
            final(self).terminal_width == width,
            final(self).terminal_height == height,
            final(self).state == old(self).state,
            final(self).show_help == old(self).show_help,
            final(self).animation_frame == old(self).animation_frame,
    {
        self.terminal_width = width;
        self.terminal_height = height;
    }

    /// Advances the animation counter one frame; never business state.
    pub fn update_animations(&mut self)
        ensures
            final(self).animation_frame == (old(self).animation_frame + 1) % (
            ANIMATION_FRAMES as int),
            final(self).state == old(self).state,
            final(self).show_help == old(self).show_help,
            final(self).terminal_width == old(self).terminal_width,
            final(self).terminal_height == old(self).terminal_height,
    {
        let a = self.animation_frame % ANIMATION_FRAMES;
        self.animation_frame = if a + 1 == ANIMATION_FRAMES {
            0
        } else {
            a + 1
        };
        proof {
            let pre = old(self).animation_frame as int;
            let post = final(self).animation_frame as int;
            assert(post == (pre + 1) % 4) by (nonlinear_arith)
                requires
                    post == if pre % 4 + 1 == 4 {
                        0int
                    } else {
                        pre % 4 + 1
                    },
                    pre >= 0,
            ;
        }
    }

    /// Routes one key: global jump, quit, help and pause keys act from any
    /// screen; everything else goes to the active screen, which may move the
    /// list cursors in the state or switch into and out of the detail
    /// screens. The returned signal tells the outer controller what side
    /// effect to perform.
    pub fn handle_key_event(&mut self, key: KeyInput, app_state: &mut AppState) -> (r: UpdateKind)
        requires
            old(app_state).wf(),
        ensures
            final(app_state).wf(),
            final(self).frame_except_state(*old(self)),
            ({
                let pre_ui = *old(self);
                let pre = *old(app_state);
                let post = *final(app_state);
                let st = final(self).state;
                if key.key == Key::F(1) || key.key == Key::Char('?') {
                    r == UpdateKind::ToggleHelp && st == pre_ui.state && post == pre
                } else if key.key == Key::Char('q') {
                    r == UpdateKind::Quit && st == pre_ui.state && post == pre
                } else if key.key == Key::Char('d') {
                    st == ViewState::Dashboard && r == UpdateKind::Other && post == pre
                } else if key.key == Key::Char('t') {
                    st == ViewState::TasksList && r == UpdateKind::Other && post == pre
                } else if key.key == Key::Char('b') {
                    st == ViewState::BackendsList && r == UpdateKind::Other && post == pre
                } else if key.key == Key::Char('p') {
                    r == UpdateKind::TogglePause && st == pre_ui.state && post == pre
                } else {
                    match pre_ui.state {
                        ViewState::Dashboard => r == UpdateKind::Other && st == pre_ui.state
                            && post == pre,
                        ViewState::TasksList => {
                            if key.key == Key::Enter {
                                match pre.selected_task_id {
                                    Some(id) => st == ViewState::TaskInstance(
                                        TaskDetailView::spec_new(id),
                                    ) && r == UpdateKind::SelectTask(id) && post == pre,
                                    None => r == UpdateKind::Other && st == pre_ui.state && post
                                        == pre,
                                }
                            } else if key.key == Key::Down || key.key == Key::Char('j') {
                                AppState::task_next_post(pre, post) && r == UpdateKind::Other
                                    && st == pre_ui.state
                            } else if key.key == Key::Up || key.key == Key::Char('k') {
                                AppState::task_prev_post(pre, post) && r == UpdateKind::Other
                                    && st == pre_ui.state
                            } else {
                                r == UpdateKind::Other && st == pre_ui.state && post == pre
                            }
                        },
                        ViewState::BackendsList => {
                            if key.key == Key::Enter {
                                match pre.spec_backend_name_choice() {
                                    Some(nm) => st == ViewState::BackendInstance(
                                        BackendView {
                                            backend_name: nm,
                                            current_tab: BackendTab::Info,
                                            task_cursor: None,
                                            resource_time_window: DEFAULT_TIME_WINDOW_MIN,
                                        },
                                    ) && r == UpdateKind::SelectBackend(nm) && post == pre,
                                    None => r == UpdateKind::Other && st == pre_ui.state && post
                                        == pre,
                                }
                            } else if key.key == Key::Down || key.key == Key::Char('j') {
                                AppState::backend_next_post(pre, post) && r == UpdateKind::Other
                                    && st == pre_ui.state
                            } else if key.key == Key::Up || key.key == Key::Char('k') {
                                AppState::backend_prev_post(pre, post) && r == UpdateKind::Other
                                    && st == pre_ui.state
                            } else {
                                r == UpdateKind::Other && st == pre_ui.state && post == pre
                            }
                        },
                        ViewState::TaskInstance(v) => {
                            if key.key == Key::Esc {
                                st == ViewState::TasksList && r == UpdateKind::ExitTaskView
                                    && post == pre
                            } else {
                                st == ViewState::TaskInstance(v.spec_step(key)) && r
                                    == UpdateKind::Other && post == pre
                            }
                        },
                        ViewState::BackendInstance(v) => {
                            if key.key == Key::Esc {
                                st == ViewState::BackendsList && r == UpdateKind::ExitBackendView
                                    && post == pre
                            } else {
                                st == ViewState::BackendInstance(
                                    v.spec_step(
                                        key,
                                        has_backend(backends_view(pre.backends@), v.backend_name@),
                                        spec_count_backend_tasks(pre.tasks@, v.backend_name@),
                                    ),
                                ) && r == UpdateKind::Other && post == pre
                            }
                        },
                    }
                }
            }),
    {
        if key.key == Key::F(1) || key.key == Key::Char('?') {
            return UpdateKind::ToggleHelp;
        }
        if key.key == Key::Char('q') {
            return UpdateKind::Quit;
        }
        if key.key == Key::Char('d') {
            self.state = ViewState::Dashboard;
            return UpdateKind::Other;
        }
        if key.key == Key::Char('t') {
            self.state = ViewState::TasksList;
            return UpdateKind::Other;
        }
        if key.key == Key::Char('b') {
            self.state = ViewState::BackendsList;
            return UpdateKind::Other;
        }
        if key.key == Key::Char('p') {
            return UpdateKind::TogglePause;
        }
        let mut taken = ViewState::Dashboard;
        core::mem::swap(&mut self.state, &mut taken);
        match taken {
            ViewState::Dashboard => {
                self.state = ViewState::Dashboard;
                UpdateKind::Other
            },
            ViewState::TasksList => {
                self.state = ViewState::TasksList;
                if key.key == Key::Enter {
                    match app_state.selected_task_id() {
                        Some(id) => {
                            self.state = ViewState::TaskInstance(TaskDetailView::new(id));
                            return UpdateKind::SelectTask(id);
                        },
                        None => {},
                    }
                } else if key.key == Key::Down || key.key == Key::Char('j') {
                    app_state.select_next_task();
                } else if key.key == Key::Up || key.key == Key::Char('k') {
                    app_state.select_prev_task();
                }
                UpdateKind::Other
            },
            ViewState::BackendsList => {
                self.state = ViewState::BackendsList;
                if key.key == Key::Enter {
                    match app_state.selected_backend_name() {
                        Some(nm) => {
                            let signal_name = nm.clone();
                            self.state = ViewState::BackendInstance(BackendView::new(nm));
                            return UpdateKind::SelectBackend(signal_name);
                        },
                        None => {},
                    }
                } else if key.key == Key::Down || key.key == Key::Char('j') {
                    app_state.select_next_backend();
                } else if key.key == Key::Up || key.key == Key::Char('k') {
                    app_state.select_prev_backend();
                }
                UpdateKind::Other
            },
            ViewState::TaskInstance(mut v) => {
                if key.key == Key::Esc {
                    self.state = ViewState::TasksList;
                    UpdateKind::ExitTaskView
                } else {
                    v.handle_key_event(key);
                    self.state = ViewState::TaskInstance(v);
                    UpdateKind::Other
                }
            },
            ViewState::BackendInstance(mut v) => {
                if key.key == Key::Esc {
                    self.state = ViewState::BackendsList;
                    UpdateKind::ExitBackendView
                } else {
                    v.handle_key_event(key, app_state);
                    self.state = ViewState::BackendInstance(v);
                    UpdateKind::Other
                }
            },
        }
    }
}

/// Whether some backend in the table has this name.
fn backend_exists(backends: &Vec<crate::backend::BackendState>, name: &String) -> (r: bool)
    ensures
        r == has_backend(backends_view(backends@), name@),
{
    let n = backends.len();
    let mut i: usize = 0;
    while i < n
        invariant
            0 <= i <= n,
            n == backends@.len(),
            forall|j: int| 0 <= j < i ==> backends_view(backends@)[j].name != name@,
        decreases n - i,
    {
        assert(backends_view(backends@)[i as int].name == backends@[i as int].name@);
        if backends[i].name == *name {
            return true;
        }
        i += 1;
    }
    false
}

} // verus!
