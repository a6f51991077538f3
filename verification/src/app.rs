//! The application shell: configuration, the owned state and view
//! controller, the pause gate in front of update application, and the
//! top-level key handling. The terminal loop around it lives outside the
//! library and feeds in events and polled updates.

use vstd::prelude::*;
use crate::app_state::{
    AppState, Temporality, details_view, backends_view, spec_apply_task_batch,
    spec_task_batch_cache,
};
use crate::ext::interned_strings;
use crate::event::{Event, Key, KeyInput, spec_toggle_pause};
use crate::ui::{Ui, UpdateKind, ViewState, TaskDetailView, BackendView};
use crate::update::{
    TaskUpdate, BackendUpdate, task_update_wf, spec_apply_task_updates, spec_apply_backend_updates,
    has_backend,
};

verus! {

/// Application configuration.
#[derive(Debug, Clone, Copy, PartialEq, Eq, Structural)]
pub struct AppConfig {
    /// Animation tick interval, in milliseconds.
    pub tick_rate_ms: u64,
    /// Data refresh interval, in milliseconds.
    pub refresh_rate_ms: u64,
    /// Whether debug information is shown.
    pub debug_mode: bool,
}

impl Default for AppConfig {
    /// A quarter-second tick, a one-second refresh, debug off.
    fn default() -> (r: AppConfig)
        ensures
            r.tick_rate_ms == 250,
            r.refresh_rate_ms == 1000,
            !r.debug_mode,
    {
        AppConfig { tick_rate_ms: 250, refresh_rate_ms: 1000, debug_mode: false }
    }
}

impl AppConfig {
    /// Same as the default configuration.
    pub fn new() -> (r: AppConfig)
        ensures
            r.tick_rate_ms == 250,
            r.refresh_rate_ms == 1000,
            !r.debug_mode,
    {
        AppConfig::default()
    }
}

/// The main application: the state tree, the view controller, the
/// configuration and the quit flag.
pub struct App {
    /// Application state.
    pub state: AppState,
    /// Application configuration.
    pub config: AppConfig,
    /// View controller.
    pub ui: Ui,
    /// Set once a quit key or signal was seen.
    pub should_quit: bool,
}

impl App {
    /// A fresh application: empty live state, dashboard view, not quitting.
    pub fn new(config: AppConfig, now_ms: i64) -> (r: App)
        ensures
            r.state.wf(),
            r.state.tasks@ == Seq::<crate::task::TaskState>::empty(),
            r.state.backends@ == Seq::<crate::backend::BackendState>::empty(),
            r.state.temporality == Temporality::Live,
            r.config == config,
            r.ui.state == ViewState::Dashboard,
            !r.ui.show_help,
            !r.should_quit,
    {
        App { state: AppState::new(now_ms), config, ui: Ui::new(), should_quit: false }
    }

    /// Applies one round of polled monitor updates — unless monitoring is not
    /// live, in which case the polled updates are discarded and the whole
    /// application is left exactly as it was.
    pub fn update(
        &mut self,
        task_updates: Option<Vec<TaskUpdate>>,
        backend_updates: Option<Vec<BackendUpdate>>,
        now_ms: i64,
    )
        requires
            old(self).state.wf(),
            task_updates matches Some(tu) ==> forall|k: int|
                0 <= k < tu@.len() ==> task_update_wf(#[trigger] tu@[k]),
        ensures
            final(self).state.wf(),
            old(self).state.temporality != Temporality::Live ==> *final(self) == *old(self),
            old(self).state.temporality == Temporality::Live ==> {
                let tasks1 = match task_updates {
                    Some(tu) => spec_apply_task_updates(old(self).state.tasks@, tu@, now_ms),
                    None => old(self).state.tasks@,
                };
                let details1 = match task_updates {
                    Some(tu) => spec_apply_task_batch(
                        old(self).state.tasks@,
                        details_view(old(self).state.current_task_details),
                        tu@,
                        now_ms,
                    ).1,
                    None => details_view(old(self).state.current_task_details),
                };
                &&& final(self).state.tasks@ == tasks1
                &&& details_view(final(self).state.current_task_details) == details1
                &&& backends_view(final(self).state.backends@) == match backend_updates {
                    Some(bu) => spec_apply_backend_updates(
                        backends_view(old(self).state.backends@),
                        bu@,
                        now_ms,
                    ),
                    None => backends_view(old(self).state.backends@),
                }
                &&& final(self).state.last_update == match task_updates {
                    Some(tu) => now_ms,
                    None => old(self).state.last_update,
                }
                &&& interned_strings(final(self).state.strings) == match task_updates {
                    Some(tu) => spec_task_batch_cache(
                        interned_strings(old(self).state.strings),
                        tu@,
                    ),
                    None => interned_strings(old(self).state.strings),
                }
                &&& final(self).state.resources == old(self).state.resources
                &&& final(self).state.temporality == old(self).state.temporality
                &&& final(self).state.selected_task_id == old(self).state.selected_task_id
                &&& final(self).state.animation_frame == old(self).state.animation_frame
                &&& final(self).state.terminal_width == old(self).state.terminal_width
                &&& final(self).state.terminal_height == old(self).state.terminal_height
                &&& final(self).state.selected_backend == old(self).state.selected_backend
                &&& final(self).ui == old(self).ui
                &&& final(self).config == old(self).config
                &&& final(self).should_quit == old(self).should_quit
            },
    {
        if matches!(self.state.temporality, Temporality::Live) {
            match task_updates {
                Some(tu) => {
                    self.state.update_tasks(tu, now_ms);
                },
                None => {},
            }
            match backend_updates {
                Some(bu) => {
                    self.state.update_backends(bu, now_ms);
                },
                None => {},
            }
        }
    }

    /// Handles one loop event: keys are routed, a resize updates the view
    /// size, and a tick changes nothing here.
    pub fn handle_event(&mut self, event: Event)
        requires
            old(self).state.wf(),
        ensures
            final(self).state.wf(),
            match event {
                Event::Key(key) => App::key_post(*old(self), *final(self), key),
                Event::Tick => *final(self) == *old(self),
                Event::Resize(w, h) => {
                    &&& final(self).ui.terminal_width == w
                    &&& final(self).ui.terminal_height == h
                    &&& final(self).ui.state == old(self).ui.state
                    &&& final(self).ui.show_help == old(self).ui.show_help
                    &&& final(self).ui.animation_frame == old(self).ui.animation_frame
                    &&& final(self).state == old(self).state
                    &&& final(self).config == old(self).config
                    &&& final(self).should_quit == old(self).should_quit
                },
            },
    {
        match event {
            Event::Key(key) => self.handle_key_event(key),
            Event::Tick => {},
            Event::Resize(width, height) => {
                self.ui.handle_resize(width, height);
            },
        }
    }

    /// What one key leaves behind at the application level: quit and pause
    /// and help act directly — except that Escape inside a detail view goes
    /// back instead of quitting; everything else goes through the view
    /// controller, whose selection signals this level carries out.
    pub open spec fn key_post(pre: App, post: App, key: KeyInput) -> bool {
        &&& post.config == pre.config
        &&& if key.key == Key::Char('q') || (key.key == Key::Esc && !(
        pre.ui.state matches ViewState::TaskInstance(_)) && !(
        pre.ui.state matches ViewState::BackendInstance(_))) {
            &&& post.should_quit
            &&& post.state == pre.state
            &&& post.ui == pre.ui
        } else if key.key == Key::Esc {
            &&& post.should_quit == pre.should_quit
            &&& post.ui.show_help == pre.ui.show_help
            &&& post.ui.terminal_width == pre.ui.terminal_width
            &&& post.ui.terminal_height == pre.ui.terminal_height
            &&& post.ui.animation_frame == pre.ui.animation_frame
            &&& match pre.ui.state {
                ViewState::TaskInstance(_) => {
                    &&& post.ui.state == ViewState::TasksList
                    &&& post.state.current_task_details is None
                    &&& post.state.selected_task_id is None
                    &&& post.state.selected_backend == pre.state.selected_backend
                    &&& post.state.frame_except_selection(pre.state)
                },
                ViewState::BackendInstance(_) => {
                    &&& post.ui.state == ViewState::BackendsList
                    &&& post.state.selected_backend is None
                    &&& post.state.current_task_details == pre.state.current_task_details
                    &&& post.state.selected_task_id == pre.state.selected_task_id
                    &&& post.state.frame_except_selection(pre.state)
                },
                _ => false,
            }
        } else if key.key == Key::Char('p') {
            &&& post.state == (AppState {
                temporality: spec_toggle_pause(pre.state.temporality),
                ..pre.state
            })
            &&& post.ui == pre.ui
            &&& post.should_quit == pre.should_quit
        } else if key.key == Key::F(1) {
            &&& post.ui.show_help == !pre.ui.show_help
            &&& post.ui.state == pre.ui.state
            &&& post.ui.terminal_width == pre.ui.terminal_width
            &&& post.ui.terminal_height == pre.ui.terminal_height
            &&& post.ui.animation_frame == pre.ui.animation_frame
            &&& post.state == pre.state
            &&& post.should_quit == pre.should_quit
        } else {
            &&& post.ui.terminal_width == pre.ui.terminal_width
            &&& post.ui.terminal_height == pre.ui.terminal_height
            &&& post.ui.animation_frame == pre.ui.animation_frame
            &&& if key.key == Key::Char('?') {
                &&& post.ui.show_help == !pre.ui.show_help
                &&& post.ui.state == pre.ui.state
                &&& post.state == pre.state
                &&& post.should_quit == pre.should_quit
            } else {
                &&& post.ui.show_help == pre.ui.show_help
                &&& post.should_quit == pre.should_quit
                &&& if key.key == Key::Char('d') {
                    post.ui.state == ViewState::Dashboard && post.state == pre.state
                } else if key.key == Key::Char('t') {
                    post.ui.state == ViewState::TasksList && post.state == pre.state
                } else if key.key == Key::Char('b') {
                    post.ui.state == ViewState::BackendsList && post.state == pre.state
                } else {
                    match pre.ui.state {
                        ViewState::Dashboard => post.ui.state == pre.ui.state && post.state
                            == pre.state,
                        ViewState::TasksList => {
                            if key.key == Key::Enter {
                                match pre.state.selected_task_id {
                                    Some(id) => post.ui.state == ViewState::TaskInstance(
                                        TaskDetailView::spec_new(id),
                                    ) && AppState::select_task_post(pre.state, post.state, id),
                                    None => post.ui.state == pre.ui.state && post.state
                                        == pre.state,
                                }
                            } else if key.key == Key::Down || key.key == Key::Char('j') {
                                AppState::task_next_post(pre.state, post.state) && post.ui.state
                                    == pre.ui.state
                            } else if key.key == Key::Up || key.key == Key::Char('k') {
                                AppState::task_prev_post(pre.state, post.state) && post.ui.state
                                    == pre.ui.state
                            } else {
                                post.ui.state == pre.ui.state && post.state == pre.state
                            }
                        },
                        ViewState::BackendsList => {
                            if key.key == Key::Enter {
                                match pre.state.spec_backend_name_choice() {
                                    Some(nm) => post.ui.state == ViewState::BackendInstance(
                                        BackendView {
                                            backend_name: nm,
                                            current_tab: crate::ui::BackendTab::Info,
                                            task_cursor: None,
                                            resource_time_window: crate::ui::DEFAULT_TIME_WINDOW_MIN,
                                        },
                                    ) && AppState::select_backend_post(pre.state, post.state, nm@),
                                    None => post.ui.state == pre.ui.state && post.state
                                        == pre.state,
                                }
                            } else if key.key == Key::Down || key.key == Key::Char('j') {
                                AppState::backend_next_post(pre.state, post.state) && post.ui.state
                                    == pre.ui.state
                            } else if key.key == Key::Up || key.key == Key::Char('k') {
                                AppState::backend_prev_post(pre.state, post.state) && post.ui.state
                                    == pre.ui.state
                            } else {
                                post.ui.state == pre.ui.state && post.state == pre.state
                            }
                        },
                        ViewState::TaskInstance(v) => post.ui.state == ViewState::TaskInstance(
                            v.spec_step(key),
                        ) && post.state == pre.state,
                        ViewState::BackendInstance(v) => post.ui.state
                            == ViewState::BackendInstance(
                            v.spec_step(
                                key,
                                has_backend(backends_view(pre.state.backends@), v.backend_name@),
                                crate::ui::spec_count_backend_tasks(
                                    pre.state.tasks@,
                                    v.backend_name@,
                                ),
                            ),
                        ) && post.state == pre.state,
                    }
                }
            }
        }
    }

    /// Handles one key at the application level.
    pub fn handle_key_event(&mut self, key: KeyInput)
        requires
            old(self).state.wf(),
        ensures
            final(self).state.wf(),
            App::key_post(*old(self), *final(self), key),
    {
        let in_detail_view = match &self.ui.state {
            ViewState::TaskInstance(_) => true,
            ViewState::BackendInstance(_) => true,
            _ => false,
        };
        if key.key == Key::Char('q') || (key.key == Key::Esc && !in_detail_view) {
            self.should_quit = true;
        } else if key.key == Key::Char('p') {
            self.toggle_pause();
        } else if key.key == Key::F(1) {
            self.toggle_help();
        } else {
            let update_kind = self.ui.handle_key_event(key, &mut self.state);
            match update_kind {
                UpdateKind::Quit => {
                    self.should_quit = true;
                },
                UpdateKind::TogglePause => {
                    self.toggle_pause();
                },
                UpdateKind::ToggleHelp => {
                    self.toggle_help();
                },
                UpdateKind::SelectTask(task_id) => {
                    self.state.select_task(task_id);
                },
                UpdateKind::ExitTaskView => {
                    self.state.deselect_task();
                },
                UpdateKind::SelectBackend(backend_name) => {
                    self.state.select_backend(backend_name.as_str());
                },
                UpdateKind::ExitBackendView => {
                    self.state.deselect_backend();
                },
                UpdateKind::Other => {},
            }
        }
    }

    /// Toggles the pause flag; transitional states resolve to the nearest
    /// steady state.
    pub fn toggle_pause(&mut self)
        ensures
            final(self).state == (AppState {
                temporality: spec_toggle_pause(old(self).state.temporality),
                ..old(self).state
            }),
            final(self).ui == old(self).ui,
            final(self).config == old(self).config,
            final(self).should_quit == old(self).should_quit,
    {
        self.state.temporality = match self.state.temporality {
            Temporality::Live => Temporality::Paused,
            Temporality::Paused => Temporality::Live,
            Temporality::Pausing => Temporality::Live,
            Temporality::Unpausing => Temporality::Paused,
        };
    }

    /// Flips the help overlay.
    pub fn toggle_help(&mut self)
        ensures
            final(self).ui.show_help == !old(self).ui.show_help,
            final(self).ui.state == old(self).ui.state,
            final(self).ui.terminal_width == old(self).ui.terminal_width,
            final(self).ui.terminal_height == old(self).ui.terminal_height,
            final(self).ui.animation_frame == old(self).ui.animation_frame,
            final(self).state == old(self).state,
            final(self).config == old(self).config,
            final(self).should_quit == old(self).should_quit,
    {
        self.ui.toggle_help();
    }
}

} // verus!
