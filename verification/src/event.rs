//! Terminal events: the key model, the event stream vocabulary, and the
//! dispatcher that turns polled terminal input into application events.
//!
//! Reading the terminal itself is I/O and happens outside the library; what
//! was polled is handed in as a plain `PolledEvent` value.

use vstd::prelude::*;
use crate::app_state::{AppState, Temporality};
use crate::ui::{
    Ui, UpdateKind, ViewState, TaskDetailView, BackendView, BackendTab, DEFAULT_TIME_WINDOW_MIN,
    spec_count_backend_tasks,
};
use crate::update::has_backend;
use crate::app_state::backends_view;

verus! {

/// A named key, modeled as plain values.
#[derive(Debug, Clone, Copy, PartialEq, Eq, Structural)]
pub enum Key {
    Char(char),
    F(u8),
    Enter,
    Esc,
    Tab,
    BackTab,
    Up,
    Down,
    Left,
    Right,
    Home,
    End,
    Other,
}

/// One keyboard input: the key and whether Control was held.
#[derive(Debug, Clone, Copy, PartialEq, Eq, Structural)]
pub struct KeyInput {
    pub key: Key,
    pub ctrl: bool,
}

impl KeyInput {
    /// A plain key press without modifiers.
    pub fn plain(key: Key) -> (r: KeyInput)
        ensures
            r.key == key,
            !r.ctrl,
    {
        KeyInput { key, ctrl: false }
    }
}

/// Application events consumed by the main loop.
#[derive(Debug, Clone, Copy, PartialEq, Eq, Structural)]
pub enum Event {
    /// Keyboard input.
    Key(KeyInput),
    /// The terminal was resized.
    Resize(u16, u16),
    /// Nothing arrived within the poll window; used for animations only.
    Tick,
}

/// What one bounded poll of the terminal produced.
#[derive(Debug, Clone, Copy, PartialEq, Eq, Structural)]
pub enum PolledEvent {
    Key(KeyInput),
    Resize(u16, u16),
    /// Some other terminal event (mouse, focus, paste).
    Other,
}

/// Default event polling interval, in milliseconds.
pub const DEFAULT_TICK_RATE_MS: u64 = 100;

/// Turns what a bounded poll produced into the next application event.
pub struct EventDispatcher {
    /// Polling interval in milliseconds.
    pub tick_rate_ms: u64,
}

impl EventDispatcher {
    /// A dispatcher with the default tick rate.
    pub fn new() -> (r: EventDispatcher)
        ensures
            r.tick_rate_ms == DEFAULT_TICK_RATE_MS,
    {
        EventDispatcher { tick_rate_ms: DEFAULT_TICK_RATE_MS }
    }

    /// The same dispatcher with a custom tick rate.
    pub fn with_tick_rate(self, tick_rate_ms: u64) -> (r: EventDispatcher)
        ensures
            r.tick_rate_ms == tick_rate_ms,
    {
        EventDispatcher { tick_rate_ms }
    }

    /// The next event, given what one bounded poll of the terminal produced:
    /// keys and resizes pass through, and anything else — including an empty
    /// poll window — becomes a tick.
    pub fn next(&self, polled: Option<PolledEvent>) -> (r: Event)
        ensures
            r == match polled {
                Some(PolledEvent::Key(k)) => Event::Key(k),
                Some(PolledEvent::Resize(w, h)) => Event::Resize(w, h),
                Some(PolledEvent::Other) => Event::Tick,
                None => Event::Tick,
            },
    {
        match polled {
            Some(PolledEvent::Key(k)) => Event::Key(k),
            Some(PolledEvent::Resize(w, h)) => Event::Resize(w, h),
            Some(PolledEvent::Other) => Event::Tick,
            None => Event::Tick,
        }
    }
}

impl Default for EventDispatcher {
    /// Same as `EventDispatcher::new`.
    fn default() -> (r: EventDispatcher)
        ensures
            r.tick_rate_ms == DEFAULT_TICK_RATE_MS,
    {
        EventDispatcher::new()
    }
}

/// Toggling the pause flag: the transitional states resolve to the nearest
/// steady state.
pub open spec fn spec_toggle_pause(t: Temporality) -> Temporality {
    match t {
        Temporality::Live => Temporality::Paused,
        Temporality::Paused => Temporality::Live,
        Temporality::Pausing => Temporality::Live,
        Temporality::Unpausing => Temporality::Paused,
    }
}

/// What handling one event decided.
#[derive(Debug, Clone, Copy, PartialEq, Eq, Structural)]
pub enum EventResult {
    /// Event was handled, keep running.
    Continue,
    /// Exit the application.
    Exit,
    /// Event was ignored.
    Ignored,
}

/// Event handler owning the view controller: it routes events, performs the
/// selection and pause side effects the view layer signals, and decides
/// whether the application keeps running.
pub struct EventHandler {
    pub ui: Ui,
}

impl EventHandler {
    /// Wraps a view controller.
    pub fn new(ui: Ui) -> (r: EventHandler)
        ensures
            r.ui == ui,
    {
        EventHandler { ui }
    }

    /// Handles one event: keys are routed through the view controller and
    /// their signals acted on; a resize updates the stored size; a tick only
    /// advances animations.
    pub fn handle(&mut self, event: Event, app_state: &mut AppState) -> (r: EventResult)
        requires
            old(app_state).wf(),
        ensures
            final(app_state).wf(),
            match event {
                Event::Key(key) => EventHandler::key_post(
                    old(self).ui,
                    final(self).ui,
                    *old(app_state),
                    *final(app_state),
                    key,
                    r,
                ),
                Event::Resize(w, h) => {
                    &&& final(self).ui.terminal_width == w
                    &&& final(self).ui.terminal_height == h
                    &&& final(self).ui.state == old(self).ui.state
                    &&& final(self).ui.show_help == old(self).ui.show_help
                    &&& final(self).ui.animation_frame == old(self).ui.animation_frame
                    &&& *final(app_state) == *old(app_state)
                    &&& r == EventResult::Continue
                },
                Event::Tick => {
                    &&& final(self).ui.animation_frame == (old(self).ui.animation_frame + 1) % (
                    crate::ui::ANIMATION_FRAMES as int)
                    &&& final(self).ui.state == old(self).ui.state
                    &&& final(self).ui.show_help == old(self).ui.show_help
                    &&& final(self).ui.terminal_width == old(self).ui.terminal_width
                    &&& final(self).ui.terminal_height == old(self).ui.terminal_height
                    &&& *final(app_state) == *old(app_state)
                    &&& r == EventResult::Continue
                },
            },
    {
        match event {
            Event::Key(key) => self.handle_key_event(key, app_state),
            Event::Resize(width, height) => {
                self.ui.handle_resize(width, height);
                EventResult::Continue
            },
            Event::Tick => self.handle_tick(),
        }
    }

    /// What handling one key leaves behind: the whole decision table of the
    /// controller, from the Control shortcuts through the global keys down to
    /// the per-screen dispatch and the side effects its signals trigger.
    pub open spec fn key_post(
        pre_ui: Ui,
        post_ui: Ui,
        pre: AppState,
        post: AppState,
        key: KeyInput,
        r: EventResult,
    ) -> bool {
        if key.ctrl && (key.key == Key::Char('c') || key.key == Key::Char('d')) {
            r == EventResult::Exit && post == pre && post_ui == pre_ui
        } else {
            &&& post_ui.terminal_width == pre_ui.terminal_width
            &&& post_ui.terminal_height == pre_ui.terminal_height
            &&& post_ui.animation_frame == pre_ui.animation_frame
            &&& if key.key == Key::F(1) || key.key == Key::Char('?') {
                &&& r == EventResult::Continue
                &&& post_ui.show_help == !pre_ui.show_help
                &&& post_ui.state == pre_ui.state
                &&& post == pre
            } else {
                &&& post_ui.show_help == pre_ui.show_help
                &&& if key.key == Key::Char('q') {
                    r == EventResult::Exit && post_ui.state == pre_ui.state && post == pre
                } else if key.key == Key::Char('d') {
                    r == EventResult::Continue && post_ui.state == ViewState::Dashboard && post
                        == pre
                } else if key.key == Key::Char('t') {
                    r == EventResult::Continue && post_ui.state == ViewState::TasksList && post
                        == pre
                } else if key.key == Key::Char('b') {
                    r == EventResult::Continue && post_ui.state == ViewState::BackendsList && post
                        == pre
                } else if key.key == Key::Char('p') {
                    &&& r == EventResult::Continue
                    &&& post_ui.state == pre_ui.state
                    &&& post == (AppState {
                        temporality: spec_toggle_pause(pre.temporality),
                        ..pre
                    })
                } else {
                    r == EventResult::Continue && match pre_ui.state {
                        ViewState::Dashboard => post_ui.state == pre_ui.state && post == pre,
                        ViewState::TasksList => {
                            if key.key == Key::Enter {
                                match pre.selected_task_id {
                                    Some(id) => post_ui.state == ViewState::TaskInstance(
                                        TaskDetailView::spec_new(id),
                                    ) && AppState::select_task_post(pre, post, id),
                                    None => post_ui.state == pre_ui.state && post == pre,
                                }
                            } else if key.key == Key::Down || key.key == Key::Char('j') {
                                AppState::task_next_post(pre, post) && post_ui.state
                                    == pre_ui.state
                            } else if key.key == Key::Up || key.key == Key::Char('k') {
                                AppState::task_prev_post(pre, post) && post_ui.state
                                    == pre_ui.state
                            } else {
                                post_ui.state == pre_ui.state && post == pre
                            }
                        },
                        ViewState::BackendsList => {
                            if key.key == Key::Enter {
                                match pre.spec_backend_name_choice() {
                                    Some(nm) => post_ui.state == ViewState::BackendInstance(
                                        BackendView {
                                            backend_name: nm,
                                            current_tab: BackendTab::Info,
                                            task_cursor: None,
                                            resource_time_window: DEFAULT_TIME_WINDOW_MIN,
                                        },
                                    ) && AppState::select_backend_post(pre, post, nm@),
                                    None => post_ui.state == pre_ui.state && post == pre,
                                }
                            } else if key.key == Key::Down || key.key == Key::Char('j') {
                                AppState::backend_next_post(pre, post) && post_ui.state
                                    == pre_ui.state
                            } else if key.key == Key::Up || key.key == Key::Char('k') {
                                AppState::backend_prev_post(pre, post) && post_ui.state
                                    == pre_ui.state
                            } else {
                                post_ui.state == pre_ui.state && post == pre
                            }
                        },
                        ViewState::TaskInstance(v) => {
                            if key.key == Key::Esc {
                                &&& post_ui.state == ViewState::TasksList
                                &&& post.current_task_details is None
                                &&& post.selected_task_id is None
                                &&& post.selected_backend == pre.selected_backend
                                &&& post.frame_except_selection(pre)
                            } else {
                                post_ui.state == ViewState::TaskInstance(v.spec_step(key)) && post
                                    == pre
                            }
                        },
                        ViewState::BackendInstance(v) => {
                            if key.key == Key::Esc {
                                &&& post_ui.state == ViewState::BackendsList
                                &&& post.selected_backend is None
                                &&& post.current_task_details == pre.current_task_details
                                &&& post.selected_task_id == pre.selected_task_id
                                &&& post.frame_except_selection(pre)
                            } else {
                                post_ui.state == ViewState::BackendInstance(
                                    v.spec_step(
                                        key,
                                        has_backend(backends_view(pre.backends@), v.backend_name@),
                                        spec_count_backend_tasks(pre.tasks@, v.backend_name@),
                                    ),
                                ) && post == pre
                            }
                        },
                    }
                }
            }
        }
    }

    /// Handles one key: Control shortcuts exit; everything else is routed
    /// through the view controller and its signal acted on.
    pub fn handle_key_event(&mut self, key: KeyInput, app_state: &mut AppState) -> (r: EventResult)
        requires
            old(app_state).wf(),
        ensures
            final(app_state).wf(),
            EventHandler::key_post(
                old(self).ui,
                final(self).ui,
                *old(app_state),
                *final(app_state),
                key,
                r,
            ),
    {
        if key.ctrl && (key.key == Key::Char('c') || key.key == Key::Char('d')) {
            return EventResult::Exit;
        }
        let update_kind = self.ui.handle_key_event(key, app_state);
        match update_kind {
            UpdateKind::Quit => EventResult::Exit,
            UpdateKind::SelectTask(task_id) => {
                app_state.select_task(task_id);
                self.ui.navigate_to(ViewState::TaskInstance(TaskDetailView::new(task_id)));
                EventResult::Continue
            },
            UpdateKind::ExitTaskView => {
                app_state.deselect_task();
                self.ui.navigate_to(ViewState::TasksList);
                EventResult::Continue
            },
            UpdateKind::SelectBackend(backend_name) => {
                app_state.select_backend(backend_name.as_str());
                self.ui.navigate_to(ViewState::BackendInstance(BackendView::new(backend_name)));
                EventResult::Continue
            },
            UpdateKind::ExitBackendView => {
                app_state.deselect_backend();
                self.ui.navigate_to(ViewState::BackendsList);
                EventResult::Continue
            },
            UpdateKind::ToggleHelp => {
                self.ui.toggle_help();
                EventResult::Continue
            },
            UpdateKind::TogglePause => {
                app_state.temporality = match app_state.temporality {
                    Temporality::Live => Temporality::Paused,
                    Temporality::Paused => Temporality::Live,
                    Temporality::Pausing => Temporality::Live,
                    Temporality::Unpausing => Temporality::Paused,
                };
                EventResult::Continue
            },
            UpdateKind::Other => EventResult::Continue,
        }
    }

    /// Advances animations; ticks never mutate business state.
    pub fn handle_tick(&mut self) -> (r: EventResult)
        ensures
            final(self).ui.animation_frame == (old(self).ui.animation_frame + 1) % (
            crate::ui::ANIMATION_FRAMES as int),
            final(self).ui.state == old(self).ui.state,
            final(self).ui.show_help == old(self).ui.show_help,
            final(self).ui.terminal_width == old(self).ui.terminal_width,
            final(self).ui.terminal_height == old(self).ui.terminal_height,
            r == EventResult::Continue,
    {
        self.ui.update_animations();
        EventResult::Continue
    }
}

} // verus!
