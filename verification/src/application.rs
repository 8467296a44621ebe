//! The application object of the host: which windows are open, how windows
//! come to be, how the event loop is steered and when it ends.

use std::collections::HashSet;
use vstd::prelude::*;
use crate::browser_window::{
    default_window_options, window_build_of, window_options_complete, window_options_json,
    BrowserWindow, BrowserWindowOptions, BrowserWindowOptionsView, WindowBuild,
};
use crate::ipc::{IpcError, IpcRequest, IpcResponse, RequestView};
use crate::proxy::{
    build_failed, build_failure, call_failed, call_failure, outcome_view, Mode,
};

verus! {

/// How long the host waits after it asked the worker to exit before it
/// stops the worker process, in milliseconds.
pub const EXIT_GRACE_MS: u64 = 500;

/// What the application tells its event callback.
#[derive(Clone, Copy, Debug, PartialEq, Eq)]
pub enum WebviewApplicationEvent {
    /// Window close event.
    WindowCloseRequested,
    /// Application close event.
    ApplicationCloseRequested,
}

/// The control flow that an application asks for.
#[derive(Clone, Copy, Debug, PartialEq, Eq)]
pub enum JsControlFlow {
    /// The application will continue running.
    Poll,
    /// The application will wait until the specified time.
    WaitUntil,
    /// The application will exit.
    Exit,
    /// The application will exit with the given exit code.
    ExitWithCode,
}

/// The options for creating an application.
#[derive(Clone, Copy, Debug, PartialEq, Eq)]
pub struct ApplicationOptions {
    /// The control flow of the application. Default is `Poll`.
    pub control_flow: Option<JsControlFlow>,
    /// The waiting time in milliseconds, for `WaitUntil`.
    pub wait_time: Option<i32>,
    /// The exit code, for `ExitWithCode`.
    pub exit_code: Option<i32>,
    /// Whether the application goes on when its last window was closed.
    /// Default is `false`.
    pub prevent_close: Option<bool>,
}

/// How the event loop goes on after an event.
#[derive(Clone, Copy, Debug, PartialEq, Eq)]
pub enum ControlFlow {
    /// Go on at once.
    Poll,
    /// Go on when this many milliseconds have passed.
    WaitUntil { millis: u64 },
    /// End the loop.
    Exit,
    /// End the loop with this exit code.
    ExitWithCode(i32),
}

/// The options of an application that was given none.
pub open spec fn default_application_options() -> ApplicationOptions {
    ApplicationOptions {
        control_flow: Some(JsControlFlow::Poll),
        wait_time: None,
        exit_code: None,
        prevent_close: None,
    }
}

/// A waiting time as a count of milliseconds: the two's complement of a
/// negative time.
pub open spec fn wait_millis(wait_time: i32) -> u64 {
    if wait_time >= 0 {
        wait_time as u64
    } else {
        (0x1_0000_0000_0000_0000 + wait_time) as u64
    }
}

/// The control flow that options ask for.
pub open spec fn control_flow_of(options: ApplicationOptions) -> ControlFlow {
    match options.control_flow {
        None => ControlFlow::Poll,
        Some(JsControlFlow::Poll) => ControlFlow::Poll,
        Some(JsControlFlow::WaitUntil) => ControlFlow::WaitUntil {
            millis: wait_millis(
                match options.wait_time {
                    Some(t) => t,
                    None => 0,
                },
            ),
        },
        Some(JsControlFlow::Exit) => ControlFlow::Exit,
        Some(JsControlFlow::ExitWithCode) => ControlFlow::ExitWithCode(
            match options.exit_code {
                Some(code) => code,
                None => 0,
            },
        ),
    }
}

/// The control flow that options ask for.
pub fn map_control_flow(options: &ApplicationOptions) -> (flow: ControlFlow)
    ensures
        flow == control_flow_of(*options),
{
    match options.control_flow {
        None => ControlFlow::Poll,
        Some(JsControlFlow::Poll) => ControlFlow::Poll,
        Some(JsControlFlow::WaitUntil) => {
            let wait_time: i32 = match options.wait_time {
                Some(t) => t,
                None => 0,
            };
            let millis: u64 = if wait_time >= 0 {
                wait_time as u64
            } else {
                u64::MAX - ((-(wait_time as i64) - 1) as u64)
            };
            ControlFlow::WaitUntil { millis }
        },
        Some(JsControlFlow::Exit) => ControlFlow::Exit,
        Some(JsControlFlow::ExitWithCode) => ControlFlow::ExitWithCode(
            match options.exit_code {
                Some(code) => code,
                None => 0,
            },
        ),
    }
}

/// What the event loop does with one event.
#[derive(Clone, Copy, Debug, PartialEq, Eq)]
pub struct LoopStep {
    /// What to tell the event callback, if anything.
    pub emit: Option<WebviewApplicationEvent>,
    /// How the loop goes on.
    pub flow: ControlFlow,
}

/// What the event loop of an application does with one event: whether the
/// application was asked to exit, whether the event is a window's request to
/// close, whether windows are open.
pub open spec fn loop_step(
    options: ApplicationOptions,
    exit_requested: bool,
    close_requested: bool,
    no_window_open: bool,
) -> LoopStep {
    if exit_requested {
        LoopStep {
            emit: Some(WebviewApplicationEvent::ApplicationCloseRequested),
            flow: ControlFlow::Exit,
        }
    } else if close_requested {
        LoopStep {
            emit: Some(WebviewApplicationEvent::WindowCloseRequested),
            flow: if !flag(options.prevent_close) && no_window_open {
                ControlFlow::Exit
            } else {
                control_flow_of(options)
            },
        }
    } else {
        LoopStep { emit: None, flow: control_flow_of(options) }
    }
}

/// The value of an optional flag that is off by default.
pub open spec fn flag(value: Option<bool>) -> bool {
    match value {
        Some(b) => b,
        None => false,
    }
}

/// How a window comes to be.
#[derive(Debug, PartialEq)]
pub enum WindowCreation {
    /// Build it in this process, from this.
    Build { window: BrowserWindow, build: WindowBuild },
    /// Send this request and wait for the reply; the window object stands
    /// for the one in the worker.
    Request { window: BrowserWindow, request: IpcRequest },
}

/// How `run` goes on.
#[derive(Clone, Copy, Debug, PartialEq, Eq)]
pub enum RunPlan {
    /// Return at once: the event loop runs in the worker.
    ReturnAtOnce,
    /// Run the event loop in this process, starting with this control flow.
    Loop(ControlFlow),
}

/// The application object of the host.
pub struct Application {
    options: ApplicationOptions,
    mode: Mode,
    exit: bool,
    open_windows: HashSet<u32>,
    next_window_id: u32,
}

/// The handle that follows `id`.
pub open spec fn following_handle(id: u32) -> u32 {
    if id == u32::MAX {
        0
    } else {
        (id + 1) as u32
    }
}

impl Application {
    /// The options of the application.
    pub closed spec fn options(&self) -> ApplicationOptions {
        self.options
    }

    /// Where the toolkit of the application lives.
    pub closed spec fn mode(&self) -> Mode {
        self.mode
    }

    /// Whether the application was asked to exit.
    pub closed spec fn exit_requested(&self) -> bool {
        self.exit
    }

    /// The handles of the open windows.
    pub closed spec fn open_windows(&self) -> Set<u32> {
        self.open_windows@
    }

    /// The handle that the next window gets.
    pub closed spec fn upcoming_window_id(&self) -> u32 {
        self.next_window_id
    }

    fn with_mode(options: Option<ApplicationOptions>, mode: Mode) -> (application: Self)
        ensures
            application.mode() == mode,
            application.options() == match options {
                Some(given) => given,
                None => default_application_options(),
            },
            !application.exit_requested(),
            application.open_windows() == Set::<u32>::empty(),
            application.upcoming_window_id() == 1,
    {
        let options = match options {
            Some(given) => given,
            None => ApplicationOptions {
                control_flow: Some(JsControlFlow::Poll),
                wait_time: None,
                exit_code: None,
                prevent_close: None,
            },
        };
        Application {
            options,
            mode,
            exit: false,
            open_windows: HashSet::new(),
            next_window_id: 1,
        }
    }

    /// An application whose event loop runs in this process.
    pub fn new(options: Option<ApplicationOptions>) -> (application: Self)
        ensures
            application.mode() == Mode::Direct,
            application.options() == match options {
                Some(given) => given,
                None => default_application_options(),
            },
            !application.exit_requested(),
            application.open_windows() == Set::<u32>::empty(),
            application.upcoming_window_id() == 1,
    {
        Application::with_mode(options, Mode::Direct)
    }

    /// An application whose event loop runs in the worker, so that the
    /// caller's thread is never blocked by it.
    pub fn new_non_blocking(options: Option<ApplicationOptions>) -> (application: Self)
        ensures
            application.mode() == Mode::Remote,
            application.options() == match options {
                Some(given) => given,
                None => default_application_options(),
            },
            !application.exit_requested(),
            application.open_windows() == Set::<u32>::empty(),
            application.upcoming_window_id() == 1,
    {
        Application::with_mode(options, Mode::Remote)
    }

    fn create_window(&mut self, options: Option<BrowserWindowOptions>, is_child: bool) -> (creation:
        WindowCreation)
        requires
            old(self).mode() == Mode::Direct ==> (options matches Some(given)
                ==> window_options_complete(given@)),
        ensures
            final(self).upcoming_window_id() == following_handle(old(self).upcoming_window_id()),
            final(self).options() == old(self).options(),
            final(self).mode() == old(self).mode(),
            final(self).exit_requested() == old(self).exit_requested(),
            final(self).open_windows() == old(self).open_windows(),
            creation_is(
                creation,
                old(self).mode(),
                old(self).upcoming_window_id(),
                match options {
                    Some(given) => given@,
                    None => default_window_options(),
                },
                is_child,
            ),
    {
        let window_id = self.next_window_id;
        self.next_window_id = window_id.wrapping_add(1);
        match self.mode {
            Mode::Direct => {
                let (window, build) = BrowserWindow::new(options, is_child, window_id);
                WindowCreation::Build { window, build }
            },
            Mode::Remote => {
                let options = match options {
                    Some(given) => given,
                    None => BrowserWindowOptions::default(),
                };
                WindowCreation::Request {
                    window: BrowserWindow::new_ipc_proxy(window_id),
                    request: IpcRequest::CreateBrowserWindow {
                        window_id,
                        options: options.to_json(),
                        is_child,
                    },
                }
            },
        }
    }

    /// Prepares a new window under a new handle. The window counts as open
    /// once [`Application::window_created`] was told that it came to be.
    pub fn create_browser_window(&mut self, options: Option<BrowserWindowOptions>) -> (creation:
        WindowCreation)
        requires
            old(self).mode() == Mode::Direct ==> (options matches Some(given)
                ==> window_options_complete(given@)),
        ensures
            final(self).upcoming_window_id() == following_handle(old(self).upcoming_window_id()),
            final(self).options() == old(self).options(),
            final(self).mode() == old(self).mode(),
            final(self).exit_requested() == old(self).exit_requested(),
            final(self).open_windows() == old(self).open_windows(),
            creation_is(
                creation,
                old(self).mode(),
                old(self).upcoming_window_id(),
                match options {
                    Some(given) => given@,
                    None => default_window_options(),
                },
                false,
            ),
    {
        self.create_window(options, false)
    }

    /// Prepares a new child window under a new handle.
    pub fn create_child_browser_window(
        &mut self,
        options: Option<BrowserWindowOptions>,
    ) -> (creation: WindowCreation)
        requires
            old(self).mode() == Mode::Direct ==> (options matches Some(given)
                ==> window_options_complete(given@)),
        ensures
            final(self).upcoming_window_id() == following_handle(old(self).upcoming_window_id()),
            final(self).options() == old(self).options(),
            final(self).mode() == old(self).mode(),
            final(self).exit_requested() == old(self).exit_requested(),
            final(self).open_windows() == old(self).open_windows(),
            creation_is(
                creation,
                old(self).mode(),
                old(self).upcoming_window_id(),
                match options {
                    Some(given) => given@,
                    None => default_window_options(),
                },
                true,
            ),
    {
        self.create_window(options, true)
    }

    /// Counts the window `window_id` as open: it was built, or the worker
    /// answered the request to create it.
    pub fn window_created(&mut self, window_id: u32)
        ensures
            final(self).open_windows() == old(self).open_windows().insert(window_id),
            final(self).upcoming_window_id() == old(self).upcoming_window_id(),
            final(self).options() == old(self).options(),
            final(self).mode() == old(self).mode(),
            final(self).exit_requested() == old(self).exit_requested(),
    {
        broadcast use vstd::std_specs::hash::group_hash_axioms;

        self.open_windows.insert(window_id);
    }

    /// Whether the event loop of this application runs in the worker.
    pub fn use_ipc(&self) -> (remote: bool)
        ensures
            remote == (self.mode() == Mode::Remote),
    {
        match self.mode {
            Mode::Remote => true,
            Mode::Direct => false,
        }
    }

    fn window_outcome(&mut self, window: BrowserWindow, failure: Option<String>) -> (r: Result<
        BrowserWindow,
        String,
    >)
        ensures
            final(self).upcoming_window_id() == old(self).upcoming_window_id(),
            final(self).options() == old(self).options(),
            final(self).mode() == old(self).mode(),
            final(self).exit_requested() == old(self).exit_requested(),
            match failure {
                None => r == Ok::<BrowserWindow, String>(window) && final(self).open_windows()
                    == old(self).open_windows().insert(window.spec_id()),
                Some(reason) => r == Err::<BrowserWindow, String>(reason) && final(self).open_windows() == old(self).open_windows(),
            },
    {
        match failure {
            None => {
                self.window_created(window.id());
                Ok(window)
            },
            Some(reason) => Err(reason),
        }
    }

    /// Takes the outcome of the request that creates `window` in the
    /// worker. Where the worker answered without an error the window counts
    /// as open and is handed out. Otherwise nothing is registered and the
    /// creation fails: with the worker's words for an error response, with
    /// the words for the failure of the connection otherwise.
    pub fn window_replied(
        &mut self,
        window: BrowserWindow,
        outcome: Result<IpcResponse, IpcError>,
    ) -> (r: Result<BrowserWindow, String>)
        ensures
            final(self).upcoming_window_id() == old(self).upcoming_window_id(),
            final(self).options() == old(self).options(),
            final(self).mode() == old(self).mode(),
            final(self).exit_requested() == old(self).exit_requested(),
            match call_failure(outcome_view(outcome)) {
                None => r == Ok::<BrowserWindow, String>(window) && final(self).open_windows()
                    == old(self).open_windows().insert(window.spec_id()),
                Some(reason) => r matches Err(text) && text@ == reason && final(self).open_windows() == old(self).open_windows(),
            },
    {
        let failure = call_failed(outcome);
        self.window_outcome(window, failure)
    }

    /// Takes the outcome of building `window` in this process; `outcome`
    /// carries the toolkit's words where the build failed. A window that
    /// was built counts as open and is handed out. Otherwise nothing is
    /// registered and the creation fails with `Failed to create window:` and
    /// the toolkit's words.
    pub fn window_built(&mut self, window: BrowserWindow, outcome: Result<(), String>) -> (r:
        Result<BrowserWindow, String>)
        ensures
            final(self).upcoming_window_id() == old(self).upcoming_window_id(),
            final(self).options() == old(self).options(),
            final(self).mode() == old(self).mode(),
            final(self).exit_requested() == old(self).exit_requested(),
            match build_failure("create window"@, outcome) {
                None => r == Ok::<BrowserWindow, String>(window) && final(self).open_windows()
                    == old(self).open_windows().insert(window.spec_id()),
                Some(reason) => r matches Err(text) && text@ == reason && final(self).open_windows() == old(self).open_windows(),
            },
    {
        let failure = build_failed("create window", outcome);
        self.window_outcome(window, failure)
    }

    /// Closes the window `window_id`: it no longer counts as open. In
    /// remote mode the result is the request to send to the worker, without
    /// waiting for a reply.
    pub fn close_window(&mut self, window_id: u32) -> (request: Option<IpcRequest>)
        ensures
            final(self).open_windows() == old(self).open_windows().remove(window_id),
            final(self).upcoming_window_id() == old(self).upcoming_window_id(),
            final(self).options() == old(self).options(),
            final(self).mode() == old(self).mode(),
            final(self).exit_requested() == old(self).exit_requested(),
            match request {
                Some(r) => old(self).mode() == Mode::Remote && r@ == (RequestView::CloseWindow {
                    window_id,
                }),
                None => old(self).mode() == Mode::Direct,
            },
    {
        broadcast use vstd::std_specs::hash::group_hash_axioms;

        self.open_windows.remove(&window_id);
        match self.mode {
            Mode::Remote => Some(IpcRequest::CloseWindow { window_id }),
            Mode::Direct => None,
        }
    }

    /// Asks the application to exit. In remote mode the result is the
    /// request to send to the worker, without waiting for a reply; the
    /// caller then waits [`EXIT_GRACE_MS`] and stops the worker process.
    pub fn exit(&mut self) -> (request: Option<IpcRequest>)
        ensures
            final(self).exit_requested(),
            final(self).open_windows() == old(self).open_windows(),
            final(self).upcoming_window_id() == old(self).upcoming_window_id(),
            final(self).options() == old(self).options(),
            final(self).mode() == old(self).mode(),
            match request {
                Some(r) => old(self).mode() == Mode::Remote && r@ == RequestView::Exit,
                None => old(self).mode() == Mode::Direct,
            },
    {
        self.exit = true;
        match self.mode {
            Mode::Remote => Some(IpcRequest::Exit),
            Mode::Direct => None,
        }
    }

    /// What running the application means: in remote mode nothing, the
    /// event loop already runs in the worker; in direct mode the event loop
    /// runs in the caller's thread and blocks it.
    pub fn run(&self) -> (plan: RunPlan)
        ensures
            plan == match self.mode() {
                Mode::Remote => RunPlan::ReturnAtOnce,
                Mode::Direct => RunPlan::Loop(control_flow_of(self.options())),
            },
    {
        match self.mode {
            Mode::Remote => RunPlan::ReturnAtOnce,
            Mode::Direct => RunPlan::Loop(map_control_flow(&self.options)),
        }
    }

    /// What the event loop does with one event. `close_requested` tells
    /// whether the event is a window's request to close.
    pub fn on_loop_event(&self, close_requested: bool) -> (step: LoopStep)
        ensures
            step == loop_step(
                self.options(),
                self.exit_requested(),
                close_requested,
                self.open_windows().is_empty(),
            ),
    {
        if self.exit {
            LoopStep {
                emit: Some(WebviewApplicationEvent::ApplicationCloseRequested),
                flow: ControlFlow::Exit,
            }
        } else if close_requested {
            let prevent_close = match self.options.prevent_close {
                Some(b) => b,
                None => false,
            };
            let flow = if !prevent_close && self.open_windows.is_empty() {
                ControlFlow::Exit
            } else {
                map_control_flow(&self.options)
            };
            LoopStep { emit: Some(WebviewApplicationEvent::WindowCloseRequested), flow }
        } else {
            LoopStep { emit: None, flow: map_control_flow(&self.options) }
        }
    }
}

/// Whether `creation` is how the window `window_id` comes to be from
/// `options` in `mode`.
pub open spec fn creation_is(
    creation: WindowCreation,
    mode: Mode,
    window_id: u32,
    options: BrowserWindowOptionsView,
    is_child: bool,
) -> bool {
    match creation {
        WindowCreation::Build { window, build } => {
            &&& mode == Mode::Direct
            &&& window.spec_mode() == Mode::Direct
            &&& window.spec_id() == window_id
            &&& window.spec_is_child() == is_child
            &&& build@ == window_build_of(options)
        },
        WindowCreation::Request { window, request } => {
            &&& mode == Mode::Remote
            &&& window.spec_mode() == Mode::Remote
            &&& window.spec_id() == window_id
            &&& !window.spec_is_child()
            &&& request@ == (RequestView::CreateBrowserWindow {
                window_id,
                options: window_options_json(options),
                is_child,
            })
        },
    }
}

} // verus!
