//! Start and stop of the worker process, as far as the host decides them.
//!
//! The host launches the worker, reads its standard output line by line
//! until a line announces the port of the worker's listener, waits a moment
//! and looks whether the worker is still alive. The rules of that handshake
//! are here; launching, reading and killing stay with the caller.

use vstd::prelude::*;
use vstd::string::StringExecFns;
use crate::text::{
    chars_of, contains, contains_text, decimal, last_word, last_word_of, lemma_decimal_reads_back,
    lemma_last_word_at_end, lemma_parse_of_decimal, parse_u16, push_decimal, read_u16,
};

verus! {

/// How long the host waits after the announcement before it looks whether
/// the worker is still alive, in milliseconds.
pub const STARTUP_GRACE_MS: u64 = 500;

/// The port that a line of the worker's output announces: the line holds
/// the words `Eventloop process iniciado en puerto` and its last word is a
/// port number.
pub open spec fn announced_port(line: Seq<char>) -> Option<u16> {
    if contains_text(line, "Eventloop process iniciado en puerto"@) {
        parse_u16(last_word(line))
    } else {
        None
    }
}

/// The line with which the worker announces the port of its listener.
pub open spec fn announcement(port: u16) -> Seq<char> {
    "Eventloop process iniciado en puerto "@ + decimal(port as nat)
}

/// The address of a listener on the local machine.
pub open spec fn loopback(port: u16) -> Seq<char> {
    "127.0.0.1:"@ + decimal(port as nat)
}

/// Looks for the announcement of a port in one line of the worker's output.
pub fn parse_port_announcement(line: &str) -> (port: Option<u16>)
    ensures
        port == announced_port(line@),
{
    let chars = chars_of(line);
    let marker = chars_of("Eventloop process iniciado en puerto");
    if contains(&chars, &marker) {
        let word = last_word_of(&chars);
        read_u16(&word)
    } else {
        None
    }
}

/// The line that announces `port`.
pub fn port_announcement(port: u16) -> (line: String)
    ensures
        line@ == announcement(port),
{
    let mut line = String::from_str("Eventloop process iniciado en puerto ");
    push_decimal(&mut line, port as u64);
    line
}

/// The address `127.0.0.1:port`, to bind the worker's listener to and to
/// connect the host to.
pub fn loopback_address(port: u16) -> (address: String)
    ensures
        address@ == loopback(port),
{
    let mut address = String::from_str("127.0.0.1:");
    push_decimal(&mut address, port as u64);
    address
}

/// The words for a worker that could not be launched.
pub open spec fn launch_failure(path: Seq<char>, reason: Seq<char>) -> Seq<char> {
    "Failed to spawn eventloop process '"@ + path + "': "@ + reason
}

/// The words for a worker that could not be reached.
pub open spec fn connect_failure(port: u16, reason: Seq<char>) -> Seq<char> {
    "Failed to connect to eventloop process on port "@ + decimal(port as nat) + ": "@ + reason
}

/// The words for a worker that could not be launched from the binary at
/// `path`, with the system's reason.
pub fn launch_failure_message(path: &str, reason: &str) -> (text: String)
    ensures
        text@ == launch_failure(path@, reason@),
{
    let mut text = String::from_str("Failed to spawn eventloop process '");
    text.append(path);
    text.append("': ");
    text.append(reason);
    text
}

/// The words for a worker that could not be reached on `port`, with the
/// system's reason.
pub fn connect_failure_message(port: u16, reason: &str) -> (text: String)
    ensures
        text@ == connect_failure(port, reason@),
{
    let mut text = String::from_str("Failed to connect to eventloop process on port ");
    push_decimal(&mut text, port as u64);
    text.append(": ");
    text.append(reason);
    text
}

/// The port that the worker binds, from its first command-line argument:
/// 0, for a port of the system's choice, without an argument; `None` where
/// the argument is no port number.
pub fn worker_port(argument: Option<&str>) -> (port: Option<u16>)
    ensures
        port == match argument {
            Some(text) => parse_u16(text@),
            None => Some(0u16),
        },
{
    match argument {
        Some(text) => {
            let chars = chars_of(text);
            read_u16(&chars)
        },
        None => Some(0),
    }
}

/// The host understands the worker: the line that announces a port is read
/// as that port.
pub proof fn lemma_announcement_is_understood(port: u16)
    ensures
        announced_port(announcement(port)) == Some(port),
{
    reveal_strlit("Eventloop process iniciado en puerto");
    reveal_strlit("Eventloop process iniciado en puerto ");
    let marker = "Eventloop process iniciado en puerto"@;
    let front = "Eventloop process iniciado en puerto "@;
    let numeral = decimal(port as nat);
    let line = announcement(port);
    lemma_decimal_reads_back(port as nat);
    lemma_parse_of_decimal(port);
    assert(line.subrange(0, marker.len() as int) =~= marker);
    assert(crate::text::occurs_at(line, marker, 0));
    assert(front.last() == ' ');
    lemma_last_word_at_end(front, numeral);
}

/// What the host found when it looked at the worker after the start-up
/// grace.
#[derive(Clone, Copy, Debug, PartialEq, Eq)]
pub enum ChildStatus {
    /// The worker is alive.
    Running,
    /// The worker has exited.
    Exited,
    /// The look itself failed.
    Unknown,
}

/// Why the worker could not be started or reached.
#[derive(Debug, PartialEq, Eq)]
pub enum StartupError {
    /// The worker's binary was not there after it was built.
    BinaryNotFound,
    /// Building the worker's binary failed; with what the build printed.
    BuildFailed(String),
    /// The worker's output closed before a line announced a port.
    NoAnnouncement,
    /// The worker exited within the start-up grace.
    ExitedEarly,
    /// No port is known to connect to.
    PortUnavailable,
}

/// The mathematical content of a [`StartupError`].
pub enum StartupErrorView {
    BinaryNotFound,
    BuildFailed(Seq<char>),
    NoAnnouncement,
    ExitedEarly,
    PortUnavailable,
}

impl View for StartupError {
    type V = StartupErrorView;

    open spec fn view(&self) -> StartupErrorView {
        match self {
            StartupError::BinaryNotFound => StartupErrorView::BinaryNotFound,
            StartupError::BuildFailed(output) => StartupErrorView::BuildFailed(output@),
            StartupError::NoAnnouncement => StartupErrorView::NoAnnouncement,
            StartupError::ExitedEarly => StartupErrorView::ExitedEarly,
            StartupError::PortUnavailable => StartupErrorView::PortUnavailable,
        }
    }
}

/// The words that describe a start-up error.
pub open spec fn startup_message(error: StartupErrorView) -> Seq<char> {
    match error {
        StartupErrorView::BinaryNotFound => "Eventloop binary not found after build"@,
        StartupErrorView::BuildFailed(output) => "Failed to build eventloop binary: "@ + output,
        StartupErrorView::NoAnnouncement => "Failed to read IPC port from eventloop process"@,
        StartupErrorView::ExitedEarly => "Eventloop process exited unexpectedly"@,
        StartupErrorView::PortUnavailable => "IPC port not available"@,
    }
}

impl StartupError {
    /// The words that describe this error.
    pub fn message(&self) -> (text: String)
        ensures
            text@ == startup_message(self@),
    {
        match self {
            StartupError::BinaryNotFound => String::from_str(
                "Eventloop binary not found after build",
            ),
            StartupError::BuildFailed(output) => {
                let mut text = String::from_str("Failed to build eventloop binary: ");
                text.append(output.as_str());
                text
            },
            StartupError::NoAnnouncement => String::from_str(
                "Failed to read IPC port from eventloop process",
            ),
            StartupError::ExitedEarly => String::from_str("Eventloop process exited unexpectedly"),
            StartupError::PortUnavailable => String::from_str("IPC port not available"),
        }
    }
}

/// How the handshake ends: with the port, or with the reason of failure.
pub open spec fn spawn_result(announced: Option<u16>, status: ChildStatus) -> Result<
    u16,
    StartupErrorView,
> {
    match announced {
        None => Err(StartupErrorView::NoAnnouncement),
        Some(port) => if status == ChildStatus::Exited {
            Err(StartupErrorView::ExitedEarly)
        } else {
            Ok(port)
        },
    }
}

/// Where the worker process stands in its life.
#[derive(Clone, Copy, Debug, PartialEq, Eq)]
pub enum ProcessPhase {
    /// Nothing was launched yet.
    NotStarted,
    /// The worker was launched; its port is not known yet.
    Starting,
    /// The worker has announced its port.
    Ready,
    /// The worker was alive after the start-up grace.
    Running,
    /// The worker is being killed.
    Stopping,
    /// The worker is gone.
    Stopped,
}

/// The worker process as the host sees it.
#[derive(Debug, PartialEq, Eq)]
pub struct EventloopProcess {
    phase: ProcessPhase,
    child_owned: bool,
    ipc_port: Option<u16>,
}

impl EventloopProcess {
    /// Where the worker stands in its life.
    pub closed spec fn spec_phase(&self) -> ProcessPhase {
        self.phase
    }

    /// Whether the host still holds the child process and has to kill it.
    pub closed spec fn owns_child(&self) -> bool {
        self.child_owned
    }

    /// The port of the worker's listener.
    pub closed spec fn port(&self) -> Option<u16> {
        self.ipc_port
    }

    /// Whether the worker counts as running.
    pub open spec fn running(&self) -> bool {
        self.spec_phase() == ProcessPhase::Running
    }

    /// A worker that was not launched yet.
    pub fn new() -> (process: Self)
        ensures
            process.spec_phase() == ProcessPhase::NotStarted,
            !process.owns_child(),
            process.port().is_none(),
    {
        EventloopProcess { phase: ProcessPhase::NotStarted, child_owned: false, ipc_port: None }
    }

    /// Where the worker stands in its life.
    pub fn phase(&self) -> (phase: ProcessPhase)
        ensures
            phase == self.spec_phase(),
    {
        self.phase
    }

    /// Takes note that the child process was launched: from now on the host
    /// holds it. Only a worker that was not started can be launched; the
    /// result tells whether this one was.
    pub fn launched(&mut self) -> (accepted: bool)
        ensures
            accepted == (old(self).spec_phase() == ProcessPhase::NotStarted),
            accepted ==> final(self).spec_phase() == ProcessPhase::Starting && final(self).owns_child()
                && final(self).port() == old(self).port(),
            !accepted ==> *final(self) == *old(self),
    {
        match self.phase {
            ProcessPhase::NotStarted => {
                self.phase = ProcessPhase::Starting;
                self.child_owned = true;
                true
            },
            _ => false,
        }
    }

    /// Takes one line of the output of a worker that is starting. Where the
    /// line announces a port, the worker is ready and the port comes back:
    /// no further line has to be read.
    pub fn read_line(&mut self, line: &str) -> (port: Option<u16>)
        ensures
            port == if old(self).spec_phase() == ProcessPhase::Starting {
                announced_port(line@)
            } else {
                None
            },
            final(self).owns_child() == old(self).owns_child(),
            match port {
                Some(p) => final(self).spec_phase() == ProcessPhase::Ready && final(self).port()
                    == Some(p),
                None => final(self).spec_phase() == old(self).spec_phase() && final(self).port()
                    == old(self).port(),
            },
    {
        match self.phase {
            ProcessPhase::Starting => {
                let port = parse_port_announcement(line);
                match port {
                    Some(p) => {
                        self.phase = ProcessPhase::Ready;
                        self.ipc_port = Some(p);
                    },
                    None => {},
                }
                port
            },
            _ => None,
        }
    }

    /// Ends the handshake once the output is read and the start-up grace is
    /// over; `status` is what the host found when it looked at the worker.
    /// A worker that is ready and did not exit runs. A worker that is ready
    /// and exited, and one that announced nothing, have failed: they are
    /// stopped, and the host holds on to the child until
    /// [`EventloopProcess::stop`].
    pub fn confirm(&mut self, status: ChildStatus) -> (r: Result<(), StartupError>)
        ensures
            final(self).owns_child() == old(self).owns_child(),
            final(self).port() == old(self).port(),
            match old(self).spec_phase() {
                ProcessPhase::Ready => if status == ChildStatus::Exited {
                    r == Err::<(), StartupError>(StartupError::ExitedEarly) && final(self).spec_phase() == ProcessPhase::Stopped
                } else {
                    r.is_ok() && final(self).spec_phase() == ProcessPhase::Running
                },
                ProcessPhase::Running => r.is_ok() && final(self).spec_phase()
                    == ProcessPhase::Running,
                ProcessPhase::Starting => r == Err::<(), StartupError>(
                    StartupError::NoAnnouncement,
                ) && final(self).spec_phase() == ProcessPhase::Stopped,
                _ => r == Err::<(), StartupError>(StartupError::NoAnnouncement) && final(self).spec_phase() == old(self).spec_phase(),
            },
    {
        match self.phase {
            ProcessPhase::Ready => match status {
                ChildStatus::Exited => {
                    self.phase = ProcessPhase::Stopped;
                    Err(StartupError::ExitedEarly)
                },
                _ => {
                    self.phase = ProcessPhase::Running;
                    Ok(())
                },
            },
            ProcessPhase::Running => Ok(()),
            ProcessPhase::Starting => {
                self.phase = ProcessPhase::Stopped;
                Err(StartupError::NoAnnouncement)
            },
            _ => Err(StartupError::NoAnnouncement),
        }
    }

    /// The whole handshake in one step. `announced` is the port that a line
    /// of the worker's output announced before the output closed, `status`
    /// what the host found after the start-up grace. The worker is taken
    /// over only where a port was announced and the worker did not exit
    /// meanwhile.
    pub fn spawn(announced: Option<u16>, status: ChildStatus) -> (r: Result<Self, StartupError>)
        ensures
            match r {
                Ok(process) => {
                    &&& spawn_result(announced, status) == Ok::<u16, StartupErrorView>(
                        process.port().unwrap(),
                    )
                    &&& process.port() == announced
                    &&& process.owns_child()
                    &&& process.running()
                },
                Err(e) => spawn_result(announced, status) == Err::<u16, StartupErrorView>(e@),
            },
    {
        let port = match announced {
            Some(port) => port,
            None => {
                return Err(StartupError::NoAnnouncement);
            },
        };
        match status {
            ChildStatus::Exited => Err(StartupError::ExitedEarly),
            _ => Ok(
                EventloopProcess {
                    phase: ProcessPhase::Running,
                    child_owned: true,
                    ipc_port: Some(port),
                },
            ),
        }
    }

    /// The port of the worker's listener.
    pub fn ipc_port(&self) -> (port: Option<u16>)
        ensures
            port == self.port(),
    {
        self.ipc_port
    }

    /// Whether the worker counts as running.
    pub fn is_running(&self) -> (running: bool)
        ensures
            running == self.running(),
    {
        match self.phase {
            ProcessPhase::Running => true,
            _ => false,
        }
    }

    /// Stops the worker. The result tells whether the caller has to kill
    /// the child process and wait for its exit: it has to where the host
    /// still held the child, and then tells [`EventloopProcess::reaped`]
    /// when that is done. After a stop the host holds no child, so a second
    /// stop asks for nothing.
    pub fn stop(&mut self) -> (kill: bool)
        ensures
            kill == old(self).owns_child(),
            !final(self).owns_child(),
            !final(self).running(),
            final(self).port() == old(self).port(),
            final(self).spec_phase() == if kill {
                ProcessPhase::Stopping
            } else if old(self).spec_phase() == ProcessPhase::Stopping {
                ProcessPhase::Stopping
            } else {
                ProcessPhase::Stopped
            },
    {
        let kill = self.child_owned;
        self.child_owned = false;
        if kill {
            self.phase = ProcessPhase::Stopping;
        } else {
            match self.phase {
                ProcessPhase::Stopping => {},
                _ => {
                    self.phase = ProcessPhase::Stopped;
                },
            }
        }
        kill
    }

    /// Takes note that the child process was killed and has exited.
    pub fn reaped(&mut self)
        ensures
            final(self).owns_child() == old(self).owns_child(),
            final(self).port() == old(self).port(),
            final(self).spec_phase() == if old(self).spec_phase() == ProcessPhase::Stopping {
                ProcessPhase::Stopped
            } else {
                old(self).spec_phase()
            },
    {
        match self.phase {
            ProcessPhase::Stopping => {
                self.phase = ProcessPhase::Stopped;
            },
            _ => {},
        }
    }

    /// The address at which the worker is reached: known once the worker
    /// has announced its port.
    pub fn connect_ipc(&self) -> (r: Result<String, StartupError>)
        ensures
            match r {
                Ok(address) => self.port() matches Some(port) && address@ == loopback(port),
                Err(e) => self.port().is_none() && e == StartupError::PortUnavailable,
            },
    {
        match self.ipc_port {
            Some(port) => Ok(loopback_address(port)),
            None => Err(StartupError::PortUnavailable),
        }
    }

    /// Picks the worker's binary among the places where it may lie, given
    /// which of them exist: the debug build, the release build, the current
    /// directory, in this order. `None` where none exists: the binary has to
    /// be built first.
    pub fn get_eventloop_binary_path(debug: bool, release: bool, local: bool) -> (path: Option<
        &'static str,
    >)
        ensures
            match path {
                Some(p) => p@ == if debug {
                    "target/debug/eventloop.exe"@
                } else if release {
                    "target/release/eventloop.exe"@
                } else {
                    "eventloop.exe"@
                } && (debug || release || local),
                None => !debug && !release && !local,
            },
    {
        if debug {
            Some("target/debug/eventloop.exe")
        } else if release {
            Some("target/release/eventloop.exe")
        } else if local {
            Some("eventloop.exe")
        } else {
            None
        }
    }

    /// Picks the worker's binary after it was built: the debug build, where
    /// the build went well and the binary is there. `output` is what the
    /// build printed on its error stream.
    pub fn built_binary_path(succeeded: bool, exists: bool, output: String) -> (r: Result<
        &'static str,
        StartupError,
    >)
        ensures
            match r {
                Ok(p) => succeeded && exists && p@ == "target/debug/eventloop.exe"@,
                Err(e) => e@ == if !succeeded {
                    StartupErrorView::BuildFailed(output@)
                } else {
                    StartupErrorView::BinaryNotFound
                } && !(succeeded && exists),
            },
    {
        if !succeeded {
            Err(StartupError::BuildFailed(output))
        } else if exists {
            Ok("target/debug/eventloop.exe")
        } else {
            Err(StartupError::BinaryNotFound)
        }
    }
}

/// A worker that exits within the start-up grace is never taken over, and
/// neither is one that announced no port.
pub proof fn lemma_early_exit_fails_spawn(announced: Option<u16>, status: ChildStatus)
    ensures
        spawn_result(announced, status) is Err <==> (announced.is_none() || status
            == ChildStatus::Exited),
        status == ChildStatus::Exited ==> spawn_result(announced, status) is Err,
{
}

} // verus!
