//! The Minecraft server on an EC2 instance, reached over SSH.
//!
//! Starting, stopping, sending a game command and reading the log alternate
//! between remote work (EC2 calls, SSH connections and commands) and
//! decisions. The decisions are made here, one step at a time: each step
//! takes what the caller observed (a `ServerEvent`) and answers with the next
//! thing to do (a `ServerAction`), updating the server and the run.
use vstd::prelude::*;
use crate::aws::virtual_machine::ec2::instance::{Ec2Object, Ec2ObjectView};
use crate::text::{contains, has_substring, newlines_as_breaks, newlines_to_breaks, same_text};

verus! {

/// Where the server is in its life.
#[allow(non_camel_case_types)]
#[derive(Clone, Copy, Debug, PartialEq, Eq, Structural)]
pub enum State {
    /// The instance is starting.
    STARTING,
    /// The game server is started (or starting) on a running instance.
    STARTED,
    ERROR,
    STOPPING,
    STOPPED,
}

/// The name under which a state is shown.
pub open spec fn state_label(s: State) -> Seq<char> {
    match s {
        State::STARTING => "STARTING"@,
        State::STARTED => "STARTED"@,
        State::ERROR => "ERROR"@,
        State::STOPPING => "STOPPING"@,
        State::STOPPED => "STOPPED"@,
    }
}

/// The server state that an instance state name stands for.
pub open spec fn state_for_status(status: Seq<char>) -> State {
    if status == "stopped"@ {
        State::STOPPED
    } else if status == "stopping"@ {
        State::STOPPING
    } else if status == "running"@ {
        State::STARTED
    } else if status == "pending"@ {
        State::STARTING
    } else {
        State::ERROR
    }
}

impl State {
    /// The name under which the state is shown ("STARTING", "STARTED", ...).
    pub fn as_string(&self) -> (r: String)
        ensures
            r@ == state_label(*self),
    {
        match self {
            State::STARTING => String::from_str("STARTING"),
            State::STARTED => String::from_str("STARTED"),
            State::ERROR => String::from_str("ERROR"),
            State::STOPPING => String::from_str("STOPPING"),
            State::STOPPED => String::from_str("STOPPED"),
        }
    }

    /// The server state for an instance state name.
    pub fn from_status(status: &str) -> (r: State)
        ensures
            r == state_for_status(status@),
    {
        if same_text(status, "stopped") {
            State::STOPPED
        } else if same_text(status, "stopping") {
            State::STOPPING
        } else if same_text(status, "running") {
            State::STARTED
        } else if same_text(status, "pending") {
            State::STARTING
        } else {
            State::ERROR
        }
    }
}

/// Where the server lives and how it is set up, as the configuration file gives it.
#[derive(Debug, PartialEq, Eq)]
pub struct Ec2Config {
    /// id of the instance to work with
    pub instance_id: Option<String>,
    /// role ARN assumed when working with the instance
    pub role_arn: Option<String>,
    /// path of the SSH key
    pub ssh_key: Option<String>,
    /// commands that install the game server
    pub init_script: Option<Vec<String>>,
    /// commands that launch the game server
    pub main_script: Option<Vec<String>>,
}

pub struct Ec2ConfigView {
    pub instance_id: Option<Seq<char>>,
    pub role_arn: Option<Seq<char>>,
    pub ssh_key: Option<Seq<char>>,
    pub init_script: Option<Seq<Seq<char>>>,
    pub main_script: Option<Seq<Seq<char>>>,
}

impl DeepView for Ec2Config {
    type V = Ec2ConfigView;

    open spec fn deep_view(&self) -> Ec2ConfigView {
        Ec2ConfigView {
            instance_id: self.instance_id.deep_view(),
            role_arn: self.role_arn.deep_view(),
            ssh_key: self.ssh_key.deep_view(),
            init_script: self.init_script.deep_view(),
            main_script: self.main_script.deep_view(),
        }
    }
}

/// A copy of a list of strings.
pub fn copy_strings(v: &Vec<String>) -> (r: Vec<String>)
    ensures
        r.deep_view() == v.deep_view(),
{
    let mut r: Vec<String> = Vec::new();
    let mut i: usize = 0;
    while i < v.len()
        invariant
            i <= v.len(),
            r.deep_view() == v.deep_view().take(i as int),
        decreases v.len() - i,
    {
        let ghost before = r.deep_view();
        r.push(v[i].clone());
        assert(r.deep_view() =~= before.push(v.deep_view()[i as int]));
        assert(r.deep_view() =~= v.deep_view().take(i + 1));
        i = i + 1;
    }
    assert(v.deep_view().take(v.len() as int) =~= v.deep_view());
    r
}

// ---------------------------------------------------------------------------
// Commands and messages
// ---------------------------------------------------------------------------

/// The file whose presence in ~/spigot shows the game server is installed.
pub open spec fn jar_name() -> Seq<char> {
    "spigot-1.16.4.jar"@
}

/// The command that lists the install directory.
pub open spec fn install_check_command() -> Seq<char> {
    "ls ~/spigot"@
}

/// The command that lists the running processes.
pub open spec fn running_check_command() -> Seq<char> {
    "ps -aux"@
}

/// What the process list shows while the game server runs.
pub open spec fn process_name() -> Seq<char> {
    "spigot"@
}

/// The command that prints the game server's log.
pub open spec fn log_command() -> Seq<char> {
    "cat ~/spigot/logs/latest.log"@
}

/// The command that shuts the instance down a minute later.
pub open spec fn shutdown_command() -> Seq<char> {
    "sudo shutdown +1"@
}

/// The shell command that types `cmd` (and Enter) into the game console,
/// which runs in the screen session "mc".
pub open spec fn screen_line(cmd: Seq<char>) -> Seq<char> {
    "sudo screen -S mc -X stuff \""@ + cmd + "^M\""@
}

/// The game command that stops the game server.
pub open spec fn stop_game_command() -> Seq<char> {
    "stop"@
}

pub open spec fn no_status_message() -> Seq<char> {
    "No status! Correct id?"@
}

/// The complaint when a setting that the step needs is missing.
pub open spec fn missing_value_message() -> Seq<char> {
    "called `Option::unwrap()` on a `None` value"@
}

/// The complaint when an event does not fit the step the run is at.
pub open spec fn unexpected_event_message() -> Seq<char> {
    "unexpected event for this step"@
}

/// What `get_ip` reports when the instance has no public address.
pub open spec fn no_ip_message() -> Seq<char> {
    "couldnt get ip"@
}

/// What `log` reports when the server is not started.
pub open spec fn log_unavailable_message(s: State) -> Seq<char> {
    "server is either in a starting or stopping state, state: "@ + state_label(s)
}

/// The shell command that types `cmd` into the game console.
pub fn screen_command(cmd: &str) -> (r: String)
    ensures
        r@ == screen_line(cmd@),
{
    String::from_str("sudo screen -S mc -X stuff \"").concat(cmd).concat("^M\"")
}

// ---------------------------------------------------------------------------
// Events and actions
// ---------------------------------------------------------------------------

/// What the caller observed since the last step.
#[derive(Debug, PartialEq, Eq)]
pub enum ServerEvent {
    /// The operation is asked for.
    Begin,
    /// The instance's state name, as the instance lookup gave it.
    Status(Option<String>),
    /// The request that boots the instance has been made.
    Booted,
    /// Whether opening the SSH session succeeded.
    Connected(bool),
    /// The output of the last SSH command, or the error it failed with.
    Output(Result<String, String>),
    /// The instance's public address, as the instance lookup gave it.
    Ip(Option<String>),
    /// The SSH session has been closed.
    Closed,
}

pub enum ServerEventView {
    Begin,
    Status(Option<Seq<char>>),
    Booted,
    Connected(bool),
    Output(Result<Seq<char>, Seq<char>>),
    Ip(Option<Seq<char>>),
    Closed,
}

impl View for ServerEvent {
    type V = ServerEventView;

    open spec fn view(&self) -> ServerEventView {
        match self {
            ServerEvent::Begin => ServerEventView::Begin,
            ServerEvent::Status(s) => ServerEventView::Status(s.deep_view()),
            ServerEvent::Booted => ServerEventView::Booted,
            ServerEvent::Connected(b) => ServerEventView::Connected(*b),
            ServerEvent::Output(r) => ServerEventView::Output(
                match r {
                    Ok(o) => Ok(o@),
                    Err(e) => Err(e@),
                },
            ),
            ServerEvent::Ip(s) => ServerEventView::Ip(s.deep_view()),
            ServerEvent::Closed => ServerEventView::Closed,
        }
    }
}

/// What the caller is asked to do next.
#[derive(Debug, PartialEq, Eq)]
pub enum ServerAction {
    /// Look up the instance and report its state name (`Status`).
    QueryStatus,
    /// Ask EC2 to boot the instance, wait for it, then report `Booted`.
    BootInstance,
    /// Open an SSH session with the key at this path; report `Connected`.
    Connect(String),
    /// Wait five seconds, then open an SSH session with the key at this path.
    RetryConnect(String),
    /// Run this command over SSH; report its output.
    Exec(String),
    /// Run this command over SSH, print it with its result; report the output.
    Run(String),
    /// Run this launch command over SSH, print its result; report the output.
    RunMain(String),
    /// Look up the instance's public address (`Ip`).
    QueryIp,
    /// Close the SSH session (`Closed`).
    Close,
    /// The operation succeeded with this value.
    Finish(String),
    /// The operation failed with this message.
    Abort(String),
}

pub enum ServerActionView {
    QueryStatus,
    BootInstance,
    Connect(Seq<char>),
    RetryConnect(Seq<char>),
    Exec(Seq<char>),
    Run(Seq<char>),
    RunMain(Seq<char>),
    QueryIp,
    Close,
    Finish(Seq<char>),
    Abort(Seq<char>),
}

impl View for ServerAction {
    type V = ServerActionView;

    open spec fn view(&self) -> ServerActionView {
        match self {
            ServerAction::QueryStatus => ServerActionView::QueryStatus,
            ServerAction::BootInstance => ServerActionView::BootInstance,
            ServerAction::Connect(k) => ServerActionView::Connect(k@),
            ServerAction::RetryConnect(k) => ServerActionView::RetryConnect(k@),
            ServerAction::Exec(c) => ServerActionView::Exec(c@),
            ServerAction::Run(c) => ServerActionView::Run(c@),
            ServerAction::RunMain(c) => ServerActionView::RunMain(c@),
            ServerAction::QueryIp => ServerActionView::QueryIp,
            ServerAction::Close => ServerActionView::Close,
            ServerAction::Finish(s) => ServerActionView::Finish(s@),
            ServerAction::Abort(s) => ServerActionView::Abort(s@),
        }
    }
}

// ---------------------------------------------------------------------------
// The server
// ---------------------------------------------------------------------------

/// A Minecraft server on an EC2 instance.
pub struct MCServer {
    ec2: Ec2Object,
    config: Ec2Config,
    ssh_open: bool,
    state: State,
}

pub struct MCServerView {
    pub ec2: Ec2ObjectView,
    pub config: Ec2ConfigView,
    /// Whether an SSH session to the instance has been opened.
    pub ssh_open: bool,
    pub state: State,
}

impl MCServerView {
    pub open spec fn with_state(self, state: State) -> MCServerView {
        MCServerView { state, ..self }
    }

    pub open spec fn with_ssh(self) -> MCServerView {
        MCServerView { ssh_open: true, ..self }
    }

    /// The install commands the configuration gives (none when it gives none).
    pub open spec fn init_commands(self) -> Seq<Seq<char>> {
        match self.config.init_script {
            Some(c) => c,
            None => Seq::empty(),
        }
    }

    /// The launch commands the configuration gives (none when it gives none).
    pub open spec fn main_commands(self) -> Seq<Seq<char>> {
        match self.config.main_script {
            Some(c) => c,
            None => Seq::empty(),
        }
    }
}

impl View for MCServer {
    type V = MCServerView;

    closed spec fn view(&self) -> MCServerView {
        MCServerView {
            ec2: self.ec2@,
            config: self.config.deep_view(),
            ssh_open: self.ssh_open,
            state: self.state,
        }
    }
}

// ---------------------------------------------------------------------------
// Runs of the operations
// ---------------------------------------------------------------------------

/// The steps of a start.
#[derive(Clone, Copy, Debug, PartialEq, Eq, Structural)]
pub enum StartPhase {
    Idle,
    /// The first look at the instance's state is awaited.
    CheckStatus,
    /// The instance is stopping: its state is read until it is readable ...
    WaitStoppedFirst,
    /// ... and read again to see whether it is still stopping.
    WaitStoppedSecond,
    Booting,
    Connecting,
    /// The listing of the install directory is awaited.
    InstallCheck,
    /// The output of an install command is awaited.
    Installing,
    /// The process list is awaited.
    RunningCheck,
    /// The output of a launch command is awaited.
    Launching,
    FetchingIp,
    Done,
    Failed,
}

/// Where a start stands: its step, and the commands of the batch being run
/// (with the position of the one whose output is awaited).
pub struct StartRun {
    phase: StartPhase,
    batch: Vec<String>,
    next: usize,
}

pub struct StartRunView {
    pub phase: StartPhase,
    pub batch: Seq<Seq<char>>,
    pub next: int,
}

impl View for StartRun {
    type V = StartRunView;

    closed spec fn view(&self) -> StartRunView {
        StartRunView { phase: self.phase, batch: self.batch.deep_view(), next: self.next as int }
    }
}

pub open spec fn start_at(phase: StartPhase) -> StartRunView {
    StartRunView { phase, batch: Seq::empty(), next: 0 }
}

/// The step of a start after the instance is up (or was up): check the
/// settings the rest needs, then open the SSH session.
pub open spec fn start_prepare(s: MCServerView) -> (MCServerView, StartRunView, ServerActionView) {
    if s.config.init_script is None || s.config.main_script is None {
        (s, start_at(StartPhase::Failed), ServerActionView::Abort(missing_value_message()))
    } else {
        match s.config.ssh_key {
            Some(key) => (s, start_at(StartPhase::Connecting), ServerActionView::Connect(key)),
            None => (s, start_at(StartPhase::Failed), ServerActionView::Abort(missing_value_message())),
        }
    }
}

/// The step that checks whether the game server already runs.
pub open spec fn start_running_check(s: MCServerView) -> (MCServerView, StartRunView, ServerActionView) {
    (s, start_at(StartPhase::RunningCheck), ServerActionView::Exec(running_check_command()))
}

/// The step once the game server is launched: mark it started, fetch the address.
pub open spec fn start_launched(s: MCServerView) -> (MCServerView, StartRunView, ServerActionView) {
    (s.with_state(State::STARTED), start_at(StartPhase::FetchingIp), ServerActionView::QueryIp)
}

/// Run install command `k` of `cmds`, or go on once all have run.
pub open spec fn install_from(s: MCServerView, cmds: Seq<Seq<char>>, k: int) -> (
    MCServerView,
    StartRunView,
    ServerActionView,
) {
    if 0 <= k < cmds.len() {
        (
            s,
            StartRunView { phase: StartPhase::Installing, batch: cmds, next: k },
            ServerActionView::Run(cmds[k]),
        )
    } else {
        start_running_check(s)
    }
}

/// Run launch command `k` of `cmds`, or go on once all have run.
pub open spec fn launch_from(s: MCServerView, cmds: Seq<Seq<char>>, k: int) -> (
    MCServerView,
    StartRunView,
    ServerActionView,
) {
    if 0 <= k < cmds.len() {
        (
            s,
            StartRunView { phase: StartPhase::Launching, batch: cmds, next: k },
            ServerActionView::RunMain(cmds[k]),
        )
    } else {
        start_launched(s)
    }
}

/// One step of a start: the server, run and action after event `e`.
pub open spec fn start_next(s: MCServerView, r: StartRunView, e: ServerEventView) -> (
    MCServerView,
    StartRunView,
    ServerActionView,
) {
    let unexpected = (
        s,
        start_at(StartPhase::Failed),
        ServerActionView::Abort(unexpected_event_message()),
    );
    match r.phase {
        StartPhase::Idle => match e {
            ServerEventView::Begin => (s, start_at(StartPhase::CheckStatus), ServerActionView::QueryStatus),
            _ => unexpected,
        },
        StartPhase::CheckStatus => match e {
            ServerEventView::Status(None) => (
                s,
                start_at(StartPhase::Failed),
                ServerActionView::Abort(no_status_message()),
            ),
            ServerEventView::Status(Some(st)) => if st == "stopped"@ {
                (s.with_state(State::STARTING), start_at(StartPhase::Booting), ServerActionView::BootInstance)
            } else if st == "stopping"@ {
                (s, start_at(StartPhase::WaitStoppedFirst), ServerActionView::QueryStatus)
            } else {
                start_prepare(s)
            },
            _ => unexpected,
        },
        StartPhase::WaitStoppedFirst => match e {
            ServerEventView::Status(None) => (s, start_at(StartPhase::WaitStoppedFirst), ServerActionView::QueryStatus),
            ServerEventView::Status(Some(_)) => (s, start_at(StartPhase::WaitStoppedSecond), ServerActionView::QueryStatus),
            _ => unexpected,
        },
        StartPhase::WaitStoppedSecond => match e {
            ServerEventView::Status(None) => (
                s,
                start_at(StartPhase::Failed),
                ServerActionView::Abort(missing_value_message()),
            ),
            ServerEventView::Status(Some(st)) => if st == "stopping"@ {
                (s, start_at(StartPhase::WaitStoppedFirst), ServerActionView::QueryStatus)
            } else {
                (s.with_state(State::STARTING), start_at(StartPhase::Booting), ServerActionView::BootInstance)
            },
            _ => unexpected,
        },
        StartPhase::Booting => match e {
            ServerEventView::Booted => start_prepare(s),
            _ => unexpected,
        },
        StartPhase::Connecting => match e {
            ServerEventView::Connected(false) => match s.config.ssh_key {
                Some(key) => (s, start_at(StartPhase::Connecting), ServerActionView::RetryConnect(key)),
                None => (s, start_at(StartPhase::Failed), ServerActionView::Abort(missing_value_message())),
            },
            ServerEventView::Connected(true) => (
                s.with_ssh(),
                start_at(StartPhase::InstallCheck),
                ServerActionView::Exec(install_check_command()),
            ),
            _ => unexpected,
        },
        StartPhase::InstallCheck => match e {
            ServerEventView::Output(Err(err)) => (s, start_at(StartPhase::Failed), ServerActionView::Abort(err)),
            ServerEventView::Output(Ok(out)) => if has_substring(out, jar_name()) {
                start_running_check(s)
            } else {
                install_from(s, s.init_commands(), 0)
            },
            _ => unexpected,
        },
        StartPhase::Installing => match e {
            ServerEventView::Output(Err(err)) => (s, start_at(StartPhase::Failed), ServerActionView::Abort(err)),
            ServerEventView::Output(Ok(_)) => install_from(s, r.batch, r.next + 1),
            _ => unexpected,
        },
        StartPhase::RunningCheck => match e {
            ServerEventView::Output(Err(err)) => (s, start_at(StartPhase::Failed), ServerActionView::Abort(err)),
            ServerEventView::Output(Ok(out)) => if has_substring(out, process_name()) {
                start_launched(s)
            } else {
                launch_from(s, s.main_commands(), 0)
            },
            _ => unexpected,
        },
        StartPhase::Launching => match e {
            ServerEventView::Output(Err(err)) => (s, start_at(StartPhase::Failed), ServerActionView::Abort(err)),
            ServerEventView::Output(Ok(_)) => launch_from(s, r.batch, r.next + 1),
            _ => unexpected,
        },
        StartPhase::FetchingIp => match e {
            ServerEventView::Ip(ip) => (
                s,
                start_at(StartPhase::Done),
                ServerActionView::Finish(
                    match ip {
                        Some(a) => a,
                        None => no_ip_message(),
                    },
                ),
            ),
            _ => unexpected,
        },
        _ => unexpected,
    }
}

impl StartRun {
    /// A start that has not begun.
    pub fn new() -> (r: StartRun)
        ensures
            r@ == start_at(StartPhase::Idle),
    {
        let r = StartRun { phase: StartPhase::Idle, batch: Vec::new(), next: 0 };
        assert(r@.batch =~= Seq::<Seq<char>>::empty());
        r
    }

    pub fn phase(&self) -> (p: StartPhase)
        ensures
            p == self@.phase,
    {
        self.phase
    }

    fn at(phase: StartPhase) -> (r: StartRun)
        ensures
            r@ == start_at(phase),
    {
        let r = StartRun { phase, batch: Vec::new(), next: 0 };
        assert(r@.batch =~= Seq::<Seq<char>>::empty());
        r
    }
}


/// The steps of a stop.
#[derive(Clone, Copy, Debug, PartialEq, Eq, Structural)]
pub enum StopPhase {
    Idle,
    Connecting,
    /// The game's own stop command has been typed in; its output is awaited.
    StoppingGame,
    /// The shutdown command has been sent; its output is awaited.
    ShuttingDown,
    Closing,
    Done,
    Failed,
}

/// Where a stop stands.
#[derive(Clone, Copy, Debug, PartialEq, Eq, Structural)]
pub struct StopRun {
    pub phase: StopPhase,
}

impl StopRun {
    pub fn new() -> (r: StopRun)
        ensures
            r.phase == StopPhase::Idle,
    {
        StopRun { phase: StopPhase::Idle }
    }
}

/// One step of a stop.
pub open spec fn stop_next(s: MCServerView, p: StopPhase, e: ServerEventView) -> (
    MCServerView,
    StopPhase,
    ServerActionView,
) {
    let unexpected = (s, StopPhase::Failed, ServerActionView::Abort(unexpected_event_message()));
    let stop_game = ServerActionView::Run(screen_line(stop_game_command()));
    match p {
        StopPhase::Idle => match e {
            ServerEventView::Begin => if s.ssh_open {
                (s, StopPhase::StoppingGame, stop_game)
            } else {
                match s.config.ssh_key {
                    Some(key) => (s, StopPhase::Connecting, ServerActionView::Connect(key)),
                    None => (s, StopPhase::Failed, ServerActionView::Abort(missing_value_message())),
                }
            },
            _ => unexpected,
        },
        StopPhase::Connecting => match e {
            ServerEventView::Connected(false) => match s.config.ssh_key {
                Some(key) => (s, StopPhase::Connecting, ServerActionView::RetryConnect(key)),
                None => (s, StopPhase::Failed, ServerActionView::Abort(missing_value_message())),
            },
            ServerEventView::Connected(true) => (s.with_ssh(), StopPhase::StoppingGame, stop_game),
            _ => unexpected,
        },
        StopPhase::StoppingGame => match e {
            ServerEventView::Output(Err(err)) => (s, StopPhase::Failed, ServerActionView::Abort(err)),
            ServerEventView::Output(Ok(_)) => (
                s.with_state(State::STOPPED),
                StopPhase::ShuttingDown,
                ServerActionView::Run(shutdown_command()),
            ),
            _ => unexpected,
        },
        StopPhase::ShuttingDown => match e {
            ServerEventView::Output(Err(err)) => (s, StopPhase::Failed, ServerActionView::Abort(err)),
            ServerEventView::Output(Ok(_)) => (s, StopPhase::Closing, ServerActionView::Close),
            _ => unexpected,
        },
        StopPhase::Closing => match e {
            ServerEventView::Closed => (s, StopPhase::Done, ServerActionView::Finish(Seq::empty())),
            _ => unexpected,
        },
        _ => unexpected,
    }
}

/// The steps of sending a game command.
#[derive(Clone, Copy, Debug, PartialEq, Eq, Structural)]
pub enum CommandPhase {
    Idle,
    Connecting,
    /// The command has been typed in; the output of doing so is awaited.
    Sending,
    Done,
    Failed,
}

/// Where the sending of a game command stands, and the shell command that types it in.
pub struct CommandRun {
    phase: CommandPhase,
    line: String,
}

pub struct CommandRunView {
    pub phase: CommandPhase,
    pub line: Seq<char>,
}

impl View for CommandRun {
    type V = CommandRunView;

    closed spec fn view(&self) -> CommandRunView {
        CommandRunView { phase: self.phase, line: self.line@ }
    }
}

impl CommandRun {
    /// The sending of the game command `cmd`, not yet begun.
    pub fn new(cmd: &str) -> (r: CommandRun)
        ensures
            r@ == (CommandRunView { phase: CommandPhase::Idle, line: screen_line(cmd@) }),
    {
        CommandRun { phase: CommandPhase::Idle, line: screen_command(cmd) }
    }

    pub fn phase(&self) -> (p: CommandPhase)
        ensures
            p == self@.phase,
    {
        self.phase
    }
}

/// One step of sending a game command.
pub open spec fn command_next(s: MCServerView, r: CommandRunView, e: ServerEventView) -> (
    MCServerView,
    CommandRunView,
    ServerActionView,
) {
    let at = |p: CommandPhase| CommandRunView { phase: p, line: r.line };
    let unexpected = (s, at(CommandPhase::Failed), ServerActionView::Abort(unexpected_event_message()));
    match r.phase {
        CommandPhase::Idle => match e {
            ServerEventView::Begin => if s.ssh_open {
                (s, at(CommandPhase::Sending), ServerActionView::Run(r.line))
            } else {
                match s.config.ssh_key {
                    Some(key) => (s, at(CommandPhase::Connecting), ServerActionView::Connect(key)),
                    None => (s, at(CommandPhase::Failed), ServerActionView::Abort(missing_value_message())),
                }
            },
            _ => unexpected,
        },
        CommandPhase::Connecting => match e {
            ServerEventView::Connected(false) => match s.config.ssh_key {
                Some(key) => (s, at(CommandPhase::Connecting), ServerActionView::RetryConnect(key)),
                None => (s, at(CommandPhase::Failed), ServerActionView::Abort(missing_value_message())),
            },
            ServerEventView::Connected(true) => (
                s.with_ssh(),
                at(CommandPhase::Sending),
                ServerActionView::Run(r.line),
            ),
            _ => unexpected,
        },
        CommandPhase::Sending => match e {
            ServerEventView::Output(Err(err)) => (s, at(CommandPhase::Failed), ServerActionView::Abort(err)),
            ServerEventView::Output(Ok(response)) => (
                s,
                at(CommandPhase::Done),
                ServerActionView::Finish(response),
            ),
            _ => unexpected,
        },
        _ => unexpected,
    }
}

/// The steps of reading the log.
#[derive(Clone, Copy, Debug, PartialEq, Eq, Structural)]
pub enum LogPhase {
    Idle,
    Connecting,
    /// The log's text is awaited.
    Reading,
    Done,
    Failed,
}

/// Where a reading of the log stands.
#[derive(Clone, Copy, Debug, PartialEq, Eq, Structural)]
pub struct LogRun {
    pub phase: LogPhase,
}

impl LogRun {
    pub fn new() -> (r: LogRun)
        ensures
            r.phase == LogPhase::Idle,
    {
        LogRun { phase: LogPhase::Idle }
    }
}

/// One step of reading the log.
pub open spec fn log_next(s: MCServerView, p: LogPhase, e: ServerEventView) -> (
    MCServerView,
    LogPhase,
    ServerActionView,
) {
    let unexpected = (s, LogPhase::Failed, ServerActionView::Abort(unexpected_event_message()));
    let read = ServerActionView::Exec(log_command());
    match p {
        LogPhase::Idle => match e {
            ServerEventView::Begin => if s.state == State::STARTED {
                if s.ssh_open {
                    (s, LogPhase::Reading, read)
                } else {
                    match s.config.ssh_key {
                        Some(key) => (s, LogPhase::Connecting, ServerActionView::Connect(key)),
                        None => (s, LogPhase::Failed, ServerActionView::Abort(missing_value_message())),
                    }
                }
            } else {
                (s, LogPhase::Done, ServerActionView::Finish(log_unavailable_message(s.state)))
            },
            _ => unexpected,
        },
        LogPhase::Connecting => match e {
            ServerEventView::Connected(false) => match s.config.ssh_key {
                Some(key) => (s, LogPhase::Connecting, ServerActionView::RetryConnect(key)),
                None => (s, LogPhase::Failed, ServerActionView::Abort(missing_value_message())),
            },
            ServerEventView::Connected(true) => (s.with_ssh(), LogPhase::Reading, read),
            _ => unexpected,
        },
        LogPhase::Reading => match e {
            ServerEventView::Output(Err(err)) => (s, LogPhase::Failed, ServerActionView::Abort(err)),
            ServerEventView::Output(Ok(out)) => (
                s,
                LogPhase::Done,
                ServerActionView::Finish(newlines_as_breaks(out)),
            ),
            _ => unexpected,
        },
        _ => unexpected,
    }
}

/// The operations of a Minecraft server. Each is driven one step at a time:
/// the caller reports what it observed and gets the next action.
pub trait Server {
    /// A step of starting the server; it finishes with the server's address.
    fn start(&mut self, run: &mut StartRun, event: ServerEvent) -> ServerAction;

    /// A step of stopping the server.
    fn stop(&mut self, run: &mut StopRun, event: ServerEvent) -> ServerAction;

    /// A step of typing a command into the game console; it finishes with
    /// the server's response, what typing the command in printed.
    fn command(&mut self, run: &mut CommandRun, event: ServerEvent) -> ServerAction;

    /// A step of reading the game server's log.
    fn log(&mut self, run: &mut LogRun, event: ServerEvent) -> ServerAction;

    /// The address to report, given what the instance lookup found.
    fn get_ip(&self, public_ip: Option<String>) -> String;

    /// The server's state.
    fn status(&self) -> State;
}

impl MCServer {
    /// A server on the instance `ec2`, set up by `config`; `ssh_open` tells
    /// whether an SSH session is already open, and `status` is the instance's
    /// state name, from which the server's state is taken.
    pub fn new(ec2: Ec2Object, config: Ec2Config, ssh_open: bool, status: &str) -> (s: MCServer)
        ensures
            s@ == (MCServerView {
                ec2: ec2@,
                config: config.deep_view(),
                ssh_open,
                state: state_for_status(status@),
            }),
    {
        let state = State::from_status(status);
        MCServer { ec2, config, ssh_open, state }
    }

    /// The instance the server lives on.
    pub fn ec2(&self) -> (e: &Ec2Object)
        ensures
            e@ == self@.ec2,
    {
        &self.ec2
    }

    /// The server's configuration.
    pub fn config(&self) -> (c: &Ec2Config)
        ensures
            c.deep_view() == self@.config,
    {
        &self.config
    }

    /// Whether an SSH session has been opened.
    pub fn has_ssh(&self) -> (b: bool)
        ensures
            b == self@.ssh_open,
    {
        self.ssh_open
    }

    fn ssh_key(&self) -> (k: Option<String>)
        ensures
            k.deep_view() == self@.config.ssh_key,
    {
        crate::ec2_types::copy_opt_string(&self.config.ssh_key)
    }

    fn start_prepare(&self) -> (r: (StartRun, ServerAction))
        ensures
            (self@, r.0@, r.1@) == start_prepare(self@),
    {
        if self.config.init_script.is_none() || self.config.main_script.is_none() {
            (StartRun::at(StartPhase::Failed), ServerAction::Abort(String::from_str("called `Option::unwrap()` on a `None` value")))
        } else {
            match self.ssh_key() {
                Some(key) => (StartRun::at(StartPhase::Connecting), ServerAction::Connect(key)),
                None => (StartRun::at(StartPhase::Failed), ServerAction::Abort(String::from_str("called `Option::unwrap()` on a `None` value"))),
            }
        }
    }

    fn start_running_check(&self) -> (r: (StartRun, ServerAction))
        ensures
            (self@, r.0@, r.1@) == start_running_check(self@),
    {
        (StartRun::at(StartPhase::RunningCheck), ServerAction::Exec(String::from_str("ps -aux")))
    }

    fn start_launched(&mut self) -> (r: (StartRun, ServerAction))
        ensures
            (final(self)@, r.0@, r.1@) == start_launched(old(self)@),
    {
        self.state = State::STARTED;
        (StartRun::at(StartPhase::FetchingIp), ServerAction::QueryIp)
    }

    fn install_from(&self, cmds: Vec<String>, k: usize) -> (r: (StartRun, ServerAction))
        ensures
            (self@, r.0@, r.1@) == install_from(self@, cmds.deep_view(), k as int),
    {
        if k < cmds.len() {
            let c = cmds[k].clone();
            (StartRun { phase: StartPhase::Installing, batch: cmds, next: k }, ServerAction::Run(c))
        } else {
            self.start_running_check()
        }
    }

    fn launch_from(&mut self, cmds: Vec<String>, k: usize) -> (r: (StartRun, ServerAction))
        ensures
            (final(self)@, r.0@, r.1@) == launch_from(old(self)@, cmds.deep_view(), k as int),
    {
        if k < cmds.len() {
            let c = cmds[k].clone();
            (StartRun { phase: StartPhase::Launching, batch: cmds, next: k }, ServerAction::RunMain(c))
        } else {
            self.start_launched()
        }
    }

    fn init_commands(&self) -> (c: Vec<String>)
        ensures
            c.deep_view() == self@.init_commands(),
    {
        match &self.config.init_script {
            Some(c) => copy_strings(c),
            None => {
                let c: Vec<String> = Vec::new();
                assert(c.deep_view() =~= Seq::<Seq<char>>::empty());
                c
            },
        }
    }

    fn main_commands(&self) -> (c: Vec<String>)
        ensures
            c.deep_view() == self@.main_commands(),
    {
        match &self.config.main_script {
            Some(c) => copy_strings(c),
            None => {
                let c: Vec<String> = Vec::new();
                assert(c.deep_view() =~= Seq::<Seq<char>>::empty());
                c
            },
        }
    }

    fn start_step(&mut self, run: &StartRun, event: ServerEvent) -> (r: (StartRun, ServerAction))
        ensures
            (final(self)@, r.0@, r.1@) == start_next(old(self)@, run@, event@),
    {
        let unexpected = String::from_str("unexpected event for this step");
        match run.phase {
            StartPhase::Idle => match event {
                ServerEvent::Begin => (StartRun::at(StartPhase::CheckStatus), ServerAction::QueryStatus),
                _ => (StartRun::at(StartPhase::Failed), ServerAction::Abort(unexpected)),
            },
            StartPhase::CheckStatus => match event {
                ServerEvent::Status(None) => (
                    StartRun::at(StartPhase::Failed),
                    ServerAction::Abort(String::from_str("No status! Correct id?")),
                ),
                ServerEvent::Status(Some(st)) => {
                    if same_text(st.as_str(), "stopped") {
                        self.state = State::STARTING;
                        (StartRun::at(StartPhase::Booting), ServerAction::BootInstance)
                    } else if same_text(st.as_str(), "stopping") {
                        (StartRun::at(StartPhase::WaitStoppedFirst), ServerAction::QueryStatus)
                    } else {
                        self.start_prepare()
                    }
                },
                _ => (StartRun::at(StartPhase::Failed), ServerAction::Abort(unexpected)),
            },
            StartPhase::WaitStoppedFirst => match event {
                ServerEvent::Status(None) => (StartRun::at(StartPhase::WaitStoppedFirst), ServerAction::QueryStatus),
                ServerEvent::Status(Some(_)) => (StartRun::at(StartPhase::WaitStoppedSecond), ServerAction::QueryStatus),
                _ => (StartRun::at(StartPhase::Failed), ServerAction::Abort(unexpected)),
            },
            StartPhase::WaitStoppedSecond => match event {
                ServerEvent::Status(None) => (
                    StartRun::at(StartPhase::Failed),
                    ServerAction::Abort(String::from_str("called `Option::unwrap()` on a `None` value")),
                ),
                ServerEvent::Status(Some(st)) => {
                    if same_text(st.as_str(), "stopping") {
                        (StartRun::at(StartPhase::WaitStoppedFirst), ServerAction::QueryStatus)
                    } else {
                        self.state = State::STARTING;
                        (StartRun::at(StartPhase::Booting), ServerAction::BootInstance)
                    }
                },
                _ => (StartRun::at(StartPhase::Failed), ServerAction::Abort(unexpected)),
            },
            StartPhase::Booting => match event {
                ServerEvent::Booted => self.start_prepare(),
                _ => (StartRun::at(StartPhase::Failed), ServerAction::Abort(unexpected)),
            },
            StartPhase::Connecting => match event {
                ServerEvent::Connected(ok) => {
                    if ok {
                        self.ssh_open = true;
                        (StartRun::at(StartPhase::InstallCheck), ServerAction::Exec(String::from_str("ls ~/spigot")))
                    } else {
                        match self.ssh_key() {
                            Some(key) => (StartRun::at(StartPhase::Connecting), ServerAction::RetryConnect(key)),
                            None => (
                                StartRun::at(StartPhase::Failed),
                                ServerAction::Abort(String::from_str("called `Option::unwrap()` on a `None` value")),
                            ),
                        }
                    }
                },
                _ => (StartRun::at(StartPhase::Failed), ServerAction::Abort(unexpected)),
            },
            StartPhase::InstallCheck => match event {
                ServerEvent::Output(Err(err)) => (StartRun::at(StartPhase::Failed), ServerAction::Abort(err)),
                ServerEvent::Output(Ok(out)) => {
                    if contains(out.as_str(), "spigot-1.16.4.jar") {
                        self.start_running_check()
                    } else {
                        let cmds = self.init_commands();
                        self.install_from(cmds, 0)
                    }
                },
                _ => (StartRun::at(StartPhase::Failed), ServerAction::Abort(unexpected)),
            },
            StartPhase::Installing => match event {
                ServerEvent::Output(Err(err)) => (StartRun::at(StartPhase::Failed), ServerAction::Abort(err)),
                ServerEvent::Output(Ok(_)) => {
                    let cmds = copy_strings(&run.batch);
                    if run.next < cmds.len() {
                        self.install_from(cmds, run.next + 1)
                    } else {
                        self.start_running_check()
                    }
                },
                _ => (StartRun::at(StartPhase::Failed), ServerAction::Abort(unexpected)),
            },
            StartPhase::RunningCheck => match event {
                ServerEvent::Output(Err(err)) => (StartRun::at(StartPhase::Failed), ServerAction::Abort(err)),
                ServerEvent::Output(Ok(out)) => {
                    if contains(out.as_str(), "spigot") {
                        self.start_launched()
                    } else {
                        let cmds = self.main_commands();
                        self.launch_from(cmds, 0)
                    }
                },
                _ => (StartRun::at(StartPhase::Failed), ServerAction::Abort(unexpected)),
            },
            StartPhase::Launching => match event {
                ServerEvent::Output(Err(err)) => (StartRun::at(StartPhase::Failed), ServerAction::Abort(err)),
                ServerEvent::Output(Ok(_)) => {
                    let cmds = copy_strings(&run.batch);
                    if run.next < cmds.len() {
                        self.launch_from(cmds, run.next + 1)
                    } else {
                        self.start_launched()
                    }
                },
                _ => (StartRun::at(StartPhase::Failed), ServerAction::Abort(unexpected)),
            },
            StartPhase::FetchingIp => match event {
                ServerEvent::Ip(ip) => {
                    let addr = match ip {
                        Some(a) => a,
                        None => String::from_str("couldnt get ip"),
                    };
                    (StartRun::at(StartPhase::Done), ServerAction::Finish(addr))
                },
                _ => (StartRun::at(StartPhase::Failed), ServerAction::Abort(unexpected)),
            },
            _ => (StartRun::at(StartPhase::Failed), ServerAction::Abort(unexpected)),
        }
    }
}


impl MCServer {
    fn missing_value() -> (a: ServerAction)
        ensures
            a@ == ServerActionView::Abort(missing_value_message()),
    {
        ServerAction::Abort(String::from_str("called `Option::unwrap()` on a `None` value"))
    }

    fn unexpected() -> (a: ServerAction)
        ensures
            a@ == ServerActionView::Abort(unexpected_event_message()),
    {
        ServerAction::Abort(String::from_str("unexpected event for this step"))
    }

    fn stop_step(&mut self, phase: StopPhase, event: ServerEvent) -> (r: (StopPhase, ServerAction))
        ensures
            (final(self)@, r.0, r.1@) == stop_next(old(self)@, phase, event@),
    {
        match phase {
            StopPhase::Idle => match event {
                ServerEvent::Begin => {
                    if self.ssh_open {
                        (StopPhase::StoppingGame, ServerAction::Run(screen_command("stop")))
                    } else {
                        match self.ssh_key() {
                            Some(key) => (StopPhase::Connecting, ServerAction::Connect(key)),
                            None => (StopPhase::Failed, Self::missing_value()),
                        }
                    }
                },
                _ => (StopPhase::Failed, Self::unexpected()),
            },
            StopPhase::Connecting => match event {
                ServerEvent::Connected(ok) => {
                    if ok {
                        self.ssh_open = true;
                        (StopPhase::StoppingGame, ServerAction::Run(screen_command("stop")))
                    } else {
                        match self.ssh_key() {
                            Some(key) => (StopPhase::Connecting, ServerAction::RetryConnect(key)),
                            None => (StopPhase::Failed, Self::missing_value()),
                        }
                    }
                },
                _ => (StopPhase::Failed, Self::unexpected()),
            },
            StopPhase::StoppingGame => match event {
                ServerEvent::Output(Err(err)) => (StopPhase::Failed, ServerAction::Abort(err)),
                ServerEvent::Output(Ok(_)) => {
                    self.state = State::STOPPED;
                    (StopPhase::ShuttingDown, ServerAction::Run(String::from_str("sudo shutdown +1")))
                },
                _ => (StopPhase::Failed, Self::unexpected()),
            },
            StopPhase::ShuttingDown => match event {
                ServerEvent::Output(Err(err)) => (StopPhase::Failed, ServerAction::Abort(err)),
                ServerEvent::Output(Ok(_)) => (StopPhase::Closing, ServerAction::Close),
                _ => (StopPhase::Failed, Self::unexpected()),
            },
            StopPhase::Closing => match event {
                ServerEvent::Closed => (StopPhase::Done, ServerAction::Finish(String::new())),
                _ => (StopPhase::Failed, Self::unexpected()),
            },
            _ => (StopPhase::Failed, Self::unexpected()),
        }
    }

    fn command_step(&mut self, run: &CommandRun, event: ServerEvent) -> (r: (CommandPhase, ServerAction))
        ensures
            (final(self)@, CommandRunView { phase: r.0, line: run@.line }, r.1@) == command_next(
                old(self)@,
                run@,
                event@,
            ),
    {
        match run.phase {
            CommandPhase::Idle => match event {
                ServerEvent::Begin => {
                    if self.ssh_open {
                        (CommandPhase::Sending, ServerAction::Run(run.line.clone()))
                    } else {
                        match self.ssh_key() {
                            Some(key) => (CommandPhase::Connecting, ServerAction::Connect(key)),
                            None => (CommandPhase::Failed, Self::missing_value()),
                        }
                    }
                },
                _ => (CommandPhase::Failed, Self::unexpected()),
            },
            CommandPhase::Connecting => match event {
                ServerEvent::Connected(ok) => {
                    if ok {
                        self.ssh_open = true;
                        (CommandPhase::Sending, ServerAction::Run(run.line.clone()))
                    } else {
                        match self.ssh_key() {
                            Some(key) => (CommandPhase::Connecting, ServerAction::RetryConnect(key)),
                            None => (CommandPhase::Failed, Self::missing_value()),
                        }
                    }
                },
                _ => (CommandPhase::Failed, Self::unexpected()),
            },
            CommandPhase::Sending => match event {
                ServerEvent::Output(Err(err)) => (CommandPhase::Failed, ServerAction::Abort(err)),
                ServerEvent::Output(Ok(response)) => (CommandPhase::Done, ServerAction::Finish(response)),
                _ => (CommandPhase::Failed, Self::unexpected()),
            },
            _ => (CommandPhase::Failed, Self::unexpected()),
        }
    }

    fn log_step(&mut self, phase: LogPhase, event: ServerEvent) -> (r: (LogPhase, ServerAction))
        ensures
            (final(self)@, r.0, r.1@) == log_next(old(self)@, phase, event@),
    {
        match phase {
            LogPhase::Idle => match event {
                ServerEvent::Begin => {
                    if self.state == State::STARTED {
                        if self.ssh_open {
                            (LogPhase::Reading, ServerAction::Exec(String::from_str("cat ~/spigot/logs/latest.log")))
                        } else {
                            match self.ssh_key() {
                                Some(key) => (LogPhase::Connecting, ServerAction::Connect(key)),
                                None => (LogPhase::Failed, Self::missing_value()),
                            }
                        }
                    } else {
                        let msg = String::from_str("server is either in a starting or stopping state, state: ")
                            .concat(self.state.as_string().as_str());
                        (LogPhase::Done, ServerAction::Finish(msg))
                    }
                },
                _ => (LogPhase::Failed, Self::unexpected()),
            },
            LogPhase::Connecting => match event {
                ServerEvent::Connected(ok) => {
                    if ok {
                        self.ssh_open = true;
                        (LogPhase::Reading, ServerAction::Exec(String::from_str("cat ~/spigot/logs/latest.log")))
                    } else {
                        match self.ssh_key() {
                            Some(key) => (LogPhase::Connecting, ServerAction::RetryConnect(key)),
                            None => (LogPhase::Failed, Self::missing_value()),
                        }
                    }
                },
                _ => (LogPhase::Failed, Self::unexpected()),
            },
            LogPhase::Reading => match event {
                ServerEvent::Output(Err(err)) => (LogPhase::Failed, ServerAction::Abort(err)),
                ServerEvent::Output(Ok(out)) => (LogPhase::Done, ServerAction::Finish(newlines_to_breaks(out.as_str()))),
                _ => (LogPhase::Failed, Self::unexpected()),
            },
            _ => (LogPhase::Failed, Self::unexpected()),
        }
    }
}

impl Server for MCServer {
    fn start(&mut self, run: &mut StartRun, event: ServerEvent) -> (a: ServerAction)
        ensures
            (final(self)@, final(run)@, a@) == start_next(old(self)@, old(run)@, event@),
    {
        let (next, a) = self.start_step(run, event);
        *run = next;
        a
    }

    fn stop(&mut self, run: &mut StopRun, event: ServerEvent) -> (a: ServerAction)
        ensures
            (final(self)@, final(run).phase, a@) == stop_next(old(self)@, old(run).phase, event@),
    {
        let (next, a) = self.stop_step(run.phase, event);
        run.phase = next;
        a
    }

    fn command(&mut self, run: &mut CommandRun, event: ServerEvent) -> (a: ServerAction)
        ensures
            (final(self)@, final(run)@, a@) == command_next(old(self)@, old(run)@, event@),
    {
        let (next, a) = self.command_step(run, event);
        run.phase = next;
        a
    }

    fn log(&mut self, run: &mut LogRun, event: ServerEvent) -> (a: ServerAction)
        ensures
            (final(self)@, final(run).phase, a@) == log_next(old(self)@, old(run).phase, event@),
    {
        let (next, a) = self.log_step(run.phase, event);
        run.phase = next;
        a
    }

    fn get_ip(&self, public_ip: Option<String>) -> (ip: String)
        ensures
            ip@ == match public_ip {
                Some(a) => a@,
                None => no_ip_message(),
            },
    {
        match public_ip {
            Some(a) => a,
            None => String::from_str("couldnt get ip"),
        }
    }

    fn status(&self) -> (s: State)
        ensures
            s == self@.state,
    {
        self.state
    }
}


/// The output of a command run over SSH, which must have succeeded.
#[allow(non_snake_case)]
pub fn DEP_exec(reply: Result<String, String>) -> (out: String)
    requires
        reply is Ok,
    ensures
        out@ == reply->Ok_0@,
{
    match reply {
        Ok(out) => out,
        Err(_) => String::new(),
    }
}

/// The commands to run when the server comes up: the install commands
/// `startup`, unless the listing of ~/spigot shows the game server installed.
#[allow(non_snake_case)]
pub fn DEP_on_start(listing: &str, startup: &Vec<String>) -> (cmds: Vec<String>)
    ensures
        cmds.deep_view() == if has_substring(listing@, jar_name()) {
            Seq::empty()
        } else {
            startup.deep_view()
        },
{
    if contains(listing, "spigot-1.16.4.jar") {
        let none: Vec<String> = Vec::new();
        assert(none.deep_view() =~= Seq::<Seq<char>>::empty());
        none
    } else {
        copy_strings(startup)
    }
}

/// The hook for the launch commands once the server is up; it runs nothing.
#[allow(non_snake_case)]
pub fn DEP_on_main(main: &Vec<String>) {
}

} // verus!
