//! The decisions behind the web front: which operation a request asks for,
//! what it is answered, and when the automatic shutdown is queued.
use vstd::prelude::*;
use crate::text::same_text;

verus! {

/// The operations a visitor can ask for.
#[derive(Clone, Copy, Debug, PartialEq, Eq, Structural)]
pub enum RouteCommand {
    Start,
    Status,
    Stop,
    Unknown,
}

/// The operation named by the last part of a `/command/<command>` request.
pub open spec fn command_named(name: Seq<char>) -> RouteCommand {
    if name == "start"@ {
        RouteCommand::Start
    } else if name == "status"@ {
        RouteCommand::Status
    } else if name == "stop"@ {
        RouteCommand::Stop
    } else {
        RouteCommand::Unknown
    }
}

impl RouteCommand {
    /// The operation named by `name`.
    pub fn parse(name: &str) -> (c: RouteCommand)
        ensures
            c == command_named(name@),
    {
        if same_text(name, "start") {
            RouteCommand::Start
        } else if same_text(name, "status") {
            RouteCommand::Status
        } else if same_text(name, "stop") {
            RouteCommand::Stop
        } else {
            RouteCommand::Unknown
        }
    }
}

/// How long after a start the server is shut down, in seconds (an hour).
pub open spec fn shutdown_delay() -> u64 {
    3600
}

/// The answer to a status request while the instance runs.
pub open spec fn running_report(status: Seq<char>, ip: Seq<char>, logs: Seq<char>) -> Seq<char> {
    "status: "@ + status + "\nip: "@ + ip + "\nlogs: "@ + logs
}

/// The answer to a status request while the instance does not run.
pub open spec fn idle_report(status: Seq<char>) -> Seq<char> {
    running_report(status, "no ip not on"@, "could not retrieve logs"@)
}

/// The steps of answering a request.
#[derive(Clone, Copy, Debug, PartialEq, Eq, Structural)]
pub enum RoutePhase {
    Idle,
    /// The instance's state name is awaited.
    CheckStatus,
    /// The server's start is awaited.
    Starting,
    /// The server's address is awaited.
    GettingIp,
    /// The server's log is awaited.
    ReadingLog,
    /// The server's stop is awaited.
    Stopping,
    Done,
    Failed,
}

/// What the caller observed since the last step.
#[derive(Debug, PartialEq, Eq)]
pub enum RouteEvent {
    Begin,
    /// The instance's state name, as the lookup gave it.
    Status(Option<String>),
    /// The server has started at this address; the flag tells whether an
    /// automatic shutdown is already queued.
    Started(String, bool),
    /// The server's address.
    Ip(String),
    /// The server's log.
    Log(String),
    /// The server has stopped.
    Stopped,
}

pub enum RouteEventView {
    Begin,
    Status(Option<Seq<char>>),
    Started(Seq<char>, bool),
    Ip(Seq<char>),
    Log(Seq<char>),
    Stopped,
}

impl View for RouteEvent {
    type V = RouteEventView;

    open spec fn view(&self) -> RouteEventView {
        match self {
            RouteEvent::Begin => RouteEventView::Begin,
            RouteEvent::Status(s) => RouteEventView::Status(s.deep_view()),
            RouteEvent::Started(ip, q) => RouteEventView::Started(ip@, *q),
            RouteEvent::Ip(ip) => RouteEventView::Ip(ip@),
            RouteEvent::Log(l) => RouteEventView::Log(l@),
            RouteEvent::Stopped => RouteEventView::Stopped,
        }
    }
}

/// What the caller is asked to do next.
#[derive(Debug, PartialEq, Eq)]
pub enum RouteAction {
    /// Look up the instance's state name.
    QueryStatus,
    /// Start the server; report its address and the shutdown flag.
    StartServer,
    /// Look up the server's address.
    GetIp,
    /// Read the server's log.
    ReadLog,
    /// Stop the server.
    StopServer,
    /// Answer the request with this text.
    Reply(String),
    /// Mark the automatic shutdown as queued, queue it to run after this
    /// many seconds, and answer with the text.
    ReplyAndQueueShutdown(String, u64),
    /// The request failed with this message.
    Abort(String),
}

pub enum RouteActionView {
    QueryStatus,
    StartServer,
    GetIp,
    ReadLog,
    StopServer,
    Reply(Seq<char>),
    ReplyAndQueueShutdown(Seq<char>, u64),
    Abort(Seq<char>),
}

impl View for RouteAction {
    type V = RouteActionView;

    open spec fn view(&self) -> RouteActionView {
        match self {
            RouteAction::QueryStatus => RouteActionView::QueryStatus,
            RouteAction::StartServer => RouteActionView::StartServer,
            RouteAction::GetIp => RouteActionView::GetIp,
            RouteAction::ReadLog => RouteActionView::ReadLog,
            RouteAction::StopServer => RouteActionView::StopServer,
            RouteAction::Reply(s) => RouteActionView::Reply(s@),
            RouteAction::ReplyAndQueueShutdown(s, d) => RouteActionView::ReplyAndQueueShutdown(s@, *d),
            RouteAction::Abort(s) => RouteActionView::Abort(s@),
        }
    }
}

/// The answering of one request: the operation asked for, the step, and what
/// has been learned so far (the state name and the address).
pub struct RouteRun {
    command: RouteCommand,
    phase: RoutePhase,
    status: String,
    ip: String,
}

pub struct RouteRunView {
    pub command: RouteCommand,
    pub phase: RoutePhase,
    pub status: Seq<char>,
    pub ip: Seq<char>,
}

impl View for RouteRun {
    type V = RouteRunView;

    closed spec fn view(&self) -> RouteRunView {
        RouteRunView { command: self.command, phase: self.phase, status: self.status@, ip: self.ip@ }
    }
}

impl RouteRunView {
    pub open spec fn at(self, phase: RoutePhase) -> RouteRunView {
        RouteRunView { phase, ..self }
    }
}

/// One step of answering a request.
pub open spec fn route_next(r: RouteRunView, e: RouteEventView) -> (RouteRunView, RouteActionView) {
    let unexpected = (
        r.at(RoutePhase::Failed),
        RouteActionView::Abort("unexpected event for this step"@),
    );
    match r.phase {
        RoutePhase::Idle => match e {
            RouteEventView::Begin => if r.command == RouteCommand::Unknown {
                (r.at(RoutePhase::Done), RouteActionView::Reply("unknown command!"@))
            } else {
                (r.at(RoutePhase::CheckStatus), RouteActionView::QueryStatus)
            },
            _ => unexpected,
        },
        RoutePhase::CheckStatus => match e {
            RouteEventView::Status(None) => (
                r.at(RoutePhase::Failed),
                RouteActionView::Abort("called `Option::unwrap()` on a `None` value"@),
            ),
            RouteEventView::Status(Some(st)) => {
                let r2 = RouteRunView { status: st, ..r };
                match r.command {
                    RouteCommand::Start => (r2.at(RoutePhase::Starting), RouteActionView::StartServer),
                    RouteCommand::Status => if st == "running"@ {
                        (r2.at(RoutePhase::GettingIp), RouteActionView::GetIp)
                    } else {
                        (r2.at(RoutePhase::Done), RouteActionView::Reply(idle_report(st)))
                    },
                    RouteCommand::Stop => if st == "running"@ {
                        (r2.at(RoutePhase::Stopping), RouteActionView::StopServer)
                    } else {
                        (r2.at(RoutePhase::Done), RouteActionView::Reply("already stopped!"@))
                    },
                    RouteCommand::Unknown => unexpected,
                }
            },
            _ => unexpected,
        },
        RoutePhase::Starting => match e {
            RouteEventView::Started(ip, queued) => if queued {
                (r.at(RoutePhase::Done), RouteActionView::Reply(ip))
            } else {
                (
                    r.at(RoutePhase::Done),
                    RouteActionView::ReplyAndQueueShutdown(ip, shutdown_delay()),
                )
            },
            _ => unexpected,
        },
        RoutePhase::GettingIp => match e {
            RouteEventView::Ip(ip) => (
                RouteRunView { ip, ..r }.at(RoutePhase::ReadingLog),
                RouteActionView::ReadLog,
            ),
            _ => unexpected,
        },
        RoutePhase::ReadingLog => match e {
            RouteEventView::Log(logs) => (
                r.at(RoutePhase::Done),
                RouteActionView::Reply(running_report(r.status, r.ip, logs)),
            ),
            _ => unexpected,
        },
        RoutePhase::Stopping => match e {
            RouteEventView::Stopped => (r.at(RoutePhase::Done), RouteActionView::Reply("stopped!"@)),
            _ => unexpected,
        },
        _ => unexpected,
    }
}

impl RouteRun {
    /// The answering of a request for `command`, not yet begun.
    pub fn new(command: &str) -> (r: RouteRun)
        ensures
            r@ == (RouteRunView {
                command: command_named(command@),
                phase: RoutePhase::Idle,
                status: Seq::empty(),
                ip: Seq::empty(),
            }),
    {
        RouteRun {
            command: RouteCommand::parse(command),
            phase: RoutePhase::Idle,
            status: String::new(),
            ip: String::new(),
        }
    }

    pub fn phase(&self) -> (p: RoutePhase)
        ensures
            p == self@.phase,
    {
        self.phase
    }

    fn unexpected(&mut self) -> (a: RouteAction)
        ensures
            (final(self)@, a@) == (old(self)@.at(RoutePhase::Failed), RouteActionView::Abort(
                "unexpected event for this step"@,
            )),
    {
        self.phase = RoutePhase::Failed;
        RouteAction::Abort(String::from_str("unexpected event for this step"))
    }

    /// One step of answering the request.
    pub fn step(&mut self, event: RouteEvent) -> (a: RouteAction)
        ensures
            (final(self)@, a@) == route_next(old(self)@, event@),
    {
        match self.phase {
            RoutePhase::Idle => match event {
                RouteEvent::Begin => {
                    if self.command == RouteCommand::Unknown {
                        self.phase = RoutePhase::Done;
                        RouteAction::Reply(String::from_str("unknown command!"))
                    } else {
                        self.phase = RoutePhase::CheckStatus;
                        RouteAction::QueryStatus
                    }
                },
                _ => self.unexpected(),
            },
            RoutePhase::CheckStatus => match event {
                RouteEvent::Status(None) => {
                    self.phase = RoutePhase::Failed;
                    RouteAction::Abort(String::from_str("called `Option::unwrap()` on a `None` value"))
                },
                RouteEvent::Status(Some(st)) => {
                    let running = same_text(st.as_str(), "running");
                    match self.command {
                        RouteCommand::Start => {
                            self.status = st;
                            self.phase = RoutePhase::Starting;
                            RouteAction::StartServer
                        },
                        RouteCommand::Status => {
                            if running {
                                self.status = st;
                                self.phase = RoutePhase::GettingIp;
                                RouteAction::GetIp
                            } else {
                                let report = String::from_str("status: ").concat(st.as_str()).concat(
                                    "\nip: ",
                                ).concat("no ip not on").concat("\nlogs: ").concat(
                                    "could not retrieve logs",
                                );
                                self.status = st;
                                self.phase = RoutePhase::Done;
                                RouteAction::Reply(report)
                            }
                        },
                        RouteCommand::Stop => {
                            self.status = st;
                            if running {
                                self.phase = RoutePhase::Stopping;
                                RouteAction::StopServer
                            } else {
                                self.phase = RoutePhase::Done;
                                RouteAction::Reply(String::from_str("already stopped!"))
                            }
                        },
                        RouteCommand::Unknown => self.unexpected(),
                    }
                },
                _ => self.unexpected(),
            },
            RoutePhase::Starting => match event {
                RouteEvent::Started(ip, queued) => {
                    self.phase = RoutePhase::Done;
                    if queued {
                        RouteAction::Reply(ip)
                    } else {
                        RouteAction::ReplyAndQueueShutdown(ip, 3600)
                    }
                },
                _ => self.unexpected(),
            },
            RoutePhase::GettingIp => match event {
                RouteEvent::Ip(ip) => {
                    self.ip = ip;
                    self.phase = RoutePhase::ReadingLog;
                    RouteAction::ReadLog
                },
                _ => self.unexpected(),
            },
            RoutePhase::ReadingLog => match event {
                RouteEvent::Log(logs) => {
                    let report = String::from_str("status: ").concat(self.status.as_str()).concat(
                        "\nip: ",
                    ).concat(self.ip.as_str()).concat("\nlogs: ").concat(logs.as_str());
                    self.phase = RoutePhase::Done;
                    RouteAction::Reply(report)
                },
                _ => self.unexpected(),
            },
            RoutePhase::Stopping => match event {
                RouteEvent::Stopped => {
                    self.phase = RoutePhase::Done;
                    RouteAction::Reply(String::from_str("stopped!"))
                },
                _ => self.unexpected(),
            },
            _ => self.unexpected(),
        }
    }
}

/// Where the server's configuration is read from.
#[derive(Clone, Copy, Debug, PartialEq, Eq, Structural)]
pub enum ConfigSource {
    /// The file data_priv/ec2_credentials.ron on this machine.
    LocalFile,
    /// The object ec2_credentials.ron in the bucket.
    Bucket,
}

/// The configuration is read locally when the LOCAL setting is "true".
pub fn config_source(local: &str) -> (s: ConfigSource)
    ensures
        s == (if local@ == "true"@ {
            ConfigSource::LocalFile
        } else {
            ConfigSource::Bucket
        }),
{
    if same_text(local, "true") {
        ConfigSource::LocalFile
    } else {
        ConfigSource::Bucket
    }
}


/// A request queues the automatic shutdown only from a start, only when none
/// is queued yet, and always an hour ahead; a start with one already queued
/// answers with the address alone.
pub proof fn lemma_shutdown_queued_once(r: RouteRunView, e: RouteEventView)
    ensures
        route_next(r, e).1 matches RouteActionView::ReplyAndQueueShutdown(_, delay) ==> {
            &&& r.phase == RoutePhase::Starting
            &&& e matches RouteEventView::Started(_, queued) && !queued
            &&& delay == 3600
        },
        r.phase == RoutePhase::Starting ==> (e matches RouteEventView::Started(ip, queued) ==> (
        queued ==> route_next(r, e).1 == RouteActionView::Reply(ip))),
{
}

/// A request for anything but start, status or stop is answered at once
/// with "unknown command!".
pub proof fn lemma_unknown_command_answered(name: Seq<char>)
    requires
        name != "start"@,
        name != "status"@,
        name != "stop"@,
    ensures
        route_next(
            RouteRunView {
                command: command_named(name),
                phase: RoutePhase::Idle,
                status: Seq::empty(),
                ip: Seq::empty(),
            },
            RouteEventView::Begin,
        ).1 == RouteActionView::Reply("unknown command!"@),
{
}

/// The server is stopped only on a stop request for a running instance.
pub proof fn lemma_stop_only_when_running(r: RouteRunView, e: RouteEventView)
    ensures
        route_next(r, e).1 is StopServer ==> (r.command == RouteCommand::Stop
            && e == RouteEventView::Status(Some("running"@))),
{
}


/// A status request for an instance that is not running is answered with the
/// state name the lookup gave, and no address or log.
pub proof fn lemma_idle_status_reports_looked_up_state(r: RouteRunView, st: Seq<char>)
    requires
        r.command == RouteCommand::Status,
        r.phase == RoutePhase::CheckStatus,
        st != "running"@,
    ensures
        route_next(r, RouteEventView::Status(Some(st))).1 == RouteActionView::Reply(
            "status: "@ + st + "\nip: "@ + "no ip not on"@ + "\nlogs: "@ + "could not retrieve logs"@,
        ),
{
}

/// A status request for a running instance is answered with the state name,
/// the address and the log that were looked up, in that order.
pub proof fn lemma_running_status_reports_lookups(name: Seq<char>, ip: Seq<char>, logs: Seq<char>)
    requires
        command_named(name) == RouteCommand::Status,
    ensures
        ({
            let r0 = RouteRunView {
                command: command_named(name),
                phase: RoutePhase::Idle,
                status: Seq::empty(),
                ip: Seq::empty(),
            };
            let (r1, a1) = route_next(r0, RouteEventView::Begin);
            let (r2, a2) = route_next(r1, RouteEventView::Status(Some("running"@)));
            let (r3, a3) = route_next(r2, RouteEventView::Ip(ip));
            let (r4, a4) = route_next(r3, RouteEventView::Log(logs));
            &&& a1 == RouteActionView::QueryStatus
            &&& a2 == RouteActionView::GetIp
            &&& a3 == RouteActionView::ReadLog
            &&& a4 == RouteActionView::Reply(
                "status: "@ + "running"@ + "\nip: "@ + ip + "\nlogs: "@ + logs,
            )
        }),
{
}

} // verus!
