use minecraft_aws::routes::{config_source, ConfigSource, RouteAction, RouteCommand, RouteEvent, RoutePhase, RouteRun};

fn s(x: &str) -> String {
    x.to_string()
}

#[test]
fn commands_are_parsed() {
    assert_eq!(RouteCommand::parse("start"), RouteCommand::Start);
    assert_eq!(RouteCommand::parse("status"), RouteCommand::Status);
    assert_eq!(RouteCommand::parse("stop"), RouteCommand::Stop);
    assert_eq!(RouteCommand::parse("restart"), RouteCommand::Unknown);
    assert_eq!(RouteCommand::parse(""), RouteCommand::Unknown);
}

#[test]
fn unknown_command() {
    let mut r = RouteRun::new("dance");
    assert_eq!(r.step(RouteEvent::Begin), RouteAction::Reply(s("unknown command!")));
    assert_eq!(r.phase(), RoutePhase::Done);
}

#[test]
fn start_queues_shutdown_once() {
    let mut r = RouteRun::new("start");
    assert_eq!(r.step(RouteEvent::Begin), RouteAction::QueryStatus);
    assert_eq!(r.step(RouteEvent::Status(Some(s("stopped")))), RouteAction::StartServer);
    assert_eq!(
        r.step(RouteEvent::Started(s("1.2.3.4"), false)),
        RouteAction::ReplyAndQueueShutdown(s("1.2.3.4"), 3600)
    );
    let mut again = RouteRun::new("start");
    again.step(RouteEvent::Begin);
    again.step(RouteEvent::Status(Some(s("running"))));
    assert_eq!(again.step(RouteEvent::Started(s("1.2.3.4"), true)), RouteAction::Reply(s("1.2.3.4")));
}

#[test]
fn status_of_running_instance() {
    let mut r = RouteRun::new("status");
    r.step(RouteEvent::Begin);
    assert_eq!(r.step(RouteEvent::Status(Some(s("running")))), RouteAction::GetIp);
    assert_eq!(r.step(RouteEvent::Ip(s("1.2.3.4"))), RouteAction::ReadLog);
    assert_eq!(
        r.step(RouteEvent::Log(s("hello<br/>"))),
        RouteAction::Reply(s("status: running\nip: 1.2.3.4\nlogs: hello<br/>"))
    );
}

#[test]
fn status_of_idle_instance() {
    let mut r = RouteRun::new("status");
    r.step(RouteEvent::Begin);
    assert_eq!(
        r.step(RouteEvent::Status(Some(s("stopped")))),
        RouteAction::Reply(s("status: stopped\nip: no ip not on\nlogs: could not retrieve logs"))
    );
}

#[test]
fn stop_only_running() {
    let mut r = RouteRun::new("stop");
    r.step(RouteEvent::Begin);
    assert_eq!(r.step(RouteEvent::Status(Some(s("running")))), RouteAction::StopServer);
    assert_eq!(r.step(RouteEvent::Stopped), RouteAction::Reply(s("stopped!")));
    let mut r = RouteRun::new("stop");
    r.step(RouteEvent::Begin);
    assert_eq!(r.step(RouteEvent::Status(Some(s("stopping")))), RouteAction::Reply(s("already stopped!")));
}

#[test]
fn missing_status_fails() {
    let mut r = RouteRun::new("stop");
    r.step(RouteEvent::Begin);
    assert_eq!(
        r.step(RouteEvent::Status(None)),
        RouteAction::Abort(s("called `Option::unwrap()` on a `None` value"))
    );
    assert_eq!(r.phase(), RoutePhase::Failed);
    assert_eq!(r.step(RouteEvent::Stopped), RouteAction::Abort(s("unexpected event for this step")));
}

#[test]
fn config_location() {
    assert_eq!(config_source("true"), ConfigSource::LocalFile);
    assert_eq!(config_source("false"), ConfigSource::Bucket);
    assert_eq!(config_source("TRUE"), ConfigSource::Bucket);
}
