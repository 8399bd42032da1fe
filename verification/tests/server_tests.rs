use minecraft_aws::aws::virtual_machine::ec2::instance::Ec2Object;
use minecraft_aws::mc_server::server::{
    screen_command, CommandRun, DEP_exec, DEP_on_main, DEP_on_start, Ec2Config, LogPhase, LogRun,
    MCServer, Server, ServerAction, ServerEvent, StartPhase, StartRun, State, StopPhase, StopRun,
    CommandPhase,
};

fn s(x: &str) -> String {
    x.to_string()
}

fn config() -> Ec2Config {
    Ec2Config {
        instance_id: Some(s("i-1")),
        role_arn: Some(s("arn:role")),
        ssh_key: Some(s("data/key.pem")),
        init_script: Some(vec![s("mkdir spigot"), s("wget jar")]),
        main_script: Some(vec![s("screen -dmS mc java -jar spigot.jar")]),
    }
}

fn server(ssh: bool, status: &str, cfg: Ec2Config) -> MCServer {
    let ec2 = Ec2Object { image_id: s("ami"), instance_type: s("t2.micro"), instance_id: s("i-1") };
    MCServer::new(ec2, cfg, ssh, status)
}

fn ok(out: &str) -> ServerEvent {
    ServerEvent::Output(Ok(s(out)))
}

#[test]
fn state_names() {
    assert_eq!(State::STARTING.as_string(), "STARTING");
    assert_eq!(State::STARTED.as_string(), "STARTED");
    assert_eq!(State::ERROR.as_string(), "ERROR");
    assert_eq!(State::STOPPING.as_string(), "STOPPING");
    assert_eq!(State::STOPPED.as_string(), "STOPPED");
}

#[test]
fn state_from_instance_status() {
    assert_eq!(State::from_status("stopped"), State::STOPPED);
    assert_eq!(State::from_status("stopping"), State::STOPPING);
    assert_eq!(State::from_status("running"), State::STARTED);
    assert_eq!(State::from_status("pending"), State::STARTING);
    assert_eq!(State::from_status("terminated"), State::ERROR);
    assert_eq!(State::from_status(""), State::ERROR);
}

#[test]
fn new_server_takes_state_from_status() {
    let srv = server(false, "running", config());
    assert_eq!(srv.status(), State::STARTED);
    assert!(!srv.has_ssh());
    assert_eq!(srv.ec2().instance_id, "i-1");
    assert_eq!(srv.config().ssh_key, Some(s("data/key.pem")));
    assert_eq!(server(true, "pending", config()).status(), State::STARTING);
}

#[test]
fn screen_command_types_into_console() {
    assert_eq!(screen_command("stop"), "sudo screen -S mc -X stuff \"stop^M\"");
    assert_eq!(screen_command("say hi"), "sudo screen -S mc -X stuff \"say hi^M\"");
}

#[test]
fn start_from_stopped_installs_and_launches() {
    let mut srv = server(false, "stopped", config());
    let mut run = StartRun::new();
    assert_eq!(srv.start(&mut run, ServerEvent::Begin), ServerAction::QueryStatus);
    assert_eq!(srv.start(&mut run, ServerEvent::Status(Some(s("stopped")))), ServerAction::BootInstance);
    assert_eq!(srv.status(), State::STARTING);
    assert_eq!(srv.start(&mut run, ServerEvent::Booted), ServerAction::Connect(s("data/key.pem")));
    assert_eq!(srv.start(&mut run, ServerEvent::Connected(false)), ServerAction::RetryConnect(s("data/key.pem")));
    assert_eq!(srv.start(&mut run, ServerEvent::Connected(true)), ServerAction::Exec(s("ls ~/spigot")));
    assert!(srv.has_ssh());
    assert_eq!(srv.start(&mut run, ok("logs\n")), ServerAction::Run(s("mkdir spigot")));
    assert_eq!(run.phase(), StartPhase::Installing);
    assert_eq!(srv.start(&mut run, ok("")), ServerAction::Run(s("wget jar")));
    assert_eq!(srv.start(&mut run, ok("")), ServerAction::Exec(s("ps -aux")));
    assert_eq!(srv.start(&mut run, ok("root 1 init\n")), ServerAction::RunMain(s("screen -dmS mc java -jar spigot.jar")));
    assert_eq!(srv.start(&mut run, ok("")), ServerAction::QueryIp);
    assert_eq!(srv.status(), State::STARTED);
    assert_eq!(srv.start(&mut run, ServerEvent::Ip(Some(s("3.4.5.6")))), ServerAction::Finish(s("3.4.5.6")));
    assert_eq!(run.phase(), StartPhase::Done);
}

#[test]
fn start_of_running_installed_server_skips_scripts() {
    let mut srv = server(false, "running", config());
    let mut run = StartRun::new();
    srv.start(&mut run, ServerEvent::Begin);
    assert_eq!(srv.start(&mut run, ServerEvent::Status(Some(s("running")))), ServerAction::Connect(s("data/key.pem")));
    assert_eq!(srv.start(&mut run, ServerEvent::Connected(true)), ServerAction::Exec(s("ls ~/spigot")));
    assert_eq!(srv.start(&mut run, ok("spigot-1.16.4.jar\nworld\n")), ServerAction::Exec(s("ps -aux")));
    assert_eq!(srv.start(&mut run, ok("java -jar spigot.jar\n")), ServerAction::QueryIp);
    assert_eq!(srv.status(), State::STARTED);
    assert_eq!(srv.start(&mut run, ServerEvent::Ip(None)), ServerAction::Finish(s("couldnt get ip")));
}

#[test]
fn start_waits_out_a_stopping_instance() {
    let mut srv = server(false, "stopping", config());
    let mut run = StartRun::new();
    srv.start(&mut run, ServerEvent::Begin);
    assert_eq!(srv.start(&mut run, ServerEvent::Status(Some(s("stopping")))), ServerAction::QueryStatus);
    assert_eq!(run.phase(), StartPhase::WaitStoppedFirst);
    assert_eq!(srv.start(&mut run, ServerEvent::Status(None)), ServerAction::QueryStatus);
    assert_eq!(srv.start(&mut run, ServerEvent::Status(Some(s("stopping")))), ServerAction::QueryStatus);
    assert_eq!(run.phase(), StartPhase::WaitStoppedSecond);
    assert_eq!(srv.start(&mut run, ServerEvent::Status(Some(s("stopping")))), ServerAction::QueryStatus);
    assert_eq!(run.phase(), StartPhase::WaitStoppedFirst);
    srv.start(&mut run, ServerEvent::Status(Some(s("stopped"))));
    assert_eq!(srv.start(&mut run, ServerEvent::Status(Some(s("stopped")))), ServerAction::BootInstance);
    assert_eq!(srv.status(), State::STARTING);
}

#[test]
fn start_failures() {
    let mut srv = server(false, "stopped", config());
    let mut run = StartRun::new();
    srv.start(&mut run, ServerEvent::Begin);
    assert_eq!(srv.start(&mut run, ServerEvent::Status(None)), ServerAction::Abort(s("No status! Correct id?")));
    assert_eq!(run.phase(), StartPhase::Failed);

    let mut cfg = config();
    cfg.main_script = None;
    let mut srv = server(false, "running", cfg);
    let mut run = StartRun::new();
    srv.start(&mut run, ServerEvent::Begin);
    assert_eq!(
        srv.start(&mut run, ServerEvent::Status(Some(s("running")))),
        ServerAction::Abort(s("called `Option::unwrap()` on a `None` value"))
    );

    let mut srv = server(false, "running", config());
    let mut run = StartRun::new();
    srv.start(&mut run, ServerEvent::Begin);
    srv.start(&mut run, ServerEvent::Status(Some(s("running"))));
    srv.start(&mut run, ServerEvent::Connected(true));
    assert_eq!(srv.start(&mut run, ServerEvent::Output(Err(s("broken pipe")))), ServerAction::Abort(s("broken pipe")));

    let mut srv = server(false, "running", config());
    let mut run = StartRun::new();
    assert_eq!(
        srv.start(&mut run, ServerEvent::Booted),
        ServerAction::Abort(s("unexpected event for this step"))
    );
}

#[test]
fn stop_connects_stops_game_and_shuts_down() {
    let mut srv = server(false, "running", config());
    let mut run = StopRun::new();
    assert_eq!(srv.stop(&mut run, ServerEvent::Begin), ServerAction::Connect(s("data/key.pem")));
    assert_eq!(srv.stop(&mut run, ServerEvent::Connected(true)), ServerAction::Run(s("sudo screen -S mc -X stuff \"stop^M\"")));
    assert_eq!(srv.status(), State::STARTED);
    assert_eq!(srv.stop(&mut run, ok("")), ServerAction::Run(s("sudo shutdown +1")));
    assert_eq!(srv.status(), State::STOPPED);
    assert_eq!(srv.stop(&mut run, ok("")), ServerAction::Close);
    assert_eq!(srv.stop(&mut run, ServerEvent::Closed), ServerAction::Finish(s("")));
    assert_eq!(run.phase, StopPhase::Done);
}

#[test]
fn stop_with_open_session() {
    let mut srv = server(true, "running", config());
    let mut run = StopRun::new();
    assert_eq!(srv.stop(&mut run, ServerEvent::Begin), ServerAction::Run(s("sudo screen -S mc -X stuff \"stop^M\"")));
    assert_eq!(srv.stop(&mut run, ServerEvent::Output(Err(s("lost")))), ServerAction::Abort(s("lost")));
    assert_eq!(srv.status(), State::STARTED);
}

#[test]
fn stop_without_key() {
    let mut cfg = config();
    cfg.ssh_key = None;
    let mut srv = server(false, "running", cfg);
    let mut run = StopRun::new();
    assert_eq!(
        srv.stop(&mut run, ServerEvent::Begin),
        ServerAction::Abort(s("called `Option::unwrap()` on a `None` value"))
    );
    assert_eq!(run.phase, StopPhase::Failed);
}

#[test]
fn command_is_typed_into_console() {
    let mut srv = server(true, "running", config());
    let mut run = CommandRun::new("say hello");
    assert_eq!(srv.command(&mut run, ServerEvent::Begin), ServerAction::Run(s("sudo screen -S mc -X stuff \"say hello^M\"")));
    assert_eq!(srv.command(&mut run, ok("Stopping the server")), ServerAction::Finish(s("Stopping the server")));
    assert_eq!(run.phase(), CommandPhase::Done);

    let mut srv = server(false, "running", config());
    let mut run = CommandRun::new("list");
    assert_eq!(srv.command(&mut run, ServerEvent::Begin), ServerAction::Connect(s("data/key.pem")));
    assert_eq!(srv.command(&mut run, ServerEvent::Connected(true)), ServerAction::Run(s("sudo screen -S mc -X stuff \"list^M\"")));
}

#[test]
fn log_of_started_server() {
    let mut srv = server(true, "running", config());
    let mut run = LogRun::new();
    assert_eq!(srv.log(&mut run, ServerEvent::Begin), ServerAction::Exec(s("cat ~/spigot/logs/latest.log")));
    assert_eq!(srv.log(&mut run, ok("[INFO] a\n[INFO] b\n")), ServerAction::Finish(s("[INFO] a<br/>[INFO] b<br/>")));
    assert_eq!(run.phase, LogPhase::Done);
}

#[test]
fn log_of_unstarted_server() {
    let mut srv = server(false, "stopped", config());
    let mut run = LogRun::new();
    assert_eq!(
        srv.log(&mut run, ServerEvent::Begin),
        ServerAction::Finish(s("server is either in a starting or stopping state, state: STOPPED"))
    );
    let mut srv = server(false, "pending", config());
    let mut run = LogRun::new();
    assert_eq!(
        srv.log(&mut run, ServerEvent::Begin),
        ServerAction::Finish(s("server is either in a starting or stopping state, state: STARTING"))
    );
}

#[test]
fn log_connects_first() {
    let mut srv = server(false, "running", config());
    let mut run = LogRun::new();
    assert_eq!(srv.log(&mut run, ServerEvent::Begin), ServerAction::Connect(s("data/key.pem")));
    assert_eq!(srv.log(&mut run, ServerEvent::Connected(false)), ServerAction::RetryConnect(s("data/key.pem")));
    assert_eq!(srv.log(&mut run, ServerEvent::Connected(true)), ServerAction::Exec(s("cat ~/spigot/logs/latest.log")));
    assert!(srv.has_ssh());
}

#[test]
fn get_ip_falls_back() {
    let srv = server(false, "running", config());
    assert_eq!(srv.get_ip(Some(s("1.2.3.4"))), "1.2.3.4");
    assert_eq!(srv.get_ip(None), "couldnt get ip");
}

#[test]
fn dep_helpers() {
    assert_eq!(DEP_exec(Ok(s("out"))), "out");
    let startup = vec![s("a"), s("b")];
    assert_eq!(DEP_on_start("world\n", &startup), startup);
    assert_eq!(DEP_on_start("spigot-1.16.4.jar\n", &startup), Vec::<String>::new());
    DEP_on_main(&startup);
}

#[test]
fn state_names_are_distinct() {
    let all = [State::STARTING, State::STARTED, State::ERROR, State::STOPPING, State::STOPPED];
    for a in all {
        for b in all {
            assert_eq!(a.as_string() == b.as_string(), a == b);
        }
    }
}

#[test]
fn start_with_empty_scripts_goes_straight_on() {
    let mut cfg = config();
    cfg.init_script = Some(vec![]);
    cfg.main_script = Some(vec![]);
    let mut srv = server(true, "running", cfg);
    let mut run = StartRun::new();
    srv.start(&mut run, ServerEvent::Begin);
    srv.start(&mut run, ServerEvent::Status(Some(s("running"))));
    assert_eq!(srv.start(&mut run, ServerEvent::Connected(true)), ServerAction::Exec(s("ls ~/spigot")));
    assert_eq!(srv.start(&mut run, ok("")), ServerAction::Exec(s("ps -aux")));
    assert_eq!(srv.start(&mut run, ok("")), ServerAction::QueryIp);
    assert_eq!(srv.status(), State::STARTED);
}
