use minecraft_aws::aws::virtual_machine::ec2::power::{
    PowerAction, PowerOp, PowerPhase, PowerTransition, StatusReading,
};
use minecraft_aws::ec2_types::{Instance, InstanceState};

fn name(s: &str) -> StatusReading {
    StatusReading::Name(s.to_string())
}

fn finish() -> PowerAction {
    PowerAction::Finish("running".to_string())
}

#[test]
fn start_waits_for_running() {
    let mut t = PowerTransition::new(PowerOp::Start);
    assert_eq!(t.on_reply(Some(1)), PowerAction::QueryStatus);
    assert_eq!(t.phase, PowerPhase::AwaitingFirstStatus);
    assert_eq!(t.on_status(name("stopped")), PowerAction::QueryStatus);
    assert_eq!(t.on_status(name("pending")), PowerAction::QueryStatus);
    assert_eq!(t.on_status(name("pending")), PowerAction::QueryStatus);
    assert_eq!(t.on_status(name("running")), finish());
    assert_eq!(t.phase, PowerPhase::Finished);
}

#[test]
fn start_already_running() {
    let mut t = PowerTransition::new(PowerOp::Start);
    assert_eq!(t.on_reply(Some(0)), PowerAction::QueryStatus);
    assert_eq!(t.on_status(name("running")), finish());
}

#[test]
fn start_fails_when_instance_crashes_on_boot() {
    let mut t = PowerTransition::new(PowerOp::Start);
    t.on_reply(Some(1));
    assert_eq!(t.on_status(name("pending")), PowerAction::QueryStatus);
    assert_eq!(
        t.on_status(name("stopping")),
        PowerAction::Abort("tried to run but instead got another status!".to_string())
    );
    assert_eq!(t.phase, PowerPhase::Aborted);
}

#[test]
fn first_look_is_not_judged() {
    let mut t = PowerTransition::new(PowerOp::Start);
    t.on_reply(Some(1));
    assert_eq!(t.on_status(name("terminated")), PowerAction::QueryStatus);
    assert_eq!(t.phase, PowerPhase::Polling);
}

#[test]
fn reply_checks() {
    let mut t = PowerTransition::new(PowerOp::Start);
    assert_eq!(
        t.on_reply(None),
        PowerAction::Abort("Tried to start instance, none started!".to_string())
    );
    let mut u = PowerTransition::new(PowerOp::Stop);
    assert_eq!(
        u.on_reply(None),
        PowerAction::Abort("Tried to stop instance, none stopped!".to_string())
    );
    let mut v = PowerTransition::new(PowerOp::Stop);
    assert_eq!(
        v.on_reply(Some(2)),
        PowerAction::Abort(
            "Started more than 1 instance! Are your tags correct? Trying to shut down all instances"
                .to_string()
        )
    );
    assert_eq!(v.phase, PowerPhase::Aborted);
}

#[test]
fn stop_waits_for_stopped() {
    let mut t = PowerTransition::new(PowerOp::Stop);
    t.on_reply(Some(1));
    assert_eq!(t.on_status(name("running")), PowerAction::QueryStatus);
    assert_eq!(t.on_status(name("stopping")), PowerAction::QueryStatus);
    // A finished stop, like a finished start, reports "running".
    assert_eq!(t.on_status(name("stopped")), finish());
}

#[test]
fn stop_fails_on_other_status() {
    let mut t = PowerTransition::new(PowerOp::Stop);
    t.on_reply(Some(1));
    t.on_status(name("running"));
    assert_eq!(
        t.on_status(name("pending")),
        PowerAction::Abort("tried to stop but instead got another status!".to_string())
    );
}

#[test]
fn missing_pieces_abort() {
    let cases = [
        (StatusReading::NoInstance, "couldn't find this instance but there was none!"),
        (StatusReading::NoState, "expected state of instance but there was none!"),
        (StatusReading::NoName, "expected state name but there was none!"),
    ];
    for (reading, msg) in cases {
        let mut t = PowerTransition::new(PowerOp::Start);
        t.on_reply(Some(1));
        assert_eq!(t.on_status(reading), PowerAction::Abort(msg.to_string()));
        assert_eq!(t.phase, PowerPhase::Aborted);
    }
}

#[test]
fn reading_of_an_instance() {
    assert_eq!(StatusReading::of(None), StatusReading::NoInstance);
    let mut i = Instance {
        instance_id: None,
        image_id: None,
        instance_type: None,
        state: None,
        public_ip_address: None,
        tags: None,
    };
    assert_eq!(StatusReading::of(Some(Instance { ..i_clone(&i) })), StatusReading::NoState);
    i.state = Some(InstanceState { name: None });
    assert_eq!(StatusReading::of(Some(i_clone(&i))), StatusReading::NoName);
    i.state = Some(InstanceState { name: Some("running".to_string()) });
    assert_eq!(StatusReading::of(Some(i)), name("running"));
}

fn i_clone(i: &Instance) -> Instance {
    i.copy()
}
