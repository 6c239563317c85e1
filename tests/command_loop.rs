use extron_control::command_loop::{Action, Command, CommandLoop, Event, Reply};
use extron_control::protocol::{PortProbe, SelectError};

fn probe(path: &str, answer: &str) -> PortProbe {
    PortProbe { device_path: path.to_string(), answer: Some(answer.to_string()) }
}

fn ready_with(probes: Vec<PortProbe>) -> CommandLoop {
    let (mut l, first) = CommandLoop::start();
    assert!(matches!(first, Action::Discover));
    let ev = Event::Scanned(Some(probes));
    assert!(l.accepts(&ev));
    assert!(matches!(l.step(ev), Action::Listen));
    l
}

fn send(l: &mut CommandLoop, cmd: Command) -> Action {
    let ev = Event::Received(cmd);
    assert!(l.accepts(&ev));
    l.step(ev)
}

fn listed(l: &mut CommandLoop) -> Vec<(String, String)> {
    match send(l, Command::ListDevices) {
        Action::Respond(Reply::ListDevices(d)) => {
            let mut v: Vec<(String, String)> = d.into_iter().map(|d| (d.name, d.device_path)).collect();
            v.sort();
            v
        }
        other => panic!("unexpected action {:?}", other),
    }
}

fn select(name: &str, input: &str) -> Command {
    Command::SelectInput { device_name: name.to_string(), input_id: input.to_string() }
}

fn two_devices() -> Vec<PortProbe> {
    vec![probe("/dev/ttyA", "A\r\n"), probe("/dev/ttyB", "B\r\n")]
}

#[test]
fn start_runs_discovery_first() {
    let (l, first) = CommandLoop::start();
    assert!(matches!(first, Action::Discover));
    assert!(!l.accepts(&Event::Received(Command::ListDevices)));
    assert!(l.accepts(&Event::Scanned(None)));
    assert!(!l.accepts(&Event::Answered(Ok("In1All".to_string()))));
    assert!(!l.is_terminated());
}

#[test]
fn failed_initial_discovery_starts_empty() {
    let (mut l, _) = CommandLoop::start();
    assert!(matches!(l.step(Event::Scanned(None)), Action::Listen));
    assert!(listed(&mut l).is_empty());
}

#[test]
fn end_to_end_two_devices() {
    let mut l = ready_with(two_devices());
    assert_eq!(
        listed(&mut l),
        vec![("A".to_string(), "/dev/ttyA".to_string()), ("B".to_string(), "/dev/ttyB".to_string())]
    );
    match send(&mut l, select("A", "2")) {
        Action::Transact { device, command } => {
            assert_eq!(device.device_path, "/dev/ttyA");
            assert_eq!(command, "2!");
        }
        other => panic!("unexpected action {:?}", other),
    }
    assert!(!l.accepts(&Event::Received(Command::ListDevices)));
    match l.step(Event::Answered(Ok("In2All".to_string()))) {
        Action::Respond(Reply::Select(r)) => assert!(r.is_ok()),
        other => panic!("unexpected action {:?}", other),
    }
    assert!(matches!(
        send(&mut l, select("C", "1")),
        Action::Respond(Reply::Select(Err(SelectError::DeviceNotFound)))
    ));
}

#[test]
fn absent_name_is_not_found_even_with_rescan_queued() {
    let mut l = ready_with(vec![probe("/dev/ttyA", "A\r\n")]);
    assert!(matches!(
        send(&mut l, select("Z", "1")),
        Action::Respond(Reply::Select(Err(SelectError::DeviceNotFound)))
    ));
    assert!(matches!(send(&mut l, Command::Rescan), Action::Discover));
    assert!(matches!(l.step(Event::Scanned(Some(vec![probe("/dev/ttyA", "A\r\n")]))), Action::Respond(Reply::RescanReply)));
    assert!(matches!(
        send(&mut l, select("Z", "1")),
        Action::Respond(Reply::Select(Err(SelectError::DeviceNotFound)))
    ));
}

#[test]
fn device_answers_map_to_select_results() {
    let mut l = ready_with(vec![probe("/dev/ttyA", "A\r\n")]);
    assert!(matches!(send(&mut l, select("A", "3")), Action::Transact { .. }));
    assert!(matches!(
        l.step(Event::Answered(Ok("E01".to_string()))),
        Action::Respond(Reply::Select(Err(SelectError::InvalidInput)))
    ));
    assert!(matches!(send(&mut l, select("A", "3")), Action::Transact { .. }));
    assert!(matches!(l.step(Event::Answered(Ok("In3All".to_string()))), Action::Respond(Reply::Select(Ok(())))));
    assert!(matches!(send(&mut l, select("A", "3")), Action::Transact { .. }));
    match l.step(Event::Answered(Ok("garbage".to_string()))) {
        Action::Respond(Reply::Select(Err(SelectError::UnexpectedResponse(line)))) => assert_eq!(line, "garbage"),
        other => panic!("unexpected action {:?}", other),
    }
    assert!(matches!(send(&mut l, select("A", "3")), Action::Transact { .. }));
    match l.step(Event::Answered(Err("timed out".to_string()))) {
        Action::Respond(Reply::Select(Err(SelectError::Io(m)))) => assert_eq!(m, "timed out"),
        other => panic!("unexpected action {:?}", other),
    }
}

#[test]
fn list_after_rescan_is_what_the_rescan_found() {
    let mut l = ready_with(vec![probe("/dev/ttyA", "A\r\n")]);
    assert!(matches!(send(&mut l, Command::Rescan), Action::Discover));
    // while the rescan runs the old registry stands and no command is taken
    assert_eq!(l.devices().len(), 1);
    assert!(!l.accepts(&Event::Received(Command::ListDevices)));
    assert!(matches!(
        l.step(Event::Scanned(Some(vec![probe("/dev/ttyB", "B\r\n"), probe("/dev/ttyC", "C\r\n")]))),
        Action::Respond(Reply::RescanReply)
    ));
    assert_eq!(
        listed(&mut l),
        vec![("B".to_string(), "/dev/ttyB".to_string()), ("C".to_string(), "/dev/ttyC".to_string())]
    );
}

#[test]
fn failed_rescan_leaves_registry_empty() {
    let mut l = ready_with(two_devices());
    assert!(matches!(send(&mut l, Command::Rescan), Action::Discover));
    assert!(matches!(l.step(Event::Scanned(None)), Action::Respond(Reply::RescanReply)));
    assert!(listed(&mut l).is_empty());
}

#[test]
fn two_rescans_of_same_hardware_list_the_same() {
    let mut l = ready_with(Vec::new());
    let mut lists = Vec::new();
    for _ in 0..2 {
        assert!(matches!(send(&mut l, Command::Rescan), Action::Discover));
        assert!(matches!(l.step(Event::Scanned(Some(two_devices()))), Action::Respond(Reply::RescanReply)));
        match send(&mut l, Command::ListDevices) {
            Action::Respond(Reply::ListDevices(d)) => {
                lists.push(d.into_iter().map(|d| (d.name, d.device_path)).collect::<Vec<_>>())
            }
            other => panic!("unexpected action {:?}", other),
        }
    }
    assert_eq!(lists[0], lists[1]);
    assert_eq!(lists[0].len(), 2);
}

#[test]
fn replies_come_in_command_order() {
    let mut l = ready_with(two_devices());
    let cmds = vec![Command::ListDevices, select("C", "1"), Command::Rescan, select("A", "4"), Command::ListDevices];
    let mut kinds = Vec::new();
    for c in cmds {
        let mut a = send(&mut l, c);
        loop {
            match a {
                Action::Discover => a = l.step(Event::Scanned(Some(two_devices()))),
                Action::Transact { .. } => a = l.step(Event::Answered(Ok("In4All".to_string()))),
                Action::Respond(r) => {
                    kinds.push(match r {
                        Reply::ListDevices(_) => "list",
                        Reply::RescanReply => "rescan",
                        Reply::Select(Ok(())) => "selected",
                        Reply::Select(Err(_)) => "failed",
                        Reply::StopReply => "stop",
                    });
                    break;
                }
                other => panic!("unexpected action {:?}", other),
            }
        }
    }
    assert_eq!(kinds, vec!["list", "failed", "rescan", "selected", "list"]);
}

#[test]
fn stop_ends_the_loop() {
    let mut l = ready_with(two_devices());
    assert!(matches!(send(&mut l, Command::StopServer), Action::Shutdown(Reply::StopReply)));
    assert!(l.is_terminated());
    assert!(!l.accepts(&Event::Received(Command::ListDevices)));
    assert!(!l.accepts(&Event::QueueClosed));
}

#[test]
fn closed_queue_finishes_the_loop() {
    let mut l = ready_with(Vec::new());
    assert!(l.accepts(&Event::QueueClosed));
    assert!(matches!(l.step(Event::QueueClosed), Action::Finish));
    assert!(l.is_terminated());
}
