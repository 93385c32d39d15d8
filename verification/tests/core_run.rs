use dsbox::capabilities::{Capabilities, Capability};
use dsbox::command::RunnerCommand;
use dsbox::error::{CoreError, DispatchErrorKind};
use dsbox::event::EventKind;
use dsbox::message::{Control, Message, Payload};
use dsbox::node::NodeId;
use dsbox::process::{ProcessCommand, ProcessEvent, ProcessEventOrExit, UnknownRunner};
use dsbox::remote::{RemoteAction, RemoteControl};
use dsbox::runners::{LuaLauncher, LuaRunner};
use dsbox::sim_core::{Builder, Core, CoreState, LogLevel, Outgoing, RemoteCommand, Spawner};

struct FakeProcess;

#[derive(Default)]
struct FakeSpawner {
    spawned: Vec<NodeId>,
    commands: Vec<Vec<String>>,
}

impl Spawner<FakeProcess> for FakeSpawner {
    fn spawn(&mut self, id: NodeId, command: &RunnerCommand) -> Result<FakeProcess, UnknownRunner> {
        if command.runner() != "native" {
            return Err(UnknownRunner);
        }
        self.spawned.push(id);
        self.commands.push(command.args().to_vec());
        Ok(FakeProcess)
    }
    fn available_runners(&self) -> Vec<String> {
        vec!["native".to_string()]
    }
}

fn all_caps() -> Capabilities {
    Capabilities::empty()
        .with(Capability::Break)
        .with(Capability::LaunchNodes)
        .with(Capability::LaunchAlias)
        .with(Capability::Reset)
        .with(Capability::Monitor)
        .with(Capability::ControlCore)
        .with(Capability::SubscribeEvents)
}

fn command(arg: &str) -> RunnerCommand {
    RunnerCommand::new("native".to_string(), vec![arg.to_string()])
}

fn builder() -> Builder {
    Builder::new()
        .register_command("test".to_string(), command("test-node"), all_caps())
        .register_command("server".to_string(), command("server-node"), Capabilities::empty())
        .register_command("broken".to_string(), RunnerCommand::new("nope".to_string(), vec![]), Capabilities::empty())
        .launch("test".to_string(), "tester".to_string(), false)
}

fn started() -> (Core<FakeProcess>, FakeSpawner) {
    let mut core: Core<FakeProcess> = Core::new(builder());
    let mut spawner = FakeSpawner::default();
    core.setup(&mut spawner).unwrap();
    (core, spawner)
}

fn send(core: &mut Core<FakeProcess>, spawner: &mut FakeSpawner, from: usize, message: Message) -> Result<bool, CoreError> {
    core.handle_process_event_or_exit(NodeId(from), ProcessEventOrExit::Event(ProcessEvent::Message(message)), spawner)
}

fn delivered_to(outbox: &[Outgoing], to: usize) -> Vec<&Message> {
    outbox
        .iter()
        .filter(|o| o.to == NodeId(to))
        .filter_map(|o| match &o.command {
            ProcessCommand::Deliver(m) => Some(m),
            _ => None,
        })
        .collect()
}

const TESTER: usize = 1;
const SERVER: usize = 2;

fn with_server() -> (Core<FakeProcess>, FakeSpawner) {
    let (mut core, mut spawner) = started();
    core.take_outbox();
    let launch = Payload::Launch { name: "s1".to_string(), command_name: "server".to_string(), request_exited_message: true };
    send(&mut core, &mut spawner, TESTER, Message::new("tester", "core", launch)).unwrap();
    (core, spawner)
}

#[test]
fn new_core_is_empty_and_running() {
    let core: Core<FakeProcess> = Core::new(builder());
    assert_eq!(core.state(), CoreState::Running);
    assert_eq!(core.core_name(), "core");
    assert_eq!(core.num_nodes(), 0);
    assert_eq!(core.num_messages_in_transit(), 0);
    let interactive: Core<FakeProcess> = Core::new(builder().interactive(true).core_name("sim".to_string()));
    assert_eq!(interactive.state(), CoreState::Paused);
    assert_eq!(interactive.core_name(), "sim");
}

#[test]
fn setup_launches_the_initial_nodes_with_init() {
    let (mut core, _spawner) = started();
    assert_eq!(core.num_nodes(), 1);
    assert!(core.has_node(NodeId(TESTER)));
    let out = core.take_outbox();
    let msgs = delivered_to(&out, TESTER);
    assert_eq!(msgs.len(), 1);
    assert!(matches!(&msgs[0].body.payload, Payload::Init { name, core_name, core_version }
        if name == "tester" && core_name == "core" && core_version == "0.1.0"));
    assert_eq!(msgs[0].src, "core");
    assert_eq!(msgs[0].dest, "tester");
}

#[test]
fn setup_fails_for_unknown_commands_and_runners() {
    let mut core: Core<FakeProcess> = Core::new(builder().launch("missing".to_string(), "x".to_string(), false));
    let mut spawner = FakeSpawner::default();
    assert!(matches!(core.setup(&mut spawner), Err(CoreError::UnknownCommand { command_name, .. }) if command_name == "missing"));
    let mut core: Core<FakeProcess> = Core::new(builder().launch("broken".to_string(), "x".to_string(), false));
    assert!(matches!(core.setup(&mut spawner), Err(CoreError::UnknownRunner { runner_name, available_runners })
        if runner_name == "nope" && available_runners == vec!["native".to_string()]));
    let mut core: Core<FakeProcess> = Core::new(builder().launch("test".to_string(), "tester".to_string(), false));
    assert!(matches!(core.setup(&mut spawner), Err(CoreError::DuplicateNodeName { name }) if name == "tester"));
}

#[test]
fn launch_request_starts_a_server() {
    let (mut core, _spawner) = with_server();
    assert_eq!(core.num_nodes(), 2);
    let out = core.take_outbox();
    assert!(matches!(&delivered_to(&out, SERVER)[0].body.payload, Payload::Init { name, .. } if name == "s1"));
    let answers = delivered_to(&out, TESTER);
    assert!(matches!(&answers.last().unwrap().body.payload, Payload::LaunchFinished { error: None }));
}

#[test]
fn failed_launch_is_answered_with_the_error() {
    let (mut core, mut spawner) = with_server();
    core.take_outbox();
    let launch = Payload::Launch { name: "s1".to_string(), command_name: "server".to_string(), request_exited_message: false };
    send(&mut core, &mut spawner, TESTER, Message::new("tester", "core", launch)).unwrap();
    let out = core.take_outbox();
    assert!(matches!(&delivered_to(&out, TESTER).last().unwrap().body.payload,
        Payload::LaunchFinished { error: Some(e) } if e == "a node with name `s1` already exists"));
    let launch = Payload::Launch { name: "s9".to_string(), command_name: "nothing".to_string(), request_exited_message: false };
    send(&mut core, &mut spawner, TESTER, Message::new("tester", "core", launch)).unwrap();
    let out = core.take_outbox();
    assert!(matches!(&delivered_to(&out, TESTER).last().unwrap().body.payload,
        Payload::LaunchFinished { error: Some(e) } if e.starts_with("a command with name `nothing` was not registered")));
    assert_eq!(core.num_nodes(), 2);
}

#[test]
fn messages_between_nodes_go_through_the_network() {
    let (mut core, mut spawner) = with_server();
    core.take_outbox();
    let r = send(&mut core, &mut spawner, TESTER, Message::new("tester", "s1", Payload::Other("{}".to_string())));
    assert!(matches!(r, Ok(false)));
    assert_eq!(core.num_messages_in_transit(), 1);
    assert!(core.take_outbox().is_empty());
    assert!(matches!(core.deliver_next(), Some(Ok(()))));
    assert_eq!(core.num_messages_in_transit(), 0);
    let out = core.take_outbox();
    let got = delivered_to(&out, SERVER);
    assert_eq!(got.len(), 1);
    assert_eq!(got[0].src, "tester");
    assert!(core.deliver_next().is_none());
}

#[test]
fn messages_to_the_core_never_enter_the_network() {
    let (mut core, mut spawner) = with_server();
    let r = send(&mut core, &mut spawner, TESTER, Message::new("tester", "core", Payload::Register));
    assert!(r.is_err());
    assert_eq!(core.num_messages_in_transit(), 0);
}

#[test]
fn delivery_to_an_unknown_node_fails() {
    let (mut core, mut spawner) = with_server();
    send(&mut core, &mut spawner, TESTER, Message::new("tester", "ghost", Payload::Other("{}".to_string()))).unwrap();
    assert!(matches!(core.deliver_next(), Some(Err(CoreError::DispatchError { kind: DispatchErrorKind::DestinationUnknown, name, .. })) if name == "tester"));
}

#[test]
fn wrong_source_name_is_refused() {
    let (mut core, mut spawner) = with_server();
    let r = send(&mut core, &mut spawner, TESTER, Message::new("s1", "tester", Payload::Other("{}".to_string())));
    assert!(matches!(r, Err(CoreError::DispatchError { kind: DispatchErrorKind::SourceNameMismatch(got, expected), name, .. })
        if got == "s1" && expected == vec!["tester".to_string()] && name == "tester"));
    assert_eq!(core.num_messages_in_transit(), 0);
}

#[test]
fn requests_without_capability_are_refused() {
    let (mut core, mut spawner) = with_server();
    let r = send(&mut core, &mut spawner, SERVER, Message::new("s1", "core", Payload::Reset));
    assert!(matches!(r, Err(CoreError::IllegalCoreMessage { name, .. }) if name == "s1"));
    let r = send(&mut core, &mut spawner, SERVER, Message::new("s1", "core", Payload::Control(Control::Break)));
    assert!(matches!(r, Err(CoreError::IllegalCoreMessage { .. })));
    assert_eq!(core.state(), CoreState::Running);
    let launch = Payload::Launch { name: "s2".to_string(), command_name: "server".to_string(), request_exited_message: false };
    let r = send(&mut core, &mut spawner, SERVER, Message::new("s1", "core", launch));
    assert!(matches!(r, Err(CoreError::IllegalCoreMessage { .. })));
    assert_eq!(core.num_nodes(), 2);
}

#[test]
fn unknown_core_messages_are_refused() {
    let (mut core, mut spawner) = with_server();
    let r = send(&mut core, &mut spawner, TESTER, Message::new("tester", "core", Payload::Other("{}".to_string())));
    assert!(matches!(r, Err(CoreError::UnknownCoreMessage { name, .. }) if name == "tester"));
}

#[test]
fn registration() {
    let (mut core, mut spawner) = with_server();
    let r = send(&mut core, &mut spawner, TESTER, Message::new("tester", "core", Payload::Register));
    assert!(matches!(r, Err(CoreError::UnexpectedRegistration { name }) if name == "tester"));
    let mut core: Core<FakeProcess> = Core::new(Builder::new()
        .register_command("test".to_string(), command("t"), all_caps())
        .launch("test".to_string(), "tester".to_string(), true));
    core.set_now(1000);
    core.setup(&mut spawner).unwrap();
    assert_eq!(core.next_deadline(), Some(1500));
    assert!(send(&mut core, &mut spawner, TESTER, Message::new("tester", "core", Payload::Register)).is_ok());
    core.set_now(1500);
    assert!(matches!(core.handle_expired_timer(), Some(Ok(()))));
}

#[test]
fn missing_registration_is_an_error() {
    let mut spawner = FakeSpawner::default();
    let mut core: Core<FakeProcess> = Core::new(Builder::new()
        .register_command("test".to_string(), command("t"), all_caps())
        .launch("test".to_string(), "tester".to_string(), true));
    core.setup(&mut spawner).unwrap();
    assert!(core.handle_expired_timer().is_none());
    core.set_now(500);
    assert!(matches!(core.handle_expired_timer(), Some(Err(CoreError::MissingRegistration { name })) if name == "tester"));
}

#[test]
fn timer_requests_are_answered_when_due() {
    let (mut core, mut spawner) = with_server();
    core.set_now(100);
    let mut m = Message::new("tester", "core", Payload::Timer { name: "t1".to_string(), millis: 50 });
    m.body.id = Some(7);
    send(&mut core, &mut spawner, TESTER, m).unwrap();
    assert_eq!(core.next_deadline(), Some(150));
    core.set_now(149);
    assert!(core.handle_expired_timer().is_none());
    core.set_now(150);
    core.take_outbox();
    assert!(matches!(core.handle_expired_timer(), Some(Ok(()))));
    let out = core.take_outbox();
    let got = delivered_to(&out, TESTER);
    assert!(matches!(&got.last().unwrap().body.payload, Payload::TimerExpired { name } if name == "t1"));
    assert_eq!(got.last().unwrap().body.in_reply_to, Some(7));
}

#[test]
fn control_messages_set_the_state() {
    let (mut core, mut spawner) = with_server();
    send(&mut core, &mut spawner, TESTER, Message::new("tester", "core", Payload::Control(Control::Break))).unwrap();
    assert_eq!(core.state(), CoreState::Paused);
    send(&mut core, &mut spawner, TESTER, Message::new("tester", "s1", Payload::Other("{}".to_string()))).unwrap();
    assert!(core.deliver_next().is_none());
    send(&mut core, &mut spawner, TESTER, Message::new("tester", "core", Payload::Control(Control::Step))).unwrap();
    assert_eq!(core.state(), CoreState::Stepping);
    assert!(matches!(core.deliver_next(), Some(Ok(()))));
    assert_eq!(core.state(), CoreState::Paused);
    send(&mut core, &mut spawner, TESTER, Message::new("tester", "core", Payload::Control(Control::Resume))).unwrap();
    assert_eq!(core.state(), CoreState::Running);
}

#[test]
fn break_only_pauses_an_interactive_core() {
    let (mut core, mut spawner) = with_server();
    send(&mut core, &mut spawner, TESTER, Message::new("tester", "core", Payload::Break)).unwrap();
    assert_eq!(core.state(), CoreState::Running);
}

#[test]
fn remote_commands_drop_and_deliver_by_timestamp() {
    let (mut core, mut spawner) = with_server();
    send(&mut core, &mut spawner, TESTER, Message::new("tester", "s1", Payload::Other("1".to_string()))).unwrap();
    send(&mut core, &mut spawner, TESTER, Message::new("tester", "s1", Payload::Other("2".to_string()))).unwrap();
    assert_eq!(core.num_messages_in_transit(), 2);
    core.handle_command(RemoteCommand::Break).unwrap();
    assert_eq!(core.state(), CoreState::Paused);
    core.handle_command(RemoteCommand::Drop(999_999)).unwrap();
    assert_eq!(core.num_messages_in_transit(), 2);
    core.take_outbox();
    core.handle_command(RemoteCommand::Resume).unwrap();
    while let Some(r) = core.deliver_next() {
        r.unwrap();
    }
    let out = core.take_outbox();
    let got = delivered_to(&out, SERVER);
    assert!(matches!(&got[0].body.payload, Payload::Other(t) if t == "1"));
    assert!(matches!(&got[1].body.payload, Payload::Other(t) if t == "2"));
}

#[test]
fn aliases_can_send_and_duplicate_aliases_are_refused() {
    let (mut core, mut spawner) = with_server();
    send(&mut core, &mut spawner, TESTER, Message::new("tester", "core", Payload::Alias { name: "t2".to_string() })).unwrap();
    core.take_outbox();
    assert!(send(&mut core, &mut spawner, TESTER, Message::new("t2", "s1", Payload::Other("{}".to_string()))).is_ok());
    send(&mut core, &mut spawner, TESTER, Message::new("tester", "core", Payload::Alias { name: "s1".to_string() })).unwrap();
    let out = core.take_outbox();
    assert!(matches!(&delivered_to(&out, TESTER).last().unwrap().body.payload,
        Payload::LaunchFinished { error: Some(e) } if e == "a node with name `s1` already exists"));
}

#[test]
fn reset_drops_aliases_and_shuts_down_launched_nodes() {
    let (mut core, mut spawner) = with_server();
    send(&mut core, &mut spawner, TESTER, Message::new("tester", "core", Payload::Alias { name: "t2".to_string() })).unwrap();
    send(&mut core, &mut spawner, TESTER, Message::new("t2", "s1", Payload::Other("{}".to_string()))).unwrap();
    core.take_outbox();
    send(&mut core, &mut spawner, TESTER, Message::new("tester", "core", Payload::Reset)).unwrap();
    assert_eq!(core.num_messages_in_transit(), 0);
    let out = core.take_outbox();
    assert!(out.iter().any(|o| o.to == NodeId(SERVER) && matches!(o.command, ProcessCommand::Shutdown)));
    let r = send(&mut core, &mut spawner, TESTER, Message::new("t2", "s1", Payload::Other("{}".to_string())));
    assert!(matches!(r, Err(CoreError::DispatchError { .. })));
    // the server exits: it is removed, the tester learns of it and its reset finishes
    core.take_outbox();
    let r = core.handle_process_event_or_exit(NodeId(SERVER), ProcessEventOrExit::Exited(0), &mut spawner);
    assert!(matches!(r, Ok(true)));
    assert_eq!(core.num_nodes(), 1);
    assert!(!core.has_node(NodeId(SERVER)));
    let out = core.take_outbox();
    let got = delivered_to(&out, TESTER);
    assert!(got.iter().any(|m| matches!(&m.body.payload, Payload::Exited { name, exit_code: 0 } if name == "s1")));
    assert!(got.iter().any(|m| matches!(&m.body.payload, Payload::ResetFinished)));
}

#[test]
fn reset_without_launched_nodes_finishes_at_once() {
    let (mut core, mut spawner) = started();
    core.take_outbox();
    send(&mut core, &mut spawner, TESTER, Message::new("tester", "core", Payload::Reset)).unwrap();
    let out = core.take_outbox();
    assert!(matches!(&delivered_to(&out, TESTER).last().unwrap().body.payload, Payload::ResetFinished));
}

#[test]
fn a_node_with_messages_in_transit_is_kept() {
    let (mut core, mut spawner) = with_server();
    send(&mut core, &mut spawner, SERVER, Message::new("s1", "tester", Payload::Other("{}".to_string()))).unwrap();
    core.handle_process_event_or_exit(NodeId(SERVER), ProcessEventOrExit::Aborted, &mut spawner).unwrap();
    assert!(core.has_node(NodeId(SERVER)));
    assert!(matches!(core.deliver_next(), Some(Ok(()))));
    assert!(!core.has_node(NodeId(SERVER)));
    assert_eq!(spawner.spawned, vec![NodeId(TESTER), NodeId(SERVER)]);
}

#[test]
fn cleanup_aborts_only_running_processes() {
    // the server is removed when it exits: its process has ended, so it is not aborted
    let (mut core, mut spawner) = with_server();
    core.take_outbox();
    core.handle_process_event_or_exit(NodeId(SERVER), ProcessEventOrExit::Exited(3), &mut spawner).unwrap();
    let out = core.take_outbox();
    assert!(!out.iter().any(|o| matches!(o.command, ProcessCommand::Abort)));
    let got = delivered_to(&out, TESTER);
    assert!(got.iter().any(|m| matches!(&m.body.payload, Payload::Exited { name, exit_code: 3 } if name == "s1")));
}

#[test]
fn shutdown_timeout_spares_ended_processes() {
    let (mut core, mut spawner) = with_server();
    // keep the server in the registry after its end with a message in transit
    send(&mut core, &mut spawner, SERVER, Message::new("s1", "tester", Payload::Other("{}".to_string()))).unwrap();
    core.handle_process_event_or_exit(NodeId(SERVER), ProcessEventOrExit::Exited(0), &mut spawner).unwrap();
    core.handle_command(RemoteCommand::Shutdown).unwrap();
    core.take_outbox();
    core.set_now(1000);
    while let Some(r) = core.handle_expired_timer() {
        assert!(r.is_ok());
    }
    let out = core.take_outbox();
    assert!(out.iter().any(|o| o.to == NodeId(TESTER) && matches!(o.command, ProcessCommand::Abort)));
    assert!(!out.iter().any(|o| o.to == NodeId(SERVER) && matches!(o.command, ProcessCommand::Abort)));
}

#[test]
fn monitoring_and_subscriptions() {
    let (mut core, mut spawner) = with_server();
    core.take_outbox();
    let monitor = Payload::BeginMonitor { src_match: "*".to_string(), dst_match: "s1".to_string() };
    send(&mut core, &mut spawner, TESTER, Message::new("tester", "core", monitor)).unwrap();
    send(&mut core, &mut spawner, TESTER, Message::new("tester", "core", Payload::SubscribeEvents)).unwrap();
    let out = core.take_outbox();
    let got = delivered_to(&out, TESTER);
    assert!(got.iter().any(|m| matches!(&m.body.payload, Payload::PublishEvent(e)
        if matches!(&e.kind, EventKind::NodeLaunched { name, .. } if name == "s1"))));
    send(&mut core, &mut spawner, TESTER, Message::new("tester", "s1", Payload::Other("{}".to_string()))).unwrap();
    let out = core.take_outbox();
    let got = delivered_to(&out, TESTER);
    assert!(got.iter().any(|m| matches!(&m.body.payload, Payload::MonitorEvent(_))));
    assert!(got.iter().any(|m| matches!(&m.body.payload, Payload::PublishEvent(e) if matches!(e.kind, EventKind::SendMessage(_)))));
}

#[test]
fn node_logs_and_core_errors_reach_the_log() {
    let (mut core, mut spawner) = with_server();
    core.take_log();
    let r = core.handle_process_event_or_exit(NodeId(SERVER), ProcessEventOrExit::Event(ProcessEvent::Log("hi".to_string())), &mut spawner);
    assert!(matches!(r, Ok(true)));
    core.log_core_error(&CoreError::ClockExhausted, "");
    let log = core.take_log();
    assert_eq!(log.len(), 2);
    assert_eq!(log[0].level, LogLevel::Info);
    assert_eq!(log[0].text, "[s1][s1]: hi");
    assert_eq!(log[1].level, LogLevel::Error);
    assert_eq!(log[1].text, "simulation core error:\nthe logical clock of the simulation core is exhausted");
}

#[test]
fn serialize_errors_name_the_process() {
    let (mut core, mut spawner) = with_server();
    let ev = ProcessEvent::SerializeError { raw_message: "x".to_string(), error: "bad".to_string() };
    let r = core.handle_process_event_or_exit(NodeId(SERVER), ProcessEventOrExit::Event(ev), &mut spawner);
    assert!(matches!(r, Err(CoreError::SerializeError { source, .. }) if source == "server-node"));
}

#[test]
fn only_weak_nodes_left_are_shut_down() {
    let mut spawner = FakeSpawner::default();
    let mut core: Core<FakeProcess> = Core::new(Builder::new()
        .register_command("test".to_string(), command("t"), all_caps())
        .launch_weak("test".to_string(), "w".to_string(), false));
    core.setup(&mut spawner).unwrap();
    core.take_outbox();
    assert!(core.check_running());
    let out = core.take_outbox();
    assert!(out.iter().any(|o| o.to == NodeId(1) && matches!(o.command, ProcessCommand::Shutdown)));
    let (mut core, _spawner) = started();
    core.take_outbox();
    assert!(core.check_running());
    assert!(core.take_outbox().is_empty());
}

#[test]
fn shutdown_timeout_aborts_unfinished_nodes() {
    let (mut core, _spawner) = with_server();
    core.handle_command(RemoteCommand::Shutdown).unwrap();
    core.take_outbox();
    core.set_now(1000);
    assert!(matches!(core.handle_expired_timer(), Some(Ok(()))));
    let out = core.take_outbox();
    assert!(out.iter().any(|o| o.to == NodeId(TESTER) && matches!(o.command, ProcessCommand::Abort)));
    assert!(out.iter().any(|o| o.to == NodeId(SERVER) && matches!(o.command, ProcessCommand::Abort)));
}

#[test]
fn session_builder_registers_test_and_server() {
    let mut spawner = FakeSpawner::default();
    let mut core: Core<FakeProcess> = Core::new(dsbox::session::session_builder("./test.py --fast", "./server.py", false, false, false, false));
    core.setup(&mut spawner).unwrap();
    assert_eq!(core.num_nodes(), 1);
    assert_eq!(core.next_deadline(), Some(500));
    let out = core.take_outbox();
    assert!(matches!(&delivered_to(&out, 1)[0].body.payload, Payload::Init { name, .. } if name == "test"));
    let launch = Payload::Launch { name: "s".to_string(), command_name: "server".to_string(), request_exited_message: false };
    send(&mut core, &mut spawner, 1, Message::new("test", "core", launch)).unwrap();
    assert_eq!(core.num_nodes(), 2);
    // a server may not launch nodes itself
    let launch = Payload::Launch { name: "t".to_string(), command_name: "server".to_string(), request_exited_message: false };
    assert!(matches!(send(&mut core, &mut spawner, 2, Message::new("s", "core", launch)), Err(CoreError::IllegalCoreMessage { .. })));
}

#[test]
fn session_builder_with_remote_control() {
    let mut spawner = FakeSpawner::default();
    let mut core: Core<FakeProcess> = Core::new(dsbox::session::session_builder("", "", true, true, false, false));
    assert_eq!(core.state(), CoreState::Paused);
    // the remote control runs with its own runner, which this spawner does not have
    assert!(matches!(core.setup(&mut spawner), Err(CoreError::UnknownRunner { runner_name, .. }) if runner_name == "remote_control"));
}

#[test]
fn remote_control_subscribes_after_init_and_forwards_events() {
    let mut remote = RemoteControl::new();
    assert!(remote.to_core(Control::Break).is_none());
    let init = Payload::Init { name: "remote".to_string(), core_name: "core".to_string(), core_version: "0.1.0".to_string() };
    match remote.on_delivery(Message::new("core", "remote", init)) {
        RemoteAction::SendToCore(m) => {
            assert_eq!(m.src, "remote");
            assert_eq!(m.dest, "core");
            assert!(matches!(m.body.payload, Payload::SubscribeEvents));
            assert_eq!(m.body.ty, "subscribe_events");
        }
        _ => panic!("expected a subscription"),
    }
    let m = remote.to_core(Control::Step).unwrap();
    assert!(matches!(m.body.payload, Payload::Control(Control::Step)));
    assert_eq!(m.body.ty, "control");
    assert!(matches!(remote.on_delivery(Message::new("core", "remote", Payload::Register)), RemoteAction::Nothing));
}

#[test]
fn lua_runner_settings() {
    let r = LuaRunner::new(Some(("p".to_string(), "c".to_string())), true);
    assert_eq!(r.luarocks_path.as_deref(), Some("p"));
    assert_eq!(r.luarocks_cpath.as_deref(), Some("c"));
    assert!(r.allow_os_libs);
    let l = LuaLauncher::new(None);
    assert!(l.luarocks_path.is_none() && l.luarocks_cpath.is_none());
}

#[test]
fn spawner_gets_the_registered_command() {
    let (_core, spawner) = with_server();
    assert_eq!(spawner.commands, vec![vec!["test-node".to_string()], vec!["server-node".to_string()]]);
}

#[test]
fn delivering_the_next_message_leaves_the_others_in_transit() {
    let (mut core, mut spawner) = with_server();
    send(&mut core, &mut spawner, TESTER, Message::new("tester", "s1", Payload::Other("1".to_string()))).unwrap();
    send(&mut core, &mut spawner, TESTER, Message::new("tester", "s1", Payload::Other("2".to_string()))).unwrap();
    assert!(matches!(core.deliver_next(), Some(Ok(()))));
    assert_eq!(core.num_messages_in_transit(), 1);
}

#[test]
fn delivering_by_timestamp_leaves_the_others_in_transit() {
    let (mut core, mut spawner) = with_server();
    send(&mut core, &mut spawner, TESTER, Message::new("tester", "s1", Payload::Other("1".to_string()))).unwrap();
    send(&mut core, &mut spawner, TESTER, Message::new("tester", "s1", Payload::Other("2".to_string()))).unwrap();
    core.handle_command(RemoteCommand::Break).unwrap();
    core.take_outbox();
    // the logical times of the two messages are unknown here; try a range
    let mut delivered = 0;
    for t in 0..64 {
        if core.num_messages_in_transit() == 1 {
            break;
        }
        core.handle_command(RemoteCommand::Deliver(t)).unwrap();
        if core.num_messages_in_transit() < 2 {
            delivered += 1;
        }
    }
    assert_eq!(delivered, 1);
    assert_eq!(core.num_messages_in_transit(), 1);
}

#[test]
fn session_without_commands_registers_none() {
    let mut spawner = FakeSpawner::default();
    let mut core: Core<FakeProcess> = Core::new(dsbox::session::session_builder("  ", "", false, false, false, false));
    core.setup(&mut spawner).unwrap();
    assert_eq!(core.num_nodes(), 0);
    assert!(spawner.spawned.is_empty());
}

#[test]
fn setup_without_initial_launches_succeeds() {
    let mut spawner = FakeSpawner::default();
    let mut core: Core<FakeProcess> = Core::new(Builder::new());
    assert!(core.setup(&mut spawner).is_ok());
    assert!(!core.check_running());
}

#[test]
fn request_type_must_agree_with_the_body() {
    let mut m = Message::new("a", "core", Payload::Other("{}".to_string()));
    assert!(m.is_well_formed());
    m.body.ty = "launch".to_string();
    assert!(!m.is_well_formed());
    assert!(Message::new("a", "core", Payload::Reset).is_well_formed());
    let mut r = Message::new("a", "core", Payload::Reset);
    r.body.ty = "break".to_string();
    assert!(!r.is_well_formed());
}

#[test]
fn shutdown_of_weak_nodes_sets_the_timeout() {
    let mut spawner = FakeSpawner::default();
    let mut core: Core<FakeProcess> = Core::new(Builder::new()
        .register_command("test".to_string(), command("t"), all_caps())
        .launch_weak("test".to_string(), "w".to_string(), false));
    core.setup(&mut spawner).unwrap();
    core.set_now(40);
    assert_eq!(core.next_deadline(), None);
    assert!(core.check_running());
    assert_eq!(core.next_deadline(), Some(1040));
}

#[test]
fn reset_ends_all_monitoring_sessions() {
    let (mut core, mut spawner) = with_server();
    let monitor = Payload::BeginMonitor { src_match: "*".to_string(), dst_match: "*".to_string() };
    send(&mut core, &mut spawner, TESTER, Message::new("tester", "core", monitor)).unwrap();
    send(&mut core, &mut spawner, TESTER, Message::new("tester", "core", Payload::Reset)).unwrap();
    core.take_outbox();
    send(&mut core, &mut spawner, TESTER, Message::new("tester", "s1", Payload::Other("{}".to_string()))).unwrap();
    let out = core.take_outbox();
    assert!(!delivered_to(&out, TESTER).iter().any(|m| matches!(&m.body.payload, Payload::MonitorEvent(_))));
}

#[test]
fn setup_stops_at_the_first_unknown_command() {
    let mut spawner = FakeSpawner::default();
    let mut core: Core<FakeProcess> = Core::new(builder().launch("missing".to_string(), "x".to_string(), false));
    assert!(matches!(core.setup(&mut spawner), Err(CoreError::UnknownCommand { command_name, .. }) if command_name == "missing"));
    assert_eq!(spawner.spawned, vec![NodeId(1)]);
    let mut core: Core<FakeProcess> = Core::new(Builder::new()
        .register_command("test".to_string(), command("t"), all_caps())
        .launch("test".to_string(), "a".to_string(), false)
        .launch("test".to_string(), "a".to_string(), false));
    assert!(matches!(core.setup(&mut spawner), Err(CoreError::DuplicateNodeName { name }) if name == "a"));
}
