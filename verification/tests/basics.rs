use dsbox::capabilities::{capability_for, has_capability, Capabilities, Capability};
use dsbox::command::RunnerCommand;
use dsbox::error::{debug_string_list, CoreError, DispatchErrorKind};
use dsbox::handle::{EndOutcome, ExitStatus, HandleStatus};
use dsbox::interpreters::{interpreter_candidates, interpreters_for, language_for_extension, pick_interpreter, Language};
use dsbox::log_color::{log_marker_ansi_color, log_marker_color_from_str, LogMarkerColor, RED, RESET};
use dsbox::message::{LogMarker, LogMessage, Message, Payload};
use dsbox::monitor::MonitorSession;
use dsbox::node::NodeId;
use dsbox::sim_core::log_line_text;
use dsbox::timestamp::TimestampSource;
use dsbox::util::{guess_runner, split_at_spaces, try_guess_runner};
use dsbox::version;

fn strings(v: &[&str]) -> Vec<String> {
    v.iter().map(|s| s.to_string()).collect()
}

#[test]
fn capabilities_default_allows_break_only() {
    let c = Capabilities::default();
    assert!(c.contains(Capability::Break));
    assert!(!c.contains(Capability::Reset));
    assert!(!c.contains(Capability::LaunchNodes));
}

#[test]
fn capabilities_with_and_bits_roundtrip() {
    let c = Capabilities::empty().with(Capability::Reset).with(Capability::Monitor);
    let back = Capabilities::from_bits_truncate(c.to_bits());
    assert!(back.contains(Capability::Reset));
    assert!(back.contains(Capability::Monitor));
    assert!(!back.contains(Capability::Break));
    assert_eq!(Capabilities::empty().to_bits(), 0);
}

#[test]
fn capabilities_from_bits_drops_unknown_bits() {
    let c = Capabilities::from_bits_truncate(u32::MAX);
    assert!(c.contains(Capability::Break));
    assert!(c.contains(Capability::SubscribeEvents));
    let again = Capabilities::from_bits_truncate(c.to_bits());
    assert_eq!(again.to_bits(), c.to_bits());
    assert!(c.to_bits() < 1 << 7);
}

#[test]
fn system_message_types_need_their_capability() {
    assert_eq!(capability_for("launch"), Some(Capability::LaunchNodes));
    assert_eq!(capability_for("alias"), Some(Capability::LaunchAlias));
    assert_eq!(capability_for("reset"), Some(Capability::Reset));
    assert_eq!(capability_for("control"), Some(Capability::ControlCore));
    assert_eq!(capability_for("timer"), None);
    let caps = Capabilities::empty().with(Capability::LaunchNodes);
    assert!(has_capability(caps, "launch"));
    assert!(!has_capability(caps, "reset"));
    assert!(!has_capability(caps, "timer"));
}

#[test]
fn runner_command_accessors_and_text() {
    let c = RunnerCommand::new("native".to_string(), strings(&["python3", "server.py"]));
    assert_eq!(c.runner(), "native");
    assert_eq!(c.args().len(), 2);
    assert_eq!(c.to_string(), "[native] python3 server.py");
    let d = RunnerCommand::default();
    assert_eq!(d.runner(), "");
    assert_eq!(d.args().len(), 0);
}

#[test]
fn runner_command_from_commandline_splits_like_a_shell() {
    let c = RunnerCommand::from_commandline("native".to_string(), "python3 'my server.py' --port 8080").unwrap();
    assert_eq!(c.args(), &strings(&["python3", "my server.py", "--port", "8080"])[..]);
    assert!(RunnerCommand::from_commandline("native".to_string(), "python3 'unclosed").is_none());
    assert_eq!(RunnerCommand::split_command("a \"b c\"").unwrap(), strings(&["a", "b c"]));
}

#[test]
fn guess_runner_by_extension() {
    let w = guess_runner("node.wasm --x", true, true);
    assert_eq!(w.runner(), "wasm");
    assert_eq!(w.args(), &strings(&["node.wasm", "--x"])[..]);
    assert_eq!(guess_runner("script.lua", true, true).runner(), "lua");
    assert_eq!(guess_runner("script.lua", true, false).runner(), "native");
    assert_eq!(guess_runner("node.wasm", false, true).runner(), "native");
    assert_eq!(guess_runner("python3 x.py", true, true).runner(), "native");
    assert!(try_guess_runner("", true, true).is_none());
    assert!(try_guess_runner("   ", true, true).is_none());
    assert_eq!(try_guess_runner("'unclosed a", true, true).unwrap().args(), &strings(&["'unclosed", "a"])[..]);
}

#[test]
fn split_at_spaces_keeps_empty_words() {
    assert_eq!(split_at_spaces("a  b"), strings(&["a", "", "b"]));
    assert_eq!(split_at_spaces(""), strings(&[""]));
}

#[test]
fn log_colors() {
    assert_eq!(log_marker_ansi_color(LogMarkerColor::Red), RED);
    assert_eq!(log_marker_ansi_color(LogMarkerColor::BrightBlue), "\x1B[0;94m");
    assert_eq!(log_marker_color_from_str("bright_red"), Some(LogMarkerColor::BrightRed));
    assert_eq!(log_marker_color_from_str("Green"), Some(LogMarkerColor::Green));
    assert_eq!(log_marker_color_from_str("purple"), None);
}

#[test]
fn log_line_with_and_without_marker() {
    let plain = LogMessage { text: "hello".to_string(), marker: None };
    assert_eq!(log_line_text("a", "n1", &plain), "[a][n1]: hello");
    let marked = LogMessage {
        text: "boom".to_string(),
        marker: Some(LogMarker { label: "ERR".to_string(), color: Some(LogMarkerColor::Red) }),
    };
    assert_eq!(log_line_text("n1", "n1", &marked), format!("[n1][n1]: {}[ERR] boom{}", RED, RESET));
    let uncolored = LogMessage {
        text: "x".to_string(),
        marker: Some(LogMarker { label: "L".to_string(), color: None }),
    };
    assert_eq!(log_line_text("s", "n", &uncolored), "[s][n]: [L] x");
}

#[test]
fn version_is_current() {
    assert_eq!(version::current(), "0.1.0");
}

#[test]
fn node_ids_count_up() {
    let mut counter = NodeId::first();
    let a = NodeId::next(&mut counter);
    let b = NodeId::next(&mut counter);
    assert_eq!(a.value(), 1);
    assert_eq!(b.value(), 2);
    assert_eq!(counter.value(), 3);
}

#[test]
fn timestamps_strictly_increase() {
    let mut source = TimestampSource::new();
    assert_eq!(source.peek_logical(), 0);
    let a = source.now();
    let b = source.now();
    assert_eq!(a.logical, 0);
    assert_eq!(b.logical, 1);
    assert!(a.logical < b.logical);
    assert_eq!(source.peek_logical(), 2);
    let c = dsbox::timestamp::Timestamp { logical: 1, physical: 5 };
    assert!(b == c);
}

#[test]
fn monitor_patterns() {
    let s = MonitorSession::new("m".to_string(), "*".to_string(), "b".to_string());
    assert_eq!(s.source(), "m");
    assert!(s.matches(&Message::new("a", "b", Payload::Register)));
    assert!(!s.matches(&Message::new("a", "c", Payload::Register)));
    let exact = MonitorSession::new("m".to_string(), "a".to_string(), "*".to_string());
    assert!(exact.matches(&Message::new("a", "z", Payload::Register)));
    assert!(!exact.matches(&Message::new("x", "z", Payload::Register)));
}

#[test]
fn error_descriptions() {
    let e = CoreError::DuplicateNodeName { name: "n".to_string() };
    assert_eq!(e.describe(""), "a node with name `n` already exists");
    let e = CoreError::UnknownCommand { command_name: "c".to_string(), available_commands: strings(&["a", "b"]) };
    assert_eq!(e.describe(""), "a command with name `c` was not registered. Available commands are [\"a\", \"b\"]");
    let e = CoreError::UnknownCoreMessage { name: "n".to_string(), ty: "foo".to_string() };
    assert_eq!(e.describe(""), "unknown system message from node `n`: foo");
    let e = CoreError::MissingRegistration { name: "t".to_string() };
    assert_eq!(
        e.describe(""),
        "node `t` has failed to send a registration message. Are you sure you have specified the correct command?"
    );
    let e = CoreError::UnexpectedRegistration { name: "t".to_string() };
    assert_eq!(
        e.describe(""),
        "node `t` has attempted to send a registration message. Are you sure you have specified the correct command?"
    );
    let e = CoreError::UnknownRunner { runner_name: "r".to_string(), available_runners: strings(&["native"]) };
    assert_eq!(e.describe(""), "a runner with name `r`. Available runners are [\"native\"]");
    let e = CoreError::SerializeError {
        source: "p".to_string(),
        raw_message: "x\"y".to_string(),
        error: "bad".to_string(),
    };
    assert_eq!(e.describe(""), "failed to deserialize message from process `p`: bad (raw message: \"x\\\"y\")");
    let m = Message::new("a", "b", Payload::Register);
    let e = CoreError::IllegalCoreMessage { name: "a".to_string(), message: m };
    assert_eq!(e.describe("{}"), "node `a` tried to send a system message without the required capability: {}");
    let m = Message::new("a", "b", Payload::Register);
    let e = CoreError::DispatchError { name: "a".to_string(), message: m, kind: DispatchErrorKind::DestinationUnknown };
    assert_eq!(e.describe("M"), "node `a` - dispatch error: destination unknown; message: M");
    assert_eq!(CoreError::ClockExhausted.describe(""), "the logical clock of the simulation core is exhausted");
}

#[test]
fn source_name_mismatch_descriptions() {
    let one = DispatchErrorKind::SourceNameMismatch("x".to_string(), strings(&["a"]));
    assert_eq!(one.describe(), "source name does not match source id, expected `\"a\"`, got `\"x\"`");
    let many = DispatchErrorKind::SourceNameMismatch("x".to_string(), strings(&["a", "b"]));
    assert_eq!(many.describe(), "source name does not match source id, expected one of `[\"a\", \"b\"]`, got `\"x\"`");
    assert_eq!(debug_string_list(&Vec::new()), "[]");
}

#[test]
fn handle_status_reports_end_once() {
    let mut h = HandleStatus::new();
    assert!(h.needs_task_poll());
    assert_eq!(h.on_task_poll(None), EndOutcome::Pending);
    assert!(!h.has_finished(true));
    assert_eq!(h.on_task_poll(Some(Some(3))), EndOutcome::Exited(3));
    assert_eq!(h.exit_status(), ExitStatus::Exited(3));
    assert!(!h.needs_task_poll());
    assert!(h.has_finished(true));
    assert!(!h.has_finished(false));
    assert_eq!(h.exit_code(), Some(3));
}

#[test]
fn handle_status_of_aborted_and_failed_tasks() {
    let mut h = HandleStatus::new();
    h.terminate();
    assert_eq!(h.on_task_poll(None), EndOutcome::Aborted);
    assert_eq!(h.exit_status(), ExitStatus::Aborted);
    assert_eq!(h.exit_code(), None);
    assert!(h.is_done(true));
    assert!(h.has_ended(true));
    assert!(!h.has_finished(true));
    assert!(!ExitStatus::Aborted.is_none());
    assert!(ExitStatus::Running.is_none());
    let mut f = HandleStatus::new();
    assert_eq!(f.on_task_poll(Some(None)), EndOutcome::Exited(1));
}

#[test]
fn interpreters_by_extension() {
    assert_eq!(language_for_extension("py"), Some(Language::Python));
    assert_eq!(language_for_extension("mjs"), Some(Language::JavaScript));
    assert_eq!(language_for_extension("exe"), None);
    assert_eq!(interpreters_for(Language::Shell), strings(&["bash", "sh"]));
    let (l, c) = interpreter_candidates("dir/server.py").unwrap();
    assert_eq!(l, Language::Python);
    assert_eq!(c, strings(&["python", "python3"]));
    assert!(interpreter_candidates("dir/server").is_none());
    assert!(interpreter_candidates("dir/server.xyz").is_none());
    let found = pick_interpreter(Language::Python, &c, &vec![false, true]).unwrap();
    assert_eq!(found.interpreter, "python3");
    assert!(pick_interpreter(Language::Python, &c, &vec![false, false]).is_none());
}

#[test]
fn lua_package_paths_extend_the_search_paths() {
    let runner = dsbox::runners::LuaRunner::new(None, false);
    let (path, cpath) = runner.package_paths("P", "C", "/scripts", "Lua 5.4");
    assert_eq!(
        path,
        "P;/scripts/?.lua;/scripts/?/init.lua;/scripts/lua_modules/share/lua/5.4/?.lua;/scripts/lua_modules/share/lua/5.4/?/init.lua"
    );
    assert_eq!(cpath, "C;/scripts/?.so;/scripts/lua_modules/lib64/lua/5.4/?.so");
    let rocks = dsbox::runners::LuaRunner::new(Some(("R".to_string(), "RC".to_string())), true);
    let (path, cpath) = rocks.package_paths("P", "C", "d", "Lua 5.1");
    assert!(path.starts_with("R;d/?.lua;"));
    assert!(cpath.starts_with("RC;d/?.so;"));
    assert!(cpath.ends_with("d/lua_modules/lib64/lua/5.1/?.so"));
}

#[test]
fn lua_libraries_depend_on_os_permission() {
    let safe = dsbox::runners::LuaRunner::new(None, false).libraries();
    assert_eq!(safe.len(), 6);
    assert!(!safe.contains(&dsbox::runners::LuaLib::Os));
    let open = dsbox::runners::LuaRunner::new(None, true).libraries();
    assert_eq!(open.len(), 8);
    assert!(open.contains(&dsbox::runners::LuaLib::Io));
}
