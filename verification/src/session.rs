//! The configuration of a simulation session: which commands the nodes can be launched
//! from, with which capabilities, and which nodes are launched at the start.

use vstd::prelude::*;

use crate::capabilities::{Capabilities, Capability};
use crate::command::RunnerCommand;
use crate::sim_core::{has_command, Builder, RegisteredCommand};
use crate::util::{commandline_words, runner_for, try_guess_runner};

verus! {

/// The capabilities of a test node: a break, launching nodes and aliases, monitoring
/// and resets.
pub open spec fn is_test_capabilities(c: Capabilities) -> bool {
    forall|x: Capability| #[trigger] c.has(x) == (x == Capability::Break || x == Capability::LaunchNodes
        || x == Capability::LaunchAlias || x == Capability::Monitor || x == Capability::Reset)
}

/// The capabilities of the remote control: a break, subscribing to events and
/// controlling the core.
pub open spec fn is_remote_capabilities(c: Capabilities) -> bool {
    forall|x: Capability| #[trigger] c.has(x) == (x == Capability::Break || x == Capability::SubscribeEvents
        || x == Capability::ControlCore)
}

/// The capabilities of a server node: a break only.
pub open spec fn is_server_capabilities(c: Capabilities) -> bool {
    forall|x: Capability| #[trigger] c.has(x) == (x == Capability::Break)
}

/// `c` holds a command named `name` with the runner and the arguments guessed from the
/// commandline `command`, and with capabilities that satisfy `caps`.
pub open spec fn has_guessed_command(
    c: Seq<RegisteredCommand>,
    name: Seq<char>,
    command: Seq<char>,
    wasm_enabled: bool,
    lua_enabled: bool,
    caps: spec_fn(Capabilities) -> bool,
) -> bool {
    exists|i: int| 0 <= i < c.len() && (#[trigger] c[i]).name@ == name && caps(c[i].capabilities)
        && c[i].command.args.deep_view() == commandline_words(command)
        && c[i].command.runner@ == runner_for(commandline_words(command)[0], wasm_enabled, lua_enabled)
}

/// `name` is the name of a command of a session: the remote control's when `remote`,
/// the test command's or the server command's when their commandline has words.
pub open spec fn session_command(name: Seq<char>, test_command: Seq<char>, server_command: Seq<char>, remote: bool) -> bool {
    ||| (name == "remote"@ && remote)
    ||| (name == "test"@ && commandline_words(test_command).len() > 0)
    ||| (name == "server"@ && commandline_words(server_command).len() > 0)
}

/// The capabilities of a test node.
fn test_capabilities() -> (c: Capabilities)
    ensures
        is_test_capabilities(c),
{
    Capabilities::default().with(Capability::LaunchNodes).with(Capability::LaunchAlias).with(Capability::Monitor).with(
        Capability::Reset,
    )
}

/// The capabilities of the remote control.
fn remote_capabilities() -> (c: Capabilities)
    ensures
        is_remote_capabilities(c),
{
    Capabilities::default().with(Capability::SubscribeEvents).with(Capability::ControlCore)
}

/// The builder of a session: the remote control (when `remote`) as the weak node
/// `remote`; the test command (when it has words) as the command `test`, launched as
/// the node `test` that must register; the server command (when it has words) as the
/// command `server`. The runners are guessed from the commandlines.
pub fn session_builder(
    test_command: &str,
    server_command: &str,
    interactive: bool,
    remote: bool,
    wasm_enabled: bool,
    lua_enabled: bool,
) -> (b: Builder)
    ensures
        b.spec_interactive() == interactive,
        b.spec_core_name() == "core"@,
        remote ==> exists|i: int| 0 <= i < b.spec_commands().len() && (#[trigger] b.spec_commands()[i]).name@ == "remote"@
            && is_remote_capabilities(b.spec_commands()[i].capabilities)
            && b.spec_commands()[i].command.runner@ == "remote_control"@
            && b.spec_commands()[i].command.args.deep_view() == seq!["remote_control"@],
        commandline_words(test_command@).len() > 0 ==> has_guessed_command(
            b.spec_commands(), "test"@, test_command@, wasm_enabled, lua_enabled, |c: Capabilities| is_test_capabilities(c)),
        commandline_words(server_command@).len() > 0 ==> has_guessed_command(
            b.spec_commands(), "server"@, server_command@, wasm_enabled, lua_enabled, |c: Capabilities| is_server_capabilities(c)),
        b.spec_launch_initial().len() == (if remote { 1int } else { 0int }) + (if commandline_words(test_command@).len() > 0 { 1int } else { 0int }),
        remote ==> b.spec_launch_initial()[0].name@ == "remote"@ && b.spec_launch_initial()[0].command@ == "remote"@
            && b.spec_launch_initial()[0].weak && !b.spec_launch_initial()[0].requires_registration,
        commandline_words(test_command@).len() > 0 ==> ({
            let t = b.spec_launch_initial().last();
            t.name@ == "test"@ && t.command@ == "test"@ && !t.weak && t.requires_registration
        }),
        forall|i: int| 0 <= i < b.spec_commands().len() ==> session_command(
            (#[trigger] b.spec_commands()[i]).name@, test_command@, server_command@, remote),
        has_command(b.spec_commands(), "remote"@) <==> remote,
        has_command(b.spec_commands(), "test"@) <==> commandline_words(test_command@).len() > 0,
        has_command(b.spec_commands(), "server"@) <==> commandline_words(server_command@).len() > 0,
{
    proof {
        reveal_strlit("remote");
        reveal_strlit("remote_control");
        reveal_strlit("test");
        reveal_strlit("server");
        assert("remote"@ != "test"@) by {
            assert("remote"@.len() != "test"@.len());
        }
        assert("remote"@ != "server"@) by {
            assert("remote"@[0] != "server"@[0]);
        }
        assert("test"@ != "server"@) by {
            assert("test"@.len() != "server"@.len());
        }
    }
    let mut b = Builder::new().interactive(interactive);
    let ghost start = b;
    if remote {
        let mut args: Vec<String> = Vec::new();
        args.push(String::from_str("remote_control"));
        let command = RunnerCommand::new(String::from_str("remote_control"), args);
        proof {
            assert(command.args.deep_view() =~= seq!["remote_control"@]);
        }
        b = b.register_command(String::from_str("remote"), command, remote_capabilities());
        b = b.launch_weak(String::from_str("remote"), String::from_str("remote"), false);
    }
    let ghost after_remote = b;
    proof {
        assert forall|i: int| 0 <= i < b.spec_commands().len() implies (#[trigger] b.spec_commands()[i]).name@ == "remote"@ && remote by {
            if remote {
                if b.spec_commands()[i].name@ != "remote"@ {
                    assert(start.spec_commands().contains(b.spec_commands()[i]));
                }
            }
        }
    }
    match try_guess_runner(test_command, wasm_enabled, lua_enabled) {
        Some(command) => {
            b = b.register_command(String::from_str("test"), command, test_capabilities());
            b = b.launch(String::from_str("test"), String::from_str("test"), true);
        },
        None => {},
    }
    let ghost after_test = b;
    proof {
        assert forall|i: int| 0 <= i < after_test.spec_commands().len() implies ((#[trigger] after_test.spec_commands()[i]).name@ == "remote"@
            && remote) || (after_test.spec_commands()[i].name@ == "test"@ && commandline_words(test_command@).len() > 0) by {
            let e = after_test.spec_commands()[i];
            if e.name@ != "test"@ && after_test != after_remote {
                assert(after_remote.spec_commands().contains(e));
                let j = choose|j: int| 0 <= j < after_remote.spec_commands().len() && after_remote.spec_commands()[j] == e;
                assert(after_remote.spec_commands()[j].name@ == "remote"@);
            }
            if after_test == after_remote {
                assert(after_remote.spec_commands()[i].name@ == "remote"@);
            }
        }
    }
    proof {
        if remote {
            let i = choose|i: int| 0 <= i < after_remote.spec_commands().len()
                && (#[trigger] after_remote.spec_commands()[i]).name@ == "remote"@
                && is_remote_capabilities(after_remote.spec_commands()[i].capabilities)
                && after_remote.spec_commands()[i].command.runner@ == "remote_control"@
                && after_remote.spec_commands()[i].command.args.deep_view() == seq!["remote_control"@];
            assert(after_test.spec_commands().contains(after_remote.spec_commands()[i]));
        }
    }
    match try_guess_runner(server_command, wasm_enabled, lua_enabled) {
        Some(command) => {
            b = b.register_command(String::from_str("server"), command, Capabilities::default());
        },
        None => {},
    }
    proof {
        if remote {
            let i = choose|i: int| 0 <= i < after_test.spec_commands().len()
                && (#[trigger] after_test.spec_commands()[i]).name@ == "remote"@
                && is_remote_capabilities(after_test.spec_commands()[i].capabilities)
                && after_test.spec_commands()[i].command.runner@ == "remote_control"@
                && after_test.spec_commands()[i].command.args.deep_view() == seq!["remote_control"@];
            assert(b.spec_commands().contains(after_test.spec_commands()[i]));
        }
        if commandline_words(test_command@).len() > 0 {
            let i = choose|i: int| 0 <= i < after_test.spec_commands().len()
                && (#[trigger] after_test.spec_commands()[i]).name@ == "test"@
                && is_test_capabilities(after_test.spec_commands()[i].capabilities)
                && after_test.spec_commands()[i].command.args.deep_view() == commandline_words(test_command@)
                && after_test.spec_commands()[i].command.runner@ == runner_for(commandline_words(test_command@)[0], wasm_enabled, lua_enabled);
            assert(b.spec_commands().contains(after_test.spec_commands()[i]));
        }
        assert forall|i: int| 0 <= i < b.spec_commands().len() implies session_command(
            (#[trigger] b.spec_commands()[i]).name@, test_command@, server_command@, remote) by {
            let e = b.spec_commands()[i];
            if e.name@ != "server"@ && b != after_test {
                assert(after_test.spec_commands().contains(e));
                let j = choose|j: int| 0 <= j < after_test.spec_commands().len() && after_test.spec_commands()[j] == e;
                assert(((after_test.spec_commands()[j]).name@ == "remote"@ && remote)
                    || (after_test.spec_commands()[j].name@ == "test"@ && commandline_words(test_command@).len() > 0));
            }
            if b == after_test {
                assert(((after_test.spec_commands()[i]).name@ == "remote"@ && remote)
                    || (after_test.spec_commands()[i].name@ == "test"@ && commandline_words(test_command@).len() > 0));
            }
        }
        assert(has_command(b.spec_commands(), "remote"@) <==> remote) by {
            if has_command(b.spec_commands(), "remote"@) {
                let i = choose|i: int| 0 <= i < b.spec_commands().len() && (#[trigger] b.spec_commands()[i]).name@ == "remote"@;
                assert(session_command(b.spec_commands()[i].name@, test_command@, server_command@, remote));
            }
        }
        assert(has_command(b.spec_commands(), "test"@) <==> commandline_words(test_command@).len() > 0) by {
            if has_command(b.spec_commands(), "test"@) {
                let i = choose|i: int| 0 <= i < b.spec_commands().len() && (#[trigger] b.spec_commands()[i]).name@ == "test"@;
                assert(session_command(b.spec_commands()[i].name@, test_command@, server_command@, remote));
            }
        }
        assert(has_command(b.spec_commands(), "server"@) <==> commandline_words(server_command@).len() > 0) by {
            if has_command(b.spec_commands(), "server"@) {
                let i = choose|i: int| 0 <= i < b.spec_commands().len() && (#[trigger] b.spec_commands()[i]).name@ == "server"@;
                assert(session_command(b.spec_commands()[i].name@, test_command@, server_command@, remote));
            }
        }
    }
    b
}

} // verus!
