//! Choosing a runner for a commandline, and the commands of a session.

use vstd::prelude::*;

use crate::command::{shlex_split, RunnerCommand};
use crate::text::{ends_with, str_ends_with};

verus! {

/// The test and server commandlines of a session.
pub struct Commands {
    pub test_command: String,
    pub server_command: String,
}

/// `s` split at every space.
pub open spec fn split_spaces(s: Seq<char>) -> Seq<Seq<char>>
    decreases s.len(),
{
    if s.len() == 0 {
        seq![Seq::empty()]
    } else {
        let rest = split_spaces(s.drop_last());
        if s.last() == ' ' {
            rest.push(Seq::empty())
        } else {
            rest.update(rest.len() - 1, rest.last().push(s.last()))
        }
    }
}

proof fn lemma_split_spaces_nonempty(s: Seq<char>)
    ensures
        split_spaces(s).len() >= 1,
    decreases s.len(),
{
    if s.len() > 0 {
        lemma_split_spaces_nonempty(s.drop_last());
    }
}

/// Splits `s` at every space; the result has at least one word.
pub fn split_at_spaces(s: &str) -> (v: Vec<String>)
    ensures
        v.deep_view() == split_spaces(s@),
        v.len() >= 1,
{
    let n = s.unicode_len();
    let mut v: Vec<String> = Vec::new();
    let mut cur = String::new();
    let mut i: usize = 0;
    proof {
        assert(s@.take(0) =~= Seq::<char>::empty());
    }
    while i < n
        invariant
            n == s@.len(),
            0 <= i <= n,
            v.deep_view().push(cur@) == split_spaces(s@.take(i as int)),
        decreases n - i,
    {
        let c = s.get_char(i);
        proof {
            assert(s@.take(i + 1).drop_last() =~= s@.take(i as int));
            assert(s@.take(i + 1).last() == c);
            lemma_split_spaces_nonempty(s@.take(i as int));
        }
        if c == ' ' {
            let ghost old_v = v.deep_view();
            let ghost old_cur = cur@;
            v.push(cur);
            cur = String::new();
            proof {
                assert(v.deep_view() =~= old_v.push(old_cur));
                assert(v.deep_view().push(cur@) =~= split_spaces(s@.take(i + 1)));
            }
        } else {
            let ghost old_cur = cur@;
            let one = s.substring_char(i, i + 1);
            assert(one@ =~= seq![c]);
            cur.append(one);
            proof {
                let r = split_spaces(s@.take(i as int));
                assert(cur@ =~= old_cur.push(c));
                assert(v.deep_view().push(cur@) =~= r.update(r.len() - 1, r.last().push(c)));
            }
        }
        i = i + 1;
    }
    v.push(cur);
    proof {
        assert(s@.take(n as int) =~= s@);
        lemma_split_spaces_nonempty(s@);
    }
    v
}

/// The words of a commandline: split as a POSIX shell does, or at every space when that
/// fails.
pub open spec fn commandline_words(command: Seq<char>) -> Seq<Seq<char>> {
    match shlex_split(command) {
        Some(v) => v,
        None => split_spaces(command),
    }
}

/// The runner that a program's first word calls for: `wasm` for a `.wasm` file (when
/// the wasm runner is built), `lua` for a `.lua` file (when the lua runner is built),
/// `native` otherwise.
pub open spec fn runner_for(first: Seq<char>, wasm_enabled: bool, lua_enabled: bool) -> Seq<char> {
    if wasm_enabled && ends_with(first, ".wasm"@) {
        "wasm"@
    } else if lua_enabled && ends_with(first, ".lua"@) {
        "lua"@
    } else {
        "native"@
    }
}

/// The runner of a program: a `.wasm` module runs with the `wasm` runner when that
/// runner is built, a `.lua` script with the `lua` runner when that one is built, and
/// everything else with the `native` runner; with neither built, everything is native.
pub proof fn lemma_runner_choice(first: Seq<char>, wasm_enabled: bool, lua_enabled: bool)
    ensures
        wasm_enabled && ends_with(first, ".wasm"@) ==> runner_for(first, wasm_enabled, lua_enabled) == "wasm"@,
        !(wasm_enabled && ends_with(first, ".wasm"@)) && lua_enabled && ends_with(first, ".lua"@)
            ==> runner_for(first, wasm_enabled, lua_enabled) == "lua"@,
        !ends_with(first, ".wasm"@) && !ends_with(first, ".lua"@) ==> runner_for(first, wasm_enabled, lua_enabled) == "native"@,
        runner_for(first, false, false) == "native"@,
{
}

/// Chooses a runner for a commandline whose words are known to be at least one.
/// The commandline is split as a POSIX shell does, or at every space when that fails.
pub fn guess_runner(command: &str, wasm_enabled: bool, lua_enabled: bool) -> (c: RunnerCommand)
    requires
        commandline_words(command@).len() >= 1,
    ensures
        c.args.deep_view() == commandline_words(command@),
        c.runner@ == runner_for(commandline_words(command@)[0], wasm_enabled, lua_enabled),
{
    let args = match RunnerCommand::split_command(command) {
        Some(args) => args,
        None => split_at_spaces(command),
    };
    proof {
        assert(args@[0]@ == args.deep_view()[0]);
        reveal_strlit(".wasm");
        reveal_strlit(".lua");
        reveal_strlit("wasm");
        reveal_strlit("lua");
        reveal_strlit("native");
    }
    if wasm_enabled && str_ends_with(args[0].as_str(), ".wasm") {
        RunnerCommand::new(String::from_str("wasm"), args)
    } else if lua_enabled && str_ends_with(args[0].as_str(), ".lua") {
        RunnerCommand::new(String::from_str("lua"), args)
    } else {
        RunnerCommand::new(String::from_str("native"), args)
    }
}

/// Chooses a runner for a commandline, or `None` when the commandline has no words
/// (such as an empty or blank commandline).
pub fn try_guess_runner(command: &str, wasm_enabled: bool, lua_enabled: bool) -> (c: Option<RunnerCommand>)
    ensures
        c is None <==> commandline_words(command@).len() == 0,
        c matches Some(c) ==> c.args.deep_view() == commandline_words(command@)
            && c.runner@ == runner_for(commandline_words(command@)[0], wasm_enabled, lua_enabled),
{
    let words = RunnerCommand::split_command(command);
    let has_words = match &words {
        Some(v) => v.len() > 0,
        None => true,
    };
    proof {
        if words is None {
            lemma_split_spaces_nonempty(command@);
        } else {
            assert(words->0.deep_view().len() == words->0.len());
        }
    }
    if has_words {
        Some(guess_runner(command, wasm_enabled, lua_enabled))
    } else {
        None
    }
}

} // verus!
