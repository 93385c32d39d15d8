//! The command that launches a node: the name of a runner and its arguments.

use vstd::prelude::*;

verus! {

/// What `shlex::split` returns for a string: the words of the string split as a POSIX
/// shell splits them, or `None` for an erroneous input (such as an unclosed quote).
pub uninterp spec fn shlex_split(s: Seq<char>) -> Option<Seq<Seq<char>>>;

/// Splits `input` into words as a POSIX shell does.
///
/// Calls `shlex::split`; its result is named [`shlex_split`], a function of the input
/// alone.
#[verifier::external_body]
fn shlex_split_exec(input: &str) -> (r: Option<Vec<String>>)
    ensures
        r is None <==> shlex_split(input@) is None,
        r matches Some(v) ==> v.deep_view() == shlex_split(input@)->0,
{
    shlex::split(input)
}

/// A command for a runner: the runner's name and the arguments it is given.
pub struct RunnerCommand {
    pub runner: String,
    pub args: Vec<String>,
}

/// The words of `args` joined by single spaces.
pub open spec fn join_spaces(args: Seq<Seq<char>>) -> Seq<char>
    decreases args.len(),
{
    if args.len() == 0 {
        Seq::empty()
    } else if args.len() == 1 {
        args[0]
    } else {
        join_spaces(args.drop_last()) + seq![' '] + args.last()
    }
}

impl RunnerCommand {
    /// Creates a command for the runner `runner` with the arguments `args`.
    pub fn new(runner: String, args: Vec<String>) -> (c: Self)
        ensures
            c.runner@ == runner@,
            c.args.deep_view() == args.deep_view(),
    {
        Self { runner, args }
    }

    /// Creates a command for the runner `runner` from a commandline, split into words as
    /// a POSIX shell does; `None` if the commandline cannot be split.
    pub fn from_commandline(runner: String, commandline: &str) -> (c: Option<Self>)
        ensures
            c is None <==> shlex_split(commandline@) is None,
            c matches Some(c) ==> c.runner@ == runner@ && c.args.deep_view() == shlex_split(commandline@)->0,
    {
        match Self::split_command(commandline) {
            Some(args) => Some(Self { runner, args }),
            None => None,
        }
    }

    /// The name of the runner.
    pub fn runner(&self) -> (r: &str)
        ensures
            r@ == self.runner@,
    {
        self.runner.as_str()
    }

    /// The arguments.
    pub fn args(&self) -> (a: &[String])
        ensures
            a@ == self.args@,
    {
        self.args.as_slice()
    }

    /// Splits `input` into words as a POSIX shell does; `None` for an erroneous input.
    pub fn split_command(input: &str) -> (r: Option<Vec<String>>)
        ensures
            r is None <==> shlex_split(input@) is None,
            r matches Some(v) ==> v.deep_view() == shlex_split(input@)->0,
    {
        shlex_split_exec(input)
    }

    /// The arguments joined by spaces: the commandline that the command runs.
    pub fn commandline(&self) -> (s: String)
        ensures
            s@ == join_spaces(self.args.deep_view()),
    {
        let mut s = String::new();
        let n = self.args.len();
        let mut i: usize = 0;
        proof {
            assert(self.args.deep_view().take(0) =~= Seq::<Seq<char>>::empty());
        }
        while i < n
            invariant
                n == self.args.len(),
                0 <= i <= n,
                s@ == join_spaces(self.args.deep_view().take(i as int)),
            decreases n - i,
        {
            proof {
                let a = self.args.deep_view();
                assert(a.take(i + 1).drop_last() =~= a.take(i as int));
                assert(a.take(i + 1).last() == self.args@[i as int]@);
                reveal_strlit(" ");
            }
            if i > 0 {
                s.append(" ");
            }
            s.append(self.args[i].as_str());
            proof {
                let a = self.args.deep_view();
                if i == 0 {
                    assert(a.take(1).len() == 1);
                    assert(join_spaces(a.take(1)) == a.take(1)[0]);
                    assert(s@ =~= join_spaces(a.take(1)));
                } else {
                    assert(s@ =~= join_spaces(a.take(i + 1)));
                }
            }
            i = i + 1;
        }
        proof {
            assert(self.args.deep_view().take(n as int) =~= self.args.deep_view());
        }
        s
    }

    /// The command as text: the runner's name in square brackets, a space, and the
    /// arguments joined by spaces.
    pub fn to_string(&self) -> (s: String)
        ensures
            s@ == seq!['['] + self.runner@ + seq![']', ' '] + join_spaces(self.args.deep_view()),
    {
        let mut s = String::from_str("[");
        s.append(self.runner.as_str());
        s.append("] ");
        let line = self.commandline();
        s.append(line.as_str());
        proof {
            reveal_strlit("[");
            reveal_strlit("] ");
            assert(s@ =~= seq!['['] + self.runner@ + seq![']', ' '] + join_spaces(self.args.deep_view()));
        }
        s
    }
}

impl Default for RunnerCommand {
    /// A command for the runner with the empty name, without arguments.
    fn default() -> (c: Self)
        ensures
            c.runner@ == Seq::<char>::empty(),
            c.args@ == Seq::<String>::empty(),
    {
        Self { runner: String::new(), args: Vec::new() }
    }
}

impl Clone for RunnerCommand {
    fn clone(&self) -> (c: Self)
        ensures
            c.runner@ == self.runner@,
            c.args.deep_view() == self.args.deep_view(),
    {
        let n = self.args.len();
        let mut args: Vec<String> = Vec::new();
        let mut i: usize = 0;
        while i < n
            invariant
                n == self.args.len(),
                0 <= i <= n,
                args.len() == i,
                forall|k: int| 0 <= k < i ==> (#[trigger] args@[k])@ == self.args@[k]@,
            decreases n - i,
        {
            args.push(self.args[i].clone());
            i = i + 1;
        }
        assert(args.deep_view() =~= self.args.deep_view());
        Self { runner: self.runner.clone(), args }
    }
}

} // verus!
