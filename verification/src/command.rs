//! Command lines of child processes, as plain data: what to run is decided
//! here, the running is the caller's.

use crate::text::strs;
use vstd::prelude::*;

verus! {

/// A child process to start.
#[derive(Clone, Debug, PartialEq, Eq)]
pub struct CommandLine {
    pub program: String,
    pub args: Vec<String>,
    /// The directory to run in; the caller's own if none.
    pub cwd: Option<String>,
    /// Variables to set in the child's environment, as name and value.
    pub env: Vec<(String, String)>,
    /// Whether the command line is announced before it runs.
    pub announce: bool,
}

/// A command line as plain values.
pub struct CommandView {
    pub program: Seq<char>,
    pub args: Seq<Seq<char>>,
    pub cwd: Option<Seq<char>>,
    pub env: Seq<(Seq<char>, Seq<char>)>,
    pub announce: bool,
}

/// Names and values as character sequences.
pub open spec fn pairs(v: Seq<(String, String)>) -> Seq<(Seq<char>, Seq<char>)> {
    v.map_values(|p: (String, String)| (p.0@, p.1@))
}

/// The character sequences of the string literals of a list.
pub open spec fn lits(v: Seq<&'static str>) -> Seq<Seq<char>> {
    v.map_values(|s: &'static str| s@)
}

impl View for CommandLine {
    type V = CommandView;

    open spec fn view(&self) -> CommandView {
        CommandView {
            program: self.program@,
            args: strs(self.args@),
            cwd: match self.cwd {
                Some(d) => Some(d@),
                None => None,
            },
            env: pairs(self.env@),
            announce: self.announce,
        }
    }
}

/// The command `program` with `args`, in the caller's directory and
/// environment.
pub open spec fn plain(program: Seq<char>, args: Seq<Seq<char>>) -> CommandView {
    CommandView { program, args, cwd: None, env: Seq::empty(), announce: false }
}

impl CommandLine {
    /// The command `program` without arguments.
    pub fn new(program: &str) -> (c: CommandLine)
        ensures
            c@ == plain(program@, Seq::empty()),
    {
        let c = CommandLine {
            program: program.to_owned(),
            args: Vec::new(),
            cwd: None,
            env: Vec::new(),
            announce: false,
        };
        assert(c@.args =~= Seq::empty());
        assert(c@.env =~= Seq::empty());
        c
    }

    /// One more argument.
    pub fn arg(self, a: &str) -> (c: CommandLine)
        ensures
            c@ == (CommandView { args: self@.args.push(a@), ..self@ }),
    {
        let CommandLine { program, mut args, cwd, env, announce } = self;
        let item = a.to_owned();
        assert(strs(args@.push(item)) =~= strs(args@).push(a@));
        args.push(item);
        CommandLine { program, args, cwd, env, announce }
    }

    /// More arguments, in their order.
    pub fn args(self, more: &Vec<String>) -> (c: CommandLine)
        ensures
            c@ == (CommandView { args: self@.args + strs(more@), ..self@ }),
    {
        let CommandLine { program, mut args, cwd, env, announce } = self;
        let ghost before = strs(args@);
        let mut i: usize = 0;
        while i < more.len()
            invariant
                i <= more.len(),
                strs(args@) == before + strs(more@).take(i as int),
            decreases more.len() - i,
        {
            let item = more[i].clone();
            proof {
                assert(strs(more@)[i as int] == item@);
                assert(strs(args@.push(item)) =~= strs(args@).push(item@));
                assert(before + strs(more@).take(i + 1) =~= (before + strs(more@).take(
                    i as int,
                )).push(item@));
            }
            args.push(item);
            i += 1;
        }
        assert(strs(more@).take(more.len() as int) =~= strs(more@));
        CommandLine { program, args, cwd, env, announce }
    }

    /// More arguments, given as literals.
    pub fn literals(self, more: &[&'static str]) -> (c: CommandLine)
        ensures
            c@ == (CommandView { args: self@.args + lits(more@), ..self@ }),
    {
        let CommandLine { program, mut args, cwd, env, announce } = self;
        let ghost before = strs(args@);
        let mut i: usize = 0;
        while i < more.len()
            invariant
                i <= more.len(),
                strs(args@) == before + lits(more@).take(i as int),
            decreases more.len() - i,
        {
            let item = more[i].to_owned();
            proof {
                assert(lits(more@)[i as int] == item@);
                assert(strs(args@.push(item)) =~= strs(args@).push(item@));
                assert(before + lits(more@).take(i + 1) =~= (before + lits(more@).take(
                    i as int,
                )).push(item@));
            }
            args.push(item);
            i += 1;
        }
        assert(lits(more@).take(more.len() as int) =~= lits(more@));
        CommandLine { program, args, cwd, env, announce }
    }

    /// The directory to run in.
    pub fn current_dir(self, dir: &str) -> (c: CommandLine)
        ensures
            c@ == (CommandView { cwd: Some(dir@), ..self@ }),
    {
        let CommandLine { program, args, cwd, env, announce } = self;
        CommandLine { program, args, cwd: Some(dir.to_owned()), env, announce }
    }

    /// One more variable for the child's environment.
    pub fn env(self, name: &str, value: &str) -> (c: CommandLine)
        ensures
            c@ == (CommandView { env: self@.env.push((name@, value@)), ..self@ }),
    {
        let CommandLine { program, args, cwd, mut env, announce } = self;
        let item = (name.to_owned(), value.to_owned());
        assert(pairs(env@.push(item)) =~= pairs(env@).push((name@, value@)));
        env.push(item);
        CommandLine { program, args, cwd, env, announce }
    }

    /// The same command, announced before it runs.
    pub fn announced(self) -> (c: CommandLine)
        ensures
            c@ == (CommandView { announce: true, ..self@ }),
    {
        let CommandLine { program, args, cwd, env, announce } = self;
        CommandLine { program, args, cwd, env, announce: true }
    }

    /// The line that announces the command: the program and its arguments
    /// with one space between each two, then a colon.
    pub open spec fn announcement_spec(c: CommandView) -> Seq<char> {
        "Running "@ + c.program + " "@ + crate::text::join_spec(c.args, " "@) + ":"@
    }

    /// The line that announces the command.
    pub fn announcement(&self) -> (line: String)
        ensures
            line@ == Self::announcement_spec(self@),
    {
        let mut line = "Running ".to_owned();
        line.append(self.program.as_str());
        line.append(" ");
        let joined = crate::text::join(&self.args, " ");
        line.append(joined.as_str());
        line.append(":");
        line
    }
}

} // verus!
