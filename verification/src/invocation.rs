use vstd::prelude::*;
use vstd::string::StringExecFns;

use crate::config::Wrapper;

verus! {

/// The fixed, absolute path of the privilege-escalation helper. Invocations
/// that need elevated permissions start with this executable, never with a
/// name looked up on the search path.
pub open spec fn sudo_path() -> Seq<char> {
    "/usr/bin/sudo"@
}

/// One fully specified subprocess launch: an executable and its arguments,
/// in order. Built fresh for every operation and never reused.
#[derive(Debug)]
pub struct Invocation {
    pub program: String,
    pub args: Vec<String>,
}

/// An argument list viewed as a sequence of character sequences.
pub open spec fn args_view(args: Seq<String>) -> Seq<Seq<char>> {
    args.map_values(|a: String| a@)
}

pub proof fn lemma_args_view_push(s: Seq<String>, x: String)
    ensures
        args_view(s.push(x)) == args_view(s).push(x@),
{
    assert(args_view(s.push(x)) =~~= args_view(s).push(x@));
}

impl Invocation {
    /// The arguments of this invocation, as character sequences.
    pub open spec fn args_seq(&self) -> Seq<Seq<char>> {
        args_view(self.args@)
    }
}

/// How invocations are built: either the delegate command runs directly, or
/// it runs through the escalation helper at `sudo_path()`.
#[derive(Debug)]
pub enum CommandMaker {
    Regular(String),
    Root(String),
}

impl CommandMaker {
    /// The configured delegate command name.
    pub open spec fn spec_command(&self) -> Seq<char> {
        match self {
            CommandMaker::Regular(c) => c@,
            CommandMaker::Root(c) => c@,
        }
    }

    /// Whether invocations run through the escalation helper.
    pub open spec fn spec_requires_root(&self) -> bool {
        self is Root
    }

    /// The strategy that a given configuration selects.
    pub open spec fn spec_of_config(config: Wrapper) -> CommandMaker {
        if config.requires_root {
            CommandMaker::Root(config.command)
        } else {
            CommandMaker::Regular(config.command)
        }
    }

    /// Derive the strategy from configuration: `requires_root` selects the
    /// escalated form.
    pub fn from_wrapper_config(config: Wrapper) -> (r: Self)
        ensures
            r == Self::spec_of_config(config),
    {
        if config.requires_root {
            Self::Root(config.command)
        } else {
            Self::Regular(config.command)
        }
    }

    /// The executable every invocation built from this strategy starts with.
    pub open spec fn spec_program(&self) -> Seq<char> {
        if self.spec_requires_root() {
            sudo_path()
        } else {
            self.spec_command()
        }
    }

    /// The arguments every invocation built from this strategy starts with.
    pub open spec fn spec_base_args(&self) -> Seq<Seq<char>> {
        if self.spec_requires_root() {
            seq![self.spec_command()]
        } else {
            Seq::empty()
        }
    }

    /// Build a fresh base invocation: the delegate itself, or the escalation
    /// helper with the delegate as its only argument so far.
    pub fn construct(&self) -> (r: Invocation)
        ensures
            r.program@ == self.spec_program(),
            r.args_seq() == self.spec_base_args(),
    {
        match self {
            CommandMaker::Regular(cmd) => {
                let r = Invocation { program: cmd.clone(), args: Vec::new() };
                proof {
                    assert(r.args_seq() =~~= self.spec_base_args());
                }
                r
            },
            CommandMaker::Root(cmd) => {
                let mut args: Vec<String> = Vec::new();
                args.push(cmd.clone());
                let r = Invocation { program: "/usr/bin/sudo".to_owned(), args };
                proof {
                    assert(r.args_seq() =~~= self.spec_base_args());
                }
                r
            },
        }
    }

    /// Render the strategy for display: the delegate name, prefixed by the
    /// escalation helper's path when one is used.
    pub fn as_string(&self) -> (r: String)
        ensures
            !self.spec_requires_root() ==> r@ == self.spec_command(),
            self.spec_requires_root() ==> r@ == sudo_path() + " "@ + self.spec_command(),
    {
        match self {
            CommandMaker::Regular(cmd) => cmd.clone(),
            CommandMaker::Root(cmd) => {
                let mut s = "/usr/bin/sudo".to_owned();
                s.append(" ");
                s.append(cmd.as_str());
                s
            },
        }
    }

    /// The shell line the existence check runs.
    pub open spec fn spec_check_line(&self) -> Seq<char> {
        "command -v "@ + self.spec_command()
    }

    /// The executable of the existence-check invocation: the check runs under
    /// the same escalation context as real operations would.
    pub open spec fn spec_check_program(&self) -> Seq<char> {
        if self.spec_requires_root() {
            sudo_path()
        } else {
            "sh"@
        }
    }

    /// The arguments of the existence-check invocation.
    pub open spec fn spec_check_args(&self) -> Seq<Seq<char>> {
        if self.spec_requires_root() {
            seq!["sh"@, "-c"@, self.spec_check_line()]
        } else {
            seq!["-c"@, self.spec_check_line()]
        }
    }

    /// Build the invocation that checks that the delegate command resolves:
    /// a POSIX shell running `command -v <delegate>`, escalated exactly when
    /// real operations are. The caller runs it with standard output
    /// suppressed and inspects the outcome.
    pub fn check_command(&self) -> (r: Invocation)
        ensures
            r.program@ == self.spec_check_program(),
            r.args_seq() == self.spec_check_args(),
    {
        let mut line = "command -v ".to_owned();
        let mut args: Vec<String> = Vec::new();
        match self {
            CommandMaker::Regular(cmd) => {
                line.append(cmd.as_str());
                args.push("-c".to_owned());
                args.push(line);
                let r = Invocation { program: "sh".to_owned(), args };
                proof {
                    assert(r.args_seq() =~~= self.spec_check_args());
                }
                r
            },
            CommandMaker::Root(cmd) => {
                line.append(cmd.as_str());
                args.push("sh".to_owned());
                args.push("-c".to_owned());
                args.push(line);
                let r = Invocation { program: "/usr/bin/sudo".to_owned(), args };
                proof {
                    assert(r.args_seq() =~~= self.spec_check_args());
                }
                r
            },
        }
    }
}

/// An escalated configuration builds invocations whose executable is the
/// fixed escalation-helper path and whose first argument is the configured
/// delegate command.
pub proof fn lemma_escalated_construction(config: Wrapper)
    requires
        config.requires_root,
    ensures
        CommandMaker::spec_of_config(config).spec_program() == sudo_path(),
        CommandMaker::spec_of_config(config).spec_base_args() == seq![config.command@],
{
}

/// A non-escalated configuration builds invocations whose executable is the
/// configured delegate command itself, with no escalation prefix and no base
/// arguments.
pub proof fn lemma_direct_construction(config: Wrapper)
    requires
        !config.requires_root,
    ensures
        CommandMaker::spec_of_config(config).spec_program() == config.command@,
        CommandMaker::spec_of_config(config).spec_base_args() == Seq::<Seq<char>>::empty(),
{
}

} // verus!
