//! A child command line: the program, its arguments, the message reported
//! when it fails, and whether its output is shown.
use vstd::prelude::*;
use crate::config::{backend_host, backend_selected, Config};
use crate::errors::{Error, Result};
use crate::text::{decimal, decimal_text, lemma_split_nonempty, split_on, split_text, views};

verus! {

pub struct Command {
    pub executable: String,
    pub args: Vec<String>,
    error_message: String,
    loud: bool,
}

/// Mathematical model of a [`Command`].
pub struct CommandView {
    pub executable: Seq<char>,
    pub args: Seq<Seq<char>>,
    pub error_message: Seq<char>,
    pub loud: bool,
}

impl View for Command {
    type V = CommandView;

    closed spec fn view(&self) -> CommandView {
        CommandView {
            executable: self.executable@,
            args: views(self.args@),
            error_message: self.error_message@,
            loud: self.loud,
        }
    }
}

/// Message reported when a command fails and none was given.
pub open spec fn default_error_message() -> Seq<char> {
    "Error running child command"@
}

/// `parts` joined with `sep` between neighbours.
pub open spec fn joined(parts: Seq<Seq<char>>, sep: Seq<char>) -> Seq<char>
    decreases parts.len(),
{
    if parts.len() == 0 {
        Seq::empty()
    } else if parts.len() == 1 {
        parts[0]
    } else {
        joined(parts.drop_last(), sep) + sep + parts.last()
    }
}

/// The command as one line: the program, a space, and the arguments
/// separated by spaces.
pub open spec fn command_line(c: CommandView) -> Seq<char> {
    c.executable + " "@ + joined(c.args, " "@)
}

/// A command parsed from one line: the first space-separated piece is the
/// program, the others are its arguments.
pub open spec fn parsed_command(line: Seq<char>) -> CommandView {
    CommandView {
        executable: split_on(line, ' ')[0],
        args: split_on(line, ' ').drop_first(),
        error_message: default_error_message(),
        loud: false,
    }
}

/// `c` rewritten to run on the remote machine of `config` over ssh.
pub open spec fn remote_command(c: CommandView, config: &Config) -> CommandView {
    CommandView {
        executable: "sshpass"@,
        args: seq![
            "-p"@,
            config.auth.password@,
            "ssh"@,
            config.auth.username@ + "@"@ + backend_host(config),
            "-oStrictHostKeyChecking=accept-new"@,
            "-p"@,
            decimal_text(config.auth.ssh_port as nat),
            command_line(c),
        ],
        error_message: c.error_message,
        loud: c.loud,
    }
}

/// Joins `parts` with `sep`.
pub fn join_text(parts: &Vec<String>, sep: &str) -> (r: String)
    ensures
        r@ == joined(views(parts@), sep@),
{
    let mut r = String::new();
    let mut i: usize = 0;
    while i < parts.len()
        invariant
            i <= parts@.len(),
            r@ == joined(views(parts@.take(i as int)), sep@),
        decreases parts@.len() - i,
    {
        assert(views(parts@.take(i + 1)).drop_last() =~= views(parts@.take(i as int)));
        assert(views(parts@.take(i + 1)).last() == parts@[i as int]@);
        if i > 0 {
            r.append(sep);
        } else {
            assert(r@ =~= Seq::<char>::empty());
        }
        r.append(parts[i].as_str());
        i = i + 1;
    }
    assert(parts@.take(parts@.len() as int) =~= parts@);
    r
}

impl Command {
    /// A command running `exec` with no arguments, quiet, with the default
    /// failure message.
    pub fn new(exec: &str) -> (r: Command)
        ensures
            r@ == (CommandView {
                executable: exec@,
                args: Seq::empty(),
                error_message: default_error_message(),
                loud: false,
            }),
    {
        let r = Command {
            executable: String::from_str(exec),
            args: Vec::new(),
            error_message: String::from_str("Error running child command"),
            loud: false,
        };
        assert(views(r.args@) =~= Seq::<Seq<char>>::empty());
        r
    }

    /// Parses one command line; an empty line is refused.
    pub fn parse(command: &str) -> (r: Result<Command>)
        ensures
            match r {
                Ok(c) => command@.len() > 0 && c@ == parsed_command(command@),
                Err(e) => command@.len() == 0 && e is EmptyCommand,
            },
    {
        if command.unicode_len() == 0 {
            return Err(Error::EmptyCommand);
        }
        let mut pieces = split_text(command, ' ');
        proof {
            lemma_split_nonempty(command@, ' ');
        }
        let ghost all = pieces@;
        let exec = pieces.remove(0);
        assert(views(pieces@) =~= views(all).drop_first());
        Ok(Command {
            executable: exec,
            args: pieces,
            error_message: String::from_str("Error running child command"),
            loud: false,
        })
    }

    /// The message reported when this command fails.
    pub fn error_message(&self) -> (r: &str)
        ensures
            r@ == self@.error_message,
    {
        self.error_message.as_str()
    }

    /// Whether the command's output is shown rather than captured.
    pub fn is_loud(&self) -> (r: bool)
        ensures
            r == self@.loud,
    {
        self.loud
    }

    /// The command as one line.
    pub fn to_string(&self) -> (r: String)
        ensures
            r@ == command_line(self@),
    {
        let mut r = String::from_str(self.executable.as_str());
        r.append(" ");
        let rest = join_text(&self.args, " ");
        r.append(rest.as_str());
        r
    }

    /// What a finished run of this command gives: its standard output, a
    /// line feed and its standard error; a failure when it did not exit
    /// successfully.
    pub fn wait_with_output(&self, exit_ok: bool, stdout: &str, stderr: &str) -> (r: Result<String>)
        ensures
            match r {
                Ok(out) => exit_ok && out@ == stdout@ + "\n"@ + stderr@,
                Err(e) => !exit_ok && e is Command && e->Command_message@ == self@.error_message
                    && e->Command_output@ == stdout@ + "\n"@ + stderr@,
            },
    {
        let mut out = String::from_str(stdout);
        out.append("\n");
        out.append(stderr);
        if exit_ok {
            Ok(out)
        } else {
            Err(Error::Command { message: self.error_message.clone(), output: out })
        }
    }

    /// Replaces the failure message.
    pub fn with_err(self, message: &str) -> (r: Command)
        ensures
            r@ == (CommandView { error_message: message@, ..self@ }),
    {
        Command { error_message: String::from_str(message), ..self }
    }

    /// Shows (`true`) or captures the command's output.
    pub fn loud(self, loud: bool) -> (r: Command)
        ensures
            r@ == (CommandView { loud, ..self@ }),
    {
        Command { loud, ..self }
    }

    /// Appends one argument.
    pub fn arg(self, arg: String) -> (r: Command)
        ensures
            r@ == (CommandView { args: self@.args.push(arg@), ..self@ }),
    {
        let mut c = self;
        let ghost before = c.args@;
        let ghost av = arg@;
        c.args.push(arg);
        assert(views(c.args@) =~= views(before).push(av));
        c
    }

    /// Appends arguments, in order.
    pub fn args(self, args: Vec<String>) -> (r: Command)
        ensures
            r@ == (CommandView { args: self@.args + views(args@), ..self@ }),
    {
        let mut c = self;
        let mut more = args;
        let ghost before = c.args@;
        let ghost added = more@;
        c.args.append(&mut more);
        assert(views(c.args@) =~= views(before) + views(added));
        c
    }

    /// Drops every argument.
    pub fn clear_args(self) -> (r: Command)
        ensures
            r@ == (CommandView { args: Seq::empty(), ..self@ }),
    {
        let r = Command { args: Vec::new(), ..self };
        assert(views(r.args@) =~= Seq::<Seq<char>>::empty());
        r
    }

    /// Rewrites this command to run on the remote machine through
    /// `sshpass` and `ssh`, as one line handed to the remote shell.
    pub fn into_remote(self, config: &Config) -> (r: Command)
        requires
            backend_selected(config),
        ensures
            r@ == remote_command(self@, config),
    {
        let prev = self.to_string();
        let mut target = String::from_str(config.auth.username.as_str());
        target.append("@");
        let host = config.get_host();
        target.append(host.as_str());
        let port = decimal(config.auth.ssh_port as u64);
        let c = Command { executable: String::from_str("sshpass"), ..self };
        let c = c.clear_args();
        let c = c.args(vec![String::from_str("-p"), config.auth.password.clone()]);
        let c = c.args(
            vec![
                String::from_str("ssh"),
                target,
                String::from_str("-oStrictHostKeyChecking=accept-new"),
                String::from_str("-p"),
                port,
            ],
        );
        let r = c.arg(prev);
        assert(r@.args =~= remote_command(self@, config).args);
        r
    }
}

impl core::str::FromStr for Command {
    type Err = Error;

    fn from_str(command: &str) -> core::result::Result<Command, Error> {
        Command::parse(command)
    }
}

} // verus!
