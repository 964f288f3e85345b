//! The command model and the dispatcher: a parsed command is mapped to
//! a fixed builtin action, an external-process action, or a not-found
//! action, and every outcome is pinned down as a tagged variant.

use vstd::prelude::*;
use vstd::string::{StrSliceExecFns, StringExecFns};

use crate::text::{concat_args, parse_i32, parse_i32_spec, seq_views, trim, trim_spec};

verus! {

/// A parsed input line: the command name and its arguments, in order.
#[derive(Debug, PartialEq, Eq)]
pub struct RCommand {
    pub command: String,
    pub args: Vec<String>,
}

/// The mathematical model of a command: its name and arguments as
/// character sequences.
pub struct CommandModel {
    pub command: Seq<char>,
    pub args: Seq<Seq<char>>,
}

impl View for RCommand {
    type V = CommandModel;

    open spec fn view(&self) -> CommandModel {
        CommandModel { command: self.command@, args: seq_views(self.args@) }
    }
}

impl RCommand {
    /// The first argument. The caller owes a non-empty argument list:
    /// of the commands that need one, only `exit` treats a missing
    /// argument as fatal misuse, and its dispatch rules that input out.
    pub fn get_first_arg(&self) -> (r: String)
        requires
            self@.args.len() > 0,
        ensures
            r@ == self@.args[0],
    {
        self.args[0].clone()
    }
}

/// What executing a command yields, before rendering: text to print,
/// error text to print, a request to terminate the process with a code,
/// or nothing at all.
#[derive(Debug, PartialEq, Eq)]
pub enum CommandAction {
    Echo(String),
    Error(String),
    Exit(i32),
    Type(String),
    NotFound(String),
    Command(String),
    PWD(String),
    NoOutput,
}

/// The model of an outcome, over character sequences.
pub enum ActionModel {
    Echo(Seq<char>),
    Error(Seq<char>),
    Exit(int),
    Type(Seq<char>),
    NotFound(Seq<char>),
    Command(Seq<char>),
    Pwd(Seq<char>),
    NoOutput,
}

impl View for CommandAction {
    type V = ActionModel;

    open spec fn view(&self) -> ActionModel {
        match self {
            CommandAction::Echo(s) => ActionModel::Echo(s@),
            CommandAction::Error(s) => ActionModel::Error(s@),
            CommandAction::Exit(code) => ActionModel::Exit(*code as int),
            CommandAction::Type(s) => ActionModel::Type(s@),
            CommandAction::NotFound(s) => ActionModel::NotFound(s@),
            CommandAction::Command(s) => ActionModel::Command(s@),
            CommandAction::PWD(s) => ActionModel::Pwd(s@),
            CommandAction::NoOutput => ActionModel::NoOutput,
        }
    }
}

/// The closed set of commands the shell implements itself.
#[derive(Clone, Copy, Debug, PartialEq, Eq, Structural)]
pub enum BuiltinKind {
    Exit,
    Echo,
    Type,
    Pwd,
    Cd,
}

/// Which builtin a name denotes, if any.
pub open spec fn builtin_spec(name: Seq<char>) -> Option<BuiltinKind> {
    if name == "exit"@ {
        Some(BuiltinKind::Exit)
    } else if name == "echo"@ {
        Some(BuiltinKind::Echo)
    } else if name == "type"@ {
        Some(BuiltinKind::Type)
    } else if name == "pwd"@ {
        Some(BuiltinKind::Pwd)
    } else if name == "cd"@ {
        Some(BuiltinKind::Cd)
    } else {
        None
    }
}

pub fn builtin_of(name: &String) -> (r: Option<BuiltinKind>)
    ensures
        r == builtin_spec(name@),
{
    if *name == String::from_str("exit") {
        Some(BuiltinKind::Exit)
    } else if *name == String::from_str("echo") {
        Some(BuiltinKind::Echo)
    } else if *name == String::from_str("type") {
        Some(BuiltinKind::Type)
    } else if *name == String::from_str("pwd") {
        Some(BuiltinKind::Pwd)
    } else if *name == String::from_str("cd") {
        Some(BuiltinKind::Cd)
    } else {
        None
    }
}

/// Produces the exit request. The caller owes an argument that parses
/// as a 32-bit integer: on a missing or non-numeric argument the shell
/// aborts instead of returning an outcome, so those inputs stay out.
pub fn execute_exit(command: RCommand) -> (r: CommandAction)
    requires
        command@.args.len() > 0,
        parse_i32_spec(command@.args[0]) is Some,
    ensures
        parse_i32_spec(command@.args[0]) matches Some(code) && r@ == ActionModel::Exit(
            code as int,
        ),
{
    match parse_i32(command.args[0].as_str()) {
        Some(code) => CommandAction::Exit(code),
        None => {
            proof {
                assert(false);
            }
            CommandAction::Exit(0)
        },
    }
}

/// Joins all arguments with no separator between them. No space is
/// reinserted between arguments: a known quirk of this shell, kept
/// deliberately rather than corrected.
#[verifier::loop_isolation(false)]
pub fn execute_echo(command: RCommand) -> (r: CommandAction)
    ensures
        r@ == ActionModel::Echo(concat_args(command@.args)),
{
    let mut out = String::new();
    let n = command.args.len();
    let ghost vs = seq_views(command.args@);
    proof {
        assert(vs.skip(0) =~= vs);
        assert(out@ + concat_args(vs) =~= concat_args(vs));
    }
    let mut i: usize = 0;
    while i < n
        invariant
            0 <= i <= n,
            out@ + concat_args(vs.skip(i as int)) == concat_args(vs),
        decreases n - i,
    {
        let ghost out0 = out@;
        proof {
            assert(vs.skip(i as int)[0] == command.args@[i as int]@);
            assert(vs.skip(i as int).drop_first() =~= vs.skip(i as int + 1));
        }
        out.append(command.args[i].as_str());
        proof {
            assert(out@ + concat_args(vs.skip(i as int + 1)) =~= out0 + concat_args(
                vs.skip(i as int),
            ));
        }
        i = i + 1;
    }
    proof {
        assert(vs.skip(n as int) =~= Seq::<Seq<char>>::empty());
        assert(out@ =~= out@ + concat_args(vs.skip(n as int)));
    }
    CommandAction::Echo(out)
}

/// What `type` answers, given how the queried name resolved against the
/// search path. With no argument at all the command's own name is
/// reported as a builtin, a degenerate fallback kept as it stands.
pub open spec fn execute_type_spec(c: CommandModel, resolved: Option<Seq<char>>) -> ActionModel {
    if c.args.len() == 0 {
        ActionModel::Type(c.command + " is a shell builtin"@)
    } else if builtin_spec(c.args[0]) is Some {
        ActionModel::Type(c.args[0] + " is a shell builtin"@)
    } else {
        match resolved {
            Some(p) => ActionModel::Type(c.args[0] + " is "@ + p),
            None => ActionModel::NotFound(c.args[0] + ": not found"@),
        }
    }
}

pub open spec fn opt_view(o: Option<String>) -> Option<Seq<char>> {
    match o {
        Some(s) => Some(s@),
        None => None,
    }
}

/// Reports whether the queried name is a shell builtin, the full path it
/// resolved to, or that it was not found.
pub fn execute_type(command: &RCommand, resolved: Option<String>) -> (r: CommandAction)
    ensures
        r@ == execute_type_spec(command@, opt_view(resolved)),
{
    if command.args.len() == 0 {
        let mut msg = command.command.clone();
        msg.append(" is a shell builtin");
        CommandAction::Type(msg)
    } else {
        let arg0 = command.args[0].clone();
        if builtin_of(&arg0).is_some() {
            let mut msg = arg0;
            msg.append(" is a shell builtin");
            CommandAction::Type(msg)
        } else {
            match resolved {
                Some(p) => {
                    let mut msg = arg0;
                    msg.append(" is ");
                    msg.append(p.as_str());
                    CommandAction::Type(msg)
                },
                None => execute_not_found(arg0),
            }
        }
    }
}

/// The outcome for an unresolvable command name.
pub fn execute_error(command: RCommand) -> (r: CommandAction)
    ensures
        r@ == ActionModel::Error(command@.command + ": command not found"@),
{
    let mut msg = command.command;
    msg.append(": command not found");
    CommandAction::Error(msg)
}

/// The outcome `type` reports for a name that is neither a builtin nor
/// on the search path.
pub fn execute_not_found(command: String) -> (r: CommandAction)
    ensures
        r@ == ActionModel::NotFound(command@ + ": not found"@),
{
    let mut msg = command;
    msg.append(": not found");
    CommandAction::NotFound(msg)
}

/// Where `cd` goes: a target beginning with `~` is replaced wholesale by
/// the home directory value; any other target stands as given.
pub fn cd_target(path: &String, home: &String) -> (r: String)
    ensures
        path@.len() > 0 && path@[0] == '~' ==> r@ == home@,
        !(path@.len() > 0 && path@[0] == '~') ==> r@ == path@,
{
    let s = path.as_str();
    if s.unicode_len() > 0 && s.get_char(0) == '~' {
        home.clone()
    } else {
        path.clone()
    }
}

/// The outcome of `cd`, given whether the working-directory change
/// succeeded: nothing on success, one line of error text on failure.
/// A missing target is a recoverable user-input error, surfaced as one
/// line of text like any other; the exact wording is this shell's own
/// choice, and the working directory stands unchanged, as no change
/// was ever attempted.
pub fn execute_cd(command: &RCommand, chdir_succeeded: bool) -> (r: CommandAction)
    ensures
        command@.args.len() == 0 ==> r@ == ActionModel::Error(
            command@.command + ": missing argument"@,
        ),
        command@.args.len() > 0 && chdir_succeeded ==> r@ == ActionModel::NoOutput,
        command@.args.len() > 0 && !chdir_succeeded ==> r@ == ActionModel::Error(
            command@.command + ": "@ + command@.args[0] + ": No such file or directory"@,
        ),
{
    if command.args.len() == 0 {
        let mut msg = command.command.clone();
        msg.append(": missing argument");
        CommandAction::Error(msg)
    } else if chdir_succeeded {
        CommandAction::NoOutput
    } else {
        let mut msg = command.command.clone();
        msg.append(": ");
        msg.append(command.args[0].as_str());
        msg.append(": No such file or directory");
        CommandAction::Error(msg)
    }
}

/// The outcome of `pwd`: the current working directory, as handed in
/// from the operating system.
pub fn execute_pwd(current_dir: String) -> (r: CommandAction)
    ensures
        r@ == ActionModel::Pwd(current_dir@),
{
    CommandAction::PWD(current_dir)
}

/// Everything captured from a spawned process: both streams, buffered
/// in full until the process exited.
#[derive(Debug, PartialEq, Eq)]
pub struct ProcessOutput {
    pub stdout: String,
    pub stderr: String,
}

/// The all-or-nothing rule for an external command, over (standard
/// output, standard error): a non-empty error stream wins and the output
/// stream is discarded entirely; otherwise the trimmed output is the
/// result. `None` stands for a name that did not resolve or a process
/// that could not be spawned.
pub open spec fn program_outcome_spec(
    name: Seq<char>,
    po: Option<(Seq<char>, Seq<char>)>,
) -> ActionModel {
    match po {
        Some((out, err)) => if err.len() == 0 {
            ActionModel::Command(trim_spec(out))
        } else {
            ActionModel::Error(trim_spec(err))
        },
        None => ActionModel::Error(name + ": command not found"@),
    }
}

pub open spec fn po_view(po: Option<ProcessOutput>) -> Option<(Seq<char>, Seq<char>)> {
    match po {
        Some(p) => Some((p.stdout@, p.stderr@)),
        None => None,
    }
}

/// Maps what running an external command produced to its outcome, as
/// `program_outcome_spec` says. A process that writes only warnings to
/// its error stream has its real output discarded: a known limitation
/// of the all-or-nothing policy, kept deliberately.
pub fn execute_programm(command: RCommand, process_result: Option<ProcessOutput>) -> (r:
    CommandAction)
    ensures
        r@ == program_outcome_spec(command@.command, po_view(process_result)),
{
    match process_result {
        Some(po) => {
            if po.stderr.as_str().is_empty() {
                CommandAction::Command(trim(po.stdout.as_str()))
            } else {
                CommandAction::Error(trim(po.stderr.as_str()))
            }
        },
        None => execute_error(command),
    }
}

/// The operating-system fact one dispatch step needs, fetched by the
/// surrounding program: nothing for `exit` and `echo`, the current
/// directory for `pwd`, the result of the directory change for `cd`,
/// the path resolution for `type`, and the captured process output for
/// an external command.
pub enum OsInput {
    Cwd(String),
    ChdirOk(bool),
    Resolved(Option<String>),
    Spawned(Option<ProcessOutput>),
    NoInput,
}

pub enum OsModel {
    Cwd(Seq<char>),
    ChdirOk(bool),
    Resolved(Option<Seq<char>>),
    Spawned(Option<(Seq<char>, Seq<char>)>),
    NoInput,
}

impl View for OsInput {
    type V = OsModel;

    open spec fn view(&self) -> OsModel {
        match self {
            OsInput::Cwd(d) => OsModel::Cwd(d@),
            OsInput::ChdirOk(b) => OsModel::ChdirOk(*b),
            OsInput::Resolved(p) => OsModel::Resolved(opt_view(*p)),
            OsInput::Spawned(p) => OsModel::Spawned(po_view(*p)),
            OsInput::NoInput => OsModel::NoInput,
        }
    }
}

/// Which kind of operating-system fact a command's dispatch expects.
pub open spec fn os_input_expected(name: Seq<char>, os: OsModel) -> bool {
    match builtin_spec(name) {
        Some(BuiltinKind::Exit) => os is NoInput,
        Some(BuiltinKind::Echo) => os is NoInput,
        Some(BuiltinKind::Type) => os is Resolved,
        Some(BuiltinKind::Pwd) => os is Cwd,
        Some(BuiltinKind::Cd) => os is ChdirOk,
        None => os is Spawned,
    }
}

/// The dispatcher's full decision table: exactly one outcome per
/// command, as a function of the command and the operating-system fact.
pub open spec fn dispatch_spec(c: CommandModel, os: OsModel) -> ActionModel {
    match builtin_spec(c.command) {
        Some(BuiltinKind::Exit) => match parse_i32_spec(c.args[0]) {
            Some(code) => ActionModel::Exit(code as int),
            None => ActionModel::NoOutput,
        },
        Some(BuiltinKind::Echo) => ActionModel::Echo(concat_args(c.args)),
        Some(BuiltinKind::Type) => match os {
            OsModel::Resolved(p) => execute_type_spec(c, p),
            _ => ActionModel::NoOutput,
        },
        Some(BuiltinKind::Pwd) => match os {
            OsModel::Cwd(d) => ActionModel::Pwd(d),
            _ => ActionModel::NoOutput,
        },
        Some(BuiltinKind::Cd) => if c.args.len() == 0 {
            ActionModel::Error(c.command + ": missing argument"@)
        } else {
            match os {
                OsModel::ChdirOk(ok) => if ok {
                    ActionModel::NoOutput
                } else {
                    ActionModel::Error(
                        c.command + ": "@ + c.args[0] + ": No such file or directory"@,
                    )
                },
                _ => ActionModel::NoOutput,
            }
        },
        None => match os {
            OsModel::Spawned(p) => program_outcome_spec(c.command, p),
            _ => ActionModel::NoOutput,
        },
    }
}

/// Dispatches one parsed command, handed the operating-system fact its
/// kind expects, and returns the outcome `dispatch_spec` pins down.
/// The inputs on which the shell aborts (`exit` with a missing or
/// non-numeric argument) are owed by the caller; every `cd` is taken.
pub fn match_command(command: RCommand, os: OsInput) -> (r: CommandAction)
    requires
        os_input_expected(command@.command, os@),
        builtin_spec(command@.command) == Some(BuiltinKind::Exit) ==> command@.args.len() > 0
            && parse_i32_spec(command@.args[0]) is Some,
    ensures
        r@ == dispatch_spec(command@, os@),
{
    match builtin_of(&command.command) {
        Some(BuiltinKind::Exit) => execute_exit(command),
        Some(BuiltinKind::Echo) => execute_echo(command),
        Some(BuiltinKind::Type) => {
            let resolved = match os {
                OsInput::Resolved(p) => p,
                _ => {
                    proof {
                        assert(false);
                    }
                    None
                },
            };
            execute_type(&command, resolved)
        },
        Some(BuiltinKind::Pwd) => {
            match os {
                OsInput::Cwd(d) => execute_pwd(d),
                _ => {
                    proof {
                        assert(false);
                    }
                    CommandAction::NoOutput
                },
            }
        },
        Some(BuiltinKind::Cd) => {
            let ok = match os {
                OsInput::ChdirOk(b) => b,
                _ => {
                    proof {
                        assert(false);
                    }
                    false
                },
            };
            execute_cd(&command, ok)
        },
        None => {
            let po = match os {
                OsInput::Spawned(p) => p,
                _ => {
                    proof {
                        assert(false);
                    }
                    None
                },
            };
            execute_programm(command, po)
        },
    }
}

} // verus!
