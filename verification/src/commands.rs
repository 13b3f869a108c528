//! The commands: the five built-ins, the runner of external programs, and
//! the registry that maps a name to a built-in.
//!
//! A command does not act. It answers with an [`Effect`], which the caller
//! carries out. Two effects need an answer from the operating system:
//! after [`Effect::ChangeDir`] the caller reports to [`move_to_dir`], after
//! [`Effect::Run`] to [`ProgramCommand::report`], and each of the two says
//! what is left to do.

use vstd::prelude::*;
use vstd::utf8::{decode_utf8, valid_utf8};
use crate::environment::{
    get_home_dir,
    Environment,
    EnvironmentView,
    WorkingDir,
    WorkingDirView,
};
use crate::resolver::{executable, find_executable};
use crate::text::{first_replaced, join, joined, replace_first, starts_with_char, str_eq, views};

verus! {

/// What the caller of a command has to do.
#[derive(Clone, Debug, PartialEq, Eq)]
pub enum Effect {
    /// Nothing.
    Nothing,
    /// Write the text to standard output, as it is.
    Print(String),
    /// Write the text to standard error, as it is.
    PrintError(String),
    /// End the process with the status.
    Exit(i32),
    /// Try to make the path the working directory, and report to
    /// [`move_to_dir`].
    ChangeDir(String),
    /// Start the program with the arguments, wait for it, capture its
    /// standard output, and report to [`ProgramCommand::report`].
    Run {
        /// The program's name, as it was typed.
        program: String,
        /// The arguments after the name.
        args: Vec<String>,
        /// Whether the program was found on the search path.
        resolved: bool,
    },
}

/// An effect as its contracts see it.
pub enum EffectView {
    Nothing,
    Print(Seq<char>),
    PrintError(Seq<char>),
    Exit(int),
    ChangeDir(Seq<char>),
    Run { program: Seq<char>, args: Seq<Seq<char>>, resolved: bool },
}

/// The views of a sequence of strings.
pub open spec fn texts(list: Seq<String>) -> Seq<Seq<char>> {
    list.map_values(|s: String| s@)
}

impl View for Effect {
    type V = EffectView;

    open spec fn view(&self) -> EffectView {
        match self {
            Effect::Nothing => EffectView::Nothing,
            Effect::Print(text) => EffectView::Print(text@),
            Effect::PrintError(text) => EffectView::PrintError(text@),
            Effect::Exit(status) => EffectView::Exit(*status as int),
            Effect::ChangeDir(path) => EffectView::ChangeDir(path@),
            Effect::Run { program, args, resolved } => EffectView::Run {
                program: program@,
                args: texts(args@),
                resolved: *resolved,
            },
        }
    }
}

/// Why a program gave no output to print.
#[derive(Clone, Copy, Debug, PartialEq, Eq)]
pub enum ExecutionError {
    /// The program could not be started.
    NotStarted,
    /// What the program wrote is not valid UTF-8.
    NotText,
}

/// A command of the interpreter.
pub trait ShellCommand {
    /// The argument lists that the command can be given.
    spec fn accepts(&self, args: Seq<Seq<char>>) -> bool;

    /// What the command asks for, given its arguments and the environment.
    spec fn effect(&self, args: Seq<Seq<char>>, env: EnvironmentView) -> EffectView;

    /// Decides what is to be done for the command.
    fn handle_command(&self, args: Vec<&str>, env: &Environment) -> (e: Effect)
        requires
            self.accepts(views(args@)),
        ensures
            e@ == self.effect(views(args@), env@),
    ;
}

/// The built-in `echo`.
#[derive(Clone, Copy, Debug, PartialEq, Eq)]
pub struct EchoCommand;

/// The built-in `type`.
#[derive(Clone, Copy, Debug, PartialEq, Eq)]
pub struct TypeCommand;

/// The runner of external programs, for every name that is no built-in.
#[derive(Clone, Copy, Debug, PartialEq, Eq)]
pub struct ProgramCommand;

/// The built-in `exit`.
#[derive(Clone, Copy, Debug, PartialEq, Eq)]
pub struct ExitCommand;

/// The built-in `pwd`.
#[derive(Clone, Copy, Debug, PartialEq, Eq)]
pub struct PwdCommand;

/// The built-in `cd`.
#[derive(Clone, Copy, Debug, PartialEq, Eq)]
pub struct CdCommand;

/// A built-in command, by its name.
#[derive(Clone, Copy, Debug, PartialEq, Eq)]
pub enum Builtin {
    Exit,
    Echo,
    Type,
    Pwd,
    Cd,
}

/// The built-in that the name `name` stands for. The five names are fixed,
/// and each stands for one built-in.
pub open spec fn builtin_named(name: Seq<char>) -> Option<Builtin> {
    if name == "exit"@ {
        Some(Builtin::Exit)
    } else if name == "echo"@ {
        Some(Builtin::Echo)
    } else if name == "type"@ {
        Some(Builtin::Type)
    } else if name == "pwd"@ {
        Some(Builtin::Pwd)
    } else if name == "cd"@ {
        Some(Builtin::Cd)
    } else {
        None
    }
}

/// What `type` says of the name `name`: that it is a built-in, or else
/// where the search path has it, or else that it was not found.
pub open spec fn type_report(name: Seq<char>, env: EnvironmentView) -> Seq<char> {
    if builtin_named(name) is Some {
        name + " is a shell builtin\n"@
    } else {
        match executable(env, name, env.search_path()) {
            Some(at) => name + " is "@ + at.dir + "/"@ + at.file + "\n"@,
            None => name + " not found\n"@,
        }
    }
}

/// What is asked for to go to `full_path` with its first `~` replaced by
/// the home directory: nothing where there is no home directory.
pub open spec fn home_effect(full_path: Seq<char>, env: EnvironmentView) -> EffectView {
    match env.home_dir() {
        Some(home) => EffectView::ChangeDir(first_replaced(full_path, '~', home)),
        None => EffectView::Nothing,
    }
}

/// What is printed when the directory `full_path` could not be entered.
pub open spec fn no_such_directory(full_path: Seq<char>) -> Seq<char> {
    full_path + ": No such file or directory\n"@
}

/// The text that a program wrote, or why there is none. `spawned` holds the
/// bytes captured from its standard output, and is `None` where the program
/// could not be started.
pub open spec fn run_outcome(spawned: Option<Seq<u8>>) -> Result<Seq<char>, ExecutionError> {
    match spawned {
        None => Err(ExecutionError::NotStarted),
        Some(bytes) => if valid_utf8(bytes) {
            Ok(decode_utf8(bytes))
        } else {
            Err(ExecutionError::NotText)
        },
    }
}

/// What is printed after an attempt to run `program`: its output or, where
/// there is none, a message that depends on whether the program had been
/// found on the search path.
pub open spec fn run_report(
    program: Seq<char>,
    resolved: bool,
    outcome: Result<Seq<char>, ExecutionError>,
) -> Seq<char> {
    match outcome {
        Ok(output) => output,
        Err(_) => if resolved {
            "Program could not be executed"@
        } else {
            program + ": command not found\n"@
        },
    }
}

/// The view of the outcome of a run.
pub open spec fn outcome_view(outcome: Result<String, ExecutionError>) -> Result<
    Seq<char>,
    ExecutionError,
> {
    match outcome {
        Ok(output) => Ok(output@),
        Err(e) => Err(e),
    }
}

/// The view of captured bytes that may be missing.
pub open spec fn bytes_of(spawned: Option<Vec<u8>>) -> Option<Seq<u8>> {
    match spawned {
        Some(bytes) => Some(bytes@),
        None => None,
    }
}

impl ShellCommand for ExitCommand {
    open spec fn accepts(&self, args: Seq<Seq<char>>) -> bool {
        true
    }

    /// `exit` ends the process with status 0, whatever its arguments.
    open spec fn effect(&self, args: Seq<Seq<char>>, env: EnvironmentView) -> EffectView {
        EffectView::Exit(0)
    }

    fn handle_command(&self, args: Vec<&str>, env: &Environment) -> (e: Effect) {
        Effect::Exit(0)
    }
}

impl ShellCommand for EchoCommand {
    open spec fn accepts(&self, args: Seq<Seq<char>>) -> bool {
        true
    }

    /// `echo` prints its arguments, separated by single spaces, and a
    /// newline.
    open spec fn effect(&self, args: Seq<Seq<char>>, env: EnvironmentView) -> EffectView {
        EffectView::Print(joined(args, " "@) + "\n"@)
    }

    fn handle_command(&self, args: Vec<&str>, env: &Environment) -> (e: Effect) {
        let mut line = join(&args, " ");
        line.append("\n");
        Effect::Print(line)
    }
}

impl ShellCommand for TypeCommand {
    /// `type` needs the name to report on.
    open spec fn accepts(&self, args: Seq<Seq<char>>) -> bool {
        args.len() >= 1
    }

    /// `type` reports on its first argument and ignores the others.
    open spec fn effect(&self, args: Seq<Seq<char>>, env: EnvironmentView) -> EffectView {
        EffectView::Print(type_report(args[0], env))
    }

    fn handle_command(&self, args: Vec<&str>, env: &Environment) -> (e: Effect) {
        let name = args[0];
        let mut line = String::from_str(name);
        match get_available_command(name) {
            Some(_) => {
                line.append(" is a shell builtin\n");
            },
            None => {
                let dirs = env.search_path();
                match find_executable(name, &dirs, env) {
                    Some(at) => {
                        line.append(" is ");
                        line.append(at.dir.as_str());
                        line.append("/");
                        line.append(at.file.as_str());
                        line.append("\n");
                    },
                    None => {
                        line.append(" not found\n");
                    },
                }
            },
        }
        Effect::Print(line)
    }
}

impl ShellCommand for PwdCommand {
    open spec fn accepts(&self, args: Seq<Seq<char>>) -> bool {
        true
    }

    /// `pwd` prints the working directory and a newline, or says on
    /// standard error why it could not be read. It ignores its arguments.
    open spec fn effect(&self, args: Seq<Seq<char>>, env: EnvironmentView) -> EffectView {
        match env.working_dir {
            WorkingDirView::At(path) => EffectView::Print(path + "\n"@),
            WorkingDirView::Unreadable(why) => EffectView::PrintError(
                "Error retrieving current directory: "@ + why + "\n"@,
            ),
        }
    }

    fn handle_command(&self, args: Vec<&str>, env: &Environment) -> (e: Effect) {
        match &env.working_dir {
            WorkingDir::At(path) => {
                let mut line = String::from_str(path.as_str());
                line.append("\n");
                Effect::Print(line)
            },
            WorkingDir::Unreadable(why) => {
                let mut line = String::from_str("Error retrieving current directory: ");
                line.append(why.as_str());
                line.append("\n");
                Effect::PrintError(line)
            },
        }
    }
}

impl ShellCommand for CdCommand {
    open spec fn accepts(&self, args: Seq<Seq<char>>) -> bool {
        true
    }

    /// `cd` asks for a change to its first argument, and to `~` where it
    /// has none. In an argument that starts with `~` the first `~` stands
    /// for the home directory.
    open spec fn effect(&self, args: Seq<Seq<char>>, env: EnvironmentView) -> EffectView {
        if args.len() == 0 {
            home_effect("~"@, env)
        } else if args[0].len() > 0 && args[0][0] == '~' {
            home_effect(args[0], env)
        } else {
            EffectView::ChangeDir(args[0])
        }
    }

    fn handle_command(&self, args: Vec<&str>, env: &Environment) -> (e: Effect) {
        if args.len() == 0 {
            return go_to_home_dir(String::from_str("~"), env);
        }
        let path = String::from_str(args[0]);
        if starts_with_char(path.as_str(), '~') {
            go_to_home_dir(path, env)
        } else {
            Effect::ChangeDir(path)
        }
    }
}

impl ShellCommand for ProgramCommand {
    open spec fn accepts(&self, args: Seq<Seq<char>>) -> bool {
        true
    }

    /// The runner takes the program's name as its first argument. It asks
    /// for a run whether or not the search path has the program, and for
    /// nothing where it is given no name.
    open spec fn effect(&self, args: Seq<Seq<char>>, env: EnvironmentView) -> EffectView {
        if args.len() == 0 {
            EffectView::Nothing
        } else {
            EffectView::Run {
                program: args[0],
                args: args.skip(1),
                resolved: executable(env, args[0], env.search_path()) is Some,
            }
        }
    }

    fn handle_command(&self, args: Vec<&str>, env: &Environment) -> (e: Effect) {
        if args.len() == 0 {
            return Effect::Nothing;
        }
        let program_name = args[0];
        let dirs = env.search_path();
        let resolved = find_executable(program_name, &dirs, env).is_some();
        let mut program_args: Vec<String> = Vec::new();
        let mut i: usize = 1;
        while i < args.len()
            invariant
                1 <= i <= args.len(),
                program_args.len() == i - 1,
                texts(program_args@) == views(args@).subrange(1, i as int),
            decreases args.len() - i,
        {
            program_args.push(String::from_str(args[i]));
            assert(texts(program_args@) =~= views(args@).subrange(1, i as int).push(
                args@[i as int]@,
            ));
            i += 1;
        }
        Effect::Run { program: String::from_str(program_name), args: program_args, resolved }
    }
}

impl ProgramCommand {
    /// Says what to print after the run that [`Effect::Run`] asked for.
    /// `spawned` holds the bytes captured from the program's standard
    /// output, and is `None` where the program could not be started.
    pub fn report(
        &self,
        program_name: &str,
        resolved: bool,
        spawned: Option<Vec<u8>>,
    ) -> (e: Effect)
        ensures
            e@ == EffectView::Print(
                run_report(program_name@, resolved, run_outcome(bytes_of(spawned))),
            ),
    {
        match try_run_program(spawned) {
            Ok(output) => Effect::Print(output),
            Err(_) => {
                if resolved {
                    Effect::Print(String::from_str("Program could not be executed"))
                } else {
                    let mut line = String::from_str(program_name);
                    line.append(": command not found\n");
                    Effect::Print(line)
                }
            },
        }
    }
}

impl ShellCommand for Builtin {
    open spec fn accepts(&self, args: Seq<Seq<char>>) -> bool {
        match self {
            Builtin::Exit => ExitCommand.accepts(args),
            Builtin::Echo => EchoCommand.accepts(args),
            Builtin::Type => TypeCommand.accepts(args),
            Builtin::Pwd => PwdCommand.accepts(args),
            Builtin::Cd => CdCommand.accepts(args),
        }
    }

    open spec fn effect(&self, args: Seq<Seq<char>>, env: EnvironmentView) -> EffectView {
        match self {
            Builtin::Exit => ExitCommand.effect(args, env),
            Builtin::Echo => EchoCommand.effect(args, env),
            Builtin::Type => TypeCommand.effect(args, env),
            Builtin::Pwd => PwdCommand.effect(args, env),
            Builtin::Cd => CdCommand.effect(args, env),
        }
    }

    fn handle_command(&self, args: Vec<&str>, env: &Environment) -> (e: Effect) {
        match self {
            Builtin::Exit => ExitCommand.handle_command(args, env),
            Builtin::Echo => EchoCommand.handle_command(args, env),
            Builtin::Type => TypeCommand.handle_command(args, env),
            Builtin::Pwd => PwdCommand.handle_command(args, env),
            Builtin::Cd => CdCommand.handle_command(args, env),
        }
    }
}

/// Looks up the built-in that a command name stands for.
pub fn get_available_command(cmd_token: &str) -> (found: Option<Builtin>)
    ensures
        found == builtin_named(cmd_token@),
{
    if str_eq(cmd_token, "exit") {
        Some(Builtin::Exit)
    } else if str_eq(cmd_token, "echo") {
        Some(Builtin::Echo)
    } else if str_eq(cmd_token, "type") {
        Some(Builtin::Type)
    } else if str_eq(cmd_token, "pwd") {
        Some(Builtin::Pwd)
    } else if str_eq(cmd_token, "cd") {
        Some(Builtin::Cd)
    } else {
        None
    }
}

/// Asks for a change to `full_path` with its first `~` replaced by the home
/// directory. Where the home directory is not known it asks for nothing.
pub fn go_to_home_dir(full_path: String, env: &Environment) -> (e: Effect)
    ensures
        e@ == home_effect(full_path@, env@),
{
    match get_home_dir(env) {
        Some(home_dir) => Effect::ChangeDir(
            replace_first(full_path.as_str(), '~', home_dir.as_str()),
        ),
        None => Effect::Nothing,
    }
}

/// Takes note of how the change of directory that [`Effect::ChangeDir`]
/// asked for went. `entered` is the working directory as read after the
/// change, and `None` where the operating system refused the change: the
/// environment then stays as it is, and the refusal is to be printed.
pub fn move_to_dir(
    env: &mut Environment,
    full_path: &str,
    entered: Option<WorkingDir>,
) -> (e: Effect)
    ensures
        entered is None ==> {
            &&& *final(env) == *old(env)
            &&& e@ == EffectView::Print(no_such_directory(full_path@))
        },
        entered matches Some(dir) ==> {
            &&& *final(env) == (Environment { working_dir: dir, ..*old(env) })
            &&& e@ == EffectView::Nothing
        },
{
    match entered {
        Some(dir) => {
            env.working_dir = dir;
            Effect::Nothing
        },
        None => {
            let mut line = String::from_str(full_path);
            line.append(": No such file or directory\n");
            Effect::Print(line)
        },
    }
}

/// `String::from_utf8` of std: the bytes become a string exactly where they
/// are valid UTF-8, and the string then holds the characters that the bytes
/// encode.
#[verifier::external_body]
fn string_from_utf8(bytes: Vec<u8>) -> (text: Option<String>)
    ensures
        text is Some <==> valid_utf8(bytes@),
        text matches Some(s) ==> s@ == decode_utf8(bytes@),
{
    String::from_utf8(bytes).ok()
}

/// Turns what came of starting a program into its output as text.
/// `spawned` holds the bytes captured from the program's standard output,
/// and is `None` where the program could not be started.
pub fn try_run_program(spawned: Option<Vec<u8>>) -> (outcome: Result<String, ExecutionError>)
    ensures
        outcome_view(outcome) == run_outcome(bytes_of(spawned)),
{
    match spawned {
        None => Err(ExecutionError::NotStarted),
        Some(bytes) => match string_from_utf8(bytes) {
            Some(output) => Ok(output),
            None => Err(ExecutionError::NotText),
        },
    }
}

} // verus!
