//! One turn of the interpreter: the prompt, and the dispatch of a line to a
//! built-in or to the runner of external programs.

use vstd::prelude::*;
use crate::commands::{
    builtin_named,
    get_available_command,
    Builtin,
    Effect,
    EffectView,
    ProgramCommand,
    ShellCommand,
};
use crate::environment::{Environment, EnvironmentView, WorkingDir, WorkingDirView};
use crate::text::{tokenize, tokens, views};

verus! {

/// The prompt: the working directory in parentheses before the dollar
/// sign, and the dollar sign alone where the directory could not be read.
pub open spec fn prompt_text(env: EnvironmentView) -> Seq<char> {
    match env.working_dir {
        WorkingDirView::At(path) => "("@ + path + ") $ "@,
        WorkingDirView::Unreadable(_) => "$ "@,
    }
}

/// The lines that can be dispatched: the empty line, and a line with at
/// least one word whose arguments the command that the first word selects
/// can be given.
pub open spec fn can_dispatch(line: Seq<char>) -> bool {
    line.len() == 0 || (tokens(line).len() >= 1 && match builtin_named(tokens(line)[0]) {
        Some(builtin) => builtin.accepts(tokens(line).skip(1)),
        None => true,
    })
}

/// What a line asks for. The empty line asks for nothing. Otherwise the
/// first word selects the command: a built-in is given the other words, the
/// runner of external programs is given all of them.
pub open spec fn dispatched(line: Seq<char>, env: EnvironmentView) -> EffectView {
    if line.len() == 0 {
        EffectView::Nothing
    } else {
        let words = tokens(line);
        match builtin_named(words[0]) {
            Some(builtin) => builtin.effect(words.skip(1), env),
            None => ProgramCommand.effect(words, env),
        }
    }
}

/// The text of the prompt.
pub fn prompt(env: &Environment) -> (text: String)
    ensures
        text@ == prompt_text(env@),
{
    match &env.working_dir {
        WorkingDir::At(path) => {
            let mut text = String::from_str("(");
            text.append(path.as_str());
            text.append(") $ ");
            text
        },
        WorkingDir::Unreadable(_) => String::from_str("$ "),
    }
}

/// The words after the first.
fn arguments<'a>(words: &Vec<&'a str>) -> (args: Vec<&'a str>)
    requires
        words.len() >= 1,
    ensures
        views(args@) == views(words@).skip(1),
{
    let mut args: Vec<&'a str> = Vec::new();
    let mut i: usize = 1;
    while i < words.len()
        invariant
            1 <= i <= words.len(),
            args.len() == i - 1,
            forall|k: int| 0 <= k < args.len() ==> args@[k] == words@[k + 1],
        decreases words.len() - i,
    {
        args.push(words[i]);
        i += 1;
    }
    args
}

/// Whether a line can be dispatched.
pub fn is_dispatchable(line: &str) -> (r: bool)
    ensures
        r == can_dispatch(line@),
{
    if line.is_empty() {
        return true;
    }
    let words = tokenize(line);
    if words.len() == 0 {
        return false;
    }
    match get_available_command(words[0]) {
        Some(Builtin::Type) => words.len() >= 2,
        _ => true,
    }
}

/// Decides what is to be done for a line of input.
pub fn dispatch(line: &str, env: &Environment) -> (e: Effect)
    requires
        can_dispatch(line@),
    ensures
        e@ == dispatched(line@, env@),
{
    if line.is_empty() {
        return Effect::Nothing;
    }
    let words = tokenize(line);
    match get_available_command(words[0]) {
        Some(builtin) => builtin.handle_command(arguments(&words), env),
        None => ProgramCommand.handle_command(words, env),
    }
}

} // verus!
