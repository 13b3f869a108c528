//! What holds of the commands for all arguments and environments.

use vstd::prelude::*;
use crate::commands::{
    builtin_named,
    CdCommand,
    EffectView,
    ExitCommand,
    PwdCommand,
    ShellCommand,
    TypeCommand,
};
use crate::environment::{DirEntryView, EnvironmentView, WorkingDirView};
use crate::resolver::{executable, file_at, file_in, holds, is_candidate, LocationView};
use crate::search::{first_where, lemma_first_where, lemma_first_where_found};
use crate::shell::dispatched;
use crate::text::{
    is_char,
    is_whitespace,
    joined,
    lemma_word_len_bounds,
    lemma_word_len_is,
    same_ignoring_ascii_case,
    split_on,
    tokens,
    word_len,
};

verus! {

/// The names of the built-ins are exit, echo, type, pwd and cd, and no
/// others.
pub proof fn law_builtin_names(name: Seq<char>)
    ensures
        builtin_named(name) is Some <==> (name == "exit"@ || name == "echo"@ || name == "type"@
            || name == "pwd"@ || name == "cd"@),
{
}

/// No two names stand for one built-in.
pub proof fn law_registry_one_to_one(name: Seq<char>, other: Seq<char>)
    requires
        builtin_named(name) is Some,
        builtin_named(name) == builtin_named(other),
    ensures
        name == other,
{
}

/// `type` calls a name a shell builtin exactly where the name is one of
/// exit, echo, type, pwd and cd. Of any other name it reports what the
/// search of the path gives.
pub proof fn law_type_names_builtins(args: Seq<Seq<char>>, env: EnvironmentView)
    requires
        args.len() >= 1,
    ensures
        TypeCommand.effect(args, env) == EffectView::Print(args[0] + " is a shell builtin\n"@)
            <==> builtin_named(args[0]) is Some,
        builtin_named(args[0]) is None ==> TypeCommand.effect(args, env) == EffectView::Print(
            match executable(env, args[0], env.search_path()) {
                Some(at) => args[0] + " is "@ + at.dir + "/"@ + at.file + "\n"@,
                None => args[0] + " not found\n"@,
            },
        ),
{
    let name = args[0];
    let builtin = " is a shell builtin\n"@;
    reveal_strlit(" is a shell builtin\n");
    reveal_strlit(" not found\n");
    reveal_strlit(" is ");
    reveal_strlit("/");
    reveal_strlit("\n");
    if builtin_named(name) is None {
        match executable(env, name, env.search_path()) {
            Some(at) => {
                let line = name + " is "@ + at.dir + "/"@ + at.file + "\n"@;
                if line == name + builtin {
                    let slash = (name.len() + 4 + at.dir.len()) as int;
                    assert(line.len() == (name + builtin).len());
                    assert(line[slash] == '/');
                    assert((name + builtin)[slash] == builtin[slash - name.len()]);
                }
            },
            None => {
                assert((name + " not found\n"@).len() != (name + builtin).len());
            },
        }
    }
}

/// Of the directories on the search path that hold a name, the first is
/// the one that counts, whatever the later ones hold.
pub proof fn law_first_directory_wins(
    env: EnvironmentView,
    name: Seq<char>,
    search_path: Seq<Seq<char>>,
    i: int,
)
    requires
        0 <= i < search_path.len(),
        file_at(env, name, search_path[i]) is Some,
        forall|k: int| 0 <= k < i ==> file_at(env, name, #[trigger] search_path[k]) is None,
    ensures
        executable(env, name, search_path) == Some(
            LocationView {
                dir: search_path[i],
                file: file_at(env, name, search_path[i]).unwrap(),
            },
        ),
{
    lemma_first_where_found(search_path, holds(env, name), i);
}

/// A program is found exactly where some directory on the search path
/// holds it, and then in a directory that holds it and that no directory
/// holding it precedes.
pub proof fn law_executable_found(
    env: EnvironmentView,
    name: Seq<char>,
    search_path: Seq<Seq<char>>,
)
    ensures
        executable(env, name, search_path) is Some <==> exists|i: int|
            0 <= i < search_path.len() && file_at(env, name, #[trigger] search_path[i]) is Some,
        executable(env, name, search_path) matches Some(at) ==> exists|i: int|
            0 <= i < search_path.len() && at.dir == #[trigger] search_path[i] && file_at(
                env,
                name,
                at.dir,
            ) == Some(at.file) && forall|k: int|
                0 <= k < i ==> file_at(env, name, #[trigger] search_path[k]) is None,
{
    lemma_first_where(search_path, holds(env, name));
    match first_where(search_path, holds(env, name)) {
        Some(i) => {
            assert forall|k: int| 0 <= k < i implies file_at(
                env,
                name,
                #[trigger] search_path[k],
            ) is None by {
                assert(!holds(env, name)(search_path[k]));
            }
        },
        None => {
            assert forall|i: int| 0 <= i < search_path.len() implies !(file_at(
                env,
                name,
                #[trigger] search_path[i],
            ) is Some) by {
                assert(!holds(env, name)(search_path[i]));
            }
        },
    }
}

/// The file that a directory gives for a name is one of its regular files,
/// named as asked when the case of ASCII letters is ignored, and the first
/// such file of the listing.
pub proof fn law_file_found(entries: Seq<DirEntryView>, name: Seq<char>)
    ensures
        file_in(entries, name) matches Some(file) ==> same_ignoring_ascii_case(file, name)
            && exists|i: int|
            0 <= i < entries.len() && (#[trigger] entries[i]).is_file && entries[i].name == file
                && forall|k: int|
                0 <= k < i ==> !((#[trigger] entries[k]).is_file && same_ignoring_ascii_case(
                    entries[k].name,
                    name,
                )),
        file_in(entries, name) is None ==> forall|k: int|
            0 <= k < entries.len() ==> !((#[trigger] entries[k]).is_file
                && same_ignoring_ascii_case(entries[k].name, name)),
{
    lemma_first_where(entries, is_candidate(name));
    match first_where(entries, is_candidate(name)) {
        Some(i) => {
            assert forall|k: int| 0 <= k < i implies !((#[trigger] entries[k]).is_file
                && same_ignoring_ascii_case(entries[k].name, name)) by {
                assert(!is_candidate(name)(entries[k]));
            }
        },
        None => {
            assert forall|k: int| 0 <= k < entries.len() implies !((#[trigger] entries[k]).is_file
                && same_ignoring_ascii_case(entries[k].name, name)) by {
                assert(!is_candidate(name)(entries[k]));
            }
        },
    }
}

/// The search does not depend on the case of the ASCII letters of the name
/// that is looked for.
pub proof fn law_search_ignores_case(
    env: EnvironmentView,
    name: Seq<char>,
    other: Seq<char>,
    search_path: Seq<Seq<char>>,
)
    requires
        same_ignoring_ascii_case(name, other),
    ensures
        executable(env, name, search_path) == executable(env, other, search_path),
{
    assert forall|e: DirEntryView| #[trigger] is_candidate(name)(e) == is_candidate(other)(e) by {
        assert(same_ignoring_ascii_case(e.name, name) == same_ignoring_ascii_case(e.name, other));
    }
    assert(is_candidate(name) =~= is_candidate(other));
    assert(holds(env, name) =~= holds(env, other));
}

/// The first word of a text ends the text or is followed by white space,
/// and holds no white space itself.
proof fn lemma_word_len_shape(s: Seq<char>)
    ensures
        word_len(s) <= s.len(),
        forall|j: int| 0 <= j < word_len(s) ==> !is_whitespace(#[trigger] s[j]),
        word_len(s) == s.len() || is_whitespace(s[word_len(s) as int]),
    decreases s.len(),
{
    if s.len() > 0 && !is_whitespace(s[0]) {
        let t = s.drop_first();
        lemma_word_len_shape(t);
        assert forall|j: int| 0 <= j < word_len(s) implies !is_whitespace(#[trigger] s[j]) by {
            if j > 0 {
                assert(s[j] == t[j - 1]);
            }
        }
    }
}

/// Every word of a text has at least one character, and none that is white
/// space.
pub proof fn law_tokens_are_words(s: Seq<char>, i: int)
    requires
        0 <= i < tokens(s).len(),
    ensures
        tokens(s)[i].len() >= 1,
        forall|j: int| 0 <= j < tokens(s)[i].len() ==> !is_whitespace(#[trigger] tokens(s)[i][j]),
    decreases s.len(),
{
    if is_whitespace(s[0]) {
        law_tokens_are_words(s.drop_first(), i);
    } else {
        lemma_word_len_shape(s);
        lemma_word_len_bounds(s);
        if i > 0 {
            law_tokens_are_words(s.skip(word_len(s) as int), i - 1);
        }
    }
}

/// White space between words counts once: a second white-space character
/// after a first changes no word.
pub proof fn law_whitespace_collapses(a: Seq<char>, b: Seq<char>, c: char, d: char)
    requires
        is_whitespace(c),
        is_whitespace(d),
    ensures
        tokens(a + seq![c] + b) == tokens(a + seq![c, d] + b),
    decreases a.len(),
{
    let once = a + seq![c] + b;
    let twice = a + seq![c, d] + b;
    if a.len() == 0 {
        assert(once.drop_first() =~= b);
        assert(twice.drop_first() =~= seq![d] + b);
        assert((seq![d] + b).drop_first() =~= b);
        assert(tokens(seq![d] + b) == tokens(b));
    } else if is_whitespace(a[0]) {
        assert(once.drop_first() =~= a.drop_first() + seq![c] + b);
        assert(twice.drop_first() =~= a.drop_first() + seq![c, d] + b);
        law_whitespace_collapses(a.drop_first(), b, c, d);
    } else {
        lemma_word_len_shape(once);
        lemma_word_len_bounds(once);
        let n = word_len(once) as int;
        assert(n <= a.len()) by {
            assert(once[a.len() as int] == c);
        }
        assert forall|j: int| 0 <= j < n implies !is_whitespace(#[trigger] twice[j]) by {
            assert(twice[j] == once[j]);
        }
        assert(is_whitespace(twice[n])) by {
            if n < a.len() {
                assert(twice[n] == once[n]);
            } else {
                assert(twice[n] == c);
            }
        }
        lemma_word_len_is(twice, n);
        assert(once.take(n) =~= twice.take(n));
        assert(once.skip(n) =~= a.skip(n) + seq![c] + b);
        assert(twice.skip(n) =~= a.skip(n) + seq![c, d] + b);
        law_whitespace_collapses(a.skip(n), b, c, d);
    }
}

/// What a line asks for depends on its words alone, not on the white space
/// between and around them.
pub proof fn law_dispatch_reads_words(line: Seq<char>, other: Seq<char>, env: EnvironmentView)
    requires
        tokens(line) == tokens(other),
        line.len() > 0,
        other.len() > 0,
    ensures
        dispatched(line, env) == dispatched(other, env),
{
}

/// A text is cut into at least one piece, no piece holds the separator, and
/// the pieces joined by the separator give the text back.
pub proof fn law_split_joins_back(s: Seq<char>, sep: char)
    ensures
        split_on(s, sep).len() >= 1,
        forall|k: int|
            0 <= k < split_on(s, sep).len() ==> !(#[trigger] split_on(s, sep)[k]).contains(sep),
        joined(split_on(s, sep), seq![sep]) == s,
    decreases s.len(),
{
    lemma_first_where(s, is_char(sep));
    match first_where(s, is_char(sep)) {
        Some(i) => {
            let rest = split_on(s.skip(i + 1), sep);
            let pieces = seq![s.take(i)] + rest;
            law_split_joins_back(s.skip(i + 1), sep);
            assert(pieces.drop_first() =~= rest);
            assert forall|k: int| 0 <= k < pieces.len() implies !(#[trigger] pieces[k]).contains(
                sep,
            ) by {
                if k == 0 {
                    assert forall|j: int| 0 <= j < i implies s.take(i)[j] != sep by {
                        assert(!is_char(sep)(s[j]));
                    }
                } else {
                    assert(pieces[k] == rest[k - 1]);
                }
            }
        },
        None => {
            assert forall|j: int| 0 <= j < s.len() implies s[j] != sep by {
                assert(!is_char(sep)(s[j]));
            }
        },
    }
}

/// `cd` without an argument asks for a change to the home directory, where
/// there is one. Once the working directory is that directory, `pwd`
/// prints it.
pub proof fn law_cd_goes_home(env: EnvironmentView, home: Seq<char>, args: Seq<Seq<char>>)
    requires
        env.home_dir() == Some(home),
    ensures
        CdCommand.effect(Seq::empty(), env) == EffectView::ChangeDir(home),
        PwdCommand.effect(args, EnvironmentView { working_dir: WorkingDirView::At(home), ..env })
            == EffectView::Print(home + "\n"@),
{
    reveal_strlit("~");
    lemma_first_where_found("~"@, is_char('~'), 0);
    assert("~"@.take(0) + home + "~"@.skip(1) =~= home);
}

/// `type cd` says that `cd` is a shell builtin, whatever the search path
/// and the directories hold.
pub proof fn law_type_cd(args: Seq<Seq<char>>, env: EnvironmentView)
    requires
        args.len() >= 1,
        args[0] == "cd"@,
    ensures
        TypeCommand.effect(args, env) == EffectView::Print("cd is a shell builtin\n"@),
{
    reveal_strlit("cd");
    reveal_strlit(" is a shell builtin\n");
    reveal_strlit("cd is a shell builtin\n");
    assert("cd"@ + " is a shell builtin\n"@ =~= "cd is a shell builtin\n"@);
}

/// `exit` ends the process with status 0, whatever its arguments and the
/// environment.
pub proof fn law_exit_status(args: Seq<Seq<char>>, env: EnvironmentView)
    ensures
        ExitCommand.effect(args, env) == EffectView::Exit(0),
{
}

/// A line whose first word is `exit` ends the process with status 0,
/// whatever follows the word.
pub proof fn law_exit_line(line: Seq<char>, env: EnvironmentView)
    requires
        tokens(line).len() >= 1,
        tokens(line)[0] == "exit"@,
    ensures
        dispatched(line, env) == EffectView::Exit(0),
{
    assert(line.len() > 0);
}

/// `pwd` depends on the working directory alone: two calls in one
/// environment ask for the same, whatever their arguments.
pub proof fn law_pwd_repeats(args: Seq<Seq<char>>, again: Seq<Seq<char>>, env: EnvironmentView)
    ensures
        PwdCommand.effect(args, env) == PwdCommand.effect(again, env),
{
}

} // verus!
