use minishell::commands::Effect;
use minishell::environment::{DirEntry, Directory, Environment, Variable, WorkingDir};
use minishell::shell::{dispatch, is_dispatchable, prompt};

fn session() -> Environment {
    Environment {
        variables: vec![
            Variable { name: "PATH".to_string(), value: "/bin".to_string() },
            Variable { name: "HOME".to_string(), value: "/home/u".to_string() },
        ],
        working_dir: WorkingDir::At("/work".to_string()),
        directories: vec![Directory {
            path: "/bin".to_string(),
            entries: vec![DirEntry { name: "ls".to_string(), is_file: true }],
        }],
        windows: false,
    }
}

#[test]
fn the_prompt_shows_the_working_directory() {
    assert_eq!(prompt(&session()), "(/work) $ ");
}

#[test]
fn the_prompt_is_bare_without_a_working_directory() {
    let mut env = session();
    env.working_dir = WorkingDir::Unreadable("gone".to_string());
    assert_eq!(prompt(&env), "$ ");
}

#[test]
fn echo_collapses_interior_spaces() {
    assert_eq!(dispatch("echo a b  c\n", &session()), Effect::Print("a b c\n".to_string()));
    assert_eq!(dispatch("  echo\t a \n", &session()), Effect::Print("a\n".to_string()));
    assert_eq!(dispatch("echo\n", &session()), Effect::Print("\n".to_string()));
}

#[test]
fn an_empty_line_asks_for_nothing() {
    assert!(is_dispatchable(""));
    assert_eq!(dispatch("", &session()), Effect::Nothing);
}

#[test]
fn a_builtin_gets_the_words_after_its_name() {
    let env = session();
    assert_eq!(dispatch("exit 3\n", &env), Effect::Exit(0));
    assert_eq!(dispatch("exit\n", &env), Effect::Exit(0));
    assert_eq!(dispatch("pwd\n", &env), Effect::Print("/work\n".to_string()));
    assert_eq!(
        dispatch("type type\n", &env),
        Effect::Print("type is a shell builtin\n".to_string())
    );
    assert_eq!(dispatch("type ls x\n", &env), Effect::Print("ls is /bin/ls\n".to_string()));
    assert_eq!(dispatch("cd\n", &env), Effect::ChangeDir("/home/u".to_string()));
    assert_eq!(dispatch("cd /tmp\n", &env), Effect::ChangeDir("/tmp".to_string()));
}

#[test]
fn any_other_first_word_goes_to_the_runner_with_all_words() {
    let env = session();
    assert_eq!(
        dispatch("ls -l\n", &env),
        Effect::Run { program: "ls".to_string(), args: vec!["-l".to_string()], resolved: true }
    );
    assert_eq!(
        dispatch("Echo hi\n", &env),
        Effect::Run { program: "Echo".to_string(), args: vec!["hi".to_string()], resolved: false }
    );
}

#[test]
fn a_line_without_a_word_cannot_be_dispatched() {
    assert!(!is_dispatchable("\n"));
    assert!(!is_dispatchable("  \t \n"));
}

#[test]
fn type_without_a_name_cannot_be_dispatched() {
    assert!(!is_dispatchable("type\n"));
    assert!(!is_dispatchable(" type  "));
    assert!(is_dispatchable("type x\n"));
}

#[test]
fn every_other_line_can_be_dispatched() {
    for line in ["exit\n", "echo\n", "pwd\n", "cd\n", "ls\n", "typ\n", "x y z", "cd a b c\n"] {
        assert!(is_dispatchable(line), "line {:?}", line);
    }
}
