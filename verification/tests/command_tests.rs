use minishell::commands::{
    get_available_command, go_to_home_dir, move_to_dir, try_run_program, Builtin, CdCommand,
    EchoCommand, Effect, ExecutionError, ExitCommand, ProgramCommand, PwdCommand, ShellCommand,
    TypeCommand,
};
use minishell::environment::{DirEntry, Directory, Environment, Variable, WorkingDir};

fn setting(variables: Vec<(&str, &str)>, directories: Vec<(&str, Vec<&str>)>) -> Environment {
    Environment {
        variables: variables
            .into_iter()
            .map(|(name, value)| Variable { name: name.to_string(), value: value.to_string() })
            .collect(),
        working_dir: WorkingDir::At("/work".to_string()),
        directories: directories
            .into_iter()
            .map(|(path, files)| Directory {
                path: path.to_string(),
                entries: files
                    .into_iter()
                    .map(|name| DirEntry { name: name.to_string(), is_file: true })
                    .collect(),
            })
            .collect(),
        windows: false,
    }
}

fn usual() -> Environment {
    setting(
        vec![("HOME", "/home/u"), ("PATH", "/usr/bin:/bin")],
        vec![("/bin", vec!["ls", "cat", "cd"]), ("/usr/bin", vec!["env", "LS"])],
    )
}

fn print(text: &str) -> Effect {
    Effect::Print(text.to_string())
}

#[test]
fn the_registry_knows_the_five_builtins() {
    assert_eq!(get_available_command("exit"), Some(Builtin::Exit));
    assert_eq!(get_available_command("echo"), Some(Builtin::Echo));
    assert_eq!(get_available_command("type"), Some(Builtin::Type));
    assert_eq!(get_available_command("pwd"), Some(Builtin::Pwd));
    assert_eq!(get_available_command("cd"), Some(Builtin::Cd));
}

#[test]
fn the_registry_knows_no_other_name() {
    for name in ["", "ls", "Exit", "EXIT", "exit ", " cd", "c", "cdd", "typ", "echoo", "pwd\n"] {
        assert_eq!(get_available_command(name), None, "name {:?}", name);
    }
}

#[test]
fn a_builtin_does_what_its_command_does() {
    let env = usual();
    assert_eq!(Builtin::Exit.handle_command(vec!["1"], &env), Effect::Exit(0));
    assert_eq!(Builtin::Echo.handle_command(vec!["hi"], &env), print("hi\n"));
    assert_eq!(Builtin::Type.handle_command(vec!["pwd"], &env), print("pwd is a shell builtin\n"));
    assert_eq!(Builtin::Pwd.handle_command(vec![], &env), print("/work\n"));
    assert_eq!(
        Builtin::Cd.handle_command(vec!["/tmp"], &env),
        Effect::ChangeDir("/tmp".to_string())
    );
}

#[test]
fn exit_ends_with_status_zero_whatever_its_arguments() {
    let env = usual();
    assert_eq!(ExitCommand.handle_command(vec![], &env), Effect::Exit(0));
    assert_eq!(ExitCommand.handle_command(vec!["1"], &env), Effect::Exit(0));
    assert_eq!(ExitCommand.handle_command(vec!["-1", "now", "please"], &env), Effect::Exit(0));
}

#[test]
fn echo_joins_its_arguments_with_single_spaces() {
    let env = usual();
    assert_eq!(EchoCommand.handle_command(vec!["a", "b", "c"], &env), print("a b c\n"));
    assert_eq!(EchoCommand.handle_command(vec!["one"], &env), print("one\n"));
    assert_eq!(EchoCommand.handle_command(vec![], &env), print("\n"));
}

#[test]
fn type_names_the_builtins() {
    let env = usual();
    for name in ["exit", "echo", "type", "pwd", "cd"] {
        assert_eq!(
            TypeCommand.handle_command(vec![name], &env),
            print(&format!("{} is a shell builtin\n", name))
        );
    }
}

#[test]
fn type_cd_is_a_builtin_whatever_the_path_holds() {
    assert_eq!(TypeCommand.handle_command(vec!["cd"], &usual()), print("cd is a shell builtin\n"));
    let bare = setting(vec![], vec![]);
    assert_eq!(TypeCommand.handle_command(vec!["cd"], &bare), print("cd is a shell builtin\n"));
    let crowded = setting(vec![("PATH", "/x")], vec![("/x", vec!["cd", "CD"])]);
    assert_eq!(TypeCommand.handle_command(vec!["cd"], &crowded), print("cd is a shell builtin\n"));
}

#[test]
fn type_reports_where_the_path_has_a_program() {
    let env = usual();
    assert_eq!(TypeCommand.handle_command(vec!["cat"], &env), print("cat is /bin/cat\n"));
    assert_eq!(TypeCommand.handle_command(vec!["ls"], &env), print("ls is /usr/bin/LS\n"));
    assert_eq!(TypeCommand.handle_command(vec!["ENV"], &env), print("ENV is /usr/bin/env\n"));
    assert_eq!(TypeCommand.handle_command(vec!["CD"], &env), print("CD is /bin/cd\n"));
}

#[test]
fn type_says_when_a_name_is_not_found() {
    let env = usual();
    assert_eq!(TypeCommand.handle_command(vec!["nope"], &env), print("nope not found\n"));
    let no_path = setting(vec![("HOME", "/home/u")], vec![("/bin", vec!["ls"])]);
    assert_eq!(TypeCommand.handle_command(vec!["ls"], &no_path), print("ls not found\n"));
}

#[test]
fn type_reads_its_first_argument_only() {
    let env = usual();
    assert_eq!(
        TypeCommand.handle_command(vec!["nope", "cd", "ls"], &env),
        print("nope not found\n")
    );
    assert_eq!(
        TypeCommand.handle_command(vec!["echo", "nope"], &env),
        print("echo is a shell builtin\n")
    );
}

#[test]
fn pwd_prints_the_working_directory() {
    let env = usual();
    assert_eq!(PwdCommand.handle_command(vec![], &env), print("/work\n"));
    assert_eq!(PwdCommand.handle_command(vec!["-L", "x"], &env), print("/work\n"));
}

#[test]
fn pwd_twice_prints_the_same() {
    let env = usual();
    let first = PwdCommand.handle_command(vec![], &env);
    let second = PwdCommand.handle_command(vec![], &env);
    assert_eq!(first, second);
    assert_eq!(first, print("/work\n"));
}

#[test]
fn pwd_reports_an_unreadable_directory_on_standard_error() {
    let mut env = usual();
    env.working_dir = WorkingDir::Unreadable("No such file or directory (os error 2)".to_string());
    assert_eq!(
        PwdCommand.handle_command(vec![], &env),
        Effect::PrintError(
            "Error retrieving current directory: No such file or directory (os error 2)\n"
                .to_string()
        )
    );
}

#[test]
fn cd_without_an_argument_goes_home_and_pwd_follows() {
    let mut env = usual();
    let asked = CdCommand.handle_command(vec![], &env);
    assert_eq!(asked, Effect::ChangeDir("/home/u".to_string()));
    let left = move_to_dir(&mut env, "/home/u", Some(WorkingDir::At("/home/u".to_string())));
    assert_eq!(left, Effect::Nothing);
    assert_eq!(env.working_dir, WorkingDir::At("/home/u".to_string()));
    assert_eq!(PwdCommand.handle_command(vec![], &env), print("/home/u\n"));
}

#[test]
fn cd_to_a_missing_directory_changes_nothing_and_says_so() {
    let mut env = usual();
    let before = env.clone();
    let asked = CdCommand.handle_command(vec!["/nonexistent-path-xyz"], &env);
    assert_eq!(asked, Effect::ChangeDir("/nonexistent-path-xyz".to_string()));
    let left = move_to_dir(&mut env, "/nonexistent-path-xyz", None);
    assert_eq!(left, print("/nonexistent-path-xyz: No such file or directory\n"));
    assert_eq!(env, before);
    assert_eq!(PwdCommand.handle_command(vec![], &env), print("/work\n"));
}

#[test]
fn cd_replaces_the_first_tilde_only() {
    let env = usual();
    assert_eq!(
        CdCommand.handle_command(vec!["~/src"], &env),
        Effect::ChangeDir("/home/u/src".to_string())
    );
    assert_eq!(
        CdCommand.handle_command(vec!["~/a/~/b"], &env),
        Effect::ChangeDir("/home/u/a/~/b".to_string())
    );
    assert_eq!(CdCommand.handle_command(vec!["~"], &env), Effect::ChangeDir("/home/u".to_string()));
}

#[test]
fn cd_leaves_a_tilde_that_is_not_first() {
    let env = usual();
    assert_eq!(CdCommand.handle_command(vec!["a/~"], &env), Effect::ChangeDir("a/~".to_string()));
    assert_eq!(CdCommand.handle_command(vec![".."], &env), Effect::ChangeDir("..".to_string()));
    assert_eq!(
        CdCommand.handle_command(vec!["/tmp", "ignored"], &env),
        Effect::ChangeDir("/tmp".to_string())
    );
}

#[test]
fn cd_home_without_a_home_does_nothing() {
    let env = setting(vec![("PATH", "/bin"), ("USERPROFILE", "C:\\u")], vec![]);
    assert_eq!(CdCommand.handle_command(vec![], &env), Effect::Nothing);
    assert_eq!(CdCommand.handle_command(vec!["~/src"], &env), Effect::Nothing);
    assert_eq!(
        CdCommand.handle_command(vec!["/tmp"], &env),
        Effect::ChangeDir("/tmp".to_string())
    );
}

#[test]
fn cd_on_windows_reads_userprofile() {
    let mut env = setting(vec![("HOME", "/home/u"), ("USERPROFILE", "C:\\u")], vec![]);
    env.windows = true;
    assert_eq!(CdCommand.handle_command(vec![], &env), Effect::ChangeDir("C:\\u".to_string()));
}

#[test]
fn go_to_home_dir_replaces_the_first_tilde_wherever_it_is() {
    let env = usual();
    assert_eq!(
        go_to_home_dir("~".to_string(), &env),
        Effect::ChangeDir("/home/u".to_string())
    );
    assert_eq!(
        go_to_home_dir("x~y~".to_string(), &env),
        Effect::ChangeDir("x/home/uy~".to_string())
    );
    assert_eq!(go_to_home_dir("/tmp".to_string(), &env), Effect::ChangeDir("/tmp".to_string()));
    assert_eq!(go_to_home_dir("~".to_string(), &setting(vec![], vec![])), Effect::Nothing);
}

#[test]
fn move_to_dir_records_the_directory_that_was_entered() {
    let mut env = usual();
    let before = env.clone();
    let left = move_to_dir(&mut env, "..", Some(WorkingDir::At("/".to_string())));
    assert_eq!(left, Effect::Nothing);
    assert_eq!(env.working_dir, WorkingDir::At("/".to_string()));
    assert_eq!(env.variables, before.variables);
    assert_eq!(env.directories, before.directories);
    assert_eq!(env.windows, before.windows);
    let gone = WorkingDir::Unreadable("gone".to_string());
    assert_eq!(move_to_dir(&mut env, "x", Some(gone.clone())), Effect::Nothing);
    assert_eq!(env.working_dir, gone);
}

#[test]
fn a_program_on_the_path_is_run_as_resolved() {
    let env = usual();
    assert_eq!(
        ProgramCommand.handle_command(vec!["ls", "-l", "/tmp"], &env),
        Effect::Run {
            program: "ls".to_string(),
            args: vec!["-l".to_string(), "/tmp".to_string()],
            resolved: true,
        }
    );
    assert_eq!(
        ProgramCommand.handle_command(vec!["CAT"], &env),
        Effect::Run { program: "CAT".to_string(), args: vec![], resolved: true }
    );
}

#[test]
fn a_program_off_the_path_is_still_run() {
    let env = usual();
    assert_eq!(
        ProgramCommand.handle_command(vec!["./tool", "x"], &env),
        Effect::Run { program: "./tool".to_string(), args: vec!["x".to_string()], resolved: false }
    );
    let no_path = setting(vec![], vec![("/bin", vec!["ls"])]);
    assert_eq!(
        ProgramCommand.handle_command(vec!["ls"], &no_path),
        Effect::Run { program: "ls".to_string(), args: vec![], resolved: false }
    );
}

#[test]
fn the_runner_without_a_name_does_nothing() {
    assert_eq!(ProgramCommand.handle_command(vec![], &usual()), Effect::Nothing);
}

#[test]
fn try_run_program_decodes_the_output() {
    assert_eq!(try_run_program(Some(b"hello\n".to_vec())), Ok("hello\n".to_string()));
    assert_eq!(
        try_run_program(Some(vec![0x68, 0xC3, 0xA9, 0xE2, 0x82, 0xAC])),
        Ok("hé€".to_string())
    );
    assert_eq!(try_run_program(Some(vec![])), Ok(String::new()));
}

#[test]
fn try_run_program_refuses_bytes_that_are_not_text() {
    assert_eq!(try_run_program(Some(vec![0xFF])), Err(ExecutionError::NotText));
    assert_eq!(try_run_program(Some(vec![0x61, 0xC3])), Err(ExecutionError::NotText));
    assert_eq!(try_run_program(Some(vec![0xED, 0xA0, 0x80])), Err(ExecutionError::NotText));
    assert_eq!(try_run_program(Some(vec![0xC0, 0x80])), Err(ExecutionError::NotText));
}

#[test]
fn try_run_program_says_when_nothing_started() {
    assert_eq!(try_run_program(None), Err(ExecutionError::NotStarted));
}

#[test]
fn report_prints_the_output_of_a_run() {
    assert_eq!(ProgramCommand.report("ls", true, Some(b"a\nb\n".to_vec())), print("a\nb\n"));
    assert_eq!(ProgramCommand.report("./t", false, Some(b"ok".to_vec())), print("ok"));
    assert_eq!(ProgramCommand.report("true", true, Some(vec![])), print(""));
}

#[test]
fn report_of_a_failed_run_depends_on_the_search() {
    assert_eq!(ProgramCommand.report("nope", false, None), print("nope: command not found\n"));
    assert_eq!(ProgramCommand.report("ls", true, None), print("Program could not be executed"));
    assert_eq!(
        ProgramCommand.report("bin", false, Some(vec![0xFF, 0xFE])),
        print("bin: command not found\n")
    );
    assert_eq!(
        ProgramCommand.report("bin", true, Some(vec![0xFF, 0xFE])),
        print("Program could not be executed")
    );
}
