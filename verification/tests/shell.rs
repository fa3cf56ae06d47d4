use terminal::config::{launch_config, Env};
use terminal::shell::{
    _default_shell, default_shell, get_pw_entry, launched_program, uses_system_shell, Passwd,
    PasswdError, Program, RawPasswd, Shell,
};

fn passwd(shell: &str) -> Passwd<'_> {
    Passwd { _name: "ada", _dir: "/home/ada", shell }
}

fn record() -> RawPasswd {
    RawPasswd {
        uid: 501,
        name: b"ada".to_vec(),
        dir: "/home/ad\u{e9}".as_bytes().to_vec(),
        shell: b"/bin/zsh".to_vec(),
    }
}

#[test]
fn an_entry_that_is_found_is_decoded() {
    let raw = record();
    let entry = get_pw_entry(501, 0, Some(&raw)).unwrap();
    assert_eq!(entry._name, "ada");
    assert_eq!(entry._dir, "/home/ad\u{e9}");
    assert_eq!(entry.shell, "/bin/zsh");
}

#[test]
fn a_positive_status_does_not_hide_an_entry() {
    let raw = record();
    assert_eq!(get_pw_entry(501, 1, Some(&raw)).unwrap().shell, "/bin/zsh");
}

#[test]
fn a_negative_status_fails_whatever_was_found() {
    let raw = record();
    let failed = get_pw_entry(501, -1, Some(&raw)).unwrap_err();
    assert_eq!(failed, PasswdError::LookupFailed);
    assert_eq!(failed.message(), "getpwuid_r failed");
    assert_eq!(get_pw_entry(501, -1, None).unwrap_err(), PasswdError::LookupFailed);
}

#[test]
fn no_entry_is_not_found() {
    let missing = get_pw_entry(501, 0, None).unwrap_err();
    assert_eq!(missing, PasswdError::NotFound);
    assert_eq!(missing.message(), "pw not found");
}

#[test]
fn the_environment_names_the_default_shell_before_the_password_file() {
    let pw = passwd("/bin/zsh");
    match default_shell(&pw, Some("/bin/fish".to_string())) {
        Program::Just(program) => assert_eq!(program, "/bin/fish"),
        _ => panic!(),
    }
    match default_shell(&pw, None) {
        Program::Just(program) => assert_eq!(program, "/bin/zsh"),
        _ => panic!(),
    }
}

#[test]
fn a_login_shell_is_started_by_bash() {
    match _default_shell(&passwd("/usr/local/bin/zsh")) {
        Program::WithArgs { program, args } => {
            assert_eq!(program, "/bin/bash");
            assert_eq!(args, vec!["-c", "exec -a -zsh /usr/local/bin/zsh"]);
        }
        _ => panic!(),
    }
}

#[test]
fn only_a_named_shell_is_launched() {
    assert!(launched_program(&None).is_none());
    assert!(launched_program(&Some(Shell::System)).is_none());
    assert!(uses_system_shell(&None));
    assert!(uses_system_shell(&Some(Shell::System)));

    let named = Some(Shell::Program("fish".to_string()));
    assert!(!uses_system_shell(&named));
    assert!(matches!(launched_program(&named), Some(Program::Just(p)) if p == "fish"));

    let args = vec!["-l".to_string(), "-i".to_string()];
    let with_args = Some(Shell::WithArguments { program: "zsh".to_string(), args });
    assert!(!uses_system_shell(&with_args));
    match launched_program(&with_args) {
        Some(Program::WithArgs { program, args }) => {
            assert_eq!(program, "zsh");
            assert_eq!(args, vec!["-l", "-i"]);
        }
        _ => panic!(),
    }
}

#[test]
fn the_locale_is_always_set() {
    let config = launch_config(&None, &None, None);
    assert!(config.pty_config.shell.is_none());
    assert!(config.pty_config.working_directory.is_none());
    assert!(!config.pty_config.hold);
    assert_eq!(
        config.env.into_entries(),
        vec![("LC_ALL".to_string(), "en_US.UTF-8".to_string())]
    );
}

#[test]
fn the_locale_replaces_one_that_was_asked_for_and_nothing_else() {
    let mut env = Env::new();
    env.insert("LC_ALL".to_string(), "C".to_string());
    env.insert("EDITOR".to_string(), "vi".to_string());
    env.insert("EDITOR".to_string(), "zed".to_string());
    let directory = Some(b"/tmp/\xff".to_vec());
    let shell = Some(Shell::Program("zsh".to_string()));
    let config = launch_config(&directory, &shell, Some(env));
    assert_eq!(config.pty_config.working_directory, directory);
    assert!(matches!(config.pty_config.shell, Some(Program::Just(p)) if p == "zsh"));
    let mut entries = config.env.into_entries();
    entries.sort();
    assert_eq!(
        entries,
        vec![
            ("EDITOR".to_string(), "zed".to_string()),
            ("LC_ALL".to_string(), "en_US.UTF-8".to_string()),
        ]
    );
}
