use terminal::error::TerminalError;
use terminal::shell::{Passwd, Shell};

fn error(directory: Option<&[u8]>, shell: Option<Shell>) -> TerminalError {
    TerminalError {
        directory: directory.map(|d| d.to_vec()),
        shell,
        source: "No such file or directory (os error 2)".to_string(),
    }
}

fn passwd() -> Option<Passwd<'static>> {
    Some(Passwd { _name: "ada", _dir: "/home/ada", shell: "/bin/zsh" })
}

fn with_arguments() -> Shell {
    Shell::WithArguments {
        program: "zsh".to_string(),
        args: vec!["-l".to_string(), "-i".to_string()],
    }
}

#[test]
fn a_directory_that_is_text_is_named_as_it_is() {
    let failed = error(Some("/home/caf\u{e9}".as_bytes()), None);
    assert_eq!(failed.fmt_directory(), "/home/caf\u{e9}");
    assert_eq!(failed.fmt_directory_with(Some(b"/root".to_vec())), "/home/caf\u{e9}");
}

#[test]
fn a_directory_that_is_not_text_is_named_as_far_as_it_is() {
    let failed = error(Some(b"/tmp/\xffx"), None);
    assert_eq!(failed.fmt_directory(), "<non-utf8 path> /tmp/\u{fffd}x");
}

#[test]
fn without_a_directory_the_home_directory_is_named() {
    let failed = error(None, None);
    assert_eq!(
        failed.fmt_directory_with(Some(b"/home/ada".to_vec())),
        "<none specified, using home directory> /home/ada"
    );
    assert_eq!(
        failed.fmt_directory_with(Some(b"/home/\xfe".to_vec())),
        "<none specified, using home directory> /home/\u{fffd}"
    );
    assert_eq!(
        failed.fmt_directory_with(None),
        "<none specified, could not find home directory>"
    );
}

#[test]
fn the_home_directory_that_is_named_is_the_one_that_is_found() {
    let home = match dirs::home_dir() {
        Some(path) => format!(
            "<none specified, using home directory> {}",
            path.to_string_lossy()
        ),
        None => "<none specified, could not find home directory>".to_string(),
    };
    assert_eq!(error(None, None).fmt_directory(), home);
}

#[test]
fn shell_to_string_names_the_shell_that_was_asked_for() {
    assert_eq!(error(None, None).shell_to_string(), None);
    assert_eq!(
        error(None, Some(Shell::System)).shell_to_string(),
        Some("<system shell>".to_string())
    );
    assert_eq!(
        error(None, Some(Shell::Program("fish".to_string()))).shell_to_string(),
        Some("fish".to_string())
    );
    assert_eq!(
        error(None, Some(with_arguments())).shell_to_string(),
        Some("zsh -l -i".to_string())
    );
}

#[test]
fn fmt_shell_names_the_shell_that_would_have_run() {
    assert_eq!(
        error(None, None).fmt_shell(passwd()),
        "<none specified, using system defined shell> /bin/zsh"
    );
    assert_eq!(
        error(None, None).fmt_shell(None),
        "<none specified, could not access the password file> {}"
    );
    assert_eq!(
        error(None, Some(Shell::System)).fmt_shell(passwd()),
        "<system defined shell> /bin/zsh"
    );
    assert_eq!(
        error(None, Some(Shell::System)).fmt_shell(None),
        "<could not access the password file>"
    );
    assert_eq!(error(None, Some(Shell::Program("fish".to_string()))).fmt_shell(passwd()), "fish");
    assert_eq!(error(None, Some(with_arguments())).fmt_shell(None), "zsh -l -i");
}

#[test]
fn the_error_names_directory_shell_and_cause() {
    let failed = error(Some(b"/nowhere"), Some(with_arguments()));
    let text = "Working directory: /nowhere Shell command: `zsh -l -i`, \
                IOError: No such file or directory (os error 2)";
    assert_eq!(failed.fmt(passwd()), text);
    assert_eq!(failed.fmt_with(Some(b"/root".to_vec()), None), text);
    assert_eq!(
        error(None, None).fmt_with(None, None),
        "Working directory: <none specified, could not find home directory> \
         Shell command: `<none specified, could not access the password file> {}`, \
         IOError: No such file or directory (os error 2)"
    );
}
