//! The failure to launch a terminal, in words.

use vstd::prelude::*;
use vstd::string::*;
use vstd::utf8::{
    decode_utf8, encode_utf8, encode_utf8_decode_utf8, encode_utf8_valid_utf8, valid_utf8,
};

use crate::config::path_view;
use crate::shell::{Passwd, Shell, command_of, law_command};
use crate::text::{concatenate, decode_lossy, decode_strict, joined, lossy_utf8, views};

verus! {

/// A terminal could not be launched.
#[derive(Debug)]
pub struct TerminalError {
    /// The working directory that was asked for, as the system holds it.
    pub directory: Option<Vec<u8>>,
    /// The shell that was asked for.
    pub shell: Option<Shell>,
    /// What the system said.
    pub source: String,
}

/// A path in words.
pub open spec fn path_text(path: Seq<u8>) -> Seq<char> {
    if valid_utf8(path) {
        decode_utf8(path)
    } else {
        "<non-utf8 path> "@ + lossy_utf8(path)
    }
}

/// The directory of a launch in words: the one that was asked for, or else the home directory.
pub open spec fn directory_text(directory: Option<Seq<u8>>, home: Option<Seq<u8>>) -> Seq<char> {
    match directory {
        Some(path) => path_text(path),
        None => match home {
            Some(path) => "<none specified, using home directory> "@ + lossy_utf8(path),
            None => "<none specified, could not find home directory>"@,
        },
    }
}

/// The shell of an entry of the password file, if there is one.
pub open spec fn passwd_shell(pw: Option<Passwd<'_>>) -> Option<Seq<char>> {
    match pw {
        Some(pw) => Some(pw.shell@),
        None => None,
    }
}

/// The shell of a launch in words, given the user's own shell if the password file names it.
pub open spec fn shell_text(shell: Option<Shell>, own: Option<Seq<char>>) -> Seq<char> {
    match shell {
        None => match own {
            Some(name) => "<none specified, using system defined shell> "@ + name,
            None => "<none specified, could not access the password file> {}"@,
        },
        Some(Shell::System) => match own {
            Some(name) => "<system defined shell> "@ + name,
            None => "<could not access the password file>"@,
        },
        Some(named) => command_of(named),
    }
}

/// The error in words, given its directory and its shell in words.
pub open spec fn error_text(
    directory: Seq<char>,
    shell: Seq<char>,
    source: Seq<char>,
) -> Seq<char> {
    "Working directory: "@ + directory + " Shell command: `"@ + shell + "`, IOError: "@ + source
}

/// Calls `dirs::home_dir`, and takes the path apart into its bytes. What it finds depends on the
/// environment and on the password file, so nothing is said of it.
#[verifier::external_body]
fn home_dir() -> (home: Option<Vec<u8>>) {
    match dirs::home_dir() {
        Some(path) => Some(path.into_os_string().into_encoded_bytes()),
        None => None,
    }
}

/// Whether `home` is what a lookup of the home directory handed back.
pub closed spec fn found_home(home: Option<Vec<u8>>) -> bool {
    call_ensures(home_dir, (), home)
}

/// Only a lookup finds a home directory.
proof fn lemma_found_home(home: Option<Vec<u8>>)
    ensures
        found_home(home) <==> call_ensures(home_dir, (), home),
{
}

impl TerminalError {
    /// The working directory in words, given the home directory if there is one.
    pub fn fmt_directory_with(&self, home: Option<Vec<u8>>) -> (text: String)
        ensures
            text@ == directory_text(path_view(self.directory), path_view(home)),
    {
        match &self.directory {
            Some(path) => match decode_strict(path.as_slice()) {
                Some(text) => text.to_owned(),
                None => concatenate("<non-utf8 path> ", decode_lossy(path.as_slice()).as_str()),
            },
            None => match home {
                Some(path) => concatenate(
                    "<none specified, using home directory> ",
                    decode_lossy(path.as_slice()).as_str(),
                ),
                None => "<none specified, could not find home directory>".to_owned(),
            },
        }
    }

    /// What `home_dir` hands back where no directory was asked for, and nothing where one was.
    fn needed_home(&self) -> (home: Option<Vec<u8>>)
        ensures
            self.directory is Some ==> home is None,
            self.directory is None ==> found_home(home),
    {
        match self.directory {
            Some(_) => None,
            None => {
                let home = home_dir();
                proof {
                    lemma_found_home(home);
                }
                home
            },
        }
    }

    /// The working directory in words.
    pub fn fmt_directory(&self) -> (text: String)
        ensures
            self.directory matches Some(path) ==> text@ == path_text(path@),
            self.directory is None ==> exists|home: Option<Vec<u8>>| #[trigger]
                found_home(home) && text@ == directory_text(None, path_view(home)),
    {
        let home = self.needed_home();
        self.fmt_directory_with(home)
    }

    /// The shell that was asked for in words, if one was.
    pub fn shell_to_string(&self) -> (text: Option<String>)
        ensures
            text is Some <==> self.shell is Some,
            self.shell matches Some(shell) ==> text->0@ == (if shell is System {
                "<system shell>"@
            } else {
                command_of(shell)
            }),
    {
        match &self.shell {
            Some(shell) => match shell.command() {
                Some(command) => Some(command),
                None => Some("<system shell>".to_owned()),
            },
            None => None,
        }
    }

    /// The shell in words, given the user's entry in the password file if there is one.
    pub fn fmt_shell(&self, pw: Option<Passwd<'_>>) -> (text: String)
        ensures
            text@ == shell_text(self.shell, passwd_shell(pw)),
    {
        match &self.shell {
            Some(shell) => match shell.command() {
                Some(command) => command,
                None => match pw {
                    Some(pw) => concatenate("<system defined shell> ", pw.shell),
                    None => "<could not access the password file>".to_owned(),
                },
            },
            None => match pw {
                Some(pw) => concatenate("<none specified, using system defined shell> ", pw.shell),
                None => "<none specified, could not access the password file> {}".to_owned(),
            },
        }
    }

    /// The error in words, given the home directory and the user's entry in the password file, if
    /// there are such.
    pub fn fmt_with(&self, home: Option<Vec<u8>>, pw: Option<Passwd<'_>>) -> (text: String)
        ensures
            text@ == error_text(
                directory_text(path_view(self.directory), path_view(home)),
                shell_text(self.shell, passwd_shell(pw)),
                self.source@,
            ),
    {
        let dir_string = self.fmt_directory_with(home);
        let shell = self.fmt_shell(pw);
        let mut text = concatenate("Working directory: ", dir_string.as_str());
        text.append(" Shell command: `");
        text.append(shell.as_str());
        text.append("`, IOError: ");
        text.append(self.source.as_str());
        text
    }

    /// The error in words, given the user's entry in the password file if there is one.
    pub fn fmt(&self, pw: Option<Passwd<'_>>) -> (text: String)
        ensures
            self.directory matches Some(path) ==> text@ == error_text(
                path_text(path@),
                shell_text(self.shell, passwd_shell(pw)),
                self.source@,
            ),
            self.directory is None ==> exists|home: Option<Vec<u8>>| #[trigger]
                found_home(home) && text@ == error_text(
                    directory_text(None, path_view(home)),
                    shell_text(self.shell, passwd_shell(pw)),
                    self.source@,
                ),
    {
        let home = self.needed_home();
        self.fmt_with(home, pw)
    }
}

/// A directory that is text is named by that text, whatever the home directory; one that is not is
/// marked as such.
pub proof fn law_directory_asked_for(text: Seq<char>, path: Seq<u8>, home: Option<Seq<u8>>)
    ensures
        directory_text(Some(encode_utf8(text)), home) == text,
        path_text(encode_utf8(text)) == text,
        !valid_utf8(path) ==> path_text(path) == "<non-utf8 path> "@ + lossy_utf8(path),
        !valid_utf8(path) ==> directory_text(Some(path), home) == "<non-utf8 path> "@ + lossy_utf8(
            path,
        ),
{
    encode_utf8_valid_utf8(text);
    encode_utf8_decode_utf8(text);
}

/// Where no directory was asked for, the home directory is named, or else that there is none.
pub proof fn law_no_directory_asked_for(home: Seq<u8>)
    ensures
        directory_text(None, Some(home)) == "<none specified, using home directory> "@ + lossy_utf8(
            home,
        ),
        directory_text(None, None) == "<none specified, could not find home directory>"@,
{
}

/// A shell that was asked for by name is named by its command line, whatever the password file says.
pub proof fn law_shell_asked_for(program: String, args: Vec<String>, own: Option<Seq<char>>)
    ensures
        shell_text(Some(Shell::Program(program)), own) == program@,
        shell_text(Some(Shell::WithArguments { program, args }), own) == program@ + seq![' ']
            + joined(views(args@), seq![' ']),
{
    law_command(program, args);
    assert(views(args@) =~= args@.map_values(|arg: String| arg@));
}

/// The user's own shell is named as the password file has it, with whether it was asked for; where the
/// password file cannot tell, that is said.
pub proof fn law_own_shell(own: Seq<char>, pw: Passwd<'_>)
    ensures
        shell_text(Some(Shell::System), Some(own)) == "<system defined shell> "@ + own,
        shell_text(Some(Shell::System), None) == "<could not access the password file>"@,
        shell_text(None, Some(own)) == "<none specified, using system defined shell> "@ + own,
        shell_text(None, None) == "<none specified, could not access the password file> {}"@,
        passwd_shell(Some(pw)) == Some(pw.shell@),
        passwd_shell(None) is None,
{
}

/// An error names its directory, its shell and its cause, in this order and whole.
pub proof fn law_error_text(directory: Seq<char>, shell: Seq<char>, source: Seq<char>)
    ensures
        error_text(directory, shell, source) == "Working directory: "@ + directory
            + " Shell command: `"@ + shell + "`, IOError: "@ + source,
{
}

} // verus!
