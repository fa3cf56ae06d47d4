//! The shell that a terminal runs: as it is configured, as it is launched, and as the password file
//! names it.

use vstd::prelude::*;
use vstd::string::*;
use vstd::utf8::{decode_utf8, valid_utf8};

use crate::text::{
    command_line, command_line_text, concatenate, decode_strict, file_name, joined, last_component,
    views,
};

verus! {

/// The shell that the settings ask for.
#[derive(Clone, Debug)]
pub enum Shell {
    System,
    Program(String),
    WithArguments { program: String, args: Vec<String> },
}

/// What is launched in a terminal.
#[derive(Clone, Debug)]
pub enum Program {
    Just(String),
    WithArgs { program: String, args: Vec<String> },
}

/// A `Program` with its texts as sequences of characters.
pub enum ProgramView {
    Just(Seq<char>),
    WithArgs { program: Seq<char>, args: Seq<Seq<char>> },
}

impl View for Program {
    type V = ProgramView;

    open spec fn view(&self) -> ProgramView {
        match *self {
            Program::Just(program) => ProgramView::Just(program@),
            Program::WithArgs { program, args } => ProgramView::WithArgs {
                program: program@,
                args: views(args@),
            },
        }
    }
}

/// Whether the terminal runs the user's own shell: none was asked for, or that one was.
pub open spec fn is_system(shell: Option<Shell>) -> bool {
    shell is None || shell->0 is System
}

/// Whether the terminal runs the user's own shell, which only the password file names.
pub fn uses_system_shell(shell: &Option<Shell>) -> (result: bool)
    ensures
        result == is_system(*shell),
{
    match shell {
        None | Some(Shell::System) => true,
        Some(_) => false,
    }
}

/// The program that is launched for the shell of the settings, or nothing for the user's own.
pub open spec fn program_of(shell: Option<Shell>) -> Option<ProgramView> {
    match shell {
        None | Some(Shell::System) => None,
        Some(Shell::Program(program)) => Some(ProgramView::Just(program@)),
        Some(Shell::WithArguments { program, args }) => Some(
            ProgramView::WithArgs { program: program@, args: views(args@) },
        ),
    }
}

/// The view of a program that may be missing.
pub open spec fn program_view(program: Option<Program>) -> Option<ProgramView> {
    match program {
        Some(program) => Some(program@),
        None => None,
    }
}

/// The program to launch for the shell of the settings.
pub fn launched_program(shell: &Option<Shell>) -> (program: Option<Program>)
    ensures
        program_view(program) == program_of(*shell),
        shell matches Some(Shell::Program(name)) ==> program matches Some(Program::Just(launched))
            && launched@ == name@,
        shell matches Some(Shell::WithArguments { program: name, args }) ==> program matches Some(
            Program::WithArgs { program: launched, args: passed },
        ) && launched@ == name@ && passed@.len() == args@.len() && forall|i: int|
            0 <= i < args@.len() ==> #[trigger] passed@[i]@ == args@[i]@,
{
    match shell {
        None | Some(Shell::System) => None,
        Some(Shell::Program(program)) => Some(Program::Just(program.clone())),
        Some(Shell::WithArguments { program, args }) => {
            let copy = args.clone();
            assert(copy@ =~= args@);
            Some(Program::WithArgs { program: program.clone(), args: copy })
        },
    }
}

/// The command line of a shell that the settings name.
pub open spec fn command_of(shell: Shell) -> Seq<char> {
    match shell {
        Shell::System => Seq::empty(),
        Shell::Program(program) => program@,
        Shell::WithArguments { program, args } => command_line_text(program@, views(args@)),
    }
}

impl Shell {
    /// The command line of the shell, unless it is the user's own.
    pub fn command(&self) -> (command: Option<String>)
        ensures
            command is None <==> self is System,
            command matches Some(text) ==> text@ == command_of(*self),
    {
        match self {
            Shell::System => None,
            Shell::Program(program) => Some(program.clone()),
            Shell::WithArguments { program, args } => Some(command_line(program.as_str(), args)),
        }
    }
}

/// A user's entry in the password file.
#[derive(Debug)]
pub struct Passwd<'a> {
    pub _name: &'a str,
    pub _dir: &'a str,
    pub shell: &'a str,
}

/// A user's entry as the C library holds it: its texts are bytes.
#[derive(Debug)]
pub struct RawPasswd {
    pub uid: u32,
    pub name: Vec<u8>,
    pub dir: Vec<u8>,
    pub shell: Vec<u8>,
}

impl RawPasswd {
    /// Whether every text of the entry is UTF-8.
    pub open spec fn is_text(&self) -> bool {
        valid_utf8(self.name@) && valid_utf8(self.dir@) && valid_utf8(self.shell@)
    }
}

/// Why there is no entry.
#[derive(Copy, Clone, Debug, PartialEq, Eq, Structural)]
pub enum PasswdError {
    LookupFailed,
    NotFound,
}

impl PasswdError {
    /// The error in words.
    pub open spec fn text(self) -> Seq<char> {
        match self {
            PasswdError::LookupFailed => "getpwuid_r failed"@,
            PasswdError::NotFound => "pw not found"@,
        }
    }

    /// The error in words.
    pub fn message(&self) -> (message: String)
        ensures
            message@ == self.text(),
    {
        match self {
            PasswdError::LookupFailed => "getpwuid_r failed".to_owned(),
            PasswdError::NotFound => "pw not found".to_owned(),
        }
    }
}

/// The entry of the user `uid`, given the status of the lookup and what it found.
///
/// An entry that was found must be that user's, and its texts must be UTF-8.
pub fn get_pw_entry<'a>(uid: u32, status: i32, found: Option<&'a RawPasswd>) -> (entry: Result<
    Passwd<'a>,
    PasswdError,
>)
    requires
        status >= 0 && found is Some ==> found->0.uid == uid && found->0.is_text(),
    ensures
        entry matches Err(PasswdError::LookupFailed) <==> status < 0,
        entry matches Err(PasswdError::NotFound) <==> status >= 0 && found is None,
        entry matches Ok(passwd) ==> {
            &&& passwd._name@ == decode_utf8(found->0.name@)
            &&& passwd._dir@ == decode_utf8(found->0.dir@)
            &&& passwd.shell@ == decode_utf8(found->0.shell@)
        },
{
    if status < 0 {
        return Err(PasswdError::LookupFailed);
    }
    match found {
        None => Err(PasswdError::NotFound),
        Some(raw) => Ok(
            Passwd {
                _name: decode_strict(raw.name.as_slice()).unwrap(),
                _dir: decode_strict(raw.dir.as_slice()).unwrap(),
                shell: decode_strict(raw.shell.as_slice()).unwrap(),
            },
        ),
    }
}

/// The user's own shell: what the environment says, or else the password file.
pub fn default_shell(pw: &Passwd<'_>, variable: Option<String>) -> (program: Program)
    ensures
        program@ == ProgramView::Just(
            match variable {
                Some(shell) => shell@,
                None => pw.shell@,
            },
        ),
{
    match variable {
        Some(shell) => Program::Just(shell),
        None => Program::Just(pw.shell.to_owned()),
    }
}

/// The argument that makes a shell replace the one that runs it, under its own name with a hyphen
/// before it: that makes it a login shell.
pub open spec fn login_command(shell: Seq<char>) -> Seq<char> {
    "exec -a -"@ + last_component(shell) + " "@ + shell
}

/// The user's own shell as a login shell, which `bash` starts.
pub fn _default_shell(pw: &Passwd<'_>) -> (program: Program)
    ensures
        program@ == (ProgramView::WithArgs {
            program: "/bin/bash"@,
            args: seq!["-c"@, login_command(pw.shell@)],
        }),
{
    let shell_name = file_name(pw.shell);
    let mut command = concatenate("exec -a -", shell_name.as_str());
    command.append(" ");
    command.append(pw.shell);
    let mut args: Vec<String> = Vec::new();
    args.push("-c".to_owned());
    args.push(command);
    assert(views(args@) =~= seq!["-c"@, login_command(pw.shell@)]);
    Program::WithArgs { program: "/bin/bash".to_owned(), args }
}

/// A shell with arguments is launched as that program with all of its arguments, in their order,
/// however many there are.
pub proof fn law_launch_with_arguments(program: String, args: Vec<String>)
    ensures
        program_of(Some(Shell::WithArguments { program, args })) matches Some(
            ProgramView::WithArgs { program: launched, args: passed },
        ) && launched == program@ && passed.len() == args@.len() && forall|i: int|
            0 <= i < args@.len() ==> #[trigger] passed[i] == args@[i]@,
{
}

/// A shell without arguments is launched as that program alone, and the user's own as none.
pub proof fn law_launch_alone(program: String)
    ensures
        program_of(Some(Shell::Program(program))) == Some(ProgramView::Just(program@)),
        program_of(Some(Shell::System)) is None,
        program_of(None) is None,
{
}

/// The user's own shell runs where the settings ask for it or for none, and nowhere else.
pub proof fn law_system_shell(program: String, args: Vec<String>)
    ensures
        is_system(None),
        is_system(Some(Shell::System)),
        !is_system(Some(Shell::Program(program))),
        !is_system(Some(Shell::WithArguments { program, args })),
{
}

/// The command line of a shell is the program, followed, where it has arguments, by a space and all of
/// them with a space between each two.
pub proof fn law_command(program: String, args: Vec<String>)
    ensures
        command_of(Shell::Program(program)) == program@,
        command_of(Shell::WithArguments { program, args }) == program@ + seq![' '] + joined(
            args@.map_values(|arg: String| arg@),
            seq![' '],
        ),
{
    reveal_strlit(" ");
    assert(" "@ =~= seq![' ']);
    assert(views(args@) =~= args@.map_values(|arg: String| arg@));
}

/// A program and its view tell the same: which program it is, and every argument, in its place.
pub proof fn law_program_view(program: String, args: Vec<String>)
    ensures
        Program::Just(program)@ == ProgramView::Just(program@),
        (Program::WithArgs { program, args })@ matches ProgramView::WithArgs {
            program: seen,
            args: passed,
        } && seen == program@ && passed.len() == args@.len() && forall|i: int|
            0 <= i < args@.len() ==> #[trigger] passed[i] == args@[i]@,
        program_view(Some(Program::Just(program))) == Some(ProgramView::Just(program@)),
        program_view(Some(Program::WithArgs { program, args })) == Some(
            (Program::WithArgs { program, args })@,
        ),
        program_view(None) is None,
{
}

/// A login shell is started under what follows the last slash of its path, with a hyphen before it,
/// and by its whole path.
pub proof fn law_login_command(directory: Seq<char>, name: Seq<char>)
    requires
        !name.contains('/'),
    ensures
        login_command(directory + seq!['/'] + name) == "exec -a -"@ + name + seq![' '] + directory
            + seq!['/'] + name,
        login_command(name) == "exec -a -"@ + name + seq![' '] + name,
{
    reveal_strlit(" ");
    assert(" "@ =~= seq![' ']);
    let path = directory + seq!['/'] + name;
    lemma_name_after_slash(directory + seq!['/'], name);
    lemma_name_after_slash(Seq::empty(), name);
    assert(Seq::empty() + name =~= name);
    assert(login_command(path) =~= "exec -a -"@ + name + seq![' '] + directory + seq!['/'] + name);
}

proof fn lemma_name_after_slash(directory: Seq<char>, name: Seq<char>)
    requires
        directory.len() == 0 || directory.last() == '/',
        !name.contains('/'),
    ensures
        last_component(directory + name) == name,
    decreases name.len(),
{
    if name.len() == 0 {
        assert(directory + name =~= directory);
        assert(name =~= Seq::empty());
    } else {
        let front = name.drop_last();
        assert forall|i: int| 0 <= i < front.len() implies #[trigger] front[i] != '/' by {
            assert(name.contains(name[i]));
        }
        lemma_name_after_slash(directory, front);
        assert(name.contains(name.last()));
        assert((directory + name).drop_last() =~= directory + front);
        assert((directory + name).last() == name.last());
        assert(front.push(name.last()) =~= name);
    }
}

/// The two reasons for a missing entry are told apart in words.
pub proof fn law_passwd_errors()
    ensures
        PasswdError::LookupFailed.text() == "getpwuid_r failed"@,
        PasswdError::NotFound.text() == "pw not found"@,
{
}

/// An entry is text exactly if each of its three texts is UTF-8.
pub proof fn law_entry_is_text(raw: RawPasswd)
    ensures
        raw.is_text() <==> valid_utf8(raw.name@) && valid_utf8(raw.dir@) && valid_utf8(raw.shell@),
{
}

} // verus!
