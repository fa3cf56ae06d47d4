//! The configuration that a terminal is launched with.

use vstd::prelude::*;

use crate::shell::{Program, Shell, launched_program, program_of, program_view};

verus! {

/// The variable that sets the locale of a program, whatever the others say.
pub const LOCALE_VARIABLE: &'static str = "LC_ALL";

/// The locale of every terminal.
pub const LOCALE: &'static str = "en_US.UTF-8";

/// Environment variables and their values. No variable is listed twice.
pub struct Env {
    entries: Vec<(String, String)>,
}

/// The values that a list of variables and values gives the variables.
spec fn listed(entries: Seq<(String, String)>) -> Map<Seq<char>, Seq<char>>
    decreases entries.len(),
{
    if entries.len() == 0 {
        Map::empty()
    } else {
        listed(entries.drop_last()).insert(entries.last().0@, entries.last().1@)
    }
}

/// Whether no variable is listed twice.
spec fn listed_once(entries: Seq<(String, String)>) -> bool {
    forall|i: int, j: int|
        0 <= i < j < entries.len() ==> #[trigger] entries[i].0@ != #[trigger] entries[j].0@
}

/// Every entry of a list without repetitions stands in its map, and nothing else does.
proof fn lemma_listed(entries: Seq<(String, String)>)
    requires
        listed_once(entries),
    ensures
        forall|i: int|
            #![trigger entries[i]]
            0 <= i < entries.len() ==> listed(entries).contains_key(entries[i].0@) && listed(
                entries,
            )[entries[i].0@] == entries[i].1@,
        forall|name: Seq<char>| #[trigger]
            listed(entries).contains_key(name) ==> exists|i: int|
                0 <= i < entries.len() && #[trigger] entries[i].0@ == name,
    decreases entries.len(),
{
    if entries.len() > 0 {
        let front = entries.drop_last();
        assert(listed_once(front)) by {
            assert forall|i: int, j: int| 0 <= i < j < front.len() implies #[trigger] front[i].0@
                != #[trigger] front[j].0@ by {
                assert(entries[i].0@ != entries[j].0@);
            }
        }
        lemma_listed(front);
        assert forall|i: int| #![trigger entries[i]] 0 <= i < entries.len() implies listed(
            entries,
        ).contains_key(entries[i].0@) && listed(entries)[entries[i].0@] == entries[i].1@ by {
            if i < front.len() {
                assert(front[i] == entries[i]);
                assert(entries[i].0@ != entries[entries.len() - 1].0@);
            }
        }
        assert forall|name: Seq<char>| #[trigger]
            listed(entries).contains_key(name) implies exists|i: int|
            0 <= i < entries.len() && #[trigger] entries[i].0@ == name by {
            if name == entries.last().0@ {
                assert(entries[entries.len() - 1].0@ == name);
            } else {
                assert(listed(front).contains_key(name));
                let i = choose|i: int| 0 <= i < front.len() && #[trigger] front[i].0@ == name;
                assert(entries[i].0@ == name);
            }
        }
    }
}

impl View for Env {
    type V = Map<Seq<char>, Seq<char>>;

    closed spec fn view(&self) -> Map<Seq<char>, Seq<char>> {
        listed(self.entries@)
    }
}

impl Env {
    /// Whether no variable is listed twice.
    pub closed spec fn well_formed(&self) -> bool {
        listed_once(self.entries@)
    }

    /// No variables.
    pub fn new() -> (env: Env)
        ensures
            env.well_formed(),
            env@ == Map::<Seq<char>, Seq<char>>::empty(),
    {
        Env { entries: Vec::new() }
    }

    /// Where a variable is listed, if it is.
    fn position(&self, name: &String) -> (position: Option<usize>)
        requires
            self.well_formed(),
        ensures
            position is Some <==> self@.contains_key(name@),
            position matches Some(i) ==> i < self.entries.len() && self.entries@[i as int].0@ == name@
                && self.entries@[i as int].1@ == self@[name@],
    {
        proof {
            lemma_listed(self.entries@);
        }
        let mut i: usize = 0;
        while i < self.entries.len()
            invariant
                i <= self.entries.len(),
                self.well_formed(),
                forall|j: int| 0 <= j < i ==> #[trigger] self.entries@[j].0@ != name@,
            decreases self.entries.len() - i,
        {
            if self.entries[i].0 == *name {
                proof {
                    lemma_listed(self.entries@);
                }
                return Some(i);
            }
            i = i + 1;
        }
        None
    }

    /// Gives a variable a value, in place of any that it had.
    pub fn insert(&mut self, name: String, value: String)
        requires
            old(self).well_formed(),
        ensures
            final(self).well_formed(),
            final(self)@ == old(self)@.insert(name@, value@),
    {
        let ghost before = self.entries@;
        match self.position(&name) {
            Some(i) => {
                proof {
                    lemma_updated(before, i as int, (name, value));
                }
                self.entries.set(i, (name, value));
            },
            None => {
                self.entries.push((name, value));
                proof {
                    lemma_listed(before);
                    assert(self.entries@.drop_last() =~= before);
                    assert forall|i: int, j: int| 0 <= i < j < self.entries@.len() implies
                        #[trigger] self.entries@[i].0@ != #[trigger] self.entries@[j].0@ by {
                        assert(before.contains(before[i]));
                        if j < before.len() {
                            assert(before[i].0@ != before[j].0@);
                        } else {
                            assert(listed(before).contains_key(before[i].0@));
                        }
                    }
                }
            },
        }
    }

    /// The variables with their values, each once.
    pub fn into_entries(self) -> (entries: Vec<(String, String)>)
        requires
            self.well_formed(),
        ensures
            forall|i: int|
                #![trigger entries@[i]]
                0 <= i < entries@.len() ==> self@.contains_key(entries@[i].0@)
                    && self@[entries@[i].0@] == entries@[i].1@,
            forall|name: Seq<char>| #[trigger]
                self@.contains_key(name) ==> exists|i: int|
                    0 <= i < entries@.len() && #[trigger] entries@[i].0@ == name,
            forall|i: int, j: int|
                0 <= i < j < entries@.len() ==> #[trigger] entries@[i].0@
                    != #[trigger] entries@[j].0@,
    {
        proof {
            lemma_listed(self.entries@);
        }
        self.entries
    }
}

/// Replacing one entry by another for the same variable replaces its value, and no other.
proof fn lemma_updated(entries: Seq<(String, String)>, i: int, entry: (String, String))
    requires
        listed_once(entries),
        0 <= i < entries.len(),
        entries[i].0@ == entry.0@,
    ensures
        listed_once(entries.update(i, entry)),
        listed(entries.update(i, entry)) == listed(entries).insert(entry.0@, entry.1@),
    decreases entries.len(),
{
    let updated = entries.update(i, entry);
    assert forall|j: int, k: int| 0 <= j < k < updated.len() implies #[trigger] updated[j].0@
        != #[trigger] updated[k].0@ by {
        assert(entries[j].0@ != entries[k].0@);
    }
    let front = entries.drop_last();
    if i == entries.len() - 1 {
        assert(updated.drop_last() =~= front);
        assert(listed(updated) =~= listed(entries).insert(entry.0@, entry.1@));
    } else {
        assert forall|j: int, k: int| 0 <= j < k < front.len() implies #[trigger] front[j].0@
            != #[trigger] front[k].0@ by {
            assert(entries[j].0@ != entries[k].0@);
        }
        lemma_updated(front, i, entry);
        assert(updated.drop_last() =~= front.update(i, entry));
        assert(entries[i].0@ != entries[entries.len() - 1].0@);
        assert(listed(updated) =~= listed(entries).insert(entry.0@, entry.1@));
    }
}

/// How the pty is set up: what it runs, where, and whether it stays when that ends.
pub struct PtyConfig {
    pub shell: Option<Program>,
    /// The path as the system holds it, which need not be text.
    pub working_directory: Option<Vec<u8>>,
    pub hold: bool,
}

/// What a terminal is launched with.
pub struct Config {
    pub pty_config: PtyConfig,
    pub env: Env,
}

/// The path that may be missing, as the bytes of the system.
pub open spec fn path_view(path: Option<Vec<u8>>) -> Option<Seq<u8>> {
    match path {
        Some(bytes) => Some(bytes@),
        None => None,
    }
}

/// The variables that a terminal is asked to set, if any.
pub open spec fn variables(env: Option<Env>) -> Map<Seq<char>, Seq<char>> {
    match env {
        Some(env) => env@,
        None => Map::empty(),
    }
}

/// The variables that a terminal is launched with.
pub open spec fn launch_variables(env: Option<Env>) -> Map<Seq<char>, Seq<char>> {
    variables(env).insert(LOCALE_VARIABLE@, LOCALE@)
}

/// The configuration for a working directory, a shell and environment variables.
pub fn launch_config(
    working_directory: &Option<Vec<u8>>,
    shell: &Option<Shell>,
    env: Option<Env>,
) -> (config: Config)
    requires
        env is Some ==> env->0.well_formed(),
    ensures
        program_view(config.pty_config.shell) == program_of(*shell),
        path_view(config.pty_config.working_directory) == path_view(*working_directory),
        !config.pty_config.hold,
        config.env.well_formed(),
        config.env@ == launch_variables(env),
        config.env@.contains_key("LC_ALL"@) && config.env@["LC_ALL"@] == "en_US.UTF-8"@,
        forall|name: Seq<char>|
            name != "LC_ALL"@ ==> (#[trigger] config.env@.contains_key(name) <==> env is Some
                && env->0@.contains_key(name)),
        forall|name: Seq<char>|
            name != "LC_ALL"@ && env is Some && env->0@.contains_key(name)
                ==> #[trigger] config.env@[name] == env->0@[name],
{
    let mut env = match env {
        Some(env) => env,
        None => Env::new(),
    };
    env.insert(LOCALE_VARIABLE.to_owned(), LOCALE.to_owned());
    let working_directory = match working_directory {
        Some(path) => {
            let copy = path.clone();
            assert(copy@ =~= path@);
            Some(copy)
        },
        None => None,
    };
    Config {
        pty_config: PtyConfig { shell: launched_program(shell), working_directory, hold: false },
        env,
    }
}

/// Every terminal has the same locale, whatever it is asked to set, and every other variable as it is
/// asked to.
pub proof fn law_locale(env: Option<Env>, name: Seq<char>)
    ensures
        ({
            let set = launch_variables(env);
            &&& set.contains_key(LOCALE_VARIABLE@) && set[LOCALE_VARIABLE@] == LOCALE@
            &&& name != LOCALE_VARIABLE@ ==> {
                &&& set.contains_key(name) == variables(env).contains_key(name)
                &&& set.contains_key(name) ==> set[name] == variables(env)[name]
            }
        }),
{
}

/// Of the variables that a terminal is given, it is launched with each one other than the locale, with
/// the value that it was given, and with no other; and it is launched with the locale.
pub proof fn law_given_variables(env: Env, name: Seq<char>)
    ensures
        ({
            let set = launch_variables(Some(env));
            &&& set.contains_key("LC_ALL"@) && set["LC_ALL"@] == "en_US.UTF-8"@
            &&& name != "LC_ALL"@ ==> (set.contains_key(name) <==> env@.contains_key(name))
            &&& name != "LC_ALL"@ && env@.contains_key(name) ==> set[name] == env@[name]
        }),
{
}

/// A terminal that is given no variables is launched with the locale, and with nothing else.
pub proof fn law_no_variables_given(name: Seq<char>)
    ensures
        ({
            let set = launch_variables(None);
            &&& set.contains_key("LC_ALL"@) && set["LC_ALL"@] == "en_US.UTF-8"@
            &&& set.contains_key(name) ==> name == "LC_ALL"@
        }),
{
}

/// A path is seen with all of its bytes, and a missing one as missing.
pub proof fn law_path_view(path: Vec<u8>)
    ensures
        path_view(Some(path)) == Some(path@),
        path_view(None) is None,
{
}

} // verus!
