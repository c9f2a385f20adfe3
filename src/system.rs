use vstd::prelude::*;
use vstd::string::*;

verus! {

/// An operating system the host knows how to set up.
#[derive(Clone, Copy, Debug, PartialEq, Eq, Structural)]
pub enum OS {
    MacOS,
    Linux,
}

/// A shell the host knows how to set up.
#[derive(Clone, Copy, Debug, PartialEq, Eq, Structural)]
pub enum Shell {
    Bash,
    Zsh,
}

/// What the host found out about the machine it runs on.
#[derive(Debug)]
pub struct SystemInfo {
    pub os: Option<OS>,
    pub shell: Option<Shell>,
    pub shell_init_file: Option<String>,
}

/// Whether two optional texts are the same.
pub open spec fn same_text(a: Option<String>, b: Option<String>) -> bool {
    match (a, b) {
        (Some(x), Some(y)) => x@ == y@,
        (None, None) => true,
        _ => false,
    }
}

impl PartialEq for SystemInfo {
    fn eq(&self, other: &SystemInfo) -> (r: bool) {
        let same_file = match (&self.shell_init_file, &other.shell_init_file) {
            (Some(x), Some(y)) => x.eq(y),
            (None, None) => true,
            _ => false,
        };
        let same_os = match (self.os, other.os) {
            (Some(x), Some(y)) => x == y,
            (None, None) => true,
            _ => false,
        };
        let same_shell = match (self.shell, other.shell) {
            (Some(x), Some(y)) => x == y,
            (None, None) => true,
            _ => false,
        };
        same_os && same_shell && same_file
    }
}

impl vstd::std_specs::cmp::PartialEqSpecImpl for SystemInfo {
    open spec fn obeys_eq_spec() -> bool {
        true
    }

    open spec fn eq_spec(&self, other: &SystemInfo) -> bool {
        self.os == other.os && self.shell == other.shell && same_text(self.shell_init_file, other.shell_init_file)
    }
}

/// Whether `s` ends with `suffix`.
pub open spec fn has_suffix(s: Seq<char>, suffix: Seq<char>) -> bool {
    s.len() >= suffix.len() && s.subrange(s.len() - suffix.len(), s.len() as int) == suffix
}

/// Whether `s` ends with `suffix`, character by character.
pub fn ends_with(s: &str, suffix: &str) -> (r: bool)
    ensures
        r == has_suffix(s@, suffix@),
{
    let n = s.unicode_len();
    let m = suffix.unicode_len();
    if m > n {
        return false;
    }
    let offset = n - m;
    let mut i: usize = 0;
    while i < m
        invariant
            n == s@.len(),
            m == suffix@.len(),
            offset == n - m,
            0 <= i <= m,
            forall|j: int| 0 <= j < i ==> s@[offset + j] == suffix@[j],
        decreases m - i,
    {
        if s.get_char(offset + i) != suffix.get_char(i) {
            proof {
                let tail = s@.subrange(offset as int, n as int);
                assert(tail[i as int] == s@[offset + i]);
            }
            return false;
        }
        i += 1;
    }
    proof {
        assert(s@.subrange(offset as int, n as int) =~= suffix@);
    }
    true
}

/// The shell that the login shell's path `shell_var` names, if it is one of
/// those the host knows.
pub open spec fn shell_spec(shell_var: Option<Seq<char>>) -> Option<Shell> {
    match shell_var {
        Some(s) => if has_suffix(s, "/zsh"@) {
            Some(Shell::Zsh)
        } else if has_suffix(s, "/bash"@) {
            Some(Shell::Bash)
        } else {
            None
        },
        None => None,
    }
}

/// Determines the user's shell from the value of the login-shell variable
/// (`None` where it is unset).
pub fn get_shell(shell_var: Option<&str>) -> (r: Option<Shell>)
    ensures
        r == shell_spec(
            match shell_var {
                Some(s) => Some(s@),
                None => None,
            },
        ),
{
    match shell_var {
        Some(shell) => {
            if ends_with(shell, "/zsh") {
                Some(Shell::Zsh)
            } else if ends_with(shell, "/bash") {
                Some(Shell::Bash)
            } else {
                None
            }
        },
        None => None,
    }
}

/// The shell init file, relative to the home directory, that a login shell
/// reads on `os`.
pub open spec fn relative_shell_init_file_spec(os: Option<OS>) -> Option<Seq<char>> {
    match os {
        Some(OS::Linux) => Some("~/.profile"@),
        Some(OS::MacOS) => Some("~/.bash_profile"@),
        None => None,
    }
}

/// The shell init file, relative to the home directory, for `os`.
pub fn get_relative_shell_init_file(os: Option<OS>) -> (r: Option<String>)
    ensures
        r matches Some(f) ==> relative_shell_init_file_spec(os) == Some(f@),
        r is None ==> relative_shell_init_file_spec(os) is None,
{
    match os {
        Some(OS::Linux) => Some(String::from_str("~/.profile")),
        Some(OS::MacOS) => Some(String::from_str("~/.bash_profile")),
        None => None,
    }
}

} // verus!
