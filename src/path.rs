use vstd::prelude::*;
use vstd::string::*;

use crate::errors::ZammError;

verus! {

/// The executable naming convention of a platform family.
#[derive(Clone, Copy, Debug, PartialEq, Eq, Structural)]
pub enum Platform {
    /// Backslash separator, `.exe` suffix.
    Windows,
    /// Slash separator, no suffix.
    Unix,
}

/// Where a worker named `binary` sits, next to a host executable in `dir`.
pub open spec fn executable_path_spec(dir: Seq<char>, binary: Seq<char>, platform: Platform) -> Seq<char> {
    match platform {
        Platform::Windows => dir + seq!['\\'] + binary + seq!['.', 'e', 'x', 'e'],
        Platform::Unix => dir + seq!['/'] + binary,
    }
}

/// Path determinism: the worker's path, a spec function of the host's
/// directory, the worker's name and the platform alone, is the directory, one
/// separator, the name and the platform's executable suffix, in that order.
pub proof fn lemma_path_determinism(dir: Seq<char>, binary: Seq<char>, platform: Platform)
    ensures
        ({
            let p = executable_path_spec(dir, binary, platform);
            let sep = if platform is Windows { '\\' } else { '/' };
            let suffix = if platform is Windows { seq!['.', 'e', 'x', 'e'] } else { Seq::<char>::empty() };
            &&& p.len() == dir.len() + 1 + binary.len() + suffix.len()
            &&& p.subrange(0, dir.len() as int) == dir
            &&& p[dir.len() as int] == sep
            &&& p.subrange(dir.len() + 1 as int, (dir.len() + 1 + binary.len()) as int) == binary
            &&& p.subrange((dir.len() + 1 + binary.len()) as int, p.len() as int) == suffix
        }),
{
    let p = executable_path_spec(dir, binary, platform);
    let n = (dir.len() + 1 + binary.len()) as int;
    assert(p.subrange(0, dir.len() as int) =~= dir);
    assert(p.subrange(dir.len() + 1 as int, n) =~= binary);
    if platform is Windows {
        assert(p.subrange(n, p.len() as int) =~= seq!['.', 'e', 'x', 'e']);
    } else {
        assert(p.subrange(n, p.len() as int) =~= Seq::<char>::empty());
    }
}

/// The message of the failure when the host executable has no parent directory.
pub open spec fn no_exe_dir_message() -> Seq<char> {
    "Could not evaluate executable dir"@
}

/// What resolution yields from the outcome of looking up the host's directory.
pub open spec fn resolved_spec(
    exe_dir: Result<Option<String>, String>,
    binary: Seq<char>,
    platform: Platform,
    r: Result<String, ZammError>,
) -> bool {
    match exe_dir {
        Ok(Some(dir)) => r matches Ok(p) && p@ == executable_path_spec(dir@, binary, platform),
        Ok(None) => r matches Err(ZammError::Tauri { message }) && message@ == no_exe_dir_message(),
        Err(e) => r matches Err(ZammError::Tauri { message }) && message@ == e@,
    }
}

/// Joins a directory and a worker name by the convention of `platform`.
pub fn executable_path(exe_dir: &str, binary: &str, platform: Platform) -> (r: String)
    ensures
        r@ == executable_path_spec(exe_dir@, binary@, platform),
{
    let mut p = String::from_str(exe_dir);
    match platform {
        Platform::Windows => {
            p.append("\\");
            p.append(binary);
            p.append(".exe");
            proof {
                reveal_strlit("\\");
                reveal_strlit(".exe");
            }
        },
        Platform::Unix => {
            p.append("/");
            p.append(binary);
            proof {
                reveal_strlit("/");
            }
        },
    }
    p
}

/// Resolves the worker's path from the outcome of looking up the host's
/// directory: `Ok(Some(dir))` is the directory, `Ok(None)` means the host
/// executable has no parent, `Err(e)` is the lookup's own failure.
pub fn resolve_from(exe_dir: Result<Option<String>, String>, binary: &str, platform: Platform) -> (r: Result<String, ZammError>)
    ensures
        resolved_spec(exe_dir, binary@, platform, r),
{
    match exe_dir {
        Ok(Some(dir)) => Ok(executable_path(dir.as_str(), binary, platform)),
        Ok(None) => {
            let message = String::from_str("Could not evaluate executable dir");
            Err(ZammError::Tauri { message })
        },
        Err(e) => Err(ZammError::Tauri { message: e }),
    }
}

/// Relies on tauri_utils::platform::current_exe: the location of the running
/// host executable, read from the machine. The result is the display text of
/// its parent directory, if it has one, or the text of the lookup's error.
#[verifier::external_body]
fn current_exe_dir() -> (r: Result<Option<String>, String>) {
    match tauri_utils::platform::current_exe() {
        Ok(p) => Ok(p.parent().map(|d| d.display().to_string())),
        Err(e) => Err(e.to_string()),
    }
}

/// Relies on std::path::MAIN_SEPARATOR, which the documentation gives as `\`
/// on Windows and `/` elsewhere.
#[verifier::external_body]
fn main_separator() -> (r: char)
    ensures
        r == '\\' || r == '/',
{
    std::path::MAIN_SEPARATOR
}

/// The platform family whose paths are separated by `sep`.
pub open spec fn platform_of_separator_spec(sep: char) -> Platform {
    if sep == '\\' {
        Platform::Windows
    } else {
        Platform::Unix
    }
}

/// The platform family whose paths are separated by `sep`: backslash for
/// Windows, anything else for Unix.
pub fn platform_of_separator(sep: char) -> (r: Platform)
    ensures
        r == platform_of_separator_spec(sep),
{
    if sep == '\\' {
        Platform::Windows
    } else {
        Platform::Unix
    }
}

/// The naming convention of the platform this library was built for, read
/// from its path separator.
pub fn host_platform() -> (r: Platform)
    ensures
        r == platform_of_separator_spec('\\') || r == platform_of_separator_spec('/'),
{
    platform_of_separator(main_separator())
}

/// The expected absolute path of the worker `command`, beside the running
/// host executable. Pure path arithmetic: nothing on disk is checked.
pub fn relative_command_path(command: &str) -> (r: Result<String, ZammError>)
    ensures
        exists|exe_dir: Result<Option<String>, String>, platform: Platform|
            resolved_spec(exe_dir, command@, platform, r),
{
    let exe_dir = current_exe_dir();
    let platform = host_platform();
    resolve_from(exe_dir, command, platform)
}

} // verus!
