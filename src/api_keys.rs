use vstd::prelude::*;
use vstd::rwlock::{RwLock, RwLockPredicate};
use vstd::string::*;

use crate::errors::ZammResult;

verus! {

/// An outside service whose API key the host keeps.
#[derive(Clone, Copy, Debug, PartialEq, Eq, Structural)]
pub enum Service {
    OpenAI,
}

/// The API keys known to the host, one per service.
#[derive(Debug)]
pub struct ApiKeys {
    pub openai: Option<String>,
}

impl PartialEq for ApiKeys {
    fn eq(&self, other: &ApiKeys) -> (r: bool) {
        match (&self.openai, &other.openai) {
            (Some(x), Some(y)) => x.eq(y),
            (None, None) => true,
            _ => false,
        }
    }
}

impl vstd::std_specs::cmp::PartialEqSpecImpl for ApiKeys {
    open spec fn obeys_eq_spec() -> bool {
        true
    }

    open spec fn eq_spec(&self, other: &ApiKeys) -> bool {
        match (self.openai, other.openai) {
            (Some(x), Some(y)) => x@ == y@,
            (None, None) => true,
            _ => false,
        }
    }
}

impl Default for ApiKeys {
    fn default() -> (r: ApiKeys)
        ensures
            r.openai is None,
    {
        ApiKeys { openai: None }
    }
}

impl ApiKeys {
    /// Sets the key of `service` to `key`.
    pub fn update(&mut self, service: &Service, key: String)
        ensures
            final(self).openai == Some(key),
    {
        match service {
            Service::OpenAI => self.openai = Some(key),
        }
    }

    /// Forgets the key of `service`.
    pub fn remove(&mut self, service: &Service)
        ensures
            final(self).openai is None,
    {
        match service {
            Service::OpenAI => self.openai = None,
        }
    }

    /// A copy of these keys.
    pub fn copy(&self) -> (r: ApiKeys)
        ensures
            r == *self,
    {
        let openai = match &self.openai {
            Some(k) => Some(k.clone()),
            None => None,
        };
        ApiKeys { openai }
    }

    /// Records `api_key` for `service`; an empty key removes the service's key.
    pub fn apply_key(&mut self, service: &Service, api_key: String)
        ensures
            api_key@.len() == 0 ==> final(self).openai is None,
            api_key@.len() > 0 ==> final(self).openai == Some(api_key),
    {
        if api_key.as_str().is_empty() {
            self.remove(service);
        } else {
            self.update(service, api_key);
        }
    }
}

/// What the lock demands of the keys it holds: any set of keys will do.
pub struct AnyKeys;

impl RwLockPredicate<ApiKeys> for AnyKeys {
    open spec fn inv(self, keys: ApiKeys) -> bool {
        true
    }
}

/// The host's API keys, shared between concurrent commands behind a lock.
pub struct ZammApiKeys {
    lock: RwLock<ApiKeys, AnyKeys>,
}

impl ZammApiKeys {
    /// Puts `keys` behind a fresh lock.
    pub fn new(keys: ApiKeys) -> (r: ZammApiKeys) {
        ZammApiKeys { lock: RwLock::new(keys, Ghost(AnyKeys)) }
    }
}

/// A snapshot of the keys held at the moment the lock was taken. Other
/// commands share the keys, so their contents at that moment are not stated.
pub fn get_api_keys_helper(zamm_api_keys: &ZammApiKeys) -> (r: ApiKeys) {
    let handle = zamm_api_keys.lock.acquire_read();
    let keys = handle.borrow().copy();
    handle.release_read();
    keys
}

/// Records `api_key` for `service` in `keys` (an empty key removes it),
/// whether or not writing it to disk succeeded, and hands back the outcome of
/// that write.
pub fn set_api_key_in(
    keys: &mut ApiKeys,
    service: &Service,
    api_key: String,
    init_update_result: ZammResult<()>,
) -> (r: ZammResult<()>)
    ensures
        r == init_update_result,
        api_key@.len() == 0 ==> final(keys).openai is None,
        api_key@.len() > 0 ==> final(keys).openai == Some(api_key),
{
    keys.apply_key(service, api_key);
    init_update_result
}

/// Records `api_key` for `service` in the shared keys, under the lock, as
/// `set_api_key_in` does, and hands back the outcome of writing it to disk.
/// What the shared keys hold afterwards is not stated: other commands may
/// change them as soon as the lock is released.
pub fn set_api_key_helper(
    zamm_api_keys: &ZammApiKeys,
    service: &Service,
    api_key: String,
    init_update_result: ZammResult<()>,
) -> (r: ZammResult<()>)
    ensures
        r == init_update_result,
{
    let (mut keys, handle) = zamm_api_keys.lock.acquire_write();
    let r = set_api_key_in(&mut keys, service, api_key, init_update_result);
    handle.release_write(keys);
    r
}

/// The line that exports `key` as the OpenAI API key, with its newline.
pub open spec fn export_line(key: Seq<char>) -> Seq<char> {
    "export OPENAI_API_KEY=\""@ + key + "\"\n"@
}

/// The characters of an optional text.
pub open spec fn text_of(s: Option<&str>) -> Option<Seq<char>> {
    match s {
        Some(t) => Some(t@),
        None => None,
    }
}

/// Whether `text` ends in a newline.
pub open spec fn ends_in_newline(text: Seq<char>) -> bool {
    text.len() > 0 && text.last() == '\n'
}

/// What is appended to a shell init file whose contents are `existing`
/// (`None`: no such file yet), so that it exports `key` on a line of its own.
pub open spec fn init_file_addition_spec(existing: Option<Seq<char>>, key: Seq<char>) -> Seq<char> {
    match existing {
        Some(text) if !ends_in_newline(text) => seq!['\n'] + export_line(key),
        _ => export_line(key),
    }
}

/// The text of `s` without leading and trailing whitespace.
pub uninterp spec fn trim_of(s: Seq<char>) -> Seq<char>;

/// Relies on str::trim: the result depends on the characters of `s` alone.
#[verifier::external_body]
fn trim(s: &str) -> (r: &str)
    ensures
        r@ == trim_of(s@),
{
    s.trim()
}

/// The shell init file to write `api_key` to, if any: none for an empty key,
/// for no file name or for one that is blank.
pub open spec fn init_file_target_spec(filename: Option<Seq<char>>, api_key: Seq<char>) -> Option<Seq<char>> {
    if api_key.len() == 0 {
        None
    } else {
        match filename {
            Some(f) => if trim_of(f).len() == 0 {
                None
            } else {
                Some(trim_of(f))
            },
            None => None,
        }
    }
}

/// Decides which shell init file, if any, the key is written to.
pub fn init_file_target(filename: Option<&str>, api_key: &str) -> (r: Option<String>)
    ensures
        r matches Some(f) ==> init_file_target_spec(text_of(filename), api_key@) == Some(f@),
        r is None ==> init_file_target_spec(text_of(filename), api_key@) is None,
{
    if api_key.is_empty() {
        return None;
    }
    match filename {
        Some(untrimmed) => {
            let f = trim(untrimmed);
            if f.is_empty() {
                None
            } else {
                Some(String::from_str(f))
            }
        },
        None => None,
    }
}

/// The text to append to a shell init file whose contents are `existing`
/// (`None`: the file does not exist yet) so that it exports `api_key`.
pub fn init_file_addition(existing: Option<&str>, api_key: &str) -> (r: String)
    ensures
        r@ == init_file_addition_spec(text_of(existing), api_key@),
{
    let needs_newline = match existing {
        Some(text) => {
            let n = text.unicode_len();
            n == 0 || text.get_char(n - 1) != '\n'
        },
        None => false,
    };
    let mut out = String::new();
    if needs_newline {
        out.append("\n");
    }
    out.append("export OPENAI_API_KEY=\"");
    out.append(api_key);
    out.append("\"\n");
    proof {
        reveal_strlit("\n");
        if needs_newline {
            assert(out@ =~= seq!['\n'] + export_line(api_key@));
        } else {
            assert(out@ =~= export_line(api_key@));
        }
    }
    out
}

} // verus!
