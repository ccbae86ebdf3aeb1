//! Where public parameters and compression keys are looked for: at the path the
//! caller names, or else under the cache directory, at a name that follows from
//! what is looked for.

use crate::file_names::{format_key_file, format_params_file, key_file_name, params_file_name};
use crate::scheme::NovaImpl;
use std::path::PathBuf;
use vstd::prelude::*;

verus! {

/// `std::path::PathBuf`, carried through as it comes. Nothing is known of what
/// one holds but through `path_text` and `joined_path`.
#[verifier::external_type_specification]
#[verifier::external_body]
pub struct ExPathBuf(std::path::PathBuf);

/// The text of a path, where it has one: what `Path::to_str` yields.
pub uninterp spec fn path_text(path: PathBuf) -> Option<Seq<char>>;

/// A directory with one more name adjoined: what `Path::join` yields. How a
/// name is adjoined (the separator, a name that is absolute by itself) is the
/// platform's affair; on one platform it is a function of the two arguments.
pub uninterp spec fn joined_path(base: PathBuf, name: Seq<char>) -> PathBuf;

/// Calls `Path::to_str`, which yields the path as text where it is valid
/// Unicode and nothing where it is not. The contract gives that result its
/// name and claims no more.
#[verifier::external_body]
fn path_as_str(path: &PathBuf) -> (text: Option<&str>)
    ensures
        path_text(*path) == match text {
            Some(t) => Some(t@),
            None => None::<Seq<char>>,
        },
{
    path.to_str()
}

/// Calls `Path::join`, which adjoins a name to a path and reads nothing but its
/// two arguments. The contract gives that result its name and claims no more.
#[verifier::external_body]
fn path_join(base: &PathBuf, name: &str) -> (joined: PathBuf)
    ensures
        joined == joined_path(*base, name@),
{
    base.join(name)
}

/// `PathBuf::clone` returns a copy of the path: one that is the same path.
pub assume_specification[ <PathBuf as Clone>::clone ](path: &PathBuf) -> (copy: PathBuf)
    ensures
        copy == *path,
;

/// Why a path could not be settled.
#[derive(Clone, Copy, Debug, PartialEq, Eq, Structural)]
pub enum ConfigError {
    /// No path was named and no cache directory is to be had.
    NoCacheRoot,
    /// The path is not text.
    NotText,
}

/// The text of a path, or the reason there is none.
pub open spec fn text_of(path: PathBuf) -> Result<Seq<char>, ConfigError> {
    match path_text(path) {
        Some(text) => Ok(text),
        None => Err(ConfigError::NotText),
    }
}

/// The path that is settled on: the explicit one as it stands where there is
/// one, else the file of the given name under the cache directory.
pub open spec fn resolved(
    explicit: Option<PathBuf>,
    cache_root: Option<PathBuf>,
    file_name: Seq<char>,
) -> Result<Seq<char>, ConfigError> {
    match explicit {
        Some(path) => text_of(path),
        None => match cache_root {
            Some(root) => text_of(joined_path(root, file_name)),
            None => Err(ConfigError::NoCacheRoot),
        },
    }
}

/// Whether a returned path says what a settled one should.
pub open spec fn agrees(got: Result<String, ConfigError>, want: Result<Seq<char>, ConfigError>) -> bool {
    match want {
        Ok(text) => got is Ok && got->Ok_0@ == text,
        Err(error) => got == Err::<String, ConfigError>(error),
    }
}

/// What was asked of a path for its text, as a path that is settled: the text
/// in a string of its own, or the refusal of a path that has none.
pub fn require_text(text: Option<&str>) -> (path: Result<String, ConfigError>)
    ensures
        match text {
            Some(t) => path is Ok && path->Ok_0@ == t@,
            None => path == Err::<String, ConfigError>(ConfigError::NotText),
        },
{
    match text {
        Some(t) => Ok(t.to_owned()),
        None => Err(ConfigError::NotText),
    }
}

/// The text of a path, or the reason there is none.
fn path_to_string(path: &PathBuf) -> (text: Result<String, ConfigError>)
    ensures
        agrees(text, text_of(*path)),
{
    require_text(path_as_str(path))
}

/// Whether a path is text.
pub(crate) fn has_text(path: &PathBuf) -> (text: bool)
    ensures
        text == (text_of(*path) is Ok),
{
    path_as_str(path).is_some()
}

/// Settles on a path: the explicit one, taken verbatim, where the caller named
/// one; else the file of the given name under the cache directory. Nothing on
/// disk is looked at.
pub fn resolve(explicit: &Option<PathBuf>, cache_root: &Option<PathBuf>, file_name: &str) -> (path: Result<
    String,
    ConfigError,
>)
    ensures
        agrees(path, resolved(*explicit, *cache_root, file_name@)),
{
    match explicit {
        Some(path) => path_to_string(path),
        None => match cache_root {
            Some(root) => {
                let joined = path_join(root, file_name);
                path_to_string(&joined)
            },
            None => Err(ConfigError::NoCacheRoot),
        },
    }
}

/// The path settled on for the public parameters of one kind and size.
pub open spec fn resolved_params(
    explicit: Option<PathBuf>,
    cache_root: Option<PathBuf>,
    nova_impl: NovaImpl,
    k: nat,
) -> Result<Seq<char>, ConfigError> {
    resolved(explicit, cache_root, params_file_name(nova_impl, k))
}

/// The path settled on for the compression key of one size.
pub open spec fn resolved_key(explicit: Option<PathBuf>, cache_root: Option<PathBuf>, k: nat) -> Result<
    Seq<char>,
    ConfigError,
> {
    resolved(explicit, cache_root, key_file_name(k))
}

/// Settles on the path of the public parameters of one kind and size.
pub fn resolve_params_path(
    explicit: &Option<PathBuf>,
    cache_root: &Option<PathBuf>,
    nova_impl: NovaImpl,
    k: usize,
) -> (path: Result<String, ConfigError>)
    ensures
        agrees(path, resolved_params(*explicit, *cache_root, nova_impl, k as nat)),
{
    match explicit {
        Some(path) => path_to_string(path),
        None => {
            let file_name = format_params_file(nova_impl, k);
            resolve(explicit, cache_root, file_name.as_str())
        },
    }
}

/// Settles on the path of the compression key of one size.
pub fn resolve_key_path(explicit: &Option<PathBuf>, cache_root: &Option<PathBuf>, k: usize) -> (path: Result<
    String,
    ConfigError,
>)
    ensures
        agrees(path, resolved_key(*explicit, *cache_root, k as nat)),
{
    match explicit {
        Some(path) => path_to_string(path),
        None => {
            let file_name = format_key_file(k);
            resolve(explicit, cache_root, file_name.as_str())
        },
    }
}

/// An explicit path always wins, and comes back as it stands: whatever the
/// cache directory and whatever the file looked for.
pub proof fn law_explicit_path_is_kept(
    path: PathBuf,
    cache_root: Option<PathBuf>,
    file_name: Seq<char>,
    other_root: Option<PathBuf>,
    other_name: Seq<char>,
)
    ensures
        resolved(Some(path), cache_root, file_name) == text_of(path),
        resolved(Some(path), cache_root, file_name) == resolved(Some(path), other_root, other_name),
        path_text(path) is Some ==> resolved(Some(path), cache_root, file_name) == Ok::<
            Seq<char>,
            ConfigError,
        >(path_text(path)->0),
{
}

/// Settling a path is a pure function of its inputs: any two results that it
/// may return for the same explicit path, cache directory and file name are
/// the same text, or the same error.
pub proof fn law_resolution_is_pure(
    first: Result<String, ConfigError>,
    second: Result<String, ConfigError>,
    explicit: Option<PathBuf>,
    cache_root: Option<PathBuf>,
    file_name: Seq<char>,
)
    requires
        agrees(first, resolved(explicit, cache_root, file_name)),
        agrees(second, resolved(explicit, cache_root, file_name)),
    ensures
        first is Ok <==> second is Ok,
        first is Ok ==> first->Ok_0@ == second->Ok_0@,
        first is Err ==> first == second,
{
}

/// Without an explicit path, the path is that of the named file under the
/// cache directory, and there is none without a cache directory.
pub proof fn law_default_path_is_under_cache(cache_root: Option<PathBuf>, file_name: Seq<char>)
    ensures
        cache_root matches Some(root) ==> resolved(None, cache_root, file_name) == text_of(
            joined_path(root, file_name),
        ),
        cache_root is None ==> resolved(None, cache_root, file_name) == Err::<Seq<char>, ConfigError>(
            ConfigError::NoCacheRoot,
        ),
{
}

} // verus!
