use vstd::prelude::*;

verus! {

/// `git2::Repository`: a handle on a repository on disk. Nothing inside it is
/// visible to the verifier.
#[verifier::external_type_specification]
#[verifier::external_body]
pub struct ExRepository(git2::Repository);

/// `git2::Error`: what a failed call into git2 hands back. Opaque; its code and
/// message are read through `git2::Error::code` and `git2::Error::message`.
#[verifier::external_type_specification]
#[verifier::external_body]
pub struct ExError(git2::Error);

/// `git2::ErrorCode`: the kind of a git2 error, an enum of unit variants. Its
/// variants are left visible, so that verified code can tell them apart.
#[verifier::external_type_specification]
pub struct ExErrorCode(git2::ErrorCode);

/// `git2::Submodule`: one entry of a repository's submodule table. Opaque.
#[verifier::external_type_specification]
#[verifier::external_body]
pub struct ExSubmodule<'repo>(git2::Submodule<'repo>);

/// `git2::FetchOptions`: how a fetch is carried out, credentials included.
/// Opaque.
#[verifier::external_type_specification]
#[verifier::external_body]
pub struct ExFetchOptions<'cb>(git2::FetchOptions<'cb>);

/// `git2::RemoteCallbacks`: the callbacks a fetch may invoke. Opaque.
#[verifier::external_type_specification]
#[verifier::external_body]
pub struct ExRemoteCallbacks<'a>(git2::RemoteCallbacks<'a>);

/// `git2::build::RepoBuilder`: the settings of a clone. Opaque.
#[verifier::external_type_specification]
#[verifier::external_body]
pub struct ExRepoBuilder<'cb>(git2::build::RepoBuilder<'cb>);

/// `git2::SubmoduleUpdateOptions`: the settings of a submodule update. Opaque.
#[verifier::external_type_specification]
#[verifier::external_body]
pub struct ExSubmoduleUpdateOptions<'cb>(git2::SubmoduleUpdateOptions<'cb>);

/// `git2::Cred`: a credential offered to a remote. Opaque.
#[verifier::external_type_specification]
#[verifier::external_body]
pub struct ExCred(git2::Cred);

/// The text of `text`, where there is one.
pub open spec fn text_of(text: Option<&str>) -> Option<Seq<char>> {
    match text {
        Some(held) => Some(held@),
        None => None,
    }
}

/// The text that `text` holds, where it holds one.
pub open spec fn text_in(text: Option<String>) -> Option<Seq<char>> {
    match text {
        Some(held) => Some(held@),
        None => None,
    }
}

/// The code that a git2 error holds.
pub uninterp spec fn code_held(error: git2::Error) -> git2::ErrorCode;

/// The message that a git2 error holds.
pub uninterp spec fn text_held(error: git2::Error) -> Seq<char>;

/// `git2::Error::code`, which reads the code out of the error: it depends on
/// the error alone.
pub assume_specification[ git2::Error::code ](error: &git2::Error) -> (code: git2::ErrorCode)
    ensures
        code == code_held(*error),
;

/// `git2::Error::message`, which hands out the message that the error holds:
/// it depends on the error alone.
pub assume_specification<'a>[ git2::Error::message ](error: &'a git2::Error) -> (text: &'a str)
    ensures
        text@ == text_held(*error),
;

/// The error that `git2::Error::from_str` makes of `text`.
pub uninterp spec fn error_saying(text: Seq<char>) -> git2::Error;

/// `git2::Error::from_str`, which makes a generic error with `text` as its
/// message and nothing else in it: the error depends on `text` alone.
pub assume_specification[ git2::Error::from_str ](text: &str) -> (error: git2::Error)
    ensures
        error == error_saying(text@),
;

/// `git2::Repository::submodules`, which reads the submodule table from disk.
/// Nothing is claimed of what it lists, nor of whether it succeeds.
pub assume_specification<'a>[ git2::Repository::submodules ](repo: &'a git2::Repository) -> (listed:
    Result<Vec<git2::Submodule<'a>>, git2::Error>)
;

/// `git2::Submodule::open`, which opens the checked-out repository of a
/// submodule. Nothing is claimed of whether it succeeds.
pub assume_specification<'repo>[ git2::Submodule::<'repo>::open ](
    submodule: &git2::Submodule<'repo>,
) -> (opened: Result<git2::Repository, git2::Error>)
;

/// The address that an entry of a submodule table holds, where it holds one
/// that is text.
pub uninterp spec fn url_held(submodule: git2::Submodule<'_>) -> Option<Seq<char>>;

/// The path that an entry of a submodule table holds, where it is text.
pub uninterp spec fn path_held(submodule: git2::Submodule<'_>) -> Option<Seq<char>>;

/// `git2::Submodule::url`, which reads the address that the entry holds: an
/// address comes back exactly where the entry holds one that is text, and it
/// depends on the entry alone.
pub assume_specification<'repo, 'a>[ git2::Submodule::<'repo>::url ](
    submodule: &'a git2::Submodule<'repo>,
) -> (url: Result<Option<&'a str>, git2::Error>)
    ensures
        match url {
            Ok(Some(address)) => url_held(*submodule) == Some(address@),
            _ => url_held(*submodule) is None,
        },
;

/// The private key with which these callbacks answer a request for
/// credentials, as `answer_with_key` set it: `None` where they were given no
/// key and refuse every request.
pub uninterp spec fn callbacks_key(callbacks: git2::RemoteCallbacks<'_>) -> Option<Seq<char>>;

/// The private key with which a fetch under these options answers a request
/// for credentials: that of the callbacks they were given.
pub uninterp spec fn options_key(options: git2::FetchOptions<'_>) -> Option<Seq<char>>;

/// What `git2::Cred::ssh_key` makes of a user name, the paths of a public and
/// a private key, and a passphrase.
pub uninterp spec fn key_credential(
    username: Seq<char>,
    publickey: Option<Seq<char>>,
    privatekey: Seq<char>,
    passphrase: Option<Seq<char>>,
) -> Result<git2::Cred, git2::Error>;

/// `git2::RemoteCallbacks::new`. Nothing is claimed of the callbacks.
pub assume_specification<'a>[ git2::RemoteCallbacks::<'a>::new ]() -> (callbacks:
    git2::RemoteCallbacks<'a>)
;

/// `git2::FetchOptions::new`. Nothing is claimed of the options.
pub assume_specification<'cb>[ git2::FetchOptions::<'cb>::new ]() -> (options: git2::FetchOptions<
    'cb,
>)
;

/// `git2::FetchOptions::remote_callbacks`, which stores the callbacks in the
/// options: afterwards the options answer with the key of those callbacks.
pub assume_specification<'cb, 'a>[ git2::FetchOptions::<'cb>::remote_callbacks ](
    options: &'a mut git2::FetchOptions<'cb>,
    callbacks: git2::RemoteCallbacks<'cb>,
) -> (same: &'a mut git2::FetchOptions<'cb>)
    ensures
        options_key(*final(options)) == callbacks_key(callbacks),
;

/// `git2::build::RepoBuilder::new`. Nothing is claimed of the builder.
pub assume_specification<'cb>[ git2::build::RepoBuilder::<'cb>::new ]() -> (builder:
    git2::build::RepoBuilder<'cb>)
;

/// `git2::build::RepoBuilder::fetch_options`. Nothing is claimed of the builder
/// afterwards.
pub assume_specification<'cb, 'a>[ git2::build::RepoBuilder::<'cb>::fetch_options ](
    builder: &'a mut git2::build::RepoBuilder<'cb>,
    fetch_opts: git2::FetchOptions<'cb>,
) -> (same: &'a mut git2::build::RepoBuilder<'cb>)
;

/// `git2::SubmoduleUpdateOptions::new`. Nothing is claimed of the options.
pub assume_specification<'cb>[ git2::SubmoduleUpdateOptions::<'cb>::new ]() -> (options:
    git2::SubmoduleUpdateOptions<'cb>)
;

/// `git2::SubmoduleUpdateOptions::fetch`. Nothing is claimed of the options
/// afterwards.
pub assume_specification<'cb, 'a>[ git2::SubmoduleUpdateOptions::<'cb>::fetch ](
    options: &'a mut git2::SubmoduleUpdateOptions<'cb>,
    opts: git2::FetchOptions<'cb>,
) -> (same: &'a mut git2::SubmoduleUpdateOptions<'cb>)
;

/// `git2::Submodule::update`, which initializes the submodule where `init` is
/// set, fetches what is missing and checks out the recorded commit. The outcome
/// depends on the network and the disk, so nothing is claimed of it.
pub assume_specification<'repo, 'a, 'b, 'c>[ git2::Submodule::<'repo>::update ](
    entry: &'a mut git2::Submodule<'repo>,
    init: bool,
    opts: Option<&'b mut git2::SubmoduleUpdateOptions<'c>>,
) -> (updated: Result<(), git2::Error>)
;

/// Calls `git2::Repository::open` on `path`. The outcome depends on what is on
/// disk, so nothing is claimed of it.
#[verifier::external_body]
pub(crate) fn open_repository(path: &str) -> (opened: Result<git2::Repository, git2::Error>) {
    git2::Repository::open(path)
}

/// Calls `git2::Cred::ssh_key`, which copies the user name, the paths of the
/// two keys and the passphrase into a credential and reads no file: what
/// comes back depends on these four alone.
#[verifier::external_body]
pub(crate) fn ssh_key(
    username: &str,
    publickey: Option<&str>,
    privatekey: &str,
    passphrase: Option<&str>,
) -> (made: Result<git2::Cred, git2::Error>)
    ensures
        made == key_credential(username@, text_of(publickey), privatekey@, text_of(passphrase)),
{
    let publickey = publickey.map(std::path::Path::new);
    git2::Cred::ssh_key(username, publickey, std::path::Path::new(privatekey), passphrase)
}

/// Calls `git2::RemoteCallbacks::credentials`, so that every request for
/// credentials is answered by `ssh_credentials` with `key_path`: afterwards
/// the callbacks answer with that key.
#[verifier::external_body]
pub(crate) fn answer_with_key<'a>(
    callbacks: &mut git2::RemoteCallbacks<'a>,
    key_path: Option<&'a str>,
)
    ensures
        callbacks_key(*final(callbacks)) == text_of(key_path),
{
    callbacks.credentials(
        move |_url, username, _allowed| crate::working_directory::ssh_credentials(username, key_path),
    );
}

/// Calls `git2::build::RepoBuilder::clone`: clones `url` into the directory
/// `path` as `builder` says. The outcome depends on the network and the disk,
/// so nothing is claimed of it.
#[verifier::external_body]
pub(crate) fn clone_into<'cb>(
    builder: &mut git2::build::RepoBuilder<'cb>,
    url: &str,
    path: &str,
) -> (cloned: Result<git2::Repository, git2::Error>) {
    builder.clone(url, std::path::Path::new(path))
}

/// Calls `git2::Submodule::path` and hands the path back as text, where it is
/// text: it is the path that the entry holds, and depends on the entry alone.
#[verifier::external_body]
pub(crate) fn path_of<'repo>(submodule: &git2::Submodule<'repo>) -> (path: Option<String>)
    ensures
        text_in(path) == path_held(*submodule),
{
    submodule.path().to_str().map(String::from)
}

} // verus!
