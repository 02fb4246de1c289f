use vstd::prelude::*;
use std::sync::Arc;
use crate::config::Config;
use crate::failure::{
    at_step, attempted, failed_after_open, failed_at, failed_on, failed_on_submodules,
    failed_to_open, failed_to_prepare, is_missing, GitFailure, Step, SyncError,
};
use crate::git::{
    answer_with_key, clone_into, error_saying, key_credential, open_repository, options_key,
    ssh_key, text_in, text_of,
};
use crate::layout::{joined, key_path_under, remote_url, repository_path};
use crate::submodule::{is_at, select_among, SubmoduleRecord};

verus! {

/// How a working copy came to be ready.
#[derive(Debug, Clone, Copy, PartialEq, Eq, Structural)]
pub enum Origin {
    /// It was on disk and was opened.
    Opened,
    /// Nothing was on disk, and it was cloned from its remote.
    Cloned,
}

/// What was at the place of a working copy before its directory was made
/// ready.
#[derive(Debug, Clone, Copy, PartialEq, Eq, Structural)]
pub enum Occupancy {
    /// Nothing was there.
    Absent,
    /// A directory that held nothing.
    Empty,
    /// Anything else: a directory that held something, or what is no
    /// directory.
    Occupied,
}

/// A repository that is on disk and open, how it came to be so, and where.
pub struct WorkingCopy {
    pub repository: git2::Repository,
    pub origin: Origin,
    pub path: String,
}

/// The parent's and the child's working copies, both on disk and open.
pub struct WorkingDirectory {
    config: Arc<Config>,
    parent: WorkingCopy,
    child: WorkingCopy,
}

/// What a request for credentials is told when the remote address names no
/// user.
pub open spec fn no_user() -> Seq<char> {
    "the remote address names no user"@
}

/// What a request for credentials is told when there is no home directory to
/// find the key under.
pub open spec fn no_key() -> Seq<char> {
    "there is no home directory to find the SSH key under"@
}

/// The answer to a request for credentials for `username` with the private
/// key at `key_path`: what `git2::Cred::ssh_key` makes of the two, with no
/// public key file and no passphrase; an error where the user or the key is
/// wanting.
pub open spec fn credential_for(username: Option<Seq<char>>, key_path: Option<Seq<char>>) -> Result<
    git2::Cred,
    git2::Error,
> {
    match (username, key_path) {
        (None, _) => Err(error_saying(no_user())),
        (Some(_), None) => Err(error_saying(no_key())),
        (Some(user), Some(key)) => key_credential(user, None, key, None),
    }
}

/// Whether a repository that git does not find at a place may be cloned there:
/// only where nothing was, or a directory that held nothing.
pub open spec fn may_clone_into(before: Occupancy) -> bool {
    before != Occupancy::Occupied
}

/// The credential for a fetch: the SSH key at `key_path`, offered for the user
/// that the remote address names; no password, no passphrase, no public key
/// file, no other key. The answer depends on the user and the key alone. An
/// address that names no user gets an error in place of a credential, and so
/// does every request where there is no key.
pub fn ssh_credentials(username: Option<&str>, key_path: Option<&str>) -> (made: Result<
    git2::Cred,
    git2::Error,
>)
    ensures
        made == credential_for(text_of(username), text_of(key_path)),
{
    match username {
        Some(user) => match key_path {
            Some(key) => ssh_key(user, None, key, None),
            None => Err(
                git2::Error::from_str("there is no home directory to find the SSH key under"),
            ),
        },
        None => Err(git2::Error::from_str("the remote address names no user")),
    }
}

impl WorkingDirectory {
    /// The configuration this working directory was brought up from.
    pub closed spec fn config_of(&self) -> Config {
        *self.config
    }

    /// The working copy of the parent repository.
    pub closed spec fn parent_of(&self) -> WorkingCopy {
        self.parent
    }

    /// The working copy of the child repository.
    pub closed spec fn child_of(&self) -> WorkingCopy {
        self.child
    }

    /// Brings up both working copies under `config.working_directory`: the
    /// parent first, then the child. For each, `prepare` is asked to make its
    /// directory ready and to say what was there before; then it is opened
    /// where it is on disk and cloned where it is not, and its submodules are
    /// updated. Fetches authenticate with the SSH key under `home`.
    ///
    /// Either both repositories are ready, each in the directory named after it
    /// under the working directory, and the working directory is handed out; or
    /// the first failure is, naming the repository it struck. Nothing that was
    /// cloned before the failure is taken back.
    ///
    /// The child is not attempted once the parent has failed: its directory is
    /// not even prepared. What is on disk and is no repository is reported as
    /// such, never cloned over.
    pub fn new<P: Fn(&str) -> Result<Occupancy, String>>(
        config: Arc<Config>,
        home: Option<&str>,
        prepare: P,
    ) -> (made: Result<WorkingDirectory, SyncError>)
        requires
            forall|path: &str| call_requires(prepare, (path,)),
        ensures
            match made {
                Ok(ready) => ready.config_of() == *config && ready.parent_of().path@ == joined(
                    config.working_directory@,
                    config.parent.name@,
                ) && ready.child_of().path@ == joined(
                    config.working_directory@,
                    config.child.name@,
                ),
                Err(error) => failed_on(error, config.parent.name@) || failed_on(
                    error,
                    config.child.name@,
                ),
            },
    {
        let key_path = key_path_under(home);
        let key: Option<&str> = match &key_path {
            Some(path) => Some(path.as_str()),
            None => None,
        };
        let parent = Self::open_or_clone_repo(&config, config.parent.name.as_str(), key, &prepare);
        Self::after_parent(config, key, parent, &prepare)
    }

    /// What follows the attempt on the parent. Where it failed, so does this,
    /// with the parent's error, and the child is left alone. Where the parent
    /// is ready, the child is brought up as the parent was, and the two are
    /// put together.
    pub fn after_parent<P: Fn(&str) -> Result<Occupancy, String>>(
        config: Arc<Config>,
        key_path: Option<&str>,
        parent: Result<WorkingCopy, SyncError>,
        prepare: &P,
    ) -> (made: Result<WorkingDirectory, SyncError>)
        requires
            forall|path: &str| call_requires(*prepare, (path,)),
        ensures
            match parent {
                Ok(first) => match made {
                    Ok(ready) => ready.config_of() == *config && ready.parent_of() == first
                        && ready.child_of().path@ == joined(
                        config.working_directory@,
                        config.child.name@,
                    ),
                    Err(error) => failed_on(error, config.child.name@),
                },
                Err(error) => made == Err::<WorkingDirectory, SyncError>(error),
            },
    {
        match parent {
            Ok(first) => {
                let child = Self::open_or_clone_repo(
                    &config,
                    config.child.name.as_str(),
                    key_path,
                    prepare,
                );
                Self::assemble(config, first, child)
            },
            Err(error) => Err(error),
        }
    }

    /// Puts the working directory together once the parent is ready and the
    /// attempt on the child has ended. Where the child failed, so does this, with
    /// the child's error: there is no working directory with one repository.
    ///
    /// Where the child is ready too, both working copies are held as they were
    /// given, together with `config`.
    pub fn assemble(
        config: Arc<Config>,
        parent: WorkingCopy,
        child: Result<WorkingCopy, SyncError>,
    ) -> (made: Result<WorkingDirectory, SyncError>)
        ensures
            match child {
                Ok(opened) => made matches Ok(ready) && ready.config_of() == *config
                    && ready.parent_of() == parent && ready.child_of() == opened,
                Err(error) => made == Err::<WorkingDirectory, SyncError>(error),
            },
    {
        match child {
            Ok(child) => Ok(WorkingDirectory { config, parent, child }),
            Err(error) => Err(error),
        }
    }

    /// The parent repository.
    pub fn parent(&self) -> (repo: &git2::Repository)
        ensures
            *repo == self.parent_of().repository,
    {
        &self.parent.repository
    }

    /// The child repository.
    pub fn child(&self) -> (repo: &git2::Repository)
        ensures
            *repo == self.child_of().repository,
    {
        &self.child.repository
    }

    /// Whether the parent was opened or cloned when this was brought up.
    pub fn parent_origin(&self) -> (origin: Origin)
        ensures
            origin == self.parent_of().origin,
    {
        self.parent.origin
    }

    /// Whether the child was opened or cloned when this was brought up.
    pub fn child_origin(&self) -> (origin: Origin)
        ensures
            origin == self.child_of().origin,
    {
        self.child.origin
    }

    /// The directory the parent lives in.
    pub fn parent_path(&self) -> (path: &str)
        ensures
            path@ == self.parent_of().path@,
    {
        self.parent.path.as_str()
    }

    /// The directory the child lives in.
    pub fn child_path(&self) -> (path: &str)
        ensures
            path@ == self.child_of().path@,
    {
        self.child.path.as_str()
    }

    /// The entry of the parent's submodule table at which the child is
    /// mounted, `config.parent.child_path`. The table is read anew on every
    /// call, and what is made of it is what `select_among` makes of it.
    ///
    /// Fails where the table cannot be read, and where no entry is mounted at
    /// that path; the error then names the path.
    pub fn child_in_parent(&self) -> (found: Result<SubmoduleRecord, SyncError>)
        ensures
            match found {
                Ok(record) => is_at(text_in(record.path), self.config_of().parent.child_path@),
                Err(SyncError::SubmoduleNotFound { path }) => path@
                    == self.config_of().parent.child_path@,
                Err(SyncError::Repository { name, step, .. }) => name@
                    == self.config_of().parent.name@ && step == Step::ListSubmodules,
                Err(SyncError::Directory { .. }) => false,
            },
    {
        let listed = at_step(
            attempted(self.parent.repository.submodules()),
            self.config.parent.name.as_str(),
            Step::ListSubmodules,
        );
        match listed {
            Ok(submodules) => select_among(&submodules, &self.config.parent.child_path),
            Err(error) => Err(error),
        }
    }

    /// How every fetch is carried out: each request for credentials is
    /// answered by `ssh_credentials` with the key at `key_path`, and nothing
    /// else is set.
    pub fn default_fetch_options<'a>(key_path: Option<&'a str>) -> (options: git2::FetchOptions<
        'a,
    >)
        ensures
            options_key(options) == text_of(key_path),
    {
        let mut callbacks = git2::RemoteCallbacks::new();
        answer_with_key(&mut callbacks, key_path);
        let mut options = git2::FetchOptions::new();
        options.remote_callbacks(callbacks);
        options
    }

    /// Makes sure the repository `name` is present in the directory named
    /// after it under the working directory, and hands out the working copy in
    /// that directory. `prepare` is asked to make the directory ready; then the
    /// repository is opened where it is on disk and cloned where nothing is
    /// there, and its submodules are updated either way.
    pub fn open_or_clone_repo<P: Fn(&str) -> Result<Occupancy, String>>(
        config: &Config,
        name: &str,
        key_path: Option<&str>,
        prepare: &P,
    ) -> (ready: Result<WorkingCopy, SyncError>)
        requires
            forall|path: &str| call_requires(*prepare, (path,)),
        ensures
            match ready {
                Ok(copy) => copy.path@ == joined(config.working_directory@, name@),
                Err(error) => failed_on(error, name@),
            },
    {
        let repo_path = repository_path(config.working_directory.as_str(), name);
        let prepared = prepare(repo_path.as_str());
        Self::after_prepare(config, name, repo_path.as_str(), key_path, prepared)
    }

    /// What follows the attempt to make the directory `repo_path` of the
    /// repository `name` ready.
    ///
    /// - It failed: the reason is handed back as a failure of that directory,
    ///   and the repository is neither opened nor cloned.
    /// - It is ready: the repository is opened there, and `after_open` goes on
    ///   with what was at the place before.
    pub fn after_prepare(
        config: &Config,
        name: &str,
        repo_path: &str,
        key_path: Option<&str>,
        prepared: Result<Occupancy, String>,
    ) -> (ready: Result<WorkingCopy, SyncError>)
        ensures
            match prepared {
                Ok(before) => match ready {
                    Ok(copy) => copy.path@ == repo_path@ && (copy.origin == Origin::Cloned
                        ==> may_clone_into(before)),
                    Err(error) => error matches SyncError::Repository { name: named, step, cause }
                        && named@ == name@ && (step == Step::Open && is_missing(cause)
                        ==> !may_clone_into(before)),
                },
                Err(message) => ready matches Err(error) && failed_to_prepare(
                    error,
                    name@,
                    repo_path@,
                    message@,
                ),
            },
    {
        match prepared {
            Ok(before) => {
                let attempt = attempted(open_repository(repo_path));
                Self::after_open(config, name, repo_path, key_path, before, attempt)
            },
            Err(message) => Err(
                SyncError::Directory {
                    name: String::from_str(name),
                    path: String::from_str(repo_path),
                    message,
                },
            ),
        }
    }

    /// What follows the attempt to open the repository `name` at `repo_path`,
    /// where `before` was at that place.
    ///
    /// - It was opened: its submodules are updated, and the handle that was
    ///   opened is the one handed out, marked as opened. Nothing is cloned.
    /// - Git found no repository, and nothing was there or a directory that
    ///   held nothing: it is cloned, and what is handed out is marked as
    ///   cloned.
    /// - Git found no repository, and the place was occupied; or it could not
    ///   be opened for any other reason: what git reported is handed back as a
    ///   failure to open, and nothing is cloned.
    ///
    /// A working copy that is handed out lives at `repo_path`.
    pub fn after_open(
        config: &Config,
        name: &str,
        repo_path: &str,
        key_path: Option<&str>,
        before: Occupancy,
        attempt: Result<git2::Repository, GitFailure>,
    ) -> (ready: Result<WorkingCopy, SyncError>)
        ensures
            match attempt {
                Ok(found) => match ready {
                    Ok(copy) => copy.repository == found && copy.origin == Origin::Opened
                        && copy.path@ == repo_path@,
                    Err(error) => failed_on_submodules(error, name@),
                },
                Err(cause) => if is_missing(cause) && may_clone_into(before) {
                    match ready {
                        Ok(copy) => copy.origin == Origin::Cloned && copy.path@ == repo_path@,
                        Err(error) => failed_after_open(error, name@),
                    }
                } else {
                    ready matches Err(error) && failed_to_open(error, name@, cause)
                },
            },
    {
        match attempt {
            Ok(found) => match Self::update_submodules(&found, name, key_path) {
                Ok(()) => Ok(
                    WorkingCopy {
                        repository: found,
                        origin: Origin::Opened,
                        path: String::from_str(repo_path),
                    },
                ),
                Err(error) => Err(error),
            },
            Err(cause) => {
                let vacant = match before {
                    Occupancy::Occupied => false,
                    _ => true,
                };
                if cause.reports_missing() && vacant {
                    Self::clone_repo(config, name, repo_path, key_path)
                } else {
                    at_step(Err(cause), name, Step::Open)
                }
            },
        }
    }

    /// Clones the repository `name` from `git@<domain>:<owner>/<name>.git`
    /// into `repo_path`, fetching with `default_fetch_options`, then updates
    /// its submodules. The working copy handed out is marked as cloned and
    /// lives at `repo_path`; a failure is reported against `name`, at the clone
    /// or at one of the steps that follow it.
    pub fn clone_repo(config: &Config, name: &str, repo_path: &str, key_path: Option<&str>) -> (cloned:
        Result<WorkingCopy, SyncError>)
        ensures
            match cloned {
                Ok(copy) => copy.origin == Origin::Cloned && copy.path@ == repo_path@,
                Err(error) => failed_after_open(error, name@),
            },
    {
        let url = remote_url(&config.github, name);
        let mut builder = git2::build::RepoBuilder::new();
        builder.fetch_options(Self::default_fetch_options(key_path));
        let attempt = attempted(clone_into(&mut builder, url.as_str(), repo_path));
        Self::after_clone(name, repo_path, key_path, attempt)
    }

    /// What follows the attempt to clone the repository `name` into
    /// `repo_path`.
    ///
    /// - It was cloned: its submodules are updated, and the handle that the
    ///   clone gave is the one handed out, marked as cloned, at `repo_path`.
    ///   A failure to update them is reported in place of the working copy,
    ///   though the clone stays on disk.
    /// - It was not: the reason is handed back as a failure to clone, with what
    ///   git reported, and the submodules are left alone.
    pub fn after_clone(
        name: &str,
        repo_path: &str,
        key_path: Option<&str>,
        attempt: Result<git2::Repository, GitFailure>,
    ) -> (cloned: Result<WorkingCopy, SyncError>)
        ensures
            match attempt {
                Ok(fresh) => match cloned {
                    Ok(copy) => copy.repository == fresh && copy.origin == Origin::Cloned
                        && copy.path@ == repo_path@,
                    Err(error) => failed_on_submodules(error, name@),
                },
                Err(cause) => cloned matches Err(error) && failed_at(
                    error,
                    name@,
                    Step::Clone,
                    cause,
                ),
            },
    {
        match attempt {
            Ok(fresh) => match Self::update_submodules(&fresh, name, key_path) {
                Ok(()) => Ok(
                    WorkingCopy {
                        repository: fresh,
                        origin: Origin::Cloned,
                        path: String::from_str(repo_path),
                    },
                ),
                Err(error) => Err(error),
            },
            Err(cause) => at_step(Err(cause), name, Step::Clone),
        }
    }

    /// Updates every submodule of `repo`, and the submodules of each in turn:
    /// initializes it if need be, fetches what is missing, and checks out the
    /// commit that the containing repository records. Fetches are carried out
    /// as `default_fetch_options` says. The first failure ends the update and
    /// is reported against the repository `name`, as a failure to list the
    /// submodules or to update one.
    pub fn update_submodules(repo: &git2::Repository, name: &str, key_path: Option<&str>) -> (done:
        Result<(), SyncError>)
        ensures
            done matches Err(error) ==> failed_on_submodules(error, name@),
    {
        Self::update_nested(repo, name, key_path, usize::MAX)
    }

    /// `update_submodules`, descending at most `levels` levels below the
    /// submodules of `repo`.
    fn update_nested(
        repo: &git2::Repository,
        name: &str,
        key_path: Option<&str>,
        levels: usize,
    ) -> (done: Result<(), SyncError>)
        ensures
            done matches Err(error) ==> failed_on_submodules(error, name@),
        decreases levels, 1nat,
    {
        match at_step(attempted(repo.submodules()), name, Step::ListSubmodules) {
            Ok(submodules) => Self::update_each(submodules, name, key_path, levels),
            Err(error) => Err(error),
        }
    }

    /// Updates each of `submodules`, the entries listed for one repository, in
    /// the order given, and descends at most `levels` levels below them. It
    /// stops at the first failure, reported against the repository `name`;
    /// with nothing listed there is nothing to fail.
    pub fn update_each<'repo>(
        submodules: Vec<git2::Submodule<'repo>>,
        name: &str,
        key_path: Option<&str>,
        levels: usize,
    ) -> (done: Result<(), SyncError>)
        ensures
            submodules@.len() == 0 ==> done is Ok,
            done matches Err(error) ==> failed_on_submodules(error, name@),
        decreases levels, 0nat,
    {
        let mut entries = submodules;
        let mut i: usize = 0;
        while i < entries.len()
            invariant
                i <= entries.len(),
                entries@.len() == submodules@.len(),
            decreases entries.len() - i,
        {
            let mut options = git2::SubmoduleUpdateOptions::new();
            options.fetch(Self::default_fetch_options(key_path));
            let updated = attempted(entries[i].update(true, Some(&mut options)));
            match at_step(updated, name, Step::UpdateSubmodule) {
                Ok(()) => {},
                Err(error) => {
                    return Err(error);
                },
            }
            if levels > 0 {
                let opened = attempted(entries[i].open());
                match at_step(opened, name, Step::UpdateSubmodule) {
                    Ok(inner) => match Self::update_nested(&inner, name, key_path, levels - 1) {
                        Ok(()) => {},
                        Err(error) => {
                            return Err(error);
                        },
                    },
                    Err(error) => {
                        return Err(error);
                    },
                }
            }
            i += 1;
        }
        Ok(())
    }
}

} // verus!
