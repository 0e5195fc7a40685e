//! The options of a build, and the defaults for what they leave open.
use crate::text::{
    after_first, skip, spec_after_first, spec_starts_with, spec_tail, spec_trim_ascii, starts_with,
    tail, trim_ascii,
};
use vstd::prelude::*;

verus! {

/// `std::string::FromUtf8Error`, handed on as it came.
#[verifier::external_type_specification]
#[verifier::external_body]
pub struct ExFromUtf8Error(std::string::FromUtf8Error);

/// Errors emitted by various [`CliArgs`] functions.
#[derive(Debug)]
pub enum CliError {
    /// `git` could not be run.
    Io(std::io::Error),
    /// `git` printed what is no UTF-8.
    Utf8Error(std::string::FromUtf8Error),
    /// The working directory has no name.
    UnknownWorkingDirectory,
    /// The repository's name has no `/` after its owner.
    MalformedRepoName(String),
}

/// The options of a build.
///
/// ## Ideal Repo Structure
///
/// The following files/folders are used if they exist in the project's root directory:
///
/// - `Skins/` (required): A folder to contain all necessary Rainmeter skins.
/// - `RMSKIN.ini` (required): A list of options specific to installing the skin(s).
/// - `RMSKIN.bmp` (optional): A header image to add brand recognition when installing
/// - `Layouts/` (optional): A folder that contains Rainmeter layout files.
/// - `Plugins/` (optional): A folder that contains Rainmeter plugins.
/// - `@Vault/` (optional): A resources folder accessible by all installed skins.
#[derive(Debug, Clone)]
pub struct CliArgs {
    /// The path to the git repository containing the Rainmeter project.
    pub path: Option<String>,
    /// The version number of the release.
    version: Option<String>,
    /// The Author of the release.
    author: Option<String>,
    /// The name of the Rainmeter project.
    title: Option<String>,
    /// The directory that receives the rmskin file.
    pub dir_out: Option<String>,
}

/// What the environment of a build says of the release.
#[derive(Debug, Clone)]
pub struct Environment {
    /// `GITHUB_REF`: the branch or tag that the build is for.
    pub github_ref: Option<String>,
    /// `GITHUB_SHA`: the commit that the build is for.
    pub github_sha: Option<String>,
    /// `GITHUB_ACTOR`: who started the build.
    pub github_actor: Option<String>,
    /// `GITHUB_REPOSITORY`: the owner and the name of the repository.
    pub github_repository: Option<String>,
}

/// Name of the environment variable with the repository.
pub const GH_REPO: &'static str = "GITHUB_REPOSITORY";

/// Name of the environment variable with the ref.
pub const GH_REF: &'static str = "GITHUB_REF";

/// Name of the environment variable with the commit.
pub const GH_SHA: &'static str = "GITHUB_SHA";

/// Name of the environment variable with the actor.
pub const GH_ACTOR: &'static str = "GITHUB_ACTOR";

/// What a ref begins with that names a tag.
pub const TAG_PREFIX: &'static str = "refs/tags/";

/// The version of a build of which nothing is known.
pub const UNKNOWN_VERSION: &'static str = "x0x.y0y";

/// How many characters of a commit's hash stand for it.
pub const SHORT_SHA_LEN: usize = 7;

/// A question to `git`.
#[derive(Debug, PartialEq, Eq, Clone, Copy)]
pub enum GitQuery {
    /// `git describe --tags`: the tag that describes the commit.
    DescribeTags,
    /// `git log -1 --format="%h"`: the short hash of the last commit.
    LastCommit,
    /// `git config get user.name`: the name of the user.
    UserName,
}

/// Where a default comes from.
#[derive(Debug)]
pub enum Lookup {
    /// It is known.
    Value(String),
    /// It is what `git` answers.
    Git(GitQuery),
    /// It is the name of the working directory.
    WorkingDirectory,
}

/// The version by the environment, for an environment with a ref: the
/// tag that the ref names, else the last characters of the commit's
/// hash, else the version of which nothing is known.
pub open spec fn spec_version_by_ref(github_ref: Seq<char>, github_sha: Option<Seq<char>>) -> Seq<
    char,
> {
    if spec_starts_with(github_ref, TAG_PREFIX@) {
        github_ref.subrange(TAG_PREFIX@.len() as int, github_ref.len() as int)
    } else {
        match github_sha {
            Some(sha) => spec_tail(sha, SHORT_SHA_LEN as nat),
            None => UNKNOWN_VERSION@,
        }
    }
}

/// The text that `git` printed: its output without the white space
/// around it, which must be UTF-8.
pub open spec fn spec_git_text(stdout: Seq<u8>) -> Option<Seq<char>> {
    if vstd::utf8::valid_utf8(spec_trim_ascii(stdout)) {
        Some(vstd::utf8::decode_utf8(spec_trim_ascii(stdout)))
    } else {
        None
    }
}

/// `String::from_utf8`: the string that the bytes encode, where they are
/// UTF-8.
#[verifier::external_body]
fn string_from_utf8(bytes: Vec<u8>) -> (r: Result<String, std::string::FromUtf8Error>)
    ensures
        r is Ok <==> vstd::utf8::valid_utf8(bytes@),
        r matches Ok(text) ==> text@ == vstd::utf8::decode_utf8(bytes@),
{
    String::from_utf8(bytes)
}

/// The text that `git` printed: its output without the white space
/// around it.
pub fn git_text(stdout: &[u8]) -> (r: Result<String, CliError>)
    ensures
        match spec_git_text(stdout@) {
            Some(text) => r matches Ok(t) && t@ == text,
            None => r matches Err(CliError::Utf8Error(_)),
        },
{
    let trimmed = vstd::slice::slice_to_vec(trim_ascii(stdout));
    match string_from_utf8(trimmed) {
        Ok(text) => Ok(text),
        Err(e) => Err(CliError::Utf8Error(e)),
    }
}

impl GitQuery {
    /// The question to ask where `git` could not be started for this one.
    pub fn fallback(&self) -> (r: Option<GitQuery>)
        ensures
            r == (if *self == GitQuery::DescribeTags {
                Some(GitQuery::LastCommit)
            } else {
                None
            }),
    {
        match self {
            GitQuery::DescribeTags => Some(GitQuery::LastCommit),
            _ => None,
        }
    }

    /// The arguments to `git` for this question.
    pub fn args(&self) -> (r: Vec<&'static str>)
        ensures
            *self == GitQuery::DescribeTags ==> r@.len() == 2 && r@[0]@ == "describe"@ && r@[1]@
                == "--tags"@,
            *self == GitQuery::LastCommit ==> r@.len() == 3 && r@[0]@ == "log"@ && r@[1]@ == "-1"@
                && r@[2]@ == "--format=\"%h\""@,
            *self == GitQuery::UserName ==> r@.len() == 3 && r@[0]@ == "config"@ && r@[1]@ == "get"@
                && r@[2]@ == "user.name"@,
    {
        let mut args: Vec<&'static str> = Vec::new();
        match self {
            GitQuery::DescribeTags => {
                args.push("describe");
                args.push("--tags");
            },
            GitQuery::LastCommit => {
                args.push("log");
                args.push("-1");
                args.push("--format=\"%h\"");
            },
            GitQuery::UserName => {
                args.push("config");
                args.push("get");
                args.push("user.name");
            },
        }
        args
    }
}

impl CliArgs {
    /// Options that leave everything open.
    pub fn new() -> (r: CliArgs)
        ensures
            r.spec_path() is None,
            r.spec_version() is None,
            r.spec_author() is None,
            r.spec_title() is None,
            r.spec_dir_out() is None,
    {
        CliArgs { path: None, version: None, author: None, title: None, dir_out: None }
    }

    /// The path of the project, if one was set.
    pub closed spec fn spec_path(&self) -> Option<Seq<char>> {
        match self.path {
            Some(v) => Some(v@),
            None => None,
        }
    }

    /// The directory for the rmskin file, if one was set.
    pub closed spec fn spec_dir_out(&self) -> Option<Seq<char>> {
        match self.dir_out {
            Some(v) => Some(v@),
            None => None,
        }
    }

    /// The version that was set, if one was.
    pub closed spec fn spec_version(&self) -> Option<Seq<char>> {
        match self.version {
            Some(v) => Some(v@),
            None => None,
        }
    }

    /// The author that was set, if one was.
    pub closed spec fn spec_author(&self) -> Option<Seq<char>> {
        match self.author {
            Some(v) => Some(v@),
            None => None,
        }
    }

    /// The title that was set, if one was.
    pub closed spec fn spec_title(&self) -> Option<Seq<char>> {
        match self.title {
            Some(v) => Some(v@),
            None => None,
        }
    }

    /// Get the version number of the release.
    ///
    /// This will default to the git tag or the last 7 characters of the commit's SHA.
    /// Outside of a GitHub Action workflow, the environment has no ref,
    /// and the version is what `git` says.
    pub fn get_version(&self, env: &Environment) -> (r: Lookup)
        ensures
            match self.spec_version() {
                Some(version) => r matches Lookup::Value(v) && v@ == version,
                None => match env.github_ref {
                    Some(github_ref) => r matches Lookup::Value(v) && v@ == spec_version_by_ref(
                        github_ref@,
                        match env.github_sha {
                            Some(sha) => Some(sha@),
                            None => None,
                        },
                    ),
                    None => r matches Lookup::Git(GitQuery::DescribeTags),
                },
            },
    {
        if let Some(version) = &self.version {
            return Lookup::Value(version.clone());
        }
        if let Some(gh_ref) = &env.github_ref {
            if starts_with(gh_ref.as_str(), TAG_PREFIX) {
                let n = TAG_PREFIX.unicode_len();
                Lookup::Value(skip(gh_ref.as_str(), n))
            } else if let Some(gh_sha) = &env.github_sha {
                Lookup::Value(tail(gh_sha.as_str(), SHORT_SHA_LEN))
            } else {
                Lookup::Value(String::from_str(UNKNOWN_VERSION))
            }
        } else {
            Lookup::Git(GitQuery::DescribeTags)
        }
    }

    /// Get the name of the author for the release.
    ///
    /// This will get a default value from (in order of precedence):
    /// - the environment variable `GITHUB_ACTOR`
    /// - the output from `git config get user.name`
    pub fn get_author(&self, env: &Environment) -> (r: Lookup)
        ensures
            match self.spec_author() {
                Some(author) => r matches Lookup::Value(v) && v@ == author,
                None => match env.github_actor {
                    Some(actor) => r matches Lookup::Value(v) && v@ == actor@,
                    None => r matches Lookup::Git(GitQuery::UserName),
                },
            },
    {
        if let Some(author) = &self.author {
            Lookup::Value(author.clone())
        } else if let Some(actor) = &env.github_actor {
            Lookup::Value(actor.clone())
        } else {
            Lookup::Git(GitQuery::UserName)
        }
    }

    /// Get the Rainmeter project's title.
    ///
    /// This defaults to the repository name: what follows the first `/`
    /// of `GITHUB_REPOSITORY`, which must have one.
    /// If the environment variable `GITHUB_REPOSITORY` is not set, then
    /// this will just use the working directory's name.
    pub fn get_title(&self, env: &Environment) -> (r: Result<Lookup, CliError>)
        ensures
            match self.spec_title() {
                Some(title) => r matches Ok(Lookup::Value(v)) && v@ == title,
                None => match env.github_repository {
                    Some(repo) => match spec_after_first(repo@, '/') {
                        Some(name) => r matches Ok(Lookup::Value(v)) && v@ == name,
                        None => r matches Err(CliError::MalformedRepoName(bad)) && bad@ == repo@,
                    },
                    None => r matches Ok(Lookup::WorkingDirectory),
                },
            },
    {
        if let Some(title) = &self.title {
            Ok(Lookup::Value(title.clone()))
        } else if let Some(repo) = &env.github_repository {
            match after_first(repo.as_str(), '/') {
                Some(name) => Ok(Lookup::Value(name)),
                None => Err(CliError::MalformedRepoName(repo.clone())),
            }
        } else {
            Ok(Lookup::WorkingDirectory)
        }
    }

    /// Set the Rainmeter project's version number.
    pub fn version(&mut self, value: Option<String>)
        ensures
            final(self).spec_version() == (match value {
                Some(v) => Some(v@),
                None => None,
            }),
            final(self).spec_author() == old(self).spec_author(),
            final(self).spec_title() == old(self).spec_title(),
            final(self).spec_path() == old(self).spec_path(),
            final(self).spec_dir_out() == old(self).spec_dir_out(),
    {
        self.version = value;
    }

    /// Set the name of the author for the release.
    pub fn author(&mut self, value: Option<String>)
        ensures
            final(self).spec_author() == (match value {
                Some(v) => Some(v@),
                None => None,
            }),
            final(self).spec_version() == old(self).spec_version(),
            final(self).spec_title() == old(self).spec_title(),
            final(self).spec_path() == old(self).spec_path(),
            final(self).spec_dir_out() == old(self).spec_dir_out(),
    {
        self.author = value;
    }

    /// Set the Rainmeter project's title.
    pub fn title(&mut self, value: Option<String>)
        ensures
            final(self).spec_title() == (match value {
                Some(v) => Some(v@),
                None => None,
            }),
            final(self).spec_version() == old(self).spec_version(),
            final(self).spec_author() == old(self).spec_author(),
            final(self).spec_path() == old(self).spec_path(),
            final(self).spec_dir_out() == old(self).spec_dir_out(),
    {
        self.title = value;
    }
}

impl Default for CliArgs {
    /// Options that leave everything open.
    fn default() -> (r: CliArgs)
        ensures
            r.spec_path() is None,
            r.spec_version() is None,
            r.spec_author() is None,
            r.spec_title() is None,
            r.spec_dir_out() is None,
    {
        CliArgs::new()
    }
}

/// The title by the working directory: its name, which it must have.
pub fn title_from_directory(name: Option<String>) -> (r: Result<String, CliError>)
    ensures
        match name {
            Some(n) => r matches Ok(title) && title@ == n@,
            None => r matches Err(CliError::UnknownWorkingDirectory),
        },
{
    match name {
        Some(n) => Ok(n),
        None => Err(CliError::UnknownWorkingDirectory),
    }
}

} // verus!
