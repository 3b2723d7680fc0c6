//! Source repositories: the records that the repository-info service
//! returns, and the classifier that tells a GitHub address from any other.

use crate::text::{clone_optional_text, contains_text, same_text};
use vstd::prelude::*;
use vstd::string::StringExecFns;

verus! {

/// What the repository-info service knows of a repository on GitHub.
#[derive(Debug)]
pub struct GitHubRepository {
    /// The repository's web address.
    pub url: String,
    pub name: String,
    pub stargazers_count: i64,
    pub forks_count: i64,
    pub open_issues_count: i64,
    pub has_issues: bool,
    pub archived: bool,
    pub fork: bool,
    /// The login of the owning account, when the service names one.
    pub owner: Option<String>,
}

/// The mathematical content of a [`GitHubRepository`].
pub struct GitHubRepositoryView {
    pub url: Seq<char>,
    pub name: Seq<char>,
    pub stargazers_count: int,
    pub forks_count: int,
    pub open_issues_count: int,
    pub has_issues: bool,
    pub archived: bool,
    pub fork: bool,
    pub owner: Option<Seq<char>>,
}

impl View for GitHubRepository {
    type V = GitHubRepositoryView;

    open spec fn view(&self) -> GitHubRepositoryView {
        GitHubRepositoryView {
            url: self.url@,
            name: self.name@,
            stargazers_count: self.stargazers_count as int,
            forks_count: self.forks_count as int,
            open_issues_count: self.open_issues_count as int,
            has_issues: self.has_issues,
            archived: self.archived,
            fork: self.fork,
            owner: self.owner.deep_view(),
        }
    }
}

impl DeepView for GitHubRepository {
    type V = GitHubRepositoryView;

    open spec fn deep_view(&self) -> GitHubRepositoryView {
        self@
    }
}

impl Clone for GitHubRepository {
    fn clone(&self) -> (res: GitHubRepository)
        ensures
            res@ == self@,
    {
        GitHubRepository {
            url: self.url.clone(),
            name: self.name.clone(),
            stargazers_count: self.stargazers_count,
            forks_count: self.forks_count,
            open_issues_count: self.open_issues_count,
            has_issues: self.has_issues,
            archived: self.archived,
            fork: self.fork,
            owner: clone_optional_text(&self.owner),
        }
    }
}

/// What the repository-info service knows of an account on GitHub.
#[derive(Debug)]
pub struct GitHubUser {
    pub login: String,
    /// When the account was created, in seconds since the Unix epoch.
    pub created_at: i64,
    pub followers: i64,
    pub email: Option<String>,
}

/// The mathematical content of a [`GitHubUser`].
pub struct GitHubUserView {
    pub login: Seq<char>,
    pub created_at: int,
    pub followers: int,
    pub email: Option<Seq<char>>,
}

impl View for GitHubUser {
    type V = GitHubUserView;

    open spec fn view(&self) -> GitHubUserView {
        GitHubUserView {
            login: self.login@,
            created_at: self.created_at as int,
            followers: self.followers as int,
            email: self.email.deep_view(),
        }
    }
}

impl DeepView for GitHubUser {
    type V = GitHubUserView;

    open spec fn deep_view(&self) -> GitHubUserView {
        self@
    }
}

impl Clone for GitHubUser {
    fn clone(&self) -> (res: GitHubUser)
        ensures
            res@ == self@,
    {
        GitHubUser {
            login: self.login.clone(),
            created_at: self.created_at,
            followers: self.followers,
            email: clone_optional_text(&self.email),
        }
    }
}

/// The identity under which GitHub knows a repository.
#[derive(Debug)]
pub struct GitHubRepositoryId {
    pub owner: String,
    pub name: String,
}

/// The mathematical content of a [`GitHubRepositoryId`].
pub struct GitHubRepositoryIdView {
    pub owner: Seq<char>,
    pub name: Seq<char>,
}

impl View for GitHubRepositoryId {
    type V = GitHubRepositoryIdView;

    open spec fn view(&self) -> GitHubRepositoryIdView {
        GitHubRepositoryIdView { owner: self.owner@, name: self.name@ }
    }
}

impl DeepView for GitHubRepositoryId {
    type V = GitHubRepositoryIdView;

    open spec fn deep_view(&self) -> GitHubRepositoryIdView {
        self@
    }
}

impl GitHubRepositoryId {
    /// The key under which answers about this repository are remembered:
    /// owner, a slash and name.
    pub fn cache_key(&self) -> (res: String)
        ensures
            res@ == self@.owner + "/"@ + self@.name,
    {
        let mut key = self.owner.clone();
        key.append("/");
        key.append(self.name.as_str());
        key
    }

    /// The identity of the repository `name` of the account `owner`.
    pub fn new(owner: String, name: String) -> (res: GitHubRepositoryId)
        ensures
            res@ == (GitHubRepositoryIdView { owner: owner@, name: name@ }),
    {
        GitHubRepositoryId { owner, name }
    }
}

/// The parts of a git address that the classifier reads.
#[derive(Debug)]
pub struct GitUrl {
    /// The host of the address; absent for a path in the file system.
    pub host: Option<String>,
    /// The account or project that the repository belongs to.
    pub owner: Option<String>,
    /// The name of the repository.
    pub name: String,
}

/// Scheme, host and path of the address that `git_url_parse::normalize_url`
/// makes of `url`, or `None` where it reports an error.
pub uninterp spec fn normalized_git_url(url: Seq<char>) -> Option<
    (Seq<char>, Option<Seq<char>>, Seq<char>),
>;

/// Host, owner and name of the `GitUrl` that `git_url_parse::GitUrl::parse`
/// makes of `url`, or `None` where it reports an error.
pub uninterp spec fn parsed_git_url(url: Seq<char>) -> Option<
    (Option<Seq<char>>, Option<Seq<char>>, Seq<char>),
>;

/// Whether `GitUrl::parse` can take `url` apart. It cannot where the
/// normalised address has the scheme `ssh` and a path of a single character,
/// nor for the two hosts whose paths it reads by fixed positions.
pub open spec fn git_url_parse_accepts(url: Seq<char>) -> bool {
    match normalized_git_url(url) {
        None => true,
        Some((scheme, host, path)) => {
            &&& !(scheme == "ssh"@ && path.len() <= 1)
            &&& host != Some("dev.azure.com"@)
            &&& host != Some("ssh.dev.azure.com"@)
        },
    }
}

/// `git_url_parse::normalize_url`: the address in the form that the parser
/// works on. The contract names scheme, host and path of the result.
#[verifier::external_body]
fn normalize_git_url(url: &str) -> (res: Option<(String, Option<String>, String)>)
    ensures
        match res {
            None => normalized_git_url(url@) is None,
            Some(n) => normalized_git_url(url@) == Some((n.0@, n.1.deep_view(), n.2@)),
        },
{
    match git_url_parse::normalize_url(url) {
        Ok(u) => Some(
            (u.scheme().to_string(), u.host_str().map(|h| h.to_string()), u.path().to_string()),
        ),
        Err(_) => None,
    }
}

/// `git_url_parse::GitUrl::parse`. It indexes into the path's segments
/// without a check, so the addresses on which that fails are left out. The
/// contract names host, owner and name of the result.
#[verifier::external_body]
fn parse_git_url(url: &str) -> (res: Option<GitUrl>)
    requires
        git_url_parse_accepts(url@),
    ensures
        match res {
            None => parsed_git_url(url@) is None,
            Some(g) => parsed_git_url(url@) == Some(
                (g.host.deep_view(), g.owner.deep_view(), g.name@),
            ),
        },
{
    match git_url_parse::GitUrl::parse(url) {
        Ok(g) => Some(GitUrl { host: g.host, owner: g.owner, name: g.name }),
        Err(_) => None,
    }
}

/// The GitHub identity that a parsed address stands for: its owner and name
/// where the host is exactly `github.com` and an owner is present.
pub open spec fn github_id_of_parts(
    parts: Option<(Option<Seq<char>>, Option<Seq<char>>, Seq<char>)>,
) -> Option<GitHubRepositoryIdView> {
    match parts {
        Some((Some(host), Some(owner), name)) => if host == "github.com"@ {
            Some(GitHubRepositoryIdView { owner, name })
        } else {
            None
        },
        _ => None,
    }
}

/// The GitHub identity that the address `url` stands for, if any: the text
/// must mention `github.com`, the normalised address must have exactly that
/// host and not the scheme `ssh`, and the parser must find an owner. An
/// address in the style of SSH therefore stands for none.
pub open spec fn github_id_of(url: Seq<char>) -> Option<GitHubRepositoryIdView> {
    if !crate::text::occurs_in("github.com"@, url) {
        None
    } else {
        match normalized_git_url(url) {
            Some((scheme, Some(host), _)) => if host == "github.com"@ && scheme != "ssh"@ {
                github_id_of_parts(parsed_git_url(url))
            } else {
                None
            },
            _ => None,
        }
    }
}

/// Reads the GitHub identity off a parsed address.
pub fn github_repository_id(parsed: Option<GitUrl>) -> (res: Option<GitHubRepositoryId>)
    ensures
        res.deep_view() == github_id_of_parts(
            match parsed {
                Some(g) => Some((g.host.deep_view(), g.owner.deep_view(), g.name@)),
                None => None,
            },
        ),
{
    match parsed {
        Some(g) => {
            let GitUrl { host, owner, name } = g;
            match (host, owner) {
                (Some(h), Some(o)) => {
                    if same_text(h.as_str(), "github.com") {
                        Some(GitHubRepositoryId::new(o, name))
                    } else {
                        None
                    }
                },
                _ => None,
            }
        },
        None => None,
    }
}

/// Classifies a repository address: `Some` with the GitHub identity to look
/// up, or `None` where the address is to be kept as a generic repository.
pub fn classify_repository_url(url: &str) -> (res: Option<GitHubRepositoryId>)
    ensures
        res.deep_view() == github_id_of(url@),
{
    if !contains_text(url, "github.com") {
        return None;
    }
    match normalize_git_url(url) {
        Some((scheme, Some(host), _)) => {
            if !same_text(host.as_str(), "github.com") {
                return None;
            }
            if same_text(scheme.as_str(), "ssh") {
                return None;
            }
            proof {
                reveal_strlit("github.com");
                reveal_strlit("dev.azure.com");
                reveal_strlit("ssh.dev.azure.com");
            }
            github_repository_id(parse_git_url(url))
        },
        _ => None,
    }
}

} // verus!
