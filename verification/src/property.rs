//! The properties of the schema: which names denote them, and what value
//! each has on a vertex.

use crate::advisory::{midnight_utc_timestamp, Advisory, AdvisoryDate};
use crate::geiger::GeigerCount;
use crate::package::Package;
use crate::repository::{GitHubRepository, GitHubUser};
use crate::text::{clone_texts, same_text};
use crate::value::{AdapterError, FieldValue, FieldValueView};
use crate::vertex::{Vertex, VertexView};
use vstd::prelude::*;

verus! {

/// A property that the schema declares on one of its types.
#[derive(Clone, Copy, Debug, PartialEq, Eq, Structural)]
pub enum Property {
    PackageId,
    PackageName,
    PackageVersion,
    PackageLicense,
    /// The address of a repository of either kind.
    RepositoryUrl,
    GitHubRepositoryName,
    GitHubRepositoryStars,
    GitHubRepositoryForks,
    GitHubRepositoryOpenIssues,
    GitHubRepositoryHasIssues,
    GitHubRepositoryArchived,
    GitHubRepositoryFork,
    GitHubUserUsername,
    GitHubUserCreatedAt,
    GitHubUserFollowers,
    GitHubUserEmail,
    AdvisoryId,
    AdvisoryTitle,
    AdvisoryDescription,
    AdvisoryDisclosureDate,
    AdvisoryWithdrawalDate,
    AdvisoryAffectedArch,
    AdvisoryAffectedOs,
    AdvisoryPatchedVersions,
    AdvisoryUnaffectedVersions,
    AdvisorySeverity,
    AffectedFunctionPath,
    AffectedFunctionVersions,
    GeigerForbidsUnsafe,
    GeigerCountSafe,
    GeigerCountUnsafe,
    GeigerCountTotal,
    GeigerCountPercentageUnsafe,
}

/// The property of a package that a name denotes.
pub open spec fn package_property_named(name: Seq<char>) -> Option<Property> {
    if name == "id"@ {
        Some(Property::PackageId)
    } else if name == "name"@ {
        Some(Property::PackageName)
    } else if name == "version"@ {
        Some(Property::PackageVersion)
    } else if name == "license"@ {
        Some(Property::PackageLicense)
    } else {
        None
    }
}

/// The property of a repository on GitHub that a name denotes. The three
/// counts answer to a short and to a long name.
pub open spec fn git_hub_repository_property_named(name: Seq<char>) -> Option<Property> {
    if name == "url"@ {
        Some(Property::RepositoryUrl)
    } else if name == "name"@ {
        Some(Property::GitHubRepositoryName)
    } else if name == "stars"@ || name == "starsCount"@ {
        Some(Property::GitHubRepositoryStars)
    } else if name == "forks"@ || name == "forksCount"@ {
        Some(Property::GitHubRepositoryForks)
    } else if name == "openIssues"@ || name == "openIssuesCount"@ {
        Some(Property::GitHubRepositoryOpenIssues)
    } else if name == "hasIssues"@ {
        Some(Property::GitHubRepositoryHasIssues)
    } else if name == "archived"@ {
        Some(Property::GitHubRepositoryArchived)
    } else if name == "fork"@ {
        Some(Property::GitHubRepositoryFork)
    } else {
        None
    }
}

/// The property of an account on GitHub that a name denotes.
pub open spec fn git_hub_user_property_named(name: Seq<char>) -> Option<Property> {
    if name == "username"@ {
        Some(Property::GitHubUserUsername)
    } else if name == "createdAt"@ || name == "unixCreatedAt"@ {
        Some(Property::GitHubUserCreatedAt)
    } else if name == "followers"@ || name == "followersCount"@ {
        Some(Property::GitHubUserFollowers)
    } else if name == "email"@ {
        Some(Property::GitHubUserEmail)
    } else {
        None
    }
}

/// The property of an advisory that a name denotes.
pub open spec fn advisory_property_named(name: Seq<char>) -> Option<Property> {
    if name == "id"@ {
        Some(Property::AdvisoryId)
    } else if name == "title"@ {
        Some(Property::AdvisoryTitle)
    } else if name == "description"@ {
        Some(Property::AdvisoryDescription)
    } else if name == "disclosureDate"@ || name == "unixDateReported"@ {
        Some(Property::AdvisoryDisclosureDate)
    } else if name == "withdrawalDate"@ || name == "unixDateWithdrawn"@ {
        Some(Property::AdvisoryWithdrawalDate)
    } else if name == "affectedArch"@ {
        Some(Property::AdvisoryAffectedArch)
    } else if name == "affectedOs"@ {
        Some(Property::AdvisoryAffectedOs)
    } else if name == "patchedVersions"@ {
        Some(Property::AdvisoryPatchedVersions)
    } else if name == "unaffectedVersions"@ {
        Some(Property::AdvisoryUnaffectedVersions)
    } else if name == "severity"@ {
        Some(Property::AdvisorySeverity)
    } else {
        None
    }
}

/// The property of a count that a name denotes.
pub open spec fn geiger_count_property_named(name: Seq<char>) -> Option<Property> {
    if name == "safe"@ {
        Some(Property::GeigerCountSafe)
    } else if name == "unsafe"@ {
        Some(Property::GeigerCountUnsafe)
    } else if name == "total"@ {
        Some(Property::GeigerCountTotal)
    } else if name == "percentageUnsafe"@ {
        Some(Property::GeigerCountPercentageUnsafe)
    } else {
        None
    }
}

/// The property that a type name and a property name denote together, or
/// `None` where the schema declares no such pair.
pub open spec fn property_named(vertex_type: Seq<char>, name: Seq<char>) -> Option<Property> {
    if vertex_type == "Package"@ {
        package_property_named(name)
    } else if vertex_type == "Webpage"@ || vertex_type == "Repository"@ {
        if name == "url"@ {
            Some(Property::RepositoryUrl)
        } else {
            None
        }
    } else if vertex_type == "GitHubRepository"@ {
        git_hub_repository_property_named(name)
    } else if vertex_type == "GitHubUser"@ {
        git_hub_user_property_named(name)
    } else if vertex_type == "Advisory"@ {
        advisory_property_named(name)
    } else if vertex_type == "AffectedFunctionVersions"@ {
        if name == "path"@ || name == "functionPath"@ {
            Some(Property::AffectedFunctionPath)
        } else if name == "versions"@ {
            Some(Property::AffectedFunctionVersions)
        } else {
            None
        }
    } else if vertex_type == "GeigerUnsafety"@ {
        if name == "forbidsUnsafe"@ {
            Some(Property::GeigerForbidsUnsafe)
        } else {
            None
        }
    } else if vertex_type == "GeigerCount"@ {
        geiger_count_property_named(name)
    } else {
        None
    }
}

/// The value that stands for a date: the instant at which it begins in UTC,
/// or an error where the calendar has no such day.
pub open spec fn date_value_of(date: AdvisoryDate) -> Result<FieldValueView, AdapterError> {
    match midnight_utc_timestamp(date) {
        Some(seconds) => Ok(FieldValueView::Int64(seconds)),
        None => Err(AdapterError::InvalidDate),
    }
}

/// The text of an optional value, or `Null`.
pub open spec fn optional_text_value(text: Option<Seq<char>>) -> FieldValueView {
    match text {
        Some(t) => FieldValueView::Text(t),
        None => FieldValueView::Null,
    }
}

/// The value of a property on a vertex. A vertex of another kind than the
/// property belongs to is an error, with one exception: the address of a
/// vertex that is no repository is `Null`.
pub open spec fn property_value(vertex: VertexView, property: Property) -> Result<
    FieldValueView,
    AdapterError,
> {
    match property {
        Property::RepositoryUrl => match vertex {
            VertexView::Repository(url) => Ok(FieldValueView::Text(url)),
            VertexView::GitHubRepository(r) => Ok(FieldValueView::Text(r.url)),
            _ => Ok(FieldValueView::Null),
        },
        Property::PackageId | Property::PackageName | Property::PackageVersion
        | Property::PackageLicense => match vertex {
            VertexView::Package(p) => Ok(
                match property {
                    Property::PackageId => FieldValueView::Text(p.id),
                    Property::PackageName => FieldValueView::Text(p.name),
                    Property::PackageVersion => FieldValueView::Text(p.version),
                    _ => optional_text_value(p.license),
                },
            ),
            _ => Err(AdapterError::UnexpectedVertex),
        },
        Property::GitHubRepositoryName | Property::GitHubRepositoryStars
        | Property::GitHubRepositoryForks | Property::GitHubRepositoryOpenIssues
        | Property::GitHubRepositoryHasIssues | Property::GitHubRepositoryArchived
        | Property::GitHubRepositoryFork => match vertex {
            VertexView::GitHubRepository(r) => Ok(
                match property {
                    Property::GitHubRepositoryName => FieldValueView::Text(r.name),
                    Property::GitHubRepositoryStars => FieldValueView::Int64(r.stargazers_count),
                    Property::GitHubRepositoryForks => FieldValueView::Int64(r.forks_count),
                    Property::GitHubRepositoryOpenIssues => FieldValueView::Int64(
                        r.open_issues_count,
                    ),
                    Property::GitHubRepositoryHasIssues => FieldValueView::Boolean(r.has_issues),
                    Property::GitHubRepositoryArchived => FieldValueView::Boolean(r.archived),
                    _ => FieldValueView::Boolean(r.fork),
                },
            ),
            _ => Err(AdapterError::UnexpectedVertex),
        },
        Property::GitHubUserUsername | Property::GitHubUserCreatedAt
        | Property::GitHubUserFollowers | Property::GitHubUserEmail => match vertex {
            VertexView::GitHubUser(u) => Ok(
                match property {
                    Property::GitHubUserUsername => FieldValueView::Text(u.login),
                    Property::GitHubUserCreatedAt => FieldValueView::Int64(u.created_at),
                    Property::GitHubUserFollowers => FieldValueView::Int64(u.followers),
                    _ => optional_text_value(u.email),
                },
            ),
            _ => Err(AdapterError::UnexpectedVertex),
        },
        Property::AdvisoryId | Property::AdvisoryTitle | Property::AdvisoryDescription
        | Property::AdvisoryDisclosureDate | Property::AdvisoryWithdrawalDate
        | Property::AdvisoryAffectedArch | Property::AdvisoryAffectedOs
        | Property::AdvisoryPatchedVersions | Property::AdvisoryUnaffectedVersions
        | Property::AdvisorySeverity => match vertex {
            VertexView::Advisory(a) => match property {
                Property::AdvisoryId => Ok(FieldValueView::Text(a.id)),
                Property::AdvisoryTitle => Ok(FieldValueView::Text(a.title)),
                Property::AdvisoryDescription => Ok(FieldValueView::Text(a.description)),
                Property::AdvisoryDisclosureDate => date_value_of(a.date),
                Property::AdvisoryWithdrawalDate => match a.withdrawn {
                    Some(date) => date_value_of(date),
                    None => Ok(FieldValueView::Null),
                },
                Property::AdvisoryAffectedArch => Ok(
                    match a.affected {
                        Some(affected) => FieldValueView::TextList(affected.arch),
                        None => FieldValueView::Null,
                    },
                ),
                Property::AdvisoryAffectedOs => Ok(
                    match a.affected {
                        Some(affected) => FieldValueView::TextList(affected.os),
                        None => FieldValueView::Null,
                    },
                ),
                Property::AdvisoryPatchedVersions => Ok(
                    FieldValueView::TextList(a.patched_versions),
                ),
                Property::AdvisoryUnaffectedVersions => Ok(
                    FieldValueView::TextList(a.unaffected_versions),
                ),
                _ => Ok(
                    match a.severity {
                        Some(severity) => FieldValueView::Text(severity.name()),
                        None => FieldValueView::Null,
                    },
                ),
            },
            _ => Err(AdapterError::UnexpectedVertex),
        },
        Property::AffectedFunctionPath | Property::AffectedFunctionVersions => match vertex {
            VertexView::AffectedFunctionVersions(f) => Ok(
                match property {
                    Property::AffectedFunctionPath => FieldValueView::Text(f.function_path),
                    _ => FieldValueView::TextList(f.versions),
                },
            ),
            _ => Err(AdapterError::UnexpectedVertex),
        },
        Property::GeigerForbidsUnsafe => match vertex {
            VertexView::GeigerUnsafety(u) => Ok(FieldValueView::Boolean(u.forbids_unsafe)),
            _ => Err(AdapterError::UnexpectedVertex),
        },
        Property::GeigerCountSafe | Property::GeigerCountUnsafe | Property::GeigerCountTotal
        | Property::GeigerCountPercentageUnsafe => match vertex {
            VertexView::GeigerCount(c) => Ok(
                match property {
                    Property::GeigerCountSafe => FieldValueView::Uint64(c.safe as int),
                    Property::GeigerCountUnsafe => FieldValueView::Uint64(c.unsafe_ as int),
                    Property::GeigerCountTotal => FieldValueView::Uint64(c.total() as int),
                    _ => FieldValueView::Fraction {
                        numerator: c.unsafe_ as int,
                        denominator: c.total() as int,
                    },
                },
            ),
            _ => Err(AdapterError::UnexpectedVertex),
        },
    }
}

/// The content of the outcome of resolving a property.
pub open spec fn value_result_view(result: Result<FieldValue, AdapterError>) -> Result<
    FieldValueView,
    AdapterError,
> {
    match result {
        Ok(value) => Ok(value@),
        Err(e) => Err(e),
    }
}

/// The value of a property in a context: that of its vertex, or `Null`
/// where the context holds none.
pub open spec fn context_property_value(context: Option<VertexView>, property: Property) -> Result<
    FieldValueView,
    AdapterError,
> {
    match context {
        Some(vertex) => property_value(vertex, property),
        None => Ok(FieldValueView::Null),
    }
}

/// The value that stands for a date, given the instant at which the date
/// begins, or the absence of such an instant.
pub fn date_value(timestamp: Option<i64>) -> (res: Result<FieldValue, AdapterError>)
    ensures
        match timestamp {
            Some(seconds) => res matches Ok(value) && value@ == FieldValueView::Int64(
                seconds as int,
            ),
            None => res == Err::<FieldValue, AdapterError>(AdapterError::InvalidDate),
        },
{
    match timestamp {
        Some(seconds) => Ok(FieldValue::Int64(seconds)),
        None => Err(AdapterError::InvalidDate),
    }
}

fn parse_package_property(name: &str) -> (res: Option<Property>)
    ensures
        res == package_property_named(name@),
{
    if same_text(name, "id") {
        Some(Property::PackageId)
    } else if same_text(name, "name") {
        Some(Property::PackageName)
    } else if same_text(name, "version") {
        Some(Property::PackageVersion)
    } else if same_text(name, "license") {
        Some(Property::PackageLicense)
    } else {
        None
    }
}

fn parse_git_hub_repository_property(name: &str) -> (res: Option<Property>)
    ensures
        res == git_hub_repository_property_named(name@),
{
    if same_text(name, "url") {
        Some(Property::RepositoryUrl)
    } else if same_text(name, "name") {
        Some(Property::GitHubRepositoryName)
    } else if same_text(name, "stars") || same_text(name, "starsCount") {
        Some(Property::GitHubRepositoryStars)
    } else if same_text(name, "forks") || same_text(name, "forksCount") {
        Some(Property::GitHubRepositoryForks)
    } else if same_text(name, "openIssues") || same_text(name, "openIssuesCount") {
        Some(Property::GitHubRepositoryOpenIssues)
    } else if same_text(name, "hasIssues") {
        Some(Property::GitHubRepositoryHasIssues)
    } else if same_text(name, "archived") {
        Some(Property::GitHubRepositoryArchived)
    } else if same_text(name, "fork") {
        Some(Property::GitHubRepositoryFork)
    } else {
        None
    }
}

fn parse_git_hub_user_property(name: &str) -> (res: Option<Property>)
    ensures
        res == git_hub_user_property_named(name@),
{
    if same_text(name, "username") {
        Some(Property::GitHubUserUsername)
    } else if same_text(name, "createdAt") || same_text(name, "unixCreatedAt") {
        Some(Property::GitHubUserCreatedAt)
    } else if same_text(name, "followers") || same_text(name, "followersCount") {
        Some(Property::GitHubUserFollowers)
    } else if same_text(name, "email") {
        Some(Property::GitHubUserEmail)
    } else {
        None
    }
}

fn parse_advisory_property(name: &str) -> (res: Option<Property>)
    ensures
        res == advisory_property_named(name@),
{
    if same_text(name, "id") {
        Some(Property::AdvisoryId)
    } else if same_text(name, "title") {
        Some(Property::AdvisoryTitle)
    } else if same_text(name, "description") {
        Some(Property::AdvisoryDescription)
    } else if same_text(name, "disclosureDate") || same_text(name, "unixDateReported") {
        Some(Property::AdvisoryDisclosureDate)
    } else if same_text(name, "withdrawalDate") || same_text(name, "unixDateWithdrawn") {
        Some(Property::AdvisoryWithdrawalDate)
    } else if same_text(name, "affectedArch") {
        Some(Property::AdvisoryAffectedArch)
    } else if same_text(name, "affectedOs") {
        Some(Property::AdvisoryAffectedOs)
    } else if same_text(name, "patchedVersions") {
        Some(Property::AdvisoryPatchedVersions)
    } else if same_text(name, "unaffectedVersions") {
        Some(Property::AdvisoryUnaffectedVersions)
    } else if same_text(name, "severity") {
        Some(Property::AdvisorySeverity)
    } else {
        None
    }
}

fn parse_geiger_count_property(name: &str) -> (res: Option<Property>)
    ensures
        res == geiger_count_property_named(name@),
{
    if same_text(name, "safe") {
        Some(Property::GeigerCountSafe)
    } else if same_text(name, "unsafe") {
        Some(Property::GeigerCountUnsafe)
    } else if same_text(name, "total") {
        Some(Property::GeigerCountTotal)
    } else if same_text(name, "percentageUnsafe") {
        Some(Property::GeigerCountPercentageUnsafe)
    } else {
        None
    }
}

impl Property {
    /// The property that the two names denote, or `None` where the schema
    /// declares no such pair.
    pub fn parse(vertex_type: &str, name: &str) -> (res: Option<Property>)
        ensures
            res == property_named(vertex_type@, name@),
    {
        if same_text(vertex_type, "Package") {
            parse_package_property(name)
        } else if same_text(vertex_type, "Webpage") || same_text(vertex_type, "Repository") {
            if same_text(name, "url") {
                Some(Property::RepositoryUrl)
            } else {
                None
            }
        } else if same_text(vertex_type, "GitHubRepository") {
            parse_git_hub_repository_property(name)
        } else if same_text(vertex_type, "GitHubUser") {
            parse_git_hub_user_property(name)
        } else if same_text(vertex_type, "Advisory") {
            parse_advisory_property(name)
        } else if same_text(vertex_type, "AffectedFunctionVersions") {
            if same_text(name, "path") || same_text(name, "functionPath") {
                Some(Property::AffectedFunctionPath)
            } else if same_text(name, "versions") {
                Some(Property::AffectedFunctionVersions)
            } else {
                None
            }
        } else if same_text(vertex_type, "GeigerUnsafety") {
            if same_text(name, "forbidsUnsafe") {
                Some(Property::GeigerForbidsUnsafe)
            } else {
                None
            }
        } else if same_text(vertex_type, "GeigerCount") {
            parse_geiger_count_property(name)
        } else {
            None
        }
    }
}

fn package_property(package: &Package, property: Property) -> (res: FieldValue)
    requires
        property_value(VertexView::Package(package@), property) is Ok,
        property != Property::RepositoryUrl,
    ensures
        Ok::<FieldValueView, AdapterError>(res@) == property_value(
            VertexView::Package(package@),
            property,
        ),
{
    match property {
        Property::PackageId => FieldValue::Text(package.id.clone()),
        Property::PackageName => FieldValue::Text(package.name.clone()),
        Property::PackageVersion => FieldValue::Text(package.version.clone()),
        _ => FieldValue::from_optional_text(&package.license),
    }
}

fn git_hub_repository_property(repository: &GitHubRepository, property: Property) -> (res:
    FieldValue)
    requires
        property_value(VertexView::GitHubRepository(repository@), property) is Ok,
        property != Property::RepositoryUrl,
    ensures
        Ok::<FieldValueView, AdapterError>(res@) == property_value(
            VertexView::GitHubRepository(repository@),
            property,
        ),
{
    match property {
        Property::GitHubRepositoryName => FieldValue::Text(repository.name.clone()),
        Property::GitHubRepositoryStars => FieldValue::Int64(repository.stargazers_count),
        Property::GitHubRepositoryForks => FieldValue::Int64(repository.forks_count),
        Property::GitHubRepositoryOpenIssues => FieldValue::Int64(repository.open_issues_count),
        Property::GitHubRepositoryHasIssues => FieldValue::Boolean(repository.has_issues),
        Property::GitHubRepositoryArchived => FieldValue::Boolean(repository.archived),
        _ => FieldValue::Boolean(repository.fork),
    }
}

fn git_hub_user_property(user: &GitHubUser, property: Property) -> (res: FieldValue)
    requires
        property_value(VertexView::GitHubUser(user@), property) is Ok,
        property != Property::RepositoryUrl,
    ensures
        Ok::<FieldValueView, AdapterError>(res@) == property_value(
            VertexView::GitHubUser(user@),
            property,
        ),
{
    match property {
        Property::GitHubUserUsername => FieldValue::Text(user.login.clone()),
        Property::GitHubUserCreatedAt => FieldValue::Int64(user.created_at),
        Property::GitHubUserFollowers => FieldValue::Int64(user.followers),
        _ => FieldValue::from_optional_text(&user.email),
    }
}

fn advisory_property(advisory: &Advisory, property: Property) -> (res: Result<
    FieldValue,
    AdapterError,
>)
    requires
        property == Property::AdvisoryId || property == Property::AdvisoryTitle || property
            == Property::AdvisoryDescription || property == Property::AdvisoryDisclosureDate
            || property == Property::AdvisoryWithdrawalDate || property
            == Property::AdvisoryAffectedArch || property == Property::AdvisoryAffectedOs
            || property == Property::AdvisoryPatchedVersions || property
            == Property::AdvisoryUnaffectedVersions || property == Property::AdvisorySeverity,
    ensures
        value_result_view(res) == property_value(VertexView::Advisory(advisory@), property),
{
    match property {
        Property::AdvisoryId => Ok(FieldValue::Text(advisory.id.clone())),
        Property::AdvisoryTitle => Ok(FieldValue::Text(advisory.title.clone())),
        Property::AdvisoryDescription => Ok(FieldValue::Text(advisory.description.clone())),
        Property::AdvisoryDisclosureDate => date_value(advisory.date.timestamp()),
        Property::AdvisoryWithdrawalDate => match &advisory.withdrawn {
            Some(date) => date_value(date.timestamp()),
            None => Ok(FieldValue::Null),
        },
        Property::AdvisoryAffectedArch => Ok(
            match &advisory.affected {
                Some(affected) => FieldValue::TextList(clone_texts(&affected.arch)),
                None => FieldValue::Null,
            },
        ),
        Property::AdvisoryAffectedOs => Ok(
            match &advisory.affected {
                Some(affected) => FieldValue::TextList(clone_texts(&affected.os)),
                None => FieldValue::Null,
            },
        ),
        Property::AdvisoryPatchedVersions => Ok(
            FieldValue::TextList(clone_texts(&advisory.patched_versions)),
        ),
        Property::AdvisoryUnaffectedVersions => Ok(
            FieldValue::TextList(clone_texts(&advisory.unaffected_versions)),
        ),
        _ => Ok(
            match &advisory.severity {
                Some(severity) => FieldValue::Text(severity.as_str().to_owned()),
                None => FieldValue::Null,
            },
        ),
    }
}

fn geiger_count_property(count: &GeigerCount, property: Property) -> (res: FieldValue)
    requires
        property_value(VertexView::GeigerCount(count@), property) is Ok,
        property != Property::RepositoryUrl,
    ensures
        Ok::<FieldValueView, AdapterError>(res@) == property_value(
            VertexView::GeigerCount(count@),
            property,
        ),
{
    match property {
        Property::GeigerCountSafe => FieldValue::Uint64(count.safe()),
        Property::GeigerCountUnsafe => FieldValue::Uint64(count.unsafe_()),
        Property::GeigerCountTotal => FieldValue::Uint64(count.total()),
        _ => FieldValue::Fraction(count.percentage_unsafe()),
    }
}

impl Vertex {
    /// The value of a property on this vertex.
    pub fn property(&self, property: Property) -> (res: Result<FieldValue, AdapterError>)
        ensures
            value_result_view(res) == property_value(self@, property),
    {
        match property {
            Property::RepositoryUrl => match self.as_webpage() {
                Some(url) => Ok(FieldValue::Text(url.clone())),
                None => Ok(FieldValue::Null),
            },
            Property::AdvisoryId | Property::AdvisoryTitle | Property::AdvisoryDescription
            | Property::AdvisoryDisclosureDate | Property::AdvisoryWithdrawalDate
            | Property::AdvisoryAffectedArch | Property::AdvisoryAffectedOs
            | Property::AdvisoryPatchedVersions | Property::AdvisoryUnaffectedVersions
            | Property::AdvisorySeverity => match self {
                Vertex::Advisory(a) => advisory_property(a, property),
                _ => Err(AdapterError::UnexpectedVertex),
            },
            _ => match self {
                Vertex::Package(p) => if property_fits_package(property) {
                    Ok(package_property(p, property))
                } else {
                    Err(AdapterError::UnexpectedVertex)
                },
                Vertex::GitHubRepository(r) => if property_fits_git_hub_repository(property) {
                    Ok(git_hub_repository_property(r, property))
                } else {
                    Err(AdapterError::UnexpectedVertex)
                },
                Vertex::GitHubUser(u) => if property_fits_git_hub_user(property) {
                    Ok(git_hub_user_property(u, property))
                } else {
                    Err(AdapterError::UnexpectedVertex)
                },
                Vertex::AffectedFunctionVersions(f) => match property {
                    Property::AffectedFunctionPath => Ok(
                        FieldValue::Text(f.function_path.clone()),
                    ),
                    Property::AffectedFunctionVersions => Ok(
                        FieldValue::TextList(clone_texts(&f.versions)),
                    ),
                    _ => Err(AdapterError::UnexpectedVertex),
                },
                Vertex::GeigerUnsafety(u) => match property {
                    Property::GeigerForbidsUnsafe => Ok(FieldValue::Boolean(u.forbids_unsafe())),
                    _ => Err(AdapterError::UnexpectedVertex),
                },
                Vertex::GeigerCount(c) => if property_fits_geiger_count(property) {
                    Ok(geiger_count_property(c, property))
                } else {
                    Err(AdapterError::UnexpectedVertex)
                },
                _ => Err(AdapterError::UnexpectedVertex),
            },
        }
    }
}

fn property_fits_package(property: Property) -> (res: bool)
    ensures
        res == (property == Property::PackageId || property == Property::PackageName || property
            == Property::PackageVersion || property == Property::PackageLicense),
{
    match property {
        Property::PackageId | Property::PackageName | Property::PackageVersion
        | Property::PackageLicense => true,
        _ => false,
    }
}

fn property_fits_git_hub_repository(property: Property) -> (res: bool)
    ensures
        res == (property == Property::GitHubRepositoryName || property
            == Property::GitHubRepositoryStars || property == Property::GitHubRepositoryForks
            || property == Property::GitHubRepositoryOpenIssues || property
            == Property::GitHubRepositoryHasIssues || property
            == Property::GitHubRepositoryArchived || property == Property::GitHubRepositoryFork),
{
    match property {
        Property::GitHubRepositoryName | Property::GitHubRepositoryStars
        | Property::GitHubRepositoryForks | Property::GitHubRepositoryOpenIssues
        | Property::GitHubRepositoryHasIssues | Property::GitHubRepositoryArchived
        | Property::GitHubRepositoryFork => true,
        _ => false,
    }
}

fn property_fits_git_hub_user(property: Property) -> (res: bool)
    ensures
        res == (property == Property::GitHubUserUsername || property
            == Property::GitHubUserCreatedAt || property == Property::GitHubUserFollowers
            || property == Property::GitHubUserEmail),
{
    match property {
        Property::GitHubUserUsername | Property::GitHubUserCreatedAt
        | Property::GitHubUserFollowers | Property::GitHubUserEmail => true,
        _ => false,
    }
}

fn property_fits_geiger_count(property: Property) -> (res: bool)
    ensures
        res == (property == Property::GeigerCountSafe || property == Property::GeigerCountUnsafe
            || property == Property::GeigerCountTotal || property
            == Property::GeigerCountPercentageUnsafe),
{
    match property {
        Property::GeigerCountSafe | Property::GeigerCountUnsafe | Property::GeigerCountTotal
        | Property::GeigerCountPercentageUnsafe => true,
        _ => false,
    }
}

} // verus!
