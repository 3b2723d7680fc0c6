//! The vertices of the graph: one variant for each kind of entity that a
//! query can reach, and the narrowing of a vertex to one kind.

use crate::advisory::{Advisory, AdvisoryView, AffectedFunctionVersions, AffectedFunctionVersionsView};
use crate::geiger::{
    CategoriesView, CountView, GeigerCategories, GeigerCount, GeigerUnsafety, UnsafetyView,
};
use crate::package::{Package, PackageView};
use crate::repository::{GitHubRepository, GitHubRepositoryView, GitHubUser, GitHubUserView};
use vstd::prelude::*;

verus! {

/// A vertex of the graph.
#[derive(Debug)]
pub enum Vertex {
    Package(Package),
    /// A repository of which only the address is known.
    Repository(String),
    GitHubRepository(GitHubRepository),
    GitHubUser(GitHubUser),
    Advisory(Advisory),
    AffectedFunctionVersions(AffectedFunctionVersions),
    GeigerUnsafety(GeigerUnsafety),
    GeigerCategories(GeigerCategories),
    GeigerCount(GeigerCount),
}

/// The mathematical content of a [`Vertex`].
pub enum VertexView {
    Package(PackageView),
    Repository(Seq<char>),
    GitHubRepository(GitHubRepositoryView),
    GitHubUser(GitHubUserView),
    Advisory(AdvisoryView),
    AffectedFunctionVersions(AffectedFunctionVersionsView),
    GeigerUnsafety(UnsafetyView),
    GeigerCategories(CategoriesView),
    GeigerCount(CountView),
}

impl View for Vertex {
    type V = VertexView;

    open spec fn view(&self) -> VertexView {
        match self {
            Vertex::Package(p) => VertexView::Package(p@),
            Vertex::Repository(url) => VertexView::Repository(url@),
            Vertex::GitHubRepository(r) => VertexView::GitHubRepository(r@),
            Vertex::GitHubUser(u) => VertexView::GitHubUser(u@),
            Vertex::Advisory(a) => VertexView::Advisory(a@),
            Vertex::AffectedFunctionVersions(f) => VertexView::AffectedFunctionVersions(f@),
            Vertex::GeigerUnsafety(u) => VertexView::GeigerUnsafety(u@),
            Vertex::GeigerCategories(c) => VertexView::GeigerCategories(c@),
            Vertex::GeigerCount(c) => VertexView::GeigerCount(c@),
        }
    }
}

impl DeepView for Vertex {
    type V = VertexView;

    open spec fn deep_view(&self) -> VertexView {
        self@
    }
}

impl Clone for Vertex {
    fn clone(&self) -> (res: Vertex)
        ensures
            res@ == self@,
    {
        match self {
            Vertex::Package(p) => Vertex::Package(p.clone()),
            Vertex::Repository(url) => Vertex::Repository(url.clone()),
            Vertex::GitHubRepository(r) => Vertex::GitHubRepository(r.clone()),
            Vertex::GitHubUser(u) => Vertex::GitHubUser(u.clone()),
            Vertex::Advisory(a) => Vertex::Advisory(a.clone()),
            Vertex::AffectedFunctionVersions(f) => Vertex::AffectedFunctionVersions(f.clone()),
            Vertex::GeigerUnsafety(u) => Vertex::GeigerUnsafety(*u),
            Vertex::GeigerCategories(c) => Vertex::GeigerCategories(*c),
            Vertex::GeigerCount(c) => Vertex::GeigerCount(*c),
        }
    }
}

impl Vertex {
    /// The package, if the vertex is one.
    pub fn as_package(&self) -> (res: Option<&Package>)
        ensures
            match self {
                Vertex::Package(p) => res == Some(p),
                _ => res is None,
            },
    {
        match self {
            Vertex::Package(p) => Some(p),
            _ => None,
        }
    }

    /// The address, if the vertex is a repository of the generic kind.
    pub fn as_repository(&self) -> (res: Option<&String>)
        ensures
            match self {
                Vertex::Repository(url) => res == Some(url),
                _ => res is None,
            },
    {
        match self {
            Vertex::Repository(url) => Some(url),
            _ => None,
        }
    }

    /// The record, if the vertex is a repository on GitHub.
    pub fn as_git_hub_repository(&self) -> (res: Option<&GitHubRepository>)
        ensures
            match self {
                Vertex::GitHubRepository(r) => res == Some(r),
                _ => res is None,
            },
    {
        match self {
            Vertex::GitHubRepository(r) => Some(r),
            _ => None,
        }
    }

    /// The account, if the vertex is one.
    pub fn as_git_hub_user(&self) -> (res: Option<&GitHubUser>)
        ensures
            match self {
                Vertex::GitHubUser(u) => res == Some(u),
                _ => res is None,
            },
    {
        match self {
            Vertex::GitHubUser(u) => Some(u),
            _ => None,
        }
    }

    /// The advisory, if the vertex is one.
    pub fn as_advisory(&self) -> (res: Option<&Advisory>)
        ensures
            match self {
                Vertex::Advisory(a) => res == Some(a),
                _ => res is None,
            },
    {
        match self {
            Vertex::Advisory(a) => Some(a),
            _ => None,
        }
    }

    /// The affected function, if the vertex is one.
    pub fn as_affected_function_versions(&self) -> (res: Option<&AffectedFunctionVersions>)
        ensures
            match self {
                Vertex::AffectedFunctionVersions(f) => res == Some(f),
                _ => res is None,
            },
    {
        match self {
            Vertex::AffectedFunctionVersions(f) => Some(f),
            _ => None,
        }
    }

    /// The usage record, if the vertex is one.
    pub fn as_geiger_unsafety(&self) -> (res: Option<&GeigerUnsafety>)
        ensures
            match self {
                Vertex::GeigerUnsafety(u) => res == Some(u),
                _ => res is None,
            },
    {
        match self {
            Vertex::GeigerUnsafety(u) => Some(u),
            _ => None,
        }
    }

    /// The decomposition, if the vertex is one.
    pub fn as_geiger_categories(&self) -> (res: Option<&GeigerCategories>)
        ensures
            match self {
                Vertex::GeigerCategories(c) => res == Some(c),
                _ => res is None,
            },
    {
        match self {
            Vertex::GeigerCategories(c) => Some(c),
            _ => None,
        }
    }

    /// The count, if the vertex is one.
    pub fn as_geiger_count(&self) -> (res: Option<&GeigerCount>)
        ensures
            match self {
                Vertex::GeigerCount(c) => res == Some(c),
                _ => res is None,
            },
    {
        match self {
            Vertex::GeigerCount(c) => Some(c),
            _ => None,
        }
    }

    /// The web address that the vertex stands at, if it is a repository of
    /// either kind.
    pub fn as_webpage(&self) -> (res: Option<&String>)
        ensures
            match self {
                Vertex::Repository(url) => res == Some(url),
                Vertex::GitHubRepository(r) => res == Some(&r.url),
                _ => res is None,
            },
    {
        match self {
            Vertex::Repository(url) => Some(url),
            Vertex::GitHubRepository(r) => Some(&r.url),
            _ => None,
        }
    }
}

} // verus!
