//! The edges of the schema: the edges that a query starts from, the edges
//! between vertices, and the types that a vertex can be narrowed to.

use crate::text::same_text;
use crate::vertex::{Vertex, VertexView};
use vstd::prelude::*;

verus! {

/// An edge that a query can start from.
#[derive(Clone, Copy, Debug, PartialEq, Eq, Structural)]
pub enum StartingEdge {
    /// The root package of the project.
    RootPackage,
    /// Every resolved package of the project.
    Dependencies,
}

/// The starting edge that a name denotes.
pub open spec fn starting_edge_named(name: Seq<char>) -> Option<StartingEdge> {
    if name == "RootPackage"@ {
        Some(StartingEdge::RootPackage)
    } else if name == "Dependencies"@ {
        Some(StartingEdge::Dependencies)
    } else {
        None
    }
}

impl StartingEdge {
    /// The starting edge of that name, or `None` where the schema has none.
    pub fn parse(name: &str) -> (res: Option<StartingEdge>)
        ensures
            res == starting_edge_named(name@),
    {
        if same_text(name, "RootPackage") {
            Some(StartingEdge::RootPackage)
        } else if same_text(name, "Dependencies") {
            Some(StartingEdge::Dependencies)
        } else {
            None
        }
    }
}

/// An edge from a vertex of one type to its neighbours.
#[derive(Clone, Copy, Debug, PartialEq, Eq, Structural)]
pub enum Edge {
    PackageDependencies,
    PackageRepository,
    PackageAdvisoryHistory,
    PackageGeiger,
    GitHubRepositoryOwner,
    AdvisoryAffectedFunctions,
    GeigerUnsafetyUsed,
    GeigerUnsafetyUnused,
    GeigerUnsafetyTotal,
    GeigerCategoriesFunctions,
    GeigerCategoriesExprs,
    GeigerCategoriesItemImpls,
    GeigerCategoriesItemTraits,
    GeigerCategoriesMethods,
    GeigerCategoriesTotal,
}

/// The edge of a package that a name denotes.
pub open spec fn package_edge_named(name: Seq<char>) -> Option<Edge> {
    if name == "dependencies"@ {
        Some(Edge::PackageDependencies)
    } else if name == "repository"@ {
        Some(Edge::PackageRepository)
    } else if name == "advisoryHistory"@ {
        Some(Edge::PackageAdvisoryHistory)
    } else if name == "geiger"@ {
        Some(Edge::PackageGeiger)
    } else {
        None
    }
}

/// The edge of a decomposition into categories that a name denotes.
pub open spec fn categories_edge_named(name: Seq<char>) -> Option<Edge> {
    if name == "functions"@ {
        Some(Edge::GeigerCategoriesFunctions)
    } else if name == "exprs"@ {
        Some(Edge::GeigerCategoriesExprs)
    } else if name == "item_impls"@ {
        Some(Edge::GeigerCategoriesItemImpls)
    } else if name == "item_traits"@ {
        Some(Edge::GeigerCategoriesItemTraits)
    } else if name == "methods"@ {
        Some(Edge::GeigerCategoriesMethods)
    } else if name == "total"@ {
        Some(Edge::GeigerCategoriesTotal)
    } else {
        None
    }
}

/// The edge that a type name and an edge name denote together, or `None`
/// where the schema declares no such pair.
pub open spec fn edge_named(vertex_type: Seq<char>, name: Seq<char>) -> Option<Edge> {
    if vertex_type == "Package"@ {
        package_edge_named(name)
    } else if vertex_type == "GitHubRepository"@ {
        if name == "owner"@ {
            Some(Edge::GitHubRepositoryOwner)
        } else {
            None
        }
    } else if vertex_type == "Advisory"@ {
        if name == "affectedFunctions"@ {
            Some(Edge::AdvisoryAffectedFunctions)
        } else {
            None
        }
    } else if vertex_type == "GeigerUnsafety"@ {
        if name == "used"@ {
            Some(Edge::GeigerUnsafetyUsed)
        } else if name == "unused"@ {
            Some(Edge::GeigerUnsafetyUnused)
        } else if name == "total"@ {
            Some(Edge::GeigerUnsafetyTotal)
        } else {
            None
        }
    } else if vertex_type == "GeigerCategories"@ {
        categories_edge_named(name)
    } else {
        None
    }
}

fn parse_package_edge(name: &str) -> (res: Option<Edge>)
    ensures
        res == package_edge_named(name@),
{
    if same_text(name, "dependencies") {
        Some(Edge::PackageDependencies)
    } else if same_text(name, "repository") {
        Some(Edge::PackageRepository)
    } else if same_text(name, "advisoryHistory") {
        Some(Edge::PackageAdvisoryHistory)
    } else if same_text(name, "geiger") {
        Some(Edge::PackageGeiger)
    } else {
        None
    }
}

fn parse_categories_edge(name: &str) -> (res: Option<Edge>)
    ensures
        res == categories_edge_named(name@),
{
    if same_text(name, "functions") {
        Some(Edge::GeigerCategoriesFunctions)
    } else if same_text(name, "exprs") {
        Some(Edge::GeigerCategoriesExprs)
    } else if same_text(name, "item_impls") {
        Some(Edge::GeigerCategoriesItemImpls)
    } else if same_text(name, "item_traits") {
        Some(Edge::GeigerCategoriesItemTraits)
    } else if same_text(name, "methods") {
        Some(Edge::GeigerCategoriesMethods)
    } else if same_text(name, "total") {
        Some(Edge::GeigerCategoriesTotal)
    } else {
        None
    }
}

impl Edge {
    /// The edge that the two names denote, or `None` where the schema
    /// declares no such pair.
    pub fn parse(vertex_type: &str, name: &str) -> (res: Option<Edge>)
        ensures
            res == edge_named(vertex_type@, name@),
    {
        if same_text(vertex_type, "Package") {
            parse_package_edge(name)
        } else if same_text(vertex_type, "GitHubRepository") {
            if same_text(name, "owner") {
                Some(Edge::GitHubRepositoryOwner)
            } else {
                None
            }
        } else if same_text(vertex_type, "Advisory") {
            if same_text(name, "affectedFunctions") {
                Some(Edge::AdvisoryAffectedFunctions)
            } else {
                None
            }
        } else if same_text(vertex_type, "GeigerUnsafety") {
            if same_text(name, "used") {
                Some(Edge::GeigerUnsafetyUsed)
            } else if same_text(name, "unused") {
                Some(Edge::GeigerUnsafetyUnused)
            } else if same_text(name, "total") {
                Some(Edge::GeigerUnsafetyTotal)
            } else {
                None
            }
        } else if same_text(vertex_type, "GeigerCategories") {
            parse_categories_edge(name)
        } else {
            None
        }
    }
}

/// A type that a vertex can be narrowed to.
#[derive(Clone, Copy, Debug, PartialEq, Eq, Structural)]
pub enum CoercionTarget {
    /// A repository of which only the address is known.
    Repository,
    /// A repository on GitHub.
    GitHubRepository,
}

/// The coercion target that a name denotes.
pub open spec fn coercion_target_named(name: Seq<char>) -> Option<CoercionTarget> {
    if name == "Repository"@ {
        Some(CoercionTarget::Repository)
    } else if name == "GitHubRepository"@ {
        Some(CoercionTarget::GitHubRepository)
    } else {
        None
    }
}

/// Whether a vertex is of the type that a coercion asks for.
pub open spec fn coerces_to(vertex: VertexView, target: CoercionTarget) -> bool {
    match target {
        CoercionTarget::Repository => vertex is Repository,
        CoercionTarget::GitHubRepository => vertex is GitHubRepository,
    }
}

impl CoercionTarget {
    /// The coercion target of that name, or `None` where none is supported.
    pub fn parse(name: &str) -> (res: Option<CoercionTarget>)
        ensures
            res == coercion_target_named(name@),
    {
        if same_text(name, "Repository") {
            Some(CoercionTarget::Repository)
        } else if same_text(name, "GitHubRepository") {
            Some(CoercionTarget::GitHubRepository)
        } else {
            None
        }
    }
}

impl Vertex {
    /// Whether this vertex is of the type that the coercion asks for.
    pub fn can_coerce_to(&self, target: CoercionTarget) -> (res: bool)
        ensures
            res == coerces_to(self@, target),
    {
        match target {
            CoercionTarget::Repository => self.as_repository().is_some(),
            CoercionTarget::GitHubRepository => self.as_git_hub_repository().is_some(),
        }
    }
}

} // verus!
