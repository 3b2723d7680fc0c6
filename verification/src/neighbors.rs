//! What following an edge from one vertex yields: the neighbours, or the
//! question that has to be put to the repository-info service first.

use crate::advisory::{
    clone_functions, Advisory, AdvisoryView, AffectedFunctionVersions, AffectedFunctionVersionsView,
};
use crate::edge::Edge;
use crate::package::Package;
use crate::repository::{
    classify_repository_url, github_id_of, GitHubRepository, GitHubRepositoryId,
    GitHubRepositoryIdView, GitHubRepositoryView, GitHubUser, GitHubUserView,
};
use crate::value::AdapterError;
use crate::vertex::{Vertex, VertexView};
use vstd::prelude::*;

verus! {

/// The outcome of following an edge from one vertex.
#[derive(Debug)]
pub enum Neighbors {
    /// The neighbours, in order.
    Ready(Vec<Vertex>),
    /// The address is that of a repository on GitHub: the repository-info
    /// service has to be asked for `id`, and [`repository_neighbors`] makes
    /// the neighbours of its answer.
    RepositoryLookup { url: String, id: GitHubRepositoryId },
    /// The repository has an owner: the repository-info service has to be
    /// asked for the account `login`, and [`owner_neighbors`] makes the
    /// neighbours of its answer.
    OwnerLookup { login: String },
}

/// The mathematical content of a [`Neighbors`].
pub enum NeighborsView {
    Ready(Seq<VertexView>),
    RepositoryLookup { url: Seq<char>, id: GitHubRepositoryIdView },
    OwnerLookup { login: Seq<char> },
}

impl View for Neighbors {
    type V = NeighborsView;

    open spec fn view(&self) -> NeighborsView {
        match self {
            Neighbors::Ready(vertices) => NeighborsView::Ready(vertices.deep_view()),
            Neighbors::RepositoryLookup { url, id } => NeighborsView::RepositoryLookup {
                url: url@,
                id: id@,
            },
            Neighbors::OwnerLookup { login } => NeighborsView::OwnerLookup { login: login@ },
        }
    }
}

impl DeepView for Neighbors {
    type V = NeighborsView;

    open spec fn deep_view(&self) -> NeighborsView {
        self@
    }
}

/// The content of the outcome of resolving an edge on one vertex.
pub open spec fn neighbors_result_view(result: Result<Neighbors, AdapterError>) -> Result<
    NeighborsView,
    AdapterError,
> {
    match result {
        Ok(neighbors) => Ok(neighbors@),
        Err(e) => Err(e),
    }
}

/// The vertex of a repository address, given what the repository-info
/// service said of it (`None` where it was not asked or knew nothing): the
/// repository on GitHub where the address is one and the service knew it,
/// else the generic repository with the address unchanged.
pub open spec fn repository_vertex(url: Seq<char>, found: Option<GitHubRepositoryView>)
    -> VertexView {
    match found {
        Some(repository) => if github_id_of(url) is Some {
            VertexView::GitHubRepository(repository)
        } else {
            VertexView::Repository(url)
        },
        None => VertexView::Repository(url),
    }
}

/// What the `repository` edge of a package with that address yields before
/// any service is asked.
pub open spec fn repository_step(url: Seq<char>) -> NeighborsView {
    match github_id_of(url) {
        Some(id) => NeighborsView::RepositoryLookup { url, id },
        None => NeighborsView::Ready(seq![VertexView::Repository(url)]),
    }
}

/// The vertices of a list of advisories.
pub open spec fn advisory_vertices(advisories: Seq<AdvisoryView>) -> Seq<VertexView> {
    Seq::new(advisories.len(), |i: int| VertexView::Advisory(advisories[i]))
}

/// The vertices of a list of affected functions.
pub open spec fn function_vertices(functions: Seq<AffectedFunctionVersionsView>) -> Seq<
    VertexView,
> {
    Seq::new(functions.len(), |i: int| VertexView::AffectedFunctionVersions(functions[i]))
}

/// Returns a form of repository for an address: the record that the
/// repository-info service found, where the address is that of a repository
/// on GitHub, and else the address alone.
pub fn get_repository_from_url(url: &str, found: Option<GitHubRepository>) -> (res: Vertex)
    ensures
        res@ == repository_vertex(
            url@,
            found.deep_view(),
        ),
{
    match found {
        Some(repository) => {
            if classify_repository_url(url).is_some() {
                Vertex::GitHubRepository(repository)
            } else {
                Vertex::Repository(url.to_owned())
            }
        },
        None => Vertex::Repository(url.to_owned()),
    }
}

/// The first step of the `repository` edge for a declared address.
pub fn repository_request(url: &str) -> (res: Neighbors)
    ensures
        res@ == repository_step(url@),
{
    match classify_repository_url(url) {
        Some(id) => Neighbors::RepositoryLookup { url: url.to_owned(), id },
        None => {
            let mut vertices: Vec<Vertex> = Vec::new();
            vertices.push(Vertex::Repository(url.to_owned()));
            assert(vertices.deep_view() =~= seq![VertexView::Repository(url@)]);
            Neighbors::Ready(vertices)
        },
    }
}

/// The neighbours along the `repository` edge, once the repository-info
/// service has answered: exactly one vertex.
pub fn repository_neighbors(url: &str, found: Option<GitHubRepository>) -> (res: Vec<Vertex>)
    ensures
        res.deep_view() == seq![
            repository_vertex(
                url@,
                found.deep_view(),
            ),
        ],
{
    let mut vertices: Vec<Vertex> = Vec::new();
    let ghost expected = repository_vertex(url@, found.deep_view());
    vertices.push(get_repository_from_url(url, found));
    assert(vertices.deep_view() =~= seq![expected]);
    vertices
}

/// The neighbours along the `owner` edge, once the repository-info service
/// has answered: the account, or nothing where the service knew none.
pub fn owner_neighbors(found: Option<GitHubUser>) -> (res: Vec<Vertex>)
    ensures
        res.deep_view() == match found.deep_view() {
            Some(user) => seq![VertexView::GitHubUser(user)],
            None => Seq::<VertexView>::empty(),
        },
{
    let mut vertices: Vec<Vertex> = Vec::new();
    match found {
        Some(user) => {
            let ghost view = user@;
            vertices.push(Vertex::GitHubUser(user));
            assert(vertices.deep_view() =~= seq![VertexView::GitHubUser(view)]);
        },
        None => {
            assert(vertices.deep_view() =~= Seq::<VertexView>::empty());
        },
    }
    vertices
}

/// The vertices of a list of advisories, in the same order.
pub fn vertices_of_advisories(advisories: Vec<Advisory>) -> (res: Vec<Vertex>)
    ensures
        res.deep_view() == advisory_vertices(advisories.deep_view()),
{
    let mut vertices: Vec<Vertex> = Vec::new();
    let mut i: usize = 0;
    while i < advisories.len()
        invariant
            i <= advisories.len(),
            vertices.len() == i,
            forall|j: int| 0 <= j < i ==> vertices[j]@ == VertexView::Advisory(advisories[j]@),
        decreases advisories.len() - i,
    {
        vertices.push(Vertex::Advisory(advisories[i].clone()));
        i += 1;
    }
    assert(vertices.deep_view() =~= advisory_vertices(advisories.deep_view()));
    vertices
}

/// The vertices of a list of affected functions, in the same order.
pub fn vertices_of_functions(functions: &Vec<AffectedFunctionVersions>) -> (res: Vec<Vertex>)
    ensures
        res.deep_view() == function_vertices(functions.deep_view()),
{
    let mut vertices: Vec<Vertex> = Vec::new();
    let mut i: usize = 0;
    while i < functions.len()
        invariant
            i <= functions.len(),
            vertices.len() == i,
            forall|j: int|
                0 <= j < i ==> vertices[j]@ == VertexView::AffectedFunctionVersions(
                    functions[j]@,
                ),
        decreases functions.len() - i,
    {
        vertices.push(Vertex::AffectedFunctionVersions(functions[i].clone()));
        i += 1;
    }
    assert(vertices.deep_view() =~= function_vertices(functions.deep_view()));
    vertices
}

/// A list that holds one vertex.
pub fn one_vertex(vertex: Vertex) -> (res: Vec<Vertex>)
    ensures
        res.deep_view() == seq![vertex@],
{
    let mut vertices: Vec<Vertex> = Vec::new();
    let ghost view = vertex@;
    vertices.push(vertex);
    assert(vertices.deep_view() =~= seq![view]);
    vertices
}

/// A list that holds no vertex.
pub fn no_vertices() -> (res: Vec<Vertex>)
    ensures
        res.deep_view() == Seq::<VertexView>::empty(),
{
    let vertices: Vec<Vertex> = Vec::new();
    assert(vertices.deep_view() =~= Seq::<VertexView>::empty());
    vertices
}

} // verus!
