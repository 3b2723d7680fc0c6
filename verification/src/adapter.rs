//! The adapter: the four operations through which a query engine reads the
//! graph, over the dependency index and the backend clients.

use crate::advisory::{advisory_history, AdvisoryClient};
use crate::client::{slot_after, ClientSlot, SlotDemand};
use crate::edge::{
    coerces_to, coercion_target_named, edge_named, CoercionTarget, Edge, StartingEdge,
};
use crate::geiger::{usage_of, GeigerClient};
use crate::index::DependencyIndex;
use crate::neighbors::{
    advisory_vertices, function_vertices, neighbors_result_view, no_vertices, one_vertex,
    repository_request, repository_step, vertices_of_advisories, vertices_of_functions, Neighbors,
    NeighborsView,
};
use crate::package::{package_map, Metadata, PackageView, SnapshotError};
use crate::parameters::{
    boolean_parameter, filter_of, get_boolean, parameters_view, AdvisoryFilter, EdgeParameters,
};
use crate::property::{context_property_value, property_named, Property};
use crate::text::same_text;
use crate::value::{AdapterError, FieldValue, FieldValueView};
use crate::vertex::{Vertex, VertexView};
use vstd::prelude::*;

verus! {

/// The package vertices of a list of identities, in the same order.
pub open spec fn package_vertices(packages: Map<Seq<char>, PackageView>, ids: Seq<Seq<char>>)
    -> Seq<VertexView> {
    Seq::new(ids.len(), |i: int| VertexView::Package(packages[ids[i]]))
}

/// The test that keeps every identity, or every identity but the root.
pub open spec fn wanted(root: Seq<char>, include_root: bool) -> spec_fn(Seq<char>) -> bool {
    |id: Seq<char>| include_root || id != root
}

/// The identities that the `Dependencies` edge starts from: those of the
/// resolved packages in resolution order, without the root unless
/// `include_root` is set.
pub open spec fn starting_ids(index: DependencyIndex, include_root: bool) -> Seq<Seq<char>> {
    index.order().filter(wanted(index.root(), include_root))
}

/// The vertices that a query starts from.
pub open spec fn starting_vertices(
    index: DependencyIndex,
    edge: StartingEdge,
    parameters: Map<Seq<char>, FieldValueView>,
) -> Result<Seq<VertexView>, AdapterError> {
    match edge {
        StartingEdge::RootPackage => Ok(seq![VertexView::Package(index.packages()[index.root()])]),
        StartingEdge::Dependencies => match boolean_parameter(parameters, "includeRoot"@) {
            Some(include_root) => Ok(
                package_vertices(index.packages(), starting_ids(index, include_root)),
            ),
            None => Err(AdapterError::MissingParameter),
        },
    }
}

/// The content of the outcome of resolving vertices.
pub open spec fn vertices_result_view(result: Result<Vec<Vertex>, AdapterError>) -> Result<
    Seq<VertexView>,
    AdapterError,
> {
    match result {
        Ok(vertices) => Ok(vertices.deep_view()),
        Err(e) => Err(e),
    }
}

/// The neighbours of a vertex along an edge that the graph itself decides:
/// the parts of an advisory or of a usage record, and the first step towards
/// a repository or its owner.
pub open spec fn structural_neighbors(vertex: VertexView, edge: Edge) -> Result<
    NeighborsView,
    AdapterError,
> {
    match (edge, vertex) {
        (Edge::PackageRepository, VertexView::Package(p)) => Ok(
            match p.repository {
                Some(url) => repository_step(url),
                None => NeighborsView::Ready(Seq::empty()),
            },
        ),
        (Edge::GitHubRepositoryOwner, VertexView::GitHubRepository(r)) => Ok(
            match r.owner {
                Some(login) => NeighborsView::OwnerLookup { login },
                None => NeighborsView::Ready(Seq::empty()),
            },
        ),
        (Edge::AdvisoryAffectedFunctions, VertexView::Advisory(a)) => Ok(
            NeighborsView::Ready(
                match a.affected {
                    Some(affected) => function_vertices(affected.functions),
                    None => Seq::empty(),
                },
            ),
        ),
        (Edge::GeigerUnsafetyUsed, VertexView::GeigerUnsafety(u)) => Ok(
            NeighborsView::Ready(seq![VertexView::GeigerCategories(u.used)]),
        ),
        (Edge::GeigerUnsafetyUnused, VertexView::GeigerUnsafety(u)) => Ok(
            NeighborsView::Ready(seq![VertexView::GeigerCategories(u.unused)]),
        ),
        (Edge::GeigerUnsafetyTotal, VertexView::GeigerUnsafety(u)) => Ok(
            NeighborsView::Ready(seq![VertexView::GeigerCategories(u.total())]),
        ),
        (Edge::GeigerCategoriesFunctions, VertexView::GeigerCategories(c)) => Ok(
            NeighborsView::Ready(seq![VertexView::GeigerCount(c.functions)]),
        ),
        (Edge::GeigerCategoriesExprs, VertexView::GeigerCategories(c)) => Ok(
            NeighborsView::Ready(seq![VertexView::GeigerCount(c.exprs)]),
        ),
        (Edge::GeigerCategoriesItemImpls, VertexView::GeigerCategories(c)) => Ok(
            NeighborsView::Ready(seq![VertexView::GeigerCount(c.item_impls)]),
        ),
        (Edge::GeigerCategoriesItemTraits, VertexView::GeigerCategories(c)) => Ok(
            NeighborsView::Ready(seq![VertexView::GeigerCount(c.item_traits)]),
        ),
        (Edge::GeigerCategoriesMethods, VertexView::GeigerCategories(c)) => Ok(
            NeighborsView::Ready(seq![VertexView::GeigerCount(c.methods)]),
        ),
        (Edge::GeigerCategoriesTotal, VertexView::GeigerCategories(c)) => Ok(
            NeighborsView::Ready(seq![VertexView::GeigerCount(c.total())]),
        ),
        _ => Err(AdapterError::UnexpectedVertex),
    }
}

/// The direct dependencies of a package of the index as vertices, in
/// declared order.
pub open spec fn dependency_neighbors(index: DependencyIndex, id: Seq<char>) -> Seq<VertexView> {
    package_vertices(index.packages(), index.dependencies()[id])
}

/// The advisory history of a package as vertices.
pub open spec fn advisory_neighbors(
    client: AdvisoryClient,
    vertex: VertexView,
    parameters: Map<Seq<char>, FieldValueView>,
) -> Result<NeighborsView, AdapterError> {
    match vertex {
        VertexView::Package(p) => match filter_of(parameters) {
            Ok(filter) => Ok(
                NeighborsView::Ready(
                    advisory_vertices(
                        advisory_history(
                            client@,
                            p.name,
                            filter.include_withdrawn,
                            filter.arch,
                            filter.os,
                            filter.min_severity,
                        ),
                    ),
                ),
            ),
            Err(e) => Err(e),
        },
        _ => Err(AdapterError::UnexpectedVertex),
    }
}

/// The usage record of a package as a vertex, where the client has one.
pub open spec fn geiger_neighbors(client: GeigerClient, vertex: VertexView) -> Result<
    NeighborsView,
    AdapterError,
> {
    match vertex {
        VertexView::Package(p) => Ok(
            NeighborsView::Ready(
                seq![VertexView::GeigerUnsafety(usage_of(client@, p.name, p.version)->0)],
            ),
        ),
        _ => Err(AdapterError::UnexpectedVertex),
    }
}

/// Whether the client that an edge needs is there; an edge that needs none
/// always has it.
pub open spec fn client_ready(adapter: IndicateAdapter, edge: Edge) -> bool {
    match edge {
        Edge::PackageAdvisoryHistory => adapter.advisory_slot() is Ready,
        Edge::PackageGeiger => adapter.geiger_slot() is Ready,
        _ => true,
    }
}

/// Whether the data that an edge needs is there for a package: its entry in
/// the dependency map for `dependencies`, its usage record for `geiger`.
pub open spec fn package_data_present(adapter: IndicateAdapter, package: PackageView, edge: Edge)
    -> bool {
    match edge {
        Edge::PackageDependencies => adapter.index().dependencies().contains_key(package.id),
        Edge::PackageGeiger => usage_of(
            adapter.geiger_slot()->Ready_0@,
            package.name,
            package.version,
        ) is Some,
        _ => true,
    }
}

/// Whether an edge can be followed from a vertex: the client that the edge
/// needs is there and, for a package, so is the data that the edge needs.
/// To follow an edge where this does not hold is a fault of the caller.
pub open spec fn can_follow_edge(adapter: IndicateAdapter, vertex: VertexView, edge: Edge) -> bool {
    &&& client_ready(adapter, edge)
    &&& vertex matches VertexView::Package(package) ==> package_data_present(
        adapter,
        package,
        edge,
    )
}

/// Whether an edge can be followed from every context that holds a vertex.
pub open spec fn can_follow_edge_from_all(
    adapter: IndicateAdapter,
    contexts: Seq<Option<VertexView>>,
    edge: Edge,
) -> bool {
    &&& client_ready(adapter, edge)
    &&& forall|i: int|
        0 <= i < contexts.len() ==> ((#[trigger] contexts[i]) matches Some(vertex)
            ==> can_follow_edge(adapter, vertex, edge))
}

/// What following an edge from a vertex yields, where the edge can be
/// followed from it.
pub open spec fn neighbors_of(
    adapter: IndicateAdapter,
    vertex: VertexView,
    edge: Edge,
    parameters: Map<Seq<char>, FieldValueView>,
) -> Result<NeighborsView, AdapterError> {
    match edge {
        Edge::PackageDependencies => match vertex {
            VertexView::Package(p) => Ok(
                NeighborsView::Ready(dependency_neighbors(adapter.index(), p.id)),
            ),
            _ => Err(AdapterError::UnexpectedVertex),
        },
        Edge::PackageAdvisoryHistory => advisory_neighbors(
            adapter.advisory_slot()->Ready_0,
            vertex,
            parameters,
        ),
        Edge::PackageGeiger => geiger_neighbors(adapter.geiger_slot()->Ready_0, vertex),
        _ => structural_neighbors(vertex, edge),
    }
}

/// What following an edge from a context yields: nothing where the context
/// holds no vertex.
pub open spec fn context_neighbors(
    adapter: IndicateAdapter,
    context: Option<VertexView>,
    edge: Edge,
    parameters: Map<Seq<char>, FieldValueView>,
) -> Result<NeighborsView, AdapterError> {
    match context {
        Some(vertex) => neighbors_of(adapter, vertex, edge, parameters),
        None => Ok(NeighborsView::Ready(Seq::empty())),
    }
}

/// Follows an edge that the graph itself decides.
pub fn resolve_structural(vertex: &Vertex, edge: Edge) -> (res: Result<Neighbors, AdapterError>)
    ensures
        neighbors_result_view(res) == structural_neighbors(vertex@, edge),
{
    match (edge, vertex) {
        (Edge::PackageRepository, Vertex::Package(p)) => Ok(
            match &p.repository {
                Some(url) => repository_request(url.as_str()),
                None => Neighbors::Ready(no_vertices()),
            },
        ),
        (Edge::GitHubRepositoryOwner, Vertex::GitHubRepository(r)) => Ok(
            match &r.owner {
                Some(login) => Neighbors::OwnerLookup { login: login.clone() },
                None => Neighbors::Ready(no_vertices()),
            },
        ),
        (Edge::AdvisoryAffectedFunctions, Vertex::Advisory(a)) => Ok(
            Neighbors::Ready(
                match &a.affected {
                    Some(affected) => vertices_of_functions(&affected.functions),
                    None => no_vertices(),
                },
            ),
        ),
        (Edge::GeigerUnsafetyUsed, Vertex::GeigerUnsafety(u)) => Ok(
            Neighbors::Ready(one_vertex(Vertex::GeigerCategories(u.used()))),
        ),
        (Edge::GeigerUnsafetyUnused, Vertex::GeigerUnsafety(u)) => Ok(
            Neighbors::Ready(one_vertex(Vertex::GeigerCategories(u.unused()))),
        ),
        (Edge::GeigerUnsafetyTotal, Vertex::GeigerUnsafety(u)) => Ok(
            Neighbors::Ready(one_vertex(Vertex::GeigerCategories(u.total()))),
        ),
        (Edge::GeigerCategoriesFunctions, Vertex::GeigerCategories(c)) => Ok(
            Neighbors::Ready(one_vertex(Vertex::GeigerCount(c.functions()))),
        ),
        (Edge::GeigerCategoriesExprs, Vertex::GeigerCategories(c)) => Ok(
            Neighbors::Ready(one_vertex(Vertex::GeigerCount(c.exprs()))),
        ),
        (Edge::GeigerCategoriesItemImpls, Vertex::GeigerCategories(c)) => Ok(
            Neighbors::Ready(one_vertex(Vertex::GeigerCount(c.item_impls()))),
        ),
        (Edge::GeigerCategoriesItemTraits, Vertex::GeigerCategories(c)) => Ok(
            Neighbors::Ready(one_vertex(Vertex::GeigerCount(c.item_traits()))),
        ),
        (Edge::GeigerCategoriesMethods, Vertex::GeigerCategories(c)) => Ok(
            Neighbors::Ready(one_vertex(Vertex::GeigerCount(c.methods()))),
        ),
        (Edge::GeigerCategoriesTotal, Vertex::GeigerCategories(c)) => Ok(
            Neighbors::Ready(one_vertex(Vertex::GeigerCount(c.total()))),
        ),
        _ => Err(AdapterError::UnexpectedVertex),
    }
}

/// Resolves the advisory history of a vertex with a client at hand.
pub fn resolve_advisories(client: &AdvisoryClient, vertex: &Vertex, parameters: &EdgeParameters)
    -> (res: Result<Neighbors, AdapterError>)
    ensures
        neighbors_result_view(res) == advisory_neighbors(
            *client,
            vertex@,
            parameters_view(*parameters),
        ),
{
    match vertex {
        Vertex::Package(p) => match AdvisoryFilter::from_parameters(parameters) {
            Ok(filter) => {
                let arch = match &filter.arch {
                    Some(a) => Some(a),
                    None => None,
                };
                let os = match &filter.os {
                    Some(o) => Some(o),
                    None => None,
                };
                let found = client.all_advisories_for_package(
                    p.name.as_str(),
                    filter.include_withdrawn,
                    arch,
                    os,
                    filter.min_severity,
                );
                Ok(Neighbors::Ready(vertices_of_advisories(found)))
            },
            Err(e) => Err(e),
        },
        _ => Err(AdapterError::UnexpectedVertex),
    }
}

/// Resolves the usage record of a vertex with a client at hand: exactly one
/// vertex for a package. Every package must have a usage record; to ask for
/// that of a package without one is a fault of the caller.
pub fn resolve_geiger(client: &GeigerClient, vertex: &Vertex) -> (res: Result<
    Neighbors,
    AdapterError,
>)
    requires
        vertex@ matches VertexView::Package(p) ==> usage_of(client@, p.name, p.version) is Some,
    ensures
        neighbors_result_view(res) == geiger_neighbors(*client, vertex@),
{
    match vertex {
        Vertex::Package(p) => {
            let unsafety = client.unsafety(p.name.as_str(), p.version.as_str()).unwrap();
            Ok(Neighbors::Ready(one_vertex(Vertex::GeigerUnsafety(unsafety))))
        },
        _ => Err(AdapterError::UnexpectedVertex),
    }
}

/// Whether a context coerces to a type: a context without a vertex coerces
/// to none.
pub open spec fn context_coerces(context: Option<VertexView>, target: CoercionTarget) -> bool {
    match context {
        Some(vertex) => coerces_to(vertex, target),
        None => false,
    }
}

/// Whether `values` holds the property of every context, in the order of
/// the contexts.
pub open spec fn properties_resolved(
    contexts: Seq<Option<VertexView>>,
    property: Property,
    values: Seq<FieldValueView>,
) -> bool {
    &&& values.len() == contexts.len()
    &&& forall|i: int|
        0 <= i < contexts.len() ==> context_property_value(#[trigger] contexts[i], property)
            == Ok::<FieldValueView, AdapterError>(values[i])
}

/// Whether the context at a position is the first without a value for the
/// property, and fails with `error`.
pub open spec fn property_fails_at(
    contexts: Seq<Option<VertexView>>,
    property: Property,
    error: AdapterError,
    position: int,
) -> bool {
    &&& 0 <= position < contexts.len()
    &&& context_property_value(contexts[position], property) == Err::<
        FieldValueView,
        AdapterError,
    >(error)
    &&& forall|j: int|
        0 <= j < position ==> context_property_value(#[trigger] contexts[j], property) is Ok
}

/// Whether `error` is what the first context without a value for the
/// property fails with.
pub open spec fn property_fails(
    contexts: Seq<Option<VertexView>>,
    property: Property,
    error: AdapterError,
) -> bool {
    exists|i: int| #[trigger] property_fails_at(contexts, property, error, i)
}

/// Whether `outcomes` holds what following the edge yields for every
/// context, in the order of the contexts.
pub open spec fn neighbors_resolved(
    adapter: IndicateAdapter,
    contexts: Seq<Option<VertexView>>,
    edge: Edge,
    parameters: Map<Seq<char>, FieldValueView>,
    outcomes: Seq<NeighborsView>,
) -> bool {
    &&& outcomes.len() == contexts.len()
    &&& forall|i: int|
        0 <= i < contexts.len() ==> context_neighbors(
            adapter,
            #[trigger] contexts[i],
            edge,
            parameters,
        ) == Ok::<NeighborsView, AdapterError>(outcomes[i])
}

/// Whether the context at a position is the first from which the edge
/// cannot be followed, and fails with `error`.
pub open spec fn neighbors_fail_at(
    adapter: IndicateAdapter,
    contexts: Seq<Option<VertexView>>,
    edge: Edge,
    parameters: Map<Seq<char>, FieldValueView>,
    error: AdapterError,
    position: int,
) -> bool {
    &&& 0 <= position < contexts.len()
    &&& context_neighbors(adapter, contexts[position], edge, parameters) == Err::<
        NeighborsView,
        AdapterError,
    >(error)
    &&& forall|j: int|
        0 <= j < position ==> context_neighbors(adapter, #[trigger] contexts[j], edge, parameters)
            is Ok
}

/// Whether `error` is what the first context from which the edge cannot be
/// followed fails with.
pub open spec fn neighbors_fail(
    adapter: IndicateAdapter,
    contexts: Seq<Option<VertexView>>,
    edge: Edge,
    parameters: Map<Seq<char>, FieldValueView>,
    error: AdapterError,
) -> bool {
    exists|i: int| #[trigger] neighbors_fail_at(adapter, contexts, edge, parameters, error, i)
}

/// The adapter of one project.
#[derive(Debug)]
pub struct IndicateAdapter {
    index: DependencyIndex,
    advisory_client: ClientSlot<AdvisoryClient>,
    geiger_client: ClientSlot<GeigerClient>,
}

impl IndicateAdapter {
    /// The dependency index of the project.
    pub closed spec fn index(self) -> DependencyIndex {
        self.index
    }

    /// The slot of the advisory client.
    pub closed spec fn advisory_slot(self) -> ClientSlot<AdvisoryClient> {
        self.advisory_client
    }

    /// The slot of the unsafe-usage client.
    pub closed spec fn geiger_slot(self) -> ClientSlot<GeigerClient> {
        self.geiger_client
    }

    /// Creates a new adapter from the snapshot of a project. Both client
    /// slots start empty.
    ///
    /// Fails exactly when the snapshot has a defect.
    pub fn new(metadata: Metadata) -> (res: Result<IndicateAdapter, SnapshotError>)
        ensures
            match res {
                Ok(adapter) => {
                    &&& crate::index::snapshot_defect(metadata) is None
                    &&& adapter.index().wf()
                    &&& adapter.index().packages() == package_map(metadata.packages@)
                    &&& adapter.index().dependencies() == crate::package::dependency_map(
                        metadata.resolve->0.nodes@,
                    )
                    &&& adapter.index().root() == metadata.resolve->0.root->0@
                    &&& adapter.index().order() == Seq::new(
                        metadata.resolve->0.nodes@.len(),
                        |i: int| metadata.resolve->0.nodes@[i].id@,
                    )
                    &&& adapter.advisory_slot() is Empty
                    &&& adapter.geiger_slot() is Empty
                },
                Err(e) => crate::index::snapshot_defect(metadata) == Some(e),
            },
    {
        match DependencyIndex::build(metadata) {
            Ok(index) => Ok(
                IndicateAdapter {
                    index,
                    advisory_client: ClientSlot::new(),
                    geiger_client: ClientSlot::new(),
                },
            ),
            Err(e) => Err(e),
        }
    }

    /// The dependency index of the project.
    pub fn dependency_index(&self) -> (res: &DependencyIndex)
        ensures
            *res == self.index(),
            res.wf(),
    {
        self.index.validity();
        &self.index
    }

    /// What has to be done before advisories can be resolved.
    pub fn advisory_demand(&self) -> (res: SlotDemand)
        ensures
            res == match self.advisory_slot() {
                ClientSlot::Empty => SlotDemand::Create,
                ClientSlot::Ready(_) => SlotDemand::Use,
                ClientSlot::Failed => SlotDemand::Fail,
            },
    {
        self.advisory_client.demand()
    }

    /// What has to be done before unsafe-usage data can be resolved.
    pub fn geiger_demand(&self) -> (res: SlotDemand)
        ensures
            res == match self.geiger_slot() {
                ClientSlot::Empty => SlotDemand::Create,
                ClientSlot::Ready(_) => SlotDemand::Use,
                ClientSlot::Failed => SlotDemand::Fail,
            },
    {
        self.geiger_client.demand()
    }

    /// Records the outcome of the attempt to create the advisory client.
    /// Nothing else changes, and only an empty slot takes the outcome.
    pub fn install_advisory_client(&mut self, outcome: Option<AdvisoryClient>)
        ensures
            final(self).advisory_slot() == slot_after(old(self).advisory_slot(), outcome),
            final(self).geiger_slot() == old(self).geiger_slot(),
            final(self).index() == old(self).index(),
    {
        self.advisory_client.record(outcome);
    }

    /// Records the outcome of the attempt to create the unsafe-usage client.
    /// Nothing else changes, and only an empty slot takes the outcome.
    pub fn install_geiger_client(&mut self, outcome: Option<GeigerClient>)
        ensures
            final(self).geiger_slot() == slot_after(old(self).geiger_slot(), outcome),
            final(self).advisory_slot() == old(self).advisory_slot(),
            final(self).index() == old(self).index(),
    {
        self.geiger_client.record(outcome);
    }

    /// The advisory client. It must have been created: [`advisory_demand`]
    /// tells whether it was, and no other client stands in for one that
    /// could not be created.
    ///
    /// [`advisory_demand`]: IndicateAdapter::advisory_demand
    pub fn advisory_client(&self) -> (res: &AdvisoryClient)
        requires
            self.advisory_slot() is Ready,
        ensures
            *res == self.advisory_slot()->Ready_0,
    {
        self.advisory_client.get().unwrap()
    }

    /// The unsafe-usage client. It must have been created:
    /// [`geiger_demand`] tells whether it was, and no other client stands in
    /// for one that could not be created.
    ///
    /// [`geiger_demand`]: IndicateAdapter::geiger_demand
    pub fn geiger_client(&self) -> (res: &GeigerClient)
        requires
            self.geiger_slot() is Ready,
        ensures
            *res == self.geiger_slot()->Ready_0,
    {
        self.geiger_client.get().unwrap()
    }

    /// The vertex of the root package.
    pub fn root_package(&self) -> (res: Vertex)
        ensures
            res@ == VertexView::Package(self.index().packages()[self.index().root()]),
    {
        let root = self.index.root_id();
        Vertex::Package(self.index.lookup(root).unwrap().clone())
    }

    /// The vertices of all resolved packages in resolution order, with the
    /// root package only where `include_root` is set.
    pub fn dependencies(&self, include_root: bool) -> (res: Vec<Vertex>)
        ensures
            res.deep_view() == package_vertices(
                self.index().packages(),
                starting_ids(self.index(), include_root),
            ),
    {
        let index = &self.index;
        let root = index.root_id();
        let count = index.node_count();
        let ghost order = index.order();
        let ghost keep = wanted(index.root(), include_root);
        let ghost mut ids: Seq<Seq<char>> = Seq::empty();
        let mut vertices: Vec<Vertex> = Vec::new();
        let mut i: usize = 0;
        proof {
            reveal(Seq::filter);
            assert(order.take(0) =~= Seq::<Seq<char>>::empty());
        }
        while i < count
            invariant
                i <= count,
                count == order.len(),
                order == index.order(),
                root@ == index.root(),
                keep == wanted(index.root(), include_root),
                ids == order.take(i as int).filter(keep),
                vertices.deep_view() =~= package_vertices(index.packages(), ids),
            decreases count - i,
        {
            let id = index.node_id(i);
            proof {
                assert(order.take(i + 1) =~= order.take(i as int).push(id@));
                order.take(i as int).lemma_filter_push(id@, keep);
            }
            assert(keep(id@) == (include_root || id@ != index.root()));
            if include_root || !same_text(id, root) {
                let ghost before = vertices.deep_view();
                vertices.push(Vertex::Package(index.lookup(id).unwrap().clone()));
                proof {
                    let vertex = VertexView::Package(index.packages()[id@]);
                    assert(vertices.deep_view() =~= before.push(vertex));
                    assert(package_vertices(index.packages(), ids.push(id@))
                        =~= package_vertices(index.packages(), ids).push(vertex));
                    ids = ids.push(id@);
                }
            }
            i += 1;
        }
        proof {
            assert(order.take(i as int) =~= order);
        }
        vertices
    }

    /// The direct dependencies of a package as vertices, in declared order.
    ///
    /// The identity must be one that the index holds: an index is complete,
    /// so to ask for any other is a fault of the caller.
    pub fn get_dependencies(&self, package_id: &str) -> (res: Vec<Vertex>)
        requires
            self.index().dependencies().contains_key(package_id@),
        ensures
            res.deep_view() == dependency_neighbors(self.index(), package_id@),
    {
        let index = &self.index;
        let ids = index.direct_dependencies(package_id).unwrap();
        let ghost wanted_ids = index.dependencies()[package_id@];
        let mut vertices: Vec<Vertex> = Vec::new();
        let mut i: usize = 0;
        while i < ids.len()
            invariant
                i <= ids.len(),
                ids.deep_view() == wanted_ids,
                forall|k: int|
                    0 <= k < ids.len() ==> index.packages().contains_key((#[trigger] ids[k])@),
                vertices.len() == i,
                forall|j: int|
                    0 <= j < i ==> vertices[j]@ == VertexView::Package(
                        index.packages()[wanted_ids[j]],
                    ),
            decreases ids.len() - i,
        {
            assert(ids.deep_view()[i as int] == ids[i as int]@);
            let package = index.lookup(ids[i].as_str()).unwrap();
            vertices.push(Vertex::Package(package.clone()));
            i += 1;
        }
        assert(vertices.deep_view() =~= package_vertices(index.packages(), wanted_ids));
        vertices
    }

    /// Whether an edge can be followed from a vertex: whether the client
    /// that the edge needs is there and, for a package, the data that the
    /// edge needs.
    pub fn can_follow(&self, vertex: &Vertex, edge: Edge) -> (res: bool)
        ensures
            res == can_follow_edge(*self, vertex@, edge),
    {
        match self.client_demand(edge) {
            SlotDemand::Use => {},
            _ => { return false; },
        }
        match (vertex, edge) {
            (Vertex::Package(p), Edge::PackageDependencies) => self.index.direct_dependencies(
                p.id.as_str(),
            ).is_some(),
            (Vertex::Package(p), Edge::PackageGeiger) => self.geiger_client().unsafety(
                p.name.as_str(),
                p.version.as_str(),
            ).is_some(),
            _ => true,
        }
    }

    /// Whether an edge can be followed from every context that holds a
    /// vertex.
    pub fn can_follow_from_all(&self, contexts: &Vec<Option<Vertex>>, edge: Edge) -> (res: bool)
        ensures
            res == can_follow_edge_from_all(*self, contexts.deep_view(), edge),
    {
        match self.client_demand(edge) {
            SlotDemand::Use => {},
            _ => { return false; },
        }
        let mut i: usize = 0;
        while i < contexts.len()
            invariant
                i <= contexts.len(),
                client_ready(*self, edge),
                forall|j: int|
                    0 <= j < i ==> ((#[trigger] contexts.deep_view()[j]) matches Some(vertex)
                        ==> can_follow_edge(*self, vertex, edge)),
            decreases contexts.len() - i,
        {
            assert(contexts.deep_view()[i as int] == contexts[i as int].deep_view());
            match &contexts[i] {
                Some(vertex) => {
                    if !self.can_follow(vertex, edge) {
                        return false;
                    }
                },
                None => {},
            }
            i += 1;
        }
        true
    }

    /// Follows an edge from one vertex. The edge must be one that can be
    /// followed from it, which [`can_follow`] tells.
    ///
    /// Fails for a vertex of another type than the edge starts from, and for
    /// an advisory history with bad parameters.
    ///
    /// [`can_follow`]: IndicateAdapter::can_follow
    pub fn neighbors(&self, vertex: &Vertex, edge: Edge, parameters: &EdgeParameters) -> (res:
        Result<Neighbors, AdapterError>)
        requires
            can_follow_edge(*self, vertex@, edge),
        ensures
            neighbors_result_view(res) == neighbors_of(
                *self,
                vertex@,
                edge,
                parameters_view(*parameters),
            ),
    {
        match edge {
            Edge::PackageDependencies => match vertex {
                Vertex::Package(p) => Ok(Neighbors::Ready(self.get_dependencies(p.id.as_str()))),
                _ => Err(AdapterError::UnexpectedVertex),
            },
            Edge::PackageAdvisoryHistory => resolve_advisories(
                self.advisory_client(),
                vertex,
                parameters,
            ),
            Edge::PackageGeiger => resolve_geiger(self.geiger_client(), vertex),
            _ => resolve_structural(vertex, edge),
        }
    }

    /// Resolves a property on every context, one value for each context and
    /// in the same order. A context without a vertex yields `Null`.
    ///
    /// The two names must denote a property that the schema declares, which
    /// [`Property::parse`] tells: to ask for any other is a fault of the
    /// caller. Fails with the error of the first context that has no value.
    pub fn resolve_property(
        &self,
        contexts: &Vec<Option<Vertex>>,
        vertex_type: &str,
        property_name: &str,
    ) -> (res: Result<Vec<FieldValue>, AdapterError>)
        requires
            property_named(vertex_type@, property_name@) is Some,
        ensures
            match res {
                Ok(values) => properties_resolved(
                    contexts.deep_view(),
                    property_named(vertex_type@, property_name@)->0,
                    values.deep_view(),
                ),
                Err(e) => property_fails(
                    contexts.deep_view(),
                    property_named(vertex_type@, property_name@)->0,
                    e,
                ),
            },
    {
        let property = Property::parse(vertex_type, property_name).unwrap();
        let mut values: Vec<FieldValue> = Vec::new();
        let mut i: usize = 0;
        while i < contexts.len()
            invariant
                i <= contexts.len(),
                values.len() == i,
                property_named(vertex_type@, property_name@) == Some(property),
                forall|j: int|
                    0 <= j < i ==> context_property_value(
                        #[trigger] contexts.deep_view()[j],
                        property,
                    ) == Ok::<FieldValueView, AdapterError>(values[j]@),
            decreases contexts.len() - i,
        {
            assert(contexts.deep_view()[i as int] == contexts[i as int].deep_view());
            let value = match &contexts[i] {
                Some(vertex) => match vertex.property(property) {
                    Ok(value) => value,
                    Err(e) => {
                        proof {
                            let at = i as int;
                            assert(context_property_value(contexts.deep_view()[at], property)
                                == Err::<FieldValueView, AdapterError>(e));
                            assert(property_fails_at(contexts.deep_view(), property, e, at));
                        }
                        return Err(e);
                    },
                },
                None => FieldValue::Null,
            };
            values.push(value);
            i += 1;
        }
        assert(values.deep_view().len() == contexts.deep_view().len());
        assert forall|k: int| 0 <= k < contexts.deep_view().len() implies context_property_value(
            #[trigger] contexts.deep_view()[k],
            property,
        ) == Ok::<FieldValueView, AdapterError>(values.deep_view()[k]) by {
            assert(values.deep_view()[k] == values[k]@);
        }
        Ok(values)
    }

    /// What has to be done before an edge can be followed: the demand of
    /// the client that the edge needs, if it needs one.
    pub fn client_demand(&self, edge: Edge) -> (res: SlotDemand)
        ensures
            res == SlotDemand::Use <==> client_ready(*self, edge),
            res == match edge {
                Edge::PackageAdvisoryHistory => match self.advisory_slot() {
                    ClientSlot::Empty => SlotDemand::Create,
                    ClientSlot::Ready(_) => SlotDemand::Use,
                    ClientSlot::Failed => SlotDemand::Fail,
                },
                Edge::PackageGeiger => match self.geiger_slot() {
                    ClientSlot::Empty => SlotDemand::Create,
                    ClientSlot::Ready(_) => SlotDemand::Use,
                    ClientSlot::Failed => SlotDemand::Fail,
                },
                _ => SlotDemand::Use,
            },
    {
        match edge {
            Edge::PackageAdvisoryHistory => self.advisory_client.demand(),
            Edge::PackageGeiger => self.geiger_client.demand(),
            _ => SlotDemand::Use,
        }
    }

    /// Follows an edge from every context, one outcome for each context and
    /// in the same order. A context without a vertex has no neighbours.
    ///
    /// The two names must denote an edge that the schema declares, which
    /// [`Edge::parse`] tells, and the edge must be one that can be followed
    /// from every context, which [`can_follow_from_all`] tells: anything
    /// else is a fault of the caller. Fails with the error of the first
    /// context from which the edge does not start or whose parameters are
    /// bad.
    ///
    /// [`can_follow_from_all`]: IndicateAdapter::can_follow_from_all
    pub fn resolve_neighbors(
        &self,
        contexts: &Vec<Option<Vertex>>,
        vertex_type: &str,
        edge_name: &str,
        parameters: &EdgeParameters,
    ) -> (res: Result<Vec<Neighbors>, AdapterError>)
        requires
            edge_named(vertex_type@, edge_name@) is Some,
            can_follow_edge_from_all(
                *self,
                contexts.deep_view(),
                edge_named(vertex_type@, edge_name@)->0,
            ),
        ensures
            match res {
                Ok(outcomes) => neighbors_resolved(
                    *self,
                    contexts.deep_view(),
                    edge_named(vertex_type@, edge_name@)->0,
                    parameters_view(*parameters),
                    outcomes.deep_view(),
                ),
                Err(e) => neighbors_fail(
                    *self,
                    contexts.deep_view(),
                    edge_named(vertex_type@, edge_name@)->0,
                    parameters_view(*parameters),
                    e,
                ),
            },
    {
        let edge = Edge::parse(vertex_type, edge_name).unwrap();
        let ghost given = parameters_view(*parameters);
        let mut outcomes: Vec<Neighbors> = Vec::new();
        let mut i: usize = 0;
        while i < contexts.len()
            invariant
                i <= contexts.len(),
                outcomes.len() == i,
                given == parameters_view(*parameters),
                edge_named(vertex_type@, edge_name@) == Some(edge),
                can_follow_edge_from_all(*self, contexts.deep_view(), edge),
                forall|j: int|
                    0 <= j < i ==> context_neighbors(
                        *self,
                        #[trigger] contexts.deep_view()[j],
                        edge,
                        given,
                    ) == Ok::<NeighborsView, AdapterError>(outcomes[j]@),
            decreases contexts.len() - i,
        {
            assert(contexts.deep_view()[i as int] == contexts[i as int].deep_view());
            let outcome = match &contexts[i] {
                Some(vertex) => match self.neighbors(vertex, edge, parameters) {
                    Ok(outcome) => outcome,
                    Err(e) => {
                        proof {
                            let at = i as int;
                            assert(context_neighbors(*self, contexts.deep_view()[at], edge, given)
                                == Err::<NeighborsView, AdapterError>(e));
                            assert(neighbors_fail_at(
                                *self,
                                contexts.deep_view(),
                                edge,
                                given,
                                e,
                                at,
                            ));
                        }
                        return Err(e);
                    },
                },
                None => Neighbors::Ready(no_vertices()),
            };
            outcomes.push(outcome);
            i += 1;
        }
        assert(outcomes.deep_view().len() == contexts.deep_view().len());
        assert forall|k: int| 0 <= k < contexts.deep_view().len() implies context_neighbors(
            *self,
            #[trigger] contexts.deep_view()[k],
            edge,
            given,
        ) == Ok::<NeighborsView, AdapterError>(outcomes.deep_view()[k]) by {
            assert(outcomes.deep_view()[k] == outcomes[k]@);
        }
        Ok(outcomes)
    }

    /// Tells for every context whether its vertex is of the type asked for,
    /// one answer for each context and in the same order. A context without
    /// a vertex is of no type.
    ///
    /// The type asked for must be one that a vertex can be narrowed to,
    /// which [`CoercionTarget::parse`] tells: to ask for any other is a
    /// fault of the caller, and is never answered with `false`.
    pub fn resolve_coercion(
        &self,
        contexts: &Vec<Option<Vertex>>,
        vertex_type: &str,
        coerce_to_type: &str,
    ) -> (res: Vec<bool>)
        requires
            coercion_target_named(coerce_to_type@) is Some,
        ensures
            res.len() == contexts.len(),
            forall|i: int|
                0 <= i < contexts.len() ==> #[trigger] res[i] == context_coerces(
                    contexts[i].deep_view(),
                    coercion_target_named(coerce_to_type@)->0,
                ),
    {
        let target = CoercionTarget::parse(coerce_to_type).unwrap();
        let mut answers: Vec<bool> = Vec::new();
        let mut i: usize = 0;
        while i < contexts.len()
            invariant
                i <= contexts.len(),
                answers.len() == i,
                forall|j: int|
                    0 <= j < i ==> #[trigger] answers[j] == context_coerces(
                        contexts[j].deep_view(),
                        target,
                    ),
            decreases contexts.len() - i,
        {
            let answer = match &contexts[i] {
                Some(vertex) => vertex.can_coerce_to(target),
                None => false,
            };
            answers.push(answer);
            i += 1;
        }
        answers
    }

    /// Resolves the vertices that a query starts from.
    ///
    /// The edge must be one that a query can start from, which
    /// [`StartingEdge::parse`] tells: to start from any other is a fault of
    /// the caller. Fails for `Dependencies` without a truth value for
    /// `includeRoot`.
    pub fn resolve_starting_vertices(&self, edge_name: &str, parameters: &EdgeParameters) -> (res:
        Result<Vec<Vertex>, AdapterError>)
        requires
            crate::edge::starting_edge_named(edge_name@) is Some,
        ensures
            vertices_result_view(res) == starting_vertices(
                self.index(),
                crate::edge::starting_edge_named(edge_name@)->0,
                parameters_view(*parameters),
            ),
    {
        match StartingEdge::parse(edge_name).unwrap() {
            StartingEdge::RootPackage => Ok(one_vertex(self.root_package())),
            StartingEdge::Dependencies => match get_boolean(parameters, "includeRoot") {
                Some(include_root) => Ok(self.dependencies(include_root)),
                None => Err(AdapterError::MissingParameter),
            },
        }
    }
}

} // verus!
