//! The dependency graph index: a snapshot that has been checked for
//! consistency, with the maps that answer lookups by package identity.

use crate::package::{
    dependency_entries, dependency_map, dependency_map_view, package_entries, package_map,
    package_map_view, parse_metadata, DirectDependencyMap, Metadata, Node, Package, PackageMap,
    PackageView, SnapshotError,
};
use crate::text::same_text;
use crate::text_map::{lemma_entries_map_domain, lemma_entries_map_value};
use vstd::prelude::*;

verus! {

/// Whether some package of the list carries the identity.
pub open spec fn has_package(packages: Seq<Package>, id: Seq<char>) -> bool {
    exists|i: int| 0 <= i < packages.len() && (#[trigger] packages[i]).id@ == id
}

/// Whether some node of the list carries the identity.
pub open spec fn has_node(nodes: Seq<Node>, id: Seq<char>) -> bool {
    exists|i: int| 0 <= i < nodes.len() && (#[trigger] nodes[i]).id@ == id
}

/// Whether no two nodes of the list share an identity.
pub open spec fn distinct_nodes(nodes: Seq<Node>) -> bool {
    forall|i: int, j: int|
        0 <= i < j < nodes.len() ==> (#[trigger] nodes[i]).id@ != (#[trigger] nodes[j]).id@
}

/// Whether every identity of the list is that of a package.
pub open spec fn ids_known(packages: Seq<Package>, ids: Seq<String>) -> bool {
    forall|k: int| 0 <= k < ids.len() ==> has_package(packages, (#[trigger] ids[k])@)
}

/// Whether every node, and every dependency of every node, is a package.
pub open spec fn nodes_known(packages: Seq<Package>, nodes: Seq<Node>) -> bool {
    forall|i: int|
        0 <= i < nodes.len() ==> has_package(packages, (#[trigger] nodes[i]).id@) && ids_known(
            packages,
            nodes[i].dependencies@,
        )
}

/// Whether every package has a node.
pub open spec fn packages_resolved(packages: Seq<Package>, nodes: Seq<Node>) -> bool {
    forall|i: int| 0 <= i < packages.len() ==> has_node(nodes, (#[trigger] packages[i]).id@)
}

/// What keeps a snapshot from being indexed, if anything does. Where it has
/// several defects, the first of this order is reported: no resolved graph,
/// no root, two nodes of one identity, an identity without a package, a
/// package without a node.
pub open spec fn snapshot_defect(metadata: Metadata) -> Option<SnapshotError> {
    match metadata.resolve {
        None => Some(SnapshotError::NoResolution),
        Some(resolve) => match resolve.root {
            None => Some(SnapshotError::NoRoot),
            Some(root) => if !distinct_nodes(resolve.nodes@) {
                Some(SnapshotError::DuplicateNode)
            } else if !(has_package(metadata.packages@, root@) && nodes_known(
                metadata.packages@,
                resolve.nodes@,
            )) {
                Some(SnapshotError::UnknownPackage)
            } else if !packages_resolved(metadata.packages@, resolve.nodes@) {
                Some(SnapshotError::UnresolvedPackage)
            } else {
                None
            },
        },
    }
}

/// What holds of the two maps of an index: the key of a package is its
/// identity, every package has an entry in the dependency map, and every
/// identity in a dependency list is that of a package.
pub open spec fn index_consistent(
    packages: Map<Seq<char>, PackageView>,
    dependencies: Map<Seq<char>, Seq<Seq<char>>>,
) -> bool {
    &&& forall|id: Seq<char>| #[trigger]
        packages.contains_key(id) ==> packages[id].id == id && dependencies.contains_key(id)
    &&& forall|id: Seq<char>, k: int|
        dependencies.contains_key(id) && 0 <= k < dependencies[id].len()
            ==> packages.contains_key(#[trigger] dependencies[id][k])
}

/// A package identity is in the package map exactly when a package has it.
pub proof fn lemma_package_map_domain(packages: Seq<Package>, id: Seq<char>)
    ensures
        package_map(packages).contains_key(id) <==> has_package(packages, id),
{
    lemma_entries_map_domain(package_entries(packages), id);
    if has_package(packages, id) {
        let i = choose|i: int| 0 <= i < packages.len() && (#[trigger] packages[i]).id@ == id;
        assert(package_entries(packages)[i].0@ == id);
    }
    if package_map(packages).contains_key(id) {
        let i = choose|i: int|
            0 <= i < package_entries(packages).len() && (#[trigger] package_entries(
                packages,
            )[i]).0@ == id;
        assert(packages[i].id@ == id);
    }
}

/// An identity is in the dependency map exactly when a node has it.
pub proof fn lemma_dependency_map_domain(nodes: Seq<Node>, id: Seq<char>)
    ensures
        dependency_map(nodes).contains_key(id) <==> has_node(nodes, id),
{
    lemma_entries_map_domain(dependency_entries(nodes), id);
    if has_node(nodes, id) {
        let i = choose|i: int| 0 <= i < nodes.len() && (#[trigger] nodes[i]).id@ == id;
        assert(dependency_entries(nodes)[i].0@ == id);
    }
    if dependency_map(nodes).contains_key(id) {
        let i = choose|i: int|
            0 <= i < dependency_entries(nodes).len() && (#[trigger] dependency_entries(
                nodes,
            )[i]).0@ == id;
        assert(nodes[i].id@ == id);
    }
}

/// The maps of a snapshot without defect are consistent.
pub proof fn lemma_maps_consistent(metadata: Metadata)
    requires
        snapshot_defect(metadata) is None,
    ensures
        index_consistent(
            package_map(metadata.packages@),
            dependency_map(metadata.resolve->0.nodes@),
        ),
{
    let packages = metadata.packages@;
    let nodes = metadata.resolve->0.nodes@;
    assert forall|id: Seq<char>| #[trigger]
        package_map(packages).contains_key(id) implies package_map(packages)[id].id == id
        && dependency_map(nodes).contains_key(id) by {
        lemma_entries_map_value(package_entries(packages), id);
        let i = choose|i: int|
            0 <= i < package_entries(packages).len() && (#[trigger] package_entries(
                packages,
            )[i]).0@ == id && crate::text_map::entries_map(package_entries(packages))[id]
                == package_entries(packages)[i].1;
        assert(packages[i].id@ == id);
        lemma_dependency_map_domain(nodes, id);
    }
    assert forall|id: Seq<char>, k: int|
        dependency_map(nodes).contains_key(id) && 0 <= k < dependency_map(
            nodes,
        )[id].len() implies package_map(packages).contains_key(
        #[trigger] dependency_map(nodes)[id][k],
    ) by {
        lemma_entries_map_value(dependency_entries(nodes), id);
        let i = choose|i: int|
            0 <= i < dependency_entries(nodes).len() && (#[trigger] dependency_entries(
                nodes,
            )[i]).0@ == id && crate::text_map::entries_map(dependency_entries(nodes))[id]
                == dependency_entries(nodes)[i].1;
        assert(nodes[i].id@ == id);
        assert(ids_known(packages, nodes[i].dependencies@));
        assert(dependency_map(nodes)[id] == nodes[i].dependencies.deep_view());
        assert(has_package(packages, nodes[i].dependencies@[k]@));
        lemma_package_map_domain(packages, nodes[i].dependencies@[k]@);
    }
}

fn nodes_are_distinct(nodes: &Vec<Node>) -> (res: bool)
    ensures
        res == distinct_nodes(nodes@),
{
    let mut j: usize = 0;
    while j < nodes.len()
        invariant
            j <= nodes.len(),
            forall|a: int, b: int|
                0 <= a < b < j ==> (#[trigger] nodes[a]).id@ != (#[trigger] nodes[b]).id@,
        decreases nodes.len() - j,
    {
        let mut i: usize = 0;
        while i < j
            invariant
                i <= j < nodes.len(),
                forall|a: int| 0 <= a < i ==> (#[trigger] nodes[a]).id@ != nodes[j as int].id@,
            decreases j - i,
        {
            if same_text(nodes[i].id.as_str(), nodes[j].id.as_str()) {
                return false;
            }
            i += 1;
        }
        j += 1;
    }
    true
}

fn ids_are_known(packages: &PackageMap, ids: &Vec<String>, Ghost(listed): Ghost<Seq<Package>>) -> (res:
    bool)
    requires
        package_map_view(*packages) == package_map(listed),
    ensures
        res == ids_known(listed, ids@),
{
    let mut k: usize = 0;
    while k < ids.len()
        invariant
            k <= ids.len(),
            package_map_view(*packages) == package_map(listed),
            forall|a: int| 0 <= a < k ==> has_package(listed, (#[trigger] ids[a])@),
        decreases ids.len() - k,
    {
        proof {
            lemma_package_map_domain(listed, ids[k as int]@);
            assert(package_map_view(*packages).contains_key(ids[k as int]@)
                == packages@.contains_key(ids[k as int]@));
        }
        if !packages.contains_key(ids[k].as_str()) {
            return false;
        }
        k += 1;
    }
    true
}

fn nodes_are_known(packages: &PackageMap, nodes: &Vec<Node>, Ghost(listed): Ghost<Seq<Package>>) -> (res:
    bool)
    requires
        package_map_view(*packages) == package_map(listed),
    ensures
        res == nodes_known(listed, nodes@),
{
    let mut i: usize = 0;
    while i < nodes.len()
        invariant
            i <= nodes.len(),
            package_map_view(*packages) == package_map(listed),
            forall|a: int|
                0 <= a < i ==> has_package(listed, (#[trigger] nodes[a]).id@) && ids_known(
                    listed,
                    nodes[a].dependencies@,
                ),
        decreases nodes.len() - i,
    {
        proof {
            lemma_package_map_domain(listed, nodes[i as int].id@);
            assert(package_map_view(*packages).contains_key(nodes[i as int].id@)
                == packages@.contains_key(nodes[i as int].id@));
        }
        if !packages.contains_key(nodes[i].id.as_str()) {
            return false;
        }
        if !ids_are_known(packages, &nodes[i].dependencies, Ghost(listed)) {
            return false;
        }
        i += 1;
    }
    true
}

fn packages_are_resolved(
    dependencies: &DirectDependencyMap,
    packages: &Vec<Package>,
    Ghost(nodes): Ghost<Seq<Node>>,
) -> (res: bool)
    requires
        dependency_map_view(*dependencies) == dependency_map(nodes),
    ensures
        res == packages_resolved(packages@, nodes),
{
    let mut i: usize = 0;
    while i < packages.len()
        invariant
            i <= packages.len(),
            dependency_map_view(*dependencies) == dependency_map(nodes),
            forall|a: int| 0 <= a < i ==> has_node(nodes, (#[trigger] packages[a]).id@),
        decreases packages.len() - i,
    {
        proof {
            lemma_dependency_map_domain(nodes, packages[i as int].id@);
            assert(dependency_map_view(*dependencies).contains_key(packages[i as int].id@)
                == dependencies@.contains_key(packages[i as int].id@));
        }
        if !dependencies.contains_key(packages[i].id.as_str()) {
            return false;
        }
        i += 1;
    }
    true
}

/// The dependency graph of one project, indexed by package identity.
///
/// An index is built once from a snapshot and does not change afterwards.
/// Every identity that it holds, as the root, as a node or as a dependency,
/// is that of one of its packages.
#[derive(Debug)]
pub struct DependencyIndex {
    metadata: Metadata,
    packages: PackageMap,
    direct_dependencies: DirectDependencyMap,
}

impl DependencyIndex {
    /// What holds of every index: its snapshot has no defect, and its maps
    /// are those of the snapshot.
    #[verifier::type_invariant]
    pub closed spec fn wf(self) -> bool {
        &&& snapshot_defect(self.metadata) is None
        &&& package_map_view(self.packages) == package_map(self.metadata.packages@)
        &&& dependency_map_view(self.direct_dependencies) == dependency_map(
            self.metadata.resolve->0.nodes@,
        )
    }

    /// From package identity to package.
    pub closed spec fn packages(self) -> Map<Seq<char>, PackageView> {
        package_map(self.metadata.packages@)
    }

    /// From package identity to the identities of its direct dependencies, in
    /// declared order.
    pub closed spec fn dependencies(self) -> Map<Seq<char>, Seq<Seq<char>>> {
        dependency_map(self.metadata.resolve->0.nodes@)
    }

    /// The identity of the root package.
    pub closed spec fn root(self) -> Seq<char> {
        self.metadata.resolve->0.root->0@
    }

    /// The identities of the resolved packages, in resolution order.
    pub closed spec fn order(self) -> Seq<Seq<char>> {
        Seq::new(
            self.metadata.resolve->0.nodes@.len(),
            |i: int| self.metadata.resolve->0.nodes@[i].id@,
        )
    }

    /// Checks a snapshot and indexes it.
    ///
    /// Fails exactly when the snapshot has a defect, with the first defect
    /// in the order of [`snapshot_defect`].
    pub fn build(metadata: Metadata) -> (res: Result<DependencyIndex, SnapshotError>)
        ensures
            match res {
                Ok(index) => {
                    &&& snapshot_defect(metadata) is None
                    &&& index.wf()
                    &&& index.packages() == package_map(metadata.packages@)
                    &&& index.dependencies() == dependency_map(metadata.resolve->0.nodes@)
                    &&& index.root() == metadata.resolve->0.root->0@
                    &&& index.order() == Seq::new(
                        metadata.resolve->0.nodes@.len(),
                        |i: int| metadata.resolve->0.nodes@[i].id@,
                    )
                },
                Err(e) => snapshot_defect(metadata) == Some(e),
            },
    {
        if metadata.resolve.is_none() {
            return Err(SnapshotError::NoResolution);
        }
        let (packages, direct_dependencies) = parse_metadata(&metadata);
        let defect = match &metadata.resolve {
            None => Some(SnapshotError::NoResolution),
            Some(resolve) => match &resolve.root {
                None => Some(SnapshotError::NoRoot),
                Some(root) => {
                    proof {
                        lemma_package_map_domain(metadata.packages@, root@);
                        assert(package_map_view(packages).contains_key(root@)
                            == packages@.contains_key(root@));
                    }
                    if !nodes_are_distinct(&resolve.nodes) {
                        Some(SnapshotError::DuplicateNode)
                    } else if !(packages.contains_key(root.as_str()) && nodes_are_known(
                        &packages,
                        &resolve.nodes,
                        Ghost(metadata.packages@),
                    )) {
                        Some(SnapshotError::UnknownPackage)
                    } else if !packages_are_resolved(
                        &direct_dependencies,
                        &metadata.packages,
                        Ghost(resolve.nodes@),
                    ) {
                        Some(SnapshotError::UnresolvedPackage)
                    } else {
                        None
                    }
                },
            },
        };
        match defect {
            Some(e) => Err(e),
            None => Ok(DependencyIndex { metadata, packages, direct_dependencies }),
        }
    }

    /// States what every index satisfies, for use where an index is at hand.
    pub fn validity(&self)
        ensures
            self.wf(),
    {
        proof {
            use_type_invariant(self);
        }
    }

    /// In every index, the key of a package is its identity, every package
    /// has an entry in the dependency map, and every dependency is a package.
    pub proof fn lemma_consistent(self)
        requires
            self.wf(),
        ensures
            index_consistent(self.packages(), self.dependencies()),
    {
        lemma_maps_consistent(self.metadata);
    }

    /// In every index, the resolution order names each package once, the
    /// root is among them, and each of them is a package with an entry in
    /// the dependency map.
    pub proof fn lemma_order(self)
        requires
            self.wf(),
        ensures
            self.order().no_duplicates(),
            self.order().contains(self.root()),
            forall|i: int|
                0 <= i < self.order().len() ==> self.packages().contains_key(
                    #[trigger] self.order()[i],
                ) && self.dependencies().contains_key(self.order()[i]),
    {
        let nodes = self.metadata.resolve->0.nodes@;
        let packages = self.metadata.packages@;
        assert forall|i: int| 0 <= i < self.order().len() implies self.packages().contains_key(
            #[trigger] self.order()[i],
        ) && self.dependencies().contains_key(self.order()[i]) by {
            assert(has_package(packages, nodes[i].id@));
            lemma_package_map_domain(packages, nodes[i].id@);
            lemma_dependency_map_domain(nodes, nodes[i].id@);
        }
        assert forall|i: int, j: int|
            0 <= i < self.order().len() && 0 <= j < self.order().len() && i
                != j implies self.order()[i] != self.order()[j] by {
            if i < j {
                assert(nodes[i].id@ != nodes[j].id@);
            } else {
                assert(nodes[j].id@ != nodes[i].id@);
            }
        }
        let root = self.root();
        let p = choose|p: int| 0 <= p < packages.len() && (#[trigger] packages[p]).id@ == root;
        assert(has_node(nodes, packages[p].id@));
        let n = choose|n: int| 0 <= n < nodes.len() && (#[trigger] nodes[n]).id@ == root;
        assert(self.order()[n] == root);
    }

    /// The package of an identity, if the index has one.
    pub fn lookup(&self, id: &str) -> (res: Option<&Package>)
        ensures
            res is Some <==> self.packages().contains_key(id@),
            res matches Some(p) ==> p@ == self.packages()[id@],
    {
        proof {
            use_type_invariant(self);
            assert(package_map_view(self.packages).contains_key(id@)
                == self.packages@.contains_key(id@));
        }
        self.packages.get(id)
    }

    /// The identities of the direct dependencies of a package, in declared
    /// order, if the index has the package. Each of them is a package of
    /// the index.
    pub fn direct_dependencies(&self, id: &str) -> (res: Option<&Vec<String>>)
        ensures
            res is Some <==> self.dependencies().contains_key(id@),
            res matches Some(d) ==> d.deep_view() == self.dependencies()[id@] && forall|k: int|
                0 <= k < d.len() ==> self.packages().contains_key((#[trigger] d[k])@),
    {
        proof {
            use_type_invariant(self);
            assert(dependency_map_view(self.direct_dependencies).contains_key(id@)
                == self.direct_dependencies@.contains_key(id@));
            lemma_maps_consistent(self.metadata);
        }
        let res = self.direct_dependencies.get(id);
        proof {
            if let Some(d) = res {
                assert forall|k: int| 0 <= k < d.len() implies self.packages().contains_key(
                    (#[trigger] d[k])@,
                ) by {
                    assert(self.dependencies()[id@][k] == d[k]@);
                }
            }
        }
        res
    }

    /// The identity of the root package.
    pub fn root_id(&self) -> (res: &str)
        ensures
            res@ == self.root(),
            self.packages().contains_key(self.root()),
    {
        proof {
            use_type_invariant(self);
            lemma_package_map_domain(
                self.metadata.packages@,
                self.metadata.resolve->0.root->0@,
            );
        }
        self.metadata.resolve.as_ref().unwrap().root.as_ref().unwrap().as_str()
    }

    /// The number of resolved packages.
    pub fn node_count(&self) -> (res: usize)
        ensures
            res == self.order().len(),
    {
        proof {
            use_type_invariant(self);
        }
        self.metadata.resolve.as_ref().unwrap().nodes.len()
    }

    /// The identity of the resolved package at a position of the resolution
    /// order. It is that of a package of the index.
    pub fn node_id(&self, position: usize) -> (res: &str)
        requires
            position < self.order().len(),
        ensures
            res@ == self.order()[position as int],
            self.packages().contains_key(res@),
    {
        proof {
            use_type_invariant(self);
            let nodes = self.metadata.resolve->0.nodes@;
            assert(has_package(self.metadata.packages@, nodes[position as int].id@));
            lemma_package_map_domain(self.metadata.packages@, nodes[position as int].id@);
        }
        self.metadata.resolve.as_ref().unwrap().nodes[position].id.as_str()
    }
}

} // verus!
