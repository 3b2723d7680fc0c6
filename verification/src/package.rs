//! Packages and the dependency-resolution snapshot they come from, and the
//! two maps that index a snapshot.

use crate::text::{clone_optional_text, clone_texts};
use crate::text_map::{entries_map, TextMap};
use vstd::prelude::*;

verus! {

/// One resolved package.
#[derive(Debug)]
pub struct Package {
    /// The identity that the resolver gave the package; unique in a snapshot.
    pub id: String,
    pub name: String,
    pub version: String,
    pub license: Option<String>,
    /// The address of the package's source repository, as declared.
    pub repository: Option<String>,
}

/// The mathematical content of a [`Package`].
pub struct PackageView {
    pub id: Seq<char>,
    pub name: Seq<char>,
    pub version: Seq<char>,
    pub license: Option<Seq<char>>,
    pub repository: Option<Seq<char>>,
}

impl View for Package {
    type V = PackageView;

    open spec fn view(&self) -> PackageView {
        PackageView {
            id: self.id@,
            name: self.name@,
            version: self.version@,
            license: self.license.deep_view(),
            repository: self.repository.deep_view(),
        }
    }
}

impl DeepView for Package {
    type V = PackageView;

    open spec fn deep_view(&self) -> PackageView {
        self@
    }
}

impl Clone for Package {
    fn clone(&self) -> (res: Package)
        ensures
            res@ == self@,
    {
        Package {
            id: self.id.clone(),
            name: self.name.clone(),
            version: self.version.clone(),
            license: clone_optional_text(&self.license),
            repository: clone_optional_text(&self.repository),
        }
    }
}

/// A package of the resolved graph with the identities of the packages it
/// depends on directly, in declared order.
#[derive(Debug)]
pub struct Node {
    pub id: String,
    pub dependencies: Vec<String>,
}

/// The resolved dependency graph: its nodes in resolution order and the
/// identity of the root package.
#[derive(Debug)]
pub struct Resolve {
    pub nodes: Vec<Node>,
    pub root: Option<String>,
}

/// A dependency-resolution snapshot of one project.
#[derive(Debug)]
pub struct Metadata {
    pub packages: Vec<Package>,
    /// Absent when the snapshot was taken without resolving dependencies.
    pub resolve: Option<Resolve>,
}

/// From package identity to package record.
pub type PackageMap = TextMap<Package>;

/// From package identity to the identities of its direct dependencies, that
/// is, not the dependencies of dependencies.
pub type DirectDependencyMap = TextMap<Vec<String>>;

/// Why a snapshot cannot be indexed.
#[derive(Clone, Copy, Debug, PartialEq, Eq, Structural)]
pub enum SnapshotError {
    /// The snapshot holds no resolved dependency graph.
    NoResolution,
    /// The resolved graph names no root package.
    NoRoot,
    /// The root, a node or a dependency is not among the packages.
    UnknownPackage,
    /// A package has no node in the resolved graph.
    UnresolvedPackage,
    /// Two nodes of the resolved graph share an identity.
    DuplicateNode,
}

/// The entries that the packages of a snapshot contribute to the package map.
pub open spec fn package_entries(packages: Seq<Package>) -> Seq<(String, Package)> {
    Seq::new(packages.len(), |i: int| (packages[i].id, packages[i]))
}

/// The entries that the nodes of a snapshot contribute to the dependency map.
pub open spec fn dependency_entries(nodes: Seq<Node>) -> Seq<(String, Vec<String>)> {
    Seq::new(nodes.len(), |i: int| (nodes[i].id, nodes[i].dependencies))
}

/// The package map of a list of packages: each identity is bound to the last
/// package that carries it.
pub open spec fn package_map(packages: Seq<Package>) -> Map<Seq<char>, PackageView> {
    entries_map(package_entries(packages)).map_values(|p: Package| p@)
}

/// The dependency map of a list of nodes: each identity is bound to the
/// dependency list of the last node that carries it.
pub open spec fn dependency_map(nodes: Seq<Node>) -> Map<Seq<char>, Seq<Seq<char>>> {
    entries_map(dependency_entries(nodes)).map_values(|d: Vec<String>| d.deep_view())
}

/// The content of a package map, value by value.
pub open spec fn package_map_view(map: PackageMap) -> Map<Seq<char>, PackageView> {
    map@.map_values(|p: Package| p@)
}

/// The content of a dependency map, value by value.
pub open spec fn dependency_map_view(map: DirectDependencyMap) -> Map<Seq<char>, Seq<Seq<char>>> {
    map@.map_values(|d: Vec<String>| d.deep_view())
}

/// Builds the package map and the direct-dependency map of a snapshot.
///
/// The snapshot must hold a resolved dependency graph: without one there is
/// nothing to index, and to ask for the maps is a fault of the caller.
pub fn parse_metadata(metadata: &Metadata) -> (res: (PackageMap, DirectDependencyMap))
    requires
        metadata.resolve is Some,
    ensures
        package_map_view(res.0) == package_map(metadata.packages@),
        dependency_map_view(res.1) == dependency_map(metadata.resolve->0.nodes@),
{
    let resolve = metadata.resolve.as_ref().unwrap();
    let mut packages: PackageMap = TextMap::new();
    let mut i: usize = 0;
    while i < metadata.packages.len()
        invariant
            i <= metadata.packages.len(),
            package_map_view(packages) =~= package_map(metadata.packages@.take(i as int)),
        decreases metadata.packages.len() - i,
    {
        let p = &metadata.packages[i];
        let ghost held = packages;
        packages.insert(p.id.clone(), p.clone());
        proof {
            let before = metadata.packages@.take(i as int);
            let after = metadata.packages@.take(i + 1);
            assert(package_entries(after).drop_last() =~= package_entries(before));
            assert forall|k: Seq<char>|
                #![trigger package_map_view(packages).contains_key(k)]
                #![trigger package_map(after).contains_key(k)]
                #![trigger package_map_view(packages)[k]]
                #![trigger package_map(after)[k]]
                package_map_view(packages).contains_key(k) == package_map(after).contains_key(k)
                    && (package_map_view(packages).contains_key(k) ==> package_map_view(
                    packages,
                )[k] == package_map(after)[k]) by {
                assert(package_map_view(held).contains_key(k) == package_map(before).contains_key(
                    k,
                ));
                if package_map_view(held).contains_key(k) {
                    assert(package_map_view(held)[k] == package_map(before)[k]);
                }
            }
            assert(package_map_view(packages) =~= package_map(after));
        }
        i += 1;
    }
    assert(metadata.packages@.take(i as int) =~= metadata.packages@);
    let mut direct_dependencies: DirectDependencyMap = TextMap::new();
    let mut k: usize = 0;
    while k < resolve.nodes.len()
        invariant
            k <= resolve.nodes.len(),
            dependency_map_view(direct_dependencies) =~= dependency_map(
                resolve.nodes@.take(k as int),
            ),
        decreases resolve.nodes.len() - k,
    {
        let node = &resolve.nodes[k];
        let ghost held = direct_dependencies;
        direct_dependencies.insert(node.id.clone(), clone_texts(&node.dependencies));
        proof {
            let before = resolve.nodes@.take(k as int);
            let after = resolve.nodes@.take(k + 1);
            assert(dependency_entries(after).drop_last() =~= dependency_entries(before));
            assert forall|id: Seq<char>|
                #![trigger dependency_map_view(direct_dependencies).contains_key(id)]
                #![trigger dependency_map(after).contains_key(id)]
                #![trigger dependency_map_view(direct_dependencies)[id]]
                #![trigger dependency_map(after)[id]]
                dependency_map_view(direct_dependencies).contains_key(id) == dependency_map(
                    after,
                ).contains_key(id) && (dependency_map_view(direct_dependencies).contains_key(id)
                    ==> dependency_map_view(direct_dependencies)[id] == dependency_map(after)[id]) by {
                assert(dependency_map_view(held).contains_key(id) == dependency_map(
                    before,
                ).contains_key(id));
                if dependency_map_view(held).contains_key(id) {
                    assert(dependency_map_view(held)[id] == dependency_map(before)[id]);
                }
            }
            assert(dependency_map_view(direct_dependencies) =~= dependency_map(after));
        }
        k += 1;
    }
    assert(resolve.nodes@.take(k as int) =~= resolve.nodes@);
    (packages, direct_dependencies)
}

} // verus!
