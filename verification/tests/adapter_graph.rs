use indicate::adapter::IndicateAdapter;
use indicate::edge::{Edge, StartingEdge};
use indicate::index::DependencyIndex;
use indicate::neighbors::{get_repository_from_url, repository_neighbors, Neighbors};
use indicate::package::{Metadata, Node, Package, Resolve, SnapshotError};
use indicate::parameters::EdgeParameters;
use indicate::repository::GitHubRepository;
use indicate::text_map::TextMap;
use indicate::value::{AdapterError, FieldValue};
use indicate::vertex::Vertex;

fn package(id: &str, name: &str, version: &str, repository: Option<&str>) -> Package {
    Package {
        id: id.to_string(),
        name: name.to_string(),
        version: version.to_string(),
        license: None,
        repository: repository.map(|r| r.to_string()),
    }
}

fn node(id: &str, dependencies: &[&str]) -> Node {
    Node { id: id.to_string(), dependencies: dependencies.iter().map(|d| d.to_string()).collect() }
}

fn app_snapshot() -> Metadata {
    Metadata {
        packages: vec![
            package("app 1.0.0", "app", "1.0.0", None),
            package("libfoo 2.1.0", "libfoo", "2.1.0", Some("https://github.com/acme/libfoo")),
        ],
        resolve: Some(Resolve {
            nodes: vec![node("app 1.0.0", &["libfoo 2.1.0"]), node("libfoo 2.1.0", &[])],
            root: Some("app 1.0.0".to_string()),
        }),
    }
}

fn diamond_snapshot() -> Metadata {
    Metadata {
        packages: vec![
            package("d", "d", "0.4.0", None),
            package("b", "b", "0.2.0", None),
            package("root", "root", "0.1.0", None),
            package("c", "c", "0.3.0", None),
        ],
        resolve: Some(Resolve {
            nodes: vec![
                node("b", &["d"]),
                node("root", &["c", "b"]),
                node("c", &["d"]),
                node("d", &[]),
            ],
            root: Some("root".to_string()),
        }),
    }
}

fn no_parameters() -> EdgeParameters {
    TextMap::new()
}

fn include_root(value: bool) -> EdgeParameters {
    let mut parameters = TextMap::new();
    parameters.insert("includeRoot".to_string(), FieldValue::Boolean(value));
    parameters
}

fn package_ids(vertices: &[Vertex]) -> Vec<String> {
    vertices.iter().map(|v| v.as_package().expect("a package vertex").id.clone()).collect()
}

fn libfoo_record() -> GitHubRepository {
    GitHubRepository {
        url: "https://github.com/acme/libfoo".to_string(),
        name: "libfoo".to_string(),
        stargazers_count: 12,
        forks_count: 3,
        open_issues_count: 1,
        has_issues: true,
        archived: false,
        fork: false,
        owner: Some("acme".to_string()),
    }
}

#[test]
fn root_package_dependencies_return_libfoo() {
    let adapter = IndicateAdapter::new(app_snapshot()).unwrap();
    let start = adapter.resolve_starting_vertices("RootPackage", &no_parameters()).unwrap();
    assert_eq!(start.len(), 1);
    assert_eq!(start[0].as_package().unwrap().name, "app");
    let contexts: Vec<Option<Vertex>> = start.into_iter().map(Some).collect();
    let outcomes =
        adapter.resolve_neighbors(&contexts, "Package", "dependencies", &no_parameters()).unwrap();
    assert_eq!(outcomes.len(), 1);
    match &outcomes[0] {
        Neighbors::Ready(vertices) => {
            assert_eq!(vertices.len(), 1);
            let libfoo = vertices[0].as_package().unwrap();
            assert_eq!(libfoo.name, "libfoo");
            assert_eq!(libfoo.version, "2.1.0");
        }
        other => panic!("dependencies need no lookup: {:?}", other),
    }
}

#[test]
fn repository_edge_of_libfoo_asks_for_acme_libfoo() {
    let adapter = IndicateAdapter::new(app_snapshot()).unwrap();
    let libfoo = adapter.get_dependencies("app 1.0.0").remove(0);
    let outcomes = adapter
        .resolve_neighbors(&vec![Some(libfoo)], "Package", "repository", &no_parameters())
        .unwrap();
    match &outcomes[0] {
        Neighbors::RepositoryLookup { url, id } => {
            assert_eq!(url, "https://github.com/acme/libfoo");
            assert_eq!(id.owner, "acme");
            assert_eq!(id.name, "libfoo");
        }
        other => panic!("a GitHub address needs a lookup: {:?}", other),
    }
}

#[test]
fn repository_with_working_backend_is_a_github_repository_named_libfoo() {
    let vertices = repository_neighbors("https://github.com/acme/libfoo", Some(libfoo_record()));
    assert_eq!(vertices.len(), 1);
    let repository = vertices[0].as_git_hub_repository().expect("the rich variant");
    assert_eq!(repository.name, "libfoo");
    assert!(vertices[0].as_repository().is_none());
}

#[test]
fn repository_with_failing_backend_keeps_the_url_verbatim() {
    let vertices = repository_neighbors("https://github.com/acme/libfoo", None);
    assert_eq!(vertices.len(), 1);
    assert_eq!(vertices[0].as_repository().unwrap(), "https://github.com/acme/libfoo");
    let vertex = get_repository_from_url("https://github.com/acme/libfoo", None);
    let adapter = IndicateAdapter::new(app_snapshot()).unwrap();
    let url = adapter.resolve_property(&vec![Some(vertex)], "Repository", "url").unwrap();
    assert!(matches!(&url[0], FieldValue::Text(t) if t == "https://github.com/acme/libfoo"));
}

#[test]
fn a_record_for_an_address_that_is_not_on_github_is_not_used() {
    let vertex = get_repository_from_url("https://gitlab.com/acme/libfoo", Some(libfoo_record()));
    assert_eq!(vertex.as_repository().unwrap(), "https://gitlab.com/acme/libfoo");
}

#[test]
fn package_without_repository_has_no_repository_neighbour() {
    let adapter = IndicateAdapter::new(app_snapshot()).unwrap();
    let root = adapter.root_package();
    let outcomes = adapter
        .resolve_neighbors(&vec![Some(root)], "Package", "repository", &no_parameters())
        .unwrap();
    assert!(matches!(&outcomes[0], Neighbors::Ready(v) if v.is_empty()));
}

#[test]
fn dependencies_without_root_never_yield_the_root() {
    let adapter = IndicateAdapter::new(diamond_snapshot()).unwrap();
    let vertices = adapter.resolve_starting_vertices("Dependencies", &include_root(false)).unwrap();
    assert_eq!(package_ids(&vertices), vec!["b", "c", "d"]);
    assert_eq!(package_ids(&adapter.dependencies(false)), vec!["b", "c", "d"]);
}

#[test]
fn dependencies_with_root_yield_the_root_exactly_once() {
    let adapter = IndicateAdapter::new(diamond_snapshot()).unwrap();
    let vertices = adapter.resolve_starting_vertices("Dependencies", &include_root(true)).unwrap();
    let ids = package_ids(&vertices);
    assert_eq!(ids, vec!["b", "root", "c", "d"]);
    assert_eq!(ids.iter().filter(|id| id.as_str() == "root").count(), 1);
}

#[test]
fn dependencies_edge_follows_the_recorded_order() {
    let adapter = IndicateAdapter::new(diamond_snapshot()).unwrap();
    assert_eq!(package_ids(&adapter.get_dependencies("root")), vec!["c", "b"]);
    assert_eq!(package_ids(&adapter.get_dependencies("b")), vec!["d"]);
    assert!(adapter.get_dependencies("d").is_empty());
    let index = adapter.dependency_index();
    for id in ["root", "b", "c", "d"] {
        let recorded = index.direct_dependencies(id).unwrap().clone();
        assert_eq!(package_ids(&adapter.get_dependencies(id)), recorded);
    }
}

#[test]
fn the_dependencies_edge_cannot_be_followed_from_an_unknown_package() {
    let adapter = IndicateAdapter::new(diamond_snapshot()).unwrap();
    let known = Vertex::Package(package("b", "b", "0.2.0", None));
    let unknown = Vertex::Package(package("nowhere", "nowhere", "0.0.0", None));
    assert!(adapter.can_follow(&known, Edge::PackageDependencies));
    assert!(!adapter.can_follow(&unknown, Edge::PackageDependencies));
    assert!(adapter.can_follow(&unknown, Edge::PackageRepository));
    assert!(adapter.dependency_index().direct_dependencies("nowhere").is_none());
    let contexts = vec![Some(known), None, Some(unknown)];
    assert!(!adapter.can_follow_from_all(&contexts, Edge::PackageDependencies));
    assert!(adapter.can_follow_from_all(&contexts[..2].to_vec(), Edge::PackageDependencies));
}

#[test]
fn index_holds_every_package_under_its_id_in_both_maps() {
    let index = DependencyIndex::build(diamond_snapshot()).unwrap();
    assert_eq!(index.root_id(), "root");
    assert_eq!(index.node_count(), 4);
    for position in 0..index.node_count() {
        let id = index.node_id(position).to_string();
        assert_eq!(index.lookup(&id).unwrap().id, id);
        for dependency in index.direct_dependencies(&id).unwrap() {
            assert_eq!(&index.lookup(dependency).unwrap().id, dependency);
        }
    }
    assert!(index.lookup("nowhere").is_none());
    assert!(index.direct_dependencies("nowhere").is_none());
}

#[test]
fn a_later_package_of_the_same_id_replaces_the_earlier_one() {
    let mut snapshot = app_snapshot();
    snapshot.packages.push(package("libfoo 2.1.0", "libfoo-renamed", "2.1.0", None));
    let index = DependencyIndex::build(snapshot).unwrap();
    assert_eq!(index.lookup("libfoo 2.1.0").unwrap().name, "libfoo-renamed");
}

#[test]
fn snapshot_without_resolution_is_refused() {
    let mut snapshot = app_snapshot();
    snapshot.resolve = None;
    assert_eq!(IndicateAdapter::new(snapshot).unwrap_err(), SnapshotError::NoResolution);
    let mut snapshot = app_snapshot();
    snapshot.resolve = None;
    assert_eq!(DependencyIndex::build(snapshot).unwrap_err(), SnapshotError::NoResolution);
}

#[test]
fn snapshot_without_root_is_refused() {
    let mut snapshot = app_snapshot();
    snapshot.resolve.as_mut().unwrap().root = None;
    assert_eq!(DependencyIndex::build(snapshot).unwrap_err(), SnapshotError::NoRoot);
}

#[test]
fn snapshot_with_two_nodes_of_one_id_is_refused() {
    let mut snapshot = app_snapshot();
    snapshot.resolve.as_mut().unwrap().nodes.push(node("app 1.0.0", &[]));
    assert_eq!(DependencyIndex::build(snapshot).unwrap_err(), SnapshotError::DuplicateNode);
}

#[test]
fn snapshot_with_an_unknown_dependency_is_refused() {
    let mut snapshot = app_snapshot();
    snapshot.resolve.as_mut().unwrap().nodes[1].dependencies.push("ghost 0.0.0".to_string());
    assert_eq!(DependencyIndex::build(snapshot).unwrap_err(), SnapshotError::UnknownPackage);
    let mut snapshot = app_snapshot();
    snapshot.resolve.as_mut().unwrap().root = Some("ghost 0.0.0".to_string());
    assert_eq!(DependencyIndex::build(snapshot).unwrap_err(), SnapshotError::UnknownPackage);
}

#[test]
fn snapshot_with_a_package_without_node_is_refused() {
    let mut snapshot = app_snapshot();
    snapshot.packages.push(package("stray 0.1.0", "stray", "0.1.0", None));
    assert_eq!(DependencyIndex::build(snapshot).unwrap_err(), SnapshotError::UnresolvedPackage);
}

#[test]
fn parse_metadata_builds_both_maps() {
    let (packages, dependencies) = indicate::package::parse_metadata(&diamond_snapshot());
    assert_eq!(packages.get("c").unwrap().version, "0.3.0");
    assert_eq!(dependencies.get("root").unwrap(), &vec!["c".to_string(), "b".to_string()]);
    assert!(packages.get("e").is_none());
    assert!(!dependencies.contains_key("e"));
}

#[test]
fn only_the_two_starting_edges_are_known() {
    assert_eq!(StartingEdge::parse("RootPackage"), Some(StartingEdge::RootPackage));
    assert_eq!(StartingEdge::parse("Dependencies"), Some(StartingEdge::Dependencies));
    for name in ["Packages", "dependencies", "rootPackage", "RootPackage ", ""] {
        assert_eq!(StartingEdge::parse(name), None);
    }
}

#[test]
fn dependencies_without_include_root_parameter_is_an_error() {
    let adapter = IndicateAdapter::new(app_snapshot()).unwrap();
    assert_eq!(
        adapter.resolve_starting_vertices("Dependencies", &no_parameters()).unwrap_err(),
        AdapterError::MissingParameter
    );
    let mut parameters = TextMap::new();
    parameters.insert("includeRoot".to_string(), FieldValue::Text("yes".to_string()));
    assert_eq!(
        adapter.resolve_starting_vertices("Dependencies", &parameters).unwrap_err(),
        AdapterError::MissingParameter
    );
}
