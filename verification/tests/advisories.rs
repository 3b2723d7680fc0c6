use indicate::adapter::IndicateAdapter;
use indicate::advisory::{
    Advisory, AdvisoryClient, AdvisoryDate, Affected, AffectedFunctionVersions, Arch, Os, Severity,
};
use indicate::client::SlotDemand;
use indicate::edge::Edge;
use indicate::neighbors::Neighbors;
use indicate::package::{Metadata, Node, Package, Resolve};
use indicate::parameters::{AdvisoryFilter, EdgeParameters};
use indicate::text_map::TextMap;
use indicate::value::{AdapterError, FieldValue};
use indicate::vertex::Vertex;
use std::str::FromStr;

fn advisory(id: &str, package: &str, severity: Option<Severity>) -> Advisory {
    Advisory {
        id: id.to_string(),
        package: package.to_string(),
        title: format!("title of {}", id),
        description: format!("description of {}", id),
        date: AdvisoryDate { year: 2015, month: 5, day: 15 },
        withdrawn: None,
        affected: None,
        patched_versions: vec![">=1.2.3".to_string()],
        unaffected_versions: vec![],
        severity,
    }
}

fn withdrawn(mut advisory: Advisory) -> Advisory {
    advisory.withdrawn = Some(AdvisoryDate { year: 2020, month: 1, day: 2 });
    advisory
}

fn affecting(mut advisory: Advisory, arch: &[&str], os: &[&str]) -> Advisory {
    advisory.affected = Some(Affected {
        arch: arch.iter().map(|a| a.to_string()).collect(),
        os: os.iter().map(|o| o.to_string()).collect(),
        functions: vec![AffectedFunctionVersions {
            function_path: "libfoo::parse".to_string(),
            versions: vec!["<1.2.3".to_string()],
        }],
    });
    advisory
}

fn ids(advisories: &[Advisory]) -> Vec<String> {
    advisories.iter().map(|a| a.id.clone()).collect()
}

fn parameters(entries: &[(&str, FieldValue)]) -> EdgeParameters {
    let mut parameters = TextMap::new();
    for (name, value) in entries {
        parameters.insert(name.to_string(), value.clone());
    }
    parameters
}

fn text(value: &str) -> FieldValue {
    FieldValue::Text(value.to_string())
}

fn libfoo_adapter(advisories: Vec<Advisory>) -> (IndicateAdapter, Vertex) {
    let snapshot = Metadata {
        packages: vec![Package {
            id: "libfoo 2.1.0".to_string(),
            name: "libfoo".to_string(),
            version: "2.1.0".to_string(),
            license: Some("MIT".to_string()),
            repository: None,
        }],
        resolve: Some(Resolve {
            nodes: vec![Node { id: "libfoo 2.1.0".to_string(), dependencies: vec![] }],
            root: Some("libfoo 2.1.0".to_string()),
        }),
    };
    let mut adapter = IndicateAdapter::new(snapshot).unwrap();
    adapter.install_advisory_client(Some(AdvisoryClient::new(advisories)));
    let root = adapter.root_package();
    (adapter, root)
}

fn history(adapter: &IndicateAdapter, vertex: Vertex, parameters: &EdgeParameters) -> Vec<String> {
    let outcomes =
        adapter.resolve_neighbors(&vec![Some(vertex)], "Package", "advisoryHistory", parameters);
    match outcomes.unwrap().remove(0) {
        Neighbors::Ready(vertices) => {
            vertices.iter().map(|v| v.as_advisory().unwrap().id.clone()).collect()
        }
        other => panic!("advisories need no lookup: {:?}", other),
    }
}

#[test]
fn min_severity_high_returns_only_the_critical_advisory() {
    let (adapter, libfoo) = libfoo_adapter(vec![
        advisory("RUSTSEC-2021-0001", "libfoo", Some(Severity::Medium)),
        advisory("RUSTSEC-2021-0002", "libfoo", Some(Severity::Critical)),
    ]);
    let wanted = parameters(&[
        ("includeWithdrawn", FieldValue::Boolean(false)),
        ("minSeverity", text("high")),
    ]);
    assert_eq!(history(&adapter, libfoo, &wanted), vec!["RUSTSEC-2021-0002"]);
}

#[test]
fn severity_floor_is_inclusive_and_lets_unrated_advisories_pass() {
    let client = AdvisoryClient::new(vec![
        advisory("A", "libfoo", Some(Severity::Low)),
        advisory("B", "libfoo", Some(Severity::High)),
        advisory("C", "libfoo", None),
        advisory("D", "other", Some(Severity::Critical)),
    ]);
    let found =
        client.all_advisories_for_package("libfoo", false, None, None, Some(Severity::High));
    assert_eq!(ids(&found), vec!["B", "C"]);
    let found = client.all_advisories_for_package("libfoo", false, None, None, None);
    assert_eq!(ids(&found), vec!["A", "B", "C"]);
}

#[test]
fn history_without_withdrawn_never_holds_a_withdrawn_advisory() {
    let client = AdvisoryClient::new(vec![
        withdrawn(advisory("A", "libfoo", None)),
        advisory("B", "libfoo", None),
        withdrawn(advisory("C", "libfoo", Some(Severity::High))),
    ]);
    let found = client.all_advisories_for_package("libfoo", false, None, None, None);
    assert_eq!(ids(&found), vec!["B"]);
    assert!(found.iter().all(|a| a.withdrawn.is_none()));
}

#[test]
fn history_with_withdrawn_is_a_superset() {
    let client = AdvisoryClient::new(vec![
        withdrawn(advisory("A", "libfoo", Some(Severity::Low))),
        advisory("B", "libfoo", Some(Severity::High)),
        withdrawn(advisory("C", "libfoo", Some(Severity::High))),
        advisory("D", "libfoo", Some(Severity::Critical)),
    ]);
    let floor = Some(Severity::Medium);
    let without = client.all_advisories_for_package("libfoo", false, None, None, floor);
    let with = client.all_advisories_for_package("libfoo", true, None, None, floor);
    assert_eq!(ids(&without), vec!["B", "D"]);
    assert_eq!(ids(&with), vec!["B", "D", "C"]);
    assert!(ids(&without).iter().all(|id| ids(&with).contains(id)));
}

#[test]
fn platform_filters_match_listed_platforms_and_advisories_for_all_platforms() {
    let client = AdvisoryClient::new(vec![
        affecting(advisory("A", "libfoo", None), &["x86_64"], &["windows"]),
        affecting(advisory("B", "libfoo", None), &[], &[]),
        affecting(advisory("C", "libfoo", None), &["arm", "aarch64"], &["linux"]),
        advisory("D", "libfoo", None),
    ]);
    let arm = Arch::parse("arm").unwrap();
    let linux = Os::parse("linux").unwrap();
    let windows = Os::parse("windows").unwrap();
    let found = client.all_advisories_for_package("libfoo", false, Some(&arm), None, None);
    assert_eq!(ids(&found), vec!["B", "C", "D"]);
    let found = client.all_advisories_for_package("libfoo", false, None, Some(&windows), None);
    assert_eq!(ids(&found), vec!["A", "B", "D"]);
    let found = client.all_advisories_for_package("libfoo", false, Some(&arm), Some(&linux), None);
    assert_eq!(ids(&found), vec!["B", "C", "D"]);
    let found =
        client.all_advisories_for_package("libfoo", false, Some(&arm), Some(&windows), None);
    assert_eq!(ids(&found), vec!["B", "D"]);
}

#[test]
fn query_and_matches_agree() {
    let kept = advisory("A", "libfoo", Some(Severity::High));
    let gone = withdrawn(advisory("B", "libfoo", Some(Severity::High)));
    assert!(AdvisoryClient::matches(&kept, "libfoo", false, None, None, Some(Severity::High)));
    assert!(!AdvisoryClient::matches(&kept, "libfoo", true, None, None, None));
    assert!(!AdvisoryClient::matches(&kept, "libbar", false, None, None, None));
    assert!(AdvisoryClient::matches(&gone, "libfoo", true, None, None, None));
    let client = AdvisoryClient::new(vec![kept, gone]);
    assert_eq!(ids(&client.query("libfoo", true, None, None, None)), vec!["B"]);
    assert_eq!(ids(&client.query("libfoo", false, None, None, None)), vec!["A"]);
}

#[test]
fn severity_names_are_read_in_any_case_as_the_rating_scale_reads_them() {
    let names = ["none", "low", "medium", "high", "critical"];
    let ratings = [
        Severity::Negligible,
        Severity::Low,
        Severity::Medium,
        Severity::High,
        Severity::Critical,
    ];
    for (name, rating) in names.iter().zip(ratings.iter()) {
        assert_eq!(Severity::parse(name), Some(*rating));
        assert_eq!(Severity::parse(&name.to_uppercase()), Some(*rating));
        assert_eq!(rating.as_str(), *name);
        assert_eq!(cvss::Severity::from_str(name).unwrap().as_str(), rating.as_str());
    }
    assert_eq!(Severity::parse("HiGh"), Some(Severity::High));
    assert_eq!(Severity::parse("severe"), None);
    assert_eq!(Severity::parse(""), None);
    assert_eq!(Severity::parse(" high"), None);
}

#[test]
fn severity_order_follows_the_scale() {
    assert!(Severity::Critical.at_least(&Severity::High));
    assert!(Severity::High.at_least(&Severity::High));
    assert!(!Severity::Medium.at_least(&Severity::High));
    assert!(Severity::Negligible.at_least(&Severity::Negligible));
    assert!(!Severity::Negligible.at_least(&Severity::Low));
}

#[test]
fn platform_names_are_matched_exactly() {
    assert_eq!(Arch::parse("x86_64").unwrap().as_str(), "x86_64");
    assert!(Arch::parse("X86_64").is_none());
    assert!(Arch::parse("linux").is_none());
    assert!(Arch::parse("").is_none());
    assert_eq!(Os::parse("linux").unwrap().as_str(), "linux");
    assert!(Os::parse("Linux").is_none());
    assert!(Os::parse("x86_64").is_none());
    assert!(rustsec::platforms::Arch::from_str("x86_64").is_ok());
    assert!(rustsec::platforms::OS::from_str("linux").is_ok());
}

#[test]
fn filter_is_read_from_the_parameters() {
    let given = parameters(&[
        ("includeWithdrawn", FieldValue::Boolean(true)),
        ("arch", text("aarch64")),
        ("os", text("macos")),
        ("minSeverity", text("Medium")),
    ]);
    let filter = AdvisoryFilter::from_parameters(&given).unwrap();
    assert!(filter.include_withdrawn);
    assert_eq!(filter.arch.unwrap().as_str(), "aarch64");
    assert_eq!(filter.os.unwrap().as_str(), "macos");
    assert_eq!(filter.min_severity, Some(Severity::Medium));
    let bare = parameters(&[("includeWithdrawn", FieldValue::Boolean(false))]);
    let filter = AdvisoryFilter::from_parameters(&bare).unwrap();
    assert!(!filter.include_withdrawn);
    assert!(filter.arch.is_none() && filter.os.is_none() && filter.min_severity.is_none());
}

#[test]
fn parameters_that_are_no_text_count_as_absent() {
    let given = parameters(&[
        ("includeWithdrawn", FieldValue::Boolean(false)),
        ("arch", FieldValue::Null),
        ("minSeverity", FieldValue::Int64(3)),
    ]);
    let filter = AdvisoryFilter::from_parameters(&given).unwrap();
    assert!(filter.arch.is_none() && filter.min_severity.is_none());
}

#[test]
fn each_bad_parameter_has_its_error() {
    let missing = parameters(&[("arch", text("arm"))]);
    assert_eq!(
        AdvisoryFilter::from_parameters(&missing).unwrap_err(),
        AdapterError::MissingParameter
    );
    let wrong_type = parameters(&[("includeWithdrawn", text("true"))]);
    assert_eq!(
        AdvisoryFilter::from_parameters(&wrong_type).unwrap_err(),
        AdapterError::MissingParameter
    );
    let arch =
        parameters(&[("includeWithdrawn", FieldValue::Boolean(true)), ("arch", text("pdp11"))]);
    assert_eq!(AdvisoryFilter::from_parameters(&arch).unwrap_err(), AdapterError::UnknownArch);
    let os = parameters(&[("includeWithdrawn", FieldValue::Boolean(true)), ("os", text("cpm"))]);
    assert_eq!(AdvisoryFilter::from_parameters(&os).unwrap_err(), AdapterError::UnknownOs);
    let severity = parameters(&[
        ("includeWithdrawn", FieldValue::Boolean(true)),
        ("minSeverity", text("dire")),
    ]);
    assert_eq!(
        AdvisoryFilter::from_parameters(&severity).unwrap_err(),
        AdapterError::UnknownSeverity
    );
    let both = parameters(&[
        ("includeWithdrawn", FieldValue::Boolean(true)),
        ("os", text("cpm")),
        ("arch", text("pdp11")),
    ]);
    assert_eq!(AdvisoryFilter::from_parameters(&both).unwrap_err(), AdapterError::UnknownArch);
}

#[test]
fn advisory_history_needs_its_client() {
    let snapshot = Metadata {
        packages: vec![Package {
            id: "a".to_string(),
            name: "a".to_string(),
            version: "1.0.0".to_string(),
            license: None,
            repository: None,
        }],
        resolve: Some(Resolve {
            nodes: vec![Node { id: "a".to_string(), dependencies: vec![] }],
            root: Some("a".to_string()),
        }),
    };
    let mut adapter = IndicateAdapter::new(snapshot).unwrap();
    let wanted = parameters(&[("includeWithdrawn", FieldValue::Boolean(false))]);
    assert_eq!(adapter.advisory_demand(), SlotDemand::Create);
    assert_eq!(adapter.client_demand(Edge::PackageAdvisoryHistory), SlotDemand::Create);
    assert_eq!(adapter.client_demand(Edge::PackageDependencies), SlotDemand::Use);
    assert!(!adapter.can_follow_from_all(&vec![], Edge::PackageAdvisoryHistory));
    adapter.install_advisory_client(None);
    assert_eq!(adapter.advisory_demand(), SlotDemand::Fail);
    adapter.install_advisory_client(Some(AdvisoryClient::new(vec![])));
    assert_eq!(adapter.advisory_demand(), SlotDemand::Fail);
    let root = adapter.root_package();
    assert!(!adapter.can_follow(&root, Edge::PackageAdvisoryHistory));
    assert!(!adapter.can_follow_from_all(&vec![Some(root)], Edge::PackageAdvisoryHistory));
    let (ready, libfoo) = libfoo_adapter(vec![advisory("A", "libfoo", None)]);
    assert_eq!(ready.advisory_demand(), SlotDemand::Use);
    assert!(ready.can_follow(&libfoo, Edge::PackageAdvisoryHistory));
    let found = ready.advisory_client().all_advisories_for_package("libfoo", false, None, None, None);
    assert_eq!(ids(&found), vec!["A"]);
    assert!(history(&ready, libfoo, &wanted) == vec!["A"]);
}

#[test]
fn advisory_history_reports_bad_parameters_and_wrong_vertices() {
    let (adapter, libfoo) = libfoo_adapter(vec![advisory("A", "libfoo", None)]);
    assert_eq!(
        adapter
            .resolve_neighbors(&vec![Some(libfoo)], "Package", "advisoryHistory", &TextMap::new())
            .unwrap_err(),
        AdapterError::MissingParameter
    );
    let wanted = parameters(&[("includeWithdrawn", FieldValue::Boolean(false))]);
    let stray = Vertex::Repository("https://example.org".to_string());
    assert_eq!(
        adapter
            .resolve_neighbors(&vec![None, Some(stray)], "Package", "advisoryHistory", &wanted)
            .unwrap_err(),
        AdapterError::UnexpectedVertex
    );
    let outcomes =
        adapter.resolve_neighbors(&vec![None], "Package", "advisoryHistory", &wanted).unwrap();
    assert!(matches!(&outcomes[0], Neighbors::Ready(v) if v.is_empty()));
}

#[test]
fn midnight_utc_of_a_date_is_its_timestamp() {
    assert_eq!(AdvisoryDate { year: 1970, month: 1, day: 1 }.timestamp(), Some(0));
    assert_eq!(AdvisoryDate { year: 1970, month: 1, day: 2 }.timestamp(), Some(86_400));
    assert_eq!(AdvisoryDate { year: 2015, month: 5, day: 15 }.timestamp(), Some(1_431_648_000));
    assert_eq!(AdvisoryDate { year: 2020, month: 2, day: 29 }.timestamp(), Some(1_582_934_400));
    assert_eq!(AdvisoryDate { year: 1969, month: 12, day: 31 }.timestamp(), Some(-86_400));
}

#[test]
fn a_day_that_the_calendar_lacks_has_no_timestamp() {
    assert_eq!(AdvisoryDate { year: 2023, month: 2, day: 30 }.timestamp(), None);
    assert_eq!(AdvisoryDate { year: 2021, month: 2, day: 29 }.timestamp(), None);
    assert_eq!(AdvisoryDate { year: 2021, month: 13, day: 1 }.timestamp(), None);
    assert_eq!(AdvisoryDate { year: 2021, month: 0, day: 1 }.timestamp(), None);
    assert_eq!(AdvisoryDate { year: 2021, month: 4, day: 31 }.timestamp(), None);
}
