use indicate::adapter::IndicateAdapter;
use indicate::advisory::{
    Advisory, AdvisoryDate, Affected, AffectedFunctionVersions, Severity,
};
use indicate::edge::CoercionTarget;
use indicate::geiger::{GeigerCategories, GeigerCount, GeigerUnsafety, Ratio};
use indicate::package::{Metadata, Node, Package, Resolve};
use indicate::property::{date_value, Property};
use indicate::repository::{GitHubRepository, GitHubUser};
use indicate::value::{AdapterError, FieldValue};
use indicate::vertex::Vertex;

fn adapter() -> IndicateAdapter {
    let snapshot = Metadata {
        packages: vec![sample_package()],
        resolve: Some(Resolve {
            nodes: vec![Node { id: "libfoo 2.1.0".to_string(), dependencies: vec![] }],
            root: Some("libfoo 2.1.0".to_string()),
        }),
    };
    IndicateAdapter::new(snapshot).unwrap()
}

fn sample_package() -> Package {
    Package {
        id: "libfoo 2.1.0".to_string(),
        name: "libfoo".to_string(),
        version: "2.1.0".to_string(),
        license: Some("MIT OR Apache-2.0".to_string()),
        repository: Some("https://github.com/acme/libfoo".to_string()),
    }
}

fn sample_repository() -> GitHubRepository {
    GitHubRepository {
        url: "https://github.com/acme/libfoo".to_string(),
        name: "libfoo".to_string(),
        stargazers_count: 120,
        forks_count: 14,
        open_issues_count: 7,
        has_issues: true,
        archived: false,
        fork: true,
        owner: Some("acme".to_string()),
    }
}

fn sample_user() -> GitHubUser {
    GitHubUser {
        login: "acme".to_string(),
        created_at: 1_300_000_000,
        followers: 42,
        email: None,
    }
}

fn sample_advisory() -> Advisory {
    Advisory {
        id: "RUSTSEC-2021-0001".to_string(),
        package: "libfoo".to_string(),
        title: "Overflow in parse".to_string(),
        description: "A long input overflows the buffer.".to_string(),
        date: AdvisoryDate { year: 2015, month: 5, day: 15 },
        withdrawn: Some(AdvisoryDate { year: 1970, month: 1, day: 2 }),
        affected: Some(Affected {
            arch: vec!["x86_64".to_string(), "arm".to_string()],
            os: vec![],
            functions: vec![AffectedFunctionVersions {
                function_path: "libfoo::parse".to_string(),
                versions: vec!["<1.2.3".to_string(), ">=1.0.0".to_string()],
            }],
        }),
        patched_versions: vec![">=1.2.3".to_string()],
        unaffected_versions: vec!["<1.0.0".to_string()],
        severity: Some(Severity::Critical),
    }
}

fn sample_count() -> GeigerCount {
    GeigerCount::new(30, 10).unwrap()
}

fn value(vertex: Vertex, vertex_type: &str, name: &str) -> FieldValue {
    adapter().resolve_property(&vec![Some(vertex)], vertex_type, name).unwrap().remove(0)
}

fn error(vertex: Vertex, vertex_type: &str, name: &str) -> AdapterError {
    adapter().resolve_property(&vec![Some(vertex)], vertex_type, name).unwrap_err()
}

fn is_text(value: &FieldValue, expected: &str) -> bool {
    matches!(value, FieldValue::Text(t) if t == expected)
}

fn is_list(value: &FieldValue, expected: &[&str]) -> bool {
    matches!(value, FieldValue::TextList(l) if l.iter().map(|s| s.as_str()).eq(expected.iter().copied()))
}

#[test]
fn package_properties() {
    let p = || Vertex::Package(sample_package());
    assert!(is_text(&value(p(), "Package", "id"), "libfoo 2.1.0"));
    assert!(is_text(&value(p(), "Package", "name"), "libfoo"));
    assert!(is_text(&value(p(), "Package", "version"), "2.1.0"));
    assert!(is_text(&value(p(), "Package", "license"), "MIT OR Apache-2.0"));
    let mut unlicensed = sample_package();
    unlicensed.license = None;
    assert!(matches!(value(Vertex::Package(unlicensed), "Package", "license"), FieldValue::Null));
}

#[test]
fn repository_url_of_both_kinds() {
    let generic = || Vertex::Repository("https://example.org/repo".to_string());
    assert!(is_text(&value(generic(), "Repository", "url"), "https://example.org/repo"));
    assert!(is_text(&value(generic(), "Webpage", "url"), "https://example.org/repo"));
    let rich = || Vertex::GitHubRepository(sample_repository());
    assert!(is_text(&value(rich(), "GitHubRepository", "url"), "https://github.com/acme/libfoo"));
    assert!(is_text(&value(rich(), "Repository", "url"), "https://github.com/acme/libfoo"));
    assert!(matches!(value(Vertex::GitHubUser(sample_user()), "Repository", "url"), FieldValue::Null));
}

#[test]
fn github_repository_properties() {
    let r = || Vertex::GitHubRepository(sample_repository());
    assert!(is_text(&value(r(), "GitHubRepository", "name"), "libfoo"));
    assert!(matches!(value(r(), "GitHubRepository", "stars"), FieldValue::Int64(120)));
    assert!(matches!(value(r(), "GitHubRepository", "starsCount"), FieldValue::Int64(120)));
    assert!(matches!(value(r(), "GitHubRepository", "forks"), FieldValue::Int64(14)));
    assert!(matches!(value(r(), "GitHubRepository", "forksCount"), FieldValue::Int64(14)));
    assert!(matches!(value(r(), "GitHubRepository", "openIssues"), FieldValue::Int64(7)));
    assert!(matches!(value(r(), "GitHubRepository", "openIssuesCount"), FieldValue::Int64(7)));
    assert!(matches!(value(r(), "GitHubRepository", "hasIssues"), FieldValue::Boolean(true)));
    assert!(matches!(value(r(), "GitHubRepository", "archived"), FieldValue::Boolean(false)));
    assert!(matches!(value(r(), "GitHubRepository", "fork"), FieldValue::Boolean(true)));
}

#[test]
fn github_user_properties() {
    let u = || Vertex::GitHubUser(sample_user());
    assert!(is_text(&value(u(), "GitHubUser", "username"), "acme"));
    assert!(matches!(value(u(), "GitHubUser", "createdAt"), FieldValue::Int64(1_300_000_000)));
    assert!(matches!(value(u(), "GitHubUser", "unixCreatedAt"), FieldValue::Int64(1_300_000_000)));
    assert!(matches!(value(u(), "GitHubUser", "followers"), FieldValue::Int64(42)));
    assert!(matches!(value(u(), "GitHubUser", "followersCount"), FieldValue::Int64(42)));
    assert!(matches!(value(u(), "GitHubUser", "email"), FieldValue::Null));
    let mut with_email = sample_user();
    with_email.email = Some("dev@acme.example".to_string());
    assert!(is_text(&value(Vertex::GitHubUser(with_email), "GitHubUser", "email"), "dev@acme.example"));
}

#[test]
fn advisory_properties() {
    let a = || Vertex::Advisory(sample_advisory());
    assert!(is_text(&value(a(), "Advisory", "id"), "RUSTSEC-2021-0001"));
    assert!(is_text(&value(a(), "Advisory", "title"), "Overflow in parse"));
    assert!(is_text(&value(a(), "Advisory", "description"), "A long input overflows the buffer."));
    assert!(matches!(value(a(), "Advisory", "disclosureDate"), FieldValue::Int64(1_431_648_000)));
    assert!(matches!(value(a(), "Advisory", "unixDateReported"), FieldValue::Int64(1_431_648_000)));
    assert!(matches!(value(a(), "Advisory", "withdrawalDate"), FieldValue::Int64(86_400)));
    assert!(matches!(value(a(), "Advisory", "unixDateWithdrawn"), FieldValue::Int64(86_400)));
    assert!(is_list(&value(a(), "Advisory", "affectedArch"), &["x86_64", "arm"]));
    assert!(is_list(&value(a(), "Advisory", "affectedOs"), &[]));
    assert!(is_list(&value(a(), "Advisory", "patchedVersions"), &[">=1.2.3"]));
    assert!(is_list(&value(a(), "Advisory", "unaffectedVersions"), &["<1.0.0"]));
    assert!(is_text(&value(a(), "Advisory", "severity"), "critical"));
}

#[test]
fn missing_optional_advisory_data_is_null() {
    let mut bare = sample_advisory();
    bare.withdrawn = None;
    bare.affected = None;
    bare.severity = None;
    let a = || Vertex::Advisory(bare.clone());
    assert!(matches!(value(a(), "Advisory", "withdrawalDate"), FieldValue::Null));
    assert!(matches!(value(a(), "Advisory", "affectedArch"), FieldValue::Null));
    assert!(matches!(value(a(), "Advisory", "affectedOs"), FieldValue::Null));
    assert!(matches!(value(a(), "Advisory", "severity"), FieldValue::Null));
}

#[test]
fn a_date_that_the_calendar_lacks_is_an_error() {
    let mut odd = sample_advisory();
    odd.date = AdvisoryDate { year: 2023, month: 2, day: 30 };
    assert_eq!(error(Vertex::Advisory(odd.clone()), "Advisory", "disclosureDate"), AdapterError::InvalidDate);
    assert!(matches!(value(Vertex::Advisory(odd), "Advisory", "withdrawalDate"), FieldValue::Int64(86_400)));
    let mut odd = sample_advisory();
    odd.withdrawn = Some(AdvisoryDate { year: 2023, month: 4, day: 31 });
    assert_eq!(error(Vertex::Advisory(odd), "Advisory", "withdrawalDate"), AdapterError::InvalidDate);
    assert_eq!(date_value(None).unwrap_err(), AdapterError::InvalidDate);
    assert!(matches!(date_value(Some(-5)), Ok(FieldValue::Int64(-5))));
}

#[test]
fn affected_function_properties() {
    let f = || {
        Vertex::AffectedFunctionVersions(AffectedFunctionVersions {
            function_path: "libfoo::parse".to_string(),
            versions: vec!["<1.2.3".to_string(), ">=1.0.0".to_string()],
        })
    };
    assert!(is_text(&value(f(), "AffectedFunctionVersions", "path"), "libfoo::parse"));
    assert!(is_text(&value(f(), "AffectedFunctionVersions", "functionPath"), "libfoo::parse"));
    assert!(is_list(&value(f(), "AffectedFunctionVersions", "versions"), &["<1.2.3", ">=1.0.0"]));
}

#[test]
fn geiger_properties() {
    let c = || Vertex::GeigerCount(sample_count());
    assert!(matches!(value(c(), "GeigerCount", "safe"), FieldValue::Uint64(30)));
    assert!(matches!(value(c(), "GeigerCount", "unsafe"), FieldValue::Uint64(10)));
    assert!(matches!(value(c(), "GeigerCount", "total"), FieldValue::Uint64(40)));
    assert!(matches!(
        value(c(), "GeigerCount", "percentageUnsafe"),
        FieldValue::Fraction(Ratio { numerator: 10, denominator: 40 })
    ));
    let zero = GeigerCount::new(0, 0).unwrap();
    let categories = GeigerCategories::new(sample_count(), zero, zero, zero, zero).unwrap();
    let unsafety = GeigerUnsafety::new(categories, categories, true).unwrap();
    assert!(matches!(
        value(Vertex::GeigerUnsafety(unsafety), "GeigerUnsafety", "forbidsUnsafe"),
        FieldValue::Boolean(true)
    ));
}

#[test]
fn undeclared_pairs_denote_no_property() {
    for (vertex_type, name) in [
        ("Package", "stars"),
        ("Package", "Name"),
        ("Crate", "name"),
        ("Repository", "name"),
        ("GitHubUser", "login"),
        ("Advisory", "cvss"),
        ("GeigerCategories", "safe"),
        ("GeigerCount", "percentage"),
        ("", ""),
    ] {
        assert_eq!(Property::parse(vertex_type, name), None);
    }
    assert_eq!(Property::parse("Package", "id"), Some(Property::PackageId));
    assert_eq!(Property::parse("GeigerCount", "total"), Some(Property::GeigerCountTotal));
}

#[test]
fn a_vertex_of_another_kind_is_an_error() {
    assert_eq!(
        error(Vertex::GitHubUser(sample_user()), "Package", "name"),
        AdapterError::UnexpectedVertex
    );
    assert_eq!(
        error(Vertex::Package(sample_package()), "GitHubRepository", "name"),
        AdapterError::UnexpectedVertex
    );
    assert_eq!(
        error(Vertex::GeigerCount(sample_count()), "Advisory", "id"),
        AdapterError::UnexpectedVertex
    );
    assert_eq!(
        Vertex::Package(sample_package()).property(Property::GeigerCountSafe).unwrap_err(),
        AdapterError::UnexpectedVertex
    );
}

#[test]
fn properties_keep_the_order_of_the_contexts_and_null_for_empty_ones() {
    let mut second = sample_package();
    second.name = "libbar".to_string();
    let contexts = vec![
        Some(Vertex::Package(sample_package())),
        None,
        Some(Vertex::Package(second)),
    ];
    let values = adapter().resolve_property(&contexts, "Package", "name").unwrap();
    assert_eq!(values.len(), 3);
    assert!(is_text(&values[0], "libfoo"));
    assert!(matches!(values[1], FieldValue::Null));
    assert!(is_text(&values[2], "libbar"));
}

#[test]
fn the_first_failing_context_decides_the_error() {
    let mut odd = sample_advisory();
    odd.date = AdvisoryDate { year: 2023, month: 2, day: 30 };
    let contexts = vec![
        Some(Vertex::Advisory(sample_advisory())),
        Some(Vertex::Advisory(odd)),
        Some(Vertex::Package(sample_package())),
    ];
    assert_eq!(
        adapter().resolve_property(&contexts, "Advisory", "disclosureDate").unwrap_err(),
        AdapterError::InvalidDate
    );
}

#[test]
fn coercion_tells_the_two_kinds_of_repository_apart() {
    let a = adapter();
    let contexts = vec![
        Some(Vertex::Repository("https://example.org".to_string())),
        Some(Vertex::GitHubRepository(sample_repository())),
        None,
        Some(Vertex::Package(sample_package())),
    ];
    let generic = a.resolve_coercion(&contexts, "Repository", "Repository");
    let rich = a.resolve_coercion(&contexts, "Repository", "GitHubRepository");
    assert_eq!(generic, vec![true, false, false, false]);
    assert_eq!(rich, vec![false, true, false, false]);
    for i in 0..2 {
        assert!(generic[i] != rich[i]);
    }
    assert!(contexts[0].as_ref().unwrap().can_coerce_to(CoercionTarget::Repository));
}

#[test]
fn only_the_two_kinds_of_repository_are_coercion_targets() {
    for target in ["Package", "Webpage", "GitHubUser", "repository", ""] {
        assert_eq!(CoercionTarget::parse(target), None);
    }
    assert_eq!(CoercionTarget::parse("Repository"), Some(CoercionTarget::Repository));
    assert_eq!(CoercionTarget::parse("GitHubRepository"), Some(CoercionTarget::GitHubRepository));
    let a = adapter();
    assert!(a.resolve_coercion(&vec![], "Repository", "Repository").is_empty());
}

#[test]
fn narrowing_gives_the_record_of_the_matching_kind_only() {
    let vertex = Vertex::Package(sample_package());
    assert!(vertex.as_package().is_some());
    assert!(vertex.as_repository().is_none());
    assert!(vertex.as_git_hub_repository().is_none());
    assert!(vertex.as_git_hub_user().is_none());
    assert!(vertex.as_advisory().is_none());
    assert!(vertex.as_affected_function_versions().is_none());
    assert!(vertex.as_geiger_unsafety().is_none());
    assert!(vertex.as_geiger_categories().is_none());
    assert!(vertex.as_geiger_count().is_none());
    assert!(vertex.as_webpage().is_none());
    let rich = Vertex::GitHubRepository(sample_repository());
    assert_eq!(rich.as_webpage().unwrap(), "https://github.com/acme/libfoo");
    assert_eq!(rich.clone().as_git_hub_repository().unwrap().name, "libfoo");
}
