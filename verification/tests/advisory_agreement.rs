use indicate::advisory::{
    Advisory, AdvisoryClient, AdvisoryDate, Affected, AffectedFunctionVersions, Arch, Os, Severity,
};
use rustsec::database::Query;
use std::str::FromStr;

fn source(id: &str, package: &str, extra: &str, affected: &str) -> String {
    format!(
        "```toml\n[advisory]\nid = \"{id}\"\npackage = \"{package}\"\ndate = \"2021-01-31\"\n{extra}\n{affected}\n[versions]\npatched = [\">= 1.2.3\"]\nunaffected = [\"< 1.0.0\"]\n```\n\n# Title of {id}\n\nWhat went wrong in {package}.\n"
    )
}

fn sources() -> Vec<String> {
    let critical = "cvss = \"CVSS:3.1/AV:N/AC:L/PR:N/UI:N/S:U/C:H/I:H/A:H\"";
    let medium = "cvss = \"CVSS:3.1/AV:N/AC:H/PR:N/UI:R/S:U/C:L/I:L/A:L\"";
    let high = "cvss = \"CVSS:3.1/AV:N/AC:L/PR:N/UI:N/S:U/C:N/I:N/A:H\"";
    vec![
        source("RUSTSEC-2021-0001", "libfoo", medium, ""),
        source("RUSTSEC-2021-0002", "libfoo", critical, ""),
        source("RUSTSEC-2021-0003", "libfoo", "", ""),
        source("RUSTSEC-2021-0004", "libfoo", "withdrawn = \"2021-02-28\"", ""),
        source(
            "RUSTSEC-2021-0005",
            "libfoo",
            &format!("{high}\nwithdrawn = \"2021-03-01\""),
            "[affected]\narch = [\"x86_64\", \"arm\"]\nos = [\"windows\"]\n",
        ),
        source("RUSTSEC-2021-0006", "libfoo", high, "[affected]\nos = [\"linux\", \"macos\"]\n"),
        source(
            "RUSTSEC-2021-0007",
            "libfoo",
            "",
            "[affected.functions]\n\"libfoo::parse\" = [\"< 1.2.3\"]\n",
        ),
        source("RUSTSEC-2021-0008", "libbar", critical, "[affected]\narch = [\"aarch64\"]\n"),
    ]
}

fn record(advisory: &rustsec::Advisory) -> Advisory {
    let date = |d: &rustsec::advisory::Date| AdvisoryDate {
        year: d.year() as i32,
        month: d.month(),
        day: d.day(),
    };
    Advisory {
        id: advisory.id().to_string(),
        package: advisory.metadata.package.to_string(),
        title: advisory.title().to_string(),
        description: advisory.description().to_string(),
        date: date(advisory.date()),
        withdrawn: advisory.metadata.withdrawn.as_ref().map(date),
        affected: advisory.affected.as_ref().map(|affected| Affected {
            arch: affected.arch.iter().map(|a| a.to_string()).collect(),
            os: affected.os.iter().map(|o| o.to_string()).collect(),
            functions: affected
                .functions
                .iter()
                .map(|(path, versions)| AffectedFunctionVersions {
                    function_path: path.to_string(),
                    versions: versions.iter().map(|v| v.to_string()).collect(),
                })
                .collect(),
        }),
        patched_versions: advisory.versions.patched().iter().map(|v| v.to_string()).collect(),
        unaffected_versions: advisory
            .versions
            .unaffected()
            .iter()
            .map(|v| v.to_string())
            .collect(),
        severity: advisory.severity().map(|s| Severity::parse(s.as_str()).unwrap()),
    }
}

fn parsed() -> Vec<rustsec::Advisory> {
    sources().iter().map(|text| rustsec::Advisory::from_str(text).unwrap()).collect()
}

#[test]
fn parsed_advisories_carry_their_data_into_the_records() {
    let records: Vec<Advisory> = parsed().iter().map(record).collect();
    assert_eq!(records.len(), 8);
    assert_eq!(records[0].id, "RUSTSEC-2021-0001");
    assert_eq!(records[0].severity, Some(Severity::Medium));
    assert_eq!(records[1].severity, Some(Severity::Critical));
    assert_eq!(records[2].severity, None);
    assert_eq!(records[3].withdrawn, Some(AdvisoryDate { year: 2021, month: 2, day: 28 }));
    assert_eq!(records[4].affected.as_ref().unwrap().arch, vec!["x86_64", "arm"]);
    assert_eq!(records[4].affected.as_ref().unwrap().os, vec!["windows"]);
    assert_eq!(records[6].affected.as_ref().unwrap().functions[0].function_path, "libfoo::parse");
    assert_eq!(records[0].title, "Title of RUSTSEC-2021-0001");
    assert_eq!(records[0].date.timestamp(), Some(1_612_051_200));
}

#[test]
fn the_filter_agrees_with_the_queries_of_the_advisory_database() {
    let advisories = parsed();
    let records: Vec<Advisory> = advisories.iter().map(record).collect();
    let severities = [None, Some("none"), Some("low"), Some("medium"), Some("high"), Some("critical")];
    let archs = [None, Some("x86_64"), Some("arm"), Some("aarch64"), Some("wasm32")];
    let oses = [None, Some("windows"), Some("linux"), Some("freebsd")];
    let mut compared = 0;
    for package in ["libfoo", "libbar", "libbaz"] {
        for withdrawn in [false, true] {
            for severity in severities {
                for arch in archs {
                    for os in oses {
                        let mut query = Query::new()
                            .package_name(rustsec::package::Name::from_str(package).unwrap())
                            .withdrawn(withdrawn);
                        if let Some(s) = severity {
                            query = query.severity(cvss::Severity::from_str(s).unwrap());
                        }
                        if let Some(a) = arch {
                            query = query.target_arch(rustsec::platforms::Arch::from_str(a).unwrap());
                        }
                        if let Some(o) = os {
                            query = query.target_os(rustsec::platforms::OS::from_str(o).unwrap());
                        }
                        let floor = severity.map(|s| Severity::parse(s).unwrap());
                        let wanted_arch = arch.map(|a| Arch::parse(a).unwrap());
                        let wanted_os = os.map(|o| Os::parse(o).unwrap());
                        for (advisory, record) in advisories.iter().zip(records.iter()) {
                            assert_eq!(
                                AdvisoryClient::matches(
                                    record,
                                    package,
                                    withdrawn,
                                    wanted_arch.as_ref(),
                                    wanted_os.as_ref(),
                                    floor,
                                ),
                                query.matches(advisory),
                                "{} for {:?}",
                                record.id,
                                query
                            );
                            compared += 1;
                        }
                    }
                }
            }
        }
    }
    assert_eq!(compared, 3 * 2 * 6 * 5 * 4 * 8);
}

#[test]
fn the_history_holds_what_two_queries_of_the_database_return() {
    let advisories = parsed();
    let client = AdvisoryClient::new(advisories.iter().map(record).collect());
    let ask = |withdrawn: bool| -> Vec<String> {
        let query = Query::new()
            .package_name(rustsec::package::Name::from_str("libfoo").unwrap())
            .severity(cvss::Severity::High)
            .withdrawn(withdrawn);
        advisories.iter().filter(|a| query.matches(a)).map(|a| a.id().to_string()).collect()
    };
    let ids = |found: Vec<Advisory>| -> Vec<String> { found.into_iter().map(|a| a.id).collect() };
    let floor = Some(Severity::High);
    assert_eq!(ids(client.all_advisories_for_package("libfoo", false, None, None, floor)), ask(false));
    let mut both = ask(false);
    both.extend(ask(true));
    assert_eq!(ids(client.all_advisories_for_package("libfoo", true, None, None, floor)), both);
    assert_eq!(
        both,
        vec![
            "RUSTSEC-2021-0002",
            "RUSTSEC-2021-0003",
            "RUSTSEC-2021-0006",
            "RUSTSEC-2021-0007",
            "RUSTSEC-2021-0004",
            "RUSTSEC-2021-0005"
        ]
    );
}
