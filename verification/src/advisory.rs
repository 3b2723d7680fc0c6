//! Security advisories: the records, the filter of the advisory history, and
//! the client that answers queries from a loaded advisory database.

use crate::text::{clone_texts, same_text};
use std::str::FromStr;
use vstd::prelude::*;

verus! {

/// The qualitative severity rating of an advisory, lowest first.
#[derive(Clone, Copy, Debug, PartialEq, Eq, Structural)]
pub enum Severity {
    /// A score of zero; its name on the scale is `none`.
    Negligible,
    Low,
    Medium,
    High,
    Critical,
}

/// The ASCII lower-case form of a character; other characters stay.
pub open spec fn ascii_lower(c: char) -> char {
    if 'A' <= c && c <= 'Z' {
        ((c as u8) + 32) as char
    } else {
        c
    }
}

/// The text with each of its characters in ASCII lower case.
pub open spec fn ascii_lowercase(text: Seq<char>) -> Seq<char> {
    Seq::new(text.len(), |i: int| ascii_lower(text[i]))
}

/// The severity that a text names, whatever the case of its ASCII letters.
pub open spec fn severity_of_text(text: Seq<char>) -> Option<Severity> {
    let lower = ascii_lowercase(text);
    if lower == "none"@ {
        Some(Severity::Negligible)
    } else if lower == "low"@ {
        Some(Severity::Low)
    } else if lower == "medium"@ {
        Some(Severity::Medium)
    } else if lower == "high"@ {
        Some(Severity::High)
    } else if lower == "critical"@ {
        Some(Severity::Critical)
    } else {
        None
    }
}

/// `cvss::Severity::from_str`: it puts the text in ASCII lower case and
/// accepts exactly the five names of the rating scale.
#[verifier::external_body]
fn parse_severity(text: &str) -> (res: Option<Severity>)
    ensures
        res == severity_of_text(text@),
{
    match cvss::Severity::from_str(text) {
        Ok(cvss::Severity::None) => Some(Severity::Negligible),
        Ok(cvss::Severity::Low) => Some(Severity::Low),
        Ok(cvss::Severity::Medium) => Some(Severity::Medium),
        Ok(cvss::Severity::High) => Some(Severity::High),
        Ok(cvss::Severity::Critical) => Some(Severity::Critical),
        Err(_) => None,
    }
}

impl Severity {
    /// The place of the rating on the scale, from 0 for `Negligible` to 4 for
    /// `Critical`.
    pub open spec fn rank(self) -> int {
        match self {
            Severity::Negligible => 0,
            Severity::Low => 1,
            Severity::Medium => 2,
            Severity::High => 3,
            Severity::Critical => 4,
        }
    }

    /// The lower-case name of the rating.
    pub open spec fn name(self) -> Seq<char> {
        match self {
            Severity::Negligible => "none"@,
            Severity::Low => "low"@,
            Severity::Medium => "medium"@,
            Severity::High => "high"@,
            Severity::Critical => "critical"@,
        }
    }

    fn rank_of(&self) -> (res: u8)
        ensures
            res == self.rank(),
    {
        match self {
            Severity::Negligible => 0,
            Severity::Low => 1,
            Severity::Medium => 2,
            Severity::High => 3,
            Severity::Critical => 4,
        }
    }

    /// Whether this rating is `floor` or higher.
    pub fn at_least(&self, floor: &Severity) -> (res: bool)
        ensures
            res == (self.rank() >= floor.rank()),
    {
        self.rank_of() >= floor.rank_of()
    }

    /// The lower-case name of the rating.
    pub fn as_str(&self) -> (res: &'static str)
        ensures
            res@ == self.name(),
    {
        match self {
            Severity::Negligible => "none",
            Severity::Low => "low",
            Severity::Medium => "medium",
            Severity::High => "high",
            Severity::Critical => "critical",
        }
    }

    /// Reads a rating from its name, in any case of its letters.
    pub fn parse(text: &str) -> (res: Option<Severity>)
        ensures
            res == severity_of_text(text@),
    {
        parse_severity(text)
    }
}

/// Whether `platforms::target::Arch::from_str` accepts the name.
pub uninterp spec fn known_arch(name: Seq<char>) -> bool;

/// Whether `platforms::target::OS::from_str` accepts the name.
pub uninterp spec fn known_os(name: Seq<char>) -> bool;

/// `platforms::target::Arch::from_str`, reached through `rustsec`: whether
/// the name is one of the architectures that the crate lists.
#[verifier::external_body]
fn is_known_arch(name: &str) -> (res: bool)
    ensures
        res == known_arch(name@),
{
    rustsec::platforms::Arch::from_str(name).is_ok()
}

/// `platforms::target::OS::from_str`, reached through `rustsec`: whether the
/// name is one of the operating systems that the crate lists.
#[verifier::external_body]
fn is_known_os(name: &str) -> (res: bool)
    ensures
        res == known_os(name@),
{
    rustsec::platforms::OS::from_str(name).is_ok()
}

/// The name of a CPU architecture from the fixed list of platforms.
#[derive(Debug)]
pub struct Arch {
    name: String,
}

impl View for Arch {
    type V = Seq<char>;

    closed spec fn view(&self) -> Seq<char> {
        self.name@
    }
}

impl DeepView for Arch {
    type V = Seq<char>;

    open spec fn deep_view(&self) -> Seq<char> {
        self@
    }
}

impl Arch {
    #[verifier::type_invariant]
    spec fn listed(self) -> bool {
        known_arch(self.name@)
    }

    /// The architecture of that exact name, if the list of platforms has it.
    pub fn parse(name: &str) -> (res: Option<Arch>)
        ensures
            res is Some <==> known_arch(name@),
            res matches Some(a) ==> a@ == name@,
    {
        if is_known_arch(name) {
            Some(Arch { name: name.to_owned() })
        } else {
            None
        }
    }

    /// The name of the architecture.
    pub fn as_str(&self) -> (res: &str)
        ensures
            res@ == self@,
            known_arch(res@),
    {
        proof {
            use_type_invariant(self);
        }
        self.name.as_str()
    }
}

/// The name of an operating system from the fixed list of platforms.
#[derive(Debug)]
pub struct Os {
    name: String,
}

impl View for Os {
    type V = Seq<char>;

    closed spec fn view(&self) -> Seq<char> {
        self.name@
    }
}

impl DeepView for Os {
    type V = Seq<char>;

    open spec fn deep_view(&self) -> Seq<char> {
        self@
    }
}

impl Os {
    #[verifier::type_invariant]
    spec fn listed(self) -> bool {
        known_os(self.name@)
    }

    /// The operating system of that exact name, if the list of platforms has
    /// it.
    pub fn parse(name: &str) -> (res: Option<Os>)
        ensures
            res is Some <==> known_os(name@),
            res matches Some(o) ==> o@ == name@,
    {
        if is_known_os(name) {
            Some(Os { name: name.to_owned() })
        } else {
            None
        }
    }

    /// The name of the operating system.
    pub fn as_str(&self) -> (res: &str)
        ensures
            res@ == self@,
            known_os(res@),
    {
        proof {
            use_type_invariant(self);
        }
        self.name.as_str()
    }
}

/// A calendar date without a time of day.
#[derive(Clone, Copy, Debug, PartialEq, Eq, Structural)]
pub struct AdvisoryDate {
    pub year: i32,
    pub month: u32,
    pub day: u32,
}

/// The seconds from the Unix epoch to the instant that chrono makes of a
/// calendar day and a time of day, taken as UTC: `NaiveDate::from_ymd_opt`,
/// then `and_hms_opt`, `and_utc` and `timestamp`. `None` where chrono makes
/// no such instant: the calendar has no such day, the year is beyond the
/// years that the crate can hold, or the day has no such time.
pub uninterp spec fn utc_timestamp(
    year: int,
    month: int,
    day: int,
    hour: int,
    minute: int,
    second: int,
) -> Option<int>;

/// `chrono::NaiveDate::from_ymd_opt`, then `and_hms_opt`, `and_utc` and
/// `timestamp`: the instant of a day and a time of day in UTC, in seconds
/// since the Unix epoch.
#[verifier::external_body]
fn utc_timestamp_of(year: i32, month: u32, day: u32, hour: u32, minute: u32, second: u32) -> (res:
    Option<i64>)
    ensures
        match res {
            Some(s) => utc_timestamp(
                year as int,
                month as int,
                day as int,
                hour as int,
                minute as int,
                second as int,
            ) == Some(s as int),
            None => utc_timestamp(
                year as int,
                month as int,
                day as int,
                hour as int,
                minute as int,
                second as int,
            ) is None,
        },
{
    match chrono::NaiveDate::from_ymd_opt(year, month, day) {
        Some(date) => match date.and_hms_opt(hour, minute, second) {
            Some(instant) => Some(instant.and_utc().timestamp()),
            None => None,
        },
        None => None,
    }
}

/// The instant that stands for a date: midnight UTC at its start, in
/// seconds since the Unix epoch.
pub open spec fn midnight_utc_timestamp(date: AdvisoryDate) -> Option<int> {
    utc_timestamp(date.year as int, date.month as int, date.day as int, 0, 0, 0)
}

impl AdvisoryDate {
    /// The instant that stands for the date: midnight UTC at its start, in
    /// seconds since the Unix epoch. `None` where the calendar has no such
    /// day or the year is out of range.
    pub fn timestamp(&self) -> (res: Option<i64>)
        ensures
            match res {
                Some(seconds) => midnight_utc_timestamp(*self) == Some(seconds as int),
                None => midnight_utc_timestamp(*self) is None,
            },
    {
        utc_timestamp_of(self.year, self.month, self.day, 0, 0, 0)
    }
}

/// A function that an advisory affects, with the version ranges in which
/// it does.
#[derive(Debug)]
pub struct AffectedFunctionVersions {
    /// The canonical path of the function, starting with the crate's name.
    pub function_path: String,
    pub versions: Vec<String>,
}

/// The mathematical content of an [`AffectedFunctionVersions`].
pub struct AffectedFunctionVersionsView {
    pub function_path: Seq<char>,
    pub versions: Seq<Seq<char>>,
}

impl View for AffectedFunctionVersions {
    type V = AffectedFunctionVersionsView;

    open spec fn view(&self) -> AffectedFunctionVersionsView {
        AffectedFunctionVersionsView {
            function_path: self.function_path@,
            versions: self.versions.deep_view(),
        }
    }
}

impl DeepView for AffectedFunctionVersions {
    type V = AffectedFunctionVersionsView;

    open spec fn deep_view(&self) -> AffectedFunctionVersionsView {
        self@
    }
}

impl Clone for AffectedFunctionVersions {
    fn clone(&self) -> (res: AffectedFunctionVersions)
        ensures
            res@ == self@,
    {
        AffectedFunctionVersions {
            function_path: self.function_path.clone(),
            versions: clone_texts(&self.versions),
        }
    }
}

/// What an advisory says of the systems and functions it concerns.
#[derive(Debug)]
pub struct Affected {
    /// The CPU architectures that the advisory is specific to; empty when it
    /// concerns all of them.
    pub arch: Vec<String>,
    /// The operating systems that the advisory is specific to; empty when it
    /// concerns all of them.
    pub os: Vec<String>,
    pub functions: Vec<AffectedFunctionVersions>,
}

/// The mathematical content of an [`Affected`].
pub struct AffectedView {
    pub arch: Seq<Seq<char>>,
    pub os: Seq<Seq<char>>,
    pub functions: Seq<AffectedFunctionVersionsView>,
}

impl View for Affected {
    type V = AffectedView;

    open spec fn view(&self) -> AffectedView {
        AffectedView {
            arch: self.arch.deep_view(),
            os: self.os.deep_view(),
            functions: self.functions.deep_view(),
        }
    }
}

impl DeepView for Affected {
    type V = AffectedView;

    open spec fn deep_view(&self) -> AffectedView {
        self@
    }
}

/// An owned copy of a list of affected functions, in the same order.
pub fn clone_functions(functions: &Vec<AffectedFunctionVersions>) -> (res: Vec<
    AffectedFunctionVersions,
>)
    ensures
        res.deep_view() == functions.deep_view(),
{
    let mut copy: Vec<AffectedFunctionVersions> = Vec::new();
    let mut i: usize = 0;
    while i < functions.len()
        invariant
            i <= functions.len(),
            copy.len() == i,
            forall|j: int| 0 <= j < i ==> copy[j]@ == functions[j]@,
        decreases functions.len() - i,
    {
        copy.push(functions[i].clone());
        i += 1;
    }
    assert(copy.deep_view() =~= functions.deep_view());
    copy
}

impl Clone for Affected {
    fn clone(&self) -> (res: Affected)
        ensures
            res@ == self@,
    {
        Affected {
            arch: clone_texts(&self.arch),
            os: clone_texts(&self.os),
            functions: clone_functions(&self.functions),
        }
    }
}

/// One security advisory.
#[derive(Debug)]
pub struct Advisory {
    pub id: String,
    /// The name of the package that the advisory is about.
    pub package: String,
    pub title: String,
    pub description: String,
    /// The day on which the issue was disclosed.
    pub date: AdvisoryDate,
    /// The day on which the advisory was withdrawn, if it was.
    pub withdrawn: Option<AdvisoryDate>,
    pub affected: Option<Affected>,
    pub patched_versions: Vec<String>,
    pub unaffected_versions: Vec<String>,
    pub severity: Option<Severity>,
}

/// The mathematical content of an [`Advisory`].
pub struct AdvisoryView {
    pub id: Seq<char>,
    pub package: Seq<char>,
    pub title: Seq<char>,
    pub description: Seq<char>,
    pub date: AdvisoryDate,
    pub withdrawn: Option<AdvisoryDate>,
    pub affected: Option<AffectedView>,
    pub patched_versions: Seq<Seq<char>>,
    pub unaffected_versions: Seq<Seq<char>>,
    pub severity: Option<Severity>,
}

impl View for Advisory {
    type V = AdvisoryView;

    open spec fn view(&self) -> AdvisoryView {
        AdvisoryView {
            id: self.id@,
            package: self.package@,
            title: self.title@,
            description: self.description@,
            date: self.date,
            withdrawn: self.withdrawn,
            affected: self.affected.deep_view(),
            patched_versions: self.patched_versions.deep_view(),
            unaffected_versions: self.unaffected_versions.deep_view(),
            severity: self.severity,
        }
    }
}

impl DeepView for Advisory {
    type V = AdvisoryView;

    open spec fn deep_view(&self) -> AdvisoryView {
        self@
    }
}

impl Clone for Advisory {
    fn clone(&self) -> (res: Advisory)
        ensures
            res@ == self@,
    {
        let affected = match &self.affected {
            Some(a) => Some(a.clone()),
            None => None,
        };
        Advisory {
            id: self.id.clone(),
            package: self.package.clone(),
            title: self.title.clone(),
            description: self.description.clone(),
            date: self.date,
            withdrawn: self.withdrawn,
            affected,
            patched_versions: clone_texts(&self.patched_versions),
            unaffected_versions: clone_texts(&self.unaffected_versions),
            severity: self.severity,
        }
    }
}

/// What a query of the advisory database asks for.
pub struct AdvisoryQuery {
    /// The name of the package.
    pub package: Seq<char>,
    /// Whether the advisories asked for are the withdrawn ones or the others.
    pub withdrawn: bool,
    pub arch: Option<Seq<char>>,
    pub os: Option<Seq<char>>,
    /// The lowest severity that is still of interest.
    pub min_severity: Option<Severity>,
}

/// Whether a list of platform names admits a platform: an empty list stands
/// for every platform.
pub open spec fn platform_admitted(listed: Seq<Seq<char>>, wanted: Option<Seq<char>>) -> bool {
    match wanted {
        Some(name) => listed.len() == 0 || listed.contains(name),
        None => true,
    }
}

/// Whether an advisory answers a query: the package is the one asked for,
/// the severity is at or above the floor, the platforms asked for are among
/// those that the advisory concerns, and the advisory is withdrawn exactly
/// when withdrawn advisories are asked for. An advisory without a severity
/// passes every severity floor, and one that names no platforms concerns
/// all of them. This is how `rustsec::database::Query::matches` decides a
/// query that sets these five things and no others.
pub open spec fn advisory_matches(advisory: AdvisoryView, query: AdvisoryQuery) -> bool {
    &&& advisory.package == query.package
    &&& match (query.min_severity, advisory.severity) {
        (Some(floor), Some(severity)) => severity.rank() >= floor.rank(),
        _ => true,
    }
    &&& match advisory.affected {
        Some(affected) => platform_admitted(affected.arch, query.arch) && platform_admitted(
            affected.os,
            query.os,
        ),
        None => true,
    }
    &&& query.withdrawn == advisory.withdrawn is Some
}

/// The test that [`advisory_matches`] makes for one query, as a predicate.
pub open spec fn matching(query: AdvisoryQuery) -> spec_fn(AdvisoryView) -> bool {
    |advisory: AdvisoryView| advisory_matches(advisory, query)
}

/// The advisories of a database that answer a query, in the database's
/// order.
pub open spec fn query_result(database: Seq<AdvisoryView>, query: AdvisoryQuery) -> Seq<
    AdvisoryView,
> {
    database.filter(matching(query))
}

/// The advisory history of a package: the advisories in force that pass the
/// filters and, where `include_withdrawn` is set, after them the withdrawn
/// ones that pass the same filters.
pub open spec fn advisory_history(
    database: Seq<AdvisoryView>,
    package: Seq<char>,
    include_withdrawn: bool,
    arch: Option<Seq<char>>,
    os: Option<Seq<char>>,
    min_severity: Option<Severity>,
) -> Seq<AdvisoryView> {
    let in_force = query_result(
        database,
        AdvisoryQuery { package, withdrawn: false, arch, os, min_severity },
    );
    if include_withdrawn {
        in_force + query_result(
            database,
            AdvisoryQuery { package, withdrawn: true, arch, os, min_severity },
        )
    } else {
        in_force
    }
}

/// Whether `wanted` is among `names`.
pub fn names_contain(names: &Vec<String>, wanted: &str) -> (res: bool)
    ensures
        res == names.deep_view().contains(wanted@),
{
    let mut i: usize = 0;
    while i < names.len()
        invariant
            i <= names.len(),
            forall|j: int| 0 <= j < i ==> names[j]@ != wanted@,
        decreases names.len() - i,
    {
        if same_text(names[i].as_str(), wanted) {
            assert(names.deep_view()[i as int] == wanted@);
            return true;
        }
        i += 1;
    }
    false
}

fn platform_is_admitted(listed: &Vec<String>, wanted: Option<&str>) -> (res: bool)
    ensures
        res == platform_admitted(
            listed.deep_view(),
            match wanted {
                Some(w) => Some(w@),
                None => None,
            },
        ),
{
    match wanted {
        Some(name) => listed.len() == 0 || names_contain(listed, name),
        None => true,
    }
}

/// A loaded advisory database, ready to answer queries.
#[derive(Debug)]
pub struct AdvisoryClient {
    advisories: Vec<Advisory>,
}

impl View for AdvisoryClient {
    type V = Seq<AdvisoryView>;

    closed spec fn view(&self) -> Seq<AdvisoryView> {
        self.advisories.deep_view()
    }
}

impl AdvisoryClient {
    /// A client over the given advisories, kept in their order.
    pub fn new(advisories: Vec<Advisory>) -> (res: AdvisoryClient)
        ensures
            res@ == advisories.deep_view(),
    {
        AdvisoryClient { advisories }
    }

    /// Whether one advisory answers a query.
    pub fn matches(
        advisory: &Advisory,
        package: &str,
        withdrawn: bool,
        arch: Option<&Arch>,
        os: Option<&Os>,
        min_severity: Option<Severity>,
    ) -> (res: bool)
        ensures
            res == advisory_matches(
                advisory@,
                AdvisoryQuery {
                    package: package@,
                    withdrawn,
                    arch: arch.deep_view(),
                    os: os.deep_view(),
                    min_severity,
                },
            ),
    {
        if !same_text(advisory.package.as_str(), package) {
            return false;
        }
        let severe_enough = match (min_severity, advisory.severity) {
            (Some(floor), Some(severity)) => severity.at_least(&floor),
            _ => true,
        };
        if !severe_enough {
            return false;
        }
        let arch_name: Option<&str> = match arch {
            Some(a) => Some(a.as_str()),
            None => None,
        };
        let os_name: Option<&str> = match os {
            Some(o) => Some(o.as_str()),
            None => None,
        };
        let concerned = match &advisory.affected {
            Some(affected) => platform_is_admitted(&affected.arch, arch_name)
                && platform_is_admitted(&affected.os, os_name),
            None => true,
        };
        if !concerned {
            return false;
        }
        withdrawn == advisory.withdrawn.is_some()
    }

    /// The advisories that answer one query, in the database's order.
    pub fn query(
        &self,
        package: &str,
        withdrawn: bool,
        arch: Option<&Arch>,
        os: Option<&Os>,
        min_severity: Option<Severity>,
    ) -> (res: Vec<Advisory>)
        ensures
            res.deep_view() == query_result(
                self@,
                AdvisoryQuery {
                    package: package@,
                    withdrawn,
                    arch: arch.deep_view(),
                    os: os.deep_view(),
                    min_severity,
                },
            ),
    {
        let ghost query = AdvisoryQuery {
            package: package@,
            withdrawn,
            arch: arch.deep_view(),
            os: os.deep_view(),
            min_severity,
        };
        let mut found: Vec<Advisory> = Vec::new();
        let mut i: usize = 0;
        proof {
            assert(self@.take(0) =~= Seq::<AdvisoryView>::empty());
            reveal(Seq::filter);
        }
        while i < self.advisories.len()
            invariant
                i <= self.advisories.len(),
                self@ == self.advisories.deep_view(),
                query == (AdvisoryQuery {
                    package: package@,
                    withdrawn,
                    arch: arch.deep_view(),
                    os: os.deep_view(),
                    min_severity,
                }),
                found.deep_view() =~= self@.take(i as int).filter(matching(query)),
            decreases self.advisories.len() - i,
        {
            let advisory = &self.advisories[i];
            let ghost before = found.deep_view();
            proof {
                let next = self@.take(i + 1);
                assert(next.drop_last() =~= self@.take(i as int));
                assert(next.last() == advisory@);
                assert(matching(query)(advisory@) == advisory_matches(advisory@, query));
                assert(next =~= self@.take(i as int).push(advisory@));
                self@.take(i as int).lemma_filter_push(advisory@, matching(query));
            }
            if AdvisoryClient::matches(advisory, package, withdrawn, arch, os, min_severity) {
                found.push(advisory.clone());
                assert(found.deep_view() =~= before.push(advisory@));
            }
            i += 1;
        }
        assert(self@.take(i as int) =~= self@);
        found
    }

    /// Retrieves the advisory history of a package.
    ///
    /// Withdrawn advisories are left out unless `include_withdrawn` is set;
    /// then they follow the advisories in force.
    pub fn all_advisories_for_package(
        &self,
        name: &str,
        include_withdrawn: bool,
        arch: Option<&Arch>,
        os: Option<&Os>,
        min_severity: Option<Severity>,
    ) -> (res: Vec<Advisory>)
        ensures
            res.deep_view() == advisory_history(
                self@,
                name@,
                include_withdrawn,
                arch.deep_view(),
                os.deep_view(),
                min_severity,
            ),
    {
        let mut res = self.query(name, false, arch, os, min_severity);
        if include_withdrawn {
            let ghost in_force = res.deep_view();
            let mut withdrawn = self.query(name, true, arch, os, min_severity);
            let ghost late = withdrawn.deep_view();
            res.append(&mut withdrawn);
            assert(res.deep_view() =~= in_force + late);
        }
        res
    }
}

} // verus!
