//! Where the sources of the dependencies lie on disk: the names of the
//! directories below the registry's source directory, and the map from a
//! package's name and version to the directory that was found there.
//!
//! A place is kept as the three parts that lead to it, not as one text:
//! how parts are joined to a path is for the platform to say.

use crate::text::same_text;
use vstd::prelude::*;
use vstd::string::StringExecFns;

verus! {

/// A package of the lock file, with what is known of the registry that it
/// comes from.
#[derive(Debug)]
pub struct LockedPackage {
    pub name: String,
    pub version: String,
    /// The host of the registry's address; absent where the address has
    /// none.
    pub registry_host: Option<String>,
    /// The short hash by which the registry's directory is told apart.
    pub registry_hash: String,
}

/// The mathematical content of a [`LockedPackage`].
pub struct LockedPackageView {
    pub name: Seq<char>,
    pub version: Seq<char>,
    pub registry_host: Option<Seq<char>>,
    pub registry_hash: Seq<char>,
}

impl View for LockedPackage {
    type V = LockedPackageView;

    open spec fn view(&self) -> LockedPackageView {
        LockedPackageView {
            name: self.name@,
            version: self.version@,
            registry_host: self.registry_host.deep_view(),
            registry_hash: self.registry_hash@,
        }
    }
}

impl DeepView for LockedPackage {
    type V = LockedPackageView;

    open spec fn deep_view(&self) -> LockedPackageView {
        self@
    }
}

/// The two directory names that lead from the registry's source directory
/// to the unpacked sources of one package version.
#[derive(Debug)]
pub struct SourceDirectory {
    pub name: String,
    pub version: String,
    /// The directory of the registry: its host, a hyphen and its hash.
    pub registry_directory: String,
    /// The directory of the package below it: name, a hyphen and version.
    pub package_directory: String,
}

/// The mathematical content of a [`SourceDirectory`].
pub struct SourceDirectoryView {
    pub name: Seq<char>,
    pub version: Seq<char>,
    pub registry_directory: Seq<char>,
    pub package_directory: Seq<char>,
}

impl View for SourceDirectory {
    type V = SourceDirectoryView;

    open spec fn view(&self) -> SourceDirectoryView {
        SourceDirectoryView {
            name: self.name@,
            version: self.version@,
            registry_directory: self.registry_directory@,
            package_directory: self.package_directory@,
        }
    }
}

impl DeepView for SourceDirectory {
    type V = SourceDirectoryView;

    open spec fn deep_view(&self) -> SourceDirectoryView {
        self@
    }
}

/// Two texts joined by a hyphen.
pub open spec fn hyphenated(first: Seq<char>, second: Seq<char>) -> Seq<char> {
    first + "-"@ + second
}

/// The source directory of a locked package, if its registry has a host.
pub open spec fn source_directory_of(package: LockedPackageView) -> Option<SourceDirectoryView> {
    match package.registry_host {
        Some(host) => Some(
            SourceDirectoryView {
                name: package.name,
                version: package.version,
                registry_directory: hyphenated(host, package.registry_hash),
                package_directory: hyphenated(package.name, package.version),
            },
        ),
        None => None,
    }
}

/// The source directories of a list of locked packages, in the same order;
/// packages whose registry has no host are left out.
pub open spec fn source_directories_of(packages: Seq<LockedPackageView>) -> Seq<
    SourceDirectoryView,
> {
    packages.filter_map(|package: LockedPackageView| source_directory_of(package))
}

/// Joins two texts by a hyphen.
pub fn hyphenate(first: &str, second: &str) -> (res: String)
    ensures
        res@ == hyphenated(first@, second@),
{
    let mut joined = first.to_owned();
    joined.append("-");
    joined.append(second);
    joined
}

/// The names of the directories in which the sources of the locked
/// packages are expected.
pub fn source_directories(packages: &Vec<LockedPackage>) -> (res: Vec<SourceDirectory>)
    ensures
        res.deep_view() == source_directories_of(packages.deep_view()),
{
    let ghost convert = |package: LockedPackageView| source_directory_of(package);
    let mut directories: Vec<SourceDirectory> = Vec::new();
    let mut i: usize = 0;
    proof {
        assert(packages.deep_view().take(0) =~= Seq::<LockedPackageView>::empty());
    }
    while i < packages.len()
        invariant
            i <= packages.len(),
            convert == |package: LockedPackageView| source_directory_of(package),
            directories.deep_view() =~= packages.deep_view().take(i as int).filter_map(convert),
        decreases packages.len() - i,
    {
        let package = &packages[i];
        let ghost before = directories.deep_view();
        proof {
            let next = packages.deep_view().take(i + 1);
            assert(next.drop_last() =~= packages.deep_view().take(i as int));
            assert(next.last() == package@);
        }
        match &package.registry_host {
            Some(host) => {
                let directory = SourceDirectory {
                    name: package.name.clone(),
                    version: package.version.clone(),
                    registry_directory: hyphenate(host.as_str(), package.registry_hash.as_str()),
                    package_directory: hyphenate(package.name.as_str(), package.version.as_str()),
                };
                let ghost view = directory@;
                directories.push(directory);
                assert(directories.deep_view() =~= before + seq![view]);
            },
            None => {},
        }
        i += 1;
    }
    proof {
        assert(packages.deep_view().take(i as int) =~= packages.deep_view());
    }
    directories
}

/// The place of the unpacked sources of one package version: below the
/// registry's source directory `base`, the directory of the registry, and
/// below that the directory of the package.
#[derive(Debug)]
pub struct SourcePath {
    pub base: String,
    pub registry_directory: String,
    pub package_directory: String,
}

/// The mathematical content of a [`SourcePath`].
pub struct SourcePathView {
    pub base: Seq<char>,
    pub registry_directory: Seq<char>,
    pub package_directory: Seq<char>,
}

impl View for SourcePath {
    type V = SourcePathView;

    open spec fn view(&self) -> SourcePathView {
        SourcePathView {
            base: self.base@,
            registry_directory: self.registry_directory@,
            package_directory: self.package_directory@,
        }
    }
}

impl DeepView for SourcePath {
    type V = SourcePathView;

    open spec fn deep_view(&self) -> SourcePathView {
        self@
    }
}

/// Whether the directory at a position was found on disk. A directory of
/// which nothing is said was not.
pub open spec fn is_present(present: Seq<bool>, position: int) -> bool {
    0 <= position < present.len() && present[position]
}

/// The directory that holds the sources of a package version: the last of
/// the directories of this name and version that was found on disk.
pub open spec fn found_directory(
    directories: Seq<SourceDirectoryView>,
    present: Seq<bool>,
    name: Seq<char>,
    version: Seq<char>,
) -> Option<SourceDirectoryView>
    decreases directories.len(),
{
    if directories.len() == 0 {
        None
    } else if is_present(present, directories.len() - 1) && directories.last().name == name
        && directories.last().version == version {
        Some(directories.last())
    } else {
        found_directory(directories.drop_last(), present, name, version)
    }
}

/// The mathematical content of a [`SourceMap`].
pub struct SourceMapView {
    /// The registry's source directory.
    pub base: Seq<char>,
    /// The directories in which sources were looked for.
    pub directories: Seq<SourceDirectoryView>,
    /// For each of them, whether it was found.
    pub present: Seq<bool>,
}

impl SourceMapView {
    /// The place of the sources of a package version, if they were found.
    pub open spec fn path_of(self, name: Seq<char>, version: Seq<char>) -> Option<SourcePathView> {
        match found_directory(self.directories, self.present, name, version) {
            Some(directory) => Some(
                SourcePathView {
                    base: self.base,
                    registry_directory: directory.registry_directory,
                    package_directory: directory.package_directory,
                },
            ),
            None => None,
        }
    }
}

/// From the name and version of a dependency to the local path of its
/// source code.
#[derive(Debug)]
pub struct SourceMap {
    base: String,
    directories: Vec<SourceDirectory>,
    present: Vec<bool>,
}

impl View for SourceMap {
    type V = SourceMapView;

    closed spec fn view(&self) -> SourceMapView {
        SourceMapView {
            base: self.base@,
            directories: self.directories.deep_view(),
            present: self.present@,
        }
    }
}

impl SourceMap {
    /// The place of the sources of a package version, if they were found.
    pub fn get(&self, name: &str, version: &str) -> (res: Option<SourcePath>)
        ensures
            res.deep_view() == self@.path_of(name@, version@),
    {
        let ghost directories = self.directories.deep_view();
        let mut i: usize = self.directories.len();
        assert(directories.take(i as int) =~= directories);
        while i > 0
            invariant
                i <= self.directories.len(),
                directories == self.directories.deep_view(),
                found_directory(directories, self.present@, name@, version@) == found_directory(
                    directories.take(i as int),
                    self.present@,
                    name@,
                    version@,
                ),
            decreases i,
        {
            proof {
                assert(directories.take(i as int).drop_last() =~= directories.take(i - 1));
                assert(directories.take(i as int).last() == self.directories[i - 1]@);
            }
            i -= 1;
            let directory = &self.directories[i];
            let present = i < self.present.len() && self.present[i];
            if present && same_text(directory.name.as_str(), name) && same_text(
                directory.version.as_str(),
                version,
            ) {
                return Some(
                    SourcePath {
                        base: self.base.clone(),
                        registry_directory: directory.registry_directory.clone(),
                        package_directory: directory.package_directory.clone(),
                    },
                );
            }
        }
        None
    }
}

/// Maps the name and version of each dependency to the place of its source
/// code below the registry's source directory.
///
/// The directories are those that [`source_directories`] names for the
/// locked packages; `present` says of each of them, in the same order,
/// whether it was found on disk. A package version has a place exactly when
/// one of its directories was found.
pub fn resolve_cargo_dirs(
    registry_source_path: &str,
    packages: &Vec<LockedPackage>,
    present: Vec<bool>,
) -> (res: SourceMap)
    ensures
        res@ == (SourceMapView {
            base: registry_source_path@,
            directories: source_directories_of(packages.deep_view()),
            present: present@,
        }),
{
    SourceMap {
        base: registry_source_path.to_owned(),
        directories: source_directories(packages),
        present,
    }
}

/// Every directory that is named for a list of locked packages is that of
/// one of the packages.
pub proof fn lemma_source_directories_come_from_packages(
    packages: Seq<LockedPackageView>,
    position: int,
)
    requires
        0 <= position < source_directories_of(packages).len(),
    ensures
        exists|i: int|
            0 <= i < packages.len() && source_directory_of(#[trigger] packages[i]) == Some(
                source_directories_of(packages)[position],
            ),
    decreases packages.len(),
{
    let convert = |package: LockedPackageView| source_directory_of(package);
    if packages.len() > 0 {
        let front = packages.drop_last();
        let named = front.filter_map(convert);
        match convert(packages.last()) {
            Some(directory) => {
                assert(source_directories_of(packages) == named + seq![directory]);
                if position < named.len() {
                    lemma_source_directories_come_from_packages(front, position);
                    let i = choose|i: int|
                        0 <= i < front.len() && source_directory_of(#[trigger] front[i]) == Some(
                            source_directories_of(front)[position],
                        );
                    assert(packages[i] == front[i]);
                } else {
                    assert(packages[packages.len() - 1] == packages.last());
                }
            },
            None => {
                assert(source_directories_of(packages) == named);
                lemma_source_directories_come_from_packages(front, position);
                let i = choose|i: int|
                    0 <= i < front.len() && source_directory_of(#[trigger] front[i]) == Some(
                        source_directories_of(front)[position],
                    );
                assert(packages[i] == front[i]);
            },
        }
    }
}

/// A directory that is found for a name and version is one of the
/// directories, carries that name and version, and was found on disk.
pub proof fn lemma_found_directory_is_listed(
    directories: Seq<SourceDirectoryView>,
    present: Seq<bool>,
    name: Seq<char>,
    version: Seq<char>,
)
    requires
        found_directory(directories, present, name, version) is Some,
    ensures
        exists|i: int|
            0 <= i < directories.len() && is_present(present, i) && (#[trigger] directories[i])
                == found_directory(directories, present, name, version)->0 && directories[i].name
                == name && directories[i].version == version,
    decreases directories.len(),
{
    if directories.len() > 0 {
        if is_present(present, directories.len() - 1) && directories.last().name == name
            && directories.last().version == version {
            assert(directories[directories.len() - 1] == directories.last());
        } else {
            lemma_found_directory_is_listed(directories.drop_last(), present, name, version);
            let front = directories.drop_last();
            let i = choose|i: int|
                0 <= i < front.len() && is_present(present, i) && (#[trigger] front[i])
                    == found_directory(front, present, name, version)->0 && front[i].name == name
                    && front[i].version == version;
            assert(directories[i] == front[i]);
        }
    }
}

/// The place that the map of a list of locked packages gives for a package
/// version lies below the registry's source directory, in the directory of
/// the registry of one of the locked packages of that name and version
/// (its host, a hyphen and its hash), in the directory named by name, a
/// hyphen and version; and that directory was found on disk.
pub proof fn lemma_source_path_is_made_of_the_names(
    base: Seq<char>,
    packages: Seq<LockedPackageView>,
    present: Seq<bool>,
    name: Seq<char>,
    version: Seq<char>,
)
    requires
        (SourceMapView { base, directories: source_directories_of(packages), present }).path_of(
            name,
            version,
        ) is Some,
    ensures
        ({
            let path = (SourceMapView {
                base,
                directories: source_directories_of(packages),
                present,
            }).path_of(name, version)->0;
            &&& path.base == base
            &&& path.package_directory == hyphenated(name, version)
            &&& exists|i: int|
                0 <= i < packages.len() && (#[trigger] packages[i]).name == name
                    && packages[i].version == version && packages[i].registry_host is Some
                    && path.registry_directory == hyphenated(
                    packages[i].registry_host->0,
                    packages[i].registry_hash,
                )
            &&& exists|j: int|
                0 <= j < source_directories_of(packages).len() && is_present(present, j)
                    && (#[trigger] source_directories_of(packages)[j]).registry_directory
                    == path.registry_directory && source_directories_of(
                    packages,
                )[j].package_directory == path.package_directory
        }),
{
    let directories = source_directories_of(packages);
    lemma_found_directory_is_listed(directories, present, name, version);
    let j = choose|j: int|
        0 <= j < directories.len() && is_present(present, j) && (#[trigger] directories[j])
            == found_directory(directories, present, name, version)->0 && directories[j].name
            == name && directories[j].version == version;
    lemma_source_directories_come_from_packages(packages, j);
    let i = choose|i: int|
        0 <= i < packages.len() && source_directory_of(#[trigger] packages[i]) == Some(
            directories[j],
        );
    assert(packages[i].name == name && packages[i].version == version);
}

} // verus!
