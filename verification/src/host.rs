//! Decisions of the compiler host: where the main source, local template
//! files and cached packages are found, how a missing package is reported,
//! and the fixed date handed to the compiler so output is reproducible.

use vstd::prelude::*;
use crate::model::Date;

verus! {

/// A package coordinate: namespace, name and version.
#[derive(Debug, Clone)]
pub struct PackageRef {
    pub namespace: String,
    pub name: String,
    pub version: String,
}

/// The package directory under the cache root.
pub open spec fn spec_package_dir(
    cache_root: Seq<char>,
    namespace: Seq<char>,
    name: Seq<char>,
    version: Seq<char>,
) -> Seq<char> {
    cache_root + "/"@ + namespace + "/"@ + name + "/"@ + version
}

/// The registry address a package is fetched from.
pub open spec fn spec_package_url(
    namespace: Seq<char>,
    name: Seq<char>,
    version: Seq<char>,
) -> Seq<char> {
    "https://packages.typst.org/"@ + namespace + "/"@ + name + "-"@ + version + ".tar.gz"@
}

/// The display label of a package.
pub open spec fn spec_package_label(
    namespace: Seq<char>,
    name: Seq<char>,
    version: Seq<char>,
) -> Seq<char> {
    "@"@ + namespace + "/"@ + name + ":"@ + version
}

/// Joins two path segments with a single separator.
pub fn join_path(a: &str, b: &str) -> (r: String)
    ensures
        r@ == a@ + "/"@ + b@,
{
    let mut s = a.to_owned();
    s.append("/");
    s.append(b);
    proof {
        assert(s@ =~= a@ + "/"@ + b@);
    }
    s
}

/// The root of the package cache below the platform cache directory.
pub fn package_cache_root(cache_dir: &str) -> (r: String)
    ensures
        r@ == cache_dir@ + "/typst/packages"@,
{
    let mut s = cache_dir.to_owned();
    s.append("/typst/packages");
    s
}

/// The directory a package occupies under the cache root.
pub fn package_dir(cache_root: &str, pkg: &PackageRef) -> (r: String)
    ensures
        r@ == spec_package_dir(cache_root@, pkg.namespace@, pkg.name@, pkg.version@),
{
    let a = join_path(cache_root, pkg.namespace.as_str());
    let b = join_path(a.as_str(), pkg.name.as_str());
    let c = join_path(b.as_str(), pkg.version.as_str());
    proof {
        assert(c@ =~= spec_package_dir(cache_root@, pkg.namespace@, pkg.name@, pkg.version@));
    }
    c
}

/// The registry address a package would be fetched from.
pub fn package_url(pkg: &PackageRef) -> (r: String)
    ensures
        r@ == spec_package_url(pkg.namespace@, pkg.name@, pkg.version@),
{
    let mut s = String::from_str("https://packages.typst.org/");
    s.append(pkg.namespace.as_str());
    s.append("/");
    s.append(pkg.name.as_str());
    s.append("-");
    s.append(pkg.version.as_str());
    s.append(".tar.gz");
    proof {
        assert(s@ =~= spec_package_url(pkg.namespace@, pkg.name@, pkg.version@));
    }
    s
}

/// A package that is not in the cache and was not materialized: the report
/// names the package, the address it can be fetched from, and the directory
/// it must land in.
#[derive(Debug, Clone)]
pub struct PackageUnavailable {
    pub package: String,
    pub url: String,
    pub destination: String,
}

/// The remediation text of a missing-package report.
pub open spec fn spec_package_unavailable_message(
    package: Seq<char>,
    url: Seq<char>,
    destination: Seq<char>,
) -> Seq<char> {
    "Package '"@ + package + "' not found in cache. Please download it manually:\n1. Download from: "@
        + url + "\n2. Extract to: "@ + destination
        + "\nOr run: typst compile (with the CLI) to auto-download packages"@
}

impl PackageUnavailable {
    /// Renders the remediation text.
    pub fn message(&self) -> (r: String)
        ensures
            r@ == spec_package_unavailable_message(self.package@, self.url@, self.destination@),
    {
        let mut s = String::from_str("Package '");
        s.append(self.package.as_str());
        s.append("' not found in cache. Please download it manually:\n1. Download from: ");
        s.append(self.url.as_str());
        s.append("\n2. Extract to: ");
        s.append(self.destination.as_str());
        s.append("\nOr run: typst compile (with the CLI) to auto-download packages");
        proof {
            assert(s@ =~= spec_package_unavailable_message(
                self.package@,
                self.url@,
                self.destination@,
            ));
        }
        s
    }
}

/// Resolves a package directory: when the directory is already present it
/// is used as it stands, which makes resolution idempotent; when it is
/// absent, the report names the address to fetch from and the exact
/// directory to extract to.
pub fn resolve_package(cache_root: &str, pkg: &PackageRef, dir_present: bool) -> (r: Result<
    String,
    PackageUnavailable,
>)
    ensures
        dir_present <==> r is Ok,
        (match r {
            Ok(dir) => dir@ == spec_package_dir(
                cache_root@,
                pkg.namespace@,
                pkg.name@,
                pkg.version@,
            ),
            Err(e) => {
                &&& e.package@ == spec_package_label(pkg.namespace@, pkg.name@, pkg.version@)
                &&& e.url@ == spec_package_url(pkg.namespace@, pkg.name@, pkg.version@)
                &&& e.destination@ == spec_package_dir(
                    cache_root@,
                    pkg.namespace@,
                    pkg.name@,
                    pkg.version@,
                )
            },
        }),
{
    let dir = package_dir(cache_root, pkg);
    if dir_present {
        Ok(dir)
    } else {
        let mut label = String::from_str("@");
        label.append(pkg.namespace.as_str());
        label.append("/");
        label.append(pkg.name.as_str());
        label.append(":");
        label.append(pkg.version.as_str());
        proof {
            assert(label@ =~= spec_package_label(pkg.namespace@, pkg.name@, pkg.version@));
        }
        Err(
            PackageUnavailable {
                package: label,
                url: package_url(pkg),
                destination: dir,
            },
        )
    }
}

/// The path of a file inside a resolved package directory.
pub fn package_file_path(package_dir: &str, sub_path: &str) -> (r: String)
    ensures
        r@ == package_dir@ + "/"@ + sub_path@,
{
    join_path(package_dir, sub_path)
}

/// The path of an auxiliary file below the local template directory.
pub fn local_file_path(template_dir: &str, sub_path: &str) -> (r: String)
    ensures
        r@ == template_dir@ + "/"@ + sub_path@,
{
    join_path(template_dir, sub_path)
}

/// The fixed calendar date handed to the compiler in place of the wall
/// clock, so identical inputs compile to identical output.
pub fn today_date() -> (r: Date)
    ensures
        r == (Date { year: 2024, month: 1, day: 1 }),
        r.wf(),
{
    Date { year: 2024, month: 1, day: 1 }
}

} // verus!
