//! Tests of the compiler-host decisions: package resolution, cache paths,
//! the missing-package report, and the fixed clock.

use billgen::{
    local_file_path, package_cache_root, package_dir, package_file_path, package_url,
    resolve_package, today_date, PackageRef,
};

fn pkg() -> PackageRef {
    PackageRef {
        namespace: "preview".to_string(),
        name: "cetz".to_string(),
        version: "0.2.2".to_string(),
    }
}

#[test]
fn cache_paths_are_exact() {
    assert_eq!(package_cache_root("/home/u/.cache"), "/home/u/.cache/typst/packages");
    let root = package_cache_root("/home/u/.cache");
    assert_eq!(package_dir(&root, &pkg()), "/home/u/.cache/typst/packages/preview/cetz/0.2.2");
    assert_eq!(
        package_file_path("/home/u/.cache/typst/packages/preview/cetz/0.2.2", "lib.typ"),
        "/home/u/.cache/typst/packages/preview/cetz/0.2.2/lib.typ"
    );
    assert_eq!(local_file_path("templates", "logo.png"), "templates/logo.png");
}

#[test]
fn package_url_is_exact() {
    assert_eq!(package_url(&pkg()), "https://packages.typst.org/preview/cetz-0.2.2.tar.gz");
}

#[test]
fn absent_package_reports_exact_destination_and_url() {
    let e = resolve_package("/c/typst/packages", &pkg(), false).unwrap_err();
    assert_eq!(e.package, "@preview/cetz:0.2.2");
    assert_eq!(e.url, "https://packages.typst.org/preview/cetz-0.2.2.tar.gz");
    assert_eq!(e.destination, "/c/typst/packages/preview/cetz/0.2.2");
    let msg = e.message();
    assert!(msg.contains("@preview/cetz:0.2.2"));
    assert!(msg.contains("https://packages.typst.org/preview/cetz-0.2.2.tar.gz"));
    assert!(msg.contains("/c/typst/packages/preview/cetz/0.2.2"));
}

#[test]
fn present_package_resolves_to_same_directory() {
    // After the destination named by the failure is populated, the same
    // lookup succeeds and points at exactly that directory.
    let e = resolve_package("/c/typst/packages", &pkg(), false).unwrap_err();
    let dir = resolve_package("/c/typst/packages", &pkg(), true).unwrap();
    assert_eq!(dir, e.destination);
    // Resolution is idempotent: a repeated lookup gives the same directory.
    assert_eq!(resolve_package("/c/typst/packages", &pkg(), true).unwrap(), dir);
}

#[test]
fn clock_is_fixed() {
    let d = today_date();
    assert_eq!((d.year, d.month, d.day), (2024, 1, 1));
    assert_eq!(today_date(), d);
}
