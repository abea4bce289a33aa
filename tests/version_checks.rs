use aurme::fetch::FetchError;
use aurme::package::Package;
use aurme::sync::{check_batch, check_package, outdated_packages, CheckError, PackageStatus};
use aurme::version::{compare, extract_version, same_text, version_from_capture, ParseError};

fn page(name: &str, version: &str) -> String {
    format!(
        "<html><body><div id=\"pkgdetails\"><h2>Package Details: {} {}</h2></div></body></html>",
        name, version
    )
}

fn pkg(name: &str, version: &str) -> Package {
    Package::new(name.to_string(), format!("the {} package", name), version.to_string())
}

#[test]
fn compare_equal_versions_is_false() {
    assert!(!compare("1.0", "1.0"));
    assert!(!compare("", ""));
}

#[test]
fn compare_flags_any_difference() {
    assert!(compare("1.0", "1.1"));
    assert!(compare("5.2-3", "5.2-4"));
    // a local version that is newer is flagged as well
    assert!(compare("2.0", "1.0"));
    assert!(compare("1.0", "1.0 "));
}

#[test]
fn same_text_compares_exactly() {
    assert!(same_text("abc", "abc"));
    assert!(!same_text("abc", "abd"));
    assert!(!same_text("abc", "ab"));
}

#[test]
fn extract_version_reads_heading() {
    assert_eq!(extract_version(&page("foo", "5.2-3")), Ok("5.2-3".to_string()));
}

#[test]
fn extract_version_keeps_build_metadata() {
    assert_eq!(
        extract_version(&page("foo-git", "r123.abcdef-1")),
        Ok("r123.abcdef-1".to_string())
    );
    assert_eq!(extract_version(&page("foo", "1:2.0+dev-2")), Ok("1:2.0+dev-2".to_string()));
}

#[test]
fn extract_version_without_heading_is_not_found() {
    assert_eq!(
        extract_version("<html><body><h2>Search Criteria</h2></body></html>"),
        Err(ParseError::NoVersionFound)
    );
    assert_eq!(extract_version(""), Err(ParseError::NoVersionFound));
}

#[test]
fn extract_version_with_empty_version_is_not_captured() {
    assert_eq!(
        extract_version("<h2>Package Details: foo </h2>"),
        Err(ParseError::NoVersionCaptured)
    );
}

#[test]
fn version_from_capture_cases() {
    assert_eq!(version_from_capture(None), Err(ParseError::NoVersionFound));
    assert_eq!(version_from_capture(Some(None)), Err(ParseError::NoVersionCaptured));
    assert_eq!(
        version_from_capture(Some(Some(String::new()))),
        Err(ParseError::NoVersionCaptured)
    );
    assert_eq!(version_from_capture(Some(Some("1.0-1".to_string()))), Ok("1.0-1".to_string()));
}

#[test]
fn check_for_updates_reports_difference() {
    let p = pkg("foo", "5.2-2");
    assert_eq!(p.check_for_updates(&page("foo", "5.2-3")), Ok((true, "5.2-3".to_string())));
    let q = pkg("foo", "5.2-3");
    assert_eq!(q.check_for_updates(&page("foo", "5.2-3")), Ok((false, "5.2-3".to_string())));
    assert_eq!(q.check_for_updates("nothing here"), Err(ParseError::NoVersionFound));
}

#[test]
fn check_package_fetch_failure() {
    let p = pkg("foo", "1.0");
    let st = check_package(&p, &Err(FetchError::Status(404)));
    assert!(matches!(st, PackageStatus::Failed(CheckError::Fetch(FetchError::Status(404)))));
    let st = check_package(&p, &Ok("<p>no heading</p>".to_string()));
    assert!(matches!(st, PackageStatus::Failed(CheckError::Parse(ParseError::NoVersionFound))));
}

#[test]
fn batch_reports_only_changed_package() {
    let packages = vec![pkg("A", "1.0"), pkg("B", "2.0"), pkg("C", "3.0")];
    let pages = vec![Ok(page("A", "1.0")), Ok(page("B", "2.1")), Ok(page("C", "3.0"))];
    let statuses = check_batch(&packages, &pages);
    assert_eq!(statuses.len(), 3);
    assert!(matches!(statuses[0], PackageStatus::UpToDate));
    assert!(matches!(&statuses[1], PackageStatus::Outdated(v) if v == "2.1"));
    assert!(matches!(statuses[2], PackageStatus::UpToDate));
    let outdated = outdated_packages(&packages, &statuses);
    assert_eq!(outdated.len(), 1);
    assert_eq!(outdated[0].local.get_name(), "B");
    assert_eq!(outdated[0].local.get_version(), "2.0");
    assert_eq!(outdated[0].remote.get_name(), "B");
    assert_eq!(outdated[0].remote.get_version(), "2.1");
    assert_eq!(outdated[0].remote.get_description(), "the B package");
}

#[test]
fn batch_failure_of_one_package_keeps_others() {
    let packages = vec![pkg("A", "1.0"), pkg("B", "2.0"), pkg("C", "3.0")];
    let pages = vec![Ok(page("A", "1.1")), Err(FetchError::Transport), Ok(page("C", "3.0"))];
    let statuses = check_batch(&packages, &pages);
    assert!(matches!(&statuses[0], PackageStatus::Outdated(v) if v == "1.1"));
    assert!(matches!(statuses[1], PackageStatus::Failed(CheckError::Fetch(FetchError::Transport))));
    assert!(matches!(statuses[2], PackageStatus::UpToDate));
    let outdated = outdated_packages(&packages, &statuses);
    assert_eq!(outdated.len(), 1);
    assert_eq!(outdated[0].local.get_name(), "A");
    assert_eq!(outdated[0].remote.get_version(), "1.1");
}

#[test]
fn batch_keeps_order_of_packages() {
    let packages = vec![pkg("z", "1"), pkg("a", "1"), pkg("m", "1")];
    let pages = vec![Ok(page("z", "2")), Ok(page("a", "3")), Ok(page("m", "4"))];
    let statuses = check_batch(&packages, &pages);
    let outdated = outdated_packages(&packages, &statuses);
    let names: Vec<&str> = outdated.iter().map(|e| e.local.get_name()).collect();
    assert_eq!(names, vec!["z", "a", "m"]);
    assert_eq!(outdated[2].remote.get_version(), "4");
}

#[test]
fn empty_batch_has_no_outdated() {
    let statuses = check_batch(&vec![], &vec![]);
    assert!(statuses.is_empty());
    assert!(outdated_packages(&vec![], &statuses).is_empty());
}

#[test]
fn package_accessors_and_versions() {
    let mut p = Package::new("foo".to_string(), "a tool".to_string(), "1.0".to_string());
    assert_eq!(p.get_name(), "foo");
    assert_eq!(p.get_description(), "a tool");
    assert_eq!(p.get_version(), "1.0");
    let q = p.with_version("2.0".to_string());
    assert_eq!(q.get_version(), "2.0");
    assert_eq!(q.get_name(), "foo");
    p.set_version("3.0".to_string());
    assert_eq!(p.get_version(), "3.0");
    assert_eq!(p.get_description(), "a tool");
}
