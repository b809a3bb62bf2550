use cargo_vendor_one::cli::{request_tokens, usage, wants_usage};
use cargo_vendor_one::error::VendorError;
use cargo_vendor_one::manifest::{ManifestPatch, PatchEdit};
use cargo_vendor_one::paths::vendor_dir;
use cargo_vendor_one::plan::{patch_edit, plan_all, plan_request, vendored_info};
use cargo_vendor_one::request::parse_request;
use cargo_vendor_one::select::{find_package, ResolvedPackage};
use cargo_vendor_one::version::{PackageVersion, VersionRange};

fn strings(v: &[&str]) -> Vec<String> {
    v.iter().map(|s| s.to_string()).collect()
}

fn pkg(name: &str, version: &str, source: &str, root: &str) -> ResolvedPackage {
    ResolvedPackage {
        name: name.to_string(),
        version: PackageVersion::parse(version).unwrap(),
        source: source.to_string(),
        root: root.to_string(),
    }
}

fn graph() -> Vec<ResolvedPackage> {
    vec![
        pkg("bar", "0.4.1", "crates-io", "/reg/src/bar-0.4.1"),
        pkg("foo", "1.2.3", "crates-io", "/reg/src/foo-1.2.3"),
        pkg("foo", "2.0.0", "crates-io", "/reg/src/foo-2.0.0"),
        pkg("baz", "3.1.0", "my-registry", "/reg/src/baz-3.1.0"),
    ]
}

fn get(doc: &toml_edit::DocumentMut, keys: &[&str]) -> Option<String> {
    let mut item = doc.as_item();
    for k in keys {
        item = item.get(*k)?;
    }
    item.as_str().map(|s| s.to_string())
}

#[test]
fn usage_when_no_tokens() {
    assert!(wants_usage(&Vec::new()));
}

#[test]
fn usage_when_help_flag_anywhere() {
    assert!(wants_usage(&strings(&["foo", "-h"])));
    assert!(wants_usage(&strings(&["--help", "foo@^1"])));
    assert!(wants_usage(&strings(&["a", "--help", "b"])));
}

#[test]
fn no_usage_for_plain_requests() {
    assert!(!wants_usage(&strings(&["foo", "bar@1"])));
    assert!(!wants_usage(&strings(&["-help"])));
}

#[test]
fn usage_line_text() {
    assert_eq!(usage(), "Usage: cargo vendor-one package1[@version1] [package2[@version2] ...]");
}

#[test]
fn tokens_skip_program_and_subcommand() {
    let t = request_tokens(&strings(&["cargo-vendor-one", "vendor-one", "foo", "bar@1"]));
    assert_eq!(t, strings(&["foo", "bar@1"]));
    let t = request_tokens(&strings(&["prog", "foo"]));
    assert_eq!(t, strings(&["foo"]));
    assert!(request_tokens(&strings(&["vendor-one"])).is_empty());
}

#[test]
fn request_without_range() {
    let r = parse_request("serde").unwrap();
    assert_eq!(r.token, "serde");
    assert_eq!(r.name, "serde");
    assert!(r.range.is_none());
}

#[test]
fn request_with_range() {
    let r = parse_request("serde@^1.0").unwrap();
    assert_eq!(r.token, "serde@^1.0");
    assert_eq!(r.name, "serde");
    assert_eq!(r.range.unwrap().canonical(), "^1.0");
}

#[test]
fn request_with_two_ats_has_no_range() {
    let r = parse_request("serde@1@2").unwrap();
    assert_eq!(r.name, "serde");
    assert!(r.range.is_none());
}

#[test]
fn request_with_bad_range() {
    match parse_request("serde@not-a-range") {
        Err(VendorError::MalformedRequest) => {}
        _ => panic!("expected MalformedRequest"),
    }
}

#[test]
fn range_canonical_form() {
    let r = VersionRange::parse("1.2").unwrap();
    assert_eq!(r.canonical(), "^1.2");
    let r = VersionRange::parse(">=1.0,<2").unwrap();
    assert_eq!(r.canonical(), ">=1.0, <2");
}

#[test]
fn range_matching() {
    let r = VersionRange::parse("^1").unwrap();
    assert!(r.matches(&PackageVersion::parse("1.2.3").unwrap()));
    assert!(!r.matches(&PackageVersion::parse("2.0.0").unwrap()));
}

#[test]
fn bad_version_text() {
    assert!(matches!(PackageVersion::parse("1.x"), Err(VendorError::MalformedRequest)));
}

#[test]
fn find_missing_name() {
    match find_package("nope", &None, &graph()) {
        Err(VendorError::PackageNotFound { name }) => assert_eq!(name, "nope"),
        _ => panic!("expected PackageNotFound"),
    }
}

#[test]
fn find_name_is_case_sensitive() {
    assert!(find_package("Foo", &None, &graph()).is_err());
}

#[test]
fn find_unique_with_range() {
    let s = find_package("foo", &Some(VersionRange::parse("^2").unwrap()), &graph()).unwrap();
    assert_eq!(s.index, 2);
    assert_eq!(s.other_matches, 0);
}

#[test]
fn find_ambiguous_takes_first() {
    let s = find_package("foo", &None, &graph()).unwrap();
    assert_eq!(s.index, 1);
    assert_eq!(s.other_matches, 1);
}

#[test]
fn find_range_excludes_all() {
    let r = Some(VersionRange::parse("^5").unwrap());
    assert!(matches!(find_package("foo", &r, &graph()), Err(VendorError::PackageNotFound { .. })));
}

#[test]
fn vendor_dir_from_root() {
    assert_eq!(vendor_dir("/reg/src/foo-1.2.3").unwrap(), "vendor/foo-1.2.3");
    assert_eq!(vendor_dir("/reg/src/foo/").unwrap(), "vendor/foo");
}

#[test]
fn vendor_dir_without_name() {
    assert!(matches!(vendor_dir("/"), Err(VendorError::InvalidPackagePath)));
    assert!(matches!(vendor_dir("/reg/.."), Err(VendorError::InvalidPackagePath)));
}

#[test]
fn plan_unknown_package() {
    match plan_request("missing", &graph()) {
        Err(VendorError::PackageNotFound { name }) => assert_eq!(name, "missing"),
        _ => panic!("expected PackageNotFound"),
    }
}

#[test]
fn plan_unique_match() {
    let p = plan_request("foo@^1", &graph()).unwrap();
    assert_eq!(p.selection.index, 1);
    assert_eq!(p.selection.other_matches, 0);
    assert_eq!(p.vendor_dir, "vendor/foo-1.2.3");
}

#[test]
fn plan_twice_same_dir() {
    let a = plan_request("foo@^2", &graph()).unwrap();
    let b = plan_request("foo@^2", &graph()).unwrap();
    assert_eq!(a.selection, b.selection);
    assert_eq!(a.vendor_dir, b.vendor_dir);
}

#[test]
fn plan_ambiguous_is_not_fatal() {
    let p = plan_request("foo", &graph()).unwrap();
    assert_eq!(p.selection.index, 1);
    assert!(p.selection.other_matches > 0);
}

#[test]
fn plan_root_without_name() {
    let g = vec![pkg("odd", "1.0.0", "crates-io", "/")];
    assert!(matches!(plan_request("odd", &g), Err(VendorError::InvalidPackagePath)));
}

#[test]
fn plan_all_stops_at_first_failure() {
    let r = plan_all(&strings(&["bar", "foo@bad range", "missing"]), &graph());
    assert!(matches!(r, Err(VendorError::MalformedRequest)));
    let r = plan_all(&strings(&["bar", "missing", "foo@bad range"]), &graph());
    assert!(matches!(r, Err(VendorError::PackageNotFound { .. })));
}

#[test]
fn plan_all_in_order() {
    let plans = plan_all(&strings(&["baz", "foo@^2"]), &graph()).unwrap();
    assert_eq!(plans.len(), 2);
    assert_eq!(plans[0].vendor_dir, "vendor/baz-3.1.0");
    assert_eq!(plans[1].vendor_dir, "vendor/foo-2.0.0");
}

#[test]
fn manifest_rejects_bad_toml() {
    assert!(matches!(ManifestPatch::load("[package\nname ="), Err(VendorError::ManifestParse)));
}

#[test]
fn patch_edit_uses_source_and_canonical_range() {
    let g = graph();
    let p = plan_request("baz@3.1", &g).unwrap();
    let e = patch_edit(&p, &g[p.selection.index], "/work/vendor/baz-3.1.0");
    assert_eq!(e.source, "my-registry");
    assert_eq!(e.package, "baz");
    assert_eq!(e.path, "/work/vendor/baz-3.1.0");
    assert_eq!(e.version, Some("^3.1".to_string()));
    let p = plan_request("bar", &g).unwrap();
    let e = patch_edit(&p, &g[p.selection.index], "/work/vendor/bar-0.4.1");
    assert_eq!(e.version, None);
}

#[test]
fn stage_keeps_unrelated_content() {
    let text = "# top comment\n[package]\nname = \"app\"   # trailing\n\n[patch.crates-io]\nother = { path = \"../other\" }\n";
    let mut m = ManifestPatch::load(text).unwrap();
    m.stage(&PatchEdit {
        source: "crates-io".to_string(),
        package: "foo".to_string(),
        path: "/work/vendor/foo".to_string(),
        version: None,
    });
    let out = m.commit();
    assert!(out.contains("# top comment"));
    assert!(out.contains("name = \"app\"   # trailing"));
    let doc: toml_edit::DocumentMut = out.parse().unwrap();
    assert_eq!(get(&doc, &["patch", "crates-io", "other", "path"]), Some("../other".to_string()));
    assert_eq!(get(&doc, &["patch", "crates-io", "foo", "path"]), Some("/work/vendor/foo".to_string()));
    assert_eq!(get(&doc, &["patch", "crates-io", "foo", "version"]), None);
}

#[test]
fn stage_twice_same_text() {
    let e = PatchEdit {
        source: "crates-io".to_string(),
        package: "foo".to_string(),
        path: "/work/vendor/foo".to_string(),
        version: Some("^1".to_string()),
    };
    let mut m = ManifestPatch::load("[package]\nname = \"app\"\n").unwrap();
    m.stage(&e);
    let once = m.commit();
    m.stage(&e);
    assert_eq!(m.commit(), once);
}

#[test]
fn end_to_end_foo_caret_one() {
    let g = vec![
        pkg("serde", "1.0.200", "crates-io", "/reg/src/serde-1.0.200"),
        pkg("foo", "1.2.3", "crates-io", "/home/u/.cargo/registry/src/foo"),
    ];
    let tokens = request_tokens(&strings(&["cargo-vendor-one", "vendor-one", "foo@^1"]));
    assert!(!wants_usage(&tokens));
    let plans = plan_all(&tokens, &g).unwrap();
    assert_eq!(plans[0].vendor_dir, "vendor/foo");
    let local = format!("/work/{}", plans[0].vendor_dir);
    let mut m = ManifestPatch::load("[package]\nname = \"app\"\n\n[dependencies]\nfoo = \"1\"\n").unwrap();
    m.stage(&patch_edit(&plans[0], &g[plans[0].selection.index], &local));
    let info = vendored_info(&plans[0], &local);
    assert_eq!(format!("{} => {}", info.request, info.path), "foo@^1 => /work/vendor/foo");
    let doc: toml_edit::DocumentMut = m.commit().parse().unwrap();
    assert_eq!(get(&doc, &["patch", "crates-io", "foo", "path"]), Some("/work/vendor/foo".to_string()));
    assert_eq!(get(&doc, &["patch", "crates-io", "foo", "version"]), Some("^1".to_string()));
    assert_eq!(get(&doc, &["dependencies", "foo"]), Some("1".to_string()));
}

#[test]
fn slot_free_on_tables_and_absent_keys() {
    let m = ManifestPatch::load("[package]\nname = \"app\"\n").unwrap();
    assert!(m.slot_free("crates-io", "foo"));
    let m = ManifestPatch::load("[patch.crates-io]\nbar = { path = \"x\" }\n").unwrap();
    assert!(m.slot_free("crates-io", "foo"));
    assert!(m.slot_free("crates-io", "bar"));
}

#[test]
fn slot_blocked_by_non_table() {
    let m = ManifestPatch::load("patch = 3\n").unwrap();
    assert!(!m.slot_free("crates-io", "foo"));
    let m = ManifestPatch::load("[patch]\ncrates-io = \"x\"\n").unwrap();
    assert!(!m.slot_free("crates-io", "foo"));
    let m = ManifestPatch::load("[patch.crates-io]\nfoo = [1, 2]\n").unwrap();
    assert!(!m.slot_free("crates-io", "foo"));
    assert!(m.slot_free("other", "foo"));
}

#[test]
fn commit_without_edits_keeps_text() {
    let text = "# comment\n[package]\nname = \"app\"   # trailing\n\n[dependencies]\nfoo = \"1\"\n";
    let m = ManifestPatch::load(text).unwrap();
    assert_eq!(m.commit(), text);
}
