use repo_patcher::deps::Dep;
use repo_patcher::manifest::{ManifestError, ensure_patches_in_cargo_toml, list_patched_crates,
    list_relevant_crates};

fn dep(name: &str, url: &str) -> Dep {
    Dep { name: name.to_string(), repo_url: url.to_string() }
}

#[test]
fn applies_only_referenced_candidates() {
    let manifest = "[dependencies]\nfoo = \"1.0\"\n".to_string();
    let cands = vec![dep("foo", "https://example/foo"), dep("bar", "https://example/bar")];
    let (new_text, applied) = ensure_patches_in_cargo_toml(&manifest, &cands).unwrap();
    assert_eq!(applied.len(), 1);
    assert_eq!(applied[0].name, "foo");
    assert_eq!(applied[0].repo_url, "https://example/foo");
    let expected = format!(
        "{}\n[patch.crates-io]\nfoo = {{ git = \"https://example/foo\", branch = \"main\" }}\n",
        manifest
    );
    assert_eq!(new_text, expected);
}

#[test]
fn already_patched_candidate_changes_nothing() {
    let manifest = "[dependencies]\nfoo = \"1.0\"\n\n[patch.crates-io]\nfoo = { git = \"https://example/foo\", branch = \"main\" }\n"
    .to_string();
    let cands = vec![dep("foo", "https://example/foo")];
    let (new_text, applied) = ensure_patches_in_cargo_toml(&manifest, &cands).unwrap();
    assert_eq!(applied.len(), 0);
    assert_eq!(new_text, manifest);
}

#[test]
fn second_run_applies_nothing() {
    let manifest = "[package]\nname = \"demo\"\n\n[dependencies]\nfoo = \"1.0\"\nbar = \"2.0\"\n"
    .to_string();
    let cands = vec![dep("foo", "https://example/foo"), dep("bar", "https://example/bar")];
    let (first_text, first_applied) = ensure_patches_in_cargo_toml(&manifest, &cands).unwrap();
    assert_eq!(first_applied.len(), 2);
    let (second_text, second_applied) = ensure_patches_in_cargo_toml(&first_text, &cands).unwrap();
    assert_eq!(second_applied.len(), 0);
    assert_eq!(second_text, first_text);
}

#[test]
fn applied_candidates_keep_input_order() {
    let manifest = "[dependencies]\nzeta = \"1\"\nalpha = \"1\"\n".to_string();
    let cands = vec![dep("zeta", "https://example/zeta"), dep("alpha", "https://example/alpha")];
    let (_, applied) = ensure_patches_in_cargo_toml(&manifest, &cands).unwrap();
    assert_eq!(applied.len(), 2);
    assert_eq!(applied[0].name, "zeta");
    assert_eq!(applied[1].name, "alpha");
}

#[test]
fn dev_dependencies_count_as_referenced() {
    let manifest = "[dev-dependencies]\nfoo = \"1.0\"\n".to_string();
    let cands = vec![dep("foo", "https://example/foo")];
    let (new_text, applied) = ensure_patches_in_cargo_toml(&manifest, &cands).unwrap();
    assert_eq!(applied.len(), 1);
    assert!(new_text.contains("[patch.crates-io]"));
    assert!(new_text.contains("foo = { git = \"https://example/foo\", branch = \"main\" }"));
}

#[test]
fn existing_header_is_not_duplicated() {
    let manifest = "[dependencies]\nfoo = \"1.0\"\n\n[patch.crates-io]\nother = { git = \"https://example/other\", branch = \"main\" }\n"
    .to_string();
    let cands = vec![dep("foo", "https://example/foo")];
    let (new_text, applied) = ensure_patches_in_cargo_toml(&manifest, &cands).unwrap();
    assert_eq!(applied.len(), 1);
    assert_eq!(new_text.matches("[patch.crates-io]").count(), 1);
    assert!(new_text.starts_with(manifest.as_str()));
}

#[test]
fn unparseable_manifest_is_rejected_before_any_edit() {
    let manifest = "this = = is not toml".to_string();
    let cands = vec![dep("foo", "https://example/foo")];
    let r = ensure_patches_in_cargo_toml(&manifest, &cands);
    assert_eq!(r.unwrap_err(), ManifestError::Unparseable);
}

#[test]
fn relevant_crates_are_the_referenced_subset() {
    let manifest = "[dependencies]\nfoo = \"1\"\n\n[dev-dependencies]\nbaz = \"1\"\n".to_string();
    let cands = vec![
        dep("foo", "https://example/foo"),
        dep("bar", "https://example/bar"),
        dep("baz", "https://example/baz"),
    ];
    let relevant = list_relevant_crates(&manifest, &cands).unwrap();
    assert_eq!(relevant.len(), 2);
    assert_eq!(relevant[0].name, "foo");
    assert_eq!(relevant[1].name, "baz");
}

#[test]
fn patched_crates_are_the_overridden_subset() {
    let manifest = "[dependencies]\nfoo = \"1\"\nbar = \"1\"\n\n[patch.crates-io]\nbar = { git = \"https://example/bar\", branch = \"main\" }\n"
    .to_string();
    let cands = vec![dep("foo", "https://example/foo"), dep("bar", "https://example/bar")];
    let patched = list_patched_crates(&manifest, &cands).unwrap();
    assert_eq!(patched.len(), 1);
    assert_eq!(patched[0].name, "bar");
}

#[test]
fn list_relevant_crates_rejects_bad_manifest() {
    let manifest = "]]]".to_string();
    let cands = vec![dep("foo", "https://example/foo")];
    assert_eq!(list_relevant_crates(&manifest, &cands).unwrap_err(), ManifestError::Unparseable);
    assert_eq!(list_patched_crates(&manifest, &cands).unwrap_err(), ManifestError::Unparseable);
}

#[test]
fn non_ascii_text_does_not_confuse_the_header_search() {
    let manifest = "# caf\u{e9} – den Überblick behalten\n[dependencies]\nfoo = \"1.0\"\n"
        .to_string();
    let cands = vec![dep("foo", "https://example/foo")];
    let (new_text, applied) = ensure_patches_in_cargo_toml(&manifest, &cands).unwrap();
    assert_eq!(applied.len(), 1);
    assert_eq!(new_text.matches("[patch.crates-io]").count(), 1);
    assert!(new_text.starts_with(manifest.as_str()));
}

#[test]
fn empty_candidate_list_still_ensures_the_header() {
    let manifest = "[dependencies]\nfoo = \"1.0\"\n".to_string();
    let cands: Vec<Dep> = Vec::new();
    let (new_text, applied) = ensure_patches_in_cargo_toml(&manifest, &cands).unwrap();
    assert_eq!(applied.len(), 0);
    assert_eq!(new_text, format!("{}\n[patch.crates-io]\n", manifest));
}
