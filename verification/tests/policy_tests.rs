use repo_patcher::deps::Dep;
use repo_patcher::policy::{PolicyError, update_deny_toml};

fn dep(name: &str, url: &str) -> Dep {
    Dep { name: name.to_string(), repo_url: url.to_string() }
}

#[test]
fn duplicate_urls_appear_exactly_once() {
    let policy = "[sources]\nallow-git = [\"https://example/alpha\", \"https://example/beta\"]\n"
    .to_string();
    let applied = vec![
        dep("alpha", "https://example/alpha"),
        dep("gamma", "https://example/gamma"),
        dep("gamma2", "https://example/gamma"),
    ];
    let out = update_deny_toml(&policy, &applied).unwrap();
    assert_eq!(out.matches("\"https://example/alpha\"").count(), 1);
    assert_eq!(out.matches("\"https://example/beta\"").count(), 1);
    assert_eq!(out.matches("\"https://example/gamma\"").count(), 1);
}

#[test]
fn existing_urls_come_before_new_ones() {
    let policy = "[sources]\nallow-git = [\"https://example/old\"]\n".to_string();
    let applied = vec![dep("new", "https://example/new")];
    let out = update_deny_toml(&policy, &applied).unwrap();
    let old_at = out.find("https://example/old").unwrap();
    let new_at = out.find("https://example/new").unwrap();
    assert!(old_at < new_at);
}

#[test]
fn unrelated_policy_tables_survive_the_rewrite() {
    let policy = "[bans]\nmultiple-versions = \"warn\"\n\n[sources]\nallow-git = []\n"
    .to_string();
    let applied = vec![dep("alpha", "https://example/alpha")];
    let out = update_deny_toml(&policy, &applied).unwrap();
    assert!(out.contains("[bans]"));
    assert!(out.contains("multiple-versions"));
    assert!(out.contains("https://example/alpha"));
}

#[test]
fn missing_sources_table_is_created() {
    let policy = "".to_string();
    let applied = vec![dep("alpha", "https://example/alpha")];
    let out = update_deny_toml(&policy, &applied).unwrap();
    assert!(out.contains("[sources]"));
    assert!(out.contains("allow-git"));
    assert!(out.contains("https://example/alpha"));
}

#[test]
fn no_applied_urls_keeps_the_existing_list() {
    let policy = "[sources]\nallow-git = [\"https://example/kept\"]\n".to_string();
    let applied: Vec<Dep> = Vec::new();
    let out = update_deny_toml(&policy, &applied).unwrap();
    assert_eq!(out.matches("\"https://example/kept\"").count(), 1);
}

#[test]
fn unparseable_policy_is_rejected() {
    let policy = "[[[".to_string();
    let applied = vec![dep("alpha", "https://example/alpha")];
    assert_eq!(update_deny_toml(&policy, &applied).unwrap_err(), PolicyError::Unparseable);
}

#[test]
fn updated_policy_parses_back_to_the_merged_list() {
    let policy = "[sources]\nallow-git = [\"https://example/a\"]\n".to_string();
    let applied = vec![dep("b", "https://example/b")];
    let once = update_deny_toml(&policy, &applied).unwrap();
    // Feeding the rewritten document through a second update with the same
    // URLs must not grow the list: the reader sees both entries present.
    let twice = update_deny_toml(&once, &applied).unwrap();
    assert_eq!(twice.matches("\"https://example/a\"").count(), 1);
    assert_eq!(twice.matches("\"https://example/b\"").count(), 1);
}

#[test]
fn non_table_sources_entry_cannot_be_rewritten() {
    let policy = "sources = 5\n".to_string();
    let applied = vec![dep("alpha", "https://example/alpha")];
    assert_eq!(update_deny_toml(&policy, &applied).unwrap_err(), PolicyError::Unserializable);
}
