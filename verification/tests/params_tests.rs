use repo_updater::params::{
    clone_destination, push_refspec, repo_url, resolve_identity, resolve_parameters,
    resolve_username,
};

fn all_present() -> [Option<String>; 8] {
    [
        Some("demo".to_string()),
        Some("feature/tags".to_string()),
        Some("Adjust tags".to_string()),
        Some("map-migrated".to_string()),
        Some("mig-map-migrated".to_string()),
        Some("SECRET-REDACTED".to_string()),
        Some("maintainer".to_string()),
        Some("maintainer@example.com".to_string()),
    ]
}

#[test]
fn full_configuration_resolves() {
    let [repo, branch, message, search, replace, token, username, email] = all_present();
    let p = resolve_parameters(repo, branch, message, search, replace, token, username, email)
        .expect("every value is present");
    assert_eq!(p.repo, "demo");
    assert_eq!(p.branch, "feature/tags");
    assert_eq!(p.commit_message, "Adjust tags");
    assert_eq!(p.search_pattern, "map-migrated");
    assert_eq!(p.replace_with, "mig-map-migrated");
    assert_eq!(p.username, "maintainer");
    assert_eq!(p.email, "maintainer@example.com");
}

#[test]
fn one_absent_value_fails_resolution() {
    for missing in 0..8 {
        let mut values = all_present();
        values[missing] = None;
        let [repo, branch, message, search, replace, token, username, email] = values;
        let p =
            resolve_parameters(repo, branch, message, search, replace, token, username, email);
        assert!(p.is_none());
    }
}

#[test]
fn identity_needs_name_and_email() {
    let id = resolve_identity(
        Some("maintainer".to_string()),
        Some("maintainer@example.com".to_string()),
    )
    .expect("both present");
    assert_eq!(id.name, "maintainer");
    assert_eq!(id.email, "maintainer@example.com");
    assert!(resolve_identity(None, Some("a@b".to_string())).is_err());
    assert!(resolve_identity(Some("a".to_string()), None).is_err());
    assert!(resolve_identity(None, None).is_err());
}

#[test]
fn username_prefers_the_remote_url() {
    assert_eq!(
        resolve_username(Some("from-url".to_string()), "fallback"),
        "from-url"
    );
    assert_eq!(resolve_username(None, "fallback"), "fallback");
}

#[test]
fn derived_strings_are_exact() {
    assert_eq!(repo_url("demo"), "https://github.com/republik-io/demo.git");
    assert_eq!(clone_destination("demo"), "../repos/demo");
    let refspec = push_refspec("feature/tags");
    assert_eq!(refspec, "refs/heads/feature/tags:refs/heads/feature/tags");
    assert!(!refspec.starts_with('+'));
}
