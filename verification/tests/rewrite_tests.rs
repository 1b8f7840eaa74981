use repo_updater::rewrite::{pattern_is_valid, rewrite_content, RewriteOutcome};

#[test]
fn unmatched_content_is_left_unchanged() {
    // No match of the pattern anywhere: no write may occur.
    let r = rewrite_content("map-migrated", "nothing to see here", "mig-map-migrated");
    assert!(matches!(r, RewriteOutcome::Unchanged));
}

#[test]
fn empty_content_is_left_unchanged() {
    let r = rewrite_content("map-migrated", "", "mig-map-migrated");
    assert!(matches!(r, RewriteOutcome::Unchanged));
}

#[test]
fn matching_content_is_rewritten() {
    // The example scenario: `a.txt` holds `map-migrated:true`.
    let r = rewrite_content("map-migrated", "map-migrated:true", "mig-map-migrated");
    match r {
        RewriteOutcome::Changed(s) => assert_eq!(s, "mig-map-migrated:true"),
        _ => panic!("expected a changed file"),
    }
}

#[test]
fn all_matches_are_replaced() {
    let r = rewrite_content("ab", "ab ab ab", "x");
    match r {
        RewriteOutcome::Changed(s) => assert_eq!(s, "x x x"),
        _ => panic!("expected a changed file"),
    }
}

#[test]
fn replacement_equal_to_match_is_no_change() {
    // The replaced text is byte-for-byte the original: no write may occur.
    let r = rewrite_content("aa", "aa", "aa");
    assert!(matches!(r, RewriteOutcome::Unchanged));
}

#[test]
fn rewrite_is_idempotent_when_replacement_cannot_match() {
    let first = rewrite_content("foo", "foo and foo", "bar");
    let replaced = match first {
        RewriteOutcome::Changed(s) => s,
        _ => panic!("expected a changed file"),
    };
    assert_eq!(replaced, "bar and bar");
    // Reapplying the pattern finds nothing left to replace.
    let second = rewrite_content("foo", replaced.as_str(), "bar");
    assert!(matches!(second, RewriteOutcome::Unchanged));
}

#[test]
fn invalid_pattern_is_reported() {
    let r = rewrite_content("(", "anything", "x");
    assert!(matches!(r, RewriteOutcome::InvalidPattern));
}

#[test]
fn pattern_validity() {
    assert!(pattern_is_valid("a+b"));
    assert!(pattern_is_valid(r"\.lock|\.log|\.json|\.md"));
    assert!(!pattern_is_valid("("));
}
