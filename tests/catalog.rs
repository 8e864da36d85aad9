use raindrop::catalog::{prompt_limit, PromptKind, ResourceKind};

#[test]
fn resources_are_found_by_their_uri() {
    for kind in ResourceKind::all() {
        assert_eq!(ResourceKind::from_uri(kind.uri()), Some(kind));
    }
    assert_eq!(ResourceKind::all().len(), 5);
    assert_eq!(ResourceKind::from_uri("raindrop://tags/all"), Some(ResourceKind::AllTags));
    assert_eq!(ResourceKind::from_uri("raindrop://tags"), None);
    assert_eq!(ResourceKind::UserStats.title(), "User Statistics");
}

#[test]
fn prompts_are_found_by_their_name() {
    assert_eq!(PromptKind::from_name("weekly-digest"), Some(PromptKind::WeeklyDigest));
    assert_eq!(PromptKind::from_name("duplicate-finder"), Some(PromptKind::DuplicateFinder));
    assert_eq!(PromptKind::from_name("unknown"), None);
    assert_eq!(PromptKind::TagSuggestions.name(), "tag-suggestions");
}

#[test]
fn prompt_limit_defaults_and_truncates() {
    assert_eq!(prompt_limit(None), 50);
    assert_eq!(prompt_limit(Some(7)), 7);
    assert_eq!(prompt_limit(Some((1i64 << 32) + 5)), 5);
}
