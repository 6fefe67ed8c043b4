use screen_filter::{newer_release, FilterMode, KeySequence, KeySequenceError, Release};

#[test]
fn chord_with_modifiers() {
    let k = KeySequence::parse("Ctrl+Alt+G").ok().unwrap();
    assert_eq!(k.key, 'G');
    assert_eq!(k.modifiers, vec!["Ctrl".to_string(), "Alt".to_string()]);
}

#[test]
fn last_key_token_wins() {
    let k = KeySequence::parse("A+Shift+B").ok().unwrap();
    assert_eq!(k.key, 'B');
    assert_eq!(k.modifiers, vec!["Shift".to_string()]);
}

#[test]
fn empty_tokens_are_kept_as_modifier_names() {
    let k = KeySequence::parse("Ctrl++F").ok().unwrap();
    assert_eq!(k.key, 'F');
    assert_eq!(k.modifiers, vec!["Ctrl".to_string(), String::new()]);
}

#[test]
fn chord_without_key_is_rejected() {
    assert!(matches!(KeySequence::parse("Ctrl+Shift"), Err(KeySequenceError::NoVirtualKey)));
    assert!(matches!(KeySequence::parse(""), Err(KeySequenceError::NoVirtualKey)));
    // one character, but not one byte
    assert!(matches!(KeySequence::parse("Ctrl+é"), Err(KeySequenceError::NoVirtualKey)));
}

#[test]
fn single_key_alone() {
    let k = KeySequence::parse("Q").ok().unwrap();
    assert_eq!(k.key, 'Q');
    assert!(k.modifiers.is_empty());
}

#[test]
fn each_mode_has_its_own_shader() {
    let lab = FilterMode::LabGrayscale.fragment_shader();
    let oklab = FilterMode::OklabGrayscale.fragment_shader();
    assert_ne!(lab, oklab);
    assert!(lab.contains("float4 main("));
    assert!(oklab.contains("float4 main("));
    assert!(lab.contains("24389"));
    assert!(oklab.contains("412221471"));
}

fn release(tag: &str) -> Release {
    Release { tag_name: tag.to_string(), html_url: format!("https://example.org/{}", tag) }
}

#[test]
fn newest_release_with_other_tag_is_announced() {
    let releases = vec![release("v0.3.0"), release("v0.2.0")];
    let r = newer_release(&releases, "v0.2.0").unwrap();
    assert_eq!(r.tag_name, "v0.3.0");
    assert_eq!(r.html_url, "https://example.org/v0.3.0");
}

#[test]
fn running_newest_release_announces_nothing() {
    let releases = vec![release("v0.3.0"), release("v0.2.0")];
    assert!(newer_release(&releases, "v0.3.0").is_none());
    assert!(newer_release(&Vec::new(), "v0.3.0").is_none());
}
