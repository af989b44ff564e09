use xpub_hasher::hashing::hash;
use xpub_hasher::state::AppState;
use xpub_hasher::state::Effect;
use xpub_hasher::state::Message;
use xpub_hasher::validation::validate;

const KNOWN_XPUB: &str = "xpub661MyMwAqRbcFtXgS5sYJABqqG9YLmC4Q1Rdap9gSE8NqtwybGhePY2gZ29ESFjqJoCu1Rupje8YtGqsefD265TMg7usUDFdp6W1EGMcet8";

const KNOWN_XPUB_SHA256: &str = "ec71164a05b609c13b85dc898cff717b30b992ed1dfb35e0d2827626d23272ee";

#[test]
fn initial_state_is_empty_and_invalid() {
    let s = AppState::new();
    assert_eq!(s.input, "");
    assert!(!s.is_valid);
    assert_eq!(s.hash_result, None);
}

#[test]
fn valid_entry_yields_digest_and_no_effect() {
    let mut s = AppState::new();
    let effect = s.update(Message::InputChanged(KNOWN_XPUB.to_string()));
    assert!(effect.is_none());
    assert_eq!(s.input, KNOWN_XPUB);
    assert!(s.is_valid);
    assert_eq!(s.hash_result.as_deref(), Some(KNOWN_XPUB_SHA256));
}

#[test]
fn invalid_entry_yields_no_digest() {
    let mut s = AppState::new();
    let effect = s.update(Message::InputChanged("not an xpub".to_string()));
    assert!(effect.is_none());
    assert!(!s.is_valid);
    assert_eq!(s.hash_result, None);
}

#[test]
fn empty_entry_yields_no_digest() {
    let mut s = AppState::new();
    s.update(Message::InputChanged(KNOWN_XPUB.to_string()));
    s.update(Message::InputChanged(String::new()));
    assert!(!s.is_valid);
    assert_eq!(s.hash_result, None);
}

#[test]
fn digest_presence_tracks_validity_after_every_edit() {
    let mut s = AppState::new();
    for entry in ["", KNOWN_XPUB, "garbage", KNOWN_XPUB, "xpub661"] {
        s.update(Message::InputChanged(entry.to_string()));
        assert_eq!(s.hash_result.is_some(), validate(&s.input));
        if let Some(d) = &s.hash_result {
            assert_eq!(d, &hash(&s.input));
        }
    }
}

#[test]
fn mutated_vector_clears_digest() {
    let mut s = AppState::new();
    s.update(Message::InputChanged(KNOWN_XPUB.to_string()));
    assert!(s.is_valid);
    let mut chars: Vec<char> = KNOWN_XPUB.chars().collect();
    let flipped: char = if chars[50] == 'a' { 'b' } else { 'a' };
    chars[50] = flipped;
    let mutated: String = chars.into_iter().collect();
    s.update(Message::InputChanged(mutated));
    assert!(!s.is_valid);
    assert_eq!(s.hash_result, None);
}

#[test]
fn copy_after_valid_entry_writes_current_digest_once() {
    let mut s = AppState::new();
    s.update(Message::InputChanged(KNOWN_XPUB.to_string()));
    let effect = s.update(Message::CopyRequested);
    match effect {
        Some(Effect::ClipboardWrite(text)) => assert_eq!(text, KNOWN_XPUB_SHA256),
        None => panic!("expected exactly one clipboard write"),
    }
    // The copy request changed no state.
    assert_eq!(s.input, KNOWN_XPUB);
    assert!(s.is_valid);
    assert_eq!(s.hash_result.as_deref(), Some(KNOWN_XPUB_SHA256));
}

#[test]
fn copy_with_empty_entry_writes_nothing() {
    let mut s = AppState::new();
    let effect = s.update(Message::CopyRequested);
    assert!(effect.is_none());
    assert_eq!(s.input, "");
    assert_eq!(s.hash_result, None);
}

#[test]
fn copy_after_invalid_entry_writes_nothing() {
    let mut s = AppState::new();
    s.update(Message::InputChanged("garbage".to_string()));
    let effect = s.update(Message::CopyRequested);
    assert!(effect.is_none());
}
