use thesaurus_tui::client::{construct_url, parse_response};
use thesaurus_tui::data::{Definition, Meaning, Thesaurus};

fn entry_with_meanings(meanings: Vec<Meaning>) -> Thesaurus {
    Thesaurus {
        word: Some("mock".to_string()),
        origin: None,
        meanings: Some(meanings),
    }
}

fn meaning(pos: &str) -> Meaning {
    Meaning {
        part_of_speech: Some(pos.to_string()),
        definitions: Some(vec![Definition {
            definition: Some("something".to_string()),
            example: None,
            synonyms: None,
            antonyms: None,
        }]),
    }
}

#[test]
fn test_parse_response_success_passes_entries_through() {
    let entries = vec![entry_with_meanings(vec![meaning("noun")])];
    let info = parse_response(Some(entries), None, true);
    assert!(!info.is_spelling_suggested);
    assert_eq!(info.t.len(), 1);
    assert_eq!(info.t[0].word.as_deref(), Some("mock"));
    assert!(info.t[0].meanings.is_some());
}

#[test]
fn test_parse_response_failure_without_fix_hints_spelling() {
    let info = parse_response(None, None, false);
    assert!(!info.is_spelling_suggested);
    assert_eq!(info.t.len(), 1);
    assert_eq!(
        info.t[0].word.as_deref(),
        Some("Please double-check your spelling.")
    );
    assert!(info.t[0].meanings.is_none());
    assert!(info.t[0].origin.is_none());
}

#[test]
fn test_parse_response_failure_without_fix_ignores_suggestion() {
    let info = parse_response(None, Some("hello".to_string()), false);
    assert!(!info.is_spelling_suggested);
    assert_eq!(info.t.len(), 1);
    assert_eq!(
        info.t[0].word.as_deref(),
        Some("Please double-check your spelling.")
    );
}

#[test]
fn test_parse_response_both_failures_report_search_error() {
    let info = parse_response(None, None, true);
    assert!(!info.is_spelling_suggested);
    assert_eq!(info.t.len(), 1);
    assert_eq!(info.t[0].word.as_deref(), Some("Search error"));
    assert!(info.t[0].meanings.is_none());
}

#[test]
fn test_parse_response_uses_suggestion() {
    let info = parse_response(None, Some("hello".to_string()), true);
    assert!(info.is_spelling_suggested);
    assert_eq!(info.t.len(), 1);
    assert_eq!(info.t[0].word.as_deref(), Some("hello"));
    assert!(info.t[0].meanings.is_none());
}

#[test]
fn test_parse_response_empty_suggestion_is_kept() {
    let info = parse_response(None, Some(String::new()), true);
    assert!(info.is_spelling_suggested);
    assert_eq!(info.t[0].word.as_deref(), Some(""));
}

#[test]
fn test_construct_url_appends_word() {
    let url = construct_url("hello".to_string());
    assert_eq!(
        url,
        "https://api.dictionaryapi.dev/api/v2/entries/en/hello"
    );
}

#[test]
fn test_inject_message_shape() {
    let t = Thesaurus::inject_message("note".to_string());
    assert_eq!(t.len(), 1);
    assert_eq!(t[0].word.as_deref(), Some("note"));
    assert!(t[0].origin.is_none());
    assert!(t[0].meanings.is_none());
}

#[test]
fn test_unwrap_meanings_at_in_range() {
    let entry = entry_with_meanings(vec![meaning("noun"), meaning("verb")]);
    let (pos, defs) = Thesaurus::unwrap_meanings_at(1, &entry);
    assert_eq!(pos, "verb");
    assert_eq!(defs.len(), 1);
    assert_eq!(defs[0].definition.as_deref(), Some("something"));
}

#[test]
fn test_unwrap_meanings_at_out_of_range_is_empty() {
    let entry = entry_with_meanings(vec![meaning("noun")]);
    let (pos, defs) = Thesaurus::unwrap_meanings_at(5, &entry);
    assert_eq!(pos, "");
    assert!(defs.is_empty());

    let bare = Thesaurus {
        word: Some("bare".to_string()),
        origin: None,
        meanings: None,
    };
    let (pos, defs) = Thesaurus::unwrap_meanings_at(0, &bare);
    assert_eq!(pos, "");
    assert!(defs.is_empty());
}
