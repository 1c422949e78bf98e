use thesaurus_tui::app::{Action, App, InputMode, Key};
use thesaurus_tui::client::parse_response;
use thesaurus_tui::data::{Definition, Meaning, Thesaurus};
use thesaurus_tui::list::StatefulListType;

fn mock_app_in(input_mode: InputMode) -> App {
    let mut mock_app = App::new();
    mock_app.input_mode = input_mode;
    mock_app
}

fn mock_part_of_speech() -> String {
    String::from("noun")
}

fn mock_meaning_with(p: Option<String>, d: Option<Vec<Definition>>) -> Meaning {
    Meaning {
        part_of_speech: p,
        definitions: d,
    }
}

fn mock_definition_with(d: Option<String>) -> Definition {
    Definition {
        definition: d,
        example: None,
        synonyms: None,
        antonyms: None,
    }
}

fn mock_results_with(m: Vec<Meaning>) -> Vec<Thesaurus> {
    vec![Thesaurus {
        word: Some(String::from("mock")),
        origin: None,
        meanings: Some(m),
    }]
}

fn definition_items(app: &App) -> Vec<String> {
    app.definition_list.items.clone()
}

#[test]
fn test_update_part_of_speech_list() {
    let mut mock_app = mock_app_in(InputMode::default());
    let mock_parts_of_speech = vec![
        String::from("noun"),
        String::from("verb"),
        String::from("adjective"),
    ];
    let mock_meanings = mock_parts_of_speech
        .clone()
        .iter()
        .map(|i| mock_meaning_with(Some(i.to_string()), None))
        .collect();
    mock_app.results = mock_results_with(mock_meanings);
    App::update_stateful_lists(&mut mock_app, StatefulListType::PartOfSpeech);
    assert_eq!(
        mock_parts_of_speech.len(),
        mock_app.part_of_speech_list.items.len()
    );
    assert_eq!(Some(0), mock_app.part_of_speech_list.selected)
}

#[test]
fn test_update_definition_list() {
    let mut mock_app = mock_app_in(InputMode::default());
    let mock_definitions = vec![
        mock_definition_with(Some(String::from("Definition 1"))),
        mock_definition_with(Some(String::from("Definition 2"))),
        mock_definition_with(Some(String::from("Definition 3"))),
    ];
    let mock_meanings = vec![mock_meaning_with(
        Some(mock_part_of_speech()),
        Some(mock_definitions.clone()),
    )];
    mock_app.results = mock_results_with(mock_meanings);
    App::update_stateful_lists(&mut mock_app, StatefulListType::All);
    assert_eq!(mock_definitions.len(), mock_app.definition_list.items.len());
    assert_eq!(Some(0), mock_app.definition_list.selected);
}

#[test]
fn test_instructions_in_normal_mode() {
    let mut mock_app = mock_app_in(InputMode::Normal);
    assert_eq!(App::update_instructions(&mut mock_app), "/: Insert");
}

#[test]
fn test_instructions_for_word_with_single_part_of_speech() {
    let mut mock_app = mock_app_in(InputMode::default());
    mock_app.results =
        mock_results_with(vec![mock_meaning_with(Some(mock_part_of_speech()), None)]);
    App::update_part_of_speech_list(&mut mock_app);
    assert_eq!(
        App::update_instructions(&mut mock_app),
        "l, h: Change definition; /: Insert"
    );
}

#[test]
fn test_instructions_in_normal_mode_with_results() {
    let mut mock_app = mock_app_in(InputMode::Normal);
    mock_app.results =
        mock_results_with(vec![mock_meaning_with(Some(mock_part_of_speech()), None)]);
    assert_eq!(true, !mock_app.results.is_empty());
    assert_eq!(
        App::update_instructions(&mut mock_app),
        "j, k: Change part of speech; /: Insert"
    );
}

#[test]
fn test_instructions_in_editing_mode() {
    let mut mock_app = mock_app_in(InputMode::Editing);
    assert_eq!(App::update_instructions(&mut mock_app), "<ENTER>: Search");
}

#[test]
fn test_instructions_in_part_of_speech_selection_mode() {
    let mut mock_app = mock_app_in(InputMode::SelectPartOfSpeech);
    assert_eq!(App::update_instructions(&mut mock_app), "<ENTER>: Select");
}

#[test]
fn test_instructions_in_definition_selection_mode() {
    let mut mock_app = mock_app_in(InputMode::SelectDefinition);
    assert_eq!(
        App::update_instructions(&mut mock_app),
        "l, h: Change definition; /: Insert"
    );
}

#[test]
fn test_new_session_is_empty() {
    let app = App::default();
    assert!(!app.should_quit);
    assert_eq!(app.input, "");
    assert!(matches!(app.input_mode, InputMode::Normal));
    assert!(app.results.is_empty());
    assert!(app.part_of_speech_list.items.is_empty());
    assert_eq!(app.part_of_speech_list.selected, None);
    assert!(app.definition_list.items.is_empty());
    assert_eq!(app.definition_list.selected, None);
}

#[test]
fn test_selection_modes_are_guarded() {
    let mut app = mock_app_in(InputMode::Normal);
    app.handle_key(Key::Down);
    assert!(matches!(app.input_mode, InputMode::Normal));
    app.handle_key(Key::Right);
    assert!(matches!(app.input_mode, InputMode::Normal));

    app.results = mock_results_with(vec![
        mock_meaning_with(Some(String::from("noun")), None),
        mock_meaning_with(Some(String::from("verb")), None),
    ]);
    App::update_stateful_lists(&mut app, StatefulListType::All);
    app.handle_key(Key::Right);
    assert!(matches!(app.input_mode, InputMode::Normal));
    app.handle_key(Key::Down);
    assert!(matches!(app.input_mode, InputMode::SelectPartOfSpeech));
}

#[test]
fn test_quit_key_in_normal_mode() {
    let mut app = mock_app_in(InputMode::Normal);
    let action = app.handle_key(Key::Esc);
    assert!(matches!(action, Action::Nothing));
    assert!(app.should_quit);
    assert!(matches!(app.input_mode, InputMode::Normal));
}

#[test]
fn test_edit_key_clears_buffer_and_enters_editing() {
    let mut app = mock_app_in(InputMode::Normal);
    app.input = String::from("stale");
    app.handle_key(Key::Char('/'));
    assert!(matches!(app.input_mode, InputMode::Editing));
    assert_eq!(app.input, "");
}

#[test]
fn test_editing_keys_update_buffer() {
    let mut app = mock_app_in(InputMode::Editing);
    app.handle_key(Key::Char('c'));
    app.handle_key(Key::Char('a'));
    app.handle_key(Key::Char('t'));
    assert_eq!(app.input, "cat");
    app.handle_key(Key::Backspace);
    assert_eq!(app.input, "ca");
    assert!(matches!(app.input_mode, InputMode::Editing));
}

#[test]
fn test_commit_returns_fetch_action() {
    let mut app = mock_app_in(InputMode::Editing);
    app.handle_key(Key::Char('c'));
    app.handle_key(Key::Char('a'));
    app.handle_key(Key::Char('t'));
    let action = app.handle_key(Key::Enter);
    match action {
        Action::Fetch(word) => assert_eq!(word, "cat"),
        Action::Nothing => panic!("committing a non-empty buffer must run the lookup"),
    }
}

#[test]
fn test_commit_empty_buffer_is_noop() {
    let mut app = mock_app_in(InputMode::Editing);
    app.results = mock_results_with(vec![mock_meaning_with(Some(mock_part_of_speech()), None)]);
    let action = app.handle_key(Key::Enter);
    assert!(matches!(action, Action::Nothing));
    assert!(matches!(app.input_mode, InputMode::Editing));
    assert_eq!(app.results.len(), 1);
    assert_eq!(app.results[0].word.as_deref(), Some("mock"));
}

#[test]
fn test_commit_query_cascades() {
    let mut app = mock_app_in(InputMode::Editing);
    app.input = String::from("cat");
    let action = app.handle_key(Key::Enter);
    let word = match action {
        Action::Fetch(word) => word,
        Action::Nothing => panic!("committing a non-empty buffer must run the lookup"),
    };
    assert_eq!(word, "cat");

    let meanings = vec![
        mock_meaning_with(
            Some(String::from("noun")),
            Some(vec![
                mock_definition_with(Some(String::from("a small domesticated feline"))),
                mock_definition_with(Some(String::from("a spiteful woman"))),
            ]),
        ),
        mock_meaning_with(
            Some(String::from("verb")),
            Some(vec![mock_definition_with(Some(String::from(
                "to whip with a cat-o'-nine-tails",
            )))]),
        ),
        mock_meaning_with(
            Some(String::from("noun")),
            Some(vec![mock_definition_with(Some(String::from(
                "a catamaran",
            )))]),
        ),
    ];
    let info = parse_response(Some(mock_results_with(meanings)), None, true);
    app.apply_lookup(info);

    assert!(matches!(app.input_mode, InputMode::Normal));
    assert_eq!(app.part_of_speech_list.items.len(), 3);
    assert_eq!(app.part_of_speech_list.selected, Some(0));
    assert_eq!(
        app.part_of_speech_list.items,
        vec!["noun", "verb", "noun"]
    );
    assert_eq!(
        definition_items(&app),
        vec!["a small domesticated feline", "a spiteful woman"]
    );

    app.handle_key(Key::Down);
    assert!(matches!(app.input_mode, InputMode::SelectPartOfSpeech));
    app.handle_key(Key::Down);
    assert_eq!(app.part_of_speech_list.selected, Some(1));
    assert_eq!(
        definition_items(&app),
        vec!["to whip with a cat-o'-nine-tails"]
    );
    assert_eq!(app.definition_list.selected, Some(0));
}

#[test]
fn test_recompute_is_idempotent() {
    let mut app = mock_app_in(InputMode::Normal);
    app.results = mock_results_with(vec![
        mock_meaning_with(
            Some(String::from("noun")),
            Some(vec![mock_definition_with(Some(String::from("first")))]),
        ),
        mock_meaning_with(
            Some(String::from("verb")),
            Some(vec![mock_definition_with(Some(String::from("second")))]),
        ),
    ]);
    App::update_stateful_lists(&mut app, StatefulListType::All);
    let pos_items = app.part_of_speech_list.items.clone();
    let pos_selected = app.part_of_speech_list.selected;
    let def_items = definition_items(&app);
    let def_selected = app.definition_list.selected;
    App::update_stateful_lists(&mut app, StatefulListType::All);
    assert_eq!(app.part_of_speech_list.items, pos_items);
    assert_eq!(app.part_of_speech_list.selected, pos_selected);
    assert_eq!(definition_items(&app), def_items);
    assert_eq!(app.definition_list.selected, def_selected);
}

#[test]
fn test_recompute_clears_stale_lists() {
    let mut app = mock_app_in(InputMode::Normal);
    app.results = mock_results_with(vec![mock_meaning_with(
        Some(mock_part_of_speech()),
        Some(vec![mock_definition_with(Some(String::from("old")))]),
    )]);
    App::update_stateful_lists(&mut app, StatefulListType::All);
    assert_eq!(app.part_of_speech_list.items.len(), 1);

    let info = parse_response(None, None, false);
    app.apply_lookup(info);
    assert!(app.part_of_speech_list.items.is_empty());
    assert_eq!(app.part_of_speech_list.selected, None);
    assert!(app.definition_list.items.is_empty());
    assert_eq!(app.definition_list.selected, None);
}

#[test]
fn test_suggestion_overlay_and_dismissal() {
    let mut app = mock_app_in(InputMode::Editing);
    app.input = String::from("helllo");
    let info = parse_response(None, Some(String::from("hello")), true);
    assert!(info.is_spelling_suggested);
    assert_eq!(info.t[0].word.as_deref(), Some("hello"));
    app.apply_lookup(info);
    assert!(matches!(app.input_mode, InputMode::Suggesting));
    app.handle_key(Key::Char('x'));
    assert!(matches!(app.input_mode, InputMode::Normal));
}

#[test]
fn test_select_definition_navigation() {
    let mut app = mock_app_in(InputMode::Normal);
    app.results = mock_results_with(vec![mock_meaning_with(
        Some(mock_part_of_speech()),
        Some(vec![
            mock_definition_with(Some(String::from("first"))),
            mock_definition_with(Some(String::from("second"))),
        ]),
    )]);
    App::update_stateful_lists(&mut app, StatefulListType::All);
    app.input_mode = InputMode::SelectDefinition;
    app.handle_key(Key::Char('l'));
    assert_eq!(app.definition_list.selected, Some(1));
    app.handle_key(Key::Char('h'));
    assert_eq!(app.definition_list.selected, Some(0));
    app.handle_key(Key::Char('h'));
    assert_eq!(app.definition_list.selected, Some(1));
    app.handle_key(Key::Esc);
    assert!(matches!(app.input_mode, InputMode::Normal));
    assert_eq!(app.definition_list.selected, Some(0));
}
