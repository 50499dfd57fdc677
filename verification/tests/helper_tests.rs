use forth_lsp::config::Config;
use forth_lsp::definition_helpers::find_colon_definitions;
use forth_lsp::definition_index::DefinitionIndex;
use forth_lsp::find_variant_sublists::FindVariantSublists;
use forth_lsp::find_variant_sublists_from_to::FindVariantSublistsFromTo;
use forth_lsp::hints::extract_stack_effect;
use forth_lsp::position::ExtractedPosition;
use forth_lsp::suggestions::{edit_distance, find_similar_words};
use forth_lsp::token::{Data, Token, TokenKind};
use forth_lsp::token_utils::{extract_word_name, extract_word_name_with_range};
use forth_lsp::word_lookup::{find_builtin_word, is_user_defined, lookup_word, WordInfo};
use forth_lsp::words::Words;

#[test]
fn test_find_single_definition() {
    let tokens = vec![
        Token::Colon(Data::new(0, 0, "")),
        Token::Word(Data::new(0, 0, "")),
        Token::Semicolon(Data::new(0, 0, "")),
    ];
    let defs = find_colon_definitions(&tokens);
    assert_eq!(defs.len(), 1);
    // the window runs from the colon to the semicolon: three tokens
    assert_eq!(defs[0], (0, 2));
}

#[test]
fn test_find_multiple_definitions() {
    let tokens = vec![
        Token::Colon(Data::new(0, 0, "")),
        Token::Word(Data::new(0, 0, "")),
        Token::Semicolon(Data::new(0, 0, "")),
        Token::Colon(Data::new(1, 1, "")),
        Token::Word(Data::new(1, 1, "")),
        Token::Semicolon(Data::new(1, 1, "")),
    ];
    let defs = find_colon_definitions(&tokens);
    assert_eq!(defs.len(), 2);
    assert_eq!(defs, vec![(0, 2), (3, 5)]);
}

#[test]
fn test_no_definitions() {
    let tokens = vec![
        Token::Word(Data::new(0, 0, "")),
        Token::Number(Data::new(1, 1, "")),
    ];
    let defs = find_colon_definitions(&tokens);
    assert_eq!(defs.len(), 0);
}

#[test]
fn find_variant_sublists_from_to_test() {
    // windows from each Word to the nearest following Semicolon
    let tokens = vec![
        Token::Colon(Data::new(0, 1, ":")),
        Token::Word(Data::new(2, 3, "a")),
        Token::Number(Data::new(4, 5, "1")),
        Token::Semicolon(Data::new(6, 7, ";")),
        Token::Colon(Data::new(8, 9, ":")),
        Token::Word(Data::new(10, 11, "b")),
        Token::Number(Data::new(12, 13, "2")),
        Token::Semicolon(Data::new(14, 15, ";")),
    ];
    let results = tokens.find_variant_sublists_from_to(TokenKind::Word, TokenKind::Semicolon);
    assert_eq!(results, vec![(1, 3), (5, 7)]);
}

#[test]
fn find_variant_sublists_test() {
    // windows whose kinds match the pattern [Colon, Word]
    let tokens = vec![
        Token::Colon(Data::new(0, 1, ":")),
        Token::Word(Data::new(2, 3, "a")),
        Token::Number(Data::new(4, 5, "1")),
        Token::Semicolon(Data::new(6, 7, ";")),
        Token::Colon(Data::new(8, 9, ":")),
        Token::Word(Data::new(10, 11, "b")),
    ];
    let pattern = vec![TokenKind::Colon, TokenKind::Word];
    let results = tokens.find_variant_sublists(&pattern);
    assert_eq!(results, vec![(0, 2), (4, 6)]);
}

#[test]
fn test_extract_word_name() {
    let tokens = vec![
        Token::Colon(Data::new(0, 1, ":")),
        Token::Number(Data::new(2, 3, "2")),
        Token::Word(Data::new(3, 7, "swap")),
        Token::Semicolon(Data::new(8, 9, ";")),
    ];
    // a number immediately adjacent to a word combines into one name
    assert_eq!(extract_word_name(&tokens, 1), Some("2swap".to_string()));
    assert_eq!(
        extract_word_name_with_range(&tokens, 1),
        Some(("2swap".to_string(), 2, 7))
    );
    // a lone word is its own name
    assert_eq!(extract_word_name(&tokens, 2), Some("swap".to_string()));
    // a semicolon names nothing
    assert_eq!(extract_word_name(&tokens, 3), None);
    // out of bounds names nothing
    assert_eq!(extract_word_name(&tokens, 4), None);
}

#[test]
fn test_edit_distance() {
    assert_eq!(edit_distance("DUP", "DUU"), 1);
    assert_eq!(edit_distance("SWAP", "SWAT"), 1);
    assert_eq!(edit_distance("abc", "xyz"), 3);
    assert_eq!(edit_distance("DUP", "DUP"), 0);
    assert_eq!(edit_distance("", "abc"), 3);
    assert_eq!(edit_distance("abc", ""), 3);
}

#[test]
fn test_edit_distance_case_insensitive() {
    assert_eq!(edit_distance("dup", "DUP"), 0);
    assert_eq!(edit_distance("Swap", "swaT"), 1);
}

#[test]
fn test_find_similar_words() {
    let words = Words::default();
    let index = DefinitionIndex::new();

    let results = find_similar_words("DUU", &words, &index, 3);
    assert!(results.len() <= 3);
    assert!(results.iter().any(|w| w == "DUP"));

    let results = find_similar_words("SWAR", &words, &index, 3);
    assert!(results.iter().any(|w| w == "SWAP"));
}

#[test]
fn test_extract_stack_effect() {
    assert_eq!(
        extract_stack_effect("DUP ( x -- x x ) duplicates"),
        "( x -- x x )"
    );
    assert_eq!(
        extract_stack_effect("SWAP ( x1 x2 -- x2 x1 ) swaps"),
        "( x1 x2 -- x2 x1 )"
    );
    assert_eq!(extract_stack_effect("No stack effect here"), "");
    assert_eq!(
        extract_stack_effect("Multiple (parens) ( n -- n n ) here"),
        "( n -- n n )"
    );
}

#[test]
fn test_default_config() {
    let config = Config::default();
    assert_eq!(config.format.indent_width, 2);
    assert!(config.format.use_spaces);
    assert!(config.format.space_after_colon);
    assert!(!config.format.space_before_semicolon);
    assert_eq!(config.format.word_spacing, 1);
    assert!(config.format.indent_control_structures);
    assert!(config.builtin.words.is_empty());
}

#[test]
fn test_find_builtin_word() {
    let words = Words::default();

    let word = find_builtin_word("SWAP", &words);
    assert!(word.is_some());
    assert_eq!(word.unwrap().token, "SWAP");

    let word = find_builtin_word("swap", &words);
    assert!(word.is_some());

    let word = find_builtin_word("NONEXISTENT", &words);
    assert!(word.is_none());
}

#[test]
fn test_find_builtin_empty() {
    let words = Words::default();
    let word = find_builtin_word("", &words);
    assert!(word.is_none());
}

#[test]
fn test_lookup_builtin_word() {
    let words = Words::default();

    let result = lookup_word("DUP", &words, None);
    assert!(matches!(result, WordInfo::Builtin(_)));

    let result = lookup_word("dup", &words, None);
    assert!(matches!(result, WordInfo::Builtin(_)));
}

#[test]
fn test_lookup_not_found() {
    let words = Words::default();
    let result = lookup_word("NONEXISTENT_WORD_12345", &words, None);
    assert!(matches!(result, WordInfo::NotFound));
}

#[test]
fn test_lookup_empty_word() {
    let words = Words::default();
    let result = lookup_word("", &words, None);
    assert!(matches!(result, WordInfo::NotFound));
}

#[test]
fn test_lookup_user_defined_first() {
    let words = Words::default();
    let mut index = DefinitionIndex::new();
    index.update_file("f", ": dup 1 ;");

    let result = lookup_word("DUP", &words, Some(&index));
    match result {
        WordInfo::UserDefined { name, definition_count } => {
            assert_eq!(name, "DUP");
            assert_eq!(definition_count, 1);
        }
        other => panic!("expected a user definition, got {:?}", other),
    }
    assert!(is_user_defined("dup", &index));
    assert!(!is_user_defined("swap", &index));
}

#[test]
fn test_word_documentation() {
    let words = Words::default();
    let word = find_builtin_word("SWAP", &words).unwrap();
    let doc = word.documentation();
    assert!(doc.starts_with("# `SWAP`"));
    assert!(doc.contains(word.stack));
    assert!(doc.contains(word.help));
}

#[test]
fn test_extracted_position_format() {
    let pos = ExtractedPosition {
        file_path: "file:///tmp/test.forth".to_string(),
        line: 12,
        character: 5,
    };
    assert_eq!(pos.format(), "file:///tmp/test.forth:12:5");
}
