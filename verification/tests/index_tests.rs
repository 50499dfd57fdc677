use forth_lsp::definition_index::DefinitionIndex;
use forth_lsp::parser::Lexer;
use forth_lsp::token::{Data, Token};

#[test]
fn test_index_single_file() {
    let mut index = DefinitionIndex::new();
    let file_path = "file:///tmp/test.forth";

    index.update_file(file_path, ": add1 1 + ;\n: double 2 * ;");

    let locations = index.find_definitions("add1");
    assert_eq!(locations.len(), 1);
    assert!(locations[0].file.contains("test.forth"));
}

#[test]
fn test_index_case_insensitive() {
    let mut index = DefinitionIndex::new();
    let file_path = "file:///tmp/test.forth";

    index.update_file(file_path, ": MyWord 1 + ;");

    let upper = index.find_definitions("MYWORD");
    let lower = index.find_definitions("myword");
    let mixed = index.find_definitions("MyWord");

    assert_eq!(upper.len(), 1);
    assert_eq!(lower.len(), 1);
    assert_eq!(mixed.len(), 1);
    assert_eq!(upper[0].range, lower[0].range);
    assert_eq!(upper[0].range, mixed[0].range);
}

#[test]
fn test_index_multiple_files() {
    let mut index = DefinitionIndex::new();
    let file1 = "file:///tmp/file1.forth";
    let file2 = "file:///tmp/file2.forth";

    index.update_file(file1, ": add1 1 + ;");
    index.update_file(file2, ": double 2 * ;");

    let add1_locs = index.find_definitions("add1");
    let double_locs = index.find_definitions("double");

    assert_eq!(add1_locs.len(), 1);
    assert_eq!(double_locs.len(), 1);
    assert!(add1_locs[0].file.contains("file1.forth"));
    assert!(double_locs[0].file.contains("file2.forth"));
}

#[test]
fn test_index_duplicate_definitions() {
    let mut index = DefinitionIndex::new();
    let file1 = "file:///tmp/file1.forth";
    let file2 = "file:///tmp/file2.forth";

    index.update_file(file1, ": test 1 + ;");
    index.update_file(file2, ": test 2 * ;");

    let locations = index.find_definitions("test");
    assert_eq!(locations.len(), 2);
}

#[test]
fn test_index_update_file() {
    let mut index = DefinitionIndex::new();
    let file_path = "file:///tmp/test.forth";

    index.update_file(file_path, ": old 1 + ;");
    assert_eq!(index.find_definitions("old").len(), 1);
    assert_eq!(index.find_definitions("new").len(), 0);

    index.update_file(file_path, ": new 2 * ;");
    assert_eq!(index.find_definitions("old").len(), 0);
    assert_eq!(index.find_definitions("new").len(), 1);
}

#[test]
fn test_index_remove_file() {
    let mut index = DefinitionIndex::new();
    let file1 = "file:///tmp/file1.forth";
    let file2 = "file:///tmp/file2.forth";

    index.update_file(file1, ": word1 1 + ;");
    index.update_file(file2, ": word2 2 * ;");

    assert_eq!(index.find_definitions("word1").len(), 1);
    assert_eq!(index.find_definitions("word2").len(), 1);

    index.remove_file(file1);

    assert_eq!(index.find_definitions("word1").len(), 0);
    assert_eq!(index.find_definitions("word2").len(), 1);
}

#[test]
fn test_index_number_prefix_words() {
    let mut index = DefinitionIndex::new();
    let file_path = "file:///tmp/test.forth";

    index.update_file(file_path, ": 2swap ( a b c d -- c d a b ) rot >r rot r> ;");

    let locations = index.find_definitions("2swap");
    assert_eq!(locations.len(), 1);
}

#[test]
fn test_index_not_found() {
    let index = DefinitionIndex::new();
    let locations = index.find_definitions("nonexistent");
    assert_eq!(locations.len(), 0);
}

#[test]
fn test_all_words() {
    let mut index = DefinitionIndex::new();
    let file_path = "file:///tmp/test.forth";

    index.update_file(file_path, ": add1 1 + ;\n: double 2 * ;");

    let words = index.all_words();
    assert_eq!(words.len(), 2);
    assert!(words.contains(&"add1".to_string()));
    assert!(words.contains(&"double".to_string()));
}

#[test]
fn test_find_references_simple() {
    let mut index = DefinitionIndex::new();
    let file_path = "file:///tmp/test.forth";

    index.update_file(file_path, ": add1 1 + ;\n: test add1 add1 ;");

    let refs = index.find_references("add1");
    assert_eq!(refs.len(), 2);
}

#[test]
fn test_find_references_excludes_definition() {
    let mut index = DefinitionIndex::new();
    let file_path = "file:///tmp/test.forth";

    index.update_file(file_path, ": myword 1 + ;");

    let refs = index.find_references("myword");
    assert_eq!(refs.len(), 0);
}

#[test]
fn test_find_references_case_insensitive() {
    let mut index = DefinitionIndex::new();
    let file_path = "file:///tmp/test.forth";

    index.update_file(file_path, ": add1 1 + ;\n: test ADD1 ;");

    let refs = index.find_references("add1");
    assert_eq!(refs.len(), 1);

    let refs_upper = index.find_references("ADD1");
    assert_eq!(refs_upper.len(), 1);
}

#[test]
fn test_find_references_multiple_files() {
    let mut index = DefinitionIndex::new();
    let file1 = "file:///tmp/file1.forth";
    let file2 = "file:///tmp/file2.forth";

    index.update_file(file1, ": add1 1 + ;");
    index.update_file(file2, ": test add1 add1 ;");

    let refs = index.find_references("add1");
    assert_eq!(refs.len(), 2);
    assert!(refs.iter().all(|loc| loc.file.contains("file2.forth")));
}

#[test]
fn test_find_all_references_with_declaration() {
    let mut index = DefinitionIndex::new();
    let file_path = "file:///tmp/test.forth";

    index.update_file(file_path, ": add1 1 + ;\n: test add1 ;");

    let all_refs = index.find_all_references("add1", true);
    assert_eq!(all_refs.len(), 2);
}

#[test]
fn test_find_all_references_without_declaration() {
    let mut index = DefinitionIndex::new();
    let file_path = "file:///tmp/test.forth";

    index.update_file(file_path, ": add1 1 + ;\n: test add1 ;");

    let all_refs = index.find_all_references("add1", false);
    assert_eq!(all_refs.len(), 1);
}

#[test]
fn test_find_references_builtin_words() {
    let mut index = DefinitionIndex::new();
    let file_path = "file:///tmp/test.forth";

    index.update_file(file_path, ": test + - * ;");

    assert_eq!(index.find_references("+").len(), 1);
    assert_eq!(index.find_references("-").len(), 1);
    assert_eq!(index.find_references("*").len(), 1);
}

#[test]
fn test_find_references_no_matches() {
    let mut index = DefinitionIndex::new();
    let file_path = "file:///tmp/test.forth";

    index.update_file(file_path, ": add1 1 + ;");

    assert_eq!(index.find_references("nonexistent").len(), 0);
}

#[test]
fn test_variable_definition() {
    let mut index = DefinitionIndex::new();
    let file_path = "file:///tmp/test.forth";

    index.update_file(file_path, "VARIABLE DATE");

    let defs = index.find_definitions("DATE");
    assert_eq!(defs.len(), 1);
    assert_eq!(defs[0].range.start.line, 0);
    // the range covers "DATE" (starting at character 9), not "VARIABLE"
    assert_eq!(defs[0].range.start.character, 9);
}

#[test]
fn test_constant_definition() {
    let mut index = DefinitionIndex::new();
    index.update_file("file:///tmp/test.forth", "42 CONSTANT ANSWER");
    assert_eq!(index.find_definitions("ANSWER").len(), 1);
}

#[test]
fn test_create_definition() {
    let mut index = DefinitionIndex::new();
    index.update_file("file:///tmp/test.forth", "CREATE BUFFER 100 ALLOT");
    assert_eq!(index.find_definitions("BUFFER").len(), 1);
}

#[test]
fn test_value_definition() {
    let mut index = DefinitionIndex::new();
    index.update_file("file:///tmp/test.forth", "10 VALUE counter");
    assert_eq!(index.find_definitions("counter").len(), 1);
}

#[test]
fn test_multiple_defining_words() {
    let mut index = DefinitionIndex::new();
    index.update_file(
        "file:///tmp/test.forth",
        "VARIABLE x\n10 CONSTANT max\nCREATE buf 100 ALLOT\n: double 2 * ;",
    );

    assert_eq!(index.find_definitions("x").len(), 1);
    assert_eq!(index.find_definitions("max").len(), 1);
    assert_eq!(index.find_definitions("buf").len(), 1);
    assert_eq!(index.find_definitions("double").len(), 1);
}

#[test]
fn test_defining_word_case_insensitive() {
    let mut index = DefinitionIndex::new();
    index.update_file("file:///tmp/test.forth", "variable myvar");
    assert_eq!(index.find_definitions("myvar").len(), 1);
}

#[test]
fn test_2variable_definition() {
    let mut index = DefinitionIndex::new();
    index.update_file("file:///tmp/test.forth", "2VARIABLE dval");
    assert_eq!(index.find_definitions("dval").len(), 1);
}

#[test]
fn test_variable_reference_not_definition() {
    let mut index = DefinitionIndex::new();
    index.update_file("file:///tmp/test.forth", "VARIABLE x\n: test x @ ;");

    assert_eq!(index.find_definitions("x").len(), 1);
    assert_eq!(index.find_references("x").len(), 1);
}

// A well-formed `: NAME ... ;` contributes exactly one definition entry whose
// range spans exactly the name, retrievable under any casing.
#[test]
fn test_colon_definition_spans_exactly_the_name() {
    let mut index = DefinitionIndex::new();
    index.update_file("f", ": add1 ( n -- n ) 1 + ;");

    for casing in ["add1", "ADD1", "Add1"] {
        let defs = index.find_definitions(casing);
        assert_eq!(defs.len(), 1);
        assert_eq!(defs[0].range.start.line, 0);
        assert_eq!(defs[0].range.start.character, 2);
        assert_eq!(defs[0].range.end.line, 0);
        assert_eq!(defs[0].range.end.character, 6);
    }
}

// Updating a file twice in a row with identical content yields identical
// query results as updating it once.
#[test]
fn test_update_file_idempotent() {
    let source = ": add1 1 + ;\nVARIABLE x\n: test add1 x @ ;";
    let mut once = DefinitionIndex::new();
    once.update_file("f", source);
    let mut twice = DefinitionIndex::new();
    twice.update_file("f", source);
    twice.update_file("f", source);

    for word in ["add1", "x", "test", "@", "+", "1", "missing"] {
        let a = once.find_definitions(word);
        let b = twice.find_definitions(word);
        assert_eq!(a.len(), b.len());
        for (la, lb) in a.iter().zip(b.iter()) {
            assert_eq!(la.file, lb.file);
            assert_eq!(la.range, lb.range);
        }
        let a = once.find_references(word);
        let b = twice.find_references(word);
        assert_eq!(a.len(), b.len());
        for (la, lb) in a.iter().zip(b.iter()) {
            assert_eq!(la.file, lb.file);
            assert_eq!(la.range, lb.range);
        }
    }
    assert_eq!(once.all_words(), twice.all_words());
}

// The end-to-end scenario: tokenize, index, and query one definition.
#[test]
fn test_end_to_end_single_definition() {
    let source = ": add1 ( n -- n ) 1 + ;";
    let mut lexer = Lexer::new(source);
    let tokens = lexer.parse();
    let expected = vec![
        Token::Colon(Data::new(0, 1, ":")),
        Token::Word(Data::new(2, 6, "add1")),
        Token::StackComment(Data::new(7, 17, "( n -- n )")),
        Token::Number(Data::new(18, 19, "1")),
        Token::Word(Data::new(20, 21, "+")),
        Token::Semicolon(Data::new(22, 23, ";")),
    ];
    assert_eq!(tokens, expected);

    let mut index = DefinitionIndex::new();
    index.update_file("file:///tmp/test.forth", source);

    let defs = index.find_definitions("add1");
    assert_eq!(defs.len(), 1);
    assert_eq!(defs[0].range.start.character, 2);
    assert_eq!(defs[0].range.end.character, 6);
    assert_eq!(index.find_references("add1").len(), 0);
    assert_eq!(index.find_references("+").len(), 1);
}

// Cross-file duplicates are retained, not merged.
#[test]
fn test_two_files_same_word_both_found() {
    let mut index = DefinitionIndex::new();
    index.update_file("file:///tmp/a.forth", ": test 1 + ;");
    index.update_file("file:///tmp/b.forth", ": test 2 * ;");

    let defs = index.find_definitions("test");
    assert_eq!(defs.len(), 2);
    assert!(defs.iter().any(|l| l.file.contains("a.forth")));
    assert!(defs.iter().any(|l| l.file.contains("b.forth")));
}

// The combined digit+word adjacency rule gives a single definition name.
#[test]
fn test_combined_name_single_entry() {
    let mut index = DefinitionIndex::new();
    index.update_file("f", ": 2swap rot >r rot r> ;");

    assert_eq!(index.find_definitions("2swap").len(), 1);
    assert_eq!(index.find_definitions("2").len(), 0);
    assert_eq!(index.find_definitions("swap").len(), 0);
    let words = index.all_words();
    assert_eq!(words, vec!["2swap".to_string()]);
}

// After remove_file, everything the file contributed is gone from both
// mappings while other files' entries are unchanged.
#[test]
fn test_remove_file_exact() {
    let mut index = DefinitionIndex::new();
    index.update_file("file:///tmp/a.forth", ": shared 1 ;\nVARIABLE va\n: usea shared va ;");
    index.update_file("file:///tmp/b.forth", ": shared 2 ;\n: useb shared ;");

    let before_defs = index.find_definitions("shared");
    assert_eq!(before_defs.len(), 2);
    assert_eq!(index.find_references("shared").len(), 2);

    index.remove_file("file:///tmp/a.forth");

    let after_defs = index.find_definitions("shared");
    assert_eq!(after_defs.len(), 1);
    assert!(after_defs[0].file.contains("b.forth"));
    let b_before: Vec<_> = before_defs.iter().filter(|l| l.file.contains("b.forth")).collect();
    assert_eq!(b_before[0].range, after_defs[0].range);

    assert_eq!(index.find_definitions("va").len(), 0);
    assert_eq!(index.find_references("va").len(), 0);
    assert_eq!(index.find_definitions("usea").len(), 0);
    let refs = index.find_references("shared");
    assert_eq!(refs.len(), 1);
    assert!(refs[0].file.contains("b.forth"));
}

// The defining-keyword scan does not check whether it stands inside a colon
// definition: a VARIABLE in a definition body still declares its follower.
#[test]
fn test_defining_keyword_inside_colon_body() {
    let mut index = DefinitionIndex::new();
    index.update_file("f", ": foo VARIABLE bar ;");

    assert_eq!(index.find_definitions("foo").len(), 1);
    assert_eq!(index.find_definitions("bar").len(), 1);
    assert_eq!(index.find_references("bar").len(), 0);
    // the keyword itself counts as a reference, not a definition
    assert_eq!(index.find_references("variable").len(), 1);
}
