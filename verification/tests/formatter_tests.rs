use forth_lsp::config::FormatConfig;
use forth_lsp::formatter::Formatter;

#[test]
fn test_basic_formatting() {
    let config = FormatConfig {
        indent_control_structures: false,
        ..Default::default()
    };
    let formatter = Formatter::new(config);

    let source = ":   add   +  ;";
    let formatted = formatter.format_source(source).unwrap();
    assert_eq!(formatted, ": add + ;\n");
}

#[test]
fn test_indent_definition() {
    let config = FormatConfig {
        indent_control_structures: true,
        ..Default::default()
    };
    let formatter = Formatter::new(config);

    let source = ": square dup * ;";
    let formatted = formatter.format_source(source).unwrap();
    assert_eq!(formatted, ": square\n  dup * ;\n");
}

#[test]
fn test_space_after_colon() {
    let config = FormatConfig {
        space_after_colon: false,
        indent_control_structures: false,
        ..Default::default()
    };
    let formatter = Formatter::new(config);

    let source = ": square dup * ;";
    let formatted = formatter.format_source(source).unwrap();
    assert_eq!(formatted, ":square dup * ;\n");
}

#[test]
fn test_space_before_semicolon() {
    let config = FormatConfig {
        space_before_semicolon: true,
        indent_control_structures: false,
        ..Default::default()
    };
    let formatter = Formatter::new(config);

    let source = ": test 1 2 + ;";
    let formatted = formatter.format_source(source).unwrap();
    assert_eq!(formatted, ": test 1 2 + ;\n");
}

#[test]
fn test_word_spacing() {
    let config = FormatConfig {
        word_spacing: 2,
        indent_control_structures: false,
        ..Default::default()
    };
    let formatter = Formatter::new(config);

    let source = ": test 1 2 + ;";
    let formatted = formatter.format_source(source).unwrap();
    assert_eq!(formatted, ": test  1  2  +  ;\n");
}

#[test]
fn test_control_structure_indentation() {
    let config = FormatConfig {
        indent_control_structures: true,
        ..Default::default()
    };
    let formatter = Formatter::new(config);

    let source = ": abs dup 0 < if negate then ;";
    let formatted = formatter.format_source(source).unwrap();
    let expected = ": abs\n  dup 0 <\n  if\n    negate\n  then ;\n";
    assert_eq!(formatted, expected);
}

#[test]
fn test_multiple_definitions() {
    let config = FormatConfig::default();
    let formatter = Formatter::new(config);

    let source = ": square dup * ; : cube dup square * ;";
    let formatted = formatter.format_source(source).unwrap();
    // Default adds blank line between definitions
    assert_eq!(
        formatted,
        ": square\n  dup * ;\n\n: cube\n  dup square * ;\n"
    );
}

#[test]
fn test_comments_preserved() {
    let config = FormatConfig::default();
    let formatter = Formatter::new(config);

    let source = r"\ This is a comment
: test ( a b -- c ) + ;";
    let formatted = formatter.format_source(source).unwrap();
    assert!(formatted.contains(r"\ This is a comment"));
    assert!(formatted.contains("( a b -- c )"));
}

#[test]
fn test_tabs_instead_of_spaces() {
    let config = FormatConfig {
        use_spaces: false,
        indent_control_structures: true,
        ..Default::default()
    };
    let formatter = Formatter::new(config);

    let source = ": square dup * ;";
    let formatted = formatter.format_source(source).unwrap();
    assert_eq!(formatted, ": square\n\tdup * ;\n");
}

#[test]
fn test_custom_indent_width() {
    let config = FormatConfig {
        indent_width: 4,
        indent_control_structures: true,
        ..Default::default()
    };
    let formatter = Formatter::new(config);

    let source = ": square dup * ;";
    let formatted = formatter.format_source(source).unwrap();
    assert_eq!(formatted, ": square\n    dup * ;\n");
}

#[test]
fn test_nested_control_structures() {
    let config = FormatConfig {
        indent_control_structures: true,
        ..Default::default()
    };
    let formatter = Formatter::new(config);

    let source = ": test 0 10 do i 2 mod 0 = if i . then loop ;";
    let formatted = formatter.format_source(source).unwrap();
    let expected =
        ": test\n  0 10\n  do\n    i 2 mod 0 =\n    if\n      i .\n    then\n  loop ;\n";
    assert_eq!(formatted, expected);
}

#[test]
fn test_stack_comment_on_declaration_line_default() {
    let config = FormatConfig::default();
    let formatter = Formatter::new(config);

    let source = ": add ( a b -- c ) + ;";
    let formatted = formatter.format_source(source).unwrap();
    assert_eq!(formatted, ": add ( a b -- c )\n  + ;\n");
}

#[test]
fn test_stack_comment_on_separate_line() {
    let config = FormatConfig {
        stack_comment_on_declaration_line: false,
        indent_control_structures: true,
        ..Default::default()
    };
    let formatter = Formatter::new(config);

    let source = ": add ( a b -- c ) + ;";
    let formatted = formatter.format_source(source).unwrap();
    assert_eq!(formatted, ": add\n  ( a b -- c )\n  + ;\n");
}

#[test]
fn test_stack_comment_separate_line_no_indent() {
    let config = FormatConfig {
        stack_comment_on_declaration_line: false,
        indent_control_structures: false,
        ..Default::default()
    };
    let formatter = Formatter::new(config);

    let source = ": add ( a b -- c ) + ;";
    let formatted = formatter.format_source(source).unwrap();
    // When indent is disabled, config doesn't apply
    assert_eq!(formatted, ": add ( a b -- c ) + ;\n");
}

#[test]
fn test_regular_comments_unaffected_by_stack_comment_config() {
    let config = FormatConfig {
        stack_comment_on_declaration_line: false,
        indent_control_structures: true,
        ..Default::default()
    };
    let formatter = Formatter::new(config);

    let source = r": test \ inline comment
dup ;";
    let formatted = formatter.format_source(source).unwrap();
    // Regular comments should not be moved
    assert!(formatted.contains(r"\ inline comment"));
}

#[test]
fn test_blank_line_between_definitions_default() {
    let config = FormatConfig::default();
    let formatter = Formatter::new(config);

    let source = ": square dup * ; : cube dup square * ;";
    let formatted = formatter.format_source(source).unwrap();
    // Should have blank line between definitions
    assert_eq!(
        formatted,
        ": square\n  dup * ;\n\n: cube\n  dup square * ;\n"
    );
}

#[test]
fn test_blank_line_between_definitions_disabled() {
    let config = FormatConfig {
        blank_line_between_definitions: false,
        ..Default::default()
    };
    let formatter = Formatter::new(config);

    let source = ": square dup * ; : cube dup square * ;";
    let formatted = formatter.format_source(source).unwrap();
    // Should NOT have blank line between definitions
    assert_eq!(formatted, ": square\n  dup * ;\n: cube\n  dup square * ;\n");
}

#[test]
fn test_blank_line_three_definitions() {
    let config = FormatConfig::default();
    let formatter = Formatter::new(config);

    let source = ": a 1 ; : b 2 ; : c 3 ;";
    let formatted = formatter.format_source(source).unwrap();
    assert_eq!(formatted, ": a\n  1 ;\n\n: b\n  2 ;\n\n: c\n  3 ;\n");
}

#[test]
fn test_preserve_definition_newlines() {
    let config = FormatConfig {
        preserve_definition_newlines: true,
        ..Default::default()
    };
    let formatter = Formatter::new(config);

    let source = ": test\n  1 2 +\n  3 4 *\n  + ;";
    let formatted = formatter.format_source(source).unwrap();
    // Should preserve the newlines within the definition
    assert_eq!(formatted, ": test\n  1 2 +\n  3 4 *\n  + ;\n\n");
}

#[test]
fn test_preserve_newlines_multiple_definitions() {
    let config = FormatConfig {
        preserve_definition_newlines: true,
        ..Default::default()
    };
    let formatter = Formatter::new(config);

    let source = ": a\n  1\n  2 + ;\n: b\n  dup * ;";
    let formatted = formatter.format_source(source).unwrap();
    // Should preserve newlines and add blank line between
    assert_eq!(formatted, ": a\n  1\n  2 + ;\n\n: b\n  dup * ;\n\n");
}

#[test]
fn test_preserve_newlines_with_comments() {
    let config = FormatConfig {
        preserve_definition_newlines: true,
        ..Default::default()
    };
    let formatter = Formatter::new(config);

    let source = ": test\n  \\ comment\n  1 2 + ;";
    let formatted = formatter.format_source(source).unwrap();
    assert_eq!(formatted, ": test\n  \\ comment\n  1 2 + ;\n\n");
}

#[test]
fn test_preserve_non_definition_content() {
    let config = FormatConfig {
        preserve_definition_newlines: true,
        ..Default::default()
    };
    let formatter = Formatter::new(config);

    // Test that comments, constants, variables outside definitions are preserved
    let source = "\\ File header comment\n10 CONSTANT MAX\n: double dup * ;\n\\ Footer comment";
    let formatted = formatter.format_source(source).unwrap();

    // Should preserve all non-definition content
    assert!(formatted.contains("\\ File header comment"));
    assert!(formatted.contains("10 CONSTANT MAX"));
    assert!(formatted.contains(": double dup * ;"));
    assert!(formatted.contains("\\ Footer comment"));
}

#[test]
fn test_preserve_variables_and_constants() {
    let config = FormatConfig {
        preserve_definition_newlines: true,
        ..Default::default()
    };
    let formatter = Formatter::new(config);

    let source = "VARIABLE counter\n100 CONSTANT LIMIT\n: increment counter @ 1 + counter ! ;";
    let formatted = formatter.format_source(source).unwrap();

    assert!(formatted.contains("VARIABLE counter"));
    assert!(formatted.contains("100 CONSTANT LIMIT"));
    assert!(formatted.contains(": increment counter @ 1 + counter ! ;"));
}

#[test]
fn test_constants_on_separate_lines() {
    let config = FormatConfig {
        preserve_definition_newlines: true,
        ..Default::default()
    };
    let formatter = Formatter::new(config);

    // Multiple constants on one line should be split
    let source = "10 CONSTANT MAX 42 CONSTANT ANSWER";
    let formatted = formatter.format_source(source).unwrap();

    // Each constant should be on its own line
    assert!(formatted.contains("10 CONSTANT MAX\n"));
    assert!(formatted.contains("42 CONSTANT ANSWER\n"));
}

#[test]
fn test_inline_paren_comment_preserved_by_default() {
    let config = FormatConfig {
        indent_control_structures: false,
        newline_before_paren_comments: false, // default
        ..Default::default()
    };
    let formatter = Formatter::new(config);

    let source = ": add ( regular comment ) + ;";
    let formatted = formatter.format_source(source).unwrap();
    // Should keep comment inline, not force newline before it
    assert_eq!(formatted, ": add ( regular comment ) + ;\n");
}

#[test]
fn test_inline_line_comment_preserved_by_default() {
    let config = FormatConfig {
        indent_control_structures: false,
        newline_before_line_comments: false, // default
        ..Default::default()
    };
    let formatter = Formatter::new(config);

    let source = ": test 1 2 \\ inline comment\n + ;";
    let formatted = formatter.format_source(source).unwrap();
    // Should keep comment inline on same line as code
    assert!(formatted.contains("1 2 \\ inline comment\n"));
}

#[test]
fn test_newline_before_paren_comments_when_enabled() {
    let config = FormatConfig {
        indent_control_structures: false,
        newline_before_paren_comments: true,
        ..Default::default()
    };
    let formatter = Formatter::new(config);

    let source = ": add ( regular paren comment ) + ;";
    let formatted = formatter.format_source(source).unwrap();
    // Should force newline before paren comment
    assert!(formatted.contains(": add\n( regular paren comment )"));
}

#[test]
fn test_newline_before_line_comments_when_enabled() {
    let config = FormatConfig {
        indent_control_structures: false,
        newline_before_line_comments: true,
        ..Default::default()
    };
    let formatter = Formatter::new(config);

    let source = ": test 1 2 \\ inline comment\n + ;";
    let formatted = formatter.format_source(source).unwrap();
    // Should force newline before line comment
    assert!(formatted.contains("1 2\n\\ inline comment\n"));
}

#[test]
fn test_preserve_newlines_mode_respects_comment_config() {
    let config = FormatConfig {
        preserve_definition_newlines: true,
        newline_before_paren_comments: false,
        newline_before_line_comments: false,
        ..Default::default()
    };
    let formatter = Formatter::new(config);

    let source = ": test 1 2 ( inline paren ) + \\ inline line\n 3 ;";
    let formatted = formatter.format_source(source).unwrap();
    // Should preserve inline comments even in preserve mode
    assert!(formatted.contains("( inline paren )"));
    assert!(formatted.contains("\\ inline line"));
}
