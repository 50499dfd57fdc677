use forth_lsp::parser::Lexer;
use forth_lsp::token::{Data, Token};
use forth_lsp::token::Token::{Colon, Comment, Eof, Number, Semicolon, StackComment, Word};

#[test]
fn test_parse_proper_def() {
    let mut lexer = Lexer::new(": add1 ( n -- n )\n  1 + \\ adds one\n;");
    let tokens = lexer.parse();
    let expected = vec![
        Colon(Data::new(0, 1, ":")),
        Word(Data::new(2, 6, "add1")),
        StackComment(Data::new(7, 17, "( n -- n )")),
        Number(Data::new(20, 21, "1")),
        Word(Data::new(22, 23, "+")),
        Comment(Data::new(24, 34, "\\ adds one")),
        Semicolon(Data::new(35, 36, ";")),
    ];
    assert_eq!(tokens, expected)
}

#[test]
fn test_parse_simple_def() {
    let mut lexer = Lexer::new(": add1 1 + ;");
    let tokens = lexer.parse();
    let expected = vec![
        Colon(Data::new(0, 1, ":")),
        Word(Data::new(2, 6, "add1")),
        Number(Data::new(7, 8, "1")),
        Word(Data::new(9, 10, "+")),
        Semicolon(Data::new(11, 12, ";")),
    ];
    assert_eq!(tokens, expected)
}

#[test]
fn test_parse_words_and_comments() {
    let mut lexer = Lexer::new("word \\ this is a comment\nword2 ( and this ) word3");
    let tokens = lexer.parse();
    let expected = vec![
        Word(Data::new(0, 4, "word")),
        Comment(Data::new(5, 24, "\\ this is a comment")),
        Word(Data::new(25, 30, "word2")),
        Comment(Data::new(31, 43, "( and this )")),
        Word(Data::new(44, 49, "word3")),
    ];
    assert_eq!(tokens, expected)
}

#[test]
fn test_parse_words_on_lines() {
    let mut lexer = Lexer::new("some\nwords here\0");
    let tokens = lexer.parse();
    let expected = vec![
        Word(Data::new(0, 4, "some")),
        Word(Data::new(5, 10, "words")),
        Word(Data::new(11, 15, "here")),
    ];
    assert_eq!(tokens, expected)
}

#[test]
fn test_parse_number_literal() {
    let mut lexer = Lexer::new("12");
    let tokens = lexer.parse();
    let expected = vec![Number(Data::new(0, 2, "12"))];
    assert_eq!(tokens, expected)
}

#[test]
fn test_parse_number_oct() {
    let mut lexer = Lexer::new("&12");
    let tokens = lexer.parse();
    let expected = vec![Number(Data::new(0, 3, "&12"))];
    assert_eq!(tokens, expected)
}

#[test]
fn test_parse_number_bin() {
    let mut lexer = Lexer::new("%0100101");
    let tokens = lexer.parse();
    let expected = vec![Number(Data::new(0, 8, "%0100101"))];
    assert_eq!(tokens, expected);
}

#[test]
fn test_parse_number_hex() {
    let mut lexer = Lexer::new("$FfAaDd");
    let tokens = lexer.parse();
    let expected = vec![Number(Data::new(0, 7, "$FfAaDd"))];
    assert_eq!(tokens, expected)
}

#[test]
fn test_parse_number_0xhex() {
    let mut lexer = Lexer::new("0xFE");
    let tokens = lexer.parse();
    let expected = vec![Number(Data::new(0, 4, "0xFE"))];
    assert_eq!(tokens, expected)
}

#[test]
fn test_parse_number_char() {
    let mut lexer = Lexer::new("'c'");
    let tokens = lexer.parse();
    let expected = vec![Number(Data::new(0, 3, "'c'"))];
    assert_eq!(tokens, expected)
}

#[test]
fn test_parse_stack_comment() {
    let mut lexer = Lexer::new("( n1 n2 -- n3 )");
    let tokens = lexer.parse();
    let expected = vec![StackComment(Data::new(0, 15, "( n1 n2 -- n3 )"))];
    assert_eq!(tokens, expected)
}

#[test]
fn test_parse_regular_comment() {
    let mut lexer = Lexer::new("( this is just a comment )");
    let tokens = lexer.parse();
    let expected = vec![Comment(Data::new(0, 26, "( this is just a comment )"))];
    assert_eq!(tokens, expected)
}

#[test]
fn test_parse_stack_comment_complex() {
    let mut lexer = Lexer::new("( addr len -- addr' len' flag )");
    let tokens = lexer.parse();
    let expected = vec![StackComment(Data::new(0, 31, "( addr len -- addr' len' flag )"))];
    assert_eq!(tokens, expected)
}

#[test]
fn test_parse_line_comment() {
    let mut lexer = Lexer::new("\\ this is a line comment");
    let tokens = lexer.parse();
    let expected = vec![Comment(Data::new(0, 24, "\\ this is a line comment"))];
    assert_eq!(tokens, expected)
}

#[test]
fn test_parse_number_word() {
    let mut lexer = Lexer::new("word");
    let tokens = lexer.parse();
    let expected = vec![Word(Data::new(0, 4, "word"))];
    assert_eq!(tokens, expected)
}

#[test]
fn test_to_ropey() {
    let progn = "word1 word2 word3";
    let rope = ropey::Rope::from_str(progn);
    let mut lexer = Lexer::new(progn);
    let tokens = lexer.parse();
    let word2 = if let Some(Token::Word(word)) = tokens.get(1) {
        *word
    } else {
        Data::new(0, 0, "")
    };
    let x = rope.slice(word2.start..word2.end);
    assert_eq!("word2", word2.value);
    assert_eq!(word2.value, x);
}

// The unterminated-comment policy: scanning never fails, the comment runs to
// the end of the input and is still one token.
#[test]
fn test_parse_unterminated_paren_comment() {
    let mut lexer = Lexer::new(": test ( unclosed comment ;");
    let tokens = lexer.parse();
    let expected = vec![
        Colon(Data::new(0, 1, ":")),
        Word(Data::new(2, 6, "test")),
        Comment(Data::new(7, 27, "( unclosed comment ;")),
    ];
    assert_eq!(tokens, expected);
}

// The literal classification policy: each of these is one Number token
// spanning the whole literal.
#[test]
fn test_parse_literal_classification() {
    for lit in ["12", "&12", "%0101001", "$ffaadd", "0xFE", "'c'"] {
        let mut lexer = Lexer::new(lit);
        let tokens = lexer.parse();
        assert_eq!(tokens.len(), 1, "{}", lit);
        match &tokens[0] {
            Number(d) => {
                assert_eq!(d.start, 0);
                assert_eq!(d.end, lit.chars().count());
                assert_eq!(d.value, lit);
            }
            other => panic!("{} scanned as {:?}", lit, other),
        }
    }
}

// The round-trip property: the tokens' exact texts, with the original
// whitespace reinserted between them, reproduce the source exactly.
#[test]
fn test_parse_round_trip() {
    for src in [
        ": add1 ( n -- n )\n  1 + \\ adds one\n;",
        "word \\ comment\nword2 ( and this ) word3",
        "  leading spaces\tand tabs\r\n",
        ": 2swap rot >r rot r> ;",
        "%0101001 $ffaadd 0xFE 'c' &12 12",
        "",
        "   ",
    ] {
        let mut lexer = Lexer::new(src);
        let tokens = lexer.parse();
        let mut rebuilt = String::new();
        let mut pos = 0usize;
        for t in &tokens {
            let d = t.get_data();
            rebuilt.extend(src.chars().skip(pos).take(d.start - pos));
            rebuilt.push_str(d.value);
            pos = d.end;
        }
        rebuilt.extend(src.chars().skip(pos));
        assert_eq!(rebuilt, src);
    }
}

// reset rewinds the whole cursor: a second pass gives the same tokens.
#[test]
fn test_reset_restores_the_scanner() {
    let mut lexer = Lexer::new(": double 2 * ;");
    let first = lexer.parse();
    lexer.reset();
    let second = lexer.parse();
    assert_eq!(first, second);
    assert_eq!(first.len(), 5);
}

#[test]
fn test_next_token_returns_eof_at_end() {
    let mut lexer = Lexer::new("x");
    let first = lexer.next_token().unwrap();
    assert_eq!(first, Word(Data::new(0, 1, "x")));
    let second = lexer.next_token().unwrap();
    assert!(matches!(second, Eof(_)));
    assert_eq!(lexer.here().start, lexer.here().end);
}
