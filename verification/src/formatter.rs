//! The source-code formatter: lays Forth source out according to a
//! [`FormatConfig`], either token by token or preserving the line breaks
//! inside colon definitions.

use vstd::prelude::*;
use vstd::string::StrSliceExecFns;
use crate::config::FormatConfig;
use crate::parser::{tokens_correspond, LexError, Lexer};
use crate::scan::{lemma_scan_ordered, lemma_scan_spans, spec_tokens};
use crate::strings::{
    push_char, repeat_str, skip_space_from, spec_skip_space, spec_upper, str_ends_with_char,
    str_ends_with_char_twice, str_eq, upper_str,
};
use crate::token::{token_matches, Token, TokenKind};

verus! {

/// Formats Forth source code according to the provided configuration.
#[derive(Debug)]
pub struct Formatter {
    pub config: FormatConfig,
}

/// Whether the comment text begins (after leading whitespace) with `(`.
pub open spec fn spec_is_paren_comment(s: Seq<char>) -> bool {
    spec_skip_space(s, 0) < s.len() && s[spec_skip_space(s, 0)] == '('
}

/// Whether the comment text begins (after leading whitespace) with `\`.
pub open spec fn spec_is_line_comment(s: Seq<char>) -> bool {
    spec_skip_space(s, 0) < s.len() && s[spec_skip_space(s, 0)] == '\\'
}

/// Whether the word is one the formatter treats as a defining word, the next
/// word being the declared name (case-insensitive).
pub open spec fn spec_is_defining_word(s: Seq<char>) -> bool {
    ||| spec_upper(s) == "CONSTANT"@
    ||| spec_upper(s) == "VARIABLE"@
    ||| spec_upper(s) == "VALUE"@
    ||| spec_upper(s) == "2CONSTANT"@
    ||| spec_upper(s) == "2VARIABLE"@
    ||| spec_upper(s) == "FVARIABLE"@
    ||| spec_upper(s) == "CREATE"@
    ||| spec_upper(s) == "DEFER"@
    ||| spec_upper(s) == "BUFFER:"@
}

impl Formatter {
    pub fn new(config: FormatConfig) -> (r: Formatter)
        ensures
            r.config == config,
    {
        Formatter { config }
    }

    /// Whether `word` is a defining word that declares a new symbol.
    fn is_defining_word(word: &str) -> (r: bool)
        ensures
            r == spec_is_defining_word(word@),
    {
        let u = upper_str(word);
        let us = u.as_str();
        str_eq(us, "CONSTANT") || str_eq(us, "VARIABLE") || str_eq(us, "VALUE") || str_eq(
            us,
            "2CONSTANT",
        ) || str_eq(us, "2VARIABLE") || str_eq(us, "FVARIABLE") || str_eq(us, "CREATE") || str_eq(
            us,
            "DEFER",
        ) || str_eq(us, "BUFFER:")
    }

    /// Whether the comment is a parenthetical comment (starts with `(`).
    fn is_paren_comment(comment: &str) -> (r: bool)
        ensures
            r == spec_is_paren_comment(comment@),
    {
        let t = skip_space_from(comment, 0);
        t < comment.unicode_len() && comment.get_char(t) == '('
    }

    /// Whether the comment is a line comment (starts with `\`).
    fn is_line_comment(comment: &str) -> (r: bool)
        ensures
            r == spec_is_line_comment(comment@),
    {
        let t = skip_space_from(comment, 0);
        t < comment.unicode_len() && comment.get_char(t) == '\\'
    }

    /// When blank lines between definitions are wanted, pad a non-empty
    /// output with line breaks until it ends in a blank line.
    fn force_blank_line_between_defns(&self, output: &mut String)
        ensures
            old(output)@.is_prefix_of(final(output)@),
            forall|k: int|
                old(output)@.len() <= k < final(output)@.len() ==> final(output)@[k] == '\n',
    {
        let ghost base = output@;
        while self.config.blank_line_between_definitions && output.as_str().unicode_len() != 0
            && !str_ends_with_char_twice(output.as_str(), '\n')
            invariant
                base.is_prefix_of(output@),
                forall|k: int| base.len() <= k < output@.len() ==> output@[k] == '\n',
            decreases 2int - (if output@.len() > 0 && output@[output@.len() - 1] == '\n' {
                1int + (if output@.len() > 1 && output@[output@.len() - 2] == '\n' {
                    1int
                } else {
                    0int
                })
            } else {
                0int
            }),
        {
            let ghost before = output@;
            push_char(output, '\n');
            proof {
                assert(output@ == before.push('\n'));
                assert(output@[output@.len() - 1] == '\n');
                if before.len() > 0 && before[before.len() - 1] == '\n' {
                    assert(output@[output@.len() - 2] == '\n');
                }
            }
        }
    }

    /// Append a colon definition while preserving its internal line breaks:
    /// the exact text from the `:` to the matching `;`, each line trimmed on
    /// the left and re-indented. The returned index is where formatting
    /// resumes, just after the definition.
    fn format_preserved_definition(
        &self,
        tokens: &Vec<Token>,
        colon_idx: usize,
        source: &str,
        output: &mut String,
    ) -> (r: usize)
        requires
            tokens_correspond(tokens@, spec_tokens(source@), source@),
            colon_idx < tokens@.len(),
        ensures
            colon_idx < r <= tokens@.len(),
    {
        let ghost s = source@;
        let ghost ms = spec_tokens(s);
        proof {
            lemma_scan_spans(s, 0);
            lemma_scan_ordered(s, 0);
            assert(token_matches(tokens@[colon_idx as int], ms[colon_idx as int], s));
        }
        let n = tokens.len();
        if tokens[colon_idx].kind() != TokenKind::Colon {
            return colon_idx + 1;
        }
        let colon_data = *tokens[colon_idx].get_data();

        let indent_str = if self.config.use_spaces {
            repeat_str(" ", self.config.indent_width)
        } else {
            String::from_str("\t")
        };

        self.force_blank_line_between_defns(output);

        // find the matching semicolon
        let mut semicolon_idx = colon_idx + 1;
        while semicolon_idx < n && tokens[semicolon_idx].kind() != TokenKind::Semicolon
            invariant
                n == tokens@.len(),
                colon_idx + 1 <= semicolon_idx <= n,
            decreases n - semicolon_idx,
        {
            semicolon_idx = semicolon_idx + 1;
        }

        if semicolon_idx < n {
            proof {
                assert(token_matches(tokens@[semicolon_idx as int], ms[semicolon_idx as int], s));
            }
            // the exact original text between : and ;
            let semi_data = *tokens[semicolon_idx].get_data();
            let def_text = source.substring_char(colon_data.start, semi_data.end);

            // re-emit it line by line, left-trimmed, indented from the
            // second line on
            let dl = def_text.unicode_len();
            let mut pos: usize = 0;
            let mut first_line = true;
            while pos < dl
                invariant
                    dl == def_text@.len(),
                    pos <= dl,
                ensures
                    true,
                decreases dl - pos,
            {
                let mut nl = pos;
                while nl < dl && def_text.get_char(nl) != '\n'
                    invariant
                        dl == def_text@.len(),
                        pos <= nl <= dl,
                    decreases dl - nl,
                {
                    nl = nl + 1;
                }
                let mut line_end = nl;
                if line_end > pos && def_text.get_char(line_end - 1) == '\r' {
                    line_end = line_end - 1;
                }
                if !first_line {
                    push_char(output, '\n');
                    output.append(indent_str.as_str());
                }
                let line = def_text.substring_char(pos, line_end);
                let trimmed_from = skip_space_from(line, 0);
                let line_len = line.unicode_len();
                output.append(line.substring_char(trimmed_from, line_len));
                first_line = false;
                if nl >= dl {
                    break ;
                }
                pos = nl + 1;
            }
            self.force_blank_line_between_defns(output);

            semicolon_idx + 1
        } else {
            // no matching semicolon: emit the colon alone
            push_char(output, ':');
            colon_idx + 1
        }
    }

    /// Append one token that stands outside any colon definition.
    fn format_non_definition_token(
        &self,
        token: &Token,
        output: &mut String,
        last_was_defining: &mut bool,
    ) {
        match token {
            Token::Comment(data) | Token::StackComment(data) => {
                let line_comment = Self::is_line_comment(data.value);
                let paren_comment = Self::is_paren_comment(data.value);

                // whether a line break belongs before the comment
                let newline_before = if paren_comment {
                    self.config.newline_before_paren_comments
                } else if line_comment {
                    self.config.newline_before_line_comments
                } else {
                    // stack comments always move to their own line
                    true
                };

                let out_len = output.as_str().unicode_len();
                if newline_before && out_len != 0 && !str_ends_with_char(output.as_str(), '\n') {
                    push_char(output, '\n');
                } else if !newline_before && out_len != 0 && !str_ends_with_char(
                    output.as_str(),
                    ' ',
                ) && !str_ends_with_char(output.as_str(), '\n') {
                    // keep inline comments separated by a space
                    push_char(output, ' ');
                }

                output.append(data.value);

                // a comment always ends its line here
                push_char(output, '\n');
                *last_was_defining = false;
            },
            Token::Word(data) | Token::Number(data) => {
                let defining = match token {
                    Token::Word(w) => Self::is_defining_word(w.value),
                    _ => false,
                };

                if output.as_str().unicode_len() != 0 && !str_ends_with_char(
                    output.as_str(),
                    '\n',
                ) {
                    push_char(output, ' ');
                }
                output.append(data.value);

                if *last_was_defining {
                    // this token was the declared name: end the line
                    push_char(output, '\n');
                    *last_was_defining = false;
                } else if defining {
                    // the next token will be the declared name
                    *last_was_defining = true;
                }
            },
            Token::Semicolon(_) => {
                output.append(" ;");
                *last_was_defining = false;
            },
            Token::Illegal(_) | Token::Eof(_) => {
                *last_was_defining = false;
            },
            Token::Colon(_) => {
                // colon definitions are handled by the caller
                *last_was_defining = false;
            },
        }
    }

    /// Format tokens while preserving the line breaks within definitions.
    fn format_tokens_preserve_newlines(&self, tokens: &Vec<Token>, source: &str) -> (r: String)
        requires
            tokens_correspond(tokens@, spec_tokens(source@), source@),
        ensures
            r@.len() > 0,
            r@[r@.len() - 1] == '\n',
    {
        let mut output = String::new();
        let n = tokens.len();
        let mut i: usize = 0;
        let mut last_was_defining = false;
        while i < n
            invariant
                tokens_correspond(tokens@, spec_tokens(source@), source@),
                n == tokens@.len(),
                i <= n,
            decreases n - i,
        {
            if tokens[i].kind() == TokenKind::Eof {
                break ;
            }
            if tokens[i].kind() == TokenKind::Colon {
                i = self.format_preserved_definition(tokens, i, source, &mut output);
                last_was_defining = false;
            } else {
                self.format_non_definition_token(&tokens[i], &mut output, &mut last_was_defining);
                i = i + 1;
            }
        }
        if !str_ends_with_char(output.as_str(), '\n') {
            push_char(&mut output, '\n');
        }
        output
    }

    /// Format a token list from scratch according to the configuration.
    fn format_tokens(&self, tokens: &Vec<Token>) -> (r: String)
        ensures
            r@.len() > 0,
            r@[r@.len() - 1] == '\n',
    {
        let mut output = String::new();
        let mut indent_level: usize = 0;
        let mut in_definition = false;
        let mut line_start = true;
        let mut prev_was_colon = false;
        let mut is_first_word_after_colon = false;
        let mut just_printed_stack_comment = false;
        let mut awaiting_potential_stack_comment = false;

        let indent_str = if self.config.use_spaces {
            repeat_str(" ", self.config.indent_width)
        } else {
            String::from_str("\t")
        };

        let n = tokens.len();
        let mut i: usize = 0;
        while i < n
            invariant
                n == tokens@.len(),
                i <= n,
            decreases n - i,
        {
            let token = &tokens[i];
            match token {
                Token::Eof(_) => {
                    break ;
                },
                Token::Colon(_) => {
                    self.force_blank_line_between_defns(&mut output);

                    if !line_start {
                        push_char(&mut output, '\n');
                    }
                    let pad = repeat_str(indent_str.as_str(), indent_level);
                    output.append(pad.as_str());
                    push_char(&mut output, ':');
                    in_definition = true;
                    prev_was_colon = true;
                    is_first_word_after_colon = true;
                    line_start = false;

                    if self.config.space_after_colon {
                        push_char(&mut output, ' ');
                    }

                    if self.config.indent_control_structures {
                        indent_level = indent_level.saturating_add(1);
                    }
                },
                Token::Semicolon(_) => {
                    if self.config.indent_control_structures {
                        indent_level = indent_level.saturating_sub(1);
                    }

                    if !line_start {
                        let gap = repeat_str(" ", self.config.word_spacing);
                        output.append(gap.as_str());
                    }
                    push_char(&mut output, ';');
                    push_char(&mut output, '\n');
                    in_definition = false;
                    prev_was_colon = false;
                    line_start = true;
                },
                Token::StackComment(data) => {
                    if awaiting_potential_stack_comment {
                        // a stack comment right after the definition name
                        if !self.config.stack_comment_on_declaration_line
                            && self.config.indent_control_structures {
                            push_char(&mut output, '\n');
                            let pad = repeat_str(indent_str.as_str(), indent_level);
                            output.append(pad.as_str());
                            output.append(data.value);
                        } else {
                            push_char(&mut output, ' ');
                            output.append(data.value);
                        }
                        just_printed_stack_comment = true;
                        awaiting_potential_stack_comment = false;
                        is_first_word_after_colon = false;
                    } else {
                        if !line_start {
                            push_char(&mut output, ' ');
                        }
                        output.append(data.value);
                    }
                    prev_was_colon = false;
                },
                Token::Comment(data) => {
                    let line_comment = Self::is_line_comment(data.value);
                    let paren_comment = Self::is_paren_comment(data.value);

                    let newline_before = if paren_comment {
                        self.config.newline_before_paren_comments
                    } else if line_comment {
                        self.config.newline_before_line_comments
                    } else {
                        false
                    };

                    if newline_before {
                        if !line_start {
                            push_char(&mut output, '\n');
                            line_start = true;
                        }
                    } else {
                        if !line_start && !prev_was_colon {
                            push_char(&mut output, ' ');
                        }
                    }

                    output.append(data.value);

                    // a line comment consumes the rest of its line
                    if line_comment {
                        push_char(&mut output, '\n');
                        line_start = true;
                    }

                    prev_was_colon = false;
                    is_first_word_after_colon = false;
                    just_printed_stack_comment = false;
                },
                Token::Word(data) | Token::Number(data) => {
                    if awaiting_potential_stack_comment
                        && self.config.indent_control_structures {
                        push_char(&mut output, '\n');
                        line_start = true;
                        awaiting_potential_stack_comment = false;
                    }

                    if just_printed_stack_comment && self.config.indent_control_structures {
                        push_char(&mut output, '\n');
                        line_start = true;
                        just_printed_stack_comment = false;
                    }

                    let word_upper = upper_str(data.value);
                    let wu = word_upper.as_str();
                    let control_start = str_eq(wu, "IF") || str_eq(wu, "DO") || str_eq(
                        wu,
                        "BEGIN",
                    ) || str_eq(wu, "CASE") || str_eq(wu, "OF");
                    let control_mid = str_eq(wu, "ELSE");
                    let control_end = str_eq(wu, "THEN") || str_eq(wu, "LOOP") || str_eq(
                        wu,
                        "+LOOP",
                    ) || str_eq(wu, "UNTIL") || str_eq(wu, "REPEAT") || str_eq(wu, "ENDCASE")
                        || str_eq(wu, "ENDOF");

                    // control words open their own line
                    if self.config.indent_control_structures && in_definition && !line_start
                        && !is_first_word_after_colon && (control_start || control_mid
                        || control_end) {
                        push_char(&mut output, '\n');
                        line_start = true;

                        if control_mid || control_end {
                            indent_level = indent_level.saturating_sub(1);
                        }
                    }

                    if line_start {
                        let pad = repeat_str(indent_str.as_str(), indent_level);
                        output.append(pad.as_str());
                        line_start = false;
                    } else if !prev_was_colon {
                        let gap = repeat_str(" ", self.config.word_spacing);
                        output.append(gap.as_str());
                    }

                    output.append(data.value);
                    prev_was_colon = false;

                    if is_first_word_after_colon {
                        // the definition name; a stack comment may follow
                        is_first_word_after_colon = false;
                        awaiting_potential_stack_comment = true;
                    } else {
                        if self.config.indent_control_structures && in_definition && (
                        control_start || control_mid) {
                            indent_level = indent_level.saturating_add(1);
                            push_char(&mut output, '\n');
                            line_start = true;
                        }
                    }
                },
                Token::Illegal(_) => {},
            }
            i = i + 1;
        }

        if !str_ends_with_char(output.as_str(), '\n') {
            push_char(&mut output, '\n');
        }
        output
    }

    /// Format a whole source text. Formatting never fails: the result is a
    /// non-empty text ending in a line break.
    pub fn format_source(&self, source: &str) -> (r: Result<String, LexError>)
        ensures
            r matches Ok(out) && out@.len() > 0 && out@[out@.len() - 1] == '\n',
    {
        let mut lexer = Lexer::new(source);
        let tokens = lexer.parse();

        let formatted = if self.config.preserve_definition_newlines {
            self.format_tokens_preserve_newlines(&tokens, source)
        } else {
            self.format_tokens(&tokens)
        };
        Ok(formatted)
    }
}

} // verus!
