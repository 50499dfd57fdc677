//! Configuration of the formatter and of the extra built-in vocabulary. The
//! host loads these from its configuration file and hands them in as plain
//! values.

use vstd::prelude::*;

verus! {

/// Formatter configuration.
#[derive(Debug, Clone)]
pub struct FormatConfig {
    /// Number of spaces for indentation.
    pub indent_width: usize,
    /// Use spaces instead of tabs.
    pub use_spaces: bool,
    /// Add a space after the colon of a definition (`: word` vs `:word`).
    pub space_after_colon: bool,
    /// Add a space before the semicolon of a definition (`word ;` vs `word;`).
    pub space_before_semicolon: bool,
    /// Spaces between words (one or more).
    pub word_spacing: usize,
    /// Indent control structures (IF/THEN, DO/LOOP and their kin).
    pub indent_control_structures: bool,
    /// Keep a stack comment on the same line as the colon declaration.
    pub stack_comment_on_declaration_line: bool,
    /// Preserve manual line breaks inside `: ... ;` blocks.
    pub preserve_definition_newlines: bool,
    /// Force a line break before parenthetical comments.
    pub newline_before_paren_comments: bool,
    /// Force a line break before line comments.
    pub newline_before_line_comments: bool,
    /// Put a blank line before each colon definition but the first.
    pub blank_line_between_definitions: bool,
}

pub fn default_indent_width() -> (r: usize)
    ensures
        r == 2,
{
    2
}

pub fn default_use_spaces() -> (r: bool)
    ensures
        r,
{
    true
}

pub fn default_true() -> (r: bool)
    ensures
        r,
{
    true
}

pub fn default_word_spacing() -> (r: usize)
    ensures
        r == 1,
{
    1
}

impl Default for FormatConfig {
    /// The default formatting style: two-space indentation, indented control
    /// structures, a space after the colon, stack comments on the
    /// declaration line, and a blank line between definitions.
    fn default() -> (r: FormatConfig)
        ensures
            r.indent_width == 2,
            r.use_spaces,
            r.space_after_colon,
            !r.space_before_semicolon,
            r.word_spacing == 1,
            r.indent_control_structures,
            r.stack_comment_on_declaration_line,
            !r.preserve_definition_newlines,
            !r.newline_before_paren_comments,
            !r.newline_before_line_comments,
            r.blank_line_between_definitions,
    {
        FormatConfig {
            indent_width: default_indent_width(),
            use_spaces: default_use_spaces(),
            space_after_colon: default_true(),
            space_before_semicolon: false,
            word_spacing: default_word_spacing(),
            indent_control_structures: default_true(),
            stack_comment_on_declaration_line: default_true(),
            preserve_definition_newlines: false,
            newline_before_paren_comments: false,
            newline_before_line_comments: false,
            blank_line_between_definitions: default_true(),
        }
    }
}

/// A custom word the user's own Forth system defines.
#[derive(Debug, Clone)]
pub struct CustomWord {
    /// The word's name (for instance `DUP` or `LOADFROM`).
    pub word: String,
    /// Its stack-effect notation, when given.
    pub stack: Option<String>,
    /// A description of what the word does, when given.
    pub description: Option<String>,
}

/// The extra built-in vocabulary from the user's configuration.
#[derive(Debug, Clone)]
pub struct BuiltinConfig {
    /// Additional built-in words of the user's Forth system.
    pub words: Vec<CustomWord>,
}

impl Default for BuiltinConfig {
    /// No extra vocabulary.
    fn default() -> (r: BuiltinConfig)
        ensures
            r.words@.len() == 0,
    {
        BuiltinConfig { words: Vec::new() }
    }
}

/// The whole configuration.
#[derive(Debug, Clone)]
pub struct Config {
    pub format: FormatConfig,
    pub builtin: BuiltinConfig,
}

impl Default for Config {
    /// Default formatting and no extra vocabulary.
    fn default() -> (r: Config)
        ensures
            r.format.indent_width == 2,
            r.format.use_spaces,
            r.format.space_after_colon,
            !r.format.space_before_semicolon,
            r.format.word_spacing == 1,
            r.format.indent_control_structures,
            r.builtin.words@.len() == 0,
    {
        Config { format: FormatConfig::default(), builtin: BuiltinConfig::default() }
    }
}

} // verus!
