//! The parser and the pattern matcher, which are not verified here, and
//! what this library takes on trust about them.
//!
//! Nothing is claimed of what the parser makes of a text, of which patterns
//! the compiler accepts, or of what the matcher finds: each of them reads
//! characters by the character classes of the machine it runs on. What is
//! claimed is that the calls return, on the inputs that they are given
//! here, which grammar and which text a result belongs to, and that the
//! numbers of a node fit in 32 bits.

use vstd::prelude::*;
use crate::pattern::is_analysis_pattern;
use crate::span::{all_fit_32_bits, match_views, NodeSpan, QueryMatch};

verus! {

/// A grammar of the parsing library. Nothing inside it is seen here.
#[verifier::external_type_specification]
#[verifier::external_body]
pub struct ExLanguage(tree_sitter::Language);

/// A syntax tree of the parsing library. Nothing inside it is seen here.
#[verifier::external_type_specification]
#[verifier::external_body]
pub struct ExTree(tree_sitter::Tree);

/// A compiled pattern of the parsing library. Nothing inside it is seen here.
#[verifier::external_type_specification]
#[verifier::external_body]
pub struct ExQuery(tree_sitter::Query);

/// The parsing library's report on a pattern that it rejected.
#[verifier::external_type_specification]
#[verifier::external_body]
pub struct ExQueryError(tree_sitter::QueryError);

/// The syntax tree of one text, held together with that text and with the
/// grammar it was parsed under. Only `parse` makes one.
pub struct SyntaxTree<'a> {
    language: tree_sitter::Language,
    text: &'a str,
    tree: tree_sitter::Tree,
}

impl<'a> SyntaxTree<'a> {
    /// The grammar that the tree was parsed under.
    pub closed spec fn grammar(&self) -> tree_sitter::Language {
        self.language
    }

    /// The text that the tree was parsed from.
    pub closed spec fn text(&self) -> Seq<char> {
        self.text@
    }
}

/// A compiled pattern, held together with the grammar it was compiled for.
/// Only `compile` makes one.
pub struct CompiledPattern {
    language: tree_sitter::Language,
    query: tree_sitter::Query,
}

impl CompiledPattern {
    /// The grammar that the pattern was compiled for.
    pub closed spec fn grammar(&self) -> tree_sitter::Language {
        self.language
    }
}

/// `tree_sitter_c_sharp::language`: the C# grammar. Nothing is claimed of it.
pub assume_specification[ tree_sitter_c_sharp::language ]() -> (language: tree_sitter::Language)
;

/// `tree_sitter::Parser::parse` on a parser fresh from `Parser::new` that
/// `Parser::set_language` has given `language`; no tree where the parser
/// refuses the grammar. Nothing is claimed of the tree. Claimed: what comes
/// back holds the text and the grammar that went in.
#[verifier::external_body]
pub(crate) fn parse<'a>(language: tree_sitter::Language, text: &'a str) -> (parsed: Option<
    SyntaxTree<'a>,
>)
    ensures
        parsed matches Some(tree) ==> tree.text() == text@ && tree.grammar() == language,
{
    let mut parser = tree_sitter::Parser::new();
    parser.set_language(language).ok()?;
    let tree = parser.parse(text, None)?;
    Some(SyntaxTree { language, text, tree })
}

/// `tree_sitter::Query::new`. Nothing is claimed of whether the pattern is
/// accepted. Claimed: what comes back on success holds the grammar that went
/// in. Only the two patterns of this library are handed over, each with a
/// plain name in its gap: on a pattern whose last characters are an unknown
/// name the function panics, and it descends once for each bracket that a
/// pattern opens inside another; these patterns end in a line feed and nest
/// five deep at most.
#[verifier::external_body]
pub(crate) fn compile(language: tree_sitter::Language, pattern: &str) -> (compiled: Result<
    CompiledPattern,
    tree_sitter::QueryError,
>)
    requires
        is_analysis_pattern(pattern@),
    ensures
        compiled matches Ok(ready) ==> ready.grammar() == language,
{
    tree_sitter::Query::new(language, pattern).map(|query| CompiledPattern { language, query })
}

/// `tree_sitter::QueryCursor::matches` on a fresh cursor, from the root of
/// the tree and over the text that the tree was parsed from, each capture
/// handed out as the span of its node. Nothing is claimed of which nodes
/// match. Claimed: every offset, row and column fits in 32 bits, which is
/// how the parsing library holds them. The pattern must have been compiled
/// for the tree's grammar: the matcher looks the tree's nodes up in the
/// tables of the pattern's grammar.
#[verifier::external_body]
pub(crate) fn run_query(pattern: &CompiledPattern, tree: &SyntaxTree) -> (found: Vec<QueryMatch>)
    requires
        pattern.grammar() == tree.grammar(),
    ensures
        all_fit_32_bits(match_views(found@)),
{
    let mut cursor = tree_sitter::QueryCursor::new();
    let found = cursor.matches(&pattern.query, tree.tree.root_node(), tree.text.as_bytes());
    found.map(|m| QueryMatch {
        captures: m.captures.iter().map(|c| c.node.range()).map(|r| NodeSpan::new(
            r.start_byte,
            r.end_byte,
            r.start_point.row,
            r.start_point.column,
            r.end_point.row,
            r.end_point.column,
        )).collect(),
    }).collect()
}

} // verus!
