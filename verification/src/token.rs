//! The token-stream model: a parse position is an index into an immutable
//! sequence of tokens, so backtracking to a saved position is free.
//!
//! The lexer is an external collaborator; it hands identifiers and literals
//! to this library as interned symbols.

use vstd::prelude::*;

verus! {

/// An interned identifier symbol, assigned by the external lexer.
#[derive(Clone, Copy, Debug, PartialEq, Eq, Structural)]
pub struct Ident(pub u32);

/// An interned literal symbol (e.g. the `1` of a discriminant `Foo = 1`),
/// assigned by the external lexer.
#[derive(Clone, Copy, Debug, PartialEq, Eq, Structural)]
pub struct Lit(pub u32);

/// One lexical token of the declaration grammar.
#[derive(Clone, Copy, Debug, PartialEq, Eq, Structural)]
pub enum Token {
    /// An identifier, e.g. a variant or field name, or a path segment.
    Ident(Ident),
    /// A literal, e.g. a discriminant value.
    Lit(Lit),
    /// The keyword `pub`.
    KwPub,
    /// The keyword `crate`.
    KwCrate,
    /// The keyword `self`.
    KwSelfValue,
    /// The keyword `super`.
    KwSuper,
    /// The keyword `in`.
    KwIn,
    /// The punctuation `=`.
    Equals,
    /// The punctuation `:`.
    Colon,
    /// The punctuation `,`.
    Comma,
    /// The punctuation `::`.
    PathSep,
    /// The punctuation `#`.
    Pound,
    /// The delimiter `{`.
    OpenBrace,
    /// The delimiter `}`.
    CloseBrace,
    /// The delimiter `(`.
    OpenParen,
    /// The delimiter `)`.
    CloseParen,
    /// The delimiter `[`.
    OpenBracket,
    /// The delimiter `]`.
    CloseBracket,
}

/// The token at position `pos`, or `None` when `pos` lies outside the stream.
pub open spec fn tok_at(t: Seq<Token>, pos: int) -> Option<Token> {
    if 0 <= pos < t.len() {
        Some(t[pos])
    } else {
        None
    }
}

} // verus!
