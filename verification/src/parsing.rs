//! The parser: one entry point per node type, built from the classic
//! combinator discipline — sequencing, ordered alternation with backtracking,
//! zero-or-more repetition, optional, and delimited comma-separated lists.
//!
//! Every parse routine is a pure function of the token stream and a start
//! position.  Each grammar production is first defined as a spec function
//! (`spec_parse_*`) returning either the parsed node's view and the position
//! after it, or the position of the mismatch; each executable routine is
//! proved to return exactly that.  Backtracking is position-restore: a failed
//! branch consumes nothing, so the enclosing alternation retries the next
//! branch from the same position.

use crate::ast::{
    Attribute, Expr, Field, FieldV, Fields, FieldsNamed, FieldsNamedV, FieldsUnnamed,
    FieldsUnnamedV, FieldsV, Path, PathSeg, Type, Variant, VariantV, VisRestricted,
    VisRestrictedV, VisibilityV, Visibility, fields_view,
};
use crate::token::{tok_at, Token};
use vstd::prelude::*;

verus! {

/// A parse failure: the token position where the mismatch occurred.
/// A descriptive label for the construct a failed entry point attempted to
/// recognize is supplied separately by that node type's `description`.
#[derive(Clone, Copy, Debug, PartialEq, Eq, Structural)]
pub struct ParseError {
    /// The position of the offending token (the stream length when the
    /// stream ended too early).
    pub pos: usize,
}

/// The outcome of a spec-level parse: the parsed node and the position just
/// after it, or the position of the mismatch.
pub enum PRes<T> {
    /// The production matched `t[pos..next]` and yielded `node`.
    Found { node: T, next: int },
    /// The production failed at position `at`, consuming nothing.
    Failed { at: int },
}

/// Parses one outer attribute: `#`, `[`, a name, `]`.
pub open spec fn spec_parse_attr(t: Seq<Token>, pos: int) -> PRes<Attribute> {
    if tok_at(t, pos) != Some(Token::Pound) {
        PRes::Failed { at: pos }
    } else if tok_at(t, pos + 1) != Some(Token::OpenBracket) {
        PRes::Failed { at: pos + 1 }
    } else {
        match tok_at(t, pos + 2) {
            Some(Token::Ident(id)) => {
                if tok_at(t, pos + 3) != Some(Token::CloseBracket) {
                    PRes::Failed { at: pos + 3 }
                } else {
                    PRes::Found { node: Attribute { ident: id }, next: pos + 4 }
                }
            },
            _ => PRes::Failed { at: pos + 2 },
        }
    }
}

/// Parses zero or more outer attributes.  Repetition never fails: it stops at
/// the first position where no attribute matches.
pub open spec fn spec_parse_attrs(t: Seq<Token>, pos: int) -> (Seq<Attribute>, int)
    decreases t.len() - pos,
{
    match spec_parse_attr(t, pos) {
        PRes::Found { node, next } => {
            if pos < next <= t.len() {
                let (rest, end) = spec_parse_attrs(t, next);
                (seq![node] + rest, end)
            } else {
                (Seq::empty(), pos)
            }
        },
        PRes::Failed { .. } => (Seq::empty(), pos),
    }
}

/// Parses one path segment: an identifier or one of the keyword segments
/// `self`, `super`, `crate`.
pub open spec fn spec_parse_seg(t: Seq<Token>, pos: int) -> PRes<PathSeg> {
    match tok_at(t, pos) {
        Some(Token::Ident(i)) => PRes::Found { node: PathSeg::Ident(i), next: pos + 1 },
        Some(Token::KwSelfValue) => PRes::Found { node: PathSeg::SelfValue, next: pos + 1 },
        Some(Token::KwSuper) => PRes::Found { node: PathSeg::Super, next: pos + 1 },
        Some(Token::KwCrate) => PRes::Found { node: PathSeg::Crate, next: pos + 1 },
        _ => PRes::Failed { at: pos },
    }
}

/// Parses zero or more `::`-prefixed path segments.  Stops, consuming
/// nothing further, as soon as no `::` followed by a segment matches.
pub open spec fn spec_parse_path_rest(t: Seq<Token>, pos: int) -> (Seq<PathSeg>, int)
    decreases t.len() - pos,
{
    if tok_at(t, pos) == Some(Token::PathSep) {
        match spec_parse_seg(t, pos + 1) {
            PRes::Found { node, next } => {
                if pos < next <= t.len() {
                    let (rest, end) = spec_parse_path_rest(t, next);
                    (seq![node] + rest, end)
                } else {
                    (Seq::empty(), pos)
                }
            },
            PRes::Failed { .. } => (Seq::empty(), pos),
        }
    } else {
        (Seq::empty(), pos)
    }
}

/// Parses a module-style path: one segment, then zero or more `::` segments.
pub open spec fn spec_parse_path(t: Seq<Token>, pos: int) -> PRes<Seq<PathSeg>> {
    match spec_parse_seg(t, pos) {
        PRes::Found { node, next } => {
            let (rest, end) = spec_parse_path_rest(t, next);
            PRes::Found { node: seq![node] + rest, next: end }
        },
        PRes::Failed { at } => PRes::Failed { at },
    }
}

/// Parses a visibility qualifier by ordered alternation, most specific
/// branch first:
/// 1. `pub ( crate )`;
/// 2. `pub ( self )`;
/// 3. `pub ( super )`;
/// 4. `pub ( in path )`;
/// 5. bare `pub`;
/// 6. nothing consumed (`Inherited`).
/// Each failed branch backtracks to `pos`, so `pub` followed by parenthesized
/// content matching none of branches 1-4 is a bare `pub` (branch 5), and the
/// qualifier as a whole never fails.  The ordering is load-bearing: `pub (`
/// is a prefix of what branch 5 would over-eagerly accept.
pub open spec fn spec_parse_visibility(t: Seq<Token>, pos: int) -> (VisibilityV, int) {
    if tok_at(t, pos) == Some(Token::KwPub) {
        if tok_at(t, pos + 1) == Some(Token::OpenParen) {
            if tok_at(t, pos + 2) == Some(Token::KwCrate) && tok_at(t, pos + 3) == Some(
                Token::CloseParen,
            ) {
                (VisibilityV::Crate, pos + 4)
            } else if tok_at(t, pos + 2) == Some(Token::KwSelfValue) && tok_at(t, pos + 3) == Some(
                Token::CloseParen,
            ) {
                (
                    VisibilityV::Restricted(
                        VisRestrictedV { in_token: false, path: seq![PathSeg::SelfValue] },
                    ),
                    pos + 4,
                )
            } else if tok_at(t, pos + 2) == Some(Token::KwSuper) && tok_at(t, pos + 3) == Some(
                Token::CloseParen,
            ) {
                (
                    VisibilityV::Restricted(
                        VisRestrictedV { in_token: false, path: seq![PathSeg::Super] },
                    ),
                    pos + 4,
                )
            } else if tok_at(t, pos + 2) == Some(Token::KwIn) {
                match spec_parse_path(t, pos + 3) {
                    PRes::Found { node, next } => {
                        if tok_at(t, next) == Some(Token::CloseParen) {
                            (
                                VisibilityV::Restricted(
                                    VisRestrictedV { in_token: true, path: node },
                                ),
                                next + 1,
                            )
                        } else {
                            (VisibilityV::Public, pos + 1)
                        }
                    },
                    PRes::Failed { .. } => (VisibilityV::Public, pos + 1),
                }
            } else {
                (VisibilityV::Public, pos + 1)
            }
        } else {
            (VisibilityV::Public, pos + 1)
        }
    } else {
        (VisibilityV::Inherited, pos)
    }
}

/// Parses a discriminant expression: a single literal or identifier token.
/// The full expression grammar is an external collaborator.
pub open spec fn spec_parse_expr(t: Seq<Token>, pos: int) -> PRes<Expr> {
    match tok_at(t, pos) {
        Some(Token::Lit(l)) => PRes::Found { node: Expr::Lit(l), next: pos + 1 },
        Some(Token::Ident(i)) => PRes::Found { node: Expr::Ident(i), next: pos + 1 },
        _ => PRes::Failed { at: pos },
    }
}

/// Parses one field: attributes, visibility, then — for a named field — its
/// name, a colon and its type, or — for an unnamed field — just its type.
pub open spec fn spec_parse_field(t: Seq<Token>, pos: int, named: bool) -> PRes<FieldV> {
    let (attrs, p1) = spec_parse_attrs(t, pos);
    let (vis, p2) = spec_parse_visibility(t, p1);
    if named {
        match tok_at(t, p2) {
            Some(Token::Ident(id)) => {
                if tok_at(t, p2 + 1) != Some(Token::Colon) {
                    PRes::Failed { at: p2 + 1 }
                } else {
                    match spec_parse_path(t, p2 + 2) {
                        PRes::Found { node, next } => PRes::Found {
                            node: FieldV { attrs, vis, ident: Some(id), colon: true, ty: node },
                            next,
                        },
                        PRes::Failed { at } => PRes::Failed { at },
                    }
                }
            },
            _ => PRes::Failed { at: p2 },
        }
    } else {
        match spec_parse_path(t, p2) {
            PRes::Found { node, next } => PRes::Found {
                node: FieldV { attrs, vis, ident: None, colon: false, ty: node },
                next,
            },
            PRes::Failed { at } => PRes::Failed { at },
        }
    }
}

/// The closing delimiter of a field list.
pub open spec fn spec_close_delim(named: bool) -> Token {
    if named {
        Token::CloseBrace
    } else {
        Token::CloseParen
    }
}

/// Parses the comma-separated body of a delimited field list, up to but not
/// including the closing delimiter: zero or more fields separated by commas,
/// with an optional trailing comma.  Returns the fields, whether a trailing
/// comma was consumed, and the position of the expected closing delimiter.
pub open spec fn spec_parse_field_list(t: Seq<Token>, pos: int, named: bool) -> PRes<
    (Seq<FieldV>, bool),
>
    decreases t.len() - pos,
{
    if tok_at(t, pos) == Some(spec_close_delim(named)) {
        PRes::Found { node: (Seq::empty(), false), next: pos }
    } else {
        match spec_parse_field(t, pos, named) {
            PRes::Found { node, next } => {
                if pos < next <= t.len() {
                    if tok_at(t, next) == Some(Token::Comma) {
                        match spec_parse_field_list(t, next + 1, named) {
                            PRes::Found { node: rest, next: end } => {
                                if rest.0.len() == 0 {
                                    PRes::Found { node: (seq![node], true), next: end }
                                } else {
                                    PRes::Found { node: (seq![node] + rest.0, rest.1), next: end }
                                }
                            },
                            PRes::Failed { at } => PRes::Failed { at },
                        }
                    } else {
                        PRes::Found { node: (seq![node], false), next }
                    }
                } else {
                    PRes::Failed { at: next }
                }
            },
            PRes::Failed { at } => PRes::Failed { at },
        }
    }
}

/// Parses named fields: a brace-delimited, comma-separated field list.
/// Fails at the position where the closing brace is missing or mismatched.
pub open spec fn spec_parse_fields_named(t: Seq<Token>, pos: int) -> PRes<FieldsNamedV> {
    if tok_at(t, pos) != Some(Token::OpenBrace) {
        PRes::Failed { at: pos }
    } else {
        match spec_parse_field_list(t, pos + 1, true) {
            PRes::Found { node, next } => {
                if tok_at(t, next) == Some(Token::CloseBrace) {
                    PRes::Found {
                        node: FieldsNamedV { fields: node.0, trailing: node.1 },
                        next: next + 1,
                    }
                } else {
                    PRes::Failed { at: next }
                }
            },
            PRes::Failed { at } => PRes::Failed { at },
        }
    }
}

/// Parses unnamed fields: a paren-delimited, comma-separated field list.
/// Fails at the position where the closing paren is missing or mismatched.
pub open spec fn spec_parse_fields_unnamed(t: Seq<Token>, pos: int) -> PRes<FieldsUnnamedV> {
    if tok_at(t, pos) != Some(Token::OpenParen) {
        PRes::Failed { at: pos }
    } else {
        match spec_parse_field_list(t, pos + 1, false) {
            PRes::Found { node, next } => {
                if tok_at(t, next) == Some(Token::CloseParen) {
                    PRes::Found {
                        node: FieldsUnnamedV { fields: node.0, trailing: node.1 },
                        next: next + 1,
                    }
                } else {
                    PRes::Failed { at: next }
                }
            },
            PRes::Failed { at } => PRes::Failed { at },
        }
    }
}

/// Parses a fields node by ordered alternation: named fields, else unnamed
/// fields, else the empty catch-all `Unit`.  Never fails; each failed branch
/// backtracks to `pos`.
pub open spec fn spec_parse_fields(t: Seq<Token>, pos: int) -> (FieldsV, int) {
    match spec_parse_fields_named(t, pos) {
        PRes::Found { node, next } => (FieldsV::Named(node), next),
        PRes::Failed { .. } => match spec_parse_fields_unnamed(t, pos) {
            PRes::Found { node, next } => (FieldsV::Unnamed(node), next),
            PRes::Failed { .. } => (FieldsV::Unit, pos),
        },
    }
}

/// Parses an enum variant: attributes, a name, a fields node, then an
/// optional `=` and discriminant expression.  The optional suffix backtracks:
/// an `=` not followed by an expression is left unconsumed.
pub open spec fn spec_parse_variant(t: Seq<Token>, pos: int) -> PRes<VariantV> {
    let (attrs, p1) = spec_parse_attrs(t, pos);
    match tok_at(t, p1) {
        Some(Token::Ident(id)) => {
            let (fields, p2) = spec_parse_fields(t, p1 + 1);
            if tok_at(t, p2) == Some(Token::Equals) {
                match spec_parse_expr(t, p2 + 1) {
                    PRes::Found { node, next } => PRes::Found {
                        node: VariantV { attrs, ident: id, fields, discriminant: Some(node) },
                        next,
                    },
                    PRes::Failed { .. } => PRes::Found {
                        node: VariantV { attrs, ident: id, fields, discriminant: None },
                        next: p2,
                    },
                }
            } else {
                PRes::Found {
                    node: VariantV { attrs, ident: id, fields, discriminant: None },
                    next: p2,
                }
            }
        },
        _ => PRes::Failed { at: p1 },
    }
}

impl Attribute {
    /// Parses one outer attribute.
    pub fn parse(toks: &Vec<Token>, pos: usize) -> (r: Result<(Attribute, usize), ParseError>)
        requires
            pos <= toks.len(),
        ensures
            spec_parse_attr(toks@, pos as int) matches PRes::Found { node, next } ==> (r matches Ok(
                p,
            ) && p.0 == node && p.1 as int == next && pos < p.1 && p.1 <= toks.len()),
            spec_parse_attr(toks@, pos as int) matches PRes::Failed { at } ==> (r matches Err(e)
                && e.pos as int == at),
    {
        if pos < toks.len() && toks[pos] == Token::Pound {
            if pos + 1 < toks.len() && toks[pos + 1] == Token::OpenBracket {
                if pos + 2 < toks.len() {
                    if let Token::Ident(id) = toks[pos + 2] {
                        if pos + 3 < toks.len() && toks[pos + 3] == Token::CloseBracket {
                            return Ok((Attribute { ident: id }, pos + 4));
                        }
                        return Err(ParseError { pos: pos + 3 });
                    }
                }
                return Err(ParseError { pos: pos + 2 });
            }
            return Err(ParseError { pos: pos + 1 });
        }
        Err(ParseError { pos })
    }

    /// Parses zero or more outer attributes, returning them with the position
    /// after the last one.  Repetition never fails.
    pub fn parse_outer(toks: &Vec<Token>, pos: usize) -> (r: (Vec<Attribute>, usize))
        requires
            pos <= toks.len(),
        ensures
            r.0@ == spec_parse_attrs(toks@, pos as int).0,
            r.1 as int == spec_parse_attrs(toks@, pos as int).1,
            pos <= r.1 && r.1 <= toks.len(),
        decreases toks.len() - pos,
    {
        match Attribute::parse(toks, pos) {
            Ok((a, p2)) => {
                let (mut rest, end) = Attribute::parse_outer(toks, p2);
                let ghost pre = rest@;
                rest.insert(0, a);
                proof {
                    assert(rest@ =~= seq![a] + pre);
                }
                (rest, end)
            },
            Err(_) => {
                let r: Vec<Attribute> = Vec::new();
                proof {
                    assert(r@ =~= spec_parse_attrs(toks@, pos as int).0);
                }
                (r, pos)
            },
        }
    }
}

/// Parses one path segment.
fn parse_seg(toks: &Vec<Token>, pos: usize) -> (r: Result<(PathSeg, usize), ParseError>)
    requires
        pos <= toks.len(),
    ensures
        spec_parse_seg(toks@, pos as int) matches PRes::Found { node, next } ==> (r matches Ok(p)
            && p.0 == node && p.1 as int == next && pos < p.1 && p.1 <= toks.len()),
        spec_parse_seg(toks@, pos as int) matches PRes::Failed { at } ==> (r matches Err(e)
            && e.pos as int == at),
{
    if pos < toks.len() {
        match toks[pos] {
            Token::Ident(i) => Ok((PathSeg::Ident(i), pos + 1)),
            Token::KwSelfValue => Ok((PathSeg::SelfValue, pos + 1)),
            Token::KwSuper => Ok((PathSeg::Super, pos + 1)),
            Token::KwCrate => Ok((PathSeg::Crate, pos + 1)),
            _ => Err(ParseError { pos }),
        }
    } else {
        Err(ParseError { pos })
    }
}

/// Parses zero or more `::`-prefixed path segments.
fn parse_path_rest(toks: &Vec<Token>, pos: usize) -> (r: (Vec<PathSeg>, usize))
    requires
        pos <= toks.len(),
    ensures
        r.0@ == spec_parse_path_rest(toks@, pos as int).0,
        r.1 as int == spec_parse_path_rest(toks@, pos as int).1,
        pos <= r.1 && r.1 <= toks.len(),
    decreases toks.len() - pos,
{
    if pos < toks.len() && toks[pos] == Token::PathSep {
        match parse_seg(toks, pos + 1) {
            Ok((s, p2)) => {
                let (mut rest, end) = parse_path_rest(toks, p2);
                let ghost pre = rest@;
                rest.insert(0, s);
                proof {
                    assert(rest@ =~= seq![s] + pre);
                }
                (rest, end)
            },
            Err(_) => {
                let r: Vec<PathSeg> = Vec::new();
                proof {
                    assert(r@ =~= spec_parse_path_rest(toks@, pos as int).0);
                }
                (r, pos)
            },
        }
    } else {
        let r: Vec<PathSeg> = Vec::new();
        proof {
            assert(r@ =~= spec_parse_path_rest(toks@, pos as int).0);
        }
        (r, pos)
    }
}

impl Path {
    /// Parses a module-style path: one or more segments joined by `::`.
    pub fn parse_mod_style(toks: &Vec<Token>, pos: usize) -> (r: Result<
        (Path, usize),
        ParseError,
    >)
        requires
            pos <= toks.len(),
        ensures
            spec_parse_path(toks@, pos as int) matches PRes::Found { node, next } ==> (r matches Ok(
                p,
            ) && p.0@ == node && p.1 as int == next && pos < p.1 && p.1 <= toks.len()),
            spec_parse_path(toks@, pos as int) matches PRes::Failed { at } ==> (r matches Err(e)
                && e.pos as int == at),
    {
        match parse_seg(toks, pos) {
            Ok((s, p2)) => {
                let (mut rest, end) = parse_path_rest(toks, p2);
                let ghost pre = rest@;
                rest.insert(0, s);
                proof {
                    assert(rest@ =~= seq![s] + pre);
                }
                Ok((Path { segments: rest }, end))
            },
            Err(e) => Err(e),
        }
    }
}

impl Type {
    /// Parses a type: a module-style path.
    pub fn parse(toks: &Vec<Token>, pos: usize) -> (r: Result<(Type, usize), ParseError>)
        requires
            pos <= toks.len(),
        ensures
            spec_parse_path(toks@, pos as int) matches PRes::Found { node, next } ==> (r matches Ok(
                p,
            ) && p.0@ == node && p.1 as int == next && pos < p.1 && p.1 <= toks.len()),
            spec_parse_path(toks@, pos as int) matches PRes::Failed { at } ==> (r matches Err(e)
                && e.pos as int == at),
    {
        match Path::parse_mod_style(toks, pos) {
            Ok((p, end)) => Ok((Type { path: p }, end)),
            Err(e) => Err(e),
        }
    }
}

impl Expr {
    /// Parses a discriminant expression: a single literal or identifier token.
    pub fn parse(toks: &Vec<Token>, pos: usize) -> (r: Result<(Expr, usize), ParseError>)
        requires
            pos <= toks.len(),
        ensures
            spec_parse_expr(toks@, pos as int) matches PRes::Found { node, next } ==> (r matches Ok(
                p,
            ) && p.0 == node && p.1 as int == next && pos < p.1 && p.1 <= toks.len()),
            spec_parse_expr(toks@, pos as int) matches PRes::Failed { at } ==> (r matches Err(e)
                && e.pos as int == at),
    {
        if pos < toks.len() {
            match toks[pos] {
                Token::Lit(l) => Ok((Expr::Lit(l), pos + 1)),
                Token::Ident(i) => Ok((Expr::Ident(i), pos + 1)),
                _ => Err(ParseError { pos }),
            }
        } else {
            Err(ParseError { pos })
        }
    }
}

impl Visibility {
    /// Parses a visibility qualifier by ordered, backtracking alternation.
    /// The final alternative consumes nothing and yields `Inherited`, so this
    /// entry point never fails.
    pub fn parse(toks: &Vec<Token>, pos: usize) -> (r: (Visibility, usize))
        requires
            pos <= toks.len(),
        ensures
            r.0@ == spec_parse_visibility(toks@, pos as int).0,
            r.1 as int == spec_parse_visibility(toks@, pos as int).1,
            pos <= r.1 && r.1 <= toks.len(),
    {
        if pos < toks.len() && toks[pos] == Token::KwPub {
            if pos + 1 < toks.len() && toks[pos + 1] == Token::OpenParen {
                if pos + 2 < toks.len() {
                    match toks[pos + 2] {
                        Token::KwCrate => {
                            if pos + 3 < toks.len() && toks[pos + 3] == Token::CloseParen {
                                return (Visibility::Crate, pos + 4);
                            }
                        },
                        Token::KwSelfValue => {
                            if pos + 3 < toks.len() && toks[pos + 3] == Token::CloseParen {
                                let mut segs: Vec<PathSeg> = Vec::new();
                                segs.push(PathSeg::SelfValue);
                                proof {
                                    assert(segs@ =~= seq![PathSeg::SelfValue]);
                                }
                                return (
                                    Visibility::Restricted(
                                        VisRestricted {
                                            in_token: false,
                                            path: Path { segments: segs },
                                        },
                                    ),
                                    pos + 4,
                                );
                            }
                        },
                        Token::KwSuper => {
                            if pos + 3 < toks.len() && toks[pos + 3] == Token::CloseParen {
                                let mut segs: Vec<PathSeg> = Vec::new();
                                segs.push(PathSeg::Super);
                                proof {
                                    assert(segs@ =~= seq![PathSeg::Super]);
                                }
                                return (
                                    Visibility::Restricted(
                                        VisRestricted {
                                            in_token: false,
                                            path: Path { segments: segs },
                                        },
                                    ),
                                    pos + 4,
                                );
                            }
                        },
                        Token::KwIn => {
                            match Path::parse_mod_style(toks, pos + 3) {
                                Ok((p, p2)) => {
                                    if p2 < toks.len() && toks[p2] == Token::CloseParen {
                                        return (
                                            Visibility::Restricted(
                                                VisRestricted { in_token: true, path: p },
                                            ),
                                            p2 + 1,
                                        );
                                    }
                                },
                                Err(_) => {},
                            }
                        },
                        _ => {},
                    }
                }
                return (Visibility::Public, pos + 1);
            }
            return (Visibility::Public, pos + 1);
        }
        (Visibility::Inherited, pos)
    }

    /// The descriptive label used to enrich a failure report when an
    /// enclosing parse expected a visibility qualifier.
    pub fn description() -> (r: Option<&'static str>)
        ensures
            r matches Some(d) && d@ == "visibility qualifier, e.g. `pub`"@,
    {
        Some("visibility qualifier, e.g. `pub`")
    }
}

/// Parses one field, named or unnamed.
fn parse_field(toks: &Vec<Token>, pos: usize, named: bool) -> (r: Result<
    (Field, usize),
    ParseError,
>)
    requires
        pos <= toks.len(),
    ensures
        spec_parse_field(toks@, pos as int, named) matches PRes::Found { node, next } ==> (r
            matches Ok(p) && p.0@ == node && p.1 as int == next && pos < p.1 && p.1
            <= toks.len()),
        spec_parse_field(toks@, pos as int, named) matches PRes::Failed { at } ==> (r matches Err(
            e,
        ) && e.pos as int == at),
{
    let (attrs, p1) = Attribute::parse_outer(toks, pos);
    let (vis, p2) = Visibility::parse(toks, p1);
    if named {
        if p2 < toks.len() {
            if let Token::Ident(id) = toks[p2] {
                if p2 + 1 < toks.len() && toks[p2 + 1] == Token::Colon {
                    match Type::parse(toks, p2 + 2) {
                        Ok((ty, p3)) => {
                            return Ok(
                                (Field { attrs, vis, ident: Some(id), colon: true, ty }, p3),
                            );
                        },
                        Err(e) => {
                            return Err(e);
                        },
                    }
                }
                return Err(ParseError { pos: p2 + 1 });
            }
        }
        Err(ParseError { pos: p2 })
    } else {
        match Type::parse(toks, p2) {
            Ok((ty, p3)) => Ok((Field { attrs, vis, ident: None, colon: false, ty }, p3)),
            Err(e) => Err(e),
        }
    }
}

impl Field {
    /// Parses a named field: attributes, visibility, name, colon, type.
    pub fn parse_named(toks: &Vec<Token>, pos: usize) -> (r: Result<(Field, usize), ParseError>)
        requires
            pos <= toks.len(),
        ensures
            spec_parse_field(toks@, pos as int, true) matches PRes::Found { node, next } ==> (r
                matches Ok(p) && p.0@ == node && p.1 as int == next && pos < p.1 && p.1
                <= toks.len()),
            spec_parse_field(toks@, pos as int, true) matches PRes::Failed { at } ==> (r
                matches Err(e) && e.pos as int == at),
    {
        parse_field(toks, pos, true)
    }

    /// Parses an unnamed field: attributes, visibility, type.
    pub fn parse_unnamed(toks: &Vec<Token>, pos: usize) -> (r: Result<(Field, usize), ParseError>)
        requires
            pos <= toks.len(),
        ensures
            spec_parse_field(toks@, pos as int, false) matches PRes::Found { node, next } ==> (r
                matches Ok(p) && p.0@ == node && p.1 as int == next && pos < p.1 && p.1
                <= toks.len()),
            spec_parse_field(toks@, pos as int, false) matches PRes::Failed { at } ==> (r
                matches Err(e) && e.pos as int == at),
    {
        parse_field(toks, pos, false)
    }
}

/// Parses the comma-separated body of a delimited field list, stopping before
/// the closing delimiter.
fn parse_field_list(toks: &Vec<Token>, pos: usize, named: bool) -> (r: Result<
    (Vec<Field>, bool, usize),
    ParseError,
>)
    requires
        pos <= toks.len(),
    ensures
        spec_parse_field_list(toks@, pos as int, named) matches PRes::Found { node, next } ==> (r
            matches Ok(p) && fields_view(p.0@) == node.0 && p.1 == node.1 && p.2 as int == next
            && pos <= p.2 && p.2 <= toks.len()),
        spec_parse_field_list(toks@, pos as int, named) matches PRes::Failed { at } ==> (r
            matches Err(e) && e.pos as int == at),
    decreases toks.len() - pos,
{
    let close = if named {
        Token::CloseBrace
    } else {
        Token::CloseParen
    };
    if pos < toks.len() && toks[pos] == close {
        let r: Vec<Field> = Vec::new();
        proof {
            assert(fields_view(r@) =~= Seq::<FieldV>::empty());
        }
        return Ok((r, false, pos));
    }
    match parse_field(toks, pos, named) {
        Err(e) => Err(e),
        Ok((f, p2)) => {
            if p2 < toks.len() && toks[p2] == Token::Comma {
                match parse_field_list(toks, p2 + 1, named) {
                    Err(e) => Err(e),
                    Ok((mut fs, tr, end)) => {
                        if fs.len() == 0 {
                            let mut one: Vec<Field> = Vec::new();
                            one.push(f);
                            proof {
                                assert(fields_view(one@) =~= seq![f@]);
                            }
                            Ok((one, true, end))
                        } else {
                            let ghost pre = fs@;
                            fs.insert(0, f);
                            proof {
                                assert(fields_view(fs@) =~= seq![f@] + fields_view(pre));
                            }
                            Ok((fs, tr, end))
                        }
                    },
                }
            } else {
                let mut one: Vec<Field> = Vec::new();
                one.push(f);
                proof {
                    assert(fields_view(one@) =~= seq![f@]);
                }
                Ok((one, false, p2))
            }
        },
    }
}

impl FieldsNamed {
    /// Parses named fields: a brace-delimited, comma-separated list of named
    /// fields, trailing comma permitted.
    pub fn parse(toks: &Vec<Token>, pos: usize) -> (r: Result<(FieldsNamed, usize), ParseError>)
        requires
            pos <= toks.len(),
        ensures
            spec_parse_fields_named(toks@, pos as int) matches PRes::Found { node, next } ==> (r
                matches Ok(p) && p.0@ == node && p.1 as int == next && pos < p.1 && p.1
                <= toks.len()),
            spec_parse_fields_named(toks@, pos as int) matches PRes::Failed { at } ==> (r
                matches Err(e) && e.pos as int == at),
    {
        if pos < toks.len() && toks[pos] == Token::OpenBrace {
            match parse_field_list(toks, pos + 1, true) {
                Ok((fs, tr, p2)) => {
                    if p2 < toks.len() && toks[p2] == Token::CloseBrace {
                        let r = FieldsNamed { fields: fs, trailing: tr };
                        proof {
                            assert(r@ =~= spec_parse_fields_named(toks@, pos as int)->node);
                        }
                        Ok((r, p2 + 1))
                    } else {
                        Err(ParseError { pos: p2 })
                    }
                },
                Err(e) => Err(e),
            }
        } else {
            Err(ParseError { pos })
        }
    }
}

impl FieldsUnnamed {
    /// Parses unnamed fields: a paren-delimited, comma-separated list of
    /// unnamed fields, trailing comma permitted.
    pub fn parse(toks: &Vec<Token>, pos: usize) -> (r: Result<(FieldsUnnamed, usize), ParseError>)
        requires
            pos <= toks.len(),
        ensures
            spec_parse_fields_unnamed(toks@, pos as int) matches PRes::Found { node, next } ==> (r
                matches Ok(p) && p.0@ == node && p.1 as int == next && pos < p.1 && p.1
                <= toks.len()),
            spec_parse_fields_unnamed(toks@, pos as int) matches PRes::Failed { at } ==> (r
                matches Err(e) && e.pos as int == at),
    {
        if pos < toks.len() && toks[pos] == Token::OpenParen {
            match parse_field_list(toks, pos + 1, false) {
                Ok((fs, tr, p2)) => {
                    if p2 < toks.len() && toks[p2] == Token::CloseParen {
                        let r = FieldsUnnamed { fields: fs, trailing: tr };
                        proof {
                            assert(r@ =~= spec_parse_fields_unnamed(toks@, pos as int)->node);
                        }
                        Ok((r, p2 + 1))
                    } else {
                        Err(ParseError { pos: p2 })
                    }
                },
                Err(e) => Err(e),
            }
        } else {
            Err(ParseError { pos })
        }
    }
}

impl Fields {
    /// Parses a fields node by ordered alternation — named fields, else
    /// unnamed fields, else `Unit` — backtracking to `pos` on each failed
    /// branch.  Never fails.
    pub fn parse(toks: &Vec<Token>, pos: usize) -> (r: (Fields, usize))
        requires
            pos <= toks.len(),
        ensures
            r.0@ == spec_parse_fields(toks@, pos as int).0,
            r.1 as int == spec_parse_fields(toks@, pos as int).1,
            pos <= r.1 && r.1 <= toks.len(),
    {
        match FieldsNamed::parse(toks, pos) {
            Ok((f, end)) => (Fields::Named(f), end),
            Err(_) => match FieldsUnnamed::parse(toks, pos) {
                Ok((f, end)) => (Fields::Unnamed(f), end),
                Err(_) => (Fields::Unit, pos),
            },
        }
    }
}

impl Variant {
    /// Parses an enum variant: attributes, a name, a fields node, then an
    /// optional `=` followed by a discriminant expression.
    pub fn parse(toks: &Vec<Token>, pos: usize) -> (r: Result<(Variant, usize), ParseError>)
        requires
            pos <= toks.len(),
        ensures
            spec_parse_variant(toks@, pos as int) matches PRes::Found { node, next } ==> (r
                matches Ok(p) && p.0@ == node && p.1 as int == next && pos < p.1 && p.1
                <= toks.len()),
            spec_parse_variant(toks@, pos as int) matches PRes::Failed { at } ==> (r matches Err(
                e,
            ) && e.pos as int == at),
    {
        let (attrs, p1) = Attribute::parse_outer(toks, pos);
        if p1 < toks.len() {
            if let Token::Ident(id) = toks[p1] {
                let (fields, p2) = Fields::parse(toks, p1 + 1);
                if p2 < toks.len() && toks[p2] == Token::Equals {
                    match Expr::parse(toks, p2 + 1) {
                        Ok((e, p3)) => {
                            return Ok(
                                (
                                    Variant { attrs, ident: id, fields, discriminant: Some(e) },
                                    p3,
                                ),
                            );
                        },
                        Err(_) => {
                            return Ok(
                                (Variant { attrs, ident: id, fields, discriminant: None }, p2),
                            );
                        },
                    }
                }
                return Ok((Variant { attrs, ident: id, fields, discriminant: None }, p2));
            }
        }
        Err(ParseError { pos: p1 })
    }

    /// The descriptive label used to enrich a failure report when an
    /// enclosing parse expected an enum variant.
    pub fn description() -> (r: Option<&'static str>)
        ensures
            r matches Some(d) && d@ == "enum variant"@,
    {
        Some("enum variant")
    }
}

} // verus!
