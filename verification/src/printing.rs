//! The printer: for each node type, a deterministic token-emission routine
//! that writes delimiters, separators and sub-node tokens in exact
//! declaration order.
//!
//! Each spec function below states the exact token sequence a node prints as;
//! each executable `to_tokens` method appends exactly that sequence.  Printing
//! has no fallible path: any node is printable, well-formed or not, and the
//! printer never re-derives what parsing captured (in particular it re-emits a
//! restricted visibility's `in` keyword exactly as captured).

use crate::ast::{
    Attribute, Expr, Field, FieldV, Fields, FieldsNamed, FieldsNamedV, FieldsUnnamed,
    FieldsUnnamedV, FieldsV, Path, PathSeg, Type, Variant, VariantV, VisRestricted, VisibilityV,
    Visibility, fields_view,
};
use crate::token::Token;
use vstd::prelude::*;

verus! {

/// The single token that one path segment prints as.
pub open spec fn spec_seg_token(s: PathSeg) -> Token {
    match s {
        PathSeg::Ident(i) => Token::Ident(i),
        PathSeg::SelfValue => Token::KwSelfValue,
        PathSeg::Super => Token::KwSuper,
        PathSeg::Crate => Token::KwCrate,
    }
}

/// The tokens of an attribute: `#`, `[`, its name, `]`.
pub open spec fn spec_print_attr(a: Attribute) -> Seq<Token> {
    seq![Token::Pound, Token::OpenBracket, Token::Ident(a.ident), Token::CloseBracket]
}

/// The tokens of a sequence of attributes, in order.
pub open spec fn spec_print_attrs(attrs: Seq<Attribute>) -> Seq<Token>
    decreases attrs.len(),
{
    if attrs.len() == 0 {
        Seq::empty()
    } else {
        spec_print_attr(attrs[0]) + spec_print_attrs(attrs.drop_first())
    }
}

/// The tokens of the tail of a path: `::` before each remaining segment.
pub open spec fn spec_print_path_rest(segs: Seq<PathSeg>) -> Seq<Token>
    decreases segs.len(),
{
    if segs.len() == 0 {
        Seq::empty()
    } else {
        seq![Token::PathSep, spec_seg_token(segs[0])] + spec_print_path_rest(segs.drop_first())
    }
}

/// The tokens of a path: its segments joined by `::`.
pub open spec fn spec_print_path(segs: Seq<PathSeg>) -> Seq<Token> {
    if segs.len() == 0 {
        Seq::empty()
    } else {
        seq![spec_seg_token(segs[0])] + spec_print_path_rest(segs.drop_first())
    }
}

/// The tokens of a visibility qualifier.  `Inherited` prints as zero tokens;
/// `Restricted` re-emits the captured `in` keyword verbatim.
pub open spec fn spec_print_vis(v: VisibilityV) -> Seq<Token> {
    match v {
        VisibilityV::Public => seq![Token::KwPub],
        VisibilityV::Crate => seq![
            Token::KwPub,
            Token::OpenParen,
            Token::KwCrate,
            Token::CloseParen,
        ],
        VisibilityV::Restricted(r) => seq![Token::KwPub, Token::OpenParen] + (if r.in_token {
            seq![Token::KwIn]
        } else {
            Seq::empty()
        }) + spec_print_path(r.path) + seq![Token::CloseParen],
        VisibilityV::Inherited => Seq::empty(),
    }
}

/// The single token that an expression prints as.
pub open spec fn spec_print_expr(e: Expr) -> Seq<Token> {
    match e {
        Expr::Lit(l) => seq![Token::Lit(l)],
        Expr::Ident(i) => seq![Token::Ident(i)],
    }
}

/// The tokens of one field: attributes, visibility, then the name and colon
/// when the name is present, then the type.
pub open spec fn spec_print_field(f: FieldV) -> Seq<Token> {
    spec_print_attrs(f.attrs) + spec_print_vis(f.vis) + (match f.ident {
        Some(i) => seq![Token::Ident(i), Token::Colon],
        None => Seq::empty(),
    }) + spec_print_path(f.ty)
}

/// The tokens of a comma-separated field list, with a trailing comma after
/// the last field iff `trailing` holds and the list is non-empty.
pub open spec fn spec_print_field_list(fs: Seq<FieldV>, trailing: bool) -> Seq<Token>
    decreases fs.len(),
{
    if fs.len() == 0 {
        Seq::empty()
    } else if fs.len() == 1 {
        spec_print_field(fs[0]) + (if trailing {
            seq![Token::Comma]
        } else {
            Seq::empty()
        })
    } else {
        spec_print_field(fs[0]) + seq![Token::Comma] + spec_print_field_list(
            fs.drop_first(),
            trailing,
        )
    }
}

/// The tokens of a named field list, wrapped in braces.
pub open spec fn spec_print_fields_named(fs: FieldsNamedV) -> Seq<Token> {
    seq![Token::OpenBrace] + spec_print_field_list(fs.fields, fs.trailing) + seq![
        Token::CloseBrace,
    ]
}

/// The tokens of an unnamed field list, wrapped in parentheses.
pub open spec fn spec_print_fields_unnamed(fs: FieldsUnnamedV) -> Seq<Token> {
    seq![Token::OpenParen] + spec_print_field_list(fs.fields, fs.trailing) + seq![
        Token::CloseParen,
    ]
}

/// The tokens of a fields node.  `Unit` prints as zero tokens.
pub open spec fn spec_print_fields(fs: FieldsV) -> Seq<Token> {
    match fs {
        FieldsV::Named(f) => spec_print_fields_named(f),
        FieldsV::Unnamed(f) => spec_print_fields_unnamed(f),
        FieldsV::Unit => Seq::empty(),
    }
}

/// The tokens of an enum variant: attributes, name, fields, then `=` and the
/// discriminant expression when a discriminant is present.
pub open spec fn spec_print_variant(v: VariantV) -> Seq<Token> {
    spec_print_attrs(v.attrs) + seq![Token::Ident(v.ident)] + spec_print_fields(v.fields) + (
    match v.discriminant {
        Some(e) => seq![Token::Equals] + spec_print_expr(e),
        None => Seq::empty(),
    })
}

impl Attribute {
    /// Appends this attribute's tokens.
    pub fn to_tokens(&self, tokens: &mut Vec<Token>)
        ensures
            final(tokens)@ == old(tokens)@ + spec_print_attr(*self),
    {
        tokens.push(Token::Pound);
        tokens.push(Token::OpenBracket);
        tokens.push(Token::Ident(self.ident));
        tokens.push(Token::CloseBracket);
        proof {
            assert(tokens@ =~= old(tokens)@ + spec_print_attr(*self));
        }
    }
}

/// Appends the tokens of `attrs[i..]`, in order.
fn attrs_to_tokens(attrs: &Vec<Attribute>, i: usize, tokens: &mut Vec<Token>)
    requires
        i <= attrs.len(),
    ensures
        final(tokens)@ == old(tokens)@ + spec_print_attrs(attrs@.skip(i as int)),
    decreases attrs.len() - i,
{
    if i < attrs.len() {
        attrs[i].to_tokens(tokens);
        attrs_to_tokens(attrs, i + 1, tokens);
        proof {
            assert(attrs@.skip(i as int).drop_first() =~= attrs@.skip(i as int + 1));
            assert(tokens@ =~= old(tokens)@ + spec_print_attrs(attrs@.skip(i as int)));
        }
    }
}

/// Returns the single token a path segment prints as.
fn seg_to_token(s: &PathSeg) -> (t: Token)
    ensures
        t == spec_seg_token(*s),
{
    match s {
        PathSeg::Ident(i) => Token::Ident(*i),
        PathSeg::SelfValue => Token::KwSelfValue,
        PathSeg::Super => Token::KwSuper,
        PathSeg::Crate => Token::KwCrate,
    }
}

/// Appends `::` and the segment for each of `segs[i..]`, in order.
fn path_rest_to_tokens(segs: &Vec<PathSeg>, i: usize, tokens: &mut Vec<Token>)
    requires
        i <= segs.len(),
    ensures
        final(tokens)@ == old(tokens)@ + spec_print_path_rest(segs@.skip(i as int)),
    decreases segs.len() - i,
{
    if i < segs.len() {
        tokens.push(Token::PathSep);
        tokens.push(seg_to_token(&segs[i]));
        path_rest_to_tokens(segs, i + 1, tokens);
        proof {
            assert(segs@.skip(i as int).drop_first() =~= segs@.skip(i as int + 1));
            assert(tokens@ =~= old(tokens)@ + spec_print_path_rest(segs@.skip(i as int)));
        }
    }
}

impl Path {
    /// Appends this path's tokens: its segments joined by `::`.
    pub fn to_tokens(&self, tokens: &mut Vec<Token>)
        ensures
            final(tokens)@ == old(tokens)@ + spec_print_path(self@),
    {
        if self.segments.len() > 0 {
            tokens.push(seg_to_token(&self.segments[0]));
            path_rest_to_tokens(&self.segments, 1, tokens);
            proof {
                assert(self.segments@.skip(1) =~= self.segments@.drop_first());
                assert(tokens@ =~= old(tokens)@ + spec_print_path(self@));
            }
        }
    }
}

impl Type {
    /// Appends this type's tokens.
    pub fn to_tokens(&self, tokens: &mut Vec<Token>)
        ensures
            final(tokens)@ == old(tokens)@ + spec_print_path(self@),
    {
        self.path.to_tokens(tokens);
    }
}

impl Expr {
    /// Appends this expression's token.
    pub fn to_tokens(&self, tokens: &mut Vec<Token>)
        ensures
            final(tokens)@ == old(tokens)@ + spec_print_expr(*self),
    {
        match self {
            Expr::Lit(l) => tokens.push(Token::Lit(*l)),
            Expr::Ident(i) => tokens.push(Token::Ident(*i)),
        }
        proof {
            assert(tokens@ =~= old(tokens)@ + spec_print_expr(*self));
        }
    }
}

impl VisRestricted {
    /// Appends the tokens of a restricted qualifier: `pub`, `(`, the captured
    /// `in` keyword exactly when it was captured, the path, `)`.
    pub fn to_tokens(&self, tokens: &mut Vec<Token>)
        ensures
            final(tokens)@ == old(tokens)@ + spec_print_vis(VisibilityV::Restricted(self@)),
    {
        tokens.push(Token::KwPub);
        tokens.push(Token::OpenParen);
        if self.in_token {
            tokens.push(Token::KwIn);
        }
        self.path.to_tokens(tokens);
        tokens.push(Token::CloseParen);
        proof {
            assert(tokens@ =~= old(tokens)@ + spec_print_vis(VisibilityV::Restricted(self@)));
        }
    }
}

impl Visibility {
    /// Appends this qualifier's tokens; `Inherited` appends nothing.
    pub fn to_tokens(&self, tokens: &mut Vec<Token>)
        ensures
            final(tokens)@ == old(tokens)@ + spec_print_vis(self@),
    {
        match self {
            Visibility::Public => {
                tokens.push(Token::KwPub);
                proof {
                    assert(tokens@ =~= old(tokens)@ + spec_print_vis(self@));
                }
            },
            Visibility::Crate => {
                tokens.push(Token::KwPub);
                tokens.push(Token::OpenParen);
                tokens.push(Token::KwCrate);
                tokens.push(Token::CloseParen);
                proof {
                    assert(tokens@ =~= old(tokens)@ + spec_print_vis(self@));
                }
            },
            Visibility::Restricted(r) => {
                r.to_tokens(tokens);
            },
            Visibility::Inherited => {
                proof {
                    assert(tokens@ =~= old(tokens)@ + spec_print_vis(self@));
                }
            },
        }
    }
}

impl Field {
    /// Appends this field's tokens: attributes, visibility, the name and
    /// colon when the name is present, then the type.  Mirroring parse order,
    /// the colon is emitted exactly when the name is present.
    pub fn to_tokens(&self, tokens: &mut Vec<Token>)
        ensures
            final(tokens)@ == old(tokens)@ + spec_print_field(self@),
    {
        attrs_to_tokens(&self.attrs, 0, tokens);
        self.vis.to_tokens(tokens);
        if let Some(i) = self.ident {
            tokens.push(Token::Ident(i));
            tokens.push(Token::Colon);
        }
        self.ty.to_tokens(tokens);
        proof {
            assert(self.attrs@.skip(0) =~= self.attrs@);
            assert(tokens@ =~= old(tokens)@ + spec_print_field(self@));
        }
    }
}

/// Appends the tokens of the field list `fields[i..]`, comma-separated, with
/// a trailing comma after the last field iff `trailing` holds.
fn field_list_to_tokens(fields: &Vec<Field>, i: usize, trailing: bool, tokens: &mut Vec<Token>)
    requires
        i <= fields.len(),
    ensures
        final(tokens)@ == old(tokens)@ + spec_print_field_list(
            fields_view(fields@.skip(i as int)),
            trailing,
        ),
    decreases fields.len() - i,
{
    proof {
        assert(fields_view(fields@.skip(i as int)).len() == fields@.skip(i as int).len());
    }
    if i < fields.len() {
        fields[i].to_tokens(tokens);
        if i + 1 < fields.len() {
            tokens.push(Token::Comma);
            field_list_to_tokens(fields, i + 1, trailing, tokens);
        } else {
            if trailing {
                tokens.push(Token::Comma);
            }
        }
        proof {
            assert(fields_view(fields@.skip(i as int))[0] == fields@[i as int]@);
            assert(fields_view(fields@.skip(i as int)).drop_first() =~= fields_view(
                fields@.skip(i as int + 1),
            ));
            assert(tokens@ =~= old(tokens)@ + spec_print_field_list(
                fields_view(fields@.skip(i as int)),
                trailing,
            ));
        }
    }
}

impl FieldsNamed {
    /// Appends this named field list's tokens, wrapped in braces.
    pub fn to_tokens(&self, tokens: &mut Vec<Token>)
        ensures
            final(tokens)@ == old(tokens)@ + spec_print_fields_named(self@),
    {
        tokens.push(Token::OpenBrace);
        field_list_to_tokens(&self.fields, 0, self.trailing, tokens);
        tokens.push(Token::CloseBrace);
        proof {
            assert(self.fields@.skip(0) =~= self.fields@);
            assert(tokens@ =~= old(tokens)@ + spec_print_fields_named(self@));
        }
    }
}

impl FieldsUnnamed {
    /// Appends this unnamed field list's tokens, wrapped in parentheses.
    pub fn to_tokens(&self, tokens: &mut Vec<Token>)
        ensures
            final(tokens)@ == old(tokens)@ + spec_print_fields_unnamed(self@),
    {
        tokens.push(Token::OpenParen);
        field_list_to_tokens(&self.fields, 0, self.trailing, tokens);
        tokens.push(Token::CloseParen);
        proof {
            assert(self.fields@.skip(0) =~= self.fields@);
            assert(tokens@ =~= old(tokens)@ + spec_print_fields_unnamed(self@));
        }
    }
}

impl Visibility {
    /// The token sequence this qualifier prints as.
    pub fn emit(&self) -> (r: Vec<Token>)
        ensures
            r@ == spec_print_vis(self@),
    {
        let mut tokens: Vec<Token> = Vec::new();
        self.to_tokens(&mut tokens);
        tokens
    }
}

impl Field {
    /// The token sequence this field prints as.
    pub fn emit(&self) -> (r: Vec<Token>)
        ensures
            r@ == spec_print_field(self@),
    {
        let mut tokens: Vec<Token> = Vec::new();
        self.to_tokens(&mut tokens);
        tokens
    }
}

impl Fields {
    /// Appends this fields node's tokens; `Unit` appends nothing.
    pub fn to_tokens(&self, tokens: &mut Vec<Token>)
        ensures
            final(tokens)@ == old(tokens)@ + spec_print_fields(self@),
    {
        match self {
            Fields::Named(f) => f.to_tokens(tokens),
            Fields::Unnamed(f) => f.to_tokens(tokens),
            Fields::Unit => {
                proof {
                    assert(tokens@ =~= old(tokens)@ + spec_print_fields(self@));
                }
            },
        }
    }

    /// The token sequence this fields node prints as.
    pub fn emit(&self) -> (r: Vec<Token>)
        ensures
            r@ == spec_print_fields(self@),
    {
        let mut tokens: Vec<Token> = Vec::new();
        self.to_tokens(&mut tokens);
        tokens
    }
}

impl Variant {
    /// Appends this variant's tokens: attributes, name, fields, then `=` and
    /// the discriminant when one is present.
    pub fn to_tokens(&self, tokens: &mut Vec<Token>)
        ensures
            final(tokens)@ == old(tokens)@ + spec_print_variant(self@),
    {
        attrs_to_tokens(&self.attrs, 0, tokens);
        tokens.push(Token::Ident(self.ident));
        self.fields.to_tokens(tokens);
        if let Some(e) = self.discriminant {
            tokens.push(Token::Equals);
            e.to_tokens(tokens);
        }
        proof {
            assert(self.attrs@.skip(0) =~= self.attrs@);
            assert(tokens@ =~= old(tokens)@ + spec_print_variant(self@));
        }
    }

    /// The token sequence this variant prints as.
    pub fn emit(&self) -> (r: Vec<Token>)
        ensures
            r@ == spec_print_variant(self@),
    {
        let mut tokens: Vec<Token> = Vec::new();
        self.to_tokens(&mut tokens);
        tokens
    }
}

} // verus!
