//! The laws tying the parser and the printer together.
//!
//! The central result is the round-trip law: whenever a production parses,
//! printing the parsed node reproduces, token for token, exactly the input
//! slice the parse consumed.  It is proved by one exactness lemma per
//! production, by induction over the grammar; idempotence of re-parsing and
//! the structural invariants of parsed trees follow.

use crate::ast::{
    Attribute, Expr, FieldV, FieldsV, PathSeg, VariantV, VisRestrictedV, VisibilityV, field_wf,
    fields_named_wf, fields_unnamed_wf, fields_wf, variant_wf, vis_wf,
};
use crate::parsing::{
    PRes, spec_close_delim, spec_parse_attr, spec_parse_attrs, spec_parse_expr, spec_parse_field,
    spec_parse_field_list, spec_parse_fields, spec_parse_fields_named, spec_parse_fields_unnamed,
    spec_parse_path, spec_parse_path_rest, spec_parse_seg, spec_parse_variant,
    spec_parse_visibility,
};
use crate::printing::{
    spec_print_attr, spec_print_attrs, spec_print_expr, spec_print_field, spec_print_field_list,
    spec_print_fields, spec_print_fields_named, spec_print_fields_unnamed, spec_print_path,
    spec_print_path_rest, spec_print_variant, spec_print_vis, spec_seg_token,
};
use crate::token::{Ident, Lit, Token, tok_at};
use vstd::prelude::*;

verus! {

/// Exactness of attribute parsing: a parsed attribute prints back as the
/// consumed slice, and a failure position lies within the stream.
pub proof fn lemma_attr_exact(t: Seq<Token>, pos: int)
    requires
        0 <= pos <= t.len(),
    ensures
        spec_parse_attr(t, pos) matches PRes::Found { node, next } ==> pos < next <= t.len()
            && spec_print_attr(node) == t.subrange(pos, next),
        spec_parse_attr(t, pos) matches PRes::Failed { at } ==> pos <= at <= t.len(),
{
    if let PRes::Found { node, next } = spec_parse_attr(t, pos) {
        assert(spec_print_attr(node) =~= t.subrange(pos, next));
    }
}

/// Exactness of attribute repetition: the parsed attributes print back as
/// the consumed slice.
pub proof fn lemma_attrs_exact(t: Seq<Token>, pos: int)
    requires
        0 <= pos <= t.len(),
    ensures
        pos <= spec_parse_attrs(t, pos).1 <= t.len(),
        spec_print_attrs(spec_parse_attrs(t, pos).0) == t.subrange(
            pos,
            spec_parse_attrs(t, pos).1,
        ),
    decreases t.len() - pos,
{
    lemma_attr_exact(t, pos);
    match spec_parse_attr(t, pos) {
        PRes::Found { node, next } => {
            lemma_attrs_exact(t, next);
            let (rest, end) = spec_parse_attrs(t, next);
            let merged = seq![node] + rest;
            assert(merged.drop_first() =~= rest);
            assert(spec_print_attrs(merged) =~= t.subrange(pos, end));
        },
        PRes::Failed { .. } => {
            assert(spec_print_attrs(Seq::<Attribute>::empty()) =~= t.subrange(pos, pos));
        },
    }
}

/// Exactness of segment parsing: a parsed segment prints back as the one
/// consumed token.
pub proof fn lemma_seg_exact(t: Seq<Token>, pos: int)
    requires
        0 <= pos <= t.len(),
    ensures
        spec_parse_seg(t, pos) matches PRes::Found { node, next } ==> pos < next <= t.len()
            && next == pos + 1 && seq![spec_seg_token(node)] == t.subrange(pos, next),
        spec_parse_seg(t, pos) matches PRes::Failed { at } ==> pos <= at <= t.len(),
{
    if let PRes::Found { node, next } = spec_parse_seg(t, pos) {
        assert(seq![spec_seg_token(node)] =~= t.subrange(pos, next));
    }
}

/// Exactness of path-tail parsing: the parsed `::`-prefixed segments print
/// back as the consumed slice.
pub proof fn lemma_path_rest_exact(t: Seq<Token>, pos: int)
    requires
        0 <= pos <= t.len(),
    ensures
        pos <= spec_parse_path_rest(t, pos).1 <= t.len(),
        spec_print_path_rest(spec_parse_path_rest(t, pos).0) == t.subrange(
            pos,
            spec_parse_path_rest(t, pos).1,
        ),
    decreases t.len() - pos,
{
    if tok_at(t, pos) == Some(Token::PathSep) {
        lemma_seg_exact(t, pos + 1);
        match spec_parse_seg(t, pos + 1) {
            PRes::Found { node, next } => {
                lemma_path_rest_exact(t, next);
                let (rest, end) = spec_parse_path_rest(t, next);
                let merged = seq![node] + rest;
                assert(merged.drop_first() =~= rest);
                assert(spec_print_path_rest(merged) =~= t.subrange(pos, end));
            },
            PRes::Failed { .. } => {
                assert(spec_print_path_rest(Seq::<PathSeg>::empty()) =~= t.subrange(pos, pos));
            },
        }
    } else {
        assert(spec_print_path_rest(Seq::<PathSeg>::empty()) =~= t.subrange(pos, pos));
    }
}

/// Exactness of path parsing: a parsed path is non-empty and prints back as
/// the consumed slice.
pub proof fn lemma_path_exact(t: Seq<Token>, pos: int)
    requires
        0 <= pos <= t.len(),
    ensures
        spec_parse_path(t, pos) matches PRes::Found { node, next } ==> pos < next <= t.len()
            && node.len() >= 1 && spec_print_path(node) == t.subrange(pos, next),
        spec_parse_path(t, pos) matches PRes::Failed { at } ==> pos <= at <= t.len(),
{
    lemma_seg_exact(t, pos);
    match spec_parse_seg(t, pos) {
        PRes::Found { node, next } => {
            lemma_path_rest_exact(t, next);
            let (rest, end) = spec_parse_path_rest(t, next);
            let merged = seq![node] + rest;
            assert(merged.drop_first() =~= rest);
            assert(spec_print_path(merged) =~= t.subrange(pos, end));
        },
        PRes::Failed { .. } => {},
    }
}

/// Exactness of visibility parsing: the parsed qualifier is well-formed and
/// prints back as the consumed slice.  Since the last alternative consumes
/// nothing, this holds of every input.
pub proof fn lemma_visibility_exact(t: Seq<Token>, pos: int)
    requires
        0 <= pos <= t.len(),
    ensures
        pos <= spec_parse_visibility(t, pos).1 <= t.len(),
        vis_wf(spec_parse_visibility(t, pos).0),
        spec_print_vis(spec_parse_visibility(t, pos).0) == t.subrange(
            pos,
            spec_parse_visibility(t, pos).1,
        ),
{
    let (v, next) = spec_parse_visibility(t, pos);
    if tok_at(t, pos) == Some(Token::KwPub) && tok_at(t, pos + 1) == Some(Token::OpenParen)
        && tok_at(t, pos + 2) == Some(Token::KwIn) {
        lemma_path_exact(t, pos + 3);
    }
    assert(spec_print_vis(v) =~= t.subrange(pos, next));
}

/// Exactness of discriminant-expression parsing.
pub proof fn lemma_expr_exact(t: Seq<Token>, pos: int)
    requires
        0 <= pos <= t.len(),
    ensures
        spec_parse_expr(t, pos) matches PRes::Found { node, next } ==> pos < next <= t.len()
            && spec_print_expr(node) == t.subrange(pos, next),
        spec_parse_expr(t, pos) matches PRes::Failed { at } ==> pos <= at <= t.len(),
{
    if let PRes::Found { node, next } = spec_parse_expr(t, pos) {
        assert(spec_print_expr(node) =~= t.subrange(pos, next));
    }
}

/// Exactness of field parsing: a parsed field is well-formed, its name is
/// present iff the production is the named one, and it prints back as the
/// consumed slice.
pub proof fn lemma_field_exact(t: Seq<Token>, pos: int, named: bool)
    requires
        0 <= pos <= t.len(),
    ensures
        spec_parse_field(t, pos, named) matches PRes::Found { node, next } ==> pos < next
            <= t.len() && field_wf(node) && (node.ident is Some <==> named) && spec_print_field(
            node,
        ) == t.subrange(pos, next),
        spec_parse_field(t, pos, named) matches PRes::Failed { at } ==> pos <= at <= t.len(),
{
    lemma_attrs_exact(t, pos);
    let (attrs, p1) = spec_parse_attrs(t, pos);
    lemma_visibility_exact(t, p1);
    let (vis, p2) = spec_parse_visibility(t, p1);
    if named {
        if let Some(Token::Ident(id)) = tok_at(t, p2) {
            if tok_at(t, p2 + 1) == Some(Token::Colon) {
                lemma_path_exact(t, p2 + 2);
                if let PRes::Found { node: ty, next } = spec_parse_path(t, p2 + 2) {
                    let f = spec_parse_field(t, pos, named)->node;
                    assert(spec_print_field(f) =~= t.subrange(pos, next));
                }
            }
        }
    } else {
        lemma_path_exact(t, p2);
        if let PRes::Found { node: ty, next } = spec_parse_path(t, p2) {
            let f = spec_parse_field(t, pos, named)->node;
            assert(spec_print_field(f) =~= t.subrange(pos, next));
        }
    }
}

/// Exactness of field-list parsing: every parsed field is well-formed with
/// its name present iff the production is the named one, a trailing comma is
/// only recorded for a non-empty list, and the list prints back as the
/// consumed slice.
#[verifier::rlimit(50)]
pub proof fn lemma_field_list_exact(t: Seq<Token>, pos: int, named: bool)
    requires
        0 <= pos <= t.len(),
    ensures
        spec_parse_field_list(t, pos, named) matches PRes::Found { node, next } ==> pos <= next
            <= t.len() && (forall|i: int|
            0 <= i < node.0.len() ==> field_wf(#[trigger] node.0[i]) && (node.0[i].ident is Some
                <==> named)) && (node.1 ==> node.0.len() >= 1) && spec_print_field_list(
            node.0,
            node.1,
        ) == t.subrange(pos, next),
        spec_parse_field_list(t, pos, named) matches PRes::Failed { at } ==> pos <= at <= t.len(),
    decreases t.len() - pos,
{
    if tok_at(t, pos) == Some(spec_close_delim(named)) {
        assert(spec_print_field_list(Seq::<FieldV>::empty(), false) =~= t.subrange(pos, pos));
    } else {
        lemma_field_exact(t, pos, named);
        match spec_parse_field(t, pos, named) {
            PRes::Found { node: f, next: p2 } => {
                if tok_at(t, p2) == Some(Token::Comma) {
                    lemma_field_list_exact(t, p2 + 1, named);
                    match spec_parse_field_list(t, p2 + 1, named) {
                        PRes::Found { node: rest, next: end } => {
                            if rest.0.len() == 0 {
                                assert(t.subrange(p2 + 1, end).len() == 0);
                                assert(end == p2 + 1);
                                let one = seq![f];
                                assert(spec_print_field_list(one, true) =~= t.subrange(pos, end));
                                assert forall|i: int| 0 <= i < one.len() implies field_wf(
                                    #[trigger] one[i],
                                ) && (one[i].ident is Some <==> named) by {
                                    assert(one[i] == f);
                                }
                            } else {
                                let merged = seq![f] + rest.0;
                                assert(merged.drop_first() =~= rest.0);
                                assert(spec_print_field_list(merged, rest.1) =~= t.subrange(
                                    pos,
                                    end,
                                ));
                                assert forall|i: int| 0 <= i < merged.len() implies field_wf(
                                    #[trigger] merged[i],
                                ) && (merged[i].ident is Some <==> named) by {
                                    if i > 0 {
                                        assert(merged[i] == rest.0[i - 1]);
                                    }
                                }
                            }
                        },
                        PRes::Failed { .. } => {},
                    }
                } else {
                    let one = seq![f];
                    assert(spec_print_field_list(one, false) =~= t.subrange(pos, p2));
                    assert forall|i: int| 0 <= i < one.len() implies field_wf(#[trigger] one[i])
                        && (one[i].ident is Some <==> named) by {
                        assert(one[i] == f);
                    }
                }
            },
            PRes::Failed { .. } => {},
        }
    }
}

/// Exactness of named-fields parsing: the node is well-formed (in
/// particular, every field has a name) and prints back as the consumed
/// slice, braces included.
pub proof fn lemma_fields_named_exact(t: Seq<Token>, pos: int)
    requires
        0 <= pos <= t.len(),
    ensures
        spec_parse_fields_named(t, pos) matches PRes::Found { node, next } ==> pos < next
            <= t.len() && fields_named_wf(node) && spec_print_fields_named(node) == t.subrange(
            pos,
            next,
        ),
        spec_parse_fields_named(t, pos) matches PRes::Failed { at } ==> pos <= at <= t.len(),
{
    if tok_at(t, pos) == Some(Token::OpenBrace) {
        lemma_field_list_exact(t, pos + 1, true);
        if let PRes::Found { node, next } = spec_parse_field_list(t, pos + 1, true) {
            if tok_at(t, next) == Some(Token::CloseBrace) {
                let fs = spec_parse_fields_named(t, pos)->node;
                assert(spec_print_fields_named(fs) =~= t.subrange(pos, next + 1));
            }
        }
    }
}

/// Exactness of unnamed-fields parsing: the node is well-formed (in
/// particular, no field has a name) and prints back as the consumed slice,
/// parentheses included.
pub proof fn lemma_fields_unnamed_exact(t: Seq<Token>, pos: int)
    requires
        0 <= pos <= t.len(),
    ensures
        spec_parse_fields_unnamed(t, pos) matches PRes::Found { node, next } ==> pos < next
            <= t.len() && fields_unnamed_wf(node) && spec_print_fields_unnamed(node)
            == t.subrange(pos, next),
        spec_parse_fields_unnamed(t, pos) matches PRes::Failed { at } ==> pos <= at <= t.len(),
{
    if tok_at(t, pos) == Some(Token::OpenParen) {
        lemma_field_list_exact(t, pos + 1, false);
        if let PRes::Found { node, next } = spec_parse_field_list(t, pos + 1, false) {
            if tok_at(t, next) == Some(Token::CloseParen) {
                let fs = spec_parse_fields_unnamed(t, pos)->node;
                assert(spec_print_fields_unnamed(fs) =~= t.subrange(pos, next + 1));
            }
        }
    }
}

/// Exactness of the fields alternation: the parsed node is well-formed and
/// prints back as the consumed slice; the `Unit` catch-all consumes nothing.
pub proof fn lemma_fields_exact(t: Seq<Token>, pos: int)
    requires
        0 <= pos <= t.len(),
    ensures
        pos <= spec_parse_fields(t, pos).1 <= t.len(),
        fields_wf(spec_parse_fields(t, pos).0),
        spec_print_fields(spec_parse_fields(t, pos).0) == t.subrange(
            pos,
            spec_parse_fields(t, pos).1,
        ),
{
    lemma_fields_named_exact(t, pos);
    lemma_fields_unnamed_exact(t, pos);
    let (fs, next) = spec_parse_fields(t, pos);
    assert(spec_print_fields(fs) =~= t.subrange(pos, next));
}

/// The round-trip law for one production, stated over the whole grammar: a
/// parsed variant is well-formed and prints back, token for token, as
/// exactly the slice the parse consumed.
pub proof fn lemma_variant_exact(t: Seq<Token>, pos: int)
    requires
        0 <= pos <= t.len(),
    ensures
        spec_parse_variant(t, pos) matches PRes::Found { node, next } ==> pos < next <= t.len()
            && variant_wf(node) && spec_print_variant(node) == t.subrange(pos, next),
        spec_parse_variant(t, pos) matches PRes::Failed { at } ==> pos <= at <= t.len(),
{
    lemma_attrs_exact(t, pos);
    let (attrs, p1) = spec_parse_attrs(t, pos);
    if let Some(Token::Ident(id)) = tok_at(t, p1) {
        lemma_fields_exact(t, p1 + 1);
        let (fields, p2) = spec_parse_fields(t, p1 + 1);
        if tok_at(t, p2) == Some(Token::Equals) {
            lemma_expr_exact(t, p2 + 1);
        }
        let v = spec_parse_variant(t, pos)->node;
        let next = spec_parse_variant(t, pos)->next;
        assert(spec_print_variant(v) =~= t.subrange(pos, next));
    }
}

/// The round-trip law: printing the tree parsed from a fully consumed input
/// reproduces that input, token for token.
pub proof fn lemma_round_trip(t: Seq<Token>, v: VariantV)
    requires
        spec_parse_variant(t, 0) == (PRes::Found { node: v, next: t.len() as int }),
    ensures
        spec_print_variant(v) == t,
{
    lemma_variant_exact(t, 0);
    assert(t.subrange(0, t.len() as int) =~= t);
}

/// Idempotence: re-parsing the printed form of a parsed tree yields the same
/// tree again, structurally, consuming the whole printed form.
pub proof fn lemma_reparse_idempotent(t: Seq<Token>, v: VariantV)
    requires
        spec_parse_variant(t, 0) == (PRes::Found { node: v, next: t.len() as int }),
    ensures
        spec_parse_variant(spec_print_variant(v), 0) == (PRes::Found {
            node: v,
            next: t.len() as int,
        }),
{
    lemma_round_trip(t, v);
}

/// Tag consistency: in any parsed tree, a `Named` fields node holds only
/// fields whose name is present, and an `Unnamed` fields node only fields
/// whose name is absent.
pub proof fn lemma_tag_consistency(t: Seq<Token>, pos: int)
    requires
        0 <= pos <= t.len(),
    ensures
        spec_parse_variant(t, pos) matches PRes::Found { node, next } ==> variant_wf(node)
            && (node.fields matches FieldsV::Named(f) ==> forall|i: int|
            0 <= i < f.fields.len() ==> (#[trigger] f.fields[i]).ident is Some) && (node.fields
            matches FieldsV::Unnamed(f) ==> forall|i: int|
            0 <= i < f.fields.len() ==> (#[trigger] f.fields[i]).ident is None),
{
    lemma_variant_exact(t, pos);
}

/// The visibility alternation's ordering: `pub ( crate )` is the crate
/// qualifier, never a restricted qualifier with path `crate`; `pub ( in
/// path )` is a restricted qualifier that keeps its `in` keyword; and input
/// with no leading `pub` is `Inherited`, consuming zero tokens.
pub proof fn lemma_visibility_alternation(t: Seq<Token>, pos: int)
    requires
        0 <= pos <= t.len(),
    ensures
        (tok_at(t, pos) == Some(Token::KwPub) && tok_at(t, pos + 1) == Some(Token::OpenParen)
            && tok_at(t, pos + 2) == Some(Token::KwCrate) && tok_at(t, pos + 3) == Some(
            Token::CloseParen,
        )) ==> spec_parse_visibility(t, pos) == (VisibilityV::Crate, pos + 4),
        (tok_at(t, pos) == Some(Token::KwPub) && tok_at(t, pos + 1) == Some(Token::OpenParen)
            && tok_at(t, pos + 2) == Some(Token::KwIn) && spec_parse_path(t, pos + 3) is Found
            && tok_at(t, spec_parse_path(t, pos + 3)->next) == Some(Token::CloseParen))
            ==> spec_parse_visibility(t, pos) == (
            VisibilityV::Restricted(
                VisRestrictedV { in_token: true, path: spec_parse_path(t, pos + 3)->node },
            ),
            spec_parse_path(t, pos + 3)->next + 1,
        ),
        tok_at(t, pos) != Some(Token::KwPub) ==> spec_parse_visibility(t, pos) == (
            VisibilityV::Inherited,
            pos,
        ),
{
}

/// Discriminant attachment: a bare name followed by `=` and a literal parses
/// to a variant with `Unit` fields and that literal as its discriminant.
pub proof fn lemma_discriminant_attachment(t: Seq<Token>, pos: int, id: Ident, l: Lit)
    requires
        0 <= pos <= t.len(),
        tok_at(t, pos) == Some(Token::Ident(id)),
        tok_at(t, pos + 1) == Some(Token::Equals),
        tok_at(t, pos + 2) == Some(Token::Lit(l)),
    ensures
        spec_parse_variant(t, pos) matches PRes::Found { node, next } && next == pos + 3
            && node.attrs == Seq::<Attribute>::empty() && node.ident == id && node.fields
            == FieldsV::Unit && node.discriminant == Some(Expr::Lit(l)),
{
}

} // verus!
