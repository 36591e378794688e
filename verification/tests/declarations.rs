use declgram::ast::{
    Attribute, Expr, Field, Fields, FieldsNamed, FieldsUnnamed, Path, PathSeg, Type, Variant,
    VisRestricted, Visibility,
};
use declgram::parsing::ParseError;
use declgram::token::{Ident, Lit, Token};

fn ident(n: u32) -> Token {
    Token::Ident(Ident(n))
}

fn lit(n: u32) -> Token {
    Token::Lit(Lit(n))
}

fn path(segs: Vec<PathSeg>) -> Path {
    Path { segments: segs }
}

fn ty(n: u32) -> Type {
    Type { path: path(vec![PathSeg::Ident(Ident(n))]) }
}

// `Some(T)` parses to a variant with one unnamed field of type `T`.
#[test]
fn scenario_unnamed_single() {
    let toks = vec![ident(1), Token::OpenParen, ident(2), Token::CloseParen];
    let (v, next) = Variant::parse(&toks, 0).unwrap();
    assert_eq!(next, 4);
    assert_eq!(
        v,
        Variant {
            attrs: vec![],
            ident: Ident(1),
            fields: Fields::Unnamed(FieldsUnnamed {
                fields: vec![Field {
                    attrs: vec![],
                    vis: Visibility::Inherited,
                    ident: None,
                    colon: false,
                    ty: ty(2),
                }],
                trailing: false,
            }),
            discriminant: None,
        }
    );
}

// `Point { x: f64, y: f64 }` parses to a variant with two named fields.
#[test]
fn scenario_named_two_fields() {
    let toks = vec![
        ident(10),
        Token::OpenBrace,
        ident(11),
        Token::Colon,
        ident(12),
        Token::Comma,
        ident(13),
        Token::Colon,
        ident(12),
        Token::CloseBrace,
    ];
    let (v, next) = Variant::parse(&toks, 0).unwrap();
    assert_eq!(next, 10);
    assert_eq!(v.ident, Ident(10));
    assert_eq!(v.discriminant, None);
    match &v.fields {
        Fields::Named(f) => {
            assert!(!f.trailing);
            assert_eq!(f.fields.len(), 2);
            assert_eq!(f.fields[0].ident, Some(Ident(11)));
            assert!(f.fields[0].colon);
            assert_eq!(f.fields[0].ty, ty(12));
            assert_eq!(f.fields[1].ident, Some(Ident(13)));
            assert_eq!(f.fields[1].ty, ty(12));
        }
        other => panic!("expected named fields, got {:?}", other),
    }
}

// `None` parses to a unit variant with no discriminant.
#[test]
fn scenario_unit() {
    let toks = vec![ident(3)];
    let (v, next) = Variant::parse(&toks, 0).unwrap();
    assert_eq!(next, 1);
    assert_eq!(v.fields, Fields::Unit);
    assert_eq!(v.discriminant, None);
}

// `pub(self) field: T` as a named field: a restricted qualifier with no `in`
// keyword and path `self`.
#[test]
fn scenario_restricted_self_field() {
    let toks = vec![
        Token::KwPub,
        Token::OpenParen,
        Token::KwSelfValue,
        Token::CloseParen,
        ident(5),
        Token::Colon,
        ident(6),
    ];
    let (f, next) = Field::parse_named(&toks, 0).unwrap();
    assert_eq!(next, 7);
    assert_eq!(
        f.vis,
        Visibility::Restricted(VisRestricted {
            in_token: false,
            path: path(vec![PathSeg::SelfValue]),
        })
    );
    assert_eq!(f.ident, Some(Ident(5)));
    assert_eq!(f.ty, ty(6));
}

// Malformed `pub(crate T` as a named field: the parenthesized qualifier
// branches all fail (no closing paren), the alternation backtracks to bare
// `pub`, and the parse then fails at the unconsumed `(`.
#[test]
fn scenario_malformed_qualifier() {
    let toks = vec![Token::KwPub, Token::OpenParen, Token::KwCrate, ident(7)];
    let r = Field::parse_named(&toks, 0);
    assert_eq!(r, Err(ParseError { pos: 1 }));
}

// `{ x : T` without its closing brace: the delimited list fails at the
// position where the missing close delimiter was expected.
#[test]
fn missing_close_brace_position() {
    let toks = vec![Token::OpenBrace, ident(1), Token::Colon, ident(2)];
    let r = FieldsNamed::parse(&toks, 0);
    assert_eq!(r, Err(ParseError { pos: 4 }));
}

// A mismatched close delimiter fails likewise.
#[test]
fn mismatched_close_delimiter() {
    let toks = vec![Token::OpenParen, ident(1), Token::CloseBrace];
    let r = FieldsUnnamed::parse(&toks, 0);
    assert_eq!(r, Err(ParseError { pos: 2 }));
}

// `pub(crate)` is the crate qualifier, never a restricted path `crate`.
#[test]
fn vis_pub_crate() {
    let toks = vec![Token::KwPub, Token::OpenParen, Token::KwCrate, Token::CloseParen];
    let (v, next) = Visibility::parse(&toks, 0);
    assert_eq!(v, Visibility::Crate);
    assert_eq!(next, 4);
}

// `pub(in a::b)` keeps the `in` keyword and the two-segment path.
#[test]
fn vis_pub_in_path() {
    let toks = vec![
        Token::KwPub,
        Token::OpenParen,
        Token::KwIn,
        ident(20),
        Token::PathSep,
        ident(21),
        Token::CloseParen,
    ];
    let (v, next) = Visibility::parse(&toks, 0);
    assert_eq!(
        v,
        Visibility::Restricted(VisRestricted {
            in_token: true,
            path: path(vec![PathSeg::Ident(Ident(20)), PathSeg::Ident(Ident(21))]),
        })
    );
    assert_eq!(next, 7);
}

// `pub(super)` is restricted with no `in` keyword.
#[test]
fn vis_pub_super() {
    let toks = vec![Token::KwPub, Token::OpenParen, Token::KwSuper, Token::CloseParen];
    let (v, next) = Visibility::parse(&toks, 0);
    assert_eq!(
        v,
        Visibility::Restricted(VisRestricted { in_token: false, path: path(vec![PathSeg::Super]) })
    );
    assert_eq!(next, 4);
}

// Input with no leading `pub` is `Inherited`, consuming zero tokens.
#[test]
fn vis_inherited_consumes_nothing() {
    let toks = vec![ident(9)];
    let (v, next) = Visibility::parse(&toks, 0);
    assert_eq!(v, Visibility::Inherited);
    assert_eq!(next, 0);
}

// `pub` followed by parenthesized content matching no qualifier branch is a
// bare `pub`: the alternation backtracks rather than over-consuming.
#[test]
fn vis_bare_pub_before_unrelated_parens() {
    let toks = vec![Token::KwPub, Token::OpenParen, ident(9), Token::CloseParen];
    let (v, next) = Visibility::parse(&toks, 0);
    assert_eq!(v, Visibility::Public);
    assert_eq!(next, 1);
}

// `Foo = 1` parses to a unit variant with discriminant `1`.
#[test]
fn discriminant_attachment() {
    let toks = vec![ident(30), Token::Equals, lit(1)];
    let (v, next) = Variant::parse(&toks, 0).unwrap();
    assert_eq!(next, 3);
    assert_eq!(v.fields, Fields::Unit);
    assert_eq!(v.discriminant, Some(Expr::Lit(Lit(1))));
}

// A named constant is also accepted as a discriminant expression.
#[test]
fn discriminant_ident_expr() {
    let toks = vec![ident(30), Token::Equals, ident(31)];
    let (v, next) = Variant::parse(&toks, 0).unwrap();
    assert_eq!(next, 3);
    assert_eq!(v.discriminant, Some(Expr::Ident(Ident(31))));
}

// An `=` not followed by an expression is left unconsumed: the optional
// discriminant backtracks.
#[test]
fn discriminant_backtracks_without_expr() {
    let toks = vec![ident(30), Token::Equals];
    let (v, next) = Variant::parse(&toks, 0).unwrap();
    assert_eq!(next, 1);
    assert_eq!(v.discriminant, None);
}

// Attributes are collected in order before the variant name.
#[test]
fn attributes_before_variant() {
    let toks = vec![
        Token::Pound,
        Token::OpenBracket,
        ident(40),
        Token::CloseBracket,
        Token::Pound,
        Token::OpenBracket,
        ident(41),
        Token::CloseBracket,
        ident(42),
    ];
    let (v, next) = Variant::parse(&toks, 0).unwrap();
    assert_eq!(next, 9);
    assert_eq!(v.attrs, vec![Attribute { ident: Ident(40) }, Attribute { ident: Ident(41) }]);
    assert_eq!(v.ident, Ident(42));
    assert_eq!(v.fields, Fields::Unit);
}

// Empty braces parse to an empty named list with no trailing comma.
#[test]
fn empty_braces() {
    let toks = vec![ident(1), Token::OpenBrace, Token::CloseBrace];
    let (v, next) = Variant::parse(&toks, 0).unwrap();
    assert_eq!(next, 3);
    assert_eq!(v.fields, Fields::Named(FieldsNamed { fields: vec![], trailing: false }));
}

// A trailing comma is recorded and reproduced.
#[test]
fn trailing_comma_recorded() {
    let toks = vec![ident(1), Token::OpenParen, ident(2), Token::Comma, Token::CloseParen];
    let (v, next) = Variant::parse(&toks, 0).unwrap();
    assert_eq!(next, 5);
    match &v.fields {
        Fields::Unnamed(f) => {
            assert!(f.trailing);
            assert_eq!(f.fields.len(), 1);
        }
        other => panic!("expected unnamed fields, got {:?}", other),
    }
    let mut out = Vec::new();
    v.to_tokens(&mut out);
    assert_eq!(out, toks);
}

// Parsing a variant that does not start with a name fails at that position.
#[test]
fn variant_requires_name() {
    let toks = vec![Token::KwPub];
    assert_eq!(Variant::parse(&toks, 0), Err(ParseError { pos: 0 }));
    let empty: Vec<Token> = vec![];
    assert_eq!(Variant::parse(&empty, 0), Err(ParseError { pos: 0 }));
}

fn assert_round_trip(toks: &Vec<Token>) {
    let (v, next) = Variant::parse(toks, 0).unwrap();
    assert_eq!(next, toks.len());
    assert_eq!(&v.emit(), toks);
}

// `emit` collects the same tokens that `to_tokens` appends.
#[test]
fn emit_matches_to_tokens() {
    let toks = vec![ident(1), Token::OpenParen, Token::KwPub, ident(2), Token::CloseParen];
    let (v, _) = Variant::parse(&toks, 0).unwrap();
    let mut appended = vec![Token::Comma];
    v.to_tokens(&mut appended);
    let mut expected = vec![Token::Comma];
    expected.extend(v.emit());
    assert_eq!(appended, expected);
    assert_eq!(v.fields.emit(), toks[1..].to_vec());
}

// The round-trip law on concrete inputs: print(parse(D)) == D.
#[test]
fn round_trip_scenarios() {
    assert_round_trip(&vec![ident(1), Token::OpenParen, ident(2), Token::CloseParen]);
    assert_round_trip(&vec![
        ident(10),
        Token::OpenBrace,
        ident(11),
        Token::Colon,
        ident(12),
        Token::Comma,
        ident(13),
        Token::Colon,
        ident(12),
        Token::CloseBrace,
    ]);
    assert_round_trip(&vec![ident(3)]);
    assert_round_trip(&vec![ident(30), Token::Equals, lit(7)]);
    assert_round_trip(&vec![
        Token::Pound,
        Token::OpenBracket,
        ident(40),
        Token::CloseBracket,
        ident(1),
        Token::OpenBrace,
        Token::KwPub,
        Token::OpenParen,
        Token::KwIn,
        ident(20),
        Token::PathSep,
        ident(21),
        Token::CloseParen,
        ident(5),
        Token::Colon,
        ident(6),
        Token::PathSep,
        ident(7),
        Token::Comma,
        Token::CloseBrace,
    ]);
    assert_round_trip(&vec![ident(1), Token::OpenBrace, Token::CloseBrace]);
}

// Idempotence on a concrete input: parse(print(parse(D))) == parse(D).
#[test]
fn reparse_idempotent() {
    let toks = vec![
        ident(10),
        Token::OpenBrace,
        Token::KwPub,
        ident(11),
        Token::Colon,
        ident(12),
        Token::Comma,
        Token::CloseBrace,
    ];
    let (v1, n1) = Variant::parse(&toks, 0).unwrap();
    let mut printed = Vec::new();
    v1.to_tokens(&mut printed);
    let (v2, n2) = Variant::parse(&printed, 0).unwrap();
    assert_eq!(v1, v2);
    assert_eq!(n1, n2);
}

// The printer is total and verbatim: a hand-built restricted qualifier with
// a multi-segment path but no captured `in` keyword is re-emitted without
// one, even though parsing would never produce it.
#[test]
fn printer_verbatim_on_hand_built_tree() {
    let vis = Visibility::Restricted(VisRestricted {
        in_token: false,
        path: path(vec![PathSeg::Ident(Ident(50)), PathSeg::Ident(Ident(51))]),
    });
    assert_eq!(
        vis.emit(),
        vec![
            Token::KwPub,
            Token::OpenParen,
            ident(50),
            Token::PathSep,
            ident(51),
            Token::CloseParen,
        ]
    );
}

// A field printed without a name omits the colon even if one is (wrongly)
// recorded; the printer mirrors parse order, not the stored flag.
#[test]
fn printer_omits_colon_without_name() {
    let f = Field {
        attrs: vec![],
        vis: Visibility::Public,
        ident: None,
        colon: true,
        ty: ty(6),
    };
    assert_eq!(f.emit(), vec![Token::KwPub, ident(6)]);
}

// The descriptive labels for failure reports.
#[test]
fn descriptions() {
    assert_eq!(Variant::description(), Some("enum variant"));
    assert_eq!(Visibility::description(), Some("visibility qualifier, e.g. `pub`"));
}

// A crate-visible named field inside braces: the qualifier's backtracking
// alternation composes with the field grammar.
#[test]
fn crate_visible_field_in_braces() {
    let toks = vec![
        ident(1),
        Token::OpenBrace,
        Token::KwPub,
        Token::OpenParen,
        Token::KwCrate,
        Token::CloseParen,
        ident(2),
        Token::Colon,
        ident(3),
        Token::CloseBrace,
    ];
    let (v, next) = Variant::parse(&toks, 0).unwrap();
    assert_eq!(next, 10);
    match &v.fields {
        Fields::Named(f) => {
            assert_eq!(f.fields.len(), 1);
            assert_eq!(f.fields[0].vis, Visibility::Crate);
            assert_eq!(f.fields[0].ident, Some(Ident(2)));
        }
        other => panic!("expected named fields, got {:?}", other),
    }
    let mut out = Vec::new();
    v.to_tokens(&mut out);
    assert_eq!(out, toks);
}

// A public unnamed field: `A(pub T)`.
#[test]
fn public_unnamed_field() {
    let toks = vec![ident(1), Token::OpenParen, Token::KwPub, ident(2), Token::CloseParen];
    let (v, next) = Variant::parse(&toks, 0).unwrap();
    assert_eq!(next, 5);
    match &v.fields {
        Fields::Unnamed(f) => {
            assert_eq!(f.fields.len(), 1);
            assert_eq!(f.fields[0].vis, Visibility::Public);
            assert_eq!(f.fields[0].ident, None);
            assert!(!f.fields[0].colon);
        }
        other => panic!("expected unnamed fields, got {:?}", other),
    }
    let mut out = Vec::new();
    v.to_tokens(&mut out);
    assert_eq!(out, toks);
}

// A field whose type is a multi-segment path round-trips with its `::`s.
#[test]
fn multi_segment_type_path() {
    let toks = vec![
        ident(1),
        Token::OpenParen,
        ident(2),
        Token::PathSep,
        ident(3),
        Token::PathSep,
        ident(4),
        Token::CloseParen,
    ];
    let (v, next) = Variant::parse(&toks, 0).unwrap();
    assert_eq!(next, 8);
    match &v.fields {
        Fields::Unnamed(f) => {
            assert_eq!(
                f.fields[0].ty,
                Type {
                    path: path(vec![
                        PathSeg::Ident(Ident(2)),
                        PathSeg::Ident(Ident(3)),
                        PathSeg::Ident(Ident(4)),
                    ]),
                }
            );
        }
        other => panic!("expected unnamed fields, got {:?}", other),
    }
    let mut out = Vec::new();
    v.to_tokens(&mut out);
    assert_eq!(out, toks);
}

// Parsing from a mid-stream position is a pure function of the position.
#[test]
fn parse_from_offset() {
    let toks = vec![Token::Comma, ident(3), Token::Equals, lit(4)];
    let (v, next) = Variant::parse(&toks, 1).unwrap();
    assert_eq!(next, 4);
    assert_eq!(v.ident, Ident(3));
    assert_eq!(v.discriminant, Some(Expr::Lit(Lit(4))));
}
