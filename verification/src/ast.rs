//! The declaration AST: tagged-union node types holding the semantic payload
//! of a declaration fragment.  Each executable node type has a mathematical
//! view (the `*V` types) over which all contracts are stated.
//!
//! The model is syntactic, not semantic: any combination the grammar allows is
//! representable.  Well-formedness (`variant_wf` and friends) records the
//! invariants that every *parsed* node satisfies; the printer does not
//! re-validate them.

use crate::token::{Ident, Lit};
use vstd::prelude::*;

verus! {

/// An outer attribute, `#[name]`.  The attribute-body grammar is an external
/// collaborator; this core records only the interned name.
#[derive(Clone, Copy, Debug, PartialEq, Eq, Structural)]
pub struct Attribute {
    /// The interned attribute name.
    pub ident: Ident,
}

/// One segment of a module-style path.
#[derive(Clone, Copy, Debug, PartialEq, Eq, Structural)]
pub enum PathSeg {
    /// An ordinary identifier segment.
    Ident(Ident),
    /// The keyword segment `self`.
    SelfValue,
    /// The keyword segment `super`.
    Super,
    /// The keyword segment `crate`.
    Crate,
}

/// A module-style path: one or more segments joined by `::`.
#[derive(Clone, Debug, PartialEq, Eq)]
pub struct Path {
    /// The segments, in source order.
    pub segments: Vec<PathSeg>,
}

impl View for Path {
    type V = Seq<PathSeg>;

    open spec fn view(&self) -> Seq<PathSeg> {
        self.segments@
    }
}

/// A type, opaque to this core beyond being a module-style path.
/// The full type grammar is an external collaborator.
#[derive(Clone, Debug, PartialEq, Eq)]
pub struct Type {
    /// The path naming the type.
    pub path: Path,
}

impl View for Type {
    type V = Seq<PathSeg>;

    open spec fn view(&self) -> Seq<PathSeg> {
        self.path@
    }
}

/// An expression, opaque to this core beyond being a single literal or
/// identifier token.  The full expression grammar is an external collaborator.
#[derive(Clone, Copy, Debug, PartialEq, Eq, Structural)]
pub enum Expr {
    /// A literal expression, e.g. the `1` of `Foo = 1`.
    Lit(Lit),
    /// An identifier expression, e.g. a named constant.
    Ident(Ident),
}

/// Restricted visibility, e.g. `pub(self)`, `pub(super)` or
/// `pub(in some::module)`.
#[derive(Clone, Debug, PartialEq, Eq)]
pub struct VisRestricted {
    /// Whether the `in` keyword was written inside the parentheses.
    pub in_token: bool,
    /// The restricting path.
    pub path: Path,
}

/// The view of `VisRestricted`.
#[verifier::ext_equal]
pub struct VisRestrictedV {
    /// Whether the `in` keyword was written inside the parentheses.
    pub in_token: bool,
    /// The restricting path.
    pub path: Seq<PathSeg>,
}

impl View for VisRestricted {
    type V = VisRestrictedV;

    open spec fn view(&self) -> VisRestrictedV {
        VisRestrictedV { in_token: self.in_token, path: self.path@ }
    }
}

/// Visibility level of a field.
#[derive(Clone, Debug, PartialEq, Eq)]
pub enum Visibility {
    /// Public, i.e. `pub`.
    Public,
    /// Crate-visible, i.e. `pub(crate)`.
    Crate,
    /// Restricted, e.g. `pub(self)` or `pub(in some::module)`.
    Restricted(VisRestricted),
    /// Inherited, i.e. private: no qualifier, zero tokens.
    Inherited,
}

/// The view of `Visibility`.
#[verifier::ext_equal]
pub enum VisibilityV {
    /// Public, i.e. `pub`.
    Public,
    /// Crate-visible, i.e. `pub(crate)`.
    Crate,
    /// Restricted, e.g. `pub(self)` or `pub(in some::module)`.
    Restricted(VisRestrictedV),
    /// Inherited, i.e. private: no qualifier, zero tokens.
    Inherited,
}

impl View for Visibility {
    type V = VisibilityV;

    open spec fn view(&self) -> VisibilityV {
        match self {
            Visibility::Public => VisibilityV::Public,
            Visibility::Crate => VisibilityV::Crate,
            Visibility::Restricted(r) => VisibilityV::Restricted(r@),
            Visibility::Inherited => VisibilityV::Inherited,
        }
    }
}

/// A field of a struct or enum variant.
#[derive(Clone, Debug, PartialEq, Eq)]
pub struct Field {
    /// Attributes tagged on the field.
    pub attrs: Vec<Attribute>,
    /// Visibility of the field.
    pub vis: Visibility,
    /// Name of the field, if any.  Fields of tuple variants have no names.
    pub ident: Option<Ident>,
    /// Whether a `:` follows the name.  Present iff `ident` is present.
    pub colon: bool,
    /// Type of the field.
    pub ty: Type,
}

/// The view of `Field`.
#[verifier::ext_equal]
pub struct FieldV {
    /// Attributes tagged on the field.
    pub attrs: Seq<Attribute>,
    /// Visibility of the field.
    pub vis: VisibilityV,
    /// Name of the field, if any.
    pub ident: Option<Ident>,
    /// Whether a `:` follows the name.
    pub colon: bool,
    /// Type of the field.
    pub ty: Seq<PathSeg>,
}

impl View for Field {
    type V = FieldV;

    open spec fn view(&self) -> FieldV {
        FieldV {
            attrs: self.attrs@,
            vis: self.vis@,
            ident: self.ident,
            colon: self.colon,
            ty: self.ty@,
        }
    }
}

/// The view of a sequence of fields.
pub open spec fn fields_view(fields: Seq<Field>) -> Seq<FieldV> {
    fields.map_values(|f: Field| f@)
}

/// Named fields of a struct or struct variant, such as `Point { x: f64, y: f64 }`:
/// a brace-delimited, comma-separated list, optionally with a trailing comma.
#[derive(Clone, Debug, PartialEq, Eq)]
pub struct FieldsNamed {
    /// The fields, in source order.
    pub fields: Vec<Field>,
    /// Whether a trailing comma follows the last field.
    pub trailing: bool,
}

/// The view of `FieldsNamed`.
#[verifier::ext_equal]
pub struct FieldsNamedV {
    /// The fields, in source order.
    pub fields: Seq<FieldV>,
    /// Whether a trailing comma follows the last field.
    pub trailing: bool,
}

impl View for FieldsNamed {
    type V = FieldsNamedV;

    open spec fn view(&self) -> FieldsNamedV {
        FieldsNamedV { fields: fields_view(self.fields@), trailing: self.trailing }
    }
}

/// Unnamed fields of a tuple variant, such as `Some(T)`: a paren-delimited,
/// comma-separated list, optionally with a trailing comma.
#[derive(Clone, Debug, PartialEq, Eq)]
pub struct FieldsUnnamed {
    /// The fields, in source order.
    pub fields: Vec<Field>,
    /// Whether a trailing comma follows the last field.
    pub trailing: bool,
}

/// The view of `FieldsUnnamed`.
#[verifier::ext_equal]
pub struct FieldsUnnamedV {
    /// The fields, in source order.
    pub fields: Seq<FieldV>,
    /// Whether a trailing comma follows the last field.
    pub trailing: bool,
}

impl View for FieldsUnnamed {
    type V = FieldsUnnamedV;

    open spec fn view(&self) -> FieldsUnnamedV {
        FieldsUnnamedV { fields: fields_view(self.fields@), trailing: self.trailing }
    }
}

/// Data stored within an enum variant or struct.
#[derive(Clone, Debug, PartialEq, Eq)]
pub enum Fields {
    /// Named fields, such as `Point { x: f64, y: f64 }`.
    Named(FieldsNamed),
    /// Unnamed fields, such as `Some(T)`.
    Unnamed(FieldsUnnamed),
    /// A unit variant, such as `None`: no payload, no delimiters.
    Unit,
}

/// The view of `Fields`.
#[verifier::ext_equal]
pub enum FieldsV {
    /// Named fields, such as `Point { x: f64, y: f64 }`.
    Named(FieldsNamedV),
    /// Unnamed fields, such as `Some(T)`.
    Unnamed(FieldsUnnamedV),
    /// A unit variant, such as `None`: no payload, no delimiters.
    Unit,
}

impl View for Fields {
    type V = FieldsV;

    open spec fn view(&self) -> FieldsV {
        match self {
            Fields::Named(f) => FieldsV::Named(f@),
            Fields::Unnamed(f) => FieldsV::Unnamed(f@),
            Fields::Unit => FieldsV::Unit,
        }
    }
}

/// An enum variant.
#[derive(Clone, Debug, PartialEq, Eq)]
pub struct Variant {
    /// Attributes tagged on the variant.
    pub attrs: Vec<Attribute>,
    /// Name of the variant.
    pub ident: Ident,
    /// Content stored in the variant.
    pub fields: Fields,
    /// Explicit discriminant, e.g. the `1` of `Foo = 1`; the printer emits the
    /// `=` before it.
    pub discriminant: Option<Expr>,
}

/// The view of `Variant`.
#[verifier::ext_equal]
pub struct VariantV {
    /// Attributes tagged on the variant.
    pub attrs: Seq<Attribute>,
    /// Name of the variant.
    pub ident: Ident,
    /// Content stored in the variant.
    pub fields: FieldsV,
    /// Explicit discriminant, e.g. the `1` of `Foo = 1`.
    pub discriminant: Option<Expr>,
}

impl View for Variant {
    type V = VariantV;

    open spec fn view(&self) -> VariantV {
        VariantV {
            attrs: self.attrs@,
            ident: self.ident,
            fields: self.fields@,
            discriminant: self.discriminant,
        }
    }
}

/// Well-formedness of a visibility node: a restricted qualifier has a
/// non-empty path, and the `in` keyword is absent only when the path is
/// syntactically `self` or `super`.  This is a parse-time decision: the
/// printer re-emits exactly what was captured without re-validating it.
pub open spec fn vis_wf(v: VisibilityV) -> bool {
    match v {
        VisibilityV::Restricted(r) => {
            &&& r.path.len() >= 1
            &&& !r.in_token ==> r.path.len() == 1 && (r.path[0] is SelfValue || r.path[0] is Super)
        },
        _ => true,
    }
}

/// Well-formedness of a field: the colon is present iff the name is, the
/// visibility is well-formed, and the type path is non-empty.
pub open spec fn field_wf(f: FieldV) -> bool {
    &&& f.colon <==> f.ident is Some
    &&& vis_wf(f.vis)
    &&& f.ty.len() >= 1
}

/// Well-formedness of a named field list: every field is well-formed and
/// carries a name, and a trailing comma implies at least one field.
pub open spec fn fields_named_wf(fs: FieldsNamedV) -> bool {
    &&& forall|i: int|
        0 <= i < fs.fields.len() ==> field_wf(#[trigger] fs.fields[i]) && fs.fields[i].ident
            is Some
    &&& fs.trailing ==> fs.fields.len() >= 1
}

/// Well-formedness of an unnamed field list: every field is well-formed and
/// carries no name, and a trailing comma implies at least one field.
pub open spec fn fields_unnamed_wf(fs: FieldsUnnamedV) -> bool {
    &&& forall|i: int|
        0 <= i < fs.fields.len() ==> field_wf(#[trigger] fs.fields[i]) && fs.fields[i].ident
            is None
    &&& fs.trailing ==> fs.fields.len() >= 1
}

/// Well-formedness of a fields node: the delimiter kind and the
/// presence or absence of field names are consistent with the variant tag.
pub open spec fn fields_wf(fs: FieldsV) -> bool {
    match fs {
        FieldsV::Named(f) => fields_named_wf(f),
        FieldsV::Unnamed(f) => fields_unnamed_wf(f),
        FieldsV::Unit => true,
    }
}

/// Well-formedness of a variant: its fields node is well-formed.
pub open spec fn variant_wf(v: VariantV) -> bool {
    fields_wf(v.fields)
}

} // verus!
