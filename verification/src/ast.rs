//! The declaration model.
//!
//! These types hold, as plain values, what the generator reads of an
//! annotated sum-type declaration: its name, generic parameters, variants
//! with their field types, per-variant sub-type tags, and the token
//! payloads (visibility, bounds, where clauses, derivation requests) that
//! are carried through verbatim.

use vstd::prelude::*;
use crate::ident::Ident;

verus! {

/// A token payload carried through generation verbatim: a visibility,
/// a parameter's bounds, a where clause, or a derivation request.
pub struct TokenBlob {
    /// The payload's bytes.
    pub bytes: Vec<u8>,
}

impl View for TokenBlob {
    type V = Seq<u8>;

    open spec fn view(&self) -> Seq<u8> {
        self.bytes@
    }
}

impl TokenBlob {
    /// Returns a copy of the payload.
    pub fn duplicate(&self) -> (r: TokenBlob)
        ensures
            r@ == self@,
    {
        let mut bytes: Vec<u8> = Vec::new();
        let mut i: usize = 0;
        while i < self.bytes.len()
            invariant
                i <= self@.len(),
                bytes@ == self@.subrange(0, i as int),
            decreases self@.len() - i,
        {
            bytes.push(self.bytes[i]);
            i = i + 1;
        }
        assert(bytes@ =~= self@);
        TokenBlob { bytes }
    }
}

/// What kind of generic parameter a declaration carries.
#[derive(Clone, Copy, PartialEq, Eq, Structural)]
pub enum ParamKind {
    /// A type parameter.
    Ty,
    /// A lifetime parameter.
    Lifetime,
    /// A const parameter.
    Const,
}

/// One generic parameter of a declaration: its kind, its name, and its
/// full declaration tokens (bounds included), carried verbatim.
pub struct GenericParam {
    /// The parameter's kind.
    pub kind: ParamKind,
    /// The parameter's name.
    pub ident: Ident,
    /// The parameter's declaration tokens, bounds included.
    pub decl: TokenBlob,
}

/// Structural equality of generic parameters.
pub open spec fn param_eq(a: GenericParam, b: GenericParam) -> bool {
    &&& a.kind == b.kind
    &&& a.ident@ == b.ident@
    &&& a.decl@ == b.decl@
}

impl GenericParam {
    /// Returns a copy of the parameter.
    pub fn duplicate(&self) -> (r: GenericParam)
        ensures
            param_eq(r, *self),
    {
        GenericParam { kind: self.kind, ident: self.ident.duplicate(), decl: self.decl.duplicate() }
    }
}

/// A generic argument inside a path segment's angle-bracketed list.
pub enum GenArg {
    /// A lifetime argument, by name.
    Lifetime(Ident),
    /// A type argument.
    Ty(TypeExpr),
    /// An argument form the scanner does not inspect.
    Opaque,
}

/// The arguments of one path segment.
pub enum PathArgs {
    /// No arguments.
    Bare,
    /// An angle-bracketed argument list.
    Angle(Vec<GenArg>),
    /// A parenthesized, call-style argument list.
    Parens {
        /// The parameter types.
        inputs: Vec<TypeExpr>,
        /// The return type, when one is written.
        output: Option<Box<TypeExpr>>,
    },
}

/// One segment of a path type.
pub struct PathSeg {
    /// The segment's identifier.
    pub ident: Ident,
    /// The segment's arguments.
    pub args: PathArgs,
}

/// A field's declared type, in the structural forms the scanner walks.
/// Forms it does not inspect are held as `Opaque` and contribute no
/// generic references.
pub enum TypeExpr {
    /// The reserved self marker: the enclosing declaration's own type.
    SelfMarker,
    /// An array type's element.
    Array(Box<TypeExpr>),
    /// A function-pointer type: bound lifetimes, parameters, return type.
    BareFn {
        /// The names of the bound lifetimes.
        binders: Vec<Ident>,
        /// The parameter types.
        inputs: Vec<TypeExpr>,
        /// The return type, when one is written.
        output: Option<Box<TypeExpr>>,
    },
    /// A grouped inner type.
    Group(Box<TypeExpr>),
    /// A parenthesized inner type.
    Paren(Box<TypeExpr>),
    /// A path type, with an optional qualified self type.
    Path {
        /// The qualified self type, when one is written.
        qself: Option<Box<TypeExpr>>,
        /// The path's segments.
        segments: Vec<PathSeg>,
    },
    /// A raw pointer's target.
    RawPtr(Box<TypeExpr>),
    /// A reference's lifetime and target.
    Ref {
        /// The reference's lifetime, when one is written.
        lifetime: Option<Ident>,
        /// The referent type.
        elem: Box<TypeExpr>,
    },
    /// A slice type's element.
    Slice(Box<TypeExpr>),
    /// A type form the scanner does not inspect.
    Opaque,
}

/// Pointwise equality of identifier sequences, by content.
pub open spec fn idents_eq(a: Seq<Ident>, b: Seq<Ident>) -> bool {
    a.len() == b.len() && forall|i: int| 0 <= i < a.len() ==> a[i]@ == b[i]@
}

/// Pointwise structural equality of type expression sequences.
pub open spec fn tys_eq(a: Seq<TypeExpr>, b: Seq<TypeExpr>) -> bool
    decreases a,
{
    a.len() == b.len() && forall|i: int| 0 <= i < a.len() ==> ty_eq(#[trigger] a[i], b[i])
}

/// Pointwise structural equality of path segment sequences.
pub open spec fn segs_eq(a: Seq<PathSeg>, b: Seq<PathSeg>) -> bool
    decreases a,
{
    a.len() == b.len() && forall|i: int| 0 <= i < a.len() ==> seg_eq(#[trigger] a[i], b[i])
}

/// Pointwise structural equality of generic argument sequences.
pub open spec fn gargs_eq(a: Seq<GenArg>, b: Seq<GenArg>) -> bool
    decreases a,
{
    a.len() == b.len() && forall|i: int| 0 <= i < a.len() ==> garg_eq(#[trigger] a[i], b[i])
}

/// Pointwise structural equality of a type expression sequence follows
/// from equality at every index.
pub proof fn lemma_tys_eq_intro(a: Seq<TypeExpr>, b: Seq<TypeExpr>)
    requires
        a.len() == b.len(),
        forall|i: int| 0 <= i < a.len() ==> ty_eq(a[i], b[i]),
    ensures
        tys_eq(a, b),
{
    assert(forall|i: int| 0 <= i < a.len() ==> ty_eq(#[trigger] a[i], b[i]));
    assert(tys_eq(a, b));
}

/// Pointwise structural equality of a path segment sequence follows
/// from equality at every index.
pub proof fn lemma_segs_eq_intro(a: Seq<PathSeg>, b: Seq<PathSeg>)
    requires
        a.len() == b.len(),
        forall|i: int| 0 <= i < a.len() ==> seg_eq(a[i], b[i]),
    ensures
        segs_eq(a, b),
{
    assert(forall|i: int| 0 <= i < a.len() ==> seg_eq(#[trigger] a[i], b[i]));
    assert(segs_eq(a, b));
}

/// Pointwise structural equality of a generic argument sequence follows
/// from equality at every index.
pub proof fn lemma_gargs_eq_intro(a: Seq<GenArg>, b: Seq<GenArg>)
    requires
        a.len() == b.len(),
        forall|i: int| 0 <= i < a.len() ==> garg_eq(a[i], b[i]),
    ensures
        gargs_eq(a, b),
{
    assert(forall|i: int| 0 <= i < a.len() ==> garg_eq(#[trigger] a[i], b[i]));
    assert(gargs_eq(a, b));
}

/// Structural equality of type expressions.
pub open spec fn ty_eq(a: TypeExpr, b: TypeExpr) -> bool
    decreases a,
{
    match (a, b) {
        (TypeExpr::SelfMarker, TypeExpr::SelfMarker) => true,
        (TypeExpr::Array(x), TypeExpr::Array(y)) => ty_eq(*x, *y),
        (
            TypeExpr::BareFn { binders: ba, inputs: ia, output: oa },
            TypeExpr::BareFn { binders: bb, inputs: ib, output: ob },
        ) => {
            &&& idents_eq(ba@, bb@)
            &&& tys_eq(ia@, ib@)
            &&& opt_ty_eq(oa, ob)
        },
        (TypeExpr::Group(x), TypeExpr::Group(y)) => ty_eq(*x, *y),
        (TypeExpr::Paren(x), TypeExpr::Paren(y)) => ty_eq(*x, *y),
        (
            TypeExpr::Path { qself: qa, segments: sa },
            TypeExpr::Path { qself: qb, segments: sb },
        ) => {
            &&& opt_ty_eq(qa, qb)
            &&& segs_eq(sa@, sb@)
        },
        (TypeExpr::RawPtr(x), TypeExpr::RawPtr(y)) => ty_eq(*x, *y),
        (
            TypeExpr::Ref { lifetime: la, elem: ea },
            TypeExpr::Ref { lifetime: lb, elem: eb },
        ) => {
            &&& match (la, lb) {
                (Some(x), Some(y)) => x@ == y@,
                (None, None) => true,
                _ => false,
            }
            &&& ty_eq(*ea, *eb)
        },
        (TypeExpr::Slice(x), TypeExpr::Slice(y)) => ty_eq(*x, *y),
        (TypeExpr::Opaque, TypeExpr::Opaque) => true,
        _ => false,
    }
}

/// Structural equality of optional boxed type expressions.
pub open spec fn opt_ty_eq(a: Option<Box<TypeExpr>>, b: Option<Box<TypeExpr>>) -> bool
    decreases a,
{
    match (a, b) {
        (Some(x), Some(y)) => ty_eq(*x, *y),
        (None, None) => true,
        _ => false,
    }
}

/// Structural equality of path segments.
pub open spec fn seg_eq(a: PathSeg, b: PathSeg) -> bool
    decreases a,
{
    a.ident@ == b.ident@ && args_eq(a.args, b.args)
}

/// Structural equality of path-segment argument lists.
pub open spec fn args_eq(a: PathArgs, b: PathArgs) -> bool
    decreases a,
{
    match (a, b) {
        (PathArgs::Bare, PathArgs::Bare) => true,
        (PathArgs::Angle(xa), PathArgs::Angle(xb)) => gargs_eq(xa@, xb@),
        (
            PathArgs::Parens { inputs: ia, output: oa },
            PathArgs::Parens { inputs: ib, output: ob },
        ) => {
            &&& tys_eq(ia@, ib@)
            &&& opt_ty_eq(oa, ob)
        },
        _ => false,
    }
}

/// Structural equality of generic arguments.
pub open spec fn garg_eq(a: GenArg, b: GenArg) -> bool
    decreases a,
{
    match (a, b) {
        (GenArg::Lifetime(x), GenArg::Lifetime(y)) => x@ == y@,
        (GenArg::Ty(x), GenArg::Ty(y)) => ty_eq(x, y),
        (GenArg::Opaque, GenArg::Opaque) => true,
        _ => false,
    }
}

impl TypeExpr {
    /// Returns a structurally equal copy of the type expression.
    pub fn duplicate(&self) -> (r: TypeExpr)
        ensures
            ty_eq(r, *self),
        decreases *self,
    {
        match self {
            TypeExpr::SelfMarker => TypeExpr::SelfMarker,
            TypeExpr::Array(x) => {
                let r = TypeExpr::Array(Box::new((&**x).duplicate()));
                assert(ty_eq(r, *self)) by { reveal_with_fuel(ty_eq, 2); }
                r
            },
            TypeExpr::BareFn { binders, inputs, output } => {
                let r = TypeExpr::BareFn {
                    binders: duplicate_idents(binders),
                    inputs: duplicate_tys(inputs),
                    output: duplicate_opt_ty(output),
                };
                assert(ty_eq(r, *self)) by { reveal_with_fuel(ty_eq, 2); }
                r
            },
            TypeExpr::Group(x) => {
                let r = TypeExpr::Group(Box::new((&**x).duplicate()));
                assert(ty_eq(r, *self)) by { reveal_with_fuel(ty_eq, 2); }
                r
            },
            TypeExpr::Paren(x) => {
                let r = TypeExpr::Paren(Box::new((&**x).duplicate()));
                assert(ty_eq(r, *self)) by { reveal_with_fuel(ty_eq, 2); }
                r
            },
            TypeExpr::Path { qself, segments } => {
                let r = TypeExpr::Path {
                    qself: duplicate_opt_ty(qself),
                    segments: duplicate_segs(segments),
                };
                assert(ty_eq(r, *self)) by { reveal_with_fuel(ty_eq, 2); }
                r
            },
            TypeExpr::RawPtr(x) => {
                let r = TypeExpr::RawPtr(Box::new((&**x).duplicate()));
                assert(ty_eq(r, *self)) by { reveal_with_fuel(ty_eq, 2); }
                r
            },
            TypeExpr::Ref { lifetime, elem } => {
                let r = TypeExpr::Ref {
                    lifetime: match lifetime {
                        Some(l) => Some(l.duplicate()),
                        None => None,
                    },
                    elem: Box::new((&**elem).duplicate()),
                };
                assert(ty_eq(r, *self)) by { reveal_with_fuel(ty_eq, 2); }
                r
            },
            TypeExpr::Slice(x) => {
                let r = TypeExpr::Slice(Box::new((&**x).duplicate()));
                assert(ty_eq(r, *self)) by { reveal_with_fuel(ty_eq, 2); }
                r
            },
            TypeExpr::Opaque => TypeExpr::Opaque,
        }
    }
}

/// Copies a list of identifiers.
pub fn duplicate_idents(v: &Vec<Ident>) -> (r: Vec<Ident>)
    ensures
        idents_eq(r@, v@),
{
    let mut r: Vec<Ident> = Vec::new();
    let mut i: usize = 0;
    while i < v.len()
        invariant
            i <= v@.len(),
            r@.len() == i,
            forall|j: int| 0 <= j < i ==> r@[j]@ == v@[j]@,
        decreases v@.len() - i,
    {
        r.push(v[i].duplicate());
        i = i + 1;
    }
    assert(idents_eq(r@, v@));
    r
}

/// Copies a list of type expressions.
pub fn duplicate_tys(v: &Vec<TypeExpr>) -> (r: Vec<TypeExpr>)
    ensures
        tys_eq(r@, v@),
    decreases v@,
{
    let mut r: Vec<TypeExpr> = Vec::new();
    let mut i: usize = 0;
    while i < v.len()
        invariant
            i <= v@.len(),
            r@.len() == i,
            forall|j: int| 0 <= j < i ==> ty_eq(#[trigger] r@[j], v@[j]),
        decreases v@.len() - i,
    {
        r.push(v[i].duplicate());
        i = i + 1;
    }
    proof {
        lemma_tys_eq_intro(r@, v@);
    }
    r
}

/// Copies an optional boxed type expression.
pub fn duplicate_opt_ty(v: &Option<Box<TypeExpr>>) -> (r: Option<Box<TypeExpr>>)
    ensures
        opt_ty_eq(r, *v),
    decreases *v,
{
    match v {
        Some(x) => Some(Box::new((&**x).duplicate())),
        None => None,
    }
}

/// Copies a path segment list.
pub fn duplicate_segs(v: &Vec<PathSeg>) -> (r: Vec<PathSeg>)
    ensures
        segs_eq(r@, v@),
    decreases v@,
{
    let mut r: Vec<PathSeg> = Vec::new();
    let mut i: usize = 0;
    while i < v.len()
        invariant
            i <= v@.len(),
            r@.len() == i,
            forall|j: int| 0 <= j < i ==> seg_eq(#[trigger] r@[j], v@[j]),
        decreases v@.len() - i,
    {
        r.push(duplicate_seg(&v[i]));
        i = i + 1;
    }
    proof {
        lemma_segs_eq_intro(r@, v@);
    }
    r
}

/// Copies one path segment.
pub fn duplicate_seg(s: &PathSeg) -> (r: PathSeg)
    ensures
        seg_eq(r, *s),
    decreases *s,
{
    PathSeg { ident: s.ident.duplicate(), args: duplicate_args(&s.args) }
}

/// Copies a path segment's arguments.
pub fn duplicate_args(a: &PathArgs) -> (r: PathArgs)
    ensures
        args_eq(r, *a),
    decreases *a,
{
    match a {
        PathArgs::Bare => PathArgs::Bare,
        PathArgs::Angle(xs) => {
            let r = PathArgs::Angle(duplicate_gargs(xs));
            assert(args_eq(r, *a)) by { reveal_with_fuel(args_eq, 2); }
            r
        },
        PathArgs::Parens { inputs, output } => {
            let r = PathArgs::Parens {
                inputs: duplicate_tys(inputs),
                output: duplicate_opt_ty(output),
            };
            assert(args_eq(r, *a)) by { reveal_with_fuel(args_eq, 2); }
            r
        },
    }
}

/// Copies a generic argument list.
pub fn duplicate_gargs(v: &Vec<GenArg>) -> (r: Vec<GenArg>)
    ensures
        gargs_eq(r@, v@),
    decreases v@,
{
    let mut r: Vec<GenArg> = Vec::new();
    let mut i: usize = 0;
    while i < v.len()
        invariant
            i <= v@.len(),
            r@.len() == i,
            forall|j: int| 0 <= j < i ==> garg_eq(#[trigger] r@[j], v@[j]),
        decreases v@.len() - i,
    {
        r.push(duplicate_garg(&v[i]));
        i = i + 1;
    }
    proof {
        lemma_gargs_eq_intro(r@, v@);
    }
    r
}

/// Copies one generic argument.
pub fn duplicate_garg(a: &GenArg) -> (r: GenArg)
    ensures
        garg_eq(r, *a),
    decreases *a,
{
    match a {
        GenArg::Lifetime(l) => GenArg::Lifetime(l.duplicate()),
        GenArg::Ty(t) => GenArg::Ty(t.duplicate()),
        GenArg::Opaque => GenArg::Opaque,
    }
}

/// Equality of optional identifiers, by content.
pub open spec fn opt_ident_eq(a: Option<Ident>, b: Option<Ident>) -> bool {
    match (a, b) {
        (Some(x), Some(y)) => x@ == y@,
        (None, None) => true,
        _ => false,
    }
}

/// How a variant's fields are written.
#[derive(Clone, Copy, PartialEq, Eq, Structural)]
pub enum FieldShape {
    /// No fields.
    Unit,
    /// An ordered list of unnamed fields.
    Tuple,
    /// A set of uniquely named fields.
    Named,
}

/// One field of a variant: an optional name, the declared type in the
/// structural forms the scanner walks, and the declared type's tokens
/// verbatim, for re-emission.
pub struct Field {
    /// The field's name, present exactly in named shapes.
    pub name: Option<Ident>,
    /// The field's declared type, as scanned.
    pub ty: TypeExpr,
    /// The declared type's tokens, carried verbatim.
    pub tokens: TokenBlob,
}

/// Structural equality of fields.
pub open spec fn field_eq(a: Field, b: Field) -> bool {
    opt_ident_eq(a.name, b.name) && ty_eq(a.ty, b.ty) && a.tokens@ == b.tokens@
}

impl Field {
    /// Returns a structurally equal copy of the field.
    pub fn duplicate(&self) -> (r: Field)
        ensures
            field_eq(r, *self),
    {
        Field {
            name: match &self.name {
                Some(n) => Some(n.duplicate()),
                None => None,
            },
            ty: self.ty.duplicate(),
            tokens: self.tokens.duplicate(),
        }
    }
}

/// Pointwise structural equality of field sequences.
pub open spec fn fields_eq(a: Seq<Field>, b: Seq<Field>) -> bool {
    a.len() == b.len() && forall|i: int| 0 <= i < a.len() ==> field_eq(#[trigger] a[i], b[i])
}

/// Copies a field list.
pub fn duplicate_fields(v: &Vec<Field>) -> (r: Vec<Field>)
    ensures
        fields_eq(r@, v@),
{
    let mut r: Vec<Field> = Vec::new();
    let mut i: usize = 0;
    while i < v.len()
        invariant
            i <= v@.len(),
            r@.len() == i,
            forall|j: int| 0 <= j < i ==> field_eq(#[trigger] r@[j], v@[j]),
        decreases v@.len() - i,
    {
        r.push(v[i].duplicate());
        i = i + 1;
    }
    r
}

/// Pointwise equality of generic parameter sequences.
pub open spec fn params_eq(a: Seq<GenericParam>, b: Seq<GenericParam>) -> bool {
    a.len() == b.len() && forall|i: int| 0 <= i < a.len() ==> param_eq(#[trigger] a[i], b[i])
}

/// Copies a generic parameter list.
pub fn duplicate_params(v: &Vec<GenericParam>) -> (r: Vec<GenericParam>)
    ensures
        params_eq(r@, v@),
{
    let mut r: Vec<GenericParam> = Vec::new();
    let mut i: usize = 0;
    while i < v.len()
        invariant
            i <= v@.len(),
            r@.len() == i,
            forall|j: int| 0 <= j < i ==> param_eq(#[trigger] r@[j], v@[j]),
        decreases v@.len() - i,
    {
        r.push(v[i].duplicate());
        i = i + 1;
    }
    r
}

/// Equality of optional token payloads, by content.
pub open spec fn opt_blob_eq(a: Option<TokenBlob>, b: Option<TokenBlob>) -> bool {
    match (a, b) {
        (Some(x), Some(y)) => x@ == y@,
        (None, None) => true,
        _ => false,
    }
}

/// Copies an optional token payload.
pub fn duplicate_opt_blob(v: &Option<TokenBlob>) -> (r: Option<TokenBlob>)
    ensures
        opt_blob_eq(r, *v),
{
    match v {
        Some(x) => Some(x.duplicate()),
        None => None,
    }
}

/// Pointwise equality of token payload sequences, by content.
pub open spec fn blobs_eq(a: Seq<TokenBlob>, b: Seq<TokenBlob>) -> bool {
    a.len() == b.len() && forall|i: int| 0 <= i < a.len() ==> a[i]@ == b[i]@
}

/// Copies a token payload list.
pub fn duplicate_blobs(v: &Vec<TokenBlob>) -> (r: Vec<TokenBlob>)
    ensures
        blobs_eq(r@, v@),
{
    let mut r: Vec<TokenBlob> = Vec::new();
    let mut i: usize = 0;
    while i < v.len()
        invariant
            i <= v@.len(),
            r@.len() == i,
            forall|j: int| 0 <= j < i ==> r@[j]@ == v@[j]@,
        decreases v@.len() - i,
    {
        r.push(v[i].duplicate());
        i = i + 1;
    }
    r
}

/// One token of a variant's sub-type tag annotation.
pub enum TagToken {
    /// An identifier token.
    Ident(Ident),
    /// A literal comma token.
    Comma,
    /// Any other token.
    Other,
}

/// One tag annotation's token list, as written on a variant.
pub struct TagList {
    /// The annotation's tokens, in source order.
    pub tokens: Vec<TagToken>,
}

/// One variant of a base declaration.
pub struct VariantDef {
    /// The variant's name.
    pub ident: Ident,
    /// How the variant's fields are written.
    pub shape: FieldShape,
    /// The variant's fields, in declaration order.
    pub fields: Vec<Field>,
    /// The variant's explicit discriminant, when one is written.
    pub disc: Option<i64>,
    /// The variant's tag annotations, one token list per annotation.
    pub tags: Vec<TagList>,
}

/// Equality of a variant's name, shape, fields and discriminant.  Tag
/// annotations are not compared: copies made during generation carry
/// none.
pub open spec fn variant_core_eq(a: VariantDef, b: VariantDef) -> bool {
    &&& a.ident@ == b.ident@
    &&& a.shape == b.shape
    &&& fields_eq(a.fields@, b.fields@)
    &&& a.disc == b.disc
}

impl VariantDef {
    /// Returns a copy of the variant with its tag annotations stripped.
    pub fn duplicate_stripped(&self) -> (r: VariantDef)
        ensures
            variant_core_eq(r, *self),
            r.tags@.len() == 0,
    {
        VariantDef {
            ident: self.ident.duplicate(),
            shape: self.shape,
            fields: duplicate_fields(&self.fields),
            disc: self.disc,
            tags: Vec::new(),
        }
    }
}

/// A base sum-type declaration, as handed to the generator.
pub struct EnumDecl {
    /// The declaration's name.
    pub ident: Ident,
    /// The declaration's visibility tokens, carried verbatim.
    pub vis: TokenBlob,
    /// The generic parameter list, in declaration order.
    pub generics: Vec<GenericParam>,
    /// The where clause, when one is written, carried verbatim.
    pub where_clause: Option<TokenBlob>,
    /// The argument of the representation attribute, when one is written.
    pub repr: Option<Ident>,
    /// The trait-derivation requests to propagate onto sub-types.
    pub derives: Vec<TokenBlob>,
    /// The variants, in declaration order.
    pub variants: Vec<VariantDef>,
}

} // verus!
