//! The meaning of the generated conversions.
//!
//! A runtime value of the base type or of any sub-type is a variant
//! index into the base declaration together with its field payloads; a
//! self-referential field holds a nested value of the same hierarchy.
//! Under the preserved discriminants and verbatim variant shapes, an
//! upward conversion reconstructs an equal value, and a downward or
//! lateral conversion reconstructs an equal value exactly when the
//! value lies, recursively, inside the destination's variant set.

use vstd::prelude::*;
use crate::ast::EnumDecl;
use crate::scan::{ty_has_self, tys_have_self};

verus! {

/// One field's payload at run time.
pub enum FieldVal {
    /// A payload without self-reference, carried through unchanged.
    Plain(u64),
    /// A self-referential payload: a nested value of the hierarchy.
    Nested(Box<EnumValue>),
}

/// A runtime value of the hierarchy: which base variant it holds, and
/// the variant's field payloads in order.
pub struct EnumValue {
    /// The base declaration's index of the variant held.
    pub variant: usize,
    /// The field payloads, in field order.
    pub fields: Vec<FieldVal>,
}

/// True when the value lies in the variant set `mask`: its variant is
/// assigned, and every nested value lies in the set too.
pub open spec fn val_in(mask: Seq<bool>, v: EnumValue) -> bool
    decreases v,
{
    &&& 0 <= (v.variant as int) < mask.len()
    &&& mask[v.variant as int]
    &&& forall|j: int| 0 <= j < v.fields@.len() ==> field_val_in(mask, #[trigger] v.fields@[j])
}

/// True when a field payload lies in the variant set: plain payloads
/// always do, nested values recursively.
pub open spec fn field_val_in(mask: Seq<bool>, f: FieldVal) -> bool
    decreases f,
{
    match f {
        FieldVal::Plain(_) => true,
        FieldVal::Nested(n) => val_in(mask, *n),
    }
}

/// Structural equality of runtime values.
pub open spec fn val_eq(a: EnumValue, b: EnumValue) -> bool
    decreases a,
{
    &&& a.variant == b.variant
    &&& a.fields@.len() == b.fields@.len()
    &&& forall|j: int|
        0 <= j < a.fields@.len() ==> field_val_eq(#[trigger] a.fields@[j], b.fields@[j])
}

/// Structural equality of field payloads.
pub open spec fn field_val_eq(a: FieldVal, b: FieldVal) -> bool
    decreases a,
{
    match (a, b) {
        (FieldVal::Plain(x), FieldVal::Plain(y)) => x == y,
        (FieldVal::Nested(m), FieldVal::Nested(n)) => val_eq(*m, *n),
        _ => false,
    }
}

/// True when the value is well formed against the base declaration:
/// the variant exists, the payload count matches the variant's field
/// count, and a payload is nested exactly where the field's declared
/// type contains the self marker.
pub open spec fn val_wf(d: EnumDecl, v: EnumValue) -> bool
    decreases v,
{
    &&& 0 <= (v.variant as int) < d.variants@.len()
    &&& v.fields@.len() == d.variants@[v.variant as int].fields@.len()
    &&& forall|j: int|
        0 <= j < v.fields@.len() ==> field_val_wf(
            d,
            d.variants@[v.variant as int].fields@[j].ty,
            #[trigger] v.fields@[j],
        )
}

/// True when a field payload is well formed for a field of declared
/// type `t`.
pub open spec fn field_val_wf(d: EnumDecl, t: crate::ast::TypeExpr, f: FieldVal) -> bool
    decreases f,
{
    match f {
        FieldVal::Plain(_) => !ty_has_self(t),
        FieldVal::Nested(n) => ty_has_self(t) && val_wf(d, *n),
    }
}

/// Casts a value downward or laterally into the variant set `mask`:
/// reconstructs the value field by field, recursing into nested
/// payloads, and yields no value exactly when the value does not lie in
/// the set.  A returned value equals the input.
pub fn cast_down(mask: &Vec<bool>, v: &EnumValue) -> (r: Option<EnumValue>)
    ensures
        (r is Some) == val_in(mask@, *v),
        r matches Some(u) ==> val_eq(u, *v),
    decreases *v,
{
    if v.variant >= mask.len() || !mask[v.variant] {
        assert(!val_in(mask@, *v));
        return None;
    }
    match cast_down_fields(mask, &v.fields) {
        Some(fields) => {
            let u = EnumValue { variant: v.variant, fields };
            assert(val_in(mask@, *v)) by { reveal_with_fuel(val_in, 2); }
            assert(val_eq(u, *v)) by { reveal_with_fuel(val_eq, 2); }
            Some(u)
        },
        None => {
            assert(!val_in(mask@, *v)) by { reveal_with_fuel(val_in, 2); }
            None
        },
    }
}

/// Casts each field payload of a list, short-circuiting to no value as
/// soon as one nested payload falls outside the set.
fn cast_down_fields(mask: &Vec<bool>, fs: &Vec<FieldVal>) -> (r: Option<Vec<FieldVal>>)
    ensures
        (r is Some) == (forall|j: int| 0 <= j < fs@.len() ==> field_val_in(mask@, #[trigger] fs@[j])),
        r matches Some(out) ==> {
            &&& out@.len() == fs@.len()
            &&& forall|j: int|
                0 <= j < fs@.len() ==> field_val_eq(#[trigger] out@[j], fs@[j])
        },
    decreases fs@,
{
    let mut out: Vec<FieldVal> = Vec::new();
    let mut j: usize = 0;
    while j < fs.len()
        invariant
            j <= fs@.len(),
            out@.len() == j,
            forall|x: int| 0 <= x < j ==> field_val_in(mask@, #[trigger] fs@[x]),
            forall|x: int| 0 <= x < j ==> field_val_eq(#[trigger] out@[x], fs@[x]),
        decreases fs@.len() - j,
    {
        match cast_down_field(mask, &fs[j]) {
            Some(f) => {
                out.push(f);
            },
            None => {
                return None;
            },
        }
        j = j + 1;
    }
    Some(out)
}

/// Casts one field payload: a plain payload passes through, a nested
/// value is cast recursively.
fn cast_down_field(mask: &Vec<bool>, f: &FieldVal) -> (r: Option<FieldVal>)
    ensures
        (r is Some) == field_val_in(mask@, *f),
        r matches Some(out) ==> field_val_eq(out, *f),
    decreases *f,
{
    match f {
        FieldVal::Plain(x) => Some(FieldVal::Plain(*x)),
        FieldVal::Nested(n) => {
            match cast_down(mask, &**n) {
                Some(u) => Some(FieldVal::Nested(Box::new(u))),
                None => None,
            }
        },
    }
}

/// Converts a value upward, toward the base type: total, and the
/// reconstruction returns a value equal to the input.
pub fn cast_up(v: &EnumValue) -> (r: EnumValue)
    ensures
        val_eq(r, *v),
    decreases *v,
{
    let fields = cast_up_fields(&v.fields);
    let r = EnumValue { variant: v.variant, fields };
    assert(val_eq(r, *v)) by { reveal_with_fuel(val_eq, 2); }
    r
}

/// Converts each field payload upward.
fn cast_up_fields(fs: &Vec<FieldVal>) -> (r: Vec<FieldVal>)
    ensures
        r@.len() == fs@.len(),
        forall|j: int| 0 <= j < fs@.len() ==> field_val_eq(#[trigger] r@[j], fs@[j]),
    decreases fs@,
{
    let mut out: Vec<FieldVal> = Vec::new();
    let mut j: usize = 0;
    while j < fs.len()
        invariant
            j <= fs@.len(),
            out@.len() == j,
            forall|x: int| 0 <= x < j ==> field_val_eq(#[trigger] out@[x], fs@[x]),
        decreases fs@.len() - j,
    {
        match &fs[j] {
            FieldVal::Plain(x) => {
                out.push(FieldVal::Plain(*x));
            },
            FieldVal::Nested(n) => {
                let u = cast_up(&**n);
                out.push(FieldVal::Nested(Box::new(u)));
            },
        }
        j = j + 1;
    }
    out
}

/// Views a base value as a sub-type value without copying its payload:
/// yields the same reference when the variant is assigned to the set
/// and the variant's fields carry no self-reference, and no value
/// otherwise.  Self-referential variants are excluded from this path
/// entirely.
pub fn cast_ref<'a>(d: &EnumDecl, mask: &Vec<bool>, v: &'a EnumValue) -> (r: Option<&'a EnumValue>)
    requires
        val_wf(*d, *v),
        mask@.len() == d.variants@.len(),
    ensures
        (r is Some) == (mask@[v.variant as int] && !variant_self_referential(
            d.variants@[v.variant as int],
        )),
        r matches Some(u) ==> u == v,
{
    if mask[v.variant] && !variant_self_exec(&d.variants[v.variant]) {
        Some(v)
    } else {
        None
    }
}

/// True when some field of the variant's declared shape contains the
/// self marker.
pub open spec fn variant_self_referential(vd: crate::ast::VariantDef) -> bool {
    exists|j: int| 0 <= j < vd.fields@.len() && ty_has_self((#[trigger] vd.fields@[j]).ty)
}

/// Tests whether some field of the variant contains the self marker.
pub fn variant_self_exec(vd: &crate::ast::VariantDef) -> (r: bool)
    ensures
        r == variant_self_referential(*vd),
{
    let mut j: usize = 0;
    while j < vd.fields.len()
        invariant
            j <= vd.fields@.len(),
            forall|x: int| 0 <= x < j ==> !ty_has_self((#[trigger] vd.fields@[x]).ty),
        decreases vd.fields@.len() - j,
    {
        if crate::scan::has_self_marker(&vd.fields[j].ty) {
            assert(variant_self_referential(*vd));
            return true;
        }
        j = j + 1;
    }
    assert(!variant_self_referential(*vd));
    false
}

/// Compares two runtime values structurally.
pub fn value_eq(a: &EnumValue, b: &EnumValue) -> (r: bool)
    ensures
        r == val_eq(*a, *b),
    decreases *a,
{
    if a.variant != b.variant || a.fields.len() != b.fields.len() {
        assert(!val_eq(*a, *b));
        return false;
    }
    let mut j: usize = 0;
    while j < a.fields.len()
        invariant
            a.variant == b.variant,
            a.fields@.len() == b.fields@.len(),
            j <= a.fields@.len(),
            forall|x: int| 0 <= x < j ==> field_val_eq(#[trigger] a.fields@[x], b.fields@[x]),
        decreases a.fields@.len() - j,
    {
        if !field_value_eq(&a.fields[j], &b.fields[j]) {
            assert(!val_eq(*a, *b));
            return false;
        }
        j = j + 1;
    }
    assert(val_eq(*a, *b)) by { reveal_with_fuel(val_eq, 2); }
    true
}

/// Compares two field payloads structurally.
fn field_value_eq(a: &FieldVal, b: &FieldVal) -> (r: bool)
    ensures
        r == field_val_eq(*a, *b),
    decreases *a,
{
    let r = match (a, b) {
        (FieldVal::Plain(x), FieldVal::Plain(y)) => *x == *y,
        (FieldVal::Nested(m), FieldVal::Nested(n)) => value_eq(&**m, &**n),
        _ => false,
    };
    assert(r == field_val_eq(*a, *b)) by { reveal_with_fuel(field_val_eq, 2); }
    r
}

/// A sub-type's cast to its own parent type always succeeds: the
/// identity lifted through the upward conversion.
pub fn cast_to_parent(v: &EnumValue) -> (r: Option<EnumValue>)
    ensures
        r matches Some(u) && val_eq(u, *v),
{
    Some(cast_up(v))
}

/// Views a base value mutably as a sub-type value, under the same
/// condition as `cast_ref`: the same reference comes back when the
/// variant is assigned to the set and carries no self-reference, and
/// no value comes back otherwise, with the viewed value untouched.
pub fn cast_mut<'a>(d: &EnumDecl, mask: &Vec<bool>, v: &'a mut EnumValue) -> (r: Option<
    &'a mut EnumValue,
>)
    requires
        val_wf(*d, *old(v)),
        mask@.len() == d.variants@.len(),
    ensures
        (r is Some) == (mask@[old(v).variant as int] && !variant_self_referential(
            d.variants@[old(v).variant as int],
        )),
        r matches Some(u) ==> *u == *old(v) && *final(v) == *final(u),
        r is None ==> *final(v) == *old(v),
{
    if mask[v.variant] && !variant_self_exec(&d.variants[v.variant]) {
        Some(v)
    } else {
        None
    }
}

} // verus!
