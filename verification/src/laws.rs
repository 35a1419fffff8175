//! Laws of the generated conversions.
//!
//! Together with the contracts of `cast_up`, `cast_down` and
//! `cast_ref`, these lemmas state the conversion laws of the hierarchy:
//! the upward/downward round trip returns an equal value, a variant
//! absent from a sub-type is never accepted, and a cast between
//! sub-types with disjoint variant sets always yields no value.

use vstd::prelude::*;
use crate::value::{field_val_eq, field_val_in, val_eq, val_in, EnumValue, FieldVal};

verus! {

/// Structural equality of values respects membership in a variant set.
pub proof fn lemma_val_eq_in(mask: Seq<bool>, a: EnumValue, b: EnumValue)
    requires
        val_eq(a, b),
    ensures
        val_in(mask, a) == val_in(mask, b),
    decreases a,
{
    assert(val_eq(a, b));
    assert forall|j: int| 0 <= j < a.fields@.len() implies field_val_in(
        mask,
        #[trigger] a.fields@[j],
    ) == field_val_in(mask, b.fields@[j]) by {
        assert(field_val_eq(a.fields@[j], b.fields@[j]));
        lemma_field_val_eq_in(mask, a.fields@[j], b.fields@[j]);
    }
    if val_in(mask, a) {
        assert forall|j: int| 0 <= j < b.fields@.len() implies field_val_in(
            mask,
            #[trigger] b.fields@[j],
        ) by {
            assert(field_val_in(mask, a.fields@[j]));
        }
        assert(val_in(mask, b)) by { reveal_with_fuel(val_in, 2); }
    }
    if val_in(mask, b) {
        assert forall|j: int| 0 <= j < a.fields@.len() implies field_val_in(
            mask,
            #[trigger] a.fields@[j],
        ) by {
            assert(field_val_in(mask, b.fields@[j]));
        }
        assert(val_in(mask, a)) by { reveal_with_fuel(val_in, 2); }
    }
}

/// Structural equality of field payloads respects membership in a
/// variant set.
proof fn lemma_field_val_eq_in(mask: Seq<bool>, x: FieldVal, y: FieldVal)
    requires
        field_val_eq(x, y),
    ensures
        field_val_in(mask, x) == field_val_in(mask, y),
    decreases x,
{
    match (x, y) {
        (FieldVal::Nested(m), FieldVal::Nested(n)) => {
            lemma_val_eq_in(mask, *m, *n);
        },
        _ => {},
    }
}

/// Structural equality of values is transitive.
pub proof fn lemma_val_eq_trans(a: EnumValue, b: EnumValue, c: EnumValue)
    requires
        val_eq(a, b),
        val_eq(b, c),
    ensures
        val_eq(a, c),
    decreases a,
{
    assert forall|j: int| 0 <= j < a.fields@.len() implies field_val_eq(
        #[trigger] a.fields@[j],
        c.fields@[j],
    ) by {
        assert(field_val_eq(a.fields@[j], b.fields@[j]));
        assert(field_val_eq(b.fields@[j], c.fields@[j]));
        lemma_field_val_eq_trans(a.fields@[j], b.fields@[j], c.fields@[j]);
    }
    assert(val_eq(a, c)) by { reveal_with_fuel(val_eq, 2); }
}

/// Structural equality of field payloads is transitive.
proof fn lemma_field_val_eq_trans(x: FieldVal, y: FieldVal, z: FieldVal)
    requires
        field_val_eq(x, y),
        field_val_eq(y, z),
    ensures
        field_val_eq(x, z),
    decreases x,
{
    match (x, y, z) {
        (FieldVal::Nested(m), FieldVal::Nested(n), FieldVal::Nested(o)) => {
            lemma_val_eq_trans(*m, *n, *o);
        },
        _ => {},
    }
}

/// The round-trip law.  `cast_up` returns a value `up` with
/// `val_eq(up, v)`, and on a value inside the destination's variant set
/// `cast_down` returns some value `down` with `val_eq(down, up)`.  So:
/// for a value lying in a sub-type's variant set, the upward conversion
/// followed by the downward conversion back into that sub-type is
/// accepted and returns a value equal to the original.
pub proof fn lemma_round_trip(mask: Seq<bool>, v: EnumValue, up: EnumValue, down: EnumValue)
    requires
        val_in(mask, v),
        val_eq(up, v),
        val_eq(down, up),
    ensures
        val_in(mask, up),
        val_eq(down, v),
{
    lemma_val_eq_in(mask, up, v);
    lemma_val_eq_trans(down, up, v);
}

/// A value holding a variant absent from the sub-type's variant set
/// never lies in that set: the downward conversion yields no value.
pub proof fn lemma_absent_variant(mask: Seq<bool>, v: EnumValue)
    requires
        !(0 <= (v.variant as int) < mask.len() && mask[v.variant as int]),
    ensures
        !val_in(mask, v),
{
}

/// Casting between sub-types with disjoint variant sets always yields
/// no value: a value lying in the source set never lies in the
/// destination set.
pub proof fn lemma_disjoint_cast(src: Seq<bool>, dst: Seq<bool>, v: EnumValue)
    requires
        val_in(src, v),
        src.len() == dst.len(),
        forall|i: int| 0 <= i < src.len() ==> !(#[trigger] src[i] && dst[i]),
    ensures
        !val_in(dst, v),
{
    assert(src[v.variant as int]);
    assert(!dst[v.variant as int]);
}

} // verus!
