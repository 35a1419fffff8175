//! The sub-type planner.
//!
//! Consumes the annotated variant list and produces, for every distinct
//! sub-type name encountered, the set of base-variant indices assigned
//! to it and the minimal generic-parameter subset (with original
//! bounds) that the fields of exactly those variants require.  A
//! malformed tag annotation anywhere fails planning at the first
//! offending token.

use vstd::prelude::*;
use crate::ast::{EnumDecl, GenericParam, TagList, TokenBlob, VariantDef};
use crate::ident::{contains_ident, idents_have, Ident};
use crate::scan::{mentions, ty_mentions};
use crate::tags::{parse_tags, tag_count, tag_name_at, tags_wf, TagError};

verus! {

/// True when the well-formed tag annotation `l` lists the name `s`.
pub open spec fn list_has(l: TagList, s: Seq<u8>) -> bool {
    exists|k: int| 0 <= k < tag_count(l.tokens@.len() as int) && tag_name_at(l.tokens@, k) == s
}

/// True when some tag annotation of the variant lists the name `s`.
pub open spec fn variant_has_tag(v: VariantDef, s: Seq<u8>) -> bool {
    exists|a: int| 0 <= a < v.tags@.len() && list_has(#[trigger] v.tags@[a], s)
}

/// True when every tag annotation of the variant is well-formed.
pub open spec fn variant_tags_wf(v: VariantDef) -> bool {
    forall|a: int| 0 <= a < v.tags@.len() ==> tags_wf((#[trigger] v.tags@[a]).tokens@)
}

/// True when every tag annotation of every variant is well-formed.
pub open spec fn decl_tags_wf(d: EnumDecl) -> bool {
    forall|i: int| 0 <= i < d.variants@.len() ==> variant_tags_wf(#[trigger] d.variants@[i])
}

/// True when some field of the variant mentions the name `s` in a
/// scanner position of its declared type.
pub open spec fn variant_mentions(v: VariantDef, s: Seq<u8>) -> bool {
    exists|j: int| 0 <= j < v.fields@.len() && ty_mentions((#[trigger] v.fields@[j]).ty, s)
}

/// True when the generic parameter at index `g` of the base declaration
/// is required by some variant assigned under `mask`: some field of
/// such a variant mentions the parameter's name.
pub open spec fn param_needed(d: EnumDecl, mask: Seq<bool>, g: int) -> bool {
    exists|i: int|
        0 <= i < d.variants@.len() && mask[i] && variant_mentions(#[trigger] d.variants@[i], d.generics@[g].ident@)
}

/// True when the index `g` occurs in the list `l`.
pub open spec fn indices_have(l: Seq<usize>, g: int) -> bool {
    exists|t: int| 0 <= t < l.len() && l[t] == g
}

/// The planner's full promise for a plan list against the base
/// declaration: every tag annotation is well-formed, plan names are
/// distinct, each plan is sound against the declaration, and there is
/// a plan exactly for each name some variant is tagged with.
pub open spec fn plans_wf(d: EnumDecl, plans: Seq<SubTypePlan>) -> bool {
    &&& decl_tags_wf(d)
    &&& forall|p: int, q: int|
        0 <= p < q < plans.len() ==> (#[trigger] plans[p]).name@ != (#[trigger] plans[q]).name@
    &&& forall|p: int| 0 <= p < plans.len() ==> plan_wf(d, #[trigger] plans[p])
    &&& forall|s: Seq<u8>|
        #[trigger] plans_have(plans, s) == (exists|i: int|
            0 <= i < d.variants@.len() && variant_has_tag(#[trigger] d.variants@[i], s))
}

/// What a reported tag diagnostic promises: it points at the first
/// malformed annotation in declaration order, and at the first
/// offending token within it, with the token kind expected there.
pub open spec fn tag_diag_wf(d: EnumDecl, diag: TagDiag) -> bool {
    &&& !decl_tags_wf(d)
    &&& 0 <= (diag.variant as int) < d.variants@.len()
    &&& 0 <= (diag.attr as int) < d.variants@[diag.variant as int].tags@.len()
    &&& !tags_wf(d.variants@[diag.variant as int].tags@[diag.attr as int].tokens@)
    &&& forall|x: int| 0 <= x < diag.variant ==> variant_tags_wf(#[trigger] d.variants@[x])
    &&& forall|x: int|
        0 <= x < diag.attr ==> tags_wf(
            (#[trigger] d.variants@[diag.variant as int].tags@[x]).tokens@,
        )
    &&& 0 <= (diag.err.index as int) < d.variants@[diag.variant as int].tags@[diag.attr as int].tokens@.len()
    &&& !crate::tags::tag_ok_at(
        d.variants@[diag.variant as int].tags@[diag.attr as int].tokens@,
        diag.err.index as int,
    )
    &&& forall|i: int|
        0 <= i < diag.err.index ==> #[trigger] crate::tags::tag_ok_at(
            d.variants@[diag.variant as int].tags@[diag.attr as int].tokens@,
            i,
        )
    &&& diag.err.expected == crate::tags::expected_at(diag.err.index as int)
}

/// A tag parse failure located in the declaration: the variant, the
/// annotation on that variant, and the failing token within it.
#[derive(Debug)]
pub struct TagDiag {
    /// The index of the variant carrying the malformed annotation.
    pub variant: usize,
    /// The index of the malformed annotation on that variant.
    pub attr: usize,
    /// The failing token's position and the token kind expected there.
    pub err: TagError,
}

/// Appends copies of `b`'s identifiers to `a`.
fn append_idents(a: &mut Vec<Ident>, b: &Vec<Ident>)
    ensures
        final(a)@.len() == old(a)@.len() + b@.len(),
        forall|s: Seq<u8>|
            #[trigger] idents_have(final(a)@, s) == (idents_have(old(a)@, s) || idents_have(
                b@,
                s,
            )),
{
    let ghost a0 = a@;
    let mut i: usize = 0;
    while i < b.len()
        invariant
            i <= b@.len(),
            a@.len() == a0.len() + i,
            forall|j: int| 0 <= j < a0.len() ==> a@[j] == a0[j],
            forall|j: int| 0 <= j < i ==> (#[trigger] a@[a0.len() + j])@ == b@[j]@,
        decreases b@.len() - i,
    {
        a.push(b[i].duplicate());
        i = i + 1;
    }
    proof {
        assert forall|s: Seq<u8>|
            #[trigger] idents_have(a@, s) == (idents_have(a0, s) || idents_have(b@, s)) by {
            if idents_have(a@, s) {
                let t = choose|t: int| 0 <= t < a@.len() && a@[t]@ == s;
                if t < a0.len() {
                    assert(a0[t]@ == s);
                    assert(idents_have(a0, s));
                } else {
                    assert(a@[a0.len() + (t - a0.len())]@ == b@[t - a0.len()]@);
                    assert(b@[t - a0.len()]@ == s);
                    assert(idents_have(b@, s));
                }
            }
            if idents_have(a0, s) {
                let t = choose|t: int| 0 <= t < a0.len() && a0[t]@ == s;
                assert(a@[t]@ == s);
                assert(idents_have(a@, s));
            }
            if idents_have(b@, s) {
                let t = choose|t: int| 0 <= t < b@.len() && b@[t]@ == s;
                assert(a@[a0.len() + t]@ == s);
                assert(idents_have(a@, s));
            }
        }
    }
}

/// Parses every tag annotation of one variant and gathers the listed
/// sub-type names.  Fails at the first malformed annotation, naming the
/// annotation and the offending token.
fn parse_variant_tags(v: &VariantDef) -> (r: Result<Vec<Ident>, (usize, TagError)>)
    ensures
        match r {
            Ok(ids) => {
                &&& variant_tags_wf(*v)
                &&& forall|s: Seq<u8>| #[trigger] idents_have(ids@, s) == variant_has_tag(*v, s)
            },
            Err((a, e)) => {
                &&& 0 <= a < v.tags@.len()
                &&& !tags_wf(v.tags@[a as int].tokens@)
                &&& forall|x: int| 0 <= x < a ==> tags_wf((#[trigger] v.tags@[x]).tokens@)
                &&& 0 <= e.index < v.tags@[a as int].tokens@.len()
                &&& !crate::tags::tag_ok_at(v.tags@[a as int].tokens@, e.index as int)
                &&& forall|i: int|
                    0 <= i < e.index ==> #[trigger] crate::tags::tag_ok_at(
                        v.tags@[a as int].tokens@,
                        i,
                    )
                &&& e.expected == crate::tags::expected_at(e.index as int)
            },
        },
{
    let mut ids: Vec<Ident> = Vec::new();
    let mut a: usize = 0;
    while a < v.tags.len()
        invariant
            a <= v.tags@.len(),
            forall|x: int| 0 <= x < a ==> tags_wf((#[trigger] v.tags@[x]).tokens@),
            forall|s: Seq<u8>|
                #[trigger] idents_have(ids@, s) == (exists|x: int|
                    0 <= x < a && list_has(#[trigger] v.tags@[x], s)),
        decreases v.tags@.len() - a,
    {
        match parse_tags(&v.tags[a].tokens) {
            Ok(names) => {
                proof {
                    assert forall|s: Seq<u8>| #[trigger] idents_have(names@, s) == list_has(
                        v.tags@[a as int],
                        s,
                    ) by {
                        if idents_have(names@, s) {
                            let k = choose|k: int| 0 <= k < names@.len() && names@[k]@ == s;
                            assert(tag_name_at(v.tags@[a as int].tokens@, k) == s);
                            assert(list_has(v.tags@[a as int], s));
                        }
                        if list_has(v.tags@[a as int], s) {
                            let k = choose|k: int|
                                0 <= k < tag_count(v.tags@[a as int].tokens@.len() as int)
                                    && tag_name_at(v.tags@[a as int].tokens@, k) == s;
                            assert(names@[k]@ == s);
                            assert(idents_have(names@, s));
                        }
                    }
                }
                append_idents(&mut ids, &names);
            },
            Err(e) => {
                return Err((a, e));
            },
        }
        a = a + 1;
    }
    Ok(ids)
}

/// One sub-type to generate: its name, the set of base-variant indices
/// assigned to it, and the minimal generic parameter subset its fields
/// require, in the base declaration's order and with original bounds.
pub struct SubTypePlan {
    /// The sub-type's name: the tag that produced it.
    pub name: Ident,
    /// Which base variants belong to the sub-type, as a mask over the
    /// base declaration's variant indices.
    pub mask: Vec<bool>,
    /// The indices of the kept generic parameters, strictly increasing.
    pub gen_idx: Vec<usize>,
    /// Copies of the kept generic parameters, aligned with `gen_idx`.
    pub generics: Vec<GenericParam>,
    /// A copy of the base declaration's where clause, carried verbatim.
    pub where_clause: Option<TokenBlob>,
}

/// True when some plan of `ps` is named `s`.
pub open spec fn plans_have(ps: Seq<SubTypePlan>, s: Seq<u8>) -> bool {
    exists|p: int| 0 <= p < ps.len() && ps[p].name@ == s
}

/// The planner's promise for one plan against the base declaration.
pub open spec fn plan_wf(d: EnumDecl, p: SubTypePlan) -> bool {
    &&& p.mask@.len() == d.variants@.len()
    &&& forall|i: int|
        0 <= i < d.variants@.len() ==> #[trigger] p.mask@[i] == variant_has_tag(
            d.variants@[i],
            p.name@,
        )
    &&& p.gen_idx@.len() == p.generics@.len()
    &&& forall|t: int| 0 <= t < p.gen_idx@.len() ==> (#[trigger] p.gen_idx@[t]) < d.generics@.len()
    &&& forall|t: int|
        0 < t < p.gen_idx@.len() ==> p.gen_idx@[t - 1] < #[trigger] p.gen_idx@[t]
    &&& forall|t: int|
        0 <= t < p.gen_idx@.len() ==> param_needed(d, p.mask@, #[trigger] p.gen_idx@[t] as int)
    &&& forall|g: int|
        0 <= g < d.generics@.len() && #[trigger] param_needed(d, p.mask@, g) ==> indices_have(
            p.gen_idx@,
            g,
        )
    &&& forall|t: int|
        0 <= t < p.generics@.len() ==> crate::ast::param_eq(
            #[trigger] p.generics@[t],
            d.generics@[p.gen_idx@[t] as int],
        )
    &&& crate::ast::opt_blob_eq(p.where_clause, d.where_clause)
}

/// Gathers the distinct names among the per-variant tag lists, keeping
/// the first occurrence's order.
fn collect_names(parsed: &Vec<Vec<Ident>>) -> (names: Vec<Ident>)
    ensures
        forall|p: int, q: int| 0 <= p < q < names@.len() ==> (#[trigger] names@[p])@ != (#[trigger] names@[q])@,
        forall|s: Seq<u8>|
            #[trigger] idents_have(names@, s) == (exists|i: int|
                0 <= i < parsed@.len() && idents_have((#[trigger] parsed@[i])@, s)),
{
    let mut names: Vec<Ident> = Vec::new();
    let mut i: usize = 0;
    while i < parsed.len()
        invariant
            i <= parsed@.len(),
            forall|p: int, q: int|
                0 <= p < q < names@.len() ==> (#[trigger] names@[p])@ != (#[trigger] names@[q])@,
            forall|s: Seq<u8>|
                #[trigger] idents_have(names@, s) == (exists|x: int|
                    0 <= x < i && idents_have((#[trigger] parsed@[x])@, s)),
        decreases parsed@.len() - i,
    {
        let row = &parsed[i];
        let mut k: usize = 0;
        while k < row.len()
            invariant
                k <= row@.len(),
                row == &parsed@[i as int],
                i < parsed@.len(),
                forall|p: int, q: int|
                    0 <= p < q < names@.len()
                        ==> (#[trigger] names@[p])@ != (#[trigger] names@[q])@,
                forall|s: Seq<u8>|
                    #[trigger] idents_have(names@, s) == ((exists|x: int|
                        0 <= x < i && idents_have((#[trigger] parsed@[x])@, s)) || (exists|y: int|
                        0 <= y < k && (#[trigger] row@[y])@ == s)),
            decreases row@.len() - k,
        {
            if !contains_ident(&names, &row[k]) {
                let ghost names0 = names@;
                names.push(row[k].duplicate());
                proof {
                    assert forall|s: Seq<u8>| #[trigger] idents_have(names@, s) == (idents_have(
                        names0,
                        s,
                    ) || row@[k as int]@ == s) by {
                        if idents_have(names@, s) {
                            let t = choose|t: int| 0 <= t < names@.len() && names@[t]@ == s;
                            if t < names0.len() {
                                assert(idents_have(names0, s));
                            } else {
                                assert(names@[names0.len() as int]@ == row@[k as int]@);
                            }
                        }
                        if idents_have(names0, s) {
                            let t = choose|t: int| 0 <= t < names0.len() && names0[t]@ == s;
                            assert(names@[t]@ == s);
                            assert(idents_have(names@, s));
                        }
                        if row@[k as int]@ == s {
                            assert(names@[names0.len() as int]@ == s);
                            assert(idents_have(names@, s));
                        }
                    }
                }
            } else {
                proof {
                    assert(idents_have(names@, row@[k as int]@));
                }
            }
            k = k + 1;
        }
        i = i + 1;
    }
    names
}

/// Tests whether some field of the variant mentions the name.
fn variant_mentions_exec(v: &VariantDef, name: &Ident) -> (r: bool)
    ensures
        r == variant_mentions(*v, name@),
{
    let mut j: usize = 0;
    while j < v.fields.len()
        invariant
            j <= v.fields@.len(),
            forall|x: int| 0 <= x < j ==> !ty_mentions((#[trigger] v.fields@[x]).ty, name@),
        decreases v.fields@.len() - j,
    {
        if mentions(&v.fields[j].ty, name) {
            assert(variant_mentions(*v, name@));
            return true;
        }
        j = j + 1;
    }
    assert(!variant_mentions(*v, name@));
    false
}

/// Tests whether the generic parameter at index `g` is required by some
/// variant assigned under the mask.
fn param_needed_exec(d: &EnumDecl, mask: &Vec<bool>, g: usize) -> (r: bool)
    requires
        mask@.len() == d.variants@.len(),
        g < d.generics@.len(),
    ensures
        r == param_needed(*d, mask@, g as int),
{
    let name = &d.generics[g].ident;
    let mut i: usize = 0;
    while i < d.variants.len()
        invariant
            mask@.len() == d.variants@.len(),
            g < d.generics@.len(),
            i <= d.variants@.len(),
            name == &d.generics@[g as int].ident,
            forall|x: int|
                0 <= x < i ==> !(mask@[x] && variant_mentions(#[trigger] d.variants@[x], name@)),
        decreases d.variants@.len() - i,
    {
        if mask[i] && variant_mentions_exec(&d.variants[i], name) {
            assert(param_needed(*d, mask@, g as int));
            return true;
        }
        i = i + 1;
    }
    assert(!param_needed(*d, mask@, g as int));
    false
}

/// Builds one sub-type's plan: the variant mask for the tag name, then
/// the minimal generic parameter subset required by the masked
/// variants, in base order and with original bounds.
fn build_plan(d: &EnumDecl, parsed: &Vec<Vec<Ident>>, name: Ident) -> (p: SubTypePlan)
    requires
        parsed@.len() == d.variants@.len(),
        forall|i: int, s: Seq<u8>|
            0 <= i < parsed@.len() ==> #[trigger] idents_have((parsed@[i])@, s) == variant_has_tag(
                d.variants@[i],
                s,
            ),
    ensures
        p.name@ == name@,
        plan_wf(*d, p),
{
    let mut mask: Vec<bool> = Vec::new();
    let mut i: usize = 0;
    while i < parsed.len()
        invariant
            parsed@.len() == d.variants@.len(),
            forall|x: int, s: Seq<u8>|
                0 <= x < parsed@.len() ==> #[trigger] idents_have(
                    (parsed@[x])@,
                    s,
                ) == variant_has_tag(d.variants@[x], s),
            i <= parsed@.len(),
            mask@.len() == i,
            forall|x: int|
                0 <= x < i ==> #[trigger] mask@[x] == variant_has_tag(d.variants@[x], name@),
        decreases parsed@.len() - i,
    {
        mask.push(contains_ident(&parsed[i], &name));
        i = i + 1;
    }
    let mut gen_idx: Vec<usize> = Vec::new();
    let mut generics: Vec<GenericParam> = Vec::new();
    let mut g: usize = 0;
    while g < d.generics.len()
        invariant
            mask@.len() == d.variants@.len(),
            g <= d.generics@.len(),
            gen_idx@.len() == generics@.len(),
            forall|t: int| 0 <= t < gen_idx@.len() ==> (#[trigger] gen_idx@[t]) < g,
            forall|t: int| 0 < t < gen_idx@.len() ==> gen_idx@[t - 1] < #[trigger] gen_idx@[t],
            forall|t: int|
                0 <= t < gen_idx@.len() ==> param_needed(*d, mask@, #[trigger] gen_idx@[t] as int),
            forall|x: int|
                0 <= x < g && #[trigger] param_needed(*d, mask@, x) ==> indices_have(gen_idx@, x),
            forall|t: int|
                0 <= t < generics@.len() ==> crate::ast::param_eq(
                    #[trigger] generics@[t],
                    d.generics@[gen_idx@[t] as int],
                ),
        decreases d.generics@.len() - g,
    {
        if param_needed_exec(d, &mask, g) {
            let ghost gi0 = gen_idx@;
            gen_idx.push(g);
            generics.push(d.generics[g].duplicate());
            proof {
                assert forall|x: int|
                    0 <= x < g + 1 && #[trigger] param_needed(*d, mask@, x) implies indices_have(
                    gen_idx@,
                    x,
                ) by {
                    if x < g {
                        assert(indices_have(gi0, x));
                        let t = choose|t: int| 0 <= t < gi0.len() && gi0[t] == x;
                        assert(gen_idx@[t] == x);
                    } else {
                        assert(gen_idx@[gi0.len() as int] == x);
                    }
                }
            }
        }
        g = g + 1;
    }
    SubTypePlan {
        name,
        mask,
        gen_idx,
        generics,
        where_clause: crate::ast::duplicate_opt_blob(&d.where_clause),
    }
}

/// Plans every sub-type of the declaration: parses all tag annotations,
/// then produces one plan per distinct tag name, each with its variant
/// set and minimal generics.  Fails at the first malformed annotation,
/// naming the variant, the annotation and the offending token.
pub fn build_plans(d: &EnumDecl) -> (r: Result<Vec<SubTypePlan>, TagDiag>)
    ensures
        match r {
            Ok(plans) => plans_wf(*d, plans@),
            Err(diag) => tag_diag_wf(*d, diag),
        },
{
    let mut parsed: Vec<Vec<Ident>> = Vec::new();
    let mut i: usize = 0;
    while i < d.variants.len()
        invariant
            i <= d.variants@.len(),
            parsed@.len() == i,
            forall|x: int| 0 <= x < i ==> variant_tags_wf(#[trigger] d.variants@[x]),
            forall|x: int, s: Seq<u8>|
                0 <= x < i ==> #[trigger] idents_have((parsed@[x])@, s) == variant_has_tag(
                    d.variants@[x],
                    s,
                ),
        decreases d.variants@.len() - i,
    {
        match parse_variant_tags(&d.variants[i]) {
            Ok(ids) => {
                parsed.push(ids);
            },
            Err((a, e)) => {
                assert(!variant_tags_wf(d.variants@[i as int]));
                return Err(TagDiag { variant: i, attr: a, err: e });
            },
        }
        i = i + 1;
    }
    let names = collect_names(&parsed);
    let mut plans: Vec<SubTypePlan> = Vec::new();
    let mut p: usize = 0;
    while p < names.len()
        invariant
            parsed@.len() == d.variants@.len(),
            forall|x: int, s: Seq<u8>|
                0 <= x < parsed@.len() ==> #[trigger] idents_have(
                    (parsed@[x])@,
                    s,
                ) == variant_has_tag(d.variants@[x], s),
            forall|x: int, y: int|
                0 <= x < y < names@.len() ==> (#[trigger] names@[x])@ != (#[trigger] names@[y])@,
            p <= names@.len(),
            plans@.len() == p,
            forall|x: int| 0 <= x < p ==> (#[trigger] plans@[x]).name@ == names@[x]@,
            forall|x: int| 0 <= x < p ==> plan_wf(*d, #[trigger] plans@[x]),
        decreases names@.len() - p,
    {
        plans.push(build_plan(d, &parsed, names[p].duplicate()));
        p = p + 1;
    }
    proof {
        assert forall|s: Seq<u8>| #[trigger] plans_have(plans@, s) == (exists|x: int|
            0 <= x < d.variants@.len() && variant_has_tag(#[trigger] d.variants@[x], s)) by {
            if plans_have(plans@, s) {
                let t = choose|t: int| 0 <= t < plans@.len() && plans@[t].name@ == s;
                assert(names@[t]@ == s);
                assert(idents_have(names@, s));
                let x = choose|x: int| 0 <= x < parsed@.len() && idents_have((parsed@[x])@, s);
                assert(variant_has_tag(d.variants@[x], s));
            }
            if exists|x: int| 0 <= x < d.variants@.len() && variant_has_tag(
                #[trigger] d.variants@[x],
                s,
            ) {
                let x = choose|x: int|
                    0 <= x < d.variants@.len() && variant_has_tag(#[trigger] d.variants@[x], s);
                assert(idents_have((parsed@[x])@, s));
                assert(idents_have(names@, s));
                let t = choose|t: int| 0 <= t < names@.len() && names@[t]@ == s;
                assert(plans@[t].name@ == s);
                assert(plans_have(plans@, s));
            }
        }
    }
    assert(plans_wf(*d, plans@));
    Ok(plans)
}

} // verus!
