//! The declaration and conversion synthesizers.
//!
//! From a base declaration and its sub-type plans this module emits the
//! generation output: the re-emitted base declaration with tag
//! annotations stripped and explicit discriminants injected, one
//! declaration per sub-type holding the assigned variants verbatim, the
//! conversion edges between every ordered pair of related types, and —
//! for the attribute-style entry point — the layout checks that license
//! the zero-copy reference views.

use vstd::prelude::*;
use crate::ast::{
    blobs_eq, duplicate_blobs, duplicate_opt_blob, duplicate_params, fields_eq, opt_blob_eq,
    opt_ident_eq, params_eq, EnumDecl, GenericParam, VariantDef,
};
use crate::ident::Ident;
use crate::plan::{build_plans, indices_have, plans_wf, tag_diag_wf, SubTypePlan, TagDiag};
use crate::value::variant_self_referential;

verus! {

/// The discriminant value generation assigns to variant `i`: an
/// explicit discriminant is preserved exactly; a variant without one
/// continues from its predecessor's assigned value, starting at zero.
/// Discriminants are assigned once, up front, and never renumbered.
pub open spec fn assigned_disc(vs: Seq<VariantDef>, i: int) -> int
    decreases i,
{
    match vs[i].disc {
        Some(x) => x as int,
        None => if i <= 0 {
            0
        } else {
            assigned_disc(vs, i - 1) + 1
        },
    }
}

/// Computes every variant's assigned discriminant.  Explicit
/// discriminants are preserved exactly, also out of original order;
/// only a variant that continues an implicit count needs room above
/// its predecessor's value.
pub fn compute_discs(vs: &Vec<VariantDef>) -> (r: Vec<i64>)
    requires
        forall|j: int|
            0 < j < vs@.len() && (#[trigger] vs@[j]).disc is None ==> assigned_disc(vs@, j - 1)
                < i64::MAX,
    ensures
        r@.len() == vs@.len(),
        forall|i: int| 0 <= i < vs@.len() ==> #[trigger] r@[i] == assigned_disc(vs@, i),
        forall|i: int|
            0 <= i < vs@.len() && (#[trigger] vs@[i]).disc is Some ==> r@[i] == vs@[i].disc->0,
{
    let n = vs.len();
    let mut r: Vec<i64> = Vec::new();
    let mut prev: i64 = 0;
    let mut i: usize = 0;
    while i < n
        invariant
            n == vs@.len(),
            forall|j: int|
                0 < j < vs@.len() && (#[trigger] vs@[j]).disc is None ==> assigned_disc(
                    vs@,
                    j - 1,
                ) < i64::MAX,
            i <= n,
            r@.len() == i,
            forall|x: int| 0 <= x < i ==> #[trigger] r@[x] == assigned_disc(vs@, x),
            i > 0 ==> prev as int == assigned_disc(vs@, i - 1),
        decreases n - i,
    {
        let v: i64 = match &vs[i].disc {
            Some(x) => *x,
            None => if i == 0 {
                0
            } else {
                prev + 1
            },
        };
        assert(v as int == assigned_disc(vs@, i as int));
        r.push(v);
        prev = v;
        i = i + 1;
    }
    r
}

/// True when `out` is `src` carried into generated output: same name,
/// shape and fields, the given discriminant, and no tag annotations.
pub open spec fn variant_restamped(out: VariantDef, src: VariantDef, disc: Option<i64>) -> bool {
    &&& out.ident@ == src.ident@
    &&& out.shape == src.shape
    &&& fields_eq(out.fields@, src.fields@)
    &&& out.disc == disc
    &&& out.tags@.len() == 0
}

/// Copies a variant into generated output under the given
/// discriminant, stripping its tag annotations.
fn restamp_variant(v: &VariantDef, disc: Option<i64>) -> (r: VariantDef)
    ensures
        variant_restamped(r, *v, disc),
{
    let mut r = v.duplicate_stripped();
    r.disc = disc;
    r
}

/// True when `kept` lists exactly the indices set in `mask`, in
/// strictly increasing order.
pub open spec fn kept_matches_mask(kept: Seq<usize>, mask: Seq<bool>) -> bool {
    &&& forall|t: int|
        0 <= t < kept.len() ==> (#[trigger] kept[t]) < mask.len() && mask[kept[t] as int]
    &&& forall|t: int| 0 < t < kept.len() ==> kept[t - 1] < #[trigger] kept[t]
    &&& forall|i: int| 0 <= i < mask.len() && #[trigger] mask[i] ==> indices_have(kept, i)
}

/// Lists the indices set in the mask, in increasing order.
fn mask_indices(mask: &Vec<bool>) -> (kept: Vec<usize>)
    ensures
        kept_matches_mask(kept@, mask@),
{
    let mut kept: Vec<usize> = Vec::new();
    let mut i: usize = 0;
    while i < mask.len()
        invariant
            i <= mask@.len(),
            forall|t: int|
                0 <= t < kept@.len() ==> (#[trigger] kept@[t]) < i && mask@[kept@[t] as int],
            forall|t: int| 0 < t < kept@.len() ==> kept@[t - 1] < #[trigger] kept@[t],
            forall|x: int| 0 <= x < i && #[trigger] mask@[x] ==> indices_have(kept@, x),
        decreases mask@.len() - i,
    {
        if mask[i] {
            let ghost k0 = kept@;
            kept.push(i);
            proof {
                assert forall|x: int| 0 <= x < i + 1 && #[trigger] mask@[x] implies indices_have(
                    kept@,
                    x,
                ) by {
                    if x < i {
                        assert(indices_have(k0, x));
                        let t = choose|t: int| 0 <= t < k0.len() && k0[t] == x;
                        assert(kept@[t] == x);
                    } else {
                        assert(kept@[k0.len() as int] == x);
                    }
                }
            }
        }
        i = i + 1;
    }
    kept
}

/// One compile-time layout check: for a variant shared between the
/// base type and a sub-type, both declarations carry this explicit
/// discriminant, so a value of either type leads with the same tag and
/// the shared variant's verbatim fields sit behind it in both.
pub struct LayoutCheck {
    /// The base declaration's index of the shared variant.
    pub variant: usize,
    /// The discriminant stamped on the variant in both declarations.
    pub disc: i64,
}

/// True when `checks` records, for each kept variant, the discriminant
/// assigned to it.
pub open spec fn checks_wf(checks: Seq<LayoutCheck>, kept: Seq<usize>, ds: Seq<i64>) -> bool {
    &&& checks.len() == kept.len()
    &&& forall|t: int|
        0 <= t < checks.len() ==> (#[trigger] checks[t]).variant == kept[t] && checks[t].disc
            == ds[kept[t] as int]
}

/// Emits the layout checks for one sub-type: one per kept variant,
/// carrying the discriminant both declarations stamp on it.
fn build_checks(kept: &Vec<usize>, ds: &Vec<i64>) -> (checks: Vec<LayoutCheck>)
    requires
        forall|t: int| 0 <= t < kept@.len() ==> (#[trigger] kept@[t]) < ds@.len(),
    ensures
        checks_wf(checks@, kept@, ds@),
{
    let mut checks: Vec<LayoutCheck> = Vec::new();
    let mut t: usize = 0;
    while t < kept.len()
        invariant
            forall|x: int| 0 <= x < kept@.len() ==> (#[trigger] kept@[x]) < ds@.len(),
            t <= kept@.len(),
            checks@.len() == t,
            forall|x: int|
                0 <= x < t ==> (#[trigger] checks@[x]).variant == kept@[x] && checks@[x].disc
                    == ds@[kept@[x] as int],
        decreases kept@.len() - t,
    {
        checks.push(LayoutCheck { variant: kept[t], disc: ds[kept[t]] });
        t = t + 1;
    }
    checks
}

/// True when `out` is the sub-type declaration the plan calls for:
/// named after the tag, same visibility as the parent, the plan's
/// minimal generics and carried where clause, the parent's
/// trait-derivation requests, the representation attribute carried in
/// attribute mode, and the kept variants verbatim under the given
/// discriminants.
pub open spec fn sub_decl_wf(
    out: EnumDecl,
    d: EnumDecl,
    p: SubTypePlan,
    kept: Seq<usize>,
    discs: Option<Seq<i64>>,
    carry_repr: bool,
) -> bool {
    &&& out.ident@ == p.name@
    &&& out.vis@ == d.vis@
    &&& params_eq(out.generics@, p.generics@)
    &&& opt_blob_eq(out.where_clause, p.where_clause)
    &&& (carry_repr ==> opt_ident_eq(out.repr, d.repr))
    &&& (!carry_repr ==> out.repr is None)
    &&& blobs_eq(out.derives@, d.derives@)
    &&& out.variants@.len() == kept.len()
    &&& forall|t: int|
        0 <= t < kept.len() ==> variant_restamped(
            #[trigger] out.variants@[t],
            d.variants@[kept[t] as int],
            match discs {
                Some(ds) => Some(ds[kept[t] as int]),
                None => d.variants@[kept[t] as int].disc,
            },
        )
}

/// Emits one sub-type's declaration from its plan.
fn synthesize_decl(
    d: &EnumDecl,
    p: &SubTypePlan,
    kept: &Vec<usize>,
    discs: Option<&Vec<i64>>,
    carry_repr: bool,
) -> (out: EnumDecl)
    requires
        forall|t: int| 0 <= t < kept@.len() ==> (#[trigger] kept@[t]) < d.variants@.len(),
        discs matches Some(ds) ==> ds@.len() == d.variants@.len(),
    ensures
        sub_decl_wf(
            out,
            *d,
            *p,
            kept@,
            match discs {
                Some(ds) => Some(ds@),
                None => None,
            },
            carry_repr,
        ),
{
    let mut variants: Vec<VariantDef> = Vec::new();
    let mut t: usize = 0;
    while t < kept.len()
        invariant
            forall|x: int| 0 <= x < kept@.len() ==> (#[trigger] kept@[x]) < d.variants@.len(),
            discs matches Some(ds) ==> ds@.len() == d.variants@.len(),
            t <= kept@.len(),
            variants@.len() == t,
            forall|x: int|
                0 <= x < t ==> variant_restamped(
                    #[trigger] variants@[x],
                    d.variants@[kept@[x] as int],
                    match discs {
                        Some(ds) => Some(ds@[kept@[x] as int]),
                        None => d.variants@[kept@[x] as int].disc,
                    },
                ),
        decreases kept@.len() - t,
    {
        let i = kept[t];
        let disc = match discs {
            Some(ds) => Some(ds[i]),
            None => d.variants[i].disc,
        };
        variants.push(restamp_variant(&d.variants[i], disc));
        t = t + 1;
    }
    EnumDecl {
        ident: p.name.duplicate(),
        vis: d.vis.duplicate(),
        generics: duplicate_params(&p.generics),
        where_clause: duplicate_opt_blob(&p.where_clause),
        repr: if carry_repr {
            match &d.repr {
                Some(x) => Some(x.duplicate()),
                None => None,
            }
        } else {
            None
        },
        derives: duplicate_blobs(&d.derives),
        variants,
    }
}

/// True when `out` is the base declaration re-emitted: annotations
/// stripped, every variant's name, shape and fields verbatim, in input
/// order, and the given discriminants stamped on.  With no injected
/// discriminants the variants' own discriminants are unchanged.
pub open spec fn base_reemitted(out: EnumDecl, d: EnumDecl, discs: Option<Seq<i64>>) -> bool {
    &&& out.ident@ == d.ident@
    &&& out.vis@ == d.vis@
    &&& params_eq(out.generics@, d.generics@)
    &&& opt_blob_eq(out.where_clause, d.where_clause)
    &&& opt_ident_eq(out.repr, d.repr)
    &&& blobs_eq(out.derives@, d.derives@)
    &&& out.variants@.len() == d.variants@.len()
    &&& forall|i: int|
        0 <= i < d.variants@.len() ==> variant_restamped(
            #[trigger] out.variants@[i],
            d.variants@[i],
            match discs {
                Some(ds) => Some(ds[i]),
                None => d.variants@[i].disc,
            },
        )
}

/// Re-emits the base declaration with its tag annotations stripped and
/// the assigned discriminants written in.
fn reemit_base(d: &EnumDecl, discs: &Vec<i64>) -> (out: EnumDecl)
    requires
        discs@.len() == d.variants@.len(),
    ensures
        base_reemitted(out, *d, Some(discs@)),
{
    let mut variants: Vec<VariantDef> = Vec::new();
    let mut i: usize = 0;
    while i < d.variants.len()
        invariant
            discs@.len() == d.variants@.len(),
            i <= d.variants@.len(),
            variants@.len() == i,
            forall|x: int|
                0 <= x < i ==> variant_restamped(
                    #[trigger] variants@[x],
                    d.variants@[x],
                    Some(discs@[x]),
                ),
        decreases d.variants@.len() - i,
    {
        variants.push(restamp_variant(&d.variants[i], Some(discs[i])));
        i = i + 1;
    }
    EnumDecl {
        ident: d.ident.duplicate(),
        vis: d.vis.duplicate(),
        generics: duplicate_params(&d.generics),
        where_clause: duplicate_opt_blob(&d.where_clause),
        repr: match &d.repr {
            Some(x) => Some(x.duplicate()),
            None => None,
        },
        derives: duplicate_blobs(&d.derives),
        variants,
    }
}

/// What one generated conversion operation is.
pub enum EdgeKind {
    /// The infallible conversion from this sub-type up to the parent.
    Upward,
    /// The fallible conversion from the parent down to this sub-type.
    Downward,
    /// The zero-copy reference view from the parent to this sub-type,
    /// emitted by the attribute-style entry point only.
    RefView,
    /// The fallible conversion from this sub-type to the named sibling.
    Lateral(usize),
}

/// One generated conversion between this sub-type and a related type:
/// what the operation is, and which base variants it matches.  All
/// other variants fall through to no value.
pub struct ConversionEdge {
    /// The operation.
    pub kind: EdgeKind,
    /// The base variants the operation matches, as a mask.
    pub shared: Vec<bool>,
}

/// The variants a reference view matches: assigned to the sub-type and
/// free of self-referential fields.  Self-referential variants are
/// excluded from the reference path entirely.
pub open spec fn view_shared(d: EnumDecl, m: Seq<bool>) -> Seq<bool> {
    Seq::new(m.len(), |i: int| m[i] && !variant_self_referential(d.variants@[i]))
}

/// The variants a lateral conversion matches: assigned to both sides.
pub open spec fn lateral_shared(a: Seq<bool>, b: Seq<bool>) -> Seq<bool> {
    Seq::new(a.len(), |i: int| a[i] && b[i])
}

/// Where the lateral edge toward sibling `q` sits in a sub-type's edge
/// list that starts with `base` parent edges.
pub open spec fn lateral_slot(p: int, q: int, base: int) -> int {
    base + if q < p {
        q
    } else {
        q - 1
    }
}

/// The edge list emitted for the sub-type at index `p`: the downward
/// and upward conversions against the parent, the reference view when
/// the entry point emits views, and one lateral conversion toward each
/// sibling.
pub open spec fn sub_edges_wf(
    edges: Seq<ConversionEdge>,
    d: EnumDecl,
    plans: Seq<SubTypePlan>,
    p: int,
    views: bool,
) -> bool {
    let base: int = if views {
        3
    } else {
        2
    };
    &&& edges.len() == base + plans.len() - 1
    &&& edges[0].kind == EdgeKind::Downward
    &&& edges[0].shared@ == plans[p].mask@
    &&& edges[1].kind == EdgeKind::Upward
    &&& edges[1].shared@ == plans[p].mask@
    &&& (views ==> edges[2].kind == EdgeKind::RefView && edges[2].shared@ == view_shared(
        d,
        plans[p].mask@,
    ))
    &&& forall|q: int|
        0 <= q < plans.len() && q != p ==> ((#[trigger] edges[lateral_slot(p, q, base)]).kind
            == EdgeKind::Lateral(q as usize) && edges[lateral_slot(p, q, base)].shared@
            == lateral_shared(plans[p].mask@, plans[q].mask@))
}

/// Copies a variant mask.
fn copy_mask(m: &Vec<bool>) -> (r: Vec<bool>)
    ensures
        r@ == m@,
{
    let mut r: Vec<bool> = Vec::new();
    let mut i: usize = 0;
    while i < m.len()
        invariant
            i <= m@.len(),
            r@ == m@.subrange(0, i as int),
        decreases m@.len() - i,
    {
        r.push(m[i]);
        i = i + 1;
    }
    assert(r@ =~= m@);
    r
}

/// Computes the mask of variants a reference view matches.
fn view_mask(d: &EnumDecl, m: &Vec<bool>) -> (r: Vec<bool>)
    requires
        m@.len() == d.variants@.len(),
    ensures
        r@ == view_shared(*d, m@),
{
    let mut r: Vec<bool> = Vec::new();
    let mut i: usize = 0;
    while i < m.len()
        invariant
            m@.len() == d.variants@.len(),
            i <= m@.len(),
            r@.len() == i,
            forall|x: int|
                0 <= x < i ==> #[trigger] r@[x] == (m@[x] && !variant_self_referential(
                    d.variants@[x],
                )),
        decreases m@.len() - i,
    {
        let keep = m[i] && !crate::value::variant_self_exec(&d.variants[i]);
        r.push(keep);
        i = i + 1;
    }
    assert(r@ =~= view_shared(*d, m@));
    r
}

/// Computes the mask of variants assigned to both sides.
fn and_mask(a: &Vec<bool>, b: &Vec<bool>) -> (r: Vec<bool>)
    requires
        a@.len() == b@.len(),
    ensures
        r@ == lateral_shared(a@, b@),
{
    let mut r: Vec<bool> = Vec::new();
    let mut i: usize = 0;
    while i < a.len()
        invariant
            a@.len() == b@.len(),
            i <= a@.len(),
            r@.len() == i,
            forall|x: int| 0 <= x < i ==> #[trigger] r@[x] == (a@[x] && b@[x]),
        decreases a@.len() - i,
    {
        r.push(a[i] && b[i]);
        i = i + 1;
    }
    assert(r@ =~= lateral_shared(a@, b@));
    r
}

/// Emits the conversion edges for the sub-type at index `p`.
fn build_edges(d: &EnumDecl, plans: &Vec<SubTypePlan>, p: usize, views: bool) -> (edges: Vec<
    ConversionEdge,
>)
    requires
        p < plans@.len(),
        forall|q: int|
            0 <= q < plans@.len() ==> (#[trigger] plans@[q]).mask@.len() == d.variants@.len(),
    ensures
        sub_edges_wf(edges@, *d, plans@, p as int, views),
{
    let ghost base: int = if views {
        3
    } else {
        2
    };
    let mut edges: Vec<ConversionEdge> = Vec::new();
    edges.push(ConversionEdge { kind: EdgeKind::Downward, shared: copy_mask(&plans[p].mask) });
    edges.push(ConversionEdge { kind: EdgeKind::Upward, shared: copy_mask(&plans[p].mask) });
    if views {
        edges.push(
            ConversionEdge { kind: EdgeKind::RefView, shared: view_mask(d, &plans[p].mask) },
        );
    }
    let mut q: usize = 0;
    while q < plans.len()
        invariant
            p < plans@.len(),
            forall|x: int|
                0 <= x < plans@.len() ==> (#[trigger] plans@[x]).mask@.len()
                    == d.variants@.len(),
            base == if views {
                3int
            } else {
                2int
            },
            q <= plans@.len(),
            edges@.len() == base + if q <= p {
                q as int
            } else {
                q - 1
            },
            edges@[0].kind == EdgeKind::Downward,
            edges@[0].shared@ == plans@[p as int].mask@,
            edges@[1].kind == EdgeKind::Upward,
            edges@[1].shared@ == plans@[p as int].mask@,
            views ==> edges@[2].kind == EdgeKind::RefView && edges@[2].shared@ == view_shared(
                *d,
                plans@[p as int].mask@,
            ),
            forall|x: int|
                0 <= x < q && x != p ==> ((#[trigger] edges@[lateral_slot(
                    p as int,
                    x,
                    base,
                )]).kind == EdgeKind::Lateral(x as usize) && edges@[lateral_slot(
                    p as int,
                    x,
                    base,
                )].shared@ == lateral_shared(plans@[p as int].mask@, plans@[x].mask@)),
        decreases plans@.len() - q,
    {
        if q != p {
            edges.push(
                ConversionEdge {
                    kind: EdgeKind::Lateral(q),
                    shared: and_mask(&plans[p].mask, &plans[q].mask),
                },
            );
        }
        q = q + 1;
    }
    edges
}

/// Merges two generic parameter lists for a lateral conversion's
/// implementation: the left side's parameters in order, then those of
/// the right side whose names the left side does not already carry, in
/// order.  The returned index list names which right-side parameters
/// were taken.
pub fn merge_params(a: &Vec<GenericParam>, b: &Vec<GenericParam>) -> (r: (
    Vec<GenericParam>,
    Vec<usize>,
))
    ensures
        r.0@.len() == a@.len() + r.1@.len(),
        forall|t: int| 0 <= t < a@.len() ==> crate::ast::param_eq(#[trigger] r.0@[t], a@[t]),
        forall|t: int| 0 < t < r.1@.len() ==> r.1@[t - 1] < #[trigger] r.1@[t],
        forall|t: int|
            0 <= t < r.1@.len() ==> (#[trigger] r.1@[t]) < b@.len() && !param_named_in(
                a@,
                b@[r.1@[t] as int].ident@,
            ) && crate::ast::param_eq(r.0@[a@.len() + t], b@[r.1@[t] as int]),
        forall|u: int|
            0 <= u < b@.len() && !param_named_in(a@, (#[trigger] b@[u]).ident@) ==> indices_have(
                r.1@,
                u,
            ),
{
    let mut out: Vec<GenericParam> = Vec::new();
    let mut t: usize = 0;
    while t < a.len()
        invariant
            t <= a@.len(),
            out@.len() == t,
            forall|x: int| 0 <= x < t ==> crate::ast::param_eq(#[trigger] out@[x], a@[x]),
        decreases a@.len() - t,
    {
        out.push(a[t].duplicate());
        t = t + 1;
    }
    let mut taken: Vec<usize> = Vec::new();
    let mut u: usize = 0;
    while u < b.len()
        invariant
            out@.len() == a@.len() + taken@.len(),
            forall|x: int| 0 <= x < a@.len() ==> crate::ast::param_eq(#[trigger] out@[x], a@[x]),
            u <= b@.len(),
            forall|x: int| 0 < x < taken@.len() ==> taken@[x - 1] < #[trigger] taken@[x],
            forall|x: int| 0 <= x < taken@.len() ==> (#[trigger] taken@[x]) < u,
            forall|x: int|
                0 <= x < taken@.len() ==> !param_named_in(a@, b@[taken@[x] as int].ident@)
                    && crate::ast::param_eq(out@[a@.len() + x], b@[taken@[x] as int]),
            forall|y: int|
                0 <= y < u && !param_named_in(a@, (#[trigger] b@[y]).ident@) ==> indices_have(
                    taken@,
                    y,
                ),
        decreases b@.len() - u,
    {
        if !param_named_in_exec(a, &b[u].ident) {
            let ghost t0 = taken@;
            taken.push(u);
            out.push(b[u].duplicate());
            proof {
                assert forall|y: int|
                    0 <= y < u + 1 && !param_named_in(a@, (#[trigger] b@[y]).ident@)
                    implies indices_have(taken@, y) by {
                    if y < u {
                        assert(indices_have(t0, y));
                        let x = choose|x: int| 0 <= x < t0.len() && t0[x] == y;
                        assert(taken@[x] == y);
                    } else {
                        assert(taken@[t0.len() as int] == y);
                    }
                }
            }
        }
        u = u + 1;
    }
    (out, taken)
}

/// True when some parameter of `ps` is named `s`.
pub open spec fn param_named_in(ps: Seq<GenericParam>, s: Seq<u8>) -> bool {
    exists|t: int| 0 <= t < ps.len() && (#[trigger] ps[t]).ident@ == s
}

/// Tests whether some parameter of `ps` carries the name.
fn param_named_in_exec(ps: &Vec<GenericParam>, name: &Ident) -> (r: bool)
    ensures
        r == param_named_in(ps@, name@),
{
    let mut t: usize = 0;
    while t < ps.len()
        invariant
            t <= ps@.len(),
            forall|x: int| 0 <= x < t ==> (#[trigger] ps@[x]).ident@ != name@,
        decreases ps@.len() - t,
    {
        if ps[t].ident.eq_ident(name) {
            assert(param_named_in(ps@, name@));
            return true;
        }
        t = t + 1;
    }
    false
}

/// One generated sub-type: which base variants it keeps, its emitted
/// declaration, its layout checks, and its conversion edges.
pub struct SubTypeDef {
    /// The kept base-variant indices, in increasing order.
    pub kept: Vec<usize>,
    /// The emitted sub-type declaration.
    pub decl: EnumDecl,
    /// The layout checks guarding the reference views; empty when the
    /// entry point emits no views.
    pub checks: Vec<LayoutCheck>,
    /// The conversion edges rooted at this sub-type.
    pub edges: Vec<ConversionEdge>,
}

/// Everything one generation run emits.
pub struct Generated {
    /// The re-emitted base declaration; present only for the
    /// attribute-style entry point, which rewrites its input.
    pub base: Option<EnumDecl>,
    /// The discriminant assigned to each base variant; present only
    /// for the attribute-style entry point, which injects them.
    pub discs: Option<Vec<i64>>,
    /// One plan per distinct sub-type tag.
    pub plans: Vec<SubTypePlan>,
    /// One generated sub-type per plan, aligned with `plans`.
    pub subs: Vec<SubTypeDef>,
}

/// The assigned discriminants as a mathematical value.
pub open spec fn spec_discs(g: Generated) -> Option<Seq<i64>> {
    match g.discs {
        Some(ds) => Some(ds@),
        None => None,
    }
}

/// What a generation run promises, against the input declaration.
/// `views` says whether the run is attribute-style: it then re-emits
/// the base declaration with injected discriminants, emits layout
/// checks, and emits reference views.
pub open spec fn generated_wf(g: Generated, d: EnumDecl, views: bool) -> bool {
    &&& plans_wf(d, g.plans@)
    &&& g.subs@.len() == g.plans@.len()
    &&& forall|p: int|
        0 <= p < g.plans@.len() ==> kept_matches_mask(
            (#[trigger] g.subs@[p]).kept@,
            g.plans@[p].mask@,
        )
    &&& forall|p: int|
        0 <= p < g.plans@.len() ==> sub_decl_wf(
            (#[trigger] g.subs@[p]).decl,
            d,
            g.plans@[p],
            g.subs@[p].kept@,
            spec_discs(g),
            views,
        )
    &&& forall|p: int|
        0 <= p < g.plans@.len() ==> sub_edges_wf(
            (#[trigger] g.subs@[p]).edges@,
            d,
            g.plans@,
            p,
            views,
        )
    &&& (views ==> {
        &&& g.discs is Some
        &&& g.discs->0@.len() == d.variants@.len()
        &&& forall|i: int|
            0 <= i < d.variants@.len() ==> #[trigger] g.discs->0@[i] == assigned_disc(
                d.variants@,
                i,
            )
        &&& forall|i: int|
            0 <= i < d.variants@.len() && (#[trigger] d.variants@[i]).disc is Some
                ==> g.discs->0@[i] == d.variants@[i].disc->0
        &&& g.base is Some
        &&& base_reemitted(g.base->0, d, Some(g.discs->0@))
        &&& forall|p: int|
            0 <= p < g.plans@.len() ==> checks_wf(
                (#[trigger] g.subs@[p]).checks@,
                g.subs@[p].kept@,
                g.discs->0@,
            )
    })
    &&& (!views ==> {
        &&& g.base is None
        &&& g.discs is None
        &&& forall|p: int| 0 <= p < g.plans@.len() ==> (#[trigger] g.subs@[p]).checks@.len() == 0
    })
}

/// Assembles the generation output from the plans.
fn assemble(d: &EnumDecl, plans: Vec<SubTypePlan>, views: bool) -> (g: Generated)
    requires
        plans_wf(*d, plans@),
        views ==> forall|j: int|
            0 < j < d.variants@.len() && (#[trigger] d.variants@[j]).disc is None
                ==> assigned_disc(d.variants@, j - 1) < i64::MAX,
    ensures
        generated_wf(g, *d, views),
{
    let (base, discs) = if views {
        let ds = compute_discs(&d.variants);
        let b = reemit_base(d, &ds);
        (Some(b), Some(ds))
    } else {
        (None, None)
    };
    let mut subs: Vec<SubTypeDef> = Vec::new();
    let mut p: usize = 0;
    while p < plans.len()
        invariant
            plans_wf(*d, plans@),
            views ==> (discs matches Some(ds) && ds@.len() == d.variants@.len()),
            !views ==> discs is None,
            p <= plans@.len(),
            subs@.len() == p,
            forall|x: int|
                0 <= x < p ==> kept_matches_mask(
                    (#[trigger] subs@[x]).kept@,
                    plans@[x].mask@,
                ),
            forall|x: int|
                0 <= x < p ==> sub_decl_wf(
                    (#[trigger] subs@[x]).decl,
                    *d,
                    plans@[x],
                    subs@[x].kept@,
                    match discs {
                        Some(ds) => Some(ds@),
                        None => None,
                    },
                    views,
                ),
            forall|x: int|
                0 <= x < p ==> sub_edges_wf((#[trigger] subs@[x]).edges@, *d, plans@, x, views),
            views ==> forall|x: int|
                0 <= x < p ==> checks_wf(
                    (#[trigger] subs@[x]).checks@,
                    subs@[x].kept@,
                    discs->0@,
                ),
            !views ==> forall|x: int| 0 <= x < p ==> (#[trigger] subs@[x]).checks@.len() == 0,
        decreases plans@.len() - p,
    {
        assert(crate::plan::plan_wf(*d, plans@[p as int]));
        let kept = mask_indices(&plans[p].mask);
        let decl = synthesize_decl(
            d,
            &plans[p],
            &kept,
            match &discs {
                Some(ds) => Some(ds),
                None => None,
            },
            views,
        );
        let checks = match &discs {
            Some(ds) => build_checks(&kept, ds),
            None => Vec::new(),
        };
        assert(forall|q: int|
            0 <= q < plans@.len() ==> (#[trigger] plans@[q]).mask@.len() == d.variants@.len());
        let edges = build_edges(d, &plans, p, views);
        subs.push(SubTypeDef { kept, decl, checks, edges });
        p = p + 1;
    }
    Generated { base, discs, plans, subs }
}

/// Why a generation run failed.
#[derive(Debug)]
pub enum GenError {
    /// The attribute-style entry point was given a declaration without
    /// a representation attribute.
    MissingRepr,
    /// The derive-style entry point was applied to something other
    /// than an enumeration.
    NotAnEnum,
    /// A variant carries a malformed tag annotation.
    Tag(TagDiag),
}

/// What the derive-style entry point is applied to.
pub enum DeclInput {
    /// An enumeration: the only accepted input.
    Enumeration(EnumDecl),
    /// A struct declaration.
    Structure,
    /// A union declaration.
    Union,
}

/// The attribute-style entry point: requires a representation
/// attribute, injects explicit discriminants, re-emits the stripped
/// base declaration, and emits sub-types with conversion edges,
/// reference views and layout checks.
pub fn poly_enum(d: &EnumDecl) -> (r: Result<Generated, GenError>)
    requires
        forall|j: int|
            0 < j < d.variants@.len() && (#[trigger] d.variants@[j]).disc is None
                ==> assigned_disc(d.variants@, j - 1) < i64::MAX,
    ensures
        match r {
            Ok(g) => d.repr is Some && generated_wf(g, *d, true),
            Err(e) => match e {
                GenError::MissingRepr => d.repr is None,
                GenError::Tag(diag) => d.repr is Some && tag_diag_wf(*d, diag),
                GenError::NotAnEnum => false,
            },
        },
{
    if d.repr.is_none() {
        return Err(GenError::MissingRepr);
    }
    match build_plans(d) {
        Ok(plans) => Ok(assemble(d, plans, true)),
        Err(diag) => Err(GenError::Tag(diag)),
    }
}

/// The derive-style entry point: accepts only an enumeration, needs no
/// representation attribute, and emits sub-types with owning
/// conversion edges only — no reference views, no layout checks, and
/// no re-emitted base declaration.
pub fn poly_enum_derive(input: &DeclInput) -> (r: Result<Generated, GenError>)
    ensures
        match r {
            Ok(g) => input matches DeclInput::Enumeration(d) && generated_wf(g, *d, false),
            Err(e) => match e {
                GenError::MissingRepr => false,
                GenError::Tag(diag) => input matches DeclInput::Enumeration(d) && tag_diag_wf(
                    *d,
                    diag,
                ),
                GenError::NotAnEnum => !(input is Enumeration),
            },
        },
{
    match input {
        DeclInput::Enumeration(d) => {
            match build_plans(d) {
                Ok(plans) => Ok(assemble(d, plans, false)),
                Err(diag) => Err(GenError::Tag(diag)),
            }
        },
        _ => Err(GenError::NotAnEnum),
    }
}

/// The layout checks pass by construction.  For every layout check of
/// an attribute-style generation run: the checked variant is the
/// sub-type's kept variant, the re-emitted base declaration and the
/// sub-type declaration stamp that same discriminant onto it, and both
/// carry the base variant's fields verbatim — so a value of either
/// type leads with the same tag and lays the shared variant's fields
/// out behind it identically, which is what licenses the zero-copy
/// reference views.
pub proof fn lemma_layout_checks_agree(g: Generated, d: EnumDecl, p: int, t: int)
    requires
        generated_wf(g, d, true),
        0 <= p < g.subs@.len(),
        0 <= t < g.subs@[p].checks@.len(),
    ensures
        g.subs@[p].kept@[t] == g.subs@[p].checks@[t].variant,
        (g.subs@[p].checks@[t].variant as int) < d.variants@.len(),
        g.base->0.variants@[g.subs@[p].checks@[t].variant as int].disc == Some(
            g.subs@[p].checks@[t].disc,
        ),
        g.subs@[p].decl.variants@[t].disc == Some(g.subs@[p].checks@[t].disc),
        fields_eq(
            g.base->0.variants@[g.subs@[p].checks@[t].variant as int].fields@,
            d.variants@[g.subs@[p].checks@[t].variant as int].fields@,
        ),
        fields_eq(
            g.subs@[p].decl.variants@[t].fields@,
            d.variants@[g.subs@[p].checks@[t].variant as int].fields@,
        ),
{
    let sub = g.subs@[p];
    let plan = g.plans@[p];
    let ds = g.discs->0@;
    assert(checks_wf(sub.checks@, sub.kept@, ds));
    assert(kept_matches_mask(sub.kept@, plan.mask@));
    assert(crate::plan::plan_wf(d, plan));
    let i = sub.kept@[t] as int;
    assert(sub.checks@[t].variant == sub.kept@[t]);
    assert(sub.kept@[t] < plan.mask@.len());
    assert(plan.mask@.len() == d.variants@.len());
    assert(sub_decl_wf(sub.decl, d, plan, sub.kept@, spec_discs(g), true));
    assert(variant_restamped(sub.decl.variants@[t], d.variants@[i], Some(ds[i])));
    assert(base_reemitted(g.base->0, d, Some(ds)));
    assert(variant_restamped(g.base->0.variants@[i], d.variants@[i], Some(ds[i])));
    assert(sub.checks@[t].disc == ds[i]);
}

} // verus!
