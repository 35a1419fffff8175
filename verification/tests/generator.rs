use std::rc::Rc;
use std::sync::Arc;

use poly_enum::ast::{
    EnumDecl, Field, FieldShape, GenArg, GenericParam, ParamKind, PathArgs, PathSeg, TagList,
    TagToken, TokenBlob, TypeExpr, VariantDef,
};
use poly_enum::ident::Ident;
use poly_enum::plan::SubTypePlan;
use poly_enum::synth::{poly_enum as generate, poly_enum_derive, DeclInput, EdgeKind, GenError};
use poly_enum::tags::{parse_tags, Expected};
use poly_enum::value::{cast_down, cast_mut, cast_ref, cast_to_parent, cast_up, value_eq, EnumValue, FieldVal};
use poly_enum::PolyEnum;

fn ident(s: &str) -> Ident {
    Ident::new(s.as_bytes().to_vec())
}

fn blob(s: &str) -> TokenBlob {
    TokenBlob { bytes: s.as_bytes().to_vec() }
}

fn path_ty(name: &str) -> TypeExpr {
    TypeExpr::Path {
        qself: None,
        segments: vec![PathSeg { ident: ident(name), args: PathArgs::Bare }],
    }
}

fn boxed_self_ty() -> TypeExpr {
    TypeExpr::Path {
        qself: None,
        segments: vec![PathSeg {
            ident: ident("Box"),
            args: PathArgs::Angle(vec![GenArg::Ty(TypeExpr::SelfMarker)]),
        }],
    }
}

fn generic_app_ty(head: &str, arg: &str) -> TypeExpr {
    TypeExpr::Path {
        qself: None,
        segments: vec![PathSeg {
            ident: ident(head),
            args: PathArgs::Angle(vec![GenArg::Ty(path_ty(arg))]),
        }],
    }
}

fn tag_list(names: &[&str]) -> TagList {
    let mut tokens = Vec::new();
    for (i, n) in names.iter().enumerate() {
        if i > 0 {
            tokens.push(TagToken::Comma);
        }
        tokens.push(TagToken::Ident(ident(n)));
    }
    TagList { tokens }
}

fn unit_variant(name: &str, tags: &[&str]) -> VariantDef {
    VariantDef {
        ident: ident(name),
        shape: FieldShape::Unit,
        fields: Vec::new(),
        disc: None,
        tags: vec![tag_list(tags)],
    }
}

fn decl(name: &str, repr: Option<&str>, variants: Vec<VariantDef>) -> EnumDecl {
    EnumDecl {
        ident: ident(name),
        vis: blob("pub"),
        generics: Vec::new(),
        where_clause: None,
        repr: repr.map(ident),
        derives: Vec::new(),
        variants,
    }
}

fn elements() -> EnumDecl {
    decl(
        "Elements",
        Some("u32"),
        vec![
            unit_variant("Carbon", &["NonMetal"]),
            unit_variant("Florine", &["Oxidizer", "NonMetal"]),
            unit_variant("Iron", &["Metal"]),
            unit_variant("Lithium", &["Alkali", "Metal"]),
            unit_variant("Oxygen", &["Oxidizer", "NonMetal"]),
            unit_variant("Sodium", &["Alkali", "Metal"]),
        ],
    )
}

fn tree() -> EnumDecl {
    decl(
        "Tree",
        Some("u32"),
        vec![
            unit_variant("Leaf", &["Small", "Big"]),
            VariantDef {
                ident: ident("Node"),
                shape: FieldShape::Tuple,
                fields: vec![Field { name: None, ty: boxed_self_ty(), tokens: blob("Box<Self>") }],
                disc: None,
                tags: vec![tag_list(&["Big"])],
            },
        ],
    )
}

fn plan_index(plans: &[SubTypePlan], name: &str) -> usize {
    for (i, p) in plans.iter().enumerate() {
        if p.name.bytes.as_slice() == name.as_bytes() {
            return i;
        }
    }
    panic!("no plan under that name");
}

fn value(variant: usize) -> EnumValue {
    EnumValue { variant, fields: Vec::new() }
}

fn node(inner: EnumValue) -> EnumValue {
    EnumValue { variant: 1, fields: vec![FieldVal::Nested(Box::new(inner))] }
}

#[test]
fn round_trip_equal() {
    let g = generate(&elements()).unwrap();
    let metal = plan_index(&g.plans, "Metal");
    let lithium = value(3);
    let up = cast_up(&lithium);
    let down = cast_down(&g.plans[metal].mask, &up).unwrap();
    assert!(value_eq(&down, &lithium));
}

#[test]
fn parent_cast_always_succeeds() {
    let v = node(node(value(0)));
    let up = cast_to_parent(&v).unwrap();
    assert!(value_eq(&up, &v));
}

#[test]
fn absent_variant_gives_none() {
    let g = generate(&elements()).unwrap();
    let metal = plan_index(&g.plans, "Metal");
    let carbon = value(0);
    assert!(cast_down(&g.plans[metal].mask, &carbon).is_none());
}

#[test]
fn disjoint_siblings_give_none() {
    let d = decl(
        "Value",
        Some("u32"),
        vec![
            VariantDef {
                ident: ident("F32"),
                shape: FieldShape::Tuple,
                fields: vec![Field { name: None, ty: path_ty("f32"), tokens: blob("f32") }],
                disc: None,
                tags: vec![tag_list(&["Half", "Float"])],
            },
            VariantDef {
                ident: ident("F64"),
                shape: FieldShape::Tuple,
                fields: vec![Field { name: None, ty: path_ty("f64"), tokens: blob("f64") }],
                disc: None,
                tags: vec![tag_list(&["Float"])],
            },
            VariantDef {
                ident: ident("I32"),
                shape: FieldShape::Tuple,
                fields: vec![Field { name: None, ty: path_ty("i32"), tokens: blob("i32") }],
                disc: None,
                tags: vec![tag_list(&["Half", "Int"])],
            },
            VariantDef {
                ident: ident("I64"),
                shape: FieldShape::Tuple,
                fields: vec![Field { name: None, ty: path_ty("i64"), tokens: blob("i64") }],
                disc: None,
                tags: vec![tag_list(&["Int"])],
            },
            VariantDef {
                ident: ident("U64"),
                shape: FieldShape::Tuple,
                fields: vec![Field { name: None, ty: path_ty("u64"), tokens: blob("u64") }],
                disc: None,
                tags: vec![tag_list(&["Int"])],
            },
            VariantDef {
                ident: ident("V2"),
                shape: FieldShape::Tuple,
                fields: vec![
                    Field { name: None, ty: path_ty("u64"), tokens: blob("u64") },
                    Field { name: None, ty: path_ty("u64"), tokens: blob("u64") },
                ],
                disc: None,
                tags: vec![tag_list(&["Pair"])],
            },
        ],
    );
    let g = generate(&d).unwrap();
    let pair = plan_index(&g.plans, "Pair");
    let half = plan_index(&g.plans, "Half");
    let f32_value = EnumValue { variant: 0, fields: vec![FieldVal::Plain(7)] };
    // F32 lies in Half; Pair holds only V2, disjoint from Half.
    assert!(cast_down(&g.plans[half].mask, &f32_value).is_some());
    assert!(cast_down(&g.plans[pair].mask, &f32_value).is_none());
}

#[test]
fn recursive_field_converts() {
    let g = generate(&tree()).unwrap();
    let big = plan_index(&g.plans, "Big");
    let v = node(value(0));
    let down = cast_down(&g.plans[big].mask, &v).unwrap();
    assert!(value_eq(&down, &v));
    let deep = node(node(value(0)));
    assert!(cast_down(&g.plans[big].mask, &deep).is_some());
}

#[test]
fn recursive_field_failure_gives_none() {
    let d = decl(
        "Chain",
        Some("u32"),
        vec![
            unit_variant("End", &["Ends"]),
            VariantDef {
                ident: ident("Link"),
                shape: FieldShape::Tuple,
                fields: vec![Field { name: None, ty: boxed_self_ty(), tokens: blob("Box<Self>") }],
                disc: None,
                tags: vec![tag_list(&["Links"])],
            },
        ],
    );
    let g = generate(&d).unwrap();
    let links = plan_index(&g.plans, "Links");
    // The link itself is assigned to Links, but its nested value is
    // not representable there: the cast reports absence, it never
    // panics.
    let v = node(value(0));
    assert!(cast_down(&g.plans[links].mask, &v).is_none());
}

#[test]
fn explicit_discriminants_preserved() {
    let mut a = unit_variant("A", &["S"]);
    a.disc = Some(7);
    let b = unit_variant("B", &["S"]);
    let mut c = unit_variant("C", &["S"]);
    c.disc = Some(3);
    let d_var = unit_variant("D", &["S"]);
    let d = decl("Weird", Some("i32"), vec![a, b, c, d_var]);
    let g = generate(&d).unwrap();
    let ds = g.discs.as_ref().unwrap();
    assert_eq!(ds.as_slice(), &[7, 8, 3, 4]);
    let base = g.base.as_ref().unwrap();
    assert_eq!(base.variants[0].disc, Some(7));
    assert_eq!(base.variants[2].disc, Some(3));
    let s = plan_index(&g.plans, "S");
    // The sub-type keeps every variant here, with the same bindings.
    assert_eq!(g.subs[s].decl.variants[2].disc, Some(3));
    assert_eq!(g.subs[s].checks[2].disc, 3);
}

#[test]
fn extreme_discriminants_accepted() {
    // An explicit maximum on the last variant is fine: nothing
    // continues from it.
    let mut a = unit_variant("A", &["S"]);
    a.disc = Some(-5);
    let b = unit_variant("B", &["S"]);
    let mut c = unit_variant("C", &["S"]);
    c.disc = Some(i64::MAX);
    let d = decl("Edges", Some("i64"), vec![a, b, c]);
    let g = generate(&d).unwrap();
    let ds = g.discs.as_ref().unwrap();
    assert_eq!(ds.as_slice(), &[-5, -4, i64::MAX]);
}

#[test]
fn mutable_view_matches_reference_view() {
    let d = tree();
    let g = generate(&d).unwrap();
    let big = plan_index(&g.plans, "Big");
    let mut leaf = value(0);
    {
        let viewed = cast_mut(&d, &g.plans[big].mask, &mut leaf);
        assert!(viewed.is_some());
    }
    // The view by itself changes nothing.
    assert!(value_eq(&leaf, &value(0)));
    // A self-referential variant is excluded, and the value is left
    // untouched.
    let mut inner = node(value(0));
    assert!(cast_mut(&d, &g.plans[big].mask, &mut inner).is_none());
    assert!(value_eq(&inner, &node(value(0))));
}

#[test]
fn malformed_tags_fail_generation() {
    let mut v = unit_variant("A", &["S"]);
    v.tags = vec![TagList {
        tokens: vec![TagToken::Ident(ident("S")), TagToken::Ident(ident("T"))],
    }];
    let d = decl("Bad", Some("u32"), vec![unit_variant("Ok", &["S"]), v]);
    match generate(&d) {
        Err(GenError::Tag(diag)) => {
            assert_eq!(diag.variant, 1);
            assert_eq!(diag.attr, 0);
            assert_eq!(diag.err.index, 1);
            assert_eq!(diag.err.expected, Expected::CommaTok);
        },
        _ => panic!("malformed tags must fail generation"),
    }
}

#[test]
fn tag_parser_exact() {
    let ok = parse_tags(&vec![
        TagToken::Ident(ident("A")),
        TagToken::Comma,
        TagToken::Ident(ident("B")),
        TagToken::Comma,
    ])
    .unwrap();
    assert_eq!(ok.len(), 2);
    assert_eq!(ok[0].bytes.as_slice(), b"A".as_slice());
    assert_eq!(ok[1].bytes.as_slice(), b"B".as_slice());
    assert!(parse_tags(&Vec::new()).unwrap().is_empty());
    let err = parse_tags(&vec![TagToken::Comma]).unwrap_err();
    assert_eq!(err.index, 0);
    assert_eq!(err.expected, Expected::Identifier);
    let err = parse_tags(&vec![TagToken::Ident(ident("A")), TagToken::Other]).unwrap_err();
    assert_eq!(err.index, 1);
    assert_eq!(err.expected, Expected::CommaTok);
}

#[test]
fn missing_repr_is_rejected() {
    let mut d = elements();
    d.repr = None;
    match generate(&d) {
        Err(GenError::MissingRepr) => {},
        _ => panic!("a representation attribute is required"),
    }
}

#[test]
fn derive_rejects_non_enums() {
    match poly_enum_derive(&DeclInput::Structure) {
        Err(GenError::NotAnEnum) => {},
        _ => panic!("only enumerations are accepted"),
    }
}

#[test]
fn reference_view_matches_exactly() {
    let d = tree();
    let g = generate(&d).unwrap();
    let big = plan_index(&g.plans, "Big");
    let small = plan_index(&g.plans, "Small");
    let leaf = value(0);
    // Shared, self-free variant: the view is the same value.
    let seen = cast_ref(&d, &g.plans[big].mask, &leaf).unwrap();
    assert!(value_eq(seen, &leaf));
    assert!(value_eq(&leaf, &value(0)));
    // A self-referential variant is excluded from the reference path.
    let v = node(value(0));
    assert!(cast_ref(&d, &g.plans[big].mask, &v).is_none());
    // An absent variant yields no view.
    assert!(cast_ref(&d, &g.plans[small].mask, &v).is_none());
}

#[test]
fn scanner_finds_generic_references() {
    let t = ident("T");
    let u = ident("U");
    assert!(poly_enum::scan::mentions(&generic_app_ty("Arc", "T"), &t));
    assert!(!poly_enum::scan::mentions(&generic_app_ty("Arc", "T"), &u));
    assert!(poly_enum::scan::mentions(&path_ty("T"), &t));
    assert!(!poly_enum::scan::mentions(&TypeExpr::Opaque, &t));
    let r = TypeExpr::Ref { lifetime: Some(ident("a")), elem: Box::new(path_ty("str")) };
    assert!(poly_enum::scan::mentions(&r, &ident("a")));
    assert!(poly_enum::scan::has_self_marker(&boxed_self_ty()));
    assert!(!poly_enum::scan::has_self_marker(&generic_app_ty("Arc", "T")));
}

#[test]
fn minimal_generics_are_kept_in_order() {
    let mut d = decl(
        "AnyPtr",
        Some("u32"),
        vec![
            VariantDef {
                ident: ident("Arc"),
                shape: FieldShape::Tuple,
                fields: vec![Field { name: None, ty: generic_app_ty("Arc", "T"), tokens: blob("Arc<T>") }],
                disc: None,
                tags: vec![tag_list(&["RcPtr"])],
            },
            VariantDef {
                ident: ident("_Box"),
                shape: FieldShape::Tuple,
                fields: vec![Field { name: None, ty: generic_app_ty("Box", "U"), tokens: blob("Box<U>") }],
                disc: None,
                tags: Vec::new(),
            },
            unit_variant("None", &["NotAPointer"]),
        ],
    );
    d.generics = vec![
        GenericParam { kind: ParamKind::Ty, ident: ident("T"), decl: blob("T: Clone") },
        GenericParam { kind: ParamKind::Ty, ident: ident("U"), decl: blob("U") },
    ];
    d.where_clause = Some(blob("where T: Clone"));
    let g = generate(&d).unwrap();
    let rc_ptr = plan_index(&g.plans, "RcPtr");
    let not_a_pointer = plan_index(&g.plans, "NotAPointer");
    // Only T is referenced by RcPtr's variants; U is dropped.
    assert_eq!(g.plans[rc_ptr].gen_idx.as_slice(), &[0]);
    assert_eq!(g.plans[rc_ptr].generics[0].ident.bytes.as_slice(), b"T".as_slice());
    assert_eq!(g.plans[rc_ptr].generics[0].decl.bytes.as_slice(), b"T: Clone".as_slice());
    // A unit-only sub-type needs no generics at all.
    assert!(g.plans[not_a_pointer].gen_idx.is_empty());
    // The where clause is carried verbatim, not pruned.
    assert_eq!(
        g.subs[rc_ptr].decl.where_clause.as_ref().unwrap().bytes.as_slice(),
        b"where T: Clone".as_slice(),
    );
}

#[test]
fn merged_generics_prefer_the_left_side() {
    let a = vec![
        GenericParam { kind: ParamKind::Ty, ident: ident("T"), decl: blob("T") },
        GenericParam { kind: ParamKind::Ty, ident: ident("U"), decl: blob("U: Copy") },
    ];
    let b = vec![
        GenericParam { kind: ParamKind::Ty, ident: ident("U"), decl: blob("U") },
        GenericParam { kind: ParamKind::Ty, ident: ident("V"), decl: blob("V") },
    ];
    let (merged, taken) = poly_enum::synth::merge_params(&a, &b);
    assert_eq!(merged.len(), 3);
    assert_eq!(merged[0].ident.bytes.as_slice(), b"T".as_slice());
    assert_eq!(merged[1].ident.bytes.as_slice(), b"U".as_slice());
    assert_eq!(merged[1].decl.bytes.as_slice(), b"U: Copy".as_slice());
    assert_eq!(merged[2].ident.bytes.as_slice(), b"V".as_slice());
    assert_eq!(taken.as_slice(), &[1]);
}

#[test]
fn edges_cover_every_pair() {
    let g = generate(&elements()).unwrap();
    assert_eq!(g.plans.len(), 4);
    for p in 0..g.subs.len() {
        let edges = &g.subs[p].edges;
        // Downward, upward, reference view, then one lateral per
        // sibling.
        assert_eq!(edges.len(), 3 + g.plans.len() - 1);
        assert!(matches!(edges[0].kind, EdgeKind::Downward));
        assert_eq!(edges[0].shared, g.plans[p].mask);
        assert!(matches!(edges[1].kind, EdgeKind::Upward));
        assert!(matches!(edges[2].kind, EdgeKind::RefView));
        for e in edges[3..].iter() {
            match e.kind {
                EdgeKind::Lateral(q) => {
                    assert_ne!(q, p);
                    for i in 0..e.shared.len() {
                        assert_eq!(e.shared[i], g.plans[p].mask[i] && g.plans[q].mask[i]);
                    }
                },
                _ => panic!("expected a lateral edge"),
            }
        }
    }
}

#[test]
fn layout_checks_cover_kept_variants() {
    let g = generate(&elements()).unwrap();
    let metal = plan_index(&g.plans, "Metal");
    let sub = &g.subs[metal];
    assert_eq!(sub.kept.as_slice(), &[2, 3, 5]);
    assert_eq!(sub.checks.len(), 3);
    for t in 0..sub.checks.len() {
        assert_eq!(sub.checks[t].variant, sub.kept[t]);
        assert_eq!(sub.checks[t].disc, sub.kept[t] as i64);
    }
    // Derive-style generation emits no checks and no reference views.
    let mut d = elements();
    d.repr = None;
    let g2 = poly_enum_derive(&DeclInput::Enumeration(d)).unwrap();
    for sub in g2.subs.iter() {
        assert!(sub.checks.is_empty());
        assert_eq!(sub.edges.len(), 2 + g2.plans.len() - 1);
        assert!(!sub.edges.iter().any(|e| matches!(e.kind, EdgeKind::RefView)));
    }
}

#[derive(Clone)]
struct Narrow(u8);

#[derive(Clone)]
struct Wide(u8);

impl PolyEnum<Wide> for Narrow {
    fn cast(self) -> Option<Wide> {
        if self.0 < 100 {
            Some(Wide(self.0))
        } else {
            None
        }
    }
}

#[test]
fn container_lifts() {
    let empty: Option<Vec<Wide>> = Vec::<Narrow>::new().cast();
    assert_eq!(empty.unwrap().len(), 0);
    let ok: Option<Vec<Wide>> = vec![Narrow(1), Narrow(2)].cast();
    let ok = ok.unwrap();
    assert_eq!(ok.len(), 2);
    assert_eq!(ok[0].0, 1);
    assert_eq!(ok[1].0, 2);
    let bad: Option<Vec<Wide>> = vec![Narrow(1), Narrow(200)].cast();
    assert!(bad.is_none());
    let boxed: Option<Box<Wide>> = Box::new(Narrow(9)).cast();
    assert_eq!(boxed.unwrap().0, 9);
    let shared: Option<Arc<Wide>> = Arc::new(Narrow(5)).cast();
    assert_eq!(shared.unwrap().0, 5);
    let kept = Rc::new(Narrow(6));
    let extra = kept.clone();
    let counted: Option<Rc<Wide>> = kept.cast();
    assert_eq!(counted.unwrap().0, 6);
    assert_eq!(extra.0, 6);
    let failing: Option<Rc<Wide>> = Rc::new(Narrow(255)).cast();
    assert!(failing.is_none());
}
