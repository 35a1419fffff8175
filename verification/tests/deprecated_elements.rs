use poly_enum::ast::{EnumDecl, FieldShape, TagList, TagToken, TokenBlob, VariantDef};
use poly_enum::ident::Ident;
use poly_enum::plan::SubTypePlan;
use poly_enum::synth::{poly_enum_derive, DeclInput};
use poly_enum::value::{cast_down, EnumValue};

fn ident(s: &str) -> Ident {
    Ident::new(s.as_bytes().to_vec())
}

fn blob(s: &str) -> TokenBlob {
    TokenBlob { bytes: s.as_bytes().to_vec() }
}

fn tag_list(names: &[&str]) -> TagList {
    let mut tokens = Vec::new();
    for (i, n) in names.iter().enumerate() {
        if i > 0 {
            tokens.push(TagToken::Comma);
        }
        tokens.push(TagToken::Ident(ident(n)));
    }
    TagList { tokens }
}

fn unit_variant(name: &str, tags: &[&str]) -> VariantDef {
    VariantDef {
        ident: ident(name),
        shape: FieldShape::Unit,
        fields: Vec::new(),
        disc: None,
        tags: vec![tag_list(tags)],
    }
}

fn elements() -> EnumDecl {
    EnumDecl {
        ident: ident("Elements"),
        vis: blob(""),
        generics: Vec::new(),
        where_clause: None,
        repr: None,
        derives: Vec::new(),
        variants: vec![
            unit_variant("Carbon", &["NonMetal"]),
            unit_variant("Florine", &["Oxidizer", "NonMetal"]),
            unit_variant("Iron", &["Metal"]),
            unit_variant("Lithium", &["Alkali", "Metal"]),
            unit_variant("Oxygen", &["Oxidizer", "NonMetal"]),
            unit_variant("Sodium", &["Alkali", "Metal"]),
        ],
    }
}

fn plan_index(plans: &[SubTypePlan], name: &str) -> usize {
    for (i, p) in plans.iter().enumerate() {
        if p.name.bytes.as_slice() == name.as_bytes() {
            return i;
        }
    }
    panic!("no plan under that name");
}

fn value(variant: usize) -> EnumValue {
    EnumValue { variant, fields: Vec::new() }
}

#[test]
fn deprecated_elements_cast_carbon() {
    let g = poly_enum_derive(&DeclInput::Enumeration(elements())).unwrap();
    let non_metal = plan_index(&g.plans, "NonMetal");
    let oxidizer = plan_index(&g.plans, "Oxidizer");
    let e_carbon = value(0);
    let nm_carbon = cast_down(&g.plans[non_metal].mask, &e_carbon).unwrap();
    let ox_carbon = cast_down(&g.plans[oxidizer].mask, &nm_carbon);
    assert!(ox_carbon.is_none());
}

#[test]
fn deprecated_elements_cast_florine() {
    let g = poly_enum_derive(&DeclInput::Enumeration(elements())).unwrap();
    let metal = plan_index(&g.plans, "Metal");
    let non_metal = plan_index(&g.plans, "NonMetal");
    let alkali = plan_index(&g.plans, "Alkali");
    let florine = value(1);
    assert!(cast_down(&g.plans[metal].mask, &florine).is_none());
    assert!(cast_down(&g.plans[non_metal].mask, &florine).is_some());
    assert!(cast_down(&g.plans[alkali].mask, &florine).is_none());
}

#[test]
fn deprecated_elements_cast_iron() {
    let g = poly_enum_derive(&DeclInput::Enumeration(elements())).unwrap();
    let alkali = plan_index(&g.plans, "Alkali");
    let metal = plan_index(&g.plans, "Metal");
    let non_metal = plan_index(&g.plans, "NonMetal");
    let oxidizer = plan_index(&g.plans, "Oxidizer");
    let iron = value(2);
    assert!(cast_down(&g.plans[alkali].mask, &iron).is_none());
    assert!(cast_down(&g.plans[metal].mask, &iron).is_some());
    assert!(cast_down(&g.plans[non_metal].mask, &iron).is_none());
    assert!(cast_down(&g.plans[oxidizer].mask, &iron).is_none());
}
