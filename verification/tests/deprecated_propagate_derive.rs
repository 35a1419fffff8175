use poly_enum::ast::{
    EnumDecl, Field, FieldShape, PathArgs, PathSeg, TagList, TagToken, TokenBlob, TypeExpr,
    VariantDef,
};
use poly_enum::ident::Ident;
use poly_enum::plan::SubTypePlan;
use poly_enum::synth::{poly_enum_derive, DeclInput};
use poly_enum::value::{cast_up, EnumValue, FieldVal};

fn ident(s: &str) -> Ident {
    Ident::new(s.as_bytes().to_vec())
}

fn blob(s: &str) -> TokenBlob {
    TokenBlob { bytes: s.as_bytes().to_vec() }
}

fn path_ty(name: &str) -> TypeExpr {
    TypeExpr::Path {
        qself: None,
        segments: vec![PathSeg { ident: ident(name), args: PathArgs::Bare }],
    }
}

fn tag_list(names: &[&str]) -> TagList {
    let mut tokens = Vec::new();
    for (i, n) in names.iter().enumerate() {
        if i > 0 {
            tokens.push(TagToken::Comma);
        }
        tokens.push(TagToken::Ident(ident(n)));
    }
    TagList { tokens }
}

fn tuple_variant(name: &str, field_ty: &str, tags: &[&str]) -> VariantDef {
    VariantDef {
        ident: ident(name),
        shape: FieldShape::Tuple,
        fields: vec![Field { name: None, ty: path_ty(field_ty), tokens: blob(field_ty) }],
        disc: None,
        tags: vec![tag_list(tags)],
    }
}

fn value_decl() -> EnumDecl {
    EnumDecl {
        ident: ident("Value"),
        vis: blob(""),
        generics: Vec::new(),
        where_clause: None,
        repr: None,
        derives: vec![blob("Clone, Copy, Debug")],
        variants: vec![
            tuple_variant("F32", "f32", &["Half", "Float"]),
            tuple_variant("F64", "f64", &["Float"]),
            tuple_variant("I32", "i32", &["Half", "Int"]),
            tuple_variant("I64", "i64", &["Int"]),
            tuple_variant("U64", "u64", &["Int"]),
            VariantDef {
                ident: ident("_Void"),
                shape: FieldShape::Unit,
                fields: Vec::new(),
                disc: None,
                tags: Vec::new(),
            },
        ],
    }
}

fn plan_index(plans: &[SubTypePlan], name: &str) -> usize {
    for (i, p) in plans.iter().enumerate() {
        if p.name.bytes.as_slice() == name.as_bytes() {
            return i;
        }
    }
    panic!("no plan under that name");
}

#[test]
fn clone() {
    let g = poly_enum_derive(&DeclInput::Enumeration(value_decl())).unwrap();
    let int = plan_index(&g.plans, "Int");
    // The Int sub-type carries the declaration's pass-through
    // derivation request, so the generated Int is Clone; copying an
    // Int::I32(0) is the upward reconstruction of its model value.
    assert_eq!(g.subs[int].decl.derives[0].bytes.as_slice(), b"Clone, Copy, Debug".as_slice());
    let v = EnumValue { variant: 2, fields: vec![FieldVal::Plain(0)] };
    let _a = cast_up(&v);
}
