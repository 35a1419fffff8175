//! The generic-reference scanner.
//!
//! Walks a field's declared type structurally and decides which
//! identifiers of the enclosing declaration's generic parameter list the
//! type mentions, and whether the type contains the reserved self
//! marker.  For a plain path type the leading segment's own identifier
//! counts as a mention; type forms the model does not inspect contribute
//! nothing.  Under-detecting a dependency can only produce a sub-type
//! that fails to compile downstream, never a wrong conversion.

use vstd::prelude::*;
use crate::ast::{GenArg, PathArgs, PathSeg, TypeExpr};
use crate::ident::{contains_ident, idents_have, Ident};

verus! {

/// True when the identifier named `s` occurs in a scanner position of
/// the type expression `t`.
pub open spec fn ty_mentions(t: TypeExpr, s: Seq<u8>) -> bool
    decreases t,
{
    match t {
        TypeExpr::SelfMarker => false,
        TypeExpr::Array(e) => ty_mentions(*e, s),
        TypeExpr::BareFn { binders, inputs, output } => {
            ||| idents_have(binders@, s)
            ||| tys_mention(inputs@, s)
            ||| opt_ty_mentions(output, s)
        },
        TypeExpr::Group(e) => ty_mentions(*e, s),
        TypeExpr::Paren(e) => ty_mentions(*e, s),
        TypeExpr::Path { qself, segments } => {
            match qself {
                Some(q) => ty_mentions(*q, s) || segs_mention(segments@, s),
                None => {
                    ||| (segments@.len() > 0 && segments@[0].ident@ == s)
                    ||| segs_mention(segments@, s)
                },
            }
        },
        TypeExpr::RawPtr(e) => ty_mentions(*e, s),
        TypeExpr::Ref { lifetime, elem } => {
            ||| (match lifetime {
                Some(l) => l@ == s,
                None => false,
            })
            ||| ty_mentions(*elem, s)
        },
        TypeExpr::Slice(e) => ty_mentions(*e, s),
        TypeExpr::Opaque => false,
    }
}

/// True when some element of `ts` mentions `s`.
pub open spec fn tys_mention(ts: Seq<TypeExpr>, s: Seq<u8>) -> bool
    decreases ts,
{
    exists|i: int| 0 <= i < ts.len() && ty_mentions(#[trigger] ts[i], s)
}

/// True when the optional type is present and mentions `s`.
pub open spec fn opt_ty_mentions(o: Option<Box<TypeExpr>>, s: Seq<u8>) -> bool
    decreases o,
{
    match o {
        Some(t) => ty_mentions(*t, s),
        None => false,
    }
}

/// True when some segment of `ss` mentions `s` through its arguments.
pub open spec fn segs_mention(ss: Seq<PathSeg>, s: Seq<u8>) -> bool
    decreases ss,
{
    exists|i: int| 0 <= i < ss.len() && args_mention((#[trigger] ss[i]).args, s)
}

/// True when a segment's argument list mentions `s`: a lifetime argument
/// by name, a type argument structurally, a call-style list through its
/// parameter and return types.
pub open spec fn args_mention(a: PathArgs, s: Seq<u8>) -> bool
    decreases a,
{
    match a {
        PathArgs::Bare => false,
        PathArgs::Angle(xs) => gargs_mention(xs@, s),
        PathArgs::Parens { inputs, output } => {
            tys_mention(inputs@, s) || opt_ty_mentions(output, s)
        },
    }
}

/// True when some generic argument of `xs` mentions `s`.
pub open spec fn gargs_mention(xs: Seq<GenArg>, s: Seq<u8>) -> bool
    decreases xs,
{
    exists|i: int| 0 <= i < xs.len() && garg_mentions(#[trigger] xs[i], s)
}

/// True when one generic argument mentions `s`.
pub open spec fn garg_mentions(x: GenArg, s: Seq<u8>) -> bool
    decreases x,
{
    match x {
        GenArg::Lifetime(l) => l@ == s,
        GenArg::Ty(t) => ty_mentions(t, s),
        GenArg::Opaque => false,
    }
}

/// Tests whether the type expression mentions the identifier, in the
/// scanner's positions.
pub fn mentions(t: &TypeExpr, name: &Ident) -> (r: bool)
    ensures
        r == ty_mentions(*t, name@),
    decreases *t,
{
    let r = match t {
        TypeExpr::SelfMarker => false,
        TypeExpr::Array(e) => mentions(&**e, name),
        TypeExpr::BareFn { binders, inputs, output } => {
            contains_ident(binders, name) || tys_mention_exec(inputs, name)
                || opt_mentions(output, name)
        },
        TypeExpr::Group(e) => mentions(&**e, name),
        TypeExpr::Paren(e) => mentions(&**e, name),
        TypeExpr::Path { qself, segments } => {
            match qself {
                Some(q) => mentions(&**q, name) || segs_mention_exec(segments, name),
                None => {
                    let lead = if segments.len() > 0 {
                        segments[0].ident.eq_ident(name)
                    } else {
                        false
                    };
                    lead || segs_mention_exec(segments, name)
                },
            }
        },
        TypeExpr::RawPtr(e) => mentions(&**e, name),
        TypeExpr::Ref { lifetime, elem } => {
            let lt = match lifetime {
                Some(l) => l.eq_ident(name),
                None => false,
            };
            lt || mentions(&**elem, name)
        },
        TypeExpr::Slice(e) => mentions(&**e, name),
        TypeExpr::Opaque => false,
    };
    assert(r == ty_mentions(*t, name@)) by { reveal_with_fuel(ty_mentions, 2); }
    r
}

/// Tests whether some element of the list mentions the identifier.
pub fn tys_mention_exec(ts: &Vec<TypeExpr>, name: &Ident) -> (r: bool)
    ensures
        r == tys_mention(ts@, name@),
    decreases ts@,
{
    let mut i: usize = 0;
    while i < ts.len()
        invariant
            i <= ts@.len(),
            forall|j: int| 0 <= j < i ==> !ty_mentions(#[trigger] ts@[j], name@),
        decreases ts@.len() - i,
    {
        if mentions(&ts[i], name) {
            assert(tys_mention(ts@, name@));
            return true;
        }
        i = i + 1;
    }
    assert(!tys_mention(ts@, name@));
    false
}

/// Tests whether the optional type is present and mentions the identifier.
pub fn opt_mentions(o: &Option<Box<TypeExpr>>, name: &Ident) -> (r: bool)
    ensures
        r == opt_ty_mentions(*o, name@),
    decreases *o,
{
    match o {
        Some(t) => mentions(&**t, name),
        None => false,
    }
}

/// Tests whether some segment's arguments mention the identifier.
pub fn segs_mention_exec(ss: &Vec<PathSeg>, name: &Ident) -> (r: bool)
    ensures
        r == segs_mention(ss@, name@),
    decreases ss@,
{
    let mut i: usize = 0;
    while i < ss.len()
        invariant
            i <= ss@.len(),
            forall|j: int| 0 <= j < i ==> !args_mention((#[trigger] ss@[j]).args, name@),
        decreases ss@.len() - i,
    {
        if args_mention_exec(&ss[i].args, name) {
            assert(segs_mention(ss@, name@));
            return true;
        }
        i = i + 1;
    }
    assert(!segs_mention(ss@, name@));
    false
}

/// Tests whether a segment's argument list mentions the identifier.
pub fn args_mention_exec(a: &PathArgs, name: &Ident) -> (r: bool)
    ensures
        r == args_mention(*a, name@),
    decreases *a,
{
    let r = match a {
        PathArgs::Bare => false,
        PathArgs::Angle(xs) => gargs_mention_exec(xs, name),
        PathArgs::Parens { inputs, output } => {
            tys_mention_exec(inputs, name) || opt_mentions(output, name)
        },
    };
    assert(r == args_mention(*a, name@)) by { reveal_with_fuel(args_mention, 2); }
    r
}

/// Tests whether some generic argument mentions the identifier.
pub fn gargs_mention_exec(xs: &Vec<GenArg>, name: &Ident) -> (r: bool)
    ensures
        r == gargs_mention(xs@, name@),
    decreases xs@,
{
    let mut i: usize = 0;
    while i < xs.len()
        invariant
            i <= xs@.len(),
            forall|j: int| 0 <= j < i ==> !garg_mentions(#[trigger] xs@[j], name@),
        decreases xs@.len() - i,
    {
        if garg_mentions_exec(&xs[i], name) {
            assert(gargs_mention(xs@, name@));
            return true;
        }
        i = i + 1;
    }
    assert(!gargs_mention(xs@, name@));
    false
}

/// Tests whether one generic argument mentions the identifier.
pub fn garg_mentions_exec(x: &GenArg, name: &Ident) -> (r: bool)
    ensures
        r == garg_mentions(*x, name@),
    decreases *x,
{
    let r = match x {
        GenArg::Lifetime(l) => l.eq_ident(name),
        GenArg::Ty(t) => mentions(t, name),
        GenArg::Opaque => false,
    };
    assert(r == garg_mentions(*x, name@)) by { reveal_with_fuel(garg_mentions, 2); }
    r
}

/// True when the reserved self marker occurs anywhere in a scanner
/// position of the type expression: the field is self-referential and
/// conversions must recurse into it.
pub open spec fn ty_has_self(t: TypeExpr) -> bool
    decreases t,
{
    match t {
        TypeExpr::SelfMarker => true,
        TypeExpr::Array(e) => ty_has_self(*e),
        TypeExpr::BareFn { binders, inputs, output } => {
            tys_have_self(inputs@) || opt_ty_has_self(output)
        },
        TypeExpr::Group(e) => ty_has_self(*e),
        TypeExpr::Paren(e) => ty_has_self(*e),
        TypeExpr::Path { qself, segments } => {
            match qself {
                Some(q) => ty_has_self(*q) || segs_have_self(segments@),
                None => segs_have_self(segments@),
            }
        },
        TypeExpr::RawPtr(e) => ty_has_self(*e),
        TypeExpr::Ref { lifetime, elem } => ty_has_self(*elem),
        TypeExpr::Slice(e) => ty_has_self(*e),
        TypeExpr::Opaque => false,
    }
}

/// True when some element of `ts` contains the self marker.
pub open spec fn tys_have_self(ts: Seq<TypeExpr>) -> bool
    decreases ts,
{
    exists|i: int| 0 <= i < ts.len() && ty_has_self(#[trigger] ts[i])
}

/// True when the optional type is present and contains the self marker.
pub open spec fn opt_ty_has_self(o: Option<Box<TypeExpr>>) -> bool
    decreases o,
{
    match o {
        Some(t) => ty_has_self(*t),
        None => false,
    }
}

/// True when some segment of `ss` contains the self marker in its
/// arguments.
pub open spec fn segs_have_self(ss: Seq<PathSeg>) -> bool
    decreases ss,
{
    exists|i: int| 0 <= i < ss.len() && args_have_self((#[trigger] ss[i]).args)
}

/// True when a segment's argument list contains the self marker.
pub open spec fn args_have_self(a: PathArgs) -> bool
    decreases a,
{
    match a {
        PathArgs::Bare => false,
        PathArgs::Angle(xs) => gargs_have_self(xs@),
        PathArgs::Parens { inputs, output } => {
            tys_have_self(inputs@) || opt_ty_has_self(output)
        },
    }
}

/// True when some generic argument of `xs` contains the self marker.
pub open spec fn gargs_have_self(xs: Seq<GenArg>) -> bool
    decreases xs,
{
    exists|i: int| 0 <= i < xs.len() && garg_has_self(#[trigger] xs[i])
}

/// True when one generic argument contains the self marker.
pub open spec fn garg_has_self(x: GenArg) -> bool
    decreases x,
{
    match x {
        GenArg::Lifetime(l) => false,
        GenArg::Ty(t) => ty_has_self(t),
        GenArg::Opaque => false,
    }
}

/// Tests whether the type expression contains the reserved self marker.
pub fn has_self_marker(t: &TypeExpr) -> (r: bool)
    ensures
        r == ty_has_self(*t),
    decreases *t,
{
    let r = match t {
        TypeExpr::SelfMarker => true,
        TypeExpr::Array(e) => has_self_marker(&**e),
        TypeExpr::BareFn { binders, inputs, output } => {
            tys_have_self_exec(inputs) || opt_has_self(output)
        },
        TypeExpr::Group(e) => has_self_marker(&**e),
        TypeExpr::Paren(e) => has_self_marker(&**e),
        TypeExpr::Path { qself, segments } => {
            match qself {
                Some(q) => has_self_marker(&**q) || segs_have_self_exec(segments),
                None => segs_have_self_exec(segments),
            }
        },
        TypeExpr::RawPtr(e) => has_self_marker(&**e),
        TypeExpr::Ref { lifetime, elem } => has_self_marker(&**elem),
        TypeExpr::Slice(e) => has_self_marker(&**e),
        TypeExpr::Opaque => false,
    };
    assert(r == ty_has_self(*t)) by { reveal_with_fuel(ty_has_self, 2); }
    r
}

/// Tests whether some element of the list contains the self marker.
pub fn tys_have_self_exec(ts: &Vec<TypeExpr>) -> (r: bool)
    ensures
        r == tys_have_self(ts@),
    decreases ts@,
{
    let mut i: usize = 0;
    while i < ts.len()
        invariant
            i <= ts@.len(),
            forall|j: int| 0 <= j < i ==> !ty_has_self(#[trigger] ts@[j]),
        decreases ts@.len() - i,
    {
        if has_self_marker(&ts[i]) {
            assert(tys_have_self(ts@));
            return true;
        }
        i = i + 1;
    }
    assert(!tys_have_self(ts@));
    false
}

/// Tests whether the optional type is present and contains the self
/// marker.
pub fn opt_has_self(o: &Option<Box<TypeExpr>>) -> (r: bool)
    ensures
        r == opt_ty_has_self(*o),
    decreases *o,
{
    match o {
        Some(t) => has_self_marker(&**t),
        None => false,
    }
}

/// Tests whether some segment's arguments contain the self marker.
pub fn segs_have_self_exec(ss: &Vec<PathSeg>) -> (r: bool)
    ensures
        r == segs_have_self(ss@),
    decreases ss@,
{
    let mut i: usize = 0;
    while i < ss.len()
        invariant
            i <= ss@.len(),
            forall|j: int| 0 <= j < i ==> !args_have_self((#[trigger] ss@[j]).args),
        decreases ss@.len() - i,
    {
        if args_have_self_exec(&ss[i].args) {
            assert(segs_have_self(ss@));
            return true;
        }
        i = i + 1;
    }
    assert(!segs_have_self(ss@));
    false
}

/// Tests whether a segment's argument list contains the self marker.
pub fn args_have_self_exec(a: &PathArgs) -> (r: bool)
    ensures
        r == args_have_self(*a),
    decreases *a,
{
    let r = match a {
        PathArgs::Bare => false,
        PathArgs::Angle(xs) => gargs_have_self_exec(xs),
        PathArgs::Parens { inputs, output } => {
            tys_have_self_exec(inputs) || opt_has_self(output)
        },
    };
    assert(r == args_have_self(*a)) by { reveal_with_fuel(args_have_self, 2); }
    r
}

/// Tests whether some generic argument contains the self marker.
pub fn gargs_have_self_exec(xs: &Vec<GenArg>) -> (r: bool)
    ensures
        r == gargs_have_self(xs@),
    decreases xs@,
{
    let mut i: usize = 0;
    while i < xs.len()
        invariant
            i <= xs@.len(),
            forall|j: int| 0 <= j < i ==> !garg_has_self(#[trigger] xs@[j]),
        decreases xs@.len() - i,
    {
        if garg_has_self_exec(&xs[i]) {
            assert(gargs_have_self(xs@));
            return true;
        }
        i = i + 1;
    }
    assert(!gargs_have_self(xs@));
    false
}

/// Tests whether one generic argument contains the self marker.
pub fn garg_has_self_exec(x: &GenArg) -> (r: bool)
    ensures
        r == garg_has_self(*x),
    decreases *x,
{
    let r = match x {
        GenArg::Lifetime(_) => false,
        GenArg::Ty(t) => has_self_marker(t),
        GenArg::Opaque => false,
    };
    assert(r == garg_has_self(*x)) by { reveal_with_fuel(garg_has_self, 2); }
    r
}

} // verus!
