use vstd::prelude::*;

use crate::model::{copy_pat, copy_type, Error, Param, Pat, TypeExpr};

verus! {

/// How a boundary entry point passes one argument inward.
pub enum CallArg {
    /// `name`, passed as it was received.
    Value(String),
    /// `&name`
    Shared(String),
    /// `&mut name`
    Exclusive(String),
}

/// The identifiers bound by the identifier patterns among `ps`, in order.
pub open spec fn idents_of(ps: Seq<Param>) -> Seq<String>
    decreases ps.len(),
{
    if ps.len() == 0 {
        Seq::empty()
    } else {
        let rest = idents_of(ps.drop_last());
        match ps.last().pat {
            Pat::Ident(name) => rest.push(name),
            Pat::Other(_) => rest,
        }
    }
}

/// Whether every parameter is bound to a plain identifier.
pub open spec fn all_idents(ps: Seq<Param>) -> bool {
    forall|i: int| 0 <= i < ps.len() ==> (#[trigger] ps[i]).pat is Ident
}

/// The type a parameter of type `t` takes at the boundary: references become values.
pub open spec fn value_type(t: TypeExpr) -> TypeExpr {
    match t {
        TypeExpr::Ref(_, inner) => *inner,
        _ => t,
    }
}

/// The expression that forwards a boundary argument `name` to a parameter of type `t`.
pub open spec fn call_of(t: TypeExpr, name: String) -> CallArg {
    match t {
        TypeExpr::Ref(false, _) => CallArg::Shared(name),
        TypeExpr::Ref(true, _) => CallArg::Exclusive(name),
        _ => CallArg::Value(name),
    }
}

/// The name a parameter is bound to (meaningful for identifier patterns).
pub open spec fn bound_name(p: Pat) -> String {
    match p {
        Pat::Ident(name) => name,
        Pat::Other(text) => text,
    }
}

/// The parameters of a boundary entry point for a method with parameters `ps`.
pub open spec fn boundary_params(ps: Seq<Param>) -> Seq<Param> {
    Seq::new(ps.len(), |i: int| Param { pat: ps[i].pat, ty: value_type(ps[i].ty) })
}

/// The arguments a boundary entry point passes inward for parameters `ps`.
pub open spec fn boundary_calls(ps: Seq<Param>) -> Seq<CallArg> {
    Seq::new(ps.len(), |i: int| call_of(ps[i].ty, bound_name(ps[i].pat)))
}

/// What adapting the parameters `ps` to the boundary yields: the value-typed
/// parameters and the call arguments, or the first pattern that cannot be forwarded.
pub open spec fn adapt_spec(ps: Seq<Param>) -> Result<(Seq<Param>, Seq<CallArg>), Error> {
    if all_idents(ps) {
        Ok((boundary_params(ps), boundary_calls(ps)))
    } else {
        let i = choose|i: int|
            0 <= i < ps.len() && ps[i].pat is Other && forall|j: int|
                0 <= j < i ==> (#[trigger] ps[j]).pat is Ident;
        Err(Error::UnsupportedPattern(bound_name(ps[i].pat)))
    }
}

/// The identifiers that a forwarding call passes on: those of the parameters
/// bound to plain identifiers, in order. Other patterns take no part.
pub fn args_to_idents(inputs: &Vec<Param>) -> (r: Vec<String>)
    ensures
        r@ == idents_of(inputs@),
{
    let mut r: Vec<String> = Vec::new();
    let mut i: usize = 0;
    while i < inputs.len()
        invariant
            i <= inputs@.len(),
            r@ == idents_of(inputs@.subrange(0, i as int)),
        decreases inputs@.len() - i,
    {
        assert(inputs@.subrange(0, i + 1).drop_last() =~= inputs@.subrange(0, i as int));
        match &inputs[i].pat {
            Pat::Ident(name) => r.push(name.clone()),
            Pat::Other(_) => {},
        }
        i = i + 1;
    }
    assert(inputs@.subrange(0, inputs@.len() as int) =~= inputs@);
    r
}

/// Adapts one parameter to the boundary: a reference `&U` or `&mut U` is taken
/// as `U` by value and passed on as `&name` or `&mut name`; any other type is
/// kept and passed on as `name`.
pub fn transform_type_and_call(ty: &TypeExpr, arg_name: &String) -> (r: (TypeExpr, CallArg))
    ensures
        r.0 == value_type(*ty),
        r.1 == call_of(*ty, *arg_name),
{
    match ty {
        TypeExpr::Ref(mutable, inner) => {
            let call = if *mutable {
                CallArg::Exclusive(arg_name.clone())
            } else {
                CallArg::Shared(arg_name.clone())
            };
            (copy_type(inner), call)
        },
        _ => (copy_type(ty), CallArg::Value(arg_name.clone())),
    }
}

/// Adapts a method's parameters to the boundary, failing on the first
/// parameter whose pattern is not a plain identifier.
pub fn adapt_params(ps: &Vec<Param>) -> (r: Result<(Vec<Param>, Vec<CallArg>), Error>)
    ensures
        match r {
            Ok((params, calls)) => adapt_spec(ps@) == Ok::<_, Error>((params@, calls@)),
            Err(e) => adapt_spec(ps@) == Err::<(Seq<Param>, Seq<CallArg>), _>(e),
        },
{
    let mut params: Vec<Param> = Vec::new();
    let mut calls: Vec<CallArg> = Vec::new();
    let mut i: usize = 0;
    while i < ps.len()
        invariant
            i <= ps@.len(),
            all_idents(ps@.subrange(0, i as int)),
            params@ == boundary_params(ps@.subrange(0, i as int)),
            calls@ == boundary_calls(ps@.subrange(0, i as int)),
        decreases ps@.len() - i,
    {
        let p = &ps[i];
        match &p.pat {
            Pat::Ident(name) => {
                let (ty, call) = transform_type_and_call(&p.ty, name);
                params.push(Param { pat: copy_pat(&p.pat), ty });
                calls.push(call);
            },
            Pat::Other(text) => {
                assert(forall|j: int| 0 <= j < i ==> (#[trigger] ps@[j]).pat is Ident) by {
                    assert forall|j: int| 0 <= j < i implies (#[trigger] ps@[j]).pat is Ident by {
                        assert(ps@.subrange(0, i as int)[j] == ps@[j]);
                    }
                }
                assert(!all_idents(ps@));
                proof {
                    let k = choose|k: int|
                        0 <= k < ps@.len() && ps@[k].pat is Other && forall|j: int|
                            0 <= j < k ==> (#[trigger] ps@[j]).pat is Ident;
                    if k < i {
                        assert(ps@[k].pat is Ident);
                    } else if k > i {
                        assert(ps@[i as int].pat is Ident);
                    }
                    assert(k == i);
                }
                return Err(Error::UnsupportedPattern(text.clone()));
            },
        }
        i = i + 1;
        assert(params@ =~= boundary_params(ps@.subrange(0, i as int)));
        assert(calls@ =~= boundary_calls(ps@.subrange(0, i as int)));
        assert(all_idents(ps@.subrange(0, i as int))) by {
            assert forall|j: int| 0 <= j < i implies (#[trigger] ps@.subrange(
                0,
                i as int,
            )[j]).pat is Ident by {
                if j < i - 1 {
                    assert(ps@.subrange(0, i as int)[j] == ps@.subrange(0, i - 1)[j]);
                }
            }
        }
    }
    assert(ps@.subrange(0, ps@.len() as int) =~= ps@);
    Ok((params, calls))
}

/// The boundary adapter is transparent except on references: a parameter of
/// type `&U` or `&mut U` becomes a `U` taken by value and is passed on as
/// `&name` or `&mut name`; any other parameter keeps its declaration and is
/// passed on as its name.
pub proof fn lemma_adapter_transparency(ps: Seq<Param>)
    requires
        all_idents(ps),
    ensures
        adapt_spec(ps) == Ok::<(Seq<Param>, Seq<CallArg>), Error>(
            (boundary_params(ps), boundary_calls(ps)),
        ),
        boundary_params(ps).len() == ps.len(),
        boundary_calls(ps).len() == ps.len(),
        forall|i: int|
            0 <= i < ps.len() ==> match (#[trigger] ps[i]).ty {
                TypeExpr::Ref(false, u) => boundary_params(ps)[i] == Param { pat: ps[i].pat, ty: *u }
                    && boundary_calls(ps)[i] == CallArg::Shared(ps[i].pat->Ident_0),
                TypeExpr::Ref(true, u) => boundary_params(ps)[i] == Param { pat: ps[i].pat, ty: *u }
                    && boundary_calls(ps)[i] == CallArg::Exclusive(ps[i].pat->Ident_0),
                _ => boundary_params(ps)[i] == ps[i] && boundary_calls(ps)[i] == CallArg::Value(
                    ps[i].pat->Ident_0,
                ),
            },
{
}

} // verus!
