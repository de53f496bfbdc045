use vstd::prelude::*;
use vstd::string::StringExecFns;

use crate::model::{copy_type, TypeExpr};

verus! {

/// The nesting of `chain` around `base` for `target`:
/// `chain[0]<target, chain[1]<target, ... chain[n-1]<target, base>>>`.
pub open spec fn resolve_spec(chain: Seq<String>, target: String, base: TypeExpr) -> TypeExpr
    decreases chain.len(),
{
    if chain.len() == 0 {
        base
    } else {
        TypeExpr::Decorated(
            chain[0],
            target,
            Box::new(resolve_spec(chain.drop_first(), target, base)),
        )
    }
}

/// The decorators of an implementation expression, outermost first.
pub open spec fn decorators_of(e: TypeExpr) -> Seq<String>
    decreases e,
{
    match e {
        TypeExpr::Decorated(d, _, next) => seq![d].add(decorators_of(*next)),
        _ => Seq::empty(),
    }
}

/// The implementation that the decorators of an expression finally wrap.
pub open spec fn innermost(e: TypeExpr) -> TypeExpr
    decreases e,
{
    match e {
        TypeExpr::Decorated(_, _, next) => innermost(*next),
        _ => e,
    }
}

/// Whether every decorator of an expression is applied to `target`.
pub open spec fn all_for(e: TypeExpr, target: String) -> bool
    decreases e,
{
    match e {
        TypeExpr::Decorated(_, t, next) => t == target && all_for(*next, target),
        _ => true,
    }
}

/// The source text of a type expression.
pub open spec fn render_spec(t: TypeExpr) -> Seq<char>
    decreases t,
{
    match t {
        TypeExpr::Path(p) => p@,
        TypeExpr::Ref(false, inner) => "&"@ + render_spec(*inner),
        TypeExpr::Ref(true, inner) => "&mut "@ + render_spec(*inner),
        TypeExpr::Decorated(d, target, next) => d@ + "<"@ + target@ + ", "@ + render_spec(*next)
            + ">"@,
        TypeExpr::DefaultOf(name) => name@ + "!()"@,
    }
}

/// Nests the decorators of `chain` around `base`, the first outermost; an
/// empty chain gives `base` itself.
pub fn resolve(chain: &Vec<String>, target: &String, base: TypeExpr) -> (r: TypeExpr)
    ensures
        r == resolve_spec(chain@, *target, base),
{
    let mut acc = base;
    let mut i: usize = chain.len();
    assert(chain@.subrange(i as int, chain@.len() as int).len() == 0);
    while i > 0
        invariant
            i <= chain@.len(),
            acc == resolve_spec(chain@.subrange(i as int, chain@.len() as int), *target, base),
        decreases i,
    {
        i = i - 1;
        let ghost rest = chain@.subrange(i as int, chain@.len() as int);
        assert(rest.drop_first() =~= chain@.subrange(i + 1, chain@.len() as int));
        acc = TypeExpr::Decorated(chain[i].clone(), target.clone(), Box::new(acc));
    }
    assert(chain@.subrange(0, chain@.len() as int) =~= chain@);
    acc
}

/// Writes the source text of `t` after what `out` holds.
fn render_into(t: &TypeExpr, out: &mut String)
    ensures
        final(out)@ == old(out)@ + render_spec(*t),
    decreases t,
{
    match t {
        TypeExpr::Path(p) => out.append(p.as_str()),
        TypeExpr::Ref(mutable, inner) => {
            if *mutable {
                out.append("&mut ");
            } else {
                out.append("&");
            }
            render_into(inner, out);
        },
        TypeExpr::Decorated(d, target, next) => {
            out.append(d.as_str());
            out.append("<");
            out.append(target.as_str());
            out.append(", ");
            render_into(next, out);
            out.append(">");
        },
        TypeExpr::DefaultOf(name) => {
            out.append(name.as_str());
            out.append("!()");
        },
    }
}

/// The source text of a type expression.
pub fn render_type(t: &TypeExpr) -> (r: String)
    ensures
        r@ == render_spec(*t),
{
    let mut out = String::new();
    render_into(t, &mut out);
    out
}

/// Resolving the empty chain gives the base unchanged, and resolving a
/// non-empty chain puts its first decorator outermost around the resolution
/// of the rest.
pub proof fn lemma_resolve_fold(chain: Seq<String>, target: String, base: TypeExpr)
    ensures
        chain.len() == 0 ==> resolve_spec(chain, target, base) == base,
        chain.len() > 0 ==> resolve_spec(chain, target, base) == TypeExpr::Decorated(
            chain[0],
            target,
            Box::new(resolve_spec(chain.drop_first(), target, base)),
        ),
{
}

/// Resolution keeps the order of the chain: around an undecorated base, the
/// decorators of the result are exactly the chain in order, each applied to
/// the target, and what they wrap is the base.
pub proof fn lemma_resolve_preserves_chain(chain: Seq<String>, target: String, base: TypeExpr)
    requires
        !base.has_decorator(),
    ensures
        decorators_of(resolve_spec(chain, target, base)) == chain,
        innermost(resolve_spec(chain, target, base)) == base,
        all_for(resolve_spec(chain, target, base), target),
    decreases chain.len(),
{
    if chain.len() > 0 {
        lemma_resolve_preserves_chain(chain.drop_first(), target, base);
        assert(seq![chain[0]].add(chain.drop_first()) =~= chain);
    }
}

} // verus!
