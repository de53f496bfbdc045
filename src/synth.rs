use vstd::prelude::*;
use vstd::string::StringExecFns;

use crate::model::{
    copy_attrs, copy_opt_type, copy_params, Attribute, ConfigIssue, Error, Expected,
    InterfaceSpec, Item, MethodSpec, Param, TypeExpr,
};
use crate::signature::{
    adapt_params, adapt_spec, args_to_idents, boundary_calls, boundary_params, idents_of, CallArg,
};

verus! {

/// The configuration an interface is annotated with.
pub struct MyTraitMacroArgs {
    /// The default backing implementation, by name.
    pub default: Option<String>,
    /// Whether the interface may only be reached through a decorator.
    pub ext_required: bool,
    /// Whether the interface also declares its decorator type `<Name>Ext<T, N>`.
    pub is_ext: bool,
}

/// A method of the augmented interface, whose body forwards to the backing
/// implementation: `Self::Impl::name(call_args...)`.
pub struct ForwardingMethod {
    pub attrs: Vec<Attribute>,
    pub name: String,
    /// The parameters, as declared.
    pub params: Vec<Param>,
    pub ret: Option<TypeExpr>,
    pub call_args: Vec<String>,
}

/// The augmented interface: the declared one, with a backing-implementation slot
/// `type Impl: <slot_bound>;` as its first member and every method forwarding to it.
pub struct AugmentedInterface {
    pub attrs: Vec<Attribute>,
    pub name: String,
    pub slot_bound: String,
    pub methods: Vec<ForwardingMethod>,
}

/// A public boundary entry point on a target type, whose body calls
/// `<Target as Interface>::name(call_args...)`.
pub struct EntryPoint {
    pub attrs: Vec<Attribute>,
    pub name: String,
    /// The parameters, with references taken by value.
    pub params: Vec<Param>,
    pub ret: Option<TypeExpr>,
    pub call_args: Vec<CallArg>,
}

/// The generator of an interface: what it needs to bind a target to an
/// implementation and to emit the target's entry points.
pub struct Generator {
    /// The interface's name, which is also the generator's.
    pub name: String,
    /// The interface's documentation attributes.
    pub docs: Vec<Attribute>,
    pub default: Option<String>,
    pub ext_required: bool,
    /// The entry points, for a target yet to be named.
    pub entry_points: Vec<EntryPoint>,
}

/// Everything generated from one interface.
pub struct Generated {
    pub interface: AugmentedInterface,
    /// The name of the decorator type, for an interface that declares one.
    pub extension: Option<String>,
    pub generator: Generator,
}

/// Generated code, or the diagnostic that stands in its place.
pub enum Output<T> {
    Code(T),
    Diagnostic(String),
}

/// Whether `f` is the forwarding method for `m`.
pub open spec fn forwards(f: ForwardingMethod, m: MethodSpec) -> bool {
    &&& f.attrs@ == m.attrs@
    &&& f.name == m.name
    &&& f.params@ == m.params@
    &&& f.ret == m.ret
    &&& f.call_args@ == idents_of(m.params@)
}

/// Whether `e` is the boundary entry point for `m`.
pub open spec fn entry_of(e: EntryPoint, m: MethodSpec) -> bool {
    &&& e.attrs@ == m.attrs@
    &&& e.name == m.name
    &&& e.params@ == boundary_params(m.params@)
    &&& e.ret == m.ret
    &&& e.call_args@ == boundary_calls(m.params@)
}

/// The methods that take part in delegation: those without a receiver, in order.
pub open spec fn delegated(ms: Seq<MethodSpec>) -> Seq<MethodSpec>
    decreases ms.len(),
{
    if ms.len() == 0 {
        Seq::empty()
    } else if ms.last().has_receiver {
        delegated(ms.drop_last())
    } else {
        delegated(ms.drop_last()).push(ms.last())
    }
}

/// The methods that get a boundary entry point: delegated and not internal, in order.
pub open spec fn exposed(ms: Seq<MethodSpec>) -> Seq<MethodSpec>
    decreases ms.len(),
{
    if ms.len() == 0 {
        Seq::empty()
    } else if ms.last().has_receiver || ms.last().is_internal {
        exposed(ms.drop_last())
    } else {
        exposed(ms.drop_last()).push(ms.last())
    }
}

/// The first error met while generating entry points for `ms`, in order.
pub open spec fn methods_error(ms: Seq<MethodSpec>) -> Option<Error>
    decreases ms.len(),
{
    if ms.len() == 0 {
        None
    } else {
        match methods_error(ms.drop_last()) {
            Some(e) => Some(e),
            None => if ms.last().has_receiver || ms.last().is_internal {
                None
            } else {
                match adapt_spec(ms.last().params@) {
                    Ok(_) => None,
                    Err(e) => Some(e),
                }
            },
        }
    }
}

/// The documentation attributes among `attrs`, in order.
pub open spec fn docs_of(attrs: Seq<Attribute>) -> Seq<Attribute>
    decreases attrs.len(),
{
    if attrs.len() == 0 {
        Seq::empty()
    } else if attrs.last().is_doc {
        docs_of(attrs.drop_last()).push(attrs.last())
    } else {
        docs_of(attrs.drop_last())
    }
}

/// The name of the decorator type that an interface named `name` declares.
pub open spec fn extension_name(name: Seq<char>) -> Seq<char> {
    name + "Ext"@
}

/// Whether `g` is what generation produces from `spec` under `args`.
pub open spec fn generated_from(g: Generated, args: MyTraitMacroArgs, spec: InterfaceSpec) -> bool {
    let fs = g.interface.methods@;
    let es = g.generator.entry_points@;
    &&& g.interface.attrs@ == spec.attrs@
    &&& g.interface.name == spec.name
    &&& g.interface.slot_bound == spec.name
    &&& fs.len() == delegated(spec.methods@).len()
    &&& forall|i: int| 0 <= i < fs.len() ==> forwards(#[trigger] fs[i], delegated(spec.methods@)[i])
    &&& (args.is_ext ==> g.extension is Some && g.extension->Some_0@ == extension_name(spec.name@))
    &&& (!args.is_ext ==> g.extension is None)
    &&& g.generator.name == spec.name
    &&& g.generator.docs@ == docs_of(spec.attrs@)
    &&& g.generator.default == args.default
    &&& g.generator.ext_required == args.ext_required
    &&& es.len() == exposed(spec.methods@).len()
    &&& forall|i: int| 0 <= i < es.len() ==> entry_of(#[trigger] es[i], exposed(spec.methods@)[i])
}

/// The error with which generation from `item` fails, if any.
pub open spec fn generate_error(item: Item) -> Option<Error> {
    match item {
        Item::Trait(spec) => methods_error(spec.methods@),
        _ => Some(Error::Malformed(Expected::Trait)),
    }
}

/// Builds the forwarding method of `m`.
fn generate_trait_method(m: &MethodSpec) -> (r: ForwardingMethod)
    ensures
        forwards(r, *m),
{
    ForwardingMethod {
        attrs: copy_attrs(&m.attrs),
        name: m.name.clone(),
        params: copy_params(&m.params),
        ret: copy_opt_type(&m.ret),
        call_args: args_to_idents(&m.params),
    }
}

/// Builds the boundary entry point of `m`.
fn generate_static_method(m: &MethodSpec) -> (r: Result<EntryPoint, Error>)
    ensures
        match r {
            Ok(e) => adapt_spec(m.params@) is Ok && entry_of(e, *m),
            Err(e) => adapt_spec(m.params@) == Err::<(Seq<Param>, Seq<CallArg>), _>(e),
        },
{
    let (params, call_args) = match adapt_params(&m.params) {
        Ok(pc) => pc,
        Err(e) => return Err(e),
    };
    Ok(
        EntryPoint {
            attrs: copy_attrs(&m.attrs),
            name: m.name.clone(),
            params,
            ret: copy_opt_type(&m.ret),
            call_args,
        },
    )
}

/// Builds what one method contributes: nothing for a method with a receiver;
/// else its forwarding method, and its entry point unless it is internal.
fn generate_method(m: &MethodSpec) -> (r: Result<Option<(Option<EntryPoint>, ForwardingMethod)>, Error>)
    ensures
        m.has_receiver ==> r == Ok::<Option<(Option<EntryPoint>, ForwardingMethod)>, Error>(None),
        !m.has_receiver && m.is_internal ==> r is Ok && r->Ok_0 is Some && r->Ok_0->Some_0.0 is None
            && forwards(r->Ok_0->Some_0.1, *m),
        !m.has_receiver && !m.is_internal ==> match adapt_spec(m.params@) {
            Ok(_) => r is Ok && r->Ok_0 is Some && r->Ok_0->Some_0.0 is Some && entry_of(
                r->Ok_0->Some_0.0->Some_0,
                *m,
            ) && forwards(r->Ok_0->Some_0.1, *m),
            Err(e) => r == Err::<Option<(Option<EntryPoint>, ForwardingMethod)>, Error>(e),
        },
{
    if m.has_receiver {
        return Ok(None);
    }
    let entry = if m.is_internal {
        None
    } else {
        match generate_static_method(m) {
            Ok(e) => Some(e),
            Err(e) => return Err(e),
        }
    };
    Ok(Some((entry, generate_trait_method(m))))
}

/// The documentation attributes among `attrs`, copied in order.
fn doc_attrs(attrs: &Vec<Attribute>) -> (r: Vec<Attribute>)
    ensures
        r@ == docs_of(attrs@),
{
    let mut r: Vec<Attribute> = Vec::new();
    let mut i: usize = 0;
    while i < attrs.len()
        invariant
            i <= attrs@.len(),
            r@ == docs_of(attrs@.subrange(0, i as int)),
        decreases attrs@.len() - i,
    {
        assert(attrs@.subrange(0, i + 1).drop_last() =~= attrs@.subrange(0, i as int));
        if attrs[i].is_doc {
            r.push(Attribute { is_doc: true, text: attrs[i].text.clone() });
        }
        i = i + 1;
    }
    assert(attrs@.subrange(0, attrs@.len() as int) =~= attrs@);
    r
}

/// Generates the augmented interface, the decorator type if one is declared,
/// and the generator, from an interface declaration.
pub fn inner_generate(args: &MyTraitMacroArgs, item: &Item) -> (r: Result<Generated, Error>)
    ensures
        match generate_error(*item) {
            None => r is Ok && generated_from(r->Ok_0, *args, item->Trait_0),
            Some(e) => r == Err::<Generated, Error>(e),
        },
{
    let spec = match item {
        Item::Trait(spec) => spec,
        _ => return Err(Error::Malformed(Expected::Trait)),
    };
    assert(*item == Item::Trait(*spec));
    let ghost ms = spec.methods@;
    let mut fs: Vec<ForwardingMethod> = Vec::new();
    let mut es: Vec<EntryPoint> = Vec::new();
    let mut i: usize = 0;
    while i < spec.methods.len()
        invariant
            *item == Item::Trait(*spec),
            ms == spec.methods@,
            i <= ms.len(),
            methods_error(ms.subrange(0, i as int)) is None,
            fs@.len() == delegated(ms.subrange(0, i as int)).len(),
            forall|j: int|
                0 <= j < fs@.len() ==> forwards(#[trigger] fs@[j], delegated(ms.subrange(0, i as int))[j]),
            es@.len() == exposed(ms.subrange(0, i as int)).len(),
            forall|j: int|
                0 <= j < es@.len() ==> entry_of(#[trigger] es@[j], exposed(ms.subrange(0, i as int))[j]),
        decreases ms.len() - i,
    {
        let ghost prefix = ms.subrange(0, i + 1);
        assert(prefix.drop_last() =~= ms.subrange(0, i as int));
        assert(prefix.last() == ms[i as int]);
        match generate_method(&spec.methods[i]) {
            Err(e) => {
                assert(methods_error(prefix) == Some(e));
                proof {
                    lemma_methods_error_sticks(ms, i + 1, ms.len() as int, e);
                    assert(ms.subrange(0, ms.len() as int) =~= ms);
                }
                return Err(e);
            },
            Ok(None) => {},
            Ok(Some((entry, fwd))) => {
                fs.push(fwd);
                match entry {
                    Some(ep) => es.push(ep),
                    None => {},
                }
            },
        }
        i = i + 1;
    }
    assert(ms.subrange(0, ms.len() as int) =~= ms);
    let extension = if args.is_ext {
        let mut n = spec.name.clone();
        n.append("Ext");
        Some(n)
    } else {
        None
    };
    let default = match &args.default {
        Some(d) => Some(d.clone()),
        None => None,
    };
    Ok(
        Generated {
            interface: AugmentedInterface {
                attrs: copy_attrs(&spec.attrs),
                name: spec.name.clone(),
                slot_bound: spec.name.clone(),
                methods: fs,
            },
            extension,
            generator: Generator {
                name: spec.name.clone(),
                docs: doc_attrs(&spec.attrs),
                default,
                ext_required: args.ext_required,
                entry_points: es,
            },
        },
    )
}

/// Once generation of a prefix has failed, every longer prefix fails with the same error.
proof fn lemma_methods_error_sticks(ms: Seq<MethodSpec>, a: int, b: int, e: Error)
    requires
        0 <= a <= b <= ms.len(),
        methods_error(ms.subrange(0, a)) == Some(e),
    ensures
        methods_error(ms.subrange(0, b)) == Some(e),
    decreases b - a,
{
    if a < b {
        lemma_methods_error_sticks(ms, a, b - 1, e);
        assert(ms.subrange(0, b).drop_last() =~= ms.subrange(0, b - 1));
    }
}

/// Generates from an interface declaration, or yields the diagnostic that
/// explains why nothing can be generated.
pub fn generate(args: &MyTraitMacroArgs, item: &Item) -> (r: Output<Generated>)
    ensures
        match generate_error(*item) {
            None => r is Code && generated_from(r->Code_0, *args, item->Trait_0),
            Some(e) => r is Diagnostic && r->Diagnostic_0@ == e.message_spec(),
        },
{
    match inner_generate(args, item) {
        Ok(g) => Output::Code(g),
        Err(e) => Output::Diagnostic(e.message()),
    }
}

/// Every method of `exposed(ms)` is a method of `ms` that is neither internal
/// nor takes a receiver.
proof fn lemma_exposed_from(ms: Seq<MethodSpec>)
    ensures
        forall|k: int|
            0 <= k < exposed(ms).len() ==> exists|i: int|
                0 <= i < ms.len() && ms[i] == #[trigger] exposed(ms)[k] && !ms[i].is_internal
                    && !ms[i].has_receiver,
    decreases ms.len(),
{
    if ms.len() > 0 {
        let rest = ms.drop_last();
        lemma_exposed_from(rest);
        assert forall|k: int| 0 <= k < exposed(ms).len() implies exists|i: int|
            0 <= i < ms.len() && ms[i] == #[trigger] exposed(ms)[k] && !ms[i].is_internal
                && !ms[i].has_receiver by {
            if k < exposed(rest).len() {
                let i = choose|i: int|
                    0 <= i < rest.len() && rest[i] == #[trigger] exposed(rest)[k]
                        && !rest[i].is_internal && !rest[i].has_receiver;
                assert(ms[i] == rest[i]);
            } else {
                assert(ms[ms.len() - 1] == exposed(ms)[k]);
            }
        }
    }
}

/// Every method of `ms` without a receiver is among `delegated(ms)`.
proof fn lemma_delegated_covers(ms: Seq<MethodSpec>)
    ensures
        forall|i: int|
            0 <= i < ms.len() && !(#[trigger] ms[i]).has_receiver ==> exists|k: int|
                0 <= k < delegated(ms).len() && delegated(ms)[k] == ms[i],
    decreases ms.len(),
{
    if ms.len() > 0 {
        let rest = ms.drop_last();
        lemma_delegated_covers(rest);
        assert forall|i: int| 0 <= i < ms.len() && !(#[trigger] ms[i]).has_receiver implies exists|
            k: int,
        | 0 <= k < delegated(ms).len() && delegated(ms)[k] == ms[i] by {
            if i < ms.len() - 1 {
                assert(ms[i] == rest[i]);
                let k = choose|k: int|
                    0 <= k < delegated(rest).len() && delegated(rest)[k] == rest[i];
                assert(delegated(ms)[k] == ms[i]);
            } else {
                assert(delegated(ms)[delegated(ms).len() - 1] == ms[i]);
            }
        }
    }
}

/// Internal methods never become boundary entry points: each entry point is
/// that of a method that is not internal. Yet every method without a
/// receiver, internal or not, has its forwarding method in the augmented interface.
pub proof fn lemma_internal_methods(g: Generated, args: MyTraitMacroArgs, spec: InterfaceSpec)
    requires
        generated_from(g, args, spec),
    ensures
        forall|k: int|
            0 <= k < g.generator.entry_points@.len() ==> exists|i: int|
                0 <= i < spec.methods@.len() && !spec.methods@[i].is_internal && entry_of(
                    #[trigger] g.generator.entry_points@[k],
                    spec.methods@[i],
                ),
        forall|i: int|
            0 <= i < spec.methods@.len() && !(#[trigger] spec.methods@[i]).has_receiver ==> exists|
                k: int,
            |
                0 <= k < g.interface.methods@.len() && forwards(
                    g.interface.methods@[k],
                    spec.methods@[i],
                ),
{
    let ms = spec.methods@;
    lemma_exposed_from(ms);
    lemma_delegated_covers(ms);
    assert forall|k: int| 0 <= k < g.generator.entry_points@.len() implies exists|i: int|
        0 <= i < ms.len() && !ms[i].is_internal && entry_of(
            #[trigger] g.generator.entry_points@[k],
            ms[i],
        ) by {
        assert(entry_of(g.generator.entry_points@[k], exposed(ms)[k]));
        let i = choose|i: int|
            0 <= i < ms.len() && ms[i] == #[trigger] exposed(ms)[k] && !ms[i].is_internal
                && !ms[i].has_receiver;
    }
    assert forall|i: int| 0 <= i < ms.len() && !(#[trigger] ms[i]).has_receiver implies exists|
        k: int,
    | 0 <= k < g.interface.methods@.len() && forwards(g.interface.methods@[k], ms[i]) by {
        let k = choose|k: int| 0 <= k < delegated(ms).len() && delegated(ms)[k] == ms[i];
        assert(forwards(g.interface.methods@[k], delegated(ms)[k]));
    }
}

} // verus!
