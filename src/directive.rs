use vstd::prelude::*;

use crate::chain::{resolve, resolve_spec};
use crate::model::{Error, Expected, Item, TypeExpr};
use crate::synth::Output;

verus! {

/// How one interface is composed for a target: its decorators, outermost
/// first, and the implementation they wrap, if not the interface's default.
pub struct InnerArgs {
    pub exts: Vec<String>,
    pub default: Option<String>,
}

/// A composition directive's entries, in the order they were given.
pub struct MyMacroArgs {
    pub args: Vec<(String, InnerArgs)>,
}

/// One invocation of an interface's generator with a target and the
/// implementation expression to bind it to.
pub struct GeneratorInvocation {
    pub interface: String,
    pub target: String,
    pub implementation: TypeExpr,
}

/// What a directive expands to: the target type, re-emitted as it was
/// declared, followed by the generator invocations in order.
pub struct Derived {
    pub target: String,
    pub invocations: Vec<GeneratorInvocation>,
}

/// The implementation that the decorators of an entry wrap: its own default
/// if it has one, else the default of the interface's generator.
pub open spec fn base_spec(interface: String, inner: InnerArgs) -> TypeExpr {
    match inner.default {
        Some(d) => TypeExpr::Path(d),
        None => TypeExpr::DefaultOf(interface),
    }
}

/// Whether `g` is the invocation that the entry `(interface, inner)` of a
/// directive for `target` expands to.
pub open spec fn invocation_of(g: GeneratorInvocation, target: String, entry: (String, InnerArgs)) -> bool {
    &&& g.interface == entry.0
    &&& g.target == target
    &&& g.implementation == resolve_spec(entry.1.exts@, target, base_spec(entry.0, entry.1))
}

/// Whether `d` is what the directive `args` expands to for a target named `target`.
pub open spec fn derived_from(d: Derived, args: Seq<(String, InnerArgs)>, target: String) -> bool {
    &&& d.target == target
    &&& d.invocations@.len() == args.len()
    &&& forall|i: int|
        0 <= i < args.len() ==> invocation_of(#[trigger] d.invocations@[i], target, args[i])
}

impl MyMacroArgs {
    /// No interface is named twice.
    pub open spec fn wf(&self) -> bool {
        forall|i: int, j: int|
            0 <= i < j < self.args@.len() ==> (#[trigger] self.args@[i]).0@ != (#[trigger] self.args@[j]).0@
    }

    /// A directive with no entry.
    pub fn new() -> (r: MyMacroArgs)
        ensures
            r.args@.len() == 0,
            r.wf(),
    {
        MyMacroArgs { args: Vec::new() }
    }

    /// Adds an entry for `interface` after the others, unless the interface
    /// already has one; tells whether it was added.
    pub fn insert(&mut self, interface: String, inner: InnerArgs) -> (r: bool)
        requires
            old(self).wf(),
        ensures
            final(self).wf(),
            r == !(exists|i: int|
                0 <= i < old(self).args@.len() && (#[trigger] old(self).args@[i]).0@ == interface@),
            r ==> final(self).args@ == old(self).args@.push((interface, inner)),
            !r ==> final(self).args@ == old(self).args@,
    {
        let mut i: usize = 0;
        while i < self.args.len()
            invariant
                self.args@ == old(self).args@,
                self.wf(),
                i <= self.args@.len(),
                forall|k: int| 0 <= k < i ==> (#[trigger] self.args@[k]).0@ != interface@,
            decreases self.args@.len() - i,
        {
            if self.args[i].0 == interface {
                return false;
            }
            i = i + 1;
        }
        self.args.push((interface, inner));
        true
    }
}

/// Expands a composition directive attached to a data type: one generator
/// invocation per entry, in the directive's order, each binding the type to
/// its entry's decorators nested around its base.
pub fn derive_contract_inner(args: &MyMacroArgs, item: &Item) -> (r: Result<Derived, Error>)
    ensures
        match *item {
            Item::Struct(name) => r is Ok && derived_from(r->Ok_0, args.args@, name),
            _ => r == Err::<Derived, Error>(Error::Malformed(Expected::Struct)),
        },
{
    let target = match item {
        Item::Struct(name) => name,
        _ => return Err(Error::Malformed(Expected::Struct)),
    };
    let mut invocations: Vec<GeneratorInvocation> = Vec::new();
    let mut i: usize = 0;
    while i < args.args.len()
        invariant
            i <= args.args@.len(),
            invocations@.len() == i,
            forall|k: int|
                0 <= k < i ==> invocation_of(#[trigger] invocations@[k], *target, args.args@[k]),
        decreases args.args@.len() - i,
    {
        let (interface, inner) = &args.args[i];
        let base = match &inner.default {
            Some(d) => TypeExpr::Path(d.clone()),
            None => TypeExpr::DefaultOf(interface.clone()),
        };
        let implementation = resolve(&inner.exts, target, base);
        invocations.push(
            GeneratorInvocation { interface: interface.clone(), target: target.clone(), implementation },
        );
        i = i + 1;
    }
    Ok(Derived { target: target.clone(), invocations })
}

/// Expands a composition directive, or yields the diagnostic that explains
/// why it cannot be expanded.
pub fn derive_contract(args: &MyMacroArgs, item: &Item) -> (r: Output<Derived>)
    ensures
        match *item {
            Item::Struct(name) => r is Code && derived_from(r->Code_0, args.args@, name),
            _ => r is Diagnostic && r->Diagnostic_0@ == Error::Malformed(Expected::Struct).message_spec(),
        },
{
    match derive_contract_inner(args, item) {
        Ok(d) => Output::Code(d),
        Err(e) => Output::Diagnostic(e.message()),
    }
}

} // verus!
