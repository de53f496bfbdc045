use vstd::prelude::*;

use crate::chain::resolve_spec;
use crate::model::{ConfigIssue, Error, TypeExpr};
use crate::synth::Generator;

verus! {

/// The ways a generator can be invoked.
pub enum InvocationShape {
    /// No argument at all: asks for the default implementation.
    Empty,
    /// A target type alone: binds it to the default implementation.
    TargetOnly(String),
    /// A target type and the implementation expression to bind it to.
    TargetWithImpl(String, TypeExpr),
}

/// A target type bound to a backing implementation of an interface; with the
/// generator's entry points it makes the target's implementation of the interface.
pub struct Binding {
    pub interface: String,
    pub target: String,
    pub implementation: TypeExpr,
}

/// What an invocation expands to.
pub enum Expansion {
    /// An implementation expression (the default implementation).
    Implementation(TypeExpr),
    /// A binding of a target.
    Bound(Binding),
}

impl Generator {
    /// Binding `target` to `implementation`: refused where the interface
    /// requires a decorator and the expression has none.
    pub open spec fn bind_spec(&self, target: String, implementation: TypeExpr) -> Result<Expansion, Error> {
        if self.ext_required && !implementation.has_decorator() {
            Err(Error::Configuration(ConfigIssue::ExtensionRequired(self.name)))
        } else {
            Ok(
                Expansion::Bound(
                    Binding { interface: self.name, target, implementation },
                ),
            )
        }
    }

    /// What an invocation of this generator in the given shape expands to.
    pub open spec fn invoke_spec(&self, shape: InvocationShape) -> Result<Expansion, Error> {
        match shape {
            InvocationShape::Empty => match self.default {
                Some(d) => Ok(Expansion::Implementation(TypeExpr::Path(d))),
                None => Err(Error::Configuration(ConfigIssue::NoDefault(self.name))),
            },
            InvocationShape::TargetOnly(target) => match self.default {
                Some(d) => self.bind_spec(target, TypeExpr::Path(d)),
                None => Err(Error::Configuration(ConfigIssue::NoDefault(self.name))),
            },
            InvocationShape::TargetWithImpl(target, implementation) => self.bind_spec(
                target,
                implementation,
            ),
        }
    }

    fn bind(&self, target: String, implementation: TypeExpr) -> (r: Result<Expansion, Error>)
        ensures
            r == self.bind_spec(target, implementation),
    {
        let decorated = match &implementation {
            TypeExpr::Decorated(_, _, _) => true,
            _ => false,
        };
        if self.ext_required && !decorated {
            Err(Error::Configuration(ConfigIssue::ExtensionRequired(self.name.clone())))
        } else {
            Ok(
                Expansion::Bound(
                    Binding { interface: self.name.clone(), target, implementation },
                ),
            )
        }
    }

    /// Expands an invocation of this generator.
    pub fn invoke(&self, shape: InvocationShape) -> (r: Result<Expansion, Error>)
        ensures
            r == self.invoke_spec(shape),
    {
        match shape {
            InvocationShape::Empty => match &self.default {
                Some(d) => Ok(Expansion::Implementation(TypeExpr::Path(d.clone()))),
                None => Err(Error::Configuration(ConfigIssue::NoDefault(self.name.clone()))),
            },
            InvocationShape::TargetOnly(target) => match &self.default {
                Some(d) => self.bind(target, TypeExpr::Path(d.clone())),
                None => Err(Error::Configuration(ConfigIssue::NoDefault(self.name.clone()))),
            },
            InvocationShape::TargetWithImpl(target, implementation) => self.bind(
                target,
                implementation,
            ),
        }
    }
}

/// Default resolution is idempotent: for a generator with a default `d`,
/// invoking it with a target alone is invoking it with `d` explicitly, and
/// invoking it with nothing yields `d`.
pub proof fn lemma_default_resolution(g: Generator, target: String)
    requires
        g.default is Some,
    ensures
        g.invoke_spec(InvocationShape::TargetOnly(target)) == g.invoke_spec(
            InvocationShape::TargetWithImpl(target, TypeExpr::Path(g.default->Some_0)),
        ),
        g.invoke_spec(InvocationShape::Empty) == Ok::<Expansion, Error>(
            Expansion::Implementation(TypeExpr::Path(g.default->Some_0)),
        ),
{
}

/// An interface that requires a decorator fails with a configuration error
/// when bound without one, whether the base comes from the caller or from
/// the default; putting one decorator `d` in front of the base succeeds.
pub proof fn lemma_extension_required(g: Generator, target: String, base: TypeExpr, d: String)
    requires
        g.ext_required,
        !base.has_decorator(),
    ensures
        g.invoke_spec(InvocationShape::TargetWithImpl(target, resolve_spec(Seq::empty(), target, base)))
            == Err::<Expansion, Error>(Error::Configuration(ConfigIssue::ExtensionRequired(g.name))),
        g.invoke_spec(InvocationShape::TargetOnly(target)) is Err,
        g.invoke_spec(InvocationShape::TargetOnly(target))->Err_0 is Configuration,
        g.invoke_spec(InvocationShape::TargetWithImpl(target, resolve_spec(seq![d], target, base)))
            is Ok,
{
    assert(resolve_spec(seq![d], target, base) == TypeExpr::Decorated(
        d,
        target,
        Box::new(resolve_spec(seq![d].drop_first(), target, base)),
    ));
}

} // verus!
