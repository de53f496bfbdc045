use vstd::prelude::*;
use vstd::string::StringExecFns;

verus! {

/// A type as it appears in a signature or as an implementation expression.
pub enum TypeExpr {
    /// A type written as a path, kept as its text (`Env`, `soroban_sdk::Address`).
    Path(String),
    /// A reference `&T` (`false`) or `&mut T` (`true`).
    Ref(bool, Box<TypeExpr>),
    /// A decorator applied to a target and to the implementation it wraps: `D<Target, Next>`.
    Decorated(String, String, Box<TypeExpr>),
    /// The default implementation that an interface's generator names: `I!()`.
    DefaultOf(String),
}

/// The binding pattern of a parameter.
pub enum Pat {
    /// A plain identifier binding.
    Ident(String),
    /// Any other pattern (a tuple, a struct, `_`), kept as its text.
    Other(String),
}

/// A typed parameter of a method.
pub struct Param {
    pub pat: Pat,
    pub ty: TypeExpr,
}

/// An attribute attached to an interface or a method.
pub struct Attribute {
    /// Whether this is a documentation attribute.
    pub is_doc: bool,
    /// Its content: the documentation text, or the attribute's tokens.
    pub text: String,
}

/// One method of an interface, by its signature.
pub struct MethodSpec {
    pub name: String,
    /// The typed parameters, in order; a receiver is not among them.
    pub params: Vec<Param>,
    /// The return type; `None` for `()`.
    pub ret: Option<TypeExpr>,
    /// Whether the method takes `self` in some form.
    pub has_receiver: bool,
    /// Whether the method is marked internal: it gets no boundary entry point.
    pub is_internal: bool,
    pub attrs: Vec<Attribute>,
}

/// An interface declaration: a named, ordered set of methods.
pub struct InterfaceSpec {
    pub name: String,
    pub methods: Vec<MethodSpec>,
    pub attrs: Vec<Attribute>,
}

/// What an annotation is attached to.
pub enum Item {
    Trait(InterfaceSpec),
    /// A data type, by its name.
    Struct(String),
    /// Anything else.
    Other,
}

/// The construct an annotation expected to be attached to.
pub enum Expected {
    Trait,
    Struct,
}

/// What a well-formed but incomplete configuration lacks, by interface name.
pub enum ConfigIssue {
    /// No default implementation was declared, and none was passed.
    NoDefault(String),
    /// The interface must be reached through a decorator, and none was given.
    ExtensionRequired(String),
}

/// The reasons for which generation refuses to produce code.
pub enum Error {
    /// The input is not the expected construct at all.
    Malformed(Expected),
    /// The input is well formed but incomplete.
    Configuration(ConfigIssue),
    /// A parameter pattern that cannot be forwarded, by its text.
    UnsupportedPattern(String),
}

impl Error {
    /// The diagnostic text of this error.
    pub open spec fn message_spec(&self) -> Seq<char> {
        match self {
            Error::Malformed(Expected::Trait) => "Input must be a trait"@,
            Error::Malformed(Expected::Struct) => "Input must be a struct"@,
            Error::Configuration(ConfigIssue::NoDefault(name)) => "The contract trait `"@ + name@
                + "` does not provide default implementation. One should be passed, e.g. default = MyDefaultImpl"@,
            Error::Configuration(ConfigIssue::ExtensionRequired(name)) => "The contract trait `"@
                + name@ + "` requires an extension for authentication but none were provided."@,
            Error::UnsupportedPattern(text) => "Unsupported parameter pattern `"@ + text@
                + "`: only plain identifiers can be forwarded"@,
        }
    }

    /// Renders the diagnostic text of this error.
    pub fn message(&self) -> (r: String)
        ensures
            r@ == self.message_spec(),
    {
        match self {
            Error::Malformed(Expected::Trait) => String::from_str("Input must be a trait"),
            Error::Malformed(Expected::Struct) => String::from_str("Input must be a struct"),
            Error::Configuration(ConfigIssue::NoDefault(name)) => {
                let mut m = String::from_str("The contract trait `");
                m.append(name.as_str());
                m.append(
                    "` does not provide default implementation. One should be passed, e.g. default = MyDefaultImpl",
                );
                m
            },
            Error::Configuration(ConfigIssue::ExtensionRequired(name)) => {
                let mut m = String::from_str("The contract trait `");
                m.append(name.as_str());
                m.append("` requires an extension for authentication but none were provided.");
                m
            },
            Error::UnsupportedPattern(text) => {
                let mut m = String::from_str("Unsupported parameter pattern `");
                m.append(text.as_str());
                m.append("`: only plain identifiers can be forwarded");
                m
            },
        }
    }
}

impl TypeExpr {
    /// Whether an implementation expression places at least one decorator in front.
    pub open spec fn has_decorator(&self) -> bool {
        self is Decorated
    }
}

/// Copies a type expression.
pub fn copy_type(t: &TypeExpr) -> (r: TypeExpr)
    ensures
        r == *t,
    decreases t,
{
    match t {
        TypeExpr::Path(p) => TypeExpr::Path(p.clone()),
        TypeExpr::Ref(m, inner) => TypeExpr::Ref(*m, Box::new(copy_type(inner))),
        TypeExpr::Decorated(d, target, next) => TypeExpr::Decorated(
            d.clone(),
            target.clone(),
            Box::new(copy_type(next)),
        ),
        TypeExpr::DefaultOf(i) => TypeExpr::DefaultOf(i.clone()),
    }
}

/// Copies an optional type expression.
pub fn copy_opt_type(t: &Option<TypeExpr>) -> (r: Option<TypeExpr>)
    ensures
        r == *t,
{
    match t {
        Some(ty) => Some(copy_type(ty)),
        None => None,
    }
}

/// Copies a pattern.
pub fn copy_pat(p: &Pat) -> (r: Pat)
    ensures
        r == *p,
{
    match p {
        Pat::Ident(s) => Pat::Ident(s.clone()),
        Pat::Other(s) => Pat::Other(s.clone()),
    }
}

/// Copies a list of parameters.
pub fn copy_params(ps: &Vec<Param>) -> (r: Vec<Param>)
    ensures
        r@ == ps@,
{
    let mut r: Vec<Param> = Vec::new();
    let mut i: usize = 0;
    while i < ps.len()
        invariant
            i <= ps@.len(),
            r@ == ps@.subrange(0, i as int),
        decreases ps@.len() - i,
    {
        r.push(Param { pat: copy_pat(&ps[i].pat), ty: copy_type(&ps[i].ty) });
        i = i + 1;
        assert(r@ =~= ps@.subrange(0, i as int));
    }
    assert(r@ =~= ps@);
    r
}

/// Copies a list of attributes.
pub fn copy_attrs(a: &Vec<Attribute>) -> (r: Vec<Attribute>)
    ensures
        r@ == a@,
{
    let mut r: Vec<Attribute> = Vec::new();
    let mut i: usize = 0;
    while i < a.len()
        invariant
            i <= a@.len(),
            r@ == a@.subrange(0, i as int),
        decreases a@.len() - i,
    {
        r.push(Attribute { is_doc: a[i].is_doc, text: a[i].text.clone() });
        i = i + 1;
        assert(r@ =~= a@.subrange(0, i as int));
    }
    assert(r@ =~= a@);
    r
}

} // verus!
