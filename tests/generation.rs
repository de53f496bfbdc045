use contract_trait::chain::{render_type, resolve};
use contract_trait::directive::{derive_contract, derive_contract_inner, InnerArgs, MyMacroArgs};
use contract_trait::dispatch::{Expansion, InvocationShape};
use contract_trait::example::{Admin, Contract};
use contract_trait::model::{
    Attribute, ConfigIssue, Error, Expected, InterfaceSpec, Item, MethodSpec, Param, Pat, TypeExpr,
};
use contract_trait::signature::{args_to_idents, CallArg};
use contract_trait::synth::{generate, inner_generate, Generated, MyTraitMacroArgs, Output};

fn path(s: &str) -> TypeExpr {
    TypeExpr::Path(s.to_string())
}

fn shared(s: &str) -> TypeExpr {
    TypeExpr::Ref(false, Box::new(path(s)))
}

fn param(name: &str, ty: TypeExpr) -> Param {
    Param { pat: Pat::Ident(name.to_string()), ty }
}

fn method(name: &str, params: Vec<Param>, ret: Option<TypeExpr>) -> MethodSpec {
    MethodSpec {
        name: name.to_string(),
        params,
        ret,
        has_receiver: false,
        is_internal: false,
        attrs: vec![],
    }
}

fn doc(text: &str) -> Attribute {
    Attribute { is_doc: true, text: text.to_string() }
}

fn args(default: Option<&str>, ext_required: bool, is_ext: bool) -> MyTraitMacroArgs {
    MyTraitMacroArgs { default: default.map(|d| d.to_string()), ext_required, is_ext }
}

fn generated(a: &MyTraitMacroArgs, spec: InterfaceSpec) -> Generated {
    match inner_generate(a, &Item::Trait(spec)) {
        Ok(g) => g,
        Err(e) => panic!("generation failed: {}", e.message()),
    }
}

fn type_text(t: &Option<TypeExpr>) -> Option<String> {
    t.as_ref().map(render_type)
}

fn calls(c: &[CallArg]) -> Vec<String> {
    c.iter()
        .map(|a| match a {
            CallArg::Value(n) => n.clone(),
            CallArg::Shared(n) => format!("&{n}"),
            CallArg::Exclusive(n) => format!("&mut {n}"),
        })
        .collect()
}

fn param_types(ps: &[Param]) -> Vec<String> {
    ps.iter().map(|p| render_type(&p.ty)).collect()
}

fn bound(r: Result<Expansion, Error>) -> (String, String, String) {
    match r {
        Ok(Expansion::Bound(b)) => (b.interface, b.target, render_type(&b.implementation)),
        Ok(Expansion::Implementation(_)) => panic!("expected a binding"),
        Err(e) => panic!("invocation failed: {}", e.message()),
    }
}

fn first_interface() -> InterfaceSpec {
    let mut admin_get = method("admin_get", vec![param("env", path("Env"))], Some(path("soroban_sdk::Address")));
    admin_get.attrs.push(doc(" Get current admin"));
    let admin_set = method(
        "admin_set",
        vec![param("env", path("Env")), param("new_admin", path("soroban_sdk::Address"))],
        None,
    );
    InterfaceSpec { name: "Administratable".to_string(), methods: vec![admin_get, admin_set], attrs: vec![] }
}

#[test]
fn contracttrait_first() {
    let g = generated(&args(Some("Admin"), false, false), first_interface());
    let i = &g.interface;
    assert_eq!(i.name, "Administratable");
    assert_eq!(i.slot_bound, "Administratable");
    assert_eq!(i.methods.len(), 2);
    assert_eq!(i.methods[0].name, "admin_get");
    assert_eq!(i.methods[0].attrs.len(), 1);
    assert_eq!(i.methods[0].attrs[0].text, " Get current admin");
    assert_eq!(i.methods[0].call_args, vec!["env".to_string()]);
    assert_eq!(type_text(&i.methods[0].ret), Some("soroban_sdk::Address".to_string()));
    assert_eq!(i.methods[1].name, "admin_set");
    assert_eq!(i.methods[1].call_args, vec!["env".to_string(), "new_admin".to_string()]);
    assert_eq!(type_text(&i.methods[1].ret), None);
    assert!(g.extension.is_none());

    let gen = &g.generator;
    assert_eq!(gen.name, "Administratable");
    assert_eq!(gen.default.as_deref(), Some("Admin"));
    assert!(gen.docs.is_empty());
    assert_eq!(gen.entry_points.len(), 2);
    assert_eq!(gen.entry_points[0].name, "admin_get");
    assert_eq!(gen.entry_points[0].attrs[0].text, " Get current admin");
    assert_eq!(param_types(&gen.entry_points[0].params), vec!["Env"]);
    assert_eq!(calls(&gen.entry_points[0].call_args), vec!["env"]);
    assert_eq!(gen.entry_points[1].name, "admin_set");
    assert_eq!(param_types(&gen.entry_points[1].params), vec!["Env", "soroban_sdk::Address"]);
    assert_eq!(calls(&gen.entry_points[1].call_args), vec!["env", "new_admin"]);

    // `Administratable!(Contract)` binds the default, `Administratable!()` names it.
    assert_eq!(
        bound(gen.invoke(InvocationShape::TargetOnly("Contract".to_string()))),
        ("Administratable".to_string(), "Contract".to_string(), "Admin".to_string())
    );
    match gen.invoke(InvocationShape::Empty) {
        Ok(Expansion::Implementation(t)) => assert_eq!(render_type(&t), "Admin"),
        _ => panic!("expected the default implementation"),
    }
}

#[test]
fn contracttrait_derive() {
    let mut directive = MyMacroArgs::new();
    assert!(directive.insert("Administratable".to_string(), InnerArgs { exts: vec![], default: None }));
    assert!(directive.insert(
        "Upgradable".to_string(),
        InnerArgs { exts: vec!["AdministratableExt".to_string()], default: None }
    ));
    let d = match derive_contract(&directive, &Item::Struct("Contract".to_string())) {
        Output::Code(d) => d,
        Output::Diagnostic(m) => panic!("{m}"),
    };
    assert_eq!(d.target, "Contract");
    let got: Vec<(String, String, String)> = d
        .invocations
        .iter()
        .map(|i| (i.interface.clone(), i.target.clone(), render_type(&i.implementation)))
        .collect();
    assert_eq!(
        got,
        vec![
            ("Administratable".to_string(), "Contract".to_string(), "Administratable!()".to_string()),
            (
                "Upgradable".to_string(),
                "Contract".to_string(),
                "AdministratableExt<Contract, Upgradable!()>".to_string()
            ),
        ]
    );
}

#[test]
fn default_resolution_matches_explicit_default() {
    let g = generated(&args(Some("Admin"), false, false), first_interface()).generator;
    let implicit = bound(g.invoke(InvocationShape::TargetOnly("Contract".to_string())));
    let explicit = bound(g.invoke(InvocationShape::TargetWithImpl("Contract".to_string(), path("Admin"))));
    assert_eq!(implicit, explicit);
}

#[test]
fn missing_default_is_a_configuration_error() {
    let g = generated(&args(None, false, false), first_interface()).generator;
    for shape in [InvocationShape::Empty, InvocationShape::TargetOnly("Contract".to_string())] {
        match g.invoke(shape) {
            Err(e @ Error::Configuration(ConfigIssue::NoDefault(_))) => assert_eq!(
                e.message(),
                "The contract trait `Administratable` does not provide default implementation. \
One should be passed, e.g. default = MyDefaultImpl"
            ),
            _ => panic!("expected a missing default"),
        }
    }
    let explicit = bound(g.invoke(InvocationShape::TargetWithImpl("Contract".to_string(), path("Custom"))));
    assert_eq!(explicit.2, "Custom");
}

#[test]
fn resolve_nests_first_decorator_outermost() {
    let chain = vec!["A".to_string(), "B".to_string(), "C".to_string()];
    let r = resolve(&chain, &"T".to_string(), path("Base"));
    assert_eq!(render_type(&r), "A<T, B<T, C<T, Base>>>");
}

#[test]
fn resolve_empty_chain_is_base() {
    let r = resolve(&vec![], &"T".to_string(), TypeExpr::DefaultOf("Upgradable".to_string()));
    assert_eq!(render_type(&r), "Upgradable!()");
}

#[test]
fn reference_params_taken_by_value_at_boundary() {
    let m = method(
        "touch",
        vec![
            param("env", shared("Env")),
            param("buf", TypeExpr::Ref(true, Box::new(path("Vec<u8>")))),
            param("n", path("u32")),
        ],
        Some(shared("str")),
    );
    let spec = InterfaceSpec { name: "Touch".to_string(), methods: vec![m], attrs: vec![] };
    let g = generated(&args(None, false, false), spec);
    let e = &g.generator.entry_points[0];
    assert_eq!(param_types(&e.params), vec!["Env", "Vec<u8>", "u32"]);
    assert_eq!(calls(&e.call_args), vec!["&env", "&mut buf", "n"]);
    assert_eq!(type_text(&e.ret), Some("&str".to_string()));
    let f = &g.interface.methods[0];
    assert_eq!(param_types(&f.params), vec!["&Env", "&mut Vec<u8>", "u32"]);
    assert_eq!(f.call_args, vec!["env", "buf", "n"]);
}

#[test]
fn extension_required_needs_a_decorator() {
    let spec = InterfaceSpec {
        name: "Upgradable".to_string(),
        methods: vec![method("upgrade", vec![param("env", shared("Env"))], None)],
        attrs: vec![],
    };
    let g = generated(&args(Some("Upgrader"), true, false), spec).generator;
    let message = "The contract trait `Upgradable` requires an extension for authentication but none were provided.";
    for shape in [
        InvocationShape::TargetOnly("Contract".to_string()),
        InvocationShape::TargetWithImpl("Contract".to_string(), resolve(&vec![], &"Contract".to_string(), path("Upgrader"))),
    ] {
        match g.invoke(shape) {
            Err(e @ Error::Configuration(ConfigIssue::ExtensionRequired(_))) => assert_eq!(e.message(), message),
            _ => panic!("expected a missing decorator"),
        }
    }
    let one = resolve(&vec!["AdministratableExt".to_string()], &"Contract".to_string(), path("Upgrader"));
    assert_eq!(
        bound(g.invoke(InvocationShape::TargetWithImpl("Contract".to_string(), one))).2,
        "AdministratableExt<Contract, Upgrader>"
    );
}

#[test]
fn internal_methods_forwarded_but_not_exposed() {
    let mut hidden = method("hidden", vec![param("env", shared("Env"))], None);
    hidden.is_internal = true;
    let mut with_self = method("by_self", vec![], None);
    with_self.has_receiver = true;
    let shown = method("shown", vec![param("env", shared("Env"))], None);
    let spec = InterfaceSpec { name: "Mixed".to_string(), methods: vec![hidden, with_self, shown], attrs: vec![] };
    let g = generated(&args(None, false, false), spec);
    let forwarded: Vec<&str> = g.interface.methods.iter().map(|m| m.name.as_str()).collect();
    let exposed: Vec<&str> = g.generator.entry_points.iter().map(|m| m.name.as_str()).collect();
    assert_eq!(forwarded, vec!["hidden", "shown"]);
    assert_eq!(exposed, vec!["shown"]);
}

#[test]
fn administratable_scenario() {
    let a = Admin::interface_args();
    let g = generated(&a, Admin::interface());
    assert_eq!(g.interface.slot_bound, "Administratable");
    assert_eq!(g.extension.as_deref(), Some("AdministratableExt"));
    assert_eq!(g.generator.docs.len(), 1);
    assert_eq!(g.generator.docs[0].text, " Trait for using an admin address to control access.");
    let names: Vec<&str> = g.generator.entry_points.iter().map(|e| e.name.as_str()).collect();
    assert_eq!(names, vec!["admin", "set_admin"]);
    assert_eq!(calls(&g.generator.entry_points[0].call_args), vec!["&env"]);
    assert_eq!(calls(&g.generator.entry_points[1].call_args), vec!["&env", "new_admin"]);
    assert_eq!(param_types(&g.generator.entry_points[1].params), vec!["Env", "soroban_sdk::Address"]);
    assert_eq!(
        bound(g.generator.invoke(InvocationShape::TargetOnly("Contract".to_string()))),
        ("Administratable".to_string(), "Contract".to_string(), "Admin".to_string())
    );
}

#[test]
fn upgradable_directive_scenario() {
    let d = derive_contract_inner(&Contract::directive(), &Contract::declaration()).ok().unwrap();
    assert_eq!(d.invocations.len(), 2);
    assert_eq!(d.invocations[1].interface, "Upgradable");
    assert_eq!(render_type(&d.invocations[1].implementation), "AdministratableExt<Contract, Upgradable!()>");
}

#[test]
fn directive_default_replaces_interface_default() {
    let mut directive = MyMacroArgs::new();
    assert!(directive.insert(
        "Upgradable".to_string(),
        InnerArgs { exts: vec!["X".to_string(), "Y".to_string()], default: Some("Mine".to_string()) }
    ));
    assert!(!directive.insert("Upgradable".to_string(), InnerArgs { exts: vec![], default: None }));
    assert_eq!(directive.args.len(), 1);
    let d = derive_contract_inner(&directive, &Item::Struct("C".to_string())).ok().unwrap();
    assert_eq!(render_type(&d.invocations[0].implementation), "X<C, Y<C, Mine>>");
}

#[test]
fn malformed_inputs_are_refused() {
    match generate(&args(None, false, false), &Item::Struct("Contract".to_string())) {
        Output::Diagnostic(m) => assert_eq!(m, "Input must be a trait"),
        Output::Code(_) => panic!("a struct is no interface"),
    }
    match derive_contract(&MyMacroArgs::new(), &Item::Trait(first_interface())) {
        Output::Diagnostic(m) => assert_eq!(m, "Input must be a struct"),
        Output::Code(_) => panic!("a trait is no target"),
    }
    assert!(matches!(inner_generate(&args(None, false, false), &Item::Other), Err(Error::Malformed(Expected::Trait))));
}

#[test]
fn destructuring_pattern_is_unsupported() {
    let bad = method(
        "pair",
        vec![param("env", path("Env")), Param { pat: Pat::Other("(a, b)".to_string()), ty: path("(u32, u32)") }],
        None,
    );
    let spec = InterfaceSpec { name: "Pairs".to_string(), methods: vec![bad], attrs: vec![] };
    match inner_generate(&args(None, false, false), &Item::Trait(spec)) {
        Err(e @ Error::UnsupportedPattern(_)) => assert_eq!(
            e.message(),
            "Unsupported parameter pattern `(a, b)`: only plain identifiers can be forwarded"
        ),
        _ => panic!("expected an unsupported pattern"),
    }
}

#[test]
fn internal_method_may_destructure() {
    let mut bad = method("pair", vec![Param { pat: Pat::Other("(a, b)".to_string()), ty: path("(u32, u32)") }], None);
    bad.is_internal = true;
    let spec = InterfaceSpec { name: "Pairs".to_string(), methods: vec![bad], attrs: vec![] };
    let g = generated(&args(None, false, false), spec);
    assert!(g.interface.methods[0].call_args.is_empty());
    assert!(g.generator.entry_points.is_empty());
}

#[test]
fn idents_skip_other_patterns() {
    let ps = vec![
        param("a", path("u8")),
        Param { pat: Pat::Other("_".to_string()), ty: path("u8") },
        param("c", path("u8")),
    ];
    assert_eq!(args_to_idents(&ps), vec!["a".to_string(), "c".to_string()]);
}

#[test]
fn only_doc_attributes_reach_the_generator() {
    let spec = InterfaceSpec {
        name: "Documented".to_string(),
        methods: vec![],
        attrs: vec![doc(" One"), Attribute { is_doc: false, text: "allow(unused)".to_string() }, doc(" Two")],
    };
    let g = generated(&args(None, false, true), spec);
    assert_eq!(g.interface.attrs.len(), 3);
    let docs: Vec<&str> = g.generator.docs.iter().map(|a| a.text.as_str()).collect();
    assert_eq!(docs, vec![" One", " Two"]);
    assert_eq!(g.extension.as_deref(), Some("DocumentedExt"));
}
