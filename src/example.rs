use vstd::prelude::*;

use crate::directive::{InnerArgs, MyMacroArgs};
use crate::model::{Attribute, InterfaceSpec, Item, MethodSpec, Param, Pat, TypeExpr};
use crate::synth::MyTraitMacroArgs;

verus! {

/// The default backing implementation of the `Administratable` interface,
/// which keeps an admin address and checks it.
pub struct Admin;

/// The example target type that the interfaces are composed for.
pub struct Contract;

fn path(text: &str) -> (r: TypeExpr)
    ensures
        r is Path && r->Path_0@ == text@,
{
    TypeExpr::Path(String::from_str(text))
}

fn ident_param(name: &str, ty: TypeExpr) -> (r: Param)
    ensures
        r.pat is Ident && r.pat->Ident_0@ == name@,
        r.ty == ty,
{
    Param { pat: Pat::Ident(String::from_str(name)), ty }
}

fn method(name: &str, params: Vec<Param>, ret: Option<TypeExpr>) -> (r: MethodSpec)
    ensures
        r.name@ == name@,
        r.params == params,
        r.ret == ret,
        !r.has_receiver,
        !r.is_internal,
        r.attrs@.len() == 0,
{
    MethodSpec {
        name: String::from_str(name),
        params,
        ret,
        has_receiver: false,
        is_internal: false,
        attrs: Vec::new(),
    }
}

impl Admin {
    /// The configuration `Administratable` is declared with: `Admin` as its
    /// default, and a decorator type of its own.
    pub fn interface_args() -> (r: MyTraitMacroArgs)
        ensures
            r.default is Some && r.default->Some_0@ == "Admin"@,
            !r.ext_required,
            r.is_ext,
    {
        MyTraitMacroArgs { default: Some(String::from_str("Admin")), ext_required: false, is_ext: true }
    }

    /// The `Administratable` interface, whose methods are
    /// `admin(env: &Env) -> soroban_sdk::Address` and
    /// `set_admin(env: &Env, new_admin: soroban_sdk::Address)`.
    pub fn interface() -> (r: InterfaceSpec)
        ensures
            r.name@ == "Administratable"@,
            r.attrs@.len() == 1 && r.attrs@[0].is_doc,
            r.methods@.len() == 2,
            r.methods@[0].name@ == "admin"@,
            r.methods@[0].params@.len() == 1,
            r.methods@[0].params@[0].pat->Ident_0@ == "env"@,
            r.methods@[0].params@[0].ty matches TypeExpr::Ref(false, u) && u->Path_0@ == "Env"@,
            r.methods@[0].ret matches Some(t) && t->Path_0@ == "soroban_sdk::Address"@,
            r.methods@[1].name@ == "set_admin"@,
            r.methods@[1].params@.len() == 2,
            r.methods@[1].params@[0].pat->Ident_0@ == "env"@,
            r.methods@[1].params@[0].ty matches TypeExpr::Ref(false, u) && u->Path_0@ == "Env"@,
            r.methods@[1].params@[1].pat->Ident_0@ == "new_admin"@,
            r.methods@[1].params@[1].ty->Path_0@ == "soroban_sdk::Address"@,
            r.methods@[1].ret is None,
            forall|i: int|
                0 <= i < 2 ==> !(#[trigger] r.methods@[i]).has_receiver && !r.methods@[i].is_internal,
    {
        let env = ident_param("env", TypeExpr::Ref(false, Box::new(path("Env"))));
        let admin = method("admin", vec![env], Some(path("soroban_sdk::Address")));
        let env = ident_param("env", TypeExpr::Ref(false, Box::new(path("Env"))));
        let new_admin = ident_param("new_admin", path("soroban_sdk::Address"));
        let set_admin = method("set_admin", vec![env, new_admin], None);
        let doc = Attribute {
            is_doc: true,
            text: String::from_str(" Trait for using an admin address to control access."),
        };
        InterfaceSpec {
            name: String::from_str("Administratable"),
            methods: vec![admin, set_admin],
            attrs: vec![doc],
        }
    }
}

impl Contract {
    /// The declaration of the target type.
    pub fn declaration() -> (r: Item)
        ensures
            r is Struct && r->Struct_0@ == "Contract"@,
    {
        Item::Struct(String::from_str("Contract"))
    }

    /// The directive that composes `Administratable` with its default, and
    /// `Upgradable` behind the decorator `AdministratableExt`.
    pub fn directive() -> (r: MyMacroArgs)
        ensures
            r.wf(),
            r.args@.len() == 2,
            r.args@[0].0@ == "Administratable"@,
            r.args@[0].1.exts@.len() == 0,
            r.args@[0].1.default is None,
            r.args@[1].0@ == "Upgradable"@,
            r.args@[1].1.exts@.len() == 1,
            r.args@[1].1.exts@[0]@ == "AdministratableExt"@,
            r.args@[1].1.default is None,
    {
        proof {
            reveal_strlit("Administratable");
            reveal_strlit("Upgradable");
        }
        let admin = InnerArgs { exts: Vec::new(), default: None };
        let upgrade = InnerArgs { exts: vec![String::from_str("AdministratableExt")], default: None };
        let r = MyMacroArgs {
            args: vec![(String::from_str("Administratable"), admin), (String::from_str("Upgradable"), upgrade)],
        };
        assert(r.args@[0].0@ != r.args@[1].0@) by {
            assert(r.args@[0].0@[0] != r.args@[1].0@[0]);
        }
        r
    }
}

} // verus!
