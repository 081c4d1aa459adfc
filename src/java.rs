//! Conversion rules and exposition for a managed runtime's native interface.
use vstd::prelude::*;
use crate::conv::{
    is_plain, java_input, java_output, mk_input, single_slot, lemma_empty_str, CError, Input, InputKind, Output,
    OutputKind, Target,
};
use crate::expose::{
    expose_rule, expose_with, exposed_res, with_name, ExposedFn, ExposedFnV, FnDecl, FnDeclV, ModuleDecl,
};
use crate::ty::{copy_ty, models, param_models, FnArg, Ty, TyV};

verus! {

/// The managed-native-interface target.
#[derive(Debug)]
pub struct Java;

/// Configuration errors of the managed-native-interface target.
#[derive(Clone, Copy, Debug, PartialEq, Eq, Structural)]
pub enum JavaError {
    /// A function outside any module: the runtime resolves entry points by class path.
    NakedFunction,
    /// An error of the shared conversion machinery.
    Lang(CError),
}

impl From<CError> for JavaError {
    fn from(e: CError) -> (r: JavaError)
        ensures
            r == JavaError::Lang(e),
    {
        JavaError::Lang(e)
    }
}

impl vstd::std_specs::convert::FromSpecImpl<CError> for JavaError {
    open spec fn obeys_from_spec() -> bool {
        true
    }

    open spec fn from_spec(e: CError) -> JavaError {
        JavaError::Lang(e)
    }
}

/// The two parameters every managed-interface entry point starts with.
pub open spec fn java_prefix() -> Seq<(Option<Seq<char>>, TyV)> {
    seq![
        (Some("env"@), TyV::Path("JNIEnv"@, Seq::empty())),
        (Some("class"@), TyV::Path("JClass"@, Seq::empty())),
    ]
}

/// The managed-interface exposition of a function declared in a module path of `path_len` names.
pub open spec fn java_expose_fn(d: FnDeclV, path_len: nat) -> Result<ExposedFnV, JavaError> {
    if path_len == 0 {
        Err(JavaError::NakedFunction)
    } else {
        match expose_rule(Target::Java, d) {
            Err(e) => Err(JavaError::Lang(e)),
            Ok(f) => Ok(ExposedFnV { params: java_prefix() + f.params, ..f }),
        }
    }
}

/// The imports a managed-interface module starts with.
pub open spec fn java_uses() -> Seq<Seq<char>> {
    seq!["jni::JNIEnv"@, "jni::objects::JValue"@, "jni::sys::jint"@]
}

pub(crate) fn java_in(ty: &Ty) -> (r: Input)
    ensures
        r@ == java_input(ty@),
{
    proof {
        lemma_empty_str();
    }
    if is_plain(ty, "u32") {
        let sources = single_slot(Ty::named("jint"), "");
        mk_input(copy_ty(ty), InputKind::MapFrom, sources)
    } else if is_plain(ty, "String") {
        let sources = single_slot(Ty::named("JString"), "");
        mk_input(copy_ty(ty), InputKind::MapFrom, sources)
    } else {
        let sources = single_slot(copy_ty(ty), "");
        mk_input(copy_ty(ty), InputKind::Unchanged, sources)
    }
}

pub(crate) fn java_out(ty: &Ty) -> (r: Output)
    ensures
        r@ == java_output(ty@),
{
    proof {
        lemma_empty_str();
    }
    if is_plain(ty, "u32") {
        let slots = single_slot(Ty::named("jint"), "");
        Output { host: copy_ty(ty), kind: OutputKind::MapTo, slots }
    } else if is_plain(ty, "String") {
        let slots = single_slot(Ty::named("JString"), "");
        Output { host: copy_ty(ty), kind: OutputKind::MapTo, slots }
    } else {
        let slots = single_slot(copy_ty(ty), "");
        Output { host: copy_ty(ty), kind: OutputKind::Unchanged, slots }
    }
}

impl Java {
    /// Decides how a host value of type `ty` is received from the managed side.
    pub fn convert_input(ty: &Ty) -> (r: Result<Input, JavaError>)
        ensures
            r is Ok,
            r->Ok_0@ == java_input(ty@),
    {
        Ok(java_in(ty))
    }

    /// Decides how a host value of type `ty` is handed to the managed side.
    pub fn convert_output(ty: &Ty) -> (r: Result<Output, JavaError>)
        ensures
            r is Ok,
            r->Ok_0@ == java_output(ty@),
    {
        Ok(java_out(ty))
    }

    /// Rewrites a function declared under `mod_path` into a managed-interface entry point.
    pub fn expose_fn(decl: &FnDecl, mod_path: &Vec<String>) -> (r: Result<ExposedFn, JavaError>)
        ensures
            match (r, java_expose_fn(decl@, mod_path.len() as nat)) {
                (Ok(f), Ok(g)) => f@ == g,
                (Err(e), Err(g)) => e == g,
                _ => false,
            },
    {
        if mod_path.len() == 0 {
            return Err(JavaError::NakedFunction);
        }
        let r = expose_with(Target::Java, decl, decl.name.clone());
        assert(with_name(decl@, decl.name@) == decl@);
        match r {
            Err(e) => Err(JavaError::Lang(e)),
            Ok(f) => {
                let mut params: Vec<FnArg> = Vec::new();
                params.push(FnArg { name: Some(String::from_str("env")), ty: Ty::named("JNIEnv") });
                params.push(FnArg { name: Some(String::from_str("class")), ty: Ty::named("JClass") });
                let ghost a = param_models(params@);
                let ghost b = param_models(f.params@);
                assert(a =~= java_prefix());
                let mut rest = f.params;
                params.append(&mut rest);
                assert(param_models(params@) =~= a + b);
                Ok(ExposedFn { name: f.name, params, ret: f.ret, inputs: f.inputs, output: f.output })
            },
        }
    }

    /// Makes a module public and brings the managed-interface types into its scope.
    pub fn expose_mod(module: &mut ModuleDecl) -> (r: String)
        ensures
            r@ == old(module).name@,
            final(module).name@ == old(module).name@,
            final(module).public,
            final(module)@.uses == old(module)@.uses + java_uses(),
    {
        module.public = true;
        let ghost before = module@.uses;
        module.uses.push(String::from_str("jni::JNIEnv"));
        module.uses.push(String::from_str("jni::objects::JValue"));
        module.uses.push(String::from_str("jni::sys::jint"));
        assert(module@.uses =~= before + java_uses());
        module.name.clone()
    }
}

} // verus!
