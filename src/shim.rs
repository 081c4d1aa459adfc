//! Method and behavioural-interface exposition.
use vstd::prelude::*;
use crate::c::C;
use crate::conv::{c_input, InputV, Input, CError};
use crate::expose::{c_expose_fn, exposed_res, with_name, ExposedFn, ExposedFnV, FnDecl, FnDeclV, ModuleDecl};
use crate::naming::{snake, to_snake_case};
use crate::ty::{copy_ty, param_models, opt_str, FnArg, Ty, TyV};

verus! {

/// The exported name of method `m` of the type `owner`: the owner's path in snake case,
/// its segments joined by underscores, then an underscore and the method name.
pub open spec fn flattened(owner: TyV, m: Seq<char>) -> Seq<char> {
    match owner {
        TyV::Path(n, _) => snake(n) + "_"@ + m,
        _ => m,
    }
}

/// An implementation block: the implementing type and its methods.
#[derive(Debug, PartialEq, Eq)]
pub struct ImplDecl {
    pub self_ty: Ty,
    pub methods: Vec<FnDecl>,
}

/// How structure layout is exposed.
#[derive(Clone, Copy, Debug, PartialEq, Eq, Structural)]
pub enum ExposeStructOpts {
    /// The foreign side holds only a handle.
    Opaque,
    /// The foreign side reads the fields in declaration order.
    Transparent,
}

/// The layout a structure is exposed with.
#[derive(Clone, Copy, Debug, PartialEq, Eq, Structural)]
pub enum Layout {
    Opaque,
    Transparent,
}

/// The flat-ABI exposition of method `m` of `owner`.
#[verifier::opaque]
pub open spec fn c_expose_method(owner: TyV, m: FnDeclV) -> Result<ExposedFnV, CError> {
    c_expose_fn(with_name(m, flattened(owner, m.name)))
}

} // verus!

verus! {

impl C {
    /// The exported name of method `method` of the type `owner`.
    pub fn method_name(owner: &Ty, method: &String) -> (r: String)
        ensures
            r@ == flattened(owner@, method@),
    {
        match owner {
            Ty::Path { name, .. } => to_snake_case(name.as_str()).concat("_").concat(method.as_str()),
            _ => method.clone(),
        }
    }

    /// Makes a module public; its items are exposed one by one.
    pub fn expose_mod(module: &mut ModuleDecl) -> (r: String)
        ensures
            r@ == old(module).name@,
            final(module)@ == (crate::expose::ModuleDeclV { public: true, ..old(module)@ }),
    {
        module.public = true;
        module.name.clone()
    }

    /// The layout of a structure exposed with options `opts`: transparent only on request.
    pub fn expose_struct(opts: &Vec<ExposeStructOpts>) -> (r: Layout)
        ensures
            (r == Layout::Transparent) == opts@.contains(ExposeStructOpts::Transparent),
    {
        let mut i: usize = 0;
        while i < opts.len()
            invariant
                i <= opts.len(),
                forall|j: int| 0 <= j < i ==> opts@[j] != ExposeStructOpts::Transparent,
            decreases opts.len() - i,
        {
            if opts[i] == ExposeStructOpts::Transparent {
                assert(opts@[i as int] == ExposeStructOpts::Transparent);
                return Layout::Transparent;
            }
            i += 1;
        }
        Layout::Opaque
    }

    /// Exposes every method of an implementation block under its flattened name.
    pub fn expose_impl(imp: &ImplDecl) -> (r: Result<Vec<ExposedFn>, CError>)
        ensures
            r is Ok <==> forall|i: int|
                0 <= i < imp.methods.len() ==> (#[trigger] c_expose_method(imp.self_ty@, imp.methods@[i]@)) is Ok,
            r is Ok ==> r->Ok_0.len() == imp.methods.len() && forall|i: int|
                0 <= i < imp.methods.len() ==> Ok::<_, CError>((#[trigger] r->Ok_0@[i])@) == c_expose_method(
                    imp.self_ty@,
                    imp.methods@[i]@,
                ),
            r is Err ==> exists|i: int|
                0 <= i < imp.methods.len() && (forall|j: int| 0 <= j < i ==> (#[trigger] c_expose_method(imp.self_ty@, imp.methods@[j]@)) is Ok)
                    && c_expose_method(imp.self_ty@, imp.methods@[i]@) == Err::<ExposedFnV, CError>(r->Err_0),
    {
        let mut out: Vec<ExposedFn> = Vec::new();
        let mut i: usize = 0;
        while i < imp.methods.len()
            invariant
                i <= imp.methods.len(),
                out.len() == i,
                forall|j: int|
                    0 <= j < i ==> Ok::<_, CError>((#[trigger] out@[j])@) == c_expose_method(
                        imp.self_ty@,
                        imp.methods@[j]@,
                    ),
            decreases imp.methods.len() - i,
        {
            let m = &imp.methods[i];
            let name = C::method_name(&imp.self_ty, &m.name);
            let r = C::expose_fn_as(m, name);
            proof {
                reveal(c_expose_method);
            }
            assert(exposed_res(r) == c_expose_method(imp.self_ty@, imp.methods@[i as int]@));
            match r {
                Err(e) => {
                    assert forall|j: int| 0 <= j < i implies (#[trigger] c_expose_method(imp.self_ty@, imp.methods@[j]@)) is Ok by {
                        assert(Ok::<_, CError>(out@[j]@) == c_expose_method(imp.self_ty@, imp.methods@[j]@));
                    }
                    assert(c_expose_method(imp.self_ty@, imp.methods@[i as int]@) == Err::<ExposedFnV, CError>(e));
                    return Err(e);
                },
                Ok(f) => {
                    out.push(f);
                },
            }
            i += 1;
        }
        assert forall|j: int| 0 <= j < imp.methods.len() implies (#[trigger] c_expose_method(imp.self_ty@, imp.methods@[j]@)) is Ok by {
            assert(Ok::<_, CError>(out@[j]@) == c_expose_method(imp.self_ty@, imp.methods@[j]@));
        }
        Ok(out)
    }
}

} // verus!

verus! {

/// A method of a behavioural interface; its receiver is implicit.
#[derive(Debug, PartialEq, Eq)]
pub struct TraitMethod {
    pub name: String,
    /// The name of the method that the reverse adapter calls, when it differs.
    pub original: Option<String>,
    pub params: Vec<FnArg>,
    pub ret: Ty,
}

/// A behavioural interface handed to the generator.
#[derive(Debug, PartialEq, Eq)]
pub struct TraitDecl {
    pub name: String,
    pub methods: Vec<TraitMethod>,
}

/// One method slot of the shim: the foreign function pointer it stores and how it is called.
#[derive(Debug, PartialEq, Eq)]
pub struct ShimCallback {
    pub method: String,
    pub forwards_to: String,
    pub pointer: Ty,
    pub input: Input,
}

/// The shim synthesised for a behavioural interface: its type name, its constructor and
/// destructor entry points, and one callback per method, in declaration order.
#[derive(Debug, PartialEq, Eq)]
pub struct ShimDecl {
    pub struct_name: String,
    pub constructor: String,
    pub destructor: String,
    pub callbacks: Vec<ShimCallback>,
}

/// The opaque handle a shim threads through every callback.
pub open spec fn handle_type() -> TyV {
    TyV::Ptr(true, Box::new(TyV::Path("libc::c_void"@, Seq::empty())))
}

/// The function-pointer shape of a method once its receiver is the opaque handle.
pub open spec fn callback_shape(params: Seq<(Option<Seq<char>>, TyV)>, ret: TyV) -> TyV {
    TyV::BareFn(seq![(Some("this"@), handle_type())] + params, Box::new(ret))
}

/// The conversion of method `m`'s callback.
#[verifier::opaque]
pub open spec fn method_callback(m: &TraitMethod) -> Result<InputV, CError> {
    c_input(callback_shape(param_models(m.params@), m.ret@))
}

/// The name of the shim type of interface `t`.
pub open spec fn shim_name(t: Seq<char>) -> Seq<char> {
    t + "Struct"@
}

/// The exported constructor of the shim of interface `t`.
pub open spec fn constructor_name(t: Seq<char>) -> Seq<char> {
    snake(shim_name(t)) + "_new"@
}

/// The exported destructor of the shim of interface `t`.
pub open spec fn destructor_name(t: Seq<char>) -> Seq<char> {
    snake(shim_name(t)) + "_destroy"@
}

/// The name the reverse adapter calls for method `m`.
pub open spec fn forwarded_name(m: &TraitMethod) -> Seq<char> {
    match m.original {
        Some(o) => o@,
        None => m.name@,
    }
}

fn handle_ty() -> (r: Ty)
    ensures
        r@ == handle_type(),
{
    Ty::Ptr { mutable: true, target: Box::new(Ty::named("libc::c_void")) }
}

fn method_shape(m: &TraitMethod) -> (r: Ty)
    ensures
        r@ == callback_shape(param_models(m.params@), m.ret@),
{
    let mut params: Vec<FnArg> = Vec::new();
    params.push(FnArg { name: Some(String::from_str("this")), ty: handle_ty() });
    let ghost a = param_models(params@);
    let mut rest = crate::ty::copy_params(&m.params);
    let ghost b = param_models(rest@);
    params.append(&mut rest);
    assert(param_models(params@) =~= a + b);
    assert(a =~= seq![(Some("this"@), handle_type())]);
    Ty::bare_fn(params, copy_ty(&m.ret))
}

impl C {
    /// Synthesises the shim of a behavioural interface.
    pub fn expose_trait(tr: &TraitDecl) -> (r: Result<ShimDecl, CError>)
        ensures
            r is Ok <==> forall|i: int|
                0 <= i < tr.methods.len() ==> (#[trigger] method_callback(&tr.methods@[i])) is Ok,
            r is Ok ==> {
                let s = r->Ok_0;
                &&& s.struct_name@ == shim_name(tr.name@)
                &&& s.constructor@ == constructor_name(tr.name@)
                &&& s.destructor@ == destructor_name(tr.name@)
                &&& s.callbacks.len() == tr.methods.len()
                &&& forall|i: int|
                    0 <= i < tr.methods.len() ==> {
                        let cb = #[trigger] s.callbacks@[i];
                        let m = &tr.methods@[i];
                        &&& cb.method@ == m.name@
                        &&& cb.forwards_to@ == forwarded_name(m)
                        &&& Ok::<_, CError>(cb.input@) == method_callback(m)
                        &&& cb.input@.sources.len() == 1
                        &&& cb.pointer@ == cb.input@.sources[0].0
                    }
            },
            r is Err ==> exists|i: int|
                0 <= i < tr.methods.len() && (forall|j: int|
                    0 <= j < i ==> (#[trigger] method_callback(&tr.methods@[j])) is Ok)
                    && method_callback(&tr.methods@[i]) == Err::<InputV, CError>(r->Err_0),
    {
        let mut callbacks: Vec<ShimCallback> = Vec::new();
        let mut i: usize = 0;
        while i < tr.methods.len()
            invariant
                i <= tr.methods.len(),
                callbacks.len() == i,
                forall|j: int|
                    0 <= j < i ==> {
                        let cb = #[trigger] callbacks@[j];
                        let m = &tr.methods@[j];
                        &&& cb.method@ == m.name@
                        &&& cb.forwards_to@ == forwarded_name(m)
                        &&& Ok::<_, CError>(cb.input@) == method_callback(m)
                        &&& cb.input@.sources.len() == 1
                        &&& cb.pointer@ == cb.input@.sources[0].0
                    },
            decreases tr.methods.len() - i,
        {
            let m = &tr.methods[i];
            let shape = method_shape(m);
            let r = C::convert_input(&shape);
            proof {
                reveal(method_callback);
            }
            match r {
                Err(e) => {
                    assert forall|j: int| 0 <= j < i implies (#[trigger] method_callback(&tr.methods@[j])) is Ok by {
                        assert(Ok::<_, CError>(callbacks@[j].input@) == method_callback(&tr.methods@[j]));
                    }
                    assert(method_callback(&tr.methods@[i as int]) == Err::<InputV, CError>(e));
                    return Err(e);
                },
                Ok(input) => {
                    assert(input@.sources.len() == 1);
                    let pointer = copy_ty(&input.sources[0].ty);
                    let forwards_to = match &m.original {
                        Some(o) => o.clone(),
                        None => m.name.clone(),
                    };
                    callbacks.push(ShimCallback { method: m.name.clone(), forwards_to, pointer, input });
                },
            }
            i += 1;
        }
        assert forall|j: int| 0 <= j < tr.methods.len() implies (#[trigger] method_callback(&tr.methods@[j])) is Ok by {
            assert(Ok::<_, CError>(callbacks@[j].input@) == method_callback(&tr.methods@[j]));
        }
        let struct_name = tr.name.clone().concat("Struct");
        let base = to_snake_case(struct_name.as_str());
        let constructor = base.clone().concat("_new");
        let destructor = base.concat("_destroy");
        Ok(ShimDecl { struct_name, constructor, destructor, callbacks })
    }
}

} // verus!
