use ffi_expose::c::C;
use ffi_expose::conv::{CError, InputKind};
use ffi_expose::expose::{FnDecl, ModuleDecl, Param};
use ffi_expose::java::{Java, JavaError};
use ffi_expose::naming::to_snake_case;
use ffi_expose::shim::{ExposeStructOpts, ImplDecl, Layout, TraitDecl, TraitMethod};
use ffi_expose::ty::{FnArg, Ty};

fn named(n: &str) -> Ty {
    Ty::Path { name: n.to_string(), args: vec![] }
}

fn generic(n: &str, args: Vec<Ty>) -> Ty {
    Ty::Path { name: n.to_string(), args }
}

fn ptr(mutable: bool, t: Ty) -> Ty {
    Ty::Ptr { mutable, target: Box::new(t) }
}

fn typed(name: &str, ty: Ty) -> Param {
    Param::Typed { name: name.to_string(), ty }
}

fn arg(name: &str, ty: Ty) -> FnArg {
    FnArg { name: Some(name.to_string()), ty }
}

fn decl(name: &str, params: Vec<Param>, ret: Ty, destructor: bool) -> FnDecl {
    FnDecl { name: name.to_string(), params, ret, destructor }
}

#[test]
fn destructor_with_receiver_is_refused() {
    let d = decl("new", vec![Param::Receiver, typed("x", named("u32"))], Ty::Unit, true);
    assert_eq!(C::expose_fn(&d).unwrap_err(), CError::DestructorReceiverArgument);
}

#[test]
fn destructor_wraps_every_parameter() {
    let d = decl("free_script", vec![typed("s", named("Script"))], Ty::Unit, true);
    let f = C::expose_fn(&d).unwrap();
    assert_eq!(f.name, "free_script");
    assert_eq!(f.params, vec![arg("s", ptr(true, named("Script")))]);
    assert_eq!(f.inputs[0].host, generic("Destroy", vec![named("Script")]));
    assert_eq!(f.ret, Ty::Unit);
}

#[test]
fn function_with_array_parameter_and_string_return() {
    let d = decl(
        "join",
        vec![typed("parts", generic("Vec", vec![named("String")])), typed("n", named("u32"))],
        named("String"),
        false,
    );
    let f = C::expose_fn(&d).unwrap();
    assert_eq!(
        f.params,
        vec![
            arg("parts_arr", ptr(false, ptr(false, named("libc::c_char")))),
            arg("parts_len", named("usize")),
            arg("n", named("u32")),
        ]
    );
    assert_eq!(f.ret, ptr(true, named("libc::c_char")));
    assert_eq!(f.inputs.len(), 2);
    assert_eq!(f.inputs[0].kind, InputKind::MapFrom);
}

#[test]
fn array_return_becomes_out_parameters() {
    let d = decl("bytes", vec![], generic("Vec", vec![named("u8")]), false);
    let f = C::expose_fn(&d).unwrap();
    assert_eq!(f.ret, Ty::Unit);
    assert_eq!(
        f.params,
        vec![
            arg("__ptr_out_arr", ptr(true, ptr(true, named("u8")))),
            arg("__ptr_out_len", ptr(true, named("usize"))),
        ]
    );
}

#[test]
fn result_return_carries_error_code() {
    let d = decl(
        "parse",
        vec![typed("s", named("String"))],
        generic("Result", vec![named("Script"), named("BitcoinError")]),
        false,
    );
    let f = C::expose_fn(&d).unwrap();
    assert_eq!(f.ret, named("i32"));
    assert_eq!(f.params[1], arg("__ptr_out", ptr(true, ptr(true, named("Script")))));
}

#[test]
fn by_reference_return_is_out_pointer() {
    let d = decl("new", vec![], named("Self"), false);
    let f = C::expose_fn(&d).unwrap();
    assert_eq!(f.ret, Ty::Unit);
    assert_eq!(f.params, vec![arg("__ptr_out", ptr(true, ptr(true, named("Self"))))]);
}

#[test]
fn receiver_is_exclusive_pointer() {
    let d = decl("len", vec![Param::Receiver], named("usize"), false);
    let f = C::expose_fn(&d).unwrap();
    assert_eq!(f.params, vec![arg("this", ptr(true, named("Self")))]);
    assert_eq!(f.ret, named("usize"));
}

#[test]
fn invalid_result_return_is_refused() {
    let d = decl("bad", vec![], generic("Result", vec![named("u8")]), false);
    assert_eq!(C::expose_fn(&d).unwrap_err(), CError::InvalidResult);
}

#[test]
fn method_name_is_flattened() {
    assert_eq!(C::method_name(&named("FooBar"), &"bar".to_string()), "foo_bar_bar");
    assert_eq!(to_snake_case("MyTraitStruct"), "my_trait_struct");
    assert_eq!(C::method_name(&Ty::Unit, &"bar".to_string()), "bar");
    assert_eq!(C::method_name(&named("wallet::FooBar"), &"bar".to_string()), "wallet_foo_bar_bar");
    assert_eq!(C::method_name(&named("a::B"), &"c".to_string()), "a_b_c");
    assert_eq!(to_snake_case("Outer::InnerType"), "outer_inner_type");
}

#[test]
fn impl_methods_are_exposed_under_flattened_names() {
    let imp = ImplDecl {
        self_ty: named("FooBar"),
        methods: vec![
            decl("bar", vec![Param::Receiver], Ty::Unit, false),
            decl("new", vec![], named("Self"), false),
        ],
    };
    let fs = C::expose_impl(&imp).unwrap();
    assert_eq!(fs.len(), 2);
    assert_eq!(fs[0].name, "foo_bar_bar");
    assert_eq!(fs[1].name, "foo_bar_new");
}

#[test]
fn impl_stops_at_first_refused_method() {
    let imp = ImplDecl {
        self_ty: named("FooBar"),
        methods: vec![
            decl("ok", vec![], Ty::Unit, false),
            decl("drop_it", vec![Param::Receiver], Ty::Unit, true),
        ],
    };
    assert_eq!(C::expose_impl(&imp).unwrap_err(), CError::DestructorReceiverArgument);
}

#[test]
fn struct_layout_is_opaque_unless_transparent_requested() {
    assert_eq!(C::expose_struct(&vec![]), Layout::Opaque);
    assert_eq!(C::expose_struct(&vec![ExposeStructOpts::Opaque]), Layout::Opaque);
    assert_eq!(C::expose_struct(&vec![ExposeStructOpts::Transparent]), Layout::Transparent);
}

#[test]
fn c_module_becomes_public() {
    let mut m = ModuleDecl { name: "wallet".to_string(), public: false, uses: vec![] };
    assert_eq!(C::expose_mod(&mut m), "wallet");
    assert!(m.public);
    assert!(m.uses.is_empty());
}

#[test]
fn trait_shim_names_and_callbacks() {
    let tr = TraitDecl {
        name: "MyTrait".to_string(),
        methods: vec![
            TraitMethod {
                name: "notify".to_string(),
                original: None,
                params: vec![arg("value", named("String"))],
                ret: Ty::Unit,
            },
            TraitMethod {
                name: "get".to_string(),
                original: Some("get_value".to_string()),
                params: vec![],
                ret: named("u32"),
            },
        ],
    };
    let s = C::expose_trait(&tr).unwrap();
    assert_eq!(s.struct_name, "MyTraitStruct");
    assert_eq!(s.constructor, "my_trait_struct_new");
    assert_eq!(s.destructor, "my_trait_struct_destroy");
    assert_eq!(s.callbacks.len(), 2);
    assert_eq!(s.callbacks[0].method, "notify");
    assert_eq!(s.callbacks[0].forwards_to, "notify");
    assert_eq!(s.callbacks[1].forwards_to, "get_value");
    let handle = ptr(true, named("libc::c_void"));
    assert_eq!(
        s.callbacks[0].pointer,
        Ty::BareFn {
            params: vec![arg("this", handle), arg("value", ptr(true, named("libc::c_char")))],
            ret: Box::new(Ty::Unit),
        }
    );
    assert_eq!(s.callbacks[1].input.kind, InputKind::Callback);
}

#[test]
fn trait_with_unnamed_parameter_is_refused() {
    let tr = TraitDecl {
        name: "MyTrait".to_string(),
        methods: vec![TraitMethod {
            name: "notify".to_string(),
            original: None,
            params: vec![FnArg { name: None, ty: named("u32") }],
            ret: Ty::Unit,
        }],
    };
    assert_eq!(C::expose_trait(&tr).unwrap_err(), CError::UnnamedCallbackArguments);
}

#[test]
fn java_function_outside_module_is_refused() {
    let d = decl("f", vec![], Ty::Unit, false);
    assert_eq!(Java::expose_fn(&d, &vec![]).unwrap_err(), JavaError::NakedFunction);
}

#[test]
fn java_function_gets_env_and_class() {
    let d = decl("add", vec![typed("a", named("u32"))], named("u32"), false);
    let f = Java::expose_fn(&d, &vec!["app".to_string()]).unwrap();
    assert_eq!(
        f.params,
        vec![arg("env", named("JNIEnv")), arg("class", named("JClass")), arg("a", named("jint"))]
    );
    assert_eq!(f.ret, named("jint"));
}

#[test]
fn java_module_imports_runtime_types() {
    let mut m = ModuleDecl { name: "app".to_string(), public: false, uses: vec!["x".to_string()] };
    assert_eq!(Java::expose_mod(&mut m), "app");
    assert!(m.public);
    assert_eq!(m.uses, vec!["x", "jni::JNIEnv", "jni::objects::JValue", "jni::sys::jint"]);
}

#[test]
fn batch_reports_every_refused_function() {
    let decls = vec![
        decl("a", vec![Param::Receiver], Ty::Unit, true),
        decl("b", vec![typed("x", named("u32"))], named("u32"), false),
        decl("c", vec![], generic("Result", vec![named("u8")]), false),
    ];
    let r = C::expose_batch(&decls);
    assert_eq!(r.len(), 3);
    assert_eq!(r[0].as_ref().unwrap_err(), &CError::DestructorReceiverArgument);
    assert_eq!(r[1].as_ref().unwrap().name, "b");
    assert_eq!(r[2].as_ref().unwrap_err(), &CError::InvalidResult);
}

#[test]
fn optional_parameter_expands_to_flag_and_value() {
    let d = decl("set", vec![typed("v", generic("Option", vec![named("u32")]))], Ty::Unit, false);
    let f = C::expose_fn(&d).unwrap();
    assert_eq!(f.params, vec![arg("v_some", named("bool")), arg("v", named("u32"))]);
}
