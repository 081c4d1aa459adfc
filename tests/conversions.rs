use ffi_expose::c::C;
use ffi_expose::conv::{CError, InputKind, OutputKind};
use ffi_expose::java::{Java, JavaError};
use ffi_expose::conv::Slot;
use ffi_expose::ty::{copy_ty, FnArg, Ty};

fn named(n: &str) -> Ty {
    Ty::Path { name: n.to_string(), args: vec![] }
}

fn generic(n: &str, args: Vec<Ty>) -> Ty {
    Ty::Path { name: n.to_string(), args }
}

fn ptr(mutable: bool, t: Ty) -> Ty {
    Ty::Ptr { mutable, target: Box::new(t) }
}

fn tys(s: &[Slot]) -> Vec<Ty> {
    s.iter().map(|x| copy_ty(&x.ty)).collect()
}

fn arg(name: &str, ty: Ty) -> FnArg {
    FnArg { name: Some(name.to_string()), ty }
}

#[test]
fn string_input_is_const_char_pointer() {
    let i = C::convert_input(&named("String")).unwrap();
    assert_eq!(i.kind, InputKind::MapFrom);
    assert_eq!(tys(&i.sources), vec![ptr(false, named("libc::c_char"))]);
    assert_eq!(i.host, named("String"));
}

#[test]
fn string_output_is_mut_char_pointer() {
    let o = C::convert_output(&named("String")).unwrap();
    assert_eq!(o.kind, OutputKind::MapTo);
    assert_eq!(o.slots.len(), 1);
    assert_eq!(o.slots[0].ty, ptr(true, named("libc::c_char")));
}

#[test]
fn unrecognized_shape_passes_through() {
    let i = C::convert_input(&named("u32")).unwrap();
    assert_eq!(i.kind, InputKind::Unchanged);
    assert_eq!(tys(&i.sources), vec![named("u32")]);
    let other = Ty::Other { text: "&str".to_string() };
    let o = C::convert_output(&other).unwrap();
    assert_eq!(o.kind, OutputKind::Unchanged);
    assert_eq!(o.slots[0].ty, other);
    assert_eq!(o.slots[0].suffix, "");
}

#[test]
fn vec_input_is_pointer_and_count() {
    let i = C::convert_input(&generic("Vec", vec![named("String")])).unwrap();
    assert_eq!(i.kind, InputKind::MapFrom);
    assert_eq!(tys(&i.sources),
        vec![ptr(false, ptr(false, named("libc::c_char"))), named("usize")]
    );
}

#[test]
fn vec_output_is_pointer_and_count() {
    let o = C::convert_output(&generic("Vec", vec![named("u8")])).unwrap();
    assert_eq!(o.kind, OutputKind::MapTo);
    assert_eq!(o.slots.len(), 2);
    assert_eq!(o.slots[0].ty, ptr(true, named("u8")));
    assert_eq!(o.slots[0].suffix, "arr");
    assert_eq!(o.slots[1].ty, named("usize"));
    assert_eq!(o.slots[1].suffix, "len");
}

#[test]
fn nested_vec_output_keeps_two_slots() {
    let o = C::convert_output(&generic("Vec", vec![generic("Vec", vec![named("u8")])])).unwrap();
    assert_eq!(o.slots.len(), 2);
    assert_eq!(
        o.slots[0].ty,
        ptr(true, Ty::Tuple { elems: vec![ptr(true, named("u8")), named("usize")] })
    );
}

#[test]
fn option_output_is_flag_and_inner_slots() {
    let o = C::convert_output(&generic("Option", vec![named("String")])).unwrap();
    assert_eq!(o.kind, OutputKind::OptionOf);
    assert_eq!(o.slots.len(), 2);
    assert_eq!(o.slots[0].ty, named("bool"));
    assert_eq!(o.slots[0].suffix, "some");
    assert_eq!(o.slots[1].ty, ptr(true, named("libc::c_char")));
    let v = C::convert_output(&generic("Option", vec![generic("Vec", vec![named("u8")])])).unwrap();
    assert_eq!(v.slots.len(), 3);
}

#[test]
fn result_output_puts_error_channel_first() {
    let t = generic("Result", vec![named("Script"), named("BitcoinError")]);
    let o = C::convert_output(&t).unwrap();
    assert_eq!(o.kind, OutputKind::ResultOf);
    assert_eq!(o.slots.len(), 2);
    assert_eq!(o.slots[0].ty, named("i32"));
    assert_eq!(o.slots[0].suffix, "err");
    assert_eq!(o.slots[1].ty, ptr(true, named("Script")));
}

#[test]
fn result_with_wrong_arity_is_refused() {
    let t = generic("Result", vec![named("u32")]);
    assert_eq!(C::convert_output(&t).unwrap_err(), CError::InvalidResult);
    let t = generic("Result", vec![named("u32"), named("u8"), named("u16")]);
    assert_eq!(C::convert_output(&t).unwrap_err(), CError::InvalidResult);
    let nested = generic("Vec", vec![t]);
    assert_eq!(C::convert_output(&nested).unwrap_err(), CError::InvalidResult);
}

#[test]
fn domain_types_map_to_codes_or_references() {
    let e = C::convert_output(&named("BitcoinError")).unwrap();
    assert_eq!(e.kind, OutputKind::MapTo);
    assert_eq!(e.slots[0].ty, named("i32"));
    for n in ["Script", "Network", "MyTraitStruct", "Self"] {
        let o = C::convert_output(&named(n)).unwrap();
        assert_eq!(o.kind, OutputKind::ByReference);
        assert_eq!(o.slots[0].ty, ptr(true, named(n)));
    }
}

#[test]
fn destroy_input_is_exclusive_pointer() {
    let i = C::convert_input(&generic("Destroy", vec![named("Script")])).unwrap();
    assert_eq!(tys(&i.sources), vec![ptr(true, named("Script"))]);
}

#[test]
fn callback_with_unnamed_argument_is_refused() {
    let f = Ty::BareFn {
        params: vec![arg("a", named("u32")), FnArg { name: None, ty: named("u8") }],
        ret: Box::new(Ty::Unit),
    };
    assert_eq!(C::convert_input(&f).unwrap_err(), CError::UnnamedCallbackArguments);
}

#[test]
fn callback_converts_arguments_as_outputs() {
    let f = Ty::BareFn {
        params: vec![arg("data", generic("Vec", vec![named("u8")])), arg("n", named("u32"))],
        ret: Box::new(named("String")),
    };
    let i = C::convert_input(&f).unwrap();
    assert_eq!(i.kind, InputKind::Callback);
    let expected = Ty::BareFn {
        params: vec![
            arg("data_arr", ptr(true, named("u8"))),
            arg("data_len", named("usize")),
            arg("n", named("u32")),
        ],
        ret: Box::new(ptr(false, named("libc::c_char"))),
    };
    assert_eq!(tys(&i.sources), vec![expected]);
    assert_eq!(i.args.len(), 2);
    assert_eq!(i.args[0].kind, OutputKind::MapTo);
    assert_eq!(i.args[0].slots.len(), 2);
    assert_eq!(i.args[1].kind, OutputKind::Unchanged);
    let ret = i.ret.as_ref().unwrap();
    assert_eq!(ret.kind, InputKind::MapFrom);
    assert_eq!(ret.host, named("String"));
    let plain = C::convert_input(&named("String")).unwrap();
    assert!(plain.args.is_empty());
    assert!(plain.ret.is_none());
}

#[test]
fn conversion_is_deterministic() {
    let t = generic("Option", vec![generic("Vec", vec![named("String")])]);
    let u = generic("Option", vec![generic("Vec", vec![named("String")])]);
    assert_eq!(C::convert_output(&t), C::convert_output(&u));
    assert_eq!(C::convert_input(&t), C::convert_input(&u));
    assert_eq!(Java::convert_input(&t), Java::convert_input(&u));
}

#[test]
fn java_maps_u32_to_jint() {
    let i = Java::convert_input(&named("u32")).unwrap();
    assert_eq!(i.kind, InputKind::MapFrom);
    assert_eq!(tys(&i.sources), vec![named("jint")]);
    let o = Java::convert_output(&named("u32")).unwrap();
    assert_eq!(o.kind, OutputKind::MapTo);
    assert_eq!(o.slots[0].ty, named("jint"));
    let s = Java::convert_input(&named("String")).unwrap();
    assert_eq!(s.kind, InputKind::MapFrom);
    assert_eq!(tys(&s.sources), vec![named("JString")]);
    let so = Java::convert_output(&named("String")).unwrap();
    assert_eq!(so.kind, OutputKind::MapTo);
    assert_eq!(so.slots[0].ty, named("JString"));
    let other = Java::convert_input(&named("u8")).unwrap();
    assert_eq!(other.kind, InputKind::Unchanged);
}

#[test]
fn java_error_from_conversion_error() {
    assert_eq!(JavaError::from(CError::InvalidResult), JavaError::Lang(CError::InvalidResult));
}

#[test]
fn option_input_is_flag_and_inner_sources() {
    let i = C::convert_input(&generic("Option", vec![named("String")])).unwrap();
    assert_eq!(i.kind, InputKind::MapFrom);
    assert_eq!(tys(&i.sources), vec![named("bool"), ptr(false, named("libc::c_char"))]);
    assert_eq!(i.sources[0].suffix, "some");
    let v = C::convert_input(&generic("Option", vec![generic("Vec", vec![named("u8")])])).unwrap();
    assert_eq!(tys(&v.sources), vec![named("bool"), ptr(false, named("u8")), named("usize")]);
    let suffixes: Vec<&str> = v.sources.iter().map(|x| x.suffix.as_str()).collect();
    assert_eq!(suffixes, vec!["some", "arr", "len"]);
}

#[test]
fn bare_result_output_is_refused() {
    assert_eq!(C::convert_output(&named("Result")).unwrap_err(), CError::InvalidResult);
}
