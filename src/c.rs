//! Conversion rules and declaration exposition for the flat-ABI target.
use vstd::prelude::*;
use crate::conv::{
    lemma_empty_str, mk_input, callback_outputs, output_models, all_named, c_input, callback_params, input_res, named_slots, slot_name, unchanged_input,
    Input, InputKind, c_output, is_by_reference_name, name_is, output_res, prepend_slot, single_slot, slot_models,
    targets, types_of, into_tuple, unchanged_output, CError, Output, OutputKind, Slot,
};
use crate::ty::{copy_ty, models, param_models, tuple_of, FnArg, Ty, TyV};

verus! {

/// The flat-ABI target: plain unmanaged calls, unmangled names.
#[derive(Debug)]
pub struct C;

fn pointer_to(mutable: bool, t: Ty) -> (r: Ty)
    ensures
        r@ == TyV::Ptr(mutable, Box::new(t@)),
{
    Ty::Ptr { mutable, target: Box::new(t) }
}

fn unchanged_out(ty: &Ty) -> (r: Output)
    ensures
        r@ == unchanged_output(ty@),
{
    proof {
        lemma_empty_str();
    }
    let slots = single_slot(copy_ty(ty), "");
    Output { host: copy_ty(ty), kind: OutputKind::Unchanged, slots }
}

fn unchanged_in(ty: &Ty) -> (r: Input)
    ensures
        r@ == unchanged_input(ty@),
{
    proof {
        lemma_empty_str();
    }
    let sources = single_slot(copy_ty(ty), "");
    mk_input(copy_ty(ty), InputKind::Unchanged, sources)
}

/// The named foreign parameters for the slots of a parameter called `base`.
pub(crate) fn expand_named(base: &String, slots: &Vec<Slot>) -> (r: Vec<FnArg>)
    ensures
        param_models(r@) == named_slots(base@, slot_models(slots@)),
{
    proof {
        lemma_empty_str();
    }
    let mut r: Vec<FnArg> = Vec::new();
    let mut i: usize = 0;
    while i < slots.len()
        invariant
            i <= slots.len(),
            r.len() == i,
            ""@ == Seq::<char>::empty(),
            forall|j: int|
                0 <= j < i ==> (#[trigger] r@[j]).ty@ == slots@[j].ty@ && r@[j].name is Some
                    && r@[j].name->Some_0@ == slot_name(base@, slots@[j].suffix@),
        decreases slots.len() - i,
    {
        let suffix = &slots[i].suffix;
        let name = if name_is(suffix, "") {
            base.clone()
        } else {
            assert(suffix@.len() != 0) by {
                if suffix@.len() == 0 {
                    assert(suffix@ =~= Seq::<char>::empty());
                }
            }
            base.clone().concat("_").concat(suffix.as_str())
        };
        r.push(FnArg { name: Some(name), ty: copy_ty(&slots[i].ty) });
        i += 1;
    }
    assert(param_models(r@) =~= named_slots(base@, slot_models(slots@)));
    r
}

/// The foreign parameters of a callback whose parameters are all named.
fn callback_args(params: &Vec<FnArg>) -> (r: Result<(Vec<FnArg>, Vec<Output>), CError>)
    requires
        all_named(param_models(params@)),
    ensures
        match (r, callback_params(param_models(params@))) {
            (Ok(v), Ok(w)) => param_models(v.0@) == w && output_models(v.1@) == callback_outputs(
                param_models(params@),
            ),
            (Err(e), Err(f)) => e == f,
            _ => false,
        },
{
    let ghost ps = param_models(params@);
    let mut outs: Vec<Output> = Vec::new();
    let mut out: Vec<FnArg> = Vec::new();
    let mut i: usize = 0;
    assert(ps.take(0) =~= Seq::empty());
    assert(param_models(out@) =~= Seq::empty());
    while i < params.len()
        invariant
            i <= params.len(),
            ps == param_models(params@),
            all_named(ps),
            callback_params(ps.take(i as int)) == Ok::<_, CError>(param_models(out@)),
            outs.len() == i,
            forall|j: int| 0 <= j < i ==> Ok::<_, CError>((#[trigger] outs@[j])@) == c_output(ps[j].1),
        decreases params.len() - i,
    {
        assert(ps.take(i + 1).drop_last() =~= ps.take(i as int));
        assert(ps[i as int].0 is Some);
        match &params[i].name {
            None => {
                return Err(CError::UnnamedCallbackArguments);
            },
            Some(base) => {
                match C::convert_output(&params[i].ty) {
                    Err(e) => {
                        assert(ps.take(i + 1).last() == ps[i as int]);
                        assert(callback_params(ps.take(i + 1)) == Err::<Seq<(Option<Seq<char>>, TyV)>, CError>(e));
                        let k = i + 1;
                        proof {
                            lemma_callback_prefix_err(ps, k as int, e);
                        }
                        return Err(e);
                    },
                    Ok(o) => {
                        let mut more = expand_named(base, &o.slots);
                        let ghost a = param_models(out@);
                        let ghost b = param_models(more@);
                        out.append(&mut more);
                        assert(param_models(out@) =~= a + b);
                        assert(ps.take(i + 1).last() == ps[i as int]);
                        outs.push(o);
                    },
                }
            },
        }
        i += 1;
    }
    assert(ps.take(params.len() as int) =~= ps);
    assert(output_models(outs@) =~= callback_outputs(ps)) by {
        assert forall|j: int| 0 <= j < ps.len() implies output_models(outs@)[j] == callback_outputs(ps)[j] by {
            assert(Ok::<_, CError>(outs@[j]@) == c_output(ps[j].1));
        }
    }
    Ok((out, outs))
}

/// An error on a prefix of the parameters is the error of the whole list.
proof fn lemma_callback_prefix_err(ps: Seq<(Option<Seq<char>>, TyV)>, k: int, e: CError)
    requires
        0 <= k <= ps.len(),
        callback_params(ps.take(k)) == Err::<Seq<(Option<Seq<char>>, TyV)>, CError>(e),
    ensures
        callback_params(ps) == Err::<Seq<(Option<Seq<char>>, TyV)>, CError>(e),
    decreases ps.len() - k,
{
    if k < ps.len() {
        assert(ps.take(k + 1).drop_last() =~= ps.take(k));
        lemma_callback_prefix_err(ps, k + 1, e);
    } else {
        assert(ps.take(k) =~= ps);
    }
}

impl C {
    /// Decides how a host value of type `ty` is received from the foreign side.
    pub fn convert_input(ty: &Ty) -> (r: Result<Input, CError>)
        ensures
            input_res(r) == c_input(ty@),
        decreases ty,
    {
        proof {
            lemma_empty_str();
        }
        match ty {
            Ty::Path { name, args } => {
                assert(ty@->Path_1.len() == args.len());
                if args.len() == 0 && name_is(name, "String") {
                    let sources = single_slot(pointer_to(false, Ty::named("libc::c_char")), "");
                    Ok(mk_input(copy_ty(ty), InputKind::MapFrom, sources))
                } else if args.len() == 1 && (name_is(name, "Vec") || name_is(name, "Option") || name_is(
                    name,
                    "Destroy",
                )) {
                    let is_vec = name_is(name, "Vec");
                    let is_option = name_is(name, "Option");
                    proof {
                        assert(decreases_to!(args => args@[0]));
                        assert(ty@->Path_1[0] == args@[0]@);
                    }
                    match C::convert_input(&args[0]) {
                        Err(e) => Err(e),
                        Ok(inner) => {
                            let sources = if is_vec {
                                let elem = into_tuple(types_of(&inner.sources));
                                let mut s = single_slot(pointer_to(false, elem), "arr");
                                let mut len = single_slot(Ty::named("usize"), "len");
                                let ghost a = slot_models(s@);
                                let ghost b = slot_models(len@);
                                s.append(&mut len);
                                assert(slot_models(s@) =~= a + b);
                                s
                            } else if is_option {
                                let flag = Slot { ty: Ty::named("bool"), suffix: String::from_str("some") };
                                prepend_slot(flag, inner.sources)
                            } else {
                                let elem = into_tuple(types_of(&inner.sources));
                                single_slot(pointer_to(true, elem), "")
                            };
                            let r = mk_input(copy_ty(ty), InputKind::MapFrom, sources);
                            assert(r@.sources =~= c_input(ty@)->Ok_0.sources);
                            Ok(r)
                        },
                    }
                } else {
                    Ok(unchanged_in(ty))
                }
            },
            Ty::BareFn { params, ret } => {
                assert(ty@->BareFn_0 =~= param_models(params@));
                let mut i: usize = 0;
                while i < params.len()
                    invariant
                        i <= params.len(),
                        ty@->BareFn_0 == param_models(params@),
                        ty@ is BareFn,
                        forall|j: int| 0 <= j < i ==> (#[trigger] params@[j]).name is Some,
                    decreases params.len() - i,
                {
                    if params[i].name.is_none() {
                        assert(param_models(params@)[i as int].0 is None);
                        assert(!all_named(param_models(params@)));
                        return Err(CError::UnnamedCallbackArguments);
                    }
                    i += 1;
                }
                assert(all_named(param_models(params@)));
                match callback_args(params) {
                    Err(e) => Err(e),
                    Ok((np, outs)) => match C::convert_input(ret) {
                        Err(e) => Err(e),
                        Ok(ri) => {
                            let f = Ty::bare_fn(np, into_tuple(types_of(&ri.sources)));
                            let sources = single_slot(f, "");
                            let r = Input {
                                host: copy_ty(ty),
                                kind: InputKind::Callback,
                                sources,
                                args: outs,
                                ret: Some(Box::new(ri)),
                            };
                            assert(r@ == c_input(ty@)->Ok_0);
                            Ok(r)
                        },
                    },
                }
            },
            _ => Ok(unchanged_in(ty)),
        }
    }

    /// Decides how a host value of type `ty` is handed to the foreign side.
    pub fn convert_output(ty: &Ty) -> (r: Result<Output, CError>)
        ensures
            output_res(r) == c_output(ty@),
        decreases ty,
    {
        proof {
            lemma_empty_str();
        }
        match ty {
            Ty::Path { name, args } => {
                assert(ty@->Path_1.len() == args.len());
                if args.len() == 0 {
                    if name_is(name, "Self") {
                        let slots = single_slot(pointer_to(true, copy_ty(ty)), "");
                        Ok(Output { host: copy_ty(ty), kind: OutputKind::ByReference, slots })
                    } else if name_is(name, "String") {
                        let slots = single_slot(pointer_to(true, Ty::named("libc::c_char")), "");
                        Ok(Output { host: copy_ty(ty), kind: OutputKind::MapTo, slots })
                    } else if name_is(name, "BitcoinError") {
                        let slots = single_slot(Ty::named("i32"), "");
                        Ok(Output { host: copy_ty(ty), kind: OutputKind::MapTo, slots })
                    } else if name_is(name, "Result") {
                        Err(CError::InvalidResult)
                    } else if name_is(name, "Script") || name_is(name, "Network") || name_is(
                        name,
                        "MyTraitStruct",
                    ) {
                        let slots = single_slot(pointer_to(true, copy_ty(ty)), "");
                        Ok(Output { host: copy_ty(ty), kind: OutputKind::ByReference, slots })
                    } else {
                        Ok(unchanged_out(ty))
                    }
                } else if args.len() == 1 && name_is(name, "Vec") {
                    proof {
                        assert(decreases_to!(args => args@[0]));
                        assert(ty@->Path_1[0] == args@[0]@);
                    }
                    match C::convert_output(&args[0]) {
                        Err(e) => Err(e),
                        Ok(inner) => {
                            let arr = pointer_to(true, into_tuple(types_of(&inner.slots)));
                            let mut slots = single_slot(arr, "arr");
                            let mut len = single_slot(Ty::named("usize"), "len");
                            let ghost a = slot_models(slots@);
                            let ghost b = slot_models(len@);
                            slots.append(&mut len);
                            assert(slot_models(slots@) =~= a + b);
                            let r = Output { host: copy_ty(ty), kind: OutputKind::MapTo, slots };
                            assert(r@.slots =~= c_output(ty@)->Ok_0.slots);
                            Ok(r)
                        },
                    }
                } else if args.len() == 1 && name_is(name, "Option") {
                    proof {
                        assert(decreases_to!(args => args@[0]));
                        assert(ty@->Path_1[0] == args@[0]@);
                    }
                    match C::convert_output(&args[0]) {
                        Err(e) => Err(e),
                        Ok(inner) => {
                            let flag = Slot { ty: Ty::named("bool"), suffix: String::from_str("some") };
                            let slots = prepend_slot(flag, inner.slots);
                            Ok(Output { host: copy_ty(ty), kind: OutputKind::OptionOf, slots })
                        },
                    }
                } else if name_is(name, "Result") {
                    if args.len() != 2 {
                        Err(CError::InvalidResult)
                    } else {
                        proof {
                            assert(decreases_to!(args => args@[0]));
                            assert(decreases_to!(args => args@[1]));
                            assert(ty@->Path_1[0] == args@[0]@);
                            assert(ty@->Path_1[1] == args@[1]@);
                        }
                        match C::convert_output(&args[0]) {
                            Err(e) => Err(e),
                            Ok(ok) => match C::convert_output(&args[1]) {
                                Err(e) => Err(e),
                                Ok(err) => {
                                    let code = into_tuple(types_of(&err.slots));
                                    let first = Slot { ty: code, suffix: String::from_str("err") };
                                    let slots = prepend_slot(first, ok.slots);
                                    Ok(Output { host: copy_ty(ty), kind: OutputKind::ResultOf, slots })
                                },
                            },
                        }
                    }
                } else {
                    Ok(unchanged_out(ty))
                }
            },
            _ => Ok(unchanged_out(ty)),
        }
    }
}

} // verus!
