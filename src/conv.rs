//! Conversion descriptors: what a host type becomes on the foreign side.
use vstd::prelude::*;
use crate::ty::{copy_ty, models, tuple_of, Ty, TyV};

verus! {

/// How a foreign value is turned back into a host value.
#[derive(Clone, Copy, Debug, PartialEq, Eq, Structural)]
pub enum InputKind {
    /// The foreign value is the host value.
    Unchanged,
    /// The host value is rebuilt from the foreign values by the mapping trait.
    MapFrom,
    /// A foreign function pointer wrapped in a closure that converts in the inverse direction.
    Callback,
}

/// How a host value is turned into foreign values.
#[derive(Clone, Copy, Debug, PartialEq, Eq, Structural)]
pub enum OutputKind {
    Unchanged,
    MapTo,
    /// An owned object handed over as an exclusive pointer.
    ByReference,
    /// A presence flag followed by the slots of the wrapped value.
    OptionOf,
    /// An error channel followed by the slots of the success value.
    ResultOf,
}

/// Configuration errors found while generating bindings.
#[derive(Clone, Copy, Debug, PartialEq, Eq, Structural)]
pub enum CError {
    UnnamedCallbackArguments,
    DestructorReceiverArgument,
    InvalidResult,
    ExposeTraitAttrError,
}

/// A foreign value slot: its type and the suffix that names it.
#[derive(Debug, PartialEq, Eq)]
pub struct Slot {
    pub ty: Ty,
    pub suffix: String,
}

/// Mathematical model of an input descriptor.
pub struct InputV {
    pub host: TyV,
    pub kind: InputKind,
    pub sources: Seq<(TyV, Seq<char>)>,
    /// For a callback: the output descriptor of each parameter, in order.
    pub args: Seq<OutputV>,
    /// For a callback: the input descriptor of its return value.
    pub ret: Option<Box<InputV>>,
}

/// Mathematical model of an output descriptor.
pub struct OutputV {
    pub host: TyV,
    pub kind: OutputKind,
    pub slots: Seq<(TyV, Seq<char>)>,
}

/// The descriptor of a host value received from the foreign side.
#[derive(Debug, PartialEq, Eq)]
pub struct Input {
    pub host: Ty,
    pub kind: InputKind,
    pub sources: Vec<Slot>,
    /// For a callback: how the closure converts each argument before calling the pointer.
    pub args: Vec<Output>,
    /// For a callback: how the closure converts the pointer's result back.
    pub ret: Option<Box<Input>>,
}

/// The descriptor of a host value handed to the foreign side.
#[derive(Debug, PartialEq, Eq)]
pub struct Output {
    pub host: Ty,
    pub kind: OutputKind,
    pub slots: Vec<Slot>,
}

/// The models of a sequence of slots.
pub open spec fn slot_models(s: Seq<Slot>) -> Seq<(TyV, Seq<char>)> {
    Seq::new(s.len(), |i: int| (s[i].ty@, s[i].suffix@))
}

/// The models of a sequence of output descriptors.
pub open spec fn output_models(s: Seq<Output>) -> Seq<OutputV> {
    Seq::new(s.len(), |i: int| s[i]@)
}

impl Input {
    /// The mathematical model of the descriptor.
    pub open spec fn model(&self) -> InputV
        decreases self,
    {
        InputV {
            host: self.host@,
            kind: self.kind,
            sources: slot_models(self.sources@),
            args: output_models(self.args@),
            ret: match &self.ret {
                Some(b) => Some(Box::new(b.model())),
                None => None,
            },
        }
    }
}

impl View for Input {
    type V = InputV;

    open spec fn view(&self) -> InputV {
        self.model()
    }
}

/// A descriptor that is not a callback.
pub open spec fn plain_input(host: TyV, kind: InputKind, sources: Seq<(TyV, Seq<char>)>) -> InputV {
    InputV { host, kind, sources, args: Seq::empty(), ret: None }
}

/// Builds a descriptor that is not a callback.
pub fn mk_input(host: Ty, kind: InputKind, sources: Vec<Slot>) -> (r: Input)
    ensures
        r@ == plain_input(host@, kind, slot_models(sources@)),
{
    let r = Input { host, kind, sources, args: Vec::new(), ret: None };
    assert(r@.args =~= Seq::<OutputV>::empty());
    r
}

impl View for Output {
    type V = OutputV;

    open spec fn view(&self) -> OutputV {
        OutputV { host: self.host@, kind: self.kind, slots: slot_models(self.slots@) }
    }
}

/// The model of a conversion result.
pub open spec fn input_res(r: Result<Input, CError>) -> Result<InputV, CError> {
    match r {
        Ok(i) => Ok(i@),
        Err(e) => Err(e),
    }
}

/// The model of a conversion result.
pub open spec fn output_res(r: Result<Output, CError>) -> Result<OutputV, CError> {
    match r {
        Ok(o) => Ok(o@),
        Err(e) => Err(e),
    }
}

/// The types of a list of slots.
pub open spec fn slot_types(s: Seq<(TyV, Seq<char>)>) -> Seq<TyV> {
    Seq::new(s.len(), |i: int| s[i].0)
}

/// The foreign types that an output descriptor expands to.
pub open spec fn targets(o: OutputV) -> Seq<TyV> {
    slot_types(o.slots)
}

/// A plain type name without parameters.
pub open spec fn fixed(name: Seq<char>) -> TyV {
    TyV::Path(name, Seq::empty())
}

/// A value handed over as it is, in one slot.
pub open spec fn unchanged_output(t: TyV) -> OutputV {
    OutputV { host: t, kind: OutputKind::Unchanged, slots: seq![(t, Seq::empty())] }
}

/// A value received as it is, from one foreign value.
pub open spec fn unchanged_input(t: TyV) -> InputV {
    plain_input(t, InputKind::Unchanged, seq![(t, Seq::empty())])
}

/// Domain types handed to the foreign side as an owned pointer.
pub open spec fn is_by_reference_name(n: Seq<char>) -> bool {
    n == "Script"@ || n == "Network"@ || n == "MyTraitStruct"@
}

/// The flat-ABI representation of a host value returned to the foreign side.
pub open spec fn c_output(t: TyV) -> Result<OutputV, CError>
    decreases t,
{
    match t {
        TyV::Path(n, args) => {
            if args.len() == 0 {
                if n == "Self"@ {
                    Ok(OutputV {
                        host: t,
                        kind: OutputKind::ByReference,
                        slots: seq![(TyV::Ptr(true, Box::new(t)), Seq::empty())],
                    })
                } else if n == "String"@ {
                    Ok(OutputV {
                        host: t,
                        kind: OutputKind::MapTo,
                        slots: seq![(TyV::Ptr(true, Box::new(fixed("libc::c_char"@))), Seq::empty())],
                    })
                } else if n == "BitcoinError"@ {
                    Ok(OutputV {
                        host: t,
                        kind: OutputKind::MapTo,
                        slots: seq![(fixed("i32"@), Seq::empty())],
                    })
                } else if n == "Result"@ {
                    Err(CError::InvalidResult)
                } else if is_by_reference_name(n) {
                    Ok(OutputV {
                        host: t,
                        kind: OutputKind::ByReference,
                        slots: seq![(TyV::Ptr(true, Box::new(t)), Seq::empty())],
                    })
                } else {
                    Ok(unchanged_output(t))
                }
            } else if args.len() == 1 && n == "Vec"@ {
                match c_output(args[0]) {
                    Err(e) => Err(e),
                    Ok(inner) => Ok(OutputV {
                        host: t,
                        kind: OutputKind::MapTo,
                        slots: seq![
                            (TyV::Ptr(true, Box::new(tuple_of(targets(inner)))), "arr"@),
                            (fixed("usize"@), "len"@),
                        ],
                    }),
                }
            } else if args.len() == 1 && n == "Option"@ {
                match c_output(args[0]) {
                    Err(e) => Err(e),
                    Ok(inner) => Ok(OutputV {
                        host: t,
                        kind: OutputKind::OptionOf,
                        slots: seq![(fixed("bool"@), "some"@)] + inner.slots,
                    }),
                }
            } else if n == "Result"@ {
                if args.len() != 2 {
                    Err(CError::InvalidResult)
                } else {
                    match c_output(args[0]) {
                        Err(e) => Err(e),
                        Ok(ok) => match c_output(args[1]) {
                            Err(e) => Err(e),
                            Ok(err) => Ok(OutputV {
                                host: t,
                                kind: OutputKind::ResultOf,
                                slots: seq![(tuple_of(targets(err)), "err"@)] + ok.slots,
                            }),
                        },
                    }
                }
            } else {
                Ok(unchanged_output(t))
            }
        },
        _ => Ok(unchanged_output(t)),
    }
}

} // verus!

verus! {

/// The empty string literal is the empty sequence.
pub proof fn lemma_empty_str()
    ensures
        ""@ == Seq::<char>::empty(),
{
    reveal_strlit("");
    assert(""@ =~= Seq::<char>::empty());
}

/// Whether `s` reads `lit`.
pub fn name_is(s: &String, lit: &str) -> (r: bool)
    ensures
        r == (s@ == lit@),
{
    let l = String::from_str(lit);
    *s == l
}

/// Whether `ty` is the plain name `lit`, without parameters.
pub fn is_plain(ty: &Ty, lit: &str) -> (r: bool)
    ensures
        r == (ty@ == fixed(lit@)),
{
    match ty {
        Ty::Path { name, args } => {
            if args.len() == 0 && name_is(name, lit) {
                assert(ty@->Path_1 =~= Seq::<TyV>::empty());
                true
            } else {
                assert(ty@->Path_1.len() == args.len());
                false
            }
        },
        _ => false,
    }
}

/// One slot of the given type and suffix.
pub fn single_slot(ty: Ty, suffix: &str) -> (r: Vec<Slot>)
    ensures
        slot_models(r@) == seq![(ty@, suffix@)],
{
    let mut r: Vec<Slot> = Vec::new();
    r.push(Slot { ty, suffix: String::from_str(suffix) });
    assert(slot_models(r@) =~= seq![(ty@, suffix@)]);
    r
}

/// A copy of the types of the slots.
pub fn types_of(s: &Vec<Slot>) -> (r: Vec<Ty>)
    ensures
        models(r@) == slot_types(slot_models(s@)),
{
    let mut r: Vec<Ty> = Vec::new();
    let mut i: usize = 0;
    while i < s.len()
        invariant
            i <= s.len(),
            r.len() == i,
            forall|j: int| 0 <= j < i ==> (#[trigger] r@[j])@ == s@[j].ty@,
        decreases s.len() - i,
    {
        let c = copy_ty(&s[i].ty);
        r.push(c);
        i += 1;
    }
    assert(models(r@) =~= slot_types(slot_models(s@)));
    r
}

/// A list of shapes as one shape.
pub fn into_tuple(v: Vec<Ty>) -> (r: Ty)
    ensures
        r@ == tuple_of(models(v@)),
{
    let mut v = v;
    if v.len() == 0 {
        Ty::Unit
    } else if v.len() == 1 {
        let ghost m = models(v@);
        let t = v.pop().unwrap();
        assert(m[0] == t@);
        t
    } else {
        Ty::tuple(v)
    }
}

/// The slots of `rest` after a leading slot.
pub fn prepend_slot(first: Slot, rest: Vec<Slot>) -> (r: Vec<Slot>)
    ensures
        slot_models(r@) == seq![(first.ty@, first.suffix@)] + slot_models(rest@),
{
    let mut r: Vec<Slot> = Vec::new();
    r.push(first);
    let ghost head = seq![(first.ty@, first.suffix@)];
    let ghost tail = slot_models(rest@);
    let mut rest = rest;
    r.append(&mut rest);
    assert(slot_models(r@) =~= head + tail);
    r
}

} // verus!

verus! {

/// The name of a slot expanded from a parameter called `base`.
pub open spec fn slot_name(base: Seq<char>, suffix: Seq<char>) -> Seq<char> {
    if suffix.len() == 0 {
        base
    } else {
        base + "_"@ + suffix
    }
}

/// The named foreign parameters that the slots of a parameter called `base` expand to.
pub open spec fn named_slots(base: Seq<char>, slots: Seq<(TyV, Seq<char>)>) -> Seq<
    (Option<Seq<char>>, TyV),
> {
    Seq::new(slots.len(), |i: int| (Some(slot_name(base, slots[i].1)), slots[i].0))
}

/// Whether every parameter of a function-pointer shape has a name.
pub open spec fn all_named(ps: Seq<(Option<Seq<char>>, TyV)>) -> bool {
    forall|i: int| 0 <= i < ps.len() ==> (#[trigger] ps[i]).0 is Some
}

/// The foreign parameters of a callback: each parameter converted as an output,
/// in order, every slot named after its parameter.
pub open spec fn callback_params(ps: Seq<(Option<Seq<char>>, TyV)>) -> Result<
    Seq<(Option<Seq<char>>, TyV)>,
    CError,
>
    decreases ps.len(),
{
    if ps.len() == 0 {
        Ok(Seq::empty())
    } else {
        match callback_params(ps.drop_last()) {
            Err(e) => Err(e),
            Ok(pre) => match c_output(ps.last().1) {
                Err(e) => Err(e),
                Ok(o) => Ok(pre + named_slots(ps.last().0->Some_0, o.slots)),
            },
        }
    }
}

/// The output descriptor of each callback parameter.
pub open spec fn callback_outputs(ps: Seq<(Option<Seq<char>>, TyV)>) -> Seq<OutputV> {
    Seq::new(ps.len(), |i: int| c_output(ps[i].1)->Ok_0)
}

/// The flat-ABI representation of a host value received from the foreign side.
pub open spec fn c_input(t: TyV) -> Result<InputV, CError>
    decreases t,
{
    match t {
        TyV::Path(n, args) => {
            if args.len() == 0 && n == "String"@ {
                Ok(InputV {
                    host: t,
                    kind: InputKind::MapFrom,
                    args: Seq::empty(),
                    ret: None,
                    sources: seq![(TyV::Ptr(false, Box::new(fixed("libc::c_char"@))), Seq::empty())],
                })
            } else if args.len() == 1 && n == "Vec"@ {
                match c_input(args[0]) {
                    Err(e) => Err(e),
                    Ok(inner) => Ok(InputV {
                        host: t,
                        kind: InputKind::MapFrom,
                        args: Seq::empty(),
                        ret: None,
                        sources: seq![
                            (TyV::Ptr(false, Box::new(tuple_of(slot_types(inner.sources)))), "arr"@),
                            (fixed("usize"@), "len"@),
                        ],
                    }),
                }
            } else if args.len() == 1 && n == "Option"@ {
                match c_input(args[0]) {
                    Err(e) => Err(e),
                    Ok(inner) => Ok(InputV {
                        host: t,
                        kind: InputKind::MapFrom,
                        args: Seq::empty(),
                        ret: None,
                        sources: seq![(fixed("bool"@), "some"@)] + inner.sources,
                    }),
                }
            } else if args.len() == 1 && n == "Destroy"@ {
                match c_input(args[0]) {
                    Err(e) => Err(e),
                    Ok(inner) => Ok(InputV {
                        host: t,
                        kind: InputKind::MapFrom,
                        args: Seq::empty(),
                        ret: None,
                        sources: seq![
                            (TyV::Ptr(true, Box::new(tuple_of(slot_types(inner.sources)))), Seq::empty()),
                        ],
                    }),
                }
            } else {
                Ok(unchanged_input(t))
            }
        },
        TyV::BareFn(ps, ret) => {
            if !all_named(ps) {
                Err(CError::UnnamedCallbackArguments)
            } else {
                match callback_params(ps) {
                    Err(e) => Err(e),
                    Ok(np) => match c_input(*ret) {
                        Err(e) => Err(e),
                        Ok(ri) => Ok(InputV {
                            host: t,
                            kind: InputKind::Callback,
                            args: callback_outputs(ps),
                            ret: Some(Box::new(ri)),
                            sources: seq![
                                (TyV::BareFn(np, Box::new(tuple_of(slot_types(ri.sources)))), Seq::empty()),
                            ],
                        }),
                    },
                }
            }
        },
        _ => Ok(unchanged_input(t)),
    }
}

} // verus!

verus! {

/// A foreign target with its own conversion rules.
#[derive(Clone, Copy, Debug, PartialEq, Eq, Structural)]
pub enum Target {
    /// A flat, unmanaged ABI.
    C,
    /// A managed runtime's native interface.
    Java,
}

/// The managed-interface representation of a host value received from the foreign side.
pub open spec fn java_input(t: TyV) -> InputV {
    if t == fixed("u32"@) {
        plain_input(t, InputKind::MapFrom, seq![(fixed("jint"@), Seq::empty())])
    } else if t == fixed("String"@) {
        plain_input(t, InputKind::MapFrom, seq![(fixed("JString"@), Seq::empty())])
    } else {
        unchanged_input(t)
    }
}

/// The managed-interface representation of a host value returned to the foreign side.
pub open spec fn java_output(t: TyV) -> OutputV {
    if t == fixed("u32"@) {
        OutputV { host: t, kind: OutputKind::MapTo, slots: seq![(fixed("jint"@), Seq::empty())] }
    } else if t == fixed("String"@) {
        OutputV { host: t, kind: OutputKind::MapTo, slots: seq![(fixed("JString"@), Seq::empty())] }
    } else {
        unchanged_output(t)
    }
}

/// The input rule of `target`.
pub open spec fn input_rule(target: Target, t: TyV) -> Result<InputV, CError> {
    match target {
        Target::C => c_input(t),
        Target::Java => Ok(java_input(t)),
    }
}

/// The output rule of `target`.
pub open spec fn output_rule(target: Target, t: TyV) -> Result<OutputV, CError> {
    match target {
        Target::C => c_output(t),
        Target::Java => Ok(java_output(t)),
    }
}

} // verus!
