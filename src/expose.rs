//! Function exposition: foreign signatures and wrapper plans for declarations.
use vstd::prelude::*;
use crate::conv::{c_input, c_output, input_rule, output_rule, input_res, output_res, Target, named_slots, slot_name, CError, InputV, OutputKind, OutputV, Slot, Input, Output, slot_models, name_is, lemma_empty_str};
use crate::c::{expand_named, C};

use crate::ty::{copy_ty, models, param_models, FnArg, Ty, TyV};

verus! {

/// The return type that a foreign entry point declares for output `o`.
pub open spec fn return_type(o: OutputV) -> TyV {
    if o.kind == OutputKind::ResultOf || o.kind == OutputKind::OptionOf {
        o.slots[0].0
    } else if o.kind == OutputKind::ByReference || o.slots.len() != 1 {
        TyV::Unit
    } else {
        o.slots[0].0
    }
}

/// The slots of output `o` that travel through out-parameters.
pub open spec fn out_slots(o: OutputV) -> Seq<(TyV, Seq<char>)> {
    if o.kind == OutputKind::ResultOf || o.kind == OutputKind::OptionOf {
        o.slots.drop_first()
    } else if o.kind == OutputKind::ByReference || o.slots.len() != 1 {
        o.slots
    } else {
        Seq::empty()
    }
}

/// The out-parameters appended to a foreign signature for output `o`:
/// one exclusive pointer per slot that does not fit the return value.
pub open spec fn out_params(o: OutputV) -> Seq<(Option<Seq<char>>, TyV)> {
    let s = out_slots(o);
    Seq::new(
        s.len(),
        |i: int| (Some(slot_name("__ptr_out"@, s[i].1)), TyV::Ptr(true, Box::new(s[i].0))),
    )
}

/// The return type and out-parameters of a foreign entry point.
#[derive(Debug, PartialEq, Eq)]
pub struct ExpandedReturn {
    pub ret: Ty,
    pub extra: Vec<FnArg>,
}

fn out_param_list(slots: &Vec<Slot>, from: usize) -> (r: Vec<FnArg>)
    requires
        from <= slots.len(),
    ensures
        param_models(r@) == Seq::new(
            (slots.len() - from) as nat,
            |i: int|
                (
                    Some(slot_name("__ptr_out"@, slots@[i + from].suffix@)),
                    TyV::Ptr(true, Box::new(slots@[i + from].ty@)),
                ),
        ),
{
    proof {
        lemma_empty_str();
    }
    let mut r: Vec<FnArg> = Vec::new();
    let mut i: usize = from;
    while i < slots.len()
        invariant
            from <= i <= slots.len(),
            r.len() == i - from,
            ""@ == Seq::<char>::empty(),
            forall|j: int|
                0 <= j < i - from ==> (#[trigger] r@[j]).ty@ == TyV::Ptr(
                    true,
                    Box::new(slots@[j + from].ty@),
                ) && r@[j].name is Some && r@[j].name->Some_0@ == slot_name(
                    "__ptr_out"@,
                    slots@[j + from].suffix@,
                ),
        decreases slots.len() - i,
    {
        let suffix = &slots[i].suffix;
        let name = if name_is(suffix, "") {
            String::from_str("__ptr_out")
        } else {
            assert(suffix@.len() != 0) by {
                if suffix@.len() == 0 {
                    assert(suffix@ =~= Seq::<char>::empty());
                }
            }
            String::from_str("__ptr_out").concat("_").concat(suffix.as_str())
        };
        let t = Ty::Ptr { mutable: true, target: Box::new(copy_ty(&slots[i].ty)) };
        r.push(FnArg { name: Some(name), ty: t });
        i += 1;
    }
    let ghost want = Seq::new(
        (slots.len() - from) as nat,
        |i: int|
            (
                Some(slot_name("__ptr_out"@, slots@[i + from].suffix@)),
                TyV::Ptr(true, Box::new(slots@[i + from].ty@)),
            ),
    );
    assert(param_models(r@) =~= want);
    r
}

} // verus!

verus! {

/// A parameter of a declared function: the receiver, or a named typed parameter.
#[derive(Debug, PartialEq, Eq)]
pub enum Param {
    Receiver,
    Typed { name: String, ty: Ty },
}

/// A function declaration handed to the generator.
#[derive(Debug, PartialEq, Eq)]
pub struct FnDecl {
    pub name: String,
    pub params: Vec<Param>,
    pub ret: Ty,
    /// Marked as a destructor: every parameter transfers ownership into the call.
    pub destructor: bool,
}

/// A function rewritten into a foreign entry point: its foreign signature and the
/// conversions its wrapper performs around one call of the original body.
#[derive(Debug, PartialEq, Eq)]
pub struct ExposedFn {
    pub name: String,
    pub params: Vec<FnArg>,
    pub ret: Ty,
    pub inputs: Vec<Input>,
    pub output: Output,
}

/// Mathematical model of a function declaration; a `None` parameter is the receiver.
pub struct FnDeclV {
    pub name: Seq<char>,
    pub params: Seq<Option<(Seq<char>, TyV)>>,
    pub ret: TyV,
    pub destructor: bool,
}

/// Mathematical model of an exposed function.
pub struct ExposedFnV {
    pub name: Seq<char>,
    pub params: Seq<(Option<Seq<char>>, TyV)>,
    pub ret: TyV,
    pub inputs: Seq<InputV>,
    pub output: OutputV,
}

impl View for Param {
    type V = Option<(Seq<char>, TyV)>;

    open spec fn view(&self) -> Option<(Seq<char>, TyV)> {
        match self {
            Param::Receiver => None,
            Param::Typed { name, ty } => Some((name@, ty@)),
        }
    }
}

/// The models of a sequence of input descriptors.
pub open spec fn input_models(s: Seq<Input>) -> Seq<InputV> {
    Seq::new(s.len(), |i: int| s[i]@)
}

impl View for FnDecl {
    type V = FnDeclV;

    open spec fn view(&self) -> FnDeclV {
        FnDeclV {
            name: self.name@,
            params: Seq::new(self.params.len() as nat, |i: int| self.params@[i]@),
            ret: self.ret@,
            destructor: self.destructor,
        }
    }
}

impl View for ExposedFn {
    type V = ExposedFnV;

    open spec fn view(&self) -> ExposedFnV {
        ExposedFnV {
            name: self.name@,
            params: param_models(self.params@),
            ret: self.ret@,
            inputs: input_models(self.inputs@),
            output: self.output@,
        }
    }
}

/// The model of an exposition result.
pub open spec fn exposed_res(r: Result<ExposedFn, CError>) -> Result<ExposedFnV, CError> {
    match r {
        Ok(f) => Ok(f@),
        Err(e) => Err(e),
    }
}

/// The type a receiver stands for at the boundary: an exclusive pointer to the structure.
pub open spec fn receiver_type() -> TyV {
    TyV::Ptr(true, Box::new(TyV::Path("Self"@, Seq::empty())))
}

/// The host-side parameter list after destructor wrapping.
pub open spec fn host_params(ps: Seq<Option<(Seq<char>, TyV)>>, destructor: bool) -> Seq<
    (Seq<char>, TyV),
> {
    Seq::new(
        ps.len(),
        |i: int|
            match ps[i] {
                None => ("this"@, receiver_type()),
                Some(p) => if destructor {
                    (p.0, TyV::Path("Destroy"@, seq![p.1]))
                } else {
                    p
                },
            },
    )
}

/// The input descriptors and foreign parameters of a host parameter list.
pub open spec fn foreign_params(target: Target, hp: Seq<(Seq<char>, TyV)>) -> Result<
    (Seq<InputV>, Seq<(Option<Seq<char>>, TyV)>),
    CError,
>
    decreases hp.len(),
{
    if hp.len() == 0 {
        Ok((Seq::empty(), Seq::empty()))
    } else {
        match foreign_params(target, hp.drop_last()) {
            Err(e) => Err(e),
            Ok(pre) => match input_rule(target, hp.last().1) {
                Err(e) => Err(e),
                Ok(inp) => Ok(
                    (
                        pre.0.push(inp),
                        pre.1 + named_slots(hp.last().0, inp.sources),
                    ),
                ),
            },
        }
    }
}

/// Whether some parameter is the receiver.
pub open spec fn has_receiver(ps: Seq<Option<(Seq<char>, TyV)>>) -> bool {
    exists|i: int| 0 <= i < ps.len() && (#[trigger] ps[i]) is None
}

/// The declaration `d` exported under another name.
pub open spec fn with_name(d: FnDeclV, name: Seq<char>) -> FnDeclV {
    FnDeclV { name, params: d.params, ret: d.ret, destructor: d.destructor }
}

/// Whether the target honours the destructor mark of `d`.
pub open spec fn wraps_destroy(target: Target, d: FnDeclV) -> bool {
    target == Target::C && d.destructor
}

/// The flat-ABI exposition of a function declaration.
pub open spec fn c_expose_fn(d: FnDeclV) -> Result<ExposedFnV, CError> {
    expose_rule(Target::C, d)
}

/// The exposition of a function declaration under the rules of `target`.
pub open spec fn expose_rule(target: Target, d: FnDeclV) -> Result<ExposedFnV, CError> {
    if wraps_destroy(target, d) && has_receiver(d.params) {
        Err(CError::DestructorReceiverArgument)
    } else {
        match foreign_params(target, host_params(d.params, wraps_destroy(target, d))) {
            Err(e) => Err(e),
            Ok(fp) => match output_rule(target, d.ret) {
                Err(e) => Err(e),
                Ok(o) => Ok(
                    ExposedFnV {
                        name: d.name,
                        params: fp.1 + out_params(o),
                        ret: return_type(o),
                        inputs: fp.0,
                        output: o,
                    },
                ),
            },
        }
    }
}

} // verus!

verus! {

/// Every output descriptor occupies at least one slot.
pub proof fn lemma_output_nonempty(target: Target, t: TyV)
    ensures
        output_rule(target, t) is Ok ==> output_rule(target, t)->Ok_0.slots.len() > 0,
{
}

/// Splits an output descriptor into the declared return type and the out-parameters.
pub fn expand_return(o: &Output) -> (r: ExpandedReturn)
    requires
        o@.slots.len() > 0,
    ensures
        r.ret@ == return_type(o@),
        param_models(r.extra@) == out_params(o@),
{
    if o.kind == OutputKind::ResultOf || o.kind == OutputKind::OptionOf {
        let extra = out_param_list(&o.slots, 1);
        assert(param_models(extra@) =~= out_params(o@));
        ExpandedReturn { ret: copy_ty(&o.slots[0].ty), extra }
    } else if o.kind == OutputKind::ByReference || o.slots.len() != 1 {
        let extra = out_param_list(&o.slots, 0);
        assert(param_models(extra@) =~= out_params(o@));
        ExpandedReturn { ret: Ty::Unit, extra }
    } else {
        let extra: Vec<FnArg> = Vec::new();
        assert(param_models(extra@) =~= out_params(o@));
        ExpandedReturn { ret: copy_ty(&o.slots[0].ty), extra }
    }
}

fn receiver_ty() -> (r: Ty)
    ensures
        r@ == receiver_type(),
{
    Ty::Ptr { mutable: true, target: Box::new(Ty::named("Self")) }
}

impl C {
    /// Rewrites a function into a flat-ABI entry point.
    pub fn expose_fn(decl: &FnDecl) -> (r: Result<ExposedFn, CError>)
        ensures
            exposed_res(r) == c_expose_fn(decl@),
    {
        let r = C::expose_fn_as(decl, decl.name.clone());
        assert(with_name(decl@, decl.name@) == decl@);
        r
    }

    /// Rewrites a function into a flat-ABI entry point exported under `name`.
    pub fn expose_fn_as(decl: &FnDecl, name: String) -> (r: Result<ExposedFn, CError>)
        ensures
            exposed_res(r) == c_expose_fn(with_name(decl@, name@)),
    {
        expose_with(Target::C, decl, name)
    }
}

/// Converts an input under the rules of `target`.
pub fn convert_input_for(target: Target, ty: &Ty) -> (r: Result<Input, CError>)
    ensures
        input_res(r) == input_rule(target, ty@),
{
    match target {
        Target::C => C::convert_input(ty),
        Target::Java => Ok(crate::java::java_in(ty)),
    }
}

/// Converts an output under the rules of `target`.
pub fn convert_output_for(target: Target, ty: &Ty) -> (r: Result<Output, CError>)
    ensures
        output_res(r) == output_rule(target, ty@),
{
    match target {
        Target::C => C::convert_output(ty),
        Target::Java => Ok(crate::java::java_out(ty)),
    }
}

/// Rewrites a function into an entry point of `target` exported under `name`.
pub fn expose_with(target: Target, decl: &FnDecl, name: String) -> (r: Result<ExposedFn, CError>)
    ensures
        exposed_res(r) == expose_rule(target, with_name(decl@, name@)),
{
        let ghost d = with_name(decl@, name@);
        let destroy = target == Target::C && decl.destructor;
        let n = decl.params.len();
        if destroy {
            let mut i: usize = 0;
            while i < n
                invariant
                    i <= n,
                    n == decl.params.len(),
                    d == with_name(decl@, name@),
                    wraps_destroy(target, d),
                    forall|j: int| 0 <= j < i ==> d.params[j] is Some,
                decreases n - i,
            {
                assert(d.params[i as int] == decl.params@[i as int]@);
                if let Param::Receiver = &decl.params[i] {
                    assert(d.params[i as int] is None);
                    return Err(CError::DestructorReceiverArgument);
                }
                i += 1;
            }
            assert(!has_receiver(d.params));
        }
        let ghost hps = host_params(d.params, destroy);
        let mut names: Vec<String> = Vec::new();
        let mut tys: Vec<Ty> = Vec::new();
        let mut i: usize = 0;
        while i < n
            invariant
                i <= n,
                n == decl.params.len(),
                d == with_name(decl@, name@),
                destroy == wraps_destroy(target, d),
                hps == host_params(d.params, destroy),
                !(destroy && has_receiver(d.params)),
                names.len() == i,
                tys.len() == i,
                forall|j: int| 0 <= j < i ==> (#[trigger] names@[j])@ == hps[j].0 && tys@[j]@ == hps[j].1,
            decreases n - i,
        {
            proof {
                reveal_strlit("this");
            }
            assert(d.params[i as int] == decl.params@[i as int]@);
            assert(hps[i as int] == match d.params[i as int] {
                None => ("this"@, receiver_type()),
                Some(p) => if destroy {
                    (p.0, TyV::Path("Destroy"@, seq![p.1]))
                } else {
                    p
                },
            });
            match &decl.params[i] {
                Param::Receiver => {
                    names.push(String::from_str("this"));
                    tys.push(receiver_ty());
                },
                Param::Typed { name, ty } => {
                    names.push(name.clone());
                    if destroy {
                        let mut a: Vec<Ty> = Vec::new();
                        a.push(copy_ty(ty));
                        assert(models(a@) =~= seq![ty@]);
                        tys.push(Ty::path(String::from_str("Destroy"), a));
                    } else {
                        tys.push(copy_ty(ty));
                    }
                },
            }
            i += 1;
        }
        let mut inputs: Vec<Input> = Vec::new();
        let mut params: Vec<FnArg> = Vec::new();
        let mut i: usize = 0;
        assert(hps.take(0) =~= Seq::empty());
        assert(input_models(inputs@) =~= Seq::empty());
        assert(param_models(params@) =~= Seq::empty());
        while i < n
            invariant
                i <= n,
                n == hps.len(),
                d == with_name(decl@, name@),
                destroy == wraps_destroy(target, d),
                hps == host_params(d.params, destroy),
                !(destroy && has_receiver(d.params)),
                names.len() == n,
                tys.len() == n,
                forall|j: int| 0 <= j < n ==> (#[trigger] names@[j])@ == hps[j].0 && tys@[j]@ == hps[j].1,
                foreign_params(target, hps.take(i as int)) == Ok::<_, CError>(
                    (input_models(inputs@), param_models(params@)),
                ),
            decreases n - i,
        {
            assert(hps.take(i + 1).drop_last() =~= hps.take(i as int));
            assert(hps.take(i + 1).last() == hps[i as int]);
            let ghost k = i as int;
            assert(0 <= k < n);
            assert(names@[k]@ == hps[k].0);
            assert(tys@[k]@ == hps[k].1);
            match convert_input_for(target, &tys[i]) {
                Err(e) => {
                    proof {
                        lemma_foreign_prefix_err(target, hps, i + 1, e);
                    }
                    return Err(e);
                },
                Ok(inp) => {
                    let mut more = expand_named(&names[i], &inp.sources);
                    let ghost a = param_models(params@);
                    let ghost b = param_models(more@);
                    let ghost ins = input_models(inputs@);
                    params.append(&mut more);
                    assert(param_models(params@) =~= a + b);
                    inputs.push(inp);
                    assert(input_models(inputs@) =~= ins.push(inp@));
                },
            }
            i += 1;
        }
        assert(hps.take(n as int) =~= hps);
        match convert_output_for(target, &decl.ret) {
            Err(e) => Err(e),
            Ok(o) => {
                proof {
                    lemma_output_nonempty(target, decl.ret@);
                }
                let er = expand_return(&o);
                let ghost a = param_models(params@);
                let mut extra = er.extra;
                let ghost b = param_models(extra@);
                params.append(&mut extra);
                assert(param_models(params@) =~= a + b);
                Ok(ExposedFn { name, params, ret: er.ret, inputs, output: o })
            },
        }
}

/// An error on a prefix of the parameters is the error of the whole list.
proof fn lemma_foreign_prefix_err(target: Target, hp: Seq<(Seq<char>, TyV)>, k: int, e: CError)
    requires
        0 <= k <= hp.len(),
        foreign_params(target, hp.take(k)) is Err,
        foreign_params(target, hp.take(k))->Err_0 == e,
    ensures
        foreign_params(target, hp) is Err,
        foreign_params(target, hp)->Err_0 == e,
    decreases hp.len() - k,
{
    if k < hp.len() {
        assert(hp.take(k + 1).drop_last() =~= hp.take(k));
        lemma_foreign_prefix_err(target, hp, k + 1, e);
    } else {
        assert(hp.take(k) =~= hp);
    }
}

} // verus!

verus! {

/// A module declaration: its name, visibility and the imports it starts with.
#[derive(Debug, PartialEq, Eq)]
pub struct ModuleDecl {
    pub name: String,
    pub public: bool,
    pub uses: Vec<String>,
}

/// Mathematical model of a module declaration.
pub struct ModuleDeclV {
    pub name: Seq<char>,
    pub public: bool,
    pub uses: Seq<Seq<char>>,
}

impl View for ModuleDecl {
    type V = ModuleDeclV;

    open spec fn view(&self) -> ModuleDeclV {
        ModuleDeclV {
            name: self.name@,
            public: self.public,
            uses: Seq::new(self.uses.len() as nat, |i: int| self.uses@[i]@),
        }
    }
}

} // verus!

verus! {

impl C {
    /// Exposes a batch of functions independently, reporting every refused one.
    pub fn expose_batch(decls: &Vec<FnDecl>) -> (r: Vec<Result<ExposedFn, CError>>)
        ensures
            r.len() == decls.len(),
            forall|i: int|
                0 <= i < decls.len() ==> exposed_res(#[trigger] r@[i]) == c_expose_fn(decls@[i]@),
    {
        let mut r: Vec<Result<ExposedFn, CError>> = Vec::new();
        let mut i: usize = 0;
        while i < decls.len()
            invariant
                i <= decls.len(),
                r.len() == i,
                forall|j: int| 0 <= j < i ==> exposed_res(#[trigger] r@[j]) == c_expose_fn(decls@[j]@),
            decreases decls.len() - i,
        {
            r.push(C::expose_fn(&decls[i]));
            i += 1;
        }
        r
    }
}

} // verus!
