//! Type shapes: a syntactic view of a declared type.
use vstd::prelude::*;

verus! {

/// Mathematical model of a type shape.
pub enum TyV {
    Unit,
    Path(Seq<char>, Seq<TyV>),
    Ptr(bool, Box<TyV>),
    Tuple(Seq<TyV>),
    BareFn(Seq<(Option<Seq<char>>, TyV)>, Box<TyV>),
    Other(Seq<char>),
}

/// A named parameter of a function-pointer shape.
#[derive(Debug, PartialEq, Eq)]
pub struct FnArg {
    pub name: Option<String>,
    pub ty: Ty,
}

/// The shape of a declared type.
#[derive(Debug, PartialEq, Eq)]
pub enum Ty {
    /// The empty tuple `()`.
    Unit,
    /// A (possibly qualified) type name with its ordered generic parameters.
    Path { name: String, args: Vec<Ty> },
    /// A raw pointer, `*mut T` when `mutable`, else `*const T`.
    Ptr { mutable: bool, target: Box<Ty> },
    /// A tuple of two or more types.
    Tuple { elems: Vec<Ty> },
    /// A function pointer with its parameters and its return shape.
    BareFn { params: Vec<FnArg>, ret: Box<Ty> },
    /// Any other type, passed through unchanged.
    Other { text: String },
}

/// The model of an optional name.
pub open spec fn opt_str(o: Option<String>) -> Option<Seq<char>> {
    match o {
        Some(s) => Some(s@),
        None => None,
    }
}

impl Ty {
    /// The mathematical model of the shape.
    pub open spec fn model(&self) -> TyV
        decreases self,
    {
        match self {
            Ty::Unit => TyV::Unit,
            Ty::Path { name, args } => TyV::Path(
                name@,
                Seq::new(
                    args.len() as nat,
                    |i: int|
                        if 0 <= i < args.len() {
                            args@[i].model()
                        } else {
                            TyV::Unit
                        },
                ),
            ),
            Ty::Ptr { mutable, target } => TyV::Ptr(*mutable, Box::new(target.model())),
            Ty::Tuple { elems } => TyV::Tuple(
                Seq::new(
                    elems.len() as nat,
                    |i: int|
                        if 0 <= i < elems.len() {
                            elems@[i].model()
                        } else {
                            TyV::Unit
                        },
                ),
            ),
            Ty::BareFn { params, ret } => TyV::BareFn(
                Seq::new(
                    params.len() as nat,
                    |i: int|
                        if 0 <= i < params.len() {
                            (opt_str(params@[i].name), params@[i].ty.model())
                        } else {
                            (None, TyV::Unit)
                        },
                ),
                Box::new(ret.model()),
            ),
            Ty::Other { text } => TyV::Other(text@),
        }
    }
}

impl View for Ty {
    type V = TyV;

    open spec fn view(&self) -> TyV {
        self.model()
    }
}

/// The models of a sequence of shapes.
pub open spec fn models(s: Seq<Ty>) -> Seq<TyV> {
    Seq::new(s.len(), |i: int| s[i]@)
}

/// The models of a sequence of parameters.
pub open spec fn param_models(s: Seq<FnArg>) -> Seq<(Option<Seq<char>>, TyV)> {
    Seq::new(s.len(), |i: int| (opt_str(s[i].name), s[i].ty@))
}

/// A list of shapes as one shape: a single one stays itself, others form a tuple.
pub open spec fn tuple_of(s: Seq<TyV>) -> TyV {
    if s.len() == 0 {
        TyV::Unit
    } else if s.len() == 1 {
        s[0]
    } else {
        TyV::Tuple(s)
    }
}

/// A copy of an optional name.
pub fn copy_opt_str(s: &Option<String>) -> (r: Option<String>)
    ensures
        opt_str(r) == opt_str(*s),
{
    match s {
        Some(x) => Some(x.clone()),
        None => None,
    }
}

impl Ty {
    /// A plain name without parameters.
    pub fn named(name: &str) -> (r: Ty)
        ensures
            r@ == TyV::Path(name@, Seq::empty()),
    {
        let r = Ty::Path { name: String::from_str(name), args: Vec::new() };
        assert(r@->Path_1 =~= Seq::<TyV>::empty());
        r
    }

    /// A named template with its parameters.
    pub fn path(name: String, args: Vec<Ty>) -> (r: Ty)
        ensures
            r@ == TyV::Path(name@, models(args@)),
    {
        let r = Ty::Path { name, args };
        assert(r@->Path_1 =~= models(args@));
        r
    }

    /// A tuple of the given shapes.
    pub fn tuple(elems: Vec<Ty>) -> (r: Ty)
        ensures
            r@ == TyV::Tuple(models(elems@)),
    {
        let r = Ty::Tuple { elems };
        assert(r@->Tuple_0 =~= models(elems@));
        r
    }

    /// A function pointer with the given parameters and return shape.
    pub fn bare_fn(params: Vec<FnArg>, ret: Ty) -> (r: Ty)
        ensures
            r@ == TyV::BareFn(param_models(params@), Box::new(ret@)),
    {
        let r = Ty::BareFn { params, ret: Box::new(ret) };
        assert(r@->BareFn_0 =~= param_models(params@));
        r
    }

}

/// A deep copy of a shape.
pub fn copy_ty(t: &Ty) -> (r: Ty)
    ensures
        r@ == t@,
    decreases t,
{
    match t {
        Ty::Unit => Ty::Unit,
        Ty::Path { name, args } => {
            let a = copy_all(args);
            assert(t@->Path_1 =~= models(args@));
            Ty::path(name.clone(), a)
        },
        Ty::Ptr { mutable, target } => {
            Ty::Ptr { mutable: *mutable, target: Box::new(copy_ty(target)) }
        },
        Ty::Tuple { elems } => {
            let a = copy_all(elems);
            assert(t@->Tuple_0 =~= models(elems@));
            Ty::tuple(a)
        },
        Ty::BareFn { params, ret } => {
            let a = copy_params(params);
            assert(t@->BareFn_0 =~= param_models(params@));
            Ty::bare_fn(a, copy_ty(ret))
        },
        Ty::Other { text } => Ty::Other { text: text.clone() },
    }
}

/// A deep copy of each parameter of `v`.
pub fn copy_params(v: &Vec<FnArg>) -> (r: Vec<FnArg>)
    ensures
        param_models(r@) == param_models(v@),
    decreases v,
{
    let mut r: Vec<FnArg> = Vec::new();
    let mut i: usize = 0;
    while i < v.len()
        invariant
            i <= v.len(),
            r.len() == i,
            forall|j: int| 0 <= j < i ==> (#[trigger] r@[j]).ty@ == v@[j].ty@
                && opt_str(r@[j].name) == opt_str(v@[j].name),
        decreases v.len() - i,
    {
        proof {
            assert(decreases_to!(v => v@[i as int]));
        }
        let c = copy_ty(&v[i].ty);
        r.push(FnArg { name: copy_opt_str(&v[i].name), ty: c });
        i += 1;
    }
    assert(param_models(r@) =~= param_models(v@));
    r
}

/// A deep copy of each shape of `v`.
pub fn copy_all(v: &Vec<Ty>) -> (r: Vec<Ty>)
    ensures
        models(r@) == models(v@),
    decreases v,
{
    let mut r: Vec<Ty> = Vec::new();
    let mut i: usize = 0;
    while i < v.len()
        invariant
            i <= v.len(),
            r.len() == i,
            forall|j: int| 0 <= j < i ==> (#[trigger] r@[j])@ == v@[j]@,
        decreases v.len() - i,
    {
        proof {
            assert(decreases_to!(v => v@[i as int]));
        }
        let t = copy_ty(&v[i]);
        r.push(t);
        i += 1;
    }
    assert(models(r@) =~= models(v@));
    r
}

} // verus!
