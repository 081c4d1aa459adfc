//! Run-time models of the boundary protocol: the explicit-destroy wrapper, the error and
//! presence channels that result and optional descriptors lay out (channel first, payload
//! after), and the shim's forwarding of interface calls to foreign callbacks.
use vstd::prelude::*;

verus! {

/// A value whose ownership moved from the foreign caller into local code, exactly once.
pub struct Destroy<T> {
    inner: Box<T>,
}

impl<T> View for Destroy<T> {
    type V = T;

    closed spec fn view(&self) -> T {
        *self.inner
    }
}

impl<T> Destroy<T> {
    /// Takes ownership of a value handed over by the foreign side.
    pub fn map_from(value: Box<T>) -> (r: Destroy<T>)
        ensures
            r@ == *value,
    {
        Destroy { inner: value }
    }

    /// Releases the wrapper and yields the owned value.
    pub fn into_inner(self) -> (r: T)
        ensures
            r == self@,
    {
        *self.inner
    }

    /// The owned value.
    pub fn get(&self) -> (r: &T)
        ensures
            *r == self@,
    {
        &self.inner
    }
}

/// Errors that a target carries through its error channel.
pub trait IntoPlatformError {
    type TargetType;

    fn into_platform_error(self) -> Self::TargetType;

    fn ok() -> Self::TargetType;
}

/// The error of an optional value: absence carries nothing.
#[derive(Debug)]
pub struct PlatformOption;

impl IntoPlatformError for PlatformOption {
    type TargetType = ();

    fn into_platform_error(self) {
    }

    fn ok() {
    }
}

/// Carries a result through the error channel: zero for success, with the payload written
/// to `out`; error code `e` becomes `e + 1` and `out` is left alone.
pub fn write_result<T>(r: Result<T, u16>, out: &mut Option<T>) -> (code: u32)
    ensures
        (code == 0) == (r is Ok),
        r is Ok ==> *final(out) == Some(r->Ok_0),
        r is Err ==> code == r->Err_0 + 1 && *final(out) == *old(out),
{
    match r {
        Ok(v) => {
            *out = Some(v);
            0
        },
        Err(e) => e as u32 + 1,
    }
}

/// Carries an optional value: the presence flag, with the value written to `out` only when present.
pub fn write_option<T>(o: Option<T>, out: &mut Option<T>) -> (present: bool)
    ensures
        present == (o is Some),
        o is Some ==> *final(out) == o,
        o is None ==> *final(out) == *old(out),
{
    match o {
        Some(v) => {
            *out = Some(v);
            true
        },
        None => false,
    }
}

/// A call that a shim asks the foreign side to perform.
#[derive(Debug)]
pub enum ShimCall {
    /// Call the callback stored in slot `slot` with these arguments, the handle first.
    Method { slot: usize, args: Vec<u64> },
    /// Call the destructor callback on the handle.
    Destroy { handle: u64 },
}

/// A shim: an opaque foreign handle and one callback slot per interface method.
pub struct Shim {
    handle: u64,
    methods: usize,
}

impl Shim {
    /// The foreign handle the shim forwards.
    pub closed spec fn handle(&self) -> u64 {
        self.handle
    }

    /// The number of callback slots.
    pub closed spec fn methods(&self) -> nat {
        self.methods as nat
    }

    /// A shim over `handle` with `methods` callback slots.
    pub fn new(handle: u64, methods: usize) -> (r: Shim)
        ensures
            r.handle() == handle,
            r.methods() == methods,
    {
        Shim { handle, methods }
    }

    /// The number of callback slots.
    pub fn method_count(&self) -> (r: usize)
        ensures
            r == self.methods(),
    {
        self.methods
    }

    /// Invokes method `slot`: one call of its callback, the handle first, the arguments unchanged.
    pub fn invoke(&self, slot: usize, args: Vec<u64>) -> (c: ShimCall)
        requires
            slot < self.methods(),
        ensures
            c matches ShimCall::Method { slot: s, args: a } && s == slot && a@ == seq![self.handle()]
                + args@,
    {
        let mut a: Vec<u64> = Vec::new();
        a.push(self.handle);
        let ghost h = a@;
        let mut rest = args;
        let ghost t = rest@;
        a.append(&mut rest);
        assert(a@ =~= h + t);
        ShimCall::Method { slot, args: a }
    }

    /// Destroys the shim: one call of the destructor callback on the handle. The shim is
    /// consumed, so no method can be invoked afterwards.
    pub fn destroy(self) -> (c: ShimCall)
        ensures
            c matches ShimCall::Destroy { handle } && handle == self.handle(),
    {
        ShimCall::Destroy { handle: self.handle }
    }
}

} // verus!
