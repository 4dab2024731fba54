use vstd::prelude::*;

verus! {

/// An application's handler of one kind of webview event, taking one value:
/// any closure that takes it is one. Handlers are kept as trait objects, so
/// that webviews built with different closures have one type.
pub trait Handler<A, R> {
    /// Whether the handler may be called with `arg`.
    spec fn ready(&self, arg: A) -> bool;

    /// Whether calling the handler with `arg` may give `r`.
    spec fn gives(&self, arg: A, r: R) -> bool;

    /// Calls the handler.
    fn call_with(&self, arg: A) -> (r: R)
        requires
            self.ready(arg),
        ensures
            self.gives(arg, r),
    ;
}

impl<A, R, F: Fn(A) -> R> Handler<A, R> for F {
    open spec fn ready(&self, arg: A) -> bool {
        call_requires(*self, (arg,))
    }

    open spec fn gives(&self, arg: A, r: R) -> bool {
        call_ensures(*self, (arg,), r)
    }

    fn call_with(&self, arg: A) -> (r: R) {
        (self)(arg)
    }
}

/// An application's handler of one kind of webview event, taking two values.
pub trait Handler2<A, B, R> {
    /// Whether the handler may be called with `a` and `b`.
    spec fn ready(&self, a: A, b: B) -> bool;

    /// Whether calling the handler with `a` and `b` may give `r`.
    spec fn gives(&self, a: A, b: B, r: R) -> bool;

    /// Calls the handler.
    fn call_with(&self, a: A, b: B) -> (r: R)
        requires
            self.ready(a, b),
        ensures
            self.gives(a, b, r),
    ;
}

impl<A, B, R, F: Fn(A, B) -> R> Handler2<A, B, R> for F {
    open spec fn ready(&self, a: A, b: B) -> bool {
        call_requires(*self, (a, b))
    }

    open spec fn gives(&self, a: A, b: B, r: R) -> bool {
        call_ensures(*self, (a, b), r)
    }

    fn call_with(&self, a: A, b: B) -> (r: R) {
        (self)(a, b)
    }
}

/// An application's handler of one kind of webview event, taking three values.
pub trait Handler3<A, B, C, R> {
    /// Whether the handler may be called with `a`, `b` and `c`.
    spec fn ready(&self, a: A, b: B, c: C) -> bool;

    /// Whether calling the handler with `a`, `b` and `c` may give `r`.
    spec fn gives(&self, a: A, b: B, c: C, r: R) -> bool;

    /// Calls the handler.
    fn call_with(&self, a: A, b: B, c: C) -> (r: R)
        requires
            self.ready(a, b, c),
        ensures
            self.gives(a, b, c, r),
    ;
}

impl<A, B, C, R, F: Fn(A, B, C) -> R> Handler3<A, B, C, R> for F {
    open spec fn ready(&self, a: A, b: B, c: C) -> bool {
        call_requires(*self, (a, b, c))
    }

    open spec fn gives(&self, a: A, b: B, c: C, r: R) -> bool {
        call_ensures(*self, (a, b, c), r)
    }

    fn call_with(&self, a: A, b: B, c: C) -> (r: R) {
        (self)(a, b, c)
    }
}

} // verus!
