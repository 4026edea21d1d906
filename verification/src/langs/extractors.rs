//! Extractors: a handler names the parts of the call context it needs by the
//! types of its parameters, and `trigger` hands it exactly those parts.

use vstd::prelude::*;

verus! {

/// The call context a handler runs in. For now it holds only the calldata.
#[derive(Debug)]
pub struct Context<CD> {
    pub calldata: Calldata<CD>,
}

/// A call's parameters, as the struct or tuple the handler declares.
#[derive(Debug)]
pub struct Calldata<CD>(pub CD);

/// A part of the context a handler can ask for.
pub trait FromContext<CD> {
    /// The part of `ctx` this extractor selects.
    spec fn extract(ctx: &Context<CD>) -> &Self;

    fn from_context(ctx: &Context<CD>) -> (res: &Self)
        ensures
            res == Self::extract(ctx),
    ;
}

impl<CD> FromContext<CD> for Calldata<CD> {
    open spec fn extract(ctx: &Context<CD>) -> &Self {
        &ctx.calldata
    }

    fn from_context(ctx: &Context<CD>) -> (res: &Self) {
        &ctx.calldata
    }
}

impl<CD> FromContext<CD> for Context<CD> {
    open spec fn extract(ctx: &Context<CD>) -> &Self {
        ctx
    }

    fn from_context(ctx: &Context<CD>) -> (res: &Self) {
        ctx
    }
}

/// A function that can handle a call, given its context.
pub trait Handler<T, CD> {
    /// Whether the handler accepts the parts of `ctx` it asks for.
    spec fn ready(&self, ctx: &Context<CD>) -> bool;

    /// Whether the handler has run on the parts of `ctx` it asks for.
    spec fn handled(&self, ctx: &Context<CD>) -> bool;

    fn call(&self, ctx: &Context<CD>)
        requires
            self.ready(ctx),
        ensures
            self.handled(ctx),
    ;
}

/// A handler with no parameters.
impl<F, CD> Handler<((),), CD> for F where F: Fn() {
    open spec fn ready(&self, ctx: &Context<CD>) -> bool {
        call_requires(*self, ())
    }

    open spec fn handled(&self, ctx: &Context<CD>) -> bool {
        call_ensures(*self, (), ())
    }

    fn call(&self, _ctx: &Context<CD>) {
        self()
    }
}

/// A handler with one extractor.
impl<F, T1, CD> Handler<((), T1), CD> for F where F: Fn(&T1), T1: FromContext<CD> {
    open spec fn ready(&self, ctx: &Context<CD>) -> bool {
        call_requires(*self, (T1::extract(ctx),))
    }

    open spec fn handled(&self, ctx: &Context<CD>) -> bool {
        call_ensures(*self, (T1::extract(ctx),), ())
    }

    fn call(&self, ctx: &Context<CD>) {
        self(T1::from_context(ctx))
    }
}

/// A handler with two extractors.
impl<F, T1, T2, CD> Handler<((), T1, T2), CD> for F where
    F: Fn(&T1, &T2),
    T1: FromContext<CD>,
    T2: FromContext<CD>,
 {
    open spec fn ready(&self, ctx: &Context<CD>) -> bool {
        call_requires(*self, (T1::extract(ctx), T2::extract(ctx)))
    }

    open spec fn handled(&self, ctx: &Context<CD>) -> bool {
        call_ensures(*self, (T1::extract(ctx), T2::extract(ctx)), ())
    }

    fn call(&self, ctx: &Context<CD>) {
        self(T1::from_context(ctx), T2::from_context(ctx))
    }
}

/// Runs `handler` on the parts of `ctx` it asks for.
pub fn trigger<T, H, CD>(ctx: &Context<CD>, handler: H)
    where
        H: Handler<T, CD>,
    requires
        handler.ready(ctx),
    ensures
        handler.handled(ctx),
{
    handler.call(ctx);
}

} // verus!
