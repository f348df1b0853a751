//! Handlers of one or two declared parameters, brought to one callable shape:
//! from the execution record and the shared user state to the name of the
//! next state. Each parameter is extracted from the same record and state.
use std::marker::PhantomData;
use vstd::prelude::*;

use crate::context::StateMachineContext;
use crate::extractor::FromContext;

verus! {

/// A handler in its uniform shape. Handlers may be called from another
/// thread than the one that registered them.
pub trait Callback<S>: Send + Sync {
    /// Whether `next` is a name that the handler may return for `context`
    /// and `user_context`.
    spec fn answers(&self, context: StateMachineContext, user_context: S, next: String) -> bool;

    fn call(&self, context: &StateMachineContext, s: &mut S) -> (next: String)
        ensures
            self.answers(*context, *old(s), next),
            *final(s) == *old(s),
    ;
}

/// A function of the parameter types listed in `Args` that names a state.
pub trait HandlerFn<Args> {
    /// Whether the function accepts every value of its parameter types.
    spec fn accepts_all(&self) -> bool;
}

impl<F, T1> HandlerFn<(T1,)> for F where F: Fn(T1) -> String {
    open spec fn accepts_all(&self) -> bool {
        forall|a: T1| #[trigger] self.requires((a,))
    }
}

impl<F, T1, T2> HandlerFn<(T1, T2)> for F where F: Fn(T1, T2) -> String {
    open spec fn accepts_all(&self) -> bool {
        forall|a: T1, b: T2| #[trigger] self.requires((a, b))
    }
}

/// A function of one parameter that accepts every value of it accepts all
/// its inputs in the sense of `HandlerFn`.
pub proof fn lemma_accepts_all_one<F, T1>(f: F)
    where
        F: Fn(T1) -> String,
    requires
        forall|a: T1| #[trigger] f.requires((a,)),
    ensures
        <F as HandlerFn<(T1,)>>::accepts_all(&f),
{
}

/// A function of two parameters that accepts every pair of values accepts
/// all its inputs in the sense of `HandlerFn`.
pub proof fn lemma_accepts_all_two<F, T1, T2>(f: F)
    where
        F: Fn(T1, T2) -> String,
    requires
        forall|a: T1, b: T2| #[trigger] f.requires((a, b)),
    ensures
        <F as HandlerFn<(T1, T2)>>::accepts_all(&f),
{
}

/// A function that can serve as a handler; `Input` lists its parameter
/// types, each extracted from the record and the user state.
pub trait IntoCallback<Input, S>: HandlerFn<Input> + Sized {
    /// Whether the function may return `next` on the parameters extracted
    /// from `context` and `user_context`.
    spec fn may_return(&self, context: StateMachineContext, user_context: S, next: String) -> bool;

    /// Extracts each parameter from `context` and `s`, then calls the
    /// function on them.
    fn call_with(&self, context: &StateMachineContext, s: &S) -> (next: String)
        requires
            self.accepts_all(),
        ensures
            self.may_return(*context, *s, next),
    ;

    /// The function wrapped as a `Callback`.
    fn into_callback(self) -> (r: Wrapper<Input, Self>)
        requires
            self.accepts_all(),
        ensures
            r.function() == self,
    {
        Wrapper::new(self)
    }
}

impl<F, S, T1> IntoCallback<(T1,), S> for F where F: Fn(T1) -> String, T1: FromContext<S> {
    open spec fn may_return(&self, context: StateMachineContext, user_context: S, next: String) -> bool {
        exists|a: T1| T1::extracts(context, user_context, a) && #[trigger] self.ensures((a,), next)
    }

    fn call_with(&self, context: &StateMachineContext, s: &S) -> (next: String) {
        let a = T1::from_context(context, s);
        (self)(a)
    }
}

impl<F, S, T1, T2> IntoCallback<(T1, T2), S> for F where
    F: Fn(T1, T2) -> String,
    T1: FromContext<S>,
    T2: FromContext<S>,
 {
    open spec fn may_return(&self, context: StateMachineContext, user_context: S, next: String) -> bool {
        exists|a: T1, b: T2|
            T1::extracts(context, user_context, a) && T2::extracts(context, user_context, b)
                && #[trigger] self.ensures((a, b), next)
    }

    fn call_with(&self, context: &StateMachineContext, s: &S) -> (next: String) {
        let a = T1::from_context(context, s);
        let b = T2::from_context(context, s);
        (self)(a, b)
    }
}

/// What a function of one parameter may return as a handler: a name that
/// it may return on some value that extraction may give.
pub proof fn lemma_may_return_one<F, S, T1>(
    f: F,
    context: StateMachineContext,
    user_context: S,
    next: String,
)
    where
        F: Fn(T1) -> String,
        T1: FromContext<S>,
    ensures
        <F as IntoCallback<(T1,), S>>::may_return(&f, context, user_context, next) <==> exists|a: T1|
            T1::extracts(context, user_context, a) && #[trigger] f.ensures((a,), next),
{
}

/// What a function of two parameters may return as a handler: a name that
/// it may return on some pair of values that extraction may give.
pub proof fn lemma_may_return_two<F, S, T1, T2>(
    f: F,
    context: StateMachineContext,
    user_context: S,
    next: String,
)
    where
        F: Fn(T1, T2) -> String,
        T1: FromContext<S>,
        T2: FromContext<S>,
    ensures
        <F as IntoCallback<(T1, T2), S>>::may_return(&f, context, user_context, next) <==> exists|
            a: T1,
            b: T2,
        |
            T1::extracts(context, user_context, a) && T2::extracts(context, user_context, b)
                && #[trigger] f.ensures((a, b), next),
{
}

/// A function `f` whose parameter types are listed in `T`. The function
/// accepts every value of those types.
pub struct Wrapper<T, F: HandlerFn<T>> {
    f: F,
    marker: PhantomData<T>,
}

impl<T, F: HandlerFn<T>> Wrapper<T, F> {
    #[verifier::type_invariant]
    closed spec fn inv(&self) -> bool {
        self.f.accepts_all()
    }

    /// The wrapped function.
    pub closed spec fn function(&self) -> F {
        self.f
    }

    /// Wraps `f`, which must accept every value of its parameter types.
    pub fn new(f: F) -> (r: Self)
        requires
            f.accepts_all(),
        ensures
            r.function() == f,
    {
        Wrapper { f, marker: PhantomData }
    }
}

impl<T, F, S> Callback<S> for Wrapper<T, F> where
    T: Send + Sync,
    F: IntoCallback<T, S> + Send + Sync,
 {
    /// The names that the wrapped function may return on the parameters
    /// extracted from `context` and `user_context`.
    open spec fn answers(&self, context: StateMachineContext, user_context: S, next: String) -> bool {
        self.function().may_return(context, user_context, next)
    }

    fn call(&self, context: &StateMachineContext, s: &mut S) -> (next: String) {
        proof {
            use_type_invariant(self);
        }
        self.f.call_with(context, s)
    }
}

/// A handler as the registry stores it: any callback, behind one type.
#[verifier::reject_recursive_types(S)]
pub struct StoredCallback<S> {
    callback: Box<dyn Callback<S>>,
}

impl<S> StoredCallback<S> {
    /// The function `f` wrapped and stored. It returns what `f` returns on
    /// the parameters extracted at each call.
    pub fn from_fn<I, F>(f: F) -> (r: Self) where
        I: Send + Sync + 'static,
        F: IntoCallback<I, S> + Send + Sync + 'static,

        requires
            f.accepts_all(),
        ensures
            forall|context: StateMachineContext, user_context: S, next: String|
                #[trigger] r.answers(context, user_context, next) == f.may_return(
                    context,
                    user_context,
                    next,
                ),
    {
        let w: Wrapper<I, F> = Wrapper::new(f);
        let ghost wrapped = w;
        let r = StoredCallback { callback: Box::new(w) };
        assert forall|context: StateMachineContext, user_context: S, next: String|
            #[trigger] r.answers(context, user_context, next) == f.may_return(
                context,
                user_context,
                next,
            ) by {
            assert(r.callback.answers(context, user_context, next) == wrapped.answers(
                context,
                user_context,
                next,
            ));
        }
        r
    }
}

impl<S> Callback<S> for StoredCallback<S> {
    closed spec fn answers(&self, context: StateMachineContext, user_context: S, next: String) -> bool {
        self.callback.answers(context, user_context, next)
    }

    fn call(&self, context: &StateMachineContext, s: &mut S) -> (next: String) {
        self.callback.call(context, s)
    }
}

} // verus!
