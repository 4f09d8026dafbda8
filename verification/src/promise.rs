//! The shared promise handle.

use vstd::prelude::*;
use vstd::cell::invcell::InvCell;
use vstd::predicate::Predicate;
use std::rc::Rc;
use crate::state::{PromiseError, PromiseState};

verus! {

/// A queued by-reference continuation: fired with a borrow of the resolution
/// value, exactly once, when the promise it is queued on resolves.
pub trait RefContinuation<T> {
    fn fire_ref(&mut self, value: &T);
}

/// A queued by-value continuation: fired with ownership of the resolution
/// value, exactly once, when the promise it is queued on resolves.
pub trait MoveContinuation<T> {
    fn fire_move(&mut self, value: T);
}

/// The predicate of a shared promise slot: every state of the machine may be
/// stored, at every point of its lifecycle.
pub struct StateInv {}

pub type BoxedRef<T> = Box<dyn RefContinuation<T>>;

pub type BoxedMove<T> = Box<dyn MoveContinuation<T>>;

pub type SharedState<T> = Rc<InvCell<PromiseState<T, BoxedRef<T>, BoxedMove<T>>, StateInv>>;

impl<T> Predicate<PromiseState<T, BoxedRef<T>, BoxedMove<T>>> for StateInv {
    open spec fn predicate(&self, s: PromiseState<T, BoxedRef<T>, BoxedMove<T>>) -> bool {
        true
    }
}

/// A handle on one shared promise slot. Handles alias: every handle cloned
/// from the same promise observes the same single resolution.
#[verifier::reject_recursive_types(T)]
pub struct Promise<T> {
    state: SharedState<T>,
}

/// Makes a fresh shared slot holding `s`.
fn new_state<T>(s: PromiseState<T, BoxedRef<T>, BoxedMove<T>>) -> (r: SharedState<T>) {
    Rc::new(InvCell::new(s, Ghost(StateInv {})))
}

impl<T: 'static> Promise<T> {
    /// A fresh promise with no value and no continuations.
    pub fn new() -> (r: Promise<T>) {
        Promise { state: new_state(PromiseState::Unresolved) }
    }

    /// A promise born already holding `value`.
    pub fn resolved(value: T) -> (r: Promise<T>) {
        Promise { state: new_state(PromiseState::Resolved(value)) }
    }

    /// Another handle on the same slot: both observe the same resolution.
    pub fn alias(&self) -> (r: Promise<T>) {
        Promise { state: self.state.clone() }
    }

    /// The shared slot behind this handle.
    pub(crate) fn slot(&self) -> (r: &SharedState<T>) {
        &self.state
    }

    /// Supplies the value. Every queued by-reference continuation fires with
    /// a borrow of it, in registration order; then the queued by-value
    /// continuation, if any, consumes it, and the slot is left empty;
    /// otherwise the promise keeps the value. Resolving a promise that
    /// already holds, or already gave away, its value is refused with
    /// [`PromiseError::DoubleResolve`], the only error this reports.
    pub fn resolve(&mut self, value: T) -> (r: Result<(), PromiseError>)
        ensures
            r matches Err(e) ==> e == PromiseError::DoubleResolve,
    {
        resolve_shared(&self.state, value)
    }
}

impl<T: 'static> Promise<T> {
    /// A copy of the current value, if the promise holds one; never blocks.
    /// An unresolved promise, and one whose value was consumed by a by-value
    /// continuation, have nothing to observe.
    pub fn value(&self) -> (r: Option<T>) where T: Clone {
        let taken = self.state.replace(PromiseState::Unresolved);
        let out = match taken.stored_ref() {
            Some(v) => Some(v.clone()),
            None => None,
        };
        self.state.set(taken);
        out
    }

    /// Consumes the handle and takes the value by ownership. Exactly a
    /// resolved promise yields it: an unresolved or pending one reports
    /// [`PromiseError::NotYetResolved`], and one whose value was already
    /// consumed reports [`PromiseError::MoveAfterMoved`]. On success the
    /// slot is left consumed for every other handle.
    pub fn into_value(self) -> (r: Result<T, PromiseError>)
        ensures
            r matches Err(e) ==> e == PromiseError::MoveAfterMoved || e
                == PromiseError::NotYetResolved,
    {
        let taken = self.state.replace(PromiseState::Moved);
        match taken.take_value() {
            Ok(v) => Ok(v),
            Err((s, e)) => {
                self.state.set(s);
                Err(e)
            },
        }
    }

    /// Registers a by-reference continuation producing a derived value, and
    /// returns the promise of that value. If this promise is already
    /// resolved, `transform` fires synchronously before the call returns and
    /// the returned promise is already resolved; otherwise it fires, in
    /// registration order among by-reference continuations, when this
    /// promise resolves. Refused with [`PromiseError::BorrowAfterMoved`]
    /// once the value has been consumed by a by-value continuation.
    pub fn then<T2: 'static, F: FnOnce(&T) -> T2 + 'static>(&mut self, transform: F) -> (r: Result<
        Promise<T2>,
        PromiseError,
    >)
        requires
            forall|v: &T| call_requires(transform, (v,)),
        ensures
            r matches Err(e) ==> e == PromiseError::BorrowAfterMoved,
    {
        let target = Promise::<T2>::new();
        let action = ThenAction { f: Some(transform), target: target.state.clone(), arg: core::marker::PhantomData };
        match attach_ref(&self.state, Box::new(action)) {
            Ok(()) => Ok(target),
            Err(e) => Err(e),
        }
    }

    /// Registers the single by-value continuation producing a derived value,
    /// and returns the promise of that value. The continuation consumes the
    /// value by ownership, after every by-reference continuation has fired;
    /// the slot is then empty. If this promise is already resolved it is
    /// consumed synchronously before the call returns. A second by-value
    /// registration, before or after resolution, is refused with
    /// [`PromiseError::DoubleMove`].
    pub fn then_move<T2: 'static, F: FnOnce(T) -> T2 + 'static>(
        &mut self,
        transform: F,
    ) -> (r: Result<Promise<T2>, PromiseError>)
        requires
            forall|v: T| call_requires(transform, (v,)),
        ensures
            r matches Err(e) ==> e == PromiseError::DoubleMove,
    {
        let target = Promise::<T2>::new();
        let action = MoveAction { f: Some(transform), target: target.state.clone(), arg: core::marker::PhantomData };
        match attach_move(&self.state, Box::new(action)) {
            Ok(()) => Ok(target),
            Err(e) => Err(e),
        }
    }

    /// Like [`Promise::then`], but the continuation itself returns a
    /// promise: the returned promise resolves only once that inner promise
    /// resolves.
    pub fn then_promise<T2: 'static, F: FnOnce(&T) -> Promise<T2> + 'static>(
        &mut self,
        transform: F,
    ) -> (r: Result<Promise<T2>, PromiseError>)
        requires
            forall|v: &T| call_requires(transform, (v,)),
        ensures
            r matches Err(e) ==> e == PromiseError::BorrowAfterMoved,
    {
        let target = Promise::<T2>::new();
        let action = PromiseAction { f: Some(transform), target: target.state.clone(), arg: core::marker::PhantomData };
        match attach_ref(&self.state, Box::new(action)) {
            Ok(()) => Ok(target),
            Err(e) => Err(e),
        }
    }

    /// Like [`Promise::then_move`], but the continuation itself returns a
    /// promise: the returned promise resolves only once that inner promise
    /// resolves.
    pub fn then_move_promise<T2: 'static, F: FnOnce(T) -> Promise<T2> + 'static>(
        &mut self,
        transform: F,
    ) -> (r: Result<Promise<T2>, PromiseError>)
        requires
            forall|v: T| call_requires(transform, (v,)),
        ensures
            r matches Err(e) ==> e == PromiseError::DoubleMove,
    {
        let target = Promise::<T2>::new();
        let action = MovePromiseAction { f: Some(transform), target: target.state.clone(), arg: core::marker::PhantomData };
        match attach_move(&self.state, Box::new(action)) {
            Ok(()) => Ok(target),
            Err(e) => Err(e),
        }
    }
}

/// Registers a by-reference continuation on the slot `cell`: fired now if a
/// value is present, queued behind earlier by-reference continuations
/// otherwise, refused once the value was consumed.
pub(crate) fn attach_ref<T: 'static>(cell: &SharedState<T>, cont: BoxedRef<T>) -> (r: Result<
    (),
    PromiseError,
>)
    ensures
        r matches Err(e) ==> e == PromiseError::BorrowAfterMoved,
{
    let taken = cell.replace(PromiseState::Unresolved);
    match taken {
        PromiseState::Moved => {
            cell.set(PromiseState::Moved);
            Err(PromiseError::BorrowAfterMoved)
        },
        PromiseState::Resolved(v) => {
            let mut cont = cont;
            cont.fire_ref(&v);
            cell.set(PromiseState::Resolved(v));
            Ok(())
        },
        other => {
            cell.set(other.insert_then(cont));
            Ok(())
        },
    }
}

/// Registers the by-value continuation on the slot `cell`: fired now if a
/// value is present (leaving the slot consumed), queued otherwise; a second
/// by-value continuation is refused.
pub(crate) fn attach_move<T: 'static>(cell: &SharedState<T>, cont: BoxedMove<T>) -> (r: Result<
    (),
    PromiseError,
>)
    ensures
        r matches Err(e) ==> e == PromiseError::DoubleMove,
{
    let taken = cell.replace(PromiseState::Unresolved);
    match taken {
        PromiseState::Moved => {
            cell.set(PromiseState::Moved);
            Err(PromiseError::DoubleMove)
        },
        PromiseState::Resolved(v) => {
            cell.set(PromiseState::Moved);
            let mut cont = cont;
            cont.fire_move(v);
            Ok(())
        },
        other => {
            match other.insert_then_move(cont) {
                Ok(s) => {
                    cell.set(s);
                    Ok(())
                },
                Err((s, e)) => {
                    cell.set(s);
                    Err(e)
                },
            }
        },
    }
}

/// Carries a by-reference continuation together with the slot its result
/// resolves.
#[verifier::reject_recursive_types(T2)]
struct ThenAction<T, T2, F: FnOnce(&T) -> T2> {
    f: Option<F>,
    target: SharedState<T2>,
    arg: core::marker::PhantomData<T>,
}

impl<T, T2, F: FnOnce(&T) -> T2> ThenAction<T, T2, F> {
    #[verifier::type_invariant]
    spec fn callable(&self) -> bool {
        self.f matches Some(f) ==> forall|v: &T| call_requires(f, (v,))
    }
}

impl<T: 'static, T2: 'static, F: FnOnce(&T) -> T2 + 'static> RefContinuation<T> for ThenAction<
    T,
    T2,
    F,
> {
    fn fire_ref(&mut self, value: &T) {
        proof {
            use_type_invariant(&*self);
        }
        let mut taken: Option<F> = None;
        core::mem::swap(&mut self.f, &mut taken);
        if let Some(f) = taken {
            let out = f(value);
            let _ = resolve_shared(&self.target, out);
        }
    }
}

/// Carries the by-value continuation together with the slot its result
/// resolves.
#[verifier::reject_recursive_types(T2)]
struct MoveAction<T, T2, F: FnOnce(T) -> T2> {
    f: Option<F>,
    target: SharedState<T2>,
    arg: core::marker::PhantomData<T>,
}

impl<T, T2, F: FnOnce(T) -> T2> MoveAction<T, T2, F> {
    #[verifier::type_invariant]
    spec fn callable(&self) -> bool {
        self.f matches Some(f) ==> forall|v: T| call_requires(f, (v,))
    }
}

impl<T: 'static, T2: 'static, F: FnOnce(T) -> T2 + 'static> MoveContinuation<T> for MoveAction<
    T,
    T2,
    F,
> {
    fn fire_move(&mut self, value: T) {
        proof {
            use_type_invariant(&*self);
        }
        let mut taken: Option<F> = None;
        core::mem::swap(&mut self.f, &mut taken);
        if let Some(f) = taken {
            let out = f(value);
            let _ = resolve_shared(&self.target, out);
        }
    }
}

/// Resolves its slot with whatever value it is fired with: the tail of a
/// promise-returning continuation.
#[verifier::reject_recursive_types(T)]
struct Forward<T> {
    target: SharedState<T>,
}

impl<T: 'static> MoveContinuation<T> for Forward<T> {
    fn fire_move(&mut self, value: T) {
        let _ = resolve_shared(&self.target, value);
    }
}

/// Carries a by-reference continuation that returns a promise; the slot is
/// resolved once that inner promise resolves.
#[verifier::reject_recursive_types(T2)]
struct PromiseAction<T, T2, F: FnOnce(&T) -> Promise<T2>> {
    f: Option<F>,
    target: SharedState<T2>,
    arg: core::marker::PhantomData<T>,
}

impl<T, T2, F: FnOnce(&T) -> Promise<T2>> PromiseAction<T, T2, F> {
    #[verifier::type_invariant]
    spec fn callable(&self) -> bool {
        self.f matches Some(f) ==> forall|v: &T| call_requires(f, (v,))
    }
}

impl<T: 'static, T2: 'static, F: FnOnce(&T) -> Promise<T2> + 'static> RefContinuation<
    T,
> for PromiseAction<T, T2, F> {
    fn fire_ref(&mut self, value: &T) {
        proof {
            use_type_invariant(&*self);
        }
        let mut taken: Option<F> = None;
        core::mem::swap(&mut self.f, &mut taken);
        if let Some(f) = taken {
            let inner = f(value);
            let tail = Forward { target: self.target.clone() };
            let _ = attach_move(&inner.state, Box::new(tail));
        }
    }
}

/// Carries the by-value continuation that returns a promise; the slot is
/// resolved once that inner promise resolves.
#[verifier::reject_recursive_types(T2)]
struct MovePromiseAction<T, T2, F: FnOnce(T) -> Promise<T2>> {
    f: Option<F>,
    target: SharedState<T2>,
    arg: core::marker::PhantomData<T>,
}

impl<T, T2, F: FnOnce(T) -> Promise<T2>> MovePromiseAction<T, T2, F> {
    #[verifier::type_invariant]
    spec fn callable(&self) -> bool {
        self.f matches Some(f) ==> forall|v: T| call_requires(f, (v,))
    }
}

impl<T: 'static, T2: 'static, F: FnOnce(T) -> Promise<T2> + 'static> MoveContinuation<
    T,
> for MovePromiseAction<T, T2, F> {
    fn fire_move(&mut self, value: T) {
        proof {
            use_type_invariant(&*self);
        }
        let mut taken: Option<F> = None;
        core::mem::swap(&mut self.f, &mut taken);
        if let Some(f) = taken {
            let inner = f(value);
            let tail = Forward { target: self.target.clone() };
            let _ = attach_move(&inner.state, Box::new(tail));
        }
    }
}

/// Resolves the slot `cell` with `value`, firing what was queued. Errors are
/// reported to the caller; a continuation that resolves an aliased slot a
/// second time has its late value dropped instead.
pub(crate) fn resolve_shared<T: 'static>(cell: &SharedState<T>, value: T) -> (r: Result<
    (),
    PromiseError,
>)
    ensures
        r matches Err(e) ==> e == PromiseError::DoubleResolve,
{
    let taken = cell.replace(PromiseState::Unresolved);
    if taken.is_resolved() || taken.is_moved() {
        cell.set(taken);
        return Err(PromiseError::DoubleResolve);
    }
    let mut res = taken.transform(value);
    let mut i: usize = 0;
    let n = res.refs.len();
    while i < n
        invariant
            n == res.refs.len(),
            i <= n,
        decreases n - i,
    {
        let cont = &mut res.refs[i];
        cont.fire_ref(&res.value);
        i = i + 1;
    }
    match res.mover {
        Some(mut m) => {
            m.fire_move(res.value);
        },
        None => {
            cell.set(PromiseState::Resolved(res.value));
        },
    }
    Ok(())
}

} // verus!
