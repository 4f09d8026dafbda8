//! Laws of the promise state machine, stated over the mathematical model of
//! [`crate::state`] and proved once for every value, continuation type and
//! resolution history.

use vstd::prelude::*;
use crate::state::{PromiseError, StateModel};

verus! {

/// Resolving an unresolved promise with `v` stores `v`: a borrow afterwards
/// observes exactly the resolution value, and nothing fires.
pub proof fn lemma_resolve_stores_value<T, R, M>(v: T)
    ensures
        StateModel::<T, R, M>::Unresolved.resolve_fires(v) == Ok::<(Seq<R>, Option<M>),
            PromiseError,
        >((Seq::<R>::empty(), None::<M>)),
        StateModel::<T, R, M>::Unresolved.resolve_next(v).stored_value() == Some(v),
{
}

/// Order law: continuations registered earlier fire earlier. Whatever was
/// queued, registering one more by-reference continuation and resolving
/// fires exactly the previous firing list with the newcomer appended last;
/// in particular the firing order is the registration order.
pub proof fn lemma_registration_order_is_firing_order<T, R, M>(
    s: StateModel<T, R, M>,
    c1: R,
    c2: R,
    v: T,
)
    requires
        !s.settled(),
    ensures
        s.with_then(c1).resolve_fires(v) matches Ok(fired1) && fired1.0
            == s.queued_refs().push(c1),
        s.with_then(c1).with_then(c2).resolve_fires(v) matches Ok(fired2) && fired2.0
            == s.queued_refs().push(c1).push(c2),
{
}

/// By-reference observers never displace the consumer, and the consumer
/// always fires after every observer: the firing list of by-reference
/// continuations comes in full before the by-value continuation is handed
/// the value, whichever order the two kinds were registered in.
pub proof fn lemma_observers_fire_before_consumer<T, R, M>(s: StateModel<T, R, M>, c: R, m: M, v: T)
    requires
        !s.settled(),
        s.queued_mover() is None,
    ensures
        s.with_then_move(m) matches Ok(s1) && s1.with_then(c).resolve_fires(v) matches Ok(f1) && f1
            == (s.queued_refs().push(c), Some(m)),
        s.with_then(c).with_then_move(m) matches Ok(s2) && s2.resolve_fires(v) matches Ok(f2) && f2
            == (s.queued_refs().push(c), Some(m)),
{
}

/// Move-once law: once a by-value continuation is queued, queueing a second
/// one is refused with [`PromiseError::DoubleMove`], whatever else was
/// registered in between.
pub proof fn lemma_move_once<T, R, M>(s: StateModel<T, R, M>, m1: M, m2: M)
    requires
        !s.settled(),
        s.with_then_move(m1) is Ok,
    ensures
        s.with_then_move(m1)->Ok_0.with_then_move(m2) == Err::<StateModel<T, R, M>, PromiseError>(
            PromiseError::DoubleMove,
        ),
{
}

/// The move-once law survives later by-reference registrations: observers
/// added after the consumer do not reopen the consumer slot.
pub proof fn lemma_move_once_after_then<T, R, M>(s: StateModel<T, R, M>, m1: M, c: R, m2: M)
    requires
        !s.settled(),
        s.with_then_move(m1) is Ok,
    ensures
        s.with_then_move(m1)->Ok_0.with_then(c).with_then_move(m2) == Err::<
            StateModel<T, R, M>,
            PromiseError,
        >(PromiseError::DoubleMove),
{
}

/// Resolving a settled promise is refused with
/// [`PromiseError::DoubleResolve`]: so is a second resolution after one that
/// left the value in place, while a resolution whose value went to a
/// by-value continuation leaves the slot open again.
pub proof fn lemma_double_resolve<T, R, M>(s: StateModel<T, R, M>, v1: T, v2: T)
    ensures
        s.settled() ==> s.resolve_fires(v2) == Err::<(Seq<R>, Option<M>), PromiseError>(
            PromiseError::DoubleResolve,
        ),
        !s.settled() && s.queued_mover() is None ==> s.resolve_next(v1).resolve_fires(v2) == Err::<
            (Seq<R>, Option<M>),
            PromiseError,
        >(PromiseError::DoubleResolve),
{
}

/// A resolution that hands the value to a consumer leaves the slot empty:
/// borrowing afterwards observes nothing.
pub proof fn lemma_consumed_value_is_gone<T, R, M>(s: StateModel<T, R, M>, v: T)
    requires
        !s.settled(),
        s.queued_mover() is Some,
    ensures
        s.resolve_next(v).stored_value() is None,
{
}

} // verus!
