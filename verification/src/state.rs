//! The promise state machine, as transitions on owned state values.
//!
//! A promise's state holds either nothing, a value, or queued continuations.
//! Continuations come in two kinds: by-reference observers, of which any
//! number may be queued and which fire in registration order, and a by-value
//! consumer, of which at most one may ever be queued. The state machine does
//! not call continuations itself: resolution returns a [`Resolution`] that
//! lists exactly what must fire and in what order, so that every transition
//! here is a pure function with an exact contract.

use vstd::prelude::*;

verus! {

/// The usage violations a promise can report. Each names the contract the
/// caller broke.
#[derive(Clone, Copy, Debug, PartialEq, Eq, Structural)]
pub enum PromiseError {
    /// A promise that already holds, or already gave away, its value was
    /// resolved a second time.
    DoubleResolve,
    /// A second by-value continuation was registered on the same promise.
    DoubleMove,
    /// The value was asked for by ownership after it had already been
    /// consumed by a by-value continuation.
    MoveAfterMoved,
    /// A by-reference continuation was registered after the value had been
    /// consumed by a by-value continuation.
    BorrowAfterMoved,
    /// The value was asked for by ownership before the promise was resolved.
    NotYetResolved,
    /// A join combinator was applied to an empty list of promises.
    EmptyJoin,
}

/// One promise's state. `R` is the type of a queued by-reference
/// continuation, `M` the type of the queued by-value continuation.
///
/// `Pending` holds the by-reference observers in registration order together
/// with the at-most-one by-value consumer; a chain of observers wrapped
/// around a consumer always flattens to this shape, and the flat form keeps
/// the invariant "at most one consumer" structural.
pub enum PromiseState<T, R, M> {
    /// No value yet and no continuations queued.
    Unresolved,
    /// The value existed and was consumed by ownership; terminal for
    /// by-value access.
    Moved,
    /// The value is present and has not been moved out.
    Resolved(T),
    /// At least one continuation is queued, waiting for the value.
    Pending { thens: Vec<R>, mover: Option<M> },
}

/// The mathematical mirror of [`PromiseState`]: what specifications and laws
/// speak about.
pub enum StateModel<T, R, M> {
    Unresolved,
    Moved,
    Resolved(T),
    Pending(Seq<R>, Option<M>),
}

/// What a resolution must fire: the by-reference continuations in
/// registration order, each to be given a reference to `value`, then the
/// by-value continuation, if any, to be given `value` itself. If there is no
/// by-value continuation the promise keeps `value` and becomes resolved;
/// otherwise the slot is left empty, its value consumed.
pub struct Resolution<T, R, M> {
    pub refs: Vec<R>,
    pub mover: Option<M>,
    pub value: T,
}

impl<T, R, M> View for PromiseState<T, R, M> {
    type V = StateModel<T, R, M>;

    open spec fn view(&self) -> StateModel<T, R, M> {
        match self {
            PromiseState::Unresolved => StateModel::Unresolved,
            PromiseState::Moved => StateModel::Moved,
            PromiseState::Resolved(v) => StateModel::Resolved(*v),
            PromiseState::Pending { thens, mover } => StateModel::Pending(thens@, *mover),
        }
    }
}

impl<T, R, M> StateModel<T, R, M> {
    /// A settled state holds a value or has given it away; nothing more may
    /// be queued on it and it cannot be resolved again.
    pub open spec fn settled(self) -> bool {
        self is Resolved || self is Moved
    }

    /// The by-reference continuations queued so far, in registration order.
    pub open spec fn queued_refs(self) -> Seq<R> {
        match self {
            StateModel::Pending(thens, _) => thens,
            _ => Seq::empty(),
        }
    }

    /// The by-value continuation queued so far, if any.
    pub open spec fn queued_mover(self) -> Option<M> {
        match self {
            StateModel::Pending(_, mover) => mover,
            _ => None::<M>,
        }
    }

    /// The value a borrow observes: present exactly in the resolved state.
    pub open spec fn stored_value(self) -> Option<T> {
        match self {
            StateModel::Resolved(v) => Some(v),
            _ => None::<T>,
        }
    }

    /// Registering a by-reference observer: appended after every observer
    /// registered before it, never disturbing the queued consumer.
    pub open spec fn with_then(self, cont: R) -> StateModel<T, R, M> {
        StateModel::Pending(self.queued_refs().push(cont), self.queued_mover())
    }

    /// Registering the by-value consumer: allowed exactly once.
    pub open spec fn with_then_move(self, cont: M) -> Result<StateModel<T, R, M>, PromiseError> {
        if self.queued_mover() is Some {
            Err(PromiseError::DoubleMove)
        } else {
            Ok(StateModel::Pending(self.queued_refs(), Some(cont)))
        }
    }

    /// Resolution: on a state that is not settled it hands out every queued
    /// by-reference continuation in registration order, then the consumer if
    /// one is queued; resolving a settled state is refused.
    pub open spec fn resolve_fires(self, value: T) -> Result<(Seq<R>, Option<M>), PromiseError> {
        if self.settled() {
            Err(PromiseError::DoubleResolve)
        } else {
            Ok((self.queued_refs(), self.queued_mover()))
        }
    }

    /// The state a resolution leaves behind: the value stays when nobody
    /// consumes it, and the slot is empty once the consumer has taken it.
    pub open spec fn resolve_next(self, value: T) -> StateModel<T, R, M> {
        if self.queued_mover() is Some {
            StateModel::Unresolved
        } else {
            StateModel::Resolved(value)
        }
    }
}

impl<T, R, M> Resolution<T, R, M> {
    /// The state the promise slot must hold after this resolution fires.
    pub open spec fn next_state(self) -> StateModel<T, R, M> {
        if self.mover is Some {
            StateModel::Unresolved
        } else {
            StateModel::Resolved(self.value)
        }
    }
}

impl<T, R, M> PromiseState<T, R, M> {
    /// Whether the state currently holds a value.
    pub fn is_resolved(&self) -> (r: bool)
        ensures
            r == (self@ is Resolved),
    {
        match self {
            PromiseState::Resolved(_) => true,
            _ => false,
        }
    }

    /// Whether the value has been consumed by ownership.
    pub fn is_moved(&self) -> (r: bool)
        ensures
            r == (self@ is Moved),
    {
        match self {
            PromiseState::Moved => true,
            _ => false,
        }
    }

    /// A borrowed view of the stored value, exactly when the state is
    /// resolved.
    pub fn stored_ref(&self) -> (r: Option<&T>)
        ensures
            match r {
                Some(v) => self@.stored_value() == Some(*v),
                None => self@.stored_value() is None,
            },
    {
        match self {
            PromiseState::Resolved(v) => Some(v),
            _ => None,
        }
    }

    /// Queue a by-reference observer behind every observer registered before
    /// it. The queued consumer, if any, is untouched: observers always fire
    /// before the value is given away.
    pub fn insert_then(self, cont: R) -> (r: Self)
        requires
            !self@.settled(),
        ensures
            r@ == self@.with_then(cont),
    {
        match self {
            PromiseState::Unresolved => {
                let r = PromiseState::Pending { thens: vec![cont], mover: None };
                proof {
                    assert(r@.queued_refs() =~= self@.queued_refs().push(cont));
                }
                r
            },
            PromiseState::Pending { mut thens, mover } => {
                thens.push(cont);
                PromiseState::Pending { thens, mover }
            },
            _ => {
                proof {
                    assert(false);
                }
                PromiseState::Moved
            },
        }
    }

    /// Queue the single by-value consumer. A second registration is refused
    /// with [`PromiseError::DoubleMove`] and the state is handed back
    /// unchanged.
    pub fn insert_then_move(self, cont: M) -> (r: Result<Self, (Self, PromiseError)>)
        requires
            !self@.settled(),
        ensures
            match r {
                Ok(s) => Ok::<StateModel<T, R, M>, PromiseError>(s@) == self@.with_then_move(cont),
                Err((s, e)) => {
                    &&& s@ == self@
                    &&& Err::<StateModel<T, R, M>, PromiseError>(e) == self@.with_then_move(cont)
                },
            },
    {
        match self {
            PromiseState::Unresolved => Ok(
                PromiseState::Pending { thens: Vec::new(), mover: Some(cont) },
            ),
            PromiseState::Pending { thens, mover: None } => Ok(
                PromiseState::Pending { thens, mover: Some(cont) },
            ),
            PromiseState::Pending { thens, mover: Some(prior) } => Err(
                (
                    PromiseState::Pending { thens, mover: Some(prior) },
                    PromiseError::DoubleMove,
                ),
            ),
            _ => {
                proof {
                    assert(false);
                }
                Err((PromiseState::Moved, PromiseError::DoubleMove))
            },
        }
    }

    /// Fold the state against an arriving value: everything queued is handed
    /// out to be fired, in registration order, the consumer last.
    pub fn transform(self, value: T) -> (r: Resolution<T, R, M>)
        requires
            !self@.settled(),
        ensures
            self@.resolve_fires(value) == Ok::<(Seq<R>, Option<M>), PromiseError>(
                (r.refs@, r.mover),
            ),
            r.value == value,
            r.next_state() == self@.resolve_next(value),
    {
        match self {
            PromiseState::Unresolved => Resolution { refs: Vec::new(), mover: None, value },
            PromiseState::Pending { thens, mover } => Resolution { refs: thens, mover, value },
            _ => {
                proof {
                    assert(false);
                }
                Resolution { refs: Vec::new(), mover: None, value }
            },
        }
    }

    /// Take the value by ownership. Exactly the resolved state yields it;
    /// an unresolved or pending promise has no value yet, and a moved one
    /// gave its value away.
    pub fn take_value(self) -> (r: Result<T, (Self, PromiseError)>)
        ensures
            match r {
                Ok(v) => self@ == StateModel::<T, R, M>::Resolved(v),
                Err((s, e)) => {
                    &&& s@ == self@
                    &&& !(self@ is Resolved)
                    &&& e == (if self@ is Moved {
                        PromiseError::MoveAfterMoved
                    } else {
                        PromiseError::NotYetResolved
                    })
                },
            },
    {
        match self {
            PromiseState::Resolved(v) => Ok(v),
            PromiseState::Moved => Err((PromiseState::Moved, PromiseError::MoveAfterMoved)),
            PromiseState::Unresolved => Err(
                (PromiseState::Unresolved, PromiseError::NotYetResolved),
            ),
            PromiseState::Pending { thens, mover } => Err(
                (PromiseState::Pending { thens, mover }, PromiseError::NotYetResolved),
            ),
        }
    }
}

} // verus!

