//! Join combinators: one promise that resolves once all of several input
//! promises have resolved, carrying their combined values.
//!
//! Each combinator is built by composing continuations: once the first
//! promise resolves, a by-value continuation is attached to the next, and so
//! on, so the composite resolves only after every input has, whatever
//! real-time order the inputs resolve in.

use vstd::prelude::*;
use crate::promise::Promise;
use crate::state::PromiseError;

verus! {

/// A collection of promises that can be combined into one.
pub trait Joinable<T> {
    fn join(self) -> Result<Promise<T>, PromiseError>;
}

/// Joins two promises into the promise of the pair of their values, owned.
/// Registration is refused, with the error of the failing registration, when
/// either input already gave its value away or already has a by-value
/// continuation.
pub fn join<T1: 'static, T2: 'static>(p1: &mut Promise<T1>, p2: &mut Promise<T2>) -> (r: Result<
    Promise<(T1, T2)>,
    PromiseError,
>)
    ensures
        r matches Err(e) ==> e == PromiseError::DoubleMove,
{
    let second = p2.alias();
    p1.then_move_promise(
        move |x1: T1| -> Promise<(T1, T2)>
            {
                let mut second = second;
                match second.then_move(move |x2: T2| -> (T1, T2) { (x1, x2) }) {
                    Ok(p) => p,
                    Err(_) => Promise::new(),
                }
            },
    )
}

/// Joins three promises into the promise of the triple of their values; the
/// same pattern as [`join`], nested one level deeper.
pub fn join3<T1: 'static, T2: 'static, T3: 'static>(
    p1: &mut Promise<T1>,
    p2: &mut Promise<T2>,
    p3: &mut Promise<T3>,
) -> (r: Result<Promise<(T1, T2, T3)>, PromiseError>)
    ensures
        r matches Err(e) ==> e == PromiseError::DoubleMove,
{
    let second = p2.alias();
    let third = p3.alias();
    p1.then_move_promise(
        move |x1: T1| -> Promise<(T1, T2, T3)>
            {
                let mut second = second;
                let third = third;
                match second.then_move_promise(
                    move |x2: T2| -> Promise<(T1, T2, T3)>
                        {
                            let mut third = third;
                            match third.then_move(
                                move |x3: T3| -> (T1, T2, T3) { (x1, x2, x3) },
                            ) {
                                Ok(p) => p,
                                Err(_) => Promise::new(),
                            }
                        },
                ) {
                    Ok(p) => p,
                    Err(_) => Promise::new(),
                }
            },
    )
}

/// Joins a non-empty list of promises into the promise of the list of their
/// values, in input order, whatever order the inputs resolve in. An empty
/// list is refused with [`PromiseError::EmptyJoin`].
pub fn join_all<T: 'static>(promises: Vec<Promise<T>>) -> (r: Result<
    Promise<Vec<T>>,
    PromiseError,
>)
    ensures
        r == Err::<Promise<Vec<T>>, PromiseError>(PromiseError::EmptyJoin) <==> promises@.len()
            == 0,
        r matches Err(e) ==> e == PromiseError::EmptyJoin || e == PromiseError::DoubleMove,
{
    let mut rest = promises;
    if rest.len() == 0 {
        return Err(PromiseError::EmptyJoin);
    }
    let mut first = rest.remove(0);
    let seeded = first.then_move(
        move |x: T| -> Vec<T>
            {
                let mut xs: Vec<T> = Vec::new();
                xs.push(x);
                xs
            },
    );
    let mut acc: Promise<Vec<T>> = match seeded {
        Ok(p) => p,
        Err(e) => {
            return Err(e);
        },
    };
    while rest.len() > 0
        invariant
            promises@.len() > 0,
        decreases rest@.len(),
    {
        let mut next = rest.remove(0);
        let prev = acc;
        let chained = next.then_move_promise(
            move |x: T| -> Promise<Vec<T>>
                {
                    let mut prev = prev;
                    match prev.then_move(
                        move |xs: Vec<T>| -> Vec<T>
                            {
                                let mut xs = xs;
                                xs.push(x);
                                xs
                            },
                    ) {
                        Ok(p) => p,
                        Err(_) => Promise::new(),
                    }
                },
        );
        acc = match chained {
            Ok(p) => p,
            Err(e) => {
                return Err(e);
            },
        };
    }
    Ok(acc)
}

impl<T: 'static> Joinable<Vec<T>> for Vec<Promise<T>> {
    /// Joins the promises of this list in input order; see [`join_all`].
    fn join(self) -> (r: Result<Promise<Vec<T>>, PromiseError>) {
        join_all(self)
    }
}

} // verus!
