use promises::{join, join3, AsyncRunner, Joinable, Promise, PromiseError};

#[test]
fn test_promise_resolve() {
    let mut p = Promise::new();
    p.resolve(5);
    assert_eq!(p.value().unwrap(), 5);
}

#[test]
fn test_promise_resolved_then_promise() {
    let mut p = Promise::resolved(5);
    let p2 = p.then_promise(|val| Promise::resolved(val * 2)).unwrap();
    assert_eq!(p2.value().unwrap(), 10);
}

#[test]
fn test_promise_then_promise() {
    let mut p = Promise::new();
    let p2 = p.then_promise(|val| Promise::resolved(val * 2)).unwrap();
    p.resolve(5);
    assert_eq!(p2.value().unwrap(), 10);
}

#[test]
fn test_promise_resolved_then_move_promise() {
    let mut p = Promise::resolved(5);
    let p2 = p.then_move_promise(|val| Promise::resolved(val * 2)).unwrap();
    assert_eq!(p2.value().unwrap(), 10);
}

#[test]
fn test_promise_then_move_promise() {
    let mut p = Promise::new();
    let p2 = p.then_move_promise(|val| Promise::resolved(val * 2)).unwrap();
    p.resolve(5);
    assert_eq!(p2.value().unwrap(), 10);
}

#[test]
fn test_promise_then() {
    let mut p = Promise::new();
    let p2 = p.then(|val| val * 2).unwrap();
    p.resolve(5);
    assert_eq!(p2.value().unwrap(), 10);
}

#[test]
fn test_then_after_resolved() {
    let mut p = Promise::new();
    p.resolve(7);
    let p2 = p.then(|x| x * 2).unwrap();
    assert_eq!(p2.value().unwrap(), 14);
}

#[test]
fn test_promise_then_then_move() {
    let mut p = Promise::new();
    let p2 = p.then(|val| val * 2).unwrap();
    let p3 = p.then_move(|val| val * 3).unwrap();
    p.resolve(5);
    assert!(p.value().is_none());
    assert_eq!(p2.value().unwrap(), 10);
    assert_eq!(p3.value().unwrap(), 15);
}

#[test]
fn test_promise_join() {
    let mut a: Promise<i32> = Promise::new();
    let mut b: Promise<String> = Promise::new();
    let j = join(&mut a, &mut b)
        .unwrap()
        .then(|&(ref i, ref s)| format!("{} _ {}", i, s))
        .unwrap();
    assert!(j.value().is_none());
    a.resolve(5);
    assert!(j.value().is_none());
    b.resolve("hello".to_string());
    assert_eq!(j.value().unwrap(), "5 _ hello".to_string());
}

#[test]
fn test_promise_join3() {
    let mut a: Promise<i32> = Promise::new();
    let mut b: Promise<String> = Promise::new();
    let mut c: Promise<String> = Promise::new();
    let j = join3(&mut a, &mut b, &mut c)
        .unwrap()
        .then(|&(ref i, ref s, ref s2)| format!("{} _ {} {}", i, s, s2))
        .unwrap();
    assert!(j.value().is_none());
    a.resolve(5);
    assert!(j.value().is_none());
    b.resolve("hello".to_string());
    c.resolve("world".to_string());
    assert_eq!(j.value().unwrap(), "5 _ hello world".to_string());
}

#[test]
fn test_promise_array_join() {
    let mut a: Promise<i32> = Promise::new();
    let mut b: Promise<i32> = Promise::new();
    let j: Promise<Vec<i32>> = vec![a.alias(), b.alias()].join().unwrap();
    assert!(j.value().is_none());
    a.resolve(5);
    assert!(j.value().is_none());
    b.resolve(7);
    assert_eq!(j.value().unwrap(), vec![5, 7]);
}

#[test]
fn test_promise_async() {
    let mut runner = AsyncRunner::new();
    let (tx, rx) = std::sync::mpsc::channel();
    let p = runner.exec_async(move || -> String { rx.recv().unwrap() });
    runner.try_resolve_all();
    assert!(p.value().is_none());
    tx.send("Hello world from thread".to_string()).unwrap();
    loop {
        runner.try_resolve_all();
        if p.value().is_some() {
            break;
        }
    }
    assert_eq!(p.value().unwrap(), "Hello world from thread");
}

#[test]
fn async_pooled_round_trip() {
    let mut runner = AsyncRunner::new_pooled(2);
    let p = runner.exec_async(|| 6 * 7);
    let q = runner.exec_async(|| 10 + 10);
    loop {
        runner.try_resolve_all();
        if p.value().is_some() && q.value().is_some() {
            break;
        }
    }
    assert_eq!(p.value().unwrap(), 42);
    assert_eq!(q.value().unwrap(), 20);
}

#[test]
fn then_on_resolved_fires_before_registration_returns() {
    let mut p = Promise::resolved(4);
    let hit = std::rc::Rc::new(std::cell::Cell::new(false));
    let seen = hit.clone();
    let p2 = p
        .then(move |x| {
            seen.set(true);
            x + 1
        })
        .unwrap();
    assert!(hit.get());
    assert_eq!(p2.value().unwrap(), 5);
}

#[test]
fn then_move_on_resolved_fires_before_registration_returns() {
    let mut p = Promise::resolved(4);
    let hit = std::rc::Rc::new(std::cell::Cell::new(false));
    let seen = hit.clone();
    let p2 = p
        .then_move(move |x| {
            seen.set(true);
            x + 2
        })
        .unwrap();
    assert!(hit.get());
    assert_eq!(p2.value().unwrap(), 6);
    assert!(p.value().is_none());
}

#[test]
fn continuations_fire_in_registration_order() {
    let log = std::rc::Rc::new(std::cell::RefCell::new(Vec::new()));
    let first = log.clone();
    let second = log.clone();
    let mut p = Promise::new();
    let _a = p
        .then(move |x: &i32| {
            first.borrow_mut().push((1, *x));
        })
        .unwrap();
    let _b = p
        .then(move |x: &i32| {
            second.borrow_mut().push((2, *x));
        })
        .unwrap();
    p.resolve(9);
    assert_eq!(*log.borrow(), vec![(1, 9), (2, 9)]);
}

#[test]
fn observers_fire_before_the_consumer() {
    let log = std::rc::Rc::new(std::cell::RefCell::new(Vec::new()));
    let moved = log.clone();
    let observed = log.clone();
    let mut p = Promise::new();
    let _a = p
        .then_move(move |x: i32| {
            moved.borrow_mut().push(("moved", x));
        })
        .unwrap();
    let _b = p
        .then(move |x: &i32| {
            observed.borrow_mut().push(("observed", *x));
        })
        .unwrap();
    p.resolve(3);
    assert_eq!(*log.borrow(), vec![("observed", 3), ("moved", 3)]);
}

#[test]
fn double_resolve_is_refused() {
    let mut p = Promise::new();
    assert_eq!(p.resolve(5), Ok(()));
    assert_eq!(p.resolve(6), Err(PromiseError::DoubleResolve));
    assert_eq!(p.value().unwrap(), 5);
}

#[test]
fn resolve_after_move_is_refused() {
    let mut p = Promise::resolved(5);
    let p2 = p.then_move(|x| x + 1).unwrap();
    assert_eq!(p2.value().unwrap(), 6);
    assert_eq!(p.resolve(7), Err(PromiseError::DoubleResolve));
}

#[test]
fn second_then_move_before_resolution_is_refused() {
    let mut p = Promise::<i32>::new();
    let _first = p.then_move(|val| val * 2).unwrap();
    assert!(matches!(p.then_move(|val| val * 3), Err(PromiseError::DoubleMove)));
}

#[test]
fn second_then_move_after_resolution_is_refused() {
    let mut p = Promise::resolved(5);
    let first = p.then_move(|val| val * 2).unwrap();
    assert_eq!(first.value().unwrap(), 10);
    assert!(matches!(p.then_move(|val| val * 3), Err(PromiseError::DoubleMove)));
}

#[test]
fn then_after_move_is_refused() {
    let mut p = Promise::resolved(5);
    let _moved = p.then_move(|val| val * 2).unwrap();
    assert!(matches!(p.then(|val| val * 3), Err(PromiseError::BorrowAfterMoved)));
}

#[test]
fn into_value_takes_the_value() {
    let mut p = Promise::new();
    p.resolve(11);
    let q = p.alias();
    assert_eq!(p.into_value(), Ok(11));
    assert_eq!(q.into_value(), Err(PromiseError::MoveAfterMoved));
}

#[test]
fn into_value_before_resolution_is_refused() {
    let p = Promise::<i32>::new();
    assert_eq!(p.into_value(), Err(PromiseError::NotYetResolved));
}

#[test]
fn join_gives_the_same_pair_either_completion_order() {
    let mut a: Promise<i32> = Promise::new();
    let mut b: Promise<i32> = Promise::new();
    let j = join(&mut a, &mut b).unwrap();
    a.resolve(1);
    b.resolve(2);
    assert_eq!(j.value().unwrap(), (1, 2));

    let mut c: Promise<i32> = Promise::new();
    let mut d: Promise<i32> = Promise::new();
    let k = join(&mut c, &mut d).unwrap();
    d.resolve(2);
    c.resolve(1);
    assert_eq!(k.value().unwrap(), (1, 2));
}

#[test]
fn list_join_keeps_input_order_whatever_the_resolution_order() {
    let mut p0: Promise<i32> = Promise::new();
    let mut p1: Promise<i32> = Promise::new();
    let mut p2: Promise<i32> = Promise::new();
    let j = vec![p0.alias(), p1.alias(), p2.alias()].join().unwrap();
    p1.resolve(7);
    p2.resolve(9);
    assert!(j.value().is_none());
    p0.resolve(5);
    assert_eq!(j.value().unwrap(), vec![5, 7, 9]);
}

#[test]
fn empty_list_join_is_refused() {
    let none: Vec<Promise<i32>> = Vec::new();
    assert!(matches!(none.join(), Err(PromiseError::EmptyJoin)));
}

#[test]
fn single_element_list_join() {
    let mut only: Promise<i32> = Promise::new();
    let j = vec![only.alias()].join().unwrap();
    assert!(j.value().is_none());
    only.resolve(5);
    assert_eq!(j.value().unwrap(), vec![5]);
}
