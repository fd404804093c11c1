use frunk::{HCons, HNil};
use frunk_utils::cons_list::{Cons, ConsList, Nil};
use frunk_utils::par::for_each::{AsyncLocalParForEach, AsyncParForEach};
use frunk_utils::par::funcs::{AsyncLocalParFunc, AsyncParFunc};
use frunk_utils::par::hmappable::{AsyncLocalParHMappable, AsyncParHMappable};
use frunk_utils::par::map_to_list::{AsyncLocalParMapToList, AsyncParMapToList};
use frunk_utils::{ForEach, Func, HMap, Identity, MapToList, Poly};
use std::future::Future;
use std::pin::Pin;
use std::sync::atomic::{AtomicUsize, Ordering};
use std::sync::{Arc, Mutex};
use std::task::{Context, Poll};

struct Doubler {
    calls: u64,
}

impl Func<u32> for Doubler {
    type Output = u64;

    fn call(&mut self, i: u32) -> u64 {
        self.calls += 1;
        2 * (i as u64) + 1000 * self.calls
    }
}

impl Func<u8> for Doubler {
    type Output = u64;

    fn call(&mut self, i: u8) -> u64 {
        self.calls += 1;
        2 * (i as u64) + 1000 * self.calls
    }
}

#[test]
fn map_to_list_applies_in_order() {
    let list =
        HCons { head: 1u32, tail: HCons { head: 2u8, tail: HCons { head: 3u32, tail: HNil } } };
    let out: ConsList<u64, Cons<u64, Cons<u64, Cons<u64, Nil>>>> =
        list.map_to_list(Doubler { calls: 0 });
    assert_eq!(out.as_slice(), &[1002u64, 2004, 3006]);
    assert_eq!(out.into_iter().collect::<Vec<_>>(), vec![1002u64, 2004, 3006]);
}

#[test]
fn map_to_list_of_nothing_is_empty() {
    let out: ConsList<u64, Nil> = HNil.map_to_list(Doubler { calls: 0 });
    assert!(out.as_slice().is_empty());
    assert_eq!(out.into_iter().next(), None);
}

#[test]
fn map_to_list_identity_keeps_elements() {
    let list = HCons { head: 7i32, tail: HCons { head: 8i32, tail: HNil } };
    let out = list.map_to_list(Identity);
    assert_eq!(out.into_iter().collect::<Vec<_>>(), vec![7, 8]);
}

#[test]
fn identity_returns_its_input() {
    assert_eq!(Identity.call("x"), "x");
    assert_eq!(Identity.call(5u8), 5u8);
}

#[test]
fn hmap_keeps_shape_and_order() {
    let list = HCons { head: 1u32, tail: HCons { head: 2u8, tail: HNil } };
    let out = list.hmap(Doubler { calls: 0 });
    assert_eq!(out, HCons { head: 1002u64, tail: HCons { head: 2004u64, tail: HNil } });
}

#[test]
fn hmap_of_nothing_is_nothing() {
    assert_eq!(HNil.hmap(Identity), HNil);
}

struct Describe;

impl Func<u32> for Describe {
    type Output = String;

    fn call(&mut self, i: u32) -> String {
        format!("number {}", i)
    }
}

impl Func<bool> for Describe {
    type Output = u8;

    fn call(&mut self, i: bool) -> u8 {
        if i {
            1
        } else {
            0
        }
    }
}

#[test]
fn hmap_gives_each_position_its_own_result_type() {
    let list = HCons { head: true, tail: HCons { head: 5u32, tail: HCons { head: false, tail: HNil } } };
    let out = list.hmap(Describe);
    assert_eq!(
        out,
        HCons {
            head: 1u8,
            tail: HCons { head: "number 5".to_string(), tail: HCons { head: 0u8, tail: HNil } }
        }
    );
}

struct Recorder {
    seen: Vec<String>,
}

impl Func<u32> for Recorder {
    type Output = ();

    fn call(&mut self, i: u32) {
        self.seen.push(format!("u32 {}", i));
    }
}

impl Func<bool> for Recorder {
    type Output = ();

    fn call(&mut self, i: bool) {
        self.seen.push(format!("bool {}", i));
    }
}

#[test]
fn for_each_visits_in_order_and_returns_the_operation() {
    let list =
        HCons { head: 1u32, tail: HCons { head: true, tail: HCons { head: 3u32, tail: HNil } } };
    let end = list.for_each(Recorder { seen: Vec::new() });
    assert_eq!(end.seen, vec!["u32 1", "bool true", "u32 3"]);
}

#[test]
fn for_each_through_a_mutable_reference() {
    let list = HCons { head: false, tail: HCons { head: 9u32, tail: HNil } };
    let mut recorder = Recorder { seen: Vec::new() };
    list.for_each(&mut recorder);
    assert_eq!(recorder.seen, vec!["bool false", "u32 9"]);
}

#[test]
fn for_each_on_nothing_leaves_the_operation_alone() {
    let end = HNil.for_each(Recorder { seen: vec!["before".to_string()] });
    assert_eq!(end.seen, vec!["before"]);
}

/// A future that is pending for a given number of polls, then ready.
struct Delayed<T> {
    polls_left: u32,
    value: Option<T>,
    order: Arc<Mutex<Vec<T>>>,
}

impl<T: Copy + Unpin> Future for Delayed<T> {
    type Output = T;

    fn poll(self: Pin<&mut Self>, cx: &mut Context<'_>) -> Poll<T> {
        let this = self.get_mut();
        if this.polls_left == 0 {
            let value = this.value.take().unwrap();
            this.order.lock().unwrap().push(value);
            Poll::Ready(value)
        } else {
            this.polls_left -= 1;
            cx.waker().wake_by_ref();
            Poll::Pending
        }
    }
}

/// Halves its input; the larger the input, the later the result.
struct Halver {
    started: AtomicUsize,
    order: Arc<Mutex<Vec<u32>>>,
}

impl Halver {
    fn new() -> Self {
        Halver { started: AtomicUsize::new(0), order: Arc::new(Mutex::new(Vec::new())) }
    }

    fn start(&self, i: u32) -> Delayed<u32> {
        self.started.fetch_add(1, Ordering::SeqCst);
        Delayed { polls_left: i, value: Some(i / 2), order: self.order.clone() }
    }
}

impl AsyncLocalParFunc<u32> for Halver {
    type Output = u32;
    type Future = Delayed<u32>;

    fn call(&self, i: u32) -> Delayed<u32> {
        self.start(i)
    }
}

impl AsyncParFunc<u32> for Halver {
    type Output = u32;
    type Future = Delayed<u32>;

    fn call(&self, i: u32) -> Delayed<u32> {
        self.start(i)
    }
}

type Three = HCons<u32, HCons<u32, HCons<u32, HNil>>>;

fn three() -> Three {
    HCons { head: 30u32, tail: HCons { head: 10u32, tail: HCons { head: 20u32, tail: HNil } } }
}

#[test]
fn par_map_to_list_local_keeps_positions() {
    let f = Poly(Halver::new());
    let fut = three().par_map_to_list_local(&f);
    assert_eq!(f.0.started.load(Ordering::SeqCst), 3);
    assert!(f.0.order.lock().unwrap().is_empty());
    let done = futures::executor::block_on(fut);
    assert_eq!(*f.0.order.lock().unwrap(), vec![5, 10, 15]);
    assert_eq!(done, (15, (5, (10, ()))));
    let list = <Three as AsyncLocalParMapToList<Poly<Halver>, u32>>::gather(done);
    assert_eq!(list.as_slice(), &[15, 5, 10]);
    assert_eq!(list.into_iter().collect::<Vec<_>>(), vec![15, 5, 10]);
}

#[test]
fn par_map_to_list_keeps_positions() {
    let f = Poly(Halver::new());
    let fut = three().par_map_to_list(&f);
    assert_eq!(f.0.started.load(Ordering::SeqCst), 3);
    let done = futures::executor::block_on(fut);
    assert_eq!(*f.0.order.lock().unwrap(), vec![5, 10, 15]);
    let list = <Three as AsyncParMapToList<Poly<Halver>, u32>>::gather(done);
    assert_eq!(list.into_iter().collect::<Vec<_>>(), vec![15, 5, 10]);
}

#[test]
fn par_map_to_list_of_nothing_is_empty() {
    let f = Poly(Halver::new());
    let done = futures::executor::block_on(AsyncLocalParMapToList::<_, u32>::par_map_to_list_local(
        HNil, &f,
    ));
    let list = <HNil as AsyncLocalParMapToList<Poly<Halver>, u32>>::gather(done);
    assert!(list.as_slice().is_empty());
    let done = futures::executor::block_on(AsyncParMapToList::<_, u32>::par_map_to_list(HNil, &f));
    let list = <HNil as AsyncParMapToList<Poly<Halver>, u32>>::gather(done);
    assert!(list.as_slice().is_empty());
    assert_eq!(f.0.started.load(Ordering::SeqCst), 0);
}

#[test]
fn par_map_local_keeps_positions() {
    let f = Poly(Halver::new());
    let fut = three().par_map_local(&f);
    assert_eq!(f.0.started.load(Ordering::SeqCst), 3);
    let done = futures::executor::block_on(fut);
    assert_eq!(*f.0.order.lock().unwrap(), vec![5, 10, 15]);
    let out = <Three as AsyncLocalParHMappable<Poly<Halver>>>::gather(done);
    assert_eq!(out, HCons { head: 15, tail: HCons { head: 5, tail: HCons { head: 10, tail: HNil } } });
}

#[test]
fn par_map_keeps_positions() {
    let f = Poly(Halver::new());
    let fut = three().par_map(&f);
    let done = futures::executor::block_on(fut);
    assert_eq!(*f.0.order.lock().unwrap(), vec![5, 10, 15]);
    let out = <Three as AsyncParHMappable<Poly<Halver>>>::gather(done);
    assert_eq!(out, HCons { head: 15, tail: HCons { head: 5, tail: HCons { head: 10, tail: HNil } } });
}

#[test]
fn par_map_of_nothing_is_nothing() {
    let f = Poly(Halver::new());
    let done = futures::executor::block_on(AsyncLocalParHMappable::par_map_local(HNil, &f));
    assert_eq!(<HNil as AsyncLocalParHMappable<Poly<Halver>>>::gather(done), HNil);
    let done = futures::executor::block_on(AsyncParHMappable::par_map(HNil, &f));
    assert_eq!(<HNil as AsyncParHMappable<Poly<Halver>>>::gather(done), HNil);
}

/// Notes every input once its turn has come; later for larger inputs.
struct Noter {
    order: Arc<Mutex<Vec<u32>>>,
}

struct Noting {
    inner: Delayed<u32>,
}

impl Future for Noting {
    type Output = ();

    fn poll(self: Pin<&mut Self>, cx: &mut Context<'_>) -> Poll<()> {
        match Pin::new(&mut self.get_mut().inner).poll(cx) {
            Poll::Ready(_) => Poll::Ready(()),
            Poll::Pending => Poll::Pending,
        }
    }
}

impl Noter {
    fn start(&self, i: u32) -> Noting {
        Noting { inner: Delayed { polls_left: i, value: Some(i), order: self.order.clone() } }
    }
}

impl AsyncLocalParFunc<u32> for Noter {
    type Output = ();
    type Future = Noting;

    fn call(&self, i: u32) -> Noting {
        self.start(i)
    }
}

impl AsyncParFunc<u32> for Noter {
    type Output = ();
    type Future = Noting;

    fn call(&self, i: u32) -> Noting {
        self.start(i)
    }
}

#[test]
fn par_for_each_local_runs_every_invocation() {
    let f = Poly(Noter { order: Arc::new(Mutex::new(Vec::new())) });
    let fut = three().par_for_each_local(&f);
    assert!(f.0.order.lock().unwrap().is_empty());
    let done = futures::executor::block_on(fut);
    assert_eq!(done, ((), ((), ((), ()))));
    assert_eq!(*f.0.order.lock().unwrap(), vec![10, 20, 30]);
}

#[test]
fn par_for_each_runs_every_invocation() {
    let f = Poly(Noter { order: Arc::new(Mutex::new(Vec::new())) });
    let done = futures::executor::block_on(three().par_for_each(&f));
    assert_eq!(done, ((), ((), ((), ()))));
    assert_eq!(*f.0.order.lock().unwrap(), vec![10, 20, 30]);
}

#[test]
fn par_for_each_on_nothing_does_nothing() {
    let f = Poly(Noter { order: Arc::new(Mutex::new(Vec::new())) });
    futures::executor::block_on(AsyncLocalParForEach::par_for_each_local(HNil, &f));
    futures::executor::block_on(AsyncParForEach::par_for_each(HNil, &f));
    assert!(f.0.order.lock().unwrap().is_empty());
}

#[test]
fn shared_reference_is_an_operation_too() {
    let halver = Halver::new();
    let by_ref = &halver;
    let out = futures::executor::block_on(AsyncLocalParFunc::call(&by_ref, 8));
    assert_eq!(out, 4);
    let out = futures::executor::block_on(AsyncParFunc::call(&by_ref, 6));
    assert_eq!(out, 3);
}
